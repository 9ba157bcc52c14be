use vstd::prelude::*;

verus! {

/// Represents which kinds of identifiers can be used for a local socket's
/// name on the current platform.
#[derive(Clone, Copy, Debug, PartialEq, Eq, Structural, Hash)]
pub enum NameTypeSupport {
    /// Only filesystem paths can be used.
    OnlyPaths,
    /// Only names in a dedicated namespace can be used.
    OnlyNamespaced,
    /// Both of the above options are available.
    Both,
}

/// The name types that the Unix domain socket transport of Linux accepts:
/// filesystem paths and the abstract namespace.
pub const NAME_TYPE_ALWAYS_SUPPORTED: NameTypeSupport = NameTypeSupport::Both;

/// Returns the name types supported by the transport on the running system.
///
/// Support does not vary between versions of the operating system, so this is
/// the compile-time floor itself.
pub fn name_type_support_query() -> (r: NameTypeSupport)
    ensures
        r == NAME_TYPE_ALWAYS_SUPPORTED,
{
    NAME_TYPE_ALWAYS_SUPPORTED
}

impl NameTypeSupport {
    /// The types of local socket names supported on the current platform
    /// regardless of the environment and of the version of the OS.
    pub const ALWAYS_AVAILABLE: NameTypeSupport = NAME_TYPE_ALWAYS_SUPPORTED;

    /// Whether `self` allows filesystem-path names.
    pub open spec fn spec_paths_supported(self) -> bool {
        self is OnlyPaths || self is Both
    }

    /// Whether `self` allows namespaced names.
    pub open spec fn spec_namespace_supported(self) -> bool {
        self is OnlyNamespaced || self is Both
    }

    /// What the runtime query returns: the name types supported with the
    /// current environment.
    pub open spec fn spec_query() -> NameTypeSupport {
        NAME_TYPE_ALWAYS_SUPPORTED
    }

    /// Returns the types of local socket names supported on the current
    /// platform with the current environment.
    pub fn query() -> (r: NameTypeSupport)
        ensures
            r == Self::spec_query(),
    {
        name_type_support_query()
    }

    /// Returns `true` if, according to `self`, filesystem-based local sockets
    /// are supported; `false` otherwise.
    pub fn paths_supported(self) -> (r: bool)
        ensures
            r == self.spec_paths_supported(),
    {
        match self {
            NameTypeSupport::OnlyPaths | NameTypeSupport::Both => true,
            NameTypeSupport::OnlyNamespaced => false,
        }
    }

    /// Returns `true` if, according to `self`, namespaced local socket names
    /// are supported; `false` otherwise.
    pub fn namespace_supported(self) -> (r: bool)
        ensures
            r == self.spec_namespace_supported(),
    {
        match self {
            NameTypeSupport::OnlyNamespaced | NameTypeSupport::Both => true,
            NameTypeSupport::OnlyPaths => false,
        }
    }
}

/// The runtime support never takes away a name type that the compile-time
/// floor grants: a check that passed against `ALWAYS_AVAILABLE` holds against
/// `query()` too.
pub proof fn lemma_floor_within_query()
    ensures
        NameTypeSupport::ALWAYS_AVAILABLE.spec_paths_supported()
            ==> NameTypeSupport::spec_query().spec_paths_supported(),
        NameTypeSupport::ALWAYS_AVAILABLE.spec_namespace_supported()
            ==> NameTypeSupport::spec_query().spec_namespace_supported(),
{
}

} // verus!
