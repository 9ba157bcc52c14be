use vstd::prelude::*;
use vstd::slice::slice_to_vec;
use crate::support::NameTypeSupport;

verus! {

/// The byte that marks a namespaced name at the start of a generic string.
pub const AT_SIGN: u8 = 0x40;

/// Whether a generic string selects a namespaced name: it starts with `@`.
pub open spec fn starts_with_at(s: Seq<u8>) -> bool {
    s.len() > 0 && s[0] == AT_SIGN
}

/// The payload that the `@` syntax gives to a generic string: the string
/// without its leading `@`, or the whole string.
pub open spec fn parsed_payload(s: Seq<u8>) -> Seq<u8> {
    if starts_with_at(s) {
        s.drop_first()
    } else {
        s
    }
}

/// The generic string that stands for a name under the `@` syntax: `@`
/// followed by the payload for a namespaced name, the payload alone for a
/// path name.
pub open spec fn generic_text(payload: Seq<u8>, namespaced: bool) -> Seq<u8> {
    if namespaced {
        seq![AT_SIGN] + payload
    } else {
        payload
    }
}

/// Writing a name as its generic string and converting that string with the
/// `@` syntax gives back the same flag and the same payload, for every name
/// whose generic string is unambiguous: any namespaced name, and a path name
/// whose payload does not itself start with `@`.
pub proof fn lemma_generic_round_trip(payload: Seq<u8>, namespaced: bool)
    requires
        namespaced || !starts_with_at(payload),
    ensures
        starts_with_at(generic_text(payload, namespaced)) == namespaced,
        namespaced ==> generic_text(payload, namespaced).drop_first() == payload,
        !namespaced ==> generic_text(payload, namespaced) == payload,
{
    if namespaced {
        assert(generic_text(payload, namespaced).drop_first() =~= payload);
    }
}

/// Whether a local socket name is supported under the given capability: a
/// namespaced name where namespaces are, a path name where paths are.
pub open spec fn name_supported_by(support: NameTypeSupport, namespaced: bool) -> bool {
    (support.spec_namespace_supported() && namespaced) || (support.spec_paths_supported()
        && !namespaced)
}

/// The bytes of a name: borrowed from the caller's buffer, or owned.
pub enum NamePayload<'a> {
    Borrowed(&'a [u8]),
    Owned(Vec<u8>),
}

impl<'a> View for NamePayload<'a> {
    type V = Seq<u8>;

    open spec fn view(&self) -> Seq<u8> {
        match self {
            NamePayload::Borrowed(b) => b@,
            NamePayload::Owned(v) => v@,
        }
    }
}

impl<'a> NamePayload<'a> {
    /// The bytes, whichever way they are held.
    pub fn as_bytes(&self) -> (r: &[u8])
        ensures
            r@ == self@,
    {
        match self {
            NamePayload::Borrowed(b) => *b,
            NamePayload::Owned(v) => v.as_slice(),
        }
    }

    /// The bytes as an owned buffer, copied only where they were borrowed.
    pub fn into_owned(self) -> (r: Vec<u8>)
        ensures
            r@ == self@,
    {
        match self {
            NamePayload::Borrowed(b) => slice_to_vec(b),
            NamePayload::Owned(v) => v,
        }
    }
}

/// A name for a local socket: a byte payload and whether it is a namespaced
/// name or a filesystem path. The flag is fixed at construction and alone
/// decides how the payload is addressed.
pub struct LocalSocketName<'a> {
    inner: NamePayload<'a>,
    namespaced: bool,
}

impl<'a> LocalSocketName<'a> {
    /// The payload of the name.
    pub closed spec fn payload(&self) -> Seq<u8> {
        self.inner@
    }

    /// Whether the name is namespaced (`false`: a filesystem path).
    pub closed spec fn spec_is_namespaced(&self) -> bool {
        self.namespaced
    }

    /// Whether the payload is borrowed from the caller's buffer rather than
    /// owned by the name.
    pub closed spec fn holds_borrowed(&self) -> bool {
        self.inner is Borrowed
    }

    /// Builds a name from its payload and its flag.
    pub(crate) fn from_raw_parts(inner: NamePayload<'a>, namespaced: bool) -> (r: Self)
        ensures
            r.holds_borrowed() == inner is Borrowed,
            r.payload() == inner@,
            r.spec_is_namespaced() == namespaced,
    {
        LocalSocketName { inner, namespaced }
    }

    /// Returns `true` if the type of the name is supported by the OS, `false`
    /// otherwise. The check is performed at runtime.
    pub fn is_supported(&self) -> (r: bool)
        ensures
            r == name_supported_by(NameTypeSupport::spec_query(), self.spec_is_namespaced()),
    {
        (NameTypeSupport::query().namespace_supported() && self.is_namespaced()) || (
        NameTypeSupport::query().paths_supported() && self.is_path())
    }

    /// Returns `true` if the type of the name is supported on every version
    /// of the OS, `false` otherwise.
    pub fn is_always_supported(&self) -> (r: bool)
        ensures
            r == name_supported_by(NameTypeSupport::ALWAYS_AVAILABLE, self.spec_is_namespaced()),
    {
        (NameTypeSupport::ALWAYS_AVAILABLE.namespace_supported() && self.is_namespaced()) || (
        NameTypeSupport::ALWAYS_AVAILABLE.paths_supported() && self.is_path())
    }

    /// Returns `true` if the value is a namespaced name, `false` otherwise.
    pub fn is_namespaced(&self) -> (r: bool)
        ensures
            r == self.spec_is_namespaced(),
    {
        self.namespaced
    }

    /// Returns `true` if the value is a filesystem path, `false` otherwise.
    pub fn is_path(&self) -> (r: bool)
        ensures
            r == !self.spec_is_namespaced(),
    {
        !self.namespaced
    }

    /// The payload as bytes, without the type of the name.
    pub fn inner(&self) -> (r: &[u8])
        ensures
            r@ == self.payload(),
    {
        self.inner.as_bytes()
    }

    /// The payload as an owned buffer, without the type of the name.
    pub fn into_inner(self) -> (r: Vec<u8>)
        ensures
            r@ == self.payload(),
    {
        self.inner.into_owned()
    }

    /// The payload as held, borrowed or owned, without the type of the name.
    pub fn inner_cow(&self) -> (r: &NamePayload<'a>)
        ensures
            r@ == self.payload(),
    {
        &self.inner
    }

    /// Takes the payload as held, borrowed or owned, without the type of the
    /// name.
    pub fn into_inner_cow(self) -> (r: NamePayload<'a>)
        ensures
            r@ == self.payload(),
    {
        self.inner
    }
}

} // verus!
