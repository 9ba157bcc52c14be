use vstd::prelude::*;
use crate::convert::NameError;
use crate::name::{LocalSocketName, NamePayload};
use crate::support::NameTypeSupport;

verus! {

/// Whether `s` holds no null byte.
pub open spec fn nul_free(s: Seq<u8>) -> bool {
    forall|i: int| 0 <= i < s.len() ==> s[i] != 0
}

/// The native address text for a payload: a null-terminated byte string with
/// no interior null. A payload without a null byte gets one appended; one
/// whose only null byte is its last is taken as it is; any other payload has
/// no native form.
pub open spec fn native_address(p: Seq<u8>) -> Option<Seq<u8>> {
    if nul_free(p) {
        Some(p.push(0))
    } else if p.len() > 0 && p.last() == 0 && nul_free(p.drop_last()) {
        Some(p)
    } else {
        None
    }
}

/// Whether a name goes to the namespace form of the transport's address:
/// on a platform with both forms the name's own flag decides, on the others
/// the one form there is.
pub open spec fn routes_to_namespace(support: NameTypeSupport, namespaced: bool) -> bool {
    match support {
        NameTypeSupport::OnlyPaths => false,
        NameTypeSupport::OnlyNamespaced => true,
        NameTypeSupport::Both => namespaced,
    }
}

/// The address that a name reaches under the given support: whether it is in
/// the namespace form, and its native text; `None` where the payload has no
/// native form.
pub open spec fn socket_address(
    payload: Seq<u8>,
    namespaced: bool,
    support: NameTypeSupport,
) -> Option<(bool, Seq<u8>)> {
    match native_address(payload) {
        Some(text) => Some((routes_to_namespace(support, namespaced), text)),
        None => None,
    }
}

/// An address in the form that the Unix domain socket transport takes: a
/// null-terminated byte string, in the filesystem or in the abstract
/// namespace.
pub enum UdSocketPath<'a> {
    File(NamePayload<'a>),
    Namespaced(NamePayload<'a>),
}

impl<'a> View for UdSocketPath<'a> {
    type V = Seq<u8>;

    open spec fn view(&self) -> Seq<u8> {
        match self {
            UdSocketPath::File(p) => p@,
            UdSocketPath::Namespaced(p) => p@,
        }
    }
}

impl<'a> UdSocketPath<'a> {
    /// The address as a pair: whether it is in the namespace form, and its
    /// bytes.
    pub open spec fn spec_address(&self) -> (bool, Seq<u8>) {
        (self is Namespaced, self@)
    }

    /// The address bytes, the terminating null byte included.
    pub fn as_bytes_with_nul(&self) -> (r: &[u8])
        ensures
            r@ == self@,
    {
        match self {
            UdSocketPath::File(p) => p.as_bytes(),
            UdSocketPath::Namespaced(p) => p.as_bytes(),
        }
    }

    /// Whether the address is in the abstract namespace.
    pub fn is_namespaced(&self) -> (r: bool)
        ensures
            r == self is Namespaced,
    {
        match self {
            UdSocketPath::File(_) => false,
            UdSocketPath::Namespaced(_) => true,
        }
    }
}

/// The index of the first null byte of `b`, if any.
fn first_nul(b: &[u8]) -> (r: Option<usize>)
    ensures
        r is None <==> nul_free(b@),
        r is Some ==> r->Some_0 < b@.len() && b@[r->Some_0 as int] == 0 && nul_free(
            b@.take(r->Some_0 as int),
        ),
{
    let mut i: usize = 0;
    while i < b.len()
        invariant
            i <= b@.len(),
            nul_free(b@.take(i as int)),
        decreases b@.len() - i,
    {
        if b[i] == 0 {
            return Some(i);
        }
        assert(b@.take(i as int + 1) =~= b@.take(i as int).push(b@[i as int]));
        i = i + 1;
    }
    assert(b@.take(i as int) =~= b@);
    None
}

/// Turns a payload into native address text, as `native_address` states,
/// without copying a borrowed payload that already ends in its only null
/// byte.
fn payload_to_native<'a>(p: NamePayload<'a>) -> (r: Result<NamePayload<'a>, NameError>)
    ensures
        r is Err <==> native_address(p@) is None,
        r is Err ==> r->Err_0 == NameError::InvalidInput,
        r is Ok ==> r->Ok_0@ == native_address(p@)->Some_0,
{
    let nul = first_nul(p.as_bytes());
    match nul {
        None => {
            let mut v = p.into_owned();
            v.push(0);
            Ok(NamePayload::Owned(v))
        },
        Some(i) => {
            let len = p.as_bytes().len();
            if i + 1 == len {
                assert(p@.drop_last() =~= p@.take(i as int));
                Ok(p)
            } else {
                assert(!nul_free(p@));
                assert(p@.last() == 0 ==> !nul_free(p@.drop_last())) by {
                    if p@.last() == 0 {
                        assert(p@.drop_last()[i as int] == 0);
                    }
                }
                Err(NameError::InvalidInput)
            }
        },
    }
}

/// Translates a name into the address form of the transport, given what the
/// platform supports. The name's flag is the only routing key; its payload
/// must be valid native address text.
pub fn local_socket_name_to_ud_socket_path<'a>(
    name: LocalSocketName<'a>,
    support: NameTypeSupport,
) -> (r: Result<UdSocketPath<'a>, NameError>)
    ensures
        r is Err <==> native_address(name.payload()) is None,
        r is Err ==> r->Err_0 == NameError::InvalidInput,
        r is Ok ==> r->Ok_0@ == native_address(name.payload())->Some_0,
        r is Ok ==> (r->Ok_0 is Namespaced <==> routes_to_namespace(
            support,
            name.spec_is_namespaced(),
        )),
{
    let to_namespace = match support {
        NameTypeSupport::OnlyPaths => false,
        NameTypeSupport::OnlyNamespaced => true,
        NameTypeSupport::Both => name.is_namespaced(),
    };
    let native = payload_to_native(name.into_inner_cow());
    match native {
        Ok(p) => if to_namespace {
            Ok(UdSocketPath::Namespaced(p))
        } else {
            Ok(UdSocketPath::File(p))
        },
        Err(e) => Err(e),
    }
}

} // verus!
