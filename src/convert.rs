use vstd::prelude::*;
use vstd::slice::slice_subrange;
use vstd::utf8::{valid_utf8, encode_utf8};
use vstd::string::StringSliceAdditionalSpecFns;
use crate::name::{AT_SIGN, LocalSocketName, NamePayload, parsed_payload, starts_with_at};

verus! {

/// Why a string-like value could not become a local socket name or an
/// address.
#[derive(Clone, Copy, Debug, PartialEq, Eq, Structural)]
pub enum NameError {
    /// A byte string that had to be text is not valid UTF-8.
    InvalidData,
    /// A payload holds a null byte where the native address forbids one.
    InvalidInput,
}

/// Relies on `std::str::from_utf8`: it succeeds exactly on well-formed UTF-8.
#[verifier::external_body]
fn is_utf8(bytes: &[u8]) -> (r: bool)
    ensures
        r == valid_utf8(bytes@),
{
    std::str::from_utf8(bytes).is_ok()
}

/// Relies on `String::into_bytes`: the buffer of a `String` is the UTF-8
/// encoding of its characters.
#[verifier::external_body]
fn string_into_bytes(s: String) -> (r: Vec<u8>)
    ensures
        r@ == encode_utf8(s@),
{
    s.into_bytes()
}

/// Converts a borrowed generic string with the `@` syntax: a leading `@` is
/// dropped by taking a subslice and makes the name namespaced; otherwise the
/// whole string is a path name.
pub fn to_local_socket_name_osstr<'a>(val: &'a [u8]) -> (r: LocalSocketName<'a>)
    ensures
        r.holds_borrowed(),
        !starts_with_at(val@) ==> r.payload() == val@ && !r.spec_is_namespaced(),
        starts_with_at(val@) ==> r.payload() == val@.drop_first() && r.spec_is_namespaced(),
{
    if val.len() > 0 && val[0] == AT_SIGN {
        let rest = slice_subrange(val, 1, val.len());
        assert(rest@ =~= val@.drop_first());
        LocalSocketName::from_raw_parts(NamePayload::Borrowed(rest), true)
    } else {
        LocalSocketName::from_raw_parts(NamePayload::Borrowed(val), false)
    }
}

/// Converts an owned generic string with the `@` syntax: a leading `@` is
/// removed in place and makes the name namespaced; otherwise the whole string
/// is a path name.
pub fn to_local_socket_name_osstring(val: Vec<u8>) -> (r: LocalSocketName<'static>)
    ensures
        !r.holds_borrowed(),
        !starts_with_at(val@) ==> r.payload() == val@ && !r.spec_is_namespaced(),
        starts_with_at(val@) ==> r.payload() == val@.drop_first() && r.spec_is_namespaced(),
{
    let mut val = val;
    if val.len() > 0 && val[0] == AT_SIGN {
        let ghost before = val@;
        val.remove(0);
        assert(val@ =~= before.drop_first());
        LocalSocketName::from_raw_parts(NamePayload::Owned(val), true)
    } else {
        LocalSocketName::from_raw_parts(NamePayload::Owned(val), false)
    }
}

impl<'a> LocalSocketName<'a> {
    /// A borrowed filesystem path: always a path name, with the whole path as
    /// payload, whatever its first byte.
    pub fn from_path(path: &'a [u8]) -> (r: LocalSocketName<'a>)
        ensures
            r.holds_borrowed(),
            r.payload() == path@,
            !r.spec_is_namespaced(),
    {
        LocalSocketName::from_raw_parts(NamePayload::Borrowed(path), false)
    }

    /// An owned filesystem path: always a path name, with the whole path as
    /// payload, whatever its first byte.
    pub fn from_path_buf(path: Vec<u8>) -> (r: LocalSocketName<'static>)
        ensures
            !r.holds_borrowed(),
            r.payload() == path@,
            !r.spec_is_namespaced(),
    {
        LocalSocketName::from_raw_parts(NamePayload::Owned(path), false)
    }

    /// A borrowed C string, given with its terminating null byte: it must be
    /// UTF-8 and is then converted with the `@` syntax, the null byte kept.
    pub fn from_c_str(bytes_with_nul: &'a [u8]) -> (r: Result<LocalSocketName<'a>, NameError>)
        ensures
            r is Ok ==> r->Ok_0.holds_borrowed(),
            r is Err <==> !valid_utf8(bytes_with_nul@),
            r is Err ==> r->Err_0 == NameError::InvalidData,
            r is Ok && !starts_with_at(bytes_with_nul@) ==> r->Ok_0.payload() == bytes_with_nul@
                && !r->Ok_0.spec_is_namespaced(),
            r is Ok && starts_with_at(bytes_with_nul@) ==> r->Ok_0.payload()
                == bytes_with_nul@.drop_first() && r->Ok_0.spec_is_namespaced(),
    {
        if is_utf8(bytes_with_nul) {
            Ok(to_local_socket_name_osstr(bytes_with_nul))
        } else {
            Err(NameError::InvalidData)
        }
    }

    /// An owned C string, given with its terminating null byte: it must be
    /// UTF-8 and is then converted with the `@` syntax, the null byte kept.
    pub fn from_c_string(bytes_with_nul: Vec<u8>) -> (r: Result<
        LocalSocketName<'static>,
        NameError,
    >)
        ensures
            r is Ok ==> !r->Ok_0.holds_borrowed(),
            r is Err <==> !valid_utf8(bytes_with_nul@),
            r is Err ==> r->Err_0 == NameError::InvalidData,
            r is Ok && !starts_with_at(bytes_with_nul@) ==> r->Ok_0.payload() == bytes_with_nul@
                && !r->Ok_0.spec_is_namespaced(),
            r is Ok && starts_with_at(bytes_with_nul@) ==> r->Ok_0.payload()
                == bytes_with_nul@.drop_first() && r->Ok_0.spec_is_namespaced(),
    {
        if is_utf8(bytes_with_nul.as_slice()) {
            Ok(to_local_socket_name_osstring(bytes_with_nul))
        } else {
            Err(NameError::InvalidData)
        }
    }
}

/// Types which can be converted to a local socket name. Text values follow
/// the `@` syntax.
pub trait ToLocalSocketName<'a>: Sized {
    /// The error that the conversion of `self` fails with, if it fails.
    spec fn conversion_error(&self) -> Option<NameError>;

    /// The payload of the name that `self` converts to.
    spec fn converted_payload(&self) -> Seq<u8>;

    /// Whether the name that `self` converts to is namespaced.
    spec fn converted_namespaced(&self) -> bool;

    /// Performs the conversion to a local socket name.
    fn to_local_socket_name(self) -> (r: Result<LocalSocketName<'a>, NameError>)
        ensures
            r is Err <==> self.conversion_error() is Some,
            r is Err ==> r->Err_0 == self.conversion_error()->Some_0,
            r is Ok ==> r->Ok_0.payload() == self.converted_payload(),
            r is Ok ==> r->Ok_0.spec_is_namespaced() == self.converted_namespaced(),
    ;
}

/// Converts borrowed text with the `@` syntax, over its UTF-8 bytes.
pub fn str_to_local_socket_name<'a>(val: &'a str) -> (r: LocalSocketName<'a>)
    ensures
        r.holds_borrowed(),
        !starts_with_at(val.spec_bytes()) ==> r.payload() == val.spec_bytes()
            && !r.spec_is_namespaced(),
        starts_with_at(val.spec_bytes()) ==> r.payload() == val.spec_bytes().drop_first()
            && r.spec_is_namespaced(),
{
    to_local_socket_name_osstr(val.as_bytes())
}

/// Converts owned text with the `@` syntax, over its UTF-8 bytes.
pub fn string_to_local_socket_name(val: String) -> (r: LocalSocketName<'static>)
    ensures
        !r.holds_borrowed(),
        !starts_with_at(encode_utf8(val@)) ==> r.payload() == encode_utf8(val@)
            && !r.spec_is_namespaced(),
        starts_with_at(encode_utf8(val@)) ==> r.payload() == encode_utf8(val@).drop_first()
            && r.spec_is_namespaced(),
{
    to_local_socket_name_osstring(string_into_bytes(val))
}

impl<'a> ToLocalSocketName<'a> for &'a str {
    open spec fn conversion_error(&self) -> Option<NameError> {
        None
    }

    open spec fn converted_payload(&self) -> Seq<u8> {
        parsed_payload(self.spec_bytes())
    }

    open spec fn converted_namespaced(&self) -> bool {
        starts_with_at(self.spec_bytes())
    }

    fn to_local_socket_name(self) -> (r: Result<LocalSocketName<'a>, NameError>)
        ensures
            r is Ok,
            r->Ok_0.holds_borrowed(),
            !starts_with_at(self.spec_bytes()) ==> r->Ok_0.payload() == self.spec_bytes()
                && !r->Ok_0.spec_is_namespaced(),
            starts_with_at(self.spec_bytes()) ==> r->Ok_0.payload()
                == self.spec_bytes().drop_first() && r->Ok_0.spec_is_namespaced(),
    {
        Ok(str_to_local_socket_name(self))
    }
}

impl ToLocalSocketName<'static> for String {
    open spec fn conversion_error(&self) -> Option<NameError> {
        None
    }

    open spec fn converted_payload(&self) -> Seq<u8> {
        parsed_payload(encode_utf8(self@))
    }

    open spec fn converted_namespaced(&self) -> bool {
        starts_with_at(encode_utf8(self@))
    }

    fn to_local_socket_name(self) -> (r: Result<LocalSocketName<'static>, NameError>)
        ensures
            r is Ok,
            !r->Ok_0.holds_borrowed(),
            !starts_with_at(encode_utf8(self@)) ==> r->Ok_0.payload() == encode_utf8(self@)
                && !r->Ok_0.spec_is_namespaced(),
            starts_with_at(encode_utf8(self@)) ==> r->Ok_0.payload()
                == encode_utf8(self@).drop_first() && r->Ok_0.spec_is_namespaced(),
    {
        Ok(string_to_local_socket_name(self))
    }
}

impl<'a> ToLocalSocketName<'a> for &'a [u8] {
    open spec fn conversion_error(&self) -> Option<NameError> {
        None
    }

    open spec fn converted_payload(&self) -> Seq<u8> {
        parsed_payload(self@)
    }

    open spec fn converted_namespaced(&self) -> bool {
        starts_with_at(self@)
    }

    fn to_local_socket_name(self) -> (r: Result<LocalSocketName<'a>, NameError>)
        ensures
            r is Ok,
            r->Ok_0.holds_borrowed(),
            !starts_with_at(self@) ==> r->Ok_0.payload() == self@
                && !r->Ok_0.spec_is_namespaced(),
            starts_with_at(self@) ==> r->Ok_0.payload() == self@.drop_first()
                && r->Ok_0.spec_is_namespaced(),
    {
        Ok(to_local_socket_name_osstr(self))
    }
}

impl ToLocalSocketName<'static> for Vec<u8> {
    open spec fn conversion_error(&self) -> Option<NameError> {
        None
    }

    open spec fn converted_payload(&self) -> Seq<u8> {
        parsed_payload(self@)
    }

    open spec fn converted_namespaced(&self) -> bool {
        starts_with_at(self@)
    }

    fn to_local_socket_name(self) -> (r: Result<LocalSocketName<'static>, NameError>)
        ensures
            r is Ok,
            !r->Ok_0.holds_borrowed(),
            !starts_with_at(self@) ==> r->Ok_0.payload() == self@
                && !r->Ok_0.spec_is_namespaced(),
            starts_with_at(self@) ==> r->Ok_0.payload() == self@.drop_first()
                && r->Ok_0.spec_is_namespaced(),
    {
        Ok(to_local_socket_name_osstring(self))
    }
}

impl<'a> ToLocalSocketName<'a> for LocalSocketName<'a> {
    open spec fn conversion_error(&self) -> Option<NameError> {
        None
    }

    open spec fn converted_payload(&self) -> Seq<u8> {
        self.payload()
    }

    open spec fn converted_namespaced(&self) -> bool {
        self.spec_is_namespaced()
    }

    fn to_local_socket_name(self) -> (r: Result<LocalSocketName<'a>, NameError>) {
        Ok(self)
    }
}

} // verus!
