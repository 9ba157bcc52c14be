//! Local sockets: one naming scheme and one facade over the stream-oriented
//! local IPC primitives of the platform (Unix domain sockets, named pipes).
//!
//! The library holds the logic of names (the `@` syntax, path names and
//! namespaced names), the model of what the platform supports, the routing of
//! a name to the address form that the transport understands, and the
//! listener and stream facade written once over a transport interface.

pub mod support;
pub mod name;
pub mod convert;
pub mod address;
pub mod facade;

pub use support::{
    NameTypeSupport, name_type_support_query, NAME_TYPE_ALWAYS_SUPPORTED, lemma_floor_within_query,
};
pub use name::{LocalSocketName, NamePayload, AT_SIGN, lemma_generic_round_trip};
pub use convert::{
    NameError, ToLocalSocketName, to_local_socket_name_osstr, to_local_socket_name_osstring,
    str_to_local_socket_name, string_to_local_socket_name,
};
pub use address::{UdSocketPath, local_socket_name_to_ud_socket_path};
pub use facade::{Incoming, LocalSocketError, LocalSocketListener, LocalSocketStream, Transport};
