use vstd::prelude::*;
use crate::address::{
    UdSocketPath, local_socket_name_to_ud_socket_path, native_address, socket_address,
};
use crate::convert::{NameError, ToLocalSocketName};
use crate::name::LocalSocketName;
use crate::support::NameTypeSupport;

verus! {

/// The stream transport under local sockets: it binds and listens at an
/// address, accepts and makes connections, and moves bytes. Exactly one
/// implementation is chosen for each target platform; the facade below is
/// written once against this interface.
pub trait Transport {
    /// A bound, listening endpoint.
    type Listener;

    /// One connection.
    type Stream;

    /// What the transport reports on failure.
    type Error;

    /// Binds a listener at `path` and starts listening.
    fn bind(path: UdSocketPath<'_>) -> Result<Self::Listener, Self::Error>;

    /// Blocks until one inbound connection is available and returns it.
    fn accept(listener: &Self::Listener) -> Result<Self::Stream, Self::Error>;

    /// Connects to the listener bound at `path`.
    fn connect(path: UdSocketPath<'_>) -> Result<Self::Stream, Self::Error>;

    /// Reads some bytes into `buf`, returning how many.
    fn read(stream: &mut Self::Stream, buf: &mut [u8]) -> Result<usize, Self::Error>;

    /// Writes some bytes of `buf`, returning how many.
    fn write(stream: &mut Self::Stream, buf: &[u8]) -> Result<usize, Self::Error>;

    /// Flushes what the transport buffers.
    fn flush(stream: &mut Self::Stream) -> Result<(), Self::Error>;
}

/// Why binding or connecting failed: the name, or the transport.
#[derive(Debug)]
pub enum LocalSocketError<E> {
    /// The name could not be converted or has no native address form.
    Name(NameError),
    /// The transport's own failure, passed through unchanged.
    Transport(E),
}

/// The address that a converted name reaches on this platform.
pub open spec fn address_of(name: LocalSocketName<'_>) -> Option<(bool, Seq<u8>)> {
    socket_address(name.payload(), name.spec_is_namespaced(), NameTypeSupport::spec_query())
}

/// The address that a convertible value reaches on this platform, once
/// converted.
pub open spec fn converted_address<'a, N: ToLocalSocketName<'a>>(name: N) -> Option<
    (bool, Seq<u8>),
> {
    socket_address(
        name.converted_payload(),
        name.converted_namespaced(),
        NameTypeSupport::spec_query(),
    )
}

/// Turns a name into the address for the platform's current support.
fn address_for<'a, E>(name: LocalSocketName<'a>) -> (r: Result<
    UdSocketPath<'a>,
    LocalSocketError<E>,
>)
    ensures
        r is Err <==> native_address(name.payload()) is None,
        r is Err ==> r->Err_0 == LocalSocketError::<E>::Name(NameError::InvalidInput),
        r is Ok ==> address_of(name) == Some(r->Ok_0.spec_address()),
{
    match local_socket_name_to_ud_socket_path(name, NameTypeSupport::query()) {
        Ok(path) => Ok(path),
        Err(e) => Err(LocalSocketError::Name(e)),
    }
}

/// A local socket server, listening for connections. It owns its bound
/// endpoint until it is dropped.
pub struct LocalSocketListener<T: Transport> {
    inner: T::Listener,
    bound_at: Ghost<(bool, Seq<u8>)>,
}

impl<T: Transport> LocalSocketListener<T> {
    /// The address that the transport was asked to bind: whether it is in
    /// the namespace form, and its native text.
    pub closed spec fn bound_at(&self) -> (bool, Seq<u8>) {
        self.bound_at@
    }

    /// Creates a socket server with the specified local socket name. A
    /// failed conversion, or a name with no native address, fails before the
    /// transport is asked; otherwise the transport is asked to bind the
    /// name's address, and its failure is passed on.
    pub fn bind<'a, N: ToLocalSocketName<'a>>(name: N) -> (r: Result<
        Self,
        LocalSocketError<T::Error>,
    >)
        ensures
            name.conversion_error() is Some ==> r == Err::<Self, _>(
                LocalSocketError::<T::Error>::Name(name.conversion_error()->Some_0),
            ),
            name.conversion_error() is None && converted_address(name) is None ==> r == Err::<
                Self,
                _,
            >(LocalSocketError::<T::Error>::Name(NameError::InvalidInput)),
            r matches Err(LocalSocketError::Name(e)) ==> name.conversion_error() == Some(e) || (
            name.conversion_error() is None && converted_address(name) is None && e
                == NameError::InvalidInput),
            r is Ok ==> name.conversion_error() is None && converted_address(name) == Some(
                r->Ok_0.bound_at(),
            ),
    {
        match name.to_local_socket_name() {
            Ok(name) => Self::bind_name(name),
            Err(e) => Err(LocalSocketError::Name(e)),
        }
    }

    /// Creates a socket server at a converted name. A payload with no native
    /// address form fails before the transport is asked; otherwise the
    /// transport is asked to bind the name's address, and its failure is
    /// passed on.
    pub fn bind_name(name: LocalSocketName<'_>) -> (r: Result<Self, LocalSocketError<T::Error>>)
        ensures
            address_of(name) is None ==> r == Err::<Self, _>(
                LocalSocketError::<T::Error>::Name(NameError::InvalidInput),
            ),
            r matches Err(LocalSocketError::Name(e)) ==> address_of(name) is None && e
                == NameError::InvalidInput,
            r is Ok ==> address_of(name) == Some(r->Ok_0.bound_at()),
    {
        match address_for(name) {
            Ok(path) => {
                let ghost at = path.spec_address();
                match T::bind(path) {
                    Ok(inner) => Ok(LocalSocketListener { inner, bound_at: Ghost(at) }),
                    Err(e) => Err(LocalSocketError::Transport(e)),
                }
            },
            Err(e) => Err(e),
        }
    }

    /// Blocks until a client connects, then returns the stream that owns
    /// that connection. A failure leaves the listener usable.
    pub fn accept(&self) -> (r: Result<LocalSocketStream<T>, T::Error>)
        ensures
            r is Ok ==> r->Ok_0.connected_to() is None,
    {
        match T::accept(&self.inner) {
            Ok(inner) => Ok(LocalSocketStream { inner, connected_to: Ghost(None) }),
            Err(e) => Err(e),
        }
    }

    /// An endless sequence of connections, one `accept` for each element.
    pub fn incoming(&self) -> (r: Incoming<'_, T>)
        ensures
            r.listener() == self,
    {
        Incoming { listener: self }
    }
}

/// An endless sequence of incoming connections of a listener.
pub struct Incoming<'a, T: Transport> {
    listener: &'a LocalSocketListener<T>,
}

impl<'a, T: Transport> Incoming<'a, T> {
    /// The listener that the sequence accepts on.
    pub closed spec fn listener(&self) -> &'a LocalSocketListener<T> {
        self.listener
    }

    /// The next connection: the result of one `accept`. The sequence never
    /// ends, a failed element included.
    pub fn next(&mut self) -> (r: Option<Result<LocalSocketStream<T>, T::Error>>)
        ensures
            r is Some,
            r matches Some(Ok(s)) ==> s.connected_to() is None,
            final(self).listener() == old(self).listener(),
    {
        Some(self.listener.accept())
    }

    /// The bounds on the number of elements left: at least `usize::MAX`, no
    /// upper bound.
    pub fn size_hint(&self) -> (r: (usize, Option<usize>))
        ensures
            r == (usize::MAX, None::<usize>),
    {
        (usize::MAX, None)
    }
}

/// A local socket byte stream, from a listener or by connecting. It owns its
/// connection until it is dropped.
pub struct LocalSocketStream<T: Transport> {
    inner: T::Stream,
    connected_to: Ghost<Option<(bool, Seq<u8>)>>,
}

impl<T: Transport> LocalSocketStream<T> {
    /// The address that the transport was asked to connect to, for a client
    /// stream; `None` for a stream that a listener accepted.
    pub closed spec fn connected_to(&self) -> Option<(bool, Seq<u8>)> {
        self.connected_to@
    }

    /// Connects to a local socket server. A failed conversion, or a name with
    /// no native address, fails before the transport is asked; otherwise the
    /// transport is asked to connect to the name's address, and its failure
    /// is passed on.
    pub fn connect<'a, N: ToLocalSocketName<'a>>(name: N) -> (r: Result<
        Self,
        LocalSocketError<T::Error>,
    >)
        ensures
            name.conversion_error() is Some ==> r == Err::<Self, _>(
                LocalSocketError::<T::Error>::Name(name.conversion_error()->Some_0),
            ),
            name.conversion_error() is None && converted_address(name) is None ==> r == Err::<
                Self,
                _,
            >(LocalSocketError::<T::Error>::Name(NameError::InvalidInput)),
            r matches Err(LocalSocketError::Name(e)) ==> name.conversion_error() == Some(e) || (
            name.conversion_error() is None && converted_address(name) is None && e
                == NameError::InvalidInput),
            r is Ok ==> name.conversion_error() is None && r->Ok_0.connected_to()
                == converted_address(name),
            r is Ok ==> r->Ok_0.connected_to() is Some,
    {
        match name.to_local_socket_name() {
            Ok(name) => Self::connect_name(name),
            Err(e) => Err(LocalSocketError::Name(e)),
        }
    }

    /// Connects to a converted name. A payload with no native address form
    /// fails before the transport is asked; otherwise the transport is asked
    /// to connect to the name's address, and its failure is passed on.
    pub fn connect_name(name: LocalSocketName<'_>) -> (r: Result<Self, LocalSocketError<T::Error>>)
        ensures
            address_of(name) is None ==> r == Err::<Self, _>(
                LocalSocketError::<T::Error>::Name(NameError::InvalidInput),
            ),
            r matches Err(LocalSocketError::Name(e)) ==> address_of(name) is None && e
                == NameError::InvalidInput,
            r is Ok ==> address_of(name) is Some && r->Ok_0.connected_to() == address_of(name),
    {
        match address_for(name) {
            Ok(path) => {
                let ghost at = path.spec_address();
                match T::connect(path) {
                    Ok(inner) => Ok(LocalSocketStream { inner, connected_to: Ghost(Some(at)) }),
                    Err(e) => Err(LocalSocketError::Transport(e)),
                }
            },
            Err(e) => Err(e),
        }
    }

    /// Reads some bytes into `buf` through the transport.
    pub fn read(&mut self, buf: &mut [u8]) -> (r: Result<usize, T::Error>)
        ensures
            final(self).connected_to() == old(self).connected_to(),
    {
        T::read(&mut self.inner, buf)
    }

    /// Writes some bytes of `buf` through the transport.
    pub fn write(&mut self, buf: &[u8]) -> (r: Result<usize, T::Error>)
        ensures
            final(self).connected_to() == old(self).connected_to(),
    {
        T::write(&mut self.inner, buf)
    }

    /// Flushes the transport.
    pub fn flush(&mut self) -> (r: Result<(), T::Error>)
        ensures
            final(self).connected_to() == old(self).connected_to(),
    {
        T::flush(&mut self.inner)
    }
}

} // verus!
