//! A protocol for a listening reactor that counts connections.
use std::sync::atomic::AtomicUsize;
use std::sync::atomic::Ordering;
use std::sync::Arc;
use vstd::prelude::*;

use crate::protocol::Protocol;
use crate::reactor::configurer::Asked;
use crate::reactor::configurer::Configurer;
use crate::reactor::EventSet;
use crate::reactor::ReactorError;
use crate::reactor::Token;
use crate::tcp::protocol::connect_relayed;
use crate::tcp::protocol::TcpProtocol;
use crate::tcp::protocol::TcpSocket;

verus! {

/// A protocol that asks for every new connection to be registered as
/// readable and otherwise does nothing. Its copies share one count of the
/// connections seen.
#[derive(Debug, Clone)]
pub struct FakeTcpProtocol {
    connect_count: Arc<AtomicUsize>,
}

impl FakeTcpProtocol {
    /// A protocol that has seen no connection.
    pub fn new() -> FakeTcpProtocol {
        FakeTcpProtocol { connect_count: Arc::new(AtomicUsize::new(0)) }
    }

    /// How many connections the protocol and its copies had seen when this
    /// looked. Copies may count on other threads, so nothing is promised
    /// of the number.
    pub fn connect_count(&self) -> usize {
        self.connect_count.load(Ordering::SeqCst)
    }
}

impl Protocol for FakeTcpProtocol {
    type Socket = mio::tcp::TcpStream;

    fn on_start<C>(&mut self, _configurer: &mut C) where C: Configurer<mio::tcp::TcpStream> {
    }

    fn on_readable<C>(
        &mut self,
        _configurer: &mut C,
        _socket: &mut mio::tcp::TcpStream,
        _token: Token,
    ) where C: Configurer<mio::tcp::TcpStream> {
    }

    fn on_writable<C>(
        &mut self,
        _configurer: &mut C,
        _socket: &mut mio::tcp::TcpStream,
        _token: Token,
    ) where C: Configurer<mio::tcp::TcpStream> {
    }

    fn on_timeout<C>(
        &mut self,
        _configurer: &mut C,
        _socket: &mut mio::tcp::TcpStream,
        _token: Token,
    ) where C: Configurer<mio::tcp::TcpStream> {
    }

    fn on_disconnect<C>(
        &mut self,
        _configurer: &mut C,
        _socket: &mut mio::tcp::TcpStream,
        _token: Token,
    ) where C: Configurer<mio::tcp::TcpStream> {
    }

    fn on_socket_error<C>(
        &mut self,
        _configurer: &mut C,
        _socket: &mut mio::tcp::TcpStream,
        _token: Token,
    ) where C: Configurer<mio::tcp::TcpStream> {
    }

    fn on_event_loop_error<C>(
        &mut self,
        _configurer: &mut C,
        _error: ReactorError<mio::tcp::TcpStream>,
    ) where C: Configurer<mio::tcp::TcpStream> {
    }

    fn tick<C>(&mut self, _configurer: &mut C) where C: Configurer<mio::tcp::TcpStream> {
    }
}

impl TcpProtocol for FakeTcpProtocol {
    /// The connection is asked to be added, to be told when it is
    /// readable.
    open spec fn connects(
        &self,
        before: Asked<mio::tcp::TcpStream>,
        socket: mio::tcp::TcpStream,
        after: &Self,
        now: Asked<mio::tcp::TcpStream>,
    ) -> bool {
        now == (Asked {
            additions: before.additions.push((socket, crate::tcp::protocol::listening(), None)),
            ..before
        })
    }

    fn on_connect<C>(&mut self, configurer: &mut C, socket: mio::tcp::TcpStream) where
        C: Configurer<mio::tcp::TcpStream>,

     {
        self.connect_count.fetch_add(1, Ordering::SeqCst);
        configurer.add_socket(socket, EventSet::readable());
    }
}

/// Under a listening protocol every connection ends up as a request to
/// add it to the reactor, marked as a socket of the protocol and to be
/// told when it is readable; nothing else is asked.
pub proof fn lemma_connection_is_added<C: Configurer<TcpSocket<mio::tcp::TcpStream>>>(
    inner: FakeTcpProtocol,
    pre: &C,
    stream: mio::tcp::TcpStream,
    inner_after: FakeTcpProtocol,
    post: &C,
)
    requires
        connect_relayed(inner, pre, stream, inner_after, post),
    ensures
        post.additions() == pre.additions().push(
            (TcpSocket::Socket(stream), crate::tcp::protocol::listening(), None),
        ),
        post.updates() == pre.updates(),
        post.removals() == pre.removals(),
        post.error() == pre.error(),
{
}

} // verus!
