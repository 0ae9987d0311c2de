//! The listening protocol. It owns the listener, shares the reactor with
//! the protocol it wraps, and tells the two kinds of socket apart.
//!
//! Accepting is the caller's part: when the listener is readable the caller
//! accepts until `on_accept` says to stop.
use vstd::prelude::*;

use crate::error::other_error;
use crate::protocol::Protocol;
use crate::reactor::configurer::asked;
use crate::reactor::configurer::nothing_asked;
use crate::reactor::configurer::Asked;
use crate::reactor::configurer::Configurer;
use crate::reactor::configurer::ProtocolConfigurer;
use crate::reactor::handler::hook_ran;
use crate::reactor::handler::Callback;
use crate::reactor::handler::Turn;
use crate::reactor::EventSet;
use crate::reactor::ReactorError;
use crate::reactor::Token;

verus! {

/// A TCP listener of the event loop, carried without looking inside.
#[verifier::external_type_specification]
#[verifier::external_body]
pub struct ExTcpListener(mio::tcp::TcpListener);

/// A TCP connection of the event loop, carried without looking inside.
#[verifier::external_type_specification]
#[verifier::external_body]
pub struct ExTcpStream(mio::tcp::TcpStream);

/// A protocol that is served by a listening reactor.
pub trait TcpProtocol: Protocol {
    /// What `on_connect` may do and ask for.
    open spec fn connects(
        &self,
        before: Asked<Self::Socket>,
        socket: mio::tcp::TcpStream,
        after: &Self,
        now: Asked<Self::Socket>,
    ) -> bool {
        true
    }

    /// Called for every new connection. The hook turns the connection into
    /// a socket of the protocol and asks the configurer to add it.
    fn on_connect<C>(&mut self, configurer: &mut C, socket: mio::tcp::TcpStream) where
        C: Configurer<Self::Socket>,

        ensures
            old(self).connects(asked(old(configurer)), socket, final(self), asked(final(configurer))),
    ;
}

/// What a listening reactor registers: its listener, or a socket of the
/// protocol it wraps.
#[derive(Debug)]
pub enum TcpSocket<S> {
    Listener(mio::tcp::TcpListener),
    Socket(S),
}

/// What the caller is to do after a readable event.
#[derive(Clone, Copy, Debug, PartialEq, Eq, Structural)]
pub enum Readable {
    /// The socket was the listener: accept connections and hand each
    /// answer to `on_accept` until it says to stop.
    Accept,
    /// The event has been dealt with.
    Handled,
}

/// The additions of the wrapped protocol as the reactor sees them.
pub open spec fn wrapped<S>(additions: Seq<(S, EventSet, Option<u64>)>) -> Seq<
    (TcpSocket<S>, EventSet, Option<u64>),
> {
    additions.map_values(|a: (S, EventSet, Option<u64>)| (TcpSocket::Socket(a.0), a.1, a.2))
}

/// Of two requests to stop, the first.
pub open spec fn first_error(
    first: Option<std::io::Error>,
    second: Option<std::io::Error>,
) -> Option<std::io::Error> {
    if first is Some {
        first
    } else {
        second
    }
}

/// `post` is `pre` with what was asked in `batch` added behind its own.
pub open spec fn forwarded<S, C: Configurer<TcpSocket<S>>>(pre: &C, batch: Asked<S>, post: &C) -> bool {
    &&& post.additions() == pre.additions() + wrapped(batch.additions)
    &&& post.updates() == pre.updates() + batch.updates
    &&& post.removals() == pre.removals() + batch.removals
    &&& post.error() == first_error(pre.error(), batch.error)
}

/// Nothing was asked of the configurer.
pub open spec fn untouched<S, C: Configurer<TcpSocket<S>>>(pre: &C, post: &C) -> bool {
    &&& post.additions() == pre.additions()
    &&& post.updates() == pre.updates()
    &&& post.removals() == pre.removals()
    &&& post.error() == pre.error()
}

/// The configurer was asked to stop the reactor, and nothing else.
pub open spec fn stop_asked<S, C: Configurer<TcpSocket<S>>>(pre: &C, post: &C) -> bool {
    &&& post.additions() == pre.additions()
    &&& post.updates() == pre.updates()
    &&& post.removals() == pre.removals()
    &&& post.error() is Some
    &&& pre.error() is Some ==> post.error() == pre.error()
}

/// Passes what a hook of the wrapped protocol asked for on to the reactor's
/// configurer, every socket marked as one of the wrapped protocol.
fn forward<S, C: Configurer<TcpSocket<S>>>(batch: ProtocolConfigurer<S>, outer: &mut C)
    ensures
        forwarded(old(outer), asked(&batch), final(outer)),
{
    let ProtocolConfigurer { additions, removals, updates, error } = batch;
    let mut additions = additions;
    let ghost all = additions@;
    let mut stack: Vec<(S, EventSet, Option<u64>)> = Vec::new();
    while additions.len() > 0
        invariant
            additions@ == all.take(additions@.len() as int),
            additions@.len() <= all.len(),
            stack@.len() == all.len() - additions@.len(),
            forall|i: int| 0 <= i < stack@.len() ==> stack@[i] == all[all.len() - 1 - i],
        decreases additions.len(),
    {
        match additions.pop() {
            Some(a) => {
                stack.push(a);
            },
            None => {},
        }
    }
    while stack.len() > 0
        invariant
            stack@.len() <= all.len(),
            forall|i: int| 0 <= i < stack@.len() ==> stack@[i] == all[all.len() - 1 - i],
            outer.additions() == old(outer).additions() + wrapped(
                all.take(all.len() - stack@.len()),
            ),
            outer.updates() == old(outer).updates(),
            outer.removals() == old(outer).removals(),
            outer.error() == old(outer).error(),
        decreases stack.len(),
    {
        match stack.pop() {
            Some(a) => {
                match a.2 {
                    Some(ms) => outer.add_socket_timeout(TcpSocket::Socket(a.0), a.1, ms),
                    None => outer.add_socket(TcpSocket::Socket(a.0), a.1),
                }
            },
            None => {},
        }
    }
    let mut at: usize = 0;
    while at < updates.len()
        invariant
            at <= updates.len(),
            outer.additions() == old(outer).additions() + wrapped(all),
            outer.updates() == old(outer).updates() + updates@.take(at as int),
            outer.removals() == old(outer).removals(),
            outer.error() == old(outer).error(),
        decreases updates.len() - at,
    {
        let u = updates[at];
        match u.2 {
            Some(ms) => outer.update_socket_timeout(u.0, u.1, ms),
            None => outer.update_socket(u.0, u.1),
        }
        at = at + 1;
    }
    let mut at: usize = 0;
    while at < removals.len()
        invariant
            at <= removals.len(),
            outer.additions() == old(outer).additions() + wrapped(all),
            outer.updates() == old(outer).updates() + updates@,
            outer.removals() == old(outer).removals() + removals@.take(at as int),
            outer.error() == old(outer).error(),
        decreases removals.len() - at,
    {
        let t = removals[at];
        outer.remove_socket(t);
        at = at + 1;
    }
    proof {
        assert(removals@.take(removals@.len() as int) =~= removals@);
    }
    match error {
        Some(e) => outer.shutdown(e),
        None => {},
    }
}

/// A protocol that shares its reactor with a listener: events on the
/// listener are dealt with here, everything else goes to the protocol
/// inside.
pub struct ListenerProtocol<P> {
    protocol: P,
    listener: Option<mio::tcp::TcpListener>,
}

impl<P> ListenerProtocol<P> {
    /// The protocol inside.
    pub closed spec fn inner(&self) -> P {
        self.protocol
    }

    /// The listener, until the protocol has been started.
    pub closed spec fn listener(&self) -> Option<mio::tcp::TcpListener> {
        self.listener
    }

    /// Wraps the protocol and keeps the listener for the start.
    pub fn new(proto: P, listener: mio::tcp::TcpListener) -> (p: ListenerProtocol<P>)
        ensures
            p.inner() == proto,
            p.listener() == Some(listener),
    {
        ListenerProtocol { protocol: proto, listener: Some(listener) }
    }

    /// Whether the listener is still here, that is, whether the protocol
    /// has not been started yet.
    pub fn has_listener(&self) -> (b: bool)
        ensures
            b == self.listener() is Some,
    {
        self.listener.is_some()
    }
}

/// The protocol inside was started through a fresh configurer, and what
/// it asked for was passed on.
pub open spec fn start_relayed<P: TcpProtocol, C: Configurer<TcpSocket<P::Socket>>>(
    inner: P,
    pre: &C,
    inner_after: P,
    post: &C,
) -> bool {
    exists|batch: Asked<P::Socket>|
        {
            &&& #[trigger] inner.starts(nothing_asked(), &inner_after, batch)
            &&& forwarded(pre, batch, post)
        }
}

/// The protocol inside was handed the connection through a fresh
/// configurer, and what it asked for was passed on.
pub open spec fn connect_relayed<P: TcpProtocol, C: Configurer<TcpSocket<P::Socket>>>(
    inner: P,
    pre: &C,
    stream: mio::tcp::TcpStream,
    inner_after: P,
    post: &C,
) -> bool {
    exists|batch: Asked<P::Socket>|
        {
            &&& #[trigger] inner.connects(nothing_asked(), stream, &inner_after, batch)
            &&& forwarded(pre, batch, post)
        }
}

/// The hook of the protocol inside ran on the socket through a fresh
/// configurer, and what it asked for was passed on.
pub open spec fn hook_relayed<P: TcpProtocol, C: Configurer<TcpSocket<P::Socket>>>(
    callback: Callback,
    token: Token,
    inner: P,
    socket: P::Socket,
    pre: &C,
    inner_after: P,
    socket_after: P::Socket,
    post: &C,
) -> bool {
    exists|batch: Asked<P::Socket>|
        {
            &&& #[trigger] hook_ran(
                callback,
                token,
                Turn { protocol: inner, asked: nothing_asked(), socket },
                Turn { protocol: inner_after, asked: batch, socket: socket_after },
            )
            &&& forwarded(pre, batch, post)
        }
}

/// The timeout hook of the protocol inside ran on the socket through a
/// fresh configurer, and what it asked for was passed on.
pub open spec fn timeout_relayed<P: TcpProtocol, C: Configurer<TcpSocket<P::Socket>>>(
    token: Token,
    inner: P,
    socket: P::Socket,
    pre: &C,
    inner_after: P,
    socket_after: P::Socket,
    post: &C,
) -> bool {
    exists|batch: Asked<P::Socket>|
        {
            &&& #[trigger] inner.times_out(
                nothing_asked(),
                socket,
                token,
                &inner_after,
                batch,
                socket_after,
            )
            &&& forwarded(pre, batch, post)
        }
}

/// The protocol inside was told of the failure through a fresh
/// configurer, and what it asked for was passed on.
pub open spec fn failure_relayed<P: TcpProtocol, C: Configurer<TcpSocket<P::Socket>>>(
    inner: P,
    pre: &C,
    error: ReactorError<P::Socket>,
    inner_after: P,
    post: &C,
) -> bool {
    exists|batch: Asked<P::Socket>|
        {
            &&& #[trigger] inner.fails(nothing_asked(), error, &inner_after, batch)
            &&& forwarded(pre, batch, post)
        }
}

/// The tick hook of the protocol inside ran through a fresh configurer,
/// and what it asked for was passed on.
pub open spec fn tick_relayed<P: TcpProtocol, C: Configurer<TcpSocket<P::Socket>>>(
    inner: P,
    pre: &C,
    inner_after: P,
    post: &C,
) -> bool {
    exists|batch: Asked<P::Socket>|
        {
            &&& #[trigger] inner.ticks(nothing_asked(), &inner_after, batch)
            &&& forwarded(pre, batch, post)
        }
}

/// `mid` is `pre` with one more addition: the listener, to be told when
/// connections wait.
pub open spec fn listener_asked<S>(
    pre: Asked<TcpSocket<S>>,
    mid: Asked<TcpSocket<S>>,
    listener: mio::tcp::TcpListener,
) -> bool {
    mid == (Asked {
        additions: pre.additions.push((TcpSocket::Listener(listener), listening(), None)),
        ..pre
    })
}

/// An event on a socket that is not the listener went to the hook of the
/// protocol inside; an event on the listener left everything but the
/// configurer as it was.
pub open spec fn event_relayed<P: TcpProtocol, C: Configurer<TcpSocket<P::Socket>>>(
    callback: Callback,
    token: Token,
    pre: ListenerProtocol<P>,
    socket: TcpSocket<P::Socket>,
    before: &C,
    post: ListenerProtocol<P>,
    socket_after: TcpSocket<P::Socket>,
    now: &C,
) -> bool {
    &&& post.listener() == pre.listener()
    &&& match socket {
        TcpSocket::Listener(_) => post == pre && socket_after == socket,
        TcpSocket::Socket(s) => socket_after matches TcpSocket::Socket(s_after) && hook_relayed(
            callback,
            token,
            pre.inner(),
            s,
            before,
            post.inner(),
            s_after,
            now,
        ),
    }
}

impl<P: TcpProtocol> ListenerProtocol<P> {
    /// Hands the listener to the reactor, to be told when connections
    /// wait, and starts the protocol inside.
    pub fn on_start<C>(&mut self, configurer: &mut C) where C: Configurer<TcpSocket<P::Socket>>
        requires
            old(self).listener() is Some,
        ensures
            final(self).listener() is None,
            exists|mid: C|
                {
                    &&& #[trigger] listener_asked(
                        asked(old(configurer)),
                        asked(&mid),
                        old(self).listener()->Some_0,
                    )
                    &&& start_relayed(old(self).inner(), &mid, final(self).inner(), final(configurer))
                },
    {
        match self.listener.take() {
            Some(listener) => {
                configurer.add_socket(TcpSocket::Listener(listener), EventSet::readable());
            },
            None => {},
        }
        let ghost mid = *configurer;
        let mut c = ProtocolConfigurer::new();
        self.protocol.on_start(&mut c);
        forward(c, configurer);
        proof {
            assert(listener_asked(
                asked(old(configurer)),
                asked(&mid),
                old(self).listener()->Some_0,
            ));
        }
    }

    /// One answer of the listener to an attempt to accept. A connection
    /// goes to the protocol inside, and there may be more; no connection
    /// ends the round; an error ends it too and asks the reactor to stop.
    pub fn on_accept<C>(
        &mut self,
        configurer: &mut C,
        accepted: Result<Option<mio::tcp::TcpStream>, std::io::Error>,
    ) -> (again: bool) where C: Configurer<TcpSocket<P::Socket>>
        ensures
            final(self).listener() == old(self).listener(),
            again == (accepted matches Ok(Some(_))),
            match accepted {
                Ok(Some(stream)) => connect_relayed(
                    old(self).inner(),
                    old(configurer),
                    stream,
                    final(self).inner(),
                    final(configurer),
                ),
                Ok(None) => untouched(old(configurer), final(configurer)) && *final(self) == *old(
                    self,
                ),
                Err(e) => {
                    &&& *final(self) == *old(self)
                    &&& final(configurer).additions() == old(configurer).additions()
                    &&& final(configurer).updates() == old(configurer).updates()
                    &&& final(configurer).removals() == old(configurer).removals()
                    &&& final(configurer).error() == first_error(old(configurer).error(), Some(e))
                },
            },
    {
        match accepted {
            Ok(Some(skt)) => {
                self.on_connect(configurer, skt);
                true
            },
            Ok(None) => false,
            Err(e) => {
                configurer.shutdown(e);
                false
            },
        }
    }

    /// Hands a new connection to the protocol inside.
    pub fn on_connect<C>(&mut self, configurer: &mut C, socket: mio::tcp::TcpStream) where
        C: Configurer<TcpSocket<P::Socket>>,

        ensures
            final(self).listener() == old(self).listener(),
            connect_relayed(
                old(self).inner(),
                old(configurer),
                socket,
                final(self).inner(),
                final(configurer),
            ),
    {
        let mut c = ProtocolConfigurer::new();
        self.protocol.on_connect(&mut c, socket);
        forward(c, configurer);
    }

    /// A socket is readable. For the listener the caller must accept; a
    /// socket of the protocol inside goes to its hook.
    pub fn on_readable<C>(
        &mut self,
        configurer: &mut C,
        socket: &mut TcpSocket<P::Socket>,
        token: Token,
    ) -> (next: Readable) where C: Configurer<TcpSocket<P::Socket>>
        ensures
            event_relayed(
                Callback::Readable,
                token,
                *old(self),
                *old(socket),
                old(configurer),
                *final(self),
                *final(socket),
                final(configurer),
            ),
            match *old(socket) {
                TcpSocket::Listener(_) => next == Readable::Accept && untouched(
                    old(configurer),
                    final(configurer),
                ),
                TcpSocket::Socket(_) => next == Readable::Handled,
            },
    {
        match socket {
            TcpSocket::Listener(_) => Readable::Accept,
            TcpSocket::Socket(s) => {
                let ghost before = *s;
                let mut c = ProtocolConfigurer::new();
                self.protocol.on_readable(&mut c, s, token);
                let ghost batch = asked(&c);
                let ghost after = *s;
                forward(c, configurer);
                proof {
                    assert(hook_ran(
                        Callback::Readable,
                        token,
                        Turn { protocol: old(self).inner(), asked: nothing_asked(), socket: before },
                        Turn { protocol: self.inner(), asked: batch, socket: after },
                    ));
                }
                Readable::Handled
            },
        }
    }

    /// A socket is writable. The listener never asks for this, so for the
    /// listener nothing happens.
    pub fn on_writable<C>(
        &mut self,
        configurer: &mut C,
        socket: &mut TcpSocket<P::Socket>,
        token: Token,
    ) where C: Configurer<TcpSocket<P::Socket>>
        ensures
            event_relayed(
                Callback::Writable,
                token,
                *old(self),
                *old(socket),
                old(configurer),
                *final(self),
                *final(socket),
                final(configurer),
            ),
            *old(socket) is Listener ==> untouched(old(configurer), final(configurer)),
    {
        match socket {
            TcpSocket::Listener(_) => {},
            TcpSocket::Socket(s) => {
                let ghost before = *s;
                let mut c = ProtocolConfigurer::new();
                self.protocol.on_writable(&mut c, s, token);
                let ghost batch = asked(&c);
                let ghost after = *s;
                forward(c, configurer);
                proof {
                    assert(hook_ran(
                        Callback::Writable,
                        token,
                        Turn { protocol: old(self).inner(), asked: nothing_asked(), socket: before },
                        Turn { protocol: self.inner(), asked: batch, socket: after },
                    ));
                }
            },
        }
    }

    /// The timeout of a socket has run out. The listener has none, so for
    /// the listener nothing happens.
    pub fn on_timeout<C>(
        &mut self,
        configurer: &mut C,
        socket: &mut TcpSocket<P::Socket>,
        token: Token,
    ) where C: Configurer<TcpSocket<P::Socket>>
        ensures
            final(self).listener() == old(self).listener(),
            match *old(socket) {
                TcpSocket::Listener(_) => {
                    &&& *final(self) == *old(self)
                    &&& *final(socket) == *old(socket)
                    &&& untouched(old(configurer), final(configurer))
                },
                TcpSocket::Socket(s) => *final(socket) matches TcpSocket::Socket(s_after)
                    && timeout_relayed(
                    token,
                    old(self).inner(),
                    s,
                    old(configurer),
                    final(self).inner(),
                    s_after,
                    final(configurer),
                ),
            },
    {
        match socket {
            TcpSocket::Listener(_) => {},
            TcpSocket::Socket(s) => {
                let mut c = ProtocolConfigurer::new();
                self.protocol.on_timeout(&mut c, s, token);
                forward(c, configurer);
            },
        }
    }

    /// The peer of a socket has hung up. Without its listener the reactor
    /// is of no use, so for the listener the reactor is asked to stop.
    pub fn on_disconnect<C>(
        &mut self,
        configurer: &mut C,
        socket: &mut TcpSocket<P::Socket>,
        token: Token,
    ) where C: Configurer<TcpSocket<P::Socket>>
        ensures
            event_relayed(
                Callback::Disconnect,
                token,
                *old(self),
                *old(socket),
                old(configurer),
                *final(self),
                *final(socket),
                final(configurer),
            ),
            *old(socket) is Listener ==> stop_asked(old(configurer), final(configurer)),
    {
        match socket {
            TcpSocket::Listener(_) => {
                let err = other_error("listener disconnected");
                configurer.shutdown(err);
            },
            TcpSocket::Socket(s) => {
                let ghost before = *s;
                let mut c = ProtocolConfigurer::new();
                self.protocol.on_disconnect(&mut c, s, token);
                let ghost batch = asked(&c);
                let ghost after = *s;
                forward(c, configurer);
                proof {
                    assert(hook_ran(
                        Callback::Disconnect,
                        token,
                        Turn { protocol: old(self).inner(), asked: nothing_asked(), socket: before },
                        Turn { protocol: self.inner(), asked: batch, socket: after },
                    ));
                }
            },
        }
    }

    /// A socket is in error. For the listener the reactor is asked to
    /// stop.
    pub fn on_socket_error<C>(
        &mut self,
        configurer: &mut C,
        socket: &mut TcpSocket<P::Socket>,
        token: Token,
    ) where C: Configurer<TcpSocket<P::Socket>>
        ensures
            event_relayed(
                Callback::SocketError,
                token,
                *old(self),
                *old(socket),
                old(configurer),
                *final(self),
                *final(socket),
                final(configurer),
            ),
            *old(socket) is Listener ==> stop_asked(old(configurer), final(configurer)),
    {
        match socket {
            TcpSocket::Listener(_) => {
                let err = other_error("listener socket error");
                configurer.shutdown(err);
            },
            TcpSocket::Socket(s) => {
                let ghost before = *s;
                let mut c = ProtocolConfigurer::new();
                self.protocol.on_socket_error(&mut c, s, token);
                let ghost batch = asked(&c);
                let ghost after = *s;
                forward(c, configurer);
                proof {
                    assert(hook_ran(
                        Callback::SocketError,
                        token,
                        Turn { protocol: old(self).inner(), asked: nothing_asked(), socket: before },
                        Turn { protocol: self.inner(), asked: batch, socket: after },
                    ));
                }
            },
        }
    }

    /// A requested change failed. If it was the listener that could not be
    /// registered, the reactor is asked to stop with that error; any other
    /// failure goes to the protocol inside, the socket unwrapped.
    pub fn on_event_loop_error<C>(
        &mut self,
        configurer: &mut C,
        error: ReactorError<TcpSocket<P::Socket>>,
    ) where C: Configurer<TcpSocket<P::Socket>>
        ensures
            final(self).listener() == old(self).listener(),
            match error {
                ReactorError::IoError(err, TcpSocket::Listener(_)) => {
                    &&& *final(self) == *old(self)
                    &&& final(configurer).additions() == old(configurer).additions()
                    &&& final(configurer).updates() == old(configurer).updates()
                    &&& final(configurer).removals() == old(configurer).removals()
                    &&& final(configurer).error() == first_error(
                        old(configurer).error(),
                        Some(err),
                    )
                },
                ReactorError::IoError(err, TcpSocket::Socket(skt)) => failure_relayed(
                    old(self).inner(),
                    old(configurer),
                    ReactorError::IoError(err, skt),
                    final(self).inner(),
                    final(configurer),
                ),
                ReactorError::NoSocketFound(t) => failure_relayed(
                    old(self).inner(),
                    old(configurer),
                    ReactorError::NoSocketFound(t),
                    final(self).inner(),
                    final(configurer),
                ),
                ReactorError::TimerError => failure_relayed(
                    old(self).inner(),
                    old(configurer),
                    ReactorError::TimerError,
                    final(self).inner(),
                    final(configurer),
                ),
            },
    {
        match error {
            ReactorError::IoError(err, s) => {
                match s {
                    TcpSocket::Listener(_) => {
                        configurer.shutdown(err);
                    },
                    TcpSocket::Socket(skt) => {
                        self.fail(configurer, ReactorError::IoError(err, skt));
                    },
                }
            },
            ReactorError::NoSocketFound(t) => {
                self.fail(configurer, ReactorError::NoSocketFound(t));
            },
            ReactorError::TimerError => {
                self.fail(configurer, ReactorError::TimerError);
            },
        }
    }

    /// Tells the protocol inside of a failure that is its own.
    fn fail<C>(&mut self, configurer: &mut C, error: ReactorError<P::Socket>) where
        C: Configurer<TcpSocket<P::Socket>>,

        ensures
            final(self).listener() == old(self).listener(),
            failure_relayed(
                old(self).inner(),
                old(configurer),
                error,
                final(self).inner(),
                final(configurer),
            ),
    {
        let mut c = ProtocolConfigurer::new();
        self.protocol.on_event_loop_error(&mut c, error);
        forward(c, configurer);
    }

    /// The end of a turn of the event loop, for the protocol inside.
    pub fn tick<C>(&mut self, configurer: &mut C) where C: Configurer<TcpSocket<P::Socket>>
        ensures
            final(self).listener() == old(self).listener(),
            tick_relayed(old(self).inner(), old(configurer), final(self).inner(), final(configurer)),
    {
        let mut c = ProtocolConfigurer::new();
        self.protocol.tick(&mut c);
        forward(c, configurer);
    }
}

/// The interest with which the listener is registered: readable only.
pub open spec fn listening() -> EventSet {
    EventSet { readable: true, writable: false, error: false, hup: false }
}

} // verus!
