//! What a reactor asks of the protocol that it serves.
//!
//! A protocol is somebody else's code. What the reactor may rely on is one
//! relation per hook, between the protocol, the socket and what had been
//! asked of the reactor before the hook ran, and the same three afterwards.
//! A protocol that says nothing of a hook gets the relation that allows
//! everything.
use vstd::prelude::*;

use crate::reactor::configurer::asked;
use crate::reactor::configurer::Asked;
use crate::reactor::configurer::Configurer;
use crate::reactor::ReactorError;
use crate::reactor::Token;

verus! {

/// A network protocol driven by a reactor. Every hook gets a configurer
/// through which it may ask for changes to the set of sockets; the changes
/// are made once the hook has returned.
pub trait Protocol {
    /// The kind of socket that the protocol works on.
    type Socket;

    /// What `on_start` may do and ask for.
    open spec fn starts(
        &self,
        before: Asked<Self::Socket>,
        after: &Self,
        now: Asked<Self::Socket>,
    ) -> bool {
        true
    }

    /// What `on_readable` may do and ask for.
    open spec fn reads(
        &self,
        before: Asked<Self::Socket>,
        socket: Self::Socket,
        token: Token,
        after: &Self,
        now: Asked<Self::Socket>,
        socket_after: Self::Socket,
    ) -> bool {
        true
    }

    /// What `on_writable` may do and ask for.
    open spec fn writes(
        &self,
        before: Asked<Self::Socket>,
        socket: Self::Socket,
        token: Token,
        after: &Self,
        now: Asked<Self::Socket>,
        socket_after: Self::Socket,
    ) -> bool {
        true
    }

    /// What `on_timeout` may do and ask for.
    open spec fn times_out(
        &self,
        before: Asked<Self::Socket>,
        socket: Self::Socket,
        token: Token,
        after: &Self,
        now: Asked<Self::Socket>,
        socket_after: Self::Socket,
    ) -> bool {
        true
    }

    /// What `on_disconnect` may do and ask for.
    open spec fn disconnects(
        &self,
        before: Asked<Self::Socket>,
        socket: Self::Socket,
        token: Token,
        after: &Self,
        now: Asked<Self::Socket>,
        socket_after: Self::Socket,
    ) -> bool {
        true
    }

    /// What `on_socket_error` may do and ask for.
    open spec fn errs(
        &self,
        before: Asked<Self::Socket>,
        socket: Self::Socket,
        token: Token,
        after: &Self,
        now: Asked<Self::Socket>,
        socket_after: Self::Socket,
    ) -> bool {
        true
    }

    /// What `on_event_loop_error` may do and ask for.
    open spec fn fails(
        &self,
        before: Asked<Self::Socket>,
        error: ReactorError<Self::Socket>,
        after: &Self,
        now: Asked<Self::Socket>,
    ) -> bool {
        true
    }

    /// What `tick` may do and ask for.
    open spec fn ticks(
        &self,
        before: Asked<Self::Socket>,
        after: &Self,
        now: Asked<Self::Socket>,
    ) -> bool {
        true
    }

    /// Called right before the reactor starts.
    fn on_start<C>(&mut self, configurer: &mut C) where C: Configurer<Self::Socket>
        ensures
            old(self).starts(asked(old(configurer)), final(self), asked(final(configurer))),
    ;

    /// Called when the socket is readable.
    fn on_readable<C>(&mut self, configurer: &mut C, socket: &mut Self::Socket, token: Token) where
        C: Configurer<Self::Socket>,

        ensures
            old(self).reads(
                asked(old(configurer)),
                *old(socket),
                token,
                final(self),
                asked(final(configurer)),
                *final(socket),
            ),
    ;

    /// Called when the socket is writable.
    fn on_writable<C>(&mut self, configurer: &mut C, socket: &mut Self::Socket, token: Token) where
        C: Configurer<Self::Socket>,

        ensures
            old(self).writes(
                asked(old(configurer)),
                *old(socket),
                token,
                final(self),
                asked(final(configurer)),
                *final(socket),
            ),
    ;

    /// Called when the timeout of the socket has run out.
    fn on_timeout<C>(&mut self, configurer: &mut C, socket: &mut Self::Socket, token: Token) where
        C: Configurer<Self::Socket>,

        ensures
            old(self).times_out(
                asked(old(configurer)),
                *old(socket),
                token,
                final(self),
                asked(final(configurer)),
                *final(socket),
            ),
    ;

    /// Called when the peer has hung up.
    fn on_disconnect<C>(&mut self, configurer: &mut C, socket: &mut Self::Socket, token: Token) where
        C: Configurer<Self::Socket>,

        ensures
            old(self).disconnects(
                asked(old(configurer)),
                *old(socket),
                token,
                final(self),
                asked(final(configurer)),
                *final(socket),
            ),
    ;

    /// Called when the socket is in error.
    fn on_socket_error<C>(
        &mut self,
        configurer: &mut C,
        socket: &mut Self::Socket,
        token: Token,
    ) where C: Configurer<Self::Socket>
        ensures
            old(self).errs(
                asked(old(configurer)),
                *old(socket),
                token,
                final(self),
                asked(final(configurer)),
                *final(socket),
            ),
    ;

    /// Called when a requested change failed.
    fn on_event_loop_error<C>(&mut self, configurer: &mut C, error: ReactorError<Self::Socket>) where
        C: Configurer<Self::Socket>,

        ensures
            old(self).fails(asked(old(configurer)), error, final(self), asked(final(configurer))),
    ;

    /// Called at the end of every turn of the event loop.
    fn tick<C>(&mut self, configurer: &mut C) where C: Configurer<Self::Socket>
        ensures
            old(self).ticks(asked(old(configurer)), final(self), asked(final(configurer))),
    ;
}

} // verus!
