//! The batch of changes that a protocol hook asks for.
use vstd::prelude::*;

use crate::protocol::Protocol;
use crate::reactor::handler::HandlerView;
use crate::reactor::handler::ReactorHandler;
use crate::reactor::EventSet;
use crate::reactor::Token;

verus! {

/// One requested change to the set of sockets.
pub enum Request<S> {
    /// Register the socket for the events, with a timeout in milliseconds
    /// if one is given.
    Add(S, EventSet, Option<u64>),
    /// Change what the socket under the token is registered for.
    Update(Token, EventSet, Option<u64>),
    /// Take the socket under the token out of the reactor.
    Remove(Token),
}

/// The way a protocol hook asks the reactor for changes. Nothing changes
/// while the hook runs: requests pile up and are carried out afterwards,
/// additions first, then updates, then removals.
pub trait Configurer<S> {
    /// The sockets asked to be added, in the order of asking.
    spec fn additions(&self) -> Seq<(S, EventSet, Option<u64>)>;

    /// The updates asked for, in the order of asking.
    spec fn updates(&self) -> Seq<(Token, EventSet, Option<u64>)>;

    /// The removals asked for, in the order of asking.
    spec fn removals(&self) -> Seq<Token>;

    /// The error with which the reactor was asked to stop, if it was.
    spec fn error(&self) -> Option<std::io::Error>;

    /// Asks for a socket to be added.
    fn add_socket(&mut self, socket: S, events: EventSet)
        ensures
            final(self).additions() == old(self).additions().push((socket, events, None)),
            final(self).updates() == old(self).updates(),
            final(self).removals() == old(self).removals(),
            final(self).error() == old(self).error(),
    ;

    /// Asks for a socket to be added with a timeout.
    fn add_socket_timeout(&mut self, socket: S, events: EventSet, timeout_ms: u64)
        ensures
            final(self).additions() == old(self).additions().push(
                (socket, events, Some(timeout_ms)),
            ),
            final(self).updates() == old(self).updates(),
            final(self).removals() == old(self).removals(),
            final(self).error() == old(self).error(),
    ;

    /// Asks for the socket under the token to be removed.
    fn remove_socket(&mut self, token: Token)
        ensures
            final(self).additions() == old(self).additions(),
            final(self).updates() == old(self).updates(),
            final(self).removals() == old(self).removals().push(token),
            final(self).error() == old(self).error(),
    ;

    /// Asks for the socket under the token to be registered anew.
    fn update_socket(&mut self, token: Token, events: EventSet)
        ensures
            final(self).additions() == old(self).additions(),
            final(self).updates() == old(self).updates().push((token, events, None)),
            final(self).removals() == old(self).removals(),
            final(self).error() == old(self).error(),
    ;

    /// Asks for the socket under the token to be registered anew, with a
    /// timeout.
    fn update_socket_timeout(&mut self, token: Token, events: EventSet, timeout_ms: u64)
        ensures
            final(self).additions() == old(self).additions(),
            final(self).updates() == old(self).updates().push((token, events, Some(timeout_ms))),
            final(self).removals() == old(self).removals(),
            final(self).error() == old(self).error(),
    ;

    /// Asks the reactor to stop at the end of the current turn and to
    /// return `error` from its run. The first error asked with stays.
    fn shutdown(&mut self, error: std::io::Error)
        ensures
            final(self).additions() == old(self).additions(),
            final(self).updates() == old(self).updates(),
            final(self).removals() == old(self).removals(),
            final(self).error() == (if old(self).error() is Some {
                old(self).error()
            } else {
                Some(error)
            }),
    ;
}

/// What has been asked through a configurer.
pub struct Asked<S> {
    pub additions: Seq<(S, EventSet, Option<u64>)>,
    pub updates: Seq<(Token, EventSet, Option<u64>)>,
    pub removals: Seq<Token>,
    pub error: Option<std::io::Error>,
}

/// What has been asked through the configurer.
pub open spec fn asked<S, C: Configurer<S>>(configurer: &C) -> Asked<S> {
    Asked {
        additions: configurer.additions(),
        updates: configurer.updates(),
        removals: configurer.removals(),
        error: configurer.error(),
    }
}

/// What has been asked through a configurer that is fresh.
pub open spec fn nothing_asked<S>() -> Asked<S> {
    Asked {
        additions: Seq::empty(),
        updates: Seq::empty(),
        removals: Seq::empty(),
        error: None,
    }
}

/// What was asked, as requests in the order in which they are carried
/// out: additions, then updates, then removals.
pub open spec fn requests_of<S>(batch: Asked<S>) -> Seq<Request<S>> {
    additions_of(batch.additions) + updates_of(batch.updates) + removals_of(batch.removals)
}

/// The requests that a protocol hook has made through it.
pub struct ProtocolConfigurer<S> {
    pub additions: Vec<(S, EventSet, Option<u64>)>,
    pub removals: Vec<Token>,
    pub updates: Vec<(Token, EventSet, Option<u64>)>,
    pub error: Option<std::io::Error>,
}

impl<S> ProtocolConfigurer<S> {
    /// A configurer through which nothing has been asked.
    pub fn new() -> (c: ProtocolConfigurer<S>)
        ensures
            c.additions@.len() == 0,
            c.removals@.len() == 0,
            c.updates@.len() == 0,
            c.error is None,
            asked(&c) == nothing_asked::<S>(),
    {
        let c = ProtocolConfigurer {
            additions: Vec::new(),
            removals: Vec::new(),
            updates: Vec::new(),
            error: None,
        };
        c
    }

    /// The requests held, in the order in which they are carried out.
    pub open spec fn requests(&self) -> Seq<Request<S>> {
        requests_of(asked(self))
    }

    /// Hands the batch over to the handler. A batch that asks the reactor
    /// to stop does nothing else: the handler keeps the error, unless it
    /// keeps one already, and the shutdown flag is raised. Any other batch
    /// is queued in front of what waits, in the order additions, updates,
    /// removals.
    pub fn update_event_loop<P: Protocol<Socket = S>>(self, handler: &mut ReactorHandler<P>)
        ensures
            final(handler).wf() == old(handler).wf(),
            final(handler).has_room() == old(handler).has_room(),
            final(handler)@ == batch_applied(old(handler)@, asked(&self)),
    {
        let mut batch = self;
        match batch.error.take() {
            Some(err) => {
                handler.set_protocol_error(err);
                handler.request_stop();
                return ;
            },
            None => {},
        }
        let ghost start = handler@;
        let ghost removals = batch.removals@;
        let ghost updates = batch.updates@;
        let ghost additions = batch.additions@;
        while batch.removals.len() > 0
            invariant
                handler.wf() == old(handler).wf(),
                handler.has_room() == old(handler).has_room(),
                batch.removals@ == removals.take(batch.removals@.len() as int),
                batch.removals@.len() <= removals.len(),
                batch.updates@ == updates,
                batch.additions@ == additions,
                handler@ == (HandlerView {
                    queue: removals_of(removals.skip(batch.removals@.len() as int)) + start.queue,
                    ..start
                }),
            decreases batch.removals.len(),
        {
            let ghost k = batch.removals@.len() as int;
            match batch.removals.pop() {
                Some(token) => {
                    handler.push_request(Request::Remove(token));
                    proof {
                        assert(handler@.queue =~= removals_of(removals.skip(k - 1)) + start.queue);
                    }
                },
                None => {},
            }
        }
        let ghost mid = handler@;
        while batch.updates.len() > 0
            invariant
                handler.wf() == old(handler).wf(),
                handler.has_room() == old(handler).has_room(),
                batch.updates@ == updates.take(batch.updates@.len() as int),
                batch.updates@.len() <= updates.len(),
                batch.additions@ == additions,
                handler@ == (HandlerView {
                    queue: updates_of(updates.skip(batch.updates@.len() as int)) + mid.queue,
                    ..mid
                }),
            decreases batch.updates.len(),
        {
            let ghost k = batch.updates@.len() as int;
            match batch.updates.pop() {
                Some(u) => {
                    handler.push_request(Request::Update(u.0, u.1, u.2));
                    proof {
                        assert(handler@.queue =~= updates_of(updates.skip(k - 1)) + mid.queue);
                    }
                },
                None => {},
            }
        }
        let ghost late = handler@;
        while batch.additions.len() > 0
            invariant
                handler.wf() == old(handler).wf(),
                handler.has_room() == old(handler).has_room(),
                batch.additions@ == additions.take(batch.additions@.len() as int),
                batch.additions@.len() <= additions.len(),
                handler@ == (HandlerView {
                    queue: additions_of(additions.skip(batch.additions@.len() as int)) + late.queue,
                    ..late
                }),
            decreases batch.additions.len(),
        {
            let ghost k = batch.additions@.len() as int;
            match batch.additions.pop() {
                Some(a) => {
                    handler.push_request(Request::Add(a.0, a.1, a.2));
                    proof {
                        assert(handler@.queue =~= additions_of(additions.skip(k - 1)) + late.queue);
                    }
                },
                None => {},
            }
        }
        proof {
            assert(handler@.queue =~= self.requests() + start.queue);
        }
    }
}

/// The additions of a batch as requests.
pub open spec fn additions_of<S>(additions: Seq<(S, EventSet, Option<u64>)>) -> Seq<Request<S>> {
    additions.map_values(|a: (S, EventSet, Option<u64>)| Request::Add(a.0, a.1, a.2))
}

/// The updates of a batch as requests.
pub open spec fn updates_of<S>(updates: Seq<(Token, EventSet, Option<u64>)>) -> Seq<Request<S>> {
    updates.map_values(|u: (Token, EventSet, Option<u64>)| Request::Update(u.0, u.1, u.2))
}

/// The removals of a batch as requests.
pub open spec fn removals_of<S>(removals: Seq<Token>) -> Seq<Request<S>> {
    removals.map_values(|t: Token| Request::Remove(t))
}

/// The handler after a batch has been handed over to it.
pub open spec fn batch_applied<P: Protocol>(
    pre: HandlerView<P>,
    batch: Asked<P::Socket>,
) -> HandlerView<P> {
    match batch.error {
        Some(err) => HandlerView {
            error: if pre.error is Some {
                pre.error
            } else {
                Some(err)
            },
            stopping: true,
            ..pre
        },
        None => HandlerView { queue: requests_of(batch) + pre.queue, ..pre },
    }
}

impl<S> Configurer<S> for ProtocolConfigurer<S> {
    open spec fn additions(&self) -> Seq<(S, EventSet, Option<u64>)> {
        self.additions@
    }

    open spec fn updates(&self) -> Seq<(Token, EventSet, Option<u64>)> {
        self.updates@
    }

    open spec fn removals(&self) -> Seq<Token> {
        self.removals@
    }

    open spec fn error(&self) -> Option<std::io::Error> {
        self.error
    }

    fn add_socket(&mut self, socket: S, events: EventSet) {
        self.additions.push((socket, events, None));
    }

    fn add_socket_timeout(&mut self, socket: S, events: EventSet, timeout_ms: u64) {
        self.additions.push((socket, events, Some(timeout_ms)));
    }

    fn remove_socket(&mut self, token: Token) {
        self.removals.push(token);
    }

    fn update_socket(&mut self, token: Token, events: EventSet) {
        self.updates.push((token, events, None));
    }

    fn update_socket_timeout(&mut self, token: Token, events: EventSet, timeout_ms: u64) {
        self.updates.push((token, events, Some(timeout_ms)));
    }

    fn shutdown(&mut self, error: std::io::Error) {
        if self.error.is_none() {
            self.error = Some(error);
        }
    }
}

} // verus!
