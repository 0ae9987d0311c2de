//! The reactor's handler: the sockets it has registered, their timers, and
//! the requests that wait to be carried out.
//!
//! The handler never touches the event loop. Carrying out a request is a
//! short exchange: `begin` says what the event loop must do first, the
//! caller does it and reports with `resume`, and so on until the request is
//! `Done`. Readiness events, timeouts and ticks are handed in; the hooks of
//! the protocol run at once, and what they ask for is queued.
use std::collections::HashMap;
use std::sync::atomic::AtomicBool;
use std::sync::Arc;
use vstd::prelude::*;

use crate::protocol::Protocol;
use crate::reactor::configurer::asked;
use crate::reactor::configurer::batch_applied;
use crate::reactor::configurer::nothing_asked;
use crate::reactor::configurer::requests_of;
use crate::reactor::configurer::Asked;
use crate::reactor::configurer::ProtocolConfigurer;
use crate::reactor::configurer::Request;
use crate::reactor::shutdown::ShutdownHandle;
use crate::reactor::slab::Slab;
use crate::reactor::EventSet;
use crate::reactor::PollOpt;
use crate::reactor::ReactorError;
use crate::reactor::Token;
use crate::reactor::FIRST_TOKEN;
use crate::reactor::SLAB_GROW_SIZE;

verus! {

broadcast use vstd::std_specs::hash::group_hash_axioms;

/// The handle that the event loop gives for a running timer. The handler
/// keeps it to have the timer cancelled later.
#[verifier::external_type_specification]
#[verifier::external_body]
pub struct ExTimeout(mio::Timeout);

/// Why a socket could not be registered anew.
pub enum UpdateError {
    NoSocketFound(Token),
    IoError(std::io::Error),
}

/// What the event loop must do next for the request in hand.
pub enum Action<S> {
    /// Register the socket under the token for the events.
    Register { token: Token, events: EventSet, opts: PollOpt, timeout: Option<u64> },
    /// Register the socket under the token anew.
    Reregister { token: Token, events: EventSet, opts: PollOpt, timeout: Option<u64> },
    /// Deregister the socket, which has left the slab already.
    Deregister { socket: S },
    /// Start a timer that will fire for the token.
    SetTimeout { token: Token, delay_ms: u64 },
    /// Cancel the timer.
    ClearTimeout { token: Token, timer: mio::Timeout },
}

/// How the event loop got on with an action.
pub enum Outcome<S> {
    Registered { token: Token, timeout: Option<u64>, result: Result<(), std::io::Error> },
    Reregistered { token: Token, timeout: Option<u64>, result: Result<(), std::io::Error> },
    Deregistered { socket: S, result: Result<(), std::io::Error> },
    /// The timer that was started, or `None` when the event loop had no
    /// room for it.
    TimeoutSet { token: Token, timer: Option<mio::Timeout> },
    TimeoutCleared { token: Token },
}

/// What a request that went well has achieved.
pub enum Applied<S> {
    /// The socket under the token is registered as asked.
    Registered(Token),
    /// The socket has left the reactor and is handed back.
    Removed(S),
}

/// Where a request stands.
pub enum Progress<S> {
    /// The event loop must do this, and `resume` be told how it went.
    Ask(Action<S>),
    /// The request is over.
    Done(Result<Applied<S>, ReactorError<S>>),
}

/// One hook of the protocol that a readiness event calls for.
#[derive(Clone, Copy, Debug, PartialEq, Eq, Structural)]
pub enum Callback {
    SocketError,
    Disconnect,
    Readable,
    Writable,
}

/// The hooks that an event calls for, in the order in which they run:
/// errors first, then hang-up, then readable, then writable.
pub open spec fn callbacks_spec(events: EventSet) -> Seq<Callback> {
    (if events.error {
        seq![Callback::SocketError]
    } else {
        seq![]
    }) + (if events.hup {
        seq![Callback::Disconnect]
    } else {
        seq![]
    }) + (if events.readable {
        seq![Callback::Readable]
    } else {
        seq![]
    }) + (if events.writable {
        seq![Callback::Writable]
    } else {
        seq![]
    })
}

/// The hooks that an event calls for, in the order in which they run.
pub fn callbacks_for(events: EventSet) -> (order: Vec<Callback>)
    ensures
        order@ == callbacks_spec(events),
{
    let mut order: Vec<Callback> = Vec::new();
    if events.is_error() {
        order.push(Callback::SocketError);
    }
    if events.is_hup() {
        order.push(Callback::Disconnect);
    }
    if events.is_readable() {
        order.push(Callback::Readable);
    }
    if events.is_writable() {
        order.push(Callback::Writable);
    }
    order
}

/// What the next step is once a socket is registered as asked: a timer if
/// a timeout was asked for, else nothing.
pub open spec fn after_registration<S>(token: Token, timeout: Option<u64>) -> Progress<S> {
    match timeout {
        Some(ms) => Progress::Ask(Action::SetTimeout { token, delay_ms: ms }),
        None => Progress::Done(Ok(Applied::Registered(token))),
    }
}

/// What the next step is once a timer is in the map: to cancel the timer
/// that it replaced, if there was one.
pub open spec fn after_timer<S>(token: Token, replaced: Option<mio::Timeout>) -> Progress<S> {
    match replaced {
        Some(timer) => Progress::Ask(Action::ClearTimeout { token, timer }),
        None => Progress::Done(Ok(Applied::Registered(token))),
    }
}

/// The state of a handler, as contracts see it.
pub struct HandlerView<P: Protocol> {
    pub protocol: P,
    /// The registered sockets, by the number of their token.
    pub sockets: Map<usize, P::Socket>,
    /// The running timers, by the number of the token they fire for.
    pub timers: Map<usize, mio::Timeout>,
    /// The error with which the protocol asked the reactor to stop.
    pub error: Option<std::io::Error>,
    /// Whether the protocol has asked the reactor to stop.
    pub stopping: bool,
    /// The requests that wait, the next one first.
    pub queue: Seq<Request<P::Socket>>,
    /// The tokens that are free, in the order in which they will be used.
    pub free: Seq<usize>,
    /// The first token beyond the slab: the one that comes next when the
    /// slab has to grow.
    pub fresh: int,
    /// Whether the protocol has been started.
    pub launched: bool,
    /// The flag by which anybody may ask the reactor to stop.
    pub flag: ShutdownHandle,
}

/// What a hook of the protocol may have changed in a handler: the protocol
/// itself, the sockets it was handed, and the requests it made. No socket
/// has come or gone, and what waited before still waits, behind what was
/// added. A request to stop replaces all other requests of the same hook.
pub open spec fn hooks_ran<P: Protocol>(pre: HandlerView<P>, post: HandlerView<P>) -> bool {
    &&& post.sockets.dom() == pre.sockets.dom()
    &&& post.free == pre.free
    &&& post.fresh == pre.fresh
    &&& post.launched == pre.launched
    &&& post.flag == pre.flag
    &&& post.timers == pre.timers
    &&& exists|added: Seq<Request<P::Socket>>| post.queue == added + pre.queue
    &&& pre.error is Some ==> post.error == pre.error
    &&& pre.stopping ==> post.stopping
    &&& post.error != pre.error ==> post.stopping
}

pub struct ReactorHandler<P: Protocol> {
    protocol: P,
    slab: Slab<P::Socket>,
    timeouts: HashMap<usize, mio::Timeout>,
    shutdown: ShutdownHandle,
    proto_error: Option<std::io::Error>,
    stopping: bool,
    launched: bool,
    /// The waiting requests, the next one last.
    queue: Vec<Request<P::Socket>>,
}

impl<P: Protocol> ReactorHandler<P> {
    /// The invariant of the handler.
    pub closed spec fn wf(&self) -> bool {
        self.slab.wf()
    }

    pub closed spec fn view(&self) -> HandlerView<P> {
        HandlerView {
            protocol: self.protocol,
            sockets: self.slab@,
            timers: self.timeouts@,
            error: self.proto_error,
            stopping: self.stopping,
            queue: self.queue@.reverse(),
            free: self.slab.upcoming(),
            fresh: self.slab.first_token() + self.slab.capacity(),
            launched: self.launched,
            flag: self.shutdown,
        }
    }

    /// Whether one more socket fits: a token is free, or the slab can grow
    /// without running out of tokens.
    pub open spec fn has_room(&self) -> bool {
        room_in(self@)
    }

    /// The tokens of a handler are consistent.
    pub proof fn lemma_consistent(&self)
        requires
            self.wf(),
        ensures
            consistent(self@),
    {
        self.slab.lemma_counts();
    }

    /// A handler for the protocol, with no socket registered. `shutdown`
    /// is the flag that asks the reactor to stop.
    pub fn new(proto: P, shutdown: Arc<AtomicBool>) -> (handler: ReactorHandler<P>)
        ensures
            handler.wf(),
            handler.has_room(),
            handler@ == (HandlerView {
                protocol: proto,
                sockets: Map::<usize, P::Socket>::empty(),
                timers: Map::<usize, mio::Timeout>::empty(),
                error: None,
                stopping: false,
                queue: Seq::<Request<P::Socket>>::empty(),
                free: Slab::<P::Socket>::tokens_from(FIRST_TOKEN as int, SLAB_GROW_SIZE as nat),
                fresh: FIRST_TOKEN + SLAB_GROW_SIZE,
                launched: false,
                flag: ShutdownHandle::over(shutdown),
            }),
    {
        let mut slab: Slab<P::Socket> = Slab::new_starting_at(Token(FIRST_TOKEN));
        slab.grow(SLAB_GROW_SIZE);
        let handler = ReactorHandler {
            protocol: proto,
            slab,
            timeouts: HashMap::new(),
            shutdown: ShutdownHandle::on(shutdown),
            proto_error: None,
            stopping: false,
            launched: false,
            queue: Vec::new(),
        };
        proof {
            handler.slab.lemma_counts();
        }
        handler
    }

    /// A handle on the flag that asks the reactor to stop.
    pub fn shutdown_handle(&self) -> (handle: ShutdownHandle)
        ensures
            handle == self@.flag,
    {
        self.shutdown.duplicate()
    }

    /// Whether the reactor should stop now: the protocol has asked for it,
    /// or somebody has raised the shutdown flag. The flag is looked at only
    /// when the protocol has not asked; what it shows then is up to whoever
    /// holds a handle on it.
    pub fn should_stop(&self) -> (stop: bool)
        ensures
            self@.stopping ==> stop,
    {
        if self.stopping {
            stop_decided(true, false)
        } else {
            stop_decided(false, self.shutdown.is_shutdown())
        }
    }

    /// Whether one more socket fits.
    pub fn room(&self) -> (b: bool)
        requires
            self.wf(),
        ensures
            b == self.has_room(),
    {
        proof {
            self.slab.lemma_counts();
        }
        self.slab.has_remaining() || self.slab.room_for(SLAB_GROW_SIZE)
    }

    /// Keeps `err` as the error with which the reactor will stop, unless
    /// one is kept already.
    pub fn set_protocol_error(&mut self, err: std::io::Error)
        ensures
            final(self).wf() == old(self).wf(),
            final(self).has_room() == old(self).has_room(),
            final(self)@ == (HandlerView {
                error: if old(self)@.error is Some {
                    old(self)@.error
                } else {
                    Some(err)
                },
                ..old(self)@
            }),
    {
        if self.proto_error.is_none() {
            self.proto_error = Some(err);
        }
    }

    /// Hands out the error with which the protocol asked to stop; the
    /// handler keeps none afterwards.
    pub fn protocol_error(&mut self) -> (err: Option<std::io::Error>)
        ensures
            final(self).wf() == old(self).wf(),
            final(self).has_room() == old(self).has_room(),
            err == old(self)@.error,
            final(self)@ == (HandlerView { error: None, ..old(self)@ }),
    {
        self.proto_error.take()
    }

    /// Records that the protocol has asked the reactor to stop, and raises
    /// the shutdown flag.
    pub(crate) fn request_stop(&mut self)
        ensures
            final(self).wf() == old(self).wf(),
            final(self).has_room() == old(self).has_room(),
            final(self)@ == (HandlerView { stopping: true, ..old(self)@ }),
    {
        self.stopping = true;
        self.shutdown.shutdown();
    }

    /// Puts a request in front of those that wait.
    pub(crate) fn push_request(&mut self, request: Request<P::Socket>)
        ensures
            final(self).wf() == old(self).wf(),
            final(self).has_room() == old(self).has_room(),
            final(self)@ == (HandlerView {
                queue: seq![request] + old(self)@.queue,
                ..old(self)@
            }),
    {
        self.queue.push(request);
        proof {
            assert(final(self)@.queue =~= seq![request] + old(self)@.queue);
        }
    }

    /// Takes the request that is next in line, if one waits.
    pub fn next_request(&mut self) -> (next: Option<Request<P::Socket>>)
        ensures
            final(self).wf() == old(self).wf(),
            final(self).has_room() == old(self).has_room(),
            match next {
                Some(request) => {
                    &&& old(self)@.queue.len() > 0
                    &&& request == old(self)@.queue[0]
                    &&& final(self)@ == (HandlerView {
                        queue: old(self)@.queue.drop_first(),
                        ..old(self)@
                    })
                },
                None => old(self)@.queue.len() == 0 && final(self)@ == old(self)@,
            },
    {
        let next = self.queue.pop();
        proof {
            if next is Some {
                assert(final(self)@.queue =~= old(self)@.queue.drop_first());
            }
        }
        next
    }

    /// The socket registered under the token, if there is one.
    pub fn socket(&self, token: Token) -> (s: Option<&P::Socket>)
        requires
            self.wf(),
        ensures
            match s {
                Some(socket) => self@.sockets.contains_key(token.0) && *socket
                    == self@.sockets[token.0],
                None => !self@.sockets.contains_key(token.0),
            },
    {
        self.slab.get(token)
    }

    /// Puts the socket into the slab, which grows if it is full, and says
    /// under which token the socket is to be registered.
    pub fn add_to_slab(&mut self, socket: P::Socket) -> (token: Token)
        requires
            old(self).wf(),
            old(self).has_room(),
        ensures
            final(self).wf(),
            (final(self)@, token) == added(old(self)@, socket),
            !old(self)@.sockets.contains_key(token.0),
    {
        proof {
            self.slab.lemma_counts();
        }
        match self.slab.insert(socket) {
            Ok(token) => token,
            Err(socket) => {
                let ghost fresh = self@.fresh;
                self.slab.grow(SLAB_GROW_SIZE);
                proof {
                    self.slab.lemma_counts();
                }
                match self.slab.insert(socket) {
                    Ok(token) => {
                        proof {
                            assert(self@.free =~= Slab::<P::Socket>::tokens_from(
                                fresh + 1,
                                (SLAB_GROW_SIZE - 1) as nat,
                            ));
                        }
                        token
                    },
                    Err(_) => unreached(),
                }
            },
        }
    }

    /// Takes the socket under the token out of the slab and forgets the
    /// timer that ran for it.
    fn evict(&mut self, token: Token) -> (socket: Option<P::Socket>)
        requires
            old(self).wf(),
        ensures
            final(self).wf(),
            old(self).has_room() ==> final(self).has_room(),
            match socket {
                Some(s) => {
                    &&& old(self)@.sockets.contains_key(token.0)
                    &&& s == old(self)@.sockets[token.0]
                    &&& final(self)@ == evicted(old(self)@, token)
                },
                None => !old(self)@.sockets.contains_key(token.0) && final(self)@ == old(self)@,
            },
    {
        match self.slab.remove(token) {
            Some(socket) => {
                self.timeouts.remove(&token.0);
                Some(socket)
            },
            None => None,
        }
    }

    /// Starts to add a socket: it enters the slab and is to be registered.
    pub fn add_socket(&mut self, socket: P::Socket, events: EventSet, timeout: Option<u64>) -> (r:
        Progress<P::Socket>)
        requires
            old(self).wf(),
            old(self).has_room(),
        ensures
            final(self).wf(),
            (final(self)@, r) == adding(old(self)@, socket, events, timeout),
            !old(self)@.sockets.contains_key(added(old(self)@, socket).1.0),
    {
        let token = self.add_to_slab(socket);
        Progress::Ask(Action::Register { token, events, opts: PollOpt::Edge, timeout })
    }

    /// Goes on with an addition once the event loop has answered. A socket
    /// that could not be registered leaves the slab again and travels back
    /// with the error.
    pub fn registered(
        &mut self,
        token: Token,
        timeout: Option<u64>,
        result: Result<(), std::io::Error>,
    ) -> (r: Progress<P::Socket>)
        requires
            old(self).wf(),
        ensures
            final(self).wf(),
            old(self).has_room() ==> final(self).has_room(),
            (final(self)@, r) == registration_answered(old(self)@, token, timeout, result),
    {
        match result {
            Ok(_) => Self::registration_done(token, timeout),
            Err(e) => match self.evict(token) {
                Some(s) => Progress::Done(Err(ReactorError::IoError(e, s))),
                None => Progress::Done(Err(ReactorError::NoSocketFound(token))),
            },
        }
    }

    /// The step after a registration that went well.
    fn registration_done(token: Token, timeout: Option<u64>) -> (r: Progress<P::Socket>)
        ensures
            r == after_registration::<P::Socket>(token, timeout),
    {
        match timeout {
            Some(ms) => Progress::Ask(Action::SetTimeout { token, delay_ms: ms }),
            None => Progress::Done(Ok(Applied::Registered(token))),
        }
    }

    /// Starts to remove a socket: it leaves the slab, its timer is
    /// forgotten, and it is to be deregistered.
    pub fn remove_socket(&mut self, token: Token) -> (r: Progress<P::Socket>)
        requires
            old(self).wf(),
        ensures
            final(self).wf(),
            old(self).has_room() ==> final(self).has_room(),
            (final(self)@, r) == removing(old(self)@, token),
    {
        match self.evict(token) {
            Some(s) => Progress::Ask(Action::Deregister { socket: s }),
            None => Progress::Done(Err(ReactorError::NoSocketFound(token))),
        }
    }

    /// Ends a removal once the event loop has answered: the socket goes
    /// back to whoever asked, alone or with the error.
    pub fn deregistered(socket: P::Socket, result: Result<(), std::io::Error>) -> (r: Progress<
        P::Socket,
    >)
        ensures
            r == deregistration_answered(socket, result),
    {
        match result {
            Ok(_) => Progress::Done(Ok(Applied::Removed(socket))),
            Err(e) => Progress::Done(Err(ReactorError::IoError(e, socket))),
        }
    }

    /// Starts to update a socket: if it is there, it is to be registered
    /// anew.
    pub fn update_socket(&self, token: Token, events: EventSet, timeout: Option<u64>) -> (r:
        Progress<P::Socket>)
        requires
            self.wf(),
        ensures
            r == updating(self@, token, events, timeout),
    {
        if self.slab.contains(token) {
            Progress::Ask(Action::Reregister { token, events, opts: PollOpt::Edge, timeout })
        } else {
            Progress::Done(Err(ReactorError::NoSocketFound(token)))
        }
    }

    /// Turns a failed update into the error that the protocol sees. After
    /// an I/O error the socket's registration is in doubt, so the socket
    /// leaves the slab and travels with the error.
    pub fn translate_error_and_remove(&mut self, token: Token, err: UpdateError) -> (r: Result<
        (),
        ReactorError<P::Socket>,
    >)
        requires
            old(self).wf(),
        ensures
            final(self).wf(),
            old(self).has_room() ==> final(self).has_room(),
            r is Err,
            match err {
                UpdateError::NoSocketFound(t) => r->Err_0 == ReactorError::<P::Socket>::NoSocketFound(
                    t,
                ) && final(self)@ == old(self)@,
                UpdateError::IoError(e) => (final(self)@, Progress::Done(Err(r->Err_0)))
                    == registration_answered(old(self)@, token, None, Err(e)),
            },
    {
        match err {
            UpdateError::NoSocketFound(t) => Err(ReactorError::NoSocketFound(t)),
            UpdateError::IoError(e) => match self.evict(token) {
                Some(skt) => Err(ReactorError::IoError(e, skt)),
                None => Err(ReactorError::NoSocketFound(token)),
            },
        }
    }

    /// Goes on with an update once the event loop has answered.
    pub fn reregistered(
        &mut self,
        token: Token,
        timeout: Option<u64>,
        result: Result<(), std::io::Error>,
    ) -> (r: Progress<P::Socket>)
        requires
            old(self).wf(),
        ensures
            final(self).wf(),
            old(self).has_room() ==> final(self).has_room(),
            (final(self)@, r) == registration_answered(old(self)@, token, timeout, result),
    {
        match result {
            Ok(_) => Self::registration_done(token, timeout),
            Err(e) => match self.translate_error_and_remove(token, UpdateError::IoError(e)) {
                Ok(_) => Progress::Done(Ok(Applied::Registered(token))),
                Err(error) => Progress::Done(Err(error)),
            },
        }
    }

    /// Goes on once the event loop has tried to start a timer. A timer
    /// that was started takes the place of the token's earlier one, which
    /// is then to be cancelled.
    pub fn add_timeout(&mut self, token: Token, timer: Option<mio::Timeout>) -> (r: Progress<
        P::Socket,
    >)
        ensures
            final(self).wf() == old(self).wf(),
            final(self).has_room() == old(self).has_room(),
            (final(self)@, r) == timer_answered(old(self)@, token, timer),
    {
        match timer {
            Some(t) => {
                let replaced = self.timeouts.insert(token.0, t);
                Self::clear_timeout(token, replaced)
            },
            None => Progress::Done(Err(ReactorError::TimerError)),
        }
    }

    /// The step after a timer has entered the map.
    fn clear_timeout(token: Token, timeout: Option<mio::Timeout>) -> (r: Progress<P::Socket>)
        ensures
            r == after_timer::<P::Socket>(token, timeout),
    {
        match timeout {
            Some(t) => Progress::Ask(Action::ClearTimeout { token, timer: t }),
            None => Progress::Done(Ok(Applied::Registered(token))),
        }
    }

    /// Starts to carry out a request.
    pub fn begin(&mut self, request: Request<P::Socket>) -> (r: Progress<P::Socket>)
        requires
            old(self).wf(),
            request is Add ==> old(self).has_room(),
        ensures
            final(self).wf(),
            !(request is Add) && old(self).has_room() ==> final(self).has_room(),
            begun(old(self)@, request, final(self)@, r),
    {
        match request {
            Request::Add(socket, events, timeout) => self.add_socket(socket, events, timeout),
            Request::Update(token, events, timeout) => self.update_socket(token, events, timeout),
            Request::Remove(token) => self.remove_socket(token),
        }
    }

    /// Goes on with the request in hand once the event loop has done what
    /// it was asked.
    pub fn resume(&mut self, outcome: Outcome<P::Socket>) -> (r: Progress<P::Socket>)
        requires
            old(self).wf(),
        ensures
            final(self).wf(),
            old(self).has_room() ==> final(self).has_room(),
            (final(self)@, r) == answered(old(self)@, outcome),
    {
        match outcome {
            Outcome::Registered { token, timeout, result } => self.registered(
                token,
                timeout,
                result,
            ),
            Outcome::Reregistered { token, timeout, result } => self.reregistered(
                token,
                timeout,
                result,
            ),
            Outcome::Deregistered { socket, result } => Self::deregistered(socket, result),
            Outcome::TimeoutSet { token, timer } => self.add_timeout(token, timer),
            Outcome::TimeoutCleared { token } => Progress::Done(Ok(Applied::Registered(token))),
        }
    }

    /// Runs the hooks that the events call for on the socket under the
    /// token, in their order. Without such a socket no hook runs.
    fn call_protocol(
        &mut self,
        configurer: &mut ProtocolConfigurer<P::Socket>,
        token: Token,
        events: EventSet,
    )
        requires
            old(self).wf(),
        ensures
            final(self).wf(),
            touched(old(self)@, token, final(self)@),
            if old(self)@.sockets.contains_key(token.0) {
                hooks_in_order(
                    callbacks_spec(events),
                    token,
                    Turn {
                        protocol: old(self)@.protocol,
                        asked: asked(old(configurer)),
                        socket: old(self)@.sockets[token.0],
                    },
                    Turn {
                        protocol: final(self)@.protocol,
                        asked: asked(final(configurer)),
                        socket: final(self)@.sockets[token.0],
                    },
                )
            } else {
                final(self)@ == old(self)@ && *final(configurer) == *old(configurer)
            },
    {
        let order = callbacks_for(events);
        let mut at: usize = 0;
        let ghost start = Turn {
            protocol: self@.protocol,
            asked: asked(&*configurer),
            socket: self@.sockets[token.0],
        };
        let ghost path = seq![start];
        while at < order.len()
            invariant
                at <= order.len(),
                order@ == callbacks_spec(events),
                self.wf(),
                touched(old(self)@, token, self@),
                start == (Turn {
                    protocol: old(self)@.protocol,
                    asked: asked(old(configurer)),
                    socket: old(self)@.sockets[token.0],
                }),
                if old(self)@.sockets.contains_key(token.0) {
                    &&& hooks_along(order@.take(at as int), token, path)
                    &&& path[0] == start
                    &&& path.last() == (Turn {
                        protocol: self@.protocol,
                        asked: asked(&*configurer),
                        socket: self@.sockets[token.0],
                    })
                } else {
                    self@ == old(self)@ && *configurer == *old(configurer)
                },
            decreases order.len() - at,
        {
            match self.slab.get_mut(token) {
                Some(socket) => match order[at] {
                    Callback::SocketError => self.protocol.on_socket_error(
                        configurer,
                        socket,
                        token,
                    ),
                    Callback::Disconnect => self.protocol.on_disconnect(configurer, socket, token),
                    Callback::Readable => self.protocol.on_readable(configurer, socket, token),
                    Callback::Writable => self.protocol.on_writable(configurer, socket, token),
                },
                None => {},
            }
            proof {
                assert(self@.sockets.dom() =~= old(self)@.sockets.dom());
                if old(self)@.sockets.contains_key(token.0) {
                    path = path.push(
                        Turn {
                            protocol: self@.protocol,
                            asked: asked(&*configurer),
                            socket: self@.sockets[token.0],
                        },
                    );
                }
            }
            at = at + 1;
        }
        proof {
            assert(order@.take(at as int) =~= order@);
        }
    }

    /// Tells the protocol that a requested change failed, and queues what
    /// it asks for in turn.
    pub fn event_loop_error(&mut self, err: ReactorError<P::Socket>)
        ensures
            final(self).wf() == old(self).wf(),
            final(self).has_room() == old(self).has_room(),
            failed(old(self)@, err, final(self)@),
            hooks_ran(old(self)@, final(self)@),
            final(self)@.sockets == old(self)@.sockets,
    {
        let mut configurer = ProtocolConfigurer::new();
        self.protocol.on_event_loop_error(&mut configurer, err);
        let ghost mid = self@;
        let ghost batch = asked(&configurer);
        configurer.update_event_loop(self);
        proof {
            lemma_batch_is_hooks(mid, batch);
            lemma_hooks_follow(old(self)@, mid, self@);
            assert(old(self)@.protocol.fails(nothing_asked(), err, &mid.protocol, batch));
        }
    }

    /// Takes note of how a queued request ended: a failure goes to the
    /// protocol.
    pub fn finish(&mut self, result: Result<Applied<P::Socket>, ReactorError<P::Socket>>)
        ensures
            final(self).wf() == old(self).wf(),
            final(self).has_room() == old(self).has_room(),
            match result {
                Ok(_) => final(self)@ == old(self)@,
                Err(e) => failed(old(self)@, e, final(self)@),
            },
            hooks_ran(old(self)@, final(self)@),
            final(self)@.sockets == old(self)@.sockets,
    {
        match result {
            Ok(_) => {
                proof {
                    assert(self@.queue =~= Seq::<Request<P::Socket>>::empty() + self@.queue);
                }
            },
            Err(e) => self.event_loop_error(e),
        }
    }

    /// Lets the protocol set itself up before the reactor runs, and queues
    /// what it asks for. Fails with the error with which the protocol asked
    /// to stop, if it did. A protocol is started once: any later call does
    /// nothing.
    pub fn init_protocol(&mut self) -> (r: Result<(), std::io::Error>)
        ensures
            final(self).wf() == old(self).wf(),
            final(self).has_room() == old(self).has_room(),
            if old(self)@.launched {
                r is Ok && final(self)@ == old(self)@
            } else {
                &&& final(self)@.error is None
                &&& started(
                    (HandlerView { launched: true, ..old(self)@ }),
                    (HandlerView { error: result_error(r), ..final(self)@ }),
                )
                &&& hooks_ran(
                    (HandlerView { launched: true, ..old(self)@ }),
                    (HandlerView { error: result_error(r), ..final(self)@ }),
                )
                &&& final(self)@.sockets == old(self)@.sockets
            },
    {
        if self.launched {
            return Ok(());
        }
        self.launched = true;
        let ghost before = self@;
        let mut configurer = ProtocolConfigurer::new();
        self.protocol.on_start(&mut configurer);
        let ghost mid = self@;
        let ghost batch = asked(&configurer);
        configurer.update_event_loop(self);
        proof {
            lemma_batch_is_hooks(mid, batch);
            lemma_hooks_follow(before, mid, self@);
            assert(before.protocol.starts(nothing_asked(), &mid.protocol, batch));
            assert(started(before, self@));
        }
        let r = match self.protocol_error() {
            Some(err) => Err(err),
            None => Ok(()),
        };
        r
    }

    /// What a run of the event loop comes to: the error of the event loop
    /// if it failed, else the error with which the protocol asked to stop,
    /// which the handler then no longer keeps.
    pub fn run_result(&mut self, ran: Result<(), std::io::Error>) -> (r: Result<(), std::io::Error>)
        ensures
            final(self).wf() == old(self).wf(),
            final(self).has_room() == old(self).has_room(),
            match ran {
                Err(e) => r == Err::<(), std::io::Error>(e) && final(self)@ == old(self)@,
                Ok(_) => {
                    &&& result_error(r) == old(self)@.error
                    &&& final(self)@ == (HandlerView { error: None, ..old(self)@ })
                },
            },
    {
        match ran {
            Err(e) => Err(e),
            Ok(_) => match self.protocol_error() {
                Some(err) => Err(err),
                None => Ok(()),
            },
        }
    }

    /// The protocol that the handler serves.
    pub fn protocol(&self) -> (p: &P)
        ensures
            *p == self@.protocol,
    {
        &self.protocol
    }

    /// A readiness event for the token: runs the hooks it calls for, in
    /// their order, then queues what they asked for. An event for a token
    /// without a socket changes nothing.
    pub fn ready(&mut self, token: Token, events: EventSet)
        requires
            old(self).wf(),
        ensures
            final(self).wf(),
            readied(old(self)@, token, events, final(self)@),
            hooks_ran(old(self)@, final(self)@),
            forall|t: usize|
                t != token.0 && old(self)@.sockets.contains_key(t) ==> final(self)@.sockets[t]
                    == old(self)@.sockets[t],
            !old(self)@.sockets.contains_key(token.0) || callbacks_spec(events).len() == 0
                ==> final(self)@ == old(self)@,
    {
        let mut configurer = ProtocolConfigurer::new();
        self.call_protocol(&mut configurer, token, events);
        let ghost mid = self@;
        let ghost batch = asked(&configurer);
        configurer.update_event_loop(self);
        proof {
            lemma_batch_is_hooks(mid, batch);
            lemma_hooks_follow(old(self)@, mid, self@);
            if old(self)@.sockets.contains_key(token.0) {
                let turn = Turn {
                    protocol: mid.protocol,
                    asked: batch,
                    socket: mid.sockets[token.0],
                };
                assert(mid.sockets =~= old(self)@.sockets.insert(token.0, turn.socket));
                if callbacks_spec(events).len() == 0 {
                    assert(mid.sockets =~= old(self)@.sockets);
                    lemma_nothing_to_do::<P::Socket>();
                }
            } else {
                lemma_nothing_to_do::<P::Socket>();
            }
        }
    }

    /// The timer of the token has fired: forgets the timer, runs the
    /// timeout hook on the socket if it is still there, and queues what
    /// the hook asked for.
    pub fn timeout(&mut self, token: Token)
        requires
            old(self).wf(),
        ensures
            final(self).wf(),
            timed_out(old(self)@, token, final(self)@),
            hooks_ran(
                (HandlerView { timers: old(self)@.timers.remove(token.0), ..old(self)@ }),
                final(self)@,
            ),
            forall|t: usize|
                t != token.0 && old(self)@.sockets.contains_key(t) ==> final(self)@.sockets[t]
                    == old(self)@.sockets[t],
    {
        let mut configurer = ProtocolConfigurer::new();
        self.timeouts.remove(&token.0);
        let ghost cleared = self@;
        match self.slab.get_mut(token) {
            Some(socket) => self.protocol.on_timeout(&mut configurer, socket, token),
            None => {},
        }
        proof {
            assert(self@.sockets.dom() =~= old(self)@.sockets.dom());
        }
        let ghost mid = self@;
        let ghost batch = asked(&configurer);
        configurer.update_event_loop(self);
        proof {
            lemma_batch_is_hooks(mid, batch);
            lemma_hooks_follow(cleared, mid, self@);
            if old(self)@.sockets.contains_key(token.0) {
                let turn = Turn {
                    protocol: mid.protocol,
                    asked: batch,
                    socket: mid.sockets[token.0],
                };
                assert(cleared.protocol.times_out(
                    nothing_asked(),
                    cleared.sockets[token.0],
                    token,
                    &turn.protocol,
                    turn.asked,
                    turn.socket,
                ));
            } else {
                lemma_nothing_to_do::<P::Socket>();
            }
        }
    }

    /// The end of a turn of the event loop: runs the tick hook and queues
    /// what it asked for.
    pub fn tick(&mut self)
        ensures
            final(self).wf() == old(self).wf(),
            final(self).has_room() == old(self).has_room(),
            ticked(old(self)@, final(self)@),
            hooks_ran(old(self)@, final(self)@),
            final(self)@.sockets == old(self)@.sockets,
    {
        let mut configurer = ProtocolConfigurer::new();
        self.protocol.tick(&mut configurer);
        let ghost mid = self@;
        let ghost batch = asked(&configurer);
        configurer.update_event_loop(self);
        proof {
            lemma_batch_is_hooks(mid, batch);
            lemma_hooks_follow(old(self)@, mid, self@);
            assert(old(self)@.protocol.ticks(nothing_asked(), &mid.protocol, batch));
        }
    }
}

/// The protocol, what has been asked of the reactor, and a socket, at one
/// moment between the hooks of an event.
pub struct Turn<P: Protocol> {
    pub protocol: P,
    pub asked: Asked<P::Socket>,
    pub socket: P::Socket,
}

/// The hook ran on the socket.
pub open spec fn hook_ran<P: Protocol>(
    callback: Callback,
    token: Token,
    pre: Turn<P>,
    post: Turn<P>,
) -> bool {
    match callback {
        Callback::SocketError => pre.protocol.errs(
            pre.asked,
            pre.socket,
            token,
            &post.protocol,
            post.asked,
            post.socket,
        ),
        Callback::Disconnect => pre.protocol.disconnects(
            pre.asked,
            pre.socket,
            token,
            &post.protocol,
            post.asked,
            post.socket,
        ),
        Callback::Readable => pre.protocol.reads(
            pre.asked,
            pre.socket,
            token,
            &post.protocol,
            post.asked,
            post.socket,
        ),
        Callback::Writable => pre.protocol.writes(
            pre.asked,
            pre.socket,
            token,
            &post.protocol,
            post.asked,
            post.socket,
        ),
    }
}

/// The hooks ran on the socket one after the other, and `path` holds how
/// things stood before the first hook, between the hooks, and after the
/// last.
pub open spec fn hooks_along<P: Protocol>(
    order: Seq<Callback>,
    token: Token,
    path: Seq<Turn<P>>,
) -> bool {
    &&& path.len() == order.len() + 1
    &&& forall|i: int|
        0 <= i < order.len() ==> hook_ran(order[i], token, #[trigger] path[i], path[i + 1])
}

/// The hooks ran on the socket one after the other, each where the one
/// before it had left off, and no other hook ran.
pub open spec fn hooks_in_order<P: Protocol>(
    order: Seq<Callback>,
    token: Token,
    pre: Turn<P>,
    post: Turn<P>,
) -> bool {
    exists|path: Seq<Turn<P>>|
        {
            &&& #[trigger] hooks_along(order, token, path)
            &&& path[0] == pre
            &&& path.last() == post
        }
}

/// A readiness event was dealt with. If a socket sits under the token,
/// the hooks that the events call for ran on it in their order, starting
/// with nothing asked, and what they asked for was handed over. Without
/// such a socket nothing happened.
pub open spec fn readied<P: Protocol>(
    pre: HandlerView<P>,
    token: Token,
    events: EventSet,
    post: HandlerView<P>,
) -> bool {
    if pre.sockets.contains_key(token.0) {
        exists|turn: Turn<P>|
            {
                &&& #[trigger] hooks_in_order(
                    callbacks_spec(events),
                    token,
                    Turn {
                        protocol: pre.protocol,
                        asked: nothing_asked(),
                        socket: pre.sockets[token.0],
                    },
                    turn,
                )
                &&& post == batch_applied(
                    HandlerView {
                        protocol: turn.protocol,
                        sockets: pre.sockets.insert(token.0, turn.socket),
                        ..pre
                    },
                    turn.asked,
                )
            }
    } else {
        post == pre
    }
}

/// The timeout hook ran on the socket under the token, starting with
/// nothing asked, and what it asked for was handed over.
pub open spec fn hook_timed_out<P: Protocol>(
    pre: HandlerView<P>,
    token: Token,
    post: HandlerView<P>,
) -> bool {
    exists|turn: Turn<P>|
        {
            &&& #[trigger] pre.protocol.times_out(
                nothing_asked(),
                pre.sockets[token.0],
                token,
                &turn.protocol,
                turn.asked,
                turn.socket,
            )
            &&& post == batch_applied(
                HandlerView {
                    protocol: turn.protocol,
                    sockets: pre.sockets.insert(token.0, turn.socket),
                    ..pre
                },
                turn.asked,
            )
        }
}

/// A timer has fired. The timer is forgotten; if a socket sits under the
/// token the timeout hook ran on it, else nothing more happened.
pub open spec fn timed_out<P: Protocol>(
    pre: HandlerView<P>,
    token: Token,
    post: HandlerView<P>,
) -> bool {
    if pre.sockets.contains_key(token.0) {
        hook_timed_out(HandlerView { timers: pre.timers.remove(token.0), ..pre }, token, post)
    } else {
        post == (HandlerView { timers: pre.timers.remove(token.0), ..pre })
    }
}

/// The tick hook ran, starting with nothing asked, and what it asked for
/// was handed over.
pub open spec fn ticked<P: Protocol>(pre: HandlerView<P>, post: HandlerView<P>) -> bool {
    exists|protocol: P, batch: Asked<P::Socket>|
        {
            &&& #[trigger] pre.protocol.ticks(nothing_asked(), &protocol, batch)
            &&& post == batch_applied(HandlerView { protocol, ..pre }, batch)
        }
}

/// The protocol was told of the failure, starting with nothing asked, and
/// what it asked for in turn was handed over.
pub open spec fn failed<P: Protocol>(
    pre: HandlerView<P>,
    error: ReactorError<P::Socket>,
    post: HandlerView<P>,
) -> bool {
    exists|protocol: P, batch: Asked<P::Socket>|
        {
            &&& #[trigger] pre.protocol.fails(nothing_asked(), error, &protocol, batch)
            &&& post == batch_applied(HandlerView { protocol, ..pre }, batch)
        }
}

/// The start hook ran, starting with nothing asked, and what it asked for
/// was handed over.
pub open spec fn started<P: Protocol>(pre: HandlerView<P>, post: HandlerView<P>) -> bool {
    exists|protocol: P, batch: Asked<P::Socket>|
        {
            &&& #[trigger] pre.protocol.starts(nothing_asked(), &protocol, batch)
            &&& post == batch_applied(HandlerView { protocol, ..pre }, batch)
        }
}

/// The error inside a result, if it holds one.
pub open spec fn result_error(r: Result<(), std::io::Error>) -> Option<std::io::Error> {
    match r {
        Ok(_) => None,
        Err(e) => Some(e),
    }
}

/// What the hooks of one readiness event or timeout may have changed
/// before their requests are queued: the protocol and the socket under the
/// token.
pub open spec fn touched<P: Protocol>(pre: HandlerView<P>, token: Token, post: HandlerView<
    P,
>) -> bool {
    &&& post.sockets.dom() == pre.sockets.dom()
    &&& forall|t: usize|
        t != token.0 && pre.sockets.contains_key(t) ==> post.sockets[t] == pre.sockets[t]
    &&& post.free == pre.free
    &&& post.fresh == pre.fresh
    &&& post.launched == pre.launched
    &&& post.flag == pre.flag
    &&& post.timers == pre.timers
    &&& post.error == pre.error
    &&& post.stopping == pre.stopping
    &&& post.queue == pre.queue
}

/// Whether one more socket fits: a token is free, or the slab can grow
/// without running out of tokens.
pub open spec fn room_in<P: Protocol>(view: HandlerView<P>) -> bool {
    view.free.len() > 0 || view.fresh + SLAB_GROW_SIZE <= usize::MAX
}

/// The handler with the socket in the slab, and the token under which it
/// sits there: the next free token, or, when none is free, the first of
/// the tokens by which the slab then grows.
pub open spec fn added<P: Protocol>(pre: HandlerView<P>, socket: P::Socket) -> (
    HandlerView<P>,
    Token,
) {
    if pre.free.len() > 0 {
        (
            HandlerView {
                sockets: pre.sockets.insert(pre.free[0], socket),
                free: pre.free.drop_first(),
                ..pre
            },
            Token(pre.free[0]),
        )
    } else {
        (
            HandlerView {
                sockets: pre.sockets.insert(pre.fresh as usize, socket),
                free: Slab::<P::Socket>::tokens_from(pre.fresh + 1, (SLAB_GROW_SIZE - 1) as nat),
                fresh: pre.fresh + SLAB_GROW_SIZE,
                ..pre
            },
            Token(pre.fresh as usize),
        )
    }
}

/// The start of an addition: the socket is in the slab, and the event loop
/// is asked to register it under its token, edge-triggered.
pub open spec fn adding<P: Protocol>(
    pre: HandlerView<P>,
    socket: P::Socket,
    events: EventSet,
    timeout: Option<u64>,
) -> (HandlerView<P>, Progress<P::Socket>) {
    (
        added(pre, socket).0,
        Progress::Ask(
            Action::Register { token: added(pre, socket).1, events, opts: PollOpt::Edge, timeout },
        ),
    )
}

/// The start of an update: the event loop is asked to register the socket
/// anew, edge-triggered, if there is one under the token.
pub open spec fn updating<P: Protocol>(
    pre: HandlerView<P>,
    token: Token,
    events: EventSet,
    timeout: Option<u64>,
) -> Progress<P::Socket> {
    if pre.sockets.contains_key(token.0) {
        Progress::Ask(Action::Reregister { token, events, opts: PollOpt::Edge, timeout })
    } else {
        Progress::Done(Err(ReactorError::NoSocketFound(token)))
    }
}

/// The handler without the socket under the token and without its timer.
/// The token is free again, and the next to be used.
pub open spec fn evicted<P: Protocol>(pre: HandlerView<P>, token: Token) -> HandlerView<P> {
    HandlerView {
        sockets: pre.sockets.remove(token.0),
        timers: pre.timers.remove(token.0),
        free: seq![token.0] + pre.free,
        ..pre
    }
}

/// The start of a removal: the socket under the token leaves the handler
/// and the event loop is asked to deregister it.
pub open spec fn removing<P: Protocol>(pre: HandlerView<P>, token: Token) -> (HandlerView<P>, Progress<
    P::Socket,
>) {
    if pre.sockets.contains_key(token.0) {
        (evicted(pre, token), Progress::Ask(Action::Deregister { socket: pre.sockets[token.0] }))
    } else {
        (pre, Progress::Done(Err(ReactorError::NoSocketFound(token))))
    }
}

/// A request has been begun.
pub open spec fn begun<P: Protocol>(
    pre: HandlerView<P>,
    request: Request<P::Socket>,
    post: HandlerView<P>,
    r: Progress<P::Socket>,
) -> bool {
    match request {
        Request::Add(socket, events, timeout) => (post, r) == adding(pre, socket, events, timeout),
        Request::Update(token, events, timeout) => post == pre && r == updating(
            pre,
            token,
            events,
            timeout,
        ),
        Request::Remove(token) => (post, r) == removing(pre, token),
    }
}

/// The handler and the next step after the event loop has answered a
/// registration, first or renewed. A socket that the event loop refused
/// leaves the handler and travels back with the error.
pub open spec fn registration_answered<P: Protocol>(
    pre: HandlerView<P>,
    token: Token,
    timeout: Option<u64>,
    result: Result<(), std::io::Error>,
) -> (HandlerView<P>, Progress<P::Socket>) {
    match result {
        Ok(_) => (pre, after_registration(token, timeout)),
        Err(e) => if pre.sockets.contains_key(token.0) {
            (
                evicted(pre, token),
                Progress::Done(Err(ReactorError::IoError(e, pre.sockets[token.0]))),
            )
        } else {
            (pre, Progress::Done(Err(ReactorError::NoSocketFound(token))))
        },
    }
}

/// The end of a removal.
pub open spec fn deregistration_answered<S>(socket: S, result: Result<(), std::io::Error>) -> Progress<
    S,
> {
    match result {
        Ok(_) => Progress::Done(Ok(Applied::Removed(socket))),
        Err(e) => Progress::Done(Err(ReactorError::IoError(e, socket))),
    }
}

/// The handler and the next step after the event loop has tried to start
/// a timer.
pub open spec fn timer_answered<P: Protocol>(
    pre: HandlerView<P>,
    token: Token,
    timer: Option<mio::Timeout>,
) -> (HandlerView<P>, Progress<P::Socket>) {
    match timer {
        Some(t) => (
            HandlerView { timers: pre.timers.insert(token.0, t), ..pre },
            after_timer(
                token,
                if pre.timers.contains_key(token.0) {
                    Some(pre.timers[token.0])
                } else {
                    None
                },
            ),
        ),
        None => (pre, Progress::Done(Err(ReactorError::TimerError))),
    }
}

/// The handler and the next step after the event loop has answered.
pub open spec fn answered<P: Protocol>(pre: HandlerView<P>, outcome: Outcome<P::Socket>) -> (
    HandlerView<P>,
    Progress<P::Socket>,
) {
    match outcome {
        Outcome::Registered { token, timeout, result } => registration_answered(
            pre,
            token,
            timeout,
            result,
        ),
        Outcome::Reregistered { token, timeout, result } => registration_answered(
            pre,
            token,
            timeout,
            result,
        ),
        Outcome::Deregistered { socket, result } => (pre, deregistration_answered(socket, result)),
        Outcome::TimeoutSet { token, timer } => timer_answered(pre, token, timer),
        Outcome::TimeoutCleared { token } => (pre, Progress::Done(Ok(Applied::Registered(token)))),
    }
}

/// Where nothing was asked there are no requests.
pub proof fn lemma_nothing_to_do<S>()
    ensures
        requests_of(nothing_asked::<S>()) == Seq::<Request<S>>::empty(),
{
}

/// What holds from the state in which the hooks left a handler holds from
/// the state in which they found it, as far as they left it alone.
pub proof fn lemma_hooks_follow<P: Protocol>(
    pre: HandlerView<P>,
    mid: HandlerView<P>,
    post: HandlerView<P>,
)
    requires
        mid.sockets.dom() == pre.sockets.dom(),
        mid.free == pre.free,
        mid.fresh == pre.fresh,
        mid.launched == pre.launched,
        mid.flag == pre.flag,
        mid.timers == pre.timers,
        mid.queue == pre.queue,
        mid.error == pre.error,
        mid.stopping == pre.stopping,
        hooks_ran(mid, post),
    ensures
        hooks_ran(pre, post),
{
}

/// Handing a batch over changes a handler as the hooks that made the
/// batch are allowed to.
pub proof fn lemma_batch_is_hooks<P: Protocol>(pre: HandlerView<P>, batch: Asked<P::Socket>)
    ensures
        hooks_ran(pre, batch_applied(pre, batch)),
        batch_applied(pre, batch).sockets == pre.sockets,
        batch_applied(pre, batch).protocol == pre.protocol,
{
    let post = batch_applied(pre, batch);
    if batch.error is Some {
        assert(post.queue == Seq::<Request<P::Socket>>::empty() + pre.queue);
    } else {
    }
}

/// Whether a reactor stops at the end of a turn: when its protocol has
/// asked for it, or when the shutdown flag was found raised.
pub fn stop_decided(asked: bool, raised: bool) -> (stop: bool)
    ensures
        stop == (asked || raised),
{
    asked || raised
}

/// The place of a hook in the order of dispatch.
pub open spec fn callback_rank(callback: Callback) -> int {
    match callback {
        Callback::SocketError => 0,
        Callback::Disconnect => 1,
        Callback::Readable => 2,
        Callback::Writable => 3,
    }
}

/// Whether the events call for the hook.
pub open spec fn calls_for(events: EventSet, callback: Callback) -> bool {
    match callback {
        Callback::SocketError => events.error,
        Callback::Disconnect => events.hup,
        Callback::Readable => events.readable,
        Callback::Writable => events.writable,
    }
}

/// The order of dispatch. Whatever kinds of readiness come together, the
/// hooks run in the order error, hang-up, readable, writable; each hook
/// that is called for runs, none runs twice, and no other runs.
pub proof fn lemma_dispatch_order(events: EventSet)
    ensures
        forall|i: int, j: int|
            0 <= i < j < callbacks_spec(events).len() ==> callback_rank(callbacks_spec(events)[i])
                < callback_rank(callbacks_spec(events)[j]),
        forall|c: Callback| callbacks_spec(events).contains(c) <==> calls_for(events, c),
{
    let order = callbacks_spec(events);
    let e = if events.error {
        seq![Callback::SocketError]
    } else {
        seq![]
    };
    let h = if events.hup {
        seq![Callback::Disconnect]
    } else {
        seq![]
    };
    let r = if events.readable {
        seq![Callback::Readable]
    } else {
        seq![]
    };
    assert forall|c: Callback| order.contains(c) <==> calls_for(events, c) by {
        if calls_for(events, c) {
            let at: int = match c {
                Callback::SocketError => 0,
                Callback::Disconnect => e.len() as int,
                Callback::Readable => (e.len() + h.len()) as int,
                Callback::Writable => (e.len() + h.len() + r.len()) as int,
            };
            assert(order[at] == c);
        }
    }
}

/// How many more answers of the event loop a request may need at most.
pub open spec fn steps_left<S>(progress: Progress<S>) -> nat {
    match progress {
        Progress::Done(_) => 0,
        Progress::Ask(Action::Register { .. }) => 3,
        Progress::Ask(Action::Reregister { .. }) => 3,
        Progress::Ask(Action::SetTimeout { .. }) => 2,
        Progress::Ask(Action::ClearTimeout { .. }) => 1,
        Progress::Ask(Action::Deregister { .. }) => 1,
    }
}

/// The answer that belongs to an action: it speaks of the same token, the
/// same timeout, the same socket.
pub open spec fn answers<S>(action: Action<S>, outcome: Outcome<S>) -> bool {
    match action {
        Action::Register { token, events, opts, timeout } => outcome matches Outcome::Registered {
            token: t,
            timeout: ms,
            ..
        } && t == token && ms == timeout,
        Action::Reregister { token, events, opts, timeout } => outcome matches Outcome::Reregistered {
            token: t,
            timeout: ms,
            ..
        } && t == token && ms == timeout,
        Action::Deregister { socket } => outcome matches Outcome::Deregistered { socket: s, .. }
            && s == socket,
        Action::SetTimeout { token, delay_ms } => outcome matches Outcome::TimeoutSet {
            token: t,
            ..
        } && t == token,
        Action::ClearTimeout { token, timer } => outcome matches Outcome::TimeoutCleared {
            token: t,
        } && t == token,
    }
}

/// Every request ends. Whatever the event loop answers to what it was
/// asked, the request is then closer to its end, and it needs three
/// answers at most.
pub proof fn lemma_request_ends<P: Protocol>(
    pre: HandlerView<P>,
    action: Action<P::Socket>,
    outcome: Outcome<P::Socket>,
)
    requires
        answers(action, outcome),
    ensures
        steps_left(answered(pre, outcome).1) < steps_left(Progress::Ask(action)) <= 3,
{
}

/// What holds of the tokens of every handler: no free token is in use,
/// nor is any token beyond the slab, and the tokens of the slab fit in a
/// `usize`.
pub open spec fn consistent<P: Protocol>(view: HandlerView<P>) -> bool {
    &&& forall|t: usize| view.free.contains(t) ==> !view.sockets.contains_key(t)
    &&& forall|t: usize| view.sockets.contains_key(t) ==> t < view.fresh
    &&& 0 <= view.fresh <= usize::MAX
}

/// The life of a socket in the reactor. A socket that is added sits under
/// a token that was free, the one that the event loop is given. If the
/// event loop refuses the socket, it has left again and the error carries
/// it. Once it is removed no socket is under its token, its timer is
/// forgotten, a second removal finds nothing, and the token is the next to
/// be given out.
pub proof fn lemma_socket_lifecycle<P: Protocol>(
    pre: HandlerView<P>,
    socket: P::Socket,
    other: P::Socket,
    events: EventSet,
    timeout: Option<u64>,
    refusal: std::io::Error,
)
    requires
        room_in(pre),
        consistent(pre),
    ensures
        ({
            let (here, token) = added(pre, socket);
            let gone = removing(here, token).0;
            &&& adding(pre, socket, events, timeout).1 == Progress::<P::Socket>::Ask(
                Action::Register { token, events, opts: PollOpt::Edge, timeout },
            )
            &&& !pre.sockets.contains_key(token.0)
            &&& here.sockets.contains_key(token.0)
            &&& here.sockets[token.0] == socket
            &&& here.sockets.remove(token.0) == pre.sockets
            &&& registration_answered(here, token, timeout, Err(refusal)).1 == Progress::<
                P::Socket,
            >::Done(Err(ReactorError::IoError(refusal, socket)))
            &&& registration_answered(here, token, timeout, Err(refusal)).0.sockets == pre.sockets
            &&& removing(here, token).1 == Progress::<P::Socket>::Ask(
                Action::Deregister { socket },
            )
            &&& gone.sockets == pre.sockets
            &&& !gone.timers.contains_key(token.0)
            &&& removing(gone, token).1 == Progress::<P::Socket>::Done(
                Err(ReactorError::NoSocketFound(token)),
            )
            &&& added(gone, other).1 == token
        }),
{
    if pre.free.len() > 0 {
        assert(pre.free.contains(pre.free[0]));
    }
}

/// After its removal a socket gets no more hooks: a readiness event or a
/// fired timer for its token leaves the protocol, the sockets and the
/// waiting requests as they are.
pub proof fn lemma_silent_after_removal<P: Protocol>(
    pre: HandlerView<P>,
    token: Token,
    events: EventSet,
    post: HandlerView<P>,
)
    requires
        readied(removing(pre, token).0, token, events, post) || timed_out(
            removing(pre, token).0,
            token,
            post,
        ),
    ensures
        post.protocol == pre.protocol,
        post.sockets == pre.sockets.remove(token.0),
        post.queue == pre.queue,
        post.error == pre.error,
{
    let gone = removing(pre, token).0;
    assert(!gone.sockets.contains_key(token.0));
    assert(gone.sockets =~= pre.sockets.remove(token.0));
}

} // verus!
