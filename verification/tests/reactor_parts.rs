use std::sync::atomic::AtomicBool;
use std::sync::Arc;

use nexus::protocol::Protocol;
use nexus::reactor::configurer::Configurer;
use nexus::reactor::configurer::ProtocolConfigurer;
use nexus::reactor::configurer::Request;
use nexus::reactor::handler::callbacks_for;
use nexus::reactor::handler::stop_decided;
use nexus::reactor::handler::Action;
use nexus::reactor::handler::Applied;
use nexus::reactor::handler::Callback;
use nexus::reactor::handler::Outcome;
use nexus::reactor::handler::Progress;
use nexus::reactor::handler::ReactorHandler;
use nexus::reactor::handler::UpdateError;
use nexus::reactor::shutdown::ShutdownHandle;
use nexus::reactor::slab::Slab;
use nexus::reactor::EventSet;
use nexus::reactor::PollOpt;
use nexus::reactor::ReactorConfig;
use nexus::reactor::ReactorError;
use nexus::reactor::Token;
use nexus::reactor::FIRST_TOKEN;
use nexus::reactor::SLAB_GROW_SIZE;

/// A protocol over sockets that are plain numbers. It writes down which
/// hook ran for which socket, and asks for what it was given to ask.
struct Recorder {
    calls: Vec<(&'static str, u32, Token)>,
    failures: Vec<String>,
    returned: Vec<u32>,
    ask_remove: Vec<Token>,
    ask_add: Vec<u32>,
    ask_stop: Option<std::io::Error>,
}

impl Recorder {
    fn new() -> Recorder {
        Recorder {
            calls: Vec::new(),
            failures: Vec::new(),
            returned: Vec::new(),
            ask_remove: Vec::new(),
            ask_add: Vec::new(),
            ask_stop: None,
        }
    }

    fn ask<C: Configurer<u32>>(&mut self, configurer: &mut C) {
        for socket in self.ask_add.drain(..) {
            configurer.add_socket_timeout(socket, EventSet::readable(), 30);
        }
        for token in self.ask_remove.drain(..) {
            configurer.remove_socket(token);
        }
        if let Some(err) = self.ask_stop.take() {
            configurer.shutdown(err);
        }
    }
}

impl Protocol for Recorder {
    type Socket = u32;

    fn on_start<C>(&mut self, configurer: &mut C)
    where
        C: Configurer<u32>,
    {
        self.ask(configurer);
    }

    fn on_readable<C>(&mut self, configurer: &mut C, socket: &mut u32, token: Token)
    where
        C: Configurer<u32>,
    {
        self.calls.push(("readable", *socket, token));
        self.ask(configurer);
    }

    fn on_writable<C>(&mut self, configurer: &mut C, socket: &mut u32, token: Token)
    where
        C: Configurer<u32>,
    {
        self.calls.push(("writable", *socket, token));
        *socket += 1000;
        self.ask(configurer);
    }

    fn on_timeout<C>(&mut self, configurer: &mut C, socket: &mut u32, token: Token)
    where
        C: Configurer<u32>,
    {
        self.calls.push(("timeout", *socket, token));
        self.ask(configurer);
    }

    fn on_disconnect<C>(&mut self, configurer: &mut C, socket: &mut u32, token: Token)
    where
        C: Configurer<u32>,
    {
        self.calls.push(("disconnect", *socket, token));
        self.ask(configurer);
    }

    fn on_socket_error<C>(&mut self, configurer: &mut C, socket: &mut u32, token: Token)
    where
        C: Configurer<u32>,
    {
        self.calls.push(("error", *socket, token));
        self.ask(configurer);
    }

    fn on_event_loop_error<C>(&mut self, configurer: &mut C, error: ReactorError<u32>)
    where
        C: Configurer<u32>,
    {
        self.failures.push(error.message());
        if let ReactorError::IoError(_, socket) = error {
            self.returned.push(socket);
        }
        self.ask(configurer);
    }

    fn tick<C>(&mut self, configurer: &mut C)
    where
        C: Configurer<u32>,
    {
        self.ask(configurer);
    }
}

fn handler() -> ReactorHandler<Recorder> {
    ReactorHandler::new(Recorder::new(), Arc::new(AtomicBool::new(false)))
}

fn refused() -> std::io::Error {
    std::io::Error::new(std::io::ErrorKind::PermissionDenied, "refused")
}

fn registered(handler: &mut ReactorHandler<Recorder>, socket: u32) -> Token {
    match handler.begin(Request::Add(socket, EventSet::readable(), None)) {
        Progress::Ask(Action::Register { token, timeout, .. }) => {
            match handler.resume(Outcome::Registered { token, timeout, result: Ok(()) }) {
                Progress::Done(Ok(Applied::Registered(t))) => assert_eq!(t, token),
                _ => panic!("the request went on"),
            }
            token
        }
        _ => panic!("nothing to register"),
    }
}

#[test]
fn event_sets() {
    assert!(EventSet::none().is_none());
    assert!(EventSet::readable().is_readable());
    assert!(!EventSet::readable().is_writable());
    assert!(EventSet::writable().is_writable());
    assert!(EventSet::error().is_error());
    assert!(EventSet::hup().is_hup());
    assert!(!EventSet::hup().is_none());
    let both = EventSet::readable().union(EventSet::hup());
    assert_eq!(both, EventSet { readable: true, writable: false, error: false, hup: true });
    assert_eq!(EventSet::all().union(EventSet::none()), EventSet::all());
    assert_eq!(Token(7).as_usize(), 7);
}

#[test]
fn reactor_config_defaults_and_setters() {
    let config = ReactorConfig::new();
    assert_eq!(config.timer_capacity, 1024);
    assert_eq!(config.timer_tick_interval_ms, None);
    let config = ReactorConfig::default().timer_capacity(16).timer_tick_interval_ms(20);
    assert_eq!(config.timer_capacity, 16);
    assert_eq!(config.timer_tick_interval_ms, Some(20));
    let config = config.timer_capacity(32);
    assert_eq!(config.timer_capacity, 32);
    assert_eq!(config.timer_tick_interval_ms, Some(20));
    let _ = config.to_event_loop_config();
}

#[test]
fn reactor_error_messages() {
    let timer: ReactorError<u32> = ReactorError::TimerError;
    assert_eq!(timer.message(), "error when scheduling timeout");
    let missing: ReactorError<u32> = ReactorError::NoSocketFound(Token(12));
    assert_eq!(missing.message(), "could not find socket with associated token Token(12)");
    let io: ReactorError<u32> = ReactorError::IoError(refused(), 1);
    assert_eq!(io.message(), "io error: refused");
}

#[test]
fn shutdown_handle_raises_the_flag_for_all() {
    let handle = ShutdownHandle::new();
    let other = handle.duplicate();
    assert!(!handle.is_shutdown());
    assert!(!other.is_shutdown());
    other.shutdown();
    assert!(handle.is_shutdown());
}

#[test]
fn callbacks_come_in_order() {
    assert!(callbacks_for(EventSet::none()).is_empty());
    assert_eq!(callbacks_for(EventSet::readable()), vec![Callback::Readable]);
    assert_eq!(
        callbacks_for(EventSet::all()),
        vec![Callback::SocketError, Callback::Disconnect, Callback::Readable, Callback::Writable]
    );
    assert_eq!(
        callbacks_for(EventSet::writable().union(EventSet::error())),
        vec![Callback::SocketError, Callback::Writable]
    );
}

#[test]
fn slab_hands_out_and_takes_back() {
    let mut slab: Slab<&'static str> = Slab::new_starting_at(Token(10));
    assert!(!slab.has_remaining());
    assert_eq!(slab.insert("a"), Err("a"));
    assert!(slab.room_for(2));
    slab.grow(2);
    assert!(slab.has_remaining());
    assert_eq!(slab.insert("a"), Ok(Token(10)));
    assert_eq!(slab.insert("b"), Ok(Token(11)));
    assert_eq!(slab.insert("c"), Err("c"));
    assert!(slab.contains(Token(10)));
    assert!(!slab.contains(Token(9)));
    assert!(!slab.contains(Token(12)));
    assert_eq!(slab.get(Token(11)), Some(&"b"));
    assert_eq!(slab.get(Token(12)), None);
    *slab.get_mut(Token(11)).unwrap() = "B";
    assert_eq!(slab.remove(Token(11)), Some("B"));
    assert_eq!(slab.remove(Token(11)), None);
    assert_eq!(slab.remove(Token(3)), None);
    assert_eq!(slab.get_mut(Token(11)), None);
    assert_eq!(slab.insert("d"), Ok(Token(11)));
    assert_eq!(slab.get(Token(10)), Some(&"a"));
    assert!(!slab.room_for(usize::MAX));
}

#[test]
fn first_token_and_growth() {
    assert_eq!(FIRST_TOKEN, 100);
    assert_eq!(SLAB_GROW_SIZE, 1024);
    let mut handler = handler();
    assert!(handler.room());
    assert_eq!(handler.add_to_slab(5), Token(100));
    assert_eq!(handler.socket(Token(100)), Some(&5));
}

#[test]
fn add_without_timeout_needs_one_answer() {
    let mut handler = handler();
    let token = registered(&mut handler, 7);
    assert_eq!(token, Token(100));
    assert_eq!(handler.socket(token), Some(&7));
}

#[test]
fn refused_registration_takes_the_socket_out_again() {
    let mut handler = handler();
    match handler.add_socket(7, EventSet::readable(), Some(40)) {
        Progress::Ask(Action::Register { token, events, opts, timeout }) => {
            assert_eq!(opts, PollOpt::Edge);
            assert_eq!(events, EventSet::readable());
            assert_eq!(timeout, Some(40));
            assert_eq!(handler.socket(token), Some(&7));
            match handler.registered(token, timeout, Err(refused())) {
                Progress::Done(Err(ReactorError::IoError(e, socket))) => {
                    assert_eq!(e.kind(), std::io::ErrorKind::PermissionDenied);
                    assert_eq!(socket, 7);
                }
                _ => panic!("the refusal was lost"),
            }
            assert_eq!(handler.socket(token), None);
            // The answer for a socket that is gone finds none.
            match handler.registered(token, timeout, Err(refused())) {
                Progress::Done(Err(ReactorError::NoSocketFound(t))) => assert_eq!(t, token),
                _ => panic!("a socket was found"),
            }
        }
        _ => panic!("nothing to register"),
    }
}

#[test]
fn timeout_follows_registration_and_replaces_the_old_timer() {
    let mut handler = handler();
    match handler.add_socket(7, EventSet::readable(), Some(40)) {
        Progress::Ask(Action::Register { token, timeout, .. }) => {
            match handler.resume(Outcome::Registered { token, timeout, result: Ok(()) }) {
                Progress::Ask(Action::SetTimeout { token: t, delay_ms }) => {
                    assert_eq!(t, token);
                    assert_eq!(delay_ms, 40);
                }
                _ => panic!("no timer was asked for"),
            }
            // The event loop has no room for the timer.
            match handler.resume(Outcome::TimeoutSet { token, timer: None }) {
                Progress::Done(Err(ReactorError::TimerError)) => {}
                _ => panic!("the timer error was lost"),
            }
            // The socket stays registered all the same.
            assert_eq!(handler.socket(token), Some(&7));
            match handler.resume(Outcome::TimeoutCleared { token }) {
                Progress::Done(Ok(Applied::Registered(t))) => assert_eq!(t, token),
                _ => panic!("the request went on"),
            }
        }
        _ => panic!("nothing to register"),
    }
}

#[test]
fn update_of_a_missing_socket_fails_at_once() {
    let mut handler = handler();
    match handler.begin(Request::Update(Token(100), EventSet::writable(), None)) {
        Progress::Done(Err(ReactorError::NoSocketFound(t))) => assert_eq!(t, Token(100)),
        _ => panic!("a socket was found"),
    }
    let token = registered(&mut handler, 3);
    match handler.update_socket(token, EventSet::writable(), Some(5)) {
        Progress::Ask(Action::Reregister { token: t, events, opts, timeout }) => {
            assert_eq!(opts, PollOpt::Edge);
            assert_eq!(t, token);
            assert_eq!(events, EventSet::writable());
            assert_eq!(timeout, Some(5));
        }
        _ => panic!("nothing to register anew"),
    }
    match handler.resume(Outcome::Reregistered { token, timeout: None, result: Ok(()) }) {
        Progress::Done(Ok(Applied::Registered(t))) => assert_eq!(t, token),
        _ => panic!("the request went on"),
    }
    match handler.resume(Outcome::Reregistered { token, timeout: None, result: Err(refused()) }) {
        Progress::Done(Err(ReactorError::IoError(_, socket))) => assert_eq!(socket, 3),
        _ => panic!("the refusal was lost"),
    }
    assert_eq!(handler.socket(token), None);
}

#[test]
fn translate_error_and_remove_cases() {
    let mut handler = handler();
    let token = registered(&mut handler, 3);
    match handler.translate_error_and_remove(token, UpdateError::NoSocketFound(Token(8))) {
        Err(ReactorError::NoSocketFound(t)) => assert_eq!(t, Token(8)),
        _ => panic!("wrong error"),
    }
    assert_eq!(handler.socket(token), Some(&3));
    match handler.translate_error_and_remove(token, UpdateError::IoError(refused())) {
        Err(ReactorError::IoError(e, socket)) => {
            assert_eq!(e.to_string(), "refused");
            assert_eq!(socket, 3);
        }
        _ => panic!("wrong error"),
    }
    assert_eq!(handler.socket(token), None);
    match handler.translate_error_and_remove(token, UpdateError::IoError(refused())) {
        Err(ReactorError::NoSocketFound(t)) => assert_eq!(t, token),
        _ => panic!("wrong error"),
    }
}

#[test]
fn removal_hands_the_socket_back() {
    let mut handler = handler();
    let token = registered(&mut handler, 9);
    match handler.begin(Request::Remove(token)) {
        Progress::Ask(Action::Deregister { socket }) => {
            assert_eq!(socket, 9);
            assert_eq!(handler.socket(token), None);
            match handler.resume(Outcome::Deregistered { socket, result: Ok(()) }) {
                Progress::Done(Ok(Applied::Removed(s))) => assert_eq!(s, 9),
                _ => panic!("the socket was lost"),
            }
            match ReactorHandler::<Recorder>::deregistered(9, Err(refused())) {
                Progress::Done(Err(ReactorError::IoError(_, s))) => assert_eq!(s, 9),
                _ => panic!("the socket was lost"),
            }
        }
        _ => panic!("nothing to deregister"),
    }
    match handler.remove_socket(token) {
        Progress::Done(Err(ReactorError::NoSocketFound(t))) => assert_eq!(t, token),
        _ => panic!("a socket was found"),
    }
}

#[test]
fn hooks_run_in_order_for_the_socket_of_the_token() {
    let mut handler = handler();
    let first = registered(&mut handler, 1);
    let second = registered(&mut handler, 2);
    handler.ready(second, EventSet::all());
    assert_eq!(
        handler.protocol().calls,
        vec![
            ("error", 2, second),
            ("disconnect", 2, second),
            ("readable", 2, second),
            ("writable", 2, second)
        ]
    );
    // The hook changed its socket in place; the other socket is as it was.
    assert_eq!(handler.socket(second), Some(&1002));
    assert_eq!(handler.socket(first), Some(&1));
    handler.ready(first, EventSet::hup().union(EventSet::readable()));
    assert_eq!(handler.protocol().calls[4..], [("disconnect", 1, first), ("readable", 1, first)]);
}

#[test]
fn no_hook_runs_for_a_token_without_socket() {
    let mut handler = handler();
    let token = registered(&mut handler, 1);
    handler.ready(Token(99), EventSet::all());
    handler.ready(Token(101), EventSet::all());
    handler.ready(token, EventSet::none());
    handler.timeout(Token(101));
    assert!(handler.protocol().calls.is_empty());
    match handler.remove_socket(token) {
        Progress::Ask(Action::Deregister { .. }) => {}
        _ => panic!("nothing to deregister"),
    }
    handler.ready(token, EventSet::all());
    handler.timeout(token);
    assert!(handler.protocol().calls.is_empty());
    assert!(handler.next_request().is_none());
}

#[test]
fn timeout_runs_the_timeout_hook() {
    let mut handler = handler();
    let token = registered(&mut handler, 4);
    handler.timeout(token);
    assert_eq!(handler.protocol().calls, vec![("timeout", 4, token)]);
}

fn asking(add: Vec<u32>, remove: Vec<Token>) -> ReactorHandler<Recorder> {
    let mut protocol = Recorder::new();
    protocol.ask_add = add;
    protocol.ask_remove = remove;
    ReactorHandler::new(protocol, Arc::new(AtomicBool::new(false)))
}

#[test]
fn requests_wait_until_the_hook_has_returned() {
    let mut handler = asking(vec![11, 12], vec![Token(100)]);
    let token = registered(&mut handler, 1);
    assert_eq!(token, Token(100));
    handler.tick();
    // Nothing has changed yet.
    assert_eq!(handler.socket(Token(100)), Some(&1));
    assert_eq!(handler.socket(Token(101)), None);
    // Additions come first, then removals, each in the order of asking.
    match handler.next_request() {
        Some(Request::Add(socket, events, timeout)) => {
            assert_eq!(socket, 11);
            assert_eq!(events, EventSet::readable());
            assert_eq!(timeout, Some(30));
        }
        _ => panic!("no addition"),
    }
    match handler.next_request() {
        Some(Request::Add(socket, _, _)) => assert_eq!(socket, 12),
        _ => panic!("no addition"),
    }
    match handler.next_request() {
        Some(Request::Remove(token)) => assert_eq!(token, Token(100)),
        _ => panic!("no removal"),
    }
    assert!(handler.next_request().is_none());
}

#[test]
fn failure_of_a_queued_request_goes_to_the_protocol() {
    let mut handler = asking(vec![], vec![Token(5)]);
    handler.tick();
    let request = handler.next_request().unwrap();
    let result = match handler.begin(request) {
        Progress::Done(result) => result,
        _ => panic!("a socket was found"),
    };
    handler.finish(result);
    assert_eq!(
        handler.protocol().failures,
        vec!["could not find socket with associated token Token(5)".to_string()]
    );
    handler.finish(Ok(Applied::Registered(Token(100))));
    handler.finish(Err(ReactorError::IoError(refused(), 77)));
    assert_eq!(handler.protocol().failures.len(), 2);
    assert_eq!(handler.protocol().returned, vec![77]);
}

#[test]
fn requests_of_the_error_hook_go_in_front() {
    let mut handler = asking(vec![], vec![Token(5), Token(6)]);
    handler.tick();
    let first = handler.next_request().unwrap();
    assert!(matches!(first, Request::Remove(Token(5))));
    // While the first request fails, the protocol asks for more.
    let mut configurer = ProtocolConfigurer::new();
    configurer.remove_socket(Token(7));
    configurer.update_socket_timeout(Token(8), EventSet::writable(), 9);
    configurer.add_socket(70, EventSet::none());
    configurer.update_event_loop(&mut handler);
    assert!(matches!(handler.next_request(), Some(Request::Add(70, _, None))));
    assert!(matches!(handler.next_request(), Some(Request::Update(Token(8), _, Some(9)))));
    assert!(matches!(handler.next_request(), Some(Request::Remove(Token(7)))));
    assert!(matches!(handler.next_request(), Some(Request::Remove(Token(6)))));
    assert!(handler.next_request().is_none());
}

#[test]
fn request_to_stop_replaces_the_other_requests() {
    let mut handler = handler();
    let mut configurer = ProtocolConfigurer::new();
    configurer.add_socket(1, EventSet::readable());
    configurer.shutdown(std::io::Error::new(std::io::ErrorKind::Other, "first"));
    configurer.shutdown(std::io::Error::new(std::io::ErrorKind::Other, "second"));
    configurer.remove_socket(Token(100));
    assert!(!handler.should_stop());
    configurer.update_event_loop(&mut handler);
    assert!(handler.should_stop());
    assert!(handler.next_request().is_none());
    // A later batch does not replace the error that is kept.
    let mut configurer: ProtocolConfigurer<u32> = ProtocolConfigurer::new();
    configurer.shutdown(std::io::Error::new(std::io::ErrorKind::Other, "third"));
    configurer.update_event_loop(&mut handler);
    assert_eq!(handler.protocol_error().unwrap().to_string(), "first");
    assert!(handler.protocol_error().is_none());
    assert!(handler.should_stop());
}

#[test]
fn run_result_prefers_the_error_of_the_loop() {
    let mut handler = handler();
    assert!(handler.run_result(Ok(())).is_ok());
    handler.set_protocol_error(std::io::Error::new(std::io::ErrorKind::Other, "asked"));
    handler.set_protocol_error(std::io::Error::new(std::io::ErrorKind::Other, "asked again"));
    let failed = handler.run_result(Err(refused()));
    assert_eq!(failed.unwrap_err().to_string(), "refused");
    let asked = handler.run_result(Ok(()));
    assert_eq!(asked.unwrap_err().to_string(), "asked");
    assert!(handler.run_result(Ok(())).is_ok());
}

#[test]
fn init_protocol_surfaces_the_request_to_stop() {
    let mut handler = asking(vec![3], vec![]);
    assert!(handler.init_protocol().is_ok());
    assert!(matches!(handler.next_request(), Some(Request::Add(3, _, Some(30)))));
    // The protocol is started once.
    assert!(handler.init_protocol().is_ok());
    assert!(handler.next_request().is_none());

    let mut protocol = Recorder::new();
    protocol.ask_stop = Some(std::io::Error::new(std::io::ErrorKind::Other, "not today"));
    let mut handler = ReactorHandler::new(protocol, Arc::new(AtomicBool::new(false)));
    assert_eq!(handler.init_protocol().unwrap_err().to_string(), "not today");
    assert!(handler.should_stop());
}

#[test]
fn shutdown_handle_of_the_handler_stops_it() {
    let flag = Arc::new(AtomicBool::new(false));
    let handler = ReactorHandler::new(Recorder::new(), flag);
    let handle = handler.shutdown_handle();
    assert!(!handler.should_stop());
    handle.shutdown();
    assert!(handler.should_stop());
}

#[test]
fn configurer_keeps_requests_in_order() {
    let mut configurer: ProtocolConfigurer<u32> = ProtocolConfigurer::new();
    configurer.add_socket(1, EventSet::readable());
    configurer.add_socket_timeout(2, EventSet::writable(), 50);
    configurer.update_socket(Token(3), EventSet::none());
    configurer.update_socket_timeout(Token(4), EventSet::all(), 60);
    configurer.remove_socket(Token(5));
    configurer.remove_socket(Token(6));
    assert_eq!(
        configurer.additions,
        vec![(1, EventSet::readable(), None), (2, EventSet::writable(), Some(50))]
    );
    assert_eq!(
        configurer.updates,
        vec![(Token(3), EventSet::none(), None), (Token(4), EventSet::all(), Some(60))]
    );
    assert_eq!(configurer.removals, vec![Token(5), Token(6)]);
    assert!(configurer.error.is_none());
}

#[test]
fn event_loop_settings_take_over_capacity_and_tick() {
    let plain = format!("{:?}", ReactorConfig::new().to_event_loop_config());
    assert!(plain.contains("timer_capacity: 1024"));
    assert!(plain.contains("timer_tick_ms: 100"));
    assert!(plain.contains("notify_capacity: 4096"));

    let chosen = ReactorConfig::new().timer_capacity(16).timer_tick_interval_ms(20);
    let set = format!("{:?}", chosen.to_event_loop_config());
    assert!(set.contains("timer_capacity: 16"));
    assert!(set.contains("timer_tick_ms: 20"));
    assert!(set.contains("notify_capacity: 4096"));

    let mut base = mio::EventLoopConfig::new();
    base.notify_capacity(7);
    let over = format!("{:?}", ReactorConfig::new().timer_capacity(3).apply_to(base));
    assert!(over.contains("timer_capacity: 3"));
    assert!(over.contains("timer_tick_ms: 100"));
    assert!(over.contains("notify_capacity: 7"));
}

#[test]
fn stop_is_decided_by_protocol_or_flag() {
    assert!(!stop_decided(false, false));
    assert!(stop_decided(true, false));
    assert!(stop_decided(false, true));
    assert!(stop_decided(true, true));
}

#[test]
fn handle_on_a_flag_shares_it() {
    let flag = Arc::new(AtomicBool::new(false));
    let handle = ShutdownHandle::on(flag.clone());
    let handler = ReactorHandler::new(Recorder::new(), flag);
    assert!(!handle.is_shutdown());
    handler.shutdown_handle().shutdown();
    assert!(handle.is_shutdown());
    assert!(handler.should_stop());
}
