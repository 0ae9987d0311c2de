use std::sync::atomic::AtomicBool;
use std::sync::Arc;

use nexus::protocol::Protocol;
use nexus::reactor::configurer::Configurer;
use nexus::reactor::configurer::ProtocolConfigurer;
use nexus::reactor::configurer::Request;
use nexus::reactor::handler::Action;
use nexus::reactor::handler::Applied;
use nexus::reactor::handler::Outcome;
use nexus::reactor::handler::Progress;
use nexus::reactor::handler::ReactorHandler;
use nexus::reactor::EventSet;
use nexus::reactor::PollOpt;
use nexus::reactor::ReactorError;
use nexus::reactor::Token;
use nexus::tcp::protocol::ListenerProtocol;
use nexus::tcp::protocol::Readable;
use nexus::tcp::protocol::TcpSocket;
use nexus::test_helpers::fake_tcp_protocol::FakeTcpProtocol;

type Socket = TcpSocket<mio::tcp::TcpStream>;

/// The listening protocol with the accepting done around it.
struct Listening(ListenerProtocol<FakeTcpProtocol>);

impl Protocol for Listening {
    type Socket = Socket;

    fn on_start<C>(&mut self, configurer: &mut C)
    where
        C: Configurer<Socket>,
    {
        assert!(self.0.has_listener(), "protocol already started");
        self.0.on_start(configurer)
    }

    fn on_readable<C>(&mut self, configurer: &mut C, socket: &mut Socket, token: Token)
    where
        C: Configurer<Socket>,
    {
        match self.0.on_readable(configurer, socket, token) {
            Readable::Handled => {}
            Readable::Accept => {
                if let TcpSocket::Listener(ref listener) = *socket {
                    loop {
                        let accepted = listener.accept().map(|found| found.map(|(stream, _)| stream));
                        if !self.0.on_accept(configurer, accepted) {
                            break;
                        }
                    }
                }
            }
        }
    }

    fn on_writable<C>(&mut self, configurer: &mut C, socket: &mut Socket, token: Token)
    where
        C: Configurer<Socket>,
    {
        self.0.on_writable(configurer, socket, token)
    }

    fn on_timeout<C>(&mut self, configurer: &mut C, socket: &mut Socket, token: Token)
    where
        C: Configurer<Socket>,
    {
        self.0.on_timeout(configurer, socket, token)
    }

    fn on_disconnect<C>(&mut self, configurer: &mut C, socket: &mut Socket, token: Token)
    where
        C: Configurer<Socket>,
    {
        self.0.on_disconnect(configurer, socket, token)
    }

    fn on_socket_error<C>(&mut self, configurer: &mut C, socket: &mut Socket, token: Token)
    where
        C: Configurer<Socket>,
    {
        self.0.on_socket_error(configurer, socket, token)
    }

    fn on_event_loop_error<C>(&mut self, configurer: &mut C, error: ReactorError<Socket>)
    where
        C: Configurer<Socket>,
    {
        self.0.on_event_loop_error(configurer, error)
    }

    fn tick<C>(&mut self, configurer: &mut C)
    where
        C: Configurer<Socket>,
    {
        self.0.tick(configurer)
    }
}

fn to_mio(events: EventSet) -> mio::EventSet {
    let mut set = mio::EventSet::none();
    if events.is_readable() {
        set = set | mio::EventSet::readable();
    }
    if events.is_writable() {
        set = set | mio::EventSet::writable();
    }
    if events.is_error() {
        set = set | mio::EventSet::error();
    }
    if events.is_hup() {
        set = set | mio::EventSet::hup();
    }
    set
}

fn poll_opt(opts: PollOpt) -> mio::PollOpt {
    match opts {
        PollOpt::Edge => mio::PollOpt::edge(),
        PollOpt::Level => mio::PollOpt::level(),
    }
}

fn from_mio(events: mio::EventSet) -> EventSet {
    EventSet {
        readable: events.is_readable(),
        writable: events.is_writable(),
        error: events.is_error(),
        hup: events.is_hup(),
    }
}

fn evented(socket: &Socket) -> &dyn mio::Evented {
    match *socket {
        TcpSocket::Listener(ref listener) => listener,
        TcpSocket::Socket(ref stream) => stream,
    }
}

struct Driver(ReactorHandler<Listening>);

fn perform(
    event_loop: &mut mio::EventLoop<Driver>,
    handler: &ReactorHandler<Listening>,
    action: Action<Socket>,
) -> Outcome<Socket> {
    match action {
        Action::Register { token, events, opts, timeout } => {
            let result = match handler.socket(token) {
                Some(socket) => {
                    event_loop.register(evented(socket), mio::Token(token.0), to_mio(events), poll_opt(opts))
                }
                None => Err(std::io::Error::new(std::io::ErrorKind::NotFound, "no socket")),
            };
            Outcome::Registered { token, timeout, result }
        }
        Action::Reregister { token, events, opts, timeout } => {
            let result = match handler.socket(token) {
                Some(socket) => {
                    event_loop.reregister(evented(socket), mio::Token(token.0), to_mio(events), poll_opt(opts))
                }
                None => Err(std::io::Error::new(std::io::ErrorKind::NotFound, "no socket")),
            };
            Outcome::Reregistered { token, timeout, result }
        }
        Action::Deregister { socket } => {
            let result = event_loop.deregister(evented(&socket));
            Outcome::Deregistered { socket, result }
        }
        Action::SetTimeout { token, delay_ms } => {
            let timer = event_loop.timeout_ms(mio::Token(token.0), delay_ms).ok();
            Outcome::TimeoutSet { token, timer }
        }
        Action::ClearTimeout { token, timer } => {
            event_loop.clear_timeout(timer);
            Outcome::TimeoutCleared { token }
        }
    }
}

fn carry_out(
    event_loop: &mut mio::EventLoop<Driver>,
    handler: &mut ReactorHandler<Listening>,
    request: Request<Socket>,
) -> Result<Applied<Socket>, ReactorError<Socket>> {
    if let Request::Add(..) = request {
        assert!(handler.room(), "Could not insert socket but just grew slab");
    }
    let mut progress = handler.begin(request);
    loop {
        match progress {
            Progress::Done(result) => return result,
            Progress::Ask(action) => {
                let outcome = perform(event_loop, handler, action);
                progress = handler.resume(outcome);
            }
        }
    }
}

fn drain(event_loop: &mut mio::EventLoop<Driver>, handler: &mut ReactorHandler<Listening>) {
    while let Some(request) = handler.next_request() {
        let result = carry_out(event_loop, handler, request);
        handler.finish(result);
    }
}

impl mio::Handler for Driver {
    type Timeout = mio::Token;
    type Message = ();

    fn ready(&mut self, event_loop: &mut mio::EventLoop<Driver>, token: mio::Token, events: mio::EventSet) {
        self.0.ready(Token(token.0), from_mio(events));
        drain(event_loop, &mut self.0);
    }

    fn timeout(&mut self, event_loop: &mut mio::EventLoop<Driver>, timeout: mio::Token) {
        self.0.timeout(Token(timeout.0));
        drain(event_loop, &mut self.0);
    }

    fn tick(&mut self, event_loop: &mut mio::EventLoop<Driver>) {
        self.0.tick();
        drain(event_loop, &mut self.0);
        if self.0.should_stop() {
            event_loop.shutdown();
        }
    }
}

struct TcpReactor(mio::EventLoop<Driver>, Driver);

impl TcpReactor {
    fn new(proto: FakeTcpProtocol, listener: mio::tcp::TcpListener) -> std::io::Result<TcpReactor> {
        let event_loop = mio::EventLoop::new()?;
        let protocol = Listening(ListenerProtocol::new(proto, listener));
        let handler = ReactorHandler::new(protocol, Arc::new(AtomicBool::new(false)));
        Ok(TcpReactor(event_loop, Driver(handler)))
    }

    fn start(&mut self) -> std::io::Result<()> {
        (self.1).0.init_protocol()?;
        drain(&mut self.0, &mut (self.1).0);
        Ok(())
    }

    fn spin_once(&mut self) -> std::io::Result<()> {
        let ran = self.0.run_once(&mut self.1, Some(100));
        (self.1).0.run_result(ran)
    }
}

fn listener() -> mio::tcp::TcpListener {
    mio::tcp::TcpListener::bind(&"127.0.0.1:0".parse().unwrap()).unwrap()
}

#[test]
fn readable_listener_is_drained() {
    let l = listener();
    let proto = FakeTcpProtocol::new();
    let l_clone = l.try_clone().unwrap();
    let mut reactor_proto = Listening(ListenerProtocol::new(proto.clone(), l_clone));
    let mut configurer = ProtocolConfigurer::new();

    // Nobody has connected: the first attempt to accept ends the round.
    reactor_proto.on_readable(&mut configurer, &mut TcpSocket::Listener(l), Token(0));

    assert_eq!(proto.connect_count(), 0);
    assert!(configurer.additions.is_empty());
    assert!(configurer.error.is_none());
}

#[test]
fn readable_listener_asks_for_accepting() {
    let l = listener();
    let proto = FakeTcpProtocol::new();
    let mut reactor_proto = ListenerProtocol::new(proto, l.try_clone().unwrap());
    let mut configurer: ProtocolConfigurer<Socket> = ProtocolConfigurer::new();
    let next = reactor_proto.on_readable(&mut configurer, &mut TcpSocket::Listener(l), Token(0));
    assert_eq!(next, Readable::Accept);
    assert!(configurer.additions.is_empty());
}

#[test]
fn test_shutdown_on_error() {
    let l = listener();
    let proto = FakeTcpProtocol::new();
    let l_clone = l.try_clone().unwrap();
    let mut reactor_proto = ListenerProtocol::new(proto.clone(), l_clone);
    let mut configurer = ProtocolConfigurer::new();

    let ioerr = std::io::Error::new(std::io::ErrorKind::Other, "test tcp listener error");
    let err = ReactorError::IoError(ioerr, TcpSocket::Listener(l));
    reactor_proto.on_event_loop_error(&mut configurer, err);

    assert!(configurer.error.is_some());
    assert_eq!(configurer.error.unwrap().to_string(), "test tcp listener error");
}

#[test]
fn listening_reactor_registers_its_listener_and_stops() {
    let l = listener();

    let fake = FakeTcpProtocol::new();
    let mut reactor = TcpReactor::new(fake.clone(), l).unwrap();

    assert!(reactor.start().is_ok());
    assert!(reactor.0.is_running());
    let shutdown = (reactor.1).0.shutdown_handle();
    shutdown.shutdown();
    assert!(reactor.spin_once().is_ok());
    assert!(!reactor.0.is_running());

    assert_eq!(fake.connect_count(), 0);
    assert!(matches!((reactor.1).0.socket(Token(100)), Some(&TcpSocket::Listener(_))));
    assert!((reactor.1).0.socket(Token(101)).is_none());
}

#[test]
fn other_failures_go_to_the_protocol_inside() {
    let proto = FakeTcpProtocol::new();
    let mut reactor_proto = ListenerProtocol::new(proto, listener());
    let mut configurer: ProtocolConfigurer<Socket> = ProtocolConfigurer::new();
    reactor_proto.on_event_loop_error(&mut configurer, ReactorError::NoSocketFound(Token(3)));
    reactor_proto.on_event_loop_error(&mut configurer, ReactorError::TimerError);
    assert!(configurer.error.is_none());
    assert!(configurer.additions.is_empty());
}

#[test]
fn listener_events_other_than_readable() {
    let l = listener();
    let proto = FakeTcpProtocol::new();
    let mut reactor_proto = ListenerProtocol::new(proto, l.try_clone().unwrap());
    let mut socket: Socket = TcpSocket::Listener(l);

    let mut configurer = ProtocolConfigurer::new();
    reactor_proto.on_writable(&mut configurer, &mut socket, Token(0));
    reactor_proto.on_timeout(&mut configurer, &mut socket, Token(0));
    assert!(configurer.error.is_none());
    assert!(configurer.additions.is_empty());

    reactor_proto.on_disconnect(&mut configurer, &mut socket, Token(0));
    assert_eq!(configurer.error.as_ref().unwrap().to_string(), "listener disconnected");
    assert_eq!(configurer.error.as_ref().unwrap().kind(), std::io::ErrorKind::Other);

    // The first request to stop stays.
    reactor_proto.on_socket_error(&mut configurer, &mut socket, Token(0));
    assert_eq!(configurer.error.as_ref().unwrap().to_string(), "listener disconnected");

    let mut configurer = ProtocolConfigurer::new();
    reactor_proto.on_socket_error(&mut configurer, &mut socket, Token(0));
    assert_eq!(configurer.error.as_ref().unwrap().to_string(), "listener socket error");
}

#[test]
fn accept_answers() {
    let proto = FakeTcpProtocol::new();
    let mut reactor_proto = ListenerProtocol::new(proto.clone(), listener());
    let mut configurer: ProtocolConfigurer<Socket> = ProtocolConfigurer::new();

    assert!(!reactor_proto.on_accept(&mut configurer, Ok(None)));
    assert_eq!(proto.connect_count(), 0);
    assert!(configurer.error.is_none());

    let err = std::io::Error::new(std::io::ErrorKind::Other, "no more descriptors");
    assert!(!reactor_proto.on_accept(&mut configurer, Err(err)));
    assert_eq!(configurer.error.as_ref().unwrap().to_string(), "no more descriptors");
    assert!(configurer.additions.is_empty());
}

#[test]
fn start_hands_the_listener_over_once() {
    let proto = FakeTcpProtocol::new();
    let mut reactor_proto = ListenerProtocol::new(proto, listener());
    let mut configurer: ProtocolConfigurer<Socket> = ProtocolConfigurer::new();
    assert!(reactor_proto.has_listener());
    reactor_proto.on_start(&mut configurer);
    assert!(!reactor_proto.has_listener());
    assert_eq!(configurer.additions.len(), 1);
    assert!(matches!(configurer.additions[0].0, TcpSocket::Listener(_)));
    assert_eq!(configurer.additions[0].1, EventSet::readable());
    assert_eq!(configurer.additions[0].2, None);
}
