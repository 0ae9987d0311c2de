//! The reactor's bookkeeping: which sockets are registered under which
//! token, which of them has a timer running, and what a protocol asked to
//! change. The event loop itself lives outside; it is told what to do next
//! and reports back how it went.
use vstd::prelude::*;

pub mod configurer;
pub mod handler;
pub mod shutdown;
pub mod slab;

verus! {

/// Number of entries by which the socket slab grows when it is full.
pub const SLAB_GROW_SIZE: usize = 1024;

/// Token of the first entry of the socket slab.
pub const FIRST_TOKEN: usize = 100;

/// Handle of one registered socket.
#[derive(Clone, Copy, Debug, PartialEq, Eq, Structural, Hash)]
pub struct Token(pub usize);

impl Token {
    /// The number inside the token.
    pub fn as_usize(self) -> (n: usize)
        ensures
            n == self.0,
    {
        self.0
    }
}

/// A set of readiness kinds: what a socket is interested in, or what
/// happened on it.
#[derive(Clone, Copy, Debug, PartialEq, Eq, Structural)]
pub struct EventSet {
    pub readable: bool,
    pub writable: bool,
    pub error: bool,
    pub hup: bool,
}

impl EventSet {
    /// The empty set.
    pub fn none() -> (s: EventSet)
        ensures
            s == (EventSet { readable: false, writable: false, error: false, hup: false }),
    {
        EventSet { readable: false, writable: false, error: false, hup: false }
    }

    /// The set that holds readable only.
    pub fn readable() -> (s: EventSet)
        ensures
            s == (EventSet { readable: true, writable: false, error: false, hup: false }),
    {
        EventSet { readable: true, writable: false, error: false, hup: false }
    }

    /// The set that holds writable only.
    pub fn writable() -> (s: EventSet)
        ensures
            s == (EventSet { readable: false, writable: true, error: false, hup: false }),
    {
        EventSet { readable: false, writable: true, error: false, hup: false }
    }

    /// The set that holds error only.
    pub fn error() -> (s: EventSet)
        ensures
            s == (EventSet { readable: false, writable: false, error: true, hup: false }),
    {
        EventSet { readable: false, writable: false, error: true, hup: false }
    }

    /// The set that holds hang-up only.
    pub fn hup() -> (s: EventSet)
        ensures
            s == (EventSet { readable: false, writable: false, error: false, hup: true }),
    {
        EventSet { readable: false, writable: false, error: false, hup: true }
    }

    /// The set that holds every kind.
    pub fn all() -> (s: EventSet)
        ensures
            s == (EventSet { readable: true, writable: true, error: true, hup: true }),
    {
        EventSet { readable: true, writable: true, error: true, hup: true }
    }

    /// The kinds of either set.
    pub open spec fn spec_union(self, other: EventSet) -> EventSet {
        EventSet {
            readable: self.readable || other.readable,
            writable: self.writable || other.writable,
            error: self.error || other.error,
            hup: self.hup || other.hup,
        }
    }

    /// The kinds of either set.
    pub fn union(self, other: EventSet) -> (s: EventSet)
        ensures
            s == self.spec_union(other),
    {
        EventSet {
            readable: self.readable || other.readable,
            writable: self.writable || other.writable,
            error: self.error || other.error,
            hup: self.hup || other.hup,
        }
    }

    pub fn is_readable(&self) -> (b: bool)
        ensures
            b == self.readable,
    {
        self.readable
    }

    pub fn is_writable(&self) -> (b: bool)
        ensures
            b == self.writable,
    {
        self.writable
    }

    pub fn is_error(&self) -> (b: bool)
        ensures
            b == self.error,
    {
        self.error
    }

    pub fn is_hup(&self) -> (b: bool)
        ensures
            b == self.hup,
    {
        self.hup
    }

    /// Whether the set holds nothing.
    pub fn is_none(&self) -> (b: bool)
        ensures
            b == (*self == (EventSet { readable: false, writable: false, error: false, hup: false })),
    {
        !self.readable && !self.writable && !self.error && !self.hup
    }
}

/// The settings of an event loop of `mio`.
#[verifier::external_type_specification]
#[verifier::external_body]
pub struct ExEventLoopConfig(mio::EventLoopConfig);

/// Calls `mio::EventLoopConfig::new`, which gives the default settings.
#[verifier::external_body]
fn default_event_loop_config() -> mio::EventLoopConfig {
    mio::EventLoopConfig::new()
}

/// The settings with which `mio::EventLoopConfig::timer_capacity` leaves
/// the settings it is called on.
pub uninterp spec fn with_timer_capacity(
    config: mio::EventLoopConfig,
    capacity: usize,
) -> mio::EventLoopConfig;

/// The settings with which `mio::EventLoopConfig::timer_tick_ms` leaves
/// the settings it is called on.
pub uninterp spec fn with_timer_tick_ms(config: mio::EventLoopConfig, ms: u64) -> mio::EventLoopConfig;

/// Calls `mio::EventLoopConfig::timer_capacity`, which sets how many
/// timers may run at once and leaves the other settings alone.
#[verifier::external_body]
fn set_timer_capacity(config: &mut mio::EventLoopConfig, capacity: usize)
    ensures
        *final(config) == with_timer_capacity(*old(config), capacity),
{
    config.timer_capacity(capacity);
}

/// Calls `mio::EventLoopConfig::timer_tick_ms`, which sets the length of
/// a tick of the timer and leaves the other settings alone.
#[verifier::external_body]
fn set_timer_tick_ms(config: &mut mio::EventLoopConfig, ms: u64)
    ensures
        *final(config) == with_timer_tick_ms(*old(config), ms),
{
    config.timer_tick_ms(ms);
}

/// Calls `format!` to show an I/O error behind the words `io error: `.
#[verifier::external_body]
fn io_error_message(error: &std::io::Error) -> String {
    format!("io error: {}", error)
}

/// Calls `format!` to name the token that no socket was found under.
#[verifier::external_body]
fn no_socket_message(token: usize) -> String {
    format!("could not find socket with associated token Token({})", token)
}

/// How the event loop reports readiness.
#[derive(Clone, Copy, Debug, PartialEq, Eq, Structural)]
pub enum PollOpt {
    /// Once, when a socket becomes ready: whoever is told must use up what
    /// is there.
    Edge,
    /// Again and again, as long as a socket is ready.
    Level,
}

/// What went wrong in the reactor.
#[derive(Debug)]
pub enum ReactorError<S> {
    /// The operating system refused; the socket comes back with the error.
    IoError(std::io::Error, S),
    /// No socket is registered under the token.
    NoSocketFound(Token),
    /// A timeout could not be scheduled.
    TimerError,
}

impl<S> ReactorError<S> {
    /// The error in words.
    pub fn message(&self) -> (text: String)
        ensures
            self is TimerError ==> text@ == "error when scheduling timeout"@,
    {
        match self {
            ReactorError::IoError(e, _) => io_error_message(e),
            ReactorError::NoSocketFound(token) => no_socket_message(token.0),
            ReactorError::TimerError => "error when scheduling timeout".to_owned(),
        }
    }
}

/// Settings of a reactor.
#[derive(Clone, Copy, Debug)]
pub struct ReactorConfig {
    pub timer_capacity: usize,
    pub timer_tick_interval_ms: Option<u64>,
}

impl ReactorConfig {
    /// The default settings: room for 1024 timers, tick interval left to
    /// the event loop.
    pub fn new() -> (c: ReactorConfig)
        ensures
            c.timer_capacity == 1024,
            c.timer_tick_interval_ms is None,
    {
        ReactorConfig { timer_capacity: 1024, timer_tick_interval_ms: None }
    }

    /// Sets how many timers may run at once.
    pub fn timer_capacity(self, cap: usize) -> (c: ReactorConfig)
        ensures
            c.timer_capacity == cap,
            c.timer_tick_interval_ms == self.timer_tick_interval_ms,
    {
        ReactorConfig { timer_capacity: cap, timer_tick_interval_ms: self.timer_tick_interval_ms }
    }

    /// Sets the tick interval of the timer, in milliseconds.
    pub fn timer_tick_interval_ms(self, ms: u64) -> (c: ReactorConfig)
        ensures
            c.timer_capacity == self.timer_capacity,
            c.timer_tick_interval_ms == Some(ms),
    {
        ReactorConfig { timer_capacity: self.timer_capacity, timer_tick_interval_ms: Some(ms) }
    }
}

impl ReactorConfig {
    /// The settings of an event loop that started from `base` and took
    /// over these: the timer capacity always, the tick interval if one was
    /// chosen.
    pub open spec fn applied_to(self, base: mio::EventLoopConfig) -> mio::EventLoopConfig {
        match self.timer_tick_interval_ms {
            Some(ms) => with_timer_tick_ms(with_timer_capacity(base, self.timer_capacity), ms),
            None => with_timer_capacity(base, self.timer_capacity),
        }
    }

    /// Sets in `base` what these settings say: the timer capacity, and the
    /// tick interval if one was chosen.
    pub fn apply_to(self, base: mio::EventLoopConfig) -> (config: mio::EventLoopConfig)
        ensures
            config == self.applied_to(base),
    {
        let mut event_config = base;
        set_timer_capacity(&mut event_config, self.timer_capacity);
        match self.timer_tick_interval_ms {
            Some(ms) => {
                set_timer_tick_ms(&mut event_config, ms);
            },
            None => {},
        }
        event_config
    }

    /// The settings of the event loop that go with these: the default
    /// ones, with the timer capacity set, and with the tick interval set
    /// if one was chosen.
    pub fn to_event_loop_config(self) -> (config: mio::EventLoopConfig)
        ensures
            exists|base: mio::EventLoopConfig| config == self.applied_to(base),
    {
        self.apply_to(default_event_loop_config())
    }
}

impl Default for ReactorConfig {
    fn default() -> (c: ReactorConfig)
        ensures
            c.timer_capacity == 1024,
            c.timer_tick_interval_ms is None,
    {
        ReactorConfig { timer_capacity: 1024, timer_tick_interval_ms: None }
    }
}

} // verus!
