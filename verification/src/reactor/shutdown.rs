//! The flag by which any thread asks a reactor to stop.
use std::sync::atomic::AtomicBool;
use std::sync::atomic::Ordering;
use std::sync::Arc;
use vstd::prelude::*;

verus! {

/// A handle on a reactor's shutdown flag. It can be sent to other threads;
/// the reactor looks at the flag at the end of each tick.
pub struct ShutdownHandle(pub(crate) Arc<AtomicBool>);

impl ShutdownHandle {
    /// The handle on the flag.
    pub closed spec fn over(flag: Arc<AtomicBool>) -> ShutdownHandle {
        ShutdownHandle(flag)
    }

    /// A handle on the flag.
    pub fn on(flag: Arc<AtomicBool>) -> (handle: ShutdownHandle)
        ensures
            handle == Self::over(flag),
    {
        ShutdownHandle(flag)
    }

    /// A handle on a fresh flag that nobody has raised.
    pub fn new() -> ShutdownHandle {
        ShutdownHandle(Arc::new(AtomicBool::new(false)))
    }

    /// Raises the flag.
    pub fn shutdown(&self) {
        self.0.store(true, Ordering::SeqCst);
    }

    /// Whether the flag was raised when this looked. Other threads may
    /// raise it at any time, so nothing is promised of the answer.
    pub fn is_shutdown(&self) -> bool {
        self.0.load(Ordering::SeqCst)
    }

    /// Another handle on the same flag.
    pub fn duplicate(&self) -> (handle: ShutdownHandle)
        ensures
            handle == *self,
    {
        ShutdownHandle(self.0.clone())
    }
}

} // verus!
