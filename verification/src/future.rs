//! A promise and its future: a cell that one side fills once and the other
//! side waits on. The two sides may live on different threads.
use std::sync::Arc;
use std::sync::Condvar;
use std::sync::Mutex;
use std::sync::MutexGuard;
use vstd::prelude::*;

use crate::error::other_error;

verus! {

/// `std::sync::Mutex`, which guards the cell.
#[verifier::external_type_specification]
#[verifier::external_body]
#[verifier::reject_recursive_types(T)]
pub struct ExMutex<T: ?Sized>(Mutex<T>);

/// `std::sync::MutexGuard`, the proof that the cell is locked.
#[verifier::external_type_specification]
#[verifier::external_body]
#[verifier::reject_recursive_types(T)]
pub struct ExMutexGuard<'a, T: ?Sized + 'a>(MutexGuard<'a, T>);

/// `std::sync::Condvar`, on which the waiting side sleeps.
#[verifier::external_type_specification]
#[verifier::external_body]
pub struct ExCondvar(Condvar);

/// Calls `Mutex::new`.
#[verifier::external_body]
fn new_mutex<T>(value: T) -> Mutex<T> {
    Mutex::new(value)
}

/// Calls `Condvar::new`.
#[verifier::external_body]
fn new_condvar() -> Condvar {
    Condvar::new()
}

/// Calls `Mutex::lock`. A lock that was poisoned by a panic on another
/// thread ends the program: a cell in an unknown state is not used.
#[verifier::external_body]
fn lock<'a, T>(mutex: &'a Mutex<T>) -> MutexGuard<'a, T> {
    mutex.lock().expect("lock poisoned")
}

/// Calls `Condvar::wait_while`: sleeps until the cell holds a result. A
/// poisoned lock ends the program. What the cell holds is shared with other
/// threads, so nothing is claimed of it.
#[verifier::external_body]
fn wait_for_result<'a, R>(cond: &Condvar, guard: MutexGuard<'a, Option<R>>) -> MutexGuard<
    'a,
    Option<R>,
> {
    cond.wait_while(guard, |slot| is_pending(slot)).expect("lock poisoned while waiting")
}

/// Calls `Condvar::notify_one`.
#[verifier::external_body]
fn notify_one(cond: &Condvar) {
    cond.notify_one()
}

/// Calls `std::mem::replace` on the locked cell: puts `value` in and hands
/// out what was there. What was there is shared with other threads, so
/// nothing is claimed of it.
#[verifier::external_body]
fn exchange<T>(guard: &mut MutexGuard<T>, value: T) -> T {
    std::mem::replace(&mut **guard, value)
}

/// Calls `MutexGuard::deref`: a look at the locked cell.
#[verifier::external_body]
fn peek<'a, 'b, T>(guard: &'b MutexGuard<'a, T>) -> &'b T {
    &**guard
}

/// Whether a cell is still waiting for its result.
pub fn is_pending<R>(slot: &Option<R>) -> (pending: bool)
    ensures
        pending == slot is None,
{
    slot.is_none()
}

/// What the waiting side gets out of a cell that it found filled, and what
/// it gets when somebody else has emptied the cell in between.
pub fn taken<T>(slot: Option<Result<T, std::io::Error>>) -> (r: Result<T, std::io::Error>)
    ensures
        slot matches Some(result) ==> r == result,
        slot is None ==> r is Err,
{
    match slot {
        Some(result) => result,
        None => Err(other_error("the result was taken twice")),
    }
}

#[derive(Debug)]
#[verifier::reject_recursive_types(T)]
struct Inner<T> {
    data: Mutex<Option<Result<T, std::io::Error>>>,
    cond: Condvar,
}

impl<T> Inner<T> {
    fn new() -> Inner<T> {
        Inner { data: new_mutex(None), cond: new_condvar() }
    }

    fn get(&self) -> Result<T, std::io::Error> {
        let guard = lock(&self.data);
        let mut guard = wait_for_result(&self.cond, guard);
        taken(exchange(&mut guard, None))
    }

    fn set(&self, data: Result<T, std::io::Error>) {
        let mut guard = lock(&self.data);
        let _ = exchange(&mut guard, Some(data));
        notify_one(&self.cond);
    }

    fn is_done(&self) -> bool {
        let guard = lock(&self.data);
        !is_pending(peek(&guard))
    }
}

/// The waiting side of a cell.
#[derive(Debug)]
#[verifier::reject_recursive_types(T)]
pub struct Future<T> {
    inner: Arc<Inner<T>>,
}

impl<T> Future<T> {
    /// Sleeps until the cell holds a result, then takes the result out.
    pub fn get(&self) -> Result<T, std::io::Error> {
        self.inner.get()
    }

    /// Whether the cell holds a result right now.
    pub fn is_done(&self) -> bool {
        self.inner.is_done()
    }
}

/// The filling side of a cell.
#[derive(Debug)]
#[verifier::reject_recursive_types(T)]
pub struct Promise<T> {
    inner: Arc<Inner<T>>,
}

impl<T> Promise<T> {
    /// Whether the future waits on the very cell that this promise fills.
    pub closed spec fn fills(&self, future: &Future<T>) -> bool {
        self.inner == future.inner
    }

    /// Puts the result into the cell and wakes one thread that waits for
    /// it.
    pub fn set(&self, data: Result<T, std::io::Error>) {
        self.inner.set(data)
    }
}

/// A fresh, empty cell and its two sides: the promise fills the cell that
/// the future waits on.
pub fn pair<T>() -> (sides: (Promise<T>, Future<T>))
    ensures
        sides.0.fills(&sides.1),
{
    let inner = Arc::new(Inner::new());
    let promise = Promise { inner: inner.clone() };
    let future = Future { inner };
    (promise, future)
}

} // verus!
