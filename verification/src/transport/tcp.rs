//! Reading from a socket that does not block. The transport itself owns
//! the socket and does the reading; what it does after each attempt is
//! decided here.
use vstd::prelude::*;

use crate::error::error_kind;
use crate::error::kind_of;

verus! {

/// What kind of failure a read ended with, as far as the transport cares.
#[derive(Clone, Copy, Debug, PartialEq, Eq, Structural)]
pub enum ErrorClass {
    /// The socket has nothing more for now.
    WouldBlock,
    /// A signal came in between.
    Interrupted,
    /// Anything else.
    Other,
}

/// What the transport does after one attempt to read.
pub enum ReadStep {
    /// Read again.
    Again,
    /// Hand out the bytes that are unread.
    Deliver,
    /// Give up with the error.
    Fail(std::io::Error),
}

/// The class of an error of the kind, as `classify` tells the kinds apart.
pub uninterp spec fn class_of_kind(kind: std::io::ErrorKind) -> ErrorClass;

/// Tells apart the kinds of `std::io::ErrorKind` that a non-blocking read
/// cares about: `WouldBlock`, `Interrupted`, and all the others.
#[verifier::external_body]
fn classify(kind: std::io::ErrorKind) -> (class: ErrorClass)
    ensures
        class == class_of_kind(kind),
{
    match kind {
        std::io::ErrorKind::WouldBlock => ErrorClass::WouldBlock,
        std::io::ErrorKind::Interrupted => ErrorClass::Interrupted,
        _ => ErrorClass::Other,
    }
}

/// What follows a read that failed with an error of the class.
pub open spec fn step_for(class: ErrorClass, error: std::io::Error) -> ReadStep {
    match class {
        ErrorClass::WouldBlock => ReadStep::Deliver,
        ErrorClass::Interrupted => ReadStep::Again,
        ErrorClass::Other => ReadStep::Fail(error),
    }
}

/// What follows one attempt to read.
pub open spec fn next_step(attempt: Result<usize, std::io::Error>) -> ReadStep {
    match attempt {
        Ok(_) => ReadStep::Again,
        Err(e) => step_for(class_of_kind(kind_of(e)), e),
    }
}

/// What follows a read that failed with an error of the class: a socket
/// that would block has been drained, so the unread bytes are handed out;
/// an interrupted read is tried again; any other error is final.
pub fn step_after(class: ErrorClass, error: std::io::Error) -> (step: ReadStep)
    ensures
        step == step_for(class, error),
{
    match class {
        ErrorClass::WouldBlock => ReadStep::Deliver,
        ErrorClass::Interrupted => ReadStep::Again,
        ErrorClass::Other => ReadStep::Fail(error),
    }
}

/// What follows one attempt to read. After a read that brought bytes the
/// socket may hold more, so it is read again; after a failure the class of
/// the kind of the error decides.
pub fn after_read(attempt: Result<usize, std::io::Error>) -> (step: ReadStep)
    ensures
        step == next_step(attempt),
{
    match attempt {
        Ok(_) => ReadStep::Again,
        Err(e) => {
            let class = classify(error_kind(&e));
            step_after(class, e)
        },
    }
}

} // verus!
