//! The error type that travels through the library, and the few ways the
//! library makes one itself.
use vstd::prelude::*;

verus! {

/// `std::io::Error`, carried through the library without looking inside.
#[verifier::external_type_specification]
#[verifier::external_body]
pub struct ExIoError(std::io::Error);

/// `std::io::ErrorKind`, the rough class of an error.
#[verifier::external_type_specification]
#[verifier::external_body]
pub struct ExErrorKind(std::io::ErrorKind);

/// What `std::io::Error::kind` returns for an error.
pub uninterp spec fn kind_of(error: std::io::Error) -> std::io::ErrorKind;

/// Calls `std::io::Error::kind`.
#[verifier::external_body]
pub(crate) fn error_kind(error: &std::io::Error) -> (kind: std::io::ErrorKind)
    ensures
        kind == kind_of(*error),
{
    error.kind()
}

/// Calls `std::io::Error::new`. The error that comes back is of the kind
/// that was given.
#[verifier::external_body]
pub(crate) fn error_of_kind(kind: std::io::ErrorKind, message: &str) -> (error: std::io::Error)
    ensures
        kind_of(error) == kind,
{
    std::io::Error::new(kind, message)
}

/// Calls `std::io::Error::new` with `ErrorKind::Other` and the given message.
/// Nothing is claimed of the error that comes back.
#[verifier::external_body]
pub(crate) fn other_error(message: &str) -> std::io::Error {
    std::io::Error::new(std::io::ErrorKind::Other, message)
}

/// Calls `std::io::Error::new` with `ErrorKind::InvalidInput` and the given
/// message. Nothing is claimed of the error that comes back.
#[verifier::external_body]
pub(crate) fn invalid_input_error(message: &str) -> std::io::Error {
    std::io::Error::new(std::io::ErrorKind::InvalidInput, message)
}

} // verus!
