//! A networking pipeline framework: a length-prefixed framing codec, a
//! promise/future pair, a pipeline that wires a transport to a codec and a
//! protocol, chains of processing stages, and the socket bookkeeping of a
//! reactor.
//!
//! The library takes every decision and leaves the system calls to its
//! user: a reactor is told what to do on its event loop and reports back,
//! a transport reads and is told what to do next.
pub mod codec;
pub mod error;
pub mod future;
pub mod pipeline;
pub mod protocol;
pub mod reactor;
pub mod tcp;
pub mod test_helpers;
pub mod traits;
pub mod transport;
