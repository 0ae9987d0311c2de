//! Reactors for TCP: a protocol that listens, hands every new connection to
//! the protocol it wraps, and passes everything else through.
pub mod protocol;
