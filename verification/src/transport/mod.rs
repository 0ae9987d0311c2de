//! Transports: what a pipeline needs to know to read from a socket.
pub mod tcp;
