//! Pipelines: a transport, a codec and a protocol wired together, and the
//! context through which a protocol talks back.
pub mod context;
pub mod pipeline;
pub mod chain;
