//! Simple parts to try a pipeline or a reactor with: each does the least
//! that its trait allows and keeps a record of what it was asked.
pub mod fake_codec;
pub mod fake_context;
pub mod fake_protocol;
pub mod fake_transport;
pub mod fake_tcp_protocol;
pub mod fake_pipeline;
