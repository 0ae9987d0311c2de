//! Codecs: the length-prefixed framing, and a codec for JSON documents.
pub mod fixed_length;
pub mod json;
