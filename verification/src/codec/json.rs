//! A codec for JSON documents. It writes a document as text, and takes all
//! bytes that it is given for one document: whether they were one is part
//! of the message, for the stage behind the codec to deal with.
use vstd::prelude::*;

use crate::codec::fixed_length::append_bytes;
use crate::traits::Codec;

verus! {

/// A JSON document of `serde_json`.
#[verifier::external_type_specification]
#[verifier::external_body]
pub struct ExValue(serde_json::Value);

/// The error with which `serde_json` refuses text or a document.
#[verifier::external_type_specification]
#[verifier::external_body]
pub struct ExJsonError(serde_json::Error);

/// The text that `serde_json::to_vec` writes for a document, if it writes
/// one.
pub uninterp spec fn json_text(document: serde_json::Value) -> Option<Seq<u8>>;

/// The document that `serde_json::from_slice` reads from text, if it reads
/// one.
pub uninterp spec fn json_document(text: Seq<u8>) -> Option<serde_json::Value>;

/// Calls `serde_json::to_vec`, which writes a document as text.
#[verifier::external_body]
fn to_text(document: &serde_json::Value) -> (r: Result<Vec<u8>, serde_json::Error>)
    ensures
        match r {
            Ok(text) => json_text(*document) == Some(text@),
            Err(_) => json_text(*document) is None,
        },
{
    serde_json::to_vec(document)
}

/// Calls `serde_json::from_slice`, which reads all of the text as one
/// document.
#[verifier::external_body]
fn from_text(text: &[u8]) -> (r: Result<serde_json::Value, serde_json::Error>)
    ensures
        match r {
            Ok(document) => json_document(text@) == Some(document),
            Err(_) => json_document(text@) is None,
        },
{
    serde_json::from_slice(text)
}

/// Calls `std::io::Error::new` with `ErrorKind::Other` around the error of
/// `serde_json`. Nothing is claimed of the error that comes back.
#[verifier::external_body]
fn io_error(error: serde_json::Error) -> std::io::Error {
    std::io::Error::new(std::io::ErrorKind::Other, error)
}

/// What the codec makes of an attempt to read a document from `len`
/// bytes: all bytes count as used, and the attempt is the message.
pub fn whole_slice<T>(len: usize, read: T) -> (r: Option<(usize, T)>)
    ensures
        r == Some((len, read)),
{
    Some((len, read))
}

/// Appends the text to the buffer if there is one; without one the buffer
/// stays as it was and the error is handed on.
pub fn write_text<E>(buffer: &mut Vec<u8>, text: Result<Vec<u8>, E>) -> (r: Result<(), E>)
    ensures
        match text {
            Ok(t) => r is Ok && final(buffer)@ == old(buffer)@ + t@,
            Err(e) => r == Err::<(), E>(e) && final(buffer)@ == old(buffer)@,
        },
{
    match text {
        Ok(t) => {
            append_bytes(buffer, t.as_slice());
            Ok(())
        },
        Err(e) => Err(e),
    }
}

/// The codec for JSON documents.
pub struct JsonCodec {}

impl JsonCodec {
    pub fn new() -> JsonCodec {
        JsonCodec {  }
    }
}

impl Codec<Vec<u8>> for JsonCodec {
    type Input = serde_json::Value;

    type Output = Result<serde_json::Value, serde_json::Error>;

    /// The text of the document is appended to the buffer; a document
    /// without text fails and leaves the buffer as it was.
    open spec fn encodes(
        &self,
        buffer: &Vec<u8>,
        input: serde_json::Value,
        after: &Self,
        buffer_after: &Vec<u8>,
        ok: bool,
    ) -> bool {
        match json_text(input) {
            Some(text) => ok && buffer_after@ == buffer@ + text,
            None => !ok && buffer_after@ == buffer@,
        }
    }

    /// The codec never waits for more: all bytes are used, and the
    /// message is the document they hold or the reason why they hold none.
    open spec fn decodes(
        &self,
        bytes: Seq<u8>,
        after: &Self,
        r: Option<(usize, Result<serde_json::Value, serde_json::Error>)>,
    ) -> bool {
        r matches Some((used, message)) && used == bytes.len() && match message {
            Ok(document) => json_document(bytes) == Some(document),
            Err(_) => json_document(bytes) is None,
        }
    }

    fn encode(&mut self, buffer: &mut Vec<u8>, input: serde_json::Value) -> (r: Result<
        (),
        std::io::Error,
    >) {
        match write_text(buffer, to_text(&input)) {
            Ok(_) => Ok(()),
            Err(e) => Err(io_error(e)),
        }
    }

    fn decode(&mut self, buffer: &[u8]) -> (r: Option<
        (usize, Result<serde_json::Value, serde_json::Error>),
    >) {
        whole_slice(buffer.len(), from_text(buffer))
    }
}

} // verus!
