//! A codec that copies bytes.
use vstd::prelude::*;
use vstd::slice::slice_to_vec;

use crate::codec::fixed_length::append_bytes;
use crate::traits::Codec;

verus! {

/// A codec whose messages are byte strings and that writes them as they
/// are. It remembers all bytes that it has encoded and decoded.
pub struct FakeCodec {
    pub decoded: Vec<u8>,
    pub encoded: Vec<u8>,
}

impl FakeCodec {
    /// A codec that has seen nothing yet.
    pub fn new() -> (codec: FakeCodec)
        ensures
            codec.decoded@.len() == 0,
            codec.encoded@.len() == 0,
    {
        FakeCodec { decoded: Vec::new(), encoded: Vec::new() }
    }
}

impl Codec<Vec<u8>> for FakeCodec {
    type Input = Vec<u8>;

    type Output = Vec<u8>;

    /// The input is appended to the buffer and to the record.
    open spec fn encodes(
        &self,
        buffer: &Vec<u8>,
        input: Vec<u8>,
        after: &Self,
        buffer_after: &Vec<u8>,
        ok: bool,
    ) -> bool {
        &&& ok
        &&& buffer_after@ == buffer@ + input@
        &&& after.encoded@ == self.encoded@ + input@
        &&& after.decoded@ == self.decoded@
    }

    /// All bytes are one message, and all are recorded.
    open spec fn decodes(&self, bytes: Seq<u8>, after: &Self, r: Option<(usize, Vec<u8>)>) -> bool {
        &&& r matches Some((used, message)) && used == bytes.len() && message@ == bytes
        &&& after.decoded@ == self.decoded@ + bytes
        &&& after.encoded@ == self.encoded@
    }

    fn encode(&mut self, buffer: &mut Vec<u8>, input: Vec<u8>) -> (r: Result<(), std::io::Error>) {
        append_bytes(&mut self.encoded, input.as_slice());
        append_bytes(buffer, input.as_slice());
        Ok(())
    }

    fn decode(&mut self, buffer: &[u8]) -> (r: Option<(usize, Vec<u8>)>) {
        append_bytes(&mut self.decoded, buffer);
        Some((buffer.len(), slice_to_vec(buffer)))
    }
}

} // verus!
