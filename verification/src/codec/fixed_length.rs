//! Length-prefixed framing: every message travels as four bytes that hold
//! its length, most significant byte first, followed by that many bytes of
//! payload. No magic number, no version, no checksum.
use byteorder::BigEndian;
use byteorder::ByteOrder;
use vstd::prelude::*;
use vstd::slice::slice_subrange;

use crate::error::invalid_input_error;
use crate::traits::Codec;

verus! {

/// Length of the prefix of a frame, in bytes.
pub const PREFIX_LEN: usize = 4;

/// Capacity with which the scratch buffer of a codec starts.
pub const DEFAULT_CAPACITY: usize = 1024;

/// The number that the first four bytes hold, most significant byte first.
pub open spec fn be32(bytes: Seq<u8>) -> int
    recommends
        bytes.len() >= 4,
{
    bytes[0] as int * 0x100_0000 + bytes[1] as int * 0x1_0000 + bytes[2] as int * 0x100
        + bytes[3] as int
}

/// The four bytes that hold the number, most significant byte first.
pub open spec fn be32_bytes(n: u32) -> Seq<u8> {
    seq![
        (n / 0x100_0000) as u8,
        (n / 0x1_0000 % 0x100) as u8,
        (n / 0x100 % 0x100) as u8,
        (n % 0x100) as u8,
    ]
}

/// The frame around a payload.
pub open spec fn frame(payload: Seq<u8>) -> Seq<u8>
    recommends
        payload.len() <= u32::MAX,
{
    be32_bytes(payload.len() as u32) + payload
}

/// The first frame of a buffer: its length, prefix included, and its
/// payload. There is none while the buffer is shorter than the prefix or
/// than the prefix says.
pub open spec fn deframe(buffer: Seq<u8>) -> Option<(nat, Seq<u8>)> {
    if buffer.len() < 4 {
        None
    } else if buffer.len() - 4 < be32(buffer) {
        None
    } else {
        Some(((4 + be32(buffer)) as nat, buffer.subrange(4, 4 + be32(buffer))))
    }
}

/// Calls `byteorder::BigEndian::read_u32`, which reads the first four bytes
/// as a number, most significant byte first, and panics on fewer than four
/// bytes.
#[verifier::external_body]
fn read_be32(bytes: &[u8]) -> (n: u32)
    requires
        bytes@.len() >= 4,
    ensures
        n == be32(bytes@),
{
    BigEndian::read_u32(bytes)
}

/// Calls `byteorder::BigEndian::write_u32` on four bytes, which become the
/// number, most significant byte first.
#[verifier::external_body]
fn write_be32(n: u32) -> (bytes: [u8; 4])
    ensures
        bytes@ == be32_bytes(n),
{
    let mut bytes = [0u8; 4];
    BigEndian::write_u32(&mut bytes, n);
    bytes
}

/// Four bytes hold the number they were made from.
pub proof fn lemma_be32_of_bytes(n: u32)
    ensures
        be32_bytes(n).len() == 4,
        be32(be32_bytes(n)) == n,
{
}

/// A frame decodes to its payload, and all of the frame is used, whatever
/// follows the frame in the buffer.
pub proof fn lemma_frame_round_trip(payload: Seq<u8>, rest: Seq<u8>)
    requires
        payload.len() <= u32::MAX,
    ensures
        frame(payload).len() == 4 + payload.len(),
        deframe(frame(payload)) == Some((frame(payload).len(), payload)),
        deframe(frame(payload) + rest) == Some((frame(payload).len(), payload)),
{
    let n = payload.len() as u32;
    lemma_be32_of_bytes(n);
    let f = frame(payload);
    assert((f + rest).subrange(0, 4) =~= f.subrange(0, 4));
    lemma_prefix_decides(f, f + rest);
    assert(be32(f) == n);
}

/// Two buffers that begin with the same four bytes announce the same
/// length.
pub proof fn lemma_prefix_decides(a: Seq<u8>, b: Seq<u8>)
    requires
        a.len() >= 4,
        b.len() >= 4,
        a.subrange(0, 4) == b.subrange(0, 4),
    ensures
        be32(a) == be32(b),
{
    assert(a[0] == a.subrange(0, 4)[0]);
    assert(a[1] == a.subrange(0, 4)[1]);
    assert(a[2] == a.subrange(0, 4)[2]);
    assert(a[3] == a.subrange(0, 4)[3]);
}

/// A frame that was cut off anywhere before its end, be it inside the
/// prefix, does not decode: more data is needed.
pub proof fn lemma_partial_frame(payload: Seq<u8>, cut: int)
    requires
        payload.len() <= u32::MAX,
        0 <= cut < 4 + payload.len(),
    ensures
        deframe(frame(payload).take(cut)) is None,
{
    let n = payload.len() as u32;
    lemma_be32_of_bytes(n);
    let f = frame(payload);
    let part = f.take(cut);
    if cut >= 4 {
        assert(be32(f) == n);
        assert(part.subrange(0, 4) =~= f.subrange(0, 4));
        lemma_prefix_decides(part, f);
    }
}

/// A buffer that holds exactly one frame decodes, and all of it is used;
/// one byte less, and it does not decode.
pub proof fn lemma_exact_boundary(buffer: Seq<u8>)
    requires
        buffer.len() >= 4,
    ensures
        buffer.len() == 4 + be32(buffer) ==> deframe(buffer) == Some(
            (buffer.len(), buffer.skip(4)),
        ),
        buffer.len() == 4 + be32(buffer) - 1 ==> deframe(buffer) is None,
{
}

/// Splits the first frame off a buffer: its length, prefix included, and
/// its payload. `None` means that more data is needed.
pub fn split_frame(buffer: &[u8]) -> (r: Option<(usize, &[u8])>)
    ensures
        match r {
            Some((used, payload)) => deframe(buffer@) == Some((used as nat, payload@)),
            None => deframe(buffer@) is None,
        },
{
    if buffer.len() < PREFIX_LEN {
        return None;
    }
    let len: u32 = read_be32(buffer);
    if buffer.len() - PREFIX_LEN < len as usize {
        return None;
    }
    let end: usize = PREFIX_LEN + len as usize;
    Some((end, slice_subrange(buffer, PREFIX_LEN, end)))
}

/// Appends the bytes to the buffer.
pub fn append_bytes(buffer: &mut Vec<u8>, bytes: &[u8])
    ensures
        final(buffer)@ == old(buffer)@ + bytes@,
{
    let mut at: usize = 0;
    while at < bytes.len()
        invariant
            at <= bytes.len(),
            buffer@ == old(buffer)@ + bytes@.take(at as int),
        decreases bytes.len() - at,
    {
        buffer.push(bytes[at]);
        at = at + 1;
    }
}

/// Appends the frame around the payload to the buffer.
pub fn write_frame(buffer: &mut Vec<u8>, payload: &[u8])
    requires
        payload@.len() <= u32::MAX,
    ensures
        final(buffer)@ == old(buffer)@ + frame(payload@),
{
    let prefix = write_be32(payload.len() as u32);
    buffer.push(prefix[0]);
    buffer.push(prefix[1]);
    buffer.push(prefix[2]);
    buffer.push(prefix[3]);
    append_bytes(buffer, payload);
}

/// What the framing makes of the answer of the codec inside: the message,
/// with the length of the whole frame as the number of bytes used.
pub open spec fn framed<O>(used: nat, inner: Option<(usize, O)>) -> Option<(usize, O)> {
    match inner {
        Some((_, output)) => Some((used as usize, output)),
        None => None,
    }
}

/// The codec inside was asked to decode the payload of a frame, and `r` is
/// what the framing made of its answer.
pub open spec fn payload_decoded<C: Codec<Vec<u8>>>(
    pre: C,
    payload: Seq<u8>,
    post: C,
    used: nat,
    r: Option<(usize, C::Output)>,
) -> bool {
    exists|inner: Option<(usize, C::Output)>|
        {
            &&& #[trigger] pre.decodes(payload, &post, inner)
            &&& r == framed(used, inner)
        }
}

/// A codec that frames what another codec encodes, and hands the payload
/// of every complete frame to that codec.
pub struct FixedLengthCodec<C> {
    codec: C,
    buffer: Vec<u8>,
}

impl<C> FixedLengthCodec<C> {
    /// The codec inside.
    pub closed spec fn inner(&self) -> C {
        self.codec
    }

    /// The scratch buffer, which holds the payload that was framed last.
    pub closed spec fn scratch(&self) -> Vec<u8> {
        self.buffer
    }

    /// Frames whatever `codec` encodes.
    pub fn new(codec: C) -> (c: FixedLengthCodec<C>)
        ensures
            c.inner() == codec,
            c.scratch()@.len() == 0,
    {
        FixedLengthCodec { codec, buffer: Vec::with_capacity(DEFAULT_CAPACITY) }
    }
}

impl<C: Codec<Vec<u8>>> Codec<Vec<u8>> for FixedLengthCodec<C> {
    type Input = C::Input;

    type Output = C::Output;

    /// The codec inside encodes into the emptied scratch buffer. If it
    /// succeeds and the payload fits a frame, the frame is appended to the
    /// buffer; else the buffer stays as it was and the call fails.
    open spec fn encodes(
        &self,
        buffer: &Vec<u8>,
        input: C::Input,
        after: &Self,
        buffer_after: &Vec<u8>,
        ok: bool,
    ) -> bool {
        exists|empty: Vec<u8>, inner_ok: bool|
            {
                &&& empty@.len() == 0
                &&& #[trigger] self.inner().encodes(
                    &empty,
                    input,
                    &after.inner(),
                    &after.scratch(),
                    inner_ok,
                )
                &&& ok == (inner_ok && after.scratch()@.len() <= u32::MAX)
                &&& buffer_after@ == if ok {
                    buffer@ + frame(after.scratch()@)
                } else {
                    buffer@
                }
            }
    }

    /// Without a complete frame the answer is `None` and the codec inside
    /// is not asked. With one, the codec inside decodes the payload, and
    /// its message comes with the length of the frame.
    open spec fn decodes(&self, bytes: Seq<u8>, after: &Self, r: Option<(usize, C::Output)>) -> bool {
        &&& after.scratch() == self.scratch()
        &&& match deframe(bytes) {
            None => r is None && after.inner() == self.inner(),
            Some((used, payload)) => payload_decoded(
                self.inner(),
                payload,
                after.inner(),
                used,
                r,
            ),
        }
    }

    fn encode(&mut self, buffer: &mut Vec<u8>, input: C::Input) -> (r: Result<(), std::io::Error>) {
        self.buffer.clear();
        let ghost empty = self.buffer;
        let inner = self.codec.encode(&mut self.buffer, input);
        proof {
            assert(old(self).inner().encodes(
                &empty,
                input,
                &self.inner(),
                &self.scratch(),
                inner is Ok,
            ));
        }
        match inner {
            Err(e) => Err(e),
            Ok(_) => {
                if self.buffer.len() > u32::MAX as usize {
                    Err(invalid_input_error("payload too long for a frame"))
                } else {
                    write_frame(buffer, self.buffer.as_slice());
                    Ok(())
                }
            },
        }
    }

    fn decode(&mut self, buffer: &[u8]) -> (r: Option<(usize, C::Output)>) {
        match split_frame(buffer) {
            None => None,
            Some((used, payload)) => {
                let inner = self.codec.decode(payload);
                let r = match inner {
                    Some((_, output)) => Some((used, output)),
                    None => None,
                };
                r
            },
        }
    }
}

} // verus!
