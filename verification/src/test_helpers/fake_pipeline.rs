//! What a pipeline does when all its parts are the simple ones of this
//! module. The parts say exactly what they do, so the cycles of the
//! pipeline can be followed from end to end.
use vstd::prelude::*;

use crate::codec::fixed_length::frame;
use crate::codec::fixed_length::lemma_frame_round_trip;
use crate::codec::fixed_length::FixedLengthCodec;
use crate::pipeline::pipeline::read_cycle;
use crate::pipeline::pipeline::spawn_cycle;
use crate::pipeline::pipeline::torn_down;
use crate::pipeline::pipeline::write_cycle;
use crate::pipeline::pipeline::PipelineView;
use crate::test_helpers::fake_codec::FakeCodec;
use crate::test_helpers::fake_protocol::FakeProtocol;
use crate::test_helpers::fake_transport::FakeTransport;
use crate::traits::Codec;

verus! {

/// A pipeline of the simple parts.
pub type FakePipeline = PipelineView<FakeTransport, FakeCodec, FakeProtocol>;

/// Framing around the copying codec: what was encoded into an empty buffer
/// is one frame, and decoding that buffer gives the message back and uses
/// all of the buffer.
pub proof fn lemma_framed_round_trip(
    codec: FixedLengthCodec<FakeCodec>,
    buffer: Vec<u8>,
    input: Vec<u8>,
    encoded: FixedLengthCodec<FakeCodec>,
    written: Vec<u8>,
    ok: bool,
    decoded: FixedLengthCodec<FakeCodec>,
    r: Option<(usize, Vec<u8>)>,
)
    requires
        buffer@.len() == 0,
        input@.len() <= u32::MAX,
        codec.encodes(&buffer, input, &encoded, &written, ok),
        encoded.decodes(written@, &decoded, r),
    ensures
        ok,
        written@ == frame(input@),
        r matches Some((used, message)) && used == written@.len() && message@ == input@,
{
    let (empty, inner_ok) = choose|empty: Vec<u8>, inner_ok: bool|
        {
            &&& empty@.len() == 0
            &&& #[trigger] codec.inner().encodes(
                &empty,
                input,
                &encoded.inner(),
                &encoded.scratch(),
                inner_ok,
            )
            &&& ok == (inner_ok && encoded.scratch()@.len() <= u32::MAX)
            &&& written@ == if ok {
                buffer@ + frame(encoded.scratch()@)
            } else {
                buffer@
            }
        };
    lemma_frame_round_trip(input@, Seq::<u8>::empty());
    assert(written.len() == written@.len());
}

/// A writable cycle of the simple parts: the answer of the protocol is in
/// the buffer of the transport, behind what was there; the codec has seen
/// it; the protocol holds the future of the write; and the transport was
/// told that it may flush.
pub proof fn lemma_write_cycle(pre: FakePipeline, post: FakePipeline)
    requires
        write_cycle(pre, post),
    ensures
        post.transport.buf@ == pre.transport.buf@ + pre.protocol.output@,
        post.codec.encoded@ == pre.codec.encoded@ + pre.protocol.output@,
        post.protocol.future is Some,
        post.transport.assertions.writable,
        !post.transport.assertions.closed && !pre.protocol.closed ==> !post.protocol.closed,
{
}

/// A readable cycle of the simple parts, when the read goes well: the
/// protocol has received what the transport held, the transport was
/// emptied, and the answer of the protocol is in its buffer.
pub proof fn lemma_read_cycle(pre: FakePipeline, post: FakePipeline)
    requires
        read_cycle(pre, post),
        pre.transport.read_error is None,
    ensures
        post.protocol.input@ == pre.protocol.input@ + pre.transport.buf@,
        post.codec.decoded@ == pre.codec.decoded@ + pre.transport.buf@,
        post.transport.buf@ == pre.protocol.output@,
        post.protocol.future is Some,
        post.transport.assertions == pre.transport.assertions,
{
}

/// A readable cycle of the simple parts, when the read fails: the error
/// goes no further than the pipeline. Protocol and transport are told
/// that the connection is down, the transport with the kind of the error;
/// nothing was decoded, nothing was written.
pub proof fn lemma_read_error(pre: FakePipeline, post: FakePipeline, kind: std::io::ErrorKind)
    requires
        read_cycle(pre, post),
        pre.transport.read_error == Some(kind),
    ensures
        post.protocol.closed,
        post.transport.assertions.closed,
        post.transport.assertions.error_kind == Some(kind),
        post.transport.buf == pre.transport.buf,
        post.codec == pre.codec,
        post.protocol.input == pre.protocol.input,
{
}

/// The start of a pipeline of the simple parts: protocol and transport are
/// told, and the writable cycle that follows brings the first answer of the
/// protocol into the buffer.
pub proof fn lemma_spawn_cycle(pre: FakePipeline, post: FakePipeline)
    requires
        spawn_cycle(pre, post),
    ensures
        post.protocol.spawned,
        post.transport.assertions.spawned,
        post.transport.assertions.writable,
        post.transport.buf@ == pre.transport.buf@ + pre.protocol.output@,
        post.protocol.future is Some,
{
}

/// The end of a pipeline of the simple parts: protocol and transport are
/// told, and nothing else changes.
pub proof fn lemma_closed(pre: FakePipeline, post: FakePipeline)
    requires
        torn_down(pre, None, post),
    ensures
        post.protocol.closed,
        post.transport.assertions.closed,
        post.transport.assertions.error_kind == pre.transport.assertions.error_kind,
        post.transport.buf == pre.transport.buf,
        post.codec == pre.codec,
{
}

} // verus!
