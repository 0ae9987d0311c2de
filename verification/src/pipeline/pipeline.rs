//! The pipeline: it drives a transport, a codec and a protocol through the
//! life of one connection.
//!
//! What a pipeline does in a cycle is stated as a relation between the
//! pipeline before and after, built from the relations that its three parts
//! give for their own operations. The relations name every call that is
//! made, what is handed to it, and what is done with its answer.
use vstd::prelude::*;

use crate::error::other_error;
use crate::future::Promise;
use crate::pipeline::context::PipelineContext;
use crate::traits::Codec;
use crate::traits::nothing;
use crate::traits::said;
use crate::traits::Context;
use crate::traits::Said;
use crate::traits::Protocol;
use crate::traits::Transport;

verus! {

/// The three parts of a pipeline, as contracts see them.
pub struct PipelineView<T, C, P> {
    pub transport: T,
    pub codec: C,
    pub protocol: P,
}

pub struct Pipeline<T, C, P> {
    transport: T,
    codec: C,
    protocol: P,
}

/// The codec encoded the input into the buffer that the transport lent
/// out for it.
pub open spec fn encoded_into<T, C>(
    transport: T,
    codec: C,
    input: C::Input,
    transport_after: T,
    codec_after: C,
) -> bool where T: Transport, C: Codec<T::Buffer> {
    exists|lent: T::Buffer, returned: T::Buffer, ok: bool|
        {
            &&& #[trigger] transport.lends(&lent, &returned, &transport_after)
            &&& #[trigger] codec.encodes(&lent, input, &codec_after, &returned, ok)
        }
}

/// A scheduled write went through the codec into the buffer of the
/// transport; the protocol was not involved. Without a scheduled write
/// nothing happened.
pub open spec fn delivered<T, C, P>(
    pre: PipelineView<T, C, P>,
    obj: Option<C::Input>,
    post: PipelineView<T, C, P>,
) -> bool where T: Transport, C: Codec<T::Buffer> {
    match obj {
        None => post == pre,
        Some(input) => post.protocol == pre.protocol && encoded_into(
            pre.transport,
            pre.codec,
            input,
            post.transport,
            post.codec,
        ),
    }
}

/// The protocol was told, through a fresh context, that the connection is
/// down.
pub open spec fn told_closed<P: Protocol>(
    before: P,
    err: Option<&std::io::Error>,
    after: P,
) -> bool {
    exists|now: Said<P::Output>| #[trigger] before.closes(nothing(), err, &after, now)
}

/// The protocol and then the transport were told that the connection is
/// down; the codec was not involved.
pub open spec fn torn_down<T, C, P>(
    pre: PipelineView<T, C, P>,
    err: Option<&std::io::Error>,
    post: PipelineView<T, C, P>,
) -> bool where T: Transport, C: Codec<T::Buffer>, P: Protocol<Input = C::Output, Output = C::Input> {
    &&& post.codec == pre.codec
    &&& pre.transport.closes(err, &post.transport)
    &&& told_closed(pre.protocol, err, post.protocol)
}

/// The end of a cycle: what the hook scheduled is delivered, and if the
/// hook asked to close, the connection is torn down.
pub open spec fn finished<T, C, P>(
    pre: PipelineView<T, C, P>,
    ctx: Said<P::Output>,
    post: PipelineView<T, C, P>,
) -> bool where T: Transport, C: Codec<T::Buffer>, P: Protocol<Input = C::Output, Output = C::Input> {
    exists|mid: PipelineView<T, C, P>|
        {
            &&& #[trigger] delivered(pre, ctx.scheduled, mid)
            &&& if ctx.closing {
                torn_down(mid, None, post)
            } else {
                post == mid
            }
        }
}

/// A message of `used` bytes was decoded: the transport is told how much
/// was used, the protocol receives the message through a fresh context,
/// and the cycle ends.
pub open spec fn received<T, C, P>(
    pre: PipelineView<T, C, P>,
    used: usize,
    message: C::Output,
    post: PipelineView<T, C, P>,
) -> bool where T: Transport, C: Codec<T::Buffer>, P: Protocol<Input = C::Output, Output = C::Input> {
    exists|t: T, p: P, ctx: Said<P::Output>|
        {
            &&& #[trigger] pre.transport.consumes(used, &t)
            &&& #[trigger] pre.protocol.receives(nothing(), message, &p, ctx)
            &&& finished(PipelineView { transport: t, codec: pre.codec, protocol: p }, ctx, post)
        }
}

/// Unread bytes went to the codec. Without a complete message nothing
/// else happens: the bytes stay with the transport. With one, the message
/// is received.
pub open spec fn decoded<T, C, P>(
    pre: PipelineView<T, C, P>,
    bytes: Seq<u8>,
    post: PipelineView<T, C, P>,
) -> bool where T: Transport, C: Codec<T::Buffer>, P: Protocol<Input = C::Output, Output = C::Input> {
    exists|c: C, d: Option<(usize, C::Output)>|
        {
            &&& #[trigger] pre.codec.decodes(bytes, &c, d)
            &&& match d {
                None => post == (PipelineView { codec: c, ..pre }),
                Some((used, message)) => received(
                    PipelineView { codec: c, ..pre },
                    used,
                    message,
                    post,
                ),
            }
        }
}

/// A readable cycle: the transport reads. A read that fails ends the
/// connection, with the error; bytes that were read go to the codec.
pub open spec fn read_cycle<T, C, P>(pre: PipelineView<T, C, P>, post: PipelineView<T, C, P>) -> bool where
    T: Transport,
    C: Codec<T::Buffer>,
    P: Protocol<Input = C::Output, Output = C::Input>,
 {
    exists|t: T, rd: Result<Seq<u8>, std::io::Error>|
        {
            &&& #[trigger] pre.transport.reads(&t, rd)
            &&& match rd {
                Err(e) => torn_down(PipelineView { transport: t, ..pre }, Some(&e), post),
                Ok(bytes) => decoded(PipelineView { transport: t, ..pre }, bytes, post),
            }
        }
}

/// The transport was told that it may flush; then, if the protocol had
/// asked to close, the connection was torn down.
pub open spec fn flushed<T, C, P>(
    pre: PipelineView<T, C, P>,
    closing: bool,
    post: PipelineView<T, C, P>,
) -> bool where T: Transport, C: Codec<T::Buffer>, P: Protocol<Input = C::Output, Output = C::Input> {
    exists|t: T|
        {
            &&& #[trigger] pre.transport.flushes(&t)
            &&& if closing {
                torn_down(PipelineView { transport: t, ..pre }, None, post)
            } else {
                post == (PipelineView { transport: t, ..pre })
            }
        }
}

/// What the protocol offered was delivered, and the transport flushed.
pub open spec fn offered<T, C, P>(
    pre: PipelineView<T, C, P>,
    ctx: Said<P::Output>,
    post: PipelineView<T, C, P>,
) -> bool where T: Transport, C: Codec<T::Buffer>, P: Protocol<Input = C::Output, Output = C::Input> {
    exists|sent: PipelineView<T, C, P>|
        {
            &&& #[trigger] delivered(pre, ctx.scheduled, sent)
            &&& flushed(sent, ctx.closing, post)
        }
}

/// A writable cycle: the protocol may offer a write through a fresh
/// context, which is delivered; the transport is told that it may flush;
/// and if the protocol asked to close, the connection is torn down.
pub open spec fn write_cycle<T, C, P>(pre: PipelineView<T, C, P>, post: PipelineView<T, C, P>) -> bool where
    T: Transport,
    C: Codec<T::Buffer>,
    P: Protocol<Input = C::Output, Output = C::Input>,
 {
    exists|p: P, ctx: Said<P::Output>|
        {
            &&& #[trigger] pre.protocol.offers(nothing(), &p, ctx)
            &&& offered(PipelineView { protocol: p, ..pre }, ctx, post)
        }
}

/// The transport was told that the connection is up, and a writable cycle
/// followed.
pub open spec fn started<T, C, P>(pre: PipelineView<T, C, P>, post: PipelineView<T, C, P>) -> bool where
    T: Transport,
    C: Codec<T::Buffer>,
    P: Protocol<Input = C::Output, Output = C::Input>,
 {
    exists|t: T|
        {
            &&& #[trigger] pre.transport.spawns(&t)
            &&& write_cycle(PipelineView { transport: t, ..pre }, post)
        }
}

/// What the protocol scheduled when it was told of the start was
/// delivered, and the connection started.
pub open spec fn greeted<T, C, P>(
    pre: PipelineView<T, C, P>,
    ctx: Said<P::Output>,
    post: PipelineView<T, C, P>,
) -> bool where T: Transport, C: Codec<T::Buffer>, P: Protocol<Input = C::Output, Output = C::Input> {
    exists|sent: PipelineView<T, C, P>|
        {
            &&& #[trigger] delivered(pre, ctx.scheduled, sent)
            &&& started(sent, post)
        }
}

/// The start of a connection: the protocol is told through a fresh
/// context, what it scheduled is delivered, the transport is told, and a
/// writable cycle follows.
pub open spec fn spawn_cycle<T, C, P>(pre: PipelineView<T, C, P>, post: PipelineView<T, C, P>) -> bool where
    T: Transport,
    C: Codec<T::Buffer>,
    P: Protocol<Input = C::Output, Output = C::Input>,
 {
    exists|p: P, ctx: Said<P::Output>|
        {
            &&& #[trigger] pre.protocol.spawns(nothing(), &p, ctx)
            &&& greeted(PipelineView { protocol: p, ..pre }, ctx, post)
        }
}

impl<T, C, P> Pipeline<T, C, P> where
    T: Transport,
    C: Codec<T::Buffer>,
    P: Protocol<Input = C::Output, Output = C::Input>,
 {
    pub closed spec fn view(&self) -> PipelineView<T, C, P> {
        PipelineView { transport: self.transport, codec: self.codec, protocol: self.protocol }
    }

    /// A pipeline of the three parts.
    pub fn new(t: T, c: C, p: P) -> (pipeline: Pipeline<T, C, P>)
        ensures
            pipeline@ == (PipelineView { transport: t, codec: c, protocol: p }),
    {
        Pipeline { transport: t, codec: c, protocol: p }
    }

    /// The transport of the pipeline.
    pub fn transport(&self) -> (t: &T)
        ensures
            *t == self@.transport,
    {
        &self.transport
    }

    /// The codec of the pipeline.
    pub fn codec(&self) -> (c: &C)
        ensures
            *c == self@.codec,
    {
        &self.codec
    }

    /// The protocol of the pipeline.
    pub fn protocol(&self) -> (p: &P)
        ensures
            *p == self@.protocol,
    {
        &self.protocol
    }

    /// Sends a scheduled write through the codec into the buffer of the
    /// transport, and keeps the promise that came with it: the promise is
    /// set to what the codec answered.
    fn deliver(&mut self, scheduled: Option<(C::Input, Promise<()>)>)
        ensures
            delivered(
                old(self)@,
                crate::pipeline::context::object_of(scheduled),
                final(self)@,
            ),
    {
        match scheduled {
            Some((to_write, promise)) => {
                let buffer = self.transport.buffer();
                let answer = self.codec.encode(buffer, to_write);
                promise.set(answer);
            },
            None => {},
        }
    }

    /// Tells the protocol and the transport that the connection is down.
    /// A write that the protocol schedules now can no longer be made: its
    /// promise is set to an error.
    fn tear_down(&mut self, err: Option<&std::io::Error>)
        ensures
            torn_down(old(self)@, err, final(self)@),
    {
        let mut ctx = PipelineContext::<P::Output>::new();
        self.protocol.closed(&mut ctx, err);
        match ctx.into() {
            Some((_, promise)) => promise.set(Err(other_error("connection closed"))),
            None => {},
        }
        self.transport.closed(err);
    }

    /// Ends a cycle: delivers what the hook scheduled, and tears the
    /// connection down if the hook asked for it.
    fn finish(&mut self, ctx: PipelineContext<P::Output>)
        ensures
            finished(old(self)@, said(&ctx), final(self)@),
    {
        let close = ctx.close_requested();
        self.deliver(ctx.into());
        if close {
            self.tear_down(None);
        }
    }

    /// Tells the protocol and the transport that the connection is up,
    /// then goes through a writable cycle, so that a greeting leaves at
    /// once.
    pub fn spawned(&mut self)
        ensures
            spawn_cycle(old(self)@, final(self)@),
    {
        let mut ctx = PipelineContext::<P::Output>::new();
        self.protocol.spawned(&mut ctx);
        let ghost p = self@.protocol;
        let ghost told = said(&ctx);
        self.deliver(ctx.into());
        self.transport.spawned();
        self.writable();
        proof {
            assert(old(self)@.protocol.spawns(nothing(), &p, told));
        }
    }

    /// Tells the protocol and the transport that the connection is down.
    pub fn closed(&mut self)
        ensures
            torn_down(old(self)@, None, final(self)@),
    {
        self.tear_down(None);
    }

    /// A readable cycle. A read that fails is not handed up: it ends the
    /// connection.
    pub fn readable(&mut self)
        ensures
            read_cycle(old(self)@, final(self)@),
    {
        let read = self.transport.read();
        let ghost rd = crate::traits::read_view(read);
        let found = match read {
            Ok(bytes) => Ok(self.codec.decode(bytes)),
            Err(e) => Err(e),
        };
        let ghost t = self@.transport;
        let ghost was_read = PipelineView { transport: t, ..old(self)@ };
        let ghost was_decoded = self@;
        proof {
            assert(old(self)@.transport.reads(&t, rd));
            if rd is Ok {
                assert(was_read.codec.decodes(rd->Ok_0, &was_decoded.codec, found->Ok_0));
            }
        }
        match found {
            Err(e) => {
                self.tear_down(Some(&e));
            },
            Ok(None) => {},
            Ok(Some((used, message))) => {
                self.transport.consume(used);
                let mut ctx = PipelineContext::<P::Output>::new();
                self.protocol.received_data(&mut ctx, message);
                let ghost p = self@.protocol;
                let ghost told = said(&ctx);
                self.finish(ctx);
                proof {
                    assert(was_decoded.protocol.receives(nothing(), message, &p, told));
                }
            },
        }
    }

    /// A writable cycle: the protocol may offer something to write, and
    /// the transport is told that it may flush.
    pub fn writable(&mut self)
        ensures
            write_cycle(old(self)@, final(self)@),
    {
        let mut ctx = PipelineContext::<P::Output>::new();
        proof {
            assert(said(&ctx) == nothing::<P::Output>());
        }
        self.protocol.writable(&mut ctx);
        let ghost p = self@.protocol;
        let ghost told = said(&ctx);
        let close = ctx.close_requested();
        self.deliver(ctx.into());
        self.transport.writable();
        if close {
            self.tear_down(None);
        }
        proof {
            assert(old(self)@.protocol.offers(nothing(), &p, told));
        }
    }
}

/// A read that fails ends the connection and goes no further: when the
/// transport can only fail to read, the codec is not touched, and protocol
/// and transport are told that the connection is down, with the error.
pub proof fn lemma_failed_read_is_terminal<T, C, P>(
    pre: PipelineView<T, C, P>,
    post: PipelineView<T, C, P>,
) where T: Transport, C: Codec<T::Buffer>, P: Protocol<Input = C::Output, Output = C::Input>
    requires
        read_cycle(pre, post),
        forall|t: T, rd: Result<Seq<u8>, std::io::Error>| #[trigger]
            pre.transport.reads(&t, rd) ==> rd is Err,
    ensures
        post.codec == pre.codec,
        exists|t: T, e: std::io::Error|
            {
                &&& #[trigger] pre.transport.reads(&t, Err(e))
                &&& t.closes(Some(&e), &post.transport)
                &&& told_closed(pre.protocol, Some(&e), post.protocol)
            },
{
}

/// A message that is not complete yet is waited for: when the codec can
/// only ask for more data, nothing is consumed and the protocol is not
/// told; only the read of the transport and the attempt of the codec have
/// happened.
pub proof fn lemma_partial_message_waits<T, C, P>(
    pre: PipelineView<T, C, P>,
    post: PipelineView<T, C, P>,
) where T: Transport, C: Codec<T::Buffer>, P: Protocol<Input = C::Output, Output = C::Input>
    requires
        read_cycle(pre, post),
        forall|t: T, rd: Result<Seq<u8>, std::io::Error>| #[trigger]
            pre.transport.reads(&t, rd) ==> rd is Ok,
        forall|bytes: Seq<u8>, c: C, d: Option<(usize, C::Output)>| #[trigger]
            pre.codec.decodes(bytes, &c, d) ==> d is None,
    ensures
        post.protocol == pre.protocol,
        exists|bytes: Seq<u8>|
            {
                &&& #[trigger] pre.transport.reads(&post.transport, Ok(bytes))
                &&& pre.codec.decodes(bytes, &post.codec, None)
            },
{
    let (t, rd) = choose|t: T, rd: Result<Seq<u8>, std::io::Error>|
        {
            &&& #[trigger] pre.transport.reads(&t, rd)
            &&& match rd {
                Err(e) => torn_down(PipelineView { transport: t, ..pre }, Some(&e), post),
                Ok(bytes) => decoded(PipelineView { transport: t, ..pre }, bytes, post),
            }
        };
    let bytes = rd->Ok_0;
    assert(pre.transport.reads(&post.transport, Ok(bytes)));
}

/// A cycle without a scheduled write leaves the codec alone: when the
/// protocol can offer nothing and does not ask to close, a writable cycle
/// does no more than tell the protocol and let the transport flush.
pub proof fn lemma_nothing_offered<T, C, P>(pre: PipelineView<T, C, P>, post: PipelineView<T, C, P>) where
    T: Transport,
    C: Codec<T::Buffer>,
    P: Protocol<Input = C::Output, Output = C::Input>,

    requires
        write_cycle(pre, post),
        forall|p: P, now: Said<P::Output>| #[trigger]
            pre.protocol.offers(nothing(), &p, now) ==> now == nothing::<P::Output>(),
    ensures
        post.codec == pre.codec,
        pre.transport.flushes(&post.transport),
        pre.protocol.offers(nothing(), &post.protocol, nothing()),
{
}

} // verus!
