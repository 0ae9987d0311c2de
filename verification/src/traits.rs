//! The parts that a pipeline is made of. Each part is somebody else's code;
//! what the pipeline may rely on is a relation per operation, between the
//! part before the call, what went in, the part after the call and what came
//! out. The pipeline's own contracts are stated over these relations.
//!
//! A part that says nothing of an operation gets the relation that allows
//! everything; a part that wants its users to know more states its own.
use vstd::prelude::*;

use crate::future::Future;

verus! {

/// What `Transport::read` returned, with the bytes as a sequence.
pub open spec fn read_view(r: Result<&[u8], std::io::Error>) -> Result<Seq<u8>, std::io::Error> {
    match r {
        Ok(bytes) => Ok(bytes@),
        Err(e) => Err(e),
    }
}

/// Owns the socket.
pub trait Transport {
    /// Where encoded bytes go on their way to the socket.
    type Buffer;

    /// `buffer` lent out `lent`; the loan came back as `returned`, and the
    /// transport is then `after`.
    open spec fn lends(&self, lent: &Self::Buffer, returned: &Self::Buffer, after: &Self) -> bool {
        true
    }

    /// What `spawned` may do.
    open spec fn spawns(&self, after: &Self) -> bool {
        true
    }

    /// What `closed` may do.
    open spec fn closes(&self, err: Option<&std::io::Error>, after: &Self) -> bool {
        true
    }

    /// What `read` may do, and the unread bytes or the error it may give.
    open spec fn reads(&self, after: &Self, r: Result<Seq<u8>, std::io::Error>) -> bool {
        true
    }

    /// What `consume` may do.
    open spec fn consumes(&self, bytes: usize, after: &Self) -> bool {
        true
    }

    /// What `writable` may do.
    open spec fn flushes(&self, after: &Self) -> bool {
        true
    }

    /// The buffer that carries data to the socket. Codecs write into it
    /// directly.
    fn buffer(&mut self) -> (b: &mut Self::Buffer)
        ensures
            old(self).lends(&*b, final(b), final(self)),
    ;

    /// Called once the connection is up.
    fn spawned(&mut self)
        ensures
            old(self).spawns(final(self)),
    ;

    /// Called once the connection is down, with the error that brought it
    /// down if there was one.
    fn closed(&mut self, err: Option<&std::io::Error>)
        ensures
            old(self).closes(err, final(self)),
    ;

    /// Reads what the socket has, and returns all bytes that were read and
    /// not yet consumed.
    fn read(&mut self) -> (r: Result<&[u8], std::io::Error>)
        ensures
            old(self).reads(final(self), read_view(r)),
    ;

    /// Told that the first `bytes` unread bytes have been used.
    fn consume(&mut self, bytes: usize)
        ensures
            old(self).consumes(bytes, final(self)),
    ;

    /// Called when the socket can take data again.
    fn writable(&mut self)
        ensures
            old(self).flushes(final(self)),
    ;
}

/// Turns messages into bytes in a buffer of kind `B`, and bytes into
/// messages.
pub trait Codec<B> {
    type Input;

    type Output;

    /// What `encode` may do with the buffer, and whether it may succeed.
    open spec fn encodes(
        &self,
        buffer: &B,
        input: Self::Input,
        after: &Self,
        buffer_after: &B,
        ok: bool,
    ) -> bool {
        true
    }

    /// What `decode` may return for the bytes.
    open spec fn decodes(&self, bytes: Seq<u8>, after: &Self, r: Option<(usize, Self::Output)>) -> bool {
        true
    }

    /// Writes the encoded input to the buffer.
    fn encode(&mut self, buffer: &mut B, input: Self::Input) -> (r: Result<(), std::io::Error>)
        ensures
            old(self).encodes(old(buffer), input, final(self), final(buffer), r is Ok),
    ;

    /// Decodes one message from the front of the bytes. `None` means that
    /// more bytes are needed; otherwise the number of bytes used comes with
    /// the message.
    fn decode(&mut self, buffer: &[u8]) -> (r: Option<(usize, Self::Output)>)
        ensures
            old(self).decodes(buffer@, final(self), r),
    ;
}

/// What a protocol hook is handed to talk back to its pipeline: one write
/// per call of the hook, and a request to close.
pub trait Context {
    type Write;

    /// The object that waits to be written.
    spec fn scheduled(&self) -> Option<Self::Write>;

    /// Whether the hook has asked for the connection to be closed.
    spec fn closing(&self) -> bool;

    /// Schedules the object to be written. Only the first call succeeds;
    /// any later call hands its object back and changes nothing.
    fn write(&mut self, obj: Self::Write) -> (r: Result<Future<()>, Self::Write>)
        ensures
            final(self).closing() == old(self).closing(),
            final(self).scheduled() == write_step(old(self).scheduled(), obj).0,
            match write_step(old(self).scheduled(), obj).1 {
                Some(back) => r matches Err(o) && o == back,
                None => r is Ok,
            },
    ;

    /// Asks for the connection to be closed once the hook has returned.
    fn close(&mut self)
        ensures
            final(self).closing(),
            final(self).scheduled() == old(self).scheduled(),
    ;
}

/// What one call of `Context::write` does to the slot of the context: the
/// slot afterwards, and the object that is handed back if the call is
/// refused.
pub open spec fn write_step<W>(slot: Option<W>, obj: W) -> (Option<W>, Option<W>) {
    match slot {
        Some(_) => (slot, Some(obj)),
        None => (Some(obj), None),
    }
}

/// A context takes one write. Whatever it held before a first write, a
/// second write leaves it as it was and hands its object back untouched;
/// and the first write to an empty context is accepted.
pub proof fn lemma_single_write<W>(slot: Option<W>, x: W, y: W)
    ensures
        write_step(None, x) == (Some(x), None::<W>),
        write_step(write_step(slot, x).0, y) == (write_step(slot, x).0, Some(y)),
{
}

/// What a hook has said through its context: the object it scheduled to be
/// written, and whether it asked to close.
pub struct Said<W> {
    pub scheduled: Option<W>,
    pub closing: bool,
}

/// What has been said through a context.
pub open spec fn said<C: Context>(ctx: &C) -> Said<C::Write> {
    Said { scheduled: ctx.scheduled(), closing: ctx.closing() }
}

/// What has been said through a context that is fresh.
pub open spec fn nothing<W>() -> Said<W> {
    Said { scheduled: None, closing: false }
}

/// The application on top of a pipeline.
pub trait Protocol {
    type Output;

    type Input;

    /// What `spawned` may do, and what it may say through its context.
    open spec fn spawns(
        &self,
        before: Said<Self::Output>,
        after: &Self,
        now: Said<Self::Output>,
    ) -> bool {
        true
    }

    /// What `closed` may do, and what it may say through its context.
    open spec fn closes(
        &self,
        before: Said<Self::Output>,
        err: Option<&std::io::Error>,
        after: &Self,
        now: Said<Self::Output>,
    ) -> bool {
        true
    }

    /// What `received_data` may do, and what it may say through its
    /// context.
    open spec fn receives(
        &self,
        before: Said<Self::Output>,
        data: Self::Input,
        after: &Self,
        now: Said<Self::Output>,
    ) -> bool {
        true
    }

    /// What `writable` may do, and what it may say through its context.
    open spec fn offers(
        &self,
        before: Said<Self::Output>,
        after: &Self,
        now: Said<Self::Output>,
    ) -> bool {
        true
    }

    /// Called once the connection is up.
    fn spawned<C>(&mut self, ctx: &mut C) where C: Context<Write = Self::Output>
        ensures
            old(self).spawns(said(old(ctx)), final(self), said(final(ctx))),
    ;

    /// Called once the connection is down, with the error that brought it
    /// down if there was one.
    fn closed<C>(&mut self, ctx: &mut C, err: Option<&std::io::Error>) where
        C: Context<Write = Self::Output>,

        ensures
            old(self).closes(said(old(ctx)), err, final(self), said(final(ctx))),
    ;

    /// Called with every message that arrives.
    fn received_data<C>(&mut self, ctx: &mut C, data: Self::Input) where
        C: Context<Write = Self::Output>,

        ensures
            old(self).receives(said(old(ctx)), data, final(self), said(final(ctx))),
    ;

    /// Called when the socket can take data again.
    fn writable<C>(&mut self, ctx: &mut C) where C: Context<Write = Self::Output>
        ensures
            old(self).offers(said(old(ctx)), final(self), said(final(ctx))),
    ;
}

} // verus!
