//! A protocol that answers everything with the same bytes.
use vstd::prelude::*;
use vstd::slice::slice_to_vec;

use crate::codec::fixed_length::append_bytes;
use crate::future::Future;
use crate::traits::Context;
use crate::traits::Protocol;
use crate::traits::Said;

verus! {

/// A protocol over byte strings. It records what it receives and what it
/// is told, and whenever it may write it schedules a copy of `output`.
pub struct FakeProtocol {
    pub input: Vec<u8>,
    pub output: Vec<u8>,
    pub future: Option<Future<()>>,
    pub spawned: bool,
    pub closed: bool,
}

impl FakeProtocol {
    /// A protocol that has seen nothing and has nothing to say.
    pub fn new() -> (p: FakeProtocol)
        ensures
            p.input@.len() == 0,
            p.output@.len() == 0,
            p.future is None,
            !p.spawned,
            !p.closed,
    {
        FakeProtocol {
            input: Vec::new(),
            output: Vec::new(),
            future: None,
            spawned: false,
            closed: false,
        }
    }

    /// Schedules a copy of `output` and keeps the future of the write.
    fn answer<C>(&mut self, ctx: &mut C) where C: Context<Write = Vec<u8>>
        ensures
            answered(*old(self), crate::traits::said(old(ctx)), *final(self), crate::traits::said(
                final(ctx),
            )),
            final(self).input == old(self).input,
    {
        let copy = slice_to_vec(self.output.as_slice());
        match ctx.write(copy) {
            Ok(future) => {
                self.future = Some(future);
            },
            Err(_) => {},
        }
    }
}

/// The protocol has tried to schedule a copy of its output: a context that
/// was free holds the copy now, a context that was taken is as before.
pub open spec fn answered(
    pre: FakeProtocol,
    before: Said<Vec<u8>>,
    post: FakeProtocol,
    now: Said<Vec<u8>>,
) -> bool {
    &&& post.output == pre.output
    &&& post.spawned == pre.spawned
    &&& post.closed == pre.closed
    &&& now.closing == before.closing
    &&& match before.scheduled {
        Some(_) => now.scheduled == before.scheduled && post.future == pre.future,
        None => now.scheduled matches Some(copy) && copy@ == pre.output@ && post.future is Some,
    }
}

impl Protocol for FakeProtocol {
    type Output = Vec<u8>;

    type Input = Vec<u8>;

    /// The protocol notes that it was spawned.
    open spec fn spawns(&self, before: Said<Vec<u8>>, after: &Self, now: Said<Vec<u8>>) -> bool {
        &&& now == before
        &&& after.spawned
        &&& after.closed == self.closed
        &&& after.input == self.input
        &&& after.output == self.output
        &&& after.future == self.future
    }

    /// The protocol notes that it was closed.
    open spec fn closes(
        &self,
        before: Said<Vec<u8>>,
        err: Option<&std::io::Error>,
        after: &Self,
        now: Said<Vec<u8>>,
    ) -> bool {
        &&& now == before
        &&& after.closed
        &&& after.spawned == self.spawned
        &&& after.input == self.input
        &&& after.output == self.output
        &&& after.future == self.future
    }

    /// The protocol records the data and answers.
    open spec fn receives(
        &self,
        before: Said<Vec<u8>>,
        data: Vec<u8>,
        after: &Self,
        now: Said<Vec<u8>>,
    ) -> bool {
        &&& after.input@ == self.input@ + data@
        &&& answered(*self, before, *after, now)
    }

    /// The protocol answers.
    open spec fn offers(&self, before: Said<Vec<u8>>, after: &Self, now: Said<Vec<u8>>) -> bool {
        &&& after.input == self.input
        &&& answered(*self, before, *after, now)
    }

    fn spawned<C>(&mut self, ctx: &mut C) where C: Context<Write = Vec<u8>> {
        self.spawned = true;
    }

    fn closed<C>(&mut self, ctx: &mut C, err: Option<&std::io::Error>) where
        C: Context<Write = Vec<u8>>,
     {
        self.closed = true;
    }

    fn received_data<C>(&mut self, ctx: &mut C, data: Vec<u8>) where C: Context<Write = Vec<u8>> {
        append_bytes(&mut self.input, data.as_slice());
        self.answer(ctx);
    }

    fn writable<C>(&mut self, ctx: &mut C) where C: Context<Write = Vec<u8>> {
        self.answer(ctx);
    }
}

} // verus!
