//! Chains of stages. A chain is a list whose type says which stage follows
//! which: what a stage reads out is what the next stage reads in, and what
//! the next stage writes out is what this stage writes in. Reads travel
//! down the chain, writes travel back up.
use std::marker::PhantomData;
use vstd::prelude::*;

use crate::error::other_error;
use crate::future::Promise;
use crate::pipeline::context::PipelineContext;
use crate::traits::nothing;
use crate::traits::said;
use crate::traits::Context;
use crate::traits::Said;

verus! {

/// The type without values, for the ends of a chain where nothing flows.
#[verifier::external_type_specification]
#[verifier::external_body]
pub struct ExVoid(void::Void);

/// One step of processing, inbound and outbound. `S` is the kind of socket
/// of the pipeline that the stage is made for.
pub trait Stage<S> {
    type ReadInput;

    type ReadOutput;

    type WriteInput;

    type WriteOutput;

    /// What `spawned` may do.
    open spec fn spawns(&self, after: &Self) -> bool {
        true
    }

    /// What `closed` may do.
    open spec fn closes(&self, after: &Self) -> bool {
        true
    }

    /// What `read` may do, return, and say through its context.
    open spec fn reads(
        &self,
        before: Said<Self::WriteOutput>,
        input: Self::ReadInput,
        after: &Self,
        now: Said<Self::WriteOutput>,
        out: Option<Self::ReadOutput>,
    ) -> bool {
        true
    }

    /// What `write` may do and return.
    open spec fn writes(
        &self,
        input: Self::WriteInput,
        promise: Promise<()>,
        after: &Self,
        out: Option<(Self::WriteOutput, Promise<()>)>,
    ) -> bool {
        true
    }

    /// What `writable` may do and return.
    open spec fn offers(&self, after: &Self, out: Option<(Self::WriteOutput, Promise<()>)>) -> bool {
        true
    }

    /// Called once when the stage becomes active.
    fn spawned<C>(&mut self, ctx: &mut C) where C: Context
        ensures
            old(self).spawns(final(self)),
    ;

    /// Called once when the pipeline is taken down.
    fn closed<C>(&mut self, ctx: &mut C) where C: Context
        ensures
            old(self).closes(final(self)),
    ;

    /// Inbound data. `None` keeps the data from the stages further down.
    fn read<C>(&mut self, ctx: &mut C, input: Self::ReadInput) -> (out: Option<
        Self::ReadOutput,
    >) where C: Context<Write = Self::WriteOutput>
        ensures
            old(self).reads(said(old(ctx)), input, final(self), said(final(ctx)), out),
    ;

    /// Outbound data on its way to the transport. The promise travels
    /// with the data; a stage that returns `None` has kept the promise and
    /// must set it.
    fn write<C>(&mut self, ctx: &mut C, input: Self::WriteInput, promise: Promise<()>) -> (out:
        Option<(Self::WriteOutput, Promise<()>)>) where C: Context
        ensures
            old(self).writes(input, promise, final(self), out),
    ;

    /// The socket can take data: the stage may come up with some of its
    /// own.
    fn writable<C>(&mut self, ctx: &mut C) -> (out: Option<
        (Self::WriteOutput, Promise<()>),
    >) where C: Context
        ensures
            old(self).offers(final(self), out),
    ;
}

/// A write that was scheduled where no write can be made: its promise is
/// set to an error, so that nobody waits for it forever.
pub fn abandon<W>(ctx: PipelineContext<W>) {
    match ctx.into() {
        Some((_, promise)) => promise.set(Err(other_error("no write can be scheduled here"))),
        None => {},
    }
}

/// A stage and the chain that follows it.
pub trait Chain<S>: Stage<S> {
    type Next: Stage<S, ReadInput = Self::ReadOutput, WriteOutput = Self::WriteInput>;

    /// What `read_through` may do and return.
    spec fn reads_through(
        &self,
        input: Self::ReadInput,
        after: &Self,
        out: Option<(Self::WriteOutput, Promise<()>)>,
    ) -> bool;

    /// What `writable_through` may do and return.
    spec fn offers_through(&self, after: &Self, out: Option<(Self::WriteOutput, Promise<()>)>) -> bool;

    /// What `spawned_through` may do.
    spec fn spawns_through(&self, after: &Self) -> bool;

    /// What `closed_through` may do.
    spec fn closes_through(&self, after: &Self) -> bool;

    /// What follows this stage in the chain, if anything does.
    spec fn next(&self) -> Option<Self::Next>;

    /// Sets the chain that follows.
    fn add_stage(&mut self, next: Self::Next);

    /// The chain that follows, if one was set.
    fn next_stage(&self) -> (next: Option<&Self::Next>)
        ensures
            match next {
                Some(n) => self.next() == Some(*n),
                None => self.next() is None,
            },
    ;

    /// The chain that follows, to be changed.
    fn next_stage_mut(&mut self) -> (next: Option<&mut Self::Next>)
        ensures
            match next {
                Some(n) => old(self).next() == Some(*n) && final(self).next() == Some(*final(n)),
                None => old(self).next() is None && final(self).next() is None,
            },
    ;

    /// Tells every stage, from this one down the chain, that it is
    /// active. A stage has nothing to write to yet: what it schedules is
    /// failed.
    fn spawned_through(&mut self)
        ensures
            old(self).spawns_through(final(self)),
    ;

    /// Tells every stage, from this one down the chain, that the pipeline
    /// is taken down. What a stage schedules now is failed.
    fn closed_through(&mut self)
        ensures
            old(self).closes_through(final(self)),
    ;

    /// A read cycle. The data goes to this stage; what the stage makes of
    /// it goes down the chain, until a stage returns `None` or the chain
    /// ends. A stage that schedules a write stops the data there, and the
    /// write travels up through the stages above it. Returns the write
    /// that is to leave the chain, if there is one.
    fn read_through(&mut self, input: Self::ReadInput) -> (out: Option<
        (Self::WriteOutput, Promise<()>),
    >)
        ensures
            old(self).reads_through(input, final(self), out),
    ;

    /// A writable cycle. The end of the chain is asked first whether it
    /// has something to write; what a stage further down has come up with
    /// travels up through `write`, and a stage that gets nothing from
    /// below is asked itself. Returns the write that is to leave the
    /// chain, if there is one.
    fn writable_through(&mut self) -> (out: Option<(Self::WriteOutput, Promise<()>)>)
        ensures
            old(self).offers_through(final(self), out),
    ;
}

impl<S> Stage<S> for () {
    type ReadInput = void::Void;

    type ReadOutput = void::Void;

    type WriteInput = void::Void;

    type WriteOutput = void::Void;

    /// Nothing is behind the end of a chain: what is read there goes no
    /// further.
    open spec fn reads(
        &self,
        before: Said<void::Void>,
        input: void::Void,
        after: &Self,
        now: Said<void::Void>,
        out: Option<void::Void>,
    ) -> bool {
        out is None && now == before
    }

    /// Nothing is written beyond the end of a chain.
    open spec fn writes(
        &self,
        input: void::Void,
        promise: Promise<()>,
        after: &Self,
        out: Option<(void::Void, Promise<()>)>,
    ) -> bool {
        out is None
    }

    /// Nothing has anything to write there.
    open spec fn offers(&self, after: &Self, out: Option<(void::Void, Promise<()>)>) -> bool {
        out is None
    }

    fn spawned<C>(&mut self, _ctx: &mut C) where C: Context {
    }

    fn closed<C>(&mut self, _ctx: &mut C) where C: Context {
    }

    fn read<C>(&mut self, _ctx: &mut C, _input: void::Void) -> (out: Option<void::Void>) where
        C: Context<Write = void::Void>,
     {
        None
    }

    fn write<C>(&mut self, _ctx: &mut C, _input: void::Void, promise: Promise<()>) -> (out: Option<
        (void::Void, Promise<()>),
    >) where C: Context {
        promise.set(Err(other_error("the chain has ended")));
        None
    }

    fn writable<C>(&mut self, _ctx: &mut C) -> (out: Option<(void::Void, Promise<()>)>) where
        C: Context,
     {
        None
    }
}

/// The end of a chain. It stands for the boundary of the pipeline: `R` is
/// what the last stage reads out, `W` what it writes in. Nothing flows
/// through the end itself.
#[derive(Debug)]
pub struct End<R, W> {
    read: PhantomData<R>,
    write: PhantomData<W>,
}

impl<R, W> End<R, W> {
    /// The end of a chain.
    pub fn new() -> End<R, W> {
        End { read: PhantomData, write: PhantomData }
    }
}

impl<S, R, W> Stage<S> for End<R, W> {
    type ReadInput = R;

    type ReadOutput = void::Void;

    type WriteInput = void::Void;

    type WriteOutput = W;

    /// The end takes what it is given and passes nothing on.
    open spec fn reads(
        &self,
        before: Said<W>,
        input: R,
        after: &Self,
        now: Said<W>,
        out: Option<void::Void>,
    ) -> bool {
        out is None && now == before
    }

    /// The end passes nothing up: a write that reaches it is not made.
    open spec fn writes(
        &self,
        input: void::Void,
        promise: Promise<()>,
        after: &Self,
        out: Option<(W, Promise<()>)>,
    ) -> bool {
        out is None && *after == *self
    }

    /// The end has nothing to write.
    open spec fn offers(&self, after: &Self, out: Option<(W, Promise<()>)>) -> bool {
        out is None
    }

    fn spawned<C>(&mut self, _ctx: &mut C) where C: Context {
    }

    fn closed<C>(&mut self, _ctx: &mut C) where C: Context {
    }

    fn read<C>(&mut self, _ctx: &mut C, _input: R) -> (out: Option<void::Void>) where
        C: Context<Write = W>,
     {
        None
    }

    fn write<C>(&mut self, _ctx: &mut C, _input: void::Void, promise: Promise<()>) -> (out: Option<
        (W, Promise<()>),
    >) where C: Context {
        promise.set(Err(other_error("the chain has ended")));
        None
    }

    fn writable<C>(&mut self, _ctx: &mut C) -> (out: Option<(W, Promise<()>)>) where C: Context {
        None
    }
}

impl<S, R, W> Chain<S> for End<R, W> {
    type Next = ();

    /// Nothing follows the end.
    open spec fn next(&self) -> Option<()> {
        None
    }

    open spec fn reads_through(&self, input: R, after: &Self, out: Option<(W, Promise<()>)>) -> bool {
        out is None
    }

    open spec fn offers_through(&self, after: &Self, out: Option<(W, Promise<()>)>) -> bool {
        out is None
    }

    open spec fn spawns_through(&self, after: &Self) -> bool {
        true
    }

    open spec fn closes_through(&self, after: &Self) -> bool {
        true
    }

    fn spawned_through(&mut self) {
    }

    fn closed_through(&mut self) {
    }

    fn add_stage(&mut self, _next: ()) {
    }

    fn next_stage(&self) -> (next: Option<&()>) {
        None
    }

    fn next_stage_mut(&mut self) -> (next: Option<&mut ()>) {
        None
    }

    fn read_through(&mut self, _input: R) -> (out: Option<(W, Promise<()>)>) {
        None
    }

    fn writable_through(&mut self) -> (out: Option<(W, Promise<()>)>) {
        None
    }
}

/// A link of a chain: a stage, and the chain that follows it once it has
/// been set.
#[derive(Debug)]
pub struct Linker<S1, S2> {
    stage: S1,
    next: Option<S2>,
}

/// The two parts of a link, as contracts see them.
pub struct LinkerView<S1, S2> {
    pub stage: S1,
    pub next: Option<S2>,
}

impl<S1, S2> Linker<S1, S2> {
    pub closed spec fn view(&self) -> LinkerView<S1, S2> {
        LinkerView { stage: self.stage, next: self.next }
    }

    /// A link that holds the stage and has nothing behind it yet.
    pub fn new(stage: S1) -> (linker: Linker<S1, S2>)
        ensures
            linker@ == (LinkerView { stage, next: None::<S2> }),
    {
        Linker { stage, next: None }
    }

    /// The stage of the link.
    pub fn stage(&self) -> (stage: &S1)
        ensures
            *stage == self@.stage,
    {
        &self.stage
    }
}

impl<S, S1: Stage<S>, S2> Stage<S> for Linker<S1, S2> {
    type ReadInput = S1::ReadInput;

    type ReadOutput = S1::ReadOutput;

    type WriteInput = S1::WriteInput;

    type WriteOutput = S1::WriteOutput;

    /// A link is spawned as its stage is.
    open spec fn spawns(&self, after: &Self) -> bool {
        self@.stage.spawns(&after@.stage) && after@.next == self@.next
    }

    /// A link is closed as its stage is.
    open spec fn closes(&self, after: &Self) -> bool {
        self@.stage.closes(&after@.stage) && after@.next == self@.next
    }

    /// A link reads as its stage does.
    open spec fn reads(
        &self,
        before: Said<S1::WriteOutput>,
        input: S1::ReadInput,
        after: &Self,
        now: Said<S1::WriteOutput>,
        out: Option<S1::ReadOutput>,
    ) -> bool {
        self@.stage.reads(before, input, &after@.stage, now, out) && after@.next == self@.next
    }

    /// A link writes as its stage does.
    open spec fn writes(
        &self,
        input: S1::WriteInput,
        promise: Promise<()>,
        after: &Self,
        out: Option<(S1::WriteOutput, Promise<()>)>,
    ) -> bool {
        self@.stage.writes(input, promise, &after@.stage, out) && after@.next == self@.next
    }

    /// A link offers what its stage does.
    open spec fn offers(&self, after: &Self, out: Option<(S1::WriteOutput, Promise<()>)>) -> bool {
        self@.stage.offers(&after@.stage, out) && after@.next == self@.next
    }

    fn spawned<C>(&mut self, ctx: &mut C) where C: Context {
        self.stage.spawned(ctx)
    }

    fn closed<C>(&mut self, ctx: &mut C) where C: Context {
        self.stage.closed(ctx)
    }

    fn read<C>(&mut self, ctx: &mut C, input: S1::ReadInput) -> (out: Option<S1::ReadOutput>) where
        C: Context<Write = S1::WriteOutput>,
     {
        self.stage.read(ctx, input)
    }

    fn write<C>(&mut self, ctx: &mut C, input: S1::WriteInput, promise: Promise<()>) -> (out:
        Option<(S1::WriteOutput, Promise<()>)>) where C: Context {
        self.stage.write(ctx, input, promise)
    }

    fn writable<C>(&mut self, ctx: &mut C) -> (out: Option<(S1::WriteOutput, Promise<()>)>) where
        C: Context,
     {
        self.stage.writable(ctx)
    }
}

/// A write from further down the chain went up through the stage.
pub open spec fn sent_up<S, S1: Stage<S>, S2>(
    stage: S1,
    next: Option<S2>,
    from_below: Option<(S1::WriteInput, Promise<()>)>,
    after: LinkerView<S1, S2>,
    out: Option<(S1::WriteOutput, Promise<()>)>,
) -> bool {
    match from_below {
        Some((w, promise)) => stage.writes(w, promise, &after.stage, out) && after.next == next,
        None => out is None && after == (LinkerView { stage, next }),
    }
}

/// What the stage read out went down the chain, and what came back went
/// up through the stage.
pub open spec fn passed_down<S, S1, S2>(
    stage: S1,
    next: S2,
    value: S1::ReadOutput,
    after: LinkerView<S1, S2>,
    out: Option<(S1::WriteOutput, Promise<()>)>,
) -> bool where
    S1: Stage<S>,
    S2: Stage<S, ReadInput = S1::ReadOutput, WriteOutput = S1::WriteInput> + Chain<S>,
 {
    exists|next_after: S2, from_below: Option<(S1::WriteInput, Promise<()>)>|
        {
            &&& #[trigger] next.reads_through(value, &next_after, from_below)
            &&& sent_up::<S, S1, S2>(stage, Some(next_after), from_below, after, out)
        }
}

/// A read cycle through a link.
pub open spec fn link_read<S, S1, S2>(
    pre: LinkerView<S1, S2>,
    input: S1::ReadInput,
    post: LinkerView<S1, S2>,
    out: Option<(S1::WriteOutput, Promise<()>)>,
) -> bool where
    S1: Stage<S>,
    S2: Stage<S, ReadInput = S1::ReadOutput, WriteOutput = S1::WriteInput> + Chain<S>,
 {
    exists|
        stage: S1,
        told: PipelineContext<S1::WriteOutput>,
        value: Option<S1::ReadOutput>,
    |
        {
            &&& #[trigger] pre.stage.reads(nothing(), input, &stage, said(&told), value)
            &&& match told.to_write() {
                Some(w) => out == Some(w) && post == (LinkerView { stage, next: pre.next }),
                None => match (value, pre.next) {
                    (Some(v), Some(next)) => passed_down::<S, S1, S2>(stage, next, v, post, out),
                    _ => out is None && post == (LinkerView { stage, next: pre.next }),
                },
            }
        }
}

/// The chain below was asked for a write; the stage passed it up or, if
/// there was none, was asked itself.
pub open spec fn link_offer<S, S1, S2>(
    pre: LinkerView<S1, S2>,
    post: LinkerView<S1, S2>,
    out: Option<(S1::WriteOutput, Promise<()>)>,
) -> bool where
    S1: Stage<S>,
    S2: Stage<S, ReadInput = S1::ReadOutput, WriteOutput = S1::WriteInput> + Chain<S>,
 {
    match pre.next {
        None => pre.stage.offers(&post.stage, out) && post.next == pre.next,
        Some(next) => exists|next_after: S2, from_below: Option<(S1::WriteInput, Promise<()>)>|
            {
                &&& #[trigger] next.offers_through(&next_after, from_below)
                &&& post.next == Some(next_after)
                &&& match from_below {
                    Some((w, promise)) => pre.stage.writes(w, promise, &post.stage, out),
                    None => pre.stage.offers(&post.stage, out),
                }
            },
    }
}

impl<S, S1, S2> Chain<S> for Linker<S1, S2> where
    S1: Stage<S>,
    S2: Stage<S, ReadInput = S1::ReadOutput, WriteOutput = S1::WriteInput> + Chain<S>,
 {
    type Next = S2;

    open spec fn next(&self) -> Option<S2> {
        self@.next
    }

    open spec fn reads_through(
        &self,
        input: S1::ReadInput,
        after: &Self,
        out: Option<(S1::WriteOutput, Promise<()>)>,
    ) -> bool {
        link_read::<S, S1, S2>(self@, input, after@, out)
    }

    open spec fn offers_through(
        &self,
        after: &Self,
        out: Option<(S1::WriteOutput, Promise<()>)>,
    ) -> bool {
        link_offer::<S, S1, S2>(self@, after@, out)
    }

    /// The stage is told, then the chain behind it.
    open spec fn spawns_through(&self, after: &Self) -> bool {
        &&& self@.stage.spawns(&after@.stage)
        &&& match self@.next {
            Some(next) => after@.next matches Some(next_after) && next.spawns_through(&next_after),
            None => after@.next is None,
        }
    }

    /// The stage is told, then the chain behind it.
    open spec fn closes_through(&self, after: &Self) -> bool {
        &&& self@.stage.closes(&after@.stage)
        &&& match self@.next {
            Some(next) => after@.next matches Some(next_after) && next.closes_through(&next_after),
            None => after@.next is None,
        }
    }

    fn spawned_through(&mut self) {
        let mut ctx = PipelineContext::<S1::WriteOutput>::new();
        self.stage.spawned(&mut ctx);
        abandon(ctx);
        match self.next.as_mut() {
            Some(next) => next.spawned_through(),
            None => {},
        }
    }

    fn closed_through(&mut self) {
        let mut ctx = PipelineContext::<S1::WriteOutput>::new();
        self.stage.closed(&mut ctx);
        abandon(ctx);
        match self.next.as_mut() {
            Some(next) => next.closed_through(),
            None => {},
        }
    }

    fn add_stage(&mut self, next: S2)
        ensures
            final(self)@ == (LinkerView { stage: old(self)@.stage, next: Some(next) }),
    {
        self.next = Some(next);
    }

    fn next_stage(&self) -> (next: Option<&S2>)
        ensures
            match next {
                Some(n) => self@.next == Some(*n),
                None => self@.next is None,
            },
    {
        self.next.as_ref()
    }

    fn next_stage_mut(&mut self) -> (next: Option<&mut S2>)
        ensures
            match next {
                Some(n) => old(self)@.next == Some(*n) && final(self)@ == (LinkerView {
                    stage: old(self)@.stage,
                    next: Some(*final(n)),
                }),
                None => old(self)@.next is None && final(self)@ == old(self)@,
            },
    {
        self.next.as_mut()
    }

    fn read_through(&mut self, input: S1::ReadInput) -> (out: Option<
        (S1::WriteOutput, Promise<()>),
    >) {
        let mut ctx = PipelineContext::<S1::WriteOutput>::new();
        let value = self.stage.read(&mut ctx, input);
        let ghost stage = self@.stage;
        let ghost told = ctx;
        proof {
            assert(old(self)@.stage.reads(nothing(), input, &stage, said(&told), value));
        }
        match ctx.into() {
            Some(w) => Some(w),
            None => match value {
                None => None,
                Some(v) => {
                    let from_below = match self.next.as_mut() {
                        None => {
                            return None;
                        },
                        Some(next) => next.read_through(v),
                    };
                    let out = match from_below {
                        None => None,
                        Some((w, promise)) => {
                            let mut up = PipelineContext::<S1::WriteOutput>::new();
                            let out = self.stage.write(&mut up, w, promise);
                            abandon(up);
                            out
                        },
                    };
                    out
                },
            },
        }
    }

    fn writable_through(&mut self) -> (out: Option<(S1::WriteOutput, Promise<()>)>) {
        let from_below = match self.next.as_mut() {
            Some(next) => next.writable_through(),
            None => None,
        };
        let mut ctx = PipelineContext::<S1::WriteOutput>::new();
        let out = match from_below {
            Some((w, promise)) => self.stage.write(&mut ctx, w, promise),
            None => self.stage.writable(&mut ctx),
        };
        abandon(ctx);
        out
    }
}

/// A stage that keeps the data stops the read: when the stage can only
/// return `None` without scheduling a write, the chain behind it is not
/// touched and no write leaves the chain.
pub proof fn lemma_read_stops<S, S1, S2>(
    pre: LinkerView<S1, S2>,
    input: S1::ReadInput,
    post: LinkerView<S1, S2>,
    out: Option<(S1::WriteOutput, Promise<()>)>,
) where
    S1: Stage<S>,
    S2: Stage<S, ReadInput = S1::ReadOutput, WriteOutput = S1::WriteInput> + Chain<S>,

    requires
        link_read::<S, S1, S2>(pre, input, post, out),
        forall|stage: S1, now: Said<S1::WriteOutput>, value: Option<S1::ReadOutput>| #[trigger]
            pre.stage.reads(nothing(), input, &stage, now, value) ==> value is None
                && now.scheduled is None,
    ensures
        out is None,
        post.next == pre.next,
{
}

/// A stage that answers a read with a write turns the cycle around: when
/// the stage can only schedule a write, that write leaves the chain as it
/// is and the chain behind the stage is not touched, whatever the stage
/// read out.
pub proof fn lemma_write_turns_read<S, S1, S2>(
    pre: LinkerView<S1, S2>,
    input: S1::ReadInput,
    post: LinkerView<S1, S2>,
    out: Option<(S1::WriteOutput, Promise<()>)>,
) where
    S1: Stage<S>,
    S2: Stage<S, ReadInput = S1::ReadOutput, WriteOutput = S1::WriteInput> + Chain<S>,

    requires
        link_read::<S, S1, S2>(pre, input, post, out),
        forall|stage: S1, now: Said<S1::WriteOutput>, value: Option<S1::ReadOutput>| #[trigger]
            pre.stage.reads(nothing(), input, &stage, now, value) ==> now.scheduled is Some,
    ensures
        out is Some,
        post.next == pre.next,
{
}

/// In a chain that ends behind the stage, a read goes no further than the
/// stage: no write leaves the chain unless the stage scheduled it.
pub proof fn lemma_last_stage_reads<S, S1, S2>(
    pre: LinkerView<S1, S2>,
    input: S1::ReadInput,
    post: LinkerView<S1, S2>,
    out: Option<(S1::WriteOutput, Promise<()>)>,
) where
    S1: Stage<S>,
    S2: Stage<S, ReadInput = S1::ReadOutput, WriteOutput = S1::WriteInput> + Chain<S>,

    requires
        link_read::<S, S1, S2>(pre, input, post, out),
        pre.next is None,
        forall|stage: S1, now: Said<S1::WriteOutput>, value: Option<S1::ReadOutput>| #[trigger]
            pre.stage.reads(nothing(), input, &stage, now, value) ==> now.scheduled is None,
    ensures
        out is None,
        post.next is None,
{
}

} // verus!
