//! The context that a pipeline hands to its protocol.
use vstd::prelude::*;

use crate::future::pair;
use crate::future::Future;
use crate::future::Promise;
use crate::traits::write_step;
use crate::traits::Context;

verus! {

/// The context of one call of a protocol hook: room for one object to be
/// written, with the promise to be kept when it has been written, and a
/// note of whether the hook asked to close.
pub struct PipelineContext<W> {
    to_write: Option<(W, Promise<()>)>,
    close: bool,
}

/// The object of a scheduled write.
pub open spec fn object_of<W>(to_write: Option<(W, Promise<()>)>) -> Option<W> {
    match to_write {
        Some((obj, _)) => Some(obj),
        None => None,
    }
}

impl<W> PipelineContext<W> {
    /// The scheduled write: the object and the promise that goes with it.
    pub closed spec fn to_write(&self) -> Option<(W, Promise<()>)> {
        self.to_write
    }

    /// Whether the hook asked to close.
    pub closed spec fn close_asked(&self) -> bool {
        self.close
    }

    /// The context through which nothing has been scheduled or asked.
    pub closed spec fn fresh() -> PipelineContext<W> {
        PipelineContext { to_write: None, close: false }
    }

    /// A context through which nothing has been scheduled or asked.
    pub fn new() -> (ctx: PipelineContext<W>)
        ensures
            ctx == Self::fresh(),
            ctx.to_write() is None,
            !ctx.close_asked(),
    {
        PipelineContext { to_write: None, close: false }
    }

    /// Whether the hook asked to close.
    pub fn close_requested(&self) -> (b: bool)
        ensures
            b == self.close_asked(),
    {
        self.close
    }

    /// Ends the context and hands out what was scheduled.
    pub fn into(self) -> (w: Option<(W, Promise<()>)>)
        ensures
            w == self.to_write(),
    {
        self.to_write
    }
}

impl<W> Context for PipelineContext<W> {
    type Write = W;

    open spec fn scheduled(&self) -> Option<W> {
        object_of(self.to_write())
    }

    open spec fn closing(&self) -> bool {
        self.close_asked()
    }

    fn write(&mut self, obj: W) -> (r: Result<Future<()>, W>)
        ensures
            match r {
                Ok(future) => final(self).to_write() matches Some((o, promise)) && o == obj
                    && promise.fills(&future),
                Err(_) => final(self).to_write() == old(self).to_write(),
            },
    {
        if self.to_write.is_some() {
            return Err(obj);
        }
        let (promise, future) = pair();
        self.to_write = Some((obj, promise));
        Ok(future)
    }

    fn close(&mut self) {
        self.close = true;
    }
}

} // verus!
