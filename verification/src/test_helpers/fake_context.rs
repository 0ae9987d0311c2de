//! A context for hooks that have nothing to write.
use vstd::prelude::*;

use crate::future::Future;
use crate::pipeline::context::PipelineContext;
use crate::traits::Context;

verus! {

/// A context whose writes carry no data.
pub struct FakeContext {
    inner: PipelineContext<()>,
}

impl FakeContext {
    /// The context inside.
    pub closed spec fn inner(&self) -> PipelineContext<()> {
        self.inner
    }

    /// A context through which nothing has been scheduled or asked.
    pub fn new() -> (ctx: FakeContext)
        ensures
            ctx.scheduled() is None,
            !ctx.closing(),
    {
        FakeContext { inner: PipelineContext::new() }
    }
}

impl Context for FakeContext {
    type Write = ();

    open spec fn scheduled(&self) -> Option<()> {
        self.inner().scheduled()
    }

    open spec fn closing(&self) -> bool {
        self.inner().closing()
    }

    fn write(&mut self, obj: ()) -> (r: Result<Future<()>, ()>) {
        self.inner.write(obj)
    }

    fn close(&mut self) {
        self.inner.close()
    }
}

} // verus!
