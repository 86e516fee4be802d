//! Jobs: single-shot units of work a worker runs.

use vstd::prelude::*;

verus! {

/// A unit of work for the work group. `run` is called exactly once by the
/// worker that dequeued the job; a job that must hand a result back does so
/// by side effect through state its callable captures.
pub trait Job: Send {
    fn run(&self);
}

/// A fire-and-forget job wrapping a callable.
pub struct SingleJob<TFuncType: Fn()> {
    func: TFuncType,
}

impl<TFuncType: Fn()> SingleJob<TFuncType> {
    /// The wrapped callable stays callable: established at construction,
    /// relied on by `run`.
    #[verifier::type_invariant]
    spec fn func_callable(self) -> bool {
        self.func.requires(())
    }

    pub fn new(func: TFuncType) -> Self
        requires
            func.requires(()),
    {
        SingleJob { func }
    }
}

impl<TFuncType: Fn() + Send> Job for SingleJob<TFuncType> {
    fn run(&self) {
        proof {
            use_type_invariant(self);
        }
        (self.func)();
    }
}

/// A job wrapping a callable that produces a value. The work group carries
/// no per-job result channel, so the value is dropped when the job runs;
/// callers that need results write them through shared state instead.
#[verifier::reject_recursive_types(TResultType)]
pub struct ProducingJob<TResultType, TFuncType: Fn() -> TResultType> {
    func: TFuncType,
    result_type: core::marker::PhantomData<TResultType>,
}

impl<TResultType, TFuncType: Fn() -> TResultType> ProducingJob<TResultType, TFuncType> {
    /// The wrapped callable stays callable: established at construction,
    /// relied on by `run`.
    #[verifier::type_invariant]
    spec fn func_callable(self) -> bool {
        self.func.requires(())
    }

    pub fn new(func: TFuncType) -> Self
        requires
            func.requires(()),
    {
        ProducingJob { func, result_type: core::marker::PhantomData }
    }
}

impl<TResultType: Send, TFuncType: Fn() -> TResultType + Send> Job for ProducingJob<
    TResultType,
    TFuncType,
> {
    fn run(&self) {
        proof {
            use_type_invariant(self);
        }
        let _ = (self.func)();
    }
}

} // verus!
