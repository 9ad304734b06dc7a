//! Running a computation once and reusing its result.

use vstd::prelude::*;

verus! {

/// Runs `callback` on `args` and hands back what it returned.
pub fn use_memo<F, A, R>(callback: F, args: &[A]) -> (r: R)
    where
        F: FnOnce(&[A]) -> R,
    requires
        callback.requires((args,)),
    ensures
        callback.ensures((args,), r),
{
    callback(args)
}

/// A computation prepared with its arguments; the first `exec` runs it and
/// every later one returns the stored result.
#[verifier::reject_recursive_types(A)]
#[verifier::reject_recursive_types(R)]
pub struct Computation<A, R, F: Fn(&A) -> R> {
    callback: F,
    args: A,
    result: R,
    use_cached: bool,
}

impl<A, R: Default, F: Fn(&A) -> R> Computation<A, R, F> {
    pub closed spec fn callback(&self) -> F {
        self.callback
    }

    pub closed spec fn args(&self) -> A {
        self.args
    }

    pub closed spec fn result(&self) -> R {
        self.result
    }

    /// Whether the computation has run.
    pub closed spec fn is_cached(&self) -> bool {
        self.use_cached
    }

    /// A computation that has not run yet.
    pub fn prepare(callback: F, args: A) -> (r: Self)
        ensures
            r.callback() == callback,
            r.args() == args,
            !r.is_cached(),
    {
        Computation { callback, args, result: R::default(), use_cached: false }
    }

    /// The computation's result: computed by the callback on the first call,
    /// the stored one afterwards.
    pub fn exec(&mut self) -> (r: &R)
        requires
            !old(self).is_cached() ==> old(self).callback().requires((&old(self).args(),)),
        ensures
            final(self).is_cached(),
            final(self).callback() == old(self).callback(),
            final(self).args() == old(self).args(),
            *r == final(self).result(),
            old(self).is_cached() ==> final(self).result() == old(self).result(),
            !old(self).is_cached() ==> old(self).callback().ensures((&old(self).args(),), final(self).result()),
    {
        if !self.use_cached {
            let computation_result = (self.callback)(&self.args);
            self.use_cached = true;
            self.result = computation_result;
        }
        &self.result
    }
}

} // verus!
