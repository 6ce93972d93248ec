//! The entry operation, on every iterator of `Result`s.

use vstd::prelude::*;
use crate::adapter::TryContinueIter;
use crate::model::overall_outcome;

verus! {

/// Provides the [`TryContinue::try_continue`] method, which allows use of the
/// iterator API after mapping to fallible functions.
pub trait TryContinue<T, E>: Iterator<Item = Result<T, E>> {
    /// Lets `f` process an iterator of `Result<T, E>` as if it were an
    /// iterator of `T`. The iterator that `f` is given stops at the first
    /// `Err` element that it meets.
    ///
    /// `f` is called once, on a new adapter around `self`. If the adapter
    /// holds an error when `f` returns, that error is the result and the
    /// value that `f` returned is dropped; otherwise the result is that value.
    fn try_continue<F, R>(self, f: F) -> (res: Result<R, E>)
        where
            Self: Sized,
            F: FnOnce(&mut TryContinueIter<Self, E>) -> R,
        requires
            forall|a: &mut TryContinueIter<Self, E>|
                a.inner() == self && a.captured() is None ==> call_requires(f, (a,)),
        ensures
            exists|a: &mut TryContinueIter<Self, E>, output: R|
                (a.inner() == self
                    && a.captured() is None
                    && #[trigger] call_ensures(f, (a,), output)
                    && res == overall_outcome(final(a).captured(), output)),
    {
        let mut iter = TryContinueIter::new(self);
        let iteration_output = f(&mut iter);
        iter.finish(iteration_output)
    }
}

impl<T, E, I: Iterator<Item = Result<T, E>>> TryContinue<T, E> for I {}

} // verus!
