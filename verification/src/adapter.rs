//! The adapter: an iterator over the successes of an iterator of `Result`s
//! that stops at the first error and keeps it.

use vstd::prelude::*;
use vstd::std_specs::iter::IteratorSpec;
use vstd::std_specs::iter::IteratorSpecImpl;
use crate::model::overall_outcome;
use crate::model::settle;
use crate::model::AdapterState;

verus! {

/// The iterator produced by [`TryContinue::try_continue`](crate::TryContinue::try_continue),
/// which is passed to the given closure.
///
/// It owns the underlying iterator and a slot for the first error that the
/// underlying iterator yields. The slot is written at most once: with an
/// error in it, `next` asks the underlying iterator for nothing more.
pub struct TryContinueIter<I, E> {
    iter: I,
    err: Option<E>,
}

impl<I, E> TryContinueIter<I, E> {
    /// The underlying iterator, as it stands.
    pub closed spec fn inner(&self) -> I {
        self.iter
    }

    /// The captured-error slot.
    pub closed spec fn captured(&self) -> Option<E> {
        self.err
    }

    /// Wraps `iter`, with the slot empty.
    pub fn new(iter: I) -> (adapter: Self)
        ensures
            adapter.inner() == iter,
            adapter.captured() is None,
    {
        TryContinueIter { iter, err: None }
    }

    /// Ends a run: gives the captured error if there is one, and otherwise
    /// `output`, the value that the caller computed from the payloads.
    pub fn finish<R>(self, output: R) -> (res: Result<R, E>)
        ensures
            res == overall_outcome(self.captured(), output),
    {
        match self.err {
            Some(e) => Err(e),
            None => Ok(output),
        }
    }
}

impl<T, E, I: Iterator<Item = Result<T, E>>> Iterator for TryContinueIter<I, E> {
    type Item = T;

    /// One production request.
    ///
    /// With an error in the slot, the adapter signals the end and is left
    /// exactly as it was, the underlying iterator included. With the slot
    /// empty, the underlying iterator is asked once, and [`settle`] says what
    /// becomes of its answer. Where the underlying iterator keeps to what it
    /// foretells, this is one step of [`AdapterState`].
    fn next(&mut self) -> (item: Option<T>)
        ensures
            old(self).captured() is Some ==> item is None && *final(self) == *old(self),
            old(self).captured() is None ==> exists|underlying: &mut I, answer: Option<Result<T, E>>|
                (*underlying == old(self).inner()
                    && *final(underlying) == final(self).inner()
                    && #[trigger] call_ensures(I::next, (underlying,), answer)
                    && (item, final(self).captured()) == settle(answer)),
            old(self).inner().obeys_prophetic_iter_laws() ==> ({
                let before = (AdapterState {
                    pending: old(self).inner().remaining(),
                    captured: old(self).captured(),
                });
                let after = (AdapterState {
                    pending: final(self).inner().remaining(),
                    captured: final(self).captured(),
                });
                item == before.next_item() && after == before.advance()
            }),
    {
        if self.err.is_some() {
            return None;
        }
        match self.iter.next() {
            Some(Ok(value)) => Some(value),
            Some(Err(err)) => {
                self.err = Some(err);
                None
            },
            None => None,
        }
    }
}

/// What the adapter will hand out hangs on what the underlying iterator will
/// yield, and that is known only as a prophecy, which no plain spec function
/// may read. So the adapter makes no claim under the prophetic iterator laws:
/// the contract of `next` says what it does.
impl<T, E, I: Iterator<Item = Result<T, E>>> IteratorSpecImpl for TryContinueIter<I, E> {
    open spec fn obeys_prophetic_iter_laws(&self) -> bool {
        false
    }

    open spec fn remaining(&self) -> Seq<T> {
        Seq::empty()
    }

    open spec fn will_return_none(&self) -> bool {
        false
    }

    open spec fn decrease(&self) -> Option<nat> {
        None
    }

    open spec fn initial_value_relation(&self, init: &Self) -> bool {
        true
    }

    open spec fn peek(&self, index: int) -> Option<T> {
        None
    }
}

} // verus!
