//! Sequences of outcomes, and an adapter's progress through one.

use vstd::prelude::*;

verus! {

/// The number of successes that lead `s`: the position of its first error,
/// or its length when it holds no error.
pub open spec fn ok_len<T, E>(s: Seq<Result<T, E>>) -> nat
    decreases s.len(),
{
    if s.len() == 0 || s[0] is Err {
        0
    } else {
        1 + ok_len(s.drop_first())
    }
}

/// No element of `s` is an error.
pub open spec fn error_free<T, E>(s: Seq<Result<T, E>>) -> bool {
    forall|i: int| 0 <= i < s.len() ==> (#[trigger] s[i]) is Ok
}

/// The error carried by the first error element of `s`, if it has one.
pub open spec fn first_err<T, E>(s: Seq<Result<T, E>>) -> Option<E> {
    if ok_len(s) < s.len() {
        Some(s[ok_len(s) as int]->Err_0)
    } else {
        None
    }
}

/// The payloads of the successes that come before the first error of `s`.
pub open spec fn ok_prefix<T, E>(s: Seq<Result<T, E>>) -> Seq<T> {
    Seq::new(ok_len(s), |i: int| s[i]->Ok_0)
}

/// What the adapter makes of one answer of the underlying sequence: what it
/// hands out, and what it leaves in the captured-error slot. A success is
/// handed out; an error is kept and ends the sequence; the end is the end.
pub open spec fn settle<T, E>(answer: Option<Result<T, E>>) -> (Option<T>, Option<E>) {
    match answer {
        Some(Ok(v)) => (Some(v), None),
        Some(Err(e)) => (None, Some(e)),
        None => (None, None),
    }
}

/// What an adapter is, as far as its behaviour goes.
pub struct AdapterState<T, E> {
    /// The outcomes that the underlying sequence has yet to give.
    pub pending: Seq<Result<T, E>>,
    /// The captured-error slot.
    pub captured: Option<E>,
}

impl<T, E> AdapterState<T, E> {
    /// A new adapter over `source`: nothing consumed, nothing captured.
    pub open spec fn fresh(source: Seq<Result<T, E>>) -> Self {
        AdapterState { pending: source, captured: None }
    }

    /// What one production request hands out: the payload of the next
    /// outcome if the slot is empty and that outcome is a success, and
    /// end-of-sequence otherwise.
    pub open spec fn next_item(self) -> Option<T> {
        if self.captured is None && self.pending.len() > 0 && self.pending[0] is Ok {
            Some(self.pending[0]->Ok_0)
        } else {
            None
        }
    }

    /// The state that one production request leaves behind. With an error
    /// captured, or nothing pending, the state stays as it is. Otherwise the
    /// next outcome is consumed, and kept in the slot if it is an error.
    pub open spec fn advance(self) -> Self {
        if self.captured is Some || self.pending.len() == 0 {
            self
        } else {
            AdapterState {
                pending: self.pending.drop_first(),
                captured: match self.pending[0] {
                    Ok(_) => None,
                    Err(e) => Some(e),
                },
            }
        }
    }

    /// The state after `k` production requests.
    pub open spec fn after(self, k: nat) -> Self
        decreases k,
    {
        if k == 0 {
            self
        } else {
            self.after((k - 1) as nat).advance()
        }
    }

    /// The payloads handed out by the first `k` production requests, in order.
    pub open spec fn yielded(self, k: nat) -> Seq<T>
        decreases k,
    {
        if k == 0 {
            Seq::empty()
        } else {
            let so_far = self.yielded((k - 1) as nat);
            match self.after((k - 1) as nat).next_item() {
                Some(v) => so_far.push(v),
                None => so_far,
            }
        }
    }
}

/// The one overall outcome of a run: the captured error if there is one,
/// and otherwise the value that the transformation returned.
pub open spec fn overall_outcome<R, E>(captured: Option<E>, output: R) -> Result<R, E> {
    match captured {
        Some(e) => Err(e),
        None => Ok(output),
    }
}

/// `ok_len(s)` is a position up to which every element is a success and at
/// which, if it lies inside `s`, an error stands.
pub proof fn lemma_ok_len_splits<T, E>(s: Seq<Result<T, E>>)
    ensures
        ok_len(s) <= s.len(),
        forall|i: int| 0 <= i < ok_len(s) ==> (#[trigger] s[i]) is Ok,
        ok_len(s) < s.len() ==> s[ok_len(s) as int] is Err,
    decreases s.len(),
{
    if s.len() > 0 && s[0] is Ok {
        let t = s.drop_first();
        lemma_ok_len_splits(t);
        assert forall|i: int| 0 <= i < ok_len(s) implies (#[trigger] s[i]) is Ok by {
            if i > 0 {
                assert(t[i - 1] is Ok);
            }
        }
        if ok_len(s) < s.len() {
            assert(t[ok_len(t) as int] is Err);
        }
    }
}

/// Only one position splits `s` in that way.
pub proof fn lemma_ok_len_is<T, E>(s: Seq<Result<T, E>>, n: nat)
    requires
        n <= s.len(),
        forall|i: int| 0 <= i < n ==> (#[trigger] s[i]) is Ok,
        n < s.len() ==> s[n as int] is Err,
    ensures
        ok_len(s) == n,
{
    lemma_ok_len_splits(s);
    if ok_len(s) < n {
        assert(s[ok_len(s) as int] is Ok);
    } else if n < ok_len(s) {
        assert(s[n as int] is Ok);
    }
}

} // verus!
