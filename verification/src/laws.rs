//! What holds of every run of an adapter.
//!
//! A run is a new adapter over a sequence `s` of outcomes and some number `k`
//! of production requests made of it. Each request is one step of
//! [`AdapterState`], as the contract of `next` says, so what is proved here of
//! `AdapterState::fresh(s).after(k)` holds of the adapter that a
//! transformation leaves behind after `k` calls of `next`.

use vstd::prelude::*;
use vstd::math::min;
use crate::model::error_free;
use crate::model::first_err;
use crate::model::lemma_ok_len_is;
use crate::model::lemma_ok_len_splits;
use crate::model::ok_len;
use crate::model::ok_prefix;
use crate::model::overall_outcome;
use crate::model::AdapterState;

verus! {

/// The overall outcome of the run in which the transformation makes `k`
/// production requests and returns `output`.
pub open spec fn run_outcome<T, E, R>(s: Seq<Result<T, E>>, k: nat, output: R) -> Result<R, E> {
    overall_outcome(AdapterState::fresh(s).after(k).captured, output)
}

/// Where `k` requests take an adapter with an empty slot: through the
/// leading successes one by one, then into the first error, where it stays;
/// or, with no error, to the end, where it stays.
pub proof fn lemma_after<T, E>(p: Seq<Result<T, E>>, k: nat)
    ensures
        ({
            let st = (AdapterState { pending: p, captured: None });
            let n = ok_len(p);
            &&& n <= p.len()
            &&& st.yielded(k) == ok_prefix(p).take(min(k as int, n as int))
            &&& k <= n ==> st.after(k) == (AdapterState { pending: p.skip(k as int), captured: None })
            &&& k > n && n < p.len() ==> st.after(k) == (AdapterState {
                pending: p.skip(n as int + 1),
                captured: Some(p[n as int]->Err_0),
            })
            &&& k > n && n == p.len() ==> st.after(k) == (AdapterState {
                pending: p.skip(n as int),
                captured: None,
            })
        }),
    decreases k,
{
    let n = ok_len(p);
    lemma_ok_len_splits(p);
    if k == 0 {
        assert(p.skip(0) =~= p);
        assert(ok_prefix(p).take(0) =~= Seq::<T>::empty());
    } else {
        let j = (k - 1) as nat;
        lemma_after(p, j);
        if j < n {
            assert(p.skip(j as int)[0] == p[j as int]);
            assert(p.skip(j as int).drop_first() =~= p.skip(k as int));
            assert(ok_prefix(p).take(j as int).push(p[j as int]->Ok_0) =~= ok_prefix(p).take(
                k as int,
            ));
        } else if j == n && n < p.len() {
            assert(p.skip(n as int)[0] == p[n as int]);
            assert(p.skip(n as int).drop_first() =~= p.skip(n as int + 1));
        }
    }
}

/// An error, once captured, is final: whatever requests follow, the state
/// stays as it is and nothing more is handed out.
pub proof fn law_captured_error_is_final<T, E>(st: AdapterState<T, E>, k: nat)
    requires
        st.captured is Some,
    ensures
        st.after(k) == st,
        st.after(k).next_item() is None,
        st.yielded(k) == Seq::<T>::empty(),
    decreases k,
{
    if k > 0 {
        law_captured_error_is_final(st, (k - 1) as nat);
    }
}

/// A run ends with an error exactly when it went past the last of the
/// leading successes and an error stands there; the error is that one. A run
/// that stopped earlier saw no error and ends with the transformation's result.
pub proof fn law_outcome_of_run<T, E, R>(s: Seq<Result<T, E>>, k: nat, output: R)
    ensures
        k > ok_len(s) ==> run_outcome(s, k, output) == overall_outcome(first_err(s), output),
        k <= ok_len(s) ==> run_outcome(s, k, output) == Ok::<R, E>(output),
{
    lemma_after(s, k);
}

/// Over a sequence without errors the adapter cannot be told from an iterator
/// over the payloads themselves: the requests hand out the payloads in order,
/// one each, and then end-of-sequence; the slot stays empty; and the overall
/// outcome is the success of what the transformation returned.
pub proof fn law_error_free_run_is_transparent<T, E, R>(s: Seq<Result<T, E>>, k: nat, output: R)
    requires
        error_free(s),
    ensures
        AdapterState::fresh(s).yielded(k) == s.map_values(|r: Result<T, E>| r->Ok_0).take(
            min(k as int, s.len() as int),
        ),
        AdapterState::fresh(s).after(k).next_item() == (if k < s.len() {
            Some(s[k as int]->Ok_0)
        } else {
            None
        }),
        AdapterState::fresh(s).after(k).captured is None,
        run_outcome(s, k, output) == Ok::<R, E>(output),
{
    lemma_ok_len_is(s, s.len());
    lemma_after(s, k);
    assert(ok_prefix(s) =~= s.map_values(|r: Result<T, E>| r->Ok_0));
}

/// Over a sequence with an error, every run that reaches the first error
/// ends with the error carried by that element, whatever the transformation
/// returned and however many requests it went on to make.
pub proof fn law_first_error_wins<T, E, R>(s: Seq<Result<T, E>>, k: nat, output: R)
    requires
        !error_free(s),
        k > ok_len(s),
    ensures
        ok_len(s) < s.len(),
        s[ok_len(s) as int] is Err,
        forall|i: int| 0 <= i < ok_len(s) ==> (#[trigger] s[i]) is Ok,
        run_outcome(s, k, output) == Err::<R, E>(s[ok_len(s) as int]->Err_0),
{
    lemma_ok_len_splits(s);
    lemma_after(s, k);
}

/// The adapter never hands out a payload from behind an error: the payload
/// number `i` of a run is that of the element at position `i`, and no error
/// stands at or before that position.
pub proof fn law_no_payload_past_an_error<T, E>(s: Seq<Result<T, E>>, k: nat)
    ensures
        AdapterState::fresh(s).yielded(k) == ok_prefix(s).take(min(k as int, ok_len(s) as int)),
        forall|i: int|
            0 <= i < AdapterState::fresh(s).yielded(k).len() ==> i < s.len() && s[i] == Ok::<T, E>(
                #[trigger] AdapterState::fresh(s).yielded(k)[i],
            ),
        forall|j: int|
            0 <= j < s.len() && (#[trigger] s[j]) is Err ==> AdapterState::fresh(s).yielded(k).len()
                <= j,
{
    lemma_ok_len_splits(s);
    lemma_after(s, k);
}

/// The error of a sequence is the same in every run: two runs over one
/// sequence that both end with an error end with the same error, the first
/// of the sequence.
pub proof fn law_error_identity_is_stable<T, E, R1, R2>(
    s: Seq<Result<T, E>>,
    k1: nat,
    output1: R1,
    k2: nat,
    output2: R2,
)
    requires
        run_outcome(s, k1, output1) is Err,
        run_outcome(s, k2, output2) is Err,
    ensures
        run_outcome(s, k1, output1)->Err_0 == run_outcome(s, k2, output2)->Err_0,
        first_err(s) == Some(run_outcome(s, k1, output1)->Err_0),
{
    law_outcome_of_run(s, k1, output1);
    law_outcome_of_run(s, k2, output2);
}

} // verus!
