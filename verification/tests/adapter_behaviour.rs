use std::cell::Cell;
use try_continue::TryContinue;
use try_continue::TryContinueIter;

#[derive(Debug, PartialEq)]
struct Failure {
    code: u32,
    detail: String,
}

#[test]
fn new_adapter_hands_out_payloads_in_order() {
    let outcomes: Vec<Result<u8, &str>> = vec![Ok(10), Ok(20), Ok(30)];
    let mut adapter = TryContinueIter::new(outcomes.into_iter());
    assert_eq!(Some(10), adapter.next());
    assert_eq!(Some(20), adapter.next());
    assert_eq!(Some(30), adapter.next());
    assert_eq!(None, adapter.next());
    assert_eq!(Ok("done"), adapter.finish("done"));
}

#[test]
fn empty_underlying_sequence_ends_at_once_without_error() {
    let outcomes: Vec<Result<u8, &str>> = vec![];
    let mut adapter = TryContinueIter::new(outcomes.into_iter());
    assert_eq!(None, adapter.next());
    assert_eq!(None, adapter.next());
    assert_eq!(Ok(7), adapter.finish(7));
}

#[test]
fn error_in_first_place_gives_no_payload_and_is_captured() {
    let outcomes: Vec<Result<u8, &str>> = vec![Err("first"), Ok(1), Ok(2)];
    let mut adapter = TryContinueIter::new(outcomes.into_iter());
    assert_eq!(None, adapter.next());
    assert_eq!(Err("first"), adapter.finish(0));
}

#[test]
fn finish_without_requests_keeps_the_output() {
    let outcomes: Vec<Result<u8, &str>> = vec![Err("unseen")];
    let adapter: TryContinueIter<_, &str> = TryContinueIter::new(outcomes.into_iter());
    assert_eq!(Ok(42), adapter.finish(42));
}

#[test]
fn finish_drops_the_output_when_an_error_was_captured() {
    let outcomes: Vec<Result<u8, String>> = vec![Ok(1), Err("broken".to_string())];
    let mut adapter = TryContinueIter::new(outcomes.into_iter());
    assert_eq!(Some(1), adapter.next());
    assert_eq!(None, adapter.next());
    assert_eq!(Err("broken".to_string()), adapter.finish(vec![1, 2, 3]));
}

#[test]
fn after_an_error_the_end_is_signalled_again_and_again() {
    let outcomes: Vec<Result<u8, &str>> = vec![Ok(1), Err("two"), Ok(3), Ok(4)];
    let mut adapter = TryContinueIter::new(outcomes.into_iter());
    assert_eq!(Some(1), adapter.next());
    assert_eq!(None, adapter.next());
    assert_eq!(None, adapter.next());
    assert_eq!(None, adapter.next());
    assert_eq!(None, adapter.next());
    assert_eq!(Err("two"), adapter.finish(()));
}

#[test]
fn after_an_error_the_underlying_sequence_is_left_alone() {
    let pulls = Cell::new(0);
    let outcomes: Vec<Result<u8, &str>> = vec![Ok(1), Err("two"), Ok(3), Ok(4)];
    let underlying = outcomes.into_iter().inspect(|_| pulls.set(pulls.get() + 1));
    let mut adapter = TryContinueIter::new(underlying);
    assert_eq!(Some(1), adapter.next());
    assert_eq!(1, pulls.get());
    assert_eq!(None, adapter.next());
    assert_eq!(2, pulls.get());
    assert_eq!(None, adapter.next());
    assert_eq!(None, adapter.next());
    assert_eq!(2, pulls.get());
    assert_eq!(Err("two"), adapter.finish(0));
}

#[test]
fn first_error_is_not_overwritten_by_a_later_one() {
    let outcomes: Vec<Result<u8, &str>> = vec![Ok(1), Err("early"), Err("late"), Ok(2)];
    let mut adapter = TryContinueIter::new(outcomes.into_iter());
    assert_eq!(Some(1), adapter.next());
    assert_eq!(None, adapter.next());
    assert_eq!(None, adapter.next());
    assert_eq!(None, adapter.next());
    assert_eq!(Err("early"), adapter.finish(0));
}

#[test]
fn second_pass_inside_the_closure_yields_nothing_after_an_error() {
    let outcomes: Vec<Result<i32, &str>> = vec![Ok(1), Err("gap"), Ok(3)];
    let mut first_pass = Vec::new();
    let mut second_pass = Vec::new();
    let res = outcomes.into_iter().try_continue(|iter| {
        first_pass.extend(iter.by_ref());
        second_pass.extend(iter.by_ref());
    });
    assert_eq!(Err("gap"), res);
    assert_eq!(vec![1], first_pass);
    assert_eq!(Vec::<i32>::new(), second_pass);
}

#[test]
fn each_request_pulls_one_outcome_while_the_slot_is_empty() {
    let pulls = Cell::new(0);
    let outcomes: Vec<Result<u8, &str>> = vec![Ok(1), Ok(2), Ok(3)];
    let underlying = outcomes.into_iter().inspect(|_| pulls.set(pulls.get() + 1));
    let mut adapter = TryContinueIter::new(underlying);
    assert_eq!(0, pulls.get());
    assert_eq!(Some(1), adapter.next());
    assert_eq!(1, pulls.get());
    assert_eq!(Some(2), adapter.next());
    assert_eq!(2, pulls.get());
    assert_eq!(Ok(()), adapter.finish(()));
}

#[test]
fn closure_is_called_once_on_a_new_adapter() {
    let calls = Cell::new(0);
    let outcomes: Vec<Result<u8, &str>> = vec![Ok(9)];
    let res = outcomes.into_iter().try_continue(|iter| {
        calls.set(calls.get() + 1);
        iter.next()
    });
    assert_eq!(Ok(Some(9)), res);
    assert_eq!(1, calls.get());
}

#[test]
fn error_value_comes_out_as_it_went_in() {
    let outcomes: Vec<Result<u8, Failure>> = vec![
        Ok(1),
        Err(Failure { code: 404, detail: "missing".to_string() }),
    ];
    let res = outcomes.into_iter().try_continue(|iter| iter.count());
    assert_eq!(Err(Failure { code: 404, detail: "missing".to_string() }), res);
}
