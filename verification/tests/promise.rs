use promise_rs::{Promise, PromiseError, PromiseState, Rs};
use std::cell::Cell as Counter;
use std::rc::Rc;

type Callback = Box<dyn Fn(i32) -> i32>;
type Node = Promise<i32, i32, Callback>;

fn counted(count: &Rc<Counter<u32>>, seen: &Rc<Counter<i32>>, add: i32) -> Callback {
    let count = count.clone();
    let seen = seen.clone();
    Box::new(move |v| {
        count.set(count.get() + 1);
        seen.set(v);
        v + add
    })
}

fn plus_one() -> Callback {
    Box::new(|v| v + 1)
}

#[test]
fn new_node_is_pending() {
    let (mut node, _rs): (Node, Rs<i32, i32>) = Promise::new();
    assert_eq!(node.state(), PromiseState::Pending);
    assert_eq!(node.value(), None);
    assert_eq!(node.receive(), None);
}

#[test]
fn resolve_on_pending_keeps_the_value() {
    let (mut node, rs): (Node, _) = Promise::new();
    assert_eq!(rs.resolve(&mut node, 41), Ok(()));
    assert_eq!(node.state(), PromiseState::Ready);
    assert_eq!(node.value(), Some(&41));
    assert_eq!(node.receive(), None);
}

#[test]
fn value_first_runs_the_continuation_when_attached() {
    let count = Rc::new(Counter::new(0));
    let seen = Rc::new(Counter::new(0));
    let (mut node, rs): (Node, _) = Promise::new();
    assert_eq!(rs.resolve(&mut node, 10), Ok(()));
    assert_eq!(count.get(), 0);
    let (next, waiting): (Node, _) = node.then(counted(&count, &seen, 5)).unwrap();
    assert!(waiting.is_none());
    assert_eq!(count.get(), 1);
    assert_eq!(seen.get(), 10);
    assert_eq!(node.state(), PromiseState::Finished);
    assert_eq!(node.value(), None);
    assert_eq!(node.receive(), None);
    assert_eq!(next.state(), PromiseState::Ready);
    assert_eq!(next.value(), Some(&15));
}

#[test]
fn continuation_first_runs_when_resolved() {
    let count = Rc::new(Counter::new(0));
    let seen = Rc::new(Counter::new(0));
    let (mut node, rs): (Node, _) = Promise::new();
    let (mut next, waiting): (Node, _) = node.then(counted(&count, &seen, 5)).unwrap();
    assert_eq!(node.state(), PromiseState::Filled);
    assert_eq!(next.state(), PromiseState::Pending);
    assert_eq!(count.get(), 0);
    assert_eq!(node.receive(), None);
    assert_eq!(rs.resolve(&mut node, 10), Ok(()));
    assert_eq!(count.get(), 1);
    assert_eq!(seen.get(), 10);
    assert_eq!(node.state(), PromiseState::Finished);
    assert_eq!(node.value(), None);
    let got = node.receive();
    assert_eq!(got, Some(15));
    assert_eq!(node.receive(), None);
    assert_eq!(waiting.unwrap().settle(&mut next, got), Ok(()));
    assert_eq!(next.state(), PromiseState::Ready);
    assert_eq!(next.value(), Some(&15));
    assert_eq!(count.get(), 1);
}

fn downstream_after(value_first: bool, v: i32, count: &Rc<Counter<u32>>) -> (Node, Node) {
    let seen = Rc::new(Counter::new(0));
    let (mut node, rs): (Node, _) = Promise::new();
    if value_first {
        rs.resolve(&mut node, v).unwrap();
        let (next, _) = node.then(counted(count, &seen, 100)).unwrap();
        (node, next)
    } else {
        let (mut next, waiting) = node.then(counted(count, &seen, 100)).unwrap();
        rs.resolve(&mut node, v).unwrap();
        let got = node.receive();
        waiting.unwrap().settle(&mut next, got).unwrap();
        (node, next)
    }
}

#[test]
fn both_orders_give_the_same_result() {
    let mut v = -3;
    while v <= 3 {
        let count_a = Rc::new(Counter::new(0));
        let count_b = Rc::new(Counter::new(0));
        let (up_a, down_a) = downstream_after(true, v, &count_a);
        let (up_b, down_b) = downstream_after(false, v, &count_b);
        assert_eq!(count_a.get(), 1);
        assert_eq!(count_b.get(), 1);
        assert_eq!(up_a.state(), PromiseState::Finished);
        assert_eq!(up_b.state(), PromiseState::Finished);
        assert_eq!(down_a.state(), down_b.state());
        assert_eq!(down_a.value(), Some(&(v + 100)));
        assert_eq!(down_b.value(), Some(&(v + 100)));
        v += 1;
    }
}

#[test]
fn attach_on_finished_node_reports_already_consumed() {
    let count = Rc::new(Counter::new(0));
    let seen = Rc::new(Counter::new(0));
    let (mut node, rs): (Node, _) = Promise::new();
    rs.resolve(&mut node, 1).unwrap();
    let (_next, _): (Node, _) = node.then(counted(&count, &seen, 1)).unwrap();
    assert_eq!(count.get(), 1);
    let again = node.then::<i32, Callback>(counted(&count, &seen, 1));
    assert_eq!(again.err(), Some(PromiseError::AlreadyConsumed));
    assert_eq!(count.get(), 1);
    assert_eq!(node.state(), PromiseState::Finished);
    assert_eq!(node.value(), None);
    let third = node.then::<i32, Callback>(counted(&count, &seen, 1));
    assert_eq!(third.err(), Some(PromiseError::AlreadyConsumed));
    assert_eq!(count.get(), 1);
}

#[test]
fn attach_on_finished_node_after_hand_off_reports_already_consumed() {
    let count = Rc::new(Counter::new(0));
    let seen = Rc::new(Counter::new(0));
    let (mut node, rs): (Node, _) = Promise::new();
    let (_next, _): (Node, _) = node.then(counted(&count, &seen, 1)).unwrap();
    rs.resolve(&mut node, 1).unwrap();
    let again = node.then::<i32, Callback>(counted(&count, &seen, 1));
    assert_eq!(again.err(), Some(PromiseError::AlreadyConsumed));
    assert_eq!(count.get(), 1);
    assert_eq!(node.receive(), Some(2));
}

#[test]
fn second_attach_before_the_value_reports_already_attached() {
    let count = Rc::new(Counter::new(0));
    let seen = Rc::new(Counter::new(0));
    let (mut node, rs): (Node, _) = Promise::new();
    let (_next, _): (Node, _) = node.then(counted(&count, &seen, 1)).unwrap();
    let again = node.then::<i32, Callback>(counted(&count, &seen, 50));
    assert_eq!(again.err(), Some(PromiseError::AlreadyAttached));
    assert_eq!(node.state(), PromiseState::Filled);
    rs.resolve(&mut node, 1).unwrap();
    assert_eq!(count.get(), 1);
    assert_eq!(node.receive(), Some(2));
}

#[test]
fn second_resolve_reports_already_settled() {
    let (mut node, rs): (Node, _) = Promise::new();
    let (_other, spare): (Node, _) = Promise::new();
    assert_eq!(rs.resolve(&mut node, 1), Ok(()));
    assert_eq!(spare.resolve(&mut node, 2), Err(PromiseError::AlreadySettled));
    assert_eq!(node.state(), PromiseState::Ready);
    assert_eq!(node.value(), Some(&1));
}

#[test]
fn resolve_on_finished_node_reports_already_settled() {
    let count = Rc::new(Counter::new(0));
    let seen = Rc::new(Counter::new(0));
    let (mut node, rs): (Node, _) = Promise::new();
    let (_other, spare): (Node, _) = Promise::new();
    let (_next, _): (Node, _) = node.then(counted(&count, &seen, 1)).unwrap();
    assert_eq!(rs.resolve(&mut node, 1), Ok(()));
    assert_eq!(spare.resolve(&mut node, 2), Err(PromiseError::AlreadySettled));
    assert_eq!(count.get(), 1);
    assert_eq!(node.state(), PromiseState::Finished);
    assert_eq!(node.receive(), Some(2));
}

#[test]
fn resolve_on_rejected_node_reports_already_settled() {
    let (mut node, rs): (Node, _) = Promise::new();
    let (_other, spare): (Node, _) = Promise::new();
    rs.reject(&mut node);
    assert_eq!(spare.resolve(&mut node, 2), Err(PromiseError::AlreadySettled));
    assert_eq!(node.state(), PromiseState::Rejected);
    assert_eq!(node.value(), None);
}

#[test]
fn reject_sets_rejected_whatever_the_state() {
    let (mut pending, rs): (Node, _) = Promise::new();
    rs.reject(&mut pending);
    assert_eq!(pending.state(), PromiseState::Rejected);

    let (mut ready, rs): (Node, _) = Promise::new();
    let (_n, spare): (Node, _) = Promise::new();
    rs.resolve(&mut ready, 9).unwrap();
    spare.reject(&mut ready);
    assert_eq!(ready.state(), PromiseState::Rejected);
    assert_eq!(ready.value(), Some(&9));

    let (mut filled, rs): (Node, _) = Promise::new();
    let (_next, _): (Node, _) = filled.then(plus_one()).unwrap();
    rs.reject(&mut filled);
    assert_eq!(filled.state(), PromiseState::Rejected);
    assert_eq!(filled.receive(), None);
}

#[test]
fn settle_with_a_value_resolves() {
    let (mut node, rs): (Node, _) = Promise::new();
    assert_eq!(rs.settle(&mut node, Some(4)), Ok(()));
    assert_eq!(node.state(), PromiseState::Ready);
    assert_eq!(node.value(), Some(&4));
}

#[test]
fn settle_without_a_value_rejects() {
    let (mut node, rs): (Node, _) = Promise::new();
    assert_eq!(rs.settle(&mut node, None), Ok(()));
    assert_eq!(node.state(), PromiseState::Rejected);
    assert_eq!(node.value(), None);
}

#[test]
fn settle_runs_an_attached_continuation() {
    let count = Rc::new(Counter::new(0));
    let seen = Rc::new(Counter::new(0));
    let (mut node, rs): (Node, _) = Promise::new();
    let (_next, _): (Node, _) = node.then(counted(&count, &seen, 2)).unwrap();
    assert_eq!(rs.settle(&mut node, Some(4)), Ok(()));
    assert_eq!(count.get(), 1);
    assert_eq!(seen.get(), 4);
    assert_eq!(node.receive(), Some(6));
}
