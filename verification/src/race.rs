//! Resolving and attaching, step by step.
//!
//! The transitions of a node are atomic. This module takes them apart into
//! the single slot accesses and compare-and-swaps they are made of, lets a
//! producer and a consumer take these steps in any interleaving, and shows
//! that the state tag alone keeps the two apart: no slot is read before it
//! is written or written twice, the continuation runs once, and nobody
//! waits forever.

use crate::cell::SlotView;
use crate::promise::NodeView;
use crate::state::{swapped, PromiseState};
use vstd::prelude::*;

verus! {

/// Where the producer stands.
pub enum Producer {
    /// About to write the value into its slot.
    Write,
    /// About to try `Pending` to `Ready`.
    TryReady,
    /// About to try `Filled` to `Finished`.
    TryFinish,
    /// About to run the continuation on the value.
    Invoke,
    /// About to place the continuation's result in the hand-off.
    Send,
    /// About to store `Rejected`.
    Reject,
    /// Through.
    Done,
    /// Found a state that the transition table does not allow.
    Broken,
}

/// Where the consumer stands.
pub enum Consumer {
    /// About to write the continuation into its slot.
    Write,
    /// About to try `Pending` to `Filled`.
    TryFill,
    /// About to try `Ready` to `Finished`.
    TryFinish,
    /// About to run the continuation on the value.
    Invoke,
    /// Waiting for the hand-off.
    Wait,
    /// Through: the continuation's result has reached the next node.
    Done,
    /// Through: the node was rejected, and so is the next node.
    Inert,
    /// Found the node's value already consumed.
    Consumed,
    /// Found a state that the transition table does not allow.
    Broken,
}

/// A node together with the two parties working on it.
pub struct Race<Arg, Ret, F> {
    /// The node.
    pub node: NodeView<Arg, Ret, F>,
    /// Where the producer stands.
    pub producer: Producer,
    /// Where the consumer stands.
    pub consumer: Consumer,
    /// The calls of the continuation made so far.
    pub calls: Seq<(F, Arg)>,
    /// The continuation's result in the producer's hands, between running
    /// the continuation and sending.
    pub carried: Option<Ret>,
    /// What the next node was resolved with.
    pub result: Option<Ret>,
    /// Whether a slot was read while it held nothing, or written while it
    /// was not empty.
    pub fault: bool,
}

/// A pending node, a producer that will resolve, and a consumer that will
/// attach.
pub open spec fn resolving<Arg, Ret, F: Fn(Arg) -> Ret>() -> Race<Arg, Ret, F> {
    Race {
        node: NodeView::pending(),
        producer: Producer::Write,
        consumer: Consumer::Write,
        calls: Seq::empty(),
        carried: None,
        result: None,
        fault: false,
    }
}

/// A pending node, a producer that will reject, and a consumer that will
/// attach.
pub open spec fn rejecting<Arg, Ret, F: Fn(Arg) -> Ret>() -> Race<Arg, Ret, F> {
    Race { producer: Producer::Reject, ..resolving() }
}

/// The race after the step that runs the continuation, taken by either
/// party: the value leaves its slot and the continuation is called on it.
pub open spec fn invoked<Arg, Ret, F: Fn(Arg) -> Ret>(s: Race<Arg, Ret, F>) -> Race<Arg, Ret, F> {
    Race {
        node: NodeView { value: s.node.value.take(), ..s.node },
        calls: match (s.node.call_back, s.node.value) {
            (SlotView::Full(f), SlotView::Full(v)) => s.calls.push((f, v)),
            _ => s.calls,
        },
        fault: s.fault || !(s.node.call_back is Full) || !(s.node.value is Full),
        ..s
    }
}

/// The producer's next step. `v` is the value it resolves with and `r` what
/// the continuation returns on it.
pub open spec fn producer_step<Arg, Ret, F: Fn(Arg) -> Ret>(
    s: Race<Arg, Ret, F>,
    v: Arg,
    r: Ret,
) -> Race<Arg, Ret, F> {
    match s.producer {
        Producer::Write => Race {
            node: NodeView { value: s.node.value.set(v), ..s.node },
            producer: Producer::TryReady,
            fault: s.fault || !(s.node.value is Empty),
            ..s
        },
        Producer::TryReady => Race {
            node: NodeView {
                state: swapped(s.node.state, PromiseState::Pending, PromiseState::Ready),
                ..s.node
            },
            producer: if s.node.state == PromiseState::Pending {
                Producer::Done
            } else {
                Producer::TryFinish
            },
            ..s
        },
        Producer::TryFinish => Race {
            node: NodeView {
                state: swapped(s.node.state, PromiseState::Filled, PromiseState::Finished),
                ..s.node
            },
            producer: if s.node.state == PromiseState::Filled {
                Producer::Invoke
            } else {
                Producer::Broken
            },
            ..s
        },
        Producer::Invoke => Race { producer: Producer::Send, carried: Some(r), ..invoked(s) },
        Producer::Send => Race {
            node: match s.carried {
                Some(x) => NodeView { recv: s.node.recv.set(x), ..s.node },
                None => s.node,
            },
            producer: Producer::Done,
            carried: None,
            fault: s.fault || !(s.node.recv is Empty) || s.carried is None,
            ..s
        },
        Producer::Reject => Race {
            node: NodeView { state: PromiseState::Rejected, ..s.node },
            producer: Producer::Done,
            ..s
        },
        Producer::Done => s,
        Producer::Broken => s,
    }
}

/// Whether the consumer can move. While it waits it can move once the
/// hand-off holds a result, or once the producer is through and will send
/// none.
pub open spec fn consumer_enabled<Arg, Ret, F: Fn(Arg) -> Ret>(s: Race<Arg, Ret, F>) -> bool {
    match s.consumer {
        Consumer::Write | Consumer::TryFill | Consumer::TryFinish | Consumer::Invoke => true,
        Consumer::Wait => s.node.recv is Full || s.producer is Done,
        _ => false,
    }
}

/// Whether the producer can move.
pub open spec fn producer_enabled<Arg, Ret, F: Fn(Arg) -> Ret>(s: Race<Arg, Ret, F>) -> bool {
    !(s.producer is Done) && !(s.producer is Broken)
}

/// The consumer's next step. `f` is the continuation it attaches and `r`
/// what `f` returns on the value. A consumer that cannot move stays.
pub open spec fn consumer_step<Arg, Ret, F: Fn(Arg) -> Ret>(
    s: Race<Arg, Ret, F>,
    f: F,
    r: Ret,
) -> Race<Arg, Ret, F> {
    match s.consumer {
        Consumer::Write => Race {
            node: NodeView { call_back: s.node.call_back.set(f), ..s.node },
            consumer: Consumer::TryFill,
            fault: s.fault || !(s.node.call_back is Empty),
            ..s
        },
        Consumer::TryFill => Race {
            node: NodeView {
                state: swapped(s.node.state, PromiseState::Pending, PromiseState::Filled),
                ..s.node
            },
            consumer: if s.node.state == PromiseState::Pending {
                Consumer::Wait
            } else {
                Consumer::TryFinish
            },
            ..s
        },
        Consumer::TryFinish => Race {
            node: NodeView {
                state: swapped(s.node.state, PromiseState::Ready, PromiseState::Finished),
                ..s.node
            },
            consumer: match s.node.state {
                PromiseState::Ready => Consumer::Invoke,
                PromiseState::Rejected => Consumer::Inert,
                PromiseState::Finished => Consumer::Consumed,
                _ => Consumer::Broken,
            },
            ..s
        },
        Consumer::Invoke => Race { consumer: Consumer::Done, result: Some(r), ..invoked(s) },
        Consumer::Wait => match s.node.recv {
            SlotView::Full(x) => Race {
                node: NodeView { recv: s.node.recv.take(), ..s.node },
                consumer: Consumer::Done,
                result: Some(x),
                ..s
            },
            _ => if s.producer is Done {
                Race { consumer: Consumer::Inert, ..s }
            } else {
                s
            },
        },
        _ => s,
    }
}

/// The race after the steps of `schedule`, where `true` lets the producer
/// move and `false` the consumer.
pub open spec fn play<Arg, Ret, F: Fn(Arg) -> Ret>(
    s: Race<Arg, Ret, F>,
    schedule: Seq<bool>,
    v: Arg,
    f: F,
    r: Ret,
) -> Race<Arg, Ret, F>
    decreases schedule.len(),
{
    if schedule.len() == 0 {
        s
    } else {
        let before = play(s, schedule.drop_last(), v, f, r);
        if schedule.last() {
            producer_step(before, v, r)
        } else {
            consumer_step(before, f, r)
        }
    }
}

/// The steps that the two parties have left at most.
pub open spec fn steps_left<Arg, Ret, F: Fn(Arg) -> Ret>(s: Race<Arg, Ret, F>) -> nat {
    let producer: nat = match s.producer {
        Producer::Write => 5,
        Producer::TryReady => 4,
        Producer::TryFinish => 3,
        Producer::Invoke => 2,
        Producer::Send => 1,
        Producer::Reject => 1,
        Producer::Done => 0,
        Producer::Broken => 0,
    };
    let consumer: nat = match s.consumer {
        Consumer::Write => 4,
        Consumer::TryFill => 3,
        Consumer::TryFinish => 2,
        Consumer::Invoke => 1,
        Consumer::Wait => 1,
        _ => 0,
    };
    producer + consumer
}

/// Whether both parties are through.
pub open spec fn settled<Arg, Ret, F: Fn(Arg) -> Ret>(s: Race<Arg, Ret, F>) -> bool {
    s.producer is Done && (s.consumer is Done || s.consumer is Inert)
}

/// What holds at every point of a race in which the producer resolves with
/// `v` and the consumer attaches `f`, which returns `r` on `v`.
pub open spec fn resolving_inv<Arg, Ret, F: Fn(Arg) -> Ret>(
    s: Race<Arg, Ret, F>,
    v: Arg,
    f: F,
    r: Ret,
) -> bool {
    let once = s.calls.len() == 1 && s.calls[0] == (f, v);
    &&& !s.fault
    &&& s.node.value == if s.producer is Write {
        SlotView::<Arg>::Empty
    } else if s.calls.len() == 0 {
        SlotView::Full(v)
    } else {
        SlotView::Taken
    }
    &&& s.node.call_back == if s.consumer is Write {
        SlotView::<F>::Empty
    } else {
        SlotView::Full(f)
    }
    &&& s.calls.len() == 0 || once
    &&& s.carried == if s.producer is Send {
        Some(r)
    } else {
        None::<Ret>
    }
    &&& s.result == if s.consumer is Done {
        Some(r)
    } else {
        None::<Ret>
    }
    &&& match s.node.state {
        PromiseState::Pending => {
            &&& s.producer is Write || s.producer is TryReady
            &&& s.consumer is Write || s.consumer is TryFill
            &&& s.calls.len() == 0
            &&& s.node.recv is Empty
        },
        PromiseState::Ready => {
            &&& s.producer is Done
            &&& s.consumer is Write || s.consumer is TryFill || s.consumer is TryFinish
            &&& s.calls.len() == 0
            &&& s.node.recv is Empty
        },
        PromiseState::Filled => {
            &&& s.producer is Write || s.producer is TryReady || s.producer is TryFinish
            &&& s.consumer is Wait
            &&& s.calls.len() == 0
            &&& s.node.recv is Empty
        },
        PromiseState::Finished => match s.consumer {
            Consumer::Invoke => s.producer is Done && s.calls.len() == 0 && s.node.recv is Empty,
            Consumer::Wait => match s.producer {
                Producer::Invoke => s.calls.len() == 0 && s.node.recv is Empty,
                Producer::Send => once && s.node.recv is Empty,
                Producer::Done => once && s.node.recv == SlotView::Full(r),
                _ => false,
            },
            Consumer::Done => s.producer is Done && once && !(s.node.recv is Full),
            _ => false,
        },
        PromiseState::Rejected => false,
    }
}

/// What holds at every point of a race in which the producer rejects and
/// the consumer attaches `f`.
pub open spec fn rejecting_inv<Arg, Ret, F: Fn(Arg) -> Ret>(s: Race<Arg, Ret, F>, f: F) -> bool {
    &&& !s.fault
    &&& s.node.value is Empty
    &&& s.node.recv is Empty
    &&& s.node.call_back == if s.consumer is Write {
        SlotView::<F>::Empty
    } else {
        SlotView::Full(f)
    }
    &&& s.calls.len() == 0
    &&& s.carried is None
    &&& s.result is None
    &&& match s.node.state {
        PromiseState::Pending => s.producer is Reject && (s.consumer is Write
            || s.consumer is TryFill),
        PromiseState::Filled => s.producer is Reject && s.consumer is Wait,
        PromiseState::Rejected => s.producer is Done && (s.consumer is Write
            || s.consumer is TryFill || s.consumer is TryFinish || s.consumer is Wait
            || s.consumer is Inert),
        _ => false,
    }
}

/// Every step of a resolving race keeps what holds of it.
pub proof fn resolving_step<Arg, Ret, F: Fn(Arg) -> Ret>(
    s: Race<Arg, Ret, F>,
    v: Arg,
    f: F,
    r: Ret,
)
    requires
        resolving_inv(s, v, f, r),
    ensures
        resolving_inv(producer_step(s, v, r), v, f, r),
        resolving_inv(consumer_step(s, f, r), v, f, r),
{
}

/// Every step of a rejecting race keeps what holds of it.
pub proof fn rejecting_step<Arg, Ret, F: Fn(Arg) -> Ret>(
    s: Race<Arg, Ret, F>,
    v: Arg,
    f: F,
    r: Ret,
)
    requires
        rejecting_inv(s, f),
    ensures
        rejecting_inv(producer_step(s, v, r), f),
        rejecting_inv(consumer_step(s, f, r), f),
{
}

/// However the steps of resolving and attaching interleave, the
/// continuation runs exactly once and sees the resolved value.
///
/// At every point of the race: no slot has been read before it was written
/// nor written twice; neither party has met a state outside the transition
/// table; the continuation has been called at most once, and only as `f`
/// on `v`; and as long as a party is not through, one of the two can move.
/// When both are through, the continuation has been called once, the node
/// is finished with its value consumed, and the next node holds the
/// continuation's result.
pub proof fn resolve_race_runs_once<Arg, Ret, F: Fn(Arg) -> Ret>(
    schedule: Seq<bool>,
    v: Arg,
    f: F,
    r: Ret,
)
    ensures
        ({
            let end = play(resolving::<Arg, Ret, F>(), schedule, v, f, r);
            &&& resolving_inv(end, v, f, r)
            &&& !end.fault
            &&& !(end.producer is Broken) && !(end.consumer is Broken) && !(end.consumer is Consumed)
            &&& end.calls.len() <= 1
            &&& end.calls.len() == 1 ==> end.calls[0] == (f, v)
            &&& settled(end) || producer_enabled(end) || consumer_enabled(end)
            &&& settled(end) ==> {
                &&& end.calls.len() == 1
                &&& end.node.state == PromiseState::Finished
                &&& end.node.value is Taken
                &&& end.consumer is Done
                &&& end.result == Some(r)
            }
        }),
    decreases schedule.len(),
{
    if schedule.len() > 0 {
        resolve_race_runs_once::<Arg, Ret, F>(schedule.drop_last(), v, f, r);
        let before = play(resolving::<Arg, Ret, F>(), schedule.drop_last(), v, f, r);
        resolving_step(before, v, f, r);
    }
}

/// However the steps of rejecting and attaching interleave, the
/// continuation never runs.
///
/// At every point of the race no slot has been misused, the continuation
/// has not been called, and as long as a party is not through, one of the
/// two can move. When both are through, the node is rejected and so is the
/// next node.
pub proof fn reject_race_never_runs<Arg, Ret, F: Fn(Arg) -> Ret>(
    schedule: Seq<bool>,
    v: Arg,
    f: F,
    r: Ret,
)
    ensures
        ({
            let end = play(rejecting::<Arg, Ret, F>(), schedule, v, f, r);
            &&& rejecting_inv(end, f)
            &&& !end.fault
            &&& !(end.producer is Broken) && !(end.consumer is Broken) && !(end.consumer is Consumed)
            &&& end.calls.len() == 0
            &&& settled(end) || producer_enabled(end) || consumer_enabled(end)
            &&& settled(end) ==> {
                &&& end.node.state == PromiseState::Rejected
                &&& end.consumer is Inert
                &&& end.result is None
            }
        }),
    decreases schedule.len(),
{
    if schedule.len() > 0 {
        reject_race_never_runs::<Arg, Ret, F>(schedule.drop_last(), v, f, r);
        let before = play(rejecting::<Arg, Ret, F>(), schedule.drop_last(), v, f, r);
        rejecting_step(before, v, f, r);
    }
}

/// A step of a party that can move brings the end nearer, and a party that
/// cannot move stays where it is.
pub proof fn step_brings_end_nearer<Arg, Ret, F: Fn(Arg) -> Ret>(
    s: Race<Arg, Ret, F>,
    v: Arg,
    f: F,
    r: Ret,
)
    ensures
        producer_enabled(s) ==> steps_left(producer_step(s, v, r)) < steps_left(s),
        consumer_enabled(s) ==> steps_left(consumer_step(s, f, r)) < steps_left(s),
        !producer_enabled(s) ==> producer_step(s, v, r) == s,
        !consumer_enabled(s) ==> consumer_step(s, f, r) == s,
{
}

/// Whether every step of `schedule`, played from `s`, is taken by a party
/// that can move.
pub open spec fn all_steps_move<Arg, Ret, F: Fn(Arg) -> Ret>(
    s: Race<Arg, Ret, F>,
    schedule: Seq<bool>,
    v: Arg,
    f: F,
    r: Ret,
) -> bool {
    forall|i: int|
        0 <= i < schedule.len() ==> {
            let before = play(s, schedule.take(i), v, f, r);
            if #[trigger] schedule[i] {
                producer_enabled(before)
            } else {
                consumer_enabled(before)
            }
        }
}

/// A race ends: a schedule in which every step moves a party is no longer
/// than the steps that the parties had left at its start, which are nine
/// where the producer resolves and five where it rejects.
pub proof fn race_is_short<Arg, Ret, F: Fn(Arg) -> Ret>(
    s: Race<Arg, Ret, F>,
    schedule: Seq<bool>,
    v: Arg,
    f: F,
    r: Ret,
)
    requires
        all_steps_move(s, schedule, v, f, r),
    ensures
        schedule.len() + steps_left(play(s, schedule, v, f, r)) <= steps_left(s),
        steps_left(resolving::<Arg, Ret, F>()) == 9,
        steps_left(rejecting::<Arg, Ret, F>()) == 5,
    decreases schedule.len(),
{
    if schedule.len() > 0 {
        let shorter = schedule.drop_last();
        assert forall|i: int| 0 <= i < shorter.len() implies {
            let before = play(s, shorter.take(i), v, f, r);
            if #[trigger] shorter[i] {
                producer_enabled(before)
            } else {
                consumer_enabled(before)
            }
        } by {
            assert(shorter.take(i) =~= schedule.take(i));
            assert(shorter[i] == schedule[i]);
        }
        race_is_short(s, shorter, v, f, r);
        step_brings_end_nearer(play(s, shorter, v, f, r), v, f, r);
        assert(schedule.take(schedule.len() - 1) =~= shorter);
        assert(schedule[schedule.len() - 1] == schedule.last());
    }
}

/// The producer's steps, taken without interruption, are the atomic
/// transition of resolving: on a well-formed node that accepts a value they
/// leave the node that resolving leaves, and call the continuation where
/// resolving calls it.
pub proof fn producer_alone_resolves<Arg, Ret, F: Fn(Arg) -> Ret>(
    n: NodeView<Arg, Ret, F>,
    v: Arg,
    r: Ret,
)
    requires
        n.wf(),
        n.resolve_result() is Ok,
    ensures
        ({
            let start = Race { node: n, ..resolving::<Arg, Ret, F>() };
            let s1 = producer_step(start, v, r);
            let s2 = producer_step(s1, v, r);
            let s3 = producer_step(s2, v, r);
            let s4 = producer_step(s3, v, r);
            let end = producer_step(s4, v, r);
            &&& end.producer is Done
            &&& !end.fault
            &&& end.node == n.resolve(v, r)
            &&& end.calls == match n.resolve_runs(v) {
                Some(call) => Seq::<(F, Arg)>::empty().push(call),
                None => Seq::<(F, Arg)>::empty(),
            }
        }),
{
}

/// The consumer's steps, taken without interruption, are the atomic
/// transition of attaching: on a well-formed node that is pending or
/// resolved they leave the node that attaching leaves, and call the
/// continuation where attaching calls it.
pub proof fn consumer_alone_attaches<Arg, Ret, F: Fn(Arg) -> Ret>(
    n: NodeView<Arg, Ret, F>,
    f: F,
    r: Ret,
)
    requires
        n.wf(),
        n.state == PromiseState::Pending || n.state == PromiseState::Ready,
    ensures
        ({
            let start = Race {
                node: n,
                producer: if n.state == PromiseState::Ready {
                    Producer::Done
                } else {
                    Producer::Write
                },
                ..resolving::<Arg, Ret, F>()
            };
            let s1 = consumer_step(start, f, r);
            let s2 = consumer_step(s1, f, r);
            let s3 = consumer_step(s2, f, r);
            let end = consumer_step(s3, f, r);
            &&& !end.fault
            &&& end.node == n.attach(f)
            &&& end.consumer is Done <==> n.state == PromiseState::Ready
            &&& end.consumer is Wait <==> n.state == PromiseState::Pending
            &&& end.calls == match n.attach_runs(f) {
                Some(call) => Seq::<(F, Arg)>::empty().push(call),
                None => Seq::<(F, Arg)>::empty(),
            }
        }),
{
}

} // verus!
