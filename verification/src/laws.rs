//! What holds of the transitions taken together.

use crate::cell::SlotView;
use crate::promise::{NodeView, PromiseError};
use crate::state::{allowed, PromiseState};
use vstd::prelude::*;

verus! {

/// One operation on a node.
pub enum Op<Arg, F> {
    /// The producer resolves with a value.
    Resolve(Arg),
    /// The producer rejects.
    Reject,
    /// The consumer attaches a continuation.
    Attach(F),
    /// The hand-off is received.
    Receive,
}

/// The node after `op`, where `r` is what the continuation returned if `op`
/// ran it.
pub open spec fn step<Arg, Ret, F: Fn(Arg) -> Ret>(
    n: NodeView<Arg, Ret, F>,
    op: Op<Arg, F>,
    r: Ret,
) -> NodeView<Arg, Ret, F> {
    match op {
        Op::Resolve(v) => n.resolve(v, r),
        Op::Reject => n.reject(),
        Op::Attach(f) => n.attach(f),
        Op::Receive => n.receive(),
    }
}

/// The call of the continuation that `op` makes on `n`, if it makes one.
pub open spec fn step_runs<Arg, Ret, F: Fn(Arg) -> Ret>(
    n: NodeView<Arg, Ret, F>,
    op: Op<Arg, F>,
) -> Option<(F, Arg)> {
    match op {
        Op::Resolve(v) => n.resolve_runs(v),
        Op::Attach(f) => n.attach_runs(f),
        _ => None,
    }
}

/// Whether `op` may be applied: a continuation that is attached accepts
/// every argument.
pub open spec fn step_ok<Arg, Ret, F: Fn(Arg) -> Ret>(op: Op<Arg, F>) -> bool {
    op matches Op::Attach(f) ==> forall|a: Arg| call_requires(f, (a,))
}

/// The node after the operations `ops` in their order, where `rs[i]` is
/// what the continuation returned if `ops[i]` ran it.
pub open spec fn run<Arg, Ret, F: Fn(Arg) -> Ret>(
    n: NodeView<Arg, Ret, F>,
    ops: Seq<Op<Arg, F>>,
    rs: Seq<Ret>,
) -> NodeView<Arg, Ret, F>
    decreases ops.len(),
{
    if ops.len() == 0 {
        n
    } else {
        step(run(n, ops.drop_last(), rs), ops.last(), rs[ops.len() - 1])
    }
}

/// The calls of the continuation that the operations `ops` make, in their
/// order.
pub open spec fn calls<Arg, Ret, F: Fn(Arg) -> Ret>(
    n: NodeView<Arg, Ret, F>,
    ops: Seq<Op<Arg, F>>,
    rs: Seq<Ret>,
) -> Seq<(F, Arg)>
    decreases ops.len(),
{
    if ops.len() == 0 {
        Seq::empty()
    } else {
        let before = calls(n, ops.drop_last(), rs);
        match step_runs(run(n, ops.drop_last(), rs), ops.last()) {
            Some(call) => before.push(call),
            None => before,
        }
    }
}

/// Every operation keeps a node well formed.
pub proof fn step_keeps_wf<Arg, Ret, F: Fn(Arg) -> Ret>(
    n: NodeView<Arg, Ret, F>,
    op: Op<Arg, F>,
    r: Ret,
)
    requires
        n.wf(),
        step_ok(op),
    ensures
        step(n, op, r).wf(),
{
}

/// Resolving and attaching move a node along the transition table or leave
/// its state alone; so does rejecting a node that is not yet terminal.
pub proof fn step_follows_table<Arg, Ret, F: Fn(Arg) -> Ret>(
    n: NodeView<Arg, Ret, F>,
    op: Op<Arg, F>,
    r: Ret,
)
    requires
        op is Reject ==> !n.state.is_terminal(),
    ensures
        step(n, op, r).state == n.state || allowed(n.state, step(n, op, r).state),
{
}

/// An operation runs the continuation only on a value that it then
/// consumes, and a consumed value is never restored: the operation that
/// runs the continuation is the one that takes the node's value.
pub proof fn run_consumes_value<Arg, Ret, F: Fn(Arg) -> Ret>(
    n: NodeView<Arg, Ret, F>,
    op: Op<Arg, F>,
    r: Ret,
)
    requires
        n.wf(),
    ensures
        step_runs(n, op) is Some <==> !(n.value is Taken) && step(n, op, r).value is Taken,
        n.value is Taken ==> step(n, op, r).value is Taken,
{
}

/// Whatever operations are applied to a well-formed node, in whatever
/// order and however often, its continuation runs at most once, and not at
/// all where the node's value was already consumed.
pub proof fn runs_at_most_once<Arg, Ret, F: Fn(Arg) -> Ret>(
    n: NodeView<Arg, Ret, F>,
    ops: Seq<Op<Arg, F>>,
    rs: Seq<Ret>,
)
    requires
        n.wf(),
        forall|i: int| 0 <= i < ops.len() ==> step_ok(#[trigger] ops[i]),
    ensures
        run(n, ops, rs).wf(),
        calls(n, ops, rs).len() <= 1,
        n.value is Taken ==> calls(n, ops, rs).len() == 0 && run(n, ops, rs).value is Taken,
        calls(n, ops, rs).len() == 1 ==> run(n, ops, rs).value is Taken,
    decreases ops.len(),
{
    if ops.len() > 0 {
        let before = ops.drop_last();
        runs_at_most_once(n, before, rs);
        let mid = run(n, before, rs);
        run_consumes_value(mid, ops.last(), rs[ops.len() - 1]);
        step_keeps_wf(mid, ops.last(), rs[ops.len() - 1]);
    }
}

/// Attaching to a node whose value has been consumed is refused as already
/// consumed: the node stays as it was and the continuation does not run.
pub proof fn consumed_node_refuses<Arg, Ret, F: Fn(Arg) -> Ret>(n: NodeView<Arg, Ret, F>, f: F)
    requires
        n.state == PromiseState::Finished,
    ensures
        n.attach_result() == Err::<(), PromiseError>(PromiseError::AlreadyConsumed),
        n.attach(f) == n,
        n.attach_runs(f) is None,
{
}

/// Resolving before attaching and attaching before resolving come to the
/// same end.
///
/// From a pending node, with the value `v` and a continuation `f` that
/// returns one result on `v`: in either order `f` runs exactly once, on `v`,
/// in the operation that comes second; the node ends finished with its
/// value consumed and `f` stored; and the node returned for the
/// continuation's result ends resolved with that result. In the first order
/// attaching returns it so; in the second it is returned pending and
/// settled with what the hand-off gives. (`spare` and `spare_next` stand
/// where a transition takes a result although no continuation runs.)
pub proof fn both_orders_agree<Arg, Ret, D, F: Fn(Arg) -> Ret, G: Fn(Ret) -> D>(
    v: Arg,
    f: F,
    ra: Ret,
    rb: Ret,
    spare: Ret,
    spare_next: D,
)
    requires
        forall|x: Ret, y: Ret| call_ensures(f, (v,), x) && call_ensures(f, (v,), y) ==> x == y,
        call_ensures(f, (v,), ra),
        call_ensures(f, (v,), rb),
    ensures
        ({
            let start = NodeView::<Arg, Ret, F>::pending();
            let a1 = start.resolve(v, spare);
            let a2 = a1.attach(f);
            let a_next = a1.next::<D, G>(ra);
            let b1 = start.attach(f);
            let b2 = b1.resolve(v, rb);
            let b3 = b2.receive();
            let b_next = start.next::<D, G>(spare).settle(b2.received(), spare_next);
            &&& start.resolve_runs(v) is None
            &&& a1.attach_runs(f) == Some((f, v))
            &&& start.attach_runs(f) is None
            &&& b1.resolve_runs(v) == Some((f, v))
            &&& a_next == b_next
            &&& a_next == NodeView::<Ret, D, G>::resolved(ra)
            &&& a2.state == PromiseState::Finished && b3.state == PromiseState::Finished
            &&& a2.value == b3.value && a2.value is Taken
            &&& a2.call_back == b3.call_back && a2.call_back == SlotView::Full(f)
            &&& b2.received() == Some(rb) && b3.received() is None
        }),
{
}

/// The value that the continuation at place `i` of a chain observes:
/// `first` at the head, and behind it what the continuation before
/// returned.
pub open spec fn chain_input<T>(first: T, outs: Seq<T>, i: int) -> T {
    if i <= 0 {
        first
    } else {
        outs[i - 1]
    }
}

/// The node to which the continuation at place `i` of a chain is attached:
/// the head at place 0, and behind it the node that attaching at the place
/// before returned.
pub open spec fn chain_node<T, F: Fn(T) -> T>(
    head: NodeView<T, T, F>,
    outs: Seq<T>,
    i: nat,
) -> NodeView<T, T, F>
    decreases i,
{
    if i == 0 {
        head
    } else {
        chain_node(head, outs, (i - 1) as nat).next::<T, F>(outs[i - 1])
    }
}

/// Along a chain of continuations attached one behind the other to a
/// resolved node, each continuation runs on what the one before it
/// returned, the first on the resolved value, and each node of the chain
/// is resolved with its continuation's result.
pub proof fn chain_passes_results_on<T, F: Fn(T) -> T>(
    first: T,
    fs: Seq<F>,
    outs: Seq<T>,
    i: nat,
)
    requires
        outs.len() == fs.len(),
        i <= fs.len(),
    ensures
        chain_node(NodeView::<T, T, F>::resolved(first), outs, i) == NodeView::<
            T,
            T,
            F,
        >::resolved(chain_input(first, outs, i as int)),
        i < fs.len() ==> chain_node(NodeView::<T, T, F>::resolved(first), outs, i).attach_runs(
            fs[i as int],
        ) == Some((fs[i as int], chain_input(first, outs, i as int))),
    decreases i,
{
    if i > 0 {
        chain_passes_results_on(first, fs, outs, (i - 1) as nat);
    }
}

/// Along a chain of continuations attached one behind the other before
/// the value has come, the hand-offs pass the results on: settled with what
/// the node before handed off, the node at place `i` runs its continuation
/// on that and hands off the continuation's result.
pub proof fn waiting_chain_passes_results_on<T, F: Fn(T) -> T>(
    first: T,
    fs: Seq<F>,
    outs: Seq<T>,
    i: int,
)
    requires
        outs.len() == fs.len(),
        0 <= i < fs.len(),
    ensures
        ({
            let waiting = NodeView::<T, T, F>::pending().attach(fs[i]);
            let arrived = Some(chain_input(first, outs, i));
            let after = waiting.settle(arrived, outs[i]);
            &&& waiting.resolve_runs(chain_input(first, outs, i)) == Some(
                (fs[i], chain_input(first, outs, i)),
            )
            &&& after.state == PromiseState::Finished
            &&& after.received() == Some(chain_input(first, outs, i + 1))
        }),
{
}

} // verus!
