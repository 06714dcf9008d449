//! Promise nodes, their resolvers, and the transitions between them.

use crate::cell::{Cell, SlotView};
use crate::state::{allowed, PromiseState};
use std::marker::PhantomData;
use vstd::prelude::*;

verus! {

/// Why a transition was refused. A refused transition leaves its node as it
/// was.
#[derive(Clone, Copy, Debug, PartialEq, Eq, Structural)]
pub enum PromiseError {
    /// A continuation was offered to a node whose value has already been
    /// consumed.
    AlreadyConsumed,
    /// A continuation was offered to a node that already holds one.
    AlreadyAttached,
    /// A value was offered to a node that was already resolved or rejected.
    AlreadySettled,
}

/// A promise node as contracts see it.
pub struct NodeView<Arg, Ret, F> {
    pub state: PromiseState,
    pub value: SlotView<Arg>,
    pub call_back: SlotView<F>,
    pub recv: SlotView<Ret>,
}

/// A promise node: the state tag, the slot of the resolved value, the slot of
/// the continuation, and the receiving end of the one-shot hand-off.
pub struct Promise<Arg, Ret, F> {
    status: PromiseState,
    value: Cell<Arg>,
    call_back: Cell<F>,
    recv: Cell<Ret>,
}

/// The capability to settle a node. It is used up by the one call that
/// resolves or rejects.
pub struct Rs<Arg, Ret> {
    marker: PhantomData<(Arg, Ret)>,
}

impl<Arg, Ret, F> View for Promise<Arg, Ret, F> {
    type V = NodeView<Arg, Ret, F>;

    closed spec fn view(&self) -> NodeView<Arg, Ret, F> {
        NodeView {
            state: self.status,
            value: self.value@,
            call_back: self.call_back@,
            recv: self.recv@,
        }
    }
}

impl<Arg, Ret, F: Fn(Arg) -> Ret> NodeView<Arg, Ret, F> {
    /// A node that nothing has touched.
    pub open spec fn pending() -> Self {
        NodeView {
            state: PromiseState::Pending,
            value: SlotView::Empty,
            call_back: SlotView::Empty,
            recv: SlotView::Empty,
        }
    }

    /// A node that was resolved with `v` before any continuation came.
    pub open spec fn resolved(v: Arg) -> Self {
        NodeView { state: PromiseState::Ready, value: SlotView::Full(v), ..Self::pending() }
    }

    /// A node that was rejected before anything else happened to it.
    pub open spec fn rejected() -> Self {
        NodeView { state: PromiseState::Rejected, ..Self::pending() }
    }

    /// The slots agree with the state tag, and a stored continuation accepts
    /// every argument.
    pub open spec fn wf(self) -> bool {
        &&& match self.state {
            PromiseState::Pending => self.value is Empty && self.call_back is Empty
                && self.recv is Empty,
            PromiseState::Filled => self.value is Empty && self.call_back is Full
                && self.recv is Empty,
            PromiseState::Ready => self.value is Full && self.call_back is Empty
                && self.recv is Empty,
            PromiseState::Finished => self.value is Taken && self.call_back is Full,
            PromiseState::Rejected => true,
        }
        &&& self.call_back matches SlotView::Full(f) ==> forall|a: Arg| call_requires(f, (a,))
    }

    /// The call that resolving with `v` makes: the stored continuation on
    /// `v`, where one is attached and waiting.
    pub open spec fn resolve_runs(self, v: Arg) -> Option<(F, Arg)> {
        match (self.state, self.call_back) {
            (PromiseState::Filled, SlotView::Full(f)) => Some((f, v)),
            _ => None,
        }
    }

    /// The node after resolving with `v`, where `r` is what the continuation
    /// returned if resolving ran it.
    pub open spec fn resolve(self, v: Arg, r: Ret) -> Self {
        match self.state {
            PromiseState::Pending => NodeView {
                state: PromiseState::Ready,
                value: SlotView::Full(v),
                ..self
            },
            PromiseState::Filled => NodeView {
                state: PromiseState::Finished,
                value: SlotView::Taken,
                recv: SlotView::Full(r),
                ..self
            },
            _ => self,
        }
    }

    /// Whether resolving is accepted.
    pub open spec fn resolve_result(self) -> Result<(), PromiseError> {
        match self.state {
            PromiseState::Pending | PromiseState::Filled => Ok(()),
            _ => Err(PromiseError::AlreadySettled),
        }
    }

    /// The node after rejecting.
    pub open spec fn reject(self) -> Self {
        NodeView { state: PromiseState::Rejected, ..self }
    }

    /// The node after settling with what a hand-off gave: resolved with the
    /// value that arrived, rejected where none will arrive.
    pub open spec fn settle(self, received: Option<Arg>, r: Ret) -> Self {
        match received {
            Some(v) => self.resolve(v, r),
            None => self.reject(),
        }
    }

    /// The call that attaching `f` makes: `f` on the value, where one is
    /// present and waiting.
    pub open spec fn attach_runs(self, f: F) -> Option<(F, Arg)> {
        match (self.state, self.value) {
            (PromiseState::Ready, SlotView::Full(v)) => Some((f, v)),
            _ => None,
        }
    }

    /// The node after attaching `f`.
    pub open spec fn attach(self, f: F) -> Self {
        match self.state {
            PromiseState::Pending => NodeView {
                state: PromiseState::Filled,
                call_back: SlotView::Full(f),
                ..self
            },
            PromiseState::Ready => NodeView {
                state: PromiseState::Finished,
                value: SlotView::Taken,
                call_back: SlotView::Full(f),
                ..self
            },
            _ => self,
        }
    }

    /// Whether attaching is accepted.
    pub open spec fn attach_result(self) -> Result<(), PromiseError> {
        match self.state {
            PromiseState::Filled => Err(PromiseError::AlreadyAttached),
            PromiseState::Finished => Err(PromiseError::AlreadyConsumed),
            _ => Ok(()),
        }
    }

    /// The node that attaching returns for the continuation's result, where
    /// `r` is what the continuation returned if attaching ran it: resolved
    /// with `r`, still pending while the value is awaited, rejected behind a
    /// rejected node.
    pub open spec fn next<D, G: Fn(Ret) -> D>(self, r: Ret) -> NodeView<Ret, D, G> {
        match self.state {
            PromiseState::Ready => NodeView::<Ret, D, G>::resolved(r),
            PromiseState::Rejected => NodeView::<Ret, D, G>::rejected(),
            _ => NodeView::<Ret, D, G>::pending(),
        }
    }

    /// What the hand-off gives: the continuation's result, once, after
    /// resolving has run the continuation.
    pub open spec fn received(self) -> Option<Ret> {
        match self.recv {
            SlotView::Full(r) => Some(r),
            _ => None,
        }
    }

    /// The node after the hand-off has been received.
    pub open spec fn receive(self) -> Self {
        match self.recv {
            SlotView::Full(r) => NodeView { recv: SlotView::Taken, ..self },
            _ => self,
        }
    }
}

impl<Arg, Ret> Rs<Arg, Ret> {
    /// Resolves `node` with `v`.
    ///
    /// A pending node keeps `v` for a continuation that comes later. A node
    /// whose continuation is attached has it run on `v` here, and the result
    /// is placed in the hand-off. A node that was already resolved or
    /// rejected refuses `v` and stays as it was.
    pub fn resolve<F: Fn(Arg) -> Ret>(self, node: &mut Promise<Arg, Ret, F>, v: Arg) -> (r:
        Result<(), PromiseError>)
        requires
            old(node)@.wf(),
        ensures
            final(node)@.wf(),
            r == old(node)@.resolve_result(),
            final(node)@ == old(node)@.resolve(v, final(node)@.recv->Full_0),
            old(node)@.resolve_runs(v) matches Some((f, a)) ==> call_ensures(
                f,
                (a,),
                final(node)@.recv->Full_0,
            ),
            final(node)@.state == old(node)@.state || allowed(
                old(node)@.state,
                final(node)@.state,
            ),
    {
        if node.status.compare_exchange(PromiseState::Pending, PromiseState::Ready).is_ok() {
            let stored = node.value.set(v);
            assert(stored is Ok);
            return Ok(());
        }
        match node.status.compare_exchange(PromiseState::Filled, PromiseState::Finished) {
            Ok(_) => {
                let stored = node.value.set(v);
                assert(stored is Ok);
                let r = self.invoke(node);
                let sent = node.recv.set(r);
                assert(sent is Ok);
                Ok(())
            },
            Err(_) => Err(PromiseError::AlreadySettled),
        }
    }

    /// Rejects `node`: its state becomes `Rejected` whatever it was, and its
    /// slots stay as they are.
    pub fn reject<F: Fn(Arg) -> Ret>(self, node: &mut Promise<Arg, Ret, F>)
        requires
            old(node)@.wf(),
        ensures
            final(node)@.wf(),
            final(node)@ == old(node)@.reject(),
    {
        node.status = PromiseState::Rejected;
    }

    /// Settles `node` with what a hand-off gave: resolves it with the value
    /// that arrived, rejects it where none will arrive.
    pub fn settle<F: Fn(Arg) -> Ret>(
        self,
        node: &mut Promise<Arg, Ret, F>,
        received: Option<Arg>,
    ) -> (r: Result<(), PromiseError>)
        requires
            old(node)@.wf(),
        ensures
            final(node)@.wf(),
            r == match received {
                Some(_) => old(node)@.resolve_result(),
                None => Ok::<(), PromiseError>(()),
            },
            final(node)@ == old(node)@.settle(received, final(node)@.recv->Full_0),
            received matches Some(v) ==> (old(node)@.resolve_runs(v) matches Some((f, a))
                ==> call_ensures(f, (a,), final(node)@.recv->Full_0)),
    {
        match received {
            Some(v) => self.resolve(node, v),
            None => {
                self.reject(node);
                Ok(())
            },
        }
    }

    /// Runs the continuation of `node` on its value.
    fn invoke<F: Fn(Arg) -> Ret>(&self, node: &mut Promise<Arg, Ret, F>) -> (r: Ret)
        requires
            old(node)@.value is Full,
            old(node)@.call_back is Full,
            call_requires(old(node)@.call_back->Full_0, (old(node)@.value->Full_0,)),
        ensures
            call_ensures(old(node)@.call_back->Full_0, (old(node)@.value->Full_0,), r),
            final(node)@ == (NodeView { value: SlotView::Taken, ..old(node)@ }),
    {
        node.invoke()
    }
}

impl<Arg, Ret, F: Fn(Arg) -> Ret> Promise<Arg, Ret, F> {
    /// A pending node, with the resolver that settles it.
    pub fn new() -> (made: (Self, Rs<Arg, Ret>))
        ensures
            made.0@ == NodeView::<Arg, Ret, F>::pending(),
            made.0@.wf(),
    {
        let node = Promise {
            status: PromiseState::Pending,
            value: Cell::new(),
            call_back: Cell::new(),
            recv: Cell::new(),
        };
        (node, Rs { marker: PhantomData })
    }

    /// Attaches the continuation `f` and returns the node that stands for
    /// its result.
    ///
    /// On a pending node `f` is stored; the returned node is pending and
    /// comes with its resolver, for whoever receives the hand-off. On a
    /// resolved node `f` runs here on the value, and the returned node is
    /// resolved with the result. Behind a rejected node nothing runs and
    /// the returned node is rejected. A node that already holds a
    /// continuation, or whose value has been consumed, refuses `f` and stays
    /// as it was.
    pub fn then<D, G: Fn(Ret) -> D>(&mut self, f: F) -> (r: Result<
        (Promise<Ret, D, G>, Option<Rs<Ret, D>>),
        PromiseError,
    >)
        requires
            old(self)@.wf(),
            forall|a: Arg| call_requires(f, (a,)),
        ensures
            final(self)@.wf(),
            final(self)@ == old(self)@.attach(f),
            final(self)@.state == old(self)@.state || allowed(
                old(self)@.state,
                final(self)@.state,
            ),
            match r {
                Ok((next, rs)) => {
                    &&& old(self)@.attach_result() is Ok
                    &&& next@.wf()
                    &&& next@ == old(self)@.next::<D, G>(next@.value->Full_0)
                    &&& old(self)@.attach_runs(f) matches Some((g, a)) ==> call_ensures(
                        g,
                        (a,),
                        next@.value->Full_0,
                    )
                    &&& rs is Some <==> old(self)@.state == PromiseState::Pending
                },
                Err(e) => old(self)@.attach_result() == Err::<(), PromiseError>(e),
            },
    {
        if self.status.compare_exchange(PromiseState::Pending, PromiseState::Filled).is_ok() {
            let stored = self.call_back.set(f);
            assert(stored is Ok);
            let (next, rs) = Promise::<Ret, D, G>::new();
            return Ok((next, Some(rs)));
        }
        match self.status.compare_exchange(PromiseState::Ready, PromiseState::Finished) {
            Ok(_) => {
                let stored = self.call_back.set(f);
                assert(stored is Ok);
                let r = self.invoke();
                let (mut next, rs) = Promise::<Ret, D, G>::new();
                let settled = rs.resolve(&mut next, r);
                assert(settled is Ok);
                Ok((next, None))
            },
            Err(found) => match found {
                PromiseState::Rejected => {
                    let (mut next, rs) = Promise::<Ret, D, G>::new();
                    rs.reject(&mut next);
                    Ok((next, None))
                },
                PromiseState::Finished => Err(PromiseError::AlreadyConsumed),
                _ => Err(PromiseError::AlreadyAttached),
            },
        }
    }

    /// Receives the hand-off: the continuation's result comes out once,
    /// after resolving has run the continuation. Before that, and after it
    /// has been received, nothing comes out and the node stays as it is.
    pub fn receive(&mut self) -> (r: Option<Ret>)
        requires
            old(self)@.wf(),
        ensures
            final(self)@.wf(),
            r == old(self)@.received(),
            final(self)@ == old(self)@.receive(),
    {
        self.recv.take()
    }

    /// The state of the node.
    pub fn state(&self) -> (s: PromiseState)
        ensures
            s == self@.state,
    {
        self.status
    }

    /// The resolved value, while it waits for a continuation.
    pub fn value(&self) -> (v: Option<&Arg>)
        ensures
            v == match self@.value {
                SlotView::Full(a) => Some(&a),
                _ => None::<&Arg>,
            },
    {
        self.value.as_ref()
    }

    /// Runs the stored continuation on the stored value, which is taken out
    /// of its slot: a second run finds nothing to run on.
    fn invoke(&mut self) -> (r: Ret)
        requires
            old(self)@.value is Full,
            old(self)@.call_back is Full,
            call_requires(old(self)@.call_back->Full_0, (old(self)@.value->Full_0,)),
        ensures
            call_ensures(old(self)@.call_back->Full_0, (old(self)@.value->Full_0,), r),
            final(self)@ == (NodeView { value: SlotView::Taken, ..old(self)@ }),
    {
        let v = self.value.take().unwrap();
        let f = self.call_back.as_ref().unwrap();
        f(v)
    }
}

} // verus!
