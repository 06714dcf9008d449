//! The five-state tag of a promise node and its transition table.

use vstd::prelude::*;

verus! {

/// Tag of a node that has neither a value nor a continuation.
pub const PENDING: u8 = 0;

/// Tag of a node whose continuation is attached while its value is awaited.
pub const FILL: u8 = 1;

/// Tag of a node whose value is present while no continuation is attached.
pub const READY: u8 = 2;

/// Tag of a node whose producer declined to resolve.
pub const REJECT: u8 = 3;

/// Tag of a node whose value has been consumed by its continuation.
pub const FINISH: u8 = 4;

/// The state of a promise node.
#[derive(Clone, Copy, Debug, PartialEq, Eq, Structural)]
pub enum PromiseState {
    /// No value, no continuation.
    Pending,
    /// Continuation attached, value pending.
    Filled,
    /// Value present, continuation pending.
    Ready,
    /// The producer declined to resolve.
    Rejected,
    /// The value has been consumed; terminal.
    Finished,
}

/// The transition table: the moves that settling or attaching may make.
pub open spec fn allowed(from: PromiseState, to: PromiseState) -> bool {
    match (from, to) {
        (PromiseState::Pending, PromiseState::Filled) => true,
        (PromiseState::Pending, PromiseState::Ready) => true,
        (PromiseState::Filled, PromiseState::Finished) => true,
        (PromiseState::Ready, PromiseState::Finished) => true,
        (PromiseState::Pending, PromiseState::Rejected) => true,
        (PromiseState::Filled, PromiseState::Rejected) => true,
        (PromiseState::Ready, PromiseState::Rejected) => true,
        _ => false,
    }
}

/// What a compare-and-swap leaves in the tag: `new` where the tag held
/// `expected`, the tag as it was otherwise.
pub open spec fn swapped(
    current: PromiseState,
    expected: PromiseState,
    new: PromiseState,
) -> PromiseState {
    if current == expected {
        new
    } else {
        current
    }
}

impl PromiseState {
    /// The number that stands for this state.
    pub open spec fn spec_tag(self) -> u8 {
        match self {
            PromiseState::Pending => PENDING,
            PromiseState::Filled => FILL,
            PromiseState::Ready => READY,
            PromiseState::Rejected => REJECT,
            PromiseState::Finished => FINISH,
        }
    }

    /// The state that a number stands for, if any.
    pub open spec fn spec_from_tag(tag: u8) -> Option<PromiseState> {
        if tag == PENDING {
            Some(PromiseState::Pending)
        } else if tag == FILL {
            Some(PromiseState::Filled)
        } else if tag == READY {
            Some(PromiseState::Ready)
        } else if tag == REJECT {
            Some(PromiseState::Rejected)
        } else if tag == FINISH {
            Some(PromiseState::Finished)
        } else {
            None
        }
    }

    /// Whether no settling or attaching move leaves this state.
    pub open spec fn is_terminal(self) -> bool {
        self == PromiseState::Rejected || self == PromiseState::Finished
    }

    #[verifier::when_used_as_spec(spec_tag)]
    pub fn tag(self) -> (t: u8)
        ensures
            t == self.spec_tag(),
    {
        match self {
            PromiseState::Pending => PENDING,
            PromiseState::Filled => FILL,
            PromiseState::Ready => READY,
            PromiseState::Rejected => REJECT,
            PromiseState::Finished => FINISH,
        }
    }

    /// Reads a state from its number; any number but the five tags is
    /// refused.
    #[verifier::when_used_as_spec(spec_from_tag)]
    pub fn from_tag(tag: u8) -> (s: Option<PromiseState>)
        ensures
            s == Self::spec_from_tag(tag),
    {
        if tag == PENDING {
            Some(PromiseState::Pending)
        } else if tag == FILL {
            Some(PromiseState::Filled)
        } else if tag == READY {
            Some(PromiseState::Ready)
        } else if tag == REJECT {
            Some(PromiseState::Rejected)
        } else if tag == FINISH {
            Some(PromiseState::Finished)
        } else {
            None
        }
    }

    /// Compare-and-swap on the tag: where it holds `expected` it becomes
    /// `new` and the call succeeds with the old tag; otherwise it stays and
    /// the call fails with the tag that was found.
    pub fn compare_exchange(&mut self, expected: PromiseState, new: PromiseState) -> (r: Result<
        PromiseState,
        PromiseState,
    >)
        ensures
            *final(self) == swapped(*old(self), expected, new),
            r == if *old(self) == expected {
                Ok::<PromiseState, PromiseState>(expected)
            } else {
                Err::<PromiseState, PromiseState>(*old(self))
            },
    {
        let found = *self;
        if found == expected {
            *self = new;
            Ok(found)
        } else {
            Err(found)
        }
    }
}

} // verus!
