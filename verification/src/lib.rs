//! A minimal promise combinator, written as an explicit state machine.
//!
//! A promise node couples a five-state tag with two single-assignment slots
//! (the resolved value and the continuation) and a one-shot hand-off slot for
//! the continuation's result. The producer side settles a node through its
//! resolver, the consumer side attaches a continuation; whichever of the two
//! arrives second runs the continuation, exactly once.
//!
//! Every operation is one atomic transition on a node that the caller holds
//! exclusively. How a node is shared between workers, and how a worker waits
//! for a hand-off, is left to the caller.
//!
//! Three choices are fixed throughout. A transition that a node refuses is
//! reported to the caller and leaves the node as it was. Rejection is passed
//! on: the node returned behind a rejected node is itself rejected, and no
//! continuation behind it ever runs. A hand-off that will never come settles
//! the waiting node as rejected.
//!
//! - [`cell`]: the single-assignment slot.
//! - [`state`]: the state tag and its transition table.
//! - [`promise`]: nodes, resolvers and their transitions.
//! - [`laws`]: what holds of the transitions taken together.
//! - [`race`]: the transitions taken apart into steps and interleaved.

pub mod cell;
pub mod laws;
pub mod promise;
pub mod race;
pub mod state;

pub use cell::{Cell, SlotView};
pub use promise::{NodeView, Promise, PromiseError, Rs};
pub use state::{PromiseState, FILL, FINISH, PENDING, READY, REJECT};
