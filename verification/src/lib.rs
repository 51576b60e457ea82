//! A small reactive pipeline that turns a periodically sampled scalar signal
//! into edge-triggered events.
//!
//! Values flow through a chain of lazy transformers, each a state machine
//! with a single operation: produce the next item, report that it must be
//! asked again, or report exhaustion (see [`producer::Producer`]). The
//! concrete stages are a pairwise window transformer ([`window::Window`]),
//! boolean logical combinators ([`logic::AndFlow`], [`logic::OrFlow`],
//! [`logic::NotFlow`]), a rising-edge detector ([`edge::GoesActive`]) built
//! from the window and a filter, and a bridge ([`bridge::Bridge`]) that
//! adapts a shared, externally mutated value — sampled once per timer tick
//! under a mutual-exclusion boundary that the caller owns — into a producer.

use vstd::prelude::*;

pub mod bridge;
pub mod buttons;
pub mod edge;
pub mod logic;
pub mod producer;
pub mod window;

verus! {

/// A single observation of a signal: the sampled value and the time it was
/// observed, in milliseconds. The timestamp records observation time, not
/// processing time; observations are compared by value, never by timestamp.
#[derive(Clone, PartialEq, Debug)]
pub struct SensorData<T> {
    pub value: T,
    pub timestamp: u64,
}

} // verus!
