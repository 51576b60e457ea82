//! The periodic signal-sampling bridge: adapts a shared, externally mutated
//! value into a producer by sampling it once per fixed interval.
//!
//! The timer and the mutual-exclusion boundary belong to the caller, who
//! once per tick acquires the boundary over the shared state, applies a pure
//! extraction to the locked value, releases the boundary, and hands the
//! extracted value to [`Bridge::push_sample`]. The bridge then emits exactly
//! the delivered samples, in delivery order: the n-th emitted value is the
//! value read under the boundary at the n-th tick, never a later write. A
//! poisoned boundary (a prior holder failed while holding it) is fatal for
//! the bridge and must not be papered over with a stale or default value;
//! surfacing it is the caller's part, since the boundary is the caller's.

use vstd::prelude::*;
use crate::producer::{Producer, Step};

verus! {

/// A producer fed one sample per timer tick from outside. It never reports
/// exhaustion — sampling is unbounded, and only the caller's ceasing to poll
/// stops it — and answers `NotYet` while no delivered sample is waiting.
pub struct Bridge<T> {
    pub samples: Vec<T>,
}

impl<T> Bridge<T> {
    /// A bridge that has been handed no sample yet.
    pub fn new() -> (b: Bridge<T>)
        ensures
            b.model() == Seq::<T>::empty(),
            !b.terminating(),
    {
        Bridge { samples: Vec::new() }
    }

    /// Delivers the value read under the mutual-exclusion boundary at one
    /// tick. The sample joins the end of the pending emissions: samples are
    /// emitted exactly once each, in delivery order, never reordered and
    /// never replaced by a later delivery.
    pub fn push_sample(&mut self, v: T)
        ensures
            final(self).model() == old(self).model().push(v),
    {
        self.samples.push(v);
    }
}

impl<T> Producer<T> for Bridge<T> {
    /// The delivered samples not yet emitted, oldest first.
    open spec fn model(&self) -> Seq<T> {
        self.samples@
    }

    open spec fn size(&self) -> nat {
        self.samples@.len()
    }

    /// The bridge never runs out by itself: what it will emit is not
    /// determined by its state, but by what the caller delivers.
    open spec fn terminating(&self) -> bool {
        false
    }

    /// The bridge never reaches exhaustion.
    open spec fn exhausted(&self) -> bool {
        false
    }

    /// One request always takes the oldest waiting sample, if any.
    open spec fn responsive(&self) -> bool {
        true
    }

    fn next(&mut self) -> (step: Step<T>)
        ensures
            old(self).samples@.len() > 0 ==> step == Step::Emit(old(self).samples@[0]),
            old(self).samples@.len() == 0 ==> (step matches Step::NotYet),
    {
        if self.samples.len() > 0 {
            let v = self.samples.remove(0);
            proof {
                assert(self.samples@ =~= old(self).samples@.drop_first());
            }
            Step::Emit(v)
        } else {
            Step::NotYet
        }
    }

    /// The bridge never reports itself exhausted.
    fn is_terminated(&self) -> (r: bool)
        ensures
            !r,
    {
        false
    }
}

} // verus!
