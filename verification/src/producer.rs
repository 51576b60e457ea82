//! The producer abstraction: a lazy, possibly suspending source of values,
//! asked one item at a time, and a driver that drains a finite producer.

use vstd::prelude::*;

verus! {

/// What one request for the next item can yield.
pub enum Step<T> {
    /// The next item.
    Emit(T),
    /// No item this time: the producer either consumed input without having
    /// a full item to emit yet, or waits on outside input. It emitted
    /// nothing and lost nothing, and must simply be asked again.
    NotYet,
    /// The producer is exhausted and will never emit again.
    Done,
}

/// A producer of a sequence of values over time.
///
/// `model()` is the sequence of items the producer has still to emit, as far
/// as its present state determines them; every transformer in this crate is
/// specified by how `next` consumes that sequence. `size()` is a measure
/// that every emission strictly shrinks, and — for a `terminating()`
/// producer — every `NotYet` answer as well, so draining such a producer
/// terminates.
pub trait Producer<T> {
    /// The items this producer has still to emit, as far as its present
    /// state determines them.
    spec fn model(&self) -> Seq<T>;

    /// A measure of the work left before the producer must either emit or
    /// report exhaustion.
    spec fn size(&self) -> nat;

    /// Whether the producer runs out by itself: its model is everything it
    /// will ever emit. A bridge fed from outside between requests is not
    /// terminating.
    spec fn terminating(&self) -> bool;

    /// Whether the producer has reached genuine exhaustion: it reports
    /// itself exhausted, will never emit again, and once here stays here.
    /// A bridge fed from outside is never exhausted.
    spec fn exhausted(&self) -> bool;

    /// Whether a single request always makes real progress while work stands
    /// queued at the base. A lockstep pairing of two producers does not make
    /// this promise: one ask may advance only one of its sides.
    spec fn responsive(&self) -> bool;

    /// Asks for the next item. An emission hands out exactly the head of the
    /// model and never comes from an exhausted producer; `NotYet` preserves
    /// the model; exhaustion is genuine — reported only once the model is
    /// empty, leaving it empty — and never recedes. For a responsive
    /// producer, a request with work queued strictly shrinks it.
    fn next(&mut self) -> (step: Step<T>)
        ensures
            final(self).terminating() == old(self).terminating(),
            final(self).responsive() == old(self).responsive(),
            old(self).exhausted() ==> final(self).exhausted(),
            old(self).responsive() && old(self).size() > 0 ==> final(self).size() < old(
                self,
            ).size(),
            match step {
                Step::Emit(v) => !old(self).exhausted() && old(self).model().len() > 0 && v == old(
                    self,
                ).model()[0] && final(self).model() == old(self).model().drop_first()
                    && final(self).size() < old(self).size(),
                Step::NotYet => final(self).model() == old(self).model() && (old(
                    self,
                ).terminating() ==> final(self).size() < old(self).size()),
                Step::Done => old(self).model().len() == 0 && final(self).model() == old(
                    self,
                ).model() && final(self).exhausted(),
            },
    ;

    /// Whether the producer reports itself exhausted: exactly its genuine
    /// exhaustion, which leaves nothing to emit.
    fn is_terminated(&self) -> (r: bool)
        ensures
            r == self.exhausted(),
            r ==> self.model().len() == 0,
    ;
}

/// A finite producer over the items of a vector, in order. It never answers
/// `NotYet`: every request emits the next item or reports exhaustion.
pub struct VecSource<T> {
    pub values: Vec<T>,
    pub pos: usize,
}

impl<T: Copy> VecSource<T> {
    /// The producer of exactly the items of `values`, in order.
    pub fn new(values: Vec<T>) -> (source: VecSource<T>)
        ensures
            source.values == values,
            source.pos == 0,
            source.model() == values@,
            source.terminating(),
    {
        VecSource { values, pos: 0 }
    }
}

impl<T: Copy> Producer<T> for VecSource<T> {
    open spec fn model(&self) -> Seq<T> {
        if self.pos <= self.values@.len() {
            self.values@.skip(self.pos as int)
        } else {
            Seq::empty()
        }
    }

    open spec fn size(&self) -> nat {
        self.model().len()
    }

    open spec fn terminating(&self) -> bool {
        true
    }

    open spec fn exhausted(&self) -> bool {
        self.pos >= self.values@.len()
    }

    open spec fn responsive(&self) -> bool {
        true
    }

    fn next(&mut self) -> (step: Step<T>) {
        if self.pos < self.values.len() {
            let v = self.values[self.pos];
            proof {
                assert(self.values@.skip(self.pos as int + 1) =~= self.values@.skip(
                    self.pos as int,
                ).drop_first());
            }
            self.pos = self.pos + 1;
            Step::Emit(v)
        } else {
            Step::Done
        }
    }

    fn is_terminated(&self) -> (r: bool) {
        self.pos >= self.values.len()
    }
}

/// Asks `producer` for items until it reports exhaustion and returns every
/// emitted item, in order: exactly the producer's model, with zero loss and
/// zero duplication.
pub fn collect_values<T, P: Producer<T>>(producer: &mut P) -> (out: Vec<T>)
    requires
        old(producer).terminating(),
    ensures
        out@ == old(producer).model(),
{
    let mut out: Vec<T> = Vec::new();
    loop
        invariant
            producer.terminating(),
            out@ + producer.model() == old(producer).model(),
        ensures
            out@ == old(producer).model(),
        decreases producer.size(),
    {
        let ghost seen = out@;
        let ghost left = producer.model();
        match producer.next() {
            Step::Emit(v) => {
                out.push(v);
                proof {
                    assert(out@ + producer.model() =~= seen + left);
                }
            },
            Step::NotYet => {},
            Step::Done => {
                proof {
                    assert(out@ + producer.model() =~= out@);
                }
                break ;
            },
        }
    }
    out
}

} // verus!
