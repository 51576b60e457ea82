//! The pairwise-window transformer: wraps a producer of values and emits the
//! consecutive pairs (previous, current), one pair per input item after the
//! first.

use vstd::prelude::*;
use crate::producer::{Producer, Step};

verus! {

/// The consecutive pairs of `s`: one pair per element after the first, the
/// pair at position `i` being `(s[i], s[i + 1])`. A sequence with at most
/// one element has no pairs.
pub open spec fn pairs<T>(s: Seq<T>) -> Seq<(T, T)> {
    if s.len() == 0 {
        Seq::empty()
    } else {
        Seq::new((s.len() - 1) as nat, |i: int| (s[i], s[i + 1]))
    }
}

/// Windowing a sequence of at least two values yields exactly one pair per
/// consecutive position, in source order — `len - 1` pairs with the pair at
/// position `i` equal to `(s[i], s[i + 1])` — and windowing a sequence of at
/// most one value yields nothing.
pub proof fn lemma_pairs_exact<T>(s: Seq<T>)
    ensures
        s.len() <= 1 ==> pairs(s).len() == 0,
        s.len() >= 2 ==> pairs(s).len() == s.len() - 1,
        forall|i: int| 0 <= i < pairs(s).len() ==> pairs(s)[i] == (s[i], s[i + 1]),
{
}

/// Dropping a sequence's first element drops the window's first pair and
/// keeps the rest.
pub proof fn lemma_pairs_drop_first<T>(s: Seq<T>)
    requires
        s.len() >= 2,
    ensures
        pairs(s).drop_first() == pairs(s.drop_first()),
{
    assert(pairs(s).drop_first() =~= pairs(s.drop_first()));
}

/// Projecting every pair to its second component.
pub open spec fn seconds<T>(ps: Seq<(T, T)>) -> Seq<T> {
    ps.map_values(|p: (T, T)| p.1)
}

/// Projecting the window's pairs back to scalars through their second
/// components gives the input without its first element, so windowing that
/// projection is exactly windowing the input's tail — re-windowing composes
/// consistently on any sequence, in particular on an edge-detected one.
pub proof fn lemma_window_of_projected_pairs<T>(s: Seq<T>)
    requires
        s.len() >= 1,
    ensures
        seconds(pairs(s)) == s.drop_first(),
        pairs(seconds(pairs(s))) == pairs(s.drop_first()),
{
    assert(seconds(pairs(s)) =~= s.drop_first());
}

/// Pairwise-window transformer over the items of `source`. It retains
/// exactly one slot, the most recently seen value, overwritten on every new
/// observation; it emits no pair until two values have been seen, and never
/// emits a fractional pair: when the source is exhausted, a buffered value
/// that never became a pair's previous half is dropped.
pub struct Window<T, S> {
    pub source: S,
    pub prior_value: Option<T>,
}

impl<T: Copy, S: Producer<T>> Window<T, S> {
    /// The retained slot as a sequence: what stands before the source's
    /// items in the input still to flow through this window.
    pub open spec fn prior_seq(&self) -> Seq<T> {
        match self.prior_value {
            Option::None => Seq::empty(),
            Option::Some(p) => seq![p],
        }
    }

    /// The whole input still to flow through this window: the retained
    /// value, if any, then everything the source has still to emit.
    pub open spec fn upstream(&self) -> Seq<T> {
        self.prior_seq() + self.source.model()
    }

    /// A window over `source` that has not yet seen a value.
    pub fn new(source: S) -> (w: Window<T, S>)
        ensures
            w.source == source,
            w.prior_value is None,
            w.model() == pairs(source.model()),
            w.upstream() == source.model(),
            w.terminating() == source.terminating(),
    {
        let w = Window { source, prior_value: Option::None };
        proof {
            assert(w.upstream() =~= w.source.model());
        }
        w
    }

    /// A reference to the underlying source this window is pulling from.
    pub fn get_ref(&self) -> (r: &S)
        ensures
            *r == self.source,
    {
        &self.source
    }

    /// A mutable reference to the underlying source this window is pulling
    /// from. Care must be taken not to confuse the window: feeding the
    /// source is fine, stealing items from it changes what the window emits.
    pub fn get_mut(&mut self) -> (r: &mut S)
        ensures
            *r == old(self).source,
            final(self).source == *final(r),
            final(self).prior_value == old(self).prior_value,
    {
        &mut self.source
    }

    /// Consumes this window, returning the underlying source and dropping
    /// the retained value.
    pub fn into_inner(self) -> (r: S)
        ensures
            r == self.source,
    {
        self.source
    }
}

impl<T: Copy, S: Producer<T>> Producer<(T, T)> for Window<T, S> {
    /// The pairs still to be emitted: the consecutive pairs of the input
    /// still to flow through.
    open spec fn model(&self) -> Seq<(T, T)> {
        pairs(self.upstream())
    }

    open spec fn size(&self) -> nat {
        self.source.size()
    }

    /// The window runs out exactly when its source does.
    open spec fn terminating(&self) -> bool {
        self.source.terminating()
    }

    /// The window is exhausted exactly when its source is.
    open spec fn exhausted(&self) -> bool {
        self.source.exhausted()
    }

    open spec fn responsive(&self) -> bool {
        self.source.responsive()
    }

    fn next(&mut self) -> (step: Step<(T, T)>)
        ensures
            old(self).prior_value is None && old(self).source.model().len() > 0 ==> (step matches
            Step::NotYet),
            (final(self).source.model() == old(self).source.model() && final(self).prior_value
                == old(self).prior_value) || (old(self).source.model().len() > 0
                && final(self).source.model() == old(self).source.model().drop_first()
                && final(self).prior_value == Option::Some(old(self).source.model()[0])),
    {
        let ghost entry = *self;
        match self.source.next() {
            Step::Done => {
                // exhaustion propagates; a lone buffered value makes no pair
                Step::Done
            },
            Step::NotYet => {
                proof {
                    assert(self.upstream() =~= entry.upstream());
                }
                Step::NotYet
            },
            Step::Emit(v) => {
                proof {
                    assert(entry.source.model() =~= seq![v] + self.source.model());
                }
                match self.prior_value {
                    Option::None => {
                        // first value seen: buffer it, emit nothing, and ask
                        // to be asked again at once
                        self.prior_value = Option::Some(v);
                        proof {
                            assert(self.upstream() =~= entry.upstream());
                        }
                        Step::NotYet
                    },
                    Option::Some(p) => {
                        self.prior_value = Option::Some(v);
                        proof {
                            assert(entry.upstream()[0] == p);
                            assert(entry.upstream()[1] == v);
                            assert(self.upstream() =~= entry.upstream().drop_first());
                            lemma_pairs_drop_first(entry.upstream());
                        }
                        Step::Emit((p, v))
                    },
                }
            },
        }
    }

    fn is_terminated(&self) -> (r: bool) {
        self.source.is_terminated()
    }
}

} // verus!
