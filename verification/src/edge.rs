//! The "goes active" edge detector: a window composed with a filter that
//! lets a pair through only on a false-to-true transition.

use vstd::prelude::*;
use crate::bridge::Bridge;
use crate::producer::{Producer, Step};
use crate::window::{pairs, Window};

verus! {

/// The rising edges among consecutive pairs: the current value of every pair
/// whose previous value is false and whose current value is true, in order.
pub open spec fn rising_pairs(ps: Seq<(bool, bool)>) -> Seq<bool>
    decreases ps.len(),
{
    if ps.len() == 0 {
        Seq::empty()
    } else if !ps[0].0 && ps[0].1 {
        seq![ps[0].1] + rising_pairs(ps.drop_first())
    } else {
        rising_pairs(ps.drop_first())
    }
}

/// The rising-edge events of a sampled boolean signal: one event per
/// false-to-true transition between consecutive samples.
pub open spec fn rising_events(s: Seq<bool>) -> Seq<bool> {
    rising_pairs(pairs(s))
}

/// How many consecutive pairs are rising, a false value followed by a true
/// one.
pub open spec fn count_rising(ps: Seq<(bool, bool)>) -> nat
    decreases ps.len(),
{
    if ps.len() == 0 {
        0
    } else {
        (if !ps[0].0 && ps[0].1 {
            1nat
        } else {
            0nat
        }) + count_rising(ps.drop_first())
    }
}

proof fn lemma_rising_pairs_shape(ps: Seq<(bool, bool)>)
    ensures
        rising_pairs(ps).len() == count_rising(ps),
        forall|j: int| 0 <= j < rising_pairs(ps).len() ==> rising_pairs(ps)[j] == true,
    decreases ps.len(),
{
    if ps.len() > 0 {
        lemma_rising_pairs_shape(ps.drop_first());
        if !ps[0].0 && ps[0].1 {
            let rest = rising_pairs(ps.drop_first());
            assert forall|j: int| 0 <= j < rising_pairs(ps).len() implies rising_pairs(ps)[j]
                == true by {
                if j > 0 {
                    assert(rising_pairs(ps)[j] == rest[j - 1]);
                }
            }
        }
    }
}

/// The edge detector emits exactly once per rising transition — one `true`
/// event for every consecutive pair of samples that goes from false to true
/// — and emits nothing for falling or repeated-high pairs.
pub proof fn lemma_goes_active_exact(s: Seq<bool>)
    ensures
        rising_events(s).len() == count_rising(pairs(s)),
        forall|j: int| 0 <= j < rising_events(s).len() ==> rising_events(s)[j] == true,
{
    lemma_rising_pairs_shape(pairs(s));
}

proof fn lemma_rising_pairs_none(ps: Seq<(bool, bool)>)
    requires
        forall|i: int| 0 <= i < ps.len() ==> !(!ps[i].0 && ps[i].1),
    ensures
        rising_pairs(ps).len() == 0,
    decreases ps.len(),
{
    if ps.len() > 0 {
        assert(forall|i: int|
            0 <= i < ps.drop_first().len() ==> ps.drop_first()[i] == ps[i + 1]);
        lemma_rising_pairs_none(ps.drop_first());
    }
}

/// A constant signal — in particular one that is all false, or all true —
/// has no rising transition, so the edge detector emits nothing for it,
/// whatever its length.
pub proof fn lemma_goes_active_constant(s: Seq<bool>)
    requires
        forall|i: int| 0 <= i < s.len() ==> #[trigger] s[i] == s[0],
    ensures
        rising_events(s).len() == 0,
{
    assert(forall|i: int|
        0 <= i < pairs(s).len() ==> !(!pairs(s)[i].0 && pairs(s)[i].1));
    lemma_rising_pairs_none(pairs(s));
}

/// "Goes active" edge detector over the items of a boolean source: a window
/// composed with a filter, it emits the current value of a consecutive pair
/// exactly when the previous value is false and the current one true. Two
/// consecutive true observations produce no second event, since the second
/// pair's previous half is already true.
pub struct GoesActive<S> {
    pub window: Window<bool, S>,
}

impl<S: Producer<bool>> GoesActive<S> {
    /// The whole input still to flow through the detector: the window's
    /// retained value, if any, then everything the source has still to emit.
    pub open spec fn upstream(&self) -> Seq<bool> {
        self.window.upstream()
    }

    /// The rising-edge events of everything `source` emits.
    pub fn new(source: S) -> (g: GoesActive<S>)
        ensures
            g.window.source == source,
            g.window.prior_value is None,
            g.model() == rising_events(source.model()),
            g.upstream() == source.model(),
            g.terminating() == source.terminating(),
    {
        GoesActive { window: Window::new(source) }
    }

    /// A reference to the underlying source this detector is pulling from.
    pub fn get_ref(&self) -> (r: &S)
        ensures
            *r == self.window.source,
    {
        self.window.get_ref()
    }

    /// A mutable reference to the underlying source this detector is pulling
    /// from, to let the caller feed it between requests.
    pub fn get_mut(&mut self) -> (r: &mut S)
        ensures
            *r == old(self).window.source,
            final(self).window.source == *final(r),
            final(self).window.prior_value == old(self).window.prior_value,
    {
        self.window.get_mut()
    }

    /// Consumes this detector, returning the underlying source.
    pub fn into_inner(self) -> (r: S)
        ensures
            r == self.window.source,
    {
        self.window.into_inner()
    }
}

impl GoesActive<Bridge<bool>> {
    /// One protocol round of the periodic sampling bridge: deliver the value
    /// read under the mutual-exclusion boundary at this tick, advance the
    /// pipeline once, and hand back this tick's rising-edge event, if any —
    /// an event comes exactly when the retained previous sample was false
    /// and this one is true. The round leaves no sample waiting and retains
    /// this sample as the next round's previous half.
    pub fn on_tick(&mut self, sample: bool) -> (event: Option<bool>)
        requires
            old(self).window.source.samples@.len() == 0,
        ensures
            final(self).window.source.samples@.len() == 0,
            final(self).window.prior_value == Option::Some(sample),
            event == (if old(self).window.prior_value == Option::Some(false) && sample {
                Option::Some(true)
            } else {
                Option::<bool>::None
            }),
    {
        self.get_mut().push_sample(sample);
        let ghost fed = *self;
        proof {
            assert(fed.window.source.samples@ =~= seq![sample]);
            // what the delivery determines: at most one pair, against the
            // retained previous sample
            match fed.window.prior_value {
                Option::None => {
                    assert(fed.window.upstream() =~= seq![sample]);
                    assert(fed.model() =~= Seq::<bool>::empty());
                },
                Option::Some(p) => {
                    assert(fed.window.upstream() =~= seq![p, sample]);
                    assert(pairs(seq![p, sample]) =~= seq![(p, sample)]);
                    assert(seq![(p, sample)].drop_first() =~= Seq::<(bool, bool)>::empty());
                    assert(rising_pairs(Seq::<(bool, bool)>::empty()) =~= Seq::<bool>::empty());
                    assert(fed.window.model() == seq![(p, sample)]);
                    if !p && sample {
                        assert(rising_pairs(seq![(p, sample)]) =~= seq![sample] + rising_pairs(
                            seq![(p, sample)].drop_first(),
                        ));
                        assert(fed.model() =~= seq![true]);
                    } else {
                        assert(fed.model() =~= Seq::<bool>::empty());
                    }
                },
            }
        }
        let step = self.next();
        proof {
            // a request with a sample waiting consumes it: the pipeline is
            // quiet again, with the sample retained
            assert(fed.size() == 1);
            assert(self.window.source.samples@.len() == 0);
            assert(self.window.prior_value == Option::Some(sample));
            assert(self.window.upstream() =~= seq![sample]);
            assert(pairs(seq![sample]).len() == 0);
            assert(self.model() =~= Seq::<bool>::empty());
        }
        match step {
            Step::Emit(e) => Option::Some(e),
            Step::NotYet => Option::None,
            Step::Done => unreached(),
        }
    }
}

impl<S: Producer<bool>> Producer<bool> for GoesActive<S> {
    /// The events still to be emitted: the rising edges among the
    /// consecutive pairs of the input still to flow through.
    open spec fn model(&self) -> Seq<bool> {
        rising_pairs(self.window.model())
    }

    open spec fn size(&self) -> nat {
        self.window.size()
    }

    /// The detector runs out exactly when its source does.
    open spec fn terminating(&self) -> bool {
        self.window.terminating()
    }

    /// The detector is exhausted exactly when its source is.
    open spec fn exhausted(&self) -> bool {
        self.window.exhausted()
    }

    open spec fn responsive(&self) -> bool {
        self.window.responsive()
    }

    fn next(&mut self) -> (step: Step<bool>)
        ensures
            old(self).window.prior_value is None && old(self).window.source.model().len() > 0
                ==> (step matches Step::NotYet),
            (final(self).window.source.model() == old(self).window.source.model()
                && final(self).window.prior_value == old(self).window.prior_value) || (old(
                self,
            ).window.source.model().len() > 0 && final(self).window.source.model() == old(
                self,
            ).window.source.model().drop_first() && final(self).window.prior_value == Option::Some(
                old(self).window.source.model()[0],
            )),
    {
        let ghost entry = *self;
        match self.window.next() {
            Step::Done => Step::Done,
            Step::NotYet => Step::NotYet,
            Step::Emit(pair) => {
                let (prev, current) = pair;
                proof {
                    assert(entry.window.model()[0] == (prev, current));
                    assert(entry.window.model().drop_first() == self.window.model());
                }
                if !prev && current {
                    proof {
                        assert(entry.model() =~= seq![current] + self.model());
                    }
                    Step::Emit(current)
                } else {
                    // a falling or repeated pair: consumed, nothing emitted
                    Step::NotYet
                }
            },
        }
    }

    fn is_terminated(&self) -> (r: bool) {
        self.window.is_terminated()
    }
}

} // verus!
