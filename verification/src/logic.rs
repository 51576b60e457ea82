//! Boolean logical combinators over producers: pointwise NOT over one
//! producer, and positional, lockstep OR / AND over two producers.

use vstd::prelude::*;
use crate::producer::{Producer, Step};

verus! {

/// Every item complemented.
pub open spec fn not_all(s: Seq<bool>) -> Seq<bool> {
    s.map_values(|b: bool| !b)
}

/// The shorter of two lengths.
pub open spec fn min_len(a: nat, b: nat) -> nat {
    if a <= b {
        a
    } else {
        b
    }
}

/// The positional OR of two sequences, truncated at the shorter one.
pub open spec fn or_zip(a: Seq<bool>, b: Seq<bool>) -> Seq<bool> {
    Seq::new(min_len(a.len(), b.len()), |i: int| a[i] || b[i])
}

/// The positional AND of two sequences, truncated at the shorter one.
pub open spec fn and_zip(a: Seq<bool>, b: Seq<bool>) -> Seq<bool> {
    Seq::new(min_len(a.len(), b.len()), |i: int| a[i] && b[i])
}

/// The binary combinators are pointwise correct and purely positional: the
/// output is as long as the shorter input, and the item at every position is
/// exactly the OR, or the AND, of the two inputs' items at that position —
/// no alignment beyond position, no fabricated items.
pub proof fn lemma_or_and_pointwise(a: Seq<bool>, b: Seq<bool>)
    ensures
        or_zip(a, b).len() == min_len(a.len(), b.len()),
        and_zip(a, b).len() == min_len(a.len(), b.len()),
        forall|i: int| 0 <= i < or_zip(a, b).len() ==> or_zip(a, b)[i] == (a[i] || b[i]),
        forall|i: int| 0 <= i < and_zip(a, b).len() ==> and_zip(a, b)[i] == (a[i] && b[i]),
{
}

/// NOT is involutive: complementing a finite boolean sequence twice gives
/// back exactly the original sequence.
pub proof fn lemma_not_involutive(s: Seq<bool>)
    ensures
        not_all(not_all(s)) == s,
{
    assert(not_all(not_all(s)) =~= s);
}

/// Dropping both heads drops the zipped head.
proof fn lemma_zip_drop_first(a: Seq<bool>, b: Seq<bool>)
    requires
        a.len() >= 1,
        b.len() >= 1,
    ensures
        or_zip(a, b).drop_first() == or_zip(a.drop_first(), b.drop_first()),
        and_zip(a, b).drop_first() == and_zip(a.drop_first(), b.drop_first()),
{
    assert(or_zip(a, b).drop_first() =~= or_zip(a.drop_first(), b.drop_first()));
    assert(and_zip(a, b).drop_first() =~= and_zip(a.drop_first(), b.drop_first()));
}

/// Unary NOT combinator: emits the logical complement of each item of the
/// source, one for one; it terminates exactly when the source does.
pub struct NotFlow<S> {
    pub source: S,
}

impl<S: Producer<bool>> NotFlow<S> {
    /// The complement of everything `source` emits.
    pub fn new(source: S) -> (f: NotFlow<S>)
        ensures
            f.source == source,
            f.model() == not_all(source.model()),
            f.terminating() == source.terminating(),
    {
        NotFlow { source }
    }
}

impl<S: Producer<bool>> Producer<bool> for NotFlow<S> {
    open spec fn model(&self) -> Seq<bool> {
        not_all(self.source.model())
    }

    open spec fn size(&self) -> nat {
        self.source.size()
    }

    open spec fn terminating(&self) -> bool {
        self.source.terminating()
    }

    /// NOT is exhausted exactly when its source is.
    open spec fn exhausted(&self) -> bool {
        self.source.exhausted()
    }

    open spec fn responsive(&self) -> bool {
        self.source.responsive()
    }

    fn next(&mut self) -> (step: Step<bool>) {
        let ghost entry = *self;
        match self.source.next() {
            Step::Done => Step::Done,
            Step::NotYet => Step::NotYet,
            Step::Emit(v) => {
                proof {
                    assert(entry.model()[0] == !v);
                    assert(entry.model().drop_first() =~= self.model());
                }
                Step::Emit(!v)
            },
        }
    }

    fn is_terminated(&self) -> (r: bool) {
        self.source.is_terminated()
    }
}

/// Binary OR combinator: advances both sources in lockstep, one item from
/// each per step, and emits the OR of each positional pair. It is exhausted
/// as soon as either source is, and fabricates nothing for the longer one;
/// pre-synchronizing the two sources is the caller's responsibility.
pub struct OrFlow<A, B> {
    pub left: A,
    pub right: B,
    pub pending: Option<bool>,
}

impl<A: Producer<bool>, B: Producer<bool>> OrFlow<A, B> {
    /// The left item of the current lockstep, if the left source has already
    /// produced it and the right has not answered yet, then everything the
    /// left source has still to emit.
    pub open spec fn left_model(&self) -> Seq<bool> {
        match self.pending {
            Option::Some(x) => seq![x] + self.left.model(),
            Option::None => self.left.model(),
        }
    }

    /// The positional OR of everything `left` and `right` emit.
    pub fn new(left: A, right: B) -> (f: OrFlow<A, B>)
        ensures
            f.left == left,
            f.right == right,
            f.pending is None,
            f.model() == or_zip(left.model(), right.model()),
            f.terminating() == (left.terminating() && right.terminating()),
    {
        OrFlow { left, right, pending: Option::None }
    }
}

impl<A: Producer<bool>, B: Producer<bool>> Producer<bool> for OrFlow<A, B> {
    open spec fn model(&self) -> Seq<bool> {
        or_zip(self.left_model(), self.right.model())
    }

    open spec fn size(&self) -> nat {
        self.left.size() + self.right.size()
    }

    open spec fn terminating(&self) -> bool {
        self.left.terminating() && self.right.terminating()
    }

    /// The combinator is exhausted when either side can no longer supply its
    /// half of the current lockstep.
    open spec fn exhausted(&self) -> bool {
        if self.pending is Some {
            self.right.exhausted()
        } else {
            self.left.exhausted() || self.right.exhausted()
        }
    }

    /// Lockstep pairing makes no single-ask progress promise: one ask may
    /// advance only one of its sides.
    open spec fn responsive(&self) -> bool {
        false
    }

    fn next(&mut self) -> (step: Step<bool>) {
        let ghost entry = *self;
        if self.pending.is_none() {
            match self.left.next() {
                Step::Done => {
                    return Step::Done;
                },
                Step::NotYet => {
                    return Step::NotYet;
                },
                Step::Emit(x) => {
                    self.pending = Option::Some(x);
                    proof {
                        assert(self.left_model() =~= entry.left_model());
                    }
                },
            }
        }
        let ghost mid = *self;
        proof {
            assert(mid.left_model() == entry.left_model());
            assert(mid.left_model().len() >= 1);
        }
        let x = self.pending.unwrap();
        match self.right.next() {
            Step::Done => {
                proof {
                    assert(entry.model().len() == 0);
                    assert(self.model() =~= entry.model());
                }
                Step::Done
            },
            Step::NotYet => Step::NotYet,
            Step::Emit(y) => {
                self.pending = Option::None;
                proof {
                    assert(entry.right.model()[0] == y);
                    assert(mid.left_model()[0] == x);
                    assert(entry.model()[0] == (x || y));
                    assert(self.left_model() =~= mid.left_model().drop_first());
                    lemma_zip_drop_first(mid.left_model(), entry.right.model());
                }
                Step::Emit(x || y)
            },
        }
    }

    fn is_terminated(&self) -> (r: bool) {
        if self.pending.is_none() {
            self.left.is_terminated() || self.right.is_terminated()
        } else {
            self.right.is_terminated()
        }
    }
}

/// Binary AND combinator: advances both sources in lockstep, one item from
/// each per step, and emits the AND of each positional pair. It is exhausted
/// as soon as either source is, and fabricates nothing for the longer one;
/// pre-synchronizing the two sources is the caller's responsibility.
pub struct AndFlow<A, B> {
    pub left: A,
    pub right: B,
    pub pending: Option<bool>,
}

impl<A: Producer<bool>, B: Producer<bool>> AndFlow<A, B> {
    /// The left item of the current lockstep, if the left source has already
    /// produced it and the right has not answered yet, then everything the
    /// left source has still to emit.
    pub open spec fn left_model(&self) -> Seq<bool> {
        match self.pending {
            Option::Some(x) => seq![x] + self.left.model(),
            Option::None => self.left.model(),
        }
    }

    /// The positional AND of everything `left` and `right` emit.
    pub fn new(left: A, right: B) -> (f: AndFlow<A, B>)
        ensures
            f.left == left,
            f.right == right,
            f.pending is None,
            f.model() == and_zip(left.model(), right.model()),
            f.terminating() == (left.terminating() && right.terminating()),
    {
        AndFlow { left, right, pending: Option::None }
    }
}

impl<A: Producer<bool>, B: Producer<bool>> Producer<bool> for AndFlow<A, B> {
    open spec fn model(&self) -> Seq<bool> {
        and_zip(self.left_model(), self.right.model())
    }

    open spec fn size(&self) -> nat {
        self.left.size() + self.right.size()
    }

    open spec fn terminating(&self) -> bool {
        self.left.terminating() && self.right.terminating()
    }

    /// The combinator is exhausted when either side can no longer supply its
    /// half of the current lockstep.
    open spec fn exhausted(&self) -> bool {
        if self.pending is Some {
            self.right.exhausted()
        } else {
            self.left.exhausted() || self.right.exhausted()
        }
    }

    /// Lockstep pairing makes no single-ask progress promise: one ask may
    /// advance only one of its sides.
    open spec fn responsive(&self) -> bool {
        false
    }

    fn next(&mut self) -> (step: Step<bool>) {
        let ghost entry = *self;
        if self.pending.is_none() {
            match self.left.next() {
                Step::Done => {
                    return Step::Done;
                },
                Step::NotYet => {
                    return Step::NotYet;
                },
                Step::Emit(x) => {
                    self.pending = Option::Some(x);
                    proof {
                        assert(self.left_model() =~= entry.left_model());
                    }
                },
            }
        }
        let ghost mid = *self;
        proof {
            assert(mid.left_model() == entry.left_model());
            assert(mid.left_model().len() >= 1);
        }
        let x = self.pending.unwrap();
        match self.right.next() {
            Step::Done => {
                proof {
                    assert(entry.model().len() == 0);
                    assert(self.model() =~= entry.model());
                }
                Step::Done
            },
            Step::NotYet => Step::NotYet,
            Step::Emit(y) => {
                self.pending = Option::None;
                proof {
                    assert(entry.right.model()[0] == y);
                    assert(mid.left_model()[0] == x);
                    assert(entry.model()[0] == (x && y));
                    assert(self.left_model() =~= mid.left_model().drop_first());
                    lemma_zip_drop_first(mid.left_model(), entry.right.model());
                }
                Step::Emit(x && y)
            },
        }
    }

    fn is_terminated(&self) -> (r: bool) {
        if self.pending.is_none() {
            self.left.is_terminated() || self.right.is_terminated()
        } else {
            self.right.is_terminated()
        }
    }
}

} // verus!
