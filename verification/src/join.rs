//! A two-sided completion tracker: drives two suspended computations to a
//! joint completion and yields both results as a pair exactly once.
//!
//! Each side is a [`MaybeDone`], which walks `Pending` to `Done` to
//! `Collected` strictly in that order and never regresses.  One drive step
//! of the pair advances the left side first and then the right side,
//! unconditionally: the right side is never skipped because of what the left
//! side did this step.  The pair reports "ready" on exactly the step where
//! the slower side completes, collects both values, and hands them out once;
//! driving the pair after that is a caller error, rejected by the contract
//! and a panic rather than answered with stale data.

use vstd::prelude::*;

use crate::drive::Pollable;

verus! {

/// One side of a join: a computation still pending, a value held until it is
/// collected, or a value already collected and gone.
pub enum MaybeDone<F: Pollable> {
    /// The computation has not completed yet.
    Pending(F),
    /// The computation completed with this value, not yet collected.
    Done(F::Output),
    /// The value has been collected; this side must not be revisited.
    Collected,
}

impl<F: Pollable> MaybeDone<F> {
    /// How many drive steps this side needs until it holds its value: a
    /// pending computation needs its remaining "not ready" steps and one
    /// completing step, a finished side needs none.
    pub open spec fn polls_until_done(self) -> nat {
        match self {
            MaybeDone::Pending(f) => f.steps_left() + 1,
            MaybeDone::Done(_) => 0,
            MaybeDone::Collected => 0,
        }
    }

    /// The value this side completes with, or holds.
    pub open spec fn spec_value(self) -> F::Output
        recommends
            !(self is Collected),
    {
        match self {
            MaybeDone::Pending(f) => f.value(),
            MaybeDone::Done(v) => v,
            MaybeDone::Collected => arbitrary(),
        }
    }

    /// One drive step on a side that is not ready as a whole: a pending
    /// computation either completes in place or counts one step down, and a
    /// held value stays put.  A collected side is never advanced.
    pub open spec fn advanced(self, next: Self) -> bool {
        match self {
            MaybeDone::Pending(f) => {
                if f.steps_left() == 0 {
                    next == MaybeDone::<F>::Done(f.value())
                } else {
                    next matches MaybeDone::Pending(g) && g.steps_left() == f.steps_left() - 1
                        && g.value() == f.value()
                }
            },
            MaybeDone::Done(v) => next == MaybeDone::<F>::Done(v),
            MaybeDone::Collected => false,
        }
    }

    /// One drive step on this side.  Returns whether the side now holds its
    /// value; a side that already did reports so again without change.
    pub fn poll(&mut self) -> (done: bool)
        requires
            !(*old(self) is Collected),
        ensures
            *old(self) matches MaybeDone::Pending(f) ==> {
                &&& f.steps_left() == 0 ==> done && *final(self) == MaybeDone::<F>::Done(
                    f.value(),
                )
                &&& f.steps_left() > 0 ==> !done && (*final(self) matches MaybeDone::Pending(g)
                    && g.steps_left() == f.steps_left() - 1 && g.value() == f.value())
            },
            *old(self) matches MaybeDone::Done(v) ==> done && *final(self) == MaybeDone::<
                F,
            >::Done(v),
            done <==> old(self).polls_until_done() <= 1,
            old(self).advanced(*final(self)),
    {
        match self {
            MaybeDone::Pending(f) => {
                let step = f.poll();
                match step {
                    Some(v) => {
                        *self = MaybeDone::Done(v);
                        true
                    },
                    None => false,
                }
            },
            MaybeDone::Done(_) => true,
            MaybeDone::Collected => unreached(),
        }
    }

    /// Collect the completed value.  Hands the value out exactly once: a side
    /// holding a value yields it and becomes `Collected`; any other side,
    /// a collected one included, yields nothing and is left untouched.
    pub fn take_output(&mut self) -> (r: Option<F::Output>)
        ensures
            *old(self) matches MaybeDone::Done(v) ==> r == Some(v) && *final(self)
                == MaybeDone::<F>::Collected,
            !(*old(self) is Done) ==> r is None && *final(self) == *old(self),
    {
        match self {
            MaybeDone::Done(_) => {
                let mut taken = MaybeDone::Collected;
                core::mem::swap(self, &mut taken);
                match taken {
                    MaybeDone::Done(v) => Some(v),
                    _ => unreached(),
                }
            },
            _ => None,
        }
    }
}

/// What one drive step of a two-sided join does: if both sides can finish
/// within this step, the pair of values is collected and returned and both
/// sides end `Collected`; otherwise nothing is returned and each side is
/// advanced by exactly one step, the left one first.
pub open spec fn join_step<L: Pollable, R: Pollable>(
    left0: MaybeDone<L>,
    right0: MaybeDone<R>,
    left1: MaybeDone<L>,
    right1: MaybeDone<R>,
    r: Option<(L::Output, R::Output)>,
) -> bool {
    if left0.polls_until_done() <= 1 && right0.polls_until_done() <= 1 {
        &&& r == Some((left0.spec_value(), right0.spec_value()))
        &&& left1 is Collected
        &&& right1 is Collected
    } else {
        &&& r is None
        &&& left0.advanced(left1)
        &&& right0.advanced(right1)
    }
}

/// How many drive steps a pair of sides needs until both hold their value:
/// exactly as many as the slower side needs.
pub open spec fn polls_until_both_done<L: Pollable, R: Pollable>(
    left: MaybeDone<L>,
    right: MaybeDone<R>,
) -> nat {
    if left.polls_until_done() >= right.polls_until_done() {
        left.polls_until_done()
    } else {
        right.polls_until_done()
    }
}

/// A join whose two sides are both still pending reports "ready" after
/// exactly as many drive steps as the slower computation needs: one more
/// than its remaining "not ready" steps, and never earlier.
pub proof fn lemma_pending_join_ready_with_slower_side<L: Pollable, R: Pollable>(left: L, right: R)
    ensures
        polls_until_both_done(MaybeDone::Pending(left), MaybeDone::Pending(right))
            == if left.steps_left() >= right.steps_left() {
            left.steps_left() + 1
        } else {
            right.steps_left() + 1
        },
{
}

/// One drive step over a pair of sides, left before right.
pub(crate) fn poll_sides<L: Pollable, R: Pollable>(
    left: &mut MaybeDone<L>,
    right: &mut MaybeDone<R>,
) -> (r: Option<(L::Output, R::Output)>)
    requires
        !(*old(left) is Collected),
        !(*old(right) is Collected),
    ensures
        join_step(*old(left), *old(right), *final(left), *final(right), r),
{
    let left_done = left.poll();
    let right_done = right.poll();
    if left_done && right_done {
        let left_value = left.take_output();
        let right_value = right.take_output();
        match (left_value, right_value) {
            (Some(lv), Some(rv)) => Some((lv, rv)),
            _ => unreached(),
        }
    } else {
        None
    }
}

/// A pair of joined suspended computations, driven together until both have
/// completed and their values come out as one pair.
pub struct JoinedPair<L: Pollable, R: Pollable> {
    /// The left side, advanced first on every drive step.
    pub left: MaybeDone<L>,
    /// The right side, advanced on every drive step whatever the left side
    /// did this step.
    pub right: MaybeDone<R>,
}

impl<L: Pollable, R: Pollable> JoinedPair<L, R> {
    /// How many drive steps until the pair reports "ready": exactly as many
    /// as the slower side needs.
    pub open spec fn polls_until_ready(self) -> nat {
        polls_until_both_done(self.left, self.right)
    }

    /// Join two suspended computations.  The fresh pair reports "ready"
    /// after exactly as many drive steps as the slower computation needs.
    pub fn new(left: L, right: R) -> (r: Self)
        ensures
            r.left == MaybeDone::Pending(left),
            r.right == MaybeDone::Pending(right),
            r.polls_until_ready() == if left.steps_left() >= right.steps_left() {
                left.steps_left() + 1
            } else {
                right.steps_left() + 1
            },
    {
        JoinedPair { left: MaybeDone::Pending(left), right: MaybeDone::Pending(right) }
    }

    /// One drive step.  Never blocks: either both sides are done within this
    /// step and the pair of values is returned, collected exactly once, or
    /// "not ready" is reported and one step's worth of progress has been made
    /// on each side.  A pair that has reported "ready" must not be driven
    /// again: the contract forbids it, and an unverified caller who does it
    /// anyway is answered with a panic, never with made-up values.
    pub fn poll(&mut self) -> (r: Option<(L::Output, R::Output)>)
        requires
            !(old(self).left is Collected),
            !(old(self).right is Collected),
        ensures
            join_step(old(self).left, old(self).right, final(self).left, final(self).right, r),
            r is Some <==> old(self).polls_until_ready() <= 1,
            r matches Some(v) ==> v == (old(self).left.spec_value(), old(self).right.spec_value())
                && final(self).left is Collected && final(self).right is Collected,
            r is None ==> final(self).polls_until_ready() == old(self).polls_until_ready() - 1,
    {
        poll_sides(&mut self.left, &mut self.right)
    }
}

} // verus!
