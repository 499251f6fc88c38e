//! The zipped pair of callable units and its invocation forms.
//!
//! A [`ZippedFn`] owns a left and a right unit.  Each synchronous invocation
//! form splits the combined argument list, invokes the left unit before the
//! right one, and returns the pair of results.  Each asynchronous form
//! instead invokes the units for their suspended computations and returns a
//! fresh [`Join`] over the two, without driving it: driving is the caller's
//! business.
//!
//! Three forms mirror the capability tiers: a consuming form for units that
//! may be invoked once, and an exclusive-access and a shared-access form for
//! units that may be invoked repeatedly.

use vstd::prelude::*;

use crate::args::SplitConcat;
use crate::drive::Pollable;
use crate::join::{join_step, polls_until_both_done, poll_sides, MaybeDone};

verus! {

/// Two callable units zipped into one.
///
/// Calling the pair with a combined argument list invokes the left unit on
/// the left sub-list and the right unit on the right sub-list, in that
/// order, exactly once each, and introduces no behaviour of its own: the
/// result is exactly the pair of what the two units themselves produce.
pub struct ZippedFn<LF, RF> {
    /// The unit that receives the front of the combined argument list.
    pub left: LF,
    /// The unit that receives the back of the combined argument list.
    pub right: RF,
}

impl<LF, RF> ZippedFn<LF, RF> {
    /// Pair the two units up, without invoking either.
    pub fn new(left: LF, right: RF) -> (r: Self)
        ensures
            r.left == left,
            r.right == right,
    {
        ZippedFn { left, right }
    }

    /// Consume-once invocation: split the combined arguments, invoke the
    /// left unit and then the right one, consuming both, and return the
    /// pair of their results.
    pub fn call_once<Args, LX, RX, LR, RR>(self, args: Args) -> (r: (LR, RR)) where
        Args: SplitConcat<LX, RX>,
        LF: FnOnce(LX) -> LR,
        RF: FnOnce(RX) -> RR,

        requires
            call_requires(self.left, (args.spec_split().0,)),
            call_requires(self.right, (args.spec_split().1,)),
        ensures
            call_ensures(self.left, (args.spec_split().0,), r.0),
            call_ensures(self.right, (args.spec_split().1,), r.1),
    {
        let (left_args, right_args) = args.split();
        let left_result = (self.left)(left_args);
        let right_result = (self.right)(right_args);
        (left_result, right_result)
    }

    /// Exclusive-access invocation: the same split, invoke and pair as
    /// `call_once`, but the zipped pair survives, unchanged, and may be
    /// called again.
    pub fn call_mut<Args, LX, RX, LR, RR>(&mut self, args: Args) -> (r: (LR, RR)) where
        Args: SplitConcat<LX, RX>,
        LF: Fn(LX) -> LR,
        RF: Fn(RX) -> RR,

        requires
            call_requires(old(self).left, (args.spec_split().0,)),
            call_requires(old(self).right, (args.spec_split().1,)),
        ensures
            *final(self) == *old(self),
            call_ensures(old(self).left, (args.spec_split().0,), r.0),
            call_ensures(old(self).right, (args.spec_split().1,), r.1),
    {
        let (left_args, right_args) = args.split();
        let left_result = (self.left)(left_args);
        let right_result = (self.right)(right_args);
        (left_result, right_result)
    }

    /// Shared-access invocation: the same split, invoke and pair under
    /// shared access; may be repeated any number of times.
    pub fn call<Args, LX, RX, LR, RR>(&self, args: Args) -> (r: (LR, RR)) where
        Args: SplitConcat<LX, RX>,
        LF: Fn(LX) -> LR,
        RF: Fn(RX) -> RR,

        requires
            call_requires(self.left, (args.spec_split().0,)),
            call_requires(self.right, (args.spec_split().1,)),
        ensures
            call_ensures(self.left, (args.spec_split().0,), r.0),
            call_ensures(self.right, (args.spec_split().1,), r.1),
    {
        let (left_args, right_args) = args.split();
        let left_result = (self.left)(left_args);
        let right_result = (self.right)(right_args);
        (left_result, right_result)
    }

    /// Consume-once asynchronous invocation: split the combined arguments
    /// and invoke both units for their suspended computations, but do not
    /// drive them; return the fresh join over the two, both sides pending.
    pub fn async_call_once<Args, LX, RX, LFut, RFut>(self, args: Args) -> (j: Join<
        LFut,
        RFut,
    >) where
        Args: SplitConcat<LX, RX>,
        LF: FnOnce(LX) -> LFut,
        RF: FnOnce(RX) -> RFut,
        LFut: Pollable,
        RFut: Pollable,

        requires
            call_requires(self.left, (args.spec_split().0,)),
            call_requires(self.right, (args.spec_split().1,)),
        ensures
            j.left matches MaybeDone::Pending(f) && call_ensures(
                self.left,
                (args.spec_split().0,),
                f,
            ),
            j.right matches MaybeDone::Pending(g) && call_ensures(
                self.right,
                (args.spec_split().1,),
                g,
            ),
    {
        let (left_args, right_args) = args.split();
        let left_future = (self.left)(left_args);
        let right_future = (self.right)(right_args);
        Join { left: MaybeDone::Pending(left_future), right: MaybeDone::Pending(right_future) }
    }

    /// Exclusive-access asynchronous invocation: as `async_call_once`, but
    /// the zipped pair survives, unchanged.
    pub fn async_call_mut<Args, LX, RX, LFut, RFut>(&mut self, args: Args) -> (j: Join<
        LFut,
        RFut,
    >) where
        Args: SplitConcat<LX, RX>,
        LF: Fn(LX) -> LFut,
        RF: Fn(RX) -> RFut,
        LFut: Pollable,
        RFut: Pollable,

        requires
            call_requires(old(self).left, (args.spec_split().0,)),
            call_requires(old(self).right, (args.spec_split().1,)),
        ensures
            *final(self) == *old(self),
            j.left matches MaybeDone::Pending(f) && call_ensures(
                old(self).left,
                (args.spec_split().0,),
                f,
            ),
            j.right matches MaybeDone::Pending(g) && call_ensures(
                old(self).right,
                (args.spec_split().1,),
                g,
            ),
    {
        let (left_args, right_args) = args.split();
        let left_future = (self.left)(left_args);
        let right_future = (self.right)(right_args);
        Join { left: MaybeDone::Pending(left_future), right: MaybeDone::Pending(right_future) }
    }

    /// Shared-access asynchronous invocation: as `async_call_once`, under
    /// shared access; may be repeated, yielding a fresh join each time.
    pub fn async_call<Args, LX, RX, LFut, RFut>(&self, args: Args) -> (j: Join<
        LFut,
        RFut,
    >) where
        Args: SplitConcat<LX, RX>,
        LF: Fn(LX) -> LFut,
        RF: Fn(RX) -> RFut,
        LFut: Pollable,
        RFut: Pollable,

        requires
            call_requires(self.left, (args.spec_split().0,)),
            call_requires(self.right, (args.spec_split().1,)),
        ensures
            j.left matches MaybeDone::Pending(f) && call_ensures(
                self.left,
                (args.spec_split().0,),
                f,
            ),
            j.right matches MaybeDone::Pending(g) && call_ensures(
                self.right,
                (args.spec_split().1,),
                g,
            ),
    {
        let (left_args, right_args) = args.split();
        let left_future = (self.left)(left_args);
        let right_future = (self.right)(right_args);
        Join { left: MaybeDone::Pending(left_future), right: MaybeDone::Pending(right_future) }
    }
}

/// Two invocations of the shared-access form on the same zipped pair and the
/// same combined arguments give the same pair of results, provided each unit
/// determines its result from its arguments: whenever both units admit only
/// one result for their sub-list, the combined unit admits only one pair.
pub proof fn lemma_call_repeatable<Args, LX, RX, LR, RR, LF, RF>(
    zf: ZippedFn<LF, RF>,
    args: Args,
    r1: (LR, RR),
    r2: (LR, RR),
) where Args: SplitConcat<LX, RX>, LF: Fn(LX) -> LR, RF: Fn(RX) -> RR
    requires
        call_ensures(zf.left, (args.spec_split().0,), r1.0),
        call_ensures(zf.right, (args.spec_split().1,), r1.1),
        call_ensures(zf.left, (args.spec_split().0,), r2.0),
        call_ensures(zf.right, (args.spec_split().1,), r2.1),
        forall|y1: LR, y2: LR|
            call_ensures(zf.left, (args.spec_split().0,), y1) && call_ensures(
                zf.left,
                (args.spec_split().0,),
                y2,
            ) ==> y1 == y2,
        forall|y1: RR, y2: RR|
            call_ensures(zf.right, (args.spec_split().1,), y1) && call_ensures(
                zf.right,
                (args.spec_split().1,),
                y2,
            ) ==> y1 == y2,
    ensures
        r1 == r2,
{
}

/// The suspended result of invoking a zipped pair asynchronously: a join
/// over the two units' own suspended computations.
///
/// The caller drives it; one drive step advances the left side first and
/// then the right side, unconditionally, and the pair of results comes out
/// exactly once, on the step where the slower side completes.
pub struct Join<L: Pollable, R: Pollable> {
    /// The left unit's suspended computation, advanced first each step.
    pub left: MaybeDone<L>,
    /// The right unit's suspended computation, advanced each step whatever
    /// the left side did this step.
    pub right: MaybeDone<R>,
}

impl<L: Pollable, R: Pollable> Join<L, R> {
    /// How many drive steps until the join reports "ready": exactly as many
    /// as the slower side needs.
    pub open spec fn polls_until_ready(self) -> nat {
        polls_until_both_done(self.left, self.right)
    }

    /// One drive step.  Never blocks: either both sides are done within this
    /// step and the pair of values is returned, collected exactly once, or
    /// "not ready" is reported and one step's worth of progress has been
    /// made on each side.  A join that has reported "ready" must not be
    /// driven again: the contract forbids it, and an unverified caller who
    /// does it anyway is answered with a panic, never with made-up values.
    pub fn poll(&mut self) -> (r: Option<(L::Output, R::Output)>)
        requires
            !(old(self).left is Collected),
            !(old(self).right is Collected),
        ensures
            join_step(old(self).left, old(self).right, final(self).left, final(self).right, r),
            r is Some <==> old(self).polls_until_ready() <= 1,
            r matches Some(v) ==> v == (old(self).left.spec_value(), old(self).right.spec_value())
                && final(self).left is Collected && final(self).right is Collected,
            r is None ==> final(self).polls_until_ready() == old(self).polls_until_ready() - 1,
    {
        poll_sides(&mut self.left, &mut self.right)
    }
}

} // verus!
