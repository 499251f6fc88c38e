//! Suspended computations and how they are driven.
//!
//! A suspended computation makes progress only when its owner drives it: one
//! drive step never blocks, it either completes with the final value or
//! reports "not ready, drive me again".  The model here is deterministic: a
//! computation knows how many further steps report "not ready" and which
//! value it then completes with, so the join tracker's contracts can say
//! after exactly how many steps the pair is ready.

use vstd::prelude::*;

verus! {

/// A suspended computation, driven toward completion one step at a time.
///
/// A value reports "not ready" for exactly `steps_left()` drive steps and
/// completes with `value()` on the step after those.  A computation must
/// never complete early and never change its mind about the value while
/// still pending.  Once it has completed, its owner is expected to stop
/// driving it; the contract promises nothing about steps after completion.
pub trait Pollable: Sized {
    /// The type of the value the computation completes with.
    type Output;

    /// How many further drive steps report "not ready".
    spec fn steps_left(&self) -> nat;

    /// The value the computation will complete with.
    spec fn value(&self) -> Self::Output;

    /// One drive step.  Returns the completed value once the pending steps
    /// are used up, and `None` before that, counting one pending step down.
    fn poll(&mut self) -> (r: Option<Self::Output>)
        ensures
            old(self).steps_left() == 0 ==> r == Some(old(self).value()),
            old(self).steps_left() > 0 ==> {
                &&& r is None
                &&& final(self).steps_left() == old(self).steps_left() - 1
                &&& final(self).value() == old(self).value()
            },
    ;
}

/// A suspended computation that completes with a fixed value after a fixed
/// number of "not ready" steps.
///
/// `Countdown::new(n, v)` reports "not ready" for `n` drive steps and then
/// completes with `v`; with `n == 0` the first drive step completes at once.
pub struct Countdown<T> {
    /// How many further drive steps report "not ready".
    pub remaining: u64,
    /// The value the computation completes with.
    pub value: T,
}

impl<T: Copy> Countdown<T> {
    /// A computation that completes with `value` after `remaining` further
    /// "not ready" steps.
    pub fn new(remaining: u64, value: T) -> (r: Self)
        ensures
            r.steps_left() == remaining,
            r.value() == value,
    {
        Countdown { remaining, value }
    }
}

impl<T: Copy> Pollable for Countdown<T> {
    type Output = T;

    open spec fn steps_left(&self) -> nat {
        self.remaining as nat
    }

    open spec fn value(&self) -> T {
        self.value
    }

    fn poll(&mut self) -> (r: Option<T>) {
        if self.remaining == 0 {
            Some(self.value)
        } else {
            self.remaining = self.remaining - 1;
            None
        }
    }
}

} // verus!
