//! Zip two callable units into one callable unit.
//!
//! The combined unit takes the concatenation of both units' argument lists
//! (left arguments first) and returns the pair of both results.  Argument
//! lists are ordinary tuples; the [`SplitConcat`] relation carries a combined
//! tuple to its left and right sub-lists and back, and is proved to be an
//! exact inverse pair at every supported arity.
//!
//! [`ZippedFn`] owns the two units and offers one invocation form per
//! capability tier: consume-once, exclusive-and-repeat, shared-and-repeat.
//! Each form splits the combined arguments, invokes left before right, and
//! packs the two results into a pair.
//!
//! The asynchronous analogue does not run the units to completion: each
//! asynchronous invocation form returns a [`Join`], a two-sided completion
//! tracker over the two suspended computations (values of a [`Pollable`]
//! type).  Driving the tracker advances both sides every step, the left one
//! first, and yields the pair of results exactly once, on the step where the
//! slower side completes.  [`JoinedPair`] is the same tracker built directly
//! from two suspended computations.
//!
//! The thread-parallel variant [`ZippedFnPar`] carries per-side thread
//! options next to the zipped pair; this crate settles its failure
//! attribution, while running the worker threads stays with the caller.

mod args;
mod drive;
mod join;
mod zip;
mod zip_par;
mod zipped_fn;
mod zipped_fn_par;

pub use args::SplitConcat;
pub use drive::{Countdown, Pollable};
pub use join::{
    join_step, lemma_pending_join_ready_with_slower_side, polls_until_both_done, JoinedPair,
    MaybeDone,
};
pub use zip::FnZip;
pub use zip_par::FnZipPar;
pub use zipped_fn::{lemma_call_repeatable, Join, ZippedFn};
pub use zipped_fn_par::{join_outcomes, spawn_failure, ParError, ZippedFnPar};
