//! The thread-parallel zipped pair and its failure attribution.
//!
//! A [`ZippedFnPar`] is a zipped pair together with per-side thread options:
//! an optional worker name and an optional stack-size override for each
//! side.  Running the two workers takes real threads and stays outside this
//! crate; what is settled here is the data and the rules: how a worker
//! failure is tagged with the side it came from, and how the two workers'
//! outcomes combine into the single reported result, the first failing side
//! winning and a succeeding side's value discarded when the other failed.

use vstd::prelude::*;

use crate::zipped_fn::ZippedFn;

verus! {

/// A zipped pair of callable units meant to run one worker thread per side,
/// with the per-side thread options the workers are built with.
pub struct ZippedFnPar<LF, RF> {
    /// The zipped pair of units.
    pub zipped: ZippedFn<LF, RF>,
    /// An optional worker-thread name per side, left then right.
    pub thread_names: (Option<String>, Option<String>),
    /// An optional stack-size override per side, left then right.
    pub thread_stack_sizes: (Option<usize>, Option<usize>),
}

impl<LF, RF> ZippedFnPar<LF, RF> {
    /// Wrap a zipped pair for parallel execution, with no thread name and
    /// no stack-size override on either side.
    pub fn from(zipped: ZippedFn<LF, RF>) -> (r: Self)
        ensures
            r.zipped == zipped,
            r.thread_names == (None::<String>, None::<String>),
            r.thread_stack_sizes == (None::<usize>, None::<usize>),
    {
        ZippedFnPar { zipped, thread_names: (None, None), thread_stack_sizes: (None, None) }
    }
}

/// A failure of one side's worker.  Which side it was travels beside this,
/// as `false` for the left side and `true` for the right side.
pub enum ParError<S, J> {
    /// The worker for the side could not be launched.
    SpawnThreadError(S),
    /// The worker for the side terminated abnormally while running.
    JoinThreadError(J),
}

/// The reported error when one side's worker could not be launched: the
/// launch failure, tagged with the side it belongs to, `false` for the left
/// side and `true` for the right side.
pub fn spawn_failure<S, J>(right_side: bool, error: S) -> (r: (bool, ParError<S, J>))
    ensures
        r.0 == right_side,
        r.1 == ParError::<S, J>::SpawnThreadError(error),
{
    (right_side, ParError::SpawnThreadError(error))
}

/// Combine the run outcomes of the two workers, once both have been waited
/// for.  Both values are returned only when both sides succeeded; otherwise
/// the first failing side, the left one checked first, determines the single
/// reported error, tagged with that side, and the other side's value, if
/// any, is discarded.
pub fn join_outcomes<L, R, S, J>(left: Result<L, J>, right: Result<R, J>) -> (r: Result<
    (L, R),
    (bool, ParError<S, J>),
>)
    ensures
        left matches Err(e) ==> r == Err::<(L, R), (bool, ParError<S, J>)>(
            (false, ParError::JoinThreadError(e)),
        ),
        left is Ok ==> (right matches Err(e) ==> r == Err::<(L, R), (bool, ParError<S, J>)>(
            (true, ParError::JoinThreadError(e)),
        )),
        left matches Ok(lv) ==> (right matches Ok(rv) ==> r == Ok::<(L, R), (bool, ParError<S, J>)>(
            (lv, rv),
        )),
{
    match (left, right) {
        (Err(e), _) => Err((false, ParError::JoinThreadError(e))),
        (Ok(_), Err(e)) => Err((true, ParError::JoinThreadError(e))),
        (Ok(lv), Ok(rv)) => Ok((lv, rv)),
    }
}

} // verus!
