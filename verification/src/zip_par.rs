//! Zipping two callable units for thread-parallel execution.

use vstd::prelude::*;

use crate::zip::FnZip;
use crate::zipped_fn::ZippedFn;
use crate::zipped_fn_par::ZippedFnPar;

verus! {

/// Combines two callable units into one meant to run its two halves on one
/// worker thread each.
///
/// The pairing itself is the same as [`FnZip`]; the parallel pair only adds
/// per-side thread options, both unset at first.  Running the workers is the
/// caller's business: this crate settles how the combined arguments split
/// and how a worker failure is attributed to its side.
pub trait FnZipPar<Rhs>: FnZip<Rhs> {
    /// Zip this unit with `rhs` for parallel execution, consuming both.  The
    /// result holds the same pairing as [`FnZip::fn_zip`] would build, with
    /// no thread name and no stack-size override on either side.
    fn fn_zip_par(self, rhs: Rhs) -> (r: ZippedFnPar<Self, Rhs>)
        ensures
            r.zipped.left == self,
            r.zipped.right == rhs,
            r.thread_names == (None::<String>, None::<String>),
            r.thread_stack_sizes == (None::<usize>, None::<usize>),
    ;
}

impl<LF, RF> FnZipPar<RF> for LF {
    fn fn_zip_par(self, rhs: RF) -> (r: ZippedFnPar<Self, RF>) {
        ZippedFnPar::from(ZippedFn::new(self, rhs))
    }
}

} // verus!
