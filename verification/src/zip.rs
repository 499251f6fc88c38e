//! Zipping two callable units into one.

use vstd::prelude::*;

use crate::zipped_fn::ZippedFn;

verus! {

/// Combines two callable units into one whose argument list is the
/// concatenation of both units' argument lists and whose result is the pair
/// of both results.
///
/// Zipping only pairs the units up; nothing is invoked until the zipped pair
/// is called.  Any two units of any shapes can be zipped; whether and how the
/// pair can be invoked is settled where it is called, by the shapes of the
/// two argument lists and the capability tier the units support.
pub trait FnZip<Rhs>: Sized {
    /// Zip this unit with `rhs`, consuming both.  The zipped pair holds this
    /// unit on the left and `rhs` on the right, each unchanged.
    fn fn_zip_once(self, rhs: Rhs) -> (r: ZippedFn<Self, Rhs>)
        ensures
            r.left == self,
            r.right == rhs,
    ;

    /// Zip this unit with `rhs`.  The same pairing as `fn_zip_once`; units
    /// that support repeated invocation keep supporting it on the zipped
    /// pair through its shared-access call form.
    fn fn_zip(self, rhs: Rhs) -> (r: ZippedFn<Self, Rhs>)
        ensures
            r.left == self,
            r.right == rhs,
    ;
}

impl<LF, RF> FnZip<RF> for LF {
    fn fn_zip_once(self, rhs: RF) -> (r: ZippedFn<Self, RF>) {
        ZippedFn::new(self, rhs)
    }

    fn fn_zip(self, rhs: RF) -> (r: ZippedFn<Self, RF>) {
        ZippedFn::new(self, rhs)
    }
}

} // verus!
