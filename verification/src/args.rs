//! Splitting a combined argument list into its left and right sub-lists, and
//! the inverse concatenation.
//!
//! Argument lists are tuples.  A combined list relates to a pair of sub-lists
//! through [`SplitConcat`]; the split point is fixed by the two sub-list
//! shapes, so for one choice of left and right shapes the relation is total
//! and unique.  Implementations are provided for every combined arity up to
//! four, the ceiling this crate supports, at every split point; a longer
//! argument list is rejected by the type checker, never at run time.

use vstd::prelude::*;

verus! {

/// The relation between one combined argument list and its left and right
/// sub-lists.
///
/// `spec_split` and `spec_concat` are the mathematical split and
/// concatenation; `split` and `concat` are their executable forms, each
/// proved to agree with its mathematical twin.  The two lemmas state the
/// inverse laws: concatenating and then splitting gives both sub-lists back
/// unchanged, and splitting and then concatenating rebuilds the combined
/// list, argument for argument, in order.
pub trait SplitConcat<L, R>: Sized {
    /// The left and right sub-lists of this combined argument list.
    spec fn spec_split(self) -> (L, R);

    /// The combined argument list built from a left and a right sub-list,
    /// left arguments first.
    spec fn spec_concat(left: L, right: R) -> Self;

    /// Splitting a concatenation gives back exactly the two sub-lists.
    proof fn lemma_split_of_concat(left: L, right: R)
        ensures
            Self::spec_concat(left, right).spec_split() == (left, right),
    ;

    /// Concatenating the two halves of a split rebuilds the combined list.
    proof fn lemma_concat_of_split(self)
        ensures
            Self::spec_concat(self.spec_split().0, self.spec_split().1) == self,
    ;

    /// Partition the combined argument list into its left and right
    /// sub-lists.  Each argument lands on exactly one side; none is
    /// duplicated or dropped.
    fn split(self) -> (r: (L, R))
        ensures
            r == self.spec_split(),
    ;

    /// Rebuild the combined argument list from its two sub-lists.
    fn concat(left: L, right: R) -> (r: Self)
        ensures
            r == Self::spec_concat(left, right),
    ;
}

impl SplitConcat<(), ()> for () {
    open spec fn spec_split(self) -> ((), ()) {
        ((), ())
    }

    open spec fn spec_concat(left: (), right: ()) -> Self {
        ()
    }

    proof fn lemma_split_of_concat(left: (), right: ()) {
    }

    proof fn lemma_concat_of_split(self) {
    }

    fn split(self) -> (r: ((), ())) {
        ((), ())
    }

    fn concat(left: (), right: ()) -> (r: Self) {
        ()
    }
}

impl<A> SplitConcat<(A,), ()> for (A,) {
    open spec fn spec_split(self) -> ((A,), ()) {
        (self, ())
    }

    open spec fn spec_concat(left: (A,), right: ()) -> Self {
        left
    }

    proof fn lemma_split_of_concat(left: (A,), right: ()) {
    }

    proof fn lemma_concat_of_split(self) {
    }

    fn split(self) -> (r: ((A,), ())) {
        (self, ())
    }

    fn concat(left: (A,), right: ()) -> (r: Self) {
        left
    }
}

impl<A> SplitConcat<(), (A,)> for (A,) {
    open spec fn spec_split(self) -> ((), (A,)) {
        ((), self)
    }

    open spec fn spec_concat(left: (), right: (A,)) -> Self {
        right
    }

    proof fn lemma_split_of_concat(left: (), right: (A,)) {
    }

    proof fn lemma_concat_of_split(self) {
    }

    fn split(self) -> (r: ((), (A,))) {
        ((), self)
    }

    fn concat(left: (), right: (A,)) -> (r: Self) {
        right
    }
}

impl<A, B> SplitConcat<(A, B), ()> for (A, B) {
    open spec fn spec_split(self) -> ((A, B), ()) {
        (self, ())
    }

    open spec fn spec_concat(left: (A, B), right: ()) -> Self {
        left
    }

    proof fn lemma_split_of_concat(left: (A, B), right: ()) {
    }

    proof fn lemma_concat_of_split(self) {
    }

    fn split(self) -> (r: ((A, B), ())) {
        (self, ())
    }

    fn concat(left: (A, B), right: ()) -> (r: Self) {
        left
    }
}

impl<A, B> SplitConcat<(A,), (B,)> for (A, B) {
    open spec fn spec_split(self) -> ((A,), (B,)) {
        ((self.0,), (self.1,))
    }

    open spec fn spec_concat(left: (A,), right: (B,)) -> Self {
        (left.0, right.0)
    }

    proof fn lemma_split_of_concat(left: (A,), right: (B,)) {
    }

    proof fn lemma_concat_of_split(self) {
    }

    fn split(self) -> (r: ((A,), (B,))) {
        ((self.0,), (self.1,))
    }

    fn concat(left: (A,), right: (B,)) -> (r: Self) {
        (left.0, right.0)
    }
}

impl<A, B> SplitConcat<(), (A, B)> for (A, B) {
    open spec fn spec_split(self) -> ((), (A, B)) {
        ((), self)
    }

    open spec fn spec_concat(left: (), right: (A, B)) -> Self {
        right
    }

    proof fn lemma_split_of_concat(left: (), right: (A, B)) {
    }

    proof fn lemma_concat_of_split(self) {
    }

    fn split(self) -> (r: ((), (A, B))) {
        ((), self)
    }

    fn concat(left: (), right: (A, B)) -> (r: Self) {
        right
    }
}

impl<A, B, C> SplitConcat<(A, B, C), ()> for (A, B, C) {
    open spec fn spec_split(self) -> ((A, B, C), ()) {
        (self, ())
    }

    open spec fn spec_concat(left: (A, B, C), right: ()) -> Self {
        left
    }

    proof fn lemma_split_of_concat(left: (A, B, C), right: ()) {
    }

    proof fn lemma_concat_of_split(self) {
    }

    fn split(self) -> (r: ((A, B, C), ())) {
        (self, ())
    }

    fn concat(left: (A, B, C), right: ()) -> (r: Self) {
        left
    }
}

impl<A, B, C> SplitConcat<(A, B), (C,)> for (A, B, C) {
    open spec fn spec_split(self) -> ((A, B), (C,)) {
        ((self.0, self.1), (self.2,))
    }

    open spec fn spec_concat(left: (A, B), right: (C,)) -> Self {
        (left.0, left.1, right.0)
    }

    proof fn lemma_split_of_concat(left: (A, B), right: (C,)) {
    }

    proof fn lemma_concat_of_split(self) {
    }

    fn split(self) -> (r: ((A, B), (C,))) {
        ((self.0, self.1), (self.2,))
    }

    fn concat(left: (A, B), right: (C,)) -> (r: Self) {
        (left.0, left.1, right.0)
    }
}

impl<A, B, C> SplitConcat<(A,), (B, C)> for (A, B, C) {
    open spec fn spec_split(self) -> ((A,), (B, C)) {
        ((self.0,), (self.1, self.2))
    }

    open spec fn spec_concat(left: (A,), right: (B, C)) -> Self {
        (left.0, right.0, right.1)
    }

    proof fn lemma_split_of_concat(left: (A,), right: (B, C)) {
    }

    proof fn lemma_concat_of_split(self) {
    }

    fn split(self) -> (r: ((A,), (B, C))) {
        ((self.0,), (self.1, self.2))
    }

    fn concat(left: (A,), right: (B, C)) -> (r: Self) {
        (left.0, right.0, right.1)
    }
}

impl<A, B, C> SplitConcat<(), (A, B, C)> for (A, B, C) {
    open spec fn spec_split(self) -> ((), (A, B, C)) {
        ((), self)
    }

    open spec fn spec_concat(left: (), right: (A, B, C)) -> Self {
        right
    }

    proof fn lemma_split_of_concat(left: (), right: (A, B, C)) {
    }

    proof fn lemma_concat_of_split(self) {
    }

    fn split(self) -> (r: ((), (A, B, C))) {
        ((), self)
    }

    fn concat(left: (), right: (A, B, C)) -> (r: Self) {
        right
    }
}

impl<A, B, C, D> SplitConcat<(A, B, C, D), ()> for (A, B, C, D) {
    open spec fn spec_split(self) -> ((A, B, C, D), ()) {
        (self, ())
    }

    open spec fn spec_concat(left: (A, B, C, D), right: ()) -> Self {
        left
    }

    proof fn lemma_split_of_concat(left: (A, B, C, D), right: ()) {
    }

    proof fn lemma_concat_of_split(self) {
    }

    fn split(self) -> (r: ((A, B, C, D), ())) {
        (self, ())
    }

    fn concat(left: (A, B, C, D), right: ()) -> (r: Self) {
        left
    }
}

impl<A, B, C, D> SplitConcat<(A, B, C), (D,)> for (A, B, C, D) {
    open spec fn spec_split(self) -> ((A, B, C), (D,)) {
        ((self.0, self.1, self.2), (self.3,))
    }

    open spec fn spec_concat(left: (A, B, C), right: (D,)) -> Self {
        (left.0, left.1, left.2, right.0)
    }

    proof fn lemma_split_of_concat(left: (A, B, C), right: (D,)) {
    }

    proof fn lemma_concat_of_split(self) {
    }

    fn split(self) -> (r: ((A, B, C), (D,))) {
        ((self.0, self.1, self.2), (self.3,))
    }

    fn concat(left: (A, B, C), right: (D,)) -> (r: Self) {
        (left.0, left.1, left.2, right.0)
    }
}

impl<A, B, C, D> SplitConcat<(A, B), (C, D)> for (A, B, C, D) {
    open spec fn spec_split(self) -> ((A, B), (C, D)) {
        ((self.0, self.1), (self.2, self.3))
    }

    open spec fn spec_concat(left: (A, B), right: (C, D)) -> Self {
        (left.0, left.1, right.0, right.1)
    }

    proof fn lemma_split_of_concat(left: (A, B), right: (C, D)) {
    }

    proof fn lemma_concat_of_split(self) {
    }

    fn split(self) -> (r: ((A, B), (C, D))) {
        ((self.0, self.1), (self.2, self.3))
    }

    fn concat(left: (A, B), right: (C, D)) -> (r: Self) {
        (left.0, left.1, right.0, right.1)
    }
}

impl<A, B, C, D> SplitConcat<(A,), (B, C, D)> for (A, B, C, D) {
    open spec fn spec_split(self) -> ((A,), (B, C, D)) {
        ((self.0,), (self.1, self.2, self.3))
    }

    open spec fn spec_concat(left: (A,), right: (B, C, D)) -> Self {
        (left.0, right.0, right.1, right.2)
    }

    proof fn lemma_split_of_concat(left: (A,), right: (B, C, D)) {
    }

    proof fn lemma_concat_of_split(self) {
    }

    fn split(self) -> (r: ((A,), (B, C, D))) {
        ((self.0,), (self.1, self.2, self.3))
    }

    fn concat(left: (A,), right: (B, C, D)) -> (r: Self) {
        (left.0, right.0, right.1, right.2)
    }
}

impl<A, B, C, D> SplitConcat<(), (A, B, C, D)> for (A, B, C, D) {
    open spec fn spec_split(self) -> ((), (A, B, C, D)) {
        ((), self)
    }

    open spec fn spec_concat(left: (), right: (A, B, C, D)) -> Self {
        right
    }

    proof fn lemma_split_of_concat(left: (), right: (A, B, C, D)) {
    }

    proof fn lemma_concat_of_split(self) {
    }

    fn split(self) -> (r: ((), (A, B, C, D))) {
        ((), self)
    }

    fn concat(left: (), right: (A, B, C, D)) -> (r: Self) {
        right
    }
}

} // verus!
