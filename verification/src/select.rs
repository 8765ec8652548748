//! Selection between two vectors under a mask.
use vstd::prelude::*;

verus! {

/// A mask type that selects between two vectors of type `T`.
///
/// The mask is a vector of signed lanes of the size of the lanes of `T`.
pub trait Select<T>: Sized {
    /// The result of [`Select::bitselect`].
    spec fn spec_bitselect(self, a: T, b: T) -> T;

    /// The result of [`Select::select`].
    spec fn spec_select(self, a: T, b: T) -> T;

    /// Chooses bit by bit: the bits of `b` where the mask has a one, the bits
    /// of `a` where it has a zero.
    fn bitselect(self, a: T, b: T) -> (r: T)
        ensures
            r == self.spec_bitselect(a, b),
    ;

    /// Chooses lane by lane by the sign bit of the lanes of `self`, which
    /// need not be a mask: the lane of `b` where the sign bit is set, the
    /// lane of `a` where it is not.
    fn select(self, a: T, b: T) -> (r: T)
        ensures
            r == self.spec_select(a, b),
    ;
}

} // verus!
