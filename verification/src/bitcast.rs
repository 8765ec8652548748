//! Reinterpretation of the bytes of a vector as a vector of another type.
use vstd::prelude::*;

verus! {

/// A vector that can be taken apart into the bytes it occupies and put
/// together from them.
///
/// The image of a vector holds its lanes in order, each lane with its least
/// significant byte first. A vector of three lanes occupies the room of four:
/// the bytes of the fourth lane are zero in its image and are passed over
/// when a vector is put together. Two vector types of the same size have the
/// same `Image`, and only such types can be reinterpreted as one another.
pub trait Bitcast: Sized {
    /// The bytes of a vector, an array of as many bytes as the vector
    /// occupies.
    type Image: View<V = Seq<u8>>;

    /// The bytes of the vector.
    spec fn spec_image(self) -> Seq<u8>;

    /// The vector that the bytes make up.
    spec fn spec_from_image(image: Seq<u8>) -> Self;

    /// Takes the vector apart into its bytes.
    fn image(self) -> (r: Self::Image)
        ensures
            r@ == self.spec_image(),
    ;

    /// Puts a vector together from its bytes.
    fn from_image(image: Self::Image) -> (r: Self)
        ensures
            r == Self::spec_from_image(image@),
    ;
}

} // verus!
