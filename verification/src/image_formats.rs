//! The interface an image encoding offers.
use vstd::prelude::*;

verus! {

/// An encoding of a pixel buffer into a byte stream.
pub trait Image: Sized {
    /// The bytes of the header alone.
    spec fn spec_header(&self) -> Seq<u8>;

    /// The bytes of the whole image, header included.
    spec fn spec_bytes(&self) -> Seq<u8>;

    /// Serializes the header alone.
    fn as_bytes_header(&self) -> (r: Vec<u8>)
        ensures
            r@ == self.spec_header(),
    ;

    /// Serializes the whole image.
    fn as_bytes(&self) -> (r: Vec<u8>)
        ensures
            r@ == self.spec_bytes(),
    ;
}

} // verus!
