use vstd::prelude::*;

use crate::ternary::private;
use vstd::std_specs::iter::IteratorSpec;

verus! {

/// The number of bits in an I384.
pub const BINARY_LEN: usize = 384;

/// The number of bytes in an I384.
pub const BINARY_LEN_IN_U8: usize = BINARY_LEN / 8;

/// The number of 32-bit words in an I384.
pub const BINARY_LEN_IN_U32: usize = BINARY_LEN / 32;

/// The inner representation of an I384 using 48 u8s.
pub type U8Repr = [u8; BINARY_LEN_IN_U8];

/// The inner representation of an I384 using 12 u32s.
pub type U32Repr = [u32; BINARY_LEN_IN_U32];

/// Marks a representation whose most significant word comes first.
#[derive(Clone, Copy, Debug)]
pub struct BigEndian {}

/// Marks a representation whose least significant word comes first.
#[derive(Clone, Copy, Debug)]
pub struct LittleEndian {}

trait EndianType: private::Sealed {}

impl private::Sealed for BigEndian {}

impl private::Sealed for LittleEndian {}

impl EndianType for BigEndian {}

impl EndianType for LittleEndian {}

/// A binary representation of a big integer as a fixed number of words.
pub trait BinaryRepresentation: private::Sealed + Clone {
    type T;

    /// The words of this representation, in order.
    spec fn words(&self) -> Seq<Self::T>;

    /// An iterator over the words of this representation, in order.
    fn iter(&self) -> (r: core::slice::Iter<'_, Self::T>)
        ensures
            IteratorSpec::remaining(&r) == self.words().as_ref(),
    ;
}

impl private::Sealed for U8Repr {}

impl private::Sealed for U32Repr {}

impl BinaryRepresentation for U8Repr {
    type T = u8;

    open spec fn words(&self) -> Seq<u8> {
        self@
    }

    fn iter(&self) -> (r: core::slice::Iter<'_, u8>) {
        broadcast use vstd::std_specs::slice::axiom_spec_slice_iter;

        let words: &[u8] = self.as_slice();
        words.iter()
    }
}

impl BinaryRepresentation for U32Repr {
    type T = u32;

    open spec fn words(&self) -> Seq<u32> {
        self@
    }

    fn iter(&self) -> (r: core::slice::Iter<'_, u32>) {
        broadcast use vstd::std_specs::slice::axiom_spec_slice_iter;

        let words: &[u32] = self.as_slice();
        words.iter()
    }
}

/// Why a number could not be converted between its binary and its ternary representation.
#[derive(Clone, Copy, Debug)]
pub enum Error {
    /// The binary number is outside the range of the ternary representation.
    BinaryExceedsTernaryRange,
    /// The ternary number is outside the range of the binary representation.
    TernaryExceedsBinaryRange,
}

} // verus!
