use vstd::prelude::*;

verus! {

use crate::codec::{spec_u32_from_le_bytes, spec_u32_le_bytes};
use crate::indexing::SubLeaf;

/// A byte string of fixed width, such as the 12-byte manufacturer identifier.
#[derive(Clone, Debug, PartialEq, Eq)]
pub struct FixedString<const N: usize>(pub [u8; N]);

impl<const N: usize> FixedString<N> {
    /// Byte-for-byte equality.
    pub fn equals(&self, other: &Self) -> (r: bool)
        ensures
            r == (self.0@ == other.0@),
    {
        let mut i: usize = 0;
        while i < N
            invariant
                i <= N,
                forall|j: int| 0 <= j < i ==> self.0@[j] == other.0@[j],
            decreases N - i,
        {
            if self.0[i] != other.0[i] {
                return false;
            }
            i = i + 1;
        }
        proof {
            assert(self.0@ =~= other.0@);
        }
        true
    }
}

/// Leaf 0: the manufacturer identifier and the highest function the
/// processor answers.
#[derive(Clone, Debug, PartialEq, Eq)]
pub struct HighestFunctionParameterAndManufacturerID {
    /// The 12-byte vendor string, assembled from the bytes of `ebx`, `edx`
    /// and `ecx`, in that order.
    pub manufacturer_id: FixedString<12>,
    /// The highest leaf number this processor supports, from `eax`.
    pub highest_calling_parameter: u32,
}

impl HighestFunctionParameterAndManufacturerID {
    /// The vendor string the registers of leaf 0 spell out.
    pub open spec fn spec_manufacturer(ebx: u32, ecx: u32, edx: u32) -> Seq<u8> {
        spec_u32_le_bytes(ebx) + spec_u32_le_bytes(edx) + spec_u32_le_bytes(ecx)
    }

    /// Assembles the leaf from the raw registers of leaf 0, sub-leaf 0.
    pub fn new(eax: u32, ebx: u32, ecx: u32, edx: u32) -> (r: Self)
        ensures
            r.manufacturer_id.0@ == Self::spec_manufacturer(ebx, ecx, edx),
            r.highest_calling_parameter == eax,
    {
        let m = FixedString(
            [
                (ebx & 0xff) as u8,
                ((ebx >> 8) & 0xff) as u8,
                ((ebx >> 16) & 0xff) as u8,
                ((ebx >> 24) & 0xff) as u8,
                (edx & 0xff) as u8,
                ((edx >> 8) & 0xff) as u8,
                ((edx >> 16) & 0xff) as u8,
                ((edx >> 24) & 0xff) as u8,
                (ecx & 0xff) as u8,
                ((ecx >> 8) & 0xff) as u8,
                ((ecx >> 16) & 0xff) as u8,
                ((ecx >> 24) & 0xff) as u8,
            ],
        );
        proof {
            assert(m.0@ =~= Self::spec_manufacturer(ebx, ecx, edx));
        }
        Self { manufacturer_id: m, highest_calling_parameter: eax }
    }

    /// The first third of the vendor string, as the raw `ebx` value.
    pub fn ebx(&self) -> (r: u32)
        ensures
            r == spec_u32_from_le_bytes(self.manufacturer_id.0@.subrange(0, 4)),
    {
        (self.manufacturer_id.0[0] as u32) | ((self.manufacturer_id.0[1] as u32) << 8u32) | ((
        self.manufacturer_id.0[2] as u32) << 16u32) | ((self.manufacturer_id.0[3] as u32) << 24u32)
    }

    /// The middle third of the vendor string, as the raw `edx` value.
    pub fn edx(&self) -> (r: u32)
        ensures
            r == spec_u32_from_le_bytes(self.manufacturer_id.0@.subrange(4, 8)),
    {
        (self.manufacturer_id.0[4] as u32) | ((self.manufacturer_id.0[5] as u32) << 8u32) | ((
        self.manufacturer_id.0[6] as u32) << 16u32) | ((self.manufacturer_id.0[7] as u32) << 24u32)
    }

    /// The last third of the vendor string, as the raw `ecx` value.
    pub fn ecx(&self) -> (r: u32)
        ensures
            r == spec_u32_from_le_bytes(self.manufacturer_id.0@.subrange(8, 12)),
    {
        (self.manufacturer_id.0[8] as u32) | ((self.manufacturer_id.0[9] as u32) << 8u32) | ((
        self.manufacturer_id.0[10] as u32) << 16u32) | ((self.manufacturer_id.0[11] as u32)
            << 24u32)
    }

    /// The highest supported function, as the raw `eax` value.
    pub fn eax(&self) -> (r: u32)
        ensures
            r == self.highest_calling_parameter,
    {
        self.highest_calling_parameter
    }

    /// Coverage for the identity leaf: the vendor strings must match
    /// exactly (cross-vendor restore is not supported), and the reference
    /// must answer at least as many functions as the candidate.
    pub open spec fn spec_covers(&self, other: &Self) -> bool {
        self.manufacturer_id.0@ == other.manufacturer_id.0@
            && self.highest_calling_parameter >= other.highest_calling_parameter
    }

    pub(crate) fn covers(&self, other: &Self) -> (r: bool)
        ensures
            r == self.spec_covers(other),
    {
        self.manufacturer_id.equals(&other.manufacturer_id)
            && self.highest_calling_parameter >= other.highest_calling_parameter
    }

    pub fn sub_leaf<const N: usize>(&self) -> (r: &<Self as SubLeaf<N>>::Output) where
        Self: SubLeaf<N>,

        ensures
            *r == <Self as SubLeaf<N>>::sub_leaf_spec(self),
    {
        <Self as SubLeaf<N>>::sub_leaf(self)
    }
}

impl SubLeaf<0> for HighestFunctionParameterAndManufacturerID {
    type Output = Self;

    open spec fn sub_leaf_spec(&self) -> Self {
        *self
    }

    fn sub_leaf(&self) -> (r: &Self) {
        self
    }
}

} // verus!
