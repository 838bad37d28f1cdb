use vstd::prelude::*;

verus! {

use crate::flags::{
    spec_flags_contain,
    Leaf0x7_SubLeaf0_Ebx,
    Leaf0x7_SubLeaf0_Ecx,
    Leaf0x7_SubLeaf0_Edx,
    Leaf0x7_SubLeaf1_Eax,
};
use crate::indexing::SubLeaf;

/// Leaf 7, sub-leaf 0: the extended feature bit sets.
#[derive(Clone, Copy, Debug, PartialEq, Eq, Structural)]
pub struct ExtendedFeaturesSubLeaf0 {
    pub ebx: Leaf0x7_SubLeaf0_Ebx,
    pub ecx: Leaf0x7_SubLeaf0_Ecx,
    pub edx: Leaf0x7_SubLeaf0_Edx,
}

impl ExtendedFeaturesSubLeaf0 {
    /// The raw feature bits of `ebx`.
    pub fn ebx(&self) -> (r: u32)
        ensures
            r == self.ebx.bits,
    {
        self.ebx.bits
    }

    /// The raw feature bits of `ecx`.
    pub fn ecx(&self) -> (r: u32)
        ensures
            r == self.ecx.bits,
    {
        self.ecx.bits
    }

    /// The raw feature bits of `edx`.
    pub fn edx(&self) -> (r: u32)
        ensures
            r == self.edx.bits,
    {
        self.edx.bits
    }

    /// Coverage for feature bits: the reference holds every candidate bit.
    pub open spec fn spec_covers(&self, other: &Self) -> bool {
        spec_flags_contain(self.ebx.bits, other.ebx.bits) && spec_flags_contain(
            self.ecx.bits,
            other.ecx.bits,
        ) && spec_flags_contain(self.edx.bits, other.edx.bits)
    }

    pub(crate) fn covers(&self, other: &Self) -> (r: bool)
        ensures
            r == self.spec_covers(other),
    {
        self.ebx.contains(other.ebx) && self.ecx.contains(other.ecx) && self.edx.contains(
            other.edx,
        )
    }
}

/// Leaf 7: the extended features, over two sub-leaves.
#[derive(Clone, Copy, Debug, PartialEq, Eq, Structural)]
pub struct ExtendedFeatures {
    pub sub_leaf0: ExtendedFeaturesSubLeaf0,
    pub sub_leaf1: Leaf0x7_SubLeaf1_Eax,
}

impl ExtendedFeatures {
    /// Assembles the leaf from the raw registers of leaf 7: `ebx`, `ecx`
    /// and `edx` of sub-leaf 0, and `eax` of sub-leaf 1.
    pub fn new(ebx0: u32, ecx0: u32, edx0: u32, eax1: u32) -> (r: Self)
        ensures
            r.sub_leaf0.ebx.bits == ebx0,
            r.sub_leaf0.ecx.bits == ecx0,
            r.sub_leaf0.edx.bits == edx0,
            r.sub_leaf1.bits == eax1,
    {
        Self {
            sub_leaf0: ExtendedFeaturesSubLeaf0 {
                ebx: Leaf0x7_SubLeaf0_Ebx { bits: ebx0 },
                ecx: Leaf0x7_SubLeaf0_Ecx { bits: ecx0 },
                edx: Leaf0x7_SubLeaf0_Edx { bits: edx0 },
            },
            sub_leaf1: Leaf0x7_SubLeaf1_Eax { bits: eax1 },
        }
    }

    /// Coverage for leaf 7: both sub-leaves' feature bits are contained.
    pub open spec fn spec_covers(&self, other: &Self) -> bool {
        self.sub_leaf0.spec_covers(&other.sub_leaf0) && spec_flags_contain(
            self.sub_leaf1.bits,
            other.sub_leaf1.bits,
        )
    }

    pub(crate) fn covers(&self, other: &Self) -> (r: bool)
        ensures
            r == self.spec_covers(other),
    {
        self.sub_leaf0.covers(&other.sub_leaf0) && self.sub_leaf1.contains(other.sub_leaf1)
    }

    pub fn sub_leaf<const N: usize>(&self) -> (r: &<Self as SubLeaf<N>>::Output) where
        Self: SubLeaf<N>,

        ensures
            *r == <Self as SubLeaf<N>>::sub_leaf_spec(self),
    {
        <Self as SubLeaf<N>>::sub_leaf(self)
    }
}

impl SubLeaf<0> for ExtendedFeatures {
    type Output = ExtendedFeaturesSubLeaf0;

    open spec fn sub_leaf_spec(&self) -> ExtendedFeaturesSubLeaf0 {
        self.sub_leaf0
    }

    fn sub_leaf(&self) -> (r: &ExtendedFeaturesSubLeaf0) {
        &self.sub_leaf0
    }
}

impl SubLeaf<1> for ExtendedFeatures {
    type Output = Leaf0x7_SubLeaf1_Eax;

    open spec fn sub_leaf_spec(&self) -> Leaf0x7_SubLeaf1_Eax {
        self.sub_leaf1
    }

    fn sub_leaf(&self) -> (r: &Leaf0x7_SubLeaf1_Eax) {
        &self.sub_leaf1
    }
}

} // verus!
