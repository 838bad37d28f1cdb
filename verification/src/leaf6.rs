use vstd::prelude::*;

verus! {

use crate::flags::{spec_flags_contain, Leaf0x6_SubLeaf0_Eax, Leaf0x6_SubLeaf0_Ecx};
use crate::indexing::SubLeaf;

/// Leaf 6 `ebx`: the number of configurable interrupt thresholds in digital
/// thermal sensor, packed in the low four bits.
#[derive(Clone, Copy, Debug, PartialEq, Eq, Structural)]
pub struct Leaf6SubLeaf0Ebx(pub u32);

impl Leaf6SubLeaf0Ebx {
    pub open spec fn spec_number_of_interrupt_thresholds(&self) -> u8 {
        (self.0 & 0b1111) as u8
    }

    /// Bits 0 to 3.
    pub fn number_of_interrupt_thresholds(&self) -> (r: u8)
        ensures
            r == self.spec_number_of_interrupt_thresholds(),
    {
        (self.0 & 0b1111) as u8
    }

    /// A threshold count is a capability: the reference must offer at least
    /// as many as the candidate.
    pub open spec fn spec_covers(&self, other: &Self) -> bool {
        self.spec_number_of_interrupt_thresholds() >= other.spec_number_of_interrupt_thresholds()
    }

    pub(crate) fn covers(&self, other: &Self) -> (r: bool)
        ensures
            r == self.spec_covers(other),
    {
        self.number_of_interrupt_thresholds() >= other.number_of_interrupt_thresholds()
    }
}

/// Leaf 6 `eax` and `ecx`: the thermal and power management feature bits.
#[derive(Clone, Copy, Debug, PartialEq, Eq, Structural)]
pub struct ThermalAndPowerManagementFeatures {
    pub eax: Leaf0x6_SubLeaf0_Eax,
    pub ecx: Leaf0x6_SubLeaf0_Ecx,
}

impl ThermalAndPowerManagementFeatures {
    /// Coverage for feature bits: the reference holds every candidate bit.
    pub open spec fn spec_covers(&self, other: &Self) -> bool {
        spec_flags_contain(self.eax.bits, other.eax.bits) && spec_flags_contain(
            self.ecx.bits,
            other.ecx.bits,
        )
    }

    pub(crate) fn covers(&self, other: &Self) -> (r: bool)
        ensures
            r == self.spec_covers(other),
    {
        self.eax.contains(other.eax) && self.ecx.contains(other.ecx)
    }
}

/// Leaf 6: thermal and power management.
#[derive(Clone, Copy, Debug, PartialEq, Eq, Structural)]
pub struct ThermalAndPowerManagement {
    pub features: ThermalAndPowerManagementFeatures,
    pub number_of_interrupt_thresholds: Leaf6SubLeaf0Ebx,
}

impl ThermalAndPowerManagement {
    /// Assembles the leaf from the raw registers of leaf 6, sub-leaf 0.
    pub fn new(eax: u32, ebx: u32, ecx: u32, edx: u32) -> (r: Self)
        ensures
            r.features.eax.bits == eax,
            r.features.ecx.bits == ecx,
            r.number_of_interrupt_thresholds.0 == ebx,
    {
        Self {
            features: ThermalAndPowerManagementFeatures {
                eax: Leaf0x6_SubLeaf0_Eax { bits: eax },
                ecx: Leaf0x6_SubLeaf0_Ecx { bits: ecx },
            },
            number_of_interrupt_thresholds: Leaf6SubLeaf0Ebx(ebx),
        }
    }

    /// The raw packed value of `ebx`.
    pub fn ebx(&self) -> (r: u32)
        ensures
            r == self.number_of_interrupt_thresholds.0,
    {
        self.number_of_interrupt_thresholds.0
    }

    /// The raw feature bits of `ecx`.
    pub fn ecx(&self) -> (r: u32)
        ensures
            r == self.features.ecx.bits,
    {
        self.features.ecx.bits
    }

    /// The raw feature bits of `eax`.
    pub fn eax(&self) -> (r: u32)
        ensures
            r == self.features.eax.bits,
    {
        self.features.eax.bits
    }

    /// Coverage for leaf 6: feature bits are contained and the threshold
    /// count is at least the candidate's.
    pub open spec fn spec_covers(&self, other: &Self) -> bool {
        self.features.spec_covers(&other.features)
            && self.number_of_interrupt_thresholds.spec_covers(
            &other.number_of_interrupt_thresholds,
        )
    }

    pub(crate) fn covers(&self, other: &Self) -> (r: bool)
        ensures
            r == self.spec_covers(other),
    {
        self.features.covers(&other.features) && self.number_of_interrupt_thresholds.covers(
            &other.number_of_interrupt_thresholds,
        )
    }

    pub fn sub_leaf<const N: usize>(&self) -> (r: &<Self as SubLeaf<N>>::Output) where
        Self: SubLeaf<N>,

        ensures
            *r == <Self as SubLeaf<N>>::sub_leaf_spec(self),
    {
        <Self as SubLeaf<N>>::sub_leaf(self)
    }
}

impl SubLeaf<0> for ThermalAndPowerManagement {
    type Output = Self;

    open spec fn sub_leaf_spec(&self) -> Self {
        *self
    }

    fn sub_leaf(&self) -> (r: &Self) {
        self
    }
}

} // verus!
