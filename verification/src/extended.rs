use vstd::prelude::*;

verus! {

use crate::errors::{FieldError, FieldName};
use crate::fields::{field_get, spec_field_get};
use crate::flags::{
    spec_flags_contain,
    Leaf0x8000_0001_SubLeaf0_Ecx,
    Leaf0x8000_0001_SubLeaf0_Edx,
    Leaf0x8000_0008_SubLeaf0_Ebx,
};
use crate::indexing::SubLeaf;

/// Leaf 0x8000_0001: the extended processor feature bit sets.
#[derive(Clone, Copy, Debug, PartialEq, Eq, Structural)]
pub struct ExtendedProcessorInfoAndFeatureBits {
    pub edx: Leaf0x8000_0001_SubLeaf0_Edx,
    pub ecx: Leaf0x8000_0001_SubLeaf0_Ecx,
}

impl ExtendedProcessorInfoAndFeatureBits {
    /// Assembles the leaf from the raw registers of leaf 0x8000_0001,
    /// sub-leaf 0.
    pub fn new(ecx: u32, edx: u32) -> (r: Self)
        ensures
            r.ecx.bits == ecx,
            r.edx.bits == edx,
    {
        Self {
            edx: Leaf0x8000_0001_SubLeaf0_Edx { bits: edx },
            ecx: Leaf0x8000_0001_SubLeaf0_Ecx { bits: ecx },
        }
    }

    /// The raw feature bits of `edx`.
    pub fn edx(&self) -> (r: u32)
        ensures
            r == self.edx.bits,
    {
        self.edx.bits
    }

    /// The raw feature bits of `ecx`.
    pub fn ecx(&self) -> (r: u32)
        ensures
            r == self.ecx.bits,
    {
        self.ecx.bits
    }

    /// Coverage for feature bits: the reference holds every candidate bit.
    pub open spec fn spec_covers(&self, other: &Self) -> bool {
        spec_flags_contain(self.edx.bits, other.edx.bits) && spec_flags_contain(
            self.ecx.bits,
            other.ecx.bits,
        )
    }

    pub(crate) fn covers(&self, other: &Self) -> (r: bool)
        ensures
            r == self.spec_covers(other),
    {
        self.edx.contains(other.edx) && self.ecx.contains(other.ecx)
    }

    pub fn sub_leaf<const N: usize>(&self) -> (r: &<Self as SubLeaf<N>>::Output) where
        Self: SubLeaf<N>,

        ensures
            *r == <Self as SubLeaf<N>>::sub_leaf_spec(self),
    {
        <Self as SubLeaf<N>>::sub_leaf(self)
    }
}

impl SubLeaf<0> for ExtendedProcessorInfoAndFeatureBits {
    type Output = Self;

    open spec fn sub_leaf_spec(&self) -> Self {
        *self
    }

    fn sub_leaf(&self) -> (r: &Self) {
        self
    }
}

/// Leaf 0x8000_0008 `eax`: the physical and linear address widths, packed
/// as two byte-wide subfields.
#[derive(Clone, Copy, Debug, PartialEq, Eq, Structural)]
pub struct Leaf0x8000_0008_SubLeaf0_Eax(pub u32);

impl Leaf0x8000_0008_SubLeaf0_Eax {
    pub open spec fn spec_number_of_physical_address_bits(&self) -> u8 {
        (self.0 & 0xff) as u8
    }

    pub open spec fn spec_number_of_linear_address_bits(&self) -> u8 {
        ((self.0 & 0xff00) >> 8u32) as u8
    }

    /// The packed value assembled from the two subfields, every reserved
    /// bit clear.
    pub open spec fn spec_assemble(pa: u8, la: u8) -> u32 {
        (pa as u32) | ((la as u32) << 8u32)
    }

    /// Bits 0 to 7.
    pub fn number_of_physical_address_bits(&self) -> (r: u8)
        ensures
            r == self.spec_number_of_physical_address_bits(),
    {
        (self.0 & 0xff) as u8
    }

    /// Bits 8 to 15.
    pub fn number_of_linear_address_bits(&self) -> (r: u8)
        ensures
            r == self.spec_number_of_linear_address_bits(),
    {
        ((self.0 & 0xff00) >> 8u32) as u8
    }

    /// Writes the byte-wide physical-address-width field, leaving every
    /// other bit untouched. Every `u8` fits, so this setter cannot fail.
    pub fn set_number_of_physical_address_bits(&mut self, x: u8)
        ensures
            final(self).0 == (old(self).0 & !0xffu32) | (x as u32),
    {
        self.0 = (self.0 & !0xffu32) | (x as u32);
    }

    /// Writes the byte-wide linear-address-width field, leaving every other
    /// bit untouched. Every `u8` fits, so this setter cannot fail.
    pub fn set_number_of_linear_address_bits(&mut self, x: u8)
        ensures
            final(self).0 == (old(self).0 & !0xff00u32) | ((x as u32) << 8u32),
    {
        self.0 = (self.0 & !0xff00u32) | ((x as u32) << 8u32);
    }

    /// What building this register from a named-field map yields: both
    /// subfields are required; every `u8` value fits.
    pub open spec fn spec_from_named_fields(m: Seq<(FieldName, u8)>) -> Result<Self, FieldError> {
        if spec_field_get(m, FieldName::NumberOfPhysicalAddressBits) is None {
            Err(FieldError::MissingField(FieldName::NumberOfPhysicalAddressBits))
        } else if spec_field_get(m, FieldName::NumberOfLinearAddressBits) is None {
            Err(FieldError::MissingField(FieldName::NumberOfLinearAddressBits))
        } else {
            Ok(
                Self(
                    Self::spec_assemble(
                        spec_field_get(m, FieldName::NumberOfPhysicalAddressBits).unwrap(),
                        spec_field_get(m, FieldName::NumberOfLinearAddressBits).unwrap(),
                    ),
                ),
            )
        }
    }

    /// Builds the register from a named-field map; both subfields are
    /// required, and reserved bits come out clear.
    pub fn from_named_fields(m: &Vec<(FieldName, u8)>) -> (r: Result<Self, FieldError>)
        ensures
            r == Self::spec_from_named_fields(m@),
    {
        let pa = match field_get(m, FieldName::NumberOfPhysicalAddressBits) {
            Some(x) => x,
            None => {
                return Err(FieldError::MissingField(FieldName::NumberOfPhysicalAddressBits));
            },
        };
        let la = match field_get(m, FieldName::NumberOfLinearAddressBits) {
            Some(x) => x,
            None => {
                return Err(FieldError::MissingField(FieldName::NumberOfLinearAddressBits));
            },
        };
        Ok(Self((pa as u32) | ((la as u32) << 8u32)))
    }

    /// The named-field image of this register, in canonical order. Reserved
    /// bits are not represented.
    pub open spec fn spec_to_named_fields(&self) -> Seq<(FieldName, u8)> {
        seq![
            (FieldName::NumberOfPhysicalAddressBits, self.spec_number_of_physical_address_bits()),
            (FieldName::NumberOfLinearAddressBits, self.spec_number_of_linear_address_bits()),
        ]
    }

    /// Reads both subfields into a named-field map, in canonical order.
    pub fn to_named_fields(&self) -> (r: Vec<(FieldName, u8)>)
        ensures
            r@ == self.spec_to_named_fields(),
    {
        let mut v: Vec<(FieldName, u8)> = Vec::new();
        v.push((FieldName::NumberOfPhysicalAddressBits, self.number_of_physical_address_bits()));
        v.push((FieldName::NumberOfLinearAddressBits, self.number_of_linear_address_bits()));
        proof {
            assert(v@ =~= self.spec_to_named_fields());
        }
        v
    }

    /// Address widths are capabilities: a snapshot taken on a machine with
    /// the wider address space must not be restored onto one that cannot
    /// reach the memory it may have mapped.
    pub open spec fn spec_covers(&self, other: &Self) -> bool {
        self.spec_number_of_physical_address_bits() >= other.spec_number_of_physical_address_bits()
            && self.spec_number_of_linear_address_bits()
            >= other.spec_number_of_linear_address_bits()
    }

    pub(crate) fn covers(&self, other: &Self) -> (r: bool)
        ensures
            r == self.spec_covers(other),
    {
        self.number_of_physical_address_bits() >= other.number_of_physical_address_bits()
            && self.number_of_linear_address_bits() >= other.number_of_linear_address_bits()
    }
}

/// A map that binds both address-width subfields builds successfully, and
/// reading the result back binds each subfield to the very value the map
/// gave it.
pub proof fn lemma_address_size_eax_named_fields_round_trip(m: Seq<(FieldName, u8)>)
    requires
        spec_field_get(m, FieldName::NumberOfPhysicalAddressBits) is Some,
        spec_field_get(m, FieldName::NumberOfLinearAddressBits) is Some,
    ensures
        match Leaf0x8000_0008_SubLeaf0_Eax::spec_from_named_fields(m) {
            Ok(r) => r.spec_to_named_fields() =~= seq![
                (
                    FieldName::NumberOfPhysicalAddressBits,
                    spec_field_get(m, FieldName::NumberOfPhysicalAddressBits).unwrap(),
                ),
                (
                    FieldName::NumberOfLinearAddressBits,
                    spec_field_get(m, FieldName::NumberOfLinearAddressBits).unwrap(),
                ),
            ],
            Err(_) => false,
        },
{
    let pa = spec_field_get(m, FieldName::NumberOfPhysicalAddressBits).unwrap();
    let la = spec_field_get(m, FieldName::NumberOfLinearAddressBits).unwrap();
    assert({
        let v = (pa as u32) | ((la as u32) << 8u32);
        (v & 0xff) as u8 == pa && ((v & 0xff00) >> 8u32) as u8 == la
    }) by (bit_vector);
}

/// Leaf 0x8000_0008 `ecx`: core count and related limits, packed as three
/// subfields.
#[derive(Clone, Copy, Debug, PartialEq, Eq, Structural)]
pub struct Leaf0x8000_0008_SubLeaf0_Ecx(pub u32);

impl Leaf0x8000_0008_SubLeaf0_Ecx {
    pub open spec fn spec_number_of_physical_cores_minus_1(&self) -> u8 {
        (self.0 & 0xff) as u8
    }

    pub open spec fn spec_log2_of_maximum_apic_id(&self) -> u8 {
        ((self.0 & 0xf000) >> 12u32) as u8
    }

    pub open spec fn spec_performance_timestamp_counter_size(&self) -> u8 {
        ((self.0 & 0x3_0000) >> 16u32) as u8
    }

    /// The packed value assembled from the three subfields, every reserved
    /// bit clear.
    pub open spec fn spec_assemble(co: u8, ap: u8, ts: u8) -> u32 {
        (co as u32) | ((ap as u32) << 12u32) | ((ts as u32) << 16u32)
    }

    /// Bits 0 to 7.
    pub fn number_of_physical_cores_minus_1(&self) -> (r: u8)
        ensures
            r == self.spec_number_of_physical_cores_minus_1(),
    {
        (self.0 & 0xff) as u8
    }

    /// Bits 12 to 15.
    pub fn log2_of_maximum_apic_id(&self) -> (r: u8)
        ensures
            r == self.spec_log2_of_maximum_apic_id(),
    {
        ((self.0 & 0xf000) >> 12u32) as u8
    }

    /// Bits 16 and 17.
    pub fn performance_timestamp_counter_size(&self) -> (r: u8)
        ensures
            r == self.spec_performance_timestamp_counter_size(),
    {
        ((self.0 & 0x3_0000) >> 16u32) as u8
    }

    /// Writes the byte-wide core-count field, leaving every other bit
    /// untouched. Every `u8` fits, so this setter cannot fail.
    pub fn set_number_of_physical_cores_minus_1(&mut self, x: u8)
        ensures
            final(self).0 == (old(self).0 & !0xffu32) | (x as u32),
    {
        self.0 = (self.0 & !0xffu32) | (x as u32);
    }

    /// Writes the 4-bit APIC-id-width field, leaving every other bit
    /// untouched; rejects values that do not fit.
    pub fn set_log2_of_maximum_apic_id(&mut self, x: u8) -> (r: Result<(), FieldError>)
        ensures
            x < 16 ==> r == Ok::<(), FieldError>(()) && final(self).0 == (old(self).0
                & !0xf000u32) | ((x as u32) << 12u32),
            x >= 16 ==> r == Err::<(), FieldError>(
                FieldError::FieldOverflow(FieldName::Log2OfMaximumApicId, 15),
            ) && final(self).0 == old(self).0,
    {
        if x < 16 {
            self.0 = (self.0 & !0xf000u32) | ((x as u32) << 12u32);
            Ok(())
        } else {
            Err(FieldError::FieldOverflow(FieldName::Log2OfMaximumApicId, 15))
        }
    }

    /// Writes the 2-bit timestamp-counter-size field, leaving every other
    /// bit untouched; rejects values that do not fit.
    pub fn set_performance_timestamp_counter_size(&mut self, x: u8) -> (r: Result<(), FieldError>)
        ensures
            x < 4 ==> r == Ok::<(), FieldError>(()) && final(self).0 == (old(self).0
                & !0x3_0000u32) | ((x as u32) << 16u32),
            x >= 4 ==> r == Err::<(), FieldError>(
                FieldError::FieldOverflow(FieldName::PerformanceTimestampCounterSize, 3),
            ) && final(self).0 == old(self).0,
    {
        if x < 4 {
            self.0 = (self.0 & !0x3_0000u32) | ((x as u32) << 16u32);
            Ok(())
        } else {
            Err(FieldError::FieldOverflow(FieldName::PerformanceTimestampCounterSize, 3))
        }
    }

    /// What building this register from a named-field map yields: the first
    /// field in canonical order that is absent or out of range names the
    /// error.
    pub open spec fn spec_from_named_fields(m: Seq<(FieldName, u8)>) -> Result<Self, FieldError> {
        if spec_field_get(m, FieldName::NumberOfPhysicalCoresMinus1) is None {
            Err(FieldError::MissingField(FieldName::NumberOfPhysicalCoresMinus1))
        } else if spec_field_get(m, FieldName::Log2OfMaximumApicId) is None {
            Err(FieldError::MissingField(FieldName::Log2OfMaximumApicId))
        } else if spec_field_get(m, FieldName::Log2OfMaximumApicId).unwrap() >= 16 {
            Err(FieldError::FieldOverflow(FieldName::Log2OfMaximumApicId, 15))
        } else if spec_field_get(m, FieldName::PerformanceTimestampCounterSize) is None {
            Err(FieldError::MissingField(FieldName::PerformanceTimestampCounterSize))
        } else if spec_field_get(m, FieldName::PerformanceTimestampCounterSize).unwrap() >= 4 {
            Err(FieldError::FieldOverflow(FieldName::PerformanceTimestampCounterSize, 3))
        } else {
            Ok(
                Self(
                    Self::spec_assemble(
                        spec_field_get(m, FieldName::NumberOfPhysicalCoresMinus1).unwrap(),
                        spec_field_get(m, FieldName::Log2OfMaximumApicId).unwrap(),
                        spec_field_get(m, FieldName::PerformanceTimestampCounterSize).unwrap(),
                    ),
                ),
            )
        }
    }

    /// Builds the register from a named-field map; every subfield is
    /// required, values must fit their widths, and reserved bits come out
    /// clear.
    pub fn from_named_fields(m: &Vec<(FieldName, u8)>) -> (r: Result<Self, FieldError>)
        ensures
            r == Self::spec_from_named_fields(m@),
    {
        let co = match field_get(m, FieldName::NumberOfPhysicalCoresMinus1) {
            Some(x) => x,
            None => {
                return Err(FieldError::MissingField(FieldName::NumberOfPhysicalCoresMinus1));
            },
        };
        let ap = match field_get(m, FieldName::Log2OfMaximumApicId) {
            Some(x) => x,
            None => {
                return Err(FieldError::MissingField(FieldName::Log2OfMaximumApicId));
            },
        };
        if ap >= 16 {
            return Err(FieldError::FieldOverflow(FieldName::Log2OfMaximumApicId, 15));
        }
        let ts = match field_get(m, FieldName::PerformanceTimestampCounterSize) {
            Some(x) => x,
            None => {
                return Err(FieldError::MissingField(FieldName::PerformanceTimestampCounterSize));
            },
        };
        if ts >= 4 {
            return Err(FieldError::FieldOverflow(FieldName::PerformanceTimestampCounterSize, 3));
        }
        Ok(Self((co as u32) | ((ap as u32) << 12u32) | ((ts as u32) << 16u32)))
    }

    /// The named-field image of this register, in canonical order. Reserved
    /// bits are not represented.
    pub open spec fn spec_to_named_fields(&self) -> Seq<(FieldName, u8)> {
        seq![
            (
                FieldName::NumberOfPhysicalCoresMinus1,
                self.spec_number_of_physical_cores_minus_1(),
            ),
            (FieldName::Log2OfMaximumApicId, self.spec_log2_of_maximum_apic_id()),
            (
                FieldName::PerformanceTimestampCounterSize,
                self.spec_performance_timestamp_counter_size(),
            ),
        ]
    }

    /// Reads every subfield into a named-field map, in canonical order.
    pub fn to_named_fields(&self) -> (r: Vec<(FieldName, u8)>)
        ensures
            r@ == self.spec_to_named_fields(),
    {
        let mut v: Vec<(FieldName, u8)> = Vec::new();
        v.push(
            (FieldName::NumberOfPhysicalCoresMinus1, self.number_of_physical_cores_minus_1()),
        );
        v.push((FieldName::Log2OfMaximumApicId, self.log2_of_maximum_apic_id()));
        v.push(
            (
                FieldName::PerformanceTimestampCounterSize,
                self.performance_timestamp_counter_size(),
            ),
        );
        proof {
            assert(v@ =~= self.spec_to_named_fields());
        }
        v
    }

    /// Core counts and id widths are capabilities: the reference must offer
    /// at least what the candidate exposes.
    pub open spec fn spec_covers(&self, other: &Self) -> bool {
        self.spec_number_of_physical_cores_minus_1()
            >= other.spec_number_of_physical_cores_minus_1()
            && self.spec_log2_of_maximum_apic_id() >= other.spec_log2_of_maximum_apic_id()
            && self.spec_performance_timestamp_counter_size()
            >= other.spec_performance_timestamp_counter_size()
    }

    pub(crate) fn covers(&self, other: &Self) -> (r: bool)
        ensures
            r == self.spec_covers(other),
    {
        self.number_of_physical_cores_minus_1() >= other.number_of_physical_cores_minus_1()
            && self.log2_of_maximum_apic_id() >= other.log2_of_maximum_apic_id()
            && self.performance_timestamp_counter_size()
            >= other.performance_timestamp_counter_size()
    }
}

/// A map that binds every subfield of the core-count register to a value
/// that fits its width builds successfully, and reading the result back
/// binds each subfield to the very value the map gave it.
pub proof fn lemma_address_size_ecx_named_fields_round_trip(m: Seq<(FieldName, u8)>)
    requires
        spec_field_get(m, FieldName::NumberOfPhysicalCoresMinus1) is Some,
        spec_field_get(m, FieldName::Log2OfMaximumApicId) is Some,
        spec_field_get(m, FieldName::Log2OfMaximumApicId).unwrap() < 16,
        spec_field_get(m, FieldName::PerformanceTimestampCounterSize) is Some,
        spec_field_get(m, FieldName::PerformanceTimestampCounterSize).unwrap() < 4,
    ensures
        match Leaf0x8000_0008_SubLeaf0_Ecx::spec_from_named_fields(m) {
            Ok(r) => r.spec_to_named_fields() =~= seq![
                (
                    FieldName::NumberOfPhysicalCoresMinus1,
                    spec_field_get(m, FieldName::NumberOfPhysicalCoresMinus1).unwrap(),
                ),
                (
                    FieldName::Log2OfMaximumApicId,
                    spec_field_get(m, FieldName::Log2OfMaximumApicId).unwrap(),
                ),
                (
                    FieldName::PerformanceTimestampCounterSize,
                    spec_field_get(m, FieldName::PerformanceTimestampCounterSize).unwrap(),
                ),
            ],
            Err(_) => false,
        },
{
    let co = spec_field_get(m, FieldName::NumberOfPhysicalCoresMinus1).unwrap();
    let ap = spec_field_get(m, FieldName::Log2OfMaximumApicId).unwrap();
    let ts = spec_field_get(m, FieldName::PerformanceTimestampCounterSize).unwrap();
    assert(ap < 16 && ts < 4 ==> {
        let v = (co as u32) | ((ap as u32) << 12u32) | ((ts as u32) << 16u32);
        (v & 0xff) as u8 == co && ((v & 0xf000) >> 12u32) as u8 == ap && ((v & 0x3_0000)
            >> 16u32) as u8 == ts
    }) by (bit_vector);
}

/// Leaf 0x8000_0008: virtual and physical address sizes.
#[derive(Clone, Copy, Debug, PartialEq, Eq, Structural)]
pub struct VirtualAndPhysicalAddressSizes {
    pub eax: Leaf0x8000_0008_SubLeaf0_Eax,
    pub ebx: Leaf0x8000_0008_SubLeaf0_Ebx,
    pub ecx: Leaf0x8000_0008_SubLeaf0_Ecx,
}

impl VirtualAndPhysicalAddressSizes {
    /// Assembles the leaf from the raw registers of leaf 0x8000_0008,
    /// sub-leaf 0.
    pub fn new(eax: u32, ebx: u32, ecx: u32) -> (r: Self)
        ensures
            r.eax.0 == eax,
            r.ebx.bits == ebx,
            r.ecx.0 == ecx,
    {
        Self {
            eax: Leaf0x8000_0008_SubLeaf0_Eax(eax),
            ebx: Leaf0x8000_0008_SubLeaf0_Ebx { bits: ebx },
            ecx: Leaf0x8000_0008_SubLeaf0_Ecx(ecx),
        }
    }

    /// The raw packed value of `eax`.
    pub fn eax(&self) -> (r: u32)
        ensures
            r == self.eax.0,
    {
        self.eax.0
    }

    /// The raw feature bits of `ebx`.
    pub fn ebx(&self) -> (r: u32)
        ensures
            r == self.ebx.bits,
    {
        self.ebx.bits
    }

    /// The raw packed value of `ecx`.
    pub fn ecx(&self) -> (r: u32)
        ensures
            r == self.ecx.0,
    {
        self.ecx.0
    }

    /// Coverage for leaf 0x8000_0008: address widths and core counts are at
    /// least the candidate's, and the reference holds every candidate
    /// feature bit.
    pub open spec fn spec_covers(&self, other: &Self) -> bool {
        self.eax.spec_covers(&other.eax) && spec_flags_contain(self.ebx.bits, other.ebx.bits)
            && self.ecx.spec_covers(&other.ecx)
    }

    pub(crate) fn covers(&self, other: &Self) -> (r: bool)
        ensures
            r == self.spec_covers(other),
    {
        self.eax.covers(&other.eax) && self.ebx.contains(other.ebx) && self.ecx.covers(&other.ecx)
    }

    pub fn sub_leaf<const N: usize>(&self) -> (r: &<Self as SubLeaf<N>>::Output) where
        Self: SubLeaf<N>,

        ensures
            *r == <Self as SubLeaf<N>>::sub_leaf_spec(self),
    {
        <Self as SubLeaf<N>>::sub_leaf(self)
    }
}

impl SubLeaf<0> for VirtualAndPhysicalAddressSizes {
    type Output = Self;

    open spec fn sub_leaf_spec(&self) -> Self {
        *self
    }

    fn sub_leaf(&self) -> (r: &Self) {
        self
    }
}

} // verus!
