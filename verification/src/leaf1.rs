use vstd::prelude::*;

verus! {

use crate::errors::{FieldError, FieldName};
use crate::fields::{field_get, spec_field_get};
use crate::flags::{spec_flags_contain, Leaf0x1_SubLeaf0_Ecx, Leaf0x1_SubLeaf0_Edx};
use crate::indexing::SubLeaf;

/// Leaf 1 `eax`: the packed processor version identifier.
///
/// Its subfields identify a processor model exactly; none of them states a
/// capability, so coverage for this register is plain equality.
#[derive(Clone, Copy, Debug, PartialEq, Eq, Structural)]
pub struct ProcessorVersionInformation(pub u32);

impl ProcessorVersionInformation {
    pub open spec fn spec_stepping_id(&self) -> u8 {
        (self.0 & 0b1111) as u8
    }

    pub open spec fn spec_model(&self) -> u8 {
        ((self.0 & 0b1111_0000) >> 4u32) as u8
    }

    pub open spec fn spec_family_id(&self) -> u8 {
        ((self.0 & 0b1111_0000_0000) >> 8u32) as u8
    }

    pub open spec fn spec_processor_type(&self) -> u8 {
        ((self.0 & 0b0011_0000_0000_0000) >> 12u32) as u8
    }

    pub open spec fn spec_extended_model_id(&self) -> u8 {
        ((self.0 & 0b1111_0000_0000_0000_0000) >> 16u32) as u8
    }

    pub open spec fn spec_extended_family_id(&self) -> u8 {
        ((self.0 & 0b1111_1111_0000_0000_0000_0000_0000) >> 20u32) as u8
    }

    /// The packed value assembled from the six subfields, every reserved bit
    /// clear.
    pub open spec fn spec_assemble(st: u8, mo: u8, fa: u8, pt: u8, em: u8, ef: u8) -> u32 {
        (st as u32) | ((mo as u32) << 4u32) | ((fa as u32) << 8u32) | ((pt as u32) << 12u32) | ((
        em as u32) << 16u32) | ((ef as u32) << 20u32)
    }

    /// Bits 0 to 3.
    pub fn stepping_id(&self) -> (r: u8)
        ensures
            r == self.spec_stepping_id(),
    {
        (self.0 & 0b1111) as u8
    }

    /// Bits 4 to 7.
    pub fn model(&self) -> (r: u8)
        ensures
            r == self.spec_model(),
    {
        ((self.0 & 0b1111_0000) >> 4u32) as u8
    }

    /// Bits 8 to 11.
    pub fn family_id(&self) -> (r: u8)
        ensures
            r == self.spec_family_id(),
    {
        ((self.0 & 0b1111_0000_0000) >> 8u32) as u8
    }

    /// Bits 12 and 13.
    pub fn processor_type(&self) -> (r: u8)
        ensures
            r == self.spec_processor_type(),
    {
        ((self.0 & 0b0011_0000_0000_0000) >> 12u32) as u8
    }

    /// Bits 16 to 19.
    pub fn extended_model_id(&self) -> (r: u8)
        ensures
            r == self.spec_extended_model_id(),
    {
        ((self.0 & 0b1111_0000_0000_0000_0000) >> 16u32) as u8
    }

    /// Bits 20 to 27.
    pub fn extended_family_id(&self) -> (r: u8)
        ensures
            r == self.spec_extended_family_id(),
    {
        ((self.0 & 0b1111_1111_0000_0000_0000_0000_0000) >> 20u32) as u8
    }

    /// Writes the 4-bit stepping field, leaving every other bit untouched;
    /// rejects values that do not fit.
    pub fn set_stepping_id(&mut self, x: u8) -> (r: Result<(), FieldError>)
        ensures
            x < 16 ==> r == Ok::<(), FieldError>(()) && final(self).0 == (old(self).0
                & !0b1111u32) | (x as u32),
            x >= 16 ==> r == Err::<(), FieldError>(
                FieldError::FieldOverflow(FieldName::SteppingId, 15),
            ) && final(self).0 == old(self).0,
    {
        if x < 16 {
            self.0 = (self.0 & !0b1111u32) | (x as u32);
            Ok(())
        } else {
            Err(FieldError::FieldOverflow(FieldName::SteppingId, 15))
        }
    }

    /// Writes the 4-bit model field, leaving every other bit untouched;
    /// rejects values that do not fit.
    pub fn set_model(&mut self, x: u8) -> (r: Result<(), FieldError>)
        ensures
            x < 16 ==> r == Ok::<(), FieldError>(()) && final(self).0 == (old(self).0
                & !0b1111_0000u32) | ((x as u32) << 4u32),
            x >= 16 ==> r == Err::<(), FieldError>(
                FieldError::FieldOverflow(FieldName::Model, 15),
            ) && final(self).0 == old(self).0,
    {
        if x < 16 {
            self.0 = (self.0 & !0b1111_0000u32) | ((x as u32) << 4u32);
            Ok(())
        } else {
            Err(FieldError::FieldOverflow(FieldName::Model, 15))
        }
    }

    /// Writes the 4-bit family field, leaving every other bit untouched;
    /// rejects values that do not fit.
    pub fn set_family_id(&mut self, x: u8) -> (r: Result<(), FieldError>)
        ensures
            x < 16 ==> r == Ok::<(), FieldError>(()) && final(self).0 == (old(self).0
                & !0b1111_0000_0000u32) | ((x as u32) << 8u32),
            x >= 16 ==> r == Err::<(), FieldError>(
                FieldError::FieldOverflow(FieldName::FamilyId, 15),
            ) && final(self).0 == old(self).0,
    {
        if x < 16 {
            self.0 = (self.0 & !0b1111_0000_0000u32) | ((x as u32) << 8u32);
            Ok(())
        } else {
            Err(FieldError::FieldOverflow(FieldName::FamilyId, 15))
        }
    }

    /// Writes the 2-bit processor-type field, leaving every other bit
    /// untouched; rejects values that do not fit.
    pub fn set_processor_type(&mut self, x: u8) -> (r: Result<(), FieldError>)
        ensures
            x < 4 ==> r == Ok::<(), FieldError>(()) && final(self).0 == (old(self).0
                & !0b0011_0000_0000_0000u32) | ((x as u32) << 12u32),
            x >= 4 ==> r == Err::<(), FieldError>(
                FieldError::FieldOverflow(FieldName::ProcessorType, 3),
            ) && final(self).0 == old(self).0,
    {
        if x < 4 {
            self.0 = (self.0 & !0b0011_0000_0000_0000u32) | ((x as u32) << 12u32);
            Ok(())
        } else {
            Err(FieldError::FieldOverflow(FieldName::ProcessorType, 3))
        }
    }

    /// Writes the 4-bit extended-model field, leaving every other bit
    /// untouched; rejects values that do not fit.
    pub fn set_extended_model_id(&mut self, x: u8) -> (r: Result<(), FieldError>)
        ensures
            x < 16 ==> r == Ok::<(), FieldError>(()) && final(self).0 == (old(self).0
                & !0b1111_0000_0000_0000_0000u32) | ((x as u32) << 16u32),
            x >= 16 ==> r == Err::<(), FieldError>(
                FieldError::FieldOverflow(FieldName::ExtendedModelId, 15),
            ) && final(self).0 == old(self).0,
    {
        if x < 16 {
            self.0 = (self.0 & !0b1111_0000_0000_0000_0000u32) | ((x as u32) << 16u32);
            Ok(())
        } else {
            Err(FieldError::FieldOverflow(FieldName::ExtendedModelId, 15))
        }
    }

    /// Writes the 8-bit extended-family field, leaving every other bit
    /// untouched. Every `u8` fits, so this setter cannot fail.
    pub fn set_extended_family_id(&mut self, x: u8)
        ensures
            final(self).0 == (old(self).0 & !0b1111_1111_0000_0000_0000_0000_0000u32) | ((
            x as u32) << 20u32),
    {
        self.0 = (self.0 & !0b1111_1111_0000_0000_0000_0000_0000u32) | ((x as u32) << 20u32);
    }

    /// What building this register from a named-field map yields: the first
    /// field in canonical order that is absent or out of range names the
    /// error; otherwise every subfield is set and every reserved bit is
    /// clear.
    pub open spec fn spec_from_named_fields(m: Seq<(FieldName, u8)>) -> Result<Self, FieldError> {
        if spec_field_get(m, FieldName::SteppingId) is None {
            Err(FieldError::MissingField(FieldName::SteppingId))
        } else if spec_field_get(m, FieldName::SteppingId).unwrap() >= 16 {
            Err(FieldError::FieldOverflow(FieldName::SteppingId, 15))
        } else if spec_field_get(m, FieldName::Model) is None {
            Err(FieldError::MissingField(FieldName::Model))
        } else if spec_field_get(m, FieldName::Model).unwrap() >= 16 {
            Err(FieldError::FieldOverflow(FieldName::Model, 15))
        } else if spec_field_get(m, FieldName::FamilyId) is None {
            Err(FieldError::MissingField(FieldName::FamilyId))
        } else if spec_field_get(m, FieldName::FamilyId).unwrap() >= 16 {
            Err(FieldError::FieldOverflow(FieldName::FamilyId, 15))
        } else if spec_field_get(m, FieldName::ProcessorType) is None {
            Err(FieldError::MissingField(FieldName::ProcessorType))
        } else if spec_field_get(m, FieldName::ProcessorType).unwrap() >= 4 {
            Err(FieldError::FieldOverflow(FieldName::ProcessorType, 3))
        } else if spec_field_get(m, FieldName::ExtendedModelId) is None {
            Err(FieldError::MissingField(FieldName::ExtendedModelId))
        } else if spec_field_get(m, FieldName::ExtendedModelId).unwrap() >= 16 {
            Err(FieldError::FieldOverflow(FieldName::ExtendedModelId, 15))
        } else if spec_field_get(m, FieldName::ExtendedFamilyId) is None {
            Err(FieldError::MissingField(FieldName::ExtendedFamilyId))
        } else {
            Ok(
                Self(
                    Self::spec_assemble(
                        spec_field_get(m, FieldName::SteppingId).unwrap(),
                        spec_field_get(m, FieldName::Model).unwrap(),
                        spec_field_get(m, FieldName::FamilyId).unwrap(),
                        spec_field_get(m, FieldName::ProcessorType).unwrap(),
                        spec_field_get(m, FieldName::ExtendedModelId).unwrap(),
                        spec_field_get(m, FieldName::ExtendedFamilyId).unwrap(),
                    ),
                ),
            )
        }
    }

    /// Builds the register from a named-field map; every subfield is
    /// required, values must fit their widths, and reserved bits come out
    /// clear.
    pub fn from_named_fields(m: &Vec<(FieldName, u8)>) -> (r: Result<Self, FieldError>)
        ensures
            r == Self::spec_from_named_fields(m@),
    {
        let st = match field_get(m, FieldName::SteppingId) {
            Some(x) => x,
            None => {
                return Err(FieldError::MissingField(FieldName::SteppingId));
            },
        };
        if st >= 16 {
            return Err(FieldError::FieldOverflow(FieldName::SteppingId, 15));
        }
        let mo = match field_get(m, FieldName::Model) {
            Some(x) => x,
            None => {
                return Err(FieldError::MissingField(FieldName::Model));
            },
        };
        if mo >= 16 {
            return Err(FieldError::FieldOverflow(FieldName::Model, 15));
        }
        let fa = match field_get(m, FieldName::FamilyId) {
            Some(x) => x,
            None => {
                return Err(FieldError::MissingField(FieldName::FamilyId));
            },
        };
        if fa >= 16 {
            return Err(FieldError::FieldOverflow(FieldName::FamilyId, 15));
        }
        let pt = match field_get(m, FieldName::ProcessorType) {
            Some(x) => x,
            None => {
                return Err(FieldError::MissingField(FieldName::ProcessorType));
            },
        };
        if pt >= 4 {
            return Err(FieldError::FieldOverflow(FieldName::ProcessorType, 3));
        }
        let em = match field_get(m, FieldName::ExtendedModelId) {
            Some(x) => x,
            None => {
                return Err(FieldError::MissingField(FieldName::ExtendedModelId));
            },
        };
        if em >= 16 {
            return Err(FieldError::FieldOverflow(FieldName::ExtendedModelId, 15));
        }
        let ef = match field_get(m, FieldName::ExtendedFamilyId) {
            Some(x) => x,
            None => {
                return Err(FieldError::MissingField(FieldName::ExtendedFamilyId));
            },
        };
        Ok(
            Self(
                (st as u32) | ((mo as u32) << 4u32) | ((fa as u32) << 8u32) | ((pt as u32)
                    << 12u32) | ((em as u32) << 16u32) | ((ef as u32) << 20u32),
            ),
        )
    }

    /// The named-field image of this register: one binding per subfield, in
    /// canonical order. Reserved bits are not represented, so this image is
    /// deliberately lossy for them.
    pub open spec fn spec_to_named_fields(&self) -> Seq<(FieldName, u8)> {
        seq![
            (FieldName::SteppingId, self.spec_stepping_id()),
            (FieldName::Model, self.spec_model()),
            (FieldName::FamilyId, self.spec_family_id()),
            (FieldName::ProcessorType, self.spec_processor_type()),
            (FieldName::ExtendedModelId, self.spec_extended_model_id()),
            (FieldName::ExtendedFamilyId, self.spec_extended_family_id()),
        ]
    }

    /// Reads every subfield into a named-field map, in canonical order.
    pub fn to_named_fields(&self) -> (r: Vec<(FieldName, u8)>)
        ensures
            r@ == self.spec_to_named_fields(),
    {
        let mut v: Vec<(FieldName, u8)> = Vec::new();
        v.push((FieldName::SteppingId, self.stepping_id()));
        v.push((FieldName::Model, self.model()));
        v.push((FieldName::FamilyId, self.family_id()));
        v.push((FieldName::ProcessorType, self.processor_type()));
        v.push((FieldName::ExtendedModelId, self.extended_model_id()));
        v.push((FieldName::ExtendedFamilyId, self.extended_family_id()));
        proof {
            assert(v@ =~= self.spec_to_named_fields());
        }
        v
    }

    /// This register identifies a model rather than granting a capability,
    /// so coverage is exact equality of the packed value.
    pub open spec fn spec_covers(&self, other: &Self) -> bool {
        self.0 == other.0
    }

    pub(crate) fn covers(&self, other: &Self) -> (r: bool)
        ensures
            r == self.spec_covers(other),
    {
        self.0 == other.0
    }
}

/// A map that binds every subfield of the version register to a value that
/// fits its width builds successfully, and reading the result back binds
/// each subfield to the very value the map gave it.
pub proof fn lemma_version_named_fields_round_trip(m: Seq<(FieldName, u8)>)
    requires
        spec_field_get(m, FieldName::SteppingId) is Some,
        spec_field_get(m, FieldName::SteppingId).unwrap() < 16,
        spec_field_get(m, FieldName::Model) is Some,
        spec_field_get(m, FieldName::Model).unwrap() < 16,
        spec_field_get(m, FieldName::FamilyId) is Some,
        spec_field_get(m, FieldName::FamilyId).unwrap() < 16,
        spec_field_get(m, FieldName::ProcessorType) is Some,
        spec_field_get(m, FieldName::ProcessorType).unwrap() < 4,
        spec_field_get(m, FieldName::ExtendedModelId) is Some,
        spec_field_get(m, FieldName::ExtendedModelId).unwrap() < 16,
        spec_field_get(m, FieldName::ExtendedFamilyId) is Some,
    ensures
        match ProcessorVersionInformation::spec_from_named_fields(m) {
            Ok(r) => r.spec_to_named_fields() =~= seq![
                (FieldName::SteppingId, spec_field_get(m, FieldName::SteppingId).unwrap()),
                (FieldName::Model, spec_field_get(m, FieldName::Model).unwrap()),
                (FieldName::FamilyId, spec_field_get(m, FieldName::FamilyId).unwrap()),
                (FieldName::ProcessorType, spec_field_get(m, FieldName::ProcessorType).unwrap()),
                (
                    FieldName::ExtendedModelId,
                    spec_field_get(m, FieldName::ExtendedModelId).unwrap(),
                ),
                (
                    FieldName::ExtendedFamilyId,
                    spec_field_get(m, FieldName::ExtendedFamilyId).unwrap(),
                ),
            ],
            Err(_) => false,
        },
{
    let st = spec_field_get(m, FieldName::SteppingId).unwrap();
    let mo = spec_field_get(m, FieldName::Model).unwrap();
    let fa = spec_field_get(m, FieldName::FamilyId).unwrap();
    let pt = spec_field_get(m, FieldName::ProcessorType).unwrap();
    let em = spec_field_get(m, FieldName::ExtendedModelId).unwrap();
    let ef = spec_field_get(m, FieldName::ExtendedFamilyId).unwrap();
    let v = (st as u32) | ((mo as u32) << 4u32) | ((fa as u32) << 8u32) | ((pt as u32) << 12u32)
        | ((em as u32) << 16u32) | ((ef as u32) << 20u32);
    assert(st < 16 && mo < 16 && fa < 16 && pt < 4 && em < 16 ==> {
        let v = (st as u32) | ((mo as u32) << 4u32) | ((fa as u32) << 8u32) | ((pt as u32)
            << 12u32) | ((em as u32) << 16u32) | ((ef as u32) << 20u32);
        (v & 0b1111) as u8 == st && ((v & 0b1111_0000) >> 4u32) as u8 == mo && ((v
            & 0b1111_0000_0000) >> 8u32) as u8 == fa && ((v & 0b0011_0000_0000_0000) >> 12u32) as u8
            == pt && ((v & 0b1111_0000_0000_0000_0000) >> 16u32) as u8 == em && ((v
            & 0b1111_1111_0000_0000_0000_0000_0000) >> 20u32) as u8 == ef
    }) by (bit_vector);
}

/// Leaf 1 `ebx`: miscellaneous processor information.
#[derive(Clone, Copy, Debug, PartialEq, Eq, Structural)]
pub struct AdditionalInformation {
    pub brand_index: u8,
    pub clflush_line_size: u8,
    pub maximum_addressable_logical_processor_ids: u8,
    /// The local APIC id assigned at boot.
    pub local_apic_id: u8,
}

impl AdditionalInformation {
    /// Coverage for this leaf: the brand index and cache-line size must
    /// match, and the reference must address at least as many logical
    /// processors. The local APIC id is deliberately excluded: it is a
    /// per-boot identity with no bearing on functional compatibility.
    pub open spec fn spec_covers(&self, other: &Self) -> bool {
        self.brand_index == other.brand_index && self.clflush_line_size == other.clflush_line_size
            && self.maximum_addressable_logical_processor_ids
            >= other.maximum_addressable_logical_processor_ids
    }

    pub(crate) fn covers(&self, other: &Self) -> (r: bool)
        ensures
            r == self.spec_covers(other),
    {
        self.brand_index == other.brand_index && self.clflush_line_size == other.clflush_line_size
            && self.maximum_addressable_logical_processor_ids
            >= other.maximum_addressable_logical_processor_ids
    }
}

/// Leaf 1 `ecx` and `edx`: the feature bit sets.
#[derive(Clone, Copy, Debug, PartialEq, Eq, Structural)]
pub struct FeatureInformation {
    pub ecx: Leaf0x1_SubLeaf0_Ecx,
    pub edx: Leaf0x1_SubLeaf0_Edx,
}

impl FeatureInformation {
    /// Coverage for feature bits: every feature the candidate exposes must
    /// also be present on the reference.
    pub open spec fn spec_covers(&self, other: &Self) -> bool {
        spec_flags_contain(self.ecx.bits, other.ecx.bits) && spec_flags_contain(
            self.edx.bits,
            other.edx.bits,
        )
    }

    pub(crate) fn covers(&self, other: &Self) -> (r: bool)
        ensures
            r == self.spec_covers(other),
    {
        self.ecx.contains(other.ecx) && self.edx.contains(other.edx)
    }
}

/// Leaf 1: processor version, additional information and feature bits.
#[derive(Clone, Copy, Debug, PartialEq, Eq, Structural)]
pub struct ProcessorInfoAndFeatureBits {
    pub processor_version_information: ProcessorVersionInformation,
    pub additional_information: AdditionalInformation,
    pub feature_information: FeatureInformation,
}

impl ProcessorInfoAndFeatureBits {
    /// Assembles the leaf from the raw registers of leaf 1, sub-leaf 0.
    pub fn new(eax: u32, ebx: u32, ecx: u32, edx: u32) -> (r: Self)
        ensures
            r.processor_version_information.0 == eax,
            r.additional_information.brand_index == (ebx & 0xff) as u8,
            r.additional_information.clflush_line_size == ((ebx >> 8u32) & 0xff) as u8,
            r.additional_information.maximum_addressable_logical_processor_ids == ((ebx >> 16u32)
                & 0xff) as u8,
            r.additional_information.local_apic_id == ((ebx >> 24u32) & 0xff) as u8,
            r.feature_information.ecx.bits == ecx,
            r.feature_information.edx.bits == edx,
    {
        Self {
            processor_version_information: ProcessorVersionInformation(eax),
            additional_information: AdditionalInformation {
                brand_index: (ebx & 0xff) as u8,
                clflush_line_size: ((ebx >> 8u32) & 0xff) as u8,
                maximum_addressable_logical_processor_ids: ((ebx >> 16u32) & 0xff) as u8,
                local_apic_id: ((ebx >> 24u32) & 0xff) as u8,
            },
            feature_information: FeatureInformation {
                ecx: Leaf0x1_SubLeaf0_Ecx { bits: ecx },
                edx: Leaf0x1_SubLeaf0_Edx { bits: edx },
            },
        }
    }

    /// The additional-information bytes reassembled into the raw `ebx`
    /// value, least-significant byte first.
    pub fn ebx(&self) -> (r: u32)
        ensures
            r == (self.additional_information.brand_index as u32) | ((
            self.additional_information.clflush_line_size as u32) << 8u32) | ((
            self.additional_information.maximum_addressable_logical_processor_ids as u32)
                << 16u32) | ((self.additional_information.local_apic_id as u32) << 24u32),
    {
        (self.additional_information.brand_index as u32) | ((
        self.additional_information.clflush_line_size as u32) << 8u32) | ((
        self.additional_information.maximum_addressable_logical_processor_ids as u32) << 16u32) | (
        (self.additional_information.local_apic_id as u32) << 24u32)
    }

    /// The raw feature bits of `edx`.
    pub fn edx(&self) -> (r: u32)
        ensures
            r == self.feature_information.edx.bits,
    {
        self.feature_information.edx.bits
    }

    /// The raw feature bits of `ecx`.
    pub fn ecx(&self) -> (r: u32)
        ensures
            r == self.feature_information.ecx.bits,
    {
        self.feature_information.ecx.bits
    }

    /// The raw packed version identifier of `eax`.
    pub fn eax(&self) -> (r: u32)
        ensures
            r == self.processor_version_information.0,
    {
        self.processor_version_information.0
    }

    /// Coverage for leaf 1: the version identifiers match exactly, the
    /// additional information is compatible, and the reference holds every
    /// candidate feature bit.
    pub open spec fn spec_covers(&self, other: &Self) -> bool {
        self.processor_version_information.spec_covers(&other.processor_version_information)
            && self.additional_information.spec_covers(&other.additional_information)
            && self.feature_information.spec_covers(&other.feature_information)
    }

    pub(crate) fn covers(&self, other: &Self) -> (r: bool)
        ensures
            r == self.spec_covers(other),
    {
        self.processor_version_information.covers(&other.processor_version_information)
            && self.additional_information.covers(&other.additional_information)
            && self.feature_information.covers(&other.feature_information)
    }

    pub fn sub_leaf<const N: usize>(&self) -> (r: &<Self as SubLeaf<N>>::Output) where
        Self: SubLeaf<N>,

        ensures
            *r == <Self as SubLeaf<N>>::sub_leaf_spec(self),
    {
        <Self as SubLeaf<N>>::sub_leaf(self)
    }
}

impl SubLeaf<0> for ProcessorInfoAndFeatureBits {
    type Output = Self;

    open spec fn sub_leaf_spec(&self) -> Self {
        *self
    }

    fn sub_leaf(&self) -> (r: &Self) {
        self
    }
}

} // verus!
