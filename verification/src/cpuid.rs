use vstd::prelude::*;

verus! {

broadcast use vstd::array::group_array_axioms;

use crate::codec::{
    push_u32_le,
    read_u32_le,
    lemma_u32_le_round_trip,
    spec_u32_from_le_bytes,
    spec_u32_le_bytes,
};
use crate::extended::{
    ExtendedProcessorInfoAndFeatureBits,
    Leaf0x8000_0008_SubLeaf0_Eax,
    Leaf0x8000_0008_SubLeaf0_Ecx,
    VirtualAndPhysicalAddressSizes,
};
use crate::flags::{
    lemma_flags_contain_reflexive,
    lemma_flags_contain_widen,
    spec_flags_contain,
    Leaf0x1_SubLeaf0_Ecx,
    Leaf0x1_SubLeaf0_Edx,
    Leaf0x12_SubLeaf0_Eax,
    Leaf0x14_SubLeaf0_Ebx,
    Leaf0x19_SubLeaf0_Ebx,
    Leaf0x8000_001F_SubLeaf0_Eax,
    Leaf0xD_SubLeaf1_Eax,
};
use crate::indexing::Leaf;
use crate::leaf0::{FixedString, HighestFunctionParameterAndManufacturerID};
use crate::leaf1::{
    AdditionalInformation,
    FeatureInformation,
    ProcessorInfoAndFeatureBits,
    ProcessorVersionInformation,
};
use crate::leaf6::ThermalAndPowerManagement;
use crate::leaf7::ExtendedFeatures;

/// The four registers one CPUID query returns.
#[derive(Clone, Copy, Debug, PartialEq, Eq, Structural)]
pub struct LeafRegisters {
    pub eax: u32,
    pub ebx: u32,
    pub ecx: u32,
    pub edx: u32,
}

/// The raw register values of every modeled (leaf, sub-leaf) pair, as an
/// external reader hands them over: one query per pair.
#[derive(Clone, Copy, Debug, PartialEq, Eq, Structural)]
pub struct CpuidReads {
    /// Leaf 0, sub-leaf 0.
    pub leaf0: LeafRegisters,
    /// Leaf 1, sub-leaf 0.
    pub leaf1: LeafRegisters,
    /// Leaf 6, sub-leaf 0.
    pub leaf6: LeafRegisters,
    /// Leaf 7, sub-leaf 0.
    pub leaf7_sub0: LeafRegisters,
    /// Leaf 7, sub-leaf 1.
    pub leaf7_sub1: LeafRegisters,
    /// Leaf 13, sub-leaf 1.
    pub leaf13_sub1: LeafRegisters,
    /// Leaf 18, sub-leaf 0.
    pub leaf18: LeafRegisters,
    /// Leaf 20, sub-leaf 0.
    pub leaf20: LeafRegisters,
    /// Leaf 25, sub-leaf 0.
    pub leaf25: LeafRegisters,
    /// Leaf 0x8000_0001, sub-leaf 0.
    pub leaf0x8000_0001: LeafRegisters,
    /// Leaf 0x8000_0008, sub-leaf 0.
    pub leaf0x8000_0008: LeafRegisters,
    /// Leaf 0x8000_001F, sub-leaf 0.
    pub leaf0x8000_001F: LeafRegisters,
}

/// The aggregate: one instance of every modeled leaf, owned exclusively,
/// immutable once built except through the explicit subfield setters.
#[derive(Clone, Debug, PartialEq, Eq)]
pub struct Cpuid {
    /// Leaf 0.
    pub leaf0x00_highest_function_parameter_an_manufacturer_id:
        HighestFunctionParameterAndManufacturerID,
    /// Leaf 1.
    pub leaf0x01_process_info_and_feature_bits: ProcessorInfoAndFeatureBits,
    /// Leaf 6.
    pub leaf0x06_thermal_and_power_management: ThermalAndPowerManagement,
    /// Leaf 7.
    pub leaf0x07_extended_features: ExtendedFeatures,
    /// Leaf 13 / 0xD.
    pub leaf0x0d_cpuid_feature_bits: Leaf0xD_SubLeaf1_Eax,
    /// Leaf 18 / 0x12.
    pub leaf0x12_cpuid_feature_bits: Leaf0x12_SubLeaf0_Eax,
    /// Leaf 20 / 0x14.
    pub leaf0x14_cpuid_feature_bits: Leaf0x14_SubLeaf0_Ebx,
    /// Leaf 25 / 0x19.
    pub leaf0x19_cpuid_feature_bits: Leaf0x19_SubLeaf0_Ebx,
    /// Leaf 0x8000_0001.
    pub leaf0x8000_0001_highest_function_parameter_an_manufacturer_id:
        ExtendedProcessorInfoAndFeatureBits,
    /// Leaf 0x8000_0008.
    pub leaf0x8000_0008_virtual_and_physical_address_sizes: VirtualAndPhysicalAddressSizes,
    /// Leaf 0x8000_001F.
    pub leaf0x8000_001F_cpuid_feature_bits: Leaf0x8000_001F_SubLeaf0_Eax,
}

impl Cpuid {
    /// Builds the aggregate once, synchronously, from one set of raw
    /// register reads; no leaf is validated against a known-bit mask, so
    /// reserved bits survive construction verbatim.
    pub fn new(reads: &CpuidReads) -> (r: Cpuid)
        ensures
            r.leaf0x00_highest_function_parameter_an_manufacturer_id.manufacturer_id.0@
                == HighestFunctionParameterAndManufacturerID::spec_manufacturer(
                reads.leaf0.ebx,
                reads.leaf0.ecx,
                reads.leaf0.edx,
            ),
            r.leaf0x00_highest_function_parameter_an_manufacturer_id.highest_calling_parameter
                == reads.leaf0.eax,
            r.leaf0x01_process_info_and_feature_bits.processor_version_information.0
                == reads.leaf1.eax,
            r.leaf0x01_process_info_and_feature_bits.additional_information.brand_index == (
            reads.leaf1.ebx & 0xff) as u8,
            r.leaf0x01_process_info_and_feature_bits.additional_information.clflush_line_size == ((
            reads.leaf1.ebx >> 8u32) & 0xff) as u8,
            r.leaf0x01_process_info_and_feature_bits.additional_information.maximum_addressable_logical_processor_ids
                == ((reads.leaf1.ebx >> 16u32) & 0xff) as u8,
            r.leaf0x01_process_info_and_feature_bits.additional_information.local_apic_id == ((
            reads.leaf1.ebx >> 24u32) & 0xff) as u8,
            r.leaf0x01_process_info_and_feature_bits.feature_information.ecx.bits
                == reads.leaf1.ecx,
            r.leaf0x01_process_info_and_feature_bits.feature_information.edx.bits
                == reads.leaf1.edx,
            r.leaf0x06_thermal_and_power_management.features.eax.bits == reads.leaf6.eax,
            r.leaf0x06_thermal_and_power_management.features.ecx.bits == reads.leaf6.ecx,
            r.leaf0x06_thermal_and_power_management.number_of_interrupt_thresholds.0
                == reads.leaf6.ebx,
            r.leaf0x07_extended_features.sub_leaf0.ebx.bits == reads.leaf7_sub0.ebx,
            r.leaf0x07_extended_features.sub_leaf0.ecx.bits == reads.leaf7_sub0.ecx,
            r.leaf0x07_extended_features.sub_leaf0.edx.bits == reads.leaf7_sub0.edx,
            r.leaf0x07_extended_features.sub_leaf1.bits == reads.leaf7_sub1.eax,
            r.leaf0x0d_cpuid_feature_bits.bits == reads.leaf13_sub1.eax,
            r.leaf0x12_cpuid_feature_bits.bits == reads.leaf18.eax,
            r.leaf0x14_cpuid_feature_bits.bits == reads.leaf20.ebx,
            r.leaf0x19_cpuid_feature_bits.bits == reads.leaf25.ebx,
            r.leaf0x8000_0001_highest_function_parameter_an_manufacturer_id.edx.bits
                == reads.leaf0x8000_0001.edx,
            r.leaf0x8000_0001_highest_function_parameter_an_manufacturer_id.ecx.bits
                == reads.leaf0x8000_0001.ecx,
            r.leaf0x8000_0008_virtual_and_physical_address_sizes.eax.0
                == reads.leaf0x8000_0008.eax,
            r.leaf0x8000_0008_virtual_and_physical_address_sizes.ebx.bits
                == reads.leaf0x8000_0008.ebx,
            r.leaf0x8000_0008_virtual_and_physical_address_sizes.ecx.0
                == reads.leaf0x8000_0008.ecx,
            r.leaf0x8000_001F_cpuid_feature_bits.bits == reads.leaf0x8000_001F.eax,
    {
        Cpuid {
            leaf0x00_highest_function_parameter_an_manufacturer_id:
                HighestFunctionParameterAndManufacturerID::new(
                reads.leaf0.eax,
                reads.leaf0.ebx,
                reads.leaf0.ecx,
                reads.leaf0.edx,
            ),
            leaf0x01_process_info_and_feature_bits: ProcessorInfoAndFeatureBits::new(
                reads.leaf1.eax,
                reads.leaf1.ebx,
                reads.leaf1.ecx,
                reads.leaf1.edx,
            ),
            leaf0x06_thermal_and_power_management: ThermalAndPowerManagement::new(
                reads.leaf6.eax,
                reads.leaf6.ebx,
                reads.leaf6.ecx,
                reads.leaf6.edx,
            ),
            leaf0x07_extended_features: ExtendedFeatures::new(
                reads.leaf7_sub0.ebx,
                reads.leaf7_sub0.ecx,
                reads.leaf7_sub0.edx,
                reads.leaf7_sub1.eax,
            ),
            leaf0x0d_cpuid_feature_bits: Leaf0xD_SubLeaf1_Eax::from_bits(reads.leaf13_sub1.eax),
            leaf0x12_cpuid_feature_bits: Leaf0x12_SubLeaf0_Eax::from_bits(reads.leaf18.eax),
            leaf0x14_cpuid_feature_bits: Leaf0x14_SubLeaf0_Ebx::from_bits(reads.leaf20.ebx),
            leaf0x19_cpuid_feature_bits: Leaf0x19_SubLeaf0_Ebx::from_bits(reads.leaf25.ebx),
            leaf0x8000_0001_highest_function_parameter_an_manufacturer_id:
                ExtendedProcessorInfoAndFeatureBits::new(
                reads.leaf0x8000_0001.ecx,
                reads.leaf0x8000_0001.edx,
            ),
            leaf0x8000_0008_virtual_and_physical_address_sizes:
                VirtualAndPhysicalAddressSizes::new(
                reads.leaf0x8000_0008.eax,
                reads.leaf0x8000_0008.ebx,
                reads.leaf0x8000_0008.ecx,
            ),
            leaf0x8000_001F_cpuid_feature_bits: Leaf0x8000_001F_SubLeaf0_Eax::from_bits(
                reads.leaf0x8000_001F.eax,
            ),
        }
    }

    /// Whether it is safe to resume, on a machine described by `self`, a
    /// computation started on a machine described by `other`: the
    /// conjunction of every modeled leaf's own coverage rule.
    pub open spec fn spec_covers(&self, other: &Self) -> bool {
        self.leaf0x00_highest_function_parameter_an_manufacturer_id.spec_covers(
            &other.leaf0x00_highest_function_parameter_an_manufacturer_id,
        ) && self.leaf0x01_process_info_and_feature_bits.spec_covers(
            &other.leaf0x01_process_info_and_feature_bits,
        ) && self.leaf0x06_thermal_and_power_management.spec_covers(
            &other.leaf0x06_thermal_and_power_management,
        ) && self.leaf0x07_extended_features.spec_covers(&other.leaf0x07_extended_features)
            && spec_flags_contain(
            self.leaf0x0d_cpuid_feature_bits.bits,
            other.leaf0x0d_cpuid_feature_bits.bits,
        ) && spec_flags_contain(
            self.leaf0x12_cpuid_feature_bits.bits,
            other.leaf0x12_cpuid_feature_bits.bits,
        ) && spec_flags_contain(
            self.leaf0x14_cpuid_feature_bits.bits,
            other.leaf0x14_cpuid_feature_bits.bits,
        ) && spec_flags_contain(
            self.leaf0x19_cpuid_feature_bits.bits,
            other.leaf0x19_cpuid_feature_bits.bits,
        ) && self.leaf0x8000_0001_highest_function_parameter_an_manufacturer_id.spec_covers(
            &other.leaf0x8000_0001_highest_function_parameter_an_manufacturer_id,
        ) && self.leaf0x8000_0008_virtual_and_physical_address_sizes.spec_covers(
            &other.leaf0x8000_0008_virtual_and_physical_address_sizes,
        ) && spec_flags_contain(
            self.leaf0x8000_001F_cpuid_feature_bits.bits,
            other.leaf0x8000_001F_cpuid_feature_bits.bits,
        )
    }

    /// Decides feature coverage: true exactly when every leaf's coverage
    /// rule holds between `self` as reference and `other` as candidate.
    pub fn covers(&self, other: &Self) -> (r: bool)
        ensures
            r == self.spec_covers(other),
    {
        self.leaf0x00_highest_function_parameter_an_manufacturer_id.covers(
            &other.leaf0x00_highest_function_parameter_an_manufacturer_id,
        ) && self.leaf0x01_process_info_and_feature_bits.covers(
            &other.leaf0x01_process_info_and_feature_bits,
        ) && self.leaf0x06_thermal_and_power_management.covers(
            &other.leaf0x06_thermal_and_power_management,
        ) && self.leaf0x07_extended_features.covers(&other.leaf0x07_extended_features)
            && self.leaf0x0d_cpuid_feature_bits.contains(other.leaf0x0d_cpuid_feature_bits)
            && self.leaf0x12_cpuid_feature_bits.contains(other.leaf0x12_cpuid_feature_bits)
            && self.leaf0x14_cpuid_feature_bits.contains(other.leaf0x14_cpuid_feature_bits)
            && self.leaf0x19_cpuid_feature_bits.contains(other.leaf0x19_cpuid_feature_bits)
            && self.leaf0x8000_0001_highest_function_parameter_an_manufacturer_id.covers(
            &other.leaf0x8000_0001_highest_function_parameter_an_manufacturer_id,
        ) && self.leaf0x8000_0008_virtual_and_physical_address_sizes.covers(
            &other.leaf0x8000_0008_virtual_and_physical_address_sizes,
        ) && self.leaf0x8000_001F_cpuid_feature_bits.contains(
            other.leaf0x8000_001F_cpuid_feature_bits,
        )
    }

    pub fn leaf<const N: usize>(&self) -> (r: &<Self as Leaf<N>>::Output) where Self: Leaf<N>
        ensures
            *r == <Self as Leaf<N>>::leaf_spec(self),
    {
        <Self as Leaf<N>>::leaf(self)
    }

    /// The fixed 100-byte image of the aggregate: every leaf in catalog
    /// order, each register as four little-endian bytes, with no header or
    /// length prefix.
    pub open spec fn spec_bytes(&self) -> Seq<u8> {
        self.leaf0x00_highest_function_parameter_an_manufacturer_id.manufacturer_id.0@
            + spec_u32_le_bytes(
            self.leaf0x00_highest_function_parameter_an_manufacturer_id.highest_calling_parameter,
        )
            + spec_u32_le_bytes(
            self.leaf0x01_process_info_and_feature_bits.processor_version_information.0,
        )
            + seq![
            self.leaf0x01_process_info_and_feature_bits.additional_information.brand_index,
            self.leaf0x01_process_info_and_feature_bits.additional_information.clflush_line_size,
            self.leaf0x01_process_info_and_feature_bits.additional_information.maximum_addressable_logical_processor_ids,
            self.leaf0x01_process_info_and_feature_bits.additional_information.local_apic_id,
        ]
            + spec_u32_le_bytes(
            self.leaf0x01_process_info_and_feature_bits.feature_information.ecx.bits,
        )
            + spec_u32_le_bytes(
            self.leaf0x01_process_info_and_feature_bits.feature_information.edx.bits,
        ) + spec_u32_le_bytes(self.leaf0x06_thermal_and_power_management.features.eax.bits)
            + spec_u32_le_bytes(self.leaf0x06_thermal_and_power_management.features.ecx.bits)
            + spec_u32_le_bytes(
            self.leaf0x06_thermal_and_power_management.number_of_interrupt_thresholds.0,
        ) + spec_u32_le_bytes(self.leaf0x07_extended_features.sub_leaf0.ebx.bits)
            + spec_u32_le_bytes(self.leaf0x07_extended_features.sub_leaf0.ecx.bits)
            + spec_u32_le_bytes(self.leaf0x07_extended_features.sub_leaf0.edx.bits)
            + spec_u32_le_bytes(self.leaf0x07_extended_features.sub_leaf1.bits)
            + spec_u32_le_bytes(self.leaf0x0d_cpuid_feature_bits.bits) + spec_u32_le_bytes(
            self.leaf0x12_cpuid_feature_bits.bits,
        ) + spec_u32_le_bytes(self.leaf0x14_cpuid_feature_bits.bits) + spec_u32_le_bytes(
            self.leaf0x19_cpuid_feature_bits.bits,
        )
            + spec_u32_le_bytes(
            self.leaf0x8000_0001_highest_function_parameter_an_manufacturer_id.edx.bits,
        )
            + spec_u32_le_bytes(
            self.leaf0x8000_0001_highest_function_parameter_an_manufacturer_id.ecx.bits,
        ) + spec_u32_le_bytes(self.leaf0x8000_0008_virtual_and_physical_address_sizes.eax.0)
            + spec_u32_le_bytes(self.leaf0x8000_0008_virtual_and_physical_address_sizes.ebx.bits)
            + spec_u32_le_bytes(self.leaf0x8000_0008_virtual_and_physical_address_sizes.ecx.0)
            + spec_u32_le_bytes(self.leaf0x8000_001F_cpuid_feature_bits.bits)
    }

    /// Serializes the aggregate to its fixed 100-byte image.
    pub fn to_bytes(&self) -> (r: Vec<u8>)
        ensures
            r@ == self.spec_bytes(),
            r@.len() == 100,
    {
        let mut v: Vec<u8> = Vec::new();
        let m = &self.leaf0x00_highest_function_parameter_an_manufacturer_id.manufacturer_id;
        let mut i: usize = 0;
        while i < 12
            invariant
                i <= 12,
                v@ =~= m.0@.take(i as int),
            decreases 12 - i,
        {
            v.push(m.0[i]);
            i = i + 1;
        }
        proof {
            assert(v@ =~= m.0@);
        }
        push_u32_le(
            &mut v,
            self.leaf0x00_highest_function_parameter_an_manufacturer_id.highest_calling_parameter,
        );
        push_u32_le(
            &mut v,
            self.leaf0x01_process_info_and_feature_bits.processor_version_information.0,
        );
        v.push(self.leaf0x01_process_info_and_feature_bits.additional_information.brand_index);
        v.push(
            self.leaf0x01_process_info_and_feature_bits.additional_information.clflush_line_size,
        );
        v.push(
            self.leaf0x01_process_info_and_feature_bits.additional_information.maximum_addressable_logical_processor_ids,
        );
        v.push(self.leaf0x01_process_info_and_feature_bits.additional_information.local_apic_id);
        push_u32_le(
            &mut v,
            self.leaf0x01_process_info_and_feature_bits.feature_information.ecx.bits,
        );
        push_u32_le(
            &mut v,
            self.leaf0x01_process_info_and_feature_bits.feature_information.edx.bits,
        );
        push_u32_le(&mut v, self.leaf0x06_thermal_and_power_management.features.eax.bits);
        push_u32_le(&mut v, self.leaf0x06_thermal_and_power_management.features.ecx.bits);
        push_u32_le(
            &mut v,
            self.leaf0x06_thermal_and_power_management.number_of_interrupt_thresholds.0,
        );
        push_u32_le(&mut v, self.leaf0x07_extended_features.sub_leaf0.ebx.bits);
        push_u32_le(&mut v, self.leaf0x07_extended_features.sub_leaf0.ecx.bits);
        push_u32_le(&mut v, self.leaf0x07_extended_features.sub_leaf0.edx.bits);
        push_u32_le(&mut v, self.leaf0x07_extended_features.sub_leaf1.bits);
        push_u32_le(&mut v, self.leaf0x0d_cpuid_feature_bits.bits);
        push_u32_le(&mut v, self.leaf0x12_cpuid_feature_bits.bits);
        push_u32_le(&mut v, self.leaf0x14_cpuid_feature_bits.bits);
        push_u32_le(&mut v, self.leaf0x19_cpuid_feature_bits.bits);
        push_u32_le(
            &mut v,
            self.leaf0x8000_0001_highest_function_parameter_an_manufacturer_id.edx.bits,
        );
        push_u32_le(
            &mut v,
            self.leaf0x8000_0001_highest_function_parameter_an_manufacturer_id.ecx.bits,
        );
        push_u32_le(&mut v, self.leaf0x8000_0008_virtual_and_physical_address_sizes.eax.0);
        push_u32_le(&mut v, self.leaf0x8000_0008_virtual_and_physical_address_sizes.ebx.bits);
        push_u32_le(&mut v, self.leaf0x8000_0008_virtual_and_physical_address_sizes.ecx.0);
        push_u32_le(&mut v, self.leaf0x8000_001F_cpuid_feature_bits.bits);
        proof {
            assert(v@ =~= self.spec_bytes());
        }
        v
    }

    /// `c` is the aggregate that the 100-byte image `b` describes.
    pub open spec fn spec_parsed_from(c: &Cpuid, b: Seq<u8>) -> bool {
        c.leaf0x00_highest_function_parameter_an_manufacturer_id.manufacturer_id.0@ == b.subrange(
            0,
            12,
        ) && c.leaf0x00_highest_function_parameter_an_manufacturer_id.highest_calling_parameter
            == spec_u32_from_le_bytes(b.subrange(12, 16))
            && c.leaf0x01_process_info_and_feature_bits.processor_version_information.0
            == spec_u32_from_le_bytes(b.subrange(16, 20))
            && c.leaf0x01_process_info_and_feature_bits.additional_information.brand_index == b[20]
            && c.leaf0x01_process_info_and_feature_bits.additional_information.clflush_line_size
            == b[21]
            && c.leaf0x01_process_info_and_feature_bits.additional_information.maximum_addressable_logical_processor_ids
            == b[22] && c.leaf0x01_process_info_and_feature_bits.additional_information.local_apic_id
            == b[23] && c.leaf0x01_process_info_and_feature_bits.feature_information.ecx.bits
            == spec_u32_from_le_bytes(b.subrange(24, 28))
            && c.leaf0x01_process_info_and_feature_bits.feature_information.edx.bits
            == spec_u32_from_le_bytes(b.subrange(28, 32))
            && c.leaf0x06_thermal_and_power_management.features.eax.bits == spec_u32_from_le_bytes(
            b.subrange(32, 36),
        ) && c.leaf0x06_thermal_and_power_management.features.ecx.bits == spec_u32_from_le_bytes(
            b.subrange(36, 40),
        ) && c.leaf0x06_thermal_and_power_management.number_of_interrupt_thresholds.0
            == spec_u32_from_le_bytes(b.subrange(40, 44))
            && c.leaf0x07_extended_features.sub_leaf0.ebx.bits == spec_u32_from_le_bytes(
            b.subrange(44, 48),
        ) && c.leaf0x07_extended_features.sub_leaf0.ecx.bits == spec_u32_from_le_bytes(
            b.subrange(48, 52),
        ) && c.leaf0x07_extended_features.sub_leaf0.edx.bits == spec_u32_from_le_bytes(
            b.subrange(52, 56),
        ) && c.leaf0x07_extended_features.sub_leaf1.bits == spec_u32_from_le_bytes(
            b.subrange(56, 60),
        ) && c.leaf0x0d_cpuid_feature_bits.bits == spec_u32_from_le_bytes(b.subrange(60, 64))
            && c.leaf0x12_cpuid_feature_bits.bits == spec_u32_from_le_bytes(b.subrange(64, 68))
            && c.leaf0x14_cpuid_feature_bits.bits == spec_u32_from_le_bytes(b.subrange(68, 72))
            && c.leaf0x19_cpuid_feature_bits.bits == spec_u32_from_le_bytes(b.subrange(72, 76))
            && c.leaf0x8000_0001_highest_function_parameter_an_manufacturer_id.edx.bits
            == spec_u32_from_le_bytes(b.subrange(76, 80))
            && c.leaf0x8000_0001_highest_function_parameter_an_manufacturer_id.ecx.bits
            == spec_u32_from_le_bytes(b.subrange(80, 84))
            && c.leaf0x8000_0008_virtual_and_physical_address_sizes.eax.0
            == spec_u32_from_le_bytes(b.subrange(84, 88))
            && c.leaf0x8000_0008_virtual_and_physical_address_sizes.ebx.bits
            == spec_u32_from_le_bytes(b.subrange(88, 92))
            && c.leaf0x8000_0008_virtual_and_physical_address_sizes.ecx.0
            == spec_u32_from_le_bytes(b.subrange(92, 96))
            && c.leaf0x8000_001F_cpuid_feature_bits.bits == spec_u32_from_le_bytes(
            b.subrange(96, 100),
        )
    }

    /// Rebuilds an aggregate from its fixed 100-byte image; any other
    /// length is rejected, since the format carries no framing of its own.
    pub fn from_bytes(b: &Vec<u8>) -> (r: Option<Cpuid>)
        ensures
            r is Some <==> b@.len() == 100,
            r is Some ==> Self::spec_parsed_from(&r.unwrap(), b@),
    {
        if b.len() != 100 {
            return None;
        }
        let m = FixedString(
            [
                b[0],
                b[1],
                b[2],
                b[3],
                b[4],
                b[5],
                b[6],
                b[7],
                b[8],
                b[9],
                b[10],
                b[11],
            ],
        );
        proof {
            assert(m.0@ =~= b@.subrange(0, 12));
        }
        let c = Cpuid {
            leaf0x00_highest_function_parameter_an_manufacturer_id:
                HighestFunctionParameterAndManufacturerID {
                manufacturer_id: m,
                highest_calling_parameter: read_u32_le(b, 12),
            },
            leaf0x01_process_info_and_feature_bits: ProcessorInfoAndFeatureBits {
                processor_version_information: ProcessorVersionInformation(read_u32_le(b, 16)),
                additional_information: AdditionalInformation {
                    brand_index: b[20],
                    clflush_line_size: b[21],
                    maximum_addressable_logical_processor_ids: b[22],
                    local_apic_id: b[23],
                },
                feature_information: FeatureInformation {
                    ecx: Leaf0x1_SubLeaf0_Ecx::from_bits(read_u32_le(b, 24)),
                    edx: Leaf0x1_SubLeaf0_Edx::from_bits(read_u32_le(b, 28)),
                },
            },
            leaf0x06_thermal_and_power_management: ThermalAndPowerManagement::new(
                read_u32_le(b, 32),
                read_u32_le(b, 40),
                read_u32_le(b, 36),
                0,
            ),
            leaf0x07_extended_features: ExtendedFeatures::new(
                read_u32_le(b, 44),
                read_u32_le(b, 48),
                read_u32_le(b, 52),
                read_u32_le(b, 56),
            ),
            leaf0x0d_cpuid_feature_bits: Leaf0xD_SubLeaf1_Eax::from_bits(read_u32_le(b, 60)),
            leaf0x12_cpuid_feature_bits: Leaf0x12_SubLeaf0_Eax::from_bits(read_u32_le(b, 64)),
            leaf0x14_cpuid_feature_bits: Leaf0x14_SubLeaf0_Ebx::from_bits(read_u32_le(b, 68)),
            leaf0x19_cpuid_feature_bits: Leaf0x19_SubLeaf0_Ebx::from_bits(read_u32_le(b, 72)),
            leaf0x8000_0001_highest_function_parameter_an_manufacturer_id:
                ExtendedProcessorInfoAndFeatureBits::new(
                read_u32_le(b, 80),
                read_u32_le(b, 76),
            ),
            leaf0x8000_0008_virtual_and_physical_address_sizes:
                VirtualAndPhysicalAddressSizes::new(
                read_u32_le(b, 84),
                read_u32_le(b, 88),
                read_u32_le(b, 92),
            ),
            leaf0x8000_001F_cpuid_feature_bits: Leaf0x8000_001F_SubLeaf0_Eax::from_bits(
                read_u32_le(b, 96),
            ),
        };
        Some(c)
    }
}

impl Leaf<0> for Cpuid {
    type Output = HighestFunctionParameterAndManufacturerID;

    open spec fn leaf_spec(&self) -> HighestFunctionParameterAndManufacturerID {
        self.leaf0x00_highest_function_parameter_an_manufacturer_id
    }

    fn leaf(&self) -> (r: &HighestFunctionParameterAndManufacturerID) {
        &self.leaf0x00_highest_function_parameter_an_manufacturer_id
    }
}

impl Leaf<1> for Cpuid {
    type Output = ProcessorInfoAndFeatureBits;

    open spec fn leaf_spec(&self) -> ProcessorInfoAndFeatureBits {
        self.leaf0x01_process_info_and_feature_bits
    }

    fn leaf(&self) -> (r: &ProcessorInfoAndFeatureBits) {
        &self.leaf0x01_process_info_and_feature_bits
    }
}

impl Leaf<6> for Cpuid {
    type Output = ThermalAndPowerManagement;

    open spec fn leaf_spec(&self) -> ThermalAndPowerManagement {
        self.leaf0x06_thermal_and_power_management
    }

    fn leaf(&self) -> (r: &ThermalAndPowerManagement) {
        &self.leaf0x06_thermal_and_power_management
    }
}

impl Leaf<7> for Cpuid {
    type Output = ExtendedFeatures;

    open spec fn leaf_spec(&self) -> ExtendedFeatures {
        self.leaf0x07_extended_features
    }

    fn leaf(&self) -> (r: &ExtendedFeatures) {
        &self.leaf0x07_extended_features
    }
}

impl Leaf<13> for Cpuid {
    type Output = Leaf0xD_SubLeaf1_Eax;

    open spec fn leaf_spec(&self) -> Leaf0xD_SubLeaf1_Eax {
        self.leaf0x0d_cpuid_feature_bits
    }

    fn leaf(&self) -> (r: &Leaf0xD_SubLeaf1_Eax) {
        &self.leaf0x0d_cpuid_feature_bits
    }
}

impl Leaf<18> for Cpuid {
    type Output = Leaf0x12_SubLeaf0_Eax;

    open spec fn leaf_spec(&self) -> Leaf0x12_SubLeaf0_Eax {
        self.leaf0x12_cpuid_feature_bits
    }

    fn leaf(&self) -> (r: &Leaf0x12_SubLeaf0_Eax) {
        &self.leaf0x12_cpuid_feature_bits
    }
}

impl Leaf<20> for Cpuid {
    type Output = Leaf0x14_SubLeaf0_Ebx;

    open spec fn leaf_spec(&self) -> Leaf0x14_SubLeaf0_Ebx {
        self.leaf0x14_cpuid_feature_bits
    }

    fn leaf(&self) -> (r: &Leaf0x14_SubLeaf0_Ebx) {
        &self.leaf0x14_cpuid_feature_bits
    }
}

impl Leaf<25> for Cpuid {
    type Output = Leaf0x19_SubLeaf0_Ebx;

    open spec fn leaf_spec(&self) -> Leaf0x19_SubLeaf0_Ebx {
        self.leaf0x19_cpuid_feature_bits
    }

    fn leaf(&self) -> (r: &Leaf0x19_SubLeaf0_Ebx) {
        &self.leaf0x19_cpuid_feature_bits
    }
}

impl Leaf<0x8000_0001> for Cpuid {
    type Output = ExtendedProcessorInfoAndFeatureBits;

    open spec fn leaf_spec(&self) -> ExtendedProcessorInfoAndFeatureBits {
        self.leaf0x8000_0001_highest_function_parameter_an_manufacturer_id
    }

    fn leaf(&self) -> (r: &ExtendedProcessorInfoAndFeatureBits) {
        &self.leaf0x8000_0001_highest_function_parameter_an_manufacturer_id
    }
}

impl Leaf<0x8000_0008> for Cpuid {
    type Output = VirtualAndPhysicalAddressSizes;

    open spec fn leaf_spec(&self) -> VirtualAndPhysicalAddressSizes {
        self.leaf0x8000_0008_virtual_and_physical_address_sizes
    }

    fn leaf(&self) -> (r: &VirtualAndPhysicalAddressSizes) {
        &self.leaf0x8000_0008_virtual_and_physical_address_sizes
    }
}

impl Leaf<0x8000_001F> for Cpuid {
    type Output = Leaf0x8000_001F_SubLeaf0_Eax;

    open spec fn leaf_spec(&self) -> Leaf0x8000_001F_SubLeaf0_Eax {
        self.leaf0x8000_001F_cpuid_feature_bits
    }

    fn leaf(&self) -> (r: &Leaf0x8000_001F_SubLeaf0_Eax) {
        &self.leaf0x8000_001F_cpuid_feature_bits
    }
}

/// Coverage is reflexive: any fully-constructed aggregate covers itself.
pub proof fn lemma_covers_reflexive(x: &Cpuid)
    ensures
        x.spec_covers(x),
{
    lemma_flags_contain_reflexive(
        x.leaf0x01_process_info_and_feature_bits.feature_information.ecx.bits,
    );
    lemma_flags_contain_reflexive(
        x.leaf0x01_process_info_and_feature_bits.feature_information.edx.bits,
    );
    lemma_flags_contain_reflexive(x.leaf0x06_thermal_and_power_management.features.eax.bits);
    lemma_flags_contain_reflexive(x.leaf0x06_thermal_and_power_management.features.ecx.bits);
    lemma_flags_contain_reflexive(x.leaf0x07_extended_features.sub_leaf0.ebx.bits);
    lemma_flags_contain_reflexive(x.leaf0x07_extended_features.sub_leaf0.ecx.bits);
    lemma_flags_contain_reflexive(x.leaf0x07_extended_features.sub_leaf0.edx.bits);
    lemma_flags_contain_reflexive(x.leaf0x07_extended_features.sub_leaf1.bits);
    lemma_flags_contain_reflexive(x.leaf0x0d_cpuid_feature_bits.bits);
    lemma_flags_contain_reflexive(x.leaf0x12_cpuid_feature_bits.bits);
    lemma_flags_contain_reflexive(x.leaf0x14_cpuid_feature_bits.bits);
    lemma_flags_contain_reflexive(x.leaf0x19_cpuid_feature_bits.bits);
    lemma_flags_contain_reflexive(
        x.leaf0x8000_0001_highest_function_parameter_an_manufacturer_id.edx.bits,
    );
    lemma_flags_contain_reflexive(
        x.leaf0x8000_0001_highest_function_parameter_an_manufacturer_id.ecx.bits,
    );
    lemma_flags_contain_reflexive(
        x.leaf0x8000_0008_virtual_and_physical_address_sizes.ebx.bits,
    );
    lemma_flags_contain_reflexive(x.leaf0x8000_001F_cpuid_feature_bits.bits);
}

/// `wider` differs from `base` only by additional feature bits: every flag
/// register of `base` is contained in the corresponding register of
/// `wider`, while every identity field and packed capability field is
/// unchanged.
pub open spec fn spec_feature_extension_of(wider: &Cpuid, base: &Cpuid) -> bool {
    wider.leaf0x00_highest_function_parameter_an_manufacturer_id
        == base.leaf0x00_highest_function_parameter_an_manufacturer_id
        && wider.leaf0x01_process_info_and_feature_bits.processor_version_information
        == base.leaf0x01_process_info_and_feature_bits.processor_version_information
        && wider.leaf0x01_process_info_and_feature_bits.additional_information
        == base.leaf0x01_process_info_and_feature_bits.additional_information
        && spec_flags_contain(
        wider.leaf0x01_process_info_and_feature_bits.feature_information.ecx.bits,
        base.leaf0x01_process_info_and_feature_bits.feature_information.ecx.bits,
    )
        && spec_flags_contain(
        wider.leaf0x01_process_info_and_feature_bits.feature_information.edx.bits,
        base.leaf0x01_process_info_and_feature_bits.feature_information.edx.bits,
    )
        && spec_flags_contain(
        wider.leaf0x06_thermal_and_power_management.features.eax.bits,
        base.leaf0x06_thermal_and_power_management.features.eax.bits,
    )
        && spec_flags_contain(
        wider.leaf0x06_thermal_and_power_management.features.ecx.bits,
        base.leaf0x06_thermal_and_power_management.features.ecx.bits,
    ) && wider.leaf0x06_thermal_and_power_management.number_of_interrupt_thresholds
        == base.leaf0x06_thermal_and_power_management.number_of_interrupt_thresholds
        && spec_flags_contain(
        wider.leaf0x07_extended_features.sub_leaf0.ebx.bits,
        base.leaf0x07_extended_features.sub_leaf0.ebx.bits,
    )
        && spec_flags_contain(
        wider.leaf0x07_extended_features.sub_leaf0.ecx.bits,
        base.leaf0x07_extended_features.sub_leaf0.ecx.bits,
    )
        && spec_flags_contain(
        wider.leaf0x07_extended_features.sub_leaf0.edx.bits,
        base.leaf0x07_extended_features.sub_leaf0.edx.bits,
    )
        && spec_flags_contain(
        wider.leaf0x07_extended_features.sub_leaf1.bits,
        base.leaf0x07_extended_features.sub_leaf1.bits,
    )
        && spec_flags_contain(
        wider.leaf0x0d_cpuid_feature_bits.bits,
        base.leaf0x0d_cpuid_feature_bits.bits,
    )
        && spec_flags_contain(
        wider.leaf0x12_cpuid_feature_bits.bits,
        base.leaf0x12_cpuid_feature_bits.bits,
    )
        && spec_flags_contain(
        wider.leaf0x14_cpuid_feature_bits.bits,
        base.leaf0x14_cpuid_feature_bits.bits,
    )
        && spec_flags_contain(
        wider.leaf0x19_cpuid_feature_bits.bits,
        base.leaf0x19_cpuid_feature_bits.bits,
    )
        && spec_flags_contain(
        wider.leaf0x8000_0001_highest_function_parameter_an_manufacturer_id.edx.bits,
        base.leaf0x8000_0001_highest_function_parameter_an_manufacturer_id.edx.bits,
    )
        && spec_flags_contain(
        wider.leaf0x8000_0001_highest_function_parameter_an_manufacturer_id.ecx.bits,
        base.leaf0x8000_0001_highest_function_parameter_an_manufacturer_id.ecx.bits,
    ) && wider.leaf0x8000_0008_virtual_and_physical_address_sizes.eax
        == base.leaf0x8000_0008_virtual_and_physical_address_sizes.eax
        && spec_flags_contain(
        wider.leaf0x8000_0008_virtual_and_physical_address_sizes.ebx.bits,
        base.leaf0x8000_0008_virtual_and_physical_address_sizes.ebx.bits,
    ) && wider.leaf0x8000_0008_virtual_and_physical_address_sizes.ecx
        == base.leaf0x8000_0008_virtual_and_physical_address_sizes.ecx
        && spec_flags_contain(
        wider.leaf0x8000_001F_cpuid_feature_bits.bits,
        base.leaf0x8000_001F_cpuid_feature_bits.bits,
    )
}

/// Coverage is monotone in the reference's feature bits: if `base` covers
/// `candidate`, any aggregate that only adds feature bits to `base` still
/// covers `candidate`.
pub proof fn lemma_covers_monotone(base: &Cpuid, wider: &Cpuid, candidate: &Cpuid)
    requires
        base.spec_covers(candidate),
        spec_feature_extension_of(wider, base),
    ensures
        wider.spec_covers(candidate),
{
    lemma_flags_contain_widen(
        base.leaf0x01_process_info_and_feature_bits.feature_information.ecx.bits,
        candidate.leaf0x01_process_info_and_feature_bits.feature_information.ecx.bits,
        wider.leaf0x01_process_info_and_feature_bits.feature_information.ecx.bits,
    );
    lemma_flags_contain_widen(
        base.leaf0x01_process_info_and_feature_bits.feature_information.edx.bits,
        candidate.leaf0x01_process_info_and_feature_bits.feature_information.edx.bits,
        wider.leaf0x01_process_info_and_feature_bits.feature_information.edx.bits,
    );
    lemma_flags_contain_widen(
        base.leaf0x06_thermal_and_power_management.features.eax.bits,
        candidate.leaf0x06_thermal_and_power_management.features.eax.bits,
        wider.leaf0x06_thermal_and_power_management.features.eax.bits,
    );
    lemma_flags_contain_widen(
        base.leaf0x06_thermal_and_power_management.features.ecx.bits,
        candidate.leaf0x06_thermal_and_power_management.features.ecx.bits,
        wider.leaf0x06_thermal_and_power_management.features.ecx.bits,
    );
    lemma_flags_contain_widen(
        base.leaf0x07_extended_features.sub_leaf0.ebx.bits,
        candidate.leaf0x07_extended_features.sub_leaf0.ebx.bits,
        wider.leaf0x07_extended_features.sub_leaf0.ebx.bits,
    );
    lemma_flags_contain_widen(
        base.leaf0x07_extended_features.sub_leaf0.ecx.bits,
        candidate.leaf0x07_extended_features.sub_leaf0.ecx.bits,
        wider.leaf0x07_extended_features.sub_leaf0.ecx.bits,
    );
    lemma_flags_contain_widen(
        base.leaf0x07_extended_features.sub_leaf0.edx.bits,
        candidate.leaf0x07_extended_features.sub_leaf0.edx.bits,
        wider.leaf0x07_extended_features.sub_leaf0.edx.bits,
    );
    lemma_flags_contain_widen(
        base.leaf0x07_extended_features.sub_leaf1.bits,
        candidate.leaf0x07_extended_features.sub_leaf1.bits,
        wider.leaf0x07_extended_features.sub_leaf1.bits,
    );
    lemma_flags_contain_widen(
        base.leaf0x0d_cpuid_feature_bits.bits,
        candidate.leaf0x0d_cpuid_feature_bits.bits,
        wider.leaf0x0d_cpuid_feature_bits.bits,
    );
    lemma_flags_contain_widen(
        base.leaf0x12_cpuid_feature_bits.bits,
        candidate.leaf0x12_cpuid_feature_bits.bits,
        wider.leaf0x12_cpuid_feature_bits.bits,
    );
    lemma_flags_contain_widen(
        base.leaf0x14_cpuid_feature_bits.bits,
        candidate.leaf0x14_cpuid_feature_bits.bits,
        wider.leaf0x14_cpuid_feature_bits.bits,
    );
    lemma_flags_contain_widen(
        base.leaf0x19_cpuid_feature_bits.bits,
        candidate.leaf0x19_cpuid_feature_bits.bits,
        wider.leaf0x19_cpuid_feature_bits.bits,
    );
    lemma_flags_contain_widen(
        base.leaf0x8000_0001_highest_function_parameter_an_manufacturer_id.edx.bits,
        candidate.leaf0x8000_0001_highest_function_parameter_an_manufacturer_id.edx.bits,
        wider.leaf0x8000_0001_highest_function_parameter_an_manufacturer_id.edx.bits,
    );
    lemma_flags_contain_widen(
        base.leaf0x8000_0001_highest_function_parameter_an_manufacturer_id.ecx.bits,
        candidate.leaf0x8000_0001_highest_function_parameter_an_manufacturer_id.ecx.bits,
        wider.leaf0x8000_0001_highest_function_parameter_an_manufacturer_id.ecx.bits,
    );
    lemma_flags_contain_widen(
        base.leaf0x8000_0008_virtual_and_physical_address_sizes.ebx.bits,
        candidate.leaf0x8000_0008_virtual_and_physical_address_sizes.ebx.bits,
        wider.leaf0x8000_0008_virtual_and_physical_address_sizes.ebx.bits,
    );
    lemma_flags_contain_widen(
        base.leaf0x8000_001F_cpuid_feature_bits.bits,
        candidate.leaf0x8000_001F_cpuid_feature_bits.bits,
        wider.leaf0x8000_001F_cpuid_feature_bits.bits,
    );
}

/// Aggregates whose manufacturer identifiers differ never cover one
/// another, in either direction, whatever their other fields hold.
pub proof fn lemma_vendor_mismatch_blocks_coverage(x: &Cpuid, y: &Cpuid)
    requires
        x.leaf0x00_highest_function_parameter_an_manufacturer_id.manufacturer_id.0@
            != y.leaf0x00_highest_function_parameter_an_manufacturer_id.manufacturer_id.0@,
    ensures
        !x.spec_covers(y),
        !y.spec_covers(x),
{
}

/// The saved image pins the aggregate: whatever parses back from
/// `c.spec_bytes()` is `c` itself, reserved bits included.
#[verifier::rlimit(100)]
pub proof fn lemma_binary_image_round_trip(c: &Cpuid, parsed: &Cpuid)
    requires
        Cpuid::spec_parsed_from(parsed, c.spec_bytes()),
    ensures
        parsed == c,
{
    let b = c.spec_bytes();
    assert(b.subrange(0, 12) =~= c
        .leaf0x00_highest_function_parameter_an_manufacturer_id
        .manufacturer_id
        .0@);
    assert(b.subrange(12, 16) =~= spec_u32_le_bytes(
        c.leaf0x00_highest_function_parameter_an_manufacturer_id.highest_calling_parameter,
    ));
    assert(b.subrange(16, 20) =~= spec_u32_le_bytes(
        c.leaf0x01_process_info_and_feature_bits.processor_version_information.0,
    ));
    assert(b.subrange(24, 28) =~= spec_u32_le_bytes(
        c.leaf0x01_process_info_and_feature_bits.feature_information.ecx.bits,
    ));
    assert(b.subrange(28, 32) =~= spec_u32_le_bytes(
        c.leaf0x01_process_info_and_feature_bits.feature_information.edx.bits,
    ));
    assert(b.subrange(32, 36) =~= spec_u32_le_bytes(
        c.leaf0x06_thermal_and_power_management.features.eax.bits,
    ));
    assert(b.subrange(36, 40) =~= spec_u32_le_bytes(
        c.leaf0x06_thermal_and_power_management.features.ecx.bits,
    ));
    assert(b.subrange(40, 44) =~= spec_u32_le_bytes(
        c.leaf0x06_thermal_and_power_management.number_of_interrupt_thresholds.0,
    ));
    assert(b.subrange(44, 48) =~= spec_u32_le_bytes(
        c.leaf0x07_extended_features.sub_leaf0.ebx.bits,
    ));
    assert(b.subrange(48, 52) =~= spec_u32_le_bytes(
        c.leaf0x07_extended_features.sub_leaf0.ecx.bits,
    ));
    assert(b.subrange(52, 56) =~= spec_u32_le_bytes(
        c.leaf0x07_extended_features.sub_leaf0.edx.bits,
    ));
    assert(b.subrange(56, 60) =~= spec_u32_le_bytes(c.leaf0x07_extended_features.sub_leaf1.bits));
    assert(b.subrange(60, 64) =~= spec_u32_le_bytes(c.leaf0x0d_cpuid_feature_bits.bits));
    assert(b.subrange(64, 68) =~= spec_u32_le_bytes(c.leaf0x12_cpuid_feature_bits.bits));
    assert(b.subrange(68, 72) =~= spec_u32_le_bytes(c.leaf0x14_cpuid_feature_bits.bits));
    assert(b.subrange(72, 76) =~= spec_u32_le_bytes(c.leaf0x19_cpuid_feature_bits.bits));
    assert(b.subrange(76, 80) =~= spec_u32_le_bytes(
        c.leaf0x8000_0001_highest_function_parameter_an_manufacturer_id.edx.bits,
    ));
    assert(b.subrange(80, 84) =~= spec_u32_le_bytes(
        c.leaf0x8000_0001_highest_function_parameter_an_manufacturer_id.ecx.bits,
    ));
    assert(b.subrange(84, 88) =~= spec_u32_le_bytes(
        c.leaf0x8000_0008_virtual_and_physical_address_sizes.eax.0,
    ));
    assert(b.subrange(88, 92) =~= spec_u32_le_bytes(
        c.leaf0x8000_0008_virtual_and_physical_address_sizes.ebx.bits,
    ));
    assert(b.subrange(92, 96) =~= spec_u32_le_bytes(
        c.leaf0x8000_0008_virtual_and_physical_address_sizes.ecx.0,
    ));
    assert(b.subrange(96, 100) =~= spec_u32_le_bytes(c.leaf0x8000_001F_cpuid_feature_bits.bits));
    lemma_u32_le_round_trip(
        c.leaf0x00_highest_function_parameter_an_manufacturer_id.highest_calling_parameter,
    );
    lemma_u32_le_round_trip(
        c.leaf0x01_process_info_and_feature_bits.processor_version_information.0,
    );
    lemma_u32_le_round_trip(
        c.leaf0x01_process_info_and_feature_bits.feature_information.ecx.bits,
    );
    lemma_u32_le_round_trip(
        c.leaf0x01_process_info_and_feature_bits.feature_information.edx.bits,
    );
    lemma_u32_le_round_trip(c.leaf0x06_thermal_and_power_management.features.eax.bits);
    lemma_u32_le_round_trip(c.leaf0x06_thermal_and_power_management.features.ecx.bits);
    lemma_u32_le_round_trip(
        c.leaf0x06_thermal_and_power_management.number_of_interrupt_thresholds.0,
    );
    lemma_u32_le_round_trip(c.leaf0x07_extended_features.sub_leaf0.ebx.bits);
    lemma_u32_le_round_trip(c.leaf0x07_extended_features.sub_leaf0.ecx.bits);
    lemma_u32_le_round_trip(c.leaf0x07_extended_features.sub_leaf0.edx.bits);
    lemma_u32_le_round_trip(c.leaf0x07_extended_features.sub_leaf1.bits);
    lemma_u32_le_round_trip(c.leaf0x0d_cpuid_feature_bits.bits);
    lemma_u32_le_round_trip(c.leaf0x12_cpuid_feature_bits.bits);
    lemma_u32_le_round_trip(c.leaf0x14_cpuid_feature_bits.bits);
    lemma_u32_le_round_trip(c.leaf0x19_cpuid_feature_bits.bits);
    lemma_u32_le_round_trip(
        c.leaf0x8000_0001_highest_function_parameter_an_manufacturer_id.edx.bits,
    );
    lemma_u32_le_round_trip(
        c.leaf0x8000_0001_highest_function_parameter_an_manufacturer_id.ecx.bits,
    );
    lemma_u32_le_round_trip(c.leaf0x8000_0008_virtual_and_physical_address_sizes.eax.0);
    lemma_u32_le_round_trip(c.leaf0x8000_0008_virtual_and_physical_address_sizes.ebx.bits);
    lemma_u32_le_round_trip(c.leaf0x8000_0008_virtual_and_physical_address_sizes.ecx.0);
    lemma_u32_le_round_trip(c.leaf0x8000_001F_cpuid_feature_bits.bits);
    assert(parsed.leaf0x00_highest_function_parameter_an_manufacturer_id.manufacturer_id.0@
        =~= c.leaf0x00_highest_function_parameter_an_manufacturer_id.manufacturer_id.0@);
    assert(parsed.leaf0x00_highest_function_parameter_an_manufacturer_id.manufacturer_id.0
        == c.leaf0x00_highest_function_parameter_an_manufacturer_id.manufacturer_id.0);
    assert(b[20] == c.leaf0x01_process_info_and_feature_bits.additional_information.brand_index);
    assert(b[21]
        == c.leaf0x01_process_info_and_feature_bits.additional_information.clflush_line_size);
    assert(b[22]
        == c.leaf0x01_process_info_and_feature_bits.additional_information.maximum_addressable_logical_processor_ids);
    assert(b[23] == c.leaf0x01_process_info_and_feature_bits.additional_information.local_apic_id);
}


} // verus!
