#![allow(non_camel_case_types)]
#![allow(non_upper_case_globals)]

pub mod codec;
pub mod cpuid;
pub mod errors;
pub mod extended;
pub mod fields;
pub mod flags;
pub mod indexing;
pub mod leaf0;
pub mod leaf1;
pub mod leaf6;
pub mod leaf7;
pub mod raw;

pub use crate::cpuid::Cpuid;
pub use crate::cpuid::CpuidReads;
pub use crate::cpuid::LeafRegisters;
pub use crate::errors::DecodeError;
pub use crate::errors::FieldError;
pub use crate::errors::FieldName;
pub use crate::extended::ExtendedProcessorInfoAndFeatureBits;
pub use crate::extended::Leaf0x8000_0008_SubLeaf0_Eax;
pub use crate::extended::Leaf0x8000_0008_SubLeaf0_Ecx;
pub use crate::extended::VirtualAndPhysicalAddressSizes;
pub use crate::flags::Leaf0x12_SubLeaf0_Eax;
pub use crate::flags::Leaf0x14_SubLeaf0_Ebx;
pub use crate::flags::Leaf0x19_SubLeaf0_Ebx;
pub use crate::flags::Leaf0x1_SubLeaf0_Ecx;
pub use crate::flags::Leaf0x1_SubLeaf0_Edx;
pub use crate::flags::Leaf0x6_SubLeaf0_Eax;
pub use crate::flags::Leaf0x6_SubLeaf0_Ecx;
pub use crate::flags::Leaf0x7_SubLeaf0_Ebx;
pub use crate::flags::Leaf0x7_SubLeaf0_Ecx;
pub use crate::flags::Leaf0x7_SubLeaf0_Edx;
pub use crate::flags::Leaf0x7_SubLeaf1_Eax;
pub use crate::flags::Leaf0x8000_0001_SubLeaf0_Ecx;
pub use crate::flags::Leaf0x8000_0001_SubLeaf0_Edx;
pub use crate::flags::Leaf0x8000_0008_SubLeaf0_Ebx;
pub use crate::flags::Leaf0x8000_001F_SubLeaf0_Eax;
pub use crate::flags::Leaf0xD_SubLeaf1_Eax;
pub use crate::indexing::Leaf;
pub use crate::indexing::SubLeaf;
pub use crate::leaf0::FixedString;
pub use crate::leaf0::HighestFunctionParameterAndManufacturerID;
pub use crate::leaf1::AdditionalInformation;
pub use crate::leaf1::FeatureInformation;
pub use crate::leaf1::ProcessorInfoAndFeatureBits;
pub use crate::leaf1::ProcessorVersionInformation;
pub use crate::leaf6::Leaf6SubLeaf0Ebx;
pub use crate::leaf6::ThermalAndPowerManagement;
pub use crate::leaf6::ThermalAndPowerManagementFeatures;
pub use crate::leaf7::ExtendedFeatures;
pub use crate::leaf7::ExtendedFeaturesSubLeaf0;
pub use crate::raw::KvmCpuid;
pub use crate::raw::RawCpuid;
pub use crate::raw::RawCpuidEntry;
pub use crate::raw::RawCpuidIter;
