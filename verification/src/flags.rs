use vstd::prelude::*;

verus! {

use crate::codec::{decode_register, encode_register, spec_decode, spec_encoded};
use crate::errors::DecodeError;
use crate::indexing::SubLeaf;

/// Every bit set in `b` is also set in `a`.
pub open spec fn spec_flags_contain(a: u32, b: u32) -> bool {
    a & b == b
}

/// Containment of flag sets is reflexive: a register contains itself.
pub proof fn lemma_flags_contain_reflexive(a: u32)
    ensures
        spec_flags_contain(a, a),
{
    assert(a & a == a) by (bit_vector);
}

/// Containment survives widening: a register that contains `b` still
/// contains it after any further bits are set.
pub proof fn lemma_flags_contain_widen(a: u32, b: u32, wider: u32)
    requires
        spec_flags_contain(a, b),
        spec_flags_contain(wider, a),
    ensures
        spec_flags_contain(wider, b),
{
    assert(a & b == b && wider & a == a ==> wider & b == b) by (bit_vector);
}

/// Setting further bits always yields a register that contains every bit
/// it held before.
pub proof fn lemma_flags_union_contains(a: u32, m: u32)
    ensures
        spec_flags_contain(a | m, a),
{
    assert((a | m) & a == a) by (bit_vector);
}

/// Feature information flags in `ecx` of leaf 1, sub-leaf 0.
///
/// Bits without a named constant are reserved; they are carried verbatim
/// through construction and the codec, never cleared or rejected.
#[derive(Clone, Copy, Debug, PartialEq, Eq, Structural)]
pub struct Leaf0x1_SubLeaf0_Ecx {
    pub bits: u32,
}

impl Leaf0x1_SubLeaf0_Ecx {
    pub const sse3: u32 = 1u32 << 0;
    pub const pclmulqdq: u32 = 1u32 << 1;
    pub const dtes64: u32 = 1u32 << 2;
    pub const monitor: u32 = 1u32 << 3;
    pub const ds_cpl: u32 = 1u32 << 4;
    pub const vmx: u32 = 1u32 << 5;
    pub const smx: u32 = 1u32 << 6;
    pub const est: u32 = 1u32 << 7;
    pub const tm2: u32 = 1u32 << 8;
    pub const ssse3: u32 = 1u32 << 9;
    pub const cnxt_id: u32 = 1u32 << 10;
    pub const sdbg: u32 = 1u32 << 11;
    pub const fma: u32 = 1u32 << 12;
    pub const cx16: u32 = 1u32 << 13;
    pub const xtpr: u32 = 1u32 << 14;
    pub const pdcm: u32 = 1u32 << 15;
    pub const pcid: u32 = 1u32 << 17;
    pub const dca: u32 = 1u32 << 18;
    pub const sse4_1: u32 = 1u32 << 19;
    pub const sse4_2: u32 = 1u32 << 20;
    pub const x2apic: u32 = 1u32 << 21;
    pub const movbe: u32 = 1u32 << 22;
    pub const popcnt: u32 = 1u32 << 23;
    pub const tsc_deadline: u32 = 1u32 << 24;
    pub const aes: u32 = 1u32 << 25;
    pub const xsave: u32 = 1u32 << 26;
    pub const osxsave: u32 = 1u32 << 27;
    pub const avx: u32 = 1u32 << 28;
    pub const f16c: u32 = 1u32 << 29;
    pub const rdrnd: u32 = 1u32 << 30;
    pub const hypervisor: u32 = 1u32 << 31;

    /// Builds the register from a raw value; reserved bits are legal.
    pub fn from_bits(bits: u32) -> (r: Self)
        ensures
            r.bits == bits,
    {
        Self { bits }
    }

    /// The raw 32-bit value, reserved bits included.
    pub fn bits(&self) -> (r: u32)
        ensures
            r == self.bits,
    {
        self.bits
    }

    /// Every flag set in `other` is also set in `self`.
    pub fn contains(&self, other: Self) -> (r: bool)
        ensures
            r == spec_flags_contain(self.bits, other.bits),
    {
        (self.bits & other.bits) == other.bits
    }

    pub fn is_empty(&self) -> (r: bool)
        ensures
            r == (self.bits == 0),
    {
        self.bits == 0
    }

    /// The register holding every flag of `self` and of `other`.
    pub fn union(&self, other: Self) -> (r: Self)
        ensures
            r.bits == (self.bits | other.bits),
    {
        Self { bits: self.bits | other.bits }
    }

    /// The register holding the flags common to `self` and `other`.
    pub fn intersection(&self, other: Self) -> (r: Self)
        ensures
            r.bits == (self.bits & other.bits),
    {
        Self { bits: self.bits & other.bits }
    }

    /// The 32-character binary image of the register, nibble-separated.
    pub fn serialize(&self) -> (r: String)
        ensures
            r@ == spec_encoded(self.bits),
    {
        encode_register(self.bits)
    }

    /// Rebuilds a register from its binary image, reserved bits included.
    pub fn deserialize(s: &str) -> (r: Result<Self, DecodeError>)
        ensures
            match spec_decode(s@) {
                Ok(v) => r == Ok::<Self, DecodeError>((Self { bits: v })),
                Err(e) => r == Err::<Self, DecodeError>(e),
            },
    {
        match decode_register(s) {
            Ok(bits) => Ok(Self { bits }),
            Err(e) => Err(e),
        }
    }
}

/// Feature information flags in `edx` of leaf 1, sub-leaf 0.
///
/// Bits without a named constant are reserved; they are carried verbatim
/// through construction and the codec, never cleared or rejected.
#[derive(Clone, Copy, Debug, PartialEq, Eq, Structural)]
pub struct Leaf0x1_SubLeaf0_Edx {
    pub bits: u32,
}

impl Leaf0x1_SubLeaf0_Edx {
    pub const fpu: u32 = 1u32 << 0;
    pub const vme: u32 = 1u32 << 1;
    pub const de: u32 = 1u32 << 2;
    pub const pse: u32 = 1u32 << 3;
    pub const tsc: u32 = 1u32 << 4;
    pub const msr: u32 = 1u32 << 5;
    pub const pae: u32 = 1u32 << 6;
    pub const mce: u32 = 1u32 << 7;
    pub const cx8: u32 = 1u32 << 8;
    pub const apic: u32 = 1u32 << 9;
    pub const sep: u32 = 1u32 << 11;
    pub const mtrr: u32 = 1u32 << 12;
    pub const pge: u32 = 1u32 << 13;
    pub const mca: u32 = 1u32 << 14;
    pub const cmov: u32 = 1u32 << 15;
    pub const pat: u32 = 1u32 << 16;
    pub const pse_36: u32 = 1u32 << 17;
    pub const psn: u32 = 1u32 << 18;
    pub const clfsh: u32 = 1u32 << 19;
    pub const ds: u32 = 1u32 << 21;
    pub const acpi: u32 = 1u32 << 22;
    pub const mmx: u32 = 1u32 << 23;
    pub const fxsr: u32 = 1u32 << 24;
    pub const sse: u32 = 1u32 << 25;
    pub const sse2: u32 = 1u32 << 26;
    pub const ss: u32 = 1u32 << 27;
    pub const htt: u32 = 1u32 << 28;
    pub const tm: u32 = 1u32 << 29;
    pub const ia64: u32 = 1u32 << 30;
    pub const pbe: u32 = 1u32 << 31;

    /// Builds the register from a raw value; reserved bits are legal.
    pub fn from_bits(bits: u32) -> (r: Self)
        ensures
            r.bits == bits,
    {
        Self { bits }
    }

    /// The raw 32-bit value, reserved bits included.
    pub fn bits(&self) -> (r: u32)
        ensures
            r == self.bits,
    {
        self.bits
    }

    /// Every flag set in `other` is also set in `self`.
    pub fn contains(&self, other: Self) -> (r: bool)
        ensures
            r == spec_flags_contain(self.bits, other.bits),
    {
        (self.bits & other.bits) == other.bits
    }

    pub fn is_empty(&self) -> (r: bool)
        ensures
            r == (self.bits == 0),
    {
        self.bits == 0
    }

    /// The register holding every flag of `self` and of `other`.
    pub fn union(&self, other: Self) -> (r: Self)
        ensures
            r.bits == (self.bits | other.bits),
    {
        Self { bits: self.bits | other.bits }
    }

    /// The register holding the flags common to `self` and `other`.
    pub fn intersection(&self, other: Self) -> (r: Self)
        ensures
            r.bits == (self.bits & other.bits),
    {
        Self { bits: self.bits & other.bits }
    }

    /// The 32-character binary image of the register, nibble-separated.
    pub fn serialize(&self) -> (r: String)
        ensures
            r@ == spec_encoded(self.bits),
    {
        encode_register(self.bits)
    }

    /// Rebuilds a register from its binary image, reserved bits included.
    pub fn deserialize(s: &str) -> (r: Result<Self, DecodeError>)
        ensures
            match spec_decode(s@) {
                Ok(v) => r == Ok::<Self, DecodeError>((Self { bits: v })),
                Err(e) => r == Err::<Self, DecodeError>(e),
            },
    {
        match decode_register(s) {
            Ok(bits) => Ok(Self { bits }),
            Err(e) => Err(e),
        }
    }
}

/// Thermal and power management flags in `eax` of leaf 6, sub-leaf 0.
///
/// Bits without a named constant are reserved; they are carried verbatim
/// through construction and the codec, never cleared or rejected.
#[derive(Clone, Copy, Debug, PartialEq, Eq, Structural)]
pub struct Leaf0x6_SubLeaf0_Eax {
    pub bits: u32,
}

impl Leaf0x6_SubLeaf0_Eax {
    pub const digital_thermal_sensor_capability: u32 = 1u32 << 0;
    pub const intel_turbo_boost_technology_capability: u32 = 1u32 << 1;
    pub const always_running_apic_timer_capability: u32 = 1u32 << 2;
    pub const power_limit_notification_capability: u32 = 1u32 << 4;
    pub const extended_clock_modulation_duty_capability: u32 = 1u32 << 5;
    pub const package_thermal_management_capability: u32 = 1u32 << 6;

    /// Builds the register from a raw value; reserved bits are legal.
    pub fn from_bits(bits: u32) -> (r: Self)
        ensures
            r.bits == bits,
    {
        Self { bits }
    }

    /// The raw 32-bit value, reserved bits included.
    pub fn bits(&self) -> (r: u32)
        ensures
            r == self.bits,
    {
        self.bits
    }

    /// Every flag set in `other` is also set in `self`.
    pub fn contains(&self, other: Self) -> (r: bool)
        ensures
            r == spec_flags_contain(self.bits, other.bits),
    {
        (self.bits & other.bits) == other.bits
    }

    pub fn is_empty(&self) -> (r: bool)
        ensures
            r == (self.bits == 0),
    {
        self.bits == 0
    }

    /// The register holding every flag of `self` and of `other`.
    pub fn union(&self, other: Self) -> (r: Self)
        ensures
            r.bits == (self.bits | other.bits),
    {
        Self { bits: self.bits | other.bits }
    }

    /// The register holding the flags common to `self` and `other`.
    pub fn intersection(&self, other: Self) -> (r: Self)
        ensures
            r.bits == (self.bits & other.bits),
    {
        Self { bits: self.bits & other.bits }
    }

    /// The 32-character binary image of the register, nibble-separated.
    pub fn serialize(&self) -> (r: String)
        ensures
            r@ == spec_encoded(self.bits),
    {
        encode_register(self.bits)
    }

    /// Rebuilds a register from its binary image, reserved bits included.
    pub fn deserialize(s: &str) -> (r: Result<Self, DecodeError>)
        ensures
            match spec_decode(s@) {
                Ok(v) => r == Ok::<Self, DecodeError>((Self { bits: v })),
                Err(e) => r == Err::<Self, DecodeError>(e),
            },
    {
        match decode_register(s) {
            Ok(bits) => Ok(Self { bits }),
            Err(e) => Err(e),
        }
    }
}

/// Thermal and power management flags in `ecx` of leaf 6, sub-leaf 0.
///
/// Bits without a named constant are reserved; they are carried verbatim
/// through construction and the codec, never cleared or rejected.
#[derive(Clone, Copy, Debug, PartialEq, Eq, Structural)]
pub struct Leaf0x6_SubLeaf0_Ecx {
    pub bits: u32,
}

impl Leaf0x6_SubLeaf0_Ecx {
    pub const hardware_coordination_feedback_capability: u32 = 1u32 << 0;
    pub const acnt2_capability: u32 = 1u32 << 1;
    pub const performance_energy_bias_capability: u32 = 1u32 << 3;

    /// Builds the register from a raw value; reserved bits are legal.
    pub fn from_bits(bits: u32) -> (r: Self)
        ensures
            r.bits == bits,
    {
        Self { bits }
    }

    /// The raw 32-bit value, reserved bits included.
    pub fn bits(&self) -> (r: u32)
        ensures
            r == self.bits,
    {
        self.bits
    }

    /// Every flag set in `other` is also set in `self`.
    pub fn contains(&self, other: Self) -> (r: bool)
        ensures
            r == spec_flags_contain(self.bits, other.bits),
    {
        (self.bits & other.bits) == other.bits
    }

    pub fn is_empty(&self) -> (r: bool)
        ensures
            r == (self.bits == 0),
    {
        self.bits == 0
    }

    /// The register holding every flag of `self` and of `other`.
    pub fn union(&self, other: Self) -> (r: Self)
        ensures
            r.bits == (self.bits | other.bits),
    {
        Self { bits: self.bits | other.bits }
    }

    /// The register holding the flags common to `self` and `other`.
    pub fn intersection(&self, other: Self) -> (r: Self)
        ensures
            r.bits == (self.bits & other.bits),
    {
        Self { bits: self.bits & other.bits }
    }

    /// The 32-character binary image of the register, nibble-separated.
    pub fn serialize(&self) -> (r: String)
        ensures
            r@ == spec_encoded(self.bits),
    {
        encode_register(self.bits)
    }

    /// Rebuilds a register from its binary image, reserved bits included.
    pub fn deserialize(s: &str) -> (r: Result<Self, DecodeError>)
        ensures
            match spec_decode(s@) {
                Ok(v) => r == Ok::<Self, DecodeError>((Self { bits: v })),
                Err(e) => r == Err::<Self, DecodeError>(e),
            },
    {
        match decode_register(s) {
            Ok(bits) => Ok(Self { bits }),
            Err(e) => Err(e),
        }
    }
}

/// Extended feature flags in `ebx` of leaf 7, sub-leaf 0.
///
/// Bits without a named constant are reserved; they are carried verbatim
/// through construction and the codec, never cleared or rejected.
#[derive(Clone, Copy, Debug, PartialEq, Eq, Structural)]
pub struct Leaf0x7_SubLeaf0_Ebx {
    pub bits: u32,
}

impl Leaf0x7_SubLeaf0_Ebx {
    pub const fsgsbase: u32 = 1u32 << 0;
    pub const IA32_TSC_ADJUST: u32 = 1u32 << 1;
    pub const sgx: u32 = 1u32 << 2;
    pub const bmi1: u32 = 1u32 << 3;
    pub const hle: u32 = 1u32 << 4;
    pub const avx2: u32 = 1u32 << 5;
    pub const FDP_EXCPTN_ONLY: u32 = 1u32 << 6;
    pub const smep: u32 = 1u32 << 7;
    pub const bmi2: u32 = 1u32 << 8;
    pub const erms: u32 = 1u32 << 9;
    pub const invpcid: u32 = 1u32 << 10;
    pub const rtm: u32 = 1u32 << 11;
    pub const pqdm: u32 = 1u32 << 12;
    pub const FPU_CS_and_FPU_DS_deprecated: u32 = 1u32 << 13;
    pub const mpx: u32 = 1u32 << 14;
    pub const pqe: u32 = 1u32 << 15;
    pub const avx512_f: u32 = 1u32 << 16;
    pub const avx512_dq: u32 = 1u32 << 17;
    pub const rdseed: u32 = 1u32 << 18;
    pub const adx: u32 = 1u32 << 19;
    pub const smap: u32 = 1u32 << 20;
    pub const avx512_ifma: u32 = 1u32 << 21;
    pub const pccommit: u32 = 1u32 << 22;
    pub const clflushopt: u32 = 1u32 << 23;
    pub const clwb: u32 = 1u32 << 24;
    pub const intel_pt: u32 = 1u32 << 25;
    pub const avx512_pf: u32 = 1u32 << 26;
    pub const avx512_er: u32 = 1u32 << 27;
    pub const avx512_cd: u32 = 1u32 << 28;
    pub const sha: u32 = 1u32 << 29;
    pub const avx512_bw: u32 = 1u32 << 30;
    pub const avx512_vl: u32 = 1u32 << 31;

    /// Builds the register from a raw value; reserved bits are legal.
    pub fn from_bits(bits: u32) -> (r: Self)
        ensures
            r.bits == bits,
    {
        Self { bits }
    }

    /// The raw 32-bit value, reserved bits included.
    pub fn bits(&self) -> (r: u32)
        ensures
            r == self.bits,
    {
        self.bits
    }

    /// Every flag set in `other` is also set in `self`.
    pub fn contains(&self, other: Self) -> (r: bool)
        ensures
            r == spec_flags_contain(self.bits, other.bits),
    {
        (self.bits & other.bits) == other.bits
    }

    pub fn is_empty(&self) -> (r: bool)
        ensures
            r == (self.bits == 0),
    {
        self.bits == 0
    }

    /// The register holding every flag of `self` and of `other`.
    pub fn union(&self, other: Self) -> (r: Self)
        ensures
            r.bits == (self.bits | other.bits),
    {
        Self { bits: self.bits | other.bits }
    }

    /// The register holding the flags common to `self` and `other`.
    pub fn intersection(&self, other: Self) -> (r: Self)
        ensures
            r.bits == (self.bits & other.bits),
    {
        Self { bits: self.bits & other.bits }
    }

    /// The 32-character binary image of the register, nibble-separated.
    pub fn serialize(&self) -> (r: String)
        ensures
            r@ == spec_encoded(self.bits),
    {
        encode_register(self.bits)
    }

    /// Rebuilds a register from its binary image, reserved bits included.
    pub fn deserialize(s: &str) -> (r: Result<Self, DecodeError>)
        ensures
            match spec_decode(s@) {
                Ok(v) => r == Ok::<Self, DecodeError>((Self { bits: v })),
                Err(e) => r == Err::<Self, DecodeError>(e),
            },
    {
        match decode_register(s) {
            Ok(bits) => Ok(Self { bits }),
            Err(e) => Err(e),
        }
    }
}

/// Extended feature flags in `ecx` of leaf 7, sub-leaf 0.
///
/// Bits without a named constant are reserved; they are carried verbatim
/// through construction and the codec, never cleared or rejected.
#[derive(Clone, Copy, Debug, PartialEq, Eq, Structural)]
pub struct Leaf0x7_SubLeaf0_Ecx {
    pub bits: u32,
}

impl Leaf0x7_SubLeaf0_Ecx {
    pub const prefetchwt1: u32 = 1u32 << 0;
    pub const avx512_vbmi: u32 = 1u32 << 1;
    pub const umip: u32 = 1u32 << 2;
    pub const pku: u32 = 1u32 << 3;
    pub const ospke: u32 = 1u32 << 4;
    pub const waitpkg: u32 = 1u32 << 5;
    pub const avx512_vbmi2: u32 = 1u32 << 6;
    pub const cet_ss: u32 = 1u32 << 7;
    pub const gfni: u32 = 1u32 << 8;
    pub const vaes: u32 = 1u32 << 9;
    pub const vpclmulqdq: u32 = 1u32 << 10;
    pub const avx512_vnni: u32 = 1u32 << 11;
    pub const avx512_bitalg: u32 = 1u32 << 12;
    pub const TIME_END: u32 = 1u32 << 13;
    pub const avx512_vpopcntdq: u32 = 1u32 << 14;
    pub const _5_level_paging: u32 = 1u32 << 16;
    pub const rdpid: u32 = 1u32 << 22;
    pub const KL: u32 = 1u32 << 23;
    pub const cldemote: u32 = 1u32 << 25;
    pub const MOVDIRI: u32 = 1u32 << 27;
    pub const MOVDIR64B: u32 = 1u32 << 28;
    pub const ENQCMD: u32 = 1u32 << 29;
    pub const sgx_lc: u32 = 1u32 << 30;
    pub const pks: u32 = 1u32 << 31;

    /// Builds the register from a raw value; reserved bits are legal.
    pub fn from_bits(bits: u32) -> (r: Self)
        ensures
            r.bits == bits,
    {
        Self { bits }
    }

    /// The raw 32-bit value, reserved bits included.
    pub fn bits(&self) -> (r: u32)
        ensures
            r == self.bits,
    {
        self.bits
    }

    /// Every flag set in `other` is also set in `self`.
    pub fn contains(&self, other: Self) -> (r: bool)
        ensures
            r == spec_flags_contain(self.bits, other.bits),
    {
        (self.bits & other.bits) == other.bits
    }

    pub fn is_empty(&self) -> (r: bool)
        ensures
            r == (self.bits == 0),
    {
        self.bits == 0
    }

    /// The register holding every flag of `self` and of `other`.
    pub fn union(&self, other: Self) -> (r: Self)
        ensures
            r.bits == (self.bits | other.bits),
    {
        Self { bits: self.bits | other.bits }
    }

    /// The register holding the flags common to `self` and `other`.
    pub fn intersection(&self, other: Self) -> (r: Self)
        ensures
            r.bits == (self.bits & other.bits),
    {
        Self { bits: self.bits & other.bits }
    }

    /// The 32-character binary image of the register, nibble-separated.
    pub fn serialize(&self) -> (r: String)
        ensures
            r@ == spec_encoded(self.bits),
    {
        encode_register(self.bits)
    }

    /// Rebuilds a register from its binary image, reserved bits included.
    pub fn deserialize(s: &str) -> (r: Result<Self, DecodeError>)
        ensures
            match spec_decode(s@) {
                Ok(v) => r == Ok::<Self, DecodeError>((Self { bits: v })),
                Err(e) => r == Err::<Self, DecodeError>(e),
            },
    {
        match decode_register(s) {
            Ok(bits) => Ok(Self { bits }),
            Err(e) => Err(e),
        }
    }
}

/// Extended feature flags in `edx` of leaf 7, sub-leaf 0.
///
/// Bits without a named constant are reserved; they are carried verbatim
/// through construction and the codec, never cleared or rejected.
#[derive(Clone, Copy, Debug, PartialEq, Eq, Structural)]
pub struct Leaf0x7_SubLeaf0_Edx {
    pub bits: u32,
}

impl Leaf0x7_SubLeaf0_Edx {
    pub const avx512_4vnniw: u32 = 1u32 << 2;
    pub const avx512_4fmaps: u32 = 1u32 << 3;
    pub const fsrm: u32 = 1u32 << 4;
    pub const uintr: u32 = 1u32 << 5;
    pub const avx512_vp2intersect: u32 = 1u32 << 8;
    pub const SRBDS_CTRL: u32 = 1u32 << 9;
    pub const md_clear: u32 = 1u32 << 10;
    pub const RMT_ALWAYS_ABORT: u32 = 1u32 << 11;
    pub const TSX_FORCE_ABORT: u32 = 1u32 << 13;
    pub const SERIALIZE: u32 = 1u32 << 14;
    pub const Hybrid: u32 = 1u32 << 15;
    pub const TSXLDTRK: u32 = 1u32 << 16;
    pub const pcconfig: u32 = 1u32 << 18;
    pub const lbr: u32 = 1u32 << 19;
    pub const cet_ibt: u32 = 1u32 << 20;
    pub const amx_bf16: u32 = 1u32 << 22;
    pub const AVX512_FP16: u32 = 1u32 << 23;
    pub const amx_tile: u32 = 1u32 << 24;
    pub const amx_int8: u32 = 1u32 << 25;
    pub const IBRS_IBPB_spec_ctrl: u32 = 1u32 << 26;
    pub const stibp: u32 = 1u32 << 27;
    pub const L1D_FLUSH: u32 = 1u32 << 28;
    pub const IA32_ARCH_CAPABILITIES: u32 = 1u32 << 29;
    pub const IA32_CORE_CAPABILITIES: u32 = 1u32 << 30;
    pub const ssbd: u32 = 1u32 << 31;

    /// Builds the register from a raw value; reserved bits are legal.
    pub fn from_bits(bits: u32) -> (r: Self)
        ensures
            r.bits == bits,
    {
        Self { bits }
    }

    /// The raw 32-bit value, reserved bits included.
    pub fn bits(&self) -> (r: u32)
        ensures
            r == self.bits,
    {
        self.bits
    }

    /// Every flag set in `other` is also set in `self`.
    pub fn contains(&self, other: Self) -> (r: bool)
        ensures
            r == spec_flags_contain(self.bits, other.bits),
    {
        (self.bits & other.bits) == other.bits
    }

    pub fn is_empty(&self) -> (r: bool)
        ensures
            r == (self.bits == 0),
    {
        self.bits == 0
    }

    /// The register holding every flag of `self` and of `other`.
    pub fn union(&self, other: Self) -> (r: Self)
        ensures
            r.bits == (self.bits | other.bits),
    {
        Self { bits: self.bits | other.bits }
    }

    /// The register holding the flags common to `self` and `other`.
    pub fn intersection(&self, other: Self) -> (r: Self)
        ensures
            r.bits == (self.bits & other.bits),
    {
        Self { bits: self.bits & other.bits }
    }

    /// The 32-character binary image of the register, nibble-separated.
    pub fn serialize(&self) -> (r: String)
        ensures
            r@ == spec_encoded(self.bits),
    {
        encode_register(self.bits)
    }

    /// Rebuilds a register from its binary image, reserved bits included.
    pub fn deserialize(s: &str) -> (r: Result<Self, DecodeError>)
        ensures
            match spec_decode(s@) {
                Ok(v) => r == Ok::<Self, DecodeError>((Self { bits: v })),
                Err(e) => r == Err::<Self, DecodeError>(e),
            },
    {
        match decode_register(s) {
            Ok(bits) => Ok(Self { bits }),
            Err(e) => Err(e),
        }
    }
}

/// Extended feature flags in `eax` of leaf 7, sub-leaf 1.
///
/// Bits without a named constant are reserved; they are carried verbatim
/// through construction and the codec, never cleared or rejected.
#[derive(Clone, Copy, Debug, PartialEq, Eq, Structural)]
pub struct Leaf0x7_SubLeaf1_Eax {
    pub bits: u32,
}

impl Leaf0x7_SubLeaf1_Eax {
    pub const avx_vnni: u32 = 1u32 << 4;
    pub const avx512_bf16: u32 = 1u32 << 5;
    pub const fast_zero_rep_movsb: u32 = 1u32 << 10;
    pub const fast_short_rep_stosb: u32 = 1u32 << 11;
    pub const fast_short_rep_cmpsb_scasb: u32 = 1u32 << 12;
    pub const fred: u32 = 1u32 << 17;
    pub const lkgs: u32 = 1u32 << 18;
    pub const hreset: u32 = 1u32 << 22;

    /// Builds the register from a raw value; reserved bits are legal.
    pub fn from_bits(bits: u32) -> (r: Self)
        ensures
            r.bits == bits,
    {
        Self { bits }
    }

    /// The raw 32-bit value, reserved bits included.
    pub fn bits(&self) -> (r: u32)
        ensures
            r == self.bits,
    {
        self.bits
    }

    /// Every flag set in `other` is also set in `self`.
    pub fn contains(&self, other: Self) -> (r: bool)
        ensures
            r == spec_flags_contain(self.bits, other.bits),
    {
        (self.bits & other.bits) == other.bits
    }

    pub fn is_empty(&self) -> (r: bool)
        ensures
            r == (self.bits == 0),
    {
        self.bits == 0
    }

    /// The register holding every flag of `self` and of `other`.
    pub fn union(&self, other: Self) -> (r: Self)
        ensures
            r.bits == (self.bits | other.bits),
    {
        Self { bits: self.bits | other.bits }
    }

    /// The register holding the flags common to `self` and `other`.
    pub fn intersection(&self, other: Self) -> (r: Self)
        ensures
            r.bits == (self.bits & other.bits),
    {
        Self { bits: self.bits & other.bits }
    }

    /// The 32-character binary image of the register, nibble-separated.
    pub fn serialize(&self) -> (r: String)
        ensures
            r@ == spec_encoded(self.bits),
    {
        encode_register(self.bits)
    }

    /// Rebuilds a register from its binary image, reserved bits included.
    pub fn deserialize(s: &str) -> (r: Result<Self, DecodeError>)
        ensures
            match spec_decode(s@) {
                Ok(v) => r == Ok::<Self, DecodeError>((Self { bits: v })),
                Err(e) => r == Err::<Self, DecodeError>(e),
            },
    {
        match decode_register(s) {
            Ok(bits) => Ok(Self { bits }),
            Err(e) => Err(e),
        }
    }

    /// The raw value of the `eax` register this type mirrors.
    pub fn eax(&self) -> (r: u32)
        ensures
            r == self.bits,
    {
        self.bits
    }
}

/// Extended state feature flags in `eax` of leaf 13, sub-leaf 1.
///
/// Bits without a named constant are reserved; they are carried verbatim
/// through construction and the codec, never cleared or rejected.
#[derive(Clone, Copy, Debug, PartialEq, Eq, Structural)]
pub struct Leaf0xD_SubLeaf1_Eax {
    pub bits: u32,
}

impl Leaf0xD_SubLeaf1_Eax {
    pub const xsaveopt: u32 = 1u32 << 0;
    pub const xsavec: u32 = 1u32 << 1;
    pub const xgetbv_ecx1: u32 = 1u32 << 2;
    pub const xss: u32 = 1u32 << 3;

    /// Builds the register from a raw value; reserved bits are legal.
    pub fn from_bits(bits: u32) -> (r: Self)
        ensures
            r.bits == bits,
    {
        Self { bits }
    }

    /// The raw 32-bit value, reserved bits included.
    pub fn bits(&self) -> (r: u32)
        ensures
            r == self.bits,
    {
        self.bits
    }

    /// Every flag set in `other` is also set in `self`.
    pub fn contains(&self, other: Self) -> (r: bool)
        ensures
            r == spec_flags_contain(self.bits, other.bits),
    {
        (self.bits & other.bits) == other.bits
    }

    pub fn is_empty(&self) -> (r: bool)
        ensures
            r == (self.bits == 0),
    {
        self.bits == 0
    }

    /// The register holding every flag of `self` and of `other`.
    pub fn union(&self, other: Self) -> (r: Self)
        ensures
            r.bits == (self.bits | other.bits),
    {
        Self { bits: self.bits | other.bits }
    }

    /// The register holding the flags common to `self` and `other`.
    pub fn intersection(&self, other: Self) -> (r: Self)
        ensures
            r.bits == (self.bits & other.bits),
    {
        Self { bits: self.bits & other.bits }
    }

    /// The 32-character binary image of the register, nibble-separated.
    pub fn serialize(&self) -> (r: String)
        ensures
            r@ == spec_encoded(self.bits),
    {
        encode_register(self.bits)
    }

    /// Rebuilds a register from its binary image, reserved bits included.
    pub fn deserialize(s: &str) -> (r: Result<Self, DecodeError>)
        ensures
            match spec_decode(s@) {
                Ok(v) => r == Ok::<Self, DecodeError>((Self { bits: v })),
                Err(e) => r == Err::<Self, DecodeError>(e),
            },
    {
        match decode_register(s) {
            Ok(bits) => Ok(Self { bits }),
            Err(e) => Err(e),
        }
    }

    /// The raw value of the `eax` register this type mirrors.
    pub fn eax(&self) -> (r: u32)
        ensures
            r == self.bits,
    {
        self.bits
    }

    pub fn sub_leaf<const N: usize>(&self) -> (r: &<Self as SubLeaf<N>>::Output) where
        Self: SubLeaf<N>,

        ensures
            *r == <Self as SubLeaf<N>>::sub_leaf_spec(self),
    {
        <Self as SubLeaf<N>>::sub_leaf(self)
    }
}

impl SubLeaf<1> for Leaf0xD_SubLeaf1_Eax {
    type Output = Self;

    open spec fn sub_leaf_spec(&self) -> Self {
        *self
    }

    fn sub_leaf(&self) -> (r: &Self) {
        self
    }
}

/// Software guard extension flags in `eax` of leaf 18, sub-leaf 0.
///
/// Bits without a named constant are reserved; they are carried verbatim
/// through construction and the codec, never cleared or rejected.
#[derive(Clone, Copy, Debug, PartialEq, Eq, Structural)]
pub struct Leaf0x12_SubLeaf0_Eax {
    pub bits: u32,
}

impl Leaf0x12_SubLeaf0_Eax {
    pub const sgx1: u32 = 1u32 << 0;
    pub const sgx2: u32 = 1u32 << 1;
    pub const oss: u32 = 1u32 << 5;
    pub const encls: u32 = 1u32 << 6;

    /// Builds the register from a raw value; reserved bits are legal.
    pub fn from_bits(bits: u32) -> (r: Self)
        ensures
            r.bits == bits,
    {
        Self { bits }
    }

    /// The raw 32-bit value, reserved bits included.
    pub fn bits(&self) -> (r: u32)
        ensures
            r == self.bits,
    {
        self.bits
    }

    /// Every flag set in `other` is also set in `self`.
    pub fn contains(&self, other: Self) -> (r: bool)
        ensures
            r == spec_flags_contain(self.bits, other.bits),
    {
        (self.bits & other.bits) == other.bits
    }

    pub fn is_empty(&self) -> (r: bool)
        ensures
            r == (self.bits == 0),
    {
        self.bits == 0
    }

    /// The register holding every flag of `self` and of `other`.
    pub fn union(&self, other: Self) -> (r: Self)
        ensures
            r.bits == (self.bits | other.bits),
    {
        Self { bits: self.bits | other.bits }
    }

    /// The register holding the flags common to `self` and `other`.
    pub fn intersection(&self, other: Self) -> (r: Self)
        ensures
            r.bits == (self.bits & other.bits),
    {
        Self { bits: self.bits & other.bits }
    }

    /// The 32-character binary image of the register, nibble-separated.
    pub fn serialize(&self) -> (r: String)
        ensures
            r@ == spec_encoded(self.bits),
    {
        encode_register(self.bits)
    }

    /// Rebuilds a register from its binary image, reserved bits included.
    pub fn deserialize(s: &str) -> (r: Result<Self, DecodeError>)
        ensures
            match spec_decode(s@) {
                Ok(v) => r == Ok::<Self, DecodeError>((Self { bits: v })),
                Err(e) => r == Err::<Self, DecodeError>(e),
            },
    {
        match decode_register(s) {
            Ok(bits) => Ok(Self { bits }),
            Err(e) => Err(e),
        }
    }

    /// The raw value of the `eax` register this type mirrors.
    pub fn eax(&self) -> (r: u32)
        ensures
            r == self.bits,
    {
        self.bits
    }

    pub fn sub_leaf<const N: usize>(&self) -> (r: &<Self as SubLeaf<N>>::Output) where
        Self: SubLeaf<N>,

        ensures
            *r == <Self as SubLeaf<N>>::sub_leaf_spec(self),
    {
        <Self as SubLeaf<N>>::sub_leaf(self)
    }
}

impl SubLeaf<0> for Leaf0x12_SubLeaf0_Eax {
    type Output = Self;

    open spec fn sub_leaf_spec(&self) -> Self {
        *self
    }

    fn sub_leaf(&self) -> (r: &Self) {
        self
    }
}

/// Processor trace flags in `ebx` of leaf 20, sub-leaf 0.
///
/// Bits without a named constant are reserved; they are carried verbatim
/// through construction and the codec, never cleared or rejected.
#[derive(Clone, Copy, Debug, PartialEq, Eq, Structural)]
pub struct Leaf0x14_SubLeaf0_Ebx {
    pub bits: u32,
}

impl Leaf0x14_SubLeaf0_Ebx {
    pub const ptwrite: u32 = 1u32 << 4;

    /// Builds the register from a raw value; reserved bits are legal.
    pub fn from_bits(bits: u32) -> (r: Self)
        ensures
            r.bits == bits,
    {
        Self { bits }
    }

    /// The raw 32-bit value, reserved bits included.
    pub fn bits(&self) -> (r: u32)
        ensures
            r == self.bits,
    {
        self.bits
    }

    /// Every flag set in `other` is also set in `self`.
    pub fn contains(&self, other: Self) -> (r: bool)
        ensures
            r == spec_flags_contain(self.bits, other.bits),
    {
        (self.bits & other.bits) == other.bits
    }

    pub fn is_empty(&self) -> (r: bool)
        ensures
            r == (self.bits == 0),
    {
        self.bits == 0
    }

    /// The register holding every flag of `self` and of `other`.
    pub fn union(&self, other: Self) -> (r: Self)
        ensures
            r.bits == (self.bits | other.bits),
    {
        Self { bits: self.bits | other.bits }
    }

    /// The register holding the flags common to `self` and `other`.
    pub fn intersection(&self, other: Self) -> (r: Self)
        ensures
            r.bits == (self.bits & other.bits),
    {
        Self { bits: self.bits & other.bits }
    }

    /// The 32-character binary image of the register, nibble-separated.
    pub fn serialize(&self) -> (r: String)
        ensures
            r@ == spec_encoded(self.bits),
    {
        encode_register(self.bits)
    }

    /// Rebuilds a register from its binary image, reserved bits included.
    pub fn deserialize(s: &str) -> (r: Result<Self, DecodeError>)
        ensures
            match spec_decode(s@) {
                Ok(v) => r == Ok::<Self, DecodeError>((Self { bits: v })),
                Err(e) => r == Err::<Self, DecodeError>(e),
            },
    {
        match decode_register(s) {
            Ok(bits) => Ok(Self { bits }),
            Err(e) => Err(e),
        }
    }

    /// The raw value of the `ebx` register this type mirrors.
    pub fn ebx(&self) -> (r: u32)
        ensures
            r == self.bits,
    {
        self.bits
    }

    pub fn sub_leaf<const N: usize>(&self) -> (r: &<Self as SubLeaf<N>>::Output) where
        Self: SubLeaf<N>,

        ensures
            *r == <Self as SubLeaf<N>>::sub_leaf_spec(self),
    {
        <Self as SubLeaf<N>>::sub_leaf(self)
    }
}

impl SubLeaf<0> for Leaf0x14_SubLeaf0_Ebx {
    type Output = Self;

    open spec fn sub_leaf_spec(&self) -> Self {
        *self
    }

    fn sub_leaf(&self) -> (r: &Self) {
        self
    }
}

/// Key locker flags in `ebx` of leaf 25, sub-leaf 0.
///
/// Bits without a named constant are reserved; they are carried verbatim
/// through construction and the codec, never cleared or rejected.
#[derive(Clone, Copy, Debug, PartialEq, Eq, Structural)]
pub struct Leaf0x19_SubLeaf0_Ebx {
    pub bits: u32,
}

impl Leaf0x19_SubLeaf0_Ebx {
    pub const aes_kle: u32 = 1u32 << 0;
    pub const aes_wide_kl: u32 = 1u32 << 2;
    pub const kl_msrs: u32 = 1u32 << 4;

    /// Builds the register from a raw value; reserved bits are legal.
    pub fn from_bits(bits: u32) -> (r: Self)
        ensures
            r.bits == bits,
    {
        Self { bits }
    }

    /// The raw 32-bit value, reserved bits included.
    pub fn bits(&self) -> (r: u32)
        ensures
            r == self.bits,
    {
        self.bits
    }

    /// Every flag set in `other` is also set in `self`.
    pub fn contains(&self, other: Self) -> (r: bool)
        ensures
            r == spec_flags_contain(self.bits, other.bits),
    {
        (self.bits & other.bits) == other.bits
    }

    pub fn is_empty(&self) -> (r: bool)
        ensures
            r == (self.bits == 0),
    {
        self.bits == 0
    }

    /// The register holding every flag of `self` and of `other`.
    pub fn union(&self, other: Self) -> (r: Self)
        ensures
            r.bits == (self.bits | other.bits),
    {
        Self { bits: self.bits | other.bits }
    }

    /// The register holding the flags common to `self` and `other`.
    pub fn intersection(&self, other: Self) -> (r: Self)
        ensures
            r.bits == (self.bits & other.bits),
    {
        Self { bits: self.bits & other.bits }
    }

    /// The 32-character binary image of the register, nibble-separated.
    pub fn serialize(&self) -> (r: String)
        ensures
            r@ == spec_encoded(self.bits),
    {
        encode_register(self.bits)
    }

    /// Rebuilds a register from its binary image, reserved bits included.
    pub fn deserialize(s: &str) -> (r: Result<Self, DecodeError>)
        ensures
            match spec_decode(s@) {
                Ok(v) => r == Ok::<Self, DecodeError>((Self { bits: v })),
                Err(e) => r == Err::<Self, DecodeError>(e),
            },
    {
        match decode_register(s) {
            Ok(bits) => Ok(Self { bits }),
            Err(e) => Err(e),
        }
    }

    /// The raw value of the `ebx` register this type mirrors.
    pub fn ebx(&self) -> (r: u32)
        ensures
            r == self.bits,
    {
        self.bits
    }

    pub fn sub_leaf<const N: usize>(&self) -> (r: &<Self as SubLeaf<N>>::Output) where
        Self: SubLeaf<N>,

        ensures
            *r == <Self as SubLeaf<N>>::sub_leaf_spec(self),
    {
        <Self as SubLeaf<N>>::sub_leaf(self)
    }
}

impl SubLeaf<0> for Leaf0x19_SubLeaf0_Ebx {
    type Output = Self;

    open spec fn sub_leaf_spec(&self) -> Self {
        *self
    }

    fn sub_leaf(&self) -> (r: &Self) {
        self
    }
}

/// Extended processor feature flags in `edx` of leaf 0x8000_0001, sub-leaf 0.
///
/// Bits without a named constant are reserved; they are carried verbatim
/// through construction and the codec, never cleared or rejected.
#[derive(Clone, Copy, Debug, PartialEq, Eq, Structural)]
pub struct Leaf0x8000_0001_SubLeaf0_Edx {
    pub bits: u32,
}

impl Leaf0x8000_0001_SubLeaf0_Edx {
    pub const syscall: u32 = 1u32 << 11;
    pub const mp: u32 = 1u32 << 19;
    pub const nx: u32 = 1u32 << 20;
    pub const mmxext: u32 = 1u32 << 22;
    pub const fxsr_opt: u32 = 1u32 << 25;
    pub const pdpe1gb: u32 = 1u32 << 26;
    pub const rdtscp: u32 = 1u32 << 27;
    pub const lm: u32 = 1u32 << 29;
    pub const _3dnowext: u32 = 1u32 << 30;
    pub const _3dnow: u32 = 1u32 << 31;

    /// Builds the register from a raw value; reserved bits are legal.
    pub fn from_bits(bits: u32) -> (r: Self)
        ensures
            r.bits == bits,
    {
        Self { bits }
    }

    /// The raw 32-bit value, reserved bits included.
    pub fn bits(&self) -> (r: u32)
        ensures
            r == self.bits,
    {
        self.bits
    }

    /// Every flag set in `other` is also set in `self`.
    pub fn contains(&self, other: Self) -> (r: bool)
        ensures
            r == spec_flags_contain(self.bits, other.bits),
    {
        (self.bits & other.bits) == other.bits
    }

    pub fn is_empty(&self) -> (r: bool)
        ensures
            r == (self.bits == 0),
    {
        self.bits == 0
    }

    /// The register holding every flag of `self` and of `other`.
    pub fn union(&self, other: Self) -> (r: Self)
        ensures
            r.bits == (self.bits | other.bits),
    {
        Self { bits: self.bits | other.bits }
    }

    /// The register holding the flags common to `self` and `other`.
    pub fn intersection(&self, other: Self) -> (r: Self)
        ensures
            r.bits == (self.bits & other.bits),
    {
        Self { bits: self.bits & other.bits }
    }

    /// The 32-character binary image of the register, nibble-separated.
    pub fn serialize(&self) -> (r: String)
        ensures
            r@ == spec_encoded(self.bits),
    {
        encode_register(self.bits)
    }

    /// Rebuilds a register from its binary image, reserved bits included.
    pub fn deserialize(s: &str) -> (r: Result<Self, DecodeError>)
        ensures
            match spec_decode(s@) {
                Ok(v) => r == Ok::<Self, DecodeError>((Self { bits: v })),
                Err(e) => r == Err::<Self, DecodeError>(e),
            },
    {
        match decode_register(s) {
            Ok(bits) => Ok(Self { bits }),
            Err(e) => Err(e),
        }
    }
}

/// Extended processor feature flags in `ecx` of leaf 0x8000_0001, sub-leaf 0.
///
/// Bits without a named constant are reserved; they are carried verbatim
/// through construction and the codec, never cleared or rejected.
#[derive(Clone, Copy, Debug, PartialEq, Eq, Structural)]
pub struct Leaf0x8000_0001_SubLeaf0_Ecx {
    pub bits: u32,
}

impl Leaf0x8000_0001_SubLeaf0_Ecx {
    pub const lahf: u32 = 1u32 << 0;
    pub const cmp_legacy: u32 = 1u32 << 1;
    pub const svm: u32 = 1u32 << 2;
    pub const extapic: u32 = 1u32 << 3;
    pub const cr8_legacy: u32 = 1u32 << 4;
    pub const abm: u32 = 1u32 << 5;
    pub const sse4a: u32 = 1u32 << 6;
    pub const missalignsse: u32 = 1u32 << 7;
    pub const _3dnowprefetch: u32 = 1u32 << 8;
    pub const osvw: u32 = 1u32 << 9;
    pub const ibs: u32 = 1u32 << 10;
    pub const xop: u32 = 1u32 << 11;
    pub const skinit: u32 = 1u32 << 12;
    pub const wdt: u32 = 1u32 << 13;
    pub const lwp: u32 = 1u32 << 15;
    pub const fma4: u32 = 1u32 << 16;
    pub const tce: u32 = 1u32 << 17;
    pub const nodeid_msr: u32 = 1u32 << 19;
    pub const tbm: u32 = 1u32 << 21;
    pub const topoext: u32 = 1u32 << 22;
    pub const perfctr_core: u32 = 1u32 << 23;
    pub const perfctr_nb: u32 = 1u32 << 24;
    pub const dbx: u32 = 1u32 << 26;
    pub const perftsc: u32 = 1u32 << 27;
    pub const pcx_l2i: u32 = 1u32 << 28;
    pub const monitorx: u32 = 1u32 << 29;
    pub const addr_mask_ext: u32 = 1u32 << 30;

    /// Builds the register from a raw value; reserved bits are legal.
    pub fn from_bits(bits: u32) -> (r: Self)
        ensures
            r.bits == bits,
    {
        Self { bits }
    }

    /// The raw 32-bit value, reserved bits included.
    pub fn bits(&self) -> (r: u32)
        ensures
            r == self.bits,
    {
        self.bits
    }

    /// Every flag set in `other` is also set in `self`.
    pub fn contains(&self, other: Self) -> (r: bool)
        ensures
            r == spec_flags_contain(self.bits, other.bits),
    {
        (self.bits & other.bits) == other.bits
    }

    pub fn is_empty(&self) -> (r: bool)
        ensures
            r == (self.bits == 0),
    {
        self.bits == 0
    }

    /// The register holding every flag of `self` and of `other`.
    pub fn union(&self, other: Self) -> (r: Self)
        ensures
            r.bits == (self.bits | other.bits),
    {
        Self { bits: self.bits | other.bits }
    }

    /// The register holding the flags common to `self` and `other`.
    pub fn intersection(&self, other: Self) -> (r: Self)
        ensures
            r.bits == (self.bits & other.bits),
    {
        Self { bits: self.bits & other.bits }
    }

    /// The 32-character binary image of the register, nibble-separated.
    pub fn serialize(&self) -> (r: String)
        ensures
            r@ == spec_encoded(self.bits),
    {
        encode_register(self.bits)
    }

    /// Rebuilds a register from its binary image, reserved bits included.
    pub fn deserialize(s: &str) -> (r: Result<Self, DecodeError>)
        ensures
            match spec_decode(s@) {
                Ok(v) => r == Ok::<Self, DecodeError>((Self { bits: v })),
                Err(e) => r == Err::<Self, DecodeError>(e),
            },
    {
        match decode_register(s) {
            Ok(bits) => Ok(Self { bits }),
            Err(e) => Err(e),
        }
    }
}

/// Capability flags in `ebx` of leaf 0x8000_0008, sub-leaf 0.
///
/// Bits without a named constant are reserved; they are carried verbatim
/// through construction and the codec, never cleared or rejected.
#[derive(Clone, Copy, Debug, PartialEq, Eq, Structural)]
pub struct Leaf0x8000_0008_SubLeaf0_Ebx {
    pub bits: u32,
}

impl Leaf0x8000_0008_SubLeaf0_Ebx {
    pub const clzero: u32 = 1u32 << 0;
    pub const retired_instr: u32 = 1u32 << 1;
    pub const xrstor_fp_err: u32 = 1u32 << 2;
    pub const invlpgb: u32 = 1u32 << 3;
    pub const rdpru: u32 = 1u32 << 4;
    pub const mcommit: u32 = 1u32 << 8;
    pub const wbnoinvd: u32 = 1u32 << 9;
    pub const ibpb: u32 = 1u32 << 12;
    pub const wbinvd_int: u32 = 1u32 << 13;
    pub const ibrs: u32 = 1u32 << 14;
    pub const single_thread_ibp: u32 = 1u32 << 15;
    pub const single_thread_ibp_ao: u32 = 1u32 << 17;
    pub const no_efer_lmsle: u32 = 1u32 << 20;
    pub const invlpgb_nested: u32 = 1u32 << 21;
    pub const ppin: u32 = 1u32 << 23;
    pub const ssbd: u32 = 1u32 << 24;
    pub const virt_ssbd: u32 = 1u32 << 25;
    pub const ssb_no: u32 = 1u32 << 26;

    /// Builds the register from a raw value; reserved bits are legal.
    pub fn from_bits(bits: u32) -> (r: Self)
        ensures
            r.bits == bits,
    {
        Self { bits }
    }

    /// The raw 32-bit value, reserved bits included.
    pub fn bits(&self) -> (r: u32)
        ensures
            r == self.bits,
    {
        self.bits
    }

    /// Every flag set in `other` is also set in `self`.
    pub fn contains(&self, other: Self) -> (r: bool)
        ensures
            r == spec_flags_contain(self.bits, other.bits),
    {
        (self.bits & other.bits) == other.bits
    }

    pub fn is_empty(&self) -> (r: bool)
        ensures
            r == (self.bits == 0),
    {
        self.bits == 0
    }

    /// The register holding every flag of `self` and of `other`.
    pub fn union(&self, other: Self) -> (r: Self)
        ensures
            r.bits == (self.bits | other.bits),
    {
        Self { bits: self.bits | other.bits }
    }

    /// The register holding the flags common to `self` and `other`.
    pub fn intersection(&self, other: Self) -> (r: Self)
        ensures
            r.bits == (self.bits & other.bits),
    {
        Self { bits: self.bits & other.bits }
    }

    /// The 32-character binary image of the register, nibble-separated.
    pub fn serialize(&self) -> (r: String)
        ensures
            r@ == spec_encoded(self.bits),
    {
        encode_register(self.bits)
    }

    /// Rebuilds a register from its binary image, reserved bits included.
    pub fn deserialize(s: &str) -> (r: Result<Self, DecodeError>)
        ensures
            match spec_decode(s@) {
                Ok(v) => r == Ok::<Self, DecodeError>((Self { bits: v })),
                Err(e) => r == Err::<Self, DecodeError>(e),
            },
    {
        match decode_register(s) {
            Ok(bits) => Ok(Self { bits }),
            Err(e) => Err(e),
        }
    }
}

/// Encrypted memory flags in `eax` of leaf 0x8000_001F, sub-leaf 0.
///
/// Bits without a named constant are reserved; they are carried verbatim
/// through construction and the codec, never cleared or rejected.
#[derive(Clone, Copy, Debug, PartialEq, Eq, Structural)]
pub struct Leaf0x8000_001F_SubLeaf0_Eax {
    pub bits: u32,
}

impl Leaf0x8000_001F_SubLeaf0_Eax {
    pub const sme: u32 = 1u32 << 0;
    pub const sev: u32 = 1u32 << 1;
    pub const page_flush: u32 = 1u32 << 2;
    pub const sev_es: u32 = 1u32 << 3;
    pub const sev_snp: u32 = 1u32 << 4;
    pub const vmpl: u32 = 1u32 << 5;
    pub const hw_cache_coherency: u32 = 1u32 << 10;
    pub const _64_host: u32 = 1u32 << 11;
    pub const restricted_injection: u32 = 1u32 << 12;
    pub const alternative_injection: u32 = 1u32 << 13;
    pub const debug_swap: u32 = 1u32 << 14;
    pub const prevent_host_ibs: u32 = 1u32 << 15;
    pub const vte: u32 = 1u32 << 16;

    /// Builds the register from a raw value; reserved bits are legal.
    pub fn from_bits(bits: u32) -> (r: Self)
        ensures
            r.bits == bits,
    {
        Self { bits }
    }

    /// The raw 32-bit value, reserved bits included.
    pub fn bits(&self) -> (r: u32)
        ensures
            r == self.bits,
    {
        self.bits
    }

    /// Every flag set in `other` is also set in `self`.
    pub fn contains(&self, other: Self) -> (r: bool)
        ensures
            r == spec_flags_contain(self.bits, other.bits),
    {
        (self.bits & other.bits) == other.bits
    }

    pub fn is_empty(&self) -> (r: bool)
        ensures
            r == (self.bits == 0),
    {
        self.bits == 0
    }

    /// The register holding every flag of `self` and of `other`.
    pub fn union(&self, other: Self) -> (r: Self)
        ensures
            r.bits == (self.bits | other.bits),
    {
        Self { bits: self.bits | other.bits }
    }

    /// The register holding the flags common to `self` and `other`.
    pub fn intersection(&self, other: Self) -> (r: Self)
        ensures
            r.bits == (self.bits & other.bits),
    {
        Self { bits: self.bits & other.bits }
    }

    /// The 32-character binary image of the register, nibble-separated.
    pub fn serialize(&self) -> (r: String)
        ensures
            r@ == spec_encoded(self.bits),
    {
        encode_register(self.bits)
    }

    /// Rebuilds a register from its binary image, reserved bits included.
    pub fn deserialize(s: &str) -> (r: Result<Self, DecodeError>)
        ensures
            match spec_decode(s@) {
                Ok(v) => r == Ok::<Self, DecodeError>((Self { bits: v })),
                Err(e) => r == Err::<Self, DecodeError>(e),
            },
    {
        match decode_register(s) {
            Ok(bits) => Ok(Self { bits }),
            Err(e) => Err(e),
        }
    }

    /// The raw value of the `eax` register this type mirrors.
    pub fn eax(&self) -> (r: u32)
        ensures
            r == self.bits,
    {
        self.bits
    }

    pub fn sub_leaf<const N: usize>(&self) -> (r: &<Self as SubLeaf<N>>::Output) where
        Self: SubLeaf<N>,

        ensures
            *r == <Self as SubLeaf<N>>::sub_leaf_spec(self),
    {
        <Self as SubLeaf<N>>::sub_leaf(self)
    }
}

impl SubLeaf<0> for Leaf0x8000_001F_SubLeaf0_Eax {
    type Output = Self;

    open spec fn sub_leaf_spec(&self) -> Self {
        *self
    }

    fn sub_leaf(&self) -> (r: &Self) {
        self
    }
}

} // verus!
