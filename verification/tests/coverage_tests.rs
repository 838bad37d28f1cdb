use cpuid::{Cpuid, CpuidReads, Leaf0x1_SubLeaf0_Ecx, LeafRegisters};

fn quad(eax: u32, ebx: u32, ecx: u32, edx: u32) -> LeafRegisters {
    LeafRegisters { eax, ebx, ecx, edx }
}

fn base_reads() -> CpuidReads {
    CpuidReads {
        leaf0: quad(
            0x20,
            u32::from_le_bytes(*b"Genu"),
            u32::from_le_bytes(*b"ntel"),
            u32::from_le_bytes(*b"ineI"),
        ),
        leaf1: quad(0x000A_0655, 0x0102_0304, 0x7FFA_FBFF, 0xBFEB_FBFF),
        leaf6: quad(0x77, 0x2, 0x9, 0),
        leaf7_sub0: quad(0, 0xD39F_FFFF, 0x0000_08FF, 0xBC00_0400),
        leaf7_sub1: quad(0x0040_0810, 0, 0, 0),
        leaf13_sub1: quad(0xF, 0, 0, 0),
        leaf18: quad(0x63, 0, 0, 0),
        leaf20: quad(0, 0x10, 0, 0),
        leaf25: quad(0, 0x15, 0, 0),
        leaf0x8000_0001: quad(0, 0, 0x0000_0121, 0x2C10_0800),
        leaf0x8000_0008: quad(0x3027, 0x0000_1000, 0x0000_4007, 0),
        leaf0x8000_001F: quad(0x1_000F, 0, 0, 0),
    }
}

#[test]
fn covers_is_reflexive() {
    let x = Cpuid::new(&base_reads());
    assert!(x.covers(&x));
    let zeros = Cpuid::new(&CpuidReads {
        leaf0: quad(0, 0, 0, 0),
        leaf1: quad(0, 0, 0, 0),
        leaf6: quad(0, 0, 0, 0),
        leaf7_sub0: quad(0, 0, 0, 0),
        leaf7_sub1: quad(0, 0, 0, 0),
        leaf13_sub1: quad(0, 0, 0, 0),
        leaf18: quad(0, 0, 0, 0),
        leaf20: quad(0, 0, 0, 0),
        leaf25: quad(0, 0, 0, 0),
        leaf0x8000_0001: quad(0, 0, 0, 0),
        leaf0x8000_0008: quad(0, 0, 0, 0),
        leaf0x8000_001F: quad(0, 0, 0, 0),
    });
    assert!(zeros.covers(&zeros));
}

#[test]
fn adding_feature_bits_to_the_reference_preserves_coverage() {
    let candidate = Cpuid::new(&base_reads());
    let reference = Cpuid::new(&base_reads());
    assert!(reference.covers(&candidate));

    // Strictly increase the reference's capability: set one more feature
    // bit in a flag register.
    let mut wider_reads = base_reads();
    wider_reads.leaf1.ecx |= Leaf0x1_SubLeaf0_Ecx::pcid;
    wider_reads.leaf13_sub1.eax |= 1 << 31;
    let wider = Cpuid::new(&wider_reads);
    assert!(wider.covers(&candidate));
    // The narrower reference no longer covers the wider one.
    assert!(!reference.covers(&wider));
}

#[test]
fn vendor_mismatch_blocks_coverage_in_both_directions() {
    let intel = Cpuid::new(&base_reads());
    let mut amd_reads = base_reads();
    amd_reads.leaf0.ebx = u32::from_le_bytes(*b"Auth");
    amd_reads.leaf0.edx = u32::from_le_bytes(*b"enti");
    amd_reads.leaf0.ecx = u32::from_le_bytes(*b"cAMD");
    let amd = Cpuid::new(&amd_reads);
    assert!(!intel.covers(&amd));
    assert!(!amd.covers(&intel));
}

#[test]
fn missing_candidate_feature_bit_blocks_coverage() {
    let reference = Cpuid::new(&base_reads());
    let mut needy_reads = base_reads();
    // The candidate relies on a feature bit the reference lacks.
    needy_reads.leaf7_sub0.ecx |= 1 << 30;
    let needy = Cpuid::new(&needy_reads);
    assert!(!reference.covers(&needy));
    assert!(needy.covers(&reference));
}

#[test]
fn lower_capability_fields_block_coverage() {
    let reference = Cpuid::new(&base_reads());

    // A higher highest-calling-parameter on the candidate fails.
    let mut taller = base_reads();
    taller.leaf0.eax = 0x21;
    assert!(!reference.covers(&Cpuid::new(&taller)));
    assert!(Cpuid::new(&taller).covers(&reference));

    // Fewer physical address bits on the reference fails.
    let mut narrow = base_reads();
    narrow.leaf0x8000_0008.eax = 0x3020;
    assert!(!Cpuid::new(&narrow).covers(&reference));
    assert!(reference.covers(&Cpuid::new(&narrow)));

    // A differing processor version identifier fails in both directions.
    let mut other_model = base_reads();
    other_model.leaf1.eax = 0x000A_0656;
    assert!(!reference.covers(&Cpuid::new(&other_model)));
    assert!(!Cpuid::new(&other_model).covers(&reference));

    // A differing local APIC id is deliberately ignored.
    let mut other_apic = base_reads();
    other_apic.leaf1.ebx = 0x7F02_0304;
    assert!(reference.covers(&Cpuid::new(&other_apic)));
    assert!(Cpuid::new(&other_apic).covers(&reference));

    // Fewer interrupt thresholds on the reference fails.
    let mut fewer = base_reads();
    fewer.leaf6.ebx = 0x1;
    assert!(!Cpuid::new(&fewer).covers(&reference));
    assert!(reference.covers(&Cpuid::new(&fewer)));
}
