use cpuid::{Cpuid, CpuidReads, LeafRegisters};

fn r4(eax: u32, ebx: u32, ecx: u32, edx: u32) -> LeafRegisters {
    LeafRegisters { eax, ebx, ecx, edx }
}

fn reads() -> CpuidReads {
    CpuidReads {
        leaf0: r4(
            0x16,
            u32::from_le_bytes(*b"Genu"),
            u32::from_le_bytes(*b"ntel"),
            u32::from_le_bytes(*b"ineI"),
        ),
        leaf1: r4(0x000A_0655, 0x0102_0304, 0x7FFA_FBFF, 0xBFEB_FBFF),
        leaf6: r4(0x77, 0x2, 0x9, 0),
        leaf7_sub0: r4(0, 0xD39F_FFFF, 0x0000_08FF, 0xBC00_0400),
        leaf7_sub1: r4(0x0040_0810, 0, 0, 0),
        leaf13_sub1: r4(0xF, 0, 0, 0),
        leaf18: r4(0x63, 0, 0, 0),
        leaf20: r4(0, 0x10, 0, 0),
        leaf25: r4(0, 0x15, 0, 0),
        leaf0x8000_0001: r4(0, 0, 0x0000_0121, 0x2C10_0800),
        leaf0x8000_0008: r4(0x3027, 0x0000_1000, 0x0000_4007, 0),
        leaf0x8000_001F: r4(0x1_000F, 0, 0, 0),
    }
}

#[test]
fn image_is_exactly_one_hundred_bytes() {
    let cpuid = Cpuid::new(&reads());
    let bytes = cpuid.to_bytes();
    assert_eq!(bytes.len(), 100);
    // The image opens with the vendor string and closes with the last
    // leaf's register, little-endian.
    assert_eq!(&bytes[0..12], b"GenuineIntel");
    assert_eq!(&bytes[96..100], &[0x0F, 0x00, 0x01, 0x00]);
    // The highest calling parameter sits right after the vendor string.
    assert_eq!(&bytes[12..16], &[0x16, 0, 0, 0]);
}

#[test]
fn image_round_trips_bit_for_bit() {
    let cpuid = Cpuid::new(&reads());
    let bytes = cpuid.to_bytes();
    let loaded = Cpuid::from_bytes(&bytes).unwrap();
    assert_eq!(loaded, cpuid);
    assert!(loaded.covers(&cpuid));
    assert!(cpuid.covers(&loaded));
}

#[test]
fn image_of_any_other_length_is_rejected()  {
    assert!(Cpuid::from_bytes(&Vec::new()).is_none());
    assert!(Cpuid::from_bytes(&vec![0u8; 99]).is_none());
    assert!(Cpuid::from_bytes(&vec![0u8; 101]).is_none());
    assert!(Cpuid::from_bytes(&vec![0u8; 100]).is_some());
}
