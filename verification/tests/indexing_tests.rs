use cpuid::{Cpuid, CpuidReads, Leaf, LeafRegisters, SubLeaf};

fn regs(eax: u32, ebx: u32, ecx: u32, edx: u32) -> LeafRegisters {
    LeafRegisters { eax, ebx, ecx, edx }
}

fn sample_cpuid() -> Cpuid {
    Cpuid::new(&CpuidReads {
        leaf0: regs(
            0x20,
            u32::from_le_bytes(*b"Genu"),
            u32::from_le_bytes(*b"ntel"),
            u32::from_le_bytes(*b"ineI"),
        ),
        leaf1: regs(0x000A_0655, 0x0102_0304, 0x7FFA_FBFF, 0xBFEB_FBFF),
        leaf6: regs(0x77, 0x2, 0x9, 0),
        leaf7_sub0: regs(0, 0xD39F_FFFF, 0x0000_08FF, 0xBC00_0400),
        leaf7_sub1: regs(0x0040_0810, 0, 0, 0),
        leaf13_sub1: regs(0xF, 0, 0, 0),
        leaf18: regs(0x63, 0, 0, 0),
        leaf20: regs(0, 0x10, 0, 0),
        leaf25: regs(0, 0x15, 0, 0),
        leaf0x8000_0001: regs(0, 0, 0x0000_0121, 0x2C10_0800),
        leaf0x8000_0008: regs(0x3027, 0x0000_1000, 0x0000_4007, 0),
        leaf0x8000_001F: regs(0x1_000F, 0, 0, 0),
    })
}

#[test]
fn print() {
    let cpuid = sample_cpuid();
    println!("cpuid: {:#?}", cpuid);
}

#[test]
fn leaf_trait_index() {
    let cpuid = sample_cpuid();
    let _leaf0 = Leaf::<0>::leaf(&cpuid);
    let _leaf1 = Leaf::<1>::leaf(&cpuid);
    let _leaf6 = Leaf::<6>::leaf(&cpuid);
    let _leaf7 = Leaf::<7>::leaf(&cpuid);
    let _leaf13 = Leaf::<13>::leaf(&cpuid);
    let _leaf18 = Leaf::<18>::leaf(&cpuid);
    let _leaf20 = Leaf::<20>::leaf(&cpuid);
    let _leaf25 = Leaf::<25>::leaf(&cpuid);
    let _leaf0x8000_0001 = Leaf::<0x8000_0001>::leaf(&cpuid);
    let _leaf0x8000_0008 = Leaf::<0x8000_0008>::leaf(&cpuid);
    let _leaf0x8000_001f = Leaf::<0x8000_001F>::leaf(&cpuid);
}

#[test]
fn leaf_fn_index() {
    let cpuid = sample_cpuid();
    let _leaf0 = cpuid.leaf::<0>();
    let _leaf1 = cpuid.leaf::<1>();
    let _leaf6 = cpuid.leaf::<6>();
    let _leaf7 = cpuid.leaf::<7>();
    let _leaf13 = cpuid.leaf::<13>();
    let _leaf18 = cpuid.leaf::<18>();
    let _leaf20 = cpuid.leaf::<20>();
    let _leaf25 = cpuid.leaf::<25>();
    let _leaf0x8000_0001 = cpuid.leaf::<0x8000_0001>();
    let _leaf0x8000_0008 = cpuid.leaf::<0x8000_0008>();
    let _leaf0x8000_001f = cpuid.leaf::<0x8000_001F>();
}

#[test]
fn sub_leaf_fn_index() {
    let cpuid = sample_cpuid();
    let _sub_leaf0_0 = cpuid.leaf::<0>().sub_leaf::<0>();
    let _sub_leaf1_0 = cpuid.leaf::<1>().sub_leaf::<0>();
    let _sub_leaf6_0 = cpuid.leaf::<6>().sub_leaf::<0>();
    let _sub_leaf7_0 = cpuid.leaf::<7>().sub_leaf::<0>();
    let _sub_leaf7_1 = cpuid.leaf::<7>().sub_leaf::<1>();
    let _sub_leaf13_1 = cpuid.leaf::<13>().sub_leaf::<1>();
    let _sub_leaf18_0 = cpuid.leaf::<18>().sub_leaf::<0>();
    let _sub_leaf20_0 = cpuid.leaf::<20>().sub_leaf::<0>();
    let _sub_leaf0x8000_0001_0 = cpuid.leaf::<0x8000_0001>().sub_leaf::<0>();
    let _sub_leaf0x8000_0008_0 = cpuid.leaf::<0x8000_0008>().sub_leaf::<0>();
    let _sub_leaf0x8000_001f_0 = cpuid.leaf::<0x8000_001F>().sub_leaf::<0>();
}

#[test]
fn registers_access() {
    let cpuid = sample_cpuid();

    let _register0_0_eax = cpuid.leaf::<0>().sub_leaf::<0>().eax();
    let _register0_0_ebx = cpuid.leaf::<0>().sub_leaf::<0>().ebx();
    let _register0_0_ecx = cpuid.leaf::<0>().sub_leaf::<0>().ecx();
    let _register0_0_edx = cpuid.leaf::<0>().sub_leaf::<0>().edx();

    let _register1_0_eax = cpuid.leaf::<1>().sub_leaf::<0>().eax();
    let _register1_0_ebx = cpuid.leaf::<1>().sub_leaf::<0>().ebx();
    let _register1_0_ecx = cpuid.leaf::<1>().sub_leaf::<0>().ecx();
    let _register1_0_edx = cpuid.leaf::<1>().sub_leaf::<0>().edx();

    let _register6_0_eax = cpuid.leaf::<6>().sub_leaf::<0>().eax();
    let _register6_0_ebx = cpuid.leaf::<6>().sub_leaf::<0>().ebx();
    let _register6_0_ecx = cpuid.leaf::<6>().sub_leaf::<0>().ecx();

    let _register7_0_ebx = cpuid.leaf::<7>().sub_leaf::<0>().ebx();
    let _register7_0_ecx = cpuid.leaf::<7>().sub_leaf::<0>().ecx();
    let _register7_0_edx = cpuid.leaf::<7>().sub_leaf::<0>().edx();

    let _register7_1_eax = cpuid.leaf::<7>().sub_leaf::<1>().eax();

    let _register13_1_eax = cpuid.leaf::<13>().sub_leaf::<1>().eax();

    let _register18_0_eax = cpuid.leaf::<18>().sub_leaf::<0>().eax();

    let _register20_0_ebx = cpuid.leaf::<20>().sub_leaf::<0>().ebx();

    let _register0x8000_0001_0_ecx = cpuid.leaf::<0x8000_0001>().sub_leaf::<0>().ecx();
    let _register0x8000_0001_0_edx = cpuid.leaf::<0x8000_0001>().sub_leaf::<0>().edx();

    let _register0x8000_0008_0_eax = cpuid.leaf::<0x8000_0008>().sub_leaf::<0>().eax();
    let _register0x8000_0008_0_ebx = cpuid.leaf::<0x8000_0008>().sub_leaf::<0>().ebx();
    let _register0x8000_0008_0_ecx = cpuid.leaf::<0x8000_0008>().sub_leaf::<0>().ecx();

    let _register0x8000_001f_0_eax = cpuid.leaf::<0x8000_001F>().sub_leaf::<0>().eax();
}

#[test]
fn register_accessors_return_raw_values() {
    let cpuid = sample_cpuid();
    assert_eq!(cpuid.leaf::<0>().eax(), 0x20);
    assert_eq!(cpuid.leaf::<0>().ebx(), u32::from_le_bytes(*b"Genu"));
    assert_eq!(cpuid.leaf::<0>().edx(), u32::from_le_bytes(*b"ineI"));
    assert_eq!(cpuid.leaf::<0>().ecx(), u32::from_le_bytes(*b"ntel"));
    assert_eq!(cpuid.leaf::<1>().eax(), 0x000A_0655);
    assert_eq!(cpuid.leaf::<1>().ebx(), 0x0102_0304);
    assert_eq!(cpuid.leaf::<1>().ecx(), 0x7FFA_FBFF);
    assert_eq!(cpuid.leaf::<1>().edx(), 0xBFEB_FBFF);
    assert_eq!(cpuid.leaf::<6>().eax(), 0x77);
    assert_eq!(cpuid.leaf::<6>().ebx(), 0x2);
    assert_eq!(cpuid.leaf::<6>().ecx(), 0x9);
    assert_eq!(cpuid.leaf::<7>().sub_leaf::<0>().ebx(), 0xD39F_FFFF);
    assert_eq!(cpuid.leaf::<7>().sub_leaf::<1>().eax(), 0x0040_0810);
    assert_eq!(cpuid.leaf::<13>().eax(), 0xF);
    assert_eq!(cpuid.leaf::<18>().eax(), 0x63);
    assert_eq!(cpuid.leaf::<20>().ebx(), 0x10);
    assert_eq!(cpuid.leaf::<25>().ebx(), 0x15);
    assert_eq!(cpuid.leaf::<0x8000_0001>().ecx(), 0x0000_0121);
    assert_eq!(cpuid.leaf::<0x8000_0001>().edx(), 0x2C10_0800);
    assert_eq!(cpuid.leaf::<0x8000_0008>().eax(), 0x3027);
    assert_eq!(cpuid.leaf::<0x8000_0008>().ebx(), 0x0000_1000);
    assert_eq!(cpuid.leaf::<0x8000_0008>().ecx(), 0x0000_4007);
    assert_eq!(cpuid.leaf::<0x8000_001F>().eax(), 0x1_000F);
}
