use cpuid::{
    DecodeError, Leaf0x12_SubLeaf0_Eax, Leaf0x14_SubLeaf0_Ebx, Leaf0x19_SubLeaf0_Ebx,
    Leaf0x1_SubLeaf0_Ecx, Leaf0x1_SubLeaf0_Edx, Leaf0x6_SubLeaf0_Eax, Leaf0x6_SubLeaf0_Ecx,
    Leaf0x7_SubLeaf0_Ebx, Leaf0x7_SubLeaf0_Ecx, Leaf0x7_SubLeaf0_Edx, Leaf0x7_SubLeaf1_Eax,
    Leaf0x8000_0001_SubLeaf0_Ecx, Leaf0x8000_0001_SubLeaf0_Edx, Leaf0x8000_0008_SubLeaf0_Ebx,
    Leaf0x8000_001F_SubLeaf0_Eax, Leaf0xD_SubLeaf1_Eax,
};

#[test]
fn serialize_is_nibble_separated_binary() {
    let r = Leaf0x1_SubLeaf0_Ecx::from_bits(0b0010_0000_0000_0000_0000_0010_0000_0111);
    assert_eq!(r.serialize(), "0010_0000_0000_0000_0000_0010_0000_0111");
    let zero = Leaf0x1_SubLeaf0_Ecx::from_bits(0);
    assert_eq!(zero.serialize(), "0000_0000_0000_0000_0000_0000_0000_0000");
    let all = Leaf0x1_SubLeaf0_Ecx::from_bits(u32::MAX);
    assert_eq!(all.serialize(), "1111_1111_1111_1111_1111_1111_1111_1111");
}

#[test]
fn deserialize_accepts_plain_and_separated_forms() {
    let r = Leaf0x1_SubLeaf0_Ecx::deserialize("0010_0000_0000_0000_0000_0010_0000_0111").unwrap();
    assert_eq!(r.bits(), 0b0010_0000_0000_0000_0000_0010_0000_0111);
    let plain = Leaf0x1_SubLeaf0_Ecx::deserialize("00100000000000000000001000000111").unwrap();
    assert_eq!(plain.bits(), r.bits());
}

#[test]
fn deserialize_rejects_non_binary_characters() {
    assert_eq!(
        Leaf0x1_SubLeaf0_Ecx::deserialize("12"),
        Err(DecodeError::NonBinaryCharacter)
    );
    assert_eq!(
        Leaf0x1_SubLeaf0_Ecx::deserialize("0000_0000_0000_0000_0000_0000_0000_0002"),
        Err(DecodeError::NonBinaryCharacter)
    );
}

#[test]
fn deserialize_rejects_wrong_length() {
    assert_eq!(
        Leaf0x1_SubLeaf0_Ecx::deserialize("0000000000000000000000000000000"),
        Err(DecodeError::WrongLength)
    );
    assert_eq!(
        Leaf0x1_SubLeaf0_Ecx::deserialize("000000000000000000000000000000000"),
        Err(DecodeError::WrongLength)
    );
    assert_eq!(Leaf0x1_SubLeaf0_Ecx::deserialize(""), Err(DecodeError::WrongLength));
    assert_eq!(Leaf0x1_SubLeaf0_Ecx::deserialize("____"), Err(DecodeError::WrongLength));
}

#[test]
fn round_trip_preserves_reserved_bits() {
    // Bit 16 of leaf 1 `ecx` is reserved; bit 13 of leaf 25 `ebx` too.
    for bits in [
        0u32,
        1,
        0x0001_0000,
        0x0000_2000,
        0xDEAD_BEEF,
        0xFFFF_FFFF,
        0x8000_0001,
    ] {
        let r = Leaf0x1_SubLeaf0_Ecx::from_bits(bits);
        assert_eq!(Leaf0x1_SubLeaf0_Ecx::deserialize(&r.serialize()).unwrap(), r);
    }
}

#[test]
fn round_trip_holds_for_every_register_type() {
    let v = 0xA5C3_0F71u32;
    assert_eq!(
        Leaf0x1_SubLeaf0_Ecx::deserialize(&Leaf0x1_SubLeaf0_Ecx::from_bits(v).serialize()).unwrap(),
        Leaf0x1_SubLeaf0_Ecx::from_bits(v)
    );
    assert_eq!(
        Leaf0x1_SubLeaf0_Edx::deserialize(&Leaf0x1_SubLeaf0_Edx::from_bits(v).serialize()).unwrap(),
        Leaf0x1_SubLeaf0_Edx::from_bits(v)
    );
    assert_eq!(
        Leaf0x6_SubLeaf0_Eax::deserialize(&Leaf0x6_SubLeaf0_Eax::from_bits(v).serialize()).unwrap(),
        Leaf0x6_SubLeaf0_Eax::from_bits(v)
    );
    assert_eq!(
        Leaf0x6_SubLeaf0_Ecx::deserialize(&Leaf0x6_SubLeaf0_Ecx::from_bits(v).serialize()).unwrap(),
        Leaf0x6_SubLeaf0_Ecx::from_bits(v)
    );
    assert_eq!(
        Leaf0x7_SubLeaf0_Ebx::deserialize(&Leaf0x7_SubLeaf0_Ebx::from_bits(v).serialize()).unwrap(),
        Leaf0x7_SubLeaf0_Ebx::from_bits(v)
    );
    assert_eq!(
        Leaf0x7_SubLeaf0_Ecx::deserialize(&Leaf0x7_SubLeaf0_Ecx::from_bits(v).serialize()).unwrap(),
        Leaf0x7_SubLeaf0_Ecx::from_bits(v)
    );
    assert_eq!(
        Leaf0x7_SubLeaf0_Edx::deserialize(&Leaf0x7_SubLeaf0_Edx::from_bits(v).serialize()).unwrap(),
        Leaf0x7_SubLeaf0_Edx::from_bits(v)
    );
    assert_eq!(
        Leaf0x7_SubLeaf1_Eax::deserialize(&Leaf0x7_SubLeaf1_Eax::from_bits(v).serialize()).unwrap(),
        Leaf0x7_SubLeaf1_Eax::from_bits(v)
    );
    assert_eq!(
        Leaf0xD_SubLeaf1_Eax::deserialize(&Leaf0xD_SubLeaf1_Eax::from_bits(v).serialize()).unwrap(),
        Leaf0xD_SubLeaf1_Eax::from_bits(v)
    );
    assert_eq!(
        Leaf0x12_SubLeaf0_Eax::deserialize(&Leaf0x12_SubLeaf0_Eax::from_bits(v).serialize())
            .unwrap(),
        Leaf0x12_SubLeaf0_Eax::from_bits(v)
    );
    assert_eq!(
        Leaf0x14_SubLeaf0_Ebx::deserialize(&Leaf0x14_SubLeaf0_Ebx::from_bits(v).serialize())
            .unwrap(),
        Leaf0x14_SubLeaf0_Ebx::from_bits(v)
    );
    assert_eq!(
        Leaf0x19_SubLeaf0_Ebx::deserialize(&Leaf0x19_SubLeaf0_Ebx::from_bits(v).serialize())
            .unwrap(),
        Leaf0x19_SubLeaf0_Ebx::from_bits(v)
    );
    assert_eq!(
        Leaf0x8000_0001_SubLeaf0_Edx::deserialize(
            &Leaf0x8000_0001_SubLeaf0_Edx::from_bits(v).serialize()
        )
        .unwrap(),
        Leaf0x8000_0001_SubLeaf0_Edx::from_bits(v)
    );
    assert_eq!(
        Leaf0x8000_0001_SubLeaf0_Ecx::deserialize(
            &Leaf0x8000_0001_SubLeaf0_Ecx::from_bits(v).serialize()
        )
        .unwrap(),
        Leaf0x8000_0001_SubLeaf0_Ecx::from_bits(v)
    );
    assert_eq!(
        Leaf0x8000_0008_SubLeaf0_Ebx::deserialize(
            &Leaf0x8000_0008_SubLeaf0_Ebx::from_bits(v).serialize()
        )
        .unwrap(),
        Leaf0x8000_0008_SubLeaf0_Ebx::from_bits(v)
    );
    assert_eq!(
        Leaf0x8000_001F_SubLeaf0_Eax::deserialize(
            &Leaf0x8000_001F_SubLeaf0_Eax::from_bits(v).serialize()
        )
        .unwrap(),
        Leaf0x8000_001F_SubLeaf0_Eax::from_bits(v)
    );
}

#[test]
fn contains_and_is_empty_follow_the_bits() {
    let a = Leaf0x1_SubLeaf0_Ecx::from_bits(
        Leaf0x1_SubLeaf0_Ecx::sse3 | Leaf0x1_SubLeaf0_Ecx::aes | Leaf0x1_SubLeaf0_Ecx::avx,
    );
    let b = Leaf0x1_SubLeaf0_Ecx::from_bits(Leaf0x1_SubLeaf0_Ecx::aes);
    assert!(a.contains(b));
    assert!(!b.contains(a));
    assert!(a.contains(a));
    assert!(!a.is_empty());
    assert!(Leaf0x1_SubLeaf0_Ecx::from_bits(0).is_empty());
    assert_eq!(a.bits(), 0x1200_0001);
}

#[test]
fn union_and_intersection_compose_bitwise() {
    let a = Leaf0x1_SubLeaf0_Ecx::from_bits(0b1100);
    let b = Leaf0x1_SubLeaf0_Ecx::from_bits(0b1010);
    assert_eq!(a.union(b).bits(), 0b1110);
    assert_eq!(a.intersection(b).bits(), 0b1000);
    assert!(a.union(b).contains(a));
    assert!(a.union(b).contains(b));
}
