use cpuid::{
    FieldError, FieldName, Leaf0x8000_0008_SubLeaf0_Eax, Leaf0x8000_0008_SubLeaf0_Ecx,
    ProcessorVersionInformation,
};

#[test]
fn version_getters_extract_each_subfield() {
    let v = ProcessorVersionInformation(0x0FAA_3655);
    assert_eq!(v.stepping_id(), 0x5);
    assert_eq!(v.model(), 0x5);
    assert_eq!(v.family_id(), 0x6);
    assert_eq!(v.processor_type(), 0x3);
    assert_eq!(v.extended_model_id(), 0xA);
    assert_eq!(v.extended_family_id(), 0xFA);
}

#[test]
fn stepping_overflow_is_rejected_and_valid_values_stick() {
    let mut v = ProcessorVersionInformation(0x0FAA_3650);
    let before = v.0;
    assert_eq!(
        v.set_stepping_id(16),
        Err(FieldError::FieldOverflow(FieldName::SteppingId, 15))
    );
    assert_eq!(v.0, before);
    assert_eq!(v.set_stepping_id(15), Ok(()));
    assert_eq!(v.stepping_id(), 15);
    // No other subfield moved.
    assert_eq!(v.model(), 0x5);
    assert_eq!(v.family_id(), 0x6);
    assert_eq!(v.processor_type(), 0x3);
    assert_eq!(v.extended_model_id(), 0xA);
    assert_eq!(v.extended_family_id(), 0xFA);
}

#[test]
fn version_setters_validate_their_widths() {
    let mut v = ProcessorVersionInformation(0);
    assert_eq!(v.set_model(16), Err(FieldError::FieldOverflow(FieldName::Model, 15)));
    assert_eq!(v.set_family_id(16), Err(FieldError::FieldOverflow(FieldName::FamilyId, 15)));
    assert_eq!(
        v.set_processor_type(4),
        Err(FieldError::FieldOverflow(FieldName::ProcessorType, 3))
    );
    assert_eq!(
        v.set_extended_model_id(16),
        Err(FieldError::FieldOverflow(FieldName::ExtendedModelId, 15))
    );
    assert_eq!(v.0, 0);
    assert_eq!(v.set_model(3), Ok(()));
    assert_eq!(v.set_processor_type(2), Ok(()));
    v.set_extended_family_id(0xFF);
    assert_eq!(v.model(), 3);
    assert_eq!(v.processor_type(), 2);
    assert_eq!(v.extended_family_id(), 0xFF);
}

#[test]
fn version_named_fields_round_trip() {
    let m = vec![
        (FieldName::SteppingId, 5u8),
        (FieldName::Model, 6u8),
        (FieldName::FamilyId, 6u8),
        (FieldName::ProcessorType, 0u8),
        (FieldName::ExtendedModelId, 10u8),
        (FieldName::ExtendedFamilyId, 0u8),
    ];
    let v = ProcessorVersionInformation::from_named_fields(&m).unwrap();
    assert_eq!(v.to_named_fields(), m);
}

#[test]
fn version_named_fields_order_does_not_matter() {
    let shuffled = vec![
        (FieldName::ExtendedFamilyId, 7u8),
        (FieldName::Model, 2u8),
        (FieldName::SteppingId, 1u8),
        (FieldName::ProcessorType, 3u8),
        (FieldName::FamilyId, 15u8),
        (FieldName::ExtendedModelId, 0u8),
    ];
    let v = ProcessorVersionInformation::from_named_fields(&shuffled).unwrap();
    assert_eq!(v.stepping_id(), 1);
    assert_eq!(v.model(), 2);
    assert_eq!(v.family_id(), 15);
    assert_eq!(v.processor_type(), 3);
    assert_eq!(v.extended_model_id(), 0);
    assert_eq!(v.extended_family_id(), 7);
}

#[test]
fn version_named_fields_reject_missing_and_overflowing_values() {
    let missing = vec![(FieldName::SteppingId, 5u8)];
    assert_eq!(
        ProcessorVersionInformation::from_named_fields(&missing),
        Err(FieldError::MissingField(FieldName::Model))
    );
    let empty: Vec<(FieldName, u8)> = Vec::new();
    assert_eq!(
        ProcessorVersionInformation::from_named_fields(&empty),
        Err(FieldError::MissingField(FieldName::SteppingId))
    );
    let overflowing = vec![
        (FieldName::SteppingId, 5u8),
        (FieldName::Model, 99u8),
        (FieldName::FamilyId, 6u8),
        (FieldName::ProcessorType, 0u8),
        (FieldName::ExtendedModelId, 10u8),
        (FieldName::ExtendedFamilyId, 0u8),
    ];
    assert_eq!(
        ProcessorVersionInformation::from_named_fields(&overflowing),
        Err(FieldError::FieldOverflow(FieldName::Model, 15))
    );
}

#[test]
fn address_size_eax_getters_setters_and_round_trip() {
    let mut a = Leaf0x8000_0008_SubLeaf0_Eax(0);
    a.set_number_of_physical_address_bits(39);
    a.set_number_of_linear_address_bits(48);
    assert_eq!(a.number_of_physical_address_bits(), 39);
    assert_eq!(a.number_of_linear_address_bits(), 48);
    assert_eq!(a.0, 48 << 8 | 39);

    let m = vec![
        (FieldName::NumberOfPhysicalAddressBits, 39u8),
        (FieldName::NumberOfLinearAddressBits, 48u8),
    ];
    let b = Leaf0x8000_0008_SubLeaf0_Eax::from_named_fields(&m).unwrap();
    assert_eq!(b.to_named_fields(), m);
    assert_eq!(b, a);

    let missing = vec![(FieldName::NumberOfPhysicalAddressBits, 39u8)];
    assert_eq!(
        Leaf0x8000_0008_SubLeaf0_Eax::from_named_fields(&missing),
        Err(FieldError::MissingField(FieldName::NumberOfLinearAddressBits))
    );
}

#[test]
fn core_count_ecx_getters_setters_and_round_trip() {
    let mut c = Leaf0x8000_0008_SubLeaf0_Ecx(0);
    c.set_number_of_physical_cores_minus_1(7);
    assert_eq!(c.set_log2_of_maximum_apic_id(4), Ok(()));
    assert_eq!(c.set_performance_timestamp_counter_size(2), Ok(()));
    assert_eq!(c.number_of_physical_cores_minus_1(), 7);
    assert_eq!(c.log2_of_maximum_apic_id(), 4);
    assert_eq!(c.performance_timestamp_counter_size(), 2);

    assert_eq!(
        c.set_log2_of_maximum_apic_id(16),
        Err(FieldError::FieldOverflow(FieldName::Log2OfMaximumApicId, 15))
    );
    assert_eq!(
        c.set_performance_timestamp_counter_size(4),
        Err(FieldError::FieldOverflow(FieldName::PerformanceTimestampCounterSize, 3))
    );

    let m = vec![
        (FieldName::NumberOfPhysicalCoresMinus1, 7u8),
        (FieldName::Log2OfMaximumApicId, 4u8),
        (FieldName::PerformanceTimestampCounterSize, 2u8),
    ];
    let d = Leaf0x8000_0008_SubLeaf0_Ecx::from_named_fields(&m).unwrap();
    assert_eq!(d.to_named_fields(), m);
    assert_eq!(d, c);

    let empty: Vec<(FieldName, u8)> = Vec::new();
    assert_eq!(
        Leaf0x8000_0008_SubLeaf0_Ecx::from_named_fields(&empty),
        Err(FieldError::MissingField(FieldName::NumberOfPhysicalCoresMinus1))
    );
}

#[test]
fn interrupt_thresholds_getter_reads_the_low_bits() {
    let e = cpuid::Leaf6SubLeaf0Ebx(0xFFF2);
    assert_eq!(e.number_of_interrupt_thresholds(), 2);
    let narrow = cpuid::Leaf6SubLeaf0Ebx(2);
    assert_eq!(e.number_of_interrupt_thresholds(), narrow.number_of_interrupt_thresholds());
}
