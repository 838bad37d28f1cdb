use cpuid::{KvmCpuid, RawCpuid, RawCpuidEntry};

#[test]
fn lookup_iteration_and_len() {
    let entries = vec![
        RawCpuidEntry::new(1, 0, 0, 7, 0, 0, 0),
        RawCpuidEntry::new(7, 0, 0, 9, 0, 0, 0),
    ];
    let raw = RawCpuid::from_entries(entries);

    assert_eq!(raw.len(), 2);

    let first = raw.get(1, 0).unwrap();
    assert_eq!(first.function, 1);
    assert_eq!(first.index, 0);
    assert_eq!(first.eax, 7);

    assert!(raw.get(7, 1).is_none());

    let mut iter = raw.iter();
    let a = iter.next().unwrap();
    assert_eq!((a.function, a.eax), (1, 7));
    let b = iter.next().unwrap();
    assert_eq!((b.function, b.eax), (7, 9));
    assert!(iter.next().is_none());
}

#[test]
fn get_returns_the_first_match_in_array_order() {
    let entries = vec![
        RawCpuidEntry::new(4, 0, 0, 11, 0, 0, 0),
        RawCpuidEntry::new(4, 0, 0, 22, 0, 0, 0),
    ];
    let raw = RawCpuid::from_entries(entries);
    assert_eq!(raw.get(4, 0).unwrap().eax, 11);
}

#[test]
fn entry_at_and_registers() {
    let entries = vec![RawCpuidEntry::new(2, 3, 4, 5, 6, 7, 8)];
    let raw = RawCpuid::from_entries(entries);
    let e = raw.entry_at(0);
    assert_eq!(e.registers(), (5, 6, 7, 8));
    assert_eq!(e.flags, 4);
    assert_eq!(e.padding, [0, 0, 0]);
}

#[test]
fn iterators_are_restartable() {
    let entries = vec![
        RawCpuidEntry::new(1, 0, 0, 1, 2, 3, 4),
        RawCpuidEntry::new(2, 0, 0, 5, 6, 7, 8),
    ];
    let raw = RawCpuid::from_entries(entries);
    let mut first_pass = raw.iter();
    let mut count = 0u32;
    while first_pass.next().is_some() {
        count += 1;
    }
    assert_eq!(count, 2);
    let mut second_pass = raw.iter();
    assert_eq!(second_pass.next().unwrap().function, 1);
}

#[test]
fn kvm_conversion_round_trips_record_for_record() {
    let entries = vec![
        RawCpuidEntry::new(0, 0, 0, 0x20, 0x756E_6547, 0x6C65_746E, 0x4965_6E69),
        RawCpuidEntry::new(1, 0, 0, 0x000A_0655, 0x0102_0304, 0x7FFA_FBFF, 0xBFEB_FBFF),
        RawCpuidEntry::new(7, 1, 0, 0x0040_0810, 0, 0, 0),
    ];
    let raw = RawCpuid::from_entries(entries);
    let kvm = raw.into_kvm().unwrap();

    // The hypervisor-side value holds the same records.
    let slice = kvm.inner.as_slice();
    assert_eq!(slice.len(), 3);
    assert_eq!(slice[0].ebx, 0x756E_6547);
    assert_eq!(slice[1].function, 1);
    assert_eq!(slice[2].index, 1);

    let back = RawCpuid::from_kvm(&kvm);
    assert_eq!(back.entries, raw.entries);
}

#[test]
fn kvm_conversion_accepts_a_value_built_by_the_hypervisor_bindings() {
    let kvm_entries = [kvm_bindings::kvm_cpuid_entry2 {
        function: 6,
        index: 0,
        flags: 0,
        eax: 0x77,
        ebx: 0x2,
        ecx: 0x9,
        edx: 0,
        padding: [0, 0, 0],
    }];
    let inner = kvm_bindings::CpuId::from_entries(&kvm_entries).unwrap();
    let raw = RawCpuid::from_kvm(&KvmCpuid { inner });
    assert_eq!(raw.len(), 1);
    let e = raw.get(6, 0).unwrap();
    assert_eq!(e.registers(), (0x77, 0x2, 0x9, 0));
}

#[test]
fn kvm_conversion_rejects_more_entries_than_the_abi_carries() {
    let mut entries = Vec::new();
    let mut i = 0u32;
    while i < 257 {
        entries.push(RawCpuidEntry::new(i, 0, 0, 0, 0, 0, 0));
        i += 1;
    }
    let raw = RawCpuid::from_entries(entries);
    assert!(raw.into_kvm().is_none());
}
