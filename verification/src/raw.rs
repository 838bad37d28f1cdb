use vstd::prelude::*;

verus! {

/// One raw CPUID entry, field for field as the hypervisor ABI lays it out:
/// the queried function and index, per-entry flags, the four registers,
/// and three reserved words.
#[derive(Clone, Copy, Debug, PartialEq, Eq)]
pub struct RawCpuidEntry {
    pub function: u32,
    pub index: u32,
    pub flags: u32,
    pub eax: u32,
    pub ebx: u32,
    pub ecx: u32,
    pub edx: u32,
    pub padding: [u32; 3],
}

impl RawCpuidEntry {
    /// Builds an entry with the reserved words clear.
    pub fn new(function: u32, index: u32, flags: u32, eax: u32, ebx: u32, ecx: u32, edx: u32) -> (r:
        Self)
        ensures
            r.function == function,
            r.index == index,
            r.flags == flags,
            r.eax == eax,
            r.ebx == ebx,
            r.ecx == ecx,
            r.edx == edx,
            r.padding@ == seq![0u32, 0u32, 0u32],
    {
        let r = Self { function, index, flags, eax, ebx, ecx, edx, padding: [0u32, 0u32, 0u32] };
        proof {
            assert(r.padding@ =~= seq![0u32, 0u32, 0u32]);
        }
        r
    }

    /// The four registers of this entry, in `eax`, `ebx`, `ecx`, `edx`
    /// order.
    pub fn registers(&self) -> (r: (u32, u32, u32, u32))
        ensures
            r == (self.eax, self.ebx, self.ecx, self.edx),
    {
        (self.eax, self.ebx, self.ecx, self.edx)
    }
}

/// `e` answers the query for this function and sub-leaf index.
pub open spec fn spec_entry_matches(e: RawCpuidEntry, function: u32, index: u32) -> bool {
    e.function == function && e.index == index
}

/// The first entry of `s` answering the query, scanning in array order.
pub open spec fn spec_lookup(s: Seq<RawCpuidEntry>, function: u32, index: u32) -> Option<
    RawCpuidEntry,
>
    decreases s.len(),
{
    if s.len() == 0 {
        None
    } else if spec_entry_matches(s[0], function, index) {
        Some(s[0])
    } else {
        spec_lookup(s.drop_first(), function, index)
    }
}

/// A list of raw CPUID entries, mirroring the hypervisor's entry-list ABI:
/// a count plus a contiguous owned array. The backing storage belongs to
/// this value alone and is released exactly once, when it is dropped.
/// Entries are unordered with respect to (function, index); lookup is a
/// linear scan.
#[derive(Debug)]
pub struct RawCpuid {
    /// The owned entries; the count the ABI carries is their number.
    pub entries: Vec<RawCpuidEntry>,
}

impl RawCpuid {
    /// Takes ownership of `entries` as the backing array.
    pub fn from_entries(entries: Vec<RawCpuidEntry>) -> (r: Self)
        ensures
            r.entries@ == entries@,
    {
        Self { entries }
    }

    /// The number of entries, as the ABI's count field carries it.
    pub fn len(&self) -> (r: u32)
        requires
            self.entries@.len() <= u32::MAX,
        ensures
            r == self.entries@.len(),
    {
        self.entries.len() as u32
    }

    /// The entry at position `i`; callers must stay within the count, as an
    /// out-of-bounds position is a caller bug rather than a recoverable
    /// condition.
    pub fn entry_at(&self, i: usize) -> (r: &RawCpuidEntry)
        requires
            i < self.entries@.len(),
        ensures
            *r == self.entries@[i as int],
    {
        &self.entries[i]
    }

    /// Looks an entry up by function (leaf) and index (sub-leaf): the first
    /// match in array order, or nothing.
    pub fn get(&self, leaf: u32, sub_leaf: u32) -> (r: Option<&RawCpuidEntry>)
        ensures
            match spec_lookup(self.entries@, leaf, sub_leaf) {
                Some(e) => r is Some && *r.unwrap() == e,
                None => r is None,
            },
    {
        let mut i: usize = 0;
        proof {
            assert(self.entries@.skip(0) =~= self.entries@);
        }
        while i < self.entries.len()
            invariant
                i <= self.entries@.len(),
                spec_lookup(self.entries@, leaf, sub_leaf) == spec_lookup(
                    self.entries@.skip(i as int),
                    leaf,
                    sub_leaf,
                ),
            decreases self.entries@.len() - i,
        {
            let e = &self.entries[i];
            proof {
                assert(self.entries@.skip(i as int)[0] == self.entries@[i as int]);
                assert(self.entries@.skip(i as int).drop_first() =~= self.entries@.skip(i + 1));
            }
            if e.function == leaf && e.index == sub_leaf {
                return Some(e);
            }
            i = i + 1;
        }
        None
    }

    /// A fresh iterator over the entries, starting at the first.
    pub fn iter(&self) -> (r: RawCpuidIter<'_>)
        ensures
            r.cpuid == self,
            r.count == 0,
    {
        RawCpuidIter { cpuid: self, count: 0 }
    }
}

/// A cursor over a [`RawCpuid`]'s entries, yielding each exactly once in
/// array order.
pub struct RawCpuidIter<'a> {
    pub cpuid: &'a RawCpuid,
    pub count: usize,
}

impl<'a> RawCpuidIter<'a> {
    /// The next entry in array order, or nothing once every entry has been
    /// yielded.
    pub fn next(&mut self) -> (r: Option<&'a RawCpuidEntry>)
        requires
            old(self).count <= old(self).cpuid.entries@.len(),
        ensures
            final(self).cpuid == old(self).cpuid,
            old(self).count < old(self).cpuid.entries@.len() ==> r is Some && *r.unwrap() == old(
                self,
            ).cpuid.entries@[old(self).count as int] && final(self).count == old(self).count + 1,
            old(self).count == old(self).cpuid.entries@.len() ==> r is None && final(self).count
                == old(self).count,
    {
        if self.count == self.cpuid.entries.len() {
            None
        } else {
            let r = Some(&self.cpuid.entries[self.count]);
            self.count = self.count + 1;
            r
        }
    }
}

/// The hypervisor's own entry-list value, held opaquely: what it contains
/// is reached only through the trusted accessors below.
#[verifier::external_body]
pub struct KvmCpuid {
    /// The wrapped `kvm_bindings::CpuId` value, open to unverified callers
    /// that obtain one from the hypervisor or hand one back to it.
    pub inner: kvm_bindings::CpuId,
}

/// The entries a [`KvmCpuid`] holds, in array order, each read back as the
/// library's plain entry record.
pub uninterp spec fn kvm_entry_seq(c: KvmCpuid) -> Seq<RawCpuidEntry>;

/// Relies on `vmm_sys_util::fam::FamStructWrapper::as_slice`, which yields
/// exactly the held entries.
#[verifier::external_body]
fn kvm_nent(c: &KvmCpuid) -> (r: usize)
    ensures
        r == kvm_entry_seq(*c).len(),
{
    c.inner.as_slice().len()
}

/// Relies on `vmm_sys_util::fam::FamStructWrapper::as_slice`; the entry's
/// fields are copied one for one.
#[verifier::external_body]
fn kvm_entry_at(c: &KvmCpuid, i: usize) -> (r: RawCpuidEntry)
    requires
        i < kvm_entry_seq(*c).len(),
    ensures
        r == kvm_entry_seq(*c)[i as int],
{
    let e = &c.inner.as_slice()[i];
    RawCpuidEntry {
        function: e.function,
        index: e.index,
        flags: e.flags,
        eax: e.eax,
        ebx: e.ebx,
        ecx: e.ecx,
        edx: e.edx,
        padding: e.padding,
    }
}

/// Relies on `vmm_sys_util::fam::FamStructWrapper::from_entries`, which
/// copies the given slice and fails exactly when it holds more than the 256
/// entries `kvm_bindings::kvm_cpuid2` can carry.
#[verifier::external_body]
fn kvm_from_entries(entries: &Vec<RawCpuidEntry>) -> (r: Option<KvmCpuid>)
    ensures
        r is Some <==> entries@.len() <= 256,
        r is Some ==> kvm_entry_seq(r.unwrap()) == entries@,
{
    let es: Vec<kvm_bindings::kvm_cpuid_entry2> = entries
        .iter()
        .map(|e| kvm_bindings::kvm_cpuid_entry2 {
            function: e.function,
            index: e.index,
            flags: e.flags,
            eax: e.eax,
            ebx: e.ebx,
            ecx: e.ecx,
            edx: e.edx,
            padding: e.padding,
        })
        .collect();
    kvm_bindings::CpuId::from_entries(&es).ok().map(|inner| KvmCpuid { inner })
}

impl RawCpuid {
    /// Copies the hypervisor's entry list into an owned [`RawCpuid`],
    /// record for record; the two values share no storage afterwards.
    pub fn from_kvm(c: &KvmCpuid) -> (r: Self)
        ensures
            r.entries@ == kvm_entry_seq(*c),
    {
        let n = kvm_nent(c);
        let mut entries: Vec<RawCpuidEntry> = Vec::new();
        let mut i: usize = 0;
        while i < n
            invariant
                n == kvm_entry_seq(*c).len(),
                i <= n,
                entries@ =~= kvm_entry_seq(*c).take(i as int),
            decreases n - i,
        {
            entries.push(kvm_entry_at(c, i));
            i = i + 1;
        }
        proof {
            assert(kvm_entry_seq(*c).take(n as int) =~= kvm_entry_seq(*c));
        }
        Self { entries }
    }

    /// Copies the entries into a fresh hypervisor entry list, record for
    /// record; fails exactly when there are more entries than the ABI's
    /// limit of 256.
    pub fn into_kvm(&self) -> (r: Option<KvmCpuid>)
        ensures
            r is Some <==> self.entries@.len() <= 256,
            r is Some ==> kvm_entry_seq(r.unwrap()) == self.entries@,
    {
        kvm_from_entries(&self.entries)
    }
}

} // verus!
