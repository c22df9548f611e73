//! The segment descriptor-table bootstrap: raw descriptor words, the task
//! state segment, and the table the privileged load instruction installs.
//!
//! Every descriptor is a plain bit pattern the CPU reads; the builders here
//! pin each word down exactly. The accessed bit of the code descriptor is
//! set already at construction, so the CPU never writes the table back on
//! first use and the table may live in read-only memory once installed.

use vstd::prelude::*;

verus! {

/// Descriptor bit: the segment was accessed (pre-set here on purpose).
pub const DESC_ACCESSED: u64 = 0x100_0000_0000;

/// Descriptor bit: a code segment is readable.
pub const DESC_READABLE: u64 = 0x200_0000_0000;

/// Descriptor bit: the segment holds code.
pub const DESC_EXECUTABLE: u64 = 0x800_0000_0000;

/// Descriptor bit: an ordinary (non-system) segment.
pub const DESC_USER_SEGMENT: u64 = 0x1000_0000_0000;

/// Descriptor bit: the descriptor is valid.
pub const DESC_PRESENT: u64 = 0x8000_0000_0000;

/// Descriptor bit: 64-bit code.
pub const DESC_BIT64: u64 = 0x20_0000_0000_0000;

/// Bits common to the boot descriptors: accessed, non-system, present. The
/// bits are disjoint, so their sum is their union.
pub const DESC_COMMON: u64 = DESC_ACCESSED + DESC_USER_SEGMENT + DESC_PRESENT;

/// The 64-bit kernel code descriptor.
pub const CODE64: u64 = DESC_COMMON + DESC_EXECUTABLE + DESC_BIT64;

/// The boot code descriptor carries the accessed bit already set, so no
/// write to the descriptor ever happens after construction.
pub proof fn lemma_code64_accessed()
    ensures
        CODE64 & DESC_ACCESSED == DESC_ACCESSED,
        CODE64 & DESC_PRESENT == DESC_PRESENT,
{
    assert(0x20_9900_0000_0000u64 & 0x100_0000_0000u64 == 0x100_0000_0000u64) by (bit_vector);
    assert(0x20_9900_0000_0000u64 & 0x8000_0000_0000u64 == 0x8000_0000_0000u64) by (bit_vector);
}

/// Number of interrupt-stack-table slots in a task state segment.
pub const IST_SLOTS: usize = 7;

/// Number of privilege-level stack pointers in a task state segment.
pub const RSP_SLOTS: usize = 3;

/// Byte size of the hardware task state segment, minus one: the limit its
/// descriptor carries.
pub const TSS_LIMIT: u64 = 0x67;

/// The task state segment: the alternate stacks of the interrupt stack
/// table and the privilege-transition stacks. Slot 0 of the interrupt stack
/// table is reserved for the fatal double-fault handler and must point at a
/// stack shared with nothing else.
pub struct Tss {
    ist: Vec<u64>,
    rsp: Vec<u64>,
}

impl Tss {
    /// A task state segment has exactly the hardware slot counts.
    pub open spec fn wf(&self) -> bool {
        self.spec_ist().len() == IST_SLOTS && self.spec_rsp().len() == RSP_SLOTS
    }

    /// The interrupt-stack-table slots.
    pub closed spec fn spec_ist(&self) -> Seq<u64> {
        self.ist@
    }

    /// The privilege-transition stack slots.
    pub closed spec fn spec_rsp(&self) -> Seq<u64> {
        self.rsp@
    }

    /// A task state segment with every stack slot empty.
    pub fn new() -> (r: Tss)
        ensures
            r.wf(),
            forall|i: int| 0 <= i < IST_SLOTS ==> r.spec_ist()[i] == 0,
            forall|i: int| 0 <= i < RSP_SLOTS ==> r.spec_rsp()[i] == 0,
    {
        let mut ist: Vec<u64> = Vec::new();
        let mut i: usize = 0;
        while i < IST_SLOTS
            invariant
                i <= IST_SLOTS,
                ist@.len() == i,
                forall|k: int| 0 <= k < i ==> ist@[k] == 0,
            decreases IST_SLOTS - i,
        {
            ist.push(0);
            i += 1;
        }
        let mut rsp: Vec<u64> = Vec::new();
        let mut j: usize = 0;
        while j < RSP_SLOTS
            invariant
                j <= RSP_SLOTS,
                rsp@.len() == j,
                forall|k: int| 0 <= k < j ==> rsp@[k] == 0,
            decreases RSP_SLOTS - j,
        {
            rsp.push(0);
            j += 1;
        }
        Tss { ist, rsp }
    }

    /// Points interrupt-stack-table slot `slot` at the stack whose top is
    /// `stack_top`.
    pub fn set_ist(&mut self, slot: usize, stack_top: u64)
        requires
            old(self).wf(),
            slot < IST_SLOTS,
        ensures
            final(self).wf(),
            final(self).spec_ist() == old(self).spec_ist().update(slot as int, stack_top),
            final(self).spec_rsp() == old(self).spec_rsp(),
    {
        self.ist.set(slot, stack_top);
    }

    /// The stack top in interrupt-stack-table slot `slot`.
    pub fn ist(&self, slot: usize) -> (r: u64)
        requires
            self.wf(),
            slot < IST_SLOTS,
        ensures
            r == self.spec_ist()[slot as int],
    {
        self.ist[slot]
    }
}

/// The low word of the 16-byte task-segment descriptor for a task state
/// segment at `base`: limit, base bits 0 to 23, the available-64-bit-TSS
/// type with present set, and base bits 24 to 31.
pub open spec fn tss_desc_low(base: u64) -> u64 {
    TSS_LIMIT | ((base & 0xFF_FFFF) << 16) | (0x89u64 << 40) | (((base >> 24) & 0xFF) << 56)
}

/// The high word of the task-segment descriptor: base bits 32 to 63, with
/// the reserved bits zero.
pub open spec fn tss_desc_high(base: u64) -> u64 {
    base >> 32
}

/// Packs the two words of the task-segment descriptor for a task state
/// segment at `base`.
pub fn tss_descriptor(base: u64) -> (r: (u64, u64))
    ensures
        r.0 == tss_desc_low(base),
        r.1 == tss_desc_high(base),
{
    let low: u64 = TSS_LIMIT | ((base & 0xFF_FFFF) << 16) | (0x89u64 << 40) | (((base >> 24)
        & 0xFF) << 56);
    let high: u64 = base >> 32;
    (low, high)
}

/// Unpacking the task-segment descriptor recovers the base address it was
/// built from.
pub proof fn lemma_tss_desc_roundtrip(base: u64)
    ensures
        (tss_desc_low(base) >> 16) & 0xFF_FFFF == base & 0xFF_FFFF,
        (tss_desc_low(base) >> 56) & 0xFF == (base >> 24) & 0xFF,
        tss_desc_high(base) << 32 | ((tss_desc_low(base) >> 56) & 0xFF) << 24 | ((tss_desc_low(
            base,
        ) >> 16) & 0xFF_FFFF) == base,
{
    let low = tss_desc_low(base);
    let high = tss_desc_high(base);
    assert((((0x67u64 | ((base & 0xFF_FFFF) << 16) | (0x89u64 << 40) | (((base >> 24) & 0xFF)
        << 56)) >> 16) & 0xFF_FFFF) == base & 0xFF_FFFF) by (bit_vector);
    assert((((0x67u64 | ((base & 0xFF_FFFF) << 16) | (0x89u64 << 40) | (((base >> 24) & 0xFF)
        << 56)) >> 56) & 0xFF) == (base >> 24) & 0xFF) by (bit_vector);
    assert((base >> 32) << 32 | ((base >> 24) & 0xFF) << 24 | (base & 0xFF_FFFF) == base)
        by (bit_vector);
}

/// The global descriptor table under construction: a short ordered sequence
/// of descriptor words whose index 0 stays the null descriptor the
/// architecture reserves.
pub struct Gdt {
    table: Vec<u64>,
}

impl Gdt {
    /// Index 0 is null, and the table fits what one descriptor-table load
    /// can address.
    pub open spec fn wf(&self) -> bool {
        1 <= self@.len() <= 8192 && self@[0] == 0
    }

    /// The descriptor words, in table order.
    pub closed spec fn view(&self) -> Seq<u64> {
        self.table@
    }

    /// A table holding only the reserved null descriptor.
    pub fn new() -> (r: Gdt)
        ensures
            r.wf(),
            r@ =~= seq![0u64],
    {
        let mut table: Vec<u64> = Vec::new();
        table.push(0);
        Gdt { table }
    }

    /// Number of descriptor words in the table.
    pub fn len(&self) -> (r: usize)
        ensures
            r == self@.len(),
    {
        self.table.len()
    }

    /// The descriptor word at `index`.
    pub fn descriptor(&self, index: usize) -> (r: u64)
        requires
            index < self@.len(),
        ensures
            r == self@[index as int],
    {
        self.table[index]
    }

    /// Appends an ordinary one-word descriptor; returns its selector (the
    /// byte offset of the new descriptor).
    pub fn add_entry(&mut self, descriptor: u64) -> (selector: u16)
        requires
            old(self).wf(),
            old(self)@.len() < 8192,
        ensures
            final(self).wf(),
            final(self)@ == old(self)@.push(descriptor),
            selector == old(self)@.len() * 8,
    {
        let selector = (self.table.len() * 8) as u16;
        self.table.push(descriptor);
        selector
    }

    /// Appends the two-word task-segment descriptor for a task state
    /// segment at `tss_base`; returns the task selector.
    pub fn add_tss_entry(&mut self, tss_base: u64) -> (selector: u16)
        requires
            old(self).wf(),
            old(self)@.len() < 8191,
        ensures
            final(self).wf(),
            final(self)@ == old(self)@.push(tss_desc_low(tss_base)).push(tss_desc_high(tss_base)),
            selector == old(self)@.len() * 8,
    {
        let (low, high) = tss_descriptor(tss_base);
        let selector = (self.table.len() * 8) as u16;
        self.table.push(low);
        self.table.push(high);
        selector
    }
}

/// A descriptor-table pointer as the privileged load instruction takes it:
/// the table's byte size minus one, and its base address.
pub struct Pointer {
    /// Byte size of the table, minus one.
    pub limit: u16,
    /// Address of the table's first descriptor.
    pub base: u64,
}

impl Pointer {
    /// The pointer for a table of `count` descriptor words at `base`.
    pub fn new(base: u64, count: usize) -> (r: Pointer)
        requires
            1 <= count,
            count * 8 <= 0x1_0000,
        ensures
            r.limit == count * 8 - 1,
            r.base == base,
    {
        Pointer { limit: (count * 8 - 1) as u16, base }
    }
}

/// The pure construction step of segment bootstrap: the table holding the
/// reserved null descriptor, the 64-bit code descriptor with the accessed
/// bit pre-set, and the task descriptor for the task state segment at
/// `tss_base`. Returns the table and the code and task selectors the
/// privileged reloads use.
pub fn build_boot_gdt(tss_base: u64) -> (r: (Gdt, u16, u16))
    ensures
        r.0.wf(),
        r.0@.len() == 4,
        r.0@[0] == 0,
        r.0@[1] == CODE64,
        r.0@[2] == tss_desc_low(tss_base),
        r.0@[3] == tss_desc_high(tss_base),
        r.1 == 8,
        r.2 == 16,
{
    let mut gdt = Gdt::new();
    let code_selector = gdt.add_entry(CODE64);
    let tss_selector = gdt.add_tss_entry(tss_base);
    (gdt, code_selector, tss_selector)
}

} // verus!
