//! The static address-translation table builder.
//!
//! Every entry is one 64-bit word holding a table-aligned physical address
//! plus flag bits in the low-order bits that the alignment guarantees are
//! zero in the raw address. The full tree for an identity mapping is a pure
//! function of the start address and the mapping size: large terminal
//! entries at the second level, one pointer entry per child table above.

use vstd::arithmetic::div_mod::{lemma_add_mod_noop, lemma_mod_multiples_basic, lemma_small_mod};
use vstd::prelude::*;

use crate::numfmt::{hex_string, spec_hex};
use crate::Plat;

verus! {

/// Number of entries in one translation table (the per-level fan-out).
pub const ENTRY_COUNT: usize = 512;

/// Required alignment of a table in bytes; the low bits an aligned address
/// leaves free are exactly the flag bits of an entry.
pub const TABLE_ALIGN: u64 = 4096;

/// Entry flag: the mapping is present.
pub const FLAG_PRESENT: u64 = 0x1;

/// Entry flag: the mapped region is writable.
pub const FLAG_WRITABLE: u64 = 0x2;

/// Entry flag: the entry is a large terminal mapping, not a pointer to a
/// child table.
pub const FLAG_HUGE_PAGE: u64 = 0x80;

/// Flags common to every entry of the tree: present and writable. The flag
/// bits are disjoint, so their sum is their union.
pub const FLAGS: u64 = FLAG_PRESENT + FLAG_WRITABLE;

/// Flags of a second-level terminal entry: present, writable, large.
pub const L2_FLAGS: u64 = FLAGS + FLAG_HUGE_PAGE;

/// Bytes covered by one large terminal page: 2 MiB.
pub const LARGE_PAGE_SIZE: u64 = 0x20_0000;

/// Bytes covered by one full second-level table: 512 large pages, 1 GiB.
pub const TABLE_SPAN: u64 = 0x4000_0000;

/// Number of GiB the default configuration identity maps.
pub const ADDRESS_SPACE_GIB: usize = 4;

/// The address embedded in an entry word: the word with its low flag bits
/// masked out.
pub open spec fn entry_addr_of(bits: u64) -> int {
    bits - (bits % TABLE_ALIGN)
}

/// The flag bits embedded in an entry word.
pub open spec fn entry_flags_of(bits: u64) -> int {
    (bits % TABLE_ALIGN) as int
}

/// Decoding an entry built from a table-aligned address and in-range flags
/// recovers exactly the address and the flags it was built from.
pub proof fn lemma_entry_roundtrip(addr: u64, flags: u64)
    requires
        addr % TABLE_ALIGN == 0,
        flags < TABLE_ALIGN,
        addr + flags <= u64::MAX,
    ensures
        entry_addr_of((addr + flags) as u64) == addr,
        entry_flags_of((addr + flags) as u64) == flags,
{
    lemma_add_mod_noop(addr as int, flags as int, TABLE_ALIGN as int);
    lemma_small_mod(flags as nat, TABLE_ALIGN as nat);
}

/// A table-aligned address stays clear of the top of the address space by a
/// full alignment unit, so adding flag bits never overflows.
proof fn lemma_aligned_headroom(addr: u64)
    requires
        addr % TABLE_ALIGN == 0,
    ensures
        addr + TABLE_ALIGN - 1 <= u64::MAX,
{
    assert(addr % 4096 == 0 ==> addr <= 0xffff_ffff_ffff_f000u64) by (bit_vector);
}

/// One translation-table entry: a single word encoding an aligned address
/// and its flags.
#[derive(Clone, Copy, Debug, PartialEq, Eq, Structural)]
pub struct Entry {
    bits: u64,
}

impl Entry {
    /// The raw word this entry stores.
    pub closed spec fn spec_bits(&self) -> u64 {
        self.bits
    }

    /// An unused (null) entry.
    pub fn new() -> (r: Entry)
        ensures
            r.spec_bits() == 0,
    {
        Entry { bits: 0 }
    }

    /// The raw word this entry stores.
    pub fn bits(&self) -> (r: u64)
        ensures
            r == self.spec_bits(),
    {
        self.bits
    }

    /// A terminal entry mapping the large page at `addr` with `flags`.
    pub fn leaf_entry(addr: u64, flags: u64) -> (r: Entry)
        requires
            addr % TABLE_ALIGN == 0,
            flags < TABLE_ALIGN,
        ensures
            r.spec_bits() == addr + flags,
            entry_addr_of(r.spec_bits()) == addr,
            entry_flags_of(r.spec_bits()) == flags,
    {
        proof {
            lemma_aligned_headroom(addr);
            lemma_entry_roundtrip(addr, flags);
        }
        Entry { bits: addr + flags }
    }

    /// A pointer entry referencing the child table at `table_addr` with
    /// `flags`.
    pub fn ptr_entry(table_addr: u64, flags: u64) -> (r: Entry)
        requires
            table_addr % TABLE_ALIGN == 0,
            flags < TABLE_ALIGN,
        ensures
            r.spec_bits() == table_addr + flags,
            entry_addr_of(r.spec_bits()) == table_addr,
            entry_flags_of(r.spec_bits()) == flags,
    {
        proof {
            lemma_aligned_headroom(table_addr);
            lemma_entry_roundtrip(table_addr, flags);
        }
        Entry { bits: table_addr + flags }
    }

    /// The address this entry embeds, with the flag bits masked back out.
    pub fn addr(&self) -> (r: u64)
        ensures
            r == entry_addr_of(self.spec_bits()),
    {
        self.bits - self.bits % TABLE_ALIGN
    }

    /// The flag bits of this entry.
    pub fn flags(&self) -> (r: u64)
        ensures
            r == entry_flags_of(self.spec_bits()),
    {
        self.bits % TABLE_ALIGN
    }
}

/// One translation table: a fixed fan-out array of entries.
pub struct Table {
    entries: Vec<Entry>,
}

impl Table {
    /// A table is well formed when it has exactly the hardware fan-out.
    pub open spec fn wf(&self) -> bool {
        self@.len() == ENTRY_COUNT
    }

    /// The words of this table's entries, in slot order.
    pub closed spec fn view(&self) -> Seq<u64> {
        self.entries@.map(|_i: int, e: Entry| e.spec_bits())
    }

    /// A table of null entries.
    pub fn new() -> (r: Table)
        ensures
            r.wf(),
            forall|j: int| 0 <= j < ENTRY_COUNT ==> r@[j] == 0,
    {
        let mut entries: Vec<Entry> = Vec::new();
        let mut j: usize = 0;
        while j < ENTRY_COUNT
            invariant
                j <= ENTRY_COUNT,
                entries@.len() == j,
                forall|k: int| 0 <= k < j ==> entries@[k].spec_bits() == 0,
            decreases ENTRY_COUNT - j,
        {
            entries.push(Entry::new());
            j += 1;
        }
        Table { entries }
    }

    /// The entry in slot `j`.
    pub fn entry(&self, j: usize) -> (r: Entry)
        requires
            self.wf(),
            j < ENTRY_COUNT,
        ensures
            r.spec_bits() == self@[j as int],
    {
        self.entries[j]
    }
}

/// The word of the terminal entry for index `k` of an identity mapping that
/// starts at `start`.
pub open spec fn leaf_word(start: u64, k: int) -> int {
    start + k * LARGE_PAGE_SIZE + L2_FLAGS
}

/// Builds the second-level tables of an identity mapping: `gib` tables whose
/// terminal entries map `start..start + gib * TABLE_SPAN` in large-page
/// strides. Entry `k` (counted across all tables) maps exactly the address
/// `start + k * LARGE_PAGE_SIZE`, with the present, writable and large
/// flags and no others.
pub fn make_pml2s(start: u64, gib: usize) -> (r: Vec<Table>)
    requires
        start % TABLE_ALIGN == 0,
        start + gib * TABLE_SPAN <= 0x1_0000_0000_0000_0000,
    ensures
        r@.len() == gib,
        forall|i: int| 0 <= i < gib ==> (#[trigger] r@[i]).wf(),
        forall|i: int, j: int|
            0 <= i < gib && 0 <= j < ENTRY_COUNT ==> #[trigger] r@[i]@[j] == leaf_word(
                start,
                i * ENTRY_COUNT + j,
            ),
        forall|i: int, j: int|
            0 <= i < gib && 0 <= j < ENTRY_COUNT ==> entry_addr_of(#[trigger] r@[i]@[j] as u64)
                == start + (i * ENTRY_COUNT + j) * LARGE_PAGE_SIZE && entry_flags_of(
                r@[i]@[j] as u64,
            ) == L2_FLAGS,
{
    let mut tables: Vec<Table> = Vec::new();
    let mut i: usize = 0;
    while i < gib
        invariant
            start % TABLE_ALIGN == 0,
            start + gib * TABLE_SPAN <= 0x1_0000_0000_0000_0000,
            i <= gib,
            tables@.len() == i,
            forall|a: int| 0 <= a < i ==> (#[trigger] tables@[a]).wf(),
            forall|a: int, b: int|
                0 <= a < i && 0 <= b < ENTRY_COUNT ==> #[trigger] tables@[a]@[b] == leaf_word(
                    start,
                    a * ENTRY_COUNT + b,
                ),
        decreases gib - i,
    {
        proof {
            lemma_mul_le(i + 1, gib as int, TABLE_SPAN as int);
        }
        let table_base: u64 = start + (i as u64) * TABLE_SPAN;
        let mut entries: Vec<Entry> = Vec::new();
        let mut j: usize = 0;
        while j < ENTRY_COUNT
            invariant
                start % TABLE_ALIGN == 0,
                i < gib,
                start + (i + 1) * TABLE_SPAN <= 0x1_0000_0000_0000_0000,
                table_base == start + i * TABLE_SPAN,
                j <= ENTRY_COUNT,
                entries@.len() == j,
                forall|b: int|
                    0 <= b < j ==> (#[trigger] entries@[b]).spec_bits() == leaf_word(
                        start,
                        i as int * ENTRY_COUNT + b,
                    ),
            decreases ENTRY_COUNT - j,
        {
            assert((j as u64) * LARGE_PAGE_SIZE < TABLE_SPAN) by {
                lemma_mul_le(j as int, 511, LARGE_PAGE_SIZE as int);
            };
            let addr: u64 = table_base + (j as u64) * LARGE_PAGE_SIZE;
            assert(addr % TABLE_ALIGN == 0) by {
                lemma_table_stride_aligned(start, i as int, j as int);
            };
            let e = Entry::leaf_entry(addr, L2_FLAGS);
            proof {
                assert(addr == leaf_word(start, i as int * ENTRY_COUNT + j as int) - L2_FLAGS)
                    by (nonlinear_arith)
                    requires
                        addr == start + i * TABLE_SPAN + j * LARGE_PAGE_SIZE,
                        TABLE_SPAN == ENTRY_COUNT * LARGE_PAGE_SIZE,
                ;
            }
            entries.push(e);
            j += 1;
        }
        tables.push(Table { entries });
        i += 1;
    }
    proof {
        assert forall|i: int, j: int| 0 <= i < gib && 0 <= j < ENTRY_COUNT implies entry_addr_of(
            #[trigger] tables@[i]@[j] as u64,
        ) == start + (i * ENTRY_COUNT + j) * LARGE_PAGE_SIZE && entry_flags_of(tables@[i]@[j] as u64)
            == L2_FLAGS by {
            lemma_leaf_word_decodes(start, gib as int, i, j);
        }
    }
    tables
}

/// Multiplying by a non-negative factor preserves order.
proof fn lemma_mul_le(a: int, b: int, c: int)
    by (nonlinear_arith)
    requires
        a <= b,
        0 <= c,
    ensures
        a * c <= b * c,
{
}

/// Every large-page stride from an aligned start is aligned.
proof fn lemma_table_stride_aligned(start: u64, i: int, j: int)
    requires
        start % TABLE_ALIGN == 0,
        0 <= i,
        0 <= j,
        start + i * TABLE_SPAN + j * LARGE_PAGE_SIZE <= u64::MAX,
    ensures
        (start + i * TABLE_SPAN + j * LARGE_PAGE_SIZE) % (TABLE_ALIGN as int) == 0,
{
    let stride = i * TABLE_SPAN + j * LARGE_PAGE_SIZE;
    assert(stride == (i * 0x4_0000 + j * 0x200) * 4096) by (nonlinear_arith)
        requires
            stride == i * 0x4000_0000 + j * 0x20_0000,
    ;
    lemma_mod_multiples_basic(i * 0x4_0000 + j * 0x200, TABLE_ALIGN as int);
    lemma_add_mod_noop(start as int, stride, TABLE_ALIGN as int);
    lemma_small_mod(0, TABLE_ALIGN as nat);
}

/// The terminal-entry words of `make_pml2s` decode to the stride addresses
/// and the terminal flags.
proof fn lemma_leaf_word_decodes(start: u64, gib: int, i: int, j: int)
    requires
        start % TABLE_ALIGN == 0,
        start + gib * TABLE_SPAN <= 0x1_0000_0000_0000_0000,
        0 <= i < gib,
        0 <= j < ENTRY_COUNT,
    ensures
        entry_addr_of(leaf_word(start, i * ENTRY_COUNT + j) as u64) == start + (i * ENTRY_COUNT + j)
            * LARGE_PAGE_SIZE,
        entry_flags_of(leaf_word(start, i * ENTRY_COUNT + j) as u64) == L2_FLAGS,
{
    let k = i * ENTRY_COUNT + j;
    assert(k * LARGE_PAGE_SIZE == i * TABLE_SPAN + j * LARGE_PAGE_SIZE) by (nonlinear_arith)
        requires
            k == i * ENTRY_COUNT + j,
            TABLE_SPAN == ENTRY_COUNT * LARGE_PAGE_SIZE,
    ;
    assert(i * TABLE_SPAN + TABLE_SPAN <= gib * TABLE_SPAN) by (nonlinear_arith)
        requires
            i < gib,
            0 < TABLE_SPAN,
    ;
    assert(j * LARGE_PAGE_SIZE <= 511 * LARGE_PAGE_SIZE) by (nonlinear_arith)
        requires
            j <= 511,
            0 < LARGE_PAGE_SIZE,
    ;
    lemma_table_stride_aligned(start, i, j);
    let addr = (start + k * LARGE_PAGE_SIZE) as u64;
    lemma_entry_roundtrip(addr, L2_FLAGS);
}

/// Builds a higher-level table whose slot `j` points at the child table
/// address `addrs[j]`, with the present and writable flags; the remaining
/// slots stay null.
pub fn make_ptr_table(addrs: &Vec<u64>) -> (r: Table)
    requires
        addrs@.len() <= ENTRY_COUNT,
        forall|a: int| 0 <= a < addrs@.len() ==> #[trigger] addrs@[a] % TABLE_ALIGN == 0,
    ensures
        r.wf(),
        forall|j: int| 0 <= j < addrs@.len() ==> #[trigger] r@[j] == addrs@[j] + FLAGS,
        forall|j: int|
            0 <= j < addrs@.len() ==> entry_addr_of(#[trigger] r@[j] as u64) == addrs@[j]
                && entry_flags_of(r@[j] as u64) == FLAGS,
        forall|j: int| addrs@.len() <= j < ENTRY_COUNT ==> #[trigger] r@[j] == 0,
{
    let mut entries: Vec<Entry> = Vec::new();
    let mut j: usize = 0;
    while j < addrs.len()
        invariant
            addrs@.len() <= ENTRY_COUNT,
            forall|a: int| 0 <= a < addrs@.len() ==> #[trigger] addrs@[a] % TABLE_ALIGN == 0,
            j <= addrs@.len(),
            entries@.len() == j,
            forall|b: int|
                0 <= b < j ==> (#[trigger] entries@[b]).spec_bits() == addrs@[b] + FLAGS
                    && entry_addr_of(entries@[b].spec_bits()) == addrs@[b] && entry_flags_of(
                    entries@[b].spec_bits(),
                ) == FLAGS,
        decreases addrs@.len() - j,
    {
        let e = Entry::ptr_entry(addrs[j], FLAGS);
        entries.push(e);
        j += 1;
    }
    while j < ENTRY_COUNT
        invariant
            addrs@.len() <= j <= ENTRY_COUNT,
            entries@.len() == j,
            forall|b: int|
                0 <= b < addrs@.len() ==> (#[trigger] entries@[b]).spec_bits() == addrs@[b] + FLAGS
                    && entry_addr_of(entries@[b].spec_bits()) == addrs@[b] && entry_flags_of(
                    entries@[b].spec_bits(),
                ) == FLAGS,
            forall|b: int| addrs@.len() <= b < j ==> (#[trigger] entries@[b]).spec_bits() == 0,
        decreases ENTRY_COUNT - j,
    {
        entries.push(Entry::new());
        j += 1;
    }
    Table { entries }
}

/// The full translation tree of an identity mapping: the second-level
/// tables, the third-level table pointing at them, and the root pointing at
/// the third level. The tree holds the table contents; where each table will
/// sit in physical memory is the caller's choice and enters only through the
/// addresses written into the pointer entries.
pub struct TableTree {
    /// Second-level tables of large terminal entries.
    pub l2s: Vec<Table>,
    /// Third-level table: one pointer entry per second-level table.
    pub l3: Table,
    /// Root table: one pointer entry to the third level.
    pub l4: Table,
}

impl TableTree {
    /// Every table of the tree has the hardware fan-out and at least one
    /// second-level table exists.
    pub open spec fn wf(&self) -> bool {
        &&& 1 <= self.l2s@.len() <= ENTRY_COUNT
        &&& forall|i: int| 0 <= i < self.l2s@.len() ==> (#[trigger] self.l2s@[i]).wf()
        &&& self.l3.wf()
        &&& self.l4.wf()
    }
}

/// Builds the whole identity-mapping tree for `start`: one second-level
/// table per entry of `l2_addrs` (the physical address each of those tables
/// will live at), the third level pointing at them, and the root pointing at
/// the third level's own address `l3_addr`.
pub fn build_tree(start: u64, l2_addrs: &Vec<u64>, l3_addr: u64) -> (r: TableTree)
    requires
        start % TABLE_ALIGN == 0,
        1 <= l2_addrs@.len() <= ENTRY_COUNT,
        start + l2_addrs@.len() * TABLE_SPAN <= 0x1_0000_0000_0000_0000,
        forall|a: int| 0 <= a < l2_addrs@.len() ==> #[trigger] l2_addrs@[a] % TABLE_ALIGN == 0,
        l3_addr % TABLE_ALIGN == 0,
    ensures
        r.wf(),
        r.l2s@.len() == l2_addrs@.len(),
        forall|i: int, j: int|
            0 <= i < l2_addrs@.len() && 0 <= j < ENTRY_COUNT ==> #[trigger] r.l2s@[i]@[j]
                == leaf_word(start, i * ENTRY_COUNT + j),
        forall|j: int| 0 <= j < l2_addrs@.len() ==> #[trigger] r.l3@[j] == l2_addrs@[j] + FLAGS,
        forall|j: int| l2_addrs@.len() <= j < ENTRY_COUNT ==> #[trigger] r.l3@[j] == 0,
        r.l4@[0] == l3_addr + FLAGS,
        forall|j: int| 1 <= j < ENTRY_COUNT ==> #[trigger] r.l4@[j] == 0,
{
    let l2s = make_pml2s(start, l2_addrs.len());
    let l3 = make_ptr_table(l2_addrs);
    let mut root_addrs: Vec<u64> = Vec::new();
    root_addrs.push(l3_addr);
    let l4 = make_ptr_table(&root_addrs);
    TableTree { l2s, l3, l4 }
}

/// The diagnostic line for one entry: its decoded address and flags, in
/// hexadecimal, after the given label.
pub open spec fn entry_line(label: Seq<char>, bits: u64) -> Seq<char> {
    label + "addr=0x"@ + spec_hex(entry_addr_of(bits) as nat) + " flags=0x"@ + spec_hex(
        entry_flags_of(bits) as nat,
    )
}

/// Appends the diagnostic line for `e` to the sink.
fn log_entry<P: Plat>(plat: &mut P, label: &str, e: Entry) -> (ok: bool)
    ensures
        ok ==> final(plat).log_view() == old(plat).log_view().push(
            entry_line(label@, e.spec_bits()),
        ),
        !ok ==> final(plat).log_view() == old(plat).log_view(),
{
    let mut line = String::from_str(label);
    line.append("addr=0x");
    line.append(hex_string(e.addr()).as_str());
    line.append(" flags=0x");
    line.append(hex_string(e.flags()).as_str());
    proof {
        assert(line@ =~= entry_line(label@, e.spec_bits()));
    }
    plat.log_line(line.as_str())
}

/// The lines `log_tables` writes for a tree: the root's first entry, the
/// third level's first entry, then the first ten terminal entries.
pub open spec fn tree_lines(tree: TableTree) -> Seq<Seq<char>> {
    seq![
        entry_line("L4 entry: "@, tree.l4@[0] as u64),
        entry_line("L3 entry: "@, tree.l3@[0] as u64),
    ] + Seq::new(10, |k: int| entry_line("L2 entry: "@, tree.l2s@[0]@[k] as u64))
}

/// Writes a short decoded dump of the tree to the diagnostic sink: the root
/// entry, the third-level entry, and the first ten terminal entries. The
/// sink gains exactly a prefix of those lines, in dump order: all of them
/// when every line is accepted — and only then is success reported — or the
/// lines up to but not including the first one the sink refused.
pub fn log_tables<P: Plat>(plat: &mut P, tree: &TableTree) -> (ok: bool)
    requires
        tree.wf(),
    ensures
        ok ==> final(plat).log_view() == old(plat).log_view() + tree_lines(*tree),
        !ok ==> exists|k: int|
            0 <= k < tree_lines(*tree).len() && final(plat).log_view() == old(plat).log_view()
                + tree_lines(*tree).subrange(0, k),
{
    let ghost lines = tree_lines(*tree);
    if !log_entry(plat, "L4 entry: ", tree.l4.entry(0)) {
        proof {
            assert(plat.log_view() =~= old(plat).log_view() + lines.subrange(0, 0));
        }
        return false;
    }
    if !log_entry(plat, "L3 entry: ", tree.l3.entry(0)) {
        proof {
            assert(plat.log_view() =~= old(plat).log_view() + lines.subrange(0, 1));
        }
        return false;
    }
    let mut k: usize = 0;
    while k < 10
        invariant
            tree.wf(),
            k <= 10,
            lines == tree_lines(*tree),
            plat.log_view() =~= old(plat).log_view() + lines.subrange(0, 2 + k),
        decreases 10 - k,
    {
        if !log_entry(plat, "L2 entry: ", tree.l2s[0].entry(k)) {
            proof {
                assert(plat.log_view() =~= old(plat).log_view() + lines.subrange(0, 2 + k));
            }
            return false;
        }
        proof {
            assert(plat.log_view() =~= old(plat).log_view() + lines.subrange(0, 2 + k + 1));
        }
        k += 1;
    }
    proof {
        assert(lines.subrange(0, 12) =~= lines);
        assert(plat.log_view() =~= old(plat).log_view() + lines);
    }
    true
}

} // verus!
