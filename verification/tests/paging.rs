use rak::paging::{build_tree, make_pml2s, make_ptr_table, Entry, Table};
use rak::LogBuffer;

#[test]
fn entry_packs_address_and_flags() {
    let e = Entry::leaf_entry(0x20_0000, 0x83);
    assert_eq!(e.bits(), 0x20_0083);
    assert_eq!(e.addr(), 0x20_0000);
    assert_eq!(e.flags(), 0x83);

    let p = Entry::ptr_entry(0x1000, 0x3);
    assert_eq!(p.bits(), 0x1003);
    assert_eq!(p.addr(), 0x1000);
    assert_eq!(p.flags(), 0x3);

    assert_eq!(Entry::new().bits(), 0);
}

#[test]
fn entry_roundtrip_across_levels() {
    // Terminal entries of every second-level table, and pointer entries of
    // the higher levels, decode back to the address they were built from.
    let tree = build_tree(0, &vec![0x10_0000, 0x10_1000, 0x10_2000, 0x10_3000], 0x3000);
    assert_eq!(tree.l4.entry(0).addr(), 0x3000);
    assert_eq!(tree.l3.entry(0).addr(), 0x10_0000);
    assert_eq!(tree.l3.entry(3).addr(), 0x10_3000);
    for i in 0..4usize {
        for j in [0usize, 1, 255, 511] {
            let e = tree.l2s[i].entry(j);
            let k = (i * 512 + j) as u64;
            assert_eq!(e.addr(), k * 0x20_0000);
            assert_eq!(e.flags(), 0x83);
        }
    }
}

#[test]
fn identity_map_strides() {
    // One terminal entry per large page, addresses in large-page strides
    // from the start, flags present + writable + large.
    for gib in [1usize, 2, 4] {
        let tables = make_pml2s(0, gib);
        assert_eq!(tables.len(), gib);
        let mut count = 0usize;
        for i in 0..gib {
            for j in 0..512usize {
                let e = tables[i].entry(j);
                let k = (i * 512 + j) as u64;
                assert_eq!(e.bits(), k * 0x20_0000 + 0x83);
                count += 1;
            }
        }
        // Exactly S / (large-page size) terminal entries.
        assert_eq!(count, gib * 0x4000_0000 / 0x20_0000);
    }
}

#[test]
fn identity_map_nonzero_start() {
    let tables = make_pml2s(0x4000_0000, 1);
    assert_eq!(tables[0].entry(0).bits(), 0x4000_0083);
    assert_eq!(tables[0].entry(1).bits(), 0x4020_0083);
    assert_eq!(tables[0].entry(511).addr(), 0x4000_0000 + 511 * 0x20_0000);
}

#[test]
fn ptr_table_fills_prefix_and_leaves_rest_null() {
    let t: Table = make_ptr_table(&vec![0x1000, 0x2000]);
    assert_eq!(t.entry(0).bits(), 0x1003);
    assert_eq!(t.entry(1).bits(), 0x2003);
    assert_eq!(t.entry(2).bits(), 0);
    assert_eq!(t.entry(511).bits(), 0);
}

#[test]
fn log_tables_writes_decoded_dump() {
    let tree = build_tree(0, &vec![0x1_0000, 0x1_1000, 0x1_2000, 0x1_3000], 0x3000);
    let mut buf = LogBuffer::new();
    assert!(rak::paging::log_tables(&mut buf, &tree));
    let lines = buf.lines();
    assert_eq!(lines.len(), 12);
    assert_eq!(lines[0], "L4 entry: addr=0x3000 flags=0x3");
    assert_eq!(lines[1], "L3 entry: addr=0x10000 flags=0x3");
    assert_eq!(lines[2], "L2 entry: addr=0x0 flags=0x83");
    assert_eq!(lines[3], "L2 entry: addr=0x200000 flags=0x83");
    assert_eq!(lines[11], "L2 entry: addr=0x1200000 flags=0x83");
}

#[test]
fn pages_start_zeroed() {
    let page = rak::memory::Page::new();
    assert_eq!(page.byte(0), 0);
    assert_eq!(page.byte(4095), 0);
    let heap = rak::memory::Heap::new();
    assert_eq!(heap.num_pages(), 1000);
}
