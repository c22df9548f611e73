use rak::gdt::{build_boot_gdt, tss_descriptor, Gdt, Pointer, Tss, CODE64, DESC_ACCESSED};
use rak::interrupts::{build_boot_idt, GateDescriptor, Idt};
use rak::vga::{Color, Style};

#[test]
fn boot_gdt_layout() {
    let (gdt, code_selector, tss_selector) = build_boot_gdt(0x12_3456_7890);
    assert_eq!(gdt.len(), 4);
    // The reserved index-0 descriptor is the null pattern.
    assert_eq!(gdt.descriptor(0), 0);
    assert_eq!(gdt.descriptor(1), CODE64);
    assert_eq!(gdt.descriptor(1), 0x20_9900_0000_0000);
    // The code descriptor has the accessed bit pre-set at construction.
    assert_ne!(gdt.descriptor(1) & DESC_ACCESSED, 0);
    assert_eq!(gdt.descriptor(2), 0x3400_8956_7890_0067);
    assert_eq!(gdt.descriptor(3), 0x12);
    assert_eq!(code_selector, 8);
    assert_eq!(tss_selector, 16);
}

#[test]
fn gdt_null_descriptor_reserved() {
    let mut gdt = Gdt::new();
    assert_eq!(gdt.len(), 1);
    assert_eq!(gdt.descriptor(0), 0);
    let sel = gdt.add_entry(CODE64);
    assert_eq!(sel, 8);
    assert_eq!(gdt.descriptor(0), 0);
}

#[test]
fn tss_descriptor_packing() {
    let (low, high) = tss_descriptor(0x12_3456_7890);
    assert_eq!(low, 0x3400_8956_7890_0067);
    assert_eq!(high, 0x12);
    let (low0, high0) = tss_descriptor(0);
    assert_eq!(low0, 0x8900_0000_0067);
    assert_eq!(high0, 0);
}

#[test]
fn tss_stack_slots() {
    let mut tss = Tss::new();
    for slot in 0..7 {
        assert_eq!(tss.ist(slot), 0);
    }
    tss.set_ist(0, 0x9000);
    assert_eq!(tss.ist(0), 0x9000);
    assert_eq!(tss.ist(1), 0);
}

#[test]
fn table_pointer_limit() {
    let p = Pointer::new(0xb000, 2);
    assert_eq!(p.limit, 15);
    assert_eq!(p.base, 0xb000);
    let p4 = Pointer::new(0x5000, 4);
    assert_eq!(p4.limit, 31);
}

#[test]
fn gate_descriptor_packing() {
    let g = GateDescriptor::new(0x1234_5678_9abc_def0, 8, 1);
    assert_eq!(g.low, 0x9abc_8e01_0008_def0);
    assert_eq!(g.high, 0x1234_5678);
    let e = GateDescriptor::empty();
    assert_eq!(e.low, 0);
    assert_eq!(e.high, 0);
}

#[test]
fn boot_idt_gates() {
    let idt: Idt = build_boot_idt(8, 0xaaa0, 0xbbb0, 0xccc0, 0xddd0);
    assert_eq!(idt.entry(3), GateDescriptor::new(0xaaa0, 8, 0));
    // The double-fault gate switches to the reserved isolated stack slot.
    assert_eq!(idt.entry(8), GateDescriptor::new(0xbbb0, 8, 1));
    assert_eq!(idt.entry(0x20), GateDescriptor::new(0xccc0, 8, 0));
    assert_eq!(idt.entry(0x21), GateDescriptor::new(0xddd0, 8, 0));
    assert_eq!(idt.entry(0), GateDescriptor::empty());
    assert_eq!(idt.entry(0x22), GateDescriptor::empty());
    assert_eq!(idt.entry(255), GateDescriptor::empty());
}

#[test]
fn console_styles() {
    assert_eq!(Color::Black.code(), 0);
    assert_eq!(Color::Yellow.code(), 14);
    assert_eq!(Color::White.code(), 15);
    let s = Style::new(Color::Yellow, Color::Black);
    assert_eq!(s.bits, 14);
    let s2 = Style::new(Color::White, Color::Blue);
    assert_eq!(s2.bits, 31);
    let blank = s.blank();
    assert_eq!(blank.byte, b' ');
    assert_eq!(blank.style, s);
}
