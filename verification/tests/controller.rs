use rak::interrupts::{
    handle_breakpoint, handle_double_fault, handle_keyboard, handle_timer, log_pic_regs,
};
use rak::pic8259::{remap_sequence, ChainedPics, PortWrite};
use rak::LogBuffer;

#[test]
fn remap_preserves_mask() {
    let mut pics = ChainedPics::new();
    pics.set_imr(0xbeef);
    assert_eq!(pics.read_imr(), 0xbeef);
    pics.remap(0x20, 0x30);
    assert_eq!(pics.read_imr(), 0xbeef);

    pics.set_imr(0b1111_1111_1111_1100);
    pics.remap(0x40, 0x50);
    assert_eq!(pics.read_imr(), 0b1111_1111_1111_1100);
}

#[test]
fn irq_ownership_lookup() {
    let mut pics = ChainedPics::new();
    pics.remap(0x20, 0x30);
    assert_eq!(pics.irq(0x20), Some(0));
    assert_eq!(pics.irq(0x27), Some(7));
    assert_eq!(pics.irq(0x28), Some(8));
    assert_eq!(pics.irq(0x29), Some(9));
    assert_eq!(pics.irq(0x2f), Some(15));
    assert_eq!(pics.irq(0x1f), None);
    assert_eq!(pics.irq(0x30), None);
    assert!(pics.handles_interrupt(0x20));
    assert!(!pics.handles_interrupt(0x30));
}

#[test]
fn power_on_ranges() {
    let pics = ChainedPics::new();
    assert_eq!(pics.irq(0x08), Some(0));
    assert_eq!(pics.irq(0x70), Some(8));
    assert_eq!(pics.irq(0x20), None);
}

#[test]
fn acknowledgement_decision_table() {
    // (owner is slave, line in service) -> (master EOI, slave EOI)
    assert_eq!(ChainedPics::eoi_decision(false, true), (true, false));
    assert_eq!(ChainedPics::eoi_decision(false, false), (false, false));
    assert_eq!(ChainedPics::eoi_decision(true, true), (true, true));
    assert_eq!(ChainedPics::eoi_decision(true, false), (true, false));
}

#[test]
fn acknowledgement_through_the_driver() {
    let mut pics = ChainedPics::new();
    pics.remap(0x20, 0x30);
    pics.set_imr(0);

    // Master line genuinely in service.
    pics.raise_irq(0);
    assert_eq!(pics.deliver(), Some(0x20));
    assert!(pics.servicing_interrupt(0x20));
    assert_eq!(pics.cleanup_interrupt(0x20), (true, false));
    assert!(!pics.servicing_interrupt(0x20));

    // Master vector that was never in service: no acknowledgement at all.
    assert_eq!(pics.cleanup_interrupt(0x21), (false, false));

    // Slave line genuinely in service: both controllers acknowledged.
    pics.raise_irq(9);
    assert_eq!(pics.deliver(), Some(0x29));
    assert_eq!(pics.cleanup_interrupt(0x29), (true, true));

    // Spurious slave vector: the cascade cost the master a dispatch, but
    // the slave must not lose an acknowledgement it never owed.
    assert_eq!(pics.read_isr(), 0);
    assert_eq!(pics.cleanup_interrupt(0x2a), (true, false));
    assert_eq!(pics.read_isr(), 0);

    // A vector outside both ranges is not acknowledged anywhere.
    assert_eq!(pics.cleanup_interrupt(0x50), (false, false));
}

#[test]
fn masked_lines_stay_pending() {
    let mut pics = ChainedPics::new();
    pics.remap(0x20, 0x30);
    pics.set_imr(0xffff);
    pics.raise_irq(3);
    assert_eq!(pics.deliver(), None);
    assert_eq!(pics.read_irr(), 1 << 3);
    // Unmasking releases the latched request.
    pics.set_imr(0);
    assert_eq!(pics.deliver(), Some(0x23));
}

#[test]
fn delivery_prefers_lowest_line() {
    let mut pics = ChainedPics::new();
    pics.remap(0x20, 0x30);
    pics.set_imr(0);
    pics.raise_irq(12);
    pics.raise_irq(4);
    assert_eq!(pics.deliver(), Some(0x24));
    assert_eq!(pics.deliver(), Some(0x2c));
    assert_eq!(pics.deliver(), None);
}

#[test]
fn boot_sequence_end_to_end() {
    // Segment bootstrap, then interrupt bootstrap, then controller remap
    // and mask, as the boot path runs them.
    let mut tss = rak::gdt::Tss::new();
    tss.set_ist(0, 0x8000);
    let (gdt, code_selector, _tss_selector) = rak::gdt::build_boot_gdt(0x5000);
    assert_eq!(gdt.descriptor(0), 0);
    let idt = rak::interrupts::build_boot_idt(code_selector, 0x100, 0x200, 0x300, 0x400);
    assert_eq!(
        idt.entry(8),
        rak::interrupts::GateDescriptor::new(0x200, code_selector, 1)
    );

    let mut pics = ChainedPics::new();
    pics.remap(0x20, 0x30);
    pics.set_imr(0b1111_1111_1111_1100);
    let mut plat = LogBuffer::new();

    // One timer pulse reaches the timer handler exactly once.
    pics.raise_irq(0);
    assert_eq!(pics.deliver(), Some(0x20));
    assert_eq!(handle_timer(&mut plat, &mut pics), (true, false));
    assert_eq!(pics.deliver(), None);

    // One keyboard pulse reaches the keyboard handler exactly once.
    pics.raise_irq(1);
    assert_eq!(pics.deliver(), Some(0x21));
    assert_eq!(handle_keyboard(&mut plat, &mut pics, 0x2c), (true, false));
    assert_eq!(pics.deliver(), None);

    // A masked line does not reach any handler.
    pics.raise_irq(5);
    assert_eq!(pics.deliver(), None);

    assert_eq!(plat.lines().len(), 2);
    assert_eq!(plat.lines()[0], ".");
    assert_eq!(plat.lines()[1], "scancode 0x2c");
}

#[test]
fn remap_write_sequence() {
    let w = |master: bool, command: bool, value: u8| PortWrite {
        master,
        command,
        value,
    };
    assert_eq!(
        remap_sequence(0x20),
        vec![
            w(true, true, 0x11),
            w(false, true, 0x11),
            w(true, false, 0x20),
            w(false, false, 0x28),
            w(true, false, 0x04),
            w(false, false, 0x02),
            w(true, false, 0x01),
            w(false, false, 0x01),
        ]
    );
}

#[test]
fn double_fault_reports_context() {
    let mut plat = LogBuffer::new();
    assert!(handle_double_fault(&mut plat, 0xfff, 0x202));
    assert_eq!(plat.lines().len(), 1);
    assert_eq!(plat.lines()[0], "DOUBLE FAULT at 0xfff flags=0x202");
}

#[test]
fn breakpoint_reports_and_resumes() {
    let mut plat = LogBuffer::new();
    assert!(handle_breakpoint(&mut plat, 0xdead_beef));
    assert_eq!(plat.lines().len(), 1);
    assert_eq!(plat.lines()[0], "BREAKPOINT at 0xdeadbeef");
}

#[test]
fn register_dump_line() {
    let mut pics = ChainedPics::new();
    pics.remap(0x20, 0x30);
    pics.set_imr(0xfffc);
    pics.raise_irq(1);
    let mut plat = LogBuffer::new();
    assert!(log_pic_regs(&mut plat, &mut pics));
    assert_eq!(plat.lines()[0], "IRR=0x2, ISR=0x0, IMR=0xfffc");
}
