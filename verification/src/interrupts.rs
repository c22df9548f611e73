//! The interrupt vector table and the handler-side bookkeeping: gate
//! descriptors packed bit-exactly, the 256-entry table the privileged load
//! instruction installs, and the decisions each handler takes.
//!
//! The breakpoint gate is diagnostic and resumes execution; the double-fault
//! gate is fatal and runs on the isolated stack slot of the task state
//! segment; the hardware-interrupt gates sit at the vector range the
//! controller remap chose. The trap path itself (the CPU calling through a
//! gate) and the port reads of handlers live in the unverified platform
//! layer, which hands the values read into the functions here.

use vstd::prelude::*;

use crate::numfmt::{hex_string, spec_hex};
use crate::pic8259::{bit16, spec_in_service, spec_irq, spec_is_slave, ChainedPics, PicsView, RegSelect};
use crate::Plat;

verus! {

/// First vector the interrupt controller dispatches to after remap.
pub const PIC_START: u8 = 0x20;

/// One past the last controller vector.
pub const PIC_END: u8 = 0x30;

/// Controller line of the timer.
pub const TIMER_IRQ: u8 = 0;

/// Controller line of the keyboard.
pub const KEYBOARD_IRQ: u8 = 1;

/// Vector of the breakpoint exception.
pub const BREAKPOINT_VECTOR: u8 = 3;

/// Vector of the double-fault exception.
pub const DOUBLE_FAULT_VECTOR: u8 = 8;

/// Interrupt-stack-table slot reserved for the double-fault handler.
pub const DOUBLE_FAULT_IST_IDX: u16 = 0;

/// Number of gate descriptors in the vector table.
pub const IDT_ENTRIES: usize = 256;

/// The low word of a gate descriptor: handler bits 0 to 15, the code
/// selector, the interrupt-stack-table choice (0 for none, slot + 1
/// otherwise), the interrupt-gate type, the present bit, and handler bits
/// 16 to 31.
pub open spec fn gate_low(handler: u64, selector: u16, ist: u16) -> u64 {
    (handler & 0xFFFF) | ((selector as u64) << 16) | ((ist as u64) << 32) | (0xEu64 << 40) | (
    1u64 << 47) | (((handler >> 16) & 0xFFFF) << 48)
}

/// The high word of a gate descriptor: handler bits 32 to 63, reserved bits
/// zero.
pub open spec fn gate_high(handler: u64) -> u64 {
    handler >> 32
}

/// The handler address a gate descriptor pair encodes.
pub open spec fn gate_handler_of(low: u64, high: u64) -> u64 {
    (low & 0xFFFF) | (((low >> 48) & 0xFFFF) << 16) | ((high & 0xFFFF_FFFF) << 32)
}

/// The code selector a gate descriptor encodes.
pub open spec fn gate_selector_of(low: u64) -> u64 {
    (low >> 16) & 0xFFFF
}

/// The interrupt-stack-table choice a gate descriptor encodes.
pub open spec fn gate_ist_of(low: u64) -> u64 {
    (low >> 32) & 0x7
}

/// Whether a gate descriptor is marked present.
pub open spec fn gate_present(low: u64) -> bool {
    (low >> 47) & 1 == 1
}

/// Decoding a packed gate descriptor recovers the handler address, the
/// code selector and the stack-table choice, and shows a present gate.
pub proof fn lemma_gate_roundtrip(handler: u64, selector: u16, ist: u16)
    requires
        ist <= 7,
    ensures
        gate_handler_of(gate_low(handler, selector, ist), gate_high(handler)) == handler,
        gate_selector_of(gate_low(handler, selector, ist)) == selector,
        gate_ist_of(gate_low(handler, selector, ist)) == ist,
        gate_present(gate_low(handler, selector, ist)),
{
    let low = gate_low(handler, selector, ist);
    let s = selector as u64;
    let i = ist as u64;
    assert({
        let lo = (handler & 0xFFFF) | (s << 16) | (i << 32) | (0xEu64 << 40) | (1u64 << 47) | ((
        (handler >> 16) & 0xFFFF) << 48);
        &&& (lo & 0xFFFF) | (((lo >> 48) & 0xFFFF) << 16) | (((handler >> 32) & 0xFFFF_FFFF) << 32)
            == handler
        &&& (lo >> 16) & 0xFFFF == s
        &&& (lo >> 32) & 0x7 == i
        &&& (lo >> 47) & 1 == 1
    }) by (bit_vector)
        requires
            s < 0x1_0000,
            i <= 7,
    ;
}

/// One gate descriptor: the raw pair of words the CPU reads.
#[derive(Clone, Copy, Debug, PartialEq, Eq, Structural)]
pub struct GateDescriptor {
    /// First word: handler low bits, selector, stack choice, type, present.
    pub low: u64,
    /// Second word: handler high bits.
    pub high: u64,
}

impl GateDescriptor {
    /// A gate that is not present.
    pub fn empty() -> (r: GateDescriptor)
        ensures
            r == (GateDescriptor { low: 0, high: 0 }),
    {
        GateDescriptor { low: 0, high: 0 }
    }

    /// A present interrupt gate: `handler` is the entry point, `selector`
    /// the code segment, and a nonzero `ist` names the alternate stack
    /// slot `ist - 1`.
    pub fn new(handler: u64, selector: u16, ist: u16) -> (r: GateDescriptor)
        requires
            ist <= 7,
        ensures
            r.low == gate_low(handler, selector, ist),
            r.high == gate_high(handler),
            gate_handler_of(r.low, r.high) == handler,
            gate_selector_of(r.low) == selector,
            gate_ist_of(r.low) == ist,
            gate_present(r.low),
    {
        let low: u64 = (handler & 0xFFFF) | ((selector as u64) << 16) | ((ist as u64) << 32) | (
        0xEu64 << 40) | (1u64 << 47) | (((handler >> 16) & 0xFFFF) << 48);
        let high: u64 = handler >> 32;
        proof {
            lemma_gate_roundtrip(handler, selector, ist);
        }
        GateDescriptor { low, high }
    }
}

/// The interrupt vector table: one gate descriptor per possible vector,
/// mutated only during bootstrap and read by the hardware on every
/// interrupt.
pub struct Idt {
    entries: Vec<GateDescriptor>,
}

impl Idt {
    /// The table has one gate per possible vector number.
    pub open spec fn wf(&self) -> bool {
        self@.len() == IDT_ENTRIES
    }

    /// The gates, in vector order.
    pub closed spec fn view(&self) -> Seq<GateDescriptor> {
        self.entries@
    }

    /// A table of absent gates.
    pub fn new() -> (r: Idt)
        ensures
            r.wf(),
            forall|v: int| 0 <= v < IDT_ENTRIES ==> r@[v] == (GateDescriptor { low: 0, high: 0 }),
    {
        let mut entries: Vec<GateDescriptor> = Vec::new();
        let mut v: usize = 0;
        while v < IDT_ENTRIES
            invariant
                v <= IDT_ENTRIES,
                entries@.len() == v,
                forall|k: int| 0 <= k < v ==> entries@[k] == (GateDescriptor { low: 0, high: 0 }),
            decreases IDT_ENTRIES - v,
        {
            entries.push(GateDescriptor::empty());
            v += 1;
        }
        Idt { entries }
    }

    /// Installs `gate` at vector `vector`.
    pub fn set_handler(&mut self, vector: u8, gate: GateDescriptor)
        requires
            old(self).wf(),
        ensures
            final(self).wf(),
            final(self)@ == old(self)@.update(vector as int, gate),
    {
        self.entries.set(vector as usize, gate);
    }

    /// The installed gate for one vector number.
    pub fn entry(&self, vector: u8) -> (r: GateDescriptor)
        requires
            self.wf(),
        ensures
            r == self@[vector as int],
    {
        self.entries[vector as usize]
    }
}

/// The pure construction step of interrupt bootstrap: the breakpoint gate,
/// the double-fault gate bound to the reserved isolated stack slot, and the
/// timer and keyboard gates at the remapped controller vectors; every other
/// gate stays absent. All gates go through the code selector `cs` of the
/// already-installed segment bootstrap.
pub fn build_boot_idt(cs: u16, breakpoint: u64, double_fault: u64, timer: u64, keyboard: u64) -> (r:
    Idt)
    ensures
        r.wf(),
        r@[BREAKPOINT_VECTOR as int] == (GateDescriptor {
            low: gate_low(breakpoint, cs, 0),
            high: gate_high(breakpoint),
        }),
        r@[DOUBLE_FAULT_VECTOR as int] == (GateDescriptor {
            low: gate_low(double_fault, cs, (DOUBLE_FAULT_IST_IDX + 1) as u16),
            high: gate_high(double_fault),
        }),
        r@[PIC_START as int + TIMER_IRQ] == (GateDescriptor {
            low: gate_low(timer, cs, 0),
            high: gate_high(timer),
        }),
        r@[PIC_START as int + KEYBOARD_IRQ] == (GateDescriptor {
            low: gate_low(keyboard, cs, 0),
            high: gate_high(keyboard),
        }),
        forall|v: int|
            0 <= v < IDT_ENTRIES && v != BREAKPOINT_VECTOR && v != DOUBLE_FAULT_VECTOR && v
                != (PIC_START + TIMER_IRQ) as u8 && v != (PIC_START + KEYBOARD_IRQ) as u8 ==> r@[v]
                == (GateDescriptor { low: 0, high: 0 }),
{
    let mut idt = Idt::new();
    idt.set_handler(BREAKPOINT_VECTOR, GateDescriptor::new(breakpoint, cs, 0));
    idt.set_handler(
        DOUBLE_FAULT_VECTOR,
        GateDescriptor::new(double_fault, cs, DOUBLE_FAULT_IST_IDX + 1),
    );
    idt.set_handler((PIC_START + TIMER_IRQ) as u8, GateDescriptor::new(timer, cs, 0));
    idt.set_handler((PIC_START + KEYBOARD_IRQ) as u8, GateDescriptor::new(keyboard, cs, 0));
    idt
}

/// The diagnostic line of the breakpoint handler.
pub open spec fn breakpoint_line(instruction_pointer: u64) -> Seq<char> {
    "BREAKPOINT at 0x"@ + spec_hex(instruction_pointer as nat)
}

/// The breakpoint handler's work: report the interrupted instruction
/// pointer and resume. Nothing is acknowledged — the exception comes from
/// the CPU, not the interrupt controller.
pub fn handle_breakpoint<P: Plat>(plat: &mut P, instruction_pointer: u64) -> (ok: bool)
    ensures
        ok ==> final(plat).log_view() == old(plat).log_view().push(
            breakpoint_line(instruction_pointer),
        ),
        !ok ==> final(plat).log_view() == old(plat).log_view(),
{
    let mut line = String::from_str("BREAKPOINT at 0x");
    line.append(hex_string(instruction_pointer).as_str());
    proof {
        assert(line@ =~= breakpoint_line(instruction_pointer));
    }
    plat.log_line(line.as_str())
}

/// The diagnostic line of the double-fault handler.
pub open spec fn double_fault_line(instruction_pointer: u64, cpu_flags: u64) -> Seq<char> {
    "DOUBLE FAULT at 0x"@ + spec_hex(instruction_pointer as nat) + " flags=0x"@ + spec_hex(
        cpu_flags as nat,
    )
}

/// The double-fault handler's reporting step: the captured instruction
/// pointer and flags to the sink. The fault itself is always fatal — after
/// this report the platform halts rather than returning to normal
/// execution, and its vector selects the isolated stack slot so the report
/// never touches the possibly corrupt normal stack.
pub fn handle_double_fault<P: Plat>(plat: &mut P, instruction_pointer: u64, cpu_flags: u64) -> (ok:
    bool)
    ensures
        ok ==> final(plat).log_view() == old(plat).log_view().push(
            double_fault_line(instruction_pointer, cpu_flags),
        ),
        !ok ==> final(plat).log_view() == old(plat).log_view(),
{
    let mut line = String::from_str("DOUBLE FAULT at 0x");
    line.append(hex_string(instruction_pointer).as_str());
    line.append(" flags=0x");
    line.append(hex_string(cpu_flags).as_str());
    proof {
        assert(line@ =~= double_fault_line(instruction_pointer, cpu_flags));
    }
    plat.log_line(line.as_str())
}

/// The timer handler's work: a tick mark to the sink, then acknowledgement
/// of the timer vector. Returns which end-of-interrupt commands the
/// platform layer must send, `(master, slave)`.
pub fn handle_timer<P: Plat>(plat: &mut P, pics: &mut ChainedPics) -> (eoi: (bool, bool))
    ensures
        final(plat).log_view() == old(plat).log_view().push("."@) || final(plat).log_view() == old(plat).log_view(),
        eoi.0 == (spec_is_slave(old(pics)@, (PIC_START + TIMER_IRQ) as u8) || spec_in_service(
            old(pics)@,
            (PIC_START + TIMER_IRQ) as u8,
        )),
        eoi.1 == (spec_is_slave(old(pics)@, (PIC_START + TIMER_IRQ) as u8) && spec_in_service(
            old(pics)@,
            (PIC_START + TIMER_IRQ) as u8,
        )),
        final(pics)@ == (match spec_irq(old(pics)@, (PIC_START + TIMER_IRQ) as u8) {
            Some(line) => PicsView {
                select: RegSelect::InService,
                isr: if bit16(old(pics)@.isr, line as u16) {
                    old(pics)@.isr & !(1u16 << (line as u16))
                } else {
                    old(pics)@.isr
                },
                ..old(pics)@
            },
            None => old(pics)@,
        }),
{
    let _ = plat.log_line(".");
    pics.cleanup_interrupt((PIC_START + TIMER_IRQ) as u8)
}

/// The diagnostic line of the keyboard handler for a scan code.
pub open spec fn scancode_line(scancode: u8) -> Seq<char> {
    "scancode 0x"@ + spec_hex(scancode as nat)
}

/// The keyboard handler's work: report the scan code the platform layer
/// read from the keyboard port, then acknowledge the keyboard vector.
/// Returns which end-of-interrupt commands the platform layer must send.
pub fn handle_keyboard<P: Plat>(plat: &mut P, pics: &mut ChainedPics, scancode: u8) -> (eoi: (
    bool,
    bool,
))
    ensures
        final(plat).log_view() == old(plat).log_view().push(scancode_line(scancode)) || final(plat).log_view() == old(plat).log_view(),
        eoi.0 == (spec_is_slave(old(pics)@, (PIC_START + KEYBOARD_IRQ) as u8) || spec_in_service(
            old(pics)@,
            (PIC_START + KEYBOARD_IRQ) as u8,
        )),
        eoi.1 == (spec_is_slave(old(pics)@, (PIC_START + KEYBOARD_IRQ) as u8) && spec_in_service(
            old(pics)@,
            (PIC_START + KEYBOARD_IRQ) as u8,
        )),
        final(pics)@ == (match spec_irq(old(pics)@, (PIC_START + KEYBOARD_IRQ) as u8) {
            Some(line) => PicsView {
                select: RegSelect::InService,
                isr: if bit16(old(pics)@.isr, line as u16) {
                    old(pics)@.isr & !(1u16 << (line as u16))
                } else {
                    old(pics)@.isr
                },
                ..old(pics)@
            },
            None => old(pics)@,
        }),
{
    let mut line = String::from_str("scancode 0x");
    line.append(hex_string(scancode as u64).as_str());
    proof {
        assert(line@ =~= scancode_line(scancode));
    }
    let _ = plat.log_line(line.as_str());
    pics.cleanup_interrupt((PIC_START + KEYBOARD_IRQ) as u8)
}

/// The diagnostic line of `log_pic_regs` for a controller state.
pub open spec fn pic_regs_line(v: PicsView) -> Seq<char> {
    "IRR=0x"@ + spec_hex(v.irr as nat) + ", ISR=0x"@ + spec_hex(v.isr as nat) + ", IMR=0x"@
        + spec_hex(v.imr as nat)
}

/// Writes the controller's three status registers to the diagnostic sink in
/// one line. The reads leave the in-service register selected on the
/// command port.
pub fn log_pic_regs<P: Plat>(plat: &mut P, pics: &mut ChainedPics) -> (ok: bool)
    ensures
        ok ==> final(plat).log_view() == old(plat).log_view().push(pic_regs_line(old(pics)@)),
        !ok ==> final(plat).log_view() == old(plat).log_view(),
        final(pics)@ == (PicsView { select: RegSelect::InService, ..old(pics)@ }),
{
    let irr = pics.read_irr();
    let isr = pics.read_isr();
    let imr = pics.read_imr();
    let mut line = String::from_str("IRR=0x");
    line.append(hex_string(irr as u64).as_str());
    line.append(", ISR=0x");
    line.append(hex_string(isr as u64).as_str());
    line.append(", IMR=0x");
    line.append(hex_string(imr as u64).as_str());
    proof {
        assert(line@ =~= pic_regs_line(old(pics)@));
    }
    plat.log_line(line.as_str())
}

} // verus!
