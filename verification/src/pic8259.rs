//! Driver for the legacy chained interrupt controller: two cascaded
//! sub-controllers, each owning eight contiguous interrupt vectors and a
//! pair of I/O ports.
//!
//! The driver carries a register-level model of the pair — vector bases,
//! mask, pending and in-service registers, and which status register the
//! command port currently returns — and every operation's contract states
//! its exact effect on that model. The port writes that carry each operation
//! to the physical controller are issued by the unverified platform layer,
//! which mirrors these operations one for one.

use vstd::prelude::*;

verus! {

/// Input lines owned by one sub-controller.
pub const INTERRUPTS_PER_PIC: u8 = 8;

/// The master input line the slave controller is cascaded through.
pub const SLAVE_INPUT: u8 = 2;

/// First initialization command word: start the four-word sequence, with
/// the fourth word required.
pub const ICW1_INIT: u8 = 0x11;

/// Fourth initialization command word: 8086-compatible operating mode.
pub const ICW4_INTEL_8086: u8 = 0x01;

/// Operation command word: non-specific end of interrupt.
pub const OCW2_EOI: u8 = 0x20;

/// Operation command word selecting the pending-request register for
/// command-port reads.
pub const OCW3_READ_IRR: u8 = 0x0A;

/// Operation command word selecting the in-service register for
/// command-port reads.
pub const OCW3_READ_ISR: u8 = 0x0B;

/// Which status register a command-port read returns, as chosen by the most
/// recent read-select command.
pub enum RegSelect {
    /// The pending-request register.
    Pending,
    /// The in-service register.
    InService,
}

/// The observable state of the chained pair: the two vector-range bases the
/// driver programmed, and the modeled hardware registers. The low byte of
/// each 16-bit register is the master's, the high byte the slave's; bit `i`
/// stands for input line `i`.
pub struct PicsView {
    /// First vector number owned by the master.
    pub master_start: u8,
    /// First vector number owned by the slave.
    pub slave_start: u8,
    /// Interrupt mask: bit `i` set disables line `i`.
    pub imr: u16,
    /// Pending requests: lines raised but not yet dispatched.
    pub irr: u16,
    /// In service: lines dispatched but not yet acknowledged.
    pub isr: u16,
    /// Which register the command port currently reads back.
    pub select: RegSelect,
}

/// Whether bit `i` of `x` is set.
pub open spec fn bit16(x: u16, i: u16) -> bool {
    (x >> i) & 1 == 1
}

/// One sub-controller: the base of the eight contiguous vector numbers it
/// owns.
pub struct Pic {
    start: u8,
}

impl Pic {
    /// The first vector number this sub-controller owns.
    pub closed spec fn spec_start(&self) -> u8 {
        self.start
    }

    /// Whether this sub-controller owns vector `id`.
    pub open spec fn owns(&self, id: u8) -> bool {
        self.spec_start() <= id < self.spec_start() + INTERRUPTS_PER_PIC
    }

    /// The input line behind vector `id`, when this sub-controller owns it.
    pub fn irq(&self, interrupt_id: u8) -> (r: Option<u8>)
        ensures
            r == if self.owns(interrupt_id) {
                Some((interrupt_id - self.spec_start()) as u8)
            } else {
                None::<u8>
            },
    {
        if self.start <= interrupt_id && interrupt_id - self.start < INTERRUPTS_PER_PIC {
            Some(interrupt_id - self.start)
        } else {
            None
        }
    }
}

/// The line number (0 to 15 across the pair) behind vector `id`, if either
/// sub-controller owns it; a master-owned vector wins when the ranges
/// overlap. Lines of the slave are counted from eight.
pub open spec fn spec_irq(v: PicsView, id: u8) -> Option<u8> {
    if v.master_start <= id < v.master_start + INTERRUPTS_PER_PIC {
        Some((id - v.master_start) as u8)
    } else if v.slave_start <= id < v.slave_start + INTERRUPTS_PER_PIC {
        Some((id - v.slave_start + INTERRUPTS_PER_PIC) as u8)
    } else {
        None
    }
}

/// Whether the slave owns vector `id`.
pub open spec fn spec_is_slave(v: PicsView, id: u8) -> bool {
    v.slave_start <= id < v.slave_start + INTERRUPTS_PER_PIC
}

/// Whether the line behind vector `id` is recorded as in service.
pub open spec fn spec_in_service(v: PicsView, id: u8) -> bool {
    match spec_irq(v, id) {
        Some(line) => bit16(v.isr, line as u16),
        None => false,
    }
}

/// Whether bit `bit` of `value` is set, tested by masking.
fn u16_get_bit(value: u16, bit: u16) -> (r: bool)
    requires
        bit < 16,
    ensures
        r == bit16(value, bit),
{
    proof {
        lemma_bit_forms(value, bit);
    }
    (value & (1u16 << bit)) != 0
}

/// The mask test and the shift test of a bit agree.
proof fn lemma_bit_forms(x: u16, i: u16)
    by (bit_vector)
    requires
        i < 16,
    ensures
        ((x & (1u16 << i)) != 0) == ((x >> i) & 1 == 1),
{
}

/// The chained pair with its modeled registers.
pub struct ChainedPics {
    master: Pic,
    slave: Pic,
    imr: u16,
    irr: u16,
    isr: u16,
    select: RegSelect,
}

impl View for ChainedPics {
    type V = PicsView;

    closed spec fn view(&self) -> PicsView {
        PicsView {
            master_start: self.master.start,
            slave_start: self.slave.start,
            imr: self.imr,
            irr: self.irr,
            isr: self.isr,
            select: self.select,
        }
    }
}

/// Vector bases that leave room for eight lines each without wrapping.
pub open spec fn ranges_wf(v: PicsView) -> bool {
    v.master_start + INTERRUPTS_PER_PIC <= 256 && v.slave_start + INTERRUPTS_PER_PIC <= 256
}

impl ChainedPics {
    /// A freshly modeled pair, before any reprogramming: the power-on vector
    /// bases, with the modeled registers taken as cleared.
    pub fn new() -> (r: ChainedPics)
        ensures
            r@ == (PicsView {
                master_start: 0x08,
                slave_start: 0x70,
                imr: 0,
                irr: 0,
                isr: 0,
                select: RegSelect::Pending,
            }),
    {
        ChainedPics {
            master: Pic { start: 0x08 },
            slave: Pic { start: 0x70 },
            imr: 0,
            irr: 0,
            isr: 0,
            select: RegSelect::Pending,
        }
    }

    /// Reprograms the pair to own the sixteen vectors `start..end`, master
    /// first, slave adjacent above. The initialization sequence clears the
    /// controllers' status registers, and the previously programmed mask is
    /// saved across it and written back, so remapping never changes the
    /// mask.
    pub fn remap(&mut self, start: u8, end: u8)
        requires
            end == start + 2 * INTERRUPTS_PER_PIC,
            start % INTERRUPTS_PER_PIC == 0,
        ensures
            final(self)@ == (PicsView {
                master_start: start,
                slave_start: (start + INTERRUPTS_PER_PIC) as u8,
                imr: old(self)@.imr,
                irr: 0,
                isr: 0,
                select: RegSelect::Pending,
            }),
            ranges_wf(final(self)@),
    {
        let imr = self.read_imr();
        // The four-word initialization sequence (ICW1 on both command
        // ports; the vector bases, the cascade wiring and the operating
        // mode on the data ports) resets both controllers: nothing is
        // pending or in service afterwards, and the mask is undefined
        // until rewritten below.
        self.master = Pic { start };
        self.slave = Pic { start: start + INTERRUPTS_PER_PIC };
        self.irr = 0;
        self.isr = 0;
        self.imr = 0;
        self.select = RegSelect::Pending;
        self.set_imr(imr);
    }

    /// Reads the pending-request registers of both controllers, low byte
    /// master, high byte slave. The read-select command this sends first
    /// stays in force for later command-port reads.
    pub fn read_irr(&mut self) -> (r: u16)
        ensures
            r == old(self)@.irr,
            final(self)@ == (PicsView { select: RegSelect::Pending, ..old(self)@ }),
    {
        self.select = RegSelect::Pending;
        self.irr
    }

    /// Reads the in-service registers of both controllers, low byte master,
    /// high byte slave. The read-select command this sends first stays in
    /// force for later command-port reads.
    pub fn read_isr(&mut self) -> (r: u16)
        ensures
            r == old(self)@.isr,
            final(self)@ == (PicsView { select: RegSelect::InService, ..old(self)@ }),
    {
        self.select = RegSelect::InService;
        self.isr
    }

    /// Reads the interrupt mask, low byte master, high byte slave.
    pub fn read_imr(&self) -> (r: u16)
        ensures
            r == self@.imr,
    {
        self.imr
    }

    /// Writes the interrupt mask: bit `i` set disables line `i`.
    pub fn set_imr(&mut self, mask: u16)
        ensures
            final(self)@ == (PicsView { imr: mask, ..old(self)@ }),
    {
        self.imr = mask;
    }

    /// The line number behind vector `interrupt_id`, if the pair owns it.
    pub fn irq(&self, interrupt_id: u8) -> (r: Option<u8>)
        ensures
            r == spec_irq(self@, interrupt_id),
    {
        match (self.master.irq(interrupt_id), self.slave.irq(interrupt_id)) {
            (Some(irq1), _) => Some(irq1),
            (None, Some(irq2)) => Some(irq2 + INTERRUPTS_PER_PIC),
            (None, None) => None,
        }
    }

    /// Whether the pair owns vector `interrupt_id`.
    pub fn handles_interrupt(&self, interrupt_id: u8) -> (r: bool)
        ensures
            r == spec_irq(self@, interrupt_id).is_some(),
    {
        self.irq(interrupt_id).is_some()
    }

    /// Whether the line behind vector `interrupt_id` is actually in
    /// service. A vector the pair does not own is never in service. Reading
    /// the in-service register leaves it selected on the command port.
    pub fn servicing_interrupt(&mut self, interrupt_id: u8) -> (r: bool)
        ensures
            r == spec_in_service(old(self)@, interrupt_id),
            final(self)@ == if spec_irq(old(self)@, interrupt_id).is_some() {
                PicsView { select: RegSelect::InService, ..old(self)@ }
            } else {
                old(self)@
            },
    {
        match self.irq(interrupt_id) {
            Some(irq) => {
                let isr = self.read_isr();
                u16_get_bit(isr, irq as u16)
            },
            None => false,
        }
    }

    /// Which end-of-interrupt commands acknowledging a vector must send,
    /// given which sub-controller owns it and whether its line was actually
    /// in service: the master is acknowledged when the owner is the slave
    /// (the cascade saw the dispatch) or when its own line was in service;
    /// the slave is acknowledged only for a slave line that was in service —
    /// a spurious slave vector must not cost the slave an acknowledgement.
    pub fn eoi_decision(owner_is_slave: bool, in_service: bool) -> (r: (bool, bool))
        ensures
            r.0 == (owner_is_slave || in_service),
            r.1 == (owner_is_slave && in_service),
    {
        (owner_is_slave || in_service, owner_is_slave && in_service)
    }

    /// Acknowledges vector `interrupt_id` after its handler ran, absorbing
    /// spurious dispatches: the in-service register is consulted first, and
    /// the end-of-interrupt commands follow `eoi_decision`. Returns which
    /// commands were sent, `(master, slave)`, for the platform layer to
    /// mirror on the ports. A line that was genuinely in service is retired
    /// from the in-service register; a spurious or foreign vector changes no
    /// register.
    pub fn cleanup_interrupt(&mut self, interrupt_id: u8) -> (eoi: (bool, bool))
        ensures
            eoi.0 == (spec_is_slave(old(self)@, interrupt_id) || spec_in_service(
                old(self)@,
                interrupt_id,
            )),
            eoi.1 == (spec_is_slave(old(self)@, interrupt_id) && spec_in_service(
                old(self)@,
                interrupt_id,
            )),
            final(self)@ == (match spec_irq(old(self)@, interrupt_id) {
                Some(line) => PicsView {
                    select: RegSelect::InService,
                    isr: if bit16(old(self)@.isr, line as u16) {
                        old(self)@.isr & !(1u16 << (line as u16))
                    } else {
                        old(self)@.isr
                    },
                    ..old(self)@
                },
                None => old(self)@,
            }),
    {
        let is_serviced = self.servicing_interrupt(interrupt_id);
        let is_slave = self.slave.irq(interrupt_id).is_some();
        if let Some(line) = self.irq(interrupt_id) {
            if is_serviced {
                // The end-of-interrupt command retires the dispatched line.
                self.isr = self.isr & !(1u16 << (line as u16));
            }
        }
        Self::eoi_decision(is_slave, is_serviced)
    }

    /// A hardware event: input line `line` asserts a request. The request
    /// is latched whether or not the line is masked; the mask gates only
    /// dispatch.
    pub fn raise_irq(&mut self, line: u8)
        requires
            line < 16,
        ensures
            final(self)@ == (PicsView { irr: old(self)@.irr | (1u16 << (line as u16)), ..old(self)@ }),
    {
        self.irr = self.irr | (1u16 << (line as u16));
    }

    /// The unmasked pending lines of the pair.
    pub open spec fn spec_pending(v: PicsView) -> u16 {
        v.irr & !v.imr
    }

    /// The vector number dispatched for line `line`.
    pub open spec fn spec_vector(v: PicsView, line: u16) -> u8 {
        if line < 8 {
            (v.master_start + line) as u8
        } else {
            (v.slave_start + (line - 8)) as u8
        }
    }

    /// A hardware event: the processor accepts the highest-priority
    /// unmasked pending line (the lowest line number), which moves from
    /// pending to in service, and its vector number is dispatched. With
    /// nothing unmasked pending, nothing happens.
    pub fn deliver(&mut self) -> (r: Option<u8>)
        requires
            ranges_wf(old(self)@),
        ensures
            Self::spec_pending(old(self)@) == 0 ==> r == None::<u8> && final(self)@ == old(self)@,
            Self::spec_pending(old(self)@) != 0 ==> {
                let line = lowest_set_bit16(Self::spec_pending(old(self)@));
                &&& r == Some(Self::spec_vector(old(self)@, line))
                &&& final(self)@ == (PicsView {
                    irr: old(self)@.irr & !(1u16 << line),
                    isr: old(self)@.isr | (1u16 << line),
                    ..old(self)@
                })
            },
    {
        let pending = self.irr & !self.imr;
        if pending == 0 {
            return None;
        }
        proof {
            assert(pending >> 0u16 == pending) by (bit_vector);
        }
        let mut line: u16 = 0;
        while line < 15
            invariant_except_break
                line <= 15,
                pending >> line != 0,
                lowest_from(pending, 0) == lowest_from(pending, line),
            ensures
                line <= 15,
                pending >> line != 0,
                lowest_from(pending, 0) == lowest_from(pending, line),
                line < 15 ==> bit16(pending, line),
            decreases 15 - line,
        {
            if u16_get_bit(pending, line) {
                break ;
            }
            proof {
                assert(pending >> line != 0 && (pending >> line) & 1 != 1 && line < 15
                    ==> pending >> (line + 1) as u16 != 0) by (bit_vector);
            }
            line = line + 1;
        }
        proof {
            if line == 15 {
                assert(pending >> 15u16 != 0 ==> (pending >> 15u16) & 1 == 1) by (bit_vector);
            }
            assert(bit16(pending, line));
            assert(lowest_from(pending, line) == line);
            assert(line == lowest_set_bit16(pending));
        }
        self.irr = self.irr & !(1u16 << line);
        self.isr = self.isr | (1u16 << line);
        let r = if line < 8 {
            Some(self.master.start + (line as u8))
        } else {
            Some(self.slave.start + (line as u8 - 8))
        };
        r
    }
}

/// One write of the controller initialization sequence: which
/// sub-controller it goes to, whether to its command port (`true`) or its
/// data port, and the byte written.
#[derive(Clone, Copy, Debug, PartialEq, Eq, Structural)]
pub struct PortWrite {
    /// To the master (`true`) or the slave.
    pub master: bool,
    /// To the command port (`true`) or the data port.
    pub command: bool,
    /// The byte written.
    pub value: u8,
}

/// The port writes a remap to base `start` issues, in order: the first
/// initialization command word on both command ports, then on the data
/// ports the two vector bases, the cascade wiring (the mask of the slave's
/// input line to the master, the line number itself to the slave), and the
/// 8086-compatible operating mode. The platform layer replays these on the
/// physical ports when the model remaps.
pub fn remap_sequence(start: u8) -> (r: Vec<PortWrite>)
    requires
        start + 2 * INTERRUPTS_PER_PIC <= 256,
        start % INTERRUPTS_PER_PIC == 0,
    ensures
        r@ == seq![
            (PortWrite { master: true, command: true, value: ICW1_INIT }),
            (PortWrite { master: false, command: true, value: ICW1_INIT }),
            (PortWrite { master: true, command: false, value: start }),
            (PortWrite { master: false, command: false, value: (start + INTERRUPTS_PER_PIC) as u8 }),
            (PortWrite { master: true, command: false, value: 1u8 << SLAVE_INPUT }),
            (PortWrite { master: false, command: false, value: SLAVE_INPUT }),
            (PortWrite { master: true, command: false, value: ICW4_INTEL_8086 }),
            (PortWrite { master: false, command: false, value: ICW4_INTEL_8086 }),
        ],
{
    let mut writes: Vec<PortWrite> = Vec::new();
    writes.push(PortWrite { master: true, command: true, value: ICW1_INIT });
    writes.push(PortWrite { master: false, command: true, value: ICW1_INIT });
    writes.push(PortWrite { master: true, command: false, value: start });
    writes.push(PortWrite { master: false, command: false, value: start + INTERRUPTS_PER_PIC });
    writes.push(PortWrite { master: true, command: false, value: 1u8 << SLAVE_INPUT });
    writes.push(PortWrite { master: false, command: false, value: SLAVE_INPUT });
    writes.push(PortWrite { master: true, command: false, value: ICW4_INTEL_8086 });
    writes.push(PortWrite { master: false, command: false, value: ICW4_INTEL_8086 });
    proof {
        assert(writes@ =~= seq![
            (PortWrite { master: true, command: true, value: ICW1_INIT }),
            (PortWrite { master: false, command: true, value: ICW1_INIT }),
            (PortWrite { master: true, command: false, value: start }),
            (PortWrite {
                master: false,
                command: false,
                value: (start + INTERRUPTS_PER_PIC) as u8,
            }),
            (PortWrite { master: true, command: false, value: 1u8 << SLAVE_INPUT }),
            (PortWrite { master: false, command: false, value: SLAVE_INPUT }),
            (PortWrite { master: true, command: false, value: ICW4_INTEL_8086 }),
            (PortWrite { master: false, command: false, value: ICW4_INTEL_8086 }),
        ]);
    }
    writes
}

/// Once a line's dispatch clears its pending bit, the line cannot be
/// dispatched again — whatever the mask — until a new hardware pulse raises
/// it: one pulse reaches its handler at most once.
pub proof fn lemma_no_redelivery(irr: u16, imr: u16, line: u16)
    requires
        line < 16,
    ensures
        !bit16((irr & !(1u16 << line)) & !imr, line),
{
    assert(line < 16 ==> (((irr & !(1u16 << line)) & !imr) >> line) & 1 != 1) by (bit_vector);
}

/// The lowest set bit of `x` at or above position `i`; 16 when no bit at or
/// above `i` is set.
pub open spec fn lowest_from(x: u16, i: u16) -> u16
    decreases 16 - i,
{
    if i >= 16 {
        16
    } else if (x >> i) & 1 == 1 {
        i
    } else {
        lowest_from(x, (i + 1) as u16)
    }
}

/// The lowest set bit of `x`; 16 when `x` is zero.
pub open spec fn lowest_set_bit16(x: u16) -> u16 {
    lowest_from(x, 0)
}

} // verus!
