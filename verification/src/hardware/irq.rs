//! The interrupt controller, as the CPU sees it in the middle and at the
//! end of each machine cycle.
use vstd::prelude::*;
use crate::util::IntExt;
use crate::util::is_rightmost_one_u8;

verus! {

/// Requests of interrupts, made in the first half (T1-T2) or the second
/// half (T3-T4) of a machine cycle.
pub trait InterruptRequest {
    fn request_t12_interrupt(&mut self, interrupt: Interrupt);

    fn request_t34_interrupt(&mut self, interrupt: Interrupt);
}

/// The five interrupt sources, in priority order.
#[derive(Clone, Copy, Debug, PartialEq, Eq, Structural)]
pub enum Interrupt {
    VBlank,
    LcdStat,
    TimerOverflow,
    SerialIoDone,
    Joypad,
}

/// Bits of IF and IE that belong to interrupt sources.
pub const INTERRUPT_MASK: u8 = 0x1f;

/// Bits of IF that do not exist and read as 1.
pub const IF_UNUSED_MASK: u8 = 0xe0;

impl Interrupt {
    /// The bit of the source in IF and IE.
    pub open spec fn spec_bits(self) -> u8 {
        match self {
            Interrupt::VBlank => 1,
            Interrupt::LcdStat => 2,
            Interrupt::TimerOverflow => 4,
            Interrupt::SerialIoDone => 8,
            Interrupt::Joypad => 16,
        }
    }

    /// The address of the interrupt handler.
    pub open spec fn spec_addr(self) -> u16 {
        match self {
            Interrupt::VBlank => 0x40,
            Interrupt::LcdStat => 0x48,
            Interrupt::TimerOverflow => 0x50,
            Interrupt::SerialIoDone => 0x58,
            Interrupt::Joypad => 0x60,
        }
    }

    pub fn bits(&self) -> (r: u8)
        ensures
            r == self.spec_bits(),
    {
        match *self {
            Interrupt::VBlank => 1,
            Interrupt::LcdStat => 2,
            Interrupt::TimerOverflow => 4,
            Interrupt::SerialIoDone => 8,
            Interrupt::Joypad => 16,
        }
    }

    /// The source whose bit is `value`, if `value` is a single source bit.
    pub fn from_u8(value: u8) -> (r: Option<Interrupt>)
        ensures
            r matches Some(i) ==> i.spec_bits() == value,
            r is None <==> !(value == 1 || value == 2 || value == 4 || value == 8 || value == 16),
    {
        match value {
            1 => Some(Interrupt::VBlank),
            2 => Some(Interrupt::LcdStat),
            4 => Some(Interrupt::TimerOverflow),
            8 => Some(Interrupt::SerialIoDone),
            16 => Some(Interrupt::Joypad),
            _ => None,
        }
    }

    pub fn get_addr(&self) -> (r: u16)
        ensures
            r == self.spec_addr(),
    {
        match *self {
            Interrupt::VBlank => 0x40,
            Interrupt::LcdStat => 0x48,
            Interrupt::TimerOverflow => 0x50,
            Interrupt::SerialIoDone => 0x58,
            Interrupt::Joypad => 0x60,
        }
    }
}

/// The interrupt requests as they stand in the middle and at the end of the
/// current cycle, and the enable register IE.
#[derive(Clone, Copy, Debug, PartialEq, Eq, Structural)]
pub struct Irq {
    pub mid_intr: u8,
    pub end_intr: u8,
    pub int_enable: u8,
}

impl Irq {
    pub open spec fn wf(self) -> bool {
        self.mid_intr & INTERRUPT_MASK == self.mid_intr && self.end_intr & INTERRUPT_MASK
            == self.end_intr
    }

    /// A request in the first half of the cycle is seen in its middle.
    pub open spec fn spec_request_t12(self, line: u8) -> Irq {
        Irq { mid_intr: self.mid_intr | line, end_intr: self.end_intr | line, ..self }
    }

    /// A request in the second half of the cycle is seen at its end.
    pub open spec fn spec_request_t34(self, line: u8) -> Irq {
        Irq { end_intr: self.end_intr | line, ..self }
    }

    /// The enabled requests in the middle of the cycle.
    pub open spec fn spec_mid_pending(self) -> u8 {
        (self.int_enable & INTERRUPT_MASK) & self.mid_intr
    }

    /// The enabled requests at the end of the cycle.
    pub open spec fn spec_end_pending(self) -> u8 {
        (self.int_enable & INTERRUPT_MASK) & self.end_intr
    }

    pub fn new() -> (r: Irq)
        ensures
            r == (Irq { mid_intr: 0, end_intr: 0, int_enable: 0 }),
            r.wf(),
    {
        assert(0u8 & 0x1f == 0) by (bit_vector);
        Irq { mid_intr: 0, end_intr: 0, int_enable: 0x00 }
    }

    /// IF as read in the middle of the cycle; the unused bits read as 1.
    pub fn get_interrupt_flag(&self) -> (r: u8)
        ensures
            r == self.mid_intr | IF_UNUSED_MASK,
    {
        self.mid_intr | IF_UNUSED_MASK
    }

    pub fn get_interrupt_enable(&self) -> (r: u8)
        ensures
            r == self.int_enable,
    {
        self.int_enable
    }

    /// A write of IF replaces the requests at once.
    pub fn set_interrupt_flag(&mut self, value: u8)
        ensures
            final(self).mid_intr == value & INTERRUPT_MASK,
            final(self).end_intr == value & INTERRUPT_MASK,
            final(self).int_enable == old(self).int_enable,
            final(self).wf(),
    {
        let flags = value & INTERRUPT_MASK;
        assert(flags & INTERRUPT_MASK == flags) by (bit_vector)
            requires
                flags == value & 0x1f,
        ;
        self.mid_intr = flags;
        self.end_intr = flags;
    }

    pub fn set_interrupt_enable(&mut self, value: u8)
        ensures
            *final(self) == (Irq { int_enable: value, ..*old(self) }),
    {
        self.int_enable = value;
    }

    /// Acknowledges the enabled request of the highest priority, pending in
    /// the middle of the cycle, and returns its source.
    pub fn ack_interrupt(&mut self) -> (r: Option<Interrupt>)
        requires
            old(self).wf(),
        ensures
            final(self).wf(),
            ({
                let h = old(self).spec_mid_pending() & (#[verifier::truncate] ((!old(self).spec_mid_pending() + 1) as u8));
                &&& is_rightmost_one_u8(old(self).spec_mid_pending(), h)
                &&& final(self).mid_intr == old(self).mid_intr & !h
                &&& final(self).end_intr == old(self).end_intr & !h
                &&& final(self).int_enable == old(self).int_enable
                &&& (r matches Some(i) ==> i.spec_bits() == h)
                &&& (r is None <==> h == 0)
            }),
    {
        let enable = self.int_enable;
        let pending = (enable & INTERRUPT_MASK) & self.mid_intr;
        let highest_priority = pending.isolate_rightmost_one();
        let mid = self.mid_intr;
        let end = self.end_intr;
        assert(pending & INTERRUPT_MASK == pending) by (bit_vector)
            requires
                pending == (enable & 0x1f) & mid,
        ;
        proof {
            lemma_single_source(pending, highest_priority);
        }
        assert((mid & !highest_priority) & INTERRUPT_MASK == mid & !highest_priority
            && (end & !highest_priority) & INTERRUPT_MASK == end & !highest_priority) by (bit_vector)
            requires
                mid & 0x1f == mid,
                end & 0x1f == end,
        ;
        self.mid_intr = mid & !highest_priority;
        self.end_intr = end & !highest_priority;
        Interrupt::from_u8(highest_priority)
    }

    /// Clears the requests of the sources in `mask`.
    pub fn ack_lines(&mut self, mask: u8)
        requires
            old(self).wf(),
        ensures
            final(self).wf(),
            *final(self) == (Irq {
                mid_intr: old(self).mid_intr & !mask,
                end_intr: old(self).end_intr & !mask,
                ..*old(self)
            }),
    {
        let mid = self.mid_intr;
        let end = self.end_intr;
        assert((mid & !mask) & INTERRUPT_MASK == mid & !mask && (end & !mask) & INTERRUPT_MASK == end
            & !mask) by (bit_vector)
            requires
                mid & 0x1f == mid,
                end & 0x1f == end,
        ;
        self.mid_intr = mid & !mask;
        self.end_intr = end & !mask;
    }

    /// A new cycle starts with the requests of the end of the last one.
    pub fn begin_cycle(&mut self)
        ensures
            *final(self) == (Irq { mid_intr: old(self).end_intr, ..*old(self) }),
    {
        self.mid_intr = self.end_intr;
    }

    /// Requests, in the second half of the cycle, every source in `lines`.
    pub fn request_t34_lines(&mut self, lines: u8)
        requires
            old(self).wf(),
            lines & INTERRUPT_MASK == lines,
        ensures
            *final(self) == (Irq { end_intr: old(self).end_intr | lines, ..*old(self) }),
            final(self).wf(),
    {
        let end = self.end_intr;
        assert((end | lines) & INTERRUPT_MASK == end | lines) by (bit_vector)
            requires
                end & 0x1f == end,
                lines & 0x1f == lines,
        ;
        self.end_intr = end | lines;
    }

    pub fn has_mid_interrupt(&self) -> (r: bool)
        ensures
            r == (self.spec_mid_pending() != 0),
    {
        (self.int_enable & INTERRUPT_MASK) & self.mid_intr != 0
    }

    pub fn has_end_interrupt(&self) -> (r: bool)
        ensures
            r == (self.spec_end_pending() != 0),
    {
        (self.int_enable & INTERRUPT_MASK) & self.end_intr != 0
    }
}

/// The lowest set bit of a set of sources is zero or a single source bit.
proof fn lemma_single_source(pending: u8, h: u8)
    requires
        pending & 0x1f == pending,
        is_rightmost_one_u8(pending, h),
    ensures
        h == 0 || h == 1 || h == 2 || h == 4 || h == 8 || h == 16,
        h == 0 <==> pending == 0,
{
    assert(h == 0 || h == 1 || h == 2 || h == 4 || h == 8 || h == 16) by (bit_vector)
        requires
            pending & 0x1f == pending,
            is_rightmost_one_u8(pending, h),
    ;
    assert(h == 0 <==> pending == 0) by (bit_vector)
        requires
            is_rightmost_one_u8(pending, h),
    ;
}

impl InterruptRequest for Irq {
    fn request_t12_interrupt(&mut self, interrupt: Interrupt)
        ensures
            *final(self) == old(self).spec_request_t12(interrupt.spec_bits()),
    {
        let flags = interrupt.bits();
        self.mid_intr = self.mid_intr | flags;
        self.end_intr = self.end_intr | flags;
    }

    fn request_t34_interrupt(&mut self, interrupt: Interrupt)
        ensures
            *final(self) == old(self).spec_request_t34(interrupt.spec_bits()),
    {
        let flags = interrupt.bits();
        self.end_intr = self.end_intr | flags;
    }
}

/// A request keeps the requests within the five sources.
pub proof fn lemma_request_keeps_wf(irq: Irq, interrupt: Interrupt)
    requires
        irq.wf(),
    ensures
        irq.spec_request_t12(interrupt.spec_bits()).wf(),
        irq.spec_request_t34(interrupt.spec_bits()).wf(),
{
    let b = interrupt.spec_bits();
    let m = irq.mid_intr;
    let e = irq.end_intr;
    assert((m | b) & 0x1f == m | b && (e | b) & 0x1f == e | b) by (bit_vector)
        requires
            m & 0x1f == m,
            e & 0x1f == e,
            b == 1 || b == 2 || b == 4 || b == 8 || b == 16,
    ;
}

/// A request in the second half of a cycle is seen in the middle of the next
/// cycle, and not before.
pub proof fn lemma_t34_seen_next_cycle(irq: Irq, interrupt: Interrupt)
    requires
        irq.int_enable & interrupt.spec_bits() != 0,
    ensures
        irq.spec_request_t34(interrupt.spec_bits()).mid_intr == irq.mid_intr,
        ({
            let next = Irq {
                mid_intr: irq.spec_request_t34(interrupt.spec_bits()).end_intr,
                ..irq.spec_request_t34(interrupt.spec_bits())
            };
            next.spec_mid_pending() != 0
        }),
{
    let b = interrupt.spec_bits();
    let e = irq.int_enable;
    let end = irq.end_intr;
    assert((e & 0x1f) & (end | b) != 0) by (bit_vector)
        requires
            e & b != 0,
            b == 1 || b == 2 || b == 4 || b == 8 || b == 16,
    ;
}

} // verus!
