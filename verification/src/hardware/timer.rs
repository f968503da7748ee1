//! The timer: DIV, TIMA, TMA and TAC.
use vstd::prelude::*;
use crate::hardware::irq::{Interrupt, InterruptRequest, Irq};

verus! {

/// TAC: bit 2 enables the timer, bits 0-1 select its input clock.
pub const TAC_ENABLE: u8 = 0b100;
/// The bits of TAC that exist.
pub const TAC_BITS: u8 = 0b111;
/// Bits of TAC that do not exist and read as 1.
pub const TAC_UNUSED: u8 = 0b1111_1000;

/// The bit of the internal counter whose falling edge clocks TIMA, for the
/// clock select bits of TAC.
pub open spec fn spec_counter_mask(tac: u8) -> u16 {
    if tac % 4 == 3 {
        32
    } else if tac % 4 == 2 {
        8
    } else if tac % 4 == 1 {
        2
    } else {
        128
    }
}

fn counter_mask(tac: u8) -> (r: u16)
    ensures
        r == spec_counter_mask(tac),
{
    match tac % 4 {
        3 => 32,
        2 => 8,
        1 => 2,
        _ => 128,
    }
}

/// The timer.
#[derive(Clone, Copy, Debug, PartialEq, Eq, Structural)]
pub struct Timer {
    /// The 16-bit counter whose upper byte is DIV.
    pub internal_counter: u16,
    /// TAC, its three bits.
    pub tac: u8,
    /// TIMA.
    pub counter: u8,
    /// TMA.
    pub modulo: u8,
    /// TIMA overflowed in the previous cycle; it is reloaded in this one.
    pub overflow: bool,
    pub enabled: bool,
}

impl Timer {
    /// The clock bit selected by TAC is set in the internal counter.
    pub open spec fn spec_counter_bit(self) -> bool {
        self.internal_counter & spec_counter_mask(self.tac) != 0
    }

    /// TIMA incremented; an overflow is remembered for the next cycle.
    pub open spec fn spec_increment(self) -> Timer {
        Timer { counter: ((self.counter + 1) % 256) as u8, overflow: self.counter == 255, ..self }
    }

    /// One machine cycle of the timer, without the interrupt request.
    pub open spec fn spec_tick(self) -> Timer {
        let ticked = Timer { internal_counter: ((self.internal_counter + 1) % 65536) as u16, ..self };
        if self.overflow {
            Timer { counter: self.modulo, overflow: false, ..ticked }
        } else if self.enabled && self.spec_counter_bit() && !ticked.spec_counter_bit() {
            ticked.spec_increment()
        } else {
            ticked
        }
    }

    /// The timer after a write cycle of `value` to DIV, TIMA, TMA or TAC
    /// (0xff04 to 0xff07): the cycle's tick, then the write.
    pub open spec fn spec_write(self, addr: u16, value: u8) -> Timer {
        let t = self.spec_tick();
        if addr == 0xff04 {
            let t2 = if t.spec_counter_bit() {
                t.spec_increment()
            } else {
                t
            };
            Timer { internal_counter: 0, ..t2 }
        } else if addr == 0xff05 {
            if self.overflow {
                t
            } else {
                Timer { overflow: false, counter: value, ..t }
            }
        } else if addr == 0xff06 {
            if self.overflow {
                Timer { modulo: value, counter: value, ..t }
            } else {
                Timer { modulo: value, ..t }
            }
        } else {
            let t1 = Timer { tac: value & TAC_BITS, enabled: value & TAC_ENABLE != 0, ..t };
            let old_bit = t.enabled && t.spec_counter_bit();
            let new_bit = t1.enabled && t1.spec_counter_bit();
            if old_bit && !new_bit {
                t1.spec_increment()
            } else {
                t1
            }
        }
    }

    /// The interrupts after one cycle: a TIMA overflow of the previous cycle
    /// requests the timer interrupt.
    pub open spec fn spec_tick_irq(self, intr: Irq) -> Irq {
        if self.overflow {
            intr.spec_request_t12(4)
        } else {
            intr
        }
    }

    pub fn new() -> (r: Timer)
        ensures
            r == (Timer {
                internal_counter: 0,
                tac: 0,
                counter: 0,
                modulo: 0,
                overflow: false,
                enabled: false,
            }),
    {
        Timer { internal_counter: 0, tac: 0, counter: 0, modulo: 0, overflow: false, enabled: false }
    }

    fn counter_bit(&self) -> (r: bool)
        ensures
            r == self.spec_counter_bit(),
    {
        (self.internal_counter & counter_mask(self.tac)) != 0
    }

    fn increment(&mut self)
        ensures
            *final(self) == old(self).spec_increment(),
    {
        let overflow = self.counter == 255;
        self.counter = self.counter.wrapping_add(1);
        self.overflow = overflow;
    }

    /// One machine cycle of the timer.
    pub fn tick_cycle(&mut self, intr_req: &mut Irq)
        ensures
            *final(self) == old(self).spec_tick(),
            *final(intr_req) == old(self).spec_tick_irq(*old(intr_req)),
    {
        if self.overflow {
            self.internal_counter = self.internal_counter.wrapping_add(1);
            self.counter = self.modulo;
            intr_req.request_t12_interrupt(Interrupt::TimerOverflow);
            self.overflow = false;
        } else if self.enabled && self.counter_bit() {
            self.internal_counter = self.internal_counter.wrapping_add(1);
            let new_bit = self.counter_bit();
            if !new_bit {
                self.increment();
            }
        } else {
            self.internal_counter = self.internal_counter.wrapping_add(1);
        }
    }

    /// Reads DIV, the upper bits of the internal counter.
    pub fn div_read_cycle(&mut self, intr_req: &mut Irq) -> (r: u8)
        ensures
            *final(self) == old(self).spec_tick(),
            *final(intr_req) == old(self).spec_tick_irq(*old(intr_req)),
            r == (final(self).internal_counter / 64) as u8,
    {
        self.tick_cycle(intr_req);
        (self.internal_counter / 64) as u8
    }

    /// Writes DIV: the internal counter is cleared, which clocks TIMA when the
    /// selected bit falls.
    pub fn div_write_cycle(&mut self, intr_req: &mut Irq)
        ensures
            ({
                let t = old(self).spec_tick();
                let t2 = if t.spec_counter_bit() {
                    t.spec_increment()
                } else {
                    t
                };
                *final(self) == (Timer { internal_counter: 0, ..t2 })
            }),
            *final(intr_req) == old(self).spec_tick_irq(*old(intr_req)),
    {
        self.tick_cycle(intr_req);
        if self.counter_bit() {
            self.increment();
        }
        self.internal_counter = 0;
    }

    /// Reads TIMA.
    pub fn tima_read_cycle(&mut self, intr_req: &mut Irq) -> (r: u8)
        ensures
            *final(self) == old(self).spec_tick(),
            *final(intr_req) == old(self).spec_tick_irq(*old(intr_req)),
            r == final(self).counter,
    {
        self.tick_cycle(intr_req);
        self.counter
    }

    /// Writes TIMA; a write in the cycle that reloads TIMA from TMA is
    /// ignored.
    pub fn tima_write_cycle(&mut self, value: u8, intr_req: &mut Irq)
        ensures
            *final(self) == (if old(self).overflow {
                old(self).spec_tick()
            } else {
                Timer { overflow: false, counter: value, ..old(self).spec_tick() }
            }),
            *final(intr_req) == old(self).spec_tick_irq(*old(intr_req)),
    {
        let overflow = self.overflow;
        self.tick_cycle(intr_req);
        if !overflow {
            self.overflow = false;
            self.counter = value
        }
    }

    /// Reads TMA.
    pub fn tma_read_cycle(&mut self, intr_req: &mut Irq) -> (r: u8)
        ensures
            *final(self) == old(self).spec_tick(),
            *final(intr_req) == old(self).spec_tick_irq(*old(intr_req)),
            r == final(self).modulo,
    {
        self.tick_cycle(intr_req);
        self.modulo
    }

    /// Writes TMA; in the cycle that reloads TIMA the new value is loaded too.
    pub fn tma_write_cycle(&mut self, value: u8, intr_req: &mut Irq)
        ensures
            *final(self) == (if old(self).overflow {
                Timer { modulo: value, counter: value, ..old(self).spec_tick() }
            } else {
                Timer { modulo: value, ..old(self).spec_tick() }
            }),
            *final(intr_req) == old(self).spec_tick_irq(*old(intr_req)),
    {
        let overflow = self.overflow;
        self.tick_cycle(intr_req);
        self.modulo = value;
        if overflow {
            self.counter = value;
        }
    }

    /// Reads TAC; the unused bits read as 1.
    pub fn tac_read_cycle(&mut self, intr_req: &mut Irq) -> (r: u8)
        ensures
            *final(self) == old(self).spec_tick(),
            *final(intr_req) == old(self).spec_tick_irq(*old(intr_req)),
            r == TAC_UNUSED | final(self).tac,
    {
        self.tick_cycle(intr_req);
        TAC_UNUSED | self.tac
    }

    /// Writes TAC; when the clock bit seen by TIMA falls because of the write,
    /// TIMA is clocked.
    pub fn tac_write_cycle(&mut self, value: u8, intr_req: &mut Irq)
        ensures
            ({
                let t = old(self).spec_tick();
                let t1 = Timer { tac: value & TAC_BITS, enabled: value & TAC_ENABLE != 0, ..t };
                let old_bit = t.enabled && t.spec_counter_bit();
                let new_bit = t1.enabled && t1.spec_counter_bit();
                *final(self) == if old_bit && !new_bit {
                    t1.spec_increment()
                } else {
                    t1
                }
            }),
            *final(intr_req) == old(self).spec_tick_irq(*old(intr_req)),
    {
        self.tick_cycle(intr_req);
        let old_bit = self.enabled && self.counter_bit();
        self.tac = value & TAC_BITS;
        self.enabled = value & TAC_ENABLE != 0;
        let new_bit = self.enabled && self.counter_bit();
        if old_bit && !new_bit {
            self.increment();
        }
    }
}

/// After a TIMA overflow the next cycle reloads TIMA from TMA and requests
/// the timer interrupt.
pub proof fn lemma_overflow_reloads(t: Timer, intr: Irq)
    requires
        t.overflow,
    ensures
        t.spec_tick().counter == t.modulo,
        !t.spec_tick().overflow,
        t.spec_tick_irq(intr).mid_intr == intr.mid_intr | 4,
        t.spec_tick_irq(intr).end_intr == intr.end_intr | 4,
{
}

/// TIMA's input clock. With the timer enabled and no reload pending, a
/// machine cycle moves the internal counter on by one, and increments TIMA
/// exactly when the internal counter then reaches a multiple of the period
/// that TAC's clock select picks: every 256, 4, 16 or 64 machine cycles
/// for select 0, 1, 2, 3 (4096, 262144, 65536 and 16384 Hz).
pub proof fn lemma_tima_clock(t: Timer)
    requires
        t.enabled,
        !t.overflow,
    ensures
        t.spec_tick().internal_counter == (t.internal_counter + 1) % 65536,
        ({
            let c = t.internal_counter + 1;
            let period = if t.tac % 4 == 0 {
                256
            } else if t.tac % 4 == 1 {
                4
            } else if t.tac % 4 == 2 {
                16
            } else {
                64
            };
            t.spec_tick().counter == if c % period == 0 {
                (t.counter + 1) % 256
            } else {
                t.counter as int
            }
        }),
        t.spec_tick().modulo == t.modulo,
        t.spec_tick().tac == t.tac,
{
    lemma_falling_edges(t.internal_counter);
}

/// The bit of weight `m` of a 16-bit counter falls on an increment exactly
/// when the incremented count is a multiple of `2 m`.
proof fn lemma_falling_edges(c: u16)
    by (bit_vector)
    ensures
        (c & 2 != 0 && ((c as u32 + 1) % 65536) as u16 & 2 == 0) == ((c as u32 + 1) % 4 == 0),
        (c & 8 != 0 && ((c as u32 + 1) % 65536) as u16 & 8 == 0) == ((c as u32 + 1) % 16 == 0),
        (c & 32 != 0 && ((c as u32 + 1) % 65536) as u16 & 32 == 0) == ((c as u32 + 1) % 64 == 0),
        (c & 128 != 0 && ((c as u32 + 1) % 65536) as u16 & 128 == 0) == ((c as u32 + 1) % 256
            == 0),
{
}

} // verus!
