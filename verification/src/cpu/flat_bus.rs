//! A bus of plain memory, without devices: for running instructions in
//! isolation and counting their cycles.
use vstd::prelude::*;
use crate::cpu::BusEvent;
use crate::cpu::CpuContext;
use crate::cpu::cycles;
use crate::cpu::lemma_cycles_push;
use crate::cpu::{Cpu, Step, data_of, ev, is_read_at, rd, wrap16};
use crate::cpu::execute::{call_post, ret_post};
use crate::hardware::interrupts::InterruptLine;

verus! {

/// Size of the address space.
pub const ADDRESS_SPACE: usize = 0x10000;

/// 64 KiB of memory on the bus and a count of clock cycles; no interrupt
/// is ever raised. `from_memory` makes the memory 64 KiB long; the accesses
/// still test the bound, as the methods of `CpuContext` take no
/// precondition.
pub struct FlatBus {
    pub memory: Vec<u8>,
    /// Clock cycles, four per machine cycle.
    pub t_cycles: usize,
    /// The cycles performed so far.
    pub trace: Ghost<Seq<BusEvent>>,
    /// The memory before the first cycle.
    pub initial: Ghost<Seq<u8>>,
}

/// Memory `m` after the writes among the events of `t`.
pub open spec fn replay(m: Seq<u8>, t: Seq<BusEvent>) -> Seq<u8>
    decreases t.len(),
{
    if t.len() == 0 {
        m
    } else {
        let before = replay(m, t.drop_last());
        match t.last() {
            BusEvent::Write(a, d) => if (a as int) < before.len() {
                before.update(a as int, d)
            } else {
                before
            },
            _ => before,
        }
    }
}

/// Every read among the events of `t` gave back what memory, starting
/// from `m`, held at that moment.
pub open spec fn reads_back(m: Seq<u8>, t: Seq<BusEvent>) -> bool
    decreases t.len(),
{
    if t.len() == 0 {
        true
    } else {
        let before = replay(m, t.drop_last());
        &&& reads_back(m, t.drop_last())
        &&& match t.last() {
            BusEvent::Read(a, d) => (a as int) < before.len() ==> d == before[a as int],
            _ => true,
        }
    }
}

impl FlatBus {
    pub open spec fn wf(&self) -> bool {
        self.memory@.len() == ADDRESS_SPACE
    }

    /// Memory holding `input` from address 0 and zeros after it.
    pub fn from_memory(input: &[u8]) -> (r: FlatBus)
        requires
            input@.len() <= ADDRESS_SPACE,
        ensures
            r.wf(),
            r.memory@ == input@ + Seq::new((ADDRESS_SPACE - input@.len()) as nat, |i: int| 0u8),
            r.t_cycles == 0,
            r.trace@ == Seq::<BusEvent>::empty(),
            r.initial@ == r.memory@,
            r.trace_consistent(),
    {
        let mut memory: Vec<u8> = Vec::new();
        let mut i: usize = 0;
        while i < ADDRESS_SPACE
            invariant
                i <= ADDRESS_SPACE,
                input@.len() <= ADDRESS_SPACE,
                memory@.len() == i,
                forall|j: int| 0 <= j < i ==> memory@[j] == if j < input@.len() {
                    input@[j]
                } else {
                    0u8
                },
            decreases ADDRESS_SPACE - i,
        {
            if i < input.len() {
                memory.push(input[i]);
            } else {
                memory.push(0);
            }
            i += 1;
        }
        assert(memory@ =~= input@ + Seq::new((ADDRESS_SPACE - input@.len()) as nat, |i: int| 0u8));
        proof {
            crate::cpu::lemma_cycles_empty();
        }
        let ghost initial = memory@;
        FlatBus { memory, t_cycles: 0, trace: Ghost(Seq::empty()), initial: Ghost(initial) }
    }

    pub fn clock_cycles(&self) -> (r: usize)
        ensures
            r == self.t_cycles,
    {
        self.t_cycles
    }

    /// The byte at `addr`.
    pub fn read(&self, addr: u16) -> (r: u8)
        requires
            self.wf(),
        ensures
            r == self.memory@[addr as int],
    {
        self.memory[addr as usize]
    }
}

impl CpuContext for FlatBus {
    open spec fn trace(&self) -> Seq<BusEvent> {
        self.trace@
    }

    open spec fn mid_interrupt(&self) -> InterruptLine {
        InterruptLine { bits: 0 }
    }

    open spec fn end_interrupt(&self) -> InterruptLine {
        InterruptLine { bits: 0 }
    }

    open spec fn origin(&self) -> Seq<u8> {
        self.initial@
    }

    /// Memory is the initial memory after the writes of the trace, every
    /// read gave back what memory held, and `t_cycles` counts four clock
    /// cycles per machine cycle, as long as that count fits in a `usize`.
    open spec fn trace_consistent(&self) -> bool {
        &&& self.wf()
        &&& self.memory@ == replay(self.initial@, self.trace@)
        &&& reads_back(self.initial@, self.trace@)
        &&& 4 * cycles(self.trace@) <= usize::MAX ==> self.t_cycles == 4 * cycles(self.trace@)
    }

    /// Reads memory in four clock cycles.
    fn read_cycle(&mut self, addr: u16) -> (data: u8)
        ensures
            final(self).t_cycles == old(self).t_cycles.wrapping_add(4),
            final(self).memory == old(self).memory,
            old(self).wf() ==> data == old(self).memory@[addr as int],
    {
        self.t_cycles = self.t_cycles.wrapping_add(4);
        let data = if (addr as usize) < self.memory.len() {
            self.memory[addr as usize]
        } else {
            0xff
        };
        proof {
            lemma_cycles_push(self.trace@, BusEvent::Read(addr, data));
            assert(self.trace@.push(BusEvent::Read(addr, data)).drop_last() =~= self.trace@);
        }
        self.trace = Ghost(self.trace@.push(BusEvent::Read(addr, data)));
        data
    }

    /// Writes memory in four clock cycles.
    fn write_cycle(&mut self, addr: u16, data: u8)
        ensures
            final(self).t_cycles == old(self).t_cycles.wrapping_add(4),
            old(self).wf() ==> final(self).memory@ == old(self).memory@.update(addr as int, data),
    {
        self.t_cycles = self.t_cycles.wrapping_add(4);
        if (addr as usize) < self.memory.len() {
            self.memory.set(addr as usize, data);
        }
        proof {
            lemma_cycles_push(self.trace@, BusEvent::Write(addr, data));
            assert(self.trace@.push(BusEvent::Write(addr, data)).drop_last() =~= self.trace@);
        }
        self.trace = Ghost(self.trace@.push(BusEvent::Write(addr, data)));
    }

    /// An internal cycle: four clock cycles.
    fn tick_cycle(&mut self)
        ensures
            final(self).t_cycles == old(self).t_cycles.wrapping_add(4),
            final(self).memory == old(self).memory,
    {
        self.t_cycles = self.t_cycles.wrapping_add(4);
        proof {
            lemma_cycles_push(self.trace@, BusEvent::Tick);
            assert(self.trace@.push(BusEvent::Tick).drop_last() =~= self.trace@);
        }
        self.trace = Ghost(self.trace@.push(BusEvent::Tick));
    }

    fn get_mid_interrupt(&self) -> (r: InterruptLine) {
        InterruptLine { bits: 0 }
    }

    fn get_end_interrupt(&self) -> (r: InterruptLine) {
        InterruptLine { bits: 0 }
    }

    fn ack_interrupt(&mut self, mask: InterruptLine)
        ensures
            final(self).t_cycles == old(self).t_cycles,
            final(self).memory == old(self).memory,
    {
        proof {
            lemma_cycles_push(self.trace@, BusEvent::Ack(0, mask.bits));
            assert(self.trace@.push(BusEvent::Ack(0, mask.bits)).drop_last() =~= self.trace@);
        }
        self.trace = Ghost(self.trace@.push(BusEvent::Ack(0, mask.bits)));
    }

    fn debug_opcode_callback(&mut self)
        ensures
            final(self).t_cycles == old(self).t_cycles,
            final(self).memory == old(self).memory,
    {
        proof {
            lemma_cycles_push(self.trace@, BusEvent::DebugOpcode);
            assert(self.trace@.push(BusEvent::DebugOpcode).drop_last() =~= self.trace@);
        }
        self.trace = Ghost(self.trace@.push(BusEvent::DebugOpcode));
    }
}

/// Reads of a consistent trace stay consistent on any prefix of it.
proof fn lemma_reads_back_prefix(m: Seq<u8>, t: Seq<BusEvent>, k: int)
    requires
        reads_back(m, t),
        0 <= k <= t.len(),
    ensures
        reads_back(m, t.take(k)),
    decreases t.len() - k,
{
    if k == t.len() {
        assert(t.take(k) =~= t);
    } else {
        assert(t.drop_last().take(k) =~= t.take(k));
        lemma_reads_back_prefix(m, t.drop_last(), k);
    }
}

/// On a flat bus, a return comes back to the instruction after the call:
/// when RET runs with the stack pointer that CALL left, and the two bytes
/// that CALL pushed are still in memory, RET fetches its next opcode right
/// after the three bytes of the CALL, the stack pointer is what it was
/// before the call, and IME is left as it was.
pub proof fn lemma_flat_bus_call_ret(
    call_pre: Cpu,
    before_call: FlatBus,
    mid1: InterruptLine,
    call_post_cpu: Cpu,
    step1: Step,
    after_call: FlatBus,
    ret_pre: Cpu,
    before_ret: FlatBus,
    mid3: InterruptLine,
    ret_post_cpu: Cpu,
    step3: Step,
    after_ret: FlatBus,
)
    requires
        call_post(call_pre, before_call.trace@, after_call.trace@, mid1, call_post_cpu, step1),
        ret_post(ret_pre, before_ret.trace@, after_ret.trace@, mid3, ret_post_cpu, step3),
        after_call.trace_consistent(),
        before_ret.trace_consistent(),
        after_ret.trace_consistent(),
        before_ret.initial@ == after_call.initial@,
        after_ret.initial@ == before_ret.initial@,
        ret_pre.regs.sp == call_post_cpu.regs.sp,
        before_ret.memory@[ret_pre.regs.sp as int] == after_call.memory@[ret_pre.regs.sp as int],
        before_ret.memory@[wrap16(ret_pre.regs.sp + 1) as int] == after_call.memory@[wrap16(
            ret_pre.regs.sp + 1,
        ) as int],
    ensures
        is_read_at(ev(before_ret.trace@, after_ret.trace@, 3), wrap16(call_pre.regs.pc + 2)),
        ret_post_cpu.regs.sp == call_pre.regs.sp,
        ret_post_cpu.ime == ret_pre.ime,
        step3 == Step::Running ==> ret_post_cpu.regs.pc == wrap16(call_pre.regs.pc + 3),
{
    reveal(call_post);
    reveal(ret_post);
    let m = after_call.initial@;
    let t0 = before_call.trace@;
    let n0 = t0.len() as int;
    let t1 = after_call.trace@;
    let t2 = before_ret.trace@;
    let t3 = after_ret.trace@;
    let n2 = t2.len() as int;
    let sp = ret_pre.regs.sp;
    let sp1 = wrap16(sp + 1);
    // What CALL left in memory: its two stack writes, then a read.
    assert(t1.drop_last().last() == t1[n0 + 4]);
    assert(t1.drop_last().drop_last().last() == t1[n0 + 3]);
    assert(t1.drop_last().drop_last() =~= t1.subrange(0, n0 + 4));
    assert(t1.drop_last().drop_last().drop_last() =~= t1.subrange(0, n0 + 3));
    let sp0 = call_pre.regs.sp;
    assert(sp == wrap16(sp0 - 2));
    assert(sp1 == wrap16(sp0 - 1));
    assert(sp1 != sp);
    let r3 = replay(m, t1.subrange(0, n0 + 3));
    let r4 = replay(m, t1.subrange(0, n0 + 4));
    assert(r4 == r3.update(sp1 as int, data_of(ev(t0, t1, 3))));
    assert(r4[sp1 as int] == data_of(ev(t0, t1, 3)));
    assert(after_call.memory@[sp as int] == data_of(ev(t0, t1, 4)));
    assert(after_call.memory@[sp1 as int] == data_of(ev(t0, t1, 3)));
    // What RET read: memory as it was before RET.
    lemma_reads_back_prefix(m, t3, n2 + 1);
    lemma_reads_back_prefix(m, t3, n2 + 2);
    assert(t3.take(n2 + 1).drop_last() =~= t2);
    assert(t3.take(n2 + 2).drop_last() =~= t3.take(n2 + 1));
    assert(t3.take(n2 + 1).last() == t3[n2]);
    assert(t3.take(n2 + 2).last() == t3[n2 + 1]);
    assert(replay(m, t3.take(n2 + 1)) == replay(m, t2));
    assert(rd(t2, t3, 0) == before_ret.memory@[sp as int]);
    assert(rd(t2, t3, 1) == before_ret.memory@[sp1 as int]);
    crate::cpu::execute::lemma_call_ret(
        call_pre,
        t0,
        t1,
        mid1,
        call_post_cpu,
        step1,
        ret_pre,
        t2,
        t3,
        mid3,
        ret_post_cpu,
        step3,
    );
}

} // verus!
