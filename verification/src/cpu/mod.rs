//! The Sharp SM83 CPU core.
//!
//! The CPU talks to the rest of the machine through a [`CpuContext`]. Every bus
//! cycle the CPU performs is recorded, in the specifications, as a [`BusEvent`]
//! of the context's trace, so that the contracts state both what an
//! instruction computes and which memory cycles it takes.
use vstd::prelude::*;
use crate::cpu::alu::{
    AluOp, RmwOp, alu8_regs, b2i, rl_result, rlc_result, rmw_flags, rmw_value, rr_result, rrc_result,
    sext, sub_flags, sub_result,
};
use crate::cpu::decode::{exec_post, is_defined_opcode};
use crate::cpu::registers::{Flags, Reg16, Reg8, Registers, word, hi_byte, lo_byte};
use crate::hardware::interrupts::{InterruptLine, INTERRUPT_LINES_ALL, at_most_one_line};
use crate::util::is_rightmost_one_u8;

pub mod alu;
pub mod decode;
pub mod execute;
pub mod flat_bus;
pub mod registers;

verus! {

/// One machine cycle, or notification, that the CPU performs on its context.
#[derive(Clone, Copy, Debug, PartialEq, Eq, Structural)]
pub enum BusEvent {
    /// A read cycle from an address, with the byte that came back.
    Read(u16, u8),
    /// A write cycle of a byte to an address.
    Write(u16, u8),
    /// An internal cycle without a memory access.
    Tick,
    /// Acknowledgement of interrupt lines: the lines pending at that moment,
    /// then the mask of the lines acknowledged.
    Ack(u8, u8),
    /// The debug breakpoint opcode was executed.
    DebugOpcode,
}

/// The event is a read cycle from `addr`.
pub open spec fn is_read_at(e: BusEvent, addr: u16) -> bool {
    match e {
        BusEvent::Read(a, _) => a == addr,
        _ => false,
    }
}

/// The byte that a read or write cycle moved.
pub open spec fn data_of(e: BusEvent) -> u8 {
    match e {
        BusEvent::Read(_, d) => d,
        BusEvent::Write(_, d) => d,
        _ => 0,
    }
}

/// `x` wrapped to 16 bits.
pub open spec fn wrap16(x: int) -> u16 {
    (x % 65536) as u16
}

/// `x` wrapped to 8 bits.
pub open spec fn wrap8(x: int) -> u8 {
    (x % 256) as u8
}

/// The address `0xff00 + a` of the high page.
pub open spec fn high_addr(a: u8) -> u16 {
    (0xff00 + a as int) as u16
}

/// `t1` is `t0` followed by `n` more events.
pub open spec fn extends(t0: Seq<BusEvent>, t1: Seq<BusEvent>, n: int) -> bool {
    &&& t1.len() == t0.len() + n
    &&& forall|i: int| 0 <= i < t0.len() ==> #[trigger] t1[i] == t0[i]
}

/// `t1` is `t0` followed by zero or more events.
pub open spec fn appends(t0: Seq<BusEvent>, t1: Seq<BusEvent>) -> bool {
    &&& t0.len() <= t1.len()
    &&& forall|i: int| 0 <= i < t0.len() ==> #[trigger] t1[i] == t0[i]
}

/// `t1` is `t0` followed by at least one more event.
pub open spec fn grows(t0: Seq<BusEvent>, t1: Seq<BusEvent>) -> bool {
    appends(t0, t1) && t1.len() > t0.len()
}

/// The `i`-th event of `t1` after the events of `t0`.
pub open spec fn ev(t0: Seq<BusEvent>, t1: Seq<BusEvent>, i: int) -> BusEvent {
    t1[t0.len() + i]
}

/// The byte moved by the `i`-th event of `t1` after those of `t0`.
pub open spec fn rd(t0: Seq<BusEvent>, t1: Seq<BusEvent>, i: int) -> u8 {
    data_of(t1[t0.len() + i])
}

/// A machine cycle: a read, a write or an internal cycle.
pub open spec fn is_cycle(e: BusEvent) -> bool {
    e is Read || e is Write || e is Tick
}

/// The number of machine cycles among the events of `t`.
#[verifier::opaque]
pub open spec fn cycles(t: Seq<BusEvent>) -> nat
    decreases t.len(),
{
    if t.len() == 0 {
        0
    } else {
        cycles(t.drop_last()) + if is_cycle(t.last()) {
            1nat
        } else {
            0nat
        }
    }
}

/// One more event adds one cycle if it is a machine cycle.
pub proof fn lemma_cycles_push(t: Seq<BusEvent>, e: BusEvent)
    ensures
        cycles(t.push(e)) == cycles(t) + if is_cycle(e) {
            1nat
        } else {
            0nat
        },
{
    reveal(cycles);
    assert(t.push(e).drop_last() =~= t);
}

/// No events, no cycles.
pub proof fn lemma_cycles_empty()
    ensures
        cycles(Seq::<BusEvent>::empty()) == 0,
{
    reveal(cycles);
}

/// What the CPU needs from the machine around it: memory cycles, internal
/// cycles and the interrupt lines.
pub trait CpuContext {
    /// The cycles performed on this context so far.
    spec fn trace(&self) -> Seq<BusEvent>;

    /// The interrupts pending in the middle of the current cycle.
    spec fn mid_interrupt(&self) -> InterruptLine;

    /// The interrupts pending at the end of the current cycle.
    spec fn end_interrupt(&self) -> InterruptLine;

    /// The context's own state (its clock, what it holds) agrees with its
    /// trace; every method keeps that agreement.
    spec fn trace_consistent(&self) -> bool;

    /// The state the trace starts from, as far as `trace_consistent` speaks
    /// of it (the memory of a flat bus before its first cycle); no method
    /// changes it.
    spec fn origin(&self) -> Seq<u8>;

    fn read_cycle(&mut self, addr: u16) -> (data: u8)
        ensures
            final(self).trace() == old(self).trace().push(BusEvent::Read(addr, data)),
            cycles(final(self).trace()) == cycles(old(self).trace()) + 1,
            old(self).trace_consistent() ==> final(self).trace_consistent(),
            final(self).origin() == old(self).origin(),
    ;

    fn read_cycle_high(&mut self, addr: u8) -> (data: u8)
        ensures
            final(self).trace() == old(self).trace().push(BusEvent::Read(high_addr(addr), data)),
            cycles(final(self).trace()) == cycles(old(self).trace()) + 1,
            old(self).trace_consistent() ==> final(self).trace_consistent(),
            final(self).origin() == old(self).origin(),
    {
        self.read_cycle(0xff00u16 + (addr as u16))
    }

    fn write_cycle(&mut self, addr: u16, data: u8)
        ensures
            final(self).trace() == old(self).trace().push(BusEvent::Write(addr, data)),
            cycles(final(self).trace()) == cycles(old(self).trace()) + 1,
            old(self).trace_consistent() ==> final(self).trace_consistent(),
            final(self).origin() == old(self).origin(),
    ;

    fn write_cycle_high(&mut self, addr: u8, data: u8)
        ensures
            final(self).trace() == old(self).trace().push(BusEvent::Write(high_addr(addr), data)),
            cycles(final(self).trace()) == cycles(old(self).trace()) + 1,
            old(self).trace_consistent() ==> final(self).trace_consistent(),
            final(self).origin() == old(self).origin(),
    {
        self.write_cycle(0xff00u16 + (addr as u16), data);
    }

    fn tick_cycle(&mut self)
        ensures
            final(self).trace() == old(self).trace().push(BusEvent::Tick),
            cycles(final(self).trace()) == cycles(old(self).trace()) + 1,
            old(self).trace_consistent() ==> final(self).trace_consistent(),
            final(self).origin() == old(self).origin(),
    ;

    fn get_mid_interrupt(&self) -> (r: InterruptLine)
        ensures
            r == self.mid_interrupt(),
    ;

    fn get_end_interrupt(&self) -> (r: InterruptLine)
        ensures
            r == self.end_interrupt(),
    ;

    fn ack_interrupt(&mut self, mask: InterruptLine)
        ensures
            final(self).trace() == old(self).trace().push(
                BusEvent::Ack(old(self).mid_interrupt().bits, mask.bits),
            ),
            cycles(final(self).trace()) == cycles(old(self).trace()),
            old(self).trace_consistent() ==> final(self).trace_consistent(),
            final(self).origin() == old(self).origin(),
    ;

    fn debug_opcode_callback(&mut self)
        ensures
            final(self).trace() == old(self).trace().push(BusEvent::DebugOpcode),
            cycles(final(self).trace()) == cycles(old(self).trace()),
            old(self).trace_consistent() ==> final(self).trace_consistent(),
            final(self).origin() == old(self).origin(),
    ;
}

/// The CPU: its registers, the interrupt master enable flag and the opcode
/// fetched for the next instruction.
#[derive(Clone, Copy, Debug, PartialEq, Eq, Structural)]
pub struct Cpu {
    pub regs: Registers,
    pub ime: bool,
    pub opcode: u8,
}

/// What the CPU does on its next step.
#[derive(Clone, Copy, Debug, PartialEq, Eq, Structural)]
pub enum Step {
    /// Execute the fetched opcode.
    Running,
    /// Wait in HALT for an interrupt.
    Halt,
    /// Dispatch an interrupt instead of the fetched opcode.
    InterruptDispatch,
}

/// Branch conditions.
#[derive(Clone, Copy, Debug, PartialEq, Eq, Structural)]
pub enum Cond {
    NZ,
    Z,
    NC,
    C,
}

/// The byte that follows the opcode.
#[derive(Clone, Copy, Debug, PartialEq, Eq, Structural)]
pub struct Immediate8;

/// Memory operands.
#[derive(Clone, Copy, Debug, PartialEq, Eq, Structural)]
pub enum Addr {
    /// (BC)
    BC,
    /// (DE)
    DE,
    /// (HL)
    HL,
    /// (HL-): HL is decremented after the access
    HLD,
    /// (HL+): HL is incremented after the access
    HLI,
    /// (nn): a 16-bit address after the opcode
    Direct,
    /// (FF00+n): an 8-bit offset after the opcode
    ZeroPage,
    /// (FF00+C)
    ZeroPageC,
}

/// 8-bit sources.
#[derive(Clone, Copy, Debug, PartialEq, Eq, Structural)]
pub enum In8 {
    Reg(Reg8),
    Imm(Immediate8),
    Addr(Addr),
}

/// 8-bit destinations; they are also the operands of read-modify-write
/// instructions.
#[derive(Clone, Copy, Debug, PartialEq, Eq, Structural)]
pub enum Out8 {
    Reg(Reg8),
    Addr(Addr),
}

impl Cond {
    /// The condition holds for the flags.
    pub open spec fn holds(self, f: Flags) -> bool {
        match self {
            Cond::NZ => !f.zero,
            Cond::Z => f.zero,
            Cond::NC => !f.carry,
            Cond::C => f.carry,
        }
    }

    pub fn check(&self, flags: Flags) -> (r: bool)
        ensures
            r == self.holds(flags),
    {
        match *self {
            Cond::NZ => !flags.zero,
            Cond::Z => flags.zero,
            Cond::NC => !flags.carry,
            Cond::C => flags.carry,
        }
    }
}

impl Out8 {
    /// The same operand, read as a source.
    pub open spec fn spec_as_in8(self) -> In8 {
        match self {
            Out8::Reg(r) => In8::Reg(r),
            Out8::Addr(a) => In8::Addr(a),
        }
    }

    pub fn as_in8(&self) -> (r: In8)
        ensures
            r == self.spec_as_in8(),
    {
        match *self {
            Out8::Reg(r) => In8::Reg(r),
            Out8::Addr(a) => In8::Addr(a),
        }
    }
}

/// Number of bus cycles that computing the address of a memory operand takes.
pub open spec fn addr_len(a: Addr) -> int {
    match a {
        Addr::Direct => 2,
        Addr::ZeroPage => 1,
        _ => 0,
    }
}

/// The cycles at offset `k` of the appended events are those that compute the
/// address of `a`.
pub open spec fn addr_ok(r: Registers, a: Addr, t0: Seq<BusEvent>, t1: Seq<BusEvent>, k: int) -> bool {
    match a {
        Addr::Direct => is_read_at(ev(t0, t1, k), r.pc) && is_read_at(
            ev(t0, t1, k + 1),
            wrap16(r.pc + 1),
        ),
        Addr::ZeroPage => is_read_at(ev(t0, t1, k), r.pc),
        _ => true,
    }
}

/// The address of a memory operand.
pub open spec fn addr_value(r: Registers, a: Addr, t0: Seq<BusEvent>, t1: Seq<BusEvent>, k: int) -> u16 {
    match a {
        Addr::BC => r.get16(Reg16::BC),
        Addr::DE => r.get16(Reg16::DE),
        Addr::HL => r.get16(Reg16::HL),
        Addr::HLD => r.get16(Reg16::HL),
        Addr::HLI => r.get16(Reg16::HL),
        Addr::Direct => word(rd(t0, t1, k + 1), rd(t0, t1, k)),
        Addr::ZeroPage => high_addr(rd(t0, t1, k)),
        Addr::ZeroPageC => high_addr(r.c),
    }
}

/// The registers after the address of a memory operand is computed.
pub open spec fn addr_regs(r: Registers, a: Addr) -> Registers {
    match a {
        Addr::HLD => r.set16(Reg16::HL, wrap16(r.get16(Reg16::HL) - 1)),
        Addr::HLI => r.set16(Reg16::HL, wrap16(r.get16(Reg16::HL) + 1)),
        Addr::Direct => Registers { pc: wrap16(r.pc + 2), ..r },
        Addr::ZeroPage => Registers { pc: wrap16(r.pc + 1), ..r },
        _ => r,
    }
}

/// Number of bus cycles that reading a source takes.
pub open spec fn in8_len(src: In8) -> int {
    match src {
        In8::Reg(_) => 0,
        In8::Imm(_) => 1,
        In8::Addr(a) => addr_len(a) + 1,
    }
}

/// The cycles at offset `k` of the appended events are those that read `src`.
pub open spec fn in8_ok(r: Registers, src: In8, t0: Seq<BusEvent>, t1: Seq<BusEvent>, k: int) -> bool {
    match src {
        In8::Reg(_) => true,
        In8::Imm(_) => is_read_at(ev(t0, t1, k), r.pc),
        In8::Addr(a) => addr_ok(r, a, t0, t1, k) && is_read_at(
            ev(t0, t1, k + addr_len(a)),
            addr_value(r, a, t0, t1, k),
        ),
    }
}

/// The byte read from `src`.
pub open spec fn in8_value(r: Registers, src: In8, t0: Seq<BusEvent>, t1: Seq<BusEvent>, k: int) -> u8 {
    match src {
        In8::Reg(x) => r.get8(x),
        In8::Imm(_) => rd(t0, t1, k),
        In8::Addr(a) => rd(t0, t1, k + addr_len(a)),
    }
}

/// The registers after `src` is read.
pub open spec fn in8_regs(r: Registers, src: In8) -> Registers {
    match src {
        In8::Reg(_) => r,
        In8::Imm(_) => Registers { pc: wrap16(r.pc + 1), ..r },
        In8::Addr(a) => addr_regs(r, a),
    }
}

/// Number of bus cycles that writing a destination takes.
pub open spec fn out8_len(dst: Out8) -> int {
    match dst {
        Out8::Reg(_) => 0,
        Out8::Addr(a) => addr_len(a) + 1,
    }
}

/// The cycles at offset `k` of the appended events are those that write
/// `data` to `dst`.
pub open spec fn out8_ok(r: Registers, dst: Out8, t0: Seq<BusEvent>, t1: Seq<BusEvent>, k: int, data: u8) -> bool {
    match dst {
        Out8::Reg(_) => true,
        Out8::Addr(a) => addr_ok(r, a, t0, t1, k) && ev(t0, t1, k + addr_len(a))
            == BusEvent::Write(addr_value(r, a, t0, t1, k), data),
    }
}

/// The registers after `data` is written to `dst`.
pub open spec fn out8_regs(r: Registers, dst: Out8, data: u8) -> Registers {
    match dst {
        Out8::Reg(x) => r.set8(x, data),
        Out8::Addr(a) => addr_regs(r, a),
    }
}

/// The opcode fetch that ends every instruction: the event at offset `k`
/// reads the opcode at `addr`; the CPU then either moves past it or, when an
/// interrupt is pending and enabled, dispatches the interrupt.
pub open spec fn prefetched(
    pre: Cpu,
    addr: u16,
    t0: Seq<BusEvent>,
    t1: Seq<BusEvent>,
    k: int,
    mid: InterruptLine,
    post: Cpu,
    step: Step,
) -> bool {
    &&& is_read_at(ev(t0, t1, k), addr)
    &&& post.opcode == rd(t0, t1, k)
    &&& post.ime == pre.ime
    &&& if pre.ime && mid.bits != 0 {
        step == Step::InterruptDispatch && post.regs == pre.regs
    } else {
        step == Step::Running && post.regs == (Registers { pc: wrap16(addr + 1), ..pre.regs })
    }
}

/// The CPU with other registers.
pub open spec fn with_regs(cpu: Cpu, regs: Registers) -> Cpu {
    Cpu { regs, ..cpu }
}

/// An accumulator operation on source `src`, followed by the next opcode
/// fetch.
#[verifier::opaque]
pub open spec fn alu8_post(
    op: AluOp,
    pre: Cpu,
    src: In8,
    t0: Seq<BusEvent>,
    t1: Seq<BusEvent>,
    mid: InterruptLine,
    post: Cpu,
    step: Step,
) -> bool {
    let r0 = pre.regs;
    let v = in8_value(r0, src, t0, t1, 0);
    let r2 = alu8_regs(op, in8_regs(r0, src), v);
    &&& extends(t0, t1, in8_len(src) + 1)
    &&& in8_ok(r0, src, t0, t1, 0)
    &&& prefetched(with_regs(pre, r2), r2.pc, t0, t1, in8_len(src), mid, post, step)
}

/// A read-modify-write operation on operand `io`: the operand is read, the
/// flags are set, the new value is written back, and the next opcode is
/// fetched.
#[verifier::opaque]
pub open spec fn rmw_post(
    op: RmwOp,
    pre: Cpu,
    io: Out8,
    t0: Seq<BusEvent>,
    t1: Seq<BusEvent>,
    mid: InterruptLine,
    post: Cpu,
    step: Step,
) -> bool {
    let r0 = pre.regs;
    let src = io.spec_as_in8();
    let v = in8_value(r0, src, t0, t1, 0);
    let nv = rmw_value(op, v, r0.f);
    let r1 = Registers { f: rmw_flags(op, v, r0.f), ..in8_regs(r0, src) };
    let r2 = out8_regs(r1, io, nv);
    let n1 = in8_len(src);
    let n2 = out8_len(io);
    &&& extends(t0, t1, n1 + n2 + 1)
    &&& in8_ok(r0, src, t0, t1, 0)
    &&& out8_ok(r1, io, t0, t1, n1, nv)
    &&& prefetched(with_regs(pre, r2), r2.pc, t0, t1, n1 + n2, mid, post, step)
}

/// The address that the interrupt in `mask` jumps to; 0 when no interrupt
/// was left to acknowledge.
pub open spec fn interrupt_vector(mask: u8) -> u16 {
    if mask == InterruptLine::VBLANK {
        0x0040
    } else if mask == InterruptLine::STAT {
        0x0048
    } else if mask == InterruptLine::TIMER {
        0x0050
    } else if mask == InterruptLine::SERIAL {
        0x0058
    } else if mask == InterruptLine::JOYPAD {
        0x0060
    } else {
        0x0000
    }
}

/// The interrupt vectors: the handler of line `i` (bit `i` of IF and IE,
/// from VBlank at 0 to the joypad at 4) starts at 0x40 + 8 i.
pub proof fn lemma_interrupt_vectors(i: nat)
    requires
        i < 5,
    ensures
        interrupt_vector(vstd::arithmetic::power2::pow2(i) as u8) == 0x40 + 8 * i,
{
    vstd::arithmetic::power2::lemma2_to64();
}

/// The mask of an acknowledgement event.
pub open spec fn ack_of(e: BusEvent) -> u8 {
    match e {
        BusEvent::Ack(_, m) => m,
        _ => 0,
    }
}

/// The lines pending when an acknowledgement was made.
pub open spec fn ack_pending(e: BusEvent) -> u8 {
    match e {
        BusEvent::Ack(p, _) => p,
        _ => 0,
    }
}

/// Interrupt dispatch: IME is cleared, two internal cycles pass while PC is
/// pushed, the interrupt with the highest priority that is pending at that
/// moment is acknowledged, and the first opcode of its handler is fetched.
pub open spec fn dispatch_post(pre: Cpu, t0: Seq<BusEvent>, t1: Seq<BusEvent>, post: Cpu, step: Step) -> bool {
    let r0 = pre.regs;
    let m = ack_of(ev(t0, t1, 4));
    let vector = interrupt_vector(m);
    &&& extends(t0, t1, 6)
    &&& ev(t0, t1, 0) == BusEvent::Tick
    &&& ev(t0, t1, 1) == BusEvent::Tick
    &&& ev(t0, t1, 2) == BusEvent::Write(wrap16(r0.sp - 1), hi_byte(r0.pc))
    &&& ev(t0, t1, 3) == BusEvent::Write(wrap16(r0.sp - 2), lo_byte(r0.pc))
    &&& ev(t0, t1, 4) is Ack
    &&& is_rightmost_one_u8(ack_pending(ev(t0, t1, 4)) & INTERRUPT_LINES_ALL, m)
    &&& at_most_one_line(m)
    &&& is_read_at(ev(t0, t1, 5), vector)
    &&& step == Step::Running
    &&& post == (Cpu {
        regs: Registers { pc: wrap16(vector + 1), sp: wrap16(r0.sp - 2), ..r0 },
        ime: false,
        opcode: rd(t0, t1, 5),
    })
}

/// Waiting in HALT: once an interrupt is pending at the end of a cycle the
/// next opcode is fetched; until then an internal cycle passes.
pub open spec fn halt_wait_post(
    pre: Cpu,
    end: InterruptLine,
    t0: Seq<BusEvent>,
    t1: Seq<BusEvent>,
    mid: InterruptLine,
    post: Cpu,
    step: Step,
) -> bool {
    &&& extends(t0, t1, 1)
    &&& if end.bits != 0 {
        prefetched(pre, pre.regs.pc, t0, t1, 0, mid, post, step)
    } else {
        ev(t0, t1, 0) == BusEvent::Tick && post == pre && step == Step::Halt
    }
}

/// The CPU can take `step`: a running CPU must hold an opcode that names an
/// instruction.
pub open spec fn can_step(cpu: Cpu, step: Step) -> bool {
    step == Step::Running ==> is_defined_opcode(cpu.opcode)
}

impl Cpu {
    pub fn new() -> (r: Cpu)
        ensures
            r.regs == Registers::initial(),
            !r.ime,
            r.opcode == 0,
    {
        Cpu { regs: Registers::new(), ime: false, opcode: 0x00 }
    }

    /// Fetches the opcode at `addr` and decides what the next step is.
    pub fn prefetch_next<H: CpuContext>(&mut self, ctx: &mut H, addr: u16) -> (step: Step)
        ensures
            old(ctx).trace_consistent() ==> final(ctx).trace_consistent(),
            final(ctx).origin() == old(ctx).origin(),
            cycles(old(ctx).trace()) < cycles(final(ctx).trace()),
            extends(old(ctx).trace(), final(ctx).trace(), 1),
            prefetched(
                *old(self),
                addr,
                old(ctx).trace(),
                final(ctx).trace(),
                0,
                final(ctx).mid_interrupt(),
                *final(self),
                step,
            ),
    {
        self.opcode = ctx.read_cycle(addr);
        if self.ime && !ctx.get_mid_interrupt().is_empty() {
            Step::InterruptDispatch
        } else {
            self.regs.pc = addr.wrapping_add(1);
            Step::Running
        }
    }

    /// Reads the byte at PC and moves PC past it.
    pub fn fetch_imm8<H: CpuContext>(&mut self, ctx: &mut H) -> (r: u8)
        ensures
            old(ctx).trace_consistent() ==> final(ctx).trace_consistent(),
            final(ctx).origin() == old(ctx).origin(),
            cycles(old(ctx).trace()) < cycles(final(ctx).trace()),
            extends(old(ctx).trace(), final(ctx).trace(), 1),
            is_read_at(ev(old(ctx).trace(), final(ctx).trace(), 0), old(self).regs.pc),
            r == rd(old(ctx).trace(), final(ctx).trace(), 0),
            *final(self) == with_regs(
                *old(self),
                Registers { pc: wrap16(old(self).regs.pc + 1), ..old(self).regs },
            ),
    {
        let addr = self.regs.pc;
        self.regs.pc = self.regs.pc.wrapping_add(1);
        ctx.read_cycle(addr)
    }

    /// Reads the little-endian word at PC and moves PC past it.
    pub fn fetch_imm16<H: CpuContext>(&mut self, ctx: &mut H) -> (r: u16)
        ensures
            old(ctx).trace_consistent() ==> final(ctx).trace_consistent(),
            final(ctx).origin() == old(ctx).origin(),
            cycles(old(ctx).trace()) < cycles(final(ctx).trace()),
            extends(old(ctx).trace(), final(ctx).trace(), 2),
            is_read_at(ev(old(ctx).trace(), final(ctx).trace(), 0), old(self).regs.pc),
            is_read_at(ev(old(ctx).trace(), final(ctx).trace(), 1), wrap16(old(self).regs.pc + 1)),
            r == word(
                rd(old(ctx).trace(), final(ctx).trace(), 1),
                rd(old(ctx).trace(), final(ctx).trace(), 0),
            ),
            *final(self) == with_regs(
                *old(self),
                Registers { pc: wrap16(old(self).regs.pc + 2), ..old(self).regs },
            ),
    {
        let lo = self.fetch_imm8(ctx);
        let hi = self.fetch_imm8(ctx);
        (hi as u16) * 256 + (lo as u16)
    }

    /// Reads the byte at SP and moves SP up.
    fn pop_u8<H: CpuContext>(&mut self, ctx: &mut H) -> (r: u8)
        ensures
            old(ctx).trace_consistent() ==> final(ctx).trace_consistent(),
            final(ctx).origin() == old(ctx).origin(),
            cycles(old(ctx).trace()) < cycles(final(ctx).trace()),
            extends(old(ctx).trace(), final(ctx).trace(), 1),
            is_read_at(ev(old(ctx).trace(), final(ctx).trace(), 0), old(self).regs.sp),
            r == rd(old(ctx).trace(), final(ctx).trace(), 0),
            *final(self) == with_regs(
                *old(self),
                Registers { sp: wrap16(old(self).regs.sp + 1), ..old(self).regs },
            ),
    {
        let sp = self.regs.sp;
        let value = ctx.read_cycle(sp);
        self.regs.sp = self.regs.sp.wrapping_add(1);
        value
    }

    /// Moves SP down and writes a byte there.
    fn push_u8<H: CpuContext>(&mut self, ctx: &mut H, value: u8)
        ensures
            old(ctx).trace_consistent() ==> final(ctx).trace_consistent(),
            final(ctx).origin() == old(ctx).origin(),
            cycles(old(ctx).trace()) < cycles(final(ctx).trace()),
            extends(old(ctx).trace(), final(ctx).trace(), 1),
            ev(old(ctx).trace(), final(ctx).trace(), 0) == BusEvent::Write(
                wrap16(old(self).regs.sp - 1),
                value,
            ),
            *final(self) == with_regs(
                *old(self),
                Registers { sp: wrap16(old(self).regs.sp - 1), ..old(self).regs },
            ),
    {
        self.regs.sp = self.regs.sp.wrapping_sub(1);
        let sp = self.regs.sp;
        ctx.write_cycle(sp, value);
    }

    /// Pops a little-endian word off the stack.
    pub fn pop_u16<H: CpuContext>(&mut self, ctx: &mut H) -> (r: u16)
        ensures
            old(ctx).trace_consistent() ==> final(ctx).trace_consistent(),
            final(ctx).origin() == old(ctx).origin(),
            cycles(old(ctx).trace()) < cycles(final(ctx).trace()),
            extends(old(ctx).trace(), final(ctx).trace(), 2),
            is_read_at(ev(old(ctx).trace(), final(ctx).trace(), 0), old(self).regs.sp),
            is_read_at(ev(old(ctx).trace(), final(ctx).trace(), 1), wrap16(old(self).regs.sp + 1)),
            r == word(
                rd(old(ctx).trace(), final(ctx).trace(), 1),
                rd(old(ctx).trace(), final(ctx).trace(), 0),
            ),
            *final(self) == with_regs(
                *old(self),
                Registers { sp: wrap16(old(self).regs.sp + 2), ..old(self).regs },
            ),
    {
        let lo = self.pop_u8(ctx);
        let hi = self.pop_u8(ctx);
        (hi as u16) * 256 + (lo as u16)
    }

    /// Pushes a word on the stack: an internal cycle, then the high byte and
    /// the low byte, each at a lower address.
    pub fn push_u16<H: CpuContext>(&mut self, ctx: &mut H, value: u16)
        ensures
            old(ctx).trace_consistent() ==> final(ctx).trace_consistent(),
            final(ctx).origin() == old(ctx).origin(),
            cycles(old(ctx).trace()) < cycles(final(ctx).trace()),
            extends(old(ctx).trace(), final(ctx).trace(), 3),
            ev(old(ctx).trace(), final(ctx).trace(), 0) == BusEvent::Tick,
            ev(old(ctx).trace(), final(ctx).trace(), 1) == BusEvent::Write(
                wrap16(old(self).regs.sp - 1),
                hi_byte(value),
            ),
            ev(old(ctx).trace(), final(ctx).trace(), 2) == BusEvent::Write(
                wrap16(old(self).regs.sp - 2),
                lo_byte(value),
            ),
            *final(self) == with_regs(
                *old(self),
                Registers { sp: wrap16(old(self).regs.sp - 2), ..old(self).regs },
            ),
    {
        ctx.tick_cycle();
        self.push_u8(ctx, (value / 256) as u8);
        self.push_u8(ctx, (value % 256) as u8);
    }

    /// Computes the address of a memory operand.
    pub fn indirect_addr<H: CpuContext>(&mut self, ctx: &mut H, addr: Addr) -> (r: u16)
        ensures
            old(ctx).trace_consistent() ==> final(ctx).trace_consistent(),
            final(ctx).origin() == old(ctx).origin(),
            cycles(old(ctx).trace()) <= cycles(final(ctx).trace()),
            extends(old(ctx).trace(), final(ctx).trace(), addr_len(addr)),
            addr_ok(old(self).regs, addr, old(ctx).trace(), final(ctx).trace(), 0),
            r == addr_value(old(self).regs, addr, old(ctx).trace(), final(ctx).trace(), 0),
            *final(self) == with_regs(*old(self), addr_regs(old(self).regs, addr)),
    {
        match addr {
            Addr::BC => self.regs.read16(Reg16::BC),
            Addr::DE => self.regs.read16(Reg16::DE),
            Addr::HL => self.regs.read16(Reg16::HL),
            Addr::HLD => {
                let addr = self.regs.read16(Reg16::HL);
                self.regs.write16(Reg16::HL, addr.wrapping_sub(1));
                addr
            },
            Addr::HLI => {
                let addr = self.regs.read16(Reg16::HL);
                self.regs.write16(Reg16::HL, addr.wrapping_add(1));
                addr
            },
            Addr::Direct => self.fetch_imm16(ctx),
            Addr::ZeroPage => 0xff00u16 + self.fetch_imm8(ctx) as u16,
            Addr::ZeroPageC => 0xff00u16 + self.regs.c as u16,
        }
    }

    /// Reads an 8-bit source.
    pub fn read<H: CpuContext>(&mut self, src: In8, ctx: &mut H) -> (r: u8)
        ensures
            old(ctx).trace_consistent() ==> final(ctx).trace_consistent(),
            final(ctx).origin() == old(ctx).origin(),
            cycles(old(ctx).trace()) <= cycles(final(ctx).trace()),
            extends(old(ctx).trace(), final(ctx).trace(), in8_len(src)),
            in8_ok(old(self).regs, src, old(ctx).trace(), final(ctx).trace(), 0),
            r == in8_value(old(self).regs, src, old(ctx).trace(), final(ctx).trace(), 0),
            *final(self) == with_regs(*old(self), in8_regs(old(self).regs, src)),
    {
        match src {
            In8::Reg(reg) => self.regs.read8(reg),
            In8::Imm(_) => self.fetch_imm8(ctx),
            In8::Addr(a) => {
                let addr = self.indirect_addr(ctx, a);
                ctx.read_cycle(addr)
            },
        }
    }

    /// Writes an 8-bit destination.
    pub fn write<H: CpuContext>(&mut self, dst: Out8, ctx: &mut H, data: u8)
        ensures
            old(ctx).trace_consistent() ==> final(ctx).trace_consistent(),
            final(ctx).origin() == old(ctx).origin(),
            cycles(old(ctx).trace()) <= cycles(final(ctx).trace()),
            extends(old(ctx).trace(), final(ctx).trace(), out8_len(dst)),
            out8_ok(old(self).regs, dst, old(ctx).trace(), final(ctx).trace(), 0, data),
            *final(self) == with_regs(*old(self), out8_regs(old(self).regs, dst, data)),
    {
        match dst {
            Out8::Reg(reg) => self.regs.write8(reg, data),
            Out8::Addr(a) => {
                let addr = self.indirect_addr(ctx, a);
                ctx.write_cycle(addr, data)
            },
        }
    }

    pub fn check_cond(&self, cond: Cond) -> (r: bool)
        ensures
            r == cond.holds(self.regs.f),
    {
        cond.check(self.regs.f)
    }

    /// A - value - carry; sets all four flags and returns the difference.
    fn alu_sub(&mut self, value: u8, carry: bool) -> (r: u8)
        ensures
            r == sub_result(old(self).regs.a, value, carry),
            *final(self) == with_regs(
                *old(self),
                Registers { f: sub_flags(old(self).regs.a, value, carry), ..old(self).regs },
            ),
    {
        let cy: u8 = if carry {
            1
        } else {
            0
        };
        let a = self.regs.a;
        let result = a.wrapping_sub(value).wrapping_sub(cy);
        self.regs.set_zf(result == 0);
        self.regs.set_nf(true);
        self.regs.set_hf(a % 16 < value % 16 + cy);
        self.regs.set_cf((a as u16) < (value as u16) + (cy as u16));
        result
    }

    /// Rotates left through the carry; sets all four flags.
    fn alu_rl(&mut self, value: u8) -> (r: u8)
        ensures
            r == rmw_value(RmwOp::Rl, value, old(self).regs.f),
            *final(self) == with_regs(
                *old(self),
                Registers { f: rmw_flags(RmwOp::Rl, value, old(self).regs.f), ..old(self).regs },
            ),
    {
        let ci: u8 = if self.regs.cf() {
            1
        } else {
            0
        };
        let co = value >= 0x80;
        let new_value = (value % 128) * 2 + ci;
        self.regs.set_zf(new_value == 0);
        self.regs.set_nf(false);
        self.regs.set_hf(false);
        self.regs.set_cf(co);
        new_value
    }

    /// Rotates left, bit 7 into the carry and bit 0; sets all four flags.
    fn alu_rlc(&mut self, value: u8) -> (r: u8)
        ensures
            r == rmw_value(RmwOp::Rlc, value, old(self).regs.f),
            *final(self) == with_regs(
                *old(self),
                Registers { f: rmw_flags(RmwOp::Rlc, value, old(self).regs.f), ..old(self).regs },
            ),
    {
        let co = value >= 0x80;
        let new_value = (value % 128) * 2 + value / 128;
        self.regs.set_zf(new_value == 0);
        self.regs.set_nf(false);
        self.regs.set_hf(false);
        self.regs.set_cf(co);
        new_value
    }

    /// Rotates right through the carry; sets all four flags.
    fn alu_rr(&mut self, value: u8) -> (r: u8)
        ensures
            r == rmw_value(RmwOp::Rr, value, old(self).regs.f),
            *final(self) == with_regs(
                *old(self),
                Registers { f: rmw_flags(RmwOp::Rr, value, old(self).regs.f), ..old(self).regs },
            ),
    {
        let ci: u8 = if self.regs.cf() {
            1
        } else {
            0
        };
        let co = value % 2 == 1;
        let new_value = value / 2 + ci * 128;
        self.regs.set_zf(new_value == 0);
        self.regs.set_nf(false);
        self.regs.set_hf(false);
        self.regs.set_cf(co);
        new_value
    }

    /// Rotates right, bit 0 into the carry and bit 7; sets all four flags.
    fn alu_rrc(&mut self, value: u8) -> (r: u8)
        ensures
            r == rmw_value(RmwOp::Rrc, value, old(self).regs.f),
            *final(self) == with_regs(
                *old(self),
                Registers { f: rmw_flags(RmwOp::Rrc, value, old(self).regs.f), ..old(self).regs },
            ),
    {
        let co = value % 2 == 1;
        let new_value = value / 2 + (value % 2) * 128;
        self.regs.set_zf(new_value == 0);
        self.regs.set_nf(false);
        self.regs.set_hf(false);
        self.regs.set_cf(co);
        new_value
    }

    /// Jumps to `addr`; the jump takes an internal cycle.
    fn ctrl_jp<H: CpuContext>(&mut self, ctx: &mut H, addr: u16)
        ensures
            old(ctx).trace_consistent() ==> final(ctx).trace_consistent(),
            final(ctx).origin() == old(ctx).origin(),
            cycles(old(ctx).trace()) < cycles(final(ctx).trace()),
            final(ctx).trace() == old(ctx).trace().push(BusEvent::Tick),
            *final(self) == with_regs(*old(self), Registers { pc: addr, ..old(self).regs }),
    {
        self.regs.pc = addr;
        ctx.tick_cycle();
    }

    /// Jumps relative to PC by the signed offset `offset`; the jump takes an
    /// internal cycle.
    fn ctrl_jr<H: CpuContext>(&mut self, ctx: &mut H, offset: u8)
        ensures
            old(ctx).trace_consistent() ==> final(ctx).trace_consistent(),
            final(ctx).origin() == old(ctx).origin(),
            cycles(old(ctx).trace()) < cycles(final(ctx).trace()),
            final(ctx).trace() == old(ctx).trace().push(BusEvent::Tick),
            *final(self) == with_regs(
                *old(self),
                Registers { pc: wrap16(old(self).regs.pc + sext(offset)), ..old(self).regs },
            ),
    {
        let extended: u16 = if offset < 128 {
            offset as u16
        } else {
            offset as u16 + 0xff00
        };
        self.regs.pc = self.regs.pc.wrapping_add(extended);
        ctx.tick_cycle();
    }

    /// Pushes PC and jumps to `addr`.
    fn ctrl_call<H: CpuContext>(&mut self, ctx: &mut H, addr: u16)
        ensures
            old(ctx).trace_consistent() ==> final(ctx).trace_consistent(),
            final(ctx).origin() == old(ctx).origin(),
            cycles(old(ctx).trace()) < cycles(final(ctx).trace()),
            extends(old(ctx).trace(), final(ctx).trace(), 3),
            ev(old(ctx).trace(), final(ctx).trace(), 0) == BusEvent::Tick,
            ev(old(ctx).trace(), final(ctx).trace(), 1) == BusEvent::Write(
                wrap16(old(self).regs.sp - 1),
                hi_byte(old(self).regs.pc),
            ),
            ev(old(ctx).trace(), final(ctx).trace(), 2) == BusEvent::Write(
                wrap16(old(self).regs.sp - 2),
                lo_byte(old(self).regs.pc),
            ),
            *final(self) == with_regs(
                *old(self),
                Registers { pc: addr, sp: wrap16(old(self).regs.sp - 2), ..old(self).regs },
            ),
    {
        let pc = self.regs.pc;
        self.push_u16(ctx, pc);
        self.regs.pc = addr;
    }

    /// Pops PC; the return takes an internal cycle.
    fn ctrl_ret<H: CpuContext>(&mut self, ctx: &mut H)
        ensures
            old(ctx).trace_consistent() ==> final(ctx).trace_consistent(),
            final(ctx).origin() == old(ctx).origin(),
            cycles(old(ctx).trace()) < cycles(final(ctx).trace()),
            extends(old(ctx).trace(), final(ctx).trace(), 3),
            is_read_at(ev(old(ctx).trace(), final(ctx).trace(), 0), old(self).regs.sp),
            is_read_at(ev(old(ctx).trace(), final(ctx).trace(), 1), wrap16(old(self).regs.sp + 1)),
            ev(old(ctx).trace(), final(ctx).trace(), 2) == BusEvent::Tick,
            *final(self) == with_regs(
                *old(self),
                Registers {
                    pc: word(
                        rd(old(ctx).trace(), final(ctx).trace(), 1),
                        rd(old(ctx).trace(), final(ctx).trace(), 0),
                    ),
                    sp: wrap16(old(self).regs.sp + 2),
                    ..old(self).regs
                },
            ),
    {
        self.regs.pc = self.pop_u16(ctx);
        ctx.tick_cycle();
    }

    /// Performs one step: runs the fetched instruction, dispatches an
    /// interrupt, or waits in HALT.
    pub fn execute_step<H: CpuContext>(&mut self, ctx: &mut H, step: Step) -> (next: Step)
        requires
            can_step(*old(self), step),
        ensures
            old(ctx).trace_consistent() ==> final(ctx).trace_consistent(),
            final(ctx).origin() == old(ctx).origin(),
            cycles(old(ctx).trace()) < cycles(final(ctx).trace()),
            grows(old(ctx).trace(), final(ctx).trace()),
            step == Step::Running ==> exec_post(
                old(self).opcode,
                *old(self),
                old(ctx).trace(),
                final(ctx).trace(),
                final(ctx).mid_interrupt(),
                *final(self),
                next,
            ),
            step == Step::InterruptDispatch ==> dispatch_post(
                *old(self),
                old(ctx).trace(),
                final(ctx).trace(),
                *final(self),
                next,
            ),
            step == Step::Halt ==> halt_wait_post(
                *old(self),
                old(ctx).end_interrupt(),
                old(ctx).trace(),
                final(ctx).trace(),
                final(ctx).mid_interrupt(),
                *final(self),
                next,
            ),
    {
        match step {
            Step::Running => self.decode_exec_fetch(ctx),
            Step::InterruptDispatch => {
                self.ime = false;
                ctx.tick_cycle();
                let pc = self.regs.pc;
                self.push_u16(ctx, pc);
                let interrupt = ctx.get_mid_interrupt().highest_priority();
                ctx.ack_interrupt(interrupt);
                let bits = interrupt.bits();
                self.regs.pc = if bits == InterruptLine::VBLANK {
                    0x0040
                } else if bits == InterruptLine::STAT {
                    0x0048
                } else if bits == InterruptLine::TIMER {
                    0x0050
                } else if bits == InterruptLine::SERIAL {
                    0x0058
                } else if bits == InterruptLine::JOYPAD {
                    0x0060
                } else {
                    0x0000
                };
                self.opcode = self.fetch_imm8(ctx);
                Step::Running
            },
            Step::Halt => {
                if !ctx.get_end_interrupt().is_empty() {
                    self.prefetch_next(ctx, self.regs.pc)
                } else {
                    ctx.tick_cycle();
                    Step::Halt
                }
            },
        }
    }
}

} // verus!
