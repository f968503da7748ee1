//! The instructions of the CPU. Each one ends by fetching the next opcode.
use vstd::prelude::*;
use crate::cpu::alu::{AluOp, RmwOp, alu8_regs, daa_result, rmw_flags, rmw_value, sext};
use crate::hardware::interrupts::InterruptLine;
use crate::cpu::registers::{Flags, Reg16, Reg8, Registers, word, hi_byte, lo_byte};
use crate::util::{IntExt, carry_from_bit_u16};
use crate::cpu::{
    Addr, BusEvent, Cond, Cpu, CpuContext, In8, Out8, Step, addr_len, addr_ok, addr_regs, addr_value,
    appends, grows, data_of, ev, extends, high_addr, in8_len, in8_ok, in8_regs, in8_value, is_read_at, out8_len,
    out8_ok, out8_regs, prefetched, rd, with_regs, wrap16, wrap8, alu8_post, rmw_post, cycles,
};

verus! {

/// The DAA table in page 110 of the official "Game Boy Programming Manual":
/// the adjusted accumulator and the new carry.
fn daa_adjust(a: u8, n: bool, h: bool, c: bool) -> (r: (u8, bool))
    ensures
        r == daa_result(a, n, h, c),
{
    let mut a = a;
    let mut carry = false;
    if !n {
        if c || a > 0x99 {
            a = a.wrapping_add(0x60);
            carry = true;
        }
        if h || a % 16 > 0x09 {
            a = a.wrapping_add(0x06);
        }
    } else if c {
        carry = true;
        let adjust: u8 = if h {
            0x9a
        } else {
            0xa0
        };
        a = a.wrapping_add(adjust);
    } else if h {
        a = a.wrapping_add(0xfa);
    }
    (a, carry)
}

/// The effect of `Cpu::load`.
#[verifier::opaque]
pub open spec fn load_post(
    pre: Cpu,
    out8: Out8,
    in8: In8,
    t0: Seq<BusEvent>,
    t1: Seq<BusEvent>,
    mid: InterruptLine,
    post: Cpu,
    step: Step,
) -> bool {
        let t0 = t0;
        let t1 = t1;
        let r0 = pre.regs;
        let v = in8_value(r0, in8, t0, t1, 0);
        let r1 = in8_regs(r0, in8);
        let r2 = out8_regs(r1, out8, v);
        &&& extends(t0, t1, in8_len(in8) + out8_len(out8) + 1)
        &&& in8_ok(r0, in8, t0, t1, 0)
        &&& out8_ok(r1, out8, t0, t1, in8_len(in8), v)
        &&& prefetched(
            with_regs(pre, r2),
            r2.pc,
            t0,
            t1,
            in8_len(in8) + out8_len(out8),
            mid,
            post,
            step,
        )
    }

/// The effect of `Cpu::rlca`.
#[verifier::opaque]
pub open spec fn rlca_post(
    pre: Cpu,
    t0: Seq<BusEvent>,
    t1: Seq<BusEvent>,
    mid: InterruptLine,
    post: Cpu,
    step: Step,
) -> bool {
        let r0 = pre.regs;
        let r1 = Registers {
            a: rmw_value(RmwOp::Rlc, r0.a, r0.f),
            f: Flags { zero: false, ..rmw_flags(RmwOp::Rlc, r0.a, r0.f) },
            ..r0
        };
        &&& extends(t0, t1, 1)
        &&& prefetched(with_regs(pre, r1), r1.pc, t0, t1, 0, mid, post, step)
    }

/// The effect of `Cpu::rla`.
#[verifier::opaque]
pub open spec fn rla_post(
    pre: Cpu,
    t0: Seq<BusEvent>,
    t1: Seq<BusEvent>,
    mid: InterruptLine,
    post: Cpu,
    step: Step,
) -> bool {
        let r0 = pre.regs;
        let r1 = Registers {
            a: rmw_value(RmwOp::Rl, r0.a, r0.f),
            f: Flags { zero: false, ..rmw_flags(RmwOp::Rl, r0.a, r0.f) },
            ..r0
        };
        &&& extends(t0, t1, 1)
        &&& prefetched(with_regs(pre, r1), r1.pc, t0, t1, 0, mid, post, step)
    }

/// The effect of `Cpu::rrca`.
#[verifier::opaque]
pub open spec fn rrca_post(
    pre: Cpu,
    t0: Seq<BusEvent>,
    t1: Seq<BusEvent>,
    mid: InterruptLine,
    post: Cpu,
    step: Step,
) -> bool {
        let r0 = pre.regs;
        let r1 = Registers {
            a: rmw_value(RmwOp::Rrc, r0.a, r0.f),
            f: Flags { zero: false, ..rmw_flags(RmwOp::Rrc, r0.a, r0.f) },
            ..r0
        };
        &&& extends(t0, t1, 1)
        &&& prefetched(with_regs(pre, r1), r1.pc, t0, t1, 0, mid, post, step)
    }

/// The effect of `Cpu::rra`.
#[verifier::opaque]
pub open spec fn rra_post(
    pre: Cpu,
    t0: Seq<BusEvent>,
    t1: Seq<BusEvent>,
    mid: InterruptLine,
    post: Cpu,
    step: Step,
) -> bool {
        let r0 = pre.regs;
        let r1 = Registers {
            a: rmw_value(RmwOp::Rr, r0.a, r0.f),
            f: Flags { zero: false, ..rmw_flags(RmwOp::Rr, r0.a, r0.f) },
            ..r0
        };
        &&& extends(t0, t1, 1)
        &&& prefetched(with_regs(pre, r1), r1.pc, t0, t1, 0, mid, post, step)
    }

/// The effect of `Cpu::ld_b_b`.
#[verifier::opaque]
pub open spec fn ld_b_b_post(
    pre: Cpu,
    t0: Seq<BusEvent>,
    t1: Seq<BusEvent>,
    mid: InterruptLine,
    post: Cpu,
    step: Step,
) -> bool {
    &&& extends(t0, t1, 2)
    &&& ev(t0, t1, 0) == BusEvent::DebugOpcode
    &&& prefetched(pre, pre.regs.pc, t0, t1, 1, mid, post, step)
}

/// The effect of `Cpu::jp`.
#[verifier::opaque]
pub open spec fn jp_post(
    pre: Cpu,
    t0: Seq<BusEvent>,
    t1: Seq<BusEvent>,
    mid: InterruptLine,
    post: Cpu,
    step: Step,
) -> bool {
        let r0 = pre.regs;
        let target = word(rd(t0, t1, 1), rd(t0, t1, 0));
        &&& extends(t0, t1, 4)
        &&& is_read_at(ev(t0, t1, 0), r0.pc)
        &&& is_read_at(ev(t0, t1, 1), wrap16(r0.pc + 1))
        &&& ev(t0, t1, 2) == BusEvent::Tick
        &&& prefetched(with_regs(pre, Registers { pc: target, ..r0 }), target, t0, t1, 3, mid, post, step)
    }

/// The effect of `Cpu::jp_hl`.
#[verifier::opaque]
pub open spec fn jp_hl_post(
    pre: Cpu,
    t0: Seq<BusEvent>,
    t1: Seq<BusEvent>,
    mid: InterruptLine,
    post: Cpu,
    step: Step,
) -> bool {
    &&& extends(t0, t1, 1)
    &&& prefetched(pre, pre.regs.get16(Reg16::HL), t0, t1, 0, mid, post, step)
}

/// The effect of `Cpu::jr`.
#[verifier::opaque]
pub open spec fn jr_post(
    pre: Cpu,
    t0: Seq<BusEvent>,
    t1: Seq<BusEvent>,
    mid: InterruptLine,
    post: Cpu,
    step: Step,
) -> bool {
        let r0 = pre.regs;
        let target = wrap16(r0.pc + 1 + sext(rd(t0, t1, 0)));
        &&& extends(t0, t1, 3)
        &&& is_read_at(ev(t0, t1, 0), r0.pc)
        &&& ev(t0, t1, 1) == BusEvent::Tick
        &&& prefetched(with_regs(pre, Registers { pc: target, ..r0 }), target, t0, t1, 2, mid, post, step)
    }

/// The effect of `Cpu::call`.
#[verifier::opaque]
pub open spec fn call_post(
    pre: Cpu,
    t0: Seq<BusEvent>,
    t1: Seq<BusEvent>,
    mid: InterruptLine,
    post: Cpu,
    step: Step,
) -> bool {
        let r0 = pre.regs;
        let target = word(rd(t0, t1, 1), rd(t0, t1, 0));
        let ret = wrap16(r0.pc + 2);
        &&& extends(t0, t1, 6)
        &&& is_read_at(ev(t0, t1, 0), r0.pc)
        &&& is_read_at(ev(t0, t1, 1), wrap16(r0.pc + 1))
        &&& ev(t0, t1, 2) == BusEvent::Tick
        &&& ev(t0, t1, 3) == BusEvent::Write(wrap16(r0.sp - 1), hi_byte(ret))
        &&& ev(t0, t1, 4) == BusEvent::Write(wrap16(r0.sp - 2), lo_byte(ret))
        &&& prefetched(with_regs(pre, Registers { pc: target, sp: wrap16(r0.sp - 2), ..r0 }), target, t0, t1, 5, mid, post, step)
    }

/// The effect of `Cpu::ret`.
#[verifier::opaque]
pub open spec fn ret_post(
    pre: Cpu,
    t0: Seq<BusEvent>,
    t1: Seq<BusEvent>,
    mid: InterruptLine,
    post: Cpu,
    step: Step,
) -> bool {
        let r0 = pre.regs;
        let target = word(rd(t0, t1, 1), rd(t0, t1, 0));
        &&& extends(t0, t1, 4)
        &&& is_read_at(ev(t0, t1, 0), r0.sp)
        &&& is_read_at(ev(t0, t1, 1), wrap16(r0.sp + 1))
        &&& ev(t0, t1, 2) == BusEvent::Tick
        &&& prefetched(with_regs(pre, Registers { pc: target, sp: wrap16(r0.sp + 2), ..r0 }), target, t0, t1, 3, mid, post, step)
    }

/// A return comes back to the instruction after the call (`Cpu::call`, then
/// `Cpu::ret`): when RET runs with the stack pointer that CALL left and pops
/// the two bytes that CALL pushed, it fetches its next opcode at the return
/// address of the call (the byte after the three of CALL nn), the stack
/// pointer is what it was before the call, and IME is left as it was.
pub proof fn lemma_call_ret(
    call_pre: Cpu,
    t0: Seq<BusEvent>,
    t1: Seq<BusEvent>,
    mid1: InterruptLine,
    call_post_cpu: Cpu,
    step1: Step,
    ret_pre: Cpu,
    t2: Seq<BusEvent>,
    t3: Seq<BusEvent>,
    mid3: InterruptLine,
    ret_post_cpu: Cpu,
    step3: Step,
)
    requires
        call_post(call_pre, t0, t1, mid1, call_post_cpu, step1),
        ret_post(ret_pre, t2, t3, mid3, ret_post_cpu, step3),
        ret_pre.regs.sp == call_post_cpu.regs.sp,
        rd(t2, t3, 0) == data_of(ev(t0, t1, 4)),
        rd(t2, t3, 1) == data_of(ev(t0, t1, 3)),
    ensures
        is_read_at(ev(t2, t3, 3), wrap16(call_pre.regs.pc + 2)),
        ret_post_cpu.regs.sp == call_pre.regs.sp,
        ret_post_cpu.ime == ret_pre.ime,
        step3 == Step::Running ==> ret_post_cpu.regs.pc == wrap16(call_pre.regs.pc + 3),
{
    reveal(call_post);
    reveal(ret_post);
    let ret = wrap16(call_pre.regs.pc + 2);
    assert(word(hi_byte(ret), lo_byte(ret)) == ret);
}

/// The effect of `Cpu::reti`.
#[verifier::opaque]
pub open spec fn reti_post(
    pre: Cpu,
    t0: Seq<BusEvent>,
    t1: Seq<BusEvent>,
    mid: InterruptLine,
    post: Cpu,
    step: Step,
) -> bool {
        let r0 = pre.regs;
        let target = word(rd(t0, t1, 1), rd(t0, t1, 0));
        let c1 = Cpu { regs: Registers { pc: target, sp: wrap16(r0.sp + 2), ..r0 }, ime: true, ..pre };
        &&& extends(t0, t1, 4)
        &&& is_read_at(ev(t0, t1, 0), r0.sp)
        &&& is_read_at(ev(t0, t1, 1), wrap16(r0.sp + 1))
        &&& ev(t0, t1, 2) == BusEvent::Tick
        &&& prefetched(c1, target, t0, t1, 3, mid, post, step)
    }

/// The effect of `Cpu::jp_cc`.
#[verifier::opaque]
pub open spec fn jp_cc_post(
    pre: Cpu,
    cond: Cond,
    t0: Seq<BusEvent>,
    t1: Seq<BusEvent>,
    mid: InterruptLine,
    post: Cpu,
    step: Step,
) -> bool {
        let r0 = pre.regs;
        let target = word(rd(t0, t1, 1), rd(t0, t1, 0));
        &&& is_read_at(ev(t0, t1, 0), r0.pc)
        &&& is_read_at(ev(t0, t1, 1), wrap16(r0.pc + 1))
        &&& if cond.holds(r0.f) {
            &&& extends(t0, t1, 4)
            &&& ev(t0, t1, 2) == BusEvent::Tick
            &&& prefetched(with_regs(pre, Registers { pc: target, ..r0 }), target, t0, t1, 3, mid, post, step)
        } else {
            &&& extends(t0, t1, 3)
            &&& prefetched(with_regs(pre, Registers { pc: wrap16(r0.pc + 2), ..r0 }), wrap16(r0.pc + 2), t0, t1, 2, mid, post, step)
        }
    }

/// The effect of `Cpu::jr_cc`.
#[verifier::opaque]
pub open spec fn jr_cc_post(
    pre: Cpu,
    cond: Cond,
    t0: Seq<BusEvent>,
    t1: Seq<BusEvent>,
    mid: InterruptLine,
    post: Cpu,
    step: Step,
) -> bool {
        let r0 = pre.regs;
        let target = wrap16(r0.pc + 1 + sext(rd(t0, t1, 0)));
        &&& is_read_at(ev(t0, t1, 0), r0.pc)
        &&& if cond.holds(r0.f) {
            &&& extends(t0, t1, 3)
            &&& ev(t0, t1, 1) == BusEvent::Tick
            &&& prefetched(with_regs(pre, Registers { pc: target, ..r0 }), target, t0, t1, 2, mid, post, step)
        } else {
            &&& extends(t0, t1, 2)
            &&& prefetched(with_regs(pre, Registers { pc: wrap16(r0.pc + 1), ..r0 }), wrap16(r0.pc + 1), t0, t1, 1, mid, post, step)
        }
    }

/// The effect of `Cpu::call_cc`.
#[verifier::opaque]
pub open spec fn call_cc_post(
    pre: Cpu,
    cond: Cond,
    t0: Seq<BusEvent>,
    t1: Seq<BusEvent>,
    mid: InterruptLine,
    post: Cpu,
    step: Step,
) -> bool {
        let r0 = pre.regs;
        let target = word(rd(t0, t1, 1), rd(t0, t1, 0));
        let ret = wrap16(r0.pc + 2);
        &&& is_read_at(ev(t0, t1, 0), r0.pc)
        &&& is_read_at(ev(t0, t1, 1), wrap16(r0.pc + 1))
        &&& if cond.holds(r0.f) {
            &&& extends(t0, t1, 6)
            &&& ev(t0, t1, 2) == BusEvent::Tick
            &&& ev(t0, t1, 3) == BusEvent::Write(wrap16(r0.sp - 1), hi_byte(ret))
            &&& ev(t0, t1, 4) == BusEvent::Write(wrap16(r0.sp - 2), lo_byte(ret))
            &&& prefetched(with_regs(pre, Registers { pc: target, sp: wrap16(r0.sp - 2), ..r0 }), target, t0, t1, 5, mid, post, step)
        } else {
            &&& extends(t0, t1, 3)
            &&& prefetched(with_regs(pre, Registers { pc: ret, ..r0 }), ret, t0, t1, 2, mid, post, step)
        }
    }

/// The effect of `Cpu::ret_cc`.
#[verifier::opaque]
pub open spec fn ret_cc_post(
    pre: Cpu,
    cond: Cond,
    t0: Seq<BusEvent>,
    t1: Seq<BusEvent>,
    mid: InterruptLine,
    post: Cpu,
    step: Step,
) -> bool {
        let r0 = pre.regs;
        let target = word(rd(t0, t1, 2), rd(t0, t1, 1));
        &&& ev(t0, t1, 0) == BusEvent::Tick
        &&& if cond.holds(r0.f) {
            &&& extends(t0, t1, 5)
            &&& is_read_at(ev(t0, t1, 1), r0.sp)
            &&& is_read_at(ev(t0, t1, 2), wrap16(r0.sp + 1))
            &&& ev(t0, t1, 3) == BusEvent::Tick
            &&& prefetched(with_regs(pre, Registers { pc: target, sp: wrap16(r0.sp + 2), ..r0 }), target, t0, t1, 4, mid, post, step)
        } else {
            &&& extends(t0, t1, 2)
            &&& prefetched(pre, r0.pc, t0, t1, 1, mid, post, step)
        }
    }

/// The effect of `Cpu::rst`.
#[verifier::opaque]
pub open spec fn rst_post(
    pre: Cpu,
    addr: u8,
    t0: Seq<BusEvent>,
    t1: Seq<BusEvent>,
    mid: InterruptLine,
    post: Cpu,
    step: Step,
) -> bool {
        let r0 = pre.regs;
        &&& extends(t0, t1, 4)
        &&& ev(t0, t1, 0) == BusEvent::Tick
        &&& ev(t0, t1, 1) == BusEvent::Write(wrap16(r0.sp - 1), hi_byte(r0.pc))
        &&& ev(t0, t1, 2) == BusEvent::Write(wrap16(r0.sp - 2), lo_byte(r0.pc))
        &&& prefetched(with_regs(pre, Registers { sp: wrap16(r0.sp - 2), ..r0 }), addr as u16, t0, t1, 3, mid, post, step)
    }

/// The effect of `Cpu::halt`.
#[verifier::opaque]
pub open spec fn halt_post(
    pre: Cpu,
    t0: Seq<BusEvent>,
    t1: Seq<BusEvent>,
    mid: InterruptLine,
    post: Cpu,
    step: Step,
) -> bool {
    &&& is_read_at(ev(t0, t1, 0), pre.regs.pc)
    &&& post == (Cpu { opcode: rd(t0, t1, 0), ..pre })
    &&& step == Step::Halt ==> extends(t0, t1, 2) && ev(t0, t1, 1) == BusEvent::Tick
    &&& step != Step::Halt ==> extends(t0, t1, 1) && mid.bits != 0 && step == (if pre.ime {
        Step::InterruptDispatch
    } else {
        Step::Running
    })
}

/// The effect of `Cpu::di`.
#[verifier::opaque]
pub open spec fn di_post(
    pre: Cpu,
    t0: Seq<BusEvent>,
    t1: Seq<BusEvent>,
    mid: InterruptLine,
    post: Cpu,
    step: Step,
) -> bool {
    &&& extends(t0, t1, 1)
    &&& is_read_at(ev(t0, t1, 0), pre.regs.pc)
    &&& step == Step::Running
    &&& post == (Cpu {
        regs: Registers { pc: wrap16(pre.regs.pc + 1), ..pre.regs },
        ime: false,
        opcode: rd(t0, t1, 0),
    })
}

/// The effect of `Cpu::ei`.
#[verifier::opaque]
pub open spec fn ei_post(
    pre: Cpu,
    t0: Seq<BusEvent>,
    t1: Seq<BusEvent>,
    mid: InterruptLine,
    post: Cpu,
    step: Step,
) -> bool {
    &&& extends(t0, t1, 1)
    &&& post.ime
    &&& prefetched(pre, pre.regs.pc, t0, t1, 0, mid, Cpu { ime: pre.ime, ..post }, step)
}

/// The effect of `Cpu::ccf`.
#[verifier::opaque]
pub open spec fn ccf_post(
    pre: Cpu,
    t0: Seq<BusEvent>,
    t1: Seq<BusEvent>,
    mid: InterruptLine,
    post: Cpu,
    step: Step,
) -> bool {
        let r0 = pre.regs;
        let r1 = r0.with_flags(r0.f.zero, false, false, !r0.f.carry);
        &&& extends(t0, t1, 1)
        &&& prefetched(with_regs(pre, r1), r0.pc, t0, t1, 0, mid, post, step)
    }

/// The effect of `Cpu::scf`.
#[verifier::opaque]
pub open spec fn scf_post(
    pre: Cpu,
    t0: Seq<BusEvent>,
    t1: Seq<BusEvent>,
    mid: InterruptLine,
    post: Cpu,
    step: Step,
) -> bool {
        let r0 = pre.regs;
        let r1 = r0.with_flags(r0.f.zero, false, false, true);
        &&& extends(t0, t1, 1)
        &&& prefetched(with_regs(pre, r1), r0.pc, t0, t1, 0, mid, post, step)
    }

/// The effect of `Cpu::nop`.
#[verifier::opaque]
pub open spec fn nop_post(
    pre: Cpu,
    t0: Seq<BusEvent>,
    t1: Seq<BusEvent>,
    mid: InterruptLine,
    post: Cpu,
    step: Step,
) -> bool {
    &&& extends(t0, t1, 1)
    &&& prefetched(pre, pre.regs.pc, t0, t1, 0, mid, post, step)
}

/// The effect of `Cpu::daa`.
#[verifier::opaque]
pub open spec fn daa_post(
    pre: Cpu,
    t0: Seq<BusEvent>,
    t1: Seq<BusEvent>,
    mid: InterruptLine,
    post: Cpu,
    step: Step,
) -> bool {
        let r0 = pre.regs;
        let (a, c) = daa_result(r0.a, r0.f.add_subtract, r0.f.half_carry, r0.f.carry);
        let r1 = Registers { a, ..r0.with_flags(a == 0, r0.f.add_subtract, false, c) };
        &&& extends(t0, t1, 1)
        &&& prefetched(with_regs(pre, r1), r0.pc, t0, t1, 0, mid, post, step)
    }

/// The effect of `Cpu::cpl`.
#[verifier::opaque]
pub open spec fn cpl_post(
    pre: Cpu,
    t0: Seq<BusEvent>,
    t1: Seq<BusEvent>,
    mid: InterruptLine,
    post: Cpu,
    step: Step,
) -> bool {
        let r0 = pre.regs;
        let r1 = Registers { a: !r0.a, ..r0.with_flags(r0.f.zero, true, true, r0.f.carry) };
        &&& extends(t0, t1, 1)
        &&& prefetched(with_regs(pre, r1), r0.pc, t0, t1, 0, mid, post, step)
    }

/// The effect of `Cpu::load16_imm`.
#[verifier::opaque]
pub open spec fn load16_imm_post(
    pre: Cpu,
    reg: Reg16,
    t0: Seq<BusEvent>,
    t1: Seq<BusEvent>,
    mid: InterruptLine,
    post: Cpu,
    step: Step,
) -> bool {
        let r0 = pre.regs;
        let value = word(rd(t0, t1, 1), rd(t0, t1, 0));
        let r1 = Registers { pc: wrap16(r0.pc + 2), ..r0 }.set16(reg, value);
        &&& extends(t0, t1, 3)
        &&& is_read_at(ev(t0, t1, 0), r0.pc)
        &&& is_read_at(ev(t0, t1, 1), wrap16(r0.pc + 1))
        &&& prefetched(with_regs(pre, r1), r1.pc, t0, t1, 2, mid, post, step)
    }

/// The effect of `Cpu::load16_nn_sp`.
#[verifier::opaque]
pub open spec fn load16_nn_sp_post(
    pre: Cpu,
    t0: Seq<BusEvent>,
    t1: Seq<BusEvent>,
    mid: InterruptLine,
    post: Cpu,
    step: Step,
) -> bool {
        let r0 = pre.regs;
        let addr = word(rd(t0, t1, 1), rd(t0, t1, 0));
        let r1 = Registers { pc: wrap16(r0.pc + 2), ..r0 };
        &&& extends(t0, t1, 5)
        &&& is_read_at(ev(t0, t1, 0), r0.pc)
        &&& is_read_at(ev(t0, t1, 1), wrap16(r0.pc + 1))
        &&& ev(t0, t1, 2) == BusEvent::Write(addr, lo_byte(r0.sp))
        &&& ev(t0, t1, 3) == BusEvent::Write(wrap16(addr + 1), hi_byte(r0.sp))
        &&& prefetched(with_regs(pre, r1), r1.pc, t0, t1, 4, mid, post, step)
    }

/// The effect of `Cpu::load16_sp_hl`.
#[verifier::opaque]
pub open spec fn load16_sp_hl_post(
    pre: Cpu,
    t0: Seq<BusEvent>,
    t1: Seq<BusEvent>,
    mid: InterruptLine,
    post: Cpu,
    step: Step,
) -> bool {
        let r0 = pre.regs;
        let r1 = Registers { sp: r0.get16(Reg16::HL), ..r0 };
        &&& extends(t0, t1, 2)
        &&& ev(t0, t1, 0) == BusEvent::Tick
        &&& prefetched(with_regs(pre, r1), r1.pc, t0, t1, 1, mid, post, step)
    }

/// The effect of `Cpu::load16_hl_sp_e`.
#[verifier::opaque]
pub open spec fn load16_hl_sp_e_post(
    pre: Cpu,
    t0: Seq<BusEvent>,
    t1: Seq<BusEvent>,
    mid: InterruptLine,
    post: Cpu,
    step: Step,
) -> bool {
        let r0 = pre.regs;
        let e = rd(t0, t1, 0);
        let offset = wrap16(sext(e));
        let r1 = Registers { pc: wrap16(r0.pc + 1), ..r0 }.set16(
            Reg16::HL,
            wrap16(r0.sp + sext(e)),
        ).with_flags(
            false,
            false,
            carry_from_bit_u16(3, r0.sp, offset),
            carry_from_bit_u16(7, r0.sp, offset),
        );
        &&& extends(t0, t1, 3)
        &&& is_read_at(ev(t0, t1, 0), r0.pc)
        &&& ev(t0, t1, 1) == BusEvent::Tick
        &&& prefetched(with_regs(pre, r1), r1.pc, t0, t1, 2, mid, post, step)
    }

/// The effect of `Cpu::push16`.
#[verifier::opaque]
pub open spec fn push16_post(
    pre: Cpu,
    reg: Reg16,
    t0: Seq<BusEvent>,
    t1: Seq<BusEvent>,
    mid: InterruptLine,
    post: Cpu,
    step: Step,
) -> bool {
        let r0 = pre.regs;
        let value = r0.get16(reg);
        let r1 = Registers { sp: wrap16(r0.sp - 2), ..r0 };
        &&& extends(t0, t1, 4)
        &&& ev(t0, t1, 0) == BusEvent::Tick
        &&& ev(t0, t1, 1) == BusEvent::Write(wrap16(r0.sp - 1), hi_byte(value))
        &&& ev(t0, t1, 2) == BusEvent::Write(wrap16(r0.sp - 2), lo_byte(value))
        &&& prefetched(with_regs(pre, r1), r1.pc, t0, t1, 3, mid, post, step)
    }

/// The effect of `Cpu::pop16`.
#[verifier::opaque]
pub open spec fn pop16_post(
    pre: Cpu,
    reg: Reg16,
    t0: Seq<BusEvent>,
    t1: Seq<BusEvent>,
    mid: InterruptLine,
    post: Cpu,
    step: Step,
) -> bool {
        let r0 = pre.regs;
        let value = word(rd(t0, t1, 1), rd(t0, t1, 0));
        let r1 = Registers { sp: wrap16(r0.sp + 2), ..r0 }.set16(reg, value);
        &&& extends(t0, t1, 3)
        &&& is_read_at(ev(t0, t1, 0), r0.sp)
        &&& is_read_at(ev(t0, t1, 1), wrap16(r0.sp + 1))
        &&& prefetched(with_regs(pre, r1), r1.pc, t0, t1, 2, mid, post, step)
    }

/// The effect of `Cpu::add16`.
#[verifier::opaque]
pub open spec fn add16_post(
    pre: Cpu,
    reg: Reg16,
    t0: Seq<BusEvent>,
    t1: Seq<BusEvent>,
    mid: InterruptLine,
    post: Cpu,
    step: Step,
) -> bool {
        let r0 = pre.regs;
        let hl = r0.get16(Reg16::HL);
        let value = r0.get16(reg);
        let r1 = r0.with_flags(
            r0.f.zero,
            false,
            carry_from_bit_u16(11, hl, value),
            hl + value > 0xffff,
        ).set16(Reg16::HL, wrap16(hl + value));
        &&& extends(t0, t1, 2)
        &&& ev(t0, t1, 0) == BusEvent::Tick
        &&& prefetched(with_regs(pre, r1), r1.pc, t0, t1, 1, mid, post, step)
    }

/// The effect of `Cpu::add16_sp_e`.
#[verifier::opaque]
pub open spec fn add16_sp_e_post(
    pre: Cpu,
    t0: Seq<BusEvent>,
    t1: Seq<BusEvent>,
    mid: InterruptLine,
    post: Cpu,
    step: Step,
) -> bool {
        let r0 = pre.regs;
        let e = rd(t0, t1, 0);
        let offset = wrap16(sext(e));
        let r1 = Registers {
            pc: wrap16(r0.pc + 1),
            sp: wrap16(r0.sp + sext(e)),
            ..r0
        }.with_flags(
            false,
            false,
            carry_from_bit_u16(3, r0.sp, offset),
            carry_from_bit_u16(7, r0.sp, offset),
        );
        &&& extends(t0, t1, 4)
        &&& is_read_at(ev(t0, t1, 0), r0.pc)
        &&& ev(t0, t1, 1) == BusEvent::Tick
        &&& ev(t0, t1, 2) == BusEvent::Tick
        &&& prefetched(with_regs(pre, r1), r1.pc, t0, t1, 3, mid, post, step)
    }

/// The effect of `Cpu::inc16`.
#[verifier::opaque]
pub open spec fn inc16_post(
    pre: Cpu,
    reg: Reg16,
    t0: Seq<BusEvent>,
    t1: Seq<BusEvent>,
    mid: InterruptLine,
    post: Cpu,
    step: Step,
) -> bool {
        let r0 = pre.regs;
        let r1 = r0.set16(reg, wrap16(r0.get16(reg) + 1));
        &&& extends(t0, t1, 2)
        &&& ev(t0, t1, 0) == BusEvent::Tick
        &&& prefetched(with_regs(pre, r1), r1.pc, t0, t1, 1, mid, post, step)
    }

/// The effect of `Cpu::dec16`.
#[verifier::opaque]
pub open spec fn dec16_post(
    pre: Cpu,
    reg: Reg16,
    t0: Seq<BusEvent>,
    t1: Seq<BusEvent>,
    mid: InterruptLine,
    post: Cpu,
    step: Step,
) -> bool {
        let r0 = pre.regs;
        let r1 = r0.set16(reg, wrap16(r0.get16(reg) - 1));
        &&& extends(t0, t1, 2)
        &&& ev(t0, t1, 0) == BusEvent::Tick
        &&& prefetched(with_regs(pre, r1), r1.pc, t0, t1, 1, mid, post, step)
    }

impl Cpu {
    // --- 8-bit operations
    // 8-bit loads
    /// LD d, s
    ///
    /// Flags: Z N H C
    ///        - - - -
    #[verifier::rlimit(50)]
    pub fn load<B: CpuContext>(&mut self, ctx: &mut B, out8: Out8, in8: In8) -> (step: Step)
        ensures
            old(ctx).trace_consistent() ==> final(ctx).trace_consistent(),
            final(ctx).origin() == old(ctx).origin(),
            cycles(old(ctx).trace()) < cycles(final(ctx).trace()),
            load_post(*old(self), out8, in8, old(ctx).trace(), final(ctx).trace(), final(ctx).mid_interrupt(), *final(self), step),
            grows(old(ctx).trace(), final(ctx).trace()),
    {
        proof {
            reveal(load_post);
        }
        let value = self.read(in8, ctx);
        self.write(out8, ctx, value);
        self.prefetch_next(ctx, self.regs.pc)
    }

    /// ADD s
    ///
    /// Flags: Z N H C
    ///        * 0 * *
    #[verifier::rlimit(50)]
    pub fn add<B: CpuContext>(&mut self, ctx: &mut B, in8: In8) -> (step: Step)
        ensures
            old(ctx).trace_consistent() ==> final(ctx).trace_consistent(),
            final(ctx).origin() == old(ctx).origin(),
            cycles(old(ctx).trace()) < cycles(final(ctx).trace()),
            alu8_post(AluOp::Add, *old(self), in8, old(ctx).trace(), final(ctx).trace(), final(ctx).mid_interrupt(), *final(self), step),
            grows(old(ctx).trace(), final(ctx).trace()),
    {
        proof {
            reveal(alu8_post);
        }
        let value = self.read(in8, ctx);
        let a = self.regs.a;
        let result = a.wrapping_add(value);
        let carry = (a as u16) + (value as u16) > 0xff;
        let half_carry = a % 16 + value % 16 > 0xf;
        self.regs.set_zf(result == 0);
        self.regs.set_nf(false);
        self.regs.set_hf(half_carry);
        self.regs.set_cf(carry);
        self.regs.a = result;
        self.prefetch_next(ctx, self.regs.pc)
    }

    /// ADC s
    ///
    /// Flags: Z N H C
    ///        * 0 * *
    #[verifier::rlimit(100)]
    pub fn adc<B: CpuContext>(&mut self, ctx: &mut B, in8: In8) -> (step: Step)
        ensures
            old(ctx).trace_consistent() ==> final(ctx).trace_consistent(),
            final(ctx).origin() == old(ctx).origin(),
            cycles(old(ctx).trace()) < cycles(final(ctx).trace()),
            alu8_post(AluOp::Adc, *old(self), in8, old(ctx).trace(), final(ctx).trace(), final(ctx).mid_interrupt(), *final(self), step),
            grows(old(ctx).trace(), final(ctx).trace()),
    {
        proof {
            reveal(alu8_post);
        }
        let value = self.read(in8, ctx);
        let a = self.regs.a;
        let cy: u8 = if self.regs.cf() {
            1
        } else {
            0
        };
        let result = a.wrapping_add(value).wrapping_add(cy);
        self.regs.set_zf(result == 0);
        self.regs.set_nf(false);
        self.regs.set_hf(a % 16 + value % 16 + cy > 0xf);
        self.regs.set_cf(a as u16 + value as u16 + cy as u16 > 0xff);
        self.regs.a = result;
        self.prefetch_next(ctx, self.regs.pc)
    }

    /// SUB s
    ///
    /// Flags: Z N H C
    ///        * 1 * *
    #[verifier::rlimit(50)]
    pub fn sub<B: CpuContext>(&mut self, ctx: &mut B, in8: In8) -> (step: Step)
        ensures
            old(ctx).trace_consistent() ==> final(ctx).trace_consistent(),
            final(ctx).origin() == old(ctx).origin(),
            cycles(old(ctx).trace()) < cycles(final(ctx).trace()),
            alu8_post(AluOp::Sub, *old(self), in8, old(ctx).trace(), final(ctx).trace(), final(ctx).mid_interrupt(), *final(self), step),
            grows(old(ctx).trace(), final(ctx).trace()),
    {
        proof {
            reveal(alu8_post);
        }
        let value = self.read(in8, ctx);
        self.regs.a = self.alu_sub(value, false);
        self.prefetch_next(ctx, self.regs.pc)
    }

    /// SBC s
    ///
    /// Flags: Z N H C
    ///        * 1 * *
    #[verifier::rlimit(50)]
    pub fn sbc<B: CpuContext>(&mut self, ctx: &mut B, in8: In8) -> (step: Step)
        ensures
            old(ctx).trace_consistent() ==> final(ctx).trace_consistent(),
            final(ctx).origin() == old(ctx).origin(),
            cycles(old(ctx).trace()) < cycles(final(ctx).trace()),
            alu8_post(AluOp::Sbc, *old(self), in8, old(ctx).trace(), final(ctx).trace(), final(ctx).mid_interrupt(), *final(self), step),
            grows(old(ctx).trace(), final(ctx).trace()),
    {
        proof {
            reveal(alu8_post);
        }
        let value = self.read(in8, ctx);
        let cy = self.regs.cf();
        self.regs.a = self.alu_sub(value, cy);
        self.prefetch_next(ctx, self.regs.pc)
    }

    /// CP s
    ///
    /// Flags: Z N H C
    ///        * 1 * *
    #[verifier::rlimit(50)]
    pub fn cp<B: CpuContext>(&mut self, ctx: &mut B, in8: In8) -> (step: Step)
        ensures
            old(ctx).trace_consistent() ==> final(ctx).trace_consistent(),
            final(ctx).origin() == old(ctx).origin(),
            cycles(old(ctx).trace()) < cycles(final(ctx).trace()),
            alu8_post(AluOp::Cp, *old(self), in8, old(ctx).trace(), final(ctx).trace(), final(ctx).mid_interrupt(), *final(self), step),
            grows(old(ctx).trace(), final(ctx).trace()),
    {
        proof {
            reveal(alu8_post);
        }
        let value = self.read(in8, ctx);
        self.alu_sub(value, false);
        self.prefetch_next(ctx, self.regs.pc)
    }

    /// AND s
    ///
    /// Flags: Z N H C
    ///        * 0 1 0
    #[verifier::rlimit(50)]
    pub fn and<B: CpuContext>(&mut self, ctx: &mut B, in8: In8) -> (step: Step)
        ensures
            old(ctx).trace_consistent() ==> final(ctx).trace_consistent(),
            final(ctx).origin() == old(ctx).origin(),
            cycles(old(ctx).trace()) < cycles(final(ctx).trace()),
            alu8_post(AluOp::And, *old(self), in8, old(ctx).trace(), final(ctx).trace(), final(ctx).mid_interrupt(), *final(self), step),
            grows(old(ctx).trace(), final(ctx).trace()),
    {
        proof {
            reveal(alu8_post);
        }
        let value = self.read(in8, ctx);
        self.regs.a = self.regs.a & value;
        self.regs.set_zf(self.regs.a == 0);
        self.regs.set_nf(false);
        self.regs.set_hf(true);
        self.regs.set_cf(false);
        self.prefetch_next(ctx, self.regs.pc)
    }

    /// OR s
    ///
    /// Flags: Z N H C
    ///        * 0 0 0
    #[verifier::rlimit(50)]
    pub fn or<B: CpuContext>(&mut self, ctx: &mut B, in8: In8) -> (step: Step)
        ensures
            old(ctx).trace_consistent() ==> final(ctx).trace_consistent(),
            final(ctx).origin() == old(ctx).origin(),
            cycles(old(ctx).trace()) < cycles(final(ctx).trace()),
            alu8_post(AluOp::Or, *old(self), in8, old(ctx).trace(), final(ctx).trace(), final(ctx).mid_interrupt(), *final(self), step),
            grows(old(ctx).trace(), final(ctx).trace()),
    {
        proof {
            reveal(alu8_post);
        }
        let value = self.read(in8, ctx);
        self.regs.a = self.regs.a | value;
        self.regs.set_zf(self.regs.a == 0);
        self.regs.set_nf(false);
        self.regs.set_hf(false);
        self.regs.set_cf(false);
        self.prefetch_next(ctx, self.regs.pc)
    }

    /// XOR s
    ///
    /// Flags: Z N H C
    ///        * 0 0 0
    #[verifier::rlimit(50)]
    pub fn xor<B: CpuContext>(&mut self, ctx: &mut B, in8: In8) -> (step: Step)
        ensures
            old(ctx).trace_consistent() ==> final(ctx).trace_consistent(),
            final(ctx).origin() == old(ctx).origin(),
            cycles(old(ctx).trace()) < cycles(final(ctx).trace()),
            alu8_post(AluOp::Xor, *old(self), in8, old(ctx).trace(), final(ctx).trace(), final(ctx).mid_interrupt(), *final(self), step),
            grows(old(ctx).trace(), final(ctx).trace()),
    {
        proof {
            reveal(alu8_post);
        }
        let value = self.read(in8, ctx);
        self.regs.a = self.regs.a ^ value;
        self.regs.set_zf(self.regs.a == 0);
        self.regs.set_nf(false);
        self.regs.set_hf(false);
        self.regs.set_cf(false);
        self.prefetch_next(ctx, self.regs.pc)
    }

    /// INC s
    ///
    /// Flags: Z N H C
    ///        * 0 * -
    #[verifier::rlimit(50)]
    pub fn inc<B: CpuContext>(&mut self, ctx: &mut B, io: Out8) -> (step: Step)
        ensures
            old(ctx).trace_consistent() ==> final(ctx).trace_consistent(),
            final(ctx).origin() == old(ctx).origin(),
            cycles(old(ctx).trace()) < cycles(final(ctx).trace()),
            rmw_post(RmwOp::Inc, *old(self), io, old(ctx).trace(), final(ctx).trace(), final(ctx).mid_interrupt(), *final(self), step),
            grows(old(ctx).trace(), final(ctx).trace()),
    {
        proof {
            reveal(rmw_post);
        }
        let value = self.read(io.as_in8(), ctx);
        let new_value = value.wrapping_add(1);
        self.regs.set_zf(new_value == 0);
        self.regs.set_nf(false);
        self.regs.set_hf(value % 16 == 0xf);
        self.write(io, ctx, new_value);
        self.prefetch_next(ctx, self.regs.pc)
    }

    /// DEC s
    ///
    /// Flags: Z N H C
    ///        * 1 * -
    #[verifier::rlimit(50)]
    pub fn dec<B: CpuContext>(&mut self, ctx: &mut B, io: Out8) -> (step: Step)
        ensures
            old(ctx).trace_consistent() ==> final(ctx).trace_consistent(),
            final(ctx).origin() == old(ctx).origin(),
            cycles(old(ctx).trace()) < cycles(final(ctx).trace()),
            rmw_post(RmwOp::Dec, *old(self), io, old(ctx).trace(), final(ctx).trace(), final(ctx).mid_interrupt(), *final(self), step),
            grows(old(ctx).trace(), final(ctx).trace()),
    {
        proof {
            reveal(rmw_post);
        }
        let value = self.read(io.as_in8(), ctx);
        let new_value = value.wrapping_sub(1);
        self.regs.set_zf(new_value == 0);
        self.regs.set_nf(true);
        self.regs.set_hf(value % 16 == 0);
        self.write(io, ctx, new_value);
        self.prefetch_next(ctx, self.regs.pc)
    }

    /// RLCA
    ///
    /// Flags: Z N H C
    ///        0 0 0 *
    #[verifier::rlimit(50)]
    pub fn rlca<B: CpuContext>(&mut self, ctx: &mut B) -> (step: Step)
        ensures
            old(ctx).trace_consistent() ==> final(ctx).trace_consistent(),
            final(ctx).origin() == old(ctx).origin(),
            cycles(old(ctx).trace()) < cycles(final(ctx).trace()),
            rlca_post(*old(self), old(ctx).trace(), final(ctx).trace(), final(ctx).mid_interrupt(), *final(self), step),
            grows(old(ctx).trace(), final(ctx).trace()),
    {
        proof {
            reveal(rlca_post);
        }
        let value = self.regs.a;
        self.regs.a = self.alu_rlc(value);
        self.regs.set_zf(false);
        self.prefetch_next(ctx, self.regs.pc)
    }

    /// RLA
    ///
    /// Flags: Z N H C
    ///        0 0 0 *
    #[verifier::rlimit(50)]
    pub fn rla<B: CpuContext>(&mut self, ctx: &mut B) -> (step: Step)
        ensures
            old(ctx).trace_consistent() ==> final(ctx).trace_consistent(),
            final(ctx).origin() == old(ctx).origin(),
            cycles(old(ctx).trace()) < cycles(final(ctx).trace()),
            rla_post(*old(self), old(ctx).trace(), final(ctx).trace(), final(ctx).mid_interrupt(), *final(self), step),
            grows(old(ctx).trace(), final(ctx).trace()),
    {
        proof {
            reveal(rla_post);
        }
        let value = self.regs.a;
        self.regs.a = self.alu_rl(value);
        self.regs.set_zf(false);
        self.prefetch_next(ctx, self.regs.pc)
    }

    /// RRCA
    ///
    /// Flags: Z N H C
    ///        0 0 0 *
    #[verifier::rlimit(50)]
    pub fn rrca<B: CpuContext>(&mut self, ctx: &mut B) -> (step: Step)
        ensures
            old(ctx).trace_consistent() ==> final(ctx).trace_consistent(),
            final(ctx).origin() == old(ctx).origin(),
            cycles(old(ctx).trace()) < cycles(final(ctx).trace()),
            rrca_post(*old(self), old(ctx).trace(), final(ctx).trace(), final(ctx).mid_interrupt(), *final(self), step),
            grows(old(ctx).trace(), final(ctx).trace()),
    {
        proof {
            reveal(rrca_post);
        }
        let value = self.regs.a;
        self.regs.a = self.alu_rrc(value);
        self.regs.set_zf(false);
        self.prefetch_next(ctx, self.regs.pc)
    }

    /// RRA
    ///
    /// Flags: Z N H C
    ///        0 0 0 *
    #[verifier::rlimit(50)]
    pub fn rra<B: CpuContext>(&mut self, ctx: &mut B) -> (step: Step)
        ensures
            old(ctx).trace_consistent() ==> final(ctx).trace_consistent(),
            final(ctx).origin() == old(ctx).origin(),
            cycles(old(ctx).trace()) < cycles(final(ctx).trace()),
            rra_post(*old(self), old(ctx).trace(), final(ctx).trace(), final(ctx).mid_interrupt(), *final(self), step),
            grows(old(ctx).trace(), final(ctx).trace()),
    {
        proof {
            reveal(rra_post);
        }
        let value = self.regs.a;
        self.regs.a = self.alu_rr(value);
        self.regs.set_zf(false);
        self.prefetch_next(ctx, self.regs.pc)
    }

    /// RLC s
    ///
    /// Flags: Z N H C
    ///        * 0 0 *
    #[verifier::rlimit(50)]
    pub fn rlc<B: CpuContext>(&mut self, ctx: &mut B, io: Out8) -> (step: Step)
        ensures
            old(ctx).trace_consistent() ==> final(ctx).trace_consistent(),
            final(ctx).origin() == old(ctx).origin(),
            cycles(old(ctx).trace()) < cycles(final(ctx).trace()),
            rmw_post(RmwOp::Rlc, *old(self), io, old(ctx).trace(), final(ctx).trace(), final(ctx).mid_interrupt(), *final(self), step),
            grows(old(ctx).trace(), final(ctx).trace()),
    {
        proof {
            reveal(rmw_post);
        }
        let value = self.read(io.as_in8(), ctx);
        let new_value = self.alu_rlc(value);
        self.write(io, ctx, new_value);
        self.prefetch_next(ctx, self.regs.pc)
    }

    /// RL s
    ///
    /// Flags: Z N H C
    ///        * 0 0 *
    #[verifier::rlimit(50)]
    pub fn rl<B: CpuContext>(&mut self, ctx: &mut B, io: Out8) -> (step: Step)
        ensures
            old(ctx).trace_consistent() ==> final(ctx).trace_consistent(),
            final(ctx).origin() == old(ctx).origin(),
            cycles(old(ctx).trace()) < cycles(final(ctx).trace()),
            rmw_post(RmwOp::Rl, *old(self), io, old(ctx).trace(), final(ctx).trace(), final(ctx).mid_interrupt(), *final(self), step),
            grows(old(ctx).trace(), final(ctx).trace()),
    {
        proof {
            reveal(rmw_post);
        }
        let value = self.read(io.as_in8(), ctx);
        let new_value = self.alu_rl(value);
        self.write(io, ctx, new_value);
        self.prefetch_next(ctx, self.regs.pc)
    }

    /// RRC s
    ///
    /// Flags: Z N H C
    ///        * 0 0 *
    #[verifier::rlimit(50)]
    pub fn rrc<B: CpuContext>(&mut self, ctx: &mut B, io: Out8) -> (step: Step)
        ensures
            old(ctx).trace_consistent() ==> final(ctx).trace_consistent(),
            final(ctx).origin() == old(ctx).origin(),
            cycles(old(ctx).trace()) < cycles(final(ctx).trace()),
            rmw_post(RmwOp::Rrc, *old(self), io, old(ctx).trace(), final(ctx).trace(), final(ctx).mid_interrupt(), *final(self), step),
            grows(old(ctx).trace(), final(ctx).trace()),
    {
        proof {
            reveal(rmw_post);
        }
        let value = self.read(io.as_in8(), ctx);
        let new_value = self.alu_rrc(value);
        self.write(io, ctx, new_value);
        self.prefetch_next(ctx, self.regs.pc)
    }

    /// RR s
    ///
    /// Flags: Z N H C
    ///        * 0 0 *
    #[verifier::rlimit(50)]
    pub fn rr<B: CpuContext>(&mut self, ctx: &mut B, io: Out8) -> (step: Step)
        ensures
            old(ctx).trace_consistent() ==> final(ctx).trace_consistent(),
            final(ctx).origin() == old(ctx).origin(),
            cycles(old(ctx).trace()) < cycles(final(ctx).trace()),
            rmw_post(RmwOp::Rr, *old(self), io, old(ctx).trace(), final(ctx).trace(), final(ctx).mid_interrupt(), *final(self), step),
            grows(old(ctx).trace(), final(ctx).trace()),
    {
        proof {
            reveal(rmw_post);
        }
        let value = self.read(io.as_in8(), ctx);
        let new_value = self.alu_rr(value);
        self.write(io, ctx, new_value);
        self.prefetch_next(ctx, self.regs.pc)
    }

    /// SLA s
    ///
    /// Flags: Z N H C
    ///        * 0 0 *
    #[verifier::rlimit(50)]
    pub fn sla<B: CpuContext>(&mut self, ctx: &mut B, io: Out8) -> (step: Step)
        ensures
            old(ctx).trace_consistent() ==> final(ctx).trace_consistent(),
            final(ctx).origin() == old(ctx).origin(),
            cycles(old(ctx).trace()) < cycles(final(ctx).trace()),
            rmw_post(RmwOp::Sla, *old(self), io, old(ctx).trace(), final(ctx).trace(), final(ctx).mid_interrupt(), *final(self), step),
            grows(old(ctx).trace(), final(ctx).trace()),
    {
        proof {
            reveal(rmw_post);
        }
        let value = self.read(io.as_in8(), ctx);
        let co = value >= 0x80;
        let new_value = (value % 128) * 2;
        self.regs.set_zf(new_value == 0);
        self.regs.set_nf(false);
        self.regs.set_hf(false);
        self.regs.set_cf(co);
        self.write(io, ctx, new_value);
        self.prefetch_next(ctx, self.regs.pc)
    }

    /// SRA s
    ///
    /// Flags: Z N H C
    ///        * 0 0 *
    #[verifier::rlimit(50)]
    pub fn sra<B: CpuContext>(&mut self, ctx: &mut B, io: Out8) -> (step: Step)
        ensures
            old(ctx).trace_consistent() ==> final(ctx).trace_consistent(),
            final(ctx).origin() == old(ctx).origin(),
            cycles(old(ctx).trace()) < cycles(final(ctx).trace()),
            rmw_post(RmwOp::Sra, *old(self), io, old(ctx).trace(), final(ctx).trace(), final(ctx).mid_interrupt(), *final(self), step),
            grows(old(ctx).trace(), final(ctx).trace()),
    {
        proof {
            reveal(rmw_post);
        }
        let value = self.read(io.as_in8(), ctx);
        let co = value % 2 == 1;
        let hi: u8 = if value >= 0x80 {
            0x80
        } else {
            0
        };
        let new_value = value / 2 + hi;
        self.regs.set_zf(new_value == 0);
        self.regs.set_nf(false);
        self.regs.set_hf(false);
        self.regs.set_cf(co);
        self.write(io, ctx, new_value);
        self.prefetch_next(ctx, self.regs.pc)
    }

    /// SRL s
    ///
    /// Flags: Z N H C
    ///        * 0 0 *
    #[verifier::rlimit(50)]
    pub fn srl<B: CpuContext>(&mut self, ctx: &mut B, io: Out8) -> (step: Step)
        ensures
            old(ctx).trace_consistent() ==> final(ctx).trace_consistent(),
            final(ctx).origin() == old(ctx).origin(),
            cycles(old(ctx).trace()) < cycles(final(ctx).trace()),
            rmw_post(RmwOp::Srl, *old(self), io, old(ctx).trace(), final(ctx).trace(), final(ctx).mid_interrupt(), *final(self), step),
            grows(old(ctx).trace(), final(ctx).trace()),
    {
        proof {
            reveal(rmw_post);
        }
        let value = self.read(io.as_in8(), ctx);
        let co = value % 2 == 1;
        let new_value = value / 2;
        self.regs.set_zf(new_value == 0);
        self.regs.set_nf(false);
        self.regs.set_hf(false);
        self.regs.set_cf(co);
        self.write(io, ctx, new_value);
        self.prefetch_next(ctx, self.regs.pc)
    }

    /// SWAP s
    ///
    /// Flags: Z N H C
    ///        * 0 0 0
    #[verifier::rlimit(50)]
    pub fn swap<B: CpuContext>(&mut self, ctx: &mut B, io: Out8) -> (step: Step)
        ensures
            old(ctx).trace_consistent() ==> final(ctx).trace_consistent(),
            final(ctx).origin() == old(ctx).origin(),
            cycles(old(ctx).trace()) < cycles(final(ctx).trace()),
            rmw_post(RmwOp::Swap, *old(self), io, old(ctx).trace(), final(ctx).trace(), final(ctx).mid_interrupt(), *final(self), step),
            grows(old(ctx).trace(), final(ctx).trace()),
    {
        proof {
            reveal(rmw_post);
        }
        let value = self.read(io.as_in8(), ctx);
        let new_value = value / 16 + (value % 16) * 16;
        self.regs.set_zf(value == 0);
        self.regs.set_nf(false);
        self.regs.set_hf(false);
        self.regs.set_cf(false);
        self.write(io, ctx, new_value);
        self.prefetch_next(ctx, self.regs.pc)
    }

    /// BIT b, s
    ///
    /// Flags: Z N H C
    ///        * 0 1 -
    #[verifier::rlimit(50)]
    pub fn bit<B: CpuContext>(&mut self, ctx: &mut B, bit: u8, in8: In8) -> (step: Step)
        requires
            bit < 8,
        ensures
            old(ctx).trace_consistent() ==> final(ctx).trace_consistent(),
            final(ctx).origin() == old(ctx).origin(),
            cycles(old(ctx).trace()) < cycles(final(ctx).trace()),
            alu8_post(AluOp::Bit(bit), *old(self), in8, old(ctx).trace(), final(ctx).trace(), final(ctx).mid_interrupt(), *final(self), step),
            grows(old(ctx).trace(), final(ctx).trace()),
    {
        proof {
            reveal(alu8_post);
        }
        let value = self.read(in8, ctx) & (1u8 << bit);
        self.regs.set_zf(value == 0);
        self.regs.set_nf(false);
        self.regs.set_hf(true);
        self.prefetch_next(ctx, self.regs.pc)
    }

    /// SET b, s
    ///
    /// Flags: Z N H C
    ///        - - - -
    #[verifier::rlimit(50)]
    pub fn set<B: CpuContext>(&mut self, ctx: &mut B, bit: u8, io: Out8) -> (step: Step)
        requires
            bit < 8,
        ensures
            old(ctx).trace_consistent() ==> final(ctx).trace_consistent(),
            final(ctx).origin() == old(ctx).origin(),
            cycles(old(ctx).trace()) < cycles(final(ctx).trace()),
            rmw_post(RmwOp::SetBit(bit), *old(self), io, old(ctx).trace(), final(ctx).trace(), final(ctx).mid_interrupt(), *final(self), step),
            grows(old(ctx).trace(), final(ctx).trace()),
    {
        proof {
            reveal(rmw_post);
        }
        let value = self.read(io.as_in8(), ctx);
        let new_value = value | (1u8 << bit);
        self.write(io, ctx, new_value);
        self.prefetch_next(ctx, self.regs.pc)
    }

    /// RES b, s
    ///
    /// Flags: Z N H C
    ///        - - - -
    #[verifier::rlimit(50)]
    pub fn res<B: CpuContext>(&mut self, ctx: &mut B, bit: u8, io: Out8) -> (step: Step)
        requires
            bit < 8,
        ensures
            old(ctx).trace_consistent() ==> final(ctx).trace_consistent(),
            final(ctx).origin() == old(ctx).origin(),
            cycles(old(ctx).trace()) < cycles(final(ctx).trace()),
            rmw_post(RmwOp::ResBit(bit), *old(self), io, old(ctx).trace(), final(ctx).trace(), final(ctx).mid_interrupt(), *final(self), step),
            grows(old(ctx).trace(), final(ctx).trace()),
    {
        proof {
            reveal(rmw_post);
        }
        let value = self.read(io.as_in8(), ctx);
        let new_value = value & !(1u8 << bit);
        self.write(io, ctx, new_value);
        self.prefetch_next(ctx, self.regs.pc)
    }

    // Magic breakpoint
    /// LD B, B: reports the debug breakpoint to the context.
    #[verifier::rlimit(50)]
    pub fn ld_b_b<B: CpuContext>(&mut self, ctx: &mut B) -> (step: Step)
        ensures
            old(ctx).trace_consistent() ==> final(ctx).trace_consistent(),
            final(ctx).origin() == old(ctx).origin(),
            cycles(old(ctx).trace()) < cycles(final(ctx).trace()),
            ld_b_b_post(*old(self), old(ctx).trace(), final(ctx).trace(), final(ctx).mid_interrupt(), *final(self), step),
            grows(old(ctx).trace(), final(ctx).trace()),
    {
        proof {
            reveal(ld_b_b_post);
        }
        ctx.debug_opcode_callback();
        self.prefetch_next(ctx, self.regs.pc)
    }

    // --- Control
    /// JP nn
    ///
    /// Flags: Z N H C
    ///        - - - -
    #[verifier::rlimit(50)]
    pub fn jp<B: CpuContext>(&mut self, ctx: &mut B) -> (step: Step)
        ensures
            old(ctx).trace_consistent() ==> final(ctx).trace_consistent(),
            final(ctx).origin() == old(ctx).origin(),
            cycles(old(ctx).trace()) < cycles(final(ctx).trace()),
            jp_post(*old(self), old(ctx).trace(), final(ctx).trace(), final(ctx).mid_interrupt(), *final(self), step),
            grows(old(ctx).trace(), final(ctx).trace()),
    {
        proof {
            reveal(jp_post);
        }
        let addr = self.fetch_imm16(ctx);
        self.ctrl_jp(ctx, addr);
        self.prefetch_next(ctx, self.regs.pc)
    }

    /// JP HL
    ///
    /// Flags: Z N H C
    ///        - - - -
    #[verifier::rlimit(50)]
    pub fn jp_hl<B: CpuContext>(&mut self, ctx: &mut B) -> (step: Step)
        ensures
            old(ctx).trace_consistent() ==> final(ctx).trace_consistent(),
            final(ctx).origin() == old(ctx).origin(),
            cycles(old(ctx).trace()) < cycles(final(ctx).trace()),
            jp_hl_post(*old(self), old(ctx).trace(), final(ctx).trace(), final(ctx).mid_interrupt(), *final(self), step),
            grows(old(ctx).trace(), final(ctx).trace()),
    {
        proof {
            reveal(jp_hl_post);
        }
        let hl = self.regs.read16(Reg16::HL);
        self.prefetch_next(ctx, hl)
    }

    /// JR e
    ///
    /// Flags: Z N H C
    ///        - - - -
    #[verifier::rlimit(50)]
    pub fn jr<B: CpuContext>(&mut self, ctx: &mut B) -> (step: Step)
        ensures
            old(ctx).trace_consistent() ==> final(ctx).trace_consistent(),
            final(ctx).origin() == old(ctx).origin(),
            cycles(old(ctx).trace()) < cycles(final(ctx).trace()),
            jr_post(*old(self), old(ctx).trace(), final(ctx).trace(), final(ctx).mid_interrupt(), *final(self), step),
            grows(old(ctx).trace(), final(ctx).trace()),
    {
        proof {
            reveal(jr_post);
        }
        let offset = self.fetch_imm8(ctx);
        self.ctrl_jr(ctx, offset);
        self.prefetch_next(ctx, self.regs.pc)
    }

    /// CALL nn
    ///
    /// Flags: Z N H C
    ///        - - - -
    #[verifier::rlimit(50)]
    pub fn call<B: CpuContext>(&mut self, ctx: &mut B) -> (step: Step)
        ensures
            old(ctx).trace_consistent() ==> final(ctx).trace_consistent(),
            final(ctx).origin() == old(ctx).origin(),
            cycles(old(ctx).trace()) < cycles(final(ctx).trace()),
            call_post(*old(self), old(ctx).trace(), final(ctx).trace(), final(ctx).mid_interrupt(), *final(self), step),
            grows(old(ctx).trace(), final(ctx).trace()),
    {
        proof {
            reveal(call_post);
        }
        let addr = self.fetch_imm16(ctx);
        self.ctrl_call(ctx, addr);
        self.prefetch_next(ctx, self.regs.pc)
    }

    /// RET
    ///
    /// Flags: Z N H C
    ///        - - - -
    #[verifier::rlimit(50)]
    pub fn ret<B: CpuContext>(&mut self, ctx: &mut B) -> (step: Step)
        ensures
            old(ctx).trace_consistent() ==> final(ctx).trace_consistent(),
            final(ctx).origin() == old(ctx).origin(),
            cycles(old(ctx).trace()) < cycles(final(ctx).trace()),
            ret_post(*old(self), old(ctx).trace(), final(ctx).trace(), final(ctx).mid_interrupt(), *final(self), step),
            grows(old(ctx).trace(), final(ctx).trace()),
    {
        proof {
            reveal(ret_post);
        }
        self.ctrl_ret(ctx);
        self.prefetch_next(ctx, self.regs.pc)
    }

    /// RETI: returns and enables interrupts at once.
    ///
    /// Flags: Z N H C
    ///        - - - -
    #[verifier::rlimit(50)]
    pub fn reti<B: CpuContext>(&mut self, ctx: &mut B) -> (step: Step)
        ensures
            old(ctx).trace_consistent() ==> final(ctx).trace_consistent(),
            final(ctx).origin() == old(ctx).origin(),
            cycles(old(ctx).trace()) < cycles(final(ctx).trace()),
            reti_post(*old(self), old(ctx).trace(), final(ctx).trace(), final(ctx).mid_interrupt(), *final(self), step),
            grows(old(ctx).trace(), final(ctx).trace()),
    {
        proof {
            reveal(reti_post);
        }
        self.ime = true;
        self.ctrl_ret(ctx);
        self.prefetch_next(ctx, self.regs.pc)
    }

    /// JP cc, nn
    ///
    /// Flags: Z N H C
    ///        - - - -
    #[verifier::rlimit(50)]
    pub fn jp_cc<B: CpuContext>(&mut self, ctx: &mut B, cond: Cond) -> (step: Step)
        ensures
            old(ctx).trace_consistent() ==> final(ctx).trace_consistent(),
            final(ctx).origin() == old(ctx).origin(),
            cycles(old(ctx).trace()) < cycles(final(ctx).trace()),
            jp_cc_post(*old(self), cond, old(ctx).trace(), final(ctx).trace(), final(ctx).mid_interrupt(), *final(self), step),
            grows(old(ctx).trace(), final(ctx).trace()),
    {
        proof {
            reveal(jp_cc_post);
        }
        let addr = self.fetch_imm16(ctx);
        if self.check_cond(cond) {
            self.ctrl_jp(ctx, addr);
        }
        self.prefetch_next(ctx, self.regs.pc)
    }

    /// JR cc, e
    ///
    /// Flags: Z N H C
    ///        - - - -
    #[verifier::rlimit(50)]
    pub fn jr_cc<B: CpuContext>(&mut self, ctx: &mut B, cond: Cond) -> (step: Step)
        ensures
            old(ctx).trace_consistent() ==> final(ctx).trace_consistent(),
            final(ctx).origin() == old(ctx).origin(),
            cycles(old(ctx).trace()) < cycles(final(ctx).trace()),
            jr_cc_post(*old(self), cond, old(ctx).trace(), final(ctx).trace(), final(ctx).mid_interrupt(), *final(self), step),
            grows(old(ctx).trace(), final(ctx).trace()),
    {
        proof {
            reveal(jr_cc_post);
        }
        let offset = self.fetch_imm8(ctx);
        if self.check_cond(cond) {
            self.ctrl_jr(ctx, offset);
        }
        self.prefetch_next(ctx, self.regs.pc)
    }

    /// CALL cc, nn
    ///
    /// Flags: Z N H C
    ///        - - - -
    #[verifier::rlimit(50)]
    pub fn call_cc<B: CpuContext>(&mut self, ctx: &mut B, cond: Cond) -> (step: Step)
        ensures
            old(ctx).trace_consistent() ==> final(ctx).trace_consistent(),
            final(ctx).origin() == old(ctx).origin(),
            cycles(old(ctx).trace()) < cycles(final(ctx).trace()),
            call_cc_post(*old(self), cond, old(ctx).trace(), final(ctx).trace(), final(ctx).mid_interrupt(), *final(self), step),
            grows(old(ctx).trace(), final(ctx).trace()),
    {
        proof {
            reveal(call_cc_post);
        }
        let addr = self.fetch_imm16(ctx);
        if self.check_cond(cond) {
            self.ctrl_call(ctx, addr);
        }
        self.prefetch_next(ctx, self.regs.pc)
    }

    /// RET cc
    ///
    /// Flags: Z N H C
    ///        - - - -
    #[verifier::rlimit(50)]
    pub fn ret_cc<B: CpuContext>(&mut self, ctx: &mut B, cond: Cond) -> (step: Step)
        ensures
            old(ctx).trace_consistent() ==> final(ctx).trace_consistent(),
            final(ctx).origin() == old(ctx).origin(),
            cycles(old(ctx).trace()) < cycles(final(ctx).trace()),
            ret_cc_post(*old(self), cond, old(ctx).trace(), final(ctx).trace(), final(ctx).mid_interrupt(), *final(self), step),
            grows(old(ctx).trace(), final(ctx).trace()),
    {
        proof {
            reveal(ret_cc_post);
        }
        ctx.tick_cycle();
        if self.check_cond(cond) {
            self.ctrl_ret(ctx);
        }
        self.prefetch_next(ctx, self.regs.pc)
    }

    /// RST n
    ///
    /// Flags: Z N H C
    ///        - - - -
    #[verifier::rlimit(50)]
    pub fn rst<B: CpuContext>(&mut self, ctx: &mut B, addr: u8) -> (step: Step)
        ensures
            old(ctx).trace_consistent() ==> final(ctx).trace_consistent(),
            final(ctx).origin() == old(ctx).origin(),
            cycles(old(ctx).trace()) < cycles(final(ctx).trace()),
            rst_post(*old(self), addr, old(ctx).trace(), final(ctx).trace(), final(ctx).mid_interrupt(), *final(self), step),
            grows(old(ctx).trace(), final(ctx).trace()),
    {
        proof {
            reveal(rst_post);
        }
        let pc = self.regs.pc;
        self.push_u16(ctx, pc);
        self.prefetch_next(ctx, addr as u16)
    }

    // --- Miscellaneous
    /// HALT: reads the next opcode without moving past it. With an interrupt
    /// pending the CPU goes on at once: it dispatches the interrupt when IME is
    /// set, and otherwise runs the fetched opcode (whose fetch did not move PC).
    /// Without one it waits in the halt state.
    ///
    /// Flags: Z N H C
    ///        - - - -
    #[verifier::rlimit(50)]
    pub fn halt<B: CpuContext>(&mut self, ctx: &mut B) -> (step: Step)
        ensures
            old(ctx).trace_consistent() ==> final(ctx).trace_consistent(),
            final(ctx).origin() == old(ctx).origin(),
            cycles(old(ctx).trace()) < cycles(final(ctx).trace()),
            halt_post(*old(self), old(ctx).trace(), final(ctx).trace(), final(ctx).mid_interrupt(), *final(self), step),
            grows(old(ctx).trace(), final(ctx).trace()),
    {
        proof {
            reveal(halt_post);
        }
        self.opcode = ctx.read_cycle(self.regs.pc);
        if !ctx.get_mid_interrupt().is_empty() {
            if self.ime {
                Step::InterruptDispatch
            } else {
                Step::Running
            }
        } else {
            ctx.tick_cycle();
            Step::Halt
        }
    }

    /// DI: disables interrupts at once; the next opcode is fetched without an
    /// interrupt check.
    ///
    /// Flags: Z N H C
    ///        - - - -
    #[verifier::rlimit(50)]
    pub fn di<B: CpuContext>(&mut self, ctx: &mut B) -> (step: Step)
        ensures
            old(ctx).trace_consistent() ==> final(ctx).trace_consistent(),
            final(ctx).origin() == old(ctx).origin(),
            cycles(old(ctx).trace()) < cycles(final(ctx).trace()),
            di_post(*old(self), old(ctx).trace(), final(ctx).trace(), final(ctx).mid_interrupt(), *final(self), step),
            grows(old(ctx).trace(), final(ctx).trace()),
    {
        proof {
            reveal(di_post);
        }
        self.ime = false;
        self.opcode = self.fetch_imm8(ctx);
        Step::Running
    }

    /// EI: enables interrupts after the next instruction; the fetch that ends
    /// EI still sees the old IME.
    ///
    /// Flags: Z N H C
    ///        - - - -
    #[verifier::rlimit(50)]
    pub fn ei<B: CpuContext>(&mut self, ctx: &mut B) -> (step: Step)
        ensures
            old(ctx).trace_consistent() ==> final(ctx).trace_consistent(),
            final(ctx).origin() == old(ctx).origin(),
            cycles(old(ctx).trace()) < cycles(final(ctx).trace()),
            ei_post(*old(self), old(ctx).trace(), final(ctx).trace(), final(ctx).mid_interrupt(), *final(self), step),
            grows(old(ctx).trace(), final(ctx).trace()),
    {
        proof {
            reveal(ei_post);
        }
        let step = self.prefetch_next(ctx, self.regs.pc);
        self.ime = true;
        step
    }

    /// CCF
    ///
    /// Flags: Z N H C
    ///        - 0 0 *
    #[verifier::rlimit(50)]
    pub fn ccf<B: CpuContext>(&mut self, ctx: &mut B) -> (step: Step)
        ensures
            old(ctx).trace_consistent() ==> final(ctx).trace_consistent(),
            final(ctx).origin() == old(ctx).origin(),
            cycles(old(ctx).trace()) < cycles(final(ctx).trace()),
            ccf_post(*old(self), old(ctx).trace(), final(ctx).trace(), final(ctx).mid_interrupt(), *final(self), step),
            grows(old(ctx).trace(), final(ctx).trace()),
    {
        proof {
            reveal(ccf_post);
        }
        self.regs.set_nf(false);
        self.regs.set_hf(false);
        let c = self.regs.cf();
        self.regs.set_cf(!c);
        self.prefetch_next(ctx, self.regs.pc)
    }

    /// SCF
    ///
    /// Flags: Z N H C
    ///        - 0 0 1
    #[verifier::rlimit(50)]
    pub fn scf<B: CpuContext>(&mut self, ctx: &mut B) -> (step: Step)
        ensures
            old(ctx).trace_consistent() ==> final(ctx).trace_consistent(),
            final(ctx).origin() == old(ctx).origin(),
            cycles(old(ctx).trace()) < cycles(final(ctx).trace()),
            scf_post(*old(self), old(ctx).trace(), final(ctx).trace(), final(ctx).mid_interrupt(), *final(self), step),
            grows(old(ctx).trace(), final(ctx).trace()),
    {
        proof {
            reveal(scf_post);
        }
        self.regs.set_nf(false);
        self.regs.set_hf(false);
        self.regs.set_cf(true);
        self.prefetch_next(ctx, self.regs.pc)
    }

    /// NOP
    ///
    /// Flags: Z N H C
    ///        - - - -
    #[verifier::rlimit(50)]
    pub fn nop<B: CpuContext>(&mut self, ctx: &mut B) -> (step: Step)
        ensures
            old(ctx).trace_consistent() ==> final(ctx).trace_consistent(),
            final(ctx).origin() == old(ctx).origin(),
            cycles(old(ctx).trace()) < cycles(final(ctx).trace()),
            nop_post(*old(self), old(ctx).trace(), final(ctx).trace(), final(ctx).mid_interrupt(), *final(self), step),
            grows(old(ctx).trace(), final(ctx).trace()),
    {
        proof {
            reveal(nop_post);
        }
        self.prefetch_next(ctx, self.regs.pc)
    }

    /// DAA: decimal adjustment of A after a BCD addition or subtraction.
    ///
    /// Flags: Z N H C
    ///        * - 0 *
    #[verifier::rlimit(50)]
    pub fn daa<B: CpuContext>(&mut self, ctx: &mut B) -> (step: Step)
        ensures
            old(ctx).trace_consistent() ==> final(ctx).trace_consistent(),
            final(ctx).origin() == old(ctx).origin(),
            cycles(old(ctx).trace()) < cycles(final(ctx).trace()),
            daa_post(*old(self), old(ctx).trace(), final(ctx).trace(), final(ctx).mid_interrupt(), *final(self), step),
            grows(old(ctx).trace(), final(ctx).trace()),
    {
        proof {
            reveal(daa_post);
        }
        let (a, carry) = daa_adjust(
            self.regs.a,
            self.regs.nf(),
            self.regs.hf(),
            self.regs.cf(),
        );
        self.regs.a = a;
        self.regs.set_zf(self.regs.a == 0);
        self.regs.set_hf(false);
        self.regs.set_cf(carry);
        self.prefetch_next(ctx, self.regs.pc)
    }

    /// CPL
    ///
    /// Flags: Z N H C
    ///        - 1 1 -
    #[verifier::rlimit(50)]
    pub fn cpl<B: CpuContext>(&mut self, ctx: &mut B) -> (step: Step)
        ensures
            old(ctx).trace_consistent() ==> final(ctx).trace_consistent(),
            final(ctx).origin() == old(ctx).origin(),
            cycles(old(ctx).trace()) < cycles(final(ctx).trace()),
            cpl_post(*old(self), old(ctx).trace(), final(ctx).trace(), final(ctx).mid_interrupt(), *final(self), step),
            grows(old(ctx).trace(), final(ctx).trace()),
    {
        proof {
            reveal(cpl_post);
        }
        self.regs.a = !self.regs.a;
        self.regs.set_nf(true);
        self.regs.set_hf(true);
        self.prefetch_next(ctx, self.regs.pc)
    }

    // --- 16-bit operations
    // 16-bit loads
    /// LD dd, nn
    ///
    /// Flags: Z N H C
    ///        - - - -
    #[verifier::rlimit(50)]
    pub fn load16_imm<B: CpuContext>(&mut self, ctx: &mut B, reg: Reg16) -> (step: Step)
        ensures
            old(ctx).trace_consistent() ==> final(ctx).trace_consistent(),
            final(ctx).origin() == old(ctx).origin(),
            cycles(old(ctx).trace()) < cycles(final(ctx).trace()),
            load16_imm_post(*old(self), reg, old(ctx).trace(), final(ctx).trace(), final(ctx).mid_interrupt(), *final(self), step),
            grows(old(ctx).trace(), final(ctx).trace()),
    {
        proof {
            reveal(load16_imm_post);
        }
        let value = self.fetch_imm16(ctx);
        self.regs.write16(reg, value);
        self.prefetch_next(ctx, self.regs.pc)
    }

    /// LD (nn), SP
    ///
    /// Flags: Z N H C
    ///        - - - -
    #[verifier::rlimit(50)]
    pub fn load16_nn_sp<B: CpuContext>(&mut self, ctx: &mut B) -> (step: Step)
        ensures
            old(ctx).trace_consistent() ==> final(ctx).trace_consistent(),
            final(ctx).origin() == old(ctx).origin(),
            cycles(old(ctx).trace()) < cycles(final(ctx).trace()),
            load16_nn_sp_post(*old(self), old(ctx).trace(), final(ctx).trace(), final(ctx).mid_interrupt(), *final(self), step),
            grows(old(ctx).trace(), final(ctx).trace()),
    {
        proof {
            reveal(load16_nn_sp_post);
        }
        let value = self.regs.sp;
        let addr = self.fetch_imm16(ctx);
        ctx.write_cycle(addr, (value % 256) as u8);
        ctx.write_cycle(addr.wrapping_add(1), (value / 256) as u8);
        self.prefetch_next(ctx, self.regs.pc)
    }

    /// LD SP, HL
    ///
    /// Flags: Z N H C
    ///        - - - -
    #[verifier::rlimit(50)]
    pub fn load16_sp_hl<B: CpuContext>(&mut self, ctx: &mut B) -> (step: Step)
        ensures
            old(ctx).trace_consistent() ==> final(ctx).trace_consistent(),
            final(ctx).origin() == old(ctx).origin(),
            cycles(old(ctx).trace()) < cycles(final(ctx).trace()),
            load16_sp_hl_post(*old(self), old(ctx).trace(), final(ctx).trace(), final(ctx).mid_interrupt(), *final(self), step),
            grows(old(ctx).trace(), final(ctx).trace()),
    {
        proof {
            reveal(load16_sp_hl_post);
        }
        let value = self.regs.read16(Reg16::HL);
        self.regs.sp = value;
        ctx.tick_cycle();
        self.prefetch_next(ctx, self.regs.pc)
    }

    /// LD HL, SP+e
    ///
    /// Flags: Z N H C
    ///        0 0 * *
    #[verifier::rlimit(50)]
    pub fn load16_hl_sp_e<B: CpuContext>(&mut self, ctx: &mut B) -> (step: Step)
        ensures
            old(ctx).trace_consistent() ==> final(ctx).trace_consistent(),
            final(ctx).origin() == old(ctx).origin(),
            cycles(old(ctx).trace()) < cycles(final(ctx).trace()),
            load16_hl_sp_e_post(*old(self), old(ctx).trace(), final(ctx).trace(), final(ctx).mid_interrupt(), *final(self), step),
            grows(old(ctx).trace(), final(ctx).trace()),
    {
        proof {
            reveal(load16_hl_sp_e_post);
        }
        let e = self.fetch_imm8(ctx);
        let offset: u16 = if e < 128 {
            e as u16
        } else {
            e as u16 + 0xff00
        };
        let sp = self.regs.sp;
        let value = sp.wrapping_add(offset);
        self.regs.write16(Reg16::HL, value);
        self.regs.set_zf(false);
        self.regs.set_nf(false);
        self.regs.set_hf(u16::test_add_carry_bit(3, sp, offset));
        self.regs.set_cf(u16::test_add_carry_bit(7, sp, offset));
        ctx.tick_cycle();
        self.prefetch_next(ctx, self.regs.pc)
    }

    /// PUSH rr
    ///
    /// Flags: Z N H C
    ///        - - - -
    #[verifier::rlimit(50)]
    pub fn push16<B: CpuContext>(&mut self, ctx: &mut B, reg: Reg16) -> (step: Step)
        ensures
            old(ctx).trace_consistent() ==> final(ctx).trace_consistent(),
            final(ctx).origin() == old(ctx).origin(),
            cycles(old(ctx).trace()) < cycles(final(ctx).trace()),
            push16_post(*old(self), reg, old(ctx).trace(), final(ctx).trace(), final(ctx).mid_interrupt(), *final(self), step),
            grows(old(ctx).trace(), final(ctx).trace()),
    {
        proof {
            reveal(push16_post);
        }
        let value = self.regs.read16(reg);
        self.push_u16(ctx, value);
        self.prefetch_next(ctx, self.regs.pc)
    }

    /// POP rr
    ///
    /// Flags: Z N H C
    ///        - - - -
    /// Note! POP AF affects all flags
    #[verifier::rlimit(50)]
    pub fn pop16<B: CpuContext>(&mut self, ctx: &mut B, reg: Reg16) -> (step: Step)
        ensures
            old(ctx).trace_consistent() ==> final(ctx).trace_consistent(),
            final(ctx).origin() == old(ctx).origin(),
            cycles(old(ctx).trace()) < cycles(final(ctx).trace()),
            pop16_post(*old(self), reg, old(ctx).trace(), final(ctx).trace(), final(ctx).mid_interrupt(), *final(self), step),
            grows(old(ctx).trace(), final(ctx).trace()),
    {
        proof {
            reveal(pop16_post);
        }
        let value = self.pop_u16(ctx);
        self.regs.write16(reg, value);
        self.prefetch_next(ctx, self.regs.pc)
    }

    // 16-bit arithmetic
    /// ADD HL, ss
    ///
    /// Flags: Z N H C
    ///        - 0 * *
    #[verifier::rlimit(50)]
    pub fn add16<B: CpuContext>(&mut self, ctx: &mut B, reg: Reg16) -> (step: Step)
        ensures
            old(ctx).trace_consistent() ==> final(ctx).trace_consistent(),
            final(ctx).origin() == old(ctx).origin(),
            cycles(old(ctx).trace()) < cycles(final(ctx).trace()),
            add16_post(*old(self), reg, old(ctx).trace(), final(ctx).trace(), final(ctx).mid_interrupt(), *final(self), step),
            grows(old(ctx).trace(), final(ctx).trace()),
    {
        proof {
            reveal(add16_post);
        }
        let hl = self.regs.read16(Reg16::HL);
        let value = self.regs.read16(reg);
        let result = hl.wrapping_add(value);
        self.regs.set_nf(false);
        self.regs.set_hf(u16::test_add_carry_bit(11, hl, value));
        self.regs.set_cf(hl > 0xffff - value);
        self.regs.write16(Reg16::HL, result);
        ctx.tick_cycle();
        self.prefetch_next(ctx, self.regs.pc)
    }

    /// ADD SP, e
    ///
    /// Flags: Z N H C
    ///        0 0 * *
    #[verifier::rlimit(50)]
    pub fn add16_sp_e<B: CpuContext>(&mut self, ctx: &mut B) -> (step: Step)
        ensures
            old(ctx).trace_consistent() ==> final(ctx).trace_consistent(),
            final(ctx).origin() == old(ctx).origin(),
            cycles(old(ctx).trace()) < cycles(final(ctx).trace()),
            add16_sp_e_post(*old(self), old(ctx).trace(), final(ctx).trace(), final(ctx).mid_interrupt(), *final(self), step),
            grows(old(ctx).trace(), final(ctx).trace()),
    {
        proof {
            reveal(add16_sp_e_post);
        }
        let e = self.fetch_imm8(ctx);
        let offset: u16 = if e < 128 {
            e as u16
        } else {
            e as u16 + 0xff00
        };
        let sp = self.regs.sp;
        self.regs.sp = sp.wrapping_add(offset);
        self.regs.set_zf(false);
        self.regs.set_nf(false);
        self.regs.set_hf(u16::test_add_carry_bit(3, sp, offset));
        self.regs.set_cf(u16::test_add_carry_bit(7, sp, offset));
        ctx.tick_cycle();
        ctx.tick_cycle();
        self.prefetch_next(ctx, self.regs.pc)
    }

    /// INC rr
    ///
    /// Flags: Z N H C
    ///        - - - -
    #[verifier::rlimit(50)]
    pub fn inc16<B: CpuContext>(&mut self, ctx: &mut B, reg: Reg16) -> (step: Step)
        ensures
            old(ctx).trace_consistent() ==> final(ctx).trace_consistent(),
            final(ctx).origin() == old(ctx).origin(),
            cycles(old(ctx).trace()) < cycles(final(ctx).trace()),
            inc16_post(*old(self), reg, old(ctx).trace(), final(ctx).trace(), final(ctx).mid_interrupt(), *final(self), step),
            grows(old(ctx).trace(), final(ctx).trace()),
    {
        proof {
            reveal(inc16_post);
        }
        let value = self.regs.read16(reg).wrapping_add(1);
        self.regs.write16(reg, value);
        ctx.tick_cycle();
        self.prefetch_next(ctx, self.regs.pc)
    }

    /// DEC rr
    ///
    /// Flags: Z N H C
    ///        - - - -
    #[verifier::rlimit(50)]
    pub fn dec16<B: CpuContext>(&mut self, ctx: &mut B, reg: Reg16) -> (step: Step)
        ensures
            old(ctx).trace_consistent() ==> final(ctx).trace_consistent(),
            final(ctx).origin() == old(ctx).origin(),
            cycles(old(ctx).trace()) < cycles(final(ctx).trace()),
            dec16_post(*old(self), reg, old(ctx).trace(), final(ctx).trace(), final(ctx).mid_interrupt(), *final(self), step),
            grows(old(ctx).trace(), final(ctx).trace()),
    {
        proof {
            reveal(dec16_post);
        }
        let value = self.regs.read16(reg).wrapping_sub(1);
        self.regs.write16(reg, value);
        ctx.tick_cycle();
        self.prefetch_next(ctx, self.regs.pc)
    }
}

} // verus!
