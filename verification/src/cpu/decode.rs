//! Decoding: which instruction each opcode runs.
use vstd::prelude::*;
use crate::cpu::alu::{AluOp, RmwOp};
use crate::cpu::execute::{
    add16_post, add16_sp_e_post, call_cc_post, call_post, ccf_post, cpl_post, daa_post, dec16_post,
    di_post, ei_post, halt_post, inc16_post, jp_cc_post, jp_hl_post, jp_post, jr_cc_post, jr_post,
    ld_b_b_post, load16_hl_sp_e_post, load16_imm_post, load16_nn_sp_post, load16_sp_hl_post,
    load_post, nop_post, pop16_post, push16_post, ret_cc_post, ret_post, reti_post, rla_post,
    rlca_post, rra_post, rrca_post, rst_post, scf_post,
};
use crate::cpu::registers::{Reg16, Reg8, Registers};
use crate::cpu::{
    Addr, BusEvent, Cond, Cpu, CpuContext, Immediate8, In8, Out8, Step, alu8_post, ev, extends,
    is_read_at, rd, rmw_post, wrap16, appends, grows, cycles,
};
use crate::hardware::interrupts::InterruptLine;

verus! {

/// The opcode names an instruction: it is neither STOP nor one of the eleven
/// unused opcodes, which the emulator does not run.
pub open spec fn is_defined_opcode(op: u8) -> bool {
    !(op == 0x10 || op == 0xd3 || op == 0xdb || op == 0xdd || op == 0xe3 || op == 0xe4 || op == 0xeb || op == 0xec || op == 0xed || op == 0xf4 || op == 0xfc || op == 0xfd)
}

/// Whether the CPU can execute `op`: it is neither STOP nor one of the
/// opcodes that do not exist.
pub fn defined_opcode(op: u8) -> (r: bool)
    ensures
        r == is_defined_opcode(op),
{
    !(op == 0x10 || op == 0xd3 || op == 0xdb || op == 0xdd || op == 0xe3 || op == 0xe4 || op == 0xeb
        || op == 0xec || op == 0xed || op == 0xf4 || op == 0xfc || op == 0xfd)
}

/// The effect of the instruction that opcode `op` runs.
pub open spec fn exec_post(
    op: u8,
    pre: Cpu,
    t0: Seq<BusEvent>,
    t1: Seq<BusEvent>,
    mid: InterruptLine,
    post: Cpu,
    step: Step,
) -> bool {
    let src = spec_reg_operand(op % 8).spec_as_in8();
    if op == 0x40 {
        ld_b_b_post(pre, t0, t1, mid, post, step)
    } else if op == 0x76 {
        halt_post(pre, t0, t1, mid, post, step)
    } else if 0x40 <= op < 0x80 {
        load_post(pre, spec_reg_operand(((op - 0x40) / 8) as u8), src, t0, t1, mid, post, step)
    } else if 0x80 <= op < 0xc0 {
        alu8_post(alu_of(((op - 0x80) / 8) as u8), pre, src, t0, t1, mid, post, step)
    } else {
        match op {
            0x00 => nop_post(pre, t0, t1, mid, post, step),
            0x01 => load16_imm_post(pre, Reg16::BC, t0, t1, mid, post, step),
            0x02 => load_post(pre, Out8::Addr(Addr::BC), In8::Reg(Reg8::A), t0, t1, mid, post, step),
            0x03 => inc16_post(pre, Reg16::BC, t0, t1, mid, post, step),
            0x04 => rmw_post(RmwOp::Inc, pre, Out8::Reg(Reg8::B), t0, t1, mid, post, step),
            0x05 => rmw_post(RmwOp::Dec, pre, Out8::Reg(Reg8::B), t0, t1, mid, post, step),
            0x06 => load_post(pre, Out8::Reg(Reg8::B), In8::Imm(Immediate8), t0, t1, mid, post, step),
            0x07 => rlca_post(pre, t0, t1, mid, post, step),
            0x08 => load16_nn_sp_post(pre, t0, t1, mid, post, step),
            0x09 => add16_post(pre, Reg16::BC, t0, t1, mid, post, step),
            0x0a => load_post(pre, Out8::Reg(Reg8::A), In8::Addr(Addr::BC), t0, t1, mid, post, step),
            0x0b => dec16_post(pre, Reg16::BC, t0, t1, mid, post, step),
            0x0c => rmw_post(RmwOp::Inc, pre, Out8::Reg(Reg8::C), t0, t1, mid, post, step),
            0x0d => rmw_post(RmwOp::Dec, pre, Out8::Reg(Reg8::C), t0, t1, mid, post, step),
            0x0e => load_post(pre, Out8::Reg(Reg8::C), In8::Imm(Immediate8), t0, t1, mid, post, step),
            0x0f => rrca_post(pre, t0, t1, mid, post, step),
            0x11 => load16_imm_post(pre, Reg16::DE, t0, t1, mid, post, step),
            0x12 => load_post(pre, Out8::Addr(Addr::DE), In8::Reg(Reg8::A), t0, t1, mid, post, step),
            0x13 => inc16_post(pre, Reg16::DE, t0, t1, mid, post, step),
            0x14 => rmw_post(RmwOp::Inc, pre, Out8::Reg(Reg8::D), t0, t1, mid, post, step),
            0x15 => rmw_post(RmwOp::Dec, pre, Out8::Reg(Reg8::D), t0, t1, mid, post, step),
            0x16 => load_post(pre, Out8::Reg(Reg8::D), In8::Imm(Immediate8), t0, t1, mid, post, step),
            0x17 => rla_post(pre, t0, t1, mid, post, step),
            0x18 => jr_post(pre, t0, t1, mid, post, step),
            0x19 => add16_post(pre, Reg16::DE, t0, t1, mid, post, step),
            0x1a => load_post(pre, Out8::Reg(Reg8::A), In8::Addr(Addr::DE), t0, t1, mid, post, step),
            0x1b => dec16_post(pre, Reg16::DE, t0, t1, mid, post, step),
            0x1c => rmw_post(RmwOp::Inc, pre, Out8::Reg(Reg8::E), t0, t1, mid, post, step),
            0x1d => rmw_post(RmwOp::Dec, pre, Out8::Reg(Reg8::E), t0, t1, mid, post, step),
            0x1e => load_post(pre, Out8::Reg(Reg8::E), In8::Imm(Immediate8), t0, t1, mid, post, step),
            0x1f => rra_post(pre, t0, t1, mid, post, step),
            0x20 => jr_cc_post(pre, Cond::NZ, t0, t1, mid, post, step),
            0x21 => load16_imm_post(pre, Reg16::HL, t0, t1, mid, post, step),
            0x22 => load_post(pre, Out8::Addr(Addr::HLI), In8::Reg(Reg8::A), t0, t1, mid, post, step),
            0x23 => inc16_post(pre, Reg16::HL, t0, t1, mid, post, step),
            0x24 => rmw_post(RmwOp::Inc, pre, Out8::Reg(Reg8::H), t0, t1, mid, post, step),
            0x25 => rmw_post(RmwOp::Dec, pre, Out8::Reg(Reg8::H), t0, t1, mid, post, step),
            0x26 => load_post(pre, Out8::Reg(Reg8::H), In8::Imm(Immediate8), t0, t1, mid, post, step),
            0x27 => daa_post(pre, t0, t1, mid, post, step),
            0x28 => jr_cc_post(pre, Cond::Z, t0, t1, mid, post, step),
            0x29 => add16_post(pre, Reg16::HL, t0, t1, mid, post, step),
            0x2a => load_post(pre, Out8::Reg(Reg8::A), In8::Addr(Addr::HLI), t0, t1, mid, post, step),
            0x2b => dec16_post(pre, Reg16::HL, t0, t1, mid, post, step),
            0x2c => rmw_post(RmwOp::Inc, pre, Out8::Reg(Reg8::L), t0, t1, mid, post, step),
            0x2d => rmw_post(RmwOp::Dec, pre, Out8::Reg(Reg8::L), t0, t1, mid, post, step),
            0x2e => load_post(pre, Out8::Reg(Reg8::L), In8::Imm(Immediate8), t0, t1, mid, post, step),
            0x2f => cpl_post(pre, t0, t1, mid, post, step),
            0x30 => jr_cc_post(pre, Cond::NC, t0, t1, mid, post, step),
            0x31 => load16_imm_post(pre, Reg16::SP, t0, t1, mid, post, step),
            0x32 => load_post(pre, Out8::Addr(Addr::HLD), In8::Reg(Reg8::A), t0, t1, mid, post, step),
            0x33 => inc16_post(pre, Reg16::SP, t0, t1, mid, post, step),
            0x34 => rmw_post(RmwOp::Inc, pre, Out8::Addr(Addr::HL), t0, t1, mid, post, step),
            0x35 => rmw_post(RmwOp::Dec, pre, Out8::Addr(Addr::HL), t0, t1, mid, post, step),
            0x36 => load_post(pre, Out8::Addr(Addr::HL), In8::Imm(Immediate8), t0, t1, mid, post, step),
            0x37 => scf_post(pre, t0, t1, mid, post, step),
            0x38 => jr_cc_post(pre, Cond::C, t0, t1, mid, post, step),
            0x39 => add16_post(pre, Reg16::SP, t0, t1, mid, post, step),
            0x3a => load_post(pre, Out8::Reg(Reg8::A), In8::Addr(Addr::HLD), t0, t1, mid, post, step),
            0x3b => dec16_post(pre, Reg16::SP, t0, t1, mid, post, step),
            0x3c => rmw_post(RmwOp::Inc, pre, Out8::Reg(Reg8::A), t0, t1, mid, post, step),
            0x3d => rmw_post(RmwOp::Dec, pre, Out8::Reg(Reg8::A), t0, t1, mid, post, step),
            0x3e => load_post(pre, Out8::Reg(Reg8::A), In8::Imm(Immediate8), t0, t1, mid, post, step),
            0x3f => ccf_post(pre, t0, t1, mid, post, step),
            0xc0 => ret_cc_post(pre, Cond::NZ, t0, t1, mid, post, step),
            0xc1 => pop16_post(pre, Reg16::BC, t0, t1, mid, post, step),
            0xc2 => jp_cc_post(pre, Cond::NZ, t0, t1, mid, post, step),
            0xc3 => jp_post(pre, t0, t1, mid, post, step),
            0xc4 => call_cc_post(pre, Cond::NZ, t0, t1, mid, post, step),
            0xc5 => push16_post(pre, Reg16::BC, t0, t1, mid, post, step),
            0xc6 => alu8_post(AluOp::Add, pre, In8::Imm(Immediate8), t0, t1, mid, post, step),
            0xc7 => rst_post(pre, 0x00u8, t0, t1, mid, post, step),
            0xc8 => ret_cc_post(pre, Cond::Z, t0, t1, mid, post, step),
            0xc9 => ret_post(pre, t0, t1, mid, post, step),
            0xca => jp_cc_post(pre, Cond::Z, t0, t1, mid, post, step),
            0xcb => cb_prefix_post(pre, t0, t1, mid, post, step),
            0xcc => call_cc_post(pre, Cond::Z, t0, t1, mid, post, step),
            0xcd => call_post(pre, t0, t1, mid, post, step),
            0xce => alu8_post(AluOp::Adc, pre, In8::Imm(Immediate8), t0, t1, mid, post, step),
            0xcf => rst_post(pre, 0x08u8, t0, t1, mid, post, step),
            0xd0 => ret_cc_post(pre, Cond::NC, t0, t1, mid, post, step),
            0xd1 => pop16_post(pre, Reg16::DE, t0, t1, mid, post, step),
            0xd2 => jp_cc_post(pre, Cond::NC, t0, t1, mid, post, step),
            0xd4 => call_cc_post(pre, Cond::NC, t0, t1, mid, post, step),
            0xd5 => push16_post(pre, Reg16::DE, t0, t1, mid, post, step),
            0xd6 => alu8_post(AluOp::Sub, pre, In8::Imm(Immediate8), t0, t1, mid, post, step),
            0xd7 => rst_post(pre, 0x10u8, t0, t1, mid, post, step),
            0xd8 => ret_cc_post(pre, Cond::C, t0, t1, mid, post, step),
            0xd9 => reti_post(pre, t0, t1, mid, post, step),
            0xda => jp_cc_post(pre, Cond::C, t0, t1, mid, post, step),
            0xdc => call_cc_post(pre, Cond::C, t0, t1, mid, post, step),
            0xde => alu8_post(AluOp::Sbc, pre, In8::Imm(Immediate8), t0, t1, mid, post, step),
            0xdf => rst_post(pre, 0x18u8, t0, t1, mid, post, step),
            0xe0 => load_post(pre, Out8::Addr(Addr::ZeroPage), In8::Reg(Reg8::A), t0, t1, mid, post, step),
            0xe1 => pop16_post(pre, Reg16::HL, t0, t1, mid, post, step),
            0xe2 => load_post(pre, Out8::Addr(Addr::ZeroPageC), In8::Reg(Reg8::A), t0, t1, mid, post, step),
            0xe5 => push16_post(pre, Reg16::HL, t0, t1, mid, post, step),
            0xe6 => alu8_post(AluOp::And, pre, In8::Imm(Immediate8), t0, t1, mid, post, step),
            0xe7 => rst_post(pre, 0x20u8, t0, t1, mid, post, step),
            0xe8 => add16_sp_e_post(pre, t0, t1, mid, post, step),
            0xe9 => jp_hl_post(pre, t0, t1, mid, post, step),
            0xea => load_post(pre, Out8::Addr(Addr::Direct), In8::Reg(Reg8::A), t0, t1, mid, post, step),
            0xee => alu8_post(AluOp::Xor, pre, In8::Imm(Immediate8), t0, t1, mid, post, step),
            0xef => rst_post(pre, 0x28u8, t0, t1, mid, post, step),
            0xf0 => load_post(pre, Out8::Reg(Reg8::A), In8::Addr(Addr::ZeroPage), t0, t1, mid, post, step),
            0xf1 => pop16_post(pre, Reg16::AF, t0, t1, mid, post, step),
            0xf2 => load_post(pre, Out8::Reg(Reg8::A), In8::Addr(Addr::ZeroPageC), t0, t1, mid, post, step),
            0xf3 => di_post(pre, t0, t1, mid, post, step),
            0xf5 => push16_post(pre, Reg16::AF, t0, t1, mid, post, step),
            0xf6 => alu8_post(AluOp::Or, pre, In8::Imm(Immediate8), t0, t1, mid, post, step),
            0xf7 => rst_post(pre, 0x30u8, t0, t1, mid, post, step),
            0xf8 => load16_hl_sp_e_post(pre, t0, t1, mid, post, step),
            0xf9 => load16_sp_hl_post(pre, t0, t1, mid, post, step),
            0xfa => load_post(pre, Out8::Reg(Reg8::A), In8::Addr(Addr::Direct), t0, t1, mid, post, step),
            0xfb => ei_post(pre, t0, t1, mid, post, step),
            0xfe => alu8_post(AluOp::Cp, pre, In8::Imm(Immediate8), t0, t1, mid, post, step),
            0xff => rst_post(pre, 0x38u8, t0, t1, mid, post, step),
            _ => false,
        }
    }
}

/// The accumulator operation of opcodes 0x80 to 0xbf, by bits 3 to 5.
pub open spec fn alu_of(g: u8) -> AluOp {
    match g {
        0 => AluOp::Add,
        1 => AluOp::Adc,
        2 => AluOp::Sub,
        3 => AluOp::Sbc,
        4 => AluOp::And,
        5 => AluOp::Xor,
        6 => AluOp::Or,
        _ => AluOp::Cp,
    }
}

/// The operand that the low three bits of an opcode select: B, C, D, E, H,
/// L, (HL), A.
pub open spec fn spec_reg_operand(i: u8) -> Out8 {
    match i {
        0 => Out8::Reg(Reg8::B),
        1 => Out8::Reg(Reg8::C),
        2 => Out8::Reg(Reg8::D),
        3 => Out8::Reg(Reg8::E),
        4 => Out8::Reg(Reg8::H),
        5 => Out8::Reg(Reg8::L),
        6 => Out8::Addr(Addr::HL),
        _ => Out8::Reg(Reg8::A),
    }
}

/// The shift or rotation of the CB opcodes below 0x40, by bits 3 to 5.
pub open spec fn cb_rotation(g: u8) -> RmwOp {
    match g {
        0 => RmwOp::Rlc,
        1 => RmwOp::Rrc,
        2 => RmwOp::Rl,
        3 => RmwOp::Rr,
        4 => RmwOp::Sla,
        5 => RmwOp::Sra,
        6 => RmwOp::Swap,
        _ => RmwOp::Srl,
    }
}

/// The effect of the CB-prefixed instruction with second opcode `op`:
/// rotations and shifts, then BIT, RES and SET of bit `(op >> 3) & 7`, each on
/// the operand of the low three bits.
pub open spec fn cb_exec_post(
    op: u8,
    pre: Cpu,
    t0: Seq<BusEvent>,
    t1: Seq<BusEvent>,
    mid: InterruptLine,
    post: Cpu,
    step: Step,
) -> bool {
    let io = spec_reg_operand(op % 8);
    let b = ((op / 8) % 8) as u8;
    if op < 0x40 {
        rmw_post(cb_rotation(op / 8), pre, io, t0, t1, mid, post, step)
    } else if op < 0x80 {
        alu8_post(AluOp::Bit(b), pre, io.spec_as_in8(), t0, t1, mid, post, step)
    } else if op < 0xc0 {
        rmw_post(RmwOp::ResBit(b), pre, io, t0, t1, mid, post, step)
    } else {
        rmw_post(RmwOp::SetBit(b), pre, io, t0, t1, mid, post, step)
    }
}

/// The effect of the CB prefix: the second opcode is read at PC and its
/// instruction runs.
pub open spec fn cb_prefix_post(
    pre: Cpu,
    t0: Seq<BusEvent>,
    t1: Seq<BusEvent>,
    mid: InterruptLine,
    post: Cpu,
    step: Step,
) -> bool {
    let op = rd(t0, t1, 0);
    let pre1 = Cpu {
        regs: Registers { pc: wrap16(pre.regs.pc + 1), ..pre.regs },
        opcode: op,
        ..pre
    };
    &&& t1.len() > t0.len()
    &&& is_read_at(ev(t0, t1, 0), pre.regs.pc)
    &&& cb_exec_post(op, pre1, t1.take(t0.len() as int + 1), t1, mid, post, step)
}

/// The operand that the low three bits of an opcode select.
pub fn reg_operand(i: u8) -> (r: Out8)
    requires
        i < 8,
    ensures
        r == spec_reg_operand(i),
{
    match i {
        0 => Out8::Reg(Reg8::B),
        1 => Out8::Reg(Reg8::C),
        2 => Out8::Reg(Reg8::D),
        3 => Out8::Reg(Reg8::E),
        4 => Out8::Reg(Reg8::H),
        5 => Out8::Reg(Reg8::L),
        6 => Out8::Addr(Addr::HL),
        _ => Out8::Reg(Reg8::A),
    }
}

impl Cpu {
    /// Runs the instruction of the fetched opcode, which ends by fetching the
    /// next one.
    #[verifier::rlimit(100)]
    #[verifier::spinoff_prover]
    pub fn decode_exec_fetch<H: CpuContext>(&mut self, ctx: &mut H) -> (step: Step)
        requires
            is_defined_opcode(old(self).opcode),
        ensures
            old(ctx).trace_consistent() ==> final(ctx).trace_consistent(),
            final(ctx).origin() == old(ctx).origin(),
            cycles(old(ctx).trace()) < cycles(final(ctx).trace()),
            exec_post(old(self).opcode, *old(self), old(ctx).trace(), final(ctx).trace(), final(ctx).mid_interrupt(), *final(self), step),
            grows(old(ctx).trace(), final(ctx).trace()),
    {
        let op = self.opcode;
        if op == 0x40 {
            return self.ld_b_b(ctx);
        } else if op == 0x76 {
            return self.halt(ctx);
        } else if 0x40 <= op && op < 0x80 {
            let src = reg_operand(op % 8).as_in8();
            return self.load(ctx, reg_operand((op - 0x40) / 8), src);
        } else if 0x80 <= op && op < 0xc0 {
            let src = reg_operand(op % 8).as_in8();
            return match (op - 0x80) / 8 {
                0 => self.add(ctx, src),
                1 => self.adc(ctx, src),
                2 => self.sub(ctx, src),
                3 => self.sbc(ctx, src),
                4 => self.and(ctx, src),
                5 => self.xor(ctx, src),
                6 => self.or(ctx, src),
                _ => self.cp(ctx, src),
            };
        }
        if op >= 0xc0 {
            return self.decode_exec_fetch_high(ctx);
        }
        match op {
            0x00 => self.nop(ctx),
            0x01 => self.load16_imm(ctx, Reg16::BC),
            0x02 => self.load(ctx, Out8::Addr(Addr::BC), In8::Reg(Reg8::A)),
            0x03 => self.inc16(ctx, Reg16::BC),
            0x04 => self.inc(ctx, Out8::Reg(Reg8::B)),
            0x05 => self.dec(ctx, Out8::Reg(Reg8::B)),
            0x06 => self.load(ctx, Out8::Reg(Reg8::B), In8::Imm(Immediate8)),
            0x07 => self.rlca(ctx),
            0x08 => self.load16_nn_sp(ctx),
            0x09 => self.add16(ctx, Reg16::BC),
            0x0a => self.load(ctx, Out8::Reg(Reg8::A), In8::Addr(Addr::BC)),
            0x0b => self.dec16(ctx, Reg16::BC),
            0x0c => self.inc(ctx, Out8::Reg(Reg8::C)),
            0x0d => self.dec(ctx, Out8::Reg(Reg8::C)),
            0x0e => self.load(ctx, Out8::Reg(Reg8::C), In8::Imm(Immediate8)),
            0x0f => self.rrca(ctx),
            0x11 => self.load16_imm(ctx, Reg16::DE),
            0x12 => self.load(ctx, Out8::Addr(Addr::DE), In8::Reg(Reg8::A)),
            0x13 => self.inc16(ctx, Reg16::DE),
            0x14 => self.inc(ctx, Out8::Reg(Reg8::D)),
            0x15 => self.dec(ctx, Out8::Reg(Reg8::D)),
            0x16 => self.load(ctx, Out8::Reg(Reg8::D), In8::Imm(Immediate8)),
            0x17 => self.rla(ctx),
            0x18 => self.jr(ctx),
            0x19 => self.add16(ctx, Reg16::DE),
            0x1a => self.load(ctx, Out8::Reg(Reg8::A), In8::Addr(Addr::DE)),
            0x1b => self.dec16(ctx, Reg16::DE),
            0x1c => self.inc(ctx, Out8::Reg(Reg8::E)),
            0x1d => self.dec(ctx, Out8::Reg(Reg8::E)),
            0x1e => self.load(ctx, Out8::Reg(Reg8::E), In8::Imm(Immediate8)),
            0x1f => self.rra(ctx),
            0x20 => self.jr_cc(ctx, Cond::NZ),
            0x21 => self.load16_imm(ctx, Reg16::HL),
            0x22 => self.load(ctx, Out8::Addr(Addr::HLI), In8::Reg(Reg8::A)),
            0x23 => self.inc16(ctx, Reg16::HL),
            0x24 => self.inc(ctx, Out8::Reg(Reg8::H)),
            0x25 => self.dec(ctx, Out8::Reg(Reg8::H)),
            0x26 => self.load(ctx, Out8::Reg(Reg8::H), In8::Imm(Immediate8)),
            0x27 => self.daa(ctx),
            0x28 => self.jr_cc(ctx, Cond::Z),
            0x29 => self.add16(ctx, Reg16::HL),
            0x2a => self.load(ctx, Out8::Reg(Reg8::A), In8::Addr(Addr::HLI)),
            0x2b => self.dec16(ctx, Reg16::HL),
            0x2c => self.inc(ctx, Out8::Reg(Reg8::L)),
            0x2d => self.dec(ctx, Out8::Reg(Reg8::L)),
            0x2e => self.load(ctx, Out8::Reg(Reg8::L), In8::Imm(Immediate8)),
            0x2f => self.cpl(ctx),
            0x30 => self.jr_cc(ctx, Cond::NC),
            0x31 => self.load16_imm(ctx, Reg16::SP),
            0x32 => self.load(ctx, Out8::Addr(Addr::HLD), In8::Reg(Reg8::A)),
            0x33 => self.inc16(ctx, Reg16::SP),
            0x34 => self.inc(ctx, Out8::Addr(Addr::HL)),
            0x35 => self.dec(ctx, Out8::Addr(Addr::HL)),
            0x36 => self.load(ctx, Out8::Addr(Addr::HL), In8::Imm(Immediate8)),
            0x37 => self.scf(ctx),
            0x38 => self.jr_cc(ctx, Cond::C),
            0x39 => self.add16(ctx, Reg16::SP),
            0x3a => self.load(ctx, Out8::Reg(Reg8::A), In8::Addr(Addr::HLD)),
            0x3b => self.dec16(ctx, Reg16::SP),
            0x3c => self.inc(ctx, Out8::Reg(Reg8::A)),
            0x3d => self.dec(ctx, Out8::Reg(Reg8::A)),
            0x3e => self.load(ctx, Out8::Reg(Reg8::A), In8::Imm(Immediate8)),
            0x3f => self.ccf(ctx),
            _ => Step::Halt,
        }
    }

    /// Runs an instruction of an opcode from 0xc0 on.
    #[verifier::rlimit(100)]
    #[verifier::spinoff_prover]
    fn decode_exec_fetch_high<H: CpuContext>(&mut self, ctx: &mut H) -> (step: Step)
        requires
            is_defined_opcode(old(self).opcode),
            old(self).opcode >= 0xc0,
        ensures
            old(ctx).trace_consistent() ==> final(ctx).trace_consistent(),
            final(ctx).origin() == old(ctx).origin(),
            cycles(old(ctx).trace()) < cycles(final(ctx).trace()),
            exec_post(old(self).opcode, *old(self), old(ctx).trace(), final(ctx).trace(), final(ctx).mid_interrupt(), *final(self), step),
            grows(old(ctx).trace(), final(ctx).trace()),
    {
        let op = self.opcode;
        if op >= 0xe0 {
            return self.decode_exec_fetch_top(ctx);
        }
        match op {
            0xc0 => self.ret_cc(ctx, Cond::NZ),
            0xc1 => self.pop16(ctx, Reg16::BC),
            0xc2 => self.jp_cc(ctx, Cond::NZ),
            0xc3 => self.jp(ctx),
            0xc4 => self.call_cc(ctx, Cond::NZ),
            0xc5 => self.push16(ctx, Reg16::BC),
            0xc6 => self.add(ctx, In8::Imm(Immediate8)),
            0xc7 => self.rst(ctx, 0x00),
            0xc8 => self.ret_cc(ctx, Cond::Z),
            0xc9 => self.ret(ctx),
            0xca => self.jp_cc(ctx, Cond::Z),
            0xcb => self.cb_prefix(ctx),
            0xcc => self.call_cc(ctx, Cond::Z),
            0xcd => self.call(ctx),
            0xce => self.adc(ctx, In8::Imm(Immediate8)),
            0xcf => self.rst(ctx, 0x08),
            0xd0 => self.ret_cc(ctx, Cond::NC),
            0xd1 => self.pop16(ctx, Reg16::DE),
            0xd2 => self.jp_cc(ctx, Cond::NC),
            0xd4 => self.call_cc(ctx, Cond::NC),
            0xd5 => self.push16(ctx, Reg16::DE),
            0xd6 => self.sub(ctx, In8::Imm(Immediate8)),
            0xd7 => self.rst(ctx, 0x10),
            0xd8 => self.ret_cc(ctx, Cond::C),
            0xd9 => self.reti(ctx),
            0xda => self.jp_cc(ctx, Cond::C),
            0xdc => self.call_cc(ctx, Cond::C),
            0xde => self.sbc(ctx, In8::Imm(Immediate8)),
            0xdf => self.rst(ctx, 0x18),
            _ => Step::Halt,
        }
    }

    /// Runs an instruction of an opcode from 0xe0 on.
    #[verifier::rlimit(100)]
    #[verifier::spinoff_prover]
    fn decode_exec_fetch_top<H: CpuContext>(&mut self, ctx: &mut H) -> (step: Step)
        requires
            is_defined_opcode(old(self).opcode),
            old(self).opcode >= 0xe0,
        ensures
            old(ctx).trace_consistent() ==> final(ctx).trace_consistent(),
            final(ctx).origin() == old(ctx).origin(),
            cycles(old(ctx).trace()) < cycles(final(ctx).trace()),
            exec_post(old(self).opcode, *old(self), old(ctx).trace(), final(ctx).trace(), final(ctx).mid_interrupt(), *final(self), step),
            grows(old(ctx).trace(), final(ctx).trace()),
    {
        let op = self.opcode;
        match op {
            0xe0 => self.load(ctx, Out8::Addr(Addr::ZeroPage), In8::Reg(Reg8::A)),
            0xe1 => self.pop16(ctx, Reg16::HL),
            0xe2 => self.load(ctx, Out8::Addr(Addr::ZeroPageC), In8::Reg(Reg8::A)),
            0xe5 => self.push16(ctx, Reg16::HL),
            0xe6 => self.and(ctx, In8::Imm(Immediate8)),
            0xe7 => self.rst(ctx, 0x20),
            0xe8 => self.add16_sp_e(ctx),
            0xe9 => self.jp_hl(ctx),
            0xea => self.load(ctx, Out8::Addr(Addr::Direct), In8::Reg(Reg8::A)),
            0xee => self.xor(ctx, In8::Imm(Immediate8)),
            0xef => self.rst(ctx, 0x28),
            0xf0 => self.load(ctx, Out8::Reg(Reg8::A), In8::Addr(Addr::ZeroPage)),
            0xf1 => self.pop16(ctx, Reg16::AF),
            0xf2 => self.load(ctx, Out8::Reg(Reg8::A), In8::Addr(Addr::ZeroPageC)),
            0xf3 => self.di(ctx),
            0xf5 => self.push16(ctx, Reg16::AF),
            0xf6 => self.or(ctx, In8::Imm(Immediate8)),
            0xf7 => self.rst(ctx, 0x30),
            0xf8 => self.load16_hl_sp_e(ctx),
            0xf9 => self.load16_sp_hl(ctx),
            0xfa => self.load(ctx, Out8::Reg(Reg8::A), In8::Addr(Addr::Direct)),
            0xfb => self.ei(ctx),
            0xfe => self.cp(ctx, In8::Imm(Immediate8)),
            0xff => self.rst(ctx, 0x38),
            _ => Step::Halt,
        }
    }

    /// Runs the CB-prefixed instruction of the fetched second opcode.
    pub fn cb_decode_exec_fetch<H: CpuContext>(&mut self, ctx: &mut H) -> (step: Step)
        ensures
            old(ctx).trace_consistent() ==> final(ctx).trace_consistent(),
            final(ctx).origin() == old(ctx).origin(),
            cycles(old(ctx).trace()) < cycles(final(ctx).trace()),
            cb_exec_post(old(self).opcode, *old(self), old(ctx).trace(), final(ctx).trace(), final(ctx).mid_interrupt(), *final(self), step),
            grows(old(ctx).trace(), final(ctx).trace()),
    {
        let op = self.opcode;
        let io = reg_operand(op % 8);
        let b = (op / 8) % 8;
        if op < 0x40 {
            match op / 8 {
                0 => self.rlc(ctx, io),
                1 => self.rrc(ctx, io),
                2 => self.rl(ctx, io),
                3 => self.rr(ctx, io),
                4 => self.sla(ctx, io),
                5 => self.sra(ctx, io),
                6 => self.swap(ctx, io),
                _ => self.srl(ctx, io),
            }
        } else if op < 0x80 {
            self.bit(ctx, b, io.as_in8())
        } else if op < 0xc0 {
            self.res(ctx, b, io)
        } else {
            self.set(ctx, b, io)
        }
    }

    /// Reads the second opcode of a CB-prefixed instruction and runs it.
    pub fn cb_prefix<H: CpuContext>(&mut self, ctx: &mut H) -> (step: Step)
        ensures
            old(ctx).trace_consistent() ==> final(ctx).trace_consistent(),
            final(ctx).origin() == old(ctx).origin(),
            cycles(old(ctx).trace()) < cycles(final(ctx).trace()),
            cb_prefix_post(*old(self), old(ctx).trace(), final(ctx).trace(), final(ctx).mid_interrupt(), *final(self), step),
            grows(old(ctx).trace(), final(ctx).trace()),
    {
        let ghost t0 = ctx.trace();
        self.opcode = self.fetch_imm8(ctx);
        let ghost tm = ctx.trace();
        let step = self.cb_decode_exec_fetch(ctx);
        assert(tm =~= ctx.trace().take(t0.len() as int + 1));
        step
    }
}

} // verus!
