//! The instruction handlers, one for each opcode that the CPU knows.
//!
//! A handler that takes an operand gets it from its caller, who read it at
//! the program counter; the handler moves the program counter past it.

use vstd::prelude::*;
use crate::alu::{dec_flags, dec_value, inc_flags, inc_value};
use crate::bus::{pop_word, push_word, word_writable, writable};
use crate::gpu::Gpu;
use crate::instruction::{AluOp, Pair, StackPair};
use crate::interrupts::Interrupts;
use crate::machine::{
    alu, ccf_spec, cpl_spec, jp_nc_spec, jp_nz_spec, jump_relative, ret_c_spec, ret_nz_spec,
    rra_spec, rrca_spec, rst_spec, scf_spec, stack_pair, with_pair, with_stack_pair,
    JP_TAKEN_TICKS, JR_TAKEN_TICKS, RET_TAKEN_TICKS,
};
use crate::memory::Memory;
use crate::registers::{Reg8, Registers};

verus! {

/// `NOP`: Does nothing. The loads of a register into itself come here too.
pub fn nop() {
}

/// `LD BC, nn`: Loads BC with the operand word.
pub fn ld_bc_nn(val: u16, registers: &mut Registers)
    ensures
        *final(registers) == with_pair(old(registers).advance_pc(2), Pair::BC, val),
{
    registers.pc = registers.pc.wrapping_add(2);
    registers.set_bc(val);
}

/// `LD (BC), A`: Stores A in the byte that BC points at.
pub fn ld_bc_a(
    registers: &Registers,
    memory: &mut Memory,
    gpu: &mut Gpu,
    interrupts: &mut Interrupts,
)
    requires
        writable(registers.bc()),
    ensures
        final(memory).bus(final(gpu), final(interrupts)) == old(memory).bus(
            old(gpu),
            old(interrupts),
        ).write(registers.bc(), registers.a),
{
    memory.write_byte(registers.get_bc(), registers.a, gpu, interrupts);
}

/// `INC B`: Increments B.
pub fn inc_b(registers: &mut Registers)
    ensures
        *final(registers) == inc_flags(old(registers).reg(Reg8::B), *old(registers)).with_reg(
            Reg8::B,
            inc_value(old(registers).reg(Reg8::B)),
        ),
{
    registers.b = crate::alu::inc(registers.b, registers);
}

/// `DEC B`: Decrements B.
pub fn dec_b(registers: &mut Registers)
    ensures
        *final(registers) == dec_flags(old(registers).reg(Reg8::B), *old(registers)).with_reg(
            Reg8::B,
            dec_value(old(registers).reg(Reg8::B)),
        ),
{
    registers.b = crate::alu::dec(registers.b, registers);
}

/// `LD B, n`: Loads B with the operand byte.
pub fn ld_b_n(val: u8, registers: &mut Registers)
    ensures
        *final(registers) == old(registers).advance_pc(1).with_reg(Reg8::B, val),
{
    registers.pc = registers.pc.wrapping_add(1);
    registers.b = val;
}

/// `LD (nn), SP`: Stores the stack pointer at the address in the operand word.
pub fn ld_nn_sp(
    val: u16,
    registers: &mut Registers,
    memory: &mut Memory,
    gpu: &mut Gpu,
    interrupts: &mut Interrupts,
)
    requires
        word_writable(val),
    ensures
        *final(registers) == old(registers).advance_pc(2),
        final(memory).bus(final(gpu), final(interrupts)) == old(memory).bus(
            old(gpu),
            old(interrupts),
        ).write_short(val, old(registers).sp),
{
    registers.pc = registers.pc.wrapping_add(2);
    memory.write_short(val, registers.sp, gpu, interrupts);
}

/// `LD A, (BC)`: Loads A from the byte that BC points at.
pub fn ld_a_bc(
    registers: &mut Registers,
    memory: &Memory,
    gpu: &Gpu,
    interrupts: &Interrupts,
)
    ensures
        *final(registers) == old(registers).with_reg(
            Reg8::A,
            memory.bus(gpu, interrupts).read(old(registers).bc()),
        ),
{
    registers.a = memory.read_byte(registers.get_bc(), gpu, interrupts);
}

/// `DEC BC`: Decrements the pair BC.
pub fn dec_bc(registers: &mut Registers)
    ensures
        *final(registers) == old(registers).with_bc(old(registers).bc().wrapping_sub(1)),
{
    registers.set_bc(registers.get_bc().wrapping_sub(1));
}

/// `INC C`: Increments C.
pub fn inc_c(registers: &mut Registers)
    ensures
        *final(registers) == inc_flags(old(registers).reg(Reg8::C), *old(registers)).with_reg(
            Reg8::C,
            inc_value(old(registers).reg(Reg8::C)),
        ),
{
    registers.c = crate::alu::inc(registers.c, registers);
}

/// `DEC C`: Decrements C.
pub fn dec_c(registers: &mut Registers)
    ensures
        *final(registers) == dec_flags(old(registers).reg(Reg8::C), *old(registers)).with_reg(
            Reg8::C,
            dec_value(old(registers).reg(Reg8::C)),
        ),
{
    registers.c = crate::alu::dec(registers.c, registers);
}

/// `LD C, n`: Loads C with the operand byte.
pub fn ld_c_n(val: u8, registers: &mut Registers)
    ensures
        *final(registers) == old(registers).advance_pc(1).with_reg(Reg8::C, val),
{
    registers.pc = registers.pc.wrapping_add(1);
    registers.c = val;
}

/// `RRCA`: Rotates A right by one bit.
pub fn rrca(registers: &mut Registers)
    ensures
        *final(registers) == rrca_spec(*old(registers)),
{
    let carry: bool = (registers.a & 0x01) != 0;
    registers.a >>= 1;
    if carry {
        registers.a |= 0x80;
    }
    registers.set_flags(false, false, false, carry);
}

/// `LD DE, nn`: Loads DE with the operand word.
pub fn ld_de_nn(val: u16, registers: &mut Registers)
    ensures
        *final(registers) == with_pair(old(registers).advance_pc(2), Pair::DE, val),
{
    registers.pc = registers.pc.wrapping_add(2);
    registers.set_de(val);
}

/// `LD (DE), A`: Stores A in the byte that DE points at.
pub fn ld_de_a(
    registers: &Registers,
    memory: &mut Memory,
    gpu: &mut Gpu,
    interrupts: &mut Interrupts,
)
    requires
        writable(registers.de()),
    ensures
        final(memory).bus(final(gpu), final(interrupts)) == old(memory).bus(
            old(gpu),
            old(interrupts),
        ).write(registers.de(), registers.a),
{
    memory.write_byte(registers.get_de(), registers.a, gpu, interrupts);
}

/// `INC D`: Increments D.
pub fn inc_d(registers: &mut Registers)
    ensures
        *final(registers) == inc_flags(old(registers).reg(Reg8::D), *old(registers)).with_reg(
            Reg8::D,
            inc_value(old(registers).reg(Reg8::D)),
        ),
{
    registers.d = crate::alu::inc(registers.d, registers);
}

/// `DEC D`: Decrements D.
pub fn dec_d(registers: &mut Registers)
    ensures
        *final(registers) == dec_flags(old(registers).reg(Reg8::D), *old(registers)).with_reg(
            Reg8::D,
            dec_value(old(registers).reg(Reg8::D)),
        ),
{
    registers.d = crate::alu::dec(registers.d, registers);
}

/// `LD D, n`: Loads D with the operand byte.
pub fn ld_d_n(val: u8, registers: &mut Registers)
    ensures
        *final(registers) == old(registers).advance_pc(1).with_reg(Reg8::D, val),
{
    registers.pc = registers.pc.wrapping_add(1);
    registers.d = val;
}

/// `INC E`: Increments E.
pub fn inc_e(registers: &mut Registers)
    ensures
        *final(registers) == inc_flags(old(registers).reg(Reg8::E), *old(registers)).with_reg(
            Reg8::E,
            inc_value(old(registers).reg(Reg8::E)),
        ),
{
    registers.e = crate::alu::inc(registers.e, registers);
}

/// `DEC E`: Decrements E.
pub fn dec_e(registers: &mut Registers)
    ensures
        *final(registers) == dec_flags(old(registers).reg(Reg8::E), *old(registers)).with_reg(
            Reg8::E,
            dec_value(old(registers).reg(Reg8::E)),
        ),
{
    registers.e = crate::alu::dec(registers.e, registers);
}

/// `LD E, n`: Loads E with the operand byte.
pub fn ld_e_n(val: u8, registers: &mut Registers)
    ensures
        *final(registers) == old(registers).advance_pc(1).with_reg(Reg8::E, val),
{
    registers.pc = registers.pc.wrapping_add(1);
    registers.e = val;
}

/// `RRA`: Rotates A right by one bit through the carry flag.
pub fn rra(registers: &mut Registers)
    ensures
        *final(registers) == rra_spec(*old(registers)),
{
    let carry: u8;
    if registers.get_carry_flag() {
        carry = 0x80;
    } else {
        carry = 0;
    }
    let low: bool = registers.a & 0x01 != 0;
    registers.a >>= 1;
    registers.a |= carry;
    registers.set_flags(false, false, false, low);
}

/// `JR NZ, n`: Moves past the operand and, if the condition holds, forward by it.
pub fn jr_nz_n(val: u8, registers: &mut Registers, ticks: &mut u32)
    ensures
        (*final(registers), *final(ticks)) == jump_relative(
            *old(registers),
            *old(ticks),
            val,
            !old(registers).zero_flag(),
        ),
{
    registers.pc = registers.pc.wrapping_add(1);
    if !registers.get_zero_flag() {
        registers.pc = registers.pc.wrapping_add(val as u16);
        *ticks = ticks.wrapping_add(JR_TAKEN_TICKS);
    }
}

/// `LD HL, nn`: Loads HL with the operand word.
pub fn ld_hl_nn(val: u16, registers: &mut Registers)
    ensures
        *final(registers) == with_pair(old(registers).advance_pc(2), Pair::HL, val),
{
    registers.pc = registers.pc.wrapping_add(2);
    registers.set_hl(val);
}

/// `INC H`: Increments H.
pub fn inc_h(registers: &mut Registers)
    ensures
        *final(registers) == inc_flags(old(registers).reg(Reg8::H), *old(registers)).with_reg(
            Reg8::H,
            inc_value(old(registers).reg(Reg8::H)),
        ),
{
    registers.h = crate::alu::inc(registers.h, registers);
}

/// `DEC H`: Decrements H.
pub fn dec_h(registers: &mut Registers)
    ensures
        *final(registers) == dec_flags(old(registers).reg(Reg8::H), *old(registers)).with_reg(
            Reg8::H,
            dec_value(old(registers).reg(Reg8::H)),
        ),
{
    registers.h = crate::alu::dec(registers.h, registers);
}

/// `LD H, n`: Loads H with the operand byte.
pub fn ld_h_n(val: u8, registers: &mut Registers)
    ensures
        *final(registers) == old(registers).advance_pc(1).with_reg(Reg8::H, val),
{
    registers.pc = registers.pc.wrapping_add(1);
    registers.h = val;
}

/// `JR Z, n`: Moves past the operand and, if the condition holds, forward by it.
pub fn jr_z_n(val: u8, registers: &mut Registers, ticks: &mut u32)
    ensures
        (*final(registers), *final(ticks)) == jump_relative(
            *old(registers),
            *old(ticks),
            val,
            old(registers).zero_flag(),
        ),
{
    registers.pc = registers.pc.wrapping_add(1);
    if registers.get_zero_flag() {
        registers.pc = registers.pc.wrapping_add(val as u16);
        *ticks = ticks.wrapping_add(JR_TAKEN_TICKS);
    }
}

/// `INC L`: Increments L.
pub fn inc_l(registers: &mut Registers)
    ensures
        *final(registers) == inc_flags(old(registers).reg(Reg8::L), *old(registers)).with_reg(
            Reg8::L,
            inc_value(old(registers).reg(Reg8::L)),
        ),
{
    registers.l = crate::alu::inc(registers.l, registers);
}

/// `DEC L`: Decrements L.
pub fn dec_l(registers: &mut Registers)
    ensures
        *final(registers) == dec_flags(old(registers).reg(Reg8::L), *old(registers)).with_reg(
            Reg8::L,
            dec_value(old(registers).reg(Reg8::L)),
        ),
{
    registers.l = crate::alu::dec(registers.l, registers);
}

/// `LD L, n`: Loads L with the operand byte.
pub fn ld_l_n(val: u8, registers: &mut Registers)
    ensures
        *final(registers) == old(registers).advance_pc(1).with_reg(Reg8::L, val),
{
    registers.pc = registers.pc.wrapping_add(1);
    registers.l = val;
}

/// `CPL`: Complements A.
pub fn cpl(registers: &mut Registers)
    ensures
        *final(registers) == cpl_spec(*old(registers)),
{
    registers.a = !registers.a;
    registers.set_subtract_flag(true);
    registers.set_half_carry_flag(true);
}

/// `JR NC, n`: Moves past the operand and, if the condition holds, forward by it.
pub fn jr_nc_n(val: u8, registers: &mut Registers, ticks: &mut u32)
    ensures
        (*final(registers), *final(ticks)) == jump_relative(
            *old(registers),
            *old(ticks),
            val,
            !old(registers).carry_flag(),
        ),
{
    registers.pc = registers.pc.wrapping_add(1);
    if !registers.get_carry_flag() {
        registers.pc = registers.pc.wrapping_add(val as u16);
        *ticks = ticks.wrapping_add(JR_TAKEN_TICKS);
    }
}

/// `LD SP, nn`: Loads SP with the operand word.
pub fn ld_sp_nn(val: u16, registers: &mut Registers)
    ensures
        *final(registers) == with_pair(old(registers).advance_pc(2), Pair::SP, val),
{
    registers.pc = registers.pc.wrapping_add(2);
    registers.sp = val;
}

/// `LDD (HL), A`: Stores A in the byte that HL points at.
pub fn ldd_hlp_a(
    registers: &Registers,
    memory: &mut Memory,
    gpu: &mut Gpu,
    interrupts: &mut Interrupts,
)
    requires
        writable(registers.hl()),
    ensures
        final(memory).bus(final(gpu), final(interrupts)) == old(memory).bus(
            old(gpu),
            old(interrupts),
        ).write(registers.hl(), registers.a),
{
    memory.write_byte(registers.get_hl(), registers.a, gpu, interrupts);
}

/// `INC SP`: Increments the stack pointer.
pub fn inc_sp(registers: &mut Registers)
    ensures
        *final(registers) == old(registers).with_sp(old(registers).sp.wrapping_add(1)),
{
    registers.sp = registers.sp.wrapping_add(1);
}

/// `SCF`: Sets the carry flag.
pub fn scf(registers: &mut Registers)
    ensures
        *final(registers) == scf_spec(*old(registers)),
{
    registers.set_subtract_flag(false);
    registers.set_half_carry_flag(false);
    registers.set_carry_flag(true);
}

/// `JR C, n`: Moves past the operand and, if the condition holds, forward by it.
pub fn jr_c_n(val: u8, registers: &mut Registers, ticks: &mut u32)
    ensures
        (*final(registers), *final(ticks)) == jump_relative(
            *old(registers),
            *old(ticks),
            val,
            old(registers).carry_flag(),
        ),
{
    registers.pc = registers.pc.wrapping_add(1);
    if registers.get_carry_flag() {
        registers.pc = registers.pc.wrapping_add(val as u16);
        *ticks = ticks.wrapping_add(JR_TAKEN_TICKS);
    }
}

/// `DEC SP`: Decrements the stack pointer.
pub fn dec_sp(registers: &mut Registers)
    ensures
        *final(registers) == old(registers).with_sp(old(registers).sp.wrapping_sub(1)),
{
    registers.sp = registers.sp.wrapping_sub(1);
}

/// `INC A`: Increments A.
pub fn inc_a(registers: &mut Registers)
    ensures
        *final(registers) == inc_flags(old(registers).reg(Reg8::A), *old(registers)).with_reg(
            Reg8::A,
            inc_value(old(registers).reg(Reg8::A)),
        ),
{
    registers.a = crate::alu::inc(registers.a, registers);
}

/// `DEC A`: Decrements A.
pub fn dec_a(registers: &mut Registers)
    ensures
        *final(registers) == dec_flags(old(registers).reg(Reg8::A), *old(registers)).with_reg(
            Reg8::A,
            dec_value(old(registers).reg(Reg8::A)),
        ),
{
    registers.a = crate::alu::dec(registers.a, registers);
}

/// `LD A, n`: Loads A with the operand byte.
pub fn ld_a_n(val: u8, registers: &mut Registers)
    ensures
        *final(registers) == old(registers).advance_pc(1).with_reg(Reg8::A, val),
{
    registers.pc = registers.pc.wrapping_add(1);
    registers.a = val;
}

/// `CCF`: Clears the subtract and half-carry flags.
pub fn ccf(registers: &mut Registers)
    ensures
        *final(registers) == ccf_spec(*old(registers)),
{
    registers.set_subtract_flag(false);
    registers.set_half_carry_flag(false);
}

/// `LD B, C`: Copies C into B.
pub fn ld_b_c(registers: &mut Registers)
    ensures
        *final(registers) == old(registers).with_reg(Reg8::B, old(registers).reg(Reg8::C)),
{
    registers.b = registers.c;
}

/// `LD B, D`: Copies D into B.
pub fn ld_b_d(registers: &mut Registers)
    ensures
        *final(registers) == old(registers).with_reg(Reg8::B, old(registers).reg(Reg8::D)),
{
    registers.b = registers.d;
}

/// `LD B, E`: Copies E into B.
pub fn ld_b_e(registers: &mut Registers)
    ensures
        *final(registers) == old(registers).with_reg(Reg8::B, old(registers).reg(Reg8::E)),
{
    registers.b = registers.e;
}

/// `LD B, H`: Copies H into B.
pub fn ld_b_h(registers: &mut Registers)
    ensures
        *final(registers) == old(registers).with_reg(Reg8::B, old(registers).reg(Reg8::H)),
{
    registers.b = registers.h;
}

/// `LD B, L`: Copies L into B.
pub fn ld_b_l(registers: &mut Registers)
    ensures
        *final(registers) == old(registers).with_reg(Reg8::B, old(registers).reg(Reg8::L)),
{
    registers.b = registers.l;
}

/// `LD B, (HL)`: Loads B from the byte that HL points at.
pub fn ld_b_hl(
    registers: &mut Registers,
    memory: &Memory,
    gpu: &Gpu,
    interrupts: &Interrupts,
)
    ensures
        *final(registers) == old(registers).with_reg(
            Reg8::B,
            memory.bus(gpu, interrupts).read(old(registers).hl()),
        ),
{
    registers.b = memory.read_byte(registers.get_hl(), gpu, interrupts);
}

/// `LD B, A`: Copies A into B.
pub fn ld_b_a(registers: &mut Registers)
    ensures
        *final(registers) == old(registers).with_reg(Reg8::B, old(registers).reg(Reg8::A)),
{
    registers.b = registers.a;
}

/// `LD C, B`: Copies B into C.
pub fn ld_c_b(registers: &mut Registers)
    ensures
        *final(registers) == old(registers).with_reg(Reg8::C, old(registers).reg(Reg8::B)),
{
    registers.c = registers.b;
}

/// `LD C, D`: Copies D into C.
pub fn ld_c_d(registers: &mut Registers)
    ensures
        *final(registers) == old(registers).with_reg(Reg8::C, old(registers).reg(Reg8::D)),
{
    registers.c = registers.d;
}

/// `LD C, E`: Copies E into C.
pub fn ld_c_e(registers: &mut Registers)
    ensures
        *final(registers) == old(registers).with_reg(Reg8::C, old(registers).reg(Reg8::E)),
{
    registers.c = registers.e;
}

/// `LD C, H`: Copies H into C.
pub fn ld_c_h(registers: &mut Registers)
    ensures
        *final(registers) == old(registers).with_reg(Reg8::C, old(registers).reg(Reg8::H)),
{
    registers.c = registers.h;
}

/// `LD C, L`: Copies L into C.
pub fn ld_c_l(registers: &mut Registers)
    ensures
        *final(registers) == old(registers).with_reg(Reg8::C, old(registers).reg(Reg8::L)),
{
    registers.c = registers.l;
}

/// `LD C, (HL)`: Loads C from the byte that HL points at.
pub fn ld_c_hl(
    registers: &mut Registers,
    memory: &Memory,
    gpu: &Gpu,
    interrupts: &Interrupts,
)
    ensures
        *final(registers) == old(registers).with_reg(
            Reg8::C,
            memory.bus(gpu, interrupts).read(old(registers).hl()),
        ),
{
    registers.c = memory.read_byte(registers.get_hl(), gpu, interrupts);
}

/// `LD C, A`: Copies A into C.
pub fn ld_c_a(registers: &mut Registers)
    ensures
        *final(registers) == old(registers).with_reg(Reg8::C, old(registers).reg(Reg8::A)),
{
    registers.c = registers.a;
}

/// `LD D, B`: Copies B into D.
pub fn ld_d_b(registers: &mut Registers)
    ensures
        *final(registers) == old(registers).with_reg(Reg8::D, old(registers).reg(Reg8::B)),
{
    registers.d = registers.b;
}

/// `LD D, C`: Copies C into D.
pub fn ld_d_c(registers: &mut Registers)
    ensures
        *final(registers) == old(registers).with_reg(Reg8::D, old(registers).reg(Reg8::C)),
{
    registers.d = registers.c;
}

/// `LD D, E`: Copies E into D.
pub fn ld_d_e(registers: &mut Registers)
    ensures
        *final(registers) == old(registers).with_reg(Reg8::D, old(registers).reg(Reg8::E)),
{
    registers.d = registers.e;
}

/// `LD D, H`: Copies H into D.
pub fn ld_d_h(registers: &mut Registers)
    ensures
        *final(registers) == old(registers).with_reg(Reg8::D, old(registers).reg(Reg8::H)),
{
    registers.d = registers.h;
}

/// `LD D, L`: Copies L into D.
pub fn ld_d_l(registers: &mut Registers)
    ensures
        *final(registers) == old(registers).with_reg(Reg8::D, old(registers).reg(Reg8::L)),
{
    registers.d = registers.l;
}

/// `LD D, (HL)`: Loads D from the byte that HL points at.
pub fn ld_d_hl(
    registers: &mut Registers,
    memory: &Memory,
    gpu: &Gpu,
    interrupts: &Interrupts,
)
    ensures
        *final(registers) == old(registers).with_reg(
            Reg8::D,
            memory.bus(gpu, interrupts).read(old(registers).hl()),
        ),
{
    registers.d = memory.read_byte(registers.get_hl(), gpu, interrupts);
}

/// `LD D, A`: Copies A into D.
pub fn ld_d_a(registers: &mut Registers)
    ensures
        *final(registers) == old(registers).with_reg(Reg8::D, old(registers).reg(Reg8::A)),
{
    registers.d = registers.a;
}

/// `LD E, B`: Copies B into E.
pub fn ld_e_b(registers: &mut Registers)
    ensures
        *final(registers) == old(registers).with_reg(Reg8::E, old(registers).reg(Reg8::B)),
{
    registers.e = registers.b;
}

/// `LD E, C`: Copies C into E.
pub fn ld_e_c(registers: &mut Registers)
    ensures
        *final(registers) == old(registers).with_reg(Reg8::E, old(registers).reg(Reg8::C)),
{
    registers.e = registers.c;
}

/// `LD E, D`: Copies D into E.
pub fn ld_e_d(registers: &mut Registers)
    ensures
        *final(registers) == old(registers).with_reg(Reg8::E, old(registers).reg(Reg8::D)),
{
    registers.e = registers.d;
}

/// `LD E, H`: Copies H into E.
pub fn ld_e_h(registers: &mut Registers)
    ensures
        *final(registers) == old(registers).with_reg(Reg8::E, old(registers).reg(Reg8::H)),
{
    registers.e = registers.h;
}

/// `LD E, L`: Copies L into E.
pub fn ld_e_l(registers: &mut Registers)
    ensures
        *final(registers) == old(registers).with_reg(Reg8::E, old(registers).reg(Reg8::L)),
{
    registers.e = registers.l;
}

/// `LD E, (HL)`: Loads E from the byte that HL points at.
pub fn ld_e_hl(
    registers: &mut Registers,
    memory: &Memory,
    gpu: &Gpu,
    interrupts: &Interrupts,
)
    ensures
        *final(registers) == old(registers).with_reg(
            Reg8::E,
            memory.bus(gpu, interrupts).read(old(registers).hl()),
        ),
{
    registers.e = memory.read_byte(registers.get_hl(), gpu, interrupts);
}

/// `LD E, A`: Copies A into E.
pub fn ld_e_a(registers: &mut Registers)
    ensures
        *final(registers) == old(registers).with_reg(Reg8::E, old(registers).reg(Reg8::A)),
{
    registers.e = registers.a;
}

/// `LD H, B`: Copies B into H.
pub fn ld_h_b(registers: &mut Registers)
    ensures
        *final(registers) == old(registers).with_reg(Reg8::H, old(registers).reg(Reg8::B)),
{
    registers.h = registers.b;
}

/// `LD H, C`: Copies C into H.
pub fn ld_h_c(registers: &mut Registers)
    ensures
        *final(registers) == old(registers).with_reg(Reg8::H, old(registers).reg(Reg8::C)),
{
    registers.h = registers.c;
}

/// `LD H, D`: Copies D into H.
pub fn ld_h_d(registers: &mut Registers)
    ensures
        *final(registers) == old(registers).with_reg(Reg8::H, old(registers).reg(Reg8::D)),
{
    registers.h = registers.d;
}

/// `LD H, E`: Copies E into H.
pub fn ld_h_e(registers: &mut Registers)
    ensures
        *final(registers) == old(registers).with_reg(Reg8::H, old(registers).reg(Reg8::E)),
{
    registers.h = registers.e;
}

/// `LD H, L`: Copies L into H.
pub fn ld_h_l(registers: &mut Registers)
    ensures
        *final(registers) == old(registers).with_reg(Reg8::H, old(registers).reg(Reg8::L)),
{
    registers.h = registers.l;
}

/// `LD H, (HL)`: Loads H from the byte that HL points at.
pub fn ld_h_hl(
    registers: &mut Registers,
    memory: &Memory,
    gpu: &Gpu,
    interrupts: &Interrupts,
)
    ensures
        *final(registers) == old(registers).with_reg(
            Reg8::H,
            memory.bus(gpu, interrupts).read(old(registers).hl()),
        ),
{
    registers.h = memory.read_byte(registers.get_hl(), gpu, interrupts);
}

/// `LD H, A`: Copies A into H.
pub fn ld_h_a(registers: &mut Registers)
    ensures
        *final(registers) == old(registers).with_reg(Reg8::H, old(registers).reg(Reg8::A)),
{
    registers.h = registers.a;
}

/// `LD L, B`: Copies B into L.
pub fn ld_l_b(registers: &mut Registers)
    ensures
        *final(registers) == old(registers).with_reg(Reg8::L, old(registers).reg(Reg8::B)),
{
    registers.l = registers.b;
}

/// `LD L, C`: Copies C into L.
pub fn ld_l_c(registers: &mut Registers)
    ensures
        *final(registers) == old(registers).with_reg(Reg8::L, old(registers).reg(Reg8::C)),
{
    registers.l = registers.c;
}

/// `LD L, D`: Copies D into L.
pub fn ld_l_d(registers: &mut Registers)
    ensures
        *final(registers) == old(registers).with_reg(Reg8::L, old(registers).reg(Reg8::D)),
{
    registers.l = registers.d;
}

/// `LD L, E`: Copies E into L.
pub fn ld_l_e(registers: &mut Registers)
    ensures
        *final(registers) == old(registers).with_reg(Reg8::L, old(registers).reg(Reg8::E)),
{
    registers.l = registers.e;
}

/// `LD L, H`: Copies H into L.
pub fn ld_l_h(registers: &mut Registers)
    ensures
        *final(registers) == old(registers).with_reg(Reg8::L, old(registers).reg(Reg8::H)),
{
    registers.l = registers.h;
}

/// `LD L, (HL)`: Loads L from the byte that HL points at.
pub fn ld_l_hl(
    registers: &mut Registers,
    memory: &Memory,
    gpu: &Gpu,
    interrupts: &Interrupts,
)
    ensures
        *final(registers) == old(registers).with_reg(
            Reg8::L,
            memory.bus(gpu, interrupts).read(old(registers).hl()),
        ),
{
    registers.l = memory.read_byte(registers.get_hl(), gpu, interrupts);
}

/// `LD L, A`: Copies A into L.
pub fn ld_l_a(registers: &mut Registers)
    ensures
        *final(registers) == old(registers).with_reg(Reg8::L, old(registers).reg(Reg8::A)),
{
    registers.l = registers.a;
}

/// `LD (HL), B`: Stores B in the byte that HL points at.
pub fn ld_hl_b(
    registers: &Registers,
    memory: &mut Memory,
    gpu: &mut Gpu,
    interrupts: &mut Interrupts,
)
    requires
        writable(registers.hl()),
    ensures
        final(memory).bus(final(gpu), final(interrupts)) == old(memory).bus(
            old(gpu),
            old(interrupts),
        ).write(registers.hl(), registers.reg(Reg8::B)),
{
    memory.write_byte(registers.get_hl(), registers.b, gpu, interrupts);
}

/// `LD (HL), C`: Stores C in the byte that HL points at.
pub fn ld_hl_c(
    registers: &Registers,
    memory: &mut Memory,
    gpu: &mut Gpu,
    interrupts: &mut Interrupts,
)
    requires
        writable(registers.hl()),
    ensures
        final(memory).bus(final(gpu), final(interrupts)) == old(memory).bus(
            old(gpu),
            old(interrupts),
        ).write(registers.hl(), registers.reg(Reg8::C)),
{
    memory.write_byte(registers.get_hl(), registers.c, gpu, interrupts);
}

/// `LD (HL), D`: Stores D in the byte that HL points at.
pub fn ld_hl_d(
    registers: &Registers,
    memory: &mut Memory,
    gpu: &mut Gpu,
    interrupts: &mut Interrupts,
)
    requires
        writable(registers.hl()),
    ensures
        final(memory).bus(final(gpu), final(interrupts)) == old(memory).bus(
            old(gpu),
            old(interrupts),
        ).write(registers.hl(), registers.reg(Reg8::D)),
{
    memory.write_byte(registers.get_hl(), registers.d, gpu, interrupts);
}

/// `LD (HL), E`: Stores E in the byte that HL points at.
pub fn ld_hl_e(
    registers: &Registers,
    memory: &mut Memory,
    gpu: &mut Gpu,
    interrupts: &mut Interrupts,
)
    requires
        writable(registers.hl()),
    ensures
        final(memory).bus(final(gpu), final(interrupts)) == old(memory).bus(
            old(gpu),
            old(interrupts),
        ).write(registers.hl(), registers.reg(Reg8::E)),
{
    memory.write_byte(registers.get_hl(), registers.e, gpu, interrupts);
}

/// `LD (HL), H`: Stores H in the byte that HL points at.
pub fn ld_hl_h(
    registers: &Registers,
    memory: &mut Memory,
    gpu: &mut Gpu,
    interrupts: &mut Interrupts,
)
    requires
        writable(registers.hl()),
    ensures
        final(memory).bus(final(gpu), final(interrupts)) == old(memory).bus(
            old(gpu),
            old(interrupts),
        ).write(registers.hl(), registers.reg(Reg8::H)),
{
    memory.write_byte(registers.get_hl(), registers.h, gpu, interrupts);
}

/// `LD (HL), L`: Stores L in the byte that HL points at.
pub fn ld_hl_l(
    registers: &Registers,
    memory: &mut Memory,
    gpu: &mut Gpu,
    interrupts: &mut Interrupts,
)
    requires
        writable(registers.hl()),
    ensures
        final(memory).bus(final(gpu), final(interrupts)) == old(memory).bus(
            old(gpu),
            old(interrupts),
        ).write(registers.hl(), registers.reg(Reg8::L)),
{
    memory.write_byte(registers.get_hl(), registers.l, gpu, interrupts);
}

/// `HALT`: Moves past itself if the interrupt master switch is on, and does nothing if
/// it is off.
pub fn halt(registers: &mut Registers, interrupts: &Interrupts)
    ensures
        *final(registers) == if interrupts.master != 0 {
            old(registers).advance_pc(1)
        } else {
            *old(registers)
        },
{
    if interrupts.master != 0 {
        registers.pc = registers.pc.wrapping_add(1);
    }
}

/// `LD (HL), A`: Stores A in the byte that HL points at.
pub fn ld_hl_a(
    registers: &Registers,
    memory: &mut Memory,
    gpu: &mut Gpu,
    interrupts: &mut Interrupts,
)
    requires
        writable(registers.hl()),
    ensures
        final(memory).bus(final(gpu), final(interrupts)) == old(memory).bus(
            old(gpu),
            old(interrupts),
        ).write(registers.hl(), registers.reg(Reg8::A)),
{
    memory.write_byte(registers.get_hl(), registers.a, gpu, interrupts);
}

/// `LD A, B`: Copies B into A.
pub fn ld_a_b(registers: &mut Registers)
    ensures
        *final(registers) == old(registers).with_reg(Reg8::A, old(registers).reg(Reg8::B)),
{
    registers.a = registers.b;
}

/// `LD A, C`: Copies C into A.
pub fn ld_a_c(registers: &mut Registers)
    ensures
        *final(registers) == old(registers).with_reg(Reg8::A, old(registers).reg(Reg8::C)),
{
    registers.a = registers.c;
}

/// `LD A, D`: Copies D into A.
pub fn ld_a_d(registers: &mut Registers)
    ensures
        *final(registers) == old(registers).with_reg(Reg8::A, old(registers).reg(Reg8::D)),
{
    registers.a = registers.d;
}

/// `LD A, E`: Copies E into A.
pub fn ld_a_e(registers: &mut Registers)
    ensures
        *final(registers) == old(registers).with_reg(Reg8::A, old(registers).reg(Reg8::E)),
{
    registers.a = registers.e;
}

/// `LD A, H`: Copies H into A.
pub fn ld_a_h(registers: &mut Registers)
    ensures
        *final(registers) == old(registers).with_reg(Reg8::A, old(registers).reg(Reg8::H)),
{
    registers.a = registers.h;
}

/// `LD A, L`: Copies L into A.
pub fn ld_a_l(registers: &mut Registers)
    ensures
        *final(registers) == old(registers).with_reg(Reg8::A, old(registers).reg(Reg8::L)),
{
    registers.a = registers.l;
}

/// `LD A, (HL)`: Loads A from the byte that HL points at.
pub fn ld_a_hl(
    registers: &mut Registers,
    memory: &Memory,
    gpu: &Gpu,
    interrupts: &Interrupts,
)
    ensures
        *final(registers) == old(registers).with_reg(
            Reg8::A,
            memory.bus(gpu, interrupts).read(old(registers).hl()),
        ),
{
    registers.a = memory.read_byte(registers.get_hl(), gpu, interrupts);
}

/// `ADD A, B`: Adds B to A.
pub fn add_b(registers: &mut Registers)
    ensures
        *final(registers) == alu(AluOp::Add, *old(registers), old(registers).reg(Reg8::B)),
{
    crate::alu::add(registers.b, registers);
}

/// `ADD A, C`: Adds C to A.
pub fn add_c(registers: &mut Registers)
    ensures
        *final(registers) == alu(AluOp::Add, *old(registers), old(registers).reg(Reg8::C)),
{
    crate::alu::add(registers.c, registers);
}

/// `ADD A, D`: Adds D to A.
pub fn add_d(registers: &mut Registers)
    ensures
        *final(registers) == alu(AluOp::Add, *old(registers), old(registers).reg(Reg8::D)),
{
    crate::alu::add(registers.d, registers);
}

/// `ADD A, E`: Adds E to A.
pub fn add_e(registers: &mut Registers)
    ensures
        *final(registers) == alu(AluOp::Add, *old(registers), old(registers).reg(Reg8::E)),
{
    crate::alu::add(registers.e, registers);
}

/// `ADD A, H`: Adds H to A.
pub fn add_h(registers: &mut Registers)
    ensures
        *final(registers) == alu(AluOp::Add, *old(registers), old(registers).reg(Reg8::H)),
{
    crate::alu::add(registers.h, registers);
}

/// `ADD A, L`: Adds L to A.
pub fn add_l(registers: &mut Registers)
    ensures
        *final(registers) == alu(AluOp::Add, *old(registers), old(registers).reg(Reg8::L)),
{
    crate::alu::add(registers.l, registers);
}

/// `ADD A, (HL)`: Adds the byte that HL points at to A.
pub fn add_hl(
    registers: &mut Registers,
    memory: &Memory,
    gpu: &Gpu,
    interrupts: &Interrupts,
)
    ensures
        *final(registers) == alu(
            AluOp::Add,
            *old(registers),
            memory.bus(gpu, interrupts).read(old(registers).hl()),
        ),
{
    crate::alu::add(memory.read_byte(registers.get_hl(), gpu, interrupts), registers);
}

/// `ADD A, A`: Adds A to A.
pub fn add_a(registers: &mut Registers)
    ensures
        *final(registers) == alu(AluOp::Add, *old(registers), old(registers).reg(Reg8::A)),
{
    crate::alu::add(registers.a, registers);
}

/// `ADC A, B`: Adds B and the carry flag to A.
pub fn adc_b(registers: &mut Registers)
    ensures
        *final(registers) == alu(AluOp::Adc, *old(registers), old(registers).reg(Reg8::B)),
{
    crate::alu::adc(registers.b, registers);
}

/// `ADC A, C`: Adds C and the carry flag to A.
pub fn adc_c(registers: &mut Registers)
    ensures
        *final(registers) == alu(AluOp::Adc, *old(registers), old(registers).reg(Reg8::C)),
{
    crate::alu::adc(registers.c, registers);
}

/// `ADC A, D`: Adds D and the carry flag to A.
pub fn adc_d(registers: &mut Registers)
    ensures
        *final(registers) == alu(AluOp::Adc, *old(registers), old(registers).reg(Reg8::D)),
{
    crate::alu::adc(registers.d, registers);
}

/// `ADC A, E`: Adds E and the carry flag to A.
pub fn adc_e(registers: &mut Registers)
    ensures
        *final(registers) == alu(AluOp::Adc, *old(registers), old(registers).reg(Reg8::E)),
{
    crate::alu::adc(registers.e, registers);
}

/// `ADC A, H`: Adds H and the carry flag to A.
pub fn adc_h(registers: &mut Registers)
    ensures
        *final(registers) == alu(AluOp::Adc, *old(registers), old(registers).reg(Reg8::H)),
{
    crate::alu::adc(registers.h, registers);
}

/// `ADC A, L`: Adds L and the carry flag to A.
pub fn adc_l(registers: &mut Registers)
    ensures
        *final(registers) == alu(AluOp::Adc, *old(registers), old(registers).reg(Reg8::L)),
{
    crate::alu::adc(registers.l, registers);
}

/// `ADC A, A`: Adds A and the carry flag to A.
pub fn adc_a(registers: &mut Registers)
    ensures
        *final(registers) == alu(AluOp::Adc, *old(registers), old(registers).reg(Reg8::A)),
{
    crate::alu::adc(registers.a, registers);
}

/// `SUB B`: Subtracts B from A.
pub fn sub_b(registers: &mut Registers)
    ensures
        *final(registers) == alu(AluOp::Sub, *old(registers), old(registers).reg(Reg8::B)),
{
    crate::alu::sub(registers.b, registers);
}

/// `SUB C`: Subtracts C from A.
pub fn sub_c(registers: &mut Registers)
    ensures
        *final(registers) == alu(AluOp::Sub, *old(registers), old(registers).reg(Reg8::C)),
{
    crate::alu::sub(registers.c, registers);
}

/// `SUB D`: Subtracts D from A.
pub fn sub_d(registers: &mut Registers)
    ensures
        *final(registers) == alu(AluOp::Sub, *old(registers), old(registers).reg(Reg8::D)),
{
    crate::alu::sub(registers.d, registers);
}

/// `SUB E`: Subtracts E from A.
pub fn sub_e(registers: &mut Registers)
    ensures
        *final(registers) == alu(AluOp::Sub, *old(registers), old(registers).reg(Reg8::E)),
{
    crate::alu::sub(registers.e, registers);
}

/// `SUB H`: Subtracts H from A.
pub fn sub_h(registers: &mut Registers)
    ensures
        *final(registers) == alu(AluOp::Sub, *old(registers), old(registers).reg(Reg8::H)),
{
    crate::alu::sub(registers.h, registers);
}

/// `SUB L`: Subtracts L from A.
pub fn sub_l(registers: &mut Registers)
    ensures
        *final(registers) == alu(AluOp::Sub, *old(registers), old(registers).reg(Reg8::L)),
{
    crate::alu::sub(registers.l, registers);
}

/// `SUB A`: Subtracts A from A.
pub fn sub_a(registers: &mut Registers)
    ensures
        *final(registers) == alu(AluOp::Sub, *old(registers), old(registers).reg(Reg8::A)),
{
    crate::alu::sub(registers.a, registers);
}

/// `SBC A, B`: Subtracts B and the carry flag from A.
pub fn sbc_b(registers: &mut Registers)
    ensures
        *final(registers) == alu(AluOp::Sbc, *old(registers), old(registers).reg(Reg8::B)),
{
    crate::alu::sbc(registers.b, registers);
}

/// `SBC A, C`: Subtracts C and the carry flag from A.
pub fn sbc_c(registers: &mut Registers)
    ensures
        *final(registers) == alu(AluOp::Sbc, *old(registers), old(registers).reg(Reg8::C)),
{
    crate::alu::sbc(registers.c, registers);
}

/// `SBC A, D`: Subtracts D and the carry flag from A.
pub fn sbc_d(registers: &mut Registers)
    ensures
        *final(registers) == alu(AluOp::Sbc, *old(registers), old(registers).reg(Reg8::D)),
{
    crate::alu::sbc(registers.d, registers);
}

/// `SBC A, E`: Subtracts E and the carry flag from A.
pub fn sbc_e(registers: &mut Registers)
    ensures
        *final(registers) == alu(AluOp::Sbc, *old(registers), old(registers).reg(Reg8::E)),
{
    crate::alu::sbc(registers.e, registers);
}

/// `SBC A, H`: Subtracts H and the carry flag from A.
pub fn sbc_h(registers: &mut Registers)
    ensures
        *final(registers) == alu(AluOp::Sbc, *old(registers), old(registers).reg(Reg8::H)),
{
    crate::alu::sbc(registers.h, registers);
}

/// `SBC A, L`: Subtracts L and the carry flag from A.
pub fn sbc_l(registers: &mut Registers)
    ensures
        *final(registers) == alu(AluOp::Sbc, *old(registers), old(registers).reg(Reg8::L)),
{
    crate::alu::sbc(registers.l, registers);
}

/// `SBC A, A`: Subtracts A and the carry flag from A.
pub fn sbc_a(registers: &mut Registers)
    ensures
        *final(registers) == alu(AluOp::Sbc, *old(registers), old(registers).reg(Reg8::A)),
{
    crate::alu::sbc(registers.a, registers);
}

/// `AND B`: Combines A with B by bitwise and.
pub fn and_b(registers: &mut Registers)
    ensures
        *final(registers) == alu(AluOp::And, *old(registers), old(registers).reg(Reg8::B)),
{
    crate::alu::and(registers.b, registers);
}

/// `AND C`: Combines A with C by bitwise and.
pub fn and_c(registers: &mut Registers)
    ensures
        *final(registers) == alu(AluOp::And, *old(registers), old(registers).reg(Reg8::C)),
{
    crate::alu::and(registers.c, registers);
}

/// `AND D`: Combines A with D by bitwise and.
pub fn and_d(registers: &mut Registers)
    ensures
        *final(registers) == alu(AluOp::And, *old(registers), old(registers).reg(Reg8::D)),
{
    crate::alu::and(registers.d, registers);
}

/// `AND E`: Combines A with E by bitwise and.
pub fn and_e(registers: &mut Registers)
    ensures
        *final(registers) == alu(AluOp::And, *old(registers), old(registers).reg(Reg8::E)),
{
    crate::alu::and(registers.e, registers);
}

/// `AND H`: Combines A with H by bitwise and.
pub fn and_h(registers: &mut Registers)
    ensures
        *final(registers) == alu(AluOp::And, *old(registers), old(registers).reg(Reg8::H)),
{
    crate::alu::and(registers.h, registers);
}

/// `AND L`: Combines A with L by bitwise and.
pub fn and_l(registers: &mut Registers)
    ensures
        *final(registers) == alu(AluOp::And, *old(registers), old(registers).reg(Reg8::L)),
{
    crate::alu::and(registers.l, registers);
}

/// `AND A`: Combines A with A by bitwise and.
pub fn and_a(registers: &mut Registers)
    ensures
        *final(registers) == alu(AluOp::And, *old(registers), old(registers).reg(Reg8::A)),
{
    crate::alu::and(registers.a, registers);
}

/// `XOR B`: Combines A with B by bitwise exclusive or.
pub fn xor_b(registers: &mut Registers)
    ensures
        *final(registers) == alu(AluOp::Xor, *old(registers), old(registers).reg(Reg8::B)),
{
    crate::alu::xor(registers.b, registers);
}

/// `XOR C`: Combines A with C by bitwise exclusive or.
pub fn xor_c(registers: &mut Registers)
    ensures
        *final(registers) == alu(AluOp::Xor, *old(registers), old(registers).reg(Reg8::C)),
{
    crate::alu::xor(registers.c, registers);
}

/// `XOR D`: Combines A with D by bitwise exclusive or.
pub fn xor_d(registers: &mut Registers)
    ensures
        *final(registers) == alu(AluOp::Xor, *old(registers), old(registers).reg(Reg8::D)),
{
    crate::alu::xor(registers.d, registers);
}

/// `XOR E`: Combines A with E by bitwise exclusive or.
pub fn xor_e(registers: &mut Registers)
    ensures
        *final(registers) == alu(AluOp::Xor, *old(registers), old(registers).reg(Reg8::E)),
{
    crate::alu::xor(registers.e, registers);
}

/// `XOR H`: Combines A with H by bitwise exclusive or.
pub fn xor_h(registers: &mut Registers)
    ensures
        *final(registers) == alu(AluOp::Xor, *old(registers), old(registers).reg(Reg8::H)),
{
    crate::alu::xor(registers.h, registers);
}

/// `XOR L`: Combines A with L by bitwise exclusive or.
pub fn xor_l(registers: &mut Registers)
    ensures
        *final(registers) == alu(AluOp::Xor, *old(registers), old(registers).reg(Reg8::L)),
{
    crate::alu::xor(registers.l, registers);
}

/// `XOR A`: Combines A with A by bitwise exclusive or.
pub fn xor_a(registers: &mut Registers)
    ensures
        *final(registers) == alu(AluOp::Xor, *old(registers), old(registers).reg(Reg8::A)),
{
    crate::alu::xor(registers.a, registers);
}

/// `OR B`: Combines A with B by bitwise or.
pub fn or_b(registers: &mut Registers)
    ensures
        *final(registers) == alu(AluOp::Or, *old(registers), old(registers).reg(Reg8::B)),
{
    crate::alu::or(registers.b, registers);
}

/// `OR C`: Combines A with C by bitwise or.
pub fn or_c(registers: &mut Registers)
    ensures
        *final(registers) == alu(AluOp::Or, *old(registers), old(registers).reg(Reg8::C)),
{
    crate::alu::or(registers.c, registers);
}

/// `OR D`: Combines A with D by bitwise or.
pub fn or_d(registers: &mut Registers)
    ensures
        *final(registers) == alu(AluOp::Or, *old(registers), old(registers).reg(Reg8::D)),
{
    crate::alu::or(registers.d, registers);
}

/// `OR E`: Combines A with E by bitwise or.
pub fn or_e(registers: &mut Registers)
    ensures
        *final(registers) == alu(AluOp::Or, *old(registers), old(registers).reg(Reg8::E)),
{
    crate::alu::or(registers.e, registers);
}

/// `OR H`: Combines A with H by bitwise or.
pub fn or_h(registers: &mut Registers)
    ensures
        *final(registers) == alu(AluOp::Or, *old(registers), old(registers).reg(Reg8::H)),
{
    crate::alu::or(registers.h, registers);
}

/// `OR L`: Combines A with L by bitwise or.
pub fn or_l(registers: &mut Registers)
    ensures
        *final(registers) == alu(AluOp::Or, *old(registers), old(registers).reg(Reg8::L)),
{
    crate::alu::or(registers.l, registers);
}

/// `OR A`: Combines A with A by bitwise or.
pub fn or_a(registers: &mut Registers)
    ensures
        *final(registers) == alu(AluOp::Or, *old(registers), old(registers).reg(Reg8::A)),
{
    crate::alu::or(registers.a, registers);
}

/// `CP B`: Compares A with B.
pub fn cp_b(registers: &mut Registers)
    ensures
        *final(registers) == alu(AluOp::Cp, *old(registers), old(registers).reg(Reg8::B)),
{
    crate::alu::cp(registers.b, registers);
}

/// `CP C`: Compares A with C.
pub fn cp_c(registers: &mut Registers)
    ensures
        *final(registers) == alu(AluOp::Cp, *old(registers), old(registers).reg(Reg8::C)),
{
    crate::alu::cp(registers.c, registers);
}

/// `CP D`: Compares A with D.
pub fn cp_d(registers: &mut Registers)
    ensures
        *final(registers) == alu(AluOp::Cp, *old(registers), old(registers).reg(Reg8::D)),
{
    crate::alu::cp(registers.d, registers);
}

/// `CP E`: Compares A with E.
pub fn cp_e(registers: &mut Registers)
    ensures
        *final(registers) == alu(AluOp::Cp, *old(registers), old(registers).reg(Reg8::E)),
{
    crate::alu::cp(registers.e, registers);
}

/// `CP H`: Compares A with H.
pub fn cp_h(registers: &mut Registers)
    ensures
        *final(registers) == alu(AluOp::Cp, *old(registers), old(registers).reg(Reg8::H)),
{
    crate::alu::cp(registers.h, registers);
}

/// `CP L`: Compares A with L.
pub fn cp_l(registers: &mut Registers)
    ensures
        *final(registers) == alu(AluOp::Cp, *old(registers), old(registers).reg(Reg8::L)),
{
    crate::alu::cp(registers.l, registers);
}

/// `CP A`: Compares A with A.
pub fn cp_a(registers: &mut Registers)
    ensures
        *final(registers) == alu(AluOp::Cp, *old(registers), old(registers).reg(Reg8::A)),
{
    crate::alu::cp(registers.a, registers);
}

/// `RET NZ`: If the zero flag is clear, pops a word and moves the program counter
/// forward by it.
pub fn ret_nz(
    registers: &mut Registers,
    memory: &Memory,
    ticks: &mut u32,
    gpu: &Gpu,
    interrupts: &Interrupts,
)
    ensures
        (*final(registers), *final(ticks)) == ret_nz_spec(
            *old(registers),
            memory.bus(gpu, interrupts),
            *old(ticks),
        ),
{
    if !registers.get_zero_flag() {
        let val: u16 = memory.read_short_from_stack(registers, gpu, interrupts);
        registers.pc = registers.pc.wrapping_add(val);
        *ticks = ticks.wrapping_add(RET_TAKEN_TICKS);
    }
}

/// `POP BC`: Pops a word off the stack into BC.
pub fn pop_bc(
    registers: &mut Registers,
    memory: &Memory,
    gpu: &Gpu,
    interrupts: &Interrupts,
)
    ensures
        *final(registers) == with_stack_pair(
            pop_word(*old(registers)),
            StackPair::BC,
            memory.bus(gpu, interrupts).read_short(old(registers).sp),
        ),
{
    let val: u16 = memory.read_short_from_stack(registers, gpu, interrupts);
    registers.set_bc(val);
}

/// `JP NZ, nn`: Moves past the operand and, if the zero flag is clear, forward by
/// it.
pub fn jp_nz_nn(val: u16, registers: &mut Registers, ticks: &mut u32)
    ensures
        (*final(registers), *final(ticks)) == jp_nz_spec(*old(registers), *old(ticks), val),
{
    registers.pc = registers.pc.wrapping_add(2);
    if !registers.get_zero_flag() {
        registers.pc = registers.pc.wrapping_add(val);
        *ticks = ticks.wrapping_add(JP_TAKEN_TICKS);
    }
}

/// `JP nn`: Jumps to the operand word.
pub fn jp_nn(val: u16, registers: &mut Registers)
    ensures
        *final(registers) == old(registers).with_pc(val),
{
    registers.pc = val;
}

/// `PUSH BC`: Pushes BC on the stack.
pub fn push_bc(
    registers: &mut Registers,
    memory: &mut Memory,
    gpu: &mut Gpu,
    interrupts: &mut Interrupts,
)
    requires
        word_writable(old(registers).sp.wrapping_sub(2)),
    ensures
        (*final(registers), final(memory).bus(final(gpu), final(interrupts))) == push_word(
            *old(registers),
            old(memory).bus(old(gpu), old(interrupts)),
            stack_pair(*old(registers), StackPair::BC),
        ),
{
    memory.write_short_to_stack(registers, registers.get_bc(), gpu, interrupts);
}

/// `ADD A, n`: Adds the operand byte to A.
pub fn add_n(n: u8, registers: &mut Registers)
    ensures
        *final(registers) == alu(AluOp::Add, old(registers).advance_pc(1), n),
{
    registers.pc = registers.pc.wrapping_add(1);
    crate::alu::add(n, registers);
}

/// `RST 00H`: Pushes the program counter and continues at 0x0000.
pub fn rst_0(
    registers: &mut Registers,
    memory: &mut Memory,
    gpu: &mut Gpu,
    interrupts: &mut Interrupts,
)
    requires
        word_writable(old(registers).sp.wrapping_sub(2)),
    ensures
        (*final(registers), final(memory).bus(final(gpu), final(interrupts))) == rst_spec(
            *old(registers),
            old(memory).bus(old(gpu), old(interrupts)),
            0x0000,
        ),
{
    memory.write_short_to_stack(registers, registers.pc, gpu, interrupts);
    registers.pc = 0x0000;
}

/// `RET`: Pops a word off the stack into the program counter.
pub fn ret(
    registers: &mut Registers,
    memory: &Memory,
    gpu: &Gpu,
    interrupts: &Interrupts,
)
    ensures
        *final(registers) == pop_word(*old(registers)).with_pc(
            memory.bus(gpu, interrupts).read_short(old(registers).sp),
        ),
{
    registers.pc = memory.read_short_from_stack(registers, gpu, interrupts);
}

/// `ADC A, n`: Adds the operand byte and the carry flag to A.
pub fn adc_n(n: u8, registers: &mut Registers)
    ensures
        *final(registers) == alu(AluOp::Adc, old(registers).advance_pc(1), n),
{
    registers.pc = registers.pc.wrapping_add(1);
    crate::alu::adc(n, registers);
}

/// `RST 08H`: Pushes the program counter and continues at 0x0008.
pub fn rst_08(
    registers: &mut Registers,
    memory: &mut Memory,
    gpu: &mut Gpu,
    interrupts: &mut Interrupts,
)
    requires
        word_writable(old(registers).sp.wrapping_sub(2)),
    ensures
        (*final(registers), final(memory).bus(final(gpu), final(interrupts))) == rst_spec(
            *old(registers),
            old(memory).bus(old(gpu), old(interrupts)),
            0x0008,
        ),
{
    memory.write_short_to_stack(registers, registers.pc, gpu, interrupts);
    registers.pc = 0x0008;
}

/// `POP DE`: Pops a word off the stack into DE.
pub fn pop_de(
    registers: &mut Registers,
    memory: &Memory,
    gpu: &Gpu,
    interrupts: &Interrupts,
)
    ensures
        *final(registers) == with_stack_pair(
            pop_word(*old(registers)),
            StackPair::DE,
            memory.bus(gpu, interrupts).read_short(old(registers).sp),
        ),
{
    let val: u16 = memory.read_short_from_stack(registers, gpu, interrupts);
    registers.set_de(val);
}

/// `JP NC, nn`: Jumps to the operand word if the carry flag is clear, and moves past
/// the operand if not.
pub fn jp_nc_nn(val: u16, registers: &mut Registers, ticks: &mut u32)
    ensures
        (*final(registers), *final(ticks)) == jp_nc_spec(*old(registers), *old(ticks), val),
{
    if !registers.get_carry_flag() {
        registers.pc = val;
        *ticks = ticks.wrapping_add(JP_TAKEN_TICKS);
    } else {
        registers.pc = registers.pc.wrapping_add(2);
    }
}

/// `PUSH DE`: Pushes DE on the stack.
pub fn push_de(
    registers: &mut Registers,
    memory: &mut Memory,
    gpu: &mut Gpu,
    interrupts: &mut Interrupts,
)
    requires
        word_writable(old(registers).sp.wrapping_sub(2)),
    ensures
        (*final(registers), final(memory).bus(final(gpu), final(interrupts))) == push_word(
            *old(registers),
            old(memory).bus(old(gpu), old(interrupts)),
            stack_pair(*old(registers), StackPair::DE),
        ),
{
    memory.write_short_to_stack(registers, registers.get_de(), gpu, interrupts);
}

/// `SUB n`: Subtracts the operand byte from A.
pub fn sub_n(n: u8, registers: &mut Registers)
    ensures
        *final(registers) == alu(AluOp::Sub, old(registers).advance_pc(1), n),
{
    registers.pc = registers.pc.wrapping_add(1);
    crate::alu::sub(n, registers);
}

/// `RST 10H`: Pushes the program counter and continues at 0x0010.
pub fn rst_10(
    registers: &mut Registers,
    memory: &mut Memory,
    gpu: &mut Gpu,
    interrupts: &mut Interrupts,
)
    requires
        word_writable(old(registers).sp.wrapping_sub(2)),
    ensures
        (*final(registers), final(memory).bus(final(gpu), final(interrupts))) == rst_spec(
            *old(registers),
            old(memory).bus(old(gpu), old(interrupts)),
            0x0010,
        ),
{
    memory.write_short_to_stack(registers, registers.pc, gpu, interrupts);
    registers.pc = 0x0010;
}

/// `RET C`: If the carry flag is set, pops a word off the stack into the program
/// counter.
pub fn ret_c(
    registers: &mut Registers,
    memory: &Memory,
    ticks: &mut u32,
    gpu: &Gpu,
    interrupts: &Interrupts,
)
    ensures
        (*final(registers), *final(ticks)) == ret_c_spec(
            *old(registers),
            memory.bus(gpu, interrupts),
            *old(ticks),
        ),
{
    if registers.get_carry_flag() {
        let val: u16 = memory.read_short_from_stack(registers, gpu, interrupts);
        registers.pc = val;
        *ticks = ticks.wrapping_add(RET_TAKEN_TICKS);
    }
}

/// `SBC A, n`: Subtracts the operand byte and the carry flag from A.
pub fn sbc_n(n: u8, registers: &mut Registers)
    ensures
        *final(registers) == alu(AluOp::Sbc, old(registers).advance_pc(1), n),
{
    registers.pc = registers.pc.wrapping_add(1);
    crate::alu::sbc(n, registers);
}

/// `RST 18H`: Pushes the program counter and continues at 0x0018.
pub fn rst_18(
    registers: &mut Registers,
    memory: &mut Memory,
    gpu: &mut Gpu,
    interrupts: &mut Interrupts,
)
    requires
        word_writable(old(registers).sp.wrapping_sub(2)),
    ensures
        (*final(registers), final(memory).bus(final(gpu), final(interrupts))) == rst_spec(
            *old(registers),
            old(memory).bus(old(gpu), old(interrupts)),
            0x0018,
        ),
{
    memory.write_short_to_stack(registers, registers.pc, gpu, interrupts);
    registers.pc = 0x0018;
}

/// `POP HL`: Pops a word off the stack into HL.
pub fn pop_hl(
    registers: &mut Registers,
    memory: &Memory,
    gpu: &Gpu,
    interrupts: &Interrupts,
)
    ensures
        *final(registers) == with_stack_pair(
            pop_word(*old(registers)),
            StackPair::HL,
            memory.bus(gpu, interrupts).read_short(old(registers).sp),
        ),
{
    let val: u16 = memory.read_short_from_stack(registers, gpu, interrupts);
    registers.set_hl(val);
}

/// `PUSH HL`: Pushes HL on the stack.
pub fn push_hl(
    registers: &mut Registers,
    memory: &mut Memory,
    gpu: &mut Gpu,
    interrupts: &mut Interrupts,
)
    requires
        word_writable(old(registers).sp.wrapping_sub(2)),
    ensures
        (*final(registers), final(memory).bus(final(gpu), final(interrupts))) == push_word(
            *old(registers),
            old(memory).bus(old(gpu), old(interrupts)),
            stack_pair(*old(registers), StackPair::HL),
        ),
{
    memory.write_short_to_stack(registers, registers.get_hl(), gpu, interrupts);
}

/// `AND n`: Combines A with the operand byte by bitwise and.
pub fn and_n(val: u8, registers: &mut Registers)
    ensures
        *final(registers) == alu(AluOp::And, old(registers).advance_pc(1), val),
{
    registers.pc = registers.pc.wrapping_add(1);
    crate::alu::and(val, registers);
}

/// `RST 20H`: Pushes the program counter and continues at 0x0020.
pub fn rst_20(
    registers: &mut Registers,
    memory: &mut Memory,
    gpu: &mut Gpu,
    interrupts: &mut Interrupts,
)
    requires
        word_writable(old(registers).sp.wrapping_sub(2)),
    ensures
        (*final(registers), final(memory).bus(final(gpu), final(interrupts))) == rst_spec(
            *old(registers),
            old(memory).bus(old(gpu), old(interrupts)),
            0x0020,
        ),
{
    memory.write_short_to_stack(registers, registers.pc, gpu, interrupts);
    registers.pc = 0x0020;
}

/// `JP (HL)`: Jumps to the address in HL.
pub fn jp_hl(registers: &mut Registers)
    ensures
        *final(registers) == old(registers).with_pc(old(registers).hl()),
{
    registers.pc = registers.get_hl();
}

/// `XOR n`: Combines A with the operand byte by bitwise exclusive or.
pub fn xor_n(val: u8, registers: &mut Registers)
    ensures
        *final(registers) == alu(AluOp::Xor, old(registers).advance_pc(1), val),
{
    registers.pc = registers.pc.wrapping_add(1);
    crate::alu::xor(val, registers);
}

/// `RST 28H`: Pushes the program counter and continues at 0x0028.
pub fn rst_28(
    registers: &mut Registers,
    memory: &mut Memory,
    gpu: &mut Gpu,
    interrupts: &mut Interrupts,
)
    requires
        word_writable(old(registers).sp.wrapping_sub(2)),
    ensures
        (*final(registers), final(memory).bus(final(gpu), final(interrupts))) == rst_spec(
            *old(registers),
            old(memory).bus(old(gpu), old(interrupts)),
            0x0028,
        ),
{
    memory.write_short_to_stack(registers, registers.pc, gpu, interrupts);
    registers.pc = 0x0028;
}

/// `POP AF`: Pops a word off the stack into AF.
pub fn pop_af(
    registers: &mut Registers,
    memory: &Memory,
    gpu: &Gpu,
    interrupts: &Interrupts,
)
    ensures
        *final(registers) == with_stack_pair(
            pop_word(*old(registers)),
            StackPair::AF,
            memory.bus(gpu, interrupts).read_short(old(registers).sp),
        ),
{
    let val: u16 = memory.read_short_from_stack(registers, gpu, interrupts);
    registers.set_af(val);
}

/// `LD A, (C)`: Loads A with the first byte of the I/O block plus C, and moves the
/// program counter on by one.
pub fn ld_a_ff_c(
    registers: &mut Registers,
    memory: &Memory,
    gpu: &Gpu,
    interrupts: &Interrupts,
)
    ensures
        *final(registers) == old(registers).advance_pc(1).with_reg(
            Reg8::A,
            memory.bus(gpu, interrupts).read(0xff00).wrapping_add(old(registers).c),
        ),
{
    ld_a_n(memory.read_byte(0xff00, gpu, interrupts).wrapping_add(registers.c), registers);
}

/// `DI`: Turns the interrupt master switch off.
pub fn di(interrupts: &mut Interrupts)
    ensures
        *final(interrupts) == old(interrupts).with_master(0),
{
    interrupts.disable();
}

/// `PUSH AF`: Pushes AF on the stack.
pub fn push_af(
    registers: &mut Registers,
    memory: &mut Memory,
    gpu: &mut Gpu,
    interrupts: &mut Interrupts,
)
    requires
        word_writable(old(registers).sp.wrapping_sub(2)),
    ensures
        (*final(registers), final(memory).bus(final(gpu), final(interrupts))) == push_word(
            *old(registers),
            old(memory).bus(old(gpu), old(interrupts)),
            stack_pair(*old(registers), StackPair::AF),
        ),
{
    memory.write_short_to_stack(registers, registers.get_af(), gpu, interrupts);
}

/// `OR n`: Combines A with the operand byte by bitwise or.
pub fn or_n(val: u8, registers: &mut Registers)
    ensures
        *final(registers) == alu(AluOp::Or, old(registers).advance_pc(1), val),
{
    registers.pc = registers.pc.wrapping_add(1);
    crate::alu::or(val, registers);
}

/// `RST 30H`: Pushes the program counter and continues at 0x0030.
pub fn rst_30(
    registers: &mut Registers,
    memory: &mut Memory,
    gpu: &mut Gpu,
    interrupts: &mut Interrupts,
)
    requires
        word_writable(old(registers).sp.wrapping_sub(2)),
    ensures
        (*final(registers), final(memory).bus(final(gpu), final(interrupts))) == rst_spec(
            *old(registers),
            old(memory).bus(old(gpu), old(interrupts)),
            0x0030,
        ),
{
    memory.write_short_to_stack(registers, registers.pc, gpu, interrupts);
    registers.pc = 0x0030;
}

/// `LD SP, HL`: Copies HL into the stack pointer.
pub fn ld_sp_hl(registers: &mut Registers)
    ensures
        *final(registers) == old(registers).with_sp(old(registers).hl()),
{
    registers.sp = registers.get_hl();
}

/// `EI`: Turns the interrupt master switch on.
pub fn ei(interrupts: &mut Interrupts)
    ensures
        *final(interrupts) == old(interrupts).with_master(1),
{
    interrupts.enable();
}

/// `CP n`: Compares A with the operand byte.
pub fn cp_n(val: u8, registers: &mut Registers)
    ensures
        *final(registers) == alu(AluOp::Cp, old(registers).advance_pc(1), val),
{
    registers.pc = registers.pc.wrapping_add(1);
    crate::alu::cp(val, registers);
}

/// `RST 38H`: Pushes the program counter and continues at 0x0038.
pub fn rst_38(
    registers: &mut Registers,
    memory: &mut Memory,
    gpu: &mut Gpu,
    interrupts: &mut Interrupts,
)
    requires
        word_writable(old(registers).sp.wrapping_sub(2)),
    ensures
        (*final(registers), final(memory).bus(final(gpu), final(interrupts))) == rst_spec(
            *old(registers),
            old(memory).bus(old(gpu), old(interrupts)),
            0x0038,
        ),
{
    memory.write_short_to_stack(registers, registers.pc, gpu, interrupts);
    registers.pc = 0x0038;
}

} // verus!
