//! The execution engine: reads an opcode, hands the instruction to its
//! handler and counts the instruction's base cost.

use vstd::prelude::*;
use crate::alu::{dec_flags, dec_value, inc_flags, inc_value};
use crate::bus::{
    is_word_writable, is_writable, pop_word, push_word, word_writable, writable,
};
use crate::gpu::Gpu;
use crate::handlers;
use crate::instruction::{
    decode, decode_opcode, instruction_ticks, AluOp, Condition, Instruction, Pair, StackPair,
};
use crate::interrupts::Interrupts;
use crate::machine::{
    alu, holds, jump_relative, rst_spec, stack_pair, with_pair, with_stack_pair, Machine,
};
use crate::memory::Memory;
use crate::registers::{Reg8, Registers};

verus! {

/// The CPU's own state: the stop latch.
#[derive(Debug)]
pub struct Cpu {
    /// Set by the stop instruction. While it is set, `step` does nothing.
    pub stopped: bool,
}

impl Default for Cpu {
    fn default() -> (cpu: Cpu)
        ensures
            !cpu.stopped,
    {
        Cpu { stopped: false }
    }
}

/// What `Cpu::step` did with an opcode.
#[derive(Clone, Copy, Debug, PartialEq, Eq, Structural)]
pub enum Dispatch {
    /// The opcode's handler ran.
    Executed,
    /// The opcode has no handler; nothing changed.
    Unsupported,
    /// The CPU is stopped; nothing changed.
    Stopped,
}

/// Copies the register `src` into the register `dst`.
pub fn load_register(dst: Reg8, src: Reg8, registers: &mut Registers)
    ensures
        *final(registers) == old(registers).with_reg(dst, old(registers).reg(src)),
{
    match dst {
        Reg8::B => match src {
            Reg8::B => handlers::nop(),
            Reg8::C => handlers::ld_b_c(registers),
            Reg8::D => handlers::ld_b_d(registers),
            Reg8::E => handlers::ld_b_e(registers),
            Reg8::H => handlers::ld_b_h(registers),
            Reg8::L => handlers::ld_b_l(registers),
            Reg8::A => handlers::ld_b_a(registers),
        },
        Reg8::C => match src {
            Reg8::B => handlers::ld_c_b(registers),
            Reg8::C => handlers::nop(),
            Reg8::D => handlers::ld_c_d(registers),
            Reg8::E => handlers::ld_c_e(registers),
            Reg8::H => handlers::ld_c_h(registers),
            Reg8::L => handlers::ld_c_l(registers),
            Reg8::A => handlers::ld_c_a(registers),
        },
        Reg8::D => match src {
            Reg8::B => handlers::ld_d_b(registers),
            Reg8::C => handlers::ld_d_c(registers),
            Reg8::D => handlers::nop(),
            Reg8::E => handlers::ld_d_e(registers),
            Reg8::H => handlers::ld_d_h(registers),
            Reg8::L => handlers::ld_d_l(registers),
            Reg8::A => handlers::ld_d_a(registers),
        },
        Reg8::E => match src {
            Reg8::B => handlers::ld_e_b(registers),
            Reg8::C => handlers::ld_e_c(registers),
            Reg8::D => handlers::ld_e_d(registers),
            Reg8::E => handlers::nop(),
            Reg8::H => handlers::ld_e_h(registers),
            Reg8::L => handlers::ld_e_l(registers),
            Reg8::A => handlers::ld_e_a(registers),
        },
        Reg8::H => match src {
            Reg8::B => handlers::ld_h_b(registers),
            Reg8::C => handlers::ld_h_c(registers),
            Reg8::D => handlers::ld_h_d(registers),
            Reg8::E => handlers::ld_h_e(registers),
            Reg8::H => handlers::nop(),
            Reg8::L => handlers::ld_h_l(registers),
            Reg8::A => handlers::ld_h_a(registers),
        },
        Reg8::L => match src {
            Reg8::B => handlers::ld_l_b(registers),
            Reg8::C => handlers::ld_l_c(registers),
            Reg8::D => handlers::ld_l_d(registers),
            Reg8::E => handlers::ld_l_e(registers),
            Reg8::H => handlers::ld_l_h(registers),
            Reg8::L => handlers::nop(),
            Reg8::A => handlers::ld_l_a(registers),
        },
        Reg8::A => match src {
            Reg8::B => handlers::ld_a_b(registers),
            Reg8::C => handlers::ld_a_c(registers),
            Reg8::D => handlers::ld_a_d(registers),
            Reg8::E => handlers::ld_a_e(registers),
            Reg8::H => handlers::ld_a_h(registers),
            Reg8::L => handlers::ld_a_l(registers),
            Reg8::A => handlers::nop(),
        },
    }
}

/// Loads the register `dst` from the byte that HL points at.
pub fn load_from_hl(
    dst: Reg8,
    registers: &mut Registers,
    memory: &Memory,
    gpu: &Gpu,
    interrupts: &Interrupts,
)
    ensures
        *final(registers) == old(registers).with_reg(
            dst,
            memory.bus(gpu, interrupts).read(old(registers).hl()),
        ),
{
    match dst {
        Reg8::B => handlers::ld_b_hl(registers, memory, gpu, interrupts),
        Reg8::C => handlers::ld_c_hl(registers, memory, gpu, interrupts),
        Reg8::D => handlers::ld_d_hl(registers, memory, gpu, interrupts),
        Reg8::E => handlers::ld_e_hl(registers, memory, gpu, interrupts),
        Reg8::H => handlers::ld_h_hl(registers, memory, gpu, interrupts),
        Reg8::L => handlers::ld_l_hl(registers, memory, gpu, interrupts),
        Reg8::A => handlers::ld_a_hl(registers, memory, gpu, interrupts),
    }
}

/// Stores the register `src` in the byte that HL points at.
pub fn store_to_hl(
    src: Reg8,
    registers: &Registers,
    memory: &mut Memory,
    gpu: &mut Gpu,
    interrupts: &mut Interrupts,
)
    requires
        writable(registers.hl()),
    ensures
        final(memory).bus(final(gpu), final(interrupts)) == old(memory).bus(
            old(gpu),
            old(interrupts),
        ).write(registers.hl(), registers.reg(src)),
{
    match src {
        Reg8::B => handlers::ld_hl_b(registers, memory, gpu, interrupts),
        Reg8::C => handlers::ld_hl_c(registers, memory, gpu, interrupts),
        Reg8::D => handlers::ld_hl_d(registers, memory, gpu, interrupts),
        Reg8::E => handlers::ld_hl_e(registers, memory, gpu, interrupts),
        Reg8::H => handlers::ld_hl_h(registers, memory, gpu, interrupts),
        Reg8::L => handlers::ld_hl_l(registers, memory, gpu, interrupts),
        Reg8::A => handlers::ld_hl_a(registers, memory, gpu, interrupts),
    }
}

/// Loads the register `dst` with the operand byte `val` and moves the
/// program counter past it.
pub fn load_immediate(dst: Reg8, val: u8, registers: &mut Registers)
    ensures
        *final(registers) == old(registers).advance_pc(1).with_reg(dst, val),
{
    match dst {
        Reg8::B => handlers::ld_b_n(val, registers),
        Reg8::C => handlers::ld_c_n(val, registers),
        Reg8::D => handlers::ld_d_n(val, registers),
        Reg8::E => handlers::ld_e_n(val, registers),
        Reg8::H => handlers::ld_h_n(val, registers),
        Reg8::L => handlers::ld_l_n(val, registers),
        Reg8::A => handlers::ld_a_n(val, registers),
    }
}

/// Loads the pair `target` with the operand word `val` and moves the
/// program counter past it.
pub fn load_pair(target: Pair, val: u16, registers: &mut Registers)
    ensures
        *final(registers) == with_pair(old(registers).advance_pc(2), target, val),
{
    match target {
        Pair::BC => handlers::ld_bc_nn(val, registers),
        Pair::DE => handlers::ld_de_nn(val, registers),
        Pair::HL => handlers::ld_hl_nn(val, registers),
        Pair::SP => handlers::ld_sp_nn(val, registers),
    }
}

/// Increments the register `reg`.
pub fn increment(reg: Reg8, registers: &mut Registers)
    ensures
        *final(registers) == inc_flags(old(registers).reg(reg), *old(registers)).with_reg(
            reg,
            inc_value(old(registers).reg(reg)),
        ),
{
    match reg {
        Reg8::B => handlers::inc_b(registers),
        Reg8::C => handlers::inc_c(registers),
        Reg8::D => handlers::inc_d(registers),
        Reg8::E => handlers::inc_e(registers),
        Reg8::H => handlers::inc_h(registers),
        Reg8::L => handlers::inc_l(registers),
        Reg8::A => handlers::inc_a(registers),
    }
}

/// Decrements the register `reg`.
pub fn decrement(reg: Reg8, registers: &mut Registers)
    ensures
        *final(registers) == dec_flags(old(registers).reg(reg), *old(registers)).with_reg(
            reg,
            dec_value(old(registers).reg(reg)),
        ),
{
    match reg {
        Reg8::B => handlers::dec_b(registers),
        Reg8::C => handlers::dec_c(registers),
        Reg8::D => handlers::dec_d(registers),
        Reg8::E => handlers::dec_e(registers),
        Reg8::H => handlers::dec_h(registers),
        Reg8::L => handlers::dec_l(registers),
        Reg8::A => handlers::dec_a(registers),
    }
}

/// Jumps forward by the operand byte `val` if `cond` holds, and moves the
/// program counter past the operand either way.
pub fn branch(cond: Condition, val: u8, registers: &mut Registers, ticks: &mut u32)
    ensures
        (*final(registers), *final(ticks)) == jump_relative(
            *old(registers),
            *old(ticks),
            val,
            holds(cond, *old(registers)),
        ),
{
    match cond {
        Condition::NotZero => handlers::jr_nz_n(val, registers, ticks),
        Condition::Zero => handlers::jr_z_n(val, registers, ticks),
        Condition::NotCarry => handlers::jr_nc_n(val, registers, ticks),
        Condition::Carry => handlers::jr_c_n(val, registers, ticks),
    }
}

/// Performs the operation `op` on A and the register `src`.
pub fn operate(op: AluOp, src: Reg8, registers: &mut Registers)
    ensures
        *final(registers) == alu(op, *old(registers), old(registers).reg(src)),
{
    match op {
        AluOp::Add => match src {
            Reg8::B => handlers::add_b(registers),
            Reg8::C => handlers::add_c(registers),
            Reg8::D => handlers::add_d(registers),
            Reg8::E => handlers::add_e(registers),
            Reg8::H => handlers::add_h(registers),
            Reg8::L => handlers::add_l(registers),
            Reg8::A => handlers::add_a(registers),
        },
        AluOp::Adc => match src {
            Reg8::B => handlers::adc_b(registers),
            Reg8::C => handlers::adc_c(registers),
            Reg8::D => handlers::adc_d(registers),
            Reg8::E => handlers::adc_e(registers),
            Reg8::H => handlers::adc_h(registers),
            Reg8::L => handlers::adc_l(registers),
            Reg8::A => handlers::adc_a(registers),
        },
        AluOp::Sub => match src {
            Reg8::B => handlers::sub_b(registers),
            Reg8::C => handlers::sub_c(registers),
            Reg8::D => handlers::sub_d(registers),
            Reg8::E => handlers::sub_e(registers),
            Reg8::H => handlers::sub_h(registers),
            Reg8::L => handlers::sub_l(registers),
            Reg8::A => handlers::sub_a(registers),
        },
        AluOp::Sbc => match src {
            Reg8::B => handlers::sbc_b(registers),
            Reg8::C => handlers::sbc_c(registers),
            Reg8::D => handlers::sbc_d(registers),
            Reg8::E => handlers::sbc_e(registers),
            Reg8::H => handlers::sbc_h(registers),
            Reg8::L => handlers::sbc_l(registers),
            Reg8::A => handlers::sbc_a(registers),
        },
        AluOp::And => match src {
            Reg8::B => handlers::and_b(registers),
            Reg8::C => handlers::and_c(registers),
            Reg8::D => handlers::and_d(registers),
            Reg8::E => handlers::and_e(registers),
            Reg8::H => handlers::and_h(registers),
            Reg8::L => handlers::and_l(registers),
            Reg8::A => handlers::and_a(registers),
        },
        AluOp::Xor => match src {
            Reg8::B => handlers::xor_b(registers),
            Reg8::C => handlers::xor_c(registers),
            Reg8::D => handlers::xor_d(registers),
            Reg8::E => handlers::xor_e(registers),
            Reg8::H => handlers::xor_h(registers),
            Reg8::L => handlers::xor_l(registers),
            Reg8::A => handlers::xor_a(registers),
        },
        AluOp::Or => match src {
            Reg8::B => handlers::or_b(registers),
            Reg8::C => handlers::or_c(registers),
            Reg8::D => handlers::or_d(registers),
            Reg8::E => handlers::or_e(registers),
            Reg8::H => handlers::or_h(registers),
            Reg8::L => handlers::or_l(registers),
            Reg8::A => handlers::or_a(registers),
        },
        AluOp::Cp => match src {
            Reg8::B => handlers::cp_b(registers),
            Reg8::C => handlers::cp_c(registers),
            Reg8::D => handlers::cp_d(registers),
            Reg8::E => handlers::cp_e(registers),
            Reg8::H => handlers::cp_h(registers),
            Reg8::L => handlers::cp_l(registers),
            Reg8::A => handlers::cp_a(registers),
        },
    }
}

/// Performs the operation `op` on A and the operand byte `val`, and moves
/// the program counter past the operand.
pub fn operate_immediate(op: AluOp, val: u8, registers: &mut Registers)
    ensures
        *final(registers) == alu(op, old(registers).advance_pc(1), val),
{
    match op {
        AluOp::Add => handlers::add_n(val, registers),
        AluOp::Adc => handlers::adc_n(val, registers),
        AluOp::Sub => handlers::sub_n(val, registers),
        AluOp::Sbc => handlers::sbc_n(val, registers),
        AluOp::And => handlers::and_n(val, registers),
        AluOp::Xor => handlers::xor_n(val, registers),
        AluOp::Or => handlers::or_n(val, registers),
        AluOp::Cp => handlers::cp_n(val, registers),
    }
}

/// Pops a word off the stack into the pair `pair`.
pub fn pop_pair(
    pair: StackPair,
    registers: &mut Registers,
    memory: &Memory,
    gpu: &Gpu,
    interrupts: &Interrupts,
)
    ensures
        *final(registers) == with_stack_pair(
            pop_word(*old(registers)),
            pair,
            memory.bus(gpu, interrupts).read_short(old(registers).sp),
        ),
{
    match pair {
        StackPair::BC => handlers::pop_bc(registers, memory, gpu, interrupts),
        StackPair::DE => handlers::pop_de(registers, memory, gpu, interrupts),
        StackPair::HL => handlers::pop_hl(registers, memory, gpu, interrupts),
        StackPair::AF => handlers::pop_af(registers, memory, gpu, interrupts),
    }
}

/// Pushes the pair `pair` on the stack.
pub fn push_pair(
    pair: StackPair,
    registers: &mut Registers,
    memory: &mut Memory,
    gpu: &mut Gpu,
    interrupts: &mut Interrupts,
)
    requires
        word_writable(old(registers).sp.wrapping_sub(2)),
    ensures
        (*final(registers), final(memory).bus(final(gpu), final(interrupts))) == push_word(
            *old(registers),
            old(memory).bus(old(gpu), old(interrupts)),
            stack_pair(*old(registers), pair),
        ),
{
    match pair {
        StackPair::BC => handlers::push_bc(registers, memory, gpu, interrupts),
        StackPair::DE => handlers::push_de(registers, memory, gpu, interrupts),
        StackPair::HL => handlers::push_hl(registers, memory, gpu, interrupts),
        StackPair::AF => handlers::push_af(registers, memory, gpu, interrupts),
    }
}

/// Calls the routine at `vector`: pushes the program counter and continues
/// there.
pub fn restart(
    vector: u8,
    registers: &mut Registers,
    memory: &mut Memory,
    gpu: &mut Gpu,
    interrupts: &mut Interrupts,
)
    requires
        vector % 8 == 0,
        vector < 0x40,
        word_writable(old(registers).sp.wrapping_sub(2)),
    ensures
        (*final(registers), final(memory).bus(final(gpu), final(interrupts))) == rst_spec(
            *old(registers),
            old(memory).bus(old(gpu), old(interrupts)),
            vector as u16,
        ),
{
    match vector {
        0x00 => handlers::rst_0(registers, memory, gpu, interrupts),
        0x08 => handlers::rst_08(registers, memory, gpu, interrupts),
        0x10 => handlers::rst_10(registers, memory, gpu, interrupts),
        0x18 => handlers::rst_18(registers, memory, gpu, interrupts),
        0x20 => handlers::rst_20(registers, memory, gpu, interrupts),
        0x28 => handlers::rst_28(registers, memory, gpu, interrupts),
        0x30 => handlers::rst_30(registers, memory, gpu, interrupts),
        _ => handlers::rst_38(registers, memory, gpu, interrupts),
    }
}

impl Cpu {
    /// The machine that this CPU forms with its surroundings.
    pub open spec fn machine(
        &self,
        memory: &Memory,
        registers: &Registers,
        ticks: u32,
        gpu: &Gpu,
        interrupts: &Interrupts,
    ) -> Machine {
        Machine {
            registers: *registers,
            bus: memory.bus(gpu, interrupts),
            ticks,
            stopped: self.stopped,
        }
    }

    /// Clears the stop latch.
    pub fn resume(&mut self)
        ensures
            !final(self).stopped,
    {
        self.stopped = false;
    }

    /// Whether the instruction writes nowhere but where writing is allowed.
    pub fn permits(
        &self,
        instruction: Instruction,
        memory: &Memory,
        registers: &Registers,
        gpu: &Gpu,
        interrupts: &Interrupts,
    ) -> (r: bool)
        ensures
            r == self.machine(memory, registers, 0, gpu, interrupts).permits(instruction),
    {
        match instruction {
            Instruction::LdHlR { .. } => is_writable(registers.get_hl()),
            Instruction::LddHlA => is_writable(registers.get_hl()),
            Instruction::LdBcA => is_writable(registers.get_bc()),
            Instruction::LdDeA => is_writable(registers.get_de()),
            Instruction::LdNnSp => is_word_writable(
                memory.read_short(registers.pc, gpu, interrupts),
            ),
            Instruction::Push { .. } => is_word_writable(registers.sp.wrapping_sub(2)),
            Instruction::Rst { .. } => is_word_writable(registers.sp.wrapping_sub(2)),
            _ => true,
        }
    }

    /// Whether `step` may be handed `opcode`: whether the CPU is stopped or
    /// the instruction writes nowhere but where writing is allowed.
    pub fn accepts(
        &self,
        opcode: u8,
        memory: &Memory,
        registers: &Registers,
        gpu: &Gpu,
        interrupts: &Interrupts,
    ) -> (r: bool)
        ensures
            r == self.machine(memory, registers, 0, gpu, interrupts).accepts(opcode),
    {
        self.stopped || self.permits(decode_opcode(opcode), memory, registers, gpu, interrupts)
    }

    /// Performs a load or a store.
    fn transfer(
        &self,
        instruction: Instruction,
        memory: &mut Memory,
        registers: &mut Registers,
        ticks: &mut u32,
        gpu: &mut Gpu,
        interrupts: &mut Interrupts,
    )
        requires
            instruction.valid(),
            self.machine(
                old(memory),
                old(registers),
                *old(ticks),
                old(gpu),
                old(interrupts),
            ).permits(instruction),
        ensures
            self.machine(
                final(memory),
                final(registers),
                *final(ticks),
                final(gpu),
                final(interrupts),
            ) == self.machine(
                old(memory),
                old(registers),
                *old(ticks),
                old(gpu),
                old(interrupts),
            ).transfer(instruction),
    {
        proof {
            reveal(Machine::transfer);
        }
        match instruction {
            Instruction::LdRR { dst, src } => load_register(dst, src, registers),
            Instruction::LdRHl { dst } => load_from_hl(dst, registers, memory, gpu, interrupts),
            Instruction::LdHlR { src } => store_to_hl(src, registers, memory, gpu, interrupts),
            Instruction::LdRN { dst } => load_immediate(
                dst,
                memory.read_byte(registers.pc, gpu, interrupts),
                registers,
            ),
            Instruction::LdPairNn { target } => load_pair(
                target,
                memory.read_short(registers.pc, gpu, interrupts),
                registers,
            ),
            Instruction::LdBcA => handlers::ld_bc_a(registers, memory, gpu, interrupts),
            Instruction::LdDeA => handlers::ld_de_a(registers, memory, gpu, interrupts),
            Instruction::LdABc => handlers::ld_a_bc(registers, memory, gpu, interrupts),
            Instruction::LdNnSp => {
                let address: u16 = memory.read_short(registers.pc, gpu, interrupts);
                handlers::ld_nn_sp(address, registers, memory, gpu, interrupts);
            },
            Instruction::LddHlA => handlers::ldd_hlp_a(registers, memory, gpu, interrupts),
            Instruction::LdAFfC => handlers::ld_a_ff_c(registers, memory, gpu, interrupts),
            Instruction::LdSpHl => handlers::ld_sp_hl(registers),
            _ => {},
        }
    }

    /// Performs an instruction of the arithmetic unit.
    fn compute(
        &self,
        instruction: Instruction,
        memory: &mut Memory,
        registers: &mut Registers,
        ticks: &mut u32,
        gpu: &mut Gpu,
        interrupts: &mut Interrupts,
    )
        requires
            instruction.valid(),
            self.machine(
                old(memory),
                old(registers),
                *old(ticks),
                old(gpu),
                old(interrupts),
            ).permits(instruction),
        ensures
            self.machine(
                final(memory),
                final(registers),
                *final(ticks),
                final(gpu),
                final(interrupts),
            ) == self.machine(
                old(memory),
                old(registers),
                *old(ticks),
                old(gpu),
                old(interrupts),
            ).compute(instruction),
    {
        proof {
            reveal(Machine::compute);
        }
        match instruction {
            Instruction::Inc { reg } => increment(reg, registers),
            Instruction::Dec { reg } => decrement(reg, registers),
            Instruction::DecBc => handlers::dec_bc(registers),
            Instruction::IncSp => handlers::inc_sp(registers),
            Instruction::DecSp => handlers::dec_sp(registers),
            Instruction::Rrca => handlers::rrca(registers),
            Instruction::Rra => handlers::rra(registers),
            Instruction::Cpl => handlers::cpl(registers),
            Instruction::Scf => handlers::scf(registers),
            Instruction::Ccf => handlers::ccf(registers),
            Instruction::Alu { op, src } => operate(op, src, registers),
            Instruction::AluHl { .. } => handlers::add_hl(registers, memory, gpu, interrupts),
            Instruction::AluN { op } => operate_immediate(
                op,
                memory.read_byte(registers.pc, gpu, interrupts),
                registers,
            ),
            _ => {},
        }
    }

    /// Performs a push, a pop, a call or a return.
    fn stack(
        &self,
        instruction: Instruction,
        memory: &mut Memory,
        registers: &mut Registers,
        ticks: &mut u32,
        gpu: &mut Gpu,
        interrupts: &mut Interrupts,
    )
        requires
            instruction.valid(),
            self.machine(
                old(memory),
                old(registers),
                *old(ticks),
                old(gpu),
                old(interrupts),
            ).permits(instruction),
        ensures
            self.machine(
                final(memory),
                final(registers),
                *final(ticks),
                final(gpu),
                final(interrupts),
            ) == self.machine(
                old(memory),
                old(registers),
                *old(ticks),
                old(gpu),
                old(interrupts),
            ).stack(instruction),
    {
        proof {
            reveal(Machine::stack);
        }
        match instruction {
            Instruction::Pop { pair } => pop_pair(pair, registers, memory, gpu, interrupts),
            Instruction::Push { pair } => push_pair(pair, registers, memory, gpu, interrupts),
            Instruction::Rst { vector } => restart(vector, registers, memory, gpu, interrupts),
            Instruction::Ret => handlers::ret(registers, memory, gpu, interrupts),
            Instruction::RetNz => handlers::ret_nz(registers, memory, ticks, gpu, interrupts),
            Instruction::RetC => handlers::ret_c(registers, memory, ticks, gpu, interrupts),
            Instruction::Reti => interrupts.return_from_interrupt(registers, memory, gpu),
            _ => {},
        }
    }

    /// Performs a jump or an instruction on the state of the CPU.
    fn flow(
        &mut self,
        instruction: Instruction,
        memory: &mut Memory,
        registers: &mut Registers,
        ticks: &mut u32,
        gpu: &mut Gpu,
        interrupts: &mut Interrupts,
    )
        requires
            instruction.valid(),
            old(self).machine(
                old(memory),
                old(registers),
                *old(ticks),
                old(gpu),
                old(interrupts),
            ).permits(instruction),
        ensures
            final(self).machine(
                final(memory),
                final(registers),
                *final(ticks),
                final(gpu),
                final(interrupts),
            ) == old(self).machine(
                old(memory),
                old(registers),
                *old(ticks),
                old(gpu),
                old(interrupts),
            ).flow(instruction),
    {
        proof {
            reveal(Machine::flow);
        }
        match instruction {
            Instruction::Nop => handlers::nop(),
            Instruction::Stop => {
                registers.pc = registers.pc.wrapping_add(1);
                self.stopped = true;
            },
            Instruction::Halt => handlers::halt(registers, interrupts),
            Instruction::Jr { cond } => branch(
                cond,
                memory.read_byte(registers.pc, gpu, interrupts),
                registers,
                ticks,
            ),
            Instruction::JpNzNn => handlers::jp_nz_nn(
                memory.read_short(registers.pc, gpu, interrupts),
                registers,
                ticks,
            ),
            Instruction::JpNcNn => handlers::jp_nc_nn(
                memory.read_short(registers.pc, gpu, interrupts),
                registers,
                ticks,
            ),
            Instruction::JpNn => handlers::jp_nn(
                memory.read_short(registers.pc, gpu, interrupts),
                registers,
            ),
            Instruction::JpHl => handlers::jp_hl(registers),
            Instruction::Di => handlers::di(interrupts),
            Instruction::Ei => handlers::ei(interrupts),
            _ => {},
        }
    }

    /// Performs one instruction, the program counter standing behind the
    /// opcode. The base cost is not counted here.
    pub fn execute(
        &mut self,
        instruction: Instruction,
        memory: &mut Memory,
        registers: &mut Registers,
        ticks: &mut u32,
        gpu: &mut Gpu,
        interrupts: &mut Interrupts,
    )
        requires
            instruction.valid(),
            old(self).machine(
                old(memory),
                old(registers),
                *old(ticks),
                old(gpu),
                old(interrupts),
            ).permits(instruction),
        ensures
            final(self).machine(
                final(memory),
                final(registers),
                *final(ticks),
                final(gpu),
                final(interrupts),
            ) == old(self).machine(
                old(memory),
                old(registers),
                *old(ticks),
                old(gpu),
                old(interrupts),
            ).effect(instruction),
    {
        match instruction {
            Instruction::LdRR { .. } | Instruction::LdRHl { .. } | Instruction::LdHlR { .. }
            | Instruction::LdRN { .. } | Instruction::LdPairNn { .. } | Instruction::LdBcA
            | Instruction::LdDeA | Instruction::LdABc | Instruction::LdNnSp
            | Instruction::LddHlA | Instruction::LdAFfC | Instruction::LdSpHl => {
                self.transfer(instruction, memory, registers, ticks, gpu, interrupts)
            },
            Instruction::Inc { .. } | Instruction::Dec { .. } | Instruction::DecBc
            | Instruction::IncSp | Instruction::DecSp | Instruction::Rrca | Instruction::Rra
            | Instruction::Cpl | Instruction::Scf | Instruction::Ccf | Instruction::Alu { .. }
            | Instruction::AluHl { .. } | Instruction::AluN { .. } => {
                self.compute(instruction, memory, registers, ticks, gpu, interrupts)
            },
            Instruction::Pop { .. } | Instruction::Push { .. } | Instruction::Rst { .. }
            | Instruction::Ret | Instruction::RetNz | Instruction::RetC | Instruction::Reti => {
                self.stack(instruction, memory, registers, ticks, gpu, interrupts)
            },
            Instruction::Nop | Instruction::Stop | Instruction::Halt | Instruction::Jr { .. }
            | Instruction::JpNzNn | Instruction::JpNcNn | Instruction::JpNn | Instruction::JpHl
            | Instruction::Di | Instruction::Ei | Instruction::Unsupported => {
                self.flow(instruction, memory, registers, ticks, gpu, interrupts)
            },
        }
    }

    /// Executes the instruction that `opcode` stands for, the program counter
    /// standing behind the opcode, and adds the instruction's base cost to
    /// the ticks. Does nothing while the CPU is stopped, and nothing for an
    /// opcode without a handler.
    pub fn step(
        &mut self,
        opcode: u8,
        memory: &mut Memory,
        registers: &mut Registers,
        ticks: &mut u32,
        gpu: &mut Gpu,
        interrupts: &mut Interrupts,
    ) -> (outcome: Dispatch)
        requires
            old(self).machine(
                old(memory),
                old(registers),
                *old(ticks),
                old(gpu),
                old(interrupts),
            ).accepts(opcode),
        ensures
            final(self).machine(
                final(memory),
                final(registers),
                *final(ticks),
                final(gpu),
                final(interrupts),
            ) == old(self).machine(
                old(memory),
                old(registers),
                *old(ticks),
                old(gpu),
                old(interrupts),
            ).step(opcode),
            outcome == if old(self).stopped {
                Dispatch::Stopped
            } else if decode(opcode) == Instruction::Unsupported {
                Dispatch::Unsupported
            } else {
                Dispatch::Executed
            },
    {
        if self.stopped {
            return Dispatch::Stopped;
        }
        let instruction = decode_opcode(opcode);
        self.execute(instruction, memory, registers, ticks, gpu, interrupts);
        *ticks = ticks.wrapping_add(instruction_ticks(opcode) as u32);
        match instruction {
            Instruction::Unsupported => Dispatch::Unsupported,
            _ => Dispatch::Executed,
        }
    }
}

} // verus!
