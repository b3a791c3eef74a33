//! What an instruction does, stated over a model of the machine: the register
//! file, the bus, the tick count and the stop latch.

use vstd::prelude::*;
use crate::alu::{
    adc_spec, add_spec, and_spec, carry_in, cp_spec, dec_flags, dec_value, inc_flags, inc_value,
    lemma_add_flags, lemma_alu_flags, lemma_inc_dec, or_spec, sbc_spec, sub_spec, xor_spec,
};
use crate::bus::{
    lemma_write_frame, lemma_write_short_frame, pop_word, push_word, word_writable, writable, Bus,
};
use crate::instruction::{
    base_cost, decode, operand_length, AluOp, Condition, Instruction, Pair, StackPair,
};
use crate::interrupts::resume;
use crate::registers::{
    lemma_flag_assignment, lemma_pair_round_trip, lemma_with_flags, Reg8, Registers,
};

verus! {

/// Ticks that a relative jump costs more when it is taken.
pub const JR_TAKEN_TICKS: u32 = 4;

/// Ticks that an absolute conditional jump costs more when it is taken.
pub const JP_TAKEN_TICKS: u32 = 4;

/// Ticks that a conditional return costs more when it is taken.
pub const RET_TAKEN_TICKS: u32 = 12;

/// The machine that instructions work on.
pub struct Machine {
    pub registers: Registers,
    pub bus: Bus,
    /// Ticks spent so far, counted modulo 2^32.
    pub ticks: u32,
    /// The CPU has executed a stop and waits to be resumed.
    pub stopped: bool,
}

/// The registers after A is rotated right by one bit: bit 0 goes to bit 7
/// and to the carry flag, the other flags are cleared.
pub open spec fn rrca_spec(r: Registers) -> Registers {
    let carry = r.a & 0x01 != 0;
    let rotated = if carry {
        (r.a >> 1) | 0x80
    } else {
        r.a >> 1
    };
    Registers { a: rotated, ..r }.with_flags(false, false, false, carry)
}

/// The registers after A is rotated right through the carry flag: the carry
/// flag goes to bit 7, bit 0 goes to the carry flag, the other flags are
/// cleared.
pub open spec fn rra_spec(r: Registers) -> Registers {
    let high: u8 = if r.carry_flag() {
        0x80
    } else {
        0
    };
    Registers { a: (r.a >> 1) | high, ..r }.with_flags(false, false, false, r.a & 0x01 != 0)
}

/// The registers after A is complemented: the subtract and half-carry flags
/// are set.
pub open spec fn cpl_spec(r: Registers) -> Registers {
    Registers { a: !r.a, ..r }.with_subtract_flag(true).with_half_carry_flag(true)
}

/// The registers after the carry flag is set: the subtract and half-carry
/// flags are cleared.
pub open spec fn scf_spec(r: Registers) -> Registers {
    r.with_subtract_flag(false).with_half_carry_flag(false).with_carry_flag(true)
}

/// The registers after the subtract and half-carry flags are cleared. The
/// carry flag stays as it is.
pub open spec fn ccf_spec(r: Registers) -> Registers {
    r.with_subtract_flag(false).with_half_carry_flag(false)
}

/// The registers with `pair` holding `val`.
pub open spec fn with_pair(r: Registers, pair: Pair, val: u16) -> Registers {
    match pair {
        Pair::BC => r.with_bc(val),
        Pair::DE => r.with_de(val),
        Pair::HL => r.with_hl(val),
        Pair::SP => r.with_sp(val),
    }
}

/// The value of a pair that can be pushed.
pub open spec fn stack_pair(r: Registers, pair: StackPair) -> u16 {
    match pair {
        StackPair::BC => r.bc(),
        StackPair::DE => r.de(),
        StackPair::HL => r.hl(),
        StackPair::AF => r.af(),
    }
}

/// The registers with a pair that can be popped holding `val`.
pub open spec fn with_stack_pair(r: Registers, pair: StackPair, val: u16) -> Registers {
    match pair {
        StackPair::BC => r.with_bc(val),
        StackPair::DE => r.with_de(val),
        StackPair::HL => r.with_hl(val),
        StackPair::AF => r.with_af(val),
    }
}

/// The registers after an operation of the arithmetic unit on A and `val`.
pub open spec fn alu(op: AluOp, r: Registers, val: u8) -> Registers {
    match op {
        AluOp::Add => add_spec(r, val),
        AluOp::Adc => adc_spec(r, val),
        AluOp::Sub => sub_spec(r, val),
        AluOp::Sbc => sbc_spec(r, val),
        AluOp::And => and_spec(r, val),
        AluOp::Xor => xor_spec(r, val),
        AluOp::Or => or_spec(r, val),
        AluOp::Cp => cp_spec(r, val),
    }
}

/// Whether a condition holds of the flags.
pub open spec fn holds(cond: Condition, r: Registers) -> bool {
    match cond {
        Condition::NotZero => !r.zero_flag(),
        Condition::Zero => r.zero_flag(),
        Condition::NotCarry => !r.carry_flag(),
        Condition::Carry => r.carry_flag(),
    }
}

/// Registers and ticks after a relative jump with the operand `val`: the
/// program counter moves past the operand and, if the jump is `taken`,
/// forward by `val`, which costs four ticks more.
pub open spec fn jump_relative(r: Registers, ticks: u32, val: u8, taken: bool) -> (
    Registers,
    u32,
) {
    if taken {
        (r.advance_pc(1).advance_pc(val as u16), ticks.wrapping_add(JR_TAKEN_TICKS))
    } else {
        (r.advance_pc(1), ticks)
    }
}

/// Registers and ticks after the jump on a clear zero flag: the program
/// counter moves past the operand and, if the flag is clear, forward by
/// `val`.
pub open spec fn jp_nz_spec(r: Registers, ticks: u32, val: u16) -> (Registers, u32) {
    if r.zero_flag() {
        (r.advance_pc(2), ticks)
    } else {
        (r.advance_pc(2).advance_pc(val), ticks.wrapping_add(JP_TAKEN_TICKS))
    }
}

/// Registers and ticks after the jump on a clear carry flag: the program
/// counter goes to `val` if the flag is clear and past the operand if not.
pub open spec fn jp_nc_spec(r: Registers, ticks: u32, val: u16) -> (Registers, u32) {
    if !r.carry_flag() {
        (r.with_pc(val), ticks.wrapping_add(JP_TAKEN_TICKS))
    } else {
        (r.advance_pc(2), ticks)
    }
}

/// Registers and ticks after the return on a clear zero flag: if the flag is
/// clear a word is popped and the program counter moves forward by it.
pub open spec fn ret_nz_spec(r: Registers, bus: Bus, ticks: u32) -> (Registers, u32) {
    if r.zero_flag() {
        (r, ticks)
    } else {
        (
            pop_word(r).advance_pc(bus.read_short(r.sp)),
            ticks.wrapping_add(RET_TAKEN_TICKS),
        )
    }
}

/// Registers and ticks after the return on a set carry flag: if the flag is
/// set a word is popped into the program counter.
pub open spec fn ret_c_spec(r: Registers, bus: Bus, ticks: u32) -> (Registers, u32) {
    if r.carry_flag() {
        (pop_word(r).with_pc(bus.read_short(r.sp)), ticks.wrapping_add(RET_TAKEN_TICKS))
    } else {
        (r, ticks)
    }
}

/// Registers and bus after a call of the routine at `vector`: the program
/// counter is pushed and set to `vector`.
pub open spec fn rst_spec(r: Registers, bus: Bus, vector: u16) -> (Registers, Bus) {
    let (pushed, written) = push_word(r, bus, r.pc);
    (pushed.with_pc(vector), written)
}

/// The four kinds of instructions.
#[derive(Clone, Copy, Debug, PartialEq, Eq, Structural)]
pub enum Kind {
    /// Loads and stores.
    Transfer,
    /// The arithmetic unit.
    Compute,
    /// Pushes, pops, calls and returns.
    Stack,
    /// Jumps, and the state of the CPU.
    Flow,
}

/// The kind of an instruction.
pub open spec fn kind(instruction: Instruction) -> Kind {
    match instruction {
        Instruction::LdRR { .. } | Instruction::LdRHl { .. } | Instruction::LdHlR { .. }
        | Instruction::LdRN { .. } | Instruction::LdPairNn { .. } | Instruction::LdBcA
        | Instruction::LdDeA | Instruction::LdABc | Instruction::LdNnSp | Instruction::LddHlA
        | Instruction::LdAFfC | Instruction::LdSpHl => Kind::Transfer,
        Instruction::Inc { .. } | Instruction::Dec { .. } | Instruction::DecBc
        | Instruction::IncSp | Instruction::DecSp | Instruction::Rrca | Instruction::Rra
        | Instruction::Cpl | Instruction::Scf | Instruction::Ccf | Instruction::Alu { .. }
        | Instruction::AluHl { .. } | Instruction::AluN { .. } => Kind::Compute,
        Instruction::Pop { .. } | Instruction::Push { .. } | Instruction::Rst { .. }
        | Instruction::Ret | Instruction::RetNz | Instruction::RetC | Instruction::Reti => {
            Kind::Stack
        },
        Instruction::Nop | Instruction::Stop | Instruction::Halt | Instruction::Jr { .. }
        | Instruction::JpNzNn | Instruction::JpNcNn | Instruction::JpNn | Instruction::JpHl
        | Instruction::Di | Instruction::Ei | Instruction::Unsupported => Kind::Flow,
    }
}

impl Machine {
    /// The byte behind the opcode.
    pub open spec fn operand8(self) -> u8 {
        self.bus.read(self.registers.pc)
    }

    /// The word behind the opcode.
    pub open spec fn operand16(self) -> u16 {
        self.bus.read_short(self.registers.pc)
    }

    /// This machine with other registers.
    pub open spec fn with_registers(self, registers: Registers) -> Machine {
        Machine { registers, ..self }
    }

    /// This machine with another bus.
    pub open spec fn with_bus(self, bus: Bus) -> Machine {
        Machine { bus, ..self }
    }

    /// This machine with other registers and another tick count.
    pub open spec fn with_registers_ticks(self, pair: (Registers, u32)) -> Machine {
        Machine { registers: pair.0, ticks: pair.1, ..self }
    }

    /// This machine with other registers and another bus.
    pub open spec fn with_registers_bus(self, pair: (Registers, Bus)) -> Machine {
        Machine { registers: pair.0, bus: pair.1, ..self }
    }

    /// This machine after `ticks` more ticks.
    pub open spec fn spend(self, ticks: u32) -> Machine {
        Machine { ticks: self.ticks.wrapping_add(ticks), ..self }
    }

    /// This machine with the interrupt master switch set to `master`.
    pub open spec fn with_master(self, master: u8) -> Machine {
        Machine {
            bus: Bus { interrupts: self.bus.interrupts.with_master(master), ..self.bus },
            ..self
        }
    }

    /// The instruction writes nowhere but where writing is allowed.
    pub open spec fn permits(self, instruction: Instruction) -> bool {
        let r = self.registers;
        match instruction {
            Instruction::LdHlR { .. } => writable(r.hl()),
            Instruction::LddHlA => writable(r.hl()),
            Instruction::LdBcA => writable(r.bc()),
            Instruction::LdDeA => writable(r.de()),
            Instruction::LdNnSp => word_writable(self.operand16()),
            Instruction::Push { .. } => word_writable(r.sp.wrapping_sub(2)),
            Instruction::Rst { .. } => word_writable(r.sp.wrapping_sub(2)),
            _ => true,
        }
    }

    /// What a load or a store does. Any other instruction does nothing here.
    #[verifier::opaque]
    pub open spec fn transfer(self, instruction: Instruction) -> Machine {
        let r = self.registers;
        let bus = self.bus;
        match instruction {
            Instruction::LdRR { dst, src } => self.with_registers(r.with_reg(dst, r.reg(src))),
            Instruction::LdRHl { dst } => self.with_registers(r.with_reg(dst, bus.read(r.hl()))),
            Instruction::LdHlR { src } => self.with_bus(bus.write(r.hl(), r.reg(src))),
            Instruction::LdRN { dst } => self.with_registers(
                r.advance_pc(1).with_reg(dst, self.operand8()),
            ),
            Instruction::LdPairNn { target } => self.with_registers(
                with_pair(r.advance_pc(2), target, self.operand16()),
            ),
            Instruction::LdBcA => self.with_bus(bus.write(r.bc(), r.a)),
            Instruction::LdDeA => self.with_bus(bus.write(r.de(), r.a)),
            Instruction::LdABc => self.with_registers(r.with_reg(Reg8::A, bus.read(r.bc()))),
            Instruction::LdNnSp => Machine {
                registers: r.advance_pc(2),
                bus: bus.write_short(self.operand16(), r.sp),
                ..self
            },
            Instruction::LddHlA => self.with_bus(bus.write(r.hl(), r.a)),
            Instruction::LdAFfC => self.with_registers(
                r.advance_pc(1).with_reg(Reg8::A, bus.read(0xff00).wrapping_add(r.c)),
            ),
            Instruction::LdSpHl => self.with_registers(r.with_sp(r.hl())),
            _ => self,
        }
    }

    /// What an instruction of the arithmetic unit does: operations on A,
    /// increments and decrements, rotations and flag instructions. Any other
    /// instruction does nothing here.
    #[verifier::opaque]
    pub open spec fn compute(self, instruction: Instruction) -> Machine {
        let r = self.registers;
        let bus = self.bus;
        match instruction {
            Instruction::Inc { reg } => self.with_registers(
                inc_flags(r.reg(reg), r).with_reg(reg, inc_value(r.reg(reg))),
            ),
            Instruction::Dec { reg } => self.with_registers(
                dec_flags(r.reg(reg), r).with_reg(reg, dec_value(r.reg(reg))),
            ),
            Instruction::DecBc => self.with_registers(r.with_bc(r.bc().wrapping_sub(1))),
            Instruction::IncSp => self.with_registers(r.with_sp(r.sp.wrapping_add(1))),
            Instruction::DecSp => self.with_registers(r.with_sp(r.sp.wrapping_sub(1))),
            Instruction::Rrca => self.with_registers(rrca_spec(r)),
            Instruction::Rra => self.with_registers(rra_spec(r)),
            Instruction::Cpl => self.with_registers(cpl_spec(r)),
            Instruction::Scf => self.with_registers(scf_spec(r)),
            Instruction::Ccf => self.with_registers(ccf_spec(r)),
            Instruction::Alu { op, src } => self.with_registers(alu(op, r, r.reg(src))),
            Instruction::AluHl { op } => self.with_registers(alu(op, r, bus.read(r.hl()))),
            Instruction::AluN { op } => self.with_registers(
                alu(op, r.advance_pc(1), self.operand8()),
            ),
            _ => self,
        }
    }

    /// What an instruction does that works on the stack: pushes, pops, calls
    /// and returns. Any other instruction does nothing here.
    #[verifier::opaque]
    pub open spec fn stack(self, instruction: Instruction) -> Machine {
        let r = self.registers;
        let bus = self.bus;
        match instruction {
            Instruction::Pop { pair } => self.with_registers(
                with_stack_pair(pop_word(r), pair, bus.read_short(r.sp)),
            ),
            Instruction::Push { pair } => self.with_registers_bus(
                push_word(r, bus, stack_pair(r, pair)),
            ),
            Instruction::Rst { vector } => self.with_registers_bus(
                rst_spec(r, bus, vector as u16),
            ),
            Instruction::Ret => self.with_registers(pop_word(r).with_pc(bus.read_short(r.sp))),
            Instruction::RetNz => self.with_registers_ticks(ret_nz_spec(r, bus, self.ticks)),
            Instruction::RetC => self.with_registers_ticks(ret_c_spec(r, bus, self.ticks)),
            Instruction::Reti => self.with_registers(resume(r, bus)).with_master(1),
            _ => self,
        }
    }

    /// What a jump or an instruction on the state of the CPU does. Any other
    /// instruction does nothing here.
    #[verifier::opaque]
    pub open spec fn flow(self, instruction: Instruction) -> Machine {
        let r = self.registers;
        let bus = self.bus;
        match instruction {
            Instruction::Stop => Machine { registers: r.advance_pc(1), stopped: true, ..self },
            Instruction::Halt => if bus.interrupts.master != 0 {
                self.with_registers(r.advance_pc(1))
            } else {
                self
            },
            Instruction::Jr { cond } => self.with_registers_ticks(
                jump_relative(r, self.ticks, self.operand8(), holds(cond, r)),
            ),
            Instruction::JpNzNn => self.with_registers_ticks(
                jp_nz_spec(r, self.ticks, self.operand16()),
            ),
            Instruction::JpNcNn => self.with_registers_ticks(
                jp_nc_spec(r, self.ticks, self.operand16()),
            ),
            Instruction::JpNn => self.with_registers(r.with_pc(self.operand16())),
            Instruction::JpHl => self.with_registers(r.with_pc(r.hl())),
            Instruction::Di => self.with_master(0),
            Instruction::Ei => self.with_master(1),
            _ => self,
        }
    }

    /// The machine after the instruction has done its work, the program
    /// counter standing behind the opcode at the start. The base cost is not
    /// counted here.
    pub open spec fn effect(self, instruction: Instruction) -> Machine {
        match kind(instruction) {
            Kind::Transfer => self.transfer(instruction),
            Kind::Compute => self.compute(instruction),
            Kind::Stack => self.stack(instruction),
            Kind::Flow => self.flow(instruction),
        }
    }

    /// The machine after the CPU has been handed `opcode`: nothing happens
    /// while the CPU is stopped; otherwise the instruction does its work and
    /// its base cost is added to the ticks.
    pub open spec fn step(self, opcode: u8) -> Machine {
        if self.stopped {
            self
        } else {
            self.effect(decode(opcode)).spend(base_cost(decode(opcode)) as u32)
        }
    }

    /// The CPU can be handed `opcode`: it is stopped, or the instruction
    /// writes nowhere but where writing is allowed.
    pub open spec fn accepts(self, opcode: u8) -> bool {
        self.stopped || self.permits(decode(opcode))
    }
}

/// What no instruction changes: the sizes of the storage regions, the
/// cartridge ROM, and what the display timer counts. An instruction also
/// keeps a well-formed register file well formed.
pub proof fn lemma_effect_frame(m: Machine, instruction: Instruction)
    requires
        m.bus.wf(),
    ensures
        m.effect(instruction).bus.wf(),
        m.effect(instruction).bus.memory.cartridge == m.bus.memory.cartridge,
        m.effect(instruction).bus.gpu.scanline == m.bus.gpu.scanline,
        m.effect(instruction).bus.gpu.mode == m.bus.gpu.mode,
        m.effect(instruction).bus.gpu.tick == m.bus.gpu.tick,
        m.effect(instruction).bus.gpu.last_ticks == m.bus.gpu.last_ticks,
        m.registers.wf() ==> m.effect(instruction).registers.wf(),
{
    reveal(Machine::transfer);
    reveal(Machine::compute);
    reveal(Machine::stack);
    reveal(Machine::flow);
    let r = m.registers;
    let bus = m.bus;
    match instruction {
        Instruction::LdHlR { src } => {
            lemma_write_frame(bus, r.hl(), r.reg(src));
        },
        Instruction::LdBcA => {
            lemma_write_frame(bus, r.bc(), r.a);
        },
        Instruction::LdDeA => {
            lemma_write_frame(bus, r.de(), r.a);
        },
        Instruction::LddHlA => {
            lemma_write_frame(bus, r.hl(), r.a);
        },
        Instruction::LdNnSp => {
            lemma_write_short_frame(bus, m.operand16(), r.sp);
        },
        Instruction::Push { pair } => {
            lemma_write_short_frame(bus, r.sp.wrapping_sub(2), stack_pair(r, pair));
        },
        Instruction::Rst { vector } => {
            lemma_write_short_frame(bus, r.sp.wrapping_sub(2), r.pc);
        },
        Instruction::Pop { pair } => {
            lemma_pair_round_trip(pop_word(r), bus.read_short(r.sp));
        },
        Instruction::Inc { reg } => {
            lemma_inc_dec(r.reg(reg), r);
        },
        Instruction::Dec { reg } => {
            lemma_inc_dec(r.reg(reg), r);
        },
        Instruction::Alu { op, src } => {
            lemma_alu_wf(op, r, r.reg(src));
        },
        Instruction::AluHl { op } => {
            lemma_alu_wf(op, r, bus.read(r.hl()));
        },
        Instruction::AluN { op } => {
            lemma_alu_wf(op, r.advance_pc(1), m.operand8());
        },
        Instruction::Rrca => {
            let carry = r.a & 0x01 != 0;
            let rotated = if carry {
                (r.a >> 1) | 0x80
            } else {
                r.a >> 1
            };
            lemma_with_flags(Registers { a: rotated, ..r }, false, false, false, carry);
        },
        Instruction::Rra => {
            let high: u8 = if r.carry_flag() {
                0x80
            } else {
                0
            };
            lemma_with_flags(
                Registers { a: (r.a >> 1) | high, ..r },
                false,
                false,
                false,
                r.a & 0x01 != 0,
            );
        },
        Instruction::Cpl => {
            let c = Registers { a: !r.a, ..r };
            lemma_flag_assignment(c, true);
            lemma_flag_assignment(c.with_subtract_flag(true), true);
        },
        Instruction::Scf => {
            lemma_flag_assignment(r, false);
            lemma_flag_assignment(r.with_subtract_flag(false), false);
            lemma_flag_assignment(
                r.with_subtract_flag(false).with_half_carry_flag(false),
                true,
            );
        },
        Instruction::Ccf => {
            lemma_flag_assignment(r, false);
            lemma_flag_assignment(r.with_subtract_flag(false), false);
        },
        _ => {},
    }
}

/// An operation of the arithmetic unit keeps a well-formed register file
/// well formed.
pub proof fn lemma_alu_wf(op: AluOp, r: Registers, val: u8)
    ensures
        alu(op, r, val).wf() == r.wf(),
{
    lemma_add_flags(r, val);
    lemma_alu_flags(r, val);
}

/// A step of the CPU keeps what no instruction changes.
pub proof fn lemma_step_frame(m: Machine, opcode: u8)
    requires
        m.bus.wf(),
    ensures
        m.step(opcode).bus.wf(),
        m.step(opcode).bus.memory.cartridge == m.bus.memory.cartridge,
        m.step(opcode).bus.gpu.scanline == m.bus.gpu.scanline,
        m.step(opcode).bus.gpu.mode == m.bus.gpu.mode,
        m.step(opcode).bus.gpu.tick == m.bus.gpu.tick,
        m.step(opcode).bus.gpu.last_ticks == m.bus.gpu.last_ticks,
        m.registers.wf() ==> m.step(opcode).registers.wf(),
{
    lemma_effect_frame(m, decode(opcode));
}

/// The instruction leaves the program counter to the next instruction: it is
/// no jump, call or return that is taken, no stop and no halt, and not the
/// load of A from the I/O block, which moves the program counter on by one.
pub open spec fn falls_through(m: Machine, instruction: Instruction) -> bool {
    match instruction {
        Instruction::Stop => false,
        Instruction::Halt => false,
        Instruction::LdAFfC => false,
        Instruction::Jr { cond } => !holds(cond, m.registers),
        Instruction::RetNz => m.registers.zero_flag(),
        Instruction::RetC => !m.registers.carry_flag(),
        Instruction::Ret => false,
        Instruction::Reti => false,
        Instruction::JpNzNn => m.registers.zero_flag(),
        Instruction::JpNcNn => m.registers.carry_flag(),
        Instruction::JpNn => false,
        Instruction::JpHl => false,
        Instruction::Rst { .. } => false,
        _ => true,
    }
}

/// Operands are skipped: an instruction that leaves the program counter to
/// the next instruction moves it past its operand bytes and no further.
pub proof fn lemma_operands_are_skipped(m: Machine, instruction: Instruction)
    requires
        falls_through(m, instruction),
    ensures
        m.effect(instruction).registers.pc == m.registers.pc.wrapping_add(
            operand_length(instruction) as u16,
        ),
{
    reveal(Machine::transfer);
    reveal(Machine::compute);
    reveal(Machine::stack);
    reveal(Machine::flow);
    let r = m.registers;
    match instruction {
        Instruction::Inc { reg } => {
            lemma_inc_dec(r.reg(reg), r);
        },
        Instruction::Dec { reg } => {
            lemma_inc_dec(r.reg(reg), r);
        },
        Instruction::Alu { op, src } => {
            lemma_alu_keeps_counters(op, r, r.reg(src));
        },
        Instruction::AluHl { op } => {
            lemma_alu_keeps_counters(op, r, m.bus.read(r.hl()));
        },
        Instruction::AluN { op } => {
            lemma_alu_keeps_counters(op, r.advance_pc(1), m.operand8());
        },
        Instruction::Rrca => {
            lemma_with_flags(
                Registers { a: rrca_spec(r).a, ..r },
                false,
                false,
                false,
                r.a & 0x01 != 0,
            );
        },
        Instruction::Rra => {
            lemma_with_flags(
                Registers { a: rra_spec(r).a, ..r },
                false,
                false,
                false,
                r.a & 0x01 != 0,
            );
        },
        _ => {},
    }
}

/// An operation of the arithmetic unit changes A and the flags alone.
pub proof fn lemma_alu_keeps_counters(op: AluOp, r: Registers, val: u8)
    ensures
        alu(op, r, val) == (Registers { a: alu(op, r, val).a, f: alu(op, r, val).f, ..r }),
{
    let a = r.a;
    lemma_with_flags(
        Registers { a: add_spec(r, val).a, ..r },
        add_spec(r, val).a == 0,
        false,
        (a & 0x0f) + (val & 0x0f) > 0x0f,
        a + val > 0xff,
    );
    lemma_with_flags(
        Registers { a: adc_spec(r, val).a, ..r },
        adc_spec(r, val).a == 0,
        false,
        (a & 0x0f) + (val & 0x0f) + carry_in(r) > 0x0f,
        a + val + carry_in(r) > 0xff,
    );
    lemma_with_flags(
        Registers { a: sub_spec(r, val).a, ..r },
        sub_spec(r, val).a == 0,
        true,
        (a & 0x0f) < (val & 0x0f),
        a < val,
    );
    lemma_with_flags(
        Registers { a: sbc_spec(r, val).a, ..r },
        sbc_spec(r, val).a == 0,
        true,
        (a & 0x0f) < (val & 0x0f) + carry_in(r),
        a < val + carry_in(r),
    );
    lemma_with_flags(Registers { a: a & val, ..r }, a & val == 0, false, false, false);
    lemma_with_flags(Registers { a: a | val, ..r }, a | val == 0, false, false, false);
    lemma_with_flags(Registers { a: a ^ val, ..r }, a ^ val == 0, false, false, false);
    lemma_with_flags(r, a == val, true, (a & 0x0f) < (val & 0x0f), a < val);
}

} // verus!
