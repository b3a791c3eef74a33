//! The instruction set: what each of the 256 opcode values stands for.
//!
//! An opcode byte is read as three fields, `x` in bits 7 to 6, `y` in bits 5
//! to 3 and `z` in bits 2 to 0. Registers, register pairs, conditions and
//! operations of the arithmetic unit are numbered by these fields.

use vstd::prelude::*;
use crate::registers::Reg8;

verus! {

/// A register pair that a 16-bit load can fill.
#[derive(Clone, Copy, Debug, PartialEq, Eq, Structural)]
pub enum Pair {
    BC,
    DE,
    HL,
    SP,
}

/// A register pair that can be pushed and popped.
#[derive(Clone, Copy, Debug, PartialEq, Eq, Structural)]
pub enum StackPair {
    BC,
    DE,
    HL,
    AF,
}

/// A condition on the flags.
#[derive(Clone, Copy, Debug, PartialEq, Eq, Structural)]
pub enum Condition {
    NotZero,
    Zero,
    NotCarry,
    Carry,
}

/// An operation of the arithmetic unit on the accumulator.
#[derive(Clone, Copy, Debug, PartialEq, Eq, Structural)]
pub enum AluOp {
    Add,
    Adc,
    Sub,
    Sbc,
    And,
    Xor,
    Or,
    Cp,
}

/// What an opcode asks for.
#[derive(Clone, Copy, Debug, PartialEq, Eq, Structural)]
pub enum Instruction {
    /// Do nothing.
    Nop,
    /// Skip one byte and stop the CPU.
    Stop,
    /// Wait for an interrupt.
    Halt,
    /// Copy one register into another.
    LdRR { dst: Reg8, src: Reg8 },
    /// Load a register from the byte that HL points at.
    LdRHl { dst: Reg8 },
    /// Store a register in the byte that HL points at.
    LdHlR { src: Reg8 },
    /// Load a register from the operand byte.
    LdRN { dst: Reg8 },
    /// Load a pair from the operand word.
    LdPairNn { target: Pair },
    /// Store A in the byte that BC points at.
    LdBcA,
    /// Store A in the byte that DE points at.
    LdDeA,
    /// Load A from the byte that BC points at.
    LdABc,
    /// Store the stack pointer at the address in the operand word.
    LdNnSp,
    /// Store A in the byte that HL points at.
    LddHlA,
    /// Load A with the first byte of the I/O block plus C.
    LdAFfC,
    /// Copy HL into the stack pointer.
    LdSpHl,
    /// Increment a register.
    Inc { reg: Reg8 },
    /// Decrement a register.
    Dec { reg: Reg8 },
    /// Decrement the pair BC.
    DecBc,
    /// Increment the stack pointer.
    IncSp,
    /// Decrement the stack pointer.
    DecSp,
    /// Rotate A right.
    Rrca,
    /// Rotate A right through the carry flag.
    Rra,
    /// Complement A.
    Cpl,
    /// Set the carry flag.
    Scf,
    /// Clear the subtract and half-carry flags.
    Ccf,
    /// Jump forward by the operand byte if the condition holds.
    Jr { cond: Condition },
    /// Operate on A and a register.
    Alu { op: AluOp, src: Reg8 },
    /// Operate on A and the byte that HL points at.
    AluHl { op: AluOp },
    /// Operate on A and the operand byte.
    AluN { op: AluOp },
    /// Return if the zero flag is clear.
    RetNz,
    /// Return if the carry flag is set.
    RetC,
    /// Return.
    Ret,
    /// Return from an interrupt handler.
    Reti,
    /// Jump by the operand word if the zero flag is clear.
    JpNzNn,
    /// Jump to the operand word if the carry flag is clear.
    JpNcNn,
    /// Jump to the operand word.
    JpNn,
    /// Jump to the address in HL.
    JpHl,
    /// Pop a pair off the stack.
    Pop { pair: StackPair },
    /// Push a pair on the stack.
    Push { pair: StackPair },
    /// Call the routine at a fixed address in the first page.
    Rst { vector: u8 },
    /// Turn the interrupt master switch off.
    Di,
    /// Turn the interrupt master switch on.
    Ei,
    /// An opcode without a handler.
    Unsupported,
}

/// The register that a 3-bit field names. The field value 6 names no
/// register: it stands for the byte that HL points at.
pub open spec fn register_field(code: int) -> Reg8 {
    if code == 0 {
        Reg8::B
    } else if code == 1 {
        Reg8::C
    } else if code == 2 {
        Reg8::D
    } else if code == 3 {
        Reg8::E
    } else if code == 4 {
        Reg8::H
    } else if code == 5 {
        Reg8::L
    } else {
        Reg8::A
    }
}

/// The operation of the arithmetic unit that a 3-bit field names.
pub open spec fn alu_field(code: int) -> AluOp {
    if code == 0 {
        AluOp::Add
    } else if code == 1 {
        AluOp::Adc
    } else if code == 2 {
        AluOp::Sub
    } else if code == 3 {
        AluOp::Sbc
    } else if code == 4 {
        AluOp::And
    } else if code == 5 {
        AluOp::Xor
    } else if code == 6 {
        AluOp::Or
    } else {
        AluOp::Cp
    }
}

/// The pair that a 2-bit field names in a 16-bit load.
pub open spec fn pair_field(code: int) -> Pair {
    if code == 0 {
        Pair::BC
    } else if code == 1 {
        Pair::DE
    } else if code == 2 {
        Pair::HL
    } else {
        Pair::SP
    }
}

/// The pair that a 2-bit field names in a push or a pop.
pub open spec fn stack_pair_field(code: int) -> StackPair {
    if code == 0 {
        StackPair::BC
    } else if code == 1 {
        StackPair::DE
    } else if code == 2 {
        StackPair::HL
    } else {
        StackPair::AF
    }
}

/// Instructions of the first quarter of the opcode space, by their fields.
pub open spec fn decode_misc(opcode: u8, y: int, z: int) -> Instruction {
    if z == 0 {
        if y == 0 {
            Instruction::Nop
        } else if y == 1 {
            Instruction::LdNnSp
        } else if y == 2 {
            Instruction::Stop
        } else if y == 4 {
            Instruction::Jr { cond: Condition::NotZero }
        } else if y == 5 {
            Instruction::Jr { cond: Condition::Zero }
        } else if y == 6 {
            Instruction::Jr { cond: Condition::NotCarry }
        } else if y == 7 {
            Instruction::Jr { cond: Condition::Carry }
        } else {
            Instruction::Unsupported
        }
    } else if z == 1 {
        if y % 2 == 0 {
            Instruction::LdPairNn { target: pair_field(y / 2) }
        } else {
            Instruction::Unsupported
        }
    } else if z == 2 {
        if opcode == 0x02 {
            Instruction::LdBcA
        } else if opcode == 0x12 {
            Instruction::LdDeA
        } else if opcode == 0x0a {
            Instruction::LdABc
        } else if opcode == 0x32 {
            Instruction::LddHlA
        } else {
            Instruction::Unsupported
        }
    } else if z == 3 {
        if opcode == 0x0b {
            Instruction::DecBc
        } else if opcode == 0x33 {
            Instruction::IncSp
        } else if opcode == 0x3b {
            Instruction::DecSp
        } else {
            Instruction::Unsupported
        }
    } else if z == 4 {
        if y == 6 {
            Instruction::Unsupported
        } else {
            Instruction::Inc { reg: register_field(y) }
        }
    } else if z == 5 {
        if y == 6 {
            Instruction::Unsupported
        } else {
            Instruction::Dec { reg: register_field(y) }
        }
    } else if z == 6 {
        if y == 6 {
            Instruction::Unsupported
        } else {
            Instruction::LdRN { dst: register_field(y) }
        }
    } else {
        if opcode == 0x0f {
            Instruction::Rrca
        } else if opcode == 0x1f {
            Instruction::Rra
        } else if opcode == 0x2f {
            Instruction::Cpl
        } else if opcode == 0x37 {
            Instruction::Scf
        } else if opcode == 0x3f {
            Instruction::Ccf
        } else {
            Instruction::Unsupported
        }
    }
}

/// Instructions of the second quarter: loads between registers and the byte
/// that HL points at, with the halt where that byte would be loaded from
/// itself.
pub open spec fn decode_load(y: int, z: int) -> Instruction {
    if y == 6 && z == 6 {
        Instruction::Halt
    } else if y == 6 {
        Instruction::LdHlR { src: register_field(z) }
    } else if z == 6 {
        Instruction::LdRHl { dst: register_field(y) }
    } else {
        Instruction::LdRR { dst: register_field(y), src: register_field(z) }
    }
}

/// Instructions of the third quarter: the arithmetic unit on A and a
/// register. Of the forms that take the byte HL points at, only the addition
/// has a handler.
pub open spec fn decode_alu(y: int, z: int) -> Instruction {
    if z == 6 {
        if y == 0 {
            Instruction::AluHl { op: AluOp::Add }
        } else {
            Instruction::Unsupported
        }
    } else {
        Instruction::Alu { op: alu_field(y), src: register_field(z) }
    }
}

/// Instructions of the last quarter, by their fields.
pub open spec fn decode_control(opcode: u8, y: int, z: int) -> Instruction {
    if z == 0 {
        if opcode == 0xc0 {
            Instruction::RetNz
        } else if opcode == 0xd8 {
            Instruction::RetC
        } else {
            Instruction::Unsupported
        }
    } else if z == 1 {
        if y % 2 == 0 {
            Instruction::Pop { pair: stack_pair_field(y / 2) }
        } else if y == 1 {
            Instruction::Ret
        } else if y == 3 {
            Instruction::Reti
        } else if y == 5 {
            Instruction::JpHl
        } else {
            Instruction::LdSpHl
        }
    } else if z == 2 {
        if opcode == 0xc2 {
            Instruction::JpNzNn
        } else if opcode == 0xd2 {
            Instruction::JpNcNn
        } else if opcode == 0xf2 {
            Instruction::LdAFfC
        } else {
            Instruction::Unsupported
        }
    } else if z == 3 {
        if opcode == 0xc3 {
            Instruction::JpNn
        } else if opcode == 0xf3 {
            Instruction::Di
        } else if opcode == 0xfb {
            Instruction::Ei
        } else {
            Instruction::Unsupported
        }
    } else if z == 4 {
        Instruction::Unsupported
    } else if z == 5 {
        if y % 2 == 0 {
            Instruction::Push { pair: stack_pair_field(y / 2) }
        } else {
            Instruction::Unsupported
        }
    } else if z == 6 {
        Instruction::AluN { op: alu_field(y) }
    } else {
        Instruction::Rst { vector: (y * 8) as u8 }
    }
}

/// The instruction that `opcode` stands for.
pub open spec fn decode(opcode: u8) -> Instruction {
    let x = opcode as int / 64;
    let y = (opcode as int / 8) % 8;
    let z = opcode as int % 8;
    if x == 0 {
        decode_misc(opcode, y, z)
    } else if x == 1 {
        decode_load(y, z)
    } else if x == 2 {
        decode_alu(y, z)
    } else {
        decode_control(opcode, y, z)
    }
}

/// Number of operand bytes that follow the opcode of an instruction.
pub open spec fn operand_length(instruction: Instruction) -> nat {
    match instruction {
        Instruction::LdRN { .. } => 1,
        Instruction::AluN { .. } => 1,
        Instruction::Jr { .. } => 1,
        Instruction::LdPairNn { .. } => 2,
        Instruction::LdNnSp => 2,
        Instruction::JpNzNn => 2,
        Instruction::JpNcNn => 2,
        Instruction::JpNn => 2,
        _ => 0,
    }
}

/// Ticks that an instruction costs whatever it does; a conditional jump or
/// return that is taken costs more. Only an opcode without a handler costs
/// nothing.
pub open spec fn base_cost(instruction: Instruction) -> u8 {
    match instruction {
        Instruction::Nop => 2,
        Instruction::Stop => 2,
        Instruction::Halt => 2,
        Instruction::LdRR { .. } => 2,
        Instruction::LdRHl { .. } => 4,
        Instruction::LdHlR { .. } => 4,
        Instruction::LdRN { .. } => 4,
        Instruction::LdPairNn { .. } => 6,
        Instruction::LdBcA => 4,
        Instruction::LdDeA => 4,
        Instruction::LdABc => 4,
        Instruction::LdNnSp => 10,
        Instruction::LddHlA => 4,
        Instruction::LdAFfC => 4,
        Instruction::LdSpHl => 4,
        Instruction::Inc { .. } => 2,
        Instruction::Dec { .. } => 2,
        Instruction::DecBc => 4,
        Instruction::IncSp => 4,
        Instruction::DecSp => 4,
        Instruction::Rrca => 4,
        Instruction::Rra => 4,
        Instruction::Cpl => 2,
        Instruction::Scf => 2,
        Instruction::Ccf => 2,
        Instruction::Jr { cond } => if cond == Condition::NotCarry {
            12
        } else {
            8
        },
        Instruction::Alu { .. } => 2,
        Instruction::AluHl { .. } => 4,
        Instruction::AluN { .. } => 4,
        Instruction::RetNz => 8,
        Instruction::RetC => 8,
        Instruction::Ret => 2,
        Instruction::Reti => 8,
        Instruction::JpNzNn => 12,
        Instruction::JpNcNn => 12,
        Instruction::JpNn => 6,
        Instruction::JpHl => 2,
        Instruction::Pop { .. } => 6,
        Instruction::Push { .. } => 8,
        Instruction::Rst { .. } => 8,
        Instruction::Di => 2,
        Instruction::Ei => 2,
        Instruction::Unsupported => 0,
    }
}

/// An instruction costs nothing if and only if it is the one that stands for
/// the opcodes without a handler.
pub proof fn lemma_only_unsupported_is_free(instruction: Instruction)
    ensures
        base_cost(instruction) == 0 <==> instruction == Instruction::Unsupported,
{
}

impl Instruction {
    /// The instruction is one that some opcode stands for: a call goes to a
    /// multiple of eight in the first 64 bytes, and of the operations on the
    /// byte that HL points at there is only the addition.
    pub open spec fn valid(self) -> bool {
        match self {
            Instruction::Rst { vector } => vector % 8 == 0 && vector < 0x40,
            Instruction::AluHl { op } => op == AluOp::Add,
            _ => true,
        }
    }
}

/// Reads an opcode: the table from opcode to instruction.
pub fn decode_opcode(opcode: u8) -> (instruction: Instruction)
    ensures
        instruction == decode(opcode),
        instruction.valid(),
{
    match opcode {
        0x00 => Instruction::Nop,
        0x01 => Instruction::LdPairNn { target: Pair::BC },
        0x02 => Instruction::LdBcA,
        0x04 => Instruction::Inc { reg: Reg8::B },
        0x05 => Instruction::Dec { reg: Reg8::B },
        0x06 => Instruction::LdRN { dst: Reg8::B },
        0x08 => Instruction::LdNnSp,
        0x0a => Instruction::LdABc,
        0x0b => Instruction::DecBc,
        0x0c => Instruction::Inc { reg: Reg8::C },
        0x0d => Instruction::Dec { reg: Reg8::C },
        0x0e => Instruction::LdRN { dst: Reg8::C },
        0x0f => Instruction::Rrca,
        0x10 => Instruction::Stop,
        0x11 => Instruction::LdPairNn { target: Pair::DE },
        0x12 => Instruction::LdDeA,
        0x14 => Instruction::Inc { reg: Reg8::D },
        0x15 => Instruction::Dec { reg: Reg8::D },
        0x16 => Instruction::LdRN { dst: Reg8::D },
        0x1c => Instruction::Inc { reg: Reg8::E },
        0x1d => Instruction::Dec { reg: Reg8::E },
        0x1e => Instruction::LdRN { dst: Reg8::E },
        0x1f => Instruction::Rra,
        0x20 => Instruction::Jr { cond: Condition::NotZero },
        0x21 => Instruction::LdPairNn { target: Pair::HL },
        0x24 => Instruction::Inc { reg: Reg8::H },
        0x25 => Instruction::Dec { reg: Reg8::H },
        0x26 => Instruction::LdRN { dst: Reg8::H },
        0x28 => Instruction::Jr { cond: Condition::Zero },
        0x2c => Instruction::Inc { reg: Reg8::L },
        0x2d => Instruction::Dec { reg: Reg8::L },
        0x2e => Instruction::LdRN { dst: Reg8::L },
        0x2f => Instruction::Cpl,
        0x30 => Instruction::Jr { cond: Condition::NotCarry },
        0x31 => Instruction::LdPairNn { target: Pair::SP },
        0x32 => Instruction::LddHlA,
        0x33 => Instruction::IncSp,
        0x37 => Instruction::Scf,
        0x38 => Instruction::Jr { cond: Condition::Carry },
        0x3b => Instruction::DecSp,
        0x3c => Instruction::Inc { reg: Reg8::A },
        0x3d => Instruction::Dec { reg: Reg8::A },
        0x3e => Instruction::LdRN { dst: Reg8::A },
        0x3f => Instruction::Ccf,
        0x40 => Instruction::LdRR { dst: Reg8::B, src: Reg8::B },
        0x41 => Instruction::LdRR { dst: Reg8::B, src: Reg8::C },
        0x42 => Instruction::LdRR { dst: Reg8::B, src: Reg8::D },
        0x43 => Instruction::LdRR { dst: Reg8::B, src: Reg8::E },
        0x44 => Instruction::LdRR { dst: Reg8::B, src: Reg8::H },
        0x45 => Instruction::LdRR { dst: Reg8::B, src: Reg8::L },
        0x46 => Instruction::LdRHl { dst: Reg8::B },
        0x47 => Instruction::LdRR { dst: Reg8::B, src: Reg8::A },
        0x48 => Instruction::LdRR { dst: Reg8::C, src: Reg8::B },
        0x49 => Instruction::LdRR { dst: Reg8::C, src: Reg8::C },
        0x4a => Instruction::LdRR { dst: Reg8::C, src: Reg8::D },
        0x4b => Instruction::LdRR { dst: Reg8::C, src: Reg8::E },
        0x4c => Instruction::LdRR { dst: Reg8::C, src: Reg8::H },
        0x4d => Instruction::LdRR { dst: Reg8::C, src: Reg8::L },
        0x4e => Instruction::LdRHl { dst: Reg8::C },
        0x4f => Instruction::LdRR { dst: Reg8::C, src: Reg8::A },
        0x50 => Instruction::LdRR { dst: Reg8::D, src: Reg8::B },
        0x51 => Instruction::LdRR { dst: Reg8::D, src: Reg8::C },
        0x52 => Instruction::LdRR { dst: Reg8::D, src: Reg8::D },
        0x53 => Instruction::LdRR { dst: Reg8::D, src: Reg8::E },
        0x54 => Instruction::LdRR { dst: Reg8::D, src: Reg8::H },
        0x55 => Instruction::LdRR { dst: Reg8::D, src: Reg8::L },
        0x56 => Instruction::LdRHl { dst: Reg8::D },
        0x57 => Instruction::LdRR { dst: Reg8::D, src: Reg8::A },
        0x58 => Instruction::LdRR { dst: Reg8::E, src: Reg8::B },
        0x59 => Instruction::LdRR { dst: Reg8::E, src: Reg8::C },
        0x5a => Instruction::LdRR { dst: Reg8::E, src: Reg8::D },
        0x5b => Instruction::LdRR { dst: Reg8::E, src: Reg8::E },
        0x5c => Instruction::LdRR { dst: Reg8::E, src: Reg8::H },
        0x5d => Instruction::LdRR { dst: Reg8::E, src: Reg8::L },
        0x5e => Instruction::LdRHl { dst: Reg8::E },
        0x5f => Instruction::LdRR { dst: Reg8::E, src: Reg8::A },
        0x60 => Instruction::LdRR { dst: Reg8::H, src: Reg8::B },
        0x61 => Instruction::LdRR { dst: Reg8::H, src: Reg8::C },
        0x62 => Instruction::LdRR { dst: Reg8::H, src: Reg8::D },
        0x63 => Instruction::LdRR { dst: Reg8::H, src: Reg8::E },
        0x64 => Instruction::LdRR { dst: Reg8::H, src: Reg8::H },
        0x65 => Instruction::LdRR { dst: Reg8::H, src: Reg8::L },
        0x66 => Instruction::LdRHl { dst: Reg8::H },
        0x67 => Instruction::LdRR { dst: Reg8::H, src: Reg8::A },
        0x68 => Instruction::LdRR { dst: Reg8::L, src: Reg8::B },
        0x69 => Instruction::LdRR { dst: Reg8::L, src: Reg8::C },
        0x6a => Instruction::LdRR { dst: Reg8::L, src: Reg8::D },
        0x6b => Instruction::LdRR { dst: Reg8::L, src: Reg8::E },
        0x6c => Instruction::LdRR { dst: Reg8::L, src: Reg8::H },
        0x6d => Instruction::LdRR { dst: Reg8::L, src: Reg8::L },
        0x6e => Instruction::LdRHl { dst: Reg8::L },
        0x6f => Instruction::LdRR { dst: Reg8::L, src: Reg8::A },
        0x70 => Instruction::LdHlR { src: Reg8::B },
        0x71 => Instruction::LdHlR { src: Reg8::C },
        0x72 => Instruction::LdHlR { src: Reg8::D },
        0x73 => Instruction::LdHlR { src: Reg8::E },
        0x74 => Instruction::LdHlR { src: Reg8::H },
        0x75 => Instruction::LdHlR { src: Reg8::L },
        0x76 => Instruction::Halt,
        0x77 => Instruction::LdHlR { src: Reg8::A },
        0x78 => Instruction::LdRR { dst: Reg8::A, src: Reg8::B },
        0x79 => Instruction::LdRR { dst: Reg8::A, src: Reg8::C },
        0x7a => Instruction::LdRR { dst: Reg8::A, src: Reg8::D },
        0x7b => Instruction::LdRR { dst: Reg8::A, src: Reg8::E },
        0x7c => Instruction::LdRR { dst: Reg8::A, src: Reg8::H },
        0x7d => Instruction::LdRR { dst: Reg8::A, src: Reg8::L },
        0x7e => Instruction::LdRHl { dst: Reg8::A },
        0x7f => Instruction::LdRR { dst: Reg8::A, src: Reg8::A },
        0x80 => Instruction::Alu { op: AluOp::Add, src: Reg8::B },
        0x81 => Instruction::Alu { op: AluOp::Add, src: Reg8::C },
        0x82 => Instruction::Alu { op: AluOp::Add, src: Reg8::D },
        0x83 => Instruction::Alu { op: AluOp::Add, src: Reg8::E },
        0x84 => Instruction::Alu { op: AluOp::Add, src: Reg8::H },
        0x85 => Instruction::Alu { op: AluOp::Add, src: Reg8::L },
        0x86 => Instruction::AluHl { op: AluOp::Add },
        0x87 => Instruction::Alu { op: AluOp::Add, src: Reg8::A },
        0x88 => Instruction::Alu { op: AluOp::Adc, src: Reg8::B },
        0x89 => Instruction::Alu { op: AluOp::Adc, src: Reg8::C },
        0x8a => Instruction::Alu { op: AluOp::Adc, src: Reg8::D },
        0x8b => Instruction::Alu { op: AluOp::Adc, src: Reg8::E },
        0x8c => Instruction::Alu { op: AluOp::Adc, src: Reg8::H },
        0x8d => Instruction::Alu { op: AluOp::Adc, src: Reg8::L },
        0x8f => Instruction::Alu { op: AluOp::Adc, src: Reg8::A },
        0x90 => Instruction::Alu { op: AluOp::Sub, src: Reg8::B },
        0x91 => Instruction::Alu { op: AluOp::Sub, src: Reg8::C },
        0x92 => Instruction::Alu { op: AluOp::Sub, src: Reg8::D },
        0x93 => Instruction::Alu { op: AluOp::Sub, src: Reg8::E },
        0x94 => Instruction::Alu { op: AluOp::Sub, src: Reg8::H },
        0x95 => Instruction::Alu { op: AluOp::Sub, src: Reg8::L },
        0x97 => Instruction::Alu { op: AluOp::Sub, src: Reg8::A },
        0x98 => Instruction::Alu { op: AluOp::Sbc, src: Reg8::B },
        0x99 => Instruction::Alu { op: AluOp::Sbc, src: Reg8::C },
        0x9a => Instruction::Alu { op: AluOp::Sbc, src: Reg8::D },
        0x9b => Instruction::Alu { op: AluOp::Sbc, src: Reg8::E },
        0x9c => Instruction::Alu { op: AluOp::Sbc, src: Reg8::H },
        0x9d => Instruction::Alu { op: AluOp::Sbc, src: Reg8::L },
        0x9f => Instruction::Alu { op: AluOp::Sbc, src: Reg8::A },
        0xa0 => Instruction::Alu { op: AluOp::And, src: Reg8::B },
        0xa1 => Instruction::Alu { op: AluOp::And, src: Reg8::C },
        0xa2 => Instruction::Alu { op: AluOp::And, src: Reg8::D },
        0xa3 => Instruction::Alu { op: AluOp::And, src: Reg8::E },
        0xa4 => Instruction::Alu { op: AluOp::And, src: Reg8::H },
        0xa5 => Instruction::Alu { op: AluOp::And, src: Reg8::L },
        0xa7 => Instruction::Alu { op: AluOp::And, src: Reg8::A },
        0xa8 => Instruction::Alu { op: AluOp::Xor, src: Reg8::B },
        0xa9 => Instruction::Alu { op: AluOp::Xor, src: Reg8::C },
        0xaa => Instruction::Alu { op: AluOp::Xor, src: Reg8::D },
        0xab => Instruction::Alu { op: AluOp::Xor, src: Reg8::E },
        0xac => Instruction::Alu { op: AluOp::Xor, src: Reg8::H },
        0xad => Instruction::Alu { op: AluOp::Xor, src: Reg8::L },
        0xaf => Instruction::Alu { op: AluOp::Xor, src: Reg8::A },
        0xb0 => Instruction::Alu { op: AluOp::Or, src: Reg8::B },
        0xb1 => Instruction::Alu { op: AluOp::Or, src: Reg8::C },
        0xb2 => Instruction::Alu { op: AluOp::Or, src: Reg8::D },
        0xb3 => Instruction::Alu { op: AluOp::Or, src: Reg8::E },
        0xb4 => Instruction::Alu { op: AluOp::Or, src: Reg8::H },
        0xb5 => Instruction::Alu { op: AluOp::Or, src: Reg8::L },
        0xb7 => Instruction::Alu { op: AluOp::Or, src: Reg8::A },
        0xb8 => Instruction::Alu { op: AluOp::Cp, src: Reg8::B },
        0xb9 => Instruction::Alu { op: AluOp::Cp, src: Reg8::C },
        0xba => Instruction::Alu { op: AluOp::Cp, src: Reg8::D },
        0xbb => Instruction::Alu { op: AluOp::Cp, src: Reg8::E },
        0xbc => Instruction::Alu { op: AluOp::Cp, src: Reg8::H },
        0xbd => Instruction::Alu { op: AluOp::Cp, src: Reg8::L },
        0xbf => Instruction::Alu { op: AluOp::Cp, src: Reg8::A },
        0xc0 => Instruction::RetNz,
        0xc1 => Instruction::Pop { pair: StackPair::BC },
        0xc2 => Instruction::JpNzNn,
        0xc3 => Instruction::JpNn,
        0xc5 => Instruction::Push { pair: StackPair::BC },
        0xc6 => Instruction::AluN { op: AluOp::Add },
        0xc7 => Instruction::Rst { vector: 0x00 },
        0xc9 => Instruction::Ret,
        0xce => Instruction::AluN { op: AluOp::Adc },
        0xcf => Instruction::Rst { vector: 0x08 },
        0xd1 => Instruction::Pop { pair: StackPair::DE },
        0xd2 => Instruction::JpNcNn,
        0xd5 => Instruction::Push { pair: StackPair::DE },
        0xd6 => Instruction::AluN { op: AluOp::Sub },
        0xd7 => Instruction::Rst { vector: 0x10 },
        0xd8 => Instruction::RetC,
        0xd9 => Instruction::Reti,
        0xde => Instruction::AluN { op: AluOp::Sbc },
        0xdf => Instruction::Rst { vector: 0x18 },
        0xe1 => Instruction::Pop { pair: StackPair::HL },
        0xe5 => Instruction::Push { pair: StackPair::HL },
        0xe6 => Instruction::AluN { op: AluOp::And },
        0xe7 => Instruction::Rst { vector: 0x20 },
        0xe9 => Instruction::JpHl,
        0xee => Instruction::AluN { op: AluOp::Xor },
        0xef => Instruction::Rst { vector: 0x28 },
        0xf1 => Instruction::Pop { pair: StackPair::AF },
        0xf2 => Instruction::LdAFfC,
        0xf3 => Instruction::Di,
        0xf5 => Instruction::Push { pair: StackPair::AF },
        0xf6 => Instruction::AluN { op: AluOp::Or },
        0xf7 => Instruction::Rst { vector: 0x30 },
        0xf9 => Instruction::LdSpHl,
        0xfb => Instruction::Ei,
        0xfe => Instruction::AluN { op: AluOp::Cp },
        0xff => Instruction::Rst { vector: 0x38 },
        _ => Instruction::Unsupported,
    }
}

/// The base cost of `opcode` in ticks: what the 256-entry table holds for it.
/// Opcodes without a handler cost nothing.
pub fn instruction_ticks(opcode: u8) -> (ticks: u8)
    ensures
        ticks == base_cost(decode(opcode)),
{
    let table: [u8; 256] = [
        2, 6, 4, 0, 2, 2, 4, 0, 10, 0, 4, 4, 2, 2, 4, 4,  // 0x0_
        2, 6, 4, 0, 2, 2, 4, 0, 0, 0, 0, 0, 2, 2, 4, 4,  // 0x1_
        8, 6, 0, 0, 2, 2, 4, 0, 8, 0, 0, 0, 2, 2, 4, 2,  // 0x2_
        12, 6, 4, 4, 0, 0, 0, 2, 8, 0, 0, 4, 2, 2, 4, 2,  // 0x3_
        2, 2, 2, 2, 2, 2, 4, 2, 2, 2, 2, 2, 2, 2, 4, 2,  // 0x4_
        2, 2, 2, 2, 2, 2, 4, 2, 2, 2, 2, 2, 2, 2, 4, 2,  // 0x5_
        2, 2, 2, 2, 2, 2, 4, 2, 2, 2, 2, 2, 2, 2, 4, 2,  // 0x6_
        4, 4, 4, 4, 4, 4, 2, 4, 2, 2, 2, 2, 2, 2, 4, 2,  // 0x7_
        2, 2, 2, 2, 2, 2, 4, 2, 2, 2, 2, 2, 2, 2, 0, 2,  // 0x8_
        2, 2, 2, 2, 2, 2, 0, 2, 2, 2, 2, 2, 2, 2, 0, 2,  // 0x9_
        2, 2, 2, 2, 2, 2, 0, 2, 2, 2, 2, 2, 2, 2, 0, 2,  // 0xa_
        2, 2, 2, 2, 2, 2, 0, 2, 2, 2, 2, 2, 2, 2, 0, 2,  // 0xb_
        8, 6, 12, 6, 0, 8, 4, 8, 0, 2, 0, 0, 0, 0, 4, 8,  // 0xc_
        0, 6, 12, 0, 0, 8, 4, 8, 8, 8, 0, 0, 0, 0, 4, 8,  // 0xd_
        0, 6, 0, 0, 0, 8, 4, 8, 0, 2, 0, 0, 0, 0, 4, 8,  // 0xe_
        0, 6, 4, 2, 0, 8, 4, 8, 0, 4, 0, 2, 0, 0, 4, 8,  // 0xf_
    ];
    table[opcode as usize]
}

/// Number of operand bytes that follow the opcode of `instruction`.
pub fn operand_bytes(instruction: Instruction) -> (n: u8)
    ensures
        n == operand_length(instruction),
{
    match instruction {
        Instruction::LdRN { .. } | Instruction::AluN { .. } | Instruction::Jr { .. } => 1,
        Instruction::LdPairNn { .. } | Instruction::LdNnSp | Instruction::JpNzNn
        | Instruction::JpNcNn | Instruction::JpNn => 2,
        _ => 0,
    }
}

/// Whether `opcode` has a handler.
pub fn is_supported(opcode: u8) -> (r: bool)
    ensures
        r == (decode(opcode) != Instruction::Unsupported),
{
    match decode_opcode(opcode) {
        Instruction::Unsupported => false,
        _ => true,
    }
}

} // verus!
