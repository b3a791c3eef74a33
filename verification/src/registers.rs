//! The CPU register file: seven general 8-bit registers, the flags register,
//! the stack pointer and the program counter.
//!
//! Pairs of 8-bit registers combine into 16-bit values with the first register
//! in the high byte. The four condition flags live in the top nibble of the
//! flags register `f`; a register file is well formed when the low nibble of
//! `f` is zero, and every operation here keeps a well-formed file well formed.

use vstd::prelude::*;

verus! {

/// Bit of the flags register that holds the zero flag.
pub const FLAG_ZERO: u8 = 0x80;

/// Bit of the flags register that holds the subtract flag.
pub const FLAG_NEGATIVE: u8 = 0x40;

/// Bit of the flags register that holds the half-carry flag.
pub const FLAG_HALF_CARRY: u8 = 0x20;

/// Bit of the flags register that holds the carry flag.
pub const FLAG_CARRY: u8 = 0x10;

/// The 16-bit value whose high byte is `hi` and whose low byte is `lo`.
pub open spec fn join(hi: u8, lo: u8) -> u16 {
    (hi as int * 256 + lo as int) as u16
}

/// Bits 15 to 8 of `v`.
pub open spec fn high_byte(v: u16) -> u8 {
    (v as int / 256) as u8
}

/// Bits 7 to 0 of `v`.
pub open spec fn low_byte(v: u16) -> u8 {
    (v as int % 256) as u8
}

/// `flags` with the bit `mask` set when `val` holds and cleared otherwise.
pub open spec fn assign_bit(flags: u8, mask: u8, val: bool) -> u8 {
    if val {
        flags | mask
    } else {
        flags & !mask
    }
}

/// Combines two bytes into a word, `hi` in the high byte.
pub fn make_word(hi: u8, lo: u8) -> (r: u16)
    ensures
        r == join(hi, lo),
{
    proof {
        lemma_word_bits(hi, lo, 0);
    }
    (hi as u16) << 8 | lo as u16
}

/// The high byte of a word.
pub fn word_high(val: u16) -> (r: u8)
    ensures
        r == high_byte(val),
{
    proof {
        lemma_word_bits(0, 0, val);
    }
    ((val & 0xFF00) >> 8) as u8
}

/// The low byte of a word.
pub fn word_low(val: u16) -> (r: u8)
    ensures
        r == low_byte(val),
{
    proof {
        lemma_word_bits(0, 0, val);
    }
    (val & 0xFF) as u8
}

/// Shifts and masks on bytes and words, and the arithmetic they stand for.
pub open spec fn word_bits_agree(hi: u8, lo: u8, v: u16) -> bool {
    &&& ((hi as u16) << 8 | (lo as u16)) == (hi as u16) * 256 + (lo as u16)
    &&& ((v & 0xFF00) >> 8) == v / 256
    &&& (v & 0xFF) == v % 256
    &&& (lo & 0xf0) & 0x0f == 0
    &&& lo & 0x0f == 0 ==> lo & 0xf0 == lo
    &&& lo & 0x0f <= 15
    &&& ((hi as u16) << 8 | ((lo & 0xf0) as u16)) == ((hi as u16) << 8 | (lo as u16)) & 0xfff0
    &&& ((hi as u16) << 8 | ((lo & 0xf0) as u16)) == (hi as u16) * 256 + ((lo & 0xf0) as u16)
}

/// How shifts and masks on bytes and words read as arithmetic.
pub proof fn lemma_word_bits(hi: u8, lo: u8, v: u16)
    ensures
        word_bits_agree(hi, lo, v),
        ((hi as u16) << 8 | (lo as u16)) == join(hi, lo),
        ((hi as u16) << 8 | ((lo & 0xf0) as u16)) == join(hi, lo & 0xf0),
{
    assert(word_bits_agree(hi, lo, v)) by (bit_vector);
}

/// Splitting a word and joining the halves gives the word back, and the
/// halves of a joined word are the bytes it was made of.
pub proof fn lemma_join_split(hi: u8, lo: u8, v: u16)
    ensures
        join(high_byte(v), low_byte(v)) == v,
        high_byte(join(hi, lo)) == hi,
        low_byte(join(hi, lo)) == lo,
{
}

/// Identity of an 8-bit register.
#[derive(Clone, Copy, Debug, PartialEq, Eq, Structural)]
pub enum Reg8 {
    A,
    B,
    C,
    D,
    E,
    H,
    L,
}

/// The register file.
#[derive(Clone, Copy, Debug, PartialEq, Eq, Structural)]
pub struct Registers {
    pub a: u8,
    pub f: u8,
    pub b: u8,
    pub c: u8,
    pub d: u8,
    pub e: u8,
    pub h: u8,
    pub l: u8,
    pub sp: u16,
    pub pc: u16,
}

impl Default for Registers {
    fn default() -> (r: Registers)
        ensures
            r == Registers::power_on(),
    {
        Registers {
            a: 0x01,
            f: 0xb0,
            b: 0x00,
            c: 0x13,
            d: 0x00,
            e: 0xd8,
            h: 0x01,
            l: 0x4d,
            sp: 0xfffe,
            pc: 0x100,
        }
    }
}

impl Registers {
    /// The register values that the console's boot program leaves behind.
    pub open spec fn power_on() -> Registers {
        Registers {
            a: 0x01,
            f: 0xb0,
            b: 0x00,
            c: 0x13,
            d: 0x00,
            e: 0xd8,
            h: 0x01,
            l: 0x4d,
            sp: 0xfffe,
            pc: 0x100,
        }
    }

    /// The low nibble of the flags register is zero.
    pub open spec fn wf(&self) -> bool {
        self.f & 0x0f == 0
    }

    /// The value of the register `r`.
    pub open spec fn reg(&self, r: Reg8) -> u8 {
        match r {
            Reg8::A => self.a,
            Reg8::B => self.b,
            Reg8::C => self.c,
            Reg8::D => self.d,
            Reg8::E => self.e,
            Reg8::H => self.h,
            Reg8::L => self.l,
        }
    }

    /// This file with the register `r` holding `val`.
    pub open spec fn with_reg(self, r: Reg8, val: u8) -> Registers {
        match r {
            Reg8::A => Registers { a: val, ..self },
            Reg8::B => Registers { b: val, ..self },
            Reg8::C => Registers { c: val, ..self },
            Reg8::D => Registers { d: val, ..self },
            Reg8::E => Registers { e: val, ..self },
            Reg8::H => Registers { h: val, ..self },
            Reg8::L => Registers { l: val, ..self },
        }
    }

    /// This file with the program counter at `pc`.
    pub open spec fn with_pc(self, pc: u16) -> Registers {
        Registers { pc, ..self }
    }

    /// This file with the stack pointer at `sp`.
    pub open spec fn with_sp(self, sp: u16) -> Registers {
        Registers { sp, ..self }
    }

    /// This file with the program counter moved forward by `n`, wrapping at
    /// the end of the address space.
    pub open spec fn advance_pc(self, n: u16) -> Registers {
        Registers { pc: self.pc.wrapping_add(n), ..self }
    }

    /// The pair AF.
    pub open spec fn af(&self) -> u16 {
        join(self.a, self.f)
    }

    /// The pair BC.
    pub open spec fn bc(&self) -> u16 {
        join(self.b, self.c)
    }

    /// The pair DE.
    pub open spec fn de(&self) -> u16 {
        join(self.d, self.e)
    }

    /// The pair HL.
    pub open spec fn hl(&self) -> u16 {
        join(self.h, self.l)
    }

    /// This file with A holding the high byte of `val` and the flags register
    /// holding the top nibble of its low byte.
    pub open spec fn with_af(self, val: u16) -> Registers {
        Registers { a: high_byte(val), f: low_byte(val) & 0xf0, ..self }
    }

    /// This file with the pair BC holding `val`.
    pub open spec fn with_bc(self, val: u16) -> Registers {
        Registers { b: high_byte(val), c: low_byte(val), ..self }
    }

    /// This file with the pair DE holding `val`.
    pub open spec fn with_de(self, val: u16) -> Registers {
        Registers { d: high_byte(val), e: low_byte(val), ..self }
    }

    /// This file with the pair HL holding `val`.
    pub open spec fn with_hl(self, val: u16) -> Registers {
        Registers { h: high_byte(val), l: low_byte(val), ..self }
    }

    /// The zero flag.
    pub open spec fn zero_flag(&self) -> bool {
        self.f & FLAG_ZERO != 0
    }

    /// The subtract flag.
    pub open spec fn subtract_flag(&self) -> bool {
        self.f & FLAG_NEGATIVE != 0
    }

    /// The half-carry flag.
    pub open spec fn half_carry_flag(&self) -> bool {
        self.f & FLAG_HALF_CARRY != 0
    }

    /// The carry flag.
    pub open spec fn carry_flag(&self) -> bool {
        self.f & FLAG_CARRY != 0
    }

    /// This file with the zero flag at `val`.
    pub open spec fn with_zero_flag(self, val: bool) -> Registers {
        Registers { f: assign_bit(self.f, FLAG_ZERO, val), ..self }
    }

    /// This file with the subtract flag at `val`.
    pub open spec fn with_subtract_flag(self, val: bool) -> Registers {
        Registers { f: assign_bit(self.f, FLAG_NEGATIVE, val), ..self }
    }

    /// This file with the half-carry flag at `val`.
    pub open spec fn with_half_carry_flag(self, val: bool) -> Registers {
        Registers { f: assign_bit(self.f, FLAG_HALF_CARRY, val), ..self }
    }

    /// This file with the carry flag at `val`.
    pub open spec fn with_carry_flag(self, val: bool) -> Registers {
        Registers { f: assign_bit(self.f, FLAG_CARRY, val), ..self }
    }

    /// This file with all four flags assigned: zero, subtract, half-carry and
    /// carry, in that order.
    pub open spec fn with_flags(self, zero: bool, subtract: bool, half_carry: bool, carry: bool)
        -> Registers {
        self.with_zero_flag(zero).with_subtract_flag(subtract).with_half_carry_flag(
            half_carry,
        ).with_carry_flag(carry)
    }

    /// Reads one 8-bit register.
    pub fn get(&self, r: Reg8) -> (val: u8)
        ensures
            val == self.reg(r),
    {
        match r {
            Reg8::A => self.a,
            Reg8::B => self.b,
            Reg8::C => self.c,
            Reg8::D => self.d,
            Reg8::E => self.e,
            Reg8::H => self.h,
            Reg8::L => self.l,
        }
    }

    /// Writes one 8-bit register.
    pub fn set(&mut self, r: Reg8, val: u8)
        ensures
            *final(self) == old(self).with_reg(r, val),
    {
        match r {
            Reg8::A => self.a = val,
            Reg8::B => self.b = val,
            Reg8::C => self.c = val,
            Reg8::D => self.d = val,
            Reg8::E => self.e = val,
            Reg8::H => self.h = val,
            Reg8::L => self.l = val,
        }
    }

    pub fn get_af(&self) -> (val: u16)
        ensures
            val == self.af(),
    {
        make_word(self.a, self.f)
    }

    /// Writes the pair AF. The low nibble of the flags register stays clear
    /// whatever `val` holds there.
    pub fn set_af(&mut self, val: u16)
        ensures
            *final(self) == old(self).with_af(val),
            final(self).wf(),
    {
        self.a = word_high(val);
        self.f = word_low(val) & 0xf0;
        proof {
            lemma_word_bits(0, low_byte(val), 0);
        }
    }

    pub fn get_bc(&self) -> (val: u16)
        ensures
            val == self.bc(),
    {
        make_word(self.b, self.c)
    }

    pub fn set_bc(&mut self, val: u16)
        ensures
            *final(self) == old(self).with_bc(val),
    {
        self.b = word_high(val);
        self.c = word_low(val);
    }

    pub fn get_de(&self) -> (val: u16)
        ensures
            val == self.de(),
    {
        make_word(self.d, self.e)
    }

    pub fn set_de(&mut self, val: u16)
        ensures
            *final(self) == old(self).with_de(val),
    {
        self.d = word_high(val);
        self.e = word_low(val);
    }

    pub fn get_hl(&self) -> (val: u16)
        ensures
            val == self.hl(),
    {
        make_word(self.h, self.l)
    }

    pub fn set_hl(&mut self, val: u16)
        ensures
            *final(self) == old(self).with_hl(val),
    {
        self.h = word_high(val);
        self.l = word_low(val);
    }

    /// Puts every register back to its value after boot.
    pub fn reset(&mut self)
        ensures
            *final(self) == Registers::power_on(),
    {
        self.a = 0x01;
        self.f = 0xb0;
        self.b = 0x00;
        self.c = 0x13;
        self.d = 0x00;
        self.e = 0xd8;
        self.h = 0x01;
        self.l = 0x4d;
        self.sp = 0xfffe;
        self.pc = 0x100;
    }

    /// Returns the program counter and moves it forward by one.
    pub fn next_command(&mut self) -> (instruction: u16)
        ensures
            instruction == old(self).pc,
            *final(self) == old(self).advance_pc(1),
    {
        let instruction: u16 = self.pc;
        self.pc = self.pc.wrapping_add(1);
        instruction
    }

    pub fn get_zero_flag(&self) -> (val: bool)
        ensures
            val == self.zero_flag(),
    {
        (self.f & FLAG_ZERO) != 0
    }

    pub fn set_zero_flag(&mut self, val: bool)
        ensures
            *final(self) == old(self).with_zero_flag(val),
    {
        if val {
            self.f |= FLAG_ZERO;
        } else {
            self.f &= !FLAG_ZERO;
        }
    }

    pub fn get_subtract_flag(&self) -> (val: bool)
        ensures
            val == self.subtract_flag(),
    {
        (self.f & FLAG_NEGATIVE) != 0
    }

    pub fn set_subtract_flag(&mut self, val: bool)
        ensures
            *final(self) == old(self).with_subtract_flag(val),
    {
        if val {
            self.f |= FLAG_NEGATIVE;
        } else {
            self.f &= !FLAG_NEGATIVE;
        }
    }

    pub fn get_half_carry_flag(&self) -> (val: bool)
        ensures
            val == self.half_carry_flag(),
    {
        (self.f & FLAG_HALF_CARRY) != 0
    }

    pub fn set_half_carry_flag(&mut self, val: bool)
        ensures
            *final(self) == old(self).with_half_carry_flag(val),
    {
        if val {
            self.f |= FLAG_HALF_CARRY;
        } else {
            self.f &= !FLAG_HALF_CARRY;
        }
    }

    pub fn get_carry_flag(&self) -> (val: bool)
        ensures
            val == self.carry_flag(),
    {
        (self.f & FLAG_CARRY) != 0
    }

    pub fn set_carry_flag(&mut self, val: bool)
        ensures
            *final(self) == old(self).with_carry_flag(val),
    {
        if val {
            self.f |= FLAG_CARRY;
        } else {
            self.f &= !FLAG_CARRY;
        }
    }

    /// Assigns all four flags at once.
    pub fn set_flags(&mut self, zero: bool, subtract: bool, half_carry: bool, carry: bool)
        ensures
            *final(self) == old(self).with_flags(zero, subtract, half_carry, carry),
    {
        self.set_zero_flag(zero);
        self.set_subtract_flag(subtract);
        self.set_half_carry_flag(half_carry);
        self.set_carry_flag(carry);
    }
}

/// Setting or clearing the bit `mask` of `f` changes that bit alone: the
/// three other flag bits and the low nibble stay as they are.
pub open spec fn bit_assignment_is_local(f: u8, mask: u8, o1: u8, o2: u8, o3: u8) -> bool {
    &&& (f | mask) & mask != 0
    &&& (f & !mask) & mask == 0
    &&& (f | mask) & o1 == f & o1
    &&& (f & !mask) & o1 == f & o1
    &&& (f | mask) & o2 == f & o2
    &&& (f & !mask) & o2 == f & o2
    &&& (f | mask) & o3 == f & o3
    &&& (f & !mask) & o3 == f & o3
    &&& (f | mask) & 0x0f == f & 0x0f
    &&& (f & !mask) & 0x0f == f & 0x0f
}

/// A flag that was assigned reads back as assigned; each of the other three
/// flags and the low nibble of the flags register keep their values.
pub proof fn lemma_flag_assignment(r: Registers, val: bool)
    ensures
        r.with_zero_flag(val).zero_flag() == val,
        r.with_zero_flag(val).subtract_flag() == r.subtract_flag(),
        r.with_zero_flag(val).half_carry_flag() == r.half_carry_flag(),
        r.with_zero_flag(val).carry_flag() == r.carry_flag(),
        r.with_zero_flag(val).wf() == r.wf(),
        r.with_subtract_flag(val).subtract_flag() == val,
        r.with_subtract_flag(val).zero_flag() == r.zero_flag(),
        r.with_subtract_flag(val).half_carry_flag() == r.half_carry_flag(),
        r.with_subtract_flag(val).carry_flag() == r.carry_flag(),
        r.with_subtract_flag(val).wf() == r.wf(),
        r.with_half_carry_flag(val).half_carry_flag() == val,
        r.with_half_carry_flag(val).zero_flag() == r.zero_flag(),
        r.with_half_carry_flag(val).subtract_flag() == r.subtract_flag(),
        r.with_half_carry_flag(val).carry_flag() == r.carry_flag(),
        r.with_half_carry_flag(val).wf() == r.wf(),
        r.with_carry_flag(val).carry_flag() == val,
        r.with_carry_flag(val).zero_flag() == r.zero_flag(),
        r.with_carry_flag(val).subtract_flag() == r.subtract_flag(),
        r.with_carry_flag(val).half_carry_flag() == r.half_carry_flag(),
        r.with_carry_flag(val).wf() == r.wf(),
{
    let f = r.f;
    assert(bit_assignment_is_local(f, 0x80, 0x40, 0x20, 0x10)
        && bit_assignment_is_local(f, 0x40, 0x80, 0x20, 0x10)
        && bit_assignment_is_local(f, 0x20, 0x80, 0x40, 0x10)
        && bit_assignment_is_local(f, 0x10, 0x80, 0x40, 0x20)) by (bit_vector);
}

/// After all four flags are assigned, each reads back as assigned, and the
/// low nibble of the flags register is what it was.
pub proof fn lemma_with_flags(
    r: Registers,
    zero: bool,
    subtract: bool,
    half_carry: bool,
    carry: bool,
)
    ensures
        r.with_flags(zero, subtract, half_carry, carry).zero_flag() == zero,
        r.with_flags(zero, subtract, half_carry, carry).subtract_flag() == subtract,
        r.with_flags(zero, subtract, half_carry, carry).half_carry_flag() == half_carry,
        r.with_flags(zero, subtract, half_carry, carry).carry_flag() == carry,
        r.with_flags(zero, subtract, half_carry, carry).wf() == r.wf(),
        r.with_flags(zero, subtract, half_carry, carry) == (Registers {
            f: r.with_flags(zero, subtract, half_carry, carry).f,
            ..r
        }),
{
    let r1 = r.with_zero_flag(zero);
    let r2 = r1.with_subtract_flag(subtract);
    let r3 = r2.with_half_carry_flag(half_carry);
    lemma_flag_assignment(r, zero);
    lemma_flag_assignment(r1, subtract);
    lemma_flag_assignment(r2, half_carry);
    lemma_flag_assignment(r3, carry);
}

/// Reading a pair after writing it gives back what was written (for AF, with
/// the low nibble of the flags cleared), and writing a pair leaves every
/// register outside the pair alone.
pub proof fn lemma_pair_round_trip(r: Registers, val: u16)
    ensures
        r.with_bc(val).bc() == val,
        r.with_de(val).de() == val,
        r.with_hl(val).hl() == val,
        r.with_af(val).af() == val & 0xfff0,
        r.with_af(val).wf(),
        r.with_bc(r.bc()) == r,
        r.with_de(r.de()) == r,
        r.with_hl(r.hl()) == r,
        r.wf() ==> r.with_af(r.af()) == r,
{
    lemma_join_split(0, 0, val);
    lemma_join_split(r.b, r.c, 0);
    lemma_join_split(r.d, r.e, 0);
    lemma_join_split(r.h, r.l, 0);
    lemma_join_split(r.a, r.f, 0);
    lemma_word_bits(high_byte(val), low_byte(val), 0);
    lemma_word_bits(0, r.f, 0);
}

} // verus!
