//! The arithmetic and logic unit: the eight operations on the accumulator,
//! and increment and decrement of a byte, each with its flags.
//!
//! The zero flag says that the result is zero. The half-carry flag says that
//! a carry left bit 3, or that a borrow was taken from bit 4. The carry flag
//! says the same of bit 7; increment and decrement leave it alone. Logical
//! operations clear both. The subtract flag is set by subtraction, comparison
//! and decrement, and cleared by the others.

use vstd::prelude::*;
use crate::registers::{lemma_flag_assignment, lemma_with_flags, lemma_word_bits, Registers};

verus! {

/// One if the carry flag is set, zero if not.
pub open spec fn carry_in(r: Registers) -> int {
    if r.carry_flag() {
        1
    } else {
        0
    }
}

/// The registers after `val` is added to the accumulator.
pub open spec fn add_spec(r: Registers, val: u8) -> Registers {
    let result = r.a.wrapping_add(val);
    Registers { a: result, ..r }.with_flags(
        result == 0,
        false,
        (r.a & 0x0f) + (val & 0x0f) > 0x0f,
        r.a + val > 0xff,
    )
}

/// The registers after `val` and the carry flag are added to the
/// accumulator.
pub open spec fn adc_spec(r: Registers, val: u8) -> Registers {
    let result = r.a.wrapping_add(val).wrapping_add(carry_in(r) as u8);
    Registers { a: result, ..r }.with_flags(
        result == 0,
        false,
        (r.a & 0x0f) + (val & 0x0f) + carry_in(r) > 0x0f,
        r.a + val + carry_in(r) > 0xff,
    )
}

/// The registers after `val` is subtracted from the accumulator.
pub open spec fn sub_spec(r: Registers, val: u8) -> Registers {
    let result = r.a.wrapping_sub(val);
    Registers { a: result, ..r }.with_flags(
        result == 0,
        true,
        (r.a & 0x0f) < (val & 0x0f),
        r.a < val,
    )
}

/// The registers after `val` and the carry flag are subtracted from the
/// accumulator.
pub open spec fn sbc_spec(r: Registers, val: u8) -> Registers {
    let result = r.a.wrapping_sub(val).wrapping_sub(carry_in(r) as u8);
    Registers { a: result, ..r }.with_flags(
        result == 0,
        true,
        (r.a & 0x0f) < (val & 0x0f) + carry_in(r),
        r.a < val + carry_in(r),
    )
}

/// The registers after the accumulator is combined with `val` by bitwise
/// and.
pub open spec fn and_spec(r: Registers, val: u8) -> Registers {
    let result = r.a & val;
    Registers { a: result, ..r }.with_flags(result == 0, false, false, false)
}

/// The registers after the accumulator is combined with `val` by bitwise or.
pub open spec fn or_spec(r: Registers, val: u8) -> Registers {
    let result = r.a | val;
    Registers { a: result, ..r }.with_flags(result == 0, false, false, false)
}

/// The registers after the accumulator is combined with `val` by bitwise
/// exclusive or.
pub open spec fn xor_spec(r: Registers, val: u8) -> Registers {
    let result = r.a ^ val;
    Registers { a: result, ..r }.with_flags(result == 0, false, false, false)
}

/// The registers after the accumulator is compared with `val`: the flags of
/// a subtraction, the accumulator unchanged.
pub open spec fn cp_spec(r: Registers, val: u8) -> Registers {
    r.with_flags(r.a == val, true, (r.a & 0x0f) < (val & 0x0f), r.a < val)
}

/// `val` plus one, wrapping.
pub open spec fn inc_value(val: u8) -> u8 {
    val.wrapping_add(1)
}

/// The registers after `val` is incremented: zero, subtract and half-carry
/// flags are assigned, the carry flag is left alone.
pub open spec fn inc_flags(val: u8, r: Registers) -> Registers {
    r.with_zero_flag(inc_value(val) == 0).with_subtract_flag(false).with_half_carry_flag(
        val & 0x0f == 0x0f,
    )
}

/// `val` minus one, wrapping.
pub open spec fn dec_value(val: u8) -> u8 {
    val.wrapping_sub(1)
}

/// The registers after `val` is decremented: zero, subtract and half-carry
/// flags are assigned, the carry flag is left alone.
pub open spec fn dec_flags(val: u8, r: Registers) -> Registers {
    r.with_zero_flag(dec_value(val) == 0).with_subtract_flag(true).with_half_carry_flag(
        val & 0x0f == 0,
    )
}

/// Adds `val` to the accumulator.
pub fn add(val: u8, registers: &mut Registers)
    ensures
        *final(registers) == add_spec(*old(registers), val),
{
    let a: u8 = registers.a;
    proof {
        lemma_word_bits(0, a, 0);
        lemma_word_bits(0, val, 0);
    }
    let result: u8 = a.wrapping_add(val);
    let half_carry: bool = (a & 0x0f) + (val & 0x0f) > 0x0f;
    let carry: bool = a as u16 + val as u16 > 0xff;
    registers.a = result;
    registers.set_flags(result == 0, false, half_carry, carry);
}

/// Adds `val` and the carry flag to the accumulator.
pub fn adc(val: u8, registers: &mut Registers)
    ensures
        *final(registers) == adc_spec(*old(registers), val),
{
    let a: u8 = registers.a;
    proof {
        lemma_word_bits(0, a, 0);
        lemma_word_bits(0, val, 0);
    }
    let carry_in: u8 = if registers.get_carry_flag() {
        1
    } else {
        0
    };
    let sum: u16 = a as u16 + val as u16 + carry_in as u16;
    let result: u8 = a.wrapping_add(val).wrapping_add(carry_in);
    let half_carry: bool = (a & 0x0f) + (val & 0x0f) + carry_in > 0x0f;
    registers.a = result;
    registers.set_flags(result == 0, false, half_carry, sum > 0xff);
}

/// Subtracts `val` from the accumulator.
pub fn sub(val: u8, registers: &mut Registers)
    ensures
        *final(registers) == sub_spec(*old(registers), val),
{
    let a: u8 = registers.a;
    let result: u8 = a.wrapping_sub(val);
    let half_carry: bool = (val & 0x0f) > (a & 0x0f);
    registers.a = result;
    registers.set_flags(result == 0, true, half_carry, val > a);
}

/// Subtracts `val` and the carry flag from the accumulator.
pub fn sbc(val: u8, registers: &mut Registers)
    ensures
        *final(registers) == sbc_spec(*old(registers), val),
{
    let a: u8 = registers.a;
    proof {
        lemma_word_bits(0, a, 0);
        lemma_word_bits(0, val, 0);
    }
    let carry_in: u8 = if registers.get_carry_flag() {
        1
    } else {
        0
    };
    let taken: u16 = val as u16 + carry_in as u16;
    let result: u8 = a.wrapping_sub(val).wrapping_sub(carry_in);
    let half_carry: bool = (val & 0x0f) + carry_in > (a & 0x0f);
    registers.a = result;
    registers.set_flags(result == 0, true, half_carry, taken > a as u16);
}

/// Combines the accumulator with `val` by bitwise and.
pub fn and(val: u8, registers: &mut Registers)
    ensures
        *final(registers) == and_spec(*old(registers), val),
{
    registers.a &= val;
    registers.set_flags(registers.a == 0, false, false, false);
}

/// Combines the accumulator with `val` by bitwise or.
pub fn or(val: u8, registers: &mut Registers)
    ensures
        *final(registers) == or_spec(*old(registers), val),
{
    registers.a |= val;
    registers.set_flags(registers.a == 0, false, false, false);
}

/// Combines the accumulator with `val` by bitwise exclusive or.
pub fn xor(val: u8, registers: &mut Registers)
    ensures
        *final(registers) == xor_spec(*old(registers), val),
{
    registers.a ^= val;
    registers.set_flags(registers.a == 0, false, false, false);
}

/// Compares the accumulator with `val`.
pub fn cp(val: u8, registers: &mut Registers)
    ensures
        *final(registers) == cp_spec(*old(registers), val),
{
    let a: u8 = registers.a;
    registers.set_flags(a == val, true, (val & 0x0f) > (a & 0x0f), val > a);
}

/// Increments `val` and assigns the flags but for the carry flag.
pub fn inc(val: u8, registers: &mut Registers) -> (result: u8)
    ensures
        result == inc_value(val),
        *final(registers) == inc_flags(val, *old(registers)),
{
    let result: u8 = val.wrapping_add(1);
    registers.set_zero_flag(result == 0);
    registers.set_subtract_flag(false);
    registers.set_half_carry_flag(val & 0x0f == 0x0f);
    result
}

/// Decrements `val` and assigns the flags but for the carry flag.
pub fn dec(val: u8, registers: &mut Registers) -> (result: u8)
    ensures
        result == dec_value(val),
        *final(registers) == dec_flags(val, *old(registers)),
{
    let result: u8 = val.wrapping_sub(1);
    registers.set_zero_flag(result == 0);
    registers.set_subtract_flag(true);
    registers.set_half_carry_flag(val & 0x0f == 0);
    result
}

/// Decrement undoes increment, and neither touches the carry flag nor any
/// register: both change the flags register alone, and of it only the zero,
/// subtract and half-carry flags.
pub proof fn lemma_inc_dec(val: u8, r: Registers)
    ensures
        dec_value(inc_value(val)) == val,
        inc_value(dec_value(val)) == val,
        inc_flags(val, r).carry_flag() == r.carry_flag(),
        dec_flags(val, r).carry_flag() == r.carry_flag(),
        inc_flags(val, r) == (Registers { f: inc_flags(val, r).f, ..r }),
        dec_flags(val, r) == (Registers { f: dec_flags(val, r).f, ..r }),
        inc_flags(val, r).zero_flag() <==> val == 0xff,
        dec_flags(val, r).zero_flag() <==> val == 1,
        !inc_flags(val, r).subtract_flag(),
        dec_flags(val, r).subtract_flag(),
        inc_flags(val, r).half_carry_flag() <==> val & 0x0f == 0x0f,
        dec_flags(val, r).half_carry_flag() <==> val & 0x0f == 0,
        inc_flags(val, r).wf() == r.wf(),
        dec_flags(val, r).wf() == r.wf(),
{
    let i1 = r.with_zero_flag(inc_value(val) == 0);
    let i2 = i1.with_subtract_flag(false);
    lemma_flag_assignment(r, inc_value(val) == 0);
    lemma_flag_assignment(i1, false);
    lemma_flag_assignment(i2, val & 0x0f == 0x0f);
    let d1 = r.with_zero_flag(dec_value(val) == 0);
    let d2 = d1.with_subtract_flag(true);
    lemma_flag_assignment(r, dec_value(val) == 0);
    lemma_flag_assignment(d1, true);
    lemma_flag_assignment(d2, val & 0x0f == 0);
}

/// Flags of an addition: for all bytes `a` and `b`, adding `b` to an
/// accumulator that holds `a` sets the carry flag if and only if `a + b`
/// exceeds 255, the half-carry flag if and only if the low nibbles add up to
/// more than 15, and the zero flag if and only if the low byte of the sum is
/// zero; it clears the subtract flag and leaves `a + b` modulo 256 in the
/// accumulator.
pub proof fn lemma_add_flags(r: Registers, b: u8)
    ensures
        add_spec(r, b).carry_flag() <==> r.a + b > 255,
        add_spec(r, b).half_carry_flag() <==> (r.a & 0xf) + (b & 0xf) > 0xf,
        add_spec(r, b).zero_flag() <==> (r.a as u16 + b as u16) as u16 & 0xff == 0,
        !add_spec(r, b).subtract_flag(),
        add_spec(r, b).a == (r.a + b) % 256,
        add_spec(r, b).wf() == r.wf(),
{
    let a = r.a;
    let result = a.wrapping_add(b);
    lemma_with_flags(
        Registers { a: result, ..r },
        result == 0,
        false,
        (a & 0x0f) + (b & 0x0f) > 0x0f,
        a + b > 0xff,
    );
    let x: u16 = (a as u16 + b as u16) as u16;
    assert(x & 0xff == x % 256) by (bit_vector);
}

/// Flags of the other operations on the accumulator, read back one by one.
pub proof fn lemma_alu_flags(r: Registers, val: u8)
    ensures
        adc_spec(r, val).carry_flag() <==> r.a + val + carry_in(r) > 255,
        adc_spec(r, val).half_carry_flag() <==> (r.a & 0xf) + (val & 0xf) + carry_in(r) > 0xf,
        adc_spec(r, val).zero_flag() <==> adc_spec(r, val).a == 0,
        !adc_spec(r, val).subtract_flag(),
        sub_spec(r, val).carry_flag() <==> r.a < val,
        sub_spec(r, val).half_carry_flag() <==> (r.a & 0xf) < (val & 0xf),
        sub_spec(r, val).zero_flag() <==> r.a == val,
        sub_spec(r, val).subtract_flag(),
        sbc_spec(r, val).carry_flag() <==> r.a < val + carry_in(r),
        sbc_spec(r, val).half_carry_flag() <==> (r.a & 0xf) < (val & 0xf) + carry_in(r),
        sbc_spec(r, val).zero_flag() <==> sbc_spec(r, val).a == 0,
        sbc_spec(r, val).subtract_flag(),
        and_spec(r, val).zero_flag() <==> r.a & val == 0,
        !and_spec(r, val).carry_flag() && !and_spec(r, val).half_carry_flag() && !and_spec(
            r,
            val,
        ).subtract_flag(),
        or_spec(r, val).zero_flag() <==> r.a | val == 0,
        !or_spec(r, val).carry_flag() && !or_spec(r, val).half_carry_flag() && !or_spec(
            r,
            val,
        ).subtract_flag(),
        xor_spec(r, val).zero_flag() <==> r.a ^ val == 0,
        !xor_spec(r, val).carry_flag() && !xor_spec(r, val).half_carry_flag() && !xor_spec(
            r,
            val,
        ).subtract_flag(),
        cp_spec(r, val).zero_flag() <==> r.a == val,
        cp_spec(r, val).carry_flag() <==> r.a < val,
        cp_spec(r, val).half_carry_flag() <==> (r.a & 0xf) < (val & 0xf),
        cp_spec(r, val).subtract_flag(),
        cp_spec(r, val).a == r.a,
        adc_spec(r, val).a == (r.a + val + carry_in(r)) % 256,
        sub_spec(r, val).a == (r.a - val) % 256,
        sbc_spec(r, val).a == (r.a - val - carry_in(r)) % 256,
        adc_spec(r, val).wf() == r.wf(),
        sub_spec(r, val).wf() == r.wf(),
        sbc_spec(r, val).wf() == r.wf(),
        and_spec(r, val).wf() == r.wf(),
        or_spec(r, val).wf() == r.wf(),
        xor_spec(r, val).wf() == r.wf(),
        cp_spec(r, val).wf() == r.wf(),
{
    let a = r.a;
    let adc_a = a.wrapping_add(val).wrapping_add(carry_in(r) as u8);
    lemma_with_flags(
        Registers { a: adc_a, ..r },
        adc_a == 0,
        false,
        (a & 0x0f) + (val & 0x0f) + carry_in(r) > 0x0f,
        a + val + carry_in(r) > 0xff,
    );
    let sub_a = a.wrapping_sub(val);
    lemma_with_flags(
        Registers { a: sub_a, ..r },
        sub_a == 0,
        true,
        (a & 0x0f) < (val & 0x0f),
        a < val,
    );
    let sbc_a = a.wrapping_sub(val).wrapping_sub(carry_in(r) as u8);
    lemma_with_flags(
        Registers { a: sbc_a, ..r },
        sbc_a == 0,
        true,
        (a & 0x0f) < (val & 0x0f) + carry_in(r),
        a < val + carry_in(r),
    );
    lemma_with_flags(Registers { a: a & val, ..r }, a & val == 0, false, false, false);
    lemma_with_flags(Registers { a: a | val, ..r }, a | val == 0, false, false, false);
    lemma_with_flags(Registers { a: a ^ val, ..r }, a ^ val == 0, false, false, false);
    lemma_with_flags(r, a == val, true, (a & 0x0f) < (val & 0x0f), a < val);
}

} // verus!
