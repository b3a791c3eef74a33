use gameboy_core::alu::{adc, add, and, cp, dec, inc, or, sbc, sub, xor};
use gameboy_core::registers::Registers;

fn with_a(a: u8, f: u8) -> Registers {
    let mut r = Registers::default();
    r.a = a;
    r.f = f;
    r
}

#[test]
fn dec_undoes_inc_for_every_byte() {
    let mut v: u16 = 0;
    while v <= 0xff {
        let mut r = Registers::default();
        let up = inc(v as u8, &mut r);
        let down = dec(up, &mut r);
        assert_eq!(down, v as u8);
        v += 1;
    }
}

#[test]
fn inc_and_dec_leave_the_carry_flag_alone() {
    for carry in [false, true] {
        let mut v: u16 = 0;
        while v <= 0xff {
            let mut r = Registers::default();
            r.set_carry_flag(carry);
            inc(v as u8, &mut r);
            assert_eq!(r.get_carry_flag(), carry);
            dec(v as u8, &mut r);
            assert_eq!(r.get_carry_flag(), carry);
            v += 1;
        }
    }
}

#[test]
fn inc_touches_no_register() {
    let mut r = Registers::default();
    let before = r;
    let v = inc(0x41, &mut r);
    assert_eq!(v, 0x42);
    assert_eq!(r.a, before.a);
    assert_eq!(r.get_bc(), before.get_bc());
    assert_eq!(r.get_de(), before.get_de());
    assert_eq!(r.get_hl(), before.get_hl());
    assert_eq!(r.sp, before.sp);
    assert_eq!(r.pc, before.pc);
}

#[test]
fn inc_flags() {
    let mut r = with_a(0, 0x00);
    assert_eq!(inc(0xff, &mut r), 0x00);
    assert_eq!(r.f, 0xa0);
    let mut r = with_a(0, 0xf0);
    assert_eq!(inc(0x0f, &mut r), 0x10);
    assert_eq!(r.f, 0x30);
    let mut r = with_a(0, 0xf0);
    assert_eq!(inc(0x10, &mut r), 0x11);
    assert_eq!(r.f, 0x10);
}

#[test]
fn dec_flags() {
    let mut r = with_a(0, 0x00);
    assert_eq!(dec(0x01, &mut r), 0x00);
    assert_eq!(r.f, 0xc0);
    let mut r = with_a(0, 0x10);
    assert_eq!(dec(0x10, &mut r), 0x0f);
    assert_eq!(r.f, 0x70);
    let mut r = with_a(0, 0x00);
    assert_eq!(dec(0x00, &mut r), 0xff);
    assert_eq!(r.f, 0x60);
    let mut r = with_a(0, 0x00);
    assert_eq!(dec(0x0f, &mut r), 0x0e);
    assert_eq!(r.f, 0x40);
}

#[test]
fn add_flags_for_every_pair_of_bytes() {
    let mut a: u16 = 0;
    while a <= 0xff {
        let mut b: u16 = 0;
        while b <= 0xff {
            let mut r = with_a(a as u8, 0xf0);
            add(b as u8, &mut r);
            assert_eq!(r.a, ((a + b) & 0xff) as u8);
            assert_eq!(r.get_carry_flag(), a + b > 255);
            assert_eq!(r.get_half_carry_flag(), (a & 0xf) + (b & 0xf) > 0xf);
            assert_eq!(r.get_zero_flag(), (a + b) & 0xff == 0);
            assert!(!r.get_subtract_flag());
            assert_eq!(r.f & 0x0f, 0);
            b += 1;
        }
        a += 1;
    }
}

#[test]
fn add_exact_values() {
    let mut r = with_a(0x3a, 0x00);
    add(0xc6, &mut r);
    assert_eq!(r.a, 0x00);
    assert_eq!(r.f, 0xb0);
    let mut r = with_a(0x3c, 0x00);
    add(0x12, &mut r);
    assert_eq!(r.a, 0x4e);
    assert_eq!(r.f, 0x00);
    let mut r = with_a(0x08, 0xf0);
    add(0x08, &mut r);
    assert_eq!(r.a, 0x10);
    assert_eq!(r.f, 0x20);
}

#[test]
fn adc_counts_the_carry_flag() {
    let mut r = with_a(0xe1, 0x10);
    adc(0x0f, &mut r);
    assert_eq!(r.a, 0xf1);
    assert_eq!(r.f, 0x20);
    let mut r = with_a(0xe1, 0x10);
    adc(0x1e, &mut r);
    assert_eq!(r.a, 0x00);
    assert_eq!(r.f, 0xb0);
    let mut r = with_a(0xe1, 0x00);
    adc(0x1e, &mut r);
    assert_eq!(r.a, 0xff);
    assert_eq!(r.f, 0x00);
    let mut r = with_a(0xff, 0x10);
    adc(0xff, &mut r);
    assert_eq!(r.a, 0xff);
    assert_eq!(r.f, 0x30);
}

#[test]
fn adc_flags_for_every_pair_of_bytes() {
    for cin in [0u16, 1] {
        let mut a: u16 = 0;
        while a <= 0xff {
            let mut b: u16 = 0;
            while b <= 0xff {
                let mut r = with_a(a as u8, if cin == 1 { 0x10 } else { 0x00 });
                adc(b as u8, &mut r);
                assert_eq!(r.a, ((a + b + cin) & 0xff) as u8);
                assert_eq!(r.get_carry_flag(), a + b + cin > 255);
                assert_eq!(r.get_half_carry_flag(), (a & 0xf) + (b & 0xf) + cin > 0xf);
                assert_eq!(r.get_zero_flag(), (a + b + cin) & 0xff == 0);
                assert!(!r.get_subtract_flag());
                b += 1;
            }
            a += 1;
        }
    }
}

#[test]
fn sub_exact_values() {
    let mut r = with_a(0x3e, 0x00);
    sub(0x3e, &mut r);
    assert_eq!(r.a, 0x00);
    assert_eq!(r.f, 0xc0);
    let mut r = with_a(0x3e, 0x00);
    sub(0x0f, &mut r);
    assert_eq!(r.a, 0x2f);
    assert_eq!(r.f, 0x60);
    let mut r = with_a(0x3e, 0x00);
    sub(0x40, &mut r);
    assert_eq!(r.a, 0xfe);
    assert_eq!(r.f, 0x50);
}

#[test]
fn sbc_counts_the_carry_flag() {
    let mut r = with_a(0x3b, 0x10);
    sbc(0x2a, &mut r);
    assert_eq!(r.a, 0x10);
    assert_eq!(r.f, 0x40);
    let mut r = with_a(0x3b, 0x10);
    sbc(0x3a, &mut r);
    assert_eq!(r.a, 0x00);
    assert_eq!(r.f, 0xc0);
    let mut r = with_a(0x3b, 0x10);
    sbc(0x4f, &mut r);
    assert_eq!(r.a, 0xeb);
    assert_eq!(r.f, 0x70);
    let mut r = with_a(0x00, 0x10);
    sbc(0xff, &mut r);
    assert_eq!(r.a, 0x00);
    assert_eq!(r.f, 0xf0);
}

#[test]
fn sub_and_sbc_flags_for_every_pair_of_bytes() {
    for cin in [0i32, 1] {
        let mut a: i32 = 0;
        while a <= 0xff {
            let mut b: i32 = 0;
            while b <= 0xff {
                let mut r = with_a(a as u8, if cin == 1 { 0x10 } else { 0x00 });
                sbc(b as u8, &mut r);
                assert_eq!(r.a, ((a - b - cin) & 0xff) as u8);
                assert_eq!(r.get_carry_flag(), a < b + cin);
                assert_eq!(r.get_half_carry_flag(), (a & 0xf) < (b & 0xf) + cin);
                assert_eq!(r.get_zero_flag(), (a - b - cin) & 0xff == 0);
                assert!(r.get_subtract_flag());
                if cin == 0 {
                    let mut s = with_a(a as u8, 0x10);
                    sub(b as u8, &mut s);
                    assert_eq!(s.a, r.a);
                    assert_eq!(s.f, r.f);
                }
                b += 1;
            }
            a += 1;
        }
    }
}

#[test]
fn logical_operations_clear_carry_half_carry_and_subtract() {
    let mut r = with_a(0x5a, 0xf0);
    and(0x3f, &mut r);
    assert_eq!(r.a, 0x1a);
    assert_eq!(r.f, 0x00);
    let mut r = with_a(0x5a, 0xf0);
    and(0x00, &mut r);
    assert_eq!(r.a, 0x00);
    assert_eq!(r.f, 0x80);
    let mut r = with_a(0x5a, 0xf0);
    or(0x0f, &mut r);
    assert_eq!(r.a, 0x5f);
    assert_eq!(r.f, 0x00);
    let mut r = with_a(0x00, 0x70);
    or(0x00, &mut r);
    assert_eq!(r.a, 0x00);
    assert_eq!(r.f, 0x80);
    let mut r = with_a(0xff, 0xf0);
    xor(0x0f, &mut r);
    assert_eq!(r.a, 0xf0);
    assert_eq!(r.f, 0x00);
    let mut r = with_a(0xff, 0x70);
    xor(0xff, &mut r);
    assert_eq!(r.a, 0x00);
    assert_eq!(r.f, 0x80);
}

#[test]
fn cp_sets_the_flags_of_a_subtraction_and_keeps_a() {
    let mut r = with_a(0x3c, 0x00);
    cp(0x2f, &mut r);
    assert_eq!(r.a, 0x3c);
    assert_eq!(r.f, 0x60);
    let mut r = with_a(0x3c, 0x00);
    cp(0x3c, &mut r);
    assert_eq!(r.a, 0x3c);
    assert_eq!(r.f, 0xc0);
    let mut r = with_a(0x3c, 0x00);
    cp(0x40, &mut r);
    assert_eq!(r.a, 0x3c);
    assert_eq!(r.f, 0x50);
}

#[test]
fn operations_keep_stray_low_flag_bits_out() {
    let mut r = with_a(0x12, 0xb0);
    add(0x34, &mut r);
    assert_eq!(r.f & 0x0f, 0);
    sub(0x01, &mut r);
    assert_eq!(r.f & 0x0f, 0);
    inc(0x0f, &mut r);
    assert_eq!(r.f & 0x0f, 0);
}
