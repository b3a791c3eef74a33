use gameboy_core::registers::{make_word, word_high, word_low, Reg8, Registers};

#[test]
fn default_registers_hold_boot_values() {
    let r = Registers::default();
    assert_eq!(r.a, 0x01);
    assert_eq!(r.f, 0xb0);
    assert_eq!(r.b, 0x00);
    assert_eq!(r.c, 0x13);
    assert_eq!(r.d, 0x00);
    assert_eq!(r.e, 0xd8);
    assert_eq!(r.h, 0x01);
    assert_eq!(r.l, 0x4d);
    assert_eq!(r.sp, 0xfffe);
    assert_eq!(r.pc, 0x0100);
}

#[test]
fn pairs_put_the_first_register_in_the_high_byte() {
    let r = Registers::default();
    assert_eq!(r.get_af(), 0x01b0);
    assert_eq!(r.get_bc(), 0x0013);
    assert_eq!(r.get_de(), 0x00d8);
    assert_eq!(r.get_hl(), 0x014d);
}

#[test]
fn setting_a_pair_writes_both_halves() {
    let mut r = Registers::default();
    r.set_bc(0x1234);
    assert_eq!((r.b, r.c), (0x12, 0x34));
    r.set_de(0xabcd);
    assert_eq!((r.d, r.e), (0xab, 0xcd));
    r.set_hl(0xff00);
    assert_eq!((r.h, r.l), (0xff, 0x00));
    assert_eq!(r.get_bc(), 0x1234);
    assert_eq!(r.get_de(), 0xabcd);
    assert_eq!(r.get_hl(), 0xff00);
    assert_eq!(r.a, 0x01);
    assert_eq!(r.f, 0xb0);
}

#[test]
fn pair_round_trip_for_every_word() {
    let mut r = Registers::default();
    let mut v: u32 = 0;
    while v <= 0xffff {
        let w = v as u16;
        r.set_bc(w);
        r.set_de(w);
        r.set_hl(w);
        assert_eq!(r.get_bc(), w);
        assert_eq!(r.get_de(), w);
        assert_eq!(r.get_hl(), w);
        v += 1;
    }
}

#[test]
fn setting_af_keeps_the_low_nibble_of_the_flags_clear() {
    let mut r = Registers::default();
    r.set_af(0x12ff);
    assert_eq!(r.a, 0x12);
    assert_eq!(r.f, 0xf0);
    assert_eq!(r.get_af(), 0x12f0);
    r.set_af(0x340f);
    assert_eq!(r.f, 0x00);
    r.set_af(0x5650);
    assert_eq!(r.f, 0x50);
}

#[test]
fn word_helpers_split_and_join() {
    assert_eq!(make_word(0x12, 0x34), 0x1234);
    assert_eq!(make_word(0x00, 0xff), 0x00ff);
    assert_eq!(make_word(0xff, 0x00), 0xff00);
    assert_eq!(word_high(0xabcd), 0xab);
    assert_eq!(word_low(0xabcd), 0xcd);
}

#[test]
fn single_registers_are_read_and_written_by_identity() {
    let mut r = Registers::default();
    let all = [Reg8::A, Reg8::B, Reg8::C, Reg8::D, Reg8::E, Reg8::H, Reg8::L];
    for (i, reg) in all.iter().enumerate() {
        r.set(*reg, 0x10 + i as u8);
    }
    assert_eq!(r.a, 0x10);
    assert_eq!(r.b, 0x11);
    assert_eq!(r.c, 0x12);
    assert_eq!(r.d, 0x13);
    assert_eq!(r.e, 0x14);
    assert_eq!(r.h, 0x15);
    assert_eq!(r.l, 0x16);
    for (i, reg) in all.iter().enumerate() {
        assert_eq!(r.get(*reg), 0x10 + i as u8);
    }
    assert_eq!(r.f, 0xb0);
}

#[test]
fn flags_are_bits_seven_to_four() {
    let mut r = Registers::default();
    r.f = 0;
    r.set_zero_flag(true);
    assert_eq!(r.f, 0x80);
    r.set_subtract_flag(true);
    assert_eq!(r.f, 0xc0);
    r.set_half_carry_flag(true);
    assert_eq!(r.f, 0xe0);
    r.set_carry_flag(true);
    assert_eq!(r.f, 0xf0);
    r.set_zero_flag(false);
    assert_eq!(r.f, 0x70);
    r.set_subtract_flag(false);
    assert_eq!(r.f, 0x30);
    r.set_half_carry_flag(false);
    assert_eq!(r.f, 0x10);
    r.set_carry_flag(false);
    assert_eq!(r.f, 0x00);
}

#[test]
fn flags_read_back_independently() {
    let mut r = Registers::default();
    for bits in 0u8..16 {
        let z = bits & 8 != 0;
        let n = bits & 4 != 0;
        let h = bits & 2 != 0;
        let c = bits & 1 != 0;
        r.set_flags(z, n, h, c);
        assert_eq!(r.get_zero_flag(), z);
        assert_eq!(r.get_subtract_flag(), n);
        assert_eq!(r.get_half_carry_flag(), h);
        assert_eq!(r.get_carry_flag(), c);
        assert_eq!(r.f & 0x0f, 0);
    }
}

#[test]
fn boot_flags_are_zero_half_carry_and_carry() {
    let r = Registers::default();
    assert!(r.get_zero_flag());
    assert!(!r.get_subtract_flag());
    assert!(r.get_half_carry_flag());
    assert!(r.get_carry_flag());
}

#[test]
fn next_command_returns_the_counter_and_moves_it_on() {
    let mut r = Registers::default();
    assert_eq!(r.next_command(), 0x0100);
    assert_eq!(r.pc, 0x0101);
    assert_eq!(r.next_command(), 0x0101);
    assert_eq!(r.pc, 0x0102);
}

#[test]
fn next_command_wraps_at_the_end_of_the_address_space() {
    let mut r = Registers::default();
    r.pc = 0xffff;
    assert_eq!(r.next_command(), 0xffff);
    assert_eq!(r.pc, 0x0000);
}

#[test]
fn reset_restores_the_boot_values() {
    let mut r = Registers::default();
    r.set_bc(0xffff);
    r.set_af(0x0000);
    r.sp = 0x1234;
    r.pc = 0x4321;
    r.reset();
    assert_eq!(r, Registers::default());
}
