use gameboy_core::gpu::Gpu;
use gameboy_core::interrupts::{InterruptSource, Interrupts};
use gameboy_core::memory::Memory;
use gameboy_core::registers::Registers;

fn parts() -> (Interrupts, Registers, Memory, Gpu) {
    (Interrupts::default(), Registers::default(), Memory::new([0u8; 0x8000]), Gpu::default())
}

#[test]
fn the_controller_starts_with_the_master_switch_on_and_empty_masks() {
    let interrupts = Interrupts::default();
    assert_eq!(interrupts.master, 1);
    assert_eq!(interrupts.enable, 0);
    assert_eq!(interrupts.flags, 0);
    assert_eq!(interrupts.select(), None);
}

#[test]
fn sources_have_their_bits_and_vectors() {
    assert_eq!(InterruptSource::Vblank.bit(), 0x01);
    assert_eq!(InterruptSource::LcdStat.bit(), 0x02);
    assert_eq!(InterruptSource::Timer.bit(), 0x04);
    assert_eq!(InterruptSource::Serial.bit(), 0x08);
    assert_eq!(InterruptSource::Joypad.bit(), 0x10);
    assert_eq!(InterruptSource::Vblank.address(), 0x40);
    assert_eq!(InterruptSource::LcdStat.address(), 0x48);
    assert_eq!(InterruptSource::Timer.address(), 0x50);
    assert_eq!(InterruptSource::Serial.address(), 0x58);
    assert_eq!(InterruptSource::Joypad.address(), 0x60);
}

#[test]
fn vblank_goes_before_timer() {
    let (mut interrupts, mut registers, mut memory, mut gpu) = parts();
    let mut ticks: u32 = 100;
    interrupts.enable = 0x05;
    interrupts.flags = 0x05;
    registers.pc = 0x1234;
    assert!(interrupts.can_step(&registers));
    interrupts.step(&mut registers, &mut memory, &mut ticks, &mut gpu);
    assert_eq!(registers.pc, 0x0040);
    assert_eq!(registers.sp, 0xfffc);
    assert_eq!(interrupts.master, 0);
    assert_eq!(interrupts.flags, 0x04);
    assert_eq!(interrupts.enable, 0x05);
    assert_eq!(ticks, 112);
    assert_eq!(memory.read_short(0xfffc, &gpu, &interrupts), 0x1234);
}

#[test]
fn the_timer_is_served_once_the_master_switch_is_back_on() {
    let (mut interrupts, mut registers, mut memory, mut gpu) = parts();
    let mut ticks: u32 = 0;
    interrupts.enable = 0x05;
    interrupts.flags = 0x05;
    registers.pc = 0x1234;
    interrupts.step(&mut registers, &mut memory, &mut ticks, &mut gpu);
    interrupts.step(&mut registers, &mut memory, &mut ticks, &mut gpu);
    assert_eq!(registers.pc, 0x0040);
    assert_eq!(ticks, 12);
    interrupts.return_from_interrupt(&mut registers, &memory, &gpu);
    assert_eq!(registers.pc, 0x1234);
    assert_eq!(registers.sp, 0xfffe);
    assert_eq!(interrupts.master, 1);
    interrupts.step(&mut registers, &mut memory, &mut ticks, &mut gpu);
    assert_eq!(registers.pc, 0x0050);
    assert_eq!(interrupts.flags, 0x00);
    assert_eq!(interrupts.master, 0);
    assert_eq!(ticks, 24);
}

#[test]
fn each_source_jumps_to_its_vector() {
    let cases = [(0x01u8, 0x40u16), (0x02, 0x48), (0x04, 0x50), (0x08, 0x58), (0x10, 0x60)];
    for (bit, vector) in cases {
        let (mut interrupts, mut registers, mut memory, mut gpu) = parts();
        let mut ticks: u32 = 7;
        interrupts.enable = 0xff;
        interrupts.flags = bit;
        registers.pc = 0x0150;
        interrupts.step(&mut registers, &mut memory, &mut ticks, &mut gpu);
        assert_eq!(registers.pc, vector);
        assert_eq!(interrupts.flags, 0x00);
        assert_eq!(interrupts.master, 0);
        assert_eq!(ticks, 19);
        assert_eq!(memory.read_short(registers.sp, &gpu, &interrupts), 0x0150);
    }
}

#[test]
fn priority_runs_from_vblank_down_to_joypad() {
    let order = [
        InterruptSource::Vblank,
        InterruptSource::LcdStat,
        InterruptSource::Timer,
        InterruptSource::Serial,
        InterruptSource::Joypad,
    ];
    let mut interrupts = Interrupts::default();
    interrupts.enable = 0x1f;
    interrupts.flags = 0x1f;
    for source in order {
        assert_eq!(interrupts.select(), Some(source));
        interrupts.flags &= !source.bit();
    }
    assert_eq!(interrupts.select(), None);
}

#[test]
fn nothing_is_dispatched_while_the_master_switch_is_off() {
    let (mut interrupts, mut registers, mut memory, mut gpu) = parts();
    let mut ticks: u32 = 5;
    interrupts.disable();
    interrupts.enable = 0x1f;
    interrupts.flags = 0x1f;
    let before = registers;
    assert_eq!(interrupts.select(), None);
    interrupts.step(&mut registers, &mut memory, &mut ticks, &mut gpu);
    assert_eq!(registers, before);
    assert_eq!(interrupts.flags, 0x1f);
    assert_eq!(interrupts.master, 0);
    assert_eq!(ticks, 5);
}

#[test]
fn a_pending_source_that_is_not_enabled_is_not_dispatched() {
    let (mut interrupts, mut registers, mut memory, mut gpu) = parts();
    let mut ticks: u32 = 0;
    interrupts.enable = 0x02;
    interrupts.flags = 0x05;
    let before = registers;
    interrupts.step(&mut registers, &mut memory, &mut ticks, &mut gpu);
    assert_eq!(registers, before);
    assert_eq!(interrupts.flags, 0x05);
    assert_eq!(interrupts.master, 1);
    assert_eq!(ticks, 0);
}

#[test]
fn mask_bits_above_the_five_sources_dispatch_nothing() {
    let mut interrupts = Interrupts::default();
    interrupts.enable = 0xe0;
    interrupts.flags = 0xe0;
    assert_eq!(interrupts.select(), None);
}

#[test]
fn requests_set_pending_bits() {
    let mut interrupts = Interrupts::default();
    interrupts.request(InterruptSource::Timer);
    assert_eq!(interrupts.flags, 0x04);
    interrupts.request(InterruptSource::Joypad);
    assert_eq!(interrupts.flags, 0x14);
    interrupts.request(InterruptSource::Timer);
    assert_eq!(interrupts.flags, 0x14);
    interrupts.set_vblank_interrupt();
    assert_eq!(interrupts.flags, 0x15);
    assert_eq!(interrupts.enable, 0x00);
}

#[test]
fn vblank_is_enabled_by_bit_zero_of_the_enable_mask() {
    let mut interrupts = Interrupts::default();
    assert!(!interrupts.has_vblank_interrupt());
    interrupts.enable = 0xfe;
    assert!(!interrupts.has_vblank_interrupt());
    interrupts.enable = 0x01;
    assert!(interrupts.has_vblank_interrupt());
}

#[test]
fn enable_and_disable_set_the_master_switch() {
    let mut interrupts = Interrupts::default();
    interrupts.disable();
    assert_eq!(interrupts.master, 0);
    interrupts.enable();
    assert_eq!(interrupts.master, 1);
    assert_eq!(interrupts.enable, 0);
    assert_eq!(interrupts.flags, 0);
}

#[test]
fn a_dispatch_with_the_stack_in_the_cartridge_cannot_run() {
    let (mut interrupts, mut registers, _memory, _gpu) = parts();
    interrupts.enable = 0x01;
    interrupts.flags = 0x01;
    registers.sp = 0x4000;
    assert!(!interrupts.can_step(&registers));
    registers.sp = 0x8001;
    assert!(!interrupts.can_step(&registers));
    registers.sp = 0x0001;
    assert!(!interrupts.can_step(&registers));
    registers.sp = 0x8002;
    assert!(interrupts.can_step(&registers));
    interrupts.flags = 0x00;
    registers.sp = 0x4000;
    assert!(interrupts.can_step(&registers));
}

#[test]
fn a_push_over_the_pending_mask_overwrites_it() {
    let (mut interrupts, mut registers, mut memory, mut gpu) = parts();
    let mut ticks: u32 = 0;
    interrupts.enable = 0x05;
    interrupts.flags = 0x05;
    registers.sp = 0xff11;
    registers.pc = 0x2200;
    interrupts.step(&mut registers, &mut memory, &mut ticks, &mut gpu);
    assert_eq!(registers.pc, 0x0040);
    assert_eq!(interrupts.flags, 0x00);
    assert_eq!(memory.io[0x10], 0x22);
}
