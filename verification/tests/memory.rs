use gameboy_core::bus::{is_word_writable, is_writable, locate, Region};
use gameboy_core::gpu::Gpu;
use gameboy_core::interrupts::Interrupts;
use gameboy_core::memory::Memory;
use gameboy_core::registers::Registers;

fn blank() -> (Memory, Gpu, Interrupts) {
    (Memory::new([0u8; 0x8000]), Gpu::default(), Interrupts::default())
}

fn cartridge_with(bytes: &[(usize, u8)]) -> [u8; 0x8000] {
    let mut cartridge = [0u8; 0x8000];
    for (at, value) in bytes {
        cartridge[*at] = *value;
    }
    cartridge
}

#[test]
fn new_memory_holds_the_cartridge_and_zeroes() {
    let memory = Memory::new(cartridge_with(&[(0, 0x31), (0x7fff, 0x99)]));
    let gpu = Gpu::default();
    let interrupts = Interrupts::default();
    assert_eq!(memory.read_byte(0x0000, &gpu, &interrupts), 0x31);
    assert_eq!(memory.read_byte(0x7fff, &gpu, &interrupts), 0x99);
    assert_eq!(memory.read_byte(0x0001, &gpu, &interrupts), 0x00);
    for address in [0x8000u16, 0x9fff, 0xa000, 0xbfff, 0xc000, 0xdfff, 0xe000, 0xfdff, 0xfe00,
        0xfeff, 0xff00, 0xff7f, 0xff80, 0xfffe, 0xffff] {
        assert_eq!(memory.read_byte(address, &gpu, &interrupts), 0x00);
    }
}

#[test]
fn video_ram_round_trip() {
    let (mut memory, mut gpu, mut interrupts) = blank();
    memory.write_byte(0x8000, 0xff, &mut gpu, &mut interrupts);
    assert_eq!(memory.read_byte(0x8000, &gpu, &interrupts), 0xff);
    assert_eq!(memory.video_ram[0], 0xff);
    assert_eq!(memory.read_byte(0x8001, &gpu, &interrupts), 0x00);
}

#[test]
fn the_cartridge_is_not_writable() {
    assert!(!is_writable(0x0000));
    assert!(!is_writable(0x0100));
    assert!(!is_writable(0x7fff));
    assert!(is_writable(0x8000));
    assert!(is_writable(0xffff));
    assert!(!is_word_writable(0x7fff));
    assert!(!is_word_writable(0xffff));
    assert!(is_word_writable(0x8000));
    assert!(is_word_writable(0xfffe));
}

#[test]
fn every_address_routes_into_its_region() {
    let mut address: u32 = 0;
    while address <= 0xffff {
        let route = locate(address as u16);
        let size: u16 = match route.region {
            Region::Cartridge => 0x8000,
            Region::VideoRam | Region::SwitchableRam | Region::WriteRam => 0x2000,
            Region::Oam => 0x100,
            Region::Io | Region::HardwareRam => 0x80,
            _ => 1,
        };
        assert!(route.offset < size);
        address += 1;
    }
}

#[test]
fn routes_of_the_region_borders() {
    assert_eq!(locate(0x0000).region, Region::Cartridge);
    assert_eq!(locate(0x7fff).region, Region::Cartridge);
    assert_eq!(locate(0x7fff).offset, 0x7fff);
    assert_eq!(locate(0x8000).region, Region::VideoRam);
    assert_eq!(locate(0x8000).offset, 0);
    assert_eq!(locate(0x9fff).offset, 0x1fff);
    assert_eq!(locate(0xa000).region, Region::SwitchableRam);
    assert_eq!(locate(0xbfff).offset, 0x1fff);
    assert_eq!(locate(0xc000).region, Region::WriteRam);
    assert_eq!(locate(0xdfff).offset, 0x1fff);
    assert_eq!(locate(0xe000).region, Region::WriteRam);
    assert_eq!(locate(0xe000).offset, 0);
    assert_eq!(locate(0xfdff).offset, 0x1dff);
    assert_eq!(locate(0xfe00).region, Region::Oam);
    assert_eq!(locate(0xfeff).offset, 0xff);
    assert_eq!(locate(0xff00).region, Region::Io);
    assert_eq!(locate(0xff0f).region, Region::InterruptFlags);
    assert_eq!(locate(0xff40).region, Region::Control);
    assert_eq!(locate(0xff41).region, Region::Io);
    assert_eq!(locate(0xff41).offset, 0x41);
    assert_eq!(locate(0xff42).region, Region::ScrollY);
    assert_eq!(locate(0xff43).region, Region::ScrollX);
    assert_eq!(locate(0xff44).region, Region::Scanline);
    assert_eq!(locate(0xff46).region, Region::Dma);
    assert_eq!(locate(0xff7f).region, Region::Io);
    assert_eq!(locate(0xff80).region, Region::HardwareRam);
    assert_eq!(locate(0xff80).offset, 0);
    assert_eq!(locate(0xfffe).region, Region::HardwareRam);
    assert_eq!(locate(0xfffe).offset, 0x7e);
    assert_eq!(locate(0xffff).region, Region::InterruptEnable);
}

#[test]
fn each_ram_region_holds_what_is_written() {
    let (mut memory, mut gpu, mut interrupts) = blank();
    let places = [0x8000u16, 0x9fff, 0xa000, 0xbfff, 0xc000, 0xdfff, 0xfe00, 0xfeff, 0xff00,
        0xff7f, 0xff80, 0xfffe];
    for (i, address) in places.iter().enumerate() {
        memory.write_byte(*address, 0x40 + i as u8, &mut gpu, &mut interrupts);
    }
    for (i, address) in places.iter().enumerate() {
        assert_eq!(memory.read_byte(*address, &gpu, &interrupts), 0x40 + i as u8);
    }
    assert_eq!(memory.video_ram[0x1fff], 0x41);
    assert_eq!(memory.switchable_ram[0], 0x42);
    assert_eq!(memory.write_ram[0x1fff], 0x45);
    assert_eq!(memory.oam[0xff], 0x47);
    assert_eq!(memory.io[0x7f], 0x49);
    assert_eq!(memory.hardware_ram[0], 0x4a);
    assert_eq!(memory.hardware_ram[0x7e], 0x4b);
}

#[test]
fn work_ram_is_seen_at_two_windows() {
    let (mut memory, mut gpu, mut interrupts) = blank();
    memory.write_byte(0xc123, 0x5a, &mut gpu, &mut interrupts);
    assert_eq!(memory.read_byte(0xe123, &gpu, &interrupts), 0x5a);
    memory.write_byte(0xfdff, 0xa5, &mut gpu, &mut interrupts);
    assert_eq!(memory.read_byte(0xddff, &gpu, &interrupts), 0xa5);
    assert_eq!(memory.write_ram[0x1dff], 0xa5);
}

#[test]
fn display_registers_live_in_the_display_timer() {
    let (mut memory, mut gpu, mut interrupts) = blank();
    memory.write_byte(0xff40, 0x91, &mut gpu, &mut interrupts);
    memory.write_byte(0xff42, 0x22, &mut gpu, &mut interrupts);
    memory.write_byte(0xff43, 0x33, &mut gpu, &mut interrupts);
    assert_eq!(gpu.control, 0x91);
    assert_eq!(gpu.scroll_y, 0x22);
    assert_eq!(gpu.scroll_x, 0x33);
    assert_eq!(memory.io[0x40], 0x00);
    assert_eq!(memory.io[0x42], 0x00);
    assert_eq!(memory.io[0x43], 0x00);
    assert_eq!(memory.read_byte(0xff40, &gpu, &interrupts), 0x91);
    assert_eq!(memory.read_byte(0xff42, &gpu, &interrupts), 0x22);
    assert_eq!(memory.read_byte(0xff43, &gpu, &interrupts), 0x33);
}

#[test]
fn the_scanline_is_read_from_the_display_timer() {
    let (mut memory, mut gpu, mut interrupts) = blank();
    gpu.scanline = 77;
    assert_eq!(memory.read_byte(0xff44, &gpu, &interrupts), 77);
    memory.write_byte(0xff44, 0x12, &mut gpu, &mut interrupts);
    assert_eq!(gpu.scanline, 77);
    assert_eq!(memory.io[0x44], 0x12);
    assert_eq!(memory.read_byte(0xff44, &gpu, &interrupts), 77);
}

#[test]
fn interrupt_masks_live_in_the_interrupt_controller() {
    let (mut memory, mut gpu, mut interrupts) = blank();
    memory.write_byte(0xff0f, 0x05, &mut gpu, &mut interrupts);
    memory.write_byte(0xffff, 0x1f, &mut gpu, &mut interrupts);
    assert_eq!(interrupts.flags, 0x05);
    assert_eq!(interrupts.enable, 0x1f);
    assert_eq!(interrupts.master, 1);
    assert_eq!(memory.read_byte(0xff0f, &gpu, &interrupts), 0x05);
    assert_eq!(memory.read_byte(0xffff, &gpu, &interrupts), 0x1f);
    assert_eq!(memory.io[0x0f], 0x00);
}

#[test]
fn a_write_to_the_dma_trigger_copies_160_bytes() {
    let (mut memory, mut gpu, mut interrupts) = blank();
    for i in 0..0x100u16 {
        memory.write_byte(0xc100 + i, (i as u8) ^ 0x55, &mut gpu, &mut interrupts);
        memory.write_byte(0xfe00 + i, 0xee, &mut gpu, &mut interrupts);
    }
    memory.write_byte(0xff46, 0xc1, &mut gpu, &mut interrupts);
    for i in 0..160u16 {
        assert_eq!(memory.read_byte(0xfe00 + i, &gpu, &interrupts), (i as u8) ^ 0x55);
    }
    for i in 160..0x100u16 {
        assert_eq!(memory.read_byte(0xfe00 + i, &gpu, &interrupts), 0xee);
    }
    assert_eq!(memory.io[0x46], 0x00);
    assert_eq!(memory.read_byte(0xff46, &gpu, &interrupts), 0x00);
}

#[test]
fn dma_copies_from_the_cartridge_and_from_the_last_page() {
    let mut cartridge = [0u8; 0x8000];
    for i in 0..160usize {
        cartridge[0x1200 + i] = 0x80 | i as u8;
    }
    let mut memory = Memory::new(cartridge);
    let mut gpu = Gpu::default();
    let mut interrupts = Interrupts::default();
    memory.copy_to_oam(0x12, &gpu, &interrupts);
    for i in 0..160usize {
        assert_eq!(memory.oam[i], 0x80 | i as u8);
    }
    gpu.control = 0x77;
    interrupts.flags = 0x1b;
    memory.write_byte(0xff80, 0x44, &mut gpu, &mut interrupts);
    memory.write_byte(0xff46, 0xff, &mut gpu, &mut interrupts);
    assert_eq!(memory.oam[0x0f], 0x1b);
    assert_eq!(memory.oam[0x40], 0x77);
    assert_eq!(memory.oam[0x80], 0x44);
    assert_eq!(memory.oam[0x9f], 0x00);
}

#[test]
fn dma_from_the_sprite_table_changes_nothing() {
    let (mut memory, mut gpu, mut interrupts) = blank();
    for i in 0..0x100u16 {
        memory.write_byte(0xfe00 + i, i as u8, &mut gpu, &mut interrupts);
    }
    memory.write_byte(0xff46, 0xfe, &mut gpu, &mut interrupts);
    for i in 0..0x100usize {
        assert_eq!(memory.oam[i], i as u8);
    }
}

#[test]
fn words_are_little_endian() {
    let (mut memory, mut gpu, mut interrupts) = blank();
    memory.write_short(0xc000, 0x1234, &mut gpu, &mut interrupts);
    assert_eq!(memory.read_byte(0xc000, &gpu, &interrupts), 0x34);
    assert_eq!(memory.read_byte(0xc001, &gpu, &interrupts), 0x12);
    assert_eq!(memory.read_short(0xc000, &gpu, &interrupts), 0x1234);
}

#[test]
fn word_round_trip_at_writable_addresses() {
    let (mut memory, mut gpu, mut interrupts) = blank();
    let addresses = [0x8000u16, 0x9fff, 0xbfff, 0xdfff, 0xfdff, 0xfeff, 0xff0e, 0xff0f, 0xff3f,
        0xff40, 0xff41, 0xff47, 0xff7f, 0xff80, 0xfffd, 0xfffe];
    for address in addresses {
        for value in [0x0000u16, 0x00ff, 0xff00, 0x1234, 0xffff, 0xa55a] {
            memory.write_short(address, value, &mut gpu, &mut interrupts);
            assert_eq!(memory.read_short(address, &gpu, &interrupts), value);
        }
    }
}

#[test]
fn word_round_trip_for_every_word() {
    let (mut memory, mut gpu, mut interrupts) = blank();
    let mut v: u32 = 0;
    while v <= 0xffff {
        memory.write_short(0xc7fe, v as u16, &mut gpu, &mut interrupts);
        assert_eq!(memory.read_short(0xc7fe, &gpu, &interrupts), v as u16);
        v += 1;
    }
}

#[test]
fn a_word_over_the_scanline_register_does_not_read_back() {
    let (mut memory, mut gpu, mut interrupts) = blank();
    gpu.scanline = 9;
    memory.write_short(0xff44, 0x1234, &mut gpu, &mut interrupts);
    assert_eq!(memory.read_short(0xff44, &gpu, &interrupts), 0x1209);
}

#[test]
fn reading_a_word_wraps_at_the_end_of_the_address_space() {
    let mut memory = Memory::new(cartridge_with(&[(0, 0xab)]));
    let mut gpu = Gpu::default();
    let mut interrupts = Interrupts::default();
    memory.write_byte(0xffff, 0xcd, &mut gpu, &mut interrupts);
    assert_eq!(memory.read_short(0xffff, &gpu, &interrupts), 0xabcd);
}

#[test]
fn stack_round_trip_leaves_the_stack_pointer_where_it_was() {
    let (mut memory, mut gpu, mut interrupts) = blank();
    let mut registers = Registers::default();
    for value in [0x0000u16, 0x1234, 0xffff, 0x8001] {
        memory.write_short_to_stack(&mut registers, value, &mut gpu, &mut interrupts);
        assert_eq!(registers.sp, 0xfffc);
        assert_eq!(memory.read_short(0xfffc, &gpu, &interrupts), value);
        assert_eq!(memory.read_short_from_stack(&mut registers, &gpu, &interrupts), value);
        assert_eq!(registers.sp, 0xfffe);
    }
}

#[test]
fn the_stack_grows_downwards() {
    let (mut memory, mut gpu, mut interrupts) = blank();
    let mut registers = Registers::default();
    registers.sp = 0xd000;
    memory.write_short_to_stack(&mut registers, 0x1111, &mut gpu, &mut interrupts);
    memory.write_short_to_stack(&mut registers, 0x2222, &mut gpu, &mut interrupts);
    assert_eq!(registers.sp, 0xcffc);
    assert_eq!(memory.read_short_from_stack(&mut registers, &gpu, &interrupts), 0x2222);
    assert_eq!(memory.read_short_from_stack(&mut registers, &gpu, &interrupts), 0x1111);
    assert_eq!(registers.sp, 0xd000);
}

#[test]
fn the_stack_pointer_wraps() {
    let mut memory = Memory::new(cartridge_with(&[(0, 0x11), (1, 0x22)]));
    let gpu = Gpu::default();
    let interrupts = Interrupts::default();
    let mut registers = Registers::default();
    registers.sp = 0xffff;
    memory.hardware_ram[0] = 0;
    let value = memory.read_short_from_stack(&mut registers, &gpu, &interrupts);
    assert_eq!(value, 0x1100);
    assert_eq!(registers.sp, 0x0001);
}

#[test]
fn a_write_changes_no_other_region() {
    let (mut memory, mut gpu, mut interrupts) = blank();
    memory.write_byte(0xa010, 0x99, &mut gpu, &mut interrupts);
    assert_eq!(memory.switchable_ram[0x10], 0x99);
    assert!(memory.video_ram.iter().all(|b| *b == 0));
    assert!(memory.write_ram.iter().all(|b| *b == 0));
    assert!(memory.oam.iter().all(|b| *b == 0));
    assert!(memory.io.iter().all(|b| *b == 0));
    assert!(memory.hardware_ram.iter().all(|b| *b == 0));
    assert!(memory.cartridge.iter().all(|b| *b == 0));
    assert_eq!(gpu, Gpu::default());
    assert_eq!(interrupts, Interrupts::default());
}
