use gameboy_core::cpu::{Cpu, Dispatch};
use gameboy_core::gpu::Gpu;
use gameboy_core::instruction::{
    decode_opcode, instruction_ticks, is_supported, operand_bytes, AluOp, Condition, Instruction,
    Pair, StackPair,
};
use gameboy_core::interrupts::Interrupts;
use gameboy_core::memory::Memory;
use gameboy_core::registers::{Reg8, Registers};

struct Rig {
    cpu: Cpu,
    memory: Memory,
    registers: Registers,
    ticks: u32,
    gpu: Gpu,
    interrupts: Interrupts,
}

impl Rig {
    /// A machine whose program counter stands at 0xc000, behind an opcode,
    /// with `operands` as the bytes that follow.
    fn new(operands: &[u8]) -> Rig {
        let mut rig = Rig {
            cpu: Cpu::default(),
            memory: Memory::new([0u8; 0x8000]),
            registers: Registers::default(),
            ticks: 0,
            gpu: Gpu::default(),
            interrupts: Interrupts::default(),
        };
        rig.registers.pc = 0xc000;
        for (i, byte) in operands.iter().enumerate() {
            rig.memory.write_ram[i] = *byte;
        }
        rig
    }

    fn accepts(&self, opcode: u8) -> bool {
        self.cpu.accepts(opcode, &self.memory, &self.registers, &self.gpu, &self.interrupts)
    }

    fn step(&mut self, opcode: u8) -> Dispatch {
        assert!(self.accepts(opcode));
        self.cpu.step(
            opcode,
            &mut self.memory,
            &mut self.registers,
            &mut self.ticks,
            &mut self.gpu,
            &mut self.interrupts,
        )
    }

    fn read(&self, address: u16) -> u8 {
        self.memory.read_byte(address, &self.gpu, &self.interrupts)
    }
}

#[test]
fn the_opcode_table_names_the_instructions() {
    assert_eq!(decode_opcode(0x00), Instruction::Nop);
    assert_eq!(decode_opcode(0x01), Instruction::LdPairNn { target: Pair::BC });
    assert_eq!(decode_opcode(0x31), Instruction::LdPairNn { target: Pair::SP });
    assert_eq!(decode_opcode(0x02), Instruction::LdBcA);
    assert_eq!(decode_opcode(0x08), Instruction::LdNnSp);
    assert_eq!(decode_opcode(0x0a), Instruction::LdABc);
    assert_eq!(decode_opcode(0x10), Instruction::Stop);
    assert_eq!(decode_opcode(0x12), Instruction::LdDeA);
    assert_eq!(decode_opcode(0x04), Instruction::Inc { reg: Reg8::B });
    assert_eq!(decode_opcode(0x3d), Instruction::Dec { reg: Reg8::A });
    assert_eq!(decode_opcode(0x2e), Instruction::LdRN { dst: Reg8::L });
    assert_eq!(decode_opcode(0x20), Instruction::Jr { cond: Condition::NotZero });
    assert_eq!(decode_opcode(0x28), Instruction::Jr { cond: Condition::Zero });
    assert_eq!(decode_opcode(0x30), Instruction::Jr { cond: Condition::NotCarry });
    assert_eq!(decode_opcode(0x38), Instruction::Jr { cond: Condition::Carry });
    assert_eq!(decode_opcode(0x32), Instruction::LddHlA);
    assert_eq!(decode_opcode(0x40), Instruction::LdRR { dst: Reg8::B, src: Reg8::B });
    assert_eq!(decode_opcode(0x41), Instruction::LdRR { dst: Reg8::B, src: Reg8::C });
    assert_eq!(decode_opcode(0x7d), Instruction::LdRR { dst: Reg8::A, src: Reg8::L });
    assert_eq!(decode_opcode(0x46), Instruction::LdRHl { dst: Reg8::B });
    assert_eq!(decode_opcode(0x7e), Instruction::LdRHl { dst: Reg8::A });
    assert_eq!(decode_opcode(0x70), Instruction::LdHlR { src: Reg8::B });
    assert_eq!(decode_opcode(0x77), Instruction::LdHlR { src: Reg8::A });
    assert_eq!(decode_opcode(0x76), Instruction::Halt);
    assert_eq!(decode_opcode(0x80), Instruction::Alu { op: AluOp::Add, src: Reg8::B });
    assert_eq!(decode_opcode(0x8f), Instruction::Alu { op: AluOp::Adc, src: Reg8::A });
    assert_eq!(decode_opcode(0x95), Instruction::Alu { op: AluOp::Sub, src: Reg8::L });
    assert_eq!(decode_opcode(0x99), Instruction::Alu { op: AluOp::Sbc, src: Reg8::C });
    assert_eq!(decode_opcode(0xa2), Instruction::Alu { op: AluOp::And, src: Reg8::D });
    assert_eq!(decode_opcode(0xab), Instruction::Alu { op: AluOp::Xor, src: Reg8::E });
    assert_eq!(decode_opcode(0xb4), Instruction::Alu { op: AluOp::Or, src: Reg8::H });
    assert_eq!(decode_opcode(0xbf), Instruction::Alu { op: AluOp::Cp, src: Reg8::A });
    assert_eq!(decode_opcode(0x86), Instruction::AluHl { op: AluOp::Add });
    assert_eq!(decode_opcode(0xc6), Instruction::AluN { op: AluOp::Add });
    assert_eq!(decode_opcode(0xfe), Instruction::AluN { op: AluOp::Cp });
    assert_eq!(decode_opcode(0xc0), Instruction::RetNz);
    assert_eq!(decode_opcode(0xd8), Instruction::RetC);
    assert_eq!(decode_opcode(0xc9), Instruction::Ret);
    assert_eq!(decode_opcode(0xd9), Instruction::Reti);
    assert_eq!(decode_opcode(0xc2), Instruction::JpNzNn);
    assert_eq!(decode_opcode(0xd2), Instruction::JpNcNn);
    assert_eq!(decode_opcode(0xc3), Instruction::JpNn);
    assert_eq!(decode_opcode(0xe9), Instruction::JpHl);
    assert_eq!(decode_opcode(0xc1), Instruction::Pop { pair: StackPair::BC });
    assert_eq!(decode_opcode(0xf1), Instruction::Pop { pair: StackPair::AF });
    assert_eq!(decode_opcode(0xd5), Instruction::Push { pair: StackPair::DE });
    assert_eq!(decode_opcode(0xe5), Instruction::Push { pair: StackPair::HL });
    assert_eq!(decode_opcode(0xc7), Instruction::Rst { vector: 0x00 });
    assert_eq!(decode_opcode(0xef), Instruction::Rst { vector: 0x28 });
    assert_eq!(decode_opcode(0xff), Instruction::Rst { vector: 0x38 });
    assert_eq!(decode_opcode(0xf2), Instruction::LdAFfC);
    assert_eq!(decode_opcode(0xf3), Instruction::Di);
    assert_eq!(decode_opcode(0xfb), Instruction::Ei);
    assert_eq!(decode_opcode(0xf9), Instruction::LdSpHl);
}

#[test]
fn opcodes_without_a_handler_are_unsupported_and_cost_nothing() {
    let unsupported = [0x03u8, 0x07, 0x09, 0x13, 0x17, 0x18, 0x19, 0x1a, 0x1b, 0x22, 0x23, 0x27,
        0x29, 0x2a, 0x2b, 0x34, 0x35, 0x36, 0x39, 0x3a, 0x8e, 0x96, 0x9e, 0xa6, 0xae, 0xb6, 0xbe,
        0xc4, 0xc8, 0xca, 0xcb, 0xcc, 0xcd, 0xd0, 0xd3, 0xd4, 0xda, 0xdb, 0xdc, 0xdd, 0xe0, 0xe2,
        0xe3, 0xe4, 0xe8, 0xea, 0xeb, 0xec, 0xed, 0xf0, 0xf4, 0xf8, 0xfa, 0xfc, 0xfd];
    for opcode in unsupported {
        assert_eq!(decode_opcode(opcode), Instruction::Unsupported);
        assert!(!is_supported(opcode));
        assert_eq!(instruction_ticks(opcode), 0);
    }
    let mut supported = 0;
    let mut opcode: u16 = 0;
    while opcode <= 0xff {
        if is_supported(opcode as u8) {
            supported += 1;
            assert!(instruction_ticks(opcode as u8) > 0);
        }
        opcode += 1;
    }
    assert_eq!(supported, 256 - unsupported.len());
}

#[test]
fn the_base_cost_table() {
    let expected: [u8; 256] = [
        2, 6, 4, 0, 2, 2, 4, 0, 10, 0, 4, 4, 2, 2, 4, 4,
        2, 6, 4, 0, 2, 2, 4, 0, 0, 0, 0, 0, 2, 2, 4, 4,
        8, 6, 0, 0, 2, 2, 4, 0, 8, 0, 0, 0, 2, 2, 4, 2,
        12, 6, 4, 4, 0, 0, 0, 2, 8, 0, 0, 4, 2, 2, 4, 2,
        2, 2, 2, 2, 2, 2, 4, 2, 2, 2, 2, 2, 2, 2, 4, 2,
        2, 2, 2, 2, 2, 2, 4, 2, 2, 2, 2, 2, 2, 2, 4, 2,
        2, 2, 2, 2, 2, 2, 4, 2, 2, 2, 2, 2, 2, 2, 4, 2,
        4, 4, 4, 4, 4, 4, 2, 4, 2, 2, 2, 2, 2, 2, 4, 2,
        2, 2, 2, 2, 2, 2, 4, 2, 2, 2, 2, 2, 2, 2, 0, 2,
        2, 2, 2, 2, 2, 2, 0, 2, 2, 2, 2, 2, 2, 2, 0, 2,
        2, 2, 2, 2, 2, 2, 0, 2, 2, 2, 2, 2, 2, 2, 0, 2,
        2, 2, 2, 2, 2, 2, 0, 2, 2, 2, 2, 2, 2, 2, 0, 2,
        8, 6, 12, 6, 0, 8, 4, 8, 0, 2, 0, 0, 0, 0, 4, 8,
        0, 6, 12, 0, 0, 8, 4, 8, 8, 8, 0, 0, 0, 0, 4, 8,
        0, 6, 0, 0, 0, 8, 4, 8, 0, 2, 0, 0, 0, 0, 4, 8,
        0, 6, 4, 2, 0, 8, 4, 8, 0, 4, 0, 2, 0, 0, 4, 8,
    ];
    for opcode in 0..256usize {
        assert_eq!(instruction_ticks(opcode as u8), expected[opcode], "opcode {:#04x}", opcode);
    }
}

#[test]
fn operand_bytes_of_the_instructions() {
    let one = [0x06u8, 0x0e, 0x16, 0x1e, 0x26, 0x2e, 0x3e, 0x20, 0x28, 0x30, 0x38, 0xc6, 0xce,
        0xd6, 0xde, 0xe6, 0xee, 0xf6, 0xfe];
    let two = [0x01u8, 0x11, 0x21, 0x31, 0x08, 0xc2, 0xd2, 0xc3];
    let mut opcode: u16 = 0;
    while opcode <= 0xff {
        let expected = if one.contains(&(opcode as u8)) {
            1
        } else if two.contains(&(opcode as u8)) {
            2
        } else {
            0
        };
        assert_eq!(operand_bytes(decode_opcode(opcode as u8)), expected, "opcode {:#04x}", opcode);
        opcode += 1;
    }
}

#[test]
fn instructions_that_fall_through_move_past_their_operands() {
    let mut opcode: u16 = 0;
    while opcode <= 0xff {
        let instruction = decode_opcode(opcode as u8);
        let jumps = matches!(
            instruction,
            Instruction::Stop
                | Instruction::Halt
                | Instruction::LdAFfC
                | Instruction::Jr { .. }
                | Instruction::RetNz
                | Instruction::RetC
                | Instruction::Ret
                | Instruction::Reti
                | Instruction::JpNzNn
                | Instruction::JpNcNn
                | Instruction::JpNn
                | Instruction::JpHl
                | Instruction::Rst { .. }
        );
        let mut rig = Rig::new(&[0x00, 0xd0]);
        rig.registers.set_hl(0xc010);
        rig.registers.set_bc(0xc020);
        rig.registers.set_de(0xc030);
        rig.registers.sp = 0xd000;
        if !jumps {
            rig.step(opcode as u8);
            assert_eq!(rig.registers.pc, 0xc000 + operand_bytes(instruction) as u16);
        }
        opcode += 1;
    }
}

#[test]
fn nop_changes_nothing_but_the_ticks() {
    let mut rig = Rig::new(&[]);
    let before = rig.registers;
    assert_eq!(rig.step(0x00), Dispatch::Executed);
    assert_eq!(rig.registers, before);
    assert_eq!(rig.ticks, 2);
    assert!(!rig.cpu.stopped);
}

#[test]
fn a_register_loaded_from_itself_is_a_nop() {
    for opcode in [0x7fu8, 0x40, 0x49, 0x52, 0x5b, 0x64, 0x6d] {
        let mut rig = Rig::new(&[]);
        let before = rig.registers;
        assert_eq!(rig.step(opcode), Dispatch::Executed);
        assert_eq!(rig.registers, before);
        assert_eq!(rig.ticks, 2);
    }
}

#[test]
fn loads_between_registers() {
    let regs = [Reg8::B, Reg8::C, Reg8::D, Reg8::E, Reg8::H, Reg8::L, Reg8::A];
    let codes = [0u8, 1, 2, 3, 4, 5, 7];
    for (di, dst) in regs.iter().enumerate() {
        for (si, src) in regs.iter().enumerate() {
            let opcode = 0x40 | (codes[di] << 3) | codes[si];
            let mut rig = Rig::new(&[]);
            for (i, reg) in regs.iter().enumerate() {
                rig.registers.set(*reg, 0x21 + i as u8);
            }
            let mut expected = rig.registers;
            expected.set(*dst, 0x21 + si as u8);
            assert_eq!(rig.step(opcode), Dispatch::Executed);
            assert_eq!(rig.registers, expected, "opcode {:#04x}", opcode);
            assert_eq!(rig.registers.get(*src), 0x21 + si as u8);
            assert_eq!(rig.ticks, 2);
        }
    }
}

#[test]
fn loads_from_and_to_the_byte_at_hl() {
    let regs = [Reg8::B, Reg8::C, Reg8::D, Reg8::E, Reg8::H, Reg8::L, Reg8::A];
    let codes = [0u8, 1, 2, 3, 4, 5, 7];
    for (i, reg) in regs.iter().enumerate() {
        let mut rig = Rig::new(&[]);
        rig.registers.set_hl(0xc234);
        rig.memory.write_ram[0x234] = 0x9c;
        let mut expected = rig.registers;
        expected.set(*reg, 0x9c);
        rig.step(0x46 | (codes[i] << 3));
        assert_eq!(rig.registers, expected);
        assert_eq!(rig.ticks, 4);

        let mut rig = Rig::new(&[]);
        rig.registers.a = 0x5e;
        rig.registers.set_bc(0x1122);
        rig.registers.set_de(0x3344);
        rig.registers.set_hl(0xc234);
        let before = rig.registers;
        rig.step(0x70 | codes[i]);
        assert_eq!(rig.registers, before);
        assert_eq!(rig.read(0xc234), before.get(*reg));
        assert_eq!(rig.ticks, 4);
    }
}

#[test]
fn loads_of_an_operand_byte() {
    let cases = [(0x06u8, Reg8::B), (0x0e, Reg8::C), (0x16, Reg8::D), (0x1e, Reg8::E),
        (0x26, Reg8::H), (0x2e, Reg8::L), (0x3e, Reg8::A)];
    for (opcode, reg) in cases {
        let mut rig = Rig::new(&[0x77]);
        let mut expected = rig.registers;
        expected.set(reg, 0x77);
        expected.pc = 0xc001;
        rig.step(opcode);
        assert_eq!(rig.registers, expected);
        assert_eq!(rig.ticks, 4);
    }
}

#[test]
fn loads_of_an_operand_word() {
    let mut rig = Rig::new(&[0x34, 0x12]);
    rig.step(0x01);
    assert_eq!(rig.registers.get_bc(), 0x1234);
    assert_eq!(rig.registers.pc, 0xc002);
    assert_eq!(rig.ticks, 6);
    let mut rig = Rig::new(&[0x78, 0x56]);
    rig.step(0x11);
    assert_eq!(rig.registers.get_de(), 0x5678);
    let mut rig = Rig::new(&[0xbc, 0x9a]);
    rig.step(0x21);
    assert_eq!(rig.registers.get_hl(), 0x9abc);
    let mut rig = Rig::new(&[0xf0, 0xde]);
    rig.step(0x31);
    assert_eq!(rig.registers.sp, 0xdef0);
    assert_eq!(rig.registers.pc, 0xc002);
}

#[test]
fn stores_and_loads_of_a_through_pairs() {
    let mut rig = Rig::new(&[]);
    rig.registers.a = 0x42;
    rig.registers.set_bc(0x8010);
    rig.step(0x02);
    assert_eq!(rig.memory.video_ram[0x10], 0x42);
    assert_eq!(rig.ticks, 4);

    let mut rig = Rig::new(&[]);
    rig.registers.a = 0x43;
    rig.registers.set_de(0xa020);
    rig.step(0x12);
    assert_eq!(rig.memory.switchable_ram[0x20], 0x43);

    let mut rig = Rig::new(&[]);
    rig.registers.set_bc(0xff80);
    rig.memory.hardware_ram[0] = 0x44;
    rig.step(0x0a);
    assert_eq!(rig.registers.a, 0x44);
    assert_eq!(rig.ticks, 4);

    let mut rig = Rig::new(&[]);
    rig.registers.a = 0x45;
    rig.registers.set_hl(0x9000);
    rig.step(0x32);
    assert_eq!(rig.memory.video_ram[0x1000], 0x45);
    assert_eq!(rig.registers.get_hl(), 0x9000);
    assert_eq!(rig.ticks, 4);
}

#[test]
fn the_stack_pointer_is_stored_at_an_operand_address() {
    let mut rig = Rig::new(&[0x00, 0xd0]);
    rig.registers.sp = 0xbeef;
    rig.step(0x08);
    assert_eq!(rig.read(0xd000), 0xef);
    assert_eq!(rig.read(0xd001), 0xbe);
    assert_eq!(rig.registers.pc, 0xc002);
    assert_eq!(rig.registers.sp, 0xbeef);
    assert_eq!(rig.ticks, 10);
}

#[test]
fn a_is_loaded_from_the_io_block_plus_c() {
    let mut rig = Rig::new(&[]);
    rig.memory.io[0] = 0xf0;
    rig.registers.c = 0x13;
    rig.step(0xf2);
    assert_eq!(rig.registers.a, 0x03);
    assert_eq!(rig.registers.pc, 0xc001);
    assert_eq!(rig.ticks, 4);
}

#[test]
fn increments_and_decrements_of_registers() {
    let regs = [Reg8::B, Reg8::C, Reg8::D, Reg8::E, Reg8::H, Reg8::L, Reg8::A];
    let codes = [0u8, 1, 2, 3, 4, 5, 7];
    for (i, reg) in regs.iter().enumerate() {
        let mut rig = Rig::new(&[]);
        rig.registers.f = 0x10;
        rig.registers.set(*reg, 0xff);
        rig.step(0x04 | (codes[i] << 3));
        assert_eq!(rig.registers.get(*reg), 0x00);
        assert_eq!(rig.registers.f, 0xb0);
        assert_eq!(rig.ticks, 2);
        rig.step(0x05 | (codes[i] << 3));
        assert_eq!(rig.registers.get(*reg), 0xff);
        assert_eq!(rig.registers.f, 0x70);
        assert_eq!(rig.ticks, 4);
    }
}

#[test]
fn sixteen_bit_counters() {
    let mut rig = Rig::new(&[]);
    rig.registers.set_bc(0x0100);
    rig.registers.f = 0xf0;
    rig.step(0x0b);
    assert_eq!(rig.registers.get_bc(), 0x00ff);
    assert_eq!(rig.registers.f, 0xf0);
    rig.registers.set_bc(0x0000);
    rig.step(0x0b);
    assert_eq!(rig.registers.get_bc(), 0xffff);
    rig.registers.sp = 0xffff;
    rig.step(0x33);
    assert_eq!(rig.registers.sp, 0x0000);
    rig.step(0x3b);
    assert_eq!(rig.registers.sp, 0xffff);
    assert_eq!(rig.ticks, 16);
    rig.registers.set_hl(0xc0de);
    rig.step(0xf9);
    assert_eq!(rig.registers.sp, 0xc0de);
    rig.step(0xe9);
    assert_eq!(rig.registers.pc, 0xc0de);
}

#[test]
fn rotations_of_a() {
    let mut rig = Rig::new(&[]);
    rig.registers.a = 0x3b;
    rig.registers.f = 0xe0;
    rig.step(0x0f);
    assert_eq!(rig.registers.a, 0x9d);
    assert_eq!(rig.registers.f, 0x10);
    assert_eq!(rig.ticks, 4);
    rig.registers.a = 0x3a;
    rig.step(0x0f);
    assert_eq!(rig.registers.a, 0x1d);
    assert_eq!(rig.registers.f, 0x00);

    let mut rig = Rig::new(&[]);
    rig.registers.a = 0x81;
    rig.registers.f = 0x00;
    rig.step(0x1f);
    assert_eq!(rig.registers.a, 0x40);
    assert_eq!(rig.registers.f, 0x10);
    rig.step(0x1f);
    assert_eq!(rig.registers.a, 0xa0);
    assert_eq!(rig.registers.f, 0x00);
    assert_eq!(rig.ticks, 8);
}

#[test]
fn flag_instructions() {
    let mut rig = Rig::new(&[]);
    rig.registers.a = 0x35;
    rig.registers.f = 0x90;
    rig.step(0x2f);
    assert_eq!(rig.registers.a, 0xca);
    assert_eq!(rig.registers.f, 0xf0);
    rig.registers.f = 0xe0;
    rig.step(0x37);
    assert_eq!(rig.registers.f, 0x90);
    rig.registers.f = 0xf0;
    rig.step(0x3f);
    assert_eq!(rig.registers.f, 0x90);
    rig.registers.f = 0x60;
    rig.step(0x3f);
    assert_eq!(rig.registers.f, 0x00);
    assert_eq!(rig.ticks, 8);
}

#[test]
fn relative_jumps_taken_and_not_taken() {
    let cases = [(0x20u8, 0x00u8, 0x80u8, 8u32), (0x28, 0x80, 0x00, 8), (0x30, 0x00, 0x10, 12),
        (0x38, 0x10, 0x00, 8)];
    for (opcode, taken_flags, skipped_flags, base) in cases {
        let mut rig = Rig::new(&[0x05]);
        rig.registers.f = taken_flags;
        rig.step(opcode);
        assert_eq!(rig.registers.pc, 0xc006);
        assert_eq!(rig.ticks, base + 4);
        assert_eq!(instruction_ticks(opcode) as u32, base);
        let mut rig = Rig::new(&[0x05]);
        rig.registers.f = skipped_flags;
        rig.step(opcode);
        assert_eq!(rig.registers.pc, 0xc001);
        assert_eq!(rig.ticks, base);
    }
}

#[test]
fn a_relative_jump_moves_forward_by_the_whole_byte() {
    let mut rig = Rig::new(&[0xff]);
    rig.registers.f = 0x00;
    rig.step(0x20);
    assert_eq!(rig.registers.pc, 0xc100);
}

#[test]
fn absolute_jumps() {
    let mut rig = Rig::new(&[0x50, 0x01]);
    rig.step(0xc3);
    assert_eq!(rig.registers.pc, 0x0150);
    assert_eq!(rig.ticks, 6);

    let mut rig = Rig::new(&[0x50, 0x01]);
    rig.registers.f = 0x00;
    rig.step(0xd2);
    assert_eq!(rig.registers.pc, 0x0150);
    assert_eq!(rig.ticks, 16);
    let mut rig = Rig::new(&[0x50, 0x01]);
    rig.registers.f = 0x10;
    rig.step(0xd2);
    assert_eq!(rig.registers.pc, 0xc002);
    assert_eq!(rig.ticks, 12);

    let mut rig = Rig::new(&[0x50, 0x01]);
    rig.registers.f = 0x80;
    rig.step(0xc2);
    assert_eq!(rig.registers.pc, 0xc002);
    assert_eq!(rig.ticks, 12);
    let mut rig = Rig::new(&[0x50, 0x01]);
    rig.registers.f = 0x00;
    rig.step(0xc2);
    assert_eq!(rig.registers.pc, 0xc152);
    assert_eq!(rig.ticks, 16);
}

#[test]
fn operations_on_a_and_a_register() {
    let mut rig = Rig::new(&[]);
    rig.registers.a = 0x3a;
    rig.registers.b = 0xc6;
    rig.step(0x80);
    assert_eq!(rig.registers.a, 0x00);
    assert_eq!(rig.registers.f, 0xb0);
    assert_eq!(rig.ticks, 2);

    let mut rig = Rig::new(&[]);
    rig.registers.a = 0xe1;
    rig.registers.e = 0x0f;
    rig.registers.f = 0x10;
    rig.step(0x8b);
    assert_eq!(rig.registers.a, 0xf1);
    assert_eq!(rig.registers.f, 0x20);

    let mut rig = Rig::new(&[]);
    rig.registers.a = 0x3e;
    rig.registers.h = 0x40;
    rig.step(0x94);
    assert_eq!(rig.registers.a, 0xfe);
    assert_eq!(rig.registers.f, 0x50);

    let mut rig = Rig::new(&[]);
    rig.registers.a = 0x3b;
    rig.registers.l = 0x2a;
    rig.registers.f = 0x10;
    rig.step(0x9d);
    assert_eq!(rig.registers.a, 0x10);
    assert_eq!(rig.registers.f, 0x40);

    let mut rig = Rig::new(&[]);
    rig.registers.a = 0x5a;
    rig.registers.c = 0x3f;
    rig.step(0xa1);
    assert_eq!(rig.registers.a, 0x1a);
    assert_eq!(rig.registers.f, 0x00);

    let mut rig = Rig::new(&[]);
    rig.registers.a = 0xff;
    rig.step(0xaf);
    assert_eq!(rig.registers.a, 0x00);
    assert_eq!(rig.registers.f, 0x80);

    let mut rig = Rig::new(&[]);
    rig.registers.a = 0x5a;
    rig.registers.d = 0x0f;
    rig.step(0xb2);
    assert_eq!(rig.registers.a, 0x5f);
    assert_eq!(rig.registers.f, 0x00);

    let mut rig = Rig::new(&[]);
    rig.registers.a = 0x3c;
    rig.registers.b = 0x2f;
    rig.step(0xb8);
    assert_eq!(rig.registers.a, 0x3c);
    assert_eq!(rig.registers.f, 0x60);
}

#[test]
fn every_register_form_of_an_operation_reads_its_register() {
    let regs = [Reg8::B, Reg8::C, Reg8::D, Reg8::E, Reg8::H, Reg8::L, Reg8::A];
    let codes = [0u8, 1, 2, 3, 4, 5, 7];
    for op in 0u8..8 {
        for (i, reg) in regs.iter().enumerate() {
            let mut rig = Rig::new(&[]);
            rig.registers.f = 0x00;
            for (k, r) in regs.iter().enumerate() {
                rig.registers.set(*r, 0x11 * (k as u8 + 1));
            }
            let a = rig.registers.a;
            let v = rig.registers.get(*reg);
            rig.step(0x80 | (op << 3) | codes[i]);
            let expected = match op {
                0 | 1 => a.wrapping_add(v),
                2 | 3 => a.wrapping_sub(v),
                4 => a & v,
                5 => a ^ v,
                6 => a | v,
                _ => a,
            };
            assert_eq!(rig.registers.a, expected, "op {} reg {}", op, i);
            assert_eq!(rig.ticks, 2);
        }
    }
}

#[test]
fn add_of_the_byte_at_hl() {
    let mut rig = Rig::new(&[]);
    rig.registers.a = 0x3c;
    rig.registers.set_hl(0xc100);
    rig.memory.write_ram[0x100] = 0x12;
    rig.step(0x86);
    assert_eq!(rig.registers.a, 0x4e);
    assert_eq!(rig.registers.f, 0x00);
    assert_eq!(rig.ticks, 4);
}

#[test]
fn operations_on_a_and_an_operand() {
    let cases = [(0xc6u8, 0x3cu8, 0x00u8, 0x0fu8, 0x4bu8, 0x20u8),
        (0xce, 0x3c, 0x10, 0x0f, 0x4c, 0x20),
        (0xd6, 0x3c, 0x00, 0x0f, 0x2d, 0x60),
        (0xde, 0x3c, 0x10, 0x0f, 0x2c, 0x60),
        (0xe6, 0x3c, 0xf0, 0x0f, 0x0c, 0x00),
        (0xee, 0x3c, 0xf0, 0x0f, 0x33, 0x00),
        (0xf6, 0x3c, 0xf0, 0x0f, 0x3f, 0x00),
        (0xfe, 0x3c, 0x00, 0x3c, 0x3c, 0xc0)];
    for (opcode, a, flags, operand, result, result_flags) in cases {
        let mut rig = Rig::new(&[operand]);
        rig.registers.a = a;
        rig.registers.f = flags;
        rig.step(opcode);
        assert_eq!(rig.registers.a, result, "opcode {:#04x}", opcode);
        assert_eq!(rig.registers.f, result_flags, "opcode {:#04x}", opcode);
        assert_eq!(rig.registers.pc, 0xc001);
        assert_eq!(rig.ticks, 4);
    }
}

#[test]
fn pushes_and_pops() {
    let mut rig = Rig::new(&[]);
    rig.registers.set_bc(0x1234);
    rig.registers.set_de(0x5678);
    rig.registers.set_hl(0x9abc);
    rig.registers.set_af(0xdef0);
    rig.step(0xc5);
    assert_eq!(rig.registers.sp, 0xfffc);
    assert_eq!(rig.read(0xfffc), 0x34);
    assert_eq!(rig.read(0xfffd), 0x12);
    rig.step(0xd5);
    rig.step(0xe5);
    rig.step(0xf5);
    assert_eq!(rig.registers.sp, 0xfff6);
    assert_eq!(rig.ticks, 32);
    rig.step(0xc1);
    rig.step(0xd1);
    rig.step(0xe1);
    rig.step(0xf1);
    assert_eq!(rig.registers.get_bc(), 0xdef0);
    assert_eq!(rig.registers.get_de(), 0x9abc);
    assert_eq!(rig.registers.get_hl(), 0x5678);
    assert_eq!(rig.registers.get_af(), 0x1230);
    assert_eq!(rig.registers.sp, 0xfffe);
    assert_eq!(rig.ticks, 56);
}

#[test]
fn calls_of_the_fixed_routines() {
    let cases = [(0xc7u8, 0x00u16), (0xcf, 0x08), (0xd7, 0x10), (0xdf, 0x18), (0xe7, 0x20),
        (0xef, 0x28), (0xf7, 0x30), (0xff, 0x38)];
    for (opcode, vector) in cases {
        let mut rig = Rig::new(&[]);
        rig.registers.pc = 0xc123;
        rig.step(opcode);
        assert_eq!(rig.registers.pc, vector);
        assert_eq!(rig.registers.sp, 0xfffc);
        assert_eq!(rig.memory.read_short(0xfffc, &rig.gpu, &rig.interrupts), 0xc123);
        assert_eq!(rig.ticks, 8);
    }
}

#[test]
fn returns_pop_the_program_counter() {
    let mut rig = Rig::new(&[]);
    rig.registers.sp = 0xd000;
    rig.memory.write_ram[0x1000] = 0x50;
    rig.memory.write_ram[0x1001] = 0x01;
    rig.step(0xc9);
    assert_eq!(rig.registers.pc, 0x0150);
    assert_eq!(rig.registers.sp, 0xd002);
    assert_eq!(rig.ticks, 2);

    let mut rig = Rig::new(&[]);
    rig.registers.sp = 0xd000;
    rig.memory.write_ram[0x1000] = 0x50;
    rig.memory.write_ram[0x1001] = 0x01;
    rig.registers.f = 0x10;
    rig.step(0xd8);
    assert_eq!(rig.registers.pc, 0x0150);
    assert_eq!(rig.registers.sp, 0xd002);
    assert_eq!(rig.ticks, 20);
    rig.registers.f = 0x00;
    rig.registers.pc = 0xc000;
    rig.step(0xd8);
    assert_eq!(rig.registers.pc, 0xc000);
    assert_eq!(rig.registers.sp, 0xd002);
    assert_eq!(rig.ticks, 28);

    let mut rig = Rig::new(&[]);
    rig.registers.sp = 0xd000;
    rig.memory.write_ram[0x1000] = 0x50;
    rig.memory.write_ram[0x1001] = 0x01;
    rig.registers.f = 0x80;
    rig.step(0xc0);
    assert_eq!(rig.registers.pc, 0xc000);
    assert_eq!(rig.registers.sp, 0xd000);
    assert_eq!(rig.ticks, 8);
    rig.registers.f = 0x00;
    rig.step(0xc0);
    assert_eq!(rig.registers.pc, 0xc150);
    assert_eq!(rig.registers.sp, 0xd002);
    assert_eq!(rig.ticks, 28);
}

#[test]
fn the_interrupt_switch_instructions() {
    let mut rig = Rig::new(&[]);
    rig.step(0xf3);
    assert_eq!(rig.interrupts.master, 0);
    assert_eq!(rig.ticks, 2);
    rig.step(0xfb);
    assert_eq!(rig.interrupts.master, 1);
    assert_eq!(rig.ticks, 4);
    rig.interrupts.disable();
    rig.registers.sp = 0xd000;
    rig.memory.write_ram[0x1000] = 0x34;
    rig.memory.write_ram[0x1001] = 0x12;
    rig.step(0xd9);
    assert_eq!(rig.interrupts.master, 1);
    assert_eq!(rig.registers.pc, 0x1234);
    assert_eq!(rig.registers.sp, 0xd002);
    assert_eq!(rig.ticks, 12);
}

#[test]
fn halt_moves_on_only_while_interrupts_are_on() {
    let mut rig = Rig::new(&[]);
    rig.step(0x76);
    assert_eq!(rig.registers.pc, 0xc001);
    assert_eq!(rig.ticks, 2);
    rig.interrupts.disable();
    rig.step(0x76);
    assert_eq!(rig.registers.pc, 0xc001);
    assert_eq!(rig.ticks, 4);
}

#[test]
fn stop_skips_a_byte_and_latches() {
    let mut rig = Rig::new(&[]);
    assert_eq!(rig.step(0x10), Dispatch::Executed);
    assert!(rig.cpu.stopped);
    assert_eq!(rig.registers.pc, 0xc001);
    assert_eq!(rig.ticks, 2);
    let before = rig.registers;
    assert_eq!(rig.step(0x3c), Dispatch::Stopped);
    assert_eq!(rig.step(0xc5), Dispatch::Stopped);
    assert_eq!(rig.registers, before);
    assert_eq!(rig.ticks, 2);
    rig.cpu.resume();
    assert!(!rig.cpu.stopped);
    assert_eq!(rig.step(0x3c), Dispatch::Executed);
    assert_eq!(rig.registers.a, 0x02);
}

#[test]
fn an_unsupported_opcode_changes_nothing() {
    for opcode in [0xcbu8, 0x03, 0xcd, 0x8e, 0xfd] {
        let mut rig = Rig::new(&[0x12, 0x34]);
        let before = rig.registers;
        assert_eq!(rig.step(opcode), Dispatch::Unsupported);
        assert_eq!(rig.registers, before);
        assert_eq!(rig.ticks, 0);
        assert!(!rig.cpu.stopped);
    }
}

#[test]
fn instructions_that_would_write_into_the_cartridge_are_not_accepted() {
    let mut rig = Rig::new(&[0x00, 0x40]);
    rig.registers.set_bc(0x0013);
    rig.registers.set_de(0x7fff);
    rig.registers.set_hl(0x4000);
    for opcode in [0x02u8, 0x12, 0x32, 0x70, 0x71, 0x72, 0x73, 0x74, 0x75, 0x77, 0x08] {
        assert!(!rig.accepts(opcode), "opcode {:#04x}", opcode);
    }
    for opcode in [0xc5u8, 0xd5, 0xe5, 0xf5, 0xc7, 0xff, 0x00, 0x0a, 0x46, 0x86, 0xc1] {
        assert!(rig.accepts(opcode), "opcode {:#04x}", opcode);
    }
    rig.registers.sp = 0x8001;
    for opcode in [0xc5u8, 0xd5, 0xe5, 0xf5, 0xc7, 0xcf, 0xd7, 0xdf, 0xe7, 0xef, 0xf7, 0xff] {
        assert!(!rig.accepts(opcode), "opcode {:#04x}", opcode);
    }
    rig.registers.set_bc(0x8000);
    rig.registers.set_de(0x8000);
    rig.registers.set_hl(0x8000);
    rig.memory.write_ram[1] = 0x80;
    for opcode in [0x02u8, 0x12, 0x32, 0x70, 0x77, 0x08] {
        assert!(rig.accepts(opcode), "opcode {:#04x}", opcode);
    }
    rig.memory.write_ram[0] = 0xff;
    rig.memory.write_ram[1] = 0xff;
    assert!(!rig.accepts(0x08));
    rig.cpu.stopped = true;
    rig.registers.set_bc(0x0000);
    assert!(rig.accepts(0x02));
}

#[test]
fn instructions_keep_the_low_nibble_of_the_flags_clear() {
    let mut opcode: u16 = 0;
    while opcode <= 0xff {
        let mut rig = Rig::new(&[0xff, 0xcf]);
        rig.registers.set_hl(0xc010);
        rig.registers.set_bc(0xc020);
        rig.registers.set_de(0xc030);
        rig.registers.sp = 0xd000;
        rig.memory.write_ram[0x1000] = 0xff;
        rig.memory.write_ram[0x1001] = 0xff;
        if rig.accepts(opcode as u8) {
            rig.step(opcode as u8);
            assert_eq!(rig.registers.f & 0x0f, 0, "opcode {:#04x}", opcode);
        }
        opcode += 1;
    }
}
