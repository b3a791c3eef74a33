//! A session: one console with its cartridge, stepped one instruction at a
//! time.
//!
//! A step fetches the opcode at the program counter, executes it, lets the
//! display timer catch up with the ticks spent, and then lets the interrupt
//! controller dispatch at most one interrupt, in this order.

use vstd::prelude::*;
use crate::bus::{Bus, MemoryView};
use crate::cpu::{Cpu, Dispatch};
use crate::gpu::{lemma_settle_wf, Gpu, FRAME_LINES};
use crate::instruction::{decode, Instruction};
use crate::interrupts::{dispatch, lemma_dispatch_frame, Interrupts};
use crate::machine::{lemma_effect_frame, lemma_step_frame, Machine};
use crate::memory::Memory;
use crate::registers::Registers;

verus! {

/// Smallest image that is taken for a cartridge.
pub const MINIMUM_CARTRIDGE_SIZE: usize = 100;

/// How a step ended.
#[derive(Clone, Copy, Debug, PartialEq, Eq, Structural)]
pub enum StepOutcome {
    /// The instruction ran.
    Executed,
    /// The opcode has no handler. The program counter moved past it and
    /// nothing else was done for it.
    Unsupported,
    /// The CPU is stopped. The program counter moved on by one.
    Stopped,
    /// The instruction would have written into the cartridge ROM. Nothing
    /// has changed; the session must not go on.
    InstructionFault,
    /// An interrupt was due and the push of the program counter would have
    /// written into the cartridge ROM. The instruction and the display timer
    /// have run, the interrupt was not dispatched; the session must not go
    /// on.
    InterruptFault,
}

/// One console: the tick count, the CPU, the storage, the registers, the
/// display timer and the interrupt controller.
pub struct Game {
    pub ticks: u32,
    pub cpu: Cpu,
    pub memory: Memory,
    pub registers: Registers,
    pub gpu: Gpu,
    pub interrupts: Interrupts,
}

impl View for Game {
    type V = Machine;

    open spec fn view(&self) -> Machine {
        self.cpu.machine(&self.memory, &self.registers, self.ticks, &self.gpu, &self.interrupts)
    }
}

/// The storage regions of a new session: the cartridge, and zeroes
/// everywhere else.
pub open spec fn blank_memory(cartridge: Seq<u8>) -> MemoryView {
    MemoryView {
        cartridge,
        video_ram: Seq::new(0x2000, |i: int| 0u8),
        io: Seq::new(0x80, |i: int| 0u8),
        switchable_ram: Seq::new(0x2000, |i: int| 0u8),
        write_ram: Seq::new(0x2000, |i: int| 0u8),
        hardware_ram: Seq::new(0x80, |i: int| 0u8),
        oam: Seq::new(0x100, |i: int| 0u8),
    }
}

/// The machine at the start of a session with `cartridge`.
pub open spec fn power_on(cartridge: Seq<u8>) -> Machine {
    Machine {
        registers: Registers::power_on(),
        bus: Bus {
            memory: blank_memory(cartridge),
            gpu: Gpu::power_on(),
            interrupts: Interrupts::power_on(),
        },
        ticks: 0,
        stopped: false,
    }
}

/// The opcode that the next step fetches.
pub open spec fn next_opcode(m: Machine) -> u8 {
    m.bus.read(m.registers.pc)
}

/// The machine after the fetch: the program counter stands behind the
/// opcode.
pub open spec fn fetched(m: Machine) -> Machine {
    m.with_registers(m.registers.advance_pc(1))
}

/// The machine after the display timer has caught up with the ticks.
pub open spec fn timed(m: Machine) -> Machine {
    let advance = m.bus.gpu.after_step(m.bus.interrupts, m.ticks);
    m.with_bus(Bus { gpu: advance.gpu, interrupts: advance.interrupts, ..m.bus })
}

/// The machine after the interrupt controller has had its step.
pub open spec fn interrupted(m: Machine) -> Machine {
    let (registers, bus, ticks) = dispatch(m.registers, m.bus, m.ticks);
    Machine { registers, bus, ticks, ..m }
}

/// How a step ends that meets no fault.
pub open spec fn plain_outcome(m: Machine) -> StepOutcome {
    if m.stopped {
        StepOutcome::Stopped
    } else if decode(next_opcode(m)) == Instruction::Unsupported {
        StepOutcome::Unsupported
    } else {
        StepOutcome::Executed
    }
}

/// The machine after one step, and how the step ended.
pub open spec fn step_spec(m: Machine) -> (Machine, StepOutcome) {
    let opcode = next_opcode(m);
    if !fetched(m).accepts(opcode) {
        (m, StepOutcome::InstructionFault)
    } else {
        let executed = timed(fetched(m).step(opcode));
        if !executed.bus.interrupts.step_allowed(&executed.registers) {
            (executed, StepOutcome::InterruptFault)
        } else {
            (interrupted(executed), plain_outcome(m))
        }
    }
}

/// What a step keeps: the sizes of the storage regions, the cartridge, which
/// nothing ever writes, a well-formed display timer, whose scanline stays
/// below 153, and a well-formed register file.
pub proof fn lemma_step_invariants(m: Machine)
    requires
        m.bus.wf(),
        m.bus.gpu.wf(),
    ensures
        step_spec(m).0.bus.wf(),
        step_spec(m).0.bus.memory.cartridge == m.bus.memory.cartridge,
        step_spec(m).0.bus.gpu.wf(),
        step_spec(m).0.bus.gpu.scanline < FRAME_LINES,
        m.registers.wf() ==> step_spec(m).0.registers.wf(),
{
    let opcode = next_opcode(m);
    if fetched(m).accepts(opcode) {
        let stepped = fetched(m).step(opcode);
        lemma_step_frame(fetched(m), opcode);
        let gpu = Gpu { last_ticks: stepped.ticks, ..stepped.bus.gpu };
        let pending = (stepped.bus.gpu.tick + stepped.ticks.wrapping_sub(
            stepped.bus.gpu.last_ticks,
        )) as nat;
        lemma_settle_wf(gpu, stepped.bus.interrupts, pending);
        let executed = timed(stepped);
        lemma_dispatch_frame(executed.registers, executed.bus, executed.ticks);
    }
}

impl Game {
    /// The display timer is well formed.
    pub open spec fn wf(&self) -> bool {
        self.gpu.wf()
    }

    /// Whether this session is well formed.
    pub fn is_valid(&self) -> (r: bool)
        ensures
            r == self.wf(),
    {
        self.gpu.is_valid()
    }

    /// Advances the session by one instruction.
    pub fn step(&mut self) -> (outcome: StepOutcome)
        requires
            old(self).wf(),
        ensures
            final(self).wf(),
            (final(self)@, outcome) == step_spec(old(self)@),
    {
        let ghost before = self@;
        // Read the next instruction. `next_command` moves the program counter on.
        let mut registers = self.registers;
        let instruction: u8 = self.memory.read_byte(
            registers.next_command(),
            &self.gpu,
            &self.interrupts,
        );
        if !self.cpu.accepts(instruction, &self.memory, &registers, &self.gpu, &self.interrupts) {
            return StepOutcome::InstructionFault;
        }
        self.registers = registers;
        proof {
            lemma_effect_frame(fetched(before), decode(instruction));
        }
        let dispatched = self.cpu.step(
            instruction,
            &mut self.memory,
            &mut self.registers,
            &mut self.ticks,
            &mut self.gpu,
            &mut self.interrupts,
        );
        self.gpu.step(&mut self.ticks, &mut self.interrupts);
        if !self.interrupts.can_step(&self.registers) {
            return StepOutcome::InterruptFault;
        }
        proof {
            lemma_dispatch_frame(self.registers, self@.bus, self.ticks);
        }
        self.interrupts.step(
            &mut self.registers,
            &mut self.memory,
            &mut self.ticks,
            &mut self.gpu,
        );
        match dispatched {
            Dispatch::Executed => StepOutcome::Executed,
            Dispatch::Unsupported => StepOutcome::Unsupported,
            Dispatch::Stopped => StepOutcome::Stopped,
        }
    }
}

/// Starts a session with the given cartridge: the registers, the display
/// timer and the interrupt controller at their values after boot, every
/// storage region but the cartridge filled with zeroes.
pub fn new_game(cartridge: [u8; 0x8000]) -> (game: Game)
    ensures
        game.wf(),
        game@ == power_on(cartridge@),
{
    Game {
        ticks: 0,
        cpu: Default::default(),
        registers: Default::default(),
        memory: Memory::new(cartridge),
        gpu: Default::default(),
        interrupts: Default::default(),
    }
}

/// Offset of the logo in a cartridge image.
pub const LOGO_OFFSET: usize = 0x0104;

/// The 48-byte logo that a cartridge carries in its header.
pub open spec fn logo() -> Seq<u8> {
    seq![
        0xCEu8, 0xED, 0x66, 0x66, 0xCC, 0x0D, 0x00, 0x0B, 0x03, 0x73, 0x00, 0x83,
        0x00, 0x0C, 0x00, 0x0D, 0x00, 0x08, 0x11, 0x1F, 0x88, 0x89, 0x00, 0x0E,
        0xDC, 0xCC, 0x6E, 0xE6, 0xDD, 0xDD, 0xD9, 0x99, 0xBB, 0xBB, 0x67, 0x63,
        0x6E, 0x0E, 0xEC, 0xCC, 0xDD, 0xDC, 0x99, 0x9F, 0xBB, 0xB9, 0x33, 0x3E,
    ]
}

/// The logo as bytes.
pub fn nintendo_logo() -> (bytes: [u8; 48])
    ensures
        bytes@ == logo(),
{
    let bytes: [u8; 48] = [
        0xCE, 0xED, 0x66, 0x66, 0xCC, 0x0D, 0x00, 0x0B, 0x03, 0x73, 0x00, 0x83,
        0x00, 0x0C, 0x00, 0x0D, 0x00, 0x08, 0x11, 0x1F, 0x88, 0x89, 0x00, 0x0E,
        0xDC, 0xCC, 0x6E, 0xE6, 0xDD, 0xDD, 0xD9, 0x99, 0xBB, 0xBB, 0x67, 0x63,
        0x6E, 0x0E, 0xEC, 0xCC, 0xDD, 0xDC, 0x99, 0x9F, 0xBB, 0xB9, 0x33, 0x3E,
    ];
    assert(bytes@ =~= logo());
    bytes
}

/// Whether `buf` is the logo, byte for byte.
pub fn matches_nintendo_logo(buf: &[u8]) -> (r: bool)
    ensures
        r == (buf@ == logo()),
{
    let expected = nintendo_logo();
    if buf.len() != 48 {
        return false;
    }
    let mut i: usize = 0;
    while i < 48
        invariant
            i <= 48,
            buf@.len() == 48,
            expected@ == logo(),
            forall|j: int| 0 <= j < i ==> buf@[j] == logo()[j],
        decreases 48 - i,
    {
        if buf[i] != expected[i] {
            return false;
        }
        i += 1;
    }
    assert(buf@ =~= logo());
    true
}

/// Whether the image carries the logo at its place in the header.
pub fn has_nintendo_logo(loaded: &[u8]) -> (r: bool)
    ensures
        r == (loaded@.len() >= LOGO_OFFSET + 48 && loaded@.subrange(
            LOGO_OFFSET as int,
            LOGO_OFFSET + 48,
        ) == logo()),
{
    if loaded.len() < LOGO_OFFSET + 48 {
        return false;
    }
    let expected = nintendo_logo();
    let ghost window = loaded@.subrange(LOGO_OFFSET as int, LOGO_OFFSET + 48);
    let mut i: usize = 0;
    while i < 48
        invariant
            i <= 48,
            loaded@.len() >= LOGO_OFFSET + 48,
            window == loaded@.subrange(LOGO_OFFSET as int, LOGO_OFFSET + 48),
            expected@ == logo(),
            forall|j: int| 0 <= j < i ==> window[j] == logo()[j],
        decreases 48 - i,
    {
        if loaded[LOGO_OFFSET + i] != expected[i] {
            assert(window[i as int] != logo()[i as int]);
            return false;
        }
        i += 1;
    }
    assert(window =~= logo());
    true
}

/// Checks a cartridge image and copies it into the 32 KiB that a session
/// takes. An image of fewer than 100 bytes is refused; any other image must
/// have exactly 32 KiB.
pub fn validate_cartridge(loaded: &[u8]) -> (r: Result<[u8; 0x8000], &'static str>)
    requires
        loaded@.len() >= MINIMUM_CARTRIDGE_SIZE ==> loaded@.len() == 0x8000,
    ensures
        r is Err <==> loaded@.len() < MINIMUM_CARTRIDGE_SIZE,
        r matches Err(message) ==> message@ == "Invalid game cart"@,
        r matches Ok(buffer) ==> buffer@ == loaded@,
{
    if loaded.len() < MINIMUM_CARTRIDGE_SIZE {
        return Err("Invalid game cart");
    }
    let mut buffer: [u8; 0x8000] = [0u8;0x8000];
    let mut i: usize = 0;
    while i < 0x8000
        invariant
            i <= 0x8000,
            loaded@.len() == 0x8000,
            forall|j: int| 0 <= j < i ==> buffer@[j] == loaded@[j],
        decreases 0x8000 - i,
    {
        buffer[i] = loaded[i];
        i += 1;
    }
    assert(buffer@ =~= loaded@);
    Ok(buffer)
}

} // verus!
