//! The address space as the CPU sees it: a mathematical model of the memory
//! bus, against which the executable bus in `memory` is specified.
//!
//! Every 16-bit address routes to exactly one place: a byte of one of the
//! storage regions, or a register of the display timer or of the interrupt
//! controller.

use vstd::prelude::*;
use crate::gpu::Gpu;
use crate::interrupts::Interrupts;
use crate::registers::{high_byte, join, lemma_join_split, low_byte, Registers};

verus! {

/// Size of the cartridge ROM.
pub const CARTRIDGE_SIZE: usize = 0x8000;

/// Size of the video RAM.
pub const VIDEO_RAM_SIZE: usize = 0x2000;

/// Size of the external, switchable RAM.
pub const SWITCHABLE_RAM_SIZE: usize = 0x2000;

/// Size of the internal work RAM.
pub const WRITE_RAM_SIZE: usize = 0x2000;

/// Size of the sprite attribute table.
pub const OAM_SIZE: usize = 0x100;

/// Size of the I/O register block.
pub const IO_SIZE: usize = 0x80;

/// Size of the high RAM.
pub const HARDWARE_RAM_SIZE: usize = 0x80;

/// Bytes that one write to the DMA trigger copies into the sprite attribute
/// table.
pub const DMA_LENGTH: u16 = 160;

/// Place in the I/O block where a write to the scanline register lands.
pub const SCANLINE_OFFSET: usize = 0x44;

/// Place in the I/O block that a read of the DMA trigger returns.
pub const DMA_OFFSET: usize = 0x46;

/// Where an address leads.
#[derive(Clone, Copy, Debug, PartialEq, Eq, Structural)]
pub enum Region {
    /// Cartridge ROM, `0x0000..=0x7fff`. Read-only.
    Cartridge,
    /// Video RAM, `0x8000..=0x9fff`.
    VideoRam,
    /// External RAM, `0xa000..=0xbfff`.
    SwitchableRam,
    /// Work RAM, `0xc000..=0xdfff`, seen again at `0xe000..=0xfdff`.
    WriteRam,
    /// Sprite attribute table, `0xfe00..=0xfeff`.
    Oam,
    /// I/O register block, `0xff00..=0xff7f`, but for the registers below.
    Io,
    /// High RAM, `0xff80..=0xfffe`.
    HardwareRam,
    /// Display control register, `0xff40`.
    Control,
    /// Vertical scroll register, `0xff42`.
    ScrollY,
    /// Horizontal scroll register, `0xff43`.
    ScrollX,
    /// Current scanline, `0xff44`. Reads come from the display timer; writes
    /// land in the I/O block.
    Scanline,
    /// DMA trigger, `0xff46`. Writes start a copy into the sprite attribute
    /// table; reads come from the I/O block.
    Dma,
    /// Pending interrupts, `0xff0f`.
    InterruptFlags,
    /// Enabled interrupts, `0xffff`.
    InterruptEnable,
}

/// A region and a place in it.
#[derive(Clone, Copy, Debug, PartialEq, Eq, Structural)]
pub struct Route {
    pub region: Region,
    pub offset: u16,
}

/// Number of bytes behind a region. A register has one byte.
pub open spec fn region_size(region: Region) -> nat {
    match region {
        Region::Cartridge => 0x8000,
        Region::VideoRam => 0x2000,
        Region::SwitchableRam => 0x2000,
        Region::WriteRam => 0x2000,
        Region::Oam => 0x100,
        Region::Io => 0x80,
        Region::HardwareRam => 0x80,
        Region::Control => 1,
        Region::ScrollY => 1,
        Region::ScrollX => 1,
        Region::Scanline => 1,
        Region::Dma => 1,
        Region::InterruptFlags => 1,
        Region::InterruptEnable => 1,
    }
}

/// The place that `address` leads to.
pub open spec fn route(address: u16) -> Route {
    if address < 0x8000 {
        Route { region: Region::Cartridge, offset: address }
    } else if address < 0xa000 {
        Route { region: Region::VideoRam, offset: (address - 0x8000) as u16 }
    } else if address < 0xc000 {
        Route { region: Region::SwitchableRam, offset: (address - 0xa000) as u16 }
    } else if address < 0xe000 {
        Route { region: Region::WriteRam, offset: (address - 0xc000) as u16 }
    } else if address < 0xfe00 {
        Route { region: Region::WriteRam, offset: (address - 0xe000) as u16 }
    } else if address < 0xff00 {
        Route { region: Region::Oam, offset: (address - 0xfe00) as u16 }
    } else if address == 0xff40 {
        Route { region: Region::Control, offset: 0 }
    } else if address == 0xff42 {
        Route { region: Region::ScrollY, offset: 0 }
    } else if address == 0xff43 {
        Route { region: Region::ScrollX, offset: 0 }
    } else if address == 0xff44 {
        Route { region: Region::Scanline, offset: 0 }
    } else if address == 0xff46 {
        Route { region: Region::Dma, offset: 0 }
    } else if address == 0xff0f {
        Route { region: Region::InterruptFlags, offset: 0 }
    } else if address == 0xffff {
        Route { region: Region::InterruptEnable, offset: 0 }
    } else if address < 0xff80 {
        Route { region: Region::Io, offset: (address - 0xff00) as u16 }
    } else {
        Route { region: Region::HardwareRam, offset: (address - 0xff80) as u16 }
    }
}

/// A write to `address` is allowed: the address is outside the cartridge ROM.
pub open spec fn writable(address: u16) -> bool {
    address >= 0x8000
}

/// Both bytes of the word at `address` may be written.
pub open spec fn word_writable(address: u16) -> bool {
    writable(address) && writable(address.wrapping_add(1))
}

/// Finds the place that an address leads to.
pub fn locate(address: u16) -> (r: Route)
    ensures
        r == route(address),
        r.offset < region_size(r.region),
{
    if address < 0x8000 {
        Route { region: Region::Cartridge, offset: address }
    } else if address < 0xa000 {
        Route { region: Region::VideoRam, offset: address - 0x8000 }
    } else if address < 0xc000 {
        Route { region: Region::SwitchableRam, offset: address - 0xa000 }
    } else if address < 0xe000 {
        Route { region: Region::WriteRam, offset: address - 0xc000 }
    } else if address < 0xfe00 {
        Route { region: Region::WriteRam, offset: address - 0xe000 }
    } else if address < 0xff00 {
        Route { region: Region::Oam, offset: address - 0xfe00 }
    } else if address == 0xff40 {
        Route { region: Region::Control, offset: 0 }
    } else if address == 0xff42 {
        Route { region: Region::ScrollY, offset: 0 }
    } else if address == 0xff43 {
        Route { region: Region::ScrollX, offset: 0 }
    } else if address == 0xff44 {
        Route { region: Region::Scanline, offset: 0 }
    } else if address == 0xff46 {
        Route { region: Region::Dma, offset: 0 }
    } else if address == 0xff0f {
        Route { region: Region::InterruptFlags, offset: 0 }
    } else if address == 0xffff {
        Route { region: Region::InterruptEnable, offset: 0 }
    } else if address < 0xff80 {
        Route { region: Region::Io, offset: address - 0xff00 }
    } else {
        Route { region: Region::HardwareRam, offset: address - 0xff80 }
    }
}

/// Whether a write to `address` is allowed.
pub fn is_writable(address: u16) -> (r: bool)
    ensures
        r == writable(address),
{
    address >= 0x8000
}

/// Whether both bytes of the word at `address` may be written.
pub fn is_word_writable(address: u16) -> (r: bool)
    ensures
        r == word_writable(address),
{
    address >= 0x8000 && address.wrapping_add(1) >= 0x8000
}

/// Contents of the storage regions.
#[verifier::ext_equal]
pub struct MemoryView {
    pub cartridge: Seq<u8>,
    pub video_ram: Seq<u8>,
    pub io: Seq<u8>,
    pub switchable_ram: Seq<u8>,
    pub write_ram: Seq<u8>,
    pub hardware_ram: Seq<u8>,
    pub oam: Seq<u8>,
}

impl MemoryView {
    /// Every region has its size.
    pub open spec fn wf(self) -> bool {
        &&& self.cartridge.len() == CARTRIDGE_SIZE
        &&& self.video_ram.len() == VIDEO_RAM_SIZE
        &&& self.io.len() == IO_SIZE
        &&& self.switchable_ram.len() == SWITCHABLE_RAM_SIZE
        &&& self.write_ram.len() == WRITE_RAM_SIZE
        &&& self.hardware_ram.len() == HARDWARE_RAM_SIZE
        &&& self.oam.len() == OAM_SIZE
    }
}

/// Everything that an address can reach: the storage regions, and the display
/// timer and the interrupt controller with their mapped registers.
#[verifier::ext_equal]
pub struct Bus {
    pub memory: MemoryView,
    pub gpu: Gpu,
    pub interrupts: Interrupts,
}

impl Bus {
    /// Every storage region has its size.
    pub open spec fn wf(self) -> bool {
        self.memory.wf()
    }

    /// The byte that a read of `address` returns.
    pub open spec fn read(self, address: u16) -> u8 {
        let r = route(address);
        match r.region {
            Region::Cartridge => self.memory.cartridge[r.offset as int],
            Region::VideoRam => self.memory.video_ram[r.offset as int],
            Region::SwitchableRam => self.memory.switchable_ram[r.offset as int],
            Region::WriteRam => self.memory.write_ram[r.offset as int],
            Region::Oam => self.memory.oam[r.offset as int],
            Region::Io => self.memory.io[r.offset as int],
            Region::HardwareRam => self.memory.hardware_ram[r.offset as int],
            Region::Control => self.gpu.control,
            Region::ScrollY => self.gpu.scroll_y,
            Region::ScrollX => self.gpu.scroll_x,
            Region::Scanline => self.gpu.scanline,
            Region::Dma => self.memory.io[DMA_OFFSET as int],
            Region::InterruptFlags => self.interrupts.flags,
            Region::InterruptEnable => self.interrupts.enable,
        }
    }

    /// The word at `address`: low byte at `address`, high byte behind it,
    /// wrapping at the end of the address space.
    pub open spec fn read_short(self, address: u16) -> u16 {
        join(self.read(address.wrapping_add(1)), self.read(address))
    }

    /// The sprite attribute table after a DMA copy from page `page`: its
    /// first 160 bytes are the bytes found at `page * 256` onwards.
    pub open spec fn dma_image(self, page: u8) -> Seq<u8> {
        Seq::new(
            OAM_SIZE as nat,
            |i: int|
                if i < DMA_LENGTH {
                    self.read((page as int * 256 + i) as u16)
                } else {
                    self.memory.oam[i]
                },
        )
    }

    /// This bus with the storage regions replaced by `memory`.
    pub open spec fn with_memory(self, memory: MemoryView) -> Bus {
        Bus { memory, ..self }
    }

    /// The bus after `val` is written to `address`. A write into the
    /// cartridge ROM is not allowed and has no meaning here.
    pub open spec fn write(self, address: u16, val: u8) -> Bus {
        let r = route(address);
        let off = r.offset as int;
        let m = self.memory;
        match r.region {
            Region::Cartridge => self,
            Region::VideoRam => self.with_memory(
                MemoryView { video_ram: m.video_ram.update(off, val), ..m },
            ),
            Region::SwitchableRam => self.with_memory(
                MemoryView { switchable_ram: m.switchable_ram.update(off, val), ..m },
            ),
            Region::WriteRam => self.with_memory(
                MemoryView { write_ram: m.write_ram.update(off, val), ..m },
            ),
            Region::Oam => self.with_memory(MemoryView { oam: m.oam.update(off, val), ..m }),
            Region::Io => self.with_memory(MemoryView { io: m.io.update(off, val), ..m }),
            Region::Scanline => self.with_memory(
                MemoryView { io: m.io.update(SCANLINE_OFFSET as int, val), ..m },
            ),
            Region::HardwareRam => self.with_memory(
                MemoryView { hardware_ram: m.hardware_ram.update(off, val), ..m },
            ),
            Region::Control => Bus { gpu: Gpu { control: val, ..self.gpu }, ..self },
            Region::ScrollY => Bus { gpu: Gpu { scroll_y: val, ..self.gpu }, ..self },
            Region::ScrollX => Bus { gpu: Gpu { scroll_x: val, ..self.gpu }, ..self },
            Region::Dma => self.with_memory(MemoryView { oam: self.dma_image(val), ..m }),
            Region::InterruptFlags => Bus {
                interrupts: Interrupts { flags: val, ..self.interrupts },
                ..self
            },
            Region::InterruptEnable => Bus {
                interrupts: Interrupts { enable: val, ..self.interrupts },
                ..self
            },
        }
    }

    /// The bus after the word `val` is written to `address`, low byte first.
    pub open spec fn write_short(self, address: u16, val: u16) -> Bus {
        self.write(address, low_byte(val)).write(address.wrapping_add(1), high_byte(val))
    }

    /// The bus after `val` is pushed below the stack pointer `sp`.
    pub open spec fn push(self, sp: u16, val: u16) -> Bus {
        self.write_short(sp.wrapping_sub(2), val)
    }

    /// A plain write to `address` changes what a read of it returns: the
    /// address leads to storage or to a register that holds what is written.
    pub open spec fn holds_writes(address: u16) -> bool {
        let region = route(address).region;
        region != Region::Cartridge && region != Region::Scanline && region != Region::Dma
    }

    /// Two addresses lead to the same byte.
    pub open spec fn same_place(a: u16, b: u16) -> bool {
        route(a).region == route(b).region && route(a).offset == route(b).offset
    }
}

/// Registers and bus after `val` is pushed on the stack.
pub open spec fn push_word(registers: Registers, bus: Bus, val: u16) -> (Registers, Bus) {
    (registers.with_sp(registers.sp.wrapping_sub(2)), bus.push(registers.sp, val))
}

/// Registers after a word is popped off the stack. The word is
/// `bus.read_short(registers.sp)`.
pub open spec fn pop_word(registers: Registers) -> Registers {
    registers.with_sp(registers.sp.wrapping_add(2))
}

/// Routing is total: every address leads into its region, inside the
/// region's size.
pub proof fn lemma_route_in_bounds(address: u16)
    ensures
        route(address).offset < region_size(route(address).region),
        writable(address) <==> route(address).region != Region::Cartridge,
{
}

/// A write changes neither the size of a region nor the cartridge ROM, nor
/// what the display timer counts, nor the master switch.
pub proof fn lemma_write_frame(bus: Bus, address: u16, val: u8)
    requires
        bus.wf(),
    ensures
        bus.write(address, val).wf(),
        bus.write(address, val).memory.cartridge == bus.memory.cartridge,
        bus.write(address, val).gpu.scanline == bus.gpu.scanline,
        bus.write(address, val).gpu.mode == bus.gpu.mode,
        bus.write(address, val).gpu.tick == bus.gpu.tick,
        bus.write(address, val).gpu.last_ticks == bus.gpu.last_ticks,
        bus.write(address, val).interrupts.master == bus.interrupts.master,
{
}

/// A word write keeps what a byte write keeps.
pub proof fn lemma_write_short_frame(bus: Bus, address: u16, val: u16)
    requires
        bus.wf(),
    ensures
        bus.write_short(address, val).wf(),
        bus.write_short(address, val).memory.cartridge == bus.memory.cartridge,
        bus.write_short(address, val).gpu.scanline == bus.gpu.scanline,
        bus.write_short(address, val).gpu.mode == bus.gpu.mode,
        bus.write_short(address, val).gpu.tick == bus.gpu.tick,
        bus.write_short(address, val).gpu.last_ticks == bus.gpu.last_ticks,
        bus.write_short(address, val).interrupts.master == bus.interrupts.master,
{
    lemma_write_frame(bus, address, low_byte(val));
    lemma_write_frame(
        bus.write(address, low_byte(val)),
        address.wrapping_add(1),
        high_byte(val),
    );
}

/// Reading an address after writing it returns the byte written, wherever a
/// write is held; any address that leads elsewhere reads as before, unless
/// the write started a DMA copy.
pub proof fn lemma_read_after_write(bus: Bus, address: u16, val: u8, other: u16)
    requires
        bus.wf(),
        writable(address),
    ensures
        Bus::holds_writes(address) ==> bus.write(address, val).read(address) == val,
        !Bus::same_place(other, address) && route(address).region != Region::Dma ==> bus.write(
            address,
            val,
        ).read(other) == bus.read(other),
        route(address).region == Region::Dma && route(other).region != Region::Oam ==> bus.write(
            address,
            val,
        ).read(other) == bus.read(other),
{
}

/// After a DMA copy from page `page`, byte `i` of the sprite attribute table
/// is the byte that was at `page * 256 + i`, for each of the 160 bytes; the
/// rest of the table is as before.
pub proof fn lemma_dma_copy(bus: Bus, page: u8, i: u16)
    requires
        bus.wf(),
        i < 0x100,
    ensures
        i < DMA_LENGTH ==> bus.write(0xff46, page).read((0xfe00 + i) as u16) == bus.read(
            (page * 256 + i) as u16,
        ),
        i >= DMA_LENGTH ==> bus.write(0xff46, page).read((0xfe00 + i) as u16) == bus.read(
            (0xfe00 + i) as u16,
        ),
{
}

/// Two addresses next to each other never lead to the same byte.
pub proof fn lemma_neighbours_differ(address: u16)
    ensures
        !Bus::same_place(address, address.wrapping_add(1)),
{
}

/// A word reads back as written: for every word `val` and every address
/// whose two bytes lead to places that hold writes, `read_short` after
/// `write_short` returns `val`.
pub proof fn lemma_short_round_trip(bus: Bus, address: u16, val: u16)
    requires
        bus.wf(),
        Bus::holds_writes(address),
        Bus::holds_writes(address.wrapping_add(1)),
    ensures
        bus.write_short(address, val).read_short(address) == val,
{
    lemma_neighbours_differ(address);
    let next = address.wrapping_add(1);
    let b1 = bus.write(address, low_byte(val));
    lemma_write_frame(bus, address, low_byte(val));
    lemma_read_after_write(bus, address, low_byte(val), next);
    lemma_read_after_write(b1, next, high_byte(val), address);
    lemma_join_split(0, 0, val);
}

/// A word popped right after it was pushed is the word pushed, and the stack
/// pointer is back where it was: for every stack pointer whose two bytes
/// below lead to places that hold writes.
pub proof fn lemma_stack_round_trip(registers: Registers, bus: Bus, val: u16)
    requires
        bus.wf(),
        Bus::holds_writes(registers.sp.wrapping_sub(2)),
        Bus::holds_writes(registers.sp.wrapping_sub(1)),
    ensures
        ({
            let (pushed, written) = push_word(registers, bus, val);
            &&& written.read_short(pushed.sp) == val
            &&& pop_word(pushed) == registers
        }),
{
    lemma_short_round_trip(bus, registers.sp.wrapping_sub(2), val);
}

} // verus!
