//! The memory bus: the storage behind the 16-bit address space, with reads
//! and writes routed by address.
//!
//! Reads and writes of the mapped registers go to the display timer and the
//! interrupt controller, which the caller hands in. What each operation does
//! is stated over the model in `bus`.

use vstd::prelude::*;
use vstd::pervasive::unreached;
use crate::bus::{pop_word, push_word, word_writable, writable, Bus, MemoryView, DMA_LENGTH};
use crate::gpu::Gpu;
use crate::interrupts::Interrupts;
use crate::registers::{make_word, word_high, word_low, Registers};

verus! {

/// The storage regions of the console.
pub struct Memory {
    /// The game being played, `0x0000..=0x7fff`.
    pub cartridge: [u8; 0x8000],
    /// `0x8000..=0x9fff`.
    pub video_ram: [u8; 0x2000],
    /// `0xff00..=0xff7f`.
    pub io: [u8; 0x80],
    /// `0xa000..=0xbfff`.
    pub switchable_ram: [u8; 0x2000],
    /// `0xc000..=0xdfff` and again `0xe000..=0xfdff`.
    pub write_ram: [u8; 0x2000],
    /// `0xff80..=0xfffe`.
    pub hardware_ram: [u8; 0x80],
    /// `0xfe00..=0xfeff`.
    pub oam: [u8; 0x100],
}

impl View for Memory {
    type V = MemoryView;

    open spec fn view(&self) -> MemoryView {
        MemoryView {
            cartridge: self.cartridge@,
            video_ram: self.video_ram@,
            io: self.io@,
            switchable_ram: self.switchable_ram@,
            write_ram: self.write_ram@,
            hardware_ram: self.hardware_ram@,
            oam: self.oam@,
        }
    }
}

impl Memory {
    /// The bus that this storage forms with a display timer and an interrupt
    /// controller.
    pub open spec fn bus(&self, gpu: &Gpu, interrupts: &Interrupts) -> Bus {
        Bus { memory: self@, gpu: *gpu, interrupts: *interrupts }
    }

    /// Storage that holds `cartridge` and zeroes everywhere else.
    pub fn new(cartridge: [u8; 0x8000]) -> (m: Memory)
        ensures
            m@.wf(),
            m@.cartridge == cartridge@,
            m@.video_ram == Seq::new(0x2000, |i: int| 0u8),
            m@.io == Seq::new(0x80, |i: int| 0u8),
            m@.switchable_ram == Seq::new(0x2000, |i: int| 0u8),
            m@.write_ram == Seq::new(0x2000, |i: int| 0u8),
            m@.hardware_ram == Seq::new(0x80, |i: int| 0u8),
            m@.oam == Seq::new(0x100, |i: int| 0u8),
    {
        Memory {
            cartridge,
            io: [0;0x80],
            video_ram: [0;0x2000],
            switchable_ram: [0;0x2000],
            write_ram: [0;0x2000],
            hardware_ram: [0;0x80],
            oam: [0;0x100],
        }
    }

    /// Reads the byte at `address`.
    pub fn read_byte(&self, address: u16, gpu: &Gpu, interrupts: &Interrupts) -> (val: u8)
        ensures
            val == self.bus(gpu, interrupts).read(address),
    {
        let address_as_usize: usize = address as usize;
        match address {
            0..=0x7fff => self.cartridge[address_as_usize],
            0x8000..=0x9fff => self.video_ram[address_as_usize - 0x8000],
            0xa000..=0xbfff => self.switchable_ram[address_as_usize - 0xa000],
            0xc000..=0xdfff => self.write_ram[address_as_usize - 0xc000],
            0xe000..=0xfdff => self.write_ram[address_as_usize - 0xe000],
            0xfe00..=0xfeff => self.oam[address_as_usize - 0xfe00],
            0xff40 => gpu.control,
            0xff42 => gpu.scroll_y,
            0xff43 => gpu.scroll_x,
            0xff44 => gpu.scanline,
            0xff0f => interrupts.flags,
            0xffff => interrupts.enable,
            0xff00..=0xff7f => self.io[address_as_usize - 0xff00],
            0xff80..=0xfffe => self.hardware_ram[address_as_usize - 0xff80],
        }
    }

    /// Reads the word at `address`, low byte first.
    pub fn read_short(&self, address: u16, gpu: &Gpu, interrupts: &Interrupts) -> (val: u16)
        ensures
            val == self.bus(gpu, interrupts).read_short(address),
    {
        let a: u8 = self.read_byte(address.wrapping_add(1), gpu, interrupts);
        let b: u8 = self.read_byte(address, gpu, interrupts);
        make_word(a, b)
    }

    /// Pops a word off the stack: reads it at the stack pointer and moves the
    /// pointer up by two.
    pub fn read_short_from_stack(
        &self,
        registers: &mut Registers,
        gpu: &Gpu,
        interrupts: &Interrupts,
    ) -> (val: u16)
        ensures
            val == self.bus(gpu, interrupts).read_short(old(registers).sp),
            *final(registers) == pop_word(*old(registers)),
    {
        let val: u16 = self.read_short(registers.sp, gpu, interrupts);
        registers.sp = registers.sp.wrapping_add(2);
        val
    }

    /// Writes `val` to `address`. Writes to the mapped registers change the
    /// display timer or the interrupt controller; a write to the DMA trigger
    /// copies 160 bytes into the sprite attribute table. The cartridge cannot
    /// be written: no caller may ask for it.
    pub fn write_byte(
        &mut self,
        address: u16,
        val: u8,
        gpu: &mut Gpu,
        interrupts: &mut Interrupts,
    )
        requires
            writable(address),
        ensures
            final(self).bus(final(gpu), final(interrupts)) == old(self).bus(
                old(gpu),
                old(interrupts),
            ).write(address, val),
    {
        let address_as_usize: usize = address as usize;
        match address {
            0..=0x7fff => unreached(),
            0x8000..=0x9fff => self.video_ram[address_as_usize - 0x8000] = val,
            0xa000..=0xbfff => self.switchable_ram[address_as_usize - 0xa000] = val,
            0xc000..=0xdfff => self.write_ram[address_as_usize - 0xc000] = val,
            0xe000..=0xfdff => self.write_ram[address_as_usize - 0xe000] = val,
            0xff40 => gpu.control = val,
            0xff42 => gpu.scroll_y = val,
            0xff43 => gpu.scroll_x = val,
            0xff46 => self.copy_to_oam(val, gpu, interrupts),
            0xfe00..=0xfeff => self.oam[address_as_usize - 0xfe00] = val,
            0xff0f => interrupts.flags = val,
            0xffff => interrupts.enable = val,
            0xff00..=0xff7f => self.io[address_as_usize - 0xff00] = val,
            0xff80..=0xfffe => self.hardware_ram[address_as_usize - 0xff80] = val,
        }
    }

    /// Copies the 160 bytes at `page * 256` onwards into the sprite attribute
    /// table.
    pub fn copy_to_oam(&mut self, page: u8, gpu: &Gpu, interrupts: &Interrupts)
        ensures
            final(self)@ == (MemoryView {
                oam: old(self).bus(gpu, interrupts).dma_image(page),
                ..old(self)@
            }),
    {
        let source_addr: u16 = (page as u16) * 256;
        let ghost before = self.bus(gpu, interrupts);
        let mut idx: u16 = 0;
        while idx < DMA_LENGTH
            invariant
                idx <= DMA_LENGTH,
                source_addr == page as int * 256,
                before == old(self).bus(gpu, interrupts),
                self@ == (MemoryView { oam: self.oam@, ..before.memory }),
                forall|j: int|
                    0 <= j < idx ==> self.oam@[j] == before.read((source_addr + j) as u16),
                forall|j: int| idx <= j < 0x100 ==> self.oam@[j] == before.memory.oam[j],
            decreases DMA_LENGTH - idx,
        {
            let byte = self.read_byte(source_addr + idx, gpu, interrupts);
            self.oam[idx as usize] = byte;
            idx += 1;
        }
        assert(self.oam@ =~= before.dma_image(page));
    }

    /// Writes the word `val` to `address`, low byte first.
    pub fn write_short(
        &mut self,
        address: u16,
        val: u16,
        gpu: &mut Gpu,
        interrupts: &mut Interrupts,
    )
        requires
            word_writable(address),
        ensures
            final(self).bus(final(gpu), final(interrupts)) == old(self).bus(
                old(gpu),
                old(interrupts),
            ).write_short(address, val),
    {
        self.write_byte(address, word_low(val), gpu, interrupts);
        self.write_byte(address.wrapping_add(1), word_high(val), gpu, interrupts);
    }

    /// Pushes a word on the stack: moves the stack pointer down by two and
    /// writes the word there.
    pub fn write_short_to_stack(
        &mut self,
        registers: &mut Registers,
        val: u16,
        gpu: &mut Gpu,
        interrupts: &mut Interrupts,
    )
        requires
            word_writable(old(registers).sp.wrapping_sub(2)),
        ensures
            (*final(registers), final(self).bus(final(gpu), final(interrupts))) == push_word(
                *old(registers),
                old(self).bus(old(gpu), old(interrupts)),
                val,
            ),
    {
        registers.sp = registers.sp.wrapping_sub(2);
        self.write_short(registers.sp, val, gpu, interrupts)
    }
}

} // verus!
