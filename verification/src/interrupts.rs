//! The interrupt controller: a master-enable switch, a mask of enabled sources
//! and a mask of pending sources.
//!
//! Five sources share the two masks, one bit each. When the master switch is
//! on and a source is both enabled and pending, a step dispatches the source
//! of highest priority: its pending bit is cleared, the master switch goes
//! off, the program counter is pushed and execution continues at the source's
//! vector.

use vstd::prelude::*;
use crate::bus::{
    is_word_writable, lemma_write_frame, lemma_write_short_frame, pop_word, push_word, route,
    word_writable, Bus, Region,
};
use crate::gpu::Gpu;
use crate::memory::Memory;
use crate::registers::{high_byte, low_byte, Registers};

verus! {

/// Mask bit of the vertical-blank source.
pub const INTERRUPTS_VBLANK: u8 = 0x01;

/// Mask bit of the display-status source.
pub const INTERRUPTS_LCDSTAT: u8 = 0x02;

/// Mask bit of the timer source.
pub const INTERRUPTS_TIMER: u8 = 0x04;

/// Mask bit of the serial source.
pub const INTERRUPTS_SERIAL: u8 = 0x08;

/// Mask bit of the joypad source.
pub const INTERRUPTS_JOYPAD: u8 = 0x10;

/// Ticks that one dispatch costs.
pub const DISPATCH_TICKS: u32 = 12;

/// The interrupt sources, from highest to lowest priority.
#[derive(Clone, Copy, Debug, PartialEq, Eq, Structural)]
pub enum InterruptSource {
    Vblank,
    LcdStat,
    Timer,
    Serial,
    Joypad,
}

impl InterruptSource {
    /// The bit that stands for this source in the two masks.
    pub open spec fn mask(self) -> u8 {
        match self {
            InterruptSource::Vblank => INTERRUPTS_VBLANK,
            InterruptSource::LcdStat => INTERRUPTS_LCDSTAT,
            InterruptSource::Timer => INTERRUPTS_TIMER,
            InterruptSource::Serial => INTERRUPTS_SERIAL,
            InterruptSource::Joypad => INTERRUPTS_JOYPAD,
        }
    }

    /// The address at which execution continues when this source is
    /// dispatched.
    pub open spec fn vector(self) -> u16 {
        match self {
            InterruptSource::Vblank => 0x40,
            InterruptSource::LcdStat => 0x48,
            InterruptSource::Timer => 0x50,
            InterruptSource::Serial => 0x58,
            InterruptSource::Joypad => 0x60,
        }
    }

    /// The mask bit of this source.
    pub fn bit(self) -> (m: u8)
        ensures
            m == self.mask(),
    {
        match self {
            InterruptSource::Vblank => INTERRUPTS_VBLANK,
            InterruptSource::LcdStat => INTERRUPTS_LCDSTAT,
            InterruptSource::Timer => INTERRUPTS_TIMER,
            InterruptSource::Serial => INTERRUPTS_SERIAL,
            InterruptSource::Joypad => INTERRUPTS_JOYPAD,
        }
    }

    /// The vector of this source.
    pub fn address(self) -> (v: u16)
        ensures
            v == self.vector(),
    {
        match self {
            InterruptSource::Vblank => 0x40,
            InterruptSource::LcdStat => 0x48,
            InterruptSource::Timer => 0x50,
            InterruptSource::Serial => 0x58,
            InterruptSource::Joypad => 0x60,
        }
    }
}

/// State of the interrupt controller. The master switch is on when `master`
/// is not zero.
#[derive(Clone, Copy, Debug, PartialEq, Eq, Structural)]
pub struct Interrupts {
    pub master: u8,
    pub enable: u8,
    pub flags: u8,
}

impl Default for Interrupts {
    fn default() -> (i: Interrupts)
        ensures
            i == Interrupts::power_on(),
    {
        Interrupts { master: 1, enable: 0, flags: 0 }
    }
}

impl Interrupts {
    /// The controller at the start of a session: master switch on, nothing
    /// enabled, nothing pending.
    pub open spec fn power_on() -> Interrupts {
        Interrupts { master: 1, enable: 0, flags: 0 }
    }

    /// The source `s` is enabled.
    pub open spec fn enabled(&self, s: InterruptSource) -> bool {
        self.enable & s.mask() != 0
    }

    /// The source `s` is pending.
    pub open spec fn pending(&self, s: InterruptSource) -> bool {
        self.flags & s.mask() != 0
    }

    /// The source `s` is both enabled and pending.
    pub open spec fn ready(&self, s: InterruptSource) -> bool {
        (self.enable & self.flags) & s.mask() != 0
    }

    /// The source that the next step dispatches, if any: with the master
    /// switch on, the ready source of highest priority.
    pub open spec fn next_source(&self) -> Option<InterruptSource> {
        if self.master == 0 {
            None
        } else if self.ready(InterruptSource::Vblank) {
            Some(InterruptSource::Vblank)
        } else if self.ready(InterruptSource::LcdStat) {
            Some(InterruptSource::LcdStat)
        } else if self.ready(InterruptSource::Timer) {
            Some(InterruptSource::Timer)
        } else if self.ready(InterruptSource::Serial) {
            Some(InterruptSource::Serial)
        } else if self.ready(InterruptSource::Joypad) {
            Some(InterruptSource::Joypad)
        } else {
            None
        }
    }

    /// This controller with the source `s` pending.
    pub open spec fn with_request(self, s: InterruptSource) -> Interrupts {
        Interrupts { flags: self.flags | s.mask(), ..self }
    }

    /// This controller once the source `s` has been taken: its pending bit is
    /// clear and the master switch is off.
    pub open spec fn acknowledge(self, s: InterruptSource) -> Interrupts {
        Interrupts { master: 0, flags: self.flags & !s.mask(), ..self }
    }

    /// This controller with the master switch set to `master`.
    pub open spec fn with_master(self, master: u8) -> Interrupts {
        Interrupts { master, ..self }
    }

    /// Picks the source that a step would dispatch.
    pub fn select(&self) -> (s: Option<InterruptSource>)
        ensures
            s == self.next_source(),
    {
        if self.master == 0 {
            return None;
        }
        let enabled_flags: u8 = self.enable & self.flags;
        if (enabled_flags & INTERRUPTS_VBLANK) != 0 {
            Some(InterruptSource::Vblank)
        } else if (enabled_flags & INTERRUPTS_LCDSTAT) != 0 {
            Some(InterruptSource::LcdStat)
        } else if (enabled_flags & INTERRUPTS_TIMER) != 0 {
            Some(InterruptSource::Timer)
        } else if (enabled_flags & INTERRUPTS_SERIAL) != 0 {
            Some(InterruptSource::Serial)
        } else if (enabled_flags & INTERRUPTS_JOYPAD) != 0 {
            Some(InterruptSource::Joypad)
        } else {
            None
        }
    }

    /// Turns the master switch on.
    pub fn enable(&mut self)
        ensures
            *final(self) == old(self).with_master(1),
    {
        self.master = 1;
    }

    /// Turns the master switch off.
    pub fn disable(&mut self)
        ensures
            *final(self) == old(self).with_master(0),
    {
        self.master = 0;
    }

    /// Marks the source `s` as pending.
    pub fn request(&mut self, s: InterruptSource)
        ensures
            *final(self) == old(self).with_request(s),
    {
        self.flags |= s.bit();
    }

    /// Whether the vertical-blank source is enabled.
    pub fn has_vblank_interrupt(&self) -> (r: bool)
        ensures
            r == self.enabled(InterruptSource::Vblank),
    {
        (self.enable & INTERRUPTS_VBLANK) != 0
    }

    /// Marks the vertical-blank source as pending.
    pub fn set_vblank_interrupt(&mut self)
        ensures
            *final(self) == old(self).with_request(InterruptSource::Vblank),
    {
        self.flags |= INTERRUPTS_VBLANK;
    }

    /// A step can run: it dispatches nothing, or the two bytes below the
    /// stack pointer may be written.
    pub open spec fn step_allowed(&self, registers: &Registers) -> bool {
        self.next_source() is Some ==> word_writable(registers.sp.wrapping_sub(2))
    }

    /// Whether a step can run with these registers.
    pub fn can_step(&self, registers: &Registers) -> (r: bool)
        ensures
            r == self.step_allowed(registers),
    {
        match self.select() {
            Some(_) => is_word_writable(registers.sp.wrapping_sub(2)),
            None => true,
        }
    }

    /// Evaluates the pending interrupts and dispatches at most one of them,
    /// the ready source of highest priority.
    pub fn step(
        &mut self,
        registers: &mut Registers,
        memory: &mut Memory,
        ticks: &mut u32,
        gpu: &mut Gpu,
    )
        requires
            old(self).step_allowed(old(registers)),
        ensures
            (*final(registers), final(memory).bus(final(gpu), final(self)), *final(ticks))
                == dispatch(
                *old(registers),
                old(memory).bus(old(gpu), old(self)),
                *old(ticks),
            ),
    {
        match self.select() {
            Some(InterruptSource::Vblank) => {
                self.flags &= !INTERRUPTS_VBLANK;
                self.vblank(registers, memory, ticks, gpu);
            },
            Some(InterruptSource::LcdStat) => {
                self.flags &= !INTERRUPTS_LCDSTAT;
                self.lcd_stat(registers, memory, ticks, gpu);
            },
            Some(InterruptSource::Timer) => {
                self.flags &= !INTERRUPTS_TIMER;
                self.timer(registers, memory, ticks, gpu);
            },
            Some(InterruptSource::Serial) => {
                self.flags &= !INTERRUPTS_SERIAL;
                self.serial(registers, memory, ticks, gpu);
            },
            Some(InterruptSource::Joypad) => {
                self.flags &= !INTERRUPTS_JOYPAD;
                self.joypad(registers, memory, ticks, gpu);
            },
            None => {},
        }
    }

    /// Ends an interrupt handler: turns the master switch back on and pops
    /// the program counter off the stack.
    pub fn return_from_interrupt(
        &mut self,
        registers: &mut Registers,
        memory: &Memory,
        gpu: &Gpu,
    )
        ensures
            *final(self) == old(self).with_master(1),
            *final(registers) == resume(*old(registers), memory.bus(gpu, old(self))),
    {
        self.master = 1;
        registers.pc = memory.read_short_from_stack(registers, gpu, self);
    }

    fn vblank(
        &mut self,
        registers: &mut Registers,
        memory: &mut Memory,
        ticks: &mut u32,
        gpu: &mut Gpu,
    )
        requires
            word_writable(old(registers).sp.wrapping_sub(2)),
        ensures
            (*final(registers), final(memory).bus(final(gpu), final(self)), *final(ticks))
                == enter(
                *old(registers),
                old(memory).bus(old(gpu), old(self)),
                *old(ticks),
                0x40,
            ),
    {
        self.master = 0;
        memory.write_short_to_stack(registers, registers.pc, gpu, self);
        registers.pc = 0x40;
        *ticks = ticks.wrapping_add(DISPATCH_TICKS);
    }

    fn lcd_stat(
        &mut self,
        registers: &mut Registers,
        memory: &mut Memory,
        ticks: &mut u32,
        gpu: &mut Gpu,
    )
        requires
            word_writable(old(registers).sp.wrapping_sub(2)),
        ensures
            (*final(registers), final(memory).bus(final(gpu), final(self)), *final(ticks))
                == enter(
                *old(registers),
                old(memory).bus(old(gpu), old(self)),
                *old(ticks),
                0x48,
            ),
    {
        self.master = 0;
        memory.write_short_to_stack(registers, registers.pc, gpu, self);
        registers.pc = 0x48;
        *ticks = ticks.wrapping_add(DISPATCH_TICKS);
    }

    fn timer(
        &mut self,
        registers: &mut Registers,
        memory: &mut Memory,
        ticks: &mut u32,
        gpu: &mut Gpu,
    )
        requires
            word_writable(old(registers).sp.wrapping_sub(2)),
        ensures
            (*final(registers), final(memory).bus(final(gpu), final(self)), *final(ticks))
                == enter(
                *old(registers),
                old(memory).bus(old(gpu), old(self)),
                *old(ticks),
                0x50,
            ),
    {
        self.master = 0;
        memory.write_short_to_stack(registers, registers.pc, gpu, self);
        registers.pc = 0x50;
        *ticks = ticks.wrapping_add(DISPATCH_TICKS);
    }

    fn serial(
        &mut self,
        registers: &mut Registers,
        memory: &mut Memory,
        ticks: &mut u32,
        gpu: &mut Gpu,
    )
        requires
            word_writable(old(registers).sp.wrapping_sub(2)),
        ensures
            (*final(registers), final(memory).bus(final(gpu), final(self)), *final(ticks))
                == enter(
                *old(registers),
                old(memory).bus(old(gpu), old(self)),
                *old(ticks),
                0x58,
            ),
    {
        self.master = 0;
        memory.write_short_to_stack(registers, registers.pc, gpu, self);
        registers.pc = 0x58;
        *ticks = ticks.wrapping_add(DISPATCH_TICKS);
    }

    fn joypad(
        &mut self,
        registers: &mut Registers,
        memory: &mut Memory,
        ticks: &mut u32,
        gpu: &mut Gpu,
    )
        requires
            word_writable(old(registers).sp.wrapping_sub(2)),
        ensures
            (*final(registers), final(memory).bus(final(gpu), final(self)), *final(ticks))
                == enter(
                *old(registers),
                old(memory).bus(old(gpu), old(self)),
                *old(ticks),
                0x60,
            ),
    {
        self.master = 0;
        memory.write_short_to_stack(registers, registers.pc, gpu, self);
        registers.pc = 0x60;
        *ticks = ticks.wrapping_add(DISPATCH_TICKS);
    }
}

/// Registers, bus and tick count after control passes to the handler at
/// `vector`: the master switch is off, the program counter has been pushed,
/// execution continues at `vector`, and twelve ticks have gone by.
pub open spec fn enter(registers: Registers, bus: Bus, ticks: u32, vector: u16) -> (
    Registers,
    Bus,
    u32,
) {
    let masked = Bus { interrupts: bus.interrupts.with_master(0), ..bus };
    let (pushed, written) = push_word(registers, masked, registers.pc);
    (pushed.with_pc(vector), written, ticks.wrapping_add(DISPATCH_TICKS))
}

/// Registers, bus and tick count after one step of the interrupt controller.
/// Nothing changes unless a source is dispatched; then its pending bit is
/// cleared and control enters its handler.
pub open spec fn dispatch(registers: Registers, bus: Bus, ticks: u32) -> (Registers, Bus, u32) {
    match bus.interrupts.next_source() {
        None => (registers, bus, ticks),
        Some(s) => {
            let cleared = Interrupts {
                flags: bus.interrupts.flags & !s.mask(),
                ..bus.interrupts
            };
            enter(registers, Bus { interrupts: cleared, ..bus }, ticks, s.vector())
        },
    }
}

/// Registers after a return from an interrupt handler: the program counter
/// is the word popped off the stack.
pub open spec fn resume(registers: Registers, bus: Bus) -> Registers {
    pop_word(registers).with_pc(bus.read_short(registers.sp))
}

/// A dispatch takes exactly one source: where the push does not reach the
/// controller's own registers, the pending bit of the source taken is
/// cleared and no other, the enable mask stays, the master switch goes off,
/// the program counter lands on the source's vector with its old value on
/// the stack pointer's new place, and twelve ticks are counted.
pub proof fn lemma_dispatch_takes_one(registers: Registers, bus: Bus, ticks: u32)
    requires
        bus.wf(),
        bus.interrupts.next_source() is Some,
        route(registers.sp.wrapping_sub(2)).region != Region::InterruptFlags,
        route(registers.sp.wrapping_sub(1)).region != Region::InterruptFlags,
        route(registers.sp.wrapping_sub(2)).region != Region::InterruptEnable,
        route(registers.sp.wrapping_sub(1)).region != Region::InterruptEnable,
    ensures
        ({
            let s = bus.interrupts.next_source()->Some_0;
            let (r, b, t) = dispatch(registers, bus, ticks);
            &&& bus.interrupts.master != 0
            &&& bus.interrupts.ready(s)
            &&& r == registers.with_sp(registers.sp.wrapping_sub(2)).with_pc(s.vector())
            &&& b.interrupts.master == 0
            &&& b.interrupts.enable == bus.interrupts.enable
            &&& b.interrupts.flags == bus.interrupts.flags & !s.mask()
            &&& !b.interrupts.pending(s)
            &&& t == ticks.wrapping_add(DISPATCH_TICKS)
        }),
{
    let s = bus.interrupts.next_source()->Some_0;
    lemma_dispatch_needs_ready(bus.interrupts);
    let cleared = Interrupts { flags: bus.interrupts.flags & !s.mask(), ..bus.interrupts };
    let masked = Bus { interrupts: cleared.with_master(0), ..bus };
    let sp = registers.sp.wrapping_sub(2);
    lemma_write_frame(masked, sp, low_byte(registers.pc));
}

/// Dispatch goes by priority and takes one source at a time: with the master
/// switch on and both the vertical-blank and the timer source ready, a step
/// enters the vertical-blank handler, leaves the timer source pending, and
/// turns the master switch off, wherever the push does not reach the
/// controller's own registers.
pub proof fn lemma_vblank_before_timer(registers: Registers, bus: Bus, ticks: u32)
    requires
        bus.wf(),
        bus.interrupts.master != 0,
        bus.interrupts.ready(InterruptSource::Vblank),
        bus.interrupts.ready(InterruptSource::Timer),
        route(registers.sp.wrapping_sub(2)).region != Region::InterruptFlags,
        route(registers.sp.wrapping_sub(1)).region != Region::InterruptFlags,
    ensures
        ({
            let (r, b, t) = dispatch(registers, bus, ticks);
            &&& r.pc == InterruptSource::Vblank.vector()
            &&& r.sp == registers.sp.wrapping_sub(2)
            &&& b.interrupts.master == 0
            &&& !b.interrupts.pending(InterruptSource::Vblank)
            &&& b.interrupts.pending(InterruptSource::Timer)
            &&& t == ticks.wrapping_add(DISPATCH_TICKS)
        }),
{
    let e = bus.interrupts.enable;
    let f = bus.interrupts.flags;
    assert((e & f) & 0x01 != 0 && (e & f) & 0x04 != 0 ==> (f & !0x01u8) & 0x01 == 0
        && (f & !0x01u8) & 0x04 != 0) by (bit_vector);
    let cleared = Interrupts { flags: f & !0x01u8, ..bus.interrupts };
    let masked = Bus { interrupts: cleared.with_master(0), ..bus };
    let sp = registers.sp.wrapping_sub(2);
    let first = masked.write(sp, low_byte(registers.pc));
    lemma_write_frame(masked, sp, low_byte(registers.pc));
    lemma_write_frame(first, sp.wrapping_add(1), high_byte(registers.pc));
}

/// A step of the interrupt controller changes neither the size of a storage
/// region nor the cartridge ROM, nor what the display timer counts.
pub proof fn lemma_dispatch_frame(registers: Registers, bus: Bus, ticks: u32)
    requires
        bus.wf(),
    ensures
        dispatch(registers, bus, ticks).1.wf(),
        dispatch(registers, bus, ticks).1.memory.cartridge == bus.memory.cartridge,
        dispatch(registers, bus, ticks).1.gpu.scanline == bus.gpu.scanline,
        dispatch(registers, bus, ticks).1.gpu.mode == bus.gpu.mode,
        dispatch(registers, bus, ticks).1.gpu.tick == bus.gpu.tick,
        dispatch(registers, bus, ticks).1.gpu.last_ticks == bus.gpu.last_ticks,
        dispatch(registers, bus, ticks).0.f == registers.f,
{
    match bus.interrupts.next_source() {
        None => {},
        Some(s) => {
            let cleared = Interrupts {
                flags: bus.interrupts.flags & !s.mask(),
                ..bus.interrupts
            };
            let masked = Bus { interrupts: cleared.with_master(0), ..bus };
            lemma_write_short_frame(masked, registers.sp.wrapping_sub(2), registers.pc);
        },
    }
}

/// The master switch gates every dispatch: while it is off a step changes
/// nothing, whatever is enabled and pending.
pub proof fn lemma_master_off_holds(registers: Registers, bus: Bus, ticks: u32)
    requires
        bus.interrupts.master == 0,
    ensures
        dispatch(registers, bus, ticks) == (registers, bus, ticks),
{
}

/// A dispatch happens only when the master switch is on and a source is both
/// enabled and pending; with an empty enable mask or nothing pending there is
/// none. The source taken is ready, and acknowledging it clears its pending
/// bit.
pub proof fn lemma_dispatch_needs_ready(i: Interrupts)
    ensures
        i.next_source() is Some ==> i.master != 0 && (i.enable & i.flags) != 0,
        i.enable == 0 || i.flags == 0 ==> i.next_source() is None,
        i.master != 0 && (i.enable & i.flags) & 0x1f != 0 ==> i.next_source() is Some,
        i.next_source() matches Some(s) ==> i.ready(s) && !i.acknowledge(s).pending(s),
{
    let e = i.enable;
    let f = i.flags;
    let x = e & f;
    assert(e == 0 || f == 0 ==> e & f == 0) by (bit_vector);
    assert((x & 0x01 != 0 || x & 0x02 != 0 || x & 0x04 != 0 || x & 0x08 != 0 || x & 0x10 != 0)
        <==> x & 0x1f != 0) by (bit_vector);
    assert(x & 0x1f != 0 ==> x != 0) by (bit_vector);
    assert((f & !0x01u8) & 0x01 == 0 && (f & !0x02u8) & 0x02 == 0 && (f & !0x04u8) & 0x04 == 0
        && (f & !0x08u8) & 0x08 == 0 && (f & !0x10u8) & 0x10 == 0) by (bit_vector);
}

} // verus!
