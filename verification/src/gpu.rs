//! The display timer: a four-mode cycle counter that follows the ticks the
//! CPU has spent and raises the vertical-blank interrupt once per frame.

use vstd::prelude::*;
use crate::interrupts::{InterruptSource, Interrupts};
use crate::memory::Memory;

verus! {

/// The four modes of the display.
#[derive(Clone, Copy, Debug, PartialEq, Eq, Structural)]
pub enum GpuMode {
    /// Horizontal blank, after a line is drawn.
    Hblank,
    /// Vertical blank, after the last visible line.
    Vblank,
    /// Scan of the sprite attribute table.
    Oam,
    /// Transfer of pixels to the display.
    Vram,
}

/// First scanline of the vertical blank.
pub const VBLANK_LINE: u8 = 143;

/// Scanline at which a frame ends and the counter goes back to zero.
pub const FRAME_LINES: u8 = 153;

/// Ticks that one scanline takes: sprite scan, pixel transfer and horizontal
/// blank together, and as much for each line of the vertical blank.
pub const LINE_TICKS: u32 = 456;

/// Ticks from the start of a session to the vertical blank: the first
/// horizontal blank and 142 scanlines.
pub const TICKS_TO_VBLANK: u32 = 64956;

/// State of the display timer and of the display registers that the bus maps.
#[derive(Clone, Copy, Debug, PartialEq, Eq, Structural)]
pub struct Gpu {
    pub control: u8,
    pub scroll_x: u8,
    pub scroll_y: u8,
    pub scanline: u8,
    /// Ticks gathered since the last change of mode.
    pub tick: u32,
    /// The CPU's tick count when the timer last looked at it.
    pub last_ticks: u32,
    pub mode: GpuMode,
}

impl Default for Gpu {
    fn default() -> (g: Gpu)
        ensures
            g == Gpu::power_on(),
    {
        Gpu {
            control: 0,
            scroll_x: 0,
            scroll_y: 0,
            scanline: 0,
            tick: 0,
            last_ticks: 0,
            mode: GpuMode::Hblank,
        }
    }
}

/// Ticks that the display stays in `mode` before it moves on.
pub open spec fn threshold(mode: GpuMode) -> u32 {
    match mode {
        GpuMode::Hblank => 204,
        GpuMode::Vblank => 456,
        GpuMode::Oam => 80,
        GpuMode::Vram => 172,
    }
}

/// The interrupt controller after the display has asked for a vertical-blank
/// interrupt: the source becomes pending if it is enabled.
pub open spec fn raise_vblank(interrupts: Interrupts) -> Interrupts {
    if interrupts.enabled(InterruptSource::Vblank) {
        interrupts.with_request(InterruptSource::Vblank)
    } else {
        interrupts
    }
}

/// The display timer and the interrupt controller after ticks have gone by.
pub struct Advance {
    pub gpu: Gpu,
    pub interrupts: Interrupts,
}

impl Gpu {
    /// The display timer at the start of a session: horizontal blank on
    /// scanline 0, no ticks gathered.
    pub open spec fn power_on() -> Gpu {
        Gpu {
            control: 0,
            scroll_x: 0,
            scroll_y: 0,
            scanline: 0,
            tick: 0,
            last_ticks: 0,
            mode: GpuMode::Hblank,
        }
    }

    /// The scanline fits the mode: while the display draws, the scanline is
    /// below 143; during the vertical blank it is from 143 up to, not
    /// including, 153.
    pub open spec fn line_in_range(&self) -> bool {
        &&& self.mode == GpuMode::Vblank ==> VBLANK_LINE <= self.scanline < FRAME_LINES
        &&& self.mode != GpuMode::Vblank ==> self.scanline < VBLANK_LINE
    }

    /// The scanline fits the mode, and fewer ticks are gathered than the mode
    /// lasts.
    pub open spec fn wf(&self) -> bool {
        self.line_in_range() && self.tick < threshold(self.mode)
    }

    /// Mode and scanline after the current mode has run its time. From the
    /// horizontal blank the scanline goes up by one, into the vertical blank
    /// when it reaches 143 and into the sprite scan otherwise; in the
    /// vertical blank the scanline goes up by one and the frame starts over
    /// at 153; the sprite scan leads to the pixel transfer and that to the
    /// horizontal blank.
    pub open spec fn next_mode(self) -> Gpu {
        match self.mode {
            GpuMode::Hblank => if self.scanline + 1 == VBLANK_LINE {
                Gpu { scanline: VBLANK_LINE, mode: GpuMode::Vblank, ..self }
            } else {
                Gpu { scanline: (self.scanline + 1) as u8, mode: GpuMode::Oam, ..self }
            },
            GpuMode::Vblank => if self.scanline + 1 == FRAME_LINES {
                Gpu { scanline: 0, mode: GpuMode::Oam, ..self }
            } else {
                Gpu { scanline: (self.scanline + 1) as u8, ..self }
            },
            GpuMode::Oam => Gpu { mode: GpuMode::Vram, ..self },
            GpuMode::Vram => Gpu { mode: GpuMode::Hblank, ..self },
        }
    }

    /// This change of mode enters the vertical blank.
    pub open spec fn enters_vblank(self) -> bool {
        self.mode == GpuMode::Hblank && self.scanline + 1 == VBLANK_LINE
    }

    /// The state after `pending` gathered ticks have been spent: as long as
    /// the ticks reach the time of the current mode, that time is taken off
    /// and the mode changes; what is left stays gathered.
    pub open spec fn settle(self, interrupts: Interrupts, pending: nat) -> Advance
        decreases pending,
    {
        if pending >= threshold(self.mode) {
            self.next_mode().settle(
                if self.enters_vblank() {
                    raise_vblank(interrupts)
                } else {
                    interrupts
                },
                (pending - threshold(self.mode)) as nat,
            )
        } else {
            Advance { gpu: Gpu { tick: pending as u32, ..self }, interrupts }
        }
    }

    /// How often the display enters the vertical blank while `pending`
    /// gathered ticks are spent.
    pub open spec fn vblank_entries(self, pending: nat) -> nat
        decreases pending,
    {
        if pending >= threshold(self.mode) {
            let entered: nat = if self.enters_vblank() {
                1
            } else {
                0
            };
            entered + self.next_mode().vblank_entries((pending - threshold(self.mode)) as nat)
        } else {
            0
        }
    }

    /// The display at the start of the vertical blank, with the display
    /// registers of this one.
    pub open spec fn at_vblank(self) -> Gpu {
        Gpu { mode: GpuMode::Vblank, scanline: VBLANK_LINE, ..self }
    }

    /// The state after a step that sees the CPU's tick count at `ticks`: the
    /// ticks gone by since the last step, counted modulo 2^32, are added to
    /// those gathered and spent.
    pub open spec fn after_step(self, interrupts: Interrupts, ticks: u32) -> Advance {
        Gpu { last_ticks: ticks, ..self }.settle(
            interrupts,
            (self.tick + ticks.wrapping_sub(self.last_ticks)) as nat,
        )
    }

    /// Whether this state is well formed.
    pub fn is_valid(&self) -> (r: bool)
        ensures
            r == self.wf(),
    {
        let line_ok = match self.mode {
            GpuMode::Vblank => VBLANK_LINE <= self.scanline && self.scanline < FRAME_LINES,
            _ => self.scanline < VBLANK_LINE,
        };
        let limit: u32 = match self.mode {
            GpuMode::Hblank => 204,
            GpuMode::Vblank => 456,
            GpuMode::Oam => 80,
            GpuMode::Vram => 172,
        };
        line_ok && self.tick < limit
    }

    /// Changes mode once, asking for the vertical-blank interrupt when the
    /// vertical blank begins.
    pub fn change_mode(&mut self, interrupts: &mut Interrupts)
        requires
            old(self).line_in_range(),
        ensures
            *final(self) == old(self).next_mode(),
            final(self).line_in_range(),
            *final(interrupts) == if old(self).enters_vblank() {
                raise_vblank(*old(interrupts))
            } else {
                *old(interrupts)
            },
    {
        match self.mode {
            GpuMode::Hblank => {
                self.scanline += 1;
                if self.scanline == VBLANK_LINE {
                    if interrupts.has_vblank_interrupt() {
                        interrupts.set_vblank_interrupt();
                    }
                    self.mode = GpuMode::Vblank;
                } else {
                    self.mode = GpuMode::Oam;
                }
            },
            GpuMode::Vblank => {
                self.scanline += 1;
                if self.scanline == FRAME_LINES {
                    self.scanline = 0;
                    self.mode = GpuMode::Oam;
                }
            },
            GpuMode::Oam => {
                self.mode = GpuMode::Vram;
            },
            GpuMode::Vram => {
                self.mode = GpuMode::Hblank;
            },
        }
    }

    /// Advances the display by the ticks that the CPU has spent since the
    /// last step.
    pub fn step(&mut self, ticks: &mut u32, interrupts: &mut Interrupts)
        requires
            old(self).line_in_range(),
        ensures
            *final(ticks) == *old(ticks),
            final(self).wf(),
            (Advance { gpu: *final(self), interrupts: *final(interrupts) }) == old(
                self,
            ).after_step(*old(interrupts), *old(ticks)),
    {
        let elapsed: u32 = (*ticks).wrapping_sub(self.last_ticks);
        self.last_ticks = *ticks;
        let mut pending: u64 = self.tick as u64 + elapsed as u64;
        loop
            invariant
                self.line_in_range(),
                *ticks == *old(ticks),
                self.settle(*interrupts, pending as nat) == old(self).after_step(
                    *old(interrupts),
                    *old(ticks),
                ),
            ensures
                pending < threshold(self.mode),
            decreases pending,
        {
            let limit: u64 = match self.mode {
                GpuMode::Hblank => 204,
                GpuMode::Vblank => 456,
                GpuMode::Oam => 80,
                GpuMode::Vram => 172,
            };
            if pending < limit {
                break ;
            }
            pending -= limit;
            self.change_mode(interrupts);
        }
        self.tick = pending as u32;
    }
}

/// What one change of mode does to the interrupt controller: nothing, unless
/// the display leaves the horizontal blank of scanline 142. Then the
/// vertical-blank source becomes pending if it is enabled, and no other bit
/// of the controller changes.
pub proof fn lemma_vblank_request(gpu: Gpu, interrupts: Interrupts)
    requires
        gpu.line_in_range(),
    ensures
        gpu.next_mode().line_in_range(),
        (gpu.next_mode().mode == GpuMode::Vblank && gpu.mode != GpuMode::Vblank)
            <==> gpu.enters_vblank(),
        gpu.enters_vblank() <==> gpu.mode == GpuMode::Hblank && gpu.next_mode().scanline
            == VBLANK_LINE,
        interrupts.enabled(InterruptSource::Vblank) ==> raise_vblank(interrupts).pending(
            InterruptSource::Vblank,
        ),
        raise_vblank(interrupts).enable == interrupts.enable,
        raise_vblank(interrupts).master == interrupts.master,
        raise_vblank(interrupts).flags & 0xfe == interrupts.flags & 0xfe,
        !interrupts.enabled(InterruptSource::Vblank) ==> raise_vblank(interrupts) == interrupts,
{
    let f = interrupts.flags;
    assert((f | 0x01) & 0x01 != 0 && (f | 0x01) & 0xfe == f & 0xfe) by (bit_vector);
}

/// The scanline stays in range: whatever ticks go by, a display whose
/// scanline fits its mode ends well formed, with its scanline at most 152.
pub proof fn lemma_settle_wf(gpu: Gpu, interrupts: Interrupts, pending: nat)
    requires
        gpu.line_in_range(),
    ensures
        gpu.settle(interrupts, pending).gpu.wf(),
        gpu.settle(interrupts, pending).gpu.scanline < FRAME_LINES,
    decreases pending,
{
    if pending >= threshold(gpu.mode) {
        lemma_settle_wf(
            gpu.next_mode(),
            if gpu.enters_vblank() {
                raise_vblank(interrupts)
            } else {
                interrupts
            },
            (pending - threshold(gpu.mode)) as nat,
        );
    }
}

/// A step keeps the display registers that the bus maps.
pub proof fn lemma_settle_keeps_registers(gpu: Gpu, interrupts: Interrupts, pending: nat)
    ensures
        gpu.settle(interrupts, pending).gpu.control == gpu.control,
        gpu.settle(interrupts, pending).gpu.scroll_x == gpu.scroll_x,
        gpu.settle(interrupts, pending).gpu.scroll_y == gpu.scroll_y,
        gpu.settle(interrupts, pending).gpu.last_ticks == gpu.last_ticks,
        gpu.settle(interrupts, pending).interrupts.master == interrupts.master,
        gpu.settle(interrupts, pending).interrupts.enable == interrupts.enable,
    decreases pending,
{
    if pending >= threshold(gpu.mode) {
        lemma_settle_keeps_registers(
            gpu.next_mode(),
            if gpu.enters_vblank() {
                raise_vblank(interrupts)
            } else {
                interrupts
            },
            (pending - threshold(gpu.mode)) as nat,
        );
    }
}

/// The ticks that a mode has gathered do not matter once more are handed in:
/// what comes out depends on the mode, the scanline and the ticks to spend.
pub proof fn lemma_settle_ignores_tick(gpu: Gpu, tick: u32, interrupts: Interrupts, pending: nat)
    ensures
        (Gpu { tick, ..gpu }).settle(interrupts, pending) == gpu.settle(interrupts, pending),
        (Gpu { tick, ..gpu }).vblank_entries(pending) == gpu.vblank_entries(pending),
    decreases pending,
{
    let other = Gpu { tick, ..gpu };
    if pending >= threshold(gpu.mode) {
        assert(other.next_mode() == (Gpu { tick, ..gpu.next_mode() }));
        lemma_settle_ignores_tick(
            gpu.next_mode(),
            tick,
            if gpu.enters_vblank() {
                raise_vblank(interrupts)
            } else {
                interrupts
            },
            (pending - threshold(gpu.mode)) as nat,
        );
    }
}

/// Ticks may come in any portions: spending `first` ticks and then `more`
/// on top of what was left leads where spending them all at once leads, and
/// the display enters the vertical blank as often.
pub proof fn lemma_settle_splits(gpu: Gpu, interrupts: Interrupts, first: nat, more: nat)
    ensures
        ({
            let half = gpu.settle(interrupts, first);
            &&& half.gpu.settle(half.interrupts, half.gpu.tick as nat + more) == gpu.settle(
                interrupts,
                first + more,
            )
            &&& gpu.vblank_entries(first) + half.gpu.vblank_entries(half.gpu.tick as nat + more)
                == gpu.vblank_entries(first + more)
        }),
    decreases first,
{
    if first >= threshold(gpu.mode) {
        lemma_settle_splits(
            gpu.next_mode(),
            if gpu.enters_vblank() {
                raise_vblank(interrupts)
            } else {
                interrupts
            },
            (first - threshold(gpu.mode)) as nat,
            more,
        );
    } else {
        lemma_settle_ignores_tick(gpu, first as u32, interrupts, first + more);
    }
}

/// The vertical-blank interrupt is asked for when the display enters the
/// vertical blank and at no other time: after any ticks, the controller is
/// as it was if the display did not enter the vertical blank, and has taken
/// one request if it did, however often.
pub proof fn lemma_settle_requests(gpu: Gpu, interrupts: Interrupts, pending: nat)
    ensures
        gpu.settle(interrupts, pending).interrupts == if gpu.vblank_entries(pending) > 0 {
            raise_vblank(interrupts)
        } else {
            interrupts
        },
    decreases pending,
{
    if pending >= threshold(gpu.mode) {
        let rest = (pending - threshold(gpu.mode)) as nat;
        if gpu.enters_vblank() {
            lemma_settle_requests(gpu.next_mode(), raise_vblank(interrupts), rest);
            let f = interrupts.flags;
            assert((f | 0x01) | 0x01 == f | 0x01) by (bit_vector);
        } else {
            lemma_settle_requests(gpu.next_mode(), interrupts, rest);
        }
    }
}

/// From the sprite scan of a visible line, the display draws on, one line
/// every 456 ticks, and enters the vertical blank once when line 142 is
/// done.
pub proof fn lemma_visible_lines(gpu: Gpu, interrupts: Interrupts, pending: nat)
    requires
        gpu.mode == GpuMode::Oam,
        1 <= gpu.scanline < VBLANK_LINE,
    ensures
        pending < (VBLANK_LINE - gpu.scanline) * LINE_TICKS ==> {
            &&& gpu.vblank_entries(pending) == 0
            &&& gpu.settle(interrupts, pending).gpu.scanline < VBLANK_LINE
            &&& gpu.settle(interrupts, pending).gpu.mode != GpuMode::Vblank
        },
        pending >= (VBLANK_LINE - gpu.scanline) * LINE_TICKS ==> {
            let rest = (pending - (VBLANK_LINE - gpu.scanline) * LINE_TICKS) as nat;
            &&& gpu.vblank_entries(pending) == 1 + gpu.at_vblank().vblank_entries(rest)
            &&& gpu.settle(interrupts, pending) == gpu.at_vblank().settle(
                raise_vblank(interrupts),
                rest,
            )
        },
    decreases VBLANK_LINE - gpu.scanline,
{
    reveal_with_fuel(Gpu::settle, 4);
    reveal_with_fuel(Gpu::vblank_entries, 4);
    if pending >= LINE_TICKS && gpu.scanline + 1 < VBLANK_LINE {
        let next = Gpu { scanline: (gpu.scanline + 1) as u8, ..gpu };
        lemma_visible_lines(next, interrupts, (pending - LINE_TICKS) as nat);
        assert(next.at_vblank() == gpu.at_vblank());
    }
}

/// The first frame: from the horizontal blank of line 0, exactly 204 ticks
/// lead to the sprite scan of line 1; up to the 64956th tick the display
/// stays on visible lines and asks for no interrupt; and while it is on line
/// 143 it has entered the vertical blank exactly once, and asked for the
/// vertical-blank interrupt then.
pub proof fn lemma_first_vblank(gpu: Gpu, interrupts: Interrupts, pending: nat)
    requires
        gpu.mode == GpuMode::Hblank,
        gpu.scanline == 0,
    ensures
        pending < 204 ==> gpu.settle(interrupts, pending).gpu == (Gpu {
            tick: pending as u32,
            ..gpu
        }),
        204 <= pending < 284 ==> gpu.settle(interrupts, pending).gpu == (Gpu {
            mode: GpuMode::Oam,
            scanline: 1,
            tick: (pending - 204) as u32,
            ..gpu
        }),
        pending < TICKS_TO_VBLANK ==> {
            &&& gpu.vblank_entries(pending) == 0
            &&& gpu.settle(interrupts, pending).gpu.scanline < VBLANK_LINE
            &&& gpu.settle(interrupts, pending).interrupts == interrupts
        },
        TICKS_TO_VBLANK <= pending < TICKS_TO_VBLANK + LINE_TICKS ==> {
            &&& gpu.vblank_entries(pending) == 1
            &&& gpu.settle(interrupts, pending).gpu == (Gpu {
                tick: (pending - TICKS_TO_VBLANK) as u32,
                ..gpu.at_vblank()
            })
            &&& gpu.settle(interrupts, pending).interrupts == raise_vblank(interrupts)
        },
{
    reveal_with_fuel(Gpu::settle, 3);
    reveal_with_fuel(Gpu::vblank_entries, 3);
    lemma_settle_requests(gpu, interrupts, pending);
    if pending >= 204 {
        let line_one = Gpu { mode: GpuMode::Oam, scanline: 1, ..gpu };
        lemma_visible_lines(line_one, interrupts, (pending - 204) as nat);
        assert(line_one.at_vblank() == gpu.at_vblank());
    }
}

/// One row of a tile, decoded from the two bytes that hold it in video RAM.
pub struct TileRow {
    /// Number of the tile, counted from the start of video RAM.
    pub tile: u16,
    /// Row of the tile, from 0 at the top.
    pub y: u8,
    /// Colour numbers of the eight pixels of the row, from left to right.
    pub pixels: [u8; 8],
}

/// The colour number of pixel `idx` of a row whose two bytes are `low` and
/// `high`: bit `7 - idx` of `low` counts one, the same bit of `high` two.
pub open spec fn pixel(low: u8, high: u8, idx: u8) -> u8 {
    let bit_index: u8 = 1u8 << ((7 - idx) as u8);
    let a: u8 = if low & bit_index != 0 {
        1
    } else {
        0
    };
    let b: u8 = if high & bit_index != 0 {
        2
    } else {
        0
    };
    (a + b) as u8
}

/// Decodes the tile row that the video RAM holds at `addr`, an address in
/// video RAM of which bits 12 to 1 count.
pub fn update_tile(memory: &Memory, addr: u16) -> (row: TileRow)
    ensures
        row.tile == ((addr & 0x1ffe) >> 4) & 511,
        row.y == ((addr & 0x1ffe) >> 1) & 7,
        forall|idx: u8|
            idx < 8 ==> row.pixels@[idx as int] == pixel(
                memory.video_ram@[(addr & 0x1ffe) as int],
                memory.video_ram@[(addr & 0x1ffe) + 1],
                idx,
            ),
{
    assert(addr & 0x1ffe <= 0x1ffe && (((addr & 0x1ffe) >> 1) & 7) < 8) by (bit_vector);
    let start: u16 = addr & 0x1ffe;
    let tile: u16 = (start >> 4) & 511;
    let y: u8 = ((start >> 1) & 7) as u8;
    let low: u8 = memory.video_ram[start as usize];
    let high: u8 = memory.video_ram[start as usize + 1];
    let mut pixels: [u8; 8] = [0u8;8];
    let mut idx: u8 = 0;
    while idx < 8
        invariant
            idx <= 8,
            forall|k: u8| k < idx ==> pixels@[k as int] == pixel(low, high, k),
        decreases 8 - idx,
    {
        let bit_index: u8 = 1u8 << (7 - idx);
        let a: u8 = if (low & bit_index) != 0 {
            1
        } else {
            0
        };
        let b: u8 = if (high & bit_index) != 0 {
            2
        } else {
            0
        };
        pixels[idx as usize] = a + b;
        idx += 1;
    }
    TileRow { tile, y, pixels }
}

} // verus!
