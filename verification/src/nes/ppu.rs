use vstd::prelude::*;

use super::mapper::{Mapper, Mirroring};
use super::mapper::bank::{lemma_and_idempotent_u16, lemma_and_u16, lemma_and_u8, lemma_and_usize};
use super::palette::NES_PALETTE;

verus! {

pub const FRAME_WIDTH: usize = 256;

pub const FRAME_HEIGHT: usize = 240;

/// Bytes of the RGBA frame buffer: 256 x 240 pixels, four bytes each.
pub const FRAME_BUFFER_LEN: usize = 245760;

pub const CTRL_NMI_ENABLE: u8 = 0x80;

pub const CTRL_VRAM_INC_32: u8 = 0x04;

pub const CTRL_SPRITE_TABLE: u8 = 0x08;

pub const CTRL_BG_TABLE: u8 = 0x10;

pub const CTRL_SPRITE_SIZE_16: u8 = 0x20;

pub const MASK_SHOW_BG_LEFT: u8 = 0x02;

pub const MASK_SHOW_SPRITE_LEFT: u8 = 0x04;

pub const MASK_SHOW_BG: u8 = 0x08;

pub const MASK_SHOW_SPRITES: u8 = 0x10;

pub const STATUS_SPRITE_OVERFLOW: u8 = 0x20;

pub const STATUS_SPRITE_ZERO_HIT: u8 = 0x40;

pub const STATUS_VBLANK: u8 = 0x80;

pub const NMI_DELAY_CYCLES: u8 = 0;

/// Counters and last-seen values the PPU keeps for debugging.
#[derive(Debug, Clone, Copy)]
pub struct PpuDebugCounters {
    pub ticks: u64,
    pub vblank_entries: u64,
    pub nmi_edges: u64,
    pub nmi_fired: u64,
    pub sprite_overflow_events: u64,
    pub sprite_overflow_last_scanline: i16,
    pub sprite_overflow_last_cycle: i16,
    pub sprite0_hit_events: u64,
    pub sprite0_hit_last_scanline: i16,
    pub sprite0_hit_last_cycle: i16,
    pub sprite0_nonzero_events: u64,
    pub sprite0_nonzero_last_scanline: i16,
    pub sprite0_nonzero_last_cycle: i16,
    pub sprite0_nonzero_last_bg_pixel: u8,
    pub sprite0_nonzero_last_bg_opaque: bool,
    pub pattern_reads: u64,
    pub nametable_reads: u64,
    pub palette_reads: u64,
    pub pattern_writes: u64,
    pub nametable_writes: u64,
    pub palette_writes: u64,
    pub status_reads: u64,
    pub status_read_last_scanline: i16,
    pub status_read_last_cycle: i16,
    pub status_overflow_reads: u64,
    pub status_overflow_last_scanline: i16,
    pub status_overflow_last_cycle: i16,
    pub scroll_writes_2005: u64,
    pub scroll_write_2005_last_scanline: i16,
    pub scroll_write_2005_last_cycle: i16,
    pub scroll_write_2005_last_value: u8,
    pub scroll_write_2005_last_phase_second: bool,
    pub scroll_write_2005_prev_scanline: i16,
    pub scroll_write_2005_prev_cycle: i16,
    pub scroll_write_2005_prev_value: u8,
    pub scroll_write_2005_prev_phase_second: bool,
    pub addr_writes_2006: u64,
    pub addr_write_2006_last_scanline: i16,
    pub addr_write_2006_last_cycle: i16,
    pub addr_write_2006_last_value: u8,
    pub addr_write_2006_last_phase_second: bool,
    pub addr_write_2006_prev_scanline: i16,
    pub addr_write_2006_prev_cycle: i16,
    pub addr_write_2006_prev_value: u8,
    pub addr_write_2006_prev_phase_second: bool,
    pub last_read_addr: u16,
    pub last_write_addr: u16,
}

/// All counters zero, all flags clear.
pub open spec fn zeroed_debug_counters() -> PpuDebugCounters {
    PpuDebugCounters {
        ticks: 0,
        vblank_entries: 0,
        nmi_edges: 0,
        nmi_fired: 0,
        sprite_overflow_events: 0,
        sprite_overflow_last_scanline: 0,
        sprite_overflow_last_cycle: 0,
        sprite0_hit_events: 0,
        sprite0_hit_last_scanline: 0,
        sprite0_hit_last_cycle: 0,
        sprite0_nonzero_events: 0,
        sprite0_nonzero_last_scanline: 0,
        sprite0_nonzero_last_cycle: 0,
        sprite0_nonzero_last_bg_pixel: 0,
        sprite0_nonzero_last_bg_opaque: false,
        pattern_reads: 0,
        nametable_reads: 0,
        palette_reads: 0,
        pattern_writes: 0,
        nametable_writes: 0,
        palette_writes: 0,
        status_reads: 0,
        status_read_last_scanline: 0,
        status_read_last_cycle: 0,
        status_overflow_reads: 0,
        status_overflow_last_scanline: 0,
        status_overflow_last_cycle: 0,
        scroll_writes_2005: 0,
        scroll_write_2005_last_scanline: 0,
        scroll_write_2005_last_cycle: 0,
        scroll_write_2005_last_value: 0,
        scroll_write_2005_last_phase_second: false,
        scroll_write_2005_prev_scanline: 0,
        scroll_write_2005_prev_cycle: 0,
        scroll_write_2005_prev_value: 0,
        scroll_write_2005_prev_phase_second: false,
        addr_writes_2006: 0,
        addr_write_2006_last_scanline: 0,
        addr_write_2006_last_cycle: 0,
        addr_write_2006_last_value: 0,
        addr_write_2006_last_phase_second: false,
        addr_write_2006_prev_scanline: 0,
        addr_write_2006_prev_cycle: 0,
        addr_write_2006_prev_value: 0,
        addr_write_2006_prev_phase_second: false,
        last_read_addr: 0,
        last_write_addr: 0,
    }
}

impl Default for PpuDebugCounters {
    fn default() -> (r: Self)
        ensures
            r == zeroed_debug_counters(),
    {
        PpuDebugCounters {
            ticks: 0,
            vblank_entries: 0,
            nmi_edges: 0,
            nmi_fired: 0,
            sprite_overflow_events: 0,
            sprite_overflow_last_scanline: 0,
            sprite_overflow_last_cycle: 0,
            sprite0_hit_events: 0,
            sprite0_hit_last_scanline: 0,
            sprite0_hit_last_cycle: 0,
            sprite0_nonzero_events: 0,
            sprite0_nonzero_last_scanline: 0,
            sprite0_nonzero_last_cycle: 0,
            sprite0_nonzero_last_bg_pixel: 0,
            sprite0_nonzero_last_bg_opaque: false,
            pattern_reads: 0,
            nametable_reads: 0,
            palette_reads: 0,
            pattern_writes: 0,
            nametable_writes: 0,
            palette_writes: 0,
            status_reads: 0,
            status_read_last_scanline: 0,
            status_read_last_cycle: 0,
            status_overflow_reads: 0,
            status_overflow_last_scanline: 0,
            status_overflow_last_cycle: 0,
            scroll_writes_2005: 0,
            scroll_write_2005_last_scanline: 0,
            scroll_write_2005_last_cycle: 0,
            scroll_write_2005_last_value: 0,
            scroll_write_2005_last_phase_second: false,
            scroll_write_2005_prev_scanline: 0,
            scroll_write_2005_prev_cycle: 0,
            scroll_write_2005_prev_value: 0,
            scroll_write_2005_prev_phase_second: false,
            addr_writes_2006: 0,
            addr_write_2006_last_scanline: 0,
            addr_write_2006_last_cycle: 0,
            addr_write_2006_last_value: 0,
            addr_write_2006_last_phase_second: false,
            addr_write_2006_prev_scanline: 0,
            addr_write_2006_prev_cycle: 0,
            addr_write_2006_prev_value: 0,
            addr_write_2006_prev_phase_second: false,
            last_read_addr: 0,
            last_write_addr: 0,
        }
    }
}


/// The CPU-visible registers and the loopy scroll registers.
#[derive(Debug, Clone, Copy)]
pub struct PpuRegisters {
    pub ctrl: u8,
    pub mask: u8,
    pub status: u8,
    pub oam_addr: u8,
    pub write_toggle: bool,
    pub v: u16,
    pub t: u16,
    pub fine_x: u8,
    pub read_buffer: u8,
    pub open_bus: u8,
    pub ppuaddr_reload_pending: bool,
    pub ppuaddr_reload_delay: u8,
    pub debug_mask_write_count: u64,
    pub debug_last_mask_value: u8,
}

/// The beam position and the vblank/NMI signalling.
#[derive(Debug, Clone, Copy)]
pub struct PpuTiming {
    pub scanline: i16,
    pub cycle: i16,
    pub odd_frame: bool,
    pub frame_complete: bool,
    pub nmi_pending: bool,
    pub vblank_suppress: bool,
    pub nmi_line: bool,
    pub nmi_delay: u8,
}

/// The background fetch latches and shift registers.
#[derive(Debug, Clone, Copy)]
pub struct BackgroundPipeline {
    pub next_tile_id: u8,
    pub next_tile_attr: u8,
    pub next_tile_lsb: u8,
    pub next_tile_msb: u8,
    pub bg_shift_pattern_lo: u16,
    pub bg_shift_pattern_hi: u16,
    pub bg_shift_attr_lo: u16,
    pub bg_shift_attr_hi: u16,
}

/// The sprites selected for the current scanline.
#[derive(Debug, Clone, Copy)]
pub struct SpriteLine {
    pub sprite_count: usize,
    pub sprite_patterns_lo: [u8; 8],
    pub sprite_patterns_hi: [u8; 8],
    pub sprite_x: [u8; 8],
    pub sprite_attributes: [u8; 8],
    pub sprite_indices: [u8; 8],
    pub sprite0_prev_bg_opaque: bool,
}

/// The cycle-by-cycle sprite overflow scan of OAM.
#[derive(Debug, Clone, Copy)]
pub struct SpriteEval {
    pub sprite_eval_active: bool,
    pub sprite_eval_n: u8,
    pub sprite_eval_m: u8,
    pub sprite_eval_found: u8,
    pub sprite_eval_copy_remaining: u8,
    pub sprite_eval_bug_mode: bool,
    pub sprite_eval_target_scanline: i16,
}

/// The picture processing unit: registers, internal memories, the rendering
/// pipeline and the RGBA frame it draws.
pub struct Ppu {
    pub regs: PpuRegisters,
    pub timing: PpuTiming,
    pub oam: [u8; 256],
    pub vram: [u8; 4096],
    pub palette_ram: [u8; 32],
    pub bg: BackgroundPipeline,
    pub sprites: SpriteLine,
    pub eval: SpriteEval,
    pub allow_relaxed_sprite0_hit: bool,
    pub frame_buffer: [u8; FRAME_BUFFER_LEN],
    pub debug: PpuDebugCounters,
}

/// Whether background or sprite rendering is on.
pub open spec fn rendering_on(mask: u8) -> bool {
    (mask & (MASK_SHOW_BG | MASK_SHOW_SPRITES)) != 0
}

/// Loopy `v` after a coarse X increment: the coarse X wraps from 31 to 0 and
/// flips the horizontal nametable.
pub open spec fn coarse_x_incremented(v: u16) -> u16 {
    if (v & 0x001F) == 31 {
        (v & !0x001Fu16) ^ 0x0400
    } else {
        v.wrapping_add(1)
    }
}

/// Loopy `v` after a fine Y increment: fine Y counts to 7, then coarse Y
/// counts, wrapping from 29 to 0 with a vertical nametable flip, and from 31
/// to 0 without one.
pub open spec fn y_incremented(v: u16) -> u16 {
    if (v & 0x7000) != 0x7000 {
        v.wrapping_add(0x1000)
    } else {
        let v1 = v & !0x7000u16;
        let y = (v1 & 0x03E0) >> 5;
        if y == 29 {
            ((v1 ^ 0x0800) & !0x03E0u16) | (0u16 << 5)
        } else if y == 31 {
            (v1 & !0x03E0u16) | (0u16 << 5)
        } else {
            (v1 & !0x03E0u16) | (((y + 1) as u16) << 5)
        }
    }
}

/// The horizontal scroll bits (coarse X and the horizontal nametable) of `t` in `v`.
pub open spec fn horizontal_copied(v: u16, t: u16) -> u16 {
    (v & !0x041Fu16) | (t & 0x041F)
}

/// The vertical scroll bits (fine Y, coarse Y, vertical nametable) of `t` in `v`.
pub open spec fn vertical_copied(v: u16, t: u16) -> u16 {
    (v & !0x7BE0u16) | (t & 0x7BE0)
}

/// Index in palette RAM of an address in $3F00-$3FFF: 32 entries mirrored,
/// with the sprite backdrop entries $3F10/$3F14/$3F18/$3F1C mirroring the
/// background ones.
pub open spec fn palette_index_spec(addr: u16) -> usize {
    let index = ((addr - 0x3F00) % 0x20) as usize;
    if index >= 16 && (index & 0x03) == 0 {
        (index - 16) as usize
    } else {
        index
    }
}


/// A PPU bus read of `a` (already masked to $3FFF) answered `r`, through the
/// board `m0` to `m1` (pattern memory and the board's nametables) and then
/// to `m2` as the board saw the address; `o` is the board's nametable answer.
pub open spec fn ppu_fetch_via<M: Mapper>(p: Ppu, m0: M, m1: M, m2: M, a: u16, o: Option<u8>, r: u8) -> bool {
    &&& if a <= 0x1FFF {
        m0.chr_read_post(&m1, a, r)
    } else if a <= 0x3EFF {
        let mirrored = (0x2000 + (a - 0x2000) % 0x1000) as u16;
        &&& m0.nametable_read_spec(&m1, mirrored, p.vram@, o)
        &&& r == match o {
            Some(v) => v,
            None => p.vram@[mirrored_vram_index_spec(mirrored, m1.mirroring_view()) as int],
        }
    } else {
        m1 == m0 && r == p.palette_ram@[palette_index_spec(a) as int]
    }
    &&& m1.read_seen_post(&m2, a)
}

/// A PPU fetch depends on the PPU only through its nametable and palette
/// RAM.
pub proof fn lemma_fetch_same_memory<M: Mapper>(p: Ppu, q: Ppu, m0: M, m2: M, addr: u16, r: u8)
    requires
        ppu_fetch(p, m0, m2, addr, r),
        p.vram == q.vram,
        p.palette_ram == q.palette_ram,
    ensures
        ppu_fetch(q, m0, m2, addr, r),
{
    let (m1, o) = choose|m1: M, o: Option<u8>| #[trigger] ppu_fetch_via(p, m0, m1, m2, addr & 0x3FFF, o, r);
    assert(ppu_fetch_via(q, m0, m1, m2, addr & 0x3FFF, o, r));
}

/// A PPU bus read of `addr` answered `r`, the board going from `m0` to `m2`.
pub open spec fn ppu_fetch<M: Mapper>(p: Ppu, m0: M, m2: M, addr: u16, r: u8) -> bool {
    exists|m1: M, o: Option<u8>| #[trigger] ppu_fetch_via(p, m0, m1, m2, addr & 0x3FFF, o, r)
}

/// Index in the 4 KiB nametable RAM of a nametable address in $2000-$2FFF.
pub open spec fn mirrored_vram_index_spec(addr: u16, mirroring: Mirroring) -> usize {
    let index = (addr - 0x2000) as usize;
    let table = index / 0x400;
    let offset = index % 0x400;
    let mapped_table: usize = match mirroring {
        Mirroring::Horizontal => if table <= 1 { 0 } else { 1 },
        Mirroring::Vertical => table & 1,
        Mirroring::OneScreenLower => 0,
        Mirroring::OneScreenUpper => 1,
        Mirroring::FourScreen => table & 3,
    };
    (mapped_table * 0x400 + offset) as usize
}

/// A nametable address folded into $2000-$2FFF.
pub open spec fn nametable_mirror(addr: u16) -> u16 {
    (0x2000 + ((addr - 0x2000) % 0x1000)) as u16
}

/// The NMI signalling after the NMI output is recomputed: the output is the
/// AND of the NMI enable and the vblank flag, and its rising edge (with no
/// delay configured) makes an NMI pending.
pub open spec fn nmi_timing(timing: PpuTiming, ctrl: u8, status: u8) -> PpuTiming {
    let line = (ctrl & CTRL_NMI_ENABLE) != 0 && (status & STATUS_VBLANK) != 0;
    if line && !timing.nmi_line {
        PpuTiming { nmi_delay: NMI_DELAY_CYCLES, nmi_pending: true, nmi_line: line, ..timing }
    } else if !line {
        PpuTiming { nmi_delay: 0, nmi_line: line, ..timing }
    } else {
        PpuTiming { nmi_line: line, ..timing }
    }
}

/// The debug counters after the NMI output is recomputed.
pub open spec fn nmi_debug(debug: PpuDebugCounters, timing: PpuTiming, ctrl: u8, status: u8) -> PpuDebugCounters {
    let line = (ctrl & CTRL_NMI_ENABLE) != 0 && (status & STATUS_VBLANK) != 0;
    if line && !timing.nmi_line {
        PpuDebugCounters {
            nmi_edges: debug.nmi_edges.wrapping_add(1),
            nmi_fired: debug.nmi_fired.wrapping_add(1),
            ..debug
        }
    } else {
        debug
    }
}

pub proof fn lemma_status_bits(s: u8, b: u8)
    by (bit_vector)
    ensures
        (s | STATUS_SPRITE_ZERO_HIT) & STATUS_VBLANK == s & STATUS_VBLANK,
        (s | STATUS_SPRITE_OVERFLOW) & STATUS_VBLANK == s & STATUS_VBLANK,
        (s | STATUS_VBLANK) & STATUS_VBLANK == STATUS_VBLANK,
        (s & !STATUS_VBLANK) & STATUS_VBLANK == 0,
        (s & !(STATUS_VBLANK | STATUS_SPRITE_ZERO_HIT | STATUS_SPRITE_OVERFLOW)) & STATUS_VBLANK
            == 0,
        (s & !(STATUS_VBLANK | STATUS_SPRITE_ZERO_HIT | STATUS_SPRITE_OVERFLOW)) & (STATUS_VBLANK
            | STATUS_SPRITE_ZERO_HIT | STATUS_SPRITE_OVERFLOW) == 0,
        ((s & 0xE0) | (b & 0x1F)) & STATUS_VBLANK == s & STATUS_VBLANK,
        (s | STATUS_SPRITE_ZERO_HIT) & STATUS_SPRITE_ZERO_HIT != 0,
{
}

/// Bounds on the scroll fields taken out of a loopy register.
pub proof fn lemma_scroll_bits(v: u16)
    by (bit_vector)
    ensures
        (v & 0x03E0) >> 5 <= 31,
        ((v >> 4) & 0x04) | (v & 0x02) <= 6,
        (v >> 12) & 0x07 <= 7,
{
}

impl PpuDebugCounters {
    /// The counters after a PPU bus read of `addr` (already within $0000-$3FFF).
    pub open spec fn after_bus_read(self, addr: u16) -> Self {
        let d = PpuDebugCounters { last_read_addr: addr, ..self };
        if addr <= 0x1FFF {
            PpuDebugCounters { pattern_reads: d.pattern_reads.wrapping_add(1), ..d }
        } else if addr <= 0x3EFF {
            PpuDebugCounters { nametable_reads: d.nametable_reads.wrapping_add(1), ..d }
        } else {
            PpuDebugCounters { palette_reads: d.palette_reads.wrapping_add(1), ..d }
        }
    }

    /// The counters after a PPU bus write of `addr` (already within $0000-$3FFF).
    pub open spec fn after_bus_write(self, addr: u16) -> Self {
        let d = PpuDebugCounters { last_write_addr: addr, ..self };
        if addr <= 0x1FFF {
            PpuDebugCounters { pattern_writes: d.pattern_writes.wrapping_add(1), ..d }
        } else if addr <= 0x3EFF {
            PpuDebugCounters { nametable_writes: d.nametable_writes.wrapping_add(1), ..d }
        } else {
            PpuDebugCounters { palette_writes: d.palette_writes.wrapping_add(1), ..d }
        }
    }

    /// The counters after $2002 is read at `scanline`/`cycle` with `status`.
    pub open spec fn after_status_read(self, status: u8, scanline: i16, cycle: i16) -> Self {
        let d1 = PpuDebugCounters {
            status_reads: self.status_reads.wrapping_add(1),
            status_read_last_scanline: scanline,
            status_read_last_cycle: cycle,
            ..self
        };
        if (status & STATUS_SPRITE_OVERFLOW) != 0 {
            PpuDebugCounters {
                status_overflow_reads: d1.status_overflow_reads.wrapping_add(1),
                status_overflow_last_scanline: scanline,
                status_overflow_last_cycle: cycle,
                ..d1
            }
        } else {
            d1
        }
    }
}


/// The registers at power-on and after a reset: everything clear.
pub open spec fn cleared_registers() -> PpuRegisters {
    PpuRegisters {
        ctrl: 0,
        mask: 0,
        status: 0,
        oam_addr: 0,
        write_toggle: false,
        v: 0,
        t: 0,
        fine_x: 0,
        read_buffer: 0,
        open_bus: 0,
        ppuaddr_reload_pending: false,
        ppuaddr_reload_delay: 0,
        debug_mask_write_count: 0,
        debug_last_mask_value: 0,
    }
}

/// The beam at power-on and after a reset: the start of the pre-render line
/// of an even frame, with no vblank or NMI signalling under way.
pub open spec fn start_timing() -> PpuTiming {
    PpuTiming {
        scanline: 261,
        cycle: 0,
        odd_frame: false,
        frame_complete: false,
        nmi_pending: false,
        vblank_suppress: false,
        nmi_line: false,
        nmi_delay: 0,
    }
}

pub open spec fn cleared_background() -> BackgroundPipeline {
    BackgroundPipeline {
        next_tile_id: 0,
        next_tile_attr: 0,
        next_tile_lsb: 0,
        next_tile_msb: 0,
        bg_shift_pattern_lo: 0,
        bg_shift_pattern_hi: 0,
        bg_shift_attr_lo: 0,
        bg_shift_attr_hi: 0,
    }
}

pub open spec fn cleared_sprite_eval() -> SpriteEval {
    SpriteEval {
        sprite_eval_active: false,
        sprite_eval_n: 0,
        sprite_eval_m: 0,
        sprite_eval_found: 0,
        sprite_eval_copy_remaining: 0,
        sprite_eval_bug_mode: false,
        sprite_eval_target_scanline: 0,
    }
}

/// No sprite is selected and every sprite slot is zero.
pub open spec fn sprite_line_cleared(s: SpriteLine) -> bool {
    &&& s.sprite_count == 0
    &&& s.sprite_patterns_lo@ == Seq::new(8, |i: int| 0u8)
    &&& s.sprite_patterns_hi@ == Seq::new(8, |i: int| 0u8)
    &&& s.sprite_x@ == Seq::new(8, |i: int| 0u8)
    &&& s.sprite_attributes@ == Seq::new(8, |i: int| 0u8)
    &&& s.sprite_indices@ == Seq::new(8, |i: int| 0u8)
    &&& !s.sprite0_prev_bg_opaque
}

fn cleared_sprite_line() -> (s: SpriteLine)
    ensures
        sprite_line_cleared(s),
{
    let s = SpriteLine {
        sprite_count: 0,
        sprite_patterns_lo: [0; 8],
        sprite_patterns_hi: [0; 8],
        sprite_x: [0; 8],
        sprite_attributes: [0; 8],
        sprite_indices: [0; 8],
        sprite0_prev_bg_opaque: false,
    };
    assert(s.sprite_patterns_lo@ =~= Seq::new(8, |i: int| 0u8));
    assert(s.sprite_patterns_hi@ =~= Seq::new(8, |i: int| 0u8));
    assert(s.sprite_x@ =~= Seq::new(8, |i: int| 0u8));
    assert(s.sprite_attributes@ =~= Seq::new(8, |i: int| 0u8));
    assert(s.sprite_indices@ =~= Seq::new(8, |i: int| 0u8));
    s
}

/// Red + green + blue of the frame-buffer pixel at column `x`, row `y`.
pub open spec fn luma_at(frame: Seq<u8>, x: int, y: int) -> int {
    let idx = (y * 256 + x) * 4;
    frame[idx] as int + frame[idx + 1] as int + frame[idx + 2] as int
}

pub open spec fn clamp_spec(v: int, lo: int, hi: int) -> int {
    if v < lo {
        lo
    } else if v > hi {
        hi
    } else {
        v
    }
}

/// Whether a light gun aimed at (`x`, `y`) sees light: the point is on screen
/// and some pixel of the 3x3 block around it (clamped to the screen) has a
/// red + green + blue sum of at least 620.
pub open spec fn light_sensed_spec(frame: Seq<u8>, x: i16, y: i16) -> bool {
    &&& 0 <= x < 256
    &&& 0 <= y < 240
    &&& exists|dx: int, dy: int|
        -1 <= dx <= 1 && -1 <= dy <= 1 && #[trigger] luma_at(
            frame,
            clamp_spec(x + dx, 0, 255),
            clamp_spec(y + dy, 0, 239),
        ) >= 620
}

impl Ppu {
    /// The beam stays on the 262 x 341 raster, fine X is three bits, at most
    /// eight sprites are selected, and the overflow scan's byte index is two bits.
    pub open spec fn wf(&self) -> bool {
        &&& 0 <= self.timing.scanline <= 261
        &&& 0 <= self.timing.cycle <= 340
        &&& self.regs.fine_x < 8
        &&& self.sprites.sprite_count <= 8
        &&& self.eval.sprite_eval_m < 4
        &&& self.eval.sprite_eval_active ==> 1 <= self.eval.sprite_eval_target_scanline <= 240
    }

    pub fn new() -> (p: Self)
        ensures
            p.wf(),
            p.regs == cleared_registers(),
            p.timing == start_timing(),
            p.bg == cleared_background(),
            sprite_line_cleared(p.sprites),
            p.eval == cleared_sprite_eval(),
            !p.allow_relaxed_sprite0_hit,
            p.debug == zeroed_debug_counters(),
            p.oam@ == Seq::new(256, |i: int| 0u8),
            p.vram@ == Seq::new(4096, |i: int| 0u8),
            p.palette_ram@ == Seq::new(32, |i: int| 0x0Fu8),
            p.frame_buffer@ == Seq::new(FRAME_BUFFER_LEN as nat, |i: int| 0u8),
    {
        let p = Ppu {
            regs: PpuRegisters {
                ctrl: 0,
                mask: 0,
                status: 0,
                oam_addr: 0,
                write_toggle: false,
                v: 0,
                t: 0,
                fine_x: 0,
                read_buffer: 0,
                open_bus: 0,
                ppuaddr_reload_pending: false,
                ppuaddr_reload_delay: 0,
                debug_mask_write_count: 0,
                debug_last_mask_value: 0,
            },
            timing: PpuTiming {
                scanline: 261,
                cycle: 0,
                odd_frame: false,
                frame_complete: false,
                nmi_pending: false,
                vblank_suppress: false,
                nmi_line: false,
                nmi_delay: 0,
            },
            oam: [0; 256],
            vram: [0; 4096],
            palette_ram: [0x0F; 32],
            bg: BackgroundPipeline {
                next_tile_id: 0,
                next_tile_attr: 0,
                next_tile_lsb: 0,
                next_tile_msb: 0,
                bg_shift_pattern_lo: 0,
                bg_shift_pattern_hi: 0,
                bg_shift_attr_lo: 0,
                bg_shift_attr_hi: 0,
            },
            sprites: cleared_sprite_line(),
            eval: SpriteEval {
                sprite_eval_active: false,
                sprite_eval_n: 0,
                sprite_eval_m: 0,
                sprite_eval_found: 0,
                sprite_eval_copy_remaining: 0,
                sprite_eval_bug_mode: false,
                sprite_eval_target_scanline: 0,
            },
            allow_relaxed_sprite0_hit: false,
            frame_buffer: [0; 245760],
            debug: PpuDebugCounters::default(),
        };
        assert(p.oam@ =~= Seq::new(256, |i: int| 0u8));
        assert(p.vram@ =~= Seq::new(4096, |i: int| 0u8));
        assert(p.palette_ram@ =~= Seq::new(32, |i: int| 0x0Fu8));
        assert(p.frame_buffer@ =~= Seq::new(FRAME_BUFFER_LEN as nat, |i: int| 0u8));
        p
    }

    /// Back to the power-on state, except that OAM, nametable RAM and the frame
    /// already drawn are kept.
    pub fn reset(&mut self)
        ensures
            final(self).wf(),
            final(self).regs == cleared_registers(),
            final(self).timing == start_timing(),
            final(self).bg == cleared_background(),
            sprite_line_cleared(final(self).sprites),
            final(self).eval == cleared_sprite_eval(),
            !final(self).allow_relaxed_sprite0_hit,
            final(self).debug == zeroed_debug_counters(),
            final(self).oam == old(self).oam,
            final(self).vram == old(self).vram,
            final(self).palette_ram@ == Seq::new(32, |i: int| 0x0Fu8),
            final(self).frame_buffer == old(self).frame_buffer,
    {
        self.regs = PpuRegisters {
            ctrl: 0,
            mask: 0,
            status: 0,
            oam_addr: 0,
            write_toggle: false,
            v: 0,
            t: 0,
            fine_x: 0,
            read_buffer: 0,
            open_bus: 0,
            ppuaddr_reload_pending: false,
            ppuaddr_reload_delay: 0,
            debug_mask_write_count: 0,
            debug_last_mask_value: 0,
        };
        self.regs.debug_last_mask_value = self.regs.mask;
        self.timing = PpuTiming {
            scanline: 261,
            cycle: 0,
            odd_frame: false,
            frame_complete: false,
            nmi_pending: false,
            vblank_suppress: false,
            nmi_line: false,
            nmi_delay: 0,
        };
        self.bg = BackgroundPipeline {
            next_tile_id: 0,
            next_tile_attr: 0,
            next_tile_lsb: 0,
            next_tile_msb: 0,
            bg_shift_pattern_lo: 0,
            bg_shift_pattern_hi: 0,
            bg_shift_attr_lo: 0,
            bg_shift_attr_hi: 0,
        };
        self.sprites = cleared_sprite_line();
        self.eval = SpriteEval {
            sprite_eval_active: false,
            sprite_eval_n: 0,
            sprite_eval_m: 0,
            sprite_eval_found: 0,
            sprite_eval_copy_remaining: 0,
            sprite_eval_bug_mode: false,
            sprite_eval_target_scanline: 0,
        };
        self.allow_relaxed_sprite0_hit = false;
        self.debug = PpuDebugCounters::default();
        // The startup backdrop is black, so a fresh frame is deterministic.
        self.palette_ram = [0x0F; 32];
        assert(self.palette_ram@ =~= Seq::new(32, |i: int| 0x0Fu8));
    }

    pub fn frame_buffer(&self) -> (r: &[u8])
        ensures
            r@ == self.frame_buffer@,
    {
        self.frame_buffer.as_slice()
    }

    pub fn debug_ctrl(&self) -> (r: u8)
        ensures
            r == self.regs.ctrl,
    {
        self.regs.ctrl
    }

    pub fn debug_mask(&self) -> (r: u8)
        ensures
            r == self.regs.mask,
    {
        self.regs.mask
    }

    pub fn debug_status(&self) -> (r: u8)
        ensures
            r == self.regs.status,
    {
        self.regs.status
    }

    pub fn debug_scanline_cycle(&self) -> (r: (i16, i16))
        ensures
            r == (self.timing.scanline, self.timing.cycle),
    {
        (self.timing.scanline, self.timing.cycle)
    }

    /// How many times $2001 was written, and the last value written.
    pub fn debug_mask_write_stats(&self) -> (r: (u64, u8))
        ensures
            r == (self.regs.debug_mask_write_count, self.regs.debug_last_mask_value),
    {
        (self.regs.debug_mask_write_count, self.regs.debug_last_mask_value)
    }

    /// Nametable RAM at `index`, wrapped into its 4 KiB.
    pub fn debug_peek_vram(&self, index: usize) -> (r: u8)
        ensures
            r == self.vram[(index % 4096) as int],
    {
        self.vram[index % 4096]
    }

    /// Palette RAM at `index`, wrapped into its 32 bytes.
    pub fn debug_peek_palette(&self, index: usize) -> (r: u8)
        ensures
            r == self.palette_ram[(index % 32) as int],
    {
        self.palette_ram[index % 32]
    }

    /// OAM at `index`, wrapped into its 256 bytes.
    pub fn debug_peek_oam(&self, index: usize) -> (r: u8)
        ensures
            r == self.oam[(index % 256) as int],
    {
        self.oam[index % 256]
    }

    pub fn debug_counters(&self) -> (r: PpuDebugCounters)
        ensures
            r == self.debug,
    {
        self.debug
    }

    pub fn clear_frame_complete(&mut self)
        ensures
            *final(self) == (Ppu {
                timing: PpuTiming { frame_complete: false, ..old(self).timing },
                ..*old(self)
            }),
    {
        self.timing.frame_complete = false;
    }

    pub fn frame_complete(&self) -> (r: bool)
        ensures
            r == self.timing.frame_complete,
    {
        self.timing.frame_complete
    }

    /// Hands out a pending NMI once: the pending flag is cleared.
    pub fn take_nmi(&mut self) -> (r: bool)
        ensures
            r == old(self).timing.nmi_pending,
            *final(self) == (Ppu {
                timing: PpuTiming { nmi_pending: false, ..old(self).timing },
                ..*old(self)
            }),
    {
        let pending = self.timing.nmi_pending;
        self.timing.nmi_pending = false;
        pending
    }

    /// Whether a light gun aimed at (`x`, `y`) sees a bright pixel near it.
    pub fn zapper_light_sensed(&self, x: i16, y: i16) -> (r: bool)
        ensures
            r == light_sensed_spec(self.frame_buffer@, x, y),
    {
        if x < 0 || y < 0 || x >= 256 || y >= 240 {
            return false;
        }
        let mut max_luma: u16 = 0;
        let ghost mut witness: (int, int) = (0, 0);
        let mut dyi: i16 = 0;
        while dyi < 3
            invariant
                0 <= x < 256,
                0 <= y < 240,
                0 <= dyi <= 3,
                max_luma <= 765,
                max_luma > 0 ==> -1 <= witness.0 <= 1 && -1 <= witness.1 <= 1 && luma_at(
                    self.frame_buffer@,
                    clamp_spec(x + witness.0, 0, 255),
                    clamp_spec(y + witness.1, 0, 239),
                ) == max_luma,
                forall|dx: int, dy: int|
                    -1 <= dx <= 1 && -1 <= dy < dyi - 1 ==> #[trigger] luma_at(
                        self.frame_buffer@,
                        clamp_spec(x + dx, 0, 255),
                        clamp_spec(y + dy, 0, 239),
                    ) <= max_luma,
            decreases 3 - dyi,
        {
            let mut dxi: i16 = 0;
            while dxi < 3
                invariant
                    0 <= x < 256,
                    0 <= y < 240,
                    0 <= dyi < 3,
                    0 <= dxi <= 3,
                    max_luma <= 765,
                    max_luma > 0 ==> -1 <= witness.0 <= 1 && -1 <= witness.1 <= 1 && luma_at(
                        self.frame_buffer@,
                        clamp_spec(x + witness.0, 0, 255),
                        clamp_spec(y + witness.1, 0, 239),
                    ) == max_luma,
                    forall|dx: int, dy: int|
                        -1 <= dx <= 1 && -1 <= dy < dyi - 1 ==> #[trigger] luma_at(
                            self.frame_buffer@,
                            clamp_spec(x + dx, 0, 255),
                            clamp_spec(y + dy, 0, 239),
                        ) <= max_luma,
                    forall|dx: int|
                        -1 <= dx < dxi - 1 ==> #[trigger] luma_at(
                            self.frame_buffer@,
                            clamp_spec(x + dx, 0, 255),
                            clamp_spec(y + (dyi - 1), 0, 239),
                        ) <= max_luma,
                decreases 3 - dxi,
            {
                let sx: i16 = clamp_i16(x + dxi - 1, 0, 255);
                let sy: i16 = clamp_i16(y + dyi - 1, 0, 239);
                let sxu: usize = sx as usize;
                let syu: usize = sy as usize;
                let idx: usize = (syu * 256 + sxu) * 4;
                let r: u16 = self.frame_buffer[idx] as u16;
                let g: u16 = self.frame_buffer[idx + 1] as u16;
                let b: u16 = self.frame_buffer[idx + 2] as u16;
                let luma: u16 = r + g + b;
                assert(luma == luma_at(
                    self.frame_buffer@,
                    clamp_spec(x + (dxi - 1), 0, 255),
                    clamp_spec(y + (dyi - 1), 0, 239),
                ));
                if luma > max_luma {
                    max_luma = luma;
                    proof {
                        witness = ((dxi - 1) as int, (dyi - 1) as int);
                    }
                }
                dxi = dxi + 1;
            }
            assert forall|dx: int, dy: int| -1 <= dx <= 1 && -1 <= dy < dyi implies #[trigger] luma_at(
                self.frame_buffer@,
                clamp_spec(x + dx, 0, 255),
                clamp_spec(y + dy, 0, 239),
            ) <= max_luma by {
                if dy == dyi - 1 {
                    assert(luma_at(
                        self.frame_buffer@,
                        clamp_spec(x + dx, 0, 255),
                        clamp_spec(y + (dyi - 1), 0, 239),
                    ) <= max_luma);
                }
            }
            dyi = dyi + 1;
        }
        let sensed = max_luma >= 620;
        proof {
            if sensed {
                assert(luma_at(
                    self.frame_buffer@,
                    clamp_spec(x + witness.0, 0, 255),
                    clamp_spec(y + witness.1, 0, 239),
                ) >= 620);
            }
        }
        sensed
    }
}

/// `v` limited to `lo..=hi`.
fn clamp_i16(v: i16, lo: i16, hi: i16) -> (r: i16)
    requires
        lo <= hi,
    ensures
        r == clamp_spec(v as int, lo as int, hi as int),
{
    if v < lo {
        lo
    } else if v > hi {
        hi
    } else {
        v
    }
}


/// What a PPU bus read of `addr` (taken to 14 bits) yields from the PPU's own
/// memories: nametable RAM through the board's mirroring when the board has no
/// nametable of its own, and palette RAM. `None` where the board answers:
/// the pattern tables, and the nametables of a board that keeps its own.
pub open spec fn bus_read_spec(
    vram: Seq<u8>,
    palette: Seq<u8>,
    addr: u16,
    owns_nametables: bool,
    mirroring: Mirroring,
) -> Option<u8> {
    let a = addr & 0x3FFF;
    if a <= 0x1FFF {
        None
    } else if a <= 0x3EFF {
        if owns_nametables {
            None
        } else {
            Some(vram[mirrored_vram_index_spec(nametable_mirror(a), mirroring) as int])
        }
    } else {
        Some(palette[palette_index_spec(a) as int])
    }
}

/// How a PPU bus write of `value` at `addr` (taken to 14 bits) changes the
/// PPU's nametable RAM and palette RAM. Pattern-table writes go to the board
/// and leave both alone; a board with nametables of its own decides what
/// becomes of nametable RAM.
pub open spec fn bus_write_post(
    vram0: Seq<u8>,
    vram1: Seq<u8>,
    palette0: Seq<u8>,
    palette1: Seq<u8>,
    addr: u16,
    value: u8,
    owns_nametables: bool,
    mirroring: Mirroring,
) -> bool {
    let a = addr & 0x3FFF;
    if a <= 0x1FFF {
        vram1 == vram0 && palette1 == palette0
    } else if a <= 0x3EFF {
        &&& palette1 == palette0
        &&& !owns_nametables ==> vram1 == vram0.update(
            mirrored_vram_index_spec(nametable_mirror(a), mirroring) as int,
            value,
        )
    } else {
        vram1 == vram0 && palette1 == palette0.update(palette_index_spec(a) as int, value)
    }
}

/// `v` after a $2007 access: during rendering on the visible and pre-render
/// lines it takes the coarse X and Y increments of the rendering path,
/// otherwise it advances by 1 or 32 as PPUCTRL selects.
pub open spec fn data_access_incremented(v: u16, ctrl: u8, mask: u8, scanline: i16) -> u16 {
    if rendering_on(mask) && ((0 <= scanline < 240) || scanline == 261) {
        y_incremented(coarse_x_incremented(v))
    } else if (ctrl & CTRL_VRAM_INC_32) != 0 {
        v.wrapping_add(32)
    } else {
        v.wrapping_add(1)
    }
}

pub proof fn lemma_mirrored_index_bound(addr: u16, mirroring: Mirroring)
    requires
        0x2000 <= addr < 0x3000,
    ensures
        mirrored_vram_index_spec(addr, mirroring) < 4096,
{
    let index = (addr - 0x2000) as usize;
    let table = index / 0x400;
    assert(table < 4);
    lemma_and_usize(table, 1);
    lemma_and_usize(table, 3);
}

fn increment_coarse_x(v: &mut u16)
    ensures
        *final(v) == coarse_x_incremented(*old(v)),
{
    if (*v & 0x001F) == 31 {
        *v = *v & !0x001F;
        *v = *v ^ 0x0400;
    } else {
        *v = v.wrapping_add(1);
    }
}

fn increment_y(v: &mut u16)
    ensures
        *final(v) == y_incremented(*old(v)),
{
    if (*v & 0x7000) != 0x7000 {
        *v = v.wrapping_add(0x1000);
        return;
    }
    *v = *v & !0x7000;
    let mut y: u16 = (*v & 0x03E0) >> 5;
    proof {
        lemma_scroll_bits(*v);
    }
    if y == 29 {
        y = 0;
        *v = *v ^ 0x0800;
    } else if y == 31 {
        y = 0;
    } else {
        y = y + 1;
    }
    *v = (*v & !0x03E0) | (y << 5);
}

fn copy_horizontal_bits(v: &mut u16, t: u16)
    ensures
        *final(v) == horizontal_copied(*old(v), t),
{
    *v = (*v & !0x041F) | (t & 0x041F);
}

fn copy_vertical_bits(v: &mut u16, t: u16)
    ensures
        *final(v) == vertical_copied(*old(v), t),
{
    *v = (*v & !0x7BE0) | (t & 0x7BE0);
}

/// Index in palette RAM of a palette address.
fn palette_index(addr: u16) -> (r: usize)
    requires
        addr >= 0x3F00,
    ensures
        r == palette_index_spec(addr),
        r < 32,
{
    let mut index: usize = ((addr - 0x3F00) % 0x20) as usize;
    if index >= 16 && (index & 0x03) == 0 {
        index = index - 16;
    }
    index
}

/// Index in nametable RAM of a nametable address under `mirroring`.
fn mirrored_vram_index(addr: u16, mirroring: Mirroring) -> (r: usize)
    requires
        0x2000 <= addr < 0x3000,
    ensures
        r == mirrored_vram_index_spec(addr, mirroring),
        r < 4096,
{
    proof {
        lemma_mirrored_index_bound(addr, mirroring);
    }
    let index: usize = (addr - 0x2000) as usize;
    let table: usize = index / 0x400;
    let offset: usize = index % 0x400;
    proof {
        lemma_and_usize(table, 1);
        lemma_and_usize(table, 3);
    }
    let mapped_table: usize = match mirroring {
        Mirroring::Horizontal => if table <= 1 {
            0
        } else {
            1
        },
        Mirroring::Vertical => table & 1,
        Mirroring::OneScreenLower => 0,
        Mirroring::OneScreenUpper => 1,
        Mirroring::FourScreen => table & 3,
    };
    mapped_table * 0x400 + offset
}

impl Ppu {
    /// Recomputes the NMI output from the NMI enable and the vblank flag.
    fn update_nmi_line(&mut self)
        ensures
            *final(self) == (Ppu {
                timing: nmi_timing(old(self).timing, old(self).regs.ctrl, old(self).regs.status),
                debug: nmi_debug(
                    old(self).debug,
                    old(self).timing,
                    old(self).regs.ctrl,
                    old(self).regs.status,
                ),
                ..*old(self)
            }),
    {
        let line = (self.regs.ctrl & CTRL_NMI_ENABLE) != 0 && (self.regs.status & STATUS_VBLANK)
            != 0;
        if line && !self.timing.nmi_line {
            // The edge reaches the CPU after a short delay, which a $2002 read
            // can still cancel.
            self.timing.nmi_delay = NMI_DELAY_CYCLES;
            self.debug.nmi_edges = self.debug.nmi_edges.wrapping_add(1);
            if self.timing.nmi_delay == 0 {
                self.timing.nmi_pending = true;
                self.debug.nmi_fired = self.debug.nmi_fired.wrapping_add(1);
            }
        } else if !line {
            self.timing.nmi_delay = 0;
        }
        self.timing.nmi_line = line;
    }

    /// A PPU bus read: pattern tables from the board, nametables from the
    /// board or from nametable RAM, palette RAM above $3F00. The board is told
    /// of the address afterwards.
    fn ppu_read<M: Mapper>(&mut self, addr: u16, mapper: &mut M) -> (r: u8)
        requires
            old(mapper).inv(),
        ensures
            final(mapper).inv(),
            final(mapper).owns_nametables() == old(mapper).owns_nametables(),
            final(mapper).mirroring_view() == old(mapper).mirroring_view(),
            *final(self) == (Ppu {
                debug: old(self).debug.after_bus_read(addr & 0x3FFF),
                ..*old(self)
            }),
            bus_read_spec(
                old(self).vram@,
                old(self).palette_ram@,
                addr,
                old(mapper).owns_nametables(),
                old(mapper).mirroring_view(),
            ) matches Some(b) ==> r == b,
            ppu_fetch(*old(self), *old(mapper), *final(mapper), addr, r),
    {
        let ghost p0 = *self;
        let ghost m0 = *mapper;
        let ghost mut o: Option<u8> = None;
        let addr = addr & 0x3FFF;
        self.debug.last_read_addr = addr;
        let value: u8 = if addr <= 0x1FFF {
            self.debug.pattern_reads = self.debug.pattern_reads.wrapping_add(1);
            mapper.ppu_read(addr)
        } else if addr <= 0x3EFF {
            self.debug.nametable_reads = self.debug.nametable_reads.wrapping_add(1);
            let mirrored: u16 = 0x2000 + ((addr - 0x2000) % 0x1000);
            let answer = mapper.ppu_nametable_read(mirrored, &self.vram);
            proof {
                o = answer;
            }
            match answer {
                Some(value) => value,
                None => {
                    let index = mirrored_vram_index(mirrored, mapper.mirroring());
                    self.vram[index]
                },
            }
        } else {
            self.debug.palette_reads = self.debug.palette_reads.wrapping_add(1);
            let index = palette_index(addr);
            self.palette_ram[index]
        };
        let ghost m1 = *mapper;
        mapper.notify_ppu_read_addr(addr);
        proof {
            assert(ppu_fetch_via(p0, m0, m1, *mapper, addr, o, value));
        }
        value
    }

    /// A PPU bus write: pattern tables to the board, nametables to the board or
    /// to nametable RAM, palette RAM above $3F00. The board is told of the
    /// address afterwards.
    fn ppu_write<M: Mapper>(&mut self, addr: u16, value: u8, mapper: &mut M)
        requires
            old(mapper).inv(),
        ensures
            final(mapper).inv(),
            final(mapper).owns_nametables() == old(mapper).owns_nametables(),
            final(mapper).mirroring_view() == old(mapper).mirroring_view(),
            *final(self) == (Ppu {
                debug: old(self).debug.after_bus_write(addr & 0x3FFF),
                vram: final(self).vram,
                palette_ram: final(self).palette_ram,
                ..*old(self)
            }),
            bus_write_post(
                old(self).vram@,
                final(self).vram@,
                old(self).palette_ram@,
                final(self).palette_ram@,
                addr,
                value,
                old(mapper).owns_nametables(),
                old(mapper).mirroring_view(),
            ),
    {
        let addr = addr & 0x3FFF;
        self.debug.last_write_addr = addr;
        if addr <= 0x1FFF {
            self.debug.pattern_writes = self.debug.pattern_writes.wrapping_add(1);
            mapper.ppu_write(addr, value);
        } else if addr <= 0x3EFF {
            self.debug.nametable_writes = self.debug.nametable_writes.wrapping_add(1);
            let mirrored: u16 = 0x2000 + ((addr - 0x2000) % 0x1000);
            if !mapper.ppu_nametable_write(mirrored, value, &mut self.vram) {
                let index = mirrored_vram_index(mirrored, mapper.mirroring());
                self.vram[index] = value;
            }
        } else {
            self.debug.palette_writes = self.debug.palette_writes.wrapping_add(1);
            let index = palette_index(addr);
            self.palette_ram[index] = value;
        }
        mapper.notify_ppu_write_addr(addr);
    }

    /// Advances `v` after a $2007 access.
    fn increment_vram_addr_cpu_access(&mut self)
        ensures
            *final(self) == (Ppu {
                regs: PpuRegisters {
                    v: data_access_incremented(
                        old(self).regs.v,
                        old(self).regs.ctrl,
                        old(self).regs.mask,
                        old(self).timing.scanline,
                    ),
                    ..old(self).regs
                },
                ..*old(self)
            }),
    {
        let scanline = self.timing.scanline;
        if (self.regs.mask & (MASK_SHOW_BG | MASK_SHOW_SPRITES)) != 0 && ((0 <= scanline
            && scanline < 240) || scanline == 261) {
            increment_coarse_x(&mut self.regs.v);
            increment_y(&mut self.regs.v);
        } else if (self.regs.ctrl & CTRL_VRAM_INC_32) != 0 {
            self.regs.v = self.regs.v.wrapping_add(32);
        } else {
            self.regs.v = self.regs.v.wrapping_add(1);
        }
    }
}


/// The timing after $2002 is read: a read at the very start of line 241
/// cancels this frame's vblank flag and NMI; the NMI output goes low, since the
/// read clears the vblank flag.
pub open spec fn status_read_timing(t: PpuTiming) -> PpuTiming {
    let t1 = if t.scanline == 241 && t.cycle == 0 {
        PpuTiming { vblank_suppress: true, nmi_delay: 0, nmi_pending: false, ..t }
    } else {
        t
    };
    PpuTiming { nmi_line: false, nmi_delay: 0, ..t1 }
}

/// `t` after a $2005 write: the first write sets coarse X, the second coarse Y
/// and fine Y.
pub open spec fn scroll_write_t(t: u16, value: u8, second: bool) -> u16 {
    if !second {
        (t & !0x001Fu16) | (((value as u16) >> 3) & 0x001F)
    } else {
        let t1 = (t & !0x03E0u16) | ((((value as u16) >> 3) & 0x001F) << 5);
        (t1 & !0x7000u16) | (((value as u16) & 0x07) << 12)
    }
}

/// `t` after a $2006 write: the first write sets the high six bits (and clears
/// bit 14), the second the low byte.
pub open spec fn addr_write_t(t: u16, value: u8, second: bool) -> u16 {
    if !second {
        (t & 0x00FF) | (((value as u16) & 0x3F) << 8)
    } else {
        (t & 0x7F00) | (value as u16)
    }
}

impl PpuDebugCounters {
    /// The counters after a $2005 write of `value` in the given phase.
    pub open spec fn after_scroll_write(self, value: u8, second: bool, scanline: i16, cycle: i16) -> Self {
        PpuDebugCounters {
            scroll_writes_2005: self.scroll_writes_2005.wrapping_add(1),
            scroll_write_2005_prev_scanline: self.scroll_write_2005_last_scanline,
            scroll_write_2005_prev_cycle: self.scroll_write_2005_last_cycle,
            scroll_write_2005_prev_value: self.scroll_write_2005_last_value,
            scroll_write_2005_prev_phase_second: self.scroll_write_2005_last_phase_second,
            scroll_write_2005_last_scanline: scanline,
            scroll_write_2005_last_cycle: cycle,
            scroll_write_2005_last_value: value,
            scroll_write_2005_last_phase_second: second,
            ..self
        }
    }

    /// The counters after a $2006 write of `value` in the given phase.
    pub open spec fn after_addr_write(self, value: u8, second: bool, scanline: i16, cycle: i16) -> Self {
        PpuDebugCounters {
            addr_writes_2006: self.addr_writes_2006.wrapping_add(1),
            addr_write_2006_prev_scanline: self.addr_write_2006_last_scanline,
            addr_write_2006_prev_cycle: self.addr_write_2006_last_cycle,
            addr_write_2006_prev_value: self.addr_write_2006_last_value,
            addr_write_2006_prev_phase_second: self.addr_write_2006_last_phase_second,
            addr_write_2006_last_scanline: scanline,
            addr_write_2006_last_cycle: cycle,
            addr_write_2006_last_value: value,
            addr_write_2006_last_phase_second: second,
            ..self
        }
    }
}

/// A $2002 read: it returns the top three status bits over the open bus, clears
/// the vblank flag and resets the write toggle.
pub open spec fn status_read_post(p0: Ppu, p1: Ppu, r: u8) -> bool {
    &&& r == (p0.regs.status & 0xE0) | (p0.regs.open_bus & 0x1F)
    &&& p1 == Ppu {
        regs: PpuRegisters {
            status: p0.regs.status & !STATUS_VBLANK,
            write_toggle: false,
            open_bus: r,
            ..p0.regs
        },
        timing: status_read_timing(p0.timing),
        debug: p0.debug.after_status_read(p0.regs.status, p0.timing.scanline, p0.timing.cycle),
        ..p0
    }
}

/// A $2007 read. Below the palette it returns the read buffer and refills the
/// buffer from `v`; in the palette it returns the palette byte at once and
/// refills the buffer from the nametable underneath. Either way `v` advances.
pub open spec fn data_read_post(p0: Ppu, p1: Ppu, r: u8, owns: bool, mirroring: Mirroring) -> bool {
    let a = p0.regs.v & 0x3FFF;
    let v1 = data_access_incremented(p0.regs.v, p0.regs.ctrl, p0.regs.mask, p0.timing.scanline);
    &&& p1 == Ppu {
        regs: PpuRegisters { v: v1, read_buffer: p1.regs.read_buffer, open_bus: r, ..p0.regs },
        debug: p1.debug,
        ..p0
    }
    &&& if a >= 0x3F00 {
        let under = (a - 0x1000) as u16 & 0x3FFF;
        &&& r == p0.palette_ram[palette_index_spec(a) as int]
        &&& bus_read_spec(p0.vram@, p0.palette_ram@, under, owns, mirroring) matches Some(b)
            ==> p1.regs.read_buffer == b
        &&& p1.debug == p0.debug.after_bus_read(a).after_bus_read(under)
    } else {
        &&& r == p0.regs.read_buffer
        &&& bus_read_spec(p0.vram@, p0.palette_ram@, a, owns, mirroring) matches Some(b)
            ==> p1.regs.read_buffer == b
        &&& p1.debug == p0.debug.after_bus_read(a)
    }
}

/// A CPU read of PPU register `addr`: $2002 status, $2004 OAM data, $2007
/// data; any other address returns the open bus and changes nothing. The value
/// read becomes the open bus.
pub open spec fn register_read_post(
    p0: Ppu,
    p1: Ppu,
    addr: u16,
    r: u8,
    owns: bool,
    mirroring: Mirroring,
) -> bool {
    if addr == 0x2002 {
        status_read_post(p0, p1, r)
    } else if addr == 0x2004 {
        &&& r == p0.oam[p0.regs.oam_addr as int]
        &&& p1 == Ppu { regs: PpuRegisters { open_bus: r, ..p0.regs }, ..p0 }
    } else if addr == 0x2007 {
        data_read_post(p0, p1, r, owns, mirroring)
    } else {
        r == p0.regs.open_bus && p1 == p0
    }
}

/// A CPU write of `value` to PPU register `addr`. Every write puts `value` on
/// the open bus. $2000 sets PPUCTRL and the nametable bits of `t`; $2001
/// PPUMASK; $2003 the OAM address; $2004 writes OAM and advances the address;
/// $2005 and $2006 fill `t` in two phases, the second $2006 write copying `t`
/// into `v` (or, on a board that asks for relaxed timing, one tick later);
/// $2007 writes the PPU bus at `v` and advances `v`.
pub open spec fn register_write_post(
    p0: Ppu,
    p1: Ppu,
    addr: u16,
    value: u8,
    relaxed: bool,
    owns: bool,
    mirroring: Mirroring,
) -> bool {
    let regs = PpuRegisters { open_bus: value, ..p0.regs };
    let second = p0.regs.write_toggle;
    if addr == 0x2000 {
        p1 == Ppu {
            regs: PpuRegisters {
                ctrl: value,
                t: (p0.regs.t & !0x0C00u16) | (((value as u16) & 0x03) << 10),
                ..regs
            },
            timing: nmi_timing(p0.timing, value, p0.regs.status),
            debug: nmi_debug(p0.debug, p0.timing, value, p0.regs.status),
            ..p0
        }
    } else if addr == 0x2001 {
        p1 == Ppu {
            regs: PpuRegisters {
                mask: value,
                debug_mask_write_count: p0.regs.debug_mask_write_count.wrapping_add(1),
                debug_last_mask_value: value,
                ..regs
            },
            ..p0
        }
    } else if addr == 0x2003 {
        p1 == Ppu { regs: PpuRegisters { oam_addr: value, ..regs }, ..p0 }
    } else if addr == 0x2004 {
        &&& p1.oam@ == p0.oam@.update(p0.regs.oam_addr as int, value)
        &&& p1 == Ppu {
            regs: PpuRegisters { oam_addr: p0.regs.oam_addr.wrapping_add(1), ..regs },
            oam: p1.oam,
            ..p0
        }
    } else if addr == 0x2005 {
        p1 == Ppu {
            regs: PpuRegisters {
                fine_x: if !second {
                    value & 0x07
                } else {
                    p0.regs.fine_x
                },
                t: scroll_write_t(p0.regs.t, value, second),
                write_toggle: !second,
                ..regs
            },
            debug: p0.debug.after_scroll_write(
                value,
                second,
                p0.timing.scanline,
                p0.timing.cycle,
            ),
            ..p0
        }
    } else if addr == 0x2006 {
        let t1 = addr_write_t(p0.regs.t, value, second);
        let regs1 = PpuRegisters { t: t1, write_toggle: !second, ..regs };
        let regs2 = if !second {
            regs1
        } else if relaxed {
            PpuRegisters { ppuaddr_reload_pending: true, ppuaddr_reload_delay: 1, ..regs1 }
        } else {
            PpuRegisters {
                v: t1,
                ppuaddr_reload_pending: false,
                ppuaddr_reload_delay: 0,
                ..regs1
            }
        };
        p1 == Ppu {
            regs: regs2,
            debug: p0.debug.after_addr_write(value, second, p0.timing.scanline, p0.timing.cycle),
            ..p0
        }
    } else if addr == 0x2007 {
        &&& p1 == Ppu {
            regs: PpuRegisters {
                v: data_access_incremented(
                    p0.regs.v,
                    p0.regs.ctrl,
                    p0.regs.mask,
                    p0.timing.scanline,
                ),
                ..regs
            },
            vram: p1.vram,
            palette_ram: p1.palette_ram,
            debug: p0.debug.after_bus_write(p0.regs.v & 0x3FFF),
            ..p0
        }
        &&& bus_write_post(
            p0.vram@,
            p1.vram@,
            p0.palette_ram@,
            p1.palette_ram@,
            p0.regs.v,
            value,
            owns,
            mirroring,
        )
    } else {
        p1 == Ppu { regs, ..p0 }
    }
}

impl Ppu {
    fn read_status_register(&mut self) -> (r: u8)
        ensures
            status_read_post(*old(self), *final(self), r),
    {
        self.debug.status_reads = self.debug.status_reads.wrapping_add(1);
        self.debug.status_read_last_scanline = self.timing.scanline;
        self.debug.status_read_last_cycle = self.timing.cycle;
        if (self.regs.status & STATUS_SPRITE_OVERFLOW) != 0 {
            self.debug.status_overflow_reads = self.debug.status_overflow_reads.wrapping_add(1);
            self.debug.status_overflow_last_scanline = self.timing.scanline;
            self.debug.status_overflow_last_cycle = self.timing.cycle;
        }
        // A read right at the start of vblank cancels this frame's vblank and NMI.
        if self.timing.scanline == 241 && self.timing.cycle == 0 {
            self.timing.vblank_suppress = true;
            self.timing.nmi_delay = 0;
            self.timing.nmi_pending = false;
        }
        let value = (self.regs.status & 0xE0) | (self.regs.open_bus & 0x1F);
        self.regs.status = self.regs.status & !STATUS_VBLANK;
        self.regs.write_toggle = false;
        proof {
            lemma_status_bits(old(self).regs.status, old(self).regs.open_bus);
        }
        self.update_nmi_line();
        self.regs.open_bus = value;
        value
    }

    #[verifier::spinoff_prover]
    fn read_data_register<M: Mapper>(&mut self, mapper: &mut M) -> (r: u8)
        requires
            old(mapper).inv(),
        ensures
            final(mapper).inv(),
            final(mapper).owns_nametables() == old(mapper).owns_nametables(),
            final(mapper).mirroring_view() == old(mapper).mirroring_view(),
            data_read_post(
                *old(self),
                *final(self),
                r,
                old(mapper).owns_nametables(),
                old(mapper).mirroring_view(),
            ),
    {
        let ppu_addr = self.regs.v & 0x3FFF;
        proof {
            lemma_and_idempotent_u16(old(self).regs.v, 0x3FFF);
        }
        let value = self.ppu_read(ppu_addr, mapper);
        let result = if ppu_addr >= 0x3F00 {
            let under: u16 = (ppu_addr - 0x1000) & 0x3FFF;
            proof {
                lemma_and_idempotent_u16((ppu_addr - 0x1000) as u16, 0x3FFF);
            }
            self.regs.read_buffer = self.ppu_read(under, mapper);
            value
        } else {
            let buffered = self.regs.read_buffer;
            self.regs.read_buffer = value;
            buffered
        };
        self.increment_vram_addr_cpu_access();
        self.regs.open_bus = result;
        result
    }

    /// A CPU read of PPU register `addr`.
    pub fn cpu_read_register<M: Mapper>(&mut self, addr: u16, mapper: &mut M) -> (r: u8)
        requires
            old(self).wf(),
            old(mapper).inv(),
        ensures
            final(self).wf(),
            final(mapper).inv(),
            final(mapper).owns_nametables() == old(mapper).owns_nametables(),
            final(mapper).mirroring_view() == old(mapper).mirroring_view(),
            register_read_post(
                *old(self),
                *final(self),
                addr,
                r,
                old(mapper).owns_nametables(),
                old(mapper).mirroring_view(),
            ),
    {
        if addr == 0x2002 {
            self.read_status_register()
        } else if addr == 0x2004 {
            let value = self.oam[self.regs.oam_addr as usize];
            self.regs.open_bus = value;
            value
        } else if addr == 0x2007 {
            self.read_data_register(mapper)
        } else {
            self.regs.open_bus
        }
    }

    /// A CPU write of `value` to PPU register `addr`.
    #[verifier::spinoff_prover]
    pub fn cpu_write_register<M: Mapper>(&mut self, addr: u16, value: u8, mapper: &mut M)
        requires
            old(self).wf(),
            old(mapper).inv(),
        ensures
            final(self).wf(),
            final(mapper).inv(),
            final(mapper).owns_nametables() == old(mapper).owns_nametables(),
            final(mapper).mirroring_view() == old(mapper).mirroring_view(),
            register_write_post(
                *old(self),
                *final(self),
                addr,
                value,
                old(mapper).relaxed_sprite0_view(),
                old(mapper).owns_nametables(),
                old(mapper).mirroring_view(),
            ),
    {
        self.regs.open_bus = value;
        if addr == 0x2000 {
            self.regs.ctrl = value;
            self.regs.t = (self.regs.t & !0x0C00) | (((value as u16) & 0x03) << 10);
            self.update_nmi_line();
        } else if addr == 0x2001 {
            self.regs.mask = value;
            self.regs.debug_mask_write_count = self.regs.debug_mask_write_count.wrapping_add(1);
            self.regs.debug_last_mask_value = value;
        } else if addr == 0x2003 {
            self.regs.oam_addr = value;
        } else if addr == 0x2004 {
            self.oam[self.regs.oam_addr as usize] = value;
            self.regs.oam_addr = self.regs.oam_addr.wrapping_add(1);
        } else if addr == 0x2005 {
            self.write_scroll_register(value);
        } else if addr == 0x2006 {
            let relaxed = mapper.allow_relaxed_sprite0_hit();
            self.write_address_register(value, relaxed);
        } else if addr == 0x2007 {
            let ppu_addr = self.regs.v & 0x3FFF;
            proof {
                lemma_and_idempotent_u16(old(self).regs.v, 0x3FFF);
            }
            self.ppu_write(ppu_addr, value, mapper);
            self.increment_vram_addr_cpu_access();
        }
    }

    fn write_scroll_register(&mut self, value: u8)
        requires
            old(self).wf(),
        ensures
            *final(self) == (Ppu {
                regs: PpuRegisters {
                    fine_x: if !old(self).regs.write_toggle {
                        value & 0x07
                    } else {
                        old(self).regs.fine_x
                    },
                    t: scroll_write_t(old(self).regs.t, value, old(self).regs.write_toggle),
                    write_toggle: !old(self).regs.write_toggle,
                    ..old(self).regs
                },
                debug: old(self).debug.after_scroll_write(
                    value,
                    old(self).regs.write_toggle,
                    old(self).timing.scanline,
                    old(self).timing.cycle,
                ),
                ..*old(self)
            }),
            final(self).wf(),
    {
        let second_phase = self.regs.write_toggle;
        self.debug.scroll_writes_2005 = self.debug.scroll_writes_2005.wrapping_add(1);
        self.debug.scroll_write_2005_prev_scanline = self.debug.scroll_write_2005_last_scanline;
        self.debug.scroll_write_2005_prev_cycle = self.debug.scroll_write_2005_last_cycle;
        self.debug.scroll_write_2005_prev_value = self.debug.scroll_write_2005_last_value;
        self.debug.scroll_write_2005_prev_phase_second =
            self.debug.scroll_write_2005_last_phase_second;
        self.debug.scroll_write_2005_last_scanline = self.timing.scanline;
        self.debug.scroll_write_2005_last_cycle = self.timing.cycle;
        self.debug.scroll_write_2005_last_value = value;
        self.debug.scroll_write_2005_last_phase_second = second_phase;
        if !self.regs.write_toggle {
            self.regs.fine_x = value & 0x07;
            proof {
                lemma_and_u8(value, 0x07);
            }
            self.regs.t = (self.regs.t & !0x001F) | (((value as u16) >> 3) & 0x001F);
        } else {
            self.regs.t = (self.regs.t & !0x03E0) | ((((value as u16) >> 3) & 0x001F) << 5);
            self.regs.t = (self.regs.t & !0x7000) | (((value as u16) & 0x07) << 12);
        }
        self.regs.write_toggle = !self.regs.write_toggle;
    }

    fn write_address_register(&mut self, value: u8, relaxed: bool)
        ensures
            ({
                let second = old(self).regs.write_toggle;
                let t1 = addr_write_t(old(self).regs.t, value, second);
                let regs1 = PpuRegisters { t: t1, write_toggle: !second, ..old(self).regs };
                let regs2 = if !second {
                    regs1
                } else if relaxed {
                    PpuRegisters {
                        ppuaddr_reload_pending: true,
                        ppuaddr_reload_delay: 1,
                        ..regs1
                    }
                } else {
                    PpuRegisters {
                        v: t1,
                        ppuaddr_reload_pending: false,
                        ppuaddr_reload_delay: 0,
                        ..regs1
                    }
                };
                *final(self) == Ppu {
                    regs: regs2,
                    debug: old(self).debug.after_addr_write(
                        value,
                        second,
                        old(self).timing.scanline,
                        old(self).timing.cycle,
                    ),
                    ..*old(self)
                }
            }),
    {
        let second_phase = self.regs.write_toggle;
        self.debug.addr_writes_2006 = self.debug.addr_writes_2006.wrapping_add(1);
        self.debug.addr_write_2006_prev_scanline = self.debug.addr_write_2006_last_scanline;
        self.debug.addr_write_2006_prev_cycle = self.debug.addr_write_2006_last_cycle;
        self.debug.addr_write_2006_prev_value = self.debug.addr_write_2006_last_value;
        self.debug.addr_write_2006_prev_phase_second = self.debug.addr_write_2006_last_phase_second;
        self.debug.addr_write_2006_last_scanline = self.timing.scanline;
        self.debug.addr_write_2006_last_cycle = self.timing.cycle;
        self.debug.addr_write_2006_last_value = value;
        self.debug.addr_write_2006_last_phase_second = second_phase;
        if !self.regs.write_toggle {
            self.regs.t = (self.regs.t & 0x00FF) | (((value as u16) & 0x3F) << 8);
        } else {
            self.regs.t = (self.regs.t & 0x7F00) | (value as u16);
            if relaxed {
                // A board that asks for relaxed timing sees `v` reloaded a tick later.
                self.regs.ppuaddr_reload_pending = true;
                self.regs.ppuaddr_reload_delay = 1;
            } else {
                self.regs.v = self.regs.t;
                self.regs.ppuaddr_reload_pending = false;
                self.regs.ppuaddr_reload_delay = 0;
            }
        }
        self.regs.write_toggle = !self.regs.write_toggle;
    }

    /// Copies 256 bytes into OAM from the current OAM address on, wrapping
    /// round; the OAM address ends where it began.
    pub fn write_oam_dma(&mut self, bytes: &[u8; 256])
        ensures
            forall|i: int|
                0 <= i < 256 ==> #[trigger] final(self).oam[(old(self).regs.oam_addr + i) % 256]
                    == bytes[i],
            *final(self) == (Ppu { oam: final(self).oam, ..*old(self) }),
    {
        let ghost a0 = self.regs.oam_addr as int;
        let mut i: usize = 0;
        while i < 256
            invariant
                0 <= i <= 256,
                self.regs.oam_addr as int == (a0 + i) % 256,
                a0 == old(self).regs.oam_addr,
                *self == (Ppu {
                    oam: self.oam,
                    regs: PpuRegisters { oam_addr: self.regs.oam_addr, ..old(self).regs },
                    ..*old(self)
                }),
                forall|j: int| 0 <= j < i ==> #[trigger] self.oam[(a0 + j) % 256] == bytes[j],
            decreases 256 - i,
        {
            let ghost before = self.oam@;
            self.oam[self.regs.oam_addr as usize] = bytes[i];
            self.regs.oam_addr = self.regs.oam_addr.wrapping_add(1);
            assert forall|j: int| 0 <= j < i + 1 implies #[trigger] self.oam[(a0 + j) % 256]
                == bytes[j] by {
                if j < i {
                    assert((a0 + j) % 256 != (a0 + i) % 256);
                }
            }
            i = i + 1;
        }
        assert(self.regs.oam_addr == old(self).regs.oam_addr);
    }
}


/// The background pixel, palette and opacity at column `x`: bit 15 - fine X
/// of the four shift registers, or nothing where the background is hidden
/// (everywhere, or in the leftmost eight columns).
pub open spec fn background_sample_spec(bg: BackgroundPipeline, mask: u8, fine_x: u8, x: int) -> (
    u8,
    u8,
    bool,
) {
    if (mask & MASK_SHOW_BG) == 0 || (x < 8 && (mask & MASK_SHOW_BG_LEFT) == 0) {
        (0, 0, false)
    } else {
        let bit = 0x8000u16 >> fine_x;
        let p0: u8 = if (bg.bg_shift_pattern_lo & bit) != 0 { 1 } else { 0 };
        let p1: u8 = if (bg.bg_shift_pattern_hi & bit) != 0 { 1 } else { 0 };
        let a0: u8 = if (bg.bg_shift_attr_lo & bit) != 0 { 1 } else { 0 };
        let a1: u8 = if (bg.bg_shift_attr_hi & bit) != 0 { 1 } else { 0 };
        let pixel = (2 * p1 + p0) as u8;
        (pixel, (2 * a1 + a0) as u8, pixel != 0)
    }
}

/// The two-bit pixel that sprite slot `i` outputs now: the top bits of its
/// pattern shift registers.
pub open spec fn sprite_slot_pixel(s: SpriteLine, i: int) -> u8 {
    ((s.sprite_patterns_lo[i] & 0x80) >> 7) | ((s.sprite_patterns_hi[i] & 0x80) >> 6)
}

/// The first sprite slot from `i` on whose counter has run out and whose pixel
/// is opaque: its pixel, palette and behind-background bit.
pub open spec fn sprite_sample_from(s: SpriteLine, i: int) -> (u8, u8, bool)
    decreases 8 - i,
{
    if i < 0 || i >= s.sprite_count || i >= 8 {
        (0, 0, false)
    } else if s.sprite_x[i] != 0 || sprite_slot_pixel(s, i) == 0 {
        sprite_sample_from(s, i + 1)
    } else {
        (sprite_slot_pixel(s, i), s.sprite_attributes[i] & 0x03, (s.sprite_attributes[i] & 0x20) != 0)
    }
}

/// The sprite pixel at column `x`, or nothing where sprites are hidden.
pub open spec fn sprite_sample_spec(s: SpriteLine, mask: u8, x: int) -> (u8, u8, bool) {
    if (mask & MASK_SHOW_SPRITES) == 0 || (x < 8 && (mask & MASK_SHOW_SPRITE_LEFT) == 0) {
        (0, 0, false)
    } else {
        sprite_sample_from(s, 0)
    }
}

/// The pixel of the first active slot from `i` on that holds OAM entry 0.
pub open spec fn sprite0_pixel_from(s: SpriteLine, i: int) -> u8
    decreases 8 - i,
{
    if i < 0 || i >= s.sprite_count || i >= 8 {
        0
    } else if s.sprite_indices[i] != 0 || s.sprite_x[i] != 0 {
        sprite0_pixel_from(s, i + 1)
    } else {
        sprite_slot_pixel(s, i)
    }
}

/// The pixel sprite 0 outputs at column `x`.
pub open spec fn sprite0_pixel_spec(s: SpriteLine, mask: u8, x: int) -> u8 {
    if (mask & MASK_SHOW_SPRITES) == 0 || (x < 8 && (mask & MASK_SHOW_SPRITE_LEFT) == 0) {
        0
    } else {
        sprite0_pixel_from(s, 0)
    }
}

/// The palette entry of a pixel: a sprite in front of the background (or over
/// a transparent one) wins, else the background, else the backdrop.
pub open spec fn composed_palette_index(bg: (u8, u8, bool), spr: (u8, u8, bool)) -> u8 {
    if bg.2 {
        if spr.0 != 0 && !spr.2 {
            0x10 | ((spr.1 << 2) | spr.0)
        } else {
            (bg.1 << 2) | bg.0
        }
    } else if spr.0 != 0 {
        0x10 | ((spr.1 << 2) | spr.0)
    } else {
        0
    }
}

/// The master-palette colour that palette entry `index` holds.
pub open spec fn palette_color_spec(palette: Seq<u8>, index: u8) -> u8 {
    let idx = (index as usize) & 0x1F;
    let idx2 = if idx >= 16 && (idx & 0x03) == 0 {
        (idx - 16) as usize
    } else {
        idx
    };
    palette[idx2 as int] & 0x3F
}

/// The frame after the pixel at (`x`, `y`) is painted in master-palette colour
/// `color`, fully opaque.
pub open spec fn pixel_painted(frame: Seq<u8>, x: int, y: int, color: u8) -> Seq<u8> {
    let base = (y * 256 + x) * 4;
    frame.update(base, NES_PALETTE[color as int][0]).update(
        base + 1,
        NES_PALETTE[color as int][1],
    ).update(base + 2, NES_PALETTE[color as int][2]).update(base + 3, 0xFF)
}

/// The colour of the pixel the PPU outputs at column `x` now.
pub open spec fn output_color(p: Ppu, x: int) -> u8 {
    palette_color_spec(
        p.palette_ram@,
        composed_palette_index(
            background_sample_spec(p.bg, p.regs.mask, p.regs.fine_x, x),
            sprite_sample_spec(p.sprites, p.regs.mask, x),
        ),
    )
}

/// The status register after the pixel at column `x` is drawn: the sprite-0
/// hit flag is raised where sprite 0 is opaque over an opaque background
/// pixel (this one or the one before), never at column 255; a board that asks
/// for it also gets the hit over transparent background on lines 200-239 once
/// the overflow flag is up.
pub open spec fn status_after_pixel(p: Ppu, x: int) -> u8 {
    let bg = background_sample_spec(p.bg, p.regs.mask, p.regs.fine_x, x);
    let relaxed = p.allow_relaxed_sprite0_hit && (p.regs.status & STATUS_SPRITE_OVERFLOW) != 0
        && 200 <= p.timing.scanline <= 239;
    if sprite0_pixel_spec(p.sprites, p.regs.mask, x) != 0 && x < 255 && (bg.2
        || p.sprites.sprite0_prev_bg_opaque || relaxed) {
        p.regs.status | STATUS_SPRITE_ZERO_HIT
    } else {
        p.regs.status
    }
}

impl Ppu {
    fn background_sample(&self, x: usize) -> (r: (u8, u8, bool))
        requires
            self.wf(),
        ensures
            r == background_sample_spec(self.bg, self.regs.mask, self.regs.fine_x, x as int),
    {
        if (self.regs.mask & MASK_SHOW_BG) == 0 {
            return (0, 0, false);
        }
        if x < 8 && (self.regs.mask & MASK_SHOW_BG_LEFT) == 0 {
            return (0, 0, false);
        }
        let bit: u16 = 0x8000u16 >> self.regs.fine_x;
        let p0: u8 = if (self.bg.bg_shift_pattern_lo & bit) != 0 { 1 } else { 0 };
        let p1: u8 = if (self.bg.bg_shift_pattern_hi & bit) != 0 { 1 } else { 0 };
        let a0: u8 = if (self.bg.bg_shift_attr_lo & bit) != 0 { 1 } else { 0 };
        let a1: u8 = if (self.bg.bg_shift_attr_hi & bit) != 0 { 1 } else { 0 };
        let pixel: u8 = 2 * p1 + p0;
        (pixel, 2 * a1 + a0, pixel != 0)
    }

    fn sprite_sample(&self, x: usize) -> (r: (u8, u8, bool))
        requires
            self.wf(),
        ensures
            r == sprite_sample_spec(self.sprites, self.regs.mask, x as int),
    {
        if (self.regs.mask & MASK_SHOW_SPRITES) == 0 {
            return (0, 0, false);
        }
        if x < 8 && (self.regs.mask & MASK_SHOW_SPRITE_LEFT) == 0 {
            return (0, 0, false);
        }
        let s = &self.sprites;
        let mut i: usize = 0;
        while i < s.sprite_count
            invariant
                s.sprite_count <= 8,
                i <= s.sprite_count,
                sprite_sample_from(*s, 0) == sprite_sample_from(*s, i as int),
                *s == self.sprites,
                sprite_sample_spec(self.sprites, self.regs.mask, x as int) == sprite_sample_from(
                    *s,
                    0,
                ),
            decreases s.sprite_count - i,
        {
            if s.sprite_x[i] != 0 {
                i = i + 1;
                continue;
            }
            let p0 = (s.sprite_patterns_lo[i] & 0x80) >> 7;
            let p1 = (s.sprite_patterns_hi[i] & 0x80) >> 6;
            let pixel = p0 | p1;
            if pixel == 0 {
                i = i + 1;
                continue;
            }
            let palette = s.sprite_attributes[i] & 0x03;
            let behind_bg = (s.sprite_attributes[i] & 0x20) != 0;
            assert(pixel == sprite_slot_pixel(*s, i as int));
            return (pixel, palette, behind_bg);
        }
        (0, 0, false)
    }

    fn sprite0_pixel(&self, x: usize) -> (r: u8)
        requires
            self.wf(),
        ensures
            r == sprite0_pixel_spec(self.sprites, self.regs.mask, x as int),
    {
        if (self.regs.mask & MASK_SHOW_SPRITES) == 0 {
            return 0;
        }
        if x < 8 && (self.regs.mask & MASK_SHOW_SPRITE_LEFT) == 0 {
            return 0;
        }
        let s = &self.sprites;
        let mut i: usize = 0;
        while i < s.sprite_count
            invariant
                s.sprite_count <= 8,
                i <= s.sprite_count,
                sprite0_pixel_from(*s, 0) == sprite0_pixel_from(*s, i as int),
                *s == self.sprites,
                sprite0_pixel_spec(self.sprites, self.regs.mask, x as int) == sprite0_pixel_from(
                    *s,
                    0,
                ),
            decreases s.sprite_count - i,
        {
            if s.sprite_indices[i] != 0 || s.sprite_x[i] != 0 {
                i = i + 1;
                continue;
            }
            let p0 = (s.sprite_patterns_lo[i] & 0x80) >> 7;
            let p1 = (s.sprite_patterns_hi[i] & 0x80) >> 6;
            assert(p0 | p1 == sprite_slot_pixel(*s, i as int));
            return p0 | p1;
        }
        0
    }

    /// The master-palette colour of palette entry `palette_index`.
    fn palette_color(&self, palette_index: u8) -> (r: u8)
        ensures
            r == palette_color_spec(self.palette_ram@, palette_index),
            r < 64,
    {
        let mut idx: usize = (palette_index as usize) & 0x1F;
        proof {
            lemma_and_usize(palette_index as usize, 0x1F);
        }
        if idx >= 16 && (idx & 0x03) == 0 {
            idx = idx - 16;
        }
        let entry = self.palette_ram[idx];
        let color = entry & 0x3F;
        proof {
            lemma_and_u8(entry, 0x3F);
        }
        color
    }

    /// Draws the pixel at (`x`, `y`) from the background and sprite pipelines
    /// and raises the sprite-0 hit flag where it applies.
    #[verifier::spinoff_prover]
    #[verifier::rlimit(40)]
    fn render_pixel(&mut self, x: usize, y: usize)
        requires
            old(self).wf(),
            x < 256,
            y < 240,
        ensures
            final(self).frame_buffer@ == pixel_painted(
                old(self).frame_buffer@,
                x as int,
                y as int,
                output_color(*old(self), x as int),
            ),
            final(self).regs == (PpuRegisters {
                status: status_after_pixel(*old(self), x as int),
                ..old(self).regs
            }),
            final(self).sprites == (SpriteLine {
                sprite0_prev_bg_opaque: background_sample_spec(
                    old(self).bg,
                    old(self).regs.mask,
                    old(self).regs.fine_x,
                    x as int,
                ).2,
                ..old(self).sprites
            }),
            *final(self) == (Ppu {
                frame_buffer: final(self).frame_buffer,
                regs: final(self).regs,
                sprites: final(self).sprites,
                debug: final(self).debug,
                ..*old(self)
            }),
    {
        let (bg_pixel, bg_palette, bg_opaque) = self.background_sample(x);
        let (spr_pixel, spr_palette, spr_behind_bg) = self.sprite_sample(x);
        let sprite0_pixel = self.sprite0_pixel(x);
        if sprite0_pixel != 0 && x < 255 {
            self.debug.sprite0_nonzero_events = self.debug.sprite0_nonzero_events.wrapping_add(1);
            self.debug.sprite0_nonzero_last_scanline = self.timing.scanline;
            self.debug.sprite0_nonzero_last_cycle = self.timing.cycle;
            self.debug.sprite0_nonzero_last_bg_pixel = bg_pixel;
            self.debug.sprite0_nonzero_last_bg_opaque = bg_opaque;
            let relaxed_overlap = self.allow_relaxed_sprite0_hit && (self.regs.status
                & STATUS_SPRITE_OVERFLOW) != 0 && 200 <= self.timing.scanline
                && self.timing.scanline <= 239;
            if bg_opaque || self.sprites.sprite0_prev_bg_opaque || relaxed_overlap {
                if (self.regs.status & STATUS_SPRITE_ZERO_HIT) == 0 {
                    self.debug.sprite0_hit_events = self.debug.sprite0_hit_events.wrapping_add(1);
                    self.debug.sprite0_hit_last_scanline = self.timing.scanline;
                    self.debug.sprite0_hit_last_cycle = self.timing.cycle;
                }
                self.regs.status = self.regs.status | STATUS_SPRITE_ZERO_HIT;
            }
        }
        self.sprites.sprite0_prev_bg_opaque = bg_opaque;
        let palette_index: u8 = if bg_opaque {
            if spr_pixel != 0 && !spr_behind_bg {
                0x10 | ((spr_palette << 2) | spr_pixel)
            } else {
                (bg_palette << 2) | bg_pixel
            }
        } else if spr_pixel != 0 {
            0x10 | ((spr_palette << 2) | spr_pixel)
        } else {
            0
        };
        let color = self.palette_color(palette_index);
        let pixel: usize = (y * 256 + x) * 4;
        self.frame_buffer[pixel] = NES_PALETTE[color as usize][0];
        self.frame_buffer[pixel + 1] = NES_PALETTE[color as usize][1];
        self.frame_buffer[pixel + 2] = NES_PALETTE[color as usize][2];
        self.frame_buffer[pixel + 3] = 0xFF;
    }
}


/// Sprite height in rows that PPUCTRL selects.
pub open spec fn sprite_height_spec(ctrl: u8) -> int {
    if (ctrl & CTRL_SPRITE_SIZE_16) != 0 {
        16
    } else {
        8
    }
}

/// Whether a sprite whose Y byte is `y` covers `scanline` (a sprite is drawn
/// from the line after its Y byte on).
pub open spec fn y_on_line(y: u8, scanline: int, height: int) -> bool {
    let row = scanline - (y + 1);
    0 <= row < height
}

/// Whether OAM entry `i` covers `scanline`.
pub open spec fn sprite_on_line(oam: Seq<u8>, i: int, scanline: int, height: int) -> bool {
    y_on_line(oam[4 * i], scanline, height)
}

/// How many of the first `n` OAM entries cover `scanline`.
pub open spec fn entries_on_line(oam: Seq<u8>, n: int, scanline: int, height: int) -> int
    decreases n,
{
    if n <= 0 {
        0
    } else {
        entries_on_line(oam, n - 1, scanline, height) + if sprite_on_line(
            oam,
            n - 1,
            scanline,
            height,
        ) {
            1int
        } else {
            0int
        }
    }
}

pub proof fn lemma_entries_on_line_monotonic(oam: Seq<u8>, a: int, b: int, scanline: int, height: int)
    requires
        0 <= a <= b,
    ensures
        entries_on_line(oam, a, scanline, height) <= entries_on_line(oam, b, scanline, height),
    decreases b - a,
{
    if a < b {
        lemma_entries_on_line_monotonic(oam, a, b - 1, scanline, height);
    }
}

/// The sprites chosen for `scanline`: the first eight OAM entries that cover
/// it, in OAM order, each slot holding the entry's X, attributes and OAM
/// index; the slots past them are all zero.
pub open spec fn sprites_selected(oam: Seq<u8>, ctrl: u8, scanline: int, s: SpriteLine) -> bool {
    let h = sprite_height_spec(ctrl);
    let total = entries_on_line(oam, 64, scanline, h);
    &&& s.sprite_count == if total < 8 {
        total
    } else {
        8
    }
    &&& forall|k: int|
        0 <= k < s.sprite_count ==> {
            let i = #[trigger] s.sprite_indices[k] as int;
            &&& i < 64
            &&& sprite_on_line(oam, i, scanline, h)
            &&& entries_on_line(oam, i, scanline, h) == k
            &&& s.sprite_x[k] == oam[4 * i + 3]
            &&& s.sprite_attributes[k] == oam[4 * i + 2]
        }
    &&& forall|k: int| s.sprite_count <= k < 8 ==> #[trigger] slot_cleared(s, k)
}

/// Sprite slot `k` holds nothing.
pub open spec fn slot_cleared(s: SpriteLine, k: int) -> bool {
    &&& s.sprite_indices[k] == 0
    &&& s.sprite_x[k] == 0
    &&& s.sprite_attributes[k] == 0
    &&& s.sprite_patterns_lo[k] == 0
    &&& s.sprite_patterns_hi[k] == 0
}

/// Pattern-table address of row `row` (0 = top, before any flip) of a sprite
/// with tile byte `tile` and attributes `attributes`: 8x16 sprites take the
/// table from bit 0 of the tile byte and use an even/odd tile pair, 8x8
/// sprites take the table from PPUCTRL; bit 7 of the attributes flips the
/// sprite vertically.
pub open spec fn sprite_pattern_addr_spec(tile: u8, attributes: u8, row: int, tall: bool, ctrl: u8) -> int {
    let height: int = if tall {
        16
    } else {
        8
    };
    let r = if (attributes & 0x80) != 0 {
        height - 1 - row
    } else {
        row
    };
    if tall {
        (tile & 0x01) * 0x1000 + ((tile & 0xFE) + r / 8) * 16 + r % 8
    } else {
        (if (ctrl & CTRL_SPRITE_TABLE) != 0 {
            0x1000int
        } else {
            0
        }) + tile * 16 + r % 8
    }
}

/// A byte with its bits in reverse order.
pub open spec fn is_reversed_byte(b: u8, r: u8) -> bool {
    forall|i: u8| i < 8 ==> #[trigger] ((r >> i) & 1) == (b >> ((7 - i) as u8)) & 1
}

/// The byte `b` mirrored bit for bit, for sprites flipped horizontally.
pub fn reverse_byte(b: u8) -> (r: u8)
    ensures
        is_reversed_byte(b, r),
{
    let r: u8 = ((b & 0x01) << 7) | ((b & 0x02) << 5) | ((b & 0x04) << 3) | ((b & 0x08) << 1) | ((
    b & 0x10) >> 1) | ((b & 0x20) >> 3) | ((b & 0x40) >> 5) | ((b & 0x80) >> 7);
    assert(forall|i: u8| i < 8 ==> #[trigger] ((r >> i) & 1) == (b >> ((7 - i) as u8)) & 1)
        by (bit_vector)
        requires
            r == ((b & 0x01) << 7) | ((b & 0x02) << 5) | ((b & 0x04) << 3) | ((b & 0x08) << 1) | ((
            b & 0x10) >> 1) | ((b & 0x20) >> 3) | ((b & 0x40) >> 5) | ((b & 0x80) >> 7),
    ;
    r
}

/// Pattern-table address of a sprite row; see `sprite_pattern_addr_spec`.
fn sprite_pattern_address(tile: u8, attributes: u8, row: u16, tall: bool, ctrl: u8) -> (r: u16)
    requires
        row < (if tall {
            16u16
        } else {
            8u16
        }),
    ensures
        r as int == sprite_pattern_addr_spec(tile, attributes, row as int, tall, ctrl),
        r <= 0x1FF7,
{
    let height: u16 = if tall {
        16
    } else {
        8
    };
    let mut sprite_row = row;
    if (attributes & 0x80) != 0 {
        sprite_row = (height - 1) - sprite_row;
    }
    proof {
        lemma_and_u8(tile, 0x01);
        lemma_and_u8(tile, 0xFE);
    }
    if tall {
        let table: u16 = ((tile & 0x01) as u16) * 0x1000;
        let t: u16 = ((tile & 0xFE) as u16) + (sprite_row / 8);
        table + t * 16 + (sprite_row % 8)
    } else {
        let table: u16 = if (ctrl & CTRL_SPRITE_TABLE) != 0 {
            0x1000
        } else {
            0x0000
        };
        table + (tile as u16) * 16 + (sprite_row % 8)
    }
}

impl Ppu {
    /// A pattern fetch of sprite evaluation: boards that time their IRQ from
    /// the scanline get the byte without the A12 notification.
    fn sprite_eval_pattern_read<M: Mapper>(&mut self, addr: u16, mapper: &mut M) -> (r: u8)
        requires
            old(mapper).inv(),
        ensures
            final(mapper).inv(),
            final(mapper).owns_nametables() == old(mapper).owns_nametables(),
            final(mapper).mirroring_view() == old(mapper).mirroring_view(),
            *final(self) == (Ppu { debug: final(self).debug, ..*old(self) }),
    {
        if mapper.suppress_a12_on_sprite_eval_reads() {
            let mapped = addr & 0x1FFF;
            self.debug.last_read_addr = mapped;
            self.debug.pattern_reads = self.debug.pattern_reads.wrapping_add(1);
            mapper.ppu_read(mapped)
        } else {
            self.ppu_read(addr, mapper)
        }
    }

    /// Chooses the sprites of `scanline` and fetches their pattern rows.
    #[verifier::spinoff_prover]
    fn evaluate_sprites<M: Mapper>(&mut self, scanline: usize, mapper: &mut M)
        requires
            old(self).wf(),
            old(mapper).inv(),
            scanline < 240,
        ensures
            final(self).wf(),
            final(mapper).inv(),
            final(mapper).owns_nametables() == old(mapper).owns_nametables(),
            final(mapper).mirroring_view() == old(mapper).mirroring_view(),
            sprites_selected(old(self).oam@, old(self).regs.ctrl, scanline as int, final(self).sprites),
            final(self).sprites.sprite0_prev_bg_opaque == old(self).sprites.sprite0_prev_bg_opaque,
            *final(self) == (Ppu { sprites: final(self).sprites, debug: final(self).debug, ..*old(self) }),
    {
        let ghost p0 = *self;
        let ghost oam = self.oam@;
        self.sprites.sprite_count = 0;
        let tall = (self.regs.ctrl & CTRL_SPRITE_SIZE_16) != 0;
        let height: i16 = if tall {
            16
        } else {
            8
        };
        let ghost h = sprite_height_spec(p0.regs.ctrl);
        let mut i: usize = 0;
        let mut full = false;
        while i < 64 && !full
            invariant
                0 <= i <= 64,
                scanline < 240,
                oam == p0.oam@,
                h == height as int,
                h == sprite_height_spec(p0.regs.ctrl),
                tall == ((p0.regs.ctrl & CTRL_SPRITE_SIZE_16) != 0),
                mapper.inv(),
                mapper.owns_nametables() == old(mapper).owns_nametables(),
                mapper.mirroring_view() == old(mapper).mirroring_view(),
                *self == (Ppu { sprites: self.sprites, debug: self.debug, ..p0 }),
                self.sprites.sprite0_prev_bg_opaque == p0.sprites.sprite0_prev_bg_opaque,
                self.sprites.sprite_count <= 8,
                !full ==> self.sprites.sprite_count == entries_on_line(oam, i as int, scanline as int, h),
                full ==> self.sprites.sprite_count == 8 && entries_on_line(oam, i as int, scanline as int, h) > 8,
                forall|k: int|
                    0 <= k < self.sprites.sprite_count ==> {
                        let e = #[trigger] self.sprites.sprite_indices[k] as int;
                        &&& e < i
                        &&& sprite_on_line(oam, e, scanline as int, h)
                        &&& entries_on_line(oam, e, scanline as int, h) == k
                        &&& self.sprites.sprite_x[k] == oam[4 * e + 3]
                        &&& self.sprites.sprite_attributes[k] == oam[4 * e + 2]
                    },
            decreases 64 - i,
        {
            let base = i * 4;
            let y: i16 = self.oam[base] as i16 + 1;
            let row: i16 = scanline as i16 - y;
            if row < 0 || row >= height {
                i = i + 1;
                continue;
            }
            if self.sprites.sprite_count >= 8 {
                full = true;
                i = i + 1;
                continue;
            }
            let tile_index = self.oam[base + 1];
            let attributes = self.oam[base + 2];
            let x = self.oam[base + 3];
            let addr = sprite_pattern_address(tile_index, attributes, row as u16, tall, self.regs.ctrl);
            let mut low = self.sprite_eval_pattern_read(addr, mapper);
            let mut high = self.sprite_eval_pattern_read(addr + 8, mapper);
            if (attributes & 0x40) != 0 {
                low = reverse_byte(low);
                high = reverse_byte(high);
            }
            let idx = self.sprites.sprite_count;
            self.sprites.sprite_patterns_lo[idx] = low;
            self.sprites.sprite_patterns_hi[idx] = high;
            self.sprites.sprite_x[idx] = x;
            self.sprites.sprite_attributes[idx] = attributes;
            self.sprites.sprite_indices[idx] = i as u8;
            self.sprites.sprite_count = idx + 1;
            i = i + 1;
        }
        proof {
            lemma_entries_on_line_monotonic(oam, i as int, 64, scanline as int, h);
        }
        let count = self.sprites.sprite_count;
        let mut j: usize = count;
        while j < 8
            invariant
                count <= j <= 8,
                count == self.sprites.sprite_count,
                count <= 8,
                *self == (Ppu { sprites: self.sprites, debug: self.debug, ..p0 }),
                self.sprites.sprite0_prev_bg_opaque == p0.sprites.sprite0_prev_bg_opaque,
                forall|k: int|
                    0 <= k < count ==> {
                        let e = #[trigger] self.sprites.sprite_indices[k] as int;
                        &&& e < 64
                        &&& sprite_on_line(oam, e, scanline as int, h)
                        &&& entries_on_line(oam, e, scanline as int, h) == k
                        &&& self.sprites.sprite_x[k] == oam[4 * e + 3]
                        &&& self.sprites.sprite_attributes[k] == oam[4 * e + 2]
                    },
                forall|k: int| count <= k < j ==> #[trigger] slot_cleared(self.sprites, k),
            decreases 8 - j,
        {
            let ghost before = self.sprites;
            self.sprites.sprite_patterns_lo[j] = 0;
            self.sprites.sprite_patterns_hi[j] = 0;
            self.sprites.sprite_x[j] = 0;
            self.sprites.sprite_attributes[j] = 0;
            self.sprites.sprite_indices[j] = 0;
            assert forall|k: int| count <= k < j + 1 implies #[trigger] slot_cleared(self.sprites, k) by {
                if k < j {
                    assert(slot_cleared(before, k));
                }
            }
            j = j + 1;
        }
        assert(self.sprites.sprite_count == if entries_on_line(oam, 64, scanline as int, h) < 8 {
            entries_on_line(oam, 64, scanline as int, h)
        } else {
            8
        });
    }
}


/// The pipeline after the next tile's pattern bytes and attribute bits are
/// loaded into the low halves of the shift registers.
pub open spec fn shifters_loaded(bg: BackgroundPipeline) -> BackgroundPipeline {
    BackgroundPipeline {
        bg_shift_pattern_lo: (bg.bg_shift_pattern_lo & 0xFF00) | (bg.next_tile_lsb as u16),
        bg_shift_pattern_hi: (bg.bg_shift_pattern_hi & 0xFF00) | (bg.next_tile_msb as u16),
        bg_shift_attr_lo: (bg.bg_shift_attr_lo & 0xFF00) | (if (bg.next_tile_attr & 0x01) != 0 {
            0xFFu16
        } else {
            0
        }),
        bg_shift_attr_hi: (bg.bg_shift_attr_hi & 0xFF00) | (if (bg.next_tile_attr & 0x02) != 0 {
            0xFFu16
        } else {
            0
        }),
        ..bg
    }
}

/// The sprite slots after one pixel: a slot still waiting for its column
/// counts down, a slot already drawing shifts its pattern out by one bit.
pub open spec fn sprites_shifted(s0: SpriteLine, s1: SpriteLine) -> bool {
    &&& s1.sprite_count == s0.sprite_count
    &&& s1.sprite_attributes == s0.sprite_attributes
    &&& s1.sprite_indices == s0.sprite_indices
    &&& s1.sprite0_prev_bg_opaque == s0.sprite0_prev_bg_opaque
    &&& forall|i: int| 0 <= i < 8 ==> #[trigger] slot_shifted(s0, s1, i, s0.sprite_count as int)
}

/// Slot `i` after one pixel, where the slots below `upto` are in use.
pub open spec fn slot_shifted(s0: SpriteLine, s1: SpriteLine, i: int, upto: int) -> bool {
    let active = i < upto;
    &&& s1.sprite_x[i] == (if active && s0.sprite_x[i] > 0 {
        (s0.sprite_x[i] - 1) as u8
    } else {
        s0.sprite_x[i]
    })
    &&& s1.sprite_patterns_lo[i] == (if active && s0.sprite_x[i] == 0 {
        s0.sprite_patterns_lo[i] << 1
    } else {
        s0.sprite_patterns_lo[i]
    })
    &&& s1.sprite_patterns_hi[i] == (if active && s0.sprite_x[i] == 0 {
        s0.sprite_patterns_hi[i] << 1
    } else {
        s0.sprite_patterns_hi[i]
    })
}

/// `v` after the scroll updates of one rendering cycle: coarse X steps after
/// every eighth fetch cycle, Y steps at cycle 256, the horizontal bits come
/// from `t` at cycle 257 and, on the pre-render line, the vertical bits at
/// cycles 280-304.
pub open spec fn rendering_v(v: u16, t: u16, cycle: i16, pre_render: bool) -> u16 {
    let fetch = (1 <= cycle <= 256) || (321 <= cycle <= 336);
    let v1 = if fetch && (cycle - 1) % 8 == 7 {
        coarse_x_incremented(v)
    } else {
        v
    };
    let v2 = if cycle == 256 {
        y_incremented(v1)
    } else {
        v1
    };
    let v3 = if cycle == 257 {
        horizontal_copied(v2, t)
    } else {
        v2
    };
    if pre_render && 280 <= cycle <= 304 {
        vertical_copied(v3, t)
    } else {
        v3
    }
}

/// The overflow scan reset at cycle 65; it runs only on a visible line with
/// rendering on, and looks for sprites of the next line.
pub open spec fn overflow_begin(e: SpriteEval, scanline: i16, rendering: bool) -> SpriteEval {
    let c = SpriteEval {
        sprite_eval_active: false,
        sprite_eval_n: 0,
        sprite_eval_m: 0,
        sprite_eval_found: 0,
        sprite_eval_copy_remaining: 0,
        sprite_eval_bug_mode: false,
        ..e
    };
    if rendering && 0 <= scanline <= 239 {
        SpriteEval {
            sprite_eval_target_scanline: (scanline + 1) as i16,
            sprite_eval_active: true,
            ..c
        }
    } else {
        c
    }
}

/// One cycle of the overflow scan at `cycle` (65-256), and whether the sprite
/// overflow flag goes up. The scan acts on odd cycles: it steps through OAM,
/// copying in-range sprites (four bytes, three more cycles) until eight are
/// found; after that it keeps looking for a ninth but, as the hardware does,
/// advances the byte index together with the sprite index, so that tile,
/// attribute and X bytes are taken for Y.
pub open spec fn overflow_clock(e: SpriteEval, oam: Seq<u8>, ctrl: u8, cycle: i16, rendering: bool) -> (
    SpriteEval,
    bool,
) {
    let n = e.sprite_eval_n;
    let m = e.sprite_eval_m;
    if !e.sprite_eval_active {
        (e, false)
    } else if !rendering {
        (SpriteEval { sprite_eval_active: false, ..e }, false)
    } else if (cycle - 65) % 2 != 0 {
        (e, false)
    } else if n >= 64 {
        (SpriteEval { sprite_eval_active: false, ..e }, false)
    } else if e.sprite_eval_copy_remaining > 0 {
        let c = (e.sprite_eval_copy_remaining - 1) as u8;
        (
            SpriteEval {
                sprite_eval_copy_remaining: c,
                sprite_eval_n: if c == 0 {
                    (n + 1) as u8
                } else {
                    n
                },
                ..e
            },
            false,
        )
    } else {
        let in_range = y_on_line(
            oam[n * 4 + m],
            e.sprite_eval_target_scanline as int,
            sprite_height_spec(ctrl),
        );
        if !e.sprite_eval_bug_mode {
            if in_range {
                if e.sprite_eval_found < 8 {
                    (
                        SpriteEval {
                            sprite_eval_found: (e.sprite_eval_found + 1) as u8,
                            sprite_eval_copy_remaining: 3,
                            sprite_eval_m: 0,
                            ..e
                        },
                        false,
                    )
                } else {
                    (SpriteEval { sprite_eval_active: false, ..e }, true)
                }
            } else if e.sprite_eval_found < 8 {
                (SpriteEval { sprite_eval_n: (n + 1) as u8, sprite_eval_m: 0, ..e }, false)
            } else {
                (
                    SpriteEval {
                        sprite_eval_bug_mode: true,
                        sprite_eval_m: 1,
                        sprite_eval_n: (n + 1) as u8,
                        sprite_eval_active: n + 1 < 64,
                        ..e
                    },
                    false,
                )
            }
        } else if in_range {
            (SpriteEval { sprite_eval_active: false, ..e }, true)
        } else {
            (
                SpriteEval {
                    sprite_eval_n: (n + 1) as u8,
                    sprite_eval_m: ((m + 1) % 4) as u8,
                    sprite_eval_active: n + 1 < 64,
                    ..e
                },
                false,
            )
        }
    }
}

impl Ppu {
    fn shift_background_registers(&mut self)
        ensures
            *final(self) == (Ppu {
                bg: BackgroundPipeline {
                    bg_shift_pattern_lo: old(self).bg.bg_shift_pattern_lo << 1,
                    bg_shift_pattern_hi: old(self).bg.bg_shift_pattern_hi << 1,
                    bg_shift_attr_lo: old(self).bg.bg_shift_attr_lo << 1,
                    bg_shift_attr_hi: old(self).bg.bg_shift_attr_hi << 1,
                    ..old(self).bg
                },
                ..*old(self)
            }),
    {
        self.bg.bg_shift_pattern_lo = self.bg.bg_shift_pattern_lo << 1;
        self.bg.bg_shift_pattern_hi = self.bg.bg_shift_pattern_hi << 1;
        self.bg.bg_shift_attr_lo = self.bg.bg_shift_attr_lo << 1;
        self.bg.bg_shift_attr_hi = self.bg.bg_shift_attr_hi << 1;
    }

    fn load_background_shifters(&mut self)
        ensures
            *final(self) == (Ppu { bg: shifters_loaded(old(self).bg), ..*old(self) }),
    {
        self.bg.bg_shift_pattern_lo = (self.bg.bg_shift_pattern_lo & 0xFF00)
            | self.bg.next_tile_lsb as u16;
        self.bg.bg_shift_pattern_hi = (self.bg.bg_shift_pattern_hi & 0xFF00)
            | self.bg.next_tile_msb as u16;
        let attr_lo: u16 = if (self.bg.next_tile_attr & 0x01) != 0 {
            0xFF
        } else {
            0x00
        };
        let attr_hi: u16 = if (self.bg.next_tile_attr & 0x02) != 0 {
            0xFF
        } else {
            0x00
        };
        self.bg.bg_shift_attr_lo = (self.bg.bg_shift_attr_lo & 0xFF00) | attr_lo;
        self.bg.bg_shift_attr_hi = (self.bg.bg_shift_attr_hi & 0xFF00) | attr_hi;
    }

    fn shift_sprite_registers(&mut self)
        requires
            old(self).wf(),
        ensures
            sprites_shifted(old(self).sprites, final(self).sprites),
            *final(self) == (Ppu { sprites: final(self).sprites, ..*old(self) }),
    {
        let ghost s0 = self.sprites;
        let count = self.sprites.sprite_count;
        let mut i: usize = 0;
        while i < count
            invariant
                count == s0.sprite_count,
                count <= 8,
                i <= count,
                *self == (Ppu { sprites: self.sprites, ..*old(self) }),
                s0 == old(self).sprites,
                self.sprites.sprite_count == s0.sprite_count,
                self.sprites.sprite_attributes == s0.sprite_attributes,
                self.sprites.sprite_indices == s0.sprite_indices,
                self.sprites.sprite0_prev_bg_opaque == s0.sprite0_prev_bg_opaque,
                forall|j: int| 0 <= j < 8 ==> #[trigger] slot_shifted(s0, self.sprites, j, i as int),
            decreases count - i,
        {
            let ghost before = self.sprites;
            if self.sprites.sprite_x[i] > 0 {
                self.sprites.sprite_x[i] = self.sprites.sprite_x[i] - 1;
            } else {
                self.sprites.sprite_patterns_lo[i] = self.sprites.sprite_patterns_lo[i] << 1;
                self.sprites.sprite_patterns_hi[i] = self.sprites.sprite_patterns_hi[i] << 1;
            }
            assert forall|j: int| 0 <= j < 8 implies #[trigger] slot_shifted(
                s0,
                self.sprites,
                j,
                i + 1,
            ) by {
                assert(slot_shifted(s0, before, j, i as int));
            }
            i = i + 1;
        }
    }

    fn begin_sprite_overflow_evaluation(&mut self, rendering: bool)
        requires
            old(self).wf(),
        ensures
            final(self).wf(),
            *final(self) == (Ppu {
                eval: overflow_begin(old(self).eval, old(self).timing.scanline, rendering),
                ..*old(self)
            }),
    {
        self.eval.sprite_eval_active = false;
        self.eval.sprite_eval_n = 0;
        self.eval.sprite_eval_m = 0;
        self.eval.sprite_eval_found = 0;
        self.eval.sprite_eval_copy_remaining = 0;
        self.eval.sprite_eval_bug_mode = false;
        if !rendering {
            return;
        }
        if !(0 <= self.timing.scanline && self.timing.scanline <= 239) {
            return;
        }
        self.eval.sprite_eval_target_scanline = self.timing.scanline + 1;
        self.eval.sprite_eval_active = true;
    }

    fn set_sprite_overflow_flag(&mut self)
        ensures
            *final(self) == (Ppu {
                regs: PpuRegisters {
                    status: old(self).regs.status | STATUS_SPRITE_OVERFLOW,
                    ..old(self).regs
                },
                debug: final(self).debug,
                ..*old(self)
            }),
    {
        if (self.regs.status & STATUS_SPRITE_OVERFLOW) == 0 {
            self.debug.sprite_overflow_events = self.debug.sprite_overflow_events.wrapping_add(1);
            self.debug.sprite_overflow_last_scanline = self.timing.scanline;
            self.debug.sprite_overflow_last_cycle = self.timing.cycle;
        }
        self.regs.status = self.regs.status | STATUS_SPRITE_OVERFLOW;
    }

    /// Whether a Y byte puts a sprite of `height` rows on `scanline`.
    fn sprite_match_scanline(byte: u8, scanline: i16, sprite_height: i16) -> (r: bool)
        requires
            -1 <= scanline <= 262,
        ensures
            r == y_on_line(byte, scanline as int, sprite_height as int),
    {
        let row: i16 = scanline - (byte as i16 + 1);
        row >= 0 && row < sprite_height
    }

    /// One cycle (65-256) of the sprite overflow scan.
    #[verifier::spinoff_prover]
    fn clock_sprite_overflow_evaluation(&mut self, rendering: bool)
        requires
            old(self).wf(),
            65 <= old(self).timing.cycle <= 256,
        ensures
            final(self).wf(),
            ({
                let (e1, raised) = overflow_clock(
                    old(self).eval,
                    old(self).oam@,
                    old(self).regs.ctrl,
                    old(self).timing.cycle,
                    rendering,
                );
                &&& final(self).eval == e1
                &&& *final(self) == Ppu {
                    eval: e1,
                    regs: PpuRegisters {
                        status: if raised {
                            old(self).regs.status | STATUS_SPRITE_OVERFLOW
                        } else {
                            old(self).regs.status
                        },
                        ..old(self).regs
                    },
                    debug: final(self).debug,
                    ..*old(self)
                }
            }),
    {
        if !self.eval.sprite_eval_active {
            return;
        }
        if !rendering {
            self.eval.sprite_eval_active = false;
            return;
        }
        if (self.timing.cycle - 65) % 2 != 0 {
            return;
        }
        if self.eval.sprite_eval_n >= 64 {
            self.eval.sprite_eval_active = false;
            return;
        }
        if self.eval.sprite_eval_copy_remaining > 0 {
            self.eval.sprite_eval_copy_remaining = self.eval.sprite_eval_copy_remaining - 1;
            if self.eval.sprite_eval_copy_remaining == 0 {
                self.eval.sprite_eval_n = self.eval.sprite_eval_n + 1;
            }
            return;
        }
        let n = self.eval.sprite_eval_n as usize;
        let m = self.eval.sprite_eval_m as usize;
        let byte = self.oam[n * 4 + m];
        let sprite_height: i16 = if (self.regs.ctrl & CTRL_SPRITE_SIZE_16) != 0 {
            16
        } else {
            8
        };
        let in_range = Self::sprite_match_scanline(
            byte,
            self.eval.sprite_eval_target_scanline,
            sprite_height,
        );
        if !self.eval.sprite_eval_bug_mode {
            if in_range {
                if self.eval.sprite_eval_found < 8 {
                    self.eval.sprite_eval_found = self.eval.sprite_eval_found + 1;
                    self.eval.sprite_eval_copy_remaining = 3;
                    self.eval.sprite_eval_m = 0;
                    return;
                }
                self.set_sprite_overflow_flag();
                self.eval.sprite_eval_active = false;
                return;
            }
            if self.eval.sprite_eval_found < 8 {
                self.eval.sprite_eval_n = self.eval.sprite_eval_n + 1;
                self.eval.sprite_eval_m = 0;
                return;
            }
            // Past eight sprites the hardware steps the byte index along with
            // the sprite index, reading tile, attribute and X bytes as Y.
            self.eval.sprite_eval_bug_mode = true;
            self.eval.sprite_eval_m = 1;
            self.eval.sprite_eval_n = self.eval.sprite_eval_n + 1;
            if self.eval.sprite_eval_n >= 64 {
                self.eval.sprite_eval_active = false;
            }
            return;
        }
        if in_range {
            self.set_sprite_overflow_flag();
            self.eval.sprite_eval_active = false;
            return;
        }
        self.eval.sprite_eval_n = self.eval.sprite_eval_n + 1;
        self.eval.sprite_eval_m = (self.eval.sprite_eval_m + 1) % 4;
        if self.eval.sprite_eval_n >= 64 {
            self.eval.sprite_eval_active = false;
        }
    }
}


/// The NMI delay counted down by one tick; when it runs out with the NMI
/// output still high, the NMI becomes pending.
pub open spec fn nmi_delay_stage(t: PpuTiming) -> PpuTiming {
    if t.nmi_delay > 0 {
        let d = (t.nmi_delay - 1) as u8;
        PpuTiming { nmi_delay: d, nmi_pending: t.nmi_pending || (d == 0 && t.nmi_line), ..t }
    } else {
        t
    }
}

/// A pending `t` to `v` copy counted down by one tick, done when its delay
/// runs out.
pub open spec fn reload_stage(r: PpuRegisters) -> PpuRegisters {
    if r.ppuaddr_reload_pending {
        let d = if r.ppuaddr_reload_delay > 0 {
            (r.ppuaddr_reload_delay - 1) as u8
        } else {
            0u8
        };
        if d == 0 {
            PpuRegisters {
                ppuaddr_reload_delay: 0,
                v: r.t,
                ppuaddr_reload_pending: false,
                ..r
            }
        } else {
            PpuRegisters { ppuaddr_reload_delay: d, ..r }
        }
    } else {
        r
    }
}

/// The vblank bookkeeping of one tick: at dot 1 of the pre-render line the
/// vblank, sprite-0 hit and overflow flags clear and the frame is under way;
/// at dot 1 of line 241 the frame is complete and the vblank flag rises,
/// unless a $2002 read just cancelled it. The NMI output follows.
pub open spec fn frame_flags_post(p0: Ppu, p1: Ppu) -> bool {
    let sl = p0.timing.scanline;
    let cy = p0.timing.cycle;
    let ctrl = p0.regs.ctrl;
    if sl == 261 && cy == 1 {
        let status = p0.regs.status & !(STATUS_VBLANK | STATUS_SPRITE_ZERO_HIT
            | STATUS_SPRITE_OVERFLOW);
        let t1 = PpuTiming { frame_complete: false, vblank_suppress: false, ..p0.timing };
        p1 == Ppu {
            regs: PpuRegisters { status, ..p0.regs },
            timing: nmi_timing(t1, ctrl, status),
            debug: p1.debug,
            ..p0
        }
    } else if sl == 241 && cy == 1 {
        let status = if !p0.timing.vblank_suppress {
            p0.regs.status | STATUS_VBLANK
        } else {
            p0.regs.status
        };
        let t1 = PpuTiming { frame_complete: true, vblank_suppress: false, ..p0.timing };
        p1 == Ppu {
            regs: PpuRegisters { status, ..p0.regs },
            timing: nmi_timing(t1, ctrl, status),
            debug: p1.debug,
            ..p0
        }
    } else {
        p1 == Ppu { debug: p1.debug, ..p0 }
    }
}

/// The beam one dot on: 341 dots a line, 262 lines a frame; with rendering on,
/// the pre-render line of an odd frame skips its last dot.
pub open spec fn next_position(t: PpuTiming, rendering: bool) -> PpuTiming {
    if t.scanline == 261 && rendering && t.odd_frame && t.cycle == 339 {
        PpuTiming { cycle: 0, scanline: 0, odd_frame: false, ..t }
    } else if t.cycle + 1 > 340 {
        if t.scanline + 1 > 261 {
            PpuTiming { cycle: 0, scanline: 0, odd_frame: !t.odd_frame, ..t }
        } else {
            PpuTiming { cycle: 0, scanline: (t.scanline + 1) as i16, ..t }
        }
    } else {
        PpuTiming { cycle: (t.cycle + 1) as i16, ..t }
    }
}

/// The vblank and NMI signalling after one dot, before the beam moves: the
/// NMI delay counts down; at dot 1 of the pre-render line the frame is under
/// way and the flags clear; at dot 1 of line 241 the frame is complete and the
/// vblank flag rises unless a $2002 read just cancelled it; the NMI output
/// follows the flags.
pub open spec fn frame_timing(p0: Ppu) -> PpuTiming {
    let t1 = nmi_delay_stage(p0.timing);
    let sl = p0.timing.scanline;
    let cy = p0.timing.cycle;
    if sl == 261 && cy == 1 {
        nmi_timing(
            PpuTiming { frame_complete: false, vblank_suppress: false, ..t1 },
            p0.regs.ctrl,
            p0.regs.status & !(STATUS_VBLANK | STATUS_SPRITE_ZERO_HIT | STATUS_SPRITE_OVERFLOW),
        )
    } else if sl == 241 && cy == 1 {
        nmi_timing(
            PpuTiming { frame_complete: true, vblank_suppress: false, ..t1 },
            p0.regs.ctrl,
            if !p0.timing.vblank_suppress {
                p0.regs.status | STATUS_VBLANK
            } else {
                p0.regs.status
            },
        )
    } else {
        t1
    }
}

/// One PPU tick, as far as it is stated: where the beam goes, how `v` moves,
/// which pixel is drawn and in what colour, the vblank and NMI signalling, the
/// sprites chosen at dot 0 of a visible line; the registers the CPU writes
/// and the PPU's memories stay as they are, and the sprite-0 hit and overflow
/// flags only rise between the frame-flag dots.
pub open spec fn tick_post(p0: Ppu, p1: Ppu, relaxed: bool) -> bool {
    let sl = p0.timing.scanline;
    let cy = p0.timing.cycle;
    let rendering = rendering_on(p0.regs.mask);
    let visible = 0 <= sl < 240;
    let pre_render = sl == 261;
    let flag_dot = cy == 1 && (sl == 241 || sl == 261);
    let r1 = reload_stage(p0.regs);
    &&& p1.timing == next_position(frame_timing(p0), rendering)
    &&& p1.regs.ctrl == p0.regs.ctrl
    &&& p1.regs.mask == p0.regs.mask
    &&& p1.regs.t == p0.regs.t
    &&& p1.regs.fine_x == p0.regs.fine_x
    &&& p1.regs.oam_addr == p0.regs.oam_addr
    &&& p1.regs.write_toggle == p0.regs.write_toggle
    &&& p1.regs.read_buffer == p0.regs.read_buffer
    &&& p1.regs.open_bus == p0.regs.open_bus
    &&& p1.regs.debug_mask_write_count == p0.regs.debug_mask_write_count
    &&& p1.regs.debug_last_mask_value == p0.regs.debug_last_mask_value
    &&& p1.regs.ppuaddr_reload_pending == r1.ppuaddr_reload_pending
    &&& p1.regs.ppuaddr_reload_delay == r1.ppuaddr_reload_delay
    &&& p1.regs.v == if (visible || pre_render) && rendering {
        rendering_v(r1.v, p0.regs.t, cy, pre_render)
    } else {
        r1.v
    }
    &&& p1.oam == p0.oam
    &&& p1.vram == p0.vram
    &&& p1.palette_ram == p0.palette_ram
    &&& p1.allow_relaxed_sprite0_hit == relaxed
    &&& p1.frame_buffer@ == if visible && 1 <= cy <= 256 {
        pixel_painted(p0.frame_buffer@, cy - 1, sl as int, output_color(p0, cy - 1))
    } else {
        p0.frame_buffer@
    }
    &&& sl == 261 && cy == 1 ==> p1.regs.status == p0.regs.status & !(STATUS_VBLANK
        | STATUS_SPRITE_ZERO_HIT | STATUS_SPRITE_OVERFLOW)
    &&& sl == 241 && cy == 1 ==> p1.regs.status == if p0.timing.vblank_suppress {
        p0.regs.status
    } else {
        p0.regs.status | STATUS_VBLANK
    }
    &&& !flag_dot ==> only_hit_flags_rose(p0.regs.status, p1.regs.status)
    &&& visible && cy == 0 ==> sprites_selected(p0.oam@, p0.regs.ctrl, sl as int, p1.sprites)
}

/// `s1` is `s0` with at most the sprite-0 hit and overflow flags (0x60) raised.
pub open spec fn only_hit_flags_rose(s0: u8, s1: u8) -> bool {
    s1 == s0 | (s1 & 0x60)
}

/// Raising the sprite-0 hit or overflow flag keeps the other status bits;
/// raising them twice is raising them once.
pub proof fn lemma_hit_flag_bits(s: u8, a: u8, b: u8)
    by (bit_vector)
    ensures
        s | 0x40 == s | ((s | 0x40) & 0x60),
        s | 0x20 == s | ((s | 0x20) & 0x60),
        s == s | (s & 0x60),
        a == s | (a & 0x60) && b == a | (b & 0x60) ==> b == s | (b & 0x60),
        s & 0x80 == 0 && a == s | (a & 0x60) ==> a & 0x80 == 0,
{
}

pub proof fn lemma_status_grows(s: u8)
    ensures
        only_hit_flags_rose(s, s | STATUS_SPRITE_ZERO_HIT),
        only_hit_flags_rose(s, s | STATUS_SPRITE_OVERFLOW),
        only_hit_flags_rose(s, s),
{
    lemma_hit_flag_bits(s, s, s);
}

pub proof fn lemma_status_chain(s: u8, a: u8, b: u8)
    requires
        only_hit_flags_rose(s, a),
        only_hit_flags_rose(a, b),
    ensures
        only_hit_flags_rose(s, b),
{
    lemma_hit_flag_bits(s, a, b);
}

impl Ppu {
    fn tick_signals(&mut self)
        requires
            old(self).wf(),
        ensures
            final(self).wf(),
            *final(self) == (Ppu {
                timing: nmi_delay_stage(old(self).timing),
                regs: reload_stage(old(self).regs),
                debug: final(self).debug,
                ..*old(self)
            }),
    {
        if self.timing.nmi_delay > 0 {
            self.timing.nmi_delay = self.timing.nmi_delay - 1;
            if self.timing.nmi_delay == 0 && self.timing.nmi_line {
                self.timing.nmi_pending = true;
                self.debug.nmi_fired = self.debug.nmi_fired.wrapping_add(1);
            }
        }
        if self.regs.ppuaddr_reload_pending {
            if self.regs.ppuaddr_reload_delay > 0 {
                self.regs.ppuaddr_reload_delay = self.regs.ppuaddr_reload_delay - 1;
            }
            if self.regs.ppuaddr_reload_delay == 0 {
                self.regs.v = self.regs.t;
                self.regs.ppuaddr_reload_pending = false;
            }
        }
    }

    fn update_frame_flags(&mut self)
        requires
            old(self).wf(),
        ensures
            final(self).wf(),
            frame_flags_post(*old(self), *final(self)),
    {
        if self.timing.scanline == 261 && self.timing.cycle == 1 {
            self.regs.status = self.regs.status & !(STATUS_VBLANK | STATUS_SPRITE_ZERO_HIT
                | STATUS_SPRITE_OVERFLOW);
            self.timing.frame_complete = false;
            self.timing.vblank_suppress = false;
            self.update_nmi_line();
        } else if self.timing.scanline == 241 && self.timing.cycle == 1 {
            self.timing.frame_complete = true;
            self.debug.vblank_entries = self.debug.vblank_entries.wrapping_add(1);
            if !self.timing.vblank_suppress {
                self.regs.status = self.regs.status | STATUS_VBLANK;
            }
            self.timing.vblank_suppress = false;
            self.update_nmi_line();
        }
    }

    fn advance_position(&mut self, rendering: bool)
        requires
            old(self).wf(),
        ensures
            final(self).wf(),
            *final(self) == (Ppu { timing: next_position(old(self).timing, rendering), ..*old(self) }),
    {
        if self.timing.scanline == 261 && rendering && self.timing.odd_frame && self.timing.cycle
            == 339 {
            // The odd-frame skip: the pre-render line drops its last dot.
            self.timing.cycle = 0;
            self.timing.scanline = 0;
            self.timing.odd_frame = false;
            return;
        }
        self.timing.cycle = self.timing.cycle + 1;
        if self.timing.cycle > 340 {
            self.timing.cycle = 0;
            self.timing.scanline = self.timing.scanline + 1;
            if self.timing.scanline > 261 {
                self.timing.scanline = 0;
                self.timing.odd_frame = !self.timing.odd_frame;
            }
        }
    }

    /// The background fetches and scroll updates of one rendering cycle, and
    /// the sprite shifters on visible dots.
    #[verifier::spinoff_prover]
    #[verifier::rlimit(80)]
    fn background_step<M: Mapper>(&mut self, mapper: &mut M, visible: bool, pre_render: bool)
        requires
            old(self).wf(),
            old(mapper).inv(),
        ensures
            final(self).wf(),
            final(mapper).inv(),
            final(mapper).owns_nametables() == old(mapper).owns_nametables(),
            final(mapper).mirroring_view() == old(mapper).mirroring_view(),
            final(self).regs == (PpuRegisters {
                v: rendering_v(old(self).regs.v, old(self).regs.t, old(self).timing.cycle, pre_render),
                ..old(self).regs
            }),
            visible && 1 <= old(self).timing.cycle <= 256 ==> sprites_shifted(
                old(self).sprites,
                final(self).sprites,
            ),
            !(visible && 1 <= old(self).timing.cycle <= 256) ==> final(self).sprites == old(
                self,
            ).sprites,
            bg_step_post(*old(self), *old(mapper), final(self).bg, *final(mapper)),
            *final(self) == (Ppu {
                regs: final(self).regs,
                bg: final(self).bg,
                sprites: final(self).sprites,
                debug: final(self).debug,
                ..*old(self)
            }),
    {
        let cycle = self.timing.cycle;
        let ghost m_start = *mapper;
        let ghost mut fp = *self;
        let ghost mut fa: u16 = 0;
        let ghost mut fr: u8 = 0;
        if (1 <= cycle && cycle <= 256) || (321 <= cycle && cycle <= 336) {
            self.shift_background_registers();
            let phase: i16 = (cycle - 1) % 8;
            if phase == 0 {
                self.load_background_shifters();
                let addr: u16 = 0x2000 | (self.regs.v & 0x0FFF);
                proof {
                    fp = *self;
                    fa = addr;
                }
                self.bg.next_tile_id = self.ppu_read(addr, mapper);
                proof {
                    fr = self.bg.next_tile_id;
                }
            } else if phase == 2 {
                let v = self.regs.v;
                let addr: u16 = 0x23C0 | (v & 0x0C00) | ((v >> 4) & 0x0038) | ((v >> 2) & 0x0007);
                proof {
                    fp = *self;
                    fa = addr;
                }
                let attr = self.ppu_read(addr, mapper);
                proof {
                    fr = attr;
                }
                let shift: u16 = ((v >> 4) & 0x04) | (v & 0x02);
                proof {
                    lemma_scroll_bits(v);
                }
                self.bg.next_tile_attr = (attr >> shift) & 0x03;
            } else if phase == 4 || phase == 6 {
                let v = self.regs.v;
                let fine_y: u16 = (v >> 12) & 0x07;
                proof {
                    lemma_scroll_bits(v);
                }
                let table: u16 = if (self.regs.ctrl & CTRL_BG_TABLE) != 0 {
                    0x1000
                } else {
                    0x0000
                };
                let addr: u16 = table + (self.bg.next_tile_id as u16) * 16 + fine_y;
                if phase == 4 {
                    proof {
                        fp = *self;
                        fa = addr;
                    }
                    self.bg.next_tile_lsb = self.ppu_read(addr, mapper);
                    proof {
                        fr = self.bg.next_tile_lsb;
                    }
                } else {
                    proof {
                        fp = *self;
                        fa = (addr + 8) as u16;
                    }
                    self.bg.next_tile_msb = self.ppu_read(addr + 8, mapper);
                    proof {
                        fr = self.bg.next_tile_msb;
                    }
                }
            } else if phase == 7 {
                increment_coarse_x(&mut self.regs.v);
            }
        }
        if visible && 1 <= cycle && cycle <= 256 {
            self.shift_sprite_registers();
        }
        if cycle == 256 {
            increment_y(&mut self.regs.v);
        }
        if cycle == 257 {
            self.load_background_shifters();
            copy_horizontal_bits(&mut self.regs.v, self.regs.t);
        }
        if pre_render && 280 <= cycle && cycle <= 304 {
            copy_vertical_bits(&mut self.regs.v, self.regs.t);
        }
        if cycle == 338 || cycle == 340 {
            let addr: u16 = 0x2000 | (self.regs.v & 0x0FFF);
            proof {
                fp = *self;
                fa = addr;
            }
            self.bg.next_tile_id = self.ppu_read(addr, mapper);
            proof {
                fr = self.bg.next_tile_id;
            }
        }
        proof {
            let c = old(self).timing.cycle;
            if bg_fetch_addr(*old(self), c) is Some {
                assert(bg_fetch_addr(*old(self), c) == Some(fa));
                lemma_fetch_same_memory(fp, *old(self), m_start, *mapper, fa, fr);
                assert(self.bg == bg_after_fetch(*old(self), c, fr));
                assert(ppu_fetch(*old(self), m_start, *mapper, fa, fr));
                let a = bg_fetch_addr(*old(self), c)->0;
                assert(a == fa);
                assert(ppu_fetch(*old(self), m_start, *mapper, a, fr) && self.bg == bg_after_fetch(
                    *old(self),
                    c,
                    fr,
                ));
                assert(bg_step_post(*old(self), m_start, self.bg, *mapper));
            } else {
                assert(self.bg == bg_after_fetch(*old(self), c, 0));
                assert(*mapper == m_start);
                assert(bg_step_post(*old(self), m_start, self.bg, *mapper));
            }
        }
    }
}




/// Dots whose background work shifts the pipeline and fetches a tile.
pub open spec fn in_fetch_window(c: i16) -> bool {
    (1 <= c <= 256) || (321 <= c <= 336)
}

/// The pipeline with its four shift registers moved on one pixel.
pub open spec fn bg_shifted(bg: BackgroundPipeline) -> BackgroundPipeline {
    BackgroundPipeline {
        bg_shift_pattern_lo: bg.bg_shift_pattern_lo << 1,
        bg_shift_pattern_hi: bg.bg_shift_pattern_hi << 1,
        bg_shift_attr_lo: bg.bg_shift_attr_lo << 1,
        bg_shift_attr_hi: bg.bg_shift_attr_hi << 1,
        ..bg
    }
}

/// The address a rendering dot `c` fetches for the background: the tile's
/// nametable byte (phase 0, and dots 338 and 340), its attribute byte
/// (phase 2), then the low and high planes of its pattern (phases 4 and 6).
pub open spec fn bg_fetch_addr(p: Ppu, c: i16) -> Option<u16> {
    let v = p.regs.v;
    let ph = (c - 1) % 8;
    let table: u16 = if (p.regs.ctrl & CTRL_BG_TABLE) != 0 {
        0x1000
    } else {
        0x0000
    };
    let pattern = (table + (p.bg.next_tile_id as u16) * 16 + ((v >> 12) & 0x07)) as u16;
    if in_fetch_window(c) {
        if ph == 0 {
            Some(0x2000 | (v & 0x0FFF))
        } else if ph == 2 {
            Some(0x23C0 | (v & 0x0C00) | ((v >> 4) & 0x0038) | ((v >> 2) & 0x0007))
        } else if ph == 4 {
            Some(pattern)
        } else if ph == 6 {
            Some((pattern + 8) as u16)
        } else {
            None
        }
    } else if c == 338 || c == 340 {
        Some(0x2000 | (v & 0x0FFF))
    } else {
        None
    }
}

/// The background pipeline after rendering dot `c` fetched `r`: shifted
/// in the fetch window, the shifters reloaded at phase 0 and dot 257, and
/// the fetched byte stored as the next tile's number, attribute bits, or
/// low or high pattern plane.
pub open spec fn bg_after_fetch(p: Ppu, c: i16, r: u8) -> BackgroundPipeline {
    let v = p.regs.v;
    let ph = (c - 1) % 8;
    let bg0 = if in_fetch_window(c) {
        bg_shifted(p.bg)
    } else {
        p.bg
    };
    let bg1 = if in_fetch_window(c) {
        if ph == 0 {
            BackgroundPipeline { next_tile_id: r, ..shifters_loaded(bg0) }
        } else if ph == 2 {
            BackgroundPipeline { next_tile_attr: (r >> (((v >> 4) & 0x04) | (v & 0x02))) & 0x03, ..bg0 }
        } else if ph == 4 {
            BackgroundPipeline { next_tile_lsb: r, ..bg0 }
        } else if ph == 6 {
            BackgroundPipeline { next_tile_msb: r, ..bg0 }
        } else {
            bg0
        }
    } else {
        bg0
    };
    let bg2 = if c == 257 {
        shifters_loaded(bg1)
    } else {
        bg1
    };
    if c == 338 || c == 340 {
        BackgroundPipeline { next_tile_id: r, ..bg2 }
    } else {
        bg2
    }
}

/// A rendering dot's background work, seen from the pipeline and the board:
/// the fetch it makes (if any) answered `r` and moved the board from `m0`
/// to `m1`, and the pipeline took it; without a fetch the board stays.
pub open spec fn bg_step_post<M: Mapper>(p: Ppu, m0: M, bg: BackgroundPipeline, m1: M) -> bool {
    let c = p.timing.cycle;
    match bg_fetch_addr(p, c) {
        Some(a) => exists|r: u8| #[trigger] ppu_fetch(p, m0, m1, a, r) && bg == bg_after_fetch(p, c, r),
        None => m1 == m0 && bg == bg_after_fetch(p, c, 0),
    }
}


/// The board saw the address $0000 eight times in a row, going from `m0`
/// to `m1` through the boards of `st`.
pub open spec fn a12_low_run<M: Mapper>(st: Seq<M>, m0: M, m1: M) -> bool {
    &&& st.len() == 9
    &&& st[0] == m0
    &&& st[8] == m1
    &&& forall|i: int| 0 <= i < 8 ==> #[trigger] st[i].read_seen_post(&st[i + 1], 0x0000)
}

/// What a board that does not see sprite-evaluation reads sees of dot 260's
/// sprite fetches: with sprites at $1000 and the background at $0000 the
/// addresses $0000 then $1000 (A12 rises); with sprites at $0000 and the
/// background at $1000 the address $0000 eight times; otherwise nothing.
pub open spec fn sprite_a12_post<M: Mapper>(p: Ppu, m0: M, m1: M) -> bool {
    let sl = p.timing.scanline;
    let sprites_high = (p.regs.ctrl & CTRL_SPRITE_TABLE) != 0;
    let background_high = (p.regs.ctrl & CTRL_BG_TABLE) != 0;
    if 0 <= sl < 240 && rendering_on(p.regs.mask) && p.timing.cycle == 260
        && m0.suppresses_a12_view() {
        if sprites_high && !background_high {
            exists|mm: M| #[trigger] m0.read_seen_post(&mm, 0x0000) && mm.read_seen_post(&m1, 0x1000)
        } else if !sprites_high && background_high {
            exists|st: Seq<M>| #[trigger] a12_low_run(st, m0, m1)
        } else {
            m1 == m0
        }
    } else {
        m1 == m0
    }
}

/// The last part of a dot seen from the pipeline and the board: while
/// rendering on a visible or pre-render line, the background fetch (board
/// `m2` to `mb`) and then dot 260's sprite-fetch addresses (`mb` to `m3`);
/// otherwise the pipeline and the board stay.
pub open spec fn back_board_post<M: Mapper>(p2: Ppu, m2: M, p3: Ppu, m3: M) -> bool {
    let sl = p2.timing.scanline;
    if (0 <= sl < 240 || sl == 261) && rendering_on(p2.regs.mask) {
        exists|mb: M| #[trigger] bg_step_post(p2, m2, p3.bg, mb) && sprite_a12_post(p2, mb, m3)
    } else {
        p3.bg == p2.bg && m3 == m2
    }
}

/// The PPU after the sprite-overflow scan of its dot: the scan starts at
/// dot 65 of a visible line and clocks at dots 65-256, raising the overflow
/// flag when it finds a ninth sprite on the line.
pub open spec fn overflow_stage(p1: Ppu, rendering: bool) -> Ppu {
    let sl = p1.timing.scanline;
    let cy = p1.timing.cycle;
    let visible = 0 <= sl < 240;
    let e0 = if visible && cy == 65 {
        overflow_begin(p1.eval, sl, rendering)
    } else {
        p1.eval
    };
    if visible && 65 <= cy <= 256 {
        let (e1, raised) = overflow_clock(e0, p1.oam@, p1.regs.ctrl, cy, rendering);
        Ppu {
            eval: e1,
            regs: PpuRegisters {
                status: if raised {
                    p1.regs.status | STATUS_SPRITE_OVERFLOW
                } else {
                    p1.regs.status
                },
                ..p1.regs
            },
            ..p1
        }
    } else {
        Ppu { eval: e0, ..p1 }
    }
}

/// The PPU the pixel of dot `cy` is drawn from: after the overflow scan,
/// with the remembered opaque-background flag cleared at dot 1.
pub open spec fn pixel_stage(p1: Ppu, rendering: bool) -> Ppu {
    let q = overflow_stage(p1, rendering);
    Ppu {
        sprites: SpriteLine {
            sprite0_prev_bg_opaque: if p1.timing.cycle == 1 {
                false
            } else {
                q.sprites.sprite0_prev_bg_opaque
            },
            ..q.sprites
        },
        ..q
    }
}

/// The status after the middle part of a dot: on dots 1-256 of a visible
/// line as the pixel leaves it (sprite-0 hit), else as the overflow scan
/// leaves it.
pub open spec fn middle_status(p1: Ppu, rendering: bool) -> u8 {
    let sl = p1.timing.scanline;
    let cy = p1.timing.cycle;
    if 0 <= sl < 240 && 1 <= cy <= 256 {
        status_after_pixel(pixel_stage(p1, rendering), cy - 1)
    } else {
        overflow_stage(p1, rendering).regs.status
    }
}

/// The first part of a dot: the tick counter, the board's timing request, the
/// NMI and PPUADDR delays and the vblank flags.
pub open spec fn front_post(p0: Ppu, p1: Ppu, relaxed: bool) -> bool {
    let r1 = reload_stage(p0.regs);
    let q = Ppu {
        timing: nmi_delay_stage(p0.timing),
        regs: r1,
        allow_relaxed_sprite0_hit: relaxed,
        ..p0
    };
    frame_flags_post(q, p1)
}

/// The middle part of a dot: sprite overflow scan, sprite choice at dot 0,
/// and the pixel at dots 1-256 of a visible line.
pub open spec fn middle_post(p1: Ppu, p2: Ppu) -> bool {
    let sl = p1.timing.scanline;
    let cy = p1.timing.cycle;
    let visible = 0 <= sl < 240;
    &&& p2.regs == PpuRegisters { status: p2.regs.status, ..p1.regs }
    &&& p2.regs.status == middle_status(p1, rendering_on(p1.regs.mask))
    &&& p2.eval == overflow_stage(p1, rendering_on(p1.regs.mask)).eval
    &&& only_hit_flags_rose(p1.regs.status, p2.regs.status)
    &&& !visible ==> p2.regs.status == p1.regs.status
    &&& p2.timing == p1.timing
    &&& p2.oam == p1.oam
    &&& p2.vram == p1.vram
    &&& p2.palette_ram == p1.palette_ram
    &&& p2.bg == p1.bg
    &&& p2.allow_relaxed_sprite0_hit == p1.allow_relaxed_sprite0_hit
    &&& p2.frame_buffer@ == if visible && 1 <= cy <= 256 {
        pixel_painted(p1.frame_buffer@, cy - 1, sl as int, output_color(p1, cy - 1))
    } else {
        p1.frame_buffer@
    }
    &&& visible && cy == 0 ==> sprites_selected(p1.oam@, p1.regs.ctrl, sl as int, p2.sprites)
}

/// The last part of a dot: background fetches, scroll updates and sprite
/// shifters while rendering, then the beam moves on.
pub open spec fn back_post(p2: Ppu, p3: Ppu) -> bool {
    let sl = p2.timing.scanline;
    let cy = p2.timing.cycle;
    let rendering = rendering_on(p2.regs.mask);
    let visible = 0 <= sl < 240;
    let pre_render = sl == 261;
    &&& p3.regs == PpuRegisters {
        v: if (visible || pre_render) && rendering {
            rendering_v(p2.regs.v, p2.regs.t, cy, pre_render)
        } else {
            p2.regs.v
        },
        ..p2.regs
    }
    &&& p3.timing == next_position(p2.timing, rendering)
    &&& p3.oam == p2.oam
    &&& p3.vram == p2.vram
    &&& p3.palette_ram == p2.palette_ram
    &&& p3.frame_buffer == p2.frame_buffer
    &&& p3.allow_relaxed_sprite0_hit == p2.allow_relaxed_sprite0_hit
    &&& !(visible && rendering && 1 <= cy <= 256) ==> p3.sprites == p2.sprites
}

/// The three parts of a dot, seen from the PPU: `p1` after the first,
/// `p2` after the middle one.
pub open spec fn dot_stages(p0: Ppu, p1: Ppu, p2: Ppu, relaxed: bool) -> bool {
    front_post(p0, p1, relaxed) && middle_post(p1, p2)
}

/// A dot seen from the PPU and the board together: the first two parts
/// leave the board as it was except for the sprite choice at dot 0 of a
/// visible line, and the last part fetches for the background and sends
/// dot 260's sprite-fetch addresses (`back_board_post`).
pub open spec fn tick_board_post<M: Mapper>(p0: Ppu, m0: M, p3: Ppu, m3: M, relaxed: bool) -> bool {
    exists|p1: Ppu, p2: Ppu, mm: M|
        #![trigger dot_stages(p0, p1, p2, relaxed), back_board_post(p2, mm, p3, m3)]
        dot_stages(p0, p1, p2, relaxed) && (!(0 <= p0.timing.scanline < 240 && p0.timing.cycle
            == 0) ==> mm == m0) && back_board_post(p2, mm, p3, m3)
}

pub proof fn lemma_tick_composed(p0: Ppu, p1: Ppu, p2: Ppu, p3: Ppu, relaxed: bool)
    requires
        p0.wf(),
        front_post(p0, p1, relaxed),
        middle_post(p1, p2),
        back_post(p2, p3),
    ensures
        tick_post(p0, p3, relaxed),
{
    let sl = p0.timing.scanline;
    let cy = p0.timing.cycle;
    lemma_status_bits(p0.regs.status, 0);
    lemma_status_grows(p1.regs.status);
    assert(p1.regs.mask == p0.regs.mask);
    assert(p1.regs.fine_x == p0.regs.fine_x);
    assert(p1.bg == p0.bg);
    assert(p1.sprites == p0.sprites);
    assert(p1.palette_ram == p0.palette_ram);
    assert(output_color(p1, cy - 1) == output_color(p0, cy - 1));
    if sl == 261 && cy == 1 {
        assert(p3.regs.status == p1.regs.status);
    }
    if sl == 241 && cy == 1 {
        assert(p3.regs.status == p1.regs.status);
    }
}

pub proof fn lemma_samples_ignore_prev_opaque(s: SpriteLine, b: bool, i: int)
    ensures
        sprite_sample_from(SpriteLine { sprite0_prev_bg_opaque: b, ..s }, i) == sprite_sample_from(
            s,
            i,
        ),
    decreases 8 - i,
{
    if 0 <= i < s.sprite_count && i < 8 {
        lemma_samples_ignore_prev_opaque(s, b, i + 1);
    }
}

impl Ppu {
    #[verifier::spinoff_prover]
    fn tick_front(&mut self, relaxed: bool)
        requires
            old(self).wf(),
        ensures
            final(self).wf(),
            front_post(*old(self), *final(self), relaxed),
    {
        self.debug.ticks = self.debug.ticks.wrapping_add(1);
        self.allow_relaxed_sprite0_hit = relaxed;
        self.tick_signals();
        self.update_frame_flags();
    }

    #[verifier::spinoff_prover]
    fn tick_middle<M: Mapper>(&mut self, mapper: &mut M, rendering: bool)
        requires
            old(self).wf(),
            old(mapper).inv(),
            rendering == rendering_on(old(self).regs.mask),
        ensures
            final(self).wf(),
            final(mapper).inv(),
            final(mapper).owns_nametables() == old(mapper).owns_nametables(),
            final(mapper).mirroring_view() == old(mapper).mirroring_view(),
            middle_post(*old(self), *final(self)),
            !(0 <= old(self).timing.scanline < 240 && old(self).timing.cycle == 0) ==> *final(mapper)
                == *old(mapper),
    {
        let scanline = self.timing.scanline;
        let cycle = self.timing.cycle;
        let visible = 0 <= scanline && scanline < 240;
        proof {
            lemma_status_grows(old(self).regs.status);
        }
        if visible && cycle == 65 {
            self.begin_sprite_overflow_evaluation(rendering);
        }
        if visible && 65 <= cycle && cycle <= 256 {
            self.clock_sprite_overflow_evaluation(rendering);
        }
        let ghost p3 = *self;
        proof {
            lemma_status_grows(p3.regs.status);
        }
        if visible && cycle == 0 {
            self.evaluate_sprites(scanline as usize, mapper);
        }
        if visible && 1 <= cycle && cycle <= 256 {
            if cycle == 1 {
                self.sprites.sprite0_prev_bg_opaque = false;
            }
            let ghost q = *self;
            proof {
                lemma_samples_ignore_prev_opaque(old(self).sprites, q.sprites.sprite0_prev_bg_opaque, 0);
                assert(q.sprites == SpriteLine {
                    sprite0_prev_bg_opaque: q.sprites.sprite0_prev_bg_opaque,
                    ..old(self).sprites
                });
            }
            assert(output_color(q, cycle - 1) == output_color(*old(self), cycle - 1));
            self.render_pixel((cycle - 1) as usize, scanline as usize);
        }
        proof {
            lemma_status_chain(old(self).regs.status, p3.regs.status, self.regs.status);
        }
    }

    #[verifier::spinoff_prover]
    fn tick_back<M: Mapper>(&mut self, mapper: &mut M, rendering: bool)
        requires
            old(self).wf(),
            old(mapper).inv(),
            rendering == rendering_on(old(self).regs.mask),
        ensures
            final(self).wf(),
            final(mapper).inv(),
            final(mapper).owns_nametables() == old(mapper).owns_nametables(),
            final(mapper).mirroring_view() == old(mapper).mirroring_view(),
            back_post(*old(self), *final(self)),
            back_board_post(*old(self), *old(mapper), *final(self), *final(mapper)),
    {
        let scanline = self.timing.scanline;
        let cycle = self.timing.cycle;
        let visible = 0 <= scanline && scanline < 240;
        let pre_render = scanline == 261;
        let ghost p2 = *self;
        let ghost m2 = *mapper;
        if (visible || pre_render) && rendering {
            self.background_step(mapper, visible, pre_render);
        }
        let ghost mb = *mapper;
        let ghost pb = *self;
        if visible && rendering && cycle == 260 && mapper.suppress_a12_on_sprite_eval_reads() {
            // Boards that count scanlines from A12 see the sprite fetches of
            // dots 257-320 here, since those fetches are not run dot by dot.
            let sprites_high = (self.regs.ctrl & CTRL_SPRITE_TABLE) != 0;
            let background_high = (self.regs.ctrl & CTRL_BG_TABLE) != 0;
            if sprites_high && !background_high {
                // A12 rises when the sprite fetches begin.
                mapper.notify_ppu_read_addr(0x0000);
                let ghost mm = *mapper;
                mapper.notify_ppu_read_addr(0x1000);
                proof {
                    assert(mb.read_seen_post(&mm, 0x0000) && mm.read_seen_post(&*mapper, 0x1000));
                }
            } else if !sprites_high && background_high {
                // A12 stays low through the eight sprite fetches, so that it
                // rises with the background fetches of dot 321 on.
                let mut slot: u8 = 0;
                let ghost mut st: Seq<M> = seq![mb];
                while slot < 8
                    invariant
                        slot <= 8,
                        mapper.inv(),
                        mapper.owns_nametables() == old(mapper).owns_nametables(),
                        mapper.mirroring_view() == old(mapper).mirroring_view(),
                        st.len() == slot + 1,
                        st[0] == mb,
                        st[slot as int] == *mapper,
                        forall|i: int| 0 <= i < slot ==> #[trigger] st[i].read_seen_post(&st[i + 1], 0x0000),
                    decreases 8 - slot,
                {
                    let ghost before = *mapper;
                    mapper.notify_ppu_read_addr(0x0000);
                    proof {
                        let st2 = st.push(*mapper);
                        assert forall|i: int| 0 <= i < slot + 1 implies #[trigger] st2[i].read_seen_post(&st2[i + 1], 0x0000) by {
                            if i < slot {
                                assert(st2[i] == st[i] && st2[i + 1] == st[i + 1]);
                            } else {
                                assert(st2[i] == before && st2[i + 1] == *mapper);
                            }
                        }
                        st = st2;
                    }
                    slot = slot + 1;
                }
                proof {
                    assert(a12_low_run(st, mb, *mapper));
                }
            }
        }
        proof {
            assert(pb.regs.ctrl == p2.regs.ctrl && pb.regs.mask == p2.regs.mask && pb.timing == p2.timing);
            assert(sprite_a12_post(p2, mb, *mapper));
            if (visible || pre_render) && rendering {
                assert(bg_step_post(p2, m2, pb.bg, mb));
            } else {
                assert(pb == p2 && mb == m2);
            }
        }
        self.advance_position(rendering);
        proof {
            assert(self.bg == pb.bg);
            if (visible || pre_render) && rendering {
                assert(bg_step_post(p2, m2, self.bg, mb) && sprite_a12_post(p2, mb, *mapper));
            }
        }
    }

    /// One PPU dot: NMI and PPUADDR delays, vblank flags, sprite evaluation,
    /// the pixel, the background fetches and scroll updates, and the beam's
    /// move to the next dot.
    pub fn tick<M: Mapper>(&mut self, mapper: &mut M)
        requires
            old(self).wf(),
            old(mapper).inv(),
        ensures
            final(self).wf(),
            final(mapper).inv(),
            final(mapper).owns_nametables() == old(mapper).owns_nametables(),
            final(mapper).mirroring_view() == old(mapper).mirroring_view(),
            tick_post(*old(self), *final(self), old(mapper).relaxed_sprite0_view()),
            tick_board_post(
                *old(self),
                *old(mapper),
                *final(self),
                *final(mapper),
                old(mapper).relaxed_sprite0_view(),
            ),
    {
        let ghost p0 = *self;
        let ghost m0 = *mapper;
        let relaxed = mapper.allow_relaxed_sprite0_hit();
        self.tick_front(relaxed);
        let ghost p1 = *self;
        let rendering = (self.regs.mask & (MASK_SHOW_BG | MASK_SHOW_SPRITES)) != 0;
        self.tick_middle(mapper, rendering);
        let ghost p2 = *self;
        let ghost mm = *mapper;
        self.tick_back(mapper, rendering);
        proof {
            lemma_tick_composed(p0, p1, p2, *self, relaxed);
            assert(p1.timing.scanline == p0.timing.scanline && p1.timing.cycle == p0.timing.cycle);
            assert(dot_stages(p0, p1, p2, relaxed));
            assert(back_board_post(p2, mm, *self, *mapper));
        }
    }
}

} // verus!
