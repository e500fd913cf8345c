use vstd::prelude::*;

use super::mapper::Mirroring;
use super::ppu::{
    background_sample_spec, bus_read_spec, coarse_x_incremented, y_incremented, bus_write_post, composed_palette_index,
    mirrored_vram_index_spec, nametable_mirror, only_hit_flags_rose, output_color,
    palette_color_spec, sprite0_pixel_spec, sprite_sample_from, status_after_pixel, sprite_sample_spec, sprite_slot_pixel, SpriteLine,
    palette_index_spec, register_read_post, register_write_post, rendering_on, tick_post, Ppu,
    CTRL_NMI_ENABLE, CTRL_VRAM_INC_32, STATUS_SPRITE_OVERFLOW, STATUS_SPRITE_ZERO_HIT, STATUS_VBLANK,
};

verus! {

/// The two $2006 writes put together.
pub proof fn lemma_ppuaddr_bits(t0: u16, hi: u8, lo: u8)
    by (bit_vector)
    ensures
        ((((t0 & 0x00FF) | (((hi as u16) & 0x3F) << 8)) & 0x7F00) | (lo as u16)) == ((((hi as u16)
            & 0x3F) << 8) | (lo as u16)),
        ((((hi as u16) & 0x3F) << 8) | (lo as u16)) & 0x3FFF == ((((hi as u16) & 0x3F) << 8) | (
        lo as u16)),
        0x20 <= ((hi as u16) & 0x3F) < 0x3F ==> 0x2000 <= ((((hi as u16) & 0x3F) << 8) | (
        lo as u16)) <= 0x3EFF,
{
}

/// Small masks of small numbers.
pub proof fn lemma_small_masks()
    by (bit_vector)
    ensures
        0usize & 1 == 0,
        1usize & 1 == 1,
        2usize & 1 == 0,
        3usize & 1 == 1,
        16usize & 0x03 == 0,
        20usize & 0x03 == 0,
        24usize & 0x03 == 0,
        28usize & 0x03 == 0,
{
}

/// Two writes to $2006, high byte first, point `v` (and `t`) at the address
/// they spell, bit 14 clear, and leave the write toggle as it was found.
pub proof fn law_ppuaddr_two_writes(
    p0: Ppu,
    p1: Ppu,
    p2: Ppu,
    hi: u8,
    lo: u8,
    owns: bool,
    mirroring: Mirroring,
)
    requires
        !p0.regs.write_toggle,
        register_write_post(p0, p1, 0x2006, hi, false, owns, mirroring),
        register_write_post(p1, p2, 0x2006, lo, false, owns, mirroring),
    ensures
        p2.regs.v == (((hi as u16) & 0x3F) << 8) | (lo as u16),
        p2.regs.t == p2.regs.v,
        !p2.regs.write_toggle,
{
    lemma_ppuaddr_bits(p0.regs.t, hi, lo);
}

/// Which palette entry a pixel takes. Over an opaque background pixel a
/// sprite pixel shows only when it is opaque and in front (attribute bit 5
/// clear); otherwise the background's entry, its palette times four plus its
/// pixel. Over a transparent background an opaque sprite pixel shows in the
/// sprite half of palette RAM, and with neither the backdrop entry 0 shows.
pub proof fn law_pixel_priority(bg: (u8, u8, bool), spr: (u8, u8, bool))
    ensures
        bg.2 && (spr.0 == 0 || spr.2) ==> composed_palette_index(bg, spr) == (bg.1 << 2) | bg.0,
        bg.2 && spr.0 != 0 && !spr.2 ==> composed_palette_index(bg, spr) == 0x10 | ((spr.1 << 2)
            | spr.0),
        !bg.2 && spr.0 != 0 ==> composed_palette_index(bg, spr) == 0x10 | ((spr.1 << 2) | spr.0),
        !bg.2 && spr.0 == 0 ==> composed_palette_index(bg, spr) == 0,
{
}

/// Sprite slot `k` is at its pixel output (its X counter ran out) with an
/// opaque pixel.
pub open spec fn slot_shows(s: SpriteLine, k: int) -> bool {
    s.sprite_x[k] == 0 && sprite_slot_pixel(s, k) != 0
}

/// Slot `j` is the first slot from `i` on, among the line's sprites, that
/// shows.
pub open spec fn first_showing_slot(s: SpriteLine, i: int, j: int) -> bool {
    &&& i <= j < s.sprite_count
    &&& j < 8
    &&& slot_shows(s, j)
    &&& forall|k: int| i <= k < j ==> !#[trigger] slot_shows(s, k)
}

/// Among overlapping sprites the earliest slot (the lowest OAM index, as
/// slots are filled in OAM order) wins: the sprite pixel is that of the
/// first slot that shows, with its palette and priority bits, and with no
/// slot showing there is no sprite pixel.
pub proof fn law_sprite_slot_priority(s: SpriteLine, i: int)
    requires
        0 <= i,
    ensures
        forall|j: int|
            #[trigger] first_showing_slot(s, i, j) ==> sprite_sample_from(s, i) == (
                sprite_slot_pixel(s, j),
                s.sprite_attributes[j] & 0x03,
                (s.sprite_attributes[j] & 0x20) != 0,
            ),
        (forall|k: int| i <= k < s.sprite_count && k < 8 ==> !#[trigger] slot_shows(s, k))
            ==> sprite_sample_from(s, i) == (0u8, 0u8, false),
    decreases 8 - i,
{
    if i < s.sprite_count && i < 8 {
        law_sprite_slot_priority(s, i + 1);
        assert forall|j: int| #[trigger] first_showing_slot(s, i, j) implies sprite_sample_from(
            s,
            i,
        ) == (
            sprite_slot_pixel(s, j),
            s.sprite_attributes[j] & 0x03,
            (s.sprite_attributes[j] & 0x20) != 0,
        ) by {
            if j > i {
                assert(!slot_shows(s, i));
                assert(first_showing_slot(s, i + 1, j));
            }
        }
        if forall|k: int| i <= k < s.sprite_count && k < 8 ==> !#[trigger] slot_shows(s, k) {
            assert(!slot_shows(s, i));
        }
    }
}

/// Sprite-0 hit at column `x`: an opaque sprite-0 pixel over an opaque
/// background pixel sets the hit flag, except at column 255; a transparent
/// sprite-0 pixel, or column 255, leaves the status as it was, and so does an
/// opaque one over transparent background when the previous background
/// pixel was transparent too and the board asks for no relaxed timing.
pub proof fn law_sprite_zero_hit(p: Ppu, x: int)
    ensures
        ({
            let st = status_after_pixel(p, x);
            let bg = background_sample_spec(p.bg, p.regs.mask, p.regs.fine_x, x);
            let z = sprite0_pixel_spec(p.sprites, p.regs.mask, x);
            &&& z != 0 && x < 255 && bg.2 ==> st == p.regs.status | STATUS_SPRITE_ZERO_HIT && (st
                & STATUS_SPRITE_ZERO_HIT) != 0
            &&& z == 0 || x >= 255 ==> st == p.regs.status
            &&& !bg.2 && !p.sprites.sprite0_prev_bg_opaque && !p.allow_relaxed_sprite0_hit ==> st
                == p.regs.status
        }),
{
    super::ppu::lemma_status_bits(p.regs.status, 0);
}

/// The PPU with no sprite on its line.
pub open spec fn without_sprites(p: Ppu) -> Ppu {
    Ppu { sprites: SpriteLine { sprite_count: 0, ..p.sprites }, ..p }
}

/// A sprite pixel behind an opaque background pixel, or a transparent one,
/// leaves the colour exactly as it would be with no sprite on the line; over
/// a transparent background an opaque sprite pixel shows its own colour.
pub proof fn law_sprite_behind_background(p: Ppu, x: int)
    ensures
        ({
            let bg = background_sample_spec(p.bg, p.regs.mask, p.regs.fine_x, x);
            let spr = sprite_sample_spec(p.sprites, p.regs.mask, x);
            &&& (bg.2 && spr.2) || spr.0 == 0 ==> output_color(p, x) == output_color(
                without_sprites(p),
                x,
            )
            &&& !bg.2 && spr.0 != 0 ==> output_color(p, x) == palette_color_spec(
                p.palette_ram@,
                0x10 | ((spr.1 << 2) | spr.0),
            )
        }),
{
    let q = without_sprites(p);
    assert(sprite_sample_from(q.sprites, 0) == (0u8, 0u8, false));
    assert(sprite_sample_spec(q.sprites, q.regs.mask, x) == (0u8, 0u8, false));
}

/// The loopy-register facts behind the scroll law, on the raw expressions.
proof fn lemma_scroll_fields(v: u16, t: u16, x: u8, y: u8)
    by (bit_vector)
    requires
        v < 0x8000,
    ensures
        ({
            let t1 = (t & !0x001Fu16) | (((x as u16) >> 3) & 0x001F);
            let t2 = ((t1 & !0x03E0u16) | ((((y as u16) >> 3) & 0x001F) << 5)) & !0x7000u16 | (((
            y as u16) & 0x07) << 12);
            &&& t2 & 0x001F == ((x >> 3) as u16)
            &&& (t2 >> 5) & 0x001F == ((y >> 3) as u16)
            &&& (t2 >> 12) & 0x07 == ((y & 0x07) as u16)
            &&& t2 & 0x0C00 == t & 0x0C00
        }),
        ((v >> 12) & 0x07 == 7) == ((v & 0x7000) == 0x7000),
        (v >> 12) & 0x07 <= 7,
        (v & 0x001F) <= 31,
        (v & 0x001F) < 31 ==> ((v + 1) as u16 & 0x001F) == (v & 0x001F) + 1 && ((v + 1) as u16
            & !0x001Fu16) == (v & !0x001Fu16),
        (v & 0x001F) == 31 ==> (((v & !0x001Fu16) ^ 0x0400) & 0x001F) == 0 && (((v & !0x001Fu16)
            ^ 0x0400) & 0x0400) != (v & 0x0400) && (((v & !0x001Fu16) ^ 0x0400) & !0x041Fu16) == (v
            & !0x041Fu16),
        (v & 0x7000) != 0x7000 ==> ((v + 0x1000) as u16 >> 12) & 0x07 == ((v >> 12) & 0x07) + 1
            && ((v + 0x1000) as u16 & 0x0FFF) == (v & 0x0FFF) && (v + 0x1000) < 0x10000,
        ({
            let v1 = v & !0x7000u16;
            let y = (v1 & 0x03E0) >> 5;
            &&& (v & 0x7000) == 0x7000 ==> y == (v >> 5) & 0x1F && (v1 >> 12) & 0x07 == 0
            &&& (v & 0x7000) == 0x7000 && y == 29 ==> ((((v1 ^ 0x0800) & !0x03E0u16) | (0u16 << 5))
                >> 5) & 0x1F == 0 && ((((v1 ^ 0x0800) & !0x03E0u16) | (0u16 << 5)) & 0x0800) != (v
                & 0x0800) && ((((v1 ^ 0x0800) & !0x03E0u16) | (0u16 << 5)) & 0x741F) == (v1
                & 0x741F) && ((((v1 ^ 0x0800) & !0x03E0u16) | (0u16 << 5)) >> 12) & 0x07 == 0
            &&& (v & 0x7000) == 0x7000 && y == 31 ==> ((((v1 & !0x03E0u16) | (0u16 << 5)) >> 5)
                & 0x1F) == 0 && (((v1 & !0x03E0u16) | (0u16 << 5)) & 0x7C1F) == (v1 & 0x7C1F) && (((
                v1 & !0x03E0u16) | (0u16 << 5)) >> 12) & 0x07 == 0
            &&& (v & 0x7000) == 0x7000 && y != 29 && y != 31 ==> ((((v1 & !0x03E0u16) | (((y + 1) as u16)
                << 5)) >> 5) & 0x1F) == y + 1 && (((v1 & !0x03E0u16) | (((y + 1) as u16) << 5))
                & 0x7C1F) == (v1 & 0x7C1F) && (((v1 & !0x03E0u16) | (((y + 1) as u16) << 5)) >> 12)
                & 0x07 == 0
            &&& (v1 & 0x741F) == (v & 0x041F) && (v1 & 0x7C1F) == (v & 0x0C1F)
        }),
{
}

/// The scroll counters in loopy `v` (fine Y in bits 12-14, nametable bits
/// 10-11, coarse Y in bits 5-9, coarse X in bits 0-4). Coarse X counts up and
/// at 31 wraps to 0 and flips the horizontal nametable, the other bits
/// staying. Fine Y counts up to 7; from 7 it goes to 0 and coarse Y counts:
/// from 29 it wraps to 0 and flips the vertical nametable, from 31 it wraps
/// to 0 without the flip, otherwise (30 included) it counts up; coarse X and the
/// horizontal nametable stay throughout.
pub proof fn law_scroll_increments(v: u16)
    requires
        v < 0x8000,
    ensures
        ({
            let x = coarse_x_incremented(v);
            &&& (v & 0x001F) < 31 ==> (x & 0x001F) == (v & 0x001F) + 1 && (x & !0x001Fu16) == (v
                & !0x001Fu16)
            &&& (v & 0x001F) == 31 ==> (x & 0x001F) == 0 && (x & 0x0400) != (v & 0x0400) && (x
                & !0x041Fu16) == (v & !0x041Fu16)
        }),
        ({
            let w = y_incremented(v);
            let fine = (v >> 12) & 0x07;
            let cy = (v >> 5) & 0x1F;
            &&& fine < 7 ==> (w >> 12) & 0x07 == fine + 1 && (w & 0x0FFF) == (v & 0x0FFF)
            &&& fine == 7 ==> (w >> 12) & 0x07 == 0
            &&& fine == 7 && cy == 29 ==> (w >> 5) & 0x1F == 0 && (w & 0x0800) != (v & 0x0800) && (w
                & 0x741F) == (v & 0x041F)
            &&& fine == 7 && cy == 31 ==> (w >> 5) & 0x1F == 0 && (w & 0x7C1F) == (v & 0x0C1F)
            &&& fine == 7 && cy != 29 && cy != 31 ==> (w >> 5) & 0x1F == cy + 1 && (w & 0x7C1F) == (v & 0x0C1F)
        }),
{
    lemma_scroll_fields(v, 0, 0, 0);
    if (v & 0x7000) != 0x7000 {
        assert(v.wrapping_add(0x1000) == (v + 0x1000) as u16);
    }
}

/// Two $2005 writes from a cleared write toggle set the scroll: the first
/// puts its low three bits in fine X and its high five in coarse X of `t`,
/// the second puts its low three bits in fine Y and its high five in coarse
/// Y; the nametable bits of `t` stay and the toggle ends cleared.
pub proof fn law_scroll_two_writes(
    p0: Ppu,
    p1: Ppu,
    p2: Ppu,
    x: u8,
    y: u8,
    relaxed: bool,
    owns: bool,
    mirroring: Mirroring,
)
    requires
        !p0.regs.write_toggle,
        register_write_post(p0, p1, 0x2005, x, relaxed, owns, mirroring),
        register_write_post(p1, p2, 0x2005, y, relaxed, owns, mirroring),
    ensures
        p2.regs.fine_x == x & 0x07,
        p2.regs.t & 0x001F == ((x >> 3) as u16),
        (p2.regs.t >> 5) & 0x001F == ((y >> 3) as u16),
        (p2.regs.t >> 12) & 0x07 == ((y & 0x07) as u16),
        p2.regs.t & 0x0C00 == p0.regs.t & 0x0C00,
        !p2.regs.write_toggle,
{
    lemma_scroll_fields(0, p0.regs.t, x, y);
}

/// Outside rendering, each $2007 access moves `v` on by 1, or by 32 when
/// PPUCTRL bit 2 is set, wrapping at 16 bits.
pub proof fn law_data_port_advance(
    p0: Ppu,
    p1: Ppu,
    p2: Ppu,
    value: u8,
    r: u8,
    relaxed: bool,
    owns: bool,
    mirroring: Mirroring,
)
    requires
        !(rendering_on(p0.regs.mask) && ((0 <= p0.timing.scanline < 240) || p0.timing.scanline
            == 261)),
        register_write_post(p0, p1, 0x2007, value, relaxed, owns, mirroring),
        register_read_post(p0, p2, 0x2007, r, owns, mirroring),
    ensures
        p1.regs.v as int == (p0.regs.v + if (p0.regs.ctrl & CTRL_VRAM_INC_32) != 0 {
            32int
        } else {
            1int
        }) % 0x10000,
        p2.regs.v == p1.regs.v,
{
}

/// Pointing `v` at a nametable address through two $2006 writes, high byte
/// first, and writing `x` to $2007 stores `x` in nametable RAM at that
/// address's place under the board's mirroring (on a board without
/// nametables of its own); nothing else in nametable RAM changes.
pub proof fn law_nametable_write_through_ports(
    p0: Ppu,
    p1: Ppu,
    p2: Ppu,
    p3: Ppu,
    hi: u8,
    lo: u8,
    x: u8,
    mirroring: Mirroring,
)
    requires
        !p0.regs.write_toggle,
        0x20 <= ((hi as u16) & 0x3F) < 0x3F,
        register_write_post(p0, p1, 0x2006, hi, false, false, mirroring),
        register_write_post(p1, p2, 0x2006, lo, false, false, mirroring),
        register_write_post(p2, p3, 0x2007, x, false, false, mirroring),
    ensures
        p3.vram@ == p0.vram@.update(
            mirrored_vram_index_spec(
                nametable_mirror(((((hi as u16) & 0x3F) << 8) | (lo as u16)) as u16),
                mirroring,
            ) as int,
            x,
        ),
{
    lemma_ppuaddr_bits(p0.regs.t, hi, lo);
    assert(p2.vram == p0.vram);
}

/// On a board that asks for relaxed timing the second $2006 write leaves `v`
/// alone, and the next tick (with rendering off) copies the address in.
pub proof fn law_ppuaddr_relaxed_reload(
    p0: Ppu,
    p1: Ppu,
    p2: Ppu,
    p3: Ppu,
    hi: u8,
    lo: u8,
    owns: bool,
    mirroring: Mirroring,
    relaxed_after: bool,
)
    requires
        !p0.regs.write_toggle,
        register_write_post(p0, p1, 0x2006, hi, true, owns, mirroring),
        register_write_post(p1, p2, 0x2006, lo, true, owns, mirroring),
        !rendering_on(p2.regs.mask),
        tick_post(p2, p3, relaxed_after),
    ensures
        p2.regs.v == p0.regs.v,
        p3.regs.v == (((hi as u16) & 0x3F) << 8) | (lo as u16),
        !p3.regs.ppuaddr_reload_pending,
{
    lemma_ppuaddr_bits(p0.regs.t, hi, lo);
}

/// A $2002 read returns the vblank flag as it was, then clears it, resets the
/// write toggle and drops the NMI output.
pub proof fn law_status_read(p0: Ppu, p1: Ppu, r: u8, owns: bool, mirroring: Mirroring)
    requires
        register_read_post(p0, p1, 0x2002, r, owns, mirroring),
    ensures
        r & STATUS_VBLANK == p0.regs.status & STATUS_VBLANK,
        p1.regs.status & STATUS_VBLANK == 0,
        !p1.regs.write_toggle,
        !p1.timing.nmi_line,
{
    super::ppu::lemma_status_bits(p0.regs.status, p0.regs.open_bus);
}

/// A $2007 write in the palette reads straight back through $2007 once `v`
/// points at the same address again: palette reads are not buffered.
pub proof fn law_palette_data_roundtrip(
    p0: Ppu,
    p1: Ppu,
    p2: Ppu,
    p3: Ppu,
    value: u8,
    r: u8,
    relaxed: bool,
    owns: bool,
    mirroring: Mirroring,
)
    requires
        p0.regs.v & 0x3FFF >= 0x3F00,
        register_write_post(p0, p1, 0x2007, value, relaxed, owns, mirroring),
        p2 == (Ppu { regs: super::ppu::PpuRegisters { v: p0.regs.v, ..p1.regs }, ..p1 }),
        register_read_post(p2, p3, 0x2007, r, owns, mirroring),
    ensures
        r == value,
{
}

/// A $2007 write to nametable RAM (on a board without nametables of its own)
/// reaches the read buffer when `v` points at the same address again and
/// $2007 is read: the next read returns it.
pub proof fn law_nametable_data_roundtrip(
    p0: Ppu,
    p1: Ppu,
    p2: Ppu,
    p3: Ppu,
    value: u8,
    r: u8,
    relaxed: bool,
    mirroring: Mirroring,
)
    requires
        0x2000 <= p0.regs.v & 0x3FFF < 0x3F00,
        register_write_post(p0, p1, 0x2007, value, relaxed, false, mirroring),
        p2 == (Ppu { regs: super::ppu::PpuRegisters { v: p0.regs.v, ..p1.regs }, ..p1 }),
        register_read_post(p2, p3, 0x2007, r, false, mirroring),
    ensures
        r == p1.regs.read_buffer,
        p3.regs.read_buffer == value,
{
    super::mapper::bank::lemma_and_idempotent_u16(p0.regs.v, 0x3FFF);
    let a = p0.regs.v & 0x3FFF;
    super::ppu::lemma_mirrored_index_bound(super::ppu::nametable_mirror(a), mirroring);
    assert(p2.vram == p1.vram);
}

/// A byte written at a PPU bus address in nametable RAM (on a board without
/// nametables of its own) or in palette RAM reads back at that address.
pub proof fn law_bus_roundtrip(
    vram0: Seq<u8>,
    vram1: Seq<u8>,
    pal0: Seq<u8>,
    pal1: Seq<u8>,
    addr: u16,
    value: u8,
    owns: bool,
    mirroring: Mirroring,
)
    requires
        vram0.len() == 4096,
        pal0.len() == 32,
        addr & 0x3FFF >= 0x2000,
        (addr & 0x3FFF) <= 0x3EFF ==> !owns,
        bus_write_post(vram0, vram1, pal0, pal1, addr, value, owns, mirroring),
    ensures
        bus_read_spec(vram1, pal1, addr, owns, mirroring) == Some(value),
{
    let a = addr & 0x3FFF;
    if a <= 0x3EFF {
        super::ppu::lemma_mirrored_index_bound(
            (0x2000 + ((a - 0x2000) % 0x1000)) as u16,
            mirroring,
        );
    }
}

/// The sprite backdrop entries $3F10/$3F14/$3F18/$3F1C are the background
/// ones $3F00/$3F04/$3F08/$3F0C, and palette RAM repeats every 32 bytes up to
/// $3FFF.
pub proof fn law_palette_mirrors(addr: u16)
    requires
        0x3F00 <= addr <= 0x3FFF,
    ensures
        addr + 0x20 <= 0x3FFF ==> palette_index_spec(addr) == palette_index_spec(
            (addr + 0x20) as u16,
        ),
        (addr - 0x3F00) % 0x20 == 0x10 || (addr - 0x3F00) % 0x20 == 0x14 || (addr - 0x3F00) % 0x20
            == 0x18 || (addr - 0x3F00) % 0x20 == 0x1C ==> palette_index_spec(addr)
            == palette_index_spec((addr - 0x10) as u16),
{
    let i = ((addr - 0x3F00) % 0x20) as usize;
    lemma_small_masks();
    if i == 16 || i == 20 || i == 24 || i == 28 {
        assert(((addr - 0x10 - 0x3F00) % 0x20) as usize == i - 16);
    }
}

/// Vertical mirroring pairs $2000 with $2800 and $2400 with $2C00;
/// horizontal mirroring pairs $2000 with $2400 and $2800 with $2C00; a single
/// screen maps all four nametables to one.
pub proof fn law_nametable_mirroring(addr: u16)
    requires
        0x2000 <= addr < 0x2400,
    ensures
        mirrored_vram_index_spec(addr, Mirroring::Vertical) == mirrored_vram_index_spec(
            (addr + 0x800) as u16,
            Mirroring::Vertical,
        ),
        mirrored_vram_index_spec((addr + 0x400) as u16, Mirroring::Vertical)
            == mirrored_vram_index_spec((addr + 0xC00) as u16, Mirroring::Vertical),
        mirrored_vram_index_spec(addr, Mirroring::Vertical) != mirrored_vram_index_spec(
            (addr + 0x400) as u16,
            Mirroring::Vertical,
        ),
        mirrored_vram_index_spec(addr, Mirroring::Horizontal) == mirrored_vram_index_spec(
            (addr + 0x400) as u16,
            Mirroring::Horizontal,
        ),
        mirrored_vram_index_spec((addr + 0x800) as u16, Mirroring::Horizontal)
            == mirrored_vram_index_spec((addr + 0xC00) as u16, Mirroring::Horizontal),
        mirrored_vram_index_spec(addr, Mirroring::Horizontal) != mirrored_vram_index_spec(
            (addr + 0x800) as u16,
            Mirroring::Horizontal,
        ),
        mirrored_vram_index_spec(addr, Mirroring::OneScreenLower) == mirrored_vram_index_spec(
            (addr + 0xC00) as u16,
            Mirroring::OneScreenLower,
        ),
        mirrored_vram_index_spec(addr, Mirroring::OneScreenUpper) == mirrored_vram_index_spec(
            (addr + 0x400) as u16,
            Mirroring::OneScreenUpper,
        ),
{
    let i = (addr - 0x2000) as usize;
    assert(i / 0x400 == 0);
    assert(((i + 0x400) as usize) / 0x400 == 1);
    assert(((i + 0x800) as usize) / 0x400 == 2);
    assert(((i + 0xC00) as usize) / 0x400 == 3);
    lemma_small_masks();
}

/// Setting the OAM address through $2003 and writing $2004 stores the byte
/// there; setting the address again and reading $2004 returns it.
pub proof fn law_oam_data_roundtrip(
    p0: Ppu,
    p1: Ppu,
    p2: Ppu,
    p3: Ppu,
    p4: Ppu,
    a: u8,
    value: u8,
    r: u8,
    relaxed: bool,
    owns: bool,
    mirroring: Mirroring,
)
    requires
        register_write_post(p0, p1, 0x2003, a, relaxed, owns, mirroring),
        register_write_post(p1, p2, 0x2004, value, relaxed, owns, mirroring),
        register_write_post(p2, p3, 0x2003, a, relaxed, owns, mirroring),
        register_read_post(p3, p4, 0x2004, r, owns, mirroring),
    ensures
        r == value,
        p2.regs.oam_addr == a.wrapping_add(1),
{
}

/// At dot 1 of line 241 the frame is complete and, unless a $2002 read just
/// cancelled it, the vblank flag rises; with NMIs enabled and the NMI output
/// low before, an NMI becomes pending.
pub proof fn law_vblank_start(p0: Ppu, p1: Ppu, relaxed: bool)
    requires
        p0.timing.scanline == 241,
        p0.timing.cycle == 1,
        p0.timing.nmi_delay == 0,
        tick_post(p0, p1, relaxed),
    ensures
        p1.timing.frame_complete,
        !p0.timing.vblank_suppress ==> p1.regs.status & STATUS_VBLANK != 0,
        !p0.timing.vblank_suppress && (p0.regs.ctrl & CTRL_NMI_ENABLE) != 0
            && !p0.timing.nmi_line ==> p1.timing.nmi_pending,
        p1.timing.scanline == 241 && p1.timing.cycle == 2,
{
    super::ppu::lemma_status_bits(p0.regs.status, 0);
}

/// At dot 1 of the pre-render line the vblank, sprite-0 hit and overflow
/// flags clear, the frame is under way again and the NMI output drops.
pub proof fn law_prerender_clears_flags(p0: Ppu, p1: Ppu, relaxed: bool)
    requires
        p0.timing.scanline == 261,
        p0.timing.cycle == 1,
        tick_post(p0, p1, relaxed),
    ensures
        p1.regs.status & (STATUS_VBLANK | STATUS_SPRITE_ZERO_HIT | STATUS_SPRITE_OVERFLOW) == 0,
        !p1.timing.frame_complete,
        !p1.timing.nmi_line,
{
    super::ppu::lemma_status_bits(p0.regs.status, 0);
}

/// A $2002 read at dot 0 of line 241, just before vblank begins, cancels the
/// frame's vblank flag and its NMI: two ticks later neither is there.
pub proof fn law_vblank_read_race(
    p0: Ppu,
    p1: Ppu,
    p2: Ppu,
    p3: Ppu,
    r: u8,
    owns: bool,
    mirroring: Mirroring,
    relaxed1: bool,
    relaxed2: bool,
)
    requires
        p0.wf(),
        p0.timing.scanline == 241,
        p0.timing.cycle == 0,
        register_read_post(p0, p1, 0x2002, r, owns, mirroring),
        tick_post(p1, p2, relaxed1),
        tick_post(p2, p3, relaxed2),
    ensures
        p3.regs.status & STATUS_VBLANK == 0,
        !p3.timing.nmi_pending,
{
    super::ppu::lemma_status_bits(p0.regs.status, p0.regs.open_bus);
    super::ppu::lemma_hit_flag_bits(p1.regs.status, p2.regs.status, p2.regs.status);
    super::ppu::lemma_status_bits(p2.regs.status, 0);
}

/// With rendering on, the pre-render line of an odd frame is one dot short:
/// from its dot 339 the beam goes straight to dot 0 of line 0 and the next
/// frame is even. Otherwise dot 339 is followed by dot 340.
pub proof fn law_odd_frame_skip(p0: Ppu, p1: Ppu, relaxed: bool)
    requires
        p0.timing.scanline == 261,
        p0.timing.cycle == 339,
        tick_post(p0, p1, relaxed),
    ensures
        rendering_on(p0.regs.mask) && p0.timing.odd_frame ==> p1.timing.scanline == 0
            && p1.timing.cycle == 0 && !p1.timing.odd_frame,
        !(rendering_on(p0.regs.mask) && p0.timing.odd_frame) ==> p1.timing.scanline == 261
            && p1.timing.cycle == 340,
{
}

/// A $2001 write sets PPUMASK, counts one mask write and records the value;
/// a write to any other PPU register leaves the count and the recorded
/// value as they were.
pub proof fn law_mask_write_recorded(
    p0: Ppu,
    p1: Ppu,
    addr: u16,
    value: u8,
    relaxed: bool,
    owns: bool,
    mirroring: Mirroring,
)
    requires
        0x2000 <= addr <= 0x2007,
        register_write_post(p0, p1, addr, value, relaxed, owns, mirroring),
    ensures
        addr == 0x2001 ==> {
            &&& p1.regs.mask == value
            &&& p1.regs.debug_mask_write_count == p0.regs.debug_mask_write_count.wrapping_add(1)
            &&& p1.regs.debug_last_mask_value == value
        },
        addr != 0x2001 ==> p1.regs.debug_mask_write_count == p0.regs.debug_mask_write_count
            && p1.regs.debug_last_mask_value == p0.regs.debug_last_mask_value,
{
}

/// A $2000 write that enables NMIs while the vblank flag is set raises an
/// NMI at once when the NMI output was low, and none when it was already
/// high; a write that disables them drops the output, so a later enabling
/// write raises one again.
pub proof fn law_nmi_enable_edge(
    p0: Ppu,
    p1: Ppu,
    value: u8,
    relaxed: bool,
    owns: bool,
    mirroring: Mirroring,
)
    requires
        register_write_post(p0, p1, 0x2000, value, relaxed, owns, mirroring),
    ensures
        p1.regs.ctrl == value,
        (value & CTRL_NMI_ENABLE) != 0 && (p0.regs.status & STATUS_VBLANK) != 0 && !p0.timing.nmi_line
            ==> p1.timing.nmi_pending && p1.timing.nmi_line,
        (value & CTRL_NMI_ENABLE) != 0 && (p0.regs.status & STATUS_VBLANK) != 0 && p0.timing.nmi_line
            ==> p1.timing.nmi_pending == p0.timing.nmi_pending && p1.timing.nmi_line,
        (value & CTRL_NMI_ENABLE) == 0 ==> !p1.timing.nmi_line && p1.timing.nmi_pending
            == p0.timing.nmi_pending,
{
}

} // verus!
