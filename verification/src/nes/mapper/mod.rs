use vstd::prelude::*;

pub mod bank;
pub mod any;
pub mod axrom;
pub mod camerica;
pub mod cnrom;
pub mod fme7;
pub mod generic;
pub mod gxrom;
pub mod konami;
pub mod mmc1;
pub mod mmc2;
pub mod mmc3;
pub mod mmc5;
pub mod namco163;
pub mod mmc4;
pub mod nina;
pub mod nrom;
pub mod uxrom;

pub use any::{create_mapper, has_dedicated_board, AnyMapper, MapperError};
pub use axrom::Mapper7;
pub use camerica::Mapper71;
pub use cnrom::Mapper3;
pub use fme7::Mapper69;
pub use generic::GenericMapper;
pub use gxrom::Mapper66;
pub use konami::{Mapper24, Mapper25, Mapper26, Mapper85};
pub use mmc1::Mapper1;
pub use mmc2::Mapper9;
pub use mmc3::Mapper4;
pub use mmc5::{Mapper5, Mapper5PrgTarget};
pub use namco163::Mapper19;
pub use mmc4::Mapper10;
pub use nina::Mapper79;
pub use nrom::Mapper0;
pub use uxrom::Mapper2;

verus! {

pub const DOCUMENTED_MAPPER_COUNT: u16 = 560;

pub const DOCUMENTED_MAPPER_MAX_ID: u16 = 559;

/// How the four logical nametables are laid over the console's nametable RAM.
#[derive(Debug, Clone, Copy, PartialEq, Eq, Structural)]
pub enum Mirroring {
    Horizontal,
    Vertical,
    OneScreenLower,
    OneScreenUpper,
    FourScreen,
}

/// A cartridge board: it decodes the CPU and PPU buses into PRG and CHR memory.
///
/// Every method keeps the board's invariant `inv`. Boards with a nametable of
/// their own answer the nametable hooks; a board that declines a nametable write
/// (`false`) leaves the console's nametable RAM as it was.
pub trait Mapper: Sized {
    spec fn inv(&self) -> bool;

    /// Whether the board answers nametable accesses itself.
    spec fn owns_nametables(&self) -> bool;

    /// The nametable arrangement the board asks for.
    spec fn mirroring_view(&self) -> Mirroring;

    /// Whether sprite evaluation's pattern fetches bypass the A12 notification.
    spec fn suppresses_a12_view(&self) -> bool;

    /// Whether the board asks for the relaxed PPUADDR and sprite 0 timing.
    spec fn relaxed_sprite0_view(&self) -> bool;

    fn cpu_read(&mut self, addr: u16) -> (r: u8)
        requires
            old(self).inv(),
        ensures
            final(self).inv(),
            final(self).owns_nametables() == old(self).owns_nametables(),
    ;

    fn cpu_write(&mut self, addr: u16, value: u8)
        requires
            old(self).inv(),
        ensures
            final(self).inv(),
            final(self).owns_nametables() == old(self).owns_nametables(),
    ;

    /// The board's answer `r` to a pattern-memory read of `addr`, leaving
    /// it as `post`.
    spec fn chr_read_post(&self, post: &Self, addr: u16, r: u8) -> bool;

    /// The board as `post` after it saw the PPU read address `addr` (as
    /// scanline counters watching A12, and CHR latches, do).
    spec fn read_seen_post(&self, post: &Self, addr: u16) -> bool;

    /// The board's answer `r` to a nametable read of `addr` with the
    /// console's nametable RAM `vram` (`None`: the console's RAM answers),
    /// leaving it as `post`.
    spec fn nametable_read_spec(&self, post: &Self, addr: u16, vram: Seq<u8>, r: Option<u8>) -> bool;

    fn ppu_read(&mut self, addr: u16) -> (r: u8)
        requires
            old(self).inv(),
        ensures
            final(self).inv(),
            final(self).owns_nametables() == old(self).owns_nametables(),
            final(self).mirroring_view() == old(self).mirroring_view(),
            old(self).chr_read_post(&*final(self), addr, r),
    ;

    fn ppu_write(&mut self, addr: u16, value: u8)
        requires
            old(self).inv(),
        ensures
            final(self).inv(),
            final(self).owns_nametables() == old(self).owns_nametables(),
            final(self).mirroring_view() == old(self).mirroring_view(),
    ;

    fn mirroring(&self) -> (r: Mirroring)
        requires
            self.inv(),
        ensures
            r == self.mirroring_view(),
    ;

    fn tick_cpu_cycle(&mut self)
        requires
            old(self).inv(),
        ensures
            final(self).inv(),
            final(self).owns_nametables() == old(self).owns_nametables(),
        default_ensures
            *final(self) == *old(self),
    {
    }

    fn tick_ppu_cycle(&mut self)
        requires
            old(self).inv(),
        ensures
            final(self).inv(),
            final(self).owns_nametables() == old(self).owns_nametables(),
        default_ensures
            *final(self) == *old(self),
    {
    }

    fn ppu_nametable_read(&mut self, addr: u16, vram: &[u8; 4096]) -> (r: Option<u8>)
        requires
            old(self).inv(),
            0x2000 <= addr < 0x3000,
        ensures
            final(self).inv(),
            final(self).owns_nametables() == old(self).owns_nametables(),
            final(self).mirroring_view() == old(self).mirroring_view(),
            !old(self).owns_nametables() ==> r is None && *final(self) == *old(self),
            old(self).nametable_read_spec(&*final(self), addr, vram@, r),
    ;

    fn ppu_nametable_write(&mut self, addr: u16, value: u8, vram: &mut [u8; 4096]) -> (r: bool)
        requires
            old(self).inv(),
            0x2000 <= addr < 0x3000,
        ensures
            final(self).inv(),
            final(self).owns_nametables() == old(self).owns_nametables(),
            final(self).mirroring_view() == old(self).mirroring_view(),
            !r ==> final(vram)@ == old(vram)@,
            !old(self).owns_nametables() ==> !r && *final(self) == *old(self),
        default_ensures
            !r,
            *final(self) == *old(self),
            final(vram)@ == old(vram)@,
    {
        false
    }

    fn notify_ppu_read_addr(&mut self, addr: u16)
        requires
            old(self).inv(),
        ensures
            final(self).inv(),
            final(self).owns_nametables() == old(self).owns_nametables(),
            final(self).mirroring_view() == old(self).mirroring_view(),
            old(self).read_seen_post(&*final(self), addr),
    ;

    fn notify_ppu_write_addr(&mut self, addr: u16)
        requires
            old(self).inv(),
        ensures
            final(self).inv(),
            final(self).owns_nametables() == old(self).owns_nametables(),
            final(self).mirroring_view() == old(self).mirroring_view(),
        default_ensures
            *final(self) == *old(self),
    {
    }

    fn suppress_a12_on_sprite_eval_reads(&self) -> (r: bool)
        requires
            self.inv(),
        ensures
            r == self.suppresses_a12_view(),
    ;

    fn allow_relaxed_sprite0_hit(&self) -> (r: bool)
        requires
            self.inv(),
        ensures
            r == self.relaxed_sprite0_view(),
    ;

    fn irq_pending(&self) -> (r: bool)
        requires
            self.inv(),
        default_ensures
            !r,
    {
        false
    }

    fn clear_irq(&mut self)
        requires
            old(self).inv(),
        ensures
            final(self).inv(),
            final(self).owns_nametables() == old(self).owns_nametables(),
        default_ensures
            *final(self) == *old(self),
    {
    }

    fn debug_peek_chr(&self, addr: u16) -> (r: u8)
        requires
            self.inv(),
        default_ensures
            r == 0,
    {
        0
    }
}

/// The display name of a mapper number.
pub open spec fn mapper_name_spec(mapper_id: u16) -> &'static str {
    if mapper_id == 0 {
        "NROM"
    } else if mapper_id == 1 {
        "MMC1"
    } else if mapper_id == 2 {
        "UxROM"
    } else if mapper_id == 3 {
        "CNROM"
    } else if mapper_id == 4 {
        "MMC3"
    } else if mapper_id == 5 {
        "MMC5"
    } else if mapper_id == 7 {
        "AxROM"
    } else if mapper_id == 9 {
        "MMC2"
    } else if mapper_id == 10 {
        "MMC4"
    } else if mapper_id == 15 {
        "100-in-1"
    } else if mapper_id == 19 {
        "Namco 163"
    } else if mapper_id == 21 {
        "Konami VRC4a"
    } else if mapper_id == 22 {
        "Konami VRC2a"
    } else if mapper_id == 23 {
        "Konami VRC2b/VRC4e"
    } else if mapper_id == 24 {
        "Konami VRC6a"
    } else if mapper_id == 25 {
        "Konami VRC4b/d"
    } else if mapper_id == 26 {
        "Konami VRC6b"
    } else if mapper_id == 37 {
        "PAL-ZZ"
    } else if mapper_id == 47 || mapper_id == 52 {
        "MMC3 variant"
    } else if mapper_id == 66 {
        "GxROM"
    } else if mapper_id == 69 {
        "FME-7 / Sunsoft 5B"
    } else if mapper_id == 71 {
        "Camerica"
    } else if mapper_id == 79 {
        "Nina-001"
    } else if mapper_id == 85 {
        "Konami VRC7"
    } else if mapper_id == 225 {
        "72-in-1"
    } else if mapper_id == 232 {
        "Quattro"
    } else if mapper_id == 342 {
        "COOLGIRL"
    } else if mapper_id == 365 {
        "NES 2.0 Mapper 365"
    } else if mapper_id <= DOCUMENTED_MAPPER_MAX_ID {
        "Documented Mapper (generic)"
    } else {
        "Unsupported"
    }
}

/// The display name of a mapper number: the board's name where it has one, a
/// generic name for the other documented numbers, "Unsupported" above them.
pub fn mapper_name(mapper_id: u16) -> (r: &'static str)
    ensures
        r == mapper_name_spec(mapper_id),
{
    match mapper_id {
        0 => "NROM",
        1 => "MMC1",
        2 => "UxROM",
        3 => "CNROM",
        4 => "MMC3",
        5 => "MMC5",
        7 => "AxROM",
        9 => "MMC2",
        10 => "MMC4",
        15 => "100-in-1",
        19 => "Namco 163",
        21 => "Konami VRC4a",
        22 => "Konami VRC2a",
        23 => "Konami VRC2b/VRC4e",
        24 => "Konami VRC6a",
        25 => "Konami VRC4b/d",
        26 => "Konami VRC6b",
        37 => "PAL-ZZ",
        47 => "MMC3 variant",
        52 => "MMC3 variant",
        66 => "GxROM",
        69 => "FME-7 / Sunsoft 5B",
        71 => "Camerica",
        79 => "Nina-001",
        85 => "Konami VRC7",
        225 => "72-in-1",
        232 => "Quattro",
        342 => "COOLGIRL",
        365 => "NES 2.0 Mapper 365",
        _ => {
            if mapper_id <= DOCUMENTED_MAPPER_MAX_ID {
                "Documented Mapper (generic)"
            } else {
                "Unsupported"
            }
        },
    }
}

} // verus!
