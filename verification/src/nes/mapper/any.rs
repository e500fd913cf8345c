use vstd::prelude::*;

use super::{
    GenericMapper, Mapper, Mapper0, Mapper1, Mapper10, Mapper19, Mapper2, Mapper24, Mapper25,
    Mapper26, Mapper3, Mapper4, Mapper5, Mapper66, Mapper69, Mapper79, Mapper7, Mapper71, Mapper85,
    Mapper9, Mirroring, DOCUMENTED_MAPPER_MAX_ID,
};
use super::bank::wrapped_read_spec;
use crate::nes::cartridge::Cartridge;

verus! {

/// Any of the boards, as `create_mapper` builds them from a cartridge.
pub enum AnyMapper {
    GenericMapper(GenericMapper),
    Mapper0(Mapper0),
    Mapper1(Mapper1),
    Mapper2(Mapper2),
    Mapper3(Mapper3),
    Mapper4(Mapper4),
    Mapper5(Mapper5),
    Mapper7(Mapper7),
    Mapper9(Mapper9),
    Mapper10(Mapper10),
    Mapper19(Mapper19),
    Mapper24(Mapper24),
    Mapper25(Mapper25),
    Mapper26(Mapper26),
    Mapper66(Mapper66),
    Mapper79(Mapper79),
    Mapper69(Mapper69),
    Mapper71(Mapper71),
    Mapper85(Mapper85),
}

/// Why a cartridge has no board.
#[derive(Debug, Clone, Copy, PartialEq, Eq)]
pub enum MapperError {
    /// The mapper number is above the documented range; holds the number.
    Unsupported(u16),
}

impl AnyMapper {
    /// The mapper number the board implements.
    pub open spec fn mapper_number(&self) -> u16 {
        match *self {
            AnyMapper::GenericMapper(a) => a.mapper_id,
            AnyMapper::Mapper0(a) => 0,
            AnyMapper::Mapper1(a) => 1,
            AnyMapper::Mapper2(a) => 2,
            AnyMapper::Mapper3(a) => 3,
            AnyMapper::Mapper4(a) => 4,
            AnyMapper::Mapper5(a) => 5,
            AnyMapper::Mapper7(a) => 7,
            AnyMapper::Mapper9(a) => 9,
            AnyMapper::Mapper10(a) => 10,
            AnyMapper::Mapper19(a) => 19,
            AnyMapper::Mapper24(a) => 24,
            AnyMapper::Mapper25(a) => 25,
            AnyMapper::Mapper26(a) => 26,
            AnyMapper::Mapper66(a) => 66,
            AnyMapper::Mapper79(a) => 79,
            AnyMapper::Mapper69(a) => 69,
            AnyMapper::Mapper71(a) => 71,
            AnyMapper::Mapper85(a) => 85,
        }
    }

    pub open spec fn initialized_from(&self, cart: &Cartridge) -> bool {
        match *self {
            AnyMapper::GenericMapper(a) => a.initialized_from(cart),
            AnyMapper::Mapper0(a) => a.initialized_from(cart),
            AnyMapper::Mapper1(a) => a.initialized_from(cart),
            AnyMapper::Mapper2(a) => a.initialized_from(cart),
            AnyMapper::Mapper3(a) => a.initialized_from(cart),
            AnyMapper::Mapper4(a) => a.initialized_from(cart),
            AnyMapper::Mapper5(a) => a.initialized_from(cart),
            AnyMapper::Mapper7(a) => a.initialized_from(cart),
            AnyMapper::Mapper9(a) => a.initialized_from(cart),
            AnyMapper::Mapper10(a) => a.initialized_from(cart),
            AnyMapper::Mapper19(a) => a.initialized_from(cart),
            AnyMapper::Mapper24(a) => a.initialized_from(cart),
            AnyMapper::Mapper25(a) => a.initialized_from(cart),
            AnyMapper::Mapper26(a) => a.initialized_from(cart),
            AnyMapper::Mapper66(a) => a.initialized_from(cart),
            AnyMapper::Mapper79(a) => a.initialized_from(cart),
            AnyMapper::Mapper69(a) => a.initialized_from(cart),
            AnyMapper::Mapper71(a) => a.initialized_from(cart),
            AnyMapper::Mapper85(a) => a.initialized_from(cart),
        }
    }

    pub open spec fn cpu_read_post(&self, post: &Self, addr: u16, r: u8) -> bool {
        match (*self, *post) {
            (AnyMapper::GenericMapper(a), AnyMapper::GenericMapper(b)) => r == a.cpu_read_value(addr) && b == a,
            (AnyMapper::Mapper0(a), AnyMapper::Mapper0(b)) => r == a.cpu_read_value(addr) && b == a,
            (AnyMapper::Mapper1(a), AnyMapper::Mapper1(b)) => r == a.cpu_read_value(addr) && b == a,
            (AnyMapper::Mapper2(a), AnyMapper::Mapper2(b)) => r == a.cpu_read_value(addr) && b == a,
            (AnyMapper::Mapper3(a), AnyMapper::Mapper3(b)) => r == a.cpu_read_value(addr) && b == a,
            (AnyMapper::Mapper4(a), AnyMapper::Mapper4(b)) => r == a.cpu_read_value(addr) && b == a,
            (AnyMapper::Mapper5(a), AnyMapper::Mapper5(b)) => a.cpu_read_post(&b, addr, r),
            (AnyMapper::Mapper7(a), AnyMapper::Mapper7(b)) => r == a.cpu_read_value(addr) && b == a,
            (AnyMapper::Mapper9(a), AnyMapper::Mapper9(b)) => r == a.cpu_read_value(addr) && b == a,
            (AnyMapper::Mapper10(a), AnyMapper::Mapper10(b)) => r == a.cpu_read_value(addr) && b == a,
            (AnyMapper::Mapper19(a), AnyMapper::Mapper19(b)) => a.cpu_read_post(&b, addr, r),
            (AnyMapper::Mapper24(a), AnyMapper::Mapper24(b)) => r == a.cpu_read_value(addr) && b == a,
            (AnyMapper::Mapper25(a), AnyMapper::Mapper25(b)) => r == a.cpu_read_value(addr) && b == a,
            (AnyMapper::Mapper26(a), AnyMapper::Mapper26(b)) => r == a.cpu_read_value(addr) && b == a,
            (AnyMapper::Mapper66(a), AnyMapper::Mapper66(b)) => r == a.cpu_read_value(addr) && b == a,
            (AnyMapper::Mapper79(a), AnyMapper::Mapper79(b)) => r == a.cpu_read_value(addr) && b == a,
            (AnyMapper::Mapper69(a), AnyMapper::Mapper69(b)) => r == a.cpu_read_value(addr) && b == a,
            (AnyMapper::Mapper71(a), AnyMapper::Mapper71(b)) => r == a.cpu_read_value(addr) && b == a,
            (AnyMapper::Mapper85(a), AnyMapper::Mapper85(b)) => r == a.cpu_read_value(addr) && b == a,
            _ => false,
        }
    }

    pub open spec fn cpu_write_post(&self, post: &Self, addr: u16, value: u8) -> bool {
        match (*self, *post) {
            (AnyMapper::GenericMapper(a), AnyMapper::GenericMapper(b)) => a.cpu_write_post(&b, addr, value),
            (AnyMapper::Mapper0(a), AnyMapper::Mapper0(b)) => a.cpu_write_post(&b, addr, value),
            (AnyMapper::Mapper1(a), AnyMapper::Mapper1(b)) => a.cpu_write_post(&b, addr, value),
            (AnyMapper::Mapper2(a), AnyMapper::Mapper2(b)) => a.cpu_write_post(&b, addr, value),
            (AnyMapper::Mapper3(a), AnyMapper::Mapper3(b)) => a.cpu_write_post(&b, addr, value),
            (AnyMapper::Mapper4(a), AnyMapper::Mapper4(b)) => a.cpu_write_post(&b, addr, value),
            (AnyMapper::Mapper5(a), AnyMapper::Mapper5(b)) => a.cpu_write_post(&b, addr, value),
            (AnyMapper::Mapper7(a), AnyMapper::Mapper7(b)) => a.cpu_write_post(&b, addr, value),
            (AnyMapper::Mapper9(a), AnyMapper::Mapper9(b)) => a.cpu_write_post(&b, addr, value),
            (AnyMapper::Mapper10(a), AnyMapper::Mapper10(b)) => a.cpu_write_post(&b, addr, value),
            (AnyMapper::Mapper19(a), AnyMapper::Mapper19(b)) => a.cpu_write_post(&b, addr, value),
            (AnyMapper::Mapper24(a), AnyMapper::Mapper24(b)) => a.cpu_write_post(&b, addr, value),
            (AnyMapper::Mapper25(a), AnyMapper::Mapper25(b)) => a.cpu_write_post(&b, addr, value),
            (AnyMapper::Mapper26(a), AnyMapper::Mapper26(b)) => a.cpu_write_post(&b, addr, value),
            (AnyMapper::Mapper66(a), AnyMapper::Mapper66(b)) => a.cpu_write_post(&b, addr, value),
            (AnyMapper::Mapper79(a), AnyMapper::Mapper79(b)) => a.cpu_write_post(&b, addr, value),
            (AnyMapper::Mapper69(a), AnyMapper::Mapper69(b)) => a.cpu_write_post(&b, addr, value),
            (AnyMapper::Mapper71(a), AnyMapper::Mapper71(b)) => a.cpu_write_post(&b, addr, value),
            (AnyMapper::Mapper85(a), AnyMapper::Mapper85(b)) => a.cpu_write_post(&b, addr, value),
            _ => false,
        }
    }

    pub open spec fn ppu_read_post(&self, post: &Self, addr: u16, r: u8) -> bool {
        match (*self, *post) {
            (AnyMapper::GenericMapper(a), AnyMapper::GenericMapper(b)) => r == a.ppu_read_value(addr) && b == a,
            (AnyMapper::Mapper0(a), AnyMapper::Mapper0(b)) => r == wrapped_read_spec(a.chr@, addr as nat) && b == a,
            (AnyMapper::Mapper1(a), AnyMapper::Mapper1(b)) => r == a.ppu_read_value(addr) && b == a,
            (AnyMapper::Mapper2(a), AnyMapper::Mapper2(b)) => r == wrapped_read_spec(a.chr@, addr as nat) && b == a,
            (AnyMapper::Mapper3(a), AnyMapper::Mapper3(b)) => r == a.ppu_read_value(addr) && b == a,
            (AnyMapper::Mapper4(a), AnyMapper::Mapper4(b)) => r == a.ppu_read_value(addr) && b == a,
            (AnyMapper::Mapper5(a), AnyMapper::Mapper5(b)) => r == a.ppu_read_value(addr) && b == a,
            (AnyMapper::Mapper7(a), AnyMapper::Mapper7(b)) => r == wrapped_read_spec(a.chr@, addr as nat) && b == a,
            (AnyMapper::Mapper9(a), AnyMapper::Mapper9(b)) => r == a.ppu_read_value(addr) && b == a,
            (AnyMapper::Mapper10(a), AnyMapper::Mapper10(b)) => r == a.ppu_read_value(addr) && b == a,
            (AnyMapper::Mapper19(a), AnyMapper::Mapper19(b)) => r == a.ppu_read_value(addr) && b == a,
            (AnyMapper::Mapper24(a), AnyMapper::Mapper24(b)) => r == a.ppu_read_value(addr) && b == a,
            (AnyMapper::Mapper25(a), AnyMapper::Mapper25(b)) => r == a.ppu_read_value(addr) && b == a,
            (AnyMapper::Mapper26(a), AnyMapper::Mapper26(b)) => r == a.ppu_read_value(addr) && b == a,
            (AnyMapper::Mapper66(a), AnyMapper::Mapper66(b)) => r == a.ppu_read_value(addr) && b == a,
            (AnyMapper::Mapper79(a), AnyMapper::Mapper79(b)) => r == a.ppu_read_value(addr) && b == a,
            (AnyMapper::Mapper69(a), AnyMapper::Mapper69(b)) => r == a.ppu_read_value(addr) && b == a,
            (AnyMapper::Mapper71(a), AnyMapper::Mapper71(b)) => r == wrapped_read_spec(a.chr@, addr as nat) && b == a,
            (AnyMapper::Mapper85(a), AnyMapper::Mapper85(b)) => r == a.ppu_read_value(addr) && b == a,
            _ => false,
        }
    }

    pub open spec fn ppu_write_post(&self, post: &Self, addr: u16, value: u8) -> bool {
        match (*self, *post) {
            (AnyMapper::GenericMapper(a), AnyMapper::GenericMapper(b)) => a.ppu_write_post(&b, addr, value),
            (AnyMapper::Mapper0(a), AnyMapper::Mapper0(b)) => a.ppu_write_post(&b, addr, value),
            (AnyMapper::Mapper1(a), AnyMapper::Mapper1(b)) => a.ppu_write_post(&b, addr, value),
            (AnyMapper::Mapper2(a), AnyMapper::Mapper2(b)) => a.ppu_write_post(&b, addr, value),
            (AnyMapper::Mapper3(a), AnyMapper::Mapper3(b)) => a.ppu_write_post(&b, addr, value),
            (AnyMapper::Mapper4(a), AnyMapper::Mapper4(b)) => a.ppu_write_post(&b, addr, value),
            (AnyMapper::Mapper5(a), AnyMapper::Mapper5(b)) => a.ppu_write_post(&b, addr, value),
            (AnyMapper::Mapper7(a), AnyMapper::Mapper7(b)) => a.ppu_write_post(&b, addr, value),
            (AnyMapper::Mapper9(a), AnyMapper::Mapper9(b)) => a.ppu_write_post(&b, addr, value),
            (AnyMapper::Mapper10(a), AnyMapper::Mapper10(b)) => a.ppu_write_post(&b, addr, value),
            (AnyMapper::Mapper19(a), AnyMapper::Mapper19(b)) => a.ppu_write_post(&b, addr, value),
            (AnyMapper::Mapper24(a), AnyMapper::Mapper24(b)) => a.ppu_write_post(&b, addr, value),
            (AnyMapper::Mapper25(a), AnyMapper::Mapper25(b)) => a.ppu_write_post(&b, addr, value),
            (AnyMapper::Mapper26(a), AnyMapper::Mapper26(b)) => a.ppu_write_post(&b, addr, value),
            (AnyMapper::Mapper66(a), AnyMapper::Mapper66(b)) => a.ppu_write_post(&b, addr, value),
            (AnyMapper::Mapper79(a), AnyMapper::Mapper79(b)) => a.ppu_write_post(&b, addr, value),
            (AnyMapper::Mapper69(a), AnyMapper::Mapper69(b)) => a.ppu_write_post(&b, addr, value),
            (AnyMapper::Mapper71(a), AnyMapper::Mapper71(b)) => a.ppu_write_post(&b, addr, value),
            (AnyMapper::Mapper85(a), AnyMapper::Mapper85(b)) => a.ppu_write_post(&b, addr, value),
            _ => false,
        }
    }

    pub open spec fn mirroring_spec(&self) -> Mirroring {
        match *self {
            AnyMapper::GenericMapper(a) => a.mirroring,
            AnyMapper::Mapper0(a) => a.mirroring,
            AnyMapper::Mapper1(a) => a.mirroring_spec(),
            AnyMapper::Mapper2(a) => a.mirroring,
            AnyMapper::Mapper3(a) => a.mirroring,
            AnyMapper::Mapper4(a) => (if a.four_screen { Mirroring::FourScreen } else { a.mirroring }),
            AnyMapper::Mapper5(a) => Mirroring::FourScreen,
            AnyMapper::Mapper7(a) => a.mirroring,
            AnyMapper::Mapper9(a) => a.mirroring,
            AnyMapper::Mapper10(a) => a.mirroring,
            AnyMapper::Mapper19(a) => Mirroring::FourScreen,
            AnyMapper::Mapper24(a) => a.mirroring,
            AnyMapper::Mapper25(a) => a.mirroring,
            AnyMapper::Mapper26(a) => a.mirroring,
            AnyMapper::Mapper66(a) => a.mirroring,
            AnyMapper::Mapper79(a) => a.mirroring,
            AnyMapper::Mapper69(a) => a.mirroring,
            AnyMapper::Mapper71(a) => a.mirroring,
            AnyMapper::Mapper85(a) => a.mirroring,
        }
    }

    pub open spec fn tick_cpu_post(&self, post: &Self) -> bool {
        match (*self, *post) {
            (AnyMapper::GenericMapper(a), AnyMapper::GenericMapper(b)) => b == a,
            (AnyMapper::Mapper0(a), AnyMapper::Mapper0(b)) => b == a,
            (AnyMapper::Mapper1(a), AnyMapper::Mapper1(b)) => b == a,
            (AnyMapper::Mapper2(a), AnyMapper::Mapper2(b)) => b == a,
            (AnyMapper::Mapper3(a), AnyMapper::Mapper3(b)) => b == a,
            (AnyMapper::Mapper4(a), AnyMapper::Mapper4(b)) => b == a,
            (AnyMapper::Mapper5(a), AnyMapper::Mapper5(b)) => b == a.cpu_cycled(),
            (AnyMapper::Mapper7(a), AnyMapper::Mapper7(b)) => b == a,
            (AnyMapper::Mapper9(a), AnyMapper::Mapper9(b)) => b == a,
            (AnyMapper::Mapper10(a), AnyMapper::Mapper10(b)) => b == a,
            (AnyMapper::Mapper19(a), AnyMapper::Mapper19(b)) => a.tick_cpu_post(&b),
            (AnyMapper::Mapper24(a), AnyMapper::Mapper24(b)) => a.tick_cpu_post(&b),
            (AnyMapper::Mapper25(a), AnyMapper::Mapper25(b)) => a.tick_cpu_post(&b),
            (AnyMapper::Mapper26(a), AnyMapper::Mapper26(b)) => a.tick_cpu_post(&b),
            (AnyMapper::Mapper66(a), AnyMapper::Mapper66(b)) => b == a,
            (AnyMapper::Mapper79(a), AnyMapper::Mapper79(b)) => b == a,
            (AnyMapper::Mapper69(a), AnyMapper::Mapper69(b)) => a.tick_cpu_post(&b),
            (AnyMapper::Mapper71(a), AnyMapper::Mapper71(b)) => b == a,
            (AnyMapper::Mapper85(a), AnyMapper::Mapper85(b)) => a.tick_cpu_post(&b),
            _ => false,
        }
    }

    pub open spec fn nametable_read_post(&self, post: &Self, addr: u16, vram: Seq<u8>, r: Option<u8>) -> bool {
        match (*self, *post) {
            (AnyMapper::GenericMapper(a), AnyMapper::GenericMapper(b)) => r is None && b == a,
            (AnyMapper::Mapper0(a), AnyMapper::Mapper0(b)) => r is None && b == a,
            (AnyMapper::Mapper1(a), AnyMapper::Mapper1(b)) => r is None && b == a,
            (AnyMapper::Mapper2(a), AnyMapper::Mapper2(b)) => r is None && b == a,
            (AnyMapper::Mapper3(a), AnyMapper::Mapper3(b)) => r is None && b == a,
            (AnyMapper::Mapper4(a), AnyMapper::Mapper4(b)) => r is None && b == a,
            (AnyMapper::Mapper5(a), AnyMapper::Mapper5(b)) => r == Some(a.nametable_value(addr, vram)) && b == a,
            (AnyMapper::Mapper7(a), AnyMapper::Mapper7(b)) => r is None && b == a,
            (AnyMapper::Mapper9(a), AnyMapper::Mapper9(b)) => r is None && b == a,
            (AnyMapper::Mapper10(a), AnyMapper::Mapper10(b)) => r is None && b == a,
            (AnyMapper::Mapper19(a), AnyMapper::Mapper19(b)) => a.nametable_read_post(&b, addr, vram, r),
            (AnyMapper::Mapper24(a), AnyMapper::Mapper24(b)) => r is None && b == a,
            (AnyMapper::Mapper25(a), AnyMapper::Mapper25(b)) => r is None && b == a,
            (AnyMapper::Mapper26(a), AnyMapper::Mapper26(b)) => r is None && b == a,
            (AnyMapper::Mapper66(a), AnyMapper::Mapper66(b)) => r is None && b == a,
            (AnyMapper::Mapper79(a), AnyMapper::Mapper79(b)) => r is None && b == a,
            (AnyMapper::Mapper69(a), AnyMapper::Mapper69(b)) => r is None && b == a,
            (AnyMapper::Mapper71(a), AnyMapper::Mapper71(b)) => r is None && b == a,
            (AnyMapper::Mapper85(a), AnyMapper::Mapper85(b)) => r is None && b == a,
            _ => false,
        }
    }

    pub open spec fn nametable_write_post(
        &self,
        post: &Self,
        addr: u16,
        value: u8,
        vram: Seq<u8>,
        new_vram: Seq<u8>,
        r: bool,
    ) -> bool {
        match (*self, *post) {
            (AnyMapper::GenericMapper(a), AnyMapper::GenericMapper(b)) => !r && b == a && new_vram == vram,
            (AnyMapper::Mapper0(a), AnyMapper::Mapper0(b)) => !r && b == a && new_vram == vram,
            (AnyMapper::Mapper1(a), AnyMapper::Mapper1(b)) => !r && b == a && new_vram == vram,
            (AnyMapper::Mapper2(a), AnyMapper::Mapper2(b)) => !r && b == a && new_vram == vram,
            (AnyMapper::Mapper3(a), AnyMapper::Mapper3(b)) => !r && b == a && new_vram == vram,
            (AnyMapper::Mapper4(a), AnyMapper::Mapper4(b)) => !r && b == a && new_vram == vram,
            (AnyMapper::Mapper5(a), AnyMapper::Mapper5(b)) => r && a.nametable_write_post(&b, addr, value, vram, new_vram),
            (AnyMapper::Mapper7(a), AnyMapper::Mapper7(b)) => !r && b == a && new_vram == vram,
            (AnyMapper::Mapper9(a), AnyMapper::Mapper9(b)) => !r && b == a && new_vram == vram,
            (AnyMapper::Mapper10(a), AnyMapper::Mapper10(b)) => !r && b == a && new_vram == vram,
            (AnyMapper::Mapper19(a), AnyMapper::Mapper19(b)) => r && a.nametable_write_post(&b, addr, value, vram, new_vram),
            (AnyMapper::Mapper24(a), AnyMapper::Mapper24(b)) => !r && b == a && new_vram == vram,
            (AnyMapper::Mapper25(a), AnyMapper::Mapper25(b)) => !r && b == a && new_vram == vram,
            (AnyMapper::Mapper26(a), AnyMapper::Mapper26(b)) => !r && b == a && new_vram == vram,
            (AnyMapper::Mapper66(a), AnyMapper::Mapper66(b)) => !r && b == a && new_vram == vram,
            (AnyMapper::Mapper79(a), AnyMapper::Mapper79(b)) => !r && b == a && new_vram == vram,
            (AnyMapper::Mapper69(a), AnyMapper::Mapper69(b)) => !r && b == a && new_vram == vram,
            (AnyMapper::Mapper71(a), AnyMapper::Mapper71(b)) => !r && b == a && new_vram == vram,
            (AnyMapper::Mapper85(a), AnyMapper::Mapper85(b)) => !r && b == a && new_vram == vram,
            _ => false,
        }
    }

    pub open spec fn notify_read_post(&self, post: &Self, addr: u16) -> bool {
        match (*self, *post) {
            (AnyMapper::GenericMapper(a), AnyMapper::GenericMapper(b)) => b == a,
            (AnyMapper::Mapper0(a), AnyMapper::Mapper0(b)) => b == a,
            (AnyMapper::Mapper1(a), AnyMapper::Mapper1(b)) => b == a,
            (AnyMapper::Mapper2(a), AnyMapper::Mapper2(b)) => b == a,
            (AnyMapper::Mapper3(a), AnyMapper::Mapper3(b)) => b == a,
            (AnyMapper::Mapper4(a), AnyMapper::Mapper4(b)) => b == a.after_a12(addr),
            (AnyMapper::Mapper5(a), AnyMapper::Mapper5(b)) => b == a.after_ppu_read(addr),
            (AnyMapper::Mapper7(a), AnyMapper::Mapper7(b)) => b == a,
            (AnyMapper::Mapper9(a), AnyMapper::Mapper9(b)) => a.notify_read_post(&b, addr),
            (AnyMapper::Mapper10(a), AnyMapper::Mapper10(b)) => a.notify_read_post(&b, addr),
            (AnyMapper::Mapper19(a), AnyMapper::Mapper19(b)) => b == a,
            (AnyMapper::Mapper24(a), AnyMapper::Mapper24(b)) => b == a,
            (AnyMapper::Mapper25(a), AnyMapper::Mapper25(b)) => b == a,
            (AnyMapper::Mapper26(a), AnyMapper::Mapper26(b)) => b == a,
            (AnyMapper::Mapper66(a), AnyMapper::Mapper66(b)) => b == a,
            (AnyMapper::Mapper79(a), AnyMapper::Mapper79(b)) => b == a,
            (AnyMapper::Mapper69(a), AnyMapper::Mapper69(b)) => b == a,
            (AnyMapper::Mapper71(a), AnyMapper::Mapper71(b)) => b == a,
            (AnyMapper::Mapper85(a), AnyMapper::Mapper85(b)) => b == a,
            _ => false,
        }
    }

    pub open spec fn notify_write_post(&self, post: &Self, addr: u16) -> bool {
        match (*self, *post) {
            (AnyMapper::GenericMapper(a), AnyMapper::GenericMapper(b)) => b == a,
            (AnyMapper::Mapper0(a), AnyMapper::Mapper0(b)) => b == a,
            (AnyMapper::Mapper1(a), AnyMapper::Mapper1(b)) => b == a,
            (AnyMapper::Mapper2(a), AnyMapper::Mapper2(b)) => b == a,
            (AnyMapper::Mapper3(a), AnyMapper::Mapper3(b)) => b == a,
            (AnyMapper::Mapper4(a), AnyMapper::Mapper4(b)) => b == a.after_a12(addr),
            (AnyMapper::Mapper5(a), AnyMapper::Mapper5(b)) => b == a,
            (AnyMapper::Mapper7(a), AnyMapper::Mapper7(b)) => b == a,
            (AnyMapper::Mapper9(a), AnyMapper::Mapper9(b)) => b == a,
            (AnyMapper::Mapper10(a), AnyMapper::Mapper10(b)) => b == a,
            (AnyMapper::Mapper19(a), AnyMapper::Mapper19(b)) => b == a,
            (AnyMapper::Mapper24(a), AnyMapper::Mapper24(b)) => b == a,
            (AnyMapper::Mapper25(a), AnyMapper::Mapper25(b)) => b == a,
            (AnyMapper::Mapper26(a), AnyMapper::Mapper26(b)) => b == a,
            (AnyMapper::Mapper66(a), AnyMapper::Mapper66(b)) => b == a,
            (AnyMapper::Mapper79(a), AnyMapper::Mapper79(b)) => b == a,
            (AnyMapper::Mapper69(a), AnyMapper::Mapper69(b)) => b == a,
            (AnyMapper::Mapper71(a), AnyMapper::Mapper71(b)) => b == a,
            (AnyMapper::Mapper85(a), AnyMapper::Mapper85(b)) => b == a,
            _ => false,
        }
    }

    pub open spec fn irq_spec(&self) -> bool {
        match *self {
            AnyMapper::GenericMapper(a) => false,
            AnyMapper::Mapper0(a) => false,
            AnyMapper::Mapper1(a) => false,
            AnyMapper::Mapper2(a) => false,
            AnyMapper::Mapper3(a) => false,
            AnyMapper::Mapper4(a) => a.irq_pending,
            AnyMapper::Mapper5(a) => a.irq_pending && a.irq_enabled,
            AnyMapper::Mapper7(a) => false,
            AnyMapper::Mapper9(a) => false,
            AnyMapper::Mapper10(a) => false,
            AnyMapper::Mapper19(a) => a.irq_pending,
            AnyMapper::Mapper24(a) => a.irq_pending,
            AnyMapper::Mapper25(a) => a.irq_pending,
            AnyMapper::Mapper26(a) => a.irq_pending,
            AnyMapper::Mapper66(a) => false,
            AnyMapper::Mapper79(a) => false,
            AnyMapper::Mapper69(a) => a.irq_pending,
            AnyMapper::Mapper71(a) => false,
            AnyMapper::Mapper85(a) => a.irq_pending,
        }
    }

    pub open spec fn clear_irq_post(&self, post: &Self) -> bool {
        match (*self, *post) {
            (AnyMapper::GenericMapper(a), AnyMapper::GenericMapper(b)) => b == a,
            (AnyMapper::Mapper0(a), AnyMapper::Mapper0(b)) => b == a,
            (AnyMapper::Mapper1(a), AnyMapper::Mapper1(b)) => b == a,
            (AnyMapper::Mapper2(a), AnyMapper::Mapper2(b)) => b == a,
            (AnyMapper::Mapper3(a), AnyMapper::Mapper3(b)) => b == a,
            (AnyMapper::Mapper4(a), AnyMapper::Mapper4(b)) => b == (Mapper4 { irq_pending: false, ..a }),
            (AnyMapper::Mapper5(a), AnyMapper::Mapper5(b)) => b == (Mapper5 { irq_pending: false, ..a }),
            (AnyMapper::Mapper7(a), AnyMapper::Mapper7(b)) => b == a,
            (AnyMapper::Mapper9(a), AnyMapper::Mapper9(b)) => b == a,
            (AnyMapper::Mapper10(a), AnyMapper::Mapper10(b)) => b == a,
            (AnyMapper::Mapper19(a), AnyMapper::Mapper19(b)) => b == (Mapper19 { irq_pending: false, ..a }),
            (AnyMapper::Mapper24(a), AnyMapper::Mapper24(b)) => b == (Mapper24 { irq_pending: false, ..a }),
            (AnyMapper::Mapper25(a), AnyMapper::Mapper25(b)) => b == (Mapper25 { irq_pending: false, ..a }),
            (AnyMapper::Mapper26(a), AnyMapper::Mapper26(b)) => b == (Mapper26 { irq_pending: false, ..a }),
            (AnyMapper::Mapper66(a), AnyMapper::Mapper66(b)) => b == a,
            (AnyMapper::Mapper79(a), AnyMapper::Mapper79(b)) => b == a,
            (AnyMapper::Mapper69(a), AnyMapper::Mapper69(b)) => b == (Mapper69 { irq_pending: false, ..a }),
            (AnyMapper::Mapper71(a), AnyMapper::Mapper71(b)) => b == a,
            (AnyMapper::Mapper85(a), AnyMapper::Mapper85(b)) => b == (Mapper85 { irq_pending: false, ..a }),
            _ => false,
        }
    }

    pub open spec fn peek_chr_spec(&self, addr: u16) -> u8 {
        match *self {
            AnyMapper::GenericMapper(a) => wrapped_read_spec(a.chr@, addr as nat),
            AnyMapper::Mapper0(a) => wrapped_read_spec(a.chr@, addr as nat),
            AnyMapper::Mapper1(a) => 0,
            AnyMapper::Mapper2(a) => 0,
            AnyMapper::Mapper3(a) => 0,
            AnyMapper::Mapper4(a) => 0,
            AnyMapper::Mapper5(a) => 0,
            AnyMapper::Mapper7(a) => wrapped_read_spec(a.chr@, addr as nat),
            AnyMapper::Mapper9(a) => 0,
            AnyMapper::Mapper10(a) => 0,
            AnyMapper::Mapper19(a) => 0,
            AnyMapper::Mapper24(a) => 0,
            AnyMapper::Mapper25(a) => 0,
            AnyMapper::Mapper26(a) => 0,
            AnyMapper::Mapper66(a) => 0,
            AnyMapper::Mapper79(a) => 0,
            AnyMapper::Mapper69(a) => 0,
            AnyMapper::Mapper71(a) => wrapped_read_spec(a.chr@, addr as nat),
            AnyMapper::Mapper85(a) => 0,
        }
    }
}

/// The board a cartridge's mapper number selects: a board of its own for the
/// numbers that have one, the generic board for the other documented numbers,
/// and an error above them.
pub fn create_mapper(cart: Cartridge) -> (r: Result<AnyMapper, MapperError>)
    requires
        cart.wf(),
        needs_whole_prg_banks(cart.mapper_id) ==> cart.whole_prg_banks(),
    ensures
        r is Err <==> cart.mapper_id > DOCUMENTED_MAPPER_MAX_ID,
        r matches Err(e) ==> e == MapperError::Unsupported(cart.mapper_id),
        r matches Ok(m) ==> m.inv() && m.initialized_from(&cart) && m.mapper_number()
            == cart.mapper_id,
        r matches Ok(m) ==> (m is GenericMapper <==> !has_dedicated_board(cart.mapper_id)),
{
    let id = cart.mapper_id;
    let mapper = match id {
        0 => AnyMapper::Mapper0(Mapper0::new(cart)),
        1 => AnyMapper::Mapper1(Mapper1::new(cart)),
        2 => AnyMapper::Mapper2(Mapper2::new(cart)),
        3 => AnyMapper::Mapper3(Mapper3::new(cart)),
        4 => AnyMapper::Mapper4(Mapper4::new(cart)),
        5 => AnyMapper::Mapper5(Mapper5::new(cart)),
        7 => AnyMapper::Mapper7(Mapper7::new(cart)),
        9 => AnyMapper::Mapper9(Mapper9::new(cart)),
        10 => AnyMapper::Mapper10(Mapper10::new(cart)),
        19 => AnyMapper::Mapper19(Mapper19::new(cart)),
        24 => AnyMapper::Mapper24(Mapper24::new(cart)),
        25 => AnyMapper::Mapper25(Mapper25::new(cart)),
        26 => AnyMapper::Mapper26(Mapper26::new(cart)),
        66 => AnyMapper::Mapper66(Mapper66::new(cart)),
        79 => AnyMapper::Mapper79(Mapper79::new(cart)),
        69 => AnyMapper::Mapper69(Mapper69::new(cart)),
        71 => AnyMapper::Mapper71(Mapper71::new(cart)),
        85 => AnyMapper::Mapper85(Mapper85::new(cart)),
        _ => {
            if id <= DOCUMENTED_MAPPER_MAX_ID {
                AnyMapper::GenericMapper(GenericMapper::new(cart))
            } else {
                return Err(MapperError::Unsupported(id));
            }
        },
    };
    Ok(mapper)
}

/// The boards that index PRG ROM directly and need it in whole 16 KiB banks.
pub open spec fn needs_whole_prg_banks(id: u16) -> bool {
    id == 0 || id == 2 || id == 3
}

/// The mapper numbers with a board of their own.
pub open spec fn has_dedicated_board(id: u16) -> bool {
    id == 0 || id == 1 || id == 2 || id == 3 || id == 4 || id == 5 || id == 7 || id == 9 || id == 10 || id == 19 || id == 24 || id == 25 || id == 26 || id == 66 || id == 69 || id == 71 || id == 79 || id == 85
}

impl Mapper for AnyMapper {
    open spec fn chr_read_post(&self, post: &Self, addr: u16, r: u8) -> bool {
        self.ppu_read_post(post, addr, r)
    }

    open spec fn read_seen_post(&self, post: &Self, addr: u16) -> bool {
        self.notify_read_post(post, addr)
    }

    open spec fn nametable_read_spec(&self, post: &Self, addr: u16, vram: Seq<u8>, r: Option<u8>) -> bool {
        self.nametable_read_post(post, addr, vram, r)
    }

    open spec fn inv(&self) -> bool {
        match *self {
            AnyMapper::GenericMapper(a) => a.wf(),
            AnyMapper::Mapper0(a) => a.wf(),
            AnyMapper::Mapper1(a) => a.wf(),
            AnyMapper::Mapper2(a) => a.wf(),
            AnyMapper::Mapper3(a) => a.wf(),
            AnyMapper::Mapper4(a) => a.wf(),
            AnyMapper::Mapper5(a) => a.wf(),
            AnyMapper::Mapper7(a) => a.wf(),
            AnyMapper::Mapper9(a) => a.wf(),
            AnyMapper::Mapper10(a) => a.wf(),
            AnyMapper::Mapper19(a) => a.wf(),
            AnyMapper::Mapper24(a) => a.wf(),
            AnyMapper::Mapper25(a) => a.wf(),
            AnyMapper::Mapper26(a) => a.wf(),
            AnyMapper::Mapper66(a) => a.wf(),
            AnyMapper::Mapper79(a) => a.wf(),
            AnyMapper::Mapper69(a) => a.wf(),
            AnyMapper::Mapper71(a) => a.wf(),
            AnyMapper::Mapper85(a) => a.wf(),
        }
    }

    open spec fn owns_nametables(&self) -> bool {
        *self is Mapper5 || *self is Mapper19
    }

    open spec fn mirroring_view(&self) -> Mirroring {
        self.mirroring_spec()
    }

    open spec fn suppresses_a12_view(&self) -> bool {
        *self is Mapper4
    }

    open spec fn relaxed_sprite0_view(&self) -> bool {
        *self is Mapper71
    }

    fn cpu_read(&mut self, addr: u16) -> (r: u8)
        ensures
            old(self).cpu_read_post(&*final(self), addr, r),
    {
        match self {
            AnyMapper::GenericMapper(m) => m.cpu_read(addr),
            AnyMapper::Mapper0(m) => m.cpu_read(addr),
            AnyMapper::Mapper1(m) => m.cpu_read(addr),
            AnyMapper::Mapper2(m) => m.cpu_read(addr),
            AnyMapper::Mapper3(m) => m.cpu_read(addr),
            AnyMapper::Mapper4(m) => m.cpu_read(addr),
            AnyMapper::Mapper5(m) => m.cpu_read(addr),
            AnyMapper::Mapper7(m) => m.cpu_read(addr),
            AnyMapper::Mapper9(m) => m.cpu_read(addr),
            AnyMapper::Mapper10(m) => m.cpu_read(addr),
            AnyMapper::Mapper19(m) => m.cpu_read(addr),
            AnyMapper::Mapper24(m) => m.cpu_read(addr),
            AnyMapper::Mapper25(m) => m.cpu_read(addr),
            AnyMapper::Mapper26(m) => m.cpu_read(addr),
            AnyMapper::Mapper66(m) => m.cpu_read(addr),
            AnyMapper::Mapper79(m) => m.cpu_read(addr),
            AnyMapper::Mapper69(m) => m.cpu_read(addr),
            AnyMapper::Mapper71(m) => m.cpu_read(addr),
            AnyMapper::Mapper85(m) => m.cpu_read(addr),
        }
    }

    fn cpu_write(&mut self, addr: u16, value: u8)
        ensures
            old(self).cpu_write_post(&*final(self), addr, value),
    {
        match self {
            AnyMapper::GenericMapper(m) => m.cpu_write(addr, value),
            AnyMapper::Mapper0(m) => m.cpu_write(addr, value),
            AnyMapper::Mapper1(m) => m.cpu_write(addr, value),
            AnyMapper::Mapper2(m) => m.cpu_write(addr, value),
            AnyMapper::Mapper3(m) => m.cpu_write(addr, value),
            AnyMapper::Mapper4(m) => m.cpu_write(addr, value),
            AnyMapper::Mapper5(m) => m.cpu_write(addr, value),
            AnyMapper::Mapper7(m) => m.cpu_write(addr, value),
            AnyMapper::Mapper9(m) => m.cpu_write(addr, value),
            AnyMapper::Mapper10(m) => m.cpu_write(addr, value),
            AnyMapper::Mapper19(m) => m.cpu_write(addr, value),
            AnyMapper::Mapper24(m) => m.cpu_write(addr, value),
            AnyMapper::Mapper25(m) => m.cpu_write(addr, value),
            AnyMapper::Mapper26(m) => m.cpu_write(addr, value),
            AnyMapper::Mapper66(m) => m.cpu_write(addr, value),
            AnyMapper::Mapper79(m) => m.cpu_write(addr, value),
            AnyMapper::Mapper69(m) => m.cpu_write(addr, value),
            AnyMapper::Mapper71(m) => m.cpu_write(addr, value),
            AnyMapper::Mapper85(m) => m.cpu_write(addr, value),
        }
    }

    fn ppu_read(&mut self, addr: u16) -> (r: u8)
        ensures
            old(self).ppu_read_post(&*final(self), addr, r),
    {
        match self {
            AnyMapper::GenericMapper(m) => m.ppu_read(addr),
            AnyMapper::Mapper0(m) => m.ppu_read(addr),
            AnyMapper::Mapper1(m) => m.ppu_read(addr),
            AnyMapper::Mapper2(m) => m.ppu_read(addr),
            AnyMapper::Mapper3(m) => m.ppu_read(addr),
            AnyMapper::Mapper4(m) => m.ppu_read(addr),
            AnyMapper::Mapper5(m) => m.ppu_read(addr),
            AnyMapper::Mapper7(m) => m.ppu_read(addr),
            AnyMapper::Mapper9(m) => m.ppu_read(addr),
            AnyMapper::Mapper10(m) => m.ppu_read(addr),
            AnyMapper::Mapper19(m) => m.ppu_read(addr),
            AnyMapper::Mapper24(m) => m.ppu_read(addr),
            AnyMapper::Mapper25(m) => m.ppu_read(addr),
            AnyMapper::Mapper26(m) => m.ppu_read(addr),
            AnyMapper::Mapper66(m) => m.ppu_read(addr),
            AnyMapper::Mapper79(m) => m.ppu_read(addr),
            AnyMapper::Mapper69(m) => m.ppu_read(addr),
            AnyMapper::Mapper71(m) => m.ppu_read(addr),
            AnyMapper::Mapper85(m) => m.ppu_read(addr),
        }
    }

    #[verifier::spinoff_prover]
    #[verifier::rlimit(60)]
    fn ppu_write(&mut self, addr: u16, value: u8)
        ensures
            old(self).ppu_write_post(&*final(self), addr, value),
    {
        match self {
            AnyMapper::GenericMapper(m) => m.ppu_write(addr, value),
            AnyMapper::Mapper0(m) => m.ppu_write(addr, value),
            AnyMapper::Mapper1(m) => m.ppu_write(addr, value),
            AnyMapper::Mapper2(m) => m.ppu_write(addr, value),
            AnyMapper::Mapper3(m) => m.ppu_write(addr, value),
            AnyMapper::Mapper4(m) => m.ppu_write(addr, value),
            AnyMapper::Mapper5(m) => m.ppu_write(addr, value),
            AnyMapper::Mapper7(m) => m.ppu_write(addr, value),
            AnyMapper::Mapper9(m) => m.ppu_write(addr, value),
            AnyMapper::Mapper10(m) => m.ppu_write(addr, value),
            AnyMapper::Mapper19(m) => m.ppu_write(addr, value),
            AnyMapper::Mapper24(m) => m.ppu_write(addr, value),
            AnyMapper::Mapper25(m) => m.ppu_write(addr, value),
            AnyMapper::Mapper26(m) => m.ppu_write(addr, value),
            AnyMapper::Mapper66(m) => m.ppu_write(addr, value),
            AnyMapper::Mapper79(m) => m.ppu_write(addr, value),
            AnyMapper::Mapper69(m) => m.ppu_write(addr, value),
            AnyMapper::Mapper71(m) => m.ppu_write(addr, value),
            AnyMapper::Mapper85(m) => m.ppu_write(addr, value),
        }
    }

    #[verifier::spinoff_prover]
    #[verifier::rlimit(40)]
    fn mirroring(&self) -> (r: Mirroring)
        ensures
            r == self.mirroring_spec(),
    {
        match self {
            AnyMapper::GenericMapper(m) => m.mirroring(),
            AnyMapper::Mapper0(m) => m.mirroring(),
            AnyMapper::Mapper1(m) => m.mirroring(),
            AnyMapper::Mapper2(m) => m.mirroring(),
            AnyMapper::Mapper3(m) => m.mirroring(),
            AnyMapper::Mapper4(m) => m.mirroring(),
            AnyMapper::Mapper5(m) => m.mirroring(),
            AnyMapper::Mapper7(m) => m.mirroring(),
            AnyMapper::Mapper9(m) => m.mirroring(),
            AnyMapper::Mapper10(m) => m.mirroring(),
            AnyMapper::Mapper19(m) => m.mirroring(),
            AnyMapper::Mapper24(m) => m.mirroring(),
            AnyMapper::Mapper25(m) => m.mirroring(),
            AnyMapper::Mapper26(m) => m.mirroring(),
            AnyMapper::Mapper66(m) => m.mirroring(),
            AnyMapper::Mapper79(m) => m.mirroring(),
            AnyMapper::Mapper69(m) => m.mirroring(),
            AnyMapper::Mapper71(m) => m.mirroring(),
            AnyMapper::Mapper85(m) => m.mirroring(),
        }
    }

    fn tick_cpu_cycle(&mut self)
        ensures
            old(self).tick_cpu_post(&*final(self)),
    {
        match self {
            AnyMapper::GenericMapper(m) => m.tick_cpu_cycle(),
            AnyMapper::Mapper0(m) => m.tick_cpu_cycle(),
            AnyMapper::Mapper1(m) => m.tick_cpu_cycle(),
            AnyMapper::Mapper2(m) => m.tick_cpu_cycle(),
            AnyMapper::Mapper3(m) => m.tick_cpu_cycle(),
            AnyMapper::Mapper4(m) => m.tick_cpu_cycle(),
            AnyMapper::Mapper5(m) => m.tick_cpu_cycle(),
            AnyMapper::Mapper7(m) => m.tick_cpu_cycle(),
            AnyMapper::Mapper9(m) => m.tick_cpu_cycle(),
            AnyMapper::Mapper10(m) => m.tick_cpu_cycle(),
            AnyMapper::Mapper19(m) => m.tick_cpu_cycle(),
            AnyMapper::Mapper24(m) => m.tick_cpu_cycle(),
            AnyMapper::Mapper25(m) => m.tick_cpu_cycle(),
            AnyMapper::Mapper26(m) => m.tick_cpu_cycle(),
            AnyMapper::Mapper66(m) => m.tick_cpu_cycle(),
            AnyMapper::Mapper79(m) => m.tick_cpu_cycle(),
            AnyMapper::Mapper69(m) => m.tick_cpu_cycle(),
            AnyMapper::Mapper71(m) => m.tick_cpu_cycle(),
            AnyMapper::Mapper85(m) => m.tick_cpu_cycle(),
        }
    }

    fn ppu_nametable_read(&mut self, addr: u16, vram: &[u8; 4096]) -> (r: Option<u8>)
        ensures
            old(self).nametable_read_post(&*final(self), addr, vram@, r),
    {
        match self {
            AnyMapper::GenericMapper(m) => m.ppu_nametable_read(addr, vram),
            AnyMapper::Mapper0(m) => m.ppu_nametable_read(addr, vram),
            AnyMapper::Mapper1(m) => m.ppu_nametable_read(addr, vram),
            AnyMapper::Mapper2(m) => m.ppu_nametable_read(addr, vram),
            AnyMapper::Mapper3(m) => m.ppu_nametable_read(addr, vram),
            AnyMapper::Mapper4(m) => m.ppu_nametable_read(addr, vram),
            AnyMapper::Mapper5(m) => m.ppu_nametable_read(addr, vram),
            AnyMapper::Mapper7(m) => m.ppu_nametable_read(addr, vram),
            AnyMapper::Mapper9(m) => m.ppu_nametable_read(addr, vram),
            AnyMapper::Mapper10(m) => m.ppu_nametable_read(addr, vram),
            AnyMapper::Mapper19(m) => m.ppu_nametable_read(addr, vram),
            AnyMapper::Mapper24(m) => m.ppu_nametable_read(addr, vram),
            AnyMapper::Mapper25(m) => m.ppu_nametable_read(addr, vram),
            AnyMapper::Mapper26(m) => m.ppu_nametable_read(addr, vram),
            AnyMapper::Mapper66(m) => m.ppu_nametable_read(addr, vram),
            AnyMapper::Mapper79(m) => m.ppu_nametable_read(addr, vram),
            AnyMapper::Mapper69(m) => m.ppu_nametable_read(addr, vram),
            AnyMapper::Mapper71(m) => m.ppu_nametable_read(addr, vram),
            AnyMapper::Mapper85(m) => m.ppu_nametable_read(addr, vram),
        }
    }

    fn ppu_nametable_write(&mut self, addr: u16, value: u8, vram: &mut [u8; 4096]) -> (r: bool)
        ensures
            old(self).nametable_write_post(&*final(self), addr, value, old(vram)@, final(vram)@, r),
    {
        match self {
            AnyMapper::GenericMapper(m) => m.ppu_nametable_write(addr, value, vram),
            AnyMapper::Mapper0(m) => m.ppu_nametable_write(addr, value, vram),
            AnyMapper::Mapper1(m) => m.ppu_nametable_write(addr, value, vram),
            AnyMapper::Mapper2(m) => m.ppu_nametable_write(addr, value, vram),
            AnyMapper::Mapper3(m) => m.ppu_nametable_write(addr, value, vram),
            AnyMapper::Mapper4(m) => m.ppu_nametable_write(addr, value, vram),
            AnyMapper::Mapper5(m) => m.ppu_nametable_write(addr, value, vram),
            AnyMapper::Mapper7(m) => m.ppu_nametable_write(addr, value, vram),
            AnyMapper::Mapper9(m) => m.ppu_nametable_write(addr, value, vram),
            AnyMapper::Mapper10(m) => m.ppu_nametable_write(addr, value, vram),
            AnyMapper::Mapper19(m) => m.ppu_nametable_write(addr, value, vram),
            AnyMapper::Mapper24(m) => m.ppu_nametable_write(addr, value, vram),
            AnyMapper::Mapper25(m) => m.ppu_nametable_write(addr, value, vram),
            AnyMapper::Mapper26(m) => m.ppu_nametable_write(addr, value, vram),
            AnyMapper::Mapper66(m) => m.ppu_nametable_write(addr, value, vram),
            AnyMapper::Mapper79(m) => m.ppu_nametable_write(addr, value, vram),
            AnyMapper::Mapper69(m) => m.ppu_nametable_write(addr, value, vram),
            AnyMapper::Mapper71(m) => m.ppu_nametable_write(addr, value, vram),
            AnyMapper::Mapper85(m) => m.ppu_nametable_write(addr, value, vram),
        }
    }

    fn notify_ppu_read_addr(&mut self, addr: u16)
        ensures
            old(self).notify_read_post(&*final(self), addr),
    {
        match self {
            AnyMapper::GenericMapper(m) => m.notify_ppu_read_addr(addr),
            AnyMapper::Mapper0(m) => m.notify_ppu_read_addr(addr),
            AnyMapper::Mapper1(m) => m.notify_ppu_read_addr(addr),
            AnyMapper::Mapper2(m) => m.notify_ppu_read_addr(addr),
            AnyMapper::Mapper3(m) => m.notify_ppu_read_addr(addr),
            AnyMapper::Mapper4(m) => m.notify_ppu_read_addr(addr),
            AnyMapper::Mapper5(m) => m.notify_ppu_read_addr(addr),
            AnyMapper::Mapper7(m) => m.notify_ppu_read_addr(addr),
            AnyMapper::Mapper9(m) => m.notify_ppu_read_addr(addr),
            AnyMapper::Mapper10(m) => m.notify_ppu_read_addr(addr),
            AnyMapper::Mapper19(m) => m.notify_ppu_read_addr(addr),
            AnyMapper::Mapper24(m) => m.notify_ppu_read_addr(addr),
            AnyMapper::Mapper25(m) => m.notify_ppu_read_addr(addr),
            AnyMapper::Mapper26(m) => m.notify_ppu_read_addr(addr),
            AnyMapper::Mapper66(m) => m.notify_ppu_read_addr(addr),
            AnyMapper::Mapper79(m) => m.notify_ppu_read_addr(addr),
            AnyMapper::Mapper69(m) => m.notify_ppu_read_addr(addr),
            AnyMapper::Mapper71(m) => m.notify_ppu_read_addr(addr),
            AnyMapper::Mapper85(m) => m.notify_ppu_read_addr(addr),
        }
    }

    fn notify_ppu_write_addr(&mut self, addr: u16)
        ensures
            old(self).notify_write_post(&*final(self), addr),
    {
        match self {
            AnyMapper::GenericMapper(m) => m.notify_ppu_write_addr(addr),
            AnyMapper::Mapper0(m) => m.notify_ppu_write_addr(addr),
            AnyMapper::Mapper1(m) => m.notify_ppu_write_addr(addr),
            AnyMapper::Mapper2(m) => m.notify_ppu_write_addr(addr),
            AnyMapper::Mapper3(m) => m.notify_ppu_write_addr(addr),
            AnyMapper::Mapper4(m) => m.notify_ppu_write_addr(addr),
            AnyMapper::Mapper5(m) => m.notify_ppu_write_addr(addr),
            AnyMapper::Mapper7(m) => m.notify_ppu_write_addr(addr),
            AnyMapper::Mapper9(m) => m.notify_ppu_write_addr(addr),
            AnyMapper::Mapper10(m) => m.notify_ppu_write_addr(addr),
            AnyMapper::Mapper19(m) => m.notify_ppu_write_addr(addr),
            AnyMapper::Mapper24(m) => m.notify_ppu_write_addr(addr),
            AnyMapper::Mapper25(m) => m.notify_ppu_write_addr(addr),
            AnyMapper::Mapper26(m) => m.notify_ppu_write_addr(addr),
            AnyMapper::Mapper66(m) => m.notify_ppu_write_addr(addr),
            AnyMapper::Mapper79(m) => m.notify_ppu_write_addr(addr),
            AnyMapper::Mapper69(m) => m.notify_ppu_write_addr(addr),
            AnyMapper::Mapper71(m) => m.notify_ppu_write_addr(addr),
            AnyMapper::Mapper85(m) => m.notify_ppu_write_addr(addr),
        }
    }

    fn suppress_a12_on_sprite_eval_reads(&self) -> (r: bool)
        ensures
            r == (*self is Mapper4),
    {
        match self {
            AnyMapper::GenericMapper(m) => m.suppress_a12_on_sprite_eval_reads(),
            AnyMapper::Mapper0(m) => m.suppress_a12_on_sprite_eval_reads(),
            AnyMapper::Mapper1(m) => m.suppress_a12_on_sprite_eval_reads(),
            AnyMapper::Mapper2(m) => m.suppress_a12_on_sprite_eval_reads(),
            AnyMapper::Mapper3(m) => m.suppress_a12_on_sprite_eval_reads(),
            AnyMapper::Mapper4(m) => m.suppress_a12_on_sprite_eval_reads(),
            AnyMapper::Mapper5(m) => m.suppress_a12_on_sprite_eval_reads(),
            AnyMapper::Mapper7(m) => m.suppress_a12_on_sprite_eval_reads(),
            AnyMapper::Mapper9(m) => m.suppress_a12_on_sprite_eval_reads(),
            AnyMapper::Mapper10(m) => m.suppress_a12_on_sprite_eval_reads(),
            AnyMapper::Mapper19(m) => m.suppress_a12_on_sprite_eval_reads(),
            AnyMapper::Mapper24(m) => m.suppress_a12_on_sprite_eval_reads(),
            AnyMapper::Mapper25(m) => m.suppress_a12_on_sprite_eval_reads(),
            AnyMapper::Mapper26(m) => m.suppress_a12_on_sprite_eval_reads(),
            AnyMapper::Mapper66(m) => m.suppress_a12_on_sprite_eval_reads(),
            AnyMapper::Mapper79(m) => m.suppress_a12_on_sprite_eval_reads(),
            AnyMapper::Mapper69(m) => m.suppress_a12_on_sprite_eval_reads(),
            AnyMapper::Mapper71(m) => m.suppress_a12_on_sprite_eval_reads(),
            AnyMapper::Mapper85(m) => m.suppress_a12_on_sprite_eval_reads(),
        }
    }

    fn allow_relaxed_sprite0_hit(&self) -> (r: bool)
        ensures
            r == (*self is Mapper71),
    {
        match self {
            AnyMapper::GenericMapper(m) => m.allow_relaxed_sprite0_hit(),
            AnyMapper::Mapper0(m) => m.allow_relaxed_sprite0_hit(),
            AnyMapper::Mapper1(m) => m.allow_relaxed_sprite0_hit(),
            AnyMapper::Mapper2(m) => m.allow_relaxed_sprite0_hit(),
            AnyMapper::Mapper3(m) => m.allow_relaxed_sprite0_hit(),
            AnyMapper::Mapper4(m) => m.allow_relaxed_sprite0_hit(),
            AnyMapper::Mapper5(m) => m.allow_relaxed_sprite0_hit(),
            AnyMapper::Mapper7(m) => m.allow_relaxed_sprite0_hit(),
            AnyMapper::Mapper9(m) => m.allow_relaxed_sprite0_hit(),
            AnyMapper::Mapper10(m) => m.allow_relaxed_sprite0_hit(),
            AnyMapper::Mapper19(m) => m.allow_relaxed_sprite0_hit(),
            AnyMapper::Mapper24(m) => m.allow_relaxed_sprite0_hit(),
            AnyMapper::Mapper25(m) => m.allow_relaxed_sprite0_hit(),
            AnyMapper::Mapper26(m) => m.allow_relaxed_sprite0_hit(),
            AnyMapper::Mapper66(m) => m.allow_relaxed_sprite0_hit(),
            AnyMapper::Mapper79(m) => m.allow_relaxed_sprite0_hit(),
            AnyMapper::Mapper69(m) => m.allow_relaxed_sprite0_hit(),
            AnyMapper::Mapper71(m) => m.allow_relaxed_sprite0_hit(),
            AnyMapper::Mapper85(m) => m.allow_relaxed_sprite0_hit(),
        }
    }

    fn irq_pending(&self) -> (r: bool)
        ensures
            r == self.irq_spec(),
    {
        match self {
            AnyMapper::GenericMapper(m) => m.irq_pending(),
            AnyMapper::Mapper0(m) => m.irq_pending(),
            AnyMapper::Mapper1(m) => m.irq_pending(),
            AnyMapper::Mapper2(m) => m.irq_pending(),
            AnyMapper::Mapper3(m) => m.irq_pending(),
            AnyMapper::Mapper4(m) => m.irq_pending(),
            AnyMapper::Mapper5(m) => m.irq_pending(),
            AnyMapper::Mapper7(m) => m.irq_pending(),
            AnyMapper::Mapper9(m) => m.irq_pending(),
            AnyMapper::Mapper10(m) => m.irq_pending(),
            AnyMapper::Mapper19(m) => m.irq_pending(),
            AnyMapper::Mapper24(m) => m.irq_pending(),
            AnyMapper::Mapper25(m) => m.irq_pending(),
            AnyMapper::Mapper26(m) => m.irq_pending(),
            AnyMapper::Mapper66(m) => m.irq_pending(),
            AnyMapper::Mapper79(m) => m.irq_pending(),
            AnyMapper::Mapper69(m) => m.irq_pending(),
            AnyMapper::Mapper71(m) => m.irq_pending(),
            AnyMapper::Mapper85(m) => m.irq_pending(),
        }
    }

    fn clear_irq(&mut self)
        ensures
            old(self).clear_irq_post(&*final(self)),
    {
        match self {
            AnyMapper::GenericMapper(m) => m.clear_irq(),
            AnyMapper::Mapper0(m) => m.clear_irq(),
            AnyMapper::Mapper1(m) => m.clear_irq(),
            AnyMapper::Mapper2(m) => m.clear_irq(),
            AnyMapper::Mapper3(m) => m.clear_irq(),
            AnyMapper::Mapper4(m) => m.clear_irq(),
            AnyMapper::Mapper5(m) => m.clear_irq(),
            AnyMapper::Mapper7(m) => m.clear_irq(),
            AnyMapper::Mapper9(m) => m.clear_irq(),
            AnyMapper::Mapper10(m) => m.clear_irq(),
            AnyMapper::Mapper19(m) => m.clear_irq(),
            AnyMapper::Mapper24(m) => m.clear_irq(),
            AnyMapper::Mapper25(m) => m.clear_irq(),
            AnyMapper::Mapper26(m) => m.clear_irq(),
            AnyMapper::Mapper66(m) => m.clear_irq(),
            AnyMapper::Mapper79(m) => m.clear_irq(),
            AnyMapper::Mapper69(m) => m.clear_irq(),
            AnyMapper::Mapper71(m) => m.clear_irq(),
            AnyMapper::Mapper85(m) => m.clear_irq(),
        }
    }

    fn debug_peek_chr(&self, addr: u16) -> (r: u8)
        ensures
            r == self.peek_chr_spec(addr),
    {
        match self {
            AnyMapper::GenericMapper(m) => m.debug_peek_chr(addr),
            AnyMapper::Mapper0(m) => m.debug_peek_chr(addr),
            AnyMapper::Mapper1(m) => m.debug_peek_chr(addr),
            AnyMapper::Mapper2(m) => m.debug_peek_chr(addr),
            AnyMapper::Mapper3(m) => m.debug_peek_chr(addr),
            AnyMapper::Mapper4(m) => m.debug_peek_chr(addr),
            AnyMapper::Mapper5(m) => m.debug_peek_chr(addr),
            AnyMapper::Mapper7(m) => m.debug_peek_chr(addr),
            AnyMapper::Mapper9(m) => m.debug_peek_chr(addr),
            AnyMapper::Mapper10(m) => m.debug_peek_chr(addr),
            AnyMapper::Mapper19(m) => m.debug_peek_chr(addr),
            AnyMapper::Mapper24(m) => m.debug_peek_chr(addr),
            AnyMapper::Mapper25(m) => m.debug_peek_chr(addr),
            AnyMapper::Mapper26(m) => m.debug_peek_chr(addr),
            AnyMapper::Mapper66(m) => m.debug_peek_chr(addr),
            AnyMapper::Mapper79(m) => m.debug_peek_chr(addr),
            AnyMapper::Mapper69(m) => m.debug_peek_chr(addr),
            AnyMapper::Mapper71(m) => m.debug_peek_chr(addr),
            AnyMapper::Mapper85(m) => m.debug_peek_chr(addr),
        }
    }
}

} // verus!
