use vstd::prelude::*;

use super::mapper::Mirroring;
use super::mapper::bank::{memory_ok, zeroed};

verus! {

/// Why an iNES image was refused.
#[derive(Debug, Clone, Copy, PartialEq, Eq)]
pub enum CartridgeError {
    /// Shorter than the 16-byte header.
    TooSmall,
    /// The header does not start with "NES" and $1A.
    BadMagic,
    /// NES 2.0 exponent/multiplier size encoding, which is not supported.
    UnsupportedSizeEncoding,
    /// The file ends before the PRG ROM it announces; holds the expected size.
    PrgTruncated(usize),
    /// The file ends before the CHR ROM it announces; holds the expected size.
    ChrTruncated(usize),
    /// The PRG ROM is empty.
    EmptyPrg,
}

/// A decoded cartridge image.
#[derive(Debug, Clone)]
pub struct Cartridge {
    pub mapper_id: u16,
    pub submapper_id: u8,
    pub mirroring: Mirroring,
    pub four_screen: bool,
    pub has_battery_backed_ram: bool,
    pub prg_rom: Vec<u8>,
    pub chr_data: Vec<u8>,
    pub chr_is_ram: bool,
    pub prg_ram_size: usize,
}

pub open spec fn is_nes2(b: Seq<u8>) -> bool {
    (b[7] & 0x0C) == 0x08
}

pub open spec fn header_mapper_id(b: Seq<u8>) -> u16 {
    let low = (b[6] as u16 >> 4) | (b[7] as u16 & 0xF0);
    if is_nes2(b) {
        low | ((b[8] as u16 & 0x0F) << 8)
    } else {
        low
    }
}

pub open spec fn header_submapper_id(b: Seq<u8>) -> u8 {
    if is_nes2(b) {
        b[8] >> 4
    } else {
        0
    }
}

pub open spec fn header_four_screen(b: Seq<u8>) -> bool {
    (b[6] & 0x08) != 0
}

pub open spec fn header_mirroring(b: Seq<u8>) -> Mirroring {
    if header_four_screen(b) {
        Mirroring::FourScreen
    } else if (b[6] & 0x01) != 0 {
        Mirroring::Vertical
    } else {
        Mirroring::Horizontal
    }
}

pub open spec fn header_trainer(b: Seq<u8>) -> bool {
    (b[6] & 0x04) != 0
}

pub open spec fn header_battery(b: Seq<u8>) -> bool {
    (b[6] & 0x02) != 0
}

/// NES 2.0 images whose size nibbles select the exponent/multiplier encoding.
pub open spec fn header_exponent_sizes(b: Seq<u8>) -> bool {
    is_nes2(b) && ((b[9] & 0x0F) == 0x0F || (b[9] >> 4) == 0x0F)
}

/// PRG ROM size in bytes: 16 KiB units, at least one.
pub open spec fn header_prg_rom_size(b: Seq<u8>) -> nat {
    let units: nat = if is_nes2(b) {
        ((b[9] & 0x0F) as nat) * 256 + (b[4] as nat)
    } else {
        b[4] as nat
    };
    (if units >= 1 { units } else { 1 }) * 16384
}

/// CHR ROM size in bytes: 8 KiB units; zero means the board has CHR RAM.
pub open spec fn header_chr_rom_size(b: Seq<u8>) -> nat {
    let units: nat = if is_nes2(b) {
        ((b[9] >> 4) as nat) * 256 + (b[5] as nat)
    } else {
        b[5] as nat
    };
    units * 8192
}

/// PRG RAM size in bytes.
pub open spec fn header_prg_ram_size(b: Seq<u8>) -> nat {
    if is_nes2(b) {
        if (b[10] & 0x0F) == 0 {
            8192
        } else {
            (64usize << (b[10] & 0x0F)) as nat
        }
    } else {
        (if b[8] == 0 { 1 } else { b[8] as nat }) * 8192
    }
}

/// Offset of the PRG ROM: after the header and the optional 512-byte trainer.
pub open spec fn header_prg_offset(b: Seq<u8>) -> nat {
    if header_trainer(b) {
        16 + 512
    } else {
        16
    }
}

/// The first reason, in the order they are checked, to refuse an image.
pub open spec fn image_error(b: Seq<u8>) -> Option<CartridgeError> {
    if b.len() < 16 {
        Some(CartridgeError::TooSmall)
    } else if !(b[0] == 0x4E && b[1] == 0x45 && b[2] == 0x53 && b[3] == 0x1A) {
        Some(CartridgeError::BadMagic)
    } else if header_exponent_sizes(b) {
        Some(CartridgeError::UnsupportedSizeEncoding)
    } else if b.len() < header_prg_offset(b) + header_prg_rom_size(b) {
        Some(CartridgeError::PrgTruncated(header_prg_rom_size(b) as usize))
    } else if header_chr_rom_size(b) != 0 && b.len() < header_prg_offset(b)
        + header_prg_rom_size(b) + header_chr_rom_size(b) {
        Some(CartridgeError::ChrTruncated(header_chr_rom_size(b) as usize))
    } else {
        None
    }
}

impl Cartridge {
    /// What every board needs of a cartridge: a PRG ROM of whole 16 KiB banks,
    /// a non-empty CHR memory, and sizes no larger than a header can announce.
    pub open spec fn wf(&self) -> bool {
        &&& memory_ok(self.prg_rom@)
        &&& memory_ok(self.chr_data@)
        &&& self.prg_ram_size <= 0x1000_0000
    }

    /// The PRG ROM is a whole number of 16 KiB banks, as the boards that
    /// index it directly (NROM, UxROM, CNROM) need.
    pub open spec fn whole_prg_banks(&self) -> bool {
        self.prg_rom@.len() % 0x4000 == 0
    }

    /// The cartridge decoded from an image that `image_error` accepts.
    pub open spec fn decoded_from(&self, b: Seq<u8>) -> bool {
        let prg_start = header_prg_offset(b);
        let prg_end = prg_start + header_prg_rom_size(b);
        let chr_size = header_chr_rom_size(b);
        &&& self.mapper_id == header_mapper_id(b)
        &&& self.submapper_id == header_submapper_id(b)
        &&& self.mirroring == header_mirroring(b)
        &&& self.four_screen == header_four_screen(b)
        &&& self.has_battery_backed_ram == header_battery(b)
        &&& self.prg_rom@ == b.subrange(prg_start as int, prg_end as int)
        &&& self.chr_is_ram == (chr_size == 0)
        &&& (chr_size == 0 ==> self.chr_data@ == Seq::new(8192, |i: int| 0u8))
        &&& (chr_size != 0 ==> self.chr_data@ == b.subrange(prg_end as int, (prg_end + chr_size) as int))
        &&& self.prg_ram_size == header_prg_ram_size(b)
    }

    /// Decodes an iNES or NES 2.0 image. It is refused exactly when
    /// `image_error` names a reason, and then with that reason.
    pub fn from_bytes(bytes: &[u8]) -> (r: Result<Self, CartridgeError>)
        ensures
            r is Err <==> image_error(bytes@) is Some,
            r matches Err(e) ==> image_error(bytes@) == Some(e),
            r matches Ok(c) ==> c.decoded_from(bytes@) && c.wf() && c.whole_prg_banks(),
    {
        if bytes.len() < 16 {
            return Err(CartridgeError::TooSmall);
        }
        if !(bytes[0] == 0x4E && bytes[1] == 0x45 && bytes[2] == 0x53 && bytes[3] == 0x1A) {
            return Err(CartridgeError::BadMagic);
        }
        let flags6 = bytes[6];
        let flags7 = bytes[7];
        let is_nes2 = (flags7 & 0x0C) == 0x08;

        let mapper_id_low: u16 = ((flags6 as u16) >> 4) | ((flags7 as u16) & 0xF0);
        let mapper_id: u16 = if is_nes2 {
            mapper_id_low | (((bytes[8] as u16) & 0x0F) << 8)
        } else {
            mapper_id_low
        };
        let submapper_id: u8 = if is_nes2 {
            bytes[8] >> 4
        } else {
            0
        };
        let four_screen = (flags6 & 0x08) != 0;
        let mirroring = if four_screen {
            Mirroring::FourScreen
        } else if (flags6 & 0x01) != 0 {
            Mirroring::Vertical
        } else {
            Mirroring::Horizontal
        };
        let trainer_present = (flags6 & 0x04) != 0;
        let has_battery_backed_ram = (flags6 & 0x02) != 0;

        let prg_units: usize;
        let prg_rom_size: usize;
        let chr_rom_size: usize;
        let prg_ram_size: usize;
        if is_nes2 {
            let prg_msb: usize = (bytes[9] & 0x0F) as usize;
            let chr_msb: usize = (bytes[9] >> 4) as usize;
            if prg_msb == 0x0F || chr_msb == 0x0F {
                return Err(CartridgeError::UnsupportedSizeEncoding);
            }
            proof {
                lemma_nibble_bounds(bytes[9]);
            }
            let prg_units_raw: usize = prg_msb * 256 + bytes[4] as usize;
            prg_units = if prg_units_raw >= 1 {
                prg_units_raw
            } else {
                1
            };
            let chr_units: usize = chr_msb * 256 + bytes[5] as usize;
            let prg_shift: u8 = bytes[10] & 0x0F;
            proof {
                lemma_shift_bound(bytes[10]);
            }
            prg_ram_size = if prg_shift == 0 {
                8 * 1024
            } else {
                64usize << prg_shift
            };
            prg_rom_size = prg_units * 16 * 1024;
            chr_rom_size = chr_units * 8 * 1024;
        } else {
            prg_units = if bytes[4] >= 1 {
                bytes[4] as usize
            } else {
                1
            };
            let chr_units: usize = bytes[5] as usize;
            let prg_ram_units: usize = if bytes[8] == 0 {
                1
            } else {
                bytes[8] as usize
            };
            prg_rom_size = prg_units * 16 * 1024;
            chr_rom_size = chr_units * 8 * 1024;
            prg_ram_size = prg_ram_units * 8 * 1024;
        }
        assert(prg_rom_size == header_prg_rom_size(bytes@));
        assert(chr_rom_size == header_chr_rom_size(bytes@));
        assert(prg_ram_size == header_prg_ram_size(bytes@));

        let mut cursor: usize = 16;
        if trainer_present {
            cursor = cursor + 512;
        }
        if bytes.len() < cursor + prg_rom_size {
            return Err(CartridgeError::PrgTruncated(prg_rom_size));
        }
        let prg_rom_end = cursor + prg_rom_size;
        let prg_rom = copy_range(bytes, cursor, prg_rom_end);
        cursor = prg_rom_end;

        let chr_data: Vec<u8>;
        let chr_is_ram: bool;
        if chr_rom_size == 0 {
            chr_data = zeroed(8 * 1024);
            chr_is_ram = true;
            assert(chr_data@ == Seq::new(8192, |i: int| 0u8));
        } else {
            if bytes.len() < cursor + chr_rom_size {
                return Err(CartridgeError::ChrTruncated(chr_rom_size));
            }
            chr_data = copy_range(bytes, cursor, cursor + chr_rom_size);
            chr_is_ram = false;
        }

        if prg_rom.len() == 0 {
            return Err(CartridgeError::EmptyPrg);
        }
        proof {
            assert(prg_rom_size % 0x4000 == 0) by (nonlinear_arith)
                requires
                    prg_units * 16384 == prg_rom_size,
            {
            }
        }
        Ok(Cartridge {
            mapper_id,
            submapper_id,
            mirroring,
            four_screen,
            has_battery_backed_ram,
            prg_rom,
            chr_data,
            chr_is_ram,
            prg_ram_size,
        })
    }
}

proof fn lemma_nibble_bounds(x: u8)
    ensures
        (x & 0x0F) < 16,
        (x >> 4) < 16,
{
    assert((x & 0x0F) < 16) by (bit_vector);
    assert((x >> 4) < 16) by (bit_vector);
}

proof fn lemma_shift_bound(x: u8)
    ensures
        (x & 0x0F) <= 15,
        (x & 0x0F) != 0 ==> (64usize << (x & 0x0F)) <= 0x200000,
{
    assert((x & 0x0F) <= 15) by (bit_vector);
    assert((x & 0x0F) != 0 ==> (64usize << (x & 0x0F)) <= 0x200000) by (bit_vector);
}

/// The bytes `bytes[start..end]`.
fn copy_range(bytes: &[u8], start: usize, end: usize) -> (v: Vec<u8>)
    requires
        start <= end <= bytes@.len(),
    ensures
        v@ == bytes@.subrange(start as int, end as int),
{
    let mut v: Vec<u8> = Vec::with_capacity(end - start);
    let mut i: usize = start;
    while i < end
        invariant
            start <= i <= end <= bytes@.len(),
            v@ == bytes@.subrange(start as int, i as int),
        decreases end - i,
    {
        v.push(bytes[i]);
        i = i + 1;
    }
    v
}

} // verus!
