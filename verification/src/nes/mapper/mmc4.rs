use vstd::prelude::*;

use super::{Mapper, Mirroring};
use super::bank::{
    bank_count, bank_count_spec, banked_read_spec, fresh_prg_ram, lemma_and_u16, lemma_bank_fits,
    lemma_ram_roundtrip, memory_ok, new_prg_ram, ram_read_spec, ram_write_spec, read_banked,
    read_ram, write_ram,
};
use super::mmc2::latches_after;
use crate::nes::cartridge::Cartridge;

verus! {

/// MMC4 (mapper 10): a switchable 16 KiB PRG bank at $8000, the last bank
/// fixed at $C000, and two 4 KiB CHR windows whose banks are switched by latches that
/// PPU fetches of tiles $FD/$FE flip.
pub struct Mapper10 {
    pub prg_rom: Vec<u8>,
    pub chr: Vec<u8>,
    pub chr_is_ram: bool,
    pub prg_ram: Vec<u8>,
    pub prg_bank: u8,
    pub chr_fd_0000: u8,
    pub chr_fe_0000: u8,
    pub chr_fd_1000: u8,
    pub chr_fe_1000: u8,
    pub latch0_is_fe: bool,
    pub latch1_is_fe: bool,
    pub mirroring: Mirroring,
}

impl Mapper10 {
    pub open spec fn wf(&self) -> bool {
        &&& memory_ok(self.prg_rom@)
        &&& memory_ok(self.chr@)
        &&& memory_ok(self.prg_ram@)
    }

    pub open spec fn initialized_from(&self, cart: &Cartridge) -> bool {
        &&& self.prg_rom@ == cart.prg_rom@
        &&& self.chr@ == cart.chr_data@
        &&& self.chr_is_ram == cart.chr_is_ram
        &&& self.prg_ram@ == fresh_prg_ram(cart.prg_ram_size)
        &&& self.prg_bank == 0
        &&& self.chr_fd_0000 == 0
        &&& self.chr_fe_0000 == 0
        &&& self.chr_fd_1000 == 0
        &&& self.chr_fe_1000 == 0
        &&& self.latch0_is_fe
        &&& self.latch1_is_fe
        &&& self.mirroring == cart.mirroring
    }

    pub fn new(cart: Cartridge) -> (m: Self)
        requires
            cart.wf(),
        ensures
            m.initialized_from(&cart),
            m.wf(),
    {
        Self {
            prg_rom: cart.prg_rom,
            chr: cart.chr_data,
            chr_is_ram: cart.chr_is_ram,
            prg_ram: new_prg_ram(cart.prg_ram_size),
            prg_bank: 0,
            chr_fd_0000: 0,
            chr_fe_0000: 0,
            chr_fd_1000: 0,
            chr_fe_1000: 0,
            latch0_is_fe: true,
            latch1_is_fe: true,
            mirroring: cart.mirroring,
        }
    }

    pub open spec fn prg_bank_count_spec(&self) -> nat {
        bank_count_spec(self.prg_rom@.len(), 0x4000)
    }

    pub fn prg_bank_count_16k(&self) -> (r: usize)
        ensures
            r == self.prg_bank_count_spec(),
            r >= 1,
    {
        bank_count(self.prg_rom.len(), 0x4000)
    }

    fn read_prg_16k(&self, bank: usize, offset: usize) -> (r: u8)
        requires
            self.wf(),
            offset < 0x4000,
        ensures
            r == banked_read_spec(self.prg_rom@, bank as nat, 0x4000, offset as nat),
    {
        read_banked(&self.prg_rom, bank, 0x4000, offset)
    }

    pub open spec fn chr_bank_count_spec(&self) -> nat {
        bank_count_spec(self.chr@.len(), 0x1000)
    }

    pub fn chr_bank_count_4k(&self) -> (r: usize)
        ensures
            r == self.chr_bank_count_spec(),
            r >= 1,
    {
        bank_count(self.chr.len(), 0x1000)
    }

    /// The CHR bank register that the latch of the window of `addr` selects.
    pub open spec fn chr_bank_for(&self, addr: u16) -> u8 {
        if addr < 0x1000 {
            if self.latch0_is_fe {
                self.chr_fe_0000
            } else {
                self.chr_fd_0000
            }
        } else if self.latch1_is_fe {
            self.chr_fe_1000
        } else {
            self.chr_fd_1000
        }
    }

    /// Index in CHR of a pattern address (within $0000-$1FFF): the latched
    /// bank, taken modulo the 4 KiB bank count.
    pub open spec fn chr_index(&self, addr: u16) -> nat {
        (((self.chr_bank_for(addr) as nat % self.chr_bank_count_spec()) * 0x1000 + (addr
            & 0x0FFF) as nat) % self.chr@.len()) as nat
    }

    fn map_chr_addr(&self, addr: u16) -> (r: usize)
        requires
            self.wf(),
        ensures
            r == self.chr_index(addr),
            r < self.chr@.len(),
    {
        let bank = if addr < 0x1000 {
            if self.latch0_is_fe {
                self.chr_fe_0000
            } else {
                self.chr_fd_0000
            }
        } else if self.latch1_is_fe {
            self.chr_fe_1000
        } else {
            self.chr_fd_1000
        } as usize;
        let len = self.chr.len();
        let bank = bank % self.chr_bank_count_4k();
        proof {
            lemma_bank_fits(len as nat, 0x1000, bank as nat, 0);
            lemma_and_u16(addr, 0x0FFF);
        }
        let offset = (addr & 0x0FFF) as usize;
        (bank * 0x1000 + offset) % len
    }

    fn update_latches(&mut self, addr: u16)
        ensures
            (final(self).latch0_is_fe, final(self).latch1_is_fe) == latches_after(
                old(self).latch0_is_fe,
                old(self).latch1_is_fe,
                addr,
            ),
            *final(self) == (Mapper10 {
                latch0_is_fe: final(self).latch0_is_fe,
                latch1_is_fe: final(self).latch1_is_fe,
                ..*old(self)
            }),
    {
        if addr == 0x0FD8 {
            self.latch0_is_fe = false;
        } else if addr == 0x0FE8 {
            self.latch0_is_fe = true;
        } else if 0x1FD8 <= addr && addr <= 0x1FDF {
            self.latch1_is_fe = false;
        } else if 0x1FE8 <= addr && addr <= 0x1FEF {
            self.latch1_is_fe = true;
        }
    }

    pub open spec fn cpu_read_value(&self, addr: u16) -> u8 {
        if 0x6000 <= addr <= 0x7FFF {
            ram_read_spec(self.prg_ram@, addr)
        } else if 0x8000 <= addr <= 0xBFFF {
            banked_read_spec(self.prg_rom@, self.prg_bank as nat, 0x4000, (addr - 0x8000) as nat)
        } else if 0xC000 <= addr {
            banked_read_spec(
                self.prg_rom@,
                (self.prg_bank_count_spec() - 1) as nat,
                0x4000,
                (addr - 0xC000) as nat,
            )
        } else {
            0
        }
    }

    pub open spec fn cpu_write_post(&self, post: &Self, addr: u16, value: u8) -> bool {
        if 0x6000 <= addr <= 0x7FFF {
            &&& post.prg_ram@ == ram_write_spec(self.prg_ram@, addr, value)
            &&& *post == Mapper10 { prg_ram: post.prg_ram, ..*self }
        } else if 0xA000 <= addr <= 0xAFFF {
            *post == Mapper10 { prg_bank: value & 0x0F, ..*self }
        } else if 0xB000 <= addr <= 0xBFFF {
            *post == Mapper10 { chr_fd_0000: value & 0x1F, ..*self }
        } else if 0xC000 <= addr <= 0xCFFF {
            *post == Mapper10 { chr_fe_0000: value & 0x1F, ..*self }
        } else if 0xD000 <= addr <= 0xDFFF {
            *post == Mapper10 { chr_fd_1000: value & 0x1F, ..*self }
        } else if 0xE000 <= addr <= 0xEFFF {
            *post == Mapper10 { chr_fe_1000: value & 0x1F, ..*self }
        } else if 0xF000 <= addr {
            *post == Mapper10 {
                mirroring: if (value & 0x01) == 0 {
                    Mirroring::Vertical
                } else {
                    Mirroring::Horizontal
                },
                ..*self
            }
        } else {
            *post == *self
        }
    }

    pub open spec fn ppu_read_value(&self, addr: u16) -> u8 {
        self.chr@[self.chr_index(addr & 0x1FFF) as int]
    }

    pub open spec fn ppu_write_post(&self, post: &Self, addr: u16, value: u8) -> bool {
        if self.chr_is_ram {
            &&& post.chr@ == self.chr@.update(self.chr_index(addr & 0x1FFF) as int, value)
            &&& *post == Mapper10 { chr: post.chr, ..*self }
        } else {
            *post == *self
        }
    }

    /// A PPU fetch moves the latches and nothing else.
    pub open spec fn notify_read_post(&self, post: &Self, addr: u16) -> bool {
        let (l0, l1) = latches_after(self.latch0_is_fe, self.latch1_is_fe, addr & 0x1FFF);
        *post == Mapper10 { latch0_is_fe: l0, latch1_is_fe: l1, ..*self }
    }

    /// The latches: a PPU fetch of $0FD8 or $0FE8 makes the lower pattern
    /// table show the 4 KiB bank of the $FD or $FE register for $0000, and a
    /// fetch of $1FD8-$1FDF or $1FE8-$1FEF does the same for the upper table
    /// with the $1000 registers (bank numbers wrapping at the bank count);
    /// any other fetch changes nothing.
    pub proof fn law_latch_switch(m0: Self, m1: Self, addr: u16, a: u16)
        requires
            m0.notify_read_post(&m1, addr),
        ensures
            ({
                let f = addr & 0x1FFF;
                let len = m0.chr@.len() as int;
                let c = m0.chr_bank_count_spec() as int;
                let lower = (a & 0x1FFF) < 0x1000;
                let off = ((a & 0x1FFF) & 0x0FFF) as int;
                &&& f == 0x0FD8 && lower ==> m1.ppu_read_value(a) == m0.chr@[((m0.chr_fd_0000 as int
                    % c) * 0x1000 + off) % len]
                &&& f == 0x0FE8 && lower ==> m1.ppu_read_value(a) == m0.chr@[((m0.chr_fe_0000 as int
                    % c) * 0x1000 + off) % len]
                &&& 0x1FD8 <= f <= 0x1FDF && !lower ==> m1.ppu_read_value(a) == m0.chr@[((
                m0.chr_fd_1000 as int % c) * 0x1000 + off) % len]
                &&& 0x1FE8 <= f <= 0x1FEF && !lower ==> m1.ppu_read_value(a) == m0.chr@[((
                m0.chr_fe_1000 as int % c) * 0x1000 + off) % len]
                &&& !(f == 0x0FD8 || f == 0x0FE8 || 0x1FD8 <= f <= 0x1FDF || 0x1FE8 <= f <= 0x1FEF)
                    ==> m1 == m0
            }),
    {
    }

    /// The PRG windows: $8000-$BFFF shows the 16 KiB bank of the PRG
    /// register, $C000-$FFFF the last bank.
    pub proof fn law_prg_windows(m: Self, a: u16)
        requires
            0x8000 <= a,
        ensures
            a <= 0xBFFF ==> m.cpu_read_value(a) == banked_read_spec(
                m.prg_rom@,
                m.prg_bank as nat,
                0x4000,
                (a - 0x8000) as nat,
            ),
            0xC000 <= a ==> m.cpu_read_value(a) == banked_read_spec(
                m.prg_rom@,
                (bank_count_spec(m.prg_rom@.len(), 0x4000) - 1) as nat,
                0x4000,
                (a - 0xC000) as nat,
            ),
    {
    }

    /// A byte written to PRG RAM reads back at the same address.
    pub proof fn law_prg_ram_roundtrip(m0: Self, m1: Self, addr: u16, value: u8)
        requires
            m0.wf(),
            0x6000 <= addr <= 0x7FFF,
            m0.cpu_write_post(&m1, addr, value),
        ensures
            m1.cpu_read_value(addr) == value,
    {
        lemma_ram_roundtrip(m0.prg_ram@, addr, value);
    }

    /// After the PPU fetches $0FD8 the lower window shows the $FD bank; after
    /// $0FE8 it shows the $FE bank.
    pub proof fn law_lower_latch(m0: Self, m1: Self, addr: u16, fetch: u16)
        requires
            m0.notify_read_post(&m1, fetch),
            (fetch & 0x1FFF) == 0x0FD8 || (fetch & 0x1FFF) == 0x0FE8,
            addr < 0x1000,
        ensures
            (fetch & 0x1FFF) == 0x0FD8 ==> m1.chr_bank_for(addr) == m0.chr_fd_0000,
            (fetch & 0x1FFF) == 0x0FE8 ==> m1.chr_bank_for(addr) == m0.chr_fe_0000,
    {
    }
}

impl Mapper for Mapper10 {
    open spec fn chr_read_post(&self, post: &Self, addr: u16, r: u8) -> bool {
        r == self.ppu_read_value(addr) && *post == *self
    }

    open spec fn read_seen_post(&self, post: &Self, addr: u16) -> bool {
        self.notify_read_post(post, addr)
    }

    open spec fn nametable_read_spec(&self, post: &Self, addr: u16, vram: Seq<u8>, r: Option<u8>) -> bool {
        r is None && *post == *self
    }

    open spec fn inv(&self) -> bool {
        self.wf()
    }

    open spec fn suppresses_a12_view(&self) -> bool {
        false
    }

    open spec fn relaxed_sprite0_view(&self) -> bool {
        false
    }

    open spec fn owns_nametables(&self) -> bool {
        false
    }

    open spec fn mirroring_view(&self) -> Mirroring {
        self.mirroring
    }

    fn cpu_read(&mut self, addr: u16) -> (r: u8)
        ensures
            r == old(self).cpu_read_value(addr),
            *final(self) == *old(self),
    {
        if 0x6000 <= addr && addr <= 0x7FFF {
            read_ram(&self.prg_ram, addr)
        } else if 0x8000 <= addr && addr <= 0xBFFF {
            self.read_prg_16k(self.prg_bank as usize, addr as usize - 0x8000)
        } else if 0xC000 <= addr {
            let last = self.prg_bank_count_16k().saturating_sub(1);
            self.read_prg_16k(last, addr as usize - 0xC000)
        } else {
            0
        }
    }

    fn cpu_write(&mut self, addr: u16, value: u8)
        ensures
            old(self).cpu_write_post(&*final(self), addr, value),
    {
        if 0x6000 <= addr && addr <= 0x7FFF {
            write_ram(&mut self.prg_ram, addr, value);
        } else if 0xA000 <= addr && addr <= 0xAFFF {
            self.prg_bank = value & 0x0F;
        } else if 0xB000 <= addr && addr <= 0xBFFF {
            self.chr_fd_0000 = value & 0x1F;
        } else if 0xC000 <= addr && addr <= 0xCFFF {
            self.chr_fe_0000 = value & 0x1F;
        } else if 0xD000 <= addr && addr <= 0xDFFF {
            self.chr_fd_1000 = value & 0x1F;
        } else if 0xE000 <= addr && addr <= 0xEFFF {
            self.chr_fe_1000 = value & 0x1F;
        } else if 0xF000 <= addr {
            self.mirroring = if (value & 0x01) == 0 {
                Mirroring::Vertical
            } else {
                Mirroring::Horizontal
            };
        }
    }

    fn ppu_read(&mut self, addr: u16) -> (r: u8)
        ensures
            r == old(self).ppu_read_value(addr),
            *final(self) == *old(self),
    {
        let idx = self.map_chr_addr(addr & 0x1FFF);
        self.chr[idx]
    }

    fn ppu_write(&mut self, addr: u16, value: u8)
        ensures
            old(self).ppu_write_post(&*final(self), addr, value),
    {
        if self.chr_is_ram {
            let idx = self.map_chr_addr(addr & 0x1FFF);
            self.chr.set(idx, value);
        }
    }

    fn mirroring(&self) -> (r: Mirroring)
        ensures
            r == self.mirroring,
    {
        self.mirroring
    }

    fn notify_ppu_read_addr(&mut self, addr: u16)
        ensures
            old(self).notify_read_post(&*final(self), addr),
    {
        self.update_latches(addr & 0x1FFF);
    }

    fn suppress_a12_on_sprite_eval_reads(&self) -> (r: bool) {
        false
    }

    fn allow_relaxed_sprite0_hit(&self) -> (r: bool) {
        false
    }

    fn ppu_nametable_read(&mut self, addr: u16, vram: &[u8; 4096]) -> (r: Option<u8>)
        ensures
            r is None,
            *final(self) == *old(self),
    {
        None
    }
}

} // verus!
