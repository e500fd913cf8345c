use vstd::prelude::*;

use super::{Mapper, Mirroring};
use super::bank::{
    bank_count, bank_count_spec, banked_read_spec, fresh_prg_ram, lemma_and_u16,
    lemma_bank_fits, lemma_ram_roundtrip, memory_ok, new_prg_ram, ram_read_spec,
    ram_write_spec, read_banked, read_ram, write_ram,
};
use crate::nes::cartridge::Cartridge;

verus! {

/// MMC3 (mapper 4): two switchable 8 KiB PRG banks, eight CHR banks in 2 KiB
/// and 1 KiB slots, and a scanline IRQ counter clocked by filtered rising
/// edges of PPU address line A12.
pub struct Mapper4 {
    pub prg_rom: Vec<u8>,
    pub chr: Vec<u8>,
    pub chr_is_ram: bool,
    pub prg_ram: Vec<u8>,
    pub bank_select: u8,
    pub bank_regs: [u8; 8],
    pub mirroring: Mirroring,
    pub four_screen: bool,
    pub irq_latch: u8,
    pub irq_counter: u8,
    pub irq_reload: bool,
    pub irq_enabled: bool,
    pub irq_pending: bool,
    pub last_a12: bool,
    pub a12_low_cycles: u8,
    pub debug_a12_high_samples: u64,
    pub debug_irq_clocks: u64,
}

impl Mapper4 {
    pub open spec fn wf(&self) -> bool {
        &&& memory_ok(self.prg_rom@)
        &&& memory_ok(self.chr@)
        &&& memory_ok(self.prg_ram@)
    }

    pub open spec fn initialized_from(&self, cart: &Cartridge) -> bool {
        &&& self.prg_rom@ == cart.prg_rom@
        &&& self.chr@ == cart.chr_data@
        &&& self.chr_is_ram == cart.chr_is_ram
        &&& self.prg_ram@ == fresh_prg_ram(cart.prg_ram_size)
        &&& self.bank_select == 0
        &&& self.bank_regs@ == Seq::new(8, |i: int| 0u8)
        &&& self.mirroring == cart.mirroring
        &&& self.four_screen == cart.four_screen
        &&& self.irq_latch == 0
        &&& self.irq_counter == 0
        &&& !self.irq_reload
        &&& !self.irq_enabled
        &&& !self.irq_pending
        &&& !self.last_a12
        &&& self.a12_low_cycles == 0
        &&& self.debug_a12_high_samples == 0
        &&& self.debug_irq_clocks == 0
    }

    pub fn new(cart: Cartridge) -> (m: Self)
        requires
            cart.wf(),
        ensures
            m.initialized_from(&cart),
            m.wf(),
    {
        let m = Self {
            prg_rom: cart.prg_rom,
            chr: cart.chr_data,
            chr_is_ram: cart.chr_is_ram,
            prg_ram: new_prg_ram(cart.prg_ram_size),
            bank_select: 0,
            bank_regs: [0; 8],
            mirroring: cart.mirroring,
            four_screen: cart.four_screen,
            irq_latch: 0,
            irq_counter: 0,
            irq_reload: false,
            irq_enabled: false,
            irq_pending: false,
            last_a12: false,
            a12_low_cycles: 0,
            debug_a12_high_samples: 0,
            debug_irq_clocks: 0,
        };
        assert(m.bank_regs@ =~= Seq::new(8, |i: int| 0u8));
        m
    }

    /// How many times the IRQ counter has been clocked (wrapping).
    pub fn debug_irq_clocks(&self) -> (r: u64)
        ensures
            r == self.debug_irq_clocks,
    {
        self.debug_irq_clocks
    }

    pub open spec fn prg_bank_count_spec(&self) -> nat {
        bank_count_spec(self.prg_rom@.len(), 0x2000)
    }

    pub fn prg_bank_count_8k(&self) -> (r: usize)
        ensures
            r == self.prg_bank_count_spec(),
            r >= 1,
    {
        bank_count(self.prg_rom.len(), 0x2000)
    }

    pub open spec fn chr_bank_count_spec(&self) -> nat {
        bank_count_spec(self.chr@.len(), 0x0400)
    }

    pub fn chr_bank_count_1k(&self) -> (r: usize)
        ensures
            r == self.chr_bank_count_spec(),
            r >= 1,
    {
        bank_count(self.chr.len(), 0x0400)
    }

    fn read_prg_bank_8k(&self, bank: usize, offset: usize) -> (r: u8)
        requires
            self.wf(),
            offset < 0x2000,
        ensures
            r == banked_read_spec(self.prg_rom@, bank as nat, 0x2000, offset as nat),
    {
        read_banked(&self.prg_rom, bank, 0x2000, offset)
    }

    /// The 8 KiB PRG bank of the window of `addr`: R6 at $8000 and the
    /// second-to-last bank at $C000, swapped when bank-select bit 6 is set; R7
    /// at $A000; the last bank at $E000.
    pub open spec fn prg_bank_for(&self, addr: u16) -> nat {
        let count = self.prg_bank_count_spec();
        let second_last: nat = if count >= 2 { (count - 2) as nat } else { 0 };
        let swapped = ((self.bank_select >> 6) & 0x01) != 0;
        if addr <= 0x9FFF {
            if !swapped { self.bank_regs@[6] as nat } else { second_last }
        } else if addr <= 0xBFFF {
            self.bank_regs@[7] as nat
        } else if addr <= 0xDFFF {
            if !swapped { second_last } else { self.bank_regs@[6] as nat }
        } else {
            (count - 1) as nat
        }
    }

    pub open spec fn cpu_read_value(&self, addr: u16) -> u8 {
        if 0x6000 <= addr <= 0x7FFF {
            ram_read_spec(self.prg_ram@, addr)
        } else if 0x8000 <= addr {
            banked_read_spec(self.prg_rom@, self.prg_bank_for(addr), 0x2000, (addr & 0x1FFF) as nat)
        } else {
            0
        }
    }

    /// Even/odd register pairs: $8000 bank select / bank data (R0 and R1 keep
    /// even values), $A000 mirroring (ignored on four-screen boards), $C000 IRQ
    /// latch / reload, $E000 IRQ disable and acknowledge / enable.
    pub open spec fn cpu_write_post(&self, post: &Self, addr: u16, value: u8) -> bool {
        let even = (addr & 1) == 0;
        if 0x6000 <= addr <= 0x7FFF {
            &&& post.prg_ram@ == ram_write_spec(self.prg_ram@, addr, value)
            &&& *post == Mapper4 { prg_ram: post.prg_ram, ..*self }
        } else if 0x8000 <= addr <= 0x9FFF {
            if even {
                *post == Mapper4 { bank_select: value, ..*self }
            } else {
                let target = (self.bank_select & 0x07) as int;
                &&& post.bank_regs@ == self.bank_regs@.update(
                    target,
                    if target <= 1 { value & 0xFE } else { value },
                )
                &&& *post == Mapper4 { bank_regs: post.bank_regs, ..*self }
            }
        } else if 0xA000 <= addr <= 0xBFFF {
            if even && !self.four_screen {
                *post == Mapper4 {
                    mirroring: if (value & 1) == 0 {
                        Mirroring::Vertical
                    } else {
                        Mirroring::Horizontal
                    },
                    ..*self
                }
            } else {
                *post == *self
            }
        } else if 0xC000 <= addr <= 0xDFFF {
            if even {
                *post == Mapper4 { irq_latch: value, ..*self }
            } else {
                *post == Mapper4 { irq_reload: true, ..*self }
            }
        } else if 0xE000 <= addr {
            if even {
                *post == Mapper4 { irq_enabled: false, irq_pending: false, ..*self }
            } else {
                *post == Mapper4 { irq_enabled: true, ..*self }
            }
        } else {
            *post == *self
        }
    }

    /// The CHR bank register value for a 1 KiB slot: R0 and R1 cover 2 KiB
    /// each and R2-R5 1 KiB each; bank-select bit 7 swaps the two halves.
    pub open spec fn chr_bank_for_slot(&self, slot: nat) -> u8 {
        let s = if (self.bank_select & 0x80) == 0 {
            slot
        } else {
            (slot + 4) % 8
        };
        let r0 = self.bank_regs@[0] & 0xFE;
        let r1 = self.bank_regs@[1] & 0xFE;
        if s == 0 {
            r0
        } else if s == 1 {
            r0.wrapping_add(1)
        } else if s == 2 {
            r1
        } else if s == 3 {
            r1.wrapping_add(1)
        } else {
            self.bank_regs@[(s - 2) as int]
        }
    }

    /// Index in CHR of a pattern address within $0000-$1FFF.
    pub open spec fn chr_index(&self, addr: u16) -> nat {
        ((((self.chr_bank_for_slot((addr / 0x0400) as nat) as nat) % self.chr_bank_count_spec())
            * 0x0400 + (addr & 0x03FF) as nat) % self.chr@.len()) as nat
    }

    fn map_chr_addr(&self, addr: u16) -> (r: usize)
        requires
            self.wf(),
            addr < 0x2000,
        ensures
            r == self.chr_index(addr),
            r < self.chr@.len(),
    {
        let r0 = self.bank_regs[0] & 0xFE;
        let r1 = self.bank_regs[1] & 0xFE;
        let r2 = self.bank_regs[2];
        let r3 = self.bank_regs[3];
        let r4 = self.bank_regs[4];
        let r5 = self.bank_regs[5];
        let banks: [u8; 8] = if (self.bank_select & 0x80) == 0 {
            [r0, r0.wrapping_add(1), r1, r1.wrapping_add(1), r2, r3, r4, r5]
        } else {
            [r2, r3, r4, r5, r0, r0.wrapping_add(1), r1, r1.wrapping_add(1)]
        };
        let slot = (addr as usize) / 0x0400;
        assert(banks@[slot as int] == self.chr_bank_for_slot(slot as nat));
        let len = self.chr.len();
        let count = self.chr_bank_count_1k();
        let bank = banks[slot] as usize % count;
        proof {
            lemma_bank_fits(len as nat, 0x0400, banks@[slot as int] as nat, 0);
            lemma_and_u16(addr, 0x03FF);
        }
        (bank * 0x0400 + (addr & 0x03FF) as usize) % len
    }

    pub open spec fn ppu_read_value(&self, addr: u16) -> u8 {
        self.chr@[self.chr_index(addr & 0x1FFF) as int]
    }

    pub open spec fn ppu_write_post(&self, post: &Self, addr: u16, value: u8) -> bool {
        if self.chr_is_ram {
            &&& post.chr@ == self.chr@.update(self.chr_index(addr & 0x1FFF) as int, value)
            &&& *post == Mapper4 { chr: post.chr, ..*self }
        } else {
            *post == *self
        }
    }

    /// One clock of the IRQ counter: reload from the latch when zero or when a
    /// reload is pending, else count down; reaching zero with IRQs enabled
    /// raises the IRQ.
    pub open spec fn clocked(self) -> Self {
        let counter = if self.irq_counter == 0 || self.irq_reload {
            self.irq_latch
        } else {
            (self.irq_counter - 1) as u8
        };
        Mapper4 {
            debug_irq_clocks: self.debug_irq_clocks.wrapping_add(1),
            irq_counter: counter,
            irq_reload: false,
            irq_pending: self.irq_pending || (counter == 0 && self.irq_enabled),
            ..self
        }
    }

    fn clock_irq_counter(&mut self)
        ensures
            *final(self) == old(self).clocked(),
    {
        self.debug_irq_clocks = self.debug_irq_clocks.wrapping_add(1);
        if self.irq_counter == 0 || self.irq_reload {
            self.irq_counter = self.irq_latch;
            self.irq_reload = false;
        } else {
            self.irq_counter = self.irq_counter.wrapping_sub(1);
        }
        if self.irq_counter == 0 && self.irq_enabled {
            self.irq_pending = true;
        }
    }

    /// The A12 filter on a PPU bus address: a low A12 counts a low sample
    /// (saturating); a high A12 after at least eight low samples, with A12 low
    /// before, clocks the IRQ counter; any high A12 clears the low count.
    pub open spec fn after_a12(self, addr: u16) -> Self {
        let a12 = (addr & 0x1000) != 0;
        let s = if a12 {
            Mapper4 { debug_a12_high_samples: self.debug_a12_high_samples.wrapping_add(1), ..self }
        } else {
            self
        };
        let t = if !a12 {
            Mapper4 { a12_low_cycles: s.a12_low_cycles.saturating_add(1), ..s }
        } else if !s.last_a12 && s.a12_low_cycles >= 8 {
            Mapper4 { a12_low_cycles: 0, ..s.clocked() }
        } else {
            Mapper4 { a12_low_cycles: 0, ..s }
        };
        Mapper4 { last_a12: a12, ..t }
    }

    fn monitor_ppu_a12(&mut self, addr: u16)
        ensures
            *final(self) == old(self).after_a12(addr),
    {
        let a12 = (addr & 0x1000) != 0;
        if a12 {
            self.debug_a12_high_samples = self.debug_a12_high_samples.wrapping_add(1);
        }
        if !a12 {
            self.a12_low_cycles = self.a12_low_cycles.saturating_add(1);
        } else if !self.last_a12 && self.a12_low_cycles >= 8 {
            self.clock_irq_counter();
            self.a12_low_cycles = 0;
        } else if a12 {
            self.a12_low_cycles = 0;
        }
        self.last_a12 = a12;
    }

    /// A byte written to PRG RAM reads back at the same address.
    pub proof fn law_prg_ram_roundtrip(m0: Self, m1: Self, addr: u16, value: u8)
        requires
            m0.wf(),
            0x6000 <= addr <= 0x7FFF,
            m0.cpu_write_post(&m1, addr, value),
        ensures
            m1.cpu_read_value(addr) == value,
    {
        lemma_ram_roundtrip(m0.prg_ram@, addr, value);
    }

    /// The four 8 KiB PRG windows. $A000-$BFFF shows the bank in R7 and
    /// $E000-$FFFF always the last bank. With bank-select bit 6 clear,
    /// $8000-$9FFF shows R6 and $C000-$DFFF the second-to-last bank; with it
    /// set the two swap.
    pub proof fn law_prg_windows(m: Self, a: u16)
        requires
            0x8000 <= a,
        ensures
            ({
                let c = m.prg_bank_count_spec();
                let second_last: nat = if c >= 2 {
                    (c - 2) as nat
                } else {
                    0
                };
                let off = (a & 0x1FFF) as nat;
                let swapped = ((m.bank_select >> 6) & 0x01) != 0;
                &&& a <= 0x9FFF && !swapped ==> m.cpu_read_value(a) == banked_read_spec(
                    m.prg_rom@,
                    m.bank_regs@[6] as nat,
                    0x2000,
                    off,
                )
                &&& a <= 0x9FFF && swapped ==> m.cpu_read_value(a) == banked_read_spec(
                    m.prg_rom@,
                    second_last,
                    0x2000,
                    off,
                )
                &&& 0xA000 <= a <= 0xBFFF ==> m.cpu_read_value(a) == banked_read_spec(
                    m.prg_rom@,
                    m.bank_regs@[7] as nat,
                    0x2000,
                    off,
                )
                &&& 0xC000 <= a <= 0xDFFF && !swapped ==> m.cpu_read_value(a) == banked_read_spec(
                    m.prg_rom@,
                    second_last,
                    0x2000,
                    off,
                )
                &&& 0xC000 <= a <= 0xDFFF && swapped ==> m.cpu_read_value(a) == banked_read_spec(
                    m.prg_rom@,
                    m.bank_regs@[6] as nat,
                    0x2000,
                    off,
                )
                &&& 0xE000 <= a ==> m.cpu_read_value(a) == banked_read_spec(
                    m.prg_rom@,
                    (c - 1) as nat,
                    0x2000,
                    off,
                )
            }),
    {
    }

    /// The eight 1 KiB CHR slots. With bank-select bit 7 clear, slots 0-1
    /// hold the 2 KiB bank of R0 (its even number, then the next), slots 2-3
    /// that of R1, and slots 4-7 the 1 KiB banks of R2-R5; with it set the
    /// two halves of the pattern space swap.
    pub proof fn law_chr_slots(m: Self)
        ensures
            ({
                let r0 = m.bank_regs@[0] & 0xFE;
                let r1 = m.bank_regs@[1] & 0xFE;
                let lo: nat = if (m.bank_select & 0x80) == 0 {
                    0
                } else {
                    4
                };
                let hi: nat = if (m.bank_select & 0x80) == 0 {
                    4
                } else {
                    0
                };
                &&& m.chr_bank_for_slot(lo) == r0
                &&& m.chr_bank_for_slot(lo + 1) == r0.wrapping_add(1)
                &&& m.chr_bank_for_slot(lo + 2) == r1
                &&& m.chr_bank_for_slot(lo + 3) == r1.wrapping_add(1)
                &&& m.chr_bank_for_slot(hi) == m.bank_regs@[2]
                &&& m.chr_bank_for_slot(hi + 1) == m.bank_regs@[3]
                &&& m.chr_bank_for_slot(hi + 2) == m.bank_regs@[4]
                &&& m.chr_bank_for_slot(hi + 3) == m.bank_regs@[5]
            }),
    {
    }

    /// Selecting register `sel` (its low three bits) through an even address
    /// of $8000-$9FFF and writing `v` through an odd one loads `v` into that
    /// register (R0 and R1 with the low bit cleared) and
    /// leaves the other seven.
    pub proof fn law_bank_data(m0: Self, m1: Self, m2: Self, a0: u16, a1: u16, sel: u8, v: u8)
        requires
            0x8000 <= a0 <= 0x9FFF,
            0x8000 <= a1 <= 0x9FFF,
            (a0 & 1) == 0,
            (a1 & 1) == 1,
            m0.cpu_write_post(&m1, a0, sel),
            m1.cpu_write_post(&m2, a1, v),
        ensures
            ({
                let t = (sel & 0x07) as int;
                &&& m2.bank_regs@[t] == if t <= 1 {
                    v & 0xFE
                } else {
                    v
                }
                &&& forall|i: int| 0 <= i < 8 && i != t ==> m2.bank_regs@[i] == m0.bank_regs@[i]
                &&& m2.bank_select == sel
            }),
    {
        crate::nes::apu::lemma_u8_fields(sel);
        assert(m1.bank_regs@.len() == 8);
        assert(m1.bank_regs == m0.bank_regs);
    }

    /// The IRQ counter on a clock: it reloads from the latch when it is zero
    /// or a reload was asked for, else it counts down by one; the IRQ rises
    /// when the counter is then zero with IRQs enabled, and a raised IRQ
    /// stays raised.
    pub proof fn law_irq_counter(m: Self)
        ensures
            ({
                let n = m.clocked();
                &&& m.irq_counter == 0 || m.irq_reload ==> n.irq_counter == m.irq_latch
                &&& m.irq_counter > 0 && !m.irq_reload ==> n.irq_counter == m.irq_counter - 1
                &&& !n.irq_reload
                &&& n.irq_pending == (m.irq_pending || (n.irq_counter == 0 && m.irq_enabled))
                &&& n.irq_latch == m.irq_latch && n.irq_enabled == m.irq_enabled
            }),
    {
    }

    /// A rising A12 after at least eight low samples, with A12 low before,
    /// clocks the IRQ counter once.
    pub proof fn law_a12_rise_clocks(m: Self, addr: u16)
        requires
            (addr & 0x1000) != 0,
            !m.last_a12,
            m.a12_low_cycles >= 8,
        ensures
            m.after_a12(addr).irq_counter == m.clocked().irq_counter,
            m.after_a12(addr).irq_pending == m.clocked().irq_pending,
            m.after_a12(addr).last_a12,
            m.after_a12(addr).a12_low_cycles == 0,
    {
    }

    /// A write to an even address of $A000-$BFFF sets vertical mirroring
    /// when its bit 0 is clear and horizontal when it is set, except on a
    /// four-screen board, which keeps its mirroring.
    pub proof fn law_mirroring_write(m0: Self, m1: Self, addr: u16, v: u8)
        requires
            0xA000 <= addr <= 0xBFFF,
            (addr & 1) == 0,
            m0.cpu_write_post(&m1, addr, v),
        ensures
            !m0.four_screen && (v & 1) == 0 ==> m1.mirroring == Mirroring::Vertical,
            !m0.four_screen && (v & 1) != 0 ==> m1.mirroring == Mirroring::Horizontal,
            m0.four_screen ==> m1 == m0,
    {
    }

    /// A12 rising edges are filtered: a high A12 that follows fewer than eight
    /// low samples leaves the IRQ counter, its reload flag and the IRQ as they were.
    pub proof fn law_a12_filter(m: Self, addr: u16)
        requires
            (addr & 0x1000) != 0,
            m.last_a12 || m.a12_low_cycles < 8,
        ensures
            m.after_a12(addr).irq_counter == m.irq_counter,
            m.after_a12(addr).irq_reload == m.irq_reload,
            m.after_a12(addr).irq_pending == m.irq_pending,
            m.after_a12(addr).a12_low_cycles == 0,
    {
    }
}

impl Mapper for Mapper4 {
    open spec fn chr_read_post(&self, post: &Self, addr: u16, r: u8) -> bool {
        r == self.ppu_read_value(addr) && *post == *self
    }

    open spec fn read_seen_post(&self, post: &Self, addr: u16) -> bool {
        *post == self.after_a12(addr)
    }

    open spec fn nametable_read_spec(&self, post: &Self, addr: u16, vram: Seq<u8>, r: Option<u8>) -> bool {
        r is None && *post == *self
    }

    open spec fn inv(&self) -> bool {
        self.wf()
    }

    open spec fn suppresses_a12_view(&self) -> bool {
        true
    }

    open spec fn relaxed_sprite0_view(&self) -> bool {
        false
    }

    open spec fn owns_nametables(&self) -> bool {
        false
    }

    open spec fn mirroring_view(&self) -> Mirroring {
        if self.four_screen { Mirroring::FourScreen } else { self.mirroring }
    }

    fn cpu_read(&mut self, addr: u16) -> (r: u8)
        ensures
            r == old(self).cpu_read_value(addr),
            *final(self) == *old(self),
    {
        if 0x6000 <= addr && addr <= 0x7FFF {
            read_ram(&self.prg_ram, addr)
        } else if 0x8000 <= addr {
            let prg_mode = (self.bank_select >> 6) & 0x01;
            let last = self.prg_bank_count_8k() - 1;
            let second_last = self.prg_bank_count_8k().saturating_sub(2);
            proof {
                lemma_and_u16(addr, 0x1FFF);
            }
            let offset = (addr & 0x1FFF) as usize;
            let bank = if addr <= 0x9FFF {
                if prg_mode == 0 {
                    self.bank_regs[6] as usize
                } else {
                    second_last
                }
            } else if addr <= 0xBFFF {
                self.bank_regs[7] as usize
            } else if addr <= 0xDFFF {
                if prg_mode == 0 {
                    second_last
                } else {
                    self.bank_regs[6] as usize
                }
            } else {
                last
            };
            self.read_prg_bank_8k(bank, offset)
        } else {
            0
        }
    }

    fn cpu_write(&mut self, addr: u16, value: u8)
        ensures
            old(self).cpu_write_post(&*final(self), addr, value),
    {
        if 0x6000 <= addr && addr <= 0x7FFF {
            write_ram(&mut self.prg_ram, addr, value);
        } else if 0x8000 <= addr && addr <= 0x9FFF {
            if (addr & 1) == 0 {
                self.bank_select = value;
            } else {
                let target = (self.bank_select & 0x07) as usize;
                proof {
                    super::bank::lemma_and_u8(self.bank_select, 0x07);
                }
                let v = if target <= 1 {
                    value & 0xFE
                } else {
                    value
                };
                { self.bank_regs[target] = v; }
            }
        } else if 0xA000 <= addr && addr <= 0xBFFF {
            if (addr & 1) == 0 && !self.four_screen {
                self.mirroring = if (value & 1) == 0 {
                    Mirroring::Vertical
                } else {
                    Mirroring::Horizontal
                };
            }
        } else if 0xC000 <= addr && addr <= 0xDFFF {
            if (addr & 1) == 0 {
                self.irq_latch = value;
            } else {
                self.irq_reload = true;
            }
        } else if 0xE000 <= addr {
            if (addr & 1) == 0 {
                self.irq_enabled = false;
                self.irq_pending = false;
            } else {
                self.irq_enabled = true;
            }
        }
    }

    fn ppu_read(&mut self, addr: u16) -> (r: u8)
        ensures
            r == old(self).ppu_read_value(addr),
            *final(self) == *old(self),
    {
        proof {
            lemma_and_u16(addr, 0x1FFF);
        }
        let mapped = self.map_chr_addr(addr & 0x1FFF);
        self.chr[mapped]
    }

    fn ppu_write(&mut self, addr: u16, value: u8)
        ensures
            old(self).ppu_write_post(&*final(self), addr, value),
    {
        if self.chr_is_ram {
            proof {
                lemma_and_u16(addr, 0x1FFF);
            }
            let mapped = self.map_chr_addr(addr & 0x1FFF);
            self.chr.set(mapped, value);
        }
    }

    fn mirroring(&self) -> (r: Mirroring)
        ensures
            r == (if self.four_screen { Mirroring::FourScreen } else { self.mirroring }),
    {
        if self.four_screen {
            Mirroring::FourScreen
        } else {
            self.mirroring
        }
    }

    fn notify_ppu_read_addr(&mut self, addr: u16)
        ensures
            *final(self) == old(self).after_a12(addr),
    {
        self.monitor_ppu_a12(addr);
    }

    fn notify_ppu_write_addr(&mut self, addr: u16)
        ensures
            *final(self) == old(self).after_a12(addr),
    {
        self.monitor_ppu_a12(addr);
    }

    fn suppress_a12_on_sprite_eval_reads(&self) -> (r: bool)
        ensures
            r,
    {
        true
    }

    fn irq_pending(&self) -> (r: bool)
        ensures
            r == self.irq_pending,
    {
        self.irq_pending
    }

    fn clear_irq(&mut self)
        ensures
            *final(self) == (Mapper4 { irq_pending: false, ..*old(self) }),
    {
        self.irq_pending = false;
    }

    fn allow_relaxed_sprite0_hit(&self) -> (r: bool) {
        false
    }

    fn ppu_nametable_read(&mut self, addr: u16, vram: &[u8; 4096]) -> (r: Option<u8>)
        ensures
            r is None,
            *final(self) == *old(self),
    {
        None
    }
}

} // verus!
