use cathode8::nes::cartridge::Cartridge;
use cathode8::nes::mapper::{
    Mapper, Mapper1, Mapper10, Mapper19, Mapper2, Mapper3, Mapper4, Mapper5, Mapper66, Mapper69,
    Mapper7, Mapper71, Mapper79, Mapper9, Mirroring,
};
use cathode8::nes::mapper::{create_mapper, AnyMapper};
use cathode8::nes::ppu::Ppu;

fn patterned_banks(total_size: usize, bank_size: usize) -> Vec<u8> {
    let mut data = vec![0u8; total_size];
    for (bank, chunk) in data.chunks_mut(bank_size).enumerate() {
        chunk.fill((bank as u8).wrapping_add(1));
    }
    data
}

fn make_cart(
    mapper_id: u16,
    submapper_id: u8,
    prg_rom: Vec<u8>,
    chr_data: Vec<u8>,
    chr_is_ram: bool,
) -> Cartridge {
    Cartridge {
        mapper_id,
        submapper_id,
        mirroring: Mirroring::Horizontal,
        four_screen: false,
        has_battery_backed_ram: false,
        prg_rom,
        chr_data,
        chr_is_ram,
        prg_ram_size: 8 * 1024,
    }
}

fn run_mmc3_irq_approximation_cycle(ctrl: u8) -> u64 {
    let prg = patterned_banks(4 * 0x2000, 0x2000);
    let chr = patterned_banks(8 * 0x0400, 0x0400);
    let mut mapper = Mapper4::new(make_cart(4, 0, prg, chr, false));
    let mut ppu = Ppu::new();

    ppu.cpu_write_register(0x2000, ctrl, &mut mapper);
    ppu.cpu_write_register(0x2001, 0x18, &mut mapper);

    for _ in 0..700 {
        ppu.tick(&mut mapper);
    }

    mapper.debug_irq_clocks
}

#[test]
fn mapper2_keeps_last_bank_fixed() {
    let prg = patterned_banks(3 * 0x4000, 0x4000);
    let chr = vec![0; 0x2000];
    let mut mapper = Mapper2::new(make_cart(2, 0, prg, chr, false));

    mapper.cpu_write(0x8000, 1);
    assert_eq!(mapper.cpu_read(0x8000), 2);
    assert_eq!(mapper.cpu_read(0xC000), 3);
}

#[test]
fn mapper3_switches_chr_bank() {
    let prg = patterned_banks(0x8000, 0x4000);
    let chr = patterned_banks(2 * 0x2000, 0x2000);
    let mut mapper = Mapper3::new(make_cart(3, 0, prg, chr, false));

    mapper.cpu_write(0x8000, 1);
    assert_eq!(mapper.ppu_read(0x0000), 2);
}

#[test]
fn mapper3_allows_chr_ram_writes_when_present() {
    let prg = patterned_banks(0x8000, 0x4000);
    let chr = vec![0; 2 * 0x2000];
    let mut mapper = Mapper3::new(make_cart(3, 0, prg, chr, true));

    mapper.cpu_write(0x8000, 1);
    mapper.ppu_write(0x0010, 0xAB);
    assert_eq!(mapper.ppu_read(0x0010), 0xAB);
}

#[test]
fn mapper4_irq_a12_edge_filtering() {
    let prg = patterned_banks(4 * 0x2000, 0x2000);
    let chr = patterned_banks(8 * 0x0400, 0x0400);
    let mut mapper = Mapper4::new(make_cart(4, 0, prg, chr, false));

    mapper.cpu_write(0xC000, 0x01);
    mapper.cpu_write(0xC001, 0x00);
    mapper.cpu_write(0xE001, 0x00);

    for _ in 0..8 {
        mapper.notify_ppu_read_addr(0x0000);
    }
    mapper.notify_ppu_read_addr(0x1000);
    assert!(!mapper.irq_pending());

    for _ in 0..8 {
        mapper.notify_ppu_read_addr(0x0000);
    }
    mapper.notify_ppu_read_addr(0x1000);
    assert!(mapper.irq_pending());
}

#[test]
fn mapper4_ppu_irq_approximation_supports_both_table_polarities() {
    // BG=$0000, sprites=$1000.
    let sprite_high_clocks = run_mmc3_irq_approximation_cycle(0x08);
    assert!(sprite_high_clocks > 0);

    // BG=$1000, sprites=$0000.
    let bg_high_clocks = run_mmc3_irq_approximation_cycle(0x10);
    assert!(bg_high_clocks > 0);
}

#[test]
fn mapper5_prg_banking_and_ram_protection() {
    let prg = patterned_banks(16 * 0x2000, 0x2000);
    let chr = patterned_banks(8 * 0x0400, 0x0400);
    let mut mapper = Mapper5::new(make_cart(5, 0, prg, chr, false));

    mapper.cpu_write(0x5100, 0x03);
    mapper.cpu_write(0x5114, 0x82);
    mapper.cpu_write(0x5115, 0x83);
    mapper.cpu_write(0x5116, 0x84);
    mapper.cpu_write(0x5117, 0x8F);

    assert_eq!(mapper.cpu_read(0x8000), 3);
    assert_eq!(mapper.cpu_read(0xA000), 4);
    assert_eq!(mapper.cpu_read(0xC000), 5);
    assert_eq!(mapper.cpu_read(0xE000), 16);

    mapper.cpu_write(0x5102, 0x02);
    mapper.cpu_write(0x5103, 0x01);
    mapper.cpu_write(0x5113, 0x00);
    mapper.cpu_write(0x6000, 0xAA);
    assert_eq!(mapper.cpu_read(0x6000), 0xAA);

    mapper.cpu_write(0x5102, 0x00);
    mapper.cpu_write(0x6000, 0x55);
    assert_eq!(mapper.cpu_read(0x6000), 0xAA);
}

#[test]
fn mapper5_nametable_modes_and_scanline_irq() {
    let prg = patterned_banks(8 * 0x2000, 0x2000);
    let chr = patterned_banks(8 * 0x0400, 0x0400);
    let mut mapper = Mapper5::new(make_cart(5, 0, prg, chr, false));
    let mut vram = [0u8; 4096];

    mapper.cpu_write(0x5105, 0b11_10_01_00);
    mapper.cpu_write(0x5104, 0x00);
    mapper.cpu_write(0x5106, 0x2A);
    mapper.cpu_write(0x5107, 0x03);
    mapper.cpu_write(0x5C12, 0x77);

    vram[0x0005] = 0x11;
    vram[0x0406] = 0x22;
    assert_eq!(mapper.ppu_nametable_read(0x2005, &vram), Some(0x11));
    assert_eq!(mapper.ppu_nametable_read(0x2406, &vram), Some(0x22));
    assert_eq!(mapper.ppu_nametable_read(0x2812, &vram), Some(0x77));
    assert_eq!(mapper.ppu_nametable_read(0x2C00, &vram), Some(0x2A));
    assert_eq!(mapper.ppu_nametable_read(0x2FC0, &vram), Some(0xFF));

    mapper.cpu_write(0x5104, 0x02);
    assert_eq!(mapper.ppu_nametable_read(0x2812, &vram), Some(0x00));

    mapper.cpu_write(0x5203, 0x01);
    mapper.cpu_write(0x5204, 0x80);
    for _ in 0..3 {
        mapper.notify_ppu_read_addr(0x2000);
    }
    mapper.notify_ppu_read_addr(0x23C0);
    assert!(!mapper.irq_pending());

    for _ in 0..3 {
        mapper.notify_ppu_read_addr(0x2000);
    }
    mapper.notify_ppu_read_addr(0x23C0);
    assert!(mapper.irq_pending());

    let status = mapper.cpu_read(0x5204);
    assert_eq!(status & 0x80, 0x80);
    assert!(!mapper.irq_pending());
}

#[test]
fn mapper7_switches_prg_and_onescreen_mirroring() {
    let prg = patterned_banks(2 * 0x8000, 0x8000);
    let chr = patterned_banks(0x2000, 0x2000);
    let mut mapper = Mapper7::new(make_cart(7, 0, prg, chr, false));

    mapper.cpu_write(0x8000, 0x11);
    assert_eq!(mapper.cpu_read(0x8000), 2);
    assert_eq!(mapper.mirroring(), Mirroring::OneScreenUpper);
}

#[test]
fn mapper9_latches_control_chr_windows() {
    let prg = patterned_banks(4 * 0x2000, 0x2000);
    let chr = patterned_banks(8 * 0x1000, 0x1000);
    let mut mapper = Mapper9::new(make_cart(9, 0, prg, chr, false));

    mapper.cpu_write(0xB000, 0x01);
    mapper.cpu_write(0xC000, 0x02);
    mapper.cpu_write(0xD000, 0x03);
    mapper.cpu_write(0xE000, 0x04);

    assert_eq!(mapper.ppu_read(0x0000), 3);
    mapper.notify_ppu_read_addr(0x0FD8);
    assert_eq!(mapper.ppu_read(0x0000), 2);

    assert_eq!(mapper.ppu_read(0x1000), 5);
    mapper.notify_ppu_read_addr(0x1FD8);
    assert_eq!(mapper.ppu_read(0x1000), 4);
}

#[test]
fn mapper10_switches_prg_and_chr_latches() {
    let prg = patterned_banks(3 * 0x4000, 0x4000);
    let chr = patterned_banks(8 * 0x1000, 0x1000);
    let mut mapper = Mapper10::new(make_cart(10, 0, prg, chr, false));

    mapper.cpu_write(0xA000, 0x01);
    assert_eq!(mapper.cpu_read(0x8000), 2);
    assert_eq!(mapper.cpu_read(0xC000), 3);

    mapper.cpu_write(0xB000, 0x00);
    mapper.cpu_write(0xC000, 0x01);
    assert_eq!(mapper.ppu_read(0x0000), 2);
    mapper.notify_ppu_read_addr(0x0FD8);
    assert_eq!(mapper.ppu_read(0x0000), 1);
}

#[test]
fn mapper19_nametable_chr_mapping_and_irq_counter() {
    let prg = patterned_banks(8 * 0x2000, 0x2000);
    let chr = patterned_banks(16 * 0x0400, 0x0400);
    let mut mapper = Mapper19::new(make_cart(19, 0, prg, chr, false));
    let mut vram = [0u8; 4096];

    mapper.cpu_write(0xC000, 0xE0);
    vram[0x0010] = 0x33;
    assert_eq!(mapper.ppu_nametable_read(0x2010, &vram), Some(0x33));
    assert!(mapper.ppu_nametable_write(0x2020, 0x44, &mut vram));
    assert_eq!(vram[0x0020], 0x44);

    mapper.cpu_write(0xC000, 0x02);
    assert_eq!(mapper.ppu_nametable_read(0x2010, &vram), Some(3));

    mapper.cpu_write(0x5000, 0xFE);
    mapper.cpu_write(0x5800, 0xFF);
    mapper.tick_cpu_cycle();
    assert!(mapper.irq_pending());
    mapper.cpu_write(0x5000, 0x00);
    assert!(!mapper.irq_pending());

    mapper.cpu_write(0xF800, 0x40);
    mapper.cpu_write(0x6000, 0xA5);
    assert_eq!(mapper.cpu_read(0x6000), 0xA5);
    mapper.cpu_write(0xF800, 0x4F);
    mapper.cpu_write(0x6000, 0x5A);
    assert_eq!(mapper.cpu_read(0x6000), 0xA5);
}

#[test]
fn mapper66_switches_prg_and_chr() {
    let prg = patterned_banks(2 * 0x8000, 0x8000);
    let chr = patterned_banks(2 * 0x2000, 0x2000);
    let mut mapper = Mapper66::new(make_cart(66, 0, prg, chr, false));

    mapper.cpu_write(0x8000, 0x11);
    assert_eq!(mapper.cpu_read(0x8000), 2);
    assert_eq!(mapper.ppu_read(0x0000), 2);
}

#[test]
fn mapper69_prg_registers_and_irq_counter() {
    let prg = patterned_banks(8 * 0x2000, 0x2000);
    let chr = patterned_banks(8 * 0x0400, 0x0400);
    let mut mapper = Mapper69::new(make_cart(69, 0, prg, chr, false));

    mapper.cpu_write(0x8000, 0x09);
    mapper.cpu_write(0xA000, 0x03);
    mapper.cpu_write(0x8000, 0x0A);
    mapper.cpu_write(0xA000, 0x04);
    mapper.cpu_write(0x8000, 0x0B);
    mapper.cpu_write(0xA000, 0x05);
    assert_eq!(mapper.cpu_read(0x8000), 4);
    assert_eq!(mapper.cpu_read(0xA000), 5);
    assert_eq!(mapper.cpu_read(0xC000), 6);

    mapper.cpu_write(0x8000, 0x0E);
    mapper.cpu_write(0xA000, 0x00);
    mapper.cpu_write(0x8000, 0x0F);
    mapper.cpu_write(0xA000, 0x00);
    mapper.cpu_write(0x8000, 0x0D);
    mapper.cpu_write(0xA000, 0x81);
    mapper.tick_cpu_cycle();
    assert!(mapper.irq_pending());
    mapper.cpu_write(0x8000, 0x0D);
    mapper.cpu_write(0xA000, 0x81);
    assert!(!mapper.irq_pending());
    mapper.cpu_write(0x8000, 0x0F);
    mapper.cpu_write(0xA000, 0x00);
    mapper.cpu_write(0x8000, 0x0E);
    mapper.cpu_write(0xA000, 0x01);
    mapper.tick_cpu_cycle();
    assert!(!mapper.irq_pending());
    mapper.tick_cpu_cycle();
    assert!(mapper.irq_pending());
    mapper.clear_irq();
    assert!(!mapper.irq_pending());
}

#[test]
fn mapper71_submapper1_masks_bank_to_three_bits() {
    let prg = patterned_banks(16 * 0x4000, 0x4000);
    let chr = patterned_banks(0x2000, 0x2000);
    let mut mapper = Mapper71::new(make_cart(71, 1, prg, chr, false));

    mapper.cpu_write(0xC000, 0x0F);
    assert_eq!(mapper.cpu_read(0x8000), 8);
    mapper.cpu_write(0x9000, 0x10);
    assert_eq!(mapper.mirroring(), Mirroring::OneScreenUpper);
}

#[test]
fn mapper71_submapper0_ignores_mirroring_writes_and_allows_chr_writes() {
    let prg = patterned_banks(4 * 0x4000, 0x4000);
    let chr = vec![0; 0x2000];
    let mut mapper = Mapper71::new(make_cart(71, 0, prg, chr, false));

    assert_eq!(mapper.mirroring(), Mirroring::Horizontal);
    mapper.cpu_write(0x9000, 0x10);
    assert_eq!(mapper.mirroring(), Mirroring::Horizontal);

    mapper.ppu_write(0x0010, 0xA5);
    assert_eq!(mapper.ppu_read(0x0010), 0xA5);
}

#[test]
fn mapper1_shift_register_programs_prg_bank() {
    let prg = patterned_banks(4 * 0x4000, 0x4000);
    let chr = patterned_banks(0x2000, 0x1000);
    let mut mapper = Mapper1::new(make_cart(1, 0, prg, chr, false));

    for bit in [1u8, 0, 0, 0, 0] {
        mapper.cpu_write(0xE000, bit);
    }

    assert_eq!(mapper.cpu_read(0x8000), 2);
    assert_eq!(mapper.cpu_read(0xC000), 4);
}

#[test]
fn mapper79_register_in_expansion_area_switches_banks() {
    let prg = patterned_banks(0x10000, 0x8000);
    let chr = patterned_banks(0x10000, 0x2000);
    let mut mapper = Mapper79::new(make_cart(79, 0, prg, chr, false));
    assert_eq!(mapper.cpu_read(0x8000), 1);
    assert_eq!(mapper.ppu_read(0x0000), 1);
    // Writes to ROM space do nothing on this board.
    mapper.cpu_write(0x8000, 0x0F);
    assert_eq!(mapper.cpu_read(0x8000), 1);
    // $4100: bit 3 picks the PRG bank, bits 0-2 the CHR bank.
    mapper.cpu_write(0x4100, 0x0D);
    assert_eq!(mapper.cpu_read(0xC000), 2);
    assert_eq!(mapper.ppu_read(0x1000), 6);
    // $4000 lacks address bit 8: ignored.
    mapper.cpu_write(0x4000, 0x00);
    assert_eq!(mapper.cpu_read(0x8000), 2);
}

#[test]
fn mapper79_gets_its_own_board() {
    let cart = make_cart(79, 0, vec![0; 0x8000], vec![0; 0x2000], false);
    assert!(matches!(create_mapper(cart), Ok(AnyMapper::Mapper79(_))));
    assert_eq!(cathode8::nes::mapper::mapper_name(79), "Nina-001");
}
