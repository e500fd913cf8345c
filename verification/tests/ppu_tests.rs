use cathode8::nes::cartridge::Cartridge;
use cathode8::nes::mapper::{Mapper0, Mirroring};
use cathode8::nes::ppu::{reverse_byte, Ppu, FRAME_BUFFER_LEN};

fn nrom(mirroring: Mirroring) -> Mapper0 {
    Mapper0::new(Cartridge {
        mapper_id: 0,
        submapper_id: 0,
        mirroring,
        four_screen: false,
        has_battery_backed_ram: false,
        prg_rom: vec![0; 0x8000],
        chr_data: vec![0; 0x2000],
        chr_is_ram: true,
        prg_ram_size: 8 * 1024,
    })
}

fn set_addr(ppu: &mut Ppu, mapper: &mut Mapper0, addr: u16) {
    ppu.cpu_write_register(0x2006, (addr >> 8) as u8, mapper);
    ppu.cpu_write_register(0x2006, (addr & 0xFF) as u8, mapper);
}

/// Ticks until the beam is at (`scanline`, `cycle`).
fn run_to(ppu: &mut Ppu, mapper: &mut Mapper0, scanline: i16, cycle: i16) {
    let mut guard = 0u32;
    while ppu.debug_scanline_cycle() != (scanline, cycle) {
        ppu.tick(mapper);
        guard += 1;
        assert!(guard < 200_000);
    }
}

#[test]
fn power_on_state() {
    let ppu = Ppu::new();
    assert_eq!(ppu.debug_scanline_cycle(), (261, 0));
    assert_eq!(ppu.debug_ctrl(), 0);
    assert_eq!(ppu.debug_mask(), 0);
    assert_eq!(ppu.debug_status(), 0);
    assert_eq!(ppu.debug_peek_palette(0), 0x0F);
    assert_eq!(ppu.debug_peek_palette(31), 0x0F);
    assert_eq!(ppu.debug_peek_vram(0x0FFF), 0);
    assert_eq!(ppu.frame_buffer().len(), FRAME_BUFFER_LEN);
    assert!(!ppu.frame_complete());
    assert_eq!(ppu.debug_counters().ticks, 0);
}

#[test]
fn ppuaddr_writes_point_data_port() {
    let mut ppu = Ppu::new();
    let mut mapper = nrom(Mirroring::Horizontal);
    set_addr(&mut ppu, &mut mapper, 0x2108);
    ppu.cpu_write_register(0x2007, 0xAB, &mut mapper);
    assert_eq!(ppu.debug_peek_vram(0x108), 0xAB);
    // The address advances by one after each access.
    ppu.cpu_write_register(0x2007, 0xCD, &mut mapper);
    assert_eq!(ppu.debug_peek_vram(0x109), 0xCD);
}

#[test]
fn ppuctrl_selects_increment_of_32() {
    let mut ppu = Ppu::new();
    let mut mapper = nrom(Mirroring::Horizontal);
    ppu.cpu_write_register(0x2000, 0x04, &mut mapper);
    set_addr(&mut ppu, &mut mapper, 0x2000);
    ppu.cpu_write_register(0x2007, 1, &mut mapper);
    ppu.cpu_write_register(0x2007, 2, &mut mapper);
    assert_eq!(ppu.debug_peek_vram(0), 1);
    assert_eq!(ppu.debug_peek_vram(32), 2);
}

#[test]
fn nametable_reads_are_buffered() {
    let mut ppu = Ppu::new();
    let mut mapper = nrom(Mirroring::Horizontal);
    set_addr(&mut ppu, &mut mapper, 0x2000);
    ppu.cpu_write_register(0x2007, 0x55, &mut mapper);
    set_addr(&mut ppu, &mut mapper, 0x2000);
    assert_eq!(ppu.cpu_read_register(0x2007, &mut mapper), 0x00);
    set_addr(&mut ppu, &mut mapper, 0x2001);
    assert_eq!(ppu.cpu_read_register(0x2007, &mut mapper), 0x55);
}

#[test]
fn palette_reads_are_immediate_and_backdrop_mirrors() {
    let mut ppu = Ppu::new();
    let mut mapper = nrom(Mirroring::Horizontal);
    set_addr(&mut ppu, &mut mapper, 0x3F01);
    ppu.cpu_write_register(0x2007, 0x21, &mut mapper);
    set_addr(&mut ppu, &mut mapper, 0x3F01);
    assert_eq!(ppu.cpu_read_register(0x2007, &mut mapper), 0x21);

    set_addr(&mut ppu, &mut mapper, 0x3F10);
    ppu.cpu_write_register(0x2007, 0x05, &mut mapper);
    assert_eq!(ppu.debug_peek_palette(0), 0x05);
    // $3F20 repeats $3F00.
    set_addr(&mut ppu, &mut mapper, 0x3F20);
    assert_eq!(ppu.cpu_read_register(0x2007, &mut mapper), 0x05);
}

#[test]
fn vertical_mirroring_aliases_2000_and_2800() {
    let mut ppu = Ppu::new();
    let mut mapper = nrom(Mirroring::Vertical);
    set_addr(&mut ppu, &mut mapper, 0x2003);
    ppu.cpu_write_register(0x2007, 0x77, &mut mapper);
    set_addr(&mut ppu, &mut mapper, 0x2803);
    ppu.cpu_read_register(0x2007, &mut mapper);
    assert_eq!(ppu.cpu_read_register(0x2007, &mut mapper), 0x77);
    assert_eq!(ppu.debug_peek_vram(0x003), 0x77);
}

#[test]
fn horizontal_mirroring_aliases_2000_and_2400() {
    let mut ppu = Ppu::new();
    let mut mapper = nrom(Mirroring::Horizontal);
    set_addr(&mut ppu, &mut mapper, 0x2405);
    ppu.cpu_write_register(0x2007, 0x66, &mut mapper);
    assert_eq!(ppu.debug_peek_vram(0x005), 0x66);
    set_addr(&mut ppu, &mut mapper, 0x2C05);
    ppu.cpu_write_register(0x2007, 0x99, &mut mapper);
    assert_eq!(ppu.debug_peek_vram(0x405), 0x99);
}

#[test]
fn oam_address_and_data_ports() {
    let mut ppu = Ppu::new();
    let mut mapper = nrom(Mirroring::Horizontal);
    ppu.cpu_write_register(0x2003, 0x10, &mut mapper);
    ppu.cpu_write_register(0x2004, 0x42, &mut mapper);
    ppu.cpu_write_register(0x2004, 0x43, &mut mapper);
    assert_eq!(ppu.debug_peek_oam(0x10), 0x42);
    assert_eq!(ppu.debug_peek_oam(0x11), 0x43);
    ppu.cpu_write_register(0x2003, 0x10, &mut mapper);
    assert_eq!(ppu.cpu_read_register(0x2004, &mut mapper), 0x42);
}

#[test]
fn oam_dma_wraps_from_oam_address() {
    let mut ppu = Ppu::new();
    let mut mapper = nrom(Mirroring::Horizontal);
    ppu.cpu_write_register(0x2003, 0xF0, &mut mapper);
    let mut bytes = [0u8; 256];
    for (i, b) in bytes.iter_mut().enumerate() {
        *b = i as u8;
    }
    ppu.write_oam_dma(&bytes);
    assert_eq!(ppu.debug_peek_oam(0xF0), 0);
    assert_eq!(ppu.debug_peek_oam(0xFF), 0x0F);
    assert_eq!(ppu.debug_peek_oam(0x00), 0x10);
    assert_eq!(ppu.debug_peek_oam(0xEF), 0xFF);
    // The OAM address ends where it began.
    ppu.cpu_write_register(0x2004, 0xEE, &mut mapper);
    assert_eq!(ppu.debug_peek_oam(0xF0), 0xEE);
}

#[test]
fn vblank_sets_flag_completes_frame_and_raises_nmi() {
    let mut ppu = Ppu::new();
    let mut mapper = nrom(Mirroring::Horizontal);
    ppu.cpu_write_register(0x2000, 0x80, &mut mapper);
    run_to(&mut ppu, &mut mapper, 241, 1);
    assert_eq!(ppu.debug_status() & 0x80, 0);
    assert!(!ppu.take_nmi());
    ppu.tick(&mut mapper);
    assert_eq!(ppu.debug_status() & 0x80, 0x80);
    assert!(ppu.frame_complete());
    assert!(ppu.take_nmi());
    assert!(!ppu.take_nmi());
    ppu.clear_frame_complete();
    assert!(!ppu.frame_complete());

    // Reading $2002 returns the flag, then clears it.
    let status = ppu.cpu_read_register(0x2002, &mut mapper);
    assert_eq!(status & 0x80, 0x80);
    assert_eq!(ppu.debug_status() & 0x80, 0);

    run_to(&mut ppu, &mut mapper, 261, 2);
    assert_eq!(ppu.debug_status() & 0xE0, 0);
}

#[test]
fn status_read_just_before_vblank_cancels_it() {
    let mut ppu = Ppu::new();
    let mut mapper = nrom(Mirroring::Horizontal);
    ppu.cpu_write_register(0x2000, 0x80, &mut mapper);
    run_to(&mut ppu, &mut mapper, 241, 0);
    ppu.cpu_read_register(0x2002, &mut mapper);
    ppu.tick(&mut mapper);
    ppu.tick(&mut mapper);
    assert_eq!(ppu.debug_status() & 0x80, 0);
    assert!(!ppu.take_nmi());
    assert!(ppu.frame_complete());
}

#[test]
fn status_read_resets_write_toggle() {
    let mut ppu = Ppu::new();
    let mut mapper = nrom(Mirroring::Horizontal);
    ppu.cpu_write_register(0x2006, 0x3F, &mut mapper);
    ppu.cpu_read_register(0x2002, &mut mapper);
    set_addr(&mut ppu, &mut mapper, 0x2010);
    ppu.cpu_write_register(0x2007, 0x12, &mut mapper);
    assert_eq!(ppu.debug_peek_vram(0x10), 0x12);
}

#[test]
fn unknown_register_reads_return_open_bus() {
    let mut ppu = Ppu::new();
    let mut mapper = nrom(Mirroring::Horizontal);
    ppu.cpu_write_register(0x2003, 0x5A, &mut mapper);
    assert_eq!(ppu.cpu_read_register(0x2000, &mut mapper), 0x5A);
    // $2002 keeps the low five bits of the open bus.
    assert_eq!(ppu.cpu_read_register(0x2002, &mut mapper), 0x5A & 0x1F);
}

#[test]
fn mask_writes_are_counted() {
    let mut ppu = Ppu::new();
    let mut mapper = nrom(Mirroring::Horizontal);
    ppu.cpu_write_register(0x2001, 0x1E, &mut mapper);
    ppu.cpu_write_register(0x2001, 0x08, &mut mapper);
    assert_eq!(ppu.debug_mask(), 0x08);
    assert_eq!(ppu.debug_mask_write_stats(), (2, 0x08));
}

#[test]
fn frame_has_89342_dots_and_odd_frames_skip_one_when_rendering() {
    let mut ppu = Ppu::new();
    let mut mapper = nrom(Mirroring::Horizontal);
    // Rendering off: every frame is 262 x 341 dots.
    for _ in 0..(262 * 341) {
        ppu.tick(&mut mapper);
    }
    assert_eq!(ppu.debug_scanline_cycle(), (261, 0));
    // Rendering on: the odd frame just started drops dot 340 of its
    // pre-render line.
    ppu.cpu_write_register(0x2001, 0x08, &mut mapper);
    for _ in 0..(262 * 341) {
        ppu.tick(&mut mapper);
    }
    assert_eq!(ppu.debug_scanline_cycle(), (261, 1));
}

#[test]
fn backdrop_colour_fills_the_frame_and_zapper_sees_it() {
    let mut ppu = Ppu::new();
    let mut mapper = nrom(Mirroring::Horizontal);
    assert!(!ppu.zapper_light_sensed(100, 100));
    set_addr(&mut ppu, &mut mapper, 0x3F00);
    ppu.cpu_write_register(0x2007, 0x30, &mut mapper);
    run_to(&mut ppu, &mut mapper, 241, 0);
    let frame = ppu.frame_buffer();
    let pixel = (100 * 256 + 100) * 4;
    assert_eq!(&frame[pixel..pixel + 4], &[236, 238, 236, 0xFF]);
    assert!(ppu.zapper_light_sensed(100, 100));
    assert!(ppu.zapper_light_sensed(0, 0));
    assert!(!ppu.zapper_light_sensed(-1, 10));
    assert!(!ppu.zapper_light_sensed(256, 10));
    assert!(!ppu.zapper_light_sensed(10, 240));
}

#[test]
fn reset_keeps_memories_and_clears_registers() {
    let mut ppu = Ppu::new();
    let mut mapper = nrom(Mirroring::Horizontal);
    ppu.cpu_write_register(0x2003, 0x01, &mut mapper);
    ppu.cpu_write_register(0x2004, 0x99, &mut mapper);
    set_addr(&mut ppu, &mut mapper, 0x2000);
    ppu.cpu_write_register(0x2007, 0x44, &mut mapper);
    set_addr(&mut ppu, &mut mapper, 0x3F00);
    ppu.cpu_write_register(0x2007, 0x30, &mut mapper);
    ppu.cpu_write_register(0x2000, 0x80, &mut mapper);
    for _ in 0..1000 {
        ppu.tick(&mut mapper);
    }
    ppu.reset();
    assert_eq!(ppu.debug_peek_oam(1), 0x99);
    assert_eq!(ppu.debug_peek_vram(0), 0x44);
    assert_eq!(ppu.debug_peek_palette(0), 0x0F);
    assert_eq!(ppu.debug_ctrl(), 0);
    assert_eq!(ppu.debug_scanline_cycle(), (261, 0));
    assert_eq!(ppu.debug_counters().ticks, 0);
    assert_eq!(ppu.debug_mask_write_stats(), (0, 0));
}

#[test]
fn debug_peeks_wrap() {
    let mut ppu = Ppu::new();
    let mut mapper = nrom(Mirroring::Horizontal);
    ppu.cpu_write_register(0x2003, 0x02, &mut mapper);
    ppu.cpu_write_register(0x2004, 0x31, &mut mapper);
    assert_eq!(ppu.debug_peek_oam(0x102), 0x31);
    assert_eq!(ppu.debug_peek_palette(32 + 5), ppu.debug_peek_palette(5));
    set_addr(&mut ppu, &mut mapper, 0x2007);
    ppu.cpu_write_register(0x2007, 0x3C, &mut mapper);
    assert_eq!(ppu.debug_peek_vram(4096 + 7), 0x3C);
}

#[test]
fn reverse_byte_mirrors_bits() {
    assert_eq!(reverse_byte(0x01), 0x80);
    assert_eq!(reverse_byte(0x12), 0x48);
    assert_eq!(reverse_byte(0xF0), 0x0F);
    assert_eq!(reverse_byte(0x81), 0x81);
    for b in 0..=255u8 {
        assert_eq!(reverse_byte(b), b.reverse_bits());
    }
}

#[test]
fn sprite_zero_hit_over_opaque_background() {
    // CHR RAM: tile 1 is solid colour 1 in both tables.
    let mut ppu = Ppu::new();
    let mut mapper = nrom(Mirroring::Horizontal);
    for row in 0..8u16 {
        set_addr(&mut ppu, &mut mapper, 0x0010 + row);
        ppu.cpu_write_register(0x2007, 0xFF, &mut mapper);
    }
    // Every nametable entry uses tile 1.
    set_addr(&mut ppu, &mut mapper, 0x2000);
    for _ in 0..960 {
        ppu.cpu_write_register(0x2007, 0x01, &mut mapper);
    }
    // Sprite 0 at (40, 31), tile 1.
    let mut oam = [0xFFu8; 256];
    oam[0] = 30;
    oam[1] = 1;
    oam[2] = 0;
    oam[3] = 40;
    ppu.write_oam_dma(&oam);
    set_addr(&mut ppu, &mut mapper, 0x0000);
    ppu.cpu_write_register(0x2001, 0x1E, &mut mapper);
    run_to(&mut ppu, &mut mapper, 30, 0);
    assert_eq!(ppu.debug_status() & 0x40, 0);
    run_to(&mut ppu, &mut mapper, 40, 0);
    assert_eq!(ppu.debug_status() & 0x40, 0x40);
    assert!(ppu.debug_counters().sprite0_hit_events >= 1);
}

#[test]
fn enabling_nmi_inside_vblank_raises_one_nmi_per_edge() {
    let mut ppu = Ppu::new();
    let mut mapper = nrom(Mirroring::Horizontal);
    run_to(&mut ppu, &mut mapper, 241, 2);
    assert_eq!(ppu.debug_status() & 0x80, 0x80);
    assert!(!ppu.take_nmi());
    ppu.cpu_write_register(0x2000, 0x80, &mut mapper);
    assert_eq!(ppu.debug_ctrl(), 0x80);
    assert!(ppu.take_nmi());
    ppu.cpu_write_register(0x2000, 0x80, &mut mapper);
    assert!(!ppu.take_nmi());
    ppu.cpu_write_register(0x2000, 0x00, &mut mapper);
    ppu.cpu_write_register(0x2000, 0x80, &mut mapper);
    assert!(ppu.take_nmi());
}

#[test]
fn nametable_writes_through_ports_follow_mirroring() {
    // (mirroring, address written, index in nametable RAM)
    let cases = [
        (Mirroring::Vertical, 0x2C05u16, 0x405usize),
        (Mirroring::Horizontal, 0x2C05u16, 0x405usize),
        (Mirroring::Horizontal, 0x2405u16, 0x005usize),
        (Mirroring::Vertical, 0x3805u16, 0x005usize),
    ];
    for (mirroring, addr, index) in cases {
        let mut ppu = Ppu::new();
        let mut mapper = nrom(mirroring);
        set_addr(&mut ppu, &mut mapper, addr);
        ppu.cpu_write_register(0x2007, 0x5A, &mut mapper);
        assert_eq!(ppu.debug_peek_vram(index), 0x5A);
        let others = (0..0x1000usize).filter(|&i| i != index && ppu.debug_peek_vram(i) != 0).count();
        assert_eq!(others, 0);
    }
}

#[test]
fn recorded_mask_write_is_always_the_mask() {
    let mut ppu = Ppu::new();
    let mut mapper = nrom(Mirroring::Horizontal);
    assert_eq!(ppu.debug_mask_write_stats(), (0, 0));
    ppu.cpu_write_register(0x2001, 0x1E, &mut mapper);
    ppu.cpu_write_register(0x2000, 0x80, &mut mapper);
    for _ in 0..1000 {
        ppu.tick(&mut mapper);
    }
    assert_eq!(ppu.debug_mask_write_stats(), (1, 0x1E));
    assert_eq!(ppu.debug_mask_write_stats().1, ppu.debug_mask());
    ppu.cpu_write_register(0x2001, 0x08, &mut mapper);
    assert_eq!(ppu.debug_mask_write_stats(), (2, 0x08));
    assert_eq!(ppu.debug_mask(), 0x08);
    ppu.reset();
    assert_eq!(ppu.debug_mask_write_stats(), (0, 0));
    assert_eq!(ppu.debug_mask(), 0);
}
