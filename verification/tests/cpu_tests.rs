use cathode8::nes::cartridge::Cartridge;
use cathode8::nes::Nes;
use cathode8::tools::args::parse_probe_args;
use cathode8::tools::probe::probe_run;

/// A console with an NROM board whose PRG holds `code` at $8000 and the
/// given extra bytes, with the reset vector at $8000.
fn console_with(code: &[u8], extra: &[(usize, u8)]) -> Nes {
    let mut prg = vec![0xEAu8; 0x4000];
    prg[..code.len()].copy_from_slice(code);
    for &(offset, value) in extra {
        prg[offset] = value;
    }
    prg[0x3FFC] = 0x00;
    prg[0x3FFD] = 0x80;
    let mut image = vec![0x4E, 0x45, 0x53, 0x1A, 1, 1, 0, 0, 0, 0, 0, 0, 0, 0, 0, 0];
    image.extend(prg);
    image.extend(vec![0u8; 0x2000]);
    let cart = Cartridge::from_bytes(&image).unwrap();
    let mut nes = Nes::new();
    nes.load_cartridge(cart, Some("program.nes".to_string())).unwrap();
    nes
}

fn console(code: &[u8]) -> Nes {
    console_with(code, &[])
}

#[test]
fn reset_state() {
    let nes = console(&[]);
    assert_eq!(nes.cpu.pc, 0x8000);
    assert_eq!(nes.cpu.sp, 0xFD);
    assert_eq!(nes.cpu.p, 0x24);
    assert_eq!(nes.debug_total_cycles(), 0);
}

#[test]
fn load_immediate_and_store_zero_page() {
    let mut nes = console(&[0xA9, 0x42, 0x85, 0x10]);
    assert_eq!(nes.step_cpu(), 2);
    assert_eq!(nes.cpu.a, 0x42);
    assert_eq!(nes.cpu.p & 0x82, 0);
    assert_eq!(nes.step_cpu(), 3);
    assert_eq!(nes.ram[0x10], 0x42);
    assert_eq!(nes.cpu.pc, 0x8004);
    assert_eq!(nes.debug_total_cycles(), 5);
}

#[test]
fn add_with_carry_out() {
    let mut nes = console(&[0x18, 0xA9, 0xF0, 0x69, 0x20]);
    for _ in 0..3 {
        assert_eq!(nes.step_cpu(), 2);
    }
    assert_eq!(nes.cpu.a, 0x10);
    assert_eq!(nes.cpu.p & 0x01, 0x01);
    assert_eq!(nes.cpu.p & 0x40, 0);
}

#[test]
fn add_signed_overflow() {
    let mut nes = console(&[0x18, 0xA9, 0x50, 0x69, 0x50]);
    for _ in 0..3 {
        nes.step_cpu();
    }
    assert_eq!(nes.cpu.a, 0xA0);
    assert_eq!(nes.cpu.p & 0x40, 0x40);
    assert_eq!(nes.cpu.p & 0x80, 0x80);
    assert_eq!(nes.cpu.p & 0x01, 0);
}

#[test]
fn subtract_with_borrow() {
    let mut nes = console(&[0x38, 0xA9, 0x10, 0xE9, 0x20]);
    for _ in 0..3 {
        nes.step_cpu();
    }
    assert_eq!(nes.cpu.a, 0xF0);
    assert_eq!(nes.cpu.p & 0x01, 0);
    assert_eq!(nes.cpu.p & 0x80, 0x80);
}

#[test]
fn compare_equal_sets_zero_and_carry() {
    let mut nes = console(&[0xA9, 0x10, 0xC9, 0x10, 0xC9, 0x11]);
    nes.step_cpu();
    nes.step_cpu();
    assert_eq!(nes.cpu.p & 0x03, 0x03);
    nes.step_cpu();
    assert_eq!(nes.cpu.p & 0x03, 0x00);
    assert_eq!(nes.cpu.p & 0x80, 0x80);
}

#[test]
fn jsr_then_rts_returns_after_the_call() {
    let mut nes = console_with(&[0x20, 0x10, 0x80], &[(0x10, 0x60)]);
    assert_eq!(nes.step_cpu(), 6);
    assert_eq!(nes.cpu.pc, 0x8010);
    assert_eq!(nes.cpu.sp, 0xFB);
    assert_eq!(nes.ram[0x1FD], 0x80);
    assert_eq!(nes.ram[0x1FC], 0x02);
    assert_eq!(nes.step_cpu(), 6);
    assert_eq!(nes.cpu.pc, 0x8003);
    assert_eq!(nes.cpu.sp, 0xFD);
}

#[test]
fn branch_cycles() {
    let mut nes = console(&[0xA2, 0x00, 0xF0, 0x02]);
    nes.step_cpu();
    assert_eq!(nes.step_cpu(), 3);
    assert_eq!(nes.cpu.pc, 0x8006);

    let mut nes = console(&[0xA2, 0x00, 0xD0, 0x02]);
    nes.step_cpu();
    assert_eq!(nes.step_cpu(), 2);
    assert_eq!(nes.cpu.pc, 0x8004);

    let mut nes = console_with(&[0x4C, 0xFA, 0x80], &[(0xFA, 0xA2), (0xFB, 0x00), (0xFC, 0xF0), (0xFD, 0x04)]);
    assert_eq!(nes.step_cpu(), 3);
    nes.step_cpu();
    assert_eq!(nes.step_cpu(), 4);
    assert_eq!(nes.cpu.pc, 0x8102);
}

#[test]
fn backward_branch() {
    let mut nes = console(&[0xA2, 0x00, 0xF0, 0xFC]);
    nes.step_cpu();
    assert_eq!(nes.step_cpu(), 3);
    assert_eq!(nes.cpu.pc, 0x8000);
}

#[test]
fn push_then_pull_accumulator() {
    let mut nes = console(&[0xA9, 0x77, 0x48, 0xA9, 0x00, 0x68]);
    nes.step_cpu();
    assert_eq!(nes.step_cpu(), 3);
    assert_eq!(nes.cpu.sp, 0xFC);
    nes.step_cpu();
    assert_eq!(nes.cpu.p & 0x02, 0x02);
    assert_eq!(nes.step_cpu(), 4);
    assert_eq!(nes.cpu.a, 0x77);
    assert_eq!(nes.cpu.sp, 0xFD);
    assert_eq!(nes.cpu.p & 0x02, 0);
}

#[test]
fn php_then_plp_clears_break() {
    let mut nes = console(&[0x38, 0x08, 0x18, 0x28]);
    nes.step_cpu();
    assert_eq!(nes.step_cpu(), 3);
    assert_eq!(nes.ram[0x1FD], 0x35);
    nes.step_cpu();
    assert_eq!(nes.step_cpu(), 4);
    assert_eq!(nes.cpu.p, 0x25);
}

#[test]
fn brk_then_rti() {
    let mut nes = console_with(&[0x00, 0xEA, 0xEA], &[(0x20, 0x40), (0x3FFE, 0x20), (0x3FFF, 0x80)]);
    assert_eq!(nes.step_cpu(), 7);
    assert_eq!(nes.cpu.pc, 0x8020);
    assert_eq!(nes.cpu.p & 0x04, 0x04);
    assert_eq!(nes.cpu.sp, 0xFA);
    assert_eq!(nes.ram[0x1FD], 0x80);
    assert_eq!(nes.ram[0x1FC], 0x02);
    assert_eq!(nes.ram[0x1FB], 0x34);
    assert_eq!(nes.step_cpu(), 6);
    assert_eq!(nes.cpu.pc, 0x8002);
    assert_eq!(nes.cpu.p, 0x24);
    assert_eq!(nes.cpu.sp, 0xFD);
}

#[test]
fn ram_is_mirrored() {
    let mut nes = console(&[0xA9, 0x5A, 0x8D, 0x10, 0x08, 0xA9, 0x00, 0xAD, 0x10, 0x18]);
    nes.step_cpu();
    assert_eq!(nes.step_cpu(), 4);
    assert_eq!(nes.ram[0x10], 0x5A);
    nes.step_cpu();
    assert_eq!(nes.step_cpu(), 4);
    assert_eq!(nes.cpu.a, 0x5A);
}

#[test]
fn jmp_indirect_wraps_in_page() {
    let code = [
        0xA9, 0x34, 0x8D, 0xFF, 0x02, 0xA9, 0x12, 0x8D, 0x00, 0x02, 0xA9, 0x99, 0x8D, 0x00, 0x03,
        0x6C, 0xFF, 0x02,
    ];
    let mut nes = console(&code);
    for _ in 0..6 {
        nes.step_cpu();
    }
    assert_eq!(nes.step_cpu(), 5);
    assert_eq!(nes.cpu.pc, 0x1234);
}

#[test]
fn unofficial_lax_loads_a_and_x() {
    let mut nes = console(&[0xA9, 0x8F, 0x85, 0x20, 0xA9, 0x00, 0xA7, 0x20]);
    for _ in 0..3 {
        nes.step_cpu();
    }
    assert_eq!(nes.step_cpu(), 3);
    assert_eq!(nes.cpu.a, 0x8F);
    assert_eq!(nes.cpu.x, 0x8F);
    assert_eq!(nes.cpu.p & 0x80, 0x80);
}

#[test]
fn rotate_left_then_right_restores() {
    let mut nes = console(&[0x38, 0xA9, 0x81, 0x2A, 0x6A]);
    nes.step_cpu();
    nes.step_cpu();
    assert_eq!(nes.step_cpu(), 2);
    assert_eq!(nes.cpu.a, 0x03);
    assert_eq!(nes.cpu.p & 0x01, 0x01);
    assert_eq!(nes.step_cpu(), 2);
    assert_eq!(nes.cpu.a, 0x81);
    assert_eq!(nes.cpu.p & 0x01, 0x01);
}

#[test]
fn decrement_memory() {
    let mut nes = console(&[0xA9, 0x01, 0x85, 0x10, 0xC6, 0x10, 0xEE, 0x10, 0x00]);
    nes.step_cpu();
    nes.step_cpu();
    assert_eq!(nes.step_cpu(), 5);
    assert_eq!(nes.ram[0x10], 0);
    assert_eq!(nes.cpu.p & 0x02, 0x02);
    assert_eq!(nes.step_cpu(), 6);
    assert_eq!(nes.ram[0x10], 1);
}

#[test]
fn indirect_indexed_page_cross_costs_a_cycle() {
    let code = [
        0xA9, 0xFF, 0x85, 0x10, 0xA9, 0x00, 0x85, 0x11, 0xA9, 0x66, 0x8D, 0x00, 0x01, 0xA0, 0x01,
        0xB1, 0x10,
    ];
    let mut nes = console(&code);
    for _ in 0..7 {
        nes.step_cpu();
    }
    assert_eq!(nes.step_cpu(), 6);
    assert_eq!(nes.cpu.a, 0x66);
}

#[test]
fn transfers_to_and_from_stack_pointer() {
    let mut nes = console(&[0xA2, 0x40, 0x9A, 0xA2, 0x00, 0xBA]);
    nes.step_cpu();
    assert_eq!(nes.step_cpu(), 2);
    assert_eq!(nes.cpu.sp, 0x40);
    nes.step_cpu();
    assert_eq!(nes.step_cpu(), 2);
    assert_eq!(nes.cpu.x, 0x40);
}

#[test]
fn two_byte_nop_skips_operand() {
    let mut nes = console(&[0x80, 0xFF, 0xA9, 0x01]);
    assert_eq!(nes.step_cpu(), 2);
    assert_eq!(nes.cpu.pc, 0x8002);
}

#[test]
fn nmi_entry() {
    let mut nes = console_with(&[], &[(0x3FFA, 0x40), (0x3FFB, 0x80)]);
    nes.pending_nmi = true;
    assert_eq!(nes.step_cpu(), 7);
    assert_eq!(nes.cpu.pc, 0x8040);
    assert_eq!(nes.cpu.sp, 0xFA);
    assert_eq!(nes.ram[0x1FB], 0x24);
    assert_eq!(nes.debug_nmi_serviced_count(), 1);
}

#[test]
fn irq_waits_for_interrupt_flag() {
    let mut nes = console_with(&[0xEA, 0x58, 0xEA], &[(0x3FFE, 0x50), (0x3FFF, 0x80)]);
    nes.pending_irq = true;
    assert_eq!(nes.step_cpu(), 2);
    assert_eq!(nes.step_cpu(), 2);
    assert_eq!(nes.cpu.p & 0x04, 0);
    assert_eq!(nes.step_cpu(), 7);
    assert_eq!(nes.cpu.pc, 0x8050);
    assert_eq!(nes.cpu.p & 0x04, 0x04);
}

#[test]
fn dma_stall_cycles() {
    let mut nes = console(&[0xEA]);
    nes.dma_cycles = 2;
    assert_eq!(nes.step_cpu(), 1);
    assert_eq!(nes.dma_cycles, 1);
    assert_eq!(nes.cpu.pc, 0x8000);
    assert_eq!(nes.step_cpu(), 1);
    assert_eq!(nes.step_cpu(), 2);
    assert_eq!(nes.debug_total_cycles(), 4);
}

#[test]
fn oam_dma_copies_a_page() {
    let code = [0xA9, 0x3C, 0x8D, 0x05, 0x02, 0xA9, 0x02, 0x8D, 0x14, 0x40];
    let mut nes = console(&code);
    for _ in 0..4 {
        nes.step_cpu();
    }
    assert_eq!(nes.debug_peek_oam(5), 0x3C);
    assert!(nes.dma_cycles == 513 || nes.dma_cycles == 514);
}

#[test]
fn run_frame_completes_a_frame() {
    let mut nes = console(&[0x4C, 0x00, 0x80]);
    nes.run_frame();
    assert_eq!(nes.debug_counters().frame_count, 1);
    assert!(nes.ppu.frame_complete());
    let cycles = nes.debug_total_cycles();
    assert!(cycles > 27000 && cycles < 28000);
}

#[test]
fn run_frame_without_cartridge_does_nothing() {
    let mut nes = Nes::new();
    nes.run_frame();
    assert_eq!(nes.debug_counters().frame_count, 0);
    assert_eq!(nes.debug_total_cycles(), 0);
}

#[test]
fn controller_reads_out_buttons_in_order() {
    let mut nes = console(&[]);
    let buttons = 0b1010_0110u8;
    nes.set_controller_state(buttons);
    nes.cpu_write(0x4016, 1);
    assert_eq!(nes.cpu_read(0x4016), 0x40);
    nes.cpu_write(0x4016, 0);
    for k in 0..8 {
        assert_eq!(nes.cpu_read(0x4016), 0x40 | ((buttons >> k) & 1));
    }
    assert_eq!(nes.cpu_read(0x4016), 0x41);
    assert_eq!(nes.cpu_read(0x4016), 0x41);
}

#[test]
fn program_reads_controller() {
    // LDA #1; STA $4016; LDA #0; STA $4016; LDA $4016; LDX $4016
    let code = [0xA9, 0x01, 0x8D, 0x16, 0x40, 0xA9, 0x00, 0x8D, 0x16, 0x40, 0xAD, 0x16, 0x40, 0xAE, 0x16, 0x40];
    let mut nes = console(&code);
    nes.set_controller_state(0x02);
    for _ in 0..6 {
        nes.step_cpu();
    }
    assert_eq!(nes.cpu.a, 0x40);
    assert_eq!(nes.cpu.x, 0x41);
}

#[test]
fn apu_registers_through_the_bus() {
    let mut nes = console(&[]);
    nes.cpu_write(0x4015, 0x01);
    nes.cpu_write(0x4003, 0x08);
    assert_eq!(nes.cpu_read(0x4015) & 0x01, 0x01);
    nes.apu.frame_irq_flag = true;
    assert_eq!(nes.cpu_read(0x4015) & 0x40, 0x40);
    assert_eq!(nes.cpu_read(0x4015) & 0x40, 0);
    nes.cpu_write(0x4015, 0x00);
    assert_eq!(nes.cpu_read(0x4015) & 0x01, 0);
}

#[test]
fn ppu_registers_through_the_bus() {
    let mut nes = console(&[]);
    nes.cpu_write(0x2006, 0x21);
    nes.cpu_write(0x2006, 0x08);
    nes.cpu_write(0x2007, 0x55);
    // $200E and $3FFF mirror $2006 and $2007.
    nes.cpu_write(0x200E, 0x21);
    nes.cpu_write(0x200E, 0x08);
    let _ = nes.cpu_read(0x2007);
    assert_eq!(nes.cpu_read(0x3FFF), 0x55);
}

#[test]
fn jam_opcode_halts_the_cpu() {
    let mut nes = console(&[0x02, 0xA9, 0x01]);
    assert!(!nes.debug_halted());
    assert_eq!(nes.step_cpu(), 2);
    assert!(nes.debug_halted());
    let cycles = nes.debug_total_cycles();
    nes.run_frame();
    assert_eq!(nes.debug_total_cycles(), cycles);
}

#[test]
fn other_instructions_keep_running() {
    let mut nes = console(&[0xA9, 0x01, 0x82, 0x00]);
    nes.step_cpu();
    nes.step_cpu();
    assert!(!nes.debug_halted());
}

#[test]
fn ppumask_writes_are_counted_through_the_bus() {
    let mut nes = console(&[]);
    nes.cpu_write(0x2001, 0x1E);
    nes.cpu_write(0x2000, 0x00);
    nes.cpu_write(0x2009, 0x08);
    assert_eq!(nes.debug_ppu_mask_writes(), (2, 0x08));
}

#[test]
fn reset_loads_pc_from_the_reset_vector() {
    let mut prg = vec![0xEAu8; 0x4000];
    prg[0x3FFA] = 0x00;
    prg[0x3FFB] = 0x90;
    prg[0x3FFC] = 0x34;
    prg[0x3FFD] = 0xC2;
    let mut image = vec![0x4E, 0x45, 0x53, 0x1A, 1, 1, 0, 0, 0, 0, 0, 0, 0, 0, 0, 0];
    image.extend(prg);
    image.extend(vec![0u8; 0x2000]);
    let mut nes = Nes::new();
    nes.load_cartridge(Cartridge::from_bytes(&image).unwrap(), None).unwrap();
    assert_eq!(nes.cpu.pc, 0xC234);
    nes.cpu.pc = 0x1234;
    nes.reset();
    assert_eq!(nes.cpu.pc, 0xC234);
}

#[test]
fn lax_zero_page_reads_the_operand_address() {
    // Code in RAM: LAX $10 at $0200.
    let mut nes = console(&[]);
    nes.ram[0x10] = 0x80;
    nes.ram[0x0200] = 0xA7;
    nes.ram[0x0201] = 0x10;
    nes.cpu.pc = 0x0200;
    assert_eq!(nes.step_cpu(), 3);
    assert_eq!((nes.cpu.a, nes.cpu.x), (0x80, 0x80));
    assert_eq!(nes.cpu.p & 0x82, 0x80);
    assert_eq!(nes.cpu.pc, 0x0202);
}

#[test]
fn a_frame_runs_cpu_steps_until_the_frame_is_complete() {
    let mut nes = console(&[0x4C, 0x00, 0x80]);
    nes.run_frame();
    let first = nes.debug_total_cycles();
    assert!(first > 0);
    assert!(nes.ppu.timing.frame_complete);
    nes.run_frame();
    assert!(nes.debug_total_cycles() > first);
    assert_eq!(nes.debug_counters().frame_count, 2);
}

#[test]
fn oam_dma_copies_a_ram_page_and_stalls() {
    let mut nes = console(&[]);
    for i in 0..256usize {
        nes.ram[0x300 + i] = i as u8;
    }
    let before = nes.dma_cycles;
    nes.cpu_write(0x4014, 0x03);
    assert_eq!(nes.debug_peek_oam(5), 5);
    assert_eq!(nes.debug_peek_oam(255), 255);
    assert!(nes.dma_cycles == before + 513 || nes.dma_cycles == before + 514);
}

#[test]
fn probe_run_counts_its_frames() {
    let mut nes = console(&[0x4C, 0x00, 0x80]);
    let mut cfg = parse_probe_args(&Vec::new()).unwrap();
    cfg.frames = 3;
    cfg.hold_input_frames = 1;
    cfg.input = 0x08;
    probe_run(&mut nes, &cfg);
    assert_eq!(nes.debug_counters().frame_count, 3);
    assert_eq!(nes.debug_controller_state().0, 0);
}
