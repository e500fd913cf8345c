use cathode8::nes::apu::Apu;

#[test]
fn status_read_acknowledges_frame_irq() {
    let mut apu = Apu::new();
    apu.frame_irq_flag = true;
    assert!(apu.irq_pending());
    assert_eq!(apu.read_status() & 0x40, 0x40);
    assert_eq!(apu.read_status() & 0x40, 0);
    assert!(!apu.irq_pending());
}

#[test]
fn disabling_a_channel_clears_its_length() {
    let mut apu = Apu::new();
    apu.write_register(0x4015, 0x01);
    apu.write_register(0x4003, 0x08);
    assert!(apu.pulse1.length_counter > 0);
    assert_eq!(apu.read_status() & 0x01, 0x01);
    apu.write_register(0x4015, 0x00);
    assert_eq!(apu.pulse1.length_counter, 0);
    assert_eq!(apu.read_status() & 0x01, 0);
}

#[test]
fn length_load_ignored_while_disabled() {
    let mut apu = Apu::new();
    apu.write_register(0x400F, 0x08);
    assert_eq!(apu.noise.length_counter, 0);
}

#[test]
fn four_step_frame_irq_timing() {
    let mut apu = Apu::new();
    for _ in 0..29828 {
        apu.tick();
    }
    assert!(!apu.irq_pending());
    apu.tick();
    assert!(apu.irq_pending());
}

#[test]
fn five_step_mode_never_raises_irq() {
    let mut apu = Apu::new();
    apu.write_register(0x4017, 0x80);
    for _ in 0..80000 {
        apu.tick();
    }
    assert!(!apu.irq_pending());
}

#[test]
fn inhibit_prevents_frame_irq() {
    let mut apu = Apu::new();
    apu.write_register(0x4017, 0x40);
    for _ in 0..80000 {
        apu.tick();
    }
    assert!(!apu.frame_irq_flag);
}

#[test]
fn noise_shift_register_never_zero() {
    let mut apu = Apu::new();
    apu.write_register(0x4015, 0x08);
    apu.write_register(0x400E, 0x80);
    apu.write_register(0x400F, 0x08);
    for _ in 0..100000 {
        apu.tick();
        assert_ne!(apu.noise.shift_register, 0);
    }
}

#[test]
fn sample_count_follows_rate() {
    let mut apu = Apu::new();
    apu.set_sample_rate(48000);
    for _ in 0..1000 {
        apu.tick();
    }
    assert_eq!(apu.take_levels().len(), 26);
    assert!(apu.take_levels().is_empty());
}

#[test]
fn sample_rate_has_a_floor() {
    let mut apu = Apu::new();
    apu.set_sample_rate(100);
    assert_eq!(apu.sample_rate(), 8000);
}

#[test]
fn length_write_sets_status_bit_only_when_enabled() {
    let regs: [u16; 4] = [0x4003, 0x4007, 0x400B, 0x400F];
    for (i, reg) in regs.iter().enumerate() {
        let bit: u8 = 1 << i;
        let mut on = Apu::new();
        on.write_register(0x4015, bit);
        on.write_register(*reg, 0x08);
        assert_eq!(on.read_status() & bit, bit);
        let mut off = Apu::new();
        off.write_register(0x4015, 0x0F & !bit);
        off.write_register(*reg, 0x08);
        assert_eq!(off.read_status() & bit, 0);
    }
}
