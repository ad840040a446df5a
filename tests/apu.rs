use gbcore::apu::APU;
use gbcore::mbc::ROMOnly;

fn f(r: gbcore::apu::Ratio) -> f64 {
    r.num as f64 / r.den as f64
}

#[test]
fn pulse_note() {
    let mut apu = APU::new();
    apu.write(0xFF11, 0x80);
    apu.write(0xFF12, 0xF0);
    apu.write(0xFF13, 0x00);
    apu.write(0xFF14, 0x87);
    apu.cycle(4);
    let p = apu.synth_params();
    assert_eq!(f(p.s1.freq), 512.0);
    assert_eq!(f(p.s1.vol), 1.0);
    assert_eq!(f(p.s1_duty), 0.5);
    assert_eq!(apu.read(0xFF26) & 1, 1);
}

#[test]
fn length_timeout() {
    let mut apu = APU::new();
    apu.write(0xFF11, 0x3F);
    apu.write(0xFF12, 0xF0);
    apu.write(0xFF14, 0xC0);
    assert_eq!(apu.sc1.length_timer, 63);
    assert_eq!(apu.read(0xFF26) & 1, 1);
    apu.cycle(APU::hz_to_cycles(256) - 1);
    assert_eq!(apu.sc1.length_timer, 63);
    assert!(apu.sc1.dac_enabled);
    apu.cycle(1);
    assert_eq!(apu.sc1.length_timer, 64);
    assert!(!apu.sc1.dac_enabled);
    assert_eq!(apu.read(0xFF26) & 1, 0);
}

#[test]
fn hz_to_cycles_values() {
    assert_eq!(APU::hz_to_cycles(256), 16384);
    assert_eq!(APU::hz_to_cycles(64), 65536);
    assert_eq!(APU::hz_to_cycles(128), 32768);
}

#[test]
fn master_off() {
    let mut apu = APU::new();
    apu.write(0xFF12, 0xF0);
    apu.write(0xFF14, 0x80);
    apu.write(0xFF24, 0x77);
    apu.write(0xFF25, 0xFF);
    assert_eq!(apu.read(0xFF26), 0xF1);
    apu.write(0xFF26, 0x00);
    assert_eq!(apu.read(0xFF26), 0x70);
    assert_eq!(apu.read(0xFF25), 0x00);
    assert_eq!(apu.read(0xFF24), 0x88);
    apu.write(0xFF12, 0xF0);
    apu.write(0xFF14, 0x80);
    apu.write(0xFF24, 0x77);
    apu.write(0xFF25, 0xFF);
    apu.write(0xFF1A, 0x80);
    apu.write(0xFF21, 0xF0);
    assert_eq!(apu.read(0xFF26), 0x70);
    assert_eq!(apu.read(0xFF12), 0x00);
    assert_eq!(apu.read(0xFF25), 0x00);
    assert!(!apu.sc4.dac_enabled);
    // The wave table still takes writes.
    apu.write(0xFF30, 0x12);
    assert_eq!(apu.read(0xFF30), 0x12);
    let p = apu.synth_params();
    assert_eq!(p.global_l.num, 0);
    apu.write(0xFF26, 0x80);
    assert_eq!(apu.read(0xFF26), 0xF0);
}

#[test]
fn envelope_register_upper_bits_zero_turns_dac_off() {
    let mut apu = APU::new();
    apu.write(0xFF12, 0xF0);
    apu.write(0xFF14, 0x80);
    assert!(apu.sc1.dac_enabled);
    apu.write(0xFF12, 0x07);
    assert!(!apu.sc1.dac_enabled);
    assert_eq!(apu.read(0xFF26) & 1, 0);
    apu.write(0xFF17, 0x08);
    assert!(apu.sc2.ch.dac_enabled);
    apu.write(0xFF17, 0x05);
    assert!(!apu.sc2.ch.dac_enabled);
}

#[test]
fn nr50_round_trip() {
    let mut apu = APU::new();
    apu.write(0xFF24, 0x35);
    assert_eq!(apu.read(0xFF24), 0xBD);
    assert_eq!(apu.left_volume, 3);
    assert_eq!(apu.right_volume, 5);
    apu.write(0xFF24, 0x77);
    assert_eq!(apu.read(0xFF24), 0xFF);
    apu.write(0xFF24, 0xF0);
    assert_eq!(apu.left_volume, 7);
    assert_eq!(f(apu.synth_params().global_l), 7.0 / 15.0);
}

#[test]
fn nr51_round_trip() {
    let mut apu = APU::new();
    for v in [0x00u8, 0x12, 0xA5, 0xFF] {
        apu.write(0xFF25, v);
        assert_eq!(apu.read(0xFF25), v);
    }
    apu.write(0xFF25, 0x12);
    let p = apu.synth_params();
    assert!(p.s1.left && !p.s1.right);
    assert!(!p.s2.left && p.s2.right);
    assert!(!p.s3.left && !p.s4.right);
}

#[test]
fn nr14_reads_length_enable_only() {
    let mut apu = APU::new();
    apu.write(0xFF14, 0x87);
    assert_eq!(apu.read(0xFF14), 0xBF);
    apu.write(0xFF14, 0xC7);
    assert_eq!(apu.read(0xFF14), 0xFF);
    assert!(!apu.sc1.trigger);
    assert_eq!(apu.read(0xFF13), 0xFF);
    assert_eq!(apu.read(0xFF11), 0x7F);
}

#[test]
fn top_pulse_frequency() {
    let mut apu = APU::new();
    apu.write(0xFF13, 0xFF);
    apu.write(0xFF14, 0x07);
    assert_eq!(apu.sc1.period, 2047);
    assert_eq!(f(apu.synth_params().s1.freq), 131072.0);
    apu.write(0xFF1D, 0xFF);
    apu.write(0xFF1E, 0x07);
    assert_eq!(f(apu.synth_params().s3.freq), 65536.0);
}

#[test]
fn noise_trigger_resets_lfsr() {
    let mut apu = APU::new();
    apu.sc4.lfsr = 0x1234;
    apu.write(0xFF21, 0xF0);
    apu.write(0xFF23, 0x80);
    assert_eq!(apu.sc4.lfsr, 0);
    assert_eq!(apu.read(0xFF26) & 0x08, 0x08);
    apu.write(0xFF22, 0x21);
    assert_eq!(apu.read(0xFF22), 0x21);
    assert_eq!(f(apu.synth_params().s4.freq), 524288.0 / 8.0);
}

#[test]
fn envelope_steps_volume() {
    let mut apu = APU::new();
    apu.write(0xFF12, 0xF2);
    apu.write(0xFF14, 0x80);
    apu.cycle(65536);
    assert_eq!(apu.sc1.volume, 15);
    apu.cycle(65536);
    assert_eq!(apu.sc1.volume, 14);
    apu.cycle(65536 * 40);
    assert_eq!(apu.sc1.volume, 0);
    apu.write(0xFF12, 0x19);
    apu.cycle(65536 * 3);
    assert_eq!(apu.sc1.volume, 4);
    apu.cycle(65536 * 30);
    assert_eq!(apu.sc1.volume, 15);
}

#[test]
fn sweep_moves_period() {
    let mut apu = APU::new();
    apu.write(0xFF12, 0xF0);
    apu.write(0xFF13, 0x00);
    apu.write(0xFF14, 0x84);
    apu.write(0xFF10, 0x11);
    assert_eq!(apu.read(0xFF10), 0x91);
    apu.cycle(32768);
    assert_eq!(apu.sc1.period, 0x400 + 0x200);
    apu.write(0xFF10, 0x19);
    apu.cycle(32768);
    assert_eq!(apu.sc1.period, 0x600 - 0x300);
    apu.write(0xFF10, 0x10);
    apu.cycle(32768);
    assert_eq!(apu.sc1.period, 0x300 * 2);
    apu.cycle(32768);
    assert_eq!(apu.sc1.period, 0x600);
    assert!(!apu.sc1.dac_enabled);
    assert_eq!(apu.read(0xFF26) & 1, 0);
}

#[test]
fn wave_channel_registers() {
    let mut apu = APU::new();
    apu.write(0xFF1A, 0x80);
    apu.write(0xFF1C, 0x40);
    apu.write(0xFF1E, 0x80);
    assert_eq!(apu.read(0xFF1A), 0xFF);
    assert_eq!(apu.read(0xFF1C), 0xDF);
    assert_eq!(apu.read(0xFF26) & 0x04, 0x04);
    assert_eq!(f(apu.synth_params().s3.vol), 0.5);
    apu.write(0xFF1B, 0xFF);
    apu.write(0xFF1E, 0xC0);
    apu.cycle(16384);
    assert!(!apu.sc3.dac_enabled);
    assert_eq!(apu.read(0xFF26) & 0x04, 0);
    apu.write(0xFF3F, 0x9C);
    assert_eq!(apu.read(0xFF3F), 0x9C);
    assert_eq!(apu.read(0xFF15), 0xFF);
    assert_eq!(apu.read(0xFF27), 0xFF);
}

#[test]
fn rom_only_cartridge() {
    let mut rom = vec![0u8; 0x8000];
    rom[0x0100] = 0x3E;
    rom[0x7FFF] = 0xC9;
    let mut cart = ROMOnly::new(rom);
    assert_eq!(cart.read(0x0100), 0x3E);
    assert_eq!(cart.read(0x7FFF), 0xC9);
    cart.write(0x2000, 0x01);
    assert_eq!(cart.read(0x0100), 0x3E);
    assert_eq!(cart.read(0x2000), 0x00);
}
