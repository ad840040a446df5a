use gbcore::ppu::{GBMode, PPUMode, PPU};

const SHADE0: (u8, u8, u8) = (175, 203, 70);
const SHADE1: (u8, u8, u8) = (121, 170, 109);
const SHADE3: (u8, u8, u8) = (8, 41, 85);

fn pixel(ppu: &PPU, x: usize, y: usize) -> (u8, u8, u8, u8) {
    let o = y * 640 + x * 4;
    let f = &ppu.frame_buffer;
    (f[o], f[o + 1], f[o + 2], f[o + 3])
}

fn fill_vram(ppu: &mut PPU, from: u16, to: u16, v: u8) {
    let mut a = from;
    while a < to {
        ppu.write(a, v);
        a += 1;
    }
}

#[test]
fn blank_frame() {
    let mut ppu = PPU::new(GBMode::Classic);
    ppu.write(0xFF47, 0xFC);
    ppu.write(0xFF40, 0x80);
    let mut frames = 0;
    for _ in 0..70224 {
        if ppu.cycle(1) {
            frames += 1;
        }
    }
    assert_eq!(frames, 1);
    assert!(ppu.interrupts.vblank);
    // Background off in classic mode: no line is drawn over the blank framebuffer.
    assert!(ppu.frame_buffer.iter().all(|&b| b == 0));
    assert_eq!(ppu.read(0xFF44), 0);
}

#[test]
fn blank_frame_with_background() {
    let mut ppu = PPU::new(GBMode::Classic);
    ppu.write(0xFF47, 0xFC);
    ppu.write(0xFF40, 0x81);
    assert!(ppu.cycle(70224));
    for y in 0..144 {
        for x in 0..160 {
            assert_eq!(pixel(&ppu, x, y), (SHADE0.0, SHADE0.1, SHADE0.2, 255));
        }
    }
    ppu.write(0xFF47, 0x03);
    ppu.cycle(70224);
    assert_eq!(pixel(&ppu, 5, 5), (SHADE3.0, SHADE3.1, SHADE3.2, 255));
}

#[test]
fn scroll() {
    let mut ppu = PPU::new(GBMode::Classic);
    // Tile 1: every row has colour 1 at even columns.
    fill_vram(&mut ppu, 0x8010, 0x8020, 0);
    let mut a: u16 = 0x8010;
    while a < 0x8020 {
        ppu.write(a, 0xAA);
        a += 2;
    }
    fill_vram(&mut ppu, 0x9800, 0x9C00, 0x01);
    ppu.write(0xFF47, 0xE4);
    ppu.write(0xFF42, 0);
    ppu.write(0xFF43, 4);
    ppu.write(0xFF40, 0x91);
    ppu.cycle(80 + 172);
    for x in 0..160 {
        let want = if x % 2 == 0 { SHADE1 } else { SHADE0 };
        assert_eq!(pixel(&ppu, x, 0), (want.0, want.1, want.2, 255));
    }
    ppu.write(0xFF43, 1);
    ppu.cycle(456);
    for x in 0..160 {
        let want = if x % 2 == 1 { SHADE1 } else { SHADE0 };
        assert_eq!(pixel(&ppu, x, 1), (want.0, want.1, want.2, 255));
    }
}

#[test]
fn lyc_interrupt() {
    let mut ppu = PPU::new(GBMode::Classic);
    ppu.write(0xFF45, 100);
    ppu.write(0xFF41, 0x40);
    ppu.write(0xFF40, 0x80);
    let mut raised = 0;
    for _ in 0..70224 {
        ppu.interrupts.lcd = false;
        ppu.cycle(1);
        let ly = ppu.read(0xFF44);
        assert_eq!(ppu.interrupts.lcd, ly == 100);
        if ppu.interrupts.lcd {
            raised += 1;
        }
    }
    assert_eq!(raised, 456);
}

fn sprite_scene(mode: GBMode, sprite_attr: u8, bg_attr: u8) -> PPU {
    let mut ppu = PPU::new(mode);
    // Tile 1 for the background: colour 1 everywhere.
    let mut a: u16 = 0x8010;
    while a < 0x8020 {
        ppu.write(a, 0xFF);
        ppu.write(a + 1, 0x00);
        a += 2;
    }
    fill_vram(&mut ppu, 0x9800, 0x9C00, 0x01);
    // Tile 2 for the sprite: colour 1 at its top-left pixel.
    ppu.write(0x8020, 0x80);
    if mode == GBMode::Color {
        ppu.write(0xFF4F, 1);
        fill_vram(&mut ppu, 0x9800, 0x9C00, bg_attr);
        ppu.write(0xFF4F, 0);
    }
    ppu.write(0xFE00, 16);
    ppu.write(0xFE01, 16);
    ppu.write(0xFE02, 2);
    ppu.write(0xFE03, sprite_attr);
    ppu.write(0xFF47, 0xE4);
    ppu.write(0xFF48, 0xFF);
    ppu.write(0xFF40, 0x93);
    ppu.cycle(80 + 172);
    ppu
}

#[test]
fn sprite_priority() {
    // The background tile is marked Priority: the sprite does not cover it.
    let ppu = sprite_scene(GBMode::Color, 0x00, 0x80);
    assert_eq!(pixel(&ppu, 8, 0), (0, 0, 0, 255));
    // Classic mode: a sprite with its priority bit loses to a non-zero background colour.
    let ppu = sprite_scene(GBMode::Classic, 0x80, 0);
    assert_eq!(pixel(&ppu, 8, 0), (SHADE1.0, SHADE1.1, SHADE1.2, 255));
    // Without the bit it is drawn, with OBP0.
    let ppu = sprite_scene(GBMode::Classic, 0x00, 0);
    assert_eq!(pixel(&ppu, 8, 0), (SHADE3.0, SHADE3.1, SHADE3.2, 255));
    assert_eq!(pixel(&ppu, 9, 0), (SHADE1.0, SHADE1.1, SHADE1.2, 255));
}

#[test]
fn sprite_at_y0_is_culled() {
    let mut ppu = PPU::new(GBMode::Classic);
    fill_vram(&mut ppu, 0x8000, 0x8010, 0xFF);
    ppu.write(0xFE00, 0);
    ppu.write(0xFE01, 16);
    ppu.write(0xFE02, 0);
    ppu.write(0xFF48, 0xFF);
    ppu.write(0xFF40, 0x86);
    ppu.cycle(70224);
    assert!(ppu.frame_buffer.iter().all(|&b| b == 0));
}

#[test]
fn window_at_wx7_starts_at_x0() {
    let mut ppu = PPU::new(GBMode::Classic);
    // Background map at 0x9800 uses tile 0 (blank), window map at 0x9C00 uses tile 1 (colour 3).
    fill_vram(&mut ppu, 0x8010, 0x8020, 0xFF);
    fill_vram(&mut ppu, 0x9C00, 0xA000, 0x01);
    ppu.write(0xFF47, 0xE4);
    ppu.write(0xFF4A, 0);
    ppu.write(0xFF4B, 7);
    ppu.write(0xFF40, 0xF1);
    ppu.cycle(80 + 172);
    for x in 0..160 {
        assert_eq!(pixel(&ppu, x, 0), (SHADE3.0, SHADE3.1, SHADE3.2, 255));
    }
    // WX below 7 wraps: no column shows the window.
    ppu.write(0xFF4B, 3);
    ppu.cycle(456);
    for x in 0..160 {
        assert_eq!(pixel(&ppu, x, 1), (SHADE0.0, SHADE0.1, SHADE0.2, 255));
    }
}

#[test]
fn ly_wraps_at_154() {
    let mut ppu = PPU::new(GBMode::Classic);
    ppu.write(0xFF40, 0x80);
    let mut max_ly = 0;
    let mut wraps = 0;
    let mut last = 0;
    for _ in 0..(2 * 70224) {
        ppu.cycle(1);
        let ly = ppu.read(0xFF44);
        assert!(ly <= 153);
        if ly < last {
            assert_eq!(last, 153);
            assert_eq!(ly, 0);
            wraps += 1;
        }
        max_ly = max_ly.max(ly);
        last = ly;
    }
    assert_eq!(max_ly, 153);
    assert_eq!(wraps, 2);
}

#[test]
fn vblank_entries_are_70224_apart() {
    let mut ppu = PPU::new(GBMode::Classic);
    ppu.write(0xFF40, 0x80);
    let mut entries = Vec::new();
    for t in 0..(3 * 70224 + 10) {
        if ppu.cycle(1) {
            entries.push(t);
        }
    }
    assert_eq!(entries.len(), 3);
    assert_eq!(entries[1] - entries[0], 70224);
    assert_eq!(entries[2] - entries[1], 70224);
}

#[test]
fn mode_and_ly_stay_consistent() {
    let mut ppu = PPU::new(GBMode::Classic);
    ppu.write(0xFF40, 0x80);
    for n in [1u32, 7, 80, 300, 456, 1000, 4560, 70224] {
        ppu.cycle(n);
        let ly = ppu.read(0xFF44);
        let mode = ppu.read(0xFF41) & 3;
        assert!(ly <= 153);
        assert_eq!(ly >= 144, mode == 1);
        assert_eq!(ppu.ppu_mode.code(), mode);
    }
}

#[test]
fn stat_reports_mode_and_lyc() {
    let mut ppu = PPU::new(GBMode::Classic);
    ppu.write(0xFF41, 0xFF);
    assert_eq!(ppu.read(0xFF41), 0x78 | 0x04 | 2);
    ppu.write(0xFF45, 5);
    ppu.write(0xFF40, 0x80);
    assert_eq!(ppu.read(0xFF41) & 0x07, 2);
    ppu.cycle(80);
    assert_eq!(ppu.read(0xFF41) & 0x07, 3);
    ppu.cycle(172);
    assert_eq!(ppu.ppu_mode, PPUMode::HBlank);
    assert_eq!(ppu.read(0xFF41) & 0x07, 0);
    ppu.cycle(204 + 456 * 4);
    assert_eq!(ppu.read(0xFF44), 5);
    assert_eq!(ppu.read(0xFF41) & 0x07, 0x04 | 2);
    ppu.cycle(456 * 139);
    assert_eq!(ppu.read(0xFF44), 144);
    assert_eq!(ppu.read(0xFF41) & 0x03, 1);
}

#[test]
fn lcd_off_memory_reads_back() {
    let mut ppu = PPU::new(GBMode::Classic);
    // A new PPU is in OAM scan with the LCD off: nothing is locked.
    ppu.write(0x8123, 0x5A);
    ppu.write(0xFE10, 0xA5);
    assert_eq!(ppu.read(0x8123), 0x5A);
    assert_eq!(ppu.read(0xFE10), 0xA5);
    // With the LCD on, OAM scan locks OAM and drawing locks VRAM.
    ppu.write(0xFF40, 0x80);
    assert_eq!(ppu.read(0xFE10), 0xFF);
    assert_eq!(ppu.read(0x8123), 0x5A);
    ppu.cycle(80);
    assert_eq!(ppu.read(0x8123), 0xFF);
    ppu.write(0x8123, 0x11);
    ppu.cycle(172);
    assert_eq!(ppu.read(0x8123), 0x5A);
    assert_eq!(ppu.read(0xFE10), 0xA5);
    ppu.write(0xFF40, 0x00);
    assert_eq!(ppu.read(0xFF44), 0);
    assert_eq!(ppu.ppu_mode, PPUMode::HBlank);
}

#[test]
fn lcdc_round_trip() {
    let mut ppu = PPU::new(GBMode::Classic);
    for v in [0x00u8, 0x91, 0xFF, 0x7E, 0x80] {
        ppu.write(0xFF40, v);
        assert_eq!(ppu.read(0xFF40), v);
    }
}

#[test]
fn registers_and_bank() {
    let mut ppu = PPU::new(GBMode::Color);
    ppu.write(0xFF44, 77);
    assert_eq!(ppu.read(0xFF44), 0);
    assert_eq!(ppu.read(0xFF49), 0x01);
    ppu.write(0xFF4F, 0xFF);
    assert_eq!(ppu.read(0xFF4F), 0xFF);
    ppu.write(0x8000, 9);
    ppu.write(0xFF4F, 0);
    assert_eq!(ppu.read(0xFF4F), 0xFE);
    assert_eq!(ppu.read(0x8000), 0);
    assert_eq!(ppu.ram[0x2000], 9);
    ppu.write(0xFF68, 3);
    assert_eq!(ppu.read(0xFF68), 0);
}

#[test]
fn grey_palette() {
    assert_eq!(PPU::grey_to_l(0xE4, 0), SHADE0);
    assert_eq!(PPU::grey_to_l(0xE4, 1), SHADE1);
    assert_eq!(PPU::grey_to_l(0xE4, 2), (34, 111, 95));
    assert_eq!(PPU::grey_to_l(0xE4, 3), SHADE3);
    assert_eq!(PPU::grey_to_l(0xFC, 0), SHADE0);
    assert_eq!(PPU::grey_to_l(0xFC, 1), SHADE3);
    assert_eq!(PPU::grey_to_l(0x1B, 0), SHADE3);
}

#[test]
fn lcd_off_cycle_does_nothing() {
    let mut ppu = PPU::new(GBMode::Classic);
    assert!(!ppu.cycle(100000));
    assert_eq!(ppu.cycle_count, 0);
    assert_eq!(ppu.ppu_mode, PPUMode::OAMScan);
}
