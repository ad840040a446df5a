use vstd::prelude::*;
use crate::render::line_drawn;

verus! {

pub const SCREEN_W: usize = 160;
pub const SCREEN_H: usize = 144;
/// Bytes of the RGBA framebuffer.
pub const FB_LEN: usize = 92160;
/// Bytes of video RAM, both banks.
pub const VRAM_LEN: usize = 0x4000;
pub const OAM_LEN: usize = 0xA0;

// LCDC bits
pub const LCD_ENABLE: u8 = 0x80;
pub const WINDOW_MAP_HIGH: u8 = 0x40;
pub const WINDOW_ENABLE: u8 = 0x20;
pub const TILE_DATA_LOW: u8 = 0x10;
pub const BG_MAP_HIGH: u8 = 0x08;
pub const OBJ_16H: u8 = 0x04;
pub const OBJ_ENABLE: u8 = 0x02;
pub const BG_PRIORITY: u8 = 0x01;

// STAT bits
pub const LYC_INT: u8 = 0x40;
pub const MODE2_INT: u8 = 0x20;
pub const MODE1_INT: u8 = 0x10;
pub const MODE0_INT: u8 = 0x08;
pub const LYC_EQ: u8 = 0x04;
/// The STAT bits that the bus may write.
pub const STAT_WRITABLE: u8 = 0x78;

// Tile and sprite attribute bits
pub const ATTR_PRIORITY: u8 = 0x80;
pub const ATTR_Y_FLIP: u8 = 0x40;
pub const ATTR_X_FLIP: u8 = 0x20;
pub const ATTR_PALETTE: u8 = 0x10;
pub const ATTR_BANK: u8 = 0x08;

/// Hardware generation being emulated.
#[derive(PartialEq, Eq, Structural, Clone, Copy, Debug)]
pub enum GBMode {
    Classic,
    Color,
}

/// The PPU's mode state machine.
#[derive(PartialEq, Eq, Structural, Clone, Copy, Debug)]
pub enum PPUMode {
    HBlank,
    VBlank,
    OAMScan,
    Draw,
}

/// What the background left at a column of the current scanline.
#[derive(PartialEq, Eq, Structural, Clone, Copy, Debug)]
pub enum Priority {
    Color0,
    Priority,
    Normal,
}

/// Interrupt requests raised by the PPU and drained by the bus.
#[derive(PartialEq, Eq, Structural, Clone, Copy, Debug)]
pub struct Interrupts {
    pub vblank: bool,
    pub lcd: bool,
}

pub open spec fn mode_code(m: PPUMode) -> u8 {
    match m {
        PPUMode::HBlank => 0,
        PPUMode::VBlank => 1,
        PPUMode::OAMScan => 2,
        PPUMode::Draw => 3,
    }
}

/// T-cycles spent in one stretch of a mode.
pub open spec fn mode_len(m: PPUMode) -> u32 {
    match m {
        PPUMode::OAMScan => 80,
        PPUMode::Draw => 172,
        PPUMode::HBlank => 204,
        PPUMode::VBlank => 456,
    }
}

impl PPUMode {
    /// The mode's number as STAT reports it.
    pub fn code(&self) -> (r: u8)
        ensures
            r == mode_code(*self),
    {
        match self {
            PPUMode::HBlank => 0,
            PPUMode::VBlank => 1,
            PPUMode::OAMScan => 2,
            PPUMode::Draw => 3,
        }
    }

    pub fn len(&self) -> (r: u32)
        ensures
            r == mode_len(*self),
    {
        match self {
            PPUMode::OAMScan => 80,
            PPUMode::Draw => 172,
            PPUMode::HBlank => 204,
            PPUMode::VBlank => 456,
        }
    }
}

pub open spec fn flag(v: u8, mask: u8) -> bool {
    v & mask != 0
}

pub struct PPU {
    pub mode: GBMode,
    pub ppu_mode: PPUMode,
    pub cycle_count: u32,
    pub sy: u8,
    pub sx: u8,
    pub ly: u8,
    pub lc: u8,
    pub wy: u8,
    pub wx: u8,
    pub bgp: u8,
    pub op0: u8,
    pub op1: u8,
    pub lcdc: u8,
    pub lcds: u8,
    pub ram: Vec<u8>,
    pub ram_bank: usize,
    pub oam: Vec<u8>,
    pub bgprio: Vec<Priority>,
    pub interrupts: Interrupts,
    pub frame_buffer: Vec<u8>,
}

/// The PPU as a mathematical value.
pub struct PpuView {
    pub color: bool,
    pub ppu_mode: PPUMode,
    pub cycle_count: u32,
    pub sy: u8,
    pub sx: u8,
    pub ly: u8,
    pub lc: u8,
    pub wy: u8,
    pub wx: u8,
    pub bgp: u8,
    pub op0: u8,
    pub op1: u8,
    pub lcdc: u8,
    pub lcds: u8,
    pub ram: Seq<u8>,
    pub ram_bank: usize,
    pub oam: Seq<u8>,
    pub bgprio: Seq<Priority>,
    pub interrupts: Interrupts,
    pub fb: Seq<u8>,
}

impl View for PPU {
    type V = PpuView;

    open spec fn view(&self) -> PpuView {
        PpuView {
            color: self.mode == GBMode::Color,
            ppu_mode: self.ppu_mode,
            cycle_count: self.cycle_count,
            sy: self.sy,
            sx: self.sx,
            ly: self.ly,
            lc: self.lc,
            wy: self.wy,
            wx: self.wx,
            bgp: self.bgp,
            op0: self.op0,
            op1: self.op1,
            lcdc: self.lcdc,
            lcds: self.lcds,
            ram: self.ram@,
            ram_bank: self.ram_bank,
            oam: self.oam@,
            bgprio: self.bgprio@,
            interrupts: self.interrupts,
            fb: self.frame_buffer@,
        }
    }
}

impl PpuView {
    /// Sizes of the memories and the reach of the mode machine.
    pub open spec fn wf(self) -> bool {
        &&& self.ram.len() == VRAM_LEN
        &&& self.oam.len() == OAM_LEN
        &&& self.bgprio.len() == SCREEN_W
        &&& self.fb.len() == FB_LEN
        &&& self.ram_bank <= 1
        &&& self.timing_ok()
    }

    /// LY stays within a frame, and VBlank is exactly the lines 144 to 153.
    pub open spec fn timing_ok(self) -> bool {
        &&& self.ly <= 153
        &&& (self.ly >= 144 <==> self.ppu_mode == PPUMode::VBlank)
        &&& self.cycle_count < mode_len(self.ppu_mode)
    }

    pub open spec fn lcd_on(self) -> bool {
        flag(self.lcdc, LCD_ENABLE)
    }

    pub open spec fn vram_open(self) -> bool {
        !self.lcd_on() || self.ppu_mode != PPUMode::Draw
    }

    pub open spec fn oam_open(self) -> bool {
        !self.lcd_on() || (self.ppu_mode != PPUMode::Draw && self.ppu_mode != PPUMode::OAMScan)
    }

    pub open spec fn with_lcd(self, lcd: bool) -> Interrupts {
        Interrupts { vblank: self.interrupts.vblank, lcd: self.interrupts.lcd || lcd }
    }
}

/// Addresses that the PPU answers on the bus.
pub open spec fn ppu_owns(a: u16) -> bool {
    ||| 0x8000 <= a <= 0x9FFF
    ||| 0xFE00 <= a <= 0xFE9F
    ||| 0xFF40 <= a <= 0xFF45
    ||| 0xFF47 <= a <= 0xFF4B
    ||| a == 0xFF4D
    ||| a == 0xFF4F
    ||| 0xFF60 <= a <= 0xFF6F
}

/// The value STAT reads as.
pub open spec fn stat_value(s: PpuView) -> u8 {
    (s.lcds & STAT_WRITABLE) | (if s.ly == s.lc { LYC_EQ } else { 0u8 }) | mode_code(s.ppu_mode)
}

/// What a bus read at `a` returns.
pub open spec fn read_spec(s: PpuView, a: u16) -> u8 {
    if 0x8000 <= a <= 0x9FFF {
        if s.vram_open() {
            s.ram[s.ram_bank * 0x2000 + a - 0x8000]
        } else {
            0xFF
        }
    } else if 0xFE00 <= a <= 0xFE9F {
        if s.oam_open() {
            s.oam[a - 0xFE00]
        } else {
            0xFF
        }
    } else if a == 0xFF40 {
        s.lcdc
    } else if a == 0xFF41 {
        stat_value(s)
    } else if a == 0xFF42 {
        s.sy
    } else if a == 0xFF43 {
        s.sx
    } else if a == 0xFF44 {
        s.ly
    } else if a == 0xFF45 {
        s.lc
    } else if a == 0xFF47 {
        s.bgp
    } else if a == 0xFF48 {
        s.op0
    } else if a == 0xFF49 {
        s.op1
    } else if a == 0xFF4A {
        s.wy
    } else if a == 0xFF4B {
        s.wx
    } else if a == 0xFF4F {
        0xFE | (s.ram_bank as u8)
    } else {
        0
    }
}

/// The state after a bus write of `v` at `a`.
pub open spec fn write_spec(s: PpuView, a: u16, v: u8) -> PpuView {
    if 0x8000 <= a <= 0x9FFF {
        if s.vram_open() {
            PpuView { ram: s.ram.update(s.ram_bank * 0x2000 + a - 0x8000, v), ..s }
        } else {
            s
        }
    } else if 0xFE00 <= a <= 0xFE9F {
        if s.oam_open() {
            PpuView { oam: s.oam.update(a - 0xFE00, v), ..s }
        } else {
            s
        }
    } else if a == 0xFF40 {
        if flag(v, LCD_ENABLE) {
            PpuView { lcdc: v, ..s }
        } else {
            PpuView {
                lcdc: v,
                ly: 0,
                ppu_mode: PPUMode::HBlank,
                cycle_count: 0,
                fb: Seq::new(FB_LEN as nat, |i: int| 0u8),
                ..s
            }
        }
    } else if a == 0xFF41 {
        PpuView { lcds: v & STAT_WRITABLE, ..s }
    } else if a == 0xFF42 {
        PpuView { sy: v, ..s }
    } else if a == 0xFF43 {
        PpuView { sx: v, ..s }
    } else if a == 0xFF45 {
        PpuView { lc: v, ..s }
    } else if a == 0xFF47 {
        PpuView { bgp: v, ..s }
    } else if a == 0xFF48 {
        PpuView { op0: v, ..s }
    } else if a == 0xFF49 {
        PpuView { op1: v, ..s }
    } else if a == 0xFF4A {
        PpuView { wy: v, ..s }
    } else if a == 0xFF4B {
        PpuView { wx: v, ..s }
    } else if a == 0xFF4F {
        PpuView { ram_bank: (v & 1) as usize, ..s }
    } else {
        s
    }
}

/// One T-cycle of the mode machine, before the LY compare.
pub open spec fn advance(s: PpuView) -> PpuView {
    let c = s.cycle_count + 1;
    if c < mode_len(s.ppu_mode) {
        PpuView { cycle_count: c as u32, ..s }
    } else {
        match s.ppu_mode {
            PPUMode::OAMScan => PpuView { cycle_count: 0, ppu_mode: PPUMode::Draw, ..s },
            PPUMode::Draw => line_drawn(
                PpuView {
                    cycle_count: 0,
                    ppu_mode: PPUMode::HBlank,
                    interrupts: s.with_lcd(flag(s.lcds, MODE0_INT)),
                    ..s
                },
            ),
            PPUMode::HBlank => if s.ly >= 143 {
                PpuView {
                    cycle_count: 0,
                    ly: (s.ly + 1) as u8,
                    ppu_mode: PPUMode::VBlank,
                    interrupts: Interrupts { vblank: true, lcd: s.interrupts.lcd || flag(s.lcds, MODE1_INT) },
                    ..s
                }
            } else {
                PpuView {
                    cycle_count: 0,
                    ly: (s.ly + 1) as u8,
                    ppu_mode: PPUMode::OAMScan,
                    interrupts: s.with_lcd(flag(s.lcds, MODE2_INT)),
                    ..s
                }
            },
            PPUMode::VBlank => if s.ly >= 153 {
                PpuView {
                    cycle_count: 0,
                    ly: 0,
                    ppu_mode: PPUMode::OAMScan,
                    interrupts: s.with_lcd(flag(s.lcds, MODE2_INT)),
                    ..s
                }
            } else {
                PpuView { cycle_count: 0, ly: (s.ly + 1) as u8, ..s }
            },
        }
    }
}

/// One T-cycle with the LCD on: the mode machine moves, then LY == LYC raises LCD if selected.
pub open spec fn tick(s: PpuView) -> PpuView {
    let t = advance(s);
    if t.ly == t.lc && flag(t.lcds, LYC_INT) {
        PpuView { interrupts: t.with_lcd(true), ..t }
    } else {
        t
    }
}

/// Whether the next T-cycle enters VBlank.
pub open spec fn enters_vblank(s: PpuView) -> bool {
    s.ppu_mode == PPUMode::HBlank && s.cycle_count + 1 >= mode_len(PPUMode::HBlank) && s.ly >= 143
}

/// The state after `n` T-cycles with the LCD on.
pub open spec fn run(s: PpuView, n: nat) -> PpuView
    decreases n,
{
    if n == 0 {
        s
    } else {
        tick(run(s, (n - 1) as nat))
    }
}

/// Whether VBlank is entered during the first `n` T-cycles.
pub open spec fn frame_done(s: PpuView, n: nat) -> bool
    decreases n,
{
    n > 0 && (frame_done(s, (n - 1) as nat) || enters_vblank(run(s, (n - 1) as nat)))
}

/// The state of a new PPU.
pub open spec fn initial(color: bool) -> PpuView {
    PpuView {
        color,
        ppu_mode: PPUMode::OAMScan,
        cycle_count: 0,
        sy: 0,
        sx: 0,
        ly: 0,
        lc: 0,
        wy: 0,
        wx: 0,
        bgp: 0,
        op0: 0,
        op1: 1,
        lcdc: 0,
        lcds: 0,
        ram: Seq::new(VRAM_LEN as nat, |i: int| 0u8),
        ram_bank: 0,
        oam: Seq::new(OAM_LEN as nat, |i: int| 0u8),
        bgprio: Seq::new(SCREEN_W as nat, |i: int| Priority::Normal),
        interrupts: Interrupts { vblank: false, lcd: false },
        fb: Seq::new(FB_LEN as nat, |i: int| 0u8),
    }
}

/// A tick keeps the memories' sizes and the mode machine in reach.
pub proof fn lemma_tick_wf(s: PpuView)
    requires
        s.wf(),
    ensures
        tick(s).wf(),
{
}

impl PPU {
    pub fn new(mode: GBMode) -> (r: PPU)
        ensures
            r@ == initial(mode == GBMode::Color),
            r@.wf(),
    {
        let r = PPU {
            mode,
            ppu_mode: PPUMode::OAMScan,
            cycle_count: 0,
            sy: 0x00,
            sx: 0x00,
            ly: 0x00,
            lc: 0x00,
            wy: 0x00,
            wx: 0x00,
            bgp: 0x00,
            op0: 0x00,
            op1: 0x01,
            lcdc: 0,
            lcds: 0,
            ram: vec![0u8; VRAM_LEN],
            ram_bank: 0,
            oam: vec![0u8; OAM_LEN],
            bgprio: vec![Priority::Normal; SCREEN_W],
            interrupts: Interrupts { vblank: false, lcd: false },
            frame_buffer: vec![0u8; FB_LEN],
        };
        assert(r@.ram =~= initial(mode == GBMode::Color).ram);
        assert(r@.oam =~= initial(mode == GBMode::Color).oam);
        assert(r@.bgprio =~= initial(mode == GBMode::Color).bgprio);
        assert(r@.fb =~= initial(mode == GBMode::Color).fb);
        r
    }

    /// Advances the mode machine by one T-cycle.
    fn step(&mut self) -> (r: bool)
        requires
            old(self)@.wf(),
        ensures
            final(self)@ == tick(old(self)@),
            r == enters_vblank(old(self)@),
    {
        let c = self.cycle_count + 1;
        let mut frame = false;
        if c < self.ppu_mode.len() {
            self.cycle_count = c;
        } else {
            self.cycle_count = 0;
            match self.ppu_mode {
                PPUMode::OAMScan => {
                    self.ppu_mode = PPUMode::Draw;
                },
                PPUMode::Draw => {
                    self.ppu_mode = PPUMode::HBlank;
                    if self.lcds & MODE0_INT != 0 {
                        self.interrupts.lcd = true;
                    }
                    if self.mode == GBMode::Color || self.lcdc & BG_PRIORITY != 0 {
                        self.draw_bg();
                    }
                    if self.lcdc & OBJ_ENABLE != 0 {
                        self.draw_sprites();
                    }
                },
                PPUMode::HBlank => {
                    self.ly = self.ly + 1;
                    if self.ly > 143 {
                        self.ppu_mode = PPUMode::VBlank;
                        self.interrupts.vblank = true;
                        if self.lcds & MODE1_INT != 0 {
                            self.interrupts.lcd = true;
                        }
                        frame = true;
                    } else {
                        self.ppu_mode = PPUMode::OAMScan;
                        if self.lcds & MODE2_INT != 0 {
                            self.interrupts.lcd = true;
                        }
                    }
                },
                PPUMode::VBlank => {
                    if self.ly >= 153 {
                        self.ly = 0;
                        self.ppu_mode = PPUMode::OAMScan;
                        if self.lcds & MODE2_INT != 0 {
                            self.interrupts.lcd = true;
                        }
                    } else {
                        self.ly = self.ly + 1;
                    }
                },
            }
        }
        if self.ly == self.lc && self.lcds & LYC_INT != 0 {
            self.interrupts.lcd = true;
        }
        frame
    }

    /// Runs `cycles` T-cycles; returns whether VBlank was entered. Does nothing with the LCD off.
    pub fn cycle(&mut self, cycles: u32) -> (r: bool)
        requires
            old(self)@.wf(),
        ensures
            final(self)@.wf(),
            old(self)@.lcd_on() ==> final(self)@ == run(old(self)@, cycles as nat),
            old(self)@.lcd_on() ==> r == frame_done(old(self)@, cycles as nat),
            !old(self)@.lcd_on() ==> final(self)@ == old(self)@ && !r,
    {
        if self.lcdc & LCD_ENABLE == 0 {
            return false;
        }
        let ghost s = self@;
        let mut frame = false;
        let mut i: u32 = 0;
        while i < cycles
            invariant
                i <= cycles,
                self@ == run(s, i as nat),
                self@.wf(),
                frame == frame_done(s, i as nat),
            decreases cycles - i,
        {
            let f = self.step();
            proof {
                lemma_tick_wf(run(s, i as nat));
            }
            frame = frame || f;
            i = i + 1;
        }
        frame
    }

    /// A bus read of a PPU address.
    pub fn read(&self, a: u16) -> (r: u8)
        requires
            self@.wf(),
            ppu_owns(a),
        ensures
            r == read_spec(self@, a),
    {
        let on = self.lcdc & LCD_ENABLE != 0;
        if 0x8000 <= a && a <= 0x9FFF {
            if !on || self.ppu_mode != PPUMode::Draw {
                self.ram[self.ram_bank * 0x2000 + (a as usize - 0x8000)]
            } else {
                0xFF
            }
        } else if 0xFE00 <= a && a <= 0xFE9F {
            if !on || (self.ppu_mode != PPUMode::Draw && self.ppu_mode != PPUMode::OAMScan) {
                self.oam[a as usize - 0xFE00]
            } else {
                0xFF
            }
        } else if a == 0xFF40 {
            self.lcdc
        } else if a == 0xFF41 {
            let eq: u8 = if self.ly == self.lc {
                LYC_EQ
            } else {
                0
            };
            (self.lcds & STAT_WRITABLE) | eq | self.ppu_mode.code()
        } else if a == 0xFF42 {
            self.sy
        } else if a == 0xFF43 {
            self.sx
        } else if a == 0xFF44 {
            self.ly
        } else if a == 0xFF45 {
            self.lc
        } else if a == 0xFF47 {
            self.bgp
        } else if a == 0xFF48 {
            self.op0
        } else if a == 0xFF49 {
            self.op1
        } else if a == 0xFF4A {
            self.wy
        } else if a == 0xFF4B {
            self.wx
        } else if a == 0xFF4F {
            0xFE | (self.ram_bank as u8)
        } else {
            0
        }
    }

    /// A bus write of a PPU address. Writes to LY and to VRAM or OAM while the PPU holds them are dropped.
    pub fn write(&mut self, a: u16, v: u8)
        requires
            old(self)@.wf(),
            ppu_owns(a),
        ensures
            final(self)@ == write_spec(old(self)@, a, v),
            final(self)@.wf(),
    {
        let on = self.lcdc & LCD_ENABLE != 0;
        if 0x8000 <= a && a <= 0x9FFF {
            if !on || self.ppu_mode != PPUMode::Draw {
                let i = self.ram_bank * 0x2000 + (a as usize - 0x8000);
                self.ram.set(i, v);
            }
        } else if 0xFE00 <= a && a <= 0xFE9F {
            if !on || (self.ppu_mode != PPUMode::Draw && self.ppu_mode != PPUMode::OAMScan) {
                self.oam.set(a as usize - 0xFE00, v);
            }
        } else if a == 0xFF40 {
            self.lcdc = v;
            if v & LCD_ENABLE == 0 {
                self.ly = 0;
                self.ppu_mode = PPUMode::HBlank;
                self.cycle_count = 0;
                self.frame_buffer = vec![0u8; FB_LEN];
                assert(self.frame_buffer@ =~= Seq::new(FB_LEN as nat, |i: int| 0u8));
            }
        } else if a == 0xFF41 {
            self.lcds = v & STAT_WRITABLE;
        } else if a == 0xFF42 {
            self.sy = v;
        } else if a == 0xFF43 {
            self.sx = v;
        } else if a == 0xFF45 {
            self.lc = v;
        } else if a == 0xFF47 {
            self.bgp = v;
        } else if a == 0xFF48 {
            self.op0 = v;
        } else if a == 0xFF49 {
            self.op1 = v;
        } else if a == 0xFF4A {
            self.wy = v;
        } else if a == 0xFF4B {
            self.wx = v;
        } else if a == 0xFF4F {
            assert(v & 1 <= 1) by (bit_vector);
            self.ram_bank = (v & 1) as usize;
        }
    }
}

} // verus!

verus! {

/// STAT reports the mode in its two low bits and LY == LYC in bit 2.
pub proof fn lemma_stat_reports_mode(s: PpuView)
    ensures
        stat_value(s) & 3 == mode_code(s.ppu_mode),
        (stat_value(s) & LYC_EQ != 0) == (s.ly == s.lc),
{
    let l = s.lcds;
    let m = mode_code(s.ppu_mode);
    assert(m <= 3);
    let e: u8 = if s.ly == s.lc { LYC_EQ } else { 0u8 };
    assert(m <= 3 && (e == 4 || e == 0) ==> ((l & 0x78) | e | m) & 3 == m) by (bit_vector);
    assert(m <= 3 && (e == 4 || e == 0) ==> ((((l & 0x78) | e | m) & 4 != 0) == (e == 4))) by (bit_vector);
}

/// With the LCD off, VRAM and OAM read back what is stored whatever the mode.
pub proof fn lemma_lcd_off_reads(s: PpuView, a: u16)
    requires
        s.wf(),
        !s.lcd_on(),
    ensures
        0x8000 <= a <= 0x9FFF ==> read_spec(s, a) == s.ram[s.ram_bank * 0x2000 + a - 0x8000],
        0xFE00 <= a <= 0xFE9F ==> read_spec(s, a) == s.oam[a - 0xFE00],
{
}

/// LCDC reads back the byte last written to it.
pub proof fn lemma_lcdc_round_trip(s: PpuView, v: u8)
    ensures
        read_spec(write_spec(s, 0xFF40, v), 0xFF40) == v,
{
}

/// LY counts 0 to 153 and wraps to 0 at the end of line 153: 154 lines a frame.
pub proof fn lemma_ly_wraps_at_154(s: PpuView)
    requires
        s.wf(),
        s.ppu_mode == PPUMode::VBlank,
        s.cycle_count == 455,
    ensures
        s.ly == 153 ==> tick(s).ly == 0 && tick(s).ppu_mode == PPUMode::OAMScan,
        s.ly < 153 ==> tick(s).ly == s.ly + 1 && tick(s).ppu_mode == PPUMode::VBlank,
{
}

} // verus!
