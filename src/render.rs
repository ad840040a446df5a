use vstd::prelude::*;
use crate::ppu::{
    flag, GBMode, PpuView, Priority, PPU, ATTR_BANK, ATTR_PALETTE, ATTR_PRIORITY, ATTR_X_FLIP, ATTR_Y_FLIP,
    BG_MAP_HIGH, BG_PRIORITY, OBJ_16H, OBJ_ENABLE, TILE_DATA_LOW, WINDOW_ENABLE, WINDOW_MAP_HIGH,
};

verus! {

pub type Rgb = (u8, u8, u8);

/// Shade `c` of the grey palette `v`: bits `2c+1..2c` of `v` pick one of four colours.
pub open spec fn grey(v: u8, c: u8) -> Rgb {
    let s = (v >> ((2 * c) as u8)) & 3u8;
    if s == 0 {
        (175, 203, 70)
    } else if s == 1 {
        (121, 170, 109)
    } else if s == 2 {
        (34, 111, 95)
    } else {
        (8, 41, 85)
    }
}

/// The 2-bit colour of column `tx` of a tile row given by its two bytes.
pub open spec fn decode(lo: u8, hi: u8, tx: u8) -> u8 {
    let h: u8 = if hi & (0x80u8 >> tx) != 0 { 2 } else { 0 };
    let l: u8 = if lo & (0x80u8 >> tx) != 0 { 1 } else { 0 };
    (h + l) as u8
}

/// Byte `k` of an opaque RGBA pixel.
pub open spec fn rgba(c: Rgb, k: int) -> u8 {
    if k == 0 {
        c.0
    } else if k == 1 {
        c.1
    } else if k == 2 {
        c.2
    } else {
        255
    }
}

pub open spec fn row_start(ly: u8) -> int {
    ly as int * 640
}

/// `fb` with the pixels of row `ly` for which `f` gives a colour painted in that colour.
pub open spec fn paint(fb: Seq<u8>, ly: u8, f: spec_fn(int) -> Option<Rgb>) -> Seq<u8> {
    Seq::new(
        fb.len(),
        |i: int|
            {
                let d = i - row_start(ly);
                if 0 <= d < 640 && f(d / 4) is Some {
                    rgba(f(d / 4)->Some_0, d % 4)
                } else {
                    fb[i]
                }
            },
    )
}

// ----- background and window -----

/// Window origin in screen space: WX - 7, wrapping.
pub open spec fn wx_screen(s: PpuView) -> int {
    (s.wx + 249) % 256
}

pub open spec fn in_window(s: PpuView, x: int) -> bool {
    flag(s.lcdc, WINDOW_ENABLE) && s.wy <= s.ly && x >= wx_screen(s)
}

pub open spec fn bg_py(s: PpuView, x: int) -> int {
    if in_window(s, x) {
        s.ly - s.wy
    } else {
        (s.sy + s.ly) % 256
    }
}

pub open spec fn bg_px(s: PpuView, x: int) -> int {
    if in_window(s, x) {
        x - wx_screen(s)
    } else {
        (s.sx + x) % 256
    }
}

/// Offset in a VRAM bank of the tile-map entry that covers column `x`.
pub open spec fn bg_map(s: PpuView, x: int) -> int {
    let base = if in_window(s, x) {
        if flag(s.lcdc, WINDOW_MAP_HIGH) {
            0x1C00int
        } else {
            0x1800int
        }
    } else if flag(s.lcdc, BG_MAP_HIGH) {
        0x1C00int
    } else {
        0x1800int
    };
    base + (bg_py(s, x) / 8) * 32 + bg_px(s, x) / 8
}

pub open spec fn bg_attr(s: PpuView, x: int) -> u8 {
    if s.color {
        s.ram[0x2000 + bg_map(s, x)]
    } else {
        0
    }
}

/// Offset in a VRAM bank of the tile's data.
pub open spec fn bg_tile(s: PpuView, x: int) -> int {
    let id = s.ram[bg_map(s, x)];
    if flag(s.lcdc, TILE_DATA_LOW) {
        id * 16
    } else {
        0x800 + ((id + 128) % 256) * 16
    }
}

pub open spec fn bg_ty(s: PpuView, x: int) -> int {
    if flag(bg_attr(s, x), ATTR_Y_FLIP) {
        7 - bg_py(s, x) % 8
    } else {
        bg_py(s, x) % 8
    }
}

pub open spec fn bg_tx(s: PpuView, x: int) -> int {
    if flag(bg_attr(s, x), ATTR_X_FLIP) {
        7 - bg_px(s, x) % 8
    } else {
        bg_px(s, x) % 8
    }
}

/// Index in VRAM of the low byte of the tile row under column `x`.
pub open spec fn bg_row(s: PpuView, x: int) -> int {
    (if s.color && flag(bg_attr(s, x), ATTR_BANK) { 0x2000int } else { 0int }) + bg_tile(s, x) + bg_ty(s, x) * 2
}

pub open spec fn bg_color(s: PpuView, x: int) -> u8 {
    decode(s.ram[bg_row(s, x)], s.ram[bg_row(s, x) + 1], bg_tx(s, x) as u8)
}

pub open spec fn bg_prio(s: PpuView, x: int) -> Priority {
    if bg_color(s, x) == 0 {
        Priority::Color0
    } else if flag(bg_attr(s, x), ATTR_PRIORITY) {
        Priority::Priority
    } else {
        Priority::Normal
    }
}

pub open spec fn bg_rgb(s: PpuView, x: int) -> Rgb {
    if s.color {
        (0, 0, 0)
    } else {
        grey(s.bgp, bg_color(s, x))
    }
}

/// The state once the background and window of line LY are drawn.
pub open spec fn bg_drawn(s: PpuView) -> PpuView {
    PpuView {
        fb: paint(s.fb, s.ly, |x: int| Some(bg_rgb(s, x))),
        bgprio: Seq::new(160, |x: int| bg_prio(s, x)),
        ..s
    }
}

// ----- sprites -----

pub open spec fn obj_height(s: PpuView) -> int {
    if flag(s.lcdc, OBJ_16H) {
        16
    } else {
        8
    }
}

pub open spec fn obj_py(s: PpuView, i: int) -> int {
    (s.oam[4 * i] + 240) % 256
}

pub open spec fn obj_px(s: PpuView, i: int) -> int {
    (s.oam[4 * i + 1] + 248) % 256
}

pub open spec fn obj_tile(s: PpuView, i: int) -> int {
    if flag(s.lcdc, OBJ_16H) {
        (s.oam[4 * i + 2] & 0xFE) as int
    } else {
        s.oam[4 * i + 2] as int
    }
}

pub open spec fn obj_attr(s: PpuView, i: int) -> u8 {
    s.oam[4 * i + 3]
}

/// Row of sprite `i` that line LY crosses, counted from its top, wrapping.
pub open spec fn obj_dy(s: PpuView, i: int) -> int {
    (s.ly + 256 - obj_py(s, i)) % 256
}

pub open spec fn obj_on_line(s: PpuView, i: int) -> bool {
    obj_dy(s, i) < obj_height(s)
}

pub open spec fn obj_ty(s: PpuView, i: int) -> int {
    if flag(obj_attr(s, i), ATTR_Y_FLIP) {
        obj_height(s) - 1 - obj_dy(s, i)
    } else {
        obj_dy(s, i)
    }
}

pub open spec fn obj_row(s: PpuView, i: int) -> int {
    (if s.color && flag(obj_attr(s, i), ATTR_BANK) { 0x2000int } else { 0int }) + obj_tile(s, i) * 16
        + obj_ty(s, i) * 2
}

/// Column of sprite `i` that lands on screen column `x`, wrapping.
pub open spec fn obj_k(s: PpuView, i: int, x: int) -> int {
    (x + 256 - obj_px(s, i)) % 256
}

pub open spec fn obj_color(s: PpuView, i: int, k: int) -> u8 {
    let tx = if flag(obj_attr(s, i), ATTR_X_FLIP) { 7 - k } else { k };
    decode(s.ram[obj_row(s, i)], s.ram[obj_row(s, i) + 1], tx as u8)
}

/// Whether the background keeps column `x` from sprite `i`.
pub open spec fn bg_wins(s: PpuView, i: int, x: int) -> bool {
    let p = s.bgprio[x];
    if s.color && !flag(s.lcdc, BG_PRIORITY) {
        p == Priority::Priority
    } else {
        p == Priority::Priority || (flag(obj_attr(s, i), ATTR_PRIORITY) && p != Priority::Color0)
    }
}

pub open spec fn obj_palette(s: PpuView, i: int) -> u8 {
    if flag(obj_attr(s, i), ATTR_PALETTE) {
        s.op1
    } else {
        s.op0
    }
}

/// The colour that sprite `i` puts at column `x` of line LY, if any.
#[verifier::opaque]
pub open spec fn obj_hit(s: PpuView, i: int, x: int) -> Option<Rgb> {
    let k = obj_k(s, i, x);
    if 0 <= x < 160 && k < 8 && obj_on_line(s, i) && obj_color(s, i, k) != 0 && !bg_wins(s, i, x)
        && !s.color {
        Some(grey(obj_palette(s, i), obj_color(s, i, k)))
    } else {
        None
    }
}

/// The colour at column `x` from the first `n` sprites; a later one covers an earlier one.
pub open spec fn objs_upto(s: PpuView, n: int, x: int) -> Option<Rgb>
    decreases n,
{
    if n <= 0 {
        None
    } else {
        match obj_hit(s, n - 1, x) {
            Some(c) => Some(c),
            None => objs_upto(s, n - 1, x),
        }
    }
}

/// As `objs_upto(s, n, x)`, with the first `k` columns of sprite `n` on top.
pub open spec fn objs_partial(s: PpuView, n: int, k: int, x: int) -> Option<Rgb> {
    if obj_k(s, n, x) < k && obj_hit(s, n, x) is Some {
        obj_hit(s, n, x)
    } else {
        objs_upto(s, n, x)
    }
}

/// The state once the sprites of line LY are drawn.
pub open spec fn sprites_drawn(s: PpuView) -> PpuView {
    PpuView { fb: paint(s.fb, s.ly, |x: int| objs_upto(s, 40, x)), ..s }
}

/// The state once line LY is rendered, as on the Draw to HBlank transition.
pub open spec fn line_drawn(s: PpuView) -> PpuView {
    let s1 = if s.color || flag(s.lcdc, BG_PRIORITY) {
        bg_drawn(s)
    } else {
        s
    };
    if flag(s.lcdc, OBJ_ENABLE) {
        sprites_drawn(s1)
    } else {
        s1
    }
}


/// A sprite only colours its own eight columns of a line it crosses.
proof fn lemma_hit_in_reach(s: PpuView, i: int, x: int)
    ensures
        obj_hit(s, i, x) is Some ==> obj_k(s, i, x) < 8 && obj_on_line(s, i),
{
    reveal(obj_hit);
}

/// Drawing column `k` of sprite `i` at `dst` extends the painted prefix by that column.
proof fn lemma_sprite_column(
    s: PpuView,
    i: int,
    k: int,
    dst: int,
    hit: Option<Rgb>,
    fb0: Seq<u8>,
    fb1: Seq<u8>,
)
    requires
        s.wf(),
        s.ly < 144,
        0 <= i < 40,
        0 <= k < 8,
        dst == (obj_px(s, i) + k) % 256,
        dst < 160 ==> hit == obj_hit(s, i, dst),
        dst >= 160 ==> hit is None,
        fb0 == paint(s.fb, s.ly, |x: int| objs_partial(s, i, k, x)),
        fb1.len() == fb0.len(),
        forall|j: int|
            0 <= j < fb0.len() ==> #[trigger] fb1[j] == if hit is Some && row_start(s.ly) + 4 * dst <= j
                < row_start(s.ly) + 4 * dst + 4 {
                rgba(hit->Some_0, j - row_start(s.ly) - 4 * dst)
            } else {
                fb0[j]
            },
    ensures
        fb1 == paint(s.fb, s.ly, |x: int| objs_partial(s, i, k + 1, x)),
{
    let f = |x: int| objs_partial(s, i, k + 1, x);
    let want = paint(s.fb, s.ly, f);
    assert forall|j: int| 0 <= j < fb1.len() implies fb1[j] == want[j] by {
        let d = j - row_start(s.ly);
        if 0 <= d < 640 {
            let x = d / 4;
            if x != dst {
                assert(obj_k(s, i, x) != k);
            }
        }
    }
    assert(fb1 =~= want);
}

fn decode_color(lo: u8, hi: u8, tx: u8) -> (r: u8)
    requires
        tx < 8,
    ensures
        r == decode(lo, hi, tx),
        r <= 3,
{
    let h: u8 = if hi & (0x80u8 >> tx) != 0 { 2 } else { 0 };
    let l: u8 = if lo & (0x80u8 >> tx) != 0 { 1 } else { 0 };
    h + l
}

impl PPU {
    /// Picks shade `i` of the grey palette `v`.
    pub fn grey_to_l(v: u8, i: usize) -> (r: Rgb)
        requires
            i <= 3,
        ensures
            r == grey(v, i as u8),
    {
        let s = (v >> (2 * i as u8)) & 3;
        if s == 0 {
            (175, 203, 70)
        } else if s == 1 {
            (121, 170, 109)
        } else if s == 2 {
            (34, 111, 95)
        } else {
            (8, 41, 85)
        }
    }

    /// Writes colour `c` at column `x` of line LY.
    fn set_rgb(&mut self, x: usize, c: Rgb)
        requires
            old(self)@.wf(),
            old(self).ly < 144,
            x < 160,
        ensures
            final(self)@ == (PpuView { fb: final(self)@.fb, ..old(self)@ }),
            final(self)@.fb.len() == old(self)@.fb.len(),
            forall|i: int|
                0 <= i < old(self)@.fb.len() ==> #[trigger] final(self)@.fb[i] == if row_start(
                    old(self).ly,
                ) + 4 * x <= i < row_start(old(self).ly) + 4 * x + 4 {
                    rgba(c, i - row_start(old(self).ly) - 4 * x)
                } else {
                    old(self)@.fb[i]
                },
    {
        let o: usize = self.ly as usize * 640 + x * 4;
        self.frame_buffer.set(o, c.0);
        self.frame_buffer.set(o + 1, c.1);
        self.frame_buffer.set(o + 2, c.2);
        self.frame_buffer.set(o + 3, 0xFF);
    }

    #[verifier::rlimit(40)]
    fn bg_pixel(&self, x: usize) -> (r: (u8, Priority))
        requires
            self@.wf(),
            x < 160,
        ensures
            r.0 == bg_color(self@, x as int),
            r.1 == bg_prio(self@, x as int),
            r.0 <= 3,
    {
        let wx: u16 = (self.wx as u16 + 249) % 256;
        let win = (self.lcdc & WINDOW_ENABLE) != 0 && self.wy <= self.ly && x as u16 >= wx;
        let py: u16 = if win {
            (self.ly - self.wy) as u16
        } else {
            (self.sy as u16 + self.ly as u16) % 256
        };
        let px: u16 = if win {
            x as u16 - wx
        } else {
            (self.sx as u16 + x as u16) % 256
        };
        let base: u16 = if win {
            if self.lcdc & WINDOW_MAP_HIGH != 0 {
                0x1C00
            } else {
                0x1800
            }
        } else if self.lcdc & BG_MAP_HIGH != 0 {
            0x1C00
        } else {
            0x1800
        };
        let map: usize = (base + (py / 8) * 32 + px / 8) as usize;
        let color = self.mode == GBMode::Color;
        let attr: u8 = if color {
            self.ram[0x2000 + map]
        } else {
            0
        };
        let id = self.ram[map];
        let tile: usize = if self.lcdc & TILE_DATA_LOW != 0 {
            id as usize * 16
        } else {
            0x800 + ((id as usize + 128) % 256) * 16
        };
        let ty: usize = if attr & ATTR_Y_FLIP != 0 {
            7 - (py % 8) as usize
        } else {
            (py % 8) as usize
        };
        let tx: u8 = if attr & ATTR_X_FLIP != 0 {
            7 - (px % 8) as u8
        } else {
            (px % 8) as u8
        };
        let bank: usize = if color && attr & ATTR_BANK != 0 {
            0x2000
        } else {
            0
        };
        let row = bank + tile + ty * 2;
        let c = decode_color(self.ram[row], self.ram[row + 1], tx);
        let p = if c == 0 {
            Priority::Color0
        } else if attr & ATTR_PRIORITY != 0 {
            Priority::Priority
        } else {
            Priority::Normal
        };
        (c, p)
    }

    /// Renders the background and window of line LY and records what they left per column.
    pub fn draw_bg(&mut self)
        requires
            old(self)@.wf(),
            old(self).ly < 144,
        ensures
            final(self)@ == bg_drawn(old(self)@),
    {
        let ghost s = self@;
        proof {
            let z: usize = 0;
            assert(s.fb =~= paint(s.fb, s.ly, |p: int| if p < z { Some(bg_rgb(s, p)) } else { None }));
            assert(s.bgprio =~= Seq::new(160, |p: int| if p < z { bg_prio(s, p) } else { s.bgprio[p] }));
        }
        let mut x: usize = 0;
        while x < 160
            invariant
                s.wf(),
                s.ly < 144,
                0 <= x <= 160,
                self@ == (PpuView {
                    fb: paint(s.fb, s.ly, |p: int| if p < x { Some(bg_rgb(s, p)) } else { None }),
                    bgprio: Seq::new(160, |p: int| if p < x { bg_prio(s, p) } else { s.bgprio[p] }),
                    ..s
                }),
            decreases 160 - x,
        {
            let (c, p) = self.bg_pixel(x);
            let rgb = if self.mode == GBMode::Color {
                (0u8, 0u8, 0u8)
            } else {
                PPU::grey_to_l(self.bgp, c as usize)
            };
            let ghost fb0 = self@.fb;
            self.bgprio.set(x, p);
            self.set_rgb(x, rgb);
            x = x + 1;
            proof {
                assert(self@.fb =~= paint(s.fb, s.ly, |p: int| if p < x { Some(bg_rgb(s, p)) } else { None }));
                assert(self@.bgprio =~= Seq::new(160, |p: int| if p < x { bg_prio(s, p) } else { s.bgprio[p] }));
            }
        }
        proof {
            assert(self@.fb =~= paint(s.fb, s.ly, |p: int| Some(bg_rgb(s, p))));
            assert(self@.bgprio =~= Seq::new(160, |p: int| bg_prio(s, p)));
        }
    }

    /// Colour that column `k` of sprite `i` leaves at screen column `dst`, if any.
    fn sprite_pixel(&self, Ghost(s): Ghost<PpuView>, i: usize, k: u16, dst: u16, attr: u8, lo: u8, hi: u8) -> (r: Option<Rgb>)
        requires
            self@ == (PpuView { fb: self@.fb, ..s }),
            self@.wf(),
            i < 40,
            k < 8,
            obj_on_line(self@, i as int),
            dst == (obj_px(self@, i as int) + k) % 256,
            attr == obj_attr(self@, i as int),
            lo == self@.ram[obj_row(self@, i as int)],
            hi == self@.ram[obj_row(self@, i as int) + 1],
        ensures
            dst < 160 ==> r == obj_hit(s, i as int, dst as int),
            dst >= 160 ==> r is None,
    {
        reveal(obj_hit);
        if dst >= 160 {
            return None;
        }
        assert(obj_k(self@, i as int, dst as int) == k);
        let color = self.mode == GBMode::Color;
        let tx: u8 = if attr & ATTR_X_FLIP != 0 {
            (7 - k) as u8
        } else {
            k as u8
        };
        let c = decode_color(lo, hi, tx);
        if c == 0 {
            return None;
        }
        let p = self.bgprio[dst as usize];
        let skip = if color && self.lcdc & BG_PRIORITY == 0 {
            p == Priority::Priority
        } else {
            p == Priority::Priority || (attr & ATTR_PRIORITY != 0 && p != Priority::Color0)
        };
        if skip || color {
            return None;
        }
        let pal = if attr & ATTR_PALETTE != 0 {
            self.op1
        } else {
            self.op0
        };
        Some(PPU::grey_to_l(pal, c as usize))
    }

    /// Overdraws line LY with the sprites of OAM, in OAM order, where the background lets them.
    pub fn draw_sprites(&mut self)
        requires
            old(self)@.wf(),
            old(self).ly < 144,
        ensures
            final(self)@ == sprites_drawn(old(self)@),
    {
        let ghost s = self@;
        proof {
            let z: usize = 0;
            assert(s.fb =~= paint(s.fb, s.ly, |x: int| objs_upto(s, z as int, x)));
        }
        let color = self.mode == GBMode::Color;
        let tall = self.lcdc & OBJ_16H != 0;
        let h: u16 = if tall { 16 } else { 8 };
        let mut i: usize = 0;
        while i < 40
            invariant
                s.wf(),
                s.ly < 144,
                0 <= i <= 40,
                color == s.color,
                tall == flag(s.lcdc, OBJ_16H),
                h == obj_height(s),
                self@ == (PpuView { fb: paint(s.fb, s.ly, |x: int| objs_upto(s, i as int, x)), ..s }),
            decreases 40 - i,
        {
            let py: u16 = (self.oam[4 * i] as u16 + 240) % 256;
            let px: u16 = (self.oam[4 * i + 1] as u16 + 248) % 256;
            let tile: usize = if tall {
                (self.oam[4 * i + 2] & 0xFE) as usize
            } else {
                self.oam[4 * i + 2] as usize
            };
            let attr = self.oam[4 * i + 3];
            let dy: u16 = (self.ly as u16 + 256 - py) % 256;
            if dy < h {
                let ty: u16 = if attr & ATTR_Y_FLIP != 0 {
                    h - 1 - dy
                } else {
                    dy
                };
                let bank: usize = if color && attr & ATTR_BANK != 0 {
                    0x2000
                } else {
                    0
                };
                let row: usize = bank + tile * 16 + ty as usize * 2;
                let lo = self.ram[row];
                let hi = self.ram[row + 1];
                let mut k: u16 = 0;
                proof {
                    assert(self@.fb =~= paint(s.fb, s.ly, |x: int| objs_partial(s, i as int, 0, x)));
                }
                while k < 8
                    invariant
                        s.wf(),
                        s.ly < 144,
                        0 <= i < 40,
                        0 <= k <= 8,
                        color == s.color,
                        obj_on_line(s, i as int),
                        px == obj_px(s, i as int),
                        attr == obj_attr(s, i as int),
                        row == obj_row(s, i as int),
                        lo == s.ram[row as int],
                        hi == s.ram[row + 1],
                        self@ == (PpuView {
                            fb: paint(s.fb, s.ly, |x: int| objs_partial(s, i as int, k as int, x)),
                            ..s
                        }),
                    decreases 8 - k,
                {
                    let dst: u16 = (px + k) % 256;
                    let ghost fb0 = self@.fb;
                    let hit = self.sprite_pixel(Ghost(s), i, k, dst, attr, lo, hi);
                    if let Some(rgb) = hit {
                        self.set_rgb(dst as usize, rgb);
                    }
                    proof {
                        lemma_sprite_column(s, i as int, k as int, dst as int, hit, fb0, self@.fb);
                    }
                    k = k + 1;
                }
                proof {
                    assert forall|x: int| objs_partial(s, i as int, 8, x) == objs_upto(s, i + 1, x) by {
                        lemma_hit_in_reach(s, i as int, x);
                    }
                    assert(self@.fb =~= paint(s.fb, s.ly, |x: int| objs_upto(s, i + 1, x)));
                }
            } else {
                proof {
                    assert forall|x: int| objs_upto(s, i as int, x) == objs_upto(s, i + 1, x) by {
                        lemma_hit_in_reach(s, i as int, x);
                    }
                    assert(self@.fb =~= paint(s.fb, s.ly, |x: int| objs_upto(s, i + 1, x)));
                }
            }
            i = i + 1;
        }
    }
}

} // verus!

verus! {

/// A sprite whose OAM y is 0 sits at 0xF0, above the screen, and colours no pixel.
pub proof fn lemma_sprite_at_y0_culled(s: PpuView, i: int, x: int)
    requires
        s.wf(),
        0 <= i < 40,
        s.oam[4 * i] == 0,
    ensures
        obj_py(s, i) == 0xF0,
        !obj_on_line(s, i),
        obj_hit(s, i, x) is None,
{
    reveal(obj_hit);
}

/// WX = 7 puts the window's first column at screen x = 0; a WX below 7 wraps past the
/// right edge, so the window covers no column.
pub proof fn lemma_window_origin(s: PpuView, x: int)
    requires
        0 <= x < 160,
    ensures
        s.wx == 7 && flag(s.lcdc, WINDOW_ENABLE) && s.wy <= s.ly ==> in_window(s, x) && bg_px(s, x)
            == x,
        s.wx < 7 ==> !in_window(s, x),
{
}

} // verus!
