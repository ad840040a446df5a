use vstd::prelude::*;
use crate::ppu::{enters_vblank, frame_done, lemma_tick_wf, mode_len, run, tick, PPUMode, PpuView};

verus! {

/// However long the PPU runs, LY stays in 0 to 153 and is in 144 to 153 exactly in VBlank.
pub proof fn lemma_run_in_frame(s: PpuView, n: nat)
    requires
        s.wf(),
    ensures
        run(s, n).wf(),
        run(s, n).ly <= 153,
        run(s, n).ly >= 144 <==> run(s, n).ppu_mode == PPUMode::VBlank,
    decreases n,
{
    if n > 0 {
        lemma_run_in_frame(s, (n - 1) as nat);
        lemma_tick_wf(run(s, (n - 1) as nat));
    }
}

/// Running `a` then `b` T-cycles is running `a + b`.
pub proof fn lemma_run_add(s: PpuView, a: nat, b: nat)
    ensures
        run(s, a + b) == run(run(s, a), b),
    decreases b,
{
    if b > 0 {
        lemma_run_add(s, a, (b - 1) as nat);
        assert(run(s, a + b) == tick(run(s, (a + b - 1) as nat)));
    }
}

/// VBlank is entered within `a + b` cycles iff within the first `a` or the `b` after them.
pub proof fn lemma_frame_done_add(s: PpuView, a: nat, b: nat)
    ensures
        frame_done(s, a + b) == (frame_done(s, a) || frame_done(run(s, a), b)),
    decreases b,
{
    if b > 0 {
        lemma_frame_done_add(s, a, (b - 1) as nat);
        lemma_run_add(s, a, (b - 1) as nat);
        assert(frame_done(s, a + b) == (frame_done(s, (a + b - 1) as nat) || enters_vblank(
            run(s, (a + b - 1) as nat),
        )));
    }
}

/// Within one stretch of a mode only the cycle counter moves, and VBlank is not entered.
proof fn lemma_stay(s: PpuView, k: nat)
    requires
        s.cycle_count + k < mode_len(s.ppu_mode),
    ensures
        run(s, k).ppu_mode == s.ppu_mode,
        run(s, k).ly == s.ly,
        run(s, k).cycle_count == s.cycle_count + k,
        !frame_done(s, k),
    decreases k,
{
    if k > 0 {
        lemma_stay(s, (k - 1) as nat);
    }
}

/// A full stretch of mode `m` that starts at count 0: the last of its cycles makes the transition.
proof fn lemma_stretch(s: PpuView)
    requires
        s.cycle_count == 0,
    ensures
        run(s, mode_len(s.ppu_mode) as nat) == tick(run(s, (mode_len(s.ppu_mode) - 1) as nat)),
        run(s, (mode_len(s.ppu_mode) - 1) as nat).ppu_mode == s.ppu_mode,
        run(s, (mode_len(s.ppu_mode) - 1) as nat).ly == s.ly,
        run(s, (mode_len(s.ppu_mode) - 1) as nat).cycle_count == mode_len(s.ppu_mode) - 1,
        !frame_done(s, (mode_len(s.ppu_mode) - 1) as nat),
        frame_done(s, mode_len(s.ppu_mode) as nat) == enters_vblank(
            run(s, (mode_len(s.ppu_mode) - 1) as nat),
        ),
{
    lemma_stay(s, (mode_len(s.ppu_mode) - 1) as nat);
}

/// One visible line from the start of its OAM scan: 456 cycles to the next line, and on
/// line 143 the last cycle enters VBlank.
proof fn lemma_visible_line(s: PpuView)
    requires
        s.ppu_mode == PPUMode::OAMScan,
        s.cycle_count == 0,
        s.ly <= 143,
    ensures
        run(s, 456).cycle_count == 0,
        run(s, 456).ly == s.ly + 1,
        s.ly < 143 ==> run(s, 456).ppu_mode == PPUMode::OAMScan && !frame_done(s, 456),
        s.ly == 143 ==> run(s, 456).ppu_mode == PPUMode::VBlank && !frame_done(s, 455)
            && enters_vblank(run(s, 455)),
{
    lemma_stretch(s);
    let d = run(s, 80);
    assert(d.ppu_mode == PPUMode::Draw && d.cycle_count == 0 && d.ly == s.ly);
    lemma_stretch(d);
    let h = run(d, 172);
    assert(h.ppu_mode == PPUMode::HBlank && h.cycle_count == 0 && h.ly == s.ly);
    lemma_stretch(h);
    lemma_run_add(s, 80, 172);
    lemma_run_add(s, 252, 204);
    lemma_run_add(s, 252, 203);
    lemma_frame_done_add(s, 80, 172);
    lemma_frame_done_add(s, 252, 204);
    lemma_frame_done_add(s, 252, 203);
}

/// One VBlank line: 456 cycles to the next, with no VBlank entry; after line 153 comes line 0.
proof fn lemma_vblank_line(s: PpuView)
    requires
        s.ppu_mode == PPUMode::VBlank,
        s.cycle_count == 0,
        144 <= s.ly <= 153,
    ensures
        run(s, 456).cycle_count == 0,
        !frame_done(s, 456),
        s.ly < 153 ==> run(s, 456).ppu_mode == PPUMode::VBlank && run(s, 456).ly == s.ly + 1,
        s.ly == 153 ==> run(s, 456).ppu_mode == PPUMode::OAMScan && run(s, 456).ly == 0,
{
    lemma_stretch(s);
}

proof fn lemma_visible_lines(s: PpuView, n: nat)
    requires
        s.ppu_mode == PPUMode::OAMScan,
        s.cycle_count == 0,
        s.ly + n <= 143,
    ensures
        run(s, 456 * n).ppu_mode == PPUMode::OAMScan,
        run(s, 456 * n).cycle_count == 0,
        run(s, 456 * n).ly == s.ly + n,
        !frame_done(s, 456 * n),
    decreases n,
{
    if n > 0 {
        let m = (n - 1) as nat;
        lemma_visible_lines(s, m);
        lemma_visible_line(run(s, 456 * m));
        lemma_run_add(s, 456 * m, 456);
        lemma_frame_done_add(s, 456 * m, 456);
        assert(456 * m + 456 == 456 * n);
    }
}

proof fn lemma_vblank_lines(s: PpuView, n: nat)
    requires
        s.ppu_mode == PPUMode::VBlank,
        s.cycle_count == 0,
        144 <= s.ly,
        s.ly + n <= 153,
    ensures
        run(s, 456 * n).ppu_mode == PPUMode::VBlank,
        run(s, 456 * n).cycle_count == 0,
        run(s, 456 * n).ly == s.ly + n,
        !frame_done(s, 456 * n),
    decreases n,
{
    if n > 0 {
        let m = (n - 1) as nat;
        lemma_vblank_lines(s, m);
        lemma_vblank_line(run(s, 456 * m));
        lemma_run_add(s, 456 * m, 456);
        lemma_frame_done_add(s, 456 * m, 456);
        assert(456 * m + 456 == 456 * n);
    }
}

/// From the moment VBlank is entered, the next entry comes on the 70224th cycle (154 lines of
/// 456), and the machine is then back where it started.
pub proof fn lemma_frame_period(s: PpuView)
    requires
        s.ppu_mode == PPUMode::VBlank,
        s.ly == 144,
        s.cycle_count == 0,
    ensures
        !frame_done(s, 70223),
        enters_vblank(run(s, 70223)),
        run(s, 70224).ppu_mode == PPUMode::VBlank,
        run(s, 70224).ly == 144,
        run(s, 70224).cycle_count == 0,
{
    lemma_vblank_lines(s, 9);
    let a = run(s, 4104);
    lemma_vblank_line(a);
    lemma_run_add(s, 4104, 456);
    lemma_frame_done_add(s, 4104, 456);
    let b = run(s, 4560);
    assert(b.ppu_mode == PPUMode::OAMScan && b.ly == 0 && b.cycle_count == 0);
    lemma_visible_lines(b, 143);
    lemma_run_add(s, 4560, 65208);
    lemma_frame_done_add(s, 4560, 65208);
    let c = run(s, 69768);
    assert(c.ppu_mode == PPUMode::OAMScan && c.ly == 143 && c.cycle_count == 0);
    lemma_visible_line(c);
    lemma_run_add(s, 69768, 455);
    lemma_run_add(s, 69768, 456);
    lemma_frame_done_add(s, 69768, 455);
}

} // verus!
