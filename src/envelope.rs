use vstd::prelude::*;

verus! {

/// T-cycles per second of the system clock.
pub const CLOCK_HZ: u32 = 4194304;
/// T-cycles between two length ticks (256 Hz).
pub const LENGTH_PERIOD: u32 = 16384;
/// T-cycles between two envelope ticks (64 Hz).
pub const ENVELOPE_PERIOD: u32 = 65536;
/// T-cycles between two sweep ticks (128 Hz).
pub const SWEEP_PERIOD: u32 = 32768;

/// Ticks of a timer of period `p` that `n` more cycles complete, its clock standing at `clock`.
pub open spec fn ticks(clock: int, n: int, p: int) -> int {
    (clock + n) / p
}

/// The length counter after `t` ticks: (timer, still enabled, ran out).
pub open spec fn length_after(timer: int, enabled: bool, t: int, max: int) -> (int, bool, bool) {
    if !enabled {
        (timer, false, false)
    } else if timer + t >= max {
        (max, false, true)
    } else {
        (timer + t, true, false)
    }
}

/// Volume after `steps` envelope steps, saturating at 0 and 15.
pub open spec fn volume_after(volume: int, up: bool, steps: int) -> int {
    if up {
        if volume + steps > 15 {
            15
        } else {
            volume + steps
        }
    } else if volume - steps < 0 {
        0
    } else {
        volume - steps
    }
}

/// Envelope state after `t` ticks of 64 Hz: (volume, ticks counted toward the next step).
pub open spec fn envelope_after(volume: int, up: bool, pace: int, count: int, t: int) -> (int, int) {
    if pace == 0 {
        (volume, count)
    } else {
        (volume_after(volume, up, (count + t) / pace), (count + t) % pace)
    }
}

/// Advances a timer clock of period `p` by `n` cycles; returns the new clock and the ticks.
pub fn advance_clock(clock: u32, n: u32, p: u32) -> (r: (u32, u64))
    requires
        p > 0,
        clock < p,
    ensures
        r.0 == (clock + n) % (p as int),
        r.1 == ticks(clock as int, n as int, p as int),
        r.0 < p,
        r.1 <= 0x2_0000_0000,
{
    let total: u64 = clock as u64 + n as u64;
    assert(total / (p as u64) <= total) by (nonlinear_arith)
        requires
            p > 0,
    ;
    ((total % p as u64) as u32, total / p as u64)
}

/// Runs a length counter for `t` ticks.
pub fn run_length(timer: u16, enabled: bool, t: u64, max: u16) -> (r: (u16, bool, bool))
    requires
        timer <= max,
    ensures
        r.0 as int == length_after(timer as int, enabled, t as int, max as int).0,
        r.1 == length_after(timer as int, enabled, t as int, max as int).1,
        r.2 == length_after(timer as int, enabled, t as int, max as int).2,
        r.0 <= max,
{
    if !enabled {
        (timer, false, false)
    } else if t >= (max - timer) as u64 {
        (max, false, true)
    } else {
        (timer + t as u16, true, false)
    }
}

/// Runs a volume envelope for `t` ticks.
pub fn run_envelope(volume: u8, up: bool, pace: u8, count: u8, t: u64) -> (r: (u8, u8))
    requires
        volume <= 15,
        pace <= 7,
        count < 8,
        pace > 0 ==> count < pace,
        t <= 0x2_0000_0000,
    ensures
        r.0 as int == envelope_after(volume as int, up, pace as int, count as int, t as int).0,
        r.1 as int == envelope_after(volume as int, up, pace as int, count as int, t as int).1,
        r.0 <= 15,
        r.1 < 8,
        pace > 0 ==> r.1 < pace,
{
    if pace == 0 {
        return (volume, count);
    }
    let total: u64 = count as u64 + t;
    let steps: u64 = total / pace as u64;
    let c = (total % pace as u64) as u8;
    let v: u8 = if up {
        if steps > 15 - volume as u64 {
            15
        } else {
            volume + steps as u8
        }
    } else if steps > volume as u64 {
        0
    } else {
        volume - steps as u8
    };
    (v, c)
}

} // verus!
