//! Per-iteration delta time and a rolling frames-per-second average.
//!
//! Time is carried as whole microseconds of a monotonic clock. Each `tick`
//! takes the current reading, derives the elapsed delta (a stalled or
//! backwards reading yields zero, never a negative delta), and accumulates
//! it. Once a full averaging window has elapsed the tracker publishes
//! `frames / elapsed` — in thousandths of a frame per second — and starts a
//! fresh window, so the published figure is a stable average rather than the
//! volatile reciprocal of a single delta.

use vstd::prelude::*;
use crate::num::clamp_u64;
use crate::num::sat_add_u64;

verus! {

/// Width of the averaging window, in microseconds of accumulated delta time.
pub const FPS_WINDOW_MICROS: u64 = 1_000_000;

/// Mathematical model of `FpsClock`.
pub ghost struct ClockModel {
    /// The clock reading of the previous tick, in microseconds.
    pub last: int,
    /// Delta produced by the most recent tick, in microseconds.
    pub dt: int,
    /// Delta time accumulated in the open averaging window.
    pub dt_sum: int,
    /// Frames counted in the open averaging window.
    pub frames: int,
    /// Last published average, in thousandths of a frame per second.
    pub avg_fps_milli: int,
}

/// The state a tracker starts from, given the clock reading at start-up.
pub open spec fn initial_clock(now: int) -> ClockModel {
    ClockModel { last: now, dt: 0, dt_sum: 0, frames: 0, avg_fps_milli: 0 }
}

/// The effect of one tick at clock reading `now`. The delta is
/// `now - last`, floored at zero; the sample is counted even when the delta
/// is zero. When the accumulated window reaches `FPS_WINDOW_MICROS` the
/// average is published — the window is at least a full second, so the
/// division is never by zero — and both window accumulators return to zero.
pub open spec fn tick_spec(m: ClockModel, now: int) -> ClockModel {
    let dt = if now >= m.last {
        now - m.last
    } else {
        0
    };
    let sum = clamp_u64(m.dt_sum + dt);
    let frames = clamp_u64(m.frames + 1);
    if sum >= FPS_WINDOW_MICROS {
        ClockModel {
            last: now,
            dt,
            dt_sum: 0,
            frames: 0,
            avg_fps_milli: clamp_u64(frames * 1_000_000_000 / sum),
        }
    } else {
        ClockModel { last: now, dt, dt_sum: sum, frames, avg_fps_milli: m.avg_fps_milli }
    }
}

/// Monotonic per-iteration delta time and a smoothed FPS metric.
pub struct FpsClock {
    last_micros: u64,
    dt_micros: u64,
    dt_sum_micros: u64,
    frame_count: u64,
    avg_fps_milli: u64,
}

impl View for FpsClock {
    type V = ClockModel;

    closed spec fn view(&self) -> ClockModel {
        ClockModel {
            last: self.last_micros as int,
            dt: self.dt_micros as int,
            dt_sum: self.dt_sum_micros as int,
            frames: self.frame_count as int,
            avg_fps_milli: self.avg_fps_milli as int,
        }
    }
}

impl FpsClock {
    /// A fresh tracker whose previous sample time is the given reading.
    pub fn new(now_micros: u64) -> (c: FpsClock)
        ensures
            c@ == initial_clock(now_micros as int),
    {
        FpsClock {
            last_micros: now_micros,
            dt_micros: 0,
            dt_sum_micros: 0,
            frame_count: 0,
            avg_fps_milli: 0,
        }
    }

    /// Advances the tracker by one iteration at clock reading `now_micros`.
    pub fn tick(&mut self, now_micros: u64)
        ensures
            final(self)@ == tick_spec(old(self)@, now_micros as int),
    {
        let dt = if now_micros >= self.last_micros {
            now_micros - self.last_micros
        } else {
            0
        };
        self.last_micros = now_micros;
        self.dt_micros = dt;
        self.dt_sum_micros = sat_add_u64(self.dt_sum_micros, dt);
        self.frame_count = sat_add_u64(self.frame_count, 1);
        if self.dt_sum_micros >= FPS_WINDOW_MICROS {
            proof {
                assert(self.frame_count as int * 1_000_000_000 <= u64::MAX as int * 1_000_000_000)
                    by (nonlinear_arith)
                    requires
                        0 <= self.frame_count as int <= u64::MAX as int,
                ;
            }
            let milli: u128 = (self.frame_count as u128) * 1_000_000_000u128 / (
            self.dt_sum_micros as u128);
            self.avg_fps_milli = if milli > u64::MAX as u128 {
                u64::MAX
            } else {
                milli as u64
            };
            self.dt_sum_micros = 0;
            self.frame_count = 0;
        }
    }

    /// Delta produced by the most recent tick, in microseconds.
    pub fn dt_micros(&self) -> (r: u64)
        ensures
            r as int == self@.dt,
    {
        self.dt_micros
    }

    /// Delta time accumulated in the open averaging window, in microseconds.
    pub fn dt_sum_micros(&self) -> (r: u64)
        ensures
            r as int == self@.dt_sum,
    {
        self.dt_sum_micros
    }

    /// Last published average, in thousandths of a frame per second. Zero
    /// until the first averaging window closes.
    pub fn avg_fps_milli(&self) -> (r: u64)
        ensures
            r as int == self@.avg_fps_milli,
    {
        self.avg_fps_milli
    }
}

/// Law: the delta is never negative, the published average only changes when
/// a full averaging window has elapsed, and publishing empties the window —
/// both accumulators return to zero the moment an average is published.
pub proof fn lemma_window_publish(m: ClockModel, now: int)
    requires
        0 <= m.dt_sum,
        0 <= m.frames,
    ensures
        tick_spec(m, now).dt >= 0,
        tick_spec(m, now).avg_fps_milli != m.avg_fps_milli ==> clamp_u64(
            m.dt_sum + tick_spec(m, now).dt,
        ) >= FPS_WINDOW_MICROS,
        clamp_u64(m.dt_sum + tick_spec(m, now).dt) >= FPS_WINDOW_MICROS ==> tick_spec(
            m,
            now,
        ).dt_sum == 0 && tick_spec(m, now).frames == 0,
{
}

} // verus!
