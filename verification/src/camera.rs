//! The orbiting camera, updated once per frame from the accumulated input.
//!
//! Coordinates are fixed-point integers: one camera unit per pan unit per
//! microsecond of elapsed time. Scaling the per-frame delta by the elapsed
//! time makes motion frame-rate independent — `lemma_frame_rate_independence`
//! states that law. The presentation layer maps these integers onto whatever
//! floating-point scale its projection wants.

use vstd::prelude::*;
use crate::num::clamp_i64;
use crate::num::sat_add_scaled;

verus! {

/// Mathematical model of `Camera`.
pub ghost struct CameraModel {
    pub x: int,
    pub y: int,
    pub zoom: int,
}

/// One axis advanced by one frame: the accumulated input delta, scaled by
/// the elapsed time, saturating at the bounds of `i64`.
pub open spec fn axis_step(c: int, delta: int, dt: int) -> int {
    clamp_i64(c + delta * dt)
}

/// A whole camera advanced by one frame.
pub open spec fn apply_spec(m: CameraModel, pan_x: int, pan_y: int, zoom: int, dt: int) -> CameraModel {
    CameraModel {
        x: axis_step(m.x, pan_x, dt),
        y: axis_step(m.y, pan_y, dt),
        zoom: axis_step(m.zoom, zoom, dt),
    }
}

/// One axis advanced over a run of frames, each with the same input delta
/// and its own elapsed time.
pub open spec fn axis_run(c: int, delta: int, dts: Seq<int>) -> int
    decreases dts.len(),
{
    if dts.len() == 0 {
        c
    } else {
        axis_step(axis_run(c, delta, dts.drop_last()), delta, dts.last())
    }
}

/// Sum of a sequence of elapsed times.
pub open spec fn sum_dts(dts: Seq<int>) -> int
    decreases dts.len(),
{
    if dts.len() == 0 {
        0
    } else {
        sum_dts(dts.drop_last()) + dts.last()
    }
}

/// The camera the viewer orbits, pans and zooms.
pub struct Camera {
    x: i64,
    y: i64,
    zoom: i64,
}

impl View for Camera {
    type V = CameraModel;

    closed spec fn view(&self) -> CameraModel {
        CameraModel { x: self.x as int, y: self.y as int, zoom: self.zoom as int }
    }
}

/// Where the camera starts: the origin at neutral zoom.
pub open spec fn initial_camera() -> CameraModel {
    CameraModel { x: 0, y: 0, zoom: 0 }
}

impl Camera {
    /// A camera at the origin.
    pub fn new() -> (c: Camera)
        ensures
            c@ == initial_camera(),
    {
        Camera { x: 0, y: 0, zoom: 0 }
    }

    /// Advances the camera by one frame: each accumulated input delta is
    /// scaled by the elapsed time and added onto its axis.
    pub fn apply(&mut self, pan_x: i64, pan_y: i64, zoom: i64, dt_micros: u64)
        ensures
            final(self)@ == apply_spec(
                old(self)@,
                pan_x as int,
                pan_y as int,
                zoom as int,
                dt_micros as int,
            ),
    {
        self.x = sat_add_scaled(self.x, pan_x, dt_micros);
        self.y = sat_add_scaled(self.y, pan_y, dt_micros);
        self.zoom = sat_add_scaled(self.zoom, zoom, dt_micros);
    }

    /// Horizontal position, in camera units.
    pub fn x(&self) -> (r: i64)
        ensures
            r as int == self@.x,
    {
        self.x
    }

    /// Vertical position, in camera units.
    pub fn y(&self) -> (r: i64)
        ensures
            r as int == self@.y,
    {
        self.y
    }

    /// Zoom level, in camera units.
    pub fn zoom(&self) -> (r: i64)
        ensures
            r as int == self@.zoom,
    {
        self.zoom
    }
}

/// Law: motion is frame-rate independent. A constant per-frame input delta
/// held over a stretch of time moves an axis by `delta` times the total
/// elapsed time, no matter how that time is divided into frames — as long as
/// no intermediate position leaves the range of `i64` (where the axis would
/// saturate instead).
pub proof fn lemma_frame_rate_independence(c: int, delta: int, dts: Seq<int>)
    requires
        forall|i: int| 0 <= i < dts.len() ==> dts[i] >= 0,
        forall|i: int|
            0 <= i <= dts.len() ==> i64::MIN as int <= c + delta * sum_dts(
                #[trigger] dts.take(i),
            ) <= i64::MAX as int,
    ensures
        axis_run(c, delta, dts) == c + delta * sum_dts(dts),
    decreases dts.len(),
{
    if dts.len() == 0 {
        assert(dts.take(0) =~= dts);
        assert(c + delta * 0 == c) by (nonlinear_arith);
    } else {
        let pre = dts.drop_last();
        assert(dts.take(dts.len() as int) =~= dts);
        assert forall|i: int| 0 <= i <= pre.len() implies #[trigger] pre.take(i) == dts.take(
            i,
        ) by {
            assert(pre.take(i) =~= dts.take(i));
        }
        lemma_frame_rate_independence(c, delta, pre);
        assert(delta * (sum_dts(pre) + dts.last()) == delta * sum_dts(pre) + delta * dts.last())
            by (nonlinear_arith);
    }
}

} // verus!
