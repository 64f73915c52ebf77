//! The frame orchestrator and the per-iteration state machine of the run
//! loop.
//!
//! `CubeApp` owns the input accumulators, the clock/FPS tracker and the
//! camera, plus the lifecycle flag. One call to `run_iteration` is one turn
//! of the run loop: it folds the iteration's events into the input state,
//! reacts to structural events (resize, close), skips degenerate frames
//! whose surface has zero area, settles the camera before any rendering
//! decision, and hands back the actions — resize, render, full-screen
//! toggle — that the presentation layer must perform. GPU submission and
//! event polling themselves happen outside the library; the orchestrator
//! only decides.

use vstd::prelude::*;
use vstd::string::StringExecFns;
use crate::camera::Camera;
use crate::camera::CameraModel;
use crate::camera::apply_spec;
use crate::camera::initial_camera;
use crate::clock::ClockModel;
use crate::clock::FpsClock;
use crate::clock::initial_clock;
use crate::clock::tick_spec;
use crate::input::InputEvent;
use crate::input::InputModel;
use crate::input::InputState;
use crate::input::ingest_all;
use crate::input::initial_input;
use crate::input::reset_spec;

verus! {

/// The two states of the run loop. `Stopped` is terminal: once reached, no
/// iteration changes anything and no frame is submitted.
#[derive(Clone, Copy, PartialEq, Eq, Structural, Debug)]
pub enum LoopState {
    Running,
    Stopped,
}

/// What the presentation layer must do after one iteration: recreate its
/// surface, submit the compute-then-composite pair for one frame, or toggle
/// full-screen mode.
#[derive(Clone, Copy, PartialEq, Eq, Structural, Debug)]
pub struct FrameActions {
    pub resize: bool,
    pub render: bool,
    pub toggle_fullscreen: bool,
}

/// The actions of an iteration that renders nothing.
pub open spec fn no_actions(resize: bool) -> FrameActions {
    FrameActions { resize, render: false, toggle_fullscreen: false }
}

/// Holds when the sequence contains a window-close request.
pub open spec fn has_close(events: Seq<InputEvent>) -> bool
    decreases events.len(),
{
    if events.len() == 0 {
        false
    } else {
        has_close(events.drop_last()) || events.last() == InputEvent::CloseRequested
    }
}

/// Holds when the sequence contains a structural event that invalidates the
/// presentation surface.
pub open spec fn has_resize(events: Seq<InputEvent>) -> bool
    decreases events.len(),
{
    if events.len() == 0 {
        false
    } else {
        has_resize(events.drop_last()) || events.last() == InputEvent::Resized || events.last()
            == InputEvent::ScaleFactorChanged
    }
}

/// Mathematical model of `CubeApp`.
pub ghost struct AppModel {
    pub input: InputModel,
    pub clock: ClockModel,
    pub camera: CameraModel,
    pub running: bool,
}

/// The state the orchestrator starts from, given the clock reading at
/// start-up.
pub open spec fn initial_app(now: int) -> AppModel {
    AppModel {
        input: initial_input(),
        clock: initial_clock(now),
        camera: initial_camera(),
        running: true,
    }
}

/// One turn of the run loop, as a function from state, events, clock reading
/// and surface size to the next state and the actions owed. In order: a
/// stopped loop does nothing; events are ingested and a close request stops
/// the loop before any rendering; a zero-area surface skips the frame — no
/// clock tick, no camera motion, no reset, no render; otherwise the clock
/// ticks, the camera settles under the accumulated deltas scaled by the new
/// delta time, the toggle and quit flags are consumed, the accumulators are
/// reset for the next iteration, and the frame renders.
pub open spec fn iteration_spec(
    m: AppModel,
    events: Seq<InputEvent>,
    now: int,
    width: u32,
    height: u32,
) -> (AppModel, FrameActions) {
    if !m.running {
        (m, no_actions(false))
    } else {
        let folded = ingest_all(m.input, events);
        let resize = has_resize(events);
        if has_close(events) {
            (AppModel { input: folded, running: false, ..m }, no_actions(resize))
        } else if width == 0 || height == 0 {
            (AppModel { input: folded, ..m }, no_actions(resize))
        } else {
            let clock = tick_spec(m.clock, now);
            let camera = apply_spec(m.camera, folded.pan_x, folded.pan_y, folded.zoom, clock.dt);
            (
                AppModel { input: reset_spec(folded), clock, camera, running: !folded.quit },
                FrameActions { resize, render: true, toggle_fullscreen: folded.toggle_fullscreen },
            )
        }
    }
}

/// The frame orchestrator: input, clock and camera under one lifecycle flag.
pub struct CubeApp {
    input: InputState,
    clock: FpsClock,
    camera: Camera,
    running: bool,
}

impl View for CubeApp {
    type V = AppModel;

    closed spec fn view(&self) -> AppModel {
        AppModel {
            input: self.input@,
            clock: self.clock@,
            camera: self.camera@,
            running: self.running,
        }
    }
}

impl CubeApp {
    /// A fresh orchestrator, running, with empty accumulators, the camera at
    /// the origin, and the clock anchored at the given reading.
    pub fn new(now_micros: u64) -> (app: CubeApp)
        ensures
            app@ == initial_app(now_micros as int),
    {
        CubeApp {
            input: InputState::new(),
            clock: FpsClock::new(now_micros),
            camera: Camera::new(),
            running: true,
        }
    }

    /// One turn of the run loop; behaves exactly as `iteration_spec` says.
    /// The spelled-out consequences: a stopped loop stays put and owes
    /// nothing; a frame renders exactly when the loop was running, no close
    /// request arrived and the surface has area; a close request stops the
    /// loop before anything is submitted; and a zero-area surface leaves the
    /// clock — the FPS average included — and the camera untouched.
    pub fn run_iteration(
        &mut self,
        events: &Vec<InputEvent>,
        now_micros: u64,
        width: u32,
        height: u32,
    ) -> (actions: FrameActions)
        ensures
            (final(self)@, actions) == iteration_spec(
                old(self)@,
                events@,
                now_micros as int,
                width,
                height,
            ),
            actions.render == (old(self)@.running && !has_close(events@) && width > 0 && height
                > 0),
            !old(self)@.running ==> final(self)@ == old(self)@ && actions == no_actions(false),
            old(self)@.running && has_close(events@) ==> !final(self)@.running,
            width == 0 || height == 0 ==> final(self)@.clock == old(self)@.clock
                && final(self)@.camera == old(self)@.camera,
    {
        let mut actions = FrameActions { resize: false, render: false, toggle_fullscreen: false };
        if !self.running {
            return actions;
        }
        let ghost m0 = self@;
        let n = events.len();
        let mut i: usize = 0;
        while i < n
            invariant
                0 <= i <= n == events@.len(),
                m0.running,
                self.input@ == ingest_all(m0.input, events@.take(i as int)),
                self.running == !has_close(events@.take(i as int)),
                actions.resize == has_resize(events@.take(i as int)),
                !actions.render,
                !actions.toggle_fullscreen,
                self.clock@ == m0.clock,
                self.camera@ == m0.camera,
            decreases n - i,
        {
            let event = &events[i];
            self.input.ingest(event);
            match event {
                InputEvent::CloseRequested => {
                    self.running = false;
                },
                InputEvent::Resized => {
                    actions.resize = true;
                },
                InputEvent::ScaleFactorChanged => {
                    actions.resize = true;
                },
                _ => {},
            }
            proof {
                assert(events@.take(i + 1).drop_last() =~= events@.take(i as int));
                assert(events@.take(i + 1).last() == events@[i as int]);
            }
            i += 1;
        }
        proof {
            assert(events@.take(n as int) =~= events@);
        }
        if !self.running {
            return actions;
        }
        if width == 0 || height == 0 {
            return actions;
        }
        self.clock.tick(now_micros);
        let dt = self.clock.dt_micros();
        self.camera.apply(self.input.pan_x(), self.input.pan_y(), self.input.zoom(), dt);
        if self.input.toggle_fullscreen() {
            actions.toggle_fullscreen = true;
        }
        if self.input.quit_requested() {
            self.running = false;
        }
        self.input.reset();
        actions.render = true;
        actions
    }

    /// Whether the loop is still running; reflects the sticky quit flag as
    /// consumed during the most recent rendered iteration, and any close
    /// request observed since.
    pub fn is_running(&self) -> (r: bool)
        ensures
            r == self@.running,
    {
        self.running
    }

    /// The run-loop state the orchestrator is in.
    pub fn state(&self) -> (s: LoopState)
        ensures
            s == (if self@.running {
                LoopState::Running
            } else {
                LoopState::Stopped
            }),
    {
        if self.running {
            LoopState::Running
        } else {
            LoopState::Stopped
        }
    }

    /// Last published FPS average, in thousandths of a frame per second.
    /// Read-only; zero until the first averaging window closes.
    pub fn avg_fps(&self) -> (r: u64)
        ensures
            r as int == self@.clock.avg_fps_milli,
    {
        self.clock.avg_fps_milli()
    }

    /// The camera as settled by the most recent rendered iteration.
    pub fn camera(&self) -> (c: &Camera)
        ensures
            c@ == self@.camera,
    {
        &self.camera
    }

    /// The fixed start-up text that documents the four interactive controls.
    pub fn guide_text(&self) -> (s: String)
        ensures
            s@ == "Usage:\n  WASD: Pan view\n  Scroll: Zoom in/out\n  F: Toggle full-screen\n  Esc: Quit"@,
    {
        String::from_str(
            "Usage:\n  WASD: Pan view\n  Scroll: Zoom in/out\n  F: Toggle full-screen\n  Esc: Quit",
        )
    }
}

/// Law: a close request observed mid-iteration stops the loop by the start
/// of the next iteration, and a stopped loop never renders again — every
/// later iteration leaves the state untouched and submits nothing.
pub proof fn lemma_close_stops_loop(
    m: AppModel,
    events: Seq<InputEvent>,
    now: int,
    width: u32,
    height: u32,
    later_events: Seq<InputEvent>,
    later_now: int,
    later_width: u32,
    later_height: u32,
)
    requires
        m.running,
        has_close(events),
    ensures
        !iteration_spec(m, events, now, width, height).0.running,
        !iteration_spec(m, events, now, width, height).1.render,
        iteration_spec(
            iteration_spec(m, events, now, width, height).0,
            later_events,
            later_now,
            later_width,
            later_height,
        ).0 == iteration_spec(m, events, now, width, height).0,
        !iteration_spec(
            iteration_spec(m, events, now, width, height).0,
            later_events,
            later_now,
            later_width,
            later_height,
        ).1.render,
{
}

/// Law: a degenerate frame is skipped whole. When either surface dimension
/// is zero, no frame renders and the FPS metric does not move.
pub proof fn lemma_degenerate_frame_skipped(
    m: AppModel,
    events: Seq<InputEvent>,
    now: int,
    width: u32,
    height: u32,
)
    requires
        width == 0 || height == 0,
    ensures
        !iteration_spec(m, events, now, width, height).1.render,
        iteration_spec(m, events, now, width, height).0.clock == m.clock,
{
}

} // verus!
