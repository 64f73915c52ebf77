//! Accumulation of raw window/input events into per-frame deltas.
//!
//! `InputState` turns an event stream into a camera/UI delta that is
//! independent of event-polling granularity: pan and zoom contributions are
//! summed across all events of one iteration, the full-screen toggle is
//! edge-triggered, and the quit request is sticky. `reset` zeroes the
//! accumulators and the edge-triggered flag exactly once per iteration,
//! after the orchestrator has consumed them.

use vstd::prelude::*;
use crate::num::clamp_i64;
use crate::num::sat_add_i64;

verus! {

/// The keys the viewer reacts to. The four pan keys each contribute a unit
/// vector; the remaining two carry the full-screen toggle and the quit
/// request.
#[derive(Clone, Copy, PartialEq, Eq, Structural, Debug)]
pub enum Key {
    PanUp,
    PanDown,
    PanLeft,
    PanRight,
    ToggleFullScreen,
    Quit,
}

/// A raw event, already reduced to the plain values the library works on.
/// Scroll deltas arrive in thousandths of a scroll line. Events the viewer
/// does not react to arrive as `Other` and are ignored.
#[derive(Clone, Copy, PartialEq, Eq, Structural, Debug)]
pub enum InputEvent {
    KeyPressed(Key),
    KeyReleased(Key),
    Scroll(i64),
    CloseRequested,
    Resized,
    ScaleFactorChanged,
    Other,
}

/// Mathematical model of `InputState`: the accumulators as unbounded
/// integers together with the three flags.
pub ghost struct InputModel {
    pub pan_x: int,
    pub pan_y: int,
    pub zoom: int,
    pub toggle_fullscreen: bool,
    pub toggle_held: bool,
    pub quit: bool,
}

/// What one event contributes to the horizontal pan accumulator.
pub open spec fn pan_x_delta(e: InputEvent) -> int {
    match e {
        InputEvent::KeyPressed(Key::PanLeft) => -1,
        InputEvent::KeyPressed(Key::PanRight) => 1,
        _ => 0,
    }
}

/// What one event contributes to the vertical pan accumulator.
pub open spec fn pan_y_delta(e: InputEvent) -> int {
    match e {
        InputEvent::KeyPressed(Key::PanUp) => 1,
        InputEvent::KeyPressed(Key::PanDown) => -1,
        _ => 0,
    }
}

/// What one event contributes to the zoom accumulator.
pub open spec fn zoom_delta(e: InputEvent) -> int {
    match e {
        InputEvent::Scroll(d) => d as int,
        _ => 0,
    }
}

/// The effect of ingesting a single event. Accumulators saturate at the
/// bounds of `i64`; the toggle flag rises only on a press while the key was
/// not already held; the quit flag rises on the quit key or a close request
/// and never falls here.
pub open spec fn ingest_one(m: InputModel, e: InputEvent) -> InputModel {
    match e {
        InputEvent::KeyPressed(Key::ToggleFullScreen) => {
            if m.toggle_held {
                m
            } else {
                InputModel { toggle_fullscreen: true, toggle_held: true, ..m }
            }
        }
        InputEvent::KeyReleased(Key::ToggleFullScreen) => InputModel { toggle_held: false, ..m },
        InputEvent::KeyPressed(Key::Quit) => InputModel { quit: true, ..m },
        InputEvent::CloseRequested => InputModel { quit: true, ..m },
        _ => InputModel {
            pan_x: clamp_i64(m.pan_x + pan_x_delta(e)),
            pan_y: clamp_i64(m.pan_y + pan_y_delta(e)),
            zoom: clamp_i64(m.zoom + zoom_delta(e)),
            ..m
        },
    }
}

/// The effect of ingesting a whole sequence of events, first to last.
pub open spec fn ingest_all(m: InputModel, events: Seq<InputEvent>) -> InputModel
    decreases events.len(),
{
    if events.len() == 0 {
        m
    } else {
        ingest_one(ingest_all(m, events.drop_last()), events.last())
    }
}

/// The effect of `reset`: accumulators and the edge-triggered flag are
/// cleared; the held-key memory and the sticky quit flag survive.
pub open spec fn reset_spec(m: InputModel) -> InputModel {
    InputModel { pan_x: 0, pan_y: 0, zoom: 0, toggle_fullscreen: false, ..m }
}

/// Sum of the horizontal pan contributions of a sequence of events.
pub open spec fn sum_pan_x(events: Seq<InputEvent>) -> int
    decreases events.len(),
{
    if events.len() == 0 {
        0
    } else {
        sum_pan_x(events.drop_last()) + pan_x_delta(events.last())
    }
}

/// Sum of the vertical pan contributions of a sequence of events.
pub open spec fn sum_pan_y(events: Seq<InputEvent>) -> int
    decreases events.len(),
{
    if events.len() == 0 {
        0
    } else {
        sum_pan_y(events.drop_last()) + pan_y_delta(events.last())
    }
}

/// Sum of the zoom contributions of a sequence of events.
pub open spec fn sum_zoom(events: Seq<InputEvent>) -> int
    decreases events.len(),
{
    if events.len() == 0 {
        0
    } else {
        sum_zoom(events.drop_last()) + zoom_delta(events.last())
    }
}

/// Holds when the sequence contains no release of the full-screen key.
pub open spec fn no_toggle_release(events: Seq<InputEvent>) -> bool
    decreases events.len(),
{
    if events.len() == 0 {
        true
    } else {
        no_toggle_release(events.drop_last())
            && events.last() != InputEvent::KeyReleased(Key::ToggleFullScreen)
    }
}

/// Per-frame interaction deltas, accumulated since the last `reset`.
pub struct InputState {
    pan_x: i64,
    pan_y: i64,
    zoom: i64,
    toggle_fullscreen: bool,
    toggle_held: bool,
    quit: bool,
}

impl View for InputState {
    type V = InputModel;

    closed spec fn view(&self) -> InputModel {
        InputModel {
            pan_x: self.pan_x as int,
            pan_y: self.pan_y as int,
            zoom: self.zoom as int,
            toggle_fullscreen: self.toggle_fullscreen,
            toggle_held: self.toggle_held,
            quit: self.quit,
        }
    }
}

/// The state every accumulator starts from.
pub open spec fn initial_input() -> InputModel {
    InputModel {
        pan_x: 0,
        pan_y: 0,
        zoom: 0,
        toggle_fullscreen: false,
        toggle_held: false,
        quit: false,
    }
}

impl InputState {
    /// A fresh state with empty accumulators and lowered flags.
    pub fn new() -> (s: InputState)
        ensures
            s@ == initial_input(),
    {
        InputState {
            pan_x: 0,
            pan_y: 0,
            zoom: 0,
            toggle_fullscreen: false,
            toggle_held: false,
            quit: false,
        }
    }

    /// Folds one raw event into the accumulators. Unrecognized events are
    /// ignored; ingestion never fails.
    pub fn ingest(&mut self, event: &InputEvent)
        ensures
            final(self)@ == ingest_one(old(self)@, *event),
    {
        match event {
            InputEvent::KeyPressed(Key::PanUp) => {
                self.pan_y = sat_add_i64(self.pan_y, 1);
            }
            InputEvent::KeyPressed(Key::PanDown) => {
                self.pan_y = sat_add_i64(self.pan_y, -1);
            }
            InputEvent::KeyPressed(Key::PanLeft) => {
                self.pan_x = sat_add_i64(self.pan_x, -1);
            }
            InputEvent::KeyPressed(Key::PanRight) => {
                self.pan_x = sat_add_i64(self.pan_x, 1);
            }
            InputEvent::KeyPressed(Key::ToggleFullScreen) => {
                if !self.toggle_held {
                    self.toggle_fullscreen = true;
                    self.toggle_held = true;
                }
            }
            InputEvent::KeyPressed(Key::Quit) => {
                self.quit = true;
            }
            InputEvent::KeyReleased(Key::ToggleFullScreen) => {
                self.toggle_held = false;
            }
            InputEvent::Scroll(d) => {
                self.zoom = sat_add_i64(self.zoom, *d);
            }
            InputEvent::CloseRequested => {
                self.quit = true;
            }
            _ => {}
        }
    }

    /// Clears the accumulators and the edge-triggered toggle flag. Held-key
    /// memory and the sticky quit flag survive, so a key still held does not
    /// re-trigger in the next frame. Idempotent.
    pub fn reset(&mut self)
        ensures
            final(self)@ == reset_spec(old(self)@),
    {
        self.pan_x = 0;
        self.pan_y = 0;
        self.zoom = 0;
        self.toggle_fullscreen = false;
    }

    /// Accumulated horizontal pan units since the last reset.
    pub fn pan_x(&self) -> (r: i64)
        ensures
            r as int == self@.pan_x,
    {
        self.pan_x
    }

    /// Accumulated vertical pan units since the last reset.
    pub fn pan_y(&self) -> (r: i64)
        ensures
            r as int == self@.pan_y,
    {
        self.pan_y
    }

    /// Accumulated zoom delta since the last reset.
    pub fn zoom(&self) -> (r: i64)
        ensures
            r as int == self@.zoom,
    {
        self.zoom
    }

    /// Whether the full-screen toggle was newly pressed since the last reset.
    pub fn toggle_fullscreen(&self) -> (r: bool)
        ensures
            r == self@.toggle_fullscreen,
    {
        self.toggle_fullscreen
    }

    /// Whether a quit was requested. Sticky: only lifecycle consumption by
    /// the run loop ends it, never `reset`.
    pub fn quit_requested(&self) -> (r: bool)
        ensures
            r == self@.quit,
    {
        self.quit
    }
}

/// Law: within one iteration the accumulators are additive. Ingesting any
/// sequence of events leaves each accumulator at its old value plus the sum
/// of the individual contributions, as long as no intermediate sum leaves
/// the range of `i64` (where the accumulator would saturate instead).
pub proof fn lemma_ingest_accumulates(m: InputModel, events: Seq<InputEvent>)
    requires
        forall|i: int|
            0 <= i <= events.len() ==> i64::MIN as int <= m.pan_x + sum_pan_x(
                #[trigger] events.take(i),
            ) <= i64::MAX as int,
        forall|i: int|
            0 <= i <= events.len() ==> i64::MIN as int <= m.pan_y + sum_pan_y(
                #[trigger] events.take(i),
            ) <= i64::MAX as int,
        forall|i: int|
            0 <= i <= events.len() ==> i64::MIN as int <= m.zoom + sum_zoom(
                #[trigger] events.take(i),
            ) <= i64::MAX as int,
    ensures
        ingest_all(m, events).pan_x == m.pan_x + sum_pan_x(events),
        ingest_all(m, events).pan_y == m.pan_y + sum_pan_y(events),
        ingest_all(m, events).zoom == m.zoom + sum_zoom(events),
    decreases events.len(),
{
    if events.len() == 0 {
        assert(events.take(0) =~= events);
    } else {
        let pre = events.drop_last();
        assert(events.take(events.len() as int) =~= events);
        assert forall|i: int| 0 <= i <= pre.len() implies #[trigger] pre.take(i) == events.take(
            i,
        ) by {
            assert(pre.take(i) =~= events.take(i));
        }
        lemma_ingest_accumulates(m, pre);
    }
}

/// Law: `reset` is idempotent — clearing an already cleared state changes
/// nothing.
pub proof fn lemma_reset_idempotent(m: InputModel)
    ensures
        reset_spec(reset_spec(m)) == reset_spec(m),
{
}

/// Law: the toggle flag is edge-triggered. While the full-screen key stays
/// held (no release event arrives), further ingestion — key repeats
/// included — never changes the flag.
pub proof fn lemma_toggle_edge_triggered(m: InputModel, events: Seq<InputEvent>)
    requires
        m.toggle_held,
        no_toggle_release(events),
    ensures
        ingest_all(m, events).toggle_fullscreen == m.toggle_fullscreen,
        ingest_all(m, events).toggle_held,
    decreases events.len(),
{
    if events.len() > 0 {
        lemma_toggle_edge_triggered(m, events.drop_last());
    }
}

/// Law: holding the toggle key across an iteration boundary yields no second
/// observation. After the reset that ends an iteration, any further events
/// without a release of the key leave the flag lowered.
pub proof fn lemma_toggle_once_per_hold(m: InputModel, events: Seq<InputEvent>)
    requires
        m.toggle_held,
        no_toggle_release(events),
    ensures
        !ingest_all(reset_spec(m), events).toggle_fullscreen,
{
    lemma_toggle_edge_triggered(reset_spec(m), events);
}

} // verus!
