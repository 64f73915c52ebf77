use cube_app::input::InputEvent;
use cube_app::input::InputState;
use cube_app::input::Key;

#[test]
fn pan_and_zoom_accumulate_across_events() {
    let mut s = InputState::new();
    s.ingest(&InputEvent::KeyPressed(Key::PanRight));
    s.ingest(&InputEvent::KeyPressed(Key::PanRight));
    s.ingest(&InputEvent::KeyPressed(Key::PanLeft));
    s.ingest(&InputEvent::KeyPressed(Key::PanUp));
    s.ingest(&InputEvent::KeyPressed(Key::PanDown));
    s.ingest(&InputEvent::KeyPressed(Key::PanDown));
    s.ingest(&InputEvent::Scroll(250));
    s.ingest(&InputEvent::Scroll(-100));
    s.ingest(&InputEvent::Scroll(7));
    assert_eq!(s.pan_x(), 1);
    assert_eq!(s.pan_y(), -1);
    assert_eq!(s.zoom(), 157);
}

#[test]
fn reset_zeroes_accumulators_and_is_idempotent() {
    let mut s = InputState::new();
    s.ingest(&InputEvent::KeyPressed(Key::PanUp));
    s.ingest(&InputEvent::Scroll(42));
    s.ingest(&InputEvent::KeyPressed(Key::ToggleFullScreen));
    s.reset();
    assert_eq!(s.pan_x(), 0);
    assert_eq!(s.pan_y(), 0);
    assert_eq!(s.zoom(), 0);
    assert!(!s.toggle_fullscreen());
    s.reset();
    assert_eq!(s.pan_x(), 0);
    assert_eq!(s.pan_y(), 0);
    assert_eq!(s.zoom(), 0);
    assert!(!s.toggle_fullscreen());
}

#[test]
fn toggle_is_edge_triggered_across_frames() {
    let mut s = InputState::new();
    s.ingest(&InputEvent::KeyPressed(Key::ToggleFullScreen));
    assert!(s.toggle_fullscreen());
    // Key repeat within the same frame: no change.
    s.ingest(&InputEvent::KeyPressed(Key::ToggleFullScreen));
    assert!(s.toggle_fullscreen());
    // Frame boundary: the flag clears, the held key stays remembered.
    s.reset();
    assert!(!s.toggle_fullscreen());
    // Key repeat in the next frame must not re-trigger.
    s.ingest(&InputEvent::KeyPressed(Key::ToggleFullScreen));
    assert!(!s.toggle_fullscreen());
    // Release and press again: a fresh edge.
    s.ingest(&InputEvent::KeyReleased(Key::ToggleFullScreen));
    s.ingest(&InputEvent::KeyPressed(Key::ToggleFullScreen));
    assert!(s.toggle_fullscreen());
}

#[test]
fn quit_is_sticky_across_reset() {
    let mut s = InputState::new();
    s.ingest(&InputEvent::KeyPressed(Key::Quit));
    assert!(s.quit_requested());
    s.reset();
    assert!(s.quit_requested());

    let mut c = InputState::new();
    c.ingest(&InputEvent::CloseRequested);
    assert!(c.quit_requested());
}

#[test]
fn unrecognized_events_are_ignored() {
    let mut s = InputState::new();
    s.ingest(&InputEvent::Other);
    s.ingest(&InputEvent::Resized);
    s.ingest(&InputEvent::ScaleFactorChanged);
    s.ingest(&InputEvent::KeyReleased(Key::PanUp));
    assert_eq!(s.pan_x(), 0);
    assert_eq!(s.pan_y(), 0);
    assert_eq!(s.zoom(), 0);
    assert!(!s.toggle_fullscreen());
    assert!(!s.quit_requested());
}

#[test]
fn zoom_saturates_instead_of_overflowing() {
    let mut s = InputState::new();
    s.ingest(&InputEvent::Scroll(i64::MAX));
    s.ingest(&InputEvent::Scroll(i64::MAX));
    assert_eq!(s.zoom(), i64::MAX);
    let mut t = InputState::new();
    t.ingest(&InputEvent::Scroll(i64::MIN));
    t.ingest(&InputEvent::Scroll(-1));
    assert_eq!(t.zoom(), i64::MIN);
}
