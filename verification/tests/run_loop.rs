use cube_app::app::CubeApp;
use cube_app::app::LoopState;
use cube_app::input::InputEvent;
use cube_app::input::Key;

#[test]
fn normal_iteration_renders_and_consumes_input() {
    let mut app = CubeApp::new(0);
    let events = vec![InputEvent::KeyPressed(Key::PanRight)];
    let a = app.run_iteration(&events, 1_000, 100, 100);
    assert!(a.render);
    assert!(!a.resize);
    assert!(!a.toggle_fullscreen);
    assert!(app.is_running());
    assert_eq!(app.camera().x(), 1_000);
    // The accumulators were reset after being consumed: a second frame with
    // no events moves nothing.
    let b = app.run_iteration(&Vec::new(), 2_000, 100, 100);
    assert!(b.render);
    assert_eq!(app.camera().x(), 1_000);
}

#[test]
fn close_event_stops_the_loop_before_any_render() {
    let mut app = CubeApp::new(0);
    let events = vec![InputEvent::Scroll(5), InputEvent::CloseRequested];
    let a = app.run_iteration(&events, 1_000, 100, 100);
    assert!(!a.render);
    assert!(!app.is_running());
    assert!(matches!(app.state(), LoopState::Stopped));
}

#[test]
fn stopped_is_terminal() {
    let mut app = CubeApp::new(0);
    app.run_iteration(&vec![InputEvent::CloseRequested], 1_000, 100, 100);
    // Once stopped, nothing is submitted and nothing changes.
    let a = app.run_iteration(&vec![InputEvent::KeyPressed(Key::PanRight)], 2_000, 100, 100);
    assert!(!a.render);
    assert!(!a.resize);
    assert!(!a.toggle_fullscreen);
    assert_eq!(app.camera().x(), 0);
    assert_eq!(app.avg_fps(), 0);
    assert!(matches!(app.state(), LoopState::Stopped));
}

#[test]
fn quit_key_finishes_the_frame_then_stops() {
    let mut app = CubeApp::new(0);
    let a = app.run_iteration(&vec![InputEvent::KeyPressed(Key::Quit)], 1_000, 100, 100);
    assert!(a.render);
    assert!(!app.is_running());
    let b = app.run_iteration(&Vec::new(), 2_000, 100, 100);
    assert!(!b.render);
}

#[test]
fn zero_area_surface_skips_the_frame() {
    let mut app = CubeApp::new(0);
    // Minimized in either dimension: no render, no metrics, no motion —
    // but events are still processed and kept for the next live frame.
    let a = app.run_iteration(&vec![InputEvent::KeyPressed(Key::PanRight)], 500, 0, 100);
    assert!(!a.render);
    assert_eq!(app.avg_fps(), 0);
    assert_eq!(app.camera().x(), 0);
    let b = app.run_iteration(&Vec::new(), 700, 100, 0);
    assert!(!b.render);
    assert_eq!(app.camera().x(), 0);
    // Restored: the pan accumulated while minimized now applies, scaled by
    // the delta since the last rendered frame.
    let c = app.run_iteration(&Vec::new(), 1_000, 100, 100);
    assert!(c.render);
    assert_eq!(app.camera().x(), 1_000);
}

#[test]
fn toggle_fires_once_per_hold_across_iterations() {
    let mut app = CubeApp::new(0);
    let press = vec![InputEvent::KeyPressed(Key::ToggleFullScreen)];
    let a = app.run_iteration(&press, 1_000, 100, 100);
    assert!(a.toggle_fullscreen);
    // The key repeats while held: no second toggle.
    let b = app.run_iteration(&press, 2_000, 100, 100);
    assert!(!b.toggle_fullscreen);
    let c = app.run_iteration(&press, 3_000, 100, 100);
    assert!(!c.toggle_fullscreen);
    // Released and pressed again: a fresh toggle.
    let release_press = vec![
        InputEvent::KeyReleased(Key::ToggleFullScreen),
        InputEvent::KeyPressed(Key::ToggleFullScreen),
    ];
    let d = app.run_iteration(&release_press, 4_000, 100, 100);
    assert!(d.toggle_fullscreen);
}

#[test]
fn structural_events_request_a_resize() {
    let mut app = CubeApp::new(0);
    let a = app.run_iteration(&vec![InputEvent::Resized], 1_000, 100, 100);
    assert!(a.resize);
    let b = app.run_iteration(&vec![InputEvent::ScaleFactorChanged], 2_000, 100, 100);
    assert!(b.resize);
    let c = app.run_iteration(&vec![InputEvent::Other], 3_000, 100, 100);
    assert!(!c.resize);
}

#[test]
fn fps_average_reaches_the_title_after_one_window() {
    let mut app = CubeApp::new(0);
    let step: u64 = 16_667;
    for k in 1..=60u64 {
        app.run_iteration(&Vec::new(), k * step, 100, 100);
    }
    assert_eq!(app.avg_fps(), 59_998);
}

#[test]
fn displacement_through_the_loop_is_frame_rate_independent() {
    // The same press per frame over the same total time, at different frame
    // rates, pans the camera equally far.
    let press = vec![InputEvent::KeyPressed(Key::PanRight)];
    let mut fast = CubeApp::new(0);
    for k in 1..=4u64 {
        fast.run_iteration(&press, k * 250_000, 100, 100);
    }
    let mut slow = CubeApp::new(0);
    for k in 1..=2u64 {
        slow.run_iteration(&press, k * 500_000, 100, 100);
    }
    assert_eq!(fast.camera().x(), 1_000_000);
    assert_eq!(slow.camera().x(), 1_000_000);
}

#[test]
fn guide_text_documents_the_controls() {
    let app = CubeApp::new(0);
    let text = app.guide_text();
    assert!(text.contains("WASD"));
    assert!(text.contains("Scroll"));
    assert!(text.contains("full-screen"));
    assert!(text.contains("Quit"));
}
