use cube_app::camera::Camera;

#[test]
fn displacement_is_independent_of_frame_subdivision() {
    // One second of a held unit pan, divided into four frames, two frames,
    // or one: the total displacement is the same.
    let mut four = Camera::new();
    for _ in 0..4 {
        four.apply(1, 0, 0, 250_000);
    }
    let mut two = Camera::new();
    for _ in 0..2 {
        two.apply(1, 0, 0, 500_000);
    }
    let mut one = Camera::new();
    one.apply(1, 0, 0, 1_000_000);
    assert_eq!(four.x(), 1_000_000);
    assert_eq!(two.x(), 1_000_000);
    assert_eq!(one.x(), 1_000_000);
}

#[test]
fn each_axis_scales_its_delta_by_elapsed_time() {
    let mut c = Camera::new();
    c.apply(2, -3, 5, 1_000);
    assert_eq!(c.x(), 2_000);
    assert_eq!(c.y(), -3_000);
    assert_eq!(c.zoom(), 5_000);
    c.apply(0, 0, 0, 999_999);
    assert_eq!(c.x(), 2_000);
    assert_eq!(c.y(), -3_000);
    assert_eq!(c.zoom(), 5_000);
}

#[test]
fn axes_saturate_instead_of_overflowing() {
    let mut c = Camera::new();
    c.apply(i64::MAX, i64::MIN, 0, u64::MAX);
    assert_eq!(c.x(), i64::MAX);
    assert_eq!(c.y(), i64::MIN);
    assert_eq!(c.zoom(), 0);
}
