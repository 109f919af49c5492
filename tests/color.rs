use render_core::color::{Color, State, ONE_BITS};

fn color_of(c: [f32; 4]) -> Color {
    Color::new(c[0].to_bits(), c[1].to_bits(), c[2].to_bits(), c[3].to_bits())
}

#[test]
fn new_state_is_opaque_red() {
    let s = State::new();
    assert_eq!(s.get_color(), color_of([1.0, 0.0, 0.0, 1.0]));
    assert_eq!(s.color, Color::red());
}

#[test]
fn set_then_get_round_trips() {
    let mut s = State::new();
    for c in [
        [0.0, 0.0, 0.0, 0.0],
        [1.0, 1.0, 1.0, 1.0],
        [0.25, 0.5, 0.75, 1.0],
        [0.1, 0.2, 0.3, 0.4],
    ] {
        let color = color_of(c);
        s.update_color(color);
        assert_eq!(s.get_color(), color);
        let back = s.get_color();
        assert_eq!([f32::from_bits(back.r), f32::from_bits(back.g), f32::from_bits(back.b), f32::from_bits(back.a)], c);
    }
}

#[test]
fn overwrite_is_total() {
    let mut s = State::new();
    s.update_color(color_of([0.0, 1.0, 0.0, 1.0]));
    s.update_color(color_of([0.0, 0.0, 1.0, 0.5]));
    assert_eq!(s.get_color(), color_of([0.0, 0.0, 1.0, 0.5]));
}

#[test]
fn named_colors_have_expected_bits() {
    assert_eq!(Color::red(), color_of([1.0, 0.0, 0.0, 1.0]));
    assert_eq!(Color::green(), color_of([0.0, 1.0, 0.0, 1.0]));
    assert_eq!(ONE_BITS, 1.0f32.to_bits());
}

#[test]
fn finiteness_is_checked_per_channel() {
    assert!(color_of([0.0, 0.5, 1.0, 1.0]).is_finite());
    assert!(color_of([-3.0, 7.5, 1e30, 0.0]).is_finite());
    assert!(!color_of([f32::NAN, 0.0, 0.0, 1.0]).is_finite());
    assert!(!color_of([0.0, f32::INFINITY, 0.0, 1.0]).is_finite());
    assert!(!color_of([0.0, 0.0, f32::NEG_INFINITY, 1.0]).is_finite());
    assert!(!color_of([0.0, 0.0, 0.0, f32::NAN]).is_finite());
}

#[test]
fn unit_range_is_checked_per_channel() {
    assert!(color_of([0.0, 1.0, 0.5, 1e-40]).is_in_unit_range());
    assert!(!color_of([1.0001, 0.0, 0.0, 1.0]).is_in_unit_range());
    assert!(!color_of([0.0, -0.5, 0.0, 1.0]).is_in_unit_range());
    assert!(!color_of([0.0, 0.0, 0.0, f32::NAN]).is_in_unit_range());
}
