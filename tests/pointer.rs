use wayland_session::{
    button_from_code, scroll_delta, wl_fixed_join, wl_fixed_split, FixedParts, MouseButton,
};

#[test]
fn fixed_split_divides_by_256() {
    assert_eq!(wl_fixed_split(256), FixedParts { whole: 1, frac: 0 });
    assert_eq!(wl_fixed_split(128), FixedParts { whole: 0, frac: 128 });
    assert_eq!(wl_fixed_split(-256), FixedParts { whole: -1, frac: 0 });
    assert_eq!(wl_fixed_split(-1), FixedParts { whole: -1, frac: 255 });
    assert_eq!(wl_fixed_split(-384), FixedParts { whole: -2, frac: 128 });
    assert_eq!(wl_fixed_split(i32::MIN), FixedParts { whole: -8_388_608, frac: 0 });
    assert_eq!(wl_fixed_split(i32::MAX), FixedParts { whole: 8_388_607, frac: 255 });
}

#[test]
fn fixed_round_trip_values() {
    for f in [0, 1, 127, 128, 256, -1, -128, -256, -257, 100_000, i32::MIN, i32::MAX] {
        assert_eq!(wl_fixed_join(wl_fixed_split(f)), f);
        let p = wl_fixed_split(f);
        let logical = p.whole as f64 + p.frac as f64 / 256.0;
        assert_eq!(logical, f as f64 / 256.0);
    }
}

#[test]
fn scroll_vertical_flips_sign() {
    assert_eq!(scroll_delta(0, -2560), Some((0, 1)));
    assert_eq!(scroll_delta(0, 2560), Some((0, -1)));
    assert_eq!(scroll_delta(0, 1), Some((0, -1)));
}

#[test]
fn scroll_horizontal_keeps_sign() {
    assert_eq!(scroll_delta(1, -2560), Some((-1, 0)));
    assert_eq!(scroll_delta(1, 512), Some((1, 0)));
}

#[test]
fn scroll_zero_or_unknown_axis_gives_nothing() {
    assert_eq!(scroll_delta(0, 0), None);
    assert_eq!(scroll_delta(1, 0), None);
    assert_eq!(scroll_delta(2, 256), None);
}

#[test]
fn button_codes() {
    assert_eq!(button_from_code(272), MouseButton::Left);
    assert_eq!(button_from_code(273), MouseButton::Right);
    assert_eq!(button_from_code(274), MouseButton::Middle);
    assert_eq!(button_from_code(275), MouseButton::Unknown);
    assert_eq!(button_from_code(0), MouseButton::Unknown);
}
