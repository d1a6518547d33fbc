use wayland_session::{KeyboardContext, RepeatInfo, TimerSpec, WaylandKeyState};

#[test]
fn key_state_from_wire_values() {
    assert_eq!(WaylandKeyState::from_wire(0), Some(WaylandKeyState::Released));
    assert_eq!(WaylandKeyState::from_wire(1), Some(WaylandKeyState::Pressed));
    assert_eq!(WaylandKeyState::from_wire(2), Some(WaylandKeyState::Repeat));
    assert_eq!(WaylandKeyState::from_wire(3), None);
}

#[test]
fn key_state_into_bool() {
    assert!(!bool::from(WaylandKeyState::Released));
    assert!(bool::from(WaylandKeyState::Pressed));
    assert!(bool::from(WaylandKeyState::Repeat));
}

#[test]
fn repeat_info_default_values() {
    assert_eq!(
        RepeatInfo::default(),
        RepeatInfo::Repeat { delay_ms: 200, gap_us: 40_000 }
    );
}

#[test]
fn repeat_info_from_rate_and_delay() {
    assert_eq!(
        RepeatInfo::from_wire(25, 600),
        RepeatInfo::Repeat { delay_ms: 600, gap_us: 40_000 }
    );
    assert_eq!(
        RepeatInfo::from_wire(3, 250),
        RepeatInfo::Repeat { delay_ms: 250, gap_us: 333_333 }
    );
    assert_eq!(RepeatInfo::from_wire(0, 600), RepeatInfo::NoRepeat);
}

#[test]
fn timer_spec_splits_seconds() {
    let t = TimerSpec::for_repeat(1500, 40_000);
    assert_eq!(t.value_sec, 1);
    assert_eq!(t.value_nsec, 500_000_000);
    assert_eq!(t.interval_sec, 0);
    assert_eq!(t.interval_nsec, 40_000_000);
    let t = TimerSpec::for_repeat(200, 2_500_000);
    assert_eq!((t.value_sec, t.value_nsec), (0, 200_000_000));
    assert_eq!((t.interval_sec, t.interval_nsec), (2, 500_000_000));
    let d = TimerSpec::disarmed();
    assert_eq!((d.value_sec, d.value_nsec, d.interval_sec, d.interval_nsec), (0, 0, 0, 0));
}

#[test]
fn key_down_then_up_clears_repeat() {
    let mut c = KeyboardContext::new();
    let t = c.key_down(30);
    assert_eq!(c.repeated_key, Some(30));
    assert_eq!((t.value_sec, t.value_nsec), (0, 200_000_000));
    assert_eq!((t.interval_sec, t.interval_nsec), (0, 40_000_000));
    assert_eq!(c.key_up(31), None);
    assert_eq!(c.repeated_key, Some(30));
    let off = c.key_up(30).expect("disarm");
    assert_eq!(off, TimerSpec::disarmed());
    assert_eq!(c.repeated_key, None);
}

#[test]
fn zero_rate_key_down_tracks_nothing() {
    let mut c = KeyboardContext::new();
    c.set_repeat_info(0, 500);
    assert_eq!(c.repeat_info, RepeatInfo::NoRepeat);
    let t = c.key_down(30);
    assert_eq!(c.repeated_key, None);
    assert_eq!(t, TimerSpec::disarmed());
}

#[test]
fn enter_and_leave_serial() {
    let mut c = KeyboardContext::new();
    c.enter(77);
    assert_eq!(c.enter_serial, Some(77));
    c.key_down(5);
    c.leave();
    assert_eq!(c.enter_serial, None);
    assert_eq!(c.repeated_key, None);
    assert_eq!(c.repeat_info, RepeatInfo::default());
}
