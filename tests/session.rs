use wayland_session::{
    should_prompt_quit, HandlerCall, KeyInfo, KeyMods, Modifier, MouseButton, Request, Session,
    TimerSpec, WaylandEvent, WaylandKeyState,
};

const PLAIN: KeyInfo = KeyInfo { modifier: None, repeats: true };

fn drain_all(s: &mut Session) -> Vec<WaylandEvent> {
    s.queue.drain()
}

#[test]
fn queue_keeps_callback_order() {
    let mut s = Session::new();
    s.on_pointer_motion(256, 512);
    s.on_keyboard_key(30, 1);
    s.on_pointer_button(272, 1);
    s.on_pointer_axis(0, -2560);
    s.on_keyboard_leave();
    s.on_keyboard_key(30, 0);
    let ev = drain_all(&mut s);
    assert_eq!(ev.len(), 6);
    assert!(matches!(ev[0], WaylandEvent::PointerMotion(256, 512)));
    assert!(matches!(ev[1], WaylandEvent::KeyboardKey { key: 30, state: WaylandKeyState::Pressed }));
    assert!(matches!(ev[2], WaylandEvent::PointerButton(MouseButton::Left, true)));
    assert!(matches!(ev[3], WaylandEvent::PointerAxis(0, 1)));
    assert!(matches!(ev[4], WaylandEvent::KeyboardLeave));
    assert!(matches!(ev[5], WaylandEvent::KeyboardKey { key: 30, state: WaylandKeyState::Released }));
    assert_eq!(s.queue.len(), 0);
}

#[test]
fn zero_scroll_queues_nothing() {
    let mut s = Session::new();
    s.on_pointer_axis(0, 0);
    s.on_pointer_axis(1, 0);
    s.on_pointer_axis(5, 256);
    assert_eq!(s.queue.len(), 0);
}

#[test]
fn unknown_key_state_is_dropped() {
    let mut s = Session::new();
    assert_eq!(s.on_keyboard_key(30, 7), None);
    assert_eq!(s.queue.len(), 0);
}

#[test]
fn timer_expiry_queues_exact_count() {
    let mut s = Session::new();
    s.on_keyboard_key(30, 1);
    let ev = drain_all(&mut s);
    let (call, timer) = s.dispatch(ev.into_iter().next().unwrap(), PLAIN);
    assert!(matches!(call, HandlerCall::KeyDown { key: 30, repeat: false, .. }));
    let t = timer.expect("armed");
    assert_eq!((t.value_sec, t.value_nsec), (0, 200_000_000));
    // blocked for 330 ms past the first expiry with a 40 ms interval: 1 + 8
    s.on_timer_expired(330 / 40 + 1);
    let ev = drain_all(&mut s);
    assert_eq!(ev.len(), 9);
    for e in &ev {
        assert!(matches!(e, WaylandEvent::KeyboardKey { key: 30, state: WaylandKeyState::Repeat }));
    }
}

#[test]
fn release_stops_repeat_before_queueing() {
    let mut s = Session::new();
    s.on_keyboard_key(30, 1);
    let ev = drain_all(&mut s);
    s.dispatch(ev.into_iter().next().unwrap(), PLAIN);
    assert_eq!(s.keyboard.repeated_key, Some(30));
    let off = s.on_keyboard_key(30, 0).expect("disarm");
    assert_eq!(off, TimerSpec::disarmed());
    assert_eq!(s.keyboard.repeated_key, None);
    s.on_timer_expired(3);
    assert_eq!(s.queue.len(), 1);
}

#[test]
fn zero_rate_means_no_repeats() {
    let mut s = Session::new();
    s.on_repeat_info(0, 600);
    s.on_keyboard_key(30, 1);
    let ev = drain_all(&mut s);
    let (_, timer) = s.dispatch(ev.into_iter().next().unwrap(), PLAIN);
    assert_eq!(timer, Some(TimerSpec::disarmed()));
    s.on_timer_expired(5);
    assert_eq!(s.queue.len(), 0);
}

#[test]
fn repeat_state_does_not_rearm() {
    let mut s = Session::new();
    let (call, timer) = s.dispatch(
        WaylandEvent::KeyboardKey { key: 30, state: WaylandKeyState::Repeat },
        PLAIN,
    );
    assert!(matches!(call, HandlerCall::KeyDown { key: 30, repeat: true, .. }));
    assert_eq!(timer, None);
    let (_, timer) = s.dispatch(
        WaylandEvent::KeyboardKey { key: 31, state: WaylandKeyState::Pressed },
        KeyInfo { modifier: None, repeats: false },
    );
    assert_eq!(timer, None);
    assert_eq!(s.keyboard.repeated_key, None);
}

#[test]
fn focus_loss_resets_modifiers() {
    let mut s = Session::new();
    let shift = KeyInfo { modifier: Some(Modifier::Shift), repeats: false };
    let ctrl = KeyInfo { modifier: Some(Modifier::Control), repeats: false };
    let alt = KeyInfo { modifier: Some(Modifier::Alt), repeats: false };
    let logo = KeyInfo { modifier: Some(Modifier::Logo), repeats: false };
    for (k, info) in [(42, shift), (29, ctrl), (56, alt), (125, logo)] {
        s.dispatch(WaylandEvent::KeyboardKey { key: k, state: WaylandKeyState::Pressed }, info);
    }
    assert_eq!(s.mods, KeyMods { shift: true, ctrl: true, alt: true, logo: true });
    let (call, _) = s.dispatch(WaylandEvent::KeyboardLeave, PLAIN);
    assert!(matches!(call, HandlerCall::Nothing));
    let (call, _) = s.dispatch(
        WaylandEvent::KeyboardKey { key: 30, state: WaylandKeyState::Pressed },
        PLAIN,
    );
    match call {
        HandlerCall::KeyDown { key, mods, repeat } => {
            assert_eq!(key, 30);
            assert_eq!(mods, KeyMods::none());
            assert!(!repeat);
        }
        _ => panic!("expected a key-down"),
    }
}

#[test]
fn modifier_release_clears_flag() {
    let mut s = Session::new();
    let shift = KeyInfo { modifier: Some(Modifier::Shift), repeats: false };
    s.dispatch(WaylandEvent::KeyboardKey { key: 42, state: WaylandKeyState::Pressed }, shift);
    let (call, _) =
        s.dispatch(WaylandEvent::KeyboardKey { key: 42, state: WaylandKeyState::Released }, shift);
    match call {
        HandlerCall::KeyUp { key, mods } => {
            assert_eq!(key, 42);
            assert_eq!(mods, KeyMods::none());
        }
        _ => panic!("expected a key-up"),
    }
}

#[test]
fn buttons_use_last_motion() {
    let mut s = Session::new();
    let (call, _) = s.dispatch(WaylandEvent::PointerMotion(2560, 1280), PLAIN);
    assert!(matches!(call, HandlerCall::MouseMotion(2560, 1280)));
    let (call, _) = s.dispatch(WaylandEvent::PointerButton(MouseButton::Right, true), PLAIN);
    assert!(matches!(call, HandlerCall::MouseButtonDown(MouseButton::Right, 2560, 1280)));
    let (call, _) = s.dispatch(WaylandEvent::PointerButton(MouseButton::Right, false), PLAIN);
    assert!(matches!(call, HandlerCall::MouseButtonUp(MouseButton::Right, 2560, 1280)));
    let (call, _) = s.dispatch(WaylandEvent::PointerAxis(0, -1), PLAIN);
    assert!(matches!(call, HandlerCall::MouseWheel(0, -1)));
}

#[test]
fn files_dropped_passes_paths() {
    let mut s = Session::new();
    let (call, _) = s.dispatch(WaylandEvent::FilesDropped("/tmp/a\n/tmp/b".to_string()), PLAIN);
    match call {
        HandlerCall::FilesDropped(p) => assert_eq!(p, "/tmp/a\n/tmp/b"),
        _ => panic!("expected files"),
    }
}

#[test]
fn frame_scheduling() {
    let mut s = Session::new();
    assert!(!s.may_block());
    assert!(s.take_frame(true));
    assert!(s.may_block());
    assert!(!s.take_frame(true));
    assert!(s.take_frame(false));
    assert_eq!(s.handle_request(Request::ScheduleUpdate), None);
    assert!(!s.may_block());
    assert!(s.take_frame(true));
    assert!(!s.update_requested);
}

#[test]
fn requests_and_quit() {
    let mut s = Session::new();
    s.take_frame(true);
    assert_eq!(s.handle_request(Request::SetFullscreen(true)), Some(true));
    assert_eq!(s.handle_request(Request::SetFullscreen(false)), Some(false));
    assert_eq!(s.handle_request(Request::Other), None);
    assert!(!s.update_requested);
    assert!(should_prompt_quit(true, false));
    assert!(!should_prompt_quit(true, true));
    assert!(!should_prompt_quit(false, false));
    assert!(s.running(false));
    assert!(!s.running(true));
    s.on_toplevel_close();
    assert!(!s.running(false));
}

#[test]
fn leave_stops_repeat_and_queues_focus_loss() {
    let mut s = Session::new();
    s.keyboard.enter(12);
    s.dispatch(WaylandEvent::KeyboardKey { key: 30, state: WaylandKeyState::Pressed }, PLAIN);
    s.on_keyboard_leave();
    assert_eq!(s.keyboard.repeated_key, None);
    assert_eq!(s.keyboard.enter_serial, None);
    s.on_timer_expired(2);
    let ev = drain_all(&mut s);
    assert_eq!(ev.len(), 1);
    assert!(matches!(ev[0], WaylandEvent::KeyboardLeave));
}
