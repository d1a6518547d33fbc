use vstd::prelude::*;
use crate::events::{EventQueue, WaylandEvent, repeats_of};
use crate::keyboard::{
    KeyboardContext, TimerSpec, WaylandKeyState, after_key_down, after_key_up, armed_for,
    repeat_info_of,
};
use crate::pointer::{MouseButton, button_from_code, button_of, scroll_delta, scroll_of};
use crate::registry::{DecorationMargins, Globals};

verus! {

/// One of the four tracked modifier keys (either side).
#[derive(Clone, Copy, Debug, PartialEq, Eq, Structural)]
pub enum Modifier {
    Shift,
    Control,
    Alt,
    Logo,
}

/// Modifier snapshot handed to the application with key events.
#[derive(Clone, Copy, Debug, PartialEq, Eq, Structural)]
pub struct KeyMods {
    pub shift: bool,
    pub ctrl: bool,
    pub alt: bool,
    pub logo: bool,
}

impl KeyMods {
    pub open spec fn spec_none() -> KeyMods {
        KeyMods { shift: false, ctrl: false, alt: false, logo: false }
    }

    pub fn none() -> (r: KeyMods)
        ensures
            r == KeyMods::spec_none(),
    {
        KeyMods { shift: false, ctrl: false, alt: false, logo: false }
    }
}

/// `m` with modifier `which`, if any, set to `down`.
pub open spec fn mods_after(m: KeyMods, which: Option<Modifier>, down: bool) -> KeyMods {
    match which {
        Some(Modifier::Shift) => KeyMods { shift: down, ..m },
        Some(Modifier::Control) => KeyMods { ctrl: down, ..m },
        Some(Modifier::Alt) => KeyMods { alt: down, ..m },
        Some(Modifier::Logo) => KeyMods { logo: down, ..m },
        None => m,
    }
}

/// After a focus loss the modifiers are all clear, so the next key event
/// carries no modifier but the one that key itself sets, even if modifier
/// keys were still held when focus left.
pub proof fn lemma_focus_loss_clears_modifiers(which: Option<Modifier>, down: bool)
    ensures
        ({
            let m = mods_after(KeyMods::spec_none(), which, down);
            &&& m.shift == (which == Some(Modifier::Shift) && down)
            &&& m.ctrl == (which == Some(Modifier::Control) && down)
            &&& m.alt == (which == Some(Modifier::Alt) && down)
            &&& m.logo == (which == Some(Modifier::Logo) && down)
        }),
{
}

/// What the keymap says of a key: the modifier it is, if any, and whether
/// holding it repeats.
#[derive(Clone, Copy, Debug, PartialEq, Eq, Structural)]
pub struct KeyInfo {
    pub modifier: Option<Modifier>,
    pub repeats: bool,
}

/// The application handler call that one queued event turns into.
/// Coordinates are 24.8 fixed-point values.
#[derive(Clone, Debug)]
pub enum HandlerCall {
    /// Focus was lost: modifiers are reset and nothing is delivered.
    Nothing,
    KeyDown { key: u32, mods: KeyMods, repeat: bool },
    KeyUp { key: u32, mods: KeyMods },
    MouseMotion(i32, i32),
    MouseButtonDown(MouseButton, i32, i32),
    MouseButtonUp(MouseButton, i32, i32),
    MouseWheel(i32, i32),
    FilesDropped(String),
}

/// A message of the inbound request channel.
#[derive(Clone, Copy, Debug, PartialEq, Eq, Structural)]
pub enum Request {
    SetFullscreen(bool),
    ScheduleUpdate,
    Other,
}

/// The session state that listener callbacks and the event loop share.
pub struct Session {
    pub globals: Globals,
    pub keyboard: KeyboardContext,
    pub queue: EventQueue,
    pub mods: KeyMods,
    pub closed: bool,
    pub update_requested: bool,
    pub last_mouse_x: i32,
    pub last_mouse_y: i32,
    pub decorations: Option<DecorationMargins>,
}

impl Session {
    /// A fresh session: nothing bound, nothing queued, a first frame due.
    pub fn new() -> (r: Session)
        ensures
            r.globals == Globals::new_spec(),
            r.keyboard.enter_serial is None,
            r.keyboard.repeated_key is None,
            r.keyboard.repeat_info == crate::keyboard::RepeatInfo::default_spec(),
            r.queue@ == Seq::<WaylandEvent>::empty(),
            r.mods == KeyMods::spec_none(),
            !r.closed,
            r.update_requested,
            r.last_mouse_x == 0 && r.last_mouse_y == 0,
            r.decorations is None,
    {
        Session {
            globals: Globals::new(),
            keyboard: KeyboardContext::new(),
            queue: EventQueue::new(),
            mods: KeyMods::none(),
            closed: false,
            update_requested: true,
            last_mouse_x: 0,
            last_mouse_y: 0,
            decorations: None,
        }
    }

    /// Keyboard focus left: repeat stops at once and a focus-lost event is
    /// queued, ahead of anything a later callback queues.
    pub fn on_keyboard_leave(&mut self)
        ensures
            final(self).keyboard == (KeyboardContext {
                repeated_key: None,
                enter_serial: None,
                ..old(self).keyboard
            }),
            final(self).queue@ == old(self).queue@.push(WaylandEvent::KeyboardLeave),
            final(self).mods == old(self).mods,
            final(self).globals == old(self).globals,
            final(self).closed == old(self).closed,
    {
        self.keyboard.leave();
        self.queue.push(WaylandEvent::KeyboardLeave);
    }

    /// A key event with wire state `raw_state`: a release stops the key's
    /// repeat before the event is queued, so no repeat follows it; the
    /// returned setting is then the timer's. An unknown state is dropped.
    pub fn on_keyboard_key(&mut self, key: u32, raw_state: u32) -> (r: Option<TimerSpec>)
        ensures
            raw_state > 2 ==> r is None && final(self).keyboard == old(self).keyboard
                && final(self).queue@ == old(self).queue@,
            raw_state == 0 ==> final(self).keyboard == after_key_up(old(self).keyboard, key)
                && final(self).queue@ == old(self).queue@.push(
                WaylandEvent::KeyboardKey { key, state: WaylandKeyState::Released },
            ) && (old(self).keyboard.repeated_key == Some(key) <==> r is Some)
                && (r matches Some(t) ==> t.is_disarmed()),
            raw_state == 1 ==> r is None && final(self).keyboard == old(self).keyboard
                && final(self).queue@ == old(self).queue@.push(
                WaylandEvent::KeyboardKey { key, state: WaylandKeyState::Pressed },
            ),
            raw_state == 2 ==> r is None && final(self).keyboard == old(self).keyboard
                && final(self).queue@ == old(self).queue@.push(
                WaylandEvent::KeyboardKey { key, state: WaylandKeyState::Repeat },
            ),
            final(self).mods == old(self).mods,
            final(self).globals == old(self).globals,
            final(self).closed == old(self).closed,
    {
        match WaylandKeyState::from_wire(raw_state) {
            Some(state) => {
                let mut timer: Option<TimerSpec> = None;
                if let WaylandKeyState::Released = state {
                    timer = self.keyboard.key_up(key);
                }
                self.queue.push(WaylandEvent::KeyboardKey { key, state });
                timer
            },
            None => None,
        }
    }

    /// Pointer motion to the fixed-point position (`x`, `y`).
    pub fn on_pointer_motion(&mut self, x: i32, y: i32)
        ensures
            final(self).queue@ == old(self).queue@.push(WaylandEvent::PointerMotion(x, y)),
            final(self).keyboard == old(self).keyboard,
            final(self).mods == old(self).mods,
    {
        self.queue.push(WaylandEvent::PointerMotion(x, y));
    }

    /// A button event: the hardware code becomes a portable button and
    /// wire state 1 means pressed.
    pub fn on_pointer_button(&mut self, button: u32, state: u32)
        ensures
            final(self).queue@ == old(self).queue@.push(
                WaylandEvent::PointerButton(button_of(button), state == 1),
            ),
            final(self).keyboard == old(self).keyboard,
            final(self).mods == old(self).mods,
    {
        let b = button_from_code(button);
        self.queue.push(WaylandEvent::PointerButton(b, state == 1));
    }

    /// A scroll event: queued normalized, or dropped for a zero value or an
    /// unknown axis.
    pub fn on_pointer_axis(&mut self, axis: u32, value: i32)
        ensures
            scroll_of(axis, value) matches Some((dx, dy)) ==> final(self).queue@ == old(
                self,
            ).queue@.push(WaylandEvent::PointerAxis(dx, dy)),
            scroll_of(axis, value) is None ==> final(self).queue@ == old(self).queue@,
            final(self).keyboard == old(self).keyboard,
            final(self).mods == old(self).mods,
    {
        if let Some((dx, dy)) = scroll_delta(axis, value) {
            self.queue.push(WaylandEvent::PointerAxis(dx, dy));
        }
    }

    /// A `repeat_info` event replaces the repeat policy.
    pub fn on_repeat_info(&mut self, rate: i32, delay: i32)
        ensures
            final(self).keyboard == (KeyboardContext {
                repeat_info: repeat_info_of(rate, delay),
                ..old(self).keyboard
            }),
            final(self).queue@ == old(self).queue@,
            final(self).mods == old(self).mods,
    {
        self.keyboard.set_repeat_info(rate, delay);
    }

    /// The repeat timer expired `count` times since it was last read: that
    /// many repeat events for the repeating key, or none when no key repeats.
    pub fn on_timer_expired(&mut self, count: u64)
        ensures
            old(self).keyboard.repeated_key matches Some(k) ==> final(self).queue@ == old(
                self,
            ).queue@ + repeats_of(k, count as nat),
            old(self).keyboard.repeated_key is None ==> final(self).queue@ == old(self).queue@,
            final(self).keyboard == old(self).keyboard,
            final(self).mods == old(self).mods,
    {
        let k = self.keyboard.repeated_key;
        self.queue.push_repeats(k, count);
    }

    /// The toplevel was closed: the loop ends after this iteration.
    pub fn on_toplevel_close(&mut self)
        ensures
            final(self).closed,
            final(self).queue@ == old(self).queue@,
            final(self).keyboard == old(self).keyboard,
    {
        self.closed = true;
    }

    /// Applies one inbound request: a schedule raises the redraw flag; a
    /// fullscreen change is returned for the caller to send; others are
    /// ignored.
    pub fn handle_request(&mut self, req: Request) -> (r: Option<bool>)
        ensures
            req matches Request::SetFullscreen(full) ==> r == Some(full)
                && final(self).update_requested == old(self).update_requested,
            req is ScheduleUpdate ==> r is None && final(self).update_requested,
            req is Other ==> r is None && final(self).update_requested
                == old(self).update_requested,
            final(self).queue@ == old(self).queue@,
            final(self).closed == old(self).closed,
    {
        match req {
            Request::SetFullscreen(full) => Some(full),
            Request::ScheduleUpdate => {
                self.update_requested = true;
                None
            },
            Request::Other => None,
        }
    }

    /// Whether the loop may block waiting for input: not when a redraw was
    /// asked for.
    pub fn may_block(&self) -> (r: bool)
        ensures
            r == !self.update_requested,
    {
        !self.update_requested
    }

    /// Whether a frame is drawn this iteration: always in eager mode, else
    /// only when one was asked for. The flag is cleared before the frame, so
    /// a request made while drawing waits for the next iteration.
    pub fn take_frame(&mut self, blocking: bool) -> (r: bool)
        ensures
            r == (!blocking || old(self).update_requested),
            r ==> !final(self).update_requested,
            !r ==> final(self).update_requested == old(self).update_requested,
            final(self).queue@ == old(self).queue@,
            final(self).closed == old(self).closed,
    {
        if !blocking || self.update_requested {
            self.update_requested = false;
            true
        } else {
            false
        }
    }

    /// Whether the loop goes on: neither closed nor quit ordered.
    pub fn running(&self, quit_ordered: bool) -> (r: bool)
        ensures
            r == !(self.closed || quit_ordered),
    {
        !(self.closed || quit_ordered)
    }

    /// Turns one drained event into its handler call, keeping modifier and
    /// pointer state. A key-down of a key that repeats arms the repeat and
    /// returns the timer setting.
    pub fn dispatch(&mut self, event: WaylandEvent, info: KeyInfo) -> (r: (HandlerCall, Option<TimerSpec>))
        ensures
            final(self).queue@ == old(self).queue@,
            final(self).closed == old(self).closed,
            final(self).globals == old(self).globals,
            match event {
                WaylandEvent::KeyboardLeave => {
                    &&& final(self).mods == KeyMods::spec_none()
                    &&& r.0 is Nothing
                    &&& r.1 is None
                    &&& final(self).keyboard == old(self).keyboard
                },
                WaylandEvent::KeyboardKey { key, state } => {
                    let mods = mods_after(old(self).mods, info.modifier, state.spec_is_down());
                    let repeat = state is Repeat;
                    &&& final(self).mods == mods
                    &&& state is Released ==> r.0 == HandlerCall::KeyUp { key, mods } && r.1 is None
                        && final(self).keyboard == old(self).keyboard
                    &&& !(state is Released) ==> r.0 == (HandlerCall::KeyDown { key, mods, repeat })
                    &&& (!(state is Released) && !repeat && info.repeats) ==> {
                        &&& final(self).keyboard == after_key_down(old(self).keyboard, key)
                        &&& (r.1 matches Some(t) && armed_for(old(self).keyboard.repeat_info, t))
                    }
                    &&& (repeat || !info.repeats) ==> r.1 is None && final(self).keyboard == old(
                        self,
                    ).keyboard
                },
                WaylandEvent::PointerMotion(x, y) => {
                    &&& r.0 == HandlerCall::MouseMotion(x, y)
                    &&& r.1 is None
                    &&& final(self).last_mouse_x == x && final(self).last_mouse_y == y
                    &&& final(self).mods == old(self).mods
                    &&& final(self).keyboard == old(self).keyboard
                },
                WaylandEvent::PointerButton(b, down) => {
                    &&& down ==> r.0 == HandlerCall::MouseButtonDown(
                        b,
                        old(self).last_mouse_x,
                        old(self).last_mouse_y,
                    )
                    &&& !down ==> r.0 == HandlerCall::MouseButtonUp(
                        b,
                        old(self).last_mouse_x,
                        old(self).last_mouse_y,
                    )
                    &&& r.1 is None
                    &&& final(self).mods == old(self).mods
                    &&& final(self).keyboard == old(self).keyboard
                },
                WaylandEvent::PointerAxis(x, y) => {
                    &&& r.0 == HandlerCall::MouseWheel(x, y)
                    &&& r.1 is None
                    &&& final(self).mods == old(self).mods
                    &&& final(self).keyboard == old(self).keyboard
                },
                WaylandEvent::FilesDropped(paths) => {
                    &&& r.0 == HandlerCall::FilesDropped(paths)
                    &&& r.1 is None
                    &&& final(self).mods == old(self).mods
                    &&& final(self).keyboard == old(self).keyboard
                },
            },
    {
        match event {
            WaylandEvent::KeyboardLeave => {
                self.mods = KeyMods::none();
                (HandlerCall::Nothing, None)
            },
            WaylandEvent::KeyboardKey { key, state } => {
                let down: bool = bool::from(state);
                match info.modifier {
                    Some(Modifier::Shift) => self.mods.shift = down,
                    Some(Modifier::Control) => self.mods.ctrl = down,
                    Some(Modifier::Alt) => self.mods.alt = down,
                    Some(Modifier::Logo) => self.mods.logo = down,
                    None => {},
                }
                let mods = self.mods;
                if down {
                    let repeat = matches!(state, WaylandKeyState::Repeat);
                    let mut timer: Option<TimerSpec> = None;
                    if !repeat && info.repeats {
                        timer = Some(self.keyboard.key_down(key));
                    }
                    (HandlerCall::KeyDown { key, mods, repeat }, timer)
                } else {
                    (HandlerCall::KeyUp { key, mods }, None)
                }
            },
            WaylandEvent::PointerMotion(x, y) => {
                self.last_mouse_x = x;
                self.last_mouse_y = y;
                (HandlerCall::MouseMotion(x, y), None)
            },
            WaylandEvent::PointerButton(b, down) => {
                if down {
                    (HandlerCall::MouseButtonDown(b, self.last_mouse_x, self.last_mouse_y), None)
                } else {
                    (HandlerCall::MouseButtonUp(b, self.last_mouse_x, self.last_mouse_y), None)
                }
            },
            WaylandEvent::PointerAxis(x, y) => (HandlerCall::MouseWheel(x, y), None),
            WaylandEvent::FilesDropped(paths) => (HandlerCall::FilesDropped(paths), None),
        }
    }
}

/// Whether the application is asked to confirm a quit: one was requested
/// and none is ordered yet, so a quit is offered at most once.
pub fn should_prompt_quit(quit_requested: bool, quit_ordered: bool) -> (r: bool)
    ensures
        r == (quit_requested && !quit_ordered),
{
    quit_requested && !quit_ordered
}

} // verus!
