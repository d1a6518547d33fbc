use vstd::prelude::*;

verus! {

pub const NANOS_PER_SEC: u64 = 1_000_000_000;

pub const NANOS_PER_MILLI: u64 = 1_000_000;

pub const NANOS_PER_MICRO: u64 = 1_000;

pub const MICROS_PER_SEC: u64 = 1_000_000;

/// Repeat delay used until the compositor advertises its own, in milliseconds.
pub const DEFAULT_DELAY_MS: u64 = 200;

/// Gap between two repeats used until the compositor advertises its own, in microseconds.
pub const DEFAULT_GAP_US: u64 = 40_000;

/// State of a key as carried by a key event.
#[derive(Clone, Copy, Debug, PartialEq, Eq, Structural)]
pub enum WaylandKeyState {
    Released,
    Pressed,
    Repeat,
}

impl WaylandKeyState {
    /// Whether the key is held down in this state.
    pub open spec fn spec_is_down(self) -> bool {
        !(self is Released)
    }

    /// The state for a wire value of `wl_keyboard.key_state`; `None` for a
    /// value that the protocol does not define.
    pub fn from_wire(raw: u32) -> (r: Option<WaylandKeyState>)
        ensures
            raw == 0 ==> r == Some(WaylandKeyState::Released),
            raw == 1 ==> r == Some(WaylandKeyState::Pressed),
            raw == 2 ==> r == Some(WaylandKeyState::Repeat),
            raw > 2 ==> r is None,
    {
        match raw {
            0 => Some(WaylandKeyState::Released),
            1 => Some(WaylandKeyState::Pressed),
            2 => Some(WaylandKeyState::Repeat),
            _ => None,
        }
    }
}

impl From<WaylandKeyState> for bool {
    fn from(value: WaylandKeyState) -> (r: bool) {
        match value {
            WaylandKeyState::Released => false,
            WaylandKeyState::Pressed | WaylandKeyState::Repeat => true,
        }
    }
}

impl vstd::std_specs::convert::FromSpecImpl<WaylandKeyState> for bool {
    open spec fn obeys_from_spec() -> bool {
        true
    }

    open spec fn from_spec(v: WaylandKeyState) -> bool {
        v.spec_is_down()
    }
}

/// Key repeat policy: disabled, or a delay before the first repeat (in
/// milliseconds) and a gap between repeats (in microseconds).
#[derive(Clone, Copy, Debug, PartialEq, Eq, Structural)]
pub enum RepeatInfo {
    Repeat { delay_ms: u64, gap_us: u64 },
    NoRepeat,
}

/// The unsigned 64-bit word holding the same bits as the sign-extended `x`.
pub open spec fn wire_to_u64(x: i32) -> u64 {
    if x >= 0 {
        x as u64
    } else {
        (x + 0x1_0000_0000_0000_0000) as u64
    }
}

fn to_u64_wrapping(x: i32) -> (r: u64)
    ensures
        r == wire_to_u64(x),
{
    if x >= 0 {
        x as u64
    } else {
        let m: i64 = -(x as i64) - 1;
        u64::MAX - (m as u64)
    }
}

/// The policy that a `repeat_info` event with `rate` repeats per second and
/// `delay` milliseconds asks for.
pub open spec fn repeat_info_of(rate: i32, delay: i32) -> RepeatInfo {
    if rate == 0 {
        RepeatInfo::NoRepeat
    } else {
        RepeatInfo::Repeat {
            delay_ms: wire_to_u64(delay),
            gap_us: (MICROS_PER_SEC / wire_to_u64(rate)) as u64,
        }
    }
}

impl RepeatInfo {
    /// The policy for a `repeat_info` event: a rate of zero disables repeat;
    /// otherwise the gap is a million microseconds divided by the rate.
    pub fn from_wire(rate: i32, delay: i32) -> (r: RepeatInfo)
        ensures
            r == repeat_info_of(rate, delay),
    {
        if rate == 0 {
            RepeatInfo::NoRepeat
        } else {
            let rate_u = to_u64_wrapping(rate);
            RepeatInfo::Repeat { delay_ms: to_u64_wrapping(delay), gap_us: MICROS_PER_SEC / rate_u }
        }
    }
}

impl RepeatInfo {
    /// The policy in force until the compositor advertises one.
    pub open spec fn default_spec() -> RepeatInfo {
        RepeatInfo::Repeat { delay_ms: DEFAULT_DELAY_MS, gap_us: DEFAULT_GAP_US }
    }
}

impl Default for RepeatInfo {
    fn default() -> (r: RepeatInfo)
        ensures
            r == RepeatInfo::default_spec(),
    {
        RepeatInfo::Repeat { delay_ms: DEFAULT_DELAY_MS, gap_us: DEFAULT_GAP_US }
    }
}

/// Setting of a countdown-then-interval timer: first expiry after `value`,
/// then every `interval`. All zero disarms the timer.
#[derive(Clone, Copy, Debug, PartialEq, Eq, Structural)]
pub struct TimerSpec {
    pub interval_sec: u64,
    pub interval_nsec: u64,
    pub value_sec: u64,
    pub value_nsec: u64,
}

impl TimerSpec {
    /// The interval in nanoseconds.
    pub open spec fn interval_ns(self) -> int {
        self.interval_sec * NANOS_PER_SEC + self.interval_nsec
    }

    /// The time to the first expiry in nanoseconds.
    pub open spec fn value_ns(self) -> int {
        self.value_sec * NANOS_PER_SEC + self.value_nsec
    }

    /// Both parts are normalized: nanoseconds below one second.
    pub open spec fn normalized(self) -> bool {
        self.interval_nsec < NANOS_PER_SEC && self.value_nsec < NANOS_PER_SEC
    }

    pub open spec fn is_disarmed(self) -> bool {
        self.interval_sec == 0 && self.interval_nsec == 0 && self.value_sec == 0
            && self.value_nsec == 0
    }

    /// A setting that disarms the timer.
    pub fn disarmed() -> (r: TimerSpec)
        ensures
            r.is_disarmed(),
    {
        TimerSpec { interval_sec: 0, interval_nsec: 0, value_sec: 0, value_nsec: 0 }
    }

    /// A setting that first fires after `delay_ms` milliseconds and then
    /// every `gap_us` microseconds.
    pub fn for_repeat(delay_ms: u64, gap_us: u64) -> (r: TimerSpec)
        ensures
            r.normalized(),
            r.value_ns() == delay_ms * NANOS_PER_MILLI,
            r.interval_ns() == gap_us * NANOS_PER_MICRO,
    {
        let value_sec = delay_ms / 1000;
        let value_nsec = (delay_ms % 1000) * NANOS_PER_MILLI;
        let interval_sec = gap_us / MICROS_PER_SEC;
        let interval_nsec = (gap_us % MICROS_PER_SEC) * NANOS_PER_MICRO;
        assert(value_sec * 1000 + delay_ms % 1000 == delay_ms);
        assert(interval_sec * MICROS_PER_SEC + gap_us % MICROS_PER_SEC == gap_us);
        assert(value_sec * NANOS_PER_SEC + (delay_ms % 1000) * NANOS_PER_MILLI == delay_ms
            * NANOS_PER_MILLI) by (nonlinear_arith)
            requires
                value_sec * 1000 + delay_ms % 1000 == delay_ms,
        ;
        assert(interval_sec * NANOS_PER_SEC + (gap_us % MICROS_PER_SEC) * NANOS_PER_MICRO
            == gap_us * NANOS_PER_MICRO) by (nonlinear_arith)
            requires
                interval_sec * MICROS_PER_SEC + gap_us % MICROS_PER_SEC == gap_us,
        ;
        TimerSpec { interval_sec, interval_nsec, value_sec, value_nsec }
    }
}

/// The timer setting that a key-down arms under `info`.
pub open spec fn armed_for(info: RepeatInfo, t: TimerSpec) -> bool {
    match info {
        RepeatInfo::Repeat { delay_ms, gap_us } => t.normalized() && t.value_ns() == delay_ms
            * NANOS_PER_MILLI && t.interval_ns() == gap_us * NANOS_PER_MICRO,
        RepeatInfo::NoRepeat => t.is_disarmed(),
    }
}

/// The context after a key-down of `key` under `c`'s repeat policy.
pub open spec fn after_key_down(c: KeyboardContext, key: u32) -> KeyboardContext {
    match c.repeat_info {
        RepeatInfo::Repeat { .. } => KeyboardContext { repeated_key: Some(key), ..c },
        RepeatInfo::NoRepeat => KeyboardContext { repeated_key: None, ..c },
    }
}

/// The context after a key-up of `key`: repeat stops if `key` was repeating.
pub open spec fn after_key_up(c: KeyboardContext, key: u32) -> KeyboardContext {
    if c.repeated_key == Some(key) {
        KeyboardContext { repeated_key: None, ..c }
    } else {
        c
    }
}

/// A release of the repeating key stops repeat: after a key-down of `key`
/// and then a key-up of the same key, no key is tracked, whatever the
/// policy and whatever was tracked before.
pub proof fn lemma_release_stops_repeat(c: KeyboardContext, key: u32)
    ensures
        after_key_up(after_key_down(c, key), key).repeated_key is None,
{
}

/// A repeat rate of zero disables repeat: after such a `repeat_info`, a
/// key-down leaves no key tracked, so a timer expiry queues nothing.
pub proof fn lemma_zero_rate_disables_repeat(c: KeyboardContext, delay: i32, key: u32)
    ensures
        repeat_info_of(0, delay) is NoRepeat,
        after_key_down(KeyboardContext { repeat_info: repeat_info_of(0, delay), ..c }, key).repeated_key is None,
{
}

/// Tracks the key that is currently repeating, the repeat policy and the
/// serial of the last keyboard focus-enter.
#[derive(Clone, Copy, Debug, PartialEq, Eq, Structural)]
pub struct KeyboardContext {
    pub enter_serial: Option<u32>,
    pub repeat_info: RepeatInfo,
    pub repeated_key: Option<u32>,
}

impl KeyboardContext {
    pub fn new() -> (r: KeyboardContext)
        ensures
            r.enter_serial is None,
            r.repeated_key is None,
            r.repeat_info == RepeatInfo::default_spec(),
    {
        KeyboardContext { enter_serial: None, repeat_info: RepeatInfo::default(), repeated_key: None }
    }

    /// A key that repeats went down: under a repeat policy it becomes the
    /// repeating key and the returned setting arms the timer; otherwise no
    /// key repeats and the setting disarms it.
    pub fn key_down(&mut self, key: u32) -> (r: TimerSpec)
        ensures
            *final(self) == after_key_down(*old(self), key),
            armed_for(old(self).repeat_info, r),
            old(self).repeat_info is Repeat ==> final(self).repeated_key == Some(key),
            old(self).repeat_info is NoRepeat ==> final(self).repeated_key is None,
    {
        match self.repeat_info {
            RepeatInfo::Repeat { delay_ms, gap_us } => {
                self.repeated_key = Some(key);
                TimerSpec::for_repeat(delay_ms, gap_us)
            },
            RepeatInfo::NoRepeat => {
                self.repeated_key = None;
                TimerSpec::disarmed()
            },
        }
    }

    /// A key was released: if it is the repeating key, repeat stops and the
    /// returned setting disarms the timer; otherwise nothing changes.
    pub fn key_up(&mut self, key: u32) -> (r: Option<TimerSpec>)
        ensures
            old(self).repeated_key == Some(key) ==> (r matches Some(t) && t.is_disarmed()),
            old(self).repeated_key != Some(key) ==> r is None,
            *final(self) == after_key_up(*old(self), key),
    {
        if self.repeated_key == Some(key) {
            self.repeated_key = None;
            Some(TimerSpec::disarmed())
        } else {
            None
        }
    }

    /// Keyboard focus entered: remember the serial.
    pub fn enter(&mut self, serial: u32)
        ensures
            *final(self) == (KeyboardContext { enter_serial: Some(serial), ..*old(self) }),
    {
        self.enter_serial = Some(serial);
    }

    /// Keyboard focus left: no key repeats any more and the serial is gone.
    pub fn leave(&mut self)
        ensures
            *final(self) == (KeyboardContext { repeated_key: None, enter_serial: None, ..*old(self) }),
    {
        self.repeated_key = None;
        self.enter_serial = None;
    }

    /// A `repeat_info` event with `rate` and `delay` replaces the policy.
    pub fn set_repeat_info(&mut self, rate: i32, delay: i32)
        ensures
            *final(self) == (KeyboardContext { repeat_info: repeat_info_of(rate, delay), ..*old(self) }),
    {
        self.repeat_info = RepeatInfo::from_wire(rate, delay);
    }
}

} // verus!
