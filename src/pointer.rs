use vstd::prelude::*;

verus! {

/// Linux input event codes of the three buttons that have a name here.
pub const BTN_LEFT: u32 = 272;

pub const BTN_RIGHT: u32 = 273;

pub const BTN_MIDDLE: u32 = 274;

/// Number of fixed-point units in one logical unit (24.8 fixed point).
pub const FIXED_ONE: i32 = 256;

#[derive(Clone, Copy, Debug, PartialEq, Eq, Structural)]
pub enum MouseButton {
    Right,
    Left,
    Middle,
    Unknown,
}

pub open spec fn button_of(code: u32) -> MouseButton {
    if code == BTN_LEFT {
        MouseButton::Left
    } else if code == BTN_RIGHT {
        MouseButton::Right
    } else if code == BTN_MIDDLE {
        MouseButton::Middle
    } else {
        MouseButton::Unknown
    }
}

/// The portable button for a hardware button code.
pub fn button_from_code(code: u32) -> (r: MouseButton)
    ensures
        r == button_of(code),
{
    match code {
        BTN_LEFT => MouseButton::Left,
        BTN_RIGHT => MouseButton::Right,
        BTN_MIDDLE => MouseButton::Middle,
        _ => MouseButton::Unknown,
    }
}

/// A fixed-point coordinate split into its whole part (rounded toward
/// negative infinity) and its fraction in 256ths.
#[derive(Clone, Copy, Debug, PartialEq, Eq, Structural)]
pub struct FixedParts {
    pub whole: i32,
    pub frac: u32,
}

impl FixedParts {
    /// The fixed-point value that the parts stand for.
    pub open spec fn raw(self) -> int {
        self.whole * FIXED_ONE + self.frac
    }

    pub open spec fn wf(self) -> bool {
        self.frac < 256
    }
}

/// The parts of the fixed-point value `f`.
pub open spec fn fixed_parts_of(f: i32) -> FixedParts {
    FixedParts { whole: (f / 256) as i32, frac: (f % 256) as u32 }
}

/// Splitting a fixed-point value and joining the parts gives it back, and
/// the parts are the value divided by 256: `whole` the quotient rounded
/// toward negative infinity, `frac / 256` the rest.
pub proof fn lemma_fixed_round_trip(f: i32)
    ensures
        fixed_parts_of(f).wf(),
        fixed_parts_of(f).raw() == f,
        fixed_parts_of(f).whole * 256 <= f < (fixed_parts_of(f).whole + 1) * 256,
{
}

/// Splits a 24.8 fixed-point coordinate: the logical value is
/// `whole + frac / 256`, that is the raw value divided by 256.
pub fn wl_fixed_split(f: i32) -> (r: FixedParts)
    ensures
        r.wf(),
        r.raw() == f,
        r.whole == f / 256,
        r.frac == f % 256,
        r == fixed_parts_of(f),
{
    let whole: i32 = if f >= 0 {
        f / FIXED_ONE
    } else {
        -((-(f as i64) + 255) / 256) as i32
    };
    let frac: u32 = (f as i64 - whole as i64 * 256) as u32;
    assert(whole == f / 256 && f - whole * 256 == f % 256) by {
        if f < 0 {
            let q = (-(f as int) + 255) / 256;
            assert(q * 256 <= -(f as int) + 255 < q * 256 + 256);
            assert(-q * 256 <= f as int && (f as int) < -q * 256 + 256);
            vstd::arithmetic::div_mod::lemma_fundamental_div_mod_converse(f as int, 256, -q, f + q * 256);
        }
    }
    FixedParts { whole, frac }
}

/// Rebuilds the fixed-point value from its parts.
pub fn wl_fixed_join(p: FixedParts) -> (r: i32)
    requires
        p.wf(),
        i32::MIN <= p.raw() <= i32::MAX,
    ensures
        r == p.raw(),
{
    (p.whole as i64 * 256 + p.frac as i64) as i32
}

/// The sign of `x`: -1, 0 or 1.
pub open spec fn sign(x: int) -> int {
    if x > 0 {
        1
    } else if x < 0 {
        -1
    } else {
        0
    }
}

/// The scroll delta `(x, y)` for an axis event, normalized to unit magnitude.
/// Vertical (axis 0) flips the sign, horizontal (axis 1) keeps it; a zero
/// value or another axis gives no event.
pub open spec fn scroll_of(axis: u32, value: i32) -> Option<(i32, i32)> {
    if value == 0 || axis > 1 {
        None
    } else if axis == 0 {
        Some((0, -sign(value as int) as i32))
    } else {
        Some((sign(value as int) as i32, 0))
    }
}

/// Vertical scroll flips the sign and horizontal scroll keeps it; a zero
/// value never yields a delta on any axis.
pub proof fn lemma_scroll_direction(value: i32)
    ensures
        value < 0 ==> scroll_of(0, value) == Some((0i32, 1i32)),
        value > 0 ==> scroll_of(0, value) == Some((0i32, -1i32)),
        value < 0 ==> scroll_of(1, value) == Some((-1i32, 0i32)),
        value > 0 ==> scroll_of(1, value) == Some((1i32, 0i32)),
        value == 0 ==> forall|axis: u32| #[trigger] scroll_of(axis, value) is None,
{
}

pub fn scroll_delta(axis: u32, value: i32) -> (r: Option<(i32, i32)>)
    ensures
        r == scroll_of(axis, value),
{
    if value == 0 {
        return None;
    }
    let s: i32 = if value > 0 {
        1
    } else {
        -1
    };
    if axis == 0 {
        Some((0, -s))
    } else if axis == 1 {
        Some((s, 0))
    } else {
        None
    }
}

} // verus!
