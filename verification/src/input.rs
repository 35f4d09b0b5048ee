use vstd::prelude::*;

verus! {

/// One held action per bit of a discrete input byte.  The masks are
/// distinct powers of two, so a single byte carries the whole held-key
/// combination and is binary-comparable across peers.
pub const KEY_UP: u8 = 1;

pub const KEY_DOWN: u8 = 2;

pub const KEY_LEFT: u8 = 4;

pub const KEY_RIGHT: u8 = 8;

pub const KEY_FIRE: u8 = 16;

/// One peer's contribution for one simulation tick: a fixed-width,
/// binary-comparable value, either a byte of held actions or a pair of
/// pointer offsets in milli-units.  `Continuous(0, 0)` is the explicit
/// "no input" sentinel of the pointer variant.
#[derive(Clone, Copy, PartialEq, Eq, Structural, Debug)]
pub enum InputFrame {
    Discrete(u8),
    Continuous(i64, i64),
}

/// Whether the action with power-of-two mask `m` is held in `b`.  Written
/// as arithmetic (for `m == 2^i` this reads bit `i` of `b`) so that both
/// specification and executable code test it the same way.
pub open spec fn key_held(b: u8, m: u8) -> bool
    recommends
        m > 0,
{
    (b as int / m as int) % 2 == 1
}

/// Horizontal movement axis of a discrete input byte: +1 for right, -1 for
/// left, 0 when neither or both are held.
pub open spec fn axis_x(b: u8) -> int {
    (if key_held(b, KEY_RIGHT) {
        1int
    } else {
        0int
    }) - (if key_held(b, KEY_LEFT) {
        1int
    } else {
        0int
    })
}

/// Vertical movement axis of a discrete input byte: +1 for up, -1 for
/// down, 0 when neither or both are held.
pub open spec fn axis_y(b: u8) -> int {
    (if key_held(b, KEY_UP) {
        1int
    } else {
        0int
    }) - (if key_held(b, KEY_DOWN) {
        1int
    } else {
        0int
    })
}

/// The byte that encodes a held-key combination: the sum of the masks of
/// the held actions.
pub open spec fn keys_byte(up: bool, down: bool, left: bool, right: bool, fire: bool) -> int {
    (if up {
        KEY_UP as int
    } else {
        0int
    }) + (if down {
        KEY_DOWN as int
    } else {
        0int
    }) + (if left {
        KEY_LEFT as int
    } else {
        0int
    }) + (if right {
        KEY_RIGHT as int
    } else {
        0int
    }) + (if fire {
        KEY_FIRE as int
    } else {
        0int
    })
}

/// The byte that encodes a pair of movement axes, each in {-1, 0, 1}.
pub open spec fn axes_byte(ax: int, ay: int) -> u8
    recommends
        -1 <= ax <= 1,
        -1 <= ay <= 1,
{
    (((if ax == 1 {
        KEY_RIGHT as int
    } else if ax == -1 {
        KEY_LEFT as int
    } else {
        0int
    }) + (if ay == 1 {
        KEY_UP as int
    } else if ay == -1 {
        KEY_DOWN as int
    } else {
        0int
    })) as u8)
}

/// Encodes the current key-hold state into a discrete input byte.
pub fn encode_keys(up: bool, down: bool, left: bool, right: bool, fire: bool) -> (r: u8)
    ensures
        r as int == keys_byte(up, down, left, right, fire),
        key_held(r, KEY_UP) == up,
        key_held(r, KEY_DOWN) == down,
        key_held(r, KEY_LEFT) == left,
        key_held(r, KEY_RIGHT) == right,
        key_held(r, KEY_FIRE) == fire,
{
    let mut r: u8 = 0;
    if up {
        r = r + KEY_UP;
    }
    if down {
        r = r + KEY_DOWN;
    }
    if left {
        r = r + KEY_LEFT;
    }
    if right {
        r = r + KEY_RIGHT;
    }
    if fire {
        r = r + KEY_FIRE;
    }
    r
}

/// Decodes a discrete input byte into its movement axes, each clamped to
/// {-1, 0, 1} by construction: opposite held keys cancel.
pub fn decode_axes(b: u8) -> (r: (i64, i64))
    ensures
        r.0 == axis_x(b),
        r.1 == axis_y(b),
{
    let right: i64 = if (b / KEY_RIGHT) % 2 == 1 {
        1
    } else {
        0
    };
    let left: i64 = if (b / KEY_LEFT) % 2 == 1 {
        1
    } else {
        0
    };
    let up: i64 = if (b / KEY_UP) % 2 == 1 {
        1
    } else {
        0
    };
    let down: i64 = if (b / KEY_DOWN) % 2 == 1 {
        1
    } else {
        0
    };
    (right - left, up - down)
}

/// Encodes a pair of movement axes back into a discrete input byte.
pub fn encode_axes(ax: i64, ay: i64) -> (r: u8)
    requires
        -1 <= ax <= 1,
        -1 <= ay <= 1,
    ensures
        r == axes_byte(ax as int, ay as int),
        axis_x(r) == ax,
        axis_y(r) == ay,
{
    let xbits: u8 = if ax == 1 {
        KEY_RIGHT
    } else if ax == -1 {
        KEY_LEFT
    } else {
        0
    };
    let ybits: u8 = if ay == 1 {
        KEY_UP
    } else if ay == -1 {
        KEY_DOWN
    } else {
        0
    };
    xbits + ybits
}

/// Division truncating toward zero, which is how the machine divides
/// signed integers.
pub open spec fn div_toward_zero(a: int, b: int) -> int
    recommends
        b > 0,
{
    if a >= 0 {
        a / b
    } else {
        -((-a) / b)
    }
}

/// One axis of the screen-space to simulation-space conversion, in
/// fixed point: screen positions come in whole pixels, simulation
/// offsets leave in milli-units.
///
/// With the screen center at the origin, a fixed scale of 10 world units
/// per half viewport, and the horizontal axis stretched by the aspect
/// ratio, both axes reduce to the same form:
/// `(c - extent/2) * aspect * 10 / width == (2c - extent) * 5 / height`
/// world units, which is `(2c - extent) * 5000 / height` milli-units
/// (`extent` is the width for the horizontal axis, the height for the
/// vertical one).
pub open spec fn screen_axis_to_sim(c: int, extent: int, height: int) -> int
    recommends
        height > 0,
{
    div_toward_zero((2 * c - extent) * 5000, height)
}

/// Converts a pointer position in whole pixels to a simulation offset in
/// milli-units.  Deterministic by construction: the same screen input
/// always yields the same simulation input.
pub fn screen_to_sim(x: i64, y: i64, width: i64, height: i64) -> (r: (i64, i64))
    requires
        -1_000_000_000 <= x <= 1_000_000_000,
        -1_000_000_000 <= y <= 1_000_000_000,
        1 <= width <= 1_000_000_000,
        1 <= height <= 1_000_000_000,
    ensures
        r.0 == screen_axis_to_sim(x as int, width as int, height as int),
        r.1 == screen_axis_to_sim(y as int, height as int, height as int),
{
    let nx: i64 = 2 * x - width;
    let ny: i64 = 2 * y - height;
    let mx: u64 = if nx >= 0 {
        nx as u64
    } else {
        (-nx) as u64
    };
    let my: u64 = if ny >= 0 {
        ny as u64
    } else {
        (-ny) as u64
    };
    let qx: u64 = (mx * 5000) / (height as u64);
    let qy: u64 = (my * 5000) / (height as u64);
    let sx: i64 = if nx >= 0 {
        qx as i64
    } else {
        -(qx as i64)
    };
    let sy: i64 = if ny >= 0 {
        qy as i64
    } else {
        -(qy as i64)
    };
    (sx, sy)
}

/// Samples the continuous pointer adapter for one tick: the latest
/// pointer-moved position since the last sample, converted from screen
/// space to simulation space.  Only when no movement event occurred this
/// tick is the sample the explicit zero-offset "no input" sentinel; a
/// real event is always converted, wherever on screen it happened.
pub fn sample_pointer(events: &Vec<(i64, i64)>, width: i64, height: i64) -> (r: InputFrame)
    requires
        forall|i: int|
            0 <= i < events@.len() ==> -1_000_000_000 <= (#[trigger] events@[i]).0
                <= 1_000_000_000 && -1_000_000_000 <= events@[i].1 <= 1_000_000_000,
        1 <= width <= 1_000_000_000,
        1 <= height <= 1_000_000_000,
    ensures
        events@.len() == 0 ==> r == InputFrame::Continuous(0, 0),
        events@.len() > 0 ==> r == InputFrame::Continuous(
            screen_axis_to_sim(events@.last().0 as int, width as int, height as int) as i64,
            screen_axis_to_sim(events@.last().1 as int, height as int, height as int) as i64,
        ),
{
    if events.len() == 0 {
        return InputFrame::Continuous(0, 0);
    }
    let (ex, ey): (i64, i64) = events[events.len() - 1];
    let (sx, sy): (i64, i64) = screen_to_sim(ex, ey, width, height);
    InputFrame::Continuous(sx, sy)
}

/// Opposite held keys cancel: a byte with both `KEY_UP` and `KEY_DOWN` set
/// contributes no vertical movement, whatever else is held.
pub proof fn lemma_opposite_keys_cancel(b: u8)
    requires
        key_held(b, KEY_UP),
        key_held(b, KEY_DOWN),
    ensures
        axis_y(b) == 0,
{
}

/// Both movement axes of any discrete input byte lie in {-1, 0, 1}.
pub proof fn lemma_axes_in_range(b: u8)
    ensures
        -1 <= axis_x(b) <= 1,
        -1 <= axis_y(b) <= 1,
{
}

/// Encoding a pair of axes and decoding the result gives the axes back.
pub proof fn lemma_axes_round_trip(ax: int, ay: int)
    requires
        -1 <= ax <= 1,
        -1 <= ay <= 1,
    ensures
        axis_x(axes_byte(ax, ay)) == ax,
        axis_y(axes_byte(ax, ay)) == ay,
{
}

/// Round trip: re-encoding the movement axes decoded from any discrete
/// input byte yields a byte that decodes to the same axes, so the
/// encoding is stable under decode-then-encode.
pub proof fn lemma_reencode_stable(b: u8)
    ensures
        axis_x(axes_byte(axis_x(b), axis_y(b))) == axis_x(b),
        axis_y(axes_byte(axis_x(b), axis_y(b))) == axis_y(b),
{
    lemma_axes_in_range(b);
    lemma_axes_round_trip(axis_x(b), axis_y(b));
}

} // verus!
