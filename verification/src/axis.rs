//! Encoding of a stick axis, a fixed-point number between -1 and 1, as the
//! integer that a controller protocol carries.

use vstd::prelude::*;
use crate::shaping::UNIT;

verus! {

/// The largest value of a signed 16-bit axis.
pub const XUSB_AXIS_MAX: i16 = 32767;

/// The smallest value of a signed 16-bit axis.
pub const XUSB_AXIS_MIN: i16 = -32768;

/// How close to its minimum a signed 16-bit axis may come before it is set to
/// the minimum itself.
pub const XUSB_SNAP: i16 = 10;

/// The centre of an unsigned 8-bit axis.
pub const DS4_AXIS_CENTER: u8 = 128;

/// How far an unsigned 8-bit axis reaches to either side of its centre.
pub const DS4_AXIS_SPAN: u8 = 127;

/// `v` held within -1 and 1.
pub open spec fn clamped(v: int) -> int {
    if v > UNIT {
        UNIT as int
    } else if v < -UNIT {
        -UNIT
    } else {
        v
    }
}

/// The signed 16-bit value of the axis `v`.
///
/// `v` is held within -1 and 1 and scaled by the positive maximum, and what
/// lies behind the decimal point is cut off. A value less than ten above the
/// minimum becomes the minimum, which scaling alone never reaches.
pub open spec fn xusb_axis(v: int) -> int {
    let c = clamped(v);
    let scaled = if c >= 0 {
        (c * XUSB_AXIS_MAX) / (UNIT as int)
    } else {
        -((-c * XUSB_AXIS_MAX) / (UNIT as int))
    };
    if scaled < XUSB_AXIS_MIN + XUSB_SNAP {
        XUSB_AXIS_MIN as int
    } else {
        scaled
    }
}

/// The unsigned 8-bit value of the axis `v`.
///
/// `v` is held within -1 and 1 and laid around the centre 128 with a reach of
/// 127. From 254 on the value is 255, up to 1 it is 0, and in between what
/// lies behind the decimal point is cut off.
pub open spec fn ds4_axis(v: int) -> int {
    let n = clamped(v) * DS4_AXIS_SPAN + DS4_AXIS_CENTER * UNIT;
    if n >= (u8::MAX - 1) * UNIT {
        u8::MAX as int
    } else if n <= (u8::MIN + 1) * UNIT {
        u8::MIN as int
    } else {
        n / (UNIT as int)
    }
}

/// The ends of the signed axis, and the gap above its minimum: full positive
/// deflection gives the maximum, full negative deflection the minimum, and no
/// value strictly between the minimum and ten above it is ever given.
pub proof fn lemma_xusb_axis_ends(v: int)
    ensures
        xusb_axis(UNIT as int) == XUSB_AXIS_MAX,
        xusb_axis(-UNIT) == XUSB_AXIS_MIN,
        xusb_axis(0) == 0,
        xusb_axis(v) == XUSB_AXIS_MIN || XUSB_AXIS_MIN + XUSB_SNAP <= xusb_axis(v) <= XUSB_AXIS_MAX,
        v >= UNIT ==> xusb_axis(v) == XUSB_AXIS_MAX,
        v <= -UNIT ==> xusb_axis(v) == XUSB_AXIS_MIN,
{
}

/// The ends and the centre of the unsigned axis.
pub proof fn lemma_ds4_axis_ends(v: int)
    ensures
        ds4_axis(UNIT as int) == u8::MAX,
        ds4_axis(-UNIT) == u8::MIN,
        ds4_axis(0) == DS4_AXIS_CENTER,
        u8::MIN <= ds4_axis(v) <= u8::MAX,
        v >= UNIT ==> ds4_axis(v) == u8::MAX,
        v <= -UNIT ==> ds4_axis(v) == u8::MIN,
{
}

/// Encodes an axis for the protocol with signed 16-bit axes.
pub fn float_to_xusb_js_axis(value: i64) -> (r: i16)
    ensures
        r as int == xusb_axis(value as int),
        r == XUSB_AXIS_MIN || r >= XUSB_AXIS_MIN + XUSB_SNAP,
{
    let c: i64 = if value > UNIT {
        UNIT
    } else if value < -UNIT {
        -UNIT
    } else {
        value
    };
    let scaled: i64 = if c >= 0 {
        ((c as u64 * 32767) / 1_000_000) as i64
    } else {
        -((((-c) as u64 * 32767) / 1_000_000) as i64)
    };
    if scaled < -32768 + 10 {
        XUSB_AXIS_MIN
    } else {
        scaled as i16
    }
}

/// Encodes an axis for the protocol with unsigned 8-bit axes.
pub fn float_to_ds4_js_axis(value: i64) -> (r: u8)
    ensures
        r as int == ds4_axis(value as int),
{
    let c: i64 = if value > UNIT {
        UNIT
    } else if value < -UNIT {
        -UNIT
    } else {
        value
    };
    let n: i64 = c * 127 + 128 * UNIT;
    if n >= 254 * UNIT {
        u8::MAX
    } else if n <= UNIT {
        u8::MIN
    } else {
        ((n as u64) / 1_000_000) as u8
    }
}

} // verus!
