//! A pure, total classifier from a three-axis acceleration sample to one of
//! six discrete physical orientations.
//!
//! Axes are fixed relative to the device chassis: the x-axis runs along the
//! length of the board with its positive end away from the USB socket, the
//! y-axis points toward the power-LED side, and the z-axis points down.
//! A sample holds signed fixed-point accelerations (thousandths of the
//! sensor's unit) on those axes, so that the comparisons and signs the
//! classifier reads are exact integer operations.
//!
//! The classifier picks the axis whose magnitude is largest as the one most
//! aligned with gravity; ties on magnitude fall through to the next check
//! (strict `>`), so the final tie-break always defaults to the sign of z.

use vstd::math::abs;
use vstd::prelude::*;

verus! {

/// One of the six mutually exclusive poses of the device relative to
/// gravity.
#[derive(Clone, Copy, Debug, PartialEq, Eq, Structural)]
pub enum Orientation {
    RightSideUp,
    UpsideDown,
    USBUp,
    USBDown,
    LEDUp,
    PowerLEDUp,
}

/// What the classifier returns for accelerations `x`, `y`, `z`, in the
/// exact precedence order of the checks: the x-axis wins only when its
/// magnitude strictly exceeds both others'; otherwise y wins over z only
/// strictly; any remaining tie is decided by the sign of z.
pub open spec fn spec_orientation(x: int, y: int, z: int) -> Orientation {
    if abs(x) > abs(y) {
        if abs(x) > abs(z) {
            if x >= 0 {
                Orientation::USBUp
            } else {
                Orientation::USBDown
            }
        } else {
            if z >= 0 {
                Orientation::RightSideUp
            } else {
                Orientation::UpsideDown
            }
        }
    } else {
        if abs(y) > abs(z) {
            if y >= 0 {
                Orientation::LEDUp
            } else {
                Orientation::PowerLEDUp
            }
        } else {
            if z >= 0 {
                Orientation::RightSideUp
            } else {
                Orientation::UpsideDown
            }
        }
    }
}

/// The magnitude of one axis reading, widened so that even `i32::MIN`
/// negates without overflow.
fn magnitude(v: i32) -> (r: i64)
    ensures
        r == abs(v as int),
{
    if v >= 0 {
        v as i64
    } else {
        -(v as i64)
    }
}

/// Classify an acceleration sample: total and deterministic, for every
/// input the result is exactly `spec_orientation` of the three readings.
pub fn orientation(gx: i32, gy: i32, gz: i32) -> (r: Orientation)
    ensures
        r == spec_orientation(gx as int, gy as int, gz as int),
{
    let ax = magnitude(gx);
    let ay = magnitude(gy);
    let az = magnitude(gz);
    if ax > ay {
        if ax > az {
            if gx >= 0 {
                Orientation::USBUp
            } else {
                Orientation::USBDown
            }
        } else if gz >= 0 {
            Orientation::RightSideUp
        } else {
            Orientation::UpsideDown
        }
    } else if ay > az {
        if gy >= 0 {
            Orientation::LEDUp
        } else {
            Orientation::PowerLEDUp
        }
    } else if gz >= 0 {
        Orientation::RightSideUp
    } else {
        Orientation::UpsideDown
    }
}

/// The fixed display string of each orientation, as a character sequence.
pub open spec fn spec_display(orientation: Orientation) -> Seq<char> {
    match orientation {
        Orientation::RightSideUp => "Right side up"@,
        Orientation::UpsideDown => "Upside down"@,
        Orientation::USBUp => "USB up"@,
        Orientation::USBDown => "USB down"@,
        Orientation::LEDUp => "LED up"@,
        Orientation::PowerLEDUp => "Power LED up"@,
    }
}

/// The short human-readable name of an orientation, a fixed injective
/// table from each label to its display string.
pub fn display_orientation(orientation: Orientation) -> (r: &'static str)
    ensures
        r@ == spec_display(orientation),
{
    match orientation {
        Orientation::RightSideUp => "Right side up",
        Orientation::UpsideDown => "Upside down",
        Orientation::USBUp => "USB up",
        Orientation::USBDown => "USB down",
        Orientation::LEDUp => "LED up",
        Orientation::PowerLEDUp => "Power LED up",
    }
}

/// The display table is injective: distinct orientations render as
/// distinct strings.
pub proof fn lemma_display_injective(a: Orientation, b: Orientation)
    requires
        a != b,
    ensures
        spec_display(a) != spec_display(b),
{
    reveal_strlit("Right side up");
    reveal_strlit("Upside down");
    reveal_strlit("USB up");
    reveal_strlit("USB down");
    reveal_strlit("LED up");
    reveal_strlit("Power LED up");
    assert("Right side up"@.len() == 13);
    assert("Upside down"@.len() == 11);
    assert("USB up"@.len() == 6);
    assert("USB down"@.len() == 8);
    assert("LED up"@.len() == 6);
    assert("Power LED up"@.len() == 12);
    assert("USB up"@[0] == 'U');
    assert("LED up"@[0] == 'L');
}

/// The classifier is total: every sample gets exactly one of the six
/// labels (and, being a function of the readings alone, repeated calls on
/// identical inputs agree).
pub proof fn lemma_orientation_total(x: int, y: int, z: int)
    ensures
        spec_orientation(x, y, z) == Orientation::RightSideUp
            || spec_orientation(x, y, z) == Orientation::UpsideDown
            || spec_orientation(x, y, z) == Orientation::USBUp
            || spec_orientation(x, y, z) == Orientation::USBDown
            || spec_orientation(x, y, z) == Orientation::LEDUp
            || spec_orientation(x, y, z) == Orientation::PowerLEDUp,
{
}

/// When all three magnitudes tie, every check falls through and the sign
/// of z alone decides: the result is RightSideUp or UpsideDown, never one
/// of the four side labels.
pub proof fn lemma_orientation_boundary(x: int, y: int, z: int)
    requires
        abs(x) == abs(y),
        abs(y) == abs(z),
    ensures
        spec_orientation(x, y, z) == if z >= 0 {
            Orientation::RightSideUp
        } else {
            Orientation::UpsideDown
        },
{
}

/// True when the magnitude of one axis strictly exceeds both others'.
pub open spec fn one_axis_dominates(x: int, y: int, z: int) -> bool {
    ||| abs(x) > abs(y) && abs(x) > abs(z)
    ||| abs(y) > abs(x) && abs(y) > abs(z)
    ||| abs(z) > abs(x) && abs(z) > abs(y)
}

/// The label paired with the given one under negation of the sample:
/// USBUp with USBDown, LEDUp with PowerLEDUp, RightSideUp with UpsideDown.
pub open spec fn opposite(orientation: Orientation) -> Orientation {
    match orientation {
        Orientation::RightSideUp => Orientation::UpsideDown,
        Orientation::UpsideDown => Orientation::RightSideUp,
        Orientation::USBUp => Orientation::USBDown,
        Orientation::USBDown => Orientation::USBUp,
        Orientation::LEDUp => Orientation::PowerLEDUp,
        Orientation::PowerLEDUp => Orientation::LEDUp,
    }
}

/// Flipping the sign of every axis flips the label to its opposite
/// whenever exactly one axis dominates; in particular the two samples
/// never classify alike.
pub proof fn lemma_orientation_sign_flip(x: int, y: int, z: int)
    requires
        one_axis_dominates(x, y, z),
    ensures
        spec_orientation(-x, -y, -z) == opposite(spec_orientation(x, y, z)),
        spec_orientation(-x, -y, -z) != spec_orientation(x, y, z),
{
}

} // verus!
