use vstd::prelude::*;
use vstd::arithmetic::div_mod::lemma_mod_add_multiples_vanish;
use vstd::arithmetic::div_mod::lemma_mod_division_less_than_divisor;
use crate::vector::Vec2i;

verus! {

/// Directions are angles in turn units: a full circle is 65536 units,
/// stored in a u16 so that addition wraps naturally around the circle.
pub const TURN: i64 = 65536;

/// A quarter turn in turn units.
pub const QUARTER_TURN: i64 = 16384;

/// The angle a + d brought back into [0, TURN).
pub open spec fn wrap_add(a: int, d: int) -> int {
    (a + d) % 65536
}

/// Adds a bounded, possibly negative offset to an angle, wrapping around
/// the circle.
pub fn angle_add(a: u16, d: i64) -> (r: u16)
    requires
        -65536 <= d <= 65536,
    ensures
        r == wrap_add(a as int, d as int),
{
    let s: i64 = a as i64 + d + 65536;
    let m: i64 = s % 65536;
    proof {
        lemma_mod_add_multiples_vanish(a as int + d, 65536);
        lemma_mod_division_less_than_divisor(s as int, 65536);
    }
    m as u16
}

/// The signed difference from center to a, in (-HALF_TURN, HALF_TURN].
pub open spec fn azimuth_diff(a: int, center: int) -> int {
    let d = (a - center + 65536) % 65536;
    if d >= 32768 {
        d - 65536
    } else {
        d
    }
}

/// Whether angle a lies within half units of center, going the short way
/// around the circle.
pub fn within_azimuth(a: u16, center: u16, half: u16) -> (r: bool)
    ensures
        r == (-(half as int) <= azimuth_diff(a as int, center as int) <= half as int),
{
    let d: i64 = (a as i64 - center as i64 + 65536) % 65536;
    proof {
        lemma_mod_division_less_than_divisor(a as int - center as int + 65536, 65536);
    }
    let sd: i64 = if d >= 32768 {
        d - 65536
    } else {
        d
    };
    -(half as i64) <= sd && sd <= half as i64
}

/// The direction of v in turn units, by octant with a linear slope
/// approximation inside each octant; 0 points along positive x,
/// QUARTER_TURN along positive y, and the zero vector maps to 0.
pub open spec fn angle_of_spec(v: Vec2i) -> int {
    let ax = if v.x >= 0 { v.x as int } else { -(v.x as int) };
    let ay = if v.y >= 0 { v.y as int } else { -(v.y as int) };
    if ax == 0 && ay == 0 {
        0
    } else {
        let q = if ax >= ay {
            (ay * 8192) / ax
        } else {
            16384 - (ax * 8192) / ay
        };
        if v.x >= 0 && v.y >= 0 {
            q
        } else if v.x < 0 && v.y >= 0 {
            32768 - q
        } else if v.x < 0 {
            32768 + q
        } else {
            (65536 - q) % 65536
        }
    }
}

/// Computes the direction of v in turn units.
pub fn angle_of(v: Vec2i) -> (r: u16)
    requires
        v.in_bounds(crate::vector::COORD_BOUND as int),
    ensures
        r == angle_of_spec(v),
{
    let ax: i64 = if v.x >= 0 {
        v.x
    } else {
        -v.x
    };
    let ay: i64 = if v.y >= 0 {
        v.y
    } else {
        -v.y
    };
    if ax == 0 && ay == 0 {
        return 0;
    }
    proof {
        crate::vector::lemma_mul_bound(ay as int, 8192, crate::vector::COORD_BOUND as int, 8192);
        crate::vector::lemma_mul_bound(ax as int, 8192, crate::vector::COORD_BOUND as int, 8192);
    }
    let q: i64 = if ax >= ay {
        ay * 8192 / ax
    } else {
        16384 - ax * 8192 / ay
    };
    proof {
        let qi = q as int;
        let axi = ax as int;
        let ayi = ay as int;
        if ax >= ay {
            assert(0 <= qi <= 8192) by (nonlinear_arith)
                requires
                    1 <= axi,
                    0 <= ayi <= axi,
                    qi == ayi * 8192 / axi,
            ;
        } else {
            assert(8192 < qi <= 16384) by (nonlinear_arith)
                requires
                    1 <= ayi,
                    0 <= axi < ayi,
                    qi == 16384 - axi * 8192 / ayi,
            ;
        }
    }
    let a: i64 = if v.x >= 0 && v.y >= 0 {
        q
    } else if v.x < 0 && v.y >= 0 {
        32768 - q
    } else if v.x < 0 {
        32768 + q
    } else {
        (65536 - q) % 65536
    };
    proof {
        lemma_mod_division_less_than_divisor(65536 - q, 65536);
    }
    a as u16
}

} // verus!
