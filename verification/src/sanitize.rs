use vstd::prelude::*;
use crate::error::Error;
use crate::vector::Vec2i;

verus! {

/// A scalar as received from the outside world, in fixed integer units:
/// either a finite value, or a value the decoder reported as not finite.
#[derive(Clone, Copy, PartialEq, Eq, Structural, Debug)]
pub enum RawScalar {
    Finite(i64),
    NonFinite,
}

/// A two-dimensional point as received from the outside world.
#[derive(Clone, Copy, PartialEq, Eq, Structural, Debug)]
pub struct RawVec2 {
    pub x: RawScalar,
    pub y: RawScalar,
}

/// The value of `v` pulled into the closed range [lo, hi].
pub open spec fn clamped(v: int, lo: int, hi: int) -> int {
    if v < lo {
        lo
    } else if v > hi {
        hi
    } else {
        v
    }
}

/// Rejects a non-finite scalar; clamps a finite one into [lo, hi].
/// Every non-finite input is rejected; every finite input yields a value
/// inside the closed range, never outside it.
pub fn sanitize_scalar(s: RawScalar, lo: i64, hi: i64) -> (r: Result<i64, Error>)
    requires
        lo <= hi,
    ensures
        r is Err <==> s is NonFinite,
        r matches Err(e) ==> e == Error::NotFinite,
        r matches Ok(v) ==> v == clamped(s->0 as int, lo as int, hi as int) && lo <= v <= hi,
{
    match s {
        RawScalar::Finite(v) => {
            let c: i64 = if v < lo {
                lo
            } else if v > hi {
                hi
            } else {
                v
            };
            Ok(c)
        }
        RawScalar::NonFinite => Err(Error::NotFinite),
    }
}

/// Sanitizes each coordinate independently, stopping at the first
/// non-finite one.
pub fn sanitize_vec2(v: RawVec2, lo: i64, hi: i64) -> (r: Result<Vec2i, Error>)
    requires
        lo <= hi,
    ensures
        r is Err <==> (v.x is NonFinite || v.y is NonFinite),
        r matches Err(e) ==> e == Error::NotFinite,
        r matches Ok(p) ==> p.x == clamped(v.x->0 as int, lo as int, hi as int) && p.y == clamped(
            v.y->0 as int,
            lo as int,
            hi as int,
        ) && lo <= p.x <= hi && lo <= p.y <= hi,
{
    let x = sanitize_scalar(v.x, lo, hi)?;
    let y = sanitize_scalar(v.y, lo, hi)?;
    Ok(Vec2i { x, y })
}

} // verus!
