use vstd::prelude::*;

verus! {

/// Coordinates of every position handled by the library stay within this
/// many world units of the origin, which keeps squared distances inside i64.
pub const COORD_BOUND: i64 = 8_000_000;

/// A point or displacement in world units.
#[derive(Clone, Copy, PartialEq, Eq, Structural, Debug)]
pub struct Vec2i {
    pub x: i64,
    pub y: i64,
}

/// r is the ceiling square root of n: the least r with n <= r * r.
pub open spec fn is_sqrt_ceil(n: int, r: int) -> bool {
    &&& 0 <= r
    &&& n <= r * r
    &&& (r == 0 || (r - 1) * (r - 1) < n)
}

/// The ceiling square root, well defined by lemma_sqrt_ceil_unique.
pub open spec fn sqrt_ceil(n: int) -> int {
    choose|r: int| is_sqrt_ceil(n, r)
}

/// At most one value satisfies is_sqrt_ceil for a given n.
pub proof fn lemma_sqrt_ceil_unique(n: int, r1: int, r2: int)
    requires
        is_sqrt_ceil(n, r1),
        is_sqrt_ceil(n, r2),
    ensures
        r1 == r2,
{
    assert(!(r1 < r2)) by (nonlinear_arith)
        requires
            0 <= r1,
            0 <= r2,
            n <= r1 * r1,
            r2 == 0 || (r2 - 1) * (r2 - 1) < n,
    ;
    assert(!(r2 < r1)) by (nonlinear_arith)
        requires
            0 <= r1,
            0 <= r2,
            n <= r2 * r2,
            r1 == 0 || (r1 - 1) * (r1 - 1) < n,
    ;
}

/// A squared bound on a value bounds the value itself.
pub proof fn lemma_abs_le_of_square(x: int, r: int)
    requires
        0 <= r,
        x * x <= r * r,
    ensures
        -r <= x <= r,
{
    assert(-r <= x <= r) by (nonlinear_arith)
        requires
            0 <= r,
            x * x <= r * r,
    ;
}

/// A product of bounded non-negative values is bounded.
pub proof fn lemma_mul_bound(a: int, b: int, c: int, d: int)
    requires
        0 <= a <= c,
        0 <= b <= d,
    ensures
        0 <= a * b <= c * d,
{
    assert(0 <= a * b <= c * d) by (nonlinear_arith)
        requires
            0 <= a <= c,
            0 <= b <= d,
    ;
}

/// A value bounded in magnitude has a bounded square.
pub proof fn lemma_square_bound(x: int, b: int)
    requires
        -b <= x <= b,
        0 <= b,
    ensures
        0 <= x * x <= b * b,
{
    assert(0 <= x * x <= b * b) by (nonlinear_arith)
        requires
            -b <= x <= b,
            0 <= b,
    ;
}

/// Computes the ceiling square root by binary search.
pub fn isqrt_ceil(n: i64) -> (r: i64)
    requires
        0 <= n <= 128_000_000_000_000,
    ensures
        is_sqrt_ceil(n as int, r as int),
        r == sqrt_ceil(n as int),
{
    let r: i64 = if n == 0 {
        0
    } else {
        let mut lo: i64 = 0;
        let mut hi: i64 = 12_000_000;
        proof {
            assert(12_000_000i64 * 12_000_000i64 >= n);
        }
        while hi - lo > 1
            invariant
                0 <= lo < hi <= 12_000_000,
                lo * lo < n,
                n <= hi * hi,
            decreases hi - lo,
        {
            let mid: i64 = lo + (hi - lo) / 2;
            proof {
                lemma_square_bound(mid as int, 12_000_000int);
            }
            if mid * mid >= n {
                hi = mid;
            } else {
                lo = mid;
            }
        }
        hi
    };
    proof {
        assert(is_sqrt_ceil(n as int, r as int));
        lemma_sqrt_ceil_unique(n as int, r as int, sqrt_ceil(n as int));
    }
    r
}

/// The magnitude of a, scaled by max / len and truncated, keeping a's sign.
pub open spec fn scaled_toward_zero(a: int, max: int, len: int) -> int {
    if a >= 0 {
        (a * max) / len
    } else {
        -((-a * max) / len)
    }
}

/// What clamping v to length at most max yields: v itself when its squared
/// length is within max * max, else v scaled down by max over the ceiling
/// square root of its squared length, componentwise toward zero.
#[verifier::opaque]
pub open spec fn clamp_len_x(v: Vec2i, max: int) -> int {
    if v.len2() <= max * max {
        v.x as int
    } else {
        scaled_toward_zero(v.x as int, max, sqrt_ceil(v.len2()))
    }
}

#[verifier::opaque]
pub open spec fn clamp_len_y(v: Vec2i, max: int) -> int {
    if v.len2() <= max * max {
        v.y as int
    } else {
        scaled_toward_zero(v.y as int, max, sqrt_ceil(v.len2()))
    }
}

impl Vec2i {
    /// Both coordinates within [-b, b].
    pub open spec fn in_bounds(self, b: int) -> bool {
        -b <= self.x <= b && -b <= self.y <= b
    }

    pub open spec fn len2(self) -> int {
        self.x * self.x + self.y * self.y
    }

    pub open spec fn dist2(self, o: Vec2i) -> int {
        (self.x - o.x) * (self.x - o.x) + (self.y - o.y) * (self.y - o.y)
    }

    pub fn length_squared(self) -> (r: i64)
        requires
            self.in_bounds(COORD_BOUND as int),
        ensures
            r == self.len2(),
    {
        proof {
            lemma_square_bound(self.x as int, COORD_BOUND as int);
            lemma_square_bound(self.y as int, COORD_BOUND as int);
        }
        self.x * self.x + self.y * self.y
    }

    pub fn distance_squared(self, o: Vec2i) -> (r: i64)
        requires
            self.in_bounds(COORD_BOUND as int),
            o.in_bounds(COORD_BOUND as int),
        ensures
            r == self.dist2(o),
    {
        let dx: i64 = self.x - o.x;
        let dy: i64 = self.y - o.y;
        proof {
            lemma_square_bound(dx as int, 2 * COORD_BOUND as int);
            lemma_square_bound(dy as int, 2 * COORD_BOUND as int);
        }
        dx * dx + dy * dy
    }

    /// Leaves a short vector alone; scales a longer one down so that its
    /// length does not exceed max, keeping its direction.
    pub fn clamp_length_max(self, max: i64) -> (r: Vec2i)
        requires
            self.in_bounds(COORD_BOUND as int),
            0 <= max <= COORD_BOUND,
        ensures
            r.x == clamp_len_x(self, max as int),
            r.y == clamp_len_y(self, max as int),
            self.len2() <= max * max ==> r == self,
            r.in_bounds(max as int),
            r.len2() <= max * max,
    {
        proof {
            reveal(clamp_len_x);
            reveal(clamp_len_y);
        }
        let l2 = self.length_squared();
        proof {
            lemma_square_bound(max as int, COORD_BOUND as int);
            lemma_square_bound(self.x as int, COORD_BOUND as int);
            lemma_square_bound(self.y as int, COORD_BOUND as int);
        }
        if l2 <= max * max {
            proof {
                lemma_abs_le_of_square(self.x as int, max as int);
                lemma_abs_le_of_square(self.y as int, max as int);
            }
            self
        } else {
            let len = isqrt_ceil(l2);
            proof {
                assert(l2 >= 1);
                assert(l2 <= len * len);
                if len == 0 {
                    assert(len * len == 0) by (nonlinear_arith)
                        requires
                            len == 0,
                    ;
                }
                assert(len >= 1);
            }
            let ax: i64 = if self.x >= 0 {
                self.x
            } else {
                -self.x
            };
            let ay: i64 = if self.y >= 0 {
                self.y
            } else {
                -self.y
            };
            proof {
                lemma_mul_bound(ax as int, max as int, COORD_BOUND as int, COORD_BOUND as int);
                lemma_mul_bound(ay as int, max as int, COORD_BOUND as int, COORD_BOUND as int);
            }
            let qx: i64 = ax * max / len;
            let qy: i64 = ay * max / len;
            proof {
                let xi = self.x as int;
                let yi = self.y as int;
                assert(ax as int * ax as int <= len as int * len as int) by (nonlinear_arith)
                    requires
                        ax as int == xi || ax as int == -xi,
                        xi * xi + yi * yi <= len as int * len as int,
                ;
                assert(ay as int * ay as int <= len as int * len as int) by (nonlinear_arith)
                    requires
                        ay as int == yi || ay as int == -yi,
                        xi * xi + yi * yi <= len as int * len as int,
                ;
                lemma_abs_le_of_square(ax as int, len as int);
                lemma_abs_le_of_square(ay as int, len as int);
                let qxi = qx as int;
                let qyi = qy as int;
                let axi = ax as int;
                let ayi = ay as int;
                let leni = len as int;
                let maxi = max as int;
                assert(0 <= qxi <= maxi) by (nonlinear_arith)
                    requires
                        0 <= axi <= leni,
                        1 <= leni,
                        0 <= maxi,
                        qxi == axi * maxi / leni,
                ;
                assert(0 <= qyi <= maxi) by (nonlinear_arith)
                    requires
                        0 <= ayi <= leni,
                        1 <= leni,
                        0 <= maxi,
                        qyi == ayi * maxi / leni,
                ;
                assert(qxi * leni <= axi * maxi) by (nonlinear_arith)
                    requires
                        qxi == axi * maxi / leni,
                        1 <= leni,
                        0 <= axi,
                        0 <= maxi,
                ;
                assert(qyi * leni <= ayi * maxi) by (nonlinear_arith)
                    requires
                        qyi == ayi * maxi / leni,
                        1 <= leni,
                        0 <= ayi,
                        0 <= maxi,
                ;
                assert(axi * axi + ayi * ayi == xi * xi + yi * yi) by (nonlinear_arith)
                    requires
                        axi == xi || axi == -xi,
                        ayi == yi || ayi == -yi,
                ;
                assert(qxi * qxi + qyi * qyi <= maxi * maxi) by (nonlinear_arith)
                    requires
                        0 <= qxi,
                        0 <= qyi,
                        0 <= axi,
                        0 <= ayi,
                        0 <= maxi,
                        1 <= leni,
                        qxi * leni <= axi * maxi,
                        qyi * leni <= ayi * maxi,
                        axi * axi + ayi * ayi <= leni * leni,
                ;
            }
            let rx: i64 = if self.x >= 0 {
                qx
            } else {
                -qx
            };
            let ry: i64 = if self.y >= 0 {
                qy
            } else {
                -qy
            };
            proof {
                assert(rx as int * rx as int + ry as int * ry as int == qx as int * qx as int + qy
                    as int * qy as int) by (nonlinear_arith)
                    requires
                        rx as int == qx as int || rx as int == -(qx as int),
                        ry as int == qy as int || ry as int == -(qy as int),
                ;
            }
            Vec2i { x: rx, y: ry }
        }
    }
}

} // verus!
