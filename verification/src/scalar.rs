//! The scalar arithmetic the simulator is built over.
//!
//! The equations of motion, the integrators and the energy diagnostic only
//! ever combine numbers through the operations listed in [`Scalar`].  Each
//! operation comes as a pair: an executable method and a spec function that
//! names its result, so that every formula of the crate can be stated — and
//! proved — as an exact expression over the implementation's arithmetic,
//! whatever that arithmetic is.
//!
//! The crate itself ships an implementation on `i64` with wrapping
//! semantics; it gives the integrators an exactly predictable arithmetic to
//! run on, which the tests use.  Callers may supply further implementations
//! (for instance on a wrapper around a machine float) and inherit every
//! structural guarantee of the integrators for it.

use vstd::prelude::*;

verus! {

/// The operations a scalar type must offer.
///
/// Each executable method is pinned to its spec function by an `ensures`
/// clause, so a result computed twice from the same operands is the same
/// value: the arithmetic is pure.  No algebraic laws are demanded beyond
/// that purity; the simulator's contracts describe results as literal
/// operation trees rather than rewritten ones.
pub trait Scalar: Sized + Copy {
    /// Meaning of [`Scalar::plus`].
    spec fn plus_spec(self, rhs: Self) -> Self;

    /// Meaning of [`Scalar::minus`].
    spec fn minus_spec(self, rhs: Self) -> Self;

    /// Meaning of [`Scalar::times`].
    spec fn times_spec(self, rhs: Self) -> Self;

    /// Meaning of [`Scalar::div`].
    spec fn div_spec(self, rhs: Self) -> Self;

    /// Meaning of [`Scalar::neg`].
    spec fn neg_spec(self) -> Self;

    /// Meaning of [`Scalar::abs`].
    spec fn abs_spec(self) -> Self;

    /// Meaning of [`Scalar::sq`].
    spec fn sq_spec(self) -> Self;

    /// Meaning of [`Scalar::sqrt`].
    spec fn sqrt_spec(self) -> Self;

    /// Meaning of [`Scalar::cube`].
    spec fn cube_spec(self) -> Self;

    /// Meaning of [`Scalar::lt`].
    spec fn lt_spec(self, rhs: Self) -> bool;

    /// Meaning of [`Scalar::two`].
    spec fn two_spec() -> Self;

    /// Meaning of [`Scalar::six`].
    spec fn six_spec() -> Self;

    /// Meaning of [`Scalar::half`].
    spec fn half_spec() -> Self;

    /// Sum of `self` and `rhs`.
    fn plus(self, rhs: Self) -> (r: Self)
        ensures
            r == self.plus_spec(rhs),
    ;

    /// Difference of `self` and `rhs`.
    fn minus(self, rhs: Self) -> (r: Self)
        ensures
            r == self.minus_spec(rhs),
    ;

    /// Product of `self` and `rhs`.
    fn times(self, rhs: Self) -> (r: Self)
        ensures
            r == self.times_spec(rhs),
    ;

    /// Quotient of `self` by `rhs`.  Total: each implementation also fixes
    /// a value for quotients a partial division would reject.
    fn div(self, rhs: Self) -> (r: Self)
        ensures
            r == self.div_spec(rhs),
    ;

    /// Additive inverse of `self`.
    fn neg(self) -> (r: Self)
        ensures
            r == self.neg_spec(),
    ;

    /// Magnitude of `self`.
    fn abs(self) -> (r: Self)
        ensures
            r == self.abs_spec(),
    ;

    /// Second power of `self`.
    fn sq(self) -> (r: Self)
        ensures
            r == self.sq_spec(),
    ;

    /// Square root of `self`.  Total: each implementation also fixes a
    /// value on arguments without one.
    fn sqrt(self) -> (r: Self)
        ensures
            r == self.sqrt_spec(),
    ;

    /// Third power of `self`.
    fn cube(self) -> (r: Self)
        ensures
            r == self.cube_spec(),
    ;

    /// Strict order test; `false` on incomparable values.
    fn lt(self, rhs: Self) -> (r: bool)
        ensures
            r == self.lt_spec(rhs),
    ;

    /// The scalar standing for 2, used by the Runge–Kutta weights.
    fn two() -> (r: Self)
        ensures
            r == Self::two_spec(),
    ;

    /// The scalar standing for 6, used by the Runge–Kutta weights.
    fn six() -> (r: Self)
        ensures
            r == Self::six_spec(),
    ;

    /// The scalar standing for one half, used by the kinetic energy.
    fn half() -> (r: Self)
        ensures
            r == Self::half_spec(),
    ;
}

/// The non-negative integer whose square is the largest one not above `n`.
pub open spec fn floor_sqrt(n: int) -> int {
    choose|r: int| 0 <= r && #[trigger] (r * r) <= n && n < (r + 1) * (r + 1)
}

/// The value chosen by [`floor_sqrt`] is the witness itself: floor square
/// roots are unique.
pub proof fn lemma_floor_sqrt_unique(n: int, r: int)
    requires
        0 <= r,
        r * r <= n,
        n < (r + 1) * (r + 1),
    ensures
        floor_sqrt(n) == r,
{
    assert(exists|x: int| 0 <= x && #[trigger] (x * x) <= n && n < (x + 1) * (x + 1)) by {
        assert(0 <= r && r * r <= n && n < (r + 1) * (r + 1));
    }
    let c = floor_sqrt(n);
    assert(0 <= c && c * c <= n && n < (c + 1) * (c + 1));
    assert(c == r) by (nonlinear_arith)
        requires
            0 <= c,
            c * c <= n,
            n < (c + 1) * (c + 1),
            0 <= r,
            r * r <= n,
            n < (r + 1) * (r + 1),
    {
    }
}

/// Floor square root on `u64`, by bisection.
fn isqrt_u64(n: u64) -> (r: u64)
    ensures
        r * r <= n < (r + 1) * (r + 1),
        r <= 4294967295,
{
    let mut lo: u64 = 0;
    let mut hi: u64 = 4294967296;
    while lo + 1 < hi
        invariant
            lo < hi <= 4294967296,
            lo * lo <= n,
            n < hi * hi,
        decreases hi - lo,
    {
        let mid: u64 = lo + (hi - lo) / 2;
        assert(lo < mid < hi);
        assert(mid * mid <= 18446744065119617025) by (nonlinear_arith)
            requires
                mid <= 4294967295,
        {
        }
        if mid * mid <= n {
            lo = mid;
        } else {
            hi = mid;
        }
    }
    lo
}

/// Wrapping arithmetic on `i64`.
///
/// Sums, differences and products wrap; the quotient is truncating, with 0
/// for a zero divisor and `i64::MIN` kept on the one overflowing case; the
/// square root is the floor square root, 0 below 0; the halving constant
/// rounds to 0, so kinetic terms vanish under this scalar.  The tests run
/// the integrators on it because every result is exactly predictable.
impl Scalar for i64 {
    open spec fn plus_spec(self, rhs: i64) -> i64 {
        self.wrapping_add(rhs)
    }

    open spec fn minus_spec(self, rhs: i64) -> i64 {
        self.wrapping_sub(rhs)
    }

    open spec fn times_spec(self, rhs: i64) -> i64 {
        self.wrapping_mul(rhs)
    }

    open spec fn div_spec(self, rhs: i64) -> i64 {
        match self.checked_div(rhs) {
            Some(q) => q,
            None => if rhs == 0 { 0 } else { i64::MIN },
        }
    }

    open spec fn neg_spec(self) -> i64 {
        0i64.wrapping_sub(self)
    }

    open spec fn abs_spec(self) -> i64 {
        if self < 0 { 0i64.wrapping_sub(self) } else { self }
    }

    open spec fn sq_spec(self) -> i64 {
        self.wrapping_mul(self)
    }

    open spec fn sqrt_spec(self) -> i64 {
        if self <= 0 { 0 } else { floor_sqrt(self as int) as i64 }
    }

    open spec fn cube_spec(self) -> i64 {
        self.wrapping_mul(self).wrapping_mul(self)
    }

    open spec fn lt_spec(self, rhs: i64) -> bool {
        self < rhs
    }

    open spec fn two_spec() -> i64 {
        2
    }

    open spec fn six_spec() -> i64 {
        6
    }

    open spec fn half_spec() -> i64 {
        0
    }

    fn plus(self, rhs: i64) -> i64 {
        self.wrapping_add(rhs)
    }

    fn minus(self, rhs: i64) -> i64 {
        self.wrapping_sub(rhs)
    }

    fn times(self, rhs: i64) -> i64 {
        self.wrapping_mul(rhs)
    }

    fn div(self, rhs: i64) -> i64 {
        match self.checked_div(rhs) {
            Some(q) => q,
            None => if rhs == 0 { 0 } else { i64::MIN },
        }
    }

    fn neg(self) -> i64 {
        0i64.wrapping_sub(self)
    }

    fn abs(self) -> i64 {
        if self < 0 { 0i64.wrapping_sub(self) } else { self }
    }

    fn sq(self) -> i64 {
        self.wrapping_mul(self)
    }

    fn sqrt(self) -> (r: i64)
    {
        if self <= 0 {
            0
        } else {
            let n: u64 = self as u64;
            let root: u64 = isqrt_u64(n);
            proof {
                lemma_floor_sqrt_unique(n as int, root as int);
            }
            root as i64
        }
    }

    fn cube(self) -> i64 {
        self.wrapping_mul(self).wrapping_mul(self)
    }

    fn lt(self, rhs: i64) -> bool {
        self < rhs
    }

    fn two() -> i64 {
        2
    }

    fn six() -> i64 {
        6
    }

    fn half() -> i64 {
        0
    }
}

} // verus!
