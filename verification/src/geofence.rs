//! The geofence check: planar distance between the job site and a claimed
//! position, rounded down to a whole unit.

use vstd::prelude::*;

verus! {

/// Sum of the squared coordinate differences of two points.
pub open spec fn squared_distance(lat1: int, lng1: int, lat2: int, lng2: int) -> nat {
    ((lat1 - lat2) * (lat1 - lat2) + (lng1 - lng2) * (lng1 - lng2)) as nat
}

/// `root` is the integer square root of `n`: the largest natural number whose
/// square does not exceed `n`.
pub open spec fn is_int_sqrt(n: nat, root: nat) -> bool {
    root * root <= n < (root + 1) * (root + 1)
}

/// The integer square root of `n`.
pub open spec fn int_sqrt(n: nat) -> nat {
    choose|root: nat| is_int_sqrt(n, root)
}

/// Planar distance between two points, rounded down.
pub open spec fn planar_distance(lat1: int, lng1: int, lat2: int, lng2: int) -> nat {
    int_sqrt(squared_distance(lat1, lng1, lat2, lng2))
}

/// A number has at most one integer square root.
pub proof fn lemma_int_sqrt_unique(n: nat, r1: nat, r2: nat)
    requires
        is_int_sqrt(n, r1),
        is_int_sqrt(n, r2),
    ensures
        r1 == r2,
{
    if r1 < r2 {
        assert((r1 + 1) * (r1 + 1) <= r2 * r2) by (nonlinear_arith)
            requires
                r1 + 1 <= r2,
        ;
    } else if r2 < r1 {
        assert((r2 + 1) * (r2 + 1) <= r1 * r1) by (nonlinear_arith)
            requires
                r2 + 1 <= r1,
        ;
    }
}

/// Every natural number has an integer square root, and `int_sqrt` is it.
pub proof fn lemma_int_sqrt_exists(n: nat)
    ensures
        is_int_sqrt(n, int_sqrt(n)),
    decreases n,
{
    if n == 0 {
        assert(is_int_sqrt(0, 0)) by (nonlinear_arith);
    } else {
        let below = (n - 1) as nat;
        lemma_int_sqrt_exists(below);
        let r = int_sqrt(below);
        if n < (r + 1) * (r + 1) {
            assert(is_int_sqrt(n, r));
        } else {
            assert((r + 2) * (r + 2) > (r + 1) * (r + 1)) by (nonlinear_arith);
            assert(is_int_sqrt(n, r + 1));
        }
    }
}

/// Whoever exhibits an integer square root of `n` has found `int_sqrt(n)`.
pub proof fn lemma_int_sqrt_is(n: nat, root: nat)
    requires
        is_int_sqrt(n, root),
    ensures
        int_sqrt(n) == root,
{
    lemma_int_sqrt_unique(n, root, int_sqrt(n));
}

/// The rounded-down root of `n` is within `bound` exactly when `n` lies below
/// the square of the next whole number after `bound`.
pub proof fn lemma_int_sqrt_within(n: nat, bound: nat)
    ensures
        int_sqrt(n) <= bound <==> n < (bound + 1) * (bound + 1),
{
    lemma_int_sqrt_exists(n);
    let r = int_sqrt(n);
    if r <= bound {
        assert((r + 1) * (r + 1) <= (bound + 1) * (bound + 1)) by (nonlinear_arith)
            requires
                r <= bound,
        ;
    } else {
        assert((bound + 1) * (bound + 1) <= r * r) by (nonlinear_arith)
            requires
                bound + 1 <= r,
        ;
    }
}

/// Whether the square of `a + t` stays within `a * a + b * b`; written without
/// the term `a * a`, which both sides share.
spec fn leg_fits(t: int, a: int, b: int) -> bool {
    t * (2 * a + t) <= b * b
}

/// The search for the largest fitting `t` can start between `0` and `b + 1`.
proof fn lemma_leg_bounds(a: int, b: int)
    requires
        0 <= a,
        0 <= b,
    ensures
        leg_fits(0, a, b),
        !leg_fits(b + 1, a, b),
{
    assert(0 <= b * b) by (nonlinear_arith);
    assert((b + 1) * (2 * a + (b + 1)) > b * b) by (nonlinear_arith)
        requires
            0 <= a,
            0 <= b,
    ;
}

/// If `t` fits and `t + 1` does not, `a + t` is the integer square root of
/// `a * a + b * b`.
proof fn lemma_leg_root(t: int, a: int, b: int)
    requires
        0 <= a,
        0 <= b,
        0 <= t,
        leg_fits(t, a, b),
        !leg_fits(t + 1, a, b),
    ensures
        is_int_sqrt((a * a + b * b) as nat, (a + t) as nat),
{
    assert((a + t) * (a + t) == a * a + t * (2 * a + t)) by (nonlinear_arith);
    assert((a + t + 1) * (a + t + 1) == a * a + (t + 1) * (2 * a + (t + 1))) by (nonlinear_arith);
    assert(0 <= a * a) by (nonlinear_arith);
    assert(0 <= b * b) by (nonlinear_arith);
}

/// Absolute difference of two coordinates.
fn coordinate_gap(x: i64, y: i64) -> (gap: u64)
    ensures
        gap == if x >= y {
            x - y
        } else {
            y - x
        },
{
    if x >= y {
        (x as i128 - y as i128) as u64
    } else {
        (y as i128 - x as i128) as u64
    }
}

/// Planar distance between `(lat1, lng1)` and `(lat2, lng2)`: the square root
/// of the sum of the squared coordinate differences, rounded down.
///
/// The result is exact for every pair of points; two points at opposite
/// corners of the coordinate range lie further apart than 64 bits can count.
pub fn calculate_distance(lat1: i64, lng1: i64, lat2: i64, lng2: i64) -> (distance: u128)
    ensures
        distance == planar_distance(lat1 as int, lng1 as int, lat2 as int, lng2 as int),
        is_int_sqrt(
            squared_distance(lat1 as int, lng1 as int, lat2 as int, lng2 as int),
            distance as nat,
        ),
{
    let a: u128 = coordinate_gap(lat1, lat2) as u128;
    let b: u128 = coordinate_gap(lng1, lng2) as u128;
    assert(b * b <= 0xffff_ffff_ffff_ffff * 0xffff_ffff_ffff_ffff) by (nonlinear_arith)
        requires
            0 <= b <= 0xffff_ffff_ffff_ffff,
    ;
    let b_squared: u128 = b * b;
    // Search for the largest `t` with `(a + t)^2 <= a^2 + b^2`; it is at most `b`.
    let mut low: u128 = 0;
    let mut high: u128 = b + 1;
    proof {
        lemma_leg_bounds(a as int, b as int);
    }
    while high - low > 1
        invariant
            a <= 0xffff_ffff_ffff_ffff,
            b <= 0xffff_ffff_ffff_ffff,
            b_squared == b * b,
            low < high <= b + 1,
            leg_fits(low as int, a as int, b as int),
            !leg_fits(high as int, a as int, b as int),
        decreases high - low,
    {
        let mid: u128 = low + (high - low) / 2;
        let fits = match mid.checked_mul(2 * a + mid) {
            Some(product) => product <= b_squared,
            None => false,
        };
        if fits {
            low = mid;
        } else {
            high = mid;
        }
    }
    proof {
        lemma_leg_root(low as int, a as int, b as int);
        assert((lat1 - lat2) * (lat1 - lat2) == a * a) by (nonlinear_arith)
            requires
                a == lat1 - lat2 || a == lat2 - lat1,
        ;
        assert((lng1 - lng2) * (lng1 - lng2) == b * b) by (nonlinear_arith)
            requires
                b == lng1 - lng2 || b == lng2 - lng1,
        ;
        lemma_int_sqrt_is(
            squared_distance(lat1 as int, lng1 as int, lat2 as int, lng2 as int),
            (a + low) as nat,
        );
    }
    a + low
}

} // verus!
