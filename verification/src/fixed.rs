//! Fixed-point scalars.
//!
//! Every length, speed and duration in this crate is a signed Q16.16
//! fixed-point number held in an `i32`: the raw value `v` stands for the real
//! number `v / 65536`. One arena unit is therefore [`ONE`] raw units, and a
//! duration of one second is [`ONE`] as well.
//!
//! All operations are total. A result that does not fit the 32 bits is pinned
//! to the nearest representable value; products and quotients are rounded
//! towards negative infinity.
use vstd::prelude::*;
use vstd::arithmetic::div_mod::lemma_fundamental_div_mod;
use vstd::arithmetic::div_mod::lemma_fundamental_div_mod_converse;

verus! {

/// The raw value of the number one.
pub const ONE: i32 = 65536;

/// The raw value of one half.
pub const HALF: i32 = 32768;

/// The value of `v` pinned into the range of an `i32`.
pub open spec fn saturate(v: int) -> i32 {
    if v < i32::MIN {
        i32::MIN
    } else if v > i32::MAX {
        i32::MAX
    } else {
        v as i32
    }
}

/// `a + b`, pinned.
pub open spec fn sum(a: i32, b: i32) -> i32 {
    saturate(a + b)
}

/// `a - b`, pinned.
pub open spec fn difference(a: i32, b: i32) -> i32 {
    saturate(a - b)
}

/// `-a`, pinned: the negation of the least value is the greatest one.
pub open spec fn negated(a: i32) -> i32 {
    saturate(-a)
}

/// The fixed-point product of `a` and `b`, rounded down and pinned.
pub open spec fn product(a: i32, b: i32) -> i32 {
    saturate((a * b) / (ONE as int))
}

/// The rounded-down quotient of `n` by a non-zero `d`.
pub open spec fn floor_quotient(n: int, d: int) -> int {
    if d > 0 {
        n / d
    } else {
        (-n) / (-d)
    }
}

/// The fixed-point quotient of `a` by `b`, rounded down and pinned. Division
/// by zero gives the extreme value that has the sign of `a`, and zero for `0 / 0`.
pub open spec fn quotient(a: i32, b: i32) -> i32 {
    if b != 0 {
        saturate(floor_quotient(a * ONE, b as int))
    } else if a > 0 {
        i32::MAX
    } else if a < 0 {
        i32::MIN
    } else {
        0
    }
}

/// Half of `a`, rounded down.
pub open spec fn halved(a: i32) -> i32 {
    (a as int / 2) as i32
}

/// `v` held between `lo` and `hi`; where `hi < lo`, the result is `lo` for
/// values below `lo` and `hi` otherwise.
pub open spec fn clamped(v: int, lo: int, hi: int) -> int {
    if v < lo {
        lo
    } else if v > hi {
        hi
    } else {
        v
    }
}

/// Pins a wide intermediate result into an `i32`.
pub(crate) fn narrow(v: i64) -> (r: i32)
    ensures
        r == saturate(v as int),
{
    if v < i32::MIN as i64 {
        i32::MIN
    } else if v > i32::MAX as i64 {
        i32::MAX
    } else {
        v as i32
    }
}

/// Rounded-down division of `n` by a positive `d`.
pub(crate) fn floor_div(n: i64, d: i64) -> (q: i64)
    requires
        d > 0,
        n > i64::MIN,
    ensures
        q == n as int / d as int,
{
    if n >= 0 {
        n / d
    } else {
        let m: i64 = -n - 1;
        let p: i64 = m / d;
        proof {
            let r: int = m as int % d as int;
            lemma_fundamental_div_mod(m as int, d as int);
            assert(d * p == p * d) by (nonlinear_arith);
            assert((-p - 1) * d == -(p * d) - d) by (nonlinear_arith);
            lemma_fundamental_div_mod_converse(n as int, d as int, -p - 1, d - r - 1);
        }
        -p - 1
    }
}

/// The number `n` as a fixed-point value.
pub fn from_int(n: i16) -> (r: i32)
    ensures
        r == n * ONE,
{
    (n as i32) * ONE
}

/// Addition.
pub fn sat_add(a: i32, b: i32) -> (r: i32)
    ensures
        r == sum(a, b),
{
    narrow(a as i64 + b as i64)
}

/// Subtraction.
pub fn sat_sub(a: i32, b: i32) -> (r: i32)
    ensures
        r == difference(a, b),
{
    narrow(a as i64 - b as i64)
}

/// Negation.
pub fn sat_neg(a: i32) -> (r: i32)
    ensures
        r == negated(a),
{
    narrow(-(a as i64))
}

/// Fixed-point multiplication.
pub fn sat_mul(a: i32, b: i32) -> (r: i32)
    ensures
        r == product(a, b),
{
    let wide: i64 = wide_product(a, b);
    narrow(floor_div(wide, ONE as i64))
}

/// Fixed-point division.
pub fn sat_div(a: i32, b: i32) -> (r: i32)
    ensures
        r == quotient(a, b),
{
    let n: i64 = (a as i64) * 65536;
    if b > 0 {
        narrow(floor_div(n, b as i64))
    } else if b < 0 {
        narrow(floor_div(-n, -(b as i64)))
    } else if a > 0 {
        i32::MAX
    } else if a < 0 {
        i32::MIN
    } else {
        0
    }
}

/// Halving.
pub fn half(a: i32) -> (r: i32)
    ensures
        r == halved(a),
{
    floor_div(a as i64, 2) as i32
}

/// The exact product of two 32-bit values.
pub(crate) fn wide_product(a: i32, b: i32) -> (r: i64)
    ensures
        r == a * b,
        -0x4000_0000_0000_0000 <= r <= 0x4000_0000_0000_0000,
{
    proof {
        lemma_product_bound(a as int, b as int, 0x8000_0000);
    }
    (a as i64) * (b as i64)
}

/// The exact square of a value of at most 34 bits.
pub(crate) fn wide_square(d: i64) -> (r: i128)
    requires
        -0x2_0000_0000 <= d <= 0x2_0000_0000,
    ensures
        r == d * d,
        0 <= r <= 0x4_0000_0000_0000_0000,
{
    proof {
        lemma_product_bound(d as int, d as int, 0x2_0000_0000);
        assert(d * d >= 0) by (nonlinear_arith);
    }
    (d as i128) * (d as i128)
}

/// A product of two numbers of magnitude at most `m` has magnitude at most `m * m`.
pub proof fn lemma_product_bound(a: int, b: int, m: int)
    by (nonlinear_arith)
    requires
        -m <= a <= m,
        -m <= b <= m,
    ensures
        -(m * m) <= a * b <= m * m,
{
}

} // verus!
