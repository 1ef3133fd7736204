//! Integer helpers on which the fixed-point scalar is built: magnitudes,
//! division that rounds toward zero, and the integer square root.
use vstd::arithmetic::power2::{lemma2_to64, lemma2_to64_rest, lemma_pow2_unfold, pow2};
use vstd::prelude::*;

verus! {

/// The absolute value of an integer.
pub open spec fn magnitude(n: int) -> int {
    if n < 0 {
        -n
    } else {
        n
    }
}

/// The quotient of `n` by `d`, rounded toward zero. Meaningful for `d != 0`.
pub open spec fn quot(n: int, d: int) -> int {
    let q = magnitude(n) / magnitude(d);
    if (n < 0) != (d < 0) {
        -q
    } else {
        q
    }
}

/// `r` is the integer square root of `n`: the largest integer whose square
/// does not exceed `n`.
pub open spec fn is_floor_sqrt(n: int, r: int) -> bool {
    0 <= r && r * r <= n < (r + 1) * (r + 1)
}

/// The integer square root of `n`. Meaningful for `n >= 0`.
pub open spec fn floor_sqrt(n: int) -> int {
    choose|r: int| is_floor_sqrt(n, r)
}

/// Squaring is strictly monotone on the non-negative integers.
pub proof fn lemma_square_monotone(a: int, b: int)
    by (nonlinear_arith)
    requires
        0 <= a < b,
    ensures
        a * a < b * b,
{
}

/// At most one integer is the integer square root of `n`.
pub proof fn lemma_floor_sqrt_unique(n: int, r1: int, r2: int)
    requires
        is_floor_sqrt(n, r1),
        is_floor_sqrt(n, r2),
    ensures
        r1 == r2,
{
    if r1 < r2 {
        if r1 + 1 < r2 {
            lemma_square_monotone(r1 + 1, r2);
        }
    } else if r2 < r1 {
        if r2 + 1 < r1 {
            lemma_square_monotone(r2 + 1, r1);
        }
    }
}

/// Every non-negative integer has an integer square root, and `floor_sqrt`
/// names it.
pub proof fn lemma_floor_sqrt_exists(n: int)
    requires
        0 <= n,
    ensures
        is_floor_sqrt(n, floor_sqrt(n)),
    decreases n,
{
    if n == 0 {
        assert(is_floor_sqrt(0, 0));
    } else {
        lemma_floor_sqrt_exists(n - 1);
        let r = floor_sqrt(n - 1);
        if (r + 1) * (r + 1) <= n {
            assert((r + 2) * (r + 2) > (r + 1) * (r + 1)) by (nonlinear_arith)
                requires
                    0 <= r,
            ;
            assert(is_floor_sqrt(n, r + 1));
        } else {
            assert(is_floor_sqrt(n, r));
        }
    }
}

/// Whatever satisfies `is_floor_sqrt` is the value of `floor_sqrt`.
pub proof fn lemma_floor_sqrt_is(n: int, r: int)
    requires
        is_floor_sqrt(n, r),
    ensures
        floor_sqrt(n) == r,
{
    lemma_floor_sqrt_unique(n, r, floor_sqrt(n));
}

/// The integer square root of a perfect square is its root.
pub proof fn lemma_floor_sqrt_of_square(r: int)
    requires
        0 <= r,
    ensures
        floor_sqrt(r * r) == r,
{
    lemma_square_monotone(r, r + 1);
    lemma_floor_sqrt_is(r * r, r);
}

/// The integer square root never decreases as its argument grows.
pub proof fn lemma_floor_sqrt_monotone(m: int, n: int)
    requires
        0 <= m <= n,
    ensures
        floor_sqrt(m) <= floor_sqrt(n),
{
    lemma_floor_sqrt_exists(m);
    lemma_floor_sqrt_exists(n);
    let a = floor_sqrt(m);
    let b = floor_sqrt(n);
    if b < a {
        if b + 1 < a {
            lemma_square_monotone(b + 1, a);
        }
    }
}

/// The magnitude of a product is the product of the magnitudes, and a
/// product is negative exactly when it is not zero and the signs differ.
pub proof fn lemma_product_magnitude(a: int, b: int)
    by (nonlinear_arith)
    ensures
        magnitude(a * b) == magnitude(a) * magnitude(b),
        (a * b < 0) == ((a < 0) != (b < 0) && a != 0 && b != 0),
{
}

/// What the quotient and the remainder of non-negative integers are.
pub proof fn lemma_division(n: int, d: int)
    by (nonlinear_arith)
    requires
        0 <= n,
        0 < d,
    ensures
        0 <= n / d,
        d * (n / d) <= n < d * (n / d) + d,
{
}

/// Division that rounds toward zero keeps the order of the numbers it
/// divides, for a positive divisor.
pub proof fn lemma_quot_monotone(small: int, large: int, d: int)
    requires
        small <= large,
        0 < d,
    ensures
        quot(small, d) <= quot(large, d),
{
    let a = magnitude(small);
    let b = magnitude(large);
    lemma_division(a, d);
    lemma_division(b, d);
    if 0 <= small {
        assert(a / d <= b / d) by (nonlinear_arith)
            requires
                0 <= a <= b,
                0 < d,
                d * (a / d) <= a,
                b < d * (b / d) + d,
        ;
    } else if large < 0 {
        assert(b / d <= a / d) by (nonlinear_arith)
            requires
                0 <= b <= a,
                0 < d,
                d * (b / d) <= b,
                a < d * (a / d) + d,
        ;
    }
}

/// Scaling a number up by `unit`, dividing it by a divisor no larger in
/// magnitude than `unit`, multiplying the quotient by the divisor and
/// scaling down again gives the number back to within one, and never
/// beyond it: the result lies between zero and the number.
pub proof fn lemma_quot_round_trip(a: int, d: int, unit: int)
    requires
        d != 0,
        magnitude(d) <= unit,
    ensures
        ({
            let t = quot(a * unit, d);
            let b = quot(d * t, unit);
            &&& magnitude(a - b) <= 1
            &&& a >= 0 ==> 0 <= b <= a
            &&& a <= 0 ==> a <= b <= 0
        }),
{
    let size = magnitude(a);
    let divisor = magnitude(d);
    let t = quot(a * unit, d);
    lemma_product_magnitude(a, unit);
    lemma_product_magnitude(d, t);
    let steps = (size * unit) / divisor;
    assert(0 <= size * unit) by (nonlinear_arith)
        requires
            0 <= size,
            0 < unit,
    ;
    lemma_division(size * unit, divisor);
    assert(magnitude(t) == steps);
    let back = (divisor * steps) / unit;
    assert(0 <= divisor * steps) by (nonlinear_arith)
        requires
            0 <= steps,
            0 < divisor,
    ;
    lemma_division(divisor * steps, unit);
    assert(back <= size) by (nonlinear_arith)
        requires
            unit * back <= divisor * steps,
            divisor * steps <= size * unit,
            0 < unit,
    ;
    assert(size - 1 <= back) by (nonlinear_arith)
        requires
            divisor * steps < unit * back + unit,
            size * unit < divisor * steps + divisor,
            divisor <= unit,
            0 < unit,
    ;
}

/// Four to the power `k`.
pub open spec fn four_to(k: nat) -> int
    decreases k,
{
    if k == 0 {
        1
    } else {
        4 * four_to((k - 1) as nat)
    }
}

/// The square of an even number is a multiple of four, and the square of
/// an odd number is one more than a multiple of four.
pub proof fn lemma_square_mod_four(x: int)
    ensures
        x % 2 == 0 ==> (x * x) % 4 == 0 && x == 2 * (x / 2) && x * x == 4 * ((x / 2) * (x / 2)),
        x % 2 != 0 ==> (x * x) % 4 == 1,
{
    let m = x / 2;
    if x % 2 == 0 {
        assert(x == 2 * m);
        assert(x * x == 4 * (m * m)) by (nonlinear_arith)
            requires
                x == 2 * m,
        ;
    } else {
        assert(x == 2 * m + 1);
        assert(x * x == 4 * (m * m + m) + 1) by (nonlinear_arith)
            requires
                x == 2 * m + 1,
        ;
    }
}

/// Three squares add up to a power of four only where two of the three
/// numbers are zero.
pub proof fn lemma_three_squares(a: int, b: int, c: int, k: nat)
    requires
        a * a + b * b + c * c == four_to(k),
    ensures
        (a == 0 && b == 0) || (a == 0 && c == 0) || (b == 0 && c == 0),
    decreases k,
{
    if k == 0 {
        assert((a == 0 && b == 0) || (a == 0 && c == 0) || (b == 0 && c == 0)) by (nonlinear_arith)
            requires
                a * a + b * b + c * c == 1,
        ;
    } else {
        lemma_square_mod_four(a);
        lemma_square_mod_four(b);
        lemma_square_mod_four(c);
        let rest = four_to((k - 1) as nat);
        assert((a * a + b * b + c * c) % 4 == 0);
        assert(a % 2 == 0 && b % 2 == 0 && c % 2 == 0);
        lemma_three_squares(a / 2, b / 2, c / 2, (k - 1) as nat);
    }
}

/// The magnitude of a 64-bit signed integer, which always fits 128 bits.
pub fn magnitude_of(a: i64) -> (m: u128)
    ensures
        m == magnitude(a as int),
        m <= 0x8000_0000_0000_0000,
{
    if a < 0 {
        let wide: i128 = a as i128;
        (-wide) as u128
    } else {
        a as u128
    }
}

/// Computes the integer square root of `n` by fixing the bits of the root
/// from the highest down.
pub fn integer_sqrt(n: u128) -> (r: u64)
    ensures
        r == floor_sqrt(n as int),
        is_floor_sqrt(n as int, r as int),
{
    let mut root: u128 = 0;
    let mut span: u128 = 0x1_0000_0000_0000_0000;
    let mut bits: u32 = 64;
    proof {
        lemma2_to64();
        lemma2_to64_rest();
        assert(n < 0x1_0000_0000_0000_0000 * 0x1_0000_0000_0000_0000);
    }
    while bits > 0
        invariant
            bits <= 64,
            span == pow2(bits as nat),
            root + span <= 0x1_0000_0000_0000_0000,
            root * root <= n,
            n < (root + span) * (root + span),
        decreases bits,
    {
        proof {
            lemma_pow2_unfold(bits as nat);
        }
        let half: u128 = span / 2;
        let candidate: u128 = root + half;
        assert(candidate * candidate <= 0xffff_ffff_ffff_ffff * 0xffff_ffff_ffff_ffff)
            by (nonlinear_arith)
            requires
                0 <= candidate <= 0xffff_ffff_ffff_ffff,
        ;
        if candidate * candidate <= n {
            root = candidate;
        }
        span = half;
        bits = bits - 1;
    }
    proof {
        lemma2_to64();
        lemma_floor_sqrt_is(n as int, root as int);
    }
    root as u64
}

} // verus!
