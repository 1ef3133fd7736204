//! The scalar of the whole library: a signed fixed-point number with 32
//! fractional bits, extended by two infinities and an undefined value so that
//! every operation is total.
//!
//! A finite scalar with raw value `r` stands for the real number `r / 2^32`.
//! Results that do not fit are replaced by the infinity of their sign, and
//! results that have no meaning (`0 / 0`, `inf - inf`, the root of a negative
//! number) by `Nan`. Products, quotients and roots are rounded toward zero.
use crate::arith::{
    floor_sqrt, integer_sqrt, lemma_floor_sqrt_monotone, lemma_floor_sqrt_of_square,
    lemma_product_magnitude, lemma_quot_monotone, lemma_quot_round_trip, magnitude, magnitude_of,
    quot,
};
use vstd::prelude::*;

verus! {

/// The raw value of the scalar one.
pub const ONE: i64 = 0x1_0000_0000;

/// The raw value of the scalar two.
pub const TWO: i64 = 0x2_0000_0000;

/// The raw value of the scalar four.
pub const FOUR: i64 = 0x4_0000_0000;

/// The raw value of the smallest positive scalar, used as the threshold
/// under which a denominator counts as zero.
pub const EPSILON: i64 = 1;

/// The raw value of the distance under which a point counts as lying on a
/// surface: one thousandth, rounded down.
pub const TOLERANCE: i64 = 4_294_967;

/// A fixed-point number, an infinity, or the undefined value. Two scalars
/// are equal under `==` when they are the same variant with the same raw
/// value, so that the undefined value equals itself there; the comparisons
/// by value are `lt`, `le`, `gt` and `ge`.
#[derive(Clone, Copy, Debug, PartialEq, Eq, Structural)]
pub enum Scalar {
    /// The undefined value. It compares as neither less than, greater than
    /// nor equal in value to anything.
    Nan,
    /// Below every finite scalar.
    NegInfinity,
    /// The number `raw / 2^32`.
    Finite(i64),
    /// Above every finite scalar.
    Infinity,
}

/// The scalar that stands for the exact raw value `w`: itself where it fits,
/// the infinity of its sign where it does not.
pub open spec fn from_wide(w: int) -> Scalar {
    if w > i64::MAX {
        Scalar::Infinity
    } else if w < i64::MIN {
        Scalar::NegInfinity
    } else {
        Scalar::Finite(w as i64)
    }
}

/// The infinity of the given sign.
pub open spec fn infinity_of(negative: bool) -> Scalar {
    if negative {
        Scalar::NegInfinity
    } else {
        Scalar::Infinity
    }
}

impl Scalar {
    /// Whether this is the undefined value.
    pub open spec fn is_nan_spec(self) -> bool {
        self is Nan
    }

    /// Whether this is one of the two infinities.
    pub open spec fn is_infinite_spec(self) -> bool {
        self is Infinity || self is NegInfinity
    }

    /// Whether this stands for a number.
    pub open spec fn is_finite_spec(self) -> bool {
        self is Finite
    }

    /// The raw value of a finite scalar, and zero otherwise.
    pub open spec fn raw(self) -> int {
        match self {
            Scalar::Finite(a) => a as int,
            _ => 0,
        }
    }

    /// The position of a defined scalar on the extended number line: its raw
    /// value, or one step beyond the finite range for an infinity.
    pub open spec fn key(self) -> int {
        match self {
            Scalar::Nan => 0,
            Scalar::NegInfinity => i64::MIN - 1,
            Scalar::Finite(a) => a as int,
            Scalar::Infinity => i64::MAX + 1,
        }
    }

    /// Whether the scalar lies below zero.
    pub open spec fn is_negative_spec(self) -> bool {
        !(self is Nan) && self.key() < 0
    }

    /// Whether the scalar is the number zero.
    pub open spec fn is_zero_spec(self) -> bool {
        self == Scalar::Finite(0)
    }

    /// Strictly less, in value. False when either side is undefined.
    pub open spec fn lt_spec(self, rhs: Scalar) -> bool {
        !(self is Nan) && !(rhs is Nan) && self.key() < rhs.key()
    }

    /// Less or equal, in value. False when either side is undefined.
    pub open spec fn le_spec(self, rhs: Scalar) -> bool {
        !(self is Nan) && !(rhs is Nan) && self.key() <= rhs.key()
    }

    /// Strictly greater, in value. False when either side is undefined.
    pub open spec fn gt_spec(self, rhs: Scalar) -> bool {
        rhs.lt_spec(self)
    }

    /// Greater or equal, in value. False when either side is undefined.
    pub open spec fn ge_spec(self, rhs: Scalar) -> bool {
        rhs.le_spec(self)
    }

    /// The negation. Only the most negative finite scalar has none that
    /// fits: it becomes the positive infinity.
    pub open spec fn neg_spec(self) -> Scalar {
        match self {
            Scalar::Nan => Scalar::Nan,
            Scalar::NegInfinity => Scalar::Infinity,
            Scalar::Finite(a) => from_wide(-a),
            Scalar::Infinity => Scalar::NegInfinity,
        }
    }

    /// The absolute value.
    pub open spec fn abs_spec(self) -> Scalar {
        match self {
            Scalar::Nan => Scalar::Nan,
            Scalar::NegInfinity => Scalar::Infinity,
            Scalar::Finite(a) => from_wide(magnitude(a as int)),
            Scalar::Infinity => Scalar::Infinity,
        }
    }

    /// The sum. Infinities of opposite sign have none.
    pub open spec fn add_spec(self, rhs: Scalar) -> Scalar {
        match (self, rhs) {
            (Scalar::Nan, _) => Scalar::Nan,
            (_, Scalar::Nan) => Scalar::Nan,
            (Scalar::Finite(a), Scalar::Finite(b)) => from_wide(a + b),
            (Scalar::Finite(_), _) => rhs,
            (_, Scalar::Finite(_)) => self,
            _ => if self == rhs {
                self
            } else {
                Scalar::Nan
            },
        }
    }

    /// The difference. Infinities of the same sign have none.
    pub open spec fn sub_spec(self, rhs: Scalar) -> Scalar {
        match (self, rhs) {
            (Scalar::Nan, _) => Scalar::Nan,
            (_, Scalar::Nan) => Scalar::Nan,
            (Scalar::Finite(a), Scalar::Finite(b)) => from_wide(a - b),
            (Scalar::Finite(_), _) => rhs.neg_spec(),
            (_, Scalar::Finite(_)) => self,
            _ => if self == rhs {
                Scalar::Nan
            } else {
                self
            },
        }
    }

    /// The product, rounded toward zero. An infinity times zero has none.
    pub open spec fn mul_spec(self, rhs: Scalar) -> Scalar {
        match (self, rhs) {
            (Scalar::Nan, _) => Scalar::Nan,
            (_, Scalar::Nan) => Scalar::Nan,
            (Scalar::Finite(a), Scalar::Finite(b)) => from_wide(quot(a * b, ONE as int)),
            _ => if self.is_zero_spec() || rhs.is_zero_spec() {
                Scalar::Nan
            } else {
                infinity_of(self.is_negative_spec() != rhs.is_negative_spec())
            },
        }
    }

    /// The quotient, rounded toward zero. A number other than zero divided
    /// by zero is the infinity of its sign; zero by zero and infinity by
    /// infinity have no quotient; a number divided by an infinity is zero.
    pub open spec fn div_spec(self, rhs: Scalar) -> Scalar {
        match (self, rhs) {
            (Scalar::Nan, _) => Scalar::Nan,
            (_, Scalar::Nan) => Scalar::Nan,
            (Scalar::Finite(a), Scalar::Finite(b)) => if b != 0 {
                from_wide(quot(a * ONE, b as int))
            } else if a == 0 {
                Scalar::Nan
            } else {
                infinity_of(a < 0)
            },
            (Scalar::Finite(_), _) => Scalar::Finite(0),
            (_, Scalar::Finite(_)) => infinity_of(self.is_negative_spec() != rhs.is_negative_spec()),
            _ => Scalar::Nan,
        }
    }

    /// The square root, rounded toward zero. Negative scalars have none.
    pub open spec fn sqrt_spec(self) -> Scalar {
        match self {
            Scalar::Nan => Scalar::Nan,
            Scalar::NegInfinity => Scalar::Nan,
            Scalar::Finite(a) => if a < 0 {
                Scalar::Nan
            } else {
                from_wide(floor_sqrt(a * ONE))
            },
            Scalar::Infinity => Scalar::Infinity,
        }
    }

    /// The smaller of two scalars. An undefined side is ignored in favour of
    /// the other.
    pub open spec fn min_spec(self, rhs: Scalar) -> Scalar {
        if self is Nan {
            rhs
        } else if rhs is Nan {
            self
        } else if rhs.key() < self.key() {
            rhs
        } else {
            self
        }
    }

    /// The larger of two scalars. An undefined side is ignored in favour of
    /// the other.
    pub open spec fn max_spec(self, rhs: Scalar) -> Scalar {
        if self is Nan {
            rhs
        } else if rhs is Nan {
            self
        } else if rhs.key() > self.key() {
            rhs
        } else {
            self
        }
    }

    /// The scalar brought into the range from zero to one. The undefined
    /// value and everything below zero become zero.
    pub open spec fn clamp_unit_spec(self) -> Scalar {
        if self is Nan || self.key() <= 0 {
            Scalar::Finite(0)
        } else if self.key() >= ONE {
            Scalar::Finite(ONE)
        } else {
            self
        }
    }

    /// The scalar zero.
    pub fn zero() -> (r: Scalar)
        ensures
            r == Scalar::Finite(0),
    {
        Scalar::Finite(0)
    }

    /// The scalar one.
    pub fn one() -> (r: Scalar)
        ensures
            r == Scalar::Finite(ONE),
    {
        Scalar::Finite(ONE)
    }

    /// The scalar with the given raw value, that is `raw / 2^32`.
    pub fn from_raw(raw: i64) -> (r: Scalar)
        ensures
            r == Scalar::Finite(raw),
    {
        Scalar::Finite(raw)
    }

    /// The scalar that stands for the integer `n`, or the infinity of its
    /// sign where `n` lies outside the finite range.
    pub fn from_int(n: i64) -> (r: Scalar)
        ensures
            r == from_wide(n * ONE),
    {
        let wide: i128 = (n as i128) * 0x1_0000_0000;
        saturate(wide)
    }

    /// The scalar that stands for the count `n`, or the positive infinity
    /// where `n` lies outside the finite range.
    pub fn from_usize(n: usize) -> (r: Scalar)
        ensures
            r == from_wide(n * ONE),
    {
        if n > 0x7fff_ffff {
            Scalar::Infinity
        } else {
            Scalar::Finite((n as i64) * ONE)
        }
    }

    /// Whether this is the undefined value.
    pub fn is_nan(self) -> (r: bool)
        ensures
            r == self.is_nan_spec(),
    {
        match self {
            Scalar::Nan => true,
            _ => false,
        }
    }

    /// Whether this is one of the two infinities.
    pub fn is_infinite(self) -> (r: bool)
        ensures
            r == self.is_infinite_spec(),
    {
        match self {
            Scalar::Infinity => true,
            Scalar::NegInfinity => true,
            _ => false,
        }
    }

    /// Whether this stands for a number.
    pub fn is_finite(self) -> (r: bool)
        ensures
            r == self.is_finite_spec(),
    {
        match self {
            Scalar::Finite(_) => true,
            _ => false,
        }
    }

    /// Whether this is the number zero.
    pub fn is_zero(self) -> (r: bool)
        ensures
            r == self.is_zero_spec(),
    {
        match self {
            Scalar::Finite(a) => a == 0,
            _ => false,
        }
    }

    /// Whether this lies below zero.
    pub fn is_negative(self) -> (r: bool)
        ensures
            r == self.is_negative_spec(),
    {
        match self {
            Scalar::NegInfinity => true,
            Scalar::Finite(a) => a < 0,
            _ => false,
        }
    }

    /// Strictly less, in value.
    pub fn lt(self, rhs: Scalar) -> (r: bool)
        ensures
            r == self.lt_spec(rhs),
    {
        match (self, rhs) {
            (Scalar::Nan, _) => false,
            (_, Scalar::Nan) => false,
            (Scalar::Finite(a), Scalar::Finite(b)) => a < b,
            (Scalar::NegInfinity, Scalar::NegInfinity) => false,
            (Scalar::NegInfinity, _) => true,
            (Scalar::Infinity, _) => false,
            (_, Scalar::Infinity) => true,
            (_, Scalar::NegInfinity) => false,
        }
    }

    /// Less or equal, in value.
    pub fn le(self, rhs: Scalar) -> (r: bool)
        ensures
            r == self.le_spec(rhs),
    {
        match (self, rhs) {
            (Scalar::Nan, _) => false,
            (_, Scalar::Nan) => false,
            (Scalar::Finite(a), Scalar::Finite(b)) => a <= b,
            (Scalar::NegInfinity, _) => true,
            (Scalar::Infinity, Scalar::Infinity) => true,
            (Scalar::Infinity, _) => false,
            (_, Scalar::Infinity) => true,
            (_, Scalar::NegInfinity) => false,
        }
    }

    /// Strictly greater, in value.
    pub fn gt(self, rhs: Scalar) -> (r: bool)
        ensures
            r == self.gt_spec(rhs),
    {
        rhs.lt(self)
    }

    /// Greater or equal, in value.
    pub fn ge(self, rhs: Scalar) -> (r: bool)
        ensures
            r == self.ge_spec(rhs),
    {
        rhs.le(self)
    }

    /// The negation.
    pub fn neg(self) -> (r: Scalar)
        ensures
            r == self.neg_spec(),
    {
        match self {
            Scalar::Nan => Scalar::Nan,
            Scalar::NegInfinity => Scalar::Infinity,
            Scalar::Finite(a) => saturate(-(a as i128)),
            Scalar::Infinity => Scalar::NegInfinity,
        }
    }

    /// The absolute value.
    pub fn abs(self) -> (r: Scalar)
        ensures
            r == self.abs_spec(),
    {
        match self {
            Scalar::Nan => Scalar::Nan,
            Scalar::NegInfinity => Scalar::Infinity,
            Scalar::Finite(a) => from_parts(false, magnitude_of(a)),
            Scalar::Infinity => Scalar::Infinity,
        }
    }

    /// The sum.
    pub fn add(self, rhs: Scalar) -> (r: Scalar)
        ensures
            r == self.add_spec(rhs),
    {
        match (self, rhs) {
            (Scalar::Nan, _) => Scalar::Nan,
            (_, Scalar::Nan) => Scalar::Nan,
            (Scalar::Finite(a), Scalar::Finite(b)) => saturate((a as i128) + (b as i128)),
            (Scalar::Finite(_), _) => rhs,
            (_, Scalar::Finite(_)) => self,
            (Scalar::Infinity, Scalar::Infinity) => Scalar::Infinity,
            (Scalar::NegInfinity, Scalar::NegInfinity) => Scalar::NegInfinity,
            _ => Scalar::Nan,
        }
    }

    /// The difference.
    pub fn sub(self, rhs: Scalar) -> (r: Scalar)
        ensures
            r == self.sub_spec(rhs),
    {
        match (self, rhs) {
            (Scalar::Nan, _) => Scalar::Nan,
            (_, Scalar::Nan) => Scalar::Nan,
            (Scalar::Finite(a), Scalar::Finite(b)) => saturate((a as i128) - (b as i128)),
            (Scalar::Finite(_), _) => rhs.neg(),
            (_, Scalar::Finite(_)) => self,
            (Scalar::Infinity, Scalar::NegInfinity) => Scalar::Infinity,
            (Scalar::NegInfinity, Scalar::Infinity) => Scalar::NegInfinity,
            _ => Scalar::Nan,
        }
    }

    /// The product, rounded toward zero.
    pub fn mul(self, rhs: Scalar) -> (r: Scalar)
        ensures
            r == self.mul_spec(rhs),
    {
        match (self, rhs) {
            (Scalar::Nan, _) => Scalar::Nan,
            (_, Scalar::Nan) => Scalar::Nan,
            (Scalar::Finite(a), Scalar::Finite(b)) => {
                let ma: u128 = magnitude_of(a);
                let mb: u128 = magnitude_of(b);
                proof {
                    lemma_product_magnitude(a as int, b as int);
                    assert(ma * mb <= 0x8000_0000_0000_0000 * 0x8000_0000_0000_0000)
                        by (nonlinear_arith)
                        requires
                            0 <= ma <= 0x8000_0000_0000_0000,
                            0 <= mb <= 0x8000_0000_0000_0000,
                    ;
                }
                let q: u128 = (ma * mb) / (ONE as u128);
                from_parts((a < 0) != (b < 0), q)
            },
            _ => {
                if self.is_zero() || rhs.is_zero() {
                    Scalar::Nan
                } else {
                    infinity((self.is_negative()) != (rhs.is_negative()))
                }
            },
        }
    }

    /// The quotient, rounded toward zero.
    pub fn div(self, rhs: Scalar) -> (r: Scalar)
        ensures
            r == self.div_spec(rhs),
    {
        match (self, rhs) {
            (Scalar::Nan, _) => Scalar::Nan,
            (_, Scalar::Nan) => Scalar::Nan,
            (Scalar::Finite(a), Scalar::Finite(b)) => {
                if b != 0 {
                    let ma: u128 = magnitude_of(a);
                    let mb: u128 = magnitude_of(b);
                    proof {
                        lemma_product_magnitude(a as int, ONE as int);
                    }
                    let q: u128 = (ma * (ONE as u128)) / mb;
                    from_parts((a < 0) != (b < 0), q)
                } else if a == 0 {
                    Scalar::Nan
                } else {
                    infinity(a < 0)
                }
            },
            (Scalar::Finite(_), _) => Scalar::Finite(0),
            (_, Scalar::Finite(_)) => infinity((self.is_negative()) != (rhs.is_negative())),
            _ => Scalar::Nan,
        }
    }

    /// The square root, rounded toward zero.
    pub fn sqrt(self) -> (r: Scalar)
        ensures
            r == self.sqrt_spec(),
    {
        match self {
            Scalar::Nan => Scalar::Nan,
            Scalar::NegInfinity => Scalar::Nan,
            Scalar::Finite(a) => {
                if a < 0 {
                    Scalar::Nan
                } else {
                    let root: u64 = integer_sqrt((a as u128) * (ONE as u128));
                    proof {
                        let bound: int = 0x1_0000_0000_0000;
                        lemma_floor_sqrt_of_square(bound);
                        lemma_floor_sqrt_monotone(a * ONE, bound * bound);
                    }
                    Scalar::Finite(root as i64)
                }
            },
            Scalar::Infinity => Scalar::Infinity,
        }
    }

    /// The smaller of the two, ignoring an undefined side.
    pub fn min(self, rhs: Scalar) -> (r: Scalar)
        ensures
            r == self.min_spec(rhs),
    {
        if self.is_nan() {
            rhs
        } else if rhs.is_nan() {
            self
        } else if rhs.lt(self) {
            rhs
        } else {
            self
        }
    }

    /// The larger of the two, ignoring an undefined side.
    pub fn max(self, rhs: Scalar) -> (r: Scalar)
        ensures
            r == self.max_spec(rhs),
    {
        if self.is_nan() {
            rhs
        } else if rhs.is_nan() {
            self
        } else if rhs.gt(self) {
            rhs
        } else {
            self
        }
    }

    /// The scalar brought into the range from zero to one.
    pub fn clamp_unit(self) -> (r: Scalar)
        ensures
            r == self.clamp_unit_spec(),
            r is Finite,
            0 <= r.raw() <= ONE,
    {
        if self.is_nan() || self.le(Scalar::Finite(0)) {
            Scalar::Finite(0)
        } else if self.ge(Scalar::Finite(ONE)) {
            Scalar::Finite(ONE)
        } else {
            self
        }
    }
}

/// Dividing a multiple of a divisor other than zero by it, rounding toward
/// zero, gives the other factor back.
pub proof fn lemma_quot_exact(q: int, d: int)
    requires
        d != 0,
    ensures
        quot(q * d, d) == q,
{
    lemma_product_magnitude(q, d);
    let m = magnitude(q);
    let n = magnitude(d);
    assert((m * n) / n == m) by (nonlinear_arith)
        requires
            0 < n,
            0 <= m,
    ;
}

/// A product of numbers that needs no rounding and fits is exact.
pub proof fn lemma_mul_exact(a: i64, b: i64, q: i64)
    requires
        a * b == q * ONE,
    ensures
        Scalar::Finite(a).mul_spec(Scalar::Finite(b)) == Scalar::Finite(q),
{
    lemma_quot_exact(q as int, ONE as int);
}

/// A quotient of numbers that needs no rounding and fits is exact.
pub proof fn lemma_div_exact(a: i64, b: i64, q: i64)
    requires
        b != 0,
        a * ONE == q * b,
    ensures
        Scalar::Finite(a).div_spec(Scalar::Finite(b)) == Scalar::Finite(q),
{
    lemma_quot_exact(q as int, b as int);
}

/// A square root that needs no rounding is exact.
pub proof fn lemma_sqrt_exact(a: i64, s: i64)
    requires
        0 <= s,
        a * ONE == s * s,
    ensures
        Scalar::Finite(a).sqrt_spec() == Scalar::Finite(s),
{
    lemma_floor_sqrt_of_square(s as int);
    assert(0 <= s * s) by (nonlinear_arith);
}

/// The sign of a quotient. A scalar other than zero and not undefined,
/// divided by a number, is never undefined; it is not above zero where the
/// signs differ and not below zero where they agree, zero counting as a
/// positive divisor.
pub proof fn lemma_div_sign(a: Scalar, b: Scalar)
    requires
        !(a is Nan),
        !a.is_zero_spec(),
        b is Finite,
    ensures
        !(a.div_spec(b) is Nan),
        a.is_negative_spec() != b.is_negative_spec() ==> a.div_spec(b).key() <= 0,
        a.is_negative_spec() == b.is_negative_spec() ==> a.div_spec(b).key() >= 0,
{
    if a is Finite && b.raw() != 0 {
        let m = magnitude(a.raw() * ONE);
        let n = magnitude(b.raw());
        assert(0 <= m / n) by (nonlinear_arith)
            requires
                0 <= m,
                0 < n,
        ;
    }
}

/// Dividing a number by a divisor between minus one and one, and
/// multiplying the quotient by the divisor again, gives the number back to
/// within one raw step, and never beyond it, as long as the quotient is a
/// number.
pub proof fn lemma_div_mul_round_trip(a: Scalar, d: Scalar)
    requires
        a.div_spec(d) is Finite,
        d is Finite,
        -ONE <= d.raw() <= ONE,
    ensures
        a is Finite,
        d.mul_spec(a.div_spec(d)) is Finite,
        magnitude(d.mul_spec(a.div_spec(d)).raw() - a.raw()) <= 1,
        0 <= a.raw() ==> 0 <= d.mul_spec(a.div_spec(d)).raw() <= a.raw(),
        a.raw() <= 0 ==> a.raw() <= d.mul_spec(a.div_spec(d)).raw() <= 0,
{
    lemma_quot_round_trip(a.raw(), d.raw(), ONE as int);
}

/// The product of a number with a factor that lies between two others lies
/// between the products with those two, as long as those two are numbers:
/// multiplying by a number, rounding included, keeps or reverses the order
/// and never mixes it.
pub proof fn lemma_mul_between(d: i64, t: i64, c1: i64, c2: i64)
    requires
        (c1 <= t <= c2) || (c2 <= t <= c1),
        Scalar::Finite(d).mul_spec(Scalar::Finite(c1)) is Finite,
        Scalar::Finite(d).mul_spec(Scalar::Finite(c2)) is Finite,
    ensures
        Scalar::Finite(d).mul_spec(Scalar::Finite(t)) is Finite,
        ({
            let p = Scalar::Finite(d).mul_spec(Scalar::Finite(t)).raw();
            let p1 = Scalar::Finite(d).mul_spec(Scalar::Finite(c1)).raw();
            let p2 = Scalar::Finite(d).mul_spec(Scalar::Finite(c2)).raw();
            (p1 <= p <= p2) || (p2 <= p <= p1)
        }),
{
    let low: int = if c1 <= c2 {
        c1 as int
    } else {
        c2 as int
    };
    let high: int = if c1 <= c2 {
        c2 as int
    } else {
        c1 as int
    };
    if 0 <= d {
        assert(d * low <= d * t <= d * high) by (nonlinear_arith)
            requires
                0 <= d,
                low <= t <= high,
        ;
        lemma_quot_monotone(d * low, d * t, ONE as int);
        lemma_quot_monotone(d * t, d * high, ONE as int);
    } else {
        assert(d * high <= d * t <= d * low) by (nonlinear_arith)
            requires
                d < 0,
                low <= t <= high,
        ;
        lemma_quot_monotone(d * high, d * t, ONE as int);
        lemma_quot_monotone(d * t, d * low, ONE as int);
    }
}

/// One is neutral for the product, on either side and for every scalar.
pub proof fn lemma_mul_one(a: Scalar)
    ensures
        Scalar::Finite(ONE).mul_spec(a) == a,
        a.mul_spec(Scalar::Finite(ONE)) == a,
{
    if let Scalar::Finite(raw) = a {
        lemma_quot_exact(raw as int, ONE as int);
        assert(ONE * raw == raw * ONE) by (nonlinear_arith);
    }
}

/// Zero times a number is zero, on either side.
pub proof fn lemma_mul_zero(a: Scalar)
    requires
        a is Finite,
    ensures
        Scalar::Finite(0).mul_spec(a) == Scalar::Finite(0),
        a.mul_spec(Scalar::Finite(0)) == Scalar::Finite(0),
{
    assert(0 * a.raw() == 0 && a.raw() * 0 == 0) by (nonlinear_arith);
}

fn infinity(negative: bool) -> (r: Scalar)
    ensures
        r == infinity_of(negative),
{
    if negative {
        Scalar::NegInfinity
    } else {
        Scalar::Infinity
    }
}

fn saturate(wide: i128) -> (r: Scalar)
    ensures
        r == from_wide(wide as int),
{
    if wide > i64::MAX as i128 {
        Scalar::Infinity
    } else if wide < i64::MIN as i128 {
        Scalar::NegInfinity
    } else {
        Scalar::Finite(wide as i64)
    }
}

fn from_parts(negative: bool, size: u128) -> (r: Scalar)
    ensures
        r == from_wide(
            if negative {
                -(size as int)
            } else {
                size as int
            },
        ),
{
    if negative {
        if size > 0x8000_0000_0000_0000 {
            Scalar::NegInfinity
        } else {
            let wide: i128 = -(size as i128);
            Scalar::Finite(wide as i64)
        }
    } else {
        if size > 0x7fff_ffff_ffff_ffff {
            Scalar::Infinity
        } else {
            Scalar::Finite(size as i64)
        }
    }
}

} // verus!
