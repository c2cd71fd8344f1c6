//! Exact decimal engine: fixed-point integers are read as exact rationals,
//! combined with checked arithmetic, and truncated back to integers.

use vstd::prelude::*;
use vstd::arithmetic::div_mod::{
    lemma_div_denominator, lemma_div_is_ordered, lemma_fundamental_div_mod_converse,
};

verus! {

/// Ten to the power `n`.
pub open spec fn pow10(n: nat) -> int
    decreases n,
{
    if n == 0 {
        1
    } else {
        10 * pow10((n - 1) as nat)
    }
}

/// Whether `x` is representable as an `i128`.
pub open spec fn fits_i128(x: int) -> bool {
    i128::MIN <= x <= i128::MAX
}

/// The largest number of decimal places whose scale factor fits in an `i128`.
pub const MAX_DECIMALS: u8 = 38;

pub proof fn lemma_pow10_positive(n: nat)
    ensures
        pow10(n) >= 1,
    decreases n,
{
    if n > 0 {
        lemma_pow10_positive((n - 1) as nat);
    }
}

pub proof fn lemma_pow10_monotone(a: nat, b: nat)
    requires
        a <= b,
    ensures
        pow10(a) <= pow10(b),
    decreases b,
{
    if a < b {
        lemma_pow10_monotone(a, (b - 1) as nat);
        lemma_pow10_positive((b - 1) as nat);
    }
}

pub proof fn lemma_pow10_two()
    ensures
        pow10(2) == 100,
{
    reveal_with_fuel(pow10, 3);
}

proof fn lemma_pow10_max_fits()
    ensures
        pow10(MAX_DECIMALS as nat) == 100000000000000000000000000000000000000int,
        pow10(MAX_DECIMALS as nat) <= i128::MAX,
{
    reveal_with_fuel(pow10, 39);
}

/// The scale factor `10^n` as an `i128`.
pub fn pow10_i128(n: u8) -> (r: i128)
    requires
        n <= MAX_DECIMALS,
    ensures
        r == pow10(n as nat),
{
    let mut r: i128 = 1;
    let mut i: u8 = 0;
    while i < n
        invariant
            i <= n <= MAX_DECIMALS,
            r == pow10(i as nat),
        decreases n - i,
    {
        proof {
            lemma_pow10_monotone((i + 1) as nat, MAX_DECIMALS as nat);
            lemma_pow10_max_fits();
            assert(pow10((i + 1) as nat) == 10 * pow10(i as nat));
            lemma_pow10_positive(i as nat);
        }
        r = r * 10;
        i = i + 1;
    }
    r
}

pub proof fn lemma_pow10_add(a: nat, b: nat)
    ensures
        pow10(a + b) == pow10(a) * pow10(b),
    decreases a,
{
    if a > 0 {
        lemma_pow10_add((a - 1) as nat, b);
        assert(((a + b) - 1) as nat == (a - 1) as nat + b);
        let p = pow10((a - 1) as nat);
        let q = pow10(b);
        assert(10 * (p * q) == (10 * p) * q) by (nonlinear_arith);
    }
}

/// Scaling a dividend and a divisor alike leaves the quotient unchanged.
proof fn lemma_cancel_scale(x: int, y: int, m: int)
    requires
        x >= 0,
        y > 0,
        m > 0,
    ensures
        (x * m) / (y * m) == x / y,
{
    let q = x / y;
    let r = x % y;
    assert(x == q * y + r && 0 <= r < y) by (nonlinear_arith)
        requires
            y > 0,
            q == x / y,
            r == x % y,
    ;
    assert(x * m == q * (y * m) + r * m && 0 <= r * m < y * m) by (nonlinear_arith)
        requires
            x == q * y + r,
            0 <= r < y,
            m > 0,
    ;
    lemma_fundamental_div_mod_converse(x * m, y * m, q, r * m);
}

/// One digit of long division: from `x = q * d + r`, the quotient and the
/// remainder of `10 * x`.
proof fn lemma_long_division_step(x: int, d: int, q: int, r: int)
    requires
        d > 0,
        x == q * d + r,
        0 <= r < d,
    ensures
        (10 * x) / d == 10 * q + (10 * r) / d,
        (10 * x) % d == (10 * r) % d,
{
    let q2 = (10 * r) / d;
    let r2 = (10 * r) % d;
    assert(10 * r == q2 * d + r2 && 0 <= r2 < d) by (nonlinear_arith)
        requires
            d > 0,
            r >= 0,
            q2 == (10 * r) / d,
            r2 == (10 * r) % d,
    ;
    assert(10 * x == (10 * q + q2) * d + r2) by (nonlinear_arith)
        requires
            x == q * d + r,
            10 * r == q2 * d + r2,
    ;
    lemma_fundamental_div_mod_converse(10 * x, d, 10 * q + q2, r2);
}

/// `n * 10^up / (d * 10^down)`, truncated toward zero.
pub open spec fn scaled_quotient(n: int, d: int, up: nat, down: nat) -> int {
    (n * pow10(up)) / (d * pow10(down))
}

/// The exact quotient `n * 10^up / (d * 10^down)`, truncated toward zero, when
/// it fits in a `u64`. Common powers of ten cancel first; the rest is long
/// division, so no intermediate value exceeds the result by more than a digit.
pub fn div_scaled(n: u128, d: u64, up: u16, down: u16) -> (r: Option<u64>)
    requires
        d > 0,
    ensures
        match r {
            Some(v) => v == scaled_quotient(n as int, d as int, up as nat, down as nat),
            None => scaled_quotient(n as int, d as int, up as nat, down as nat) > u64::MAX,
        },
{
    let common: u16 = if up < down {
        up
    } else {
        down
    };
    let up2: u16 = up - common;
    let down2: u16 = down - common;
    proof {
        lemma_pow10_add(up2 as nat, common as nat);
        lemma_pow10_add(down2 as nat, common as nat);
        lemma_pow10_positive(up2 as nat);
        lemma_pow10_positive(down2 as nat);
        lemma_pow10_positive(common as nat);
        let a = n * pow10(up2 as nat);
        let b = d * pow10(down2 as nat);
        let c = pow10(common as nat);
        assert(n * pow10(up as nat) == a * c) by (nonlinear_arith)
            requires
                pow10(up as nat) == pow10(up2 as nat) * c,
                a == n * pow10(up2 as nat),
        ;
        assert(d * pow10(down as nat) == b * c) by (nonlinear_arith)
            requires
                pow10(down as nat) == pow10(down2 as nat) * c,
                b == d * pow10(down2 as nat),
        ;
        assert(a >= 0 && b > 0) by (nonlinear_arith)
            requires
                a == n * pow10(up2 as nat),
                b == d * pow10(down2 as nat),
                n >= 0,
                d > 0,
                pow10(up2 as nat) >= 1,
                pow10(down2 as nat) >= 1,
        ;
        lemma_cancel_scale(a, b, c);
        assert(pow10(0) == 1);
    }
    let dd = d as u128;
    let mut q: u128 = n / dd;
    let mut r: u128 = n % dd;
    if down2 > 0 {
        let mut k: u16 = 0;
        while k < down2
            invariant
                k <= down2,
                d > 0,
                q == (n as int) / (d * pow10(k as nat)),
            decreases down2 - k,
        {
            proof {
                lemma_pow10_positive(k as nat);
                assert(d * pow10(k as nat) > 0) by (nonlinear_arith)
                    requires
                        d > 0,
                        pow10(k as nat) >= 1,
                ;
                lemma_div_denominator(n as int, d * pow10(k as nat), 10);
                assert(pow10((k + 1) as nat) == 10 * pow10(k as nat));
                assert((d * pow10(k as nat)) * 10 == d * pow10((k + 1) as nat)) by (nonlinear_arith)
                    requires
                        pow10((k + 1) as nat) == 10 * pow10(k as nat),
                ;
            }
            q = q / 10;
            k = k + 1;
        }
        if q <= u64::MAX as u128 {
            Some(q as u64)
        } else {
            None
        }
    } else {
        proof {
            lemma_pow10_positive(up2 as nat);
            assert(n <= n * pow10(up2 as nat)) by (nonlinear_arith)
                requires
                    n >= 0,
                    pow10(up2 as nat) >= 1,
            ;
            lemma_div_is_ordered(n as int, n * pow10(up2 as nat), d as int);
        }
        if q > u64::MAX as u128 {
            return None;
        }
        let mut k: u16 = 0;
        while k < up2
            invariant
                k <= up2,
                down2 == 0,
                d > 0,
                dd == d,
                scaled_quotient(n as int, d as int, up as nat, down as nat) == (n * pow10(
                    up2 as nat,
                )) / (d as int),
                q == (n * pow10(k as nat)) / (d as int),
                r == (n * pow10(k as nat)) % (d as int),
                q <= u64::MAX,
                r < d,
            decreases up2 - k,
        {
            let next_q: u128 = q * 10 + (r * 10) / dd;
            proof {
                let x = n * pow10(k as nat);
                assert(x == q * d + r && 0 <= r) by (nonlinear_arith)
                    requires
                        d > 0,
                        q == x / (d as int),
                        r == x % (d as int),
                ;
                lemma_long_division_step(x, d as int, q as int, r as int);
                assert(pow10((k + 1) as nat) == 10 * pow10(k as nat));
                assert(n * pow10((k + 1) as nat) == 10 * x) by (nonlinear_arith)
                    requires
                        pow10((k + 1) as nat) == 10 * pow10(k as nat),
                        x == n * pow10(k as nat),
                ;
                lemma_pow10_monotone((k + 1) as nat, up2 as nat);
                assert(n * pow10((k + 1) as nat) <= n * pow10(up2 as nat)) by (nonlinear_arith)
                    requires
                        n >= 0,
                        pow10((k + 1) as nat) <= pow10(up2 as nat),
                ;
                lemma_div_is_ordered(n * pow10((k + 1) as nat), n * pow10(up2 as nat), d as int);
            }
            if next_q > u64::MAX as u128 {
                return None;
            }
            r = (r * 10) % dd;
            q = next_q;
            k = k + 1;
        }
        Some(q as u64)
    }
}

/// Failures of the decimal engine.
#[derive(PartialEq, Eq, Structural, Debug, Clone, Copy)]
pub enum DecimalError {
    /// A scale factor that does not fit, or a division by zero.
    DivideByZeroOrOverflow,
    /// An intermediate product or difference left the representable range.
    Overflow,
    /// A value that cannot be represented in the requested integer type.
    ConversionError,
}

/// An exact rational number `num / den` with a positive denominator.
#[derive(Debug, Clone, Copy)]
pub struct Rational {
    num: i128,
    den: i128,
}

impl View for Rational {
    type V = (int, int);

    /// The numerator and the denominator, as written.
    closed spec fn view(&self) -> (int, int) {
        (self.num as int, self.den as int)
    }
}

impl Rational {
    #[verifier::type_invariant]
    spec fn positive_denominator(self) -> bool {
        self.den > 0
    }
}

/// `n / d` truncated toward zero.
pub open spec fn trunc_div(n: int, d: int) -> int {
    if n >= 0 {
        n / d
    } else {
        -((-n) / d)
    }
}

/// Whether `a` and `b`, read as numerator and denominator, are the same number.
pub open spec fn same_value(a: (int, int), b: (int, int)) -> bool {
    a.0 * b.1 == b.0 * a.1
}

/// The product of `a` and `b`, as written by `Rational::checked_mul`.
pub open spec fn product(a: (int, int), b: (int, int)) -> (int, int) {
    (a.0 * b.0, a.1 * b.1)
}

/// The quotient of `a` by a nonzero `b`, as written by `Rational::checked_div`:
/// the sign of `b` moves to the numerator.
pub open spec fn quotient(a: (int, int), b: (int, int)) -> (int, int) {
    if b.0 > 0 {
        (a.0 * b.1, a.1 * b.0)
    } else {
        (-(a.0 * b.1), a.1 * (-b.0))
    }
}

/// The difference `a - b`, as written by `Rational::checked_sub`.
pub open spec fn difference(a: (int, int), b: (int, int)) -> (int, int) {
    (a.0 * b.1 - b.0 * a.1, a.1 * b.1)
}

proof fn lemma_split_compare(x: int, y: int, z: int, w: int)
    requires
        x >= 0,
        z >= 0,
        y > 0,
        w > 0,
    ensures
        (x * w == z * y) <==> (x / y == z / w && (x % y) * w == (z % w) * y),
{
    let q1 = x / y;
    let r1 = x % y;
    let q2 = z / w;
    let r2 = z % w;
    assert(x == q1 * y + r1 && 0 <= r1 < y) by (nonlinear_arith)
        requires
            y > 0,
            q1 == x / y,
            r1 == x % y,
    ;
    assert(z == q2 * w + r2 && 0 <= r2 < w) by (nonlinear_arith)
        requires
            w > 0,
            q2 == z / w,
            r2 == z % w,
    ;
    assert(x * w - z * y == (q1 - q2) * (y * w) + (r1 * w - r2 * y)) by (nonlinear_arith)
        requires
            x == q1 * y + r1,
            z == q2 * w + r2,
    ;
    assert(0 <= r1 * w < y * w && 0 <= r2 * y < y * w) by (nonlinear_arith)
        requires
            0 <= r1 < y,
            0 <= r2 < w,
            y > 0,
            w > 0,
    ;
    if q1 > q2 {
        assert((q1 - q2) * (y * w) >= y * w) by (nonlinear_arith)
            requires
                q1 - q2 >= 1,
                y * w > 0,
        ;
        assert(x * w != z * y);
    } else if q1 < q2 {
        assert((q2 - q1) * (y * w) >= y * w) by (nonlinear_arith)
            requires
                q2 - q1 >= 1,
                y * w > 0,
        ;
        assert((q1 - q2) * (y * w) == -((q2 - q1) * (y * w))) by (nonlinear_arith);
        assert(x * w != z * y);
    } else {
        assert((q1 - q2) * (y * w) == 0) by (nonlinear_arith)
            requires
                q1 == q2,
        ;
        assert((x * w == z * y) <==> (r1 * w == r2 * y));
    }
}

/// Whether `x / y == z / w` for nonnegative numerators, decided without
/// forming the cross products, which may not fit in 128 bits.
fn fractions_equal(x: u128, y: u128, z: u128, w: u128) -> (r: bool)
    requires
        y > 0,
        w > 0,
    ensures
        r == (x * w == z * y),
    decreases y,
{
    proof {
        lemma_split_compare(x as int, y as int, z as int, w as int);
    }
    let q1 = x / y;
    let r1 = x % y;
    let q2 = z / w;
    let r2 = z % w;
    if q1 != q2 {
        false
    } else if r1 == 0 || r2 == 0 {
        proof {
            assert((r1 * w == 0) == (r1 == 0)) by (nonlinear_arith)
                requires
                    w > 0,
                    r1 >= 0,
            ;
            assert((r2 * y == 0) == (r2 == 0)) by (nonlinear_arith)
                requires
                    y > 0,
                    r2 >= 0,
            ;
        }
        r1 == 0 && r2 == 0
    } else {
        let r = fractions_equal(y, r1, w, r2);
        proof {
            assert((y * r2 == w * r1) == (r1 * w == r2 * y)) by (nonlinear_arith);
        }
        r
    }
}

/// The magnitude of `n`.
fn magnitude(n: i128) -> (r: u128)
    ensures
        r == if n >= 0 { n as int } else { -n },
{
    if n >= 0 {
        n as u128
    } else {
        (-(n + 1)) as u128 + 1
    }
}

impl Rational {
    /// Zero, as `0 / 1`.
    pub fn zero() -> (r: Rational)
        ensures
            r@ == (0int, 1int),
    {
        Rational { num: 0, den: 1 }
    }

    /// The integer `n`, as `n / 1`.
    pub fn from_integer(n: i128) -> (r: Rational)
        ensures
            r@ == (n as int, 1int),
    {
        Rational { num: n, den: 1 }
    }

    /// `mantissa / 10^scale`.
    pub fn from_scaled(mantissa: i128, scale: u8) -> (r: Rational)
        requires
            scale <= MAX_DECIMALS,
        ensures
            r@ == (mantissa as int, pow10(scale as nat)),
    {
        let den = pow10_i128(scale);
        proof {
            lemma_pow10_positive(scale as nat);
        }
        Rational { num: mantissa, den }
    }

    /// `self * other`; fails with `Overflow` when the numerator or the
    /// denominator of the product does not fit.
    pub fn checked_mul(&self, other: &Rational) -> (r: Result<Rational, DecimalError>)
        ensures
            match r {
                Ok(x) => x@ == product(self@, other@),
                Err(e) => e == DecimalError::Overflow,
            },
            r is Ok <==> fits_i128(product(self@, other@).0) && fits_i128(product(self@, other@).1),
    {
        proof {
            use_type_invariant(self);
            use_type_invariant(other);
        }
        let num = match self.num.checked_mul(other.num) {
            Some(n) => n,
            None => return Err(DecimalError::Overflow),
        };
        let den = match self.den.checked_mul(other.den) {
            Some(d) => d,
            None => return Err(DecimalError::Overflow),
        };
        proof {
            assert(self.den * other.den > 0) by (nonlinear_arith)
                requires
                    self.den > 0,
                    other.den > 0,
            ;
        }
        Ok(Rational { num, den })
    }

    /// `self / other`; fails with `DivideByZeroOrOverflow` when `other` is zero
    /// and with `Overflow` when a product, or the numerator or denominator of
    /// the quotient, does not fit.
    pub fn checked_div(&self, other: &Rational) -> (r: Result<Rational, DecimalError>)
        ensures
            match r {
                Ok(x) => other@.0 != 0 && x@ == quotient(self@, other@),
                Err(e) => if other@.0 == 0 {
                    e == DecimalError::DivideByZeroOrOverflow
                } else {
                    e == DecimalError::Overflow
                },
            },
            r is Ok <==> other@.0 != 0 && fits_i128(self@.0 * other@.1) && fits_i128(
                quotient(self@, other@).0,
            ) && fits_i128(quotient(self@, other@).1),
    {
        proof {
            use_type_invariant(self);
            use_type_invariant(other);
        }
        if other.num == 0 {
            return Err(DecimalError::DivideByZeroOrOverflow);
        }
        let cross = match self.num.checked_mul(other.den) {
            Some(n) => n,
            None => return Err(DecimalError::Overflow),
        };
        let (num, divisor) = if other.num > 0 {
            (cross, other.num)
        } else {
            let neg_cross = match 0i128.checked_sub(cross) {
                Some(n) => n,
                None => return Err(DecimalError::Overflow),
            };
            let neg_divisor = match 0i128.checked_sub(other.num) {
                Some(d) => d,
                None => {
                    proof {
                        assert(self.den * (-other.num) > i128::MAX) by (nonlinear_arith)
                            requires
                                self.den >= 1,
                                -other.num > i128::MAX,
                        ;
                    }
                    return Err(DecimalError::Overflow);
                },
            };
            (neg_cross, neg_divisor)
        };
        let den = match self.den.checked_mul(divisor) {
            Some(d) => d,
            None => return Err(DecimalError::Overflow),
        };
        proof {
            assert(self.den * divisor > 0) by (nonlinear_arith)
                requires
                    self.den > 0,
                    divisor > 0,
            ;
        }
        Ok(Rational { num, den })
    }

    /// `self - other`; fails with `Overflow` when a cross product, their
    /// difference, or the denominator does not fit.
    pub fn checked_sub(&self, other: &Rational) -> (r: Result<Rational, DecimalError>)
        ensures
            match r {
                Ok(x) => x@ == difference(self@, other@),
                Err(e) => e == DecimalError::Overflow,
            },
            r is Ok <==> fits_i128(self@.0 * other@.1) && fits_i128(other@.0 * self@.1)
                && fits_i128(difference(self@, other@).0) && fits_i128(
                difference(self@, other@).1,
            ),
    {
        proof {
            use_type_invariant(self);
            use_type_invariant(other);
        }
        let left = match self.num.checked_mul(other.den) {
            Some(n) => n,
            None => return Err(DecimalError::Overflow),
        };
        let right = match other.num.checked_mul(self.den) {
            Some(n) => n,
            None => return Err(DecimalError::Overflow),
        };
        let num = match left.checked_sub(right) {
            Some(n) => n,
            None => return Err(DecimalError::Overflow),
        };
        let den = match self.den.checked_mul(other.den) {
            Some(d) => d,
            None => return Err(DecimalError::Overflow),
        };
        proof {
            assert(self.den * other.den > 0) by (nonlinear_arith)
                requires
                    self.den > 0,
                    other.den > 0,
            ;
        }
        Ok(Rational { num, den })
    }

    /// The larger of `self` and zero: `self` when it is not negative, else `0 / 1`.
    pub fn non_negative(&self) -> (r: Rational)
        ensures
            r@ == if self@.0 >= 0 { self@ } else { (0int, 1int) },
    {
        if self.num >= 0 {
            *self
        } else {
            Rational::zero()
        }
    }

    /// The value truncated toward zero, when that integer fits in a `u64`.
    pub fn to_u64(&self) -> (r: Option<u64>)
        ensures
            match r {
                Some(v) => v == trunc_div(self@.0, self@.1),
                None => !(0 <= trunc_div(self@.0, self@.1) <= u64::MAX),
            },
    {
        proof {
            use_type_invariant(self);
        }
        let m = magnitude(self.num);
        let d = self.den as u128;
        let q = m / d;
        if self.num < 0 {
            if q == 0 {
                Some(0)
            } else {
                None
            }
        } else if q <= u64::MAX as u128 {
            Some(q as u64)
        } else {
            None
        }
    }

    /// The value times `10^decimals`, truncated toward zero, as a `u64`;
    /// fails with `ConversionError` when the scale or the scaled numerator
    /// does not fit, or the truncated value is not a `u64`.
    pub fn to_scaled_integer(&self, decimals: u8) -> (r: Result<u64, DecimalError>)
        ensures
            match r {
                Ok(v) => v == trunc_div(self@.0 * pow10(decimals as nat), self@.1),
                Err(e) => e == DecimalError::ConversionError,
            },
            r is Ok <==> decimals <= MAX_DECIMALS && fits_i128(self@.0 * pow10(decimals as nat))
                && 0 <= trunc_div(self@.0 * pow10(decimals as nat), self@.1) <= u64::MAX,
    {
        proof {
            use_type_invariant(self);
        }
        if decimals > MAX_DECIMALS {
            return Err(DecimalError::ConversionError);
        }
        let scale = Rational::from_integer(pow10_i128(decimals));
        match self.checked_mul(&scale) {
            Err(_) => Err(DecimalError::ConversionError),
            Ok(scaled) => match scaled.to_u64() {
                Some(v) => Ok(v),
                None => Err(DecimalError::ConversionError),
            },
        }
    }
}

impl PartialEq for Rational {
    /// Equality of values: `1 / 2 == 2 / 4`.
    fn eq(&self, other: &Rational) -> (r: bool) {
        proof {
            use_type_invariant(self);
            use_type_invariant(other);
        }
        if (self.num < 0) != (other.num < 0) {
            proof {
                assert(self.num * other.den != other.num * self.den) by (nonlinear_arith)
                    requires
                        (self.num < 0) != (other.num < 0),
                        self.den > 0,
                        other.den > 0,
                ;
            }
            false
        } else {
            let r = fractions_equal(
                magnitude(self.num),
                self.den as u128,
                magnitude(other.num),
                other.den as u128,
            );
            proof {
                if self.num < 0 {
                    assert((-self.num) * other.den == (-other.num) * self.den <==> self.num
                        * other.den == other.num * self.den) by (nonlinear_arith);
                }
            }
            r
        }
    }
}

impl vstd::std_specs::cmp::PartialEqSpecImpl for Rational {
    open spec fn obeys_eq_spec() -> bool {
        true
    }

    open spec fn eq_spec(&self, other: &Rational) -> bool {
        same_value(self@, other@)
    }
}

/// Reads the fixed-point integer `value` with `decimals` decimal places as
/// the exact rational `value / 10^decimals`.
pub fn to_decimal(value: u64, decimals: u8) -> (r: Result<Rational, DecimalError>)
    ensures
        match r {
            Ok(x) => decimals <= MAX_DECIMALS && x@ == (value as int, pow10(decimals as nat)),
            Err(e) => decimals > MAX_DECIMALS && e == DecimalError::DivideByZeroOrOverflow,
        },
{
    if decimals > MAX_DECIMALS {
        return Err(DecimalError::DivideByZeroOrOverflow);
    }
    Ok(Rational::from_scaled(value as i128, decimals))
}

} // verus!
