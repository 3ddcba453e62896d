//! Fixed-point decimal numbers with fifteen fractional digits.
//!
//! A `Number` is an unsigned 192-bit integer, its raw value, that stands
//! for the raw value divided by ten to the fifteenth. The arithmetic is
//! done by `jet_proto_math`; what each operation returns is stated here
//! over the raw values, and believed, not proved. A number goes to
//! `jet_proto_math::Number` and comes back by `bytemuck::cast` of its
//! three limbs: that type is a transparent wrapper of three 64-bit
//! words, the least significant first.

use vstd::prelude::*;

verus! {

/// The raw value of one, as a machine integer.
pub const ONE_RAW: u64 = 1_000_000_000_000_000;

/// The number of fractional decimal digits.
pub const PRECISION: i32 = 15;

/// The largest power of ten that the conversions can scale by.
pub const MAX_SCALE: u32 = 16;

/// The raw value that stands for one.
pub open spec fn one() -> nat {
    1_000_000_000_000_000
}

/// The largest raw value: two to the 192nd, less one.
pub open spec fn max_raw() -> nat {
    0xffff_ffff_ffff_ffff_ffff_ffff_ffff_ffff_ffff_ffff_ffff_ffffnat
}

/// Ten to the `n`.
pub open spec fn pow10(n: nat) -> nat
    decreases n,
{
    if n == 0 {
        1
    } else {
        10 * pow10((n - 1) as nat)
    }
}

/// Whether the conversions accept `exponent`: fifteen plus the exponent
/// lies within sixteen of zero.
pub open spec fn exponent_ok(exponent: int) -> bool {
    -31 <= exponent <= 1
}

/// The power of ten by which a conversion at `exponent` scales.
pub open spec fn scale_of(exponent: int) -> nat {
    let extra = 15 + exponent;
    if extra < 0 {
        pow10((-extra) as nat)
    } else {
        pow10(extra as nat)
    }
}

/// The raw value of the integer `value` taken at `exponent`, that is of
/// `value` times ten to the `exponent`, rounded down.
pub open spec fn raw_of_decimal(value: nat, exponent: int) -> nat {
    if 15 + exponent < 0 {
        value / scale_of(exponent)
    } else {
        value * scale_of(exponent)
    }
}

/// The integer that a raw value gives at `exponent`, rounded down.
pub open spec fn integer_at(raw: nat, exponent: int) -> nat {
    if 15 + exponent < 0 {
        raw * scale_of(exponent)
    } else {
        raw / scale_of(exponent)
    }
}

/// The integer that a raw value gives at `exponent`, rounded up.
pub open spec fn integer_ceil_at(raw: nat, exponent: int) -> nat {
    integer_at((raw + scale_of(exponent) - 1) as nat, exponent)
}

/// Whether rounding a raw value up at `exponent` gives an integer of 64
/// bits without leaving 192 bits on the way.
pub open spec fn ceil_defined(raw: nat, exponent: int) -> bool {
    &&& exponent_ok(exponent)
    &&& raw + scale_of(exponent) - 1 <= max_raw()
    &&& integer_ceil_at(raw, exponent) <= u64::MAX
}

/// The integer whose 64-bit limbs are `limbs`, the least significant
/// first.
pub open spec fn limbs_value(limbs: Seq<u64>) -> nat {
    (limbs[0] as nat) + (limbs[1] as nat) * 0x1_0000_0000_0000_0000nat + (limbs[2] as nat)
        * 0x1_0000_0000_0000_0000_0000_0000_0000_0000nat
}

/// The raw value of the first `terms` terms of the series of the
/// exponential of `x` less one, as `jet_proto_math::expm1_approx`
/// computes it.
pub uninterp spec fn expm1_raw(x: nat, terms: nat) -> nat;

/// An unsigned fixed-point number held as three 64-bit limbs. Its view
/// is the raw integer.
#[derive(Clone, Copy, Debug, PartialEq, Eq, Structural)]
pub struct Number {
    lo: u64,
    mid: u64,
    hi: u64,
}

impl View for Number {
    type V = nat;

    closed spec fn view(&self) -> nat {
        (self.lo as nat) + (self.mid as nat) * 0x1_0000_0000_0000_0000nat + (self.hi as nat)
            * 0x1_0000_0000_0000_0000_0000_0000_0000_0000nat
    }
}

/// `Add<Number>` of `jet_proto_math::Number`: the sum of the raw values,
/// which must fit in 192 bits.
#[verifier::external_body]
fn raw_add(a: Number, b: Number) -> (r: Number)
    requires
        a@ + b@ <= max_raw(),
    ensures
        r@ == a@ + b@,
{
    let x: jet_proto_math::Number = bytemuck::cast([a.lo, a.mid, a.hi]);
    let y: jet_proto_math::Number = bytemuck::cast([b.lo, b.mid, b.hi]);
    let z: [u64; 3] = bytemuck::cast(x + y);
    Number { lo: z[0], mid: z[1], hi: z[2] }
}

/// `Sub<Number>` of `jet_proto_math::Number`: the difference of the raw
/// values, which must not be negative.
#[verifier::external_body]
fn raw_sub(a: Number, b: Number) -> (r: Number)
    requires
        b@ <= a@,
    ensures
        r@ == a@ - b@,
{
    let x: jet_proto_math::Number = bytemuck::cast([a.lo, a.mid, a.hi]);
    let y: jet_proto_math::Number = bytemuck::cast([b.lo, b.mid, b.hi]);
    let z: [u64; 3] = bytemuck::cast(x - y);
    Number { lo: z[0], mid: z[1], hi: z[2] }
}

/// `Mul<Number>` of `jet_proto_math::Number`: the raw values are
/// multiplied in 192 bits, which must not overflow, and the product is
/// divided by the raw value of one, rounding down.
#[verifier::external_body]
fn raw_mul(a: Number, b: Number) -> (r: Number)
    requires
        a@ * b@ <= max_raw(),
    ensures
        r@ == a@ * b@ / one(),
{
    let x: jet_proto_math::Number = bytemuck::cast([a.lo, a.mid, a.hi]);
    let y: jet_proto_math::Number = bytemuck::cast([b.lo, b.mid, b.hi]);
    let z: [u64; 3] = bytemuck::cast(x * y);
    Number { lo: z[0], mid: z[1], hi: z[2] }
}

/// `Div<Number>` of `jet_proto_math::Number`: the dividend's raw value
/// is multiplied by the raw value of one in 192 bits, which must not
/// overflow, and divided by the divisor's raw value, which must not be
/// zero, rounding down.
#[verifier::external_body]
fn raw_div(a: Number, b: Number) -> (r: Number)
    requires
        b@ > 0,
        a@ * one() <= max_raw(),
    ensures
        r@ == a@ * one() / b@,
{
    let x: jet_proto_math::Number = bytemuck::cast([a.lo, a.mid, a.hi]);
    let y: jet_proto_math::Number = bytemuck::cast([b.lo, b.mid, b.hi]);
    let z: [u64; 3] = bytemuck::cast(x / y);
    Number { lo: z[0], mid: z[1], hi: z[2] }
}

/// `Mul<T>` of `jet_proto_math::Number` with a 192-bit integer: the
/// product of the raw value and the integer, which must fit in 192 bits.
#[verifier::external_body]
fn raw_mul_int(a: Number, n: Number) -> (r: Number)
    requires
        a@ * n@ <= max_raw(),
    ensures
        r@ == a@ * n@,
{
    let x: jet_proto_math::Number = bytemuck::cast([a.lo, a.mid, a.hi]);
    let z: [u64; 3] = bytemuck::cast(x * jet_proto_math::U192([n.lo, n.mid, n.hi]));
    Number { lo: z[0], mid: z[1], hi: z[2] }
}

/// `Div<T>` of `jet_proto_math::Number` with a 192-bit integer: the raw
/// value divided by the integer, which must not be zero, rounding down.
#[verifier::external_body]
fn raw_div_int(a: Number, n: Number) -> (r: Number)
    requires
        n@ > 0,
    ensures
        r@ == a@ / n@,
{
    let x: jet_proto_math::Number = bytemuck::cast([a.lo, a.mid, a.hi]);
    let z: [u64; 3] = bytemuck::cast(x / jet_proto_math::U192([n.lo, n.mid, n.hi]));
    Number { lo: z[0], mid: z[1], hi: z[2] }
}

/// `jet_proto_math::Number::saturating_add`: the sum of the raw values,
/// or the largest raw value where the sum does not fit.
#[verifier::external_body]
fn raw_saturating_add(a: Number, b: Number) -> (r: Number)
    ensures
        r@ == if a@ + b@ <= max_raw() {
            a@ + b@
        } else {
            max_raw()
        },
{
    let x: jet_proto_math::Number = bytemuck::cast([a.lo, a.mid, a.hi]);
    let y: jet_proto_math::Number = bytemuck::cast([b.lo, b.mid, b.hi]);
    let z: [u64; 3] = bytemuck::cast(x.saturating_add(y));
    Number { lo: z[0], mid: z[1], hi: z[2] }
}

/// `jet_proto_math::Number::saturating_sub`: the difference of the raw
/// values, or zero where it would be negative.
#[verifier::external_body]
fn raw_saturating_sub(a: Number, b: Number) -> (r: Number)
    ensures
        r@ == if b@ <= a@ {
            a@ - b@
        } else {
            0
        },
{
    let x: jet_proto_math::Number = bytemuck::cast([a.lo, a.mid, a.hi]);
    let y: jet_proto_math::Number = bytemuck::cast([b.lo, b.mid, b.hi]);
    let z: [u64; 3] = bytemuck::cast(x.saturating_sub(y));
    Number { lo: z[0], mid: z[1], hi: z[2] }
}

/// `From<u64>` of `jet_proto_math::Number`: the integer times the raw
/// value of one.
#[verifier::external_body]
fn raw_from_u64(n: u64) -> (r: Number)
    ensures
        r@ == n * one(),
{
    let z: [u64; 3] = bytemuck::cast(jet_proto_math::Number::from(n));
    Number { lo: z[0], mid: z[1], hi: z[2] }
}

/// `jet_proto_math::Number::from_decimal`: the integer is multiplied by
/// ten to the fifteen plus `exponent`, or, where that is negative,
/// divided by ten to its opposite. The function has powers of ten up to
/// the sixteenth.
#[verifier::external_body]
fn raw_from_decimal(value: u128, exponent: i32) -> (r: Number)
    requires
        exponent_ok(exponent as int),
    ensures
        r@ == raw_of_decimal(value as nat, exponent as int),
{
    let z: [u64; 3] = bytemuck::cast(jet_proto_math::Number::from_decimal(value, exponent));
    Number { lo: z[0], mid: z[1], hi: z[2] }
}

/// `jet_proto_math::Number::from_bps`: the raw value of that many
/// hundredths of a percent.
#[verifier::external_body]
fn raw_from_bps(basis_points: u16) -> (r: Number)
    ensures
        r@ == basis_points * pow10(11),
{
    let z: [u64; 3] = bytemuck::cast(jet_proto_math::Number::from_bps(basis_points));
    Number { lo: z[0], mid: z[1], hi: z[2] }
}

/// `jet_proto_math::Number::as_u64`: the raw value is divided by ten to
/// the fifteen plus `exponent`, or, where that is negative, multiplied
/// by ten to its opposite in 192 bits. The function stops the program
/// where the result does not fit in 64 bits.
#[verifier::external_body]
fn raw_as_u64(a: Number, exponent: i32) -> (r: u64)
    requires
        exponent_ok(exponent as int),
        integer_at(a@, exponent as int) <= u64::MAX,
    ensures
        r == integer_at(a@, exponent as int),
{
    let x: jet_proto_math::Number = bytemuck::cast([a.lo, a.mid, a.hi]);
    x.as_u64(exponent)
}

/// `jet_proto_math::Number::as_u64_ceil`: as `as_u64`, after the scale
/// less one was added to the raw value in 192 bits, which must not
/// overflow.
#[verifier::external_body]
fn raw_as_u64_ceil(a: Number, exponent: i32) -> (r: u64)
    requires
        exponent_ok(exponent as int),
        a@ + scale_of(exponent as int) - 1 <= max_raw(),
        integer_ceil_at(a@, exponent as int) <= u64::MAX,
    ensures
        r == integer_ceil_at(a@, exponent as int),
{
    let x: jet_proto_math::Number = bytemuck::cast([a.lo, a.mid, a.hi]);
    x.as_u64_ceil(exponent)
}

/// `jet_proto_math::expm1_approx`. With an argument of at most one no
/// power of it exceeds one, and the factorials up to that of twenty fit
/// in 64 bits, so nothing in it overflows.
#[verifier::external_body]
fn raw_expm1_approx(x: Number, terms: usize) -> (r: Number)
    requires
        x@ <= one(),
        terms <= 20,
    ensures
        r@ == expm1_raw(x@, terms as nat),
{
    let v: jet_proto_math::Number = bytemuck::cast([x.lo, x.mid, x.hi]);
    let z: [u64; 3] = bytemuck::cast(jet_proto_math::expm1_approx(v, terms));
    Number { lo: z[0], mid: z[1], hi: z[2] }
}

/// Ten to the `k`, for the powers that fit the conversions.
pub fn ten_pow(k: u32) -> (r: u64)
    requires
        k <= MAX_SCALE,
    ensures
        r == pow10(k as nat),
        1 <= r <= 10_000_000_000_000_000,
{
    let mut r: u64 = 1;
    let mut i: u32 = 0;
    proof {
        lemma_pow10_values();
    }
    while i < k
        invariant
            i <= k <= MAX_SCALE,
            r == pow10(i as nat),
            1 <= r,
            r * pow10((16 - i) as nat) == 10_000_000_000_000_000,
        decreases k - i,
    {
        proof {
            reveal_with_fuel(pow10, 2);
            assert(pow10((16 - i) as nat) == 10 * pow10((16 - i - 1) as nat));
            assert(r * (10 * pow10((16 - i - 1) as nat)) == (r * 10) * pow10((16 - i - 1) as nat))
                by (nonlinear_arith);
            lemma_pow10_positive((16 - i - 1) as nat);
            assert(r * 10 <= (r * 10) * pow10((16 - i - 1) as nat)) by (nonlinear_arith)
                requires
                    pow10((16 - i - 1) as nat) >= 1,
            ;
        }
        r = r * 10;
        i = i + 1;
    }
    proof {
        lemma_pow10_positive((16 - k) as nat);
        assert(r <= r * pow10((16 - k) as nat)) by (nonlinear_arith)
            requires
                pow10((16 - k) as nat) >= 1,
        ;
    }
    r
}

/// Every power of ten is at least one.
pub proof fn lemma_pow10_positive(n: nat)
    ensures
        pow10(n) >= 1,
    decreases n,
{
    if n > 0 {
        lemma_pow10_positive((n - 1) as nat);
    }
}

/// The powers of ten that the library's rules name.
pub proof fn lemma_pow10_values()
    ensures
        pow10(0) == 1,
        pow10(4) == 10_000,
        pow10(11) == 100_000_000_000,
        pow10(15) == one(),
        pow10(16) == 10 * one(),
{
    reveal_with_fuel(pow10, 17);
}

/// For a positive divisor, a product stays within a bound exactly when
/// the one factor stays within the bound divided by the other.
pub proof fn lemma_product_within(a: nat, b: nat, bound: nat)
    requires
        b > 0,
    ensures
        a * b <= bound <==> a <= bound / b,
{
    let q = bound / b;
    assert(q * b <= bound < (q + 1) * b) by (nonlinear_arith)
        requires
            b > 0,
            q == bound / b,
    ;
    if a <= q {
        assert(a * b <= q * b) by (nonlinear_arith)
            requires
                a <= q,
        ;
    } else {
        assert(a * b >= (q + 1) * b) by (nonlinear_arith)
            requires
                a >= q + 1,
        ;
    }
}

impl Number {
    /// The number of the raw value `raw`, for raw values of at most 192
    /// bits.
    pub closed spec fn from_raw(raw: nat) -> Number {
        Number {
            lo: (raw % 0x1_0000_0000_0000_0000nat) as u64,
            mid: ((raw / 0x1_0000_0000_0000_0000nat) % 0x1_0000_0000_0000_0000nat) as u64,
            hi: (raw / 0x1_0000_0000_0000_0000_0000_0000_0000_0000nat) as u64,
        }
    }

    /// `from_raw` gives the number of the raw value, and this is the
    /// only number of that raw value.
    pub proof fn lemma_from_raw(raw: nat)
        requires
            raw <= max_raw(),
        ensures
            Number::from_raw(raw)@ == raw,
            forall|n: Number| n@ == raw ==> n == Number::from_raw(raw),
    {
        let b = 0x1_0000_0000_0000_0000nat;
        let q1 = raw / b;
        let q2 = raw / 0x1_0000_0000_0000_0000_0000_0000_0000_0000nat;
        assert(q2 == q1 / b);
        assert(q2 < b);
        let r = Number::from_raw(raw);
        assert(r.lo == raw % b);
        assert(r.mid == q1 % b);
        assert(r.hi == q2);
        assert(r@ == raw);
        assert forall|n: Number| n@ == raw implies n == r by {
            n.lemma_view_injective(r);
        }
    }

    /// Every number's raw value fits in 192 bits.
    pub proof fn lemma_bounded(self)
        ensures
            self@ <= max_raw(),
    {
    }

    /// Two numbers with the same raw value are the same number.
    pub proof fn lemma_view_injective(self, other: Number)
        ensures
            self@ == other@ <==> self == other,
    {
    }

    /// The number whose raw value has the three 64-bit limbs, the least
    /// significant first.
    pub fn from_limbs(limbs: [u64; 3]) -> (r: Number)
        ensures
            r@ == limbs_value(limbs@),
    {
        Number { lo: limbs[0], mid: limbs[1], hi: limbs[2] }
    }

    /// The three 64-bit limbs of the raw value, the least significant
    /// first.
    pub fn to_limbs(&self) -> (r: [u64; 3])
        ensures
            limbs_value(r@) == self@,
    {
        [self.lo, self.mid, self.hi]
    }

    /// The number of raw value `raw`.
    pub fn from_raw_u64(raw: u64) -> (r: Number)
        ensures
            r@ == raw,
    {
        Number { lo: raw, mid: 0, hi: 0 }
    }

    /// Zero.
    pub fn zero() -> (r: Number)
        ensures
            r@ == 0,
    {
        Number { lo: 0, mid: 0, hi: 0 }
    }

    /// One.
    pub fn one() -> (r: Number)
        ensures
            r@ == one(),
    {
        Number { lo: ONE_RAW, mid: 0, hi: 0 }
    }

    /// The largest number.
    pub fn max_value() -> (r: Number)
        ensures
            r@ == max_raw(),
    {
        Number { lo: u64::MAX, mid: u64::MAX, hi: u64::MAX }
    }

    /// The number that stands for the integer `n`.
    pub fn from_u64(n: u64) -> (r: Number)
        ensures
            r@ == n * one(),
    {
        raw_from_u64(n)
    }

    /// The number that stands for `value` times ten to the `exponent`,
    /// rounded down to fifteen fractional digits.
    pub fn from_decimal(value: u128, exponent: i32) -> (r: Number)
        requires
            exponent_ok(exponent as int),
        ensures
            r@ == raw_of_decimal(value as nat, exponent as int),
    {
        raw_from_decimal(value, exponent)
    }

    /// The number that stands for `basis_points` hundredths of a percent.
    pub fn from_bps(basis_points: u16) -> (r: Number)
        ensures
            r@ == basis_points * pow10(11),
            r@ == basis_points * 100_000_000_000,
    {
        proof {
            lemma_pow10_values();
        }
        raw_from_bps(basis_points)
    }

    /// Whether the number is zero.
    pub fn is_zero(&self) -> (r: bool)
        ensures
            r == (self@ == 0),
    {
        self.lo == 0 && self.mid == 0 && self.hi == 0
    }

    /// Whether the two numbers are the same.
    pub fn eq(&self, other: &Number) -> (r: bool)
        ensures
            r == (self@ == other@),
    {
        self.lo == other.lo && self.mid == other.mid && self.hi == other.hi
    }

    /// Whether the number is less than `other`.
    pub fn lt(&self, other: &Number) -> (r: bool)
        ensures
            r == (self@ < other@),
    {
        if self.hi != other.hi {
            self.hi < other.hi
        } else if self.mid != other.mid {
            self.mid < other.mid
        } else {
            self.lo < other.lo
        }
    }

    /// Whether the number is at most `other`.
    pub fn le(&self, other: &Number) -> (r: bool)
        ensures
            r == (self@ <= other@),
    {
        !other.lt(self)
    }

    /// The larger of two numbers.
    pub fn max(self, other: Number) -> (r: Number)
        ensures
            r@ == if self@ >= other@ {
                self@
            } else {
                other@
            },
            r == self || r == other,
    {
        if self.lt(&other) {
            other
        } else {
            self
        }
    }

    /// Whether the raw value fits in 64 bits.
    pub fn fits_u64(&self) -> (r: bool)
        ensures
            r == (self@ <= u64::MAX),
    {
        self.mid == 0 && self.hi == 0
    }

    /// The raw value, where it fits in 64 bits.
    pub fn raw_u64(&self) -> (r: u64)
        requires
            self@ <= u64::MAX,
        ensures
            r == self@,
    {
        self.lo
    }

    /// The sum, which must fit.
    pub fn add(self, rhs: Number) -> (r: Number)
        requires
            self@ + rhs@ <= max_raw(),
        ensures
            r@ == self@ + rhs@,
    {
        raw_add(self, rhs)
    }

    /// The difference, which must not be negative.
    pub fn sub(self, rhs: Number) -> (r: Number)
        requires
            rhs@ <= self@,
        ensures
            r@ == self@ - rhs@,
    {
        raw_sub(self, rhs)
    }

    /// The product, rounded down to fifteen fractional digits.
    pub fn mul(self, rhs: Number) -> (r: Number)
        requires
            self@ * rhs@ <= max_raw(),
        ensures
            r@ == self@ * rhs@ / one(),
    {
        raw_mul(self, rhs)
    }

    /// The quotient, rounded down to fifteen fractional digits.
    pub fn div(self, rhs: Number) -> (r: Number)
        requires
            rhs@ > 0,
            self@ * one() <= max_raw(),
        ensures
            r@ == self@ * one() / rhs@,
    {
        raw_div(self, rhs)
    }

    /// The number times the integer `n`.
    pub fn mul_int(self, n: u64) -> (r: Number)
        requires
            self@ * n <= max_raw(),
        ensures
            r@ == self@ * n,
    {
        raw_mul_int(self, Number::from_raw_u64(n))
    }

    /// The number divided by the integer `n`, rounded down.
    pub fn div_int(self, n: u64) -> (r: Number)
        requires
            n > 0,
        ensures
            r@ == self@ / (n as nat),
    {
        raw_div_int(self, Number::from_raw_u64(n))
    }

    /// The sum, or the largest number where it does not fit.
    pub fn saturating_add(self, rhs: Number) -> (r: Number)
        ensures
            r@ == if self@ + rhs@ <= max_raw() {
                self@ + rhs@
            } else {
                max_raw()
            },
    {
        raw_saturating_add(self, rhs)
    }

    /// The difference, or zero where it would be negative.
    pub fn saturating_sub(self, rhs: Number) -> (r: Number)
        ensures
            r@ == if rhs@ <= self@ {
                self@ - rhs@
            } else {
                0
            },
    {
        raw_saturating_sub(self, rhs)
    }

    /// The sum, or `None` where it does not fit.
    pub fn checked_add(self, rhs: Number) -> (r: Option<Number>)
        ensures
            self@ + rhs@ <= max_raw() ==> r is Some && r->0@ == self@ + rhs@,
            self@ + rhs@ > max_raw() ==> r is None,
    {
        let room = raw_saturating_sub(Number::max_value(), rhs);
        if self.le(&room) {
            Some(raw_add(self, rhs))
        } else {
            None
        }
    }

    /// The difference, or `None` where it would be negative.
    pub fn checked_sub(self, rhs: Number) -> (r: Option<Number>)
        ensures
            rhs@ <= self@ ==> r is Some && r->0@ == self@ - rhs@,
            rhs@ > self@ ==> r is None,
    {
        if rhs.le(&self) {
            Some(raw_sub(self, rhs))
        } else {
            None
        }
    }

    /// Whether the product of the two raw values fits in 192 bits.
    pub fn product_fits(self, rhs: Number) -> (r: bool)
        ensures
            r == (self@ * rhs@ <= max_raw()),
    {
        if rhs.is_zero() {
            assert(self@ * rhs@ == 0) by (nonlinear_arith)
                requires
                    rhs@ == 0,
            ;
            true
        } else {
            let room = raw_div_int(Number::max_value(), rhs);
            proof {
                lemma_product_within(self@, rhs@, max_raw());
            }
            self.le(&room)
        }
    }

    /// The product, or `None` where the raw product does not fit.
    pub fn checked_mul(self, rhs: Number) -> (r: Option<Number>)
        ensures
            self@ * rhs@ <= max_raw() ==> r is Some && r->0@ == self@ * rhs@ / one(),
            self@ * rhs@ > max_raw() ==> r is None,
    {
        if self.product_fits(rhs) {
            Some(raw_mul(self, rhs))
        } else {
            None
        }
    }

    /// The quotient, or `None` where the divisor is zero or the scaled
    /// dividend does not fit.
    pub fn checked_div(self, rhs: Number) -> (r: Option<Number>)
        ensures
            rhs@ > 0 && self@ * one() <= max_raw() ==> r is Some && r->0@ == self@ * one()
                / rhs@,
            rhs@ == 0 || self@ * one() > max_raw() ==> r is None,
    {
        if rhs.is_zero() {
            None
        } else if self.product_fits(Number::one()) {
            Some(raw_div(self, rhs))
        } else {
            None
        }
    }

    /// The number times the integer `n`, or `None` where it does not fit.
    pub fn checked_mul_int(self, n: u64) -> (r: Option<Number>)
        ensures
            self@ * n <= max_raw() ==> r is Some && r->0@ == self@ * n,
            self@ * n > max_raw() ==> r is None,
    {
        let m = Number::from_raw_u64(n);
        if self.product_fits(m) {
            Some(raw_mul_int(self, m))
        } else {
            None
        }
    }

    /// The integer that the number gives at `exponent`, rounded down.
    pub fn as_u64(&self, exponent: i32) -> (r: u64)
        requires
            exponent_ok(exponent as int),
            integer_at(self@, exponent as int) <= u64::MAX,
        ensures
            r == integer_at(self@, exponent as int),
    {
        raw_as_u64(*self, exponent)
    }

    /// The integer that the number gives at `exponent`, rounded up.
    pub fn as_u64_ceil(&self, exponent: i32) -> (r: u64)
        requires
            exponent_ok(exponent as int),
            self@ + scale_of(exponent as int) - 1 <= max_raw(),
            integer_ceil_at(self@, exponent as int) <= u64::MAX,
        ensures
            r == integer_ceil_at(self@, exponent as int),
    {
        raw_as_u64_ceil(*self, exponent)
    }

    /// Whether the number gives an integer of 64 bits at `exponent`.
    fn integer_fits(&self, exponent: i32) -> (r: bool)
        requires
            exponent_ok(exponent as int),
        ensures
            r == (integer_at(self@, exponent as int) <= u64::MAX),
    {
        let extra: i32 = PRECISION + exponent;
        if extra < 0 {
            let scale = Number::from_raw_u64(ten_pow((-extra) as u32));
            if self.product_fits(scale) {
                raw_mul_int(*self, scale).fits_u64()
            } else {
                false
            }
        } else {
            raw_div_int(*self, Number::from_raw_u64(ten_pow(extra as u32))).fits_u64()
        }
    }

    /// As `as_u64`, or `None` where the exponent is not one that the
    /// conversions accept or the integer does not fit in 64 bits.
    pub fn checked_as_u64(&self, exponent: i32) -> (r: Option<u64>)
        ensures
            exponent_ok(exponent as int) && integer_at(self@, exponent as int) <= u64::MAX ==> r
                == Some(integer_at(self@, exponent as int) as u64),
            !(exponent_ok(exponent as int) && integer_at(self@, exponent as int) <= u64::MAX)
                ==> r is None,
    {
        if exponent < -31 || exponent > 1 {
            return None;
        }
        if self.integer_fits(exponent) {
            Some(raw_as_u64(*self, exponent))
        } else {
            None
        }
    }

    /// As `as_u64_ceil`, or `None` where the exponent is not one that
    /// the conversions accept, the rounding overflows 192 bits or the
    /// integer does not fit in 64 bits.
    pub fn checked_as_u64_ceil(&self, exponent: i32) -> (r: Option<u64>)
        ensures
            ceil_defined(self@, exponent as int) ==> r == Some(
                integer_ceil_at(self@, exponent as int) as u64,
            ),
            !ceil_defined(self@, exponent as int) ==> r is None,
    {
        if exponent < -31 || exponent > 1 {
            return None;
        }
        let extra: i32 = PRECISION + exponent;
        let k: u32 = if extra < 0 {
            (-extra) as u32
        } else {
            extra as u32
        };
        let scale = ten_pow(k);
        match self.checked_add(Number::from_raw_u64(scale - 1)) {
            None => None,
            Some(rounded) => {
                if rounded.integer_fits(exponent) {
                    Some(raw_as_u64_ceil(*self, exponent))
                } else {
                    None
                }
            },
        }
    }

    /// The first `terms` terms of the series of the exponential of the
    /// number, less one.
    pub fn expm1_approx(self, terms: usize) -> (r: Number)
        requires
            self@ <= one(),
            terms <= 20,
        ensures
            r@ == expm1_raw(self@, terms as nat),
    {
        raw_expm1_approx(self, terms)
    }
}

} // verus!
