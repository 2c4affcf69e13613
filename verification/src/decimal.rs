use vstd::prelude::*;

use crate::text::decimal_text;

verus! {

/// The largest magnitude of a decimal mantissa: 2^96 - 1.
pub const MAX_MANTISSA: i128 = 79228162514264337593543950335i128;

/// The largest number of decimal digits after the point.
pub const MAX_SCALE: u32 = 28u32;

/// 10 to the power `n`.
pub open spec fn pow10(n: nat) -> nat
    decreases n,
{
    if n == 0 {
        1
    } else {
        10 * pow10((n - 1) as nat)
    }
}

pub proof fn lemma_pow10_positive(n: nat)
    ensures
        pow10(n) >= 1,
    decreases n,
{
    if n > 0 {
        lemma_pow10_positive((n - 1) as nat);
    }
}

/// Two fractions of the same value have the same floor and the same ceiling.
pub proof fn lemma_same_floor(dn: int, dd: int, n: int, den: int)
    requires
        dd > 0,
        den > 0,
        dn * den == n * dd,
    ensures
        dn / dd == n / den,
        (-dn) / dd == (-n) / den,
{
    lemma_same_floor_one(dn, dd, n, den);
    assert((-dn) * den == (-n) * dd) by (nonlinear_arith)
        requires
            dn * den == n * dd,
    ;
    lemma_same_floor_one(-dn, dd, -n, den);
}

proof fn lemma_same_floor_one(dn: int, dd: int, n: int, den: int)
    requires
        dd > 0,
        den > 0,
        dn * den == n * dd,
    ensures
        dn / dd == n / den,
{
    let q = n / den;
    let r = n % den;
    vstd::arithmetic::div_mod::lemma_fundamental_div_mod(n, den);
    vstd::arithmetic::div_mod::lemma_mod_bound(n, den);
    assert((dn - q * dd) * den == r * dd) by (nonlinear_arith)
        requires
            dn * den == n * dd,
            n == den * q + r,
    ;
    assert(0 <= dn - q * dd < dd) by (nonlinear_arith)
        requires
            (dn - q * dd) * den == r * dd,
            0 <= r < den,
            dd > 0,
            den > 0,
    ;
    vstd::arithmetic::div_mod::lemma_fundamental_div_mod_converse(dn, dd, q, dn - q * dd);
}

/// 10^n for n <= 28 lies within the magnitude of a mantissa.
pub proof fn lemma_pow10_bound(n: nat)
    requires
        n <= 28,
    ensures
        1 <= pow10(n) <= pow10(28),
        pow10(28) == 10000000000000000000000000000,
        pow10(28) <= MAX_MANTISSA,
    decreases 28 - n,
{
    reveal_with_fuel(pow10, 30);
    lemma_pow10_positive(n);
    if n < 28 {
        lemma_pow10_bound(n + 1);
        assert(pow10(n + 1) == 10 * pow10(n));
    }
}

/// A decimal number `mantissa / 10^scale`, as the `rust_decimal` crate holds it:
/// a 96-bit magnitude, a scale of at most 28, and a sign flag that is kept
/// also on zero (a "negative zero").
#[derive(Debug, Clone, Copy, PartialEq, Eq, Structural)]
pub struct Decimal {
    pub mantissa: i128,
    pub scale: u32,
    pub negative: bool,
}

/// What `rust_decimal`'s `checked_mul` returns on two decimals.
pub uninterp spec fn decimal_product(a: Decimal, b: Decimal) -> Option<Decimal>;

/// What `rust_decimal`'s `checked_div` returns on two decimals.
pub uninterp spec fn decimal_quotient(a: Decimal, b: Decimal) -> Option<Decimal>;

/// The text that `rust_decimal`'s `Display` writes of a decimal, in bytes.
pub uninterp spec fn decimal_text_of(a: Decimal) -> Seq<u8>;

/// What `rust_decimal`'s `checked_sub` returns on two decimals.
pub uninterp spec fn decimal_difference(a: Decimal, b: Decimal) -> Option<Decimal>;

impl Decimal {
    /// Within the range of `rust_decimal`, with the sign flag agreeing with a non-zero mantissa.
    pub open spec fn wf(self) -> bool {
        &&& -MAX_MANTISSA <= self.mantissa <= MAX_MANTISSA
        &&& self.scale <= MAX_SCALE
        &&& self.mantissa > 0 ==> !self.negative
        &&& self.mantissa < 0 ==> self.negative
    }

    /// Numerator of the value.
    pub open spec fn num(self) -> int {
        self.mantissa as int
    }

    /// Denominator of the value.
    pub open spec fn den(self) -> int {
        pow10(self.scale as nat) as int
    }

    /// The value lies in [lo, hi] (integers).
    pub open spec fn in_range(self, lo: int, hi: int) -> bool {
        lo * self.den() <= self.num() <= hi * self.den()
    }

    /// The largest integer not above the value.
    pub open spec fn floor_value(self) -> int {
        self.num() / self.den()
    }

    /// The smallest integer not below the value.
    pub open spec fn ceil_value(self) -> int {
        -((-self.num()) / self.den())
    }

    /// The value with its fractional part dropped (rounded toward zero).
    pub open spec fn trunc_value(self) -> int {
        if self.num() >= 0 {
            self.floor_value()
        } else {
            self.ceil_value()
        }
    }

    /// The two values are equal.
    pub open spec fn same_value(self, other: Decimal) -> bool {
        self.num() * other.den() == other.num() * self.den()
    }

    /// The decimal of an unsigned integer (the `From<u64>` conversion of `rust_decimal`).
    pub fn from_u64(n: u64) -> (r: Decimal)
        ensures
            r.wf(),
            r == dec_of(n),
            r.den() == 1,
    {
        proof {
            assert(pow10(0) == 1);
        }
        Decimal { mantissa: n as i128, scale: 0, negative: false }
    }

    /// The decimal 1.
    pub fn one() -> (r: Decimal)
        ensures
            r.wf(),
            r == one_spec(),
            r.den() == 1,
    {
        Decimal::from_u64(1)
    }

    /// The decimal `mantissa / 10^scale`; `None` where that is out of the range of `rust_decimal`.
    pub fn try_new(mantissa: i128, scale: u32) -> (r: Option<Decimal>)
        ensures
            r matches Some(d) ==> d.wf() && d.mantissa == mantissa && d.scale == scale,
            r is None <==> (mantissa < -MAX_MANTISSA || mantissa > MAX_MANTISSA || scale
                > MAX_SCALE),
    {
        if mantissa < -MAX_MANTISSA || mantissa > MAX_MANTISSA || scale > MAX_SCALE {
            None
        } else {
            Some(Decimal { mantissa, scale, negative: mantissa < 0 })
        }
    }
}

/// `d` is `num / den` (with `den > 0`) rounded to the nearest multiple of `10^-d.scale`:
/// it lies within half a unit of its last digit of that value.
pub open spec fn rounded_from(d: Decimal, num: int, den: int) -> bool {
    &&& 2 * (d.num() * den - num * d.den()) <= den
    &&& 2 * (num * d.den() - d.num() * den) <= den
}

/// `d` is exactly `num / den`.
pub open spec fn has_value(d: Decimal, num: int, den: int) -> bool {
    d.num() * den == num * d.den()
}

/// An integer mantissa `m` at scale `scale` ends in `k` zeros, and dropping them leaves a
/// decimal within the range of `rust_decimal` (mantissa below 2^96, scale at most 28).
pub open spec fn fits_dropping(m: int, scale: nat, k: nat) -> bool {
    &&& k <= scale
    &&& scale - k <= MAX_SCALE
    &&& m % (pow10(k) as int) == 0
    &&& -MAX_MANTISSA <= m / (pow10(k) as int) <= MAX_MANTISSA
}

/// The exact product of two decimals is a decimal within the range of `rust_decimal`.
pub open spec fn exact_product_fits(a: Decimal, b: Decimal) -> bool {
    exists|k: nat| #[trigger] fits_dropping(a.mantissa * b.mantissa, (a.scale + b.scale) as nat, k)
}

/// The value of `a` is at most that of `b`.
pub open spec fn value_le(a: Decimal, b: Decimal) -> bool {
    a.num() * b.den() <= b.num() * a.den()
}

/// The quotient `a / b` is `m / 10^k` for a mantissa `m` within the range of `rust_decimal`
/// and a scale `k` of at most 28.
pub open spec fn quotient_is(a: Decimal, b: Decimal, m: int, k: nat) -> bool {
    &&& k <= MAX_SCALE
    &&& -MAX_MANTISSA <= m <= MAX_MANTISSA
    &&& m * quotient_den(a, b) == quotient_num(a, b) * (pow10(k) as int)
}

/// The exact quotient of two decimals, the divisor non-zero, is a decimal within the range of
/// `rust_decimal`.
pub open spec fn exact_quotient_fits(a: Decimal, b: Decimal) -> bool {
    &&& b.mantissa != 0
    &&& exists|m: int, k: nat| #[trigger] quotient_is(a, b, m, k)
}

/// For non-negative factors, `d` (the product of `a` and `b`) is at most the product of any
/// larger first factor with `b`, which is a decimal of the range.
#[verifier::opaque]
pub open spec fn product_grows_with_first(a: Decimal, b: Decimal, d: Decimal) -> bool {
    a.num() >= 0 && b.num() >= 0 ==> forall|a2: Decimal|
        a2.wf() && value_le(a, a2) && #[trigger] decimal_product(a2, b) is Some ==> decimal_product(
            a2,
            b,
        )->0.wf() && value_le(d, decimal_product(a2, b)->0)
}

/// For non-negative factors, `d` (the product of `a` and `b`) is at most the product of `a`
/// with any larger second factor, which is a decimal of the range.
#[verifier::opaque]
pub open spec fn product_grows_with_second(a: Decimal, b: Decimal, d: Decimal) -> bool {
    a.num() >= 0 && b.num() >= 0 ==> forall|b2: Decimal|
        b2.wf() && value_le(b, b2) && #[trigger] decimal_product(a, b2) is Some ==> decimal_product(
            a,
            b2,
        )->0.wf() && value_le(d, decimal_product(a, b2)->0)
}

/// For a non-negative dividend and a positive divisor, `d` (the quotient `a / b`) is at most
/// the quotient of any larger dividend by `b`, which is a decimal of the range.
#[verifier::opaque]
pub open spec fn quotient_grows_with_dividend(a: Decimal, b: Decimal, d: Decimal) -> bool {
    a.num() >= 0 && b.num() > 0 ==> forall|a2: Decimal|
        a2.wf() && value_le(a, a2) && #[trigger] decimal_quotient(a2, b) is Some ==> decimal_quotient(
            a2,
            b,
        )->0.wf() && value_le(d, decimal_quotient(a2, b)->0)
}

/// The numerator of the quotient `a / b`, over the positive denominator `quotient_den(a, b)`.
pub open spec fn quotient_num(a: Decimal, b: Decimal) -> int {
    if b.num() >= 0 {
        a.num() * b.den()
    } else {
        -(a.num() * b.den())
    }
}

/// The positive denominator of the quotient `a / b` (for a non-zero `b`).
pub open spec fn quotient_den(a: Decimal, b: Decimal) -> int {
    if b.num() >= 0 {
        a.den() * b.num()
    } else {
        -(a.den() * b.num())
    }
}

/// The decimal that `rust_decimal`'s `floor` returns: the largest integer not above the
/// value, at scale 0; a zero keeps the sign flag of the argument.
pub open spec fn floor_of(a: Decimal) -> Decimal {
    Decimal {
        mantissa: a.floor_value() as i128,
        scale: 0,
        negative: if a.floor_value() == 0 {
            a.negative
        } else {
            a.floor_value() < 0
        },
    }
}

/// The decimal that `rust_decimal`'s `ceil` returns: the smallest integer not below the
/// value, at scale 0; a zero keeps the sign flag of the argument.
pub open spec fn ceil_of(a: Decimal) -> Decimal {
    Decimal {
        mantissa: a.ceil_value() as i128,
        scale: 0,
        negative: if a.ceil_value() == 0 {
            a.negative
        } else {
            a.ceil_value() < 0
        },
    }
}

/// What `rust_decimal`'s `to_u64` returns: nothing on a negative sign flag (also on a
/// negative zero), otherwise the value without its fraction where that fits a `u64`.
pub open spec fn u64_of(a: Decimal) -> Option<u64> {
    if a.negative || a.trunc_value() > u64::MAX {
        None
    } else {
        Some(a.trunc_value() as u64)
    }
}

/// The decimal 1.
pub open spec fn one_spec() -> Decimal {
    Decimal { mantissa: 1, scale: 0, negative: false }
}

/// The decimal of an unsigned integer.
pub open spec fn dec_of(n: u64) -> Decimal {
    Decimal { mantissa: n as i128, scale: 0, negative: false }
}

/// `rust_decimal`'s `checked_mul`. The result is named; the source of the crate shows that
/// a product with a zero factor is zero, that a product whose exact mantissa and scale fit
/// the range is computed exactly, also where trailing zeros must be dropped to fit, that a
/// product whose magnitude is at most 2^96 - 1 never overflows, that a product of non-zero
/// factors whose scales add up to at most 28 is not rounded to zero, that the product is
/// rounded to the nearest value at its scale (the finest scale, at most 28 and at most the sum
/// of the factors' scales, at which it fits), so that for non-negative factors a larger
/// factor never gives a smaller product, and that a negative sign comes only from factors of
/// different signs.
#[verifier::external_body]
pub(crate) fn checked_mul(a: Decimal, b: Decimal) -> (r: Option<Decimal>)
    requires
        a.wf(),
        b.wf(),
    ensures
        r == decimal_product(a, b),
        r matches Some(d) ==> d.wf(),
        (a.mantissa == 0 || b.mantissa == 0) ==> r == Some(
            Decimal { mantissa: 0, scale: 0, negative: false },
        ),
        (a.mantissa != 0 && b.mantissa != 0 && -MAX_MANTISSA <= a.mantissa * b.mantissa
            <= MAX_MANTISSA && a.scale + b.scale <= MAX_SCALE) ==> r == Some(
            Decimal {
                mantissa: (a.mantissa * b.mantissa) as i128,
                scale: (a.scale + b.scale) as u32,
                negative: a.negative != b.negative,
            },
        ),
        (-0x1_0000_0000_0000_0000 * a.den() * b.den() < a.num() * b.num() < 0x1_0000_0000_0000_0000
            * a.den() * b.den()) ==> r is Some,
        (a.mantissa != 0 && b.mantissa != 0 && a.scale + b.scale <= MAX_SCALE) ==> (r matches Some(
            d,
        ) ==> d.mantissa != 0),
        r is Some <== -MAX_MANTISSA * (a.den() * b.den()) <= a.num() * b.num() <= MAX_MANTISSA * (a.den() * b.den()),
        r matches Some(d) ==> rounded_from(d, a.num() * b.num(), a.den() * b.den()),
        exact_product_fits(a, b) ==> r is Some,
        r matches Some(d) ==> (exact_product_fits(a, b) ==> has_value(d, a.num() * b.num(), a.den() * b.den())),
        r matches Some(d) ==> (d.negative ==> a.negative != b.negative),
        r matches Some(d) ==> product_grows_with_first(a, b, d),
        r matches Some(d) ==> product_grows_with_second(a, b, d),
{
    let mut x = rust_decimal::Decimal::from_i128_with_scale(a.mantissa, a.scale);
    x.set_sign_negative(a.negative);
    let mut y = rust_decimal::Decimal::from_i128_with_scale(b.mantissa, b.scale);
    y.set_sign_negative(b.negative);
    x.checked_mul(y).map(
        |d| Decimal { mantissa: d.mantissa(), scale: d.scale(), negative: d.is_sign_negative() },
    )
}

/// `rust_decimal`'s `checked_div`. The result is named; the source of the crate shows that a
/// division by zero fails, that zero divided by a non-zero decimal is zero, that a quotient
/// whose magnitude is at most 2^96 - 1 never overflows, that a quotient that is exactly a
/// decimal of at most 28 digits after the point is returned exactly, that the quotient is
/// rounded to the nearest value at its scale (the finest scale, at most 28, at which it fits),
/// so that for a positive divisor a larger non-negative dividend never gives a smaller
/// quotient, and that a negative sign comes only from operands of different signs.
#[verifier::external_body]
pub(crate) fn checked_div(a: Decimal, b: Decimal) -> (r: Option<Decimal>)
    requires
        a.wf(),
        b.wf(),
    ensures
        r == decimal_quotient(a, b),
        r matches Some(d) ==> d.wf(),
        b.mantissa == 0 ==> r is None,
        (a.mantissa == 0 && b.mantissa != 0) ==> r == Some(
            Decimal { mantissa: 0, scale: 0, negative: false },
        ),
        r is Some <== b.mantissa != 0 && -MAX_MANTISSA * quotient_den(a, b) <= quotient_num(a, b) <= MAX_MANTISSA * quotient_den(a, b),
        r matches Some(d) ==> rounded_from(d, quotient_num(a, b), quotient_den(a, b)),
        r matches Some(d) ==> (d.negative ==> a.negative != b.negative),
        exact_quotient_fits(a, b) ==> r is Some,
        r matches Some(d) ==> (exact_quotient_fits(a, b) ==> has_value(d, quotient_num(a, b), quotient_den(a, b))),
        r matches Some(d) ==> quotient_grows_with_dividend(a, b, d),
{
    let mut x = rust_decimal::Decimal::from_i128_with_scale(a.mantissa, a.scale);
    x.set_sign_negative(a.negative);
    let mut y = rust_decimal::Decimal::from_i128_with_scale(b.mantissa, b.scale);
    y.set_sign_negative(b.negative);
    x.checked_div(y).map(
        |d| Decimal { mantissa: d.mantissa(), scale: d.scale(), negative: d.is_sign_negative() },
    )
}

/// `rust_decimal`'s `checked_sub`. The result is named; the source of the crate shows that
/// one minus a non-zero decimal in [0, 1] is computed exactly at the scale of that decimal,
/// and that one minus zero is the decimal one itself.
#[verifier::external_body]
pub(crate) fn checked_sub(a: Decimal, b: Decimal) -> (r: Option<Decimal>)
    requires
        a.wf(),
        b.wf(),
    ensures
        r == decimal_difference(a, b),
        r matches Some(d) ==> d.wf(),
        (a == one_spec() && b.in_range(0, 1)) ==> r == Some(
            if b.mantissa == 0 {
                a
            } else {
                Decimal { mantissa: (b.den() - b.num()) as i128, scale: b.scale, negative: false }
            },
        ),
{
    let mut x = rust_decimal::Decimal::from_i128_with_scale(a.mantissa, a.scale);
    x.set_sign_negative(a.negative);
    let mut y = rust_decimal::Decimal::from_i128_with_scale(b.mantissa, b.scale);
    y.set_sign_negative(b.negative);
    x.checked_sub(y).map(
        |d| Decimal { mantissa: d.mantissa(), scale: d.scale(), negative: d.is_sign_negative() },
    )
}

/// `rust_decimal`'s `floor`: the largest integer not above the value, at scale 0; a result
/// of zero keeps the sign flag of the argument.
#[verifier::external_body]
pub(crate) fn floor(a: Decimal) -> (r: Decimal)
    requires
        a.wf(),
    ensures
        r.wf(),
        r == floor_of(a),
{
    let mut x = rust_decimal::Decimal::from_i128_with_scale(a.mantissa, a.scale);
    x.set_sign_negative(a.negative);
    let d = x.floor();
    Decimal { mantissa: d.mantissa(), scale: d.scale(), negative: d.is_sign_negative() }
}

/// `rust_decimal`'s `ceil`: the smallest integer not below the value, at scale 0; a result
/// of zero keeps the sign flag of the argument.
#[verifier::external_body]
pub(crate) fn ceil(a: Decimal) -> (r: Decimal)
    requires
        a.wf(),
    ensures
        r.wf(),
        r == ceil_of(a),
{
    let mut x = rust_decimal::Decimal::from_i128_with_scale(a.mantissa, a.scale);
    x.set_sign_negative(a.negative);
    let d = x.ceil();
    Decimal { mantissa: d.mantissa(), scale: d.scale(), negative: d.is_sign_negative() }
}

/// `rust_decimal`'s `to_u64`: `None` on a negative sign flag (also on a negative zero),
/// otherwise the value without its fraction where that fits a `u64`.
#[verifier::external_body]
pub(crate) fn to_u64(a: Decimal) -> (r: Option<u64>)
    requires
        a.wf(),
    ensures
        r == u64_of(a),
{
    let mut x = rust_decimal::Decimal::from_i128_with_scale(a.mantissa, a.scale);
    x.set_sign_negative(a.negative);
    rust_decimal::prelude::ToPrimitive::to_u64(&x)
}

/// `rust_decimal`'s `to_u128`: `None` on a negative sign flag (also on a negative zero),
/// otherwise the value without its fraction.
#[verifier::external_body]
pub(crate) fn to_u128(a: Decimal) -> (r: Option<u128>)
    requires
        a.wf(),
    ensures
        r == (if a.negative {
            None::<u128>
        } else {
            Some(a.trunc_value() as u128)
        }),
{
    let mut x = rust_decimal::Decimal::from_i128_with_scale(a.mantissa, a.scale);
    x.set_sign_negative(a.negative);
    rust_decimal::prelude::ToPrimitive::to_u128(&x)
}

/// `rust_decimal`'s `<=`, which compares the values (a negative zero equals zero).
#[verifier::external_body]
pub(crate) fn le(a: Decimal, b: Decimal) -> (r: bool)
    requires
        a.wf(),
        b.wf(),
    ensures
        r == (a.num() * b.den() <= b.num() * a.den()),
{
    let mut x = rust_decimal::Decimal::from_i128_with_scale(a.mantissa, a.scale);
    x.set_sign_negative(a.negative);
    let mut y = rust_decimal::Decimal::from_i128_with_scale(b.mantissa, b.scale);
    y.set_sign_negative(b.negative);
    x <= y
}

/// `rust_decimal`'s `Display` (through `to_string`). The source of the crate shows that a
/// decimal of scale 0 without a negative sign flag is written as its decimal digits.
#[verifier::external_body]
pub(crate) fn to_text(a: Decimal) -> (r: Vec<u8>)
    requires
        a.wf(),
    ensures
        r@ == decimal_text_of(a),
        (a.scale == 0 && !a.negative) ==> r@ == decimal_text(a.mantissa as nat),
{
    let mut x = rust_decimal::Decimal::from_i128_with_scale(a.mantissa, a.scale);
    x.set_sign_negative(a.negative);
    x.to_string().into_bytes()
}

} // verus!
