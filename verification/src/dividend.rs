use vstd::prelude::*;

use crate::amounts::{FundsAmount, ShareAmount};
use crate::decimal::{
    checked_div, checked_mul, dec_of, decimal_product, decimal_quotient, floor, floor_of, to_u64,
    lemma_pow10_positive, product_grows_with_first, product_grows_with_second,
    quotient_grows_with_dividend, quotient_den, quotient_num, rounded_from, value_le, MAX_MANTISSA,
    pow10, u64_of, Decimal,
};
use crate::error::Error;

verus! {

/// The investors' part of the supply as a fraction of it: `investors_part / share_supply`,
/// as `rust_decimal` divides.
pub open spec fn investors_fraction(investors_part: u64, share_supply: u64) -> Option<Decimal> {
    decimal_quotient(dec_of(investors_part), dec_of(share_supply))
}

/// The percentage (scaled by `precision` squared) of the received funds that an investor
/// with `locked` shares is entitled to, given the investors' fraction:
/// `floor(locked * precision * (fraction * precision) / share_supply)`,
/// with the arithmetic of the DAO's TEAL program.
pub open spec fn entitled_percentage_of(
    fraction: Decimal,
    share_supply: u64,
    locked: u64,
    precision: u64,
) -> Option<Decimal> {
    if locked * precision > u64::MAX {
        None
    } else {
        match decimal_product(fraction, dec_of(precision)) {
            None => None,
            Some(percentage_mul_precision) => match decimal_product(
                dec_of((locked * precision) as u64),
                percentage_mul_precision,
            ) {
                None => None,
                Some(mul2) => match decimal_quotient(mul2, dec_of(share_supply)) {
                    None => None,
                    Some(q) => Some(floor_of(q)),
                },
            },
        }
    }
}

/// The entitled total: `floor(received * entitled_percentage / precision^2)`.
pub open spec fn entitled_total_of(received: u64, entitled_percentage: Decimal, precision: u64) -> Option<
    Decimal,
> {
    match decimal_product(dec_of(precision), dec_of(precision)) {
        None => None,
        Some(precision_square) => match decimal_product(dec_of(received), entitled_percentage) {
            None => None,
            Some(mul3) => match decimal_quotient(mul3, precision_square) {
                None => None,
                Some(q) => Some(floor_of(q)),
            },
        },
    }
}

/// The entitled total, before the conversion to an integer, from the investors' fraction.
pub open spec fn entitled_total_from_fraction(
    received: u64,
    fraction: Decimal,
    share_supply: u64,
    locked: u64,
    precision: u64,
) -> Option<Decimal> {
    match entitled_percentage_of(fraction, share_supply, locked, precision) {
        None => None,
        Some(ep) => entitled_total_of(received, ep, precision),
    }
}

/// The dividend that `locked` shares entitle to, from the investors' fraction.
pub open spec fn dividend_from_fraction_spec(
    received: u64,
    fraction: Decimal,
    share_supply: u64,
    locked: u64,
    precision: u64,
) -> Option<u64> {
    match entitled_total_from_fraction(received, fraction, share_supply, locked, precision) {
        None => None,
        Some(total) => u64_of(total),
    }
}

/// The dividend that `locked` shares entitle to: `None` where one of the operations fails.
pub open spec fn entitled_dividend(
    received: u64,
    share_supply: u64,
    locked: u64,
    precision: u64,
    investors_part: u64,
) -> Option<u64> {
    match investors_fraction(investors_part, share_supply) {
        None => None,
        Some(fraction) => dividend_from_fraction_spec(
            received,
            fraction,
            share_supply,
            locked,
            precision,
        ),
    }
}

/// A decimal rounded from a value that is at most the integer `n` is at most `n`.
pub proof fn lemma_rounded_at_most(d: Decimal, num: int, den: int, n: int)
    requires
        den > 0,
        rounded_from(d, num, den),
        num <= n * den,
    ensures
        d.num() <= n * d.den(),
{
    lemma_pow10_positive(d.scale as nat);
    let x = d.num();
    let y = d.den();
    if x > n * y {
        assert(x * den >= n * y * den + den) by (nonlinear_arith)
            requires
                x >= n * y + 1,
                den > 0,
        ;
        assert(num * y <= n * den * y) by (nonlinear_arith)
            requires
                num <= n * den,
                y > 0,
        ;
        assert(n * y * den == n * den * y) by (nonlinear_arith);
    }
}

/// A decimal rounded from a value that is at least the integer `n` is at least `n`.
pub proof fn lemma_rounded_at_least(d: Decimal, num: int, den: int, n: int)
    requires
        den > 0,
        rounded_from(d, num, den),
        num >= n * den,
    ensures
        d.num() >= n * d.den(),
{
    lemma_pow10_positive(d.scale as nat);
    let x = d.num();
    let y = d.den();
    if x < n * y {
        assert(x * den <= n * y * den - den) by (nonlinear_arith)
            requires
                x <= n * y - 1,
                den > 0,
        ;
        assert(num * y >= n * den * y) by (nonlinear_arith)
            requires
                num >= n * den,
                y > 0,
        ;
        assert(n * y * den == n * den * y) by (nonlinear_arith);
    }
}

/// The floor keeps the order of values.
pub proof fn lemma_floor_monotone(t: Decimal, t2: Decimal)
    requires
        value_le(t, t2),
    ensures
        value_le(floor_of(t), floor_of(t2)),
{
    lemma_pow10_positive(t.scale as nat);
    lemma_pow10_positive(t2.scale as nat);
    assert(pow10(0) == 1);
    let a = t.num();
    let b = t.den();
    let c = t2.num();
    let e = t2.den();
    let q = a / b;
    vstd::arithmetic::div_mod::lemma_fundamental_div_mod(a, b);
    vstd::arithmetic::div_mod::lemma_mod_bound(a, b);
    assert(q * b <= a);
    assert(q * e <= c) by (nonlinear_arith)
        requires
            q * b <= a,
            a * e <= c * b,
            b > 0,
            e > 0,
    ;
    vstd::arithmetic::div_mod::lemma_fundamental_div_mod(c, e);
    vstd::arithmetic::div_mod::lemma_mod_bound(c, e);
    let q2 = c / e;
    assert(q <= q2) by (nonlinear_arith)
        requires
            q * e <= c,
            c == e * q2 + c % e,
            0 <= c % e < e,
            e > 0,
    ;
    lemma_floor_in_range(a, b);
    lemma_floor_in_range(c, e);
    assert(floor_of(t).num() == q);
    assert(floor_of(t2).num() == q2);
    assert(floor_of(t).den() == 1 && floor_of(t2).den() == 1);
}

/// The floor of `a / b` (with `b >= 1`) lies between `a` and zero.
proof fn lemma_floor_in_range(a: int, b: int)
    requires
        b >= 1,
    ensures
        a >= 0 ==> 0 <= a / b <= a,
        a < 0 ==> a <= a / b < 0,
{
    vstd::arithmetic::div_mod::lemma_fundamental_div_mod(a, b);
    vstd::arithmetic::div_mod::lemma_mod_bound(a, b);
    let f = a / b;
    if a >= 0 {
        assert(0 <= f <= a) by (nonlinear_arith)
            requires
                a == b * f + a % b,
                0 <= a % b < b,
                b >= 1,
                a >= 0,
        ;
    } else {
        assert(a <= f < 0) by (nonlinear_arith)
            requires
                a == b * f + a % b,
                0 <= a % b < b,
                b >= 1,
                a < 0,
        ;
    }
}

/// Converting to `u64` keeps the order of values.
pub proof fn lemma_u64_of_monotone(x: Decimal, y: Decimal)
    requires
        x.wf(),
        y.wf(),
        value_le(x, y),
        u64_of(x) is Some,
        u64_of(y) is Some,
    ensures
        u64_of(x)->0 <= u64_of(y)->0,
{
    lemma_pow10_positive(x.scale as nat);
    lemma_pow10_positive(y.scale as nat);
    lemma_floor_monotone(x, y);
    lemma_floor_in_range(x.num(), x.den());
    lemma_floor_in_range(y.num(), y.den());
    assert(pow10(0) == 1);
    assert(floor_of(x).num() == x.floor_value());
    assert(floor_of(y).num() == y.floor_value());
    assert(floor_of(x).den() == 1 && floor_of(y).den() == 1);
    assert(value_le(floor_of(x), floor_of(y)));
    let fx = floor_of(x).num();
    let fy = floor_of(y).num();
    assert(fx <= fy) by (nonlinear_arith)
        requires
            fx * floor_of(y).den() <= fy * floor_of(x).den(),
            floor_of(x).den() == 1,
            floor_of(y).den() == 1,
    ;
    assert(x.floor_value() <= y.floor_value());
    assert(!x.negative && !y.negative);
    assert(x.num() >= 0 && y.num() >= 0);
    assert(x.trunc_value() == x.floor_value());
    assert(y.trunc_value() == y.floor_value());
    assert(0 <= x.trunc_value() <= u64::MAX);
    assert(0 <= y.trunc_value() <= u64::MAX);
}

/// The floor of a decimal is a decimal of the range.
pub proof fn lemma_floor_of_wf(q: Decimal)
    requires
        q.wf(),
    ensures
        floor_of(q).wf(),
{
    lemma_pow10_positive(q.scale as nat);
    lemma_floor_in_range(q.num(), q.den());
}

/// What the steps of the entitled total give for a non-negative fraction: every intermediate
/// value is non-negative, and the divisors are positive.
proof fn lemma_entitled_total_monotone_facts(
    fraction: Decimal,
    prec: Decimal,
    pm: Decimal,
    mul1: Decimal,
    mul2: Decimal,
    supply: Decimal,
    q: Decimal,
    ps: Decimal,
    received: Decimal,
    mul3: Decimal,
    t: Decimal,
    p: int,
    s: int,
)
    requires
        fraction.wf(),
        fraction.num() >= 0,
        prec == dec_of(p as u64),
        0 <= p <= u64::MAX,
        supply == dec_of(s as u64),
        0 <= s <= u64::MAX,
        mul1.num() >= 0,
        mul1.den() == 1,
        received.num() >= 0,
        received.den() == 1,
        rounded_from(pm, fraction.num() * prec.num(), fraction.den() * prec.den()),
        rounded_from(mul2, mul1.num() * pm.num(), mul1.den() * pm.den()),
        supply.mantissa != 0,
        rounded_from(q, quotient_num(mul2, supply), quotient_den(mul2, supply)),
        rounded_from(ps, prec.num() * prec.num(), prec.den() * prec.den()),
        ps.mantissa != 0,
        rounded_from(mul3, received.num() * floor_of(q).num(), received.den() * floor_of(q).den()),
    ensures
        pm.num() >= 0,
        mul2.num() >= 0,
        q.num() >= 0,
        floor_of(q).num() >= 0,
        ps.num() > 0,
        mul3.num() >= 0,
        s > 0,
{
    assert(pow10(0) == 1);
    lemma_pow10_positive(fraction.scale as nat);
    lemma_pow10_positive(pm.scale as nat);
    lemma_pow10_positive(mul2.scale as nat);
    lemma_pow10_positive(q.scale as nat);
    lemma_pow10_positive(ps.scale as nat);
    assert(fraction.num() * prec.num() >= 0) by (nonlinear_arith)
        requires
            fraction.num() >= 0,
            prec.num() >= 0,
    ;
    assert(fraction.den() * prec.den() > 0) by (nonlinear_arith)
        requires
            fraction.den() > 0,
            prec.den() == 1,
    ;
    lemma_rounded_at_least(pm, fraction.num() * prec.num(), fraction.den() * prec.den(), 0);
    assert(mul1.num() * pm.num() >= 0) by (nonlinear_arith)
        requires
            mul1.num() >= 0,
            pm.num() >= 0,
    ;
    lemma_rounded_at_least(mul2, mul1.num() * pm.num(), mul1.den() * pm.den(), 0);
    assert(s > 0);
    assert(supply.num() == s && supply.den() == 1);
    assert(quotient_num(mul2, supply) == mul2.num() * 1);
    assert(mul2.num() * 1 == mul2.num());
    assert(quotient_den(mul2, supply) == mul2.den() * s);
    assert(mul2.den() * s > 0) by (nonlinear_arith)
        requires
            mul2.den() > 0,
            s > 0,
    ;
    lemma_rounded_at_least(q, quotient_num(mul2, supply), quotient_den(mul2, supply), 0);
    assert(0 <= q.num() / q.den()) by (nonlinear_arith)
        requires
            q.num() >= 0,
            q.den() > 0,
    ;
    assert(prec.num() * prec.num() >= 0) by (nonlinear_arith);
    lemma_rounded_at_least(ps, prec.num() * prec.num(), prec.den() * prec.den(), 0);
    assert(ps.num() != 0);
    assert(received.num() * floor_of(q).num() >= 0) by (nonlinear_arith)
        requires
            received.num() >= 0,
            floor_of(q).num() >= 0,
    ;
    assert(received.den() * floor_of(q).den() == 1);
    lemma_rounded_at_least(mul3, received.num() * floor_of(q).num(), received.den() * floor_of(q).den(), 0);
}

/// The floor of a non-negative decimal of value at most `n` is a non-negative integer decimal
/// of value at most `n`.
proof fn lemma_floor_within(q: Decimal, n: int)
    requires
        q.wf(),
        !q.negative,
        0 <= q.num() <= n * q.den(),
    ensures
        floor_of(q).scale == 0,
        !floor_of(q).negative,
        0 <= floor_of(q).mantissa <= n,
        floor_of(q).den() == 1,
{
    lemma_pow10_positive(q.scale as nat);
    assert(0 <= q.num() / q.den() <= n) by (nonlinear_arith)
        requires
            0 <= q.num() <= n * q.den(),
            q.den() > 0,
    ;
    assert(pow10(0) == 1);
}

/// The entitled total of an investor before its conversion to an integer, from the investors'
/// fraction of the supply (the result of the first division), with the arithmetic of the
/// DAO's TEAL program. Where the investor's shares are part of the supply, the fraction is in
/// [0, 1] and the values stay within the range of the decimals, it is computed and is an
/// integer of at most the total received.
#[verifier::spinoff_prover]
#[verifier::rlimit(60)]
pub fn entitled_total_decimal(
    central_received_total: FundsAmount,
    fraction: Decimal,
    share_supply: ShareAmount,
    locked_amount: ShareAmount,
    precision: u64,
) -> (r: Result<Decimal, Error>)
    requires
        fraction.wf(),
    ensures
        r is Ok <==> entitled_total_from_fraction(
            central_received_total.0,
            fraction,
            share_supply.0,
            locked_amount.0,
            precision,
        ) is Some,
        r matches Ok(d) ==> d.wf() && entitled_total_from_fraction(
            central_received_total.0,
            fraction,
            share_supply.0,
            locked_amount.0,
            precision,
        ) == Some(d),
        r matches Err(e) ==> e == Error::Overflow || e == Error::DecimalOperation,
        (r is Ok && share_supply.0 > 0 && precision > 0 && (locked_amount.0 == 0
            || central_received_total.0 == 0)) ==> r == Ok::<Decimal, Error>(
            Decimal { mantissa: 0, scale: 0, negative: false },
        ),
        dividend_in_range(
            central_received_total.0,
            fraction,
            share_supply.0,
            locked_amount.0,
            precision,
        ) ==> (r matches Ok(d) && d.scale == 0 && !d.negative && 0 <= d.mantissa
            <= central_received_total.0),
        r matches Ok(d) ==> (fraction.num() >= 0 ==> forall|r2: u64|
            r2 >= central_received_total.0 && #[trigger] entitled_total_from_fraction(
                r2,
                fraction,
                share_supply.0,
                locked_amount.0,
                precision,
            ) is Some ==> entitled_total_from_fraction(r2, fraction, share_supply.0, locked_amount.0, precision)->0.wf()
                && value_le(
                d,
                entitled_total_from_fraction(r2, fraction, share_supply.0, locked_amount.0, precision)->0,
            )),
        r matches Ok(d) ==> (fraction.num() >= 0 ==> forall|c2: u64|
            c2 >= locked_amount.0 && #[trigger] entitled_total_from_fraction(
                central_received_total.0,
                fraction,
                share_supply.0,
                c2,
                precision,
            ) is Some ==> entitled_total_from_fraction(central_received_total.0, fraction, share_supply.0, c2, precision)->0.wf()
                && value_le(
                d,
                entitled_total_from_fraction(central_received_total.0, fraction, share_supply.0, c2, precision)->0,
            )),
{
    let ghost good = dividend_in_range(
        central_received_total.0,
        fraction,
        share_supply.0,
        locked_amount.0,
        precision,
    );
    let ghost big_r = central_received_total.0 as int;
    let ghost s = share_supply.0 as int;
    let ghost c = locked_amount.0 as int;
    let ghost p = precision as int;
    let mul1 = match locked_amount.val().checked_mul(precision) {
        Some(v) => Decimal::from_u64(v),
        None => {
            return Err(Error::Overflow);
        },
    };
    let prec = Decimal::from_u64(precision);
    proof {
        if good {
            lemma_pow10_positive(fraction.scale as nat);
            assert(fraction.num() * p <= MAX_MANTISSA * (fraction.den() * prec.den()))
                by (nonlinear_arith)
                requires
                    0 <= fraction.num() <= fraction.den(),
                    0 <= p <= MAX_MANTISSA,
                    prec.den() == 1,
            ;
            assert(-MAX_MANTISSA * (fraction.den() * prec.den()) <= fraction.num() * p)
                by (nonlinear_arith)
                requires
                    0 <= fraction.num(),
                    0 <= p,
                    fraction.den() > 0,
                    prec.den() == 1,
            ;
        }
    }
    let percentage_mul_precision = match checked_mul(fraction, prec) {
        Some(d) => d,
        None => {
            return Err(Error::DecimalOperation);
        },
    };
    proof {
        if good {
            let pm = percentage_mul_precision;
            lemma_pow10_positive(fraction.scale as nat);
            assert(fraction.num() * p <= p * (fraction.den() * prec.den())) by (nonlinear_arith)
                requires
                    0 <= fraction.num() <= fraction.den(),
                    0 <= p,
                    prec.den() == 1,
            ;
            assert(fraction.num() * p >= 0 * (fraction.den() * prec.den())) by (nonlinear_arith)
                requires
                    0 <= fraction.num(),
                    0 <= p,
            ;
            lemma_rounded_at_most(pm, fraction.num() * prec.num(), fraction.den() * prec.den(), p);
            lemma_rounded_at_least(pm, fraction.num() * prec.num(), fraction.den() * prec.den(), 0);
            lemma_pow10_positive(pm.scale as nat);
            assert(mul1.num() * pm.num() <= (c * p * p) * (mul1.den() * pm.den()))
                by (nonlinear_arith)
                requires
                    0 <= pm.num() <= p * pm.den(),
                    mul1.num() == c * p,
                    mul1.den() == 1,
                    c >= 0,
                    p >= 0,
            ;
            assert(0 <= mul1.num() * pm.num()) by (nonlinear_arith)
                requires
                    0 <= pm.num(),
                    mul1.num() == c * p,
                    c >= 0,
                    p >= 0,
            ;
            assert((c * p * p) * (mul1.den() * pm.den()) <= MAX_MANTISSA * (mul1.den() * pm.den()))
                by (nonlinear_arith)
                requires
                    c * p * p <= MAX_MANTISSA,
                    mul1.den() * pm.den() > 0,
            ;
        }
    }
    let mul2 = match checked_mul(mul1, percentage_mul_precision) {
        Some(d) => d,
        None => {
            return Err(Error::DecimalOperation);
        },
    };
    let supply = Decimal::from_u64(share_supply.val());
    proof {
        let z = Decimal { mantissa: 0, scale: 0, negative: false };
        assert(pow10(0) == 1);
        assert(z.den() == 1);
        assert(z.floor_value() == 0);
        assert(floor_of(z) == z);
        if good {
            let pm = percentage_mul_precision;
            lemma_pow10_positive(pm.scale as nat);
            lemma_rounded_at_most(mul2, mul1.num() * pm.num(), mul1.den() * pm.den(), c * p * p);
            lemma_rounded_at_least(mul2, mul1.num() * pm.num(), mul1.den() * pm.den(), 0);
            lemma_pow10_positive(mul2.scale as nat);
            assert(quotient_num(mul2, supply) == mul2.num());
            assert(quotient_den(mul2, supply) == mul2.den() * s);
            assert(mul2.num() <= (p * p) * (mul2.den() * s)) by (nonlinear_arith)
                requires
                    mul2.num() <= (c * p * p) * mul2.den(),
                    c <= s,
                    mul2.den() > 0,
                    p >= 0,
            ;
            assert(mul2.den() * s > 0) by (nonlinear_arith)
                requires
                    mul2.den() > 0,
                    s > 0,
            ;
            assert((p * p) * (mul2.den() * s) <= MAX_MANTISSA * (mul2.den() * s)) by (nonlinear_arith)
                requires
                    p * p <= MAX_MANTISSA,
                    mul2.den() * s > 0,
            ;
            assert(0 * (mul2.den() * s) <= mul2.num());
        }
    }
    let q = match checked_div(mul2, supply) {
        Some(q) => q,
        None => {
            return Err(Error::DecimalOperation);
        },
    };
    let entitled_percentage = floor(q);
    proof {
        if good {
            lemma_pow10_positive(mul2.scale as nat);
            assert(mul2.den() * s > 0) by (nonlinear_arith)
                requires
                    mul2.den() > 0,
                    s > 0,
            ;
            lemma_rounded_at_most(q, quotient_num(mul2, supply), quotient_den(mul2, supply), p * p);
            lemma_rounded_at_least(q, quotient_num(mul2, supply), quotient_den(mul2, supply), 0);
            lemma_floor_within(q, p * p);
            assert(p * p >= 0) by (nonlinear_arith);
            assert(prec.num() * prec.num() <= MAX_MANTISSA * (prec.den() * prec.den()));
        }
    }
    let precision_square = match checked_mul(prec, prec) {
        Some(d) => d,
        None => {
            return Err(Error::DecimalOperation);
        },
    };
    let received = Decimal::from_u64(central_received_total.val());
    proof {
        if good {
            let ep = entitled_percentage;
            assert(received.num() * ep.num() <= (big_r * p * p) * (received.den() * ep.den()))
                by (nonlinear_arith)
                requires
                    0 <= ep.num() <= p * p,
                    received.num() == big_r,
                    received.den() == 1,
                    ep.den() == 1,
                    big_r >= 0,
            ;
            assert(0 <= received.num() * ep.num()) by (nonlinear_arith)
                requires
                    0 <= ep.num(),
                    received.num() == big_r,
                    big_r >= 0,
            ;
            assert(-MAX_MANTISSA * (received.den() * ep.den()) <= received.num() * ep.num());
        }
    }
    let mul3 = match checked_mul(received, entitled_percentage) {
        Some(d) => d,
        None => {
            return Err(Error::DecimalOperation);
        },
    };
    proof {
        let z = Decimal { mantissa: 0, scale: 0, negative: false };
        assert(pow10(0) == 1);
        assert(z.den() == 1);
        assert(z.floor_value() == 0);
        assert(floor_of(z) == z);
        if share_supply.0 > 0 && precision > 0 {
            assert(precision_square.mantissa != 0);
            if locked_amount.0 == 0 {
                assert(mul1.mantissa == 0);
                assert(mul2 == z);
                assert(q == z);
                assert(entitled_percentage == z);
                assert(mul3 == z);
            }
            if central_received_total.0 == 0 {
                assert(mul3 == z);
            }
        }
        if good {
            let ep = entitled_percentage;
            lemma_rounded_at_most(precision_square, prec.num() * prec.num(), prec.den() * prec.den(), p * p);
            lemma_rounded_at_least(precision_square, prec.num() * prec.num(), prec.den() * prec.den(), p * p);
            lemma_rounded_at_most(mul3, received.num() * ep.num(), received.den() * ep.den(), big_r * p * p);
            lemma_rounded_at_least(mul3, received.num() * ep.num(), received.den() * ep.den(), 0);
            let ps = precision_square;
            lemma_pow10_positive(ps.scale as nat);
            lemma_pow10_positive(mul3.scale as nat);
            assert(ps.num() > 0) by (nonlinear_arith)
                requires
                    ps.num() == p * p * ps.den(),
                    p >= 1,
                    ps.den() > 0,
            ;
            assert(quotient_num(mul3, ps) == mul3.num() * ps.den());
            assert(quotient_den(mul3, ps) == mul3.den() * ps.num());
            assert(mul3.num() * ps.den() <= big_r * (mul3.den() * ps.num())) by (nonlinear_arith)
                requires
                    mul3.num() <= (big_r * p * p) * mul3.den(),
                    ps.num() == p * p * ps.den(),
                    ps.den() > 0,
            ;
            assert(big_r * (mul3.den() * ps.num()) <= MAX_MANTISSA * (mul3.den() * ps.num()))
                by (nonlinear_arith)
                requires
                    big_r <= MAX_MANTISSA,
                    mul3.den() * ps.num() > 0,
            ;
            assert(mul3.den() * ps.num() > 0) by (nonlinear_arith)
                requires
                    mul3.den() > 0,
                    ps.num() > 0,
            ;
            assert(0 <= mul3.num() * ps.den()) by (nonlinear_arith)
                requires
                    0 <= mul3.num(),
                    ps.den() > 0,
            ;
            assert(-MAX_MANTISSA * (mul3.den() * ps.num()) <= 0) by (nonlinear_arith)
                requires
                    mul3.den() * ps.num() > 0,
            ;
        }
    }
    match checked_div(mul3, precision_square) {
        Some(t) => {
            proof {
                if good {
                    let ps = precision_square;
                    lemma_pow10_positive(ps.scale as nat);
                    lemma_pow10_positive(mul3.scale as nat);
                    assert(mul3.den() * ps.num() > 0) by (nonlinear_arith)
                        requires
                            mul3.den() > 0,
                            ps.num() > 0,
                    ;
                    lemma_rounded_at_most(t, quotient_num(mul3, ps), quotient_den(mul3, ps), big_r);
                    lemma_rounded_at_least(t, quotient_num(mul3, ps), quotient_den(mul3, ps), 0);
                    lemma_floor_within(t, big_r);
                }
                if fraction.num() >= 0 {
                    lemma_entitled_total_monotone_facts(
                        fraction, prec, percentage_mul_precision, mul1, mul2, supply, q,
                        precision_square, received, mul3, t, p, s,
                    );
                    let pm = percentage_mul_precision;
                    let ep = entitled_percentage;
                    let ps = precision_square;
                    assert(entitled_percentage_of(fraction, share_supply.0, locked_amount.0, precision)
                        == Some(ep));
                    reveal(product_grows_with_first);
                    reveal(product_grows_with_second);
                    reveal(quotient_grows_with_dividend);
                    assert forall|r2: u64|
                        r2 >= central_received_total.0 && #[trigger] entitled_total_from_fraction(
                            r2,
                            fraction,
                            share_supply.0,
                            locked_amount.0,
                            precision,
                        ) is Some implies entitled_total_from_fraction(
                        r2,
                        fraction,
                        share_supply.0,
                        locked_amount.0,
                        precision,
                    )->0.wf() && value_le(
                        floor_of(t),
                        entitled_total_from_fraction(
                            r2,
                            fraction,
                            share_supply.0,
                            locked_amount.0,
                            precision,
                        )->0,
                    ) by {
                        let a2 = dec_of(r2);
                        assert(pow10(0) == 1);
                        assert(received.num() == big_r && a2.num() == r2);
                        assert(received.den() == 1 && a2.den() == 1);
                        assert(big_r <= r2);
                        assert(received.num() * a2.den() <= a2.num() * received.den());
                        assert(value_le(received, a2));
                        assert(a2.wf());
                        let m2 = decimal_product(a2, ep);
                        assert(m2 is Some);
                        let t2 = decimal_quotient(m2->0, ps);
                        assert(t2 is Some);
                        assert(value_le(t, t2->0));
                        lemma_floor_monotone(t, t2->0);
                        lemma_floor_of_wf(t2->0);
                    }
                    assert forall|c2: u64|
                        c2 >= locked_amount.0 && #[trigger] entitled_total_from_fraction(
                            central_received_total.0,
                            fraction,
                            share_supply.0,
                            c2,
                            precision,
                        ) is Some implies entitled_total_from_fraction(
                        central_received_total.0,
                        fraction,
                        share_supply.0,
                        c2,
                        precision,
                    )->0.wf() && value_le(
                        floor_of(t),
                        entitled_total_from_fraction(
                            central_received_total.0,
                            fraction,
                            share_supply.0,
                            c2,
                            precision,
                        )->0,
                    ) by {
                        assert(pow10(0) == 1);
                        assert(c2 * precision <= u64::MAX);
                        let m1 = dec_of((c2 * precision) as u64);
                        assert(c * p <= c2 * p) by (nonlinear_arith)
                            requires
                                c <= c2,
                                p >= 0,
                        ;
                        assert(mul1.num() == c * p && mul1.den() == 1);
                        assert(m1.num() == c2 * p && m1.den() == 1);
                        assert(value_le(mul1, m1));
                        assert(m1.wf());
                        let n2 = decimal_product(m1, pm);
                        assert(n2 is Some);
                        assert(value_le(mul2, n2->0));
                        let q2 = decimal_quotient(n2->0, supply);
                        assert(q2 is Some);
                        assert(value_le(q, q2->0));
                        lemma_floor_monotone(q, q2->0);
                        lemma_floor_of_wf(q2->0);
                        let ep2 = floor_of(q2->0);
                        assert(value_le(ep, ep2));
                        let m3 = decimal_product(received, ep2);
                        assert(m3 is Some);
                        assert(value_le(mul3, m3->0));
                        let t2 = decimal_quotient(m3->0, ps);
                        assert(t2 is Some);
                        assert(value_le(t, t2->0));
                        lemma_floor_monotone(t, t2->0);
                        lemma_floor_of_wf(t2->0);
                    }
                }
            }
            Ok(floor(t))
        },
        None => Err(Error::DecimalOperation),
    }
}

/// The bounds under which the entitled total is computed and is at most the total received:
/// a positive supply and precision, the investor's shares part of the supply, the investors'
/// fraction in [0, 1], and the products with the precision squared within the range of a
/// decimal's mantissa.
pub open spec fn dividend_in_range(
    received: u64,
    fraction: Decimal,
    share_supply: u64,
    locked: u64,
    precision: u64,
) -> bool {
    &&& share_supply > 0
    &&& precision > 0
    &&& locked <= share_supply
    &&& !fraction.negative
    &&& fraction.in_range(0, 1)
    &&& locked * precision <= u64::MAX
    &&& precision * precision <= MAX_MANTISSA
    &&& locked * precision * precision <= MAX_MANTISSA
    &&& received * precision * precision <= MAX_MANTISSA
}

/// The entitled total of an investor as an integer amount, from the investors' fraction of
/// the supply.
pub fn dividend_from_fraction(
    central_received_total: FundsAmount,
    fraction: Decimal,
    share_supply: ShareAmount,
    locked_amount: ShareAmount,
    precision: u64,
) -> (r: Result<FundsAmount, Error>)
    requires
        fraction.wf(),
    ensures
        r is Ok <==> dividend_from_fraction_spec(
            central_received_total.0,
            fraction,
            share_supply.0,
            locked_amount.0,
            precision,
        ) is Some,
        r matches Ok(v) ==> dividend_from_fraction_spec(
            central_received_total.0,
            fraction,
            share_supply.0,
            locked_amount.0,
            precision,
        ) == Some(v.0),
        r matches Err(e) ==> e == Error::Overflow || e == Error::DecimalOperation || e
            == Error::DecimalConversion,
        (r is Ok && share_supply.0 > 0 && precision > 0 && (locked_amount.0 == 0
            || central_received_total.0 == 0)) ==> r == Ok::<FundsAmount, Error>(FundsAmount(0)),
        dividend_in_range(
            central_received_total.0,
            fraction,
            share_supply.0,
            locked_amount.0,
            precision,
        ) ==> (r matches Ok(v) && v.0 <= central_received_total.0),
        r matches Ok(v) ==> (fraction.num() >= 0 ==> forall|r2: u64|
            r2 >= central_received_total.0 && #[trigger] dividend_from_fraction_spec(
                r2,
                fraction,
                share_supply.0,
                locked_amount.0,
                precision,
            ) is Some ==> v.0 <= dividend_from_fraction_spec(r2, fraction, share_supply.0, locked_amount.0, precision)->0),
        r matches Ok(v) ==> (fraction.num() >= 0 ==> forall|c2: u64|
            c2 >= locked_amount.0 && #[trigger] dividend_from_fraction_spec(
                central_received_total.0,
                fraction,
                share_supply.0,
                c2,
                precision,
            ) is Some ==> v.0 <= dividend_from_fraction_spec(central_received_total.0, fraction, share_supply.0, c2, precision)->0),
{
    proof {
        assert(pow10(0) == 1);
    }
    let total = entitled_total_decimal(
        central_received_total,
        fraction,
        share_supply,
        locked_amount,
        precision,
    )?;
    proof {
        if total.scale == 0 && !total.negative && 0 <= total.mantissa {
            assert(total.den() == 1);
            assert(total.num() / 1 == total.num());
            assert(total.trunc_value() == total.mantissa);
        }
    }
    proof {
        if fraction.num() >= 0 && u64_of(total) is Some {
            assert forall|r2: u64|
                r2 >= central_received_total.0 && #[trigger] dividend_from_fraction_spec(
                    r2,
                    fraction,
                    share_supply.0,
                    locked_amount.0,
                    precision,
                ) is Some implies u64_of(total)->0 <= dividend_from_fraction_spec(
                r2,
                fraction,
                share_supply.0,
                locked_amount.0,
                precision,
            )->0 by {
                let t2 = entitled_total_from_fraction(r2, fraction, share_supply.0, locked_amount.0, precision);
                assert(t2 is Some);
                lemma_u64_of_monotone(total, t2->0);
            }
            assert forall|c2: u64|
                c2 >= locked_amount.0 && #[trigger] dividend_from_fraction_spec(
                    central_received_total.0,
                    fraction,
                    share_supply.0,
                    c2,
                    precision,
                ) is Some implies u64_of(total)->0 <= dividend_from_fraction_spec(
                central_received_total.0,
                fraction,
                share_supply.0,
                c2,
                precision,
            )->0 by {
                let t2 = entitled_total_from_fraction(central_received_total.0, fraction, share_supply.0, c2, precision);
                assert(t2 is Some);
                lemma_u64_of_monotone(total, t2->0);
            }
        }
    }
    match to_u64(total) {
        Some(v) => Ok(FundsAmount::new(v)),
        None => Err(Error::DecimalConversion),
    }
}

} // verus!
