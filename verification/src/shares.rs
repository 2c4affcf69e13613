use vstd::prelude::*;

use crate::amounts::ShareAmount;
use crate::decimal::{
    ceil, ceil_of, checked_mul, checked_sub, dec_of, decimal_difference, decimal_product,
    floor, floor_of, le, lemma_pow10_bound, lemma_pow10_positive, lemma_same_floor,
    exact_product_fits, fits_dropping, one_spec, pow10, to_u64, u64_of, Decimal,
    MAX_MANTISSA,
};
use crate::error::Error;

verus! {

/// How a fractional number of shares is turned into a whole one.
#[derive(Debug, Clone, Copy, PartialEq, Eq, Structural)]
pub enum SharesRoundingMode {
    Floor,
    Ceil,
}

/// A percentage in the range [0, 1].
#[derive(Debug, Clone, Copy, PartialEq, Eq)]
pub struct SharesPercentage(Decimal);

/// The rounded decimal, by the given mode.
pub open spec fn rounded(d: Decimal, rounding: SharesRoundingMode) -> Decimal {
    match rounding {
        SharesRoundingMode::Floor => floor_of(d),
        SharesRoundingMode::Ceil => ceil_of(d),
    }
}

/// The share amount that a percentage gives of a supply: the decimal product, rounded by the
/// mode and converted to an integer.
pub open spec fn applied_percentage(p: Decimal, supply: u64, rounding: SharesRoundingMode) -> Option<
    u64,
> {
    match decimal_product(p, dec_of(supply)) {
        Some(d) => u64_of(rounded(d, rounding)),
        None => None,
    }
}

/// The exact share amount of a percentage of a supply, rounded by the mode.
pub open spec fn exact_share(p: Decimal, supply: u64, rounding: SharesRoundingMode) -> int {
    match rounding {
        SharesRoundingMode::Floor => (p.num() * supply) / p.den(),
        SharesRoundingMode::Ceil => -((-(p.num() * supply)) / p.den()),
    }
}

/// The percentage in points (hundredths) as an integer: the decimal product with 100, its
/// fraction dropped.
pub open spec fn percentage_points(p: Decimal) -> Option<u64> {
    match decimal_product(p, dec_of(100)) {
        Some(d) => u64_of(d),
        None => None,
    }
}

/// The complement `1 - p` of a percentage, as `rust_decimal` computes it.
pub open spec fn complement(p: Decimal) -> Decimal {
    decimal_difference(one_spec(), p).unwrap()
}

impl SharesPercentage {
    #[verifier::type_invariant]
    spec fn is_percentage(self) -> bool {
        self.0.wf() && self.0.in_range(0, 1)
    }

    /// The percentage as a decimal.
    pub closed spec fn dec(self) -> Decimal {
        self.0
    }

    /// Accepts a decimal in [0, 1]; refuses any other.
    pub fn try_from(value: Decimal) -> (r: Result<SharesPercentage, Error>)
        requires
            value.wf(),
        ensures
            r is Ok <==> value.in_range(0, 1),
            r matches Ok(p) ==> p.dec() == value,
            r matches Err(e) ==> e == Error::InvalidPercentage,
    {
        let min = Decimal::from_u64(0);
        let max = Decimal::one();
        if le(min, value) && le(value, max) {
            Ok(SharesPercentage(value))
        } else {
            Err(Error::InvalidPercentage)
        }
    }

    pub fn value(&self) -> (r: Decimal)
        ensures
            r == self.dec(),
            r.wf(),
            r.in_range(0, 1),
    {
        proof {
            use_type_invariant(self);
        }
        self.0
    }

    /// The percentage in points (hundredths) as an integer, as the application's state holds it;
    /// where the product is exact, `p * 100` with its fraction dropped.
    pub fn to_u64(&self) -> (r: Result<u64, Error>)
        ensures
            r is Ok <==> percentage_points(self.dec()) is Some,
            r matches Ok(v) ==> percentage_points(self.dec()) == Some(v),
            r matches Err(e) ==> e == Error::DecimalConversion,
            self.dec().mantissa * 100 <= MAX_MANTISSA ==> r == Ok::<u64, Error>(
                ((self.dec().num() * 100) / self.dec().den()) as u64,
            ),
    {
        proof {
            use_type_invariant(self);
        }
        let p = self.0;
        let hundred = Decimal::from_u64(100);
        let d = match checked_mul(p, hundred) {
            Some(d) => d,
            None => {
                return Err(Error::DecimalConversion);
            },
        };
        proof {
            if p.mantissa * 100 <= MAX_MANTISSA {
                lemma_pow10_positive(p.scale as nat);
                assert(pow10(0) == 1);
                if p.mantissa == 0 {
                    assert(p.num() * 100 == 0);
                    assert(0int / p.den() == 0);
                    assert(d.trunc_value() == 0);
                } else {
                    assert(!p.negative);
                    assert(d.num() == p.num() * 100);
                    assert(d.den() == p.den());
                    assert(0 <= p.num() * 100);
                    assert(0 <= (p.num() * 100) / p.den()) by (nonlinear_arith)
                        requires
                            0 <= p.num() * 100,
                            p.den() >= 1,
                    ;
                    assert((p.num() * 100) / p.den() <= 100) by (nonlinear_arith)
                        requires
                            0 <= p.num() <= p.den(),
                            p.den() >= 1,
                    ;
                    assert(d.trunc_value() == (p.num() * 100) / p.den());
                }
            }
        }
        match to_u64(d) {
            Some(v) => Ok(v),
            None => Err(Error::DecimalConversion),
        }
    }

    /// The share amount that this percentage gives of a supply, rounded by the mode.
    pub fn apply_to(&self, shares_supply: ShareAmount, rounding: SharesRoundingMode) -> (r: Result<
        u64,
        Error,
    >)
        ensures
            r is Ok <==> applied_percentage(self.dec(), shares_supply.0, rounding) is Some,
            r matches Ok(v) ==> applied_percentage(self.dec(), shares_supply.0, rounding)
                == Some(v),
            r matches Err(e) ==> e == Error::DecimalConversion,
            exact_product_fits(self.dec(), dec_of(shares_supply.0)) ==> (r == Ok::<u64, Error>(
                exact_share(self.dec(), shares_supply.0, rounding) as u64,
            ) && 0 <= exact_share(self.dec(), shares_supply.0, rounding) <= shares_supply.0),
    {
        proof {
            use_type_invariant(self);
        }
        let p = self.0;
        let supply = Decimal::from_u64(shares_supply.0);
        proof {
            lemma_pow10_positive(p.scale as nat);
            assert(p.num() * supply.num() <= p.den() * supply.num()) by (nonlinear_arith)
                requires
                    p.num() <= p.den(),
                    supply.num() >= 0,
            ;
            assert(0 <= p.num() * supply.num()) by (nonlinear_arith)
                requires
                    p.num() >= 0,
                    supply.num() >= 0,
            ;
        }
        let product = checked_mul(p, supply);
        let d = match product {
            Some(d) => d,
            None => {
                return Err(Error::DecimalConversion);
            },
        };
        let res = match rounding {
            SharesRoundingMode::Floor => floor(d),
            SharesRoundingMode::Ceil => ceil(d),
        };
        proof {
            if exact_product_fits(p, supply) {
                assert(pow10(0) == 1);
                if p.mantissa == 0 || shares_supply.0 == 0 {
                    assert(p.num() * supply.num() == 0) by (nonlinear_arith)
                        requires
                            p.num() == 0 || supply.num() == 0,
                    ;
                    assert(d.num() == 0);
                } else {
                    assert(!p.negative);
                }
                lemma_exact_share_fits(p, shares_supply.0, rounding, d);
            }
        }
        match to_u64(res) {
            Some(v) => Ok(v),
            None => Err(Error::DecimalConversion),
        }
    }
}

/// Where the product of a percentage and a supply is exact, its rounding is the exact share,
/// which fits a `u64`.
proof fn lemma_exact_share_fits(p: Decimal, supply: u64, rounding: SharesRoundingMode, d: Decimal)
    requires
        p.wf(),
        p.in_range(0, 1),
        d.wf(),
        !d.negative,
        d.num() * p.den() == p.num() * supply * d.den(),
    ensures
        u64_of(rounded(d, rounding)) == Some(exact_share(p, supply, rounding) as u64),
        0 <= exact_share(p, supply, rounding) <= supply,
{
    lemma_pow10_positive(p.scale as nat);
    let n = p.num() * supply;
    let den = p.den();
    assert(0 <= n <= den * supply) by (nonlinear_arith)
        requires
            0 <= p.num() <= den,
            supply >= 0,
            n == p.num() * supply,
    ;
    assert(n / den <= supply) by (nonlinear_arith)
        requires
            0 <= n <= den * supply,
            den >= 1,
    ;
    assert(-((-n) / den) <= supply) by (nonlinear_arith)
        requires
            0 <= n <= den * supply,
            den >= 1,
    ;
    assert(0 <= n / den) by (nonlinear_arith)
        requires
            0 <= n,
            den >= 1,
    ;
    assert(0 <= -((-n) / den)) by (nonlinear_arith)
        requires
            0 <= n,
            den >= 1,
    ;
    assert(pow10(0) == 1);
    let e = exact_share(p, supply, rounding);
    let r = rounded(d, rounding);
    lemma_pow10_positive(d.scale as nat);
    lemma_same_floor(d.num(), d.den(), n, den);
    assert(r.den() == 1);
    assert(r.num() / 1 == r.num());
    assert(r.num() == e);
    assert(!r.negative);
    assert(r.trunc_value() == e);
}

/// How the supply of shares is split between the creator and the investors.
#[derive(Debug, Clone, Copy, PartialEq, Eq, Structural)]
pub struct SharesDistributionSpecs {
    creator: u64,
    investors: u64,
}

/// The creator's and the investors' parts that an investors' percentage gives of a supply:
/// the creator's part from the complement of the percentage, floored, the investors' part
/// from the percentage, ceiled.
pub open spec fn distribution_of(p: Decimal, supply: u64) -> Option<(u64, u64)> {
    match (
        applied_percentage(complement(p), supply, SharesRoundingMode::Floor),
        applied_percentage(p, supply, SharesRoundingMode::Ceil),
    ) {
        (Some(c), Some(i)) => if c + i <= u64::MAX {
            Some((c, i))
        } else {
            None
        },
        _ => None,
    }
}

impl SharesDistributionSpecs {
    pub closed spec fn creator_spec(self) -> u64 {
        self.creator
    }

    pub closed spec fn investors_spec(self) -> u64 {
        self.investors
    }

    /// Calculates the creator's and the investors' parts from the investors' percentage
    /// entered by the creator: the creator's part is floored and the investors' part is
    /// ceiled, so fractions are resolved in favor of the investors.
    pub fn from_investors_percentage(percentage: &SharesPercentage, shares_supply: u64) -> (r:
        Result<SharesDistributionSpecs, Error>)
        ensures
            r is Ok <==> distribution_of(percentage.dec(), shares_supply) is Some,
            r matches Ok(s) ==> distribution_of(percentage.dec(), shares_supply) == Some(
                (s.creator_spec(), s.investors_spec()),
            ),
            r matches Err(e) ==> e == Error::DecimalConversion || e == Error::Overflow,
            percentage.dec().den() * shares_supply <= MAX_MANTISSA ==> (r matches Ok(s) && s.creator_spec()
                == exact_share(complement(percentage.dec()), shares_supply, SharesRoundingMode::Floor)
                && s.investors_spec() == exact_share(percentage.dec(), shares_supply, SharesRoundingMode::Ceil)
                && s.creator_spec() + s.investors_spec() == shares_supply),
            (exact_product_fits(percentage.dec(), dec_of(shares_supply)) && exact_product_fits(
                complement(percentage.dec()),
                dec_of(shares_supply),
            )) ==> (r matches Ok(s) && s.creator_spec() == exact_share(
                complement(percentage.dec()),
                shares_supply,
                SharesRoundingMode::Floor,
            ) && s.investors_spec() == exact_share(percentage.dec(), shares_supply, SharesRoundingMode::Ceil)
                && s.creator_spec() + s.investors_spec() == shares_supply),
    {
        let p = percentage.value();
        let one = Decimal::one();
        let c = checked_sub(one, p);
        let creator_dec = match c {
            Some(c) => c,
            None => {
                return Err(Error::DecimalOperation);
            },
        };
        assert(creator_dec.in_range(0, 1)) by {
            lemma_pow10_positive(p.scale as nat);
            if p.mantissa != 0 {
                assert(creator_dec.den() == p.den());
            } else {
                assert(pow10(0) == 1);
            }
        }
        let creator_percentage = match SharesPercentage::try_from(creator_dec) {
            Ok(cp) => cp,
            Err(e) => {
                return Err(e);
            },
        };
        let sup = ShareAmount::new(shares_supply);
        proof {
            if p.den() * shares_supply <= MAX_MANTISSA {
                lemma_pow10_positive(p.scale as nat);
                assert(p.mantissa * shares_supply <= p.den() * shares_supply) by (nonlinear_arith)
                    requires
                        p.num() <= p.den(),
                ;
                if p.mantissa != 0 {
                    assert(creator_dec.mantissa * shares_supply <= p.den() * shares_supply)
                        by (nonlinear_arith)
                        requires
                            creator_dec.num() <= p.den(),
                    ;
                } else {
                    assert(creator_dec.mantissa * shares_supply <= p.den() * shares_supply)
                        by (nonlinear_arith)
                        requires
                            creator_dec.num() == 1,
                            p.den() >= 1,
                    ;
                }
                lemma_fits_as_is(p, dec_of(shares_supply));
                lemma_fits_as_is(creator_dec, dec_of(shares_supply));
            }
        }
        let creator = match creator_percentage.apply_to(sup, SharesRoundingMode::Floor) {
            Ok(v) => v,
            Err(e) => {
                return Err(e);
            },
        };
        let investors = match percentage.apply_to(sup, SharesRoundingMode::Ceil) {
            Ok(v) => v,
            Err(e) => {
                return Err(e);
            },
        };
        proof {
            assert(complement(p) == complement_exact(p));
            if exact_product_fits(p, dec_of(shares_supply)) && exact_product_fits(
                creator_dec,
                dec_of(shares_supply),
            ) {
                lemma_parts_fit(p, shares_supply);
                assert(creator == exact_share(complement(p), shares_supply, SharesRoundingMode::Floor));
                assert(investors == exact_share(p, shares_supply, SharesRoundingMode::Ceil));
            }
        }
        SharesDistributionSpecs::new(creator, investors)
    }

    /// Accepts the creator's and the investors' parts where their sum fits a `u64`.
    pub fn new(creator: u64, investors: u64) -> (r: Result<SharesDistributionSpecs, Error>)
        ensures
            r is Ok <==> creator + investors <= u64::MAX,
            r matches Ok(s) ==> s.creator_spec() == creator && s.investors_spec() == investors,
            r matches Err(e) ==> e == Error::Overflow,
    {
        match creator.checked_add(investors) {
            Some(_) => Ok(SharesDistributionSpecs { creator, investors }),
            None => Err(Error::Overflow),
        }
    }

    pub fn investors(&self) -> (r: u64)
        ensures
            r == self.investors_spec(),
    {
        self.investors
    }

    pub fn creator(&self) -> (r: u64)
        ensures
            r == self.creator_spec(),
    {
        self.creator
    }
}

/// The ceiled share of a percentage is the floored share or one more.
pub proof fn lemma_ceil_share_at_most_one_more(p: Decimal, supply: u64)
    requires
        p.wf(),
    ensures
        0 <= exact_share(p, supply, SharesRoundingMode::Ceil) - exact_share(
            p,
            supply,
            SharesRoundingMode::Floor,
        ) <= 1,
{
    lemma_pow10_positive(p.scale as nat);
    let n = p.num() * supply;
    let d = p.den();
    assert(0 <= -((-n) / d) - n / d <= 1) by (nonlinear_arith)
        requires
            d >= 1,
    {
        vstd::arithmetic::div_mod::lemma_fundamental_div_mod(n, d);
        vstd::arithmetic::div_mod::lemma_fundamental_div_mod(-n, d);
        vstd::arithmetic::div_mod::lemma_mod_bound(n, d);
        vstd::arithmetic::div_mod::lemma_mod_bound(-n, d);
    }
}

/// A product of a decimal in [0, 1] and an integer whose mantissa fits as it is needs no
/// trailing zeros dropped.
proof fn lemma_fits_as_is(a: Decimal, b: Decimal)
    requires
        a.wf(),
        b.wf(),
        b.scale == 0,
        0 <= a.mantissa * b.mantissa <= MAX_MANTISSA,
    ensures
        exact_product_fits(a, b),
{
    assert(pow10(0) == 1);
    let m = a.mantissa * b.mantissa;
    assert(m % 1 == 0 && m / 1 == m);
    assert(fits_dropping(m, (a.scale + b.scale) as nat, 0));
}

/// The floored complement share and the ceiled share of a percentage add up to the supply.
proof fn lemma_parts_fit(p: Decimal, supply: u64)
    requires
        p.wf(),
        p.in_range(0, 1),
    ensures
        exact_share(complement_exact(p), supply, SharesRoundingMode::Floor) + exact_share(
            p,
            supply,
            SharesRoundingMode::Ceil,
        ) == supply,
{
    lemma_pow10_bound(p.scale as nat);
    let den = p.den();
    let n = p.num() * supply;
    let c = complement_exact(p);
    if p.mantissa == 0 {
        assert(pow10(0) == 1);
        assert(n == 0) by (nonlinear_arith)
            requires
                p.num() == 0,
                n == p.num() * supply,
        ;
        assert(c.den() == 1 && c.num() == 1);
        assert(c.num() * supply == supply);
        assert(supply as int / 1 == supply);
        assert((-n) / den == 0);
    } else {
        assert(c.den() == den);
        assert(c.num() * supply == den * supply - n) by (nonlinear_arith)
            requires
                c.num() == den - p.num(),
                n == p.num() * supply,
        ;
        vstd::arithmetic::div_mod::lemma_hoist_over_denominator(-n, supply as int, den as nat);
        assert(den * supply - n == (-n) + supply * den) by (nonlinear_arith);
    }
}

/// The complement that `rust_decimal` computes for a percentage: the decimal one for a zero
/// percentage, otherwise `10^scale - mantissa` at the scale of the percentage.
pub open spec fn complement_exact(p: Decimal) -> Decimal {
    if p.mantissa == 0 {
        one_spec()
    } else {
        Decimal { mantissa: (p.den() - p.num()) as i128, scale: p.scale, negative: false }
    }
}

} // verus!
