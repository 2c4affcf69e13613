use capi_core::decimal::Decimal;
use capi_core::error::Error;
use capi_core::amounts::ShareAmount;
use capi_core::shares::{SharesPercentage, SharesRoundingMode};

fn dec(text: &str) -> Decimal {
    let d: rust_decimal::Decimal = text.parse().unwrap();
    Decimal { mantissa: d.mantissa(), scale: d.scale(), negative: d.is_sign_negative() }
}

fn percentage(text: &str) -> Result<SharesPercentage, Error> {
    SharesPercentage::try_from(dec(text))
}

#[test]
fn test_shares_error_when_created_with_larger_than_1() {
    let res = percentage("1.000000001");
    assert!(res.is_err());

    let res = percentage("1.1");
    assert!(res.is_err());

    let res = percentage("2");
    assert!(res.is_err());
}

#[test]
fn test_shares_error_when_created_with_less_than_0() {
    let res = percentage("-0.00000001");
    assert!(res.is_err());

    let res = percentage("-1.1");
    assert!(res.is_err());

    let res = percentage("-2");
    assert!(res.is_err());
}

#[test]
fn is_created_with_0() {
    let res = percentage("0");
    assert!(res.is_ok());
}

#[test]
fn is_created_with_1() {
    let res = percentage("1");
    assert!(res.is_ok());
}

#[test]
fn is_created_with_value_between_0_1() {
    let res = percentage("0.31231321");
    assert!(res.is_ok());
}

#[test]
fn is_created_with_small_value_higher_than_0() {
    let res = percentage("0.000000000001");
    assert!(res.is_ok());
}

#[test]
fn is_created_with_value_slightly_lower_than_1() {
    let res = percentage("0.999999999999");
    assert!(res.is_ok());
}

#[test]
fn refused_percentage_is_an_invalid_percentage_error() {
    assert_eq!(Some(Error::InvalidPercentage), percentage("1.5").err());
}

#[test]
fn value_is_the_accepted_decimal() {
    let p = percentage("0.25").unwrap();
    assert_eq!(dec("0.25"), p.value());
}

#[test]
fn negative_zero_is_accepted() {
    let d = Decimal { mantissa: 0, scale: 3, negative: true };
    assert!(SharesPercentage::try_from(d).is_ok());
}

#[test]
fn to_u64_gives_points() {
    assert_eq!(Ok(40), percentage("0.4").unwrap().to_u64());
    assert_eq!(Ok(33), percentage("0.3333").unwrap().to_u64());
    assert_eq!(Ok(100), percentage("1").unwrap().to_u64());
    assert_eq!(Ok(0), percentage("0").unwrap().to_u64());
}

#[test]
fn apply_to_rounds_by_mode() {
    let p = percentage("0.5").unwrap();
    assert_eq!(Ok(2), p.apply_to(ShareAmount(5), SharesRoundingMode::Floor));
    assert_eq!(Ok(3), p.apply_to(ShareAmount(5), SharesRoundingMode::Ceil));
    assert_eq!(Ok(0), percentage("0").unwrap().apply_to(ShareAmount(5), SharesRoundingMode::Ceil));
}

// The product's mantissa fits only after its trailing zeros are dropped.
#[test]
fn apply_to_is_exact_where_trailing_zeros_are_dropped() {
    let p = percentage("0.5000000000").unwrap();
    assert_eq!(Ok(5_000_000_000_000_000_000), p.apply_to(ShareAmount(10_000_000_000_000_000_000), SharesRoundingMode::Floor));
    assert_eq!(Ok(5_000_000_000_000_000_000), p.apply_to(ShareAmount(10_000_000_000_000_000_000), SharesRoundingMode::Ceil));
}
