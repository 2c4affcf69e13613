use capi_core::decimal::Decimal;
use capi_core::error::Error;
use capi_core::shares::{SharesDistributionSpecs, SharesPercentage};

fn percentage(text: &str) -> Result<SharesPercentage, Error> {
    let d: rust_decimal::Decimal = text.parse().unwrap();
    SharesPercentage::try_from(Decimal { mantissa: d.mantissa(), scale: d.scale(), negative: d.is_sign_negative() })
}

fn distribution(text: &str, supply: u64) -> SharesDistributionSpecs {
    let shares_investor_percentage = percentage(text).unwrap();
    SharesDistributionSpecs::from_investors_percentage(&shares_investor_percentage, supply).unwrap()
}

#[test]
fn test_shares_distribution_with_only_integers() {
    let specs = distribution("0.3", 100);
    assert_eq!(30, specs.investors());
    assert_eq!(70, specs.creator());
}

#[test]
fn test_shares_distribution_with_fractionals() {
    let specs = distribution("0.33333333333333", 100);
    // value (33.3333333333) always ceiled for the investors
    assert_eq!(34, specs.investors());
    // value (66.6666666666) always floored for the owner
    assert_eq!(66, specs.creator());
}

#[test]
fn test_shares_distribution_largest_number_and_fractionals() {
    let specs = distribution("0.341", u64::MAX);
    assert_eq!(6290339729134957101, specs.investors());
    assert_eq!(12156404344574594514, specs.creator());
}

#[test]
fn test_shares_distribution_random() {
    let specs = distribution("0.45", 12_234_234_234);
    assert_eq!(5505405406, specs.investors());
    assert_eq!(6728828828, specs.creator());
}

#[test]
fn test_shares_distribution_investors_close_to_1() {
    let specs = distribution("0.999999999999", 10_000);
    assert_eq!(10_000, specs.investors());
    assert_eq!(0, specs.creator());
}

#[test]
fn test_shares_distribution_investors_close_to_0() {
    let specs = distribution("0.0000000001", 10_000);
    assert_eq!(1, specs.investors());
    assert_eq!(9_999, specs.creator());
}

#[test]
fn test_shares_distribution_investors_0() {
    let specs = distribution("0", 10_000_000);
    assert_eq!(0, specs.investors());
    assert_eq!(10_000_000, specs.creator());
}

#[test]
fn test_shares_distribution_investors_1() {
    let specs = distribution("1", 10_000_000_000_123);
    assert_eq!(10_000_000_000_123, specs.investors());
    assert_eq!(0, specs.creator());
}

#[test]
fn test_shares_distribution_investors_more_than_1() {
    let res = percentage("1.1");
    assert!(res.is_err());
}

#[test]
fn parts_add_up_to_the_supply() {
    for (p, supply) in [("0.3", 7u64), ("0.123456", 1_000_003), ("0.5", 1), ("0.999", 999_999)] {
        let specs = distribution(p, supply);
        assert_eq!(supply, specs.creator() + specs.investors());
    }
}

#[test]
fn new_refuses_parts_whose_sum_overflows() {
    assert_eq!(Some(Error::Overflow), SharesDistributionSpecs::new(u64::MAX, 1).err());
    let specs = SharesDistributionSpecs::new(3, 4).unwrap();
    assert_eq!(3, specs.creator());
    assert_eq!(4, specs.investors());
}
