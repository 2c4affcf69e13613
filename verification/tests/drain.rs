use capi_core::amounts::FundsAmount;
use capi_core::decimal::Decimal;
use capi_core::error::Error;
use capi_core::flows::drain::{calculate_dao_and_capi_escrow_xfer_amounts, to_drain_amounts, DaoAndCapiDrainAmounts};
use capi_core::shares::SharesPercentage;

fn percentage(text: &str) -> SharesPercentage {
    let d: rust_decimal::Decimal = text.parse().unwrap();
    SharesPercentage::try_from(Decimal { mantissa: d.mantissa(), scale: d.scale(), negative: d.is_sign_negative() }).unwrap()
}

#[test]
fn capi_gets_its_percentage_and_the_dao_the_rest() {
    let a = calculate_dao_and_capi_escrow_xfer_amounts(FundsAmount(1000), percentage("0.1")).unwrap();
    assert_eq!(FundsAmount(100), a.capi);
    assert_eq!(FundsAmount(900), a.dao);
}

#[test]
fn capi_fee_is_rounded_down() {
    let a = calculate_dao_and_capi_escrow_xfer_amounts(FundsAmount(10), percentage("0.333")).unwrap();
    assert_eq!(FundsAmount(3), a.capi);
    assert_eq!(FundsAmount(7), a.dao);
}

#[test]
fn parts_add_up_to_the_drained_amount() {
    for (amount, p) in [(0u64, "0.5"), (1, "0.99"), (u64::MAX, "0.123456789"), (12345, "1")] {
        let a = calculate_dao_and_capi_escrow_xfer_amounts(FundsAmount(amount), percentage(p)).unwrap();
        assert_eq!(amount, a.dao.0 + a.capi.0);
    }
}

#[test]
fn drain_amounts_are_of_what_is_not_yet_available() {
    let a = to_drain_amounts(FundsAmount(1500), FundsAmount(500), percentage("0.1")).unwrap();
    assert_eq!(DaoAndCapiDrainAmounts { dao: FundsAmount(900), capi: FundsAmount(100) }, a);
}

#[test]
fn holdings_below_available_is_an_underflow() {
    assert_eq!(Err(Error::Underflow), to_drain_amounts(FundsAmount(500), FundsAmount(600), percentage("0.1")));
}

#[test]
fn something_to_drain_where_the_dao_part_is_not_zero() {
    assert!(DaoAndCapiDrainAmounts { dao: FundsAmount(1), capi: FundsAmount(0) }.has_something_to_drain());
    assert!(!DaoAndCapiDrainAmounts { dao: FundsAmount(0), capi: FundsAmount(0) }.has_something_to_drain());
    let nothing = to_drain_amounts(FundsAmount(500), FundsAmount(500), percentage("0.1")).unwrap();
    assert!(!nothing.has_something_to_drain());
}

#[test]
fn capi_fee_is_exact_where_trailing_zeros_are_dropped() {
    let a = calculate_dao_and_capi_escrow_xfer_amounts(FundsAmount(1_000_000_000_000), percentage("0.1000000000000000000")).unwrap();
    assert_eq!(FundsAmount(100_000_000_000), a.capi);
    assert_eq!(FundsAmount(900_000_000_000), a.dao);
}

#[test]
fn zero_percentage_leaves_everything_to_the_dao() {
    let a = calculate_dao_and_capi_escrow_xfer_amounts(FundsAmount(777), percentage("0")).unwrap();
    assert_eq!(FundsAmount(0), a.capi);
    assert_eq!(FundsAmount(777), a.dao);
}
