use capi_core::amounts::{FundsAmount, MicroAlgos, ShareAmount};
use capi_core::error::Error;
use capi_core::flows::claim::{claimable_dividend, total_entitled_dividend};
use capi_core::flows::harvest::{calculate_entitled_harvest, investor_can_harvest_amount_calc};
use capi_core::flows::percent_harvest;

// 10 of 100 shares, investors get 40% of the income: 4% of what was received.
#[test]
fn entitled_dividend_is_the_share_of_the_investors_part() {
    let r = total_entitled_dividend(FundsAmount(1000), ShareAmount(100), ShareAmount(10), 10_000, ShareAmount(40));
    assert_eq!(Ok(FundsAmount(40)), r);
}

#[test]
fn entitled_dividend_rounds_down() {
    // 4% of 999 is 39.96
    let r = total_entitled_dividend(FundsAmount(999), ShareAmount(100), ShareAmount(10), 10_000, ShareAmount(40));
    assert_eq!(Ok(FundsAmount(39)), r);
}

#[test]
fn nothing_locked_entitles_to_nothing() {
    let r = total_entitled_dividend(FundsAmount(1000), ShareAmount(100), ShareAmount(0), 10_000, ShareAmount(40));
    assert_eq!(Ok(FundsAmount(0)), r);
    let r = total_entitled_dividend(FundsAmount(0), ShareAmount(100), ShareAmount(10), 10_000, ShareAmount(40));
    assert_eq!(Ok(FundsAmount(0)), r);
}

#[test]
fn zero_supply_is_refused() {
    let r = total_entitled_dividend(FundsAmount(1000), ShareAmount(0), ShareAmount(10), 10_000, ShareAmount(40));
    assert!(r.is_err());
}

#[test]
fn overflowing_locked_times_precision_is_refused() {
    let r = total_entitled_dividend(FundsAmount(1000), ShareAmount(100), ShareAmount(u64::MAX), 10, ShareAmount(40));
    assert_eq!(Err(Error::Overflow), r);
}

#[test]
fn claimable_is_entitled_minus_claimed() {
    let r = claimable_dividend(FundsAmount(1000), FundsAmount(15), ShareAmount(100), ShareAmount(10), 10_000, ShareAmount(40));
    assert_eq!(Ok(FundsAmount(25)), r);
}

#[test]
fn claiming_all_leaves_nothing() {
    let c = claimable_dividend(FundsAmount(1000), FundsAmount(15), ShareAmount(100), ShareAmount(10), 10_000, ShareAmount(40)).unwrap();
    let r = claimable_dividend(FundsAmount(1000), FundsAmount(15 + c.0), ShareAmount(100), ShareAmount(10), 10_000, ShareAmount(40));
    assert_eq!(Ok(FundsAmount(0)), r);
}

#[test]
fn claimed_more_than_entitled_is_an_underflow() {
    let r = claimable_dividend(FundsAmount(1000), FundsAmount(50), ShareAmount(100), ShareAmount(10), 10_000, ShareAmount(40));
    assert_eq!(Err(Error::Underflow), r);
}

#[test]
fn entitled_harvest_matches_the_dividend() {
    let r = calculate_entitled_harvest(FundsAmount(1000), ShareAmount(100), ShareAmount(10), 10_000, ShareAmount(40));
    assert_eq!(Ok(FundsAmount(40)), r);
    let r = investor_can_harvest_amount_calc(FundsAmount(1000), FundsAmount(10), ShareAmount(10), ShareAmount(100), 10_000, ShareAmount(40));
    assert_eq!(Ok(FundsAmount(30)), r);
    let r = investor_can_harvest_amount_calc(FundsAmount(1000), FundsAmount(41), ShareAmount(10), ShareAmount(100), 10_000, ShareAmount(40));
    assert_eq!(Err(Error::Underflow), r);
}

#[test]
fn percent_harvest_takes_the_share_in_percent() {
    let r = percent_harvest::calculate_entitled_harvest(MicroAlgos(1000), 100, 10, 10_000, 40);
    assert_eq!(Ok(MicroAlgos(40)), r);
    let r = percent_harvest::investor_can_harvest_amount_calc(MicroAlgos(1000), MicroAlgos(40), 10, 100, 10_000, 40);
    assert_eq!(Ok(MicroAlgos(0)), r);
    let r = percent_harvest::investor_can_harvest_amount_calc(MicroAlgos(1000), MicroAlgos(41), 10, 100, 10_000, 40);
    assert_eq!(Err(Error::Underflow), r);
}

#[test]
fn percent_harvest_with_zero_supply_is_refused() {
    let r = percent_harvest::calculate_entitled_harvest(MicroAlgos(1000), 0, 10, 10_000, 40);
    assert!(r.is_err());
}

// A third of the supply for the investors: the fraction is rounded, the harvest stays within
// what was received.
#[test]
fn entitled_harvest_never_exceeds_what_was_received() {
    let r = calculate_entitled_harvest(FundsAmount(1_000_000), ShareAmount(3), ShareAmount(3), 1_000_000, ShareAmount(3));
    assert_eq!(Ok(FundsAmount(1_000_000)), r);
    let r = calculate_entitled_harvest(FundsAmount(1_000_000), ShareAmount(3), ShareAmount(2), 1_000_000, ShareAmount(1));
    let v = r.unwrap();
    assert!(v.0 <= 1_000_000);
    assert_eq!(FundsAmount(222_222), v);
}

#[test]
fn entitled_harvest_of_half_the_supply() {
    let r = calculate_entitled_harvest(FundsAmount(100), ShareAmount(10), ShareAmount(5), 1000, ShareAmount(4));
    assert_eq!(Ok(FundsAmount(20)), r);
}

#[test]
fn entitled_harvest_grows_with_what_was_received_and_the_shares() {
    let h = |received: u64, count: u64| {
        calculate_entitled_harvest(FundsAmount(received), ShareAmount(3), ShareAmount(count), 1_000_000, ShareAmount(1))
            .unwrap()
            .0
    };
    assert!(h(1_000, 2) <= h(1_001, 2));
    assert!(h(999_999, 1) <= h(1_000_000, 1));
    assert!(h(1_000_000, 1) <= h(1_000_000, 2));
    assert!(h(1_000_000, 2) <= h(1_000_000, 3));
}
