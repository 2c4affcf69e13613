//! Harvesting from a project whose central application takes the investors' share in percent
//! and pays in the native currency, each transaction with a fixed fee.
use vstd::prelude::*;

use crate::amounts::{FundsAmount, MicroAlgos, ShareAmount};
use crate::chain::program_address_of;
use crate::decimal::{
    checked_div, dec_of, decimal_quotient, exact_quotient_fits, has_value, pow10, quotient_den,
    quotient_is, quotient_num, to_u128, lemma_pow10_positive, Decimal,
};
use crate::flows::harvest::harvest_in_range;
use crate::dividend::{entitled_total_decimal, entitled_total_from_fraction};
use crate::error::Error;
use crate::teal::{ContractAccount, SignedTxn};
use crate::tx::{built, call_app, pay, Address, OnComplete, TxParams, Txn, TxnTypeView, TxnView};
use crate::txgroup::{group_of_three, grouped};

verus! {

/// The fixed fee of each transaction of a harvest.
pub const FIXED_FEE: u64 = 1_000u64;

/// The entitled total as an amount: the decimal total of the percent investors' share
/// (`investors_share / 100`) with its fraction dropped, taken modulo 2^64 (as the conversion
/// to `u64` truncates); `None` where an operation fails or the total's sign flag is negative.
pub open spec fn entitled_harvest_of(
    received: u64,
    share_supply: u64,
    share_count: u64,
    precision: u64,
    investors_share: u64,
) -> Option<u64> {
    match decimal_quotient(dec_of(investors_share), dec_of(100)) {
        None => None,
        Some(fraction) => harvest_from_fraction(received, fraction, share_supply, share_count, precision),
    }
}

/// The entitled total as an amount, from the investors' fraction of the income (its fraction
/// dropped, taken modulo 2^64); `None` where an operation fails or the total's sign flag is
/// negative.
pub open spec fn harvest_from_fraction(
    received: u64,
    fraction: Decimal,
    share_supply: u64,
    share_count: u64,
    precision: u64,
) -> Option<u64> {
    match entitled_total_from_fraction(received, fraction, share_supply, share_count, precision) {
        None => None,
        Some(total) => if total.negative {
            None
        } else {
            Some((total.trunc_value() % 0x1_0000_0000_0000_0000) as u64)
        },
    }
}

/// Every percent harvest of the investors' share is the harvest from `fraction`, whatever the
/// supply, the share count, the total received and the precision.
pub open spec fn harvest_uses_fraction(investors_share: u64, fraction: Decimal) -> bool {
    forall|received: u64, share_supply: u64, share_count: u64, precision: u64|
        #[trigger] entitled_harvest_of(received, share_supply, share_count, precision, investors_share)
            == harvest_from_fraction(received, fraction, share_supply, share_count, precision)
}

/// The investors' fraction of a percent harvest is one decimal for every supply, share
/// count, total received and precision: the harvest depends on the supply only through the
/// computation that shares the income by the shares, never through the fraction itself.
pub proof fn lemma_percent_fraction_ignores_the_supply(investors_share: u64)
    ensures
        (forall|received: u64, share_supply: u64, share_count: u64, precision: u64|
            #[trigger] entitled_harvest_of(received, share_supply, share_count, precision, investors_share)
                is None) || exists|fraction: Decimal| #[trigger] harvest_uses_fraction(investors_share, fraction),
{
    match decimal_quotient(dec_of(investors_share), dec_of(100)) {
        None => {},
        Some(fraction) => {
            assert forall|received: u64, share_supply: u64, share_count: u64, precision: u64|
                #[trigger] entitled_harvest_of(received, share_supply, share_count, precision, investors_share)
                    == harvest_from_fraction(received, fraction, share_supply, share_count, precision) by {}
            assert(harvest_uses_fraction(investors_share, fraction));
        },
    }
}

/// The total amount that `share_count` shares entitle to harvest, with the investors' share
/// in percent and the arithmetic of the central application's TEAL. Does not account for
/// already harvested funds.
pub fn calculate_entitled_harvest(
    central_received_total: MicroAlgos,
    share_supply: u64,
    share_count: u64,
    precision: u64,
    investors_share: u64,
) -> (r: Result<MicroAlgos, Error>)
    ensures
        r is Ok <==> entitled_harvest_of(
            central_received_total.0,
            share_supply,
            share_count,
            precision,
            investors_share,
        ) is Some,
        r matches Ok(v) ==> entitled_harvest_of(
            central_received_total.0,
            share_supply,
            share_count,
            precision,
            investors_share,
        ) == Some(v.0),
        r matches Err(e) ==> e == Error::Overflow || e == Error::DecimalOperation || e
            == Error::DecimalConversion,
        (investors_share <= 100 && harvest_in_range(
            central_received_total.0,
            share_supply,
            share_count,
            precision,
            0,
        )) ==> (r matches Ok(v) && v.0 <= central_received_total.0),
        exists|fraction: Decimal|
            #[trigger] has_value(fraction, investors_share as int, 100) && fraction.wf()
                && entitled_harvest_of(
                central_received_total.0,
                share_supply,
                share_count,
                precision,
                investors_share,
            ) == harvest_from_fraction(
                central_received_total.0,
                fraction,
                share_supply,
                share_count,
                precision,
            ),
{
    let share = Decimal::from_u64(investors_share);
    let hundred = Decimal::from_u64(100);
    proof {
        assert(pow10(0) == 1);
        assert(pow10(2) == 100) by {
            reveal_with_fuel(pow10, 3);
        }
        assert(quotient_num(share, hundred) == investors_share as int * 1);
        assert(quotient_den(share, hundred) == 1 * 100);
        assert(quotient_is(share, hundred, investors_share as int, 2));
        assert(exact_quotient_fits(share, hundred));
    }
    let fraction = match checked_div(share, hundred) {
        Some(f) => f,
        None => {
            return Err(Error::DecimalOperation);
        },
    };
    proof {
        assert(has_value(fraction, investors_share as int, 100));
        if investors_share <= 100 {
            lemma_pow10_positive(fraction.scale as nat);
            assert(fraction.num() * 100 == investors_share as int * fraction.den());
            assert(0 <= fraction.num() <= fraction.den()) by (nonlinear_arith)
                requires
                    fraction.num() * 100 == investors_share as int * fraction.den(),
                    0 <= investors_share <= 100,
                    fraction.den() > 0,
            ;
            assert(fraction.in_range(0, 1));
        }
    }
    let total = entitled_total_decimal(
        FundsAmount(central_received_total.0),
        fraction,
        ShareAmount(share_supply),
        ShareAmount(share_count),
        precision,
    )?;
    proof {
        if total.scale == 0 && !total.negative && 0 <= total.mantissa {
            assert(pow10(0) == 1);
            assert(total.den() == 1);
            assert(total.num() / 1 == total.num());
            assert(total.trunc_value() == total.mantissa);
        }
    }
    match to_u128(total) {
        Some(v) => {
            let r: u64 = (v % 0x1_0000_0000_0000_0000u128) as u64;
            Ok(MicroAlgos(r))
        },
        None => Err(Error::DecimalConversion),
    }
}

/// The largest amount that an investor can harvest: what the shares entitle to minus what was
/// already harvested; refused where that would be negative.
pub fn investor_can_harvest_amount_calc(
    central_received_total: MicroAlgos,
    harvested_total: MicroAlgos,
    share_count: u64,
    share_supply: u64,
    precision: u64,
    investors_share: u64,
) -> (r: Result<MicroAlgos, Error>)
    ensures
        r is Ok <==> (entitled_harvest_of(
            central_received_total.0,
            share_supply,
            share_count,
            precision,
            investors_share,
        ) matches Some(e) && e >= harvested_total.0),
        r matches Ok(v) ==> entitled_harvest_of(
            central_received_total.0,
            share_supply,
            share_count,
            precision,
            investors_share,
        ) matches Some(e) && e == v.0 + harvested_total.0,
        r matches Err(e) ==> e == Error::Overflow || e == Error::DecimalOperation || e
            == Error::DecimalConversion || e == Error::Underflow,
{
    let entitled_total = calculate_entitled_harvest(
        central_received_total,
        share_supply,
        share_count,
        precision,
        investors_share,
    )?;
    match entitled_total.0.checked_sub(harvested_total.0) {
        Some(v) => Ok(MicroAlgos(v)),
        None => Err(Error::Underflow),
    }
}

/// The harvester's call of the central application: no arguments, the fixed fee.
pub open spec fn percent_harvest_call_view(params: TxParams, app_id: u64, sender: Address) -> TxnView {
    built(
        params,
        sender,
        TxnTypeView::ApplicationCall {
            app_id,
            on_complete: OnComplete::NoOp,
            app_arguments: None,
            accounts: None,
            foreign_assets: None,
        },
    ).with_fee(FIXED_FEE)
}

/// The call of the central application that accompanies a harvest.
pub fn harvest_app_call_tx(app_id: u64, params: &TxParams, sender: &Address) -> (r: Result<Txn, Error>)
    requires
        params.wf(),
    ensures
        r matches Ok(tx) && tx@ == percent_harvest_call_view(*params, app_id, *sender),
{
    let mut tx = call_app(params, *sender, app_id, OnComplete::NoOp, None, None, None);
    tx.fee = MicroAlgos(FIXED_FEE);
    Ok(tx)
}

/// The transactions of a harvest.
#[derive(Debug)]
pub struct HarvestToSign {
    pub app_call_tx: Txn,
    pub harvest_tx: SignedTxn,
    pub pay_fee_tx: Txn,
}

/// The three transactions of a harvest, before they are grouped: the call of the central
/// application, the central escrow's payment of the amount to the harvester, and the
/// harvester's payment of that payment's fee to the escrow; each with the fixed fee.
pub open spec fn percent_harvest_views(params: TxParams, harvester: Address, app_id: u64, escrow: Address, amount: u64) -> Seq<TxnView> {
    seq![
        percent_harvest_call_view(params, app_id, harvester),
        built(params, escrow, TxnTypeView::Payment { receiver: harvester, amount }).with_fee(FIXED_FEE),
        built(params, harvester, TxnTypeView::Payment { receiver: escrow, amount: FIXED_FEE }).with_fee(FIXED_FEE),
    ]
}

/// The harvest of `amount` from the central escrow: the call of the central application, the
/// escrow's payment (signed by the escrow) and the harvester's payment of its fee, in one
/// group.
pub fn harvest(
    harvester: &Address,
    central_app_id: u64,
    amount: MicroAlgos,
    central_escrow: &ContractAccount,
    params: &TxParams,
) -> (r: Result<HarvestToSign, Error>)
    requires
        params.wf(),
    ensures
        r is Ok <==> grouped(
            percent_harvest_views(
                *params,
                *harvester,
                central_app_id,
                program_address_of(central_escrow.program_bytes()),
                amount.0,
            ),
        ) is Some,
        r matches Ok(h) ==> grouped(
            percent_harvest_views(
                *params,
                *harvester,
                central_app_id,
                program_address_of(central_escrow.program_bytes()),
                amount.0,
            ),
        ) == Some(seq![h.app_call_tx@, h.harvest_tx.transaction@, h.pay_fee_tx@])
            && h.harvest_tx.program@ == central_escrow.program_bytes(),
        r matches Err(e) ==> e == Error::InvalidGroup,
{
    let mut harvest_tx = pay(params, *central_escrow.address(), *harvester, amount);
    harvest_tx.fee = MicroAlgos(FIXED_FEE);
    let mut pay_fee_tx = pay(params, *harvester, *central_escrow.address(), MicroAlgos(FIXED_FEE));
    pay_fee_tx.fee = MicroAlgos(FIXED_FEE);
    let app_call_tx = harvest_app_call_tx(central_app_id, params, harvester)?;
    let (app_call_tx, harvest_tx, pay_fee_tx) = group_of_three(app_call_tx, harvest_tx, pay_fee_tx)?;
    let signed = central_escrow.sign(harvest_tx);
    Ok(HarvestToSign { app_call_tx, harvest_tx: signed, pay_fee_tx })
}

} // verus!
