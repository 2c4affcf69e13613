use vstd::prelude::*;

use crate::amounts::{FundsAmount, FundsAssetId, MicroAlgos, ShareAmount};
use crate::chain::program_address_of;
use crate::teal::{ContractAccount, SignedTxn};
use crate::tx::{built, call_app, transfer_asset, Address, OnComplete, TxParams, Txn, TxnTypeView, TxnView};
use crate::txgroup::{group_of_two_paid_by_first, paid_group_of_two};
use crate::decimal::{
    checked_div, lemma_pow10_positive, pow10, quotient_den, quotient_num, to_u128, u64_of, Decimal,
    MAX_MANTISSA,
};
use crate::dividend::{
    dividend_in_range, entitled_dividend, entitled_total_decimal, entitled_total_from_fraction,
    investors_fraction, lemma_rounded_at_least, lemma_rounded_at_most, lemma_u64_of_monotone,
};
use crate::error::Error;

verus! {

/// The total amount an investor holding `share_count` shares is entitled to harvest, based on
/// the total received by the DAO, with the arithmetic of the DAO's TEAL program. Does not
/// account for already harvested funds.
pub fn calculate_entitled_harvest(
    central_received_total: FundsAmount,
    share_supply: ShareAmount,
    share_count: ShareAmount,
    precision: u64,
    investors_part: ShareAmount,
) -> (r: Result<FundsAmount, Error>)
    ensures
        r is Ok <==> entitled_dividend(
            central_received_total.0,
            share_supply.0,
            share_count.0,
            precision,
            investors_part.0,
        ) is Some,
        r matches Ok(v) ==> entitled_dividend(
            central_received_total.0,
            share_supply.0,
            share_count.0,
            precision,
            investors_part.0,
        ) == Some(v.0),
        r matches Err(e) ==> e == Error::Overflow || e == Error::DecimalOperation || e
            == Error::DecimalConversion,
        share_supply.0 == 0 ==> r is Err,
        (r is Ok && share_supply.0 > 0 && precision > 0 && (share_count.0 == 0
            || central_received_total.0 == 0)) ==> r == Ok::<FundsAmount, Error>(FundsAmount(0)),
        harvest_in_range(
            central_received_total.0,
            share_supply.0,
            share_count.0,
            precision,
            investors_part.0,
        ) ==> (r matches Ok(v) && v.0 <= central_received_total.0),
        r matches Ok(v) ==> forall|r2: u64|
            r2 >= central_received_total.0 && #[trigger] entitled_dividend(
                r2,
                share_supply.0,
                share_count.0,
                precision,
                investors_part.0,
            ) is Some ==> v.0 <= entitled_dividend(r2, share_supply.0, share_count.0, precision, investors_part.0)->0,
        r matches Ok(v) ==> forall|c2: u64|
            c2 >= share_count.0 && #[trigger] entitled_dividend(
                central_received_total.0,
                share_supply.0,
                c2,
                precision,
                investors_part.0,
            ) is Some ==> v.0 <= entitled_dividend(central_received_total.0, share_supply.0, c2, precision, investors_part.0)->0,
{
    let ip = Decimal::from_u64(investors_part.val());
    let supply = Decimal::from_u64(share_supply.val());
    proof {
        if harvest_in_range(
            central_received_total.0,
            share_supply.0,
            share_count.0,
            precision,
            investors_part.0,
        ) {
            assert(quotient_num(ip, supply) == investors_part.0);
            assert(quotient_den(ip, supply) == share_supply.0);
            assert(investors_part.0 <= MAX_MANTISSA * share_supply.0) by (nonlinear_arith)
                requires
                    investors_part.0 <= share_supply.0,
                    share_supply.0 > 0,
            ;
        }
    }
    let fraction = match checked_div(
        ip,
        supply,
    ) {
        Some(f) => f,
        None => {
            return Err(Error::DecimalOperation);
        },
    };
    proof {
        if harvest_in_range(
            central_received_total.0,
            share_supply.0,
            share_count.0,
            precision,
            investors_part.0,
        ) {
            lemma_pow10_positive(fraction.scale as nat);
            assert(investors_part.0 <= 1 * share_supply.0);
            assert(investors_part.0 >= 0 * share_supply.0);
            lemma_rounded_at_most(fraction, quotient_num(ip, supply), quotient_den(ip, supply), 1);
            lemma_rounded_at_least(fraction, quotient_num(ip, supply), quotient_den(ip, supply), 0);
            assert(fraction.in_range(0, 1));
            assert(dividend_in_range(
                central_received_total.0,
                fraction,
                share_supply.0,
                share_count.0,
                precision,
            ));
        }
    }
    let entitled_total = entitled_total_decimal(
        central_received_total,
        fraction,
        share_supply,
        share_count,
        precision,
    )?;
    proof {
        if entitled_total.scale == 0 && !entitled_total.negative && 0 <= entitled_total.mantissa {
            assert(pow10(0) == 1);
            assert(entitled_total.den() == 1);
            assert(entitled_total.num() / 1 == entitled_total.num());
            assert(entitled_total.trunc_value() == entitled_total.mantissa);
        }
    }
    let wide = match to_u128(entitled_total) {
        Some(v) => v,
        None => {
            return Err(Error::DecimalConversion);
        },
    };
    if wide <= 0xffff_ffff_ffff_ffffu128 {
        proof {
            lemma_pow10_positive(fraction.scale as nat);
            assert(pow10(0) == 1);
            assert(share_supply.0 > 0);
            assert(quotient_num(ip, supply) == investors_part.0 * 1);
            assert(quotient_den(ip, supply) == 1 * share_supply.0);
            assert(investors_part.0 * 1 >= 0 * (1 * share_supply.0));
            lemma_rounded_at_least(fraction, quotient_num(ip, supply), quotient_den(ip, supply), 0);
            assert(investors_fraction(investors_part.0, share_supply.0) == Some(fraction));
            let v = wide as u64;
            assert(u64_of(entitled_total) == Some(v));
            assert forall|r2: u64|
                r2 >= central_received_total.0 && #[trigger] entitled_dividend(
                    r2,
                    share_supply.0,
                    share_count.0,
                    precision,
                    investors_part.0,
                ) is Some implies v <= entitled_dividend(
                r2,
                share_supply.0,
                share_count.0,
                precision,
                investors_part.0,
            )->0 by {
                let t2 = entitled_total_from_fraction(r2, fraction, share_supply.0, share_count.0, precision);
                assert(t2 is Some);
                lemma_u64_of_monotone(entitled_total, t2->0);
            }
            assert forall|c2: u64|
                c2 >= share_count.0 && #[trigger] entitled_dividend(
                    central_received_total.0,
                    share_supply.0,
                    c2,
                    precision,
                    investors_part.0,
                ) is Some implies v <= entitled_dividend(
                central_received_total.0,
                share_supply.0,
                c2,
                precision,
                investors_part.0,
            )->0 by {
                let t2 = entitled_total_from_fraction(central_received_total.0, fraction, share_supply.0, c2, precision);
                assert(t2 is Some);
                lemma_u64_of_monotone(entitled_total, t2->0);
            }
        }
        Ok(FundsAmount::new(wide as u64))
    } else {
        Err(Error::DecimalConversion)
    }
}

/// The bounds under which an investor's entitled harvest is computed and is at most the total
/// received: a positive supply and precision, the investor's shares and the investors' part
/// both part of the supply, and the products with the precision squared within the range of a
/// decimal's mantissa.
pub open spec fn harvest_in_range(
    received: u64,
    share_supply: u64,
    share_count: u64,
    precision: u64,
    investors_part: u64,
) -> bool {
    &&& share_supply > 0
    &&& precision > 0
    &&& share_count <= share_supply
    &&& investors_part <= share_supply
    &&& share_count * precision <= u64::MAX
    &&& precision * precision <= MAX_MANTISSA
    &&& share_count * precision * precision <= MAX_MANTISSA
    &&& received * precision * precision <= MAX_MANTISSA
}

/// The largest amount an investor can harvest: what the shares entitle to minus what was
/// already harvested.
pub fn investor_can_harvest_amount_calc(
    central_received_total: FundsAmount,
    harvested_total: FundsAmount,
    share_amount: ShareAmount,
    share_supply: ShareAmount,
    precision: u64,
    investors_part: ShareAmount,
) -> (r: Result<FundsAmount, Error>)
    ensures
        r is Ok <==> (entitled_dividend(
            central_received_total.0,
            share_supply.0,
            share_amount.0,
            precision,
            investors_part.0,
        ) matches Some(e) && e >= harvested_total.0),
        r matches Ok(v) ==> entitled_dividend(
            central_received_total.0,
            share_supply.0,
            share_amount.0,
            precision,
            investors_part.0,
        ) matches Some(e) && e == v.0 + harvested_total.0,
        r matches Err(e) ==> e == Error::Overflow || e == Error::DecimalOperation || e
            == Error::DecimalConversion || e == Error::Underflow,
{
    let entitled_total = calculate_entitled_harvest(
        central_received_total,
        share_supply,
        share_amount,
        precision,
        investors_part,
    )?;
    match entitled_total.val().checked_sub(harvested_total.val()) {
        Some(v) => Ok(FundsAmount::new(v)),
        None => Err(Error::Underflow),
    }
}

/// The harvester's call of the central application: no arguments.
pub open spec fn harvest_call_view(params: TxParams, app_id: u64, sender: Address) -> TxnView {
    built(
        params,
        sender,
        TxnTypeView::ApplicationCall {
            app_id,
            on_complete: OnComplete::NoOp,
            app_arguments: None,
            accounts: None,
            foreign_assets: None,
        },
    )
}

/// The call of the central application with which an investor harvests.
pub fn harvest_app_call_tx(app_id: u64, params: &TxParams, sender: &Address) -> (r: Result<
    Txn,
    Error,
>)
    requires
        params.wf(),
    ensures
        r matches Ok(tx) && tx@ == harvest_call_view(*params, app_id, *sender),
{
    Ok(call_app(params, *sender, app_id, OnComplete::NoOp, None, None, None))
}

/// The transactions of a harvest: the harvester's call of the central application, and the
/// transfer of the harvested funds from the central escrow, signed by the escrow.
#[derive(Debug)]
pub struct HarvestToSign {
    pub app_call_tx: Txn,
    pub harvest_tx: SignedTxn,
}

/// The transfer of the harvested funds from the central escrow to the harvester, whose fee
/// the harvester's call pays.
pub open spec fn harvest_transfer_view(
    params: TxParams,
    escrow: Address,
    funds_asset_id: u64,
    amount: u64,
    harvester: Address,
) -> TxnView {
    built(
        params,
        escrow,
        TxnTypeView::AssetTransfer { asset_id: funds_asset_id, amount, receiver: harvester },
    ).with_fee(0)
}

/// The harvest of `amount` of the funds: the harvester's call of the central application,
/// which pays the fees of both, and the transfer from the central escrow, in one group; the
/// transfer signed by the escrow's program.
pub fn harvest(
    harvester: &Address,
    central_app_id: u64,
    funds_asset_id: FundsAssetId,
    amount: FundsAmount,
    central_escrow: &ContractAccount,
    params: &TxParams,
) -> (r: Result<HarvestToSign, Error>)
    requires
        params.wf(),
    ensures
        r is Ok <==> paid_group_of_two(
            harvest_call_view(*params, central_app_id, *harvester),
            harvest_transfer_view(
                *params,
                program_address_of(central_escrow.program_bytes()),
                funds_asset_id.0,
                amount.0,
                *harvester,
            ),
            params.fee_per_byte,
            params.min_fee,
        ) is Some,
        r matches Ok(ts) ==> paid_group_of_two(
            harvest_call_view(*params, central_app_id, *harvester),
            harvest_transfer_view(
                *params,
                program_address_of(central_escrow.program_bytes()),
                funds_asset_id.0,
                amount.0,
                *harvester,
            ),
            params.fee_per_byte,
            params.min_fee,
        ) == Some((ts.app_call_tx@, ts.harvest_tx.transaction@)) && ts.harvest_tx.program@
            == central_escrow.program_bytes(),
        r matches Err(e) ==> e == Error::FeeEstimation || e == Error::Overflow || e
            == Error::InvalidGroup,
{
    let app_call_tx = harvest_app_call_tx(central_app_id, params, harvester)?;
    let mut harvest_tx = transfer_asset(
        params,
        *central_escrow.address(),
        funds_asset_id.0,
        amount.val(),
        *harvester,
    );
    harvest_tx.fee = MicroAlgos(0);
    let (app_call_tx, harvest_tx) = group_of_two_paid_by_first(params, app_call_tx, harvest_tx)?;
    let signed_harvest_tx = central_escrow.sign(harvest_tx);
    Ok(HarvestToSign { app_call_tx, harvest_tx: signed_harvest_tx })
}

} // verus!
