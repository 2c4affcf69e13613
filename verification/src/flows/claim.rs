use vstd::prelude::*;

use vstd::string::StringSliceAdditionalSpecFns;

use crate::amounts::{DaoAppId, FundsAmount, FundsAssetId, ShareAmount};
use crate::teal::{ContractAccount, SignedTxn};
use crate::text::text_bytes;
use crate::tx::{built, call_app, transfer_asset, Address, OnComplete, TxParams, Txn, TxnTypeView, TxnView};
use crate::txgroup::{group_of_two_paid_by_first, paid_group_of_two};
use crate::chain::program_address_of;
use crate::decimal::{
    checked_div, lemma_pow10_positive, quotient_den, quotient_num, Decimal, MAX_MANTISSA,
};
use crate::dividend::{
    dividend_from_fraction, entitled_dividend, lemma_rounded_at_least, lemma_rounded_at_most,
};
use crate::flows::harvest::harvest_in_range;
use crate::error::Error;

verus! {

/// The total dividend the investor is entitled to, based on the locked shares and the total
/// received by the DAO. Does not account for already claimed funds.
pub fn total_entitled_dividend(
    central_received_total: FundsAmount,
    share_supply: ShareAmount,
    locked_amount: ShareAmount,
    precision: u64,
    investors_part: ShareAmount,
) -> (r: Result<FundsAmount, Error>)
    ensures
        r is Ok <==> entitled_dividend(
            central_received_total.0,
            share_supply.0,
            locked_amount.0,
            precision,
            investors_part.0,
        ) is Some,
        r matches Ok(v) ==> entitled_dividend(
            central_received_total.0,
            share_supply.0,
            locked_amount.0,
            precision,
            investors_part.0,
        ) == Some(v.0),
        r matches Err(e) ==> e == Error::Overflow || e == Error::DecimalOperation || e
            == Error::DecimalConversion,
        share_supply.0 == 0 ==> r is Err,
        (r is Ok && share_supply.0 > 0 && precision > 0 && (locked_amount.0 == 0
            || central_received_total.0 == 0)) ==> r == Ok::<FundsAmount, Error>(FundsAmount(0)),
        harvest_in_range(
            central_received_total.0,
            share_supply.0,
            locked_amount.0,
            precision,
            investors_part.0,
        ) ==> (r matches Ok(v) && v.0 <= central_received_total.0),
{
    let ghost good = harvest_in_range(
        central_received_total.0,
        share_supply.0,
        locked_amount.0,
        precision,
        investors_part.0,
    );
    let ip = Decimal::from_u64(investors_part.val());
    let supply = Decimal::from_u64(share_supply.val());
    proof {
        if good {
            assert(quotient_num(ip, supply) == investors_part.0);
            assert(quotient_den(ip, supply) == share_supply.0);
            assert(investors_part.0 <= MAX_MANTISSA * share_supply.0) by (nonlinear_arith)
                requires
                    investors_part.0 <= share_supply.0,
                    share_supply.0 > 0,
            ;
        }
    }
    let fraction = match checked_div(ip, supply) {
        Some(f) => f,
        None => {
            return Err(Error::DecimalOperation);
        },
    };
    proof {
        if good {
            lemma_pow10_positive(fraction.scale as nat);
            assert(investors_part.0 <= 1 * share_supply.0);
            assert(investors_part.0 >= 0 * share_supply.0);
            lemma_rounded_at_most(fraction, quotient_num(ip, supply), quotient_den(ip, supply), 1);
            lemma_rounded_at_least(fraction, quotient_num(ip, supply), quotient_den(ip, supply), 0);
            assert(fraction.in_range(0, 1));
        }
    }
    dividend_from_fraction(central_received_total, fraction, share_supply, locked_amount, precision)
}

/// What an investor can still claim: the dividend that the shares entitle to minus what was
/// already claimed; `None` where the dividend cannot be computed or is below the claimed total.
pub open spec fn claimable_of(
    received: u64,
    claimed: u64,
    share_supply: u64,
    share_amount: u64,
    precision: u64,
    investors_part: u64,
) -> Option<u64> {
    match entitled_dividend(received, share_supply, share_amount, precision, investors_part) {
        Some(e) => if e >= claimed {
            Some((e - claimed) as u64)
        } else {
            None
        },
        None => None,
    }
}

/// Claiming all that can be claimed leaves nothing to claim, as long as the total received
/// does not change.
pub proof fn lemma_claiming_all_leaves_nothing(
    received: u64,
    claimed: u64,
    share_supply: u64,
    share_amount: u64,
    precision: u64,
    investors_part: u64,
)
    requires
        claimable_of(received, claimed, share_supply, share_amount, precision, investors_part) is Some,
    ensures
        claimable_of(
            received,
            (claimed + claimable_of(received, claimed, share_supply, share_amount, precision, investors_part)->0) as u64,
            share_supply,
            share_amount,
            precision,
            investors_part,
        ) == Some(0u64),
{
}

/// The largest amount an investor can claim: what the locked shares entitle to, based on the
/// total received by the DAO, minus what was already claimed.
pub fn claimable_dividend(
    central_received_total: FundsAmount,
    claimed_total: FundsAmount,
    share_supply: ShareAmount,
    share_amount: ShareAmount,
    precision: u64,
    investors_part: ShareAmount,
) -> (r: Result<FundsAmount, Error>)
    ensures
        r is Ok <==> (entitled_dividend(
            central_received_total.0,
            share_supply.0,
            share_amount.0,
            precision,
            investors_part.0,
        ) matches Some(e) && e >= claimed_total.0),
        r matches Ok(v) ==> entitled_dividend(
            central_received_total.0,
            share_supply.0,
            share_amount.0,
            precision,
            investors_part.0,
        ) == Some((v.0 + claimed_total.0) as u64),
        r matches Ok(v) ==> claimable_of(
            central_received_total.0,
            claimed_total.0,
            share_supply.0,
            share_amount.0,
            precision,
            investors_part.0,
        ) == Some(v.0),
        r matches Err(e) ==> e == Error::Overflow || e == Error::DecimalOperation || e
            == Error::DecimalConversion || e == Error::Underflow,
{
    let entitled_total = total_entitled_dividend(
        central_received_total,
        share_supply,
        share_amount,
        precision,
        investors_part,
    )?;
    match entitled_total.val().checked_sub(claimed_total.val()) {
        Some(v) => Ok(FundsAmount::new(v)),
        None => Err(Error::Underflow),
    }
}

/// The transactions of a claim: the claimer's call of the DAO's application, and the transfer
/// of the claimed funds from the central escrow to the claimer, signed by the escrow.
#[derive(Debug)]
pub struct ClaimToSign {
    pub app_call_tx: Txn,
    pub claim_tx: SignedTxn,
}

/// The claimer's call of the DAO's application that records the claim: argument "claim".
pub open spec fn claim_call_view(params: TxParams, app_id: u64, sender: Address) -> TxnView {
    built(
        params,
        sender,
        TxnTypeView::ApplicationCall {
            app_id,
            on_complete: OnComplete::NoOp,
            app_arguments: Some(seq!["claim".spec_bytes()]),
            accounts: None,
            foreign_assets: None,
        },
    )
}

/// The call of the DAO's application with which an investor claims: argument "claim".
pub fn claim_app_call_tx(app_id: DaoAppId, params: &TxParams, sender: &Address) -> (r: Result<
    Txn,
    Error,
>)
    requires
        params.wf(),
    ensures
        r matches Ok(tx) && tx@ == claim_call_view(*params, app_id.0, *sender),
{
    let mut arguments: Vec<Vec<u8>> = Vec::new();
    arguments.push(text_bytes("claim"));
    let tx = call_app(params, *sender, app_id.0, OnComplete::NoOp, Some(arguments), None, None);
    proof {
        assert(crate::tx::bytes_list(arguments) =~= seq!["claim".spec_bytes()]);
    }
    Ok(tx)
}

/// The transfer of the claimed funds from the central escrow to the claimer, whose fee the
/// claimer's call pays.
pub open spec fn claim_transfer_view(
    params: TxParams,
    escrow: Address,
    funds_asset_id: u64,
    amount: u64,
    claimer: Address,
) -> TxnView {
    built(
        params,
        escrow,
        TxnTypeView::AssetTransfer { asset_id: funds_asset_id, amount, receiver: claimer },
    ).with_fee(0)
}

/// The claim of `amount` of the funds by the claimer: the claimer's call of the application,
/// which pays the fees of both, and the transfer from the central escrow, in one group; the
/// transfer signed by the escrow's program.
pub fn claim(
    claimer: &Address,
    app_id: DaoAppId,
    funds_asset_id: FundsAssetId,
    amount: FundsAmount,
    central_escrow: &ContractAccount,
    params: &TxParams,
) -> (r: Result<ClaimToSign, Error>)
    requires
        params.wf(),
    ensures
        r is Ok <==> paid_group_of_two(
            claim_call_view(*params, app_id.0, *claimer),
            claim_transfer_view(
                *params,
                program_address_of(central_escrow.program_bytes()),
                funds_asset_id.0,
                amount.0,
                *claimer,
            ),
            params.fee_per_byte,
            params.min_fee,
        ) is Some,
        r matches Ok(ts) ==> paid_group_of_two(
            claim_call_view(*params, app_id.0, *claimer),
            claim_transfer_view(
                *params,
                program_address_of(central_escrow.program_bytes()),
                funds_asset_id.0,
                amount.0,
                *claimer,
            ),
            params.fee_per_byte,
            params.min_fee,
        ) == Some((ts.app_call_tx@, ts.claim_tx.transaction@)) && ts.claim_tx.program@
            == central_escrow.program_bytes(),
        r matches Err(e) ==> e == Error::FeeEstimation || e == Error::Overflow || e
            == Error::InvalidGroup,
{
    let app_call_tx = claim_app_call_tx(app_id, params, claimer)?;
    let mut claim_tx = transfer_asset(
        params,
        *central_escrow.address(),
        funds_asset_id.0,
        amount.val(),
        *claimer,
    );
    claim_tx.fee = crate::amounts::MicroAlgos(0);
    let (app_call_tx, claim_tx) = group_of_two_paid_by_first(params, app_call_tx, claim_tx)?;
    let signed_claim_tx = central_escrow.sign(claim_tx);
    Ok(ClaimToSign { app_call_tx, claim_tx: signed_claim_tx })
}

} // verus!
