//! Reclaiming the investment of a DAO whose raise failed: the shares go back to the
//! application, the funds back to the investor.
use vstd::prelude::*;

use vstd::string::StringSliceAdditionalSpecFns;

use crate::amounts::{DaoAppId, FundsAssetId, MicroAlgos, ShareAmount};
use crate::chain::app_address_of;
use crate::error::Error;
use crate::text::text_bytes;
use crate::tx::{built, call_app, transfer_asset, Address, OnComplete, TxParams, Txn, TxnTypeView, TxnView};
use crate::txgroup::{group_of_two, grouped, lemma_grouped_shares_one_id};

verus! {

/// The reclaimer's call of the application: argument "reclaim", the funds asset as foreign
/// asset, with twice the minimum fee to pay for the inner transfer of the funds back.
pub open spec fn reclaim_call_view(params: TxParams, app_id: u64, reclaimer: Address, funds_asset_id: u64) -> TxnView {
    built(
        params,
        reclaimer,
        TxnTypeView::ApplicationCall {
            app_id,
            on_complete: OnComplete::NoOp,
            app_arguments: Some(seq!["reclaim".spec_bytes()]),
            accounts: None,
            foreign_assets: Some(seq![funds_asset_id]),
        },
    ).with_fee((params.min_fee * 2) as u64)
}

/// The transfer of the shares from the reclaimer to the application's account.
pub open spec fn reclaim_shares_view(
    params: TxParams,
    app_id: u64,
    reclaimer: Address,
    shares_asset_id: u64,
    amount: u64,
) -> TxnView {
    built(
        params,
        reclaimer,
        TxnTypeView::AssetTransfer {
            asset_id: shares_asset_id,
            amount,
            receiver: app_address_of(app_id),
        },
    )
}

/// The transactions of a reclaim.
#[derive(Debug)]
pub struct ReclaimToSign {
    pub app_call_tx: Txn,
    pub shares_xfer_tx: Txn,
}

/// The reclaim of an investment: the reclaimer's call of the application and the transfer of
/// the shares back to it, in one group.
pub fn reclaim(
    reclaimer: &Address,
    app_id: DaoAppId,
    shares_asset_id: u64,
    share_amount: ShareAmount,
    funds_asset: FundsAssetId,
    params: &TxParams,
) -> (r: Result<ReclaimToSign, Error>)
    requires
        params.wf(),
        params.min_fee * 2 <= u64::MAX,
    ensures
        r is Ok <==> grouped(
            seq![
                reclaim_call_view(*params, app_id.0, *reclaimer, funds_asset.0),
                reclaim_shares_view(*params, app_id.0, *reclaimer, shares_asset_id, share_amount.0),
            ],
        ) is Some,
        r matches Ok(t) ==> grouped(
            seq![
                reclaim_call_view(*params, app_id.0, *reclaimer, funds_asset.0),
                reclaim_shares_view(*params, app_id.0, *reclaimer, shares_asset_id, share_amount.0),
            ],
        ) == Some(seq![t.app_call_tx@, t.shares_xfer_tx@]),
        r matches Ok(t) ==> t.shares_xfer_tx@.sender == *reclaimer && t.shares_xfer_tx@.txn_type
            == (TxnTypeView::AssetTransfer {
            asset_id: shares_asset_id,
            amount: share_amount.0,
            receiver: app_address_of(app_id.0),
        }),
        r matches Err(e) ==> e == Error::InvalidGroup,
{
    let mut arguments: Vec<Vec<u8>> = Vec::new();
    arguments.push(text_bytes("reclaim"));
    let mut assets: Vec<u64> = Vec::new();
    assets.push(funds_asset.0);
    let mut app_call_tx = call_app(
        params,
        *reclaimer,
        app_id.0,
        OnComplete::NoOp,
        Some(arguments),
        None,
        Some(assets),
    );
    proof {
        assert(crate::tx::bytes_list(arguments) =~= seq!["reclaim".spec_bytes()]);
        assert(assets@ =~= seq![funds_asset.0]);
    }
    app_call_tx.fee = MicroAlgos(app_call_tx.fee.0 * 2);
    let shares_xfer_tx = transfer_asset(
        params,
        *reclaimer,
        shares_asset_id,
        share_amount.val(),
        app_id.address(),
    );
    let (app_call_tx, shares_xfer_tx) = group_of_two(app_call_tx, shares_xfer_tx)?;
    proof {
        lemma_reclaim_returns_the_shares_to_the_app(
            *params,
            app_id.0,
            *reclaimer,
            funds_asset.0,
            shares_asset_id,
            share_amount.0,
            app_call_tx@,
            shares_xfer_tx@,
        );
    }
    Ok(ReclaimToSign { app_call_tx, shares_xfer_tx })
}

/// A reclaim sends the reclaimed shares back to the application's account: the second
/// transaction of its group is the reclaimer's transfer of exactly that amount of the shares
/// asset, received by the application.
pub proof fn lemma_reclaim_returns_the_shares_to_the_app(
    params: TxParams,
    app_id: u64,
    reclaimer: Address,
    funds_asset_id: u64,
    shares_asset_id: u64,
    amount: u64,
    app_call: TxnView,
    shares_xfer: TxnView,
)
    requires
        grouped(
            seq![
                reclaim_call_view(params, app_id, reclaimer, funds_asset_id),
                reclaim_shares_view(params, app_id, reclaimer, shares_asset_id, amount),
            ],
        ) == Some(seq![app_call, shares_xfer]),
    ensures
        shares_xfer.sender == reclaimer,
        shares_xfer.txn_type == (TxnTypeView::AssetTransfer {
            asset_id: shares_asset_id,
            amount,
            receiver: app_address_of(app_id),
        }),
        app_call.sender == reclaimer,
        app_call.fee == (params.min_fee * 2) as u64,
        app_call.txn_type == (TxnTypeView::ApplicationCall {
            app_id,
            on_complete: OnComplete::NoOp,
            app_arguments: Some(seq!["reclaim".spec_bytes()]),
            accounts: None,
            foreign_assets: Some(seq![funds_asset_id]),
        }),
{
    let vs = seq![
        reclaim_call_view(params, app_id, reclaimer, funds_asset_id),
        reclaim_shares_view(params, app_id, reclaimer, shares_asset_id, amount),
    ];
    lemma_grouped_shares_one_id(vs);
    let g = grouped(vs)->0;
    assert(g[1] == shares_xfer);
    assert(g[0] == app_call);
    assert((TxnView { group: None, ..g[1] }) == (TxnView { group: None, ..vs[1] }));
    assert((TxnView { group: None, ..g[0] }) == (TxnView { group: None, ..vs[0] }));
}

} // verus!
