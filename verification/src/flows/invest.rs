//! Investing in a DAO: buying shares at the DAO's share price.
use vstd::prelude::*;

use vstd::string::StringSliceAdditionalSpecFns;

use crate::amounts::{DaoAppId, FundsAmount, FundsAssetId, MicroAlgos, ShareAmount};
use crate::chain::app_address_of;
use crate::error::Error;
use crate::flows::create_dao::model::Dao;
use crate::text::{be_bytes, be_value, lemma_be_bytes_value, text_bytes, u64_be_bytes};
use crate::tx::{accept_asset, built, call_app, transfer_asset, Address, OnComplete, TxParams, Txn, TxnTypeView, TxnView};
use crate::txgroup::{group_of_three, grouped, lemma_grouped_shares_one_id};

verus! {

/// The investor's opt-in to the DAO's application.
pub open spec fn app_optin_view(params: TxParams, app_id: u64, investor: Address) -> TxnView {
    built(
        params,
        investor,
        TxnTypeView::ApplicationCall {
            app_id,
            on_complete: OnComplete::OptIn,
            app_arguments: None,
            accounts: None,
            foreign_assets: None,
        },
    )
}

/// The investor's opt-in to the DAO's application, which investing and locking need first
/// (the application cannot set local state during the opt-in).
pub fn invest_or_locking_app_optin_tx(dao: &Dao, investor: &Address, params: &TxParams) -> (r: Result<Txn, Error>)
    requires
        params.wf(),
    ensures
        r matches Ok(tx) && tx@ == app_optin_view(*params, dao.app_id.0, *investor),
{
    Ok(call_app(params, *investor, dao.app_id.0, OnComplete::OptIn, None, None, None))
}

/// The investor's call of the DAO's application that invests: arguments "invest" and the share
/// amount (eight bytes, most significant first), the shares asset as foreign asset.
pub open spec fn investor_setup_view(params: TxParams, app_id: u64, shares_asset_id: u64, investor: Address, share_amount: u64) -> TxnView {
    built(
        params,
        investor,
        TxnTypeView::ApplicationCall {
            app_id,
            on_complete: OnComplete::NoOp,
            app_arguments: Some(seq!["invest".spec_bytes(), be_bytes(share_amount)]),
            accounts: None,
            foreign_assets: Some(seq![shares_asset_id]),
        },
    )
}

/// The investor's call of the DAO's application that invests.
pub fn dao_app_investor_setup_tx(
    params: &TxParams,
    app_id: DaoAppId,
    shares_asset_id: u64,
    investor: Address,
    share_amount: ShareAmount,
) -> (r: Result<Txn, Error>)
    requires
        params.wf(),
    ensures
        r matches Ok(tx) && tx@ == investor_setup_view(*params, app_id.0, shares_asset_id, investor, share_amount.0),
{
    let mut arguments: Vec<Vec<u8>> = Vec::new();
    arguments.push(text_bytes("invest"));
    arguments.push(u64_be_bytes(share_amount.val()));
    let mut assets: Vec<u64> = Vec::new();
    assets.push(shares_asset_id);
    let tx = call_app(params, investor, app_id.0, OnComplete::NoOp, Some(arguments), None, Some(assets));
    proof {
        assert(crate::tx::bytes_list(arguments) =~= seq!["invest".spec_bytes(), be_bytes(share_amount.0)]);
        assert(assets@ =~= seq![shares_asset_id]);
    }
    Ok(tx)
}

/// The transactions of an investment, and the total price of the shares.
#[derive(Debug)]
pub struct InvestToSign {
    pub dao: Dao,
    pub central_app_setup_tx: Txn,
    pub payment_tx: Txn,
    pub shares_asset_optin_tx: Txn,
    /// The share price times the number of shares.
    pub total_price: FundsAmount,
}

/// The note of the payment of an investment; the indexer query of received payments skips
/// payments with this note.
pub open spec fn invest_note() -> Seq<u8> {
    "Invest".spec_bytes()
}

/// The three transactions of an investment, before they are grouped: the investor's opt-in to
/// the shares asset, the call of the application (with twice the minimum fee, to pay for the
/// inner transfer of the shares), and the payment of the total price to the application.
pub open spec fn invest_views(
    params: TxParams,
    dao: Dao,
    investor: Address,
    app_id: u64,
    shares_asset_id: u64,
    share_amount: u64,
    funds_asset_id: u64,
    total_price: u64,
) -> Seq<TxnView> {
    seq![
        built(params, investor, TxnTypeView::AssetAccept { asset_id: dao.shares_asset_id }),
        investor_setup_view(params, app_id, shares_asset_id, investor, share_amount).with_fee(
            (params.min_fee * 2) as u64,
        ),
        built(
            params,
            investor,
            TxnTypeView::AssetTransfer {
                asset_id: funds_asset_id,
                amount: total_price,
                receiver: app_address_of(dao.app_id.0),
            },
        ).with_note(invest_note()),
    ]
}

/// An investment in a DAO of `share_amount` shares at `share_price`; the investor must have
/// opted in to the application before. Refused where the total price leaves a `u64`.
pub fn invest_txs(
    dao: &Dao,
    investor: &Address,
    app_id: DaoAppId,
    shares_asset_id: u64,
    share_amount: ShareAmount,
    funds_asset_id: FundsAssetId,
    share_price: FundsAmount,
    params: &TxParams,
) -> (r: Result<InvestToSign, Error>)
    requires
        params.wf(),
        params.min_fee * 2 <= u64::MAX,
    ensures
        r is Ok <==> (share_price.0 * share_amount.0 <= u64::MAX && grouped(
            invest_views(
                *params,
                *dao,
                *investor,
                app_id.0,
                shares_asset_id,
                share_amount.0,
                funds_asset_id.0,
                (share_price.0 * share_amount.0) as u64,
            ),
        ) is Some),
        r matches Ok(i) ==> i.total_price.0 == share_price.0 * share_amount.0 && i.dao == *dao
            && grouped(
            invest_views(
                *params,
                *dao,
                *investor,
                app_id.0,
                shares_asset_id,
                share_amount.0,
                funds_asset_id.0,
                i.total_price.0,
            ),
        ) == Some(seq![i.shares_asset_optin_tx@, i.central_app_setup_tx@, i.payment_tx@]),
        r matches Ok(i) ==> i.shares_asset_optin_tx@.sender == *investor
            && i.shares_asset_optin_tx@.txn_type == (TxnTypeView::AssetAccept {
            asset_id: dao.shares_asset_id,
        }) && i.payment_tx@.sender == *investor && i.payment_tx@.txn_type == (TxnTypeView::AssetTransfer {
            asset_id: funds_asset_id.0,
            amount: i.total_price.0,
            receiver: app_address_of(dao.app_id.0),
        }),
        r matches Err(e) ==> e == Error::Overflow || e == Error::InvalidGroup,
{
    let total_price = match share_price.val().checked_mul(share_amount.val()) {
        Some(p) => FundsAmount::new(p),
        None => {
            return Err(Error::Overflow);
        },
    };
    let mut central_app_investor_setup_tx = dao_app_investor_setup_tx(
        params,
        app_id,
        shares_asset_id,
        *investor,
        share_amount,
    )?;
    let shares_optin_tx = accept_asset(params, *investor, dao.shares_asset_id);
    let mut pay_price_tx = transfer_asset(
        params,
        *investor,
        funds_asset_id.0,
        total_price.val(),
        dao.app_address(),
    );
    pay_price_tx.note = Some(text_bytes("Invest"));
    central_app_investor_setup_tx.fee = MicroAlgos(central_app_investor_setup_tx.fee.0 * 2);
    let (shares_optin_tx, central_app_investor_setup_tx, pay_price_tx) = group_of_three(
        shares_optin_tx,
        central_app_investor_setup_tx,
        pay_price_tx,
    )?;
    proof {
        lemma_investment_buys_the_shares(
            *params,
            *dao,
            *investor,
            app_id.0,
            shares_asset_id,
            share_amount.0,
            funds_asset_id.0,
            total_price.0,
            shares_optin_tx@,
            central_app_investor_setup_tx@,
            pay_price_tx@,
        );
    }
    Ok(InvestToSign {
        dao: dao.copy(),
        central_app_setup_tx: central_app_investor_setup_tx,
        payment_tx: pay_price_tx,
        shares_asset_optin_tx: shares_optin_tx,
        total_price,
    })
}

/// An investment opts the investor in to the DAO's shares asset and pays the total price in the
/// funds asset to the DAO's application: in its group, the first transaction is the investor's
/// acceptance of the shares asset, and the last the investor's transfer of the price to the
/// application's account.
pub proof fn lemma_investment_buys_the_shares(
    params: TxParams,
    dao: Dao,
    investor: Address,
    app_id: u64,
    shares_asset_id: u64,
    share_amount: u64,
    funds_asset_id: u64,
    total_price: u64,
    optin: TxnView,
    app_call: TxnView,
    payment: TxnView,
)
    requires
        grouped(
            invest_views(params, dao, investor, app_id, shares_asset_id, share_amount, funds_asset_id, total_price),
        ) == Some(seq![optin, app_call, payment]),
    ensures
        optin.sender == investor,
        optin.txn_type == (TxnTypeView::AssetAccept { asset_id: dao.shares_asset_id }),
        payment.sender == investor,
        payment.txn_type == (TxnTypeView::AssetTransfer {
            asset_id: funds_asset_id,
            amount: total_price,
            receiver: app_address_of(dao.app_id.0),
        }),
        app_call.sender == investor,
        app_call.fee == (params.min_fee * 2) as u64,
        app_call.txn_type matches TxnTypeView::ApplicationCall {
            app_id: id,
            on_complete,
            app_arguments: Some(args),
            accounts,
            foreign_assets: Some(fa),
        } && id == app_id && on_complete == OnComplete::NoOp && accounts is None && args.len() == 2
            && args[0] == "invest".spec_bytes() && args[1].len() == 8 && be_value(args[1]) == share_amount
            && fa == seq![shares_asset_id],
{
    lemma_be_bytes_value(share_amount);
    let vs = invest_views(params, dao, investor, app_id, shares_asset_id, share_amount, funds_asset_id, total_price);
    lemma_grouped_shares_one_id(vs);
    let g = grouped(vs)->0;
    assert(g[0] == optin && g[1] == app_call && g[2] == payment);
    assert((TxnView { group: None, ..g[0] }) == (TxnView { group: None, ..vs[0] }));
    assert((TxnView { group: None, ..g[1] }) == (TxnView { group: None, ..vs[1] }));
    assert((TxnView { group: None, ..g[2] }) == (TxnView { group: None, ..vs[2] }));
}

} // verus!
