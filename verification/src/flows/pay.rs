//! Customers paying a DAO or a project.
use vstd::prelude::*;

use crate::amounts::{DaoAppId, FundsAmount, FundsAssetId, MicroAlgos};
use crate::chain::app_address_of;
use crate::error::Error;
use crate::tx::{built, pay, transfer_asset, Address, TxParams, Txn, TxnTypeView};

verus! {

/// The transaction of a payment to a DAO.
#[derive(Debug)]
pub struct PayDaoToSign {
    pub tx: Txn,
}

/// A customer's payment to a DAO: a transfer of the funds asset to the application's account.
pub fn pay_dao_app(
    customer: &Address,
    app_id: DaoAppId,
    funds_asset_id: FundsAssetId,
    amount: FundsAmount,
    params: &TxParams,
) -> (r: Result<PayDaoToSign, Error>)
    requires
        params.wf(),
    ensures
        r matches Ok(p) && p.tx@ == built(
            *params,
            *customer,
            TxnTypeView::AssetTransfer {
                asset_id: funds_asset_id.0,
                amount: amount.0,
                receiver: app_address_of(app_id.0),
            },
        ),
{
    let tx = transfer_asset(params, *customer, funds_asset_id.0, amount.val(), app_id.address());
    Ok(PayDaoToSign { tx })
}

/// The transaction of a payment to a project.
#[derive(Debug)]
pub struct PayProjectToSign {
    pub tx: Txn,
}

/// A customer's payment to a project: a payment of the native currency to the project's
/// customer escrow.
pub fn pay_project(
    customer: &Address,
    customer_escrow: &Address,
    amount: MicroAlgos,
    params: &TxParams,
) -> (r: Result<PayProjectToSign, Error>)
    requires
        params.wf(),
    ensures
        r matches Ok(p) && p.tx@ == built(
            *params,
            *customer,
            TxnTypeView::Payment { receiver: *customer_escrow, amount: amount.0 },
        ),
{
    Ok(PayProjectToSign { tx: pay(params, *customer, *customer_escrow, amount) })
}

} // verus!
