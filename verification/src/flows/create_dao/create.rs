//! The creation of a DAO once its shares asset and application exist: the DAO's setup call
//! with its init data, then the same fundings, opt-ins and shares transfer as for a project,
//! with the DAO's escrows, in one group.
use vstd::prelude::*;

use crate::amounts::{DaoAppId, FundsAssetId};
use crate::capi::CapiAssetDaoDeps;
use crate::error::Error;
use crate::flows::create_dao::escrows::{
    escrow_address, optin_view, payment_view, setup_central_escrow, setup_investing_escrow_txs,
    setup_locking_escrow_txs, MIN_BALANCE,
};
use crate::flows::create_dao::app::{setup_app_tx, setup_app_view, DaoInitData};
use crate::flows::create_project::escrows::{account_address, setup_customer_escrow};
use crate::flows::create_project::model::CreateProjectSpecs;
use crate::flows::creation::{assemble_creation_group, funding_view, zero_fee_optin_view};
use crate::teal::{
    ContractAccount, SignedTxn, TealSource, TealSourceTemplate, VersionedContractAccount,
};
use crate::tx::{built, Address, TxParams, Txn, TxnTypeView, TxnView};
use crate::txgroup::{grouped, with_fees_of};
use crate::shares::percentage_points;

verus! {

/// The specification of a DAO to create: the same data as that of a project.
pub type CreateDaoSpecs = CreateProjectSpecs;

/// The templates of a DAO's programs.
#[derive(Debug)]
pub struct Programs {
    pub central_app_approval: TealSourceTemplate,
    pub central_app_clear: TealSource,
    pub escrows: Escrows,
}

/// The templates of a DAO's escrows.
#[derive(Debug)]
pub struct Escrows {
    pub central_escrow: TealSourceTemplate,
    pub customer_escrow: TealSourceTemplate,
    pub invest_escrow: TealSourceTemplate,
    pub locking_escrow: TealSourceTemplate,
}

/// The templates of the platform's token.
#[derive(Debug)]
pub struct CapiPrograms {
    pub app_approval: TealSourceTemplate,
    pub app_clear: TealSource,
    pub escrow: TealSourceTemplate,
}

/// The transactions of a DAO's creation.
#[derive(Debug)]
pub struct CreateDaoToSign {
    pub specs: CreateDaoSpecs,
    pub creator: Address,
    pub setup_app_tx: Txn,
    pub locking_escrow: VersionedContractAccount,
    pub invest_escrow: VersionedContractAccount,
    pub central_escrow: VersionedContractAccount,
    pub customer_escrow: ContractAccount,
    /// The fundings of the central, customer, locking and investing escrows.
    pub escrow_funding_txs: Vec<Txn>,
    /// The escrows' opt-ins, signed by the escrows.
    pub optin_txs: Vec<SignedTxn>,
    pub xfer_shares_to_invest_escrow: Txn,
}

/// The funding of an escrow, whose fee covers the escrow's opt-in listed after it.
pub open spec fn funding_first(params: TxParams, payer: Address, escrow: Address, asset_id: u64) -> Option<TxnView> {
    with_fees_of(
        payment_view(params, payer, escrow, MIN_BALANCE),
        seq![payment_view(params, payer, escrow, MIN_BALANCE), optin_view(params, escrow, asset_id)],
        params.fee_per_byte,
        params.min_fee,
    )
}

/// The init data that a DAO's setup call sends: the given data with the ids of the shares
/// and funds assets, and the name, share price and social media url of the specification.
pub open spec fn dao_init_data_of(
    specs: CreateDaoSpecs,
    data: DaoInitData,
    shares_asset_id: u64,
    funds_asset_id: FundsAssetId,
) -> DaoInitData {
    DaoInitData {
        shares_asset_id,
        funds_asset_id,
        project_name: specs.name,
        share_price: specs.share_price,
        social_media_url: specs.social_media_url,
        ..data
    }
}

/// The ten creation transactions of a DAO, before they are grouped; `None` where a fee
/// cannot be estimated. The first is the setup call with the DAO's init data, whose investors'
/// share is `points` in points.
pub open spec fn dao_creation_views(
    params: TxParams,
    creator: Address,
    shares_asset_id: u64,
    funds_asset_id: u64,
    share_supply: u64,
    app_id: u64,
    central: Address,
    customer: Address,
    locking: Address,
    invest: Address,
    data: DaoInitData,
    points: u64,
) -> Option<Seq<TxnView>> {
    match (
        funding_first(params, creator, central, funds_asset_id),
        with_fees_of(
            funding_view(params, creator, customer, MIN_BALANCE),
            seq![zero_fee_optin_view(params, customer, funds_asset_id), funding_view(params, creator, customer, MIN_BALANCE)],
            params.fee_per_byte,
            params.min_fee,
        ),
        funding_first(params, creator, locking, shares_asset_id),
        funding_first(params, creator, invest, shares_asset_id),
    ) {
        (Some(central_funding), Some(customer_funding), Some(locking_funding), Some(invest_funding)) => Some(
            seq![
                setup_app_view(params, app_id, creator, data, points),
                central_funding,
                customer_funding,
                locking_funding,
                invest_funding,
                optin_view(params, locking, shares_asset_id),
                optin_view(params, invest, shares_asset_id),
                optin_view(params, central, funds_asset_id),
                zero_fee_optin_view(params, customer, funds_asset_id),
                built(
                    params,
                    creator,
                    TxnTypeView::AssetTransfer { asset_id: shares_asset_id, amount: share_supply, receiver: invest },
                ),
            ],
        ),
        _ => None,
    }
}

/// The transactions that create a DAO with its (compiled) escrows: the setup of its
/// application, the funding of the four escrows, their opt-ins (signed by the escrows) and the
/// transfer of the share supply to the investing escrow, in one group. The setup call sends the
/// DAO's init data (as `setup_app_tx` does): `init_data` with the asset ids given here and the
/// name, share price and social media url of `specs`. Refused where the investors' share of
/// the init data cannot be turned into points. The escrows' addresses and the owner are not
/// part of the setup call, whose arguments are those of `DaoInitData`.
pub fn create_dao_txs(
    specs: &CreateDaoSpecs,
    init_data: DaoInitData,
    creator: Address,
    shares_asset_id: u64,
    funds_asset_id: FundsAssetId,
    central_escrow: VersionedContractAccount,
    customer_escrow: ContractAccount,
    locking_escrow: VersionedContractAccount,
    invest_escrow: VersionedContractAccount,
    precision: u64,
    app_id: DaoAppId,
    capi_deps: &CapiAssetDaoDeps,
    params: &TxParams,
) -> (r: Result<CreateDaoToSign, Error>)
    requires
        params.wf(),
    ensures
        r is Ok <==> (percentage_points(init_data.investors_share.dec()) is Some && (dao_creation_views(
            *params,
            creator,
            shares_asset_id,
            funds_asset_id.0,
            specs.shares.supply.0,
            app_id.0,
            escrow_address(central_escrow),
            account_address(customer_escrow),
            escrow_address(locking_escrow),
            escrow_address(invest_escrow),
            dao_init_data_of(*specs, init_data, shares_asset_id, funds_asset_id),
            percentage_points(init_data.investors_share.dec())->0,
        ) matches Some(vs) && grouped(vs) is Some)),
        r matches Ok(t) ==> t.escrow_funding_txs.len() == 4 && t.optin_txs.len() == 4 && grouped(
            dao_creation_views(
                *params,
                creator,
                shares_asset_id,
                funds_asset_id.0,
                specs.shares.supply.0,
                app_id.0,
                escrow_address(central_escrow),
                account_address(customer_escrow),
                escrow_address(locking_escrow),
                escrow_address(invest_escrow),
                dao_init_data_of(*specs, init_data, shares_asset_id, funds_asset_id),
                percentage_points(init_data.investors_share.dec())->0,
            )->0,
        ) == Some(
            seq![
                t.setup_app_tx@,
                t.escrow_funding_txs@[0]@,
                t.escrow_funding_txs@[1]@,
                t.escrow_funding_txs@[2]@,
                t.escrow_funding_txs@[3]@,
                t.optin_txs@[0].transaction@,
                t.optin_txs@[1].transaction@,
                t.optin_txs@[2].transaction@,
                t.optin_txs@[3].transaction@,
                t.xfer_shares_to_invest_escrow@,
            ],
        ) && t.optin_txs@[0].program@ == locking_escrow.account.program_bytes()
            && t.optin_txs@[1].program@ == invest_escrow.account.program_bytes()
            && t.optin_txs@[2].program@ == central_escrow.account.program_bytes()
            && t.optin_txs@[3].program@ == customer_escrow.program_bytes() && t.specs == *specs
            && t.creator == creator && t.central_escrow == central_escrow && t.customer_escrow
            == customer_escrow && t.locking_escrow == locking_escrow && t.invest_escrow == invest_escrow,
        r matches Err(e) ==> e == Error::FeeEstimation || e == Error::Overflow || e
            == Error::InvalidGroup || e == Error::DecimalConversion,
{
    let central = setup_central_escrow(&creator, central_escrow, params, funds_asset_id)?;
    let customer = setup_customer_escrow(&creator, customer_escrow, params, funds_asset_id)?;
    let locking = setup_locking_escrow_txs(locking_escrow, shares_asset_id, &creator, params)?;
    let invest = setup_investing_escrow_txs(invest_escrow, shares_asset_id, specs.shares.supply, &creator, params)?;
    let mut data = init_data;
    data.shares_asset_id = shares_asset_id;
    data.funds_asset_id = funds_asset_id;
    data.project_name = specs.name.clone();
    data.share_price = specs.share_price;
    data.social_media_url = specs.social_media_url.clone();
    let setup = setup_app_tx(app_id, &creator, params, &data)?;
    let group = assemble_creation_group(
        setup,
        central.fund_min_balance_tx,
        customer.fund_min_balance_tx,
        locking.escrow_funding_algos_tx,
        invest.escrow_funding_algos_tx,
        locking.escrow_shares_optin_tx,
        invest.escrow_shares_optin_tx,
        central.optin_to_funds_asset_tx,
        customer.optin_to_funds_asset_tx,
        invest.escrow_funding_shares_asset_tx,
        &locking.escrow.account,
        &invest.escrow.account,
        &central.escrow.account,
        &customer.escrow,
    )?;
    Ok(CreateDaoToSign {
        specs: specs.copy(),
        creator,
        setup_app_tx: group.setup_app_tx,
        locking_escrow: locking.escrow,
        invest_escrow: invest.escrow,
        central_escrow: central.escrow,
        customer_escrow: customer.escrow,
        escrow_funding_txs: group.escrow_funding_txs,
        optin_txs: group.optin_txs,
        xfer_shares_to_invest_escrow: group.xfer_shares_to_invest_escrow,
    })
}

} // verus!
