//! The creation of a project once its shares asset and central application exist.
use vstd::prelude::*;

use crate::amounts::FundsAssetId;
use crate::error::Error;
use crate::flows::create_project::app::{project_setup_app_view, setup_app_tx};
use crate::flows::create_project::escrows::{
    account_address, setup_central_escrow, setup_customer_escrow, setup_investing_escrow_txs,
    setup_locking_escrow_txs, FIXED_FEE, MIN_BALANCE,
};
use crate::flows::create_project::model::{CreateProjectSpecs, CreateProjectToSign, Project, SubmitCreateProjectResult};
use crate::flows::creation::{assemble_creation_group, funding_view, zero_fee_optin_view};
use crate::teal::ContractAccount;
use crate::tx::{built, Address, TxParams, TxnTypeView, TxnView};
use crate::txgroup::{grouped, with_fees_of};

verus! {

/// The ten creation transactions of a project, before they are grouped; `None` where a fee
/// cannot be estimated.
pub open spec fn project_creation_views(
    params: TxParams,
    creator: Address,
    shares_asset_id: u64,
    funds_asset_id: u64,
    share_supply: u64,
    central_app_id: u64,
    central: Address,
    customer: Address,
    locking: Address,
    invest: Address,
) -> Option<Seq<TxnView>> {
    match (
        with_fees_of(
            funding_view(params, creator, customer, MIN_BALANCE),
            seq![zero_fee_optin_view(params, customer, funds_asset_id), funding_view(params, creator, customer, MIN_BALANCE)],
            params.fee_per_byte,
            params.min_fee,
        ),
        with_fees_of(
            funding_view(params, creator, locking, MIN_BALANCE),
            seq![funding_view(params, creator, locking, MIN_BALANCE), zero_fee_optin_view(params, locking, shares_asset_id)],
            params.fee_per_byte,
            params.min_fee,
        ),
        with_fees_of(
            funding_view(params, creator, invest, MIN_BALANCE),
            seq![funding_view(params, creator, invest, MIN_BALANCE), zero_fee_optin_view(params, invest, shares_asset_id)],
            params.fee_per_byte,
            params.min_fee,
        ),
    ) {
        (Some(customer_funding), Some(locking_funding), Some(invest_funding)) => Some(
            seq![
                project_setup_app_view(params, central_app_id, creator, central, customer, shares_asset_id, funds_asset_id),
                funding_view(params, creator, central, (MIN_BALANCE + FIXED_FEE) as u64),
                customer_funding,
                locking_funding,
                invest_funding,
                zero_fee_optin_view(params, locking, shares_asset_id),
                zero_fee_optin_view(params, invest, shares_asset_id),
                built(params, central, TxnTypeView::AssetAccept { asset_id: funds_asset_id }),
                zero_fee_optin_view(params, customer, funds_asset_id),
                built(
                    params,
                    creator,
                    TxnTypeView::AssetTransfer { asset_id: shares_asset_id, amount: share_supply, receiver: invest },
                ),
            ],
        ),
        _ => None,
    }
}

/// The transactions that create a project with its (compiled) escrows: the setup of the
/// central application, the funding of the four escrows, their opt-ins (signed by the escrows)
/// and the transfer of the share supply to the investing escrow, in one group.
pub fn create_project_txs(
    specs: &CreateProjectSpecs,
    creator: Address,
    shares_asset_id: u64,
    funds_asset_id: FundsAssetId,
    central_escrow: ContractAccount,
    customer_escrow: ContractAccount,
    locking_escrow: ContractAccount,
    invest_escrow: ContractAccount,
    precision: u64,
    central_app_id: u64,
    params: &TxParams,
) -> (r: Result<CreateProjectToSign, Error>)
    requires
        params.wf(),
    ensures
        r is Ok <==> (project_creation_views(
            *params,
            creator,
            shares_asset_id,
            funds_asset_id.0,
            specs.shares.supply.0,
            central_app_id,
            account_address(central_escrow),
            account_address(customer_escrow),
            account_address(locking_escrow),
            account_address(invest_escrow),
        ) matches Some(vs) && grouped(vs) is Some),
        r matches Ok(t) ==> t.escrow_funding_txs.len() == 4 && t.optin_txs.len() == 4 && grouped(
            project_creation_views(
                *params,
                creator,
                shares_asset_id,
                funds_asset_id.0,
                specs.shares.supply.0,
                central_app_id,
                account_address(central_escrow),
                account_address(customer_escrow),
                account_address(locking_escrow),
                account_address(invest_escrow),
            )->0,
        ) == Some(
            seq![
                t.setup_app_tx@,
                t.escrow_funding_txs@[0]@,
                t.escrow_funding_txs@[1]@,
                t.escrow_funding_txs@[2]@,
                t.escrow_funding_txs@[3]@,
                t.optin_txs@[0].transaction@,
                t.optin_txs@[1].transaction@,
                t.optin_txs@[2].transaction@,
                t.optin_txs@[3].transaction@,
                t.xfer_shares_to_invest_escrow@,
            ],
        ) && t.optin_txs@[0].program@ == locking_escrow.program_bytes() && t.optin_txs@[1].program@
            == invest_escrow.program_bytes() && t.optin_txs@[2].program@ == central_escrow.program_bytes()
            && t.optin_txs@[3].program@ == customer_escrow.program_bytes() && t.specs == *specs
            && t.creator == creator && t.central_escrow == central_escrow && t.customer_escrow
            == customer_escrow && t.locking_escrow == locking_escrow && t.invest_escrow == invest_escrow,
        r matches Err(e) ==> e == Error::FeeEstimation || e == Error::Overflow || e
            == Error::InvalidGroup,
{
    let central = setup_central_escrow(&creator, central_escrow, params, funds_asset_id)?;
    let customer = setup_customer_escrow(&creator, customer_escrow, params, funds_asset_id)?;
    let setup = setup_app_tx(
        central_app_id,
        &creator,
        params,
        central.escrow.address(),
        customer.escrow.address(),
        shares_asset_id,
        funds_asset_id,
    )?;
    let locking = setup_locking_escrow_txs(locking_escrow, shares_asset_id, &creator, params)?;
    let invest = setup_investing_escrow_txs(invest_escrow, shares_asset_id, specs.shares.supply, &creator, params)?;
    let group = assemble_creation_group(
        setup,
        central.fund_min_balance_tx,
        customer.fund_min_balance_tx,
        locking.escrow_funding_algos_tx,
        invest.escrow_funding_algos_tx,
        locking.escrow_shares_optin_tx,
        invest.escrow_shares_optin_tx,
        central.optin_to_funds_asset_tx,
        customer.optin_to_funds_asset_tx,
        invest.escrow_funding_shares_asset_tx,
        &locking.escrow,
        &invest.escrow,
        &central.escrow,
        &customer.escrow,
    )?;
    Ok(CreateProjectToSign {
        specs: specs.copy(),
        creator,
        setup_app_tx: group.setup_app_tx,
        locking_escrow: locking.escrow,
        invest_escrow: invest.escrow,
        central_escrow: central.escrow,
        customer_escrow: customer.escrow,
        escrow_funding_txs: group.escrow_funding_txs,
        optin_txs: group.optin_txs,
        xfer_shares_to_invest_escrow: group.xfer_shares_to_invest_escrow,
    })
}

/// The project that a submitted creation created, from what its creation passed through.
pub fn project_from_creation(
    specs: CreateProjectSpecs,
    shares_asset_id: u64,
    funds_asset_id: FundsAssetId,
    central_app_id: u64,
    invest_escrow: ContractAccount,
    locking_escrow: ContractAccount,
    customer_escrow: ContractAccount,
    central_escrow: ContractAccount,
    creator: Address,
) -> (r: SubmitCreateProjectResult)
    ensures
        r.project == (Project {
            specs,
            funds_asset_id,
            creator,
            shares_asset_id,
            central_app_id,
            invest_escrow,
            locking_escrow,
            central_escrow,
            customer_escrow,
        }),
{
    SubmitCreateProjectResult {
        project: Project {
            specs,
            funds_asset_id,
            creator,
            shares_asset_id,
            central_app_id,
            invest_escrow,
            locking_escrow,
            central_escrow,
            customer_escrow,
        },
    }
}

} // verus!
