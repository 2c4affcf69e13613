//! Investing in a project that sells its shares for the native currency: the price is paid to
//! the investing escrow, which sends the shares to the staking escrow.
use vstd::prelude::*;

use crate::amounts::MicroAlgos;
use crate::chain::program_address_of;
use crate::error::Error;
use crate::flows::create_project::model::Project;
use crate::teal::{ContractAccount, SignedTxn};
use crate::tx::{accept_asset, built, call_app, pay, transfer_asset, Address, OnComplete, TxParams, Txn, TxnTypeView, TxnView};
use crate::txgroup::{assign_group_id, grouped, views};

verus! {

/// The fixed fee of the calls and of the escrow's transfer.
pub const FIXED_FEE: u64 = 1_000u64;

/// The investor's call of the central application: the shares asset as foreign asset, the
/// fixed fee.
pub open spec fn central_app_investor_setup_view(params: TxParams, app_id: u64, shares_asset_id: u64, investor: Address) -> TxnView {
    built(
        params,
        investor,
        TxnTypeView::ApplicationCall {
            app_id,
            on_complete: OnComplete::NoOp,
            app_arguments: None,
            accounts: None,
            foreign_assets: Some(seq![shares_asset_id]),
        },
    ).with_fee(FIXED_FEE)
}

/// The investor's call of the central application.
pub fn central_app_investor_setup_tx(params: &TxParams, app_id: u64, shares_asset_id: u64, investor: Address) -> (r: Result<Txn, Error>)
    requires
        params.wf(),
    ensures
        r matches Ok(tx) && tx@ == central_app_investor_setup_view(*params, app_id, shares_asset_id, investor),
{
    let mut assets: Vec<u64> = Vec::new();
    assets.push(shares_asset_id);
    let mut tx = call_app(params, investor, app_id, OnComplete::NoOp, None, None, Some(assets));
    proof {
        assert(assets@ =~= seq![shares_asset_id]);
    }
    tx.fee = MicroAlgos(FIXED_FEE);
    Ok(tx)
}

/// The transactions of an investment in a project.
#[derive(Debug)]
pub struct InvestToSign {
    pub project: Project,
    pub central_app_setup_tx: Txn,
    pub payment_tx: Txn,
    pub shares_asset_optin_tx: Txn,
    pub pay_escrow_fee_tx: Txn,
    pub shares_xfer_tx: SignedTxn,
}

/// The five transactions of an investment, before they are grouped: the call of the central
/// application, the payment of the price to the investing escrow, the investor's opt-in to the
/// shares, the escrow's transfer of the shares to the staking escrow (fixed fee), and the
/// investor's payment of that transfer's fee to the escrow.
pub open spec fn project_invest_views(
    params: TxParams,
    investor: Address,
    invest_escrow: Address,
    staking_escrow: Address,
    central_app_id: u64,
    shares_asset_id: u64,
    project_shares_asset_id: u64,
    asset_count: u64,
    price: u64,
) -> Seq<TxnView> {
    seq![
        central_app_investor_setup_view(params, central_app_id, shares_asset_id, investor),
        built(params, investor, TxnTypeView::Payment { receiver: invest_escrow, amount: price }),
        built(params, investor, TxnTypeView::AssetAccept { asset_id: project_shares_asset_id }),
        built(
            params,
            invest_escrow,
            TxnTypeView::AssetTransfer { asset_id: project_shares_asset_id, amount: asset_count, receiver: staking_escrow },
        ).with_fee(FIXED_FEE),
        built(params, investor, TxnTypeView::Payment { receiver: invest_escrow, amount: FIXED_FEE }),
    ]
}

/// An investment of `asset_count` shares at `asset_price` each in a project; the investor
/// must have opted in to the central application before. Refused where the price leaves a
/// `u64`.
pub fn invest_txs(
    project: &Project,
    investor: &Address,
    staking_escrow: &ContractAccount,
    central_app_id: u64,
    shares_asset_id: u64,
    asset_count: u64,
    asset_price: MicroAlgos,
    params: &TxParams,
) -> (r: Result<InvestToSign, Error>)
    requires
        params.wf(),
    ensures
        r is Ok <==> (asset_price.0 * asset_count <= u64::MAX && grouped(
            project_invest_views(
                *params,
                *investor,
                program_address_of(project.invest_escrow.program_bytes()),
                program_address_of(staking_escrow.program_bytes()),
                central_app_id,
                shares_asset_id,
                project.shares_asset_id,
                asset_count,
                (asset_price.0 * asset_count) as u64,
            ),
        ) is Some),
        r matches Ok(i) ==> grouped(
            project_invest_views(
                *params,
                *investor,
                program_address_of(project.invest_escrow.program_bytes()),
                program_address_of(staking_escrow.program_bytes()),
                central_app_id,
                shares_asset_id,
                project.shares_asset_id,
                asset_count,
                (asset_price.0 * asset_count) as u64,
            ),
        ) == Some(
            seq![
                i.central_app_setup_tx@,
                i.payment_tx@,
                i.shares_asset_optin_tx@,
                i.shares_xfer_tx.transaction@,
                i.pay_escrow_fee_tx@,
            ],
        ) && i.shares_xfer_tx.program@ == project.invest_escrow.program_bytes()
            && i.project.specs == project.specs && i.project.funds_asset_id == project.funds_asset_id
            && i.project.creator == project.creator && i.project.shares_asset_id
            == project.shares_asset_id && i.project.central_app_id == project.central_app_id
            && i.project.invest_escrow.program_bytes() == project.invest_escrow.program_bytes()
            && i.project.locking_escrow.program_bytes() == project.locking_escrow.program_bytes()
            && i.project.central_escrow.program_bytes() == project.central_escrow.program_bytes()
            && i.project.customer_escrow.program_bytes() == project.customer_escrow.program_bytes(),
        r matches Err(e) ==> e == Error::Overflow || e == Error::InvalidGroup,
{
    let price = match asset_price.0.checked_mul(asset_count) {
        Some(p) => p,
        None => {
            return Err(Error::Overflow);
        },
    };
    let escrow = *project.invest_escrow.address();
    let setup = central_app_investor_setup_tx(params, central_app_id, shares_asset_id, *investor)?;
    let send = pay(params, *investor, escrow, MicroAlgos(price));
    let fee_tx = pay(params, *investor, escrow, MicroAlgos(FIXED_FEE));
    let optin = accept_asset(params, *investor, project.shares_asset_id);
    let mut receive = transfer_asset(params, escrow, project.shares_asset_id, asset_count, *staking_escrow.address());
    receive.fee = MicroAlgos(FIXED_FEE);
    let ghost input = seq![setup@, send@, optin@, receive@, fee_tx@];
    let mut txs: Vec<Txn> = Vec::new();
    txs.push(setup);
    txs.push(send);
    txs.push(optin);
    txs.push(receive);
    txs.push(fee_tx);
    proof {
        assert(views(txs@) =~= input);
    }
    let mut g = assign_group_id(txs)?;
    let ghost out = views(g@);
    let fee_tx = g.pop().unwrap();
    let receive = g.pop().unwrap();
    let optin = g.pop().unwrap();
    let send = g.pop().unwrap();
    let setup = g.pop().unwrap();
    proof {
        assert(seq![setup@, send@, optin@, receive@, fee_tx@] =~= out);
    }
    let signed = project.invest_escrow.sign(receive);
    Ok(InvestToSign {
        project: project.copy(),
        central_app_setup_tx: setup,
        payment_tx: send,
        shares_asset_optin_tx: optin,
        pay_escrow_fee_tx: fee_tx,
        shares_xfer_tx: signed,
    })
}

} // verus!
