//! The group of transactions that creates a DAO (or project) once its shares asset and its
//! application exist: the application's setup, the funding of the four escrows, their opt-ins
//! and the transfer of the shares to the investing escrow.
use vstd::prelude::*;

use crate::amounts::MicroAlgos;
use crate::error::Error;
use crate::teal::{ContractAccount, SignedTxn};
use crate::tx::{accept_asset, built, pay, Address, TxParams, Txn, TxnTypeView, TxnView};
use crate::txgroup::{assign_group_id, grouped, pay_fees_of_two, views, with_fees_of};

verus! {

/// A payment of the native currency with the minimum fee.
pub open spec fn funding_view(params: TxParams, payer: Address, escrow: Address, amount: u64) -> TxnView {
    built(params, payer, TxnTypeView::Payment { receiver: escrow, amount })
}

/// An escrow's opt-in to an asset, whose fee another transaction pays.
pub open spec fn zero_fee_optin_view(params: TxParams, escrow: Address, asset_id: u64) -> TxnView {
    built(params, escrow, TxnTypeView::AssetAccept { asset_id }).with_fee(0)
}

/// The payer's funding of an escrow, whose fee pays also for the escrow's opt-in to an asset
/// (the total fee of the two, listed with the funding first or last), and the opt-in.
pub fn fund_and_optin(
    payer: &Address,
    escrow: &Address,
    amount: u64,
    asset_id: u64,
    params: &TxParams,
    funding_first: bool,
) -> (r: Result<(Txn, Txn), Error>)
    requires
        params.wf(),
    ensures
        r is Ok <==> with_fees_of(
            funding_view(*params, *payer, *escrow, amount),
            if funding_first {
                seq![funding_view(*params, *payer, *escrow, amount), zero_fee_optin_view(*params, *escrow, asset_id)]
            } else {
                seq![zero_fee_optin_view(*params, *escrow, asset_id), funding_view(*params, *payer, *escrow, amount)]
            },
            params.fee_per_byte,
            params.min_fee,
        ) is Some,
        r matches Ok(p) ==> with_fees_of(
            funding_view(*params, *payer, *escrow, amount),
            if funding_first {
                seq![funding_view(*params, *payer, *escrow, amount), zero_fee_optin_view(*params, *escrow, asset_id)]
            } else {
                seq![zero_fee_optin_view(*params, *escrow, asset_id), funding_view(*params, *payer, *escrow, amount)]
            },
            params.fee_per_byte,
            params.min_fee,
        ) == Some(p.0@) && p.1@ == zero_fee_optin_view(*params, *escrow, asset_id),
        r matches Err(e) ==> e == Error::FeeEstimation || e == Error::Overflow,
{
    let fund = pay(params, *payer, *escrow, MicroAlgos(amount));
    let mut optin = accept_asset(params, *escrow, asset_id);
    optin.fee = MicroAlgos(0);
    pay_fees_of_two(params, fund, optin, funding_first)
}

/// The grouped creation transactions.
#[derive(Debug)]
pub struct CreationGroup {
    pub setup_app_tx: Txn,
    /// The funding of the central, customer, locking and investing escrows, in this order.
    pub escrow_funding_txs: Vec<Txn>,
    /// The opt-ins of the locking and investing escrows to the shares, and of the central and
    /// customer escrows to the funds asset, in this order, each signed by its escrow.
    pub optin_txs: Vec<SignedTxn>,
    pub xfer_shares_to_invest_escrow: Txn,
}

/// Groups the ten creation transactions in this order: the setup call, the four fundings
/// (central, customer, locking, investing), the four opt-ins (locking, investing, central,
/// customer), the transfer of the shares to the investing escrow; then signs each opt-in by its
/// escrow.
pub fn assemble_creation_group(
    setup_app_tx: Txn,
    central_funding: Txn,
    customer_funding: Txn,
    locking_funding: Txn,
    invest_funding: Txn,
    locking_optin: Txn,
    invest_optin: Txn,
    central_optin: Txn,
    customer_optin: Txn,
    xfer_shares: Txn,
    locking: &ContractAccount,
    invest: &ContractAccount,
    central: &ContractAccount,
    customer: &ContractAccount,
) -> (r: Result<CreationGroup, Error>)
    ensures
        r is Ok <==> grouped(
            seq![
                setup_app_tx@,
                central_funding@,
                customer_funding@,
                locking_funding@,
                invest_funding@,
                locking_optin@,
                invest_optin@,
                central_optin@,
                customer_optin@,
                xfer_shares@,
            ],
        ) is Some,
        r matches Ok(g) ==> g.escrow_funding_txs.len() == 4 && g.optin_txs.len() == 4 && grouped(
            seq![
                setup_app_tx@,
                central_funding@,
                customer_funding@,
                locking_funding@,
                invest_funding@,
                locking_optin@,
                invest_optin@,
                central_optin@,
                customer_optin@,
                xfer_shares@,
            ],
        ) == Some(
            seq![
                g.setup_app_tx@,
                g.escrow_funding_txs@[0]@,
                g.escrow_funding_txs@[1]@,
                g.escrow_funding_txs@[2]@,
                g.escrow_funding_txs@[3]@,
                g.optin_txs@[0].transaction@,
                g.optin_txs@[1].transaction@,
                g.optin_txs@[2].transaction@,
                g.optin_txs@[3].transaction@,
                g.xfer_shares_to_invest_escrow@,
            ],
        ) && g.optin_txs@[0].program@ == locking.program_bytes() && g.optin_txs@[1].program@
            == invest.program_bytes() && g.optin_txs@[2].program@ == central.program_bytes()
            && g.optin_txs@[3].program@ == customer.program_bytes(),
        r matches Err(e) ==> e == Error::InvalidGroup,
{
    let ghost input = seq![
        setup_app_tx@,
        central_funding@,
        customer_funding@,
        locking_funding@,
        invest_funding@,
        locking_optin@,
        invest_optin@,
        central_optin@,
        customer_optin@,
        xfer_shares@,
    ];
    let mut txs: Vec<Txn> = Vec::new();
    txs.push(setup_app_tx);
    txs.push(central_funding);
    txs.push(customer_funding);
    txs.push(locking_funding);
    txs.push(invest_funding);
    txs.push(locking_optin);
    txs.push(invest_optin);
    txs.push(central_optin);
    txs.push(customer_optin);
    txs.push(xfer_shares);
    proof {
        assert(views(txs@) =~= input);
    }
    let mut g = assign_group_id(txs)?;
    let ghost out = views(g@);
    proof {
        assert(out.len() == 10);
    }
    let xfer = g.pop().unwrap();
    let customer_optin = g.pop().unwrap();
    let central_optin = g.pop().unwrap();
    let invest_optin = g.pop().unwrap();
    let locking_optin = g.pop().unwrap();
    let invest_funding = g.pop().unwrap();
    let locking_funding = g.pop().unwrap();
    let customer_funding = g.pop().unwrap();
    let central_funding = g.pop().unwrap();
    let setup = g.pop().unwrap();
    let ghost result = seq![
        setup@,
        central_funding@,
        customer_funding@,
        locking_funding@,
        invest_funding@,
        locking_optin@,
        invest_optin@,
        central_optin@,
        customer_optin@,
        xfer@,
    ];
    proof {
        assert(result =~= out);
    }
    let mut funding: Vec<Txn> = Vec::new();
    funding.push(central_funding);
    funding.push(customer_funding);
    funding.push(locking_funding);
    funding.push(invest_funding);
    let mut optins: Vec<SignedTxn> = Vec::new();
    optins.push(locking.sign(locking_optin));
    optins.push(invest.sign(invest_optin));
    optins.push(central.sign(central_optin));
    optins.push(customer.sign(customer_optin));
    Ok(CreationGroup {
        setup_app_tx: setup,
        escrow_funding_txs: funding,
        optin_txs: optins,
        xfer_shares_to_invest_escrow: xfer,
    })
}

} // verus!
