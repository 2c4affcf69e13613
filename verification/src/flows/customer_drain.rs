//! Draining a project's customer escrow into its central escrow.
use vstd::prelude::*;

use crate::amounts::MicroAlgos;
use crate::chain::program_address_of;
use crate::error::Error;
use crate::teal::{ContractAccount, SignedTxn};
use crate::tx::{built, call_app, pay, Address, OnComplete, TxParams, Txn, TxnTypeView, TxnView};
use crate::txgroup::{group_of_three, grouped};

verus! {

/// The balance that an account must keep.
pub const MIN_BALANCE: u64 = 100_000u64;

/// The fixed fee of each transaction of the drain.
pub const FIXED_FEE: u64 = 1_000u64;

/// The drainer's call of the central application: no arguments, the fixed fee.
pub open spec fn customer_drain_call_view(params: TxParams, app_id: u64, sender: Address) -> TxnView {
    built(
        params,
        sender,
        TxnTypeView::ApplicationCall {
            app_id,
            on_complete: OnComplete::NoOp,
            app_arguments: None,
            accounts: None,
            foreign_assets: None,
        },
    ).with_fee(FIXED_FEE)
}

/// The call of the central application that accompanies a drain.
pub fn drain_app_call_tx(app_id: u64, params: &TxParams, sender: &Address) -> (r: Result<Txn, Error>)
    requires
        params.wf(),
    ensures
        r matches Ok(tx) && tx@ == customer_drain_call_view(*params, app_id, *sender),
{
    let mut tx = call_app(params, *sender, app_id, OnComplete::NoOp, None, None, None);
    tx.fee = MicroAlgos(FIXED_FEE);
    Ok(tx)
}

/// The transactions of a drain of the customer escrow.
#[derive(Debug)]
pub struct DrainCustomerEscrowToSign {
    pub drain_tx: SignedTxn,
    pub pay_fee_tx: Txn,
    pub app_call_tx: Txn,
    pub amount_to_drain: MicroAlgos,
}

/// The three transactions of a drain, before they are grouped: the call of the central
/// application, the payment of the balance from the customer escrow to the central escrow, and
/// the drainer's payment of that payment's fee to the customer escrow; each with the fixed
/// fee.
pub open spec fn customer_drain_views(
    params: TxParams,
    drainer: Address,
    app_id: u64,
    customer_escrow: Address,
    central_escrow: Address,
    amount: u64,
) -> Seq<TxnView> {
    seq![
        customer_drain_call_view(params, app_id, drainer),
        built(params, customer_escrow, TxnTypeView::Payment { receiver: central_escrow, amount })
            .with_fee(FIXED_FEE),
        built(params, drainer, TxnTypeView::Payment { receiver: customer_escrow, amount: FIXED_FEE })
            .with_fee(FIXED_FEE),
    ]
}

/// The drain of a project's customer escrow, whose balance is `customer_escrow_balance`: all
/// of it but the minimum balance and one fixed fee goes to the central escrow, signed by the
/// customer escrow; the drainer pays that transfer's fee to the customer escrow, and calls the
/// central application; the three in one group.
pub fn drain_customer_escrow(
    drainer: &Address,
    central_app_id: u64,
    customer_escrow: &ContractAccount,
    central_escrow: &ContractAccount,
    customer_escrow_balance: MicroAlgos,
    params: &TxParams,
) -> (r: Result<DrainCustomerEscrowToSign, Error>)
    requires
        params.wf(),
        customer_escrow_balance.0 >= MIN_BALANCE + FIXED_FEE,
    ensures
        r is Ok <==> grouped(
            customer_drain_views(
                *params,
                *drainer,
                central_app_id,
                program_address_of(customer_escrow.program_bytes()),
                program_address_of(central_escrow.program_bytes()),
                (customer_escrow_balance.0 - MIN_BALANCE - FIXED_FEE) as u64,
            ),
        ) is Some,
        r matches Ok(d) ==> grouped(
            customer_drain_views(
                *params,
                *drainer,
                central_app_id,
                program_address_of(customer_escrow.program_bytes()),
                program_address_of(central_escrow.program_bytes()),
                (customer_escrow_balance.0 - MIN_BALANCE - FIXED_FEE) as u64,
            ),
        ) == Some(seq![d.app_call_tx@, d.drain_tx.transaction@, d.pay_fee_tx@])
            && d.drain_tx.program@ == customer_escrow.program_bytes()
            && d.amount_to_drain.0 == customer_escrow_balance.0 - MIN_BALANCE - FIXED_FEE,
        r matches Err(e) ==> e == Error::InvalidGroup,
{
    let balance_to_drain = MicroAlgos(customer_escrow_balance.0 - MIN_BALANCE - FIXED_FEE);
    let mut drain_tx = pay(params, *customer_escrow.address(), *central_escrow.address(), balance_to_drain);
    drain_tx.fee = MicroAlgos(FIXED_FEE);
    let mut pay_fee_tx = pay(params, *drainer, *customer_escrow.address(), MicroAlgos(FIXED_FEE));
    pay_fee_tx.fee = MicroAlgos(FIXED_FEE);
    let app_call_tx = drain_app_call_tx(central_app_id, params, drainer)?;
    let (app_call_tx, drain_tx, pay_fee_tx) = group_of_three(app_call_tx, drain_tx, pay_fee_tx)?;
    let signed_drain_tx = customer_escrow.sign(drain_tx);
    Ok(DrainCustomerEscrowToSign {
        drain_tx: signed_drain_tx,
        pay_fee_tx,
        app_call_tx,
        amount_to_drain: balance_to_drain,
    })
}

} // verus!
