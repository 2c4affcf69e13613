//! Locking shares bought elsewhere in the DAO's application.
use vstd::prelude::*;

use vstd::string::StringSliceAdditionalSpecFns;

use crate::amounts::{DaoAppId, ShareAmount};
use crate::chain::app_address_of;
use crate::error::Error;
use crate::text::text_bytes;
use crate::tx::{built, call_app, transfer_asset, Address, OnComplete, TxParams, Txn, TxnTypeView, TxnView};
use crate::txgroup::{group_of_two, grouped};

verus! {

/// The investor's call of the DAO's application that initializes the investor's local state:
/// argument "lock", then the url, hash and timestamp of a signed prospectus, all empty (none is
/// acknowledged when locking).
pub open spec fn lock_call_view(params: TxParams, app_id: u64, investor: Address) -> TxnView {
    built(
        params,
        investor,
        TxnTypeView::ApplicationCall {
            app_id,
            on_complete: OnComplete::NoOp,
            app_arguments: Some(
                seq!["lock".spec_bytes(), Seq::<u8>::empty(), Seq::<u8>::empty(), Seq::<u8>::empty()],
            ),
            accounts: None,
            foreign_assets: None,
        },
    )
}

/// The transfer of the shares from the investor to the application's account.
pub open spec fn lock_shares_view(
    params: TxParams,
    app_id: u64,
    investor: Address,
    shares_asset_id: u64,
    amount: u64,
) -> TxnView {
    built(
        params,
        investor,
        TxnTypeView::AssetTransfer {
            asset_id: shares_asset_id,
            amount,
            receiver: app_address_of(app_id),
        },
    )
}

/// The transactions of a lock.
#[derive(Debug)]
pub struct LockToSign {
    pub central_app_call_setup_tx: Txn,
    pub shares_xfer_tx: Txn,
}

/// The lock of shares bought in the market (the investing flow transfers them itself): the
/// investor's call of the application and the transfer of the shares to the application, in
/// one group.
pub fn lock(
    investor: Address,
    share_amount: ShareAmount,
    shares_asset_id: u64,
    app_id: DaoAppId,
    params: &TxParams,
) -> (r: Result<LockToSign, Error>)
    requires
        params.wf(),
    ensures
        r is Ok <==> grouped(
            seq![
                lock_call_view(*params, app_id.0, investor),
                lock_shares_view(*params, app_id.0, investor, shares_asset_id, share_amount.0),
            ],
        ) is Some,
        r matches Ok(l) ==> grouped(
            seq![
                lock_call_view(*params, app_id.0, investor),
                lock_shares_view(*params, app_id.0, investor, shares_asset_id, share_amount.0),
            ],
        ) == Some(seq![l.central_app_call_setup_tx@, l.shares_xfer_tx@]),
        r matches Err(e) ==> e == Error::InvalidGroup,
{
    let mut arguments: Vec<Vec<u8>> = Vec::new();
    arguments.push(text_bytes("lock"));
    arguments.push(Vec::new());
    arguments.push(Vec::new());
    arguments.push(Vec::new());
    let app_call_tx = call_app(params, investor, app_id.0, OnComplete::NoOp, Some(arguments), None, None);
    proof {
        assert(crate::tx::bytes_list(arguments) =~= seq![
            "lock".spec_bytes(),
            Seq::<u8>::empty(),
            Seq::<u8>::empty(),
            Seq::<u8>::empty(),
        ]);
    }
    let shares_xfer_tx = transfer_asset(
        params,
        investor,
        shares_asset_id,
        share_amount.val(),
        app_id.address(),
    );
    let (app_call_tx, shares_xfer_tx) = group_of_two(app_call_tx, shares_xfer_tx)?;
    Ok(LockToSign { central_app_call_setup_tx: app_call_tx, shares_xfer_tx })
}

} // verus!
