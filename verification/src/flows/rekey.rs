//! Rekeying an account: handing its signing authority to another account.
use vstd::prelude::*;

use crate::amounts::MicroAlgos;
use crate::error::Error;
use crate::tx::{built, pay, Address, TxParams, Txn, TxnTypeView, TxnView};

verus! {

/// The transaction of a rekey.
#[derive(Debug)]
pub struct RekeyToSign {
    pub tx: Txn,
}

/// A zero payment of the account to itself that rekeys it to `auth`.
pub open spec fn rekey_view(params: TxParams, to_rekey: Address, auth: Address) -> TxnView {
    TxnView {
        rekey_to: Some(auth),
        ..built(params, to_rekey, TxnTypeView::Payment { receiver: to_rekey, amount: 0 })
    }
}

/// The rekey of `to_rekey` to `auth`: a zero payment of the account to itself, with `auth` as
/// the new signing authority.
pub fn rekey(to_rekey: &Address, auth: &Address, params: &TxParams) -> (r: Result<RekeyToSign, Error>)
    requires
        params.wf(),
    ensures
        r matches Ok(k) && k.tx@ == rekey_view(*params, *to_rekey, *auth),
{
    let mut tx = pay(params, *to_rekey, *to_rekey, MicroAlgos(0));
    tx.rekey_to = Some(*auth);
    Ok(RekeyToSign { tx })
}

} // verus!
