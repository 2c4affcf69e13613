//! Storing a DAO on the chain: its note in a zero payment of the creator to itself.
use vstd::prelude::*;

use crate::amounts::MicroAlgos;
use crate::error::Error;
use crate::flows::create_dao::model::Dao;
use crate::tx::{built, pay, Address, TxParams, Txn, TxnTypeView};

verus! {

/// The transaction that stores a DAO.
#[derive(Debug)]
pub struct SaveDaoToSign {
    pub tx: Txn,
    pub dao: Dao,
}

/// Stores a DAO: a zero payment of the creator to itself whose note holds the DAO (its
/// encoding, framed by the caller).
pub fn save_dao(creator: &Address, dao: &Dao, note: Vec<u8>, params: &TxParams) -> (r: Result<SaveDaoToSign, Error>)
    requires
        params.wf(),
    ensures
        r matches Ok(s) && s.dao == *dao && s.tx@ == built(
            *params,
            *creator,
            TxnTypeView::Payment { receiver: *creator, amount: 0 },
        ).with_note(note@),
{
    let mut tx = pay(params, *creator, *creator, MicroAlgos(0));
    tx.note = Some(note);
    Ok(SaveDaoToSign { tx, dao: dao.copy() })
}

} // verus!
