//! Reclaiming votes: moving the vote tokens back from the vote-out escrow to the staking
//! escrow.
use vstd::prelude::*;

use crate::amounts::MicroAlgos;
use crate::chain::program_address_of;
use crate::error::Error;
use crate::teal::{ContractAccount, SignedTxn};
use crate::tx::{built, pay, transfer_asset, Address, TxParams, Txn, TxnTypeView, TxnView};
use crate::txgroup::{group_of_two, grouped};

verus! {

/// The fixed fee of each transaction of the reclaim.
pub const FIXED_FEE: u64 = 1_000u64;

/// An account's holding of an asset.
#[derive(Debug, Clone, Copy, PartialEq, Eq, Structural)]
pub struct AssetHolding {
    pub asset_id: u64,
    pub amount: u64,
}

/// The amount of the first holding of the asset in the list; `None` where there is none.
pub open spec fn holding_amount(holdings: Seq<AssetHolding>, asset_id: u64) -> Option<u64>
    decreases holdings.len(),
{
    if holdings.len() == 0 {
        None
    } else if holdings[0].asset_id == asset_id {
        Some(holdings[0].amount)
    } else {
        holding_amount(holdings.drop_first(), asset_id)
    }
}

/// The amount that an account holds of an asset, from the list of its holdings; refused where
/// the account does not hold the asset (is not opted in).
pub fn find_holding_amount(holdings: &Vec<AssetHolding>, asset_id: u64) -> (r: Result<u64, Error>)
    ensures
        r is Ok <==> holding_amount(holdings@, asset_id) is Some,
        r matches Ok(a) ==> holding_amount(holdings@, asset_id) == Some(a),
        r matches Err(e) ==> e == Error::NotFound,
{
    let mut i: usize = 0;
    proof {
        assert(holdings@.subrange(0, holdings.len() as int) =~= holdings@);
    }
    while i < holdings.len()
        invariant
            i <= holdings.len(),
            holding_amount(holdings@, asset_id) == holding_amount(
                holdings@.subrange(i as int, holdings.len() as int),
                asset_id,
            ),
        decreases holdings.len() - i,
    {
        let ghost rest = holdings@.subrange(i as int, holdings.len() as int);
        proof {
            assert(rest[0] == holdings@[i as int]);
            assert(rest.drop_first() =~= holdings@.subrange(i + 1, holdings.len() as int));
        }
        if holdings[i].asset_id == asset_id {
            return Ok(holdings[i].amount);
        }
        i = i + 1;
    }
    proof {
        assert(holdings@.subrange(i as int, holdings.len() as int).len() == 0);
    }
    Err(Error::NotFound)
}

/// The transactions of a reclaim of votes.
#[derive(Debug)]
pub struct ReclaimVotesToSign {
    /// The transfer of the votes from the vote-out escrow to the staking escrow.
    pub votes_xfer_tx: SignedTxn,
    /// The reclaimer's payment of that transfer's fee.
    pub pay_votes_xfer_fee_tx: Txn,
}

/// The two transactions of a reclaim of votes, before they are grouped: the transfer of the
/// votes and the payment of its fee to the vote-out escrow, each with the fixed fee.
pub open spec fn reclaim_votes_views(
    params: TxParams,
    reclaimer: Address,
    votes_asset_id: u64,
    vote_out: Address,
    staking: Address,
    count: u64,
) -> Seq<TxnView> {
    seq![
        built(
            params,
            vote_out,
            TxnTypeView::AssetTransfer { asset_id: votes_asset_id, amount: count, receiver: staking },
        ).with_fee(FIXED_FEE),
        built(params, reclaimer, TxnTypeView::Payment { receiver: vote_out, amount: FIXED_FEE })
            .with_fee(FIXED_FEE),
    ]
}

/// Transfers all the votes that the vote-out escrow holds (by its holdings) to the staking
/// escrow, signed by the vote-out escrow; the reclaimer pays the transfer's fee; the two in
/// one group. Refused where the vote-out escrow does not hold the votes asset.
pub fn reclaim_votes(
    reclaimer: Address,
    votes_asset_id: u64,
    vote_out_escrow: &ContractAccount,
    staking_escrow: &ContractAccount,
    vote_out_holdings: &Vec<AssetHolding>,
    params: &TxParams,
) -> (r: Result<ReclaimVotesToSign, Error>)
    requires
        params.wf(),
    ensures
        r is Ok <==> (holding_amount(vote_out_holdings@, votes_asset_id) matches Some(count)
            && grouped(
            reclaim_votes_views(
                *params,
                reclaimer,
                votes_asset_id,
                program_address_of(vote_out_escrow.program_bytes()),
                program_address_of(staking_escrow.program_bytes()),
                count,
            ),
        ) is Some),
        r matches Ok(v) ==> grouped(
            reclaim_votes_views(
                *params,
                reclaimer,
                votes_asset_id,
                program_address_of(vote_out_escrow.program_bytes()),
                program_address_of(staking_escrow.program_bytes()),
                holding_amount(vote_out_holdings@, votes_asset_id)->0,
            ),
        ) == Some(seq![v.votes_xfer_tx.transaction@, v.pay_votes_xfer_fee_tx@])
            && v.votes_xfer_tx.program@ == vote_out_escrow.program_bytes(),
        r matches Err(e) ==> e == Error::NotFound || e == Error::InvalidGroup,
{
    let count = find_holding_amount(vote_out_holdings, votes_asset_id)?;
    let mut votes_xfer_tx = transfer_asset(
        params,
        *vote_out_escrow.address(),
        votes_asset_id,
        count,
        *staking_escrow.address(),
    );
    votes_xfer_tx.fee = MicroAlgos(FIXED_FEE);
    let mut pay_fee_tx = pay(params, reclaimer, *vote_out_escrow.address(), MicroAlgos(FIXED_FEE));
    pay_fee_tx.fee = MicroAlgos(FIXED_FEE);
    let (votes_xfer_tx, pay_fee_tx) = group_of_two(votes_xfer_tx, pay_fee_tx)?;
    let signed = vote_out_escrow.sign(votes_xfer_tx);
    Ok(ReclaimVotesToSign { votes_xfer_tx: signed, pay_votes_xfer_fee_tx: pay_fee_tx })
}

} // verus!
