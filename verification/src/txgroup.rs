//! Fees and groups of transactions.
use vstd::prelude::*;

use crate::amounts::MicroAlgos;
use crate::chain::{compute_group_id, encode_transaction, encoded_transaction_of, group_id_of};
use crate::error::Error;
use crate::tx::{TxParams, Txn, TxnView};

verus! {

/// The fee of a transaction signed by a single signature, as the chain's SDK estimates it:
/// the per-byte fee times the encoded size plus 75 bytes of signature, but at least the
/// minimum fee; `None` where the encoding fails or the product leaves a `u64`.
pub open spec fn estimated_fee(tx: TxnView, fee_per_byte: u64, min_fee: u64) -> Option<u64> {
    match encoded_transaction_of(tx) {
        None => None,
        Some(bytes) => if fee_per_byte * (bytes.len() + 75) > u64::MAX {
            None
        } else if fee_per_byte * (bytes.len() + 75) < min_fee {
            Some(min_fee)
        } else {
            Some((fee_per_byte * (bytes.len() + 75)) as u64)
        },
    }
}

/// The sum of the estimated fees of the transactions; `None` where one fails or the sum leaves
/// a `u64`.
pub open spec fn total_fee(txs: Seq<TxnView>, fee_per_byte: u64, min_fee: u64) -> Option<u64>
    decreases txs.len(),
{
    if txs.len() == 0 {
        Some(0)
    } else {
        match (
            total_fee(txs.drop_last(), fee_per_byte, min_fee),
            estimated_fee(txs.last(), fee_per_byte, min_fee),
        ) {
            (Some(a), Some(b)) => if a + b <= u64::MAX {
                Some((a + b) as u64)
            } else {
                None
            },
            _ => None,
        }
    }
}

/// The views of a list of transactions.
pub open spec fn views(txs: Seq<Txn>) -> Seq<TxnView> {
    txs.map_values(|t: Txn| t@)
}

/// The estimated fee of a transaction.
pub fn estimate_fee(tx: &Txn, params: &TxParams) -> (r: Result<MicroAlgos, Error>)
    ensures
        r is Ok <==> estimated_fee(tx@, params.fee_per_byte, params.min_fee) is Some,
        r matches Ok(f) ==> estimated_fee(tx@, params.fee_per_byte, params.min_fee) == Some(f.0),
        r matches Err(e) ==> e == Error::FeeEstimation,
{
    let bytes = match encode_transaction(tx) {
        Some(b) => b,
        None => {
            return Err(Error::FeeEstimation);
        },
    };
    let size: u128 = bytes.len() as u128 + 75;
    let f: u128 = match (params.fee_per_byte as u128).checked_mul(size) {
        Some(f) => f,
        None => {
            return Err(Error::FeeEstimation);
        },
    };
    if f > 0xffff_ffff_ffff_ffffu128 {
        Err(Error::FeeEstimation)
    } else if f < params.min_fee as u128 {
        Ok(MicroAlgos(params.min_fee))
    } else {
        Ok(MicroAlgos(f as u64))
    }
}

/// The total fee of transactions: the sum of their estimated fees. With no fee per byte, it is
/// the minimum fee times the number of transactions.
pub fn calculate_total_fee(params: &TxParams, txs: &Vec<Txn>) -> (r: Result<MicroAlgos, Error>)
    ensures
        r is Ok <==> total_fee(views(txs@), params.fee_per_byte, params.min_fee) is Some,
        r matches Ok(f) ==> total_fee(views(txs@), params.fee_per_byte, params.min_fee) == Some(
            f.0,
        ),
        r matches Err(e) ==> e == Error::FeeEstimation || e == Error::Overflow,
        (params.fee_per_byte == 0 && r is Ok) ==> r == Ok::<MicroAlgos, Error>(
            MicroAlgos((params.min_fee * txs.len()) as u64),
        ),
{
    let mut total: u64 = 0;
    let mut i: usize = 0;
    let ghost vs = views(txs@);
    proof {
        assert(vs.subrange(0, 0) =~= Seq::<TxnView>::empty());
    }
    while i < txs.len()
        invariant
            i <= txs.len(),
            vs == views(txs@),
            total_fee(vs.subrange(0, i as int), params.fee_per_byte, params.min_fee) == Some(
                total,
            ),
            params.fee_per_byte == 0 ==> total == params.min_fee * i,
        decreases txs.len() - i,
    {
        let fee = estimate_fee(&txs[i], params);
        proof {
            let pre = vs.subrange(0, i + 1);
            assert(pre.drop_last() =~= vs.subrange(0, i as int));
            assert(pre.last() == txs@[i as int]@);
        }
        let f = match fee {
            Ok(f) => f,
            Err(e) => {
                proof {
                    lemma_total_fee_prefix_none(vs, i as nat, params.fee_per_byte, params.min_fee);
                }
                return Err(e);
            },
        };
        total = match total.checked_add(f.0) {
            Some(t) => t,
            None => {
                proof {
                    lemma_total_fee_prefix_none(vs, i as nat, params.fee_per_byte, params.min_fee);
                }
                return Err(Error::Overflow);
            },
        };
        proof {
            if params.fee_per_byte == 0 {
                assert(f.0 == params.min_fee);
                assert(params.min_fee * (i + 1) == params.min_fee * i + params.min_fee)
                    by (nonlinear_arith);
            }
        }
        i = i + 1;
    }
    proof {
        assert(vs.subrange(0, txs.len() as int) =~= vs);
    }
    Ok(MicroAlgos(total))
}

/// If the total fee of the first `i + 1` transactions fails, so does that of all of them.
proof fn lemma_total_fee_prefix_none(vs: Seq<TxnView>, i: nat, fee_per_byte: u64, min_fee: u64)
    requires
        i < vs.len(),
        total_fee(vs.subrange(0, (i + 1) as int), fee_per_byte, min_fee) is None,
    ensures
        total_fee(vs, fee_per_byte, min_fee) is None,
    decreases vs.len() - i,
{
    if i + 1 == vs.len() {
        assert(vs.subrange(0, (i + 1) as int) =~= vs);
    } else {
        let pre = vs.subrange(0, (i + 2) as int);
        assert(pre.drop_last() =~= vs.subrange(0, (i + 1) as int));
        lemma_total_fee_prefix_none(vs, i + 1, fee_per_byte, min_fee);
    }
}

/// Assigns the SDK's group id of the transactions to each of them; fails where the SDK refuses
/// the group (an empty group or one of more than 16 transactions).
pub fn assign_group_id(txs: Vec<Txn>) -> (r: Result<Vec<Txn>, Error>)
    ensures
        r is Ok <==> group_id_of(views(txs@)) is Some,
        r matches Ok(v) ==> v.len() == txs.len() && forall|i: int|
            0 <= i < v.len() ==> #[trigger] v@[i]@ == txs@[i]@.with_group(
                group_id_of(views(txs@))->0,
            ),
        r matches Ok(v) ==> grouped(views(txs@)) == Some(views(v@)),
        r matches Err(e) ==> e == Error::InvalidGroup,
        (txs.len() == 0 || txs.len() > 16) ==> r is Err,
{
    let gid = match compute_group_id(&txs) {
        Some(g) => g,
        None => {
            return Err(Error::InvalidGroup);
        },
    };
    let ghost old_txs = txs@;
    let ghost n = txs.len();
    let mut rest = txs;
    let mut out: Vec<Txn> = Vec::new();
    proof {
        assert(views(old_txs) == views(rest@));
    }
    while rest.len() > 0
        invariant
            out.len() + rest.len() == n,
            n == old_txs.len(),
            group_id_of(views(old_txs)) == Some(gid@),
            forall|i: int| 0 <= i < rest.len() ==> #[trigger] rest@[i] == old_txs[out.len() + i],
            forall|i: int|
                0 <= i < out.len() ==> #[trigger] out@[i]@ == old_txs[i]@.with_group(gid@),
        decreases rest.len(),
    {
        let ghost before = rest@;
        let mut t = rest.remove(0);
        proof {
            assert(t == old_txs[out.len() as int]);
        }
        t.group = Some(gid);
        out.push(t);
        proof {
            assert forall|i: int| 0 <= i < rest.len() implies #[trigger] rest@[i] == old_txs[out.len()
                + i] by {
                assert(rest@[i] == before[i + 1]);
            }
        }
    }
    proof {
        assert(views(out@) =~= views(old_txs).map_values(|t: TxnView| t.with_group(gid@)));
    }
    Ok(out)
}

/// The transactions with the SDK's group id of all of them; `None` where the SDK refuses the
/// group.
pub open spec fn grouped(txs: Seq<TxnView>) -> Option<Seq<TxnView>> {
    match group_id_of(txs) {
        Some(g) => Some(txs.map_values(|t: TxnView| t.with_group(g))),
        None => None,
    }
}

/// Grouping gives every transaction the same group id and changes nothing else of them.
pub proof fn lemma_grouped_shares_one_id(txs: Seq<TxnView>)
    requires
        grouped(txs) is Some,
    ensures
        grouped(txs)->0.len() == txs.len(),
        forall|i: int|
            0 <= i < txs.len() ==> (#[trigger] grouped(txs)->0[i]).group == grouped(txs)->0[0].group
                && grouped(txs)->0[i].group is Some && (TxnView { group: None, ..grouped(txs)->0[i] })
                == (TxnView { group: None, ..txs[i] }),
{
}

/// Puts two transactions in one group.
pub fn group_of_two(a: Txn, b: Txn) -> (r: Result<(Txn, Txn), Error>)
    ensures
        r is Ok <==> grouped(seq![a@, b@]) is Some,
        r matches Ok(p) ==> grouped(seq![a@, b@]) == Some(seq![p.0@, p.1@]),
        r matches Err(e) ==> e == Error::InvalidGroup,
{
    let ghost av = a@;
    let ghost bv = b@;
    let mut txs: Vec<Txn> = Vec::new();
    txs.push(a);
    txs.push(b);
    proof {
        assert(views(txs@) =~= seq![av, bv]);
    }
    let mut g = assign_group_id(txs)?;
    let y = g.pop().unwrap();
    let x = g.pop().unwrap();
    proof {
        assert(views(seq![x, y]) =~= seq![x@, y@]);
    }
    Ok((x, y))
}

/// Puts three transactions in one group.
pub fn group_of_three(a: Txn, b: Txn, c: Txn) -> (r: Result<(Txn, Txn, Txn), Error>)
    ensures
        r is Ok <==> grouped(seq![a@, b@, c@]) is Some,
        r matches Ok(p) ==> grouped(seq![a@, b@, c@]) == Some(seq![p.0@, p.1@, p.2@]),
        r matches Err(e) ==> e == Error::InvalidGroup,
{
    let ghost av = a@;
    let ghost bv = b@;
    let ghost cv = c@;
    let mut txs: Vec<Txn> = Vec::new();
    txs.push(a);
    txs.push(b);
    txs.push(c);
    proof {
        assert(views(txs@) =~= seq![av, bv, cv]);
    }
    let mut g = assign_group_id(txs)?;
    let z = g.pop().unwrap();
    let y = g.pop().unwrap();
    let x = g.pop().unwrap();
    proof {
        assert(views(seq![x, y, z]) =~= seq![x@, y@, z@]);
    }
    Ok((x, y, z))
}

/// Two transactions in one group, the first paying the fees of both: its fee is the total fee
/// of the two (as they are before), then the group id is that of the two with that fee.
pub open spec fn paid_group_of_two(a: TxnView, b: TxnView, fee_per_byte: u64, min_fee: u64) -> Option<
    (TxnView, TxnView),
> {
    match total_fee(seq![a, b], fee_per_byte, min_fee) {
        None => None,
        Some(fee) => match group_id_of(seq![a.with_fee(fee), b]) {
            None => None,
            Some(g) => Some((a.with_fee(fee).with_group(g), b.with_group(g))),
        },
    }
}

/// Puts two transactions in one group in which the first pays the fees of both.
pub fn group_of_two_paid_by_first(params: &TxParams, a: Txn, b: Txn) -> (r: Result<(Txn, Txn), Error>)
    ensures
        r is Ok <==> paid_group_of_two(a@, b@, params.fee_per_byte, params.min_fee) is Some,
        r matches Ok(p) ==> paid_group_of_two(a@, b@, params.fee_per_byte, params.min_fee) == Some(
            (p.0@, p.1@),
        ),
        r matches Err(e) ==> e == Error::FeeEstimation || e == Error::Overflow || e
            == Error::InvalidGroup,
{
    let ghost av = a@;
    let ghost bv = b@;
    let mut txs: Vec<Txn> = Vec::new();
    txs.push(a);
    txs.push(b);
    proof {
        assert(views(txs@) =~= seq![av, bv]);
    }
    let fee = calculate_total_fee(params, &txs)?;
    let mut b = txs.pop().unwrap();
    let mut a = txs.pop().unwrap();
    a.fee = fee;
    let mut pair: Vec<Txn> = Vec::new();
    pair.push(a);
    pair.push(b);
    proof {
        assert(views(pair@) =~= seq![av.with_fee(fee.0), bv]);
    }
    let mut grouped = assign_group_id(pair)?;
    let y = grouped.pop().unwrap();
    let x = grouped.pop().unwrap();
    proof {
        assert(views(pair@) =~= seq![av.with_fee(fee.0), bv]);
    }
    Ok((x, y))
}

/// The first transaction with, as its fee, the total fee of the two in the given order
/// (the fee of the first listed is that of `payer`).
pub open spec fn with_fees_of(payer: TxnView, txs: Seq<TxnView>, fee_per_byte: u64, min_fee: u64) -> Option<TxnView> {
    match total_fee(txs, fee_per_byte, min_fee) {
        Some(f) => Some(payer.with_fee(f)),
        None => None,
    }
}

/// Makes `payer` pay the fees of itself and `other`: its fee becomes the total fee of the two,
/// listed in the given order (`payer_first`), as they are before.
pub fn pay_fees_of_two(params: &TxParams, payer: Txn, other: Txn, payer_first: bool) -> (r: Result<(Txn, Txn), Error>)
    ensures
        r is Ok <==> with_fees_of(
            payer@,
            if payer_first { seq![payer@, other@] } else { seq![other@, payer@] },
            params.fee_per_byte,
            params.min_fee,
        ) is Some,
        r matches Ok(p) ==> with_fees_of(
            payer@,
            if payer_first { seq![payer@, other@] } else { seq![other@, payer@] },
            params.fee_per_byte,
            params.min_fee,
        ) == Some(p.0@) && p.1@ == other@,
        r matches Err(e) ==> e == Error::FeeEstimation || e == Error::Overflow,
{
    let ghost pv = payer@;
    let ghost ov = other@;
    let mut txs: Vec<Txn> = Vec::new();
    if payer_first {
        txs.push(payer);
        txs.push(other);
    } else {
        txs.push(other);
        txs.push(payer);
    }
    proof {
        if payer_first {
            assert(views(txs@) =~= seq![pv, ov]);
        } else {
            assert(views(txs@) =~= seq![ov, pv]);
        }
    }
    let fee = calculate_total_fee(params, &txs)?;
    let second = txs.pop().unwrap();
    let first = txs.pop().unwrap();
    let (mut payer, other) = if payer_first {
        (first, second)
    } else {
        (second, first)
    };
    payer.fee = fee;
    Ok((payer, other))
}

} // verus!
