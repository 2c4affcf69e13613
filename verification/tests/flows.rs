use capi_core::amounts::{DaoAppId, FundsAmount, FundsAssetId, MicroAlgos, ShareAmount, Timestamp};
use capi_core::capi::{CapiAddress, CapiAppId, CapiAssetDaoDeps, CapiAssetId};
use capi_core::decimal::Decimal;
use capi_core::error::Error;
use capi_core::flows::claim::claim;
use capi_core::flows::create_dao::model::Dao;
use capi_core::flows::customer_drain::drain_customer_escrow;
use capi_core::flows::drain::{drain, DaoAndCapiDrainAmounts};
use capi_core::flows::invest::invest_txs;
use capi_core::flows::lock::lock;
use capi_core::flows::pay::{pay_dao_app, pay_project};
use capi_core::flows::reclaim::reclaim;
use capi_core::flows::rekey::rekey;
use capi_core::flows::votes::{reclaim_votes, AssetHolding};
use capi_core::shares::SharesPercentage;
use capi_core::teal::{CompiledTeal, ContractAccount};
use capi_core::tx::{Address, OnComplete, TxParams, Txn, TxnType};
use capi_core::txgroup::{assign_group_id, calculate_total_fee};

fn params() -> TxParams {
    TxParams {
        fee_per_byte: 0,
        min_fee: 1000,
        last_round: 10,
        genesis_hash: [1; 32],
        genesis_id: "testnet-v1.0".to_string(),
    }
}

fn escrow(byte: u8) -> ContractAccount {
    ContractAccount::new(CompiledTeal(vec![byte, 2, 3]))
}

fn percentage(text: &str) -> SharesPercentage {
    let d: rust_decimal::Decimal = text.parse().unwrap();
    SharesPercentage::try_from(Decimal { mantissa: d.mantissa(), scale: d.scale(), negative: d.is_sign_negative() }).unwrap()
}

fn app_args(tx: &Txn) -> Vec<Vec<u8>> {
    match &tx.txn_type {
        TxnType::ApplicationCall { app_arguments, .. } => app_arguments.clone().unwrap_or_default(),
        _ => panic!("not an application call"),
    }
}

#[test]
fn claim_call_pays_both_fees_and_escrow_signs_transfer() {
    let claimer = Address([5; 32]);
    let central = escrow(1);
    let c = claim(&claimer, DaoAppId(3), FundsAssetId(7), FundsAmount(25), &central, &params()).unwrap();
    assert_eq!(MicroAlgos(2000), c.app_call_tx.fee);
    assert_eq!(MicroAlgos(0), c.claim_tx.transaction.fee);
    assert_eq!(vec![b"claim".to_vec()], app_args(&c.app_call_tx));
    assert!(c.app_call_tx.group.is_some());
    assert_eq!(c.app_call_tx.group, c.claim_tx.transaction.group);
    assert_eq!(vec![1, 2, 3], c.claim_tx.program);
    match &c.claim_tx.transaction.txn_type {
        TxnType::AssetTransfer { asset_id, amount, receiver } => {
            assert_eq!((7, 25, claimer), (*asset_id, *amount, *receiver));
        }
        _ => panic!("not a transfer"),
    }
    assert_eq!(*central.address(), c.claim_tx.transaction.sender);
}

#[test]
fn lock_sends_the_shares_to_the_application() {
    let investor = Address([9; 32]);
    let l = lock(investor, ShareAmount(12), 44, DaoAppId(3), &params()).unwrap();
    assert_eq!(vec![b"lock".to_vec(), vec![], vec![], vec![]], app_args(&l.central_app_call_setup_tx));
    match &l.shares_xfer_tx.txn_type {
        TxnType::AssetTransfer { asset_id, amount, receiver } => {
            assert_eq!((44, 12, DaoAppId(3).address()), (*asset_id, *amount, *receiver));
        }
        _ => panic!("not a transfer"),
    }
    assert_eq!(l.central_app_call_setup_tx.group, l.shares_xfer_tx.group);
    assert_eq!((10, 1010), (l.shares_xfer_tx.first_valid, l.shares_xfer_tx.last_valid));
}

#[test]
fn reclaim_call_pays_the_inner_transfer() {
    let r = reclaim(&Address([9; 32]), DaoAppId(3), 44, ShareAmount(5), FundsAssetId(7), &params()).unwrap();
    assert_eq!(MicroAlgos(2000), r.app_call_tx.fee);
    assert_eq!(MicroAlgos(1000), r.shares_xfer_tx.fee);
    assert_eq!(vec![b"reclaim".to_vec()], app_args(&r.app_call_tx));
    assert_eq!(r.app_call_tx.group, r.shares_xfer_tx.group);
}

#[test]
fn rekey_is_a_zero_payment_to_itself() {
    let a = Address([1; 32]);
    let b = Address([2; 32]);
    let k = rekey(&a, &b, &params()).unwrap();
    assert_eq!(Some(b), k.tx.rekey_to);
    match &k.tx.txn_type {
        TxnType::Payment { receiver, amount } => assert_eq!((a, MicroAlgos(0)), (*receiver, *amount)),
        _ => panic!("not a payment"),
    }
}

#[test]
fn payments_to_dao_and_project() {
    let c = Address([4; 32]);
    let p = pay_dao_app(&c, DaoAppId(8), FundsAssetId(7), FundsAmount(30), &params()).unwrap();
    match &p.tx.txn_type {
        TxnType::AssetTransfer { asset_id, amount, receiver } => assert_eq!((7, 30, DaoAppId(8).address()), (*asset_id, *amount, *receiver)),
        _ => panic!("not a transfer"),
    }
    let e = Address([6; 32]);
    let q = pay_project(&c, &e, MicroAlgos(50), &params()).unwrap();
    match &q.tx.txn_type {
        TxnType::Payment { receiver, amount } => assert_eq!((e, MicroAlgos(50)), (*receiver, *amount)),
        _ => panic!("not a payment"),
    }
}

fn dao() -> Dao {
    Dao {
        app_id: DaoAppId(3),
        owner: Address([1; 32]),
        shares_asset_id: 44,
        funds_asset_id: FundsAssetId(7),
        name: "dao".to_string(),
        descr_hash: None,
        token_name: "TKN".to_string(),
        token_supply: ShareAmount(100),
        investors_share: percentage("0.4"),
        share_price: FundsAmount(5),
        image_hash: None,
        image_nft: None,
        social_media_url: String::new(),
        raise_end_date: Timestamp(0),
        raise_min_target: FundsAmount(0),
        raised: FundsAmount(0),
    }
}

#[test]
fn invest_pays_price_times_shares() {
    let investor = Address([9; 32]);
    let i = invest_txs(&dao(), &investor, DaoAppId(3), 44, ShareAmount(10), FundsAssetId(7), FundsAmount(5), &params()).unwrap();
    assert_eq!(FundsAmount(50), i.total_price);
    assert_eq!(MicroAlgos(2000), i.central_app_setup_tx.fee);
    assert_eq!(vec![b"invest".to_vec(), 10u64.to_be_bytes().to_vec()], app_args(&i.central_app_setup_tx));
    assert_eq!(Some(b"Invest".to_vec()), i.payment_tx.note);
    match &i.payment_tx.txn_type {
        TxnType::AssetTransfer { asset_id, amount, receiver } => assert_eq!((7, 50, DaoAppId(3).address()), (*asset_id, *amount, *receiver)),
        _ => panic!("not a transfer"),
    }
    assert_eq!(i.shares_asset_optin_tx.group, i.payment_tx.group);
}

#[test]
fn invest_refuses_an_overflowing_price() {
    let r = invest_txs(&dao(), &Address([9; 32]), DaoAppId(3), 44, ShareAmount(u64::MAX), FundsAssetId(7), FundsAmount(5), &params());
    assert_eq!(Some(Error::Overflow), r.err());
}

#[test]
fn drain_call_pays_twice_the_fee() {
    let deps = CapiAssetDaoDeps {
        escrow_percentage: percentage("0.1"),
        app_id: CapiAppId(1),
        asset_id: CapiAssetId(2),
        address: CapiAddress(Address([3; 32])),
    };
    let amounts = DaoAndCapiDrainAmounts { dao: FundsAmount(9), capi: FundsAmount(1) };
    let d = drain(&Address([9; 32]), DaoAppId(3), FundsAssetId(7), &deps, &amounts, &params()).unwrap();
    assert_eq!(MicroAlgos(2000), d.app_call_tx.fee);
    assert_eq!(vec![b"drain".to_vec()], app_args(&d.app_call_tx));
    match &d.app_call_tx.txn_type {
        TxnType::ApplicationCall { accounts, foreign_assets, on_complete, .. } => {
            assert_eq!(Some(vec![Address([3; 32])]), accounts.clone());
            assert_eq!(Some(vec![7]), foreign_assets.clone());
            assert_eq!(OnComplete::NoOp, *on_complete);
        }
        _ => panic!("not a call"),
    }
}

#[test]
fn customer_escrow_keeps_its_minimum_balance_and_a_fee() {
    let d = drain_customer_escrow(&Address([9; 32]), 3, &escrow(1), &escrow(2), MicroAlgos(1_000_000), &params()).unwrap();
    assert_eq!(MicroAlgos(1_000_000 - 100_000 - 1_000), d.amount_to_drain);
    assert_eq!(MicroAlgos(1_000), d.pay_fee_tx.fee);
    assert_eq!(d.app_call_tx.group, d.drain_tx.transaction.group);
    assert_eq!(d.app_call_tx.group, d.pay_fee_tx.group);
}

#[test]
fn reclaim_votes_moves_all_the_votes() {
    let holdings = vec![AssetHolding { asset_id: 1, amount: 3 }, AssetHolding { asset_id: 5, amount: 70 }];
    let v = reclaim_votes(Address([9; 32]), 5, &escrow(1), &escrow(2), &holdings, &params()).unwrap();
    match &v.votes_xfer_tx.transaction.txn_type {
        TxnType::AssetTransfer { asset_id, amount, receiver } => assert_eq!((5, 70, *escrow(2).address()), (*asset_id, *amount, *receiver)),
        _ => panic!("not a transfer"),
    }
    let none = reclaim_votes(Address([9; 32]), 6, &escrow(1), &escrow(2), &holdings, &params());
    assert_eq!(Some(Error::NotFound), none.err());
}

#[test]
fn empty_group_is_refused() {
    assert_eq!(Some(Error::InvalidGroup), assign_group_id(Vec::new()).err());
}

#[test]
fn total_fee_without_fee_per_byte_is_min_fee_per_transaction() {
    let l = lock(Address([9; 32]), ShareAmount(12), 44, DaoAppId(3), &params()).unwrap();
    let txs = vec![l.central_app_call_setup_tx, l.shares_xfer_tx];
    assert_eq!(Ok(MicroAlgos(2000)), calculate_total_fee(&params(), &txs));
    let mut by_size = params();
    by_size.fee_per_byte = 100;
    let fee = calculate_total_fee(&by_size, &txs).unwrap();
    assert!(fee.0 > 2000);
}
