use capi_core::amounts::{DaoAppId, FundsAmount, FundsAssetId, MicroAlgos, ShareAmount, Timestamp, Version};
use capi_core::capi::{CapiAddress, CapiAppId, CapiAssetDaoDeps, CapiAssetId};
use capi_core::decimal::Decimal;
use capi_core::flows::create_dao::create::create_dao_txs;
use capi_core::flows::create_dao::app::DaoInitData;
use capi_core::flows::create_dao::escrows::{setup_central_escrow, setup_investing_escrow_txs};
use capi_core::flows::create_dao::model::{CreateSharesSpecs, SetupDaoSpecs};
use capi_core::flows::create_dao::setup::{setup_dao_txs, Programs};
use capi_core::flows::create_project::create::create_project_txs;
use capi_core::flows::create_project::escrows::{setup_customer_escrow, setup_staking_escrow_txs};
use capi_core::flows::create_project::model::CreateProjectSpecs;
use capi_core::flows::create_project::storage::{creator_investor_setup, save_project_and_optin_to_app};
use capi_core::flows::create_project::note::{storable_project_to_project, ProjectId, ProjectNoteProjectPayload};
use capi_core::shares::SharesPercentage;
use capi_core::teal::{CompiledTeal, ContractAccount, TealSourceTemplate, VersionedContractAccount, VersionedTealSourceTemplate};
use capi_core::tx::{Address, TxParams, TxnType};
use sha2::Digest;

fn params() -> TxParams {
    TxParams { fee_per_byte: 0, min_fee: 1000, last_round: 10, genesis_hash: [1; 32], genesis_id: "t".to_string() }
}

fn account(b: u8) -> ContractAccount {
    ContractAccount::new(CompiledTeal(vec![b, 1]))
}

fn versioned(b: u8) -> VersionedContractAccount {
    VersionedContractAccount { version: Version(1), account: account(b) }
}

fn percentage(t: &str) -> SharesPercentage {
    let d: rust_decimal::Decimal = t.parse().unwrap();
    SharesPercentage::try_from(Decimal { mantissa: d.mantissa(), scale: d.scale(), negative: d.is_sign_negative() }).unwrap()
}

fn project_specs() -> CreateProjectSpecs {
    CreateProjectSpecs::new(
        "p".into(),
        "d".into(),
        CreateSharesSpecs { token_name: "TKN".into(), supply: ShareAmount(100) },
        ShareAmount(40),
        FundsAmount(5),
        String::new(),
        String::new(),
    )
    .unwrap()
}

#[test]
fn central_escrow_funding_pays_the_optin() {
    let s = setup_central_escrow(&Address([1; 32]), versioned(1), &params(), FundsAssetId(7)).unwrap();
    assert_eq!(MicroAlgos(2000), s.fund_min_balance_tx.fee);
    assert_eq!(MicroAlgos(0), s.optin_to_funds_asset_tx.fee);
    match &s.fund_min_balance_tx.txn_type {
        TxnType::Payment { receiver, amount } => assert_eq!((*account(1).address(), MicroAlgos(200_000)), (*receiver, *amount)),
        _ => panic!("not a payment"),
    }
}

#[test]
fn investing_escrow_receives_the_supply() {
    let s = setup_investing_escrow_txs(versioned(2), 44, ShareAmount(100), &Address([1; 32]), &params()).unwrap();
    match &s.escrow_funding_shares_asset_tx.txn_type {
        TxnType::AssetTransfer { asset_id, amount, receiver } => assert_eq!((44, 100, *account(2).address()), (*asset_id, *amount, *receiver)),
        _ => panic!("not a transfer"),
    }
    assert_eq!(MicroAlgos(2000), s.escrow_funding_algos_tx.fee);
}

#[test]
fn customer_and_staking_escrows() {
    let c = setup_customer_escrow(&Address([1; 32]), account(3), &params(), FundsAssetId(7)).unwrap();
    assert_eq!(MicroAlgos(2000), c.fund_min_balance_tx.fee);
    let s = setup_staking_escrow_txs(account(4), 44, &Address([1; 32]), &params()).unwrap();
    match &s.escrow_funding_algos_tx.txn_type {
        TxnType::Payment { amount, .. } => assert_eq!(MicroAlgos(1_000_000), *amount),
        _ => panic!("not a payment"),
    }
    assert_eq!(MicroAlgos(1000), s.escrow_shares_optin_tx.fee);
}

#[test]
fn dao_setup_group() {
    let specs = SetupDaoSpecs::new(
        "dao".into(),
        None,
        CreateSharesSpecs { token_name: "TKN".into(), supply: ShareAmount(100) },
        percentage("0.4"),
        FundsAmount(5),
        None,
        String::new(),
        ShareAmount(30),
        FundsAmount(10),
        Timestamp(99),
    )
    .unwrap();
    let programs = Programs {
        central_app_approval: VersionedTealSourceTemplate { version: Version(1), template: TealSourceTemplate(vec![]) },
        central_app_clear: VersionedTealSourceTemplate { version: Version(1), template: TealSourceTemplate(vec![]) },
    };
    let s = setup_dao_txs(&specs, Address([1; 32]), 44, FundsAssetId(7), &programs, 10_000, DaoAppId(3), &params()).unwrap();
    assert_eq!(MicroAlgos(3000), s.fund_app_tx.fee);
    match &s.transfer_shares_to_app_tx.txn_type {
        TxnType::AssetTransfer { asset_id, amount, receiver } => assert_eq!((44, 30, DaoAppId(3).address()), (*asset_id, *amount, *receiver)),
        _ => panic!("not a transfer"),
    }
    assert!(s.fund_app_tx.group.is_some());
    assert_eq!(s.fund_app_tx.group, s.setup_app_tx.group);
    assert_eq!(s.fund_app_tx.group, s.transfer_shares_to_app_tx.group);
}

#[test]
fn project_creation_group_of_ten() {
    let t = create_project_txs(&project_specs(), Address([1; 32]), 44, FundsAssetId(7), account(1), account(2), account(3), account(4), 10_000, 3, &params()).unwrap();
    assert_eq!(4, t.escrow_funding_txs.len());
    assert_eq!(4, t.optin_txs.len());
    let g = t.setup_app_tx.group;
    assert!(g.is_some());
    assert!(t.escrow_funding_txs.iter().all(|x| x.group == g));
    assert!(t.optin_txs.iter().all(|x| x.transaction.group == g));
    assert_eq!(g, t.xfer_shares_to_invest_escrow.group);
    assert_eq!(vec![3u8, 1], t.optin_txs[0].program);
    assert_eq!(vec![4u8, 1], t.optin_txs[1].program);
    assert_eq!(vec![1u8, 1], t.optin_txs[2].program);
    assert_eq!(vec![2u8, 1], t.optin_txs[3].program);
}

#[test]
fn dao_creation_group_of_ten() {
    let deps = CapiAssetDaoDeps {
        escrow_percentage: percentage("0.1"),
        app_id: CapiAppId(1),
        asset_id: CapiAssetId(2),
        address: CapiAddress(Address([3; 32])),
    };
    let data = DaoInitData {
        app_approval_version: Version(1),
        app_clear_version: Version(1),
        shares_asset_id: 0,
        funds_asset_id: FundsAssetId(0),
        project_name: String::new(),
        descr_hash: None,
        share_price: FundsAmount(0),
        investors_share: percentage("0.4"),
        image_hash: None,
        image_nft: None,
        social_media_url: "url".to_string(),
        min_raise_target: FundsAmount(100),
        min_raise_target_end_date: Timestamp(1_000),
    };
    let t = create_dao_txs(&project_specs(), data, Address([1; 32]), 44, FundsAssetId(7), versioned(1), account(2), versioned(3), versioned(4), 10_000, DaoAppId(3), &deps, &params()).unwrap();
    // The setup call sends the DAO's init data, with the ids and the name, price and url of the specification.
    assert_eq!(Some(b"dao_setup".to_vec()), t.setup_app_tx.note.clone());
    match &t.setup_app_tx.txn_type {
        TxnType::ApplicationCall { app_id, app_arguments, foreign_assets, .. } => {
            let args = app_arguments.clone().unwrap();
            assert_eq!(3, *app_id);
            assert_eq!(11, args.len());
            assert_eq!(44u64.to_be_bytes().to_vec(), args[0]);
            assert_eq!(7u64.to_be_bytes().to_vec(), args[1]);
            assert_eq!(b"p".to_vec(), args[2]);
            assert_eq!(5u64.to_be_bytes().to_vec(), args[4]);
            assert_eq!(40u64.to_be_bytes().to_vec(), args[5]);
            assert_eq!(Vec::<u8>::new(), args[7]);
            assert_eq!(&Some(vec![7, 44]), foreign_assets);
        }
        _ => panic!("not an application call"),
    }
    let g = t.setup_app_tx.group;
    assert!(g.is_some());
    assert!(t.escrow_funding_txs.iter().all(|x| x.group == g));
    assert_eq!(g, t.xfer_shares_to_invest_escrow.group);
}

#[test]
fn save_project_and_creator_setup() {
    let encoding = vec![1u8];
    let hash: [u8; 32] = sha2::Sha512_256::digest(&encoding).into();
    let payload = ProjectNoteProjectPayload {
        name: "p".into(),
        description: "d".into(),
        asset_id: 44,
        asset_name: "TKN".into(),
        asset_supply: ShareAmount(100),
        share_price: FundsAmount(5),
        funds_asset_id: FundsAssetId(7),
        investors_part: ShareAmount(40),
        logo_url: String::new(),
        social_media_url: String::new(),
        creator: Address([1; 32]),
        shares_asset_id: 44,
        central_app_id: 3,
    };
    let project = storable_project_to_project(&payload, &hash, account(1), account(2), account(3), account(4), &encoding).unwrap();
    let s = save_project_and_optin_to_app(&Address([1; 32]), &project, vec![9, 9], &params()).unwrap();
    assert_eq!(Some(vec![9, 9]), s.save_project_tx.note);
    assert_eq!(MicroAlgos(1000), s.save_project_tx.fee);
    assert_eq!(s.app_optin_tx.group, s.save_project_tx.group);
    let c = creator_investor_setup(&Address([1; 32]), 3, 44, &ProjectId::from([6; 32]), &project, &params()).unwrap();
    match &c.stake_shares_tx.txn_type {
        TxnType::AssetTransfer { amount, receiver, .. } => assert_eq!((60, *account(2).address()), (*amount, *receiver)),
        _ => panic!("not a transfer"),
    }
}
