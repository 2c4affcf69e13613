use capi_core::amounts::{DaoAppId, FundsAmount, FundsAssetId, ShareAmount, Timestamp, Version, Versions};
use capi_core::capi::CapiAppId;
use capi_core::decimal::Decimal;
use capi_core::error::Error;
use capi_core::flows::create_dao::app::{
    render_app_approval, render_central_app_approval_v1, render_central_app_clear_v1, setup_app_tx,
    versions_to_bytes, DaoInitData,
};
use capi_core::flows::create_dao::escrows::{render_central_escrow, render_investing_escrow_v1, render_locking_escrow};
use capi_core::flows::create_project::app::render_central_app;
use capi_core::flows::create_project::escrows::{render_customer_escrow, render_staking_escrow};
use capi_core::shares::SharesPercentage;
use capi_core::teal::{render_template, render_template_new, CompiledTeal, ContractAccount, TealSourceTemplate, VersionedTealSourceTemplate};
use capi_core::tx::{Address, TxParams, TxnType};

fn template(text: &str) -> TealSourceTemplate {
    TealSourceTemplate(text.as_bytes().to_vec())
}

fn text(bytes: &[u8]) -> String {
    String::from_utf8(bytes.to_vec()).unwrap()
}

fn address_text(a: &Address) -> String {
    algonaut::core::Address(a.0).to_string()
}

fn percentage(t: &str) -> SharesPercentage {
    let d: rust_decimal::Decimal = t.parse().unwrap();
    SharesPercentage::try_from(Decimal { mantissa: d.mantissa(), scale: d.scale(), negative: d.is_sign_negative() }).unwrap()
}

fn params() -> TxParams {
    TxParams { fee_per_byte: 0, min_fee: 1000, last_round: 10, genesis_hash: [1; 32], genesis_id: "t".to_string() }
}

#[test]
fn render_replaces_every_occurrence_in_order() {
    let kvs = vec![("TMPL_X", b"12".to_vec()), ("TMPL_Y", b"TMPL_X".to_vec())];
    let s = render_template_new(&template("a TMPL_X b TMPL_Y c TMPL_X"), &kvs);
    assert_eq!("a 12 b TMPL_X c 12", text(&s.0));
}

#[test]
fn render_with_no_keys_leaves_the_template() {
    let s = render_template_new(&template("unchanged"), &vec![]);
    assert_eq!("unchanged", text(&s.0));
}

#[test]
fn render_with_context_fills_braced_fields() {
    let ctx = vec![("a", b"1".to_vec()), ("b", b"two".to_vec())];
    let s = render_template(&template("{{a}} and {{b}} and {{a}} but not a"), &ctx);
    assert_eq!("1 and two and 1 but not a", text(&s.0));
}

#[test]
fn central_escrow_template_gets_the_dao_data() {
    let owner = Address([3; 32]);
    let t = VersionedTealSourceTemplate { version: Version(1), template: template("FA=TMPL_FUNDS_ASSET_ID O=TMPL_OWNER APP=TMPL_CENTRAL_APP_ID") };
    let s = render_central_escrow(&t, &owner, FundsAssetId(5), DaoAppId(7)).unwrap();
    assert_eq!(format!("FA=5 O={} APP=7", address_text(&owner)), text(&s.0));
}

#[test]
fn unsupported_template_versions_are_refused() {
    let t = VersionedTealSourceTemplate { version: Version(2), template: template("x") };
    assert_eq!(Some(Error::UnsupportedVersion), render_central_escrow(&t, &Address([3; 32]), FundsAssetId(5), DaoAppId(7)).err());
    assert_eq!(Some(Error::UnsupportedVersion), render_locking_escrow(1, &t, DaoAppId(7)).err());
}

#[test]
fn investing_escrow_template_gets_the_app_escrow_address() {
    let locking = Address([4; 32]);
    let s = render_investing_escrow_v1(
        &template("TMPL_SHARES_ASSET_ID TMPL_SHARE_PRICE TMPL_FUNDS_ASSET_ID TMPL_LOCKING_ESCROW_ADDRESS TMPL_APP_ESCROW_ADDRESS TMPL_CENTRAL_APP_ID"),
        123,
        &FundsAmount(1_000_000),
        &FundsAssetId(9),
        &locking,
        DaoAppId(123),
    )
    .unwrap();
    let app = algonaut::core::AppId(123).address().to_string();
    assert_eq!(format!("123 1000000 9 {} {} 123", address_text(&locking), app), text(&s.0));
}

#[test]
fn clear_program_is_the_template() {
    let s = render_central_app_clear_v1(&template("#pragma version 6")).unwrap();
    assert_eq!("#pragma version 6", text(&s.0));
}

#[test]
fn approval_template_gets_shares_and_precision() {
    let s = render_central_app_approval_v1(
        &template("TMPL_SHARE_SUPPLY|TMPL_INVESTORS_SHARE|TMPL_PRECISION__|TMPL_PRECISION_SQUARE|TMPL_CAPI_APP_ID|TMPL_CAPI_SHARE|TMPL_SHARE_PRICE"),
        ShareAmount(100),
        10_000,
        percentage("0.4"),
        CapiAppId(77),
        percentage("0.1"),
        FundsAmount(5),
    )
    .unwrap();
    assert_eq!("100|4000|10000|100000000|77|1000|5", text(&s.0));
}

#[test]
fn approval_template_refuses_an_overflowing_precision_square() {
    let r = render_central_app_approval_v1(&template("x"), ShareAmount(1), u64::MAX, percentage("0.4"), CapiAppId(1), percentage("0.1"), FundsAmount(1));
    assert_eq!(Some(Error::Overflow), r.err());
    let t = VersionedTealSourceTemplate { version: Version(3), template: template("x") };
    let r = render_app_approval(&t, ShareAmount(1), 10, percentage("0.4"), CapiAppId(1), percentage("0.1"), FundsAmount(1));
    assert_eq!(Some(Error::UnsupportedVersion), r.err());
}

#[test]
fn project_app_template_gets_the_share_in_precision_units() {
    let customer = Address([1; 32]);
    let central = Address([2; 32]);
    let s = render_central_app(&template("{{asset_id}} {{asset_supply}} {{investors_share}} {{precision}} {{precision_square}}"), 5, 100, 10_000, 40, &customer, &central).unwrap();
    assert_eq!("5 100 4000 10000 100000000", text(&s.0));
}

#[test]
fn customer_and_staking_templates() {
    let central = Address([2; 32]);
    let capi = Address([8; 32]);
    let s = render_customer_escrow(&central, &template("TMPL_CENTRAL_ESCROW_ADDRESS/TMPL_CAPI_ESCROW_ADDRESS/TMPL_CENTRAL_APP_ID"), &capi, 42).unwrap();
    assert_eq!(format!("{}/{}/42", address_text(&central), address_text(&capi)), text(&s.0));
    let s = render_staking_escrow(31, template("asset {{shares_asset_id}}")).unwrap();
    assert_eq!("asset 31", text(&s.0));
}

#[test]
fn contract_account_address_is_the_sdk_program_address() {
    let program = vec![1u8, 32, 1, 1];
    let account = ContractAccount::new(CompiledTeal(program.clone()));
    let sdk = algonaut::transaction::contract_account::ContractAccount::new(algonaut::core::CompiledTeal(program));
    assert_eq!(sdk.address().0, account.address().0);
    let signed = account.sign(capi_core::tx::pay(&params(), *account.address(), Address([0; 32]), capi_core::amounts::MicroAlgos(1)));
    assert_eq!(vec![1u8, 32, 1, 1], signed.program);
}

#[test]
fn versions_are_two_big_endian_words() {
    let v = versions_to_bytes(Versions { app_approval: Version(1), app_clear: Version(258) }).unwrap();
    assert_eq!(vec![0, 0, 0, 1, 0, 0, 1, 2], v);
}

#[test]
fn setup_call_carries_the_dao_data() {
    let data = DaoInitData {
        app_approval_version: Version(1),
        app_clear_version: Version(1),
        shares_asset_id: 44,
        funds_asset_id: FundsAssetId(7),
        project_name: "My dao".to_string(),
        descr_hash: None,
        share_price: FundsAmount(5),
        investors_share: percentage("0.4"),
        image_hash: None,
        image_nft: None,
        social_media_url: "url".to_string(),
        min_raise_target: FundsAmount(100),
        min_raise_target_end_date: Timestamp(1_000),
    };
    let tx = setup_app_tx(DaoAppId(3), &Address([1; 32]), &params(), &data).unwrap();
    assert_eq!(Some(b"dao_setup".to_vec()), tx.note);
    match &tx.txn_type {
        TxnType::ApplicationCall { app_arguments, foreign_assets, .. } => {
            let args = app_arguments.clone().unwrap();
            assert_eq!(11, args.len());
            assert_eq!(44u64.to_be_bytes().to_vec(), args[0]);
            assert_eq!(b"My dao".to_vec(), args[2]);
            assert_eq!(Vec::<u8>::new(), args[3]);
            assert_eq!(40u64.to_be_bytes().to_vec(), args[5]);
            assert_eq!(1_000u64.to_be_bytes().to_vec(), args[10]);
            assert_eq!(Some(vec![7, 44]), foreign_assets.clone());
        }
        _ => panic!("not a call"),
    }
}
