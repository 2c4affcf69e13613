use sha2::Digest;
use capi_core::amounts::{DaoAppId, DaoId, FundsAmount, FundsAssetId, ShareAmount, Timestamp};
use capi_core::decimal::Decimal;
use capi_core::error::Error;
use capi_core::flows::create_dao::model::{CreateSharesSpecs, SetupDaoSpecs};
use capi_core::flows::create_dao::setup::dao_from_setup;
use capi_core::flows::create_project::model::CreateProjectSpecs;
use capi_core::shares::SharesPercentage;
use capi_core::tx::Address;

fn percentage(t: &str) -> SharesPercentage {
    let d: rust_decimal::Decimal = t.parse().unwrap();
    SharesPercentage::try_from(Decimal { mantissa: d.mantissa(), scale: d.scale(), negative: d.is_sign_negative() }).unwrap()
}

fn shares(supply: u64) -> CreateSharesSpecs {
    CreateSharesSpecs { token_name: "TKN".to_string(), supply: ShareAmount(supply) }
}

fn setup_specs(for_investors: u64) -> Result<SetupDaoSpecs, Error> {
    SetupDaoSpecs::new(
        "dao".to_string(),
        None,
        shares(100),
        percentage("0.4"),
        FundsAmount(5),
        None,
        String::new(),
        ShareAmount(for_investors),
        FundsAmount(10),
        Timestamp(99),
    )
}

#[test]
fn setup_specs_refuse_more_investor_shares_than_supply() {
    assert_eq!(Some(Error::SharesExceedSupply), setup_specs(101).err());
    let s = setup_specs(30).unwrap();
    assert_eq!(ShareAmount(30), s.shares_for_investors());
    assert_eq!(ShareAmount(70), s.shares_for_creator());
    let all = setup_specs(100).unwrap();
    assert_eq!(ShareAmount(0), all.shares_for_creator());
}

#[test]
fn project_specs_split_the_supply() {
    let bad = CreateProjectSpecs::new("p".into(), "d".into(), shares(10), ShareAmount(11), FundsAmount(1), String::new(), String::new());
    assert_eq!(Some(Error::SharesExceedSupply), bad.err());
    let s = CreateProjectSpecs::new("p".into(), "d".into(), shares(10), ShareAmount(4), FundsAmount(1), String::new(), String::new()).unwrap();
    assert_eq!(ShareAmount(6), s.creator_part());
    assert_eq!(ShareAmount(4), s.investors_part());
}

#[test]
fn dao_from_setup_has_nothing_raised() {
    let dao = dao_from_setup(setup_specs(30).unwrap(), Address([1; 32]), 44, FundsAssetId(7), DaoAppId(3), None);
    assert_eq!(FundsAmount(0), dao.raised);
    assert_eq!(DaoId(DaoAppId(3)), dao.id());
    assert_eq!(DaoAppId(3).address(), dao.app_address());
    assert_eq!(ShareAmount(100), dao.token_supply);
    assert_eq!("TKN", dao.token_name);
}

#[test]
fn share_amounts_are_ordered_by_amount() {
    assert!(ShareAmount(3) < ShareAmount(4));
    assert!(ShareAmount(5) > ShareAmount(4));
}

fn sha512_256(bytes: &[u8]) -> [u8; 32] {
    <sha2::Sha512_256 as Digest>::digest(bytes).into()
}

#[test]
fn app_address_is_the_hash_of_the_app_id() {
    let mut preimage = b"appID".to_vec();
    preimage.extend_from_slice(&3u64.to_be_bytes());
    assert_eq!(sha512_256(&preimage), DaoAppId(3).address().0);
}

#[test]
fn program_address_is_the_hash_of_the_program() {
    let account = capi_core::teal::ContractAccount::new(capi_core::teal::CompiledTeal(vec![1, 2, 3]));
    let mut preimage = b"Program".to_vec();
    preimage.extend_from_slice(&[1, 2, 3]);
    assert_eq!(sha512_256(&preimage), account.address().0);
}
