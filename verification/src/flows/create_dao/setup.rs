//! Setting up a created DAO: funding its application, initializing its state and moving the
//! shares for investors to it.
use vstd::prelude::*;

use crate::amounts::{DaoAppId, FundsAmount, FundsAssetId, MicroAlgos};
use crate::chain::app_address_of;
use crate::error::Error;
use crate::flows::create_dao::app::{setup_app_tx, setup_app_view, DaoInitData};
use crate::flows::create_dao::model::{CreateSharesSpecs, Dao, GlobalStateHash, Nft, SetupDaoSpecs};
use crate::ids::TxId;
use crate::shares::percentage_points;
use crate::teal::VersionedTealSourceTemplate;
use crate::tx::{built, pay, transfer_asset, Address, TxParams, Txn, TxnTypeView, TxnView};
use crate::txgroup::{group_of_three, grouped};

verus! {

/// The balance with which the application can hold two assets (the shares and the funds
/// asset).
pub const APP_MIN_BALANCE: u64 = 300_000u64;

/// The templates of the DAO's application.
#[derive(Debug)]
pub struct Programs {
    pub central_app_approval: VersionedTealSourceTemplate,
    pub central_app_clear: VersionedTealSourceTemplate,
}

/// The templates of the platform's application.
#[derive(Debug)]
pub struct CapiPrograms {
    pub app_approval: VersionedTealSourceTemplate,
    pub app_clear: VersionedTealSourceTemplate,
}

/// The transactions of a DAO's setup.
#[derive(Debug)]
pub struct SetupDaoToSign {
    pub fund_app_tx: Txn,
    pub setup_app_tx: Txn,
    pub transfer_shares_to_app_tx: Txn,
    pub specs: SetupDaoSpecs,
    pub creator: Address,
}

/// A copy of an optional hash.
fn copy_hash(h: &Option<GlobalStateHash>) -> (r: Option<GlobalStateHash>)
    ensures
        r == *h,
{
    match h {
        Some(g) => Some(GlobalStateHash(g.0.clone())),
        None => None,
    }
}

/// A copy of the specification.
pub fn copy_specs(specs: &SetupDaoSpecs) -> (r: SetupDaoSpecs)
    ensures
        r == *specs,
{
    SetupDaoSpecs {
        name: specs.name.clone(),
        descr_hash: copy_hash(&specs.descr_hash),
        shares: CreateSharesSpecs { token_name: specs.shares.token_name.clone(), supply: specs.shares.supply },
        investors_share: specs.investors_share,
        share_price: specs.share_price,
        image_hash: copy_hash(&specs.image_hash),
        social_media_url: specs.social_media_url.clone(),
        shares_for_investors: specs.shares_for_investors,
        raise_end_date: specs.raise_end_date,
        raise_min_target: specs.raise_min_target,
    }
}

/// The data that the setup call initializes the application with, from the specification.
pub open spec fn init_data_of(
    specs: SetupDaoSpecs,
    programs: Programs,
    shares_asset_id: u64,
    funds_asset_id: FundsAssetId,
) -> DaoInitData {
    DaoInitData {
        app_approval_version: programs.central_app_approval.version,
        app_clear_version: programs.central_app_clear.version,
        shares_asset_id,
        funds_asset_id,
        project_name: specs.name,
        descr_hash: specs.descr_hash,
        share_price: specs.share_price,
        investors_share: specs.investors_share,
        image_hash: specs.image_hash,
        image_nft: None,
        social_media_url: specs.social_media_url,
        min_raise_target: specs.raise_min_target,
        min_raise_target_end_date: specs.raise_end_date,
    }
}

/// The three transactions of a setup, before they are grouped: the creator's funding of the
/// application (with three times the minimum fee, to pay for the application's two asset
/// opt-ins), the setup call, and the transfer of the shares for investors to the application.
pub open spec fn setup_dao_views(
    params: TxParams,
    specs: SetupDaoSpecs,
    creator: Address,
    shares_asset_id: u64,
    funds_asset_id: FundsAssetId,
    programs: Programs,
    app_id: u64,
) -> Seq<TxnView> {
    seq![
        built(params, creator, TxnTypeView::Payment { receiver: app_address_of(app_id), amount: APP_MIN_BALANCE })
            .with_fee((params.min_fee * 3) as u64),
        setup_app_view(
            params,
            app_id,
            creator,
            init_data_of(specs, programs, shares_asset_id, funds_asset_id),
            percentage_points(specs.investors_share.dec())->0,
        ),
        built(
            params,
            creator,
            TxnTypeView::AssetTransfer {
                asset_id: shares_asset_id,
                amount: specs.shares_for_investors.0,
                receiver: app_address_of(app_id),
            },
        ),
    ]
}

/// The setup of a created DAO: the funding of its application, the call that initializes its
/// state, and the transfer of the shares for investors to it (the creator keeps the rest), in
/// one group.
pub fn setup_dao_txs(
    specs: &SetupDaoSpecs,
    creator: Address,
    shares_asset_id: u64,
    funds_asset_id: FundsAssetId,
    programs: &Programs,
    precision: u64,
    app_id: DaoAppId,
    params: &TxParams,
) -> (r: Result<SetupDaoToSign, Error>)
    requires
        params.wf(),
        params.min_fee * 3 <= u64::MAX,
    ensures
        r is Ok <==> (percentage_points(specs.investors_share.dec()) is Some && grouped(
            setup_dao_views(*params, *specs, creator, shares_asset_id, funds_asset_id, *programs, app_id.0),
        ) is Some),
        r matches Ok(s) ==> grouped(
            setup_dao_views(*params, *specs, creator, shares_asset_id, funds_asset_id, *programs, app_id.0),
        ) == Some(seq![s.fund_app_tx@, s.setup_app_tx@, s.transfer_shares_to_app_tx@])
            && s.specs == *specs && s.creator == creator,
        r matches Err(e) ==> e == Error::DecimalConversion || e == Error::InvalidGroup,
{
    let app_address = app_id.address();
    let transfer_shares_to_app_tx = transfer_asset(
        params,
        creator,
        shares_asset_id,
        specs.shares_for_investors().val(),
        app_address,
    );
    let data = DaoInitData {
        app_approval_version: programs.central_app_approval.version,
        app_clear_version: programs.central_app_clear.version,
        shares_asset_id,
        funds_asset_id,
        project_name: specs.name.clone(),
        descr_hash: copy_hash(&specs.descr_hash),
        share_price: specs.share_price,
        investors_share: specs.investors_share,
        image_hash: copy_hash(&specs.image_hash),
        image_nft: None,
        social_media_url: specs.social_media_url.clone(),
        min_raise_target: specs.raise_min_target,
        min_raise_target_end_date: specs.raise_end_date,
    };
    let setup_app_tx = setup_app_tx(app_id, &creator, params, &data)?;
    let mut fund_app_tx = pay(params, creator, app_address, MicroAlgos(APP_MIN_BALANCE));
    fund_app_tx.fee = MicroAlgos(fund_app_tx.fee.0 * 3);
    let (fund_app_tx, setup_app_tx, transfer_shares_to_app_tx) = group_of_three(
        fund_app_tx,
        setup_app_tx,
        transfer_shares_to_app_tx,
    )?;
    Ok(SetupDaoToSign {
        fund_app_tx,
        setup_app_tx,
        transfer_shares_to_app_tx,
        specs: copy_specs(specs),
        creator,
    })
}

/// The result of a submitted setup: the id of the setup transactions and the DAO.
#[derive(Debug)]
pub struct SubmitSetupDaoResult {
    pub tx_id: TxId,
    pub dao: Dao,
}

/// The DAO that a submitted setup created, from its specification and the ids that its
/// creation gave: nothing raised yet.
pub fn dao_from_setup(
    specs: SetupDaoSpecs,
    creator: Address,
    shares_asset_id: u64,
    funds_asset_id: FundsAssetId,
    app_id: DaoAppId,
    image_nft: Option<Nft>,
) -> (r: Dao)
    ensures
        r == (Dao {
            app_id,
            owner: creator,
            shares_asset_id,
            funds_asset_id,
            name: specs.name,
            descr_hash: specs.descr_hash,
            token_name: specs.shares.token_name,
            token_supply: specs.shares.supply,
            investors_share: specs.investors_share,
            share_price: specs.share_price,
            image_hash: specs.image_hash,
            image_nft,
            social_media_url: specs.social_media_url,
            raise_end_date: specs.raise_end_date,
            raise_min_target: specs.raise_min_target,
            raised: FundsAmount(0),
        }),
{
    Dao {
        app_id,
        owner: creator,
        shares_asset_id,
        funds_asset_id,
        name: specs.name,
        descr_hash: specs.descr_hash,
        token_name: specs.shares.token_name,
        token_supply: specs.shares.supply,
        investors_share: specs.investors_share,
        share_price: specs.share_price,
        image_hash: specs.image_hash,
        image_nft,
        social_media_url: specs.social_media_url,
        raise_end_date: specs.raise_end_date,
        raise_min_target: specs.raise_min_target,
        raised: FundsAmount::new(0),
    }
}

} // verus!
