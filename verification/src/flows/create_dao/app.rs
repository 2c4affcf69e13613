//! The DAO's application: the rendering of its programs, its creation, the creation of the
//! shares asset, and the call that initializes the application's state.
use vstd::prelude::*;

use vstd::string::StringSliceAdditionalSpecFns;
use vstd::utf8::encode_utf8;

use crate::amounts::{DaoAppId, FundsAmount, FundsAssetId, ShareAmount, Timestamp, Version, Versions};
use crate::capi::CapiAppId;
use crate::chain::{address_text, address_text_of, app_address_of};
use crate::decimal::{
    checked_mul, dec_of, decimal_product, decimal_text_of, floor, floor_of, to_text, to_u64,
    u64_of, Decimal,
};
use crate::error::Error;
use crate::flows::create_dao::model::{CreateSharesSpecs, GlobalStateHash, Nft};
use crate::shares::{percentage_points, SharesPercentage};
use crate::teal::{copy_bytes, key_values_view, render_template_new, rendered, CompiledTeal, TealSource, TealSourceTemplate, VersionedTealSourceTemplate};
use crate::text::{be_bytes, be_bytes_u32, be_value, lemma_be_bytes_value, decimal_text, string_bytes, text_bytes, u32_be_bytes, u64_be_bytes, u64_text};
use crate::tx::{
    built, call_app, create_app, create_asset, Address, OnComplete, StateSchema, TxParams, Txn,
    TxnTypeView, TxnView,
};

verus! {

/// The number of integers in the application's global state.
pub const GLOBAL_SCHEMA_NUM_INTS: u64 = 13u64;

/// The number of byte slices in the application's global state.
pub const GLOBAL_SCHEMA_NUM_BYTE_SLICES: u64 = 8u64;

/// The number of integers in an investor's local state.
pub const LOCAL_SCHEMA_NUM_INTS: u64 = 4u64;

/// The number of byte slices in an investor's local state.
pub const LOCAL_SCHEMA_NUM_BYTE_SLICES: u64 = 4u64;

/// The approval program's source: the share supply, the investors' share (in units of the
/// precision), the precision and its square, the platform's escrow address and application id,
/// the platform's share (in units of the precision) and the share price filled in; `None`
/// where the square of the precision leaves a `u64` or a decimal product fails.
pub open spec fn central_app_approval_source(
    template: Seq<u8>,
    share_supply: u64,
    precision: u64,
    investors_part: Decimal,
    capi_app_id: u64,
    capi_percentage: Decimal,
    share_price: u64,
) -> Option<Seq<u8>> {
    if precision * precision > u64::MAX {
        None
    } else {
        match (
            decimal_product(investors_part, floor_of(dec_of(precision))),
            decimal_product(capi_percentage, dec_of(precision)),
        ) {
            (Some(i), Some(c)) => match u64_of(i) {
                Some(investors_share) => Some(
                    rendered(
                        template,
                        seq![
                            ("TMPL_SHARE_SUPPLY".spec_bytes(), decimal_text(share_supply as nat)),
                            ("TMPL_INVESTORS_SHARE".spec_bytes(), decimal_text(investors_share as nat)),
                            ("TMPL_PRECISION__".spec_bytes(), decimal_text(precision as nat)),
                            (
                                "TMPL_PRECISION_SQUARE".spec_bytes(),
                                decimal_text((precision * precision) as nat),
                            ),
                            (
                                "TMPL_CAPI_ESCROW_ADDRESS".spec_bytes(),
                                address_text_of(app_address_of(capi_app_id)),
                            ),
                            ("TMPL_CAPI_APP_ID".spec_bytes(), decimal_text(capi_app_id as nat)),
                            ("TMPL_CAPI_SHARE".spec_bytes(), decimal_text_of(floor_of(c))),
                            ("TMPL_SHARE_PRICE".spec_bytes(), decimal_text(share_price as nat)),
                        ],
                    ),
                ),
                None => None,
            },
            _ => None,
        }
    }
}

/// Renders the approval program's template of version 1.
pub fn render_central_app_approval_v1(
    source: &TealSourceTemplate,
    share_supply: ShareAmount,
    precision: u64,
    investors_part: SharesPercentage,
    capi_app_id: CapiAppId,
    capi_percentage: SharesPercentage,
    share_price: FundsAmount,
) -> (r: Result<TealSource, Error>)
    ensures
        r is Ok <==> central_app_approval_source(
            source.0@,
            share_supply.0,
            precision,
            investors_part.dec(),
            capi_app_id.0,
            capi_percentage.dec(),
            share_price.0,
        ) is Some,
        r matches Ok(s) ==> central_app_approval_source(
            source.0@,
            share_supply.0,
            precision,
            investors_part.dec(),
            capi_app_id.0,
            capi_percentage.dec(),
            share_price.0,
        ) == Some(s.0@),
        r matches Err(e) ==> e == Error::Overflow || e == Error::DecimalOperation || e
            == Error::DecimalConversion,
{
    let precision_square = match precision.checked_mul(precision) {
        Some(p) => p,
        None => {
            return Err(Error::Overflow);
        },
    };
    let precision_dec = Decimal::from_u64(precision);
    let investors_product = match checked_mul(investors_part.value(), floor(precision_dec)) {
        Some(d) => d,
        None => {
            return Err(Error::DecimalOperation);
        },
    };
    let investors_share = match to_u64(investors_product) {
        Some(v) => v,
        None => {
            return Err(Error::DecimalConversion);
        },
    };
    let capi_product = match checked_mul(capi_percentage.value(), precision_dec) {
        Some(d) => d,
        None => {
            return Err(Error::Overflow);
        },
    };
    let capi_share = floor(capi_product);
    let mut kvs: Vec<(&str, Vec<u8>)> = Vec::new();
    kvs.push(("TMPL_SHARE_SUPPLY", u64_text(share_supply.0)));
    kvs.push(("TMPL_INVESTORS_SHARE", u64_text(investors_share)));
    kvs.push(("TMPL_PRECISION__", u64_text(precision)));
    kvs.push(("TMPL_PRECISION_SQUARE", u64_text(precision_square)));
    let capi_escrow = capi_app_id.address();
    kvs.push(("TMPL_CAPI_ESCROW_ADDRESS", address_text(&capi_escrow)));
    kvs.push(("TMPL_CAPI_APP_ID", u64_text(capi_app_id.0)));
    kvs.push(("TMPL_CAPI_SHARE", to_text(capi_share)));
    kvs.push(("TMPL_SHARE_PRICE", u64_text(share_price.val())));
    proof {
        assert(key_values_view(kvs@) =~= seq![
            ("TMPL_SHARE_SUPPLY".spec_bytes(), decimal_text(share_supply.0 as nat)),
            ("TMPL_INVESTORS_SHARE".spec_bytes(), decimal_text(investors_share as nat)),
            ("TMPL_PRECISION__".spec_bytes(), decimal_text(precision as nat)),
            ("TMPL_PRECISION_SQUARE".spec_bytes(), decimal_text((precision * precision) as nat)),
            ("TMPL_CAPI_ESCROW_ADDRESS".spec_bytes(), address_text_of(app_address_of(capi_app_id.0))),
            ("TMPL_CAPI_APP_ID".spec_bytes(), decimal_text(capi_app_id.0 as nat)),
            ("TMPL_CAPI_SHARE".spec_bytes(), decimal_text_of(floor_of(capi_product))),
            ("TMPL_SHARE_PRICE".spec_bytes(), decimal_text(share_price.0 as nat)),
        ]);
    }
    Ok(render_template_new(source, &kvs))
}

/// Renders the approval program's template by its version; only version 1 is supported.
pub fn render_app_approval(
    template: &VersionedTealSourceTemplate,
    share_supply: ShareAmount,
    precision: u64,
    investors_part: SharesPercentage,
    capi_app_id: CapiAppId,
    capi_percentage: SharesPercentage,
    share_price: FundsAmount,
) -> (r: Result<TealSource, Error>)
    ensures
        template.version.0 == 1 ==> (r is Ok <==> central_app_approval_source(
            template.template.0@,
            share_supply.0,
            precision,
            investors_part.dec(),
            capi_app_id.0,
            capi_percentage.dec(),
            share_price.0,
        ) is Some),
        r matches Ok(s) ==> template.version.0 == 1 && central_app_approval_source(
            template.template.0@,
            share_supply.0,
            precision,
            investors_part.dec(),
            capi_app_id.0,
            capi_percentage.dec(),
            share_price.0,
        ) == Some(s.0@),
        template.version.0 != 1 ==> r == Err::<TealSource, Error>(Error::UnsupportedVersion),
{
    if template.version.0 == 1 {
        render_central_app_approval_v1(
            &template.template,
            share_supply,
            precision,
            investors_part,
            capi_app_id,
            capi_percentage,
            share_price,
        )
    } else {
        Err(Error::UnsupportedVersion)
    }
}

/// Renders the clear program's template of version 1: it has nothing to fill in.
pub fn render_central_app_clear_v1(template: &TealSourceTemplate) -> (r: Result<TealSource, Error>)
    ensures
        r matches Ok(s) && s.0@ == template.0@,
{
    Ok(TealSource(copy_bytes(&template.0)))
}

/// Renders the clear program's template by its version; only version 1 is supported.
pub fn render_app_clear(template: &VersionedTealSourceTemplate) -> (r: Result<TealSource, Error>)
    ensures
        template.version.0 == 1 ==> (r matches Ok(s) && s.0@ == template.template.0@),
        template.version.0 != 1 ==> r == Err::<TealSource, Error>(Error::UnsupportedVersion),
{
    if template.version.0 == 1 {
        render_central_app_clear_v1(&template.template)
    } else {
        Err(Error::UnsupportedVersion)
    }
}

/// The global state schema of the DAO's application.
pub open spec fn global_schema() -> StateSchema {
    StateSchema { number_ints: GLOBAL_SCHEMA_NUM_INTS, number_byteslices: GLOBAL_SCHEMA_NUM_BYTE_SLICES }
}

/// The local state schema of the DAO's application.
pub open spec fn local_schema() -> StateSchema {
    StateSchema { number_ints: LOCAL_SCHEMA_NUM_INTS, number_byteslices: LOCAL_SCHEMA_NUM_BYTE_SLICES }
}

/// The creation of the DAO's application from its compiled programs, with the DAO's state
/// schemas.
pub fn create_app_tx(
    creator: &Address,
    approval: &CompiledTeal,
    clear: &CompiledTeal,
    params: &TxParams,
) -> (r: Result<Txn, Error>)
    requires
        params.wf(),
    ensures
        r matches Ok(tx) && tx@ == built(
            *params,
            *creator,
            TxnTypeView::ApplicationCreate {
                approval_program: approval.0@,
                clear_program: clear.0@,
                global_schema: global_schema(),
                local_schema: local_schema(),
            },
        ),
{
    Ok(create_app(
        params,
        *creator,
        copy_bytes(&approval.0),
        copy_bytes(&clear.0),
        StateSchema { number_ints: GLOBAL_SCHEMA_NUM_INTS, number_byteslices: GLOBAL_SCHEMA_NUM_BYTE_SLICES },
        StateSchema { number_ints: LOCAL_SCHEMA_NUM_INTS, number_byteslices: LOCAL_SCHEMA_NUM_BYTE_SLICES },
    ))
}

/// The creation of the shares asset: the supply, no decimals, not frozen, the token name as
/// unit and asset name.
pub fn create_shares_tx(params: &TxParams, shares_specs: &CreateSharesSpecs, creator: Address) -> (r:
    Result<Txn, Error>)
    requires
        params.wf(),
    ensures
        r matches Ok(tx) && tx@ == built(
            *params,
            creator,
            TxnTypeView::AssetCreate {
                total: shares_specs.supply.0,
                decimals: 0,
                default_frozen: false,
                unit_name: Some(shares_specs.token_name@),
                asset_name: Some(shares_specs.token_name@),
            },
        ),
{
    let name = shares_specs.token_name.clone();
    Ok(create_asset(
        params,
        creator,
        shares_specs.supply.val(),
        0,
        false,
        Some(name.clone()),
        Some(name),
    ))
}

/// The data with which the application's global state is initialized (state with a fixed
/// initial value is set by the program itself).
#[derive(Debug)]
pub struct DaoInitData {
    pub app_approval_version: Version,
    pub app_clear_version: Version,
    pub shares_asset_id: u64,
    pub funds_asset_id: FundsAssetId,
    pub project_name: String,
    pub descr_hash: Option<GlobalStateHash>,
    pub share_price: FundsAmount,
    pub investors_share: SharesPercentage,
    pub image_hash: Option<GlobalStateHash>,
    pub image_nft: Option<Nft>,
    pub social_media_url: String,
    pub min_raise_target: FundsAmount,
    pub min_raise_target_end_date: Timestamp,
}

impl DaoInitData {
    /// The versions of the application's two programs.
    pub open spec fn versions_spec(self) -> Versions {
        Versions { app_approval: self.app_approval_version, app_clear: self.app_clear_version }
    }

    /// The versions of the application's two programs.
    pub fn versions(&self) -> (r: Versions)
        ensures
            r == (Versions { app_approval: self.app_approval_version, app_clear: self.app_clear_version }),
    {
        Versions { app_approval: self.app_approval_version, app_clear: self.app_clear_version }
    }
}

/// The bytes of the versions: the approval program's version, then the clear program's, each
/// as four bytes, most significant first.
pub open spec fn versions_bytes(versions: Versions) -> Seq<u8> {
    be_bytes_u32(versions.app_approval.0) + be_bytes_u32(versions.app_clear.0)
}

/// The bytes of the versions, as the application's state holds them.
pub fn versions_to_bytes(versions: Versions) -> (r: Result<Vec<u8>, Error>)
    ensures
        r matches Ok(b) && b@ == versions_bytes(versions),
{
    let mut bytes = u32_be_bytes(versions.app_approval.0);
    let clear = u32_be_bytes(versions.app_clear.0);
    let mut i: usize = 0;
    while i < clear.len()
        invariant
            i <= clear.len(),
            clear@ == be_bytes_u32(versions.app_clear.0),
            bytes@ =~= be_bytes_u32(versions.app_approval.0) + clear@.subrange(0, i as int),
        decreases clear.len() - i,
    {
        bytes.push(clear[i]);
        i = i + 1;
    }
    proof {
        assert(clear@.subrange(0, clear.len() as int) =~= clear@);
    }
    Ok(bytes)
}

/// The note that marks the setup of a DAO, so that the DAOs that an account created can be
/// found.
pub open spec fn dao_setup_prefix_spec() -> Seq<u8> {
    "dao_setup".spec_bytes()
}

/// The note that marks the setup of a DAO.
pub fn dao_setup_prefix() -> (r: Vec<u8>)
    ensures
        r@ == dao_setup_prefix_spec(),
{
    text_bytes("dao_setup")
}

/// The bytes of an optional hash; empty where there is none.
pub open spec fn hash_bytes(h: Option<GlobalStateHash>) -> Seq<u8> {
    match h {
        Some(g) => encode_utf8(g.0@),
        None => Seq::empty(),
    }
}

fn opt_hash_bytes(h: &Option<GlobalStateHash>) -> (r: Vec<u8>)
    ensures
        r@ == hash_bytes(*h),
{
    match h {
        Some(g) => g.bytes(),
        None => Vec::new(),
    }
}

/// The arguments of the setup call: the shares and funds asset ids, the name, the description
/// hash, the share price, the investors' share in points, the image hash, the social media url,
/// the versions, the minimum raise target and its end date.
pub open spec fn setup_app_args(data: DaoInitData, investors_share_points: u64) -> Seq<Seq<u8>> {
    seq![
        be_bytes(data.shares_asset_id),
        be_bytes(data.funds_asset_id.0),
        encode_utf8(data.project_name@),
        hash_bytes(data.descr_hash),
        be_bytes(data.share_price.0),
        be_bytes(investors_share_points),
        hash_bytes(data.image_hash),
        encode_utf8(data.social_media_url@),
        versions_bytes(Versions { app_approval: data.app_approval_version, app_clear: data.app_clear_version }),
        be_bytes(data.min_raise_target.0),
        be_bytes(data.min_raise_target_end_date.0 as u64),
    ]
}

/// The setup call of the application, with the setup note and the two assets as foreign
/// assets, given the investors' share in points.
pub open spec fn setup_app_view(params: TxParams, app_id: u64, creator: Address, data: DaoInitData, investors_share_points: u64) -> TxnView {
    built(
        params,
        creator,
        TxnTypeView::ApplicationCall {
            app_id,
            on_complete: OnComplete::NoOp,
            app_arguments: Some(setup_app_args(data, investors_share_points)),
            accounts: None,
            foreign_assets: Some(seq![data.funds_asset_id.0, data.shares_asset_id]),
        },
    ).with_note(dao_setup_prefix_spec())
}

/// A DAO's setup call is the creator's no-op call of the application with the setup note, the
/// funds and shares assets as foreign assets, and each field of the init data in its own
/// argument: the numbers as the eight big-endian bytes that stand for them (the asset ids,
/// the share price, the investors' share in points, the minimum raise target and its end
/// date), the texts as their UTF-8 bytes, the hashes as their text or nothing.
#[verifier::spinoff_prover]
pub proof fn lemma_setup_call_carries_the_init_data(
    params: TxParams,
    app_id: u64,
    creator: Address,
    data: DaoInitData,
    points: u64,
)
    ensures
        setup_app_view(params, app_id, creator, data, points).sender == creator,
        setup_app_view(params, app_id, creator, data, points).note == Some(dao_setup_prefix_spec()),
        setup_app_view(params, app_id, creator, data, points).txn_type matches TxnTypeView::ApplicationCall {
            app_id: id,
            on_complete,
            app_arguments: Some(args),
            accounts,
            foreign_assets: Some(fa),
        } && id == app_id && on_complete == OnComplete::NoOp && accounts is None && args.len() == 11
            && args[0].len() == 8 && be_value(args[0]) == data.shares_asset_id
            && args[1].len() == 8 && be_value(args[1]) == data.funds_asset_id.0
            && args[2] == encode_utf8(data.project_name@)
            && args[3] == hash_bytes(data.descr_hash)
            && args[4].len() == 8 && be_value(args[4]) == data.share_price.0
            && args[5].len() == 8 && be_value(args[5]) == points
            && args[6] == hash_bytes(data.image_hash)
            && args[7] == encode_utf8(data.social_media_url@)
            && args[8] == versions_bytes(data.versions_spec())
            && args[9].len() == 8 && be_value(args[9]) == data.min_raise_target.0
            && args[10].len() == 8 && be_value(args[10]) == data.min_raise_target_end_date.0 as u64
            && fa == seq![data.funds_asset_id.0, data.shares_asset_id],
{
    lemma_be_bytes_value(data.shares_asset_id);
    lemma_be_bytes_value(data.funds_asset_id.0);
    lemma_be_bytes_value(data.share_price.0);
    lemma_be_bytes_value(points);
    lemma_be_bytes_value(data.min_raise_target.0);
    lemma_be_bytes_value(data.min_raise_target_end_date.0 as u64);
    let args = setup_app_args(data, points);
    assert(args.len() == 11);
    assert(args[0] == be_bytes(data.shares_asset_id));
    assert(args[1] == be_bytes(data.funds_asset_id.0));
    assert(args[4] == be_bytes(data.share_price.0));
    assert(args[5] == be_bytes(points));
    assert(args[8] == versions_bytes(data.versions_spec()));
    assert(args[9] == be_bytes(data.min_raise_target.0));
    assert(args[10] == be_bytes(data.min_raise_target_end_date.0 as u64));
}

/// The creator's call that initializes the application's global state with the DAO's data;
/// refused where the investors' share cannot be turned into points.
pub fn setup_app_tx(app_id: DaoAppId, creator: &Address, params: &TxParams, data: &DaoInitData) -> (r:
    Result<Txn, Error>)
    requires
        params.wf(),
    ensures
        r is Ok <==> percentage_points(data.investors_share.dec()) is Some,
        r matches Ok(tx) ==> tx@ == setup_app_view(
            *params,
            app_id.0,
            *creator,
            *data,
            percentage_points(data.investors_share.dec())->0,
        ),
        r matches Err(e) ==> e == Error::DecimalConversion,
{
    let points = data.investors_share.to_u64()?;
    let mut arguments: Vec<Vec<u8>> = Vec::new();
    arguments.push(u64_be_bytes(data.shares_asset_id));
    arguments.push(u64_be_bytes(data.funds_asset_id.0));
    arguments.push(string_bytes(&data.project_name));
    arguments.push(opt_hash_bytes(&data.descr_hash));
    arguments.push(u64_be_bytes(data.share_price.val()));
    arguments.push(u64_be_bytes(points));
    arguments.push(opt_hash_bytes(&data.image_hash));
    arguments.push(string_bytes(&data.social_media_url));
    let versions = versions_to_bytes(data.versions())?;
    arguments.push(versions);
    arguments.push(u64_be_bytes(data.min_raise_target.val()));
    arguments.push(u64_be_bytes(data.min_raise_target_end_date.0 as u64));
    let mut assets: Vec<u64> = Vec::new();
    assets.push(data.funds_asset_id.0);
    assets.push(data.shares_asset_id);
    let mut tx = call_app(params, *creator, app_id.0, OnComplete::NoOp, Some(arguments), None, Some(assets));
    tx.note = Some(dao_setup_prefix());
    proof {
        assert(crate::tx::bytes_list(arguments) =~= setup_app_args(*data, points));
        assert(assets@ =~= seq![data.funds_asset_id.0, data.shares_asset_id]);
    }
    Ok(tx)
}

/// The creation of the shares asset and of the application.
#[derive(Debug)]
pub struct CreateAssetsToSign {
    pub create_shares_tx: Txn,
    pub create_app_tx: Txn,
}

/// The creation of the DAO's shares asset and of its application from its compiled programs;
/// the two are sent separately, so that each gives its id.
pub fn create_assets(
    creator: &Address,
    shares: &CreateSharesSpecs,
    approval: &CompiledTeal,
    clear: &CompiledTeal,
    params: &TxParams,
) -> (r: Result<CreateAssetsToSign, Error>)
    requires
        params.wf(),
    ensures
        r matches Ok(a) && a.create_shares_tx@ == built(
            *params,
            *creator,
            TxnTypeView::AssetCreate {
                total: shares.supply.0,
                decimals: 0,
                default_frozen: false,
                unit_name: Some(shares.token_name@),
                asset_name: Some(shares.token_name@),
            },
        ) && a.create_app_tx@ == built(
            *params,
            *creator,
            TxnTypeView::ApplicationCreate {
                approval_program: approval.0@,
                clear_program: clear.0@,
                global_schema: global_schema(),
                local_schema: local_schema(),
            },
        ),
{
    let create_shares_tx = create_shares_tx(params, shares, *creator)?;
    let create_app_tx = create_app_tx(creator, approval, clear, params)?;
    Ok(CreateAssetsToSign { create_shares_tx, create_app_tx })
}

} // verus!
