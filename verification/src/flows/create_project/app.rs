//! The project's central application: the rendering of its approval program, its creation and
//! the call that sets it up.
use vstd::prelude::*;

use vstd::string::StringSliceAdditionalSpecFns;

use crate::amounts::FundsAssetId;
use crate::chain::{address_text, address_text_of};
use crate::decimal::{
    checked_div, checked_mul, dec_of, decimal_product, decimal_quotient, decimal_text_of, floor,
    floor_of, to_text, Decimal,
};
use crate::error::Error;
use crate::teal::{context_view, copy_bytes, placeholder, render_template, rendered, CompiledTeal, TealSource, TealSourceTemplate};
use crate::text::{be_bytes, decimal_text, u64_be_bytes, u64_text};
use crate::flows::create_dao::app::create_shares_tx;
use crate::flows::create_dao::model::CreateSharesSpecs;
use crate::tx::{built, call_app, create_app, Address, OnComplete, StateSchema, TxParams, Txn, TxnTypeView, TxnView};

verus! {

/// The investors' share of the income in units of the precision: the percentage divided by
/// 100, times the precision, floored; `None` where a decimal operation fails.
pub open spec fn investors_share_units(investors_share: u64, precision: u64) -> Option<Decimal> {
    match decimal_quotient(dec_of(investors_share), dec_of(100)) {
        Some(q) => match decimal_product(q, dec_of(precision)) {
            Some(p) => Some(floor_of(p)),
            None => None,
        },
        None => None,
    }
}

/// The approval program's source: the asset id and supply, the investors' share in units of
/// the precision, the precision and its square, and the customer and central escrows'
/// addresses filled in; `None` where the square of the precision leaves a `u64` or a decimal
/// operation fails.
pub open spec fn central_app_source(
    template: Seq<u8>,
    asset_id: u64,
    asset_supply: u64,
    precision: u64,
    investors_share: u64,
    customer_escrow: Address,
    central_escrow: Address,
) -> Option<Seq<u8>> {
    if precision * precision > u64::MAX {
        None
    } else {
        match investors_share_units(investors_share, precision) {
            Some(units) => Some(
                rendered(
                    template,
                    seq![
                        (placeholder("asset_id".spec_bytes()), decimal_text(asset_id as nat)),
                        (placeholder("asset_supply".spec_bytes()), decimal_text(asset_supply as nat)),
                        (placeholder("investors_share".spec_bytes()), decimal_text_of(units)),
                        (placeholder("precision".spec_bytes()), decimal_text(precision as nat)),
                        (placeholder("precision_square".spec_bytes()), decimal_text((precision * precision) as nat)),
                        (placeholder("customer_escrow_address".spec_bytes()), address_text_of(customer_escrow)),
                        (placeholder("central_escrow_address".spec_bytes()), address_text_of(central_escrow)),
                    ],
                ),
            ),
            None => None,
        }
    }
}

/// Renders the central application's approval template.
pub fn render_central_app(
    source: &TealSourceTemplate,
    asset_id: u64,
    asset_supply: u64,
    precision: u64,
    investors_share: u64,
    customer_escrow: &Address,
    central_escrow: &Address,
) -> (r: Result<TealSource, Error>)
    ensures
        r is Ok <==> central_app_source(
            source.0@,
            asset_id,
            asset_supply,
            precision,
            investors_share,
            *customer_escrow,
            *central_escrow,
        ) is Some,
        r matches Ok(s) ==> central_app_source(
            source.0@,
            asset_id,
            asset_supply,
            precision,
            investors_share,
            *customer_escrow,
            *central_escrow,
        ) == Some(s.0@),
        r matches Err(e) ==> e == Error::Overflow || e == Error::DecimalOperation,
{
    let precision_square = match precision.checked_mul(precision) {
        Some(p) => p,
        None => {
            return Err(Error::Overflow);
        },
    };
    let quotient = match checked_div(Decimal::from_u64(investors_share), Decimal::from_u64(100)) {
        Some(q) => q,
        None => {
            return Err(Error::DecimalOperation);
        },
    };
    let product = match checked_mul(quotient, Decimal::from_u64(precision)) {
        Some(p) => p,
        None => {
            return Err(Error::DecimalOperation);
        },
    };
    let units = floor(product);
    let mut context: Vec<(&str, Vec<u8>)> = Vec::new();
    context.push(("asset_id", u64_text(asset_id)));
    context.push(("asset_supply", u64_text(asset_supply)));
    context.push(("investors_share", to_text(units)));
    context.push(("precision", u64_text(precision)));
    context.push(("precision_square", u64_text(precision_square)));
    context.push(("customer_escrow_address", address_text(customer_escrow)));
    context.push(("central_escrow_address", address_text(central_escrow)));
    proof {
        assert(context_view(context@) =~= seq![
            (placeholder("asset_id".spec_bytes()), decimal_text(asset_id as nat)),
            (placeholder("asset_supply".spec_bytes()), decimal_text(asset_supply as nat)),
            (placeholder("investors_share".spec_bytes()), decimal_text_of(floor_of(product))),
            (placeholder("precision".spec_bytes()), decimal_text(precision as nat)),
            (placeholder("precision_square".spec_bytes()), decimal_text((precision * precision) as nat)),
            (placeholder("customer_escrow_address".spec_bytes()), address_text_of(*customer_escrow)),
            (placeholder("central_escrow_address".spec_bytes()), address_text_of(*central_escrow)),
        ]);
    }
    Ok(render_template(source, &context))
}

/// The creation of the central application from its compiled programs: one global integer
/// (the total received), and for each investor two integers (shares, already retrieved) and
/// one byte slice (the project).
pub fn create_app_tx(
    creator: &Address,
    approval: &CompiledTeal,
    clear: &CompiledTeal,
    params: &TxParams,
) -> (r: Result<Txn, Error>)
    requires
        params.wf(),
    ensures
        r matches Ok(tx) && tx@ == built(
            *params,
            *creator,
            TxnTypeView::ApplicationCreate {
                approval_program: approval.0@,
                clear_program: clear.0@,
                global_schema: StateSchema { number_ints: 1, number_byteslices: 0 },
                local_schema: StateSchema { number_ints: 2, number_byteslices: 1 },
            },
        ),
{
    Ok(create_app(
        params,
        *creator,
        copy_bytes(&approval.0),
        copy_bytes(&clear.0),
        StateSchema { number_ints: 1, number_byteslices: 0 },
        StateSchema { number_ints: 2, number_byteslices: 1 },
    ))
}

/// The creator's setup call of the central application: the central and customer escrows'
/// addresses, and the shares and funds asset ids (eight bytes, most significant first).
pub open spec fn project_setup_app_view(
    params: TxParams,
    app_id: u64,
    creator: Address,
    central_escrow: Address,
    customer_escrow: Address,
    shares_asset_id: u64,
    funds_asset_id: u64,
) -> TxnView {
    built(
        params,
        creator,
        TxnTypeView::ApplicationCall {
            app_id,
            on_complete: OnComplete::NoOp,
            app_arguments: Some(
                seq![central_escrow.0@, customer_escrow.0@, be_bytes(shares_asset_id), be_bytes(funds_asset_id)],
            ),
            accounts: None,
            foreign_assets: None,
        },
    )
}

/// The bytes of an address.
fn address_bytes(a: &Address) -> (r: Vec<u8>)
    ensures
        r@ == a.0@,
{
    let mut v: Vec<u8> = Vec::new();
    let mut i: usize = 0;
    while i < 32
        invariant
            i <= 32,
            v@ =~= a.0@.subrange(0, i as int),
        decreases 32 - i,
    {
        v.push(a.0[i]);
        i = i + 1;
    }
    proof {
        assert(a.0@.subrange(0, 32) =~= a.0@);
    }
    v
}

/// The creator's setup call of the central application.
pub fn setup_app_tx(
    app_id: u64,
    creator: &Address,
    params: &TxParams,
    central_escrow: &Address,
    customer_escrow: &Address,
    shares_asset_id: u64,
    funds_asset_id: FundsAssetId,
) -> (r: Result<Txn, Error>)
    requires
        params.wf(),
    ensures
        r matches Ok(tx) && tx@ == project_setup_app_view(
            *params,
            app_id,
            *creator,
            *central_escrow,
            *customer_escrow,
            shares_asset_id,
            funds_asset_id.0,
        ),
{
    let mut arguments: Vec<Vec<u8>> = Vec::new();
    arguments.push(address_bytes(central_escrow));
    arguments.push(address_bytes(customer_escrow));
    arguments.push(u64_be_bytes(shares_asset_id));
    arguments.push(u64_be_bytes(funds_asset_id.0));
    let tx = call_app(params, *creator, app_id, OnComplete::NoOp, Some(arguments), None, None);
    proof {
        assert(crate::tx::bytes_list(arguments) =~= seq![
            central_escrow.0@,
            customer_escrow.0@,
            be_bytes(shares_asset_id),
            be_bytes(funds_asset_id.0),
        ]);
    }
    Ok(tx)
}

/// The creation of the shares asset and of the central application.
#[derive(Debug)]
pub struct CreateAssetsToSign {
    pub create_shares_tx: Txn,
    pub create_app_tx: Txn,
}

/// The creation of the project's shares asset and of its central application from its
/// compiled programs; the two are sent separately, so that each gives its id.
pub fn create_assets(
    creator: &Address,
    shares: &CreateSharesSpecs,
    approval: &CompiledTeal,
    clear: &CompiledTeal,
    params: &TxParams,
) -> (r: Result<CreateAssetsToSign, Error>)
    requires
        params.wf(),
    ensures
        r matches Ok(a) && a.create_shares_tx@ == built(
            *params,
            *creator,
            TxnTypeView::AssetCreate {
                total: shares.supply.0,
                decimals: 0,
                default_frozen: false,
                unit_name: Some(shares.token_name@),
                asset_name: Some(shares.token_name@),
            },
        ) && a.create_app_tx@ == built(
            *params,
            *creator,
            TxnTypeView::ApplicationCreate {
                approval_program: approval.0@,
                clear_program: clear.0@,
                global_schema: StateSchema { number_ints: 1, number_byteslices: 0 },
                local_schema: StateSchema { number_ints: 2, number_byteslices: 1 },
            },
        ),
{
    let create_shares_tx = create_shares_tx(params, shares, *creator)?;
    let create_app_tx = create_app_tx(creator, approval, clear, params)?;
    Ok(CreateAssetsToSign { create_shares_tx, create_app_tx })
}

} // verus!
