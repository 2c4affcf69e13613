//! The escrows of a DAO: the central escrow (receives the funds), the locking escrow (holds the
//! locked shares) and the investing escrow (sells the shares). Each is a TEAL template
//! rendered with the DAO's data; the rendered source is compiled by the node, and the compiled
//! program set up here.
use vstd::prelude::*;

use vstd::string::StringSliceAdditionalSpecFns;

use crate::amounts::{DaoAppId, FundsAmount, FundsAssetId, MicroAlgos, ShareAmount};
use crate::chain::{address_text, address_text_of, app_address_of, program_address_of};
use crate::error::Error;
use crate::teal::{
    key_values_view, render_template_new, rendered, TealSource,
    TealSourceTemplate, VersionedContractAccount, VersionedTealSourceTemplate,
};
use crate::text::{
    decimal_text, lemma_decimal_text_digits, lemma_replace_absent_in_digits, lemma_replace_whole_key,
    replace_all, u64_text,
};
use crate::tx::{accept_asset, built, pay, transfer_asset, Address, TxParams, Txn, TxnTypeView, TxnView};
use crate::txgroup::{pay_fees_of_two, with_fees_of};

verus! {

/// The balance that an escrow holding one asset must keep.
pub const MIN_BALANCE: u64 = 200_000u64;

/// The central escrow's source: the funds asset id, the owner's address and the application
/// id filled in.
pub open spec fn central_escrow_source(template: Seq<u8>, owner: Address, funds_asset_id: u64, app_id: u64) -> Seq<u8> {
    rendered(
        template,
        seq![
            ("TMPL_FUNDS_ASSET_ID".spec_bytes(), decimal_text(funds_asset_id as nat)),
            ("TMPL_OWNER".spec_bytes(), address_text_of(owner)),
            ("TMPL_CENTRAL_APP_ID".spec_bytes(), decimal_text(app_id as nat)),
        ],
    )
}

/// Renders the central escrow's template of version 1.
pub fn render_central_escrow_v1(
    source: &TealSourceTemplate,
    owner: &Address,
    funds_asset_id: FundsAssetId,
    app_id: DaoAppId,
) -> (r: Result<TealSource, Error>)
    ensures
        r matches Ok(s) && s.0@ == central_escrow_source(source.0@, *owner, funds_asset_id.0, app_id.0),
{
    let mut kvs: Vec<(&str, Vec<u8>)> = Vec::new();
    kvs.push(("TMPL_FUNDS_ASSET_ID", u64_text(funds_asset_id.0)));
    kvs.push(("TMPL_OWNER", address_text(owner)));
    kvs.push(("TMPL_CENTRAL_APP_ID", u64_text(app_id.0)));
    proof {
        assert(key_values_view(kvs@) =~= seq![
            ("TMPL_FUNDS_ASSET_ID".spec_bytes(), decimal_text(funds_asset_id.0 as nat)),
            ("TMPL_OWNER".spec_bytes(), address_text_of(*owner)),
            ("TMPL_CENTRAL_APP_ID".spec_bytes(), decimal_text(app_id.0 as nat)),
        ]);
    }
    Ok(render_template_new(source, &kvs))
}

/// Renders the central escrow's template by its version; only version 1 is supported.
pub fn render_central_escrow(
    template: &VersionedTealSourceTemplate,
    owner: &Address,
    funds_asset_id: FundsAssetId,
    app_id: DaoAppId,
) -> (r: Result<TealSource, Error>)
    ensures
        template.version.0 == 1 ==> (r matches Ok(s) && s.0@ == central_escrow_source(
            template.template.0@,
            *owner,
            funds_asset_id.0,
            app_id.0,
        )),
        template.version.0 != 1 ==> r == Err::<TealSource, Error>(Error::UnsupportedVersion),
{
    if template.version.0 == 1 {
        render_central_escrow_v1(&template.template, owner, funds_asset_id, app_id)
    } else {
        Err(Error::UnsupportedVersion)
    }
}

/// The locking escrow's source: the shares asset id and the application id filled in.
pub open spec fn locking_escrow_source(template: Seq<u8>, shares_asset_id: u64, app_id: u64) -> Seq<u8> {
    rendered(
        template,
        seq![
            ("TMPL_SHARES_ASSET_ID".spec_bytes(), decimal_text(shares_asset_id as nat)),
            ("TMPL_CENTRAL_APP_ID".spec_bytes(), decimal_text(app_id as nat)),
        ],
    )
}

/// The locking escrow's placeholders each get their own value: a template that is only the
/// shares asset's placeholder renders to the decimal text of the shares asset id, and one that
/// is only the application's placeholder renders to the decimal text of the application id.
pub proof fn lemma_locking_escrow_fills_each_placeholder(shares_asset_id: u64, app_id: u64)
    ensures
        locking_escrow_source("TMPL_SHARES_ASSET_ID".spec_bytes(), shares_asset_id, app_id)
            == decimal_text(shares_asset_id as nat),
        locking_escrow_source("TMPL_CENTRAL_APP_ID".spec_bytes(), shares_asset_id, app_id)
            == decimal_text(app_id as nat),
{
    reveal_strlit("TMPL_SHARES_ASSET_ID");
    reveal_strlit("TMPL_CENTRAL_APP_ID");
    vstd::string::is_ascii_spec_bytes("TMPL_SHARES_ASSET_ID");
    vstd::string::is_ascii_spec_bytes("TMPL_CENTRAL_APP_ID");
    let k1 = "TMPL_SHARES_ASSET_ID".spec_bytes();
    let k2 = "TMPL_CENTRAL_APP_ID".spec_bytes();
    assert(k1.len() == 20 && k1[0] == 84u8);
    assert(k2.len() == 19 && k2[0] == 84u8);
    let d1 = decimal_text(shares_asset_id as nat);
    let d2 = decimal_text(app_id as nat);
    let kvs = seq![(k1, d1), (k2, d2)];
    reveal_with_fuel(rendered, 3);
    assert(kvs.subrange(1, 2) =~= seq![(k2, d2)]);
    assert(seq![(k2, d2)].subrange(1, 1) =~= Seq::<(Seq<u8>, Seq<u8>)>::empty());
    lemma_decimal_text_digits(shares_asset_id as nat);
    lemma_replace_whole_key(k1, d1);
    lemma_replace_absent_in_digits(d1, k2, d2);
    assert(rendered(k1, kvs) == d1);
    assert(replace_all(k2, k1, d1) == k2);
    lemma_replace_whole_key(k2, d2);
    assert(rendered(k2, kvs) == d2);
}

/// Renders the locking escrow's template of version 1.
pub fn render_locking_escrow_v1(
    source: &TealSourceTemplate,
    shares_asset_id: u64,
    app_id: DaoAppId,
) -> (r: Result<TealSource, Error>)
    ensures
        r matches Ok(s) && s.0@ == locking_escrow_source(source.0@, shares_asset_id, app_id.0),
{
    let mut kvs: Vec<(&str, Vec<u8>)> = Vec::new();
    kvs.push(("TMPL_SHARES_ASSET_ID", u64_text(shares_asset_id)));
    kvs.push(("TMPL_CENTRAL_APP_ID", u64_text(app_id.0)));
    proof {
        assert(key_values_view(kvs@) =~= seq![
            ("TMPL_SHARES_ASSET_ID".spec_bytes(), decimal_text(shares_asset_id as nat)),
            ("TMPL_CENTRAL_APP_ID".spec_bytes(), decimal_text(app_id.0 as nat)),
        ]);
    }
    Ok(render_template_new(source, &kvs))
}

/// Renders the locking escrow's template by its version; only version 1 is supported.
pub fn render_locking_escrow(
    shares_asset_id: u64,
    template: &VersionedTealSourceTemplate,
    app_id: DaoAppId,
) -> (r: Result<TealSource, Error>)
    ensures
        template.version.0 == 1 ==> (r matches Ok(s) && s.0@ == locking_escrow_source(
            template.template.0@,
            shares_asset_id,
            app_id.0,
        )),
        template.version.0 != 1 ==> r == Err::<TealSource, Error>(Error::UnsupportedVersion),
{
    if template.version.0 == 1 {
        render_locking_escrow_v1(&template.template, shares_asset_id, app_id)
    } else {
        Err(Error::UnsupportedVersion)
    }
}

/// The investing escrow's source: the shares asset id, the share price, the funds asset id,
/// the locking escrow's address, the application's address and id filled in.
pub open spec fn investing_escrow_source(
    template: Seq<u8>,
    shares_asset_id: u64,
    share_price: u64,
    funds_asset_id: u64,
    locking_escrow: Address,
    app_id: u64,
) -> Seq<u8> {
    rendered(
        template,
        seq![
            ("TMPL_SHARES_ASSET_ID".spec_bytes(), decimal_text(shares_asset_id as nat)),
            ("TMPL_SHARE_PRICE".spec_bytes(), decimal_text(share_price as nat)),
            ("TMPL_FUNDS_ASSET_ID".spec_bytes(), decimal_text(funds_asset_id as nat)),
            ("TMPL_LOCKING_ESCROW_ADDRESS".spec_bytes(), address_text_of(locking_escrow)),
            ("TMPL_APP_ESCROW_ADDRESS".spec_bytes(), address_text_of(app_address_of(app_id))),
            ("TMPL_CENTRAL_APP_ID".spec_bytes(), decimal_text(app_id as nat)),
        ],
    )
}

/// Renders the investing escrow's template of version 1.
pub fn render_investing_escrow_v1(
    source: &TealSourceTemplate,
    shares_asset_id: u64,
    share_price: &FundsAmount,
    funds_asset_id: &FundsAssetId,
    locking_escrow_address: &Address,
    app_id: DaoAppId,
) -> (r: Result<TealSource, Error>)
    ensures
        r matches Ok(s) && s.0@ == investing_escrow_source(
            source.0@,
            shares_asset_id,
            share_price.0,
            funds_asset_id.0,
            *locking_escrow_address,
            app_id.0,
        ),
{
    let mut kvs: Vec<(&str, Vec<u8>)> = Vec::new();
    kvs.push(("TMPL_SHARES_ASSET_ID", u64_text(shares_asset_id)));
    kvs.push(("TMPL_SHARE_PRICE", u64_text(share_price.0)));
    kvs.push(("TMPL_FUNDS_ASSET_ID", u64_text(funds_asset_id.0)));
    kvs.push(("TMPL_LOCKING_ESCROW_ADDRESS", address_text(locking_escrow_address)));
    let app_escrow = app_id.address();
    kvs.push(("TMPL_APP_ESCROW_ADDRESS", address_text(&app_escrow)));
    kvs.push(("TMPL_CENTRAL_APP_ID", u64_text(app_id.0)));
    proof {
        assert(key_values_view(kvs@) =~= seq![
            ("TMPL_SHARES_ASSET_ID".spec_bytes(), decimal_text(shares_asset_id as nat)),
            ("TMPL_SHARE_PRICE".spec_bytes(), decimal_text(share_price.0 as nat)),
            ("TMPL_FUNDS_ASSET_ID".spec_bytes(), decimal_text(funds_asset_id.0 as nat)),
            ("TMPL_LOCKING_ESCROW_ADDRESS".spec_bytes(), address_text_of(*locking_escrow_address)),
            ("TMPL_APP_ESCROW_ADDRESS".spec_bytes(), address_text_of(app_address_of(app_id.0))),
            ("TMPL_CENTRAL_APP_ID".spec_bytes(), decimal_text(app_id.0 as nat)),
        ]);
    }
    Ok(render_template_new(source, &kvs))
}

/// Renders the investing escrow's template by its version; only version 1 is supported.
pub fn render_investing_escrow(
    shares_asset_id: u64,
    share_price: &FundsAmount,
    funds_asset_id: &FundsAssetId,
    locking_escrow_address: &Address,
    template: &VersionedTealSourceTemplate,
    app_id: DaoAppId,
) -> (r: Result<TealSource, Error>)
    ensures
        template.version.0 == 1 ==> (r matches Ok(s) && s.0@ == investing_escrow_source(
            template.template.0@,
            shares_asset_id,
            share_price.0,
            funds_asset_id.0,
            *locking_escrow_address,
            app_id.0,
        )),
        template.version.0 != 1 ==> r == Err::<TealSource, Error>(Error::UnsupportedVersion),
{
    if template.version.0 == 1 {
        render_investing_escrow_v1(
            &template.template,
            shares_asset_id,
            share_price,
            funds_asset_id,
            locking_escrow_address,
            app_id,
        )
    } else {
        Err(Error::UnsupportedVersion)
    }
}

/// The address of a versioned contract account.
pub open spec fn escrow_address(escrow: VersionedContractAccount) -> Address {
    program_address_of(escrow.account.program_bytes())
}

/// The escrow's opt-in to an asset, whose fee another transaction pays.
pub open spec fn optin_view(params: TxParams, escrow: Address, asset_id: u64) -> TxnView {
    built(params, escrow, TxnTypeView::AssetAccept { asset_id }).with_fee(0)
}

/// A payment of the native currency.
pub open spec fn payment_view(params: TxParams, sender: Address, receiver: Address, amount: u64) -> TxnView {
    built(params, sender, TxnTypeView::Payment { receiver, amount })
}

/// The transactions that set up the central escrow.
#[derive(Debug)]
pub struct SetupCentralEscrowToSign {
    pub optin_to_funds_asset_tx: Txn,
    pub fund_min_balance_tx: Txn,
    pub escrow: VersionedContractAccount,
}

/// Sets up the (compiled) central escrow: its opt-in to the funds asset, and the funder's
/// payment of its minimum balance, which pays the fees of both.
pub fn setup_central_escrow(
    funder: &Address,
    escrow: VersionedContractAccount,
    params: &TxParams,
    funds_asset_id: FundsAssetId,
) -> (r: Result<SetupCentralEscrowToSign, Error>)
    requires
        params.wf(),
    ensures
        r is Ok <==> with_fees_of(
            payment_view(*params, *funder, escrow_address(escrow), MIN_BALANCE),
            seq![
                payment_view(*params, *funder, escrow_address(escrow), MIN_BALANCE),
                optin_view(*params, escrow_address(escrow), funds_asset_id.0),
            ],
            params.fee_per_byte,
            params.min_fee,
        ) is Some,
        r matches Ok(s) ==> s.escrow == escrow && s.optin_to_funds_asset_tx@ == optin_view(
            *params,
            escrow_address(escrow),
            funds_asset_id.0,
        ) && with_fees_of(
            payment_view(*params, *funder, escrow_address(escrow), MIN_BALANCE),
            seq![
                payment_view(*params, *funder, escrow_address(escrow), MIN_BALANCE),
                optin_view(*params, escrow_address(escrow), funds_asset_id.0),
            ],
            params.fee_per_byte,
            params.min_fee,
        ) == Some(s.fund_min_balance_tx@),
        r matches Err(e) ==> e == Error::FeeEstimation || e == Error::Overflow,
{
    let address = *escrow.account.address();
    let mut optin = accept_asset(params, address, funds_asset_id.0);
    optin.fee = MicroAlgos(0);
    let fund = pay(params, *funder, address, MicroAlgos(MIN_BALANCE));
    let (fund, optin) = pay_fees_of_two(params, fund, optin, true)?;
    Ok(SetupCentralEscrowToSign { optin_to_funds_asset_tx: optin, fund_min_balance_tx: fund, escrow })
}

/// The transactions that set up the locking escrow.
#[derive(Debug)]
pub struct SetupLockingEscrowToSign {
    pub escrow: VersionedContractAccount,
    pub escrow_shares_optin_tx: Txn,
    /// The minimum balance to hold the shares, which also pays the opt-in's fee.
    pub escrow_funding_algos_tx: Txn,
}

/// Sets up the (compiled) locking escrow: the creator's payment of its minimum balance, which
/// pays the fees of both, and its opt-in to the shares asset.
pub fn setup_locking_escrow_txs(
    escrow: VersionedContractAccount,
    shares_asset_id: u64,
    creator: &Address,
    params: &TxParams,
) -> (r: Result<SetupLockingEscrowToSign, Error>)
    requires
        params.wf(),
    ensures
        r is Ok <==> with_fees_of(
            payment_view(*params, *creator, escrow_address(escrow), MIN_BALANCE),
            seq![
                payment_view(*params, *creator, escrow_address(escrow), MIN_BALANCE),
                optin_view(*params, escrow_address(escrow), shares_asset_id),
            ],
            params.fee_per_byte,
            params.min_fee,
        ) is Some,
        r matches Ok(s) ==> s.escrow == escrow && s.escrow_shares_optin_tx@ == optin_view(
            *params,
            escrow_address(escrow),
            shares_asset_id,
        ) && with_fees_of(
            payment_view(*params, *creator, escrow_address(escrow), MIN_BALANCE),
            seq![
                payment_view(*params, *creator, escrow_address(escrow), MIN_BALANCE),
                optin_view(*params, escrow_address(escrow), shares_asset_id),
            ],
            params.fee_per_byte,
            params.min_fee,
        ) == Some(s.escrow_funding_algos_tx@),
        r matches Err(e) ==> e == Error::FeeEstimation || e == Error::Overflow,
{
    let address = *escrow.account.address();
    let fund = pay(params, *creator, address, MicroAlgos(MIN_BALANCE));
    let mut optin = accept_asset(params, address, shares_asset_id);
    optin.fee = MicroAlgos(0);
    let (fund, optin) = pay_fees_of_two(params, fund, optin, true)?;
    Ok(SetupLockingEscrowToSign { escrow, escrow_shares_optin_tx: optin, escrow_funding_algos_tx: fund })
}

/// The transactions that set up the investing escrow.
#[derive(Debug)]
pub struct SetupInvestingEscrowToSign {
    pub escrow: VersionedContractAccount,
    pub escrow_shares_optin_tx: Txn,
    pub escrow_funding_algos_tx: Txn,
    pub escrow_funding_shares_asset_tx: Txn,
}

/// Sets up the (compiled) investing escrow, which holds the shares to be bought by investors:
/// the creator's payment of its minimum balance, which pays the fees of itself and of the
/// escrow's opt-in to the shares asset, the opt-in, and the creator's transfer of the share
/// supply to the escrow.
pub fn setup_investing_escrow_txs(
    escrow: VersionedContractAccount,
    shares_asset_id: u64,
    share_supply: ShareAmount,
    creator: &Address,
    params: &TxParams,
) -> (r: Result<SetupInvestingEscrowToSign, Error>)
    requires
        params.wf(),
    ensures
        r is Ok <==> with_fees_of(
            payment_view(*params, *creator, escrow_address(escrow), MIN_BALANCE),
            seq![
                payment_view(*params, *creator, escrow_address(escrow), MIN_BALANCE),
                optin_view(*params, escrow_address(escrow), shares_asset_id),
            ],
            params.fee_per_byte,
            params.min_fee,
        ) is Some,
        r matches Ok(s) ==> s.escrow == escrow && s.escrow_shares_optin_tx@ == optin_view(
            *params,
            escrow_address(escrow),
            shares_asset_id,
        ) && with_fees_of(
            payment_view(*params, *creator, escrow_address(escrow), MIN_BALANCE),
            seq![
                payment_view(*params, *creator, escrow_address(escrow), MIN_BALANCE),
                optin_view(*params, escrow_address(escrow), shares_asset_id),
            ],
            params.fee_per_byte,
            params.min_fee,
        ) == Some(s.escrow_funding_algos_tx@) && s.escrow_funding_shares_asset_tx@ == built(
            *params,
            *creator,
            TxnTypeView::AssetTransfer {
                asset_id: shares_asset_id,
                amount: share_supply.0,
                receiver: escrow_address(escrow),
            },
        ),
        r matches Err(e) ==> e == Error::FeeEstimation || e == Error::Overflow,
{
    let address = *escrow.account.address();
    let fund = pay(params, *creator, address, MicroAlgos(MIN_BALANCE));
    let mut optin = accept_asset(params, address, shares_asset_id);
    optin.fee = MicroAlgos(0);
    let (fund, optin) = pay_fees_of_two(params, fund, optin, true)?;
    let transfer_shares_tx = transfer_asset(params, *creator, shares_asset_id, share_supply.val(), address);
    Ok(SetupInvestingEscrowToSign {
        escrow,
        escrow_shares_optin_tx: optin,
        escrow_funding_algos_tx: fund,
        escrow_funding_shares_asset_tx: transfer_shares_tx,
    })
}

} // verus!
