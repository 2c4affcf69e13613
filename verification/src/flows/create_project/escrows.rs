//! The escrows of a project: the central escrow (receives the funds), the customer escrow
//! (receives the customers' payments), the investing escrow (sells the shares), the locking
//! (staking) escrow, and the escrows that hold votes. Each is a TEAL template rendered with the
//! project's data; the node compiles the rendered source, and the compiled program is set up
//! here.
use vstd::prelude::*;

use vstd::string::StringSliceAdditionalSpecFns;

use crate::amounts::{FundsAmount, FundsAssetId, MicroAlgos, ShareAmount};
use crate::chain::{address_text, address_text_of, program_address_of};
use crate::error::Error;
use crate::flows::creation::{fund_and_optin, funding_view, zero_fee_optin_view};
use crate::teal::{
    context_view, key_values_view, render_template, render_template_new, rendered, ContractAccount,
    TealSource, TealSourceTemplate,
};
use crate::text::{decimal_text, u64_text};
use crate::tx::{accept_asset, built, pay, transfer_asset, Address, TxParams, Txn, TxnTypeView, TxnView};
use crate::txgroup::with_fees_of;

verus! {

/// The balance that an escrow holding one asset must keep.
pub const MIN_BALANCE: u64 = 200_000u64;

/// The fixed fee that the central escrow is funded with, besides its minimum balance.
pub const FIXED_FEE: u64 = 1_000u64;

/// What the staking and vote escrows are funded with.
pub const VOTE_ESCROW_FUNDING: u64 = 1_000_000u64;

/// The address of a contract account.
pub open spec fn account_address(escrow: ContractAccount) -> Address {
    program_address_of(escrow.program_bytes())
}

/// The central escrow's source: the funds asset id and the creator's address filled in.
pub open spec fn central_escrow_source(template: Seq<u8>, creator: Address, funds_asset_id: u64) -> Seq<u8> {
    rendered(
        template,
        seq![
            (crate::teal::placeholder("funds_asset_id".spec_bytes()), decimal_text(funds_asset_id as nat)),
            (crate::teal::placeholder("project_creator_address".spec_bytes()), address_text_of(creator)),
        ],
    )
}

/// Renders the central escrow's template.
pub fn render_central_escrow(
    source: &TealSourceTemplate,
    project_creator: &Address,
    funds_asset_id: FundsAssetId,
) -> (r: Result<TealSource, Error>)
    ensures
        r matches Ok(s) && s.0@ == central_escrow_source(source.0@, *project_creator, funds_asset_id.0),
{
    let mut context: Vec<(&str, Vec<u8>)> = Vec::new();
    context.push(("funds_asset_id", u64_text(funds_asset_id.0)));
    context.push(("project_creator_address", address_text(project_creator)));
    proof {
        assert(context_view(context@) =~= seq![
            (crate::teal::placeholder("funds_asset_id".spec_bytes()), decimal_text(funds_asset_id.0 as nat)),
            (crate::teal::placeholder("project_creator_address".spec_bytes()), address_text_of(*project_creator)),
        ]);
    }
    Ok(render_template(source, &context))
}

/// The transactions that set up the central escrow.
#[derive(Debug)]
pub struct SetupCentralEscrowToSign {
    pub optin_to_funds_asset_tx: Txn,
    pub fund_min_balance_tx: Txn,
    pub escrow: ContractAccount,
}

/// Sets up the (compiled) central escrow: its opt-in to the funds asset and the creator's
/// payment of its minimum balance plus a fixed fee, each with the minimum fee.
pub fn setup_central_escrow(
    project_creator: &Address,
    escrow: ContractAccount,
    params: &TxParams,
    funds_asset_id: FundsAssetId,
) -> (r: Result<SetupCentralEscrowToSign, Error>)
    requires
        params.wf(),
    ensures
        r matches Ok(s) && s.escrow == escrow && s.optin_to_funds_asset_tx@ == built(
            *params,
            account_address(escrow),
            TxnTypeView::AssetAccept { asset_id: funds_asset_id.0 },
        ) && s.fund_min_balance_tx@ == funding_view(
            *params,
            *project_creator,
            account_address(escrow),
            (MIN_BALANCE + FIXED_FEE) as u64,
        ),
{
    let address = *escrow.address();
    let optin = accept_asset(params, address, funds_asset_id.0);
    let fund = pay(params, *project_creator, address, MicroAlgos(MIN_BALANCE + FIXED_FEE));
    Ok(SetupCentralEscrowToSign { optin_to_funds_asset_tx: optin, fund_min_balance_tx: fund, escrow })
}

/// The customer escrow's source: the central escrow's and the platform's escrow's addresses and
/// the central application's id filled in.
pub open spec fn customer_escrow_source(template: Seq<u8>, central: Address, capi_escrow: Address, central_app_id: u64) -> Seq<u8> {
    rendered(
        template,
        seq![
            ("TMPL_CENTRAL_ESCROW_ADDRESS".spec_bytes(), address_text_of(central)),
            ("TMPL_CAPI_ESCROW_ADDRESS".spec_bytes(), address_text_of(capi_escrow)),
            ("TMPL_CENTRAL_APP_ID".spec_bytes(), decimal_text(central_app_id as nat)),
        ],
    )
}

/// Renders the customer escrow's template.
pub fn render_customer_escrow(
    central_address: &Address,
    source: &TealSourceTemplate,
    capi_escrow_address: &Address,
    central_app_id: u64,
) -> (r: Result<TealSource, Error>)
    ensures
        r matches Ok(s) && s.0@ == customer_escrow_source(
            source.0@,
            *central_address,
            *capi_escrow_address,
            central_app_id,
        ),
{
    let mut kvs: Vec<(&str, Vec<u8>)> = Vec::new();
    kvs.push(("TMPL_CENTRAL_ESCROW_ADDRESS", address_text(central_address)));
    kvs.push(("TMPL_CAPI_ESCROW_ADDRESS", address_text(capi_escrow_address)));
    kvs.push(("TMPL_CENTRAL_APP_ID", u64_text(central_app_id)));
    proof {
        assert(key_values_view(kvs@) =~= seq![
            ("TMPL_CENTRAL_ESCROW_ADDRESS".spec_bytes(), address_text_of(*central_address)),
            ("TMPL_CAPI_ESCROW_ADDRESS".spec_bytes(), address_text_of(*capi_escrow_address)),
            ("TMPL_CENTRAL_APP_ID".spec_bytes(), decimal_text(central_app_id as nat)),
        ]);
    }
    Ok(render_template_new(source, &kvs))
}

/// The transactions that set up the customer escrow.
#[derive(Debug)]
pub struct SetupCustomerEscrowToSign {
    pub optin_to_funds_asset_tx: Txn,
    pub fund_min_balance_tx: Txn,
    pub escrow: ContractAccount,
}

/// Sets up the (compiled) customer escrow: its opt-in to the funds asset, and the creator's
/// payment of its minimum balance, which pays the fees of both (listed opt-in first).
pub fn setup_customer_escrow(
    project_creator: &Address,
    escrow: ContractAccount,
    params: &TxParams,
    funds_asset_id: FundsAssetId,
) -> (r: Result<SetupCustomerEscrowToSign, Error>)
    requires
        params.wf(),
    ensures
        r is Ok <==> with_fees_of(
            funding_view(*params, *project_creator, account_address(escrow), MIN_BALANCE),
            seq![
                zero_fee_optin_view(*params, account_address(escrow), funds_asset_id.0),
                funding_view(*params, *project_creator, account_address(escrow), MIN_BALANCE),
            ],
            params.fee_per_byte,
            params.min_fee,
        ) is Some,
        r matches Ok(s) ==> s.escrow == escrow && s.optin_to_funds_asset_tx@ == zero_fee_optin_view(
            *params,
            account_address(escrow),
            funds_asset_id.0,
        ) && with_fees_of(
            funding_view(*params, *project_creator, account_address(escrow), MIN_BALANCE),
            seq![
                zero_fee_optin_view(*params, account_address(escrow), funds_asset_id.0),
                funding_view(*params, *project_creator, account_address(escrow), MIN_BALANCE),
            ],
            params.fee_per_byte,
            params.min_fee,
        ) == Some(s.fund_min_balance_tx@),
        r matches Err(e) ==> e == Error::FeeEstimation || e == Error::Overflow,
{
    let address = *escrow.address();
    let (fund, optin) = fund_and_optin(project_creator, &address, MIN_BALANCE, funds_asset_id.0, params, false)?;
    Ok(SetupCustomerEscrowToSign { optin_to_funds_asset_tx: optin, fund_min_balance_tx: fund, escrow })
}

/// The investing escrow's source: the shares asset id, the share price, the funds asset id, the
/// locking and central escrows' addresses and the central application's id filled in.
pub open spec fn investing_escrow_source(
    template: Seq<u8>,
    shares_asset_id: u64,
    share_price: u64,
    funds_asset_id: u64,
    locking_escrow: Address,
    central_escrow: Address,
    central_app_id: u64,
) -> Seq<u8> {
    rendered(
        template,
        seq![
            (crate::teal::placeholder("shares_asset_id".spec_bytes()), decimal_text(shares_asset_id as nat)),
            (crate::teal::placeholder("share_price".spec_bytes()), decimal_text(share_price as nat)),
            (crate::teal::placeholder("funds_asset_id".spec_bytes()), decimal_text(funds_asset_id as nat)),
            (crate::teal::placeholder("locking_escrow_address".spec_bytes()), address_text_of(locking_escrow)),
            (crate::teal::placeholder("central_escrow_address".spec_bytes()), address_text_of(central_escrow)),
            (crate::teal::placeholder("app_id".spec_bytes()), decimal_text(central_app_id as nat)),
        ],
    )
}

/// Renders the investing escrow's template.
pub fn render_investing_escrow(
    source: &TealSourceTemplate,
    shares_asset_id: u64,
    share_price: &FundsAmount,
    funds_asset_id: &FundsAssetId,
    locking_escrow_address: &Address,
    central_escrow_address: &Address,
    central_app_id: u64,
) -> (r: Result<TealSource, Error>)
    ensures
        r matches Ok(s) && s.0@ == investing_escrow_source(
            source.0@,
            shares_asset_id,
            share_price.0,
            funds_asset_id.0,
            *locking_escrow_address,
            *central_escrow_address,
            central_app_id,
        ),
{
    let mut context: Vec<(&str, Vec<u8>)> = Vec::new();
    context.push(("shares_asset_id", u64_text(shares_asset_id)));
    context.push(("share_price", u64_text(share_price.0)));
    context.push(("funds_asset_id", u64_text(funds_asset_id.0)));
    context.push(("locking_escrow_address", address_text(locking_escrow_address)));
    context.push(("central_escrow_address", address_text(central_escrow_address)));
    context.push(("app_id", u64_text(central_app_id)));
    proof {
        assert(context_view(context@) =~= seq![
            (crate::teal::placeholder("shares_asset_id".spec_bytes()), decimal_text(shares_asset_id as nat)),
            (crate::teal::placeholder("share_price".spec_bytes()), decimal_text(share_price.0 as nat)),
            (crate::teal::placeholder("funds_asset_id".spec_bytes()), decimal_text(funds_asset_id.0 as nat)),
            (crate::teal::placeholder("locking_escrow_address".spec_bytes()), address_text_of(*locking_escrow_address)),
            (crate::teal::placeholder("central_escrow_address".spec_bytes()), address_text_of(*central_escrow_address)),
            (crate::teal::placeholder("app_id".spec_bytes()), decimal_text(central_app_id as nat)),
        ]);
    }
    Ok(render_template(source, &context))
}

/// The transactions that set up the investing escrow.
#[derive(Debug)]
pub struct SetupInvestingEscrowToSign {
    pub escrow: ContractAccount,
    pub escrow_shares_optin_tx: Txn,
    pub escrow_funding_algos_tx: Txn,
    pub escrow_funding_shares_asset_tx: Txn,
}

/// Sets up the (compiled) investing escrow: the creator's payment of its minimum balance, which
/// pays the fees of itself and of the escrow's opt-in to the shares, the opt-in, and the
/// creator's transfer of the share supply to the escrow.
pub fn setup_investing_escrow_txs(
    escrow: ContractAccount,
    shares_asset_id: u64,
    share_supply: ShareAmount,
    creator: &Address,
    params: &TxParams,
) -> (r: Result<SetupInvestingEscrowToSign, Error>)
    requires
        params.wf(),
    ensures
        r is Ok <==> with_fees_of(
            funding_view(*params, *creator, account_address(escrow), MIN_BALANCE),
            seq![
                funding_view(*params, *creator, account_address(escrow), MIN_BALANCE),
                zero_fee_optin_view(*params, account_address(escrow), shares_asset_id),
            ],
            params.fee_per_byte,
            params.min_fee,
        ) is Some,
        r matches Ok(s) ==> s.escrow == escrow && s.escrow_shares_optin_tx@ == zero_fee_optin_view(
            *params,
            account_address(escrow),
            shares_asset_id,
        ) && with_fees_of(
            funding_view(*params, *creator, account_address(escrow), MIN_BALANCE),
            seq![
                funding_view(*params, *creator, account_address(escrow), MIN_BALANCE),
                zero_fee_optin_view(*params, account_address(escrow), shares_asset_id),
            ],
            params.fee_per_byte,
            params.min_fee,
        ) == Some(s.escrow_funding_algos_tx@) && s.escrow_funding_shares_asset_tx@ == built(
            *params,
            *creator,
            TxnTypeView::AssetTransfer {
                asset_id: shares_asset_id,
                amount: share_supply.0,
                receiver: account_address(escrow),
            },
        ),
        r matches Err(e) ==> e == Error::FeeEstimation || e == Error::Overflow,
{
    let address = *escrow.address();
    let (fund, optin) = fund_and_optin(creator, &address, MIN_BALANCE, shares_asset_id, params, true)?;
    let transfer = transfer_asset(params, *creator, shares_asset_id, share_supply.val(), address);
    Ok(SetupInvestingEscrowToSign {
        escrow,
        escrow_shares_optin_tx: optin,
        escrow_funding_algos_tx: fund,
        escrow_funding_shares_asset_tx: transfer,
    })
}

/// The transactions that set up the locking escrow.
#[derive(Debug)]
pub struct SetupLockingEscrowToSign {
    pub escrow: ContractAccount,
    pub escrow_shares_optin_tx: Txn,
    pub escrow_funding_algos_tx: Txn,
}

/// Sets up the (compiled) locking escrow: the creator's payment of its minimum balance, which
/// pays the fees of itself and of the escrow's opt-in to the shares, and the opt-in.
pub fn setup_locking_escrow_txs(
    escrow: ContractAccount,
    shares_asset_id: u64,
    creator: &Address,
    params: &TxParams,
) -> (r: Result<SetupLockingEscrowToSign, Error>)
    requires
        params.wf(),
    ensures
        r is Ok <==> with_fees_of(
            funding_view(*params, *creator, account_address(escrow), MIN_BALANCE),
            seq![
                funding_view(*params, *creator, account_address(escrow), MIN_BALANCE),
                zero_fee_optin_view(*params, account_address(escrow), shares_asset_id),
            ],
            params.fee_per_byte,
            params.min_fee,
        ) is Some,
        r matches Ok(s) ==> s.escrow == escrow && s.escrow_shares_optin_tx@ == zero_fee_optin_view(
            *params,
            account_address(escrow),
            shares_asset_id,
        ) && with_fees_of(
            funding_view(*params, *creator, account_address(escrow), MIN_BALANCE),
            seq![
                funding_view(*params, *creator, account_address(escrow), MIN_BALANCE),
                zero_fee_optin_view(*params, account_address(escrow), shares_asset_id),
            ],
            params.fee_per_byte,
            params.min_fee,
        ) == Some(s.escrow_funding_algos_tx@),
        r matches Err(e) ==> e == Error::FeeEstimation || e == Error::Overflow,
{
    let address = *escrow.address();
    let (fund, optin) = fund_and_optin(creator, &address, MIN_BALANCE, shares_asset_id, params, true)?;
    Ok(SetupLockingEscrowToSign { escrow, escrow_shares_optin_tx: optin, escrow_funding_algos_tx: fund })
}

/// The staking escrow's source: the shares asset id filled in.
pub open spec fn staking_escrow_source(template: Seq<u8>, shares_asset_id: u64) -> Seq<u8> {
    rendered(
        template,
        seq![(crate::teal::placeholder("shares_asset_id".spec_bytes()), decimal_text(shares_asset_id as nat))],
    )
}

/// Renders the staking escrow's template.
pub fn render_staking_escrow(shares_asset_id: u64, source: TealSourceTemplate) -> (r: Result<
    TealSource,
    Error,
>)
    ensures
        r matches Ok(s) && s.0@ == staking_escrow_source(source.0@, shares_asset_id),
{
    let mut context: Vec<(&str, Vec<u8>)> = Vec::new();
    context.push(("shares_asset_id", u64_text(shares_asset_id)));
    proof {
        assert(context_view(context@) =~= seq![
            (crate::teal::placeholder("shares_asset_id".spec_bytes()), decimal_text(shares_asset_id as nat)),
        ]);
    }
    Ok(render_template(&source, &context))
}

/// The funding of an escrow with a fixed amount and its opt-in to an asset, each with the
/// minimum fee and not grouped.
pub open spec fn fund_and_optin_views(params: TxParams, creator: Address, escrow: Address, asset_id: u64) -> (TxnView, TxnView) {
    (
        funding_view(params, creator, escrow, VOTE_ESCROW_FUNDING),
        built(params, escrow, TxnTypeView::AssetAccept { asset_id }),
    )
}

/// The transactions that set up the staking escrow.
#[derive(Debug)]
pub struct SetupStakingEscrowToSign {
    pub escrow: ContractAccount,
    pub escrow_shares_optin_tx: Txn,
    pub escrow_funding_algos_tx: Txn,
}

/// Sets up the (compiled) staking escrow: the creator's funding and the escrow's opt-in to the
/// shares.
pub fn setup_staking_escrow_txs(
    escrow: ContractAccount,
    shares_asset_id: u64,
    creator: &Address,
    params: &TxParams,
) -> (r: Result<SetupStakingEscrowToSign, Error>)
    requires
        params.wf(),
    ensures
        r matches Ok(s) && s.escrow == escrow && (s.escrow_funding_algos_tx@, s.escrow_shares_optin_tx@)
            == fund_and_optin_views(*params, *creator, account_address(escrow), shares_asset_id),
{
    let address = *escrow.address();
    let fund = pay(params, *creator, address, MicroAlgos(VOTE_ESCROW_FUNDING));
    let optin = accept_asset(params, address, shares_asset_id);
    Ok(SetupStakingEscrowToSign { escrow, escrow_shares_optin_tx: optin, escrow_funding_algos_tx: fund })
}

/// The vote-in escrow's source: the votes asset id, the votes threshold and the vote-out
/// escrow's address filled in.
pub open spec fn votes_in_escrow_source(template: Seq<u8>, votes_asset_id: u64, threshold: u64, votes_out: Address) -> Seq<u8> {
    rendered(
        template,
        seq![
            (crate::teal::placeholder("votes_asset_id".spec_bytes()), decimal_text(votes_asset_id as nat)),
            (crate::teal::placeholder("votes_threshold_units".spec_bytes()), decimal_text(threshold as nat)),
            (crate::teal::placeholder("votes_out_address".spec_bytes()), address_text_of(votes_out)),
        ],
    )
}

/// Renders the vote-in escrow's template, which holds the votes for a withdrawal.
pub fn render_votes_in_escrow(
    source: TealSourceTemplate,
    votes_asset_id: u64,
    votes_threshold_units: u64,
    votes_out_address: Address,
) -> (r: Result<TealSource, Error>)
    ensures
        r matches Ok(s) && s.0@ == votes_in_escrow_source(
            source.0@,
            votes_asset_id,
            votes_threshold_units,
            votes_out_address,
        ),
{
    let mut context: Vec<(&str, Vec<u8>)> = Vec::new();
    context.push(("votes_asset_id", u64_text(votes_asset_id)));
    context.push(("votes_threshold_units", u64_text(votes_threshold_units)));
    context.push(("votes_out_address", address_text(&votes_out_address)));
    proof {
        assert(context_view(context@) =~= seq![
            (crate::teal::placeholder("votes_asset_id".spec_bytes()), decimal_text(votes_asset_id as nat)),
            (crate::teal::placeholder("votes_threshold_units".spec_bytes()), decimal_text(votes_threshold_units as nat)),
            (crate::teal::placeholder("votes_out_address".spec_bytes()), address_text_of(votes_out_address)),
        ]);
    }
    Ok(render_template(&source, &context))
}

/// The transactions that set up the vote-in escrow.
#[derive(Debug)]
pub struct SetupVoteInEscrowToSign {
    pub escrow: ContractAccount,
    pub escrow_votes_optin_tx: Txn,
    pub escrow_funding_algos_tx: Txn,
}

/// Sets up the (compiled) vote-in escrow: the creator's funding and the escrow's opt-in to the
/// votes asset.
pub fn setup_votein_escrow_txs(
    escrow: ContractAccount,
    creator: Address,
    votes_asset_id: u64,
    params: &TxParams,
) -> (r: Result<SetupVoteInEscrowToSign, Error>)
    requires
        params.wf(),
    ensures
        r matches Ok(s) && s.escrow == escrow && (s.escrow_funding_algos_tx@, s.escrow_votes_optin_tx@)
            == fund_and_optin_views(*params, creator, account_address(escrow), votes_asset_id),
{
    let address = *escrow.address();
    let fund = pay(params, creator, address, MicroAlgos(VOTE_ESCROW_FUNDING));
    let optin = accept_asset(params, address, votes_asset_id);
    Ok(SetupVoteInEscrowToSign { escrow, escrow_votes_optin_tx: optin, escrow_funding_algos_tx: fund })
}

/// The vote-out escrow's source: the shares and votes asset ids and the staking escrow's
/// address filled in.
pub open spec fn vote_out_escrow_source(template: Seq<u8>, shares_asset_id: u64, votes_asset_id: u64, staking: Address) -> Seq<u8> {
    rendered(
        template,
        seq![
            (crate::teal::placeholder("shares_asset_id".spec_bytes()), decimal_text(shares_asset_id as nat)),
            (crate::teal::placeholder("votes_asset_id".spec_bytes()), decimal_text(votes_asset_id as nat)),
            (crate::teal::placeholder("staking_escrow_address".spec_bytes()), address_text_of(staking)),
        ],
    )
}

/// Renders the vote-out escrow's template.
pub fn render_vote_out_escrow(
    source: TealSourceTemplate,
    shares_asset_id: u64,
    votes_asset_id: u64,
    staking_escrow_address: Address,
) -> (r: Result<TealSource, Error>)
    ensures
        r matches Ok(s) && s.0@ == vote_out_escrow_source(
            source.0@,
            shares_asset_id,
            votes_asset_id,
            staking_escrow_address,
        ),
{
    let mut context: Vec<(&str, Vec<u8>)> = Vec::new();
    context.push(("shares_asset_id", u64_text(shares_asset_id)));
    context.push(("votes_asset_id", u64_text(votes_asset_id)));
    context.push(("staking_escrow_address", address_text(&staking_escrow_address)));
    proof {
        assert(context_view(context@) =~= seq![
            (crate::teal::placeholder("shares_asset_id".spec_bytes()), decimal_text(shares_asset_id as nat)),
            (crate::teal::placeholder("votes_asset_id".spec_bytes()), decimal_text(votes_asset_id as nat)),
            (crate::teal::placeholder("staking_escrow_address".spec_bytes()), address_text_of(staking_escrow_address)),
        ]);
    }
    Ok(render_template(&source, &context))
}

/// The transactions that set up the vote-out escrow.
#[derive(Debug)]
pub struct SetupVoteOutEscrowToSign {
    pub escrow: ContractAccount,
    pub escrow_votes_optin_tx: Txn,
    pub escrow_funding_algos_tx: Txn,
}

/// Sets up the (compiled) vote-out escrow: the creator's funding and the escrow's opt-in to the
/// votes asset.
pub fn create_votes_out_escrow_tx(
    escrow: ContractAccount,
    creator: Address,
    votes_asset_id: u64,
    params: &TxParams,
) -> (r: Result<SetupVoteOutEscrowToSign, Error>)
    requires
        params.wf(),
    ensures
        r matches Ok(s) && s.escrow == escrow && (s.escrow_funding_algos_tx@, s.escrow_votes_optin_tx@)
            == fund_and_optin_views(*params, creator, account_address(escrow), votes_asset_id),
{
    let address = *escrow.address();
    let fund = pay(params, creator, address, MicroAlgos(VOTE_ESCROW_FUNDING));
    let optin = accept_asset(params, address, votes_asset_id);
    Ok(SetupVoteOutEscrowToSign { escrow, escrow_votes_optin_tx: optin, escrow_funding_algos_tx: fund })
}

/// The setups of the two escrows through which customers' payments go: customer escrow, then
/// central escrow, then the investors' part.
#[derive(Debug)]
pub struct DrainSetupToSign {
    pub central: SetupCentralEscrowToSign,
    pub customer: SetupCustomerEscrowToSign,
}

/// Sets up the (compiled) central and customer escrows.
pub fn setup_drain(
    project_creator: &Address,
    central_escrow: ContractAccount,
    customer_escrow: ContractAccount,
    params: &TxParams,
    funds_asset_id: FundsAssetId,
) -> (r: Result<DrainSetupToSign, Error>)
    requires
        params.wf(),
    ensures
        r is Ok <==> with_fees_of(
            funding_view(*params, *project_creator, account_address(customer_escrow), MIN_BALANCE),
            seq![
                zero_fee_optin_view(*params, account_address(customer_escrow), funds_asset_id.0),
                funding_view(*params, *project_creator, account_address(customer_escrow), MIN_BALANCE),
            ],
            params.fee_per_byte,
            params.min_fee,
        ) is Some,
        r matches Ok(d) ==> d.central.escrow == central_escrow && d.customer.escrow == customer_escrow
            && d.central.optin_to_funds_asset_tx@ == built(
            *params,
            account_address(central_escrow),
            TxnTypeView::AssetAccept { asset_id: funds_asset_id.0 },
        ) && d.central.fund_min_balance_tx@ == funding_view(
            *params,
            *project_creator,
            account_address(central_escrow),
            (MIN_BALANCE + FIXED_FEE) as u64,
        ) && d.customer.optin_to_funds_asset_tx@ == zero_fee_optin_view(
            *params,
            account_address(customer_escrow),
            funds_asset_id.0,
        ) && with_fees_of(
            funding_view(*params, *project_creator, account_address(customer_escrow), MIN_BALANCE),
            seq![
                zero_fee_optin_view(*params, account_address(customer_escrow), funds_asset_id.0),
                funding_view(*params, *project_creator, account_address(customer_escrow), MIN_BALANCE),
            ],
            params.fee_per_byte,
            params.min_fee,
        ) == Some(d.customer.fund_min_balance_tx@),
        r matches Err(e) ==> e == Error::FeeEstimation || e == Error::Overflow,
{
    let central = setup_central_escrow(project_creator, central_escrow, params, funds_asset_id)?;
    let customer = setup_customer_escrow(project_creator, customer_escrow, params, funds_asset_id)?;
    Ok(DrainSetupToSign { central, customer })
}

} // verus!
