//! Storing a project on the chain (its note in a payment to the creator) and reading it back.
use vstd::prelude::*;

use vstd::string::StringSliceAdditionalSpecFns;

use crate::amounts::MicroAlgos;
use crate::encoding::{base64_decode, base64_decoded_of};
use crate::error::Error;
use crate::flows::create_project::model::Project;
use crate::flows::create_project::note::{
    extract_hash_and_object_from_note_payload, note_to_project_payload, note_version, ObjectAndHash,
    NOTE_VERSION,
};
use crate::text::text_bytes;
use crate::chain::program_address_of;
use crate::flows::create_project::note::ProjectId;
use crate::tx::{built, call_app, pay, transfer_asset, Address, OnComplete, TxParams, Txn, TxnTypeView, TxnView};
use crate::txgroup::{group_of_two, grouped};

verus! {

/// The fixed fee of the storing payment.
pub const FIXED_FEE: u64 = 1_000u64;

/// The transactions that store a project and opt its creator in to the central application.
#[derive(Debug)]
pub struct SaveProjectToSign {
    pub app_optin_tx: Txn,
    pub save_project_tx: Txn,
    pub project: Project,
}

/// The two transactions of a save, before they are grouped: the creator's opt-in to the
/// central application (argument "opt_in_tmp"), and the creator's zero payment to itself with
/// the fixed fee and the project's note.
pub open spec fn save_project_views(params: TxParams, creator: Address, central_app_id: u64, note: Seq<u8>) -> Seq<TxnView> {
    seq![
        built(
            params,
            creator,
            TxnTypeView::ApplicationCall {
                app_id: central_app_id,
                on_complete: OnComplete::OptIn,
                app_arguments: Some(seq!["opt_in_tmp".spec_bytes()]),
                accounts: None,
                foreign_assets: None,
            },
        ),
        built(params, creator, TxnTypeView::Payment { receiver: creator, amount: 0 }).with_fee(FIXED_FEE).with_note(note),
    ]
}

/// Stores a project (its note, framed by `project_to_note`) and opts its creator in to the
/// central application, which the staking of the creator's shares needs next; in one group.
pub fn save_project_and_optin_to_app(
    creator: &Address,
    project: &Project,
    note: Vec<u8>,
    params: &TxParams,
) -> (r: Result<SaveProjectToSign, Error>)
    requires
        params.wf(),
    ensures
        r is Ok <==> grouped(save_project_views(*params, *creator, project.central_app_id, note@)) is Some,
        r matches Ok(s) ==> grouped(save_project_views(*params, *creator, project.central_app_id, note@))
            == Some(seq![s.app_optin_tx@, s.save_project_tx@]) && s.project.specs == project.specs
            && s.project.funds_asset_id == project.funds_asset_id && s.project.creator
            == project.creator && s.project.shares_asset_id == project.shares_asset_id
            && s.project.central_app_id == project.central_app_id
            && s.project.invest_escrow.program_bytes() == project.invest_escrow.program_bytes()
            && s.project.locking_escrow.program_bytes() == project.locking_escrow.program_bytes()
            && s.project.central_escrow.program_bytes() == project.central_escrow.program_bytes()
            && s.project.customer_escrow.program_bytes() == project.customer_escrow.program_bytes(),
        r matches Err(e) ==> e == Error::InvalidGroup,
{
    let ghost note_bytes = note@;
    let mut arguments: Vec<Vec<u8>> = Vec::new();
    arguments.push(text_bytes("opt_in_tmp"));
    let app_optin_tx = call_app(params, *creator, project.central_app_id, OnComplete::OptIn, Some(arguments), None, None);
    proof {
        assert(crate::tx::bytes_list(arguments) =~= seq!["opt_in_tmp".spec_bytes()]);
    }
    let mut save_project_tx = pay(params, *creator, *creator, MicroAlgos(0));
    save_project_tx.fee = MicroAlgos(FIXED_FEE);
    save_project_tx.note = Some(note);
    let (app_optin_tx, save_project_tx) = group_of_two(app_optin_tx, save_project_tx)?;
    Ok(SaveProjectToSign { app_optin_tx, save_project_tx, project: project.copy() })
}

/// The stored project's hash and encoded payload that a note holds: its version is checked
/// (only version 1 is read) and the rest split.
pub fn note_to_hashed_payload(note: &[u8]) -> (r: Result<ObjectAndHash, Error>)
    ensures
        r is Ok <==> (note@.len() >= 2 && note_version(note@) == NOTE_VERSION && note@.len() >= 34),
        r matches Ok(o) ==> o.hash@ == note@.subrange(2, 34) && o.obj@ == note@.subrange(34, note@.len() as int),
        r matches Err(e) ==> e == Error::NotEnoughBytes || e == Error::UnsupportedVersion,
{
    let payload = note_to_project_payload(note)?;
    if payload.version != NOTE_VERSION {
        return Err(Error::UnsupportedVersion);
    }
    let r = extract_hash_and_object_from_note_payload(payload.variable.as_slice());
    proof {
        let b = note@;
        if b.len() >= 34 {
            assert(payload.variable@.subrange(0, 32) =~= b.subrange(2, 34));
            assert(payload.variable@.subrange(32, payload.variable@.len() as int) =~= b.subrange(34, b.len() as int));
        }
    }
    r
}

/// The stored project's hash and encoded payload that a note in base64 holds: the note is
/// decoded, its version checked (only version 1 is read) and split.
pub fn base64_note_to_project_payload(note: &str) -> (r: Result<ObjectAndHash, Error>)
    ensures
        r is Ok <==> (base64_decoded_of(note.spec_bytes()) matches Some(bytes) && bytes.len() >= 2
            && note_version(bytes) == NOTE_VERSION && bytes.len() >= 34),
        r matches Ok(o) ==> (base64_decoded_of(note.spec_bytes()) matches Some(bytes) && o.hash@
            == bytes.subrange(2, 34) && o.obj@ == bytes.subrange(34, bytes.len() as int)),
        r matches Err(e) ==> e == Error::InvalidEncoding || e == Error::NotEnoughBytes || e
            == Error::UnsupportedVersion,
{
    let bytes = match base64_decode(&text_bytes(note)) {
        Some(b) => b,
        None => {
            return Err(Error::InvalidEncoding);
        },
    };
    note_to_hashed_payload(bytes.as_slice())
}

/// The creator's transactions as an investor of its own project (the creator does not opt in
/// to the asset, which it created).
#[derive(Debug)]
pub struct CreatorInvestorSetupToSign {
    pub investor_app_setup_tx: Txn,
    pub stake_shares_tx: Txn,
}

/// The two transactions of the creator's setup as investor, before they are grouped: the
/// creator's call of the central application with the project id as argument and the shares
/// asset as foreign asset (with the fixed fee), and the staking of the creator's part of the
/// shares (their transfer to the locking escrow).
pub open spec fn creator_investor_views(
    params: TxParams,
    creator: Address,
    app_id: u64,
    shares_id: u64,
    project_id: Seq<u8>,
    shares_asset_id: u64,
    creator_part: u64,
    locking_escrow: Address,
) -> Seq<TxnView> {
    seq![
        built(
            params,
            creator,
            TxnTypeView::ApplicationCall {
                app_id,
                on_complete: OnComplete::NoOp,
                app_arguments: Some(seq![project_id]),
                accounts: None,
                foreign_assets: Some(seq![shares_id]),
            },
        ).with_fee(FIXED_FEE),
        built(
            params,
            creator,
            TxnTypeView::AssetTransfer { asset_id: shares_asset_id, amount: creator_part, receiver: locking_escrow },
        ),
    ]
}

/// The creator's setup as investor of its own project: the call of the central application
/// that initializes the creator's local state, and the staking of the creator's part of the
/// shares, in one group.
pub fn creator_investor_setup(
    creator: &Address,
    app_id: u64,
    shares_id: u64,
    project_id: &ProjectId,
    project: &Project,
    params: &TxParams,
) -> (r: Result<CreatorInvestorSetupToSign, Error>)
    requires
        params.wf(),
        project.specs.wf(),
    ensures
        r is Ok <==> grouped(
            creator_investor_views(
                *params,
                *creator,
                app_id,
                shares_id,
                project_id.0.0@,
                project.shares_asset_id,
                (project.specs.shares.supply.0 - project.specs.investors_part.0) as u64,
                program_address_of(project.locking_escrow.program_bytes()),
            ),
        ) is Some,
        r matches Ok(c) ==> grouped(
            creator_investor_views(
                *params,
                *creator,
                app_id,
                shares_id,
                project_id.0.0@,
                project.shares_asset_id,
                (project.specs.shares.supply.0 - project.specs.investors_part.0) as u64,
                program_address_of(project.locking_escrow.program_bytes()),
            ),
        ) == Some(seq![c.investor_app_setup_tx@, c.stake_shares_tx@]),
        r matches Err(e) ==> e == Error::InvalidGroup,
{
    let mut arguments: Vec<Vec<u8>> = Vec::new();
    arguments.push(project_id.bytes());
    let mut assets: Vec<u64> = Vec::new();
    assets.push(shares_id);
    let mut investor_app_setup_tx = call_app(
        params,
        *creator,
        app_id,
        OnComplete::NoOp,
        Some(arguments),
        None,
        Some(assets),
    );
    proof {
        assert(crate::tx::bytes_list(arguments) =~= seq![project_id.0.0@]);
        assert(assets@ =~= seq![shares_id]);
    }
    investor_app_setup_tx.fee = MicroAlgos(FIXED_FEE);
    let stake_shares_tx = transfer_asset(
        params,
        *creator,
        project.shares_asset_id,
        project.specs.creator_part().val(),
        *project.locking_escrow.address(),
    );
    let (investor_app_setup_tx, stake_shares_tx) = group_of_two(investor_app_setup_tx, stake_shares_tx)?;
    Ok(CreatorInvestorSetupToSign { investor_app_setup_tx, stake_shares_tx })
}

} // verus!
