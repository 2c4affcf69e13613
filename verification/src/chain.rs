//! The computations that only the chain's SDK (`algonaut`) performs: encoding transactions,
//! group ids, and the addresses of applications and programs.
use vstd::prelude::*;

use algonaut::crypto::HashDigest;
use algonaut::transaction::transaction::{
    ApplicationCallOnComplete, ApplicationCallTransaction, AssetAcceptTransaction,
    AssetConfigurationTransaction, AssetParams, AssetTransferTransaction, Payment,
};
use algonaut::transaction::{Transaction, TransactionType};

use crate::encoding::sha512_256_of;
use crate::text::be_bytes;
use crate::tx::{
    opt_bytes_list, opt_seq, opt_string, Address, OnComplete, Txn, TxnType, TxnTypeView, TxnView,
};

verus! {

#[verifier::external_type_specification]
#[verifier::external_body]
pub struct ExRawTransaction(algonaut::transaction::Transaction);

#[verifier::external_type_specification]
#[verifier::external_body]
pub struct ExRawTransactionType(algonaut::transaction::TransactionType);

/// The encoding of a transaction on the chain (MessagePack, named fields), as the SDK
/// produces it; `None` where the encoder fails.
pub uninterp spec fn encoded_transaction_of(tx: TxnView) -> Option<Seq<u8>>;

/// The id of the group of the transactions, as the SDK computes it; `None` where it refuses
/// the group.
pub uninterp spec fn group_id_of(txs: Seq<TxnView>) -> Option<Seq<u8>>;

/// The address of the account of an application, as the SDK computes it.
pub uninterp spec fn app_address_of(app_id: u64) -> Address;

/// What the SDK hashes into an application's address: the bytes of "appID", then the id's
/// eight big-endian bytes.
pub open spec fn app_address_preimage(app_id: u64) -> Seq<u8> {
    seq![97u8, 112u8, 112u8, 73u8, 68u8] + be_bytes(app_id)
}

/// What the SDK hashes into a contract account's address: the bytes of "Program", then the
/// compiled program.
pub open spec fn program_address_preimage(program: Seq<u8>) -> Seq<u8> {
    seq![80u8, 114u8, 111u8, 103u8, 114u8, 97u8, 109u8] + program
}

/// The address of a compiled program used as a contract account, as the SDK computes it.
pub uninterp spec fn program_address_of(program: Seq<u8>) -> Address;

/// The text form of an address (base32 with a checksum), as the SDK writes it, in bytes.
pub uninterp spec fn address_text_of(address: Address) -> Seq<u8>;

/// The SDK's value of a kind of transaction sent by `sender`, with the fields of `kind` and
/// none of the optional fields that the library does not use (as the converters below build it).
pub uninterp spec fn sdk_kind_of(sender: Address, kind: TxnTypeView) -> TransactionType;

/// The SDK's transaction with the fields of `tx` (no lease), as `sdk_transaction` builds it.
pub uninterp spec fn sdk_transaction_of(tx: TxnView) -> Transaction;

/// The SDK's payment.
#[verifier::external_body]
fn raw_payment(sender: &Address, receiver: &Address, amount: u64) -> (r: TransactionType)
    ensures
        r == sdk_kind_of(*sender, TxnTypeView::Payment { receiver: *receiver, amount }),
{
    TransactionType::Payment(Payment {
        sender: algonaut::core::Address(sender.0),
        receiver: algonaut::core::Address(receiver.0),
        amount: algonaut::core::MicroAlgos(amount),
        close_remainder_to: None,
    })
}

/// The SDK's asset transfer.
#[verifier::external_body]
fn raw_asset_transfer(sender: &Address, asset_id: u64, amount: u64, receiver: &Address) -> (r: TransactionType)
    ensures
        r == sdk_kind_of(*sender, TxnTypeView::AssetTransfer { asset_id, amount, receiver: *receiver }),
{
    TransactionType::AssetTransferTransaction(AssetTransferTransaction {
        sender: algonaut::core::Address(sender.0),
        xfer: algonaut::core::AssetId(asset_id),
        amount,
        receiver: algonaut::core::Address(receiver.0),
        close_to: None,
    })
}

/// The SDK's asset opt-in.
#[verifier::external_body]
fn raw_asset_accept(sender: &Address, asset_id: u64) -> (r: TransactionType)
    ensures
        r == sdk_kind_of(*sender, TxnTypeView::AssetAccept { asset_id }),
{
    TransactionType::AssetAcceptTransaction(AssetAcceptTransaction { sender: algonaut::core::Address(sender.0), xfer: algonaut::core::AssetId(asset_id) })
}

/// The SDK's asset creation, with none of the optional addresses, url or metadata.
#[verifier::external_body]
fn raw_asset_create(sender: &Address, total: u64, decimals: u32, default_frozen: bool, unit_name: &Option<String>, asset_name: &Option<String>) -> (r: TransactionType)
    ensures
        r == sdk_kind_of(
            *sender,
            TxnTypeView::AssetCreate {
                total,
                decimals,
                default_frozen,
                unit_name: opt_string(*unit_name),
                asset_name: opt_string(*asset_name),
            },
        ),
{
    TransactionType::AssetConfigurationTransaction(AssetConfigurationTransaction {
        sender: algonaut::core::Address(sender.0),
        params: Some(AssetParams {
            asset_name: asset_name.clone(), decimals: Some(decimals), default_frozen: Some(default_frozen),
            total: Some(total), unit_name: unit_name.clone(), meta_data_hash: None, url: None,
            clawback: None, freeze: None, manager: None, reserve: None,
        }),
        config_asset: None,
    })
}

/// The SDK's application call (no programs, schemas, foreign applications or boxes).
#[verifier::external_body]
fn raw_app_call(sender: &Address, app_id: u64, on_complete: OnComplete, app_arguments: &Option<Vec<Vec<u8>>>, accounts: &Option<Vec<Address>>, foreign_assets: &Option<Vec<u64>>) -> (r: TransactionType)
    ensures
        r == sdk_kind_of(
            *sender,
            TxnTypeView::ApplicationCall {
                app_id,
                on_complete,
                app_arguments: opt_bytes_list(*app_arguments),
                accounts: opt_seq(*accounts),
                foreign_assets: opt_seq(*foreign_assets),
            },
        ),
{
    TransactionType::ApplicationCallTransaction(ApplicationCallTransaction {
        sender: algonaut::core::Address(sender.0), app_id: Some(algonaut::core::AppId(app_id)),
        on_complete: match on_complete { OnComplete::NoOp => ApplicationCallOnComplete::NoOp, OnComplete::OptIn => ApplicationCallOnComplete::OptIn },
        accounts: accounts.as_ref().map(|v| v.iter().map(|a| algonaut::core::Address(a.0)).collect()),
        approval_program: None, app_arguments: app_arguments.clone(), clear_state_program: None,
        foreign_apps: None, foreign_assets: foreign_assets.as_ref().map(|v| v.iter().map(|a| algonaut::core::AssetId(*a)).collect()),
        global_state_schema: None, local_state_schema: None, extra_pages: 0, boxes: None,
    })
}

/// The SDK's application creation (no arguments, accounts, foreign items or boxes).
#[verifier::external_body]
fn raw_app_create(sender: &Address, approval: &Vec<u8>, clear: &Vec<u8>, global: crate::tx::StateSchema, local: crate::tx::StateSchema) -> (r: TransactionType)
    ensures
        r == sdk_kind_of(
            *sender,
            TxnTypeView::ApplicationCreate {
                approval_program: approval@,
                clear_program: clear@,
                global_schema: global,
                local_schema: local,
            },
        ),
{
    TransactionType::ApplicationCallTransaction(ApplicationCallTransaction {
        sender: algonaut::core::Address(sender.0), app_id: None, on_complete: ApplicationCallOnComplete::NoOp,
        accounts: None, approval_program: Some(algonaut::core::CompiledTeal(approval.clone())), app_arguments: None,
        clear_state_program: Some(algonaut::core::CompiledTeal(clear.clone())), foreign_apps: None, foreign_assets: None,
        global_state_schema: Some(algonaut::transaction::transaction::StateSchema { number_ints: global.number_ints, number_byteslices: global.number_byteslices }),
        local_state_schema: Some(algonaut::transaction::transaction::StateSchema { number_ints: local.number_ints, number_byteslices: local.number_byteslices }),
        extra_pages: 0, boxes: None,
    })
}

/// The SDK's transaction with the header of `tx` (no lease) and the given kind, which is the
/// SDK's value of the kind of `tx`.
#[verifier::external_body]
fn raw_with_header(tx: &Txn, txn_type: TransactionType) -> (r: Transaction)
    requires
        txn_type == sdk_kind_of(tx.sender, tx.txn_type@),
    ensures
        r == sdk_transaction_of(tx@),
{
    Transaction {
        fee: algonaut::core::MicroAlgos(tx.fee.0),
        first_valid: algonaut::core::Round(tx.first_valid),
        genesis_hash: HashDigest(tx.genesis_hash),
        last_valid: algonaut::core::Round(tx.last_valid),
        txn_type,
        genesis_id: Some(tx.genesis_id.clone()),
        group: tx.group.map(HashDigest),
        lease: None,
        note: tx.note.clone(),
        rekey_to: tx.rekey_to.map(|a| algonaut::core::Address(a.0)),
    }
}

/// The same transaction as the SDK's type: each field to the field of the same meaning.
pub fn sdk_transaction(tx: &Txn) -> (r: Transaction)
    ensures
        r == sdk_transaction_of(tx@),
{
    let s = &tx.sender;
    let txn_type = match &tx.txn_type {
        TxnType::Payment { receiver, amount } => raw_payment(s, receiver, amount.0),
        TxnType::AssetTransfer { asset_id, amount, receiver } => raw_asset_transfer(s, *asset_id, *amount, receiver),
        TxnType::AssetAccept { asset_id } => raw_asset_accept(s, *asset_id),
        TxnType::AssetCreate { total, decimals, default_frozen, unit_name, asset_name } =>
            raw_asset_create(s, *total, *decimals, *default_frozen, unit_name, asset_name),
        TxnType::ApplicationCall { app_id, on_complete, app_arguments, accounts, foreign_assets } =>
            raw_app_call(s, *app_id, *on_complete, app_arguments, accounts, foreign_assets),
        TxnType::ApplicationCreate { approval_program, clear_program, global_schema, local_schema } =>
            raw_app_create(s, approval_program, clear_program, *global_schema, *local_schema),
    };
    raw_with_header(tx, txn_type)
}

/// The SDK's encoding of a transaction (`ToMsgPack::to_msg_pack`), from which it estimates
/// sizes and fees and computes ids.
#[verifier::external_body]
pub(crate) fn encode_transaction(tx: &Txn) -> (r: Option<Vec<u8>>)
    ensures
        match r {
            Some(bytes) => encoded_transaction_of(tx@) == Some(bytes@),
            None => encoded_transaction_of(tx@) is None,
        },
{
    algonaut::core::ToMsgPack::to_msg_pack(&sdk_transaction(tx)).ok()
}

/// The SDK's group id of transactions (`TransactionGroup::try_from`). The SDK refuses an empty
/// group and a group of more than 16 transactions.
#[verifier::external_body]
pub(crate) fn compute_group_id(txs: &Vec<Txn>) -> (r: Option<[u8; 32]>)
    ensures
        match r {
            Some(id) => group_id_of(txs@.map_values(|t: Txn| t@)) == Some(id@),
            None => group_id_of(txs@.map_values(|t: Txn| t@)) is None,
        },
        (txs.len() == 0 || txs.len() > 16) ==> r is None,
{
    let raw: Vec<Transaction> = txs.iter().map(sdk_transaction).collect();
    algonaut::transaction::group::TransactionGroup::try_from(raw).ok().and_then(
        |g| g.transactions()[0].group,
    ).map(|h| h.0)
}

/// The SDK's address of the account of an application (`AppId::address`): the SHA-512/256
/// digest of "appID" followed by the id's big-endian bytes.
#[verifier::external_body]
pub(crate) fn app_address(app_id: u64) -> (r: Address)
    ensures
        r == app_address_of(app_id),
        r.0@ == sha512_256_of(app_address_preimage(app_id)),
{
    Address(algonaut::core::AppId(app_id).address().0)
}

/// The SDK's address of a compiled program used as a contract account
/// (`ContractAccount::new`, the hash of the program): the SHA-512/256 digest of "Program"
/// followed by the program.
#[verifier::external_body]
pub(crate) fn program_address(program: &Vec<u8>) -> (r: Address)
    ensures
        r == program_address_of(program@),
        r.0@ == sha512_256_of(program_address_preimage(program@)),
{
    let account = algonaut::transaction::contract_account::ContractAccount::new(
        algonaut::core::CompiledTeal(program.clone()),
    );
    Address(account.address().0)
}

/// The SDK's text form of an address (its `Display`).
#[verifier::external_body]
pub(crate) fn address_text(address: &Address) -> (r: Vec<u8>)
    ensures
        r@ == address_text_of(*address),
{
    algonaut::core::Address(address.0).to_string().into_bytes()
}

} // verus!
