use vstd::prelude::*;

use crate::amounts::MicroAlgos;

verus! {

/// An account address on the chain: 32 bytes.
#[derive(Debug, Clone, Copy, PartialEq, Eq)]
pub struct Address(pub [u8; 32]);

/// The parameters that the node suggests for new transactions.
#[derive(Debug)]
pub struct TxParams {
    /// Fee per byte of an encoded transaction (may be zero).
    pub fee_per_byte: u64,
    /// The fee that every transaction must pay at least.
    pub min_fee: u64,
    /// The last round that the node has seen.
    pub last_round: u64,
    pub genesis_hash: [u8; 32],
    pub genesis_id: String,
}

impl TxParams {
    /// The validity window of a transaction built from these parameters fits a `u64`.
    pub open spec fn wf(self) -> bool {
        self.last_round + 1000 <= u64::MAX
    }
}

/// The allotment of global or local state of an application.
#[derive(Debug, Clone, Copy, PartialEq, Eq, Structural)]
pub struct StateSchema {
    pub number_ints: u64,
    pub number_byteslices: u64,
}

/// What an application call does besides running the program.
#[derive(Debug, Clone, Copy, PartialEq, Eq, Structural)]
pub enum OnComplete {
    NoOp,
    OptIn,
}

/// The kinds of transaction that the flows of this library build.
#[derive(Debug)]
pub enum TxnType {
    Payment { receiver: Address, amount: MicroAlgos },
    AssetTransfer { asset_id: u64, amount: u64, receiver: Address },
    AssetAccept { asset_id: u64 },
    AssetCreate {
        total: u64,
        decimals: u32,
        default_frozen: bool,
        unit_name: Option<String>,
        asset_name: Option<String>,
    },
    ApplicationCall {
        app_id: u64,
        on_complete: OnComplete,
        app_arguments: Option<Vec<Vec<u8>>>,
        accounts: Option<Vec<Address>>,
        foreign_assets: Option<Vec<u64>>,
    },
    ApplicationCreate {
        approval_program: Vec<u8>,
        clear_program: Vec<u8>,
        global_schema: StateSchema,
        local_schema: StateSchema,
    },
}

/// A transaction, with the header fields of the chain and one of the kinds above.
#[derive(Debug)]
pub struct Txn {
    pub sender: Address,
    pub fee: MicroAlgos,
    pub first_valid: u64,
    pub last_valid: u64,
    pub genesis_hash: [u8; 32],
    pub genesis_id: String,
    pub note: Option<Vec<u8>>,
    pub group: Option<[u8; 32]>,
    pub rekey_to: Option<Address>,
    pub txn_type: TxnType,
}

/// The kind of a transaction, with its byte strings as sequences.
#[verifier::ext_equal]
pub enum TxnTypeView {
    Payment { receiver: Address, amount: u64 },
    AssetTransfer { asset_id: u64, amount: u64, receiver: Address },
    AssetAccept { asset_id: u64 },
    AssetCreate {
        total: u64,
        decimals: u32,
        default_frozen: bool,
        unit_name: Option<Seq<char>>,
        asset_name: Option<Seq<char>>,
    },
    ApplicationCall {
        app_id: u64,
        on_complete: OnComplete,
        app_arguments: Option<Seq<Seq<u8>>>,
        accounts: Option<Seq<Address>>,
        foreign_assets: Option<Seq<u64>>,
    },
    ApplicationCreate {
        approval_program: Seq<u8>,
        clear_program: Seq<u8>,
        global_schema: StateSchema,
        local_schema: StateSchema,
    },
}

/// A transaction with its byte strings as sequences.
#[verifier::ext_equal]
pub struct TxnView {
    pub sender: Address,
    pub fee: u64,
    pub first_valid: u64,
    pub last_valid: u64,
    pub genesis_hash: Seq<u8>,
    pub genesis_id: Seq<char>,
    pub note: Option<Seq<u8>>,
    pub group: Option<Seq<u8>>,
    pub rekey_to: Option<Address>,
    pub txn_type: TxnTypeView,
}

/// The byte strings of a list of byte vectors.
pub open spec fn bytes_list(v: Vec<Vec<u8>>) -> Seq<Seq<u8>> {
    v@.map_values(|b: Vec<u8>| b@)
}

pub open spec fn opt_bytes(o: Option<Vec<u8>>) -> Option<Seq<u8>> {
    match o {
        Some(v) => Some(v@),
        None => None,
    }
}

pub open spec fn opt_bytes_list(o: Option<Vec<Vec<u8>>>) -> Option<Seq<Seq<u8>>> {
    match o {
        Some(v) => Some(bytes_list(v)),
        None => None,
    }
}

pub open spec fn opt_seq<T>(o: Option<Vec<T>>) -> Option<Seq<T>> {
    match o {
        Some(v) => Some(v@),
        None => None,
    }
}

pub open spec fn opt_string(o: Option<String>) -> Option<Seq<char>> {
    match o {
        Some(s) => Some(s@),
        None => None,
    }
}

pub open spec fn opt_array(o: Option<[u8; 32]>) -> Option<Seq<u8>> {
    match o {
        Some(a) => Some(a@),
        None => None,
    }
}

impl View for TxnType {
    type V = TxnTypeView;

    open spec fn view(&self) -> TxnTypeView {
        match self {
            TxnType::Payment { receiver, amount } => TxnTypeView::Payment {
                receiver: *receiver,
                amount: amount.0,
            },
            TxnType::AssetTransfer { asset_id, amount, receiver } =>
                TxnTypeView::AssetTransfer {
                asset_id: *asset_id,
                amount: *amount,
                receiver: *receiver,
            },
            TxnType::AssetAccept { asset_id } => TxnTypeView::AssetAccept {
                asset_id: *asset_id,
            },
            TxnType::AssetCreate {
                total,
                decimals,
                default_frozen,
                unit_name,
                asset_name,
            } => TxnTypeView::AssetCreate {
                total: *total,
                decimals: *decimals,
                default_frozen: *default_frozen,
                unit_name: opt_string(*unit_name),
                asset_name: opt_string(*asset_name),
            },
            TxnType::ApplicationCall {
                app_id,
                on_complete,
                app_arguments,
                accounts,
                foreign_assets,
            } => TxnTypeView::ApplicationCall {
                app_id: *app_id,
                on_complete: *on_complete,
                app_arguments: opt_bytes_list(*app_arguments),
                accounts: opt_seq(*accounts),
                foreign_assets: opt_seq(*foreign_assets),
            },
            TxnType::ApplicationCreate {
                approval_program,
                clear_program,
                global_schema,
                local_schema,
            } => TxnTypeView::ApplicationCreate {
                approval_program: approval_program@,
                clear_program: clear_program@,
                global_schema: *global_schema,
                local_schema: *local_schema,
            },
        }
    }
}

impl View for Txn {
    type V = TxnView;

    open spec fn view(&self) -> TxnView {
        TxnView {
            sender: self.sender,
            fee: self.fee.0,
            first_valid: self.first_valid,
            last_valid: self.last_valid,
            genesis_hash: self.genesis_hash@,
            genesis_id: self.genesis_id@,
            note: opt_bytes(self.note),
            group: opt_array(self.group),
            rekey_to: self.rekey_to,
            txn_type: self.txn_type@,
        }
    }
}

/// The transaction that the chain's SDK builds from the parameters: the fee is the minimum fee,
/// the validity window starts at the last round and spans 1000 rounds, no note, no group.
pub open spec fn built(params: TxParams, sender: Address, txn_type: TxnTypeView) -> TxnView {
    TxnView {
        sender,
        fee: params.min_fee,
        first_valid: params.last_round,
        last_valid: (params.last_round + 1000) as u64,
        genesis_hash: params.genesis_hash@,
        genesis_id: params.genesis_id@,
        note: None,
        group: None,
        rekey_to: None,
        txn_type,
    }
}

/// The arguments of an application call as byte sequences.
pub open spec fn args(a: Seq<Seq<u8>>) -> Option<Seq<Seq<u8>>> {
    Some(a)
}

impl TxnView {
    /// The header that a transaction built from the parameters has, with the given sender and
    /// fee, without note, group and rekeying.
    pub open spec fn built_from(self, params: TxParams, sender: Address, fee: u64) -> bool {
        &&& self.sender == sender
        &&& self.fee == fee
        &&& self.first_valid == params.last_round
        &&& self.last_valid == params.last_round + 1000
        &&& self.genesis_hash == params.genesis_hash@
        &&& self.genesis_id == params.genesis_id@
        &&& self.note is None
        &&& self.group is None
        &&& self.rekey_to is None
    }

    /// The same transaction with another fee.
    pub open spec fn with_fee(self, fee: u64) -> TxnView {
        TxnView { fee, ..self }
    }

    /// The same transaction with a group id.
    pub open spec fn with_group(self, group: Seq<u8>) -> TxnView {
        TxnView { group: Some(group), ..self }
    }

    /// The same transaction with a note.
    pub open spec fn with_note(self, note: Seq<u8>) -> TxnView {
        TxnView { note: Some(note), ..self }
    }
}

/// The transaction that the chain's SDK builds from the parameters: the fee is the minimum fee,
/// the validity window starts at the last round and spans 1000 rounds.
fn build(params: &TxParams, sender: Address, txn_type: TxnType) -> (r: Txn)
    requires
        params.wf(),
    ensures
        r@.built_from(*params, sender, params.min_fee),
        r@ == built(*params, sender, txn_type@),
        r.txn_type == txn_type,
{
    Txn {
        sender,
        fee: MicroAlgos(params.min_fee),
        first_valid: params.last_round,
        last_valid: params.last_round + 1000,
        genesis_hash: params.genesis_hash,
        genesis_id: params.genesis_id.clone(),
        note: None,
        group: None,
        rekey_to: None,
        txn_type,
    }
}

/// A payment of the native currency.
pub fn pay(params: &TxParams, sender: Address, receiver: Address, amount: MicroAlgos) -> (r:
    Txn)
    requires
        params.wf(),
    ensures
        r@ == built(*params, sender, TxnTypeView::Payment { receiver, amount: amount.0 }),
{
    build(params, sender, TxnType::Payment { receiver, amount })
}

/// A transfer of an asset.
pub fn transfer_asset(
    params: &TxParams,
    sender: Address,
    asset_id: u64,
    amount: u64,
    receiver: Address,
) -> (r: Txn)
    requires
        params.wf(),
    ensures
        r@ == built(*params, sender, TxnTypeView::AssetTransfer { asset_id, amount, receiver }),
{
    build(params, sender, TxnType::AssetTransfer { asset_id, amount, receiver })
}

/// The opt-in of the sender to an asset.
pub fn accept_asset(params: &TxParams, sender: Address, asset_id: u64) -> (r: Txn)
    requires
        params.wf(),
    ensures
        r@ == built(*params, sender, TxnTypeView::AssetAccept { asset_id }),
{
    build(params, sender, TxnType::AssetAccept { asset_id })
}

/// A call of an application.
pub fn call_app(
    params: &TxParams,
    sender: Address,
    app_id: u64,
    on_complete: OnComplete,
    app_arguments: Option<Vec<Vec<u8>>>,
    accounts: Option<Vec<Address>>,
    foreign_assets: Option<Vec<u64>>,
) -> (r: Txn)
    requires
        params.wf(),
    ensures
        r@ == built(*params, sender, TxnTypeView::ApplicationCall {
            app_id,
            on_complete,
            app_arguments: opt_bytes_list(app_arguments),
            accounts: opt_seq(accounts),
            foreign_assets: opt_seq(foreign_assets),
        }),
{
    build(
        params,
        sender,
        TxnType::ApplicationCall {
            app_id,
            on_complete,
            app_arguments,
            accounts,
            foreign_assets,
        },
    )
}

/// The creation of an asset.
pub fn create_asset(
    params: &TxParams,
    sender: Address,
    total: u64,
    decimals: u32,
    default_frozen: bool,
    unit_name: Option<String>,
    asset_name: Option<String>,
) -> (r: Txn)
    requires
        params.wf(),
    ensures
        r@ == built(*params, sender, TxnTypeView::AssetCreate {
            total,
            decimals,
            default_frozen,
            unit_name: opt_string(unit_name),
            asset_name: opt_string(asset_name),
        }),
{
    build(
        params,
        sender,
        TxnType::AssetCreate { total, decimals, default_frozen, unit_name, asset_name },
    )
}

/// The creation of an application.
pub fn create_app(
    params: &TxParams,
    sender: Address,
    approval_program: Vec<u8>,
    clear_program: Vec<u8>,
    global_schema: StateSchema,
    local_schema: StateSchema,
) -> (r: Txn)
    requires
        params.wf(),
    ensures
        r@ == built(*params, sender, TxnTypeView::ApplicationCreate {
            approval_program: approval_program@,
            clear_program: clear_program@,
            global_schema,
            local_schema,
        }),
{
    build(
        params,
        sender,
        TxnType::ApplicationCreate {
            approval_program,
            clear_program,
            global_schema,
            local_schema,
        },
    )
}

} // verus!
