//! The note under which a project is stored on the chain: a version (two bytes, most
//! significant first), the hash of the project (32 bytes), and the project's payload (its
//! minimal stored form; the escrows are rendered again on load).
use vstd::prelude::*;

use crate::amounts::{FundsAmount, FundsAssetId, ShareAmount};
use crate::encoding::{sha512_256, sha512_256_of};
use crate::error::Error;
use crate::flows::create_dao::model::CreateSharesSpecs;
use crate::flows::create_project::model::{CreateProjectSpecs, Project};
use crate::encoding::base32_text_of;
use crate::ids::{tx_id_of_text, TxId};
use vstd::string::StringSliceAdditionalSpecFns;
use vstd::utf8::encode_utf8;
use crate::teal::ContractAccount;
use crate::tx::Address;

verus! {

/// The version of the note format that this library writes and reads.
pub const NOTE_VERSION: u16 = 1u16;

/// The note of a project: the version 1 as two bytes, the project's hash, the payload.
pub open spec fn note_of(hash: Seq<u8>, payload: Seq<u8>) -> Seq<u8> {
    seq![0u8, 1u8] + hash + payload
}

/// Frames a project's note from the hash of the project and the bytes of its payload.
pub fn project_to_note(project_hash: &[u8; 32], payload_bytes: &Vec<u8>) -> (r: Result<Vec<u8>, Error>)
    ensures
        r matches Ok(note) && note@ == note_of(project_hash@, payload_bytes@),
{
    let mut bytes: Vec<u8> = Vec::new();
    bytes.push(0u8);
    bytes.push(1u8);
    let mut i: usize = 0;
    while i < 32
        invariant
            i <= 32,
            bytes@ =~= seq![0u8, 1u8] + project_hash@.subrange(0, i as int),
        decreases 32 - i,
    {
        bytes.push(project_hash[i]);
        i = i + 1;
    }
    proof {
        assert(project_hash@.subrange(0, 32) =~= project_hash@);
    }
    let mut j: usize = 0;
    while j < payload_bytes.len()
        invariant
            j <= payload_bytes.len(),
            bytes@ =~= seq![0u8, 1u8] + project_hash@ + payload_bytes@.subrange(0, j as int),
        decreases payload_bytes.len() - j,
    {
        bytes.push(payload_bytes[j]);
        j = j + 1;
    }
    proof {
        assert(payload_bytes@.subrange(0, payload_bytes.len() as int) =~= payload_bytes@);
    }
    Ok(bytes)
}

/// A note split into its version and the rest.
#[derive(Debug)]
pub struct ProjectPayload {
    pub version: u16,
    pub variable: Vec<u8>,
}

/// The version that a note starts with: its first two bytes, most significant first.
pub open spec fn note_version(note: Seq<u8>) -> u16 {
    (note[0] * 256 + note[1]) as u16
}

/// Splits a note into its version and the rest; refused where the note has fewer than two
/// bytes.
pub fn note_to_project_payload(note: &[u8]) -> (r: Result<ProjectPayload, Error>)
    ensures
        r is Ok <==> note@.len() >= 2,
        r matches Ok(p) ==> p.version == note_version(note@) && p.variable@ == note@.subrange(
            2,
            note@.len() as int,
        ),
        r matches Err(e) ==> e == Error::NotEnoughBytes,
{
    if note.len() < 2 {
        return Err(Error::NotEnoughBytes);
    }
    let version: u16 = (note[0] as u16) * 256 + (note[1] as u16);
    let mut variable: Vec<u8> = Vec::new();
    let mut i: usize = 2;
    while i < note.len()
        invariant
            2 <= i <= note@.len(),
            variable@ =~= note@.subrange(2, i as int),
        decreases note@.len() - i,
    {
        variable.push(note[i]);
        i = i + 1;
    }
    Ok(ProjectPayload { version, variable })
}

/// An object's bytes and the hash stored before them.
#[derive(Debug)]
pub struct ObjectAndHash {
    pub hash: [u8; 32],
    pub obj: Vec<u8>,
}

/// Splits a note's payload into the 32 bytes of the hash and the bytes of the hashed object
/// (which are then decoded); refused where the payload has fewer than 32 bytes.
pub fn extract_hash_and_object_from_note_payload(payload: &[u8]) -> (r: Result<ObjectAndHash, Error>)
    ensures
        r is Ok <==> payload@.len() >= 32,
        r matches Ok(o) ==> o.hash@ == payload@.subrange(0, 32) && o.obj@ == payload@.subrange(
            32,
            payload@.len() as int,
        ),
        r matches Err(e) ==> e == Error::NotEnoughBytes,
{
    if payload.len() < 32 {
        return Err(Error::NotEnoughBytes);
    }
    let mut hash: [u8; 32] = [0u8; 32];
    let mut i: usize = 0;
    while i < 32
        invariant
            i <= 32,
            payload@.len() >= 32,
            forall|j: int| 0 <= j < i ==> hash@[j] == payload@[j],
        decreases 32 - i,
    {
        hash.set(i, payload[i]);
        i = i + 1;
    }
    let mut obj: Vec<u8> = Vec::new();
    let mut k: usize = 32;
    while k < payload.len()
        invariant
            32 <= k <= payload@.len(),
            obj@ =~= payload@.subrange(32, k as int),
        decreases payload@.len() - k,
    {
        obj.push(payload[k]);
        k = k + 1;
    }
    proof {
        assert(hash@ =~= payload@.subrange(0, 32));
    }
    Ok(ObjectAndHash { hash, obj })
}

/// Reading a note back gives what it was framed from: the version 1, the hash, and the
/// payload.
pub proof fn lemma_note_round_trip(hash: Seq<u8>, payload: Seq<u8>)
    requires
        hash.len() == 32,
    ensures
        note_of(hash, payload).len() >= 2,
        note_version(note_of(hash, payload)) == NOTE_VERSION,
        note_of(hash, payload).subrange(2, note_of(hash, payload).len() as int) == hash + payload,
        (hash + payload).subrange(0, 32) == hash,
        (hash + payload).subrange(32, (hash + payload).len() as int) == payload,
{
    let n = note_of(hash, payload);
    assert(n[0] == 0u8 && n[1] == 1u8);
    assert(n.subrange(2, n.len() as int) =~= hash + payload);
    assert((hash + payload).subrange(0, 32) =~= hash);
    assert((hash + payload).subrange(32, (hash + payload).len() as int) =~= payload);
}

/// The project as its note stores it.
#[derive(Debug)]
pub struct ProjectNoteProjectPayload {
    pub name: String,
    pub description: String,
    pub asset_id: u64,
    /// The shares asset's name and supply (immutable on the chain), stored to show the project
    /// without fetching the asset.
    pub asset_name: String,
    pub asset_supply: ShareAmount,
    pub share_price: FundsAmount,
    pub funds_asset_id: FundsAssetId,
    pub investors_part: ShareAmount,
    pub logo_url: String,
    pub social_media_url: String,
    pub creator: Address,
    pub shares_asset_id: u64,
    pub central_app_id: u64,
}

impl ProjectNoteProjectPayload {
    /// The stored form of a project.
    pub fn from(p: Project) -> (r: ProjectNoteProjectPayload)
        ensures
            r == (ProjectNoteProjectPayload {
                name: p.specs.name,
                description: p.specs.description,
                asset_id: p.shares_asset_id,
                asset_name: p.specs.shares.token_name,
                asset_supply: p.specs.shares.supply,
                share_price: p.specs.share_price,
                funds_asset_id: p.funds_asset_id,
                investors_part: p.specs.investors_part,
                logo_url: p.specs.logo_url,
                social_media_url: p.specs.social_media_url,
                creator: p.creator,
                shares_asset_id: p.shares_asset_id,
                central_app_id: p.central_app_id,
            }),
    {
        let investors_part = p.specs.investors_part();
        ProjectNoteProjectPayload {
            name: p.specs.name,
            description: p.specs.description,
            social_media_url: p.specs.social_media_url,
            asset_id: p.shares_asset_id,
            asset_name: p.specs.shares.token_name,
            asset_supply: p.specs.shares.supply,
            funds_asset_id: p.funds_asset_id,
            share_price: p.specs.share_price,
            investors_part,
            logo_url: p.specs.logo_url,
            creator: p.creator,
            shares_asset_id: p.shares_asset_id,
            central_app_id: p.central_app_id,
        }
    }
}

/// Completes a stored project with its (rendered and compiled) escrows, and checks it against
/// the hash stored in the note: `project_encoding` is the encoding of the completed project,
/// whose digest must be that hash. Refused where the stored investors' part exceeds the supply,
/// or where the digest differs. The check ties the hash to the returned project only where the
/// caller passes the encoding of that project (its serde form, which this library cannot
/// produce); that is the caller's obligation.
pub fn storable_project_to_project(
    payload: &ProjectNoteProjectPayload,
    prefix_hash: &[u8; 32],
    central_escrow: ContractAccount,
    locking_escrow: ContractAccount,
    customer_escrow: ContractAccount,
    investing_escrow: ContractAccount,
    project_encoding: &Vec<u8>,
) -> (r: Result<Project, Error>)
    ensures
        r is Ok <==> (payload.investors_part.0 <= payload.asset_supply.0 && sha512_256_of(
            project_encoding@,
        ) == prefix_hash@),
        r matches Ok(p) ==> p == (Project {
            specs: CreateProjectSpecs {
                name: payload.name,
                description: payload.description,
                shares: CreateSharesSpecs { token_name: payload.asset_name, supply: payload.asset_supply },
                investors_part: payload.investors_part,
                share_price: payload.share_price,
                logo_url: payload.logo_url,
                social_media_url: payload.social_media_url,
            },
            funds_asset_id: payload.funds_asset_id,
            creator: payload.creator,
            shares_asset_id: payload.shares_asset_id,
            central_app_id: payload.central_app_id,
            invest_escrow: investing_escrow,
            locking_escrow,
            central_escrow,
            customer_escrow,
        }),
        r matches Err(e) ==> (e == Error::SharesExceedSupply && payload.investors_part.0
            > payload.asset_supply.0) || (e == Error::HashMismatch && payload.investors_part.0
            <= payload.asset_supply.0),
{
    let specs = CreateProjectSpecs::new(
        payload.name.clone(),
        payload.description.clone(),
        CreateSharesSpecs { token_name: payload.asset_name.clone(), supply: payload.asset_supply },
        payload.investors_part,
        payload.share_price,
        payload.logo_url.clone(),
        payload.social_media_url.clone(),
    )?;
    let project = Project {
        specs,
        funds_asset_id: payload.funds_asset_id,
        creator: payload.creator,
        shares_asset_id: payload.shares_asset_id,
        central_app_id: payload.central_app_id,
        invest_escrow: investing_escrow,
        locking_escrow,
        central_escrow,
        customer_escrow,
    };
    let hash = sha512_256(project_encoding);
    let mut i: usize = 0;
    while i < 32
        invariant
            i <= 32,
            hash@ == sha512_256_of(project_encoding@),
            payload.investors_part.0 <= payload.asset_supply.0,
            forall|j: int| 0 <= j < i ==> hash@[j] == prefix_hash@[j],
        decreases 32 - i,
    {
        if hash[i] != prefix_hash[i] {
            proof {
                assert(hash@[i as int] != prefix_hash@[i as int]);
            }
            return Err(Error::HashMismatch);
        }
        i = i + 1;
    }
    proof {
        assert(hash@ =~= prefix_hash@);
    }
    Ok(project)
}

/// The id of a stored project: the id of the transaction whose note stores it.
#[derive(Debug, Clone, Copy, PartialEq, Eq, Hash)]
pub struct ProjectId(pub TxId);

impl ProjectId {
    /// Reads a project id from the base32 text of its transaction id.
    pub fn from_str(s: &str) -> (r: Result<ProjectId, Error>)
        ensures
            r is Ok <==> tx_id_of_text(s.spec_bytes()) is Some,
            r matches Ok(id) ==> tx_id_of_text(s.spec_bytes()) == Some(id.0.0@),
            r matches Err(e) ==> e == Error::InvalidEncoding || e == Error::InvalidLength,
    {
        let id = TxId::from_str(s)?;
        Ok(ProjectId(id))
    }

    /// The base32 text of the id. Reading it back gives the same id.
    pub fn to_string(&self) -> (r: String)
        ensures
            encode_utf8(r@) == base32_text_of(self.0.0@),
            tx_id_of_text(encode_utf8(r@)) == Some(self.0.0@),
    {
        self.0.to_string()
    }

    /// The project id of a 32-byte digest.
    pub fn from(digest: [u8; 32]) -> (r: ProjectId)
        ensures
            r.0.0 == digest,
    {
        ProjectId(TxId::from(digest))
    }

    /// The project id of 32 bytes; refused where the slice has another length.
    pub fn try_from(slice: &[u8]) -> (r: Result<ProjectId, Error>)
        ensures
            r is Ok <==> slice@.len() == 32,
            r matches Ok(id) ==> id.0.0@ == slice@,
            r matches Err(e) ==> e == Error::InvalidLength,
    {
        let id = TxId::try_from(slice)?;
        Ok(ProjectId(id))
    }

    /// The 32 bytes of the id.
    pub fn bytes(&self) -> (r: Vec<u8>)
        ensures
            r@ == self.0.0@,
    {
        let mut v: Vec<u8> = Vec::new();
        let mut i: usize = 0;
        while i < 32
            invariant
                i <= 32,
                v@ =~= self.0.0@.subrange(0, i as int),
            decreases 32 - i,
        {
            v.push(self.0.0[i]);
            i = i + 1;
        }
        proof {
            assert(self.0.0@.subrange(0, 32) =~= self.0.0@);
        }
        v
    }
}

} // verus!
