use capi_core::amounts::{FundsAmount, FundsAssetId, ShareAmount};
use capi_core::error::Error;
use capi_core::flows::create_dao::model::CompressedImage;
use capi_core::flows::create_project::note::{
    extract_hash_and_object_from_note_payload, note_to_project_payload, project_to_note,
    storable_project_to_project, ProjectId, ProjectNoteProjectPayload,
};
use capi_core::flows::create_project::storage::base64_note_to_project_payload;
use capi_core::ids::TxId;
use capi_core::teal::{CompiledTeal, ContractAccount};
use capi_core::tx::Address;
use sha2::Digest;

#[test]
fn note_is_version_hash_and_payload() {
    let hash = [9u8; 32];
    let note = project_to_note(&hash, &vec![1, 2, 3]).unwrap();
    assert_eq!(2 + 32 + 3, note.len());
    assert_eq!(vec![0, 1], note[0..2].to_vec());
    let payload = note_to_project_payload(&note).unwrap();
    assert_eq!(1, payload.version);
    let split = extract_hash_and_object_from_note_payload(&payload.variable).unwrap();
    assert_eq!(hash, split.hash);
    assert_eq!(vec![1, 2, 3], split.obj);
}

#[test]
fn short_notes_are_refused() {
    assert_eq!(Some(Error::NotEnoughBytes), note_to_project_payload(&[1]).err());
    assert_eq!(Some(Error::NotEnoughBytes), extract_hash_and_object_from_note_payload(&[0u8; 31]).err());
    assert!(extract_hash_and_object_from_note_payload(&[0u8; 32]).unwrap().obj.is_empty());
}

#[test]
fn base64_note_is_decoded_and_checked() {
    let note = project_to_note(&[5u8; 32], &vec![7, 8]).unwrap();
    let text = data_encoding::BASE64.encode(&note);
    let o = base64_note_to_project_payload(&text).unwrap();
    assert_eq!([5u8; 32], o.hash);
    assert_eq!(vec![7, 8], o.obj);
    let mut v2 = note.clone();
    v2[1] = 2;
    assert_eq!(Some(Error::UnsupportedVersion), base64_note_to_project_payload(&data_encoding::BASE64.encode(&v2)).err());
    assert_eq!(Some(Error::InvalidEncoding), base64_note_to_project_payload("*not base64*").err());
}

#[test]
fn tx_id_text_reads_back() {
    let id = TxId([7; 32]);
    let t = id.to_string();
    assert_eq!(data_encoding::BASE32_NOPAD.encode(&[7; 32]), t);
    assert_eq!(Ok(id), TxId::from_str(&t));
    assert_eq!(Some(Error::InvalidEncoding), TxId::from_str("1").err());
    let short = data_encoding::BASE32_NOPAD.encode(&[7; 31]);
    assert_eq!(Some(Error::InvalidLength), TxId::from_str(&short).err());
}

#[test]
fn project_ids() {
    let id = ProjectId::from([3; 32]);
    assert_eq!(vec![3u8; 32], id.bytes());
    assert_eq!(Ok(id), ProjectId::from_str(&id.to_string()));
    assert_eq!(Some(Error::InvalidLength), ProjectId::try_from(&[1u8; 5]).err());
    assert_eq!(Ok(id), ProjectId::try_from(&[3u8; 32]));
}

#[test]
fn image_hash_is_base64_of_sha512_256() {
    let image = CompressedImage::new(vec![1, 2, 3, 4]);
    let expected = data_encoding::BASE64.encode(&sha2::Sha512_256::digest([1u8, 2, 3, 4]));
    assert_eq!(expected, image.hash().0);
    assert_eq!(vec![1, 2, 3, 4], image.bytes());
}

fn payload(investors: u64) -> ProjectNoteProjectPayload {
    ProjectNoteProjectPayload {
        name: "p".to_string(),
        description: "d".to_string(),
        asset_id: 44,
        asset_name: "TKN".to_string(),
        asset_supply: ShareAmount(100),
        share_price: FundsAmount(5),
        funds_asset_id: FundsAssetId(7),
        investors_part: ShareAmount(investors),
        logo_url: String::new(),
        social_media_url: String::new(),
        creator: Address([1; 32]),
        shares_asset_id: 44,
        central_app_id: 3,
    }
}

fn account(b: u8) -> ContractAccount {
    ContractAccount::new(CompiledTeal(vec![b]))
}

#[test]
fn stored_project_is_checked_against_its_hash() {
    let encoding = vec![1u8, 2, 3];
    let hash: [u8; 32] = sha2::Sha512_256::digest(&encoding).into();
    let p = storable_project_to_project(&payload(40), &hash, account(1), account(2), account(3), account(4), &encoding).unwrap();
    assert_eq!(ShareAmount(60), p.specs.creator_part());
    assert_eq!(3, p.central_app_id);
    let wrong = storable_project_to_project(&payload(40), &[0u8; 32], account(1), account(2), account(3), account(4), &encoding);
    assert_eq!(Some(Error::HashMismatch), wrong.err().map(|e| e));
    let too_many = storable_project_to_project(&payload(101), &hash, account(1), account(2), account(3), account(4), &encoding);
    assert_eq!(Some(Error::SharesExceedSupply), too_many.err());
}

#[test]
fn payload_of_a_project_keeps_its_data() {
    let encoding = vec![1u8];
    let hash: [u8; 32] = sha2::Sha512_256::digest(&encoding).into();
    let p = storable_project_to_project(&payload(40), &hash, account(1), account(2), account(3), account(4), &encoding).unwrap();
    let back = ProjectNoteProjectPayload::from(p);
    assert_eq!(ShareAmount(40), back.investors_part);
    assert_eq!(ShareAmount(100), back.asset_supply);
    assert_eq!("TKN", back.asset_name);
    assert_eq!(44, back.asset_id);
}
