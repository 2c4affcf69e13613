//! The data of a DAO and of its creation.
use vstd::prelude::*;
use vstd::utf8::encode_utf8;

use crate::amounts::{DaoAppId, DaoId, FundsAmount, FundsAssetId, ShareAmount, Timestamp};
use crate::chain::app_address_of;
use crate::encoding::{base64_encode, base64_text_of, sha512_256, sha512_256_of};
use crate::error::Error;
use crate::shares::SharesPercentage;
use crate::teal::copy_bytes;
use crate::text::string_bytes;
use crate::tx::Address;

verus! {

/// A hash stored in the application's global state, as text.
#[derive(Debug, Clone, PartialEq, Eq)]
pub struct GlobalStateHash(pub String);

impl GlobalStateHash {
    /// The bytes of the hash's text.
    pub fn bytes(&self) -> (r: Vec<u8>)
        ensures
            r@ == encode_utf8(self.0@),
    {
        string_bytes(&self.0)
    }
}

/// The hash of an image: the base64 text of its SHA-512/256 digest.
#[derive(Debug, Clone, PartialEq, Eq)]
pub struct ImageHash(pub String);

/// An NFT: the asset that holds an image, and where the image is.
#[derive(Debug, Clone, PartialEq, Eq)]
pub struct Nft {
    pub asset_id: u64,
    pub url: String,
}

/// The shares asset to create: its name and supply.
#[derive(Debug, Clone, PartialEq, Eq)]
pub struct CreateSharesSpecs {
    pub token_name: String,
    pub supply: ShareAmount,
}

/// An image that was already compressed (and checked against its size limit).
#[derive(Debug, Clone, PartialEq, Eq)]
pub struct CompressedImage(Vec<u8>);

impl CompressedImage {
    /// The bytes of the image.
    pub closed spec fn view_bytes(self) -> Seq<u8> {
        self.0@
    }

    pub fn new(bytes: Vec<u8>) -> (r: CompressedImage)
        ensures
            r.view_bytes() == bytes@,
    {
        CompressedImage(bytes)
    }

    /// The hash of the image: the base64 text of the SHA-512/256 digest of its bytes.
    pub fn hash(&self) -> (r: ImageHash)
        ensures
            r.0@ == base64_text_of(sha512_256_of(self.view_bytes())),
    {
        let digest = sha512_256(&self.0);
        let mut digest_bytes: Vec<u8> = Vec::new();
        let mut i: usize = 0;
        while i < 32
            invariant
                i <= 32,
                digest_bytes@ =~= digest@.subrange(0, i as int),
            decreases 32 - i,
        {
            digest_bytes.push(digest[i]);
            i = i + 1;
        }
        proof {
            assert(digest@.subrange(0, 32) =~= digest@);
        }
        ImageHash(base64_encode(&digest_bytes))
    }

    /// A copy of the bytes of the image.
    pub fn bytes(&self) -> (r: Vec<u8>)
        ensures
            r@ == self.view_bytes(),
    {
        copy_bytes(&self.0)
    }
}

/// The specification of a DAO to set up.
#[derive(Debug)]
pub struct SetupDaoSpecs {
    pub name: String,
    pub descr_hash: Option<GlobalStateHash>,
    pub shares: CreateSharesSpecs,
    pub investors_share: SharesPercentage,
    pub share_price: FundsAmount,
    pub image_hash: Option<GlobalStateHash>,
    pub social_media_url: String,
    /// The shares to be sold to investors; the rest stay with the creator. Unrelated to
    /// `investors_share`, which is the part of the income that goes to investors. `new` checks
    /// that it does not exceed the supply.
    pub shares_for_investors: ShareAmount,
    pub raise_end_date: Timestamp,
    pub raise_min_target: FundsAmount,
}

impl SetupDaoSpecs {
    /// The shares for investors.
    pub open spec fn investors_shares(self) -> u64 {
        self.shares_for_investors.0
    }

    /// The shares for investors do not exceed the supply.
    pub open spec fn wf(self) -> bool {
        self.shares_for_investors.0 <= self.shares.supply.0
    }

    /// Accepts the specification where the shares for investors do not exceed the supply.
    pub fn new(
        name: String,
        descr_hash: Option<GlobalStateHash>,
        shares: CreateSharesSpecs,
        investors_share: SharesPercentage,
        share_price: FundsAmount,
        image_hash: Option<GlobalStateHash>,
        social_media_url: String,
        shares_for_investors: ShareAmount,
        raise_min_target: FundsAmount,
        raise_end_date: Timestamp,
    ) -> (r: Result<SetupDaoSpecs, Error>)
        ensures
            r is Ok <==> shares_for_investors.0 <= shares.supply.0,
            r matches Ok(s) ==> s.wf() && s.name == name && s.descr_hash == descr_hash
                && s.shares == shares && s.investors_share == investors_share && s.share_price
                == share_price && s.image_hash == image_hash && s.social_media_url
                == social_media_url && s.investors_shares() == shares_for_investors.0
                && s.raise_min_target == raise_min_target && s.raise_end_date == raise_end_date,
            r matches Err(e) ==> e == Error::SharesExceedSupply,
    {
        if shares_for_investors.val() > shares.supply.val() {
            return Err(Error::SharesExceedSupply);
        }
        Ok(SetupDaoSpecs {
            name,
            descr_hash,
            shares,
            investors_share,
            share_price,
            image_hash,
            social_media_url,
            shares_for_investors,
            raise_end_date,
            raise_min_target,
        })
    }

    pub fn shares_for_investors(&self) -> (r: ShareAmount)
        ensures
            r.0 == self.investors_shares(),
    {
        self.shares_for_investors
    }

    /// The shares that stay with the creator: the supply minus the shares for investors.
    pub fn shares_for_creator(&self) -> (r: ShareAmount)
        requires
            self.wf(),
        ensures
            r.0 == self.shares.supply.0 - self.investors_shares(),
            r.0 <= self.shares.supply.0,
    {
        ShareAmount::new(self.shares.supply.val() - self.shares_for_investors.val())
    }
}

/// A DAO. It does not know its id as stored DAO (the id of the storage transaction); its id as
/// DAO is the id of its application.
#[derive(Debug)]
pub struct Dao {
    pub app_id: DaoAppId,
    pub owner: Address,
    pub shares_asset_id: u64,
    pub funds_asset_id: FundsAssetId,
    pub name: String,
    pub descr_hash: Option<GlobalStateHash>,
    pub token_name: String,
    pub token_supply: ShareAmount,
    pub investors_share: SharesPercentage,
    pub share_price: FundsAmount,
    pub image_hash: Option<GlobalStateHash>,
    pub image_nft: Option<Nft>,
    pub social_media_url: String,
    /// Seconds, as TEAL compares them.
    pub raise_end_date: Timestamp,
    pub raise_min_target: FundsAmount,
    pub raised: FundsAmount,
}

/// A copy of an optional hash.
fn copy_hash(h: &Option<GlobalStateHash>) -> (r: Option<GlobalStateHash>)
    ensures
        r == *h,
{
    match h {
        Some(g) => Some(GlobalStateHash(g.0.clone())),
        None => None,
    }
}

impl Dao {
    /// The id of the DAO: the id of its application, which is permanent and unique on the chain.
    pub fn id(&self) -> (r: DaoId)
        ensures
            r == DaoId(self.app_id),
    {
        DaoId(self.app_id)
    }

    /// The address of the DAO's application.
    pub fn app_address(&self) -> (r: Address)
        ensures
            r == app_address_of(self.app_id.0),
    {
        self.app_id.address()
    }

    /// A copy of the DAO.
    pub fn copy(&self) -> (r: Dao)
        ensures
            r == *self,
    {
        Dao {
            app_id: self.app_id,
            owner: self.owner,
            shares_asset_id: self.shares_asset_id,
            funds_asset_id: self.funds_asset_id,
            name: self.name.clone(),
            descr_hash: copy_hash(&self.descr_hash),
            token_name: self.token_name.clone(),
            token_supply: self.token_supply,
            investors_share: self.investors_share,
            share_price: self.share_price,
            image_hash: copy_hash(&self.image_hash),
            image_nft: match &self.image_nft {
                Some(n) => Some(Nft { asset_id: n.asset_id, url: n.url.clone() }),
                None => None,
            },
            social_media_url: self.social_media_url.clone(),
            raise_end_date: self.raise_end_date,
            raise_min_target: self.raise_min_target,
            raised: self.raised,
        }
    }
}

/// The id of the transaction that opted an escrow in.
#[derive(Debug, Clone, PartialEq, Eq)]
pub struct SubmitSetupEscrowRes {
    pub shares_optin_escrow_algos_tx_id: String,
}

/// The id of the transaction that opted the locking escrow in.
#[derive(Debug, Clone, PartialEq, Eq)]
pub struct SubmitSetupLockingEscrowRes {
    pub shares_optin_escrow_algos_tx_id: String,
}

/// The ids of the created shares asset and application.
#[derive(Debug, Clone, Copy, PartialEq, Eq)]
pub struct CreateAssetsResult {
    pub shares_asset_id: u64,
    pub app_id: DaoAppId,
}

} // verus!
