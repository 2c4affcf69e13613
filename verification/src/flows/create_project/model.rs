//! The data of a project and of its creation.
use vstd::prelude::*;

use crate::amounts::{FundsAmount, FundsAssetId, ShareAmount};
use crate::error::Error;
use crate::flows::create_dao::model::CreateSharesSpecs;
use crate::teal::{ContractAccount, SignedTxn, TealSource, TealSourceTemplate};
use crate::tx::{Address, Txn};

verus! {

/// The specification of a project to create.
#[derive(Debug)]
pub struct CreateProjectSpecs {
    pub name: String,
    pub description: String,
    pub shares: CreateSharesSpecs,
    /// The shares for investors; `new` checks that they do not exceed the supply.
    pub investors_part: ShareAmount,
    pub share_price: FundsAmount,
    pub logo_url: String,
    pub social_media_url: String,
}

impl CreateProjectSpecs {
    /// The shares for investors do not exceed the supply.
    pub open spec fn wf(self) -> bool {
        self.investors_part.0 <= self.shares.supply.0
    }

    /// Accepts the specification where the investors' shares do not exceed the supply.
    pub fn new(
        name: String,
        description: String,
        shares: CreateSharesSpecs,
        investors_part: ShareAmount,
        share_price: FundsAmount,
        logo_url: String,
        social_media_url: String,
    ) -> (r: Result<CreateProjectSpecs, Error>)
        ensures
            r is Ok <==> investors_part.0 <= shares.supply.0,
            r matches Ok(s) ==> s.wf() && s == (CreateProjectSpecs {
                name,
                description,
                shares,
                investors_part,
                share_price,
                logo_url,
                social_media_url,
            }),
            r matches Err(e) ==> e == Error::SharesExceedSupply,
    {
        if investors_part.val() > shares.supply.val() {
            return Err(Error::SharesExceedSupply);
        }
        Ok(CreateProjectSpecs {
            name,
            description,
            shares,
            investors_part,
            share_price,
            logo_url,
            social_media_url,
        })
    }

    /// The creator's shares: the supply minus the investors' shares.
    pub fn creator_part(&self) -> (r: ShareAmount)
        requires
            self.wf(),
        ensures
            r.0 == self.shares.supply.0 - self.investors_part.0,
    {
        ShareAmount::new(self.shares.supply.val() - self.investors_part.val())
    }

    pub fn investors_part(&self) -> (r: ShareAmount)
        ensures
            r == self.investors_part,
    {
        self.investors_part
    }

    /// A copy of the specification.
    pub fn copy(&self) -> (r: CreateProjectSpecs)
        ensures
            r == *self,
    {
        CreateProjectSpecs {
            name: self.name.clone(),
            description: self.description.clone(),
            shares: CreateSharesSpecs { token_name: self.shares.token_name.clone(), supply: self.shares.supply },
            investors_part: self.investors_part,
            share_price: self.share_price,
            logo_url: self.logo_url.clone(),
            social_media_url: self.social_media_url.clone(),
        }
    }
}

/// A project: its specification, its assets, its application and its escrows.
#[derive(Debug)]
pub struct Project {
    pub specs: CreateProjectSpecs,
    pub funds_asset_id: FundsAssetId,
    pub creator: Address,
    pub shares_asset_id: u64,
    pub central_app_id: u64,
    pub invest_escrow: ContractAccount,
    pub locking_escrow: ContractAccount,
    pub central_escrow: ContractAccount,
    pub customer_escrow: ContractAccount,
}

impl Project {
    /// A copy of the project.
    pub fn copy(&self) -> (r: Project)
        ensures
            r.specs == self.specs,
            r.funds_asset_id == self.funds_asset_id,
            r.creator == self.creator,
            r.shares_asset_id == self.shares_asset_id,
            r.central_app_id == self.central_app_id,
            r.invest_escrow.program_bytes() == self.invest_escrow.program_bytes(),
            r.locking_escrow.program_bytes() == self.locking_escrow.program_bytes(),
            r.central_escrow.program_bytes() == self.central_escrow.program_bytes(),
            r.customer_escrow.program_bytes() == self.customer_escrow.program_bytes(),
    {
        Project {
            specs: self.specs.copy(),
            funds_asset_id: self.funds_asset_id,
            creator: self.creator,
            shares_asset_id: self.shares_asset_id,
            central_app_id: self.central_app_id,
            invest_escrow: self.invest_escrow.copy(),
            locking_escrow: self.locking_escrow.copy(),
            central_escrow: self.central_escrow.copy(),
            customer_escrow: self.customer_escrow.copy(),
        }
    }
}

/// The templates of the project's escrows.
#[derive(Debug)]
pub struct Escrows {
    pub central_escrow: TealSourceTemplate,
    pub customer_escrow: TealSourceTemplate,
    pub invest_escrow: TealSourceTemplate,
    pub locking_escrow: TealSourceTemplate,
}

/// The programs of a project.
#[derive(Debug)]
pub struct Programs {
    pub central_app_approval: TealSourceTemplate,
    pub central_app_clear: TealSource,
    pub escrows: Escrows,
}

/// The programs of the platform's token.
#[derive(Debug)]
pub struct CapiPrograms {
    pub app_approval: TealSourceTemplate,
    pub app_clear: TealSource,
    pub escrow: TealSourceTemplate,
}

/// The transactions of a project's creation.
#[derive(Debug)]
pub struct CreateProjectToSign {
    pub specs: CreateProjectSpecs,
    pub creator: Address,
    pub setup_app_tx: Txn,
    pub locking_escrow: ContractAccount,
    pub invest_escrow: ContractAccount,
    pub central_escrow: ContractAccount,
    pub customer_escrow: ContractAccount,
    /// The creator's fundings of the central, customer, locking and investing escrows.
    pub escrow_funding_txs: Vec<Txn>,
    /// The escrows' opt-ins, signed by the escrows.
    pub optin_txs: Vec<SignedTxn>,
    /// The transfer of the shares to the investing escrow, which needs its opt-in first.
    pub xfer_shares_to_invest_escrow: Txn,
}

/// The project that a submitted creation created.
#[derive(Debug)]
pub struct SubmitCreateProjectResult {
    pub project: Project,
}

/// The ids of the transactions that opted an escrow in to the shares and to the votes.
#[derive(Debug, Clone, PartialEq, Eq)]
pub struct SubmitSetupEscrowRes {
    pub shares_optin_escrow_algos_tx_id: String,
    pub votes_optin_escrow_algos_tx_id: String,
}

/// The creation of the shares asset.
#[derive(Debug)]
pub struct CreateSharesToSign {
    pub create_shares_tx: Txn,
}

/// The ids of the created shares asset and application.
#[derive(Debug, Clone, Copy, PartialEq, Eq)]
pub struct CreateAssetsResult {
    pub shares_asset_id: u64,
    pub app_id: u64,
}

/// The id of the transaction that opted the staking escrow in.
#[derive(Debug, Clone, PartialEq, Eq)]
pub struct SubmitSetupStakingEscrowRes {
    pub shares_optin_escrow_algos_tx_id: String,
}

/// The ids of the transactions that funded the vote-in escrow and opted it in.
#[derive(Debug, Clone, PartialEq, Eq)]
pub struct SubmitVoteInSetupEscrowRes {
    pub fund_escrow_algos_tx_id: String,
    pub votes_optin_escrow_algos_tx_id: String,
}

/// The ids of the transactions that funded the vote-out escrow and opted it in.
#[derive(Debug, Clone, PartialEq, Eq)]
pub struct SubmitVoteOutSetupEscrowRes {
    pub fund_escrow_algos_tx_id: String,
    pub votes_optin_escrow_algos_tx_id: String,
}

} // verus!
