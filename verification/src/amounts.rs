use vstd::prelude::*;

use crate::chain::{app_address, app_address_of};
use crate::tx::Address;

verus! {

/// An amount of shares (units of the DAO's share asset), ordered by the amount.
#[derive(Debug, Clone, Copy, PartialEq, Eq, Structural, PartialOrd, Ord)]
pub struct ShareAmount(pub u64);

impl ShareAmount {
    pub fn new(value: u64) -> (r: ShareAmount)
        ensures
            r.0 == value,
    {
        ShareAmount(value)
    }

    pub fn val(&self) -> (r: u64)
        ensures
            r == self.0,
    {
        self.0
    }
}

/// An amount of the funds asset (the stable coin in which the DAO is paid).
#[derive(Debug, Clone, Copy, PartialEq, Eq, Structural)]
pub struct FundsAmount(pub u64);

impl FundsAmount {
    pub fn new(value: u64) -> (r: FundsAmount)
        ensures
            r.0 == value,
    {
        FundsAmount(value)
    }

    pub fn val(&self) -> (r: u64)
        ensures
            r == self.0,
    {
        self.0
    }
}

/// The id of the funds asset.
#[derive(Debug, Clone, Copy, PartialEq, Eq, Structural)]
pub struct FundsAssetId(pub u64);

/// An amount of the chain's native currency, in micro units.
#[derive(Debug, Clone, Copy, PartialEq, Eq, Structural)]
pub struct MicroAlgos(pub u64);

/// The id of a DAO's application.
#[derive(Debug, Clone, Copy, PartialEq, Eq, Structural)]
pub struct DaoAppId(pub u64);

impl DaoAppId {
    /// The address of the DAO's application, which holds its funds.
    pub fn address(&self) -> (r: Address)
        ensures
            r == app_address_of(self.0),
    {
        app_address(self.0)
    }
}

/// The id of a DAO: the id of its application, which is permanent and unique on the chain.
#[derive(Debug, Clone, Copy, PartialEq, Eq, Structural)]
pub struct DaoId(pub DaoAppId);

/// A point in time, in seconds since the Unix epoch.
#[derive(Debug, Clone, Copy, PartialEq, Eq, Structural)]
pub struct Timestamp(pub i64);

/// The version of a TEAL template or program.
#[derive(Debug, Clone, Copy, PartialEq, Eq, Structural)]
pub struct Version(pub u32);

/// The versions of the two programs of a DAO's application.
#[derive(Debug, Clone, Copy, PartialEq, Eq, Structural)]
pub struct Versions {
    pub app_approval: Version,
    pub app_clear: Version,
}

} // verus!
