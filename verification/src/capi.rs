use vstd::prelude::*;

use crate::chain::{app_address, app_address_of};
use crate::shares::SharesPercentage;
use crate::tx::Address;

verus! {

/// The address of the platform's (capi's) escrow, which receives the platform fee.
#[derive(Debug, Clone, Copy, PartialEq, Eq)]
pub struct CapiAddress(pub Address);

/// The id of the platform's application.
#[derive(Debug, Clone, Copy, PartialEq, Eq, Structural)]
pub struct CapiAppId(pub u64);

impl CapiAppId {
    /// The address of the platform's application.
    pub fn address(&self) -> (r: Address)
        ensures
            r == app_address_of(self.0),
    {
        app_address(self.0)
    }
}

/// The id of the platform's asset.
#[derive(Debug, Clone, Copy, PartialEq, Eq, Structural)]
pub struct CapiAssetId(pub u64);

/// What the DAO flows need to know of the platform: the part of each drained amount that goes
/// to the platform, its application and asset, and where its fee goes.
#[derive(Debug, Clone, Copy)]
pub struct CapiAssetDaoDeps {
    pub escrow_percentage: SharesPercentage,
    pub app_id: CapiAppId,
    pub asset_id: CapiAssetId,
    pub address: CapiAddress,
}

} // verus!
