use crate::address::Address;
use vstd::prelude::*;

verus! {

/// The root configuration: who administers the marketplace, its fee in basis points, its name.
#[derive(Clone, Debug)]
pub struct Marketplace {
    pub admin: Address,
    pub fee: u16,
    pub name: String,
}

/// An asset offered for sale at a fixed price.
#[derive(Clone, Copy, Debug, PartialEq, Eq)]
pub struct Listing {
    pub lister: Address,
    pub nft: Address,
    pub collection: Address,
    pub price: u64,
}

/// A bidder's standing offer.
#[derive(Clone, Copy, Debug, PartialEq, Eq)]
pub struct BidState {
    pub bidder: Address,
    pub price: u64,
}

/// The token standard that an asset's metadata declares.
#[derive(Clone, Copy, Debug, PartialEq, Eq, Structural)]
pub enum TokenStandard {
    NonFungible,
    FungibleAsset,
    Fungible,
    NonFungibleEdition,
    ProgrammableNonFungible,
    ProgrammableNonFungibleEdition,
}

/// The collection that an asset's metadata names, and whether its membership is verified.
#[derive(Clone, Copy, Debug, PartialEq, Eq)]
pub struct Collection {
    pub verified: bool,
    pub key: Address,
}

/// A creator owed a share, in percent, of an asset's royalties.
#[derive(Clone, Copy, Debug, PartialEq, Eq)]
pub struct Creator {
    pub address: Address,
    pub verified: bool,
    pub share: u8,
}

/// The read-only fields of an asset's metadata that trading depends on.
#[derive(Clone, Debug)]
pub struct AssetMetadata {
    pub token_standard: Option<TokenStandard>,
    pub collection: Option<Collection>,
    pub seller_fee_basis_points: u16,
    pub creators: Option<Vec<Creator>>,
}

/// An instruction submitted in the same transaction as a request.
#[derive(Clone, Debug)]
pub struct Instruction {
    pub program_id: Address,
    pub accounts: Vec<Address>,
    pub data: Vec<u8>,
}

/// One custody or payment step that a successful request commits.
#[derive(Clone, Copy, Debug, PartialEq, Eq)]
pub enum Effect {
    /// Native value moves from a payer to a receiver.
    Transfer { from: Address, to: Address, amount: u64 },
    /// A vault pays `amount`, signed for by its capability address.
    Release { vault: Address, to: Address, amount: u64 },
    /// A record is closed and what it held goes to `to`.
    Close { account: Address, to: Address },
    /// One unit of the asset held by `owner` is delegated to `delegate`.
    Delegate { nft: Address, owner: Address, delegate: Address },
    /// The holding is locked by its delegate `authority`.
    Lock { nft: Address, owner: Address, authority: Address },
    /// The holding is unlocked by its delegate `authority`.
    Unlock { nft: Address, owner: Address, authority: Address },
    /// The delegation to `delegate` is removed.
    Revoke { nft: Address, owner: Address, delegate: Address },
    /// One unit of the asset moves from `from` to `to`, signed by the delegate `authority`.
    TransferAsset { nft: Address, from: Address, to: Address, authority: Address },
}

impl Effect {
    /// Whether this step moves the asset or loosens its custody.
    pub open spec fn releases_asset(self) -> bool {
        match self {
            Effect::Unlock { .. } | Effect::Revoke { .. } | Effect::TransferAsset { .. } => true,
            _ => false,
        }
    }
}

} // verus!
