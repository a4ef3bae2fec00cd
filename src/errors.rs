use vstd::prelude::*;

verus! {

/// Rejections of a request's inputs.
#[derive(Clone, Copy, Debug, PartialEq, Eq, Structural)]
pub enum MarketplaceError {
    /// The asset is not a plain non-fungible token.
    InvalidTokenStandard,
    /// The asset is not a verified member of the given collection.
    InvalidCollection,
    /// A bid change of zero, or to the price already bid.
    InvalidAmount,
}

/// Mismatches between an expected royalty payment and the instruction submitted for it.
#[derive(Clone, Copy, Debug, PartialEq, Eq, Structural)]
pub enum InstrospectionError {
    /// The instruction is not addressed to the native value-transfer program.
    InvalidTokenProgram,
    /// The instruction is missing, or is not a transfer.
    InvalidIx,
    /// The instruction moves another amount than the creator's royalty.
    InvalidAmount,
    /// The instruction pays another account than the creator.
    InvalidCreator,
}

/// Every way a request can fail. A failed request changes nothing.
#[derive(Clone, Copy, Debug, PartialEq, Eq, Structural)]
pub enum MarketError {
    Marketplace(MarketplaceError),
    Introspection(InstrospectionError),
    /// No capability address exists for the seeds of a record or vault.
    AddressDerivation,
    /// The caller is not the identity that the record names.
    Unauthorized,
    /// The marketplace already has a live listing.
    ListingExists,
    /// The marketplace has no live listing.
    NoListing,
    /// The bidder already has a live bid.
    BidExists,
    /// The bidder has no live bid.
    NoBid,
    /// A fee or royalty product does not fit in 64 bits.
    Overflow,
}

} // verus!
