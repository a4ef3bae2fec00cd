use crate::address::{derive_address, derived, find_derived, tagged_seeds, Address};
use crate::errors::{MarketError, MarketplaceError};
use crate::royalty::{basis_points, basis_points_of, royalty_outcome, verify_royalties};
use crate::state::{AssetMetadata, BidState, Collection, Effect, Instruction, Listing, Marketplace, TokenStandard};
use vstd::prelude::*;
use vstd::slice::slice_to_vec;
use vstd::utf8::encode_utf8;

verus! {

/// A live bid: the bidder's offer, the address of its record, the vault that holds its escrow,
/// and the vault's balance.
#[derive(Clone, Copy, Debug, PartialEq, Eq)]
pub struct BidEntry {
    pub state: BidState,
    pub address: Address,
    pub vault: Address,
    pub escrow: u64,
}

/// One marketplace with everything it owns: at most one live listing, the live bids on it, and
/// the capability addresses that hold custody.
#[derive(Clone, Debug)]
pub struct Market {
    /// The id of the program that derives and signs for the capability addresses.
    pub program: Address,
    pub marketplace: Marketplace,
    /// The marketplace record's address, derived from its name and admin.
    pub address: Address,
    pub fee_vault: Address,
    /// The one address a listing of this marketplace can have; it is also the authority that
    /// holds the listed asset in custody.
    pub listing_address: Address,
    pub listing: Option<Listing>,
    pub bids: Vec<BidEntry>,
}

/// The seeds of a marketplace record.
pub open spec fn marketplace_seeds(name: Seq<char>, admin: Address) -> Seq<Seq<u8>> {
    seq![encode_utf8("marketplace"@), encode_utf8(name), admin.bytes@]
}

/// The addresses of a marketplace record, its fee vault and its listing, when all three exist.
pub open spec fn market_addresses(program: Address, admin: Address, name: Seq<char>) -> Option<(Address, Address, Address)> {
    match derived(marketplace_seeds(name, admin), program) {
        None => None,
        Some(m) => match (
            derived(tagged_seeds("fee_vault"@, seq![m.0]), program),
            derived(tagged_seeds("listing"@, seq![m.0]), program),
        ) {
            (Some(f), Some(l)) => Some((m.0, f.0, l.0)),
            _ => None,
        },
    }
}

/// The addresses of a bid record and of its vault, when both exist.
pub open spec fn bid_addresses(program: Address, listing: Address, bidder: Address) -> Option<(Address, Address)> {
    match derived(tagged_seeds("bid"@, seq![listing, bidder]), program) {
        None => None,
        Some(b) => match derived(tagged_seeds("listing_vault"@, seq![b.0]), program) {
            None => None,
            Some(v) => Some((b.0, v.0)),
        },
    }
}

/// Where the bid of `bidder` sits in `bids`, or -1 when there is none.
pub open spec fn bid_position(bids: Seq<BidEntry>, bidder: Address) -> int {
    if exists|i: int| 0 <= i < bids.len() && bids[i].state.bidder == bidder {
        choose|i: int| 0 <= i < bids.len() && bids[i].state.bidder == bidder
    } else {
        -1
    }
}

/// Every bid's vault holds exactly its price, and no two bids share a bidder.
pub open spec fn bids_wf(bids: Seq<BidEntry>) -> bool {
    &&& forall|i: int| 0 <= i < bids.len() ==> #[trigger] bids[i].escrow == bids[i].state.price
    &&& forall|i: int, j: int|
        0 <= i < bids.len() && 0 <= j < bids.len() && i != j ==> #[trigger] bids[i].state.bidder != #[trigger] bids[j].state.bidder
}

/// Each bid's record and vault sit at the addresses derived from the listing and the bidder.
pub open spec fn bids_derived(program: Address, listing: Address, bids: Seq<BidEntry>) -> bool {
    forall|i: int| 0 <= i < bids.len()
        ==> bid_addresses(program, listing, #[trigger] bids[i].state.bidder) == Some((bids[i].address, bids[i].vault))
}

/// Taking a bid out keeps the others well formed.
proof fn lemma_remove_wf(program: Address, listing: Address, bids: Seq<BidEntry>, k: int)
    requires
        bids_wf(bids),
        bids_derived(program, listing, bids),
        0 <= k < bids.len(),
    ensures
        bids_wf(bids.remove(k)),
        bids_derived(program, listing, bids.remove(k)),
{
    let r = bids.remove(k);
    assert forall|i: int| 0 <= i < r.len() implies bid_addresses(program, listing, #[trigger] r[i].state.bidder)
        == Some((r[i].address, r[i].vault)) by {
        let a = if i < k { i } else { i + 1 };
        assert(r[i] == bids[a]);
    }
    assert forall|i: int| 0 <= i < r.len() implies r[i] == bids[if i < k { i } else { i + 1 }] by {}
    assert forall|i: int, j: int| 0 <= i < r.len() && 0 <= j < r.len() && i != j implies #[trigger] r[i].state.bidder != #[trigger] r[j].state.bidder by {
        let a = if i < k { i } else { i + 1 };
        let b = if j < k { j } else { j + 1 };
        assert(r[i] == bids[a] && r[j] == bids[b]);
    }
    assert forall|i: int| 0 <= i < r.len() implies #[trigger] r[i].escrow == r[i].state.price by {
        let a = if i < k { i } else { i + 1 };
        assert(r[i] == bids[a]);
    }
}

/// Whether none of `effects` moves the asset or loosens its custody.
pub open spec fn keeps_custody(effects: Seq<Effect>) -> bool {
    forall|i: int| 0 <= i < effects.len() ==> !(#[trigger] effects[i]).releases_asset()
}

/// Derives the address of a marketplace record from its name and admin.
pub fn derive_marketplace_address(program: &Address, name: &String, admin: &Address) -> (r: Option<(Address, u8)>)
    ensures
        r == derived(marketplace_seeds(name@, *admin), *program),
{
    let mut seeds: Vec<Vec<u8>> = Vec::new();
    seeds.push(slice_to_vec("marketplace".as_bytes()));
    seeds.push(slice_to_vec(name.as_str().as_bytes()));
    seeds.push(slice_to_vec(&admin.bytes));
    assert forall|k: int| 0 <= k < seeds@.len() implies #[trigger] seeds@[k].deep_view() == seeds@[k]@ by {
        assert(seeds@[k].deep_view() =~= seeds@[k]@);
    }
    assert(seeds.deep_view() =~= marketplace_seeds(name@, *admin));
    find_derived(&seeds, program)
}

/// Derives the address of the record under `parent` named by `tag`.
fn derive_child(program: &Address, tag: &str, parent: &Address) -> (r: Option<Address>)
    ensures
        r == (match derived(tagged_seeds(tag@, seq![*parent]), *program) {
            Some(p) => Some(p.0),
            None => None,
        }),
{
    let mut parents: Vec<Address> = Vec::new();
    parents.push(*parent);
    assert(parents@ =~= seq![*parent]);
    match derive_address(program, tag, &parents) {
        Some(p) => Some(p.0),
        None => None,
    }
}

/// Creates a marketplace administered by `admin` that charges `fee` basis points on each sale.
pub fn initalize_marketplace(program: Address, admin: Address, name: String, fee: u16) -> (r: Result<Market, MarketError>)
    ensures
        match r {
            Ok(m) => {
                &&& m.wf()
                &&& market_addresses(program, admin, name@) == Some((m.address, m.fee_vault, m.listing_address))
                &&& m.program == program
                &&& m.marketplace.admin == admin
                &&& m.marketplace.fee == fee
                &&& m.marketplace.name@ == name@
                &&& m.listing is None
                &&& m.bids@.len() == 0
            },
            Err(e) => e == MarketError::AddressDerivation && market_addresses(program, admin, name@) is None,
        },
{
    let address = match derive_marketplace_address(&program, &name, &admin) {
        Some(p) => p.0,
        None => return Err(MarketError::AddressDerivation),
    };
    let fee_vault = match derive_child(&program, "fee_vault", &address) {
        Some(a) => a,
        None => return Err(MarketError::AddressDerivation),
    };
    let listing_address = match derive_child(&program, "listing", &address) {
        Some(a) => a,
        None => return Err(MarketError::AddressDerivation),
    };
    Ok(Market {
        program,
        marketplace: Marketplace { admin, fee, name },
        address,
        fee_vault,
        listing_address,
        listing: None,
        bids: Vec::new(),
    })
}

impl Market {
    /// Every bid's vault holds exactly its price, each bidder has at most one bid, and every
    /// record and vault sits at the address derived from its owner.
    pub open spec fn wf(&self) -> bool {
        &&& bids_wf(self.bids@)
        &&& bids_derived(self.program, self.listing_address, self.bids@)
        &&& market_addresses(self.program, self.marketplace.admin, self.marketplace.name@)
            == Some((self.address, self.fee_vault, self.listing_address))
    }

    /// The parts that no request changes.
    pub open spec fn same_frame(&self, other: &Market) -> bool {
        &&& self.program == other.program
        &&& self.marketplace == other.marketplace
        &&& self.address == other.address
        &&& self.fee_vault == other.fee_vault
        &&& self.listing_address == other.listing_address
    }

    /// The position of the bid of `bidder`, if there is one.
    pub fn find_bid(&self, bidder: &Address) -> (r: Option<usize>)
        requires
            self.wf(),
        ensures
            match r {
                Some(i) => i as int == bid_position(self.bids@, *bidder) && i < self.bids@.len(),
                None => bid_position(self.bids@, *bidder) == -1,
            },
    {
        let mut i: usize = 0;
        while i < self.bids.len()
            invariant
                self.wf(),
                i <= self.bids@.len(),
                forall|j: int| 0 <= j < i ==> self.bids@[j].state.bidder != *bidder,
            decreases self.bids@.len() - i,
        {
            if self.bids[i].state.bidder.same(bidder) {
                proof {
                    assert(self.bids@[i as int].state.bidder == *bidder);
                    let p = bid_position(self.bids@, *bidder);
                    assert(0 <= p < self.bids@.len() && self.bids@[p].state.bidder == *bidder);
                    assert(self.bids@[p].state.bidder == self.bids@[i as int].state.bidder);
                }
                return Some(i);
            }
            i = i + 1;
        }
        None
    }

    /// Lists `nft` of `collection` at `price`: checks the asset's metadata, records the listing,
    /// and delegates then locks the asset under the listing's capability address.
    pub fn list(&mut self, lister: Address, nft: Address, collection: Address, price: u64, metadata: &AssetMetadata) -> (r: Result<Vec<Effect>, MarketError>)
        requires
            old(self).wf(),
        ensures
            final(self).wf(),
            match r {
                Ok(effects) => {
                    &&& old(self).listing is None
                    &&& metadata.token_standard == Some(TokenStandard::NonFungible)
                    &&& metadata.collection is Some
                    &&& metadata.collection->Some_0.verified
                    &&& metadata.collection->Some_0.key == collection
                    &&& final(self).listing == Some(Listing { lister, nft, collection, price })
                    &&& final(self).bids@ == old(self).bids@
                    &&& final(self).same_frame(old(self))
                    &&& effects@ == seq![
                        Effect::Delegate { nft, owner: lister, delegate: old(self).listing_address },
                        Effect::Lock { nft, owner: lister, authority: old(self).listing_address },
                    ]
                    &&& keeps_custody(effects@)
                },
                Err(e) => {
                    &&& *final(self) == *old(self)
                    &&& e == if old(self).listing is Some {
                        MarketError::ListingExists
                    } else if metadata.token_standard != Some(TokenStandard::NonFungible) {
                        MarketError::Marketplace(MarketplaceError::InvalidTokenStandard)
                    } else {
                        MarketError::Marketplace(MarketplaceError::InvalidCollection)
                    }
                },
            },
            r is Ok <==> (old(self).listing is None && metadata.token_standard == Some(TokenStandard::NonFungible)
                && metadata.collection == Some(Collection { verified: true, key: collection })),
    {
        if self.listing.is_some() {
            return Err(MarketError::ListingExists);
        }
        match metadata.token_standard {
            Some(TokenStandard::NonFungible) => {},
            _ => return Err(MarketError::Marketplace(MarketplaceError::InvalidTokenStandard)),
        }
        match metadata.collection {
            Some(c) => {
                if !c.verified || !c.key.same(&collection) {
                    return Err(MarketError::Marketplace(MarketplaceError::InvalidCollection));
                }
            },
            None => return Err(MarketError::Marketplace(MarketplaceError::InvalidCollection)),
        }
        self.listing = Some(Listing { lister, nft, collection, price });
        let mut effects: Vec<Effect> = Vec::new();
        effects.push(Effect::Delegate { nft, owner: lister, delegate: self.listing_address });
        effects.push(Effect::Lock { nft, owner: lister, authority: self.listing_address });
        Ok(effects)
    }

    /// Withdraws the listing: the lister unlocks the asset, revokes the listing's delegation and
    /// closes the listing record.
    pub fn delist(&mut self, lister: Address) -> (r: Result<Vec<Effect>, MarketError>)
        requires
            old(self).wf(),
        ensures
            final(self).wf(),
            match r {
                Ok(effects) => {
                    let l = old(self).listing->Some_0;
                    let la = old(self).listing_address;
                    &&& old(self).listing is Some
                    &&& l.lister == lister
                    &&& final(self).listing is None
                    &&& final(self).bids@ == old(self).bids@
                    &&& final(self).same_frame(old(self))
                    &&& effects@ == seq![
                        Effect::Unlock { nft: l.nft, owner: lister, authority: la },
                        Effect::Revoke { nft: l.nft, owner: lister, delegate: la },
                        Effect::Close { account: la, to: lister },
                    ]
                },
                Err(e) => {
                    &&& *final(self) == *old(self)
                    &&& e == if old(self).listing is None {
                        MarketError::NoListing
                    } else {
                        MarketError::Unauthorized
                    }
                },
            },
            r is Ok <==> (old(self).listing is Some && old(self).listing->Some_0.lister == lister),
    {
        let l = match self.listing {
            Some(l) => l,
            None => return Err(MarketError::NoListing),
        };
        if !l.lister.same(&lister) {
            return Err(MarketError::Unauthorized);
        }
        self.listing = None;
        let mut effects: Vec<Effect> = Vec::new();
        effects.push(Effect::Unlock { nft: l.nft, owner: lister, authority: self.listing_address });
        effects.push(Effect::Revoke { nft: l.nft, owner: lister, delegate: self.listing_address });
        effects.push(Effect::Close { account: self.listing_address, to: lister });
        Ok(effects)
    }

    /// Buys the listed asset at its price. The buyer pays the lister the price and the fee vault
    /// the marketplace fee; the instructions submitted after this one must pay each creator its
    /// royalty. Then the asset is unlocked and moved to the buyer, and the listing is closed.
    /// No separate revoke step is needed: moving the asset clears the listing's delegation.
    /// On any failure nothing changes and no step is committed.
    pub fn buy(&mut self, buyer: Address, metadata: &AssetMetadata, following: &Vec<Instruction>) -> (r: Result<Vec<Effect>, MarketError>)
        requires
            old(self).wf(),
        ensures
            final(self).wf(),
            match r {
                Ok(effects) => {
                    let l = old(self).listing->Some_0;
                    let la = old(self).listing_address;
                    let fee = basis_points_of(l.price, old(self).marketplace.fee);
                    &&& old(self).listing is Some
                    &&& fee is Some
                    &&& royalty_outcome(l.price, *metadata, following@) is Ok
                    &&& final(self).listing is None
                    &&& final(self).bids@ == old(self).bids@
                    &&& final(self).same_frame(old(self))
                    &&& effects@ == seq![
                        Effect::Transfer { from: buyer, to: l.lister, amount: l.price },
                        Effect::Transfer { from: buyer, to: old(self).fee_vault, amount: fee->Some_0 },
                        Effect::Unlock { nft: l.nft, owner: l.lister, authority: la },
                        Effect::TransferAsset { nft: l.nft, from: l.lister, to: buyer, authority: la },
                        Effect::Close { account: la, to: l.lister },
                    ]
                },
                Err(e) => {
                    let l = old(self).listing->Some_0;
                    &&& *final(self) == *old(self)
                    &&& e == if old(self).listing is None {
                        MarketError::NoListing
                    } else if basis_points_of(l.price, old(self).marketplace.fee) is None {
                        MarketError::Overflow
                    } else {
                        royalty_outcome(l.price, *metadata, following@)->Err_0
                    }
                    &&& old(self).listing is Some && basis_points_of(l.price, old(self).marketplace.fee) is Some
                        ==> royalty_outcome(l.price, *metadata, following@) is Err
                },
            },
    {
        let l = match self.listing {
            Some(l) => l,
            None => return Err(MarketError::NoListing),
        };
        let fee = match basis_points(l.price, self.marketplace.fee) {
            Ok(f) => f,
            Err(e) => return Err(e),
        };
        match verify_royalties(l.price, metadata, following) {
            Ok(()) => {},
            Err(e) => return Err(e),
        }
        self.listing = None;
        let mut effects: Vec<Effect> = Vec::new();
        effects.push(Effect::Transfer { from: buyer, to: l.lister, amount: l.price });
        effects.push(Effect::Transfer { from: buyer, to: self.fee_vault, amount: fee });
        effects.push(Effect::Unlock { nft: l.nft, owner: l.lister, authority: self.listing_address });
        effects.push(Effect::TransferAsset { nft: l.nft, from: l.lister, to: buyer, authority: self.listing_address });
        effects.push(Effect::Close { account: self.listing_address, to: l.lister });
        Ok(effects)
    }

    /// Places a bid of `amount` on the live listing: records it and escrows the amount into the
    /// bid's vault.
    pub fn bid(&mut self, bidder: Address, amount: u64) -> (r: Result<Vec<Effect>, MarketError>)
        requires
            old(self).wf(),
        ensures
            final(self).wf(),
            match r {
                Ok(effects) => {
                    let a = bid_addresses(old(self).program, old(self).listing_address, bidder)->Some_0;
                    &&& old(self).listing is Some
                    &&& bid_position(old(self).bids@, bidder) == -1
                    &&& bid_addresses(old(self).program, old(self).listing_address, bidder) is Some
                    &&& final(self).listing == old(self).listing
                    &&& final(self).same_frame(old(self))
                    &&& final(self).bids@ == old(self).bids@.push(
                        BidEntry { state: BidState { bidder, price: amount }, address: a.0, vault: a.1, escrow: amount },
                    )
                    &&& effects@ == seq![Effect::Transfer { from: bidder, to: a.1, amount }]
                    &&& keeps_custody(effects@)
                },
                Err(e) => {
                    &&& *final(self) == *old(self)
                    &&& e == if old(self).listing is None {
                        MarketError::NoListing
                    } else if bid_position(old(self).bids@, bidder) != -1 {
                        MarketError::BidExists
                    } else {
                        MarketError::AddressDerivation
                    }
                    &&& e == MarketError::AddressDerivation ==> bid_addresses(old(self).program, old(self).listing_address, bidder) is None
                },
            },
    {
        if self.listing.is_none() {
            return Err(MarketError::NoListing);
        }
        if self.find_bid(&bidder).is_some() {
            return Err(MarketError::BidExists);
        }
        let mut parents: Vec<Address> = Vec::new();
        parents.push(self.listing_address);
        parents.push(bidder);
        assert(parents@ =~= seq![self.listing_address, bidder]);
        let address = match derive_address(&self.program, "bid", &parents) {
            Some(p) => p.0,
            None => return Err(MarketError::AddressDerivation),
        };
        let vault = match derive_child(&self.program, "listing_vault", &address) {
            Some(v) => v,
            None => return Err(MarketError::AddressDerivation),
        };
        let entry = BidEntry { state: BidState { bidder, price: amount }, address, vault, escrow: amount };
        proof {
            let b = self.bids@;
            let n = b.push(entry);
            assert forall|i: int| 0 <= i < b.len() implies #[trigger] b[i].state.bidder != bidder by {
                if b[i].state.bidder == bidder {
                    assert(bid_position(b, bidder) != -1);
                }
            }
            assert forall|i: int, j: int| 0 <= i < n.len() && 0 <= j < n.len() && i != j
                implies #[trigger] n[i].state.bidder != #[trigger] n[j].state.bidder by {
                if i < b.len() && j < b.len() {
                    assert(n[i] == b[i] && n[j] == b[j]);
                } else if i < b.len() {
                    assert(n[i] == b[i]);
                } else {
                    assert(n[j] == b[j]);
                }
            }
            assert(bids_wf(n));
        }
        self.bids.push(entry);
        let mut effects: Vec<Effect> = Vec::new();
        effects.push(Effect::Transfer { from: bidder, to: vault, amount });
        Ok(effects)
    }

    /// Changes the price of the bidder's bid to `amount`: the bidder tops the vault up by the
    /// difference, or the vault refunds the difference, so that it holds the new price.
    pub fn modify_bid(&mut self, bidder: Address, amount: u64) -> (r: Result<Vec<Effect>, MarketError>)
        requires
            old(self).wf(),
        ensures
            final(self).wf(),
            match r {
                Ok(effects) => {
                    let k = bid_position(old(self).bids@, bidder);
                    let b = old(self).bids@[k];
                    &&& old(self).listing is Some
                    &&& 0 <= k < old(self).bids@.len()
                    &&& amount != 0 && amount != b.state.price
                    &&& final(self).listing == old(self).listing
                    &&& final(self).same_frame(old(self))
                    &&& final(self).bids@ == old(self).bids@.update(
                        k,
                        BidEntry { state: BidState { bidder, price: amount }, address: b.address, vault: b.vault, escrow: amount },
                    )
                    &&& final(self).bids@[k].escrow == amount
                    &&& effects@ == if amount > b.state.price {
                        seq![Effect::Transfer { from: bidder, to: b.vault, amount: (amount - b.state.price) as u64 }]
                    } else {
                        seq![Effect::Release { vault: b.vault, to: bidder, amount: (b.state.price - amount) as u64 }]
                    }
                    &&& keeps_custody(effects@)
                },
                Err(e) => {
                    let k = bid_position(old(self).bids@, bidder);
                    &&& *final(self) == *old(self)
                    &&& e == if old(self).listing is None {
                        MarketError::NoListing
                    } else if k == -1 {
                        MarketError::NoBid
                    } else {
                        MarketError::Marketplace(MarketplaceError::InvalidAmount)
                    }
                    &&& e == MarketError::Marketplace(MarketplaceError::InvalidAmount)
                        ==> (amount == 0 || amount == old(self).bids@[k].state.price)
                },
            },
            amount == 0 || (bid_position(old(self).bids@, bidder) != -1
                && amount == old(self).bids@[bid_position(old(self).bids@, bidder)].state.price) ==> r is Err,
    {
        if self.listing.is_none() {
            return Err(MarketError::NoListing);
        }
        let k = match self.find_bid(&bidder) {
            Some(k) => k,
            None => return Err(MarketError::NoBid),
        };
        let b = self.bids[k];
        if amount == 0 || amount == b.state.price {
            return Err(MarketError::Marketplace(MarketplaceError::InvalidAmount));
        }
        let entry = BidEntry { state: BidState { bidder, price: amount }, address: b.address, vault: b.vault, escrow: amount };
        proof {
            let o = self.bids@;
            let n = o.update(k as int, entry);
            assert(o[k as int].state.bidder == bidder);
            assert forall|i: int, j: int| 0 <= i < n.len() && 0 <= j < n.len() && i != j
                implies #[trigger] n[i].state.bidder != #[trigger] n[j].state.bidder by {
                assert(o[i].state.bidder != o[j].state.bidder);
            }
            assert(bids_wf(n));
        }
        self.bids.set(k, entry);
        let mut effects: Vec<Effect> = Vec::new();
        if amount > b.state.price {
            effects.push(Effect::Transfer { from: bidder, to: b.vault, amount: amount - b.state.price });
        } else {
            effects.push(Effect::Release { vault: b.vault, to: bidder, amount: b.state.price - amount });
        }
        Ok(effects)
    }

    /// Withdraws the bidder's bid: the vault refunds the whole escrow and the bid record closes.
    pub fn cancel_bid(&mut self, bidder: Address) -> (r: Result<Vec<Effect>, MarketError>)
        requires
            old(self).wf(),
        ensures
            final(self).wf(),
            match r {
                Ok(effects) => {
                    let k = bid_position(old(self).bids@, bidder);
                    let b = old(self).bids@[k];
                    &&& 0 <= k < old(self).bids@.len()
                    &&& final(self).listing == old(self).listing
                    &&& final(self).same_frame(old(self))
                    &&& final(self).bids@ == old(self).bids@.remove(k)
                    &&& effects@ == seq![
                        Effect::Release { vault: b.vault, to: bidder, amount: b.escrow },
                        Effect::Close { account: b.address, to: bidder },
                    ]
                    &&& keeps_custody(effects@)
                },
                Err(e) => {
                    &&& *final(self) == *old(self)
                    &&& e == MarketError::NoBid
                    &&& bid_position(old(self).bids@, bidder) == -1
                },
            },
    {
        let k = match self.find_bid(&bidder) {
            Some(k) => k,
            None => return Err(MarketError::NoBid),
        };
        proof {
            lemma_remove_wf(self.program, self.listing_address, self.bids@, k as int);
        }
        let b = self.bids.remove(k);
        let mut effects: Vec<Effect> = Vec::new();
        effects.push(Effect::Release { vault: b.vault, to: bidder, amount: b.escrow });
        effects.push(Effect::Close { account: b.address, to: bidder });
        Ok(effects)
    }

    /// The lister accepts the bid of `bidder`: the bid's vault pays its whole escrow to the
    /// lister, the asset is unlocked and moved to the bidder, and the bid and listing records
    /// close. No fee or royalty is taken on this path. As in `buy`, moving the asset clears the
    /// listing's delegation, so no separate revoke step follows.
    pub fn accept_bid(&mut self, lister: Address, bidder: Address) -> (r: Result<Vec<Effect>, MarketError>)
        requires
            old(self).wf(),
        ensures
            final(self).wf(),
            match r {
                Ok(effects) => {
                    let l = old(self).listing->Some_0;
                    let la = old(self).listing_address;
                    let k = bid_position(old(self).bids@, bidder);
                    let b = old(self).bids@[k];
                    &&& old(self).listing is Some
                    &&& l.lister == lister
                    &&& 0 <= k < old(self).bids@.len()
                    &&& final(self).listing is None
                    &&& final(self).same_frame(old(self))
                    &&& final(self).bids@ == old(self).bids@.remove(k)
                    &&& effects@ == seq![
                        Effect::Release { vault: b.vault, to: lister, amount: b.escrow },
                        Effect::Unlock { nft: l.nft, owner: lister, authority: la },
                        Effect::TransferAsset { nft: l.nft, from: lister, to: bidder, authority: la },
                        Effect::Close { account: b.address, to: bidder },
                        Effect::Close { account: la, to: lister },
                    ]
                },
                Err(e) => {
                    &&& *final(self) == *old(self)
                    &&& e == if old(self).listing is None {
                        MarketError::NoListing
                    } else if old(self).listing->Some_0.lister != lister {
                        MarketError::Unauthorized
                    } else {
                        MarketError::NoBid
                    }
                    &&& e == MarketError::NoBid ==> bid_position(old(self).bids@, bidder) == -1
                },
            },
    {
        let l = match self.listing {
            Some(l) => l,
            None => return Err(MarketError::NoListing),
        };
        if !l.lister.same(&lister) {
            return Err(MarketError::Unauthorized);
        }
        let k = match self.find_bid(&bidder) {
            Some(k) => k,
            None => return Err(MarketError::NoBid),
        };
        proof {
            lemma_remove_wf(self.program, self.listing_address, self.bids@, k as int);
        }
        let b = self.bids.remove(k);
        self.listing = None;
        let mut effects: Vec<Effect> = Vec::new();
        effects.push(Effect::Release { vault: b.vault, to: lister, amount: b.escrow });
        effects.push(Effect::Unlock { nft: l.nft, owner: lister, authority: self.listing_address });
        effects.push(Effect::TransferAsset { nft: l.nft, from: lister, to: bidder, authority: self.listing_address });
        effects.push(Effect::Close { account: b.address, to: bidder });
        effects.push(Effect::Close { account: self.listing_address, to: lister });
        Ok(effects)
    }
}

} // verus!
