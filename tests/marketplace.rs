use anchor_marketplace::address::{derive_address, Address};
use solana_program::pubkey::Pubkey;
use solana_program::system_instruction;
use anchor_marketplace::errors::{InstrospectionError, MarketError, MarketplaceError};
use anchor_marketplace::market::{initalize_marketplace, Market};
use anchor_marketplace::royalty::{basis_points, check_payment, verify_royalties};
use anchor_marketplace::state::{AssetMetadata, Collection, Creator, Effect, Instruction, Listing, TokenStandard};

fn addr(b: u8) -> Address {
    Address::new([b; 32])
}

fn program() -> Address {
    addr(200)
}

fn nft_metadata(collection: Address) -> AssetMetadata {
    AssetMetadata {
        token_standard: Some(TokenStandard::NonFungible),
        collection: Some(Collection { verified: true, key: collection }),
        seller_fee_basis_points: 0,
        creators: None,
    }
}

fn toys() -> Market {
    initalize_marketplace(program(), addr(1), String::from("toys"), 250).unwrap()
}

fn listed() -> Market {
    let mut m = toys();
    m.list(addr(2), addr(3), addr(4), 1000, &nft_metadata(addr(4))).unwrap();
    m
}

fn transfer_ix(to: Address, amount: u64) -> Instruction {
    let mut data = vec![2u8, 0, 0, 0];
    data.extend_from_slice(&amount.to_le_bytes());
    Instruction { program_id: Address::zero(), accounts: vec![addr(9), to], data }
}

#[test]
fn initialize_derives_distinct_addresses() {
    let m = toys();
    assert_eq!(m.marketplace.fee, 250);
    assert_eq!(m.marketplace.admin, addr(1));
    assert_ne!(m.address, m.fee_vault);
    assert_ne!(m.address, m.listing_address);
    assert_ne!(m.fee_vault, m.listing_address);
    assert_ne!(m.address, program());
    assert!(m.listing.is_none());
    let again = toys();
    assert_eq!(m.address, again.address);
    assert_eq!(m.listing_address, again.listing_address);
    let other = initalize_marketplace(program(), addr(1), String::from("games"), 250).unwrap();
    assert_ne!(m.address, other.address);
}

#[test]
fn derivation_is_deterministic_and_depends_on_tag() {
    let parents = vec![addr(5)];
    let a = derive_address(&program(), "listing", &parents).unwrap();
    let b = derive_address(&program(), "listing", &parents).unwrap();
    let c = derive_address(&program(), "fee_vault", &parents).unwrap();
    assert_eq!(a, b);
    assert_ne!(a.0, c.0);
    assert_ne!(a.0, addr(5));
}

#[test]
fn long_name_has_no_address() {
    let name = String::from("a marketplace name longer than thirty-two bytes");
    let r = initalize_marketplace(program(), addr(1), name, 250);
    assert_eq!(r.err(), Some(MarketError::AddressDerivation));
}

#[test]
fn buy_pays_lister_and_fee_and_moves_asset() {
    let mut m = listed();
    let la = m.listing_address;
    let fee_vault = m.fee_vault;
    let effects = m.buy(addr(6), &nft_metadata(addr(4)), &vec![]).unwrap();
    assert_eq!(
        effects,
        vec![
            Effect::Transfer { from: addr(6), to: addr(2), amount: 1000 },
            Effect::Transfer { from: addr(6), to: fee_vault, amount: 25 },
            Effect::Unlock { nft: addr(3), owner: addr(2), authority: la },
            Effect::TransferAsset { nft: addr(3), from: addr(2), to: addr(6), authority: la },
            Effect::Close { account: la, to: addr(2) },
        ]
    );
    assert!(m.listing.is_none());
}

#[test]
fn accept_bid_pays_lister_and_moves_asset_to_bidder() {
    let mut m = listed();
    let la = m.listing_address;
    let bid_effects = m.bid(addr(7), 500).unwrap();
    let vault = m.bids[0].vault;
    let bid_address = m.bids[0].address;
    assert_eq!(bid_effects, vec![Effect::Transfer { from: addr(7), to: vault, amount: 500 }]);
    assert_ne!(vault, bid_address);
    let effects = m.accept_bid(addr(2), addr(7)).unwrap();
    assert_eq!(
        effects,
        vec![
            Effect::Release { vault, to: addr(2), amount: 500 },
            Effect::Unlock { nft: addr(3), owner: addr(2), authority: la },
            Effect::TransferAsset { nft: addr(3), from: addr(2), to: addr(7), authority: la },
            Effect::Close { account: bid_address, to: addr(7) },
            Effect::Close { account: la, to: addr(2) },
        ]
    );
    assert!(m.listing.is_none());
    assert!(m.bids.is_empty());
}

#[test]
fn modify_bid_down_refunds_difference() {
    let mut m = listed();
    m.bid(addr(7), 500).unwrap();
    let vault = m.bids[0].vault;
    let effects = m.modify_bid(addr(7), 300).unwrap();
    assert_eq!(effects, vec![Effect::Release { vault, to: addr(7), amount: 200 }]);
    assert_eq!(m.bids[0].state.price, 300);
    assert_eq!(m.bids[0].escrow, 300);
}

#[test]
fn modify_bid_up_tops_up_escrow() {
    let mut m = listed();
    m.bid(addr(7), 500).unwrap();
    let vault = m.bids[0].vault;
    let effects = m.modify_bid(addr(7), 800).unwrap();
    assert_eq!(effects, vec![Effect::Transfer { from: addr(7), to: vault, amount: 300 }]);
    assert_eq!(m.bids[0].escrow, 800);
}

#[test]
fn modify_bid_rejects_zero_and_same_price() {
    let mut m = listed();
    m.bid(addr(7), 500).unwrap();
    let invalid = Err(MarketError::Marketplace(MarketplaceError::InvalidAmount));
    assert_eq!(m.modify_bid(addr(7), 0), invalid);
    assert_eq!(m.modify_bid(addr(7), 500), invalid);
    assert_eq!(m.bids[0].escrow, 500);
    assert_eq!(m.modify_bid(addr(8), 600), Err(MarketError::NoBid));
}

#[test]
fn cancel_bid_refunds_whole_escrow() {
    let mut m = listed();
    m.bid(addr(7), 500).unwrap();
    m.bid(addr(8), 700).unwrap();
    let vault = m.bids[1].vault;
    let address = m.bids[1].address;
    let effects = m.cancel_bid(addr(8)).unwrap();
    assert_eq!(effects, vec![Effect::Release { vault, to: addr(8), amount: 700 }, Effect::Close { account: address, to: addr(8) }]);
    assert_eq!(m.bids.len(), 1);
    assert_eq!(m.cancel_bid(addr(8)), Err(MarketError::NoBid));
}

#[test]
fn second_bid_by_same_bidder_is_rejected() {
    let mut m = listed();
    m.bid(addr(7), 500).unwrap();
    assert_eq!(m.bid(addr(7), 600), Err(MarketError::BidExists));
    assert_eq!(m.bids.len(), 1);
}

#[test]
fn bid_needs_a_listing() {
    let mut m = toys();
    assert_eq!(m.bid(addr(7), 500), Err(MarketError::NoListing));
}

#[test]
fn only_one_listing_per_marketplace() {
    let mut m = listed();
    let r = m.list(addr(8), addr(10), addr(4), 5, &nft_metadata(addr(4)));
    assert_eq!(r, Err(MarketError::ListingExists));
    assert_eq!(m.listing, Some(Listing { lister: addr(2), nft: addr(3), collection: addr(4), price: 1000 }));
}

#[test]
fn list_locks_asset_under_listing_authority() {
    let mut m = toys();
    let la = m.listing_address;
    let effects = m.list(addr(2), addr(3), addr(4), 1000, &nft_metadata(addr(4))).unwrap();
    assert_eq!(
        effects,
        vec![
            Effect::Delegate { nft: addr(3), owner: addr(2), delegate: la },
            Effect::Lock { nft: addr(3), owner: addr(2), authority: la },
        ]
    );
}

#[test]
fn list_rejects_wrong_standard_and_collection() {
    let mut m = toys();
    let mut md = nft_metadata(addr(4));
    md.token_standard = Some(TokenStandard::Fungible);
    assert_eq!(
        m.list(addr(2), addr(3), addr(4), 1000, &md),
        Err(MarketError::Marketplace(MarketplaceError::InvalidTokenStandard))
    );
    let md = nft_metadata(addr(5));
    assert_eq!(m.list(addr(2), addr(3), addr(4), 1000, &md), Err(MarketError::Marketplace(MarketplaceError::InvalidCollection)));
    let mut md = nft_metadata(addr(4));
    md.collection = Some(Collection { verified: false, key: addr(4) });
    assert_eq!(m.list(addr(2), addr(3), addr(4), 1000, &md), Err(MarketError::Marketplace(MarketplaceError::InvalidCollection)));
    assert!(m.listing.is_none());
}

#[test]
fn delist_by_lister_only() {
    let mut m = listed();
    let la = m.listing_address;
    assert_eq!(m.delist(addr(9)), Err(MarketError::Unauthorized));
    let effects = m.delist(addr(2)).unwrap();
    assert_eq!(
        effects,
        vec![
            Effect::Unlock { nft: addr(3), owner: addr(2), authority: la },
            Effect::Revoke { nft: addr(3), owner: addr(2), delegate: la },
            Effect::Close { account: la, to: addr(2) },
        ]
    );
    assert_eq!(m.delist(addr(2)), Err(MarketError::NoListing));
}

#[test]
fn accept_bid_by_other_than_lister_is_rejected() {
    let mut m = listed();
    m.bid(addr(7), 500).unwrap();
    assert_eq!(m.accept_bid(addr(7), addr(7)), Err(MarketError::Unauthorized));
    assert_eq!(m.accept_bid(addr(2), addr(8)), Err(MarketError::NoBid));
    assert!(m.listing.is_some());
}

fn royalty_metadata() -> AssetMetadata {
    AssetMetadata {
        token_standard: Some(TokenStandard::NonFungible),
        collection: Some(Collection { verified: true, key: addr(4) }),
        seller_fee_basis_points: 500,
        creators: Some(vec![
            Creator { address: addr(20), verified: true, share: 60 },
            Creator { address: addr(21), verified: true, share: 0 },
            Creator { address: addr(22), verified: false, share: 40 },
        ]),
    }
}

#[test]
fn royalties_paid_in_order_are_accepted() {
    // pool = 1000 * 500 / 10000 = 50; shares 60% and 40%.
    let ixs = vec![transfer_ix(addr(20), 30), transfer_ix(addr(22), 20)];
    assert_eq!(verify_royalties(1000, &royalty_metadata(), &ixs), Ok(()));
    let mut m = listed();
    assert!(m.buy(addr(6), &royalty_metadata(), &ixs).is_ok());
}

#[test]
fn failed_royalty_check_leaves_listing_untouched() {
    let mut m = listed();
    let ixs = vec![transfer_ix(addr(20), 30), transfer_ix(addr(22), 19)];
    let r = m.buy(addr(6), &royalty_metadata(), &ixs);
    assert_eq!(r, Err(MarketError::Introspection(InstrospectionError::InvalidAmount)));
    assert_eq!(m.listing, Some(Listing { lister: addr(2), nft: addr(3), collection: addr(4), price: 1000 }));
}

#[test]
fn royalty_errors_by_kind() {
    let md = royalty_metadata();
    let good = transfer_ix(addr(20), 30);
    assert_eq!(verify_royalties(1000, &md, &vec![good.clone()]), Err(MarketError::Introspection(InstrospectionError::InvalidIx)));
    let mut wrong_program = good.clone();
    wrong_program.program_id = addr(1);
    assert_eq!(verify_royalties(1000, &md, &vec![wrong_program]), Err(MarketError::Introspection(InstrospectionError::InvalidTokenProgram)));
    let mut wrong_opcode = good.clone();
    wrong_opcode.data[0] = 3;
    assert_eq!(verify_royalties(1000, &md, &vec![wrong_opcode]), Err(MarketError::Introspection(InstrospectionError::InvalidIx)));
    let wrong_creator = transfer_ix(addr(23), 30);
    assert_eq!(verify_royalties(1000, &md, &vec![wrong_creator]), Err(MarketError::Introspection(InstrospectionError::InvalidCreator)));
    let creator = Creator { address: addr(20), verified: true, share: 60 };
    assert_eq!(check_payment(&good, &creator, 30), None);
    assert_eq!(check_payment(&good, &creator, 31), Some(InstrospectionError::InvalidAmount));
}

#[test]
fn no_royalty_owed_without_basis_points() {
    let mut md = royalty_metadata();
    md.seller_fee_basis_points = 0;
    assert_eq!(verify_royalties(1000, &md, &vec![]), Ok(()));
}

#[test]
fn fee_arithmetic() {
    assert_eq!(basis_points(1000, 250), Ok(25));
    assert_eq!(basis_points(9999, 1), Ok(0));
    assert_eq!(basis_points(u64::MAX, 2), Err(MarketError::Overflow));
    let mut m = initalize_marketplace(program(), addr(1), String::from("big"), 2).unwrap();
    m.list(addr(2), addr(3), addr(4), u64::MAX, &nft_metadata(addr(4))).unwrap();
    assert_eq!(m.buy(addr(6), &nft_metadata(addr(4)), &vec![]), Err(MarketError::Overflow));
    assert!(m.listing.is_some());
}

#[test]
fn runtime_transfer_instruction_passes_royalty_check() {
    let payer = Pubkey::new_from_array([9u8; 32]);
    let creator = Pubkey::new_from_array([20u8; 32]);
    let ix = system_instruction::transfer(&payer, &creator, 30);
    let converted = Instruction {
        program_id: Address::new(ix.program_id.to_bytes()),
        accounts: ix.accounts.iter().map(|m| Address::new(m.pubkey.to_bytes())).collect(),
        data: ix.data.clone(),
    };
    let c = Creator { address: addr(20), verified: true, share: 60 };
    assert_eq!(check_payment(&converted, &c, 30), None);
}
