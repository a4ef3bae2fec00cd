use crate::address::Address;
use crate::errors::{InstrospectionError, MarketError};
use crate::state::{AssetMetadata, Creator, Instruction};
use vstd::bytes::{lemma_auto_spec_u64_to_from_le_bytes, spec_u64_to_le_bytes, u64_to_le_bytes};
use vstd::prelude::*;

verus! {

/// Opcode of the native program's transfer instruction.
pub const TRANSFER_OPCODE: u8 = 2;

/// `amount * bps / 10000`, or `None` when the product does not fit in 64 bits.
pub open spec fn basis_points_of(amount: u64, bps: u16) -> Option<u64> {
    if amount * bps > u64::MAX {
        None
    } else {
        Some(((amount * bps) / 10000) as u64)
    }
}

/// The share, in percent, of a royalty pool, or `None` when the product does not fit in 64 bits.
pub open spec fn percent_of(pool: u64, share: u8) -> Option<u64> {
    if pool * share > u64::MAX {
        None
    } else {
        Some(((pool * share) / 100) as u64)
    }
}

/// `amount * bps / 10000` with the product checked for overflow.
pub fn basis_points(amount: u64, bps: u16) -> (r: Result<u64, MarketError>)
    ensures
        r == (match basis_points_of(amount, bps) {
            Some(v) => Ok(v),
            None => Err(MarketError::Overflow),
        }),
{
    match amount.checked_mul(bps as u64) {
        Some(p) => Ok(p / 10000),
        None => Err(MarketError::Overflow),
    }
}

/// Whether `a` is the native value-transfer program's id, the all-zero address.
pub open spec fn is_transfer_program(a: Address) -> bool {
    forall|i: int| 0 <= i < 32 ==> a.bytes@[i] == 0u8
}

/// What is wrong, if anything, with `ix` as the payment of `amount` to `creator`: it must go to
/// the transfer program, carry the transfer opcode, encode `amount` little-endian in bytes
/// 4 to 12 of its data, and name `creator` as its second account.
pub open spec fn payment_error(ix: Instruction, creator: Creator, amount: u64) -> Option<InstrospectionError> {
    if !is_transfer_program(ix.program_id) {
        Some(InstrospectionError::InvalidTokenProgram)
    } else if ix.data@.len() < 1 || ix.data@[0] != TRANSFER_OPCODE {
        Some(InstrospectionError::InvalidIx)
    } else if ix.data@.len() < 12 || ix.data@.subrange(4, 12) != spec_u64_to_le_bytes(amount) {
        Some(InstrospectionError::InvalidAmount)
    } else if ix.accounts@.len() < 2 || ix.accounts@[1] != creator.address {
        Some(InstrospectionError::InvalidCreator)
    } else {
        None
    }
}

/// The outcome of checking creators `j..` against the instructions from `k` on: each creator with
/// a nonzero share, in order, must be paid its share of `pool` by the next instruction.
pub open spec fn royalties_from(pool: u64, creators: Seq<Creator>, ixs: Seq<Instruction>, j: int, k: int) -> Result<(), MarketError>
    decreases creators.len() - j,
{
    if j < 0 || j >= creators.len() {
        Ok(())
    } else if creators[j].share == 0 {
        royalties_from(pool, creators, ixs, j + 1, k)
    } else if k < 0 || k >= ixs.len() {
        Err(MarketError::Introspection(InstrospectionError::InvalidIx))
    } else {
        match percent_of(pool, creators[j].share) {
            None => Err(MarketError::Overflow),
            Some(amount) => match payment_error(ixs[k], creators[j], amount) {
                Some(e) => Err(MarketError::Introspection(e)),
                None => royalties_from(pool, creators, ixs, j + 1, k + 1),
            },
        }
    }
}

/// The outcome of royalty verification for a sale at `price`: nothing is owed unless the
/// metadata declares nonzero basis points and a creator list.
pub open spec fn royalty_outcome(price: u64, metadata: AssetMetadata, following: Seq<Instruction>) -> Result<(), MarketError> {
    if metadata.seller_fee_basis_points == 0 || metadata.creators is None {
        Ok(())
    } else {
        match basis_points_of(price, metadata.seller_fee_basis_points) {
            None => Err(MarketError::Overflow),
            Some(pool) => royalties_from(pool, metadata.creators->Some_0@, following, 0, 0),
        }
    }
}

/// Checks one submitted instruction as the payment of `amount` to `creator`.
pub fn check_payment(ix: &Instruction, creator: &Creator, amount: u64) -> (r: Option<InstrospectionError>)
    ensures
        r == payment_error(*ix, *creator, amount),
{
    let mut i: usize = 0;
    while i < 32
        invariant
            i <= 32,
            forall|j: int| 0 <= j < i ==> ix.program_id.bytes@[j] == 0u8,
        decreases 32 - i,
    {
        if ix.program_id.bytes[i] != 0 {
            return Some(InstrospectionError::InvalidTokenProgram);
        }
        i = i + 1;
    }
    if ix.data.len() < 1 || ix.data[0] != TRANSFER_OPCODE {
        return Some(InstrospectionError::InvalidIx);
    }
    if ix.data.len() < 12 {
        return Some(InstrospectionError::InvalidAmount);
    }
    let expected = u64_to_le_bytes(amount);
    proof {
        lemma_auto_spec_u64_to_from_le_bytes();
    }
    let mut b: usize = 0;
    while b < 8
        invariant
            b <= 8,
            expected@ == spec_u64_to_le_bytes(amount),
            expected@.len() == 8,
            ix.data@.len() >= 12,
            ix.data@[0] == TRANSFER_OPCODE,
            is_transfer_program(ix.program_id),
            forall|j: int| 0 <= j < b ==> ix.data@[4 + j] == expected@[j],
        decreases 8 - b,
    {
        if ix.data[4 + b] != expected[b] {
            assert(ix.data@.subrange(4, 12)[b as int] != expected@[b as int]);
            assert(ix.data@.subrange(4, 12) != spec_u64_to_le_bytes(amount));
            return Some(InstrospectionError::InvalidAmount);
        }
        b = b + 1;
    }
    assert(ix.data@.subrange(4, 12) =~= expected@);
    if ix.accounts.len() < 2 || !ix.accounts[1].same(&creator.address) {
        return Some(InstrospectionError::InvalidCreator);
    }
    None
}

/// Verifies that the instructions submitted after a purchase at `price` pay every creator its
/// royalty, in the order the metadata lists them.
pub fn verify_royalties(price: u64, metadata: &AssetMetadata, following: &Vec<Instruction>) -> (r: Result<(), MarketError>)
    ensures
        r == royalty_outcome(price, *metadata, following@),
{
    if metadata.seller_fee_basis_points == 0 {
        return Ok(());
    }
    let creators = match &metadata.creators {
        None => return Ok(()),
        Some(c) => c,
    };
    let pool = match basis_points(price, metadata.seller_fee_basis_points) {
        Ok(p) => p,
        Err(e) => return Err(e),
    };
    let ghost cs = creators@;
    let mut j: usize = 0;
    let mut k: usize = 0;
    while j < creators.len()
        invariant
            cs == creators@,
            j <= cs.len(),
            k <= j,
            royalty_outcome(price, *metadata, following@) == royalties_from(pool, cs, following@, j as int, k as int),
            metadata.creators == Some(*creators),
            basis_points_of(price, metadata.seller_fee_basis_points) == Some(pool),
            metadata.seller_fee_basis_points != 0,
        decreases cs.len() - j,
    {
        let creator = &creators[j];
        if creator.share > 0 {
            if k >= following.len() {
                return Err(MarketError::Introspection(InstrospectionError::InvalidIx));
            }
            let amount = match pool.checked_mul(creator.share as u64) {
                Some(p) => p / 100,
                None => return Err(MarketError::Overflow),
            };
            match check_payment(&following[k], creator, amount) {
                Some(e) => return Err(MarketError::Introspection(e)),
                None => {},
            }
            k = k + 1;
        }
        j = j + 1;
    }
    Ok(())
}

} // verus!
