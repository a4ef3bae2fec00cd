use solana_program::pubkey::Pubkey;
use vstd::prelude::*;
use vstd::slice::slice_to_vec;
use vstd::utf8::encode_utf8;

verus! {

broadcast use vstd::array::group_array_axioms;

/// A 32-byte account address: a signer's identity, an asset's mint, a program id,
/// or a capability address derived by `derive_address`.
#[derive(Clone, Copy, Debug, PartialEq, Eq)]
pub struct Address {
    pub bytes: [u8; 32],
}

impl Address {
    pub fn new(bytes: [u8; 32]) -> (r: Address)
        ensures
            r.bytes == bytes,
    {
        Address { bytes }
    }

    /// The all-zero address, which is the native value-transfer program's id.
    pub fn zero() -> (r: Address)
        ensures
            r.bytes@ == Seq::new(32, |i: int| 0u8),
    {
        let r = Address { bytes: [0u8; 32] };
        assert(r.bytes@ =~= Seq::new(32, |i: int| 0u8));
        r
    }

    /// Byte-wise comparison of two addresses.
    pub fn same(&self, other: &Address) -> (r: bool)
        ensures
            r == (*self == *other),
    {
        let mut i: usize = 0;
        while i < 32
            invariant
                i <= 32,
                forall|j: int| 0 <= j < i ==> self.bytes@[j] == other.bytes@[j],
            decreases 32 - i,
        {
            if self.bytes[i] != other.bytes[i] {
                return false;
            }
            i = i + 1;
        }
        assert(self.bytes =~= other.bytes);
        true
    }
}

/// What `Pubkey::try_find_program_address` returns for the given seeds and program id:
/// the derived address and its bump seed, or `None` when no bump seed gives a valid address.
pub uninterp spec fn program_address(seeds: Seq<Seq<u8>>, program: Seq<u8>) -> Option<([u8; 32], u8)>;

/// Relies on solana_program's `Pubkey::try_find_program_address`: it searches the bump seeds
/// from 255 down for the first one whose hash of seeds, bump and program id lies off the curve.
/// Off-chain it computes this itself and never panics; the outcome depends on its arguments alone.
#[verifier::external_body]
fn find_program_address(seeds: &Vec<Vec<u8>>, program: &[u8; 32]) -> (r: Option<([u8; 32], u8)>)
    ensures
        r == program_address(seeds.deep_view(), program@),
{
    let refs: Vec<&[u8]> = seeds.iter().map(|s| s.as_slice()).collect();
    let program_id = Pubkey::new_from_array(*program);
    Pubkey::try_find_program_address(&refs, &program_id).map(|(key, bump)| (key.to_bytes(), bump))
}

/// The capability address and bump seed derived from `seeds` under `program`.
pub open spec fn derived(seeds: Seq<Seq<u8>>, program: Address) -> Option<(Address, u8)> {
    match program_address(seeds, program.bytes@) {
        Some(p) => Some((Address { bytes: p.0 }, p.1)),
        None => None,
    }
}

/// Seeds made of a domain tag followed by parent addresses.
pub open spec fn tagged_seeds(tag: Seq<char>, parents: Seq<Address>) -> Seq<Seq<u8>> {
    seq![encode_utf8(tag)] + parents.map_values(|a: Address| a.bytes@)
}

/// Derives the capability address of the entity named by `tag` under `parents`.
/// The bump seed is the proof that only `program` can sign for the address.
pub fn derive_address(program: &Address, tag: &str, parents: &Vec<Address>) -> (r: Option<(Address, u8)>)
    ensures
        r == derived(tagged_seeds(tag@, parents@), *program),
{
    let mut seeds: Vec<Vec<u8>> = Vec::new();
    seeds.push(slice_to_vec(tag.as_bytes()));
    let mut i: usize = 0;
    while i < parents.len()
        invariant
            i <= parents@.len(),
            seeds@.len() == i + 1,
            seeds@[0]@ == encode_utf8(tag@),
            forall|j: int| 0 <= j < i ==> #[trigger] seeds@[j + 1]@ == parents@[j].bytes@,
        decreases parents@.len() - i,
    {
        seeds.push(slice_to_vec(&parents[i].bytes));
        i = i + 1;
    }
    assert forall|k: int| 0 <= k < seeds@.len() implies #[trigger] seeds@[k].deep_view() == seeds@[k]@ by {
        assert(seeds@[k].deep_view() =~= seeds@[k]@);
    }
    let ghost t = tagged_seeds(tag@, parents@);
    assert(t.len() == seeds@.len());
    assert forall|k: int| 0 <= k < t.len() implies #[trigger] t[k] == seeds.deep_view()[k] by {
        if k > 0 {
            assert(seeds@[(k - 1) + 1]@ == parents@[k - 1].bytes@);
        }
    }
    assert(seeds.deep_view() =~= t);
    find_derived(&seeds, program)
}

/// Derives the capability address and bump seed for `seeds` under `program`.
pub fn find_derived(seeds: &Vec<Vec<u8>>, program: &Address) -> (r: Option<(Address, u8)>)
    ensures
        r == derived(seeds.deep_view(), *program),
{
    match find_program_address(seeds, &program.bytes) {
        Some(p) => Some((Address { bytes: p.0 }, p.1)),
        None => None,
    }
}

} // verus!
