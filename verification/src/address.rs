//! Storage addresses and their deterministic derivation from seeds.

use anchor_lang::prelude::Pubkey;
use vstd::prelude::*;
use vstd::std_specs::cmp::PartialEqSpecImpl;

verus! {

/// A 32-byte address on the storage substrate.
#[derive(Clone, Copy, Debug, Eq)]
pub struct Address {
    /// The bytes of the address, in order.
    pub bytes: [u8; 32],
}

impl View for Address {
    type V = Seq<u8>;

    open spec fn view(&self) -> Seq<u8> {
        self.bytes@
    }
}

impl PartialEq for Address {
    fn eq(&self, other: &Address) -> (r: bool) {
        let mut i: usize = 0;
        while i < 32
            invariant
                i <= 32,
                forall|j: int| 0 <= j < i ==> self.bytes[j] == other.bytes[j],
            decreases 32 - i,
        {
            if self.bytes[i] != other.bytes[i] {
                return false;
            }
            i = i + 1;
        }
        proof {
            assert(self.bytes =~= other.bytes);
        }
        true
    }
}

impl PartialEqSpecImpl for Address {
    open spec fn obeys_eq_spec() -> bool {
        true
    }

    open spec fn eq_spec(&self, other: &Address) -> bool {
        *self == *other
    }
}

impl Address {
    /// The address made of the given bytes.
    pub fn new(bytes: [u8; 32]) -> (a: Address)
        ensures
            a.bytes == bytes,
    {
        Address { bytes }
    }

    /// The bytes of the address, in order.
    pub fn to_vec(&self) -> (v: Vec<u8>)
        ensures
            v@ == self@,
    {
        seed(&self.bytes)
    }
}

/// Two addresses with the same bytes are the same address.
pub proof fn lemma_address_by_bytes(a: Address, b: Address)
    requires
        a@ == b@,
    ensures
        a == b,
{
    assert(a.bytes =~= b.bytes);
}

/// Seed that namespaces the addresses of lottery entries.
pub const DATA_PDA_SEED: [u8; 9] = [116, 101, 115, 116, 45, 115, 101, 101, 100];

/// Seed of the address that holds the authority over the reward mint.
pub const MINT_SEED: [u8; 9] = [109, 105, 110, 116, 45, 115, 101, 101, 100];

/// What a derivation gives: the bytes of the address and the bump seed
/// that belongs to it, or nothing.
pub type Derivation = Option<(Seq<u8>, u8)>;

/// The address and bump seed that `Pubkey::try_find_program_address` finds
/// for the seeds and the program's address, `None` where it finds none.
pub uninterp spec fn canonical_address(seeds: Seq<Seq<u8>>, program_id: Seq<u8>) -> Option<(Seq<u8>, u8)>;

/// Calls `Pubkey::try_find_program_address` on the seeds, in order, and the
/// program's address. The contract only names the outcome: the address and
/// the bump seed that were found, or that none was.
#[verifier::external_body]
fn try_find_program_address(seeds: &Vec<Vec<u8>>, program_id: &Address) -> (r: Option<
    (Address, u8),
>)
    ensures
        match r {
            Some((a, bump)) => canonical_address(seeds.deep_view(), program_id@) == Some(
                (a@, bump),
            ),
            None => canonical_address(seeds.deep_view(), program_id@) is None,
        },
{
    let parts: Vec<&[u8]> = seeds.iter().map(|s| s.as_slice()).collect();
    match Pubkey::try_find_program_address(&parts, &Pubkey::new_from_array(program_id.bytes)) {
        Some((key, bump)) => Some((Address { bytes: key.to_bytes() }, bump)),
        None => None,
    }
}

/// A derivation as it was found, by the bytes of its address.
pub open spec fn found_view(found: Option<(Address, u8)>) -> Derivation {
    match found {
        Some((a, bump)) => Some((a@, bump)),
        None => None,
    }
}

/// The seeds of the address of the lottery entry of `owner`.
pub open spec fn record_seeds(owner: Address) -> Seq<Seq<u8>> {
    seq![DATA_PDA_SEED@, owner@]
}

/// The seeds of the address that holds the authority over the reward mint.
pub open spec fn mint_authority_seeds() -> Seq<Seq<u8>> {
    seq![MINT_SEED@]
}

/// The derivation of the address of the lottery entry of `owner` under
/// the program.
pub open spec fn record_derivation(owner: Address, program_id: Address) -> Derivation {
    canonical_address(record_seeds(owner), program_id@)
}

/// The derivation of the address that holds the authority over the reward
/// mint under the program.
pub open spec fn mint_authority_derivation(program_id: Address) -> Derivation {
    canonical_address(mint_authority_seeds(), program_id@)
}

/// Whether the derivation gives this address.
pub open spec fn derives(found: Derivation, address: Address) -> bool {
    found matches Some((a, _)) && a == address@
}

/// Whether the derivation gives this address with this bump seed.
pub open spec fn derives_with(found: Derivation, address: Address, bump: u8) -> bool {
    found == Some((address@, bump))
}

/// Tells whether a derivation that was found gives this address.
pub fn gives(found: Option<(Address, u8)>, address: &Address) -> (b: bool)
    ensures
        b == derives(found_view(found), *address),
{
    match found {
        Some((a, _)) => {
            proof {
                if a@ == address@ {
                    lemma_address_by_bytes(a, *address);
                }
            }
            a == *address
        },
        None => false,
    }
}

/// Tells whether a derivation that was found gives this address with this
/// bump seed.
pub fn gives_with(found: Option<(Address, u8)>, address: &Address, bump: u8) -> (b: bool)
    ensures
        b == derives_with(found_view(found), *address, bump),
{
    match found {
        Some((a, found_bump)) => {
            proof {
                if a@ == address@ {
                    lemma_address_by_bytes(a, *address);
                }
            }
            a == *address && found_bump == bump
        },
        None => false,
    }
}

/// The bytes of a seed, as a vector.
pub fn seed<const N: usize>(bytes: &[u8; N]) -> (v: Vec<u8>)
    ensures
        v@ == bytes@,
{
    let mut v: Vec<u8> = Vec::new();
    let mut i: usize = 0;
    while i < N
        invariant
            i <= N,
            v@ == bytes@.subrange(0, i as int),
        decreases N - i,
    {
        v.push(bytes[i]);
        i = i + 1;
    }
    assert(bytes@.subrange(0, N as int) =~= bytes@);
    v
}

/// Finds the address of the lottery entry of `owner` under the program,
/// and the bump seed that belongs to it.
pub fn find_record_address(owner: &Address, program_id: &Address) -> (r: Option<(Address, u8)>)
    ensures
        found_view(r) == record_derivation(*owner, *program_id),
{
    let mut seeds: Vec<Vec<u8>> = Vec::new();
    seeds.push(seed(&DATA_PDA_SEED));
    seeds.push(owner.to_vec());
    assert(seeds.deep_view() =~~= record_seeds(*owner));
    try_find_program_address(&seeds, program_id)
}

/// Finds the address that holds the authority over the reward mint under
/// the program, and the bump seed that belongs to it.
pub fn find_mint_authority(program_id: &Address) -> (r: Option<(Address, u8)>)
    ensures
        found_view(r) == mint_authority_derivation(*program_id),
{
    let mut seeds: Vec<Vec<u8>> = Vec::new();
    seeds.push(seed(&MINT_SEED));
    assert(seeds.deep_view() =~~= mint_authority_seeds());
    try_find_program_address(&seeds, program_id)
}

} // verus!
