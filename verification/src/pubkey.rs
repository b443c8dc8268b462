//! Public keys and the addressing scheme that derives record addresses
//! from a namespace tag and the keys that identify a record.

use vstd::prelude::*;

verus! {

/// A 32-byte identity key or record address.
#[derive(Clone, Copy, Debug, PartialEq, Eq, Hash)]
pub struct Pubkey {
    pub bytes: [u8; 32],
}

impl View for Pubkey {
    type V = Seq<u8>;

    open spec fn view(&self) -> Seq<u8> {
        self.bytes@
    }
}

impl Pubkey {
    /// Wraps 32 bytes as a key.
    pub fn new_from_array(bytes: [u8; 32]) -> (key: Pubkey)
        ensures
            key@ == bytes@,
            key.bytes == bytes,
    {
        Pubkey { bytes }
    }

    /// The bytes of the key.
    pub fn to_bytes(&self) -> (bytes: [u8; 32])
        ensures
            bytes@ == self@,
    {
        self.bytes
    }

    /// Byte-wise comparison of two keys.
    pub fn same(&self, other: &Pubkey) -> (r: bool)
        ensures
            r == (self@ == other@),
    {
        let mut i: usize = 0;
        while i < 32
            invariant
                i <= 32,
                forall|j: int| 0 <= j < i ==> self.bytes@[j] == other.bytes@[j],
            decreases 32 - i,
        {
            if self.bytes[i] != other.bytes[i] {
                return false;
            }
            i += 1;
        }
        assert(self@ =~= other@);
        true
    }

    /// The key as an owned seed for address derivation.
    pub fn to_seed(&self) -> (seed: Vec<u8>)
        ensures
            seed@ == self@,
    {
        let mut seed: Vec<u8> = Vec::new();
        let mut i: usize = 0;
        while i < 32
            invariant
                i <= 32,
                seed@.len() == i,
                forall|j: int| 0 <= j < i ==> seed@[j] == self.bytes@[j],
            decreases 32 - i,
        {
            seed.push(self.bytes[i]);
            i += 1;
        }
        assert(seed@ =~= self@);
        seed
    }
}

/// The namespace tag of agent records: the ASCII bytes of `agent`.
pub open spec fn agent_tag() -> Seq<u8> {
    seq![0x61u8, 0x67u8, 0x65u8, 0x6eu8, 0x74u8]
}

/// The namespace tag of rating records: the ASCII bytes of `reputation`.
pub open spec fn reputation_tag() -> Seq<u8> {
    seq![0x72u8, 0x65u8, 0x70u8, 0x75u8, 0x74u8, 0x61u8, 0x74u8, 0x69u8, 0x6fu8, 0x6eu8]
}

/// The seed tuple that identifies the agent record of `owner`.
pub open spec fn agent_seeds(owner: Seq<u8>) -> Seq<Seq<u8>> {
    seq![agent_tag(), owner]
}

/// The seed tuple that identifies the rating given by `rater` to the agent
/// record at `agent`.
pub open spec fn reputation_seeds(agent: Seq<u8>, rater: Seq<u8>) -> Seq<Seq<u8>> {
    seq![reputation_tag(), agent, rater]
}

/// The address and discriminator that the derivation assigns to a seed tuple
/// under a program, or `None` where no discriminator yields a valid address.
pub uninterp spec fn program_address(seeds: Seq<Seq<u8>>, program_id: Seq<u8>) -> Option<(Seq<u8>, u8)>;

/// The address and discriminator of the agent record owned by `owner`.
pub open spec fn agent_address(program_id: Seq<u8>, owner: Seq<u8>) -> Option<(Seq<u8>, u8)> {
    program_address(agent_seeds(owner), program_id)
}

/// The address and discriminator of the rating that `rater` gives to the
/// agent record at `agent`.
pub open spec fn reputation_address(program_id: Seq<u8>, agent: Seq<u8>, rater: Seq<u8>) -> Option<
    (Seq<u8>, u8),
> {
    program_address(reputation_seeds(agent, rater), program_id)
}

/// A list of owned seeds as plain byte sequences.
pub open spec fn seeds_view(seeds: Seq<Vec<u8>>) -> Seq<Seq<u8>> {
    Seq::new(seeds.len(), |i: int| seeds[i]@)
}

/// A derivation result as plain byte sequences.
pub open spec fn derived_view(derived: Option<(Pubkey, u8)>) -> Option<(Seq<u8>, u8)> {
    match derived {
        Some((key, bump)) => Some((key@, bump)),
        None => None,
    }
}

/// Calls `Pubkey::try_find_program_address` of `anchor_lang`. That function
/// appends a one-byte discriminator to the seeds, hashes the seeds, the
/// program id and a fixed marker with SHA-256, and tries the discriminators
/// from 255 downwards until the hash is no point of the ed25519 curve; it
/// returns `None` where no discriminator is found or the seeds exceed its
/// limits. It reads nothing but its arguments, so its result is a function
/// of the seeds and the program id: the contract gives that function the
/// name `program_address` and claims nothing about its values.
#[verifier::external_body]
fn try_find_program_address(seeds: &Vec<Vec<u8>>, program_id: &Pubkey) -> (derived: Option<
    (Pubkey, u8),
>)
    ensures
        derived_view(derived) == program_address(seeds_view(seeds@), program_id@),
{
    let parts: Vec<&[u8]> = seeds.iter().map(|seed| seed.as_slice()).collect();
    let program = anchor_lang::prelude::Pubkey::new_from_array(program_id.bytes);
    anchor_lang::prelude::Pubkey::try_find_program_address(&parts, &program).map(
        |(key, bump)| (Pubkey { bytes: key.to_bytes() }, bump),
    )
}

/// The seed bytes of the agent namespace tag.
pub fn agent_tag_seed() -> (seed: Vec<u8>)
    ensures
        seed@ == agent_tag(),
{
    let mut seed: Vec<u8> = Vec::new();
    seed.push(0x61u8);
    seed.push(0x67u8);
    seed.push(0x65u8);
    seed.push(0x6eu8);
    seed.push(0x74u8);
    assert(seed@ =~= agent_tag());
    seed
}

/// The seed bytes of the rating namespace tag.
pub fn reputation_tag_seed() -> (seed: Vec<u8>)
    ensures
        seed@ == reputation_tag(),
{
    let mut seed: Vec<u8> = Vec::new();
    seed.push(0x72u8);
    seed.push(0x65u8);
    seed.push(0x70u8);
    seed.push(0x75u8);
    seed.push(0x74u8);
    seed.push(0x61u8);
    seed.push(0x74u8);
    seed.push(0x69u8);
    seed.push(0x6fu8);
    seed.push(0x6eu8);
    assert(seed@ =~= reputation_tag());
    seed
}

/// Derives the address and discriminator of the agent record of `owner`.
pub fn find_agent_address(program_id: &Pubkey, owner: &Pubkey) -> (derived: Option<(Pubkey, u8)>)
    ensures
        derived_view(derived) == agent_address(program_id@, owner@),
{
    let mut seeds: Vec<Vec<u8>> = Vec::new();
    seeds.push(agent_tag_seed());
    seeds.push(owner.to_seed());
    assert(seeds_view(seeds@) =~= agent_seeds(owner@));
    try_find_program_address(&seeds, program_id)
}

/// Derives the address and discriminator of the rating that `rater` gives to
/// the agent record at `agent`.
pub fn find_reputation_address(program_id: &Pubkey, agent: &Pubkey, rater: &Pubkey) -> (derived:
    Option<(Pubkey, u8)>)
    ensures
        derived_view(derived) == reputation_address(program_id@, agent@, rater@),
{
    let mut seeds: Vec<Vec<u8>> = Vec::new();
    seeds.push(reputation_tag_seed());
    seeds.push(agent.to_seed());
    seeds.push(rater.to_seed());
    assert(seeds_view(seeds@) =~= reputation_seeds(agent@, rater@));
    try_find_program_address(&seeds, program_id)
}

} // verus!
