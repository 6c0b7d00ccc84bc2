use vstd::prelude::*;
use crate::pubkey::Pubkey;

verus! {

/// Namespace tag of the configuration record: the bytes of "state".
pub const SEED_STATE: [u8; 5] = [115, 116, 97, 116, 101];

/// Namespace tag of the validator records: the bytes of "validator".
pub const SEED_VALIDATOR: [u8; 9] = [118, 97, 108, 105, 100, 97, 116, 111, 114];

/// The bytes of the program's own key, under which every address is derived.
pub open spec fn program_id() -> Seq<u8> {
    seq![
        253u8, 168, 117, 113, 124, 23, 134, 36, 59, 209, 85, 227, 111, 63, 116, 210,
        149, 249, 197, 96, 198, 168, 156, 112, 233, 93, 209, 198, 127, 251, 21, 27,
    ]
}

/// The program's own key.
pub fn id() -> (key: Pubkey)
    ensures
        key@ == program_id(),
{
    let key = Pubkey {
        bytes: [
            253u8, 168, 117, 113, 124, 23, 134, 36, 59, 209, 85, 227, 111, 63, 116, 210,
            149, 249, 197, 96, 198, 168, 156, 112, 233, 93, 209, 198, 127, 251, 21, 27,
        ],
    };
    assert(key@ =~= program_id());
    key
}

/// What the program-address search of the Solana SDK yields for a list of
/// seeds under a program key: the derived address with its bump seed, or
/// `None` where the search finds no address.
pub uninterp spec fn program_address(seeds: Seq<Seq<u8>>, program_id: Seq<u8>) -> Option<
    (Seq<u8>, u8),
>;

/// The byte strings that a list of seeds holds, in order.
pub open spec fn seed_views(seeds: Seq<Vec<u8>>) -> Seq<Seq<u8>> {
    seeds.map_values(|seed: Vec<u8>| seed@)
}

/// Whether a list of seeds is more than a derivation takes: sixteen seeds
/// or more, or a seed of more than 32 bytes.
pub open spec fn seeds_out_of_range(seeds: Seq<Seq<u8>>) -> bool {
    seeds.len() >= 16 || exists|i: int| 0 <= i < seeds.len() && (#[trigger] seeds[i]).len() > 32
}

/// `Pubkey::try_find_program_address` of the Solana SDK, as `anchor_lang`
/// hands it on. The search is a function of the seeds and the program key
/// alone. The contract names its outcome and claims of it only what the
/// SDK documents: that there is none for seeds out of range.
#[verifier::external_body]
fn try_find_program_address(seeds: &Vec<Vec<u8>>, program_id: &Pubkey) -> (found: Option<
    (Pubkey, u8),
>)
    ensures
        found matches Some((address, bump)) ==> program_address(
            seed_views(seeds@),
            program_id@,
        ) == Some((address@, bump)),
        found is None ==> program_address(seed_views(seeds@), program_id@) is None,
        seeds_out_of_range(seed_views(seeds@)) ==> found is None,
{
    let parts: Vec<&[u8]> = seeds.iter().map(|seed| seed.as_slice()).collect();
    let program = anchor_lang::prelude::Pubkey::new_from_array(program_id.bytes);
    match anchor_lang::prelude::Pubkey::try_find_program_address(&parts, &program) {
        Some((address, bump)) => Some((Pubkey { bytes: address.to_bytes() }, bump)),
        None => None,
    }
}

/// The address derived under this program for a list of seeds, with its
/// nonce, where there is one.
pub open spec fn derived(seeds: Seq<Seq<u8>>) -> Option<(Seq<u8>, u8)> {
    program_address(seeds, program_id())
}

/// Whether `address` with `nonce` is what the derivation yields for `seeds`.
pub open spec fn derives_to(seeds: Seq<Seq<u8>>, address: Pubkey, nonce: u8) -> bool {
    derived(seeds) == Some((address@, nonce))
}

/// The seeds of the configuration record: its namespace tag alone.
pub open spec fn state_seeds() -> Seq<Seq<u8>> {
    seq![SEED_STATE@]
}

/// The seeds of the validator record of `owner`: the namespace tag, then the
/// owner's key.
pub open spec fn validator_seeds(owner: Pubkey) -> Seq<Seq<u8>> {
    seq![SEED_VALIDATOR@, owner@]
}

/// Copies a byte string into a vector.
fn seed_of(bytes: &[u8]) -> (seed: Vec<u8>)
    ensures
        seed@ == bytes@,
{
    let mut seed: Vec<u8> = Vec::new();
    let mut i: usize = 0;
    while i < bytes.len()
        invariant
            0 <= i <= bytes@.len(),
            seed@ == bytes@.take(i as int),
        decreases bytes@.len() - i,
    {
        seed.push(bytes[i]);
        assert(bytes@.take(i + 1) =~= bytes@.take(i as int).push(bytes@[i as int]));
        i += 1;
    }
    assert(bytes@.take(i as int) =~= bytes@);
    seed
}

/// Derives the address for a list of seeds under this program.
///
/// The result is `None` exactly where the derivation yields no address, as
/// it does for seeds out of range; otherwise it is the derived address and
/// its nonce.
pub fn derive_address(seeds: &Vec<Vec<u8>>) -> (found: Option<(Pubkey, u8)>)
    ensures
        found matches Some((address, nonce)) ==> derives_to(seed_views(seeds@), address, nonce),
        found is None <==> derived(seed_views(seeds@)) is None,
        seeds_out_of_range(seed_views(seeds@)) ==> found is None,
{
    let program = id();
    try_find_program_address(seeds, &program)
}

/// Derives the address of the configuration record.
pub fn state_address() -> (found: Option<(Pubkey, u8)>)
    ensures
        found matches Some((address, nonce)) ==> derives_to(state_seeds(), address, nonce),
        found is None <==> derived(state_seeds()) is None,
{
    let mut seeds: Vec<Vec<u8>> = Vec::new();
    seeds.push(seed_of(&SEED_STATE));
    assert(seed_views(seeds@) =~= state_seeds());
    derive_address(&seeds)
}

/// Derives the address of the validator record of `owner`.
pub fn validator_address(owner: &Pubkey) -> (found: Option<(Pubkey, u8)>)
    ensures
        found matches Some((address, nonce)) ==> derives_to(
            validator_seeds(*owner),
            address,
            nonce,
        ),
        found is None <==> derived(validator_seeds(*owner)) is None,
{
    let mut seeds: Vec<Vec<u8>> = Vec::new();
    seeds.push(seed_of(&SEED_VALIDATOR));
    seeds.push(seed_of(&owner.bytes));
    assert(seed_views(seeds@) =~= validator_seeds(*owner));
    derive_address(&seeds)
}

} // verus!
