use vstd::prelude::*;

use crate::pubkey::Pubkey;

verus! {

/// What `Pubkey::try_find_program_address` of solana-pubkey returns for the given seeds and
/// program id: the first off-curve SHA-256 derivation found while trying bump seeds
/// 255 down to 1, with that bump, or `None` when no bump works or the seeds exceed the
/// solana limits.
pub uninterp spec fn program_address(seeds: Seq<Seq<u8>>, program_id: Seq<u8>) -> Option<(Seq<u8>, u8)>;

/// The address part of `program_address`, if there is one.
pub open spec fn pda_key(seeds: Seq<Seq<u8>>, program_id: Seq<u8>) -> Option<Seq<u8>> {
    match program_address(seeds, program_id) {
        Some((key, _bump)) => Some(key),
        None => None,
    }
}

/// `key` holds exactly the address that `spec` names (both absent, or both present and equal).
pub open spec fn key_matches(key: Option<Pubkey>, spec: Option<Seq<u8>>) -> bool {
    match (key, spec) {
        (Some(k), Some(s)) => k.bytes@ == s,
        (None, None) => true,
        _ => false,
    }
}

/// Calls `solana_pubkey::Pubkey::try_find_program_address` (through solana-sdk's re-export).
/// Trusted: the result is `program_address` of the seeds and the program id, taken by value;
/// nothing about the hash itself is claimed.
#[verifier::external_body]
pub(crate) fn try_find_program_address(seeds: &Vec<Vec<u8>>, program_id: &Pubkey) -> (r: Option<(Pubkey, u8)>)
    ensures
        r matches Some((k, b)) ==> program_address(seeds.deep_view(), program_id.bytes@) == Some((k.bytes@, b)),
        r is None ==> program_address(seeds.deep_view(), program_id.bytes@) is None,
{
    let seed_refs: Vec<&[u8]> = seeds.iter().map(|s| s.as_slice()).collect();
    let pid = solana_sdk::pubkey::Pubkey::new_from_array(program_id.bytes);
    solana_sdk::pubkey::Pubkey::try_find_program_address(&seed_refs, &pid)
        .map(|(k, b)| (Pubkey { bytes: k.to_bytes() }, b))
}

/// Derives the program address for `seeds` under `program_id`, keeping only the address.
pub(crate) fn find_program_key(seeds: &Vec<Vec<u8>>, program_id: &Pubkey) -> (r: Option<Pubkey>)
    ensures
        key_matches(r, pda_key(seeds.deep_view(), program_id.bytes@)),
{
    match try_find_program_address(seeds, program_id) {
        Some((k, _)) => Some(k),
        None => None,
    }
}

/// Derivation is deterministic: two results that both match the same derivation are the same
/// address (or both absent).
pub proof fn lemma_derivation_deterministic(r1: Option<Pubkey>, r2: Option<Pubkey>, spec: Option<Seq<u8>>)
    requires
        key_matches(r1, spec),
        key_matches(r2, spec),
    ensures
        r1 == r2,
{
    if let (Some(k1), Some(k2)) = (r1, r2) {
        assert(k1.bytes =~= k2.bytes);
    }
}

} // verus!
