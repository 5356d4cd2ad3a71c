use vstd::prelude::*;

use crate::helper::PROGRAM_ID_BYTES;
use crate::pubkey::Pubkey;
use vstd::slice::slice_to_vec;

verus! {

/// Seed of the router's signing authority: the ASCII bytes of "okx_sa".
pub const SEED_SA: [u8; 6] = [111, 107, 120, 95, 115, 97];

/// Bump of the router's signing authority.
pub const BUMP_SA: u8 = 251;

/// Numerator of the lower bound (95%) on the amount actually taken in, checked after a swap.
pub const ACTUAL_IN_LOWER_BOUND_NUM: u128 = 95;

/// Denominator of that lower bound.
pub const ACTUAL_IN_LOWER_BOUND_DEN: u128 = 100;

/// The instruction tag of a Deriverse swap.
pub const DERIVERSE_INSTRUCTION_TAG: u8 = 26;

/// The Deriverse layout version the router speaks.
pub const DERIVERSE_VERSION: u32 = 1;

/// The router's authority address, HV1KXxWFaSeriyFvXyx48FqG9BoFbfinB8njCJonqP7K, as bytes.
pub const AUTHORITY_PDA_BYTES: [u8; 32] = [
    244, 231, 157, 98, 207, 105, 184, 124, 23, 212, 197, 191, 32, 118, 192, 120,
    36, 42, 55, 37, 188, 253, 111, 161, 111, 107, 218, 150, 76, 223, 206, 86,
];

/// The all-zero address.
pub fn zero_address() -> (r: Pubkey)
    ensures
        forall|i: int| 0 <= i < 32 ==> r.bytes@[i] == 0,
{
    Pubkey { bytes: [0u8; 32] }
}

/// The router's authority address.
pub fn authority_pda_id() -> (r: Pubkey)
    ensures
        r.bytes == AUTHORITY_PDA_BYTES,
{
    Pubkey { bytes: AUTHORITY_PDA_BYTES }
}

/// The Deriverse program that the adapter calls.
pub fn deriverse_program_id() -> (r: Pubkey)
    ensures
        r.bytes == PROGRAM_ID_BYTES,
{
    Pubkey { bytes: PROGRAM_ID_BYTES }
}

/// The signer seeds of the router's authority: one seed set, `SEED_SA` followed by the
/// single-byte bump `BUMP_SA`.
pub fn sa_authority_seed() -> (r: Vec<Vec<Vec<u8>>>)
    ensures
        r.deep_view() == seq![seq![SEED_SA@, seq![BUMP_SA]]],
{
    let seed = slice_to_vec(&SEED_SA);
    let mut bump: Vec<u8> = Vec::new();
    bump.push(BUMP_SA);
    assert(seed.deep_view() =~= SEED_SA@);
    assert(bump.deep_view() =~= seq![BUMP_SA]);
    let mut set: Vec<Vec<u8>> = Vec::new();
    set.push(seed);
    set.push(bump);
    assert(set.deep_view() =~= seq![SEED_SA@, seq![BUMP_SA]]);
    let mut r: Vec<Vec<Vec<u8>>> = Vec::new();
    r.push(set);
    assert(r.deep_view() =~= seq![seq![SEED_SA@, seq![BUMP_SA]]]);
    r
}

} // verus!
