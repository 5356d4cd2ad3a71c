use vstd::prelude::*;
use vstd::slice::slice_to_vec;

use crate::bytes::{le_bytes_u32, le_value, lemma_le_u32_roundtrip, u32_le, write_at};
use crate::pda::{find_program_key, key_matches, pda_key};
use crate::pubkey::Pubkey;

verus! {

/// The layout version that prefixes every Deriverse seed.
#[derive(Clone, Copy, Debug)]
pub struct Version(pub u32);

impl Version {
    /// The version number as 4 little-endian bytes.
    pub fn to_le_bytes(&self) -> (r: [u8; 4])
        ensures
            r@ == le_bytes_u32(self.0),
    {
        u32_le(self.0)
    }
}

/// The seed prefix of the Deriverse program authority: the ASCII bytes of "ndxnt".
pub const DRVS_SEED: [u8; 5] = [110, 100, 120, 110, 116];

/// The Deriverse program id, DRVSpZ2YUYYKgZP8XtLhAGtT1zYSCKzeHfb4DgRnrgqD, as bytes.
pub const PROGRAM_ID_BYTES: [u8; 32] = [
    184, 146, 88, 120, 156, 149, 46, 15, 20, 189, 171, 42, 112, 85, 133, 19,
    93, 162, 180, 52, 71, 178, 16, 180, 117, 76, 210, 193, 93, 33, 16, 160,
];

/// The layout version used for every derived address.
pub const VERSION_NUMBER: u32 = 1;

/// The Deriverse program id.
pub fn program_id() -> (r: Pubkey)
    ensures
        r.bytes == PROGRAM_ID_BYTES,
{
    Pubkey { bytes: PROGRAM_ID_BYTES }
}

/// The layout version used for every derived address.
pub fn version() -> (r: Version)
    ensures
        r.0 == VERSION_NUMBER,
{
    Version(VERSION_NUMBER)
}

/// Seed of an account keyed by two ids: version, tag, id and id2, each 4 bytes little-endian.
pub open spec fn seed_bytes_by_id(version: u32, tag: u32, id: u32, id2: u32) -> Seq<u8> {
    le_bytes_u32(version) + le_bytes_u32(tag) + le_bytes_u32(id)
        + le_bytes_u32(id2)
}

/// Seed of a token account: the first 28 bytes of the mint, then the version little-endian.
pub open spec fn token_seed_bytes(version: u32, mint: Seq<u8>) -> Seq<u8> {
    mint.subrange(0, 28) + le_bytes_u32(version)
}

/// Seed of a plain account: version then tag, each 4 bytes little-endian.
pub open spec fn seed_bytes(version: u32, tag: u32) -> Seq<u8> {
    le_bytes_u32(version) + le_bytes_u32(tag)
}

/// Lays out version, tag, id and id2 as 16 little-endian bytes.
pub fn get_seed_bytes_by_id(version: Version, tag: u32, id: u32, id2: u32) -> (res: [u8; 16])
    ensures
        res@ == seed_bytes_by_id(version.0, tag, id, id2),
        le_value(res@.subrange(0, 4)) == version.0,
        le_value(res@.subrange(4, 8)) == tag,
        le_value(res@.subrange(8, 12)) == id,
        le_value(res@.subrange(12, 16)) == id2,
{
    proof {
        lemma_seed_bytes_by_id_fields(version.0, tag, id, id2);
    }
    let mut res = [0u8; 16];
    let v = version.to_le_bytes();
    write_at(&mut res, 0, &v);
    let t = u32_le(tag);
    write_at(&mut res, 4, &t);
    let a = u32_le(id);
    write_at(&mut res, 8, &a);
    let b = u32_le(id2);
    write_at(&mut res, 12, &b);
    assert(res@ =~= seed_bytes_by_id(version.0, tag, id, id2));
    res
}

/// Lays out the first 28 bytes of the mint followed by the version, 32 bytes in all.
pub fn get_token_seed_bytes(version: Version, mint: &Pubkey) -> (res: [u8; 32])
    ensures
        res@ == token_seed_bytes(version.0, mint.bytes@),
        res@.subrange(0, 28) == mint.bytes@.subrange(0, 28),
        le_value(res@.subrange(28, 32)) == version.0,
{
    proof {
        lemma_token_seed_fields(version.0, mint.bytes@);
    }
    let mut res = [0u8; 32];
    let m = mint.to_bytes();
    let head = vstd::slice::slice_subrange(&m, 0, 28);
    write_at(&mut res, 0, head);
    let v = version.to_le_bytes();
    write_at(&mut res, 28, &v);
    assert(res@ =~= token_seed_bytes(version.0, mint.bytes@));
    res
}

/// Lays out version and tag as 8 little-endian bytes.
pub fn get_seed_bytes(version: Version, tag: u32) -> (res: [u8; 8])
    ensures
        res@ == seed_bytes(version.0, tag),
        le_value(res@.subrange(0, 4)) == version.0,
        le_value(res@.subrange(4, 8)) == tag,
{
    proof {
        lemma_seed_bytes_fields(version.0, tag);
    }
    let mut res = [0u8; 8];
    let v = version.to_le_bytes();
    write_at(&mut res, 0, &v);
    let t = u32_le(tag);
    write_at(&mut res, 4, &t);
    assert(res@ =~= seed_bytes(version.0, tag));
    res
}


/// The account-type tags that Deriverse mixes into its seeds, one per kind of account.
#[derive(Clone, Copy, Debug)]
pub struct AccountTypes {
    pub root: u32,
    pub instr: u32,
    pub spot_bids_tree: u32,
    pub spot_asks_tree: u32,
    pub spot_bid_orders: u32,
    pub spot_ask_orders: u32,
    pub spot_lines: u32,
    pub spot_maps: u32,
    pub spot_client_infos: u32,
    pub spot_client_infos2: u32,
    pub spot_1m_candles: u32,
    pub spot_15m_candles: u32,
    pub spot_day_candles: u32,
    pub community: u32,
    pub client_primary: u32,
    pub client_community: u32,
}

/// The seed list of the program authority: the single seed `DRVS_SEED`.
pub open spec fn drvs_auth_seeds() -> Seq<Seq<u8>> {
    seq![DRVS_SEED@]
}

/// Address of the Deriverse program authority.
pub open spec fn drvs_auth_key() -> Option<Seq<u8>> {
    pda_key(drvs_auth_seeds(), PROGRAM_ID_BYTES@)
}

/// Address derived from `seed` and the program authority, when both derivations succeed.
pub open spec fn under_auth_key(seed: Seq<u8>) -> Option<Seq<u8>> {
    match drvs_auth_key() {
        Some(auth) => pda_key(seq![seed, auth], PROGRAM_ID_BYTES@),
        None => None,
    }
}

/// Address of the spot account of kind `tag` for the pair of token ids.
pub open spec fn spot_acc_key(tag: u32, asset_token_id: u32, crncy_token_id: u32) -> Option<Seq<u8>> {
    under_auth_key(seed_bytes_by_id(VERSION_NUMBER, tag, asset_token_id, crncy_token_id))
}

/// Address of Deriverse's token-state account for `mint`.
pub open spec fn token_acc_key(mint: Seq<u8>) -> Option<Seq<u8>> {
    under_auth_key(token_seed_bytes(VERSION_NUMBER, mint))
}

/// Address of the protocol-wide account of kind `tag`.
pub open spec fn acc_key(tag: u32) -> Option<Seq<u8>> {
    under_auth_key(seed_bytes(VERSION_NUMBER, tag))
}

/// Address of the client account of kind `tag` belonging to the wallet `client`.
pub open spec fn client_acc_key(tag: u32, client: Seq<u8>) -> Option<Seq<u8>> {
    pda_key(seq![seed_bytes(VERSION_NUMBER, tag), client], PROGRAM_ID_BYTES@)
}

fn seed_list(a: &[u8], b: &[u8]) -> (r: Vec<Vec<u8>>)
    ensures
        r.deep_view() == seq![a@, b@],
{
    let va = slice_to_vec(a);
    let vb = slice_to_vec(b);
    assert(va.deep_view() =~= a@);
    assert(vb.deep_view() =~= b@);
    let mut r: Vec<Vec<u8>> = Vec::new();
    r.push(va);
    r.push(vb);
    assert(r.deep_view() =~= seq![a@, b@]);
    r
}

fn auth_derived(seed: &[u8]) -> (r: Option<Pubkey>)
    ensures
        key_matches(r, under_auth_key(seed@)),
{
    match Pubkey::get_drvs_auth() {
        Some(auth) => find_program_key(&seed_list(seed, &auth.bytes), &program_id()),
        None => None,
    }
}

/// Derivation of the Deriverse accounts. An address is `None` only where the underlying
/// program-address search finds none.
pub trait Helper: Sized {
    /// The Deriverse program authority.
    fn get_drvs_auth() -> Option<Self>;

    /// The spot account of kind `tag` for the pair of token ids.
    fn new_spot_acc(tag: u32, asset_token_id: u32, crncy_token_id: u32) -> Option<Self>;

    /// Deriverse's token-state account for the mint `self`.
    fn new_token_acc(&self) -> Option<Self>;

    /// The protocol-wide account of kind `tag`.
    fn new_acc(tag: u32) -> Option<Self>;

    /// The primary client account of the wallet `self`.
    fn new_client_primary_acc(&self, account_types: &AccountTypes) -> Option<Self>;

    /// The community client account of the wallet `self`.
    fn new_client_community_acc(&self, account_types: &AccountTypes) -> Option<Self>;
}

impl Helper for Pubkey {
    /// The program authority, derived from `DRVS_SEED` alone.
    fn get_drvs_auth() -> (r: Option<Pubkey>)
        ensures
            key_matches(r, drvs_auth_key()),
    {
        let seed = slice_to_vec(&DRVS_SEED);
        assert(seed.deep_view() =~= DRVS_SEED@);
        let mut seeds: Vec<Vec<u8>> = Vec::new();
        seeds.push(seed);
        assert(seeds.deep_view() =~= drvs_auth_seeds());
        find_program_key(&seeds, &program_id())
    }

    /// The spot account of kind `tag` for a pair, derived from its id seed and the authority.
    fn new_spot_acc(tag: u32, asset_token_id: u32, crncy_token_id: u32) -> (r: Option<Pubkey>)
        ensures
            key_matches(r, spot_acc_key(tag, asset_token_id, crncy_token_id)),
    {
        let seed = get_seed_bytes_by_id(version(), tag, asset_token_id, crncy_token_id);
        auth_derived(&seed)
    }

    /// Deriverse's token-state account for the mint `self`.
    fn new_token_acc(&self) -> (r: Option<Pubkey>)
        ensures
            key_matches(r, token_acc_key(self.bytes@)),
    {
        let seed = get_token_seed_bytes(version(), self);
        auth_derived(&seed)
    }

    /// The protocol-wide account of kind `tag`.
    fn new_acc(tag: u32) -> (r: Option<Pubkey>)
        ensures
            key_matches(r, acc_key(tag)),
    {
        let seed = get_seed_bytes(version(), tag);
        auth_derived(&seed)
    }

    /// The primary client account of the wallet `self`.
    fn new_client_primary_acc(&self, account_types: &AccountTypes) -> (r: Option<Pubkey>)
        ensures
            key_matches(r, client_acc_key(account_types.client_primary, self.bytes@)),
    {
        let seed = get_seed_bytes(version(), account_types.client_primary);
        find_program_key(&seed_list(&seed, &self.bytes), &program_id())
    }

    /// The community client account of the wallet `self`.
    fn new_client_community_acc(&self, account_types: &AccountTypes) -> (r: Option<Pubkey>)
        ensures
            key_matches(r, client_acc_key(account_types.client_community, self.bytes@)),
    {
        let seed = get_seed_bytes(version(), account_types.client_community);
        find_program_key(&seed_list(&seed, &self.bytes), &program_id())
    }
}


/// Distinct (version, tag, id, id2) give distinct seeds: each field can be read back.
pub proof fn lemma_seed_bytes_by_id_injective(
    v1: u32, t1: u32, a1: u32, b1: u32,
    v2: u32, t2: u32, a2: u32, b2: u32,
)
    requires
        seed_bytes_by_id(v1, t1, a1, b1) == seed_bytes_by_id(v2, t2, a2, b2),
    ensures
        v1 == v2 && t1 == t2 && a1 == a2 && b1 == b2,
{
    lemma_le_u32_roundtrip(v1);
    lemma_le_u32_roundtrip(v2);
    lemma_le_u32_roundtrip(t1);
    lemma_le_u32_roundtrip(t2);
    lemma_le_u32_roundtrip(a1);
    lemma_le_u32_roundtrip(a2);
    lemma_le_u32_roundtrip(b1);
    lemma_le_u32_roundtrip(b2);
    let s1 = seed_bytes_by_id(v1, t1, a1, b1);
    let s2 = seed_bytes_by_id(v2, t2, a2, b2);
    assert(s1.subrange(0, 4) =~= le_bytes_u32(v1));
    assert(s2.subrange(0, 4) =~= le_bytes_u32(v2));
    assert(s1.subrange(4, 8) =~= le_bytes_u32(t1));
    assert(s2.subrange(4, 8) =~= le_bytes_u32(t2));
    assert(s1.subrange(8, 12) =~= le_bytes_u32(a1));
    assert(s2.subrange(8, 12) =~= le_bytes_u32(a2));
    assert(s1.subrange(12, 16) =~= le_bytes_u32(b1));
    assert(s2.subrange(12, 16) =~= le_bytes_u32(b2));
}

/// Distinct (version, tag) give distinct seeds.
pub proof fn lemma_seed_bytes_injective(v1: u32, t1: u32, v2: u32, t2: u32)
    requires
        seed_bytes(v1, t1) == seed_bytes(v2, t2),
    ensures
        v1 == v2 && t1 == t2,
{
    lemma_le_u32_roundtrip(v1);
    lemma_le_u32_roundtrip(v2);
    lemma_le_u32_roundtrip(t1);
    lemma_le_u32_roundtrip(t2);
    let s1 = seed_bytes(v1, t1);
    let s2 = seed_bytes(v2, t2);
    assert(s1.subrange(0, 4) =~= le_bytes_u32(v1));
    assert(s2.subrange(0, 4) =~= le_bytes_u32(v2));
    assert(s1.subrange(4, 8) =~= le_bytes_u32(t1));
    assert(s2.subrange(4, 8) =~= le_bytes_u32(t2));
}

/// A token seed is determined by the version and the first 28 bytes of the mint, and
/// determines them: two mints that agree on their first 28 bytes share one token-state
/// account, and mints that differ there get distinct seeds.
pub proof fn lemma_token_seed_reads_mint_prefix(v1: u32, m1: Seq<u8>, v2: u32, m2: Seq<u8>)
    requires
        m1.len() == 32,
        m2.len() == 32,
    ensures
        (token_seed_bytes(v1, m1) == token_seed_bytes(v2, m2)) <==> (v1 == v2 && m1.subrange(0, 28)
            == m2.subrange(0, 28)),
        m1.subrange(0, 28) == m2.subrange(0, 28) ==> token_acc_key(m1) == token_acc_key(m2),
{
    if m1.subrange(0, 28) == m2.subrange(0, 28) {
        assert(token_seed_bytes(VERSION_NUMBER, m1) == token_seed_bytes(VERSION_NUMBER, m2));
    }
    lemma_le_u32_roundtrip(v1);
    lemma_le_u32_roundtrip(v2);
    let s1 = token_seed_bytes(v1, m1);
    let s2 = token_seed_bytes(v2, m2);
    if s1 == s2 {
        assert(s1.subrange(0, 28) =~= m1.subrange(0, 28));
        assert(s2.subrange(0, 28) =~= m2.subrange(0, 28));
        assert(s1.subrange(28, 32) =~= le_bytes_u32(v1));
        assert(s2.subrange(28, 32) =~= le_bytes_u32(v2));
    }
}

/// An id seed is 16 bytes holding, each little-endian at its own place, the version
/// (bytes 0..4), the tag (4..8), the first id (8..12) and the second id (12..16).
pub proof fn lemma_seed_bytes_by_id_fields(version: u32, tag: u32, id: u32, id2: u32)
    ensures
        seed_bytes_by_id(version, tag, id, id2).len() == 16,
        le_value(seed_bytes_by_id(version, tag, id, id2).subrange(0, 4)) == version,
        le_value(seed_bytes_by_id(version, tag, id, id2).subrange(4, 8)) == tag,
        le_value(seed_bytes_by_id(version, tag, id, id2).subrange(8, 12)) == id,
        le_value(seed_bytes_by_id(version, tag, id, id2).subrange(12, 16)) == id2,
{
    let s = seed_bytes_by_id(version, tag, id, id2);
    lemma_le_u32_roundtrip(version);
    lemma_le_u32_roundtrip(tag);
    lemma_le_u32_roundtrip(id);
    lemma_le_u32_roundtrip(id2);
    assert(s.subrange(0, 4) =~= le_bytes_u32(version));
    assert(s.subrange(4, 8) =~= le_bytes_u32(tag));
    assert(s.subrange(8, 12) =~= le_bytes_u32(id));
    assert(s.subrange(12, 16) =~= le_bytes_u32(id2));
}

/// A plain seed is 8 bytes holding the version little-endian at bytes 0..4 and the tag at
/// bytes 4..8.
pub proof fn lemma_seed_bytes_fields(version: u32, tag: u32)
    ensures
        seed_bytes(version, tag).len() == 8,
        le_value(seed_bytes(version, tag).subrange(0, 4)) == version,
        le_value(seed_bytes(version, tag).subrange(4, 8)) == tag,
{
    let s = seed_bytes(version, tag);
    lemma_le_u32_roundtrip(version);
    lemma_le_u32_roundtrip(tag);
    assert(s.subrange(0, 4) =~= le_bytes_u32(version));
    assert(s.subrange(4, 8) =~= le_bytes_u32(tag));
}

/// A token seed is 32 bytes: the first 28 bytes of the mint, unchanged and in place, then
/// the version little-endian at bytes 28..32.
pub proof fn lemma_token_seed_fields(version: u32, mint: Seq<u8>)
    requires
        mint.len() == 32,
    ensures
        token_seed_bytes(version, mint).len() == 32,
        token_seed_bytes(version, mint).subrange(0, 28) == mint.subrange(0, 28),
        forall|i: int| 0 <= i < 28 ==> token_seed_bytes(version, mint)[i] == #[trigger] mint[i],
        le_value(token_seed_bytes(version, mint).subrange(28, 32)) == version,
{
    let s = token_seed_bytes(version, mint);
    lemma_le_u32_roundtrip(version);
    assert(s.subrange(0, 28) =~= mint.subrange(0, 28));
    assert(s.subrange(28, 32) =~= le_bytes_u32(version));
}

/// Seeds that differ only in which id comes first name different accounts' seeds: the first
/// id and the second id are not interchangeable (the asset id goes first).
pub proof fn lemma_seed_ids_ordered(version: u32, tag: u32, id: u32, id2: u32)
    requires
        id != id2,
    ensures
        seed_bytes_by_id(version, tag, id, id2) != seed_bytes_by_id(version, tag, id2, id),
{
    lemma_seed_bytes_by_id_fields(version, tag, id, id2);
    lemma_seed_bytes_by_id_fields(version, tag, id2, id);
}

} // verus!
