use deriverse::constants::{
    authority_pda_id, deriverse_program_id, sa_authority_seed, zero_address, BUMP_SA, AUTHORITY_PDA_BYTES, DERIVERSE_INSTRUCTION_TAG,
    DERIVERSE_VERSION, SEED_SA,
};
use deriverse::helper::{
    get_seed_bytes, get_seed_bytes_by_id, get_token_seed_bytes, program_id, version, AccountTypes, Helper,
    Version, DRVS_SEED, PROGRAM_ID_BYTES, VERSION_NUMBER,
};
use deriverse::pdas::{get_remaning_pdas, InstrAccountHeader, REMAINING_PDAS_LEN};
use deriverse::pubkey::Pubkey;
use std::str::FromStr;

type SolKey = solana_sdk::pubkey::Pubkey;

fn sol_program_id() -> SolKey {
    SolKey::from_str("DRVSpZ2YUYYKgZP8XtLhAGtT1zYSCKzeHfb4DgRnrgqD").unwrap()
}

fn sol_pda(seeds: &[&[u8]]) -> [u8; 32] {
    SolKey::find_program_address(seeds, &sol_program_id()).0.to_bytes()
}

fn sol_auth() -> [u8; 32] {
    sol_pda(&[b"ndxnt"])
}

fn key(b: u8) -> Pubkey {
    let mut bytes = [0u8; 32];
    for (i, x) in bytes.iter_mut().enumerate() {
        *x = b.wrapping_add(i as u8);
    }
    Pubkey::new_from_array(bytes)
}

fn types() -> AccountTypes {
    AccountTypes {
        root: 1,
        instr: 2,
        spot_bids_tree: 3,
        spot_asks_tree: 4,
        spot_bid_orders: 5,
        spot_ask_orders: 6,
        spot_lines: 7,
        spot_maps: 8,
        spot_client_infos: 9,
        spot_client_infos2: 10,
        spot_1m_candles: 11,
        spot_15m_candles: 12,
        spot_day_candles: 13,
        community: 14,
        client_primary: 15,
        client_community: 16,
    }
}

#[test]
fn constants_match_their_text_forms() {
    assert_eq!(&DRVS_SEED, b"ndxnt");
    assert_eq!(&SEED_SA, b"okx_sa");
    assert_eq!(BUMP_SA, 251);
    assert_eq!(sa_authority_seed(), vec![vec![b"okx_sa".to_vec(), vec![251u8]]]);
    assert_eq!(PROGRAM_ID_BYTES, sol_program_id().to_bytes());
    assert_eq!(program_id().to_bytes(), sol_program_id().to_bytes());
    assert_eq!(deriverse_program_id(), program_id());
    assert_eq!(
        AUTHORITY_PDA_BYTES,
        SolKey::from_str("HV1KXxWFaSeriyFvXyx48FqG9BoFbfinB8njCJonqP7K").unwrap().to_bytes()
    );
    assert_eq!(authority_pda_id().to_bytes(), AUTHORITY_PDA_BYTES);
    assert_eq!(zero_address().to_bytes(), [0u8; 32]);
    assert_eq!(DERIVERSE_INSTRUCTION_TAG, 26);
    assert_eq!(DERIVERSE_VERSION, 1);
    assert_eq!(VERSION_NUMBER, 1);
    assert_eq!(version().0, 1);
}

#[test]
fn pubkey_equality_compares_all_bytes() {
    let a = key(3);
    let mut b_bytes = a.to_bytes();
    assert!(a == Pubkey::new_from_array(b_bytes));
    b_bytes[31] ^= 1;
    assert!(a != Pubkey::new_from_array(b_bytes));
    b_bytes[31] ^= 1;
    b_bytes[0] ^= 0x80;
    assert!(a != Pubkey::new_from_array(b_bytes));
}

#[test]
fn version_bytes_are_little_endian() {
    assert_eq!(Version(0x0403_0201).to_le_bytes(), [1, 2, 3, 4]);
}

#[test]
fn seed_bytes_by_id_layout() {
    let s = get_seed_bytes_by_id(Version(1), 0x0a0b_0c0d, 7, 0xffff_fffe);
    assert_eq!(s, [1, 0, 0, 0, 0x0d, 0x0c, 0x0b, 0x0a, 7, 0, 0, 0, 0xfe, 0xff, 0xff, 0xff]);
}

#[test]
fn seed_bytes_layout() {
    assert_eq!(get_seed_bytes(Version(2), 0x0100), [2, 0, 0, 0, 0, 1, 0, 0]);
}

#[test]
fn token_seed_takes_mint_prefix_then_version() {
    let mint = key(100);
    let s = get_token_seed_bytes(Version(0x0102_0304), &mint);
    assert_eq!(&s[0..28], &mint.to_bytes()[0..28]);
    assert_eq!(&s[28..32], &[4, 3, 2, 1]);
}

#[test]
fn token_seed_ignores_last_four_mint_bytes() {
    let a = key(9);
    let mut other = a.to_bytes();
    other[30] ^= 0xff;
    let b = Pubkey::new_from_array(other);
    assert_eq!(get_token_seed_bytes(Version(1), &a), get_token_seed_bytes(Version(1), &b));
    assert_eq!(a.new_token_acc(), b.new_token_acc());
}

#[test]
fn drvs_auth_is_the_program_address_of_the_seed() {
    let auth = Pubkey::get_drvs_auth().unwrap();
    assert_eq!(auth.to_bytes(), sol_auth());
    assert_ne!(auth.to_bytes(), PROGRAM_ID_BYTES);
}

#[test]
fn spot_account_uses_id_seed_and_authority() {
    let acc = Pubkey::new_spot_acc(5, 11, 12).unwrap();
    let seed = get_seed_bytes_by_id(Version(1), 5, 11, 12);
    let auth = sol_auth();
    assert_eq!(acc.to_bytes(), sol_pda(&[&seed, &auth]));
    assert_ne!(acc, Pubkey::new_spot_acc(5, 12, 11).unwrap());
}

#[test]
fn plain_account_uses_tag_seed_and_authority() {
    let acc = Pubkey::new_acc(14).unwrap();
    let seed = get_seed_bytes(Version(1), 14);
    assert_eq!(acc.to_bytes(), sol_pda(&[&seed, &sol_auth()]));
}

#[test]
fn token_account_uses_token_seed_and_authority() {
    let mint = key(42);
    let acc = mint.new_token_acc().unwrap();
    let seed = get_token_seed_bytes(Version(1), &mint);
    assert_eq!(acc.to_bytes(), sol_pda(&[&seed, &sol_auth()]));
}

#[test]
fn client_accounts_use_the_wallet_as_second_seed() {
    let wallet = key(77);
    let t = types();
    let primary = wallet.new_client_primary_acc(&t).unwrap();
    let community = wallet.new_client_community_acc(&t).unwrap();
    let ps = get_seed_bytes(Version(1), t.client_primary);
    let cs = get_seed_bytes(Version(1), t.client_community);
    assert_eq!(primary.to_bytes(), sol_pda(&[&ps, &wallet.to_bytes()]));
    assert_eq!(community.to_bytes(), sol_pda(&[&cs, &wallet.to_bytes()]));
    assert_ne!(primary, community);
}

#[test]
fn remaining_pdas_follow_the_swap_account_order() {
    let t = types();
    let header = InstrAccountHeader {
        asset_token_id: 3,
        crncy_token_id: 1,
        asset_mint: key(10),
        crncy_mint: key(200),
    };
    let pdas = get_remaning_pdas(header, &t).unwrap();
    assert_eq!(pdas.len(), REMAINING_PDAS_LEN);
    let auth = sol_auth();
    let spot = |tag: u32| sol_pda(&[&get_seed_bytes_by_id(Version(1), tag, 3, 1), &auth]);
    let plain = |tag: u32| sol_pda(&[&get_seed_bytes(Version(1), tag), &auth]);
    let token = |m: &Pubkey| sol_pda(&[&get_token_seed_bytes(Version(1), m), &auth]);
    let expected: Vec<[u8; 32]> = vec![
        plain(t.root),
        spot(t.instr),
        spot(t.spot_bids_tree),
        spot(t.spot_asks_tree),
        spot(t.spot_bid_orders),
        spot(t.spot_ask_orders),
        spot(t.spot_lines),
        spot(t.spot_maps),
        spot(t.spot_client_infos),
        spot(t.spot_client_infos2),
        spot(t.spot_1m_candles),
        spot(t.spot_15m_candles),
        spot(t.spot_day_candles),
        plain(t.community),
        token(&header.asset_mint),
        token(&header.crncy_mint),
        auth,
    ];
    let got: Vec<[u8; 32]> = pdas.iter().map(|k| k.to_bytes()).collect();
    assert_eq!(got, expected);
}
