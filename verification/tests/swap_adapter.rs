use deriverse::common_swap::HopAccounts;
use deriverse::constants::DERIVERSE_INSTRUCTION_TAG;
use deriverse::deriverse::{
    require_accounts_len, AccountInfo, AccountMeta, DeriverseProcessor, DeriverseSwapAccounts,
    DeriverseSwapData, ErrorCode, TokenState, ACCOUNTS_LEN, SWAP_DATA_LEN,
};
use deriverse::helper::program_id;
use deriverse::pubkey::Pubkey;

fn key(b: u8) -> Pubkey {
    Pubkey::new_from_array([b; 32])
}

const ASSET_PROGRAM: u8 = 200;
const CRNCY_PROGRAM: u8 = 201;

const ASSET_MINT: u8 = 5;
const CRNCY_MINT: u8 = 6;

/// A router list: two unrelated accounts, then the 28 swap accounts keyed 0..28, with the
/// token programs at their places (keys 200 and 201) and the mints at theirs (keys 5 and 6).
/// The user's source and destination accounts hold the given mints and have the given owners.
fn router_list(source_mint: u8, source_owner: u8, destination_mint: u8, destination_owner: u8) -> Vec<AccountInfo> {
    let mut v = vec![
        AccountInfo { key: key(250), owner: key(0), mint: None },
        AccountInfo { key: key(251), owner: key(0), mint: None },
    ];
    for i in 0..28u8 {
        let (owner, mint) = match i {
            1 => (key(source_owner), Some(key(source_mint))),
            2 => (key(destination_owner), Some(key(destination_mint))),
            _ => (key(0), None),
        };
        let k = match i {
            25 => key(ASSET_PROGRAM),
            26 => key(CRNCY_PROGRAM),
            _ => key(i),
        };
        v.push(AccountInfo { key: k, owner, mint });
    }
    v
}

/// A router list whose user accounts are owned by the given programs, each holding the mint
/// of the side that its owner serves.
fn router_accounts(source_owner: u8, destination_owner: u8) -> Vec<AccountInfo> {
    let mint_of = |p: u8| if p == CRNCY_PROGRAM { CRNCY_MINT } else { ASSET_MINT };
    router_list(mint_of(source_owner), source_owner, mint_of(destination_owner), destination_owner)
}

#[test]
fn swap_data_to_bytes_layout() {
    let d = DeriverseSwapData {
        tag: 26,
        input_crncy: 1,
        padding_u16: 0x0201,
        instr_id: 0x0605_0403,
        price: -2,
        amount: 0x0102_0304_0506_0708,
    };
    let b = d.to_bytes();
    assert_eq!(b.len(), SWAP_DATA_LEN);
    assert_eq!(
        b,
        vec![
            26, 1, 1, 2, 3, 4, 5, 6, 0xfe, 0xff, 0xff, 0xff, 0xff, 0xff, 0xff, 0xff, 8, 7, 6, 5, 4,
            3, 2, 1
        ]
    );
    assert_eq!(SWAP_DATA_LEN, 24);
}

#[test]
fn swap_data_bytes_decode_back() {
    let d = DeriverseSwapData {
        tag: 9,
        input_crncy: 0,
        padding_u16: 7,
        instr_id: 123456,
        price: i64::MIN,
        amount: -1,
    };
    let b = d.to_bytes();
    assert_eq!(b[0], d.tag);
    assert_eq!(b[1], d.input_crncy);
    assert_eq!(u16::from_le_bytes([b[2], b[3]]), d.padding_u16);
    assert_eq!(u32::from_le_bytes(b[4..8].try_into().unwrap()), d.instr_id);
    assert_eq!(i64::from_le_bytes(b[8..16].try_into().unwrap()), d.price);
    assert_eq!(i64::from_le_bytes(b[16..24].try_into().unwrap()), d.amount);
}

#[test]
fn create_data_reads_instrument_id_and_sets_direction() {
    let mut instr = vec![0u8; 40];
    instr[8..12].copy_from_slice(&0xdead_beefu32.to_le_bytes());
    let data = DeriverseSwapAccounts::<AccountInfo>::create_data(&instr, true, 1_000);
    let expected = DeriverseSwapData {
        tag: DERIVERSE_INSTRUCTION_TAG,
        input_crncy: 1,
        padding_u16: 0,
        instr_id: 0xdead_beef,
        price: 0,
        amount: 1_000,
    }
    .to_bytes();
    assert_eq!(data, expected);
    let sell = DeriverseSwapAccounts::<AccountInfo>::create_data(&instr[..12], false, u64::MAX);
    assert_eq!(sell[1], 0);
    assert_eq!(i64::from_le_bytes(sell[16..24].try_into().unwrap()), -1);
}

#[test]
fn accounts_length_check() {
    assert_eq!(require_accounts_len(30, 2), Ok(()));
    assert_eq!(require_accounts_len(29, 2), Err(ErrorCode::InvalidAccountsLength));
    assert_eq!(require_accounts_len(28, 0), Ok(()));
    assert_eq!(require_accounts_len(10, 20), Err(ErrorCode::InvalidAccountsLength));
    assert_eq!(require_accounts_len(usize::MAX, usize::MAX), Err(ErrorCode::InvalidAccountsLength));
    assert_eq!(ACCOUNTS_LEN, 28);
}

#[test]
fn parse_accounts_picks_the_window_at_offset() {
    let v: Vec<u32> = (100..140).collect();
    let a = DeriverseSwapAccounts::parse_accounts(&v, 5).unwrap();
    assert_eq!(*a.authority, 105);
    assert_eq!(*a.source_token_acc, 106);
    assert_eq!(*a.destination_token_acc, 107);
    assert_eq!(*a.drvs_vault_asset_token_acc, 108);
    assert_eq!(*a.drvs_vault_crncy_token_acc, 109);
    assert_eq!(*a.asset_mint, 110);
    assert_eq!(*a.crncy_mint, 111);
    assert_eq!(*a.root, 112);
    assert_eq!(*a.instrument, 113);
    assert_eq!(*a.map, 119);
    assert_eq!(*a.community, 125);
    assert_eq!(*a.drvs_auth, 128);
    assert_eq!(*a.system_program, 129);
    assert_eq!(*a.asset_token_program, 130);
    assert_eq!(*a.crncy_token_program, 131);
    assert_eq!(*a.associated_token_program, 132);
}

#[test]
fn currency_input_detected() {
    let v = router_accounts(CRNCY_PROGRAM, ASSET_PROGRAM);
    let a = DeriverseSwapAccounts::parse_accounts(&v, 2).unwrap();
    assert_eq!(a.is_crncy_input(), Ok(true));
}

#[test]
fn asset_input_detected() {
    let v = router_accounts(ASSET_PROGRAM, CRNCY_PROGRAM);
    let a = DeriverseSwapAccounts::parse_accounts(&v, 2).unwrap();
    assert_eq!(a.is_crncy_input(), Ok(false));
}

#[test]
fn foreign_source_owner_refused() {
    let v = router_list(CRNCY_MINT, 7, ASSET_MINT, ASSET_PROGRAM);
    let a = DeriverseSwapAccounts::parse_accounts(&v, 2).unwrap();
    assert_eq!(a.is_crncy_input(), Err(ErrorCode::InvalidSourceTokenAccount));
    let v = router_list(ASSET_MINT, CRNCY_PROGRAM, CRNCY_MINT, CRNCY_PROGRAM);
    let a = DeriverseSwapAccounts::parse_accounts(&v, 2).unwrap();
    assert_eq!(a.is_crncy_input(), Err(ErrorCode::InvalidSourceTokenAccount));
    let v = router_list(99, 7, ASSET_MINT, ASSET_PROGRAM);
    let a = DeriverseSwapAccounts::parse_accounts(&v, 2).unwrap();
    assert_eq!(a.is_crncy_input(), Err(ErrorCode::InvalidSourceTokenAccount));
}

#[test]
fn source_without_pair_mint_decided_by_owner() {
    let v = router_list(99, CRNCY_PROGRAM, ASSET_MINT, ASSET_PROGRAM);
    let a = DeriverseSwapAccounts::parse_accounts(&v, 2).unwrap();
    assert_eq!(a.is_crncy_input(), Ok(true));
    let v = router_list(99, ASSET_PROGRAM, 98, CRNCY_PROGRAM);
    let a = DeriverseSwapAccounts::parse_accounts(&v, 2).unwrap();
    assert_eq!(a.is_crncy_input(), Ok(false));
    let mut v = router_accounts(CRNCY_PROGRAM, ASSET_PROGRAM);
    v[3].mint = None;
    let a = DeriverseSwapAccounts::parse_accounts(&v, 2).unwrap();
    assert_eq!(a.is_crncy_input(), Ok(true));
}

#[test]
fn destination_mint_not_checked() {
    let v = router_list(CRNCY_MINT, CRNCY_PROGRAM, 99, ASSET_PROGRAM);
    let a = DeriverseSwapAccounts::parse_accounts(&v, 2).unwrap();
    assert_eq!(a.is_crncy_input(), Ok(true));
    let mut v = router_list(ASSET_MINT, ASSET_PROGRAM, CRNCY_MINT, CRNCY_PROGRAM);
    v[4].mint = None;
    let a = DeriverseSwapAccounts::parse_accounts(&v, 2).unwrap();
    assert_eq!(a.is_crncy_input(), Ok(false));
}

#[test]
fn wrong_destination_owner_refused() {
    let v = router_list(CRNCY_MINT, CRNCY_PROGRAM, ASSET_MINT, CRNCY_PROGRAM);
    let a = DeriverseSwapAccounts::parse_accounts(&v, 2).unwrap();
    assert_eq!(a.is_crncy_input(), Err(ErrorCode::InvalidDestinationTokenAccount));
    let v = router_list(ASSET_MINT, ASSET_PROGRAM, CRNCY_MINT, ASSET_PROGRAM);
    let a = DeriverseSwapAccounts::parse_accounts(&v, 2).unwrap();
    assert_eq!(a.is_crncy_input(), Err(ErrorCode::InvalidDestinationTokenAccount));
}

/// A pair whose two sides share one token program (both SPL Token, as in SOL-USDC).
fn shared_program_list(source_mint: u8, destination_mint: u8) -> Vec<AccountInfo> {
    let mut v = router_list(source_mint, CRNCY_PROGRAM, destination_mint, CRNCY_PROGRAM);
    v[2 + 25].key = key(CRNCY_PROGRAM);
    v
}

#[test]
fn shared_token_program_direction_follows_source_mint() {
    let v = shared_program_list(ASSET_MINT, CRNCY_MINT);
    let a = DeriverseSwapAccounts::parse_accounts(&v, 2).unwrap();
    assert_eq!(a.is_crncy_input(), Ok(false));
    let v = shared_program_list(CRNCY_MINT, ASSET_MINT);
    let a = DeriverseSwapAccounts::parse_accounts(&v, 2).unwrap();
    assert_eq!(a.is_crncy_input(), Ok(true));
}

#[test]
fn exchanging_user_accounts_flips_direction_and_data_flag() {
    let mut instr = vec![0u8; 12];
    instr[8] = 4;
    for (s, d) in [(ASSET_MINT, CRNCY_MINT), (CRNCY_MINT, ASSET_MINT)] {
        let v = shared_program_list(s, d);
        let mut w = v.clone();
        w.swap(3, 4);
        let a = DeriverseSwapAccounts::parse_accounts(&v, 2).unwrap();
        let b = DeriverseSwapAccounts::parse_accounts(&w, 2).unwrap();
        let da = a.is_crncy_input().unwrap();
        let db = b.is_crncy_input().unwrap();
        assert_eq!(db, !da);
        assert_eq!(da, s == CRNCY_MINT);
        let xa = DeriverseSwapAccounts::<AccountInfo>::create_data(&instr, da, 10);
        let xb = DeriverseSwapAccounts::<AccountInfo>::create_data(&instr, db, 10);
        assert_eq!(xb[1], 1 - xa[1]);
        let ka: Vec<Pubkey> = a.get_account_metas(da).iter().map(|m| m.pubkey).collect();
        let kb: Vec<Pubkey> = b.get_account_metas(db).iter().map(|m| m.pubkey).collect();
        assert_eq!(ka, kb);
    }
}

fn expected_order(input_is_crncy: bool) -> Vec<u8> {
    let (ca, cc) = if input_is_crncy { (2, 1) } else { (1, 2) };
    vec![
        0, 7, 8, 9, 10, 11, 12, 13, 14, 15, 16, 17, 18, 19, 20, 3, 4, 5, 6, 21, 22, ca, cc, 23, 24,
        ASSET_PROGRAM, CRNCY_PROGRAM, 27,
    ]
}

#[test]
fn account_metas_order_and_flags() {
    let v = router_accounts(CRNCY_PROGRAM, ASSET_PROGRAM);
    let a = DeriverseSwapAccounts::parse_accounts(&v, 2).unwrap();
    for d in [true, false] {
        let metas = a.get_account_metas(d);
        assert_eq!(metas.len(), ACCOUNTS_LEN);
        let keys: Vec<u8> = metas.iter().map(|m| m.pubkey.to_bytes()[0]).collect();
        assert_eq!(keys, expected_order(d));
        let readonly = [1usize, 14, 17, 18, 19, 20, 23, 24, 25, 26, 27];
        for (i, m) in metas.iter().enumerate() {
            assert_eq!(m.is_signer, i == 0);
            assert_eq!(m.is_writable, !readonly.contains(&i));
        }
    }
}

#[test]
fn account_infos_match_metas() {
    let v = router_accounts(ASSET_PROGRAM, CRNCY_PROGRAM);
    let a = DeriverseSwapAccounts::parse_accounts(&v, 2).unwrap();
    for d in [true, false] {
        let infos = a.get_account_infos(d);
        let metas = a.get_account_metas(d);
        assert_eq!(infos.len(), ACCOUNTS_LEN);
        for (info, meta) in infos.iter().zip(metas.iter()) {
            assert_eq!(info.key, meta.pubkey);
        }
    }
}

#[test]
fn direction_only_swaps_client_accounts() {
    let v = router_accounts(ASSET_PROGRAM, CRNCY_PROGRAM);
    let a = DeriverseSwapAccounts::parse_accounts(&v, 2).unwrap();
    let t = a.get_account_infos(true);
    let f = a.get_account_infos(false);
    for i in 0..ACCOUNTS_LEN {
        if i == 21 || i == 22 {
            continue;
        }
        assert_eq!(t[i].key, f[i].key);
    }
    assert_eq!(t[21].key, f[22].key);
    assert_eq!(t[22].key, f[21].key);
}

#[test]
fn instruction_uses_each_account_once() {
    let v = router_accounts(ASSET_PROGRAM, CRNCY_PROGRAM);
    let a = DeriverseSwapAccounts::parse_accounts(&v, 2).unwrap();
    for d in [true, false] {
        let mut keys: Vec<u8> = a.get_account_infos(d).iter().map(|x| x.key.to_bytes()[0]).collect();
        keys.sort();
        let mut all: Vec<u8> = v[2..30].iter().map(|x| x.key.to_bytes()[0]).collect();
        all.sort();
        assert_eq!(keys, all);
    }
}

#[test]
fn swap_instruction_targets_deriverse() {
    let v = router_accounts(CRNCY_PROGRAM, ASSET_PROGRAM);
    let a = DeriverseSwapAccounts::parse_accounts(&v, 2).unwrap();
    let ix = a.swap_instruction(true, vec![1, 2, 3]);
    assert_eq!(ix.program_id, program_id());
    assert_eq!(ix.data, vec![1, 2, 3]);
    assert_eq!(ix.accounts.len(), ACCOUNTS_LEN);
    assert_eq!(ix.accounts[0].pubkey, key(0));
}

#[test]
fn account_meta_constructors() {
    let m = AccountMeta::new(key(1), true);
    assert!(m.is_signer && m.is_writable);
    let r = AccountMeta::new_readonly(key(1), false);
    assert!(!r.is_signer && !r.is_writable);
}

#[test]
fn token_state_address_from_raw() {
    let mut raw = vec![0u8; 8];
    raw.extend_from_slice(&[7u8; 32]);
    raw.extend_from_slice(&[9u8; 16]);
    assert_eq!(TokenState::get_address_from_raw(&raw), key(7));
}

#[test]
fn plain_types_construct() {
    let _p = DeriverseProcessor;
    let h = HopAccounts { last_to_account: key(1), from_account: key(2), to_account: key(3) };
    assert_eq!(h.to_account, key(3));
}
