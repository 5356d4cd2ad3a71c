use vstd::prelude::*;
use vstd::slice::slice_to_vec;

use crate::bytes::{
    le_bytes_u16, le_bytes_u32, le_bytes_u64, le_value, lemma_le_bytes_u32_of_value, lemma_le_u16_roundtrip, lemma_le_u32_roundtrip, lemma_le_u64_roundtrip,
    u16_le, u32_from_le,
    u32_le, u64_le,
};

use crate::constants::{deriverse_program_id, DERIVERSE_INSTRUCTION_TAG};
use crate::helper::PROGRAM_ID_BYTES;
use crate::pubkey::Pubkey;

verus! {

/// Errors that the Deriverse swap adapter reports.
#[derive(Clone, Copy, Debug, PartialEq, Eq, Structural)]
pub enum ErrorCode {
    /// Fewer accounts follow the offset than a Deriverse swap needs.
    InvalidAccountsLength,
    /// The source token account is owned by neither token program of the pair.
    InvalidSourceTokenAccount,
    /// The destination token account is not owned by the token program of the other side.
    InvalidDestinationTokenAccount,
}

/// The instruction data of a Deriverse swap, laid out as the on-chain program reads it.
#[derive(Clone, Copy, Debug)]
pub struct DeriverseSwapData {
    /// The instruction tag, `DERIVERSE_INSTRUCTION_TAG` for a swap.
    pub tag: u8,
    /// 1 when the user pays in the currency token, 0 when the user pays in the asset token.
    pub input_crncy: u8,
    pub padding_u16: u16,
    pub instr_id: u32,
    pub price: i64,
    pub amount: i64,
}

/// Byte length of `DeriverseSwapData` (its `repr(C)` size).
pub const SWAP_DATA_LEN: usize = 24;

impl DeriverseSwapData {
    /// The wire image: tag, input flag, then padding, instrument id, price and amount, each
    /// little-endian (the signed fields in two's complement).
    pub open spec fn spec_bytes(self) -> Seq<u8> {
        seq![self.tag, self.input_crncy] + le_bytes_u16(self.padding_u16) + le_bytes_u32(
            self.instr_id,
        ) + le_bytes_u64(self.price as u64) + le_bytes_u64(self.amount as u64)
    }

    /// Serializes the swap data into its 24-byte wire image.
    pub fn to_bytes(&self) -> (buf: Vec<u8>)
        ensures
            buf@ == self.spec_bytes(),
            buf@.len() == SWAP_DATA_LEN,
    {
        let mut buf = Vec::<u8>::with_capacity(SWAP_DATA_LEN);
        buf.push(self.tag);
        buf.push(self.input_crncy);
        let mut p = slice_to_vec(&u16_le(self.padding_u16));
        buf.append(&mut p);
        let mut i = slice_to_vec(&u32_le(self.instr_id));
        buf.append(&mut i);
        let mut pr = slice_to_vec(&u64_le(self.price as u64));
        buf.append(&mut pr);
        let mut a = slice_to_vec(&u64_le(self.amount as u64));
        buf.append(&mut a);
        proof {
            lemma_le_u16_roundtrip(self.padding_u16);
            lemma_le_u32_roundtrip(self.instr_id);
            lemma_le_u64_roundtrip(self.price as u64);
            lemma_le_u64_roundtrip(self.amount as u64);
        }
        assert(buf@ =~= self.spec_bytes());
        buf
    }
}

/// What the swap reads of an account: its address, the program that owns it, and the first
/// 32 bytes of its data, which for a token account are the mint of the token it holds
/// (`None` when the data is shorter).
#[derive(Clone, Copy, Debug)]
pub struct AccountInfo {
    pub key: Pubkey,
    pub owner: Pubkey,
    pub mint: Option<Pubkey>,
}

/// One account of an instruction, with its signer and writable flags.
#[derive(Clone, Copy, Debug)]
pub struct AccountMeta {
    pub pubkey: Pubkey,
    pub is_signer: bool,
    pub is_writable: bool,
}

impl AccountMeta {
    /// A writable account.
    pub fn new(pubkey: Pubkey, is_signer: bool) -> (r: AccountMeta)
        ensures
            r == (AccountMeta { pubkey, is_signer, is_writable: true }),
    {
        AccountMeta { pubkey, is_signer, is_writable: true }
    }

    /// A read-only account.
    pub fn new_readonly(pubkey: Pubkey, is_signer: bool) -> (r: AccountMeta)
        ensures
            r == (AccountMeta { pubkey, is_signer, is_writable: false }),
    {
        AccountMeta { pubkey, is_signer, is_writable: false }
    }
}

/// A cross-program call: the program, its accounts and its data.
#[derive(Debug)]
pub struct Instruction {
    pub program_id: Pubkey,
    pub accounts: Vec<AccountMeta>,
    pub data: Vec<u8>,
}

/// Number of accounts that a Deriverse swap takes from the router's account list.
pub const ACCOUNTS_LEN: usize = 28;

/// The 28 accounts of a Deriverse swap, each a reference into the router's account list.
pub struct DeriverseSwapAccounts<'a, A> {
    pub authority: &'a A,
    pub source_token_acc: &'a A,
    pub destination_token_acc: &'a A,
    pub root: &'a A,
    pub instrument: &'a A,
    pub bids_tree: &'a A,
    pub asks_tree: &'a A,
    pub bid_orders: &'a A,
    pub ask_orders: &'a A,
    pub lines: &'a A,
    pub map: &'a A,
    pub spot_client_infos: &'a A,
    pub spot_client_infos2: &'a A,
    pub candles_1m: &'a A,
    pub candles_15m: &'a A,
    pub candles_day: &'a A,
    pub community: &'a A,
    pub drvs_vault_asset_token_acc: &'a A,
    pub drvs_vault_crncy_token_acc: &'a A,
    pub asset_mint: &'a A,
    pub crncy_mint: &'a A,
    pub drvs_asset_token_state: &'a A,
    pub drvs_crncy_token_state: &'a A,
    pub drvs_auth: &'a A,
    pub system_program: &'a A,
    pub asset_token_program: &'a A,
    pub crncy_token_program: &'a A,
    pub associated_token_program: &'a A,
}

/// Whether the account at position `i` of the swap instruction is writable.
pub open spec fn instruction_writable(i: int) -> bool {
    !(i == 1 || i == 14 || i == 17 || i == 18 || i == 19 || i == 20 || i == 23 || i == 24 || i == 25 || i == 26 || i == 27)
}

/// Whether the account at position `i` of the swap instruction signs: only the authority.
pub open spec fn instruction_signer(i: int) -> bool {
    i == 0
}

impl<'a, A> DeriverseSwapAccounts<'a, A> {
    /// The accounts in the order of the router's list, from the offset on.
    pub open spec fn parsed_order(&self) -> Seq<A> {
        seq![
            *self.authority,
            *self.source_token_acc,
            *self.destination_token_acc,
            *self.drvs_vault_asset_token_acc,
            *self.drvs_vault_crncy_token_acc,
            *self.asset_mint,
            *self.crncy_mint,
            *self.root,
            *self.instrument,
            *self.bids_tree,
            *self.asks_tree,
            *self.bid_orders,
            *self.ask_orders,
            *self.lines,
            *self.map,
            *self.spot_client_infos,
            *self.spot_client_infos2,
            *self.candles_1m,
            *self.candles_15m,
            *self.candles_day,
            *self.community,
            *self.drvs_asset_token_state,
            *self.drvs_crncy_token_state,
            *self.drvs_auth,
            *self.system_program,
            *self.asset_token_program,
            *self.crncy_token_program,
            *self.associated_token_program,
        ]
    }

    /// The user's token account on the asset side: the destination when the user pays in
    /// currency, else the source.
    pub open spec fn client_asset_token_acc(&self, input_is_crncy: bool) -> A {
        if input_is_crncy { *self.destination_token_acc } else { *self.source_token_acc }
    }

    /// The user's token account on the currency side.
    pub open spec fn client_crncy_token_acc(&self, input_is_crncy: bool) -> A {
        if input_is_crncy { *self.source_token_acc } else { *self.destination_token_acc }
    }

    /// The accounts in the order that the Deriverse swap instruction takes them.
    pub open spec fn instruction_order(&self, input_is_crncy: bool) -> Seq<A> {
        seq![
            *self.authority,
            *self.root,
            *self.instrument,
            *self.bids_tree,
            *self.asks_tree,
            *self.bid_orders,
            *self.ask_orders,
            *self.lines,
            *self.map,
            *self.spot_client_infos,
            *self.spot_client_infos2,
            *self.candles_1m,
            *self.candles_15m,
            *self.candles_day,
            *self.community,
            *self.drvs_vault_asset_token_acc,
            *self.drvs_vault_crncy_token_acc,
            *self.asset_mint,
            *self.crncy_mint,
            *self.drvs_asset_token_state,
            *self.drvs_crncy_token_state,
            self.client_asset_token_acc(input_is_crncy),
            self.client_crncy_token_acc(input_is_crncy),
            *self.drvs_auth,
            *self.system_program,
            *self.asset_token_program,
            *self.crncy_token_program,
            *self.associated_token_program,
        ]
    }

    /// Picks the 28 swap accounts that start at `offset`.
    pub fn parse_accounts(accounts: &'a [A], offset: usize) -> (r: Result<Self, ErrorCode>)
        requires
            offset + ACCOUNTS_LEN <= accounts@.len(),
        ensures
            r matches Ok(s) && s.parsed_order() == accounts@.subrange(
                offset as int,
                offset + ACCOUNTS_LEN,
            ),
    {
        let len = accounts.len();
        assert(offset + ACCOUNTS_LEN <= len);
        let authority = vstd::slice::slice_index_get(accounts, offset);
        let source_token_acc = vstd::slice::slice_index_get(accounts, offset + 1);
        let destination_token_acc = vstd::slice::slice_index_get(accounts, offset + 2);
        let drvs_vault_asset_token_acc = vstd::slice::slice_index_get(accounts, offset + 3);
        let drvs_vault_crncy_token_acc = vstd::slice::slice_index_get(accounts, offset + 4);
        let asset_mint = vstd::slice::slice_index_get(accounts, offset + 5);
        let crncy_mint = vstd::slice::slice_index_get(accounts, offset + 6);
        let root = vstd::slice::slice_index_get(accounts, offset + 7);
        let instrument = vstd::slice::slice_index_get(accounts, offset + 8);
        let bids_tree = vstd::slice::slice_index_get(accounts, offset + 9);
        let asks_tree = vstd::slice::slice_index_get(accounts, offset + 10);
        let bid_orders = vstd::slice::slice_index_get(accounts, offset + 11);
        let ask_orders = vstd::slice::slice_index_get(accounts, offset + 12);
        let lines = vstd::slice::slice_index_get(accounts, offset + 13);
        let map = vstd::slice::slice_index_get(accounts, offset + 14);
        let spot_client_infos = vstd::slice::slice_index_get(accounts, offset + 15);
        let spot_client_infos2 = vstd::slice::slice_index_get(accounts, offset + 16);
        let candles_1m = vstd::slice::slice_index_get(accounts, offset + 17);
        let candles_15m = vstd::slice::slice_index_get(accounts, offset + 18);
        let candles_day = vstd::slice::slice_index_get(accounts, offset + 19);
        let community = vstd::slice::slice_index_get(accounts, offset + 20);
        let drvs_asset_token_state = vstd::slice::slice_index_get(accounts, offset + 21);
        let drvs_crncy_token_state = vstd::slice::slice_index_get(accounts, offset + 22);
        let drvs_auth = vstd::slice::slice_index_get(accounts, offset + 23);
        let system_program = vstd::slice::slice_index_get(accounts, offset + 24);
        let asset_token_program = vstd::slice::slice_index_get(accounts, offset + 25);
        let crncy_token_program = vstd::slice::slice_index_get(accounts, offset + 26);
        let associated_token_program = vstd::slice::slice_index_get(accounts, offset + 27);
        let s = DeriverseSwapAccounts {
            authority,
            source_token_acc,
            destination_token_acc,
            root,
            instrument,
            bids_tree,
            asks_tree,
            bid_orders,
            ask_orders,
            lines,
            map,
            spot_client_infos,
            spot_client_infos2,
            candles_1m,
            candles_15m,
            candles_day,
            community,
            drvs_vault_asset_token_acc,
            drvs_vault_crncy_token_acc,
            asset_mint,
            crncy_mint,
            drvs_asset_token_state,
            drvs_crncy_token_state,
            drvs_auth,
            system_program,
            asset_token_program,
            crncy_token_program,
            associated_token_program,
        };
        assert(s.parsed_order() =~= accounts@.subrange(offset as int, offset + ACCOUNTS_LEN));
        Ok(s)
    }

    /// The accounts to hand to the swap call, in instruction order.
    pub fn get_account_infos(&self, input_is_crncy: bool) -> (r: Vec<&'a A>)
        ensures
            r@.len() == ACCOUNTS_LEN,
            forall|i: int| 0 <= i < ACCOUNTS_LEN ==> *(#[trigger] r@[i]) == self.instruction_order(input_is_crncy)[i],
    {
        let (client_asset_token_acc, client_crncy_token_acc) = if input_is_crncy {
            (self.destination_token_acc, self.source_token_acc)
        } else {
            (self.source_token_acc, self.destination_token_acc)
        };
        let mut r: Vec<&'a A> = Vec::new();
        r.push(self.authority);
        r.push(self.root);
        r.push(self.instrument);
        r.push(self.bids_tree);
        r.push(self.asks_tree);
        r.push(self.bid_orders);
        r.push(self.ask_orders);
        r.push(self.lines);
        r.push(self.map);
        r.push(self.spot_client_infos);
        r.push(self.spot_client_infos2);
        r.push(self.candles_1m);
        r.push(self.candles_15m);
        r.push(self.candles_day);
        r.push(self.community);
        r.push(self.drvs_vault_asset_token_acc);
        r.push(self.drvs_vault_crncy_token_acc);
        r.push(self.asset_mint);
        r.push(self.crncy_mint);
        r.push(self.drvs_asset_token_state);
        r.push(self.drvs_crncy_token_state);
        r.push(client_asset_token_acc);
        r.push(client_crncy_token_acc);
        r.push(self.drvs_auth);
        r.push(self.system_program);
        r.push(self.asset_token_program);
        r.push(self.crncy_token_program);
        r.push(self.associated_token_program);
        assert forall|i: int| 0 <= i < ACCOUNTS_LEN implies *(#[trigger] r@[i]) == self.instruction_order(input_is_crncy)[i] by {
        }
        r
    }
}

/// The instruction's account list: each account's address with its flags, in instruction order.
pub open spec fn instruction_metas(order: Seq<AccountInfo>) -> Seq<AccountMeta> {
    Seq::new(order.len(), |i: int| AccountMeta {
        pubkey: order[i].key,
        is_signer: instruction_signer(i),
        is_writable: instruction_writable(i),
    })
}

/// The swap data for a trade of `amount_in` on the instrument whose account data is
/// `instr_data`, paying in currency when `input_is_crncy`.
pub open spec fn swap_data(instr_data: Seq<u8>, input_is_crncy: bool, amount_in: u64) -> DeriverseSwapData {
    DeriverseSwapData {
        tag: DERIVERSE_INSTRUCTION_TAG,
        input_crncy: if input_is_crncy { 1u8 } else { 0u8 },
        padding_u16: 0,
        instr_id: le_value(instr_data.subrange(8, 12)) as u32,
        price: 0,
        amount: amount_in as i64,
    }
}

/// The router's length check: at least `ACCOUNTS_LEN` accounts from `offset` on.
pub fn require_accounts_len(accounts_len: usize, offset: usize) -> (r: Result<(), ErrorCode>)
    ensures
        r is Ok <==> offset + ACCOUNTS_LEN <= accounts_len,
        r is Err ==> r == Err::<(), ErrorCode>(ErrorCode::InvalidAccountsLength),
{
    if offset <= accounts_len && accounts_len - offset >= ACCOUNTS_LEN {
        Ok(())
    } else {
        Err(ErrorCode::InvalidAccountsLength)
    }
}

/// The adapter's processor for the router's common swap steps.
pub struct DeriverseProcessor;

/// The token-state account of Deriverse, as laid out on chain.
#[derive(Clone, Copy, Debug)]
pub struct TokenState {
    pub discriminator: (u32, u32),
    pub address: Pubkey,
    pub program_address: Pubkey,
    pub id: u32,
    pub mask: u32,
    pub reserved: u32,
    pub base_crncy_index: u32,
}

impl TokenState {
    /// The mint address stored in a raw token-state account: bytes 8..40, after the
    /// 8-byte discriminator.
    pub fn get_address_from_raw(data: &[u8]) -> (r: Pubkey)
        requires
            data@.len() >= 40,
        ensures
            r.bytes@ == data@.subrange(8, 40),
    {
        let mut bytes = [0u8; 32];
        crate::bytes::write_at(&mut bytes, 0, vstd::slice::slice_subrange(data, 8, 40));
        assert(bytes@ =~= data@.subrange(8, 40));
        Pubkey { bytes }
    }
}

/// Which side the user pays with, or why the token accounts do not fit the pair.
/// The user pays in currency when the source token account holds the currency mint, in the
/// asset when it holds the asset mint; when it holds neither, the side is the one whose
/// token program owns it (currency if the currency program). The source must then be owned
/// by the token program of the side it pays with, and the destination by the token program
/// of the other side.
pub open spec fn crncy_input_result(
    asset_mint: Pubkey,
    crncy_mint: Pubkey,
    asset_token_program: Pubkey,
    crncy_token_program: Pubkey,
    source: AccountInfo,
    destination: AccountInfo,
) -> Result<bool, ErrorCode> {
    let input_is_crncy = if source.mint == Some(crncy_mint) {
        true
    } else if source.mint == Some(asset_mint) {
        false
    } else {
        source.owner == crncy_token_program
    };
    let source_program = if input_is_crncy { crncy_token_program } else { asset_token_program };
    let destination_program = if input_is_crncy { asset_token_program } else { crncy_token_program };
    if source.owner != source_program {
        Err(ErrorCode::InvalidSourceTokenAccount)
    } else if destination.owner != destination_program {
        Err(ErrorCode::InvalidDestinationTokenAccount)
    } else {
        Ok(input_is_crncy)
    }
}

/// The direction decided by the owning programs alone: currency when the currency token
/// program owns the source, else asset; then the same owner checks.
pub open spec fn crncy_input_by_owner(
    asset_token_program: Pubkey,
    crncy_token_program: Pubkey,
    source_owner: Pubkey,
    destination_owner: Pubkey,
) -> Result<bool, ErrorCode> {
    if source_owner == crncy_token_program {
        if destination_owner == asset_token_program {
            Ok(true)
        } else {
            Err(ErrorCode::InvalidDestinationTokenAccount)
        }
    } else if source_owner == asset_token_program {
        if destination_owner == crncy_token_program {
            Ok(false)
        } else {
            Err(ErrorCode::InvalidDestinationTokenAccount)
        }
    } else {
        Err(ErrorCode::InvalidSourceTokenAccount)
    }
}

/// Whether the account holds the token of `mint`.
fn holds_mint(m: &Option<Pubkey>, mint: &Pubkey) -> (r: bool)
    ensures
        r == (*m == Some(*mint)),
{
    match m {
        Some(k) => keys_eq(k, mint),
        None => false,
    }
}

/// Whether two addresses are the same.
fn keys_eq(a: &Pubkey, b: &Pubkey) -> (r: bool)
    ensures
        r == (*a == *b),
{
    proof {
        if a.bytes@ == b.bytes@ {
            assert(a.bytes =~= b.bytes);
        }
    }
    *a == *b
}

impl<'a> DeriverseSwapAccounts<'a, AccountInfo> {
    /// Whether the user pays in the currency token: decided by the mint that the source token
    /// account holds, or, when it holds neither of the pair's mints, by the token program that
    /// owns it. The source must be owned by the token program of the side it pays with, and
    /// the destination by the token program of the other side.
    pub fn is_crncy_input(&self) -> (r: Result<bool, ErrorCode>)
        ensures
            r == crncy_input_result(
                self.asset_mint.key,
                self.crncy_mint.key,
                self.asset_token_program.key,
                self.crncy_token_program.key,
                *self.source_token_acc,
                *self.destination_token_acc,
            ),
    {
        let input_is_crncy = if holds_mint(&self.source_token_acc.mint, &self.crncy_mint.key) {
            true
        } else if holds_mint(&self.source_token_acc.mint, &self.asset_mint.key) {
            false
        } else {
            keys_eq(&self.crncy_token_program.key, &self.source_token_acc.owner)
        };
        let (source_program, destination_program) = if input_is_crncy {
            (&self.crncy_token_program.key, &self.asset_token_program.key)
        } else {
            (&self.asset_token_program.key, &self.crncy_token_program.key)
        };
        if !keys_eq(source_program, &self.source_token_acc.owner) {
            return Err(ErrorCode::InvalidSourceTokenAccount);
        }
        if !keys_eq(destination_program, &self.destination_token_acc.owner) {
            return Err(ErrorCode::InvalidDestinationTokenAccount);
        }
        Ok(input_is_crncy)
    }

    /// The account list of the swap instruction: the authority signs, the accounts that the
    /// swap changes are writable, the rest read-only.
    pub fn get_account_metas(&self, input_is_crncy: bool) -> (r: Vec<AccountMeta>)
        ensures
            r@ == instruction_metas(self.instruction_order(input_is_crncy)),
            r@.len() == ACCOUNTS_LEN,
            forall|i: int| 0 <= i < ACCOUNTS_LEN ==> {
                &&& (#[trigger] r@[i]).pubkey == self.instruction_order(input_is_crncy)[i].key
                &&& r@[i].is_signer == (i == 0)
                &&& r@[i].is_writable == !(i == 1 || i == 14 || i == 17 || i == 18 || i == 19
                    || i == 20 || i == 23 || i == 24 || i == 25 || i == 26 || i == 27)
            },
    {
        proof {
            lemma_metas_flags_by_position(self.instruction_order(input_is_crncy));
        }
        let (client_asset_token_acc, client_crncy_token_acc) = if input_is_crncy {
            (self.destination_token_acc, self.source_token_acc)
        } else {
            (self.source_token_acc, self.destination_token_acc)
        };
        let mut r: Vec<AccountMeta> = Vec::new();
        r.push(AccountMeta::new(self.authority.key, true));
        r.push(AccountMeta::new_readonly(self.root.key, false));
        r.push(AccountMeta::new(self.instrument.key, false));
        r.push(AccountMeta::new(self.bids_tree.key, false));
        r.push(AccountMeta::new(self.asks_tree.key, false));
        r.push(AccountMeta::new(self.bid_orders.key, false));
        r.push(AccountMeta::new(self.ask_orders.key, false));
        r.push(AccountMeta::new(self.lines.key, false));
        r.push(AccountMeta::new(self.map.key, false));
        r.push(AccountMeta::new(self.spot_client_infos.key, false));
        r.push(AccountMeta::new(self.spot_client_infos2.key, false));
        r.push(AccountMeta::new(self.candles_1m.key, false));
        r.push(AccountMeta::new(self.candles_15m.key, false));
        r.push(AccountMeta::new(self.candles_day.key, false));
        r.push(AccountMeta::new_readonly(self.community.key, false));
        r.push(AccountMeta::new(self.drvs_vault_asset_token_acc.key, false));
        r.push(AccountMeta::new(self.drvs_vault_crncy_token_acc.key, false));
        r.push(AccountMeta::new_readonly(self.asset_mint.key, false));
        r.push(AccountMeta::new_readonly(self.crncy_mint.key, false));
        r.push(AccountMeta::new_readonly(self.drvs_asset_token_state.key, false));
        r.push(AccountMeta::new_readonly(self.drvs_crncy_token_state.key, false));
        r.push(AccountMeta::new(client_asset_token_acc.key, false));
        r.push(AccountMeta::new(client_crncy_token_acc.key, false));
        r.push(AccountMeta::new_readonly(self.drvs_auth.key, false));
        r.push(AccountMeta::new_readonly(self.system_program.key, false));
        r.push(AccountMeta::new_readonly(self.asset_token_program.key, false));
        r.push(AccountMeta::new_readonly(self.crncy_token_program.key, false));
        r.push(AccountMeta::new_readonly(self.associated_token_program.key, false));
        assert(r@ =~= instruction_metas(self.instruction_order(input_is_crncy)));
        r
    }

    /// The swap data: the instrument id is the little-endian `u32` at bytes 8..12 of the
    /// instrument account's data, the price 0 (any price), the amount `amount_in` reinterpreted
    /// as `i64`.
    pub fn create_data(instr_data: &[u8], input_is_crncy: bool, amount_in: u64) -> (r: Vec<u8>)
        requires
            instr_data@.len() >= 12,
        ensures
            r@ == swap_data(instr_data@, input_is_crncy, amount_in).spec_bytes(),
            r@.len() == SWAP_DATA_LEN,
            r@[0] == DERIVERSE_INSTRUCTION_TAG,
            r@[1] == (if input_is_crncy { 1u8 } else { 0u8 }),
            r@[2] == 0 && r@[3] == 0,
            r@.subrange(4, 8) == instr_data@.subrange(8, 12),
            forall|i: int| 8 <= i < 16 ==> #[trigger] r@[i] == 0,
            le_value(r@.subrange(16, 24)) == amount_in,
    {
        proof {
            lemma_create_data_fields(instr_data@, input_is_crncy, amount_in);
        }
        let id_bytes = vstd::slice::slice_subrange(instr_data, 8, 12);
        let instr_id = u32_from_le(id_bytes);
        let input_crncy: u8 = if input_is_crncy { 1 } else { 0 };
        let data = DeriverseSwapData {
            tag: DERIVERSE_INSTRUCTION_TAG,
            input_crncy,
            padding_u16: 0,
            instr_id,
            price: 0,
            amount: amount_in as i64,
        };
        data.to_bytes()
    }

    /// The Deriverse swap instruction for the chosen direction and data.
    pub fn swap_instruction(&self, input_is_crncy: bool, data: Vec<u8>) -> (r: Instruction)
        ensures
            r.program_id.bytes == PROGRAM_ID_BYTES,
            r.accounts@ == instruction_metas(self.instruction_order(input_is_crncy)),
            r.data@ == data@,
    {
        Instruction {
            program_id: deriverse_program_id(),
            accounts: self.get_account_metas(input_is_crncy),
            data,
        }
    }
}


/// Position in the router's account list (counted from the offset) of the account that the
/// swap instruction takes at position `i`.
pub open spec fn instruction_source(input_is_crncy: bool, i: int) -> int {
    if input_is_crncy {
        seq![0int, 7int, 8int, 9int, 10int, 11int, 12int, 13int, 14int, 15int, 16int, 17int, 18int, 19int, 20int, 3int, 4int, 5int, 6int, 21int, 22int, 2int, 1int, 23int, 24int, 25int, 26int, 27int][i]
    } else {
        seq![0int, 7int, 8int, 9int, 10int, 11int, 12int, 13int, 14int, 15int, 16int, 17int, 18int, 19int, 20int, 3int, 4int, 5int, 6int, 21int, 22int, 1int, 2int, 23int, 24int, 25int, 26int, 27int][i]
    }
}

/// Position in the swap instruction of the account found at position `k` of the router's
/// account list (counted from the offset).
pub open spec fn instruction_position(input_is_crncy: bool, k: int) -> int {
    if input_is_crncy {
        seq![0int, 22int, 21int, 15int, 16int, 17int, 18int, 1int, 2int, 3int, 4int, 5int, 6int, 7int, 8int, 9int, 10int, 11int, 12int, 13int, 14int, 19int, 20int, 23int, 24int, 25int, 26int, 27int][k]
    } else {
        seq![0int, 21int, 22int, 15int, 16int, 17int, 18int, 1int, 2int, 3int, 4int, 5int, 6int, 7int, 8int, 9int, 10int, 11int, 12int, 13int, 14int, 19int, 20int, 23int, 24int, 25int, 26int, 27int][k]
    }
}

/// The swap instruction takes each of the 28 accounts of the router's list exactly once:
/// position `i` of the instruction holds the listed account `instruction_source(d, i)`, and
/// `instruction_position` undoes that mapping both ways, so it is a permutation.
pub proof fn lemma_instruction_permutes_accounts<'a, A>(accs: &DeriverseSwapAccounts<'a, A>, input_is_crncy: bool)
    ensures
        accs.instruction_order(input_is_crncy).len() == ACCOUNTS_LEN,
        forall|i: int| 0 <= i < ACCOUNTS_LEN ==> {
            &&& 0 <= #[trigger] instruction_source(input_is_crncy, i) < ACCOUNTS_LEN
            &&& accs.instruction_order(input_is_crncy)[i] == accs.parsed_order()[instruction_source(input_is_crncy, i)]
            &&& instruction_position(input_is_crncy, instruction_source(input_is_crncy, i)) == i
        },
        forall|k: int| 0 <= k < ACCOUNTS_LEN ==> {
            &&& 0 <= #[trigger] instruction_position(input_is_crncy, k) < ACCOUNTS_LEN
            &&& instruction_source(input_is_crncy, instruction_position(input_is_crncy, k)) == k
        },
{
    assert forall|i: int| 0 <= i < ACCOUNTS_LEN implies {
        &&& 0 <= #[trigger] instruction_source(input_is_crncy, i) < ACCOUNTS_LEN
        &&& accs.instruction_order(input_is_crncy)[i] == accs.parsed_order()[instruction_source(input_is_crncy, i)]
        &&& instruction_position(input_is_crncy, instruction_source(input_is_crncy, i)) == i
    } by {
        if i == 0 {} else if i == 1 {} else if i == 2 {} else if i == 3 {} else if i == 4 {} else if i == 5 {} else if i == 6 {} else if i == 7 {} else if i == 8 {} else if i == 9 {} else if i == 10 {} else if i == 11 {} else if i == 12 {} else if i == 13 {} else if i == 14 {} else if i == 15 {} else if i == 16 {} else if i == 17 {} else if i == 18 {} else if i == 19 {} else if i == 20 {} else if i == 21 {} else if i == 22 {} else if i == 23 {} else if i == 24 {} else if i == 25 {} else if i == 26 {} else {}
    }
    assert forall|k: int| 0 <= k < ACCOUNTS_LEN implies {
        &&& 0 <= #[trigger] instruction_position(input_is_crncy, k) < ACCOUNTS_LEN
        &&& instruction_source(input_is_crncy, instruction_position(input_is_crncy, k)) == k
    } by {
        if k == 0 {} else if k == 1 {} else if k == 2 {} else if k == 3 {} else if k == 4 {} else if k == 5 {} else if k == 6 {} else if k == 7 {} else if k == 8 {} else if k == 9 {} else if k == 10 {} else if k == 11 {} else if k == 12 {} else if k == 13 {} else if k == 14 {} else if k == 15 {} else if k == 16 {} else if k == 17 {} else if k == 18 {} else if k == 19 {} else if k == 20 {} else if k == 21 {} else if k == 22 {} else if k == 23 {} else if k == 24 {} else if k == 25 {} else if k == 26 {} else {}
    }
}

/// The swap direction changes only which of the user's two token accounts stands at the
/// asset and currency client positions (21 and 22); every other account of the instruction
/// is the same in both directions.
pub proof fn lemma_direction_swaps_only_client_accounts<'a, A>(accs: &DeriverseSwapAccounts<'a, A>)
    ensures
        forall|i: int| 0 <= i < ACCOUNTS_LEN && i != 21 && i != 22 ==>
            #[trigger] accs.instruction_order(true)[i] == accs.instruction_order(false)[i],
        accs.instruction_order(true)[21] == accs.instruction_order(false)[22],
        accs.instruction_order(true)[22] == accs.instruction_order(false)[21],
        accs.instruction_order(true)[21] == *accs.destination_token_acc,
        accs.instruction_order(true)[22] == *accs.source_token_acc,
{
}

/// The instruction's account list and the accounts handed to the call agree position by
/// position; only the authority (position 0) signs.
pub proof fn lemma_metas_follow_account_infos<'a>(accs: &DeriverseSwapAccounts<'a, AccountInfo>, input_is_crncy: bool)
    ensures
        instruction_metas(accs.instruction_order(input_is_crncy)).len() == ACCOUNTS_LEN,
        forall|i: int| 0 <= i < ACCOUNTS_LEN ==> {
            &&& (#[trigger] instruction_metas(accs.instruction_order(input_is_crncy))[i]).pubkey
                == accs.instruction_order(input_is_crncy)[i].key
            &&& instruction_metas(accs.instruction_order(input_is_crncy))[i].is_signer <==> i == 0
        },
        instruction_metas(accs.instruction_order(input_is_crncy))[0].pubkey == accs.authority.key,
{
}


/// The wire image is 24 bytes and each field can be read back from its place in it.
pub proof fn lemma_swap_data_bytes_decode(d: DeriverseSwapData)
    ensures
        d.spec_bytes().len() == SWAP_DATA_LEN,
        d.spec_bytes()[0] == d.tag,
        d.spec_bytes()[1] == d.input_crncy,
        le_value(d.spec_bytes().subrange(2, 4)) == d.padding_u16,
        le_value(d.spec_bytes().subrange(4, 8)) == d.instr_id,
        le_value(d.spec_bytes().subrange(8, 16)) as u64 as i64 == d.price,
        le_value(d.spec_bytes().subrange(16, 24)) as u64 as i64 == d.amount,
{
    lemma_le_u16_roundtrip(d.padding_u16);
    lemma_le_u32_roundtrip(d.instr_id);
    lemma_le_u64_roundtrip(d.price as u64);
    lemma_le_u64_roundtrip(d.amount as u64);
    let b = d.spec_bytes();
    assert(b.subrange(2, 4) =~= le_bytes_u16(d.padding_u16));
    assert(b.subrange(4, 8) =~= le_bytes_u32(d.instr_id));
    assert(b.subrange(8, 16) =~= le_bytes_u64(d.price as u64));
    assert(b.subrange(16, 24) =~= le_bytes_u64(d.amount as u64));
    let price = d.price;
    let amount = d.amount;
    assert((price as u64) as i64 == price) by (bit_vector);
    assert((amount as u64) as i64 == amount) by (bit_vector);
}

/// Distinct swap data never share a wire image.
pub proof fn lemma_swap_data_bytes_injective(d1: DeriverseSwapData, d2: DeriverseSwapData)
    requires
        d1.spec_bytes() == d2.spec_bytes(),
    ensures
        d1 == d2,
{
    lemma_swap_data_bytes_decode(d1);
    lemma_swap_data_bytes_decode(d2);
}

/// The direction follows the token that the source account holds: for token accounts each
/// owned by the token program of its side, the swap is accepted, paying in currency exactly
/// when the source holds the currency mint. This holds also when both sides share one
/// token program.
pub proof fn lemma_direction_follows_source_mint(
    asset_mint: Pubkey,
    crncy_mint: Pubkey,
    asset_token_program: Pubkey,
    crncy_token_program: Pubkey,
    source: AccountInfo,
    destination: AccountInfo,
)
    requires
        asset_mint != crncy_mint,
        (source.mint == Some(asset_mint) && source.owner == asset_token_program
            && destination.owner == crncy_token_program)
        || (source.mint == Some(crncy_mint) && source.owner == crncy_token_program
            && destination.owner == asset_token_program),
    ensures
        crncy_input_result(asset_mint, crncy_mint, asset_token_program, crncy_token_program, source, destination)
            == Ok::<bool, ErrorCode>(source.mint == Some(crncy_mint)),
{
}

/// Exchanging the source and destination accounts of an accepted swap, when each holds one
/// side's mint, gives the swap the other way round: accepted too, with the opposite flag.
pub proof fn lemma_exchanging_user_accounts_flips_direction(
    asset_mint: Pubkey,
    crncy_mint: Pubkey,
    asset_token_program: Pubkey,
    crncy_token_program: Pubkey,
    source: AccountInfo,
    destination: AccountInfo,
    input_is_crncy: bool,
)
    requires
        asset_mint != crncy_mint,
        (source.mint == Some(asset_mint) && destination.mint == Some(crncy_mint))
        || (source.mint == Some(crncy_mint) && destination.mint == Some(asset_mint)),
        crncy_input_result(asset_mint, crncy_mint, asset_token_program, crncy_token_program, source, destination)
            == Ok::<bool, ErrorCode>(input_is_crncy),
    ensures
        crncy_input_result(asset_mint, crncy_mint, asset_token_program, crncy_token_program, destination, source)
            == Ok::<bool, ErrorCode>(!input_is_crncy),
{
}

/// An accepted swap moves tokens between the pair's two sides: the source is owned by the
/// token program of the side paid with, the destination by the other side's program.
pub proof fn lemma_accepted_direction(
    asset_mint: Pubkey,
    crncy_mint: Pubkey,
    asset_token_program: Pubkey,
    crncy_token_program: Pubkey,
    source: AccountInfo,
    destination: AccountInfo,
    input_is_crncy: bool,
)
    requires
        crncy_input_result(asset_mint, crncy_mint, asset_token_program, crncy_token_program, source, destination)
            == Ok::<bool, ErrorCode>(input_is_crncy),
    ensures
        source.owner == (if input_is_crncy { crncy_token_program } else { asset_token_program }),
        destination.owner == (if input_is_crncy { asset_token_program } else { crncy_token_program }),
{
}

/// Where the mints do not decide (the source holds neither of the pair's mints), or where the
/// two token programs differ and the source is owned by the program of the mint it holds,
/// the result is the one the owning programs alone give.
pub proof fn lemma_owner_rule_where_mints_do_not_decide(
    asset_mint: Pubkey,
    crncy_mint: Pubkey,
    asset_token_program: Pubkey,
    crncy_token_program: Pubkey,
    source: AccountInfo,
    destination: AccountInfo,
)
    requires
        (source.mint != Some(asset_mint) && source.mint != Some(crncy_mint)) || (
        asset_token_program != crncy_token_program && (source.mint == Some(crncy_mint)
            ==> source.owner == crncy_token_program) && (source.mint == Some(asset_mint)
            ==> source.owner == asset_token_program)),
    ensures
        crncy_input_result(asset_mint, crncy_mint, asset_token_program, crncy_token_program, source, destination)
            == crncy_input_by_owner(asset_token_program, crncy_token_program, source.owner, destination.owner),
{
}

/// The flags of the instruction's account list depend on the position alone, whatever the
/// accounts (their keys, owners or data): only position 0 (the authority) signs, and exactly
/// positions 1 (root), 14 (community), 17-20 (the mints and token states), 23 (program
/// authority) and 24-27 (the programs) are read-only. Each entry names the account at its
/// position.
pub proof fn lemma_metas_flags_by_position(order: Seq<AccountInfo>)
    requires
        order.len() == ACCOUNTS_LEN,
    ensures
        instruction_metas(order).len() == ACCOUNTS_LEN,
        forall|i: int| 0 <= i < ACCOUNTS_LEN ==> {
            &&& (#[trigger] instruction_metas(order)[i]).pubkey == order[i].key
            &&& instruction_metas(order)[i].is_signer == (i == 0)
            &&& instruction_metas(order)[i].is_writable == !(i == 1 || i == 14 || i == 17 || i == 18
                || i == 19 || i == 20 || i == 23 || i == 24 || i == 25 || i == 26 || i == 27)
        },
{
}

/// Two account lists of the same length get the same flags at every position.
pub proof fn lemma_metas_flags_independent_of_accounts(o1: Seq<AccountInfo>, o2: Seq<AccountInfo>)
    requires
        o1.len() == ACCOUNTS_LEN,
        o2.len() == ACCOUNTS_LEN,
    ensures
        forall|i: int| 0 <= i < ACCOUNTS_LEN ==> {
            &&& (#[trigger] instruction_metas(o1)[i]).is_signer == instruction_metas(o2)[i].is_signer
            &&& instruction_metas(o1)[i].is_writable == instruction_metas(o2)[i].is_writable
        },
{
    lemma_metas_flags_by_position(o1);
    lemma_metas_flags_by_position(o2);
}

/// The swap data of a trade, byte by byte: the swap tag, the direction byte (1 when paying in
/// currency), two zero padding bytes, the instrument account's bytes 8..12 copied unchanged
/// (the instrument id, read the same way in both directions), eight zero price bytes, and
/// the amount little-endian.
pub proof fn lemma_create_data_fields(instr_data: Seq<u8>, input_is_crncy: bool, amount_in: u64)
    requires
        instr_data.len() >= 12,
    ensures
        swap_data(instr_data, input_is_crncy, amount_in).spec_bytes().len() == SWAP_DATA_LEN,
        swap_data(instr_data, input_is_crncy, amount_in).spec_bytes()[0] == DERIVERSE_INSTRUCTION_TAG,
        swap_data(instr_data, input_is_crncy, amount_in).spec_bytes()[1] == (if input_is_crncy { 1u8 } else { 0u8 }),
        swap_data(instr_data, input_is_crncy, amount_in).spec_bytes()[2] == 0,
        swap_data(instr_data, input_is_crncy, amount_in).spec_bytes()[3] == 0,
        swap_data(instr_data, input_is_crncy, amount_in).spec_bytes().subrange(4, 8) == instr_data.subrange(8, 12),
        forall|i: int| 8 <= i < 16 ==> #[trigger] swap_data(instr_data, input_is_crncy, amount_in).spec_bytes()[i] == 0,
        le_value(swap_data(instr_data, input_is_crncy, amount_in).spec_bytes().subrange(16, 24)) == amount_in,
{
    let d = swap_data(instr_data, input_is_crncy, amount_in);
    let s = d.spec_bytes();
    let id = instr_data.subrange(8, 12);
    lemma_le_bytes_u32_of_value(id);
    lemma_swap_data_bytes_decode(d);
    lemma_le_u16_roundtrip(0);
    lemma_le_u32_roundtrip(d.instr_id);
    lemma_le_u64_roundtrip(0);
    lemma_le_u64_roundtrip(d.amount as u64);
    assert((amount_in as i64) as u64 == amount_in) by (bit_vector);
    assert(s.subrange(16, 24) =~= le_bytes_u64(d.amount as u64));
    assert(s.subrange(4, 8) =~= le_bytes_u32(d.instr_id));
    assert(s.subrange(2, 4) =~= le_bytes_u16(0));
    assert(s.subrange(8, 16) =~= le_bytes_u64(0));
    reveal_with_fuel(crate::bytes::le_bytes, 9);
    assert(le_bytes_u16(0) =~= seq![0u8, 0u8]);
    assert(le_bytes_u64(0) =~= seq![0u8, 0u8, 0u8, 0u8, 0u8, 0u8, 0u8, 0u8]);
    assert forall|i: int| 8 <= i < 16 implies #[trigger] s[i] == 0 by {
        assert(s[i] == s.subrange(8, 16)[i - 8]);
    }
    assert(s[2] == s.subrange(2, 4)[0]);
    assert(s[3] == s.subrange(2, 4)[1]);
    assert((amount_in as i64) as u64 == amount_in) by (bit_vector);
}

/// The two directions of one trade give swap data that differ only in the direction byte.
pub proof fn lemma_create_data_directions_differ_only_in_flag(instr_data: Seq<u8>, amount_in: u64)
    requires
        instr_data.len() >= 12,
    ensures
        swap_data(instr_data, true, amount_in).spec_bytes().len() == SWAP_DATA_LEN,
        swap_data(instr_data, false, amount_in).spec_bytes().len() == SWAP_DATA_LEN,
        forall|i: int| 0 <= i < SWAP_DATA_LEN && i != 1 ==> #[trigger] swap_data(instr_data, true, amount_in).spec_bytes()[i]
            == swap_data(instr_data, false, amount_in).spec_bytes()[i],
        swap_data(instr_data, true, amount_in).spec_bytes()[1] == 1,
        swap_data(instr_data, false, amount_in).spec_bytes()[1] == 0,
{
    lemma_create_data_fields(instr_data, true, amount_in);
    lemma_create_data_fields(instr_data, false, amount_in);
    let st = swap_data(instr_data, true, amount_in).spec_bytes();
    let sf = swap_data(instr_data, false, amount_in).spec_bytes();
    assert forall|i: int| 0 <= i < SWAP_DATA_LEN && i != 1 implies #[trigger] st[i] == sf[i] by {
        if 4 <= i < 8 {
            assert(st[i] == st.subrange(4, 8)[i - 4]);
            assert(sf[i] == sf.subrange(4, 8)[i - 4]);
        } else if 16 <= i < 24 {
            let a = swap_data(instr_data, true, amount_in).amount as u64;
            lemma_le_u16_roundtrip(0);
            lemma_le_u32_roundtrip(swap_data(instr_data, true, amount_in).instr_id);
            lemma_le_u64_roundtrip(0);
            lemma_le_u64_roundtrip(a);
            assert(st.subrange(16, 24) =~= sf.subrange(16, 24)) by {
                assert(st.subrange(16, 24) =~= le_bytes_u64(a));
                assert(sf.subrange(16, 24) =~= le_bytes_u64(a));
            }
            assert(st[i] == st.subrange(16, 24)[i - 16]);
            assert(sf[i] == sf.subrange(16, 24)[i - 16]);
        }
    }
}

} // verus!
