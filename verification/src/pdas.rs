use vstd::prelude::*;

use crate::helper::{
    acc_key, drvs_auth_key, spot_acc_key, token_acc_key, AccountTypes, Helper,
};
use crate::pda::key_matches;
use crate::deriverse::{AccountInfo, DeriverseSwapAccounts};
use crate::pubkey::Pubkey;

verus! {

/// What the address list of an instrument reads from its account header.
#[derive(Clone, Copy, Debug)]
pub struct InstrAccountHeader {
    pub asset_token_id: u32,
    pub crncy_token_id: u32,
    pub asset_mint: Pubkey,
    pub crncy_mint: Pubkey,
}

/// Number of derived addresses that a swap needs for one instrument.
pub const REMAINING_PDAS_LEN: usize = 17;

/// The derived addresses of an instrument, in the order in which a swap's account list holds
/// them from position `offset + 7` on: root, instrument, bids tree, asks tree, bid orders,
/// ask orders, lines, maps, client infos, client infos 2, 1-minute, 15-minute and day
/// candles, community, asset token state, currency token state, program authority.
pub open spec fn remaining_pda_keys(h: InstrAccountHeader, t: AccountTypes) -> Seq<Option<Seq<u8>>> {
    let a = h.asset_token_id;
    let c = h.crncy_token_id;
    seq![
        acc_key(t.root),
        spot_acc_key(t.instr, a, c),
        spot_acc_key(t.spot_bids_tree, a, c),
        spot_acc_key(t.spot_asks_tree, a, c),
        spot_acc_key(t.spot_bid_orders, a, c),
        spot_acc_key(t.spot_ask_orders, a, c),
        spot_acc_key(t.spot_lines, a, c),
        spot_acc_key(t.spot_maps, a, c),
        spot_acc_key(t.spot_client_infos, a, c),
        spot_acc_key(t.spot_client_infos2, a, c),
        spot_acc_key(t.spot_1m_candles, a, c),
        spot_acc_key(t.spot_15m_candles, a, c),
        spot_acc_key(t.spot_day_candles, a, c),
        acc_key(t.community),
        token_acc_key(h.asset_mint.bytes@),
        token_acc_key(h.crncy_mint.bytes@),
        drvs_auth_key(),
    ]
}

/// `v` holds, in order, exactly the addresses that `keys` names, all of them present.
pub open spec fn keys_match_all(v: Seq<Pubkey>, keys: Seq<Option<Seq<u8>>>) -> bool {
    &&& v.len() == keys.len()
    &&& forall|i: int| 0 <= i < keys.len() ==> keys[i] == Some(#[trigger] v[i].bytes@)
}

/// Every derivation in `keys` succeeded.
pub open spec fn all_present(keys: Seq<Option<Seq<u8>>>) -> bool {
    forall|i: int| 0 <= i < keys.len() ==> (#[trigger] keys[i]) is Some
}

fn collect_all(keys: Vec<Option<Pubkey>>, Ghost(spec): Ghost<Seq<Option<Seq<u8>>>>) -> (r: Option<Vec<Pubkey>>)
    requires
        keys@.len() == spec.len(),
        forall|i: int| 0 <= i < spec.len() ==> key_matches(#[trigger] keys@[i], spec[i]),
    ensures
        r is Some <==> all_present(spec),
        r matches Some(v) ==> keys_match_all(v@, spec),
{
    let mut out: Vec<Pubkey> = Vec::new();
    let mut i: usize = 0;
    while i < keys.len()
        invariant
            keys@.len() == spec.len(),
            forall|j: int| 0 <= j < spec.len() ==> key_matches(#[trigger] keys@[j], spec[j]),
            i <= keys@.len(),
            out@.len() == i,
            forall|j: int| 0 <= j < i ==> spec[j] == Some(#[trigger] out@[j].bytes@),
        decreases keys@.len() - i,
    {
        match keys[i] {
            Some(k) => {
                out.push(k);
            },
            None => {
                assert(spec[i as int] is None);
                return None;
            },
        }
        i = i + 1;
    }
    assert forall|j: int| 0 <= j < spec.len() implies (#[trigger] spec[j]) is Some by {
        assert(spec[j] == Some(out@[j].bytes@));
    }
    Some(out)
}

/// Derives the addresses that a swap on the instrument needs after its first seven accounts.
/// `None` exactly when one of the derivations finds no program address.
pub fn get_remaning_pdas(instr_header: InstrAccountHeader, account_types: &AccountTypes) -> (r: Option<Vec<Pubkey>>)
    ensures
        r is Some <==> all_present(remaining_pda_keys(instr_header, *account_types)),
        r matches Some(v) ==> keys_match_all(v@, remaining_pda_keys(instr_header, *account_types)),
{
    let t = account_types;
    let a = instr_header.asset_token_id;
    let c = instr_header.crncy_token_id;
    let mut keys: Vec<Option<Pubkey>> = Vec::new();
    keys.push(Pubkey::new_acc(t.root));
    keys.push(Pubkey::new_spot_acc(t.instr, a, c));
    keys.push(Pubkey::new_spot_acc(t.spot_bids_tree, a, c));
    keys.push(Pubkey::new_spot_acc(t.spot_asks_tree, a, c));
    keys.push(Pubkey::new_spot_acc(t.spot_bid_orders, a, c));
    keys.push(Pubkey::new_spot_acc(t.spot_ask_orders, a, c));
    keys.push(Pubkey::new_spot_acc(t.spot_lines, a, c));
    keys.push(Pubkey::new_spot_acc(t.spot_maps, a, c));
    keys.push(Pubkey::new_spot_acc(t.spot_client_infos, a, c));
    keys.push(Pubkey::new_spot_acc(t.spot_client_infos2, a, c));
    keys.push(Pubkey::new_spot_acc(t.spot_1m_candles, a, c));
    keys.push(Pubkey::new_spot_acc(t.spot_15m_candles, a, c));
    keys.push(Pubkey::new_spot_acc(t.spot_day_candles, a, c));
    keys.push(Pubkey::new_acc(t.community));
    keys.push(instr_header.asset_mint.new_token_acc());
    keys.push(instr_header.crncy_mint.new_token_acc());
    keys.push(Pubkey::get_drvs_auth());
    let ghost spec = remaining_pda_keys(instr_header, *account_types);
    assert forall|i: int| 0 <= i < spec.len() implies key_matches(#[trigger] keys@[i], spec[i]) by {
        if i == 0 {} else if i == 1 {} else if i == 2 {} else if i == 3 {} else if i == 4 {}
        else if i == 5 {} else if i == 6 {} else if i == 7 {} else if i == 8 {} else if i == 9 {}
        else if i == 10 {} else if i == 11 {} else if i == 12 {} else if i == 13 {}
        else if i == 14 {} else if i == 15 {} else {}
    }
    collect_all(keys, Ghost(spec))
}


/// Placed at positions `offset + 7` to `offset + 23` of the router's account list, the
/// addresses of `get_remaning_pdas` are what the swap reads as its root, instrument, order
/// book, candle, community, token-state and authority accounts.
pub proof fn lemma_remaining_pdas_placement<'a>(
    accs: &DeriverseSwapAccounts<'a, AccountInfo>,
    pdas: Seq<Pubkey>,
    h: InstrAccountHeader,
    t: AccountTypes,
)
    requires
        keys_match_all(pdas, remaining_pda_keys(h, t)),
        forall|k: int| 0 <= k < REMAINING_PDAS_LEN ==> (#[trigger] accs.parsed_order()[7 + k]).key == pdas[k],
    ensures
        acc_key(t.root) == Some(accs.root.key.bytes@),
        spot_acc_key(t.instr, h.asset_token_id, h.crncy_token_id) == Some(accs.instrument.key.bytes@),
        spot_acc_key(t.spot_bids_tree, h.asset_token_id, h.crncy_token_id) == Some(accs.bids_tree.key.bytes@),
        spot_acc_key(t.spot_asks_tree, h.asset_token_id, h.crncy_token_id) == Some(accs.asks_tree.key.bytes@),
        spot_acc_key(t.spot_bid_orders, h.asset_token_id, h.crncy_token_id) == Some(accs.bid_orders.key.bytes@),
        spot_acc_key(t.spot_ask_orders, h.asset_token_id, h.crncy_token_id) == Some(accs.ask_orders.key.bytes@),
        spot_acc_key(t.spot_lines, h.asset_token_id, h.crncy_token_id) == Some(accs.lines.key.bytes@),
        spot_acc_key(t.spot_maps, h.asset_token_id, h.crncy_token_id) == Some(accs.map.key.bytes@),
        spot_acc_key(t.spot_client_infos, h.asset_token_id, h.crncy_token_id) == Some(accs.spot_client_infos.key.bytes@),
        spot_acc_key(t.spot_client_infos2, h.asset_token_id, h.crncy_token_id) == Some(accs.spot_client_infos2.key.bytes@),
        spot_acc_key(t.spot_1m_candles, h.asset_token_id, h.crncy_token_id) == Some(accs.candles_1m.key.bytes@),
        spot_acc_key(t.spot_15m_candles, h.asset_token_id, h.crncy_token_id) == Some(accs.candles_15m.key.bytes@),
        spot_acc_key(t.spot_day_candles, h.asset_token_id, h.crncy_token_id) == Some(accs.candles_day.key.bytes@),
        acc_key(t.community) == Some(accs.community.key.bytes@),
        token_acc_key(h.asset_mint.bytes@) == Some(accs.drvs_asset_token_state.key.bytes@),
        token_acc_key(h.crncy_mint.bytes@) == Some(accs.drvs_crncy_token_state.key.bytes@),
        drvs_auth_key() == Some(accs.drvs_auth.key.bytes@),
{
    let keys = remaining_pda_keys(h, t);
    assert forall|k: int| 0 <= k < REMAINING_PDAS_LEN implies keys[k] == Some(
        (#[trigger] accs.parsed_order()[7 + k]).key.bytes@,
    ) by {
        assert(keys[k] == Some(pdas[k].bytes@));
    }
    assert(accs.parsed_order()[7int + 0] == *accs.root);
    assert(accs.parsed_order()[7int + 1] == *accs.instrument);
    assert(accs.parsed_order()[7int + 2] == *accs.bids_tree);
    assert(accs.parsed_order()[7int + 3] == *accs.asks_tree);
    assert(accs.parsed_order()[7int + 4] == *accs.bid_orders);
    assert(accs.parsed_order()[7int + 5] == *accs.ask_orders);
    assert(accs.parsed_order()[7int + 6] == *accs.lines);
    assert(accs.parsed_order()[7int + 7] == *accs.map);
    assert(accs.parsed_order()[7int + 8] == *accs.spot_client_infos);
    assert(accs.parsed_order()[7int + 9] == *accs.spot_client_infos2);
    assert(accs.parsed_order()[7int + 10] == *accs.candles_1m);
    assert(accs.parsed_order()[7int + 11] == *accs.candles_15m);
    assert(accs.parsed_order()[7int + 12] == *accs.candles_day);
    assert(accs.parsed_order()[7int + 13] == *accs.community);
    assert(accs.parsed_order()[7int + 14] == *accs.drvs_asset_token_state);
    assert(accs.parsed_order()[7int + 15] == *accs.drvs_crncy_token_state);
    assert(accs.parsed_order()[7int + 16] == *accs.drvs_auth);
}

} // verus!
