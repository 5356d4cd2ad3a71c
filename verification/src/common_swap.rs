use vstd::prelude::*;

use crate::pubkey::Pubkey;

verus! {

/// The accounts that link one hop of a routed swap to the next.
#[derive(Clone, Copy, Debug)]
pub struct HopAccounts {
    pub last_to_account: Pubkey,
    pub from_account: Pubkey,
    pub to_account: Pubkey,
}

} // verus!
