//! Address derivation and swap-instruction assembly for the Deriverse spot DEX.

pub mod pubkey;
pub mod bytes;
pub mod pda;
pub mod helper;
pub mod pdas;
pub mod constants;
pub mod deriverse;
pub mod common_swap;
