# deriverse

A verified library for routing swaps through the Deriverse spot DEX on Solana.

- `src/helper.rs`, `src/pdas.rs`: the seeds and program-derived addresses of the
  Deriverse accounts (root, instrument, order book, candles, token states, authority,
  client accounts), and the list of 17 derived addresses a swap needs.
- `src/deriverse.rs`: the swap adapter: picking the 28 swap accounts from the router's
  account list, detecting the swap direction from the mint that the source token account
  holds (by its owning token program when it holds neither mint) and checking the token
  accounts' owners, the
  24-byte instruction data, and the instruction's account list.
- `src/pda.rs`: the one call into solana's program-address search, behind a trusted
  wrapper; `src/bytes.rs`: little-endian byte layouts.
- `app/`: glue to anchor/solana types and the router-facing `swap` entry point.

Verify with Verus; the tests under `tests/` check the derivations against solana-sdk.
