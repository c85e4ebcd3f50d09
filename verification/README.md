# atx_points_exchange

The rules of a points-for-tokens exchange program for Solana (Anchor), as a
library verified with Verus, and the program around it.

- `src/` — the verified library:
  - `key.rs`: 32-byte account addresses;
  - `state.rs`: the accounts (configuration, user points, exchange records) and their seed prefixes;
  - `events.rs`, `error.rs`: what the instructions announce and why they refuse;
  - `checks.rs`: the owner, configuration and points-account checks;
  - `instructions.rs`: the six instructions, each over the accounts it reads and writes;
  - `pda.rs`: the seeds and program-derived addresses of the accounts;
  - `laws.rs`: properties that span instructions, proved.
- `app/` — the Anchor program: account validation, the clock, token transfers
  and events, calling the library for every decision.
- `tests/` — tests of the library on concrete values.

Exchange rate: 1000 points buy 0.001 of a whole token of the configured mint
(10^(decimals - 3) base units; 1_000_000 units for a 9-decimal mint, and for
mints with fewer than 3 or more than 22 decimals, where 0.001 token is no
whole `u64` number of base units).
