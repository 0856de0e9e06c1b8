# treasury_router

The decision logic of the RBVR treasury router, a Solana program that splits
settlement-token fees between a reserve, buyback-and-burn, liquidity growth, a
company and a founder, and later releases those balances under the Waterfall,
Dam, Beaver Score, Sentinel and Integrity Firewall rules.

The library is written in Verus: every function states in its contract what it
returns and what it changes, and Verus proves the body against it.

- `src/state/`: the account states, their validation rules and accounting
  invariants.
- `src/engines/`: the engines (Waterfall, Dam, Beaver Score, Execution Guard,
  release accounting, Sentinel, Integrity Firewall, founder and company caps,
  reserve deployment).
- `src/instructions/`: what each program instruction decides, from the account
  states it reads to the states it writes and the values it reports.
- `src/oracle_adapter.rs`: the Pyth oracle adapter: the price read from a
  Pyth receiver update and the checks on it.
- `src/pubkey.rs`: account addresses, and program-address derivation through
  `anchor-lang`.

Properties that span several calls stand as public `lemma_*` proof functions
beside the code they speak of.

`app/` is the Anchor program around the library: account validation, token
transfers, clock reads, events and logs. It converts the program's accounts to
the library's types, calls the library, and writes the results back.
