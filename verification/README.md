# stellaiverse

The StellAIverse contract suite (agent NFTs, the execution hub, agent
evolution, the marketplace, the oracle and the upgrade proxy) as a verified
library of state machines.

Each contract's storage is a plain value; each entry point is a method whose
contract states, for every input, either the error it refuses the call with
(leaving the storage exactly as it was, as a reverted transaction does) or the
storage it leaves and the token movements it asks for.

Layout:

- `src/context.rs` — addresses, 32-byte keys and the invocation context
  (ledger time and sequence, running contract, signers).
- `src/types.rs` — the shared records and limits.
- `src/agent_nft.rs`, `src/execution_hub.rs`, `src/evolution.rs`,
  `src/evolution_history.rs`, `src/oracle.rs`, `src/proxy.rs` — one contract each.
- `src/marketplace/` — listings, royalties, multi-signature approvals,
  auctions, leases, two-phase atomic steps and the ledger-bounded `leasing`
  module.
- `tests/` — scenarios on concrete values.
- `app/` — the host side: address numbering, token transfers, relay signature
  checks and cross-contract calls, on a Soroban environment.

The properties that span calls (replay protection, rate limits, one vote per
approver, conservation of funds in settlements and terminations, Dutch price
bounds, lease permissions, rollback of prepared steps) are stated and proved as
public proof functions next to the functions they speak of.
