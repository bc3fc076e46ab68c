# stellarflow

Verified core of the StellarFlow Soroban contracts: time-locked upgrades and
admin actions, governance proposals with cancellation quorums, the stake and
signer registries, fiat settlement escrows, protocol fees, AMM safety guards
(circuit breaker, oracle deviation, flash-loan arbitrage, adaptive fees),
concentrated positions and rebalancing, the bridge (escrow, wrapped mints,
rate limits, relayer quorum, withdrawal timelock), the commitment Merkle tree
and the stand-alone buyback, stop-loss, vault-health and vote-escrow
contracts.

## Layout

- `src/` is the library, written in Verus. Every function states what it
  returns or changes in its `ensures`, and the properties that relate several
  operations (a cancelled upgrade never executes, a trigger pays out once, a
  queued action waits its full delay, pruning keeps what it protects, ...)
  are public proof functions next to the code they speak of. Functions take
  the ledger state they read as plain values and return the state to store.
- `tests/` runs the library on concrete values.
- `app/` holds Soroban entry points for part of the library: the main
  contract's initialization, heartbeats, stake and signer registries, fiat
  escrows, corridor and flash-loan fee pools, and pending-upgrade queries
  and cancellation; the spot price circuit breaker; the relayer's payload
  verification; and the buyback, stop-loss, vault-health and vote-escrow
  contracts. They do the ledger storage, authorization, token transfers,
  oracle calls and events around the library's decisions, plus the parts
  that work on floating point. The rest of the library (governance,
  pruning, positions and rebalancing, the other AMM guards, the bridge
  escrow and mints) has no entry point there yet and is reached through the
  crate's API.

The only trusted items are the SHA-256 computation on the Soroban host
(`src/crypto.rs`) and the declaration of the host environment type it needs.
