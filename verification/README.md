# lumina_vesting

The decision logic of the Lumina vesting contracts, written in Verus and
proved against its specifications.

- `src/` is the verified library. The vesting vault (`vault*.rs`) is a state
  machine over plain values: every operation takes the ledger time (and, for
  oracle prices, the ledger sequence) as arguments, records the events it
  would publish, and states in its contract exactly when it succeeds, which
  error it returns otherwise, and how the state changes. `insurance.rs` and
  `timelock.rs` hold the typed storage of the insurance treasury and of the
  administrator timelock, `oracle.rs` the performance-oracle client,
  `governance.rs` and `schedules.rs` the vesting contract's defensive
  governance (proposals, holder votes, 51% veto) and its single-asset
  vesting schedules (linear, stepped or milestone vesting, schedule pauses,
  acceleration, performance cliffs and multipliers, and the cliff-jump
  limit on new linear schedules). A holder's voting power on proposals is
  the value it holds unreleased in its vaults. `voting.rs` adds weighted
  voting power with delegation, `revocation.rs` revoking and slashing
  vaults, `collateral.rs` locking vault tokens as loan collateral and vault
  statistics, and `laws.rs` the properties that span operations (the oracle
  circuit breaker, the emergency pause, payout-address and migration
  timelocks, single-use nullifiers, ordered milestones, one vote per holder,
  governance proposals, bounded and monotone vesting, supply conservation of
  vault creation and claims, claims and voting power, collateral locks, and
  delegation).
- `tests/` exercises the library on concrete scenarios.
- `app/` is the Soroban edge: address conversions, contract-storage
  persistence of the treasury and timelock storage, and hosts that feed
  signatures, ledger time and event publication into the vault and into
  governance.

The one call into `soroban_sdk` that the library makes itself is the SHA-256
hash of an exported migration snapshot, behind a trusted wrapper in
`vault_sunset.rs`.
