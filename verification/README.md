# grant_stream

Verified core of a set of Soroban contracts: token-streaming grants with a
yield reserve and proposal-stake rules, the atomic bridge that opens the
grants a governance proposal asks for, completion certificates for grantees,
and the SoroSusu savings circle.

- `src/` is the library, checked by Verus. Each contract is a plain state
  value (what the contract keeps in its instance storage) and transition
  functions on it. Accounts are numbered (`Address`). The functions decide,
  update the state and return the token movements that the host must perform;
  authorization, the ledger clock, token balances and events are supplied or
  carried out by the caller. Laws that relate several calls are the
  `lemma_*` proof functions beside the functions they speak of.
  - `grant.rs`: grants (`create_grant`, `withdraw`, `set_pause`) and the
    stake-burning rule.
  - `yield_reserve.rs`: allocating part of the treasury to a yield-bearing
    asset, harvesting its yield, and the reserve's breakdown.
  - `atomic_bridge.rs`: the governance-to-grant bridge. The grant
    contract's `batch_init` is handed in as a function by the caller, which
    makes the cross-contract call; the bridge's contracts hold for whatever
    it answers.
  - `certificate_minter.rs`: completion certificates.
  - `sorususu.rs`: the savings circle (rounds, payouts with a gas bounty,
    deficit votes, reliability scores).
- `app/` holds the Soroban contracts: they load the state from storage, check
  authorization, call the library, move the tokens and publish the events.
- `tests/` exercises the library.
