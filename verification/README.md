# price_oracle

A price oracle for a ledger, verified with Verus. Registered sources submit
prices one at a time or commit the Merkle root of a batch, whose prices are then
applied one by one. An administrator and a group of signers configure the
contract. Queries give the latest price of an asset, its dollar value and its
recorded history.

## Layout

- `src/contract.rs`: the entry points, each with its contract.
- `src/model.rs`: what is stored and what each call does to it, in mathematics.
- `src/calls.rs`, `src/laws.rs`: the calls as one relation between states, and the
  properties that hold of every call, of sequences of calls and of every state
  that can be reached.
- `src/storage.rs`, `src/table.rs`: the storage.
- `src/address.rs`, `src/history.rs`: lists that are kept in vectors of the host.
- `src/host.rs`: the functions of `soroban-sdk` that are called, with what is
  taken for granted of them.
- `src/usd.rs`: dollar values.
- `app/`: the oracle on a Soroban ledger. A deployment implements `Policy`, which
  judges deviations, reputations and inclusion proofs, and exports the functions
  of `Oracle`.

An entry point states as a precondition whose authorization it needs. What the
ledger is to do (events, token transfers, rent) is collected in order in
`OracleEnv::effects` and carried out by `app/`.
