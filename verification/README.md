# pallet-timeshares

A timeshare registry for hotel rooms, written in Verus. Hotels register and
are activated; an active hotel mints timeshares for its rooms; owners set
prices, transfer timeshares and sell them for the chain's currency.

- `src/types.rs`: accounts, hashes, statuses, errors, events, rooms and timeshares.
- `src/scale.rs`: the SCALE encodings of what the registry hashes (encoding is done by `parity-scale-codec`).
- `src/hashing.rs`: room hashes, timeshare ids and DNA (Blake2 from `sp-io`).
- `src/storage.rs`: a keyed store with distinct keys, viewed as a `Map`.
- `src/model.rs`: the registry's storage as a mathematical value, each call as a function on it, and the consistency invariant.
- `src/laws.rs`: proofs that every call keeps the registry consistent, and what calls promise together.
- `src/pallet.rs`: the registry and its calls, each verified against the model; `Config` is what the hosting chain provides (randomness, block number, currency), with spec functions that say what it answers and what a transfer does.
- `src/genesis.rs`: the registry's initial state.
- `src/chain.rs`: `MemoryChain`, a verified in-memory implementation of `Config` (randomness, block number, balances and a record of transfers) to run the registry on.
- `app/lib.rs`: serde forms of the hotel status and of the genesis configuration.
