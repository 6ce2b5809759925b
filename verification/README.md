# mining-execution-token-mining

Token mining executions of a chain: creating them with a 128-bit unique id,
transferring them between accounts, recording the result of running them, and
assigning them to token mining configurations.

- `src/types.rs`: identifiers, stored records, origins, errors and events.
- `src/configuration.rs`: what is read of the token mining configurations.
- `src/unique_id.rs`: the unique id of a new execution (SCALE encoding, then
  Blake2-128 through `sp-io`).
- `src/pallet.rs`: the storage, its model, and every call and query, each with
  a contract over the model.
- `src/laws.rs`: what holds across calls (the storage invariant, read after
  write, refused calls, ownership transfer, association without duplicates).
- `app/lib.rs`: SCALE codec for the stored records and the two calls whose
  preconditions the chain enforces by panicking.
