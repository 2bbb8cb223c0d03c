# cw_vault

A vault contract for CosmWasm: users deposit two native tokens in a 1:1 ratio and receive
shares; bonding splits the shares between two strategy contracts, one per token; unbonding
runs through a start, a confirmation by the strategy, a lock period and a return of tokens.

- `src/` is the verified library. `state::Vault` models the contract's storage, and each
  message is a method of it whose contract states the storage after the message and the
  answer, as the transitions in `model.rs` define them. `laws.rs` proves what holds across
  messages: the storage invariant, that refused messages change nothing, and the ordering
  rules of unbonding.
- `app/` holds the CosmWasm entry points: it loads the storage into a `Vault`, runs the
  library, queries the strategy contracts the library asks about, and writes the storage
  back. It also holds the JSON forms of the messages and stand-in strategy contracts for
  cw-multi-test.
- `tests/` drives the library through the scenarios of a small simulated chain.
