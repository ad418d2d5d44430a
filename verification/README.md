# async_vault

The decisions of two instructions of an asynchronous token vault, verified
with Verus:

- `close_vault` checks the accounts it is given (the authority's signature, writability, the vault's
  derived address, its authority, the reserve and pending-deposit accounts,
  the token accounts' owners, mints and programs, no writable account twice),
  refuses while requests are pending, shares are outstanding or a request
  queue is not drained, and otherwise returns the token-program calls that
  sweep both vault token accounts into the authority, close them and hand the
  share mint's authority back.
- `shutdown_vault` checks the authority's signature, the vault's address and authority and marks the
  vault as winding down, unless it is paused, already winding down or its
  redemptions are paused.

Layout:

- `src/address.rs`: addresses, the vault's seeds, and the derivation of its
  address (the one call into an outside crate).
- `src/error.rs`, `src/state.rs`: the refusals and the accounts' contents.
- `src/token.rs`: token-program calls and the ledger they act on.
- `src/instructions/`: the two instructions, their contracts and laws.
- `app/`: the program around the library: loading accounts, making the calls.
- `tests/`: scenarios of both instructions.
