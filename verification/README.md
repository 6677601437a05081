# escrow

A token escrow for a buyer, a seller and an arbiter, verified with Verus.

- `src/` is the library. `contract.rs` holds the entry points, `model.rs` says
  what each of them does, `laws.rs` proves what holds of the contract as a whole:
  who has to sign what, which states follow which, and that a contract which is
  neither buyer nor seller holds, by the transfers it asks for, exactly what it
  still has to pay out. `storage.rs`, `env.rs`, `address.rs`,
  `errors.rs` and `admin.rs` are what they work on.
- `app/` is the Soroban contract around it: it loads what is stored, calls the
  library, and carries out the authorisations, transfers and events that the
  library asks for, in order.
- `tests/` runs the library.
