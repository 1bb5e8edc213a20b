# bettapay_settlement

The BettaPay settlement contract's logic as a Verus library: merchant
registration, settlement rules and their fallback chain, fee splits,
payment records, the pause model, admin recovery and the timelock for
admin operations.

- `src/` is verified. `model.rs` states what each entry point does as a
  function from the contract state and the host to a new state, the
  published events and a result, or an error that changes nothing;
  `contract.rs` implements the entry points against those models;
  `laws.rs` proves properties that span calls (the state invariant, rule
  precedence, read-after-write of payments, the recovery and timelock
  flows). `fees.rs` holds the fee arithmetic, `assoc.rs` the keyed
  storage areas, `env.rs` the host's clock, authorizations, events and
  governance contracts, `address.rs` addresses and their XDR encoding.
- `tests/` runs the library on concrete values.
- `app/` is the Soroban contract around the library: it loads and stores
  the state, asks the host for authorizations and for the governance fee
  configuration, and publishes the events the library reports.
