# swiftchain_contracts

The decision logic of the SwiftChain identity/reputation contract, and of the
delivery and escrow contracts that the dispute flow updates, written in Verus
and proved against its contracts.

- `src/types.rs`: addresses (held as strkeys), user profiles, the error type.
- `src/identity.rs`: the identity/reputation contract's state (admin and
  registered profiles) with `init`, `get_admin`, `register_user`,
  `get_user_profile`, each specified by an outcome function over the abstract
  state.
- `src/delivery.rs`, `src/escrow.rs`: delivery and escrow records stored by
  delivery id, with `raise_dispute` and `resolve_dispute`.
- `src/laws.rs`: properties across calls (init once, read after register,
  registration once, stored times never past a later ledger time over any
  run of calls, frame conditions, idempotence of disputes, last
  resolution wins).
- `app/`: the Soroban contracts. Each entry point reads the entries it needs
  from contract storage, lets the verified core decide, and writes the result
  back, extends lifetimes, checks authorization and publishes events.
- `tests/`: scenarios on concrete values.
