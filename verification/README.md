# vault

The rules of a multi-token share vault (one pool per SPL token, shares that
grow with injected yield, withdrawal fees, a withdrawal queue, daily limits,
pausing and emergency withdrawal), verified with Verus.

- `src/` — the verified library.
  - `utils.rs`: fee arithmetic and the protocol's limits.
  - `state/`: the configuration, pool and withdrawal-request accounts; the
    pool's share arithmetic and its bookkeeping of deposits, withdrawals and
    yield.
  - `instructions/`: for each instruction, the checks it makes (in order),
    what it pays out, queues or creates, and how it books the change in the
    pool; the read-only previews.
  - `laws.rs`: properties across instructions (no dilution, no profit from a
    deposit/withdraw round trip, previews agree with the instructions, what a
    pause stops and what stays open, inactive pools, daily limit and queueing
    over it, finality of processed requests).
- `app/` — the on-chain program around the library: account layouts and
  seeds, token transfers, mints and burns, events and entry points.
- `tests/` — tests of the library on concrete values.
