# risk_flags

Risk flags of a bounty escrow on Soroban, verified with Verus.

Each bounty has up to four flags: high risk, under review, restricted and
deprecated. The admin sets, adds or clears them at once, or proposes a change
that anyone may carry out after a delay. Every change publishes an event with
the flags before and after.

* `src/model.rs` says what each operation does, as a function on the state of
  the host.
* `src/risk_flag.rs` holds the operations, proved to do just that.
* `src/laws.rs` holds what follows for all of them: who may change flags, that
  refusals change nothing, that a proposal waits for its delay, that the events
  tell the flags in an unbroken chain.
* `src/host.rs` holds the calls into `soroban_sdk` and what is believed of them.
* `app/` holds the contract's entry points.
