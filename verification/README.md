# balances

A payments engine verified with Verus. It applies deposits, withdrawals,
disputes, resolutions and chargebacks to client accounts and reports, for each
account, the available, held and total funds and whether it is locked.

- `src/types.rs`: client and transaction ids, positive amounts, and the calls
  into `fixnum` (checked addition, exact decimal parsing).
- `src/input.rs`: transactions, and how a CSV record becomes one.
- `src/output.rs`: the account entry that the engine reports.
- `src/engine.rs`: the engine; `src/engine/model.rs` states what each
  transaction does as a function on a mathematical state, and the engine's
  methods are proved to follow it. `src/engine/preservation.rs` proves that every
  transaction keeps the state's invariant (held funds are the sum of the
  client's disputed deposits, idle accounts are dropped), and
  `src/engine/laws.rs` proves properties that span transactions;
  `src/engine/history.rs` replays whole sequences of transactions and proves
  that each account's figures follow from its accepted transactions, and that
  one client's transactions alone give the same account.
- `app/`: the command-line program (CSV in, CSV out).

Amounts are `fixnum` `FixedPoint<i64, U4>` values; the library works on their
raw integer representation, where `1` stands for `0.0001`.
