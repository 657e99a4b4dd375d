# stellar_lend

The verified core of a Soroban lending protocol, written in Verus.

- `src/lending/rounding.rs` — depositor-friendly rounding (down for deposits and
  repayments, up for withdrawals and liquidations).
- `src/lending/borrow.rs` — borrowing against 150% collateral under a debt ceiling,
  simple-interest accrual at a fixed 5% variable rate or a stable rate and a depeg stability fee,
  repayment (interest first), rate switching, dust, risk parameters.
- `src/lending/deposit.rs` — vault deposits under a cap.
- `src/lending/flash_loan.rs` — flash loans with TWAP, liquidity-cap, price-impact and
  concurrency guards, in three steps around the host's transfer and callback.
- `src/lending/reentrancy.rs`, `src/hello_world/reentrancy.rs` — reentrancy guards over
  the set of held locks (`src/locks.rs`).
- `src/lending/wide.rs` — exact wide-integer arithmetic for the interest formula.

The state an operation reads and writes is passed in explicitly (settings, one user's
record, the ledger time, the oracle's answer), and the
contracts state the resulting state and result exactly.

`app/` holds the contract-side code: it loads those values from Soroban storage, calls
the library, stores the results, and does the host's work (authorization, token
transfers, cross-contract calls, events).
