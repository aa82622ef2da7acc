# solana_workshop

Verified Rust building blocks of a Solana/Anchor workshop.

- `src/` — the library, checked by Verus. The lesson modules (`functions`,
  `ownership`, `borrowing`, `structs`, `enums`, `error_handling`, `traits`,
  `generics`, `lifetimes`, `anchor_patterns`) hold fee arithmetic, balance
  bookkeeping, validation, a simulated derived address and a token ledger.
  The program modules (`counter`, `custom_error`, `event_emit`,
  `sol_transfer`) hold each Anchor program's rules as state transitions: an
  instruction takes the account data and plain values (keys as 32-byte
  arrays, a Unix timestamp, lamport balances) and gives the new data, the
  event to emit, or the transfer to make. `text` and `parsing` render and
  read numbers.
- `tests/` — unit tests of the library.
- `app/` — the lessons' printing, the floating-point displays, and the
  Anchor glue: error codes, events, the clock, and system-program transfers.
