# staking_program

A verified core of two Solana staking programs written with Anchor.

- `src/` is the library, verified with Verus:
  - `staking`: stake and destake decisions and the transfers they plan;
  - `pools`: pool setup, rewards and their bookkeeping;
  - `address`: account seeds and derived addresses;
  - `states`, `error`, `events`, `constants`, `amounts`: records, errors, events, ids and powers of ten.
- `app/` holds the Anchor accounts and handlers, which read the clock, call
  the library and make the token transfers.
- `tests/` runs the library on concrete values.
