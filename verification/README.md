# governance

The rules of the Dabra governance program for Solana, written in Verus and
proved against their contracts.

- `src/` is the verified library. `state/` holds the accounts (the Dabra, its
  DabraConfig, the locks of a token owner record) with the checks made on
  them; `processor/` holds, for each instruction, the decision it takes from
  the accounts it is given and the data read from them; `laws.rs` states the
  properties that hold across instructions. Program addresses are derived by
  `solana-program`, and account checks are made by `spl-governance-tools`,
  each behind a small trusted wrapper whose contract says what it claims.
- `app/` is the Solana side: it reads the accounts and sysvars, decodes and
  encodes account data with borsh, asks the library what to do and performs
  it (creating accounts, writing data, calling the token program).
- `tests/` runs the library on concrete values.
