# nezha_staking

A verified library for a no-loss lottery staking program on Solana and the lending and farming
pools that it invests in. Every function in `src/` carries a contract that Verus proves.

## Layout

- `src/u192.rs`, `src/fixed_point/`: 192-bit integers and the `FixedPoint<D>` decimal type, its
  checked arithmetic, precision changes and its decimal text form (written and read back).
- `src/state/`: the staking program's accounts (epochs, stakes, stake update requests, winners)
  with their sizes and byte encodings, floating balances and cumulative return rates.
- `src/error.rs`: the staking errors and their numbering as custom program error codes.
- `src/instruction.rs`: instruction values and the staking program's instruction data.
- `src/lending/`: the lending pool: decimals and rates, interest rate model, deposits, withdrawals,
  borrowing and interest accrual, account layouts, instructions and instruction builders.
- `src/farming/`: the farming pool: rewards schedules, rewards per share, users' debts and pending
  rewards, account layouts and instructions.
- `src/bytes.rs`: little-endian encoding helpers shared by the layouts.
- `src/command.rs`: the commands of the command-line client.
- `tests/`: tests of the library.
- `app/`: conversions to the Solana SDK types and the mapping of program errors.

## Main properties proved

- Byte layouts: reading back what was written gives the value back, and writing back what was
  read gives the bytes back (accounts and instructions of both pools).
- The decimal text of a fixed-point number reads back as the same number.
- Error codes read back as the same error, except the two documented collisions.
- Farming: an update at a slot settles the pool (a second update changes nothing), and a user owes
  nothing right after staking or unstaking.
- Lending: converting liquidity to shares and back never gains, and interest accrual never lowers
  the borrows or the cumulative borrow rate.
- Account encodings never exceed the sizes that the accounts are allocated with.
