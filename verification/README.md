# StarPass

A membership contract for Stellar, written in Verus. Creators register and define
tiers with a price, a duration and a supply. Fans buy passes for tiers, renew,
pause and resume them, and have access while a pass is valid. The price of a pass
is split between the protocol and the creator; the creator's part is held in
escrow for a lock period, can be released early if the admin proposes it and the
creator approves, and is then the creator's to withdraw.

## Layout

- `src/` is the verified library. A call of `StarPassContract` takes an `Env`,
  which holds the time, the contract's entries and a list of effects (signatures,
  token transfers, events, a new code) for the ledger to carry out. Its contract
  states exactly when the call is refused, with which reason, and what the `Env`
  is afterwards.
  - `types`, `address`, `failure`, `effect`: the records, and what is said to
    callers and asked of the ledger.
  - `table`, `storage`, `env`: the entries, the journal of writes, and the ledger
    as one call sees it.
  - `admin`, `tiers`, `passes`, `pricing`, `earnings`, `permissions`, `queries`,
    `metadata`, `decimal`: the calls, by subject.
  - `calls`: the calls that change the ledger, taken together.
  - `order`: what holds of the entries at all times, with the proof that every
    call keeps it.
  - `laws`: what holds of the contract as a whole, of the creators' books, escrow,
    sales, access, histories of calls, and the entries that a call reads.
- `app/` is the contract on the ledger: it loads the entries that a call reads,
  runs the call, carries out its effects in order and writes the journaled entries
  back.
- `tests/` runs the library on concrete values.

## What is taken on trust

The text form of an address (its strkey) comes from `soroban_sdk`. One function in
`src/address.rs` makes that call; its stated result is believed, not proved.
