# lockup

A Secret Network contract, verified with Verus. Users lock an incentivized token (a SNIP-20 token)
and share, in proportion to what they have locked, the rewards that vest from a pool block by block
until an end height. The admin can stop and resume the contract, change its two tokens, hand it
over, and claim the reward balance from a claim height on. Users read their own data with viewing
keys.

## Layout

- `src/contract.rs`: setting up, handling messages, answering questions.
- `src/model.rs`: what each of these does, as functions from what is stored to what is stored and
  answered. The contracts of `contract.rs` speak of them.
- `src/rewards.rs`: vesting, sharing out, units.
- `src/storage.rs`: the records in a key-value store, byte for byte.
- `src/laws.rs`: what holds of the contract as a whole: invariants, what one message undoes of
  another, what stays unchanged.
- `src/viewing_key.rs`, `src/crypto.rs`, `src/snip20.rs`, `src/padding.rs`, `src/text.rs`: viewing
  keys, digests, calls of token contracts, padding, text.
- `src/msg.rs`, `src/state.rs`, `src/env.rs`, `src/error.rs`, `src/constants.rs`: the types.
- `app/`: the entry points on the chain. They copy a transaction's records out of the chain's store
  and back, turn messages and answers into JSON and back, and ask token contracts for balances.

## What is trusted

The functions marked `#[verifier::external_body]` call `secret-toolkit`, `secret-cosmwasm-std` and
`secret-cosmwasm-storage`. Each says in its doc comment which function it calls and what is claimed
of it.

## Numbers that do not fit

Amounts are 128-bit numbers. `handle` and `query` ask that no intermediate result exceeds them;
`try_handle` and `try_query` test it, and change nothing where it does not hold.
