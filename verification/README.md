# tla_registry

Renting names under a top level account (TLA), as a Verus library: the lease ledger and token
collection of the registry, the contract that publishes the wallet implementation, and the small
contracts used to develop against them. The functions of `src/` are verified against their contracts,
but for the five small ones named below, which call out of the library; the contracts on chain are thin
shells around it.

## How a call looks

A call takes the registry, what the chain says about the call (`host::Env`) and plain arguments. It
answers with a value and the events it logged (`host::Reply`), or with the reason why it is refused
(`error::ContractError`), and then the registry is as it was. A call into another contract is not made:
it is described (`host::Dispatch`), with the callback that is to hear of its outcome. The callback is a
function of its own, which takes the outcome as an argument.

Each call has a `.._refusal` spec function that says why it would be refused, if it would be, and its
`ensures` says what happens in either case.

## Layout

- `account`, `text`, `ordered`, `totals`, `common`: account ids, text, ordered maps, sums, shared types.
- `types`, `error`, `events`, `host`: what the registry keeps, shows, refuses, logs and asks for.
- `pricing`, `fees`, `lifecycle`, `activity`, `indexes`, `asset_gate`: the rules.
- `registry`, `admin`, `rental`, `callbacks`, `business`, `reclaim`, `marketplace`, `nft`, `views`: the
  calls.
- `legacy`: earlier states of the registry.
- `deployer`: the contract that publishes the wallet implementation.
- `test_ft`, `test_dapp`, `test_staking_pool`: contracts to develop against.
- `laws`: what holds across calls, as proof functions. The laws of a single rule stand beside it.

`app/` holds the contracts themselves: state on chain, JSON, logs and promises.

## What is taken on trust

Five functions call into `near-sdk` or the standard library, and their contracts are believed:
`account::parses_as_account_id`, `account::ascii_text`, `common::key_curve`, `common::sha256` and
`text::json_text`.
