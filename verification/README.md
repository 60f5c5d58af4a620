# learn_contracts

The rules of a learning platform's Soroban contracts, verified with Verus:

- `reward_pool`: a token pool that pays whitelisted spenders' rewards;
- `stake_vault`: token staking with a week-long lock and tiered multipliers;
- `badge_nft`: soulbound course badges, one per learner and course;
- `course_registry`: courses, learners' progress, badges and completion
  rewards;
- `quest_engine`: employer-funded build quests, admin-verified explore
  quests, the fee and staking-boost payout formula, and disputes.

Each contract's storage is a plain value with a view (`@`) made of `Map`s and
fields. Each entry point is a verified transition: it either refuses the call
with a `ContractError`, leaving the storage as it was, or updates the storage
and returns the outside work the host must perform (token transfers, calls
into other contracts, events), in order. Values the host supplies, such as the
ledger time, the signers of the invocation, a staking multiplier or a token
balance, are arguments. Public proof functions named `law_*` state what holds
across calls.

Layout:

- `src/`: the verified library (`table.rs` is the storage map, `common.rs`
  the shared types and errors);
- `tests/`: the contracts' scenarios run against the library;
- `app/`: the Soroban contracts themselves, which load storage entries, call
  the library, then write the entries back and perform the outside work.
