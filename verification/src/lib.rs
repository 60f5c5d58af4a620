//! Verified model of the learning-platform contracts: a reward pool, a stake
//! vault, a soulbound badge registry, a course registry and a quest engine.
//! Each contract's storage is a plain value; each entry point is a transition
//! that either refuses the call (changing nothing) or updates the storage and
//! lists the outside work (token transfers, calls into other contracts,
//! events) that the host performs for it.
pub mod table;
pub mod common;
pub mod quest_types;
pub mod quest_engine;
pub mod course_registry;
pub mod reward_pool;
pub mod stake_vault;
pub mod badge_nft;
