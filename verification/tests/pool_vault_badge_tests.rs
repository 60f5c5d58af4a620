use learn_contracts::badge_nft::{Badge, BadgeNFT, MAX_BADGES_PER_LEARNER};
use learn_contracts::common::{Address, ContractError, Invocation, Party};
use learn_contracts::reward_pool::{self, RewardPool};
use learn_contracts::stake_vault::{self, StakeInfo, StakeVault, DEFAULT_LOCK_PERIOD_SECONDS};

fn account(n: u8) -> Address {
    Address::new(0, [n; 32])
}

fn token() -> Address {
    Address::new(1, [99; 32])
}

fn at(now: u64, signers: &[Address]) -> Invocation {
    Invocation::new(now, signers.to_vec())
}

fn ok<T>(r: Result<T, ContractError>) -> T {
    match r {
        Ok(v) => v,
        Err(e) => panic!("{}", e.message()),
    }
}

// ── Reward pool ───────────────────────────────────────────────────────────────

fn pool_with_admin() -> (RewardPool, Address) {
    let mut pool = RewardPool::new();
    let admin = account(1);
    let effs = ok(pool.initialize(&at(0, &[admin]), admin, token()));
    assert_eq!(effs.len(), 1);
    (pool, admin)
}

#[test]
fn pool_initialize_twice_is_refused() {
    let (mut pool, admin) = pool_with_admin();
    assert_eq!(pool.initialize(&at(0, &[admin]), admin, token()), Err(ContractError::AlreadyInitialized));
}

#[test]
fn pool_footprint_counts_spenders() {
    let (mut pool, admin) = pool_with_admin();
    let inv = at(0, &[admin]);
    assert_eq!(pool.estimated_storage_footprint(), 0);
    ok(pool.add_approved_spender(&inv, admin, account(2)));
    ok(pool.add_approved_spender(&inv, admin, account(3)));
    ok(pool.add_approved_spender(&inv, admin, account(2)));
    assert_eq!(pool.estimated_storage_footprint(), 2);
    ok(pool.remove_approved_spender(&inv, admin, account(2)));
    assert_eq!(pool.estimated_storage_footprint(), 1);
    assert_eq!(pool.remove_approved_spender(&inv, admin, account(2)), Err(ContractError::SpenderNotFound));
    assert_eq!(pool.estimated_storage_footprint(), 1);
}

#[test]
fn pool_spender_management_is_admin_only() {
    let (mut pool, _admin) = pool_with_admin();
    let intruder = account(9);
    assert_eq!(pool.add_approved_spender(&at(0, &[intruder]), intruder, account(2)), Err(ContractError::Unauthorized));
    let fresh = RewardPool::new();
    let mut fresh = fresh;
    assert_eq!(fresh.add_approved_spender(&at(0, &[intruder]), intruder, account(2)), Err(ContractError::NotInitialized));
}

#[test]
fn pool_distribute_pays_whitelisted_caller() {
    let (mut pool, admin) = pool_with_admin();
    let spender = Address::new(1, [7; 32]);
    ok(pool.add_approved_spender(&at(0, &[admin]), admin, spender));
    let learner = account(20);
    let effs = ok(pool.distribute_reward(&at(0, &[spender]), spender, learner, 500));
    assert_eq!(
        effs[0],
        reward_pool::Effect::Transfer { token: token(), from: Party::ThisContract, to: Party::Other(learner), amount: 500 }
    );
    assert_eq!(pool.distribute_reward(&at(0, &[spender]), spender, learner, 0), Err(ContractError::AmountNotPositive));
    let other = account(21);
    assert_eq!(pool.distribute_reward(&at(0, &[other]), other, learner, 5), Err(ContractError::NotAuthorizedSpender));
    assert_eq!(pool.distribute_reward(&at(0, &[]), spender, learner, 5), Err(ContractError::AuthorizationMissing));
}

#[test]
fn pool_pause_stops_payouts() {
    let (mut pool, admin) = pool_with_admin();
    let spender = Address::new(1, [7; 32]);
    ok(pool.add_approved_spender(&at(0, &[admin]), admin, spender));
    ok(pool.set_pause(&at(0, &[admin]), admin, true));
    assert_eq!(pool.distribute_reward(&at(0, &[spender]), spender, account(20), 5), Err(ContractError::ContractPaused));
    ok(pool.set_pause(&at(0, &[admin]), admin, false));
    assert!(pool.distribute_reward(&at(0, &[spender]), spender, account(20), 5).is_ok());
}

#[test]
fn pool_removed_spender_cannot_pay() {
    let (mut pool, admin) = pool_with_admin();
    let spender = Address::new(1, [7; 32]);
    ok(pool.add_approved_spender(&at(0, &[admin]), admin, spender));
    ok(pool.remove_approved_spender(&at(0, &[admin]), admin, spender));
    assert_eq!(pool.distribute_reward(&at(0, &[spender]), spender, account(20), 5), Err(ContractError::NotAuthorizedSpender));
}

#[test]
fn pool_fund_and_sweep_move_tokens() {
    let (pool, admin) = pool_with_admin();
    let donor = account(30);
    let effs = ok(pool.fund_pool(&at(0, &[donor]), donor, 1234));
    assert_eq!(
        effs[0],
        reward_pool::Effect::Transfer { token: token(), from: Party::Other(donor), to: Party::ThisContract, amount: 1234 }
    );
    let wallet = account(31);
    let effs = ok(pool.emergency_sweep(&at(0, &[admin]), admin, wallet, 1234));
    assert_eq!(
        effs[1],
        reward_pool::Effect::Emit(reward_pool::Event::EmergencySweep(reward_pool::EmergencySweep { admin, recovery_wallet: wallet, amount: 1234 }))
    );
    let intruder = account(9);
    assert_eq!(pool.emergency_sweep(&at(0, &[intruder]), intruder, wallet, 1), Err(ContractError::Unauthorized));
    assert_eq!(RewardPool::new().fund_pool(&at(0, &[donor]), donor, 1), Err(ContractError::NotInitialized));
}

#[test]
fn pool_migrate_and_upgrade() {
    let (mut pool, admin) = pool_with_admin();
    assert_eq!(pool.contract_version(), 0);
    ok(pool.migrate(&at(0, &[admin]), admin));
    assert_eq!(pool.contract_version(), reward_pool::VERSION);
    assert_eq!(pool.migrate(&at(0, &[admin]), admin), Err(ContractError::AlreadyAtCurrentVersion));
    let effs = ok(pool.upgrade_contract(&at(0, &[admin]), admin, [5; 32]));
    assert_eq!(effs[0], reward_pool::Effect::UpdateWasm { new_wasm_hash: [5; 32] });
}

// ── Stake vault ───────────────────────────────────────────────────────────────

fn vault() -> (StakeVault, Address) {
    let mut v = StakeVault::new();
    let admin = account(1);
    ok(v.initialize(&at(0, &[admin]), admin, token()));
    (v, admin)
}

#[test]
fn vault_multiplier_tiers() {
    let (mut v, _) = vault();
    let user = account(5);
    assert_eq!(v.get_multiplier(user), 100);
    ok(v.stake(&at(10, &[user]), user, 99));
    assert_eq!(v.get_multiplier(user), 100);
    ok(v.stake(&at(10, &[user]), user, 1));
    assert_eq!(v.get_multiplier(user), 120);
    ok(v.stake(&at(10, &[user]), user, 399));
    assert_eq!(v.get_multiplier(user), 120);
    ok(v.stake(&at(10, &[user]), user, 1));
    assert_eq!(v.get_multiplier(user), 200);
}

#[test]
fn vault_stakes_accumulate_and_restart_lock() {
    let (mut v, _) = vault();
    let user = account(5);
    ok(v.stake(&at(10, &[user]), user, 40));
    let effs = ok(v.stake(&at(20, &[user]), user, 60));
    assert_eq!(v.stakes.get(&user), Some(&StakeInfo { amount: 100, lock_timestamp: 20 }));
    assert_eq!(
        effs[1],
        stake_vault::Effect::Emit(stake_vault::Event::Staked(stake_vault::Staked { user, amount: 60, total_staked: 100, lock_timestamp: 20 }))
    );
}

#[test]
fn vault_unstake_after_lock_returns_everything() {
    let (mut v, _) = vault();
    let user = account(5);
    ok(v.stake(&at(10, &[user]), user, 300));
    assert_eq!(v.unstake(&at(10 + DEFAULT_LOCK_PERIOD_SECONDS - 1, &[user]), user), Err(ContractError::LockPeriodActive));
    let effs = ok(v.unstake(&at(10 + DEFAULT_LOCK_PERIOD_SECONDS, &[user]), user));
    assert_eq!(
        effs[0],
        stake_vault::Effect::Transfer { token: token(), from: Party::ThisContract, to: Party::Other(user), amount: 300 }
    );
    assert_eq!(v.get_multiplier(user), 100);
    assert_eq!(v.unstake(&at(10 + DEFAULT_LOCK_PERIOD_SECONDS, &[user]), user), Err(ContractError::NoStakeFound));
}

#[test]
fn vault_refuses_bad_stakes() {
    let (mut v, admin) = vault();
    let user = account(5);
    assert_eq!(v.stake(&at(0, &[user]), user, 0), Err(ContractError::AmountNotPositive));
    assert_eq!(v.stake(&at(0, &[]), user, 5), Err(ContractError::AuthorizationMissing));
    assert_eq!(StakeVault::new().stake(&at(0, &[user]), user, 5), Err(ContractError::NotInitialized));
    ok(v.stake(&at(0, &[user]), user, i128::MAX));
    assert_eq!(v.stake(&at(0, &[user]), user, 1), Err(ContractError::ArithmeticOverflow));
    assert_eq!(v.initialize(&at(0, &[admin]), admin, token()), Err(ContractError::AlreadyInitialized));
}

#[test]
fn vault_migrate_and_upgrade_are_admin_only() {
    let (mut v, admin) = vault();
    let intruder = account(9);
    assert_eq!(v.migrate(&at(0, &[intruder]), intruder), Err(ContractError::Unauthorized));
    ok(v.migrate(&at(0, &[admin]), admin));
    assert_eq!(v.contract_version(), stake_vault::VERSION);
    assert_eq!(v.migrate(&at(0, &[admin]), admin), Err(ContractError::AlreadyAtCurrentVersion));
    assert_eq!(v.upgrade_contract(&at(0, &[intruder]), intruder, [1; 32]), Err(ContractError::Unauthorized));
    assert!(v.upgrade_contract(&at(0, &[admin]), admin, [1; 32]).is_ok());
}

// ── Badges ────────────────────────────────────────────────────────────────────

fn badges() -> (BadgeNFT, Address) {
    let mut b = BadgeNFT::new();
    let registry = Address::new(1, [50; 32]);
    ok(b.initialize(registry));
    (b, registry)
}

#[test]
fn badge_initialize_twice_is_refused() {
    let (mut b, registry) = badges();
    assert_eq!(b.initialize(registry), Err(ContractError::AlreadyInitialized));
}

#[test]
fn badge_mint_has_and_count() {
    let (mut b, reg) = badges();
    let learner = account(5);
    ok(b.mint_badge(&at(77, &[reg]), reg, learner, 3));
    ok(b.mint_badge(&at(78, &[reg]), reg, learner, 4));
    assert!(b.has_badge(learner, 3));
    assert!(!b.has_badge(learner, 5));
    assert_eq!(b.get_badge_count(learner), 2);
    assert_eq!(b.get_badges(learner), vec![Badge { course_id: 3, minted_at: 77 }, Badge { course_id: 4, minted_at: 78 }]);
    assert_eq!(b.mint_badge(&at(79, &[reg]), reg, learner, 3), Err(ContractError::BadgeAlreadyExists));
}

#[test]
fn badge_revoke_removes_only_that_course() {
    let (mut b, reg) = badges();
    let learner = account(5);
    ok(b.mint_badge(&at(1, &[reg]), reg, learner, 3));
    ok(b.mint_badge(&at(2, &[reg]), reg, learner, 4));
    let effs = ok(b.revoke_badge(&at(3, &[reg]), reg, learner, 3));
    assert_eq!(effs.len(), 1);
    assert!(!b.has_badge(learner, 3));
    assert!(b.has_badge(learner, 4));
    assert_eq!(b.get_badge_count(learner), 1);
    let effs = ok(b.revoke_badge(&at(3, &[reg]), reg, learner, 3));
    assert!(effs.is_empty());
    assert_eq!(b.get_badge_count(learner), 1);
}

#[test]
fn badge_sequence_keeps_courses_unique() {
    let (mut b, reg) = badges();
    let learner = account(5);
    ok(b.mint_badge(&at(1, &[reg]), reg, learner, 3));
    ok(b.mint_badge(&at(2, &[reg]), reg, learner, 4));
    let _ = b.mint_badge(&at(3, &[reg]), reg, learner, 3);
    ok(b.revoke_badge(&at(4, &[reg]), reg, learner, 3));
    ok(b.mint_badge(&at(5, &[reg]), reg, learner, 3));
    let _ = b.mint_badge(&at(6, &[reg]), reg, learner, 4);
    let list = b.get_badges(learner);
    assert_eq!(list, vec![Badge { course_id: 4, minted_at: 2 }, Badge { course_id: 3, minted_at: 5 }]);
    assert_eq!(b.get_badge_count(learner) as usize, list.len());
}

#[test]
fn badge_limit_per_learner() {
    let (mut b, reg) = badges();
    let learner = account(5);
    for c in 0..MAX_BADGES_PER_LEARNER {
        ok(b.mint_badge(&at(1, &[reg]), reg, learner, c));
    }
    assert_eq!(b.mint_badge(&at(1, &[reg]), reg, learner, 1000), Err(ContractError::MaxBadgesReached));
    assert_eq!(b.get_badge_count(learner), 64);
}

#[test]
fn badge_revoke_is_registry_only() {
    let (mut b, reg) = badges();
    let learner = account(5);
    ok(b.mint_badge(&at(1, &[reg]), reg, learner, 3));
    let intruder = account(9);
    assert_eq!(b.revoke_badge(&at(1, &[intruder]), intruder, learner, 3), Err(ContractError::NotAuthorizedRegistry));
    assert_eq!(BadgeNFT::new().revoke_badge(&at(1, &[intruder]), intruder, learner, 3), Err(ContractError::ContractNotInitialized));
    assert!(b.has_badge(learner, 3));
}

#[test]
fn badge_migrate_once() {
    let (mut b, reg) = badges();
    ok(b.migrate(&at(0, &[reg]), reg));
    assert_eq!(b.contract_version(), 1);
    assert_eq!(b.migrate(&at(0, &[reg]), reg), Err(ContractError::AlreadyAtCurrentVersion));
    assert!(b.upgrade_contract(&at(0, &[reg]), reg, [1; 32]).is_ok());
}
