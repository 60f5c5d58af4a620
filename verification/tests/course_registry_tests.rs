use std::collections::HashMap;

use learn_contracts::badge_nft::{self, BadgeNFT};
use learn_contracts::common::{Address, ContractError, Invocation, LearnerKey, Party};
use learn_contracts::course_registry::{self, CourseRegistry, Effect, Event, BASE_REWARD_AMOUNT, DEFAULT_TOTAL_MODULES_BOUND, VERSION};
use learn_contracts::reward_pool::{self, RewardPool};

// ── Helpers ───────────────────────────────────────────────────────────────────

fn account(n: u8) -> Address {
    Address::new(0, [n; 32])
}

fn dummy_hash() -> [u8; 32] {
    [1u8; 32]
}

fn ok<T>(r: Result<T, ContractError>) -> T {
    match r {
        Ok(v) => v,
        Err(e) => panic!("{}", e.message()),
    }
}

fn auth(signers: &[Address]) -> Invocation {
    Invocation::new(100, signers.to_vec())
}

/// The registry together with the contracts it calls, and the token ledger.
struct World {
    registry: CourseRegistry,
    registry_addr: Address,
    badge: Option<(BadgeNFT, Address)>,
    pool: Option<(RewardPool, Address)>,
    balances: HashMap<Address, i128>,
    last_events: Vec<Event>,
}

impl World {
    fn balance(&self, a: &Address) -> i128 {
        *self.balances.get(a).unwrap_or(&0)
    }

    /// Runs what an accepted registry call asks of the host.
    fn perform(&mut self, effects: Vec<Effect>) {
        self.last_events.clear();
        for e in effects {
            match e {
                Effect::Emit(ev) => self.last_events.push(ev),
                Effect::MintBadge { badge_nft, learner, course_id } => {
                    let reg = self.registry_addr;
                    let (badge, addr) = self.badge.as_mut().expect("no badge contract");
                    assert_eq!(*addr, badge_nft);
                    ok(badge.mint_badge(&auth(&[reg]), reg, learner, course_id));
                }
                Effect::TryDistributeReward { pool, learner, course_id, amount, clear_pending } => {
                    let reg = self.registry_addr;
                    let mut distributed = false;
                    if let Some((p, addr)) = self.pool.as_ref() {
                        assert_eq!(*addr, pool);
                        if let Ok(pool_effects) = p.distribute_reward(&auth(&[reg]), reg, learner, amount) {
                            let pool_addr = *addr;
                            for pe in pool_effects {
                                if let reward_pool::Effect::Transfer { from, to, amount, .. } = pe {
                                    let f = match from { Party::ThisContract => pool_addr, Party::Other(a) => a };
                                    let t = match to { Party::ThisContract => pool_addr, Party::Other(a) => a };
                                    *self.balances.entry(f).or_insert(0) -= amount;
                                    *self.balances.entry(t).or_insert(0) += amount;
                                }
                            }
                            distributed = true;
                        }
                    }
                    let more = self.registry.settle_reward(learner, course_id, distributed, clear_pending);
                    for m in more {
                        if let Effect::Emit(ev) = m {
                            self.last_events.push(ev);
                        }
                    }
                }
                Effect::UpdateWasm { .. } => {}
            }
        }
    }

    fn has_badge(&self, learner: Address, course_id: u32) -> bool {
        self.badge.as_ref().unwrap().0.has_badge(learner, course_id)
    }

    fn has_pending(&self, learner: Address, id: u32) -> bool {
        self.registry.pending_rewards.contains(&LearnerKey { learner, id })
    }
}

fn setup() -> World {
    World {
        registry: CourseRegistry::new(),
        registry_addr: Address::new(1, [200; 32]),
        badge: None,
        pool: None,
        balances: HashMap::new(),
        last_events: Vec::new(),
    }
}

fn initialize(w: &mut World, admin: Address) {
    ok(w.registry.initialize(&auth(&[admin]), admin));
}

fn create_course(w: &mut World, admin: Address, instructor: Address, modules: u32, hash: [u8; 32]) -> u32 {
    let (id, effs) = ok(w.registry.create_course(&auth(&[admin]), admin, instructor, modules, hash));
    w.perform(effs);
    id
}

/// Seeds an initialized registry with one five-module course.
fn setup_with_course(w: &mut World) -> (Address, Address, u32) {
    let admin = account(10);
    let instructor = account(11);
    initialize(w, admin);
    let id = create_course(w, admin, instructor, 5, dummy_hash());
    (admin, instructor, id)
}

fn complete(w: &mut World, verifier: Address, learner: Address, id: u32) {
    let effs = ok(w.registry.complete_module(&auth(&[verifier]), verifier, learner, id));
    w.perform(effs);
}

fn setup_badge_nft(w: &mut World, admin: Address) {
    let mut badge = BadgeNFT::new();
    ok(badge.initialize(w.registry_addr));
    let addr = Address::new(1, [201; 32]);
    w.badge = Some((badge, addr));
    ok(w.registry.set_badge_nft_address(&auth(&[admin]), admin, addr));
}

/// Deploys a reward pool funded with 100 tokens; `whitelist` adds the
/// registry as an approved spender.
fn setup_reward_pool(w: &mut World, admin: Address, whitelist: bool) -> Address {
    let mut pool = RewardPool::new();
    let token = Address::new(1, [202; 32]);
    let addr = Address::new(1, [203; 32]);
    ok(pool.initialize(&auth(&[admin]), admin, token));
    if whitelist {
        let reg = w.registry_addr;
        ok(pool.add_approved_spender(&auth(&[admin]), admin, reg));
    }
    w.balances.insert(addr, 1_000_000_000);
    w.pool = Some((pool, addr));
    ok(w.registry.set_reward_pool_address(&auth(&[admin]), admin, addr));
    addr
}

// ── initialize ────────────────────────────────────────────────────────────────

#[test]
fn test_initialize_with_auth_succeeds() {
    let mut w = setup();
    let admin = account(10);
    ok(w.registry.initialize(&auth(&[admin]), admin));
    assert_eq!(w.registry.admin, Some(admin));
}

#[test]
#[should_panic]
fn test_initialize_without_auth_panics() {
    let mut w = setup();
    let admin = account(10);
    ok(w.registry.initialize(&auth(&[]), admin));
}

#[test]
fn test_create_course_returns_id_one() {
    let mut w = setup();
    let admin = account(10);
    initialize(&mut w, admin);
    let id = create_course(&mut w, admin, account(11), 3, dummy_hash());
    assert_eq!(id, 1);
}

// ── create_course ─────────────────────────────────────────────────────────────

#[test]
fn test_course_count_increments() {
    let mut w = setup();
    let admin = account(10);
    initialize(&mut w, admin);
    assert_eq!(w.registry.course_count(), 0);
    create_course(&mut w, admin, account(11), 2, dummy_hash());
    assert_eq!(w.registry.course_count(), 1);
    create_course(&mut w, admin, account(11), 5, dummy_hash());
    assert_eq!(w.registry.course_count(), 2);
}

#[test]
#[should_panic(expected = "total_modules must be greater than 0")]
fn test_zero_modules_panics() {
    let mut w = setup();
    let admin = account(10);
    initialize(&mut w, admin);
    create_course(&mut w, admin, account(11), 0, dummy_hash());
}

#[test]
#[should_panic(expected = "total_modules exceeds bound")]
fn test_total_modules_above_bound_panics() {
    let mut w = setup();
    let admin = account(10);
    initialize(&mut w, admin);
    create_course(&mut w, admin, account(11), DEFAULT_TOTAL_MODULES_BOUND + 1, dummy_hash());
}

#[test]
#[should_panic(expected = "Unauthorized: Caller is not the protocol admin")]
fn test_unauthorized_admin_panics() {
    let mut w = setup();
    let true_admin = account(10);
    let fake_admin = account(12);
    initialize(&mut w, true_admin);
    create_course(&mut w, fake_admin, account(11), 3, dummy_hash());
}

#[test]
fn test_course_created_event_emitted() {
    let mut w = setup();
    let admin = account(10);
    initialize(&mut w, admin);
    create_course(&mut w, admin, account(11), 4, dummy_hash());
    assert_eq!(w.last_events.len(), 1);
}

// ── update_metadata ───────────────────────────────────────────────────────────

fn update_metadata(w: &mut World, signer: Address, id: u32, hash: [u8; 32]) {
    let effs = ok(w.registry.update_metadata(&auth(&[signer]), id, hash));
    w.perform(effs);
}

#[test]
fn test_update_metadata_success() {
    let mut w = setup();
    let (_, instructor, id) = setup_with_course(&mut w);
    update_metadata(&mut w, instructor, id, [2u8; 32]);
    assert_eq!(ok(w.registry.get_course(id)).metadata_hash, [2u8; 32]);
}

#[test]
#[should_panic(expected = "Course not found")]
fn test_update_nonexistent_course() {
    let mut w = setup();
    initialize(&mut w, account(10));
    update_metadata(&mut w, account(11), 99, dummy_hash());
}

#[test]
fn test_update_metadata_emits_event() {
    let mut w = setup();
    let (_, instructor, id) = setup_with_course(&mut w);
    update_metadata(&mut w, instructor, id, [2u8; 32]);
    assert_eq!(w.last_events.len(), 1);
}

#[test]
fn test_update_metadata_multiple_times() {
    let mut w = setup();
    let (_, instructor, id) = setup_with_course(&mut w);
    update_metadata(&mut w, instructor, id, [2u8; 32]);
    update_metadata(&mut w, instructor, id, [3u8; 32]);
    assert_eq!(ok(w.registry.get_course(id)).metadata_hash, [3u8; 32]);
}

// ── enroll ────────────────────────────────────────────────────────────────────

fn enroll(w: &mut World, learner: Address, id: u32) {
    ok(w.registry.enroll(&auth(&[learner]), learner, id));
}

#[test]
fn test_enroll_success() {
    let mut w = setup();
    let (_, _, id) = setup_with_course(&mut w);
    enroll(&mut w, account(20), id);
}

#[test]
fn test_enroll_multiple_learners_same_course() {
    let mut w = setup();
    let (_, _, id) = setup_with_course(&mut w);
    enroll(&mut w, account(20), id);
    enroll(&mut w, account(21), id);
}

#[test]
fn test_enroll_same_learner_different_courses() {
    let mut w = setup();
    let admin = account(10);
    initialize(&mut w, admin);
    let id_1 = create_course(&mut w, admin, account(11), 4, dummy_hash());
    let id_2 = create_course(&mut w, admin, account(11), 8, dummy_hash());
    let learner = account(20);
    enroll(&mut w, learner, id_1);
    enroll(&mut w, learner, id_2);
}

#[test]
#[should_panic(expected = "Course not found")]
fn test_enroll_panics_when_course_does_not_exist() {
    let mut w = setup();
    initialize(&mut w, account(10));
    enroll(&mut w, account(20), 99);
}

#[test]
#[should_panic(expected = "Learner already enrolled")]
fn test_enroll_panics_when_learner_already_enrolled() {
    let mut w = setup();
    let (_, _, id) = setup_with_course(&mut w);
    let learner = account(20);
    enroll(&mut w, learner, id);
    enroll(&mut w, learner, id);
}

#[test]
fn test_create_and_get_course() {
    let mut w = setup();
    let admin = account(10);
    let instructor = account(11);
    initialize(&mut w, admin);
    let course_id = create_course(&mut w, admin, instructor, 5, dummy_hash());
    let retrieved_course = ok(w.registry.get_course(course_id));
    assert_eq!(retrieved_course.instructor, instructor);
    assert_eq!(retrieved_course.total_modules, 5);
    assert_eq!(retrieved_course.metadata_hash, dummy_hash());
    assert!(retrieved_course.active);
}

#[test]
#[should_panic(expected = "Course not found")]
fn test_get_nonexistent_course() {
    let mut w = setup();
    initialize(&mut w, account(10));
    let _ = ok(w.registry.get_course(999));
}

#[test]
fn test_multiple_courses() {
    let mut w = setup();
    let admin = account(10);
    let instructor1 = account(11);
    let instructor2 = account(12);
    initialize(&mut w, admin);
    let course_id1 = create_course(&mut w, admin, instructor1, 10, dummy_hash());
    let course_id2 = create_course(&mut w, admin, instructor2, 7, [2u8; 32]);
    let c1 = ok(w.registry.get_course(course_id1));
    let c2 = ok(w.registry.get_course(course_id2));
    assert_eq!(c1.instructor, instructor1);
    assert_eq!(c1.total_modules, 10);
    assert_eq!(c2.instructor, instructor2);
    assert_eq!(c2.total_modules, 7);
    assert_ne!(c1.instructor, c2.instructor);
}

// ── get_progress ─────────────────────────────────────────────────────────────

#[test]
fn test_get_progress_returns_zero_after_enroll() {
    let mut w = setup();
    let (_, _, id) = setup_with_course(&mut w);
    let learner = account(20);
    enroll(&mut w, learner, id);
    assert_eq!(w.registry.get_progress(learner, id), 0);
}

#[test]
fn test_get_progress_returns_zero_when_unenrolled() {
    let mut w = setup();
    let (_, _, id) = setup_with_course(&mut w);
    assert_eq!(w.registry.get_progress(account(20), id), 0);
}

// ── is_course_finished ────────────────────────────────────────────────────────

#[test]
fn test_is_course_finished_unenrolled_returns_false() {
    let mut w = setup();
    let admin = account(10);
    initialize(&mut w, admin);
    create_course(&mut w, admin, account(11), 3, dummy_hash());
    assert!(!ok(w.registry.is_course_finished(account(20), 1)));
}

#[test]
fn test_is_course_finished_partial_progress_returns_false() {
    let mut w = setup();
    let admin = account(10);
    let learner = account(20);
    initialize(&mut w, admin);
    create_course(&mut w, admin, account(11), 5, dummy_hash());
    w.registry.progress.insert(LearnerKey { learner, id: 1 }, 3);
    assert!(!ok(w.registry.is_course_finished(learner, 1)));
}

#[test]
fn test_is_course_finished_exact_progress_returns_true() {
    let mut w = setup();
    let admin = account(10);
    let learner = account(20);
    initialize(&mut w, admin);
    create_course(&mut w, admin, account(11), 4, dummy_hash());
    w.registry.progress.insert(LearnerKey { learner, id: 1 }, 4);
    assert!(ok(w.registry.is_course_finished(learner, 1)));
}

#[test]
fn test_is_course_finished_excess_progress_returns_true() {
    let mut w = setup();
    let admin = account(10);
    let learner = account(20);
    initialize(&mut w, admin);
    create_course(&mut w, admin, account(11), 3, dummy_hash());
    w.registry.progress.insert(LearnerKey { learner, id: 1 }, 99);
    assert!(ok(w.registry.is_course_finished(learner, 1)));
}

#[test]
#[should_panic(expected = "Course not found")]
fn test_is_course_finished_invalid_course_panics() {
    let mut w = setup();
    initialize(&mut w, account(10));
    ok(w.registry.is_course_finished(account(20), 99));
}

// ── set_course_status ─────────────────────────────────────────────────────────

#[test]
fn test_set_course_status_success() {
    let mut w = setup();
    let (admin, _, id) = setup_with_course(&mut w);
    let effs = ok(w.registry.set_course_status(&auth(&[admin]), admin, id, false));
    w.perform(effs);
    assert!(!ok(w.registry.get_course(id)).active);
    assert_eq!(w.last_events, vec![Event::CourseStatusChanged(course_registry::CourseStatusChanged { id, active: false })]);
}

#[test]
#[should_panic(expected = "Unauthorized: Caller is not the protocol admin")]
fn test_set_course_status_unauthorized_admin_panics() {
    let mut w = setup();
    let (_, _, id) = setup_with_course(&mut w);
    let fake_admin = account(12);
    ok(w.registry.set_course_status(&auth(&[fake_admin]), fake_admin, id, false));
}

#[test]
#[should_panic(expected = "Course not found")]
fn test_set_course_status_nonexistent_course() {
    let mut w = setup();
    let admin = account(10);
    initialize(&mut w, admin);
    ok(w.registry.set_course_status(&auth(&[admin]), admin, 99, false));
}

// ── complete_module ───────────────────────────────────────────────────────────

#[test]
fn test_complete_module_increments_progress() {
    let mut w = setup();
    let admin = account(10);
    let learner = account(20);
    initialize(&mut w, admin);
    let course_id = create_course(&mut w, admin, account(11), 3, dummy_hash());
    complete(&mut w, admin, learner, course_id);
    assert_eq!(w.registry.get_progress(learner, course_id), 1);
}

#[test]
fn test_complete_module_emits_event() {
    let mut w = setup();
    let admin = account(10);
    initialize(&mut w, admin);
    let course_id = create_course(&mut w, admin, account(11), 3, dummy_hash());
    complete(&mut w, admin, account(20), course_id);
    assert_eq!(w.last_events.len(), 1);
}

#[test]
fn test_complete_module_multiple_times() {
    let mut w = setup();
    let admin = account(10);
    let learner = account(20);
    initialize(&mut w, admin);
    let course_id = create_course(&mut w, admin, account(11), 3, dummy_hash());
    complete(&mut w, admin, learner, course_id);
    complete(&mut w, admin, learner, course_id);
    complete(&mut w, admin, learner, course_id);
    assert!(ok(w.registry.is_course_finished(learner, course_id)));
}

#[test]
#[should_panic(expected = "Course already completed")]
fn test_complete_module_exceeds_total_modules() {
    let mut w = setup();
    let admin = account(10);
    let learner = account(20);
    initialize(&mut w, admin);
    let course_id = create_course(&mut w, admin, account(11), 2, dummy_hash());
    complete(&mut w, admin, learner, course_id);
    complete(&mut w, admin, learner, course_id);
    complete(&mut w, admin, learner, course_id);
}

#[test]
#[should_panic(expected = "Unauthorized: Caller is not the protocol admin")]
fn test_complete_module_unauthorized_verifier() {
    let mut w = setup();
    let admin = account(10);
    initialize(&mut w, admin);
    let course_id = create_course(&mut w, admin, account(11), 3, dummy_hash());
    complete(&mut w, account(13), account(20), course_id);
}

#[test]
#[should_panic(expected = "Course not found")]
fn test_complete_module_nonexistent_course() {
    let mut w = setup();
    let admin = account(10);
    initialize(&mut w, admin);
    complete(&mut w, admin, account(20), 99);
}

#[test]
fn test_complete_module_different_learners() {
    let mut w = setup();
    let admin = account(10);
    let learner1 = account(20);
    let learner2 = account(21);
    initialize(&mut w, admin);
    let course_id = create_course(&mut w, admin, account(11), 3, dummy_hash());
    complete(&mut w, admin, learner1, course_id);
    complete(&mut w, admin, learner2, course_id);
    complete(&mut w, admin, learner1, course_id);
    assert_eq!(w.registry.get_progress(learner1, course_id), 2);
    assert_eq!(w.registry.get_progress(learner2, course_id), 1);
}

#[test]
fn test_get_progress_returns_zero_initially() {
    let mut w = setup();
    let admin = account(10);
    initialize(&mut w, admin);
    let course_id = create_course(&mut w, admin, account(11), 3, dummy_hash());
    assert_eq!(w.registry.get_progress(account(20), course_id), 0);
}

#[test]
fn test_get_progress_tracks_completion() {
    let mut w = setup();
    let admin = account(10);
    let learner = account(20);
    initialize(&mut w, admin);
    let course_id = create_course(&mut w, admin, account(11), 3, dummy_hash());
    assert_eq!(w.registry.get_progress(learner, course_id), 0);
    complete(&mut w, admin, learner, course_id);
    assert_eq!(w.registry.get_progress(learner, course_id), 1);
    complete(&mut w, admin, learner, course_id);
    assert_eq!(w.registry.get_progress(learner, course_id), 2);
    complete(&mut w, admin, learner, course_id);
    assert_eq!(w.registry.get_progress(learner, course_id), 3);
}

// ── Pending rewards & claim_completion_reward ─────────────────────────────────

fn claim(w: &mut World, learner: Address, course_id: u32) {
    let effs = ok(w.registry.claim_completion_reward(&auth(&[learner]), learner, course_id));
    w.perform(effs);
}

#[test]
fn test_pending_reward_recorded_when_reward_pool_configured() {
    let mut w = setup();
    let admin = account(10);
    let learner = account(20);
    initialize(&mut w, admin);
    let course_id = create_course(&mut w, admin, account(11), 1, dummy_hash());
    setup_reward_pool(&mut w, admin, true);
    complete(&mut w, admin, learner, course_id);
    setup_badge_nft(&mut w, admin);
    assert!(!w.has_pending(learner, course_id));
}

#[test]
fn test_claim_completion_reward_succeeds() {
    let mut w = setup();
    let admin = account(10);
    let learner = account(20);
    initialize(&mut w, admin);
    let course_id = create_course(&mut w, admin, account(11), 1, dummy_hash());
    complete(&mut w, admin, learner, course_id);
    w.registry.pending_rewards.insert(LearnerKey { learner, id: course_id }, true);
    setup_reward_pool(&mut w, admin, true);
    claim(&mut w, learner, course_id);
    assert_eq!(w.balance(&learner), 10_0000000);
    assert!(!w.has_pending(learner, course_id));
}

#[test]
#[should_panic(expected = "No pending reward for this learner and course")]
fn test_claim_completion_reward_no_pending_panics() {
    let mut w = setup();
    initialize(&mut w, account(10));
    claim(&mut w, account(20), 99);
}

#[test]
#[should_panic(expected = "No pending reward for this learner and course")]
fn test_claim_completion_reward_cannot_double_claim() {
    let mut w = setup();
    let admin = account(10);
    let learner = account(20);
    initialize(&mut w, admin);
    let course_id = create_course(&mut w, admin, account(11), 1, dummy_hash());
    w.registry.pending_rewards.insert(LearnerKey { learner, id: course_id }, true);
    setup_reward_pool(&mut w, admin, true);
    claim(&mut w, learner, course_id);
    claim(&mut w, learner, course_id);
}

// ── Badge minting on course completion ───────────────────────────────────────

#[test]
fn test_badge_minted_on_final_module_completion() {
    let mut w = setup();
    let admin = account(10);
    let learner = account(20);
    initialize(&mut w, admin);
    let course_id = create_course(&mut w, admin, account(11), 2, dummy_hash());
    setup_badge_nft(&mut w, admin);
    complete(&mut w, admin, learner, course_id);
    assert!(!w.has_badge(learner, course_id));
    complete(&mut w, admin, learner, course_id);
    assert!(w.has_badge(learner, course_id));
}

#[test]
fn test_badge_not_minted_on_intermediate_module() {
    let mut w = setup();
    let admin = account(10);
    let learner = account(20);
    initialize(&mut w, admin);
    let course_id = create_course(&mut w, admin, account(11), 3, dummy_hash());
    setup_badge_nft(&mut w, admin);
    complete(&mut w, admin, learner, course_id);
    assert!(!w.has_badge(learner, course_id));
}

#[test]
fn test_badge_minted_for_multiple_learners_independently() {
    let mut w = setup();
    let admin = account(10);
    let learner_a = account(20);
    let learner_b = account(21);
    initialize(&mut w, admin);
    let course_id = create_course(&mut w, admin, account(11), 1, dummy_hash());
    setup_badge_nft(&mut w, admin);
    complete(&mut w, admin, learner_a, course_id);
    assert!(w.has_badge(learner_a, course_id));
    assert!(!w.has_badge(learner_b, course_id));
    complete(&mut w, admin, learner_b, course_id);
    assert!(w.has_badge(learner_a, course_id));
    assert!(w.has_badge(learner_b, course_id));
}

#[test]
fn test_badge_minted_for_different_courses_same_learner() {
    let mut w = setup();
    let admin = account(10);
    let learner = account(20);
    initialize(&mut w, admin);
    let course_a = create_course(&mut w, admin, account(11), 1, dummy_hash());
    let course_b = create_course(&mut w, admin, account(11), 1, dummy_hash());
    setup_badge_nft(&mut w, admin);
    complete(&mut w, admin, learner, course_a);
    complete(&mut w, admin, learner, course_b);
    assert!(w.has_badge(learner, course_a));
    assert!(w.has_badge(learner, course_b));
    assert_eq!(w.badge.as_ref().unwrap().0.get_badge_count(learner), 2);
}

#[test]
fn test_complete_module_without_badge_nft_configured_does_not_panic() {
    let mut w = setup();
    let admin = account(10);
    initialize(&mut w, admin);
    let course_id = create_course(&mut w, admin, account(11), 1, dummy_hash());
    complete(&mut w, admin, account(20), course_id);
}

#[test]
#[should_panic(expected = "Unauthorized: Caller is not the protocol admin")]
fn test_set_badge_nft_address_unauthorized_panics() {
    let mut w = setup();
    let admin = account(10);
    let fake_admin = account(12);
    initialize(&mut w, admin);
    ok(w.registry.set_badge_nft_address(&auth(&[fake_admin]), fake_admin, account(30)));
}

// ── transfer_ownership ────────────────────────────────────────────────────────

fn transfer(w: &mut World, current: Address, new_instructor: Address, id: u32) {
    let effs = ok(w.registry.transfer_ownership(&auth(&[current]), current, new_instructor, id));
    w.perform(effs);
}

#[test]
fn test_transfer_ownership_success() {
    let mut w = setup();
    let (_, instructor, id) = setup_with_course(&mut w);
    let new_instructor = account(15);
    transfer(&mut w, instructor, new_instructor, id);
    assert_eq!(ok(w.registry.get_course(id)).instructor, new_instructor);
}

#[test]
fn test_transfer_ownership_emits_event() {
    let mut w = setup();
    let (_, instructor, id) = setup_with_course(&mut w);
    transfer(&mut w, instructor, account(15), id);
    assert_eq!(w.last_events.len(), 1);
}

#[test]
#[should_panic(expected = "Unauthorized: Caller is not the course instructor")]
fn test_transfer_ownership_non_instructor_panics() {
    let mut w = setup();
    let (_, _, id) = setup_with_course(&mut w);
    transfer(&mut w, account(16), account(15), id);
}

#[test]
#[should_panic(expected = "Course not found")]
fn test_transfer_ownership_nonexistent_course_panics() {
    let mut w = setup();
    initialize(&mut w, account(10));
    transfer(&mut w, account(11), account(15), 99);
}

#[test]
fn test_transfer_ownership_new_instructor_can_update_metadata() {
    let mut w = setup();
    let (_, instructor, id) = setup_with_course(&mut w);
    let new_instructor = account(15);
    transfer(&mut w, instructor, new_instructor, id);
    update_metadata(&mut w, new_instructor, id, [9u8; 32]);
    assert_eq!(ok(w.registry.get_course(id)).metadata_hash, [9u8; 32]);
    let r = w.registry.update_metadata(&auth(&[instructor]), id, [8u8; 32]);
    assert_eq!(r, Err(ContractError::AuthorizationMissing));
}

#[test]
fn test_transfer_ownership_updates_instructor_field() {
    let mut w = setup();
    let (_, instructor, id) = setup_with_course(&mut w);
    let new_instructor = account(15);
    assert_eq!(ok(w.registry.get_course(id)).instructor, instructor);
    transfer(&mut w, instructor, new_instructor, id);
    let after = ok(w.registry.get_course(id));
    assert_eq!(after.instructor, new_instructor);
    assert_ne!(after.instructor, instructor);
}

// ── Reward payout on course completion ────────────────────────────────────────

#[test]
fn test_complete_course_triggers_reward_distribution() {
    let mut w = setup();
    let admin = account(10);
    let learner = account(20);
    initialize(&mut w, admin);
    let course_id = create_course(&mut w, admin, account(11), 2, dummy_hash());
    setup_reward_pool(&mut w, admin, true);
    setup_badge_nft(&mut w, admin);

    complete(&mut w, admin, learner, course_id);
    assert!(!w.has_badge(learner, course_id));
    assert_eq!(w.balance(&learner), 0);

    complete(&mut w, admin, learner, course_id);
    assert!(!w.last_events.is_empty());
    assert!(w.last_events.iter().any(|e| matches!(e, Event::CourseCompleted(c) if c.reward_amount == BASE_REWARD_AMOUNT)));
    assert!(w.has_badge(learner, course_id));
    assert_eq!(w.balance(&learner), 10_0000000);
}

#[test]
fn test_reward_not_distributed_without_whitelist() {
    let mut w = setup();
    let admin = account(10);
    let learner = account(20);
    initialize(&mut w, admin);
    let course_id = create_course(&mut w, admin, account(11), 1, dummy_hash());
    setup_reward_pool(&mut w, admin, false);
    complete(&mut w, admin, learner, course_id);
    assert!(w.has_pending(learner, course_id));
    assert_eq!(w.balance(&learner), 0);
}

#[test]
fn test_reward_not_distributed_if_reward_pool_not_set() {
    let mut w = setup();
    let admin = account(10);
    let learner = account(20);
    initialize(&mut w, admin);
    let course_id = create_course(&mut w, admin, account(11), 1, dummy_hash());
    setup_badge_nft(&mut w, admin);
    complete(&mut w, admin, learner, course_id);
    assert!(w.has_badge(learner, course_id));
    assert_eq!(w.registry.get_progress(learner, course_id), 1);
    assert!(!w.has_pending(learner, course_id));
}

#[test]
fn test_multiple_learners_get_independent_rewards() {
    let mut w = setup();
    let admin = account(10);
    let learner_a = account(20);
    let learner_b = account(21);
    initialize(&mut w, admin);
    let course_id = create_course(&mut w, admin, account(11), 1, dummy_hash());
    let pool = setup_reward_pool(&mut w, admin, true);
    complete(&mut w, admin, learner_a, course_id);
    assert_eq!(w.balance(&learner_a), 10_0000000);
    complete(&mut w, admin, learner_b, course_id);
    assert_eq!(w.balance(&learner_b), 10_0000000);
    assert_eq!(w.balance(&pool), 1_000_000_000 - 2 * 10_0000000);
}

#[test]
fn test_reward_distributed_only_on_final_module() {
    let mut w = setup();
    let admin = account(10);
    let learner = account(20);
    initialize(&mut w, admin);
    let course_id = create_course(&mut w, admin, account(11), 3, dummy_hash());
    setup_reward_pool(&mut w, admin, true);
    complete(&mut w, admin, learner, course_id);
    assert_eq!(w.balance(&learner), 0);
    complete(&mut w, admin, learner, course_id);
    assert_eq!(w.balance(&learner), 0);
    complete(&mut w, admin, learner, course_id);
    assert_eq!(w.balance(&learner), 10_0000000);
}

// ── Storage versioning & migrations ──────────────────────────────────────────

#[test]
fn test_contract_version_initial_zero() {
    let mut w = setup();
    initialize(&mut w, account(10));
    assert_eq!(w.registry.contract_version(), 0);
}

#[test]
fn test_migrate_v0_to_v1_sets_version() {
    let mut w = setup();
    let admin = account(10);
    initialize(&mut w, admin);
    assert_eq!(w.registry.contract_version(), 0);
    ok(w.registry.migrate(&auth(&[admin]), admin));
    assert_eq!(w.registry.contract_version(), VERSION);
}

#[test]
#[should_panic(expected = "Already at current version")]
fn test_migrate_twice_panics() {
    let mut w = setup();
    let admin = account(10);
    initialize(&mut w, admin);
    ok(w.registry.migrate(&auth(&[admin]), admin));
    ok(w.registry.migrate(&auth(&[admin]), admin));
}

#[test]
#[should_panic(expected = "Unauthorized")]
fn test_migrate_unauthorized_panics() {
    let mut w = setup();
    let admin = account(10);
    let attacker = account(66);
    initialize(&mut w, admin);
    ok(w.registry.migrate(&auth(&[attacker]), attacker));
}

#[test]
fn test_migrate_v0_to_v1_preserves_course_data() {
    let mut w = setup();
    let admin = account(10);
    let instructor = account(11);
    initialize(&mut w, admin);
    let course_id = create_course(&mut w, admin, instructor, 3, dummy_hash());
    assert_eq!(w.registry.contract_version(), 0);
    ok(w.registry.migrate(&auth(&[admin]), admin));
    assert_eq!(w.registry.contract_version(), VERSION);
    let course = ok(w.registry.get_course(course_id));
    assert_eq!(course.instructor, instructor);
    assert_eq!(course.total_modules, 3);
    assert_eq!(course.metadata_hash, dummy_hash());
    assert!(course.active);
}

#[test]
fn test_migrate_v0_to_v1_preserves_progress_data() {
    let mut w = setup();
    let admin = account(10);
    let learner = account(20);
    initialize(&mut w, admin);
    let course_id = create_course(&mut w, admin, account(11), 2, dummy_hash());
    enroll(&mut w, learner, course_id);
    complete(&mut w, admin, learner, course_id);
    let progress_before = w.registry.get_progress(learner, course_id);
    ok(w.registry.migrate(&auth(&[admin]), admin));
    let progress_after = w.registry.get_progress(learner, course_id);
    assert_eq!(progress_before, progress_after);
    assert_eq!(progress_after, 1);
}

#[test]
fn test_contract_version_after_migration() {
    let mut w = setup();
    let admin = account(10);
    initialize(&mut w, admin);
    ok(w.registry.migrate(&auth(&[admin]), admin));
    assert_eq!(w.registry.contract_version(), 1u32);
}

// ── Further checks of this library ──────────────────────────────────────────

#[test]
fn enrolling_in_inactive_course_is_refused() {
    let mut w = setup();
    let (admin, _, id) = setup_with_course(&mut w);
    ok(w.registry.set_course_status(&auth(&[admin]), admin, id, false));
    let learner = account(20);
    assert_eq!(w.registry.enroll(&auth(&[learner]), learner, id), Err(ContractError::CourseNotActive));
}

#[test]
fn complete_module_before_initialize_is_refused() {
    let mut w = setup();
    let verifier = account(10);
    let r = w.registry.complete_module(&auth(&[verifier]), verifier, account(20), 1);
    assert_eq!(r, Err(ContractError::NotInitialized));
    let r = w.registry.create_course(&auth(&[verifier]), verifier, account(11), 3, dummy_hash());
    assert_eq!(r.unwrap_err().message(), "Contract not initialized");
}

#[test]
fn final_module_asks_for_badge_then_reward() {
    let mut w = setup();
    let admin = account(10);
    let learner = account(20);
    initialize(&mut w, admin);
    let course_id = create_course(&mut w, admin, account(11), 1, dummy_hash());
    let pool = setup_reward_pool(&mut w, admin, true);
    setup_badge_nft(&mut w, admin);
    let badge_addr = w.badge.as_ref().unwrap().1;
    let effs = ok(w.registry.complete_module(&auth(&[admin]), admin, learner, course_id));
    assert_eq!(effs.len(), 3);
    assert_eq!(effs[1], Effect::MintBadge { badge_nft: badge_addr, learner, course_id });
    assert_eq!(effs[2], Effect::TryDistributeReward { pool, learner, course_id, amount: BASE_REWARD_AMOUNT, clear_pending: true });
    assert!(w.has_pending(learner, course_id));
    let more = w.registry.settle_reward(learner, course_id, false, true);
    assert!(more.is_empty());
    assert!(w.has_pending(learner, course_id));
}

#[test]
fn badge_contract_refuses_mint_from_other_than_registry() {
    let mut badge = BadgeNFT::new();
    let registry = Address::new(1, [200; 32]);
    ok(badge.initialize(registry));
    let intruder = account(5);
    let r = badge.mint_badge(&auth(&[intruder]), intruder, account(20), 1);
    assert_eq!(r, Err(ContractError::NotAuthorizedRegistry));
    assert_eq!(badge.get_badge_count(account(20)), 0);
    let _ = badge_nft::VERSION;
}
