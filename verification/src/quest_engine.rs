use vstd::prelude::*;
use crate::common::{Address, ContractError, Hash32, Invocation, LearnerKey, Party, same_address};
use crate::quest_types::{Dispute, ExploreSubmission, ExploreSubmissionStatus, MAX_REASON_LEN, Proposal, Quest, QuestType, Submission, SubmissionStatus};
use crate::table::Table;

verus! {

/// Storage schema version of this contract.
pub const VERSION: u32 = 1;

/// Name prefix of build quests.
pub const BUILD_QUEST_PREFIX: &'static str = "build";

/// Name prefix of explore quests.
pub const EXPLORE_QUEST_PREFIX: &'static str = "explore";

/// Upper bound named for quest rewards.
pub const MAX_QUEST_REWARD: i128 = 1_000_000_000_000_000;

/// Platform fee taken from every build-quest payout, in basis points (15%).
pub const PLATFORM_FEE_BASIS_POINTS: u32 = 1500;

/// How long after a rejection the learner may open a dispute: seven days.
pub const DISPUTE_WINDOW_SECONDS: u64 = 604800;

// ── Events ──────────────────────────────────────────────────────────────────

#[derive(Clone, Copy, Debug, PartialEq, Eq)]
pub struct QuestCreated {
    pub employer: Address,
    pub quest_id: u32,
    pub reward_amount: i128,
}

#[derive(Clone, Copy, Debug, PartialEq, Eq)]
pub struct ProofSubmitted {
    pub learner: Address,
    pub quest_id: u32,
    pub proof_hash: Hash32,
}

#[derive(Clone, Copy, Debug, PartialEq, Eq)]
pub struct SubmissionReviewed {
    pub employer: Address,
    pub learner: Address,
    pub quest_id: u32,
    pub approved: bool,
}

#[derive(Clone, Copy, Debug, PartialEq, Eq)]
pub struct QuestRefunded {
    pub employer: Address,
    pub quest_id: u32,
    pub amount: i128,
}

#[derive(Clone, Copy, Debug, PartialEq, Eq)]
pub struct BatchReviewed {
    pub employer: Address,
    pub quest_id: u32,
    pub approved_count: u32,
}

#[derive(Clone, Copy, Debug, PartialEq, Eq)]
pub struct PayoutComputed {
    pub learner: Address,
    pub quest_id: u32,
    pub fee: i128,
    pub learner_amount: i128,
    pub boost_actual: i128,
    pub boost_capped: bool,
}

#[derive(Clone, Copy, Debug, PartialEq, Eq)]
pub struct ContractUpgraded {
    pub admin: Address,
    pub new_wasm_hash: Hash32,
}

#[derive(Clone, Copy, Debug, PartialEq, Eq)]
pub struct ExploreQuestVerified {
    pub admin: Address,
    pub learner: Address,
    pub quest_id: u32,
    pub amount: i128,
}

#[derive(Clone, Copy, Debug, PartialEq, Eq)]
pub struct RewardPoolUpdated {
    pub admin: Address,
    pub new_address: Address,
}

#[derive(Clone, Copy, Debug, PartialEq, Eq)]
pub struct StakeVaultUpdated {
    pub admin: Address,
    pub new_address: Address,
}

#[derive(Clone, Copy, Debug, PartialEq, Eq)]
pub struct DisputeOpened {
    pub learner: Address,
    pub quest_id: u32,
    pub dispute_id: u32,
    pub reason: Hash32,
}

#[derive(Clone, Copy, Debug, PartialEq, Eq)]
pub struct DisputeResolved {
    pub dispute_id: u32,
    pub learner: Address,
    pub quest_id: u32,
    pub override_approve: bool,
}

#[derive(Clone, Copy, Debug, PartialEq, Eq)]
pub struct GovernanceUpdated {
    pub admin: Address,
    pub new_address: Address,
}

#[derive(Clone, Copy, Debug, PartialEq, Eq)]
pub struct ExploreProofSubmitted {
    pub learner: Address,
    pub quest_id: u32,
    pub proof_hash: Hash32,
}

#[derive(Clone, Debug, PartialEq, Eq)]
pub struct ExploreSubmissionRejected {
    pub admin: Address,
    pub learner: Address,
    pub quest_id: u32,
    pub reason: Vec<u8>,
}

/// The events this contract publishes.
#[derive(Clone, Debug, PartialEq, Eq)]
pub enum Event {
    QuestCreated(QuestCreated),
    ProofSubmitted(ProofSubmitted),
    SubmissionReviewed(SubmissionReviewed),
    QuestRefunded(QuestRefunded),
    BatchReviewed(BatchReviewed),
    PayoutComputed(PayoutComputed),
    ContractUpgraded(ContractUpgraded),
    ExploreQuestVerified(ExploreQuestVerified),
    RewardPoolUpdated(RewardPoolUpdated),
    StakeVaultUpdated(StakeVaultUpdated),
    DisputeOpened(DisputeOpened),
    DisputeResolved(DisputeResolved),
    GovernanceUpdated(GovernanceUpdated),
    ExploreProofSubmitted(ExploreProofSubmitted),
    ExploreSubmissionRejected(ExploreSubmissionRejected),
}

/// Outside work that an accepted call asks of the host, in order.
#[derive(Clone, Debug, PartialEq, Eq)]
pub enum Effect {
    /// Move `amount` of the reward token from `from` to `to`.
    Transfer { token: Address, from: Party, to: Party, amount: i128 },
    /// Call `distribute_reward(this contract, learner, amount)` on the reward
    /// pool; if that call fails, the whole call fails.
    DistributeReward { pool: Address, learner: Address, amount: i128 },
    /// Replace this contract's code.
    UpdateWasm { new_wasm_hash: Hash32 },
    /// Publish an event.
    Emit(Event),
}

// ── Payout arithmetic ───────────────────────────────────────────────────────

/// Division that rounds toward zero, as integer division does on `i128`.
pub open spec fn trunc_div(a: int, d: int) -> int {
    if a >= 0 {
        a / d
    } else {
        -((-a) / d)
    }
}

/// The platform fee on a reward: 15%, rounded toward zero.
pub open spec fn payout_fee(reward: int) -> int {
    trunc_div(reward * PLATFORM_FEE_BASIS_POINTS, 10000)
}

/// What remains of a reward after the fee.
pub open spec fn payout_base(reward: int) -> int {
    reward - payout_fee(reward)
}

/// The base scaled by a multiplier in basis points of one hundred.
pub open spec fn payout_boost(reward: int, multiplier_bps: int) -> int {
    trunc_div(payout_base(reward) * multiplier_bps, 100)
}

/// Whether the boost exceeds the base and is cut back to it.
pub open spec fn payout_capped(reward: int, multiplier_bps: int) -> bool {
    payout_boost(reward, multiplier_bps) > payout_base(reward)
}

/// What the learner receives: the boost, capped at the base.
pub open spec fn payout_learner_amount(reward: int, multiplier_bps: int) -> int {
    if payout_capped(reward, multiplier_bps) {
        payout_base(reward)
    } else {
        payout_boost(reward, multiplier_bps)
    }
}

/// The products in the payout formula stay within `i128`.
pub open spec fn payout_fits(reward: int, multiplier_bps: int) -> bool {
    &&& i128::MIN <= reward * PLATFORM_FEE_BASIS_POINTS <= i128::MAX
    &&& i128::MIN <= payout_base(reward) * multiplier_bps <= i128::MAX
}

proof fn lemma_fee_bounds(reward: int)
    requires
        i128::MIN <= reward * 1500 <= i128::MAX,
    ensures
        reward >= 0 ==> 0 <= payout_fee(reward) <= reward,
        reward < 0 ==> reward <= payout_fee(reward) <= 0,
        i128::MIN <= payout_fee(reward) <= i128::MAX,
        i128::MIN <= payout_base(reward) <= i128::MAX,
{
    if reward >= 0 {
        assert((reward * 1500) / 10000 <= reward) by (nonlinear_arith)
            requires reward >= 0;
        assert((reward * 1500) / 10000 >= 0) by (nonlinear_arith)
            requires reward >= 0;
    } else {
        assert((-(reward * 1500)) / 10000 <= -reward) by (nonlinear_arith)
            requires reward < 0;
        assert((-(reward * 1500)) / 10000 >= 0) by (nonlinear_arith)
            requires reward < 0;
    }
}

/// Computes the fee split and staking boost for a quest payout.
///
/// Returns `(fee, learner_amount, boost_actual, boost_capped)`: the platform
/// fee (15% of `reward`), what the learner receives, the boosted amount before
/// the cap (`base * multiplier_bps / 100`), and whether the boost was cut back
/// to the base.
pub fn compute_learner_payout(reward: i128, multiplier_bps: u32) -> (r: (i128, i128, i128, bool))
    requires
        payout_fits(reward as int, multiplier_bps as int),
    ensures
        r.0 == payout_fee(reward as int),
        r.1 == payout_learner_amount(reward as int, multiplier_bps as int),
        r.2 == payout_boost(reward as int, multiplier_bps as int),
        r.3 == payout_capped(reward as int, multiplier_bps as int),
{
    proof { lemma_fee_bounds(reward as int); }
    let fee = (reward * 1500) / 10_000;
    let base = reward - fee;
    let boost_actual = (base * multiplier_bps as i128) / 100;
    let capped = boost_actual > base;
    let learner_amount = if capped { base } else { boost_actual };
    (fee, learner_amount, boost_actual, capped)
}

/// Whether `compute_learner_payout` can be evaluated on these values without
/// leaving `i128`.
pub fn payout_in_range(reward: i128, multiplier_bps: u32) -> (b: bool)
    ensures
        b == payout_fits(reward as int, multiplier_bps as int),
{
    match reward.checked_mul(1500) {
        None => false,
        Some(product) => {
            proof { lemma_fee_bounds(reward as int); }
            let fee = product / 10_000;
            let base = reward - fee;
            base.checked_mul(multiplier_bps as i128).is_some()
        },
    }
}

// ── Contract storage ────────────────────────────────────────────────────────

/// The quest engine's storage: build quests funded by employers and reviewed
/// per submission, explore quests verified by the admin and paid from the
/// reward pool, and disputes over rejected submissions.
pub struct QuestEngineContract {
    pub admin: Option<Address>,
    pub token: Option<Address>,
    pub reward_pool: Option<Address>,
    pub stake_vault: Option<Address>,
    pub governance: Option<Address>,
    pub quest_counter: u32,
    pub dispute_counter: u32,
    pub is_paused: bool,
    pub version: u32,
    pub quests: Table<u32, Quest>,
    pub submissions: Table<LearnerKey, Submission>,
    pub explore_submissions: Table<LearnerKey, ExploreSubmission>,
    pub disputes: Table<u32, Dispute>,
}

/// The quest engine's storage as mathematical values.
pub struct QuestEngineState {
    pub admin: Option<Address>,
    pub token: Option<Address>,
    pub reward_pool: Option<Address>,
    pub stake_vault: Option<Address>,
    pub governance: Option<Address>,
    pub quest_counter: u32,
    pub dispute_counter: u32,
    pub is_paused: bool,
    pub version: u32,
    pub quests: Map<u32, Quest>,
    pub submissions: Map<LearnerKey, Submission>,
    pub explore_submissions: Map<LearnerKey, ExploreSubmission>,
    pub disputes: Map<u32, Dispute>,
}

impl View for QuestEngineContract {
    type V = QuestEngineState;

    open spec fn view(&self) -> QuestEngineState {
        QuestEngineState {
            admin: self.admin,
            token: self.token,
            reward_pool: self.reward_pool,
            stake_vault: self.stake_vault,
            governance: self.governance,
            quest_counter: self.quest_counter,
            dispute_counter: self.dispute_counter,
            is_paused: self.is_paused,
            version: self.version,
            quests: self.quests@,
            submissions: self.submissions@,
            explore_submissions: self.explore_submissions@,
            disputes: self.disputes@,
        }
    }
}

/// The effects of paying out a build-quest reward of `reward` to `learner`
/// at multiplier `multiplier_bps`: the fee goes to the reward pool, the capped
/// boost to the learner, and a `PayoutComputed` event reports a cap.
pub open spec fn payout_effects(
    token: Address,
    pool: Address,
    learner: Address,
    quest_id: u32,
    reward: i128,
    multiplier_bps: u32,
) -> Seq<Effect> {
    let fee = payout_fee(reward as int) as i128;
    let amount = payout_learner_amount(reward as int, multiplier_bps as int) as i128;
    let boost = payout_boost(reward as int, multiplier_bps as int) as i128;
    let capped = payout_capped(reward as int, multiplier_bps as int);
    seq![
        Effect::Transfer { token, from: Party::ThisContract, to: Party::Other(pool), amount: fee },
        Effect::Transfer { token, from: Party::ThisContract, to: Party::Other(learner), amount },
    ] + if capped {
        seq![Effect::Emit(Event::PayoutComputed(PayoutComputed {
            learner,
            quest_id,
            fee,
            learner_amount: amount,
            boost_actual: boost,
            boost_capped: true,
        }))]
    } else {
        Seq::<Effect>::empty()
    }
}

fn push_payout(
    effects: &mut Vec<Effect>,
    token: Address,
    pool: Address,
    learner: Address,
    quest_id: u32,
    reward: i128,
    multiplier_bps: u32,
)
    requires
        payout_fits(reward as int, multiplier_bps as int),
    ensures
        final(effects)@ == old(effects)@ + payout_effects(token, pool, learner, quest_id, reward, multiplier_bps),
{
    let (fee, learner_amount, boost_actual, boost_capped) = compute_learner_payout(reward, multiplier_bps);
    effects.push(Effect::Transfer { token, from: Party::ThisContract, to: Party::Other(pool), amount: fee });
    effects.push(Effect::Transfer { token, from: Party::ThisContract, to: Party::Other(learner), amount: learner_amount });
    if boost_capped {
        effects.push(Effect::Emit(Event::PayoutComputed(PayoutComputed {
            learner,
            quest_id,
            fee,
            learner_amount,
            boost_actual,
            boost_capped,
        })));
    }
    proof {
        let p = payout_effects(token, pool, learner, quest_id, reward, multiplier_bps);
        assert(final(effects)@ =~= old(effects)@ + p);
    }
}

impl QuestEngineState {
    /// The storage after a submission is reviewed at time `now`.
    pub open spec fn after_review(self, now: u64, learner: Address, quest_id: u32, approve: bool) -> QuestEngineState {
        let key = LearnerKey { learner, id: quest_id };
        let status = if approve { SubmissionStatus::Approved } else { SubmissionStatus::Rejected };
        QuestEngineState {
            submissions: self.submissions.insert(key, Submission { status, reviewed_at: Some(now), ..self.submissions[key] }),
            ..self
        }
    }

    /// The storage after a quest is refunded: it is no longer active.
    pub open spec fn after_refund(self, quest_id: u32) -> QuestEngineState {
        QuestEngineState { quests: self.quests.insert(quest_id, Quest { active: false, ..self.quests[quest_id] }), ..self }
    }

    /// The storage after the admin decides an explore submission.
    pub open spec fn after_explore_decision(
        self,
        learner: Address,
        quest_id: u32,
        status: ExploreSubmissionStatus,
    ) -> QuestEngineState {
        let key = LearnerKey { learner, id: quest_id };
        QuestEngineState {
            explore_submissions: self.explore_submissions.insert(key, ExploreSubmission { status, ..self.explore_submissions[key] }),
            ..self
        }
    }

    /// Which check refuses `initialize`, if any.
    pub open spec fn initialize_error(self, inv: &Invocation, admin: Address) -> Option<ContractError> {
        if self.token is Some {
            Some(ContractError::AlreadyInitialized)
        } else if !inv.authorizes(admin) {
            Some(ContractError::AuthorizationMissing)
        } else {
            None
        }
    }

    /// Which check refuses an admin-only setter that looks up the admin
    /// before asking for its authorization.
    pub open spec fn admin_first_error(self, inv: &Invocation, admin: Address) -> Option<ContractError> {
        if self.admin is None {
            Some(ContractError::NotInitialized)
        } else if self.admin != Some(admin) {
            Some(ContractError::Unauthorized)
        } else if !inv.authorizes(admin) {
            Some(ContractError::AuthorizationMissing)
        } else {
            None
        }
    }

    /// Which check refuses an admin-only call that asks for authorization
    /// before looking up the admin.
    pub open spec fn auth_first_error(self, inv: &Invocation, admin: Address) -> Option<ContractError> {
        if !inv.authorizes(admin) {
            Some(ContractError::AuthorizationMissing)
        } else if self.admin is None {
            Some(ContractError::NotInitialized)
        } else if self.admin != Some(admin) {
            Some(ContractError::Unauthorized)
        } else {
            None
        }
    }

    /// Which check refuses `create_build_quest`, if any.
    pub open spec fn create_build_quest_error(self, inv: &Invocation, employer: Address) -> Option<ContractError> {
        if !inv.authorizes(employer) {
            Some(ContractError::AuthorizationMissing)
        } else if self.token is None {
            Some(ContractError::NotInitialized)
        } else if self.quest_counter == u32::MAX {
            Some(ContractError::ArithmeticOverflow)
        } else {
            None
        }
    }

    /// Which check refuses `create_explore_quest`, if any.
    pub open spec fn create_explore_quest_error(self, inv: &Invocation, admin: Address) -> Option<ContractError> {
        if self.auth_first_error(inv, admin) is Some {
            self.auth_first_error(inv, admin)
        } else if self.quest_counter == u32::MAX {
            Some(ContractError::ArithmeticOverflow)
        } else {
            None
        }
    }

    /// The storage after a new quest is recorded under the next id.
    pub open spec fn with_new_quest(self, quest: Quest) -> QuestEngineState {
        let id = (self.quest_counter + 1) as u32;
        QuestEngineState { quest_counter: id, quests: self.quests.insert(id, quest), ..self }
    }

    /// Which check refuses `submit_proof`, if any.
    pub open spec fn submit_proof_error(self, inv: &Invocation, learner: Address, quest_id: u32) -> Option<ContractError> {
        if !inv.authorizes(learner) {
            Some(ContractError::AuthorizationMissing)
        } else if !self.quests.contains_key(quest_id) {
            Some(ContractError::QuestNotFound)
        } else if !self.quests[quest_id].active {
            Some(ContractError::QuestNotActive)
        } else if self.quests[quest_id].quest_type != QuestType::Build {
            Some(ContractError::NotBuildQuest)
        } else if self.submissions.contains_key(LearnerKey { learner, id: quest_id }) {
            Some(ContractError::SubmissionAlreadyExists)
        } else {
            None
        }
    }

    /// Which check refuses `review_submission`, if any.
    pub open spec fn review_error(
        self,
        inv: &Invocation,
        employer: Address,
        learner: Address,
        quest_id: u32,
        approve: bool,
        multiplier_bps: u32,
    ) -> Option<ContractError> {
        let key = LearnerKey { learner, id: quest_id };
        if self.is_paused {
            Some(ContractError::ContractPaused)
        } else if !inv.authorizes(employer) {
            Some(ContractError::AuthorizationMissing)
        } else if !self.quests.contains_key(quest_id) {
            Some(ContractError::QuestNotFound)
        } else if self.quests[quest_id].employer != employer {
            Some(ContractError::NotQuestEmployer)
        } else if !self.submissions.contains_key(key) {
            Some(ContractError::SubmissionNotFound)
        } else if self.submissions[key].status != SubmissionStatus::Pending {
            Some(ContractError::SubmissionNotPendingReview)
        } else if approve && (self.token is None || self.stake_vault is None) {
            Some(ContractError::NotInitialized)
        } else if approve && !payout_fits(self.quests[quest_id].reward_amount as int, multiplier_bps as int) {
            Some(ContractError::ArithmeticOverflow)
        } else if approve && self.reward_pool is None {
            Some(ContractError::NotInitialized)
        } else {
            None
        }
    }
}

/// The submissions after a batch approval: every listed learner's
/// submission for `quest_id` becomes approved; nothing else changes.
pub open spec fn approve_listed(
    subs: Map<LearnerKey, Submission>,
    quest_id: u32,
    learners: Seq<(Address, u32)>,
) -> Map<LearnerKey, Submission> {
    Map::new(
        |k: LearnerKey| subs.contains_key(k),
        |k: LearnerKey|
            if k.id == quest_id && exists|j: int| 0 <= j < learners.len() && learners[j].0 == k.learner {
                Submission { status: SubmissionStatus::Approved, ..subs[k] }
            } else {
                subs[k]
            },
    )
}

impl QuestEngineState {
    /// Which check refuses a batch review before any learner is looked at.
    pub open spec fn batch_error(self, inv: &Invocation, employer: Address, quest_id: u32) -> Option<ContractError> {
        if self.is_paused {
            Some(ContractError::ContractPaused)
        } else if !inv.authorizes(employer) {
            Some(ContractError::AuthorizationMissing)
        } else if !self.quests.contains_key(quest_id) {
            Some(ContractError::QuestNotFound)
        } else if self.quests[quest_id].employer != employer {
            Some(ContractError::NotQuestEmployer)
        } else if self.token is None || self.reward_pool is None {
            Some(ContractError::NotInitialized)
        } else {
            None
        }
    }

    /// The outcome of approving the `i`-th listed learner of a batch, paid at
    /// the multiplier listed with it. A learner listed earlier in the batch
    /// was approved already, so a repeat counts as not pending.
    pub open spec fn batch_entry(
        self,
        employer: Address,
        quest_id: u32,
        learners: Seq<(Address, u32)>,
        i: int,
    ) -> Result<Seq<Effect>, ContractError> {
        let learner = learners[i].0;
        let m = learners[i].1;
        let key = LearnerKey { learner, id: quest_id };
        let reward = self.quests[quest_id].reward_amount;
        if !self.submissions.contains_key(key) {
            Err(ContractError::SubmissionNotFound)
        } else if self.submissions[key].status != SubmissionStatus::Pending
            || exists|j: int| 0 <= j < i && learners[j].0 == learner {
            Err(ContractError::SubmissionNotPendingReview)
        } else if self.stake_vault is None {
            Err(ContractError::NotInitialized)
        } else if !payout_fits(reward as int, m as int) {
            Err(ContractError::ArithmeticOverflow)
        } else if i >= u32::MAX {
            Err(ContractError::ArithmeticOverflow)
        } else {
            Ok(payout_effects(self.token->Some_0, self.reward_pool->Some_0, learner, quest_id, reward, m)
                + seq![Effect::Emit(Event::SubmissionReviewed(SubmissionReviewed {
                    employer,
                    learner,
                    quest_id,
                    approved: true,
                }))])
        }
    }

    /// The outcome of a batch review over its first `n` listed learners: the
    /// first refusal, or the effects of all their payouts in order.
    pub open spec fn batch_outcome(
        self,
        employer: Address,
        quest_id: u32,
        learners: Seq<(Address, u32)>,
        n: int,
    ) -> Result<Seq<Effect>, ContractError>
        decreases n,
    {
        if n <= 0 {
            Ok(Seq::<Effect>::empty())
        } else {
            match self.batch_outcome(employer, quest_id, learners, n - 1) {
                Err(e) => Err(e),
                Ok(effs) => match self.batch_entry(employer, quest_id, learners, n - 1) {
                    Err(e) => Err(e),
                    Ok(more) => Ok(effs + more),
                },
            }
        }
    }

    proof fn lemma_batch_err_persists(
        self,
        employer: Address,
        quest_id: u32,
        learners: Seq<(Address, u32)>,
        n: int,
        m: int,
    )
        requires
            0 <= n <= m,
            self.batch_outcome(employer, quest_id, learners, n) is Err,
        ensures
            self.batch_outcome(employer, quest_id, learners, m)
                == self.batch_outcome(employer, quest_id, learners, n),
        decreases m - n,
    {
        if m > n {
            self.lemma_batch_err_persists(employer, quest_id, learners, n, m - 1);
        }
    }
}

impl QuestEngineState {
    /// Which check refuses `migrate`, if any.
    pub open spec fn migrate_error(self, inv: &Invocation, admin: Address) -> Option<ContractError> {
        if self.auth_first_error(inv, admin) is Some {
            self.auth_first_error(inv, admin)
        } else if self.version >= VERSION {
            Some(ContractError::AlreadyAtCurrentVersion)
        } else {
            None
        }
    }

    /// Which check refuses `verify_explore_quest`, if any.
    pub open spec fn verify_explore_error(self, inv: &Invocation, admin: Address, learner: Address, quest_id: u32) -> Option<ContractError> {
        let key = LearnerKey { learner, id: quest_id };
        if self.auth_first_error(inv, admin) is Some {
            self.auth_first_error(inv, admin)
        } else if !self.quests.contains_key(quest_id) {
            Some(ContractError::QuestNotFound)
        } else if self.quests[quest_id].quest_type != QuestType::Explore {
            Some(ContractError::NotExploreQuest)
        } else if !self.explore_submissions.contains_key(key) {
            Some(ContractError::NoProofSubmission)
        } else if self.explore_submissions[key].status != ExploreSubmissionStatus::Pending {
            Some(ContractError::SubmissionNotPending)
        } else if self.reward_pool is None {
            Some(ContractError::NotInitialized)
        } else {
            None
        }
    }

    /// Which check refuses `submit_explore_proof`, if any.
    pub open spec fn submit_explore_error(self, inv: &Invocation, learner: Address, quest_id: u32) -> Option<ContractError> {
        if !inv.authorizes(learner) {
            Some(ContractError::AuthorizationMissing)
        } else if !self.quests.contains_key(quest_id) {
            Some(ContractError::QuestNotFound)
        } else if self.quests[quest_id].quest_type != QuestType::Explore {
            Some(ContractError::ExploreProofOnBuildQuest)
        } else if self.explore_submissions.contains_key(LearnerKey { learner, id: quest_id }) {
            Some(ContractError::ExploreSubmissionAlreadyExists)
        } else {
            None
        }
    }

    /// Which check refuses `reject_explore_quest`, if any.
    pub open spec fn reject_explore_error(
        self,
        inv: &Invocation,
        admin: Address,
        learner: Address,
        quest_id: u32,
        reason_len: nat,
    ) -> Option<ContractError> {
        let key = LearnerKey { learner, id: quest_id };
        if self.auth_first_error(inv, admin) is Some {
            self.auth_first_error(inv, admin)
        } else if reason_len > MAX_REASON_LEN {
            Some(ContractError::ReasonTooLong)
        } else if !self.explore_submissions.contains_key(key) {
            Some(ContractError::NoProofSubmission)
        } else if self.explore_submissions[key].status != ExploreSubmissionStatus::Pending {
            Some(ContractError::SubmissionNotPending)
        } else {
            None
        }
    }

    /// Which check refuses `dispute_submission`, if any.
    pub open spec fn dispute_error(self, inv: &Invocation, learner: Address, quest_id: u32) -> Option<ContractError> {
        let key = LearnerKey { learner, id: quest_id };
        let sub = self.submissions[key];
        if !inv.authorizes(learner) {
            Some(ContractError::AuthorizationMissing)
        } else if !self.submissions.contains_key(key) {
            Some(ContractError::SubmissionNotFound)
        } else if sub.status != SubmissionStatus::Rejected {
            Some(ContractError::OnlyRejectedDisputable)
        } else if sub.reviewed_at is None {
            Some(ContractError::NotReviewed)
        } else if inv.now < sub.reviewed_at->Some_0 {
            Some(ContractError::ArithmeticOverflow)
        } else if inv.now - sub.reviewed_at->Some_0 > DISPUTE_WINDOW_SECONDS {
            Some(ContractError::DisputeWindowExpired)
        } else if self.dispute_counter == u32::MAX {
            Some(ContractError::ArithmeticOverflow)
        } else {
            None
        }
    }

    /// Which check refuses `resolve_dispute`, if any.
    pub open spec fn resolve_error(
        self,
        inv: &Invocation,
        admin: Address,
        dispute_id: u32,
        override_approve: bool,
        multiplier_bps: u32,
    ) -> Option<ContractError> {
        let d = self.disputes[dispute_id];
        let key = LearnerKey { learner: d.learner, id: d.quest_id };
        if self.admin_first_error(inv, admin) is Some {
            self.admin_first_error(inv, admin)
        } else if !self.disputes.contains_key(dispute_id) {
            Some(ContractError::DisputeNotFound)
        } else if d.resolved {
            Some(ContractError::DisputeAlreadyResolved)
        } else if override_approve && !self.quests.contains_key(d.quest_id) {
            Some(ContractError::QuestNotFound)
        } else if override_approve && !self.submissions.contains_key(key) {
            Some(ContractError::SubmissionNotFound)
        } else if override_approve && (self.token is None || self.stake_vault is None) {
            Some(ContractError::NotInitialized)
        } else if override_approve && !payout_fits(self.quests[d.quest_id].reward_amount as int, multiplier_bps as int) {
            Some(ContractError::ArithmeticOverflow)
        } else if override_approve && self.reward_pool is None {
            Some(ContractError::NotInitialized)
        } else {
            None
        }
    }

    /// The storage after a dispute is resolved; an override also approves
    /// the disputed submission.
    pub open spec fn after_resolve(self, dispute_id: u32, override_approve: bool) -> QuestEngineState {
        let d = self.disputes[dispute_id];
        let key = LearnerKey { learner: d.learner, id: d.quest_id };
        QuestEngineState {
            disputes: self.disputes.insert(dispute_id, Dispute { resolved: true, ..d }),
            submissions: if override_approve {
                self.submissions.insert(key, Submission { status: SubmissionStatus::Approved, ..self.submissions[key] })
            } else {
                self.submissions
            },
            ..self
        }
    }

    /// The effects of resolving a dispute.
    pub open spec fn resolve_effects(self, dispute_id: u32, override_approve: bool, multiplier_bps: u32) -> Seq<Effect> {
        let d = self.disputes[dispute_id];
        (if override_approve {
            payout_effects(
                self.token->Some_0,
                self.reward_pool->Some_0,
                d.learner,
                d.quest_id,
                self.quests[d.quest_id].reward_amount,
                multiplier_bps,
            )
        } else {
            Seq::<Effect>::empty()
        }) + seq![Effect::Emit(Event::DisputeResolved(DisputeResolved {
            dispute_id,
            learner: d.learner,
            quest_id: d.quest_id,
            override_approve,
        }))]
    }

    /// Which check refuses `resolve_dispute_via_governance` before the
    /// dispute itself is resolved: only the configured governance contract
    /// may call it.
    pub open spec fn governance_error(self, inv: &Invocation, proposal: Proposal) -> Option<ContractError> {
        if self.governance is None {
            Some(ContractError::GovernanceNotConfigured)
        } else if !inv.authorizes(self.governance->Some_0) {
            Some(ContractError::Unauthorized)
        } else if !proposal.executed {
            Some(ContractError::ProposalNotExecuted)
        } else if proposal.votes_for <= proposal.votes_against {
            Some(ContractError::InsufficientVotes)
        } else if self.admin is None {
            Some(ContractError::NotInitialized)
        } else {
            None
        }
    }
}

impl QuestEngineContract {
    /// A contract with empty storage, as deployed.
    pub fn new() -> (c: QuestEngineContract)
        ensures
            c@.admin is None && c@.token is None && c@.reward_pool is None,
            c@.stake_vault is None && c@.governance is None,
            c@.quest_counter == 0 && c@.dispute_counter == 0,
            !c@.is_paused && c@.version == 0,
            c@.quests == Map::<u32, Quest>::empty(),
            c@.submissions == Map::<LearnerKey, Submission>::empty(),
            c@.explore_submissions == Map::<LearnerKey, ExploreSubmission>::empty(),
            c@.disputes == Map::<u32, Dispute>::empty(),
    {
        QuestEngineContract {
            admin: None,
            token: None,
            reward_pool: None,
            stake_vault: None,
            governance: None,
            quest_counter: 0,
            dispute_counter: 0,
            is_paused: false,
            version: 0,
            quests: Table::new(),
            submissions: Table::new(),
            explore_submissions: Table::new(),
            disputes: Table::new(),
        }
    }

    fn check_admin_first(&self, inv: &Invocation, admin: &Address) -> (r: Result<(), ContractError>)
        ensures
            match self@.admin_first_error(inv, *admin) {
                Some(e) => r == Err::<(), ContractError>(e),
                None => r is Ok,
            },
    {
        match self.admin {
            None => Err(ContractError::NotInitialized),
            Some(stored) => {
                if !same_address(admin, &stored) {
                    Err(ContractError::Unauthorized)
                } else if !inv.require_auth(admin) {
                    Err(ContractError::AuthorizationMissing)
                } else {
                    Ok(())
                }
            },
        }
    }

    fn check_auth_first(&self, inv: &Invocation, admin: &Address) -> (r: Result<(), ContractError>)
        ensures
            match self@.auth_first_error(inv, *admin) {
                Some(e) => r == Err::<(), ContractError>(e),
                None => r is Ok,
            },
    {
        if !inv.require_auth(admin) {
            return Err(ContractError::AuthorizationMissing);
        }
        match self.admin {
            None => Err(ContractError::NotInitialized),
            Some(stored) => {
                if !same_address(admin, &stored) {
                    Err(ContractError::Unauthorized)
                } else {
                    Ok(())
                }
            },
        }
    }

    /// Initializes the contract with its admin, the reward token, the reward
    /// pool, the stake vault and, optionally, the governance contract.
    /// Refused when the contract is already initialized.
    pub fn initialize(
        &mut self,
        inv: &Invocation,
        admin: Address,
        token: Address,
        reward_pool: Address,
        stake_vault: Address,
        governance: Option<Address>,
    ) -> (r: Result<(), ContractError>)
        ensures
            match old(self)@.initialize_error(inv, admin) {
                Some(e) => r == Err::<(), ContractError>(e) && final(self)@ == old(self)@,
                None => r is Ok && final(self)@ == (QuestEngineState {
                    admin: Some(admin),
                    token: Some(token),
                    reward_pool: Some(reward_pool),
                    stake_vault: Some(stake_vault),
                    governance: if governance is Some { governance } else { old(self)@.governance },
                    quest_counter: 0,
                    dispute_counter: 0,
                    ..old(self)@
                }),
            },
    {
        if self.token.is_some() {
            return Err(ContractError::AlreadyInitialized);
        }
        if !inv.require_auth(&admin) {
            return Err(ContractError::AuthorizationMissing);
        }
        self.admin = Some(admin);
        self.token = Some(token);
        self.reward_pool = Some(reward_pool);
        self.stake_vault = Some(stake_vault);
        if governance.is_some() {
            self.governance = governance;
        }
        self.quest_counter = 0;
        self.dispute_counter = 0;
        Ok(())
    }

    /// Sets the pause flag that stops reviews. Admin only.
    pub fn set_pause(&mut self, inv: &Invocation, admin: Address, status: bool) -> (r: Result<(), ContractError>)
        ensures
            match old(self)@.admin_first_error(inv, admin) {
                Some(e) => r == Err::<(), ContractError>(e) && final(self)@ == old(self)@,
                None => r is Ok && final(self)@ == (QuestEngineState { is_paused: status, ..old(self)@ }),
            },
    {
        self.check_admin_first(inv, &admin)?;
        self.is_paused = status;
        Ok(())
    }

    /// Replaces the reward pool used for explore-quest payouts and fees.
    /// Admin only.
    pub fn set_reward_pool_address(&mut self, inv: &Invocation, admin: Address, new_address: Address) -> (r: Result<Vec<Effect>, ContractError>)
        ensures
            match old(self)@.admin_first_error(inv, admin) {
                Some(e) => r == Err::<Vec<Effect>, ContractError>(e) && final(self)@ == old(self)@,
                None => r is Ok && final(self)@ == (QuestEngineState { reward_pool: Some(new_address), ..old(self)@ })
                    && r->Ok_0@ == seq![Effect::Emit(Event::RewardPoolUpdated(RewardPoolUpdated { admin, new_address }))],
            },
    {
        self.check_admin_first(inv, &admin)?;
        self.reward_pool = Some(new_address);
        Ok(vec![Effect::Emit(Event::RewardPoolUpdated(RewardPoolUpdated { admin, new_address }))])
    }

    /// Replaces the stake vault consulted for multipliers. Admin only.
    pub fn set_stake_vault_address(&mut self, inv: &Invocation, admin: Address, new_address: Address) -> (r: Result<Vec<Effect>, ContractError>)
        ensures
            match old(self)@.admin_first_error(inv, admin) {
                Some(e) => r == Err::<Vec<Effect>, ContractError>(e) && final(self)@ == old(self)@,
                None => r is Ok && final(self)@ == (QuestEngineState { stake_vault: Some(new_address), ..old(self)@ })
                    && r->Ok_0@ == seq![Effect::Emit(Event::StakeVaultUpdated(StakeVaultUpdated { admin, new_address }))],
            },
    {
        self.check_admin_first(inv, &admin)?;
        self.stake_vault = Some(new_address);
        Ok(vec![Effect::Emit(Event::StakeVaultUpdated(StakeVaultUpdated { admin, new_address }))])
    }

    /// Replaces the governance contract used to resolve disputes. Admin only.
    pub fn set_governance_address(&mut self, inv: &Invocation, admin: Address, new_address: Address) -> (r: Result<Vec<Effect>, ContractError>)
        ensures
            match old(self)@.admin_first_error(inv, admin) {
                Some(e) => r == Err::<Vec<Effect>, ContractError>(e) && final(self)@ == old(self)@,
                None => r is Ok && final(self)@ == (QuestEngineState { governance: Some(new_address), ..old(self)@ })
                    && r->Ok_0@ == seq![Effect::Emit(Event::GovernanceUpdated(GovernanceUpdated { admin, new_address }))],
            },
    {
        self.check_admin_first(inv, &admin)?;
        self.governance = Some(new_address);
        Ok(vec![Effect::Emit(Event::GovernanceUpdated(GovernanceUpdated { admin, new_address }))])
    }

    /// Creates a build quest: the employer locks `reward_amount` of the token
    /// in this contract, and the quest is stored under the next quest id,
    /// which is returned.
    pub fn create_build_quest(
        &mut self,
        inv: &Invocation,
        employer: Address,
        reward_amount: i128,
        metadata_hash: Hash32,
    ) -> (r: Result<(u32, Vec<Effect>), ContractError>)
        ensures
            match old(self)@.create_build_quest_error(inv, employer) {
                Some(e) => r == Err::<(u32, Vec<Effect>), ContractError>(e) && final(self)@ == old(self)@,
                None => {
                    let id = (old(self)@.quest_counter + 1) as u32;
                    let quest = Quest { employer, reward_amount, quest_type: QuestType::Build, metadata_hash, active: true };
                    &&& r is Ok
                    &&& r->Ok_0.0 == id
                    &&& final(self)@ == old(self)@.with_new_quest(quest)
                    &&& r->Ok_0.1@ == seq![
                        Effect::Transfer { token: old(self)@.token->Some_0, from: Party::Other(employer), to: Party::ThisContract, amount: reward_amount },
                        Effect::Emit(Event::QuestCreated(QuestCreated { employer, quest_id: id, reward_amount })),
                    ]
                },
            },
    {
        if !inv.require_auth(&employer) {
            return Err(ContractError::AuthorizationMissing);
        }
        let token = match self.token {
            Some(t) => t,
            None => return Err(ContractError::NotInitialized),
        };
        if self.quest_counter == u32::MAX {
            return Err(ContractError::ArithmeticOverflow);
        }
        let quest_id = self.quest_counter + 1;
        self.quest_counter = quest_id;
        let quest = Quest { employer, reward_amount, quest_type: QuestType::Build, metadata_hash, active: true };
        self.quests.insert(quest_id, quest);
        Ok((quest_id, vec![
            Effect::Transfer { token, from: Party::Other(employer), to: Party::ThisContract, amount: reward_amount },
            Effect::Emit(Event::QuestCreated(QuestCreated { employer, quest_id, reward_amount })),
        ]))
    }

    /// Creates an explore quest, paid out of the reward pool on verification;
    /// the admin is recorded as its employer. Admin only.
    pub fn create_explore_quest(
        &mut self,
        inv: &Invocation,
        admin: Address,
        reward_amount: i128,
        metadata_hash: Hash32,
    ) -> (r: Result<(u32, Vec<Effect>), ContractError>)
        ensures
            match old(self)@.create_explore_quest_error(inv, admin) {
                Some(e) => r == Err::<(u32, Vec<Effect>), ContractError>(e) && final(self)@ == old(self)@,
                None => {
                    let id = (old(self)@.quest_counter + 1) as u32;
                    let quest = Quest { employer: admin, reward_amount, quest_type: QuestType::Explore, metadata_hash, active: true };
                    &&& r is Ok
                    &&& r->Ok_0.0 == id
                    &&& final(self)@ == old(self)@.with_new_quest(quest)
                    &&& r->Ok_0.1@ == seq![
                        Effect::Emit(Event::QuestCreated(QuestCreated { employer: admin, quest_id: id, reward_amount })),
                    ]
                },
            },
    {
        self.check_auth_first(inv, &admin)?;
        if self.quest_counter == u32::MAX {
            return Err(ContractError::ArithmeticOverflow);
        }
        let quest_id = self.quest_counter + 1;
        self.quest_counter = quest_id;
        let quest = Quest { employer: admin, reward_amount, quest_type: QuestType::Explore, metadata_hash, active: true };
        self.quests.insert(quest_id, quest);
        Ok((quest_id, vec![
            Effect::Emit(Event::QuestCreated(QuestCreated { employer: admin, quest_id, reward_amount })),
        ]))
    }

    /// The quest stored under `quest_id`, if any.
    pub fn get_quest(&self, quest_id: u32) -> (r: Option<Quest>)
        ensures
            r == (if self@.quests.contains_key(quest_id) { Some(self@.quests[quest_id]) } else { None::<Quest> }),
    {
        match self.quests.get(&quest_id) {
            Some(q) => Some(*q),
            None => None,
        }
    }

    /// Records a learner's proof for an active build quest, pending review.
    pub fn submit_proof(
        &mut self,
        inv: &Invocation,
        learner: Address,
        quest_id: u32,
        proof_hash: Hash32,
    ) -> (r: Result<Vec<Effect>, ContractError>)
        ensures
            match old(self)@.submit_proof_error(inv, learner, quest_id) {
                Some(e) => r == Err::<Vec<Effect>, ContractError>(e) && final(self)@ == old(self)@,
                None => {
                    &&& r is Ok
                    &&& final(self)@ == (QuestEngineState {
                        submissions: old(self)@.submissions.insert(
                            LearnerKey { learner, id: quest_id },
                            Submission { proof_hash, status: SubmissionStatus::Pending, reviewed_at: None },
                        ),
                        ..old(self)@
                    })
                    &&& r->Ok_0@ == seq![Effect::Emit(Event::ProofSubmitted(ProofSubmitted { learner, quest_id, proof_hash }))]
                },
            },
    {
        if !inv.require_auth(&learner) {
            return Err(ContractError::AuthorizationMissing);
        }
        let quest = match self.quests.get(&quest_id) {
            Some(q) => *q,
            None => return Err(ContractError::QuestNotFound),
        };
        if !quest.active {
            return Err(ContractError::QuestNotActive);
        }
        if quest.quest_type != QuestType::Build {
            return Err(ContractError::NotBuildQuest);
        }
        let key = LearnerKey { learner, id: quest_id };
        if self.submissions.contains(&key) {
            return Err(ContractError::SubmissionAlreadyExists);
        }
        self.submissions.insert(key, Submission { proof_hash, status: SubmissionStatus::Pending, reviewed_at: None });
        Ok(vec![Effect::Emit(Event::ProofSubmitted(ProofSubmitted { learner, quest_id, proof_hash }))])
    }

    /// The build-quest submission of `learner` for `quest_id`, if any.
    pub fn get_submission(&self, learner: Address, quest_id: u32) -> (r: Option<Submission>)
        ensures
            r == (if self@.submissions.contains_key(LearnerKey { learner, id: quest_id }) {
                Some(self@.submissions[LearnerKey { learner, id: quest_id }])
            } else {
                None::<Submission>
            }),
    {
        match self.submissions.get(&LearnerKey { learner, id: quest_id }) {
            Some(s) => Some(*s),
            None => None,
        }
    }

    /// Approves or rejects a pending build-quest submission. Only the quest's
    /// employer may review, and not while the contract is paused. On
    /// approval the escrowed reward is paid out: the platform fee goes to the
    /// reward pool and the learner receives the base scaled by
    /// `multiplier_bps`, capped at the base. `multiplier_bps` is the value the
    /// stake vault reports for the learner; it is read only when approving.
    pub fn review_submission(
        &mut self,
        inv: &Invocation,
        employer: Address,
        learner: Address,
        quest_id: u32,
        approve: bool,
        multiplier_bps: u32,
    ) -> (r: Result<Vec<Effect>, ContractError>)
        ensures
            match old(self)@.review_error(inv, employer, learner, quest_id, approve, multiplier_bps) {
                Some(e) => r == Err::<Vec<Effect>, ContractError>(e) && final(self)@ == old(self)@,
                None => {
                    let payout = if approve {
                        payout_effects(
                            old(self)@.token->Some_0,
                            old(self)@.reward_pool->Some_0,
                            learner,
                            quest_id,
                            old(self)@.quests[quest_id].reward_amount,
                            multiplier_bps,
                        )
                    } else {
                        Seq::<Effect>::empty()
                    };
                    &&& r is Ok
                    &&& final(self)@ == old(self)@.after_review(inv.now, learner, quest_id, approve)
                    &&& r->Ok_0@ == payout + seq![Effect::Emit(Event::SubmissionReviewed(SubmissionReviewed {
                        employer,
                        learner,
                        quest_id,
                        approved: approve,
                    }))]
                },
            },
    {
        if self.is_paused {
            return Err(ContractError::ContractPaused);
        }
        if !inv.require_auth(&employer) {
            return Err(ContractError::AuthorizationMissing);
        }
        let quest = match self.quests.get(&quest_id) {
            Some(q) => *q,
            None => return Err(ContractError::QuestNotFound),
        };
        if !same_address(&quest.employer, &employer) {
            return Err(ContractError::NotQuestEmployer);
        }
        let key = LearnerKey { learner, id: quest_id };
        let mut submission = match self.submissions.get(&key) {
            Some(s) => *s,
            None => return Err(ContractError::SubmissionNotFound),
        };
        if submission.status != SubmissionStatus::Pending {
            return Err(ContractError::SubmissionNotPendingReview);
        }
        let mut effects: Vec<Effect> = Vec::new();
        if approve {
            let token = match self.token {
                Some(t) => t,
                None => return Err(ContractError::NotInitialized),
            };
            if self.stake_vault.is_none() {
                return Err(ContractError::NotInitialized);
            }
            if !payout_in_range(quest.reward_amount, multiplier_bps) {
                return Err(ContractError::ArithmeticOverflow);
            }
            let pool = match self.reward_pool {
                Some(p) => p,
                None => return Err(ContractError::NotInitialized),
            };
            push_payout(&mut effects, token, pool, learner, quest_id, quest.reward_amount, multiplier_bps);
            submission.status = SubmissionStatus::Approved;
        } else {
            submission.status = SubmissionStatus::Rejected;
        }
        submission.reviewed_at = Some(inv.now);
        self.submissions.insert(key, submission);
        effects.push(Effect::Emit(Event::SubmissionReviewed(SubmissionReviewed {
            employer,
            learner,
            quest_id,
            approved: approve,
        })));
        Ok(effects)
    }

    /// Cancels a quest: marks it inactive and returns its escrowed reward to
    /// the employer. Only the quest's employer may refund, and only once.
    pub fn refund_quest(&mut self, inv: &Invocation, employer: Address, quest_id: u32) -> (r: Result<Vec<Effect>, ContractError>)
        ensures
            ({
                let s = old(self)@;
                let err = if !inv.authorizes(employer) {
                    Some(ContractError::AuthorizationMissing)
                } else if !s.quests.contains_key(quest_id) {
                    Some(ContractError::QuestNotFound)
                } else if s.quests[quest_id].employer != employer {
                    Some(ContractError::Unauthorized)
                } else if !s.quests[quest_id].active {
                    Some(ContractError::QuestAlreadyInactive)
                } else if s.token is None {
                    Some(ContractError::NotInitialized)
                } else {
                    None::<ContractError>
                };
                match err {
                    Some(e) => r == Err::<Vec<Effect>, ContractError>(e) && final(self)@ == s,
                    None => {
                        let q = s.quests[quest_id];
                        &&& r is Ok
                        &&& final(self)@ == s.after_refund(quest_id)
                        &&& r->Ok_0@ == seq![
                            Effect::Transfer { token: s.token->Some_0, from: Party::ThisContract, to: Party::Other(employer), amount: q.reward_amount },
                            Effect::Emit(Event::QuestRefunded(QuestRefunded { employer, quest_id, amount: q.reward_amount })),
                        ]
                    },
                }
            }),
    {
        if !inv.require_auth(&employer) {
            return Err(ContractError::AuthorizationMissing);
        }
        let mut quest = match self.quests.get(&quest_id) {
            Some(q) => *q,
            None => return Err(ContractError::QuestNotFound),
        };
        if !same_address(&quest.employer, &employer) {
            return Err(ContractError::Unauthorized);
        }
        if !quest.active {
            return Err(ContractError::QuestAlreadyInactive);
        }
        let token = match self.token {
            Some(t) => t,
            None => return Err(ContractError::NotInitialized),
        };
        quest.active = false;
        self.quests.insert(quest_id, quest);
        Ok(vec![
            Effect::Transfer { token, from: Party::ThisContract, to: Party::Other(employer), amount: quest.reward_amount },
            Effect::Emit(Event::QuestRefunded(QuestRefunded { employer, quest_id, amount: quest.reward_amount })),
        ])
    }


    fn listed_earlier(learners: &Vec<(Address, u32)>, i: usize) -> (b: bool)
        requires
            i < learners.len(),
        ensures
            b == exists|j: int| 0 <= j < i && learners@[j].0 == learners@[i as int].0,
    {
        let mut j: usize = 0;
        while j < i
            invariant
                i < learners.len(),
                j <= i,
                forall|k: int| 0 <= k < j ==> learners@[k].0 != learners@[i as int].0,
            decreases i - j,
        {
            if same_address(&learners[j].0, &learners[i].0) {
                return true;
            }
            j = j + 1;
        }
        false
    }

    /// Approves the listed learners' pending submissions to one quest in a
    /// single call, paying each out as `review_submission` does. Each learner
    /// is listed with the multiplier the stake vault reports for it. The call
    /// is refused as a whole at the first learner whose submission is missing
    /// or not pending (a learner listed twice is not pending the second
    /// time).
    pub fn batch_review_submissions(
        &mut self,
        inv: &Invocation,
        employer: Address,
        quest_id: u32,
        learners: Vec<(Address, u32)>,
    ) -> (r: Result<Vec<Effect>, ContractError>)
        ensures
            ({
                let s = old(self)@;
                let n = learners@.len() as int;
                match s.batch_error(inv, employer, quest_id) {
                    Some(e) => r == Err::<Vec<Effect>, ContractError>(e) && final(self)@ == s,
                    None => match s.batch_outcome(employer, quest_id, learners@, n) {
                        Err(e) => r == Err::<Vec<Effect>, ContractError>(e) && final(self)@ == s,
                        Ok(effs) => {
                            &&& r is Ok
                            &&& final(self)@ == (QuestEngineState {
                                submissions: approve_listed(s.submissions, quest_id, learners@),
                                ..s
                            })
                            &&& r->Ok_0@ == effs + seq![Effect::Emit(Event::BatchReviewed(BatchReviewed {
                                employer,
                                quest_id,
                                approved_count: n as u32,
                            }))]
                        },
                    },
                }
            }),
    {
        let ghost s = self@;
        if self.is_paused {
            return Err(ContractError::ContractPaused);
        }
        if !inv.require_auth(&employer) {
            return Err(ContractError::AuthorizationMissing);
        }
        let quest = match self.quests.get(&quest_id) {
            Some(q) => *q,
            None => return Err(ContractError::QuestNotFound),
        };
        if !same_address(&quest.employer, &employer) {
            return Err(ContractError::NotQuestEmployer);
        }
        let token = match self.token {
            Some(t) => t,
            None => return Err(ContractError::NotInitialized),
        };
        let pool = match self.reward_pool {
            Some(p) => p,
            None => return Err(ContractError::NotInitialized),
        };
        // Check every listed learner and gather the payouts.
        let mut effects: Vec<Effect> = Vec::new();
        let mut i: usize = 0;
        while i < learners.len()
            invariant
                self@ == s,
                i <= learners.len(),
                s.batch_error(inv, employer, quest_id) is None,
                quest == s.quests[quest_id],
                s.token == Some(token),
                s.reward_pool == Some(pool),
                s.batch_outcome(employer, quest_id, learners@, i as int) == Ok::<Seq<Effect>, ContractError>(effects@),
            decreases learners.len() - i,
        {
            let learner = learners[i].0;
            let m = learners[i].1;
            let key = LearnerKey { learner, id: quest_id };
            let ghost n1 = (i + 1) as int;
            let res: Result<(), ContractError> = match self.submissions.get(&key) {
                None => Err(ContractError::SubmissionNotFound),
                Some(sub) => {
                    if sub.status != SubmissionStatus::Pending || Self::listed_earlier(&learners, i) {
                        Err(ContractError::SubmissionNotPendingReview)
                    } else if self.stake_vault.is_none() {
                        Err(ContractError::NotInitialized)
                    } else if !payout_in_range(quest.reward_amount, m) {
                        Err(ContractError::ArithmeticOverflow)
                    } else if i >= 0xffff_ffffusize {
                        Err(ContractError::ArithmeticOverflow)
                    } else {
                        Ok(())
                    }
                },
            };
            match res {
                Err(e) => {
                    proof {
                        assert(s.batch_entry(employer, quest_id, learners@, i as int) == Err::<Seq<Effect>, ContractError>(e));
                        assert(s.batch_outcome(employer, quest_id, learners@, n1) == Err::<Seq<Effect>, ContractError>(e));
                        s.lemma_batch_err_persists(employer, quest_id, learners@, n1, learners@.len() as int);
                    }
                    return Err(e);
                },
                Ok(()) => {},
            }
            let ghost before = effects@;
            push_payout(&mut effects, token, pool, learner, quest_id, quest.reward_amount, m);
            effects.push(Effect::Emit(Event::SubmissionReviewed(SubmissionReviewed {
                employer,
                learner,
                quest_id,
                approved: true,
            })));
            proof {
                let more = s.batch_entry(employer, quest_id, learners@, i as int);
                assert(more is Ok);
                assert(effects@ =~= before + more->Ok_0);
            }
            i = i + 1;
        }
        // Every check passed: approve the listed submissions.
        proof {
            assert(approve_listed(s.submissions, quest_id, learners@.take(0)) =~= s.submissions);
        }
        let mut k: usize = 0;
        while k < learners.len()
            invariant
                k <= learners.len(),
                s.batch_error(inv, employer, quest_id) is None,
                s.batch_outcome(employer, quest_id, learners@, learners@.len() as int) is Ok,
                self@ == (QuestEngineState {
                    submissions: approve_listed(s.submissions, quest_id, learners@.take(k as int)),
                    ..s
                }),
            decreases learners.len() - k,
        {
            let learner = learners[k].0;
            let key = LearnerKey { learner, id: quest_id };
            proof { self.lemma_batch_entry_ok(s, employer, quest_id, learners@, k as int); }
            let mut sub = match self.submissions.get(&key) {
                Some(x) => *x,
                None => { proof { assert(false); } return Err(ContractError::SubmissionNotFound); },
            };
            sub.status = SubmissionStatus::Approved;
            self.submissions.insert(key, sub);
            proof {
                let prev = learners@.take(k as int);
                let next = learners@.take(k + 1);
                assert forall|j: int| 0 <= j < prev.len() implies #[trigger] next[j] == prev[j] by {}
                assert(next[k as int] == learners@[k as int]);
                let target = approve_listed(s.submissions, quest_id, next);
                assert forall|kk: LearnerKey| #[trigger] self.submissions@.contains_key(kk)
                    == target.contains_key(kk) by {}
                assert forall|kk: LearnerKey| #[trigger] self.submissions@.contains_key(kk)
                    implies self.submissions@[kk] == target[kk] by {
                    if kk == key {
                        assert(exists|j: int| 0 <= j < next.len() && next[j].0 == kk.learner) by {
                            assert(next[k as int].0 == kk.learner);
                        }
                    } else {
                        let inprev = exists|j: int| 0 <= j < prev.len() && prev[j].0 == kk.learner;
                        let innext = exists|j: int| 0 <= j < next.len() && next[j].0 == kk.learner;
                        if kk.id == quest_id {
                            if innext {
                                let j = choose|j: int| 0 <= j < next.len() && next[j].0 == kk.learner;
                                if j < k {
                                    assert(prev[j].0 == kk.learner);
                                } else {
                                    assert(kk.learner == learner);
                                }
                            }
                            if inprev {
                                let j = choose|j: int| 0 <= j < prev.len() && prev[j].0 == kk.learner;
                                assert(next[j].0 == kk.learner);
                            }
                        }
                    }
                }
                assert(self.submissions@ =~= target);
            }
            k = k + 1;
        }
        proof {
            assert(learners@.take(learners@.len() as int) =~= learners@);
        }
        effects.push(Effect::Emit(Event::BatchReviewed(BatchReviewed {
            employer,
            quest_id,
            approved_count: learners.len() as u32,
        })));
        Ok(effects)
    }

    proof fn lemma_batch_entry_ok(
        &self,
        s: QuestEngineState,
        employer: Address,
        quest_id: u32,
        learners: Seq<(Address, u32)>,
        k: int,
    )
        requires
            0 <= k < learners.len(),
            s.batch_outcome(employer, quest_id, learners, learners.len() as int) is Ok,
            self@ == (QuestEngineState {
                submissions: approve_listed(s.submissions, quest_id, learners.take(k)),
                ..s
            }),
        ensures
            self@.submissions.contains_key(LearnerKey { learner: learners[k].0, id: quest_id }),
    {
        let n = learners.len() as int;
        if s.batch_outcome(employer, quest_id, learners, k + 1) is Err {
            s.lemma_batch_err_persists(employer, quest_id, learners, k + 1, n);
        }
        assert(s.batch_entry(employer, quest_id, learners, k) is Ok);
    }


    /// Replaces this contract's code. Admin only; `migrate` must follow.
    pub fn upgrade_contract(&mut self, inv: &Invocation, admin: Address, new_wasm_hash: Hash32) -> (r: Result<Vec<Effect>, ContractError>)
        ensures
            final(self)@ == old(self)@,
            match old(self)@.auth_first_error(inv, admin) {
                Some(e) => r == Err::<Vec<Effect>, ContractError>(e),
                None => r is Ok && r->Ok_0@ == seq![
                    Effect::UpdateWasm { new_wasm_hash },
                    Effect::Emit(Event::ContractUpgraded(ContractUpgraded { admin, new_wasm_hash })),
                ],
            },
    {
        self.check_auth_first(inv, &admin)?;
        Ok(vec![
            Effect::UpdateWasm { new_wasm_hash },
            Effect::Emit(Event::ContractUpgraded(ContractUpgraded { admin, new_wasm_hash })),
        ])
    }

    /// Applies pending storage migrations and records the current schema
    /// version. Admin only; refused when already at `VERSION`.
    pub fn migrate(&mut self, inv: &Invocation, admin: Address) -> (r: Result<(), ContractError>)
        ensures
            match old(self)@.migrate_error(inv, admin) {
                Some(e) => r == Err::<(), ContractError>(e) && final(self)@ == old(self)@,
                None => r is Ok && final(self)@ == (QuestEngineState { version: VERSION, ..old(self)@ }),
            },
    {
        self.check_auth_first(inv, &admin)?;
        if self.version >= VERSION {
            return Err(ContractError::AlreadyAtCurrentVersion);
        }
        self.version = VERSION;
        Ok(())
    }

    /// The stored schema version; 0 before any migration.
    pub fn contract_version(&self) -> (v: u32)
        ensures
            v == self@.version,
    {
        self.version
    }

    /// Confirms a learner's pending explore-quest submission and pays the
    /// quest's reward out of the reward pool. Admin only.
    pub fn verify_explore_quest(&mut self, inv: &Invocation, admin: Address, learner: Address, quest_id: u32) -> (r: Result<Vec<Effect>, ContractError>)
        ensures
            match old(self)@.verify_explore_error(inv, admin, learner, quest_id) {
                Some(e) => r == Err::<Vec<Effect>, ContractError>(e) && final(self)@ == old(self)@,
                None => {
                    let key = LearnerKey { learner, id: quest_id };
                    let amount = old(self)@.quests[quest_id].reward_amount;
                    &&& r is Ok
                    &&& final(self)@ == old(self)@.after_explore_decision(learner, quest_id, ExploreSubmissionStatus::Verified)
                    &&& r->Ok_0@ == seq![
                        Effect::DistributeReward { pool: old(self)@.reward_pool->Some_0, learner, amount },
                        Effect::Emit(Event::ExploreQuestVerified(ExploreQuestVerified { admin, learner, quest_id, amount })),
                    ]
                },
            },
    {
        self.check_auth_first(inv, &admin)?;
        let quest = match self.quests.get(&quest_id) {
            Some(q) => *q,
            None => return Err(ContractError::QuestNotFound),
        };
        if quest.quest_type != QuestType::Explore {
            return Err(ContractError::NotExploreQuest);
        }
        let key = LearnerKey { learner, id: quest_id };
        let mut sub = match self.explore_submissions.get(&key) {
            Some(x) => *x,
            None => return Err(ContractError::NoProofSubmission),
        };
        if sub.status != ExploreSubmissionStatus::Pending {
            return Err(ContractError::SubmissionNotPending);
        }
        let pool = match self.reward_pool {
            Some(p) => p,
            None => return Err(ContractError::NotInitialized),
        };
        sub.status = ExploreSubmissionStatus::Verified;
        self.explore_submissions.insert(key, sub);
        Ok(vec![
            Effect::DistributeReward { pool, learner, amount: quest.reward_amount },
            Effect::Emit(Event::ExploreQuestVerified(ExploreQuestVerified { admin, learner, quest_id, amount: quest.reward_amount })),
        ])
    }

    /// Records a learner's proof for an explore quest, pending the admin's
    /// decision.
    pub fn submit_explore_proof(&mut self, inv: &Invocation, learner: Address, quest_id: u32, proof_hash: Hash32) -> (r: Result<Vec<Effect>, ContractError>)
        ensures
            match old(self)@.submit_explore_error(inv, learner, quest_id) {
                Some(e) => r == Err::<Vec<Effect>, ContractError>(e) && final(self)@ == old(self)@,
                None => {
                    &&& r is Ok
                    &&& final(self)@ == (QuestEngineState {
                        explore_submissions: old(self)@.explore_submissions.insert(
                            LearnerKey { learner, id: quest_id },
                            ExploreSubmission { proof_hash, status: ExploreSubmissionStatus::Pending },
                        ),
                        ..old(self)@
                    })
                    &&& r->Ok_0@ == seq![Effect::Emit(Event::ExploreProofSubmitted(ExploreProofSubmitted { learner, quest_id, proof_hash }))]
                },
            },
    {
        if !inv.require_auth(&learner) {
            return Err(ContractError::AuthorizationMissing);
        }
        let quest = match self.quests.get(&quest_id) {
            Some(q) => *q,
            None => return Err(ContractError::QuestNotFound),
        };
        if quest.quest_type != QuestType::Explore {
            return Err(ContractError::ExploreProofOnBuildQuest);
        }
        let key = LearnerKey { learner, id: quest_id };
        if self.explore_submissions.contains(&key) {
            return Err(ContractError::ExploreSubmissionAlreadyExists);
        }
        self.explore_submissions.insert(key, ExploreSubmission { proof_hash, status: ExploreSubmissionStatus::Pending });
        Ok(vec![Effect::Emit(Event::ExploreProofSubmitted(ExploreProofSubmitted { learner, quest_id, proof_hash }))])
    }

    /// The explore-quest submission of `learner` for `quest_id`, if any.
    pub fn get_explore_submission(&self, learner: Address, quest_id: u32) -> (r: Option<ExploreSubmission>)
        ensures
            r == (if self@.explore_submissions.contains_key(LearnerKey { learner, id: quest_id }) {
                Some(self@.explore_submissions[LearnerKey { learner, id: quest_id }])
            } else {
                None::<ExploreSubmission>
            }),
    {
        match self.explore_submissions.get(&LearnerKey { learner, id: quest_id }) {
            Some(x) => Some(*x),
            None => None,
        }
    }

    /// Rejects a learner's pending explore-quest submission with a reason of
    /// at most `MAX_REASON_LEN` bytes; no reward is paid. Admin only.
    pub fn reject_explore_quest(
        &mut self,
        inv: &Invocation,
        admin: Address,
        learner: Address,
        quest_id: u32,
        reason: Vec<u8>,
    ) -> (r: Result<Vec<Effect>, ContractError>)
        ensures
            match old(self)@.reject_explore_error(inv, admin, learner, quest_id, reason@.len()) {
                Some(e) => r == Err::<Vec<Effect>, ContractError>(e) && final(self)@ == old(self)@,
                None => {
                    let key = LearnerKey { learner, id: quest_id };
                    &&& r is Ok
                    &&& final(self)@ == old(self)@.after_explore_decision(learner, quest_id, ExploreSubmissionStatus::Rejected)
                    &&& r->Ok_0@ == seq![Effect::Emit(Event::ExploreSubmissionRejected(ExploreSubmissionRejected {
                        admin,
                        learner,
                        quest_id,
                        reason,
                    }))]
                },
            },
    {
        self.check_auth_first(inv, &admin)?;
        if reason.len() > 256 {
            return Err(ContractError::ReasonTooLong);
        }
        let key = LearnerKey { learner, id: quest_id };
        let mut sub = match self.explore_submissions.get(&key) {
            Some(x) => *x,
            None => return Err(ContractError::NoProofSubmission),
        };
        if sub.status != ExploreSubmissionStatus::Pending {
            return Err(ContractError::SubmissionNotPending);
        }
        sub.status = ExploreSubmissionStatus::Rejected;
        self.explore_submissions.insert(key, sub);
        Ok(vec![Effect::Emit(Event::ExploreSubmissionRejected(ExploreSubmissionRejected {
            admin,
            learner,
            quest_id,
            reason,
        }))])
    }

    /// Opens a dispute over a rejected build-quest submission, within
    /// `DISPUTE_WINDOW_SECONDS` of its review. Returns the new dispute's id.
    pub fn dispute_submission(&mut self, inv: &Invocation, learner: Address, quest_id: u32, reason: Hash32) -> (r: Result<(u32, Vec<Effect>), ContractError>)
        ensures
            match old(self)@.dispute_error(inv, learner, quest_id) {
                Some(e) => r == Err::<(u32, Vec<Effect>), ContractError>(e) && final(self)@ == old(self)@,
                None => {
                    let id = (old(self)@.dispute_counter + 1) as u32;
                    &&& r is Ok
                    &&& r->Ok_0.0 == id
                    &&& final(self)@ == (QuestEngineState {
                        dispute_counter: id,
                        disputes: old(self)@.disputes.insert(id, Dispute { quest_id, learner, reason, opened_at: inv.now, resolved: false }),
                        ..old(self)@
                    })
                    &&& r->Ok_0.1@ == seq![Effect::Emit(Event::DisputeOpened(DisputeOpened { learner, quest_id, dispute_id: id, reason }))]
                },
            },
    {
        if !inv.require_auth(&learner) {
            return Err(ContractError::AuthorizationMissing);
        }
        let key = LearnerKey { learner, id: quest_id };
        let sub = match self.submissions.get(&key) {
            Some(x) => *x,
            None => return Err(ContractError::SubmissionNotFound),
        };
        if sub.status != SubmissionStatus::Rejected {
            return Err(ContractError::OnlyRejectedDisputable);
        }
        let reviewed_at = match sub.reviewed_at {
            Some(t) => t,
            None => return Err(ContractError::NotReviewed),
        };
        if inv.now < reviewed_at {
            return Err(ContractError::ArithmeticOverflow);
        }
        if inv.now - reviewed_at > DISPUTE_WINDOW_SECONDS {
            return Err(ContractError::DisputeWindowExpired);
        }
        if self.dispute_counter == u32::MAX {
            return Err(ContractError::ArithmeticOverflow);
        }
        let dispute_id = self.dispute_counter + 1;
        self.dispute_counter = dispute_id;
        self.disputes.insert(dispute_id, Dispute { quest_id, learner, reason, opened_at: inv.now, resolved: false });
        Ok((dispute_id, vec![Effect::Emit(Event::DisputeOpened(DisputeOpened { learner, quest_id, dispute_id, reason }))]))
    }

    /// Resolves an open dispute. With `override_approve` the disputed
    /// submission is approved and paid out as in `review_submission`, at the
    /// multiplier the stake vault reports for the learner. Admin only.
    pub fn resolve_dispute(
        &mut self,
        inv: &Invocation,
        admin: Address,
        dispute_id: u32,
        override_approve: bool,
        multiplier_bps: u32,
    ) -> (r: Result<Vec<Effect>, ContractError>)
        ensures
            match old(self)@.resolve_error(inv, admin, dispute_id, override_approve, multiplier_bps) {
                Some(e) => r == Err::<Vec<Effect>, ContractError>(e) && final(self)@ == old(self)@,
                None => {
                    &&& r is Ok
                    &&& final(self)@ == old(self)@.after_resolve(dispute_id, override_approve)
                    &&& r->Ok_0@ == old(self)@.resolve_effects(dispute_id, override_approve, multiplier_bps)
                },
            },
    {
        self.check_admin_first(inv, &admin)?;
        let mut dispute = match self.disputes.get(&dispute_id) {
            Some(d) => *d,
            None => return Err(ContractError::DisputeNotFound),
        };
        if dispute.resolved {
            return Err(ContractError::DisputeAlreadyResolved);
        }
        let mut effects: Vec<Effect> = Vec::new();
        if override_approve {
            let quest = match self.quests.get(&dispute.quest_id) {
                Some(q) => *q,
                None => return Err(ContractError::QuestNotFound),
            };
            let key = LearnerKey { learner: dispute.learner, id: dispute.quest_id };
            let mut sub = match self.submissions.get(&key) {
                Some(x) => *x,
                None => return Err(ContractError::SubmissionNotFound),
            };
            let token = match self.token {
                Some(t) => t,
                None => return Err(ContractError::NotInitialized),
            };
            if self.stake_vault.is_none() {
                return Err(ContractError::NotInitialized);
            }
            if !payout_in_range(quest.reward_amount, multiplier_bps) {
                return Err(ContractError::ArithmeticOverflow);
            }
            let pool = match self.reward_pool {
                Some(p) => p,
                None => return Err(ContractError::NotInitialized),
            };
            sub.status = SubmissionStatus::Approved;
            self.submissions.insert(key, sub);
            push_payout(&mut effects, token, pool, dispute.learner, dispute.quest_id, quest.reward_amount, multiplier_bps);
        }
        dispute.resolved = true;
        self.disputes.insert(dispute_id, dispute);
        effects.push(Effect::Emit(Event::DisputeResolved(DisputeResolved {
            dispute_id,
            learner: dispute.learner,
            quest_id: dispute.quest_id,
            override_approve,
        })));
        proof {
            assert(self@ =~= old(self)@.after_resolve(dispute_id, override_approve));
            assert(effects@ =~= old(self)@.resolve_effects(dispute_id, override_approve, multiplier_bps));
        }
        Ok(effects)
    }

    /// Resolves a dispute in the learner's favour once the governance
    /// proposal about it has been executed with more votes for than against.
    /// Only the configured governance contract may call it: a call it has
    /// not authorized is refused as `Unauthorized`. `proposal` is what the
    /// governance contract reports for the proposal; the resolution then
    /// runs as `resolve_dispute` by the stored admin with an override, and
    /// needs the admin's authorization too.
    pub fn resolve_dispute_via_governance(
        &mut self,
        inv: &Invocation,
        dispute_id: u32,
        proposal: Proposal,
        multiplier_bps: u32,
    ) -> (r: Result<Vec<Effect>, ContractError>)
        ensures
            match old(self)@.governance_error(inv, proposal) {
                Some(e) => r == Err::<Vec<Effect>, ContractError>(e) && final(self)@ == old(self)@,
                None => {
                    let admin = old(self)@.admin->Some_0;
                    match old(self)@.resolve_error(inv, admin, dispute_id, true, multiplier_bps) {
                        Some(e) => r == Err::<Vec<Effect>, ContractError>(e) && final(self)@ == old(self)@,
                        None => {
                            &&& r is Ok
                            &&& final(self)@ == old(self)@.after_resolve(dispute_id, true)
                            &&& r->Ok_0@ == old(self)@.resolve_effects(dispute_id, true, multiplier_bps)
                        },
                    }
                },
            },
    {
        match self.governance {
            None => return Err(ContractError::GovernanceNotConfigured),
            Some(governance) => {
                if !inv.require_auth(&governance) {
                    return Err(ContractError::Unauthorized);
                }
            },
        }
        if !proposal.executed {
            return Err(ContractError::ProposalNotExecuted);
        }
        if proposal.votes_for <= proposal.votes_against {
            return Err(ContractError::InsufficientVotes);
        }
        let admin = match self.admin {
            Some(a) => a,
            None => return Err(ContractError::NotInitialized),
        };
        self.resolve_dispute(inv, admin, dispute_id, true, multiplier_bps)
    }

    /// The dispute stored under `dispute_id`, if any.
    pub fn get_dispute(&self, dispute_id: u32) -> (r: Option<Dispute>)
        ensures
            r == (if self@.disputes.contains_key(dispute_id) { Some(self@.disputes[dispute_id]) } else { None::<Dispute> }),
    {
        match self.disputes.get(&dispute_id) {
            Some(d) => Some(*d),
            None => None,
        }
    }

}


// ── Laws ────────────────────────────────────────────────────────────────────

/// A payout never takes more than the escrowed reward: for a non-negative
/// reward, the fee and the learner's amount are non-negative, the fee and
/// the base add up to the reward, the learner never gets more than the base,
/// and fee plus learner amount stays within the reward.
pub proof fn law_payout_within_reward(reward: int, multiplier_bps: u32)
    requires
        0 <= reward,
        payout_fits(reward, multiplier_bps as int),
    ensures
        payout_fee(reward) + payout_base(reward) == reward,
        0 <= payout_fee(reward),
        0 <= payout_learner_amount(reward, multiplier_bps as int) <= payout_base(reward),
        payout_fee(reward) + payout_learner_amount(reward, multiplier_bps as int) <= reward,
{
    lemma_fee_bounds(reward);
    let base = payout_base(reward);
    assert(base * (multiplier_bps as int) >= 0) by (nonlinear_arith)
        requires base >= 0, multiplier_bps >= 0;
    assert((base * (multiplier_bps as int)) / 100 >= 0) by (nonlinear_arith)
        requires base * (multiplier_bps as int) >= 0;
}

/// With the neutral multiplier (100 basis points, 1.0x) the learner receives
/// exactly the base, and no cap applies.
pub proof fn law_payout_neutral_multiplier(reward: int)
    requires
        payout_fits(reward, 100),
    ensures
        payout_boost(reward, 100) == payout_base(reward),
        !payout_capped(reward, 100),
        payout_learner_amount(reward, 100) == payout_base(reward),
{
    let base = payout_base(reward);
    if base >= 0 {
        assert((base * 100) / 100 == base) by (nonlinear_arith);
    } else {
        assert((-(base * 100)) / 100 == -base) by (nonlinear_arith)
            requires base < 0;
    }
}

/// A multiplier above 1.0x on a non-negative reward is capped at the base:
/// the learner receives the base, never more.
pub proof fn law_payout_boost_capped(reward: int, multiplier_bps: u32)
    requires
        0 <= reward,
        100 <= multiplier_bps,
        payout_fits(reward, multiplier_bps as int),
    ensures
        payout_learner_amount(reward, multiplier_bps as int) == payout_base(reward),
{
    lemma_fee_bounds(reward);
    let base = payout_base(reward);
    let m = multiplier_bps as int;
    assert(base * m >= base * 100) by (nonlinear_arith)
        requires base >= 0, m >= 100;
    assert((base * m) / 100 >= (base * 100) / 100) by (nonlinear_arith)
        requires base * m >= base * 100;
    assert((base * 100) / 100 == base) by (nonlinear_arith);
}

/// A submission is reviewed at most once: once a review is accepted, every
/// further review of that submission is refused, and, when the employer
/// authorizes it, refused as not pending.
pub proof fn law_review_once(
    s: QuestEngineState,
    inv: &Invocation,
    employer: Address,
    learner: Address,
    quest_id: u32,
    approve: bool,
    multiplier_bps: u32,
    inv2: &Invocation,
    approve2: bool,
    multiplier2: u32,
)
    requires
        s.review_error(inv, employer, learner, quest_id, approve, multiplier_bps) is None,
    ensures
        s.after_review(inv.now, learner, quest_id, approve).review_error(inv2, employer, learner, quest_id, approve2, multiplier2) is Some,
        inv2.authorizes(employer) ==> s.after_review(inv.now, learner, quest_id, approve).review_error(
            inv2, employer, learner, quest_id, approve2, multiplier2,
        ) == Some(ContractError::SubmissionNotPendingReview),
{
}

/// A quest is refunded at most once: after a refund, a second refund by its
/// employer is refused as already inactive, and no learner can submit to it.
pub proof fn law_refund_once(s: QuestEngineState, quest_id: u32, inv: &Invocation, employer: Address, learner: Address)
    requires
        s.quests.contains_key(quest_id),
        s.quests[quest_id].employer == employer,
        inv.authorizes(employer),
        inv.authorizes(learner),
    ensures
        ({
            let s2 = s.after_refund(quest_id);
            &&& !s2.quests[quest_id].active
            &&& s2.submit_proof_error(inv, learner, quest_id) == Some(ContractError::QuestNotActive)
        }),
{
}

/// An explore submission is decided at most once: after the admin verifies
/// or rejects it, both verifying and rejecting it again are refused.
pub proof fn law_explore_decided_once(
    s: QuestEngineState,
    inv: &Invocation,
    admin: Address,
    learner: Address,
    quest_id: u32,
    verified: bool,
    reason_len: nat,
)
    requires
        s.explore_submissions.contains_key(LearnerKey { learner, id: quest_id }),
        s.auth_first_error(inv, admin) is None,
        reason_len <= MAX_REASON_LEN,
        verified ==> s.quests.contains_key(quest_id) && s.quests[quest_id].quest_type == QuestType::Explore,
    ensures
        ({
            let status = if verified { ExploreSubmissionStatus::Verified } else { ExploreSubmissionStatus::Rejected };
            let s2 = s.after_explore_decision(learner, quest_id, status);
            &&& s2.reject_explore_error(inv, admin, learner, quest_id, reason_len) == Some(ContractError::SubmissionNotPending)
            &&& s2.quests.contains_key(quest_id) && s2.quests[quest_id].quest_type == QuestType::Explore
                ==> s2.verify_explore_error(inv, admin, learner, quest_id) == Some(ContractError::SubmissionNotPending)
        }),
{
}

/// A dispute is resolved at most once: after it is resolved, resolving it
/// again is refused.
pub proof fn law_dispute_resolved_once(
    s: QuestEngineState,
    inv: &Invocation,
    admin: Address,
    dispute_id: u32,
    override_approve: bool,
    multiplier_bps: u32,
    override2: bool,
    multiplier2: u32,
)
    requires
        s.resolve_error(inv, admin, dispute_id, override_approve, multiplier_bps) is None,
    ensures
        s.after_resolve(dispute_id, override_approve).resolve_error(inv, admin, dispute_id, override2, multiplier2)
            == Some(ContractError::DisputeAlreadyResolved),
{
}

/// Dispute resolution through governance is for the governance contract
/// alone: a call it has not authorized is refused, whatever the proposal
/// says and whoever else authorized it.
pub proof fn law_governance_only(s: QuestEngineState, inv: &Invocation, proposal: Proposal)
    requires
        s.governance is Some,
        !inv.authorizes(s.governance->Some_0),
    ensures
        s.governance_error(inv, proposal) == Some(ContractError::Unauthorized),
{
}

/// A batch is accepted only when every listed learner has a submission for
/// the quest that is still pending review: a submission already approved or
/// rejected is never paid by a batch.
pub proof fn law_batch_only_pending(
    s: QuestEngineState,
    employer: Address,
    quest_id: u32,
    learners: Seq<(Address, u32)>,
    n: int,
)
    requires
        0 <= n <= learners.len(),
    ensures
        s.batch_outcome(employer, quest_id, learners, n) is Ok ==> forall|j: int| 0 <= j < n ==> {
            let key = LearnerKey { learner: (#[trigger] learners[j]).0, id: quest_id };
            &&& s.submissions.contains_key(key)
            &&& s.submissions[key].status == SubmissionStatus::Pending
        },
    decreases n,
{
    if n > 0 {
        law_batch_only_pending(s, employer, quest_id, learners, n - 1);
    }
}

/// A submission is paid at most once: after a review of it is accepted
/// (approval or rejection), every batch that lists it is refused.
pub proof fn law_batch_after_review(
    s: QuestEngineState,
    inv: &Invocation,
    employer: Address,
    learner: Address,
    quest_id: u32,
    approve: bool,
    multiplier_bps: u32,
    employer2: Address,
    learners: Seq<(Address, u32)>,
    j: int,
)
    requires
        s.review_error(inv, employer, learner, quest_id, approve, multiplier_bps) is None,
        0 <= j < learners.len(),
        learners[j].0 == learner,
    ensures
        s.after_review(inv.now, learner, quest_id, approve).batch_outcome(employer2, quest_id, learners, learners.len() as int) is Err,
{
    let s2 = s.after_review(inv.now, learner, quest_id, approve);
    law_review_records_decision(s, inv, employer, learner, quest_id, approve, multiplier_bps);
    law_batch_only_pending(s2, employer2, quest_id, learners, learners.len() as int);
    if s2.batch_outcome(employer2, quest_id, learners, learners.len() as int) is Ok {
        assert(learners[j].0 == learner);
    }
}

/// An accepted batch approves every listed submission, so a second batch
/// listing any of them is refused.
pub proof fn law_batch_then_batch(
    s: QuestEngineState,
    employer: Address,
    quest_id: u32,
    learners: Seq<(Address, u32)>,
    employer2: Address,
    learners2: Seq<(Address, u32)>,
    j: int,
    k: int,
)
    requires
        s.batch_outcome(employer, quest_id, learners, learners.len() as int) is Ok,
        0 <= j < learners.len(),
        0 <= k < learners2.len(),
        learners2[k].0 == learners[j].0,
    ensures
        (QuestEngineState { submissions: approve_listed(s.submissions, quest_id, learners), ..s })
            .batch_outcome(employer2, quest_id, learners2, learners2.len() as int) is Err,
{
    let s2 = QuestEngineState { submissions: approve_listed(s.submissions, quest_id, learners), ..s };
    let key = LearnerKey { learner: learners[j].0, id: quest_id };
    law_batch_only_pending(s, employer, quest_id, learners, learners.len() as int);
    assert(s.submissions.contains_key(key));
    assert(s2.submissions[key].status == SubmissionStatus::Approved);
    law_batch_only_pending(s2, employer2, quest_id, learners2, learners2.len() as int);
    if s2.batch_outcome(employer2, quest_id, learners2, learners2.len() as int) is Ok {
        assert(learners2[k].0 == learners[j].0);
    }
}

/// An accepted review records the decision and its time: the submission's
/// status becomes approved or rejected as decided, its review time is the
/// ledger time of the call, its proof is kept, and no other submission,
/// quest or dispute changes.
pub proof fn law_review_records_decision(
    s: QuestEngineState,
    inv: &Invocation,
    employer: Address,
    learner: Address,
    quest_id: u32,
    approve: bool,
    multiplier_bps: u32,
)
    requires
        s.review_error(inv, employer, learner, quest_id, approve, multiplier_bps) is None,
    ensures
        ({
            let key = LearnerKey { learner, id: quest_id };
            let s2 = s.after_review(inv.now, learner, quest_id, approve);
            &&& s2.submissions.contains_key(key)
            &&& s2.submissions[key].reviewed_at == Some(inv.now)
            &&& s2.submissions[key].status == (if approve { SubmissionStatus::Approved } else { SubmissionStatus::Rejected })
            &&& s2.submissions[key].proof_hash == s.submissions[key].proof_hash
            &&& s2.submissions.remove(key) == s.submissions.remove(key)
            &&& s2.quests == s.quests
            &&& s2.disputes == s.disputes
        }),
{
    let key = LearnerKey { learner, id: quest_id };
    let s2 = s.after_review(inv.now, learner, quest_id, approve);
    assert(s2.submissions.remove(key) =~= s.submissions.remove(key));
}

/// Resolving an open dispute without an override needs nothing but the
/// admin: it is accepted whatever the quest and submission are, marks the
/// dispute resolved, leaves every submission as it was, pays nothing, and
/// publishes only the `DisputeResolved` event.
pub proof fn law_resolve_without_override(
    s: QuestEngineState,
    inv: &Invocation,
    admin: Address,
    dispute_id: u32,
    multiplier_bps: u32,
)
    requires
        s.admin_first_error(inv, admin) is None,
        s.disputes.contains_key(dispute_id),
        !s.disputes[dispute_id].resolved,
    ensures
        ({
            let d = s.disputes[dispute_id];
            let s2 = s.after_resolve(dispute_id, false);
            let effs = s.resolve_effects(dispute_id, false, multiplier_bps);
            &&& s.resolve_error(inv, admin, dispute_id, false, multiplier_bps) is None
            &&& s2.submissions == s.submissions
            &&& s2.disputes.contains_key(dispute_id) && s2.disputes[dispute_id].resolved
            &&& effs.len() == 1
            &&& forall|i: int| 0 <= i < effs.len() ==> !(#[trigger] effs[i] is Transfer)
            &&& effs[0] == Effect::Emit(Event::DisputeResolved(DisputeResolved {
                dispute_id,
                learner: d.learner,
                quest_id: d.quest_id,
                override_approve: false,
            }))
        }),
{
    let effs = s.resolve_effects(dispute_id, false, multiplier_bps);
    assert(effs.len() == 1);
}

/// Only a rejected, reviewed submission can be disputed, within the window
/// after its review: an accepted dispute implies so, and a submission that
/// is not rejected is refused as such.
pub proof fn law_only_rejected_disputable(s: QuestEngineState, inv: &Invocation, learner: Address, quest_id: u32)
    ensures
        ({
            let key = LearnerKey { learner, id: quest_id };
            &&& s.dispute_error(inv, learner, quest_id) is None ==> {
                &&& s.submissions.contains_key(key)
                &&& s.submissions[key].status == SubmissionStatus::Rejected
                &&& s.submissions[key].reviewed_at is Some
                &&& s.submissions[key].reviewed_at->Some_0 <= inv.now
                &&& inv.now - s.submissions[key].reviewed_at->Some_0 <= DISPUTE_WINDOW_SECONDS
            }
            &&& inv.authorizes(learner) && s.submissions.contains_key(key)
                && s.submissions[key].status != SubmissionStatus::Rejected
                ==> s.dispute_error(inv, learner, quest_id) == Some(ContractError::OnlyRejectedDisputable)
        }),
{
}

/// An approved submission cannot be disputed: after a review approving it
/// is accepted, every dispute of it is refused.
pub proof fn law_no_dispute_after_approval(
    s: QuestEngineState,
    inv: &Invocation,
    employer: Address,
    learner: Address,
    quest_id: u32,
    multiplier_bps: u32,
    inv2: &Invocation,
)
    requires
        s.review_error(inv, employer, learner, quest_id, true, multiplier_bps) is None,
    ensures
        s.after_review(inv.now, learner, quest_id, true).dispute_error(inv2, learner, quest_id) is Some,
{
    law_review_records_decision(s, inv, employer, learner, quest_id, true, multiplier_bps);
    law_only_rejected_disputable(s.after_review(inv.now, learner, quest_id, true), inv2, learner, quest_id);
}

/// Quest and dispute ids are handed out in sequence: every stored quest id
/// lies in `1..=quest_counter` and every stored dispute id in
/// `1..=dispute_counter`.
pub open spec fn ids_in_range(s: QuestEngineState) -> bool {
    &&& forall|id: u32| #[trigger] s.quests.contains_key(id) ==> 1 <= id <= s.quest_counter
    &&& forall|id: u32| #[trigger] s.disputes.contains_key(id) ==> 1 <= id <= s.dispute_counter
}

/// Creating a quest never overwrites one: the new id is not in use, and ids
/// stay in sequence.
pub proof fn law_new_quest_is_fresh(s: QuestEngineState, quest: Quest)
    requires
        ids_in_range(s),
        s.quest_counter < u32::MAX,
    ensures
        !s.quests.contains_key((s.quest_counter + 1) as u32),
        ids_in_range(s.with_new_quest(quest)),
{
}

/// Opening a dispute never overwrites one: the new id is not in use, and ids
/// stay in sequence.
pub proof fn law_new_dispute_is_fresh(s: QuestEngineState, d: Dispute)
    requires
        ids_in_range(s),
        s.dispute_counter < u32::MAX,
    ensures
        ({
            let id = (s.dispute_counter + 1) as u32;
            &&& !s.disputes.contains_key(id)
            &&& ids_in_range(QuestEngineState { dispute_counter: id, disputes: s.disputes.insert(id, d), ..s })
        }),
{
}

} // verus!
