use vstd::prelude::*;
use crate::common::{Address, ContractError, Hash32, Invocation, LearnerKey, same_address};
use crate::table::Table;

verus! {

/// Storage schema version of this contract.
pub const VERSION: u32 = 1;

/// The id given to the first course.
pub const INITIAL_COURSE_ID: u32 = 1;

/// The largest course id.
pub const MAX_COURSE_ID: u32 = 0xffff_ffff;

/// The most modules a course may have.
pub const DEFAULT_TOTAL_MODULES_BOUND: u32 = 1000;

/// The reward paid for completing a course: 10 tokens of 7 decimals.
pub const BASE_REWARD_AMOUNT: i128 = 100_000_000;

/// A course as stored under `Course(id)`.
#[derive(Clone, Copy, Debug, PartialEq, Eq)]
pub struct Course {
    pub instructor: Address,
    pub total_modules: u32,
    pub metadata_hash: Hash32,
    pub active: bool,
}

// ── Events ──────────────────────────────────────────────────────────────────

#[derive(Clone, Copy, Debug, PartialEq, Eq)]
pub struct MetadataUpdated {
    pub id: u32,
    pub instructor: Address,
    pub new_hash: Hash32,
}

#[derive(Clone, Copy, Debug, PartialEq, Eq)]
pub struct CourseCreated {
    pub id: u32,
    pub instructor: Address,
    pub total_modules: u32,
}

#[derive(Clone, Copy, Debug, PartialEq, Eq)]
pub struct CourseStatusChanged {
    pub id: u32,
    pub active: bool,
}

#[derive(Clone, Copy, Debug, PartialEq, Eq)]
pub struct OwnershipTransferred {
    pub course_id: u32,
    pub previous_instructor: Address,
    pub new_instructor: Address,
}

#[derive(Clone, Copy, Debug, PartialEq, Eq)]
pub struct ModuleCompleted {
    pub learner: Address,
    pub course_id: u32,
    pub new_progress: u32,
}

#[derive(Clone, Copy, Debug, PartialEq, Eq)]
pub struct CourseCompleted {
    pub learner: Address,
    pub course_id: u32,
    pub reward_amount: i128,
}

#[derive(Clone, Copy, Debug, PartialEq, Eq)]
pub struct ContractUpgraded {
    pub admin: Address,
    pub new_wasm_hash: Hash32,
}

/// The events this contract publishes.
#[derive(Clone, Copy, Debug, PartialEq, Eq)]
pub enum Event {
    MetadataUpdated(MetadataUpdated),
    CourseCreated(CourseCreated),
    CourseStatusChanged(CourseStatusChanged),
    OwnershipTransferred(OwnershipTransferred),
    ModuleCompleted(ModuleCompleted),
    CourseCompleted(CourseCompleted),
    ContractUpgraded(ContractUpgraded),
}

/// Outside work that an accepted call asks of the host, in order.
#[derive(Clone, Copy, Debug, PartialEq, Eq)]
pub enum Effect {
    /// Call `mint_badge(this contract, learner, course_id)` on the badge
    /// contract; if that call fails, the whole call fails.
    MintBadge { badge_nft: Address, learner: Address, course_id: u32 },
    /// Try `distribute_reward(this contract, learner, amount)` on the reward
    /// pool; a failure is caught, and its outcome is handed to
    /// `settle_reward` together with `clear_pending`, which tells whether a
    /// pending reward record left by this call is to be cleared on success.
    TryDistributeReward { pool: Address, learner: Address, course_id: u32, amount: i128, clear_pending: bool },
    /// Replace this contract's code.
    UpdateWasm { new_wasm_hash: Hash32 },
    /// Publish an event.
    Emit(Event),
}

// ── Contract storage ────────────────────────────────────────────────────────

/// The course registry's storage: courses, learners' progress through them,
/// and completion rewards not yet paid.
pub struct CourseRegistry {
    pub admin: Option<Address>,
    pub reward_pool: Option<Address>,
    pub badge_nft: Option<Address>,
    pub course_count: u32,
    pub version: u32,
    pub courses: Table<u32, Course>,
    pub progress: Table<LearnerKey, u32>,
    pub pending_rewards: Table<LearnerKey, bool>,
}

/// The course registry's storage as mathematical values.
pub struct RegistryState {
    pub admin: Option<Address>,
    pub reward_pool: Option<Address>,
    pub badge_nft: Option<Address>,
    pub course_count: u32,
    pub version: u32,
    pub courses: Map<u32, Course>,
    pub progress: Map<LearnerKey, u32>,
    pub pending_rewards: Map<LearnerKey, bool>,
}

impl View for CourseRegistry {
    type V = RegistryState;

    open spec fn view(&self) -> RegistryState {
        RegistryState {
            admin: self.admin,
            reward_pool: self.reward_pool,
            badge_nft: self.badge_nft,
            course_count: self.course_count,
            version: self.version,
            courses: self.courses@,
            progress: self.progress@,
            pending_rewards: self.pending_rewards@,
        }
    }
}

impl RegistryState {
    /// A learner's progress through a course: 0 when nothing is recorded.
    pub open spec fn progress_of(self, learner: Address, id: u32) -> u32 {
        let key = LearnerKey { learner, id };
        if self.progress.contains_key(key) { self.progress[key] } else { 0 }
    }

    /// The storage after a new active course is registered under the next id.
    pub open spec fn after_create(self, instructor: Address, total_modules: u32, metadata_hash: Hash32) -> RegistryState {
        let id = (self.course_count + INITIAL_COURSE_ID) as u32;
        RegistryState {
            course_count: id,
            courses: self.courses.insert(id, Course { instructor, total_modules, metadata_hash, active: true }),
            ..self
        }
    }

    /// The storage after a learner enrolls in course `id`.
    pub open spec fn after_enroll(self, learner: Address, id: u32) -> RegistryState {
        RegistryState { progress: self.progress.insert(LearnerKey { learner, id }, 0), ..self }
    }

    /// Which check refuses `claim_completion_reward`, if any.
    pub open spec fn claim_error(self, inv: &Invocation, learner: Address, course_id: u32) -> Option<ContractError> {
        if !inv.authorizes(learner) {
            Some(ContractError::AuthorizationMissing)
        } else if !self.pending_rewards.contains_key(LearnerKey { learner, id: course_id }) {
            Some(ContractError::NoPendingReward)
        } else {
            None
        }
    }

    /// The storage after a learner's pending reward record is removed.
    pub open spec fn after_claim(self, learner: Address, course_id: u32) -> RegistryState {
        RegistryState { pending_rewards: self.pending_rewards.remove(LearnerKey { learner, id: course_id }), ..self }
    }

    /// Which check refuses a call that only the protocol admin may make.
    pub open spec fn admin_error(self, inv: &Invocation, admin: Address) -> Option<ContractError> {
        if !inv.authorizes(admin) {
            Some(ContractError::AuthorizationMissing)
        } else if self.admin is None {
            Some(ContractError::ContractNotInitialized)
        } else if self.admin != Some(admin) {
            Some(ContractError::NotProtocolAdmin)
        } else {
            None
        }
    }

    /// Which check refuses `upgrade_contract` or the first part of `migrate`.
    pub open spec fn upgrade_error(self, inv: &Invocation, admin: Address) -> Option<ContractError> {
        if !inv.authorizes(admin) {
            Some(ContractError::AuthorizationMissing)
        } else if self.admin is None {
            Some(ContractError::NotInitialized)
        } else if self.admin != Some(admin) {
            Some(ContractError::Unauthorized)
        } else {
            None
        }
    }

    /// Which check refuses `create_course`, if any.
    pub open spec fn create_course_error(self, inv: &Invocation, admin: Address, total_modules: u32) -> Option<ContractError> {
        if self.admin_error(inv, admin) is Some {
            self.admin_error(inv, admin)
        } else if total_modules == 0 {
            Some(ContractError::ZeroModules)
        } else if total_modules > DEFAULT_TOTAL_MODULES_BOUND {
            Some(ContractError::ModulesExceedBound)
        } else if self.course_count >= MAX_COURSE_ID {
            Some(ContractError::CourseIdLimitReached)
        } else {
            None
        }
    }

    /// Which check refuses `enroll`, if any.
    pub open spec fn enroll_error(self, inv: &Invocation, learner: Address, id: u32) -> Option<ContractError> {
        if !inv.authorizes(learner) {
            Some(ContractError::AuthorizationMissing)
        } else if !self.courses.contains_key(id) {
            Some(ContractError::CourseNotFound)
        } else if !self.courses[id].active {
            Some(ContractError::CourseNotActive)
        } else if self.progress.contains_key(LearnerKey { learner, id }) {
            Some(ContractError::AlreadyEnrolled)
        } else {
            None
        }
    }

    /// Which check refuses `complete_module`, if any.
    pub open spec fn complete_error(self, inv: &Invocation, verifier: Address, learner: Address, id: u32) -> Option<ContractError> {
        if !inv.authorizes(verifier) {
            Some(ContractError::AuthorizationMissing)
        } else if self.admin is None {
            Some(ContractError::NotInitialized)
        } else if self.admin != Some(verifier) {
            Some(ContractError::NotProtocolAdmin)
        } else if !self.courses.contains_key(id) {
            Some(ContractError::CourseNotFound)
        } else if self.progress_of(learner, id) >= self.courses[id].total_modules {
            Some(ContractError::CourseAlreadyCompleted)
        } else {
            None
        }
    }

    /// The storage after one more module of course `id` is recorded for
    /// `learner`; completing the last module records a pending reward when a
    /// reward pool is configured.
    pub open spec fn after_complete(self, learner: Address, id: u32) -> RegistryState {
        let key = LearnerKey { learner, id };
        let new_progress = (self.progress_of(learner, id) + 1) as u32;
        let completed = new_progress == self.courses[id].total_modules;
        RegistryState {
            progress: self.progress.insert(key, new_progress),
            pending_rewards: if completed && self.reward_pool is Some {
                self.pending_rewards.insert(key, true)
            } else {
                self.pending_rewards
            },
            ..self
        }
    }

    /// The outside work of `complete_module`: the event, then on the last
    /// module a badge mint and a reward attempt where those are configured.
    pub open spec fn complete_effects(self, learner: Address, id: u32) -> Seq<Effect> {
        let new_progress = (self.progress_of(learner, id) + 1) as u32;
        let completed = new_progress == self.courses[id].total_modules;
        seq![Effect::Emit(Event::ModuleCompleted(ModuleCompleted { learner, course_id: id, new_progress }))]
            + (if completed && self.badge_nft is Some {
                seq![Effect::MintBadge { badge_nft: self.badge_nft->Some_0, learner, course_id: id }]
            } else {
                Seq::<Effect>::empty()
            })
            + (if completed && self.reward_pool is Some {
                seq![Effect::TryDistributeReward {
                    pool: self.reward_pool->Some_0,
                    learner,
                    course_id: id,
                    amount: BASE_REWARD_AMOUNT,
                    clear_pending: true,
                }]
            } else {
                Seq::<Effect>::empty()
            })
    }
}

/// A call that can change the registry's storage, with its arguments. The
/// other entry points (`upgrade_contract` and the getters) leave its storage
/// as it is.
pub enum RegistryCall {
    Initialize { inv: Invocation, admin: Address },
    SetRewardPoolAddress { inv: Invocation, admin: Address, reward_pool_address: Address },
    SetBadgeNftAddress { inv: Invocation, admin: Address, badge_nft_address: Address },
    CreateCourse { inv: Invocation, admin: Address, instructor: Address, total_modules: u32, metadata_hash: Hash32 },
    UpdateMetadata { inv: Invocation, id: u32, new_hash: Hash32 },
    Enroll { inv: Invocation, learner: Address, id: u32 },
    SetCourseStatus { inv: Invocation, admin: Address, id: u32, active: bool },
    TransferOwnership { inv: Invocation, current_instructor: Address, new_instructor: Address, course_id: u32 },
    CompleteModule { inv: Invocation, verifier: Address, learner: Address, id: u32 },
    SettleReward { learner: Address, course_id: u32, distributed: bool, clear_pending: bool },
    ClaimCompletionReward { inv: Invocation, learner: Address, course_id: u32 },
    Migrate { inv: Invocation, admin: Address },
}

impl RegistryState {
    /// The storage after `call`: unchanged when the call is refused.
    pub open spec fn after_call(self, call: RegistryCall) -> RegistryState {
        match call {
            RegistryCall::Initialize { inv, admin } => {
                if self.admin is None && inv.authorizes(admin) { RegistryState { admin: Some(admin), ..self } } else { self }
            },
            RegistryCall::SetRewardPoolAddress { inv, admin, reward_pool_address } => {
                if self.admin_error(&inv, admin) is None {
                    RegistryState { reward_pool: Some(reward_pool_address), ..self }
                } else {
                    self
                }
            },
            RegistryCall::SetBadgeNftAddress { inv, admin, badge_nft_address } => {
                if self.admin_error(&inv, admin) is None {
                    RegistryState { badge_nft: Some(badge_nft_address), ..self }
                } else {
                    self
                }
            },
            RegistryCall::CreateCourse { inv, admin, instructor, total_modules, metadata_hash } => {
                if self.create_course_error(&inv, admin, total_modules) is None {
                    self.after_create(instructor, total_modules, metadata_hash)
                } else {
                    self
                }
            },
            RegistryCall::UpdateMetadata { inv, id, new_hash } => {
                if self.courses.contains_key(id) && inv.authorizes(self.courses[id].instructor) {
                    RegistryState {
                        courses: self.courses.insert(id, Course { metadata_hash: new_hash, ..self.courses[id] }),
                        ..self
                    }
                } else {
                    self
                }
            },
            RegistryCall::Enroll { inv, learner, id } => {
                if self.enroll_error(&inv, learner, id) is None { self.after_enroll(learner, id) } else { self }
            },
            RegistryCall::SetCourseStatus { inv, admin, id, active } => {
                if self.admin_error(&inv, admin) is None && self.courses.contains_key(id) {
                    RegistryState { courses: self.courses.insert(id, Course { active, ..self.courses[id] }), ..self }
                } else {
                    self
                }
            },
            RegistryCall::TransferOwnership { inv, current_instructor, new_instructor, course_id } => {
                if self.courses.contains_key(course_id) && self.courses[course_id].instructor == current_instructor
                    && inv.authorizes(current_instructor) {
                    RegistryState {
                        courses: self.courses.insert(course_id, Course { instructor: new_instructor, ..self.courses[course_id] }),
                        ..self
                    }
                } else {
                    self
                }
            },
            RegistryCall::CompleteModule { inv, verifier, learner, id } => {
                if self.complete_error(&inv, verifier, learner, id) is None { self.after_complete(learner, id) } else { self }
            },
            RegistryCall::SettleReward { learner, course_id, distributed, clear_pending } => {
                if distributed && clear_pending { self.after_claim(learner, course_id) } else { self }
            },
            RegistryCall::ClaimCompletionReward { inv, learner, course_id } => {
                if self.claim_error(&inv, learner, course_id) is None { self.after_claim(learner, course_id) } else { self }
            },
            RegistryCall::Migrate { inv, admin } => {
                if self.upgrade_error(&inv, admin) is None && self.version < VERSION {
                    RegistryState { version: VERSION, ..self }
                } else {
                    self
                }
            },
        }
    }

    /// The storage after `calls`, made in order.
    pub open spec fn after_calls(self, calls: Seq<RegistryCall>) -> RegistryState
        decreases calls.len(),
    {
        if calls.len() == 0 {
            self
        } else {
            self.after_calls(calls.drop_last()).after_call(calls.last())
        }
    }
}

impl CourseRegistry {
    /// A contract with empty storage, as deployed.
    pub fn new() -> (c: CourseRegistry)
        ensures
            c@.admin is None && c@.reward_pool is None && c@.badge_nft is None,
            c@.course_count == 0 && c@.version == 0,
            c@.courses == Map::<u32, Course>::empty(),
            c@.progress == Map::<LearnerKey, u32>::empty(),
            c@.pending_rewards == Map::<LearnerKey, bool>::empty(),
    {
        CourseRegistry {
            admin: None,
            reward_pool: None,
            badge_nft: None,
            course_count: 0,
            version: 0,
            courses: Table::new(),
            progress: Table::new(),
            pending_rewards: Table::new(),
        }
    }

    fn check_admin(&self, inv: &Invocation, admin: &Address) -> (r: Result<(), ContractError>)
        ensures
            match self@.admin_error(inv, *admin) {
                Some(e) => r == Err::<(), ContractError>(e),
                None => r is Ok,
            },
    {
        if !inv.require_auth(admin) {
            return Err(ContractError::AuthorizationMissing);
        }
        match self.admin {
            None => Err(ContractError::ContractNotInitialized),
            Some(stored) => if same_address(admin, &stored) { Ok(()) } else { Err(ContractError::NotProtocolAdmin) },
        }
    }

    fn check_upgrade(&self, inv: &Invocation, admin: &Address) -> (r: Result<(), ContractError>)
        ensures
            match self@.upgrade_error(inv, *admin) {
                Some(e) => r == Err::<(), ContractError>(e),
                None => r is Ok,
            },
    {
        if !inv.require_auth(admin) {
            return Err(ContractError::AuthorizationMissing);
        }
        match self.admin {
            None => Err(ContractError::NotInitialized),
            Some(stored) => if same_address(admin, &stored) { Ok(()) } else { Err(ContractError::Unauthorized) },
        }
    }

    /// Records the protocol admin. Refused when an admin is already set.
    pub fn initialize(&mut self, inv: &Invocation, admin: Address) -> (r: Result<(), ContractError>)
        ensures
            final(self)@ == old(self)@.after_call(RegistryCall::Initialize { inv: *inv, admin }),
            old(self)@.admin is Some ==> r == Err::<(), ContractError>(ContractError::AlreadyInitialized) && final(self)@ == old(self)@,
            old(self)@.admin is None && !inv.authorizes(admin)
                ==> r == Err::<(), ContractError>(ContractError::AuthorizationMissing) && final(self)@ == old(self)@,
            old(self)@.admin is None && inv.authorizes(admin)
                ==> r is Ok && final(self)@ == (RegistryState { admin: Some(admin), ..old(self)@ }),
    {
        if self.admin.is_some() {
            return Err(ContractError::AlreadyInitialized);
        }
        if !inv.require_auth(&admin) {
            return Err(ContractError::AuthorizationMissing);
        }
        self.admin = Some(admin);
        Ok(())
    }

    /// Records the reward pool that pays completion rewards. Admin only.
    pub fn set_reward_pool_address(&mut self, inv: &Invocation, admin: Address, reward_pool_address: Address) -> (r: Result<(), ContractError>)
        ensures
            final(self)@ == old(self)@.after_call(RegistryCall::SetRewardPoolAddress { inv: *inv, admin, reward_pool_address }),
            match old(self)@.admin_error(inv, admin) {
                Some(e) => r == Err::<(), ContractError>(e) && final(self)@ == old(self)@,
                None => r is Ok && final(self)@ == (RegistryState { reward_pool: Some(reward_pool_address), ..old(self)@ }),
            },
    {
        self.check_admin(inv, &admin)?;
        self.reward_pool = Some(reward_pool_address);
        Ok(())
    }

    /// Records the badge contract that mints completion badges. Admin only.
    pub fn set_badge_nft_address(&mut self, inv: &Invocation, admin: Address, badge_nft_address: Address) -> (r: Result<(), ContractError>)
        ensures
            final(self)@ == old(self)@.after_call(RegistryCall::SetBadgeNftAddress { inv: *inv, admin, badge_nft_address }),
            match old(self)@.admin_error(inv, admin) {
                Some(e) => r == Err::<(), ContractError>(e) && final(self)@ == old(self)@,
                None => r is Ok && final(self)@ == (RegistryState { badge_nft: Some(badge_nft_address), ..old(self)@ }),
            },
    {
        self.check_admin(inv, &admin)?;
        self.badge_nft = Some(badge_nft_address);
        Ok(())
    }

    /// Registers a new active course under the next course id, which is
    /// returned. Admin only; `total_modules` must lie in `1..=1000`.
    pub fn create_course(
        &mut self,
        inv: &Invocation,
        admin: Address,
        instructor: Address,
        total_modules: u32,
        metadata_hash: Hash32,
    ) -> (r: Result<(u32, Vec<Effect>), ContractError>)
        ensures
            final(self)@ == old(self)@.after_call(RegistryCall::CreateCourse { inv: *inv, admin, instructor, total_modules, metadata_hash }),
            match old(self)@.create_course_error(inv, admin, total_modules) {
                Some(e) => r == Err::<(u32, Vec<Effect>), ContractError>(e) && final(self)@ == old(self)@,
                None => {
                    let id = (old(self)@.course_count + INITIAL_COURSE_ID) as u32;
                    &&& r is Ok
                    &&& r->Ok_0.0 == id
                    &&& final(self)@ == old(self)@.after_create(instructor, total_modules, metadata_hash)
                    &&& r->Ok_0.1@ == seq![Effect::Emit(Event::CourseCreated(CourseCreated { id, instructor, total_modules }))]
                },
            },
    {
        self.check_admin(inv, &admin)?;
        if total_modules == 0 {
            return Err(ContractError::ZeroModules);
        }
        if total_modules > DEFAULT_TOTAL_MODULES_BOUND {
            return Err(ContractError::ModulesExceedBound);
        }
        if self.course_count >= MAX_COURSE_ID {
            return Err(ContractError::CourseIdLimitReached);
        }
        let new_id = self.course_count + INITIAL_COURSE_ID;
        self.course_count = new_id;
        self.courses.insert(new_id, Course { instructor, total_modules, metadata_hash, active: true });
        Ok((new_id, vec![Effect::Emit(Event::CourseCreated(CourseCreated { id: new_id, instructor, total_modules }))]))
    }

    /// Replaces a course's metadata hash. Needs the course instructor's
    /// authorization.
    pub fn update_metadata(&mut self, inv: &Invocation, id: u32, new_hash: Hash32) -> (r: Result<Vec<Effect>, ContractError>)
        ensures
            final(self)@ == old(self)@.after_call(RegistryCall::UpdateMetadata { inv: *inv, id, new_hash }),
            !old(self)@.courses.contains_key(id)
                ==> r == Err::<Vec<Effect>, ContractError>(ContractError::CourseNotFound) && final(self)@ == old(self)@,
            old(self)@.courses.contains_key(id) && !inv.authorizes(old(self)@.courses[id].instructor)
                ==> r == Err::<Vec<Effect>, ContractError>(ContractError::AuthorizationMissing) && final(self)@ == old(self)@,
            old(self)@.courses.contains_key(id) && inv.authorizes(old(self)@.courses[id].instructor) ==> {
                let c = old(self)@.courses[id];
                &&& r is Ok
                &&& final(self)@ == (RegistryState {
                    courses: old(self)@.courses.insert(id, Course { metadata_hash: new_hash, ..c }),
                    ..old(self)@
                })
                &&& r->Ok_0@ == seq![Effect::Emit(Event::MetadataUpdated(MetadataUpdated { id, instructor: c.instructor, new_hash }))]
            },
    {
        let mut course = match self.courses.get(&id) {
            Some(c) => *c,
            None => return Err(ContractError::CourseNotFound),
        };
        if !inv.require_auth(&course.instructor) {
            return Err(ContractError::AuthorizationMissing);
        }
        let instructor = course.instructor;
        course.metadata_hash = new_hash;
        self.courses.insert(id, course);
        Ok(vec![Effect::Emit(Event::MetadataUpdated(MetadataUpdated { id, instructor, new_hash }))])
    }

    /// Enrolls a learner in an active course with progress 0.
    pub fn enroll(&mut self, inv: &Invocation, learner: Address, id: u32) -> (r: Result<(), ContractError>)
        ensures
            final(self)@ == old(self)@.after_call(RegistryCall::Enroll { inv: *inv, learner, id }),
            match old(self)@.enroll_error(inv, learner, id) {
                Some(e) => r == Err::<(), ContractError>(e) && final(self)@ == old(self)@,
                None => r is Ok && final(self)@ == old(self)@.after_enroll(learner, id),
            },
    {
        if !inv.require_auth(&learner) {
            return Err(ContractError::AuthorizationMissing);
        }
        let course = match self.courses.get(&id) {
            Some(c) => *c,
            None => return Err(ContractError::CourseNotFound),
        };
        if !course.active {
            return Err(ContractError::CourseNotActive);
        }
        let key = LearnerKey { learner, id };
        if self.progress.contains(&key) {
            return Err(ContractError::AlreadyEnrolled);
        }
        self.progress.insert(key, 0);
        Ok(())
    }

    /// The number of courses registered so far.
    pub fn course_count(&self) -> (n: u32)
        ensures
            n == self@.course_count,
    {
        self.course_count
    }

    /// Activates or deactivates a course; its learners' progress is kept.
    /// Admin only.
    pub fn set_course_status(&mut self, inv: &Invocation, admin: Address, id: u32, active: bool) -> (r: Result<Vec<Effect>, ContractError>)
        ensures
            final(self)@ == old(self)@.after_call(RegistryCall::SetCourseStatus { inv: *inv, admin, id, active }),
            old(self)@.admin_error(inv, admin) is Some
                ==> r == Err::<Vec<Effect>, ContractError>(old(self)@.admin_error(inv, admin)->Some_0) && final(self)@ == old(self)@,
            old(self)@.admin_error(inv, admin) is None && !old(self)@.courses.contains_key(id)
                ==> r == Err::<Vec<Effect>, ContractError>(ContractError::CourseNotFound) && final(self)@ == old(self)@,
            old(self)@.admin_error(inv, admin) is None && old(self)@.courses.contains_key(id) ==> {
                &&& r is Ok
                &&& final(self)@ == (RegistryState {
                    courses: old(self)@.courses.insert(id, Course { active, ..old(self)@.courses[id] }),
                    ..old(self)@
                })
                &&& r->Ok_0@ == seq![Effect::Emit(Event::CourseStatusChanged(CourseStatusChanged { id, active }))]
            },
    {
        self.check_admin(inv, &admin)?;
        let mut course = match self.courses.get(&id) {
            Some(c) => *c,
            None => return Err(ContractError::CourseNotFound),
        };
        course.active = active;
        self.courses.insert(id, course);
        Ok(vec![Effect::Emit(Event::CourseStatusChanged(CourseStatusChanged { id, active }))])
    }

    /// Whether the learner's progress has reached the course's module count
    /// (progress beyond it counts as finished too).
    pub fn is_course_finished(&self, learner: Address, id: u32) -> (r: Result<bool, ContractError>)
        ensures
            !self@.courses.contains_key(id) ==> r == Err::<bool, ContractError>(ContractError::CourseNotFound),
            self@.courses.contains_key(id)
                ==> r == Ok::<bool, ContractError>(self@.progress_of(learner, id) >= self@.courses[id].total_modules),
    {
        let course = match self.courses.get(&id) {
            Some(c) => *c,
            None => return Err(ContractError::CourseNotFound),
        };
        let progress = self.get_progress(learner, id);
        Ok(progress >= course.total_modules)
    }

    /// The course stored under `id`.
    pub fn get_course(&self, id: u32) -> (r: Result<Course, ContractError>)
        ensures
            !self@.courses.contains_key(id) ==> r == Err::<Course, ContractError>(ContractError::CourseNotFound),
            self@.courses.contains_key(id) ==> r == Ok::<Course, ContractError>(self@.courses[id]),
    {
        match self.courses.get(&id) {
            Some(c) => Ok(*c),
            None => Err(ContractError::CourseNotFound),
        }
    }

    /// The number of modules the learner has completed in a course; 0 when
    /// the learner never enrolled.
    pub fn get_progress(&self, learner: Address, id: u32) -> (p: u32)
        ensures
            p == self@.progress_of(learner, id),
    {
        match self.progress.get(&LearnerKey { learner, id }) {
            Some(p) => *p,
            None => 0,
        }
    }

    /// Hands a course over to a new instructor. Only the current instructor
    /// may do so, with its authorization.
    pub fn transfer_ownership(
        &mut self,
        inv: &Invocation,
        current_instructor: Address,
        new_instructor: Address,
        course_id: u32,
    ) -> (r: Result<Vec<Effect>, ContractError>)
        ensures
            final(self)@ == old(self)@.after_call(RegistryCall::TransferOwnership { inv: *inv, current_instructor, new_instructor, course_id }),
            ({
                let s = old(self)@;
                let err = if !s.courses.contains_key(course_id) {
                    Some(ContractError::CourseNotFound)
                } else if s.courses[course_id].instructor != current_instructor {
                    Some(ContractError::NotCourseInstructor)
                } else if !inv.authorizes(current_instructor) {
                    Some(ContractError::AuthorizationMissing)
                } else {
                    None::<ContractError>
                };
                match err {
                    Some(e) => r == Err::<Vec<Effect>, ContractError>(e) && final(self)@ == s,
                    None => {
                        &&& r is Ok
                        &&& final(self)@ == (RegistryState {
                            courses: s.courses.insert(course_id, Course { instructor: new_instructor, ..s.courses[course_id] }),
                            ..s
                        })
                        &&& r->Ok_0@ == seq![Effect::Emit(Event::OwnershipTransferred(OwnershipTransferred {
                            course_id,
                            previous_instructor: current_instructor,
                            new_instructor,
                        }))]
                    },
                }
            }),
    {
        let mut course = match self.courses.get(&course_id) {
            Some(c) => *c,
            None => return Err(ContractError::CourseNotFound),
        };
        if !same_address(&course.instructor, &current_instructor) {
            return Err(ContractError::NotCourseInstructor);
        }
        if !inv.require_auth(&current_instructor) {
            return Err(ContractError::AuthorizationMissing);
        }
        course.instructor = new_instructor;
        self.courses.insert(course_id, course);
        Ok(vec![Effect::Emit(Event::OwnershipTransferred(OwnershipTransferred {
            course_id,
            previous_instructor: current_instructor,
            new_instructor,
        }))])
    }

    /// Records a verifier-confirmed module completion. On the last module it
    /// records a pending reward (when a reward pool is configured), asks for
    /// the learner's badge to be minted (when a badge contract is configured)
    /// and for the reward to be tried; `settle_reward` takes the outcome of
    /// that attempt. Only the protocol admin may verify.
    pub fn complete_module(&mut self, inv: &Invocation, verifier: Address, learner: Address, id: u32) -> (r: Result<Vec<Effect>, ContractError>)
        ensures
            final(self)@ == old(self)@.after_call(RegistryCall::CompleteModule { inv: *inv, verifier, learner, id }),
            match old(self)@.complete_error(inv, verifier, learner, id) {
                Some(e) => r == Err::<Vec<Effect>, ContractError>(e) && final(self)@ == old(self)@,
                None => {
                    &&& r is Ok
                    &&& final(self)@ == old(self)@.after_complete(learner, id)
                    &&& r->Ok_0@ == old(self)@.complete_effects(learner, id)
                },
            },
    {
        if !inv.require_auth(&verifier) {
            return Err(ContractError::AuthorizationMissing);
        }
        match self.admin {
            None => return Err(ContractError::NotInitialized),
            Some(stored) => {
                if !same_address(&verifier, &stored) {
                    return Err(ContractError::NotProtocolAdmin);
                }
            },
        }
        let course = match self.courses.get(&id) {
            Some(c) => *c,
            None => return Err(ContractError::CourseNotFound),
        };
        let current_progress = self.get_progress(learner, id);
        if current_progress >= course.total_modules {
            return Err(ContractError::CourseAlreadyCompleted);
        }
        let new_progress = current_progress + 1;
        let key = LearnerKey { learner, id };
        self.progress.insert(key, new_progress);
        let course_completed = new_progress == course.total_modules;
        if course_completed && self.reward_pool.is_some() {
            self.pending_rewards.insert(key, true);
        }
        let mut effects: Vec<Effect> = vec![Effect::Emit(Event::ModuleCompleted(ModuleCompleted {
            learner,
            course_id: id,
            new_progress,
        }))];
        if course_completed {
            match self.badge_nft {
                Some(badge_nft) => effects.push(Effect::MintBadge { badge_nft, learner, course_id: id }),
                None => {},
            }
            match self.reward_pool {
                Some(pool) => effects.push(Effect::TryDistributeReward {
                    pool,
                    learner,
                    course_id: id,
                    amount: BASE_REWARD_AMOUNT,
                    clear_pending: true,
                }),
                None => {},
            }
        }
        proof {
            assert(self@ =~= old(self)@.after_complete(learner, id));
            assert(effects@ =~= old(self)@.complete_effects(learner, id));
        }
        Ok(effects)
    }

    /// Settles a reward attempt: `distributed` tells whether the reward
    /// pool's `distribute_reward` succeeded. On success a `CourseCompleted`
    /// event is published and, when `clear_pending` is set (an attempt made
    /// by `complete_module`), the pending reward record is removed; a failed
    /// attempt leaves the record for `claim_completion_reward`.
    pub fn settle_reward(&mut self, learner: Address, course_id: u32, distributed: bool, clear_pending: bool) -> (effects: Vec<Effect>)
        ensures
            final(self)@ == old(self)@.after_call(RegistryCall::SettleReward { learner, course_id, distributed, clear_pending }),
            distributed && clear_pending ==> final(self)@ == old(self)@.after_claim(learner, course_id),
            !(distributed && clear_pending) ==> final(self)@ == old(self)@,
            distributed ==> effects@ == seq![Effect::Emit(Event::CourseCompleted(CourseCompleted {
                learner,
                course_id,
                reward_amount: BASE_REWARD_AMOUNT,
            }))],
            !distributed ==> effects@ == Seq::<Effect>::empty(),
    {
        if distributed {
            if clear_pending {
                self.pending_rewards.remove(&LearnerKey { learner, id: course_id });
            }
            vec![Effect::Emit(Event::CourseCompleted(CourseCompleted {
                learner,
                course_id,
                reward_amount: BASE_REWARD_AMOUNT,
            }))]
        } else {
            Vec::new()
        }
    }

    /// Claims a pending completion reward: the record is removed (so it
    /// cannot be claimed twice) and the reward is tried again when a reward
    /// pool is configured.
    pub fn claim_completion_reward(&mut self, inv: &Invocation, learner: Address, course_id: u32) -> (r: Result<Vec<Effect>, ContractError>)
        ensures
            final(self)@ == old(self)@.after_call(RegistryCall::ClaimCompletionReward { inv: *inv, learner, course_id }),
            match old(self)@.claim_error(inv, learner, course_id) {
                Some(e) => r == Err::<Vec<Effect>, ContractError>(e) && final(self)@ == old(self)@,
                None => {
                    &&& r is Ok
                    &&& final(self)@ == old(self)@.after_claim(learner, course_id)
                    &&& r->Ok_0@ == if old(self)@.reward_pool is Some {
                        seq![Effect::TryDistributeReward {
                            pool: old(self)@.reward_pool->Some_0,
                            learner,
                            course_id,
                            amount: BASE_REWARD_AMOUNT,
                            clear_pending: false,
                        }]
                    } else {
                        Seq::<Effect>::empty()
                    }
                },
            },
    {
        if !inv.require_auth(&learner) {
            return Err(ContractError::AuthorizationMissing);
        }
        let key = LearnerKey { learner, id: course_id };
        if !self.pending_rewards.contains(&key) {
            return Err(ContractError::NoPendingReward);
        }
        self.pending_rewards.remove(&key);
        match self.reward_pool {
            Some(pool) => Ok(vec![Effect::TryDistributeReward {
                pool,
                learner,
                course_id,
                amount: BASE_REWARD_AMOUNT,
                clear_pending: false,
            }]),
            None => Ok(Vec::new()),
        }
    }

    /// Replaces this contract's code. Admin only; `migrate` must follow.
    pub fn upgrade_contract(&mut self, inv: &Invocation, admin: Address, new_wasm_hash: Hash32) -> (r: Result<Vec<Effect>, ContractError>)
        ensures
            final(self)@ == old(self)@,
            match old(self)@.upgrade_error(inv, admin) {
                Some(e) => r == Err::<Vec<Effect>, ContractError>(e),
                None => r is Ok && r->Ok_0@ == seq![
                    Effect::UpdateWasm { new_wasm_hash },
                    Effect::Emit(Event::ContractUpgraded(ContractUpgraded { admin, new_wasm_hash })),
                ],
            },
    {
        self.check_upgrade(inv, &admin)?;
        Ok(vec![
            Effect::UpdateWasm { new_wasm_hash },
            Effect::Emit(Event::ContractUpgraded(ContractUpgraded { admin, new_wasm_hash })),
        ])
    }

    /// Applies pending storage migrations and records the current schema
    /// version. Admin only; refused when already at `VERSION`. Courses and
    /// progress are left as they are.
    pub fn migrate(&mut self, inv: &Invocation, admin: Address) -> (r: Result<(), ContractError>)
        ensures
            final(self)@ == old(self)@.after_call(RegistryCall::Migrate { inv: *inv, admin }),
            old(self)@.upgrade_error(inv, admin) is Some
                ==> r == Err::<(), ContractError>(old(self)@.upgrade_error(inv, admin)->Some_0) && final(self)@ == old(self)@,
            old(self)@.upgrade_error(inv, admin) is None && old(self)@.version >= VERSION
                ==> r == Err::<(), ContractError>(ContractError::AlreadyAtCurrentVersion) && final(self)@ == old(self)@,
            old(self)@.upgrade_error(inv, admin) is None && old(self)@.version < VERSION
                ==> r is Ok && final(self)@ == (RegistryState { version: VERSION, ..old(self)@ }),
    {
        self.check_upgrade(inv, &admin)?;
        if self.version >= VERSION {
            return Err(ContractError::AlreadyAtCurrentVersion);
        }
        self.version = VERSION;
        Ok(())
    }

    /// The stored schema version; 0 before any migration.
    pub fn contract_version(&self) -> (v: u32)
        ensures
            v == self@.version,
    {
        self.version
    }
}


// ── Laws ────────────────────────────────────────────────────────────────────

/// The registry's standing rules: course ids lie in `1..=course_count`,
/// every course has between 1 and `DEFAULT_TOTAL_MODULES_BOUND` modules,
/// progress is recorded only for existing courses and never exceeds their
/// module count, and a pending reward exists only for a finished course.
pub open spec fn registry_wf(s: RegistryState) -> bool {
    &&& forall|id: u32| #[trigger] s.courses.contains_key(id)
        ==> 1 <= id <= s.course_count && 1 <= s.courses[id].total_modules <= DEFAULT_TOTAL_MODULES_BOUND
    &&& forall|k: LearnerKey| #[trigger] s.progress.contains_key(k)
        ==> s.courses.contains_key(k.id) && s.progress[k] <= s.courses[k.id].total_modules
    &&& forall|k: LearnerKey| #[trigger] s.pending_rewards.contains_key(k)
        ==> s.courses.contains_key(k.id) && s.progress_of(k.learner, k.id) == s.courses[k.id].total_modules
}

/// A freshly deployed registry satisfies the standing rules.
pub proof fn law_wf_new(s: RegistryState)
    requires
        s.course_count == 0,
        s.courses == Map::<u32, Course>::empty(),
        s.progress == Map::<LearnerKey, u32>::empty(),
        s.pending_rewards == Map::<LearnerKey, bool>::empty(),
    ensures
        registry_wf(s),
{
}

/// Registering a course keeps the standing rules and never overwrites an
/// existing course: the new id is fresh.
pub proof fn law_wf_create(s: RegistryState, inv: &Invocation, admin: Address, instructor: Address, total_modules: u32, metadata_hash: Hash32)
    requires
        registry_wf(s),
        s.create_course_error(inv, admin, total_modules) is None,
    ensures
        !s.courses.contains_key((s.course_count + 1) as u32),
        registry_wf(s.after_create(instructor, total_modules, metadata_hash)),
{
    let s2 = s.after_create(instructor, total_modules, metadata_hash);
    let id = (s.course_count + 1) as u32;
    assert forall|k: LearnerKey| #[trigger] s2.pending_rewards.contains_key(k)
        implies s2.courses.contains_key(k.id) && s2.progress_of(k.learner, k.id) == s2.courses[k.id].total_modules by {
        assert(k.id != id);
    }
    assert forall|k: LearnerKey| #[trigger] s2.progress.contains_key(k)
        implies s2.courses.contains_key(k.id) && s2.progress[k] <= s2.courses[k.id].total_modules by {
        assert(k.id != id);
    }
}

/// Enrolling keeps the standing rules and starts the learner at progress 0.
pub proof fn law_wf_enroll(s: RegistryState, inv: &Invocation, learner: Address, id: u32)
    requires
        registry_wf(s),
        s.enroll_error(inv, learner, id) is None,
    ensures
        registry_wf(s.after_enroll(learner, id)),
        s.after_enroll(learner, id).progress_of(learner, id) == 0,
{
    let s2 = s.after_enroll(learner, id);
    assert forall|k: LearnerKey| #[trigger] s2.pending_rewards.contains_key(k)
        implies s2.courses.contains_key(k.id) && s2.progress_of(k.learner, k.id) == s2.courses[k.id].total_modules by {
        assert(k != LearnerKey { learner, id });
    }
}

/// Completing a module keeps the standing rules and advances the learner by
/// exactly one module. The badge mint and the reward attempt are asked for
/// exactly when that module is the course's last; after it, the course is
/// finished and further completions are refused.
pub proof fn law_complete_module(s: RegistryState, inv: &Invocation, verifier: Address, learner: Address, id: u32)
    requires
        registry_wf(s),
        s.complete_error(inv, verifier, learner, id) is None,
    ensures
        ({
            let s2 = s.after_complete(learner, id);
            let last = s2.progress_of(learner, id) == s.courses[id].total_modules;
            &&& registry_wf(s2)
            &&& s2.progress_of(learner, id) == s.progress_of(learner, id) + 1
            &&& s2.courses == s.courses
            &&& (exists|i: int| 0 <= i < s.complete_effects(learner, id).len()
                && s.complete_effects(learner, id)[i] is TryDistributeReward) <==> (last && s.reward_pool is Some)
            &&& (exists|i: int| 0 <= i < s.complete_effects(learner, id).len()
                && s.complete_effects(learner, id)[i] is MintBadge) <==> (last && s.badge_nft is Some)
            &&& last ==> s2.complete_error(inv, verifier, learner, id) == Some(ContractError::CourseAlreadyCompleted)
        }),
{
    let s2 = s.after_complete(learner, id);
    let key = LearnerKey { learner, id };
    let effs = s.complete_effects(learner, id);
    let last = s2.progress_of(learner, id) == s.courses[id].total_modules;
    assert forall|k: LearnerKey| #[trigger] s2.pending_rewards.contains_key(k)
        implies s2.courses.contains_key(k.id) && s2.progress_of(k.learner, k.id) == s2.courses[k.id].total_modules by {
        if k == key {
        } else {
            assert(s.pending_rewards.contains_key(k));
        }
    }
    assert forall|k: LearnerKey| #[trigger] s2.progress.contains_key(k)
        implies s2.courses.contains_key(k.id) && s2.progress[k] <= s2.courses[k.id].total_modules by {
        if k != key {
            assert(s.progress.contains_key(k));
        }
    }
    if last && s.reward_pool is Some {
        if s.badge_nft is Some {
            assert(effs[2] is TryDistributeReward);
            assert(effs[1] is MintBadge);
        } else {
            assert(effs[1] is TryDistributeReward);
        }
    }
    if last && s.badge_nft is Some {
        assert(effs[1] is MintBadge);
    }
}

/// Changing a course's status, metadata or instructor keeps the standing
/// rules, since its module count stays as it was.
pub proof fn law_wf_course_update(s: RegistryState, id: u32, course: Course)
    requires
        registry_wf(s),
        s.courses.contains_key(id),
        course.total_modules == s.courses[id].total_modules,
    ensures
        registry_wf(RegistryState { courses: s.courses.insert(id, course), ..s }),
{
}

/// Removing a pending reward, as `claim_completion_reward` and a settled
/// attempt do, keeps the standing rules.
pub proof fn law_wf_pending_removed(s: RegistryState, key: LearnerKey)
    requires
        registry_wf(s),
    ensures
        registry_wf(RegistryState { pending_rewards: s.pending_rewards.remove(key), ..s }),
{
}

/// A pending reward is claimed at most once: after a claim, a second claim
/// by the same learner is refused.
pub proof fn law_claim_once(s: RegistryState, inv: &Invocation, learner: Address, course_id: u32)
    requires
        s.claim_error(inv, learner, course_id) is None,
    ensures
        s.after_claim(learner, course_id).claim_error(inv, learner, course_id) == Some(ContractError::NoPendingReward),
{
}

/// A completion reward is paid at most once and is never lost: when the last
/// module is recorded with a reward pool configured, a failed attempt (which
/// `settle_reward` leaves without a change) lets the learner claim the reward
/// later, while a paid attempt (which clears the pending record) leaves
/// nothing to claim.
pub proof fn law_completion_reward_settled(
    s: RegistryState,
    inv: &Invocation,
    verifier: Address,
    learner: Address,
    id: u32,
    inv2: &Invocation,
)
    requires
        s.complete_error(inv, verifier, learner, id) is None,
        s.reward_pool is Some,
        s.progress_of(learner, id) + 1 == s.courses[id].total_modules,
        inv2.authorizes(learner),
    ensures
        s.after_complete(learner, id).claim_error(inv2, learner, id) is None,
        s.after_complete(learner, id).after_claim(learner, id).claim_error(inv2, learner, id)
            == Some(ContractError::NoPendingReward),
{
}

/// A learner is finished with a course exactly when its progress has reached
/// the course's module count; under the standing rules progress never goes
/// beyond it.
pub proof fn law_finished_means_all_modules(s: RegistryState, learner: Address, id: u32)
    requires
        registry_wf(s),
        s.courses.contains_key(id),
    ensures
        s.progress_of(learner, id) <= s.courses[id].total_modules,
        s.progress_of(learner, id) >= s.courses[id].total_modules ==> s.progress_of(learner, id) == s.courses[id].total_modules,
{
    let key = LearnerKey { learner, id };
    if s.progress.contains_key(key) {
        assert(s.progress[key] <= s.courses[id].total_modules);
    }
}

/// Over any sequence of calls from a state that keeps the registry's
/// standing rules (a deployed registry does), the rules keep holding: in
/// particular no learner's progress ever exceeds the module count of an
/// existing course.
pub proof fn law_registry_over_calls(s: RegistryState, calls: Seq<RegistryCall>, learner: Address, id: u32)
    requires
        registry_wf(s),
    ensures
        registry_wf(s.after_calls(calls)),
        s.after_calls(calls).courses.contains_key(id)
            ==> s.after_calls(calls).progress_of(learner, id) <= s.after_calls(calls).courses[id].total_modules,
    decreases calls.len(),
{
    if calls.len() > 0 {
        let mid = s.after_calls(calls.drop_last());
        law_registry_over_calls(s, calls.drop_last(), learner, id);
        match calls.last() {
            RegistryCall::CreateCourse { inv, admin, instructor, total_modules, metadata_hash } => {
                if mid.create_course_error(&inv, admin, total_modules) is None {
                    law_wf_create(mid, &inv, admin, instructor, total_modules, metadata_hash);
                }
            },
            RegistryCall::UpdateMetadata { inv, id: c, new_hash } => {
                if mid.courses.contains_key(c) && inv.authorizes(mid.courses[c].instructor) {
                    law_wf_course_update(mid, c, Course { metadata_hash: new_hash, ..mid.courses[c] });
                }
            },
            RegistryCall::Enroll { inv, learner: l, id: c } => {
                if mid.enroll_error(&inv, l, c) is None {
                    law_wf_enroll(mid, &inv, l, c);
                }
            },
            RegistryCall::SetCourseStatus { inv, admin, id: c, active } => {
                if mid.admin_error(&inv, admin) is None && mid.courses.contains_key(c) {
                    law_wf_course_update(mid, c, Course { active, ..mid.courses[c] });
                }
            },
            RegistryCall::TransferOwnership { inv, current_instructor, new_instructor, course_id } => {
                if mid.courses.contains_key(course_id) && mid.courses[course_id].instructor == current_instructor
                    && inv.authorizes(current_instructor) {
                    law_wf_course_update(mid, course_id, Course { instructor: new_instructor, ..mid.courses[course_id] });
                }
            },
            RegistryCall::CompleteModule { inv, verifier, learner: l, id: c } => {
                if mid.complete_error(&inv, verifier, l, c) is None {
                    law_complete_module(mid, &inv, verifier, l, c);
                }
            },
            RegistryCall::SettleReward { learner: l, course_id, distributed, clear_pending } => {
                law_wf_pending_removed(mid, LearnerKey { learner: l, id: course_id });
            },
            RegistryCall::ClaimCompletionReward { inv, learner: l, course_id } => {
                law_wf_pending_removed(mid, LearnerKey { learner: l, id: course_id });
            },
            _ => {},
        }
    }
    let fin = s.after_calls(calls);
    if fin.courses.contains_key(id) {
        law_finished_means_all_modules(fin, learner, id);
    }
}

/// Completing a module is refused only for a missing authorization, a
/// verifier that is not the admin, a missing course or a learner who has
/// finished it: the course's active flag plays no part, so a module of a
/// deactivated course is still recorded.
pub proof fn law_complete_ignores_active(s: RegistryState, inv: &Invocation, verifier: Address, learner: Address, id: u32)
    requires
        inv.authorizes(verifier),
        s.admin == Some(verifier),
        s.courses.contains_key(id),
        s.progress_of(learner, id) < s.courses[id].total_modules,
    ensures
        s.complete_error(inv, verifier, learner, id) is None,
        s.after_complete(learner, id).progress_of(learner, id) == s.progress_of(learner, id) + 1,
{
}

/// Migration runs once per version: after it, the stored version is
/// `VERSION` and a second migration is refused; courses and progress are
/// kept.
pub proof fn law_migrate_once(s: RegistryState, inv: &Invocation, admin: Address)
    requires
        s.upgrade_error(inv, admin) is None,
        s.version < VERSION,
    ensures
        ({
            let s2 = RegistryState { version: VERSION, ..s };
            &&& s2.upgrade_error(inv, admin) is None
            &&& s2.version >= VERSION
            &&& s2.courses == s.courses && s2.progress == s.progress
        }),
{
}

} // verus!
