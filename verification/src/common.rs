use vstd::prelude::*;
use crate::table::TableKey;

verus! {

/// Length in bytes of a hash or of an address key.
pub const HASH_LEN: usize = 32;

/// A 32-byte hash, such as an IPFS metadata reference or a WASM hash.
pub type Hash32 = [u8; 32];

/// An account or contract address on the ledger, held as plain values:
/// `kind` tells an account key (0) from a contract id (1), `key` holds its
/// 32 bytes.
#[derive(Clone, Copy, Debug, PartialEq, Eq, Hash)]
pub struct Address {
    pub kind: u8,
    pub key: [u8; 32],
}

impl Address {
    /// An address of the given kind and key.
    pub fn new(kind: u8, key: [u8; 32]) -> (a: Address)
        ensures
            a.kind == kind,
            a.key == key,
    {
        Address { kind, key }
    }
}

impl TableKey for Address {
    fn same(&self, other: &Self) -> (b: bool) {
        if self.kind != other.kind {
            return false;
        }
        let mut i: usize = 0;
        while i < HASH_LEN
            invariant
                i <= HASH_LEN,
                forall|j: int| 0 <= j < i ==> self.key@[j] == other.key@[j],
            decreases HASH_LEN - i,
        {
            if self.key[i] != other.key[i] {
                return false;
            }
            i = i + 1;
        }
        proof {
            assert(self.key@ =~= other.key@);
            vstd::array::axiom_array_ext_equal(self.key, other.key);
        }
        true
    }
}

/// A learner's record key for one course or quest: `(learner, id)`.
#[derive(Clone, Copy, Debug, PartialEq, Eq, Hash)]
pub struct LearnerKey {
    pub learner: Address,
    pub id: u32,
}

impl TableKey for LearnerKey {
    fn same(&self, other: &Self) -> (b: bool) {
        self.id == other.id && self.learner.same(&other.learner)
    }
}

/// Equality of two addresses.
pub fn same_address(a: &Address, b: &Address) -> (r: bool)
    ensures
        r == (*a == *b),
{
    a.same(b)
}

/// One side of a token transfer: the contract itself, or another address.
#[derive(Clone, Copy, Debug, PartialEq, Eq)]
pub enum Party {
    ThisContract,
    Other(Address),
}

/// What the ledger tells a contract about the call it is running: the
/// ledger time, and the addresses whose authorization the call carries.
pub struct Invocation {
    pub now: u64,
    pub signers: Vec<Address>,
}

impl Invocation {
    /// Whether `a` authorized this call.
    pub open spec fn authorizes(&self, a: Address) -> bool {
        self.signers@.contains(a)
    }

    /// A call made at time `now`, authorized by `signers`.
    pub fn new(now: u64, signers: Vec<Address>) -> (inv: Invocation)
        ensures
            inv.now == now,
            inv.signers@ == signers@,
    {
        Invocation { now, signers }
    }

    /// Checks that `a` authorized this call.
    pub fn require_auth(&self, a: &Address) -> (ok: bool)
        ensures
            ok == self.authorizes(*a),
    {
        let mut i: usize = 0;
        while i < self.signers.len()
            invariant
                i <= self.signers.len(),
                forall|j: int| 0 <= j < i ==> self.signers@[j] != *a,
            decreases self.signers.len() - i,
        {
            if self.signers[i].same(a) {
                proof { assert(self.signers@[i as int] == *a); }
                return true;
            }
            i = i + 1;
        }
        false
    }
}

/// Why a contract call was refused. Each refusal reverts the whole call:
/// no storage write, transfer or event of it takes effect.
#[derive(Clone, Copy, Debug, PartialEq, Eq)]
pub enum ContractError {
    AlreadyInitialized,
    NotInitialized,
    ContractNotInitialized,
    Unauthorized,
    NotAuthorizedRegistry,
    NotProtocolAdmin,
    NotCourseInstructor,
    AuthorizationMissing,
    AlreadyAtCurrentVersion,
    ArithmeticOverflow,
    SpenderNotFound,
    ContractPaused,
    AmountNotPositive,
    NotAuthorizedSpender,
    NoStakeFound,
    LockPeriodActive,
    MaxBadgesReached,
    BadgeAlreadyExists,
    ZeroModules,
    ModulesExceedBound,
    CourseIdLimitReached,
    CourseNotFound,
    CourseNotActive,
    AlreadyEnrolled,
    CourseAlreadyCompleted,
    NoPendingReward,
    QuestNotFound,
    QuestNotActive,
    NotBuildQuest,
    SubmissionAlreadyExists,
    NotQuestEmployer,
    SubmissionNotFound,
    SubmissionNotPendingReview,
    QuestAlreadyInactive,
    NotExploreQuest,
    ExploreProofOnBuildQuest,
    ExploreSubmissionAlreadyExists,
    NoProofSubmission,
    SubmissionNotPending,
    ReasonTooLong,
    OnlyRejectedDisputable,
    NotReviewed,
    DisputeWindowExpired,
    DisputeNotFound,
    DisputeAlreadyResolved,
    GovernanceNotConfigured,
    ProposalNotExecuted,
    InsufficientVotes,
}

impl ContractError {
    /// The panic message the contracts report for this refusal, as text.
    pub open spec fn message_text(self) -> Seq<char> {
        match self {
            ContractError::AlreadyInitialized => "Already initialized"@,
            ContractError::NotInitialized => "Not initialized"@,
            ContractError::ContractNotInitialized => "Contract not initialized"@,
            ContractError::Unauthorized => "Unauthorized"@,
            ContractError::NotAuthorizedRegistry => "Unauthorized: Caller is not the authorized registry"@,
            ContractError::NotProtocolAdmin => "Unauthorized: Caller is not the protocol admin"@,
            ContractError::NotCourseInstructor => "Unauthorized: Caller is not the course instructor"@,
            ContractError::AuthorizationMissing => "Error(Auth, InvalidAction)"@,
            ContractError::AlreadyAtCurrentVersion => "Already at current version"@,
            ContractError::ArithmeticOverflow => "arithmetic overflow"@,
            ContractError::SpenderNotFound => "Spender not found"@,
            ContractError::ContractPaused => "Contract is paused"@,
            ContractError::AmountNotPositive => "Amount must be positive"@,
            ContractError::NotAuthorizedSpender => "Caller is not an authorized spender"@,
            ContractError::NoStakeFound => "No stake found"@,
            ContractError::LockPeriodActive => "Lock period active"@,
            ContractError::MaxBadgesReached => "Max badges per learner reached"@,
            ContractError::BadgeAlreadyExists => "Badge for this course already exists"@,
            ContractError::ZeroModules => "total_modules must be greater than 0"@,
            ContractError::ModulesExceedBound => "total_modules exceeds bound"@,
            ContractError::CourseIdLimitReached => "Course ID limit reached"@,
            ContractError::CourseNotFound => "Course not found"@,
            ContractError::CourseNotActive => "Course is not active"@,
            ContractError::AlreadyEnrolled => "Learner already enrolled"@,
            ContractError::CourseAlreadyCompleted => "Course already completed"@,
            ContractError::NoPendingReward => "No pending reward for this learner and course"@,
            ContractError::QuestNotFound => "Quest not found"@,
            ContractError::QuestNotActive => "Quest is not active"@,
            ContractError::NotBuildQuest => "Only Build quests accept submissions"@,
            ContractError::SubmissionAlreadyExists => "Submission already exists"@,
            ContractError::NotQuestEmployer => "Only the quest employer can review submissions"@,
            ContractError::SubmissionNotFound => "Submission not found"@,
            ContractError::SubmissionNotPendingReview => "Submission is not pending review"@,
            ContractError::QuestAlreadyInactive => "Quest already inactive"@,
            ContractError::NotExploreQuest => "Not an Explore quest"@,
            ContractError::ExploreProofOnBuildQuest => "Only Explore quests accept explore proofs"@,
            ContractError::ExploreSubmissionAlreadyExists => "Explore submission already exists"@,
            ContractError::NoProofSubmission => "No proof submission found for this learner"@,
            ContractError::SubmissionNotPending => "Submission is not pending"@,
            ContractError::ReasonTooLong => "Reason exceeds maximum length"@,
            ContractError::OnlyRejectedDisputable => "Only rejected submissions can be disputed"@,
            ContractError::NotReviewed => "Submission hasn't been reviewed yet"@,
            ContractError::DisputeWindowExpired => "Dispute window has expired - disputes must be opened within 7 days of review"@,
            ContractError::DisputeNotFound => "Dispute not found"@,
            ContractError::DisputeAlreadyResolved => "Dispute has already been resolved"@,
            ContractError::GovernanceNotConfigured => "Governance contract not configured"@,
            ContractError::ProposalNotExecuted => "Proposal has not been executed"@,
            ContractError::InsufficientVotes => "Insufficient votes to approve the dispute"@,
        }
    }

    /// The panic message the contracts report for this refusal.
    pub fn message(&self) -> (m: &'static str)
        ensures
            m@ == self.message_text(),
    {
        match self {
            ContractError::AlreadyInitialized => "Already initialized",
            ContractError::NotInitialized => "Not initialized",
            ContractError::ContractNotInitialized => "Contract not initialized",
            ContractError::Unauthorized => "Unauthorized",
            ContractError::NotAuthorizedRegistry => "Unauthorized: Caller is not the authorized registry",
            ContractError::NotProtocolAdmin => "Unauthorized: Caller is not the protocol admin",
            ContractError::NotCourseInstructor => "Unauthorized: Caller is not the course instructor",
            ContractError::AuthorizationMissing => "Error(Auth, InvalidAction)",
            ContractError::AlreadyAtCurrentVersion => "Already at current version",
            ContractError::ArithmeticOverflow => "arithmetic overflow",
            ContractError::SpenderNotFound => "Spender not found",
            ContractError::ContractPaused => "Contract is paused",
            ContractError::AmountNotPositive => "Amount must be positive",
            ContractError::NotAuthorizedSpender => "Caller is not an authorized spender",
            ContractError::NoStakeFound => "No stake found",
            ContractError::LockPeriodActive => "Lock period active",
            ContractError::MaxBadgesReached => "Max badges per learner reached",
            ContractError::BadgeAlreadyExists => "Badge for this course already exists",
            ContractError::ZeroModules => "total_modules must be greater than 0",
            ContractError::ModulesExceedBound => "total_modules exceeds bound",
            ContractError::CourseIdLimitReached => "Course ID limit reached",
            ContractError::CourseNotFound => "Course not found",
            ContractError::CourseNotActive => "Course is not active",
            ContractError::AlreadyEnrolled => "Learner already enrolled",
            ContractError::CourseAlreadyCompleted => "Course already completed",
            ContractError::NoPendingReward => "No pending reward for this learner and course",
            ContractError::QuestNotFound => "Quest not found",
            ContractError::QuestNotActive => "Quest is not active",
            ContractError::NotBuildQuest => "Only Build quests accept submissions",
            ContractError::SubmissionAlreadyExists => "Submission already exists",
            ContractError::NotQuestEmployer => "Only the quest employer can review submissions",
            ContractError::SubmissionNotFound => "Submission not found",
            ContractError::SubmissionNotPendingReview => "Submission is not pending review",
            ContractError::QuestAlreadyInactive => "Quest already inactive",
            ContractError::NotExploreQuest => "Not an Explore quest",
            ContractError::ExploreProofOnBuildQuest => "Only Explore quests accept explore proofs",
            ContractError::ExploreSubmissionAlreadyExists => "Explore submission already exists",
            ContractError::NoProofSubmission => "No proof submission found for this learner",
            ContractError::SubmissionNotPending => "Submission is not pending",
            ContractError::ReasonTooLong => "Reason exceeds maximum length",
            ContractError::OnlyRejectedDisputable => "Only rejected submissions can be disputed",
            ContractError::NotReviewed => "Submission hasn't been reviewed yet",
            ContractError::DisputeWindowExpired => "Dispute window has expired - disputes must be opened within 7 days of review",
            ContractError::DisputeNotFound => "Dispute not found",
            ContractError::DisputeAlreadyResolved => "Dispute has already been resolved",
            ContractError::GovernanceNotConfigured => "Governance contract not configured",
            ContractError::ProposalNotExecuted => "Proposal has not been executed",
            ContractError::InsufficientVotes => "Insufficient votes to approve the dispute",
        }
    }
}

} // verus!
