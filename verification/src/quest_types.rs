use vstd::prelude::*;
use crate::common::{Address, Hash32};

verus! {

/// Maximum byte-length of the rejection reason of an explore submission.
pub const MAX_REASON_LEN: u32 = 256;

/// The two kinds of quest: employer-funded build quests and admin-verified
/// explore quests paid out of the reward pool.
#[derive(Clone, Copy, Debug, PartialEq, Eq, Structural)]
pub enum QuestType {
    Build,
    Explore,
}

/// A quest as stored under `Quest(id)`.
#[derive(Clone, Copy, Debug, PartialEq, Eq)]
pub struct Quest {
    pub employer: Address,
    pub reward_amount: i128,
    pub quest_type: QuestType,
    pub metadata_hash: Hash32,
    pub active: bool,
}

/// The quest layout used before schema version 1; it has the same fields as
/// `Quest`.
#[derive(Clone, Copy, Debug, PartialEq, Eq)]
pub struct QuestV0 {
    pub employer: Address,
    pub reward_amount: i128,
    pub quest_type: QuestType,
    pub metadata_hash: Hash32,
    pub active: bool,
}

/// Review state of a build-quest submission.
#[derive(Clone, Copy, Debug, PartialEq, Eq, Structural)]
pub enum SubmissionStatus {
    Pending,
    Approved,
    Rejected,
}

/// A learner's build-quest submission, stored under `Submission(learner, id)`.
#[derive(Clone, Copy, Debug, PartialEq, Eq)]
pub struct Submission {
    pub proof_hash: Hash32,
    pub status: SubmissionStatus,
    pub reviewed_at: Option<u64>,
}

/// Status of a learner's explore-quest submission.
#[derive(Clone, Copy, Debug, PartialEq, Eq, Structural)]
pub enum ExploreSubmissionStatus {
    /// Submitted by the learner, awaiting the admin's decision.
    Pending,
    /// Verified by the admin; the reward has been paid.
    Verified,
    /// Rejected by the admin; no reward is paid.
    Rejected,
}

/// A learner's explore-quest submission, stored under
/// `ExploreSubmission(learner, id)`.
#[derive(Clone, Copy, Debug, PartialEq, Eq)]
pub struct ExploreSubmission {
    pub proof_hash: Hash32,
    pub status: ExploreSubmissionStatus,
}

/// A dispute a learner opened against a rejected submission.
#[derive(Clone, Copy, Debug, PartialEq, Eq)]
pub struct Dispute {
    pub quest_id: u32,
    pub learner: Address,
    pub reason: Hash32,
    pub opened_at: u64,
    pub resolved: bool,
}

/// A governance proposal, as the governance contract reports it.
#[derive(Clone, Copy, Debug, PartialEq, Eq)]
pub struct Proposal {
    pub id: u32,
    pub proposer: Address,
    pub metadata_hash: Hash32,
    pub votes_for: u32,
    pub votes_against: u32,
    pub end_time: u64,
    pub executed: bool,
}

} // verus!
