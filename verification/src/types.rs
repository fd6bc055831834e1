//! Record types of the marketplace: quests, submissions, escrow accounts,
//! user reputation and the contract configuration, together with their
//! mathematical views and the error taxonomy.

use vstd::prelude::*;

verus! {

/// Status of a quest.
///
/// `Active -> {Paused, Completed, Expired, Cancelled}`,
/// `Paused -> {Active, Expired}`; `Completed`, `Expired` and `Cancelled`
/// are terminal.
#[derive(Clone, Copy, Debug, PartialEq, Eq, Structural)]
pub enum QuestStatus {
    /// Quest is active and accepting submissions
    Active,
    /// Quest is temporarily paused
    Paused,
    /// Quest has reached its participant limit or been manually completed
    Completed,
    /// Quest deadline has passed or the creator forced expiry
    Expired,
    /// Quest was cancelled by its creator
    Cancelled,
}

/// Status of a submission.
///
/// `Pending -> {Approved, Rejected}`, `Approved -> Paid`; `Rejected` and
/// `Paid` are terminal. Approval pays out in the same atomic step, so a
/// persisted submission is never left at `Approved`.
#[derive(Clone, Copy, Debug, PartialEq, Eq, Structural)]
pub enum SubmissionStatus {
    /// Submission is awaiting verification
    Pending,
    /// Submission has been approved (transient: advances to Paid)
    Approved,
    /// Submission has been rejected
    Rejected,
    /// Reward has been paid out
    Paid,
}

/// Badges a user can earn.
#[derive(Clone, Copy, Debug, PartialEq, Eq, Structural)]
pub enum Badge {
    Rookie,
    Explorer,
    Veteran,
    Master,
    Legend,
}

/// Typed failures of the marketplace operations.
#[derive(Clone, Copy, Debug, PartialEq, Eq, Structural)]
pub enum Error {
    QuestAlreadyExists,
    QuestNotFound,
    QuestFull,
    QuestExpired,
    QuestNotActive,
    InvalidRewardAmount,
    InvalidParticipantLimit,
    Unauthorized,
    SubmissionNotFound,
    SubmissionAlreadyExists,
    InvalidSubmissionStatus,
    UserStatsNotFound,
    InvalidQuestStatus,
    BadgeAlreadyGranted,
    UserNotFound,
    DuplicateSubmission,
    InvalidProofHash,
    UnauthorizedVerifier,
    InvalidStatusTransition,
    SubmissionAlreadyProcessed,
    InvalidDeadline,
    AlreadyInitialized,
    NotInitialized,
    InvalidAdmin,
    UnauthorizedUpgrade,
    InvalidVersionNumber,
    InvalidEscrowAmount,
    InsufficientEscrow,
    QuestStillActive,
    NoEscrowBalance,
}

/// A quest record. Principals and asset identifiers are opaque to the core:
/// the host's authentication layer asserts them, the core only compares them.
#[derive(Clone, Copy, Debug, PartialEq, Eq, Structural)]
pub struct Quest {
    /// Unique quest identifier
    pub id: u64,
    /// Principal of the quest creator
    pub creator: u64,
    /// Asset identifier for rewards
    pub reward_asset: u64,
    /// Reward amount per participant (always positive)
    pub reward_amount: i128,
    /// Principal authorized to verify submissions
    pub verifier: u64,
    /// Quest deadline (absolute timestamp, inclusive)
    pub deadline: u64,
    /// Current quest status
    pub status: QuestStatus,
    /// Maximum number of participants allowed (always positive)
    pub max_participants: u32,
    /// Total number of approved claims (never exceeds `max_participants`)
    pub total_claims: u32,
}

/// A proof-of-completion submission, keyed by (quest, submitter).
#[derive(Debug, PartialEq, Eq)]
pub struct Submission {
    /// Associated quest identifier
    pub quest_id: u64,
    /// Principal of the submitter
    pub submitter: u64,
    /// 32-byte digest of the proof data (never the all-zero sentinel)
    pub proof_hash: Vec<u8>,
    /// Current submission status
    pub status: SubmissionStatus,
    /// Submission timestamp
    pub timestamp: u64,
}

/// Mathematical view of a [`Submission`].
#[verifier::ext_equal]
pub struct SubmissionView {
    pub quest_id: u64,
    pub submitter: u64,
    pub proof_hash: Seq<u8>,
    pub status: SubmissionStatus,
    pub timestamp: u64,
}

impl View for Submission {
    type V = SubmissionView;

    open spec fn view(&self) -> SubmissionView {
        SubmissionView {
            quest_id: self.quest_id,
            submitter: self.submitter,
            proof_hash: self.proof_hash@,
            status: self.status,
            timestamp: self.timestamp,
        }
    }
}

/// Per-quest escrow account: the reward funds held by the contract.
#[derive(Clone, Copy, Debug, PartialEq, Eq, Structural)]
pub struct EscrowAccount {
    /// Identifier of the quest this account belongs to
    pub quest_id: u64,
    /// Funds currently held (never negative)
    pub balance: i128,
}

/// User reputation statistics.
#[derive(Debug, PartialEq, Eq)]
pub struct UserStats {
    /// Principal of the user
    pub address: u64,
    /// Total experience points earned
    pub total_xp: u64,
    /// Current user level, derived from `total_xp`
    pub level: u32,
    /// Number of quests completed
    pub quests_completed: u32,
    /// Earned badges, without duplicates
    pub badges: Vec<Badge>,
}

/// Mathematical view of [`UserStats`].
#[verifier::ext_equal]
pub struct UserStatsView {
    pub address: u64,
    pub total_xp: u64,
    pub level: u32,
    pub quests_completed: u32,
    pub badges: Seq<Badge>,
}

impl View for UserStats {
    type V = UserStatsView;

    open spec fn view(&self) -> UserStatsView {
        UserStatsView {
            address: self.address,
            total_xp: self.total_xp,
            level: self.level,
            quests_completed: self.quests_completed,
            badges: self.badges@,
        }
    }
}

/// Singleton contract configuration.
#[derive(Clone, Copy, Debug, PartialEq, Eq, Structural)]
pub struct ContractConfig {
    /// Principal with configuration and upgrade permissions
    pub admin: u64,
    /// Current contract version
    pub version: u32,
    /// Whether the contract has been initialized
    pub initialized: bool,
}

} // verus!
