//! An escrow-backed quest/bounty marketplace core: a creator funds a reward
//! pool, participants submit proof of completion, a designated verifier
//! approves or rejects each submission, and approved submitters are paid out
//! of escrowed funds.
//!
//! The library is the decision core of such a marketplace. The hosting ledger
//! (atomic transactions, caller authentication, wall-clock time, token
//! transfers) stays outside: every operation takes the already-authenticated
//! caller and the current ledger time as plain values, and leaves the actual
//! token movement to the host. Each operation either applies its full effect
//! or returns a typed error and leaves the state unchanged, mirroring the
//! all-or-nothing transaction model of such hosts.

pub mod escrow;
pub mod init;
pub mod laws;
pub mod quest;
pub mod reputation;
pub mod submission;
pub mod state;
pub mod store;
pub mod types;

pub use reputation::calculate_level;
pub use state::EarnQuestContract;

pub use types::Badge;
pub use types::ContractConfig;
pub use types::Error;
pub use types::EscrowAccount;
pub use types::Quest;
pub use types::QuestStatus;
pub use types::Submission;
pub use types::SubmissionStatus;
pub use types::UserStats;
