//! The library's laws: properties of the state machine that hold across
//! operations, stated over the same spec transitions that the executable
//! operations are proved to implement. Every operation also preserves the
//! state's validity (`inv`), so these hold at every observable point.

use vstd::prelude::*;

use crate::escrow::spec_withdraw_unclaimed;
use crate::quest::spec_is_quest_full;
use crate::state::spec_balance_of;
use crate::state::spec_funds_of;
use crate::state::StateView;
use crate::submission::spec_approve_submission;
use crate::submission::spec_reject_submission;
use crate::submission::spec_submit_proof;
use crate::types::Error;
use crate::types::QuestStatus;
use crate::types::SubmissionStatus;

verus! {

/// In every well-formed state, a quest's approved claims never exceed its
/// participant limit.
pub proof fn lemma_total_claims_within_limit(s: StateView, quest_id: u64)
    requires
        s.wf(),
        s.quests.contains_key(quest_id),
    ensures
        s.quests[quest_id].total_claims <= s.quests[quest_id].max_participants,
{
}

/// In every well-formed state, an escrow balance is never negative, and the
/// rewards paid out of a quest's escrow never exceed what was deposited.
pub proof fn lemma_payouts_never_exceed_deposits(s: StateView, quest_id: u64)
    requires
        s.wf(),
    ensures
        spec_balance_of(s, quest_id) >= 0,
        spec_funds_of(s, quest_id).paid_out <= spec_funds_of(s, quest_id).deposited,
{
}

/// Approving the same submission twice fails the second time with
/// `SubmissionAlreadyProcessed`: the first approval paid it.
pub proof fn lemma_approve_twice_fails(s: StateView, quest_id: u64, submitter: u64, verifier: u64)
    requires
        s.wf(),
        spec_approve_submission(s, quest_id, submitter, verifier).1 is Ok,
    ensures
        spec_approve_submission(
            spec_approve_submission(s, quest_id, submitter, verifier).0,
            quest_id,
            submitter,
            verifier,
        ).1 == Err::<(), Error>(Error::SubmissionAlreadyProcessed),
{
    let s1 = spec_approve_submission(s, quest_id, submitter, verifier).0;
    assert(s1.submissions[(quest_id, submitter)].status == SubmissionStatus::Paid);
}

/// Rejecting a submission after it was approved (and paid) fails with
/// `SubmissionAlreadyProcessed`.
pub proof fn lemma_reject_after_approve_fails(
    s: StateView,
    quest_id: u64,
    submitter: u64,
    verifier: u64,
)
    requires
        s.wf(),
        spec_approve_submission(s, quest_id, submitter, verifier).1 is Ok,
    ensures
        spec_reject_submission(
            spec_approve_submission(s, quest_id, submitter, verifier).0,
            quest_id,
            submitter,
            verifier,
        ).1 == Err::<(), Error>(Error::SubmissionAlreadyProcessed),
{
    let s1 = spec_approve_submission(s, quest_id, submitter, verifier).0;
    assert(s1.submissions[(quest_id, submitter)].status == SubmissionStatus::Paid);
}

/// Approving a submission after it was rejected fails with
/// `SubmissionAlreadyProcessed`.
pub proof fn lemma_approve_after_reject_fails(
    s: StateView,
    quest_id: u64,
    submitter: u64,
    verifier: u64,
)
    requires
        s.wf(),
        spec_reject_submission(s, quest_id, submitter, verifier).1 is Ok,
    ensures
        spec_approve_submission(
            spec_reject_submission(s, quest_id, submitter, verifier).0,
            quest_id,
            submitter,
            verifier,
        ).1 == Err::<(), Error>(Error::SubmissionAlreadyProcessed),
{
    let s1 = spec_reject_submission(s, quest_id, submitter, verifier).0;
    assert(s1.submissions[(quest_id, submitter)].status == SubmissionStatus::Rejected);
}

/// A full quest accepts no approval at all, whoever asks.
pub proof fn lemma_full_quest_accepts_no_approval(s: StateView, quest_id: u64)
    requires
        s.wf(),
        s.quests.contains_key(quest_id),
        spec_is_quest_full(s.quests[quest_id]),
    ensures
        forall|submitter: u64, verifier: u64|
            #[trigger] spec_approve_submission(s, quest_id, submitter, verifier).1 is Err,
{
}

/// The approval that fills an active quest's last slot completes the quest
/// automatically, and from then on no approval against it is accepted.
pub proof fn lemma_filling_approval_completes_quest(
    s: StateView,
    quest_id: u64,
    submitter: u64,
    verifier: u64,
)
    requires
        s.wf(),
        spec_approve_submission(s, quest_id, submitter, verifier).1 is Ok,
        s.quests[quest_id].status == QuestStatus::Active,
        s.quests[quest_id].total_claims + 1 == s.quests[quest_id].max_participants as int,
    ensures
        spec_approve_submission(s, quest_id, submitter, verifier).0.quests[quest_id].status
            == QuestStatus::Completed,
        spec_is_quest_full(spec_approve_submission(s, quest_id, submitter, verifier).0.quests[quest_id]),
        forall|submitter2: u64, verifier2: u64|
            #[trigger] spec_approve_submission(
                spec_approve_submission(s, quest_id, submitter, verifier).0,
                quest_id,
                submitter2,
                verifier2,
            ).1 is Err,
{
    let s1 = spec_approve_submission(s, quest_id, submitter, verifier).0;
    assert(spec_is_quest_full(s1.quests[quest_id]));
}

/// Withdrawing the unclaimed funds of a terminal quest succeeds exactly
/// once: it leaves the balance at zero, and a second withdrawal fails with
/// `NoEscrowBalance`.
pub proof fn lemma_withdraw_exactly_once(s: StateView, quest_id: u64, creator: u64)
    requires
        s.wf(),
        spec_withdraw_unclaimed(s, quest_id, creator).1 is Ok,
    ensures
        spec_balance_of(spec_withdraw_unclaimed(s, quest_id, creator).0, quest_id) == 0,
        spec_withdraw_unclaimed(
            spec_withdraw_unclaimed(s, quest_id, creator).0,
            quest_id,
            creator,
        ).1 == Err::<i128, Error>(Error::NoEscrowBalance),
{
}

/// The deadline is inclusive: a proof submitted to an active quest with
/// room, by a new submitter and with a valid digest, is accepted exactly at
/// the deadline and at any time before it — and refused strictly after it.
pub proof fn lemma_submission_deadline_is_inclusive(
    s: StateView,
    now: u64,
    quest_id: u64,
    submitter: u64,
    proof_hash: Seq<u8>,
)
    requires
        s.wf(),
        s.quests.contains_key(quest_id),
        s.quests[quest_id].status == QuestStatus::Active,
        !spec_is_quest_full(s.quests[quest_id]),
        !s.submissions.contains_key((quest_id, submitter)),
        !crate::state::all_zero(proof_hash),
    ensures
        now <= s.quests[quest_id].deadline ==> spec_submit_proof(
            s,
            now,
            quest_id,
            submitter,
            proof_hash,
        ).1 is Ok,
        now > s.quests[quest_id].deadline ==> spec_submit_proof(
            s,
            now,
            quest_id,
            submitter,
            proof_hash,
        ).1 is Err,
        now > s.quests[quest_id].deadline ==> spec_submit_proof(
            s,
            now,
            quest_id,
            submitter,
            proof_hash,
        ).0.quests[quest_id].status == QuestStatus::Expired,
{
}

} // verus!
