//! Submission workflow: proof submission with duplicate prevention, and
//! verifier-gated approval and rejection.
//!
//! Approval is one atomic step: the submission advances to `Paid`, the claim
//! counter grows, a full quest completes itself, the reward leaves escrow
//! and the submitter's reputation accrues — or nothing happens at all.

use vstd::prelude::*;

use crate::quest::auto_complete_quest_if_full;
use crate::quest::auto_expire_quest_if_deadline_passed;
use crate::quest::spec_auto_complete;
use crate::quest::spec_auto_expire;
use crate::quest::spec_is_quest_full;
use crate::quest::spec_validate_quest_active;
use crate::quest::validate_quest_active;
use crate::reputation::spec_award_xp;
use crate::reputation::XP_PER_QUEST;
use crate::state::all_zero;
use crate::state::lemma_subs_view_push;
use crate::state::lemma_subs_view_update;
use crate::state::spec_balance_of;
use crate::state::spec_funds_of;
use crate::state::submission_key;
use crate::state::subs_view;
use crate::state::EarnQuestContract;
use crate::state::FundFlow;
use crate::state::StateView;
use crate::store::lemma_assoc_contains;
use crate::store::lemma_assoc_push;
use crate::store::lemma_assoc_update;
use crate::store::lemma_distinct_after_push;
use crate::store::lemma_distinct_after_update;
use crate::types::Error;
use crate::types::EscrowAccount;
use crate::types::Quest;
use crate::types::Submission;
use crate::types::SubmissionStatus;
use crate::types::SubmissionView;
use vstd::pervasive::VecAdditionalExecFns;

verus! {

/// State and result of submitting proof: the quest is lazily expired first
/// (and that expiry persists, making deadlines observable without a clock),
/// then the quest must accept submissions, the submitter must not have
/// submitted before, and the digest must not be the all-zero sentinel.
pub open spec fn spec_submit_proof(
    s: StateView,
    now: u64,
    quest_id: u64,
    submitter: u64,
    proof_hash: Seq<u8>,
) -> (StateView, Result<(), Error>) {
    if !s.quests.contains_key(quest_id) {
        (s, Err(Error::QuestNotFound))
    } else {
        let q = spec_auto_expire(s.quests[quest_id], now);
        let s1 = StateView { quests: s.quests.insert(quest_id, q), ..s };
        match spec_validate_quest_active(q, now) {
            Err(e) => (s1, Err(e)),
            Ok(_) => {
                if s1.submissions.contains_key((quest_id, submitter)) {
                    (s1, Err(Error::DuplicateSubmission))
                } else if all_zero(proof_hash) {
                    (s1, Err(Error::InvalidProofHash))
                } else {
                    (
                        StateView {
                            submissions: s1.submissions.insert(
                                (quest_id, submitter),
                                SubmissionView {
                                    quest_id,
                                    submitter,
                                    proof_hash,
                                    status: SubmissionStatus::Pending,
                                    timestamp: now,
                                },
                            ),
                            ..s1
                        },
                        Ok(()),
                    )
                }
            },
        }
    }
}

/// State and result of approving a submission: verifier-gated, only pending
/// submissions, only while capacity remains and escrow covers the reward.
/// On success the submission is paid, the claim counter grows, a quest that
/// just filled completes itself, the reward leaves escrow and the submitter
/// earns experience points — all at once.
pub open spec fn spec_approve_submission(
    s: StateView,
    quest_id: u64,
    submitter: u64,
    verifier: u64,
) -> (StateView, Result<(), Error>) {
    if !s.quests.contains_key(quest_id) {
        (s, Err(Error::QuestNotFound))
    } else {
        let q = s.quests[quest_id];
        if q.verifier != verifier {
            (s, Err(Error::UnauthorizedVerifier))
        } else if !s.submissions.contains_key((quest_id, submitter)) {
            (s, Err(Error::SubmissionNotFound))
        } else {
            let sub = s.submissions[(quest_id, submitter)];
            if sub.status != SubmissionStatus::Pending {
                (s, Err(Error::SubmissionAlreadyProcessed))
            } else if spec_is_quest_full(q) {
                (s, Err(Error::QuestFull))
            } else if spec_balance_of(s, quest_id) < q.reward_amount {
                (s, Err(Error::InsufficientEscrow))
            } else {
                let q2 = spec_auto_complete(
                    Quest { total_claims: (q.total_claims + 1) as u32, ..q },
                );
                let bal = spec_balance_of(s, quest_id);
                let f = spec_funds_of(s, quest_id);
                (
                    StateView {
                        quests: s.quests.insert(quest_id, q2),
                        submissions: s.submissions.insert(
                            (quest_id, submitter),
                            SubmissionView { status: SubmissionStatus::Paid, ..sub },
                        ),
                        escrows: s.escrows.insert(
                            quest_id,
                            EscrowAccount {
                                quest_id,
                                balance: (bal - q.reward_amount) as i128,
                            },
                        ),
                        funds: s.funds.insert(
                            quest_id,
                            FundFlow { paid_out: f.paid_out + q.reward_amount, ..f },
                        ),
                        stats: spec_award_xp(s.stats, submitter, XP_PER_QUEST),
                        config: s.config,
                    },
                    Ok(()),
                )
            }
        }
    }
}

/// State and result of rejecting a submission: verifier-gated, only pending
/// submissions. No escrow or reputation effect.
pub open spec fn spec_reject_submission(
    s: StateView,
    quest_id: u64,
    submitter: u64,
    verifier: u64,
) -> (StateView, Result<(), Error>) {
    if !s.quests.contains_key(quest_id) {
        (s, Err(Error::QuestNotFound))
    } else {
        let q = s.quests[quest_id];
        if q.verifier != verifier {
            (s, Err(Error::UnauthorizedVerifier))
        } else if !s.submissions.contains_key((quest_id, submitter)) {
            (s, Err(Error::SubmissionNotFound))
        } else {
            let sub = s.submissions[(quest_id, submitter)];
            if sub.status != SubmissionStatus::Pending {
                (s, Err(Error::SubmissionAlreadyProcessed))
            } else {
                (
                    StateView {
                        submissions: s.submissions.insert(
                            (quest_id, submitter),
                            SubmissionView { status: SubmissionStatus::Rejected, ..sub },
                        ),
                        ..s
                    },
                    Ok(()),
                )
            }
        }
    }
}

/// An owned copy of a byte digest.
fn copy_bytes(v: &Vec<u8>) -> (r: Vec<u8>)
    ensures
        r@ == v@,
{
    let mut r: Vec<u8> = Vec::new();
    let mut i: usize = 0;
    while i < v.len()
        invariant
            i <= v@.len(),
            r@ == v@.subrange(0, i as int),
        decreases v@.len() - i,
    {
        r.push(v[i]);
        proof {
            assert(r@ =~= v@.subrange(0, i + 1));
        }
        i += 1;
    }
    proof {
        assert(v@.subrange(0, v@.len() as int) =~= v@);
    }
    r
}

/// Whether every byte of the digest is zero.
fn is_all_zero(v: &Vec<u8>) -> (r: bool)
    ensures
        r == all_zero(v@),
{
    let mut i: usize = 0;
    while i < v.len()
        invariant
            i <= v@.len(),
            forall|j: int| 0 <= j < i ==> v@[j] == 0,
        decreases v@.len() - i,
    {
        if v[i] != 0 {
            return false;
        }
        i += 1;
    }
    true
}

impl EarnQuestContract {
    /// Submit proof of quest completion. The quest is lazily expired first;
    /// that transition persists even when the submission is then refused,
    /// which is the one operation whose error path changes the state.
    /// Submitting exactly at the deadline still succeeds.
    ///
    /// The digest length is the host type's: proofs are 32-byte hashes.
    pub fn submit_proof(&mut self, now: u64, quest_id: u64, submitter: u64, proof_hash: Vec<u8>) -> (r:
        Result<(), Error>)
        requires
            old(self).inv(),
            proof_hash@.len() == 32,
        ensures
            final(self).inv(),
            (final(self)@, r) == spec_submit_proof(
                old(self)@,
                now,
                quest_id,
                submitter,
                proof_hash@,
            ),
    {
        let qi = match self.find_quest(quest_id) {
            Some(i) => i,
            None => {
                return Err(Error::QuestNotFound);
            },
        };
        let mut q = self.quests[qi];
        auto_expire_quest_if_deadline_passed(&mut q, now);
        self.set_quest_at(qi, q);
        let ghost s1 = spec_submit_proof(old(self)@, now, quest_id, submitter, proof_hash@).0;
        if let Err(e) = validate_quest_active(&q, now) {
            proof {
                assert(self@ =~= StateView {
                    quests: old(self)@.quests.insert(quest_id, q),
                    ..old(self)@
                });
            }
            return Err(e);
        }
        if self.find_submission(quest_id, submitter).is_some() {
            return Err(Error::DuplicateSubmission);
        }
        if is_all_zero(&proof_hash) {
            return Err(Error::InvalidProofHash);
        }
        let sub = Submission {
            quest_id,
            submitter,
            proof_hash,
            status: SubmissionStatus::Pending,
            timestamp: now,
        };
        self.push_submission(sub);
        proof {
            assert(self@ =~= s1);
        }
        Ok(())
    }

    /// Get the submission of `submitter` for `quest_id`.
    pub fn get_submission(&self, quest_id: u64, submitter: u64) -> (r: Result<Submission, Error>)
        requires
            self.inv(),
        ensures
            (match r {
                Ok(sub) => self@.submissions.contains_key((quest_id, submitter)) && sub@
                    == self@.submissions[(quest_id, submitter)],
                Err(e) => !self@.submissions.contains_key((quest_id, submitter)) && e
                    == Error::SubmissionNotFound,
            }),
    {
        match self.find_submission(quest_id, submitter) {
            Some(i) => {
                let sub = &self.submissions[i];
                Ok(
                    Submission {
                        quest_id: sub.quest_id,
                        submitter: sub.submitter,
                        proof_hash: copy_bytes(&sub.proof_hash),
                        status: sub.status,
                        timestamp: sub.timestamp,
                    },
                )
            },
            None => Err(Error::SubmissionNotFound),
        }
    }

    /// The quest identifiers `user` has submitted to, each once, in no
    /// promised order.
    pub fn get_user_submissions(&self, user: u64) -> (r: Vec<u64>)
        requires
            self.inv(),
        ensures
            forall|qid: u64| #[trigger] r@.contains(qid) <==> self@.submissions.contains_key(
                (qid, user),
            ),
            r@.no_duplicates(),
    {
        let mut r: Vec<u64> = Vec::new();
        let mut i: usize = 0;
        while i < self.submissions.len()
            invariant
                i <= self.submissions@.len(),
                self.inv(),
                forall|qid: u64| #[trigger] r@.contains(qid) <==> exists|j: int|
                    0 <= j < i && self.submissions@[j].quest_id == qid
                        && self.submissions@[j].submitter == user,
                r@.no_duplicates(),
            decreases self.submissions@.len() - i,
        {
            if self.submissions[i].submitter == user {
                let qid = self.submissions[i].quest_id;
                let ghost r0 = r@;
                proof {
                    if r0.contains(qid) {
                        let j = choose|j: int|
                            0 <= j < i && self.submissions@[j].quest_id == qid
                                && self.submissions@[j].submitter == user;
                        assert(submission_key()(subs_view(self.submissions@)[j])
                            == submission_key()(subs_view(self.submissions@)[i as int]));
                        assert(false);
                    }
                }
                r.push(qid);
                proof {
                    assert(r@ == r0.push(qid));
                    assert forall|a: int, b: int| 0 <= a < b < r@.len() implies r@[a] != r@[b] by {
                        if b == r@.len() - 1 {
                            assert(r@[b] == qid);
                            assert(r@[a] == r0[a]);
                            assert(r0.contains(r0[a]));
                        }
                    }
                    assert forall|q2: u64| #[trigger] r@.contains(q2) implies exists|j: int|
                        0 <= j < i + 1 && self.submissions@[j].quest_id == q2
                            && self.submissions@[j].submitter == user by {
                        let k = choose|k: int| 0 <= k < r@.len() && r@[k] == q2;
                        if k < r0.len() {
                            assert(r0[k] == q2);
                            assert(r0.contains(q2));
                        } else {
                            assert(self.submissions@[i as int].quest_id == q2);
                        }
                    }
                    assert forall|q2: u64|
                        (exists|j: int|
                            0 <= j < i + 1 && self.submissions@[j].quest_id == q2
                                && self.submissions@[j].submitter == user) implies #[trigger] r@
                        .contains(q2) by {
                        let j = choose|j: int|
                            0 <= j < i + 1 && self.submissions@[j].quest_id == q2
                                && self.submissions@[j].submitter == user;
                        if j < i {
                            assert(r0.contains(q2));
                            let k = choose|k: int| 0 <= k < r0.len() && r0[k] == q2;
                            assert(r@[k] == q2);
                        } else {
                            assert(r@[r@.len() - 1] == q2);
                        }
                    }
                }
            } else {
                proof {
                    assert forall|q2: u64| #[trigger] r@.contains(q2) implies exists|j: int|
                        0 <= j < i + 1 && self.submissions@[j].quest_id == q2
                            && self.submissions@[j].submitter == user by {}
                    assert forall|q2: u64|
                        (exists|j: int|
                            0 <= j < i + 1 && self.submissions@[j].quest_id == q2
                                && self.submissions@[j].submitter == user) implies #[trigger] r@
                        .contains(q2) by {
                        let j = choose|j: int|
                            0 <= j < i + 1 && self.submissions@[j].quest_id == q2
                                && self.submissions@[j].submitter == user;
                        assert(j < i);
                    }
                }
            }
            i += 1;
        }
        proof {
            assert forall|qid: u64| #[trigger] r@.contains(qid) == self@.submissions.contains_key(
                (qid, user),
            ) by {
                lemma_assoc_contains(subs_view(self.submissions@), submission_key(), (qid, user));
                if r@.contains(qid) {
                    let j = choose|j: int|
                        0 <= j < self.submissions@.len() && self.submissions@[j].quest_id == qid
                            && self.submissions@[j].submitter == user;
                    assert(submission_key()(subs_view(self.submissions@)[j]) == (qid, user));
                } else if self@.submissions.contains_key((qid, user)) {
                    let j = choose|j: int|
                        0 <= j < subs_view(self.submissions@).len() && submission_key()(
                            subs_view(self.submissions@)[j],
                        ) == (qid, user);
                    assert(self.submissions@[j].quest_id == qid);
                    assert(self.submissions@[j].submitter == user);
                }
            }
        }
        r
    }

    /// Approve a pending submission (the quest's verifier only) and pay the
    /// reward out of escrow in the same step. The capacity re-check guards
    /// the race where the quest filled between submission and approval.
    pub fn approve_submission(&mut self, quest_id: u64, submitter: u64, verifier: u64) -> (r: Result<
        (),
        Error,
    >)
        requires
            old(self).inv(),
        ensures
            final(self).inv(),
            (final(self)@, r) == spec_approve_submission(old(self)@, quest_id, submitter, verifier),
    {
        let qi = match self.find_quest(quest_id) {
            Some(i) => i,
            None => {
                return Err(Error::QuestNotFound);
            },
        };
        let q = self.quests[qi];
        if q.verifier != verifier {
            return Err(Error::UnauthorizedVerifier);
        }
        let si = match self.find_submission(quest_id, submitter) {
            Some(i) => i,
            None => {
                return Err(Error::SubmissionNotFound);
            },
        };
        if self.submissions[si].status != SubmissionStatus::Pending {
            return Err(Error::SubmissionAlreadyProcessed);
        }
        if q.total_claims >= q.max_participants {
            return Err(Error::QuestFull);
        }
        let bal = self.get_escrow_balance(quest_id);
        if bal < q.reward_amount {
            return Err(Error::InsufficientEscrow);
        }
        // The whole sequence below is one atomic unit: every step succeeds.
        let r = self.process_payout(quest_id);
        proof {
            assert(r is Ok);
        }
        self.award_xp(submitter, XP_PER_QUEST);
        let paid = Submission {
            quest_id,
            submitter,
            proof_hash: copy_bytes(&self.submissions[si].proof_hash),
            status: SubmissionStatus::Paid,
            timestamp: self.submissions[si].timestamp,
        };
        self.set_submission_at(si, paid);
        let mut q2 = Quest { total_claims: q.total_claims + 1, ..q };
        auto_complete_quest_if_full(&mut q2);
        self.set_quest_at(qi, q2);
        proof {
            assert(self@ =~~= spec_approve_submission(old(self)@, quest_id, submitter, verifier).0);
        }
        Ok(())
    }

    /// Reject a pending submission (the quest's verifier only).
    pub fn reject_submission(&mut self, quest_id: u64, submitter: u64, verifier: u64) -> (r: Result<
        (),
        Error,
    >)
        requires
            old(self).inv(),
        ensures
            final(self).inv(),
            (final(self)@, r) == spec_reject_submission(old(self)@, quest_id, submitter, verifier),
    {
        let qi = match self.find_quest(quest_id) {
            Some(i) => i,
            None => {
                return Err(Error::QuestNotFound);
            },
        };
        let q = self.quests[qi];
        if q.verifier != verifier {
            return Err(Error::UnauthorizedVerifier);
        }
        let si = match self.find_submission(quest_id, submitter) {
            Some(i) => i,
            None => {
                return Err(Error::SubmissionNotFound);
            },
        };
        if self.submissions[si].status != SubmissionStatus::Pending {
            return Err(Error::SubmissionAlreadyProcessed);
        }
        let rejected = Submission {
            quest_id,
            submitter,
            proof_hash: copy_bytes(&self.submissions[si].proof_hash),
            status: SubmissionStatus::Rejected,
            timestamp: self.submissions[si].timestamp,
        };
        self.set_submission_at(si, rejected);
        proof {
            assert(self@ =~~= spec_reject_submission(old(self)@, quest_id, submitter, verifier).0);
        }
        Ok(())
    }

    /// Replace the submission record at index `i` by one with the same key.
    pub(crate) fn set_submission_at(&mut self, i: usize, s2: Submission)
        requires
            old(self).keys_unique(),
            i < old(self).submissions@.len(),
            s2.quest_id == old(self).submissions@[i as int].quest_id,
            s2.submitter == old(self).submissions@[i as int].submitter,
        ensures
            final(self).keys_unique(),
            final(self)@ == (StateView {
                submissions: old(self)@.submissions.insert((s2.quest_id, s2.submitter), s2@),
                ..old(self)@
            }),
            final(self).quests@ == old(self).quests@,
            final(self).escrows@ == old(self).escrows@,
            final(self).stats@ == old(self).stats@,
            final(self).config == old(self).config,
            final(self).funds == old(self).funds,
    {
        proof {
            lemma_subs_view_update(self.submissions@, i as int, s2);
            lemma_distinct_after_update(
                subs_view(self.submissions@),
                submission_key(),
                i as int,
                s2@,
            );
            lemma_assoc_update(subs_view(self.submissions@), submission_key(), i as int, s2@);
        }
        self.submissions.set(i, s2);
        proof {
            assert(self@ =~= (StateView {
                submissions: old(self)@.submissions.insert((s2.quest_id, s2.submitter), s2@),
                ..old(self)@
            }));
        }
    }

    /// Append a submission record under a key not stored yet.
    pub(crate) fn push_submission(&mut self, s2: Submission)
        requires
            old(self).keys_unique(),
            !old(self)@.submissions.contains_key((s2.quest_id, s2.submitter)),
        ensures
            final(self).keys_unique(),
            final(self)@ == (StateView {
                submissions: old(self)@.submissions.insert((s2.quest_id, s2.submitter), s2@),
                ..old(self)@
            }),
            final(self).quests@ == old(self).quests@,
            final(self).escrows@ == old(self).escrows@,
            final(self).stats@ == old(self).stats@,
            final(self).config == old(self).config,
            final(self).funds == old(self).funds,
    {
        proof {
            lemma_subs_view_push(self.submissions@, s2);
            lemma_assoc_contains(
                subs_view(self.submissions@),
                submission_key(),
                (s2.quest_id, s2.submitter),
            );
            lemma_distinct_after_push(subs_view(self.submissions@), submission_key(), s2@);
            lemma_assoc_push(subs_view(self.submissions@), submission_key(), s2@);
        }
        self.submissions.push(s2);
        proof {
            assert(self@ =~= (StateView {
                submissions: old(self)@.submissions.insert((s2.quest_id, s2.submitter), s2@),
                ..old(self)@
            }));
        }
    }
}

} // verus!
