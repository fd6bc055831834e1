//! Quest lifecycle: creation, validation, status transitions, capacity and
//! deadline policy.
//!
//! Statuses move along `Active -> {Paused, Completed, Expired, Cancelled}`
//! and `Paused -> {Active, Expired}`; `Completed`, `Expired` and `Cancelled`
//! are terminal and same-state transitions are invalid. Expiry is lazy: a
//! deadline only takes effect when the quest is next touched.

use vstd::prelude::*;

use crate::state::quest_key;
use crate::state::EarnQuestContract;
use crate::state::StateView;
use crate::store::lemma_assoc_contains;
use crate::store::lemma_assoc_push;
use crate::store::lemma_assoc_update;
use crate::store::lemma_distinct_after_push;
use crate::store::lemma_distinct_after_update;
use crate::types::Error;
use crate::types::Quest;
use crate::types::QuestStatus;
use vstd::pervasive::VecAdditionalExecFns;

verus! {

/// A quest is full when its approved claims have reached the participant
/// limit.
pub open spec fn spec_is_quest_full(q: Quest) -> bool {
    q.total_claims >= q.max_participants
}

/// A quest is expired strictly after its deadline: the deadline itself still
/// accepts submissions.
pub open spec fn spec_is_expired(q: Quest, now: u64) -> bool {
    now > q.deadline
}

/// The quest status transitions the creator may request. Terminal states
/// have no outgoing transitions and same-state transitions are invalid.
pub open spec fn spec_transition_allowed(from: QuestStatus, to: QuestStatus) -> bool {
    match (from, to) {
        (QuestStatus::Active, QuestStatus::Paused) => true,
        (QuestStatus::Active, QuestStatus::Completed) => true,
        (QuestStatus::Active, QuestStatus::Expired) => true,
        (QuestStatus::Active, QuestStatus::Cancelled) => true,
        (QuestStatus::Paused, QuestStatus::Active) => true,
        (QuestStatus::Paused, QuestStatus::Expired) => true,
        _ => false,
    }
}

/// Why a quest does not accept submissions, if it does not: it must be
/// active, not past its deadline, and not full.
pub open spec fn spec_validate_quest_active(q: Quest, now: u64) -> Result<(), Error> {
    if q.status != QuestStatus::Active {
        Err(Error::QuestNotActive)
    } else if spec_is_expired(q, now) {
        Err(Error::QuestExpired)
    } else if spec_is_quest_full(q) {
        Err(Error::QuestFull)
    } else {
        Ok(())
    }
}

/// The quest after lazy expiry: an active quest past its deadline becomes
/// expired, any other quest is untouched.
pub open spec fn spec_auto_expire(q: Quest, now: u64) -> Quest {
    if spec_is_expired(q, now) && q.status == QuestStatus::Active {
        Quest { status: QuestStatus::Expired, ..q }
    } else {
        q
    }
}

/// The quest after automatic completion: an active quest whose claims have
/// reached the limit becomes completed, any other quest is untouched.
pub open spec fn spec_auto_complete(q: Quest) -> Quest {
    if spec_is_quest_full(q) && q.status == QuestStatus::Active {
        Quest { status: QuestStatus::Completed, ..q }
    } else {
        q
    }
}

/// State and result of registering a quest: validates the reward, the
/// participant limit and the deadline, and stores a fresh active quest under
/// an unused identifier.
pub open spec fn spec_register_quest(
    s: StateView,
    now: u64,
    id: u64,
    creator: u64,
    reward_asset: u64,
    reward_amount: i128,
    verifier: u64,
    deadline: u64,
    max_participants: u32,
) -> (StateView, Result<(), Error>) {
    if reward_amount <= 0 {
        (s, Err(Error::InvalidRewardAmount))
    } else if max_participants == 0 {
        (s, Err(Error::InvalidParticipantLimit))
    } else if deadline <= now {
        (s, Err(Error::InvalidDeadline))
    } else if s.quests.contains_key(id) {
        (s, Err(Error::QuestAlreadyExists))
    } else {
        let q = Quest {
            id,
            creator,
            reward_asset,
            reward_amount,
            verifier,
            deadline,
            status: QuestStatus::Active,
            max_participants,
            total_claims: 0,
        };
        (StateView { quests: s.quests.insert(id, q), ..s }, Ok(()))
    }
}

/// State and result of a status update requested by `caller`: creator-only,
/// and only along the transition table.
pub open spec fn spec_update_quest_status(
    s: StateView,
    quest_id: u64,
    caller: u64,
    new_status: QuestStatus,
) -> (StateView, Result<(), Error>) {
    if !s.quests.contains_key(quest_id) {
        (s, Err(Error::QuestNotFound))
    } else {
        let q = s.quests[quest_id];
        if q.creator != caller {
            (s, Err(Error::Unauthorized))
        } else if !spec_transition_allowed(q.status, new_status) {
            (s, Err(Error::InvalidStatusTransition))
        } else {
            let q2 = Quest { status: new_status, ..q };
            (StateView { quests: s.quests.insert(quest_id, q2), ..s }, Ok(()))
        }
    }
}

/// State and result of a forced expiry by the creator: allowed from any
/// status but the terminal `Expired` and `Completed`.
pub open spec fn spec_expire_quest(s: StateView, quest_id: u64, caller: u64) -> (
    StateView,
    Result<(), Error>,
) {
    if !s.quests.contains_key(quest_id) {
        (s, Err(Error::QuestNotFound))
    } else {
        let q = s.quests[quest_id];
        if q.creator != caller {
            (s, Err(Error::Unauthorized))
        } else if q.status == QuestStatus::Expired || q.status == QuestStatus::Completed {
            (s, Err(Error::InvalidStatusTransition))
        } else {
            let q2 = Quest { status: QuestStatus::Expired, ..q };
            (StateView { quests: s.quests.insert(quest_id, q2), ..s }, Ok(()))
        }
    }
}

/// State and result of a cancellation by the creator: allowed unless the
/// quest already completed or expired. Cancellation and manual expiry are
/// the two paths that unlock escrow withdrawal without payout.
pub open spec fn spec_cancel_quest(s: StateView, quest_id: u64, caller: u64) -> (
    StateView,
    Result<(), Error>,
) {
    if !s.quests.contains_key(quest_id) {
        (s, Err(Error::QuestNotFound))
    } else {
        let q = s.quests[quest_id];
        if q.creator != caller {
            (s, Err(Error::Unauthorized))
        } else if q.status == QuestStatus::Completed || q.status == QuestStatus::Expired {
            (s, Err(Error::InvalidStatusTransition))
        } else {
            let q2 = Quest { status: QuestStatus::Cancelled, ..q };
            (StateView { quests: s.quests.insert(quest_id, q2), ..s }, Ok(()))
        }
    }
}

/// Check if a quest has reached its participant limit.
pub fn is_quest_full(quest: &Quest) -> (r: bool)
    ensures
        r == spec_is_quest_full(*quest),
{
    quest.total_claims >= quest.max_participants
}

/// Check if a quest has expired: strictly after its deadline.
pub fn check_expired(quest: &Quest, now: u64) -> (r: bool)
    ensures
        r == spec_is_expired(*quest, now),
{
    now > quest.deadline
}

/// Validate that a quest is active, not past its deadline and not full, and
/// so accepts submissions.
pub fn validate_quest_active(quest: &Quest, now: u64) -> (r: Result<(), Error>)
    ensures
        r == spec_validate_quest_active(*quest, now),
{
    if quest.status != QuestStatus::Active {
        return Err(Error::QuestNotActive);
    }
    if now > quest.deadline {
        return Err(Error::QuestExpired);
    }
    if quest.total_claims >= quest.max_participants {
        return Err(Error::QuestFull);
    }
    Ok(())
}

/// Complete an active quest in place once its participant limit is reached.
pub fn auto_complete_quest_if_full(quest: &mut Quest)
    ensures
        *final(quest) == spec_auto_complete(*old(quest)),
{
    if quest.total_claims >= quest.max_participants && quest.status == QuestStatus::Active {
        quest.status = QuestStatus::Completed;
    }
}

/// Expire an active quest in place once its deadline has passed.
pub fn auto_expire_quest_if_deadline_passed(quest: &mut Quest, now: u64)
    ensures
        *final(quest) == spec_auto_expire(*old(quest), now),
{
    if now > quest.deadline && quest.status == QuestStatus::Active {
        quest.status = QuestStatus::Expired;
    }
}

impl EarnQuestContract {
    /// Register a new quest with a participant limit. Fails on a
    /// non-positive reward, a zero participant limit, a deadline not in the
    /// future, or an identifier already in use.
    #[allow(clippy::too_many_arguments)]
    pub fn register_quest(
        &mut self,
        now: u64,
        id: u64,
        creator: u64,
        reward_asset: u64,
        reward_amount: i128,
        verifier: u64,
        deadline: u64,
        max_participants: u32,
    ) -> (r: Result<(), Error>)
        requires
            old(self).inv(),
        ensures
            final(self).inv(),
            (final(self)@, r) == spec_register_quest(
                old(self)@,
                now,
                id,
                creator,
                reward_asset,
                reward_amount,
                verifier,
                deadline,
                max_participants,
            ),
    {
        if reward_amount <= 0 {
            return Err(Error::InvalidRewardAmount);
        }
        if max_participants == 0 {
            return Err(Error::InvalidParticipantLimit);
        }
        if deadline <= now {
            return Err(Error::InvalidDeadline);
        }
        if self.find_quest(id).is_some() {
            return Err(Error::QuestAlreadyExists);
        }
        let q = Quest {
            id,
            creator,
            reward_asset,
            reward_amount,
            verifier,
            deadline,
            status: QuestStatus::Active,
            max_participants,
            total_claims: 0,
        };
        proof {
            lemma_assoc_contains(self.quests@, quest_key(), id);
            lemma_distinct_after_push(self.quests@, quest_key(), q);
            lemma_assoc_push(self.quests@, quest_key(), q);
        }
        self.quests.push(q);
        proof {
            let expected = spec_register_quest(
                old(self)@,
                now,
                id,
                creator,
                reward_asset,
                reward_amount,
                verifier,
                deadline,
                max_participants,
            ).0;
            assert(self@ =~= expected);
        }
        Ok(())
    }

    /// Get a quest by its identifier.
    pub fn get_quest(&self, id: u64) -> (r: Result<Quest, Error>)
        requires
            self.inv(),
        ensures
            r == if self@.quests.contains_key(id) {
                Ok::<Quest, Error>(self@.quests[id])
            } else {
                Err::<Quest, Error>(Error::QuestNotFound)
            },
    {
        match self.find_quest(id) {
            Some(i) => Ok(self.quests[i]),
            None => Err(Error::QuestNotFound),
        }
    }

    /// Whether a quest with this identifier is stored.
    pub fn quest_exists(&self, id: u64) -> (r: bool)
        requires
            self.inv(),
        ensures
            r == self@.quests.contains_key(id),
    {
        self.find_quest(id).is_some()
    }

    /// Whether the quest is currently accepting by status alone: stored and
    /// `Active`.
    pub fn is_quest_active(&self, id: u64) -> (r: bool)
        requires
            self.inv(),
        ensures
            r == (self@.quests.contains_key(id) && self@.quests[id].status == QuestStatus::Active),
    {
        match self.find_quest(id) {
            Some(i) => self.quests[i].status == QuestStatus::Active,
            None => false,
        }
    }

    /// Whether the quest has reached its participant limit.
    pub fn is_quest_full(&self, quest_id: u64) -> (r: Result<bool, Error>)
        requires
            self.inv(),
        ensures
            r == if self@.quests.contains_key(quest_id) {
                Ok::<bool, Error>(spec_is_quest_full(self@.quests[quest_id]))
            } else {
                Err::<bool, Error>(Error::QuestNotFound)
            },
    {
        match self.find_quest(quest_id) {
            Some(i) => Ok(is_quest_full(&self.quests[i])),
            None => Err(Error::QuestNotFound),
        }
    }

    /// Whether the quest's deadline has passed at time `now` (strictly).
    pub fn check_expired(&self, now: u64, quest_id: u64) -> (r: Result<bool, Error>)
        requires
            self.inv(),
        ensures
            r == if self@.quests.contains_key(quest_id) {
                Ok::<bool, Error>(spec_is_expired(self@.quests[quest_id], now))
            } else {
                Err::<bool, Error>(Error::QuestNotFound)
            },
    {
        match self.find_quest(quest_id) {
            Some(i) => Ok(check_expired(&self.quests[i], now)),
            None => Err(Error::QuestNotFound),
        }
    }

    /// Update a quest's status along the transition table (creator only).
    pub fn update_quest_status(&mut self, quest_id: u64, caller: u64, new_status: QuestStatus) -> (r:
        Result<(), Error>)
        requires
            old(self).inv(),
        ensures
            final(self).inv(),
            (final(self)@, r) == spec_update_quest_status(old(self)@, quest_id, caller, new_status),
    {
        let i = match self.find_quest(quest_id) {
            Some(i) => i,
            None => {
                return Err(Error::QuestNotFound);
            },
        };
        let q = self.quests[i];
        if q.creator != caller {
            return Err(Error::Unauthorized);
        }
        let allowed = match (q.status, new_status) {
            (QuestStatus::Active, QuestStatus::Paused) => true,
            (QuestStatus::Active, QuestStatus::Completed) => true,
            (QuestStatus::Active, QuestStatus::Expired) => true,
            (QuestStatus::Active, QuestStatus::Cancelled) => true,
            (QuestStatus::Paused, QuestStatus::Active) => true,
            (QuestStatus::Paused, QuestStatus::Expired) => true,
            _ => false,
        };
        if !allowed {
            return Err(Error::InvalidStatusTransition);
        }
        let q2 = Quest { status: new_status, ..q };
        self.set_quest_at(i, q2);
        proof {
            assert(self@ =~= spec_update_quest_status(old(self)@, quest_id, caller, new_status).0);
        }
        Ok(())
    }

    /// Pause an active quest (creator only).
    pub fn pause_quest(&mut self, quest_id: u64, caller: u64) -> (r: Result<(), Error>)
        requires
            old(self).inv(),
        ensures
            final(self).inv(),
            (final(self)@, r) == spec_update_quest_status(
                old(self)@,
                quest_id,
                caller,
                QuestStatus::Paused,
            ),
    {
        self.update_quest_status(quest_id, caller, QuestStatus::Paused)
    }

    /// Resume a paused quest (creator only).
    pub fn resume_quest(&mut self, quest_id: u64, caller: u64) -> (r: Result<(), Error>)
        requires
            old(self).inv(),
        ensures
            final(self).inv(),
            (final(self)@, r) == spec_update_quest_status(
                old(self)@,
                quest_id,
                caller,
                QuestStatus::Active,
            ),
    {
        self.update_quest_status(quest_id, caller, QuestStatus::Active)
    }

    /// Complete an active quest manually (creator only).
    pub fn complete_quest(&mut self, quest_id: u64, caller: u64) -> (r: Result<(), Error>)
        requires
            old(self).inv(),
        ensures
            final(self).inv(),
            (final(self)@, r) == spec_update_quest_status(
                old(self)@,
                quest_id,
                caller,
                QuestStatus::Completed,
            ),
    {
        self.update_quest_status(quest_id, caller, QuestStatus::Completed)
    }

    /// Force a quest to `Expired` (creator only); fails once the quest is
    /// already expired or completed.
    pub fn expire_quest(&mut self, quest_id: u64, caller: u64) -> (r: Result<(), Error>)
        requires
            old(self).inv(),
        ensures
            final(self).inv(),
            (final(self)@, r) == spec_expire_quest(old(self)@, quest_id, caller),
    {
        let i = match self.find_quest(quest_id) {
            Some(i) => i,
            None => {
                return Err(Error::QuestNotFound);
            },
        };
        let q = self.quests[i];
        if q.creator != caller {
            return Err(Error::Unauthorized);
        }
        if q.status == QuestStatus::Expired || q.status == QuestStatus::Completed {
            return Err(Error::InvalidStatusTransition);
        }
        let q2 = Quest { status: QuestStatus::Expired, ..q };
        self.set_quest_at(i, q2);
        proof {
            assert(self@ =~= spec_expire_quest(old(self)@, quest_id, caller).0);
        }
        Ok(())
    }

    /// Cancel a quest (creator only); fails once the quest completed or
    /// expired. Cancellation unlocks escrow withdrawal without payout.
    pub fn cancel_quest(&mut self, quest_id: u64, caller: u64) -> (r: Result<(), Error>)
        requires
            old(self).inv(),
        ensures
            final(self).inv(),
            (final(self)@, r) == spec_cancel_quest(old(self)@, quest_id, caller),
    {
        let i = match self.find_quest(quest_id) {
            Some(i) => i,
            None => {
                return Err(Error::QuestNotFound);
            },
        };
        let q = self.quests[i];
        if q.creator != caller {
            return Err(Error::Unauthorized);
        }
        if q.status == QuestStatus::Completed || q.status == QuestStatus::Expired {
            return Err(Error::InvalidStatusTransition);
        }
        let q2 = Quest { status: QuestStatus::Cancelled, ..q };
        self.set_quest_at(i, q2);
        proof {
            assert(self@ =~= spec_cancel_quest(old(self)@, quest_id, caller).0);
        }
        Ok(())
    }

    /// Replace the quest record at index `i` by one with the same
    /// identifier.
    pub(crate) fn set_quest_at(&mut self, i: usize, q2: Quest)
        requires
            old(self).keys_unique(),
            i < old(self).quests@.len(),
            q2.id == old(self).quests@[i as int].id,
        ensures
            final(self).keys_unique(),
            final(self)@ == (StateView {
                quests: old(self)@.quests.insert(q2.id, q2),
                ..old(self)@
            }),
            final(self).quests@ == old(self).quests@.update(i as int, q2),
            final(self).submissions@ == old(self).submissions@,
            final(self).escrows@ == old(self).escrows@,
            final(self).stats@ == old(self).stats@,
    {
        proof {
            lemma_distinct_after_update(self.quests@, quest_key(), i as int, q2);
            lemma_assoc_update(self.quests@, quest_key(), i as int, q2);
        }
        self.quests.set(i, q2);
        proof {
            assert(self@ =~= StateView { quests: old(self)@.quests.insert(q2.id, q2), ..old(self)@ });
        }
    }
}

} // verus!
