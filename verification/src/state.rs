//! The contract state: one store per record family plus the singleton
//! configuration, viewed as maps keyed by each family's own key space, and
//! the well-formedness invariant every operation preserves.

use vstd::prelude::*;

use crate::store::assoc_map;
use crate::store::distinct_keys;
use crate::store::lemma_assoc_contains;
use crate::store::lemma_assoc_index;
use crate::types::ContractConfig;
use crate::types::EscrowAccount;
use crate::types::Quest;
use crate::types::Submission;
use crate::types::SubmissionStatus;
use crate::types::SubmissionView;
use crate::types::UserStats;
use crate::types::UserStatsView;

verus! {

/// Key of a quest record.
pub open spec fn quest_key() -> spec_fn(Quest) -> u64 {
    |q: Quest| q.id
}

/// Key of a submission record: at most one submission per submitter per quest.
pub open spec fn submission_key() -> spec_fn(SubmissionView) -> (u64, u64) {
    |s: SubmissionView| (s.quest_id, s.submitter)
}

/// Key of an escrow account.
pub open spec fn escrow_key() -> spec_fn(EscrowAccount) -> u64 {
    |e: EscrowAccount| e.quest_id
}

/// Key of a user statistics record.
pub open spec fn stats_key() -> spec_fn(UserStatsView) -> u64 {
    |u: UserStatsView| u.address
}

/// Views of a sequence of submissions.
pub open spec fn subs_view(s: Seq<Submission>) -> Seq<SubmissionView> {
    s.map_values(|x: Submission| x@)
}

/// Views of a sequence of user statistics records.
pub open spec fn stats_view(s: Seq<UserStats>) -> Seq<UserStatsView> {
    s.map_values(|x: UserStats| x@)
}

/// Lifetime totals of an escrow account's fund movements. They exist only in
/// the proofs: together with the balance they witness that payouts never
/// exceed deposits.
pub struct FundFlow {
    /// Sum of all deposits into the account
    pub deposited: int,
    /// Sum of all reward payouts out of the account
    pub paid_out: int,
    /// Sum of all withdrawals of unclaimed funds by the creator
    pub withdrawn: int,
}

/// Mathematical view of the whole contract state.
#[verifier::ext_equal]
pub struct StateView {
    /// Quests by quest identifier
    pub quests: Map<u64, Quest>,
    /// Submissions by (quest identifier, submitter principal)
    pub submissions: Map<(u64, u64), SubmissionView>,
    /// Escrow accounts by quest identifier
    pub escrows: Map<u64, EscrowAccount>,
    /// User statistics by user principal
    pub stats: Map<u64, UserStatsView>,
    /// The singleton configuration, absent until initialization
    pub config: Option<ContractConfig>,
    /// Lifetime fund totals of each escrow account
    pub funds: Map<u64, FundFlow>,
}

/// The state before any operation ran.
pub open spec fn empty_state() -> StateView {
    StateView {
        quests: Map::empty(),
        submissions: Map::empty(),
        escrows: Map::empty(),
        stats: Map::empty(),
        config: None,
        funds: Map::empty(),
    }
}

/// Escrow balance of a quest; an account missing from the store holds zero.
pub open spec fn spec_balance_of(s: StateView, quest_id: u64) -> i128 {
    if s.escrows.contains_key(quest_id) {
        s.escrows[quest_id].balance
    } else {
        0
    }
}

/// Lifetime fund totals of a quest; all zero before the first deposit.
pub open spec fn spec_funds_of(s: StateView, quest_id: u64) -> FundFlow {
    if s.funds.contains_key(quest_id) {
        s.funds[quest_id]
    } else {
        FundFlow { deposited: 0, paid_out: 0, withdrawn: 0 }
    }
}

/// The all-zero digest, the one proof hash rejected as a sentinel.
pub open spec fn all_zero(h: Seq<u8>) -> bool {
    forall|i: int| 0 <= i < h.len() ==> h[i] == 0
}

/// A stored quest is keyed by its own identifier, promises a positive reward
/// to a positive number of participants, and never holds more approved
/// claims than its participant limit.
pub open spec fn quest_ok(id: u64, q: Quest) -> bool {
    &&& q.id == id
    &&& q.reward_amount > 0
    &&& q.max_participants > 0
    &&& q.total_claims <= q.max_participants
}

/// A stored escrow account is keyed by its quest and never holds a negative
/// balance.
pub open spec fn escrow_ok(id: u64, e: EscrowAccount) -> bool {
    &&& e.quest_id == id
    &&& e.balance >= 0
}

/// The fund totals account for the balance: everything deposited is either
/// still held, paid out as rewards, or withdrawn by the creator.
pub open spec fn funds_ok(f: FundFlow, balance: i128) -> bool {
    &&& f.paid_out >= 0
    &&& f.withdrawn >= 0
    &&& f.deposited == balance + f.paid_out + f.withdrawn
}

/// A stored submission is keyed by its quest and submitter, belongs to a
/// stored quest, carries a valid 32-byte digest, and is never persisted at
/// `Approved`: approval advances it to `Paid` in the same atomic step.
pub open spec fn submission_ok(k: (u64, u64), s: SubmissionView, quests: Map<u64, Quest>) -> bool {
    &&& s.quest_id == k.0
    &&& s.submitter == k.1
    &&& quests.contains_key(k.0)
    &&& s.proof_hash.len() == 32
    &&& !all_zero(s.proof_hash)
    &&& s.status != SubmissionStatus::Approved
}

/// Stored user statistics are keyed by the user, the level is derived from
/// the experience points, and the badge set has no duplicates.
pub open spec fn stats_ok(a: u64, u: UserStatsView) -> bool {
    &&& u.address == a
    &&& u.level == crate::reputation::spec_level(u.total_xp)
    &&& u.badges.no_duplicates()
}

impl StateView {
    /// Well-formedness of the state, preserved by every operation.
    pub open spec fn wf(self) -> bool {
        &&& (forall|id: u64| #[trigger] self.quests.contains_key(id) ==> quest_ok(
            id,
            self.quests[id],
        ))
        &&& (forall|id: u64| #[trigger] self.escrows.contains_key(id) ==> escrow_ok(
            id,
            self.escrows[id],
        ))
        &&& (forall|id: u64|
            self.escrows.contains_key(id) <==> #[trigger] self.funds.contains_key(id))
        &&& (forall|id: u64| #[trigger] self.funds.contains_key(id) ==> funds_ok(
            self.funds[id],
            spec_balance_of(self, id),
        ))
        &&& (forall|k: (u64, u64)| #[trigger] self.submissions.contains_key(k) ==> submission_ok(
            k,
            self.submissions[k],
            self.quests,
        ))
        &&& (forall|a: u64| #[trigger] self.stats.contains_key(a) ==> stats_ok(a, self.stats[a]))
    }
}

/// The quest/bounty marketplace state machine.
///
/// Every operation takes the already-authenticated caller (and, where time
/// matters, the current ledger time) as plain values, returns a typed error
/// rather than panicking, and on error leaves the state unchanged — with the
/// one documented exception of lazy expiry during proof submission.
pub struct EarnQuestContract {
    pub(crate) quests: Vec<Quest>,
    pub(crate) submissions: Vec<Submission>,
    pub(crate) escrows: Vec<EscrowAccount>,
    pub(crate) stats: Vec<UserStats>,
    pub(crate) config: Option<ContractConfig>,
    pub(crate) funds: Ghost<Map<u64, FundFlow>>,
}

impl View for EarnQuestContract {
    type V = StateView;

    open(crate) spec fn view(&self) -> StateView {
        StateView {
            quests: assoc_map(self.quests@, quest_key()),
            submissions: assoc_map(subs_view(self.submissions@), submission_key()),
            escrows: assoc_map(self.escrows@, escrow_key()),
            stats: assoc_map(stats_view(self.stats@), stats_key()),
            config: self.config,
            funds: self.funds@,
        }
    }
}

impl EarnQuestContract {
    /// Each store holds at most one record per key.
    pub open(crate) spec fn keys_unique(&self) -> bool {
        &&& distinct_keys(self.quests@, quest_key())
        &&& distinct_keys(subs_view(self.submissions@), submission_key())
        &&& distinct_keys(self.escrows@, escrow_key())
        &&& distinct_keys(stats_view(self.stats@), stats_key())
    }

    /// Validity of the state: unique keys in every store and a well-formed
    /// view. Established by [`EarnQuestContract::new`] and preserved by
    /// every operation.
    pub open spec fn inv(&self) -> bool {
        &&& self.keys_unique()
        &&& self@.wf()
    }

    /// A fresh, uninitialized contract state with no records.
    pub fn new() -> (c: Self)
        ensures
            c.inv(),
            c@ == empty_state(),
    {
        let c = EarnQuestContract {
            quests: Vec::new(),
            submissions: Vec::new(),
            escrows: Vec::new(),
            stats: Vec::new(),
            config: None,
            funds: Ghost(Map::empty()),
        };
        proof {
            assert(subs_view(c.submissions@) =~= Seq::<SubmissionView>::empty());
            assert(stats_view(c.stats@) =~= Seq::<UserStatsView>::empty());
            assert(c@ =~= empty_state());
        }
        c
    }

    /// Index of the quest with identifier `id`, if stored.
    pub(crate) fn find_quest(&self, id: u64) -> (r: Option<usize>)
        requires
            self.keys_unique(),
        ensures
            match r {
                Some(i) => {
                    &&& i < self.quests@.len()
                    &&& self.quests@[i as int].id == id
                    &&& self@.quests.contains_key(id)
                    &&& self@.quests[id] == self.quests@[i as int]
                },
                None => !self@.quests.contains_key(id),
            },
    {
        let mut i: usize = 0;
        while i < self.quests.len()
            invariant
                i <= self.quests@.len(),
                forall|j: int| 0 <= j < i ==> self.quests@[j].id != id,
                self.keys_unique(),
            decreases self.quests@.len() - i,
        {
            if self.quests[i].id == id {
                proof {
                    lemma_assoc_index(self.quests@, quest_key(), i as int);
                }
                return Some(i);
            }
            i += 1;
        }
        proof {
            lemma_assoc_contains(self.quests@, quest_key(), id);
        }
        None
    }

    /// Index of the submission for `(quest_id, submitter)`, if stored.
    pub(crate) fn find_submission(&self, quest_id: u64, submitter: u64) -> (r: Option<usize>)
        requires
            self.keys_unique(),
        ensures
            match r {
                Some(i) => {
                    &&& i < self.submissions@.len()
                    &&& self.submissions@[i as int].quest_id == quest_id
                    &&& self.submissions@[i as int].submitter == submitter
                    &&& self@.submissions.contains_key((quest_id, submitter))
                    &&& self@.submissions[(quest_id, submitter)] == self.submissions@[i as int]@
                },
                None => !self@.submissions.contains_key((quest_id, submitter)),
            },
    {
        let mut i: usize = 0;
        while i < self.submissions.len()
            invariant
                i <= self.submissions@.len(),
                forall|j: int| 0 <= j < i ==> !(self.submissions@[j].quest_id == quest_id
                    && self.submissions@[j].submitter == submitter),
                self.keys_unique(),
            decreases self.submissions@.len() - i,
        {
            if self.submissions[i].quest_id == quest_id && self.submissions[i].submitter
                == submitter {
                proof {
                    assert(subs_view(self.submissions@)[i as int] == self.submissions@[i as int]@);
                    lemma_assoc_index(subs_view(self.submissions@), submission_key(), i as int);
                }
                return Some(i);
            }
            i += 1;
        }
        proof {
            lemma_assoc_contains(
                subs_view(self.submissions@),
                submission_key(),
                (quest_id, submitter),
            );
        }
        None
    }

    /// Index of the escrow account of `quest_id`, if stored.
    pub(crate) fn find_escrow(&self, quest_id: u64) -> (r: Option<usize>)
        requires
            self.keys_unique(),
        ensures
            match r {
                Some(i) => {
                    &&& i < self.escrows@.len()
                    &&& self.escrows@[i as int].quest_id == quest_id
                    &&& self@.escrows.contains_key(quest_id)
                    &&& self@.escrows[quest_id] == self.escrows@[i as int]
                },
                None => !self@.escrows.contains_key(quest_id),
            },
    {
        let mut i: usize = 0;
        while i < self.escrows.len()
            invariant
                i <= self.escrows@.len(),
                forall|j: int| 0 <= j < i ==> self.escrows@[j].quest_id != quest_id,
                self.keys_unique(),
            decreases self.escrows@.len() - i,
        {
            if self.escrows[i].quest_id == quest_id {
                proof {
                    lemma_assoc_index(self.escrows@, escrow_key(), i as int);
                }
                return Some(i);
            }
            i += 1;
        }
        proof {
            lemma_assoc_contains(self.escrows@, escrow_key(), quest_id);
        }
        None
    }

    /// Index of the statistics record of `user`, if stored.
    pub(crate) fn find_stats(&self, user: u64) -> (r: Option<usize>)
        requires
            self.keys_unique(),
        ensures
            match r {
                Some(i) => {
                    &&& i < self.stats@.len()
                    &&& self.stats@[i as int].address == user
                    &&& self@.stats.contains_key(user)
                    &&& self@.stats[user] == self.stats@[i as int]@
                },
                None => !self@.stats.contains_key(user),
            },
    {
        let mut i: usize = 0;
        while i < self.stats.len()
            invariant
                i <= self.stats@.len(),
                forall|j: int| 0 <= j < i ==> self.stats@[j].address != user,
                self.keys_unique(),
            decreases self.stats@.len() - i,
        {
            if self.stats[i].address == user {
                proof {
                    assert(stats_view(self.stats@)[i as int] == self.stats@[i as int]@);
                    lemma_assoc_index(stats_view(self.stats@), stats_key(), i as int);
                }
                return Some(i);
            }
            i += 1;
        }
        proof {
            lemma_assoc_contains(stats_view(self.stats@), stats_key(), user);
        }
        None
    }
}

/// Replacing one submission record replaces its view.
pub proof fn lemma_subs_view_update(s: Seq<Submission>, i: int, v: Submission)
    requires
        0 <= i < s.len(),
    ensures
        subs_view(s.update(i, v)) == subs_view(s).update(i, v@),
{
    assert(subs_view(s.update(i, v)) =~= subs_view(s).update(i, v@));
}

/// Appending one submission record appends its view.
pub proof fn lemma_subs_view_push(s: Seq<Submission>, v: Submission)
    ensures
        subs_view(s.push(v)) == subs_view(s).push(v@),
{
    assert(subs_view(s.push(v)) =~= subs_view(s).push(v@));
}

/// Replacing one statistics record replaces its view.
pub proof fn lemma_stats_view_update(s: Seq<UserStats>, i: int, v: UserStats)
    requires
        0 <= i < s.len(),
    ensures
        stats_view(s.update(i, v)) == stats_view(s).update(i, v@),
{
    assert(stats_view(s.update(i, v)) =~= stats_view(s).update(i, v@));
}

/// Appending one statistics record appends its view.
pub proof fn lemma_stats_view_push(s: Seq<UserStats>, v: UserStats)
    ensures
        stats_view(s.push(v)) == stats_view(s).push(v@),
{
    assert(stats_view(s.push(v)) =~= stats_view(s).push(v@));
}

} // verus!
