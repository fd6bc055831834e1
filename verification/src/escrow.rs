//! Escrow ledger: deposits by the creator, payout debits for approved
//! submissions, and withdrawal of unclaimed funds once a quest is terminal.
//!
//! The actual token movement is the host's: the ledger here is the record of
//! what the contract holds per quest, and it never goes negative. The ghost
//! fund totals witness that the payouts of a quest never exceed its
//! deposits.

use vstd::prelude::*;

use crate::state::escrow_key;
use crate::state::spec_balance_of;
use crate::state::spec_funds_of;
use crate::state::EarnQuestContract;
use crate::state::FundFlow;
use crate::state::StateView;
use crate::store::lemma_assoc_contains;
use crate::store::lemma_assoc_push;
use crate::store::lemma_assoc_update;
use crate::store::lemma_distinct_after_push;
use crate::store::lemma_distinct_after_update;
use crate::types::Error;
use crate::types::EscrowAccount;
use crate::types::QuestStatus;
use vstd::pervasive::VecAdditionalExecFns;

verus! {

/// State and result of a deposit: creator-only, positive amounts, and only
/// while the quest is active or paused. Deposits are additive.
pub open spec fn spec_deposit_escrow(s: StateView, quest_id: u64, depositor: u64, amount: i128) -> (
    StateView,
    Result<(), Error>,
) {
    if amount <= 0 {
        (s, Err(Error::InvalidEscrowAmount))
    } else if !s.quests.contains_key(quest_id) {
        (s, Err(Error::QuestNotFound))
    } else {
        let q = s.quests[quest_id];
        if q.creator != depositor {
            (s, Err(Error::Unauthorized))
        } else if q.status != QuestStatus::Active && q.status != QuestStatus::Paused {
            (s, Err(Error::QuestNotActive))
        } else {
            let bal = spec_balance_of(s, quest_id);
            let f = spec_funds_of(s, quest_id);
            (
                StateView {
                    escrows: s.escrows.insert(
                        quest_id,
                        EscrowAccount { quest_id, balance: (bal + amount) as i128 },
                    ),
                    funds: s.funds.insert(
                        quest_id,
                        FundFlow { deposited: f.deposited + amount, ..f },
                    ),
                    ..s
                },
                Ok(()),
            )
        }
    }
}

/// State and result of a payout debit: the quest's reward amount leaves the
/// escrow account, and only if the balance covers it.
pub open spec fn spec_process_payout(s: StateView, quest_id: u64) -> (
    StateView,
    Result<(), Error>,
) {
    if !s.quests.contains_key(quest_id) {
        (s, Err(Error::QuestNotFound))
    } else {
        let q = s.quests[quest_id];
        let bal = spec_balance_of(s, quest_id);
        if bal < q.reward_amount {
            (s, Err(Error::InsufficientEscrow))
        } else {
            let f = spec_funds_of(s, quest_id);
            (
                StateView {
                    escrows: s.escrows.insert(
                        quest_id,
                        EscrowAccount { quest_id, balance: (bal - q.reward_amount) as i128 },
                    ),
                    funds: s.funds.insert(
                        quest_id,
                        FundFlow { paid_out: f.paid_out + q.reward_amount, ..f },
                    ),
                    ..s
                },
                Ok(()),
            )
        }
    }
}

/// State and result of withdrawing the unclaimed funds: creator-only, only
/// once the quest is terminal, and it always drains the account to exactly
/// zero — which is why a second withdrawal must fail.
pub open spec fn spec_withdraw_unclaimed(s: StateView, quest_id: u64, creator: u64) -> (
    StateView,
    Result<i128, Error>,
) {
    if !s.quests.contains_key(quest_id) {
        (s, Err(Error::QuestNotFound))
    } else {
        let q = s.quests[quest_id];
        if q.creator != creator {
            (s, Err(Error::Unauthorized))
        } else if q.status != QuestStatus::Completed && q.status != QuestStatus::Expired
            && q.status != QuestStatus::Cancelled {
            (s, Err(Error::QuestStillActive))
        } else {
            let bal = spec_balance_of(s, quest_id);
            if bal <= 0 {
                (s, Err(Error::NoEscrowBalance))
            } else {
                let f = spec_funds_of(s, quest_id);
                (
                    StateView {
                        escrows: s.escrows.insert(
                            quest_id,
                            EscrowAccount { quest_id, balance: 0 },
                        ),
                        funds: s.funds.insert(
                            quest_id,
                            FundFlow { withdrawn: f.withdrawn + bal, ..f },
                        ),
                        ..s
                    },
                    Ok(bal),
                )
            }
        }
    }
}

impl EarnQuestContract {
    /// Deposit `amount` into the escrow of `quest_id` (creator only, while
    /// the quest is active or paused). The host is expected to move the
    /// tokens from the depositor into the contract's custody in the same
    /// transaction.
    ///
    /// The balance bound is a machine limit: the host's token supply could
    /// never reach it, but a caller must not overflow the account.
    pub fn deposit_escrow(&mut self, quest_id: u64, depositor: u64, amount: i128) -> (r: Result<
        (),
        Error,
    >)
        requires
            old(self).inv(),
            spec_balance_of(old(self)@, quest_id) + amount <= i128::MAX,
        ensures
            final(self).inv(),
            (final(self)@, r) == spec_deposit_escrow(old(self)@, quest_id, depositor, amount),
    {
        if amount <= 0 {
            return Err(Error::InvalidEscrowAmount);
        }
        let q = match self.find_quest(quest_id) {
            Some(i) => self.quests[i],
            None => {
                return Err(Error::QuestNotFound);
            },
        };
        if q.creator != depositor {
            return Err(Error::Unauthorized);
        }
        if q.status != QuestStatus::Active && q.status != QuestStatus::Paused {
            return Err(Error::QuestNotActive);
        }
        match self.find_escrow(quest_id) {
            Some(i) => {
                let bal = self.escrows[i].balance;
                let e2 = EscrowAccount { quest_id, balance: bal + amount };
                self.set_escrow_at(i, e2);
                let f = Ghost(self.funds@[quest_id]);
                self.funds = Ghost(
                    self.funds@.insert(
                        quest_id,
                        FundFlow { deposited: f@.deposited + amount, ..f@ },
                    ),
                );
            },
            None => {
                let e2 = EscrowAccount { quest_id, balance: amount };
                self.push_escrow(e2);
                self.funds = Ghost(
                    self.funds@.insert(
                        quest_id,
                        FundFlow { deposited: amount as int, paid_out: 0, withdrawn: 0 },
                    ),
                );
            },
        }
        proof {
            assert(self@ =~= spec_deposit_escrow(old(self)@, quest_id, depositor, amount).0);
        }
        Ok(())
    }

    /// The escrow balance of a quest; zero before the first deposit.
    pub fn get_escrow_balance(&self, quest_id: u64) -> (r: i128)
        requires
            self.inv(),
        ensures
            r == spec_balance_of(self@, quest_id),
    {
        match self.find_escrow(quest_id) {
            Some(i) => self.escrows[i].balance,
            None => 0,
        }
    }

    /// Validate that the escrow of `quest_id` covers `required_amount`.
    /// A pure read: no state changes.
    pub fn validate_escrow_sufficient(&self, quest_id: u64, required_amount: i128) -> (r: Result<
        (),
        Error,
    >)
        requires
            self.inv(),
        ensures
            r == if spec_balance_of(self@, quest_id) < required_amount {
                Err::<(), Error>(Error::InsufficientEscrow)
            } else {
                Ok::<(), Error>(())
            },
    {
        let balance = self.get_escrow_balance(quest_id);
        if balance < required_amount {
            return Err(Error::InsufficientEscrow);
        }
        Ok(())
    }

    /// Debit one reward payout from the escrow of `quest_id`. The host is
    /// expected to move the reward from the contract's custody to the
    /// recipient in the same transaction.
    pub(crate) fn process_payout(&mut self, quest_id: u64) -> (r: Result<(), Error>)
        requires
            old(self).inv(),
        ensures
            final(self).inv(),
            (final(self)@, r) == spec_process_payout(old(self)@, quest_id),
            final(self).quests@ == old(self).quests@,
            final(self).submissions@ == old(self).submissions@,
            final(self).stats@ == old(self).stats@,
            final(self).config == old(self).config,
    {
        let q = match self.find_quest(quest_id) {
            Some(i) => self.quests[i],
            None => {
                return Err(Error::QuestNotFound);
            },
        };
        match self.find_escrow(quest_id) {
            Some(i) => {
                let bal = self.escrows[i].balance;
                if bal < q.reward_amount {
                    return Err(Error::InsufficientEscrow);
                }
                let e2 = EscrowAccount { quest_id, balance: bal - q.reward_amount };
                self.set_escrow_at(i, e2);
                let f = Ghost(self.funds@[quest_id]);
                self.funds = Ghost(
                    self.funds@.insert(
                        quest_id,
                        FundFlow { paid_out: f@.paid_out + q.reward_amount, ..f@ },
                    ),
                );
                proof {
                    assert(self@ =~= spec_process_payout(old(self)@, quest_id).0);
                }
                Ok(())
            },
            None => {
                // A missing account holds zero, and a stored quest's reward
                // is positive, so the balance cannot cover it.
                Err(Error::InsufficientEscrow)
            },
        }
    }

    /// Withdraw all unclaimed escrow funds of a terminal quest back to its
    /// creator and drain the account to zero. The host is expected to move
    /// the returned amount from custody to the creator in the same
    /// transaction.
    pub fn withdraw_unclaimed(&mut self, quest_id: u64, creator: u64) -> (r: Result<i128, Error>)
        requires
            old(self).inv(),
        ensures
            final(self).inv(),
            (final(self)@, r) == spec_withdraw_unclaimed(old(self)@, quest_id, creator),
    {
        let q = match self.find_quest(quest_id) {
            Some(i) => self.quests[i],
            None => {
                return Err(Error::QuestNotFound);
            },
        };
        if q.creator != creator {
            return Err(Error::Unauthorized);
        }
        if q.status != QuestStatus::Completed && q.status != QuestStatus::Expired && q.status
            != QuestStatus::Cancelled {
            return Err(Error::QuestStillActive);
        }
        match self.find_escrow(quest_id) {
            Some(i) => {
                let bal = self.escrows[i].balance;
                if bal <= 0 {
                    return Err(Error::NoEscrowBalance);
                }
                let e2 = EscrowAccount { quest_id, balance: 0 };
                self.set_escrow_at(i, e2);
                let f = Ghost(self.funds@[quest_id]);
                self.funds = Ghost(
                    self.funds@.insert(quest_id, FundFlow { withdrawn: f@.withdrawn + bal, ..f@ }),
                );
                proof {
                    assert(self@ =~= spec_withdraw_unclaimed(old(self)@, quest_id, creator).0);
                }
                Ok(bal)
            },
            None => Err(Error::NoEscrowBalance),
        }
    }

    /// Replace the escrow record at index `i` by one for the same quest.
    pub(crate) fn set_escrow_at(&mut self, i: usize, e2: EscrowAccount)
        requires
            old(self).keys_unique(),
            i < old(self).escrows@.len(),
            e2.quest_id == old(self).escrows@[i as int].quest_id,
        ensures
            final(self).keys_unique(),
            final(self)@ == (StateView {
                escrows: old(self)@.escrows.insert(e2.quest_id, e2),
                ..old(self)@
            }),
            final(self).escrows@ == old(self).escrows@.update(i as int, e2),
            final(self).quests@ == old(self).quests@,
            final(self).submissions@ == old(self).submissions@,
            final(self).stats@ == old(self).stats@,
            final(self).config == old(self).config,
            final(self).funds == old(self).funds,
    {
        proof {
            lemma_distinct_after_update(self.escrows@, escrow_key(), i as int, e2);
            lemma_assoc_update(self.escrows@, escrow_key(), i as int, e2);
        }
        self.escrows.set(i, e2);
        proof {
            assert(self@ =~= (StateView {
                escrows: old(self)@.escrows.insert(e2.quest_id, e2),
                ..old(self)@
            }));
        }
    }

    /// Append an escrow record for a quest that has none yet.
    pub(crate) fn push_escrow(&mut self, e2: EscrowAccount)
        requires
            old(self).keys_unique(),
            !old(self)@.escrows.contains_key(e2.quest_id),
        ensures
            final(self).keys_unique(),
            final(self)@ == (StateView {
                escrows: old(self)@.escrows.insert(e2.quest_id, e2),
                ..old(self)@
            }),
            final(self).quests@ == old(self).quests@,
            final(self).submissions@ == old(self).submissions@,
            final(self).stats@ == old(self).stats@,
            final(self).config == old(self).config,
            final(self).funds == old(self).funds,
    {
        proof {
            lemma_assoc_contains(self.escrows@, escrow_key(), e2.quest_id);
            lemma_distinct_after_push(self.escrows@, escrow_key(), e2);
            lemma_assoc_push(self.escrows@, escrow_key(), e2);
        }
        self.escrows.push(e2);
        proof {
            assert(self@ =~= (StateView {
                escrows: old(self)@.escrows.insert(e2.quest_id, e2),
                ..old(self)@
            }));
        }
    }
}

} // verus!
