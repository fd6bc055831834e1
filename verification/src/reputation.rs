//! Reputation ledger: experience points accrue on each successful payout,
//! the level is a step function of the points, and badges are granted
//! idempotently by the admin.

use vstd::prelude::*;

use crate::state::lemma_stats_view_push;
use crate::state::lemma_stats_view_update;
use crate::state::stats_key;
use crate::state::stats_view;
use crate::state::EarnQuestContract;
use crate::state::StateView;
use crate::store::lemma_assoc_contains;
use crate::store::lemma_assoc_push;
use crate::store::lemma_assoc_update;
use crate::store::lemma_distinct_after_push;
use crate::store::lemma_distinct_after_update;
use crate::types::Badge;
use crate::types::Error;
use crate::types::UserStats;
use crate::types::UserStatsView;
use vstd::pervasive::VecAdditionalExecFns;

verus! {

/// Experience points awarded for each approved and paid submission.
pub const XP_PER_QUEST: u64 = 100;

/// Experience points at which a user reaches level 2.
pub const LEVEL_2_XP: u64 = 300;

/// Experience points at which a user reaches level 3.
pub const LEVEL_3_XP: u64 = 600;

/// Experience points at which a user reaches level 4.
pub const LEVEL_4_XP: u64 = 1000;

/// Experience points at which a user reaches level 5, the highest.
pub const LEVEL_5_XP: u64 = 1500;

/// The level a user holds at `xp` experience points: a monotonic step
/// function over the level thresholds.
pub open spec fn spec_level(xp: u64) -> u32 {
    if xp >= LEVEL_5_XP {
        5
    } else if xp >= LEVEL_4_XP {
        4
    } else if xp >= LEVEL_3_XP {
        3
    } else if xp >= LEVEL_2_XP {
        2
    } else {
        1
    }
}

/// Calculate a user's level from their total experience points.
pub fn calculate_level(xp: u64) -> (level: u32)
    ensures
        level == spec_level(xp),
{
    if xp >= LEVEL_5_XP {
        5
    } else if xp >= LEVEL_4_XP {
        4
    } else if xp >= LEVEL_3_XP {
        3
    } else if xp >= LEVEL_2_XP {
        2
    } else {
        1
    }
}

/// Statistics of a user that has not earned anything yet.
pub open spec fn spec_default_stats(user: u64) -> UserStatsView {
    UserStatsView {
        address: user,
        total_xp: 0,
        level: 1,
        quests_completed: 0,
        badges: Seq::empty(),
    }
}

/// Statistics of `user` in state `s`; zero-valued defaults before the first
/// award or badge grant.
pub open spec fn spec_stats_of(s: StateView, user: u64) -> UserStatsView {
    if s.stats.contains_key(user) {
        s.stats[user]
    } else {
        spec_default_stats(user)
    }
}

/// Addition on experience points: pure accrual that stops at the counter's
/// ceiling rather than failing.
pub open spec fn spec_sat_add_u64(a: u64, b: u64) -> u64 {
    if a + b > u64::MAX {
        u64::MAX
    } else {
        (a + b) as u64
    }
}

/// Addition on the completed-quest counter, saturating like the points.
pub open spec fn spec_sat_add_u32(a: u32, b: u32) -> u32 {
    if a + b > u32::MAX {
        u32::MAX
    } else {
        (a + b) as u32
    }
}

/// The statistics map after `user` is awarded `amount` experience points:
/// points and the completed-quest counter accrue, the level is recomputed,
/// badges are untouched. Creates the record on first award.
pub open spec fn spec_award_xp(
    stats: Map<u64, UserStatsView>,
    user: u64,
    amount: u64,
) -> Map<u64, UserStatsView> {
    let prior = if stats.contains_key(user) {
        stats[user]
    } else {
        spec_default_stats(user)
    };
    let xp = spec_sat_add_u64(prior.total_xp, amount);
    stats.insert(
        user,
        UserStatsView {
            address: user,
            total_xp: xp,
            level: spec_level(xp),
            quests_completed: spec_sat_add_u32(prior.quests_completed, 1),
            badges: prior.badges,
        },
    )
}

/// The statistics map after `admin` grants `badge` to `user`: idempotent —
/// a badge already held changes nothing. Creates the record on first grant.
pub open spec fn spec_grant_badge(s: StateView, admin: u64, user: u64, badge: Badge) -> (
    StateView,
    Result<(), Error>,
) {
    match s.config {
        None => (s, Err(Error::NotInitialized)),
        Some(c) => {
            if c.admin != admin {
                (s, Err(Error::Unauthorized))
            } else {
                let prior = spec_stats_of(s, user);
                let granted = if prior.badges.contains(badge) {
                    prior
                } else {
                    UserStatsView { badges: prior.badges.push(badge), ..prior }
                };
                (StateView { stats: s.stats.insert(user, granted), ..s }, Ok(()))
            }
        },
    }
}

/// An owned copy of a badge list.
fn copy_badges(v: &Vec<Badge>) -> (r: Vec<Badge>)
    ensures
        r@ == v@,
{
    let mut r: Vec<Badge> = Vec::new();
    let mut i: usize = 0;
    while i < v.len()
        invariant
            i <= v@.len(),
            r@ == v@.subrange(0, i as int),
        decreases v@.len() - i,
    {
        r.push(v[i]);
        proof {
            assert(r@ =~= v@.subrange(0, i + 1));
        }
        i += 1;
    }
    proof {
        assert(v@.subrange(0, v@.len() as int) =~= v@);
    }
    r
}

/// Whether a badge list holds `badge`.
fn badges_contain(v: &Vec<Badge>, badge: Badge) -> (r: bool)
    ensures
        r == v@.contains(badge),
{
    let mut i: usize = 0;
    while i < v.len()
        invariant
            i <= v@.len(),
            forall|j: int| 0 <= j < i ==> v@[j] != badge,
        decreases v@.len() - i,
    {
        if v[i] == badge {
            return true;
        }
        i += 1;
    }
    false
}

impl EarnQuestContract {
    /// Get a user's reputation statistics; zero-valued defaults for a user
    /// with no record yet.
    pub fn get_user_stats(&self, user: u64) -> (r: UserStats)
        requires
            self.inv(),
        ensures
            r@ == spec_stats_of(self@, user),
    {
        match self.find_stats(user) {
            Some(i) => {
                let prior = &self.stats[i];
                UserStats {
                    address: prior.address,
                    total_xp: prior.total_xp,
                    level: prior.level,
                    quests_completed: prior.quests_completed,
                    badges: copy_badges(&prior.badges),
                }
            },
            None => UserStats {
                address: user,
                total_xp: 0,
                level: 1,
                quests_completed: 0,
                badges: Vec::new(),
            },
        }
    }

    /// Award experience points to `user` and update their level and
    /// completed-quest counter. Pure accrual: it never fails, and it creates
    /// the record on first award.
    pub(crate) fn award_xp(&mut self, user: u64, amount: u64)
        requires
            old(self).inv(),
        ensures
            final(self).inv(),
            final(self)@ == (StateView {
                stats: spec_award_xp(old(self)@.stats, user, amount),
                ..old(self)@
            }),
            final(self).quests@ == old(self).quests@,
            final(self).submissions@ == old(self).submissions@,
            final(self).escrows@ == old(self).escrows@,
            final(self).config == old(self).config,
            final(self).funds == old(self).funds,
    {
        match self.find_stats(user) {
            Some(i) => {
                let prior_xp = self.stats[i].total_xp;
                let prior_qc = self.stats[i].quests_completed;
                let badges = copy_badges(&self.stats[i].badges);
                let xp = if prior_xp > u64::MAX - amount {
                    u64::MAX
                } else {
                    prior_xp + amount
                };
                let qc = if prior_qc == u32::MAX {
                    u32::MAX
                } else {
                    prior_qc + 1
                };
                let level = calculate_level(xp);
                let updated = UserStats {
                    address: user,
                    total_xp: xp,
                    level,
                    quests_completed: qc,
                    badges,
                };
                self.set_stats_at(i, updated);
            },
            None => {
                let xp = amount;
                let level = calculate_level(xp);
                let created = UserStats {
                    address: user,
                    total_xp: xp,
                    level,
                    quests_completed: 1,
                    badges: Vec::new(),
                };
                self.push_stats(created);
            },
        }
        proof {
            assert(self@ =~= (StateView {
                stats: spec_award_xp(old(self)@.stats, user, amount),
                ..old(self)@
            }));
        }
    }

    /// Grant a badge to a user (admin only). Idempotent: a badge already
    /// held is not granted again. Creates the statistics record on first
    /// grant.
    pub fn grant_badge(&mut self, admin: u64, user: u64, badge: Badge) -> (r: Result<(), Error>)
        requires
            old(self).inv(),
        ensures
            final(self).inv(),
            (final(self)@, r) == spec_grant_badge(old(self)@, admin, user, badge),
    {
        let c = match self.config {
            Some(c) => c,
            None => {
                return Err(Error::NotInitialized);
            },
        };
        if c.admin != admin {
            return Err(Error::Unauthorized);
        }
        match self.find_stats(user) {
            Some(i) => {
                if badges_contain(&self.stats[i].badges, badge) {
                    proof {
                        assert(self@.stats.insert(user, self@.stats[user]) =~= self@.stats);
                        assert(self@ =~= spec_grant_badge(old(self)@, admin, user, badge).0);
                    }
                    return Ok(());
                }
                let prior = &self.stats[i];
                let mut badges = copy_badges(&prior.badges);
                badges.push(badge);
                let updated = UserStats {
                    address: prior.address,
                    total_xp: prior.total_xp,
                    level: prior.level,
                    quests_completed: prior.quests_completed,
                    badges,
                };
                proof {
                    assert forall|a: int, b: int|
                        0 <= a < b < updated.badges@.len() implies updated.badges@[a]
                        != updated.badges@[b] by {
                        if b < prior.badges@.len() {
                        } else {
                            assert(updated.badges@[b] == badge);
                            assert(updated.badges@[a] == prior.badges@[a]);
                        }
                    }
                }
                self.set_stats_at(i, updated);
            },
            None => {
                let mut badges: Vec<Badge> = Vec::new();
                badges.push(badge);
                let created = UserStats {
                    address: user,
                    total_xp: 0,
                    level: 1,
                    quests_completed: 0,
                    badges,
                };
                self.push_stats(created);
            },
        }
        proof {
            assert(self@ =~= spec_grant_badge(old(self)@, admin, user, badge).0);
        }
        Ok(())
    }

    /// Replace the statistics record at index `i` by one for the same user.
    pub(crate) fn set_stats_at(&mut self, i: usize, u2: UserStats)
        requires
            old(self).keys_unique(),
            i < old(self).stats@.len(),
            u2.address == old(self).stats@[i as int].address,
        ensures
            final(self).keys_unique(),
            final(self)@ == (StateView {
                stats: old(self)@.stats.insert(u2.address, u2@),
                ..old(self)@
            }),
            final(self).quests@ == old(self).quests@,
            final(self).submissions@ == old(self).submissions@,
            final(self).escrows@ == old(self).escrows@,
            final(self).config == old(self).config,
            final(self).funds == old(self).funds,
    {
        proof {
            lemma_stats_view_update(self.stats@, i as int, u2);
            lemma_distinct_after_update(stats_view(self.stats@), stats_key(), i as int, u2@);
            lemma_assoc_update(stats_view(self.stats@), stats_key(), i as int, u2@);
        }
        self.stats.set(i, u2);
        proof {
            assert(self@ =~= (StateView {
                stats: old(self)@.stats.insert(u2.address, u2@),
                ..old(self)@
            }));
        }
    }

    /// Append a statistics record for a user that has none yet.
    pub(crate) fn push_stats(&mut self, u2: UserStats)
        requires
            old(self).keys_unique(),
            !old(self)@.stats.contains_key(u2.address),
        ensures
            final(self).keys_unique(),
            final(self)@ == (StateView {
                stats: old(self)@.stats.insert(u2.address, u2@),
                ..old(self)@
            }),
            final(self).quests@ == old(self).quests@,
            final(self).submissions@ == old(self).submissions@,
            final(self).escrows@ == old(self).escrows@,
            final(self).config == old(self).config,
            final(self).funds == old(self).funds,
    {
        proof {
            lemma_stats_view_push(self.stats@, u2);
            lemma_assoc_contains(stats_view(self.stats@), stats_key(), u2.address);
            lemma_distinct_after_push(stats_view(self.stats@), stats_key(), u2@);
            lemma_assoc_push(stats_view(self.stats@), stats_key(), u2@);
        }
        self.stats.push(u2);
        proof {
            assert(self@ =~= (StateView {
                stats: old(self)@.stats.insert(u2.address, u2@),
                ..old(self)@
            }));
        }
    }
}

} // verus!
