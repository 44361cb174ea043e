//! The contribution ledger: pledging funds to a project inside an open
//! round.

use vstd::prelude::*;

use crate::lookups::cap_of;
use crate::lookups::contribution_value_of;
use crate::lookups::find_contribution;
use crate::lookups::find_spot;
use crate::lookups::find_whitelist;
use crate::lookups::entry_mut;
use crate::lookups::lemma_approved_le_percent_sum;
use crate::lookups::lemma_cap_absent;
use crate::lookups::lemma_cap_at;
use crate::lookups::lemma_contribution_absent;
use crate::lookups::lemma_contribution_at;
use crate::lookups::lemma_contribution_le_total;
use crate::lookups::lemma_contributions_push;
use crate::lookups::lemma_contributions_update;
use crate::lookups::lemma_whitelist_absent;
use crate::lookups::lemma_whitelist_at;
use crate::lookups::whitelist_of;
use crate::pallet::milestone_approvals_preserved;
use crate::pallet::project_wf;
use crate::pallet::Pallet;
use crate::types::pushed;
use crate::types::AccountId;
use crate::types::Balance;
use crate::types::BlockNumber;
use crate::types::Contribution;
use crate::types::ContributionEntry;
use crate::types::Error;
use crate::types::Event;
use crate::types::Origin;
use crate::types::Project;
use crate::types::ProjectKey;
use crate::types::RoundKey;
use crate::types::Timestamp;

verus! {

/// The round key a call targets: the given one, or the key of the most
/// recently scheduled round when none is given.
pub open spec fn resolved_round_key(s: Pallet, round_key: Option<RoundKey>) -> int {
    match round_key {
        Some(k) => k as int,
        None => s.rounds@.len() as int,
    }
}

/// All fields of a project except its contribution ledger and raised funds.
pub open spec fn same_except_contributions(p0: Project, p1: Project) -> bool {
    &&& p1.name == p0.name
    &&& p1.logo == p0.logo
    &&& p1.description == p0.description
    &&& p1.website == p0.website
    &&& p1.milestones == p0.milestones
    &&& p1.currency_id == p0.currency_id
    &&& p1.required_funds == p0.required_funds
    &&& p1.withdrawn_funds == p0.withdrawn_funds
    &&& p1.initiator == p0.initiator
    &&& p1.create_block_number == p0.create_block_number
    &&& p1.approved_for_funding == p0.approved_for_funding
    &&& p1.funding_threshold_met == p0.funding_threshold_met
    &&& p1.cancelled == p0.cancelled
}

/// Why a `contribute` call is rejected, if it is: the caller must be a
/// signed account pledging a positive amount to an existing project, the
/// resolved round must exist, be non-canceled, open at `now` and list the
/// project, a whitelisted project must list the caller with enough headroom,
/// and the accounting must not overflow.
pub open spec fn contribute_error(
    s: Pallet,
    origin: Origin,
    round_key: Option<RoundKey>,
    project_key: ProjectKey,
    value: Balance,
    now: BlockNumber,
) -> Option<Error> {
    match origin {
        Origin::Signed(who) => {
            let rk = resolved_round_key(s, round_key);
            if value == 0 {
                Some(Error::InvalidParam)
            } else if project_key >= s.projects@.len() {
                Some(Error::ProjectDoesNotExist)
            } else if !(1 <= rk <= s.rounds@.len()) {
                Some(Error::NoActiveRound)
            } else if s.rounds@[rk - 1].is_canceled {
                Some(Error::RoundCanceled)
            } else if !(s.rounds@[rk - 1].start <= now < s.rounds@[rk - 1].end) {
                Some(Error::RoundNotProcessing)
            } else if !s.rounds@[rk - 1].project_keys@.contains(project_key) {
                Some(Error::ProjectNotInRound)
            } else {
                let p = s.projects@[project_key as int];
                match whitelist_of(s.whitelists@, project_key) {
                    Some(spots) => match cap_of(spots, who) {
                        None => Some(Error::OnlyWhitelistedAccountsCanContribute),
                        Some(cap) => if contribution_value_of(p.contributions@, who) + value
                            > cap {
                            Some(Error::ContributionMustBeLowerThanMaxCap)
                        } else if p.raised_funds + value > u64::MAX {
                            Some(Error::Overflow)
                        } else {
                            None
                        },
                    },
                    None => if p.raised_funds + value > u64::MAX {
                        Some(Error::Overflow)
                    } else {
                        None
                    },
                }
            }
        },
        _ => Some(Error::BadOrigin),
    }
}

impl Pallet {
    /// Pledges `value` to a project inside an open round.  The host moves
    /// the amount into project escrow when the call succeeds; the store
    /// accumulates the caller's contribution record and the project's raised
    /// funds.  When `round_key` is `None` the most recently scheduled round
    /// is targeted.
    pub fn contribute(
        &mut self,
        origin: Origin,
        round_key: Option<RoundKey>,
        project_key: ProjectKey,
        value: Balance,
        now: BlockNumber,
        timestamp: Timestamp,
    ) -> (r: Result<(), Error>)
        requires
            old(self).wf(),
        ensures
            final(self).wf(),
            r is Err <==> contribute_error(
                *old(self),
                origin,
                round_key,
                project_key,
                value,
                now,
            ) is Some,
            r matches Err(e) ==> {
                &&& Some(e) == contribute_error(
                    *old(self),
                    origin,
                    round_key,
                    project_key,
                    value,
                    now,
                )
                &&& *final(self) == *old(self)
            },
            r is Ok ==> (origin matches Origin::Signed(who) && {
                let p0 = old(self).projects@[project_key as int];
                let p1 = final(self).projects@[project_key as int];
                &&& final(self).projects@.len() == old(self).projects@.len()
                &&& forall|i: int|
                    0 <= i < old(self).projects@.len() && i != project_key
                        ==> final(self).projects@[i] == old(self).projects@[i]
                &&& same_except_contributions(p0, p1)
                &&& p1.raised_funds == p0.raised_funds + value
                &&& contribution_value_of(p1.contributions@, who) == contribution_value_of(
                    p0.contributions@,
                    who,
                ) + value
                &&& forall|a: AccountId|
                    a != who ==> contribution_value_of(p1.contributions@, a)
                        == contribution_value_of(p0.contributions@, a)
                &&& exists|i: int|
                    0 <= i < p1.contributions@.len() && (#[trigger] p1.contributions@[i]).account
                        == who && p1.contributions@[i].contribution.timestamp == timestamp
                &&& final(self).rounds == old(self).rounds
                &&& final(self).whitelists == old(self).whitelists
                &&& final(self).user_votes == old(self).user_votes
                &&& final(self).milestone_votes == old(self).milestone_votes
                &&& final(self).no_confidence_votes == old(self).no_confidence_votes
                &&& pushed(old(self).events@, final(self).events@)
                &&& final(self).events@.last() == Event::ContributeSucceeded(
                    who,
                    project_key,
                    value,
                    p0.currency_id,
                    now,
                )
            }),
            old(self).same_params(*final(self)),
            milestone_approvals_preserved(*old(self), *final(self)),
    {
        let who: AccountId = match origin {
            Origin::Signed(a) => a,
            _ => {
                return Err(Error::BadOrigin);
            },
        };
        if value == 0 {
            return Err(Error::InvalidParam);
        }
        if (project_key as usize) >= self.projects.len() {
            return Err(Error::ProjectDoesNotExist);
        }
        let rk: RoundKey = match round_key {
            Some(k) => k,
            None => self.rounds.len() as RoundKey,
        };
        if rk < 1 || (rk as usize) > self.rounds.len() {
            return Err(Error::NoActiveRound);
        }
        let round = &self.rounds[(rk as usize) - 1];
        if round.is_canceled {
            return Err(Error::RoundCanceled);
        }
        if !(round.start <= now && now < round.end) {
            return Err(Error::RoundNotProcessing);
        }
        if !crate::lookups::keys_contain(&round.project_keys, project_key) {
            return Err(Error::ProjectNotInRound);
        }

        let pk = project_key as usize;
        let c_idx = find_contribution(&self.projects[pk].contributions, who);
        let existing: Balance = match c_idx {
            Some(i) => {
                proof {
                    lemma_contribution_at(self.projects@[pk as int].contributions@, i as int);
                }
                self.projects[pk].contributions[i].contribution.value
            },
            None => {
                proof {
                    lemma_contribution_absent(self.projects@[pk as int].contributions@, who);
                }
                0
            },
        };

        match find_whitelist(&self.whitelists, project_key) {
            Some(i) => {
                proof {
                    lemma_whitelist_at(self.whitelists@, i as int);
                }
                let spots = &self.whitelists[i].spots;
                match find_spot(spots, who) {
                    Some(j) => {
                        proof {
                            lemma_cap_at(spots@, j as int);
                        }
                        let cap = spots[j].max_cap;
                        if (existing as u128) + (value as u128) > (cap as u128) {
                            return Err(Error::ContributionMustBeLowerThanMaxCap);
                        }
                    },
                    None => {
                        proof {
                            lemma_cap_absent(spots@, who);
                        }
                        return Err(Error::OnlyWhitelistedAccountsCanContribute);
                    },
                }
            },
            None => {
                proof {
                    lemma_whitelist_absent(self.whitelists@, project_key);
                }
            },
        }

        if self.projects[pk].raised_funds > u64::MAX - value {
            return Err(Error::Overflow);
        }

        let currency = self.projects[pk].currency_id;
        proof {
            lemma_contribution_le_total(self.projects@[pk as int].contributions@, who);
        }

        let ghost p0 = self.projects@[pk as int];
        let ghost mut w: int = 0;
        let p = entry_mut(&mut self.projects, pk);
        match c_idx {
            Some(i) => {
                let ghost cs0 = p.contributions@;
                let updated = ContributionEntry {
                    account: who,
                    contribution: Contribution { value: existing + value, timestamp },
                };
                proof {
                    lemma_contributions_update(cs0, i as int, updated);
                    w = i as int;
                }
                let e = entry_mut(&mut p.contributions, i);
                *e = updated;
                proof {
                    assert(p.contributions@ == cs0.update(i as int, updated));
                }
            },
            None => {
                let entry = ContributionEntry {
                    account: who,
                    contribution: Contribution { value, timestamp },
                };
                proof {
                    lemma_contributions_push(p.contributions@, entry);
                    w = p.contributions@.len() as int;
                }
                p.contributions.push(entry);
            },
        }
        proof {
            assert(0 <= w < p.contributions@.len() && p.contributions@[w].account == who
                && p.contributions@[w].contribution.timestamp == timestamp);
        }
        p.raised_funds = p.raised_funds + value;
        proof {
            lemma_approved_le_percent_sum(p.milestones@);
            crate::arith::lemma_portion_monotone_amount(
                p0.raised_funds as int,
                p0.raised_funds + value,
                crate::lookups::approved_percent_sum(p.milestones@),
            );
            assert(project_wf(*p, pk as int));
        }
        self.events.push(
            Event::ContributeSucceeded(who, project_key, value, currency, now),
        );
        Ok(())
    }
}

} // verus!
