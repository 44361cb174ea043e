//! The no-confidence governance track: contributors can collectively cancel
//! an approved project and have their uncommitted pledges returned.

use vstd::prelude::*;

use crate::funding::resolved_round_key;
use crate::lookups::contribution_value_of;
use crate::lookups::entry_mut;
use crate::lookups::find_contribution;
use crate::lookups::find_no_confidence_vote;
use crate::lookups::lemma_contribution_absent;
use crate::lookups::lemma_contribution_at;
use crate::lookups::lemma_no_confidence_vote_absent;
use crate::lookups::lemma_no_confidence_vote_at;
use crate::lookups::lemma_no_confidence_votes_push;
use crate::lookups::lemma_no_confidence_votes_remove;
use crate::lookups::lemma_no_confidence_votes_update;
use crate::lookups::no_confidence_vote_of;
use crate::pallet::milestone_approvals_preserved;
use crate::pallet::project_wf;
use crate::pallet::round_wf;
use crate::pallet::Pallet;
use crate::treasury::compute_refunds;
use crate::treasury::refunds_description;
use crate::treasury::refunds_total;
use crate::types::pushed;
use crate::types::zero_vote;
use crate::types::AccountId;
use crate::types::Balance;
use crate::types::BlockNumber;
use crate::types::Error;
use crate::types::Event;
use crate::types::NoConfidenceVoteEntry;
use crate::types::Origin;
use crate::types::ProjectKey;
use crate::types::Refund;
use crate::types::Round;
use crate::types::RoundKey;
use crate::types::RoundType;
use crate::types::UserVote;
use crate::types::Vote;

verus! {

/// Whether a no-confidence tally passes: the yays reach at least the
/// configured percentage of all votes cast, and at least one vote was cast.
pub open spec fn no_confidence_pass(v: Vote, percent: u8) -> bool {
    &&& v.yay + v.nay > 0
    &&& v.yay * 100 >= percent * (v.yay + v.nay)
}

/// Whether the round can be finalised before its window closes: the yays
/// already reach the configured percentage of every conceivable vote, so
/// later votes cannot undo the result.
pub open spec fn no_confidence_decided(v: Vote, percent: u8, raised: int) -> bool {
    v.yay * 100 >= percent * raised
}

/// Why a `raise_vote_of_no_confidence` call is rejected, if it is: only a
/// contributor to an approved, not yet cancelled project may raise one, at
/// most one no-confidence round per project is live at a time, and the key
/// space must not be exhausted.
pub open spec fn raise_no_confidence_error(
    s: Pallet,
    origin: Origin,
    project_key: ProjectKey,
    now: BlockNumber,
) -> Option<Error> {
    match origin {
        Origin::Signed(who) => {
            if project_key >= s.projects@.len() {
                Some(Error::ProjectDoesNotExist)
            } else if contribution_value_of(
                s.projects@[project_key as int].contributions@,
                who,
            ) == 0 {
                Some(Error::OnlyContributorsCanVote)
            } else if !s.projects@[project_key as int].approved_for_funding {
                Some(Error::ProjectApprovalRequired)
            } else if s.projects@[project_key as int].cancelled {
                Some(Error::ProjectAlreadyCancelled)
            } else if no_confidence_vote_of(s.no_confidence_votes@, project_key) is Some {
                Some(Error::NoConfidenceRoundActive)
            } else if now + s.config.no_confidence_time_limit > u64::MAX {
                Some(Error::Overflow)
            } else if s.rounds@.len() >= u32::MAX {
                Some(Error::Overflow)
            } else {
                None
            }
        },
        _ => Some(Error::BadOrigin),
    }
}

/// Why a `vote_on_no_confidence_round` call is rejected, if it is: the
/// caller must hold a contribution, the resolved round must be a live
/// no-confidence round listing the project with a stored tally, the caller
/// must not have voted on it before, and the tally must not overflow.
pub open spec fn vote_no_confidence_error(
    s: Pallet,
    origin: Origin,
    round_key: Option<RoundKey>,
    project_key: ProjectKey,
    is_yay: bool,
    now: BlockNumber,
) -> Option<Error> {
    match origin {
        Origin::Signed(who) => {
            let rk = resolved_round_key(s, round_key);
            if project_key >= s.projects@.len() {
                Some(Error::ProjectDoesNotExist)
            } else if contribution_value_of(
                s.projects@[project_key as int].contributions@,
                who,
            ) == 0 {
                Some(Error::OnlyContributorsCanVote)
            } else if !(1 <= rk <= s.rounds@.len()) {
                Some(Error::NoActiveRound)
            } else if s.rounds@[rk - 1].is_canceled {
                Some(Error::RoundCanceled)
            } else if !(s.rounds@[rk - 1].round_type is VoteOfNoConfidence) {
                Some(Error::InvalidRoundType)
            } else if !s.rounds@[rk - 1].project_keys@.contains(project_key) {
                Some(Error::ProjectNotInRound)
            } else if !(s.rounds@[rk - 1].start <= now < s.rounds@[rk - 1].end) {
                Some(Error::RoundNotProcessing)
            } else {
                match no_confidence_vote_of(s.no_confidence_votes@, project_key) {
                    None => Some(Error::KeyNotFound),
                    Some(v) => if s.user_votes@.contains(
                        UserVote {
                            account: who,
                            project_key,
                            milestone_key: 0,
                            round_key: rk as RoundKey,
                        },
                    ) {
                        Some(Error::VoteAlreadyExists)
                    } else if (if is_yay {
                        v.yay as int
                    } else {
                        v.nay as int
                    }) + contribution_value_of(
                        s.projects@[project_key as int].contributions@,
                        who,
                    ) > u64::MAX {
                        Some(Error::Overflow)
                    } else {
                        None
                    },
                }
            }
        },
        _ => Some(Error::BadOrigin),
    }
}

/// Why a `finalise_no_confidence_round` call is rejected, if it is: anyone
/// signed may finalise a live no-confidence round of an existing project
/// once its window has elapsed or the outcome is beyond reach.
pub open spec fn finalise_no_confidence_error(
    s: Pallet,
    origin: Origin,
    round_key: Option<RoundKey>,
    project_key: ProjectKey,
    now: BlockNumber,
) -> Option<Error> {
    match origin {
        Origin::Signed(who) => {
            let rk = resolved_round_key(s, round_key);
            if project_key >= s.projects@.len() {
                Some(Error::ProjectDoesNotExist)
            } else if !(1 <= rk <= s.rounds@.len()) {
                Some(Error::NoActiveRound)
            } else if s.rounds@[rk - 1].is_canceled {
                Some(Error::RoundCanceled)
            } else if !(s.rounds@[rk - 1].round_type is VoteOfNoConfidence) {
                Some(Error::InvalidRoundType)
            } else if !s.rounds@[rk - 1].project_keys@.contains(project_key) {
                Some(Error::ProjectNotInRound)
            } else {
                match no_confidence_vote_of(s.no_confidence_votes@, project_key) {
                    None => Some(Error::KeyNotFound),
                    Some(v) => if !(now > s.rounds@[rk - 1].end || no_confidence_decided(
                        v,
                        s.config.percent_required_for_vote_to_pass,
                        s.projects@[project_key as int].raised_funds as int,
                    )) {
                        Some(Error::RoundNotEnded)
                    } else {
                        None
                    },
                }
            }
        },
        _ => Some(Error::BadOrigin),
    }
}

impl Pallet {
    /// Opens a no-confidence round over an approved project: a fresh round
    /// with the configured time limit and a zeroed tally.  Contributors
    /// only; at most one live no-confidence round per project.
    pub fn raise_vote_of_no_confidence(
        &mut self,
        origin: Origin,
        project_key: ProjectKey,
        now: BlockNumber,
    ) -> (r: Result<RoundKey, Error>)
        requires
            old(self).wf(),
        ensures
            final(self).wf(),
            r is Err <==> raise_no_confidence_error(*old(self), origin, project_key, now)
                is Some,
            r matches Err(e) ==> {
                &&& Some(e) == raise_no_confidence_error(*old(self), origin, project_key, now)
                &&& *final(self) == *old(self)
            },
            r matches Ok(k) ==> {
                &&& k == old(self).rounds@.len() + 1
                &&& final(self).rounds@.len() == k
                &&& forall|i: int|
                    0 <= i < old(self).rounds@.len()
                        ==> final(self).rounds@[i] == old(self).rounds@[i]
                &&& ({
                    let rd = final(self).rounds@[k - 1];
                    &&& rd.start == now
                    &&& rd.end == now + old(self).config.no_confidence_time_limit
                    &&& rd.project_keys@ == seq![project_key]
                    &&& rd.round_type is VoteOfNoConfidence
                    &&& !rd.is_canceled
                })
                &&& no_confidence_vote_of(final(self).no_confidence_votes@, project_key)
                    == Some(zero_vote())
                &&& forall|pk2: ProjectKey|
                    pk2 != project_key ==> no_confidence_vote_of(
                        final(self).no_confidence_votes@,
                        pk2,
                    ) == no_confidence_vote_of(old(self).no_confidence_votes@, pk2)
                &&& final(self).projects == old(self).projects
                &&& final(self).whitelists == old(self).whitelists
                &&& final(self).user_votes == old(self).user_votes
                &&& final(self).milestone_votes == old(self).milestone_votes
                &&& pushed(old(self).events@, final(self).events@)
                &&& final(self).events@.last() == Event::NoConfidenceRoundCreated(
                    k as RoundKey,
                    project_key,
                )
            },
            old(self).same_params(*final(self)),
            milestone_approvals_preserved(*old(self), *final(self)),
    {
        let who: AccountId = match origin {
            Origin::Signed(a) => a,
            _ => {
                return Err(Error::BadOrigin);
            },
        };
        if (project_key as usize) >= self.projects.len() {
            return Err(Error::ProjectDoesNotExist);
        }
        let pk = project_key as usize;
        match find_contribution(&self.projects[pk].contributions, who) {
            Some(i) => {
                proof {
                    lemma_contribution_at(self.projects@[pk as int].contributions@, i as int);
                }
            },
            None => {
                proof {
                    lemma_contribution_absent(self.projects@[pk as int].contributions@, who);
                }
                return Err(Error::OnlyContributorsCanVote);
            },
        }
        if !self.projects[pk].approved_for_funding {
            return Err(Error::ProjectApprovalRequired);
        }
        if self.projects[pk].cancelled {
            return Err(Error::ProjectAlreadyCancelled);
        }
        match find_no_confidence_vote(&self.no_confidence_votes, project_key) {
            Some(i) => {
                proof {
                    lemma_no_confidence_vote_at(self.no_confidence_votes@, i as int);
                }
                return Err(Error::NoConfidenceRoundActive);
            },
            None => {
                proof {
                    lemma_no_confidence_vote_absent(self.no_confidence_votes@, project_key);
                }
            },
        }
        let limit = self.config.no_confidence_time_limit;
        if now > u64::MAX - limit {
            return Err(Error::Overflow);
        }
        if self.rounds.len() >= u32::MAX as usize {
            return Err(Error::Overflow);
        }

        let key: RoundKey = (self.rounds.len() as RoundKey) + 1;
        let entry = NoConfidenceVoteEntry { project_key, vote: Vote::zeroed() };
        proof {
            lemma_no_confidence_votes_push(self.no_confidence_votes@, entry);
        }
        self.no_confidence_votes.push(entry);

        let mut keys: Vec<ProjectKey> = Vec::new();
        keys.push(project_key);
        assert(keys@ =~= seq![project_key]);
        let round = Round::new(now, now + limit, keys, RoundType::VoteOfNoConfidence);
        proof {
            assert(round_wf(round, self.projects@.len() as int));
        }
        self.rounds.push(round);
        self.events.push(Event::NoConfidenceRoundCreated(key, project_key));
        Ok(key)
    }

    /// Records a contribution-weighted vote on a live no-confidence round;
    /// the same eligibility and one-vote-per-round rules as milestone
    /// voting apply.
    pub fn vote_on_no_confidence_round(
        &mut self,
        origin: Origin,
        round_key: Option<RoundKey>,
        project_key: ProjectKey,
        is_yay: bool,
        now: BlockNumber,
    ) -> (r: Result<(), Error>)
        requires
            old(self).wf(),
        ensures
            final(self).wf(),
            r is Err <==> vote_no_confidence_error(
                *old(self),
                origin,
                round_key,
                project_key,
                is_yay,
                now,
            ) is Some,
            r matches Err(e) ==> {
                &&& Some(e) == vote_no_confidence_error(
                    *old(self),
                    origin,
                    round_key,
                    project_key,
                    is_yay,
                    now,
                )
                &&& *final(self) == *old(self)
            },
            r is Ok ==> (origin matches Origin::Signed(who) && {
                let weight = contribution_value_of(
                    old(self).projects@[project_key as int].contributions@,
                    who,
                );
                let rk = resolved_round_key(*old(self), round_key);
                let v0 = no_confidence_vote_of(
                    old(self).no_confidence_votes@,
                    project_key,
                )->Some_0;
                &&& no_confidence_vote_of(old(self).no_confidence_votes@, project_key) is Some
                &&& no_confidence_vote_of(final(self).no_confidence_votes@, project_key)
                    == Some(
                    Vote {
                        yay: if is_yay {
                            (v0.yay + weight) as u64
                        } else {
                            v0.yay
                        },
                        nay: if is_yay {
                            v0.nay
                        } else {
                            (v0.nay + weight) as u64
                        },
                        is_approved: v0.is_approved,
                    },
                )
                &&& forall|pk2: ProjectKey|
                    pk2 != project_key ==> no_confidence_vote_of(
                        final(self).no_confidence_votes@,
                        pk2,
                    ) == no_confidence_vote_of(old(self).no_confidence_votes@, pk2)
                &&& final(self).user_votes@ == old(self).user_votes@.push(
                    UserVote {
                        account: who,
                        project_key,
                        milestone_key: 0,
                        round_key: rk as RoundKey,
                    },
                )
                &&& final(self).projects == old(self).projects
                &&& final(self).rounds == old(self).rounds
                &&& final(self).whitelists == old(self).whitelists
                &&& final(self).milestone_votes == old(self).milestone_votes
                &&& pushed(old(self).events@, final(self).events@)
                &&& final(self).events@.last() == Event::NoConfidenceRoundVotedUpon(
                    rk as RoundKey,
                    project_key,
                )
            }),
            old(self).same_params(*final(self)),
            milestone_approvals_preserved(*old(self), *final(self)),
    {
        let who: AccountId = match origin {
            Origin::Signed(a) => a,
            _ => {
                return Err(Error::BadOrigin);
            },
        };
        if (project_key as usize) >= self.projects.len() {
            return Err(Error::ProjectDoesNotExist);
        }
        let pk = project_key as usize;
        let weight: Balance = match find_contribution(&self.projects[pk].contributions, who) {
            Some(i) => {
                proof {
                    lemma_contribution_at(self.projects@[pk as int].contributions@, i as int);
                }
                self.projects[pk].contributions[i].contribution.value
            },
            None => {
                proof {
                    lemma_contribution_absent(self.projects@[pk as int].contributions@, who);
                }
                0
            },
        };
        if weight == 0 {
            return Err(Error::OnlyContributorsCanVote);
        }
        let rk: RoundKey = match round_key {
            Some(k) => k,
            None => self.rounds.len() as RoundKey,
        };
        if rk < 1 || (rk as usize) > self.rounds.len() {
            return Err(Error::NoActiveRound);
        }
        let round = &self.rounds[(rk as usize) - 1];
        if round.is_canceled {
            return Err(Error::RoundCanceled);
        }
        if !matches!(round.round_type, RoundType::VoteOfNoConfidence) {
            return Err(Error::InvalidRoundType);
        }
        if !crate::lookups::keys_contain(&round.project_keys, project_key) {
            return Err(Error::ProjectNotInRound);
        }
        if !(round.start <= now && now < round.end) {
            return Err(Error::RoundNotProcessing);
        }
        let v_idx = match find_no_confidence_vote(&self.no_confidence_votes, project_key) {
            Some(i) => {
                proof {
                    lemma_no_confidence_vote_at(self.no_confidence_votes@, i as int);
                }
                i
            },
            None => {
                proof {
                    lemma_no_confidence_vote_absent(self.no_confidence_votes@, project_key);
                }
                return Err(Error::KeyNotFound);
            },
        };
        if self.user_votes(who, project_key, 0, rk) {
            return Err(Error::VoteAlreadyExists);
        }
        let v0 = self.no_confidence_votes[v_idx].vote;
        if (if is_yay {
            v0.yay
        } else {
            v0.nay
        }) > u64::MAX - weight {
            return Err(Error::Overflow);
        }

        let new_vote = if is_yay {
            Vote { yay: v0.yay + weight, nay: v0.nay, is_approved: v0.is_approved }
        } else {
            Vote { yay: v0.yay, nay: v0.nay + weight, is_approved: v0.is_approved }
        };
        let entry = NoConfidenceVoteEntry { project_key, vote: new_vote };
        let ghost mid = self.no_confidence_votes@;
        proof {
            lemma_no_confidence_votes_update(self.no_confidence_votes@, v_idx as int, entry);
        }
        let e = entry_mut(&mut self.no_confidence_votes, v_idx);
        *e = entry;
        proof {
            assert(self.no_confidence_votes@ == mid.update(v_idx as int, entry));
        }
        self.user_votes.push(
            UserVote { account: who, project_key, milestone_key: 0, round_key: rk },
        );
        self.events.push(Event::NoConfidenceRoundVotedUpon(rk, project_key));
        Ok(())
    }

    /// Finalises a no-confidence round once its window has elapsed or the
    /// outcome is beyond reach; callable by anyone signed.  On a pass the
    /// project is cancelled and the returned refunds wind down its escrow;
    /// on a fail the project continues unchanged.  Either way the live
    /// tally is retired, so no-confidence may be raised again later.
    pub fn finalise_no_confidence_round(
        &mut self,
        origin: Origin,
        round_key: Option<RoundKey>,
        project_key: ProjectKey,
        now: BlockNumber,
    ) -> (r: Result<Option<Vec<Refund>>, Error>)
        requires
            old(self).wf(),
        ensures
            final(self).wf(),
            r matches Err(e) ==> {
                &&& Some(e) == finalise_no_confidence_error(
                    *old(self),
                    origin,
                    round_key,
                    project_key,
                    now,
                )
                &&& *final(self) == *old(self)
            },
            r is Err <==> finalise_no_confidence_error(
                *old(self),
                origin,
                round_key,
                project_key,
                now,
            ) is Some,
            r matches Ok(outcome) ==> ({
                let rk = resolved_round_key(*old(self), round_key);
                let v = no_confidence_vote_of(old(self).no_confidence_votes@, project_key)
                    ->Some_0;
                let p0 = old(self).projects@[project_key as int];
                let p1 = final(self).projects@[project_key as int];
                &&& no_confidence_vote_of(old(self).no_confidence_votes@, project_key) is Some
                &&& no_confidence_vote_of(final(self).no_confidence_votes@, project_key)
                    is None
                &&& forall|pk2: ProjectKey|
                    pk2 != project_key ==> no_confidence_vote_of(
                        final(self).no_confidence_votes@,
                        pk2,
                    ) == no_confidence_vote_of(old(self).no_confidence_votes@, pk2)
                &&& (outcome is Some <==> no_confidence_pass(
                    v,
                    old(self).config.percent_required_for_vote_to_pass,
                ))
                &&& final(self).projects@.len() == old(self).projects@.len()
                &&& forall|i: int|
                    0 <= i < old(self).projects@.len() && i != project_key
                        ==> final(self).projects@[i] == old(self).projects@[i]
                &&& final(self).rounds == old(self).rounds
                &&& final(self).whitelists == old(self).whitelists
                &&& final(self).user_votes == old(self).user_votes
                &&& final(self).milestone_votes == old(self).milestone_votes
                &&& (match outcome {
                    Some(refunds) => {
                        &&& refunds_description(refunds@, p0)
                        &&& p1.cancelled
                        &&& p1.name == p0.name
                        &&& p1.logo == p0.logo
                        &&& p1.description == p0.description
                        &&& p1.website == p0.website
                        &&& p1.milestones == p0.milestones
                        &&& p1.contributions == p0.contributions
                        &&& p1.currency_id == p0.currency_id
                        &&& p1.required_funds == p0.required_funds
                        &&& p1.raised_funds == p0.raised_funds
                        &&& p1.withdrawn_funds == p0.withdrawn_funds
                        &&& p1.initiator == p0.initiator
                        &&& p1.create_block_number == p0.create_block_number
                        &&& p1.approved_for_funding == p0.approved_for_funding
                        &&& p1.funding_threshold_met == p0.funding_threshold_met
                        &&& final(self).events@.len() == old(self).events@.len() + 2
                        &&& forall|i: int|
                            0 <= i < old(self).events@.len() ==> final(self).events@[i]
                                == old(self).events@[i]
                        &&& final(self).events@[final(self).events@.len() - 2]
                            == Event::ProjectLockedFundsRefunded(
                            project_key,
                            refunds_total(refunds@) as Balance,
                        )
                        &&& final(self).events@.last() == Event::NoConfidenceRoundFinalised(
                            rk as RoundKey,
                            project_key,
                        )
                    },
                    None => {
                        &&& final(self).projects == old(self).projects
                        &&& pushed(old(self).events@, final(self).events@)
                        &&& final(self).events@.last() == Event::NoConfidenceRoundFinalised(
                            rk as RoundKey,
                            project_key,
                        )
                    },
                })
            }),
            old(self).same_params(*final(self)),
            milestone_approvals_preserved(*old(self), *final(self)),
    {
        let who: AccountId = match origin {
            Origin::Signed(a) => a,
            _ => {
                return Err(Error::BadOrigin);
            },
        };
        if (project_key as usize) >= self.projects.len() {
            return Err(Error::ProjectDoesNotExist);
        }
        let pk = project_key as usize;
        let rk: RoundKey = match round_key {
            Some(k) => k,
            None => self.rounds.len() as RoundKey,
        };
        if rk < 1 || (rk as usize) > self.rounds.len() {
            return Err(Error::NoActiveRound);
        }
        let round = &self.rounds[(rk as usize) - 1];
        if round.is_canceled {
            return Err(Error::RoundCanceled);
        }
        if !matches!(round.round_type, RoundType::VoteOfNoConfidence) {
            return Err(Error::InvalidRoundType);
        }
        if !crate::lookups::keys_contain(&round.project_keys, project_key) {
            return Err(Error::ProjectNotInRound);
        }
        let v_idx = match find_no_confidence_vote(&self.no_confidence_votes, project_key) {
            Some(i) => {
                proof {
                    lemma_no_confidence_vote_at(self.no_confidence_votes@, i as int);
                }
                i
            },
            None => {
                proof {
                    lemma_no_confidence_vote_absent(self.no_confidence_votes@, project_key);
                }
                return Err(Error::KeyNotFound);
            },
        };
        let v = self.no_confidence_votes[v_idx].vote;
        let percent = self.config.percent_required_for_vote_to_pass;
        let raised = self.projects[pk].raised_funds;
        proof {
            crate::arith::lemma_u64_mul_fits_u128(v.yay as int, 100);
            crate::arith::lemma_u64_mul_fits_u128(percent as int, raised as int);
        }
        let decided = (v.yay as u128) * 100 >= (percent as u128) * (raised as u128);
        if !(now > round.end || decided) {
            return Err(Error::RoundNotEnded);
        }

        let total128: u128 = (v.yay as u128) + (v.nay as u128);
        proof {
            vstd::arithmetic::mul::lemma_mul_upper_bound(
                percent as int,
                100,
                total128 as int,
                2 * (u64::MAX as int),
            );
            vstd::arithmetic::mul::lemma_mul_nonnegative(percent as int, total128 as int);
        }
        let passed = total128 > 0 && (v.yay as u128) * 100 >= (percent as u128) * total128;

        // Retire the live tally either way.
        proof {
            lemma_no_confidence_votes_remove(self.no_confidence_votes@, v_idx as int);
        }
        self.no_confidence_votes.remove(v_idx);

        if passed {
            proof {
                crate::lookups::lemma_approved_le_percent_sum(
                    self.projects@[pk as int].milestones@,
                );
                crate::arith::lemma_portion_bounds(
                    self.projects@[pk as int].raised_funds as int,
                    crate::lookups::approved_percent_sum(self.projects@[pk as int].milestones@),
                );
            }
            let (refunds, total) = compute_refunds(&self.projects[pk]);
            let p = entry_mut(&mut self.projects, pk);
            p.cancelled = true;
            proof {
                assert(project_wf(*p, pk as int));
            }
            self.events.push(Event::ProjectLockedFundsRefunded(project_key, total));
            self.events.push(Event::NoConfidenceRoundFinalised(rk, project_key));
            Ok(Some(refunds))
        } else {
            self.events.push(Event::NoConfidenceRoundFinalised(rk, project_key));
            Ok(None)
        }
    }
}

} // verus!
