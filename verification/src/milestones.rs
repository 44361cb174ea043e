//! The milestone voting engine: submission, voting, and finalisation, plus
//! the authority's approval gate.

use vstd::prelude::*;

use crate::lookups::contribution_value_of;
use crate::lookups::entry_mut;
use crate::lookups::find_contribution;
use crate::lookups::find_milestone_vote;
use crate::lookups::lemma_approved_le_percent_sum;
use crate::lookups::lemma_contribution_absent;
use crate::lookups::lemma_contribution_at;
use crate::lookups::lemma_milestone_vote_absent;
use crate::lookups::lemma_milestone_vote_at;
use crate::lookups::lemma_milestone_votes_push;
use crate::lookups::lemma_milestone_votes_update;
use crate::lookups::lemma_percent_sums_update;
use crate::lookups::milestone_vote_of;
use crate::pallet::milestone_approvals_preserved;
use crate::pallet::project_wf;
use crate::pallet::round_wf;
use crate::pallet::Pallet;
use crate::types::pushed;
use crate::types::zero_vote;
use crate::types::AccountId;
use crate::types::BlockNumber;
use crate::types::Error;
use crate::types::Event;
use crate::types::Milestone;
use crate::types::MilestoneKey;
use crate::types::MilestoneVoteEntry;
use crate::types::Origin;
use crate::types::Project;
use crate::types::ProjectKey;
use crate::types::Round;
use crate::types::RoundKey;
use crate::types::RoundType;
use crate::types::UserVote;
use crate::types::Vote;

verus! {

/// All fields of a project except its milestone list.
pub open spec fn same_except_milestones(p0: Project, p1: Project) -> bool {
    &&& p1.name == p0.name
    &&& p1.logo == p0.logo
    &&& p1.description == p0.description
    &&& p1.website == p0.website
    &&& p1.contributions == p0.contributions
    &&& p1.currency_id == p0.currency_id
    &&& p1.required_funds == p0.required_funds
    &&& p1.withdrawn_funds == p0.withdrawn_funds
    &&& p1.raised_funds == p0.raised_funds
    &&& p1.initiator == p0.initiator
    &&& p1.create_block_number == p0.create_block_number
    &&& p1.approved_for_funding == p0.approved_for_funding
    &&& p1.funding_threshold_met == p0.funding_threshold_met
    &&& p1.cancelled == p0.cancelled
}

/// `m1` is `m0` with its approval flag turned on.
pub open spec fn milestone_approved_version(m0: Milestone, m1: Milestone) -> bool {
    &&& m1.project_key == m0.project_key
    &&& m1.milestone_key == m0.milestone_key
    &&& m1.name == m0.name
    &&& m1.percentage_to_unlock == m0.percentage_to_unlock
    &&& m1.is_approved
}

/// The key of the most recently created non-canceled voting round whose
/// project set contains `pk`, if any.
pub open spec fn latest_voting_round_spec(rounds: Seq<Round>, pk: ProjectKey) -> Option<int>
    decreases rounds.len(),
{
    if rounds.len() == 0 {
        None
    } else if Pallet::voting_round_for(rounds.last(), pk) {
        Some(rounds.len() as int)
    } else {
        latest_voting_round_spec(rounds.drop_last(), pk)
    }
}

/// The recursive definition above returns exactly the largest matching key.
pub proof fn lemma_latest_voting_round(rounds: Seq<Round>, pk: ProjectKey)
    ensures
        match latest_voting_round_spec(rounds, pk) {
            Some(k) => {
                &&& 1 <= k <= rounds.len()
                &&& Pallet::voting_round_for(rounds[k - 1], pk)
                &&& forall|k2: int|
                    k < k2 <= rounds.len() ==> !Pallet::voting_round_for(
                        #[trigger] rounds[k2 - 1],
                        pk,
                    )
            },
            None => forall|k2: int|
                1 <= k2 <= rounds.len() ==> !Pallet::voting_round_for(
                    #[trigger] rounds[k2 - 1],
                    pk,
                ),
        },
    decreases rounds.len(),
{
    if rounds.len() == 0 {
    } else if Pallet::voting_round_for(rounds.last(), pk) {
        assert(rounds[rounds.len() - 1] == rounds.last());
    } else {
        lemma_latest_voting_round(rounds.drop_last(), pk);
        let n = rounds.len() as int;
        match latest_voting_round_spec(rounds.drop_last(), pk) {
            Some(k) => {
                assert(rounds.drop_last()[k - 1] == rounds[k - 1]);
                assert forall|k2: int| k < k2 <= n implies !Pallet::voting_round_for(
                    #[trigger] rounds[k2 - 1],
                    pk,
                ) by {
                    if k2 < n {
                        assert(rounds.drop_last()[k2 - 1] == rounds[k2 - 1]);
                    } else {
                        assert(rounds[k2 - 1] == rounds.last());
                    }
                }
            },
            None => {
                assert forall|k2: int| 1 <= k2 <= n implies !Pallet::voting_round_for(
                    #[trigger] rounds[k2 - 1],
                    pk,
                ) by {
                    if k2 < n {
                        assert(rounds.drop_last()[k2 - 1] == rounds[k2 - 1]);
                    } else {
                        assert(rounds[k2 - 1] == rounds.last());
                    }
                }
            },
        }
    }
}

/// Whether the tally can be finalised early: one side already commands a
/// majority of all conceivable voting weight, so the outcome cannot change.
pub open spec fn milestone_outcome_decided(v: Vote, raised: int) -> bool {
    ||| 2 * v.yay > raised
    ||| 2 * v.nay >= raised
}

/// Why a `submit_milestone` call is rejected, if it is: only the initiator
/// of an already-approved project may submit an existing, not yet approved
/// milestone, and neither the round keys nor the voting window may overflow.
pub open spec fn submit_milestone_error(
    s: Pallet,
    origin: Origin,
    project_key: ProjectKey,
    milestone_key: MilestoneKey,
    now: BlockNumber,
) -> Option<Error> {
    match origin {
        Origin::Signed(who) => {
            if project_key >= s.projects@.len() {
                Some(Error::ProjectDoesNotExist)
            } else if s.projects@[project_key as int].initiator != who {
                Some(Error::UserIsNotInitator)
            } else if !s.projects@[project_key as int].approved_for_funding {
                Some(Error::OnlyApprovedProjectsCanSubmitMilestones)
            } else if milestone_key >= s.projects@[project_key as int].milestones@.len() {
                Some(Error::MilestoneDoesNotExist)
            } else if s.projects@[project_key as int].milestones@[
                milestone_key as int
            ].is_approved {
                Some(Error::MilestoneAlreadyApproved)
            } else if now + s.milestone_voting_window > u64::MAX {
                Some(Error::Overflow)
            } else if s.rounds@.len() >= u32::MAX {
                Some(Error::Overflow)
            } else {
                None
            }
        },
        _ => Some(Error::BadOrigin),
    }
}

/// Why a `vote_on_milestone` call is rejected, if it is: the caller must
/// hold a contribution to the project, the resolved round must be a live
/// voting round listing the project, the milestone and its tally must
/// exist, the caller must not have voted on this tuple before, and the
/// tally must not overflow.
pub open spec fn vote_on_milestone_error(
    s: Pallet,
    origin: Origin,
    project_key: ProjectKey,
    milestone_key: MilestoneKey,
    round_key: Option<RoundKey>,
    approve_milestone: bool,
    now: BlockNumber,
) -> Option<Error> {
    match origin {
        Origin::Signed(who) => {
            let rk = crate::funding::resolved_round_key(s, round_key);
            if project_key >= s.projects@.len() {
                Some(Error::ProjectDoesNotExist)
            } else if contribution_value_of(
                s.projects@[project_key as int].contributions@,
                who,
            ) == 0 {
                Some(Error::OnlyContributorsCanVote)
            } else if !(1 <= rk <= s.rounds@.len()) {
                Some(Error::NoActiveRound)
            } else if s.rounds@[rk - 1].is_canceled {
                Some(Error::RoundCanceled)
            } else if !(s.rounds@[rk - 1].round_type is VotingRound) {
                Some(Error::InvalidRoundType)
            } else if !s.rounds@[rk - 1].project_keys@.contains(project_key) {
                Some(Error::ProjectNotInRound)
            } else if !(s.rounds@[rk - 1].start <= now < s.rounds@[rk - 1].end) {
                Some(Error::RoundNotProcessing)
            } else if milestone_key >= s.projects@[project_key as int].milestones@.len() {
                Some(Error::MilestoneDoesNotExist)
            } else {
                match milestone_vote_of(s.milestone_votes@, project_key, milestone_key) {
                    None => Some(Error::KeyNotFound),
                    Some(v) => if s.user_votes@.contains(
                        UserVote {
                            account: who,
                            project_key,
                            milestone_key,
                            round_key: rk as RoundKey,
                        },
                    ) {
                        Some(Error::VoteAlreadyExists)
                    } else if (if approve_milestone {
                        v.yay as int
                    } else {
                        v.nay as int
                    }) + contribution_value_of(
                        s.projects@[project_key as int].contributions@,
                        who,
                    ) > u64::MAX {
                        Some(Error::Overflow)
                    } else {
                        None
                    },
                }
            }
        },
        _ => Some(Error::BadOrigin),
    }
}

/// Why a `finalise_milestone_voting` call is rejected, if it is: only the
/// initiator may finalise an existing, not yet approved milestone with a
/// tally; a voting round for the project must exist, its window must have
/// elapsed or the outcome be decided, and the yays must strictly outweigh
/// the nays.
pub open spec fn finalise_milestone_voting_error(
    s: Pallet,
    origin: Origin,
    project_key: ProjectKey,
    milestone_key: MilestoneKey,
    now: BlockNumber,
) -> Option<Error> {
    match origin {
        Origin::Signed(who) => {
            if project_key >= s.projects@.len() {
                Some(Error::ProjectDoesNotExist)
            } else if s.projects@[project_key as int].initiator != who {
                Some(Error::OnlyInitiatorOrAdminCanApproveMilestone)
            } else if milestone_key >= s.projects@[project_key as int].milestones@.len() {
                Some(Error::MilestoneDoesNotExist)
            } else if s.projects@[project_key as int].milestones@[
                milestone_key as int
            ].is_approved {
                Some(Error::MilestoneAlreadyApproved)
            } else {
                match milestone_vote_of(s.milestone_votes@, project_key, milestone_key) {
                    None => Some(Error::KeyNotFound),
                    Some(v) => match latest_voting_round_spec(s.rounds@, project_key) {
                        None => Some(Error::NoActiveRound),
                        Some(k) => if !(now > s.rounds@[k - 1].end || milestone_outcome_decided(
                            v,
                            s.projects@[project_key as int].raised_funds as int,
                        )) {
                            Some(Error::MilestoneVotingNotComplete)
                        } else if v.yay <= v.nay {
                            Some(Error::VoteThresholdNotMet)
                        } else {
                            None
                        },
                    },
                }
            }
        },
        _ => Some(Error::BadOrigin),
    }
}

/// Whether the stored tally of `(pk, mk)` favours approval: more weight
/// behind yay than behind nay.
pub open spec fn favorably_tallied(s: Pallet, pk: ProjectKey, mk: MilestoneKey) -> bool {
    match milestone_vote_of(s.milestone_votes@, pk, mk) {
        Some(v) => v.yay > v.nay,
        None => false,
    }
}

/// The first problem among the milestone keys handed to `approve`, if any:
/// each key must name an existing milestone with a stored tally.
pub open spec fn approve_keys_error(
    s: Pallet,
    pk: ProjectKey,
    mks: Seq<MilestoneKey>,
) -> Option<Error>
    decreases mks.len(),
{
    if mks.len() == 0 {
        None
    } else if mks[0] >= s.projects@[pk as int].milestones@.len() {
        Some(Error::MilestoneDoesNotExist)
    } else if milestone_vote_of(s.milestone_votes@, pk, mks[0]) is None {
        Some(Error::KeyNotFound)
    } else {
        approve_keys_error(s, pk, mks.subrange(1, mks.len() as int))
    }
}

/// Why an `approve` call is rejected, if it is: only the authority may
/// approve, the resolved contribution round must exist, list the project,
/// be non-canceled and already ended, and every supplied milestone key must
/// name an existing milestone with a stored tally.
pub open spec fn approve_error(
    s: Pallet,
    origin: Origin,
    round_key: Option<RoundKey>,
    project_key: ProjectKey,
    mks: Seq<MilestoneKey>,
    now: BlockNumber,
) -> Option<Error> {
    let rk = crate::funding::resolved_round_key(s, round_key);
    if !(origin is Root) {
        Some(Error::BadOrigin)
    } else if mks.len() > crate::types::MAX_MILESTONE_KEYS {
        Some(Error::ParamLimitExceed)
    } else if project_key >= s.projects@.len() {
        Some(Error::ProjectDoesNotExist)
    } else if !(1 <= rk <= s.rounds@.len()) {
        Some(Error::NoActiveRound)
    } else if s.rounds@[rk - 1].is_canceled {
        Some(Error::RoundCanceled)
    } else if !(s.rounds@[rk - 1].round_type is ContributionRound) {
        Some(Error::InvalidRoundType)
    } else if !s.rounds@[rk - 1].project_keys@.contains(project_key) {
        Some(Error::ProjectNotInRound)
    } else if now <= s.rounds@[rk - 1].end {
        Some(Error::RoundNotEnded)
    } else {
        approve_keys_error(s, project_key, mks)
    }
}

impl Pallet {
    /// Approves a project for funding once its contribution round has
    /// ended; authority only.  Supplied milestone keys bootstrap approval:
    /// each whose tally already favours approval is marked approved
    /// immediately.
    pub fn approve(
        &mut self,
        origin: Origin,
        round_key: Option<RoundKey>,
        project_key: ProjectKey,
        milestone_keys: Option<Vec<MilestoneKey>>,
        now: BlockNumber,
    ) -> (r: Result<(), Error>)
        requires
            old(self).wf(),
        ensures
            final(self).wf(),
            r is Err <==> approve_error(
                *old(self),
                origin,
                round_key,
                project_key,
                match milestone_keys {
                    Some(v) => v@,
                    None => Seq::<MilestoneKey>::empty(),
                },
                now,
            ) is Some,
            r matches Err(e) ==> {
                &&& Some(e) == approve_error(
                    *old(self),
                    origin,
                    round_key,
                    project_key,
                    match milestone_keys {
                        Some(v) => v@,
                        None => Seq::<MilestoneKey>::empty(),
                    },
                    now,
                )
                &&& *final(self) == *old(self)
            },
            r is Ok ==> ({
                let mks = match milestone_keys {
                    Some(v) => v@,
                    None => Seq::<MilestoneKey>::empty(),
                };
                let p0 = old(self).projects@[project_key as int];
                let p1 = final(self).projects@[project_key as int];
                &&& final(self).projects@.len() == old(self).projects@.len()
                &&& forall|i: int|
                    0 <= i < old(self).projects@.len() && i != project_key
                        ==> final(self).projects@[i] == old(self).projects@[i]
                &&& p1.name == p0.name
                &&& p1.logo == p0.logo
                &&& p1.description == p0.description
                &&& p1.website == p0.website
                &&& p1.contributions == p0.contributions
                &&& p1.raised_funds == p0.raised_funds
                &&& p1.withdrawn_funds == p0.withdrawn_funds
                &&& p1.currency_id == p0.currency_id
                &&& p1.required_funds == p0.required_funds
                &&& p1.initiator == p0.initiator
                &&& p1.create_block_number == p0.create_block_number
                &&& p1.cancelled == p0.cancelled
                &&& p1.approved_for_funding
                &&& p1.funding_threshold_met == (p0.raised_funds >= p0.required_funds)
                &&& p1.milestones@.len() == p0.milestones@.len()
                &&& forall|m: int|
                    0 <= m < p0.milestones@.len() ==> if mks.contains(m as MilestoneKey)
                        && favorably_tallied(*old(self), project_key, m as MilestoneKey) {
                        milestone_approved_version(
                            p0.milestones@[m],
                            #[trigger] p1.milestones@[m],
                        )
                    } else {
                        p1.milestones@[m] == p0.milestones@[m]
                    }
                &&& forall|pk2: ProjectKey, m2: MilestoneKey|
                    !(pk2 == project_key && mks.contains(m2) && favorably_tallied(
                        *old(self),
                        pk2,
                        m2,
                    )) ==> milestone_vote_of(final(self).milestone_votes@, pk2, m2)
                        == milestone_vote_of(old(self).milestone_votes@, pk2, m2)
                &&& forall|m2: MilestoneKey|
                    mks.contains(m2) && favorably_tallied(*old(self), project_key, m2)
                        ==> milestone_vote_of(final(self).milestone_votes@, project_key, m2)
                        == Some(
                        Vote {
                            yay: milestone_vote_of(
                                old(self).milestone_votes@,
                                project_key,
                                m2,
                            )->Some_0.yay,
                            nay: milestone_vote_of(
                                old(self).milestone_votes@,
                                project_key,
                                m2,
                            )->Some_0.nay,
                            is_approved: true,
                        },
                    )
                &&& final(self).rounds == old(self).rounds
                &&& final(self).whitelists == old(self).whitelists
                &&& final(self).user_votes == old(self).user_votes
                &&& final(self).no_confidence_votes == old(self).no_confidence_votes
                &&& pushed(old(self).events@, final(self).events@)
                &&& final(self).events@.last() == Event::ProjectApproved(
                    (crate::funding::resolved_round_key(*old(self), round_key)) as RoundKey,
                    project_key,
                )
            }),
            old(self).same_params(*final(self)),
            milestone_approvals_preserved(*old(self), *final(self)),
    {
        if !matches!(origin, Origin::Root) {
            return Err(Error::BadOrigin);
        }
        let mks: Vec<MilestoneKey> = match milestone_keys {
            Some(v) => v,
            None => Vec::new(),
        };
        proof {
            if milestone_keys is None {
                assert(mks@ =~= Seq::<MilestoneKey>::empty());
            }
        }
        if mks.len() > crate::types::MAX_MILESTONE_KEYS {
            return Err(Error::ParamLimitExceed);
        }
        if (project_key as usize) >= self.projects.len() {
            return Err(Error::ProjectDoesNotExist);
        }
        let rk: RoundKey = match round_key {
            Some(k) => k,
            None => self.rounds.len() as RoundKey,
        };
        if rk < 1 || (rk as usize) > self.rounds.len() {
            return Err(Error::NoActiveRound);
        }
        let round = &self.rounds[(rk as usize) - 1];
        if round.is_canceled {
            return Err(Error::RoundCanceled);
        }
        if !matches!(round.round_type, RoundType::ContributionRound) {
            return Err(Error::InvalidRoundType);
        }
        if !crate::lookups::keys_contain(&round.project_keys, project_key) {
            return Err(Error::ProjectNotInRound);
        }
        if now <= round.end {
            return Err(Error::RoundNotEnded);
        }

        let mlen = self.projects[project_key as usize].milestones.len();

        // Validate every supplied key before touching any state.
        assert(mks@.skip(0) =~= mks@);
        assert(approve_error(*self, origin, round_key, project_key, mks@, now)
            == approve_keys_error(*self, project_key, mks@));
        let mut j: usize = 0;
        while j < mks.len()
            invariant
                j <= mks@.len(),
                self.wf(),
                *self == *old(self),
                mks@ == (match milestone_keys {
                    Some(v) => v@,
                    None => Seq::<MilestoneKey>::empty(),
                }),
                project_key < self.projects@.len(),
                mlen == self.projects@[project_key as int].milestones@.len(),
                approve_error(*self, origin, round_key, project_key, mks@, now)
                    == approve_keys_error(*self, project_key, mks@),
                approve_keys_error(*self, project_key, mks@) == approve_keys_error(
                    *self,
                    project_key,
                    mks@.skip(j as int),
                ),
                forall|t: int|
                    0 <= t < j ==> (#[trigger] mks@[t]) < mlen && milestone_vote_of(
                        self.milestone_votes@,
                        project_key,
                        mks@[t],
                    ) is Some,
            decreases mks@.len() - j,
        {
            let mk = mks[j];
            proof {
                assert(mks@.skip(j as int)[0] == mk);
                assert(mks@.skip(j as int).subrange(1, mks@.skip(j as int).len() as int)
                    =~= mks@.skip(j + 1));
            }
            if (mk as usize) >= mlen {
                return Err(Error::MilestoneDoesNotExist);
            }
            match find_milestone_vote(&self.milestone_votes, project_key, mk) {
                Some(i) => {
                    proof {
                        lemma_milestone_vote_at(self.milestone_votes@, i as int);
                    }
                },
                None => {
                    proof {
                        lemma_milestone_vote_absent(self.milestone_votes@, project_key, mk);
                    }
                    return Err(Error::KeyNotFound);
                },
            }
            j = j + 1;
        }
        proof {
            assert(mks@.skip(mks@.len() as int) =~= Seq::<MilestoneKey>::empty());
        }

        // Mark the favourably tallied milestones approved.
        let ghost pre = *self;
        let mut t: usize = 0;
        while t < mks.len()
            invariant
                t <= mks@.len(),
                self.wf(),
                *self == (Pallet {
                    projects: self.projects,
                    milestone_votes: self.milestone_votes,
                    ..pre
                }),
                project_key < pre.projects@.len(),
                mlen == pre.projects@[project_key as int].milestones@.len(),
                forall|t2: int|
                    0 <= t2 < mks@.len() ==> (#[trigger] mks@[t2]) < mlen && milestone_vote_of(
                        pre.milestone_votes@,
                        project_key,
                        mks@[t2],
                    ) is Some,
                forall|t2: int|
                    0 <= t2 < mks@.len() ==> milestone_vote_of(
                        self.milestone_votes@,
                        project_key,
                        #[trigger] mks@[t2],
                    ) is Some,
                self.projects@.len() == pre.projects@.len(),
                forall|i: int|
                    0 <= i < pre.projects@.len() && i != project_key
                        ==> self.projects@[i] == pre.projects@[i],
                same_except_milestones(
                    pre.projects@[project_key as int],
                    self.projects@[project_key as int],
                ),
                self.projects@[project_key as int].milestones@.len() == mlen,
                forall|m: int|
                    0 <= m < mlen ==> if mks@.take(t as int).contains(m as MilestoneKey)
                        && favorably_tallied(pre, project_key, m as MilestoneKey) {
                        milestone_approved_version(
                            pre.projects@[project_key as int].milestones@[m],
                            #[trigger] self.projects@[project_key as int].milestones@[m],
                        )
                    } else {
                        self.projects@[project_key as int].milestones@[m]
                            == pre.projects@[project_key as int].milestones@[m]
                    },
                forall|pk2: ProjectKey, m2: MilestoneKey|
                    #![trigger milestone_vote_of(self.milestone_votes@, pk2, m2)]
                    !(pk2 == project_key && mks@.take(t as int).contains(m2)
                        && favorably_tallied(pre, pk2, m2)) ==> milestone_vote_of(
                        self.milestone_votes@,
                        pk2,
                        m2,
                    ) == milestone_vote_of(pre.milestone_votes@, pk2, m2),
                forall|m2: MilestoneKey|
                    #![trigger milestone_vote_of(self.milestone_votes@, project_key, m2)]
                    mks@.take(t as int).contains(m2) && favorably_tallied(
                        pre,
                        project_key,
                        m2,
                    ) ==> milestone_vote_of(self.milestone_votes@, project_key, m2) == Some(
                        Vote {
                            yay: milestone_vote_of(
                                pre.milestone_votes@,
                                project_key,
                                m2,
                            )->Some_0.yay,
                            nay: milestone_vote_of(
                                pre.milestone_votes@,
                                project_key,
                                m2,
                            )->Some_0.nay,
                            is_approved: true,
                        },
                    ),
            decreases mks@.len() - t,
        {
            let mk = mks[t];
            let ghost votes_top = self.milestone_votes@;
            proof {
                assert(mks@.take(t + 1).drop_last() =~= mks@.take(t as int));
                assert(mks@.take(t + 1).last() == mk);
            }
            let v_idx = match find_milestone_vote(&self.milestone_votes, project_key, mk) {
                Some(i) => {
                    proof {
                        lemma_milestone_vote_at(self.milestone_votes@, i as int);
                    }
                    i
                },
                None => {
                    proof {
                        lemma_milestone_vote_absent(self.milestone_votes@, project_key, mk);
                        assert(milestone_vote_of(self.milestone_votes@, project_key, mks@[
                            t as int
                        ]) is Some);
                        assert(false);
                    }
                    return Err(Error::KeyNotFound);
                },
            };
            let v = self.milestone_votes[v_idx].vote;
            proof {
                // The current tally carries the weights of the original one.
                if mks@.take(t as int).contains(mk) && favorably_tallied(pre, project_key, mk) {
                } else {
                    assert(milestone_vote_of(votes_top, project_key, mk) == milestone_vote_of(
                        pre.milestone_votes@,
                        project_key,
                        mk,
                    ));
                }
                assert(favorably_tallied(pre, project_key, mk) == (v.yay > v.nay));
                assert(milestone_vote_of(pre.milestone_votes@, project_key, mk) is Some);
                assert(milestone_vote_of(pre.milestone_votes@, project_key, mk)->Some_0.yay
                    == v.yay);
                assert(milestone_vote_of(pre.milestone_votes@, project_key, mk)->Some_0.nay
                    == v.nay);
            }
            if v.yay > v.nay {
                let ghost ms_pre = self.projects@[project_key as int].milestones@;
                let p = entry_mut(&mut self.projects, project_key as usize);
                let m = entry_mut(&mut p.milestones, mk as usize);
                m.is_approved = true;
                proof {
                    assert(p.milestones@ == ms_pre.update(mk as int, *m));
                    lemma_percent_sums_update(ms_pre, mk as int, p.milestones@[mk as int]);
                    lemma_approved_le_percent_sum(ms_pre);
                    lemma_approved_le_percent_sum(p.milestones@);
                    crate::arith::lemma_portion_monotone_share(
                        pre.projects@[project_key as int].raised_funds as int,
                        crate::lookups::approved_percent_sum(ms_pre),
                        crate::lookups::approved_percent_sum(p.milestones@),
                    );
                    assert(project_wf(*p, project_key as int));
                }
                let entry = MilestoneVoteEntry {
                    project_key,
                    milestone_key: mk,
                    vote: Vote { yay: v.yay, nay: v.nay, is_approved: true },
                };
                let ghost mid = self.milestone_votes@;
                proof {
                    lemma_milestone_votes_update(self.milestone_votes@, v_idx as int, entry);
                }
                let e = entry_mut(&mut self.milestone_votes, v_idx);
                *e = entry;
                proof {
                    assert(self.milestone_votes@ == mid.update(v_idx as int, entry));
                }
            }
            proof {
                let cur = self.milestone_votes@;
                assert(mks@.take(t + 1)[t as int] == mk);
                assert(mks@.take(t + 1).contains(mk));
                assert forall|pk2: ProjectKey, m2: MilestoneKey|
                    !(pk2 == project_key && mks@.take(t + 1).contains(m2) && favorably_tallied(
                        pre,
                        pk2,
                        m2,
                    )) implies milestone_vote_of(cur, pk2, m2) == milestone_vote_of(
                    pre.milestone_votes@,
                    pk2,
                    m2,
                ) by {
                    if mks@.take(t as int).contains(m2) {
                        let ti = choose|ti: int|
                            0 <= ti < t && (#[trigger] mks@.take(t as int)[ti]) == m2;
                        assert(mks@.take(t + 1)[ti] == m2);
                        assert(mks@.take(t + 1).contains(m2));
                    }
                    assert(!(pk2 == project_key && mks@.take(t as int).contains(m2)
                        && favorably_tallied(pre, pk2, m2)));
                    assert(milestone_vote_of(votes_top, pk2, m2) == milestone_vote_of(
                        pre.milestone_votes@,
                        pk2,
                        m2,
                    ));
                    if !(pk2 == project_key && m2 == mk) {
                        assert(milestone_vote_of(cur, pk2, m2) == milestone_vote_of(
                            votes_top,
                            pk2,
                            m2,
                        ));
                    }
                }
                assert forall|m2: MilestoneKey|
                    mks@.take(t + 1).contains(m2) && favorably_tallied(
                        pre,
                        project_key,
                        m2,
                    ) implies milestone_vote_of(cur, project_key, m2) == Some(
                    Vote {
                        yay: milestone_vote_of(pre.milestone_votes@, project_key, m2)->Some_0.yay,
                        nay: milestone_vote_of(pre.milestone_votes@, project_key, m2)->Some_0.nay,
                        is_approved: true,
                    },
                ) by {
                    if m2 == mk {
                    } else {
                        let ti = choose|ti: int|
                            0 <= ti < t + 1 && (#[trigger] mks@.take(t + 1)[ti]) == m2;
                        assert(ti < t);
                        assert(mks@.take(t as int)[ti] == m2);
                        assert(mks@.take(t as int).contains(m2));
                        assert(milestone_vote_of(cur, project_key, m2) == milestone_vote_of(
                            votes_top,
                            project_key,
                            m2,
                        ));
                    }
                }
                assert forall|t2: int| 0 <= t2 < mks@.len() implies milestone_vote_of(
                    cur,
                    project_key,
                    #[trigger] mks@[t2],
                ) is Some by {
                    if mks@[t2] != mk {
                        assert(milestone_vote_of(cur, project_key, mks@[t2])
                            == milestone_vote_of(votes_top, project_key, mks@[t2]));
                    }
                }
                assert forall|m: int|
                    0 <= m < mlen implies (if mks@.take(t + 1).contains(m as MilestoneKey)
                        && favorably_tallied(pre, project_key, m as MilestoneKey) {
                        milestone_approved_version(
                            pre.projects@[project_key as int].milestones@[m],
                            self.projects@[project_key as int].milestones@[m],
                        )
                    } else {
                        self.projects@[project_key as int].milestones@[m]
                            == pre.projects@[project_key as int].milestones@[m]
                    }) by {
                    if mks@.take(t as int).contains(m as MilestoneKey) {
                        let ti = choose|ti: int|
                            0 <= ti < t && (#[trigger] mks@.take(t as int)[ti]) == m as MilestoneKey;
                        assert(mks@.take(t + 1)[ti] == m as MilestoneKey);
                        assert(mks@.take(t + 1).contains(m as MilestoneKey));
                    } else if m == mk as int && v.yay > v.nay {
                        assert(mks@.take(t + 1).contains(mk));
                    } else if mks@.take(t + 1).contains(m as MilestoneKey) {
                        let ti = choose|ti: int|
                            0 <= ti < t + 1 && (#[trigger] mks@.take(t + 1)[ti]) == m as MilestoneKey;
                        if ti < t {
                            assert(mks@.take(t as int)[ti] == m as MilestoneKey);
                            assert(mks@.take(t as int).contains(m as MilestoneKey));
                        }
                    }
                }
            }
            t = t + 1;
        }
        proof {
            assert(mks@.take(mks@.len() as int) =~= mks@);
        }

        let raised = self.projects[project_key as usize].raised_funds;
        let required = self.projects[project_key as usize].required_funds;
        let p = entry_mut(&mut self.projects, project_key as usize);
        p.approved_for_funding = true;
        p.funding_threshold_met = raised >= required;
        proof {
            assert(project_wf(*p, project_key as int));
        }
        self.events.push(Event::ProjectApproved(rk, project_key));
        Ok(())
    }

    /// Submits a milestone for voting: opens a fresh voting round over the
    /// project with a window of `milestone_voting_window` blocks from `now`
    /// and resets the milestone's tally to zero.  Initiator only.
    pub fn submit_milestone(
        &mut self,
        origin: Origin,
        project_key: ProjectKey,
        milestone_key: MilestoneKey,
        now: BlockNumber,
    ) -> (r: Result<RoundKey, Error>)
        requires
            old(self).wf(),
        ensures
            final(self).wf(),
            r is Err <==> submit_milestone_error(
                *old(self),
                origin,
                project_key,
                milestone_key,
                now,
            ) is Some,
            r matches Err(e) ==> {
                &&& Some(e) == submit_milestone_error(
                    *old(self),
                    origin,
                    project_key,
                    milestone_key,
                    now,
                )
                &&& *final(self) == *old(self)
            },
            r matches Ok(k) ==> {
                &&& k == old(self).rounds@.len() + 1
                &&& final(self).rounds@.len() == k
                &&& forall|i: int|
                    0 <= i < old(self).rounds@.len()
                        ==> final(self).rounds@[i] == old(self).rounds@[i]
                &&& ({
                    let rd = final(self).rounds@[k - 1];
                    &&& rd.start == now
                    &&& rd.end == now + old(self).milestone_voting_window
                    &&& rd.project_keys@ == seq![project_key]
                    &&& rd.round_type is VotingRound
                    &&& !rd.is_canceled
                })
                &&& milestone_vote_of(final(self).milestone_votes@, project_key, milestone_key)
                    == Some(zero_vote())
                &&& forall|pk2: ProjectKey, mk2: MilestoneKey|
                    !(pk2 == project_key && mk2 == milestone_key) ==> milestone_vote_of(
                        final(self).milestone_votes@,
                        pk2,
                        mk2,
                    ) == milestone_vote_of(old(self).milestone_votes@, pk2, mk2)
                &&& final(self).projects == old(self).projects
                &&& final(self).whitelists == old(self).whitelists
                &&& final(self).user_votes == old(self).user_votes
                &&& final(self).no_confidence_votes == old(self).no_confidence_votes
                &&& pushed(old(self).events@, final(self).events@)
                &&& (final(self).events@.last() matches Event::VotingRoundCreated(ek, eks) && ek
                    == k && eks@ == seq![project_key])
            },
            old(self).same_params(*final(self)),
            milestone_approvals_preserved(*old(self), *final(self)),
    {
        let who: AccountId = match origin {
            Origin::Signed(a) => a,
            _ => {
                return Err(Error::BadOrigin);
            },
        };
        if (project_key as usize) >= self.projects.len() {
            return Err(Error::ProjectDoesNotExist);
        }
        if self.projects[project_key as usize].initiator != who {
            return Err(Error::UserIsNotInitator);
        }
        if !self.projects[project_key as usize].approved_for_funding {
            return Err(Error::OnlyApprovedProjectsCanSubmitMilestones);
        }
        if (milestone_key as usize) >= self.projects[project_key as usize].milestones.len() {
            return Err(Error::MilestoneDoesNotExist);
        }
        if self.projects[project_key as usize].milestones[milestone_key as usize].is_approved {
            return Err(Error::MilestoneAlreadyApproved);
        }
        let window = self.milestone_voting_window as u64;
        if now > u64::MAX - window {
            return Err(Error::Overflow);
        }
        if self.rounds.len() >= u32::MAX as usize {
            return Err(Error::Overflow);
        }

        let key: RoundKey = (self.rounds.len() as RoundKey) + 1;
        let end = now + window;

        let entry = MilestoneVoteEntry {
            project_key,
            milestone_key,
            vote: Vote::zeroed(),
        };
        let ghost mid = self.milestone_votes@;
        match find_milestone_vote(&self.milestone_votes, project_key, milestone_key) {
            Some(i) => {
                proof {
                    lemma_milestone_votes_update(self.milestone_votes@, i as int, entry);
                }
                let e = entry_mut(&mut self.milestone_votes, i);
                *e = entry;
                proof {
                    assert(self.milestone_votes@ == mid.update(i as int, entry));
                }
            },
            None => {
                proof {
                    lemma_milestone_votes_push(self.milestone_votes@, entry);
                }
                self.milestone_votes.push(entry);
            },
        }

        let mut keys: Vec<ProjectKey> = Vec::new();
        keys.push(project_key);
        assert(keys@ =~= seq![project_key]);
        let event_keys = crate::lookups::copy_vec(&keys);
        let round = Round::new(now, end, keys, RoundType::VotingRound);
        proof {
            assert(round_wf(round, self.projects@.len() as int));
        }
        self.rounds.push(round);
        self.events.push(Event::VotingRoundCreated(key, event_keys));
        Ok(key)
    }

    /// Records a contribution-weighted vote on a milestone inside a live
    /// voting round.  The voter's full contribution value backs exactly one
    /// side, and at most one vote per (voter, project, milestone, round) is
    /// ever accepted.
    pub fn vote_on_milestone(
        &mut self,
        origin: Origin,
        project_key: ProjectKey,
        milestone_key: MilestoneKey,
        round_key: Option<RoundKey>,
        approve_milestone: bool,
        now: BlockNumber,
    ) -> (r: Result<(), Error>)
        requires
            old(self).wf(),
        ensures
            final(self).wf(),
            r is Err <==> vote_on_milestone_error(
                *old(self),
                origin,
                project_key,
                milestone_key,
                round_key,
                approve_milestone,
                now,
            ) is Some,
            r matches Err(e) ==> {
                &&& Some(e) == vote_on_milestone_error(
                    *old(self),
                    origin,
                    project_key,
                    milestone_key,
                    round_key,
                    approve_milestone,
                    now,
                )
                &&& *final(self) == *old(self)
            },
            r is Ok ==> (origin matches Origin::Signed(who) && {
                let weight = contribution_value_of(
                    old(self).projects@[project_key as int].contributions@,
                    who,
                );
                let rk = crate::funding::resolved_round_key(*old(self), round_key);
                let v0 = milestone_vote_of(
                    old(self).milestone_votes@,
                    project_key,
                    milestone_key,
                )->Some_0;
                &&& milestone_vote_of(old(self).milestone_votes@, project_key, milestone_key)
                    is Some
                &&& milestone_vote_of(final(self).milestone_votes@, project_key, milestone_key)
                    == Some(
                    Vote {
                        yay: if approve_milestone {
                            (v0.yay + weight) as u64
                        } else {
                            v0.yay
                        },
                        nay: if approve_milestone {
                            v0.nay
                        } else {
                            (v0.nay + weight) as u64
                        },
                        is_approved: v0.is_approved,
                    },
                )
                &&& forall|pk2: ProjectKey, mk2: MilestoneKey|
                    !(pk2 == project_key && mk2 == milestone_key) ==> milestone_vote_of(
                        final(self).milestone_votes@,
                        pk2,
                        mk2,
                    ) == milestone_vote_of(old(self).milestone_votes@, pk2, mk2)
                &&& final(self).user_votes@ == old(self).user_votes@.push(
                    UserVote {
                        account: who,
                        project_key,
                        milestone_key,
                        round_key: rk as RoundKey,
                    },
                )
                &&& final(self).projects == old(self).projects
                &&& final(self).rounds == old(self).rounds
                &&& final(self).whitelists == old(self).whitelists
                &&& final(self).no_confidence_votes == old(self).no_confidence_votes
                &&& pushed(old(self).events@, final(self).events@)
                &&& final(self).events@.last() == Event::VoteComplete(
                    who,
                    project_key,
                    milestone_key,
                    approve_milestone,
                    now,
                )
            }),
            old(self).same_params(*final(self)),
            milestone_approvals_preserved(*old(self), *final(self)),
    {
        let who: AccountId = match origin {
            Origin::Signed(a) => a,
            _ => {
                return Err(Error::BadOrigin);
            },
        };
        if (project_key as usize) >= self.projects.len() {
            return Err(Error::ProjectDoesNotExist);
        }
        let weight: u64 = match find_contribution(
            &self.projects[project_key as usize].contributions,
            who,
        ) {
            Some(i) => {
                proof {
                    lemma_contribution_at(
                        self.projects@[project_key as int].contributions@,
                        i as int,
                    );
                }
                self.projects[project_key as usize].contributions[i].contribution.value
            },
            None => {
                proof {
                    lemma_contribution_absent(
                        self.projects@[project_key as int].contributions@,
                        who,
                    );
                }
                0
            },
        };
        if weight == 0 {
            return Err(Error::OnlyContributorsCanVote);
        }
        let rk: RoundKey = match round_key {
            Some(k) => k,
            None => self.rounds.len() as RoundKey,
        };
        if rk < 1 || (rk as usize) > self.rounds.len() {
            return Err(Error::NoActiveRound);
        }
        let round = &self.rounds[(rk as usize) - 1];
        if round.is_canceled {
            return Err(Error::RoundCanceled);
        }
        if !matches!(round.round_type, RoundType::VotingRound) {
            return Err(Error::InvalidRoundType);
        }
        if !crate::lookups::keys_contain(&round.project_keys, project_key) {
            return Err(Error::ProjectNotInRound);
        }
        if !(round.start <= now && now < round.end) {
            return Err(Error::RoundNotProcessing);
        }
        if (milestone_key as usize) >= self.projects[project_key as usize].milestones.len() {
            return Err(Error::MilestoneDoesNotExist);
        }
        let v_idx = match find_milestone_vote(&self.milestone_votes, project_key, milestone_key) {
            Some(i) => {
                proof {
                    lemma_milestone_vote_at(self.milestone_votes@, i as int);
                }
                i
            },
            None => {
                proof {
                    lemma_milestone_vote_absent(self.milestone_votes@, project_key, milestone_key);
                }
                return Err(Error::KeyNotFound);
            },
        };
        if self.user_votes(who, project_key, milestone_key, rk) {
            return Err(Error::VoteAlreadyExists);
        }
        let v0 = self.milestone_votes[v_idx].vote;
        if (if approve_milestone {
            v0.yay
        } else {
            v0.nay
        }) > u64::MAX - weight {
            return Err(Error::Overflow);
        }

        let new_vote = if approve_milestone {
            Vote { yay: v0.yay + weight, nay: v0.nay, is_approved: v0.is_approved }
        } else {
            Vote { yay: v0.yay, nay: v0.nay + weight, is_approved: v0.is_approved }
        };
        let entry = MilestoneVoteEntry { project_key, milestone_key, vote: new_vote };
        let ghost mid = self.milestone_votes@;
        proof {
            lemma_milestone_votes_update(self.milestone_votes@, v_idx as int, entry);
        }
        let e = entry_mut(&mut self.milestone_votes, v_idx);
        *e = entry;
        proof {
            assert(self.milestone_votes@ == mid.update(v_idx as int, entry));
        }
        self.user_votes.push(
            UserVote { account: who, project_key, milestone_key, round_key: rk },
        );
        self.events.push(
            Event::VoteComplete(who, project_key, milestone_key, approve_milestone, now),
        );
        Ok(())
    }

    /// Finalises milestone voting: approves the milestone permanently when
    /// the yays strictly outweigh the nays, once the voting window of the
    /// project's latest voting round has elapsed or the outcome is decided.
    /// Initiator only; a rejected tally leaves the store untouched and the
    /// milestone open for resubmission.
    pub fn finalise_milestone_voting(
        &mut self,
        origin: Origin,
        project_key: ProjectKey,
        milestone_key: MilestoneKey,
        now: BlockNumber,
    ) -> (r: Result<(), Error>)
        requires
            old(self).wf(),
        ensures
            final(self).wf(),
            r is Err <==> finalise_milestone_voting_error(
                *old(self),
                origin,
                project_key,
                milestone_key,
                now,
            ) is Some,
            r matches Err(e) ==> {
                &&& Some(e) == finalise_milestone_voting_error(
                    *old(self),
                    origin,
                    project_key,
                    milestone_key,
                    now,
                )
                &&& *final(self) == *old(self)
            },
            r is Ok ==> (origin matches Origin::Signed(who) && {
                let p0 = old(self).projects@[project_key as int];
                let p1 = final(self).projects@[project_key as int];
                let v0 = milestone_vote_of(
                    old(self).milestone_votes@,
                    project_key,
                    milestone_key,
                )->Some_0;
                &&& final(self).projects@.len() == old(self).projects@.len()
                &&& forall|i: int|
                    0 <= i < old(self).projects@.len() && i != project_key
                        ==> final(self).projects@[i] == old(self).projects@[i]
                &&& same_except_milestones(p0, p1)
                &&& p1.milestones@.len() == p0.milestones@.len()
                &&& forall|j: int|
                    0 <= j < p0.milestones@.len() && j != milestone_key
                        ==> p1.milestones@[j] == p0.milestones@[j]
                &&& milestone_approved_version(
                    p0.milestones@[milestone_key as int],
                    p1.milestones@[milestone_key as int],
                )
                &&& v0.yay > v0.nay
                &&& milestone_vote_of(final(self).milestone_votes@, project_key, milestone_key)
                    == Some(Vote { yay: v0.yay, nay: v0.nay, is_approved: true })
                &&& forall|pk2: ProjectKey, mk2: MilestoneKey|
                    !(pk2 == project_key && mk2 == milestone_key) ==> milestone_vote_of(
                        final(self).milestone_votes@,
                        pk2,
                        mk2,
                    ) == milestone_vote_of(old(self).milestone_votes@, pk2, mk2)
                &&& final(self).rounds == old(self).rounds
                &&& final(self).whitelists == old(self).whitelists
                &&& final(self).user_votes == old(self).user_votes
                &&& final(self).no_confidence_votes == old(self).no_confidence_votes
                &&& pushed(old(self).events@, final(self).events@)
                &&& final(self).events@.last() == Event::MilestoneApproved(
                    who,
                    project_key,
                    milestone_key,
                    now,
                )
            }),
            old(self).same_params(*final(self)),
            milestone_approvals_preserved(*old(self), *final(self)),
    {
        let who: AccountId = match origin {
            Origin::Signed(a) => a,
            _ => {
                return Err(Error::BadOrigin);
            },
        };
        if (project_key as usize) >= self.projects.len() {
            return Err(Error::ProjectDoesNotExist);
        }
        if self.projects[project_key as usize].initiator != who {
            return Err(Error::OnlyInitiatorOrAdminCanApproveMilestone);
        }
        if (milestone_key as usize) >= self.projects[project_key as usize].milestones.len() {
            return Err(Error::MilestoneDoesNotExist);
        }
        if self.projects[project_key as usize].milestones[milestone_key as usize].is_approved {
            return Err(Error::MilestoneAlreadyApproved);
        }
        let v_idx = match find_milestone_vote(&self.milestone_votes, project_key, milestone_key) {
            Some(i) => {
                proof {
                    lemma_milestone_vote_at(self.milestone_votes@, i as int);
                }
                i
            },
            None => {
                proof {
                    lemma_milestone_vote_absent(self.milestone_votes@, project_key, milestone_key);
                }
                return Err(Error::KeyNotFound);
            },
        };
        let v0 = self.milestone_votes[v_idx].vote;
        proof {
            lemma_latest_voting_round(self.rounds@, project_key);
        }
        let round_key = match self.latest_voting_round_for(project_key) {
            Some(k) => {
                proof {
                    let sv = latest_voting_round_spec(self.rounds@, project_key);
                    assert(Self::voting_round_for(self.rounds@[k - 1], project_key));
                    match sv {
                        Some(k2) => {
                            if k2 < k {
                                assert(!Self::voting_round_for(self.rounds@[k - 1], project_key));
                            } else if k2 > k {
                                assert(Self::voting_round_for(self.rounds@[k2 - 1], project_key));
                                assert(!Self::voting_round_for(
                                    self.rounds@[k2 - 1],
                                    project_key,
                                ));
                            }
                        },
                        None => {
                            assert(!Self::voting_round_for(self.rounds@[k - 1], project_key));
                        },
                    }
                    assert(sv == Some(k as int));
                }
                k
            },
            None => {
                proof {
                    let sv = latest_voting_round_spec(self.rounds@, project_key);
                    match sv {
                        Some(k2) => {
                            assert(Self::voting_round_for(self.rounds@[k2 - 1], project_key));
                            assert(!Self::voting_round_for(self.rounds@[k2 - 1], project_key));
                        },
                        None => {},
                    }
                }
                return Err(Error::NoActiveRound);
            },
        };
        let raised = self.projects[project_key as usize].raised_funds;
        let decided = 2 * (v0.yay as u128) > (raised as u128) || 2 * (v0.nay as u128) >= (
        raised as u128);
        if !(now > self.rounds[(round_key as usize) - 1].end || decided) {
            return Err(Error::MilestoneVotingNotComplete);
        }
        if v0.yay <= v0.nay {
            return Err(Error::VoteThresholdNotMet);
        }

        let ghost p0 = self.projects@[project_key as int];
        let p = entry_mut(&mut self.projects, project_key as usize);
        let ghost ms0 = p.milestones@;
        let m = entry_mut(&mut p.milestones, milestone_key as usize);
        m.is_approved = true;
        proof {
            assert(p.milestones@ == ms0.update(milestone_key as int, *m));
            lemma_percent_sums_update(ms0, milestone_key as int, p.milestones@[
                milestone_key as int
            ]);
            lemma_approved_le_percent_sum(ms0);
            lemma_approved_le_percent_sum(p.milestones@);
            crate::arith::lemma_portion_monotone_share(
                p0.raised_funds as int,
                crate::lookups::approved_percent_sum(ms0),
                crate::lookups::approved_percent_sum(p.milestones@),
            );
            assert(project_wf(*p, project_key as int));
        }

        let entry = MilestoneVoteEntry {
            project_key,
            milestone_key,
            vote: Vote { yay: v0.yay, nay: v0.nay, is_approved: true },
        };
        let ghost mid = self.milestone_votes@;
        proof {
            lemma_milestone_votes_update(self.milestone_votes@, v_idx as int, entry);
        }
        let e = entry_mut(&mut self.milestone_votes, v_idx);
        *e = entry;
        proof {
            assert(self.milestone_votes@ == mid.update(v_idx as int, entry));
        }
        self.events.push(
            Event::MilestoneApproved(who, project_key, milestone_key, now),
        );
        Ok(())
    }
}

} // verus!
