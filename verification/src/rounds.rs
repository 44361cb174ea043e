//! The funding round scheduler: round creation and cancellation.

use vstd::prelude::*;

use crate::lookups::copy_vec;
use crate::lookups::entry_mut;
use crate::lookups::find_milestone_vote;
use crate::lookups::lemma_milestone_votes_push;
use crate::lookups::lemma_milestone_votes_update;
use crate::lookups::milestone_vote_of;
use crate::lookups::milestone_votes_distinct;
use crate::pallet::milestone_approvals_preserved;
use crate::pallet::round_wf;
use crate::pallet::Pallet;
use crate::types::pushed;
use crate::types::zero_vote;
use crate::types::BlockNumber;
use crate::types::Error;
use crate::types::Event;
use crate::types::MilestoneKey;
use crate::types::MilestoneVoteEntry;
use crate::types::Origin;
use crate::types::ProjectKey;
use crate::types::Round;
use crate::types::RoundKey;
use crate::types::RoundType;
use crate::types::Vote;
use crate::types::MAX_PROJECT_KEYS;
use crate::types::MAX_PROPOSED_MILESTONES;

verus! {

/// Why a `schedule_round` call is rejected, if it is: only the authority may
/// schedule, the window must be non-empty and end in the future, the round
/// must name at least one and at most the accepted number of projects, every
/// named project must exist, and the key space must not be exhausted.
pub open spec fn schedule_round_error(
    s: Pallet,
    origin: Origin,
    start: BlockNumber,
    end: BlockNumber,
    keys: Seq<ProjectKey>,
    now: BlockNumber,
) -> Option<Error> {
    if !(origin is Root) {
        Some(Error::BadOrigin)
    } else if end <= start {
        Some(Error::EndTooEarly)
    } else if end <= now {
        Some(Error::EndBlockNumberInvalid)
    } else if keys.len() == 0 {
        Some(Error::LengthMustExceedZero)
    } else if keys.len() > MAX_PROJECT_KEYS {
        Some(Error::ParamLimitExceed)
    } else if exists|i: int| 0 <= i < keys.len() && keys[i] >= s.projects@.len() {
        Some(Error::ProjectDoesNotExist)
    } else if s.rounds@.len() >= u32::MAX {
        Some(Error::Overflow)
    } else {
        None
    }
}

/// What `schedule_round` leaves in the milestone-vote tallies: for a voting
/// round, a zeroed tally for every (project, milestone) pair the round
/// touches; every other tally as it was.
pub open spec fn tallies_zeroed_for(
    pre: Pallet,
    post: Pallet,
    keys: Seq<ProjectKey>,
) -> bool {
    &&& forall|pk: ProjectKey, mk: MilestoneKey|
        keys.contains(pk) && mk < pre.projects@[pk as int].milestones@.len()
            ==> milestone_vote_of(post.milestone_votes@, pk, mk) == Some(zero_vote())
    &&& forall|pk: ProjectKey, mk: MilestoneKey|
        !(keys.contains(pk) && mk < pre.projects@[pk as int].milestones@.len())
            ==> milestone_vote_of(post.milestone_votes@, pk, mk) == milestone_vote_of(
                pre.milestone_votes@,
                pk,
                mk,
            )
}

impl Pallet {
    /// Schedules a round over a set of existing projects; authority only.
    /// For a voting round, the tally of every (project, milestone) pair the
    /// round touches is reset to zero.
    pub fn schedule_round(
        &mut self,
        origin: Origin,
        start: BlockNumber,
        end: BlockNumber,
        project_keys: Vec<ProjectKey>,
        round_type: RoundType,
        now: BlockNumber,
    ) -> (r: Result<RoundKey, Error>)
        requires
            old(self).wf(),
        ensures
            final(self).wf(),
            r is Err <==> schedule_round_error(
                *old(self),
                origin,
                start,
                end,
                project_keys@,
                now,
            ) is Some,
            r matches Err(e) ==> {
                &&& Some(e) == schedule_round_error(
                    *old(self),
                    origin,
                    start,
                    end,
                    project_keys@,
                    now,
                )
                &&& *final(self) == *old(self)
            },
            r matches Ok(k) ==> {
                &&& k == old(self).rounds@.len() + 1
                &&& final(self).rounds@.len() == k
                &&& forall|i: int|
                    0 <= i < old(self).rounds@.len()
                        ==> final(self).rounds@[i] == old(self).rounds@[i]
                &&& ({
                    let rd = final(self).rounds@[k - 1];
                    &&& rd.start == start
                    &&& rd.end == end
                    &&& rd.project_keys == project_keys
                    &&& rd.round_type == round_type
                    &&& !rd.is_canceled
                })
                &&& final(self).projects == old(self).projects
                &&& final(self).whitelists == old(self).whitelists
                &&& final(self).user_votes == old(self).user_votes
                &&& final(self).no_confidence_votes == old(self).no_confidence_votes
                &&& (round_type is VotingRound ==> tallies_zeroed_for(
                    *old(self),
                    *final(self),
                    project_keys@,
                ))
                &&& (!(round_type is VotingRound)
                    ==> final(self).milestone_votes == old(self).milestone_votes)
                &&& pushed(old(self).events@, final(self).events@)
                &&& (final(self).events@.last() matches Event::FundingRoundCreated(ek, eks)
                    && ek == k && eks@ == project_keys@)
            },
            old(self).same_params(*final(self)),
            milestone_approvals_preserved(*old(self), *final(self)),
    {
        if !matches!(origin, Origin::Root) {
            return Err(Error::BadOrigin);
        }
        if end <= start {
            return Err(Error::EndTooEarly);
        }
        if end <= now {
            return Err(Error::EndBlockNumberInvalid);
        }
        if project_keys.len() == 0 {
            return Err(Error::LengthMustExceedZero);
        }
        if project_keys.len() > MAX_PROJECT_KEYS {
            return Err(Error::ParamLimitExceed);
        }
        let max = max_key(&project_keys);
        if (max as usize) >= self.projects.len() {
            return Err(Error::ProjectDoesNotExist);
        }
        assert(forall|i: int|
            0 <= i < project_keys@.len() ==> (#[trigger] project_keys@[i])
                < self.projects@.len());
        if self.rounds.len() >= u32::MAX as usize {
            return Err(Error::Overflow);
        }

        let key: RoundKey = (self.rounds.len() as RoundKey) + 1;
        let ghost pre = *self;

        if matches!(round_type, RoundType::VotingRound) {
            let mut t: usize = 0;
            while t < project_keys.len()
                invariant
                    t <= project_keys@.len(),
                    self.wf(),
                    *self == (Pallet { milestone_votes: self.milestone_votes, ..pre }),
                    forall|i: int|
                        0 <= i < project_keys@.len() ==> (#[trigger] project_keys@[i])
                            < self.projects@.len(),
                    forall|pk: ProjectKey, mk: MilestoneKey|
                        project_keys@.take(t as int).contains(pk) && mk < pre.projects@[
                            pk as int
                        ].milestones@.len() ==> milestone_vote_of(self.milestone_votes@, pk, mk)
                            == Some(zero_vote()),
                    forall|pk: ProjectKey, mk: MilestoneKey|
                        !(project_keys@.contains(pk) && mk < pre.projects@[
                            pk as int
                        ].milestones@.len()) ==> milestone_vote_of(self.milestone_votes@, pk, mk)
                            == milestone_vote_of(pre.milestone_votes@, pk, mk),
                decreases project_keys@.len() - t,
            {
                let pk = project_keys[t];
                assert(project_keys@.contains(pk));
                let n_milestones = self.projects[pk as usize].milestones.len();
                let ghost mid = self.milestone_votes@;
                zero_tallies(&mut self.milestone_votes, pk, n_milestones);
                proof {
                    assert(project_keys@.take(t + 1).drop_last() =~= project_keys@.take(t as int));
                    assert(project_keys@.take(t + 1).last() == pk);
                    assert forall|pk2: ProjectKey, mk2: MilestoneKey|
                        project_keys@.take(t + 1).contains(pk2) && mk2 < pre.projects@[
                            pk2 as int
                        ].milestones@.len() implies milestone_vote_of(
                        self.milestone_votes@,
                        pk2,
                        mk2,
                    ) == Some(zero_vote()) by {
                        if pk2 == pk && mk2 < n_milestones {
                        } else {
                            assert(project_keys@.take(t as int).contains(pk2) || pk2 == pk);
                            if pk2 != pk {
                                assert(milestone_vote_of(self.milestone_votes@, pk2, mk2)
                                    == milestone_vote_of(mid, pk2, mk2));
                            }
                        }
                    }
                }
                t = t + 1;
            }
            proof {
                assert(project_keys@.take(project_keys@.len() as int) =~= project_keys@);
            }
        }

        let event_keys = copy_vec(&project_keys);
        let round = Round::new(start, end, project_keys, round_type);
        proof {
            assert(round_wf(round, self.projects@.len() as int));
        }
        self.rounds.push(round);
        self.events.push(Event::FundingRoundCreated(key, event_keys));
        Ok(key)
    }

    /// Cancels a round that has not started yet; authority only.  The round
    /// record is kept, only its cancellation flag is set.
    pub fn cancel_round(&mut self, origin: Origin, round_key: RoundKey, now: BlockNumber) -> (r:
        Result<(), Error>)
        requires
            old(self).wf(),
        ensures
            final(self).wf(),
            r matches Err(e) ==> *final(self) == *old(self),
            r is Err <==> {
                ||| !(origin is Root)
                ||| round_key < 1
                ||| round_key > old(self).rounds@.len()
                ||| old(self).rounds@[round_key - 1].start <= now
                ||| old(self).rounds@[round_key - 1].is_canceled
            },
            r matches Err(e) ==> e == if !(origin is Root) {
                Error::BadOrigin
            } else if round_key < 1 || round_key > old(self).rounds@.len() {
                Error::NoActiveRound
            } else if old(self).rounds@[round_key - 1].start <= now {
                Error::RoundStarted
            } else {
                Error::RoundCanceled
            },
            r is Ok ==> {
                &&& final(self).rounds@.len() == old(self).rounds@.len()
                &&& forall|i: int|
                    0 <= i < old(self).rounds@.len() && i != round_key - 1
                        ==> final(self).rounds@[i] == old(self).rounds@[i]
                &&& ({
                    let rd = final(self).rounds@[round_key - 1];
                    let pre = old(self).rounds@[round_key - 1];
                    &&& rd.is_canceled
                    &&& rd.start == pre.start
                    &&& rd.end == pre.end
                    &&& rd.project_keys == pre.project_keys
                    &&& rd.round_type == pre.round_type
                })
                &&& final(self).projects == old(self).projects
                &&& final(self).whitelists == old(self).whitelists
                &&& final(self).user_votes == old(self).user_votes
                &&& final(self).milestone_votes == old(self).milestone_votes
                &&& final(self).no_confidence_votes == old(self).no_confidence_votes
                &&& pushed(old(self).events@, final(self).events@)
                &&& final(self).events@.last() == Event::RoundCancelled(round_key)
            },
            old(self).same_params(*final(self)),
            milestone_approvals_preserved(*old(self), *final(self)),
    {
        if !matches!(origin, Origin::Root) {
            return Err(Error::BadOrigin);
        }
        if round_key < 1 || (round_key as usize) > self.rounds.len() {
            return Err(Error::NoActiveRound);
        }
        let idx = (round_key as usize) - 1;
        if self.rounds[idx].start <= now {
            return Err(Error::RoundStarted);
        }
        if self.rounds[idx].is_canceled {
            return Err(Error::RoundCanceled);
        }
        let rd = entry_mut(&mut self.rounds, idx);
        rd.is_canceled = true;
        self.events.push(Event::RoundCancelled(round_key));
        Ok(())
    }
}

/// The largest key in a non-empty list.
fn max_key(keys: &Vec<ProjectKey>) -> (m: ProjectKey)
    requires
        keys@.len() > 0,
    ensures
        keys@.contains(m),
        forall|i: int| 0 <= i < keys@.len() ==> keys@[i] <= m,
{
    let mut m: ProjectKey = keys[0];
    assert(keys@.contains(m)) by {
        assert(keys@[0] == m);
    }
    let mut i: usize = 1;
    while i < keys.len()
        invariant
            1 <= i <= keys@.len(),
            keys@.contains(m),
            forall|j: int| 0 <= j < i ==> keys@[j] <= m,
        decreases keys@.len() - i,
    {
        if keys[i] > m {
            m = keys[i];
            assert(keys@.contains(m)) by {
                assert(keys@[i as int] == m);
            }
        }
        i = i + 1;
    }
    m
}

/// Resets the tallies of `(pk, 0) .. (pk, n_milestones)` to zero, touching
/// no other tally.  Every record it leaves behind either belongs to that
/// range or was already there under the same key.
fn zero_tallies(votes: &mut Vec<MilestoneVoteEntry>, pk: ProjectKey, n_milestones: usize)
    requires
        milestone_votes_distinct(old(votes)@),
        n_milestones <= MAX_PROPOSED_MILESTONES,
    ensures
        milestone_votes_distinct(final(votes)@),
        forall|mk: MilestoneKey|
            mk < n_milestones ==> milestone_vote_of(final(votes)@, pk, mk) == Some(zero_vote()),
        forall|pk2: ProjectKey, mk2: MilestoneKey|
            !(pk2 == pk && mk2 < n_milestones) ==> milestone_vote_of(final(votes)@, pk2, mk2)
                == milestone_vote_of(old(votes)@, pk2, mk2),
        forall|i: int|
            0 <= i < final(votes)@.len()
                ==> ((final(votes)@[i].project_key == pk
                    && final(votes)@[i].milestone_key < n_milestones) || exists|t: int|
                    0 <= t < old(votes)@.len()
                        && (#[trigger] old(votes)@[t]).project_key
                            == final(votes)@[i].project_key
                        && old(votes)@[t].milestone_key == final(votes)@[i].milestone_key),
{
    let mut mk: usize = 0;
    while mk < n_milestones
        invariant
            mk <= n_milestones <= MAX_PROPOSED_MILESTONES,
            milestone_votes_distinct(votes@),
            forall|m: MilestoneKey|
                m < mk ==> milestone_vote_of(votes@, pk, m) == Some(zero_vote()),
            forall|pk2: ProjectKey, mk2: MilestoneKey|
                !(pk2 == pk && mk2 < mk) ==> milestone_vote_of(votes@, pk2, mk2)
                    == milestone_vote_of(old(votes)@, pk2, mk2),
            forall|i: int|
                0 <= i < votes@.len() ==> ((votes@[i].project_key == pk && votes@[
                    i
                ].milestone_key < mk) || exists|t: int|
                    0 <= t < old(votes)@.len() && (#[trigger] old(votes)@[t]).project_key
                        == votes@[i].project_key && old(votes)@[t].milestone_key == votes@[
                        i
                    ].milestone_key),
        decreases n_milestones - mk,
    {
        let entry = MilestoneVoteEntry {
            project_key: pk,
            milestone_key: mk as MilestoneKey,
            vote: Vote::zeroed(),
        };
        let ghost mid = votes@;
        match find_milestone_vote(votes, pk, mk as MilestoneKey) {
            Some(i) => {
                proof {
                    lemma_milestone_votes_update(votes@, i as int, entry);
                }
                let e = entry_mut(votes, i);
                *e = entry;
                proof {
                    assert(votes@ == mid.update(i as int, entry));
                }
            },
            None => {
                proof {
                    lemma_milestone_votes_push(votes@, entry);
                }
                votes.push(entry);
            },
        }
        proof {
            assert forall|m: MilestoneKey| m < mk + 1 implies milestone_vote_of(votes@, pk, m)
                == Some(zero_vote()) by {
                if m == mk as MilestoneKey {
                    assert(milestone_vote_of(votes@, pk, m) == Some(entry.vote));
                } else {
                    assert(milestone_vote_of(votes@, pk, m) == milestone_vote_of(mid, pk, m));
                }
            }
        }
        mk = mk + 1;
    }
}

} // verus!
