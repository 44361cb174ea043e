//! The project registry: project creation and whitelist management.

use vstd::prelude::*;

use crate::lookups::cap_of;
use crate::lookups::copy_vec;
use crate::lookups::find_whitelist;
use crate::lookups::lemma_approved_le_percent_sum;
use crate::lookups::lemma_caps_push;
use crate::lookups::lemma_caps_update;
use crate::lookups::lemma_whitelist_absent;
use crate::lookups::lemma_whitelist_at;
use crate::lookups::lemma_whitelists_push;
use crate::lookups::lemma_whitelists_remove;
use crate::lookups::lemma_whitelists_update;
use crate::lookups::percent_sum;
use crate::lookups::proposed_percent_sum;
use crate::lookups::spots_distinct;
use crate::lookups::whitelist_of;
use crate::pallet::milestone_approvals_preserved;
use crate::pallet::project_wf;
use crate::pallet::Pallet;
use crate::types::pushed;
use crate::types::AccountId;
use crate::types::Balance;
use crate::types::BlockNumber;
use crate::types::CurrencyId;
use crate::types::Error;
use crate::types::Event;
use crate::types::Milestone;
use crate::types::Origin;
use crate::types::Project;
use crate::types::ProjectKey;
use crate::types::ProjectWhitelist;
use crate::types::ProposedMilestone;
use crate::types::Whitelist;
use crate::types::MAX_DESCRIPTION_FIELD_LEN;
use crate::types::MAX_PROPOSED_MILESTONES;
use crate::types::MAX_STRING_FIELD_LEN;
use crate::types::MAX_WHITELIST_PER_PROJECT;

verus! {

/// Why a `create_project` call is rejected, if it is: the caller must be a
/// signed account, every text field must be present and within bounds, the
/// milestone percentages must sum to exactly 100, the initiator must hold an
/// identity attestation where the store demands one, and the key space must
/// not be exhausted.
pub open spec fn create_project_error(
    s: Pallet,
    origin: Origin,
    has_identity: bool,
    name: Seq<u8>,
    logo: Seq<u8>,
    description: Seq<u8>,
    website: Seq<u8>,
    proposed: Seq<ProposedMilestone>,
) -> Option<Error> {
    if !(origin is Signed) {
        Some(Error::BadOrigin)
    } else if name.len() > MAX_STRING_FIELD_LEN || logo.len() > MAX_STRING_FIELD_LEN
        || description.len() > MAX_DESCRIPTION_FIELD_LEN
        || website.len() > MAX_DESCRIPTION_FIELD_LEN
        || proposed.len() > MAX_PROPOSED_MILESTONES {
        Some(Error::ParamLimitExceed)
    } else if name.len() == 0 {
        Some(Error::ProjectNameIsMandatory)
    } else if logo.len() == 0 {
        Some(Error::LogoIsMandatory)
    } else if description.len() == 0 {
        Some(Error::ProjectDescriptionIsMandatory)
    } else if website.len() == 0 {
        Some(Error::WebsiteURLIsMandatory)
    } else if proposed_percent_sum(proposed) != 100 {
        Some(Error::MilestonesTotalPercentageMustEqual100)
    } else if s.is_identity_required && !has_identity {
        Some(Error::IdentityNeeded)
    } else if s.projects@.len() >= u32::MAX {
        Some(Error::Overflow)
    } else {
        None
    }
}

impl Pallet {
    /// Creates a project: allocates the next project key and stores the
    /// campaign with all accounting zeroed.  `has_identity` is what the
    /// identity collaborator attests for the caller; `now` is the current
    /// block height.
    pub fn create_project(
        &mut self,
        origin: Origin,
        has_identity: bool,
        name: Vec<u8>,
        logo: Vec<u8>,
        description: Vec<u8>,
        website: Vec<u8>,
        proposed_milestones: Vec<ProposedMilestone>,
        required_funds: Balance,
        currency_id: CurrencyId,
        now: BlockNumber,
    ) -> (r: Result<ProjectKey, Error>)
        requires
            old(self).wf(),
        ensures
            final(self).wf(),
            r is Err <==> create_project_error(
                *old(self),
                origin,
                has_identity,
                name@,
                logo@,
                description@,
                website@,
                proposed_milestones@,
            ) is Some,
            r matches Err(e) ==> {
                &&& Some(e) == create_project_error(
                    *old(self),
                    origin,
                    has_identity,
                    name@,
                    logo@,
                    description@,
                    website@,
                    proposed_milestones@,
                )
                &&& *final(self) == *old(self)
            },
            r matches Ok(k) ==> {
                &&& k == old(self).projects@.len()
                &&& final(self).projects@.len() == old(self).projects@.len() + 1
                &&& forall|i: int|
                    0 <= i < old(self).projects@.len()
                        ==> final(self).projects@[i] == old(self).projects@[i]
                &&& ({
                    let p = final(self).projects@[k as int];
                    &&& origin matches Origin::Signed(who) ==> p.initiator == who
                    &&& p.name == name
                    &&& p.logo == logo
                    &&& p.description == description
                    &&& p.website == website
                    &&& p.currency_id == currency_id
                    &&& p.required_funds == required_funds
                    &&& p.raised_funds == 0
                    &&& p.withdrawn_funds == 0
                    &&& p.create_block_number == now
                    &&& !p.approved_for_funding
                    &&& !p.funding_threshold_met
                    &&& !p.cancelled
                    &&& p.contributions@.len() == 0
                    &&& p.milestones@.len() == proposed_milestones@.len()
                    &&& forall|j: int|
                        0 <= j < proposed_milestones@.len() ==> {
                            let m = #[trigger] p.milestones@[j];
                            &&& m.name@ == proposed_milestones@[j].name@
                            &&& m.percentage_to_unlock == proposed_milestones@[
                                j
                            ].percentage_to_unlock
                            &&& !m.is_approved
                            &&& m.milestone_key == j
                            &&& m.project_key == k
                        }
                })
                &&& final(self).rounds == old(self).rounds
                &&& final(self).whitelists == old(self).whitelists
                &&& final(self).user_votes == old(self).user_votes
                &&& final(self).milestone_votes == old(self).milestone_votes
                &&& final(self).no_confidence_votes == old(self).no_confidence_votes
                &&& pushed(old(self).events@, final(self).events@)
                &&& (final(self).events@.last() matches Event::ProjectCreated(a, n, pk, f, c)
                    && (origin matches Origin::Signed(who) && a == who) && n@ == name@ && pk == k
                    && f == required_funds && c == currency_id)
            },
            old(self).same_params(*final(self)),
            milestone_approvals_preserved(*old(self), *final(self)),
    {
        let who: AccountId = match origin {
            Origin::Signed(a) => a,
            _ => {
                return Err(Error::BadOrigin);
            },
        };
        if name.len() > MAX_STRING_FIELD_LEN || logo.len() > MAX_STRING_FIELD_LEN
            || description.len() > MAX_DESCRIPTION_FIELD_LEN
            || website.len() > MAX_DESCRIPTION_FIELD_LEN
            || proposed_milestones.len() > MAX_PROPOSED_MILESTONES {
            return Err(Error::ParamLimitExceed);
        }
        if name.len() == 0 {
            return Err(Error::ProjectNameIsMandatory);
        }
        if logo.len() == 0 {
            return Err(Error::LogoIsMandatory);
        }
        if description.len() == 0 {
            return Err(Error::ProjectDescriptionIsMandatory);
        }
        if website.len() == 0 {
            return Err(Error::WebsiteURLIsMandatory);
        }
        let total_percentage = sum_proposed_percentages(&proposed_milestones);
        if total_percentage != 100 {
            return Err(Error::MilestonesTotalPercentageMustEqual100);
        }
        if self.is_identity_required && !has_identity {
            return Err(Error::IdentityNeeded);
        }
        if self.projects.len() >= u32::MAX as usize {
            return Err(Error::Overflow);
        }

        let key: ProjectKey = self.projects.len() as ProjectKey;
        let ghost proposed = proposed_milestones@;

        let mut milestones: Vec<Milestone> = Vec::new();
        let mut j: usize = 0;
        while j < proposed_milestones.len()
            invariant
                j <= proposed.len() <= MAX_PROPOSED_MILESTONES,
                proposed_milestones@ == proposed,
                milestones@.len() == j,
                percent_sum(milestones@) == proposed_percent_sum(proposed.take(j as int)),
                forall|t: int|
                    0 <= t < j ==> {
                        let m = #[trigger] milestones@[t];
                        &&& m.name@ == proposed[t].name@
                        &&& m.percentage_to_unlock == proposed[t].percentage_to_unlock
                        &&& !m.is_approved
                        &&& m.milestone_key == t
                        &&& m.project_key == key
                    },
            decreases proposed.len() - j,
        {
            let pm = &proposed_milestones[j];
            let m = Milestone {
                project_key: key,
                milestone_key: j as u32,
                name: copy_vec(&pm.name),
                percentage_to_unlock: pm.percentage_to_unlock,
                is_approved: false,
            };
            let ghost pre = milestones@;
            milestones.push(m);
            proof {
                assert(milestones@.drop_last() =~= pre);
                assert(proposed.take(j + 1).drop_last() =~= proposed.take(j as int));
                assert(proposed.take(j + 1).last() == proposed[j as int]);
            }
            j = j + 1;
        }
        proof {
            assert(proposed.take(proposed.len() as int) =~= proposed);
        }

        let event_name = copy_vec(&name);
        let project = Project {
            name,
            logo,
            description,
            website,
            milestones,
            contributions: Vec::new(),
            currency_id,
            required_funds,
            withdrawn_funds: 0,
            raised_funds: 0,
            initiator: who,
            create_block_number: now,
            approved_for_funding: false,
            funding_threshold_met: false,
            cancelled: false,
        };
        proof {
            lemma_approved_le_percent_sum(project.milestones@);
            crate::arith::lemma_portion_bounds(
                0,
                crate::lookups::approved_percent_sum(project.milestones@),
            );
            assert(crate::pallet::unlocked_funds_of(project) == 0);
            assert(project_wf(project, key as int));
        }
        self.projects.push(project);
        self.events.push(
            Event::ProjectCreated(who, event_name, key, required_funds, currency_id),
        );
        Ok(key)
    }

    /// Merges whitelist spots into the project's whitelist; restricted to
    /// the project's initiator.  A spot for an already-listed account
    /// replaces that account's cap.
    pub fn add_project_whitelist(
        &mut self,
        origin: Origin,
        project_key: ProjectKey,
        new_whitelist_spots: Vec<Whitelist>,
        now: BlockNumber,
    ) -> (r: Result<(), Error>)
        requires
            old(self).wf(),
        ensures
            final(self).wf(),
            r matches Err(e) ==> *final(self) == *old(self),
            r is Err <==> {
                ||| !(origin is Signed)
                ||| new_whitelist_spots@.len() > MAX_WHITELIST_PER_PROJECT
                ||| project_key >= old(self).projects@.len()
                ||| (origin matches Origin::Signed(who) && project_key
                    < old(self).projects@.len() && old(self).projects@[
                    project_key as int
                ].initiator != who)
            },
            r matches Err(e) ==> e == if !(origin is Signed) {
                Error::BadOrigin
            } else if new_whitelist_spots@.len() > MAX_WHITELIST_PER_PROJECT {
                Error::ParamLimitExceed
            } else if project_key >= old(self).projects@.len() {
                Error::ProjectDoesNotExist
            } else {
                Error::UserIsNotInitator
            },
            r is Ok ==> {
                &&& forall|a: AccountId|
                    project_whitelist_cap(*final(self), project_key, a) == match cap_of(
                        new_whitelist_spots@,
                        a,
                    ) {
                        Some(c) => Some(c),
                        None => project_whitelist_cap(*old(self), project_key, a),
                    }
                &&& forall|pk: ProjectKey|
                    pk != project_key ==> whitelist_of(final(self).whitelists@, pk)
                        == whitelist_of(old(self).whitelists@, pk)
                &&& final(self).projects == old(self).projects
                &&& final(self).rounds == old(self).rounds
                &&& final(self).user_votes == old(self).user_votes
                &&& final(self).milestone_votes == old(self).milestone_votes
                &&& final(self).no_confidence_votes == old(self).no_confidence_votes
                &&& pushed(old(self).events@, final(self).events@)
                &&& final(self).events@.last() == Event::WhitelistAdded(project_key, now)
            },
            old(self).same_params(*final(self)),
            milestone_approvals_preserved(*old(self), *final(self)),
    {
        let who: AccountId = match origin {
            Origin::Signed(a) => a,
            _ => {
                return Err(Error::BadOrigin);
            },
        };
        if new_whitelist_spots.len() > MAX_WHITELIST_PER_PROJECT {
            return Err(Error::ParamLimitExceed);
        }
        if (project_key as usize) >= self.projects.len() {
            return Err(Error::ProjectDoesNotExist);
        }
        if self.projects[project_key as usize].initiator != who {
            return Err(Error::UserIsNotInitator);
        }

        // Build the merged spot list in a local vector, then store it
        // wholesale under the project's key.
        let mut spots: Vec<Whitelist>;
        let ghost old_cap_of = |a: AccountId| project_whitelist_cap(*self, project_key, a);
        match find_whitelist(&self.whitelists, project_key) {
            Some(i) => {
                proof {
                    lemma_whitelist_at(self.whitelists@, i as int);
                }
                spots = copy_vec(&self.whitelists[i].spots);
            },
            None => {
                proof {
                    lemma_whitelist_absent(self.whitelists@, project_key);
                }
                spots = Vec::new();
            },
        }
        assert(forall|a: AccountId| #[trigger]
            cap_of(spots@, a) == match old_cap_of(a) {
                Some(c) => Some(c),
                None => None::<Balance>,
            });

        let mut j: usize = 0;
        while j < new_whitelist_spots.len()
            invariant
                j <= new_whitelist_spots@.len(),
                spots_distinct(spots@),
                forall|a: AccountId| #[trigger]
                    cap_of(spots@, a) == match cap_of(
                        new_whitelist_spots@.take(j as int),
                        a,
                    ) {
                        Some(c) => Some(c),
                        None => match old_cap_of(a) {
                            Some(c) => Some(c),
                            None => None::<Balance>,
                        },
                    },
            decreases new_whitelist_spots@.len() - j,
        {
            let spot = new_whitelist_spots[j];
            proof {
                assert(new_whitelist_spots@.take(j + 1).drop_last() =~= new_whitelist_spots@.take(
                    j as int,
                ));
                assert(new_whitelist_spots@.take(j + 1).last() == new_whitelist_spots@[j as int]);
            }
            let ghost pre = spots@;
            match crate::lookups::find_spot(&spots, spot.who) {
                Some(t) => {
                    proof {
                        lemma_caps_update(spots@, t as int, spot);
                    }
                    let e = crate::lookups::entry_mut(&mut spots, t);
                    *e = spot;
                    proof {
                        assert(spots@ == pre.update(t as int, spot));
                    }
                },
                None => {
                    proof {
                        lemma_caps_push(spots@, spot);
                    }
                    spots.push(spot);
                },
            }
            proof {
                assert forall|a: AccountId|
                    #[trigger] cap_of(spots@, a) == match cap_of(
                        new_whitelist_spots@.take(j + 1),
                        a,
                    ) {
                        Some(c) => Some(c),
                        None => match old_cap_of(a) {
                            Some(c) => Some(c),
                            None => None::<Balance>,
                        },
                    } by {
                    assert(cap_of(pre, a) == match cap_of(
                        new_whitelist_spots@.take(j as int),
                        a,
                    ) {
                        Some(c) => Some(c),
                        None => match old_cap_of(a) {
                            Some(c) => Some(c),
                            None => None::<Balance>,
                        },
                    });
                    if a != spot.who {
                        assert(cap_of(spots@, a) == cap_of(pre, a));
                        assert(cap_of(new_whitelist_spots@.take(j + 1), a) == cap_of(
                            new_whitelist_spots@.take(j as int),
                            a,
                        ));
                    }
                }
            }
            j = j + 1;
        }
        proof {
            assert(new_whitelist_spots@.take(new_whitelist_spots@.len() as int)
                =~= new_whitelist_spots@);
        }

        let bucket = ProjectWhitelist { project_key, spots };
        match find_whitelist(&self.whitelists, project_key) {
            Some(i) => {
                proof {
                    lemma_whitelists_update(self.whitelists@, i as int, &bucket);
                }
                let e = crate::lookups::entry_mut(&mut self.whitelists, i);
                *e = bucket;
            },
            None => {
                proof {
                    lemma_whitelists_push(self.whitelists@, bucket);
                }
                self.whitelists.push(bucket);
            },
        }
        self.events.push(Event::WhitelistAdded(project_key, now));
        Ok(())
    }

    /// Clears the project's whitelist, reopening it to every contributor;
    /// restricted to the project's initiator.
    pub fn remove_project_whitelist(
        &mut self,
        origin: Origin,
        project_key: ProjectKey,
        now: BlockNumber,
    ) -> (r: Result<(), Error>)
        requires
            old(self).wf(),
        ensures
            final(self).wf(),
            r matches Err(e) ==> *final(self) == *old(self),
            r is Err <==> {
                ||| !(origin is Signed)
                ||| project_key >= old(self).projects@.len()
                ||| (origin matches Origin::Signed(who) && project_key
                    < old(self).projects@.len() && old(self).projects@[
                    project_key as int
                ].initiator != who)
            },
            r matches Err(e) ==> e == if !(origin is Signed) {
                Error::BadOrigin
            } else if project_key >= old(self).projects@.len() {
                Error::ProjectDoesNotExist
            } else {
                Error::UserIsNotInitator
            },
            r is Ok ==> {
                &&& whitelist_of(final(self).whitelists@, project_key) is None
                &&& forall|pk: ProjectKey|
                    pk != project_key ==> whitelist_of(final(self).whitelists@, pk)
                        == whitelist_of(old(self).whitelists@, pk)
                &&& final(self).projects == old(self).projects
                &&& final(self).rounds == old(self).rounds
                &&& final(self).user_votes == old(self).user_votes
                &&& final(self).milestone_votes == old(self).milestone_votes
                &&& final(self).no_confidence_votes == old(self).no_confidence_votes
                &&& pushed(old(self).events@, final(self).events@)
                &&& final(self).events@.last() == Event::WhitelistRemoved(project_key, now)
            },
            old(self).same_params(*final(self)),
            milestone_approvals_preserved(*old(self), *final(self)),
    {
        let who: AccountId = match origin {
            Origin::Signed(a) => a,
            _ => {
                return Err(Error::BadOrigin);
            },
        };
        if (project_key as usize) >= self.projects.len() {
            return Err(Error::ProjectDoesNotExist);
        }
        if self.projects[project_key as usize].initiator != who {
            return Err(Error::UserIsNotInitator);
        }
        match find_whitelist(&self.whitelists, project_key) {
            Some(i) => {
                proof {
                    lemma_whitelists_remove(self.whitelists@, i as int);
                }
                self.whitelists.remove(i);
            },
            None => {
                proof {
                    lemma_whitelist_absent(self.whitelists@, project_key);
                }
            },
        }
        self.events.push(Event::WhitelistRemoved(project_key, now));
        Ok(())
    }
}

/// The cap the store's whitelist for `pk` grants `a`: `None` when the
/// project is open or the account is not listed.
pub open spec fn project_whitelist_cap(s: Pallet, pk: ProjectKey, a: AccountId) -> Option<
    Balance,
> {
    match whitelist_of(s.whitelists@, pk) {
        Some(spots) => cap_of(spots, a),
        None => None,
    }
}

/// Sums the proposed percentages; the sum of at most 100 values of `u32`
/// fits in `u64`.
fn sum_proposed_percentages(ms: &Vec<ProposedMilestone>) -> (total: u64)
    requires
        ms@.len() <= MAX_PROPOSED_MILESTONES,
    ensures
        total == proposed_percent_sum(ms@),
{
    let mut total: u64 = 0;
    let mut j: usize = 0;
    while j < ms.len()
        invariant
            j <= ms@.len() <= MAX_PROPOSED_MILESTONES,
            total == proposed_percent_sum(ms@.take(j as int)),
            total <= j * (u32::MAX as u64),
        decreases ms@.len() - j,
    {
        proof {
            assert(ms@.take(j + 1).drop_last() =~= ms@.take(j as int));
            assert(ms@.take(j + 1).last() == ms@[j as int]);
        }
        total = total + ms[j].percentage_to_unlock as u64;
        j = j + 1;
    }
    proof {
        assert(ms@.take(ms@.len() as int) =~= ms@);
    }
    total
}

} // verus!
