//! The store that owns all state of the funding engine, its well-formedness
//! invariant, and the round resolver.

use vstd::prelude::*;

use crate::arith::portion;
use crate::lookups::cap_of;
use crate::lookups::contributions_distinct;
use crate::lookups::contributions_total;
use crate::lookups::milestone_vote_of;
use crate::lookups::milestone_votes_distinct;
use crate::lookups::no_confidence_vote_of;
use crate::lookups::no_confidence_votes_distinct;
use crate::lookups::percent_sum;
use crate::lookups::approved_percent_sum;
use crate::lookups::spots_distinct;
use crate::lookups::whitelist_of;
use crate::lookups::whitelists_distinct;
use crate::types::AccountId;
use crate::types::BlockNumber;
use crate::types::Config;
use crate::types::Event;
use crate::types::MilestoneKey;
use crate::types::MilestoneVoteEntry;
use crate::types::NoConfidenceVoteEntry;
use crate::types::Project;
use crate::types::ProjectKey;
use crate::types::ProjectWhitelist;
use crate::types::Round;
use crate::types::RoundKey;
use crate::types::RoundType;
use crate::types::UserVote;
use crate::types::Vote;
use crate::types::Whitelist;
use crate::types::MAX_PROPOSED_MILESTONES;
use crate::types::MAX_DESCRIPTION_FIELD_LEN;
use crate::types::MAX_STRING_FIELD_LEN;

verus! {

/// The funds a project's initiator is entitled to draw from escrow: the
/// approved share of the raised funds, rounded down.
pub open spec fn unlocked_funds_of(p: Project) -> int {
    portion(p.raised_funds as int, approved_percent_sum(p.milestones@))
}

/// Well-formedness of one stored project under its key.
pub open spec fn project_wf(p: Project, key: int) -> bool {
    &&& 0 < p.name@.len() <= MAX_STRING_FIELD_LEN
    &&& 0 < p.logo@.len() <= MAX_STRING_FIELD_LEN
    &&& 0 < p.description@.len() <= MAX_DESCRIPTION_FIELD_LEN
    &&& 0 < p.website@.len() <= MAX_DESCRIPTION_FIELD_LEN
    &&& p.milestones@.len() <= MAX_PROPOSED_MILESTONES
    &&& forall|j: int|
        0 <= j < p.milestones@.len() ==> (#[trigger] p.milestones@[j]).milestone_key == j
            && p.milestones@[j].project_key == key
    &&& percent_sum(p.milestones@) == 100
    &&& contributions_distinct(p.contributions@)
    &&& forall|j: int|
        0 <= j < p.contributions@.len()
            ==> (#[trigger] p.contributions@[j]).contribution.value > 0
    &&& p.raised_funds == contributions_total(p.contributions@)
    &&& p.withdrawn_funds <= unlocked_funds_of(p)
}

/// Well-formedness of one stored round against the number of projects.
pub open spec fn round_wf(r: Round, n_projects: int) -> bool {
    &&& r.start < r.end
    &&& r.project_keys@.len() > 0
    &&& forall|i: int|
        0 <= i < r.project_keys@.len() ==> (#[trigger] r.project_keys@[i]) < n_projects
}

/// The whole state of the funding engine.  Every operation takes the store
/// by mutable reference and either applies its documented effect or fails
/// and leaves the store untouched.
pub struct Pallet {
    /// Host-fixed parameters.
    pub config: Config,
    /// The project under key `k` sits at index `k`.
    pub projects: Vec<Project>,
    /// Per-project whitelists; projects without a record are open.
    pub whitelists: Vec<ProjectWhitelist>,
    /// Every vote ever cast, one record per (account, project, milestone
    /// slot, round).
    pub user_votes: Vec<UserVote>,
    /// Milestone-vote tallies, one per (project, milestone) pair.
    pub milestone_votes: Vec<MilestoneVoteEntry>,
    /// Live no-confidence tallies, one per project.
    pub no_confidence_votes: Vec<NoConfidenceVoteEntry>,
    /// The round under key `k` sits at index `k - 1`.
    pub rounds: Vec<Round>,
    /// Authority-set cap on projects per round.
    pub max_project_count_per_round: u32,
    /// How many blocks a milestone-voting round stays open.
    pub milestone_voting_window: u32,
    /// Authority-set withdrawal expiration parameter.
    pub withdrawal_expiration: BlockNumber,
    /// Whether project creation demands an identity attestation.
    pub is_identity_required: bool,
    /// What the accepted calls reported, in order of acceptance.
    pub events: Vec<Event>,
}

impl Pallet {
    /// The invariant every operation preserves.
    pub open spec fn wf(self) -> bool {
        &&& self.config.wf()
        &&& self.projects@.len() <= u32::MAX
        &&& self.rounds@.len() <= u32::MAX
        &&& forall|i: int|
            0 <= i < self.projects@.len() ==> project_wf(#[trigger] self.projects@[i], i)
        &&& forall|i: int|
            0 <= i < self.rounds@.len()
                ==> round_wf(#[trigger] self.rounds@[i], self.projects@.len() as int)
        &&& forall|i: int, j: int|
            0 <= i < j < self.user_votes@.len() ==> self.user_votes@[i] != self.user_votes@[j]
        &&& milestone_votes_distinct(self.milestone_votes@)
        &&& forall|i: int|
            0 <= i < self.milestone_votes@.len()
                ==> (#[trigger] self.milestone_votes@[i]).project_key < self.projects@.len()
                && self.milestone_votes@[i].milestone_key < self.projects@[
                    self.milestone_votes@[i].project_key as int
                ].milestones@.len()
        &&& no_confidence_votes_distinct(self.no_confidence_votes@)
        &&& forall|i: int|
            0 <= i < self.no_confidence_votes@.len()
                ==> (#[trigger] self.no_confidence_votes@[i]).project_key
                < self.projects@.len()
        &&& whitelists_distinct(self.whitelists@)
        &&& forall|i: int|
            0 <= i < self.whitelists@.len()
                ==> (#[trigger] self.whitelists@[i]).project_key < self.projects@.len()
                && spots_distinct(self.whitelists@[i].spots@)
        &&& self.milestone_voting_window > 0
    }

    /// The host-fixed parameters and authority-set knobs of `self` and
    /// `other` agree.
    pub open spec fn same_params(self, other: Pallet) -> bool {
        &&& other.config == self.config
        &&& other.max_project_count_per_round == self.max_project_count_per_round
        &&& other.milestone_voting_window == self.milestone_voting_window
        &&& other.withdrawal_expiration == self.withdrawal_expiration
        &&& other.is_identity_required == self.is_identity_required
    }

    /// A fresh, empty store over the given parameters.
    pub fn new(config: Config) -> (s: Pallet)
        requires
            config.wf(),
        ensures
            s.wf(),
            s.config == config,
            s.projects@.len() == 0,
            s.whitelists@.len() == 0,
            s.user_votes@.len() == 0,
            s.milestone_votes@.len() == 0,
            s.no_confidence_votes@.len() == 0,
            s.rounds@.len() == 0,
            s.max_project_count_per_round == 0,
            s.milestone_voting_window == 100800,
            s.withdrawal_expiration == 0,
            !s.is_identity_required,
            s.events@.len() == 0,
    {
        Pallet {
            config,
            projects: Vec::new(),
            whitelists: Vec::new(),
            user_votes: Vec::new(),
            milestone_votes: Vec::new(),
            no_confidence_votes: Vec::new(),
            rounds: Vec::new(),
            max_project_count_per_round: 0,
            milestone_voting_window: crate::types::InitialMilestoneVotingWindow(),
            withdrawal_expiration: 0,
            is_identity_required: false,
            events: Vec::new(),
        }
    }

    // -----------------------------------------------------------------------
    // Round resolution
    // -----------------------------------------------------------------------

    /// Whether round `r` is an active home for `pk` at height `h`: not
    /// canceled, `pk` among its projects, and `h` inside its window.
    pub open spec fn round_active_for(r: Round, pk: ProjectKey, h: BlockNumber) -> bool {
        &&& !r.is_canceled
        &&& r.project_keys@.contains(pk)
        &&& r.start <= h < r.end
    }

    /// The active round for project `pk` at height `h`: the most recently
    /// created (largest-key) non-canceled round whose project set contains
    /// `pk` and whose window contains `h`.
    pub fn latest_round_for(&self, pk: ProjectKey, h: BlockNumber) -> (r: Option<RoundKey>)
        requires
            self.wf(),
        ensures
            match r {
                Some(k) => {
                    &&& 1 <= k <= self.rounds@.len()
                    &&& Self::round_active_for(self.rounds@[k - 1], pk, h)
                    &&& forall|k2: int|
                        k < k2 <= self.rounds@.len()
                            ==> !Self::round_active_for(#[trigger] self.rounds@[k2 - 1], pk, h)
                },
                None => forall|k2: int|
                    1 <= k2 <= self.rounds@.len()
                        ==> !Self::round_active_for(#[trigger] self.rounds@[k2 - 1], pk, h),
            },
    {
        let mut i: usize = self.rounds.len();
        while i > 0
            invariant
                i <= self.rounds@.len() <= u32::MAX,
                forall|k2: int|
                    i < k2 <= self.rounds@.len()
                        ==> !Self::round_active_for(#[trigger] self.rounds@[k2 - 1], pk, h),
            decreases i,
        {
            let round = &self.rounds[i - 1];
            if !round.is_canceled && round.start <= h && h < round.end
                && crate::lookups::keys_contain(&round.project_keys, pk) {
                return Some(i as RoundKey);
            }
            i = i - 1;
        }
        None
    }

    /// The most recently created non-canceled voting round whose project
    /// set contains `pk`, whatever its window.
    pub fn latest_voting_round_for(&self, pk: ProjectKey) -> (r: Option<RoundKey>)
        requires
            self.wf(),
        ensures
            match r {
                Some(k) => {
                    &&& 1 <= k <= self.rounds@.len()
                    &&& Self::voting_round_for(self.rounds@[k - 1], pk)
                    &&& forall|k2: int|
                        k < k2 <= self.rounds@.len()
                            ==> !Self::voting_round_for(#[trigger] self.rounds@[k2 - 1], pk)
                },
                None => forall|k2: int|
                    1 <= k2 <= self.rounds@.len()
                        ==> !Self::voting_round_for(#[trigger] self.rounds@[k2 - 1], pk),
            },
    {
        let mut i: usize = self.rounds.len();
        while i > 0
            invariant
                i <= self.rounds@.len() <= u32::MAX,
                forall|k2: int|
                    i < k2 <= self.rounds@.len()
                        ==> !Self::voting_round_for(#[trigger] self.rounds@[k2 - 1], pk),
            decreases i,
        {
            let round = &self.rounds[i - 1];
            if !round.is_canceled && matches!(round.round_type, RoundType::VotingRound)
                && crate::lookups::keys_contain(&round.project_keys, pk) {
                return Some(i as RoundKey);
            }
            i = i - 1;
        }
        None
    }

    /// Whether round `r` is a non-canceled voting round listing `pk`.
    pub open spec fn voting_round_for(r: Round, pk: ProjectKey) -> bool {
        &&& !r.is_canceled
        &&& r.round_type is VotingRound
        &&& r.project_keys@.contains(pk)
    }

    // -----------------------------------------------------------------------
    // Read access
    // -----------------------------------------------------------------------

    /// The project stored under `key`, if any.
    pub fn projects(&self, key: ProjectKey) -> (r: Option<&Project>)
        ensures
            match r {
                Some(p) => key < self.projects@.len() && *p == self.projects@[key as int],
                None => key >= self.projects@.len(),
            },
    {
        if (key as usize) < self.projects.len() {
            Some(&self.projects[key as usize])
        } else {
            None
        }
    }

    /// The round stored under `key`, if any; keys start at 1.
    pub fn rounds(&self, key: RoundKey) -> (r: Option<&Round>)
        ensures
            match r {
                Some(rd) => 1 <= key <= self.rounds@.len() && *rd == self.rounds@[key - 1],
                None => key < 1 || key > self.rounds@.len(),
            },
    {
        if key >= 1 && (key as usize) <= self.rounds.len() {
            Some(&self.rounds[(key as usize) - 1])
        } else {
            None
        }
    }

    /// How many projects have been created; also the next project key.
    pub fn project_count(&self) -> (n: u32)
        requires
            self.wf(),
        ensures
            n == self.projects@.len(),
    {
        self.projects.len() as u32
    }

    /// How many rounds have been scheduled; also the key of the most
    /// recently created round.
    pub fn round_count(&self) -> (n: u32)
        requires
            self.wf(),
        ensures
            n == self.rounds@.len(),
    {
        self.rounds.len() as u32
    }

    /// The milestone-vote tally of `(pk, mk)`, if one exists.
    pub fn milestone_votes(&self, pk: ProjectKey, mk: MilestoneKey) -> (r: Option<Vote>)
        requires
            self.wf(),
        ensures
            r == milestone_vote_of(self.milestone_votes@, pk, mk),
    {
        match crate::lookups::find_milestone_vote(&self.milestone_votes, pk, mk) {
            Some(i) => {
                proof {
                    crate::lookups::lemma_milestone_vote_at(self.milestone_votes@, i as int);
                }
                Some(self.milestone_votes[i].vote)
            },
            None => {
                proof {
                    crate::lookups::lemma_milestone_vote_absent(self.milestone_votes@, pk, mk);
                }
                None
            },
        }
    }

    /// The live no-confidence tally of `pk`, if one exists.
    pub fn no_confidence_votes(&self, pk: ProjectKey) -> (r: Option<Vote>)
        requires
            self.wf(),
        ensures
            r == no_confidence_vote_of(self.no_confidence_votes@, pk),
    {
        match crate::lookups::find_no_confidence_vote(&self.no_confidence_votes, pk) {
            Some(i) => {
                proof {
                    crate::lookups::lemma_no_confidence_vote_at(
                        self.no_confidence_votes@,
                        i as int,
                    );
                }
                Some(self.no_confidence_votes[i].vote)
            },
            None => {
                proof {
                    crate::lookups::lemma_no_confidence_vote_absent(self.no_confidence_votes@, pk);
                }
                None
            },
        }
    }

    /// Whether the given (account, project, milestone slot, round) tuple has
    /// a recorded vote.
    pub fn user_votes(
        &self,
        account: AccountId,
        pk: ProjectKey,
        mk: MilestoneKey,
        rk: RoundKey,
    ) -> (r: bool)
        ensures
            r == self.user_votes@.contains(
                UserVote { account, project_key: pk, milestone_key: mk, round_key: rk },
            ),
    {
        let target = UserVote { account, project_key: pk, milestone_key: mk, round_key: rk };
        let mut i: usize = 0;
        while i < self.user_votes.len()
            invariant
                i <= self.user_votes@.len(),
                target == (UserVote { account, project_key: pk, milestone_key: mk, round_key: rk }),
                forall|j: int| 0 <= j < i ==> self.user_votes@[j] != target,
            decreases self.user_votes@.len() - i,
        {
            if self.user_votes[i] == target {
                assert(self.user_votes@[i as int] == target);
                assert(self.user_votes@.contains(target));
                return true;
            }
            i = i + 1;
        }
        assert(!self.user_votes@.contains(target));
        false
    }

    /// The whitelist of `pk`, if the project enforces one.
    pub fn whitelist_spots(&self, pk: ProjectKey) -> (r: Option<&Vec<Whitelist>>)
        requires
            self.wf(),
        ensures
            match r {
                Some(spots) => whitelist_of(self.whitelists@, pk) == Some(spots@),
                None => whitelist_of(self.whitelists@, pk) is None,
            },
    {
        match crate::lookups::find_whitelist(&self.whitelists, pk) {
            Some(i) => {
                proof {
                    crate::lookups::lemma_whitelist_at(self.whitelists@, i as int);
                }
                Some(&self.whitelists[i].spots)
            },
            None => {
                proof {
                    crate::lookups::lemma_whitelist_absent(self.whitelists@, pk);
                }
                None
            },
        }
    }

    /// The cap the whitelist of `pk` grants `who`: `None` when the project
    /// is open or the account is not listed.
    pub fn whitelist_cap(&self, pk: ProjectKey, who: AccountId) -> (r: Option<u64>)
        requires
            self.wf(),
        ensures
            r == match whitelist_of(self.whitelists@, pk) {
                Some(spots) => cap_of(spots, who),
                None => None::<u64>,
            },
    {
        match crate::lookups::find_whitelist(&self.whitelists, pk) {
            Some(i) => {
                proof {
                    crate::lookups::lemma_whitelist_at(self.whitelists@, i as int);
                }
                let spots = &self.whitelists[i].spots;
                match crate::lookups::find_spot(spots, who) {
                    Some(j) => {
                        proof {
                            crate::lookups::lemma_cap_at(spots@, j as int);
                        }
                        Some(spots[j].max_cap)
                    },
                    None => {
                        proof {
                            crate::lookups::lemma_cap_absent(spots@, who);
                        }
                        None
                    },
                }
            },
            None => {
                proof {
                    crate::lookups::lemma_whitelist_absent(self.whitelists@, pk);
                }
                None
            },
        }
    }

    /// The events reported so far, oldest first.
    pub fn events(&self) -> (r: &Vec<Event>)
        ensures
            r == &self.events,
    {
        &self.events
    }

    /// The authority-set cap on projects per round.
    pub fn max_project_count_per_round(&self) -> (r: u32)
        ensures
            r == self.max_project_count_per_round,
    {
        self.max_project_count_per_round
    }

    /// How many blocks a milestone-voting round stays open.
    pub fn milestone_voting_window(&self) -> (r: u32)
        ensures
            r == self.milestone_voting_window,
    {
        self.milestone_voting_window
    }

    /// The authority-set withdrawal expiration parameter.
    pub fn withdrawal_expiration(&self) -> (r: BlockNumber)
        ensures
            r == self.withdrawal_expiration,
    {
        self.withdrawal_expiration
    }

    /// Whether project creation demands an identity attestation.
    pub fn is_identity_required(&self) -> (r: bool)
        ensures
            r == self.is_identity_required,
    {
        self.is_identity_required
    }
}

/// Milestone approval is permanent: every milestone of `pre` is still there
/// in `post` with the same percentage, and approval is never withdrawn.
pub open spec fn milestone_approvals_preserved(pre: Pallet, post: Pallet) -> bool {
    &&& pre.projects@.len() <= post.projects@.len()
    &&& forall|i: int|
        #![trigger post.projects@[i]]
        0 <= i < pre.projects@.len() ==> post.projects@[i].milestones@.len() == pre.projects@[
            i
        ].milestones@.len()
    &&& forall|i: int, j: int|
        #![trigger post.projects@[i].milestones@[j]]
        0 <= i < pre.projects@.len() && 0 <= j < pre.projects@[i].milestones@.len() ==> {
            &&& (pre.projects@[i].milestones@[j].is_approved ==> post.projects@[
                i
            ].milestones@[j].is_approved)
            &&& post.projects@[i].milestones@[j].percentage_to_unlock
                == pre.projects@[i].milestones@[j].percentage_to_unlock
        }
}

} // verus!
