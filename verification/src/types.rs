//! The data model: projects, milestones, rounds, votes, contributions, and
//! the errors and events of every operation.

use vstd::prelude::*;

verus! {

/// Account identifier, as assigned by the hosting ledger.
pub type AccountId = u64;
/// An amount of some currency.
pub type Balance = u64;
/// A block height, the clock of the hosting environment.
pub type BlockNumber = u64;
/// A wall-clock timestamp supplied by the host.
pub type Timestamp = u64;
/// Dense, monotonically assigned project identifier.
pub type ProjectKey = u32;
/// Index of a milestone within its project.
pub type MilestoneKey = u32;
/// Dense, monotonically assigned round identifier; the first round has key 1.
pub type RoundKey = u32;

/// Longest accepted name or logo field, in bytes.
pub const MAX_STRING_FIELD_LEN: usize = 255;
/// Longest accepted description or website field, in bytes.
pub const MAX_DESCRIPTION_FIELD_LEN: usize = 5000;
/// Most milestones a single project may propose.
pub const MAX_PROPOSED_MILESTONES: usize = 100;
/// Most projects a single round may reference.
pub const MAX_PROJECT_KEYS: usize = 1000;
/// Most milestone keys a single approval may name.
pub const MAX_MILESTONE_KEYS: usize = 100;
/// Most whitelist spots accepted by one whitelist update.
pub const MAX_WHITELIST_PER_PROJECT: usize = 10000;

/// The currencies the hosting ledger can hold for a project.
#[derive(Clone, Copy, PartialEq, Eq, Structural, Debug)]
pub enum CurrencyId {
    Native,
    KSM,
    KUSD,
}

/// Who makes a call, as authenticated by the host: the privileged authority
/// or a signed account.
#[derive(Clone, Copy, PartialEq, Eq, Structural, Debug)]
pub enum Origin {
    Root,
    Signed(AccountId),
}

/// The reason a call was rejected.  Every operation returns one of these
/// synchronously and leaves the store unchanged when it does.
#[derive(Clone, Copy, PartialEq, Eq, Structural, Debug)]
pub enum Error {
    /// The call needed a different origin (a signed caller, or the authority).
    BadOrigin,
    /// Contribution has exceeded the contributor's whitelist cap.
    ContributionMustBeLowerThanMaxCap,
    /// The ending block must be later than the current block.
    EndBlockNumberInvalid,
    /// The starting block must come before the ending block.
    EndTooEarly,
    /// Required identity attestation not found.
    IdentityNeeded,
    /// Input parameter is invalid.
    InvalidParam,
    /// There are no available funds to withdraw.
    NoAvailableFundsToWithdraw,
    /// Project does not exist.
    ProjectDoesNotExist,
    /// Project name is a mandatory field.
    ProjectNameIsMandatory,
    /// Project logo is a mandatory field.
    LogoIsMandatory,
    /// Project description is a mandatory field.
    ProjectDescriptionIsMandatory,
    /// Website url is a mandatory field.
    WebsiteURLIsMandatory,
    /// Milestone percentages do not add up to 100.
    MilestonesTotalPercentageMustEqual100,
    /// The named milestone does not exist in the project.
    MilestoneDoesNotExist,
    /// No round under the given key.
    NoActiveRound,
    /// An accumulator would overflow.
    Overflow,
    /// A project must be approved before milestones are submitted.
    OnlyApprovedProjectsCanSubmitMilestones,
    /// Only contributors can vote.
    OnlyContributorsCanVote,
    /// Only the project's initiator may do this.
    UserIsNotInitator,
    /// Only the project's initiator may finalise milestone voting.
    OnlyInitiatorOrAdminCanApproveMilestone,
    /// The project enforces a whitelist and the caller is not on it.
    OnlyWhitelistedAccountsCanContribute,
    /// The selected project is not in the round.
    ProjectNotInRound,
    /// Parameter limit exceeded.
    ParamLimitExceed,
    /// Round has already started and cannot be modified.
    RoundStarted,
    /// Round is still in progress.
    RoundNotEnded,
    /// The round is not open at the current height.
    RoundNotProcessing,
    /// Round has been cancelled.
    RoundCanceled,
    /// The caller has already voted on this round.
    VoteAlreadyExists,
    /// Neither has the voting window elapsed nor is the outcome decided.
    MilestoneVotingNotComplete,
    /// The given key must exist in storage.
    KeyNotFound,
    /// The input vector must exceed length zero.
    LengthMustExceedZero,
    /// The voting threshold has not been met.
    VoteThresholdNotMet,
    /// The project must be approved.
    ProjectApprovalRequired,
    /// The milestone is already approved.
    MilestoneAlreadyApproved,
    /// The round under the given key has the wrong round type.
    InvalidRoundType,
    /// The project has already been cancelled.
    ProjectAlreadyCancelled,
    /// A no-confidence round for this project is already live.
    NoConfidenceRoundActive,
}

/// What kind of round a scheduled round is.
#[derive(Clone, Copy, PartialEq, Eq, Structural, Debug)]
pub enum RoundType {
    ContributionRound,
    VotingRound,
    VoteOfNoConfidence,
}

/// A scheduled round: a block-height window over a set of projects.
/// Immutable once created, except for the cancellation flag.
pub struct Round {
    pub start: BlockNumber,
    pub end: BlockNumber,
    pub project_keys: Vec<ProjectKey>,
    pub round_type: RoundType,
    pub is_canceled: bool,
}

impl Round {
    pub fn new(
        start: BlockNumber,
        end: BlockNumber,
        project_keys: Vec<ProjectKey>,
        round_type: RoundType,
    ) -> (r: Round)
        ensures
            r.start == start,
            r.end == end,
            r.project_keys == project_keys,
            r.round_type == round_type,
            !r.is_canceled,
    {
        Round { start, end, project_keys, round_type, is_canceled: false }
    }
}

/// A milestone as proposed at project creation.
pub struct ProposedMilestone {
    pub name: Vec<u8>,
    pub percentage_to_unlock: u32,
}

/// A milestone of a stored project.  Only `is_approved` ever changes after
/// creation, and it only ever changes from false to true.
pub struct Milestone {
    pub project_key: ProjectKey,
    pub milestone_key: MilestoneKey,
    pub name: Vec<u8>,
    pub percentage_to_unlock: u32,
    pub is_approved: bool,
}

/// A currency-weighted vote tally.
#[derive(Clone, Copy, PartialEq, Eq, Structural, Debug)]
pub struct Vote {
    pub yay: Balance,
    pub nay: Balance,
    pub is_approved: bool,
}

/// The zeroed tally every voting track starts from.
pub open spec fn zero_vote() -> Vote {
    Vote { yay: 0, nay: 0, is_approved: false }
}

impl Vote {
    /// A zeroed tally, as every voting track starts.
    pub fn zeroed() -> (v: Vote)
        ensures
            v == zero_vote(),
    {
        Vote { yay: 0, nay: 0, is_approved: false }
    }
}

/// One contributor's accumulated pledge to one project.
#[derive(Clone, Copy, PartialEq, Eq, Structural, Debug)]
pub struct Contribution {
    /// Accumulated contribution value.
    pub value: Balance,
    /// Timestamp of the last contribution.
    pub timestamp: Timestamp,
}

/// A contribution record keyed by the contributing account; the accounts of
/// a project's records are pairwise distinct.
#[derive(Clone, Copy, PartialEq, Eq, Structural, Debug)]
pub struct ContributionEntry {
    pub account: AccountId,
    pub contribution: Contribution,
}

/// One whitelist spot: the listed account and its contribution cap.
#[derive(Clone, Copy, PartialEq, Eq, Structural, Debug)]
pub struct Whitelist {
    pub who: AccountId,
    pub max_cap: Balance,
}

/// The whitelist of one project.  Absence of a record means the project is
/// open to every contributor.
pub struct ProjectWhitelist {
    pub project_key: ProjectKey,
    pub spots: Vec<Whitelist>,
}

/// The record that a contributor has voted in a given round on a given
/// milestone slot; at most one such record may ever exist per tuple.
#[derive(Clone, Copy, PartialEq, Eq, Structural, Debug)]
pub struct UserVote {
    pub account: AccountId,
    pub project_key: ProjectKey,
    pub milestone_key: MilestoneKey,
    pub round_key: RoundKey,
}

/// The milestone-vote tally of one (project, milestone) pair.
#[derive(Clone, Copy, PartialEq, Eq, Structural, Debug)]
pub struct MilestoneVoteEntry {
    pub project_key: ProjectKey,
    pub milestone_key: MilestoneKey,
    pub vote: Vote,
}

/// The live no-confidence tally of one project; presence of a record marks
/// a live no-confidence round.
#[derive(Clone, Copy, PartialEq, Eq, Structural, Debug)]
pub struct NoConfidenceVoteEntry {
    pub project_key: ProjectKey,
    pub vote: Vote,
}

/// A funding campaign.  Never deleted; a failed or distrusted project is
/// only ever marked cancelled.
pub struct Project {
    pub name: Vec<u8>,
    pub logo: Vec<u8>,
    pub description: Vec<u8>,
    pub website: Vec<u8>,
    /// The milestone under key `k` sits at index `k`.
    pub milestones: Vec<Milestone>,
    /// The accounts which have contributed, and their contributions.
    pub contributions: Vec<ContributionEntry>,
    pub currency_id: CurrencyId,
    pub required_funds: Balance,
    pub withdrawn_funds: Balance,
    pub raised_funds: Balance,
    /// The account that receives the funds if the campaign succeeds.
    pub initiator: AccountId,
    pub create_block_number: BlockNumber,
    pub approved_for_funding: bool,
    pub funding_threshold_met: bool,
    pub cancelled: bool,
}

/// One ledger transfer owed to a contributor out of project escrow.
#[derive(Clone, Copy, PartialEq, Eq, Structural, Debug)]
pub struct Refund {
    pub who: AccountId,
    pub amount: Balance,
}

/// The host-fixed parameters of the store.
#[derive(Clone, Copy, PartialEq, Eq, Structural, Debug)]
pub struct Config {
    /// Upper bound the authority may set `max_project_count_per_round` to.
    pub max_projects_per_round: u32,
    /// Upper bound on the withdrawal expiration parameter.
    pub max_withdrawal_expiration: BlockNumber,
    /// How many blocks a no-confidence round stays open.
    pub no_confidence_time_limit: BlockNumber,
    /// Minimum percentage of cast votes, inclusive, for a no-confidence
    /// round to pass.
    pub percent_required_for_vote_to_pass: u8,
    /// Percentage of each withdrawal kept as protocol fee.
    pub protocol_fee_percent: u8,
}

impl Config {
    /// The parameter ranges every host must respect.
    pub open spec fn wf(self) -> bool {
        &&& self.percent_required_for_vote_to_pass <= 100
        &&& self.protocol_fee_percent <= 100
        &&& self.no_confidence_time_limit > 0
    }
}

/// What an accepted call reports back to the host, in the order the calls
/// were accepted.
#[derive(Debug)]
pub enum Event {
    ProjectCreated(AccountId, Vec<u8>, ProjectKey, Balance, CurrencyId),
    FundingRoundCreated(RoundKey, Vec<ProjectKey>),
    VotingRoundCreated(RoundKey, Vec<ProjectKey>),
    MilestoneSubmitted(AccountId, ProjectKey, MilestoneKey),
    ContributeSucceeded(AccountId, ProjectKey, Balance, CurrencyId, BlockNumber),
    ProjectCancelled(RoundKey, ProjectKey),
    ProjectFundsWithdrawn(AccountId, ProjectKey, Balance, CurrencyId),
    ProjectApproved(RoundKey, ProjectKey),
    RoundCancelled(RoundKey),
    VoteComplete(AccountId, ProjectKey, MilestoneKey, bool, BlockNumber),
    MilestoneApproved(AccountId, ProjectKey, MilestoneKey, BlockNumber),
    WhitelistAdded(ProjectKey, BlockNumber),
    WhitelistRemoved(ProjectKey, BlockNumber),
    ProjectLockedFundsRefunded(ProjectKey, Balance),
    NoConfidenceRoundCreated(RoundKey, ProjectKey),
    NoConfidenceRoundVotedUpon(RoundKey, ProjectKey),
    NoConfidenceRoundFinalised(RoundKey, ProjectKey),
}

/// The milestone-voting window a fresh store starts with, in blocks.
#[allow(non_snake_case)]
pub fn InitialMilestoneVotingWindow() -> (w: u32)
    ensures
        w == 100800u32,
{
    100800u32
}

/// Holds when `post` is `pre` with exactly one element appended.
pub open spec fn pushed<T>(pre: Seq<T>, post: Seq<T>) -> bool {
    &&& post.len() == pre.len() + 1
    &&& forall|i: int| 0 <= i < pre.len() ==> post[i] == pre[i]
}

} // verus!
