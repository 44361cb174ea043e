//! Association-list lookups over the store's record vectors, their
//! mathematical counterparts, and the lemmas connecting the two.
//!
//! Every keyed collection of the store is a vector of records whose keys are
//! pairwise distinct.  The spec functions here read such a vector from the
//! back, so that on a vector with duplicate keys the latest record wins;
//! under distinctness the position does not matter, which is what the
//! `*_at` lemmas say.

use vstd::prelude::*;

use crate::types::AccountId;
use crate::types::Balance;
use crate::types::ContributionEntry;
use crate::types::Milestone;
use crate::types::MilestoneKey;
use crate::types::MilestoneVoteEntry;
use crate::types::NoConfidenceVoteEntry;
use crate::types::ProjectKey;
use crate::types::ProjectWhitelist;
use crate::types::ProposedMilestone;
use crate::types::Vote;
use crate::types::Whitelist;

verus! {

// ---------------------------------------------------------------------------
// Contributions of one project
// ---------------------------------------------------------------------------

/// The accounts of the records are pairwise distinct.
pub open spec fn contributions_distinct(cs: Seq<ContributionEntry>) -> bool {
    forall|i: int, j: int|
        0 <= i < j < cs.len() ==> cs[i].account != cs[j].account
}

/// Whether `who` holds a contribution record.
pub open spec fn has_contribution(cs: Seq<ContributionEntry>, who: AccountId) -> bool {
    exists|i: int| 0 <= i < cs.len() && cs[i].account == who
}

/// The recorded contribution value of `who`, or 0 when there is no record.
pub open spec fn contribution_value_of(cs: Seq<ContributionEntry>, who: AccountId) -> int
    decreases cs.len(),
{
    if cs.len() == 0 {
        0
    } else if cs.last().account == who {
        cs.last().contribution.value as int
    } else {
        contribution_value_of(cs.drop_last(), who)
    }
}

/// The sum of all recorded contribution values.
pub open spec fn contributions_total(cs: Seq<ContributionEntry>) -> int
    decreases cs.len(),
{
    if cs.len() == 0 {
        0
    } else {
        contributions_total(cs.drop_last()) + cs.last().contribution.value
    }
}

/// Without a record for `who`, the looked-up value is 0.
pub proof fn lemma_contribution_absent(cs: Seq<ContributionEntry>, who: AccountId)
    requires
        forall|i: int| 0 <= i < cs.len() ==> cs[i].account != who,
    ensures
        contribution_value_of(cs, who) == 0,
        !has_contribution(cs, who),
    decreases cs.len(),
{
    if cs.len() > 0 {
        lemma_contribution_absent(cs.drop_last(), who);
    }
}

/// Under distinct accounts, the looked-up value is the value of any record
/// whose account matches.
pub proof fn lemma_contribution_at(cs: Seq<ContributionEntry>, i: int)
    requires
        contributions_distinct(cs),
        0 <= i < cs.len(),
    ensures
        contribution_value_of(cs, cs[i].account) == cs[i].contribution.value,
    decreases cs.len(),
{
    if i < cs.len() - 1 {
        assert(cs.last().account != cs[i].account);
        assert(cs.drop_last()[i] == cs[i]);
        lemma_contribution_at(cs.drop_last(), i);
    }
}

/// Each record's value is at most the total.
pub proof fn lemma_contribution_le_total(cs: Seq<ContributionEntry>, who: AccountId)
    ensures
        0 <= contribution_value_of(cs, who) <= contributions_total(cs),
    decreases cs.len(),
{
    if cs.len() > 0 {
        lemma_contribution_le_total(cs.drop_last(), who);
        lemma_contributions_total_nonneg(cs.drop_last());
    }
}

/// The total of contribution values is never negative.
pub proof fn lemma_contributions_total_nonneg(cs: Seq<ContributionEntry>)
    ensures
        contributions_total(cs) >= 0,
    decreases cs.len(),
{
    if cs.len() > 0 {
        lemma_contributions_total_nonneg(cs.drop_last());
    }
}

/// Appending a record adds its value to the total and shadows nothing when
/// the account is new.
pub proof fn lemma_contributions_push(cs: Seq<ContributionEntry>, e: ContributionEntry)
    ensures
        contributions_total(cs.push(e)) == contributions_total(cs) + e.contribution.value,
        contribution_value_of(cs.push(e), e.account) == e.contribution.value,
        forall|a: AccountId|
            a != e.account ==> contribution_value_of(cs.push(e), a)
                == contribution_value_of(cs, a),
{
    assert(cs.push(e).drop_last() =~= cs);
}

/// How one account's looked-up value changes under a replacement at `i`.
proof fn lemma_contribution_update_value(
    cs: Seq<ContributionEntry>,
    i: int,
    e: ContributionEntry,
    a: AccountId,
)
    requires
        contributions_distinct(cs),
        0 <= i < cs.len(),
        e.account == cs[i].account,
    ensures
        contribution_value_of(cs.update(i, e), a) == if a == e.account {
            e.contribution.value as int
        } else {
            contribution_value_of(cs, a)
        },
    decreases cs.len(),
{
    let cs2 = cs.update(i, e);
    if i == cs.len() - 1 {
        assert(cs2.drop_last() =~= cs.drop_last());
        assert(cs2.last() == e);
    } else {
        assert(cs2.drop_last() =~= cs.drop_last().update(i, e));
        assert(cs2.last() == cs.last());
        assert(cs.drop_last()[i] == cs[i]);
        lemma_contribution_update_value(cs.drop_last(), i, e, a);
    }
}

/// How the total changes under a replacement at `i`.
proof fn lemma_contributions_total_update(cs: Seq<ContributionEntry>, i: int, e: ContributionEntry)
    requires
        0 <= i < cs.len(),
    ensures
        contributions_total(cs.update(i, e))
            == contributions_total(cs) - cs[i].contribution.value + e.contribution.value,
    decreases cs.len(),
{
    let cs2 = cs.update(i, e);
    if i == cs.len() - 1 {
        assert(cs2.drop_last() =~= cs.drop_last());
        assert(cs2.last() == e);
    } else {
        assert(cs2.drop_last() =~= cs.drop_last().update(i, e));
        assert(cs2.last() == cs.last());
        assert(cs.drop_last()[i] == cs[i]);
        lemma_contributions_total_update(cs.drop_last(), i, e);
    }
}

/// Replacing the record at `i` adjusts the total by the difference and moves
/// only that account's looked-up value.
pub proof fn lemma_contributions_update(
    cs: Seq<ContributionEntry>,
    i: int,
    e: ContributionEntry,
)
    requires
        contributions_distinct(cs),
        0 <= i < cs.len(),
        e.account == cs[i].account,
    ensures
        contributions_total(cs.update(i, e))
            == contributions_total(cs) - cs[i].contribution.value + e.contribution.value,
        contribution_value_of(cs.update(i, e), e.account) == e.contribution.value,
        forall|a: AccountId|
            a != e.account ==> contribution_value_of(cs.update(i, e), a)
                == contribution_value_of(cs, a),
        contributions_distinct(cs.update(i, e)),
{
    lemma_contributions_total_update(cs, i, e);
    assert forall|a: AccountId|
        contribution_value_of(cs.update(i, e), a) == if a == e.account {
            e.contribution.value as int
        } else {
            contribution_value_of(cs, a)
        } by {
        lemma_contribution_update_value(cs, i, e, a);
    }
}

/// With every recorded value positive, a non-empty record list has a
/// positive total.
pub proof fn lemma_positive_total(cs: Seq<ContributionEntry>)
    requires
        forall|i: int| 0 <= i < cs.len() ==> (#[trigger] cs[i]).contribution.value > 0,
    ensures
        cs.len() > 0 ==> contributions_total(cs) > 0,
{
    if cs.len() > 0 {
        lemma_contributions_total_nonneg(cs.drop_last());
    }
}

/// A prefix of the records sums to at most the whole.
pub proof fn lemma_take_total_le(cs: Seq<ContributionEntry>, j: int)
    requires
        0 <= j <= cs.len(),
    ensures
        contributions_total(cs.take(j)) <= contributions_total(cs),
    decreases cs.len(),
{
    if j == cs.len() {
        assert(cs.take(j) =~= cs);
    } else {
        assert(cs.drop_last().take(j) =~= cs.take(j));
        lemma_take_total_le(cs.drop_last(), j);
    }
}

// ---------------------------------------------------------------------------
// Milestone percentages
// ---------------------------------------------------------------------------

/// The sum of the percentages of a proposed milestone list.
pub open spec fn proposed_percent_sum(ms: Seq<ProposedMilestone>) -> int
    decreases ms.len(),
{
    if ms.len() == 0 {
        0
    } else {
        proposed_percent_sum(ms.drop_last()) + ms.last().percentage_to_unlock
    }
}

/// The sum of the percentages of all milestones of a project.
pub open spec fn percent_sum(ms: Seq<Milestone>) -> int
    decreases ms.len(),
{
    if ms.len() == 0 {
        0
    } else {
        percent_sum(ms.drop_last()) + ms.last().percentage_to_unlock
    }
}

/// The sum of the percentages of the approved milestones only.
pub open spec fn approved_percent_sum(ms: Seq<Milestone>) -> int
    decreases ms.len(),
{
    if ms.len() == 0 {
        0
    } else {
        approved_percent_sum(ms.drop_last())
            + if ms.last().is_approved { ms.last().percentage_to_unlock as int } else { 0 }
    }
}

/// The approved share never exceeds the total, and neither is negative.
pub proof fn lemma_approved_le_percent_sum(ms: Seq<Milestone>)
    ensures
        0 <= approved_percent_sum(ms) <= percent_sum(ms),
    decreases ms.len(),
{
    if ms.len() > 0 {
        lemma_approved_le_percent_sum(ms.drop_last());
    }
}

/// Marking the milestone at `j` approved leaves the total percentage as it
/// was and does not shrink the approved share.
pub proof fn lemma_percent_sums_update(ms: Seq<Milestone>, j: int, m: Milestone)
    requires
        0 <= j < ms.len(),
        m.percentage_to_unlock == ms[j].percentage_to_unlock,
        ms[j].is_approved ==> m.is_approved,
    ensures
        percent_sum(ms.update(j, m)) == percent_sum(ms),
        approved_percent_sum(ms.update(j, m)) >= approved_percent_sum(ms),
    decreases ms.len(),
{
    let ms2 = ms.update(j, m);
    if j == ms.len() - 1 {
        assert(ms2.drop_last() =~= ms.drop_last());
        assert(ms2.last() == m);
    } else {
        assert(ms2.drop_last() =~= ms.drop_last().update(j, m));
        assert(ms2.last() == ms.last());
        assert(ms.drop_last()[j] == ms[j]);
        lemma_percent_sums_update(ms.drop_last(), j, m);
    }
}

// ---------------------------------------------------------------------------
// Milestone vote tallies
// ---------------------------------------------------------------------------

/// The (project, milestone) keys of the records are pairwise distinct.
pub open spec fn milestone_votes_distinct(s: Seq<MilestoneVoteEntry>) -> bool {
    forall|i: int, j: int|
        0 <= i < j < s.len()
            ==> !(s[i].project_key == s[j].project_key
                && s[i].milestone_key == s[j].milestone_key)
}

/// The tally stored for `(pk, mk)`, if any.
pub open spec fn milestone_vote_of(
    s: Seq<MilestoneVoteEntry>,
    pk: ProjectKey,
    mk: MilestoneKey,
) -> Option<Vote>
    decreases s.len(),
{
    if s.len() == 0 {
        None
    } else if s.last().project_key == pk && s.last().milestone_key == mk {
        Some(s.last().vote)
    } else {
        milestone_vote_of(s.drop_last(), pk, mk)
    }
}

/// Without a record for `(pk, mk)`, the lookup is `None`.
pub proof fn lemma_milestone_vote_absent(
    s: Seq<MilestoneVoteEntry>,
    pk: ProjectKey,
    mk: MilestoneKey,
)
    requires
        forall|i: int|
            0 <= i < s.len() ==> !(s[i].project_key == pk && s[i].milestone_key == mk),
    ensures
        milestone_vote_of(s, pk, mk) is None,
    decreases s.len(),
{
    if s.len() > 0 {
        lemma_milestone_vote_absent(s.drop_last(), pk, mk);
    }
}

/// Under distinct keys, the lookup returns the vote of any matching record.
pub proof fn lemma_milestone_vote_at(s: Seq<MilestoneVoteEntry>, i: int)
    requires
        milestone_votes_distinct(s),
        0 <= i < s.len(),
    ensures
        milestone_vote_of(s, s[i].project_key, s[i].milestone_key) == Some(s[i].vote),
    decreases s.len(),
{
    if i < s.len() - 1 {
        assert(s.drop_last()[i] == s[i]);
        lemma_milestone_vote_at(s.drop_last(), i);
    }
}

/// Appending a record with a new key adds exactly that tally.
pub proof fn lemma_milestone_votes_push(s: Seq<MilestoneVoteEntry>, e: MilestoneVoteEntry)
    ensures
        milestone_vote_of(s.push(e), e.project_key, e.milestone_key) == Some(e.vote),
        forall|pk: ProjectKey, mk: MilestoneKey|
            !(pk == e.project_key && mk == e.milestone_key)
                ==> milestone_vote_of(s.push(e), pk, mk) == milestone_vote_of(s, pk, mk),
{
    assert(s.push(e).drop_last() =~= s);
}

/// How one key's tally changes under a replacement at `i`.
proof fn lemma_milestone_vote_update_at(
    s: Seq<MilestoneVoteEntry>,
    i: int,
    e: MilestoneVoteEntry,
    pk: ProjectKey,
    mk: MilestoneKey,
)
    requires
        milestone_votes_distinct(s),
        0 <= i < s.len(),
        e.project_key == s[i].project_key,
        e.milestone_key == s[i].milestone_key,
    ensures
        milestone_vote_of(s.update(i, e), pk, mk) == if pk == e.project_key && mk
            == e.milestone_key {
            Some(e.vote)
        } else {
            milestone_vote_of(s, pk, mk)
        },
    decreases s.len(),
{
    let s2 = s.update(i, e);
    if i == s.len() - 1 {
        assert(s2.drop_last() =~= s.drop_last());
        assert(s2.last() == e);
    } else {
        assert(s2.drop_last() =~= s.drop_last().update(i, e));
        assert(s2.last() == s.last());
        assert(s.drop_last()[i] == s[i]);
        lemma_milestone_vote_update_at(s.drop_last(), i, e, pk, mk);
    }
}

/// Replacing the record at `i`, key kept, moves only that key's tally.
pub proof fn lemma_milestone_votes_update(
    s: Seq<MilestoneVoteEntry>,
    i: int,
    e: MilestoneVoteEntry,
)
    requires
        milestone_votes_distinct(s),
        0 <= i < s.len(),
        e.project_key == s[i].project_key,
        e.milestone_key == s[i].milestone_key,
    ensures
        milestone_vote_of(s.update(i, e), e.project_key, e.milestone_key) == Some(e.vote),
        forall|pk: ProjectKey, mk: MilestoneKey|
            !(pk == e.project_key && mk == e.milestone_key)
                ==> milestone_vote_of(s.update(i, e), pk, mk) == milestone_vote_of(s, pk, mk),
        milestone_votes_distinct(s.update(i, e)),
{
    assert forall|pk: ProjectKey, mk: MilestoneKey|
        milestone_vote_of(s.update(i, e), pk, mk) == if pk == e.project_key && mk
            == e.milestone_key {
            Some(e.vote)
        } else {
            milestone_vote_of(s, pk, mk)
        } by {
        lemma_milestone_vote_update_at(s, i, e, pk, mk);
    }
}

// ---------------------------------------------------------------------------
// No-confidence vote tallies
// ---------------------------------------------------------------------------

/// The project keys of the records are pairwise distinct.
pub open spec fn no_confidence_votes_distinct(s: Seq<NoConfidenceVoteEntry>) -> bool {
    forall|i: int, j: int|
        0 <= i < j < s.len() ==> s[i].project_key != s[j].project_key
}

/// The live no-confidence tally of `pk`, if any.
pub open spec fn no_confidence_vote_of(s: Seq<NoConfidenceVoteEntry>, pk: ProjectKey) -> Option<
    Vote,
>
    decreases s.len(),
{
    if s.len() == 0 {
        None
    } else if s.last().project_key == pk {
        Some(s.last().vote)
    } else {
        no_confidence_vote_of(s.drop_last(), pk)
    }
}

/// Without a record for `pk`, the lookup is `None`.
pub proof fn lemma_no_confidence_vote_absent(s: Seq<NoConfidenceVoteEntry>, pk: ProjectKey)
    requires
        forall|i: int| 0 <= i < s.len() ==> s[i].project_key != pk,
    ensures
        no_confidence_vote_of(s, pk) is None,
    decreases s.len(),
{
    if s.len() > 0 {
        lemma_no_confidence_vote_absent(s.drop_last(), pk);
    }
}

/// Under distinct keys, the lookup returns the vote of any matching record.
pub proof fn lemma_no_confidence_vote_at(s: Seq<NoConfidenceVoteEntry>, i: int)
    requires
        no_confidence_votes_distinct(s),
        0 <= i < s.len(),
    ensures
        no_confidence_vote_of(s, s[i].project_key) == Some(s[i].vote),
    decreases s.len(),
{
    if i < s.len() - 1 {
        assert(s.drop_last()[i] == s[i]);
        lemma_no_confidence_vote_at(s.drop_last(), i);
    }
}

/// Appending a record with a new key adds exactly that tally.
pub proof fn lemma_no_confidence_votes_push(
    s: Seq<NoConfidenceVoteEntry>,
    e: NoConfidenceVoteEntry,
)
    ensures
        no_confidence_vote_of(s.push(e), e.project_key) == Some(e.vote),
        forall|pk: ProjectKey|
            pk != e.project_key
                ==> no_confidence_vote_of(s.push(e), pk) == no_confidence_vote_of(s, pk),
{
    assert(s.push(e).drop_last() =~= s);
}

/// How one key's tally changes under a replacement at `i`.
proof fn lemma_no_confidence_vote_update_at(
    s: Seq<NoConfidenceVoteEntry>,
    i: int,
    e: NoConfidenceVoteEntry,
    pk: ProjectKey,
)
    requires
        no_confidence_votes_distinct(s),
        0 <= i < s.len(),
        e.project_key == s[i].project_key,
    ensures
        no_confidence_vote_of(s.update(i, e), pk) == if pk == e.project_key {
            Some(e.vote)
        } else {
            no_confidence_vote_of(s, pk)
        },
    decreases s.len(),
{
    let s2 = s.update(i, e);
    if i == s.len() - 1 {
        assert(s2.drop_last() =~= s.drop_last());
        assert(s2.last() == e);
    } else {
        assert(s2.drop_last() =~= s.drop_last().update(i, e));
        assert(s2.last() == s.last());
        assert(s.drop_last()[i] == s[i]);
        lemma_no_confidence_vote_update_at(s.drop_last(), i, e, pk);
    }
}

/// Replacing the record at `i`, key kept, moves only that key's tally.
pub proof fn lemma_no_confidence_votes_update(
    s: Seq<NoConfidenceVoteEntry>,
    i: int,
    e: NoConfidenceVoteEntry,
)
    requires
        no_confidence_votes_distinct(s),
        0 <= i < s.len(),
        e.project_key == s[i].project_key,
    ensures
        no_confidence_vote_of(s.update(i, e), e.project_key) == Some(e.vote),
        forall|pk: ProjectKey|
            pk != e.project_key
                ==> no_confidence_vote_of(s.update(i, e), pk) == no_confidence_vote_of(s, pk),
        no_confidence_votes_distinct(s.update(i, e)),
{
    assert forall|pk: ProjectKey|
        no_confidence_vote_of(s.update(i, e), pk) == if pk == e.project_key {
            Some(e.vote)
        } else {
            no_confidence_vote_of(s, pk)
        } by {
        lemma_no_confidence_vote_update_at(s, i, e, pk);
    }
}

/// How one key's tally changes when the record at `i` is dropped.
proof fn lemma_no_confidence_vote_remove_at(s: Seq<NoConfidenceVoteEntry>, i: int, pk: ProjectKey)
    requires
        no_confidence_votes_distinct(s),
        0 <= i < s.len(),
    ensures
        no_confidence_vote_of(s.remove(i), pk) == if pk == s[i].project_key {
            None::<Vote>
        } else {
            no_confidence_vote_of(s, pk)
        },
    decreases s.len(),
{
    let s2 = s.remove(i);
    if i == s.len() - 1 {
        assert(s2 =~= s.drop_last());
        if pk == s[i].project_key {
            lemma_no_confidence_vote_absent(s.drop_last(), pk);
        }
    } else {
        assert(s2.drop_last() =~= s.drop_last().remove(i));
        assert(s2.last() == s.last());
        assert(s.drop_last()[i] == s[i]);
        lemma_no_confidence_vote_remove_at(s.drop_last(), i, pk);
    }
}

/// Dropping the record at `i` removes exactly that key's tally.
pub proof fn lemma_no_confidence_votes_remove(s: Seq<NoConfidenceVoteEntry>, i: int)
    requires
        no_confidence_votes_distinct(s),
        0 <= i < s.len(),
    ensures
        no_confidence_vote_of(s.remove(i), s[i].project_key) is None,
        forall|pk: ProjectKey|
            pk != s[i].project_key
                ==> no_confidence_vote_of(s.remove(i), pk) == no_confidence_vote_of(s, pk),
        no_confidence_votes_distinct(s.remove(i)),
{
    assert forall|pk: ProjectKey|
        no_confidence_vote_of(s.remove(i), pk) == if pk == s[i].project_key {
            None::<Vote>
        } else {
            no_confidence_vote_of(s, pk)
        } by {
        lemma_no_confidence_vote_remove_at(s, i, pk);
    }
}

// ---------------------------------------------------------------------------
// Whitelists
// ---------------------------------------------------------------------------

/// The project keys of the whitelist records are pairwise distinct.
pub open spec fn whitelists_distinct(s: Seq<ProjectWhitelist>) -> bool {
    forall|i: int, j: int|
        0 <= i < j < s.len() ==> s[i].project_key != s[j].project_key
}

/// The whitelist stored for `pk`, if any; `None` means open contribution.
pub open spec fn whitelist_of(s: Seq<ProjectWhitelist>, pk: ProjectKey) -> Option<Seq<Whitelist>>
    decreases s.len(),
{
    if s.len() == 0 {
        None
    } else if s.last().project_key == pk {
        Some(s.last().spots@)
    } else {
        whitelist_of(s.drop_last(), pk)
    }
}

/// The cap listed for `who` among `spots`, if any; the latest spot wins.
pub open spec fn cap_of(spots: Seq<Whitelist>, who: AccountId) -> Option<Balance>
    decreases spots.len(),
{
    if spots.len() == 0 {
        None
    } else if spots.last().who == who {
        Some(spots.last().max_cap)
    } else {
        cap_of(spots.drop_last(), who)
    }
}

/// Without a record for `pk`, the lookup is `None`.
pub proof fn lemma_whitelist_absent(s: Seq<ProjectWhitelist>, pk: ProjectKey)
    requires
        forall|i: int| 0 <= i < s.len() ==> s[i].project_key != pk,
    ensures
        whitelist_of(s, pk) is None,
    decreases s.len(),
{
    if s.len() > 0 {
        lemma_whitelist_absent(s.drop_last(), pk);
    }
}

/// Under distinct keys, the lookup returns the spots of any matching record.
pub proof fn lemma_whitelist_at(s: Seq<ProjectWhitelist>, i: int)
    requires
        whitelists_distinct(s),
        0 <= i < s.len(),
    ensures
        whitelist_of(s, s[i].project_key) == Some(s[i].spots@),
    decreases s.len(),
{
    if i < s.len() - 1 {
        assert(s.drop_last()[i] == s[i]);
        lemma_whitelist_at(s.drop_last(), i);
    }
}

/// Appending a record with a new key adds exactly that whitelist.
pub proof fn lemma_whitelists_push(s: Seq<ProjectWhitelist>, e: ProjectWhitelist)
    ensures
        whitelist_of(s.push(e), e.project_key) == Some(e.spots@),
        forall|pk: ProjectKey|
            pk != e.project_key ==> whitelist_of(s.push(e), pk) == whitelist_of(s, pk),
{
    assert(s.push(e).drop_last() =~= s);
}

/// How one key's whitelist changes under a replacement at `i`.
proof fn lemma_whitelist_update_at(
    s: Seq<ProjectWhitelist>,
    i: int,
    e: &ProjectWhitelist,
    pk: ProjectKey,
)
    requires
        whitelists_distinct(s),
        0 <= i < s.len(),
        e.project_key == s[i].project_key,
    ensures
        whitelist_of(s.update(i, *e), pk) == if pk == e.project_key {
            Some(e.spots@)
        } else {
            whitelist_of(s, pk)
        },
    decreases s.len(),
{
    let s2 = s.update(i, *e);
    if i == s.len() - 1 {
        assert(s2.drop_last() =~= s.drop_last());
        assert(s2.last() == *e);
    } else {
        assert(s2.drop_last() =~= s.drop_last().update(i, *e));
        assert(s2.last() == s.last());
        assert(s.drop_last()[i] == s[i]);
        lemma_whitelist_update_at(s.drop_last(), i, e, pk);
    }
}

/// Replacing the record at `i`, key kept, moves only that key's whitelist.
pub proof fn lemma_whitelists_update(s: Seq<ProjectWhitelist>, i: int, e: &ProjectWhitelist)
    requires
        whitelists_distinct(s),
        0 <= i < s.len(),
        e.project_key == s[i].project_key,
    ensures
        whitelist_of(s.update(i, *e), e.project_key) == Some(e.spots@),
        forall|pk: ProjectKey|
            pk != e.project_key ==> whitelist_of(s.update(i, *e), pk) == whitelist_of(s, pk),
        whitelists_distinct(s.update(i, *e)),
{
    assert forall|pk: ProjectKey|
        whitelist_of(s.update(i, *e), pk) == if pk == e.project_key {
            Some(e.spots@)
        } else {
            whitelist_of(s, pk)
        } by {
        lemma_whitelist_update_at(s, i, e, pk);
    }
}

/// How one key's whitelist changes when the record at `i` is dropped.
proof fn lemma_whitelist_remove_at(s: Seq<ProjectWhitelist>, i: int, pk: ProjectKey)
    requires
        whitelists_distinct(s),
        0 <= i < s.len(),
    ensures
        whitelist_of(s.remove(i), pk) == if pk == s[i].project_key {
            None::<Seq<Whitelist>>
        } else {
            whitelist_of(s, pk)
        },
    decreases s.len(),
{
    let s2 = s.remove(i);
    if i == s.len() - 1 {
        assert(s2 =~= s.drop_last());
        if pk == s[i].project_key {
            lemma_whitelist_absent(s.drop_last(), pk);
        }
    } else {
        assert(s2.drop_last() =~= s.drop_last().remove(i));
        assert(s2.last() == s.last());
        assert(s.drop_last()[i] == s[i]);
        lemma_whitelist_remove_at(s.drop_last(), i, pk);
    }
}

/// Dropping the record at `i` removes exactly that key's whitelist.
pub proof fn lemma_whitelists_remove(s: Seq<ProjectWhitelist>, i: int)
    requires
        whitelists_distinct(s),
        0 <= i < s.len(),
    ensures
        whitelist_of(s.remove(i), s[i].project_key) is None,
        forall|pk: ProjectKey|
            pk != s[i].project_key ==> whitelist_of(s.remove(i), pk) == whitelist_of(s, pk),
        whitelists_distinct(s.remove(i)),
{
    assert forall|pk: ProjectKey|
        whitelist_of(s.remove(i), pk) == if pk == s[i].project_key {
            None::<Seq<Whitelist>>
        } else {
            whitelist_of(s, pk)
        } by {
        lemma_whitelist_remove_at(s, i, pk);
    }
}

/// Appending a spot sets `who`'s cap and leaves every other account's cap.
pub proof fn lemma_caps_push(spots: Seq<Whitelist>, e: Whitelist)
    ensures
        cap_of(spots.push(e), e.who) == Some(e.max_cap),
        forall|a: AccountId| a != e.who ==> cap_of(spots.push(e), a) == cap_of(spots, a),
{
    assert(spots.push(e).drop_last() =~= spots);
}

/// The accounts of the spots are pairwise distinct.
pub open spec fn spots_distinct(spots: Seq<Whitelist>) -> bool {
    forall|i: int, j: int| 0 <= i < j < spots.len() ==> spots[i].who != spots[j].who
}

/// Without a spot for `who`, the cap lookup is `None`.
pub proof fn lemma_cap_absent(spots: Seq<Whitelist>, who: AccountId)
    requires
        forall|i: int| 0 <= i < spots.len() ==> spots[i].who != who,
    ensures
        cap_of(spots, who) is None,
    decreases spots.len(),
{
    if spots.len() > 0 {
        lemma_cap_absent(spots.drop_last(), who);
    }
}

/// Under distinct accounts, the cap lookup returns any matching spot's cap.
pub proof fn lemma_cap_at(spots: Seq<Whitelist>, i: int)
    requires
        spots_distinct(spots),
        0 <= i < spots.len(),
    ensures
        cap_of(spots, spots[i].who) == Some(spots[i].max_cap),
    decreases spots.len(),
{
    if i < spots.len() - 1 {
        assert(spots.drop_last()[i] == spots[i]);
        lemma_cap_at(spots.drop_last(), i);
    }
}

/// How one account's cap changes under a replacement at `i`.
proof fn lemma_cap_update_at(spots: Seq<Whitelist>, i: int, e: Whitelist, a: AccountId)
    requires
        spots_distinct(spots),
        0 <= i < spots.len(),
        e.who == spots[i].who,
    ensures
        cap_of(spots.update(i, e), a) == if a == e.who {
            Some(e.max_cap)
        } else {
            cap_of(spots, a)
        },
    decreases spots.len(),
{
    let s2 = spots.update(i, e);
    if i == spots.len() - 1 {
        assert(s2.drop_last() =~= spots.drop_last());
        assert(s2.last() == e);
    } else {
        assert(s2.drop_last() =~= spots.drop_last().update(i, e));
        assert(s2.last() == spots.last());
        assert(spots.drop_last()[i] == spots[i]);
        lemma_cap_update_at(spots.drop_last(), i, e, a);
    }
}

/// Replacing the spot at `i`, account kept, moves only that account's cap.
pub proof fn lemma_caps_update(spots: Seq<Whitelist>, i: int, e: Whitelist)
    requires
        spots_distinct(spots),
        0 <= i < spots.len(),
        e.who == spots[i].who,
    ensures
        cap_of(spots.update(i, e), e.who) == Some(e.max_cap),
        forall|a: AccountId| a != e.who ==> cap_of(spots.update(i, e), a) == cap_of(spots, a),
        spots_distinct(spots.update(i, e)),
{
    assert forall|a: AccountId|
        cap_of(spots.update(i, e), a) == if a == e.who {
            Some(e.max_cap)
        } else {
            cap_of(spots, a)
        } by {
        lemma_cap_update_at(spots, i, e, a);
    }
}

// ---------------------------------------------------------------------------
// Executable finders
// ---------------------------------------------------------------------------

/// Finds the index of `who`'s contribution record, if one exists.
pub fn find_contribution(cs: &Vec<ContributionEntry>, who: AccountId) -> (r: Option<usize>)
    ensures
        match r {
            Some(i) => i < cs@.len() && cs@[i as int].account == who,
            None => forall|i: int| 0 <= i < cs@.len() ==> cs@[i].account != who,
        },
{
    let mut i: usize = 0;
    while i < cs.len()
        invariant
            i <= cs@.len(),
            forall|j: int| 0 <= j < i ==> cs@[j].account != who,
        decreases cs@.len() - i,
    {
        if cs[i].account == who {
            return Some(i);
        }
        i = i + 1;
    }
    None
}

/// Finds the index of the tally record of `(pk, mk)`, if one exists.
pub fn find_milestone_vote(
    s: &Vec<MilestoneVoteEntry>,
    pk: ProjectKey,
    mk: MilestoneKey,
) -> (r: Option<usize>)
    ensures
        match r {
            Some(i) => i < s@.len() && s@[i as int].project_key == pk && s@[
                i as int
            ].milestone_key == mk,
            None => forall|i: int|
                0 <= i < s@.len() ==> !(s@[i].project_key == pk && s@[i].milestone_key == mk),
        },
{
    let mut i: usize = 0;
    while i < s.len()
        invariant
            i <= s@.len(),
            forall|j: int|
                0 <= j < i ==> !(s@[j].project_key == pk && s@[j].milestone_key == mk),
        decreases s@.len() - i,
    {
        if s[i].project_key == pk && s[i].milestone_key == mk {
            return Some(i);
        }
        i = i + 1;
    }
    None
}

/// Finds the index of the no-confidence tally record of `pk`, if one exists.
pub fn find_no_confidence_vote(s: &Vec<NoConfidenceVoteEntry>, pk: ProjectKey) -> (r: Option<
    usize,
>)
    ensures
        match r {
            Some(i) => i < s@.len() && s@[i as int].project_key == pk,
            None => forall|i: int| 0 <= i < s@.len() ==> s@[i].project_key != pk,
        },
{
    let mut i: usize = 0;
    while i < s.len()
        invariant
            i <= s@.len(),
            forall|j: int| 0 <= j < i ==> s@[j].project_key != pk,
        decreases s@.len() - i,
    {
        if s[i].project_key == pk {
            return Some(i);
        }
        i = i + 1;
    }
    None
}

/// Finds the index of the whitelist record of `pk`, if one exists.
pub fn find_whitelist(s: &Vec<ProjectWhitelist>, pk: ProjectKey) -> (r: Option<usize>)
    ensures
        match r {
            Some(i) => i < s@.len() && s@[i as int].project_key == pk,
            None => forall|i: int| 0 <= i < s@.len() ==> s@[i].project_key != pk,
        },
{
    let mut i: usize = 0;
    while i < s.len()
        invariant
            i <= s@.len(),
            forall|j: int| 0 <= j < i ==> s@[j].project_key != pk,
        decreases s@.len() - i,
    {
        if s[i].project_key == pk {
            return Some(i);
        }
        i = i + 1;
    }
    None
}

/// Finds the index of `who`'s spot among `spots`, if one exists.
pub fn find_spot(spots: &Vec<Whitelist>, who: AccountId) -> (r: Option<usize>)
    ensures
        match r {
            Some(i) => i < spots@.len() && spots@[i as int].who == who,
            None => forall|i: int| 0 <= i < spots@.len() ==> spots@[i].who != who,
        },
{
    let mut i: usize = 0;
    while i < spots.len()
        invariant
            i <= spots@.len(),
            forall|j: int| 0 <= j < i ==> spots@[j].who != who,
        decreases spots@.len() - i,
    {
        if spots[i].who == who {
            return Some(i);
        }
        i = i + 1;
    }
    None
}

/// Mutable access to one element of a vector.
pub fn entry_mut<T>(v: &mut Vec<T>, i: usize) -> (e: &mut T)
    requires
        i < old(v)@.len(),
    ensures
        *e == old(v)@[i as int],
        final(v)@ == old(v)@.update(i as int, *final(e)),
{
    &mut v[i]
}

/// An element-for-element copy of a vector of copyable values.
pub fn copy_vec<T: Copy>(v: &Vec<T>) -> (r: Vec<T>)
    ensures
        r@ == v@,
{
    let mut r: Vec<T> = Vec::new();
    let mut i: usize = 0;
    while i < v.len()
        invariant
            i <= v@.len(),
            r@ == v@.take(i as int),
        decreases v@.len() - i,
    {
        r.push(v[i]);
        assert(v@.take(i + 1) =~= v@.take(i as int).push(v@[i as int]));
        i = i + 1;
    }
    assert(v@.take(v@.len() as int) =~= v@);
    r
}

/// Whether `keys` contains `k`.
pub fn keys_contain(keys: &Vec<ProjectKey>, k: ProjectKey) -> (r: bool)
    ensures
        r == keys@.contains(k),
{
    let mut i: usize = 0;
    while i < keys.len()
        invariant
            i <= keys@.len(),
            forall|j: int| 0 <= j < i ==> keys@[j] != k,
        decreases keys@.len() - i,
    {
        if keys[i] == k {
            assert(keys@.contains(k));
            return true;
        }
        i = i + 1;
    }
    assert(!keys@.contains(k));
    false
}

} // verus!
