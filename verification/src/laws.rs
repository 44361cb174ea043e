//! The financial laws of the store, stated once and proved from the
//! invariant that every operation maintains.

use vstd::prelude::*;

use crate::arith::lemma_portion_bounds;
use crate::lookups::approved_percent_sum;
use crate::lookups::contributions_total;
use crate::lookups::lemma_approved_le_percent_sum;
use crate::lookups::percent_sum;
use crate::pallet::milestone_approvals_preserved;
use crate::pallet::unlocked_funds_of;
use crate::pallet::Pallet;

verus! {

/// Every stored project's milestone percentages sum to exactly 100; a
/// creation attempt with any other sum is rejected, so no other project
/// ever exists.
pub proof fn lemma_milestone_percentages_sum(s: Pallet, pk: int)
    requires
        s.wf(),
        0 <= pk < s.projects@.len(),
    ensures
        percent_sum(s.projects@[pk].milestones@) == 100,
{
}

/// Every stored project's accounting balances: the raised funds equal the
/// sum of the recorded contributions, and the withdrawn funds never exceed
/// the raised funds.
pub proof fn lemma_funding_accounting(s: Pallet, pk: int)
    requires
        s.wf(),
        0 <= pk < s.projects@.len(),
    ensures
        s.projects@[pk].raised_funds == contributions_total(s.projects@[pk].contributions@),
        s.projects@[pk].withdrawn_funds <= s.projects@[pk].raised_funds,
{
    let p = s.projects@[pk];
    lemma_approved_le_percent_sum(p.milestones@);
    lemma_portion_bounds(p.raised_funds as int, approved_percent_sum(p.milestones@));
}

/// No two vote records coincide: a contributor can never hold two votes
/// for the same (project, milestone slot, round) tuple.
pub proof fn lemma_no_duplicate_user_votes(s: Pallet, i: int, j: int)
    requires
        s.wf(),
        0 <= i < j < s.user_votes@.len(),
    ensures
        s.user_votes@[i] != s.user_votes@[j],
{
}

/// Milestone approval survives any chain of operations: what two
/// consecutive steps each preserve, their composition preserves too.
pub proof fn lemma_approvals_preserved_trans(a: Pallet, b: Pallet, c: Pallet)
    requires
        milestone_approvals_preserved(a, b),
        milestone_approvals_preserved(b, c),
    ensures
        milestone_approvals_preserved(a, c),
{
    assert forall|i: int|
        #![trigger c.projects@[i]]
        0 <= i < a.projects@.len() implies c.projects@[i].milestones@.len() == a.projects@[
        i
    ].milestones@.len() by {
        assert(b.projects@[i].milestones@.len() == a.projects@[i].milestones@.len());
    }
    assert forall|i: int, j: int|
        #![trigger c.projects@[i].milestones@[j]]
        0 <= i < a.projects@.len() && 0 <= j < a.projects@[i].milestones@.len() implies {
        &&& (a.projects@[i].milestones@[j].is_approved ==> c.projects@[i].milestones@[
            j
        ].is_approved)
        &&& c.projects@[i].milestones@[j].percentage_to_unlock == a.projects@[
            i
        ].milestones@[j].percentage_to_unlock
    } by {
        let mb = b.projects@[i].milestones@[j];
        let mc = c.projects@[i].milestones@[j];
        assert(a.projects@[i].milestones@[j].is_approved ==> b.projects@[i].milestones@[
            j
        ].is_approved);
        assert(b.projects@[i].milestones@[j].is_approved ==> c.projects@[i].milestones@[
            j
        ].is_approved);
        assert(b.projects@[i].milestones@[j].percentage_to_unlock == a.projects@[
            i
        ].milestones@[j].percentage_to_unlock);
        assert(c.projects@[i].milestones@[j].percentage_to_unlock == b.projects@[
            i
        ].milestones@[j].percentage_to_unlock);
    }
}

/// The withdrawable amount is never negative: what a project's initiator
/// has already withdrawn never exceeds the funds unlocked by the approved
/// milestones.
pub proof fn lemma_withdrawal_available_nonneg(s: Pallet, pk: int)
    requires
        s.wf(),
        0 <= pk < s.projects@.len(),
    ensures
        0 <= unlocked_funds_of(s.projects@[pk]) - s.projects@[pk].withdrawn_funds,
        unlocked_funds_of(s.projects@[pk]) <= s.projects@[pk].raised_funds,
{
    let p = s.projects@[pk];
    lemma_approved_le_percent_sum(p.milestones@);
    lemma_portion_bounds(p.raised_funds as int, approved_percent_sum(p.milestones@));
}

} // verus!
