//! The withdrawal and refund calculator: releasing unlocked funds to the
//! initiator, and returning uncommitted escrow to the contributors.

use vstd::prelude::*;

use vstd::arithmetic::div_mod::lemma_div_pos_is_pos;
use vstd::arithmetic::mul::lemma_mul_inequality;
use vstd::arithmetic::mul::lemma_mul_inequality_converse;
use vstd::arithmetic::mul::lemma_mul_is_commutative;
use vstd::arithmetic::mul::lemma_mul_is_distributive_add;
use vstd::arithmetic::mul::lemma_mul_is_distributive_add_other_way;
use vstd::arithmetic::mul::lemma_mul_nonnegative;

use crate::arith::lemma_div_mul_le;
use crate::arith::lemma_fraction_le;
use crate::arith::lemma_portion_bounds;
use crate::arith::portion;
use crate::lookups::approved_percent_sum;
use crate::lookups::contributions_total;
use crate::lookups::entry_mut;
use crate::lookups::lemma_approved_le_percent_sum;
use crate::lookups::lemma_positive_total;
use crate::lookups::lemma_take_total_le;
use crate::pallet::milestone_approvals_preserved;
use crate::pallet::project_wf;
use crate::pallet::unlocked_funds_of;
use crate::pallet::Pallet;
use crate::types::pushed;
use crate::types::AccountId;
use crate::types::Balance;
use crate::types::Error;
use crate::types::Event;
use crate::types::Milestone;
use crate::types::Origin;
use crate::types::Project;
use crate::types::ProjectKey;
use crate::types::Refund;
use crate::types::MAX_PROPOSED_MILESTONES;

verus! {

/// What a contributor is owed back when a project is wound down: their
/// pledge, less their proportional share of what the initiator has already
/// withdrawn, rounded down.
pub open spec fn refund_amount(value: int, raised: int, withdrawn: int) -> int {
    (value * (raised - withdrawn)) / raised
}

/// The sum of the amounts of a refund list.
pub open spec fn refunds_total(rs: Seq<Refund>) -> int
    decreases rs.len(),
{
    if rs.len() == 0 {
        0
    } else {
        refunds_total(rs.drop_last()) + rs.last().amount
    }
}

/// The per-contributor transfers that wind a project down: one refund per
/// contribution record, together amounting to at most the un-withdrawn
/// escrow, and to exactly the raised funds when nothing was withdrawn.
pub fn compute_refunds(p: &Project) -> (out: (Vec<Refund>, Balance))
    requires
        crate::lookups::contributions_distinct(p.contributions@),
        forall|i: int|
            0 <= i < p.contributions@.len() ==> (#[trigger] p.contributions@[
                i
            ]).contribution.value > 0,
        p.raised_funds == contributions_total(p.contributions@),
        p.withdrawn_funds <= p.raised_funds,
    ensures
        out.0@.len() == p.contributions@.len(),
        forall|i: int|
            0 <= i < p.contributions@.len() ==> (#[trigger] out.0@[i]).who == p.contributions@[
                i
            ].account && out.0@[i].amount == refund_amount(
                p.contributions@[i].contribution.value as int,
                p.raised_funds as int,
                p.withdrawn_funds as int,
            ),
        out.1 == refunds_total(out.0@),
        out.1 <= p.raised_funds - p.withdrawn_funds,
        p.withdrawn_funds == 0 ==> out.1 == p.raised_funds,
{
    let raised = p.raised_funds;
    let withdrawn = p.withdrawn_funds;
    if raised == 0 {
        proof {
            lemma_positive_total(p.contributions@);
        }
        return (Vec::new(), 0);
    }
    let q: Balance = raised - withdrawn;
    let ghost cs = p.contributions@;
    let mut out: Vec<Refund> = Vec::new();
    let mut total: Balance = 0;
    let mut j: usize = 0;
    while j < p.contributions.len()
        invariant
            j <= cs.len(),
            p.contributions@ == cs,
            raised == p.raised_funds,
            withdrawn == p.withdrawn_funds,
            q == raised - withdrawn,
            raised > 0,
            raised == contributions_total(cs),
            forall|i: int|
                0 <= i < cs.len() ==> (#[trigger] cs[i]).contribution.value > 0,
            out@.len() == j,
            forall|i: int|
                0 <= i < j ==> (#[trigger] out@[i]).who == cs[i].account && out@[i].amount
                    == refund_amount(
                    cs[i].contribution.value as int,
                    raised as int,
                    withdrawn as int,
                ),
            total == refunds_total(out@),
            total * raised <= q * contributions_total(cs.take(j as int)),
            total <= q,
            withdrawn == 0 ==> total == contributions_total(cs.take(j as int)),
        decreases cs.len() - j,
    {
        let entry = p.contributions[j];
        let v = entry.contribution.value;
        proof {
            crate::arith::lemma_u64_mul_fits_u128(v as int, q as int);
        }
        let amount128: u128 = (v as u128) * (q as u128) / (raised as u128);
        proof {
            lemma_fraction_le(v as int, q as int, raised as int);
        }
        let amount: Balance = amount128 as Balance;
        let ghost out_pre = out@;
        let ghost s_j = contributions_total(cs.take(j as int));
        let ghost s_j1 = contributions_total(cs.take(j + 1));
        proof {
            assert(cs.take(j + 1).drop_last() =~= cs.take(j as int));
            assert(cs.take(j + 1).last() == cs[j as int]);
            assert(s_j1 == s_j + v);
            lemma_div_mul_le(v as int * q as int, raised as int);
            lemma_mul_is_distributive_add_other_way(
                raised as int,
                total as int,
                amount as int,
            );
            lemma_mul_is_commutative((total + amount) as int, raised as int);
            lemma_mul_is_commutative(total as int, raised as int);
            lemma_mul_is_commutative(amount as int, raised as int);
            lemma_mul_is_distributive_add(q as int, s_j, v as int);
            lemma_mul_is_commutative(v as int, q as int);
            assert(amount * raised <= v * q) by {
                assert(amount == (v as int * q as int) / (raised as int));
            }
            assert((total + amount) * raised <= q * s_j1);
            lemma_take_total_le(cs, j + 1);
            lemma_mul_inequality(s_j1, raised as int, q as int);
            lemma_mul_is_commutative(s_j1, q as int);
            lemma_mul_is_commutative(raised as int, q as int);
            assert(q * s_j1 <= q * raised);
            lemma_mul_inequality_converse(
                (total + amount) as int,
                q as int,
                raised as int,
            );
            assert(total + amount <= q);
            if withdrawn == 0 {
                vstd::arithmetic::div_mod::lemma_div_by_multiple(v as int, raised as int);
                assert(amount == v);
            }
        }
        out.push(Refund { who: entry.account, amount });
        proof {
            assert(out@.drop_last() =~= out_pre);
        }
        total = total + amount;
        j = j + 1;
    }
    proof {
        assert(cs.take(cs.len() as int) =~= cs);
    }
    (out, total)
}

/// The sum of the percentages of the approved milestones, executably.
fn sum_approved_percentages(ms: &Vec<Milestone>) -> (s: u64)
    requires
        ms@.len() <= MAX_PROPOSED_MILESTONES,
    ensures
        s == approved_percent_sum(ms@),
{
    let mut s: u64 = 0;
    let mut j: usize = 0;
    while j < ms.len()
        invariant
            j <= ms@.len() <= MAX_PROPOSED_MILESTONES,
            s == approved_percent_sum(ms@.take(j as int)),
            s <= j * (u32::MAX as u64),
        decreases ms@.len() - j,
    {
        proof {
            assert(ms@.take(j + 1).drop_last() =~= ms@.take(j as int));
            assert(ms@.take(j + 1).last() == ms@[j as int]);
        }
        if ms[j].is_approved {
            s = s + ms[j].percentage_to_unlock as u64;
        }
        j = j + 1;
    }
    proof {
        assert(ms@.take(ms@.len() as int) =~= ms@);
    }
    s
}

impl Pallet {
    /// Withdraws the available share of the raised funds: the unlocked
    /// amount under the approved milestones, less what was already
    /// withdrawn.  A protocol fee is deducted before transfer; the host
    /// moves the returned net amount from escrow to the initiator.
    /// Initiator only.
    pub fn withdraw(&mut self, origin: Origin, project_key: ProjectKey) -> (r: Result<
        Balance,
        Error,
    >)
        requires
            old(self).wf(),
        ensures
            final(self).wf(),
            r matches Err(e) ==> *final(self) == *old(self),
            r is Err <==> withdraw_error(*old(self), origin, project_key) is Some,
            r matches Err(e) ==> Some(e) == withdraw_error(*old(self), origin, project_key),
            r is Ok ==> (origin matches Origin::Signed(who) && {
                let p0 = old(self).projects@[project_key as int];
                let p1 = final(self).projects@[project_key as int];
                let available = unlocked_funds_of(p0) - p0.withdrawn_funds;
                let fee = portion(available, old(self).config.protocol_fee_percent as int);
                &&& r == Ok::<Balance, Error>((available - fee) as Balance)
                &&& final(self).projects@.len() == old(self).projects@.len()
                &&& forall|i: int|
                    0 <= i < old(self).projects@.len() && i != project_key
                        ==> final(self).projects@[i] == old(self).projects@[i]
                &&& p1.withdrawn_funds == unlocked_funds_of(p0)
                &&& p1.name == p0.name
                &&& p1.logo == p0.logo
                &&& p1.description == p0.description
                &&& p1.website == p0.website
                &&& p1.milestones == p0.milestones
                &&& p1.contributions == p0.contributions
                &&& p1.currency_id == p0.currency_id
                &&& p1.required_funds == p0.required_funds
                &&& p1.raised_funds == p0.raised_funds
                &&& p1.initiator == p0.initiator
                &&& p1.create_block_number == p0.create_block_number
                &&& p1.approved_for_funding == p0.approved_for_funding
                &&& p1.funding_threshold_met == p0.funding_threshold_met
                &&& p1.cancelled == p0.cancelled
                &&& final(self).rounds == old(self).rounds
                &&& final(self).whitelists == old(self).whitelists
                &&& final(self).user_votes == old(self).user_votes
                &&& final(self).milestone_votes == old(self).milestone_votes
                &&& final(self).no_confidence_votes == old(self).no_confidence_votes
                &&& pushed(old(self).events@, final(self).events@)
                &&& final(self).events@.last() == Event::ProjectFundsWithdrawn(
                    who,
                    project_key,
                    (available - fee) as Balance,
                    p0.currency_id,
                )
            }),
            old(self).same_params(*final(self)),
            milestone_approvals_preserved(*old(self), *final(self)),
    {
        let who: AccountId = match origin {
            Origin::Signed(a) => a,
            _ => {
                return Err(Error::BadOrigin);
            },
        };
        if (project_key as usize) >= self.projects.len() {
            return Err(Error::ProjectDoesNotExist);
        }
        let pk = project_key as usize;
        if self.projects[pk].initiator != who {
            return Err(Error::UserIsNotInitator);
        }
        if self.projects[pk].cancelled {
            return Err(Error::ProjectAlreadyCancelled);
        }
        if !self.projects[pk].approved_for_funding {
            return Err(Error::ProjectApprovalRequired);
        }

        let raised = self.projects[pk].raised_funds;
        let withdrawn = self.projects[pk].withdrawn_funds;
        let s = sum_approved_percentages(&self.projects[pk].milestones);
        proof {
            lemma_approved_le_percent_sum(self.projects@[pk as int].milestones@);
            lemma_portion_bounds(raised as int, s as int);
        }
        let unlocked: Balance = ((raised as u128) * (s as u128) / 100) as Balance;
        let available: Balance = unlocked - withdrawn;
        if available == 0 {
            return Err(Error::NoAvailableFundsToWithdraw);
        }
        let fee_percent = self.config.protocol_fee_percent;
        proof {
            lemma_portion_bounds(available as int, fee_percent as int);
        }
        let fee: Balance = ((available as u128) * (fee_percent as u128) / 100) as Balance;
        let net: Balance = available - fee;

        let currency = self.projects[pk].currency_id;
        let p = entry_mut(&mut self.projects, pk);
        p.withdrawn_funds = unlocked;
        proof {
            assert(project_wf(*p, pk as int));
        }
        self.events.push(Event::ProjectFundsWithdrawn(who, project_key, net, currency));
        Ok(net)
    }

    /// Winds a project down: marks it cancelled and reports one refund per
    /// contributor, proportional to the un-withdrawn escrow; authority
    /// only.  The host performs the returned transfers out of escrow.
    pub fn refund(&mut self, origin: Origin, project_key: ProjectKey) -> (r: Result<
        Vec<Refund>,
        Error,
    >)
        requires
            old(self).wf(),
        ensures
            final(self).wf(),
            r matches Err(e) ==> *final(self) == *old(self),
            r is Err <==> {
                ||| !(origin is Root)
                ||| project_key >= old(self).projects@.len()
                ||| old(self).projects@[project_key as int].cancelled
            },
            r matches Err(e) ==> e == if !(origin is Root) {
                Error::BadOrigin
            } else if project_key >= old(self).projects@.len() {
                Error::ProjectDoesNotExist
            } else {
                Error::ProjectAlreadyCancelled
            },
            r matches Ok(refunds) ==> ({
                let p0 = old(self).projects@[project_key as int];
                let p1 = final(self).projects@[project_key as int];
                &&& refunds_description(refunds@, p0)
                &&& final(self).projects@.len() == old(self).projects@.len()
                &&& forall|i: int|
                    0 <= i < old(self).projects@.len() && i != project_key
                        ==> final(self).projects@[i] == old(self).projects@[i]
                &&& p1.cancelled
                &&& p1.name == p0.name
                &&& p1.logo == p0.logo
                &&& p1.description == p0.description
                &&& p1.website == p0.website
                &&& p1.milestones == p0.milestones
                &&& p1.contributions == p0.contributions
                &&& p1.currency_id == p0.currency_id
                &&& p1.required_funds == p0.required_funds
                &&& p1.raised_funds == p0.raised_funds
                &&& p1.withdrawn_funds == p0.withdrawn_funds
                &&& p1.initiator == p0.initiator
                &&& p1.create_block_number == p0.create_block_number
                &&& p1.approved_for_funding == p0.approved_for_funding
                &&& p1.funding_threshold_met == p0.funding_threshold_met
                &&& final(self).rounds == old(self).rounds
                &&& final(self).whitelists == old(self).whitelists
                &&& final(self).user_votes == old(self).user_votes
                &&& final(self).milestone_votes == old(self).milestone_votes
                &&& final(self).no_confidence_votes == old(self).no_confidence_votes
                &&& pushed(old(self).events@, final(self).events@)
                &&& final(self).events@.last() == Event::ProjectLockedFundsRefunded(
                    project_key,
                    refunds_total(refunds@) as Balance,
                )
            }),
            old(self).same_params(*final(self)),
            milestone_approvals_preserved(*old(self), *final(self)),
    {
        if !matches!(origin, Origin::Root) {
            return Err(Error::BadOrigin);
        }
        if (project_key as usize) >= self.projects.len() {
            return Err(Error::ProjectDoesNotExist);
        }
        let pk = project_key as usize;
        if self.projects[pk].cancelled {
            return Err(Error::ProjectAlreadyCancelled);
        }
        proof {
            lemma_approved_le_percent_sum(self.projects@[pk as int].milestones@);
            crate::arith::lemma_portion_bounds(
                self.projects@[pk as int].raised_funds as int,
                approved_percent_sum(self.projects@[pk as int].milestones@),
            );
        }
        let (refunds, total) = compute_refunds(&self.projects[pk]);
        let p = entry_mut(&mut self.projects, pk);
        p.cancelled = true;
        proof {
            assert(project_wf(*p, pk as int));
        }
        self.events.push(Event::ProjectLockedFundsRefunded(project_key, total));
        Ok(refunds)
    }
}

/// A refund list matching a project's contribution ledger: one entry per
/// record, each the contributor's proportional share of the un-withdrawn
/// escrow, together amounting to no more than that escrow — and to every
/// pledge in full when nothing was withdrawn.
pub open spec fn refunds_description(rs: Seq<Refund>, p: Project) -> bool {
    &&& rs.len() == p.contributions@.len()
    &&& forall|i: int|
        0 <= i < p.contributions@.len() ==> (#[trigger] rs[i]).who == p.contributions@[
            i
        ].account && rs[i].amount == refund_amount(
            p.contributions@[i].contribution.value as int,
            p.raised_funds as int,
            p.withdrawn_funds as int,
        )
    &&& refunds_total(rs) <= p.raised_funds - p.withdrawn_funds
    &&& p.withdrawn_funds == 0 ==> refunds_total(rs) == p.raised_funds
}

/// Why a `withdraw` call is rejected, if it is: only the initiator of an
/// approved, not cancelled project may withdraw, and only while something
/// is available.
pub open spec fn withdraw_error(s: Pallet, origin: Origin, project_key: ProjectKey) -> Option<
    Error,
> {
    match origin {
        Origin::Signed(who) => {
            if project_key >= s.projects@.len() {
                Some(Error::ProjectDoesNotExist)
            } else if s.projects@[project_key as int].initiator != who {
                Some(Error::UserIsNotInitator)
            } else if s.projects@[project_key as int].cancelled {
                Some(Error::ProjectAlreadyCancelled)
            } else if !s.projects@[project_key as int].approved_for_funding {
                Some(Error::ProjectApprovalRequired)
            } else if unlocked_funds_of(s.projects@[project_key as int]) == s.projects@[
                project_key as int
            ].withdrawn_funds {
                Some(Error::NoAvailableFundsToWithdraw)
            } else {
                None
            }
        },
        _ => Some(Error::BadOrigin),
    }
}

} // verus!
