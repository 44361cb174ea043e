//! Rounds, contributions, milestone voting and withdrawal, end to end.

use proposals::pallet::Pallet;
use proposals::types::Config;
use proposals::types::CurrencyId;
use proposals::types::Error;
use proposals::types::Event;
use proposals::types::Origin;
use proposals::types::ProposedMilestone;
use proposals::types::RoundType;
use proposals::types::Whitelist;

fn config() -> Config {
    Config {
        max_projects_per_round: 5,
        max_withdrawal_expiration: 100,
        no_confidence_time_limit: 10,
        percent_required_for_vote_to_pass: 75,
        protocol_fee_percent: 5,
    }
}

fn new_project(s: &mut Pallet) -> u32 {
    s.create_project(
        Origin::Signed(1),
        true,
        b"name".to_vec(),
        b"logo".to_vec(),
        b"description".to_vec(),
        b"https://site".to_vec(),
        vec![
            ProposedMilestone { name: b"design".to_vec(), percentage_to_unlock: 60 },
            ProposedMilestone { name: b"build".to_vec(), percentage_to_unlock: 40 },
        ],
        10_000,
        CurrencyId::Native,
        1,
    )
    .unwrap()
}

/// Project funded in a contribution round, milestone voted through, and the
/// unlocked share withdrawn net of the protocol fee.
#[test]
fn funded_milestone_withdrawal_scenario() {
    let mut s = Pallet::new(config());
    let pk = new_project(&mut s);
    let rk = s
        .schedule_round(Origin::Root, 1, 10, vec![pk], RoundType::ContributionRound, 0)
        .unwrap();
    assert_eq!(rk, 1);
    s.contribute(Origin::Signed(5), None, pk, 1000, 5, 111).unwrap();
    assert_eq!(s.projects(pk).unwrap().raised_funds, 1000);
    s.approve(Origin::Root, None, pk, None, 11).unwrap();
    assert!(s.projects(pk).unwrap().approved_for_funding);
    assert!(!s.projects(pk).unwrap().funding_threshold_met);

    let voting_rk = s.submit_milestone(Origin::Signed(1), pk, 0, 12).unwrap();
    assert_eq!(voting_rk, 2);
    let tally = s.milestone_votes(pk, 0).unwrap();
    assert_eq!((tally.yay, tally.nay), (0, 0));
    s.vote_on_milestone(Origin::Signed(5), pk, 0, None, true, 13).unwrap();
    let tally = s.milestone_votes(pk, 0).unwrap();
    assert_eq!((tally.yay, tally.nay), (1000, 0));

    // The contributor's full weight already decides the outcome, so the
    // initiator may finalise before the window closes.
    s.finalise_milestone_voting(Origin::Signed(1), pk, 0, 14).unwrap();
    assert!(s.projects(pk).unwrap().milestones[0].is_approved);
    assert!(!s.projects(pk).unwrap().milestones[1].is_approved);

    // 60 percent of 1000 unlocked, 5 percent fee on the available 600.
    let net = s.withdraw(Origin::Signed(1), pk).unwrap();
    assert_eq!(net, 570);
    assert_eq!(s.projects(pk).unwrap().withdrawn_funds, 600);
    assert_eq!(s.projects(pk).unwrap().raised_funds, 1000);
    assert!(matches!(
        s.events().last(),
        Some(Event::ProjectFundsWithdrawn(1, 0, 570, CurrencyId::Native))
    ));

    // Nothing further to withdraw until another milestone is approved.
    assert_eq!(s.withdraw(Origin::Signed(1), pk), Err(Error::NoAvailableFundsToWithdraw));
    assert_eq!(s.projects(pk).unwrap().withdrawn_funds, 600);
}

/// Two pledges of one contributor accumulate into a single record.
#[test]
fn repeat_contributions_accumulate() {
    let mut s = Pallet::new(config());
    let pk = new_project(&mut s);
    s.schedule_round(Origin::Root, 1, 10, vec![pk], RoundType::ContributionRound, 0)
        .unwrap();
    s.contribute(Origin::Signed(5), None, pk, 300, 2, 100).unwrap();
    s.contribute(Origin::Signed(5), None, pk, 200, 3, 200).unwrap();
    let p = s.projects(pk).unwrap();
    assert_eq!(p.contributions.len(), 1);
    assert_eq!(p.contributions[0].account, 5);
    assert_eq!(p.contributions[0].contribution.value, 500);
    assert_eq!(p.contributions[0].contribution.timestamp, 200);
    assert_eq!(p.raised_funds, 500);
}

/// Contributing outside any open round, or to a round that does not list
/// the project, fails and leaves the accounting untouched.
#[test]
fn contribute_outside_round_fails() {
    let mut s = Pallet::new(config());
    let pk = new_project(&mut s);
    // No round at all.
    let r = s.contribute(Origin::Signed(5), None, pk, 100, 2, 1);
    assert_eq!(r, Err(Error::NoActiveRound));
    s.schedule_round(Origin::Root, 5, 10, vec![pk], RoundType::ContributionRound, 0)
        .unwrap();
    // Round not yet open, then already closed.
    assert_eq!(
        s.contribute(Origin::Signed(5), None, pk, 100, 2, 1),
        Err(Error::RoundNotProcessing)
    );
    assert_eq!(
        s.contribute(Origin::Signed(5), None, pk, 100, 10, 1),
        Err(Error::RoundNotProcessing)
    );
    // Round listing only another project.
    let other = new_project(&mut s);
    s.schedule_round(Origin::Root, 5, 10, vec![other], RoundType::ContributionRound, 0)
        .unwrap();
    assert_eq!(
        s.contribute(Origin::Signed(5), None, pk, 100, 6, 1),
        Err(Error::ProjectNotInRound)
    );
    assert_eq!(s.projects(pk).unwrap().raised_funds, 0);
    assert_eq!(s.projects(pk).unwrap().contributions.len(), 0);
}

#[test]
fn contribute_validates_amount_and_project() {
    let mut s = Pallet::new(config());
    let pk = new_project(&mut s);
    s.schedule_round(Origin::Root, 1, 10, vec![pk], RoundType::ContributionRound, 0)
        .unwrap();
    assert_eq!(
        s.contribute(Origin::Signed(5), None, pk, 0, 5, 1),
        Err(Error::InvalidParam)
    );
    assert_eq!(
        s.contribute(Origin::Signed(5), None, 9, 10, 5, 1),
        Err(Error::ProjectDoesNotExist)
    );
    assert_eq!(
        s.contribute(Origin::Root, None, pk, 10, 5, 1),
        Err(Error::BadOrigin)
    );
}

#[test]
fn contribution_accumulators_never_wrap() {
    let mut s = Pallet::new(config());
    let pk = new_project(&mut s);
    s.schedule_round(Origin::Root, 1, 10, vec![pk], RoundType::ContributionRound, 0)
        .unwrap();
    s.contribute(Origin::Signed(5), None, pk, u64::MAX, 5, 1).unwrap();
    assert_eq!(
        s.contribute(Origin::Signed(6), None, pk, 1, 6, 2),
        Err(Error::Overflow)
    );
    assert_eq!(s.projects(pk).unwrap().raised_funds, u64::MAX);
}

#[test]
fn whitelisted_project_enforces_caps() {
    let mut s = Pallet::new(config());
    let pk = new_project(&mut s);
    s.add_project_whitelist(
        Origin::Signed(1),
        pk,
        vec![Whitelist { who: 5, max_cap: 500 }],
        1,
    )
    .unwrap();
    s.schedule_round(Origin::Root, 1, 10, vec![pk], RoundType::ContributionRound, 0)
        .unwrap();
    assert_eq!(
        s.contribute(Origin::Signed(6), None, pk, 100, 5, 1),
        Err(Error::OnlyWhitelistedAccountsCanContribute)
    );
    s.contribute(Origin::Signed(5), None, pk, 400, 5, 1).unwrap();
    assert_eq!(
        s.contribute(Origin::Signed(5), None, pk, 200, 6, 2),
        Err(Error::ContributionMustBeLowerThanMaxCap)
    );
    s.contribute(Origin::Signed(5), None, pk, 100, 6, 2).unwrap();
    assert_eq!(s.projects(pk).unwrap().raised_funds, 500);
}

#[test]
fn approve_requires_ended_contribution_round() {
    let mut s = Pallet::new(config());
    let pk = new_project(&mut s);
    s.schedule_round(Origin::Root, 1, 10, vec![pk], RoundType::ContributionRound, 0)
        .unwrap();
    assert_eq!(
        s.approve(Origin::Root, None, pk, None, 5),
        Err(Error::RoundNotEnded)
    );
    assert_eq!(
        s.approve(Origin::Signed(1), None, pk, None, 11),
        Err(Error::BadOrigin)
    );
    s.approve(Origin::Root, None, pk, None, 11).unwrap();
    assert!(matches!(s.events().last(), Some(Event::ProjectApproved(1, 0))));
}

#[test]
fn approve_bootstraps_favourably_tallied_milestones() {
    let mut s = Pallet::new(config());
    let pk = new_project(&mut s);
    s.schedule_round(Origin::Root, 1, 10, vec![pk], RoundType::ContributionRound, 0)
        .unwrap();
    s.contribute(Origin::Signed(5), None, pk, 1000, 5, 1).unwrap();
    // A voting round zeroes tallies for every milestone of the project.
    s.schedule_round(Origin::Root, 11, 20, vec![pk], RoundType::VotingRound, 10)
        .unwrap();
    s.vote_on_milestone(Origin::Signed(5), pk, 0, None, true, 12).unwrap();
    // Finalising the contribution round: milestone 0 is favourably
    // tallied and gets approved on the spot, milestone 1 is not.
    s.approve(Origin::Root, Some(1), pk, Some(vec![0, 1]), 21).unwrap();
    assert!(s.projects(pk).unwrap().milestones[0].is_approved);
    assert!(!s.projects(pk).unwrap().milestones[1].is_approved);
    assert_eq!(
        s.approve(Origin::Root, Some(1), pk, Some(vec![7]), 21),
        Err(Error::MilestoneDoesNotExist)
    );
}

#[test]
fn milestone_submission_rules() {
    let mut s = Pallet::new(config());
    let pk = new_project(&mut s);
    assert_eq!(
        s.submit_milestone(Origin::Signed(1), pk, 0, 2),
        Err(Error::OnlyApprovedProjectsCanSubmitMilestones)
    );
    s.schedule_round(Origin::Root, 1, 10, vec![pk], RoundType::ContributionRound, 0)
        .unwrap();
    s.contribute(Origin::Signed(5), None, pk, 1000, 5, 1).unwrap();
    s.approve(Origin::Root, None, pk, None, 11).unwrap();
    assert_eq!(
        s.submit_milestone(Origin::Signed(2), pk, 0, 12),
        Err(Error::UserIsNotInitator)
    );
    assert_eq!(
        s.submit_milestone(Origin::Signed(1), pk, 9, 12),
        Err(Error::MilestoneDoesNotExist)
    );
    let rk = s.submit_milestone(Origin::Signed(1), pk, 0, 12).unwrap();
    let round = s.rounds(rk).unwrap();
    assert_eq!(round.start, 12);
    assert_eq!(round.end, 12 + 100800);
    assert_eq!(round.round_type, RoundType::VotingRound);
    assert!(matches!(s.events().last(), Some(Event::VotingRoundCreated(2, _))));
}

#[test]
fn milestone_votes_require_contribution_and_live_round() {
    let mut s = Pallet::new(config());
    let pk = new_project(&mut s);
    s.schedule_round(Origin::Root, 1, 10, vec![pk], RoundType::ContributionRound, 0)
        .unwrap();
    s.contribute(Origin::Signed(5), None, pk, 1000, 5, 1).unwrap();
    s.approve(Origin::Root, None, pk, None, 11).unwrap();
    s.submit_milestone(Origin::Signed(1), pk, 0, 12).unwrap();
    assert_eq!(
        s.vote_on_milestone(Origin::Signed(9), pk, 0, None, true, 13),
        Err(Error::OnlyContributorsCanVote)
    );
    // The contribution round is no voting round.
    assert_eq!(
        s.vote_on_milestone(Origin::Signed(5), pk, 0, Some(1), true, 13),
        Err(Error::InvalidRoundType)
    );
    // Voting after the window has elapsed.
    assert_eq!(
        s.vote_on_milestone(Origin::Signed(5), pk, 0, None, true, 12 + 100800),
        Err(Error::RoundNotProcessing)
    );
    s.vote_on_milestone(Origin::Signed(5), pk, 0, None, false, 13).unwrap();
    let tally = s.milestone_votes(pk, 0).unwrap();
    assert_eq!((tally.yay, tally.nay), (0, 1000));
}

#[test]
fn milestone_finalisation_needs_majority() {
    let mut s = Pallet::new(config());
    let pk = new_project(&mut s);
    s.schedule_round(Origin::Root, 1, 10, vec![pk], RoundType::ContributionRound, 0)
        .unwrap();
    s.contribute(Origin::Signed(5), None, pk, 600, 5, 1).unwrap();
    s.contribute(Origin::Signed(6), None, pk, 400, 5, 1).unwrap();
    s.approve(Origin::Root, None, pk, None, 11).unwrap();
    s.submit_milestone(Origin::Signed(1), pk, 0, 12).unwrap();
    s.vote_on_milestone(Origin::Signed(6), pk, 0, None, true, 13).unwrap();
    assert_eq!(
        s.finalise_milestone_voting(Origin::Signed(2), pk, 0, 14),
        Err(Error::OnlyInitiatorOrAdminCanApproveMilestone)
    );
    // 400 yay of 1000 raised: neither decided nor is the window over.
    assert_eq!(
        s.finalise_milestone_voting(Origin::Signed(1), pk, 0, 14),
        Err(Error::MilestoneVotingNotComplete)
    );
    s.vote_on_milestone(Origin::Signed(5), pk, 0, None, false, 15).unwrap();
    // 400 yay vs 600 nay is decided, but the yays do not outweigh.
    assert_eq!(
        s.finalise_milestone_voting(Origin::Signed(1), pk, 0, 16),
        Err(Error::VoteThresholdNotMet)
    );
    assert!(!s.projects(pk).unwrap().milestones[0].is_approved);
    // The milestone may be resubmitted: the tally resets to zero.
    s.submit_milestone(Origin::Signed(1), pk, 0, 17).unwrap();
    let tally = s.milestone_votes(pk, 0).unwrap();
    assert_eq!((tally.yay, tally.nay), (0, 0));
}

/// No contributor can record two votes for the same milestone and round.
#[test]
fn double_milestone_vote_rejected() {
    let mut s = Pallet::new(config());
    let pk = new_project(&mut s);
    s.schedule_round(Origin::Root, 1, 10, vec![pk], RoundType::ContributionRound, 0)
        .unwrap();
    s.contribute(Origin::Signed(5), None, pk, 1000, 5, 1).unwrap();
    s.approve(Origin::Root, None, pk, None, 11).unwrap();
    let rk = s.submit_milestone(Origin::Signed(1), pk, 0, 12).unwrap();
    s.vote_on_milestone(Origin::Signed(5), pk, 0, None, true, 13).unwrap();
    assert!(s.user_votes(5, pk, 0, rk));
    assert_eq!(
        s.vote_on_milestone(Origin::Signed(5), pk, 0, None, false, 14),
        Err(Error::VoteAlreadyExists)
    );
    let tally = s.milestone_votes(pk, 0).unwrap();
    assert_eq!((tally.yay, tally.nay), (1000, 0));
    // A fresh round for the same milestone accepts a fresh vote.
    s.finalise_milestone_voting(Origin::Signed(1), pk, 0, 14).unwrap();
    s.submit_milestone(Origin::Signed(1), pk, 1, 15).unwrap();
    s.vote_on_milestone(Origin::Signed(5), pk, 1, None, true, 16).unwrap();
}

#[test]
fn withdraw_requires_approval_and_initiator() {
    let mut s = Pallet::new(config());
    let pk = new_project(&mut s);
    assert_eq!(s.withdraw(Origin::Signed(2), pk), Err(Error::UserIsNotInitator));
    assert_eq!(
        s.withdraw(Origin::Signed(1), pk),
        Err(Error::ProjectApprovalRequired)
    );
    assert_eq!(s.withdraw(Origin::Signed(1), 9), Err(Error::ProjectDoesNotExist));
}

#[test]
fn approved_milestone_cannot_be_resubmitted() {
    let mut s = Pallet::new(config());
    let pk = new_project(&mut s);
    s.schedule_round(Origin::Root, 1, 10, vec![pk], RoundType::ContributionRound, 0)
        .unwrap();
    s.contribute(Origin::Signed(5), None, pk, 1000, 5, 1).unwrap();
    s.approve(Origin::Root, None, pk, None, 11).unwrap();
    s.submit_milestone(Origin::Signed(1), pk, 0, 12).unwrap();
    s.vote_on_milestone(Origin::Signed(5), pk, 0, None, true, 13).unwrap();
    s.finalise_milestone_voting(Origin::Signed(1), pk, 0, 14).unwrap();
    assert_eq!(
        s.submit_milestone(Origin::Signed(1), pk, 0, 15),
        Err(Error::MilestoneAlreadyApproved)
    );
    assert_eq!(
        s.finalise_milestone_voting(Origin::Signed(1), pk, 0, 15),
        Err(Error::MilestoneAlreadyApproved)
    );
}

#[test]
fn approve_requires_stored_tallies_for_named_milestones() {
    let mut s = Pallet::new(config());
    let pk = new_project(&mut s);
    s.schedule_round(Origin::Root, 1, 10, vec![pk], RoundType::ContributionRound, 0)
        .unwrap();
    // No voting round ever touched milestone 0, so it has no tally.
    assert_eq!(
        s.approve(Origin::Root, None, pk, Some(vec![0]), 11),
        Err(Error::KeyNotFound)
    );
}
