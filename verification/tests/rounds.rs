//! Round scheduling, cancellation, resolution, and the parameter knobs.

use proposals::pallet::Pallet;
use proposals::types::Config;
use proposals::types::CurrencyId;
use proposals::types::Error;
use proposals::types::Event;
use proposals::types::Origin;
use proposals::types::ProposedMilestone;
use proposals::types::RoundType;

fn config() -> Config {
    Config {
        max_projects_per_round: 5,
        max_withdrawal_expiration: 100,
        no_confidence_time_limit: 10,
        percent_required_for_vote_to_pass: 75,
        protocol_fee_percent: 5,
    }
}

fn new_project(s: &mut Pallet) -> u32 {
    s.create_project(
        Origin::Signed(1),
        true,
        b"name".to_vec(),
        b"logo".to_vec(),
        b"description".to_vec(),
        b"https://site".to_vec(),
        vec![ProposedMilestone { name: b"all".to_vec(), percentage_to_unlock: 100 }],
        10_000,
        CurrencyId::Native,
        1,
    )
    .unwrap()
}

#[test]
fn schedule_round_validates_inputs() {
    let mut s = Pallet::new(config());
    let pk = new_project(&mut s);
    assert_eq!(
        s.schedule_round(Origin::Signed(1), 1, 10, vec![pk], RoundType::ContributionRound, 0),
        Err(Error::BadOrigin)
    );
    assert_eq!(
        s.schedule_round(Origin::Root, 10, 10, vec![pk], RoundType::ContributionRound, 0),
        Err(Error::EndTooEarly)
    );
    assert_eq!(
        s.schedule_round(Origin::Root, 1, 10, vec![pk], RoundType::ContributionRound, 10),
        Err(Error::EndBlockNumberInvalid)
    );
    assert_eq!(
        s.schedule_round(Origin::Root, 1, 10, vec![], RoundType::ContributionRound, 0),
        Err(Error::LengthMustExceedZero)
    );
    assert_eq!(
        s.schedule_round(Origin::Root, 1, 10, vec![pk, 7], RoundType::ContributionRound, 0),
        Err(Error::ProjectDoesNotExist)
    );
    assert_eq!(s.round_count(), 0);
    let rk = s
        .schedule_round(Origin::Root, 1, 10, vec![pk], RoundType::ContributionRound, 0)
        .unwrap();
    assert_eq!(rk, 1);
    assert_eq!(s.round_count(), 1);
    assert!(matches!(
        s.events().last(),
        Some(Event::FundingRoundCreated(1, _))
    ));
}

#[test]
fn voting_round_zeroes_tallies() {
    let mut s = Pallet::new(config());
    let pk = new_project(&mut s);
    assert!(s.milestone_votes(pk, 0).is_none());
    s.schedule_round(Origin::Root, 1, 10, vec![pk], RoundType::VotingRound, 0)
        .unwrap();
    let tally = s.milestone_votes(pk, 0).unwrap();
    assert_eq!((tally.yay, tally.nay, tally.is_approved), (0, 0, false));
}

#[test]
fn cancel_round_only_before_start() {
    let mut s = Pallet::new(config());
    let pk = new_project(&mut s);
    let rk = s
        .schedule_round(Origin::Root, 5, 10, vec![pk], RoundType::ContributionRound, 0)
        .unwrap();
    assert_eq!(s.cancel_round(Origin::Signed(1), rk, 1), Err(Error::BadOrigin));
    assert_eq!(s.cancel_round(Origin::Root, 9, 1), Err(Error::NoActiveRound));
    assert_eq!(s.cancel_round(Origin::Root, rk, 5), Err(Error::RoundStarted));
    s.cancel_round(Origin::Root, rk, 1).unwrap();
    assert!(s.rounds(rk).unwrap().is_canceled);
    assert!(matches!(s.events().last(), Some(Event::RoundCancelled(1))));
    assert_eq!(s.cancel_round(Origin::Root, rk, 1), Err(Error::RoundCanceled));
    // A canceled round accepts no contributions.
    assert_eq!(
        s.contribute(Origin::Signed(5), Some(rk), pk, 100, 6, 1),
        Err(Error::RoundCanceled)
    );
}

#[test]
fn latest_round_resolution_prefers_newest() {
    let mut s = Pallet::new(config());
    let pk = new_project(&mut s);
    assert_eq!(s.latest_round_for(pk, 5), None);
    let r1 = s
        .schedule_round(Origin::Root, 1, 20, vec![pk], RoundType::ContributionRound, 0)
        .unwrap();
    let r2 = s
        .schedule_round(Origin::Root, 2, 20, vec![pk], RoundType::ContributionRound, 0)
        .unwrap();
    // Both windows contain height 5; the most recently created round wins.
    assert_eq!(s.latest_round_for(pk, 5), Some(r2));
    // Before the second round opens only the first is live.
    assert_eq!(s.latest_round_for(pk, 1), Some(r1));
    // Outside both windows nothing resolves.
    assert_eq!(s.latest_round_for(pk, 25), None);
    // A canceled round is skipped.
    let r3 = s
        .schedule_round(Origin::Root, 30, 40, vec![pk], RoundType::ContributionRound, 0)
        .unwrap();
    s.cancel_round(Origin::Root, r3, 25).unwrap();
    assert_eq!(s.latest_round_for(pk, 35), None);
}

#[test]
fn explicit_round_key_overrides_default() {
    let mut s = Pallet::new(config());
    let pk = new_project(&mut s);
    let r1 = s
        .schedule_round(Origin::Root, 1, 20, vec![pk], RoundType::ContributionRound, 0)
        .unwrap();
    let pk2 = new_project(&mut s);
    s.schedule_round(Origin::Root, 1, 20, vec![pk2], RoundType::ContributionRound, 0)
        .unwrap();
    // The default target is the most recent round, which ignores pk.
    assert_eq!(
        s.contribute(Origin::Signed(5), None, pk, 100, 5, 1),
        Err(Error::ProjectNotInRound)
    );
    s.contribute(Origin::Signed(5), Some(r1), pk, 100, 5, 1).unwrap();
    assert_eq!(s.projects(pk).unwrap().raised_funds, 100);
}

#[test]
fn parameter_knobs_are_authority_only() {
    let mut s = Pallet::new(config());
    assert_eq!(
        s.set_max_project_count_per_round(Origin::Signed(1), 3),
        Err(Error::BadOrigin)
    );
    // The cap must be positive and within the configured bound of 5.
    assert_eq!(
        s.set_max_project_count_per_round(Origin::Root, 0),
        Err(Error::ParamLimitExceed)
    );
    assert_eq!(
        s.set_max_project_count_per_round(Origin::Root, 6),
        Err(Error::ParamLimitExceed)
    );
    s.set_max_project_count_per_round(Origin::Root, 3).unwrap();
    assert_eq!(s.max_project_count_per_round(), 3);

    assert_eq!(
        s.set_milestone_voting_window(Origin::Root, 0),
        Err(Error::ParamLimitExceed)
    );
    s.set_milestone_voting_window(Origin::Root, 500).unwrap();
    assert_eq!(s.milestone_voting_window(), 500);

    assert_eq!(
        s.set_withdrawal_expiration(Origin::Root, 0),
        Err(Error::InvalidParam)
    );
    s.set_withdrawal_expiration(Origin::Root, 50).unwrap();
    assert_eq!(s.withdrawal_expiration(), 50);

    assert_eq!(
        s.set_is_identity_required(Origin::Signed(1), true),
        Err(Error::BadOrigin)
    );
    s.set_is_identity_required(Origin::Root, true).unwrap();
    assert!(s.is_identity_required());
}

#[test]
fn shortened_voting_window_applies_to_submissions() {
    let mut s = Pallet::new(config());
    let pk = new_project(&mut s);
    s.schedule_round(Origin::Root, 1, 10, vec![pk], RoundType::ContributionRound, 0)
        .unwrap();
    s.contribute(Origin::Signed(5), None, pk, 1000, 5, 1).unwrap();
    s.approve(Origin::Root, None, pk, None, 11).unwrap();
    s.set_milestone_voting_window(Origin::Root, 5).unwrap();
    let rk = s.submit_milestone(Origin::Signed(1), pk, 0, 12).unwrap();
    assert_eq!(s.rounds(rk).unwrap().end, 17);
    // Once the short window has elapsed the initiator can finalise even
    // a one-sided but undecided tally.
    s.vote_on_milestone(Origin::Signed(5), pk, 0, None, true, 13).unwrap();
    s.finalise_milestone_voting(Origin::Signed(1), pk, 0, 18).unwrap();
    assert!(s.projects(pk).unwrap().milestones[0].is_approved);
}
