//! The no-confidence track and the refund engine.

use proposals::pallet::Pallet;
use proposals::types::Config;
use proposals::types::CurrencyId;
use proposals::types::Error;
use proposals::types::Event;
use proposals::types::Origin;
use proposals::types::ProposedMilestone;
use proposals::types::Refund;
use proposals::types::RoundType;

fn config() -> Config {
    Config {
        max_projects_per_round: 5,
        max_withdrawal_expiration: 100,
        no_confidence_time_limit: 10,
        percent_required_for_vote_to_pass: 75,
        protocol_fee_percent: 5,
    }
}

/// A project approved for funding with pledges of 600 from account 5 and
/// 400 from account 6.
fn funded_project(s: &mut Pallet) -> u32 {
    let pk = s
        .create_project(
            Origin::Signed(1),
            true,
            b"name".to_vec(),
            b"logo".to_vec(),
            b"description".to_vec(),
            b"https://site".to_vec(),
            vec![
                ProposedMilestone { name: b"design".to_vec(), percentage_to_unlock: 60 },
                ProposedMilestone { name: b"build".to_vec(), percentage_to_unlock: 40 },
            ],
            10_000,
            CurrencyId::Native,
            1,
        )
        .unwrap();
    s.schedule_round(Origin::Root, 1, 10, vec![pk], RoundType::ContributionRound, 0)
        .unwrap();
    s.contribute(Origin::Signed(5), None, pk, 600, 5, 1).unwrap();
    s.contribute(Origin::Signed(6), None, pk, 400, 5, 1).unwrap();
    s.approve(Origin::Root, None, pk, None, 11).unwrap();
    pk
}

/// A passing no-confidence round cancels the project and refunds every
/// contributor's un-withdrawn pledge in full.
#[test]
fn no_confidence_pass_cancels_and_refunds() {
    let mut s = Pallet::new(config());
    let pk = funded_project(&mut s);
    let rk = s.raise_vote_of_no_confidence(Origin::Signed(5), pk, 20).unwrap();
    assert_eq!(rk, 2);
    let round = s.rounds(rk).unwrap();
    assert_eq!((round.start, round.end), (20, 30));
    assert_eq!(round.round_type, RoundType::VoteOfNoConfidence);
    let tally = s.no_confidence_votes(pk).unwrap();
    assert_eq!((tally.yay, tally.nay), (0, 0));

    s.vote_on_no_confidence_round(Origin::Signed(5), None, pk, true, 21).unwrap();
    s.vote_on_no_confidence_round(Origin::Signed(6), None, pk, true, 22).unwrap();
    let tally = s.no_confidence_votes(pk).unwrap();
    assert_eq!((tally.yay, tally.nay), (1000, 0));

    // 1000 of 1000 cast for no confidence reaches the 75 percent bar.
    let outcome = s
        .finalise_no_confidence_round(Origin::Signed(9), None, pk, 31)
        .unwrap();
    let refunds = outcome.expect("the vote passed");
    assert_eq!(
        refunds,
        vec![Refund { who: 5, amount: 600 }, Refund { who: 6, amount: 400 }]
    );
    assert!(s.projects(pk).unwrap().cancelled);
    assert!(s.no_confidence_votes(pk).is_none());
    assert!(matches!(
        s.events().last(),
        Some(Event::NoConfidenceRoundFinalised(2, 0))
    ));
}

/// A failing no-confidence round leaves the project untouched and may be
/// raised again later.
#[test]
fn no_confidence_fail_leaves_project() {
    let mut s = Pallet::new(config());
    let pk = funded_project(&mut s);
    s.raise_vote_of_no_confidence(Origin::Signed(5), pk, 20).unwrap();
    s.vote_on_no_confidence_round(Origin::Signed(5), None, pk, true, 21).unwrap();
    s.vote_on_no_confidence_round(Origin::Signed(6), None, pk, false, 22).unwrap();
    // 600 yay of 1000 cast misses the 75 percent bar; wait out the window.
    assert_eq!(
        s.finalise_no_confidence_round(Origin::Signed(9), None, pk, 25),
        Err(Error::RoundNotEnded)
    );
    let outcome = s
        .finalise_no_confidence_round(Origin::Signed(9), None, pk, 31)
        .unwrap();
    assert!(outcome.is_none());
    assert!(!s.projects(pk).unwrap().cancelled);
    assert_eq!(s.projects(pk).unwrap().raised_funds, 1000);
    // The track is free again.
    s.raise_vote_of_no_confidence(Origin::Signed(5), pk, 40).unwrap();
}

#[test]
fn no_confidence_eligibility_rules() {
    let mut s = Pallet::new(config());
    let pk = funded_project(&mut s);
    assert_eq!(
        s.raise_vote_of_no_confidence(Origin::Signed(9), pk, 20),
        Err(Error::OnlyContributorsCanVote)
    );
    s.raise_vote_of_no_confidence(Origin::Signed(5), pk, 20).unwrap();
    // Only one live no-confidence round per project.
    assert_eq!(
        s.raise_vote_of_no_confidence(Origin::Signed(6), pk, 21),
        Err(Error::NoConfidenceRoundActive)
    );
    assert_eq!(
        s.vote_on_no_confidence_round(Origin::Signed(9), None, pk, true, 21),
        Err(Error::OnlyContributorsCanVote)
    );
    s.vote_on_no_confidence_round(Origin::Signed(5), None, pk, true, 21).unwrap();
    assert_eq!(
        s.vote_on_no_confidence_round(Origin::Signed(5), None, pk, true, 22),
        Err(Error::VoteAlreadyExists)
    );
    // Votes no longer accepted once the window has elapsed.
    assert_eq!(
        s.vote_on_no_confidence_round(Origin::Signed(6), None, pk, true, 31),
        Err(Error::RoundNotProcessing)
    );
}

#[test]
fn no_confidence_requires_approved_project() {
    let mut s = Pallet::new(config());
    let pk = s
        .create_project(
            Origin::Signed(1),
            true,
            b"n".to_vec(),
            b"l".to_vec(),
            b"d".to_vec(),
            b"w".to_vec(),
            vec![ProposedMilestone { name: b"all".to_vec(), percentage_to_unlock: 100 }],
            10,
            CurrencyId::Native,
            1,
        )
        .unwrap();
    s.schedule_round(Origin::Root, 1, 10, vec![pk], RoundType::ContributionRound, 0)
        .unwrap();
    s.contribute(Origin::Signed(5), None, pk, 100, 5, 1).unwrap();
    assert_eq!(
        s.raise_vote_of_no_confidence(Origin::Signed(5), pk, 6),
        Err(Error::ProjectApprovalRequired)
    );
}

/// Refunds after a partial withdrawal return each pledge less its
/// proportional share of what the initiator already took.
#[test]
fn refund_is_proportional_after_withdrawal() {
    let mut s = Pallet::new(config());
    let pk = funded_project(&mut s);
    s.submit_milestone(Origin::Signed(1), pk, 0, 12).unwrap();
    s.vote_on_milestone(Origin::Signed(5), pk, 0, None, true, 13).unwrap();
    s.vote_on_milestone(Origin::Signed(6), pk, 0, None, true, 13).unwrap();
    s.finalise_milestone_voting(Origin::Signed(1), pk, 0, 14).unwrap();
    s.withdraw(Origin::Signed(1), pk).unwrap();
    assert_eq!(s.projects(pk).unwrap().withdrawn_funds, 600);
    // 400 of the 1000 raised remain in escrow: 40 percent of each pledge.
    let refunds = s.refund(Origin::Root, pk).unwrap();
    assert_eq!(
        refunds,
        vec![Refund { who: 5, amount: 240 }, Refund { who: 6, amount: 160 }]
    );
    assert!(s.projects(pk).unwrap().cancelled);
    assert!(matches!(
        s.events().last(),
        Some(Event::ProjectLockedFundsRefunded(0, 400))
    ));
    // A cancelled project cannot be wound down twice nor withdrawn from.
    assert_eq!(s.refund(Origin::Root, pk), Err(Error::ProjectAlreadyCancelled));
    assert_eq!(
        s.withdraw(Origin::Signed(1), pk),
        Err(Error::ProjectAlreadyCancelled)
    );
}

#[test]
fn refund_is_authority_only() {
    let mut s = Pallet::new(config());
    let pk = funded_project(&mut s);
    assert_eq!(s.refund(Origin::Signed(1), pk), Err(Error::BadOrigin));
    assert_eq!(s.refund(Origin::Root, 9), Err(Error::ProjectDoesNotExist));
}
