//! Project creation and whitelist management.

use proposals::pallet::Pallet;
use proposals::types::Config;
use proposals::types::CurrencyId;
use proposals::types::Error;
use proposals::types::Event;
use proposals::types::Origin;
use proposals::types::ProposedMilestone;
use proposals::types::Whitelist;

fn config() -> Config {
    Config {
        max_projects_per_round: 5,
        max_withdrawal_expiration: 100,
        no_confidence_time_limit: 10,
        percent_required_for_vote_to_pass: 75,
        protocol_fee_percent: 5,
    }
}

fn milestones_60_40() -> Vec<ProposedMilestone> {
    vec![
        ProposedMilestone { name: b"design".to_vec(), percentage_to_unlock: 60 },
        ProposedMilestone { name: b"build".to_vec(), percentage_to_unlock: 40 },
    ]
}

fn create_default(s: &mut Pallet) -> u32 {
    s.create_project(
        Origin::Signed(1),
        true,
        b"name".to_vec(),
        b"logo".to_vec(),
        b"description".to_vec(),
        b"https://site".to_vec(),
        milestones_60_40(),
        10_000,
        CurrencyId::Native,
        1,
    )
    .unwrap()
}

#[test]
fn create_project_assigns_dense_keys() {
    let mut s = Pallet::new(config());
    assert_eq!(create_default(&mut s), 0);
    assert_eq!(create_default(&mut s), 1);
    assert_eq!(s.project_count(), 2);
    let p = s.projects(0).unwrap();
    assert_eq!(p.raised_funds, 0);
    assert_eq!(p.withdrawn_funds, 0);
    assert_eq!(p.initiator, 1);
    assert!(!p.approved_for_funding);
    assert!(!p.cancelled);
    assert_eq!(p.milestones.len(), 2);
    assert_eq!(p.milestones[0].percentage_to_unlock, 60);
    assert_eq!(p.milestones[1].percentage_to_unlock, 40);
    assert!(!p.milestones[0].is_approved);
    assert!(matches!(
        s.events().last(),
        Some(Event::ProjectCreated(1, _, 1, 10_000, CurrencyId::Native))
    ));
}

#[test]
fn create_project_requires_percentages_sum_100() {
    let mut s = Pallet::new(config());
    let bad = vec![
        ProposedMilestone { name: b"a".to_vec(), percentage_to_unlock: 60 },
        ProposedMilestone { name: b"b".to_vec(), percentage_to_unlock: 41 },
    ];
    let r = s.create_project(
        Origin::Signed(1),
        true,
        b"n".to_vec(),
        b"l".to_vec(),
        b"d".to_vec(),
        b"w".to_vec(),
        bad,
        10,
        CurrencyId::Native,
        1,
    );
    assert_eq!(r, Err(Error::MilestonesTotalPercentageMustEqual100));
    assert_eq!(s.project_count(), 0);
}

#[test]
fn create_project_rejects_empty_fields() {
    let mut s = Pallet::new(config());
    let cases: [(Vec<u8>, Vec<u8>, Vec<u8>, Vec<u8>, Error); 4] = [
        (vec![], b"l".to_vec(), b"d".to_vec(), b"w".to_vec(), Error::ProjectNameIsMandatory),
        (b"n".to_vec(), vec![], b"d".to_vec(), b"w".to_vec(), Error::LogoIsMandatory),
        (
            b"n".to_vec(),
            b"l".to_vec(),
            vec![],
            b"w".to_vec(),
            Error::ProjectDescriptionIsMandatory,
        ),
        (b"n".to_vec(), b"l".to_vec(), b"d".to_vec(), vec![], Error::WebsiteURLIsMandatory),
    ];
    for (name, logo, description, website, expected) in cases {
        let r = s.create_project(
            Origin::Signed(1),
            true,
            name,
            logo,
            description,
            website,
            milestones_60_40(),
            10,
            CurrencyId::Native,
            1,
        );
        assert_eq!(r, Err(expected));
    }
}

#[test]
fn create_project_rejects_oversized_name() {
    let mut s = Pallet::new(config());
    let r = s.create_project(
        Origin::Signed(1),
        true,
        vec![b'x'; 256],
        b"l".to_vec(),
        b"d".to_vec(),
        b"w".to_vec(),
        milestones_60_40(),
        10,
        CurrencyId::Native,
        1,
    );
    assert_eq!(r, Err(Error::ParamLimitExceed));
}

#[test]
fn create_project_requires_signed_origin() {
    let mut s = Pallet::new(config());
    let r = s.create_project(
        Origin::Root,
        true,
        b"n".to_vec(),
        b"l".to_vec(),
        b"d".to_vec(),
        b"w".to_vec(),
        milestones_60_40(),
        10,
        CurrencyId::Native,
        1,
    );
    assert_eq!(r, Err(Error::BadOrigin));
}

#[test]
fn identity_gating_rejects_unattested_initiator() {
    let mut s = Pallet::new(config());
    s.set_is_identity_required(Origin::Root, true).unwrap();
    assert!(s.is_identity_required());
    let r = s.create_project(
        Origin::Signed(1),
        false,
        b"n".to_vec(),
        b"l".to_vec(),
        b"d".to_vec(),
        b"w".to_vec(),
        milestones_60_40(),
        10,
        CurrencyId::Native,
        1,
    );
    assert_eq!(r, Err(Error::IdentityNeeded));
    let r2 = s.create_project(
        Origin::Signed(1),
        true,
        b"n".to_vec(),
        b"l".to_vec(),
        b"d".to_vec(),
        b"w".to_vec(),
        milestones_60_40(),
        10,
        CurrencyId::Native,
        1,
    );
    assert_eq!(r2, Ok(0));
}

#[test]
fn whitelist_add_merges_and_remove_clears() {
    let mut s = Pallet::new(config());
    create_default(&mut s);
    assert!(s.whitelist_spots(0).is_none());
    s.add_project_whitelist(
        Origin::Signed(1),
        0,
        vec![
            Whitelist { who: 5, max_cap: 1000 },
            Whitelist { who: 6, max_cap: 2000 },
        ],
        2,
    )
    .unwrap();
    assert_eq!(s.whitelist_cap(0, 5), Some(1000));
    assert_eq!(s.whitelist_cap(0, 6), Some(2000));
    assert_eq!(s.whitelist_cap(0, 7), None);
    // A second add overwrites listed accounts and keeps the others.
    s.add_project_whitelist(
        Origin::Signed(1),
        0,
        vec![Whitelist { who: 5, max_cap: 1500 }],
        3,
    )
    .unwrap();
    assert_eq!(s.whitelist_cap(0, 5), Some(1500));
    assert_eq!(s.whitelist_cap(0, 6), Some(2000));
    assert!(matches!(s.events().last(), Some(Event::WhitelistAdded(0, 3))));
    s.remove_project_whitelist(Origin::Signed(1), 0, 4).unwrap();
    assert!(s.whitelist_spots(0).is_none());
    assert!(matches!(s.events().last(), Some(Event::WhitelistRemoved(0, 4))));
}

#[test]
fn whitelist_restricted_to_initiator() {
    let mut s = Pallet::new(config());
    create_default(&mut s);
    let r = s.add_project_whitelist(
        Origin::Signed(2),
        0,
        vec![Whitelist { who: 5, max_cap: 10 }],
        2,
    );
    assert_eq!(r, Err(Error::UserIsNotInitator));
    let r2 = s.remove_project_whitelist(Origin::Signed(2), 0, 2);
    assert_eq!(r2, Err(Error::UserIsNotInitator));
    let r3 = s.add_project_whitelist(
        Origin::Signed(1),
        3,
        vec![Whitelist { who: 5, max_cap: 10 }],
        2,
    );
    assert_eq!(r3, Err(Error::ProjectDoesNotExist));
}

#[test]
fn initial_milestone_voting_window_is_100800() {
    let w = proposals::types::InitialMilestoneVotingWindow();
    assert_eq!(w, 100800);
    let s = Pallet::new(config());
    assert_eq!(s.milestone_voting_window(), 100800);
}
