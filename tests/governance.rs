use inspatial_dao::dao::{
    add_contributor, cast_vote, create_package_proposal, distribute_compensation,
    finalize_proposal, find_contributor, initialize_dao, is_valid_package_name,
    record_contribution_score, resolve, update_compensation, AddContributor, CastVote,
    CreatePackageProposal, Dao, DistributeCompensation, InitializeDao, UpdateCompensation,
    COMPENSATION_COOLDOWN,
};
use inspatial_dao::types::{same_address, Address, CustomError, GovernanceConfig, ProposalStatus};

fn addr(n: u8) -> Address {
    Address { bytes: [n; 32] }
}

fn config() -> GovernanceConfig {
    GovernanceConfig { voting_period: 1000, approval_threshold: 3, quorum_threshold: 5 }
}

fn treasury() -> Address {
    addr(200)
}

fn authority() -> Address {
    addr(201)
}

fn initialized() -> Dao {
    let mut dao = Dao::new();
    let ctx = InitializeDao { payer: addr(100), treasury: treasury(), authority: authority() };
    assert_eq!(initialize_dao(&mut dao, &ctx, config()), Ok(()));
    dao
}

fn enroll(dao: &mut Dao, who: Address, compensation: u64, now: i64) -> Result<(), CustomError> {
    let ctx = AddContributor { contributor: who, payer: who };
    add_contributor(dao, &ctx, format!("handle{}", who.bytes[0]), compensation, now)
}

fn propose(dao: &mut Dao, name: &str, now: i64) -> Result<usize, CustomError> {
    let ctx = CreatePackageProposal { proposer: addr(1) };
    create_package_proposal(dao, &ctx, name.to_string(), "a package".to_string(), now)
}

fn vote(dao: &mut Dao, proposal: usize, voter: Address, yes: bool, now: i64) -> Result<(), CustomError> {
    cast_vote(dao, &CastVote { proposal, voter }, yes, now)
}

fn tally(dao: &Dao, proposal: usize) -> (u32, u32) {
    (dao.proposals[proposal].yes_votes, dao.proposals[proposal].no_votes)
}

#[test]
fn same_address_compares_every_byte() {
    let a = addr(3);
    let mut b = addr(3);
    assert!(same_address(&a, &b));
    b.bytes[31] = 4;
    assert!(!same_address(&a, &b));
}

#[test]
fn initialize_sets_registry_with_no_contributors() {
    let dao = initialized();
    let state = dao.registry.unwrap();
    assert_eq!(state.total_contributors, 0);
    assert_eq!(state.treasury, treasury());
    assert_eq!(state.authority, authority());
    assert_eq!(state.governance_config, config());
}

#[test]
fn initialize_twice_is_refused() {
    let mut dao = initialized();
    let ctx = InitializeDao { payer: addr(100), treasury: addr(7), authority: addr(8) };
    assert_eq!(initialize_dao(&mut dao, &ctx, config()), Err(CustomError::AlreadyInitialized));
    assert_eq!(dao.registry.unwrap().treasury, treasury());
}

#[test]
fn enrolments_are_counted_once_each() {
    let mut dao = initialized();
    for n in 0..10u8 {
        assert_eq!(enroll(&mut dao, addr(n), 100, 50), Ok(()));
        assert_eq!(dao.registry.unwrap().total_contributors, n as u32 + 1);
    }
    assert_eq!(dao.contributors.len(), 10);
}

#[test]
fn enrolment_sets_the_new_record() {
    let mut dao = initialized();
    assert_eq!(enroll(&mut dao, addr(9), 1234, 77), Ok(()));
    let c = &dao.contributors[0];
    assert_eq!(c.identity, addr(9));
    assert_eq!(c.github_handle, "handle9");
    assert_eq!(c.monthly_compensation, 1234);
    assert_eq!(c.joined_date, 77);
    assert_eq!(c.last_compensation_update, 0);
    assert_eq!(c.contribution_score, 0);
    assert!(!c.is_core_maintainer);
}

#[test]
fn duplicate_enrolment_is_refused() {
    let mut dao = initialized();
    assert_eq!(enroll(&mut dao, addr(1), 10, 0), Ok(()));
    assert_eq!(enroll(&mut dao, addr(1), 20, 0), Err(CustomError::DuplicateContributor));
    assert_eq!(dao.registry.unwrap().total_contributors, 1);
    assert_eq!(dao.contributors[0].monthly_compensation, 10);
}

#[test]
fn enrolment_without_registry_is_refused() {
    let mut dao = Dao::new();
    assert_eq!(enroll(&mut dao, addr(1), 10, 0), Err(CustomError::NotFound));
    assert!(dao.contributors.is_empty());
}

#[test]
fn package_name_needs_the_prefix() {
    assert!(is_valid_package_name("InSpatial"));
    assert!(is_valid_package_name("InSpatialKit"));
    assert!(!is_valid_package_name("BadName"));
    assert!(!is_valid_package_name("InSpatia"));
    assert!(!is_valid_package_name("inspatialKit"));
    assert!(!is_valid_package_name(""));
    assert!(!is_valid_package_name("xInSpatial"));
}

#[test]
fn proposal_opens_with_voting_window() {
    let mut dao = initialized();
    assert_eq!(propose(&mut dao, "InSpatialRender", 500), Ok(0));
    let p = &dao.proposals[0];
    assert_eq!(p.proposer, addr(1));
    assert_eq!(p.name, "InSpatialRender");
    assert_eq!(p.description, "a package");
    assert_eq!((p.yes_votes, p.no_votes), (0, 0));
    assert_eq!(p.status, ProposalStatus::Active);
    assert_eq!(p.created_at, 500);
    assert_eq!(p.voting_ends_at, 1500);
    assert_eq!(propose(&mut dao, "InSpatialAudio", 600), Ok(1));
}

#[test]
fn bad_name_creates_no_proposal() {
    let mut dao = initialized();
    assert_eq!(propose(&mut dao, "BadName", 0), Err(CustomError::InvalidName));
    assert!(dao.proposals.is_empty());
}

#[test]
fn proposal_window_overflow_is_refused() {
    let mut dao = initialized();
    assert_eq!(propose(&mut dao, "InSpatialX", i64::MAX - 10), Err(CustomError::ArithmeticOverflow));
    assert!(dao.proposals.is_empty());
}

#[test]
fn proposal_without_registry_is_refused() {
    let mut dao = Dao::new();
    assert_eq!(propose(&mut dao, "InSpatialX", 0), Err(CustomError::NotFound));
}

#[test]
fn weighted_vote_scenario() {
    let mut dao = initialized();
    assert_eq!(enroll(&mut dao, addr(1), 0, 0), Ok(()));
    let p = propose(&mut dao, "InSpatialCore", 10).unwrap();
    assert_eq!(vote(&mut dao, p, addr(1), true, 20), Ok(()));
    assert_eq!(dao.proposals[p].yes_votes, 1);
    assert_eq!(enroll(&mut dao, addr(2), 0, 30), Ok(()));
    assert_eq!(record_contribution_score(&mut dao, &addr(2), 4), Ok(()));
    assert_eq!(vote(&mut dao, p, addr(2), false, 40), Ok(()));
    assert_eq!(dao.proposals[p].no_votes, 5);
    assert_eq!(tally(&dao, p), (1, 5));
}

#[test]
fn open_vote_adds_score_plus_one() {
    let mut dao = initialized();
    assert_eq!(enroll(&mut dao, addr(1), 0, 0), Ok(()));
    assert_eq!(record_contribution_score(&mut dao, &addr(1), 41), Ok(()));
    let p = propose(&mut dao, "InSpatialNet", 0).unwrap();
    assert_eq!(vote(&mut dao, p, addr(1), true, 999), Ok(()));
    assert_eq!(tally(&dao, p), (42, 0));
    // repeat votes are not deduplicated
    assert_eq!(vote(&mut dao, p, addr(1), false, 999), Ok(()));
    assert_eq!(tally(&dao, p), (42, 42));
}

#[test]
fn vote_at_window_end_is_refused() {
    let mut dao = initialized();
    assert_eq!(enroll(&mut dao, addr(1), 0, 0), Ok(()));
    let p = propose(&mut dao, "InSpatialNet", 0).unwrap();
    assert_eq!(vote(&mut dao, p, addr(1), true, 1000), Err(CustomError::VotingPeriodEnded));
    assert_eq!(vote(&mut dao, p, addr(1), false, 5000), Err(CustomError::VotingPeriodEnded));
    assert_eq!(tally(&dao, p), (0, 0));
}

#[test]
fn vote_on_resolved_proposal_is_refused() {
    let mut dao = initialized();
    assert_eq!(enroll(&mut dao, addr(1), 0, 0), Ok(()));
    let p = propose(&mut dao, "InSpatialNet", 0).unwrap();
    assert_eq!(finalize_proposal(&mut dao, p, 1000), Ok(ProposalStatus::Rejected));
    assert_eq!(vote(&mut dao, p, addr(1), true, 10), Err(CustomError::ProposalNotActive));
    assert_eq!(tally(&dao, p), (0, 0));
}

#[test]
fn vote_by_unknown_voter_or_on_unknown_proposal_is_refused() {
    let mut dao = initialized();
    assert_eq!(enroll(&mut dao, addr(1), 0, 0), Ok(()));
    let p = propose(&mut dao, "InSpatialNet", 0).unwrap();
    assert_eq!(vote(&mut dao, p, addr(2), true, 10), Err(CustomError::NotFound));
    assert_eq!(vote(&mut dao, p + 1, addr(1), true, 10), Err(CustomError::NotFound));
    assert_eq!(tally(&dao, p), (0, 0));
}

#[test]
fn vote_that_would_overflow_the_tally_is_refused() {
    let mut dao = initialized();
    assert_eq!(enroll(&mut dao, addr(1), 0, 0), Ok(()));
    assert_eq!(record_contribution_score(&mut dao, &addr(1), u32::MAX), Ok(()));
    let p = propose(&mut dao, "InSpatialNet", 0).unwrap();
    assert_eq!(vote(&mut dao, p, addr(1), true, 10), Err(CustomError::ArithmeticOverflow));
    assert_eq!(tally(&dao, p), (0, 0));
}

#[test]
fn compensation_cooldown_is_ninety_days() {
    let mut dao = initialized();
    assert_eq!(enroll(&mut dao, addr(1), 100, 0), Ok(()));
    let ctx = UpdateCompensation { contributor: addr(1), authority: authority() };
    let t1: i64 = 10_000_000;
    assert_eq!(update_compensation(&mut dao, &ctx, 200, t1), Ok(()));
    assert_eq!(dao.contributors[0].monthly_compensation, 200);
    assert_eq!(dao.contributors[0].last_compensation_update, t1);
    assert_eq!(
        update_compensation(&mut dao, &ctx, 300, t1 + 7_775_999),
        Err(CustomError::CompensationCooldownActive)
    );
    assert_eq!(dao.contributors[0].monthly_compensation, 200);
    assert_eq!(update_compensation(&mut dao, &ctx, 300, t1 + COMPENSATION_COOLDOWN), Ok(()));
    assert_eq!(dao.contributors[0].monthly_compensation, 300);
    assert_eq!(dao.contributors[0].last_compensation_update, t1 + 7_776_000);
}

#[test]
fn compensation_change_needs_the_authority() {
    let mut dao = initialized();
    assert_eq!(enroll(&mut dao, addr(1), 100, 0), Ok(()));
    let ctx = UpdateCompensation { contributor: addr(1), authority: addr(1) };
    assert_eq!(update_compensation(&mut dao, &ctx, 200, 10_000_000), Err(CustomError::Unauthorized));
    assert_eq!(dao.contributors[0].monthly_compensation, 100);
}

#[test]
fn compensation_change_of_unknown_contributor_is_refused() {
    let mut dao = initialized();
    let ctx = UpdateCompensation { contributor: addr(1), authority: authority() };
    assert_eq!(update_compensation(&mut dao, &ctx, 200, 10_000_000), Err(CustomError::NotFound));
}

#[test]
fn compensation_change_soon_after_epoch_is_refused() {
    let mut dao = initialized();
    assert_eq!(enroll(&mut dao, addr(1), 100, 0), Ok(()));
    let ctx = UpdateCompensation { contributor: addr(1), authority: authority() };
    assert_eq!(update_compensation(&mut dao, &ctx, 200, 7_775_999), Err(CustomError::CompensationCooldownActive));
    assert_eq!(update_compensation(&mut dao, &ctx, 200, i64::MIN), Err(CustomError::CompensationCooldownActive));
}

#[test]
fn payout_repeats_without_history() {
    let mut dao = initialized();
    assert_eq!(enroll(&mut dao, addr(4), 1000, 0), Ok(()));
    let ctx = DistributeCompensation { contributor: addr(4) };
    let first = distribute_compensation(&dao, &ctx).unwrap();
    assert_eq!((first.from, first.to, first.lamports), (treasury(), addr(4), 1000));
    let second = distribute_compensation(&dao, &ctx).unwrap();
    assert_eq!((second.from, second.to, second.lamports), (treasury(), addr(4), 1000));
}

#[test]
fn payout_to_unknown_contributor_is_refused() {
    let dao = initialized();
    let ctx = DistributeCompensation { contributor: addr(4) };
    assert!(matches!(distribute_compensation(&dao, &ctx), Err(CustomError::NotFound)));
}

#[test]
fn resolution_policy() {
    let c = config();
    assert_eq!(resolve(3, 2, &c), ProposalStatus::Approved);
    assert_eq!(resolve(3, 1, &c), ProposalStatus::Rejected);
    assert_eq!(resolve(2, 10, &c), ProposalStatus::Rejected);
    assert_eq!(resolve(u32::MAX, u32::MAX, &c), ProposalStatus::Approved);
}

#[test]
fn finalize_waits_for_window_end_and_happens_once() {
    let mut dao = initialized();
    assert_eq!(enroll(&mut dao, addr(1), 0, 0), Ok(()));
    assert_eq!(record_contribution_score(&mut dao, &addr(1), 4), Ok(()));
    let p = propose(&mut dao, "InSpatialNet", 0).unwrap();
    assert_eq!(vote(&mut dao, p, addr(1), true, 1), Ok(()));
    assert_eq!(finalize_proposal(&mut dao, p, 999), Err(CustomError::VotingPeriodActive));
    assert_eq!(finalize_proposal(&mut dao, p, 1000), Ok(ProposalStatus::Approved));
    assert_eq!(dao.proposals[p].status, ProposalStatus::Approved);
    assert_eq!(finalize_proposal(&mut dao, p, 2000), Err(CustomError::ProposalNotActive));
    assert_eq!(finalize_proposal(&mut dao, p + 1, 2000), Err(CustomError::NotFound));
}

#[test]
fn lookup_finds_enrolled_identity() {
    let mut dao = initialized();
    assert_eq!(enroll(&mut dao, addr(1), 0, 0), Ok(()));
    assert_eq!(enroll(&mut dao, addr(2), 0, 0), Ok(()));
    assert_eq!(find_contributor(&dao.contributors, &addr(2)), Some(1));
    assert_eq!(find_contributor(&dao.contributors, &addr(3)), None);
}
