use vstd::prelude::*;

use crate::types::{
    same_address, Address, Contributor, CustomError, DaoState, GovernanceConfig, Proposal,
    ProposalStatus, Transfer,
};

verus! {

/// The records of one organisation: the registry (once created), the
/// contributor directory, and the proposal ledger, where a proposal's id is
/// its position.
pub struct Dao {
    pub registry: Option<DaoState>,
    pub contributors: Vec<Contributor>,
    pub proposals: Vec<Proposal>,
}

/// The accounts that creating the registry names.
#[derive(Clone, Copy, Debug)]
pub struct InitializeDao {
    pub payer: Address,
    pub treasury: Address,
    pub authority: Address,
}

/// The accounts that enrolment names: the new member's identity and the payer.
#[derive(Clone, Copy, Debug)]
pub struct AddContributor {
    pub contributor: Address,
    pub payer: Address,
}

/// The account that proposes a package.
#[derive(Clone, Copy, Debug)]
pub struct CreatePackageProposal {
    pub proposer: Address,
}

/// The proposal voted on, by id, and the voting contributor.
#[derive(Clone, Copy, Debug)]
pub struct CastVote {
    pub proposal: usize,
    pub voter: Address,
}

/// The contributor whose compensation changes, and the signer asking for it.
#[derive(Clone, Copy, Debug)]
pub struct UpdateCompensation {
    pub contributor: Address,
    pub authority: Address,
}

/// The contributor to be paid.
#[derive(Clone, Copy, Debug)]
pub struct DistributeCompensation {
    pub contributor: Address,
}

/// Seconds that must pass between two compensation changes of one contributor (90 days).
pub const COMPENSATION_COOLDOWN: i64 = 7776000;

/// Whether some record of the directory belongs to `id`.
pub open spec fn has_contributor(s: Seq<Contributor>, id: Address) -> bool {
    exists|i: int| 0 <= i < s.len() && s[i].identity == id
}

/// The position of `id`'s record in the directory.
pub open spec fn contributor_index(s: Seq<Contributor>, id: Address) -> int {
    choose|i: int| 0 <= i < s.len() && s[i].identity == id
}

/// No two records of the directory share an identity.
pub open spec fn identities_unique(s: Seq<Contributor>) -> bool {
    forall|i: int, j: int|
        0 <= i < s.len() && 0 <= j < s.len() && s[i].identity == s[j].identity ==> i == j
}

/// The record that enrolment creates.
pub open spec fn enrolled_record(id: Address, handle: String, compensation: u64, now: i64) -> Contributor {
    Contributor {
        identity: id,
        github_handle: handle,
        monthly_compensation: compensation,
        joined_date: now,
        last_compensation_update: 0,
        contribution_score: 0,
        is_core_maintainer: false,
    }
}

impl Dao {
    /// The records agree with each other: the counter counts the directory,
    /// identities are unique, and every voting window has the configured length.
    pub open spec fn wf(&self) -> bool {
        &&& identities_unique(self.contributors@)
        &&& match self.registry {
            None => self.contributors@.len() == 0 && self.proposals@.len() == 0,
            Some(s) => {
                &&& s.total_contributors == self.contributors@.len()
                &&& forall|i: int|
                    0 <= i < self.proposals@.len() ==> #[trigger] self.proposals@[i].voting_ends_at
                        == self.proposals@[i].created_at + s.governance_config.voting_period
            },
        }
    }

    /// An organisation with no records at all.
    pub fn new() -> (r: Dao)
        ensures
            r.wf(),
            r.registry is None,
            r.contributors@.len() == 0,
            r.proposals@.len() == 0,
    {
        Dao { registry: None, contributors: Vec::new(), proposals: Vec::new() }
    }
}

/// Looks up the directory record of `id`.
pub fn find_contributor(contributors: &Vec<Contributor>, id: &Address) -> (r: Option<usize>)
    ensures
        r is None <==> !has_contributor(contributors@, *id),
        r matches Some(i) ==> i < contributors@.len() && contributors@[i as int].identity == *id,
{
    let mut i: usize = 0;
    while i < contributors.len()
        invariant
            i <= contributors@.len(),
            forall|j: int| 0 <= j < i ==> contributors@[j].identity != *id,
        decreases contributors@.len() - i,
    {
        if same_address(&contributors[i].identity, id) {
            return Some(i);
        }
        i = i + 1;
    }
    None
}

/// Creates the registry with no contributors, unless it already exists.
pub fn initialize_dao(dao: &mut Dao, ctx: &InitializeDao, governance_config: GovernanceConfig) -> (r: Result<(), CustomError>)
    requires
        old(dao).wf(),
    ensures
        final(dao).wf(),
        r is Err <==> old(dao).registry is Some,
        r is Err ==> r == Err::<(), CustomError>(CustomError::AlreadyInitialized) && *final(dao) == *old(dao),
        r is Ok ==> final(dao).registry == Some(DaoState {
            governance_config,
            total_contributors: 0,
            treasury: ctx.treasury,
            authority: ctx.authority,
        }),
        final(dao).contributors@ == old(dao).contributors@,
        final(dao).proposals@ == old(dao).proposals@,
{
    if dao.registry.is_some() {
        return Err(CustomError::AlreadyInitialized);
    }
    dao.registry = Some(DaoState {
        governance_config,
        total_contributors: 0,
        treasury: ctx.treasury,
        authority: ctx.authority,
    });
    Ok(())
}

/// Why enrolling `id` would be refused, if it would.
pub open spec fn add_contributor_error(d: Dao, id: Address) -> Option<CustomError> {
    match d.registry {
        None => Some(CustomError::NotFound),
        Some(s) => if has_contributor(d.contributors@, id) {
            Some(CustomError::DuplicateContributor)
        } else if s.total_contributors == u32::MAX {
            Some(CustomError::ArithmeticOverflow)
        } else {
            None
        },
    }
}

/// `after` is `before` with `c` enrolled: one more record, counted once.
pub open spec fn enrolment_step(before: Dao, after: Dao, c: Contributor) -> bool {
    &&& before.registry is Some
    &&& before.registry.unwrap().total_contributors < u32::MAX
    &&& after.registry == Some(DaoState {
        total_contributors: (before.registry.unwrap().total_contributors + 1) as u32,
        ..before.registry.unwrap()
    })
    &&& after.contributors@ == before.contributors@.push(c)
    &&& after.proposals@ == before.proposals@
}

/// Enrols a new contributor with no score, joined at `now`, and counts them.
pub fn add_contributor(
    dao: &mut Dao,
    ctx: &AddContributor,
    github_handle: String,
    monthly_compensation: u64,
    now: i64,
) -> (r: Result<(), CustomError>)
    requires
        old(dao).wf(),
    ensures
        final(dao).wf(),
        r is Err <==> add_contributor_error(*old(dao), ctx.contributor) is Some,
        r matches Err(e) ==> Some(e) == add_contributor_error(*old(dao), ctx.contributor)
            && *final(dao) == *old(dao),
        r is Ok ==> enrolment_step(
            *old(dao),
            *final(dao),
            enrolled_record(ctx.contributor, github_handle, monthly_compensation, now),
        ),
{
    let mut state = match dao.registry {
        None => return Err(CustomError::NotFound),
        Some(s) => s,
    };
    if find_contributor(&dao.contributors, &ctx.contributor).is_some() {
        return Err(CustomError::DuplicateContributor);
    }
    if state.total_contributors == u32::MAX {
        return Err(CustomError::ArithmeticOverflow);
    }
    state.total_contributors = state.total_contributors + 1;
    let record = Contributor {
        identity: ctx.contributor,
        github_handle,
        monthly_compensation,
        joined_date: now,
        last_compensation_update: 0,
        contribution_score: 0,
        is_core_maintainer: false,
    };
    dao.registry = Some(state);
    dao.contributors.push(record);
    Ok(())
}

/// The prefix that every package name must begin with.
pub open spec fn reserved_prefix() -> Seq<char> {
    seq!['I', 'n', 'S', 'p', 'a', 't', 'i', 'a', 'l']
}

/// Whether `name` follows the naming convention: it begins with the reserved prefix.
pub open spec fn has_reserved_prefix(name: Seq<char>) -> bool {
    name.len() >= reserved_prefix().len() && name.subrange(0, reserved_prefix().len() as int)
        == reserved_prefix()
}

/// Tests a package name against the naming convention.
pub fn is_valid_package_name(name: &str) -> (r: bool)
    ensures
        r == has_reserved_prefix(name@),
{
    let prefix = "InSpatial";
    proof {
        reveal_strlit("InSpatial");
    }
    assert(prefix@ =~= reserved_prefix());
    let n = name.unicode_len();
    if n < 9 {
        return false;
    }
    let mut i: usize = 0;
    while i < 9
        invariant
            i <= 9,
            n == name@.len(),
            n >= 9,
            prefix@ == reserved_prefix(),
            forall|j: int| 0 <= j < i ==> name@[j] == reserved_prefix()[j],
        decreases 9 - i,
    {
        if name.get_char(i) != prefix.get_char(i) {
            assert(name@.subrange(0, 9)[i as int] != reserved_prefix()[i as int]);
            return false;
        }
        i = i + 1;
    }
    assert(name@.subrange(0, 9) =~= reserved_prefix());
    true
}

/// Why proposing a package named `name` at `now` would be refused, if it would.
pub open spec fn create_proposal_error(d: Dao, name: Seq<char>, now: i64) -> Option<CustomError> {
    match d.registry {
        None => Some(CustomError::NotFound),
        Some(s) => if !has_reserved_prefix(name) {
            Some(CustomError::InvalidName)
        } else if !(i64::MIN <= now + s.governance_config.voting_period <= i64::MAX) {
            Some(CustomError::ArithmeticOverflow)
        } else {
            None
        },
    }
}

/// The proposal that is opened at `now` under the voting period `period`.
pub open spec fn opened_proposal(
    proposer: Address,
    name: String,
    description: String,
    now: i64,
    period: i64,
) -> Proposal {
    Proposal {
        proposer,
        name,
        description,
        yes_votes: 0,
        no_votes: 0,
        status: ProposalStatus::Active,
        created_at: now,
        voting_ends_at: (now + period) as i64,
    }
}

/// Opens a package proposal at `now`, with no votes, voting until the end
/// of the configured period; returns its id.
pub fn create_package_proposal(
    dao: &mut Dao,
    ctx: &CreatePackageProposal,
    name: String,
    description: String,
    now: i64,
) -> (r: Result<usize, CustomError>)
    requires
        old(dao).wf(),
    ensures
        final(dao).wf(),
        r is Err <==> create_proposal_error(*old(dao), name@, now) is Some,
        r matches Err(e) ==> Some(e) == create_proposal_error(*old(dao), name@, now)
            && *final(dao) == *old(dao),
        r matches Ok(id) ==> {
            &&& id == old(dao).proposals@.len()
            &&& final(dao).proposals@ == old(dao).proposals@.push(
                opened_proposal(
                    ctx.proposer,
                    name,
                    description,
                    now,
                    old(dao).registry.unwrap().governance_config.voting_period,
                ),
            )
            &&& final(dao).registry == old(dao).registry
            &&& final(dao).contributors@ == old(dao).contributors@
        },
{
    let period = match dao.registry {
        None => return Err(CustomError::NotFound),
        Some(s) => s.governance_config.voting_period,
    };
    if !is_valid_package_name(name.as_str()) {
        return Err(CustomError::InvalidName);
    }
    let voting_ends_at = match now.checked_add(period) {
        None => return Err(CustomError::ArithmeticOverflow),
        Some(t) => t,
    };
    let id = dao.proposals.len();
    dao.proposals.push(Proposal {
        proposer: ctx.proposer,
        name,
        description,
        yes_votes: 0,
        no_votes: 0,
        status: ProposalStatus::Active,
        created_at: now,
        voting_ends_at,
    });
    Ok(id)
}

/// The weight of a contributor's vote: one more than their score.
pub open spec fn vote_weight(c: Contributor) -> int {
    c.contribution_score + 1
}

/// Whether adding `weight` to the chosen side of `p`'s tally leaves the range of `u32`.
pub open spec fn tally_overflows(p: Proposal, weight: int, vote: bool) -> bool {
    if vote {
        p.yes_votes + weight > u32::MAX
    } else {
        p.no_votes + weight > u32::MAX
    }
}

/// `p` with `weight` added to the yes side or to the no side.
pub open spec fn tallied(p: Proposal, weight: int, vote: bool) -> Proposal {
    if vote {
        Proposal { yes_votes: (p.yes_votes + weight) as u32, ..p }
    } else {
        Proposal { no_votes: (p.no_votes + weight) as u32, ..p }
    }
}

/// Why a vote would be refused, if it would.
pub open spec fn cast_vote_error(d: Dao, ctx: CastVote, vote: bool, now: i64) -> Option<CustomError> {
    if ctx.proposal >= d.proposals@.len() || !has_contributor(d.contributors@, ctx.voter) {
        Some(CustomError::NotFound)
    } else if d.proposals@[ctx.proposal as int].status != ProposalStatus::Active {
        Some(CustomError::ProposalNotActive)
    } else if now >= d.proposals@[ctx.proposal as int].voting_ends_at {
        Some(CustomError::VotingPeriodEnded)
    } else if tally_overflows(
        d.proposals@[ctx.proposal as int],
        vote_weight(d.contributors@[contributor_index(d.contributors@, ctx.voter)]),
        vote,
    ) {
        Some(CustomError::ArithmeticOverflow)
    } else {
        None
    }
}

/// Adds the voter's weight to the yes or the no side of an active proposal
/// whose voting window is still open at `now`.
pub fn cast_vote(dao: &mut Dao, ctx: &CastVote, vote: bool, now: i64) -> (r: Result<(), CustomError>)
    requires
        old(dao).wf(),
    ensures
        final(dao).wf(),
        r is Err <==> cast_vote_error(*old(dao), *ctx, vote, now) is Some,
        r matches Err(e) ==> Some(e) == cast_vote_error(*old(dao), *ctx, vote, now)
            && *final(dao) == *old(dao),
        r is Ok ==> {
            let voter = old(dao).contributors@[contributor_index(old(dao).contributors@, ctx.voter)];
            let before = old(dao).proposals@[ctx.proposal as int];
            let after = final(dao).proposals@[ctx.proposal as int];
            &&& final(dao).proposals@ == old(dao).proposals@.update(
                ctx.proposal as int,
                tallied(before, vote_weight(voter), vote),
            )
            &&& after.yes_votes + after.no_votes == before.yes_votes + before.no_votes
                + voter.contribution_score + 1
            &&& final(dao).registry == old(dao).registry
            &&& final(dao).contributors@ == old(dao).contributors@
        },
{
    if ctx.proposal >= dao.proposals.len() {
        return Err(CustomError::NotFound);
    }
    let vi = match find_contributor(&dao.contributors, &ctx.voter) {
        None => return Err(CustomError::NotFound),
        Some(i) => i,
    };
    proof {
        let ghost k = contributor_index(old(dao).contributors@, ctx.voter);
        assert(has_contributor(dao.contributors@, ctx.voter));
        assert(k == vi);
    }
    let p = ctx.proposal;
    if dao.proposals[p].status != ProposalStatus::Active {
        return Err(CustomError::ProposalNotActive);
    }
    if now >= dao.proposals[p].voting_ends_at {
        return Err(CustomError::VotingPeriodEnded);
    }
    let weight: u64 = dao.contributors[vi].contribution_score as u64 + 1;
    if vote {
        let total: u64 = dao.proposals[p].yes_votes as u64 + weight;
        if total > u32::MAX as u64 {
            return Err(CustomError::ArithmeticOverflow);
        }
        dao.proposals[p].yes_votes = total as u32;
    } else {
        let total: u64 = dao.proposals[p].no_votes as u64 + weight;
        if total > u32::MAX as u64 {
            return Err(CustomError::ArithmeticOverflow);
        }
        dao.proposals[p].no_votes = total as u32;
    }
    assert(dao.proposals@ =~= old(dao).proposals@.update(
        p as int,
        tallied(old(dao).proposals@[p as int], weight as int, vote),
    ));
    Ok(())
}

/// Why changing `ctx.contributor`'s compensation at `now` would be refused, if it would.
pub open spec fn update_compensation_error(d: Dao, ctx: UpdateCompensation, now: i64) -> Option<CustomError> {
    match d.registry {
        None => Some(CustomError::NotFound),
        Some(s) => if !has_contributor(d.contributors@, ctx.contributor) {
            Some(CustomError::NotFound)
        } else if ctx.authority != s.authority {
            Some(CustomError::Unauthorized)
        } else if now - d.contributors@[contributor_index(
            d.contributors@,
            ctx.contributor,
        )].last_compensation_update < COMPENSATION_COOLDOWN {
            Some(CustomError::CompensationCooldownActive)
        } else {
            None
        },
    }
}

/// `after` is `before` with `id`'s compensation set to `amount` at `now`.
pub open spec fn compensation_updated(before: Dao, after: Dao, id: Address, amount: u64, now: i64) -> bool {
    let i = contributor_index(before.contributors@, id);
    &&& after.contributors@ == before.contributors@.update(
        i,
        Contributor {
            monthly_compensation: amount,
            last_compensation_update: now,
            ..before.contributors@[i]
        },
    )
    &&& after.registry == before.registry
    &&& after.proposals@ == before.proposals@
}

/// Sets a contributor's monthly compensation, on the authority's request and
/// no sooner than the cooldown after the previous change.
pub fn update_compensation(
    dao: &mut Dao,
    ctx: &UpdateCompensation,
    new_compensation: u64,
    now: i64,
) -> (r: Result<(), CustomError>)
    requires
        old(dao).wf(),
    ensures
        final(dao).wf(),
        r is Err <==> update_compensation_error(*old(dao), *ctx, now) is Some,
        r matches Err(e) ==> Some(e) == update_compensation_error(*old(dao), *ctx, now)
            && *final(dao) == *old(dao),
        r is Ok ==> compensation_updated(*old(dao), *final(dao), ctx.contributor, new_compensation, now),
        r is Ok ==> old(dao).contributors@[contributor_index(old(dao).contributors@, ctx.contributor)].last_compensation_update < now,
{
    let state = match dao.registry {
        None => return Err(CustomError::NotFound),
        Some(s) => s,
    };
    let ci = match find_contributor(&dao.contributors, &ctx.contributor) {
        None => return Err(CustomError::NotFound),
        Some(i) => i,
    };
    proof {
        let ghost k = contributor_index(old(dao).contributors@, ctx.contributor);
        assert(has_contributor(dao.contributors@, ctx.contributor));
        assert(k == ci);
    }
    if !same_address(&ctx.authority, &state.authority) {
        return Err(CustomError::Unauthorized);
    }
    let elapsed: i128 = now as i128 - dao.contributors[ci].last_compensation_update as i128;
    if elapsed < COMPENSATION_COOLDOWN as i128 {
        return Err(CustomError::CompensationCooldownActive);
    }
    dao.contributors[ci].monthly_compensation = new_compensation;
    dao.contributors[ci].last_compensation_update = now;
    assert(dao.contributors@ =~= old(dao).contributors@.update(
        ci as int,
        Contributor {
            monthly_compensation: new_compensation,
            last_compensation_update: now,
            ..old(dao).contributors@[ci as int]
        },
    ));
    Ok(())
}

/// The payout of `c`'s monthly compensation from the treasury `treasury`.
pub open spec fn payout(treasury: Address, c: Contributor) -> Transfer {
    Transfer { from: treasury, to: c.identity, lamports: c.monthly_compensation }
}

/// The transfer that pays a contributor their monthly compensation from the
/// treasury. No payout history is kept: each call asks for the same transfer.
pub fn distribute_compensation(dao: &Dao, ctx: &DistributeCompensation) -> (r: Result<Transfer, CustomError>)
    requires
        dao.wf(),
    ensures
        r is Err <==> dao.registry is None || !has_contributor(dao.contributors@, ctx.contributor),
        r is Err ==> r == Err::<Transfer, CustomError>(CustomError::NotFound),
        r matches Ok(t) ==> t == payout(
            dao.registry.unwrap().treasury,
            dao.contributors@[contributor_index(dao.contributors@, ctx.contributor)],
        ),
{
    let state = match dao.registry {
        None => return Err(CustomError::NotFound),
        Some(s) => s,
    };
    let ci = match find_contributor(&dao.contributors, &ctx.contributor) {
        None => return Err(CustomError::NotFound),
        Some(i) => i,
    };
    proof {
        let ghost k = contributor_index(dao.contributors@, ctx.contributor);
        assert(k == ci);
    }
    Ok(Transfer {
        from: state.treasury,
        to: dao.contributors[ci].identity,
        lamports: dao.contributors[ci].monthly_compensation,
    })
}

/// The resolution policy: approved when the yes weight reaches the approval
/// threshold and the total weight reaches the quorum; rejected otherwise.
pub open spec fn resolution(yes: u32, no: u32, config: GovernanceConfig) -> ProposalStatus {
    if yes >= config.approval_threshold && yes + no >= config.quorum_threshold {
        ProposalStatus::Approved
    } else {
        ProposalStatus::Rejected
    }
}

/// Applies the resolution policy to a final tally.
pub fn resolve(yes: u32, no: u32, config: &GovernanceConfig) -> (r: ProposalStatus)
    ensures
        r == resolution(yes, no, *config),
{
    let total: u64 = yes as u64 + no as u64;
    if yes >= config.approval_threshold && total >= config.quorum_threshold as u64 {
        ProposalStatus::Approved
    } else {
        ProposalStatus::Rejected
    }
}

/// Why resolving proposal `id` at `now` would be refused, if it would.
pub open spec fn finalize_error(d: Dao, id: usize, now: i64) -> Option<CustomError> {
    if d.registry is None || id >= d.proposals@.len() {
        Some(CustomError::NotFound)
    } else if d.proposals@[id as int].status != ProposalStatus::Active {
        Some(CustomError::ProposalNotActive)
    } else if now < d.proposals@[id as int].voting_ends_at {
        Some(CustomError::VotingPeriodActive)
    } else {
        None
    }
}

/// Closes an active proposal whose voting window has passed, setting its
/// status by the resolution policy; returns the new status.
pub fn finalize_proposal(dao: &mut Dao, id: usize, now: i64) -> (r: Result<ProposalStatus, CustomError>)
    requires
        old(dao).wf(),
    ensures
        final(dao).wf(),
        r is Err <==> finalize_error(*old(dao), id, now) is Some,
        r matches Err(e) ==> Some(e) == finalize_error(*old(dao), id, now)
            && *final(dao) == *old(dao),
        r matches Ok(status) ==> {
            let before = old(dao).proposals@[id as int];
            &&& status == resolution(
                before.yes_votes,
                before.no_votes,
                old(dao).registry.unwrap().governance_config,
            )
            &&& final(dao).proposals@ == old(dao).proposals@.update(
                id as int,
                Proposal { status, ..before },
            )
            &&& final(dao).registry == old(dao).registry
            &&& final(dao).contributors@ == old(dao).contributors@
        },
{
    let config = match dao.registry {
        None => return Err(CustomError::NotFound),
        Some(s) => s.governance_config,
    };
    if id >= dao.proposals.len() {
        return Err(CustomError::NotFound);
    }
    if dao.proposals[id].status != ProposalStatus::Active {
        return Err(CustomError::ProposalNotActive);
    }
    if now < dao.proposals[id].voting_ends_at {
        return Err(CustomError::VotingPeriodActive);
    }
    let status = resolve(dao.proposals[id].yes_votes, dao.proposals[id].no_votes, &config);
    dao.proposals[id].status = status;
    assert(dao.proposals@ =~= old(dao).proposals@.update(
        id as int,
        Proposal { status, ..old(dao).proposals@[id as int] },
    ));
    Ok(status)
}

/// Records the score that the outside scoring process gave a contributor.
pub fn record_contribution_score(dao: &mut Dao, identity: &Address, score: u32) -> (r: Result<(), CustomError>)
    requires
        old(dao).wf(),
    ensures
        final(dao).wf(),
        r is Err <==> !has_contributor(old(dao).contributors@, *identity),
        r is Err ==> r == Err::<(), CustomError>(CustomError::NotFound) && *final(dao) == *old(dao),
        r is Ok ==> {
            let i = contributor_index(old(dao).contributors@, *identity);
            &&& final(dao).contributors@ == old(dao).contributors@.update(
                i,
                Contributor { contribution_score: score, ..old(dao).contributors@[i] },
            )
            &&& final(dao).registry == old(dao).registry
            &&& final(dao).proposals@ == old(dao).proposals@
        },
{
    let ci = match find_contributor(&dao.contributors, identity) {
        None => return Err(CustomError::NotFound),
        Some(i) => i,
    };
    proof {
        let ghost k = contributor_index(old(dao).contributors@, *identity);
        assert(k == ci);
    }
    dao.contributors[ci].contribution_score = score;
    assert(dao.contributors@ =~= old(dao).contributors@.update(
        ci as int,
        Contributor { contribution_score: score, ..old(dao).contributors@[ci as int] },
    ));
    Ok(())
}

} // verus!
