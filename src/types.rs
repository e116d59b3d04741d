use vstd::prelude::*;

verus! {

broadcast use vstd::array::group_array_axioms;

/// A 32-byte account address, as the host environment hands it over.
#[derive(Clone, Copy, Debug, PartialEq, Eq)]
pub struct Address {
    pub bytes: [u8; 32],
}

/// Tests whether two addresses name the same account.
pub fn same_address(a: &Address, b: &Address) -> (r: bool)
    ensures
        r == (*a == *b),
{
    let mut i: usize = 0;
    while i < 32
        invariant
            i <= 32,
            forall|j: int| 0 <= j < i ==> a.bytes[j] == b.bytes[j],
        decreases 32 - i,
    {
        if a.bytes[i] != b.bytes[i] {
            return false;
        }
        i = i + 1;
    }
    assert(a.bytes@ =~= b.bytes@);
    assert(a.bytes == b.bytes);
    true
}

/// Organisation-wide voting parameters, fixed when the registry is created.
#[derive(Clone, Copy, Debug, PartialEq, Eq, Structural)]
pub struct GovernanceConfig {
    /// Length of a proposal's voting window, in seconds.
    pub voting_period: i64,
    /// Least yes-vote weight for a proposal to be approved.
    pub approval_threshold: u32,
    /// Least total vote weight for a result to count.
    pub quorum_threshold: u32,
}

/// The registry record: configuration and the count of enrolled contributors.
#[derive(Clone, Copy, Debug)]
pub struct DaoState {
    pub governance_config: GovernanceConfig,
    pub total_contributors: u32,
    pub treasury: Address,
    pub authority: Address,
}

/// A member of the organisation and their compensation state.
#[derive(Clone, Debug)]
pub struct Contributor {
    pub identity: Address,
    pub github_handle: String,
    pub monthly_compensation: u64,
    pub joined_date: i64,
    pub last_compensation_update: i64,
    pub contribution_score: u32,
    pub is_core_maintainer: bool,
}

/// Where a proposal stands: open for votes, or resolved one way or the other.
#[derive(Clone, Copy, Debug, PartialEq, Eq, Structural)]
pub enum ProposalStatus {
    Active,
    Approved,
    Rejected,
}

/// A package proposal and its running tally of weighted votes.
#[derive(Clone, Debug)]
pub struct Proposal {
    pub proposer: Address,
    pub name: String,
    pub description: String,
    pub yes_votes: u32,
    pub no_votes: u32,
    pub status: ProposalStatus,
    pub created_at: i64,
    pub voting_ends_at: i64,
}

/// Why an operation was refused. A refused operation changes nothing.
#[derive(Clone, Copy, Debug, PartialEq, Eq, Structural)]
pub enum CustomError {
    AlreadyInitialized,
    DuplicateContributor,
    Unauthorized,
    CompensationCooldownActive,
    InvalidName,
    ProposalNotActive,
    VotingPeriodEnded,
    VotingPeriodActive,
    TransferFailed,
    NotFound,
    ArithmeticOverflow,
}

/// A payout that the host must carry out, signed by the treasury's derived signer.
#[derive(Clone, Copy, Debug)]
pub struct Transfer {
    pub from: Address,
    pub to: Address,
    pub lamports: u64,
}

} // verus!
