use vstd::prelude::*;

use crate::dao::{
    cast_vote_error, compensation_updated, contributor_index, enrolment_step, has_contributor,
    update_compensation_error, CastVote, Dao, UpdateCompensation, COMPENSATION_COOLDOWN,
};
use crate::types::{Contributor, CustomError, ProposalStatus};

verus! {

/// Enrolments are counted once each: from a registry with no contributors,
/// after any run of enrolments the counter equals the number of enrolments,
/// and the directory holds exactly the enrolled records, in order.
pub proof fn lemma_enrolments_counted(states: Seq<Dao>, records: Seq<Contributor>)
    requires
        states.len() == records.len() + 1,
        states[0].wf(),
        states[0].registry is Some,
        states[0].registry.unwrap().total_contributors == 0,
        forall|i: int| 0 <= i < records.len() ==> enrolment_step(#[trigger] states[i], states[i + 1], records[i]),
    ensures
        states.last().registry.unwrap().total_contributors == records.len(),
        states.last().contributors@ == records,
    decreases records.len(),
{
    if records.len() > 0 {
        let n = records.len() - 1;
        lemma_enrolments_counted(states.take(n + 1), records.take(n));
        assert(states.take(n + 1).last() == states[n]);
        assert(enrolment_step(states[n], states[n + 1], records[n]));
        assert(records.take(n).push(records[n]) =~= records);
    } else {
        assert(states[0].contributors@ =~= records);
    }
}

/// A vote on a proposal that is no longer active is refused with
/// `ProposalNotActive`; a vote on an active proposal at or after the end of its
/// voting window is refused with `VotingPeriodEnded`. A refused vote changes no
/// tally (the contract of `cast_vote` leaves the records unchanged on refusal).
pub proof fn lemma_closed_proposal_refuses_votes(d: Dao, ctx: CastVote, vote: bool, now: i64)
    requires
        d.wf(),
        ctx.proposal < d.proposals@.len(),
        has_contributor(d.contributors@, ctx.voter),
    ensures
        d.proposals@[ctx.proposal as int].status != ProposalStatus::Active ==> cast_vote_error(
            d,
            ctx,
            vote,
            now,
        ) == Some(CustomError::ProposalNotActive),
        d.proposals@[ctx.proposal as int].status == ProposalStatus::Active
            && now >= d.proposals@[ctx.proposal as int].voting_ends_at ==> cast_vote_error(
            d,
            ctx,
            vote,
            now,
        ) == Some(CustomError::VotingPeriodEnded),
{
}

/// The compensation cooldown: after a change of `ctx.contributor`'s
/// compensation at `t1`, a second request at `t2` by the same authority is
/// refused with `CompensationCooldownActive` while fewer than 7,776,000
/// seconds have passed, and goes through once that many have.
pub proof fn lemma_compensation_cooldown(
    before: Dao,
    after: Dao,
    ctx: UpdateCompensation,
    amount: u64,
    t1: i64,
    t2: i64,
)
    requires
        before.wf(),
        after.wf(),
        update_compensation_error(before, ctx, t1) is None,
        compensation_updated(before, after, ctx.contributor, amount, t1),
    ensures
        t2 - t1 < COMPENSATION_COOLDOWN ==> update_compensation_error(after, ctx, t2) == Some(
            CustomError::CompensationCooldownActive,
        ),
        t2 - t1 >= COMPENSATION_COOLDOWN ==> update_compensation_error(after, ctx, t2) is None,
{
    let i = contributor_index(before.contributors@, ctx.contributor);
    assert(after.contributors@[i].identity == ctx.contributor);
    assert(has_contributor(after.contributors@, ctx.contributor));
    let j = contributor_index(after.contributors@, ctx.contributor);
    assert(j == i);
    assert(after.contributors@[j].last_compensation_update == t1);
}

} // verus!
