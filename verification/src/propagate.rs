//! Key propagation: the fund's generated identifier goes onto every dependent record.

use crate::decoded::Challenge;
use crate::models::{ChallengeValues, InsertGoal, Proposal, Voteplan};
use vstd::prelude::*;

verus! {

/// Overwrites the fund reference of every voteplan with `fund_id`.
pub fn stamp_voteplans(voteplans: Vec<Voteplan>, fund_id: i32) -> (out: Vec<Voteplan>)
    ensures
        out@ == voteplans@.map_values(|v: Voteplan| v.stamped(fund_id)),
{
    let mut out: Vec<Voteplan> = Vec::new();
    for voteplan in it: voteplans
        invariant
            out@ == it.seq().take(it.index() as int).map_values(|v: Voteplan| v.stamped(fund_id)),
            it.seq() == voteplans@,
    {
        out.push(voteplan.with_fund_id(fund_id));
    }
    out
}

/// Overwrites the fund reference of every proposal with `fund_id`.
pub fn stamp_proposals(proposals: Vec<Proposal>, fund_id: i32) -> (out: Vec<Proposal>)
    ensures
        out@ == proposals@.map_values(|p: Proposal| p.stamped(fund_id)),
{
    let mut out: Vec<Proposal> = Vec::new();
    for proposal in it: proposals
        invariant
            out@ == it.seq().take(it.index() as int).map_values(|p: Proposal| p.stamped(fund_id)),
            it.seq() == proposals@,
    {
        out.push(proposal.with_fund_id(fund_id));
    }
    out
}

/// Overwrites the fund reference of every challenge with `fund_id`.
pub fn stamp_challenges(challenges: Vec<Challenge>, fund_id: i32) -> (out: Vec<Challenge>)
    ensures
        out@ == challenges@.map_values(|c: Challenge| c.stamped(fund_id)),
{
    let mut out: Vec<Challenge> = Vec::new();
    for challenge in it: challenges
        invariant
            out@ == it.seq().take(it.index() as int).map_values(
                |c: Challenge| c.stamped(fund_id),
            ),
            it.seq() == challenges@,
    {
        out.push(challenge.with_fund_id(fund_id));
    }
    out
}

/// Overwrites the fund reference of every goal with `fund_id`.
pub fn stamp_goals(goals: Vec<InsertGoal>, fund_id: i32) -> (out: Vec<InsertGoal>)
    ensures
        out@ == goals@.map_values(|g: InsertGoal| g.stamped(fund_id)),
{
    let mut out: Vec<InsertGoal> = Vec::new();
    for goal in it: goals
        invariant
            out@ == it.seq().take(it.index() as int).map_values(
                |g: InsertGoal| g.stamped(fund_id),
            ),
            it.seq() == goals@,
    {
        out.push(goal.with_fund_id(fund_id));
    }
    out
}

/// Projects every challenge into the store's shape, in order.
pub fn challenge_values(challenges: Vec<Challenge>) -> (out: Vec<ChallengeValues>)
    ensures
        out@ == challenges@.map_values(|c: Challenge| c.db_challenge_values()),
{
    let mut out: Vec<ChallengeValues> = Vec::new();
    for challenge in it: challenges
        invariant
            out@ == it.seq().take(it.index() as int).map_values(
                |c: Challenge| c.db_challenge_values(),
            ),
            it.seq() == challenges@,
    {
        out.push(challenge.into_db_challenge_values());
    }
    out
}

} // verus!
