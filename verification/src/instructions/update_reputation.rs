//! Rating of an agent by another party.

use crate::errors::AgentRegistryError;
use crate::pubkey::{find_reputation_address, reputation_address, Pubkey};
use crate::registry::{Registry, RegistryView};
use vstd::prelude::*;

verus! {

/// What the execution host supplies to a rating: the address of the rated
/// agent record and the verified key of the rater.
#[derive(Clone, Copy, Debug, PartialEq, Eq)]
pub struct UpdateReputation {
    pub agent_account: Pubkey,
    pub rater: Pubkey,
}

/// Notification that an agent was rated.
#[derive(Clone, Copy, Debug, PartialEq, Eq)]
pub struct ReputationUpdatedEvent {
    pub agent: Pubkey,
    pub rater: Pubkey,
    pub score: i64,
    pub new_total_score: i64,
    pub timestamp: i64,
}

/// Mathematical view of a [`ReputationUpdatedEvent`].
pub struct ReputationUpdatedEventView {
    pub agent: Seq<u8>,
    pub rater: Seq<u8>,
    pub score: i64,
    pub new_total_score: i64,
    pub timestamp: i64,
}

impl View for ReputationUpdatedEvent {
    type V = ReputationUpdatedEventView;

    open spec fn view(&self) -> ReputationUpdatedEventView {
        ReputationUpdatedEventView {
            agent: self.agent@,
            rater: self.rater@,
            score: self.score,
            new_total_score: self.new_total_score,
            timestamp: self.timestamp,
        }
    }
}

/// Why the rating of the agent at `agent` by `rater` is refused, if it is.
pub open spec fn update_reputation_error(
    pre: RegistryView,
    agent: Seq<u8>,
    rater: Seq<u8>,
    score: i64,
    comment: Seq<char>,
) -> Option<AgentRegistryError> {
    pre.rate_error(reputation_address(pre.program_id, agent, rater), agent, rater, score, comment)
}

/// The registry after the rating of the agent at `agent` by `rater` was
/// attempted.
pub open spec fn update_reputation_state(
    pre: RegistryView,
    agent: Seq<u8>,
    rater: Seq<u8>,
    score: i64,
    comment: Seq<char>,
    now: i64,
) -> RegistryView {
    pre.rate(reputation_address(pre.program_id, agent, rater), agent, rater, score, comment, now)
}

/// Records the rating that `ctx.rater` gives to the agent record at
/// `ctx.agent_account`, at the address derived from the rating tag and both
/// keys, and adds the score to the agent's total.
///
/// Fails, changing nothing, where the agent does not exist, where the rater
/// owns it, where the derivation fails, where the rater has rated this agent
/// before, where the score is outside -100..=100 or the comment longer than
/// 500 bytes, or where the total would overflow. On success the notification
/// to emit is returned.
pub fn handler(
    registry: &mut Registry,
    ctx: &UpdateReputation,
    score: i64,
    comment: String,
    unix_timestamp: i64,
) -> (r: Result<ReputationUpdatedEvent, AgentRegistryError>)
    requires
        old(registry).inv(),
    ensures
        final(registry).inv(),
        final(registry)@ == update_reputation_state(
            old(registry)@,
            ctx.agent_account@,
            ctx.rater@,
            score,
            comment@,
            unix_timestamp,
        ),
        match update_reputation_error(
            old(registry)@,
            ctx.agent_account@,
            ctx.rater@,
            score,
            comment@,
        ) {
            Some(e) => r == Err::<ReputationUpdatedEvent, AgentRegistryError>(e),
            None => r is Ok && r->Ok_0@ == (ReputationUpdatedEventView {
                agent: ctx.agent_account@,
                rater: ctx.rater@,
                score,
                new_total_score: (old(registry)@.agents[ctx.agent_account@].reputation_score
                    + score) as i64,
                timestamp: unix_timestamp,
            }),
        },
{
    let program_id = registry.program_id();
    let derived = find_reputation_address(&program_id, &ctx.agent_account, &ctx.rater);
    match registry.rate(derived, ctx.agent_account, ctx.rater, score, comment, unix_timestamp) {
        Err(e) => Err(e),
        Ok((_, new_total_score)) => Ok(
            ReputationUpdatedEvent {
                agent: ctx.agent_account,
                rater: ctx.rater,
                score,
                new_total_score,
                timestamp: unix_timestamp,
            },
        ),
    }
}

} // verus!
