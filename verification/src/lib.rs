//! A registry of autonomous-agent identities with an append-only reputation
//! ledger and owner-gated permission groups.
//!
//! Every record lives at an address derived from a namespace tag and the
//! public keys that identify it, so that the same logical key always names
//! the same record and a second creation at an occupied address is rejected.

pub mod errors;
pub mod instructions;
pub mod laws;
pub mod permission_hooks;
pub mod pubkey;
pub mod registry;
pub mod state;

use crate::errors::AgentRegistryError;
use crate::instructions::register_agent::{
    register_agent_error, register_agent_state, AgentRegisteredEvent, AgentRegisteredEventView,
    RegisterAgent,
};
use crate::instructions::update_reputation::{
    update_reputation_error, update_reputation_state, ReputationUpdatedEvent,
    ReputationUpdatedEventView, UpdateReputation,
};
use crate::pubkey::agent_address;
use crate::registry::Registry;
use crate::state::texts_view;
use vstd::prelude::*;

verus! {

/// Entry point of registration: registers an agent owned by `ctx.authority`.
///
/// Fails, changing nothing, where no address can be derived for the owner,
/// where the owner already has an agent record, or where a text exceeds its
/// bound. On success the record holds the inputs with a zero score and is
/// active, and the notification to emit is returned.
pub fn register_agent(
    registry: &mut Registry,
    ctx: &RegisterAgent,
    name: String,
    description: String,
    agent_uri: String,
    services: Vec<String>,
    x402_support: bool,
    generation: u32,
    unix_timestamp: i64,
) -> (r: Result<AgentRegisteredEvent, AgentRegistryError>)
    requires
        old(registry).inv(),
    ensures
        final(registry).inv(),
        final(registry)@ == register_agent_state(
            old(registry)@,
            ctx.authority@,
            name@,
            description@,
            agent_uri@,
            texts_view(services@),
            x402_support,
            generation,
            unix_timestamp,
        ),
        match register_agent_error(
            old(registry)@,
            ctx.authority@,
            name@,
            description@,
            agent_uri@,
            texts_view(services@),
        ) {
            Some(e) => r == Err::<AgentRegisteredEvent, AgentRegistryError>(e),
            None => r is Ok && r->Ok_0@ == (AgentRegisteredEventView {
                agent: agent_address(old(registry)@.program_id, ctx.authority@).unwrap().0,
                authority: ctx.authority@,
                name: name@,
                generation,
                timestamp: unix_timestamp,
            }),
        },
{
    instructions::register_agent::handler(
        registry,
        ctx,
        name,
        description,
        agent_uri,
        services,
        x402_support,
        generation,
        unix_timestamp,
    )
}

/// Entry point of rating: records the rating that `ctx.rater` gives to the
/// agent record at `ctx.agent_account`.
///
/// Fails, changing nothing, where the agent does not exist, where the rater
/// owns it, where no address can be derived, where the rater has rated this
/// agent before, where the score or the comment is out of bounds, or where
/// the agent's total would overflow. On success the score is added to the
/// total and the notification to emit is returned.
pub fn update_reputation(
    registry: &mut Registry,
    ctx: &UpdateReputation,
    score: i64,
    comment: String,
    unix_timestamp: i64,
) -> (r: Result<ReputationUpdatedEvent, AgentRegistryError>)
    requires
        old(registry).inv(),
    ensures
        final(registry).inv(),
        final(registry)@ == update_reputation_state(
            old(registry)@,
            ctx.agent_account@,
            ctx.rater@,
            score,
            comment@,
            unix_timestamp,
        ),
        match update_reputation_error(
            old(registry)@,
            ctx.agent_account@,
            ctx.rater@,
            score,
            comment@,
        ) {
            Some(e) => r == Err::<ReputationUpdatedEvent, AgentRegistryError>(e),
            None => r is Ok && r->Ok_0@ == (ReputationUpdatedEventView {
                agent: ctx.agent_account@,
                rater: ctx.rater@,
                score,
                new_total_score: (old(registry)@.agents[ctx.agent_account@].reputation_score
                    + score) as i64,
                timestamp: unix_timestamp,
            }),
        },
{
    instructions::update_reputation::handler(registry, ctx, score, comment, unix_timestamp)
}

} // verus!
