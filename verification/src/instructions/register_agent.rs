//! Registration of an agent under the key of its owner.

use crate::errors::AgentRegistryError;
use crate::pubkey::{agent_address, find_agent_address, Pubkey};
use crate::registry::{Registry, RegistryView};
use crate::state::{new_agent, texts_view};
use vstd::prelude::*;

verus! {

/// What the execution host supplies to a registration: the verified key of
/// the party that registers, which becomes the owner of the record.
#[derive(Clone, Copy, Debug, PartialEq, Eq)]
pub struct RegisterAgent {
    pub authority: Pubkey,
}

/// Notification that an agent was registered.
#[derive(Clone, Debug, PartialEq, Eq)]
pub struct AgentRegisteredEvent {
    pub agent: Pubkey,
    pub authority: Pubkey,
    pub name: String,
    pub generation: u32,
    pub timestamp: i64,
}

/// Mathematical view of an [`AgentRegisteredEvent`].
pub struct AgentRegisteredEventView {
    pub agent: Seq<u8>,
    pub authority: Seq<u8>,
    pub name: Seq<char>,
    pub generation: u32,
    pub timestamp: i64,
}

impl View for AgentRegisteredEvent {
    type V = AgentRegisteredEventView;

    open spec fn view(&self) -> AgentRegisteredEventView {
        AgentRegisteredEventView {
            agent: self.agent@,
            authority: self.authority@,
            name: self.name@,
            generation: self.generation,
            timestamp: self.timestamp,
        }
    }
}

/// Why the registration of `authority` is refused, if it is.
pub open spec fn register_agent_error(
    pre: RegistryView,
    authority: Seq<u8>,
    name: Seq<char>,
    description: Seq<char>,
    agent_uri: Seq<char>,
    services: Seq<Seq<char>>,
) -> Option<AgentRegistryError> {
    pre.register_error(
        agent_address(pre.program_id, authority),
        name,
        description,
        agent_uri,
        services,
    )
}

/// The registry after the registration of `authority` was attempted.
pub open spec fn register_agent_state(
    pre: RegistryView,
    authority: Seq<u8>,
    name: Seq<char>,
    description: Seq<char>,
    agent_uri: Seq<char>,
    services: Seq<Seq<char>>,
    x402_support: bool,
    generation: u32,
    now: i64,
) -> RegistryView {
    let derived = agent_address(pre.program_id, authority);
    pre.register(
        derived,
        new_agent(
            authority,
            name,
            description,
            agent_uri,
            services,
            x402_support,
            generation,
            derived.unwrap().1,
            0,
            now,
        ),
    )
}

/// Registers an agent owned by `ctx.authority` at the address derived from
/// the agent tag and that key.
///
/// Fails, changing nothing, where the derivation fails, where the address
/// already holds a record, or where a text exceeds its bound. On success the
/// record holds the inputs with a zero score and is active, and the
/// notification to emit is returned.
pub fn handler(
    registry: &mut Registry,
    ctx: &RegisterAgent,
    name: String,
    description: String,
    agent_uri: String,
    services: Vec<String>,
    x402_support: bool,
    generation: u32,
    unix_timestamp: i64,
) -> (r: Result<AgentRegisteredEvent, AgentRegistryError>)
    requires
        old(registry).inv(),
    ensures
        final(registry).inv(),
        final(registry)@ == register_agent_state(
            old(registry)@,
            ctx.authority@,
            name@,
            description@,
            agent_uri@,
            texts_view(services@),
            x402_support,
            generation,
            unix_timestamp,
        ),
        match register_agent_error(
            old(registry)@,
            ctx.authority@,
            name@,
            description@,
            agent_uri@,
            texts_view(services@),
        ) {
            Some(e) => r == Err::<AgentRegisteredEvent, AgentRegistryError>(e),
            None => r is Ok && r->Ok_0@ == (AgentRegisteredEventView {
                agent: agent_address(old(registry)@.program_id, ctx.authority@).unwrap().0,
                authority: ctx.authority@,
                name: name@,
                generation,
                timestamp: unix_timestamp,
            }),
        },
{
    let program_id = registry.program_id();
    let derived = find_agent_address(&program_id, &ctx.authority);
    let announced = name.clone();
    match registry.register(
        derived,
        ctx.authority,
        name,
        description,
        agent_uri,
        services,
        x402_support,
        generation,
        0,
        unix_timestamp,
    ) {
        Err(e) => Err(e),
        Ok(agent) => Ok(
            AgentRegisteredEvent {
                agent,
                authority: ctx.authority,
                name: announced,
                generation,
                timestamp: unix_timestamp,
            },
        ),
    }
}

} // verus!
