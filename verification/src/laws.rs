//! Laws of the registry: what holds of every state and of every sequence of
//! operations, stated over the mathematical views and proved from the
//! definitions that the operations' contracts use.

use crate::errors::{AgentRegistryError, ErrorKind};
use crate::instructions::register_agent::{register_agent_error, register_agent_state};
use crate::instructions::update_reputation::{update_reputation_error, update_reputation_state};
use crate::permission_hooks::{
    create_private_agent_state, next_permission_action, next_permission_registry,
    next_permission_state, CreateAgentPermission, PermissionActionView, PermissionEvent,
    PermissionState,
};
use crate::pubkey::{agent_address, reputation_address};
use crate::registry::{score_sum, RegistryView};
use crate::state::{byte_len, AgentAccountView};
use vstd::prelude::*;

verus! {

/// After a successful registration, the record read at the derived address
/// holds every input as it was supplied, a zero score, and is active.
pub proof fn law_register_then_read(
    pre: RegistryView,
    authority: Seq<u8>,
    name: Seq<char>,
    description: Seq<char>,
    agent_uri: Seq<char>,
    services: Seq<Seq<char>>,
    x402_support: bool,
    generation: u32,
    now: i64,
)
    requires
        register_agent_error(pre, authority, name, description, agent_uri, services) is None,
    ensures
        ({
            let post = register_agent_state(
                pre,
                authority,
                name,
                description,
                agent_uri,
                services,
                x402_support,
                generation,
                now,
            );
            let derived = agent_address(pre.program_id, authority).unwrap();
            &&& post.agent_at(derived.0) == Some(
                AgentAccountView {
                    authority,
                    name,
                    description,
                    agent_uri,
                    services,
                    x402_support,
                    active: true,
                    parent_agent: None,
                    registered_at: now,
                    reputation_score: 0,
                    generation,
                    bump: derived.1,
                    balance: 0,
                    permission_group: None,
                },
            )
            &&& forall|a: Seq<u8>|
                pre.agents.contains_key(a) ==> post.agents.contains_key(a) && post.agents[a]
                    == pre.agents[a]
            &&& post.ratings == pre.ratings
        }),
{
}

/// Once an owner is registered, every further registration of the same
/// owner is refused as a conflict, whatever its other inputs, and leaves
/// the registry, and with it the original record, as it was.
pub proof fn law_second_registration_conflicts(
    pre: RegistryView,
    authority: Seq<u8>,
    name: Seq<char>,
    description: Seq<char>,
    agent_uri: Seq<char>,
    services: Seq<Seq<char>>,
    x402_support: bool,
    generation: u32,
    now: i64,
    name2: Seq<char>,
    description2: Seq<char>,
    agent_uri2: Seq<char>,
    services2: Seq<Seq<char>>,
    x402_support2: bool,
    generation2: u32,
    now2: i64,
)
    requires
        register_agent_error(pre, authority, name, description, agent_uri, services) is None,
    ensures
        ({
            let mid = register_agent_state(
                pre,
                authority,
                name,
                description,
                agent_uri,
                services,
                x402_support,
                generation,
                now,
            );
            &&& register_agent_error(mid, authority, name2, description2, agent_uri2, services2)
                == Some(AgentRegistryError::AddressInUse)
            &&& AgentRegistryError::AddressInUse.spec_kind() == ErrorKind::Conflict
            &&& register_agent_state(
                mid,
                authority,
                name2,
                description2,
                agent_uri2,
                services2,
                x402_support2,
                generation2,
                now2,
            ) == mid
        }),
{
}

/// A rating of an existing agent by a party other than its owner, with a
/// score in -100..=100 and a comment of at most 500 bytes, succeeds the
/// first time, provided an address can be derived for the pair, holds no
/// record yet, and the agent's total stays within 64 bits; it adds the score
/// to the total. Every further rating of the same agent by the same rater is
/// refused as a conflict, whatever its score and comment, and leaves the
/// registry, and with it the total, as it was.
pub proof fn law_one_rating_per_rater(
    pre: RegistryView,
    agent: Seq<u8>,
    rater: Seq<u8>,
    score: i64,
    comment: Seq<char>,
    now: i64,
    score2: i64,
    comment2: Seq<char>,
    now2: i64,
)
    requires
        pre.agents.contains_key(agent),
        pre.agents[agent].authority != rater,
        -100 <= score <= 100,
        byte_len(comment) <= 500,
        reputation_address(pre.program_id, agent, rater) is Some,
        !pre.occupied(reputation_address(pre.program_id, agent, rater).unwrap().0),
        i64::MIN <= pre.agents[agent].reputation_score + score <= i64::MAX,
    ensures
        ({
            let mid = update_reputation_state(pre, agent, rater, score, comment, now);
            &&& update_reputation_error(pre, agent, rater, score, comment) is None
            &&& mid.agents[agent].reputation_score == pre.agents[agent].reputation_score + score
            &&& update_reputation_error(mid, agent, rater, score2, comment2) == Some(
                AgentRegistryError::AddressInUse,
            )
            &&& AgentRegistryError::AddressInUse.spec_kind() == ErrorKind::Conflict
            &&& update_reputation_state(mid, agent, rater, score2, comment2, now2) == mid
        }),
{
    let mid = update_reputation_state(pre, agent, rater, score, comment, now);
    let address = reputation_address(pre.program_id, agent, rater).unwrap().0;
    assert(mid.ratings[pre.ratings.len() as int].address == address);
    assert(mid.has_rating(address));
}

/// A rating of an agent by its own owner is refused for want of authority,
/// whatever the score and the comment, and changes nothing.
pub proof fn law_self_rating_refused(
    pre: RegistryView,
    agent: Seq<u8>,
    score: i64,
    comment: Seq<char>,
    now: i64,
)
    requires
        pre.agents.contains_key(agent),
    ensures
        update_reputation_error(pre, agent, pre.agents[agent].authority, score, comment) == Some(
            AgentRegistryError::CannotRateSelf,
        ),
        AgentRegistryError::CannotRateSelf.spec_kind() == ErrorKind::Authorization,
        update_reputation_state(pre, agent, pre.agents[agent].authority, score, comment, now)
            == pre,
{
}

/// In every state of the registry the score of an agent is exactly the sum
/// of the scores of the ratings in the ledger that rate it.
pub proof fn law_score_is_sum_of_ratings(registry: RegistryView, agent: Seq<u8>)
    requires
        registry.wf(),
        registry.agents.contains_key(agent),
    ensures
        registry.agents[agent].reputation_score == score_sum(registry.ratings, agent),
{
    assert(registry.agent_ok(agent));
}

/// What a rater submits: the inputs of one rating of a given agent.
pub struct RatingInput {
    pub rater: Seq<u8>,
    pub score: i64,
    pub comment: Seq<char>,
    pub now: i64,
}

/// Sum of the scores of the submitted ratings.
pub open spec fn submitted_total(inputs: Seq<RatingInput>) -> int
    decreases inputs.len(),
{
    if inputs.len() == 0 {
        0
    } else {
        submitted_total(inputs.drop_last()) + inputs.last().score
    }
}

/// The registry after the ratings of the agent at `agent` were attempted one
/// after the other.
pub open spec fn after_ratings(pre: RegistryView, agent: Seq<u8>, inputs: Seq<RatingInput>)
    -> RegistryView
    decreases inputs.len(),
{
    if inputs.len() == 0 {
        pre
    } else {
        update_reputation_state(
            after_ratings(pre, agent, inputs.drop_last()),
            agent,
            inputs.last().rater,
            inputs.last().score,
            inputs.last().comment,
            inputs.last().now,
        )
    }
}

/// Whether each of the ratings succeeds when they are attempted one after
/// the other.
pub open spec fn ratings_succeed(pre: RegistryView, agent: Seq<u8>, inputs: Seq<RatingInput>)
    -> bool
    decreases inputs.len(),
{
    inputs.len() == 0 || (ratings_succeed(pre, agent, inputs.drop_last())
        && update_reputation_error(
        after_ratings(pre, agent, inputs.drop_last()),
        agent,
        inputs.last().rater,
        inputs.last().score,
        inputs.last().comment,
    ) is None)
}

/// After a sequence of successful ratings the score of the agent has grown
/// by exactly the sum of their scores; for an agent that was registered just
/// before, it is that sum.
pub proof fn law_score_after_ratings(pre: RegistryView, agent: Seq<u8>, inputs: Seq<RatingInput>)
    requires
        pre.agents.contains_key(agent),
        ratings_succeed(pre, agent, inputs),
    ensures
        after_ratings(pre, agent, inputs).agents.contains_key(agent),
        after_ratings(pre, agent, inputs).agents[agent].reputation_score
            == pre.agents[agent].reputation_score + submitted_total(inputs),
        after_ratings(pre, agent, inputs).ratings.len() == pre.ratings.len() + inputs.len(),
    decreases inputs.len(),
{
    if inputs.len() > 0 {
        law_score_after_ratings(pre, agent, inputs.drop_last());
    }
}

/// A rating that is in order in every other respect but would take the
/// agent's total out of the range of a signed 64-bit integer is refused as
/// an arithmetic error and leaves the registry, and with it the total, as it
/// was.
pub proof fn law_overflowing_rating_refused(
    pre: RegistryView,
    agent: Seq<u8>,
    rater: Seq<u8>,
    score: i64,
    comment: Seq<char>,
    now: i64,
)
    requires
        pre.agents.contains_key(agent),
        pre.agents[agent].authority != rater,
        -100 <= score <= 100,
        byte_len(comment) <= 500,
        reputation_address(pre.program_id, agent, rater) is Some,
        !pre.occupied(reputation_address(pre.program_id, agent, rater).unwrap().0),
        pre.agents[agent].reputation_score + score > i64::MAX || pre.agents[agent].reputation_score
            + score < i64::MIN,
    ensures
        update_reputation_error(pre, agent, rater, score, comment) == Some(
            AgentRegistryError::ArithmeticOverflow,
        ),
        AgentRegistryError::ArithmeticOverflow.spec_kind() == ErrorKind::Arithmetic,
        update_reputation_state(pre, agent, rater, score, comment, now) == pre,
{
}

/// Where the caller is not the owner of the agent record, no step of the
/// creation of a permission group changes the registry or reports success,
/// and the invocation itself is refused for want of authority: the agent's
/// permission group stays as it was.
pub proof fn law_permission_needs_owner(
    pre: RegistryView,
    ctx: CreateAgentPermission,
    group_id: Seq<u8>,
    members: Seq<Seq<u8>>,
    state: PermissionState,
    event: PermissionEvent,
)
    requires
        pre.agents.contains_key(ctx.agent_account@),
        pre.agents[ctx.agent_account@].authority != ctx.agent_owner@,
    ensures
        ({
            let derived = agent_address(pre.program_id, ctx.agent_owner@);
            &&& next_permission_registry(
                pre,
                derived,
                ctx.agent_account@,
                ctx.agent_owner@,
                group_id,
                state,
                event,
            ) == pre
            &&& next_permission_action(
                pre.agent_at(ctx.agent_account@),
                derived,
                ctx,
                group_id,
                members,
                state,
                event,
            )
                != PermissionActionView::Done
            &&& next_permission_action(
                pre.agent_at(ctx.agent_account@),
                derived,
                ctx,
                group_id,
                members,
                PermissionState::Start,
                PermissionEvent::Begin,
            ) == PermissionActionView::Abort(AgentRegistryError::NotAgentOwner)
            &&& next_permission_state(
                pre.agent_at(ctx.agent_account@),
                derived,
                ctx.agent_account@,
                ctx.agent_owner@,
                PermissionState::Start,
                PermissionEvent::Begin,
            ) == PermissionState::Failed
            &&& AgentRegistryError::NotAgentOwner.spec_kind() == ErrorKind::Authorization
        }),
{
}

/// The creation of a permission group reports success only where the caller
/// owns the agent record and the record's address is the one derived from
/// the caller's key; the record then refers to the group and nothing else in
/// the registry has changed.
pub proof fn law_permission_success_is_authorized(
    pre: RegistryView,
    ctx: CreateAgentPermission,
    group_id: Seq<u8>,
    members: Seq<Seq<u8>>,
    state: PermissionState,
    event: PermissionEvent,
)
    requires
        next_permission_action(
            pre.agent_at(ctx.agent_account@),
            agent_address(pre.program_id, ctx.agent_owner@),
            ctx,
            group_id,
            members,
            state,
            event,
        ) == PermissionActionView::Done,
    ensures
        ({
            let derived = agent_address(pre.program_id, ctx.agent_owner@);
            let post = next_permission_registry(
                pre,
                derived,
                ctx.agent_account@,
                ctx.agent_owner@,
                group_id,
                state,
                event,
            );
            &&& state == PermissionState::PermissionRequested
            &&& event == PermissionEvent::Accepted
            &&& pre.agents.contains_key(ctx.agent_account@)
            &&& pre.agents[ctx.agent_account@].authority == ctx.agent_owner@
            &&& derived is Some && derived.unwrap().0 == ctx.agent_account@
            &&& post.agents[ctx.agent_account@] == (AgentAccountView {
                permission_group: Some(group_id),
                ..pre.agents[ctx.agent_account@]
            })
            &&& post.ratings == pre.ratings
            &&& forall|a: Seq<u8>|
                a != ctx.agent_account@ && pre.agents.contains_key(a) ==> post.agents.contains_key(
                    a,
                ) && post.agents[a] == pre.agents[a]
        }),
{
}

/// A refusal by the permission service abandons the creation of a
/// permission group and leaves the registry as it was.
pub proof fn law_rejection_changes_nothing(
    pre: RegistryView,
    ctx: CreateAgentPermission,
    group_id: Seq<u8>,
    members: Seq<Seq<u8>>,
    state: PermissionState,
)
    ensures
        ({
            let derived = agent_address(pre.program_id, ctx.agent_owner@);
            &&& next_permission_registry(
                pre,
                derived,
                ctx.agent_account@,
                ctx.agent_owner@,
                group_id,
                state,
                PermissionEvent::Rejected,
            ) == pre
            &&& next_permission_action(
                pre.agent_at(ctx.agent_account@),
                derived,
                ctx,
                group_id,
                members,
                state,
                PermissionEvent::Rejected,
            ) is Abort
            &&& next_permission_state(
                pre.agent_at(ctx.agent_account@),
                derived,
                ctx.agent_account@,
                ctx.agent_owner@,
                state,
                PermissionEvent::Rejected,
            ) != PermissionState::Linked || state == PermissionState::Linked
        }),
{
}

/// The operations that derive their addresses keep every record at the
/// address that the derivation assigns to its keys.
pub proof fn law_derived_addresses_are_kept(
    pre: RegistryView,
    owner: Seq<u8>,
    name: Seq<char>,
    description: Seq<char>,
    agent_uri: Seq<char>,
    services: Seq<Seq<char>>,
    x402_support: bool,
    generation: u32,
    balance: u64,
    agent: Seq<u8>,
    rater: Seq<u8>,
    score: i64,
    comment: Seq<char>,
    group: Seq<u8>,
    state: PermissionState,
    event: PermissionEvent,
    now: i64,
)
    requires
        pre.addressed_by_derivation(),
    ensures
        register_agent_state(
            pre,
            owner,
            name,
            description,
            agent_uri,
            services,
            x402_support,
            generation,
            now,
        ).addressed_by_derivation(),
        create_private_agent_state(pre, owner, name, balance, now).addressed_by_derivation(),
        update_reputation_state(pre, agent, rater, score, comment, now).addressed_by_derivation(),
        next_permission_registry(
            pre,
            agent_address(pre.program_id, owner),
            agent,
            owner,
            group,
            state,
            event,
        ).addressed_by_derivation(),
{
    let registered = register_agent_state(
        pre,
        owner,
        name,
        description,
        agent_uri,
        services,
        x402_support,
        generation,
        now,
    );
    assert(registered.addressed_by_derivation()) by {
        assert forall|a: Seq<u8>| registered.agents.contains_key(a) implies agent_address(
            registered.program_id,
            (#[trigger] registered.agents[a]).authority,
        ) == Some((a, registered.agents[a].bump)) by {
            if pre.agents.contains_key(a) {
                assert(registered.agents[a] == pre.agents[a]);
            }
        }
    }
    let created = create_private_agent_state(pre, owner, name, balance, now);
    assert(created.addressed_by_derivation()) by {
        assert forall|a: Seq<u8>| created.agents.contains_key(a) implies agent_address(
            created.program_id,
            (#[trigger] created.agents[a]).authority,
        ) == Some((a, created.agents[a].bump)) by {
            if pre.agents.contains_key(a) {
                assert(created.agents[a] == pre.agents[a]);
            }
        }
    }
    let rated = update_reputation_state(pre, agent, rater, score, comment, now);
    assert(rated.addressed_by_derivation()) by {
        assert forall|a: Seq<u8>| rated.agents.contains_key(a) implies agent_address(
            rated.program_id,
            (#[trigger] rated.agents[a]).authority,
        ) == Some((a, rated.agents[a].bump)) by {
            assert(pre.agents.contains_key(a));
            assert(rated.agents[a].authority == pre.agents[a].authority);
        }
        assert forall|i: int| 0 <= i < rated.ratings.len() implies reputation_address(
            rated.program_id,
            (#[trigger] rated.ratings[i]).record.agent,
            rated.ratings[i].record.rater,
        ) == Some((rated.ratings[i].address, rated.ratings[i].record.bump)) by {
            if i < pre.ratings.len() {
                assert(rated.ratings[i] == pre.ratings[i]);
            }
        }
    }
    let linked = next_permission_registry(
        pre,
        agent_address(pre.program_id, owner),
        agent,
        owner,
        group,
        state,
        event,
    );
    assert(linked.addressed_by_derivation()) by {
        assert forall|a: Seq<u8>| linked.agents.contains_key(a) implies agent_address(
            linked.program_id,
            (#[trigger] linked.agents[a]).authority,
        ) == Some((a, linked.agents[a].bump)) by {
            assert(pre.agents.contains_key(a));
            assert(linked.agents[a].authority == pre.agents[a].authority);
        }
        assert forall|i: int| 0 <= i < linked.ratings.len() implies reputation_address(
            linked.program_id,
            (#[trigger] linked.ratings[i]).record.agent,
            linked.ratings[i].record.rater,
        ) == Some((linked.ratings[i].address, linked.ratings[i].record.bump)) by {
            assert(linked.ratings[i] == pre.ratings[i]);
        }
    }
}

/// In a registry whose records are at their derived addresses, an owner has
/// at most one agent record.
pub proof fn law_one_agent_per_owner(registry: RegistryView, first: Seq<u8>, second: Seq<u8>)
    requires
        registry.addressed_by_derivation(),
        registry.agents.contains_key(first),
        registry.agents.contains_key(second),
        registry.agents[first].authority == registry.agents[second].authority,
    ensures
        first == second,
{
}

/// In a registry whose records are at their derived addresses, a rater has
/// rated an agent at most once.
pub proof fn law_one_rating_per_pair(registry: RegistryView, i: int, j: int)
    requires
        registry.wf(),
        registry.addressed_by_derivation(),
        0 <= i < registry.ratings.len(),
        0 <= j < registry.ratings.len(),
        registry.ratings[i].record.agent == registry.ratings[j].record.agent,
        registry.ratings[i].record.rater == registry.ratings[j].record.rater,
    ensures
        i == j,
{
    assert(registry.ratings[i].address == registry.ratings[j].address);
}

/// No operation removes an agent record, changes its owner, or takes away
/// the permission group it refers to.
pub proof fn law_records_persist(
    pre: RegistryView,
    post: RegistryView,
    derived: Option<(Seq<u8>, u8)>,
    account: AgentAccountView,
    agent: Seq<u8>,
    party: Seq<u8>,
    score: i64,
    comment: Seq<char>,
    now: i64,
    group: Seq<u8>,
    a: Seq<u8>,
)
    requires
        pre.agents.contains_key(a),
        post == pre.register(derived, account) || post == pre.rate(
            derived,
            agent,
            party,
            score,
            comment,
            now,
        ) || post == pre.link(agent, party, group),
    ensures
        post.agents.contains_key(a),
        post.agents[a].authority == pre.agents[a].authority,
        pre.agents[a].permission_group is Some ==> post.agents[a].permission_group is Some,
        pre.ratings.is_prefix_of(post.ratings),
{
    if post == pre.register(derived, account) {
    } else if post == pre.rate(derived, agent, party, score, comment, now) {
    } else {
    }
}

} // verus!
