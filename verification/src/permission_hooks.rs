//! Permission groups: who may read the private state of an agent.
//!
//! Groups and their members are stored by an outside permission service.
//! This module decides what that service is asked to do and in which order,
//! checks before every request that the caller owns the agent record, and
//! records the group on the agent record only after the service has accepted
//! both the group and the permission that links the record to it.

use crate::errors::AgentRegistryError;
use crate::pubkey::{
    agent_address, agent_tag, agent_tag_seed, derived_view, find_agent_address, seeds_view, Pubkey,
};
use crate::registry::{Registry, RegistryView};
use crate::state::{optional_agent_view, private_agent, texts_view, AgentAccountView};
use vstd::prelude::*;

pub use crate::state::AgentAccount;

verus! {

/// What the execution host supplies to the creation of a permission group:
/// the verified keys of the payer and of the agent's owner, and the
/// addresses of the agent record and of the two records the permission
/// service is to create.
#[derive(Clone, Copy, Debug, PartialEq, Eq)]
pub struct CreateAgentPermission {
    pub payer: Pubkey,
    pub agent_owner: Pubkey,
    pub agent_account: Pubkey,
    pub permission: Pubkey,
    pub group: Pubkey,
}

/// What the execution host supplies when a member is added to a group.
#[derive(Clone, Copy, Debug, PartialEq, Eq)]
pub struct AddGroupMember {
    pub payer: Pubkey,
    pub agent_owner: Pubkey,
    pub agent_account: Pubkey,
    pub group: Pubkey,
}

/// What the execution host supplies when a member is removed from a group.
#[derive(Clone, Copy, Debug, PartialEq, Eq)]
pub struct RemoveGroupMember {
    pub payer: Pubkey,
    pub agent_owner: Pubkey,
    pub agent_account: Pubkey,
    pub group: Pubkey,
}

/// What the execution host supplies to the creation of a private agent.
#[derive(Clone, Copy, Debug, PartialEq, Eq)]
pub struct CreatePrivateAgent {
    pub payer: Pubkey,
    pub agent_owner: Pubkey,
}

/// A call that the permission service is asked to perform.
#[derive(Clone, Debug, PartialEq, Eq)]
pub enum PermissionRequest {
    /// Create the group `id` at the address `group` with the given members.
    CreateGroup { group: Pubkey, id: Pubkey, members: Vec<Pubkey>, payer: Pubkey },
    /// Create the permission that binds the agent record `delegated_account`
    /// to `group`; the agent record co-signs by the seeds of its address.
    CreatePermission {
        permission: Pubkey,
        delegated_account: Pubkey,
        group: Pubkey,
        payer: Pubkey,
        signer_seeds: Vec<Vec<u8>>,
    },
    /// Add `member` to `group`.
    AddMember { group: Pubkey, member: Pubkey, payer: Pubkey },
    /// Remove `member` from `group`.
    RemoveMember { group: Pubkey, member: Pubkey, payer: Pubkey },
}

/// Mathematical view of a [`PermissionRequest`].
pub enum PermissionRequestView {
    CreateGroup { group: Seq<u8>, id: Seq<u8>, members: Seq<Seq<u8>>, payer: Seq<u8> },
    CreatePermission {
        permission: Seq<u8>,
        delegated_account: Seq<u8>,
        group: Seq<u8>,
        payer: Seq<u8>,
        signer_seeds: Seq<Seq<u8>>,
    },
    AddMember { group: Seq<u8>, member: Seq<u8>, payer: Seq<u8> },
    RemoveMember { group: Seq<u8>, member: Seq<u8>, payer: Seq<u8> },
}

/// A list of keys as byte sequences.
pub open spec fn keys_view(keys: Seq<Pubkey>) -> Seq<Seq<u8>> {
    Seq::new(keys.len(), |i: int| keys[i]@)
}

impl View for PermissionRequest {
    type V = PermissionRequestView;

    open spec fn view(&self) -> PermissionRequestView {
        match *self {
            PermissionRequest::CreateGroup { group, id, members, payer } => {
                PermissionRequestView::CreateGroup {
                    group: group@,
                    id: id@,
                    members: keys_view(members@),
                    payer: payer@,
                }
            },
            PermissionRequest::CreatePermission {
                permission,
                delegated_account,
                group,
                payer,
                signer_seeds,
            } => PermissionRequestView::CreatePermission {
                permission: permission@,
                delegated_account: delegated_account@,
                group: group@,
                payer: payer@,
                signer_seeds: seeds_view(signer_seeds@),
            },
            PermissionRequest::AddMember { group, member, payer } => {
                PermissionRequestView::AddMember { group: group@, member: member@, payer: payer@ }
            },
            PermissionRequest::RemoveMember { group, member, payer } => {
                PermissionRequestView::RemoveMember {
                    group: group@,
                    member: member@,
                    payer: payer@,
                }
            },
        }
    }
}

/// How far the creation of a permission group has come.
#[derive(Clone, Copy, Debug, PartialEq, Eq, Structural)]
pub enum PermissionState {
    /// Nothing has been requested.
    Start,
    /// The permission service was asked to create the group.
    GroupRequested,
    /// The group exists and the service was asked to create the permission.
    PermissionRequested,
    /// Both exist and the agent record refers to the group.
    Linked,
    /// The operation was abandoned; the agent record is as it was.
    Failed,
}

/// What the driver of the operation reports to the next step.
#[derive(Clone, Copy, Debug, PartialEq, Eq, Structural)]
pub enum PermissionEvent {
    /// The operation was invoked.
    Begin,
    /// The permission service performed the last request.
    Accepted,
    /// The permission service refused the last request.
    Rejected,
}

/// What the driver of the operation is to do next.
#[derive(Clone, Debug, PartialEq, Eq)]
pub enum PermissionAction {
    /// Perform the request and report how the service answered.
    Request(PermissionRequest),
    /// Report success; the agent record refers to the group.
    Done,
    /// Report the error; the agent record is as it was.
    Abort(AgentRegistryError),
}

/// Mathematical view of a [`PermissionAction`].
pub enum PermissionActionView {
    Request(PermissionRequestView),
    Done,
    Abort(AgentRegistryError),
}

impl View for PermissionAction {
    type V = PermissionActionView;

    open spec fn view(&self) -> PermissionActionView {
        match *self {
            PermissionAction::Request(request) => PermissionActionView::Request(request@),
            PermissionAction::Done => PermissionActionView::Done,
            PermissionAction::Abort(e) => PermissionActionView::Abort(e),
        }
    }
}

/// The seeds by which the agent record of `owner` signs for its own
/// address: the agent tag, the owner's key and the discriminator.
pub open spec fn agent_signer_seeds(owner: Seq<u8>, bump: u8) -> Seq<Seq<u8>> {
    seq![agent_tag(), owner, seq![bump]]
}

/// Why `agent_owner` has no authority over the agent record `agent` found at
/// `agent_account`, if so: no record was found, it belongs to another, no
/// address can be derived from the owner's key, or the derived address is
/// not that of the record, in this order.
pub open spec fn authorization_error(
    agent: Option<AgentAccountView>,
    derived: Option<(Seq<u8>, u8)>,
    agent_account: Seq<u8>,
    agent_owner: Seq<u8>,
) -> Option<AgentRegistryError> {
    match agent {
        None => Some(AgentRegistryError::AgentNotFound),
        Some(account) => if account.owner_refusal(agent_owner) is Some {
            account.owner_refusal(agent_owner)
        } else {
            match derived {
                None => Some(AgentRegistryError::AddressDerivationFailed),
                Some((address, _)) => if address != agent_account {
                    Some(AgentRegistryError::InvalidAgentAddress)
                } else {
                    None
                },
            }
        },
    }
}

/// Checks that `agent_owner` owns the agent record `agent` found at
/// `agent_account` and that the record's address is the one derived from the
/// owner's key. Returns the discriminator of the address.
pub fn authorize(
    agent: Option<&AgentAccount>,
    derived: Option<(Pubkey, u8)>,
    agent_account: &Pubkey,
    agent_owner: &Pubkey,
) -> (r: Result<u8, AgentRegistryError>)
    ensures
        match authorization_error(
            optional_agent_view(agent),
            derived_view(derived),
            agent_account@,
            agent_owner@,
        ) {
            Some(e) => r == Err::<u8, AgentRegistryError>(e),
            None => r == Ok::<u8, AgentRegistryError>(derived_view(derived).unwrap().1),
        },
{
    match agent {
        None => {
            return Err(AgentRegistryError::AgentNotFound);
        },
        Some(account) => {
            if !account.authority.same(agent_owner) {
                return Err(AgentRegistryError::NotAgentOwner);
            }
        },
    }
    match derived {
        None => Err(AgentRegistryError::AddressDerivationFailed),
        Some((address, bump)) => {
            if address.same(agent_account) {
                Ok(bump)
            } else {
                Err(AgentRegistryError::InvalidAgentAddress)
            }
        },
    }
}

/// The state that follows `state` when `event` is reported.
pub open spec fn next_permission_state(
    agent: Option<AgentAccountView>,
    derived: Option<(Seq<u8>, u8)>,
    agent_account: Seq<u8>,
    agent_owner: Seq<u8>,
    state: PermissionState,
    event: PermissionEvent,
) -> PermissionState {
    let refused = authorization_error(agent, derived, agent_account, agent_owner) is Some;
    match (state, event) {
        (PermissionState::Start, PermissionEvent::Begin) => if refused {
            PermissionState::Failed
        } else {
            PermissionState::GroupRequested
        },
        (PermissionState::GroupRequested, PermissionEvent::Accepted) => if refused {
            PermissionState::Failed
        } else {
            PermissionState::PermissionRequested
        },
        (PermissionState::PermissionRequested, PermissionEvent::Accepted) => if refused {
            PermissionState::Failed
        } else {
            PermissionState::Linked
        },
        (PermissionState::GroupRequested, PermissionEvent::Rejected) => PermissionState::Failed,
        (PermissionState::PermissionRequested, PermissionEvent::Rejected) => PermissionState::Failed,
        _ => state,
    }
}

/// What the driver is told to do when `event` is reported in `state`.
pub open spec fn next_permission_action(
    agent: Option<AgentAccountView>,
    derived: Option<(Seq<u8>, u8)>,
    ctx: CreateAgentPermission,
    group_id: Seq<u8>,
    members: Seq<Seq<u8>>,
    state: PermissionState,
    event: PermissionEvent,
) -> PermissionActionView {
    let refusal = authorization_error(agent, derived, ctx.agent_account@, ctx.agent_owner@);
    match (state, event) {
        (PermissionState::Start, PermissionEvent::Begin) => match refusal {
            Some(e) => PermissionActionView::Abort(e),
            None => PermissionActionView::Request(
                PermissionRequestView::CreateGroup {
                    group: ctx.group@,
                    id: group_id,
                    members,
                    payer: ctx.payer@,
                },
            ),
        },
        (PermissionState::GroupRequested, PermissionEvent::Accepted) => match refusal {
            Some(e) => PermissionActionView::Abort(e),
            None => PermissionActionView::Request(
                PermissionRequestView::CreatePermission {
                    permission: ctx.permission@,
                    delegated_account: ctx.agent_account@,
                    group: ctx.group@,
                    payer: ctx.payer@,
                    signer_seeds: agent_signer_seeds(ctx.agent_owner@, derived.unwrap().1),
                },
            ),
        },
        (PermissionState::PermissionRequested, PermissionEvent::Accepted) => match refusal {
            Some(e) => PermissionActionView::Abort(e),
            None => PermissionActionView::Done,
        },
        (PermissionState::GroupRequested, PermissionEvent::Rejected) => {
            PermissionActionView::Abort(AgentRegistryError::PermissionServiceRejected)
        },
        (PermissionState::PermissionRequested, PermissionEvent::Rejected) => {
            PermissionActionView::Abort(AgentRegistryError::PermissionServiceRejected)
        },
        _ => PermissionActionView::Abort(AgentRegistryError::UnexpectedReply),
    }
}

/// The registry after `event` was reported in `state`: the agent record
/// refers to the group once the service has accepted the permission and the
/// caller is authorized; in every other case nothing changes.
pub open spec fn next_permission_registry(
    pre: RegistryView,
    derived: Option<(Seq<u8>, u8)>,
    agent_account: Seq<u8>,
    agent_owner: Seq<u8>,
    group_id: Seq<u8>,
    state: PermissionState,
    event: PermissionEvent,
) -> RegistryView {
    if state == PermissionState::PermissionRequested && event == PermissionEvent::Accepted
        && authorization_error(pre.agent_at(agent_account), derived, agent_account, agent_owner)
        is None {
        pre.link(agent_account, agent_owner, group_id)
    } else {
        pre
    }
}

/// A copy of a list of keys.
fn copy_keys(keys: &Vec<Pubkey>) -> (copy: Vec<Pubkey>)
    ensures
        copy@ == keys@,
{
    let mut copy: Vec<Pubkey> = Vec::new();
    let mut i: usize = 0;
    while i < keys.len()
        invariant
            i <= keys@.len(),
            copy@ == keys@.take(i as int),
        decreases keys@.len() - i,
    {
        copy.push(keys[i]);
        assert(keys@.take(i as int + 1) =~= keys@.take(i as int).push(keys@[i as int]));
        i += 1;
    }
    assert(keys@.take(i as int) =~= keys@);
    copy
}

/// The seeds by which the agent record of `owner` signs for its address.
pub fn signer_seeds(owner: &Pubkey, bump: u8) -> (seeds: Vec<Vec<u8>>)
    ensures
        seeds_view(seeds@) == agent_signer_seeds(owner@, bump),
{
    let mut last: Vec<u8> = Vec::new();
    last.push(bump);
    let mut seeds: Vec<Vec<u8>> = Vec::new();
    seeds.push(agent_tag_seed());
    seeds.push(owner.to_seed());
    seeds.push(last);
    assert(seeds@[2]@ =~= seq![bump]);
    assert(seeds_view(seeds@) =~= agent_signer_seeds(owner@, bump));
    seeds
}

/// One step of the creation of a permission group: what to do next, given
/// the agent record found at `ctx.agent_account`, if any, and the address
/// derived from the owner's key. Nothing is changed.
///
/// The operation starts in `Start` with `Begin`. Each step checks the
/// caller's authority over the agent record anew. The group is requested
/// first and the permission only after the group was accepted. `Done` is
/// answered only after the permission was accepted: the record is then to
/// refer to the group. A refusal by the service or a failed check abandons
/// the operation. An event that the state does not wait for is answered with
/// `UnexpectedReply` and leaves the state as it is.
pub fn permission_step(
    agent: Option<&AgentAccount>,
    derived: Option<(Pubkey, u8)>,
    ctx: &CreateAgentPermission,
    group_id: Pubkey,
    members: &Vec<Pubkey>,
    state: PermissionState,
    event: PermissionEvent,
) -> (r: (PermissionState, PermissionAction))
    ensures
        r.0 == next_permission_state(
            optional_agent_view(agent),
            derived_view(derived),
            ctx.agent_account@,
            ctx.agent_owner@,
            state,
            event,
        ),
        r.1@ == next_permission_action(
            optional_agent_view(agent),
            derived_view(derived),
            *ctx,
            group_id@,
            keys_view(members@),
            state,
            event,
        ),
{
    match (state, event) {
        (PermissionState::Start, PermissionEvent::Begin) => {
            match authorize(agent, derived, &ctx.agent_account, &ctx.agent_owner) {
                Err(e) => (PermissionState::Failed, PermissionAction::Abort(e)),
                Ok(_) => (
                    PermissionState::GroupRequested,
                    PermissionAction::Request(
                        PermissionRequest::CreateGroup {
                            group: ctx.group,
                            id: group_id,
                            members: copy_keys(members),
                            payer: ctx.payer,
                        },
                    ),
                ),
            }
        },
        (PermissionState::GroupRequested, PermissionEvent::Accepted) => {
            match authorize(agent, derived, &ctx.agent_account, &ctx.agent_owner) {
                Err(e) => (PermissionState::Failed, PermissionAction::Abort(e)),
                Ok(bump) => (
                    PermissionState::PermissionRequested,
                    PermissionAction::Request(
                        PermissionRequest::CreatePermission {
                            permission: ctx.permission,
                            delegated_account: ctx.agent_account,
                            group: ctx.group,
                            payer: ctx.payer,
                            signer_seeds: signer_seeds(&ctx.agent_owner, bump),
                        },
                    ),
                ),
            }
        },
        (PermissionState::PermissionRequested, PermissionEvent::Accepted) => {
            match authorize(agent, derived, &ctx.agent_account, &ctx.agent_owner) {
                Err(e) => (PermissionState::Failed, PermissionAction::Abort(e)),
                Ok(_) => (PermissionState::Linked, PermissionAction::Done),
            }
        },
        (PermissionState::GroupRequested, PermissionEvent::Rejected) => (
            PermissionState::Failed,
            PermissionAction::Abort(AgentRegistryError::PermissionServiceRejected),
        ),
        (PermissionState::PermissionRequested, PermissionEvent::Rejected) => (
            PermissionState::Failed,
            PermissionAction::Abort(AgentRegistryError::PermissionServiceRejected),
        ),
        _ => (state, PermissionAction::Abort(AgentRegistryError::UnexpectedReply)),
    }
}

/// One step of the creation of a permission group for the agent record at
/// `ctx.agent_account` on behalf of `ctx.agent_owner`.
///
/// Derives the address of the owner's agent record, decides as
/// [`permission_step`] does, and, where the answer is `Done`, makes the
/// agent record refer to the group. In every other case the registry is
/// left as it was.
pub fn create_agent_permission(
    registry: &mut Registry,
    ctx: &CreateAgentPermission,
    group_id: Pubkey,
    members: &Vec<Pubkey>,
    state: PermissionState,
    event: PermissionEvent,
) -> (r: (PermissionState, PermissionAction))
    requires
        old(registry).inv(),
    ensures
        final(registry).inv(),
        final(registry)@ == next_permission_registry(
            old(registry)@,
            agent_address(old(registry)@.program_id, ctx.agent_owner@),
            ctx.agent_account@,
            ctx.agent_owner@,
            group_id@,
            state,
            event,
        ),
        r.0 == next_permission_state(
            old(registry)@.agent_at(ctx.agent_account@),
            agent_address(old(registry)@.program_id, ctx.agent_owner@),
            ctx.agent_account@,
            ctx.agent_owner@,
            state,
            event,
        ),
        r.1@ == next_permission_action(
            old(registry)@.agent_at(ctx.agent_account@),
            agent_address(old(registry)@.program_id, ctx.agent_owner@),
            *ctx,
            group_id@,
            keys_view(members@),
            state,
            event,
        ),
{
    let program_id = registry.program_id();
    let derived = find_agent_address(&program_id, &ctx.agent_owner);
    let (next, action) = permission_step(
        registry.read_agent(&ctx.agent_account),
        derived,
        ctx,
        group_id,
        members,
        state,
        event,
    );
    match action {
        PermissionAction::Done => {
            match registry.link_permission_group(&ctx.agent_account, &ctx.agent_owner, group_id) {
                Ok(()) => (next, PermissionAction::Done),
                Err(e) => (PermissionState::Failed, PermissionAction::Abort(e)),
            }
        },
        other => (next, other),
    }
}

/// Decides whether `ctx.agent_owner` may add `new_member` to the group of
/// the agent record at `ctx.agent_account`, and if so returns the request
/// for the permission service. The registry itself is not changed.
pub fn add_group_member(registry: &Registry, ctx: &AddGroupMember, new_member: Pubkey) -> (r:
    Result<PermissionRequest, AgentRegistryError>)
    requires
        registry.inv(),
    ensures
        match authorization_error(
            registry@.agent_at(ctx.agent_account@),
            agent_address(registry@.program_id, ctx.agent_owner@),
            ctx.agent_account@,
            ctx.agent_owner@,
        ) {
            Some(e) => r == Err::<PermissionRequest, AgentRegistryError>(e),
            None => r is Ok && r->Ok_0@ == (PermissionRequestView::AddMember {
                group: ctx.group@,
                member: new_member@,
                payer: ctx.payer@,
            }),
        },
{
    let program_id = registry.program_id();
    let derived = find_agent_address(&program_id, &ctx.agent_owner);
    match authorize(
        registry.read_agent(&ctx.agent_account),
        derived,
        &ctx.agent_account,
        &ctx.agent_owner,
    ) {
        Err(e) => Err(e),
        Ok(_) => Ok(
            PermissionRequest::AddMember { group: ctx.group, member: new_member, payer: ctx.payer },
        ),
    }
}

/// Decides whether `ctx.agent_owner` may remove `member_to_remove` from the
/// group of the agent record at `ctx.agent_account`, and if so returns the
/// request for the permission service. The registry itself is not changed.
pub fn remove_group_member(
    registry: &Registry,
    ctx: &RemoveGroupMember,
    member_to_remove: Pubkey,
) -> (r: Result<PermissionRequest, AgentRegistryError>)
    requires
        registry.inv(),
    ensures
        match authorization_error(
            registry@.agent_at(ctx.agent_account@),
            agent_address(registry@.program_id, ctx.agent_owner@),
            ctx.agent_account@,
            ctx.agent_owner@,
        ) {
            Some(e) => r == Err::<PermissionRequest, AgentRegistryError>(e),
            None => r is Ok && r->Ok_0@ == (PermissionRequestView::RemoveMember {
                group: ctx.group@,
                member: member_to_remove@,
                payer: ctx.payer@,
            }),
        },
{
    let program_id = registry.program_id();
    let derived = find_agent_address(&program_id, &ctx.agent_owner);
    match authorize(
        registry.read_agent(&ctx.agent_account),
        derived,
        &ctx.agent_account,
        &ctx.agent_owner,
    ) {
        Err(e) => Err(e),
        Ok(_) => Ok(
            PermissionRequest::RemoveMember {
                group: ctx.group,
                member: member_to_remove,
                payer: ctx.payer,
            },
        ),
    }
}

/// The registry after the creation of a private agent of `owner` was
/// attempted.
pub open spec fn create_private_agent_state(
    pre: RegistryView,
    owner: Seq<u8>,
    name: Seq<char>,
    initial_balance: u64,
    now: i64,
) -> RegistryView {
    let derived = agent_address(pre.program_id, owner);
    pre.register(derived, private_agent(owner, name, derived.unwrap().1, initial_balance, now))
}

/// Creates the agent record of `ctx.agent_owner` with a name and an initial
/// balance only: generation 0, no description, URI or services, and no
/// permission group yet. Returns the address of the record.
///
/// Fails, changing nothing, where the derivation fails, where the address
/// already holds a record, or where the name is longer than 50 bytes.
pub fn create_private_agent(
    registry: &mut Registry,
    ctx: &CreatePrivateAgent,
    name: String,
    initial_balance: u64,
    unix_timestamp: i64,
) -> (r: Result<Pubkey, AgentRegistryError>)
    requires
        old(registry).inv(),
    ensures
        final(registry).inv(),
        final(registry)@ == create_private_agent_state(
            old(registry)@,
            ctx.agent_owner@,
            name@,
            initial_balance,
            unix_timestamp,
        ),
        match old(registry)@.register_error(
            agent_address(old(registry)@.program_id, ctx.agent_owner@),
            name@,
            Seq::<char>::empty(),
            Seq::<char>::empty(),
            Seq::<Seq<char>>::empty(),
        ) {
            Some(e) => r == Err::<Pubkey, AgentRegistryError>(e),
            None => r is Ok && r->Ok_0@ == agent_address(
                old(registry)@.program_id,
                ctx.agent_owner@,
            ).unwrap().0,
        },
{
    let program_id = registry.program_id();
    let derived = find_agent_address(&program_id, &ctx.agent_owner);
    let services: Vec<String> = Vec::new();
    assert(texts_view(services@) =~= Seq::<Seq<char>>::empty());
    registry.register(
        derived,
        ctx.agent_owner,
        name,
        String::new(),
        String::new(),
        services,
        false,
        0,
        initial_balance,
        unix_timestamp,
    )
}

} // verus!
