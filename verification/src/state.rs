//! The records the registry stores, their mathematical views and the bounds
//! every stored record respects.

use crate::errors::AgentRegistryError;
use crate::pubkey::Pubkey;
use vstd::prelude::*;
use vstd::utf8::encode_utf8;

verus! {

/// Length of a text in bytes of its UTF-8 encoding, the unit of every bound
/// on text in the registry.
pub open spec fn byte_len(text: Seq<char>) -> nat {
    encode_utf8(text).len()
}

/// Length of a text in bytes.
pub fn text_len(text: &str) -> (len: usize)
    ensures
        len == byte_len(text@),
{
    text.as_bytes().len()
}

/// A key as an optional byte sequence.
pub open spec fn optional_key_view(key: Option<Pubkey>) -> Option<Seq<u8>> {
    match key {
        Some(k) => Some(k@),
        None => None,
    }
}

/// A list of texts as a sequence of character sequences.
pub open spec fn texts_view(texts: Seq<String>) -> Seq<Seq<char>> {
    Seq::new(texts.len(), |i: int| texts[i]@)
}

/// The durable entry that describes one registered agent identity.
#[derive(Clone, Debug, PartialEq, Eq)]
pub struct AgentAccount {
    /// Owner of this agent record; never changes after creation.
    pub authority: Pubkey,
    /// Agent name.
    pub name: String,
    /// Agent description.
    pub description: String,
    /// URI pointing to additional agent metadata.
    pub agent_uri: String,
    /// Services offered by this agent.
    pub services: Vec<String>,
    /// Whether the agent supports the x402 payment protocol.
    pub x402_support: bool,
    /// Whether the agent is currently active.
    pub active: bool,
    /// Address of the agent this one descends from, if any.
    pub parent_agent: Option<Pubkey>,
    /// Timestamp of registration.
    pub registered_at: i64,
    /// Sum of the scores of all ratings given to this agent.
    pub reputation_score: i64,
    /// Generation number as claimed by the registrant.
    pub generation: u32,
    /// Discriminator found when the record's address was derived.
    pub bump: u8,
    /// Balance the agent was created with.
    pub balance: u64,
    /// Permission group that scopes who may read the agent's private state.
    pub permission_group: Option<Pubkey>,
}

/// Mathematical view of an [`AgentAccount`].
pub struct AgentAccountView {
    pub authority: Seq<u8>,
    pub name: Seq<char>,
    pub description: Seq<char>,
    pub agent_uri: Seq<char>,
    pub services: Seq<Seq<char>>,
    pub x402_support: bool,
    pub active: bool,
    pub parent_agent: Option<Seq<u8>>,
    pub registered_at: i64,
    pub reputation_score: i64,
    pub generation: u32,
    pub bump: u8,
    pub balance: u64,
    pub permission_group: Option<Seq<u8>>,
}

impl View for AgentAccount {
    type V = AgentAccountView;

    open spec fn view(&self) -> AgentAccountView {
        AgentAccountView {
            authority: self.authority@,
            name: self.name@,
            description: self.description@,
            agent_uri: self.agent_uri@,
            services: texts_view(self.services@),
            x402_support: self.x402_support,
            active: self.active,
            parent_agent: optional_key_view(self.parent_agent),
            registered_at: self.registered_at,
            reputation_score: self.reputation_score,
            generation: self.generation,
            bump: self.bump,
            balance: self.balance,
            permission_group: optional_key_view(self.permission_group),
        }
    }
}

/// An optional agent record as its view.
pub open spec fn optional_agent_view(agent: Option<&AgentAccount>) -> Option<AgentAccountView> {
    match agent {
        Some(account) => Some(account@),
        None => None,
    }
}

/// Whether every service name respects its bound.
pub open spec fn services_within_bounds(services: Seq<Seq<char>>) -> bool {
    forall|i: int| 0 <= i < services.len() ==> byte_len(#[trigger] services[i]) <= 50
}

/// The first bound that the texts of a registration violate, in the order
/// name, description, URI, number of services, service names.
pub open spec fn registration_error(
    name: Seq<char>,
    description: Seq<char>,
    agent_uri: Seq<char>,
    services: Seq<Seq<char>>,
) -> Option<AgentRegistryError> {
    if byte_len(name) > 50 {
        Some(AgentRegistryError::NameTooLong)
    } else if byte_len(description) > 200 {
        Some(AgentRegistryError::DescriptionTooLong)
    } else if byte_len(agent_uri) > 200 {
        Some(AgentRegistryError::UriTooLong)
    } else if services.len() > 10 {
        Some(AgentRegistryError::TooManyServices)
    } else if !services_within_bounds(services) {
        Some(AgentRegistryError::ServiceNameTooLong)
    } else {
        None
    }
}

/// The first bound that the score and comment of a rating violate.
pub open spec fn rating_error(score: i64, comment: Seq<char>) -> Option<AgentRegistryError> {
    if score < -100 || score > 100 {
        Some(AgentRegistryError::InvalidReputationScore)
    } else if byte_len(comment) > 500 {
        Some(AgentRegistryError::CommentTooLong)
    } else {
        None
    }
}

/// The agent record that a registration with the given inputs creates.
pub open spec fn new_agent(
    authority: Seq<u8>,
    name: Seq<char>,
    description: Seq<char>,
    agent_uri: Seq<char>,
    services: Seq<Seq<char>>,
    x402_support: bool,
    generation: u32,
    bump: u8,
    balance: u64,
    now: i64,
) -> AgentAccountView {
    AgentAccountView {
        authority,
        name,
        description,
        agent_uri,
        services,
        x402_support,
        active: true,
        parent_agent: None,
        registered_at: now,
        reputation_score: 0,
        generation,
        bump,
        balance,
        permission_group: None,
    }
}

/// The record of a private agent: a name and a balance only, generation
/// zero, no description, URI or services.
pub open spec fn private_agent(
    owner: Seq<u8>,
    name: Seq<char>,
    bump: u8,
    balance: u64,
    now: i64,
) -> AgentAccountView {
    new_agent(
        owner,
        name,
        Seq::<char>::empty(),
        Seq::<char>::empty(),
        Seq::<Seq<char>>::empty(),
        false,
        0,
        bump,
        balance,
        now,
    )
}

impl AgentAccountView {
    /// The bounds on the texts of a stored agent record.
    pub open spec fn within_bounds(self) -> bool {
        registration_error(self.name, self.description, self.agent_uri, self.services) is None
    }

    /// Why this agent refuses a rating, if it does: the rater owns the
    /// agent, the score or the comment is out of bounds, or the new total
    /// would leave the range of a signed 64-bit integer, in this order.
    pub open spec fn rating_refusal(self, rater: Seq<u8>, score: i64, comment: Seq<char>) -> Option<
        AgentRegistryError,
    > {
        if self.authority == rater {
            Some(AgentRegistryError::CannotRateSelf)
        } else if rating_error(score, comment) is Some {
            rating_error(score, comment)
        } else if self.reputation_score + score > i64::MAX || self.reputation_score + score
            < i64::MIN {
            Some(AgentRegistryError::ArithmeticOverflow)
        } else {
            None
        }
    }

    /// This agent with `score` added to its total.
    pub open spec fn rated(self, score: i64) -> AgentAccountView {
        AgentAccountView { reputation_score: (self.reputation_score + score) as i64, ..self }
    }

    /// Why `owner` may not act for this agent, if so.
    pub open spec fn owner_refusal(self, owner: Seq<u8>) -> Option<AgentRegistryError> {
        if self.authority != owner {
            Some(AgentRegistryError::NotAgentOwner)
        } else {
            None
        }
    }

    /// This agent referring to the permission group `group`.
    pub open spec fn linked(self, group: Seq<u8>) -> AgentAccountView {
        AgentAccountView { permission_group: Some(group), ..self }
    }
}

/// The rating that `rater` gives to the agent record at `agent`.
pub open spec fn new_rating(
    agent: Seq<u8>,
    rater: Seq<u8>,
    score: i64,
    comment: Seq<char>,
    bump: u8,
    now: i64,
) -> ReputationRecordView {
    ReputationRecordView { agent, rater, score, comment, timestamp: now, bump }
}

/// Bytes taken by the length-prefixed service names.
pub open spec fn services_space(services: Seq<Seq<char>>) -> nat
    decreases services.len(),
{
    if services.len() == 0 {
        0
    } else {
        services_space(services.drop_last()) + 4 + byte_len(services.last())
    }
}

/// Bytes needed to store an agent record with the given texts.
pub open spec fn agent_space(
    name: Seq<char>,
    description: Seq<char>,
    agent_uri: Seq<char>,
    services: Seq<Seq<char>>,
) -> nat {
    112 + byte_len(name) + byte_len(description) + byte_len(agent_uri) + services_space(services)
}

impl AgentAccount {
    /// Bytes of the fixed-size part of a stored agent record: an 8-byte
    /// prefix, the owner key, four 4-byte length prefixes, two flags, the
    /// optional parent, two 8-byte integers, the generation and the bump.
    pub const BASE_SIZE: usize = 8 + 32 + 4 + 4 + 4 + 4 + 1 + 1 + 1 + 32 + 8 + 8 + 4 + 1;

    /// Longest agent name, in bytes.
    pub const MAX_NAME_LEN: usize = 50;

    /// Longest agent description, in bytes.
    pub const MAX_DESCRIPTION_LEN: usize = 200;

    /// Longest agent URI, in bytes.
    pub const MAX_URI_LEN: usize = 200;

    /// Largest number of services.
    pub const MAX_SERVICES: usize = 10;

    /// Longest service name, in bytes.
    pub const MAX_SERVICE_LEN: usize = 50;

    /// Bytes needed to store an agent record with the given texts.
    pub fn space(name: &str, description: &str, agent_uri: &str, services: &[String]) -> (size:
        usize)
        requires
            agent_space(name@, description@, agent_uri@, texts_view(services@)) <= usize::MAX,
        ensures
            size == agent_space(name@, description@, agent_uri@, texts_view(services@)),
    {
        let ghost texts = texts_view(services@);
        let mut listed: usize = 0;
        let mut i: usize = 0;
        assert(texts.take(0) =~= Seq::<Seq<char>>::empty());
        while i < services.len()
            invariant
                i <= services.len(),
                texts == texts_view(services@),
                listed == services_space(texts.take(i as int)),
                services_space(texts) <= usize::MAX,
            decreases services.len() - i,
        {
            proof {
                lemma_services_space_monotone(texts, i as int + 1);
                assert(texts.take(i as int + 1).drop_last() =~= texts.take(i as int));
                assert(texts.take(i as int + 1).last() == services@[i as int]@);
            }
            listed = listed + 4 + text_len(services[i].as_str());
            i += 1;
        }
        assert(texts.take(i as int) =~= texts);
        Self::BASE_SIZE + text_len(name) + text_len(description) + text_len(agent_uri) + listed
    }

    /// Bytes needed to store an agent record with the given texts, or `None`
    /// where that number does not fit in a `usize`.
    pub fn checked_space(
        name: &str,
        description: &str,
        agent_uri: &str,
        services: &[String],
    ) -> (size: Option<usize>)
        ensures
            match size {
                Some(n) => n == agent_space(name@, description@, agent_uri@, texts_view(services@)),
                None => agent_space(name@, description@, agent_uri@, texts_view(services@))
                    > usize::MAX,
            },
    {
        let ghost texts = texts_view(services@);
        let mut listed: usize = 0;
        let mut i: usize = 0;
        assert(texts.take(0) =~= Seq::<Seq<char>>::empty());
        while i < services.len()
            invariant
                i <= services.len(),
                texts == texts_view(services@),
                listed == services_space(texts.take(i as int)),
            decreases services.len() - i,
        {
            proof {
                lemma_services_space_monotone(texts, i as int + 1);
                assert(texts.take(i as int + 1).drop_last() =~= texts.take(i as int));
                assert(texts.take(i as int + 1).last() == services@[i as int]@);
            }
            let prefixed = match text_len(services[i].as_str()).checked_add(4) {
                None => {
                    return None;
                },
                Some(n) => n,
            };
            listed = match listed.checked_add(prefixed) {
                None => {
                    return None;
                },
                Some(n) => n,
            };
            i += 1;
        }
        assert(texts.take(i as int) =~= texts);
        let fixed = match Self::BASE_SIZE.checked_add(text_len(name)) {
            None => {
                return None;
            },
            Some(n) => n,
        };
        let described = match fixed.checked_add(text_len(description)) {
            None => {
                return None;
            },
            Some(n) => n,
        };
        let located = match described.checked_add(text_len(agent_uri)) {
            None => {
                return None;
            },
            Some(n) => n,
        };
        located.checked_add(listed)
    }
}

/// The space of a prefix of the services never exceeds the space of all.
proof fn lemma_services_space_monotone(texts: Seq<Seq<char>>, n: int)
    requires
        0 <= n <= texts.len(),
    ensures
        services_space(texts.take(n)) <= services_space(texts),
    decreases texts.len() - n,
{
    if n == texts.len() {
        assert(texts.take(n) =~= texts);
    } else {
        lemma_services_space_monotone(texts, n + 1);
        assert(texts.take(n + 1).drop_last() =~= texts.take(n));
    }
}

/// One rater's evaluation of one agent; never changed after creation.
#[derive(Clone, Debug, PartialEq, Eq)]
pub struct ReputationRecord {
    /// Address of the agent record being rated.
    pub agent: Pubkey,
    /// Who gave this rating.
    pub rater: Pubkey,
    /// Score in -100..=100.
    pub score: i64,
    /// Free-text comment.
    pub comment: String,
    /// Timestamp of the rating.
    pub timestamp: i64,
    /// Discriminator found when the record's address was derived.
    pub bump: u8,
}

/// Mathematical view of a [`ReputationRecord`].
pub struct ReputationRecordView {
    pub agent: Seq<u8>,
    pub rater: Seq<u8>,
    pub score: i64,
    pub comment: Seq<char>,
    pub timestamp: i64,
    pub bump: u8,
}

impl View for ReputationRecord {
    type V = ReputationRecordView;

    open spec fn view(&self) -> ReputationRecordView {
        ReputationRecordView {
            agent: self.agent@,
            rater: self.rater@,
            score: self.score,
            comment: self.comment@,
            timestamp: self.timestamp,
            bump: self.bump,
        }
    }
}

/// An optional rating as its view.
pub open spec fn optional_rating_view(rating: Option<&ReputationRecord>) -> Option<
    ReputationRecordView,
> {
    match rating {
        Some(record) => Some(record@),
        None => None,
    }
}

impl ReputationRecordView {
    /// The bounds on the score and comment of a stored rating.
    pub open spec fn within_bounds(self) -> bool {
        rating_error(self.score, self.comment) is None
    }
}

impl ReputationRecord {
    /// Bytes of the fixed-size part of a stored rating: an 8-byte prefix,
    /// two keys, the score, a 4-byte length prefix, the timestamp, the bump.
    pub const BASE_SIZE: usize = 8 + 32 + 32 + 8 + 4 + 8 + 1;

    /// Longest comment, in bytes.
    pub const MAX_COMMENT_LEN: usize = 500;

    /// Bytes needed to store a rating with the given comment.
    pub fn space(comment: &str) -> (size: usize)
        requires
            93 + byte_len(comment@) <= usize::MAX,
        ensures
            size == 93 + byte_len(comment@),
    {
        Self::BASE_SIZE + text_len(comment)
    }

    /// Bytes needed to store a rating with the given comment, or `None`
    /// where that number does not fit in a `usize`.
    pub fn checked_space(comment: &str) -> (size: Option<usize>)
        ensures
            match size {
                Some(n) => n == 93 + byte_len(comment@),
                None => 93 + byte_len(comment@) > usize::MAX,
            },
    {
        Self::BASE_SIZE.checked_add(text_len(comment))
    }
}

/// Adds `score` to `total`, refusing a sum that leaves the range of a signed
/// 64-bit integer: no saturation and no wrap-around.
pub fn checked_total(total: i64, score: i64) -> (r: Result<i64, AgentRegistryError>)
    ensures
        match r {
            Ok(sum) => sum == total + score,
            Err(e) => e == AgentRegistryError::ArithmeticOverflow && (total + score > i64::MAX
                || total + score < i64::MIN),
        },
{
    match total.checked_add(score) {
        Some(sum) => Ok(sum),
        None => Err(AgentRegistryError::ArithmeticOverflow),
    }
}

impl AgentAccount {
    /// The record of a newly registered agent: the inputs as supplied, a
    /// zero score, active, without parent or permission group.
    ///
    /// Fails with the first bound that a text exceeds, in the order name,
    /// description, URI, number of services, service names.
    pub fn create(
        authority: Pubkey,
        name: String,
        description: String,
        agent_uri: String,
        services: Vec<String>,
        x402_support: bool,
        generation: u32,
        bump: u8,
        balance: u64,
        unix_timestamp: i64,
    ) -> (r: Result<AgentAccount, AgentRegistryError>)
        ensures
            match registration_error(name@, description@, agent_uri@, texts_view(services@)) {
                Some(e) => r == Err::<AgentAccount, AgentRegistryError>(e),
                None => r is Ok && r->Ok_0@ == new_agent(
                    authority@,
                    name@,
                    description@,
                    agent_uri@,
                    texts_view(services@),
                    x402_support,
                    generation,
                    bump,
                    balance,
                    unix_timestamp,
                ),
            },
    {
        match check_registration(name.as_str(), description.as_str(), agent_uri.as_str(), &services) {
            Err(e) => Err(e),
            Ok(()) => Ok(
                AgentAccount {
                    authority,
                    name,
                    description,
                    agent_uri,
                    services,
                    x402_support,
                    active: true,
                    parent_agent: None,
                    registered_at: unix_timestamp,
                    reputation_score: 0,
                    generation,
                    bump,
                    balance,
                    permission_group: None,
                },
            ),
        }
    }

    /// The record of a newly created private agent of `owner`: a name and
    /// an initial balance only, generation zero, no description, URI or
    /// services, and no permission group yet.
    ///
    /// Fails where the name is longer than 50 bytes.
    pub fn create_private(
        owner: Pubkey,
        name: String,
        initial_balance: u64,
        bump: u8,
        unix_timestamp: i64,
    ) -> (r: Result<AgentAccount, AgentRegistryError>)
        ensures
            match registration_error(
                name@,
                Seq::<char>::empty(),
                Seq::<char>::empty(),
                Seq::<Seq<char>>::empty(),
            ) {
                Some(e) => r == Err::<AgentAccount, AgentRegistryError>(e),
                None => r is Ok && r->Ok_0@ == private_agent(
                    owner@,
                    name@,
                    bump,
                    initial_balance,
                    unix_timestamp,
                ),
            },
    {
        let services: Vec<String> = Vec::new();
        assert(texts_view(services@) =~= Seq::<Seq<char>>::empty());
        AgentAccount::create(
            owner,
            name,
            String::new(),
            String::new(),
            services,
            false,
            0,
            bump,
            initial_balance,
            unix_timestamp,
        )
    }

    /// Adds the score of a rating by `rater` to this agent's total and
    /// returns the rating record to store; `agent` is the address of this
    /// record.
    ///
    /// Fails, changing nothing, where the rater owns the agent, where the
    /// score is outside -100..=100, where the comment is longer than 500
    /// bytes, or where the total would overflow, in this order.
    pub fn rate(
        &mut self,
        agent: Pubkey,
        rater: Pubkey,
        score: i64,
        comment: String,
        bump: u8,
        unix_timestamp: i64,
    ) -> (r: Result<ReputationRecord, AgentRegistryError>)
        ensures
            match old(self)@.rating_refusal(rater@, score, comment@) {
                Some(e) => r == Err::<ReputationRecord, AgentRegistryError>(e) && *final(self)
                    == *old(self),
                None => r is Ok && r->Ok_0@ == new_rating(
                    agent@,
                    rater@,
                    score,
                    comment@,
                    bump,
                    unix_timestamp,
                ) && final(self)@ == old(self)@.rated(score),
            },
    {
        if self.authority.same(&rater) {
            return Err(AgentRegistryError::CannotRateSelf);
        }
        match check_rating(score, comment.as_str()) {
            Err(e) => {
                return Err(e);
            },
            Ok(()) => {},
        }
        let total = match checked_total(self.reputation_score, score) {
            Err(e) => {
                return Err(e);
            },
            Ok(sum) => sum,
        };
        self.reputation_score = total;
        Ok(ReputationRecord { agent, rater, score, comment, timestamp: unix_timestamp, bump })
    }

    /// Makes this agent refer to the permission group `group` on behalf of
    /// `owner`. Fails, changing nothing, where `owner` does not own it.
    pub fn link_group(&mut self, owner: &Pubkey, group: Pubkey) -> (r: Result<
        (),
        AgentRegistryError,
    >)
        ensures
            match old(self)@.owner_refusal(owner@) {
                Some(e) => r == Err::<(), AgentRegistryError>(e) && *final(self) == *old(self),
                None => r is Ok && final(self)@ == old(self)@.linked(group@),
            },
    {
        if !self.authority.same(owner) {
            return Err(AgentRegistryError::NotAgentOwner);
        }
        self.permission_group = Some(group);
        Ok(())
    }
}

/// Checks the texts of a registration against their bounds.
pub fn check_registration(
    name: &str,
    description: &str,
    agent_uri: &str,
    services: &Vec<String>,
) -> (r: Result<(), AgentRegistryError>)
    ensures
        match registration_error(name@, description@, agent_uri@, texts_view(services@)) {
            Some(e) => r == Err::<(), AgentRegistryError>(e),
            None => r is Ok,
        },
{
    if text_len(name) > AgentAccount::MAX_NAME_LEN {
        return Err(AgentRegistryError::NameTooLong);
    }
    if text_len(description) > AgentAccount::MAX_DESCRIPTION_LEN {
        return Err(AgentRegistryError::DescriptionTooLong);
    }
    if text_len(agent_uri) > AgentAccount::MAX_URI_LEN {
        return Err(AgentRegistryError::UriTooLong);
    }
    if services.len() > AgentAccount::MAX_SERVICES {
        return Err(AgentRegistryError::TooManyServices);
    }
    let ghost texts = texts_view(services@);
    let mut i: usize = 0;
    while i < services.len()
        invariant
            i <= services.len(),
            texts == texts_view(services@),
            byte_len(name@) <= 50,
            byte_len(description@) <= 200,
            byte_len(agent_uri@) <= 200,
            services.len() <= 10,
            forall|j: int| 0 <= j < i ==> byte_len(#[trigger] texts[j]) <= 50,
        decreases services.len() - i,
    {
        if text_len(services[i].as_str()) > AgentAccount::MAX_SERVICE_LEN {
            assert(byte_len(texts[i as int]) > 50);
            return Err(AgentRegistryError::ServiceNameTooLong);
        }
        i += 1;
    }
    Ok(())
}

/// Checks the score and comment of a rating against their bounds.
pub fn check_rating(score: i64, comment: &str) -> (r: Result<(), AgentRegistryError>)
    ensures
        match rating_error(score, comment@) {
            Some(e) => r == Err::<(), AgentRegistryError>(e),
            None => r is Ok,
        },
{
    if score < -100 || score > 100 {
        return Err(AgentRegistryError::InvalidReputationScore);
    }
    if text_len(comment) > ReputationRecord::MAX_COMMENT_LEN {
        return Err(AgentRegistryError::CommentTooLong);
    }
    Ok(())
}

} // verus!
