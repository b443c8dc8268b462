//! The store of agent records and the append-only ledger of ratings, keyed
//! by derived address.
//!
//! Agents and ratings share one address space: a record can be created only
//! at an address that holds no record of either kind, and nothing is ever
//! removed. Every operation either takes full effect or leaves the store as
//! it was.

use crate::errors::AgentRegistryError;
use crate::pubkey::{agent_address, derived_view, reputation_address, Pubkey};
use crate::state::{
    new_agent, new_rating, optional_agent_view, optional_rating_view, registration_error,
    texts_view, AgentAccount, AgentAccountView, ReputationRecord, ReputationRecordView,
};
use vstd::prelude::*;

verus! {

/// A rating together with the address it is stored at.
pub struct RatingEntryView {
    pub address: Seq<u8>,
    pub record: ReputationRecordView,
}

/// Mathematical view of a [`Registry`]: the agent records by address and the
/// ledger of ratings in the order they were given.
pub struct RegistryView {
    pub program_id: Seq<u8>,
    pub agents: Map<Seq<u8>, AgentAccountView>,
    pub ratings: Seq<RatingEntryView>,
}

/// Sum of the scores of the ratings in `ratings` that rate the agent record
/// at `agent`.
pub open spec fn score_sum(ratings: Seq<RatingEntryView>, agent: Seq<u8>) -> int
    decreases ratings.len(),
{
    if ratings.len() == 0 {
        0
    } else {
        score_sum(ratings.drop_last(), agent) + if ratings.last().record.agent == agent {
            ratings.last().record.score as int
        } else {
            0
        }
    }
}

impl RegistryView {
    /// The agent record at `address`, if one exists.
    pub open spec fn agent_at(self, address: Seq<u8>) -> Option<AgentAccountView> {
        if self.agents.contains_key(address) {
            Some(self.agents[address])
        } else {
            None
        }
    }

    /// Whether a rating is stored at `address`.
    pub open spec fn has_rating(self, address: Seq<u8>) -> bool {
        exists|i: int| 0 <= i < self.ratings.len() && (#[trigger] self.ratings[i]).address == address
    }

    /// The rating stored at `address`, if one exists.
    pub open spec fn rating_at(self, address: Seq<u8>) -> Option<ReputationRecordView> {
        if self.has_rating(address) {
            Some(
                self.ratings[choose|i: int|
                    0 <= i < self.ratings.len() && (#[trigger] self.ratings[i]).address
                        == address].record,
            )
        } else {
            None
        }
    }

    /// Whether `address` holds a record of either kind.
    pub open spec fn occupied(self, address: Seq<u8>) -> bool {
        self.agents.contains_key(address) || self.has_rating(address)
    }

    /// What holds of the agent record at `address`: its texts are within
    /// their bounds and its score is the sum of the ratings it received.
    pub open spec fn agent_ok(self, address: Seq<u8>) -> bool {
        &&& self.agents[address].within_bounds()
        &&& self.agents[address].reputation_score == score_sum(self.ratings, address)
    }

    /// What holds of the `i`-th rating of the ledger: it is within its
    /// bounds, rates an existing agent, was not given by that agent's owner,
    /// and does not share its address with an agent record.
    pub open spec fn rating_ok(self, i: int) -> bool {
        let entry = self.ratings[i];
        &&& entry.record.within_bounds()
        &&& self.agents.contains_key(entry.record.agent)
        &&& self.agents[entry.record.agent].authority != entry.record.rater
        &&& !self.agents.contains_key(entry.address)
    }

    /// The invariant of the store.
    pub open spec fn wf(self) -> bool {
        &&& forall|a: Seq<u8>| self.agents.contains_key(a) ==> #[trigger] self.agent_ok(a)
        &&& forall|i: int| 0 <= i < self.ratings.len() ==> #[trigger] self.rating_ok(i)
        &&& forall|i: int, j: int|
            0 <= i < j < self.ratings.len() ==> (#[trigger] self.ratings[i]).address != (
            #[trigger] self.ratings[j]).address
    }

    /// Whether every record is stored at the address, and holds the
    /// discriminator, that the derivation assigns to its keys: an agent
    /// record to its owner, a rating to the rated agent and the rater.
    pub open spec fn addressed_by_derivation(self) -> bool {
        &&& forall|a: Seq<u8>|
            self.agents.contains_key(a) ==> agent_address(
                self.program_id,
                (#[trigger] self.agents[a]).authority,
            ) == Some((a, self.agents[a].bump))
        &&& forall|i: int|
            0 <= i < self.ratings.len() ==> reputation_address(
                self.program_id,
                (#[trigger] self.ratings[i]).record.agent,
                self.ratings[i].record.rater,
            ) == Some((self.ratings[i].address, self.ratings[i].record.bump))
    }

    /// Why creating an agent record at the derived address is refused, if it
    /// is: the derivation failed, the address is occupied, or a text exceeds
    /// its bound, in this order.
    pub open spec fn register_error(
        self,
        derived: Option<(Seq<u8>, u8)>,
        name: Seq<char>,
        description: Seq<char>,
        agent_uri: Seq<char>,
        services: Seq<Seq<char>>,
    ) -> Option<AgentRegistryError> {
        match derived {
            None => Some(AgentRegistryError::AddressDerivationFailed),
            Some((address, _)) => if self.occupied(address) {
                Some(AgentRegistryError::AddressInUse)
            } else {
                registration_error(name, description, agent_uri, services)
            },
        }
    }

    /// The store after an attempt to create `account` at the derived
    /// address: with the record added where the attempt is not refused,
    /// unchanged where it is.
    pub open spec fn register(
        self,
        derived: Option<(Seq<u8>, u8)>,
        account: AgentAccountView,
    ) -> RegistryView {
        if self.register_error(
            derived,
            account.name,
            account.description,
            account.agent_uri,
            account.services,
        ) is None {
            RegistryView { agents: self.agents.insert(derived.unwrap().0, account), ..self }
        } else {
            self
        }
    }

    /// Why a rating is refused, if it is: the agent does not exist, the
    /// rater owns the agent, the derivation failed, the address is occupied,
    /// the score or the comment is out of bounds, or the new total would
    /// leave the range of a signed 64-bit integer, in this order.
    pub open spec fn rate_error(
        self,
        derived: Option<(Seq<u8>, u8)>,
        agent: Seq<u8>,
        rater: Seq<u8>,
        score: i64,
        comment: Seq<char>,
    ) -> Option<AgentRegistryError> {
        if !self.agents.contains_key(agent) {
            Some(AgentRegistryError::AgentNotFound)
        } else if self.agents[agent].authority == rater {
            Some(AgentRegistryError::CannotRateSelf)
        } else {
            match derived {
                None => Some(AgentRegistryError::AddressDerivationFailed),
                Some((address, _)) => if self.occupied(address) {
                    Some(AgentRegistryError::AddressInUse)
                } else {
                    self.agents[agent].rating_refusal(rater, score, comment)
                },
            }
        }
    }

    /// The store after an attempt to rate: with the rating appended to the
    /// ledger and the score added to the agent's total where the attempt is
    /// not refused, unchanged where it is.
    pub open spec fn rate(
        self,
        derived: Option<(Seq<u8>, u8)>,
        agent: Seq<u8>,
        rater: Seq<u8>,
        score: i64,
        comment: Seq<char>,
        now: i64,
    ) -> RegistryView {
        if self.rate_error(derived, agent, rater, score, comment) is None {
            RegistryView {
                agents: self.agents.insert(agent, self.agents[agent].rated(score)),
                ratings: self.ratings.push(
                    RatingEntryView {
                        address: derived.unwrap().0,
                        record: new_rating(agent, rater, score, comment, derived.unwrap().1, now),
                    },
                ),
                ..self
            }
        } else {
            self
        }
    }

    /// Why `owner` may not change the permission group of the agent record
    /// at `agent`, if so: the record does not exist or belongs to another.
    pub open spec fn owner_error(self, agent: Seq<u8>, owner: Seq<u8>) -> Option<
        AgentRegistryError,
    > {
        if !self.agents.contains_key(agent) {
            Some(AgentRegistryError::AgentNotFound)
        } else {
            self.agents[agent].owner_refusal(owner)
        }
    }

    /// The store after an attempt by `owner` to link the agent record at
    /// `agent` to the permission group `group`.
    pub open spec fn link(self, agent: Seq<u8>, owner: Seq<u8>, group: Seq<u8>) -> RegistryView {
        if self.owner_error(agent, owner) is None {
            RegistryView {
                agents: self.agents.insert(agent, self.agents[agent].linked(group)),
                ..self
            }
        } else {
            self
        }
    }
}

/// An agent record together with the address it is stored at.
struct AgentEntry {
    address: Pubkey,
    account: AgentAccount,
}

/// A rating together with the address it is stored at.
struct RatingEntry {
    address: Pubkey,
    record: ReputationRecord,
}

/// The store of agent records and ratings of one program.
pub struct Registry {
    program_id: Pubkey,
    agents: Vec<AgentEntry>,
    ratings: Vec<RatingEntry>,
}

/// Whether no two entries share an address.
spec fn distinct_addresses(entries: Seq<AgentEntry>) -> bool {
    forall|i: int, j: int|
        0 <= i < j < entries.len() ==> (#[trigger] entries[i]).address@ != (
        #[trigger] entries[j]).address@
}

/// Whether an entry is stored at `address`.
spec fn holds_agent(entries: Seq<AgentEntry>, address: Seq<u8>) -> bool {
    exists|i: int| 0 <= i < entries.len() && (#[trigger] entries[i]).address@ == address
}

/// Position of the entry stored at `address`.
spec fn position_of(entries: Seq<AgentEntry>, address: Seq<u8>) -> int {
    choose|i: int| 0 <= i < entries.len() && (#[trigger] entries[i]).address@ == address
}

/// The entries as a map from address to record.
spec fn agents_map(entries: Seq<AgentEntry>) -> Map<Seq<u8>, AgentAccountView> {
    Map::new(
        |a: Seq<u8>| holds_agent(entries, a),
        |a: Seq<u8>| entries[position_of(entries, a)].account@,
    )
}

/// The ledger entries as views.
spec fn ratings_seq(entries: Seq<RatingEntry>) -> Seq<RatingEntryView> {
    Seq::new(
        entries.len(),
        |i: int| RatingEntryView { address: entries[i].address@, record: entries[i].record@ },
    )
}

/// The entry at position `i` is what the map holds at its address.
proof fn lemma_agents_map_at(entries: Seq<AgentEntry>, i: int)
    requires
        distinct_addresses(entries),
        0 <= i < entries.len(),
    ensures
        agents_map(entries).contains_key(entries[i].address@),
        agents_map(entries)[entries[i].address@] == entries[i].account@,
        position_of(entries, entries[i].address@) == i,
{
    let a = entries[i].address@;
    assert(holds_agent(entries, a));
    let p = position_of(entries, a);
    assert(0 <= p < entries.len() && entries[p].address@ == a);
    if p < i {
        assert(entries[p].address@ != entries[i].address@);
    } else if i < p {
        assert(entries[i].address@ != entries[p].address@);
    }
}

/// Adding an entry at a fresh address inserts its record into the map.
proof fn lemma_agents_map_push(entries: Seq<AgentEntry>, entry: AgentEntry)
    requires
        distinct_addresses(entries),
        !holds_agent(entries, entry.address@),
    ensures
        distinct_addresses(entries.push(entry)),
        agents_map(entries.push(entry)) == agents_map(entries).insert(
            entry.address@,
            entry.account@,
        ),
{
    let after = entries.push(entry);
    assert forall|i: int, j: int| 0 <= i < j < after.len() implies (#[trigger] after[i]).address@
        != (#[trigger] after[j]).address@ by {
        if j == entries.len() {
            assert(after[i] == entries[i]);
            assert(!holds_agent(entries, entry.address@));
        } else {
            assert(after[i] == entries[i]);
            assert(after[j] == entries[j]);
        }
    }
    let lhs = agents_map(after);
    let rhs = agents_map(entries).insert(entry.address@, entry.account@);
    assert forall|a: Seq<u8>| lhs.contains_key(a) <==> rhs.contains_key(a) by {
        if holds_agent(after, a) {
            let i = position_of(after, a);
            if i < entries.len() {
                assert(entries[i].address@ == a);
            }
        }
        if holds_agent(entries, a) {
            let i = position_of(entries, a);
            assert(after[i].address@ == a);
        }
        if a == entry.address@ {
            assert(after[entries.len() as int].address@ == a);
        }
    }
    assert forall|a: Seq<u8>| lhs.contains_key(a) implies lhs[a] == rhs[a] by {
        let i = position_of(after, a);
        lemma_agents_map_at(after, i);
        if i < entries.len() {
            assert(after[i] == entries[i]);
            lemma_agents_map_at(entries, i);
        }
    }
    assert(lhs =~= rhs);
}

/// Replacing the record of an entry replaces it in the map.
proof fn lemma_agents_map_update(entries: Seq<AgentEntry>, i: int, entry: AgentEntry)
    requires
        distinct_addresses(entries),
        0 <= i < entries.len(),
        entry.address@ == entries[i].address@,
    ensures
        distinct_addresses(entries.update(i, entry)),
        agents_map(entries.update(i, entry)) == agents_map(entries).insert(
            entry.address@,
            entry.account@,
        ),
{
    let after = entries.update(i, entry);
    assert forall|x: int, y: int| 0 <= x < y < after.len() implies (#[trigger] after[x]).address@
        != (#[trigger] after[y]).address@ by {
        assert(after[x].address@ == entries[x].address@);
        assert(after[y].address@ == entries[y].address@);
    }
    let lhs = agents_map(after);
    let rhs = agents_map(entries).insert(entry.address@, entry.account@);
    assert forall|a: Seq<u8>| lhs.contains_key(a) <==> rhs.contains_key(a) by {
        if holds_agent(after, a) {
            let p = position_of(after, a);
            assert(entries[p].address@ == a);
        }
        if holds_agent(entries, a) {
            let p = position_of(entries, a);
            assert(after[p].address@ == a);
        }
        if a == entry.address@ {
            assert(after[i].address@ == a);
        }
    }
    assert forall|a: Seq<u8>| lhs.contains_key(a) implies lhs[a] == rhs[a] by {
        let p = position_of(after, a);
        lemma_agents_map_at(after, p);
        if p != i {
            assert(after[p] == entries[p]);
            lemma_agents_map_at(entries, p);
        }
    }
    assert(lhs =~= rhs);
}

/// A ledger without a rating of `agent` sums to zero for it.
pub proof fn lemma_score_sum_unrated(ratings: Seq<RatingEntryView>, agent: Seq<u8>)
    requires
        forall|i: int| 0 <= i < ratings.len() ==> (#[trigger] ratings[i]).record.agent != agent,
    ensures
        score_sum(ratings, agent) == 0,
    decreases ratings.len(),
{
    if ratings.len() > 0 {
        let front = ratings.drop_last();
        assert forall|i: int| 0 <= i < front.len() implies (#[trigger] front[i]).record.agent
            != agent by {
            assert(front[i] == ratings[i]);
        }
        lemma_score_sum_unrated(front, agent);
        assert(ratings.last() == ratings[ratings.len() - 1]);
    }
}

/// Appending a rating adds its score to the sum of the agent it rates and
/// to no other.
pub proof fn lemma_score_sum_push(
    ratings: Seq<RatingEntryView>,
    entry: RatingEntryView,
    agent: Seq<u8>,
)
    ensures
        score_sum(ratings.push(entry), agent) == score_sum(ratings, agent) + if entry.record.agent
            == agent {
            entry.record.score as int
        } else {
            0
        },
{
    assert(ratings.push(entry).drop_last() =~= ratings);
    assert(ratings.push(entry).last() == entry);
}


impl RegistryView {
    /// Creating an agent record with a zero score preserves the invariant.
    pub proof fn lemma_register_preserves_wf(
        self,
        derived: Option<(Seq<u8>, u8)>,
        account: AgentAccountView,
    )
        requires
            self.wf(),
            account.reputation_score == 0,
        ensures
            self.register(derived, account).wf(),
    {
        let after = self.register(derived, account);
        if self.register_error(
            derived,
            account.name,
            account.description,
            account.agent_uri,
            account.services,
        ) is None {
            let address = derived.unwrap().0;
            assert(!self.occupied(address));
            assert forall|i: int| 0 <= i < self.ratings.len() implies (
            #[trigger] self.ratings[i]).record.agent != address by {
                assert(self.rating_ok(i));
            }
            lemma_score_sum_unrated(self.ratings, address);
            assert forall|a: Seq<u8>| after.agents.contains_key(a) implies #[trigger] after.agent_ok(
                a,
            ) by {
                if a != address {
                    assert(self.agent_ok(a));
                }
            }
            assert forall|i: int| 0 <= i < after.ratings.len() implies #[trigger] after.rating_ok(
                i,
            ) by {
                assert(self.rating_ok(i));
                assert(self.ratings[i].address != address);
            }
        }
    }

    /// Rating preserves the invariant.
    pub proof fn lemma_rate_preserves_wf(
        self,
        derived: Option<(Seq<u8>, u8)>,
        agent: Seq<u8>,
        rater: Seq<u8>,
        score: i64,
        comment: Seq<char>,
        now: i64,
    )
        requires
            self.wf(),
        ensures
            self.rate(derived, agent, rater, score, comment, now).wf(),
    {
        let after = self.rate(derived, agent, rater, score, comment, now);
        if self.rate_error(derived, agent, rater, score, comment) is None {
            let address = derived.unwrap().0;
            let entry = after.ratings[self.ratings.len() as int];
            assert(after.ratings == self.ratings.push(entry));
            assert(!self.occupied(address));
            assert forall|a: Seq<u8>| after.agents.contains_key(a) implies #[trigger] after.agent_ok(
                a,
            ) by {
                assert(self.agent_ok(a));
                lemma_score_sum_push(self.ratings, entry, a);
            }
            assert forall|i: int| 0 <= i < after.ratings.len() implies #[trigger] after.rating_ok(
                i,
            ) by {
                if i < self.ratings.len() {
                    assert(self.rating_ok(i));
                    assert(after.ratings[i] == self.ratings[i]);
                }
            }
            assert forall|i: int, j: int| 0 <= i < j < after.ratings.len() implies (
            #[trigger] after.ratings[i]).address != (#[trigger] after.ratings[j]).address by {
                assert(after.ratings[i] == self.ratings[i]);
                if j < self.ratings.len() {
                    assert(after.ratings[j] == self.ratings[j]);
                }
            }
        }
    }

    /// Linking an agent to a permission group preserves the invariant.
    pub proof fn lemma_link_preserves_wf(self, agent: Seq<u8>, owner: Seq<u8>, group: Seq<u8>)
        requires
            self.wf(),
        ensures
            self.link(agent, owner, group).wf(),
    {
        let after = self.link(agent, owner, group);
        if self.owner_error(agent, owner) is None {
            assert forall|a: Seq<u8>| after.agents.contains_key(a) implies #[trigger] after.agent_ok(
                a,
            ) by {
                assert(self.agent_ok(a));
            }
            assert forall|i: int| 0 <= i < after.ratings.len() implies #[trigger] after.rating_ok(
                i,
            ) by {
                assert(self.rating_ok(i));
            }
        }
    }
}

impl View for Registry {
    type V = RegistryView;

    closed spec fn view(&self) -> RegistryView {
        RegistryView {
            program_id: self.program_id@,
            agents: agents_map(self.agents@),
            ratings: ratings_seq(self.ratings@),
        }
    }
}

impl Registry {
    /// Whether the stored entries are consistent with the view: no two agent
    /// entries share an address.
    pub closed spec fn well_stored(&self) -> bool {
        distinct_addresses(self.agents@)
    }

    /// The invariant that every operation expects and re-establishes.
    pub open spec fn inv(&self) -> bool {
        self.well_stored() && self@.wf()
    }

    /// An empty registry for the program `program_id`.
    pub fn new(program_id: Pubkey) -> (registry: Registry)
        ensures
            registry.inv(),
            registry@.program_id == program_id@,
            registry@.agents == Map::<Seq<u8>, AgentAccountView>::empty(),
            registry@.ratings == Seq::<RatingEntryView>::empty(),
    {
        let registry = Registry { program_id, agents: Vec::new(), ratings: Vec::new() };
        assert(registry@.agents =~= Map::<Seq<u8>, AgentAccountView>::empty());
        assert(registry@.ratings =~= Seq::<RatingEntryView>::empty());
        registry
    }

    /// The program whose records this registry holds.
    pub fn program_id(&self) -> (id: Pubkey)
        ensures
            id@ == self@.program_id,
    {
        self.program_id
    }

    /// Number of ratings in the ledger.
    pub fn rating_count(&self) -> (count: usize)
        ensures
            count == self@.ratings.len(),
    {
        self.ratings.len()
    }

    /// Position of the agent entry stored at `address`.
    fn find_agent(&self, address: &Pubkey) -> (found: Option<usize>)
        requires
            self.well_stored(),
        ensures
            match found {
                Some(i) => i < self.agents@.len() && self.agents@[i as int].address@ == address@
                    && self@.agents.contains_key(address@) && self@.agents[address@]
                    == self.agents@[i as int].account@,
                None => !self@.agents.contains_key(address@),
            },
    {
        let mut i: usize = 0;
        while i < self.agents.len()
            invariant
                i <= self.agents@.len(),
                self.well_stored(),
                forall|j: int| 0 <= j < i ==> (#[trigger] self.agents@[j]).address@ != address@,
            decreases self.agents@.len() - i,
        {
            if self.agents[i].address.same(address) {
                proof {
                    lemma_agents_map_at(self.agents@, i as int);
                }
                return Some(i);
            }
            i += 1;
        }
        assert(!holds_agent(self.agents@, address@));
        None
    }

    /// Position of the rating stored at `address`.
    fn find_rating(&self, address: &Pubkey) -> (found: Option<usize>)
        ensures
            match found {
                Some(i) => i < self@.ratings.len() && self@.ratings[i as int].address == address@
                    && self@.ratings[i as int].record == self.ratings@[i as int].record@,
                None => !self@.has_rating(address@),
            },
    {
        let mut i: usize = 0;
        while i < self.ratings.len()
            invariant
                i <= self.ratings@.len(),
                forall|j: int| 0 <= j < i ==> (#[trigger] self@.ratings[j]).address != address@,
            decreases self.ratings@.len() - i,
        {
            if self.ratings[i].address.same(address) {
                return Some(i);
            }
            i += 1;
        }
        None
    }

    /// Whether `address` holds a record of either kind.
    pub fn is_occupied(&self, address: &Pubkey) -> (occupied: bool)
        requires
            self.inv(),
        ensures
            occupied == self@.occupied(address@),
    {
        match self.find_agent(address) {
            Some(_) => true,
            None => match self.find_rating(address) {
                Some(_) => true,
                None => false,
            },
        }
    }

    /// The agent record at `address`, if one exists. Nothing is changed.
    pub fn read_agent(&self, address: &Pubkey) -> (found: Option<&AgentAccount>)
        requires
            self.inv(),
        ensures
            optional_agent_view(found) == self@.agent_at(address@),
    {
        match self.find_agent(address) {
            Some(i) => Some(&self.agents[i].account),
            None => None,
        }
    }

    /// The rating stored at `address`, if one exists. Nothing is changed.
    pub fn read_rating(&self, address: &Pubkey) -> (found: Option<&ReputationRecord>)
        requires
            self.inv(),
        ensures
            optional_rating_view(found) == self@.rating_at(address@),
    {
        match self.find_rating(address) {
            Some(i) => {
                let ghost chosen = choose|j: int|
                    0 <= j < self@.ratings.len() && (#[trigger] self@.ratings[j]).address
                        == address@;
                assert(chosen == i) by {
                    if chosen < i {
                        assert(self@.ratings[chosen].address != self@.ratings[i as int].address);
                    } else if i < chosen {
                        assert(self@.ratings[i as int].address != self@.ratings[chosen].address);
                    }
                }
                Some(&self.ratings[i].record)
            },
            None => None,
        }
    }

    /// Stores `account` at the unoccupied address `address`.
    fn insert_agent(&mut self, address: Pubkey, bump: u8, account: AgentAccount)
        requires
            old(self).inv(),
            old(self)@.register_error(
                Some((address@, bump)),
                account@.name,
                account@.description,
                account@.agent_uri,
                account@.services,
            ) is None,
            account@.reputation_score == 0,
        ensures
            final(self).inv(),
            final(self)@ == old(self)@.register(Some((address@, bump)), account@),
    {
        let entry = AgentEntry { address, account };
        proof {
            assert(!holds_agent(self.agents@, address@));
            lemma_agents_map_push(self.agents@, entry);
            self@.lemma_register_preserves_wf(Some((address@, bump)), account@);
        }
        self.agents.push(entry);
    }

    /// Creates the agent record of `authority` at the derived address.
    ///
    /// The attempt is refused, and the registry left as it was, where the
    /// derivation failed, where the address already holds a record, or where
    /// a text exceeds its bound. Otherwise the new record holds the inputs,
    /// a zero score, no parent and no permission group, and is active; the
    /// address is returned.
    pub fn register(
        &mut self,
        derived: Option<(Pubkey, u8)>,
        authority: Pubkey,
        name: String,
        description: String,
        agent_uri: String,
        services: Vec<String>,
        x402_support: bool,
        generation: u32,
        balance: u64,
        unix_timestamp: i64,
    ) -> (r: Result<Pubkey, AgentRegistryError>)
        requires
            old(self).inv(),
        ensures
            final(self).inv(),
            match old(self)@.register_error(
                derived_view(derived),
                name@,
                description@,
                agent_uri@,
                texts_view(services@),
            ) {
                Some(e) => r == Err::<Pubkey, AgentRegistryError>(e) && final(self)@ == old(self)@,
                None => r is Ok && r->Ok_0@ == derived_view(derived).unwrap().0 && final(self)@
                    == old(self)@.register(
                    derived_view(derived),
                    new_agent(
                        authority@,
                        name@,
                        description@,
                        agent_uri@,
                        texts_view(services@),
                        x402_support,
                        generation,
                        derived_view(derived).unwrap().1,
                        balance,
                        unix_timestamp,
                    ),
                ),
            },
    {
        let (address, bump) = match derived {
            None => {
                return Err(AgentRegistryError::AddressDerivationFailed);
            },
            Some(found) => found,
        };
        if self.is_occupied(&address) {
            return Err(AgentRegistryError::AddressInUse);
        }
        match AgentAccount::create(
            authority,
            name,
            description,
            agent_uri,
            services,
            x402_support,
            generation,
            bump,
            balance,
            unix_timestamp,
        ) {
            Err(e) => Err(e),
            Ok(account) => {
                self.insert_agent(address, bump, account);
                Ok(address)
            },
        }
    }

    /// Records the rating that `rater` gives to the agent record at `agent`
    /// and adds its score to the agent's total.
    ///
    /// The attempt is refused, and the registry left as it was, where the
    /// agent does not exist, where the rater owns the agent, where the
    /// derivation failed, where the derived address already holds a record,
    /// where the score or the comment is out of bounds, or where the new
    /// total would overflow. Otherwise the rating's address and the agent's
    /// new total are returned.
    pub fn rate(
        &mut self,
        derived: Option<(Pubkey, u8)>,
        agent: Pubkey,
        rater: Pubkey,
        score: i64,
        comment: String,
        unix_timestamp: i64,
    ) -> (r: Result<(Pubkey, i64), AgentRegistryError>)
        requires
            old(self).inv(),
        ensures
            final(self).inv(),
            final(self)@ == old(self)@.rate(
                derived_view(derived),
                agent@,
                rater@,
                score,
                comment@,
                unix_timestamp,
            ),
            match old(self)@.rate_error(derived_view(derived), agent@, rater@, score, comment@) {
                Some(e) => r == Err::<(Pubkey, i64), AgentRegistryError>(e),
                None => {
                    &&& r is Ok
                    &&& r->Ok_0.0@ == derived_view(derived).unwrap().0
                    &&& r->Ok_0.1 == old(self)@.agents[agent@].reputation_score + score
                    &&& final(self)@.has_rating(r->Ok_0.0@)
                },
            },
    {
        let position = match self.find_agent(&agent) {
            None => {
                return Err(AgentRegistryError::AgentNotFound);
            },
            Some(i) => i,
        };
        if self.agents[position].account.authority.same(&rater) {
            return Err(AgentRegistryError::CannotRateSelf);
        }
        let (address, bump) = match derived {
            None => {
                return Err(AgentRegistryError::AddressDerivationFailed);
            },
            Some(found) => found,
        };
        if self.is_occupied(&address) {
            return Err(AgentRegistryError::AddressInUse);
        }
        let ghost before = *self;
        let ghost expected = self@.rate(
            derived_view(derived),
            agent@,
            rater@,
            score,
            comment@,
            unix_timestamp,
        );
        proof {
            self@.lemma_rate_preserves_wf(
                derived_view(derived),
                agent@,
                rater@,
                score,
                comment@,
                unix_timestamp,
            );
        }
        let record = match self.agents[position].account.rate(
            agent,
            rater,
            score,
            comment,
            bump,
            unix_timestamp,
        ) {
            Err(e) => {
                assert(self.agents@ =~= before.agents@);
                return Err(e);
            },
            Ok(record) => record,
        };
        let total = self.agents[position].account.reputation_score;
        self.ratings.push(RatingEntry { address, record });
        proof {
            lemma_agents_map_update(before.agents@, position as int, self.agents@[position as int]);
            assert(self.agents@ =~= before.agents@.update(
                position as int,
                self.agents@[position as int],
            ));
            assert(self@.ratings =~= expected.ratings);
            assert(self@.agents =~= expected.agents);
            assert(self@.ratings[before.ratings@.len() as int].address == address@);
        }
        Ok((address, total))
    }

    /// Links the agent record at `agent` to the permission group `group` on
    /// behalf of `owner`.
    ///
    /// The attempt is refused, and the registry left as it was, where the
    /// agent does not exist or `owner` is not its owner.
    pub fn link_permission_group(&mut self, agent: &Pubkey, owner: &Pubkey, group: Pubkey) -> (r:
        Result<(), AgentRegistryError>)
        requires
            old(self).inv(),
        ensures
            final(self).inv(),
            final(self)@ == old(self)@.link(agent@, owner@, group@),
            match old(self)@.owner_error(agent@, owner@) {
                Some(e) => r == Err::<(), AgentRegistryError>(e),
                None => r is Ok,
            },
    {
        let position = match self.find_agent(agent) {
            None => {
                return Err(AgentRegistryError::AgentNotFound);
            },
            Some(i) => i,
        };
        let ghost before = *self;
        let ghost expected = self@.link(agent@, owner@, group@);
        proof {
            self@.lemma_link_preserves_wf(agent@, owner@, group@);
        }
        match self.agents[position].account.link_group(owner, group) {
            Err(e) => {
                assert(self.agents@ =~= before.agents@);
                return Err(e);
            },
            Ok(()) => {},
        }
        proof {
            lemma_agents_map_update(before.agents@, position as int, self.agents@[position as int]);
            assert(self.agents@ =~= before.agents@.update(
                position as int,
                self.agents@[position as int],
            ));
            assert(self@.agents =~= expected.agents);
        }
        Ok(())
    }
}

} // verus!
