use agent_registry::errors::{AgentRegistryError, ErrorKind};
use agent_registry::instructions::register_agent::RegisterAgent;
use agent_registry::instructions::update_reputation::{ReputationUpdatedEvent, UpdateReputation};
use agent_registry::pubkey::{find_reputation_address, Pubkey};
use agent_registry::registry::Registry;
use agent_registry::state::{check_rating, checked_total, ReputationRecord};
use agent_registry::{register_agent, update_reputation};

fn key(fill: u8) -> Pubkey {
    Pubkey::new_from_array([fill; 32])
}

fn program() -> Pubkey {
    key(200)
}

fn registry_with_agent(owner: Pubkey) -> (Registry, Pubkey) {
    let mut registry = Registry::new(program());
    let event = register_agent(
        &mut registry,
        &RegisterAgent { authority: owner },
        "Scout".to_string(),
        String::new(),
        String::new(),
        Vec::new(),
        false,
        0,
        1_700_000_000,
    )
    .unwrap();
    (registry, event.agent)
}

fn rate(
    registry: &mut Registry,
    agent: Pubkey,
    rater: Pubkey,
    score: i64,
    comment: &str,
) -> Result<ReputationUpdatedEvent, AgentRegistryError> {
    update_reputation(
        registry,
        &UpdateReputation { agent_account: agent, rater },
        score,
        comment.to_string(),
        1_700_000_500,
    )
}

fn score_of(registry: &Registry, agent: &Pubkey) -> i64 {
    registry.read_agent(agent).unwrap().reputation_score
}

#[test]
fn scout_is_rated_by_two_raters() {
    let o1 = key(1);
    let r1 = key(11);
    let r2 = key(12);
    let (mut registry, agent) = registry_with_agent(o1);
    assert_eq!(score_of(&registry, &agent), 0);

    let first = rate(&mut registry, agent, r1, 42, "good").unwrap();
    assert_eq!(first.new_total_score, 42);
    assert_eq!(score_of(&registry, &agent), 42);

    let again = rate(&mut registry, agent, r1, 5, "again");
    assert_eq!(again, Err(AgentRegistryError::AddressInUse));
    assert_eq!(score_of(&registry, &agent), 42);

    let second = rate(&mut registry, agent, r2, -10, "meh").unwrap();
    assert_eq!(second.new_total_score, 32);
    assert_eq!(score_of(&registry, &agent), 32);
    assert_eq!(registry.rating_count(), 2);
}

#[test]
fn rating_is_stored_at_the_address_of_the_pair() {
    let (mut registry, agent) = registry_with_agent(key(1));
    let rater = key(11);
    let event = rate(&mut registry, agent, rater, 42, "good").unwrap();
    assert_eq!(
        event,
        ReputationUpdatedEvent {
            agent,
            rater,
            score: 42,
            new_total_score: 42,
            timestamp: 1_700_000_500,
        }
    );
    let (address, bump) = find_reputation_address(&program(), &agent, &rater).unwrap();
    assert_eq!(
        *registry.read_rating(&address).unwrap(),
        ReputationRecord {
            agent,
            rater,
            score: 42,
            comment: "good".to_string(),
            timestamp: 1_700_000_500,
            bump,
        }
    );
    assert!(registry.is_occupied(&address));
    assert!(registry.read_agent(&address).is_none());
}

#[test]
fn second_rating_by_the_same_rater_is_a_conflict() {
    let (mut registry, agent) = registry_with_agent(key(1));
    rate(&mut registry, agent, key(11), 7, "").unwrap();
    let again = rate(&mut registry, agent, key(11), 500, &"c".repeat(600));
    assert_eq!(again, Err(AgentRegistryError::AddressInUse));
    assert_eq!(again.unwrap_err().kind(), ErrorKind::Conflict);
    assert_eq!(score_of(&registry, &agent), 7);
    assert_eq!(registry.rating_count(), 1);
}

#[test]
fn one_rater_may_rate_several_agents() {
    let mut registry = Registry::new(program());
    let mut agents = Vec::new();
    for owner in [1u8, 2, 3] {
        let event = register_agent(
            &mut registry,
            &RegisterAgent { authority: key(owner) },
            "agent".to_string(),
            String::new(),
            String::new(),
            Vec::new(),
            false,
            0,
            1,
        )
        .unwrap();
        agents.push(event.agent);
    }
    for (i, agent) in agents.iter().enumerate() {
        rate(&mut registry, *agent, key(11), 10 * (i as i64 + 1), "").unwrap();
    }
    assert_eq!(score_of(&registry, &agents[0]), 10);
    assert_eq!(score_of(&registry, &agents[1]), 20);
    assert_eq!(score_of(&registry, &agents[2]), 30);
}

#[test]
fn self_rating_is_refused_for_every_score_and_comment() {
    let owner = key(1);
    let (mut registry, agent) = registry_with_agent(owner);
    for score in [0i64, 1, -1, 100, -100, 101, -101, i64::MAX, i64::MIN] {
        for comment in ["", "fine", &"c".repeat(501)] {
            let r = rate(&mut registry, agent, owner, score, comment);
            assert_eq!(r, Err(AgentRegistryError::CannotRateSelf));
            assert_eq!(r.unwrap_err().kind(), ErrorKind::Authorization);
        }
    }
    assert_eq!(score_of(&registry, &agent), 0);
    assert_eq!(registry.rating_count(), 0);
}

#[test]
fn rating_of_an_unknown_agent_is_refused() {
    let (mut registry, _agent) = registry_with_agent(key(1));
    let r = rate(&mut registry, key(77), key(11), 1, "");
    assert_eq!(r, Err(AgentRegistryError::AgentNotFound));
    assert_eq!(r.unwrap_err().kind(), ErrorKind::NotFound);
    assert_eq!(registry.rating_count(), 0);
}

#[test]
fn score_is_the_sum_of_all_ratings() {
    let (mut registry, agent) = registry_with_agent(key(1));
    let scores = [100i64, -100, 37, -3, 0, 99, -58, 1];
    let mut sum = 0;
    for (i, score) in scores.iter().enumerate() {
        let event = rate(&mut registry, agent, key(20 + i as u8), *score, "").unwrap();
        sum += *score;
        assert_eq!(event.new_total_score, sum);
        assert_eq!(score_of(&registry, &agent), sum);
    }
    assert_eq!(sum, 76);
    assert_eq!(registry.rating_count(), scores.len());
}

#[test]
fn score_limits_are_inclusive() {
    assert_eq!(check_rating(100, ""), Ok(()));
    assert_eq!(check_rating(-100, ""), Ok(()));
    assert_eq!(check_rating(101, ""), Err(AgentRegistryError::InvalidReputationScore));
    assert_eq!(check_rating(-101, ""), Err(AgentRegistryError::InvalidReputationScore));
    assert_eq!(check_rating(i64::MIN, ""), Err(AgentRegistryError::InvalidReputationScore));
}

#[test]
fn comment_bound_is_five_hundred_bytes() {
    assert_eq!(check_rating(0, &"c".repeat(500)), Ok(()));
    assert_eq!(check_rating(0, &"c".repeat(501)), Err(AgentRegistryError::CommentTooLong));
    assert_eq!(check_rating(0, &"é".repeat(251)), Err(AgentRegistryError::CommentTooLong));
    assert_eq!(
        check_rating(101, &"c".repeat(501)),
        Err(AgentRegistryError::InvalidReputationScore)
    );
}

#[test]
fn refused_rating_changes_nothing() {
    let (mut registry, agent) = registry_with_agent(key(1));
    rate(&mut registry, agent, key(11), 10, "").unwrap();
    assert_eq!(
        rate(&mut registry, agent, key(12), 101, ""),
        Err(AgentRegistryError::InvalidReputationScore)
    );
    assert_eq!(
        rate(&mut registry, agent, key(12), 5, &"c".repeat(501)),
        Err(AgentRegistryError::CommentTooLong)
    );
    assert_eq!(score_of(&registry, &agent), 10);
    assert_eq!(registry.rating_count(), 1);
    let (address, _) = find_reputation_address(&program(), &agent, &key(12)).unwrap();
    assert!(!registry.is_occupied(&address));
    assert_eq!(rate(&mut registry, agent, key(12), 5, "").unwrap().new_total_score, 15);
}

#[test]
fn rating_at_an_agent_address_is_a_conflict() {
    let (mut registry, agent) = registry_with_agent(key(1));
    let r = registry.rate(Some((agent, 255)), agent, key(11), 5, String::new(), 9);
    assert_eq!(r, Err(AgentRegistryError::AddressInUse));
    assert_eq!(score_of(&registry, &agent), 0);
}

#[test]
fn registration_at_a_rating_address_is_a_conflict() {
    let (mut registry, agent) = registry_with_agent(key(1));
    let (rating, total) = registry
        .rate(Some((key(90), 255)), agent, key(11), 5, String::new(), 9)
        .unwrap();
    assert_eq!(rating, key(90));
    assert_eq!(total, 5);
    let r = registry.register(
        Some((key(90), 254)),
        key(2),
        "B".to_string(),
        String::new(),
        String::new(),
        Vec::new(),
        false,
        0,
        0,
        9,
    );
    assert_eq!(r, Err(AgentRegistryError::AddressInUse));
}

#[test]
fn rating_without_an_address_fails() {
    let (mut registry, agent) = registry_with_agent(key(1));
    let r = registry.rate(None, agent, key(11), 5, String::new(), 9);
    assert_eq!(r, Err(AgentRegistryError::AddressDerivationFailed));
    assert_eq!(score_of(&registry, &agent), 0);
}

#[test]
fn totals_are_added_exactly_or_not_at_all() {
    assert_eq!(checked_total(42, -10), Ok(32));
    assert_eq!(checked_total(i64::MAX - 100, 100), Ok(i64::MAX));
    assert_eq!(checked_total(i64::MIN + 100, -100), Ok(i64::MIN));
    assert_eq!(checked_total(i64::MAX - 99, 100), Err(AgentRegistryError::ArithmeticOverflow));
    assert_eq!(checked_total(i64::MAX, 1), Err(AgentRegistryError::ArithmeticOverflow));
    assert_eq!(checked_total(i64::MIN, -1), Err(AgentRegistryError::ArithmeticOverflow));
    assert_eq!(AgentRegistryError::ArithmeticOverflow.kind(), ErrorKind::Arithmetic);
}
