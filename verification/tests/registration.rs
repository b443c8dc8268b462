use agent_registry::errors::{AgentRegistryError, ErrorKind};
use agent_registry::instructions::register_agent::{AgentRegisteredEvent, RegisterAgent};
use agent_registry::pubkey::{find_agent_address, Pubkey};
use agent_registry::register_agent;
use agent_registry::registry::Registry;
use agent_registry::state::{check_registration, text_len, AgentAccount, ReputationRecord};

fn key(fill: u8) -> Pubkey {
    Pubkey::new_from_array([fill; 32])
}

fn program() -> Pubkey {
    key(200)
}

fn text(len: usize) -> String {
    "x".repeat(len)
}

fn register_named(
    registry: &mut Registry,
    owner: Pubkey,
    name: &str,
) -> Result<AgentRegisteredEvent, AgentRegistryError> {
    register_agent(
        registry,
        &RegisterAgent { authority: owner },
        name.to_string(),
        String::new(),
        String::new(),
        Vec::new(),
        false,
        0,
        1_700_000_000,
    )
}

#[test]
fn register_then_read_returns_the_inputs() {
    let mut registry = Registry::new(program());
    let owner = key(1);
    let services = vec!["search".to_string(), "summarize".to_string()];
    let event = register_agent(
        &mut registry,
        &RegisterAgent { authority: owner },
        "Scout".to_string(),
        "Finds things".to_string(),
        "https://example.org/scout.json".to_string(),
        services.clone(),
        true,
        3,
        1_700_000_123,
    )
    .unwrap();
    let (address, bump) = find_agent_address(&program(), &owner).unwrap();
    assert_eq!(
        event,
        AgentRegisteredEvent {
            agent: address,
            authority: owner,
            name: "Scout".to_string(),
            generation: 3,
            timestamp: 1_700_000_123,
        }
    );
    let record = registry.read_agent(&address).unwrap();
    assert_eq!(
        *record,
        AgentAccount {
            authority: owner,
            name: "Scout".to_string(),
            description: "Finds things".to_string(),
            agent_uri: "https://example.org/scout.json".to_string(),
            services,
            x402_support: true,
            active: true,
            parent_agent: None,
            registered_at: 1_700_000_123,
            reputation_score: 0,
            generation: 3,
            bump,
            balance: 0,
            permission_group: None,
        }
    );
}

#[test]
fn read_of_an_unknown_address_finds_nothing() {
    let mut registry = Registry::new(program());
    assert!(registry.read_agent(&key(1)).is_none());
    register_named(&mut registry, key(1), "Scout").unwrap();
    assert!(registry.read_agent(&key(1)).is_none());
    assert!(registry.read_rating(&key(1)).is_none());
    assert!(!registry.is_occupied(&key(1)));
}

#[test]
fn second_registration_of_an_owner_is_a_conflict() {
    let mut registry = Registry::new(program());
    let owner = key(1);
    let first = register_named(&mut registry, owner, "Scout").unwrap();
    let before = registry.read_agent(&first.agent).unwrap().clone();
    let second = register_agent(
        &mut registry,
        &RegisterAgent { authority: owner },
        "Another".to_string(),
        "other".to_string(),
        "other".to_string(),
        vec!["s".to_string()],
        true,
        9,
        1_700_000_999,
    );
    assert_eq!(second, Err(AgentRegistryError::AddressInUse));
    assert_eq!(second.unwrap_err().kind(), ErrorKind::Conflict);
    assert_eq!(*registry.read_agent(&first.agent).unwrap(), before);
}

#[test]
fn conflict_is_reported_before_any_bound() {
    let mut registry = Registry::new(program());
    register_named(&mut registry, key(1), "Scout").unwrap();
    let again = register_named(&mut registry, key(1), &text(51));
    assert_eq!(again, Err(AgentRegistryError::AddressInUse));
}

#[test]
fn different_owners_register_side_by_side() {
    let mut registry = Registry::new(program());
    let a = register_named(&mut registry, key(1), "A").unwrap();
    let b = register_named(&mut registry, key(2), "B").unwrap();
    assert_ne!(a.agent, b.agent);
    assert_eq!(registry.read_agent(&a.agent).unwrap().name, "A");
    assert_eq!(registry.read_agent(&b.agent).unwrap().name, "B");
    assert!(registry.is_occupied(&a.agent));
}

#[test]
fn name_of_fifty_bytes_is_accepted_and_fifty_one_refused() {
    let mut registry = Registry::new(program());
    assert!(register_named(&mut registry, key(1), &text(50)).is_ok());
    let r = register_named(&mut registry, key(2), &text(51));
    assert_eq!(r, Err(AgentRegistryError::NameTooLong));
    assert_eq!(r.unwrap_err().kind(), ErrorKind::Validation);
    let (address, _) = find_agent_address(&program(), &key(2)).unwrap();
    assert!(registry.read_agent(&address).is_none());
}

#[test]
fn bounds_count_bytes_not_characters() {
    let seventeen_euros = "€".repeat(17);
    assert_eq!(seventeen_euros.chars().count(), 17);
    assert_eq!(text_len(&seventeen_euros), 51);
    assert_eq!(
        check_registration(&seventeen_euros, "", "", &Vec::new()),
        Err(AgentRegistryError::NameTooLong)
    );
    assert_eq!(check_registration(&"€".repeat(16), "", "", &Vec::new()), Ok(()));
}

#[test]
fn description_bound_is_two_hundred_bytes() {
    assert_eq!(check_registration("n", &text(200), "", &Vec::new()), Ok(()));
    assert_eq!(
        check_registration("n", &text(201), "", &Vec::new()),
        Err(AgentRegistryError::DescriptionTooLong)
    );
}

#[test]
fn uri_bound_is_two_hundred_bytes() {
    assert_eq!(check_registration("n", "", &text(200), &Vec::new()), Ok(()));
    assert_eq!(
        check_registration("n", "", &text(201), &Vec::new()),
        Err(AgentRegistryError::UriTooLong)
    );
}

#[test]
fn at_most_ten_services() {
    let ten: Vec<String> = (0..10).map(|_| text(50)).collect();
    let eleven: Vec<String> = (0..11).map(|_| text(1)).collect();
    assert_eq!(check_registration("n", "", "", &ten), Ok(()));
    assert_eq!(
        check_registration("n", "", "", &eleven),
        Err(AgentRegistryError::TooManyServices)
    );
}

#[test]
fn service_name_bound_is_fifty_bytes() {
    let services = vec![text(50), text(51), text(1)];
    assert_eq!(
        check_registration("n", "", "", &services),
        Err(AgentRegistryError::ServiceNameTooLong)
    );
    let last = vec![text(1), text(2), text(51)];
    assert_eq!(
        check_registration("n", "", "", &last),
        Err(AgentRegistryError::ServiceNameTooLong)
    );
}

#[test]
fn bounds_are_checked_in_order() {
    let eleven: Vec<String> = (0..11).map(|_| text(51)).collect();
    assert_eq!(
        check_registration(&text(51), &text(201), &text(201), &eleven),
        Err(AgentRegistryError::NameTooLong)
    );
    assert_eq!(
        check_registration("n", &text(201), &text(201), &eleven),
        Err(AgentRegistryError::DescriptionTooLong)
    );
    assert_eq!(
        check_registration("n", "", &text(201), &eleven),
        Err(AgentRegistryError::UriTooLong)
    );
    assert_eq!(
        check_registration("n", "", "", &eleven),
        Err(AgentRegistryError::TooManyServices)
    );
}

#[test]
fn refused_registration_writes_nothing() {
    let mut registry = Registry::new(program());
    let owner = key(1);
    let r = register_agent(
        &mut registry,
        &RegisterAgent { authority: owner },
        "ok".to_string(),
        text(201),
        String::new(),
        Vec::new(),
        false,
        0,
        5,
    );
    assert_eq!(r, Err(AgentRegistryError::DescriptionTooLong));
    let (address, _) = find_agent_address(&program(), &owner).unwrap();
    assert!(!registry.is_occupied(&address));
    assert!(register_named(&mut registry, owner, "ok").is_ok());
}

#[test]
fn registration_without_an_address_fails() {
    let mut registry = Registry::new(program());
    let r = registry.register(
        None,
        key(1),
        "Scout".to_string(),
        String::new(),
        String::new(),
        Vec::new(),
        false,
        0,
        0,
        5,
    );
    assert_eq!(r, Err(AgentRegistryError::AddressDerivationFailed));
    assert_eq!(r.unwrap_err().kind(), ErrorKind::Addressing);
}

#[test]
fn registration_at_a_given_address_stores_the_bump() {
    let mut registry = Registry::new(program());
    let r = registry.register(
        Some((key(50), 251)),
        key(1),
        "Scout".to_string(),
        String::new(),
        String::new(),
        Vec::new(),
        false,
        7,
        12,
        5,
    );
    assert_eq!(r, Ok(key(50)));
    let record = registry.read_agent(&key(50)).unwrap();
    assert_eq!(record.bump, 251);
    assert_eq!(record.generation, 7);
    assert_eq!(record.balance, 12);
    assert_eq!(record.registered_at, 5);
    assert!(record.active);
    assert_eq!(registry.program_id(), program());
}

#[test]
fn space_of_an_agent_record() {
    assert_eq!(AgentAccount::BASE_SIZE, 112);
    assert_eq!(AgentAccount::space("Scout", "", "", &[]), 117);
    let services = vec!["a".to_string(), "bc".to_string()];
    assert_eq!(AgentAccount::space("Scout", "desc", "uri", &services), 112 + 5 + 4 + 3 + 5 + 6);
    assert_eq!(AgentAccount::space("€", "", "", &[]), 115);
}

#[test]
fn space_of_a_rating_record() {
    assert_eq!(ReputationRecord::BASE_SIZE, 93);
    assert_eq!(ReputationRecord::space(""), 93);
    assert_eq!(ReputationRecord::space("good"), 97);
}

#[test]
fn limits_of_the_records() {
    assert_eq!(AgentAccount::MAX_NAME_LEN, 50);
    assert_eq!(AgentAccount::MAX_DESCRIPTION_LEN, 200);
    assert_eq!(AgentAccount::MAX_URI_LEN, 200);
    assert_eq!(AgentAccount::MAX_SERVICES, 10);
    assert_eq!(AgentAccount::MAX_SERVICE_LEN, 50);
    assert_eq!(ReputationRecord::MAX_COMMENT_LEN, 500);
}

#[test]
fn every_error_has_its_kind_and_message() {
    let all = [
        (AgentRegistryError::NameTooLong, ErrorKind::Validation),
        (AgentRegistryError::DescriptionTooLong, ErrorKind::Validation),
        (AgentRegistryError::UriTooLong, ErrorKind::Validation),
        (AgentRegistryError::TooManyServices, ErrorKind::Validation),
        (AgentRegistryError::ServiceNameTooLong, ErrorKind::Validation),
        (AgentRegistryError::CommentTooLong, ErrorKind::Validation),
        (AgentRegistryError::InvalidReputationScore, ErrorKind::Validation),
        (AgentRegistryError::CannotRateSelf, ErrorKind::Authorization),
        (AgentRegistryError::NotAgentOwner, ErrorKind::Authorization),
        (AgentRegistryError::InvalidAgentAddress, ErrorKind::Authorization),
        (AgentRegistryError::AddressInUse, ErrorKind::Conflict),
        (AgentRegistryError::ArithmeticOverflow, ErrorKind::Arithmetic),
        (AgentRegistryError::AgentNotFound, ErrorKind::NotFound),
        (AgentRegistryError::AddressDerivationFailed, ErrorKind::Addressing),
        (AgentRegistryError::PermissionServiceRejected, ErrorKind::Collaborator),
        (AgentRegistryError::UnexpectedReply, ErrorKind::Collaborator),
    ];
    for (error, kind) in all {
        assert_eq!(error.kind(), kind);
        assert!(!error.message().is_empty());
    }
    assert_eq!(AgentRegistryError::CannotRateSelf.message(), "Cannot rate yourself");
    assert_eq!(
        AgentRegistryError::NameTooLong.message(),
        "Agent name is too long (max 50 characters)"
    );
    assert_eq!(
        AgentRegistryError::InvalidReputationScore.message(),
        "Reputation score must be between -100 and +100"
    );
}
