use route53_dyndns::address::{Address, Family, Ipv4Address, Ipv6Address};
use route53_dyndns::config::ZoneConfig;
use route53_dyndns::credential_provider::AwsCredentials;
use route53_dyndns::reconcile::{
    step, CycleAction, CycleEvent, CycleOutcome, CycleState, FailureCause, RecordType,
};

fn zone(ipv4: bool, ipv6: bool) -> ZoneConfig {
    ZoneConfig {
        update_frequency_minutes: 5,
        hosted_zone_name: String::from("example.com"),
        record_name: String::from("home"),
        enable_ipv4: ipv4,
        enable_ipv6: ipv6,
        provider_region: String::from("eu-west-1"),
        credentials: AwsCredentials::new(
            String::from("key-id"),
            String::from("key-secret"),
            None,
            None,
        ),
        ttl_seconds: 300,
    }
}

fn v4() -> Address {
    Address::V4(Ipv4Address::new(203, 0, 113, 7))
}

fn v6() -> Address {
    Address::V6(Ipv6Address::new(0x2001_0db8_0000_0000_0000_0000_0000_0001))
}

fn started(config: &ZoneConfig) -> CycleState {
    let (state, action) = step(config, CycleState::Idle, CycleEvent::Begin);
    match action {
        CycleAction::FindHostedZone { dns_name, region } => {
            assert_eq!(dns_name, "example.com");
            assert_eq!(region, "eu-west-1");
        }
        other => panic!("unexpected action {:?}", other),
    }
    assert!(matches!(state, CycleState::FindingZone));
    state
}

#[test]
fn single_ipv4_record_is_upserted_to_found_zone() {
    let config = zone(true, false);
    let state = started(&config);
    let (state, action) = step(&config, state, CycleEvent::ZonesListed(vec![String::from("Z123")]));
    assert!(matches!(action, CycleAction::Resolve(Family::V4)));
    let (state, action) = step(&config, state, CycleEvent::AddressFound(v4()));
    match action {
        CycleAction::Upsert { zone_id, changes } => {
            assert_eq!(zone_id, "Z123");
            assert_eq!(changes.len(), 1);
            assert_eq!(changes[0].name, "home.example.com");
            assert_eq!(changes[0].ttl, 300);
            assert_eq!(changes[0].address, v4());
            assert_eq!(changes[0].record_type(), RecordType::A);
            match changes[0].address {
                Address::V4(a) => assert_eq!(a.to_text(), "203.0.113.7"),
                Address::V6(_) => panic!("an A record holds an IPv4 address"),
            }
        }
        other => panic!("unexpected action {:?}", other),
    }
    assert!(matches!(state, CycleState::Submitting));
    let (state, action) = step(&config, state, CycleEvent::UpsertDone);
    assert!(matches!(action, CycleAction::Finish(CycleOutcome::Success)));
    assert!(matches!(state, CycleState::Finished(CycleOutcome::Success)));
}

#[test]
fn no_family_enabled_submits_nothing() {
    let config = zone(false, false);
    let state = started(&config);
    let (state, action) = step(&config, state, CycleEvent::ZonesListed(vec![String::from("Z123")]));
    assert!(matches!(action, CycleAction::Finish(CycleOutcome::Success)));
    assert!(matches!(state, CycleState::Finished(CycleOutcome::Success)));
}

#[test]
fn failed_ipv4_discovery_aborts_before_ipv6() {
    let config = zone(true, true);
    let state = started(&config);
    let (state, action) = step(&config, state, CycleEvent::ZonesListed(vec![String::from("Z123")]));
    assert!(matches!(action, CycleAction::Resolve(Family::V4)));
    let (state, action) = step(&config, state, CycleEvent::AddressFailed);
    assert!(matches!(
        action,
        CycleAction::Finish(CycleOutcome::Failure(FailureCause::AddressDiscovery(Family::V4)))
    ));
    assert!(matches!(
        state,
        CycleState::Finished(CycleOutcome::Failure(FailureCause::AddressDiscovery(Family::V4)))
    ));
    let (_, action) = step(&config, state, CycleEvent::AddressFound(v6()));
    assert!(matches!(action, CycleAction::Ignore));
}

#[test]
fn failed_ipv6_discovery_drops_the_ipv4_change() {
    let config = zone(true, true);
    let state = started(&config);
    let (state, _) = step(&config, state, CycleEvent::ZonesListed(vec![String::from("Z123")]));
    let (state, action) = step(&config, state, CycleEvent::AddressFound(v4()));
    assert!(matches!(action, CycleAction::Resolve(Family::V6)));
    let (state, action) = step(&config, state, CycleEvent::AddressFailed);
    assert!(matches!(
        action,
        CycleAction::Finish(CycleOutcome::Failure(FailureCause::AddressDiscovery(Family::V6)))
    ));
    assert!(matches!(state, CycleState::Finished(CycleOutcome::Failure(_))));
}

#[test]
fn address_of_the_wrong_family_is_a_failed_discovery() {
    let config = zone(true, false);
    let state = started(&config);
    let (state, _) = step(&config, state, CycleEvent::ZonesListed(vec![String::from("Z123")]));
    let (_, action) = step(&config, state, CycleEvent::AddressFound(v6()));
    assert!(matches!(
        action,
        CycleAction::Finish(CycleOutcome::Failure(FailureCause::AddressDiscovery(Family::V4)))
    ));
}

fn batch_of_full_cycle(config: &ZoneConfig) -> (String, Vec<(Address, String, i64)>) {
    let state = started(config);
    let (state, _) = step(config, state, CycleEvent::ZonesListed(vec![String::from("Z123")]));
    let (state, _) = step(config, state, CycleEvent::AddressFound(v4()));
    let (_, action) = step(config, state, CycleEvent::AddressFound(v6()));
    match action {
        CycleAction::Upsert { zone_id, changes } => (
            zone_id,
            changes.into_iter().map(|c| (c.address, c.name, c.ttl)).collect(),
        ),
        other => panic!("unexpected action {:?}", other),
    }
}

#[test]
fn both_families_give_two_changes_ipv4_first() {
    let config = zone(true, true);
    let (zone_id, changes) = batch_of_full_cycle(&config);
    assert_eq!(zone_id, "Z123");
    assert_eq!(
        changes,
        vec![
            (v4(), String::from("home.example.com"), 300),
            (v6(), String::from("home.example.com"), 300),
        ]
    );
}

#[test]
fn repeated_cycle_submits_the_same_batch() {
    let config = zone(true, true);
    assert_eq!(batch_of_full_cycle(&config), batch_of_full_cycle(&config));
}

#[test]
fn ipv6_only_gives_one_aaaa_change() {
    let config = zone(false, true);
    let state = started(&config);
    let (state, action) = step(&config, state, CycleEvent::ZonesListed(vec![String::from("Z9"), String::from("Z10")]));
    assert!(matches!(action, CycleAction::Resolve(Family::V6)));
    let (_, action) = step(&config, state, CycleEvent::AddressFound(v6()));
    match action {
        CycleAction::Upsert { zone_id, changes } => {
            assert_eq!(zone_id, "Z9");
            assert_eq!(changes.len(), 1);
            assert_eq!(changes[0].record_type(), RecordType::Aaaa);
            assert_eq!(changes[0].address, v6());
        }
        other => panic!("unexpected action {:?}", other),
    }
}

#[test]
fn missing_zone_fails_the_cycle() {
    let config = zone(true, true);
    let state = started(&config);
    let (state, action) = step(&config, state, CycleEvent::ZonesListed(Vec::new()));
    assert!(matches!(
        action,
        CycleAction::Finish(CycleOutcome::Failure(FailureCause::ZoneNotFound))
    ));
    assert!(matches!(
        state,
        CycleState::Finished(CycleOutcome::Failure(FailureCause::ZoneNotFound))
    ));
}

#[test]
fn failed_zone_lookup_fails_the_cycle() {
    let config = zone(true, true);
    let state = started(&config);
    let (_, action) = step(&config, state, CycleEvent::ZoneLookupFailed);
    assert!(matches!(
        action,
        CycleAction::Finish(CycleOutcome::Failure(FailureCause::ZoneLookup))
    ));
}

#[test]
fn refused_batch_fails_the_cycle() {
    let config = zone(true, false);
    let state = started(&config);
    let (state, _) = step(&config, state, CycleEvent::ZonesListed(vec![String::from("Z123")]));
    let (state, _) = step(&config, state, CycleEvent::AddressFound(v4()));
    let (state, action) = step(&config, state, CycleEvent::UpsertFailed);
    assert!(matches!(
        action,
        CycleAction::Finish(CycleOutcome::Failure(FailureCause::UpsertSubmission))
    ));
    assert!(matches!(
        state,
        CycleState::Finished(CycleOutcome::Failure(FailureCause::UpsertSubmission))
    ));
}

#[test]
fn event_out_of_turn_is_ignored() {
    let config = zone(true, false);
    let (state, action) = step(&config, CycleState::Idle, CycleEvent::UpsertDone);
    assert!(matches!(action, CycleAction::Ignore));
    assert!(matches!(state, CycleState::Idle));
    let state = started(&config);
    let (state, action) = step(&config, state, CycleEvent::AddressFound(v4()));
    assert!(matches!(action, CycleAction::Ignore));
    assert!(matches!(state, CycleState::FindingZone));
    let (state, _) = step(&config, state, CycleEvent::ZonesListed(vec![String::from("Z123")]));
    let (state, action) = step(&config, state, CycleEvent::Begin);
    assert!(matches!(action, CycleAction::Ignore));
    match state {
        CycleState::Resolving { family, zone_id, changes } => {
            assert_eq!(family, Family::V4);
            assert_eq!(zone_id, "Z123");
            assert!(changes.is_empty());
        }
        other => panic!("unexpected state {:?}", other),
    }
}
