//! Tests for the common types: identifiers, timestamps, versions, lifecycle
//! and health states.

use shared_core::types::{HealthStatus, Id, LifecycleState, Timestamp, Version};

#[test]
fn test_id_generation() {
    let id1 = Id::generate();
    let id2 = Id::generate();

    assert_ne!(id1, id2);
    assert_eq!(id1.as_str().len(), 32);
}

#[test]
fn id_generation_is_hexadecimal() {
    let id = Id::generate();
    assert!(id
        .as_str()
        .chars()
        .all(|c| c.is_ascii_digit() || ('a'..='f').contains(&c)));
}

#[test]
fn id_round_trips_its_text() {
    let id = Id::new("node-17");
    assert_eq!(id.as_str(), "node-17");
}

#[test]
fn test_version_parsing() {
    let version = Version::parse("1.2.3").unwrap();
    assert_eq!(version.major, 1);
    assert_eq!(version.minor, 2);
    assert_eq!(version.patch, 3);
    assert_eq!(version.describe(), "1.2.3");
}

#[test]
fn test_version_comparison() {
    let v1 = Version::new(1, 0, 0);
    let v2 = Version::new(1, 0, 1);
    let v3 = Version::new(2, 0, 0);

    assert!(v1 < v2);
    assert!(v2 < v3);
}

#[test]
fn version_parsing_rejects_wrong_part_counts() {
    assert_eq!(Version::parse("1.2"), None);
    assert_eq!(Version::parse("1.2.3.4"), None);
    assert_eq!(Version::parse(""), None);
    assert_eq!(Version::parse("1"), None);
}

#[test]
fn version_parsing_rejects_non_numbers() {
    assert_eq!(Version::parse("a.b.c"), None);
    assert_eq!(Version::parse("1.2.c"), None);
    assert_eq!(Version::parse("1..3"), None);
    assert_eq!(Version::parse("-1.2.3"), None);
    assert_eq!(Version::parse("1.2.3 "), None);
}

#[test]
fn version_parsing_matches_the_number_grammar() {
    // The standard number parser accepts a leading plus and leading zeros.
    assert_eq!(Version::parse("+1.2.3"), Some(Version::new(1, 2, 3)));
    assert_eq!(Version::parse("01.002.0"), Some(Version::new(1, 2, 0)));
    assert_eq!(Version::parse("0.0.0"), Some(Version::new(0, 0, 0)));
}

#[test]
fn version_parsing_respects_the_numeric_range() {
    assert_eq!(
        Version::parse("4294967295.0.1"),
        Some(Version::new(4294967295, 0, 1))
    );
    assert_eq!(Version::parse("4294967296.0.1"), None);
}

#[test]
fn timestamp_conversions() {
    let ts = Timestamp::from_millis(1500);
    assert_eq!(ts.as_millis(), 1500);
    assert_eq!(ts.as_secs(), 1);
    assert_eq!(ts.describe(), "1500");
}

#[test]
fn timestamp_now_is_after_the_epoch() {
    let ts = Timestamp::now();
    // Well after 2001-09-09, when the epoch clock passed 10^12 ms.
    assert!(ts.as_millis() == 0 || ts.as_millis() > 1_000_000_000_000);
}

#[test]
fn timestamps_order_by_their_millis() {
    let earlier = Timestamp::from_millis(10);
    let later = Timestamp::from_millis(20);
    assert!(earlier < later);
}

#[test]
fn lifecycle_state_names() {
    assert_eq!(LifecycleState::Initializing.describe(), "initializing");
    assert_eq!(LifecycleState::Ready.describe(), "ready");
    assert_eq!(LifecycleState::Running.describe(), "running");
    assert_eq!(LifecycleState::Paused.describe(), "paused");
    assert_eq!(LifecycleState::ShuttingDown.describe(), "shutting_down");
    assert_eq!(LifecycleState::Stopped.describe(), "stopped");
    assert_eq!(LifecycleState::Error.describe(), "error");
}

#[test]
fn health_status_descriptions() {
    assert_eq!(HealthStatus::Healthy.describe(), "healthy");
    assert_eq!(
        HealthStatus::Degraded {
            reason: "slow disk".to_string()
        }
        .describe(),
        "degraded: slow disk"
    );
    assert_eq!(
        HealthStatus::Unhealthy {
            reason: "no quorum".to_string()
        }
        .describe(),
        "unhealthy: no quorum"
    );
}
