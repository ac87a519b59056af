//! Tests for the resource governor: configuration validation, resource
//! tracking, admission, throttling, pause/resume, statistics and the
//! deterministic random source.

use shared_core::error::SystemError;
use shared_core::governor::{
    Admission, GovernorState, IoThrottleDecision, ResourceGovernorConfig,
};

#[test]
fn resource_governor_test_config_validation() {
    let mut config = ResourceGovernorConfig::default();
    assert!(config.validate().is_ok());

    config.cpu_cap_percent = Some(150);
    assert!(config.validate().is_err());

    config.cpu_cap_percent = Some(50);
    config.max_concurrent_operations = 0;
    assert!(config.validate().is_err());
}

#[test]
fn test_governor_creation() {
    let config = ResourceGovernorConfig::default();
    let governor = GovernorState::new(config);
    assert!(governor.is_ok());
}

#[test]
fn test_preset_configs() {
    let testing = ResourceGovernorConfig::testing();
    assert!(testing.deterministic_mode);
    assert!(testing.sandbox_mode);
    assert_eq!(testing.cpu_cap_percent, Some(50));

    let production = ResourceGovernorConfig::production();
    assert!(!production.deterministic_mode);
    assert!(!production.sandbox_mode);
    assert_eq!(production.cpu_cap_percent, Some(80));
}

#[test]
fn test_resource_governor_invalid_config() {
    let config = ResourceGovernorConfig {
        cpu_cap_percent: Some(150), // Invalid: > 100
        ram_cap_bytes: None,
        io_ops_per_second: None,
        deterministic_mode: false,
        sandbox_mode: false,
        max_concurrent_operations: 100,
    };

    let result = GovernorState::new(config);
    assert!(result.is_err(), "Should reject invalid CPU cap");
}

#[test]
fn test_resource_governor_zero_operations() {
    let config = ResourceGovernorConfig {
        cpu_cap_percent: None,
        ram_cap_bytes: None,
        io_ops_per_second: None,
        deterministic_mode: false,
        sandbox_mode: false,
        max_concurrent_operations: 0, // Invalid
    };

    let result = GovernorState::new(config);
    assert!(result.is_err(), "Should reject zero concurrent operations");
}

#[test]
fn test_cpu_tracking() {
    let config = ResourceGovernorConfig::default();
    let mut governor = GovernorState::new(config).unwrap();

    governor.update_cpu_usage(50);
    assert_eq!(governor.current_cpu_usage(), 50);
}

#[test]
fn cpu_usage_clamps_to_one_hundred() {
    let config = ResourceGovernorConfig::default();
    let mut governor = GovernorState::new(config).unwrap();

    governor.update_cpu_usage(150);
    assert_eq!(governor.current_cpu_usage(), 100);
}

#[test]
fn test_ram_tracking() {
    let config = ResourceGovernorConfig::default();
    let mut governor = GovernorState::new(config).unwrap();

    governor.track_ram_allocation(1024);
    assert_eq!(governor.current_ram_usage(), 1024);

    governor.track_ram_deallocation(512);
    assert_eq!(governor.current_ram_usage(), 512);
}

#[test]
fn ram_tracking_allocation_then_partial_deallocation() {
    let config = ResourceGovernorConfig::default();
    let mut governor = GovernorState::new(config).unwrap();

    governor.track_ram_allocation(1000);
    governor.track_ram_deallocation(400);
    assert_eq!(governor.current_ram_usage(), 600);
}

#[test]
fn ram_deallocation_stops_at_zero() {
    let config = ResourceGovernorConfig::default();
    let mut governor = GovernorState::new(config).unwrap();

    governor.track_ram_allocation(100);
    governor.track_ram_deallocation(250);
    assert_eq!(governor.current_ram_usage(), 0);
}

#[test]
fn test_pause_resume() {
    let config = ResourceGovernorConfig::default();
    let mut governor = GovernorState::new(config).unwrap();

    governor.pause();
    let stats = governor.statistics();
    assert!(stats.is_paused);

    governor.resume();
    let stats = governor.statistics();
    assert!(!stats.is_paused);
}

#[test]
fn paused_governor_blocks_admission_until_resume() {
    let config = ResourceGovernorConfig::default();
    let mut governor = GovernorState::new(config).unwrap();

    governor.pause();
    let attempt = governor.try_acquire();
    assert!(matches!(attempt, Admission::BlockedPaused));

    governor.resume();
    let attempt = governor.try_acquire();
    assert!(matches!(attempt, Admission::Granted { .. }));
}

#[test]
fn ram_cap_exceeded_rejects_admission() {
    let mut config = ResourceGovernorConfig::default();
    config.ram_cap_bytes = Some(500);
    let mut governor = GovernorState::new(config).unwrap();

    governor.track_ram_allocation(600);
    let attempt = governor.try_acquire();
    match attempt {
        Admission::Rejected { error } => match error {
            SystemError::Validation { field, reason, value } => {
                assert_eq!(field, "ram_usage");
                assert_eq!(reason, "RAM limit exceeded: 600 bytes > 500 bytes cap");
                assert_eq!(value, Some("600".to_string()));
            }
            other => panic!("expected a validation error, got {:?}", other),
        },
        other => panic!("expected a rejection, got {:?}", other),
    }
    // The concurrency unit taken during the attempt was returned.
    let stats = governor.statistics();
    assert_eq!(stats.total_operations, 1);
}

#[test]
fn admissions_stop_at_the_concurrency_cap() {
    let mut config = ResourceGovernorConfig::default();
    config.max_concurrent_operations = 2;
    let mut governor = GovernorState::new(config).unwrap();

    assert!(matches!(governor.try_acquire(), Admission::Granted { .. }));
    assert!(matches!(governor.try_acquire(), Admission::Granted { .. }));
    assert!(matches!(governor.try_acquire(), Admission::BlockedAtCapacity));

    // Releasing one unit lets one more admission through.
    governor.release_capacity();
    assert!(matches!(governor.try_acquire(), Admission::Granted { .. }));
}

#[test]
fn cpu_over_cap_soft_throttles_but_grants() {
    let mut config = ResourceGovernorConfig::default();
    config.cpu_cap_percent = Some(50);
    let mut governor = GovernorState::new(config).unwrap();

    governor.update_cpu_usage(90);
    match governor.try_acquire() {
        Admission::Granted { cpu_throttled } => assert!(cpu_throttled),
        other => panic!("expected a grant, got {:?}", other),
    }
    assert_eq!(governor.statistics().throttled_operations, 1);
}

#[test]
fn test_io_throttling() {
    let mut config = ResourceGovernorConfig::default();
    config.io_ops_per_second = Some(10);
    let mut governor = GovernorState::new(config).unwrap();

    // First few operations should be admitted without a backoff.
    for _ in 0..5 {
        let decision = governor.throttle_io(0);
        assert!(matches!(
            decision,
            IoThrottleDecision::Admitted | IoThrottleDecision::WindowRestarted
        ));
    }
}

#[test]
fn eleventh_io_call_within_window_backs_off() {
    let mut config = ResourceGovernorConfig::default();
    config.io_ops_per_second = Some(10);
    let mut governor = GovernorState::new(config).unwrap();

    for _ in 0..10 {
        assert_eq!(governor.throttle_io(0), IoThrottleDecision::Admitted);
    }
    let eleventh = governor.throttle_io(0);
    assert_eq!(
        eleventh,
        IoThrottleDecision::Backoff {
            remaining_millis: 1000
        }
    );
    assert_eq!(governor.statistics().throttled_operations, 1);

    // After sleeping out the window the caller restarts it; the completed
    // call counts as the new window's first operation.
    governor.finish_io_backoff(1000);
    assert_eq!(governor.throttle_io(1000), IoThrottleDecision::Admitted);
}

#[test]
fn io_window_restart_after_expiry() {
    let mut config = ResourceGovernorConfig::default();
    config.io_ops_per_second = Some(10);
    let mut governor = GovernorState::new(config).unwrap();

    assert_eq!(governor.throttle_io(100), IoThrottleDecision::Admitted);
    // More than a second later: the window restarts and the first op is free.
    assert_eq!(governor.throttle_io(1500), IoThrottleDecision::WindowRestarted);
}

#[test]
fn unlimited_io_is_never_throttled() {
    let config = ResourceGovernorConfig::default();
    let mut governor = GovernorState::new(config).unwrap();

    for now in 0..20 {
        assert_eq!(governor.throttle_io(now), IoThrottleDecision::Unlimited);
    }
    assert_eq!(governor.statistics().throttled_operations, 0);
}

#[test]
fn test_statistics() {
    let config = ResourceGovernorConfig::default();
    let mut governor = GovernorState::new(config).unwrap();

    let permit = governor.try_acquire();
    assert!(matches!(permit, Admission::Granted { .. }));

    let stats = governor.statistics();
    assert_eq!(stats.total_operations, 1);

    governor.reset_statistics();
    let stats = governor.statistics();
    assert_eq!(stats.total_operations, 0);
}

#[test]
fn reset_statistics_leaves_usage_and_pause_state() {
    let config = ResourceGovernorConfig::default();
    let mut governor = GovernorState::new(config).unwrap();

    governor.update_cpu_usage(30);
    governor.track_ram_allocation(100);
    governor.pause();
    let _ = governor.try_acquire();
    governor.reset_statistics();

    let stats = governor.statistics();
    assert_eq!(stats.total_operations, 0);
    assert_eq!(stats.throttled_operations, 0);
    assert_eq!(stats.current_cpu_usage, 30);
    assert_eq!(stats.current_ram_usage, 100);
    assert!(stats.is_paused);
}

#[test]
fn test_deterministic_mode() {
    let mut config = ResourceGovernorConfig::default();
    config.deterministic_mode = true;
    let governor = GovernorState::new(config).unwrap();

    assert!(governor.is_deterministic());
    assert!(!governor.is_sandboxed());
}

#[test]
fn test_sandbox_mode() {
    let mut config = ResourceGovernorConfig::default();
    config.sandbox_mode = true;
    let governor = GovernorState::new(config).unwrap();

    assert!(governor.is_sandboxed());
}

#[test]
fn test_deterministic_mode_reproducibility() {
    let config1 = ResourceGovernorConfig {
        cpu_cap_percent: None,
        ram_cap_bytes: None,
        io_ops_per_second: None,
        deterministic_mode: true,
        sandbox_mode: false,
        max_concurrent_operations: 10,
    };
    let config2 = config1.clone();

    let governor1 = GovernorState::new(config1).unwrap();
    let governor2 = GovernorState::new(config2).unwrap();

    let mut rng1 = governor1.get_rng();
    let mut rng2 = governor2.get_rng();

    // Deterministic mode should produce the same sequence.
    for _ in 0..100 {
        assert_eq!(rng1.next_u64(), rng2.next_u64());
    }
}

#[test]
fn nondeterministic_governors_diverge() {
    let config = ResourceGovernorConfig::default();
    let governor1 = GovernorState::new(config.clone()).unwrap();
    let governor2 = GovernorState::new(config).unwrap();

    let mut rng1 = governor1.get_rng();
    let mut rng2 = governor2.get_rng();

    let mut all_equal = true;
    for _ in 0..100 {
        if rng1.next_u64() != rng2.next_u64() {
            all_equal = false;
        }
    }
    assert!(!all_equal, "independent random sources should diverge");
}

#[test]
fn deterministic_words_compose_into_u64() {
    let mut config = ResourceGovernorConfig::default();
    config.deterministic_mode = true;
    let governor = GovernorState::new(config).unwrap();

    let mut words = governor.get_rng();
    let lo = words.next_u32() as u64;
    let hi = words.next_u32() as u64;

    let mut wide = governor.get_rng();
    assert_eq!(wide.next_u64(), lo | (hi << 32));
}

#[test]
fn deterministic_fill_bytes_matches_word_stream() {
    let mut config = ResourceGovernorConfig::default();
    config.deterministic_mode = true;
    let governor = GovernorState::new(config).unwrap();

    let mut words = governor.get_rng();
    let w0 = words.next_u32().to_le_bytes();
    let w1 = words.next_u32().to_le_bytes();

    let mut filler = governor.get_rng();
    let mut buf = vec![0u8; 7];
    filler.fill_bytes(&mut buf);

    assert_eq!(&buf[0..4], &w0);
    assert_eq!(&buf[4..7], &w1[0..3]);
}
