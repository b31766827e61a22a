use hawkeye_collector::config::{validate_sizes, ConfigError, PeerConfig};
use hawkeye_collector::polling::{PollAction, PollEvent, PollingService};
use hawkeye_collector::rest::{health, occupation_samples};
use hawkeye_collector::Sample;

#[test]
fn tick_requests_once_and_skips_while_pending() {
    let mut poller = PollingService::new("shallan".to_string());
    assert!(!poller.is_awaiting_reply());
    assert!(matches!(poller.step(PollEvent::Tick), PollAction::Request));
    assert!(poller.is_awaiting_reply());
    assert!(matches!(poller.step(PollEvent::Tick), PollAction::Wait));
    assert!(matches!(poller.step(PollEvent::Tick), PollAction::Wait));
}

#[test]
fn reading_becomes_a_sample() {
    let mut poller = PollingService::new("shallan".to_string());
    poller.step(PollEvent::Tick);
    let action = poller.step(PollEvent::Reading { value: 0.25f32.to_bits(), timestamp: 1234 });
    match action {
        PollAction::Forward(s) => {
            assert_eq!(s.identifier, "shallan");
            assert_eq!(s.timestamp, 1234);
            assert_eq!(f32::from_bits(s.value), 0.25);
        }
        other => panic!("expected a sample, got {other:?}"),
    }
    assert!(!poller.is_awaiting_reply());
    assert!(matches!(poller.step(PollEvent::Tick), PollAction::Request));
}

#[test]
fn failure_is_dropped_and_next_tick_retries() {
    let mut poller = PollingService::new("peer".to_string());
    poller.step(PollEvent::Tick);
    assert!(matches!(poller.step(PollEvent::Failure), PollAction::Wait));
    assert!(!poller.is_awaiting_reply());
    assert!(matches!(poller.step(PollEvent::Tick), PollAction::Request));
}

#[test]
fn occupation_points_follow_samples() {
    let samples = vec![
        Sample::new("a".to_string(), 100, 1.0f32.to_bits()),
        Sample::new("a".to_string(), 300, 3.0f32.to_bits()),
    ];
    let points = occupation_samples(&samples);
    assert_eq!(points.len(), 2);
    assert_eq!(points[0].timestamp, 100);
    assert_eq!(f32::from_bits(points[0].value), 1.0);
    assert_eq!(points[1].timestamp, 300);
    assert_eq!(f32::from_bits(points[1].value), 3.0);
    assert!(occupation_samples(&Vec::new()).is_empty());
}

#[test]
fn health_reports_running() {
    assert!(health().running);
}

#[test]
fn sizes_must_be_positive() {
    assert_eq!(validate_sizes(10, 4), Ok(()));
    assert_eq!(validate_sizes(0, 4), Err(ConfigError::ZeroStorageSize));
    assert_eq!(validate_sizes(0, 0), Err(ConfigError::ZeroStorageSize));
    assert_eq!(validate_sizes(10, 0), Err(ConfigError::ZeroChannelSize));
}

#[test]
fn peer_interval_must_be_positive() {
    let peer = PeerConfig::new("http://[::1]:50051".to_string(), 5);
    assert_eq!(peer.validate(), Ok(()));
    let stalled = PeerConfig::new("http://[::1]:50051".to_string(), 0);
    assert_eq!(stalled.validate(), Err(ConfigError::ZeroPollingInterval));
}
