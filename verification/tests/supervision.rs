use tunnel_supervisor::bootstrap::validate_port_range;
use tunnel_supervisor::bootstrap::ConfigError;
use tunnel_supervisor::bootstrap::PortRange;
use tunnel_supervisor::config::AttemptOutcome;
use tunnel_supervisor::config::Endpoint;
use tunnel_supervisor::config::RetryMode;
use tunnel_supervisor::config::RetryPolicy;
use tunnel_supervisor::orchestrator::Orchestrator;

fn endpoint(host: &str, port: u16) -> Endpoint {
    Endpoint {
        host: host.to_owned(),
        remote_port: port,
    }
}

/// Drives the orchestrator until it exhausts its work or `max_steps`
/// attempts have been recorded, feeding it the same outcome each time;
/// returns the targets it directed, in order.
fn drive(orch: &mut Orchestrator, outcome: AttemptOutcome, max_steps: usize) -> Vec<(String, u16)> {
    let mut seen = Vec::new();
    while seen.len() < max_steps {
        let target = match orch.next_target() {
            Some(e) => (e.host.clone(), e.remote_port),
            None => break,
        };
        seen.push(target);
        orch.record_attempt(outcome);
    }
    seen
}

#[test]
fn bounded_zero_makes_no_attempts() {
    let policy = RetryPolicy {
        mode: RetryMode::Bounded(0),
        fallback: None,
    };
    let mut orch = Orchestrator::new(
        "localhost".to_owned(),
        8000,
        endpoint("relay.example", 7000),
        None,
        policy,
    );
    assert!(orch.is_done());
    assert!(orch.next_target().is_none());
    let seen = drive(&mut orch, AttemptOutcome::Ended, 100);
    assert!(seen.is_empty());
}

#[test]
fn bounded_three_attempts_primary_only() {
    let policy = RetryPolicy {
        mode: RetryMode::Bounded(3),
        fallback: None,
    };
    let mut orch = Orchestrator::new(
        "localhost".to_owned(),
        8000,
        endpoint("relay.example", 7000),
        None,
        policy,
    );
    let seen = drive(&mut orch, AttemptOutcome::Ended, 100);
    assert_eq!(
        seen,
        vec![
            ("relay.example".to_owned(), 7000),
            ("relay.example".to_owned(), 7000),
            ("relay.example".to_owned(), 7000),
        ]
    );
    assert!(orch.is_done());
    assert!(orch.next_target().is_none());
}

#[test]
fn bounded_two_with_fallback_alternates() {
    let policy = RetryPolicy {
        mode: RetryMode::Bounded(2),
        fallback: Some(endpoint("fallback.example", 7001)),
    };
    let mut orch = Orchestrator::new(
        "localhost".to_owned(),
        8000,
        endpoint("relay.example", 7000),
        None,
        policy,
    );
    let seen = drive(&mut orch, AttemptOutcome::NotEstablished, 100);
    assert_eq!(
        seen,
        vec![
            ("relay.example".to_owned(), 7000),
            ("fallback.example".to_owned(), 7001),
            ("relay.example".to_owned(), 7000),
            ("fallback.example".to_owned(), 7001),
        ]
    );
    assert!(orch.is_done());
}

#[test]
fn relentless_outlives_any_window() {
    let policy = RetryPolicy {
        mode: RetryMode::Relentless,
        fallback: Some(endpoint("fallback.example", 7001)),
    };
    let mut orch = Orchestrator::new(
        "localhost".to_owned(),
        8000,
        endpoint("relay.example", 7000),
        None,
        policy,
    );
    let seen = drive(&mut orch, AttemptOutcome::NotEstablished, 25);
    assert_eq!(seen.len(), 25);
    for (i, target) in seen.iter().enumerate() {
        if i % 2 == 0 {
            assert_eq!(*target, ("relay.example".to_owned(), 7000));
        } else {
            assert_eq!(*target, ("fallback.example".to_owned(), 7001));
        }
    }
    assert!(!orch.is_done());
    assert!(orch.next_target().is_some());
}

#[test]
fn relentless_without_fallback_repeats_primary() {
    let policy = RetryPolicy {
        mode: RetryMode::Relentless,
        fallback: None,
    };
    let mut orch = Orchestrator::new(
        "localhost".to_owned(),
        8000,
        endpoint("relay.example", 7000),
        None,
        policy,
    );
    let seen = drive(&mut orch, AttemptOutcome::Ended, 10);
    assert_eq!(seen.len(), 10);
    for target in &seen {
        assert_eq!(*target, ("relay.example".to_owned(), 7000));
    }
    assert!(!orch.is_done());
}

#[test]
fn outcome_never_stops_the_schedule() {
    let make = || {
        Orchestrator::new(
            "localhost".to_owned(),
            8000,
            endpoint("relay.example", 7000),
            None,
            RetryPolicy {
                mode: RetryMode::Bounded(2),
                fallback: Some(endpoint("fallback.example", 7001)),
            },
        )
    };
    let mut failing = make();
    let mut succeeding = make();
    let seen_failing = drive(&mut failing, AttemptOutcome::NotEstablished, 100);
    let seen_succeeding = drive(&mut succeeding, AttemptOutcome::Ended, 100);
    assert_eq!(seen_failing, seen_succeeding);
    assert_eq!(seen_failing.len(), 4);
    assert!(failing.is_done());
    assert!(succeeding.is_done());
}

#[test]
fn attempt_configuration_is_passed_through() {
    let policy = RetryPolicy {
        mode: RetryMode::Bounded(1),
        fallback: None,
    };
    let orch = Orchestrator::new(
        "service.internal".to_owned(),
        4321,
        endpoint("relay.example", 7000),
        Some("token".to_owned()),
        policy,
    );
    assert_eq!(orch.local_host(), "service.internal");
    assert_eq!(orch.local_port(), 4321);
    assert_eq!(orch.secret().as_deref(), Some("token"));
}

#[test]
fn empty_port_range_is_rejected() {
    let range = PortRange {
        min: 2000,
        max: 1000,
    };
    assert_eq!(
        validate_port_range(&range),
        Err(ConfigError::InvalidPortRange)
    );
}

#[test]
fn single_port_range_is_valid() {
    let range = PortRange {
        min: 5000,
        max: 5000,
    };
    assert_eq!(validate_port_range(&range), Ok(()));
}

#[test]
fn boundary_port_range_is_valid() {
    let range = PortRange {
        min: 1024,
        max: 65535,
    };
    assert_eq!(validate_port_range(&range), Ok(()));
}
