use launcher::config::LaunchConfig;
use launcher::delivery::{outcome_script, DeliveryAttempt, DeliveryDecision};
use launcher::probe::{ProbeAction, ProbeEvent, ProbePhase, ProbeTiming, ReadinessOutcome, ReadinessProbe};

fn timing() -> ProbeTiming {
    ProbeTiming { startup_timeout_ms: 30000, health_poll_ms: 200, port_poll_ms: 100 }
}

#[test]
fn ready_after_port_and_health() {
    let mut p = ReadinessProbe::new(timing(), None);
    assert_eq!(p.step(ProbeEvent::Started, 0), ProbeAction::WaitForPort { max_ms: 100 });
    assert_eq!(p.step(ProbeEvent::PortWaitTimedOut, 100), ProbeAction::WaitForPort { max_ms: 100 });
    assert_eq!(p.step(ProbeEvent::PortReceived { port: 9000 }, 150), ProbeAction::CheckHealth { port: 9000 });
    assert_eq!(p.step(ProbeEvent::HealthFailed, 160), ProbeAction::Sleep { ms: 200 });
    assert_eq!(p.step(ProbeEvent::SleepElapsed, 360), ProbeAction::CheckHealth { port: 9000 });
    let ready = ReadinessOutcome::Ready { port: 9000 };
    assert_eq!(p.step(ProbeEvent::HealthSucceeded, 400), ProbeAction::Report { outcome: ready });
    assert_eq!(p.outcome(), Some(ready));
    assert_eq!(p.step(ProbeEvent::SleepElapsed, 99999), ProbeAction::Report { outcome: ready });
}

#[test]
fn no_port_before_timeout_fails() {
    let mut p = ReadinessProbe::new(timing(), None);
    p.step(ProbeEvent::Started, 0);
    assert_eq!(p.step(ProbeEvent::PortWaitTimedOut, 30000), ProbeAction::WaitForPort { max_ms: 100 });
    assert_eq!(
        p.step(ProbeEvent::PortWaitTimedOut, 30001),
        ProbeAction::Report { outcome: ReadinessOutcome::Failed }
    );
    assert_eq!(p.phase(), ProbePhase::Finished { outcome: ReadinessOutcome::Failed });
}

#[test]
fn closed_output_fails_at_once() {
    let mut p = ReadinessProbe::new(timing(), None);
    p.step(ProbeEvent::Started, 0);
    assert_eq!(
        p.step(ProbeEvent::PortChannelClosed, 50),
        ProbeAction::Report { outcome: ReadinessOutcome::Failed }
    );
}

#[test]
fn preallocated_port_polls_health_only() {
    let mut p = ReadinessProbe::new(timing(), Some(8080));
    assert_eq!(p.step(ProbeEvent::Started, 0), ProbeAction::CheckHealth { port: 8080 });
}

#[test]
fn never_healthy_fails_within_one_interval_after_timeout() {
    let t = timing();
    let mut p = ReadinessProbe::new(t, None);
    let mut now: u64 = 0;
    let mut action = p.step(ProbeEvent::Started, now);
    let mut event;
    loop {
        match action {
            ProbeAction::WaitForPort { max_ms } => {
                now += max_ms.min(30);
                event = ProbeEvent::PortReceived { port: 9000 };
            }
            ProbeAction::CheckHealth { .. } => {
                now += 1;
                event = ProbeEvent::HealthFailed;
            }
            ProbeAction::Sleep { ms } => {
                assert!(ms <= t.health_poll_ms);
                now += ms;
                event = ProbeEvent::SleepElapsed;
            }
            ProbeAction::Report { outcome } => {
                assert_eq!(outcome, ReadinessOutcome::Failed);
                break;
            }
        }
        action = p.step(event, now);
    }
    assert!(now >= t.startup_timeout_ms);
    assert!(now <= t.startup_timeout_ms + t.health_poll_ms);
}

#[test]
fn failed_outcome_sends_error_notification() {
    let mut p = ReadinessProbe::new(timing(), Some(9000));
    p.step(ProbeEvent::Started, 0);
    let a = p.step(ProbeEvent::HealthFailed, 30000);
    assert_eq!(a, ProbeAction::Report { outcome: ReadinessOutcome::Failed });
    assert_eq!(outcome_script(ReadinessOutcome::Failed), "localStorage.setItem('backend_error', 'true');");
}

#[test]
fn ready_notification_carries_port() {
    assert_eq!(
        outcome_script(ReadinessOutcome::Ready { port: 9000 }),
        "localStorage.setItem('backend_port', '9000'); localStorage.removeItem('backend_error'); \
         console.log('Backend port injected:', 9000);"
    );
}

#[test]
fn delivery_retries_until_attached() {
    let policy = LaunchConfig::load(None).delivery_policy();
    let mut a = DeliveryAttempt::new();
    assert_eq!(a.record(policy, false), DeliveryDecision::RetryAfter { ms: 100 });
    assert_eq!(a.record(policy, false), DeliveryDecision::RetryAfter { ms: 100 });
    assert_eq!(a.record(policy, true), DeliveryDecision::Delivered);
    assert_eq!(a.attempts(), 3);
    assert_eq!(a.waited_ms(), 200);
    assert!(a.waited_ms() < policy.max_attempts as u64 * policy.interval_ms);
}

#[test]
fn delivery_gives_up_after_budget() {
    let policy = LaunchConfig::load(None).delivery_policy();
    let mut a = DeliveryAttempt::new();
    for _ in 0..19 {
        assert_eq!(a.record(policy, false), DeliveryDecision::RetryAfter { ms: 100 });
    }
    assert_eq!(a.record(policy, false), DeliveryDecision::Exhausted);
    assert_eq!(a.attempts(), 20);
    assert_eq!(a.waited_ms(), 1900);
}

#[test]
fn fresh_install_scenario_reaches_frontend() {
    let cfg = LaunchConfig::load(None);
    let mut p = ReadinessProbe::new(cfg.probe_timing(), None);
    p.step(ProbeEvent::Started, 0);
    p.step(ProbeEvent::PortReceived { port: 9000 }, 1200);
    let a = p.step(ProbeEvent::HealthSucceeded, 1300);
    let outcome = match a {
        ProbeAction::Report { outcome } => outcome,
        other => panic!("unexpected {:?}", other),
    };
    assert_eq!(outcome, ReadinessOutcome::Ready { port: 9000 });
    let policy = cfg.delivery_policy();
    let mut d = DeliveryAttempt::new();
    let mut decision = d.record(policy, false);
    while let DeliveryDecision::RetryAfter { .. } = decision {
        decision = d.record(policy, d.attempts() >= 4);
    }
    assert_eq!(decision, DeliveryDecision::Delivered);
    assert!(d.waited_ms() < policy.max_attempts as u64 * policy.interval_ms);
}
