use sidecar_supervisor::gate::{
    GateAction, GatePhase, ReadinessGate, POLL_INTERVAL_MS, STARTUP_TIMEOUT_MS,
};
use sidecar_supervisor::probe::{
    health_request, is_healthy, loopback, probe_address, ProbeOutcome, PROBE_BUFFER_LEN,
    PROBE_TIMEOUT_MS,
};

/// Runs a gate against a simulated clock whose probes each take `probe_ms`
/// and succeed from `healthy_after_ms` on. Yields success, probes run and the
/// simulated time spent.
fn simulate(timeout_ms: u64, probe_ms: u64, healthy_after_ms: Option<u64>) -> (bool, u32, u64) {
    let mut gate = ReadinessGate::new(timeout_ms);
    let mut now: u64 = 0;
    let mut probes: u32 = 0;
    loop {
        match gate.poll(now) {
            GateAction::Probe => {
                now += probe_ms;
                probes += 1;
                let healthy = matches!(healthy_after_ms, Some(t) if now >= t);
                match gate.record(healthy) {
                    GateAction::Sleep(ms) => now += ms,
                    GateAction::Succeed => return (true, probes, now),
                    other => panic!("unexpected {:?}", other),
                }
            }
            GateAction::Succeed => return (true, probes, now),
            GateAction::Fail => return (false, probes, now),
            GateAction::Sleep(ms) => now += ms,
        }
    }
}

#[test]
fn probe_verdicts() {
    assert!(!is_healthy(ProbeOutcome::Unreachable));
    assert!(!is_healthy(ProbeOutcome::SendFailed));
    assert!(!is_healthy(ProbeOutcome::ReadFailed));
    assert!(!is_healthy(ProbeOutcome::Received(0)));
    assert!(is_healthy(ProbeOutcome::Received(1)));
    assert!(is_healthy(ProbeOutcome::Received(PROBE_BUFFER_LEN)));
}

#[test]
fn probe_request_and_target() {
    assert_eq!(loopback(), "127.0.0.1");
    assert_eq!(probe_address(5174), "127.0.0.1:5174");
    assert_eq!(
        health_request(),
        "GET /health HTTP/1.1\r\nHost: 127.0.0.1\r\nConnection: close\r\n\r\n"
    );
    assert_eq!(PROBE_TIMEOUT_MS, 300);
}

#[test]
fn gate_succeeds_on_first_healthy_probe() {
    let (ok, probes, elapsed) = simulate(STARTUP_TIMEOUT_MS, 0, Some(3 * POLL_INTERVAL_MS));
    assert!(ok);
    assert_eq!(probes, 4);
    assert_eq!(elapsed, 3 * POLL_INTERVAL_MS);
}

#[test]
fn gate_succeeds_immediately_when_ready() {
    assert_eq!(simulate(STARTUP_TIMEOUT_MS, 0, Some(0)), (true, 1, 0));
}

#[test]
fn gate_times_out_when_never_healthy() {
    let (ok, probes, elapsed) = simulate(STARTUP_TIMEOUT_MS, 0, None);
    assert!(!ok);
    assert_eq!(probes as u64, STARTUP_TIMEOUT_MS.div_ceil(POLL_INTERVAL_MS));
    assert!(elapsed >= STARTUP_TIMEOUT_MS);
    assert!(elapsed < STARTUP_TIMEOUT_MS + POLL_INTERVAL_MS);
}

#[test]
fn gate_with_zero_timeout_never_probes() {
    assert_eq!(simulate(0, 0, Some(0)), (false, 0, 0));
}

#[test]
fn settled_gate_does_not_poll_again() {
    let mut gate = ReadinessGate::new(1000);
    assert_eq!(gate.poll(0), GateAction::Probe);
    assert_eq!(gate.record(true), GateAction::Succeed);
    assert_eq!(gate.phase, GatePhase::Ready);
    assert_eq!(gate.poll(5000), GateAction::Succeed);
    assert_eq!(gate.record(false), GateAction::Succeed);
    assert_eq!(gate.phase, GatePhase::Ready);

    let mut late = ReadinessGate::new(1000);
    assert_eq!(late.poll(1000), GateAction::Fail);
    assert_eq!(late.phase, GatePhase::TimedOut);
    assert_eq!(late.record(true), GateAction::Fail);
    assert_eq!(late.poll(0), GateAction::Fail);
    assert_eq!(late.phase, GatePhase::TimedOut);
}

#[test]
fn failed_probe_asks_for_interval_sleep() {
    let mut gate = ReadinessGate::new(STARTUP_TIMEOUT_MS);
    assert_eq!(gate.poll(9999), GateAction::Probe);
    assert_eq!(gate.record(false), GateAction::Sleep(150));
    assert_eq!(gate.phase, GatePhase::Polling);
}
