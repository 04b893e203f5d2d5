use healthwatch::monitor::process_probe;
use healthwatch::probe::ProbeEvent;
use healthwatch::state::RunState;
use healthwatch::status::Label;

#[test]
fn record_increments_on_failure_and_resets_on_success() {
    let mut state = RunState::new();
    assert_eq!(state.consecutive_failures, 0);
    state.record(true);
    assert_eq!(state.consecutive_failures, 1);
    state.record(true);
    assert_eq!(state.consecutive_failures, 2);
    state.record(false);
    assert_eq!(state.consecutive_failures, 0);
    state.record(true);
    assert_eq!(state.consecutive_failures, 1);
}

#[test]
fn counter_tracks_the_trailing_failure_run() {
    let outcomes = [true, false, true, true, false, true, true, true];
    let mut state = RunState::new();
    let mut trailing: u64 = 0;
    for &failed in outcomes.iter() {
        state.record(failed);
        trailing = if failed { trailing + 1 } else { 0 };
        assert_eq!(state.consecutive_failures, trailing);
    }
    assert_eq!(state.consecutive_failures, 3);
}

#[test]
fn three_failures_then_recovery_at_threshold_three() {
    let mut state = RunState::new();
    let probes = [
        ProbeEvent::Response { code: 503 },
        ProbeEvent::Response { code: 503 },
        ProbeEvent::Response { code: 503 },
        ProbeEvent::Response { code: 200 },
    ];
    let expected_labels = [Label::Unhealthy, Label::Unhealthy, Label::Down, Label::Up];
    let expected_counters = [1u64, 2, 3, 0];
    for (i, probe) in probes.into_iter().enumerate() {
        let report = process_probe(&mut state, 3, probe, "ts", "/", 1);
        assert_eq!(report.label, expected_labels[i]);
        assert_eq!(state.consecutive_failures, expected_counters[i]);
    }
}

#[test]
fn always_healthy_target_stays_up_indefinitely() {
    let mut state = RunState::new();
    for _ in 0..50 {
        let report = process_probe(
            &mut state,
            3,
            ProbeEvent::Response { code: 200 },
            "ts",
            "/",
            1,
        );
        assert_eq!(report.label, Label::Up);
        assert_eq!(state.consecutive_failures, 0);
    }
}

#[test]
fn single_failure_marks_down_at_threshold_one() {
    let mut state = RunState::new();
    let report = process_probe(
        &mut state,
        1,
        ProbeEvent::Transport {
            message: String::from("connection refused"),
        },
        "ts",
        "/",
        1,
    );
    assert_eq!(report.label, Label::Down);
    assert_eq!(state.consecutive_failures, 1);
}
