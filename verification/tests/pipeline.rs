use webshot::filename::derive_filename;
use webshot::outcome::CaptureOutcome;
use webshot::outcome::TargetEvent;
use webshot::outcome::TargetPhase;
use webshot::outcome::step_target;
use webshot::partition::partition;
use webshot::scheduler::Scheduler;
use webshot::target::Target;
use webshot::target::validate_targets;

fn targets_from(urls: &[&str]) -> Vec<Target> {
    urls.iter().map(|u| Target::parse(u).expect("valid URL")).collect()
}

#[test]
fn partition_round_robin_order() {
    let ts = targets_from(&[
        "https://a.com/0",
        "https://a.com/1",
        "https://a.com/2",
        "https://a.com/3",
        "https://a.com/4",
    ]);
    let slices = partition(ts, 2);
    assert_eq!(slices.len(), 2);
    let worker0: Vec<&str> = slices[0].iter().map(|t| t.as_str()).collect();
    let worker1: Vec<&str> = slices[1].iter().map(|t| t.as_str()).collect();
    assert_eq!(worker0, vec!["https://a.com/0", "https://a.com/2", "https://a.com/4"]);
    assert_eq!(worker1, vec!["https://a.com/1", "https://a.com/3"]);
}

#[test]
fn partition_single_worker_keeps_order() {
    let ts = targets_from(&["https://a.com/0", "https://a.com/1"]);
    let slices = partition(ts, 1);
    assert_eq!(slices.len(), 1);
    let worker0: Vec<&str> = slices[0].iter().map(|t| t.as_str()).collect();
    assert_eq!(worker0, vec!["https://a.com/0", "https://a.com/1"]);
}

#[test]
fn scheduler_bounds_in_flight() {
    let ts = targets_from(&[
        "https://a.com/0",
        "https://a.com/1",
        "https://a.com/2",
        "https://a.com/3",
    ]);
    let mut s = Scheduler::new(ts, 2);
    assert_eq!(s.worker_count(), 2);
    assert!(s.begin(0).is_some());
    assert!(s.begin(1).is_some());
    assert_eq!(s.in_flight_count(), 2);
    // Both slots hold a capture: neither may take on another target.
    assert!(s.begin(0).is_none());
    assert!(s.begin(1).is_none());
    assert_eq!(s.in_flight_count(), 2);
}

#[test]
fn scheduler_every_target_gets_one_outcome() {
    let ts = targets_from(&["https://a.com/0", "https://a.com/1", "https://a.com/2"]);
    let mut s = Scheduler::new(ts, 2);
    let mut guard = 0;
    while !s.is_done() {
        for w in 0..s.worker_count() {
            if s.begin(w).is_some() {
                s.finish(w, CaptureOutcome::TimedOut);
            }
        }
        guard += 1;
        assert!(guard < 10, "the run must terminate");
    }
    assert_eq!(s.outcomes().len(), 3);
    assert_eq!(s.pending_count(), 0);
    assert_eq!(s.in_flight_count(), 0);
}

#[test]
fn scheduler_slot_reusable_immediately_after_outcome() {
    let ts = targets_from(&["https://a.com/0", "https://a.com/1", "https://a.com/2"]);
    let mut s = Scheduler::new(ts, 2);
    // Worker 0's slice is targets 0 and 2.
    let first = s.begin(0).expect("worker 0 has work");
    assert_eq!(first.as_str(), "https://a.com/0");
    assert!(s.begin(0).is_none());
    s.finish(0, CaptureOutcome::TimedOut);
    let second = s.begin(0).expect("slot free again right after the outcome");
    assert_eq!(second.as_str(), "https://a.com/2");
}

#[test]
fn step_probe_budget_elapsed_times_out() {
    let next = step_target(TargetPhase::Probing, TargetEvent::ProbeBudgetElapsed);
    assert!(matches!(next, TargetPhase::Resolved { outcome: CaptureOutcome::TimedOut }));
}

#[test]
fn step_probe_refused_times_out() {
    let next = step_target(TargetPhase::Probing, TargetEvent::ProbeRefused);
    assert!(matches!(next, TargetPhase::Resolved { outcome: CaptureOutcome::TimedOut }));
}

#[test]
fn step_capture_deadline_times_out() {
    let probed = step_target(TargetPhase::Probing, TargetEvent::ProbeResponded);
    assert!(matches!(probed, TargetPhase::Capturing));
    let next = step_target(probed, TargetEvent::EngineDeadlineElapsed);
    assert!(matches!(next, TargetPhase::Resolved { outcome: CaptureOutcome::TimedOut }));
}

#[test]
fn step_engine_failure_is_recorded_not_fatal() {
    let next = step_target(
        TargetPhase::Capturing,
        TargetEvent::EngineFailed { reason: String::from("net::ERR_CONNECTION_RESET") },
    );
    match next {
        TargetPhase::Resolved { outcome: CaptureOutcome::Failed { reason } } => {
            assert_eq!(reason, "net::ERR_CONNECTION_RESET");
        }
        _ => panic!("an engine failure must resolve the target as Failed"),
    }
}

#[test]
fn step_store_failure_is_recorded_not_fatal() {
    let next = step_target(
        TargetPhase::Storing { bytes: vec![1, 2, 3], title: None, status: None },
        TargetEvent::StoreFailed { reason: String::from("read-only filesystem") },
    );
    match next {
        TargetPhase::Resolved { outcome: CaptureOutcome::Failed { reason } } => {
            assert_eq!(reason, "read-only filesystem");
        }
        _ => panic!("a write failure must resolve the target as Failed"),
    }
}

#[test]
fn step_successful_capture_is_stored() {
    let captured = step_target(
        TargetPhase::Capturing,
        TargetEvent::EngineCaptured {
            bytes: vec![137, 80, 78, 71],
            title: Some(String::from("Example")),
            status: Some(200),
        },
    );
    assert!(matches!(captured, TargetPhase::Storing { .. }));
    let next = step_target(captured, TargetEvent::StoreSucceeded);
    match next {
        TargetPhase::Resolved { outcome: CaptureOutcome::Success { bytes, title, status } } => {
            assert_eq!(bytes, vec![137, 80, 78, 71]);
            assert_eq!(title.as_deref(), Some("Example"));
            assert_eq!(status, Some(200));
        }
        _ => panic!("a stored capture must resolve the target as Success"),
    }
}

#[test]
fn mixed_input_run_produces_two_outcomes_and_two_files() {
    let lines = vec![
        String::from("https://example.com"),
        String::from("not a url"),
        String::from("https://example.com/page"),
    ];
    let targets = validate_targets(&lines);
    assert_eq!(targets.len(), 2, "one malformed line is dropped before scheduling");
    let mut s = Scheduler::new(targets, 2);
    let mut filenames = Vec::new();
    let mut guard = 0;
    while !s.is_done() {
        for w in 0..s.worker_count() {
            if let Some(t) = s.begin(w) {
                filenames.push(derive_filename(t.as_str()));
                let mut phase = TargetPhase::Probing;
                phase = step_target(phase, TargetEvent::ProbeResponded);
                phase = step_target(
                    phase,
                    TargetEvent::EngineCaptured { bytes: vec![0], title: None, status: Some(200) },
                );
                phase = step_target(phase, TargetEvent::StoreSucceeded);
                match phase {
                    TargetPhase::Resolved { outcome } => s.finish(w, outcome),
                    _ => panic!("the protocol must have resolved"),
                }
            }
        }
        guard += 1;
        assert!(guard < 10, "the run must terminate");
    }
    let outcomes = s.into_outcomes();
    assert_eq!(outcomes.len(), 2, "exactly one outcome per scheduled target");
    assert!(outcomes.iter().all(|o| matches!(o, CaptureOutcome::Success { .. })));
    assert_eq!(filenames.len(), 2);
    assert_ne!(filenames[0], filenames[1], "distinct URLs get distinct files");
}

#[test]
fn slow_navigation_times_out_and_frees_the_slot() {
    // The host answers the probe but navigation never completes: the capture's
    // budget elapses, the outcome is TimedOut, and the slot takes the next
    // target immediately.
    let targets = targets_from(&["https://a.com/hangs", "https://a.com/next"]);
    let mut s = Scheduler::new(targets, 1);
    let hung = s.begin(0).expect("worker 0 has work");
    assert_eq!(hung.as_str(), "https://a.com/hangs");
    let mut phase = TargetPhase::Probing;
    phase = step_target(phase, TargetEvent::ProbeResponded);
    phase = step_target(phase, TargetEvent::EngineDeadlineElapsed);
    match phase {
        TargetPhase::Resolved { outcome } => {
            assert!(matches!(outcome, CaptureOutcome::TimedOut));
            s.finish(0, outcome);
        }
        _ => panic!("the expired capture must have resolved"),
    }
    let next = s.begin(0).expect("slot reusable immediately after the timeout");
    assert_eq!(next.as_str(), "https://a.com/next");
}
