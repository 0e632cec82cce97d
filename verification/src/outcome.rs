//! Per-target capture protocol: phases, events, and the transition function.
//!
//! Each target runs through a small protocol: a bounded liveness probe, then
//! the navigate-and-capture call, then the file write. The unverified shell
//! performs those operations and reports what happened as a [`TargetEvent`];
//! the verified [`step_target`] function decides what follows. A target that
//! fails its probe, or whose capture or probe exceeds its budget, resolves to
//! `TimedOut`; an engine or write error resolves to `Failed`; nothing aborts
//! the run.

use vstd::prelude::*;

verus! {

/// The terminal result of one capture attempt. Every target produces exactly
/// one of these; a failure is recorded, never propagated to sibling tasks.
pub enum CaptureOutcome {
    /// The page was captured and its image stored.
    Success { bytes: Vec<u8>, title: Option<String>, status: Option<u16> },
    /// The liveness probe or the capture exceeded its budget, or the probe
    /// found the host unreachable.
    TimedOut,
    /// The engine failed to navigate or capture, or the image could not be
    /// written.
    Failed { reason: String },
}

/// Where one target currently stands in its capture protocol.
pub enum TargetPhase {
    /// The bounded reachability probe is in flight.
    Probing,
    /// The engine is navigating to the target and capturing it.
    Capturing,
    /// The captured image is being written to its file.
    Storing { bytes: Vec<u8>, title: Option<String>, status: Option<u16> },
    /// The attempt reached its one terminal outcome.
    Resolved { outcome: CaptureOutcome },
}

/// What the unverified shell observed while performing the current phase's
/// operation.
pub enum TargetEvent {
    /// The probe got an answer within its budget.
    ProbeResponded,
    /// The probe finished within its budget but the host was unreachable.
    ProbeRefused,
    /// The probe's budget elapsed before any answer.
    ProbeBudgetElapsed,
    /// The engine returned the page's image and metadata.
    EngineCaptured { bytes: Vec<u8>, title: Option<String>, status: Option<u16> },
    /// The engine reported a navigation or protocol error.
    EngineFailed { reason: String },
    /// The capture's wall-clock budget elapsed; the operation was abandoned.
    EngineDeadlineElapsed,
    /// The image file was written completely.
    StoreSucceeded,
    /// The filesystem rejected the write.
    StoreFailed { reason: String },
}

/// Which events may be delivered in which phase. A resolved target accepts
/// no further event: its outcome is final.
pub open spec fn accepts(phase: TargetPhase, ev: TargetEvent) -> bool {
    match phase {
        TargetPhase::Probing => ev is ProbeResponded || ev is ProbeRefused
            || ev is ProbeBudgetElapsed,
        TargetPhase::Capturing => ev is EngineCaptured || ev is EngineFailed
            || ev is EngineDeadlineElapsed,
        TargetPhase::Storing { .. } => ev is StoreSucceeded || ev is StoreFailed,
        TargetPhase::Resolved { .. } => false,
    }
}

/// The transition relation of the per-target protocol.
///
/// A probe that is answered commits the worker to the capture; a refused or
/// expired probe skips the capture and records `TimedOut`, deliberately
/// treating a slow-but-alive host the same as a dead one. An expired capture
/// also records `TimedOut`; engine and write errors record `Failed` with
/// their reason; a stored capture records `Success`.
pub open spec fn spec_step(phase: TargetPhase, ev: TargetEvent) -> TargetPhase {
    match (phase, ev) {
        (TargetPhase::Probing, TargetEvent::ProbeResponded) => TargetPhase::Capturing,
        (TargetPhase::Probing, TargetEvent::ProbeRefused) => TargetPhase::Resolved {
            outcome: CaptureOutcome::TimedOut,
        },
        (TargetPhase::Probing, TargetEvent::ProbeBudgetElapsed) => TargetPhase::Resolved {
            outcome: CaptureOutcome::TimedOut,
        },
        (
            TargetPhase::Capturing,
            TargetEvent::EngineCaptured { bytes, title, status },
        ) => TargetPhase::Storing { bytes, title, status },
        (TargetPhase::Capturing, TargetEvent::EngineFailed { reason }) => TargetPhase::Resolved {
            outcome: CaptureOutcome::Failed { reason },
        },
        (TargetPhase::Capturing, TargetEvent::EngineDeadlineElapsed) => TargetPhase::Resolved {
            outcome: CaptureOutcome::TimedOut,
        },
        (
            TargetPhase::Storing { bytes, title, status },
            TargetEvent::StoreSucceeded,
        ) => TargetPhase::Resolved {
            outcome: CaptureOutcome::Success { bytes, title, status },
        },
        (TargetPhase::Storing { .. }, TargetEvent::StoreFailed { reason }) => TargetPhase::Resolved {
            outcome: CaptureOutcome::Failed { reason },
        },
        (p, _) => p,
    }
}

/// Advance one target's protocol by one observed event.
pub fn step_target(phase: TargetPhase, ev: TargetEvent) -> (next: TargetPhase)
    requires
        accepts(phase, ev),
    ensures
        next == spec_step(phase, ev),
{
    match (phase, ev) {
        (TargetPhase::Probing, TargetEvent::ProbeResponded) => TargetPhase::Capturing,
        (TargetPhase::Probing, TargetEvent::ProbeRefused) => TargetPhase::Resolved {
            outcome: CaptureOutcome::TimedOut,
        },
        (TargetPhase::Probing, TargetEvent::ProbeBudgetElapsed) => TargetPhase::Resolved {
            outcome: CaptureOutcome::TimedOut,
        },
        (
            TargetPhase::Capturing,
            TargetEvent::EngineCaptured { bytes, title, status },
        ) => TargetPhase::Storing { bytes, title, status },
        (TargetPhase::Capturing, TargetEvent::EngineFailed { reason }) => TargetPhase::Resolved {
            outcome: CaptureOutcome::Failed { reason },
        },
        (TargetPhase::Capturing, TargetEvent::EngineDeadlineElapsed) => TargetPhase::Resolved {
            outcome: CaptureOutcome::TimedOut,
        },
        (
            TargetPhase::Storing { bytes, title, status },
            TargetEvent::StoreSucceeded,
        ) => TargetPhase::Resolved {
            outcome: CaptureOutcome::Success { bytes, title, status },
        },
        (TargetPhase::Storing { .. }, TargetEvent::StoreFailed { reason }) => TargetPhase::Resolved {
            outcome: CaptureOutcome::Failed { reason },
        },
        (p, _) => p,
    }
}

/// A target whose probe or capture exceeds its configured budget always
/// resolves to `TimedOut` — the expiry is converted into a bounded outcome,
/// never left pending.
pub proof fn lemma_deadline_yields_timed_out(phase: TargetPhase, ev: TargetEvent)
    requires
        accepts(phase, ev),
        ev is ProbeBudgetElapsed || ev is EngineDeadlineElapsed,
    ensures
        spec_step(phase, ev) == (TargetPhase::Resolved { outcome: CaptureOutcome::TimedOut }),
{
}

/// A resolved target is terminal: no event can change its outcome, so each
/// target carries exactly one outcome for the rest of the run.
pub proof fn lemma_resolved_is_terminal(outcome: CaptureOutcome, ev: TargetEvent)
    ensures
        !accepts(TargetPhase::Resolved { outcome }, ev),
{
}

} // verus!
