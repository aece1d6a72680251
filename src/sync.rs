use vstd::prelude::*;

verus! {

/// What the sync loop does next.
#[derive(Clone, Copy, Debug, PartialEq, Eq, Structural)]
pub enum SyncPhase {
    Pull,
    Restore,
    Sleep,
}

/// What came of the work of the current phase.
#[derive(Clone, Copy, Debug, PartialEq, Eq, Structural)]
pub enum SyncEvent {
    PullSucceeded,
    PullFailed,
    RestoreSucceeded,
    RestoreFailed,
    Woke,
}

/// What the loop reports on a step.
#[derive(Clone, Copy, Debug, PartialEq, Eq, Structural)]
pub enum SyncReport {
    Quiet,
    PullFailed,
    RestoreFailed,
}

#[derive(Clone, Copy, Debug, PartialEq, Eq, Structural)]
pub struct SyncStep {
    pub next: SyncPhase,
    pub report: SyncReport,
}

pub open spec fn sync_step_of(phase: SyncPhase, event: SyncEvent) -> SyncStep {
    match (phase, event) {
        (SyncPhase::Pull, SyncEvent::PullSucceeded) => SyncStep {
            next: SyncPhase::Restore,
            report: SyncReport::Quiet,
        },
        (SyncPhase::Pull, SyncEvent::PullFailed) => SyncStep {
            next: SyncPhase::Sleep,
            report: SyncReport::PullFailed,
        },
        (SyncPhase::Restore, SyncEvent::RestoreSucceeded) => SyncStep {
            next: SyncPhase::Sleep,
            report: SyncReport::Quiet,
        },
        (SyncPhase::Restore, SyncEvent::RestoreFailed) => SyncStep {
            next: SyncPhase::Sleep,
            report: SyncReport::RestoreFailed,
        },
        (SyncPhase::Sleep, SyncEvent::Woke) => SyncStep { next: SyncPhase::Pull, report: SyncReport::Quiet },
        _ => SyncStep { next: phase, report: SyncReport::Quiet },
    }
}

/// One step of the sync loop: a successful pull is followed by a restore; a
/// failed pull or restore is reported and the loop sleeps; after the sleep
/// the next cycle pulls. An event that does not belong to the phase leaves
/// it unchanged. No phase ends the loop.
pub fn sync_step(phase: SyncPhase, event: SyncEvent) -> (r: SyncStep)
    ensures
        r == sync_step_of(phase, event),
        phase == SyncPhase::Pull && event == SyncEvent::PullFailed ==> r.next == SyncPhase::Sleep,
        phase == SyncPhase::Restore ==> r.next != SyncPhase::Pull,
        phase == SyncPhase::Sleep && event == SyncEvent::Woke ==> r.next == SyncPhase::Pull,
{
    match (phase, event) {
        (SyncPhase::Pull, SyncEvent::PullSucceeded) => SyncStep {
            next: SyncPhase::Restore,
            report: SyncReport::Quiet,
        },
        (SyncPhase::Pull, SyncEvent::PullFailed) => SyncStep {
            next: SyncPhase::Sleep,
            report: SyncReport::PullFailed,
        },
        (SyncPhase::Restore, SyncEvent::RestoreSucceeded) => SyncStep {
            next: SyncPhase::Sleep,
            report: SyncReport::Quiet,
        },
        (SyncPhase::Restore, SyncEvent::RestoreFailed) => SyncStep {
            next: SyncPhase::Sleep,
            report: SyncReport::RestoreFailed,
        },
        (SyncPhase::Sleep, SyncEvent::Woke) => SyncStep { next: SyncPhase::Pull, report: SyncReport::Quiet },
        _ => SyncStep { next: phase, report: SyncReport::Quiet },
    }
}

/// The events that the work of each phase can produce.
pub open spec fn outcome_of(phase: SyncPhase, event: SyncEvent) -> bool {
    match phase {
        SyncPhase::Pull => event == SyncEvent::PullSucceeded || event == SyncEvent::PullFailed,
        SyncPhase::Restore => event == SyncEvent::RestoreSucceeded || event == SyncEvent::RestoreFailed,
        SyncPhase::Sleep => event == SyncEvent::Woke,
    }
}

/// Whatever the pull and the restore yield, a cycle that starts with a pull
/// comes back to a pull within three steps, and passes through a sleep on
/// the way: a failing cycle never stops the loop.
pub proof fn lemma_cycle_returns_to_pull(e1: SyncEvent, e2: SyncEvent, e3: SyncEvent)
    requires
        outcome_of(SyncPhase::Pull, e1),
        outcome_of(sync_step_of(SyncPhase::Pull, e1).next, e2),
    ensures
        ({
            let p1 = sync_step_of(SyncPhase::Pull, e1).next;
            let p2 = sync_step_of(p1, e2).next;
            p1 == SyncPhase::Sleep && p2 == SyncPhase::Pull || p2 == SyncPhase::Sleep && (
            outcome_of(p2, e3) ==> sync_step_of(p2, e3).next == SyncPhase::Pull)
        }),
{
}

} // verus!
