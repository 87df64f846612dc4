//! How the process of a provider is ended and reaped.

use vstd::prelude::*;

use crate::providers::PROVIDER_TERMINAL_GRACE_MS;

verus! {

/// What is to be done to reap a process.
#[derive(Clone, Copy, Debug, PartialEq, Eq, Structural)]
pub enum ReapPhase {
    /// It is to be seen whether the process has ended. One that was asked to end may get
    /// time for it.
    Look { graceful: bool },
    /// Its end is to be awaited, for so many milliseconds.
    Grace(u64),
    /// It is to be killed.
    Kill,
    /// Its end is to be awaited.
    Wait,
    /// It is over, and was reaped or not.
    Over { reaped: bool },
}

/// How that went.
#[derive(Clone, Copy, Debug, PartialEq, Eq, Structural)]
pub enum ReapEvent {
    Exited,
    /// It has not ended, or it could not be seen whether it has.
    Running,
    TimedOut,
    Killed,
    Failed,
}

/// What is to be done once something has been.
pub open spec fn reap_after(phase: ReapPhase, event: ReapEvent) -> ReapPhase {
    match (phase, event) {
        (ReapPhase::Over { .. }, _) => phase,
        (ReapPhase::Kill, ReapEvent::Killed) => ReapPhase::Wait,
        (ReapPhase::Kill, _) => phase,
        (_, ReapEvent::Exited) => ReapPhase::Over { reaped: true },
        (ReapPhase::Look { graceful }, ReapEvent::Running) => if graceful {
            ReapPhase::Grace(PROVIDER_TERMINAL_GRACE_MS)
        } else {
            ReapPhase::Kill
        },
        (ReapPhase::Grace(_), ReapEvent::TimedOut) => ReapPhase::Look { graceful: false },
        (ReapPhase::Grace(_), ReapEvent::Failed) => ReapPhase::Over { reaped: false },
        (ReapPhase::Wait, ReapEvent::Failed) => ReapPhase::Over { reaped: false },
        _ => phase,
    }
}

impl ReapPhase {
    /// What is to be done once something has been.
    pub fn step(self, event: ReapEvent) -> (next: ReapPhase)
        ensures
            next == reap_after(self, event),
    {
        match (self, event) {
            (ReapPhase::Over { .. }, _) => self,
            (ReapPhase::Kill, ReapEvent::Killed) => ReapPhase::Wait,
            (ReapPhase::Kill, _) => self,
            (_, ReapEvent::Exited) => ReapPhase::Over { reaped: true },
            (ReapPhase::Look { graceful }, ReapEvent::Running) => if graceful {
                ReapPhase::Grace(PROVIDER_TERMINAL_GRACE_MS)
            } else {
                ReapPhase::Kill
            },
            (ReapPhase::Grace(_), ReapEvent::TimedOut) => ReapPhase::Look { graceful: false },
            (ReapPhase::Grace(_), ReapEvent::Failed) => ReapPhase::Over { reaped: false },
            (ReapPhase::Wait, ReapEvent::Failed) => ReapPhase::Over { reaped: false },
            _ => self,
        }
    }
}

/// A process counts as reaped only once its end was seen. It is killed only where it was
/// looked for and no end was seen, and one that gets time only after that time.
pub proof fn processes_are_killed_last(phase: ReapPhase, event: ReapEvent)
    ensures
        reap_after(phase, event) == (ReapPhase::Over { reaped: true }) && phase != (
        ReapPhase::Over { reaped: true }) ==> event is Exited,
        reap_after(phase, event) is Kill && !(phase is Kill) ==> phase == (ReapPhase::Look {
            graceful: false,
        }) && event is Running,
        reap_after(phase, event) == (ReapPhase::Look { graceful: false }) && phase != (
        ReapPhase::Look { graceful: false }) ==> phase is Grace && event is TimedOut,
{
}

} // verus!
