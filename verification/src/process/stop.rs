//! Stopping a router: a machine that is told what happened and says what to do next.

use vstd::prelude::*;

use crate::ids::Uuid;
use crate::process::cleanup::{
    begin_cleanup, cleanup_next, cleanup_start, continue_cleanup, CleanupPhase, CleanupStep,
    LauncherEvent,
};
use crate::process::{healthy, ProbeFailure, RouterLaunchError, RuntimeRecord};

verus! {

/// What the launcher is to do next.
#[derive(Clone, Copy, Debug, PartialEq, Eq, Structural)]
pub enum StopAction {
    Lock,
    Read,
    Probe,
    VerifyOwner,
    Shutdown,
    WaitStopped,
    Snapshot,
    Disable,
    /// Remove the record, if it is still of the same instance.
    Remove,
    Return(StopReturn),
}

/// How stopping ended.
#[derive(Clone, Copy, Debug, PartialEq, Eq, Structural)]
pub enum StopReturn {
    NotRunning,
    StaleRecovered,
    Stopped,
    Failed(RouterLaunchError),
}

#[derive(Clone, Copy, Debug, PartialEq, Eq, Structural)]
pub enum StopPhase {
    Lock,
    Read,
    Probe,
    /// The record is stale: its tailnet port is given back.
    CleanStale(CleanupPhase),
    RemoveStale,
    Verify,
    Shutdown,
    Wait,
    CleanStopped(CleanupPhase),
    RemoveStopped,
    Finished(StopReturn),
}

/// What a phase asks for.
pub open spec fn stop_action(phase: StopPhase) -> StopAction {
    match phase {
        StopPhase::Lock => StopAction::Lock,
        StopPhase::Read => StopAction::Read,
        StopPhase::Probe => StopAction::Probe,
        StopPhase::CleanStale(CleanupPhase::Disabling) => StopAction::Disable,
        StopPhase::CleanStale(_) => StopAction::Snapshot,
        StopPhase::RemoveStale => StopAction::Remove,
        StopPhase::Verify => StopAction::VerifyOwner,
        StopPhase::Shutdown => StopAction::Shutdown,
        StopPhase::Wait => StopAction::WaitStopped,
        StopPhase::CleanStopped(CleanupPhase::Disabling) => StopAction::Disable,
        StopPhase::CleanStopped(_) => StopAction::Snapshot,
        StopPhase::RemoveStopped => StopAction::Remove,
        StopPhase::Finished(outcome) => StopAction::Return(outcome),
    }
}

/// The stop of a router, perhaps only of a given instance.
pub struct StopMachine {
    expected: Option<Uuid>,
    record: Option<RuntimeRecord>,
    phase: StopPhase,
}

impl StopMachine {
    /// The instance that is to be stopped, whichever it is where none is given.
    pub closed spec fn wanted(self) -> Option<Uuid> {
        self.expected
    }

    /// The record of the router that is being stopped.
    pub closed spec fn target(self) -> Option<RuntimeRecord> {
        self.record
    }

    pub closed spec fn at(self) -> StopPhase {
        self.phase
    }

    /// Past the reading there is a record, and giving back a port there is a port.
    pub open spec fn wf(self) -> bool {
        match self.at() {
            StopPhase::Lock | StopPhase::Read | StopPhase::Finished(_) => true,
            StopPhase::CleanStale(_) | StopPhase::CleanStopped(_) => self.target() is Some
                && self.target()->0.owned_serve is Some,
            _ => self.target() is Some,
        }
    }
}

/// The phase that giving back the port leads to.
pub open spec fn stale_phase(step: CleanupStep) -> StopPhase {
    match step {
        CleanupStep::Go(phase) => StopPhase::CleanStale(phase),
        CleanupStep::Finished => StopPhase::RemoveStale,
        CleanupStep::Fault(error) => StopPhase::Finished(StopReturn::Failed(error)),
    }
}

/// The phase that giving back the port of a router that has stopped leads to.
pub open spec fn stopped_phase(step: CleanupStep) -> StopPhase {
    match step {
        CleanupStep::Go(phase) => StopPhase::CleanStopped(phase),
        CleanupStep::Finished => StopPhase::RemoveStopped,
        CleanupStep::Fault(error) => StopPhase::Finished(StopReturn::Failed(error)),
    }
}

/// The phase that an event leads to. An event that the phase does not wait for changes
/// nothing.
pub open spec fn stop_next(
    phase: StopPhase,
    expected: Option<Uuid>,
    record: Option<RuntimeRecord>,
    event: LauncherEvent,
) -> StopPhase {
    match (phase, event) {
        (StopPhase::Finished(_), _) => phase,
        (StopPhase::CleanStale(cleanup), _) => match cleanup_next(
            cleanup,
            record->0.owned_serve->0,
            event,
        ) {
            Some(step) => stale_phase(step),
            None => phase,
        },
        (StopPhase::CleanStopped(cleanup), _) => match cleanup_next(
            cleanup,
            record->0.owned_serve->0,
            event,
        ) {
            Some(step) => stopped_phase(step),
            None => phase,
        },
        (_, LauncherEvent::Failed(error)) => StopPhase::Finished(StopReturn::Failed(error)),
        (StopPhase::Wait, LauncherEvent::TimedOut) => StopPhase::Finished(
            StopReturn::Failed(RouterLaunchError::ShutdownTimeout),
        ),
        (StopPhase::Lock, LauncherEvent::Done) => StopPhase::Read,
        (StopPhase::Read, LauncherEvent::Record(None)) => StopPhase::Finished(
            StopReturn::NotRunning,
        ),
        (StopPhase::Read, LauncherEvent::Record(Some(found))) => if expected matches Some(id) && id
            != found.instance_id {
            StopPhase::Finished(StopReturn::Failed(RouterLaunchError::InstanceChanged))
        } else {
            StopPhase::Probe
        },
        (StopPhase::Probe, LauncherEvent::Probed(Ok(marker))) => if healthy(
            marker,
            record->0.instance_id,
        ) {
            StopPhase::Verify
        } else {
            StopPhase::Finished(
                StopReturn::Failed(RouterLaunchError::Health(ProbeFailure::MarkerMismatch)),
            )
        },
        (StopPhase::Probe, LauncherEvent::Probed(Err(ProbeFailure::ConnectionRefused))) => {
            stale_phase(cleanup_start(record->0))
        },
        (StopPhase::Probe, LauncherEvent::Probed(Err(failure))) => StopPhase::Finished(
            StopReturn::Failed(RouterLaunchError::Health(failure)),
        ),
        (StopPhase::RemoveStale, LauncherEvent::Done) => StopPhase::Finished(
            StopReturn::StaleRecovered,
        ),
        (StopPhase::Verify, LauncherEvent::Done) => StopPhase::Shutdown,
        (StopPhase::Shutdown, LauncherEvent::Done) => StopPhase::Wait,
        (StopPhase::Wait, LauncherEvent::Done) => stopped_phase(cleanup_start(record->0)),
        (StopPhase::RemoveStopped, LauncherEvent::Done) => StopPhase::Finished(StopReturn::Stopped),
        _ => phase,
    }
}

fn action_of(phase: StopPhase) -> (action: StopAction)
    ensures
        action == stop_action(phase),
{
    match phase {
        StopPhase::Lock => StopAction::Lock,
        StopPhase::Read => StopAction::Read,
        StopPhase::Probe => StopAction::Probe,
        StopPhase::CleanStale(CleanupPhase::Disabling) => StopAction::Disable,
        StopPhase::CleanStale(_) => StopAction::Snapshot,
        StopPhase::RemoveStale => StopAction::Remove,
        StopPhase::Verify => StopAction::VerifyOwner,
        StopPhase::Shutdown => StopAction::Shutdown,
        StopPhase::Wait => StopAction::WaitStopped,
        StopPhase::CleanStopped(CleanupPhase::Disabling) => StopAction::Disable,
        StopPhase::CleanStopped(_) => StopAction::Snapshot,
        StopPhase::RemoveStopped => StopAction::Remove,
        StopPhase::Finished(outcome) => StopAction::Return(outcome),
    }
}

fn stale(step: CleanupStep) -> (phase: StopPhase)
    ensures
        phase == stale_phase(step),
{
    match step {
        CleanupStep::Go(phase) => StopPhase::CleanStale(phase),
        CleanupStep::Finished => StopPhase::RemoveStale,
        CleanupStep::Fault(error) => StopPhase::Finished(StopReturn::Failed(error)),
    }
}

fn stopped(step: CleanupStep) -> (phase: StopPhase)
    ensures
        phase == stopped_phase(step),
{
    match step {
        CleanupStep::Go(phase) => StopPhase::CleanStopped(phase),
        CleanupStep::Finished => StopPhase::RemoveStopped,
        CleanupStep::Fault(error) => StopPhase::Finished(StopReturn::Failed(error)),
    }
}

impl StopMachine {
    /// The stop of whichever router runs, or only of the given instance.
    pub fn new(expected: Option<Uuid>) -> (machine: StopMachine)
        ensures
            machine.wf(),
            machine.wanted() == expected,
            machine.target() is None,
            machine.at() is Lock,
    {
        StopMachine { expected, record: None, phase: StopPhase::Lock }
    }

    /// The record of the router that is being stopped.
    pub fn record(&self) -> (record: Option<&RuntimeRecord>)
        ensures
            record == (match self.target() {
                Some(found) => Some(&found),
                None => None,
            }),
    {
        self.record.as_ref()
    }

    /// Whether what is to be done now has to be done within the time for a shutdown.
    pub fn bounded(&self) -> (yes: bool)
        ensures
            yes == (self.at() is Wait),
    {
        matches!(self.phase, StopPhase::Wait)
    }

    /// What is to be done now.
    pub fn action(&self) -> (action: StopAction)
        ensures
            action == stop_action(self.at()),
    {
        action_of(self.phase)
    }

    fn decide(&self, event: &LauncherEvent) -> (phase: StopPhase)
        requires
            self.wf(),
        ensures
            phase == stop_next(self.at(), self.wanted(), self.target(), *event),
    {
        let phase = self.phase;
        if let StopPhase::Finished(_) = phase {
            return phase;
        }
        if let Some(record) = &self.record {
            if let StopPhase::CleanStale(cleanup) = phase {
                if let Some(serve) = &record.owned_serve {
                    return match continue_cleanup(cleanup, serve, event) {
                        Some(step) => stale(step),
                        None => phase,
                    };
                }
            }
            if let StopPhase::CleanStopped(cleanup) = phase {
                if let Some(serve) = &record.owned_serve {
                    return match continue_cleanup(cleanup, serve, event) {
                        Some(step) => stopped(step),
                        None => phase,
                    };
                }
            }
        }
        match event {
            LauncherEvent::Failed(error) => StopPhase::Finished(StopReturn::Failed(*error)),
            LauncherEvent::TimedOut => match phase {
                StopPhase::Wait => StopPhase::Finished(
                    StopReturn::Failed(RouterLaunchError::ShutdownTimeout),
                ),
                _ => phase,
            },
            LauncherEvent::Done => match phase {
                StopPhase::Lock => StopPhase::Read,
                StopPhase::RemoveStale => StopPhase::Finished(StopReturn::StaleRecovered),
                StopPhase::Verify => StopPhase::Shutdown,
                StopPhase::Shutdown => StopPhase::Wait,
                StopPhase::Wait => match &self.record {
                    Some(record) => stopped(begin_cleanup(record)),
                    None => phase,
                },
                StopPhase::RemoveStopped => StopPhase::Finished(StopReturn::Stopped),
                _ => phase,
            },
            LauncherEvent::Record(found) => match phase {
                StopPhase::Read => match found {
                    None => StopPhase::Finished(StopReturn::NotRunning),
                    Some(found) => match self.expected {
                        Some(id) if id != found.instance_id => StopPhase::Finished(
                            StopReturn::Failed(RouterLaunchError::InstanceChanged),
                        ),
                        _ => StopPhase::Probe,
                    },
                },
                _ => phase,
            },
            LauncherEvent::Probed(answer) => match (phase, &self.record) {
                (StopPhase::Probe, Some(record)) => match answer {
                    Ok(marker) => match marker.verify(record.instance_id) {
                        Ok(()) => StopPhase::Verify,
                        Err(error) => StopPhase::Finished(StopReturn::Failed(error)),
                    },
                    Err(ProbeFailure::ConnectionRefused) => stale(begin_cleanup(record)),
                    Err(failure) => StopPhase::Finished(
                        StopReturn::Failed(RouterLaunchError::Health(*failure)),
                    ),
                },
                _ => phase,
            },
            _ => phase,
        }
    }

    /// Takes what happened and says what to do next.
    pub fn step(&mut self, event: LauncherEvent) -> (action: StopAction)
        requires
            old(self).wf(),
        ensures
            final(self).wf(),
            final(self).wanted() == old(self).wanted(),
            final(self).at() == stop_next(
                old(self).at(),
                old(self).wanted(),
                old(self).target(),
                event,
            ),
            final(self).target() == (match (old(self).at(), event) {
                (StopPhase::Read, LauncherEvent::Record(found)) => found,
                _ => old(self).target(),
            }),
            action == stop_action(final(self).at()),
    {
        let phase = self.decide(&event);
        if let LauncherEvent::Record(found) = event {
            if let StopPhase::Read = self.phase {
                self.record = found;
            }
        }
        self.phase = phase;
        action_of(phase)
    }
}

/// A stop that is meant for one instance never touches another: with the record of another
/// instance it ends before anything is probed, shut down or removed.
pub proof fn stop_is_fenced_by_instance(
    expected: Uuid,
    found: RuntimeRecord,
    record: Option<RuntimeRecord>,
)
    requires
        found.instance_id != expected,
    ensures
        stop_action(
            stop_next(
                StopPhase::Read,
                Some(expected),
                record,
                LauncherEvent::Record(Some(found)),
            ),
        ) == StopAction::Return(StopReturn::Failed(RouterLaunchError::InstanceChanged)),
{
}

/// A router that does not stop in time is no stopped router: its record stays.
pub proof fn late_stops_fail(expected: Option<Uuid>, record: Option<RuntimeRecord>)
    ensures
        stop_action(stop_next(StopPhase::Wait, expected, record, LauncherEvent::TimedOut))
            == StopAction::Return(StopReturn::Failed(RouterLaunchError::ShutdownTimeout)),
{
}

/// A router is shut down only after it answered as the recorded instance and its owner was
/// verified.
pub proof fn shutdown_follows_verification(
    phase: StopPhase,
    expected: Option<Uuid>,
    record: Option<RuntimeRecord>,
    event: LauncherEvent,
)
    ensures
        stop_next(phase, expected, record, event) is Shutdown && !(phase is Shutdown) ==> phase
            is Verify && event is Done,
        stop_next(phase, expected, record, event) is Verify && !(phase is Verify) ==> phase is Probe
            && (event matches LauncherEvent::Probed(Ok(marker)) && healthy(
            marker,
            record->0.instance_id,
        )),
{
}

} // verus!
