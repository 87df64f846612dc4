//! Giving back the tailnet port of a router: only a forward that still leads where the
//! router's own port leads is touched.

use vstd::prelude::*;

use crate::process::startup::StartupReady;
use crate::process::{
    forward_of, serve_ok, snapshot_ok, HealthMarker, OwnedServe, ProbeFailure, RouterLaunchError,
    RuntimeRecord, TailscaleSnapshot,
};

verus! {

/// What happened outside.
#[derive(Debug, PartialEq)]
pub enum LauncherEvent {
    /// What was asked for was done.
    Done,
    /// What was asked for failed.
    Failed(RouterLaunchError),
    /// What was asked for was not done in time.
    TimedOut,
    /// The record that was read.
    Record(Option<RuntimeRecord>),
    /// What the router answered when it was asked for its health.
    Probed(Result<HealthMarker, ProbeFailure>),
    /// What Tailscale says.
    Snapshot(TailscaleSnapshot),
    /// The router process is ready.
    Ready(StartupReady),
    /// The router process ended with a code.
    Exited(i32),
}

/// How far giving back a tailnet port has come.
#[derive(Clone, Copy, Debug, PartialEq, Eq, Structural)]
pub enum CleanupPhase {
    /// The forwards are being looked at.
    Inspecting,
    /// The forward is being removed.
    Disabling,
    /// The forwards are being looked at once more.
    Confirming,
}

/// Where giving back a tailnet port goes on.
#[derive(Clone, Copy, Debug, PartialEq, Eq, Structural)]
pub enum CleanupStep {
    Go(CleanupPhase),
    Finished,
    Fault(RouterLaunchError),
}

/// How giving back a tailnet port begins: a router without one has nothing to give back.
pub open spec fn cleanup_start(record: RuntimeRecord) -> CleanupStep {
    match record.owned_serve {
        None => CleanupStep::Finished,
        Some(serve) => if serve_ok(serve, record.instance_id) {
            CleanupStep::Go(CleanupPhase::Inspecting)
        } else {
            CleanupStep::Fault(RouterLaunchError::InvalidRuntimeRecord)
        },
    }
}

/// Where giving back a tailnet port goes on after an event, nowhere where the phase does
/// not wait for it.
pub open spec fn cleanup_next(
    phase: CleanupPhase,
    serve: OwnedServe,
    event: LauncherEvent,
) -> Option<CleanupStep> {
    match (phase, event) {
        (_, LauncherEvent::Failed(error)) => Some(CleanupStep::Fault(error)),
        (CleanupPhase::Inspecting, LauncherEvent::Snapshot(snapshot)) => Some(
            if !snapshot_ok(snapshot) {
                CleanupStep::Fault(RouterLaunchError::TailscaleUnavailable)
            } else {
                match forward_of(snapshot, serve.port) {
                    None => CleanupStep::Finished,
                    Some(target) => if target == serve.target@ {
                        CleanupStep::Go(CleanupPhase::Disabling)
                    } else {
                        CleanupStep::Fault(RouterLaunchError::TailscaleMappingConflict)
                    },
                }
            },
        ),
        (CleanupPhase::Disabling, LauncherEvent::Done) => Some(
            CleanupStep::Go(CleanupPhase::Confirming),
        ),
        (CleanupPhase::Confirming, LauncherEvent::Snapshot(snapshot)) => Some(
            if !snapshot_ok(snapshot) {
                CleanupStep::Fault(RouterLaunchError::TailscaleUnavailable)
            } else if forward_of(snapshot, serve.port) is Some {
                CleanupStep::Fault(RouterLaunchError::TailscaleMappingConflict)
            } else {
                CleanupStep::Finished
            },
        ),
        _ => None,
    }
}

/// How giving back a router's tailnet port begins.
pub fn begin_cleanup(record: &RuntimeRecord) -> (step: CleanupStep)
    ensures
        step == cleanup_start(*record),
{
    match &record.owned_serve {
        None => CleanupStep::Finished,
        Some(serve) => match serve.validate(record.instance_id) {
            Ok(()) => CleanupStep::Go(CleanupPhase::Inspecting),
            Err(error) => CleanupStep::Fault(error),
        },
    }
}

/// Where giving back a tailnet port goes on after an event.
pub fn continue_cleanup(phase: CleanupPhase, serve: &OwnedServe, event: &LauncherEvent) -> (step:
    Option<CleanupStep>)
    ensures
        step == cleanup_next(phase, *serve, *event),
{
    match (phase, event) {
        (_, LauncherEvent::Failed(error)) => Some(CleanupStep::Fault(*error)),
        (CleanupPhase::Inspecting, LauncherEvent::Snapshot(snapshot)) => Some(
            if let Err(error) = snapshot.validate() {
                CleanupStep::Fault(error)
            } else if snapshot.forward(serve.port).is_none() {
                CleanupStep::Finished
            } else if snapshot.forwards(serve) {
                CleanupStep::Go(CleanupPhase::Disabling)
            } else {
                CleanupStep::Fault(RouterLaunchError::TailscaleMappingConflict)
            },
        ),
        (CleanupPhase::Disabling, LauncherEvent::Done) => Some(
            CleanupStep::Go(CleanupPhase::Confirming),
        ),
        (CleanupPhase::Confirming, LauncherEvent::Snapshot(snapshot)) => Some(
            if let Err(error) = snapshot.validate() {
                CleanupStep::Fault(error)
            } else if snapshot.forward(serve.port).is_some() {
                CleanupStep::Fault(RouterLaunchError::TailscaleMappingConflict)
            } else {
                CleanupStep::Finished
            },
        ),
        _ => None,
    }
}

/// A forward is removed only after it was seen to lead where the router's own port leads.
pub proof fn foreign_forwards_are_left_alone(
    phase: CleanupPhase,
    serve: OwnedServe,
    event: LauncherEvent,
)
    requires
        cleanup_next(phase, serve, event) == Some(CleanupStep::Go(CleanupPhase::Disabling)),
    ensures
        phase is Inspecting,
        event matches LauncherEvent::Snapshot(snapshot) && forward_of(snapshot, serve.port) == Some(
            serve.target@,
        ),
{
}

/// Giving back a tailnet port ends well only where the port was seen not to be forwarded.
pub proof fn given_back_ports_are_free(
    phase: CleanupPhase,
    serve: OwnedServe,
    event: LauncherEvent,
)
    requires
        cleanup_next(phase, serve, event) == Some(CleanupStep::Finished),
    ensures
        event matches LauncherEvent::Snapshot(snapshot) && forward_of(snapshot, serve.port) is None,
{
}

} // verus!
