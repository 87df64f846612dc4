//! Starting a router: a machine that is told what happened and says what to do next.

use vstd::prelude::*;

use crate::ids::Uuid;
use crate::net::{parse_url, parsed_url, Ipv4};
use crate::process::cleanup::{
    begin_cleanup, cleanup_next, cleanup_start, continue_cleanup, CleanupPhase, CleanupStep,
    LauncherEvent,
};
use crate::process::startup::{
    control_url_ok, validate_ready_control_url, StartOptions, StartupReady,
};
use crate::process::{
    forward_of, healthy, loopback_target, resolve_share_mode, share_mode_of, snapshot_ok,
    OwnedServe, ProbeFailure, RouterLaunchError, RuntimeRecord, RuntimeShareMode, ShareRequest,
};
use crate::text::{concat3, decimal, decimal_text, opt_text, same_text};

verus! {

/// What the launcher is to do next.
#[derive(Clone, Copy, Debug, PartialEq, Eq, Structural)]
pub enum StartAction {
    Lock,
    Read,
    /// Ask the recorded router for its health.
    Probe,
    VerifyOwner,
    Snapshot,
    /// Tell the child how it is going to be shared.
    Configure(RuntimeShareMode),
    Launch,
    /// Write the record.
    Write,
    Acknowledge,
    /// Forward the recorded tailnet port.
    Enable,
    /// Stop forwarding the recorded tailnet port.
    Disable,
    /// Publish the router's URL in the profile.
    Publish,
    Terminate,
    /// Remove the record, if it is still of the same instance.
    Remove,
    Detach,
    /// Give the lock back and wait for the child to end.
    Wait,
    /// Take the lock again.
    Relock,
    Return(StartReturn),
}

/// How starting ended.
#[derive(Clone, Copy, Debug, PartialEq, Eq, Structural)]
pub enum StartReturn {
    /// The recorded router runs and is used.
    Reused,
    /// A router runs in the background.
    Started,
    /// A router ran in the foreground and ended with a code.
    Exited(i32),
    Failed(RouterLaunchError),
}

#[derive(Clone, Copy, Debug, PartialEq, Eq)]
pub enum StartPhase {
    Lock,
    Read,
    /// A router is recorded: does it run?
    ProbeOld,
    VerifyOld,
    CleanOld(CleanupPhase),
    RemoveOld,
    /// Is there a tailnet to share over?
    Survey,
    Configure,
    Launch,
    /// Is the tailnet port free?
    Claim,
    Write,
    Acknowledge,
    Probe,
    Verify,
    Enable,
    Confirm,
    Advertise,
    Publish,
    /// The child is ended because of an error.
    Terminate(RouterLaunchError),
    /// The child is ended because it could not be acknowledged.
    TerminateUnacknowledged(RouterLaunchError),
    Forget(RouterLaunchError),
    /// The port of a router that could not be set up is given back.
    UndoServe(CleanupPhase, RouterLaunchError),
    /// The child of a router that could not be set up is ended. The second error is what
    /// went wrong when its port was given back.
    UndoChild(RouterLaunchError, Option<RouterLaunchError>),
    UndoRecord(RouterLaunchError),
    Detach,
    Wait,
    Relock(Result<i32, RouterLaunchError>),
    Reread(Result<i32, RouterLaunchError>),
    CleanExited(CleanupPhase, Result<i32, RouterLaunchError>),
    RemoveExited(Result<i32, RouterLaunchError>),
    Finished(StartReturn),
}

/// The start of a router.
pub struct StartMachine {
    options: StartOptions,
    instance_id: Uuid,
    share_mode: RuntimeShareMode,
    port: u16,
    record: Option<RuntimeRecord>,
    phase: StartPhase,
}

impl StartMachine {
    pub closed spec fn asked(self) -> StartOptions {
        self.options
    }

    /// The instance that is being started.
    pub closed spec fn instance(self) -> Uuid {
        self.instance_id
    }

    /// How the router is going to be shared, once that is settled.
    pub closed spec fn mode(self) -> RuntimeShareMode {
        self.share_mode
    }

    /// The port of the child's endpoint, once that is known.
    pub closed spec fn endpoint_port(self) -> u16 {
        self.port
    }

    /// The record of the router at hand.
    pub closed spec fn target(self) -> Option<RuntimeRecord> {
        self.record
    }

    pub closed spec fn at(self) -> StartPhase {
        self.phase
    }

    /// Where a phase acts on a record there is one, and where it acts on a port there is
    /// one. A router is not advertised before it is set up, and then as it is shared.
    pub open spec fn wf(self) -> bool {
        match self.at() {
            StartPhase::Lock | StartPhase::Read | StartPhase::Survey | StartPhase::Configure
            | StartPhase::Launch | StartPhase::Terminate(_) | StartPhase::Finished(_) => true,
            StartPhase::CleanOld(_) | StartPhase::UndoServe(_, _)
            | StartPhase::CleanExited(_, _) => self.target() is Some
                && self.target()->0.owned_serve is Some,
            StartPhase::Claim | StartPhase::Write | StartPhase::Acknowledge | StartPhase::Probe
            | StartPhase::Verify => self.target() is Some && self.target()->0.advertised_url
                is None,
            StartPhase::Enable | StartPhase::Confirm => {
                &&& self.target() is Some
                &&& self.target()->0.owned_serve is Some
                &&& self.target()->0.share_mode is Tailscale
                &&& self.target()->0.advertised_url is None
            },
            StartPhase::Advertise | StartPhase::Publish => self.target() is Some
                && advertised_as_shared(self.target()->0),
            _ => self.target() is Some,
        }
    }
}

/// A router on this machine alone is not advertised, one on the LAN is with its own URL, and
/// one on the tailnet with a URL there.
pub open spec fn advertised_as_shared(record: RuntimeRecord) -> bool {
    match record.share_mode {
        RuntimeShareMode::Local => record.advertised_url is None,
        RuntimeShareMode::Lan => opt_text(record.advertised_url) == Some(record.control_url@),
        RuntimeShareMode::Tailscale => record.advertised_url is Some,
    }
}

/// The URL that a router is published under: the one that it is advertised with, and its own
/// where it is not advertised.
pub open spec fn published(record: RuntimeRecord) -> Seq<char> {
    match opt_text(record.advertised_url) {
        Some(url) => url,
        None => record.control_url@,
    }
}

/// What a phase asks for.
pub open spec fn start_action(phase: StartPhase, mode: RuntimeShareMode) -> StartAction {
    match phase {
        StartPhase::Lock => StartAction::Lock,
        StartPhase::Read => StartAction::Read,
        StartPhase::ProbeOld => StartAction::Probe,
        StartPhase::VerifyOld => StartAction::VerifyOwner,
        StartPhase::CleanOld(CleanupPhase::Disabling) => StartAction::Disable,
        StartPhase::CleanOld(_) => StartAction::Snapshot,
        StartPhase::RemoveOld => StartAction::Remove,
        StartPhase::Survey => StartAction::Snapshot,
        StartPhase::Configure => StartAction::Configure(mode),
        StartPhase::Launch => StartAction::Launch,
        StartPhase::Claim => StartAction::Snapshot,
        StartPhase::Write => StartAction::Write,
        StartPhase::Acknowledge => StartAction::Acknowledge,
        StartPhase::Probe => StartAction::Probe,
        StartPhase::Verify => StartAction::VerifyOwner,
        StartPhase::Enable => StartAction::Enable,
        StartPhase::Confirm => StartAction::Snapshot,
        StartPhase::Advertise => StartAction::Write,
        StartPhase::Publish => StartAction::Publish,
        StartPhase::Terminate(_) => StartAction::Terminate,
        StartPhase::TerminateUnacknowledged(_) => StartAction::Terminate,
        StartPhase::Forget(_) => StartAction::Remove,
        StartPhase::UndoServe(CleanupPhase::Disabling, _) => StartAction::Disable,
        StartPhase::UndoServe(_, _) => StartAction::Snapshot,
        StartPhase::UndoChild(_, _) => StartAction::Terminate,
        StartPhase::UndoRecord(_) => StartAction::Remove,
        StartPhase::Detach => StartAction::Detach,
        StartPhase::Wait => StartAction::Wait,
        StartPhase::Relock(_) => StartAction::Relock,
        StartPhase::Reread(_) => StartAction::Read,
        StartPhase::CleanExited(CleanupPhase::Disabling, _) => StartAction::Disable,
        StartPhase::CleanExited(_, _) => StartAction::Snapshot,
        StartPhase::RemoveExited(_) => StartAction::Remove,
        StartPhase::Finished(outcome) => StartAction::Return(outcome),
    }
}

pub open spec fn failed(error: RouterLaunchError) -> StartPhase {
    StartPhase::Finished(StartReturn::Failed(error))
}

/// How the wait for a child is answered.
pub open spec fn exited(outcome: Result<i32, RouterLaunchError>) -> StartPhase {
    match outcome {
        Ok(code) => StartPhase::Finished(StartReturn::Exited(code)),
        Err(error) => failed(error),
    }
}

/// Once it is clear how the router is shared, the child is configured.
pub open spec fn settled(mode: Result<RuntimeShareMode, RouterLaunchError>, instance: Uuid) -> StartPhase {
    match mode {
        Err(error) => failed(error),
        Ok(_) => if instance.value == 0 {
            failed(RouterLaunchError::StartupProtocol)
        } else {
            StartPhase::Configure
        },
    }
}

/// The share mode that an event settles, if it settles one.
pub open spec fn mode_settled(m: StartMachine, event: LauncherEvent) -> Option<
    Result<RuntimeShareMode, RouterLaunchError>,
> {
    let asked = m.asked();
    match (m.at(), event) {
        (StartPhase::Read, LauncherEvent::Record(None)) => if surveys(asked.share) {
            None
        } else {
            Some(share_mode_of(asked.share, asked.bind, asked.tls is Some, None))
        },
        (StartPhase::RemoveOld, LauncherEvent::Done) => if surveys(asked.share) {
            None
        } else {
            Some(share_mode_of(asked.share, asked.bind, asked.tls is Some, None))
        },
        (StartPhase::Survey, LauncherEvent::Snapshot(snapshot)) => Some(
            share_mode_of(asked.share, asked.bind, asked.tls is Some, Some(snapshot)),
        ),
        (StartPhase::Survey, LauncherEvent::Failed(error)) => if asked.share is Auto {
            Some(share_mode_of(asked.share, asked.bind, asked.tls is Some, None))
        } else {
            Some(Err(error))
        },
        _ => None,
    }
}

/// Whether the tailnet has to be looked at before it is clear how to share.
pub open spec fn surveys(share: ShareRequest) -> bool {
    share is Auto || share is Tailscale
}

/// The port of the endpoint that a ready child reports, if it is the child that was
/// started and serves what it was told to.
pub open spec fn ready_port(m: StartMachine, ready: StartupReady) -> Option<u16> {
    if ready.instance_id != m.instance() {
        None
    } else {
        match parsed_url(ready.control_url@) {
            Some(url) => if control_url_ok(ready.control_url@, url, m.asked()) {
                url.known_port
            } else {
                None
            },
            None => None,
        }
    }
}

/// The URL that a record's router is published under, before the tailnet is brought in.
pub open spec fn published_direct(record: RuntimeRecord) -> Result<Seq<char>, RouterLaunchError> {
    match record.share_mode {
        RuntimeShareMode::Local => Ok(record.control_url@),
        RuntimeShareMode::Lan => match parsed_url(record.control_url@) {
            Some(url) => if url.scheme == "wss"@ {
                Ok(record.control_url@)
            } else {
                Err(RouterLaunchError::TlsRequired)
            },
            None => Err(RouterLaunchError::InvalidRuntimeRecord),
        },
        RuntimeShareMode::Tailscale => Err(RouterLaunchError::InvalidRuntimeRecord),
    }
}

/// An IPv4 address as text.
pub open spec fn ipv4_text(ip: Ipv4) -> Seq<char> {
    decimal_text(ip.a as nat) + "."@ + decimal_text(ip.b as nat) + "."@ + decimal_text(ip.c as nat)
        + "."@ + decimal_text(ip.d as nat)
}

/// The URL of a router on the tailnet.
pub open spec fn tailnet_url(ip: Ipv4, port: u16) -> Seq<char> {
    "ws://"@ + ipv4_text(ip) + ":"@ + decimal_text(port as nat) + "/ws"@
}

/// Setting up the router failed: its port is given back first.
pub open spec fn undo(record: RuntimeRecord, error: RouterLaunchError) -> StartPhase {
    undo_phase(cleanup_start(record), error)
}

pub open spec fn undo_phase(step: CleanupStep, error: RouterLaunchError) -> StartPhase {
    match step {
        CleanupStep::Go(phase) => StartPhase::UndoServe(phase, error),
        CleanupStep::Finished => StartPhase::UndoChild(error, None),
        CleanupStep::Fault(fault) => StartPhase::UndoChild(error, Some(fault)),
    }
}

pub open spec fn old_phase(step: CleanupStep) -> StartPhase {
    match step {
        CleanupStep::Go(phase) => StartPhase::CleanOld(phase),
        CleanupStep::Finished => StartPhase::RemoveOld,
        CleanupStep::Fault(fault) => failed(fault),
    }
}

pub open spec fn exited_phase(
    step: CleanupStep,
    outcome: Result<i32, RouterLaunchError>,
) -> StartPhase {
    match step {
        CleanupStep::Go(phase) => StartPhase::CleanExited(phase, outcome),
        CleanupStep::Finished => StartPhase::RemoveExited(outcome),
        CleanupStep::Fault(fault) => failed(fault),
    }
}

/// What follows once there is no other router: the share mode is settled, or the tailnet
/// is looked at first.
pub open spec fn unobstructed(m: StartMachine, event: LauncherEvent) -> StartPhase {
    match mode_settled(m, event) {
        Some(mode) => settled(mode, m.instance()),
        None => StartPhase::Survey,
    }
}

/// The phases before a child is launched: is there a router already, and how is a new one
/// to be shared?
pub open spec fn next_before_launch(m: StartMachine, event: LauncherEvent) -> StartPhase {
    let phase = m.at();
    match (phase, event) {
        (StartPhase::CleanOld(cleanup), _) => match cleanup_next(
            cleanup,
            m.target()->0.owned_serve->0,
            event,
        ) {
            Some(step) => old_phase(step),
            None => phase,
        },
        (StartPhase::Survey, LauncherEvent::Snapshot(_)) => unobstructed(m, event),
        (StartPhase::Survey, LauncherEvent::Failed(_)) => unobstructed(m, event),
        (_, LauncherEvent::Failed(error)) => failed(error),
        (StartPhase::Lock, LauncherEvent::Done) => StartPhase::Read,
        (StartPhase::Read, LauncherEvent::Record(None)) => unobstructed(m, event),
        (StartPhase::Read, LauncherEvent::Record(Some(_))) => StartPhase::ProbeOld,
        (StartPhase::ProbeOld, LauncherEvent::Probed(Ok(marker))) => if healthy(
            marker,
            m.target()->0.instance_id,
        ) {
            StartPhase::VerifyOld
        } else {
            failed(RouterLaunchError::Health(ProbeFailure::MarkerMismatch))
        },
        (StartPhase::ProbeOld, LauncherEvent::Probed(Err(ProbeFailure::ConnectionRefused))) => {
            old_phase(cleanup_start(m.target()->0))
        },
        (StartPhase::ProbeOld, LauncherEvent::Probed(Err(failure))) => failed(
            RouterLaunchError::Health(failure),
        ),
        (StartPhase::VerifyOld, LauncherEvent::Done) => StartPhase::Finished(StartReturn::Reused),
        (StartPhase::RemoveOld, LauncherEvent::Done) => unobstructed(m, event),
        (StartPhase::Configure, LauncherEvent::Done) => StartPhase::Launch,
        _ => phase,
    }
}

/// The phases from the launch of the child to its acknowledgement: every failure ends the
/// child.
pub open spec fn next_before_setup(m: StartMachine, event: LauncherEvent) -> StartPhase {
    let phase = m.at();
    match (phase, event) {
        (StartPhase::Acknowledge, LauncherEvent::Failed(error)) => {
            StartPhase::TerminateUnacknowledged(error)
        },
        (_, LauncherEvent::Failed(error)) => StartPhase::Terminate(error),
        (StartPhase::Launch, LauncherEvent::Ready(ready)) => match ready_port(m, ready) {
            None => StartPhase::Terminate(RouterLaunchError::StartupProtocol),
            Some(_) => if m.mode() is Tailscale {
                StartPhase::Claim
            } else {
                StartPhase::Write
            },
        },
        (StartPhase::Claim, LauncherEvent::Snapshot(snapshot)) => if !snapshot_ok(snapshot) {
            StartPhase::Terminate(RouterLaunchError::TailscaleUnavailable)
        } else if forward_of(snapshot, m.endpoint_port()) is Some {
            StartPhase::Terminate(RouterLaunchError::TailscaleMappingConflict)
        } else {
            StartPhase::Write
        },
        (StartPhase::Write, LauncherEvent::Done) => StartPhase::Acknowledge,
        (StartPhase::Acknowledge, LauncherEvent::Done) => StartPhase::Probe,
        _ => phase,
    }
}

/// The phases in which an acknowledged router is set up: every failure undoes the setup.
pub open spec fn next_in_setup(m: StartMachine, event: LauncherEvent) -> StartPhase {
    let phase = m.at();
    let record = m.target()->0;
    match (phase, event) {
        (_, LauncherEvent::Failed(error)) => undo(record, error),
        (_, LauncherEvent::TimedOut) => undo(record, RouterLaunchError::StartupTimeout),
        (StartPhase::Probe, LauncherEvent::Probed(Ok(marker))) => if healthy(
            marker,
            record.instance_id,
        ) {
            StartPhase::Verify
        } else {
            undo(record, RouterLaunchError::Health(ProbeFailure::MarkerMismatch))
        },
        (StartPhase::Probe, LauncherEvent::Probed(Err(failure))) => undo(
            record,
            RouterLaunchError::Health(failure),
        ),
        (StartPhase::Verify, LauncherEvent::Done) => match record.share_mode {
            RuntimeShareMode::Tailscale => if record.owned_serve is Some {
                StartPhase::Enable
            } else {
                undo(record, RouterLaunchError::InvalidRuntimeRecord)
            },
            _ => match published_direct(record) {
                Err(error) => undo(record, error),
                Ok(_) => if record.share_mode is Local {
                    StartPhase::Publish
                } else {
                    StartPhase::Advertise
                },
            },
        },
        (StartPhase::Enable, LauncherEvent::Done) => StartPhase::Confirm,
        (StartPhase::Confirm, LauncherEvent::Snapshot(snapshot)) => if !snapshot_ok(snapshot) {
            undo(record, RouterLaunchError::TailscaleUnavailable)
        } else if forward_of(snapshot, record.owned_serve->0.port) != Some(
            record.owned_serve->0.target@,
        ) {
            undo(record, RouterLaunchError::TailscaleMappingConflict)
        } else {
            StartPhase::Advertise
        },
        (StartPhase::Advertise, LauncherEvent::Done) => StartPhase::Publish,
        (StartPhase::Publish, LauncherEvent::Done) => if m.asked().background {
            StartPhase::Detach
        } else {
            StartPhase::Wait
        },
        _ => phase,
    }
}

/// The phases that follow a failure or the end of the child.
pub open spec fn next_at_end(m: StartMachine, event: LauncherEvent) -> StartPhase {
    let phase = m.at();
    match (phase, event) {
        (StartPhase::Terminate(error), LauncherEvent::Done) => failed(error),
        (StartPhase::Terminate(error), LauncherEvent::Failed(_)) => failed(error),
        (StartPhase::TerminateUnacknowledged(error), LauncherEvent::Done) => StartPhase::Forget(
            error,
        ),
        (StartPhase::TerminateUnacknowledged(error), LauncherEvent::Failed(_)) => {
            StartPhase::Forget(error)
        },
        (StartPhase::Forget(error), LauncherEvent::Done) => failed(error),
        (StartPhase::Forget(_), LauncherEvent::Failed(other)) => failed(other),
        (StartPhase::UndoServe(cleanup, error), _) => match cleanup_next(
            cleanup,
            m.target()->0.owned_serve->0,
            event,
        ) {
            Some(step) => undo_phase(step, error),
            None => phase,
        },
        (StartPhase::UndoChild(error, None), LauncherEvent::Done) => StartPhase::UndoRecord(error),
        (StartPhase::UndoChild(_, None), LauncherEvent::Failed(other)) => failed(other),
        (StartPhase::UndoChild(_, Some(fault)), LauncherEvent::Done) => failed(fault),
        (StartPhase::UndoChild(_, Some(fault)), LauncherEvent::Failed(_)) => failed(fault),
        (StartPhase::UndoRecord(error), LauncherEvent::Done) => failed(error),
        (StartPhase::UndoRecord(_), LauncherEvent::Failed(other)) => failed(other),
        (StartPhase::Detach, LauncherEvent::Done) => StartPhase::Finished(StartReturn::Started),
        (StartPhase::Wait, LauncherEvent::Exited(code)) => StartPhase::Relock(Ok(code)),
        (StartPhase::Wait, LauncherEvent::Failed(error)) => StartPhase::Relock(Err(error)),
        (StartPhase::Relock(outcome), LauncherEvent::Done) => StartPhase::Reread(outcome),
        (StartPhase::Relock(_), LauncherEvent::Failed(error)) => failed(error),
        (StartPhase::Reread(outcome), LauncherEvent::Record(found)) => if found matches Some(
            current,
        ) && current.instance_id == m.target()->0.instance_id {
            exited_phase(cleanup_start(m.target()->0), outcome)
        } else {
            exited(outcome)
        },
        (StartPhase::Reread(_), LauncherEvent::Failed(error)) => failed(error),
        (StartPhase::CleanExited(cleanup, outcome), _) => match cleanup_next(
            cleanup,
            m.target()->0.owned_serve->0,
            event,
        ) {
            Some(step) => exited_phase(step, outcome),
            None => phase,
        },
        (StartPhase::RemoveExited(outcome), LauncherEvent::Done) => exited(outcome),
        (StartPhase::RemoveExited(_), LauncherEvent::Failed(error)) => failed(error),
        _ => phase,
    }
}

/// The stretch of the start that a phase belongs to.
pub open spec fn stretch(phase: StartPhase) -> int {
    match phase {
        StartPhase::Lock | StartPhase::Read | StartPhase::ProbeOld | StartPhase::VerifyOld
        | StartPhase::CleanOld(_) | StartPhase::RemoveOld | StartPhase::Survey
        | StartPhase::Configure => 0,
        StartPhase::Launch | StartPhase::Claim | StartPhase::Write | StartPhase::Acknowledge => 1,
        StartPhase::Probe | StartPhase::Verify | StartPhase::Enable | StartPhase::Confirm
        | StartPhase::Advertise | StartPhase::Publish => 2,
        StartPhase::Finished(_) => 4,
        _ => 3,
    }
}

/// The phase that an event leads to. An event that the phase does not wait for changes
/// nothing.
pub open spec fn start_next(m: StartMachine, event: LauncherEvent) -> StartPhase {
    if stretch(m.at()) == 0 {
        next_before_launch(m, event)
    } else if stretch(m.at()) == 1 {
        next_before_setup(m, event)
    } else if stretch(m.at()) == 2 {
        next_in_setup(m, event)
    } else if stretch(m.at()) == 3 {
        next_at_end(m, event)
    } else {
        m.at()
    }
}

/// The record of a freshly launched router, before it has a tailnet port.
pub open spec fn fresh_record(m: StartMachine, ready: StartupReady, record: RuntimeRecord) -> bool {
    &&& record.instance_id == m.instance()
    &&& record.control_url@ == ready.control_url@
    &&& record.share_mode == m.mode()
    &&& record.advertised_url is None
    &&& record.owned_serve is None
}

/// What an event makes of the record at hand.
pub open spec fn record_after(
    m: StartMachine,
    event: LauncherEvent,
    after: Option<RuntimeRecord>,
) -> bool {
    let before = m.target();
    match (m.at(), event) {
        (StartPhase::Read, LauncherEvent::Record(found)) => after == found,
        (StartPhase::RemoveOld, LauncherEvent::Done) => after is None,
        (StartPhase::Launch, LauncherEvent::Ready(ready)) => if ready_port(m, ready) is Some {
            after matches Some(record) && fresh_record(m, ready, record)
        } else {
            after == before
        },
        (StartPhase::Claim, LauncherEvent::Snapshot(_)) => if start_next(m, event) is Write {
            after matches Some(record) && record == (RuntimeRecord {
                owned_serve: record.owned_serve,
                ..before->0
            }) && (record.owned_serve matches Some(serve) && serve.instance_id == m.instance()
                && serve.port == m.endpoint_port() && serve.target@ == loopback_target(
                m.endpoint_port(),
            ))
        } else {
            after == before
        },
        (StartPhase::Verify, LauncherEvent::Done) => if start_next(m, event) is Advertise {
            after matches Some(record) && record == (RuntimeRecord {
                advertised_url: record.advertised_url,
                ..before->0
            }) && opt_text(record.advertised_url) == Some(before->0.control_url@)
        } else {
            after == before
        },
        (StartPhase::Confirm, LauncherEvent::Snapshot(snapshot)) => if start_next(
            m,
            event,
        ) is Advertise {
            after matches Some(record) && record == (RuntimeRecord {
                advertised_url: record.advertised_url,
                ..before->0
            }) && opt_text(record.advertised_url) == Some(
                tailnet_url(snapshot.self_ipv4@[0], before->0.owned_serve->0.port),
            )
        } else {
            after == before
        },
        _ => after == before,
    }
}

fn action_of(phase: StartPhase, mode: RuntimeShareMode) -> (action: StartAction)
    ensures
        action == start_action(phase, mode),
{
    match phase {
        StartPhase::Lock => StartAction::Lock,
        StartPhase::Read => StartAction::Read,
        StartPhase::ProbeOld => StartAction::Probe,
        StartPhase::VerifyOld => StartAction::VerifyOwner,
        StartPhase::CleanOld(CleanupPhase::Disabling) => StartAction::Disable,
        StartPhase::CleanOld(_) => StartAction::Snapshot,
        StartPhase::RemoveOld => StartAction::Remove,
        StartPhase::Survey => StartAction::Snapshot,
        StartPhase::Configure => StartAction::Configure(mode),
        StartPhase::Launch => StartAction::Launch,
        StartPhase::Claim => StartAction::Snapshot,
        StartPhase::Write => StartAction::Write,
        StartPhase::Acknowledge => StartAction::Acknowledge,
        StartPhase::Probe => StartAction::Probe,
        StartPhase::Verify => StartAction::VerifyOwner,
        StartPhase::Enable => StartAction::Enable,
        StartPhase::Confirm => StartAction::Snapshot,
        StartPhase::Advertise => StartAction::Write,
        StartPhase::Publish => StartAction::Publish,
        StartPhase::Terminate(_) => StartAction::Terminate,
        StartPhase::TerminateUnacknowledged(_) => StartAction::Terminate,
        StartPhase::Forget(_) => StartAction::Remove,
        StartPhase::UndoServe(CleanupPhase::Disabling, _) => StartAction::Disable,
        StartPhase::UndoServe(_, _) => StartAction::Snapshot,
        StartPhase::UndoChild(_, _) => StartAction::Terminate,
        StartPhase::UndoRecord(_) => StartAction::Remove,
        StartPhase::Detach => StartAction::Detach,
        StartPhase::Wait => StartAction::Wait,
        StartPhase::Relock(_) => StartAction::Relock,
        StartPhase::Reread(_) => StartAction::Read,
        StartPhase::CleanExited(CleanupPhase::Disabling, _) => StartAction::Disable,
        StartPhase::CleanExited(_, _) => StartAction::Snapshot,
        StartPhase::RemoveExited(_) => StartAction::Remove,
        StartPhase::Finished(outcome) => StartAction::Return(outcome),
    }
}

fn fail(error: RouterLaunchError) -> (phase: StartPhase)
    ensures
        phase == failed(error),
{
    StartPhase::Finished(StartReturn::Failed(error))
}

fn finish(outcome: Result<i32, RouterLaunchError>) -> (phase: StartPhase)
    ensures
        phase == exited(outcome),
{
    match outcome {
        Ok(code) => StartPhase::Finished(StartReturn::Exited(code)),
        Err(error) => fail(error),
    }
}

fn undo_step(step: CleanupStep, error: RouterLaunchError) -> (phase: StartPhase)
    ensures
        phase == undo_phase(step, error),
{
    match step {
        CleanupStep::Go(phase) => StartPhase::UndoServe(phase, error),
        CleanupStep::Finished => StartPhase::UndoChild(error, None),
        CleanupStep::Fault(fault) => StartPhase::UndoChild(error, Some(fault)),
    }
}

fn undo_setup(record: &RuntimeRecord, error: RouterLaunchError) -> (phase: StartPhase)
    ensures
        phase == undo(*record, error),
{
    undo_step(begin_cleanup(record), error)
}

fn old_step(step: CleanupStep) -> (phase: StartPhase)
    ensures
        phase == old_phase(step),
{
    match step {
        CleanupStep::Go(phase) => StartPhase::CleanOld(phase),
        CleanupStep::Finished => StartPhase::RemoveOld,
        CleanupStep::Fault(fault) => fail(fault),
    }
}

fn exited_step(step: CleanupStep, outcome: Result<i32, RouterLaunchError>) -> (phase: StartPhase)
    ensures
        phase == exited_phase(step, outcome),
{
    match step {
        CleanupStep::Go(phase) => StartPhase::CleanExited(phase, outcome),
        CleanupStep::Finished => StartPhase::RemoveExited(outcome),
        CleanupStep::Fault(fault) => fail(fault),
    }
}

fn ipv4_string(ip: Ipv4) -> (text: String)
    ensures
        text@ == ipv4_text(ip),
{
    let ab = concat3(decimal(ip.a as u64).as_str(), ".", decimal(ip.b as u64).as_str());
    let abc = concat3(ab.as_str(), ".", decimal(ip.c as u64).as_str());
    concat3(abc.as_str(), ".", decimal(ip.d as u64).as_str())
}

fn tailnet_url_string(ip: Ipv4, port: u16) -> (text: String)
    ensures
        text@ == tailnet_url(ip, port),
{
    let host = concat3("ws://", ipv4_string(ip).as_str(), ":");
    concat3(host.as_str(), decimal(port as u64).as_str(), "/ws")
}

fn direct_fault(record: &RuntimeRecord) -> (fault: Option<RouterLaunchError>)
    ensures
        fault == (match published_direct(*record) {
            Ok(_) => None,
            Err(error) => Some(error),
        }),
{
    match record.share_mode {
        RuntimeShareMode::Local => None,
        RuntimeShareMode::Lan => match parse_url(record.control_url.as_str()) {
            Some(url) => if same_text(url.scheme.as_str(), "wss") {
                None
            } else {
                Some(RouterLaunchError::TlsRequired)
            },
            None => Some(RouterLaunchError::InvalidRuntimeRecord),
        },
        RuntimeShareMode::Tailscale => Some(RouterLaunchError::InvalidRuntimeRecord),
    }
}

impl StartMachine {
    /// The start of a router with the given instance, or with a new one.
    pub fn new(options: StartOptions) -> (machine: StartMachine)
        ensures
            machine.wf(),
            machine.asked() == options,
            machine.instance() == (match options.instance_id {
                Some(id) => id,
                None => machine.instance(),
            }),
            options.instance_id is None ==> machine.instance().value != 0,
            machine.target() is None,
            machine.at() is Lock,
    {
        let instance_id = match options.instance_id {
            Some(id) => id,
            None => Uuid::fresh(),
        };
        StartMachine {
            options,
            instance_id,
            share_mode: RuntimeShareMode::Local,
            port: 0,
            record: None,
            phase: StartPhase::Lock,
        }
    }

    /// The record of the router at hand.
    pub fn record(&self) -> (record: Option<&RuntimeRecord>)
        ensures
            record == (match self.target() {
                Some(found) => Some(&found),
                None => None,
            }),
    {
        self.record.as_ref()
    }

    pub fn options(&self) -> (options: &StartOptions)
        ensures
            *options == self.asked(),
    {
        &self.options
    }

    /// The instance that is being started.
    pub fn instance_id(&self) -> (id: Uuid)
        ensures
            id == self.instance(),
    {
        self.instance_id
    }

    /// Whether what is to be done now has to be done within the time for a startup, which
    /// runs from the acknowledgement of the child: setting up the router is.
    pub fn bounded(&self) -> (yes: bool)
        ensures
            yes == (stretch(self.at()) == 2),
    {
        matches!(
            self.phase,
            StartPhase::Probe
            | StartPhase::Verify
            | StartPhase::Enable
            | StartPhase::Confirm
            | StartPhase::Advertise
            | StartPhase::Publish
        )
    }

    /// The URL that the router is published under, once it is to be.
    pub fn published_url(&self) -> (url: Option<&str>)
        requires
            self.wf(),
        ensures
            (url is Some) == (self.at() is Publish),
            url matches Some(url) ==> {
                let record = self.target()->0;
                &&& url@ == published(record)
                &&& !(record.share_mode is Tailscale) ==> url@ == record.control_url@
            },
    {
        match (self.phase, &self.record) {
            (StartPhase::Publish, Some(record)) => match &record.advertised_url {
                Some(url) => Some(url.as_str()),
                None => Some(record.control_url.as_str()),
            },
            _ => None,
        }
    }

    /// What is to be done now.
    pub fn action(&self) -> (action: StartAction)
        ensures
            action == start_action(self.at(), self.mode()),
    {
        action_of(self.phase, self.share_mode)
    }

    fn resolved(&self, event: &LauncherEvent) -> (mode: Option<
        Result<RuntimeShareMode, RouterLaunchError>,
    >)
        ensures
            mode == mode_settled(*self, *event),
    {
        let asked = &self.options;
        let survey = matches!(asked.share, ShareRequest::Auto | ShareRequest::Tailscale);
        match event {
            LauncherEvent::Record(None) => match self.phase {
                StartPhase::Read => if survey {
                    None
                } else {
                    Some(resolve_share_mode(asked.share, asked.bind, asked.tls.as_ref(), None))
                },
                _ => None,
            },
            LauncherEvent::Done => match self.phase {
                StartPhase::RemoveOld => if survey {
                    None
                } else {
                    Some(resolve_share_mode(asked.share, asked.bind, asked.tls.as_ref(), None))
                },
                _ => None,
            },
            LauncherEvent::Snapshot(snapshot) => match self.phase {
                StartPhase::Survey => Some(
                    resolve_share_mode(asked.share, asked.bind, asked.tls.as_ref(), Some(snapshot)),
                ),
                _ => None,
            },
            LauncherEvent::Failed(error) => match self.phase {
                StartPhase::Survey => if matches!(asked.share, ShareRequest::Auto) {
                    Some(resolve_share_mode(asked.share, asked.bind, asked.tls.as_ref(), None))
                } else {
                    Some(Err(*error))
                },
                _ => None,
            },
            _ => None,
        }
    }

    fn go_unobstructed(&self, event: &LauncherEvent) -> (phase: StartPhase)
        ensures
            phase == unobstructed(*self, *event),
    {
        match self.resolved(event) {
            Some(Ok(_)) => if self.instance_id.is_nil() {
                fail(RouterLaunchError::StartupProtocol)
            } else {
                StartPhase::Configure
            },
            Some(Err(error)) => fail(error),
            None => StartPhase::Survey,
        }
    }

    fn port_of(&self, ready: &StartupReady) -> (port: Option<u16>)
        ensures
            port == ready_port(*self, *ready),
    {
        if ready.instance_id != self.instance_id {
            return None;
        }
        match validate_ready_control_url(ready.control_url.as_str(), &self.options) {
            Ok(url) => url.known_port,
            Err(_) => None,
        }
    }

    fn decide_before_launch(&self, event: &LauncherEvent) -> (phase: StartPhase)
        requires
            self.wf(),
            stretch(self.at()) == 0,
        ensures
            phase == next_before_launch(*self, *event),
    {
        let phase = self.phase;
        if let (StartPhase::CleanOld(cleanup), Some(record)) = (phase, &self.record) {
            if let Some(serve) = &record.owned_serve {
                return match continue_cleanup(cleanup, serve, event) {
                    Some(step) => old_step(step),
                    None => phase,
                };
            }
        }
        match event {
            LauncherEvent::Snapshot(_) => match phase {
                StartPhase::Survey => self.go_unobstructed(event),
                _ => phase,
            },
            LauncherEvent::Failed(error) => match phase {
                StartPhase::Survey => self.go_unobstructed(event),
                _ => fail(*error),
            },
            LauncherEvent::Done => match phase {
                StartPhase::Lock => StartPhase::Read,
                StartPhase::VerifyOld => StartPhase::Finished(StartReturn::Reused),
                StartPhase::RemoveOld => self.go_unobstructed(event),
                StartPhase::Configure => StartPhase::Launch,
                _ => phase,
            },
            LauncherEvent::Record(found) => match (phase, found) {
                (StartPhase::Read, None) => self.go_unobstructed(event),
                (StartPhase::Read, Some(_)) => StartPhase::ProbeOld,
                _ => phase,
            },
            LauncherEvent::Probed(answer) => match (phase, &self.record) {
                (StartPhase::ProbeOld, Some(record)) => match answer {
                    Ok(marker) => match marker.verify(record.instance_id) {
                        Ok(()) => StartPhase::VerifyOld,
                        Err(error) => fail(error),
                    },
                    Err(ProbeFailure::ConnectionRefused) => old_step(begin_cleanup(record)),
                    Err(failure) => fail(RouterLaunchError::Health(*failure)),
                },
                _ => phase,
            },
            _ => phase,
        }
    }

    fn decide_before_setup(&self, event: &LauncherEvent) -> (phase: StartPhase)
        requires
            self.wf(),
            stretch(self.at()) == 1,
        ensures
            phase == next_before_setup(*self, *event),
    {
        let phase = self.phase;
        match event {
            LauncherEvent::Failed(error) => match phase {
                StartPhase::Acknowledge => StartPhase::TerminateUnacknowledged(*error),
                _ => StartPhase::Terminate(*error),
            },
            LauncherEvent::Ready(ready) => match phase {
                StartPhase::Launch => match self.port_of(ready) {
                    None => StartPhase::Terminate(RouterLaunchError::StartupProtocol),
                    Some(_) => match self.share_mode {
                        RuntimeShareMode::Tailscale => StartPhase::Claim,
                        _ => StartPhase::Write,
                    },
                },
                _ => phase,
            },
            LauncherEvent::Snapshot(snapshot) => match phase {
                StartPhase::Claim => if let Err(error) = snapshot.validate() {
                    StartPhase::Terminate(error)
                } else if snapshot.forward(self.port).is_some() {
                    StartPhase::Terminate(RouterLaunchError::TailscaleMappingConflict)
                } else {
                    StartPhase::Write
                },
                _ => phase,
            },
            LauncherEvent::Done => match phase {
                StartPhase::Write => StartPhase::Acknowledge,
                StartPhase::Acknowledge => StartPhase::Probe,
                _ => phase,
            },
            _ => phase,
        }
    }

    fn decide_in_setup(&self, event: &LauncherEvent) -> (phase: StartPhase)
        requires
            self.wf(),
            stretch(self.at()) == 2,
        ensures
            phase == next_in_setup(*self, *event),
    {
        let phase = self.phase;
        let record = match &self.record {
            Some(record) => record,
            None => return phase,
        };
        match event {
            LauncherEvent::Failed(error) => undo_setup(record, *error),
            LauncherEvent::TimedOut => undo_setup(record, RouterLaunchError::StartupTimeout),
            LauncherEvent::Probed(answer) => match phase {
                StartPhase::Probe => match answer {
                    Ok(marker) => match marker.verify(record.instance_id) {
                        Ok(()) => StartPhase::Verify,
                        Err(error) => undo_setup(record, error),
                    },
                    Err(failure) => undo_setup(record, RouterLaunchError::Health(*failure)),
                },
                _ => phase,
            },
            LauncherEvent::Done => match phase {
                StartPhase::Verify => match record.share_mode {
                    RuntimeShareMode::Tailscale => if record.owned_serve.is_some() {
                        StartPhase::Enable
                    } else {
                        undo_setup(record, RouterLaunchError::InvalidRuntimeRecord)
                    },
                    RuntimeShareMode::Local => match direct_fault(record) {
                        Some(error) => undo_setup(record, error),
                        None => StartPhase::Publish,
                    },
                    RuntimeShareMode::Lan => match direct_fault(record) {
                        Some(error) => undo_setup(record, error),
                        None => StartPhase::Advertise,
                    },
                },
                StartPhase::Enable => StartPhase::Confirm,
                StartPhase::Advertise => StartPhase::Publish,
                StartPhase::Publish => if self.options.background {
                    StartPhase::Detach
                } else {
                    StartPhase::Wait
                },
                _ => phase,
            },
            LauncherEvent::Snapshot(snapshot) => match (phase, &record.owned_serve) {
                (StartPhase::Confirm, Some(serve)) => if let Err(error) = snapshot.validate() {
                    undo_setup(record, error)
                } else if !snapshot.forwards(serve) {
                    undo_setup(record, RouterLaunchError::TailscaleMappingConflict)
                } else {
                    StartPhase::Advertise
                },
                _ => phase,
            },
            _ => phase,
        }
    }

    fn decide_at_end(&self, event: &LauncherEvent) -> (phase: StartPhase)
        requires
            self.wf(),
            stretch(self.at()) == 3,
        ensures
            phase == next_at_end(*self, *event),
    {
        let phase = self.phase;
        if let Some(record) = &self.record {
            if let (StartPhase::UndoServe(cleanup, error), Some(serve)) = (
                phase,
                &record.owned_serve,
            ) {
                return match continue_cleanup(cleanup, serve, event) {
                    Some(step) => undo_step(step, error),
                    None => phase,
                };
            }
            if let (StartPhase::CleanExited(cleanup, outcome), Some(serve)) = (
                phase,
                &record.owned_serve,
            ) {
                return match continue_cleanup(cleanup, serve, event) {
                    Some(step) => exited_step(step, outcome),
                    None => phase,
                };
            }
        }
        match event {
            LauncherEvent::Done => match phase {
                StartPhase::Terminate(error) => fail(error),
                StartPhase::TerminateUnacknowledged(error) => StartPhase::Forget(error),
                StartPhase::Forget(error) => fail(error),
                StartPhase::UndoChild(error, None) => StartPhase::UndoRecord(error),
                StartPhase::UndoChild(_, Some(fault)) => fail(fault),
                StartPhase::UndoRecord(error) => fail(error),
                StartPhase::Detach => StartPhase::Finished(StartReturn::Started),
                StartPhase::Relock(outcome) => StartPhase::Reread(outcome),
                StartPhase::RemoveExited(outcome) => finish(outcome),
                _ => phase,
            },
            LauncherEvent::Failed(other) => match phase {
                StartPhase::Terminate(error) => fail(error),
                StartPhase::TerminateUnacknowledged(error) => StartPhase::Forget(error),
                StartPhase::Forget(_) => fail(*other),
                StartPhase::UndoChild(_, None) => fail(*other),
                StartPhase::UndoChild(_, Some(fault)) => fail(fault),
                StartPhase::UndoRecord(_) => fail(*other),
                StartPhase::Wait => StartPhase::Relock(Err(*other)),
                StartPhase::Relock(_) => fail(*other),
                StartPhase::Reread(_) => fail(*other),
                StartPhase::RemoveExited(_) => fail(*other),
                _ => phase,
            },
            LauncherEvent::Exited(code) => match phase {
                StartPhase::Wait => StartPhase::Relock(Ok(*code)),
                _ => phase,
            },
            LauncherEvent::Record(found) => match (phase, &self.record) {
                (StartPhase::Reread(outcome), Some(record)) => match found {
                    Some(current) if current.instance_id == record.instance_id => exited_step(
                        begin_cleanup(record),
                        outcome,
                    ),
                    _ => finish(outcome),
                },
                _ => phase,
            },
            _ => phase,
        }
    }

    fn decide(&self, event: &LauncherEvent) -> (phase: StartPhase)
        requires
            self.wf(),
        ensures
            phase == start_next(*self, *event),
    {
        match self.phase {
            StartPhase::Lock
            | StartPhase::Read
            | StartPhase::ProbeOld
            | StartPhase::VerifyOld
            | StartPhase::CleanOld(_)
            | StartPhase::RemoveOld
            | StartPhase::Survey
            | StartPhase::Configure => self.decide_before_launch(event),
            StartPhase::Launch
            | StartPhase::Claim
            | StartPhase::Write
            | StartPhase::Acknowledge => self.decide_before_setup(event),
            StartPhase::Probe
            | StartPhase::Verify
            | StartPhase::Enable
            | StartPhase::Confirm
            | StartPhase::Advertise
            | StartPhase::Publish => self.decide_in_setup(event),
            StartPhase::Finished(_) => self.phase,
            _ => self.decide_at_end(event),
        }
    }

    /// Takes what happened and says what to do next.
    pub fn step(&mut self, event: LauncherEvent) -> (action: StartAction)
        requires
            old(self).wf(),
        ensures
            final(self).wf(),
            final(self).asked() == old(self).asked(),
            final(self).instance() == old(self).instance(),
            final(self).mode() == (match mode_settled(*old(self), event) {
                Some(Ok(mode)) => mode,
                _ => old(self).mode(),
            }),
            final(self).endpoint_port() == (match (old(self).at(), event) {
                (StartPhase::Launch, LauncherEvent::Ready(ready)) => match ready_port(
                    *old(self),
                    ready,
                ) {
                    Some(port) => port,
                    None => old(self).endpoint_port(),
                },
                _ => old(self).endpoint_port(),
            }),
            final(self).at() == start_next(*old(self), event),
            record_after(*old(self), event, final(self).target()),
            action == start_action(final(self).at(), final(self).mode()),
    {
        let next = self.decide(&event);
        if let Some(Ok(mode)) = self.resolved(&event) {
            self.share_mode = mode;
        }
        match self.phase {
            StartPhase::Read => {
                if let LauncherEvent::Record(found) = event {
                    self.record = found;
                }
            },
            StartPhase::RemoveOld => {
                if let LauncherEvent::Done = event {
                    self.record = None;
                }
            },
            StartPhase::Launch => {
                if let LauncherEvent::Ready(ready) = event {
                    if let Some(port) = self.port_of(&ready) {
                        self.port = port;
                        self.record = Some(
                            RuntimeRecord {
                                instance_id: self.instance_id,
                                control_url: ready.control_url,
                                share_mode: self.share_mode,
                                advertised_url: None,
                                owned_serve: None,
                            },
                        );
                    }
                }
            },
            StartPhase::Claim => {
                if let (LauncherEvent::Snapshot(_), StartPhase::Write) = (&event, next) {
                    let serve = OwnedServe::loopback(self.instance_id, self.port);
                    if let Some(record) = self.record.take() {
                        let mut record = record;
                        record.owned_serve = Some(serve);
                        self.record = Some(record);
                    }
                }
            },
            StartPhase::Verify => {
                if let (LauncherEvent::Done, StartPhase::Advertise) = (&event, next) {
                    if let Some(record) = self.record.take() {
                        let mut record = record;
                        record.advertised_url = Some(record.control_url.clone());
                        self.record = Some(record);
                    }
                }
            },
            StartPhase::Confirm => {
                if let (LauncherEvent::Snapshot(snapshot), StartPhase::Advertise) = (&event, next) {
                    if let Some(record) = self.record.take() {
                        let mut record = record;
                        if let Some(serve) = &record.owned_serve {
                            let url = tailnet_url_string(snapshot.self_ipv4[0], serve.port);
                            record.advertised_url = Some(url);
                        }
                        self.record = Some(record);
                    }
                }
            },
            _ => {},
        }
        self.phase = next;
        action_of(next, self.share_mode)
    }
}

/// While a phase lasts, a child may run that was launched here.
pub open spec fn child_may_run(phase: StartPhase) -> bool {
    ||| stretch(phase) == 1
    ||| stretch(phase) == 2
    ||| phase is Terminate || phase is TerminateUnacknowledged
    ||| phase is UndoServe || phase is UndoChild
    ||| phase is Detach || phase is Wait
}

/// A start never fails and leaves its child behind: while a child may run, the start ends
/// only after the child was ended, or after it was detached as it was meant to be.
pub proof fn failed_starts_end_the_child(m: StartMachine, event: LauncherEvent)
    requires
        child_may_run(m.at()),
        !child_may_run(start_next(m, event)),
    ensures
        start_action(m.at(), m.mode()) is Terminate || start_action(m.at(), m.mode()) is Wait
            || start_next(m, event) == StartPhase::Finished(StartReturn::Started),
{
}

/// A router that is not set up in time is undone for that reason, at whatever it was: its
/// port is given back where it has one, and its child is ended.
pub proof fn late_setups_are_undone(m: StartMachine)
    requires
        m.wf(),
        stretch(m.at()) == 2,
    ensures
        start_next(m, LauncherEvent::TimedOut) == undo(
            m.target()->0,
            RouterLaunchError::StartupTimeout,
        ),
        child_may_run(start_next(m, LauncherEvent::TimedOut)),
{
}

/// A router on the tailnet is published under the URL of this machine there, any other one
/// under its own.
pub proof fn routers_are_published_as_shared(
    m: StartMachine,
    event: LauncherEvent,
    after: RuntimeRecord,
)
    requires
        m.wf(),
        record_after(m, event, Some(after)),
        start_next(m, event) is Advertise || start_next(m, event) is Publish,
        m.at() is Verify || m.at() is Confirm,
    ensures
        m.at() is Confirm ==> (event matches LauncherEvent::Snapshot(snapshot) && published(after)
            == tailnet_url(snapshot.self_ipv4@[0], after.owned_serve->0.port)),
        m.at() is Verify ==> published(after) == after.control_url@ && after.control_url
            == m.target()->0.control_url,
{
}

/// A router is used again only after it answered as the recorded instance and its owner
/// was verified.
pub proof fn reuse_follows_verification(m: StartMachine, event: LauncherEvent)
    requires
        !(m.at() is Finished),
    ensures
        start_next(m, event) == StartPhase::Finished(StartReturn::Reused) ==> m.at() is VerifyOld
            && event is Done,
        start_next(m, event) is VerifyOld && !(m.at() is VerifyOld) ==> m.at() is ProbeOld && (
        event matches LauncherEvent::Probed(Ok(marker)) && healthy(
            marker,
            m.target()->0.instance_id,
        )),
{
}

/// A router is reported as started only after it was published, and published only after
/// it answered as its own instance and its owner was verified; what is published beyond
/// the machine itself was written to the record first.
#[verifier::rlimit(60)]
pub proof fn publication_follows_verification(m: StartMachine, event: LauncherEvent)
    requires
        !(m.at() is Finished),
    ensures
        start_next(m, event) == StartPhase::Finished(StartReturn::Started) ==> m.at() is Detach,
        start_next(m, event) is Detach && !(m.at() is Detach) ==> m.at() is Publish,
        start_next(m, event) is Publish && !(m.at() is Publish) ==> m.at() is Advertise || (m.at()
            is Verify && m.target()->0.share_mode is Local),
        start_next(m, event) is Advertise && !(m.at() is Advertise) ==> m.at() is Confirm || (m.at()
            is Verify && m.target()->0.share_mode is Lan && (parsed_url(
            m.target()->0.control_url@,
        ) matches Some(url) && url.scheme == "wss"@)),
        start_next(m, event) is Verify && !(m.at() is Verify) ==> m.at() is Probe && (
        event matches LauncherEvent::Probed(Ok(marker)) && healthy(
            marker,
            m.target()->0.instance_id,
        )),
{
}

} // verus!
