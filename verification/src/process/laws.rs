//! What holds of starting, sharing and stopping a router as a whole.

use vstd::prelude::*;

use crate::net::{parsed_url, HostModel};
use crate::process::cleanup::LauncherEvent;
use crate::process::start::{
    mode_settled, ready_port, record_after, start_action, start_next, StartAction, StartMachine,
    StartPhase, StartReturn,
};
use crate::process::startup::StartupReady;
use crate::process::stop::{stop_action, stop_next, StopAction, StopMachine, StopReturn};
use crate::process::{
    router_url, HealthMarker, ProbeFailure, RouterLaunchError, RuntimeRecord, RuntimeShareMode,
    ShareRequest, TailscaleSnapshot,
};
use crate::text::{decimal_text, opt_text};

verus! {

/// What a start asks for in a state.
pub open spec fn asks(m: StartMachine) -> StartAction {
    start_action(m.at(), m.mode())
}

/// A step of a start from one state to the next.
pub open spec fn steps(a: StartMachine, event: LauncherEvent, b: StartMachine) -> bool {
    &&& a.wf()
    &&& b.wf()
    &&& b.asked() == a.asked()
    &&& b.instance() == a.instance()
    &&& b.mode() == (match mode_settled(a, event) {
        Some(Ok(mode)) => mode,
        _ => a.mode(),
    })
    &&& b.endpoint_port() == (match (a.at(), event) {
        (StartPhase::Launch, LauncherEvent::Ready(ready)) => match ready_port(a, ready) {
            Some(port) => port,
            None => a.endpoint_port(),
        },
        _ => a.endpoint_port(),
    })
    &&& b.at() == start_next(a, event)
    &&& record_after(a, event, b.target())
}

/// What a start goes through when it is told of some events.
pub open spec fn runs(states: Seq<StartMachine>, events: Seq<LauncherEvent>) -> bool {
    &&& states.len() == events.len() + 1
    &&& forall|i: int|
        0 <= i < events.len() ==> steps(states[i], #[trigger] events[i], states[i + 1])
}

/// Every call of the start takes such a step, and says what the state that it leads to asks
/// for.
pub proof fn calls_take_steps(m: &mut StartMachine, event: LauncherEvent, action: StartAction)
    requires
        old(m).wf(),
        call_ensures(StartMachine::step, (m, event), action),
    ensures
        steps(*old(m), event, *final(m)),
        action == asks(*final(m)),
{
}

/// A start detaches its child only where it was asked to run in the background, and waits for
/// it only where it was not: the publication is the step that leads to the one or the other,
/// and nothing else does. A router is reported as started only once its child was detached.
pub proof fn children_are_detached_in_the_background(
    m: &mut StartMachine,
    event: LauncherEvent,
    before: StartAction,
    action: StartAction,
)
    requires
        old(m).wf(),
        call_ensures(StartMachine::action, (&*old(m),), before),
        call_ensures(StartMachine::step, (m, event), action),
    ensures
        before is Publish && event is Done ==> action == if old(m).asked().background {
            StartAction::Detach
        } else {
            StartAction::Wait
        },
        action is Detach && !(before is Detach) ==> before is Publish && event is Done && old(m).asked().background,
        action is Wait && !(before is Wait) ==> before is Publish && event is Done && !old(m).asked().background,
        before is Detach && event is Done ==> action == StartAction::Return(StartReturn::Started),
        action == StartAction::Return(StartReturn::Started) && !(before is Return) ==> before
            is Detach && event is Done,
        before is Wait && event is Exited ==> action is Relock,
        action matches StartAction::Return(StartReturn::Exited(_)) ==> before is Return || before
            is Read || before is Remove,
{
}

/// What is remembered of a child that ended with a code: nothing makes another code of it.
pub open spec fn carries(m: StartMachine, code: i32) -> bool {
    match m.at() {
        StartPhase::Relock(outcome) => outcome == Ok::<i32, RouterLaunchError>(code),
        StartPhase::Reread(outcome) => outcome == Ok::<i32, RouterLaunchError>(code),
        StartPhase::CleanExited(_, outcome) => outcome == Ok::<i32, RouterLaunchError>(code),
        StartPhase::RemoveExited(outcome) => outcome == Ok::<i32, RouterLaunchError>(code),
        StartPhase::Finished(outcome) => outcome == StartReturn::Exited(code) || outcome is Failed,
        _ => false,
    }
}

proof fn codes_are_carried(
    states: Seq<StartMachine>,
    events: Seq<LauncherEvent>,
    code: i32,
    n: int,
)
    requires
        runs(states, events),
        0 < n < states.len(),
        asks(states[0]) is Wait,
        events[0] == LauncherEvent::Exited(code),
    ensures
        carries(states[n], code),
    decreases n,
{
    assert(steps(states[0], events[0], states[1]));
    if n > 1 {
        codes_are_carried(states, events, code, n - 1);
        assert(steps(states[n - 1], events[n - 1], states[n - 1 + 1]));
    }
}

/// Whatever happens after the child of a start in the foreground has ended with a code, the
/// start that does not fail returns exactly that code.
pub proof fn foreground_starts_return_the_code(
    states: Seq<StartMachine>,
    events: Seq<LauncherEvent>,
    code: i32,
)
    requires
        runs(states, events),
        events.len() > 0,
        asks(states[0]) is Wait,
        events[0] == LauncherEvent::Exited(code),
    ensures
        asks(states.last()) matches StartAction::Return(outcome) ==> outcome
            == StartReturn::Exited(code) || outcome is Failed,
        !(asks(states.last()) is Detach) && !(asks(states.last()) is Wait),
{
    codes_are_carried(states, events, code, states.len() - 1);
}

/// A child in the foreground that has ended is cleaned up after: the lock is taken again, the
/// record is read and, if it is still the router's own, its tailnet port is given back and it
/// is removed. Then the start returns the code.
pub proof fn ended_children_are_cleaned_up_after(
    states: Seq<StartMachine>,
    events: Seq<LauncherEvent>,
    code: i32,
    found: Option<RuntimeRecord>,
)
    requires
        runs(states, events),
        asks(states[0]) is Wait,
        events.len() >= 3,
        events[0] == LauncherEvent::Exited(code),
        events[1] == LauncherEvent::Done,
        events[2] == LauncherEvent::Record(found),
    ensures
        asks(states[1]) is Relock,
        asks(states[2]) is Read,
        !(found matches Some(record) && record.instance_id == states[0].target()->0.instance_id)
            ==> asks(states[3]) == StartAction::Return(StartReturn::Exited(code)),
        (found matches Some(record) && record.instance_id == states[0].target()->0.instance_id)
            && states[0].target()->0.owned_serve is None ==> asks(states[3]) is Remove && (
        events.len() >= 4 && events[3] == LauncherEvent::Done ==> asks(states[4])
            == StartAction::Return(StartReturn::Exited(code))),
        (found matches Some(record) && record.instance_id == states[0].target()->0.instance_id) && (
        states[0].target()->0.owned_serve matches Some(serve) && serve.port != 0
            && serve.instance_id == states[0].target()->0.instance_id && serve.target@
            == "tcp://127.0.0.1:"@ + decimal_text(serve.port as nat)) ==> asks(states[3])
            is Snapshot,
{
    assert(steps(states[0], events[0], states[1]));
    assert(steps(states[1], events[1], states[2]));
    assert(steps(states[2], events[2], states[3]));
    if events.len() >= 4 {
        assert(steps(states[3], events[3], states[4]));
    }
}

/// A router that answers that it is well, as the given instance.
pub open spec fn is_well(marker: HealthMarker, instance: crate::ids::Uuid) -> bool {
    &&& marker.service@ == "agent-session-router"@
    &&& marker.protocol_version == 2
    &&& marker.status@ == "ok"@
    &&& marker.instance_id == instance
}

/// A start on this machine alone, where nothing goes wrong: the child is configured, launched,
/// recorded, acknowledged, asked for its health and its owner, and published under its own
/// URL.
pub proof fn local_starts_in_order(
    states: Seq<StartMachine>,
    events: Seq<LauncherEvent>,
    ready: StartupReady,
    marker: HealthMarker,
)
    requires
        runs(states, events),
        asks(states[0]) is Lock,
        states[0].asked().share is Local,
        states[0].asked().bind.ip.loopback(),
        states[0].instance().value != 0,
        ready.instance_id == states[0].instance(),
        ready_port(states[0], ready) is Some,
        is_well(marker, states[0].instance()),
        events == seq![
            LauncherEvent::Done,
            LauncherEvent::Record(None),
            LauncherEvent::Done,
            LauncherEvent::Ready(ready),
            LauncherEvent::Done,
            LauncherEvent::Done,
            LauncherEvent::Probed(Ok(marker)),
            LauncherEvent::Done,
            LauncherEvent::Done,
        ],
    ensures
        asks(states[1]) is Read,
        asks(states[2]) == StartAction::Configure(RuntimeShareMode::Local),
        asks(states[3]) is Launch,
        asks(states[4]) is Write,
        asks(states[5]) is Acknowledge,
        asks(states[6]) is Probe,
        asks(states[7]) is VerifyOwner,
        asks(states[8]) is Publish,
        asks(states[9]) == if states[0].asked().background {
            StartAction::Detach
        } else {
            StartAction::Wait
        },
        states[8].target() matches Some(record) && record.instance_id == states[0].instance()
            && record.control_url@ == ready.control_url@ && record.share_mode is Local
            && record.advertised_url is None && record.owned_serve is None,
{
    assert(steps(states[0], events[0], states[1]));
    assert(steps(states[1], events[1], states[2]));
    assert(steps(states[2], events[2], states[3]));
    assert(ready_port(states[3], ready) == ready_port(states[0], ready));
    assert(steps(states[3], events[3], states[4]));
    assert(steps(states[4], events[4], states[5]));
    assert(steps(states[5], events[5], states[6]));
    assert(steps(states[6], events[6], states[7]));
    assert(steps(states[7], events[7], states[8]));
    assert(steps(states[8], events[8], states[9]));
}

/// A start on the LAN, where nothing goes wrong: as on this machine alone, but the URL is
/// recorded as advertised before it is published.
pub proof fn lan_starts_in_order(
    states: Seq<StartMachine>,
    events: Seq<LauncherEvent>,
    ready: StartupReady,
    marker: HealthMarker,
)
    requires
        runs(states, events),
        asks(states[0]) is Lock,
        states[0].asked().share is Lan,
        !states[0].asked().bind.ip.loopback(),
        states[0].asked().tls is Some,
        states[0].instance().value != 0,
        ready.instance_id == states[0].instance(),
        ready_port(states[0], ready) is Some,
        is_well(marker, states[0].instance()),
        events == seq![
            LauncherEvent::Done,
            LauncherEvent::Record(None),
            LauncherEvent::Done,
            LauncherEvent::Ready(ready),
            LauncherEvent::Done,
            LauncherEvent::Done,
            LauncherEvent::Probed(Ok(marker)),
            LauncherEvent::Done,
            LauncherEvent::Done,
            LauncherEvent::Done,
        ],
    ensures
        asks(states[2]) == StartAction::Configure(RuntimeShareMode::Lan),
        asks(states[3]) is Launch,
        asks(states[4]) is Write,
        asks(states[5]) is Acknowledge,
        asks(states[6]) is Probe,
        asks(states[7]) is VerifyOwner,
        asks(states[8]) is Write,
        asks(states[9]) is Publish,
        asks(states[10]) == if states[0].asked().background {
            StartAction::Detach
        } else {
            StartAction::Wait
        },
        states[4].target() matches Some(record) && record.advertised_url is None,
        states[9].target() matches Some(record) && record.instance_id == states[0].instance()
            && record.control_url@ == ready.control_url@ && record.share_mode is Lan && opt_text(
            record.advertised_url,
        ) == Some(ready.control_url@) && record.owned_serve is None,
{
    assert(steps(states[0], events[0], states[1]));
    assert(steps(states[1], events[1], states[2]));
    assert(steps(states[2], events[2], states[3]));
    assert(ready_port(states[3], ready) == ready_port(states[0], ready));
    assert(steps(states[3], events[3], states[4]));
    assert(steps(states[4], events[4], states[5]));
    assert(steps(states[5], events[5], states[6]));
    assert(steps(states[6], events[6], states[7]));
    assert(steps(states[7], events[7], states[8]));
    assert(steps(states[8], events[8], states[9]));
    assert(steps(states[9], events[9], states[10]));
}

/// A machine on a tailnet that works.
pub open spec fn on_tailnet(snapshot: TailscaleSnapshot) -> bool {
    &&& snapshot.backend_running
    &&& snapshot.self_ipv4@.len() > 0
    &&& forall|i: int|
        0 <= i < snapshot.self_ipv4@.len() ==> (#[trigger] snapshot.self_ipv4@[i]).tailscale()
    &&& forall|i: int|
        0 <= i < snapshot.online_peer_ipv4@.len() ==> (
        #[trigger] snapshot.online_peer_ipv4@[i]).tailscale()
}

/// A start on the tailnet, where nothing goes wrong: the tailnet is looked at, the child's port
/// is claimed there, forwarded and seen to be forwarded to the child, and the router is
/// recorded and published under this machine's address there.
#[verifier::rlimit(60)]
pub proof fn tailnet_starts_in_order(
    states: Seq<StartMachine>,
    events: Seq<LauncherEvent>,
    ready: StartupReady,
    marker: HealthMarker,
    surveyed: TailscaleSnapshot,
    claimed: TailscaleSnapshot,
    confirmed: TailscaleSnapshot,
)
    requires
        runs(states, events),
        asks(states[0]) is Lock,
        states[0].asked().share is Tailscale || states[0].asked().share is Auto,
        states[0].asked().bind.ip.loopback(),
        states[0].asked().tls is None,
        states[0].instance().value != 0,
        ready.instance_id == states[0].instance(),
        ready_port(states[0], ready) is Some,
        is_well(marker, states[0].instance()),
        on_tailnet(surveyed),
        on_tailnet(claimed),
        on_tailnet(confirmed),
        !claimed.tcp_forwards@.dom().contains(ready_port(states[0], ready)->0),
        confirmed.tcp_forwards@.dom().contains(ready_port(states[0], ready)->0),
        confirmed.tcp_forwards@[ready_port(states[0], ready)->0]@ == "tcp://127.0.0.1:"@
            + decimal_text(ready_port(states[0], ready)->0 as nat),
        events == seq![
            LauncherEvent::Done,
            LauncherEvent::Record(None),
            LauncherEvent::Snapshot(surveyed),
            LauncherEvent::Done,
            LauncherEvent::Ready(ready),
            LauncherEvent::Snapshot(claimed),
            LauncherEvent::Done,
            LauncherEvent::Done,
            LauncherEvent::Probed(Ok(marker)),
            LauncherEvent::Done,
            LauncherEvent::Done,
            LauncherEvent::Snapshot(confirmed),
            LauncherEvent::Done,
            LauncherEvent::Done,
        ],
    ensures
        asks(states[1]) is Read,
        asks(states[2]) is Snapshot,
        asks(states[3]) == StartAction::Configure(RuntimeShareMode::Tailscale),
        asks(states[4]) is Launch,
        asks(states[5]) is Snapshot,
        asks(states[6]) is Write,
        asks(states[7]) is Acknowledge,
        asks(states[8]) is Probe,
        asks(states[9]) is VerifyOwner,
        asks(states[10]) is Enable,
        asks(states[11]) is Snapshot,
        asks(states[12]) is Write,
        asks(states[13]) is Publish,
        asks(states[14]) == if states[0].asked().background {
            StartAction::Detach
        } else {
            StartAction::Wait
        },
        states[6].target() matches Some(record) && record.advertised_url is None && (
        record.owned_serve matches Some(serve) && serve.instance_id == states[0].instance()
            && serve.port == ready_port(states[0], ready)->0 && serve.target@
            == "tcp://127.0.0.1:"@ + decimal_text(serve.port as nat)),
        ({
            let ip = confirmed.self_ipv4@[0];
            states[13].target() matches Some(record) && record.instance_id == states[0].instance()
                && record.control_url@ == ready.control_url@ && record.share_mode is Tailscale
                && opt_text(record.advertised_url) == Some(
                "ws://"@ + (decimal_text(ip.a as nat) + "."@ + decimal_text(ip.b as nat) + "."@
                    + decimal_text(ip.c as nat) + "."@ + decimal_text(ip.d as nat)) + ":"@
                    + decimal_text(ready_port(states[0], ready)->0 as nat) + "/ws"@,
            )
        }),
{
    assert(steps(states[0], events[0], states[1]));
    assert(steps(states[1], events[1], states[2]));
    assert(steps(states[2], events[2], states[3]));
    assert(steps(states[3], events[3], states[4]));
    assert(ready_port(states[4], ready) == ready_port(states[0], ready));
    assert(steps(states[4], events[4], states[5]));
    assert(steps(states[5], events[5], states[6]));
    assert(steps(states[6], events[6], states[7]));
    assert(steps(states[7], events[7], states[8]));
    assert(steps(states[8], events[8], states[9]));
    assert(steps(states[9], events[9], states[10]));
    assert(steps(states[10], events[10], states[11]));
    assert(steps(states[11], events[11], states[12]));
    assert(steps(states[12], events[12], states[13]));
    assert(steps(states[13], events[13], states[14]));
}

/// Which endpoint a ready child may report: its own instance's, under TLS exactly the public
/// URL, else one of the machine itself at the port that was asked for.
pub proof fn ready_children_serve_what_was_asked(m: StartMachine, ready: StartupReady)
    ensures
        ready_port(m, ready) matches Some(port) ==> {
            &&& ready.instance_id == m.instance()
            &&& parsed_url(ready.control_url@) matches Some(url)
            &&& url.known_port == Some(port)
            &&& router_url(url)
            &&& m.asked().tls matches Some(tls) ==> ready.control_url@ == tls.public_url@
                && url.scheme == "wss"@
            &&& m.asked().tls is None ==> url.scheme == "ws"@ && (url.host matches Some(
                HostModel::Ipv4(ip),
            ) && ip.a == 127) && (m.asked().bind.port != 0 ==> port == m.asked().bind.port)
        },
        ready.instance_id == m.instance() && m.asked().tls is None && (parsed_url(
            ready.control_url@,
        ) matches Some(url) && url.known_port is Some && router_url(url) && url.scheme == "ws"@ && (
        url.host matches Some(HostModel::Ipv4(ip)) && ip.a == 127) && (m.asked().bind.port == 0
            || url.known_port == Some(m.asked().bind.port))) ==> ready_port(m, ready) is Some,
        ready.instance_id == m.instance() && (m.asked().tls matches Some(tls)
            && ready.control_url@ == tls.public_url@) && (parsed_url(ready.control_url@) matches Some(
            url,
        ) && url.known_port is Some && router_url(url) && url.scheme == "wss"@) ==> ready_port(
            m,
            ready,
        ) is Some,
{
}

/// A recorded router that answers as itself and whose owner is verified is used again, and
/// nothing is launched.
pub proof fn running_routers_are_used_again(
    states: Seq<StartMachine>,
    events: Seq<LauncherEvent>,
    record: RuntimeRecord,
    marker: HealthMarker,
)
    requires
        runs(states, events),
        asks(states[0]) is Lock,
        is_well(marker, record.instance_id),
        events == seq![
            LauncherEvent::Done,
            LauncherEvent::Record(Some(record)),
            LauncherEvent::Probed(Ok(marker)),
            LauncherEvent::Done,
        ],
    ensures
        asks(states[1]) is Read,
        asks(states[2]) is Probe,
        asks(states[3]) is VerifyOwner,
        asks(states[4]) == StartAction::Return(StartReturn::Reused),
        states[4].target() == Some(record),
{
    assert(steps(states[0], events[0], states[1]));
    assert(steps(states[1], events[1], states[2]));
    assert(steps(states[2], events[2], states[3]));
    assert(steps(states[3], events[3], states[4]));
}

/// A recorded router that does not run is forgotten before another one is started: a refused
/// connection alone shows that it does not run.
pub proof fn stale_records_are_removed_first(
    states: Seq<StartMachine>,
    events: Seq<LauncherEvent>,
    record: RuntimeRecord,
    answer: Result<HealthMarker, ProbeFailure>,
)
    requires
        runs(states, events),
        asks(states[0]) is Lock,
        events.len() >= 3,
        events[0] == LauncherEvent::Done,
        events[1] == LauncherEvent::Record(Some(record)),
        events[2] == LauncherEvent::Probed(answer),
    ensures
        answer matches Err(failure) && !(failure is ConnectionRefused) ==> asks(states[3])
            == StartAction::Return(
            StartReturn::Failed(RouterLaunchError::Health(answer->Err_0)),
        ),
        answer matches Ok(marker) && !is_well(marker, record.instance_id) ==> asks(states[3])
            == StartAction::Return(
            StartReturn::Failed(RouterLaunchError::Health(ProbeFailure::MarkerMismatch)),
        ),
        answer == Err::<HealthMarker, _>(ProbeFailure::ConnectionRefused) && record.owned_serve
            is None ==> asks(states[3]) is Remove && (events.len() >= 4 && events[3]
            == LauncherEvent::Done && states[0].asked().share is Local
            && states[0].asked().bind.ip.loopback() && states[0].instance().value != 0 ==> asks(
            states[4],
        ) == StartAction::Configure(RuntimeShareMode::Local) && states[4].target() is None),
{
    assert(steps(states[0], events[0], states[1]));
    assert(steps(states[1], events[1], states[2]));
    assert(steps(states[2], events[2], states[3]));
    if events.len() >= 4 {
        assert(steps(states[3], events[3], states[4]));
    }
}

/// What goes wrong before the child is launched fails the start at once, with what went wrong.
/// Afterwards the child is ended first and the start fails with what went wrong before: once
/// the record is written it is removed, and once there is a tailnet port it is given back
/// first.
pub proof fn failures_are_reported_as_they_are(
    states: Seq<StartMachine>,
    events: Seq<LauncherEvent>,
    error: RouterLaunchError,
)
    requires
        runs(states, events),
        events.len() >= 1,
        events[0] == LauncherEvent::Failed(error),
    ensures
        asks(states[0]) is Lock || asks(states[0]) is Configure || asks(states[0]) is VerifyOwner
            && states[0].at() is VerifyOld ==> asks(states[1]) == StartAction::Return(
            StartReturn::Failed(error),
        ),
        asks(states[0]) is Launch ==> asks(states[1]) is Terminate && (events.len() >= 2
            && events[1] == LauncherEvent::Done ==> asks(states[2]) == StartAction::Return(
            StartReturn::Failed(error),
        )),
        asks(states[0]) is Acknowledge ==> asks(states[1]) is Terminate && (events.len() >= 2
            && events[1] == LauncherEvent::Done ==> asks(states[2]) is Remove && (events.len() >= 3
            && events[2] == LauncherEvent::Done ==> asks(states[3]) == StartAction::Return(
            StartReturn::Failed(error),
        ))),
        (asks(states[0]) is Publish || asks(states[0]) is Probe && states[0].at() is Probe || asks(
            states[0],
        ) is Enable) && states[0].target()->0.owned_serve is None ==> asks(states[1]) is Terminate
            && (events.len() >= 2 && events[1] == LauncherEvent::Done ==> asks(states[2]) is Remove
            && (events.len() >= 3 && events[2] == LauncherEvent::Done ==> asks(states[3])
            == StartAction::Return(StartReturn::Failed(error)))),
        (asks(states[0]) is Publish || asks(states[0]) is Enable) && (
        states[0].target()->0.owned_serve matches Some(serve) && serve.port != 0
            && serve.instance_id == states[0].target()->0.instance_id && serve.target@
            == "tcp://127.0.0.1:"@ + decimal_text(serve.port as nat)) ==> asks(states[1])
            is Snapshot,
{
    assert(steps(states[0], events[0], states[1]));
    if events.len() >= 2 {
        assert(steps(states[1], events[1], states[2]));
    }
    if events.len() >= 3 {
        assert(steps(states[2], events[2], states[3]));
    }
}

/// How a router is shared follows from what was asked, where it listens and whether it has a
/// certificate: on this machine alone where that was asked, on the LAN with a certificate, on
/// the tailnet without one. Where any way will do it is the tailnet if it works and this
/// machine alone if it does not.
pub proof fn sharing_is_as_asked(
    request: ShareRequest,
    bind: crate::process::BindAddress,
    tls: Option<&crate::process::TlsSettings>,
    tailscale: Option<&TailscaleSnapshot>,
    mode: Result<RuntimeShareMode, RouterLaunchError>,
)
    requires
        call_ensures(crate::process::resolve_share_mode, (request, bind, tls, tailscale), mode),
    ensures
        mode == Ok::<_, RouterLaunchError>(RuntimeShareMode::Local) <==> bind.ip.loopback() && (
        request is Local || request is Auto && (tls is Some || !(tailscale matches Some(snapshot)
            && on_tailnet(*snapshot)))),
        mode == Ok::<_, RouterLaunchError>(RuntimeShareMode::Lan) <==> !bind.ip.loopback() && tls
            is Some && (request is Lan || request is Auto),
        mode == Ok::<_, RouterLaunchError>(RuntimeShareMode::Tailscale) <==> bind.ip.loopback()
            && tls is None && (request is Tailscale || request is Auto) && (tailscale matches Some(
            snapshot,
        ) && on_tailnet(*snapshot)),
        mode == Err::<RuntimeShareMode, _>(RouterLaunchError::TlsInvalid) <==> request is Tailscale
            && (tls is Some || !bind.ip.loopback()),
        mode == Err::<RuntimeShareMode, _>(RouterLaunchError::TailscaleUnavailable) <==> request
            is Tailscale && tls is None && bind.ip.loopback() && !(tailscale matches Some(snapshot)
            && on_tailnet(*snapshot)),
        mode is Err ==> mode->Err_0 is TlsInvalid || mode->Err_0 is TailscaleUnavailable
            || mode->Err_0 is TlsRequired,
{
}

/// What a stop asks for in a state.
pub open spec fn stop_asks(m: StopMachine) -> StopAction {
    stop_action(m.at())
}

/// A step of a stop from one state to the next.
pub open spec fn stop_steps(a: StopMachine, event: LauncherEvent, b: StopMachine) -> bool {
    &&& a.wf()
    &&& b.wf()
    &&& b.wanted() == a.wanted()
    &&& b.at() == stop_next(a.at(), a.wanted(), a.target(), event)
    &&& b.target() == (match (a.at(), event) {
        (crate::process::stop::StopPhase::Read, LauncherEvent::Record(found)) => found,
        _ => a.target(),
    })
}

/// What a stop goes through when it is told of some events.
pub open spec fn stop_runs(states: Seq<StopMachine>, events: Seq<LauncherEvent>) -> bool {
    &&& states.len() == events.len() + 1
    &&& forall|i: int|
        0 <= i < events.len() ==> stop_steps(states[i], #[trigger] events[i], states[i + 1])
}

/// Every call of the stop takes such a step, and says what the state that it leads to asks
/// for.
pub proof fn stop_calls_take_steps(m: &mut StopMachine, event: LauncherEvent, action: StopAction)
    requires
        old(m).wf(),
        call_ensures(StopMachine::step, (m, event), action),
    ensures
        stop_steps(*old(m), event, *final(m)),
        action == stop_asks(*final(m)),
{
}

/// A router that runs is stopped in order: it is asked for its health and its owner, told to
/// shut down and waited for; what it owned on the tailnet is given back, its record is removed,
/// and only then it counts as stopped.
pub proof fn routers_are_stopped_in_order(
    states: Seq<StopMachine>,
    events: Seq<LauncherEvent>,
    record: RuntimeRecord,
    marker: HealthMarker,
)
    requires
        stop_runs(states, events),
        stop_asks(states[0]) is Lock,
        states[0].wanted() is None || states[0].wanted() == Some(record.instance_id),
        is_well(marker, record.instance_id),
        record.owned_serve is None,
        events == seq![
            LauncherEvent::Done,
            LauncherEvent::Record(Some(record)),
            LauncherEvent::Probed(Ok(marker)),
            LauncherEvent::Done,
            LauncherEvent::Done,
            LauncherEvent::Done,
            LauncherEvent::Done,
        ],
    ensures
        stop_asks(states[1]) is Read,
        stop_asks(states[2]) is Probe,
        stop_asks(states[3]) is VerifyOwner,
        stop_asks(states[4]) is Shutdown,
        stop_asks(states[5]) is WaitStopped,
        stop_asks(states[6]) is Remove,
        stop_asks(states[7]) == StopAction::Return(StopReturn::Stopped),
{
    assert(stop_steps(states[0], events[0], states[1]));
    assert(stop_steps(states[1], events[1], states[2]));
    assert(stop_steps(states[2], events[2], states[3]));
    assert(stop_steps(states[3], events[3], states[4]));
    assert(stop_steps(states[4], events[4], states[5]));
    assert(stop_steps(states[5], events[5], states[6]));
    assert(stop_steps(states[6], events[6], states[7]));
}

/// A router that owned a port of the tailnet gives it back when it is stopped: the forward is
/// looked at, removed, and seen to be gone before the record is removed.
pub proof fn stopped_routers_give_their_port_back(
    states: Seq<StopMachine>,
    events: Seq<LauncherEvent>,
    serve: crate::process::OwnedServe,
    seen: TailscaleSnapshot,
    left: TailscaleSnapshot,
)
    requires
        stop_runs(states, events),
        stop_asks(states[0]) is WaitStopped,
        states[0].target()->0.owned_serve == Some(serve),
        serve.port != 0,
        serve.instance_id == states[0].target()->0.instance_id,
        serve.target@ == "tcp://127.0.0.1:"@ + decimal_text(serve.port as nat),
        on_tailnet(seen),
        on_tailnet(left),
        seen.tcp_forwards@.dom().contains(serve.port),
        seen.tcp_forwards@[serve.port]@ == serve.target@,
        !left.tcp_forwards@.dom().contains(serve.port),
        events == seq![
            LauncherEvent::Done,
            LauncherEvent::Snapshot(seen),
            LauncherEvent::Done,
            LauncherEvent::Snapshot(left),
            LauncherEvent::Done,
        ],
    ensures
        stop_asks(states[1]) is Snapshot,
        stop_asks(states[2]) is Disable,
        stop_asks(states[3]) is Snapshot,
        stop_asks(states[4]) is Remove,
        stop_asks(states[5]) == StopAction::Return(StopReturn::Stopped),
{
    assert(stop_steps(states[0], events[0], states[1]));
    assert(stop_steps(states[1], events[1], states[2]));
    assert(stop_steps(states[2], events[2], states[3]));
    assert(stop_steps(states[3], events[3], states[4]));
    assert(stop_steps(states[4], events[4], states[5]));
}

/// How a stop ends otherwise: without a record nothing runs; another instance than the wanted
/// one is left alone; a router whose connection is refused is only forgotten; one that does not
/// answer as itself, and one that does not stop in time, fail the stop.
pub proof fn stops_end_as_they_found(
    states: Seq<StopMachine>,
    events: Seq<LauncherEvent>,
    found: Option<RuntimeRecord>,
)
    requires
        stop_runs(states, events),
        stop_asks(states[0]) is Lock,
        events.len() >= 2,
        events[0] == LauncherEvent::Done,
        events[1] == LauncherEvent::Record(found),
    ensures
        found is None ==> stop_asks(states[2]) == StopAction::Return(StopReturn::NotRunning),
        found matches Some(record) && states[0].wanted() is Some && states[0].wanted() != Some(
            record.instance_id,
        ) ==> stop_asks(states[2]) == StopAction::Return(
            StopReturn::Failed(RouterLaunchError::InstanceChanged),
        ),
        found matches Some(record) && (states[0].wanted() is None || states[0].wanted() == Some(
            record.instance_id,
        )) ==> stop_asks(states[2]) is Probe && (events.len() >= 3 && events[2]
            == LauncherEvent::Probed(Err(ProbeFailure::ConnectionRefused)) && found->0.owned_serve
            is None ==> stop_asks(states[3]) is Remove && (events.len() >= 4 && events[3]
            == LauncherEvent::Done ==> stop_asks(states[4]) == StopAction::Return(
            StopReturn::StaleRecovered,
        ))),
{
    assert(stop_steps(states[0], events[0], states[1]));
    assert(stop_steps(states[1], events[1], states[2]));
    if events.len() >= 3 {
        assert(stop_steps(states[2], events[2], states[3]));
    }
    if events.len() >= 4 {
        assert(stop_steps(states[3], events[3], states[4]));
    }
}

} // verus!
