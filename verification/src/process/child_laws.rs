//! What holds of a router process as a whole: how it is waited for and ended, what is launched,
//! which records, addresses and answers are trusted, and what Tailscale is asked.

use std::collections::BTreeMap;

use vstd::prelude::*;

use crate::ids::{hyphenated_text, Uuid};
use crate::json::{Json, JsonModel};
use crate::net::{parsed_url, HostModel, IpAddress, Ipv4, UrlModel};
use crate::paths::{absolute, joined};
use crate::process::child::{
    accept_marker, bounded_output, check_response, end_interrupted, end_next, end_unready,
    end_unwanted, launch_variables, redirected_url, health_url, ChildEnding, ChildSignal, EndEvent,
    EndPhase, NativeChildConfig, ProbeResponse, WaitEvent, WaitPhase,
};
use crate::process::cleanup::{
    begin_cleanup, continue_cleanup, CleanupPhase, CleanupStep, LauncherEvent,
};
use crate::process::launch::{
    bootstrap_assets_directory, map_exit_status, LaunchError, LaunchMode, LaunchPlan,
};
use crate::process::startup::{
    accept_ready, check_startup_write, frame_startup, line_feed, validate_ready_control_url,
    StartOptions,
    StartupAck, StartupFrame, StartupRead, StartupReady, StartupWrite, FrameStep,
};
use crate::process::store::{
    accept_record, check_lock, check_record_payload, may_remove, retry_lock, LockAttempt,
    RuntimeStore,
};
use crate::process::tailscale::{
    disable_arguments, enable_arguments, forward_texts, forwards_among, parse_tailscale_addresses,
    read_serve_status, serve_status_arguments, status_arguments, tailnet_addresses, parse_tailscale_snapshot, TailscaleStatus,
};
use crate::process::{
    env_lookup, resolve_share_mode, tls_settings_from_environment, validate_owned_file_0600,
    validate_private_directory, validate_private_file_metadata, validate_public_router_url,
    validate_router_url, validate_tailscale_router_url, BindAddress, EnvEntry, FileFacts,
    HealthMarker, OwnedServe, ProbeFailure, RouterLaunchError, RuntimeRecord, RuntimeShareMode,
    ShareRequest, TailscaleSnapshot, TlsFileFacts, TlsSettings,
};
use crate::text::{decimal_text, opt_text, texts, u16_of};

verus! {

/// A child that has to be ended is seen to run, is sent the signal, is awaited for its time, is
/// killed when that has passed, and is let go of when its end was seen.
pub proof fn children_are_ended_in_order(
    ending: ChildEnding,
    a: EndPhase,
    b: EndPhase,
    c: EndPhase,
    d: EndPhase,
    e: EndPhase,
)
    requires
        call_ensures(end_next, (EndPhase::Look, ending, EndEvent::Running), a),
        call_ensures(end_next, (a, ending, EndEvent::Signalled), b),
        call_ensures(end_next, (b, ending, EndEvent::TimedOut), c),
        call_ensures(end_next, (c, ending, EndEvent::Signalled), d),
        call_ensures(end_next, (d, ending, EndEvent::Exited), e),
    ensures
        a == EndPhase::Signal(ending.signal),
        b == EndPhase::TimedWait(ending.deadline_ms),
        c is Kill,
        d is Reap,
        e is Ended,
{
}

/// A child that has ended is neither signalled nor killed, and one whose end cannot be seen is
/// still held.
pub proof fn ended_children_are_not_signalled(
    ending: ChildEnding,
    phase: EndPhase,
    event: EndEvent,
    next: EndPhase,
)
    requires
        call_ensures(end_next, (phase, ending, event), next),
    ensures
        (phase is Look || phase is TimedWait || phase is Reap) && event is Exited ==> next
            is Ended,
        (phase is Look || phase is TimedWait || phase is Reap) && event is Failed ==> next
            is Failed,
        event is NoChild && !(phase is Failed) ==> next is Ended,
        next is Signal && phase != next ==> phase is Look && event is Running,
        next is Kill && phase != next ==> phase is TimedWait && event is TimedOut,
        next is Ended && phase != next ==> event is Exited || event is NoChild,
{
}

/// How a child is ended: asked where it has a process group, else killed, within five seconds;
/// after an interrupt it is interrupted too and has thirty.
pub proof fn endings_fit_their_reason(
    group: bool,
    error: RouterLaunchError,
    unwanted: ChildEnding,
    interrupted: ChildEnding,
    unready: ChildEnding,
)
    requires
        call_ensures(end_unwanted, (group,), unwanted),
        call_ensures(end_interrupted, (), interrupted),
        call_ensures(end_unready, (error, group), unready),
    ensures
        unwanted.signal == if group {
            ChildSignal::Terminate
        } else {
            ChildSignal::Kill
        },
        unwanted.deadline_ms == 5_000,
        interrupted.signal is Interrupt,
        interrupted.deadline_ms == 30_000,
        error is Interrupted ==> unready == interrupted,
        !(error is Interrupted) ==> unready == unwanted,
{
}

/// A wait gives the code of the child where it ended by itself, and 130 after an interrupt, once
/// the child has ended; where there is none, there is nothing to wait for.
pub proof fn waits_give_the_code(
    held: bool,
    first: WaitPhase,
    code: Option<i32>,
    signal: Option<i32>,
    exited: WaitPhase,
    result: Option<Result<i32, RouterLaunchError>>,
    mapped: i32,
    interrupted: WaitPhase,
    gone: WaitPhase,
    after: Option<Result<i32, RouterLaunchError>>,
    released: bool,
    waiting: Option<Result<i32, RouterLaunchError>>,
)
    requires
        call_ensures(WaitPhase::begin, (held,), first),
        call_ensures(WaitPhase::step, (first, WaitEvent::Exited { code, signal }), exited),
        call_ensures(WaitPhase::result, (&exited,), result),
        call_ensures(map_exit_status, (code, signal), mapped),
        call_ensures(WaitPhase::step, (first, WaitEvent::Interrupted), interrupted),
        call_ensures(
            WaitPhase::step,
            (interrupted, WaitEvent::Ending(EndEvent::Exited)),
            gone,
        ),
        call_ensures(WaitPhase::result, (&gone,), after),
        call_ensures(WaitPhase::releases, (&gone,), released),
        call_ensures(WaitPhase::result, (&interrupted,), waiting),
    ensures
        held ==> result == Some(Ok::<_, RouterLaunchError>(mapped)),
        held ==> after == Some(Ok::<i32, RouterLaunchError>(130i32)),
        held ==> released,
        held ==> waiting is None,
        !held ==> result == Some(Err::<i32, _>(RouterLaunchError::ChildTerminated)),
        !held ==> !released,
{
}

/// A wait that cannot see the end of the child fails.
pub proof fn unseen_ends_fail_the_wait(
    first: WaitPhase,
    lost: WaitPhase,
    result: Option<Result<i32, RouterLaunchError>>,
    released: bool,
    ending: WaitPhase,
    unseen: WaitPhase,
    after: Option<Result<i32, RouterLaunchError>>,
    kept: bool,
)
    requires
        call_ensures(WaitPhase::begin, (true,), first),
        call_ensures(WaitPhase::step, (first, WaitEvent::Failed), lost),
        call_ensures(WaitPhase::result, (&lost,), result),
        call_ensures(WaitPhase::releases, (&lost,), released),
        call_ensures(WaitPhase::step, (first, WaitEvent::Interrupted), ending),
        call_ensures(WaitPhase::step, (ending, WaitEvent::Ending(EndEvent::Failed)), unseen),
        call_ensures(WaitPhase::result, (&unseen,), after),
        call_ensures(WaitPhase::releases, (&unseen,), kept),
    ensures
        result == Some(Err::<i32, _>(RouterLaunchError::Io)),
        released,
        after == Some(Err::<i32, _>(RouterLaunchError::Io)),
        !kept,
{
}

/// The code that stands for how a process ended is its own where a shell can tell it; an
/// interrupt gives 130, anything else 1.
pub proof fn exit_codes_are_told(code: Option<i32>, signal: Option<i32>, mapped: i32)
    requires
        call_ensures(map_exit_status, (code, signal), mapped),
    ensures
        (code matches Some(own) && 0 <= own <= 255) ==> mapped == code->0,
        (code matches Some(own) && !(0 <= own <= 255)) ==> mapped == 1,
        code is None && signal == Some(2i32) ==> mapped == 130,
        code is None && signal != Some(2i32) ==> mapped == 1,
{
}

/// What a child is told: its instance, whether it runs in the background, and how it is shared,
/// the last once only.
pub proof fn children_are_told_their_instance(
    instance: Uuid,
    background: bool,
    told: Vec<EnvEntry>,
    config: &mut NativeChildConfig,
    mode: RuntimeShareMode,
    i: int,
)
    requires
        call_ensures(launch_variables, (instance, background), told),
        call_ensures(NativeChildConfig::configure_share_mode, (config, mode), ()),
        0 <= i < final(config).environment@.len(),
    ensures
        told@.len() == 2,
        told@[0].key@ == "ASR_LAUNCH_INSTANCE_ID"@ && told@[0].value@ == hyphenated_text(
            instance.value,
        ),
        told@[1].key@ == "ASR_BACKGROUND_CHILD"@,
        background ==> told@[1].value@ == "1"@,
        !background ==> told@[1].value@ == "0"@,
        final(config).environment@[i].key@ == "ASR_RUNTIME_SHARE_MODE"@ ==> i == final(config).environment@.len() - 1 && final(config).environment@[i].value@ == (match mode {
            RuntimeShareMode::Local => "local"@,
            RuntimeShareMode::Tailscale => "tailscale"@,
            RuntimeShareMode::Lan => "lan"@,
        }),
        final(config).environment@.last().key@ == "ASR_RUNTIME_SHARE_MODE"@,
        final(config).environment@[i].key@ != "ASR_RUNTIME_SHARE_MODE"@ ==> old(config).environment@.contains(final(config).environment@[i]),
        final(config).program == old(config).program && final(config).arguments == old(config).arguments && final(config).cwd == old(config).cwd,
{
    let n = final(config).environment@.len() - 1;
    let rest = final(config).environment@.drop_last();
    others_are_kept(old(config).environment@, "ASR_RUNTIME_SHARE_MODE"@);
    if i < n {
        assert(rest[i] == final(config).environment@[i]);
    }
}

proof fn others_are_kept(environment: Seq<EnvEntry>, key: Seq<char>)
    ensures
        forall|i: int|
            0 <= i < crate::process::child::without_key(environment, key).len() ==> (
            #[trigger] crate::process::child::without_key(environment, key)[i]).key@ != key
                && environment.contains(crate::process::child::without_key(environment, key)[i]),
    decreases environment.len(),
{
    if environment.len() > 0 {
        let rest = environment.drop_last();
        others_are_kept(rest, key);
        let kept = crate::process::child::without_key(rest, key);
        let whole = crate::process::child::without_key(environment, key);
        assert forall|i: int| 0 <= i < whole.len() implies (#[trigger] whole[i]).key@ != key
            && environment.contains(whole[i]) by {
            if i < kept.len() {
                assert(whole[i] == kept[i]);
                let j = rest.index_of(kept[i]);
                assert(rest.contains(kept[i]));
                assert(environment[j] == rest[j]);
            } else {
                assert(whole[i] == environment.last());
                assert(environment[environment.len() - 1] == environment.last());
            }
        }
    }
}

/// A child is launched where none runs, by an absolute path, in an absolute directory.
pub proof fn children_are_launched_by_absolute_paths(
    config: NativeChildConfig,
    running: bool,
    verdict: Result<(), RouterLaunchError>,
)
    requires
        call_ensures(NativeChildConfig::check_launch, (&config, running), verdict),
    ensures
        verdict is Ok <==> !running && absolute(config.program@) && absolute(config.cwd@),
        verdict is Err ==> verdict->Err_0 is ChildLaunch,
{
}

/// A router's health is believed where it answers well, for itself, as this program does.
pub proof fn health_is_believed_of_the_router_itself(
    response: ProbeResponse,
    secure: bool,
    verdict: Result<(), ProbeFailure>,
    decoded: Option<HealthMarker>,
    instance: Uuid,
    marker: Result<HealthMarker, ProbeFailure>,
)
    requires
        call_ensures(check_response, (response, secure), verdict),
        call_ensures(accept_marker, (decoded, instance), marker),
    ensures
        verdict is Ok <==> (response matches ProbeResponse::Status(status) && 200 <= status < 300),
        response is Refused ==> verdict == Err::<(), _>(ProbeFailure::ConnectionRefused),
        response is Failed && secure ==> verdict == Err::<(), _>(ProbeFailure::Tls),
        response is Failed && !secure ==> verdict == Err::<(), _>(ProbeFailure::Transport),
        response == ProbeResponse::Status(401) || response == ProbeResponse::Status(403)
            ==> verdict == Err::<(), _>(ProbeFailure::Authentication),
        response == ProbeResponse::Status(404) || response == ProbeResponse::Status(500)
            ==> verdict == Err::<(), _>(ProbeFailure::MarkerMismatch),
        marker is Ok <==> (decoded matches Some(own) && own.service@ == "agent-session-router"@
            && own.protocol_version == 2 && own.status@ == "ok"@ && own.instance_id == instance),
        marker is Ok ==> Some(marker->Ok_0) == decoded,
        marker is Err ==> marker->Err_0 is MarkerMismatch,
{
}

/// A router's health is asked beside its endpoint: over HTTPS where that is reached over TLS.
pub proof fn health_is_asked_beside_the_endpoint(
    control_url: &str,
    parts: UrlModel,
    url: Result<(String, bool), ProbeFailure>,
)
    requires
        call_ensures(health_url, (control_url,), url),
        parsed_url(control_url@) == Some(parts),
    ensures
        url matches Ok(asked) ==> asked.1 == (parts.scheme == "wss"@),
        url matches Ok(asked) ==> (asked.1 ==> redirected_url(
            control_url@,
            "https"@,
            "/healthz"@,
            None,
            None,
        ) == Some(asked.0@)),
        url matches Ok(asked) ==> (!asked.1 ==> redirected_url(
            control_url@,
            "http"@,
            "/healthz"@,
            None,
            None,
        ) == Some(asked.0@)),
{
}

/// The output of a command counts where the command succeeded and wrote no more than a mebibyte.
pub proof fn long_outputs_do_not_count(
    success: bool,
    output: Vec<u8>,
    bytes: Result<Vec<u8>, RouterLaunchError>,
)
    requires
        call_ensures(bounded_output, (success, output), bytes),
    ensures
        bytes is Ok <==> success && output@.len() <= 1_048_576,
        bytes is Ok ==> bytes->Ok_0 == output,
        bytes is Err ==> bytes->Err_0 is TailscaleCommand,
{
}

/// Giving back a tailnet port, where all goes well: it is looked at, found to lead where the
/// router's own leads, given up and looked at once more.
pub proof fn tailnet_ports_are_given_back_in_order(
    record: RuntimeRecord,
    serve: OwnedServe,
    before: TailscaleSnapshot,
    after: TailscaleSnapshot,
    a: CleanupStep,
    b: Option<CleanupStep>,
    c: Option<CleanupStep>,
    d: Option<CleanupStep>,
    target: Option<&String>,
    none: Option<&String>,
)
    requires
        record.owned_serve == Some(serve),
        call_ensures(begin_cleanup, (&record,), a),
        call_ensures(
            continue_cleanup,
            (CleanupPhase::Inspecting, &serve, &LauncherEvent::Snapshot(before)),
            b,
        ),
        call_ensures(
            continue_cleanup,
            (CleanupPhase::Disabling, &serve, &LauncherEvent::Done),
            c,
        ),
        call_ensures(
            continue_cleanup,
            (CleanupPhase::Confirming, &serve, &LauncherEvent::Snapshot(after)),
            d,
        ),
        call_ensures(TailscaleSnapshot::forward, (&before, serve.port), target),
        call_ensures(TailscaleSnapshot::forward, (&after, serve.port), none),
        call_ensures(TailscaleSnapshot::validate, (&before,), Ok::<(), RouterLaunchError>(())),
        call_ensures(TailscaleSnapshot::validate, (&after,), Ok::<(), RouterLaunchError>(())),
    ensures
        a == CleanupStep::Go(CleanupPhase::Inspecting) <==> serve.instance_id
            == record.instance_id && serve.port != 0 && serve.target@ == "tcp://127.0.0.1:"@
            + decimal_text(serve.port as nat),
        !(a is Go) ==> a == CleanupStep::Fault(RouterLaunchError::InvalidRuntimeRecord),
        target is None ==> b == Some(CleanupStep::Finished),
        (target matches Some(text) && text@ == serve.target@) ==> b == Some(
            CleanupStep::Go(CleanupPhase::Disabling),
        ),
        (target matches Some(text) && text@ != serve.target@) ==> b == Some(
            CleanupStep::Fault(RouterLaunchError::TailscaleMappingConflict),
        ),
        c == Some(CleanupStep::Go(CleanupPhase::Confirming)),
        none is None ==> d == Some(CleanupStep::Finished),
        none is Some ==> d == Some(CleanupStep::Fault(RouterLaunchError::TailscaleMappingConflict)),
{
}

/// What is launched: what was asked for, in the caller's directory; Codex is handed that
/// directory, in words where it is as installed, else by a variable.
pub proof fn launches_keep_the_callers_directory(
    program: String,
    cwd: String,
    configured: Option<String>,
    arguments: Vec<String>,
    plain: LaunchPlan,
    stock: LaunchPlan,
    owned: LaunchPlan,
)
    requires
        call_ensures(LaunchPlan::passthrough, (program, cwd, arguments), plain),
        call_ensures(LaunchPlan::stock_codex, (program, cwd, arguments), stock),
        call_ensures(LaunchPlan::owned_codex, (program, cwd, configured, arguments), owned),
    ensures
        plain.program == program && stock.program == program && owned.program == program,
        plain.caller_cwd == cwd && stock.caller_cwd == cwd && owned.caller_cwd == cwd,
        plain.arguments == arguments && owned.arguments == arguments,
        texts(stock.arguments@).len() == arguments@.len() + 2,
        texts(stock.arguments@)[0] == "-C"@,
        texts(stock.arguments@)[1] == cwd@,
        forall|i: int|
            0 <= i < arguments@.len() ==> (#[trigger] texts(stock.arguments@)[i + 2])
                == arguments@[i]@,
        plain.environment@.len() == 0 && stock.environment@.len() == 0,
        owned.environment@.len() == 1 && owned.environment@[0].key@ == "CODEX_CWD"@,
        configured matches Some(own) ==> owned.environment@[0].value@ == own@,
        configured is None ==> owned.environment@[0].value@ == cwd@,
        plain.mode is ReplaceForeground && stock.mode is ReplaceForeground && owned.mode
            is ReplaceForeground,
{
    assert forall|i: int| 0 <= i < arguments@.len() implies (#[trigger] texts(
        stock.arguments@,
    )[i + 2]) == arguments@[i]@ by {
        assert(texts(arguments@)[i] == arguments@[i]@);
    }
}

/// Which plans can be carried out, and what is wrong with the others.
pub proof fn plans_are_checked(plan: LaunchPlan, verdict: Result<(), LaunchError>)
    requires
        call_ensures(LaunchPlan::validate, (&plan,), verdict),
    ensures
        verdict is Ok <==> plan.program@.len() > 0 && absolute(plan.caller_cwd@) && forall|i: int|
            0 <= i < plan.environment@.len() ==> (#[trigger] plan.environment@[i]).key@.len() > 0,
        plan.program@.len() == 0 ==> (verdict matches Err(LaunchError::InvalidPlan(reason))
            && reason@ == "process program must not be empty"@),
        plan.program@.len() > 0 && !absolute(plan.caller_cwd@) ==> (verdict matches Err(
            LaunchError::InvalidPlan(reason),
        ) && reason@ == "caller cwd must be absolute"@),
        plan.program@.len() > 0 && absolute(plan.caller_cwd@) && verdict is Err ==> (
        verdict matches Err(LaunchError::InvalidPlan(reason)) && reason@
            == "environment variable name must not be empty"@),
{
}

/// Where the bootstrap assets lie: where it was said, else among the data.
pub proof fn assets_lie_where_it_was_said(
    data_dir: &str,
    cwd: &str,
    configured: Option<String>,
    path: String,
)
    requires
        call_ensures(bootstrap_assets_directory, (data_dir, cwd, configured), path),
    ensures
        (configured matches Some(own) && own@.len() > 0 && absolute(own@)) ==> path@
            == configured->0@,
        (configured matches Some(own) && own@.len() > 0 && !absolute(own@)) ==> path@ == joined(
            cwd@,
            configured->0@,
        ),
        (configured is None || configured->0@.len() == 0) && absolute(
            joined(data_dir@, "bootstrap"@),
        ) ==> path@ == joined(data_dir@, "bootstrap"@),
        (configured is None || configured->0@.len() == 0) && !absolute(
            joined(data_dir@, "bootstrap"@),
        ) ==> path@ == joined(cwd@, joined(data_dir@, "bootstrap"@)),
{
}

/// A router has started where it says so in time, for an instance, at an endpoint of a router.
pub proof fn routers_say_that_they_are_ready(
    read: StartupRead,
    ready: Result<StartupReady, RouterLaunchError>,
    write: StartupWrite,
    written: Result<(), RouterLaunchError>,
    own: StartupReady,
    ack: StartupAck,
    accepted: Result<(), RouterLaunchError>,
    valid: Result<(), RouterLaunchError>,
    spelled: &str,
    url: Result<crate::net::UrlParts, RouterLaunchError>,
)
    requires
        call_ensures(accept_ready, (read,), ready),
        call_ensures(check_startup_write, (write,), written),
        call_ensures(StartupReady::accepts, (&own, ack), accepted),
        call_ensures(StartupReady::validate, (&own,), valid),
        call_ensures(validate_router_url, (spelled,), url),
        spelled@ == own.control_url@,
    ensures
        read is Interrupted ==> ready == Err::<StartupReady, _>(RouterLaunchError::Interrupted),
        read is TimedOut ==> ready == Err::<StartupReady, _>(RouterLaunchError::StartupTimeout),
        read is Broken ==> ready == Err::<StartupReady, _>(RouterLaunchError::StartupProtocol),
        read == StartupRead::Line(None) ==> ready == Err::<StartupReady, _>(
            RouterLaunchError::StartupProtocol,
        ),
        read == StartupRead::Line(Some(own)) && valid is Ok ==> ready == Ok::<
            _,
            RouterLaunchError,
        >(own),
        read == StartupRead::Line(Some(own)) && valid is Err ==> ready == Err::<StartupReady, _>(
            RouterLaunchError::StartupProtocol,
        ),
        write is Written ==> written is Ok,
        write is TimedOut ==> written == Err::<(), _>(RouterLaunchError::StartupTimeout),
        write is Broken ==> written == Err::<(), _>(RouterLaunchError::StartupProtocol),
        accepted is Ok <==> ack.instance_id == own.instance_id,
        accepted is Err ==> accepted->Err_0 is StartupProtocol,
        valid is Ok <==> own.instance_id.value != 0 && url is Ok,
{
}

/// A router reports the endpoint that it was told to serve.
pub proof fn routers_serve_where_they_were_told(
    value: &str,
    options: StartOptions,
    url: Result<crate::net::UrlParts, RouterLaunchError>,
)
    requires
        call_ensures(validate_ready_control_url, (value, &options), url),
    ensures
        url matches Ok(parts) ==> parsed_url(value@) == Some(parts.model()) && parts.model().path
            == "/ws"@ && parts.model().query is None && parts.model().fragment is None,
        url matches Ok(parts) ==> (options.tls matches Some(tls) ==> value@ == tls.public_url@
            && parts.model().scheme == "wss"@),
        url matches Ok(parts) ==> (options.tls is None ==> parts.model().scheme == "ws"@ && (
        parts.model().host matches Some(HostModel::Ipv4(ip)) && ip.a == 127) && (
        options.bind.port != 0 ==> parts.model().known_port == Some(options.bind.port))),
        url is Err ==> url->Err_0 is StartupProtocol,
{
}

/// A line of a startup is no longer than a payload of four kibibytes and its line feed, and what
/// is behind the line feed is no second line.
pub proof fn startup_lines_are_short(
    payload: Vec<u8>,
    line: Result<Vec<u8>, RouterLaunchError>,
    frame: &mut StartupFrame,
    chunk: &[u8],
    step: Result<FrameStep, RouterLaunchError>,
)
    requires
        call_ensures(frame_startup, (payload,), line),
        call_ensures(StartupFrame::read, (frame, chunk), step),
    ensures
        line is Ok <==> payload@.len() <= 4_096,
        line matches Ok(bytes) ==> bytes@.len() == payload@.len() + 1 && bytes@.last() == 10
            && bytes@.drop_last() == payload@,
        line is Err ==> line->Err_0 is StartupProtocol,
        chunk@.len() == 0 && old(frame).bytes@.len() == 0 ==> step is Err,
        chunk@.len() == 0 && old(frame).bytes@.len() > 0 ==> (step matches Ok(
            FrameStep::Done(whole),
        ) && whole@ == old(frame).bytes@),
        step == Ok::<_, RouterLaunchError>(FrameStep::More) ==> final(frame).bytes@ == old(frame).bytes@ + chunk@ && final(frame).bytes@.len() <= 4_096 && chunk@.len() > 0,
        step is Err ==> step->Err_0 is StartupProtocol,
{
    let _ = line->Ok_0@.drop_last();
    assert(payload@.push(10u8).drop_last() =~= payload@);
}

/// A record is kept in a private directory, by names of its own, and is believed where it is
/// short and in order; it is removed only for its own instance.
pub proof fn records_are_kept_in_private(
    data_dir: String,
    facts: Option<FileFacts>,
    uid: u32,
    store: Result<RuntimeStore, RouterLaunchError>,
    own: RuntimeStore,
    path: String,
    lock: String,
    id: Uuid,
    temporary: String,
)
    requires
        call_ensures(RuntimeStore::new, (data_dir, facts, uid), store),
        call_ensures(RuntimeStore::runtime_path, (&own,), path),
        call_ensures(RuntimeStore::lock_path, (&own,), lock),
        call_ensures(RuntimeStore::temporary_path, (&own, id), temporary),
    ensures
        store is Ok <==> absolute(data_dir@) && (facts matches Some(known) && !known.is_symlink
            && known.is_dir && known.uid == uid && known.mode & 0o077 == 0),
        store is Err ==> store->Err_0 is Permissions,
        store is Ok ==> store->Ok_0.directory() == data_dir@,
        path@ == joined(own.directory(), "router-runtime.json"@),
        lock@ == joined(own.directory(), "launcher.lock"@),
        temporary@ == joined(
            own.directory(),
            ".asr-runtime-"@ + hyphenated_text(id.value) + ".tmp"@,
        ),
{
}

/// Which records may be acted upon.
pub proof fn records_are_acted_upon_in_order(
    record: RuntimeRecord,
    verdict: Result<(), RouterLaunchError>,
    bytes: &[u8],
    read: Result<RuntimeRecord, RouterLaunchError>,
    missing: Result<RuntimeRecord, RouterLaunchError>,
    payload: Result<(), RouterLaunchError>,
    instance: Uuid,
    removed: bool,
    nothing: bool,
)
    requires
        call_ensures(RuntimeRecord::validate, (&record,), verdict),
        call_ensures(accept_record, (bytes, Some(record)), read),
        call_ensures(accept_record, (bytes, None), missing),
        call_ensures(check_record_payload, (&record, bytes), payload),
        call_ensures(may_remove, (Some(&record), instance), removed),
        call_ensures(may_remove, (None, instance), nothing),
    ensures
        verdict is Ok ==> record.instance_id.value != 0 && (record.owned_serve is Some
            <==> record.share_mode is Tailscale),
        verdict is Ok ==> (record.owned_serve matches Some(serve) ==> serve.instance_id
            == record.instance_id && serve.port != 0 && serve.target@ == "tcp://127.0.0.1:"@
            + decimal_text(serve.port as nat)),
        verdict is Ok ==> (parsed_url(record.control_url@) matches Some(url) && (url.scheme
            == "ws"@ || url.scheme == "wss"@) && url.path == "/ws"@ && url.host is Some),
        verdict is Ok && record.advertised_url is Some ==> (parsed_url(
            record.advertised_url->0@,
        ) matches Some(url) && (url.scheme == "ws"@ || url.scheme == "wss"@) && url.path == "/ws"@
            && url.host is Some),
        verdict is Err ==> verdict->Err_0 is InvalidRuntimeRecord,
        bytes@.len() > 65_536 ==> read == Err::<RuntimeRecord, _>(
            RouterLaunchError::RuntimeRecordTooLarge,
        ),
        bytes@.len() <= 65_536 && verdict is Ok ==> read == Ok::<_, RouterLaunchError>(record),
        bytes@.len() <= 65_536 && verdict is Err ==> read == Err::<RuntimeRecord, _>(
            RouterLaunchError::InvalidRuntimeRecord,
        ),
        bytes@.len() <= 65_536 ==> missing == Err::<RuntimeRecord, _>(
            RouterLaunchError::InvalidRuntimeRecord,
        ),
        payload is Ok <==> verdict is Ok && bytes@.len() <= 65_536,
        verdict is Ok && payload is Err ==> payload->Err_0 is RuntimeRecordTooLarge,
        removed <==> record.instance_id == instance,
        !nothing,
{
}

/// One launcher at a time: another one that holds the lock is waited for until the deadline.
pub proof fn one_launcher_at_a_time(
    attempt: LockAttempt,
    verdict: Result<(), RouterLaunchError>,
    now: u64,
    expires: u64,
    again: bool,
)
    requires
        call_ensures(check_lock, (attempt,), verdict),
        verdict is Err ==> call_ensures(retry_lock, (verdict->Err_0, now, expires), again),
    ensures
        verdict is Ok <==> attempt is Taken,
        attempt is Held ==> verdict->Err_0 is RouterBusy && (again <==> now < expires),
        attempt is Failed ==> verdict->Err_0 is Io && !again,
{
}

/// Which addresses are a tailnet's: the IPv4 ones of its range; one that cannot be read, or is
/// of another range, spoils the list.
pub proof fn tailnet_addresses_are_of_its_range(
    values: Vec<Option<IpAddress>>,
    addresses: Result<Vec<Ipv4>, RouterLaunchError>,
    i: int,
)
    requires
        call_ensures(parse_tailscale_addresses, (&values,), addresses),
        0 <= i < values@.len(),
    ensures
        values@[i] is None ==> addresses == Err::<Vec<Ipv4>, _>(RouterLaunchError::TailscaleStatus),
        (values@[i] matches Some(IpAddress::V4(ip)) && !ip.tailscale()) ==> addresses == Err::<
            Vec<Ipv4>,
            _,
        >(RouterLaunchError::TailscaleStatus),
        (values@[i] matches Some(IpAddress::V4(ip)) && addresses is Ok)
            ==> addresses->Ok_0@.contains(values@[i]->0->V4_0),
        addresses matches Ok(list) ==> forall|j: int|
            0 <= j < list@.len() ==> (#[trigger] list@[j]).tailscale() && values@.contains(
                Some(IpAddress::V4(list@[j])),
            ),
{
    lists_are_read_whole(values@, values@.len() as int);
}

proof fn lists_are_read_whole(values: Seq<Option<IpAddress>>, n: int)
    requires
        0 <= n <= values.len(),
    ensures
        tailnet_addresses(values, n) matches Some(list) ==> {
            &&& forall|i: int|
                0 <= i < n ==> ((#[trigger] values[i]) matches Some(own) && match own {
                    IpAddress::V4(ip) => ip.tailscale() && list.contains(ip),
                    IpAddress::V6(_) => true,
                })
            &&& forall|j: int|
                0 <= j < list.len() ==> (#[trigger] list[j]).tailscale() && values.contains(
                    Some(IpAddress::V4(list[j])),
                )
        },
    decreases n,
{
    if n > 0 {
        lists_are_read_whole(values, n - 1);
        if let Some(list) = tailnet_addresses(values, n) {
            let before = tailnet_addresses(values, n - 1)->0;
            assert forall|i: int| 0 <= i < n implies ((#[trigger] values[i]) matches Some(own)
                && match own {
                IpAddress::V4(ip) => ip.tailscale() && list.contains(ip),
                IpAddress::V6(_) => true,
            }) by {
                if i < n - 1 {
                    if let Some(IpAddress::V4(ip)) = values[i] {
                        let k = before.index_of(ip);
                        assert(list[k] == ip);
                    }
                } else if let Some(IpAddress::V4(ip)) = values[i] {
                    assert(list[list.len() - 1] == ip);
                }
            }
            assert forall|j: int| 0 <= j < list.len() implies (#[trigger] list[j]).tailscale()
                && values.contains(Some(IpAddress::V4(list[j]))) by {
                if j < before.len() {
                    assert(list[j] == before[j]);
                } else {
                    assert(values[n - 1] == Some(IpAddress::V4(list[j])));
                }
            }
        }
    }
}

/// A snapshot is made of a tailnet that runs, with an address of the machine itself.
pub proof fn snapshots_are_of_running_tailnets(
    status: TailscaleStatus,
    serve: &[u8],
    snapshot: Result<TailscaleSnapshot, RouterLaunchError>,
    own: Result<Vec<Ipv4>, RouterLaunchError>,
    unread: Result<TailscaleSnapshot, RouterLaunchError>,
)
    requires
        call_ensures(parse_tailscale_snapshot, (Some(status), serve), snapshot),
        call_ensures(parse_tailscale_snapshot, (None, serve), unread),
        call_ensures(parse_tailscale_addresses, (&status.self_node.addresses,), own),
    ensures
        unread == Err::<TailscaleSnapshot, _>(RouterLaunchError::TailscaleStatus),
        own is Err ==> snapshot == Err::<TailscaleSnapshot, _>(RouterLaunchError::TailscaleStatus),
        snapshot is Ok ==> status.backend_state@ == "Running"@ && own is Ok
            && snapshot->Ok_0.self_ipv4@ == own->Ok_0@ && own->Ok_0@.len() > 0
            && snapshot->Ok_0.backend_running,
        own is Ok && own->Ok_0@.len() == 0 ==> snapshot is Err,
        snapshot is Err && snapshot->Err_0 is TailscaleUnavailable ==> own is Ok,
{
}

/// What Tailscale is asked for: a port is forwarded and given up by its own number.
pub proof fn tailscale_is_asked_by_port(
    serve: OwnedServe,
    status: Vec<String>,
    listed: Vec<String>,
    enabled: Vec<String>,
    disabled: Vec<String>,
)
    requires
        call_ensures(status_arguments, (), status),
        call_ensures(serve_status_arguments, (), listed),
        call_ensures(enable_arguments, (&serve,), enabled),
        call_ensures(disable_arguments, (&serve,), disabled),
    ensures
        texts(status@) == seq!["status"@, "--json"@],
        texts(listed@) == seq!["serve"@, "status"@, "--json"@],
        texts(enabled@) == seq![
            "serve"@,
            "--bg"@,
            "--tcp="@ + decimal_text(serve.port as nat),
            serve.target@,
        ],
        texts(disabled@) == seq!["serve"@, "--tcp="@ + decimal_text(serve.port as nat), "off"@],
{
}

/// How a router is shared follows what was asked for, where it listens and whether it has TLS.
pub proof fn routers_are_shared_as_they_listen(
    bind: BindAddress,
    tls: Option<&TlsSettings>,
    snapshot: Option<&TailscaleSnapshot>,
    local: Result<RuntimeShareMode, RouterLaunchError>,
    lan: Result<RuntimeShareMode, RouterLaunchError>,
    tailnet: Result<RuntimeShareMode, RouterLaunchError>,
    auto: Result<RuntimeShareMode, RouterLaunchError>,
    works: Result<(), RouterLaunchError>,
)
    requires
        call_ensures(resolve_share_mode, (ShareRequest::Local, bind, tls, snapshot), local),
        call_ensures(resolve_share_mode, (ShareRequest::Lan, bind, tls, snapshot), lan),
        call_ensures(resolve_share_mode, (ShareRequest::Tailscale, bind, tls, snapshot), tailnet),
        call_ensures(resolve_share_mode, (ShareRequest::Auto, bind, tls, snapshot), auto),
        snapshot matches Some(s) ==> call_ensures(TailscaleSnapshot::validate, (s,), works),
    ensures
        bind.ip.loopback() ==> local == Ok::<_, RouterLaunchError>(RuntimeShareMode::Local),
        !bind.ip.loopback() ==> local == Err::<RuntimeShareMode, _>(
            RouterLaunchError::TlsRequired,
        ),
        !bind.ip.loopback() && tls is Some ==> lan == Ok::<_, RouterLaunchError>(
            RuntimeShareMode::Lan,
        ),
        bind.ip.loopback() || tls is None ==> lan == Err::<RuntimeShareMode, _>(
            RouterLaunchError::TlsRequired,
        ),
        tls is Some || !bind.ip.loopback() ==> tailnet == Err::<RuntimeShareMode, _>(
            RouterLaunchError::TlsInvalid,
        ),
        tls is None && bind.ip.loopback() && snapshot is Some && works is Ok ==> tailnet == Ok::<
            _,
            RouterLaunchError,
        >(RuntimeShareMode::Tailscale) && auto == tailnet,
        tls is None && bind.ip.loopback() && (snapshot is None || works is Err) ==> tailnet
            == Err::<RuntimeShareMode, _>(RouterLaunchError::TailscaleUnavailable) && auto == Ok::<
            _,
            RouterLaunchError,
        >(RuntimeShareMode::Local),
        tls is Some && bind.ip.loopback() ==> auto == local,
        !bind.ip.loopback() ==> auto == lan,
        works is Err && snapshot is Some ==> works->Err_0 is TailscaleUnavailable,
        snapshot is Some && works is Ok ==> snapshot->0.backend_running
            && snapshot->0.self_ipv4@.len() > 0,
{
}

/// Which files are private: those that nobody else can reach; data, besides, is not run.
pub proof fn private_files_are_the_owners(
    path: &str,
    facts: FileFacts,
    uid: u32,
    directory: Result<(), RouterLaunchError>,
    unknown: Result<(), RouterLaunchError>,
    file: Result<(), RouterLaunchError>,
    data: Result<(), RouterLaunchError>,
)
    requires
        call_ensures(validate_private_directory, (path, Some(facts), uid), directory),
        call_ensures(validate_private_directory, (path, None, uid), unknown),
        call_ensures(validate_private_file_metadata, (facts, uid), file),
        call_ensures(validate_owned_file_0600, (facts, uid), data),
    ensures
        directory is Ok <==> absolute(path@) && !facts.is_symlink && facts.is_dir && facts.uid
            == uid && facts.mode & 0o077 == 0,
        unknown is Err,
        file is Ok <==> facts.is_file && facts.uid == uid && facts.mode & 0o077 == 0,
        data is Ok <==> file is Ok && facts.mode & 0o777 == 0o600,
        directory is Err ==> directory->Err_0 is Permissions,
        file is Err ==> file->Err_0 is Permissions,
        data is Err ==> data->Err_0 is Permissions,
{
}

/// The last of two values of a variable is the one that counts.
pub proof fn later_variables_count(
    environment: Vec<EnvEntry>,
    key: &str,
    value: Option<String>,
    i: int,
)
    requires
        call_ensures(env_lookup, (&environment, key), value),
        0 <= i < environment@.len(),
        environment@[i].key@ == key@,
        forall|j: int| i < j < environment@.len() ==> (#[trigger] environment@[j]).key@ != key@,
    ensures
        value matches Some(text) && text@ == environment@[i].value@,
{
    the_last_is_found(environment@, environment@.len() as int, key@, i);
}

proof fn the_last_is_found(environment: Seq<EnvEntry>, n: int, key: Seq<char>, i: int)
    requires
        0 <= i < n <= environment.len(),
        environment[i].key@ == key,
        forall|j: int| i < j < n ==> (#[trigger] environment[j]).key@ != key,
    ensures
        crate::process::env_value(environment, n, key) == Some(environment[i].value@),
    decreases n,
{
    if n - 1 > i {
        assert(environment[n - 1].key@ != key);
        the_last_is_found(environment, n - 1, key, i);
    }
}

/// TLS is configured by three variables, all or none of them, and a router that is reached from
/// elsewhere has them.
pub proof fn tls_is_configured_whole(
    bind: BindAddress,
    environment: Vec<EnvEntry>,
    files: TlsFileFacts,
    settings: Result<Option<TlsSettings>, RouterLaunchError>,
    certificate: Option<String>,
    key: Option<String>,
    url: Option<String>,
    ca: Option<String>,
    spelled: &str,
    public: Result<(), RouterLaunchError>,
)
    requires
        call_ensures(tls_settings_from_environment, (bind, &environment, files), settings),
        call_ensures(env_lookup, (&environment, "ROUTER_TLS_CERT"), certificate),
        call_ensures(env_lookup, (&environment, "ROUTER_TLS_KEY"), key),
        call_ensures(env_lookup, (&environment, "ROUTER_PUBLIC_URL"), url),
        call_ensures(env_lookup, (&environment, "ASR_CA_FILE"), ca),
        url matches Some(text) ==> spelled@ == text@,
        call_ensures(validate_public_router_url, (spelled, bind.port), public),
    ensures
        settings matches Ok(Some(tls)) ==> opt_text(certificate) == Some(tls.certificate_file@)
            && opt_text(key) == Some(tls.private_key_file@) && opt_text(url) == Some(
            tls.public_url@,
        ) && opt_text(ca) == opt_text(tls.ca_file),
        certificate is None && key is None && url is None && bind.ip.loopback() ==> settings
            == Ok::<Option<TlsSettings>, RouterLaunchError>(None),
        certificate is None && key is None && url is None && !bind.ip.loopback() ==> settings
            == Err::<Option<TlsSettings>, _>(RouterLaunchError::TlsRequired),
        certificate is Some && (key is None || url is None) ==> settings == Err::<
            Option<TlsSettings>,
            _,
        >(RouterLaunchError::TlsInvalid),
        certificate is None && (key is Some || url is Some) ==> settings == Err::<
            Option<TlsSettings>,
            _,
        >(RouterLaunchError::TlsInvalid),
        certificate is Some && key is Some && url is Some ==> (settings is Ok <==> public is Ok
            && files.certificate_is_file == Some(true) && (files.private_key matches Some(own)
            && own.is_file && own.uid == files.uid && own.mode & 0o077 == 0)),
        certificate is Some && key is Some && url is Some && settings is Err
            ==> settings->Err_0 is TlsInvalid,
        public is Ok ==> (parsed_url(spelled@) matches Some(parts) && parts.scheme == "wss"@
            && parts.path == "/ws"@ && parts.known_port == Some(bind.port)),
        public is Err ==> public->Err_0 is TlsInvalid,
{
}

/// A router's URL on the tailnet is at an address of a machine that is online, in the clear, at
/// the router's path and with a port.
pub proof fn tailnet_routers_are_online(
    value: &str,
    snapshot: TailscaleSnapshot,
    verdict: Result<(), RouterLaunchError>,
    works: Result<(), RouterLaunchError>,
)
    requires
        call_ensures(validate_tailscale_router_url, (value, &snapshot), verdict),
        call_ensures(TailscaleSnapshot::validate, (&snapshot,), works),
    ensures
        works is Err ==> verdict == Err::<(), _>(RouterLaunchError::TailscaleUnavailable),
        works is Ok && parsed_url(value@) is None ==> verdict == Err::<(), _>(
            RouterLaunchError::TailscaleStatus,
        ),
        verdict is Ok ==> (parsed_url(value@) matches Some(url) && url.scheme == "ws"@ && url.path
            == "/ws"@ && url.query is None && url.fragment is None && url.port is Some && (
        url.host matches Some(HostModel::Ipv4(ip)) && (snapshot.self_ipv4@.contains(ip)
            || snapshot.online_peer_ipv4@.contains(ip)))),
        works is Ok && (parsed_url(value@) matches Some(url) && url.scheme == "ws"@ && url.path
            == "/ws"@ && url.query is None && url.fragment is None && url.port is Some && (
        url.host matches Some(HostModel::Ipv4(ip)) && snapshot.self_ipv4@.contains(ip)))
            ==> verdict is Ok,
{
    let all = snapshot.self_ipv4@ + snapshot.online_peer_ipv4@;
    assert forall|ip: Ipv4| all.contains(ip) <==> snapshot.self_ipv4@.contains(ip)
        || snapshot.online_peer_ipv4@.contains(ip) by {
        if snapshot.self_ipv4@.contains(ip) {
            let k = snapshot.self_ipv4@.index_of(ip);
            assert(all[k] == ip);
        }
        if snapshot.online_peer_ipv4@.contains(ip) {
            let k = snapshot.online_peer_ipv4@.index_of(ip) + snapshot.self_ipv4@.len();
            assert(all[k] == ip);
        }
        if all.contains(ip) {
            let k = all.index_of(ip);
            if k < snapshot.self_ipv4@.len() {
                assert(snapshot.self_ipv4@[k] == ip);
            } else {
                assert(snapshot.online_peer_ipv4@[k - snapshot.self_ipv4@.len()] == ip);
            }
        }
    }
}

/// The registration of a channel runs the given program where it was asked for, waits for it, and
/// names the executable; without an absolute one there is none.
pub proof fn channels_are_registered_by_their_executable(
    program: String,
    cwd: String,
    executable: String,
    plan: Result<LaunchPlan, LaunchError>,
)
    requires
        call_ensures(LaunchPlan::setup_claude, (program, cwd, executable), plan),
    ensures
        plan is Ok <==> executable@.len() > 0 && executable@[0] == '/',
        plan is Err ==> plan->Err_0 is InvalidPlan,
        plan matches Ok(own) ==> own.program@ == program@ && own.caller_cwd@ == cwd@ && own.mode
            is Wait && own.environment@.len() == 0 && own.arguments@.len() == 11,
        plan matches Ok(own) ==> own.arguments@[0]@ == "mcp"@ && own.arguments@[1]@ == "add"@
            && own.arguments@[2]@ == "--transport"@ && own.arguments@[3]@ == "stdio"@
            && own.arguments@[4]@ == "--scope"@ && own.arguments@[5]@ == "local"@
            && own.arguments@[6]@ == "agent-session-router-channel"@ && own.arguments@[7]@ == "--"@
            && own.arguments@[8]@ == executable@ && own.arguments@[9]@ == "mcp"@,
{
    reveal_strlit("/");
    assert("/"@.len() == 1 && "/"@[0] == '/');
    if executable@.len() > 0 && executable@[0] == '/' {
        assert(absolute(executable@));
    }
    if absolute(executable@) {
        assert(executable@[0] == "/"@[0]);
    }
    if plan is Ok {
        let own = plan->Ok_0;
        assert(texts(own.arguments@).len() == 11);
        assert(forall|i: int|
            0 <= i < own.arguments@.len() ==> texts(own.arguments@)[i] == (
            #[trigger] own.arguments@[i])@);
    }
}

/// Every port that Tailscale's answer lists is known with where it is forwarded to, and no other.
pub proof fn listed_ports_are_forwarded(
    root: Json,
    forwards: Result<BTreeMap<u16, String>, RouterLaunchError>,
    i: int,
)
    requires
        call_ensures(read_serve_status, (&root,), forwards),
        root.model() is Object,
        root.model().get("TCP"@) is Some,
    ensures
        !(root.model().get("TCP"@)->0 is Object) ==> forwards is Err,
        forwards is Err ==> forwards->Err_0 is TailscaleStatus,
        (root.model().get("TCP"@)->0 matches JsonModel::Object(ports) && 0 <= i < ports.len() && (
        u16_of(ports[i].0) is None || u16_of(ports[i].0) == Some(0u16) || !(ports[i].1 is Object)))
            ==> forwards is Err,
        (root.model().get("TCP"@)->0 matches JsonModel::Object(ports) && 0 <= i < ports.len()
            && forwards is Ok) ==> ({
            let ports = root.model().get("TCP"@)->0->Object_0;
            let port = u16_of(ports[i].0)->0;
            &&& forwards->Ok_0@.dom().contains(port)
            &&& ports[i].1.text_at("TCPForward"@) matches Some(target) ==> forwards->Ok_0@[port]@
                == "tcp://"@ + target
            &&& ports[i].1.text_at("TCPForward"@) is None ==> forwards->Ok_0@[port]@.len() == 0
        }),
        (root.model().get("TCP"@)->0 matches JsonModel::Object(ports) && ports.len() == 0) ==> (
        forwards matches Ok(map) && map@.dom() == Set::<u16>::empty()),
{
    if root.model().get("TCP"@)->0 is Object {
        let ports = root.model().get("TCP"@)->0->Object_0;
        if 0 <= i < ports.len() {
            ports_are_kept(ports, ports.len() as int, i);
        }
        if forwards is Ok {
            let map = forwards->Ok_0@;
            assert(forward_texts(map).dom() =~= map.dom());
        }
        if ports.len() == 0 {
            assert(forwards is Ok);
            assert(forward_texts(forwards->Ok_0@).dom() =~= Set::<u16>::empty());
        }
    }
}

proof fn ports_are_kept(ports: Seq<(Seq<char>, JsonModel)>, n: int, i: int)
    requires
        0 <= i < n <= ports.len(),
    ensures
        u16_of(ports[i].0) is None || u16_of(ports[i].0) == Some(0u16) || !(ports[i].1 is Object)
            ==> forwards_among(ports, n) is None,
        forwards_among(ports, n) matches Some(map) ==> map.dom().contains(u16_of(ports[i].0)->0)
            && map[u16_of(ports[i].0)->0] == (match ports[i].1.text_at("TCPForward"@) {
            Some(target) => "tcp://"@ + target,
            None => Seq::empty(),
        }),
    decreases n,
{
    if i < n - 1 {
        ports_are_kept(ports, n - 1, i);
    }
}

/// A router's port is forwarded where the machine's forwards lead it to the router's target; the
/// machine's addresses are known before its peers'.
pub proof fn forwards_lead_to_the_router(
    snapshot: TailscaleSnapshot,
    serve: OwnedServe,
    yes: bool,
    addresses: Vec<Ipv4>,
    i: int,
)
    requires
        call_ensures(TailscaleSnapshot::forwards, (&snapshot, &serve), yes),
        call_ensures(TailscaleSnapshot::all_online_ipv4, (&snapshot,), addresses),
        0 <= i < addresses@.len(),
    ensures
        yes <==> snapshot.tcp_forwards@.dom().contains(serve.port)
            && snapshot.tcp_forwards@[serve.port]@ == serve.target@,
        addresses@.len() == snapshot.self_ipv4@.len() + snapshot.online_peer_ipv4@.len(),
        i < snapshot.self_ipv4@.len() ==> addresses@[i] == snapshot.self_ipv4@[i],
        i >= snapshot.self_ipv4@.len() ==> addresses@[i] == snapshot.online_peer_ipv4@[i
            - snapshot.self_ipv4@.len()],
{
}

/// A router is healthy where it says so as the service itself, in its protocol, under its own
/// instance.
pub proof fn healthy_routers_say_who_they_are(
    marker: HealthMarker,
    instance: Uuid,
    verdict: Result<(), RouterLaunchError>,
)
    requires
        call_ensures(HealthMarker::verify, (&marker, instance), verdict),
    ensures
        verdict is Ok <==> marker.service@ == "agent-session-router"@ && marker.status@ == "ok"@
            && marker.instance_id == instance && marker.protocol_version
            == crate::protocol::PROTOCOL_VERSION,
        verdict is Err ==> verdict->Err_0 == RouterLaunchError::Health(ProbeFailure::MarkerMismatch),
{
}

/// A plan takes one more variable behind those that it has, and another way of running, and keeps
/// the rest; a tailnet port leads to the same port of the machine itself.
pub proof fn plans_are_extended(
    plan: LaunchPlan,
    key: String,
    value: String,
    longer: LaunchPlan,
    mode: LaunchMode,
    other: LaunchPlan,
    instance: Uuid,
    port: u16,
    serve: OwnedServe,
)
    requires
        call_ensures(LaunchPlan::with_environment, (plan, key, value), longer),
        call_ensures(LaunchPlan::with_mode, (plan, mode), other),
        call_ensures(OwnedServe::loopback, (instance, port), serve),
    ensures
        longer.environment@.len() == plan.environment@.len() + 1,
        longer.environment@.last().key == key && longer.environment@.last().value == value,
        longer.environment@.drop_last() == plan.environment@,
        longer.program == plan.program && longer.arguments == plan.arguments && longer.mode
            == plan.mode && longer.caller_cwd == plan.caller_cwd,
        other.mode == mode && other.program == plan.program && other.arguments == plan.arguments
            && other.environment == plan.environment && other.caller_cwd == plan.caller_cwd,
        serve.instance_id == instance && serve.port == port && serve.target@
            == "tcp://127.0.0.1:"@ + decimal_text(port as nat),
{
    assert(longer.environment@.drop_last() =~= plan.environment@);
}

/// A line of a startup ends at the first line feed, with nothing but white space behind it, and a
/// chunk without one is kept whole.
pub proof fn startup_lines_end_at_their_line_feed(
    frame: &mut StartupFrame,
    chunk: &[u8],
    step: Result<FrameStep, RouterLaunchError>,
    i: int,
)
    requires
        call_ensures(StartupFrame::read, (frame, chunk), step),
        0 <= i < chunk@.len(),
    ensures
        chunk@[i] == 10 && (forall|j: int| 0 <= j < i ==> #[trigger] chunk@[j] != 10) ==> {
            &&& step is Ok <==> old(frame).bytes@.len() + i <= 4_096 && (forall|j: int|
                i < j < chunk@.len() ==> #[trigger] chunk@[j] == 32 || chunk@[j] == 9 || chunk@[j]
                    == 10 || chunk@[j] == 12 || chunk@[j] == 13)
            &&& step is Ok ==> (step->Ok_0 matches FrameStep::Done(whole) && whole@
                == old(frame).bytes@ + chunk@.take(i))
        },
        (forall|j: int| 0 <= j < chunk@.len() ==> #[trigger] chunk@[j] != 10) ==> (step is Ok
            <==> old(frame).bytes@.len() + chunk@.len() <= 4_096),
{
    if chunk@[i] == 10 && (forall|j: int| 0 <= j < i ==> #[trigger] chunk@[j] != 10) {
        let at = line_feed(chunk@);
        assert(at is Some);
        assert(at->0 == i);
    }
}

} // verus!
