//! Launching a router: plans, sharing, starting and stopping.

use std::collections::BTreeMap;

use asr::ids::Uuid;
use asr::json::{field, object, Json};
use asr::net::{IpAddress, Ipv4};
use asr::process::child::{
    accept_marker, bounded_output, check_response, end_interrupted, end_unready, end_unwanted,
    end_next, health_url, launch_variables, ChildSignal, EndEvent, EndPhase, NativeChildConfig,
    ProbeResponse, ReqwestHealthProbe, SystemTailscale, WaitEvent, WaitPhase,
};
use asr::process::cleanup::{begin_cleanup, continue_cleanup, CleanupPhase, CleanupStep, LauncherEvent};
use asr::process::launch::{
    bootstrap_assets_directory, map_exit_status, LaunchError, LaunchMode, LaunchPlan,
};
use asr::process::start::{StartAction, StartMachine, StartReturn};
use asr::process::startup::{
    accept_ready, check_startup_write, frame_startup, validate_ready_control_url, FrameStep,
    StartOptions, StartupAck, StartupFrame, StartupRead, StartupReady, StartupWrite,
};
use asr::process::stop::{StopAction, StopMachine, StopReturn};
use asr::process::store::{
    accept_record, check_lock, check_record_payload, may_remove, retry_lock, LockAttempt,
    RuntimeStore,
};
use asr::process::tailscale::{
    disable_arguments, enable_arguments, parse_serve_status, parse_tailscale_addresses,
    parse_tailscale_snapshot, read_serve_status, serve_status_arguments, status_arguments,
    TailscaleNode, TailscaleStatus,
};
use asr::process::{
    env_lookup, resolve_share_mode, tls_settings_from_environment, validate_owned_file_0600,
    validate_private_directory, validate_private_file_metadata, validate_public_router_url,
    validate_router_url, validate_tailscale_router_url, BindAddress, EnvEntry, FileFacts,
    HealthMarker, OwnedServe, ProbeFailure, RouterLaunchError, RuntimeRecord, RuntimeShareMode,
    ShareRequest, TailscaleSnapshot, TlsFileFacts, TlsSettings,
};

const ID: Uuid = Uuid { value: 0x1111_1111_1111_4111_8111_1111_1111_1111 };
const OTHER: Uuid = Uuid { value: 0x2222_2222_2222_4222_8222_2222_2222_2222 };

fn ip(a: u8, b: u8, c: u8, d: u8) -> Ipv4 {
    Ipv4 { a, b, c, d }
}

fn loopback(port: u16) -> BindAddress {
    BindAddress { ip: IpAddress::V4(ip(127, 0, 0, 1)), port }
}

fn local_record(id: Uuid) -> RuntimeRecord {
    RuntimeRecord {
        instance_id: id,
        control_url: "ws://127.0.0.1:8787/ws".to_owned(),
        share_mode: RuntimeShareMode::Local,
        advertised_url: None,
        owned_serve: None,
    }
}

fn tailnet_record(id: Uuid) -> RuntimeRecord {
    RuntimeRecord {
        instance_id: id,
        control_url: "ws://127.0.0.1:8787/ws".to_owned(),
        share_mode: RuntimeShareMode::Tailscale,
        advertised_url: None,
        owned_serve: Some(OwnedServe::loopback(id, 8787)),
    }
}

fn snapshot(forwards: &[(u16, &str)]) -> TailscaleSnapshot {
    let mut tcp_forwards = BTreeMap::new();
    for (port, target) in forwards {
        tcp_forwards.insert(*port, (*target).to_owned());
    }
    TailscaleSnapshot {
        backend_running: true,
        self_ipv4: vec![ip(100, 64, 0, 1)],
        online_peer_ipv4: vec![ip(100, 64, 0, 2)],
        tcp_forwards,
    }
}

fn marker(id: Uuid) -> HealthMarker {
    HealthMarker {
        service: "agent-session-router".to_owned(),
        protocol_version: 2,
        status: "ok".to_owned(),
        instance_id: id,
    }
}

#[test]
fn plans_are_validated() {
    let plan = LaunchPlan::passthrough("codex".to_owned(), "/work".to_owned(), vec!["-x".to_owned()]);
    assert!(plan.validate().is_ok());
    assert_eq!(plan.arguments, vec!["-x"]);
    let empty = LaunchPlan::passthrough(String::new(), "/work".to_owned(), Vec::new());
    assert_eq!(empty.validate().unwrap_err().message(), "process program must not be empty");
    let relative = LaunchPlan::passthrough("codex".to_owned(), "work".to_owned(), Vec::new());
    assert_eq!(relative.validate().unwrap_err().message(), "caller cwd must be absolute");
    let waiting = LaunchPlan::stock_codex("codex".to_owned(), "/work".to_owned(), Vec::new())
        .with_environment("KEY".to_owned(), "value".to_owned())
        .with_mode(LaunchMode::Wait);
    assert!(matches!(waiting.mode, LaunchMode::Wait));
    assert_eq!(waiting.environment.len(), 1);
}

#[test]
fn channels_are_set_up_for_an_absolute_program() {
    let plan = LaunchPlan::setup_claude("host".to_owned(), "/w".to_owned(), "/bin/asr".to_owned()).unwrap();
    assert_eq!(plan.arguments[8], "/bin/asr");
    assert_eq!(plan.arguments.len(), 11);
    assert!(matches!(
        LaunchPlan::setup_claude("host".to_owned(), "/w".to_owned(), "asr".to_owned()),
        Err(LaunchError::InvalidPlan(_))
    ));
}

#[test]
fn exit_statuses_are_mapped() {
    assert_eq!(map_exit_status(Some(3), None), 3);
    assert_eq!(map_exit_status(Some(256), None), 1);
    assert_eq!(map_exit_status(None, Some(2)), 130);
    assert_eq!(map_exit_status(None, Some(9)), 1);
    assert_eq!(map_exit_status(None, None), 1);
}

#[test]
fn children_are_ended_before_they_are_let_go() {
    let run = |ending, events: &[EndEvent]| {
        let mut phases = Vec::new();
        let mut phase = EndPhase::Look;
        for event in events {
            phase = end_next(phase, ending, *event);
            phases.push(phase);
        }
        phases
    };
    let unwanted = end_unwanted(true);
    assert_eq!(run(unwanted, &[EndEvent::Exited]), vec![EndPhase::Ended]);
    assert_eq!(run(unwanted, &[EndEvent::NoChild]), vec![EndPhase::Ended]);
    assert_eq!(run(unwanted, &[EndEvent::Failed]), vec![EndPhase::Failed]);
    let limit = unwanted.deadline_ms;
    assert_eq!(
        run(unwanted, &[EndEvent::Running, EndEvent::Signalled, EndEvent::Exited]),
        vec![
            EndPhase::Signal(ChildSignal::Terminate),
            EndPhase::TimedWait(limit),
            EndPhase::Ended
        ]
    );
    let late = [
        EndEvent::Running,
        EndEvent::Signalled,
        EndEvent::TimedOut,
        EndEvent::Signalled,
        EndEvent::Exited,
    ];
    let phases = run(unwanted, &late);
    assert_eq!(phases[2..], [EndPhase::Kill, EndPhase::Reap, EndPhase::Ended]);
    assert_eq!(run(unwanted, &late[..4]).last(), Some(&EndPhase::Reap));
}

#[test]
fn waits_give_a_code_once() {
    let exited = |code, signal| {
        let wait = WaitPhase::begin(true).step(WaitEvent::Exited { code, signal });
        assert!(wait.releases());
        wait.result()
    };
    assert_eq!(exited(Some(3), None), Some(Ok(3)));
    assert_eq!(exited(None, Some(15)), Some(Ok(1)));
    assert_eq!(
        WaitPhase::begin(false).result(),
        Some(Err(RouterLaunchError::ChildTerminated))
    );
    assert_eq!(
        WaitPhase::begin(true).step(WaitEvent::Failed).result(),
        Some(Err(RouterLaunchError::Io))
    );
    let mut wait = WaitPhase::begin(true).step(WaitEvent::Interrupted);
    assert_eq!(wait.result(), None);
    wait = wait.step(WaitEvent::Ending(EndEvent::Running));
    assert_eq!(wait, WaitPhase::Ending(EndPhase::Signal(ChildSignal::Interrupt)));
    wait = wait.step(WaitEvent::Ending(EndEvent::Signalled));
    assert!(!wait.releases());
    assert_eq!(
        wait.step(WaitEvent::Ending(EndEvent::Failed)).result(),
        Some(Err(RouterLaunchError::Io))
    );
    wait = wait.step(WaitEvent::Ending(EndEvent::Exited));
    assert_eq!(wait.result(), Some(Ok(130)));
    assert!(wait.releases());
}

#[test]
fn plans_and_settings_are_compared_by_path() {
    let plan = |cwd: &str| LaunchPlan::passthrough("codex".to_owned(), cwd.to_owned(), Vec::new());
    assert!(plan("/work//here") == plan("/work/./here"));
    assert!(plan("/work") != plan("/other"));
    let variable = |value: &str| {
        plan("/work").with_environment("KEY".to_owned(), value.to_owned())
    };
    assert!(variable("a") == variable("a"));
    assert!(variable("a") != variable("b"));
    let tls = |path: &str| TlsSettings {
        certificate_file: path.to_owned(),
        private_key_file: "/key".to_owned(),
        public_url: "wss://a.example/ws".to_owned(),
        ca_file: None,
    };
    assert!(tls("/a//cert") == tls("/a/cert"));
    assert!(tls("/a") != tls("/b"));
}

#[test]
fn assets_lie_beside_the_data() {
    assert_eq!(bootstrap_assets_directory("/data", "/cwd", None), "/data/bootstrap");
    assert_eq!(bootstrap_assets_directory("/data", "/cwd", Some(String::new())), "/data/bootstrap");
    assert_eq!(bootstrap_assets_directory("/data", "/cwd", Some("x".to_owned())), "/cwd/x");
    assert_eq!(bootstrap_assets_directory("/data", "/cwd", Some("/y".to_owned())), "/y");
}

#[test]
fn launch_errors_have_their_texts() {
    assert_eq!(RouterLaunchError::RouterBusy.as_str(), "router_busy");
    assert_eq!(RouterLaunchError::Health(ProbeFailure::Tls).as_str(), "health_Tls");
    assert_eq!(RouterLaunchError::Profile.as_str(), "profile_update_failed");
}

#[test]
fn router_urls_are_validated() {
    assert!(validate_router_url("ws://127.0.0.1:8787/ws").is_ok());
    assert!(validate_router_url("http://127.0.0.1:8787/ws").is_err());
    assert!(validate_router_url("ws://127.0.0.1:8787/other").is_err());
    let tailnet = snapshot(&[]);
    assert!(validate_tailscale_router_url("ws://100.64.0.2:8787/ws", &tailnet).is_ok());
    assert!(validate_tailscale_router_url("ws://100.64.0.9:8787/ws", &tailnet).is_err());
    assert!(validate_public_router_url("wss://router.example:8443/ws", 8443).is_ok());
    assert!(validate_public_router_url("ws://router.example:8443/ws", 8443).is_err());
    assert!(validate_public_router_url("wss://router.example:8443/ws", 8444).is_err());
}

#[test]
fn records_are_validated() {
    assert!(local_record(ID).validate().is_ok());
    assert!(tailnet_record(ID).validate().is_ok());
    assert!(local_record(Uuid::nil()).validate().is_err());
    let mut unowned = tailnet_record(ID);
    unowned.owned_serve = None;
    assert!(unowned.validate().is_err());
    let mut foreign = tailnet_record(ID);
    foreign.owned_serve = Some(OwnedServe::loopback(OTHER, 8787));
    assert!(foreign.validate().is_err());
    assert_eq!(OwnedServe::loopback(ID, 8787).target, "tcp://127.0.0.1:8787");
    assert!(marker(ID).verify(ID).is_ok());
    assert!(marker(ID).verify(OTHER).is_err());
}

#[test]
fn sharing_needs_what_it_is_shared_with() {
    let tailnet = snapshot(&[]);
    assert_eq!(
        resolve_share_mode(ShareRequest::Local, loopback(0), None, None).unwrap(),
        RuntimeShareMode::Local
    );
    assert_eq!(
        resolve_share_mode(ShareRequest::Tailscale, loopback(0), None, Some(&tailnet)).unwrap(),
        RuntimeShareMode::Tailscale
    );
    assert!(resolve_share_mode(ShareRequest::Tailscale, loopback(0), None, None).is_err());
    let open = BindAddress { ip: IpAddress::V4(ip(0, 0, 0, 0)), port: 8443 };
    assert!(resolve_share_mode(ShareRequest::Lan, open, None, None).is_err());
    let tls = TlsSettings {
        certificate_file: "/c".to_owned(),
        private_key_file: "/k".to_owned(),
        public_url: "wss://router.example:8443/ws".to_owned(),
        ca_file: None,
    };
    assert_eq!(
        resolve_share_mode(ShareRequest::Lan, open, Some(&tls), None).unwrap(),
        RuntimeShareMode::Lan
    );
}

#[test]
fn private_files_are_private() {
    let file = FileFacts { is_symlink: false, is_dir: false, is_file: true, uid: 7, mode: 0o600 };
    assert!(validate_owned_file_0600(file, 7).is_ok());
    assert!(validate_owned_file_0600(file, 8).is_err());
    assert!(validate_owned_file_0600(FileFacts { mode: 0o640, ..file }, 7).is_err());
    assert!(validate_private_file_metadata(file, 7).is_ok());
    let dir = FileFacts { is_dir: true, is_file: false, mode: 0o700, ..file };
    assert!(validate_private_directory("/data", Some(dir), 7).is_ok());
    assert!(validate_private_directory("/data", None, 7).is_err());
    assert!(validate_private_directory("/data", Some(FileFacts { is_symlink: true, ..dir }), 7).is_err());
    assert!(validate_private_directory("data", Some(dir), 7).is_err());
}

#[test]
fn tls_settings_come_from_the_environment() {
    let entry = |key: &str, value: &str| EnvEntry { key: key.to_owned(), value: value.to_owned() };
    let facts = TlsFileFacts {
        certificate_is_file: Some(true),
        private_key: Some(FileFacts {
            is_symlink: false,
            is_dir: false,
            is_file: true,
            uid: 7,
            mode: 0o600,
        }),
        uid: 7,
    };
    assert!(tls_settings_from_environment(loopback(8443), &Vec::new(), facts).unwrap().is_none());
    let list = vec![entry("A", "1"), entry("A", "2")];
    assert!(env_lookup(&list, "A").is_some());
    assert!(env_lookup(&list, "B").is_none());
}

#[test]
fn startup_lines_come_back() {
    let line = frame_startup(b"{\"a\":1}".to_vec()).unwrap();
    assert_eq!(line.last(), Some(&10));
    let mut frame = StartupFrame::new();
    assert!(matches!(frame.read(&line[..3]), Ok(FrameStep::More)));
    match frame.read(&line[3..]) {
        Ok(FrameStep::Done(bytes)) => assert_eq!(bytes, b"{\"a\":1}".to_vec()),
        _ => panic!("the line was not read"),
    }
    assert!(frame_startup(vec![0; 4_097]).is_err());
    let mut long = StartupFrame::new();
    assert!(long.read(&[b'x'; 5_000]).is_err());
}

#[test]
fn ready_children_name_their_instance() {
    let ready = StartupReady { instance_id: ID, control_url: "ws://127.0.0.1:8787/ws".to_owned() };
    assert!(ready.validate().is_ok());
    assert!(ready.accepts(StartupAck { instance_id: ID }).is_ok());
    assert!(ready.accepts(StartupAck { instance_id: OTHER }).is_err());
    let options = StartOptions {
        bind: loopback(8787),
        share: ShareRequest::Local,
        tls: None,
        background: true,
        instance_id: Some(ID),
    };
    assert!(validate_ready_control_url("ws://127.0.0.1:8787/ws", &options).is_ok());
    assert!(validate_ready_control_url("ws://127.0.0.1:9999/ws", &options).is_err());
}

fn start(share: ShareRequest, background: bool) -> StartMachine {
    StartMachine::new(StartOptions {
        bind: loopback(8787),
        share,
        tls: None,
        background,
        instance_id: Some(ID),
    })
}

fn ready() -> LauncherEvent {
    LauncherEvent::Ready(StartupReady {
        instance_id: ID,
        control_url: "ws://127.0.0.1:8787/ws".to_owned(),
    })
}

#[test]
fn local_routers_are_started() {
    let mut machine = start(ShareRequest::Local, true);
    assert!(matches!(machine.action(), StartAction::Lock));
    assert!(matches!(machine.step(LauncherEvent::Done), StartAction::Read));
    let mut action = machine.step(LauncherEvent::Record(None));
    let mut rounds = 0;
    let mut published = false;
    loop {
        rounds += 1;
        assert!(rounds < 20);
        action = match action {
            StartAction::Launch => machine.step(ready()),
            StartAction::Probe => machine.step(LauncherEvent::Probed(Ok(marker(ID)))),
            StartAction::Publish => {
                published = true;
                assert!(machine.bounded());
                let own = machine.record().unwrap().control_url.clone();
                assert_eq!(machine.published_url(), Some(own.as_str()));
                machine.step(LauncherEvent::Done)
            }
            StartAction::Return(StartReturn::Started) => break,
            StartAction::Return(_) => panic!("the router was not started"),
            _ => machine.step(LauncherEvent::Done),
        };
    }
    assert!(published);
    assert_eq!(machine.record().unwrap().instance_id, ID);
    assert_eq!(machine.instance_id(), ID);
}

#[test]
fn running_routers_are_reused_once_verified() {
    let mut machine = start(ShareRequest::Local, true);
    machine.step(LauncherEvent::Done);
    assert!(matches!(
        machine.step(LauncherEvent::Record(Some(local_record(OTHER)))),
        StartAction::Probe
    ));
    assert!(matches!(
        machine.step(LauncherEvent::Probed(Ok(marker(OTHER)))),
        StartAction::VerifyOwner
    ));
    assert!(matches!(
        machine.step(LauncherEvent::Done),
        StartAction::Return(StartReturn::Reused)
    ));
}

#[test]
fn failed_starts_are_undone() {
    let mut machine = start(ShareRequest::Local, true);
    machine.step(LauncherEvent::Done);
    let mut action = machine.step(LauncherEvent::Record(None));
    let mut terminated = false;
    let mut removed = false;
    for _ in 0..20 {
        action = match action {
            StartAction::Launch => machine.step(ready()),
            StartAction::Probe => machine.step(LauncherEvent::Probed(Err(ProbeFailure::Transport))),
            StartAction::Terminate => {
                terminated = true;
                machine.step(LauncherEvent::Done)
            }
            StartAction::Remove => {
                removed = true;
                machine.step(LauncherEvent::Done)
            }
            StartAction::Return(outcome) => {
                assert!(matches!(
                    outcome,
                    StartReturn::Failed(RouterLaunchError::Health(ProbeFailure::Transport))
                ));
                assert!(terminated && removed);
                return;
            }
            _ => machine.step(LauncherEvent::Done),
        };
    }
    panic!("the start did not end");
}

#[test]
fn late_starts_are_undone() {
    let mut machine = start(ShareRequest::Local, true);
    machine.step(LauncherEvent::Done);
    let mut action = machine.step(LauncherEvent::Record(None));
    let mut terminated = false;
    for _ in 0..20 {
        assert!(machine.published_url().is_none());
        action = match action {
            StartAction::Launch => {
                assert!(!machine.bounded());
                machine.step(ready())
            }
            StartAction::Probe => {
                assert!(machine.bounded());
                machine.step(LauncherEvent::TimedOut)
            }
            StartAction::Terminate => {
                assert!(!machine.bounded());
                terminated = true;
                machine.step(LauncherEvent::Done)
            }
            StartAction::Return(outcome) => {
                assert_eq!(outcome, StartReturn::Failed(RouterLaunchError::StartupTimeout));
                assert!(terminated);
                return;
            }
            _ => machine.step(LauncherEvent::Done),
        };
    }
    panic!("the start did not end");
}

#[test]
fn late_stops_are_no_stops() {
    let mut machine = StopMachine::new(None);
    machine.step(LauncherEvent::Done);
    machine.step(LauncherEvent::Record(Some(local_record(ID))));
    machine.step(LauncherEvent::Probed(Ok(marker(ID))));
    assert_eq!(machine.step(LauncherEvent::Done), StopAction::Shutdown);
    assert!(!machine.bounded());
    assert_eq!(machine.step(LauncherEvent::Done), StopAction::WaitStopped);
    assert!(machine.bounded());
    assert_eq!(
        machine.step(LauncherEvent::TimedOut),
        StopAction::Return(StopReturn::Failed(RouterLaunchError::ShutdownTimeout))
    );
}

#[test]
fn children_become_ready_or_fail() {
    let ready = |instance_id| StartupReady {
        instance_id,
        control_url: "ws://127.0.0.1:8787/ws".to_owned(),
    };
    let protocol = Err(RouterLaunchError::StartupProtocol);
    assert_eq!(accept_ready(StartupRead::Line(Some(ready(ID)))), Ok(ready(ID)));
    assert_eq!(accept_ready(StartupRead::Line(Some(ready(Uuid { value: 0 })))), protocol);
    assert_eq!(accept_ready(StartupRead::Line(None)), Err(RouterLaunchError::StartupProtocol));
    assert_eq!(accept_ready(StartupRead::Broken), Err(RouterLaunchError::StartupProtocol));
    assert_eq!(accept_ready(StartupRead::TimedOut), Err(RouterLaunchError::StartupTimeout));
    assert_eq!(accept_ready(StartupRead::Interrupted), Err(RouterLaunchError::Interrupted));
    assert_eq!(check_startup_write(StartupWrite::Written), Ok(()));
    let late = check_startup_write(StartupWrite::TimedOut);
    assert_eq!(late, Err(RouterLaunchError::StartupTimeout));
    let broken = check_startup_write(StartupWrite::Broken);
    assert_eq!(broken, Err(RouterLaunchError::StartupProtocol));
    assert_eq!(check_lock(LockAttempt::Taken), Ok(()));
    assert_eq!(check_lock(LockAttempt::Held), Err(RouterLaunchError::RouterBusy));
    assert_eq!(check_lock(LockAttempt::Failed), Err(RouterLaunchError::Io));
}

#[test]
fn tailnets_are_asked_for_their_state() {
    assert_eq!(status_arguments(), vec!["status", "--json"]);
    assert_eq!(serve_status_arguments(), vec!["serve", "status", "--json"]);
}

#[test]
fn stops_are_fenced() {
    let mut none = StopMachine::new(None);
    assert!(matches!(none.action(), StopAction::Lock));
    none.step(LauncherEvent::Done);
    assert!(matches!(
        none.step(LauncherEvent::Record(None)),
        StopAction::Return(StopReturn::NotRunning)
    ));
    let mut other = StopMachine::new(Some(OTHER));
    other.step(LauncherEvent::Done);
    assert!(matches!(
        other.step(LauncherEvent::Record(Some(local_record(ID)))),
        StopAction::Return(StopReturn::Failed(RouterLaunchError::InstanceChanged))
    ));
    let mut running = StopMachine::new(Some(ID));
    running.step(LauncherEvent::Done);
    let mut action = running.step(LauncherEvent::Record(Some(local_record(ID))));
    for _ in 0..12 {
        action = match action {
            StopAction::Probe => running.step(LauncherEvent::Probed(Ok(marker(ID)))),
            StopAction::Return(outcome) => {
                assert!(matches!(outcome, StopReturn::Stopped));
                return;
            }
            _ => running.step(LauncherEvent::Done),
        };
    }
    panic!("the stop did not end");
}

#[test]
fn stale_records_are_recovered() {
    let mut machine = StopMachine::new(None);
    machine.step(LauncherEvent::Done);
    machine.step(LauncherEvent::Record(Some(local_record(ID))));
    assert!(matches!(
        machine.step(LauncherEvent::Probed(Err(ProbeFailure::ConnectionRefused))),
        StopAction::Remove
    ));
    assert!(matches!(
        machine.step(LauncherEvent::Done),
        StopAction::Return(StopReturn::StaleRecovered)
    ));
}

#[test]
fn foreign_forwards_stay() {
    let record = tailnet_record(ID);
    let serve = record.owned_serve.as_ref().unwrap();
    assert!(matches!(begin_cleanup(&record), CleanupStep::Go(CleanupPhase::Inspecting)));
    assert!(matches!(begin_cleanup(&local_record(ID)), CleanupStep::Finished));
    let foreign = LauncherEvent::Snapshot(snapshot(&[(8787, "tcp://127.0.0.1:1")]));
    assert!(!matches!(
        continue_cleanup(CleanupPhase::Inspecting, serve, &foreign),
        Some(CleanupStep::Go(CleanupPhase::Disabling))
    ));
    let own = LauncherEvent::Snapshot(snapshot(&[(8787, "tcp://127.0.0.1:8787")]));
    assert!(matches!(
        continue_cleanup(CleanupPhase::Inspecting, serve, &own),
        Some(CleanupStep::Go(CleanupPhase::Disabling))
    ));
    let gone = LauncherEvent::Snapshot(snapshot(&[]));
    assert!(matches!(
        continue_cleanup(CleanupPhase::Confirming, serve, &gone),
        Some(CleanupStep::Finished)
    ));
}

#[test]
fn stores_name_their_files() {
    let dir = FileFacts { is_symlink: false, is_dir: true, is_file: false, uid: 7, mode: 0o700 };
    let store = RuntimeStore::new("/data".to_owned(), Some(dir), 7).unwrap();
    assert_eq!(store.runtime_path(), "/data/router-runtime.json");
    assert_eq!(store.lock_path(), "/data/launcher.lock");
    assert!(store.temporary_path(ID).contains(&ID.to_text()));
    assert!(RuntimeStore::new("/data".to_owned(), None, 7).is_err());
    assert!(accept_record(b"{}", Some(local_record(ID))).is_ok());
    assert!(accept_record(b"{}", None).is_err());
    assert!(matches!(
        accept_record(&vec![b' '; 65_537], Some(local_record(ID))),
        Err(RouterLaunchError::RuntimeRecordTooLarge)
    ));
    assert!(check_record_payload(&local_record(ID), b"{}").is_ok());
    assert!(check_record_payload(&local_record(ID), &vec![b' '; 65_537]).is_err());
    assert!(may_remove(Some(&local_record(ID)), ID));
    assert!(!may_remove(Some(&local_record(ID)), OTHER));
    assert!(retry_lock(RouterLaunchError::RouterBusy, 1, 2));
    assert!(!retry_lock(RouterLaunchError::RouterBusy, 2, 2));
    assert!(!retry_lock(RouterLaunchError::Io, 1, 2));
}

#[test]
fn serve_statuses_are_read() {
    let status = br#"{"TCP":{"8787":{"TCPForward":"127.0.0.1:8787"}}}"#;
    let forwards = parse_serve_status(status).unwrap();
    assert_eq!(forwards.len(), 1);
    assert!(forwards[&8787].ends_with("127.0.0.1:8787"));
    assert!(parse_serve_status(b"[").is_err());
    assert!(read_serve_status(&object(vec![field("TCP", Json::of_text("x"))])).is_err());
    assert!(read_serve_status(&object(Vec::new())).unwrap().is_empty());
    let node = |addresses| TailscaleNode { online: true, addresses };
    let own = Some(IpAddress::V4(ip(100, 64, 0, 1)));
    let status = TailscaleStatus {
        backend_state: "Running".to_owned(),
        self_node: node(vec![own]),
        peers: vec![node(vec![Some(IpAddress::V4(ip(100, 64, 0, 2)))])],
    };
    let found = parse_tailscale_snapshot(Some(status), b"{}").unwrap();
    assert!(found.backend_running);
    assert_eq!(found.all_online_ipv4().len(), 2);
    assert!(found.validate().is_ok());
    assert!(parse_tailscale_snapshot(None, b"{}").is_err());
    assert!(parse_tailscale_addresses(&vec![Some(IpAddress::V4(ip(10, 0, 0, 1)))]).is_err());
    assert!(parse_tailscale_addresses(&vec![None]).is_err());
}

#[test]
fn serve_commands_name_the_port() {
    let serve = OwnedServe::loopback(ID, 8787);
    assert_eq!(
        enable_arguments(&serve),
        vec!["serve", "--bg", "--tcp=8787", "tcp://127.0.0.1:8787"]
    );
    assert!(disable_arguments(&serve).iter().any(|argument| argument == "off"));
}

#[test]
fn children_are_configured_and_ended() {
    let mut config = NativeChildConfig {
        program: "/bin/asr".to_owned(),
        arguments: Vec::new(),
        cwd: "/".to_owned(),
        environment: Vec::new(),
        stderr_file: "/tmp/x".to_owned(),
        signal_process_group: true,
    };
    assert!(config.check_launch(false).is_ok());
    assert!(config.check_launch(true).is_err());
    config.configure_share_mode(RuntimeShareMode::Lan);
    config.configure_share_mode(RuntimeShareMode::Local);
    assert_eq!(config.environment.len(), 1);
    config.cwd = "relative".to_owned();
    assert!(config.check_launch(false).is_err());
    let variables = launch_variables(ID, true);
    assert_eq!(variables[0].value, ID.to_text());
    assert_eq!(variables[1].value, "1");
    assert_eq!(end_interrupted().signal, ChildSignal::Interrupt);
    assert_eq!(end_unready(RouterLaunchError::Interrupted, true), end_interrupted());
    assert_eq!(end_unready(RouterLaunchError::Io, true), end_unwanted(true));
    assert!(bounded_output(true, vec![1]).is_ok());
    assert!(bounded_output(false, vec![1]).is_err());
}

#[test]
fn health_is_asked_over_http() {
    assert_eq!(
        health_url("ws://127.0.0.1:8787/ws").unwrap(),
        ("http://127.0.0.1:8787/healthz".to_owned(), false)
    );
    assert_eq!(
        health_url("wss://router.example/ws").unwrap(),
        ("https://router.example/healthz".to_owned(), true)
    );
    assert!(health_url("no url").is_err());
    assert!(check_response(ProbeResponse::Status(200), false).is_ok());
    assert_eq!(
        check_response(ProbeResponse::Refused, false),
        Err(ProbeFailure::ConnectionRefused)
    );
    assert_eq!(check_response(ProbeResponse::Failed, true), Err(ProbeFailure::Tls));
    assert_eq!(check_response(ProbeResponse::Failed, false), Err(ProbeFailure::Transport));
    assert!(accept_marker(Some(marker(ID)), ID).is_ok());
    assert!(matches!(accept_marker(Some(marker(ID)), OTHER), Err(ProbeFailure::MarkerMismatch)));
    assert_eq!(ReqwestHealthProbe::new(Some("/ca".to_owned())).ca_file(), Some("/ca"));
    assert_eq!(SystemTailscale::new("/bin/tailscale".to_owned()).unwrap().executable(), "/bin/tailscale");
    assert!(SystemTailscale::new("tailscale".to_owned()).is_err());
}

#[test]
fn codex_runs_where_it_is_configured() {
    let plan = |cwd: Option<&str>| {
        asr::process::launch::LaunchPlan::owned_codex(
            "codex".to_owned(),
            "/caller".to_owned(),
            cwd.map(str::to_owned),
            vec!["x".to_owned()],
        )
    };
    let configured = plan(Some("/configured"));
    assert_eq!(configured.environment[0].key, "CODEX_CWD");
    assert_eq!(configured.environment[0].value, "/configured");
    assert_eq!(plan(None).environment[0].value, "/caller");
}

#[test]
fn runtime_records_are_copied_whole() {
    let record = asr::process::RuntimeRecord {
        instance_id: asr::ids::Uuid { value: 9 },
        control_url: "ws://127.0.0.1:7777/ws".to_owned(),
        share_mode: asr::process::RuntimeShareMode::Local,
        advertised_url: Some("ws://127.0.0.1:7777/ws".to_owned()),
        owned_serve: None,
    };
    assert_eq!(record.copy(), record);
}
