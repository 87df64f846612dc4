//! The router's child process, its health and the commands around it.

use vstd::prelude::*;

use crate::ids::{hyphenated_text, uuid_text, Uuid};
use crate::net::{parse_url, parsed_url};
use crate::paths::{absolute, is_absolute};
use crate::process::launch::{exit_code, map_exit_status};
use crate::process::store::RuntimeStore;
use crate::process::{
    healthy, EnvEntry, HealthMarker, ProbeFailure, RouterLaunchError, RuntimeShareMode,
    MAX_COMMAND_OUTPUT_BYTES, SHUTDOWN_TIMEOUT_MS, STARTUP_TIMEOUT_MS,
};
use crate::text::{given, opt_text, same_text};

verus! {

/// A launcher with what it works through: health probes, administration, Tailscale,
/// profiles and child processes.
pub struct NativeLauncher<H, A, T, P, C> {
    pub store: RuntimeStore,
    pub health: H,
    pub admin: A,
    pub tailscale: T,
    pub profiles: P,
    pub child: C,
}

impl<H, A, T, P, C> NativeLauncher<H, A, T, P, C> {
    pub fn new(
        store: RuntimeStore,
        health: H,
        admin: A,
        tailscale: T,
        profiles: P,
        child: C,
    ) -> (launcher: NativeLauncher<H, A, T, P, C>)
        ensures
            launcher.store == store,
            launcher.health == health,
            launcher.admin == admin,
            launcher.tailscale == tailscale,
            launcher.profiles == profiles,
            launcher.child == child,
    {
        NativeLauncher { store, health, admin, tailscale, profiles, child }
    }
}

#[derive(Debug)]
pub struct NativeChildConfig {
    pub program: String,
    pub arguments: Vec<String>,
    pub cwd: String,
    pub environment: Vec<EnvEntry>,
    pub stderr_file: String,
    pub signal_process_group: bool,
}

/// A child can be launched: none runs yet, and its program and directory are absolute.
pub open spec fn launchable(config: NativeChildConfig, running: bool) -> bool {
    !running && absolute(config.program@) && absolute(config.cwd@)
}

/// The name of a share mode.
pub open spec fn share_mode_text(mode: RuntimeShareMode) -> Seq<char> {
    match mode {
        RuntimeShareMode::Local => "local"@,
        RuntimeShareMode::Tailscale => "tailscale"@,
        RuntimeShareMode::Lan => "lan"@,
    }
}

/// The environment without a variable.
pub open spec fn without_key(environment: Seq<EnvEntry>, key: Seq<char>) -> Seq<EnvEntry>
    decreases environment.len(),
{
    if environment.len() == 0 {
        Seq::empty()
    } else {
        let before = without_key(environment.drop_last(), key);
        if environment.last().key@ == key {
            before
        } else {
            before.push(environment.last())
        }
    }
}

impl NativeChildConfig {
    /// Refuses to launch a child beside another, or one with a relative program or
    /// directory.
    pub fn check_launch(&self, running: bool) -> (verdict: Result<(), RouterLaunchError>)
        ensures
            verdict == if launchable(*self, running) {
                Ok::<(), RouterLaunchError>(())
            } else {
                Err(RouterLaunchError::ChildLaunch)
            },
    {
        if running || !is_absolute(self.program.as_str()) || !is_absolute(self.cwd.as_str()) {
            return Err(RouterLaunchError::ChildLaunch);
        }
        Ok(())
    }

    /// Tells the child how it is going to be shared: any earlier word on it is taken back.
    pub fn configure_share_mode(&mut self, mode: RuntimeShareMode)
        ensures
            final(self).program == old(self).program,
            final(self).arguments == old(self).arguments,
            final(self).cwd == old(self).cwd,
            final(self).stderr_file == old(self).stderr_file,
            final(self).signal_process_group == old(self).signal_process_group,
            final(self).environment@.len() > 0,
            final(self).environment@.drop_last() == without_key(
                old(self).environment@,
                "ASR_RUNTIME_SHARE_MODE"@,
            ),
            final(self).environment@.last().key@ == "ASR_RUNTIME_SHARE_MODE"@,
            final(self).environment@.last().value@ == share_mode_text(mode),
    {
        let ghost given = self.environment@;
        let mut kept: Vec<EnvEntry> = Vec::new();
        let mut i: usize = 0;
        while i < self.environment.len()
            invariant
                i <= self.environment@.len(),
                *self == *old(self),
                given == self.environment@,
                kept@.len() <= i,
                kept@ == without_key(given.take(i as int), "ASR_RUNTIME_SHARE_MODE"@),
            decreases self.environment.len() - i,
        {
            assert(given.take(i + 1).drop_last() =~= given.take(i as int));
            if !same_text(self.environment[i].key.as_str(), "ASR_RUNTIME_SHARE_MODE") {
                let entry = EnvEntry {
                    key: self.environment[i].key.clone(),
                    value: self.environment[i].value.clone(),
                };
                assert(entry == given[i as int]);
                kept.push(entry);
            }
            i += 1;
        }
        assert(given.take(i as int) =~= given);
        let name = match mode {
            RuntimeShareMode::Local => "local",
            RuntimeShareMode::Tailscale => "tailscale",
            RuntimeShareMode::Lan => "lan",
        };
        let ghost before = kept@;
        kept.push(
            EnvEntry { key: "ASR_RUNTIME_SHARE_MODE".to_owned(), value: name.to_owned() },
        );
        assert(kept@.drop_last() =~= before);
        self.environment = kept;
    }
}

/// The variables that a child learns its own instance from, and whether it runs in the
/// background.
pub fn launch_variables(instance: Uuid, background: bool) -> (variables: Vec<EnvEntry>)
    ensures
        variables@.len() == 2,
        variables@[0].key@ == "ASR_LAUNCH_INSTANCE_ID"@,
        variables@[0].value@ == hyphenated_text(instance.value),
        variables@[1].key@ == "ASR_BACKGROUND_CHILD"@,
        variables@[1].value@ == if background {
            "1"@
        } else {
            "0"@
        },
{
    let mut variables: Vec<EnvEntry> = Vec::new();
    variables.push(
        EnvEntry { key: "ASR_LAUNCH_INSTANCE_ID".to_owned(), value: uuid_text(instance) },
    );
    let flag = if background {
        "1"
    } else {
        "0"
    };
    variables.push(EnvEntry { key: "ASR_BACKGROUND_CHILD".to_owned(), value: flag.to_owned() });
    variables
}

/// A signal to a child.
#[derive(Clone, Copy, Debug, PartialEq, Eq, Structural)]
pub enum ChildSignal {
    Interrupt,
    Terminate,
    Kill,
}

/// How a child is ended: by a signal, and killed where it has not ended after the time.
#[derive(Clone, Copy, Debug, PartialEq, Eq, Structural)]
pub struct ChildEnding {
    pub signal: ChildSignal,
    pub deadline_ms: u64,
}

/// How a child is ended that is no longer wanted: one with a process group of its own is
/// asked, one without is killed.
pub open spec fn unwanted_ending(process_group: bool) -> ChildEnding {
    ChildEnding {
        signal: if process_group {
            ChildSignal::Terminate
        } else {
            ChildSignal::Kill
        },
        deadline_ms: STARTUP_TIMEOUT_MS,
    }
}

/// How a child is ended after an interrupt of the foreground.
pub open spec fn interrupted_ending() -> ChildEnding {
    ChildEnding { signal: ChildSignal::Interrupt, deadline_ms: SHUTDOWN_TIMEOUT_MS }
}

/// How a child is ended that is no longer wanted.
pub fn end_unwanted(process_group: bool) -> (ending: ChildEnding)
    ensures
        ending == unwanted_ending(process_group),
{
    let signal = if process_group {
        ChildSignal::Terminate
    } else {
        ChildSignal::Kill
    };
    ChildEnding { signal, deadline_ms: STARTUP_TIMEOUT_MS }
}

/// How a child is ended after an interrupt of the foreground.
pub fn end_interrupted() -> (ending: ChildEnding)
    ensures
        ending == interrupted_ending(),
{
    ChildEnding { signal: ChildSignal::Interrupt, deadline_ms: SHUTDOWN_TIMEOUT_MS }
}

/// How a child is ended that did not become ready.
pub fn end_unready(error: RouterLaunchError, process_group: bool) -> (ending: ChildEnding)
    ensures
        ending == if error == RouterLaunchError::Interrupted {
            interrupted_ending()
        } else {
            unwanted_ending(process_group)
        },
{
    if matches!(error, RouterLaunchError::Interrupted) {
        end_interrupted()
    } else {
        end_unwanted(process_group)
    }
}

/// What is to be done to end a child.
#[derive(Clone, Copy, Debug, PartialEq, Eq, Structural)]
pub enum EndPhase {
    /// It is to be seen whether the child still runs.
    Look,
    /// The child is to be sent a signal.
    Signal(ChildSignal),
    /// Its end is to be awaited, for so many milliseconds.
    TimedWait(u64),
    /// It is to be sent the signal that it cannot refuse.
    Kill,
    /// Its end is to be awaited.
    Reap,
    /// It has ended, or there is none: it is held no longer.
    Ended,
    /// It could not be seen whether it has ended: it is still held.
    Failed,
}

/// How that went.
#[derive(Clone, Copy, Debug, PartialEq, Eq, Structural)]
pub enum EndEvent {
    /// There is no child.
    NoChild,
    Running,
    Exited,
    Signalled,
    TimedOut,
    Failed,
}

/// What is to be done once something has been.
pub open spec fn end_after(phase: EndPhase, ending: ChildEnding, event: EndEvent) -> EndPhase {
    match (phase, event) {
        (EndPhase::Ended, _) => phase,
        (EndPhase::Failed, _) => phase,
        (_, EndEvent::NoChild) => EndPhase::Ended,
        (EndPhase::Look, EndEvent::Running) => EndPhase::Signal(ending.signal),
        (EndPhase::Signal(_), EndEvent::Signalled) => EndPhase::TimedWait(ending.deadline_ms),
        (EndPhase::TimedWait(_), EndEvent::TimedOut) => EndPhase::Kill,
        (EndPhase::Kill, EndEvent::Signalled) => EndPhase::Reap,
        (EndPhase::Signal(_), _) => phase,
        (EndPhase::Kill, _) => phase,
        (_, EndEvent::Exited) => EndPhase::Ended,
        (_, EndEvent::Failed) => EndPhase::Failed,
        _ => phase,
    }
}

/// What is to be done once something has been. A child that has exited is sent no signal;
/// one that has not ended after the time is killed; and it is held until its end was seen.
pub fn end_next(phase: EndPhase, ending: ChildEnding, event: EndEvent) -> (next: EndPhase)
    ensures
        next == end_after(phase, ending, event),
{
    match (phase, event) {
        (EndPhase::Ended, _) => phase,
        (EndPhase::Failed, _) => phase,
        (_, EndEvent::NoChild) => EndPhase::Ended,
        (EndPhase::Look, EndEvent::Running) => EndPhase::Signal(ending.signal),
        (EndPhase::Signal(_), EndEvent::Signalled) => EndPhase::TimedWait(ending.deadline_ms),
        (EndPhase::TimedWait(_), EndEvent::TimedOut) => EndPhase::Kill,
        (EndPhase::Kill, EndEvent::Signalled) => EndPhase::Reap,
        (EndPhase::Signal(_), _) => phase,
        (EndPhase::Kill, _) => phase,
        (_, EndEvent::Exited) => EndPhase::Ended,
        (_, EndEvent::Failed) => EndPhase::Failed,
        _ => phase,
    }
}

/// A child is let go of only once its end was seen, is signalled only while it runs, and is
/// killed only after the time that it was given.
pub proof fn children_are_held_until_they_end(phase: EndPhase, ending: ChildEnding, event: EndEvent)
    ensures
        end_after(phase, ending, event) is Ended && !(phase is Ended) ==> event is Exited || event
            is NoChild,
        end_after(phase, ending, event) is Signal && !(phase is Signal) ==> phase is Look && event
            is Running,
        end_after(phase, ending, event) is Kill && !(phase is Kill) ==> phase is TimedWait && event
            is TimedOut,
        end_after(phase, ending, event) is TimedWait && !(phase is TimedWait) ==> end_after(
            phase,
            ending,
            event,
        ) == EndPhase::TimedWait(ending.deadline_ms),
{
}

/// What is to be done to wait for a child.
#[derive(Clone, Copy, Debug, PartialEq, Eq, Structural)]
pub enum WaitPhase {
    /// Its end or an interrupt is to be awaited.
    Wait,
    /// It is being ended after an interrupt.
    Ending(EndPhase),
    /// It exited, with that code.
    Exited(i32),
    /// Its end could not be awaited.
    Lost,
    /// There is no child.
    NoChild,
}

/// How that went.
#[derive(Clone, Copy, Debug, PartialEq, Eq, Structural)]
pub enum WaitEvent {
    Interrupted,
    /// The child exited with a code, or by a signal.
    Exited { code: Option<i32>, signal: Option<i32> },
    Failed,
    /// A step towards its end was taken.
    Ending(EndEvent),
}

/// What is to be done once something has been.
pub open spec fn wait_after(phase: WaitPhase, event: WaitEvent) -> WaitPhase {
    match (phase, event) {
        (WaitPhase::Wait, WaitEvent::Interrupted) => WaitPhase::Ending(EndPhase::Look),
        (WaitPhase::Wait, WaitEvent::Exited { code, signal }) => WaitPhase::Exited(
            exit_code(code, signal),
        ),
        (WaitPhase::Wait, WaitEvent::Failed) => WaitPhase::Lost,
        (WaitPhase::Ending(end), WaitEvent::Ending(event)) => WaitPhase::Ending(
            end_after(end, interrupted_ending(), event),
        ),
        _ => phase,
    }
}

/// What a wait comes to, if it is over: 130 after an interrupt, else what stands for how the
/// child ended.
pub open spec fn wait_result(phase: WaitPhase) -> Option<Result<i32, RouterLaunchError>> {
    match phase {
        WaitPhase::Exited(code) => Some(Ok(code)),
        WaitPhase::Ending(EndPhase::Ended) => Some(Ok(130)),
        WaitPhase::Ending(EndPhase::Failed) => Some(Err(RouterLaunchError::Io)),
        WaitPhase::Lost => Some(Err(RouterLaunchError::Io)),
        WaitPhase::NoChild => Some(Err(RouterLaunchError::ChildTerminated)),
        _ => None,
    }
}

/// Whether the child is held no longer after a wait.
pub open spec fn wait_releases(phase: WaitPhase) -> bool {
    phase is Exited || phase is Lost || phase == WaitPhase::Ending(EndPhase::Ended)
}

/// The wait that begins, where a child is held or where none is.
pub open spec fn wait_from(held: bool) -> WaitPhase {
    if held {
        WaitPhase::Wait
    } else {
        WaitPhase::NoChild
    }
}

impl WaitPhase {
    pub fn begin(held: bool) -> (phase: WaitPhase)
        ensures
            phase == wait_from(held),
    {
        if held {
            WaitPhase::Wait
        } else {
            WaitPhase::NoChild
        }
    }

    pub fn step(self, event: WaitEvent) -> (next: WaitPhase)
        ensures
            next == wait_after(self, event),
    {
        match (self, event) {
            (WaitPhase::Wait, WaitEvent::Interrupted) => WaitPhase::Ending(EndPhase::Look),
            (WaitPhase::Wait, WaitEvent::Exited { code, signal }) => WaitPhase::Exited(
                map_exit_status(code, signal),
            ),
            (WaitPhase::Wait, WaitEvent::Failed) => WaitPhase::Lost,
            (WaitPhase::Ending(end), WaitEvent::Ending(event)) => WaitPhase::Ending(
                end_next(end, end_interrupted(), event),
            ),
            _ => self,
        }
    }

    /// What the wait comes to, if it is over.
    pub fn result(&self) -> (result: Option<Result<i32, RouterLaunchError>>)
        ensures
            result == wait_result(*self),
    {
        match *self {
            WaitPhase::Exited(code) => Some(Ok(code)),
            WaitPhase::Ending(EndPhase::Ended) => Some(Ok(130)),
            WaitPhase::Ending(EndPhase::Failed) => Some(Err(RouterLaunchError::Io)),
            WaitPhase::Lost => Some(Err(RouterLaunchError::Io)),
            WaitPhase::NoChild => Some(Err(RouterLaunchError::ChildTerminated)),
            _ => None,
        }
    }

    /// Whether the child is held no longer.
    pub fn releases(&self) -> (yes: bool)
        ensures
            yes == wait_releases(*self),
    {
        match *self {
            WaitPhase::Exited(_) => true,
            WaitPhase::Lost => true,
            WaitPhase::Ending(end) => end == EndPhase::Ended,
            _ => false,
        }
    }
}

/// A wait that gave a code has let go of the child, and a further one finds none. After an
/// interrupt the code is given only once the end of the child was seen.
pub proof fn children_are_waited_for_once(phase: WaitPhase, event: WaitEvent)
    ensures
        wait_result(phase) matches Some(Ok(_)) ==> wait_releases(phase),
        wait_result(phase) is Some ==> wait_after(phase, event) == phase,
        wait_result(wait_from(false)) == Some(
            Err::<i32, RouterLaunchError>(RouterLaunchError::ChildTerminated),
        ),
        phase is Ending && wait_result(phase) is None ==> (wait_result(wait_after(phase, event))
            matches Some(Ok(code)) ==> code == 130 && (event == WaitEvent::Ending(EndEvent::Exited)
            || event == WaitEvent::Ending(EndEvent::NoChild))),
{
}

/// The output of a command: only of one that succeeded within the limit.
pub fn bounded_output(success: bool, output: Vec<u8>) -> (bytes: Result<Vec<u8>, RouterLaunchError>)
    ensures
        bytes == (if success && output@.len() <= MAX_COMMAND_OUTPUT_BYTES {
            Ok::<Vec<u8>, RouterLaunchError>(output)
        } else {
            Err(RouterLaunchError::TailscaleCommand)
        }),
{
    if !success || output.len() > MAX_COMMAND_OUTPUT_BYTES {
        return Err(RouterLaunchError::TailscaleCommand);
    }
    Ok(output)
}

/// A probe of a router's health over HTTP.
#[derive(Debug)]
pub struct ReqwestHealthProbe {
    ca_file: Option<String>,
}

impl ReqwestHealthProbe {
    pub closed spec fn ca(self) -> Option<Seq<char>> {
        opt_text(self.ca_file)
    }

    pub fn new(ca_file: Option<String>) -> (probe: ReqwestHealthProbe)
        ensures
            probe.ca() == opt_text(ca_file),
    {
        ReqwestHealthProbe { ca_file }
    }

    pub fn ca_file(&self) -> (path: Option<&str>)
        ensures
            (match path {
                Some(text) => Some(text@),
                None => None,
            }) == self.ca(),
    {
        match &self.ca_file {
            Some(path) => Some(path.as_str()),
            None => None,
        }
    }
}

/// The Tailscale command line.
#[derive(Debug)]
pub struct SystemTailscale {
    executable: String,
}

impl SystemTailscale {
    pub closed spec fn program(self) -> Seq<char> {
        self.executable@
    }

    /// The command line at an absolute path.
    pub fn new(executable: String) -> (tailscale: Result<SystemTailscale, RouterLaunchError>)
        ensures
            match tailscale {
                Ok(tailscale) => absolute(executable@) && tailscale.program() == executable@,
                Err(error) => !absolute(executable@) && error
                    == RouterLaunchError::TailscaleCommand,
            },
    {
        if !is_absolute(executable.as_str()) {
            return Err(RouterLaunchError::TailscaleCommand);
        }
        Ok(SystemTailscale { executable })
    }

    pub fn executable(&self) -> (path: &str)
        ensures
            path@ == self.program(),
    {
        self.executable.as_str()
    }
}

/// A URL with another scheme, path, query and fragment.
pub uninterp spec fn redirected_url(
    text: Seq<char>,
    scheme: Seq<char>,
    path: Seq<char>,
    query: Option<Seq<char>>,
    fragment: Option<Seq<char>>,
) -> Option<Seq<char>>;

/// `url::Url::parse` with `set_scheme`, `set_path`, `set_query` and `set_fragment`: the URL
/// with another scheme, path, query and fragment, or nothing where the text spells no URL or
/// the scheme cannot be set, as a function of the texts alone.
#[verifier::external_body]
pub(crate) fn redirect_url(
    text: &str,
    scheme: &str,
    path: &str,
    query: Option<&str>,
    fragment: Option<&str>,
) -> (url: Option<String>)
    ensures
        opt_text(url) == redirected_url(text@, scheme@, path@, given(query), given(fragment)),
{
    let mut url = url::Url::parse(text).ok()?;
    url.set_scheme(scheme).ok()?;
    url.set_path(path);
    url.set_query(query);
    url.set_fragment(fragment);
    Some(url.into())
}

/// The address that a router's health is asked at, and whether it is reached over TLS.
pub fn health_url(control_url: &str) -> (url: Result<(String, bool), ProbeFailure>)
    ensures
        ({
            let secure = parsed_url(control_url@) matches Some(parts) && parts.scheme == "wss"@;
            let scheme = if secure {
                "https"@
            } else {
                "http"@
            };
            match url {
                Ok((text, tls)) => parsed_url(control_url@) is Some && tls == secure
                    && redirected_url(control_url@, scheme, "/healthz"@, None, None) == Some(text@),
                Err(failure) => failure == ProbeFailure::MarkerMismatch && (parsed_url(
                    control_url@,
                ) is None || redirected_url(control_url@, scheme, "/healthz"@, None, None) is None),
            }
        }),
{
    let parts = match parse_url(control_url) {
        Some(parts) => parts,
        None => return Err(ProbeFailure::MarkerMismatch),
    };
    let secure = same_text(parts.scheme.as_str(), "wss");
    let scheme = if secure {
        "https"
    } else {
        "http"
    };
    match redirect_url(control_url, scheme, "/healthz", None, None) {
        Some(url) => Ok((url, secure)),
        None => Err(ProbeFailure::MarkerMismatch),
    }
}

/// How a request for a router's health went.
#[derive(Clone, Copy, Debug, PartialEq, Eq, Structural)]
pub enum ProbeResponse {
    /// The router answered with an HTTP status.
    Status(u16),
    /// The connection was refused.
    Refused,
    /// The request failed otherwise.
    Failed,
}

/// What a request for a router's health shows before its body is read, if it failed.
pub open spec fn response_fault(response: ProbeResponse, secure: bool) -> Option<ProbeFailure> {
    match response {
        ProbeResponse::Refused => Some(ProbeFailure::ConnectionRefused),
        ProbeResponse::Failed => Some(
            if secure {
                ProbeFailure::Tls
            } else {
                ProbeFailure::Transport
            },
        ),
        ProbeResponse::Status(status) => if status == 401 || status == 403 {
            Some(ProbeFailure::Authentication)
        } else if !(200 <= status < 300) {
            Some(ProbeFailure::MarkerMismatch)
        } else {
            None
        },
    }
}

/// Judges a request for a router's health before its body is read.
pub fn check_response(response: ProbeResponse, secure: bool) -> (verdict: Result<(), ProbeFailure>)
    ensures
        verdict == (match response_fault(response, secure) {
            Some(failure) => Err::<(), ProbeFailure>(failure),
            None => Ok(()),
        }),
{
    match response {
        ProbeResponse::Refused => Err(ProbeFailure::ConnectionRefused),
        ProbeResponse::Failed => if secure {
            Err(ProbeFailure::Tls)
        } else {
            Err(ProbeFailure::Transport)
        },
        ProbeResponse::Status(status) => if status == 401 || status == 403 {
            Err(ProbeFailure::Authentication)
        } else if status < 200 || status >= 300 {
            Err(ProbeFailure::MarkerMismatch)
        } else {
            Ok(())
        },
    }
}

/// The marker of a body. `decoded` is what decoding the body gave, nothing where it does
/// not make a marker.
pub fn accept_marker(decoded: Option<HealthMarker>, instance: Uuid) -> (marker: Result<
    HealthMarker,
    ProbeFailure,
>)
    ensures
        marker == (match decoded {
            Some(marker) => if healthy(marker, instance) {
                Ok::<HealthMarker, ProbeFailure>(marker)
            } else {
                Err(ProbeFailure::MarkerMismatch)
            },
            None => Err(ProbeFailure::MarkerMismatch),
        }),
{
    match decoded {
        Some(marker) => match marker.verify(instance) {
            Ok(()) => Ok(marker),
            Err(_) => Err(ProbeFailure::MarkerMismatch),
        },
        None => Err(ProbeFailure::MarkerMismatch),
    }
}

} // verus!
