//! What holds of setting up a provider as a whole: in which order an installation goes, what it
//! may touch, and what is told of it.

use vstd::prelude::*;

use crate::ids::hyphenated_text;
use crate::onboarding::host::{
    choose_program, environment_path, outcome, valid_file, DirectoryWalk, EnvValue, FileFacts,
    PlaceEvent, PlacePhase, ProgramFacts, WalkEvent, WalkPhase,
};
use crate::onboarding::install::{
    check_profile, next_status, resume_action, status_report, CliError, FlowEvent, FlowPhase,
    InstallError, InstallFlow, InstallReport, OnboardingProfile, ProbeOutcome, ProfileBinding,
    StatusPhase,
};
use crate::onboarding::journal::{
    ActionRecord, ActionStatus, InstallAction, JournalError, JournalState,
};
use crate::onboarding::providers::{
    ProviderInstallError, ProviderInstaller, RecordedFile, Registered, Step,
};
use crate::onboarding::setup::{
    check_file, ownership_path, status_of, ConfigurePhase, FileHash, FilePublication, LinkPlan,
    PreflightEvent, PreflightPhase, PublishEvent, PublishPhase, StepEvent, StepPhase, StepSetup,
};
use crate::onboarding::{OnboardingProvider, OnboardingTicket, TicketVerdicts};
use crate::paths::{absolute, goes_up, joined, same_path};
use crate::shell::shell_literal;
use crate::text::given;

verus! {

/// An installation with a new ticket, where nothing goes wrong: the lock is taken, there is no
/// journal, the configuration agrees, a route is found, the distribution is installed, the
/// journal prepared and the receipt recorded, the provider's needs are checked, the credential
/// is enrolled, the provider is set up and verified, and only then the journal is configured.
/// The route that was found is the one that is reported.
pub proof fn installations_run_in_order(
    f: Seq<InstallFlow>,
    e: Seq<FlowEvent>,
    state: Option<&JournalState>,
    ticket: OnboardingTicket,
    verdicts: TicketVerdicts,
    provider: OnboardingProvider,
    url: String,
    executable: String,
)
    requires
        call_ensures(InstallFlow::install, (&ticket, verdicts, provider), f[0]),
        f[0].error is None,
        f.len() == e.len() + 1,
        forall|i: int|
            0 <= i < e.len() ==> call_ensures(
                InstallFlow::step,
                (f[i], state, #[trigger] e[i]),
                f[i + 1],
            ),
        e == seq![
            FlowEvent::Done,
            FlowEvent::Failed(InstallError::Journal(JournalError::NotFound)),
            FlowEvent::Done,
            FlowEvent::Routed(url),
            FlowEvent::Bundled(executable),
            FlowEvent::Done,
            FlowEvent::Done,
            FlowEvent::Done,
            FlowEvent::Done,
            FlowEvent::Done,
            FlowEvent::Done,
            FlowEvent::Done,
        ],
    ensures
        f[0].phase is Lock,
        f[1].phase is Load,
        f[2].phase is CheckBinding,
        f[3].phase == (FlowPhase::Probe { manifest: true }),
        f[4].phase is InstallBundle,
        f[5].phase is PrepareNew,
        f[6].phase is RecordBundle,
        f[7].phase is Preflight,
        f[8].phase is Enroll,
        f[9].phase is Configure,
        f[10].phase is Verify,
        f[11].phase is MarkConfigured,
        f[12].phase is Finished,
        f[12].route == Some(url),
        f[12].journaled && !f[12].resuming && f[12].error is None,
        !f[5].journaled,
{
    assert(call_ensures(InstallFlow::step, (f[0], state, e[0]), f[1]));
    assert(call_ensures(InstallFlow::step, (f[1], state, e[1]), f[2]));
    assert(call_ensures(InstallFlow::step, (f[2], state, e[2]), f[3]));
    assert(call_ensures(InstallFlow::step, (f[3], state, e[3]), f[4]));
    assert(call_ensures(InstallFlow::step, (f[4], state, e[4]), f[5]));
    assert(call_ensures(InstallFlow::step, (f[5], state, e[5]), f[6]));
    assert(call_ensures(InstallFlow::step, (f[6], state, e[6]), f[7]));
    assert(call_ensures(InstallFlow::step, (f[7], state, e[7]), f[8]));
    assert(call_ensures(InstallFlow::step, (f[8], state, e[8]), f[9]));
    assert(call_ensures(InstallFlow::step, (f[9], state, e[9]), f[10]));
    assert(call_ensures(InstallFlow::step, (f[10], state, e[10]), f[11]));
    assert(call_ensures(InstallFlow::step, (f[11], state, e[11]), f[12]));
}

/// Going on with an installation: an unfinished one uses the distribution that is there and
/// does not install it again, a configured one is only verified and its profile read.
pub proof fn installations_are_gone_on_with(
    f: Seq<InstallFlow>,
    e: Seq<FlowEvent>,
    state: JournalState,
    url: String,
)
    requires
        f.len() == e.len() + 1,
        f[0].phase is Lock,
        f[0].resuming,
        !f[0].local,
        forall|i: int|
            0 <= i < e.len() ==> call_ensures(
                InstallFlow::step,
                (f[i], Some(&state), #[trigger] e[i]),
                f[i + 1],
            ),
        e.len() >= 5,
        e[0] == FlowEvent::Done,
        e[1] == FlowEvent::Done,
        e[2] == FlowEvent::Done,
        state.stage is Configured ==> e[3] == FlowEvent::Done && e[4] == FlowEvent::Bound(url),
        !(state.stage is Configured) ==> state.ticket is Some && e[3] == FlowEvent::Reused(true)
            && e[4] == FlowEvent::Routed(url),
    ensures
        f[1].phase is Load,
        state.stage is Configured ==> f[2].phase is VerifyBundle && f[3].phase is VerifyConfigured
            && f[4].phase is BindProfile && f[5].phase is Finished && f[5].route == Some(url),
        !(state.stage is Configured) ==> f[2].phase is CheckBinding && f[3].phase is Reuse
            && f[4].phase == (FlowPhase::Probe { manifest: false }) && f[5].phase is Preflight
            && f[5].route == Some(url),
        f[2].journaled,
{
    assert(call_ensures(InstallFlow::step, (f[0], Some(&state), e[0]), f[1]));
    assert(call_ensures(InstallFlow::step, (f[1], Some(&state), e[1]), f[2]));
    assert(call_ensures(InstallFlow::step, (f[2], Some(&state), e[2]), f[3]));
    assert(call_ensures(InstallFlow::step, (f[3], Some(&state), e[3]), f[4]));
    assert(call_ensures(InstallFlow::step, (f[4], Some(&state), e[4]), f[5]));
}

/// What fails an installation is what is told of it, and nothing is done after it; a journal
/// that is missing fails only what was to be gone on with, and a distribution is installed
/// again only in its own place.
pub proof fn installations_fail_for_their_reason(
    flow: InstallFlow,
    state: JournalState,
    event: FlowEvent,
    next: InstallFlow,
)
    requires
        call_ensures(InstallFlow::step, (flow, Some(&state), event), next),
    ensures
        flow.phase is Load && event == FlowEvent::Failed(
            InstallError::Journal(JournalError::NotFound),
        ) && flow.resuming ==> next.phase is Failed && next.error == Some(
            InstallError::Journal(JournalError::NotFound),
        ),
        (event matches FlowEvent::Failed(error)) && !(flow.phase is Load) && !(
        flow.phase is Finished) && !(flow.phase is Failed) ==> next.phase is Failed && next.error
            == Some(event->Failed_0),
        flow.phase is InstallBundle && flow.journaled && (event matches FlowEvent::Bundled(
            executable,
        ) && !same_path(executable@, state.executable@)) ==> next.phase is Failed && next.error
            == Some(InstallError::BundleConflict),
        flow.phase is InstallBundle && flow.journaled && (event matches FlowEvent::Bundled(
            executable,
        ) && same_path(executable@, state.executable@)) ==> next.phase is RecordBundle,
        flow.phase is Failed || flow.phase is Finished ==> next.phase == flow.phase,
        next.phase is Enroll && !(flow.phase is Enroll) ==> flow.phase is Preflight && event
            is Done,
        next.phase is MarkConfigured && !(flow.phase is MarkConfigured) ==> flow.phase is Verify
            && event is Done,
        flow.phase is Prepare && event is Done && !(state.stage is Configured) && state.ticket
            is None ==> next.phase is Failed && next.error == Some(InstallError::InvalidTicket),
        flow.phase is Load && event is Done && !flow.resuming ==> next.phase is Prepare,
{
}

/// Who may install what: a ticket that is good, for its own provider; and only an invitation
/// that has a name can be gone on with.
pub proof fn installations_begin_with_their_ticket(
    ticket: OnboardingTicket,
    verdicts: TicketVerdicts,
    provider: OnboardingProvider,
    flow: InstallFlow,
    verdict: Result<(), crate::onboarding::TicketError>,
    invite_id: crate::ids::Uuid,
    resumed: InstallFlow,
)
    requires
        call_ensures(InstallFlow::install, (&ticket, verdicts, provider), flow),
        call_ensures(OnboardingTicket::validate, (&ticket, verdicts), verdict),
        call_ensures(InstallFlow::resume, (invite_id,), resumed),
    ensures
        flow.phase is Lock <==> verdict is Ok && (ticket.provider is None || ticket.provider
            == Some(provider)),
        verdict is Err ==> flow.error == Some(InstallError::InvalidTicket),
        verdict is Ok && ticket.provider is Some && ticket.provider != Some(provider)
            ==> flow.error == Some(InstallError::ProviderMismatch),
        !flow.resuming && resumed.resuming,
        resumed.phase is Lock <==> invite_id.value != 0,
        invite_id.value == 0 ==> resumed.error == Some(InstallError::InvalidInviteId),
{
}

/// What is told of a failure: its code, whether the program was used wrongly, and, once there is
/// a journal, the command that goes on with it.
pub proof fn failures_tell_how_to_go_on(
    flow: InstallFlow,
    state: JournalState,
    told: Option<CliError>,
    command: String,
)
    requires
        call_ensures(InstallFlow::failure, (&flow, Some(&state)), told),
        call_ensures(resume_action, (&state,), command),
    ensures
        told is Some <==> flow.error is Some,
        command@ == shell_literal(state.executable@) + " onboarding resume "@ + hyphenated_text(
            state.invite_id.value,
        ) + " --provider "@ + crate::onboarding::provider_text(state.provider),
        flow.error == Some(InstallError::InvalidTicket) && !flow.journaled ==> told->0.code@
            == "invalid_ticket"@ && told->0.usage && told->0.message@
            == "provide the complete invitation JSON on stdin"@,
        flow.error == Some(InstallError::ProviderMismatch) ==> told->0.code@
            == "provider_mismatch"@ && told->0.usage,
        flow.error == Some(InstallError::InvalidInviteId) ==> told->0.code@
            == "invalid_invite_id"@ && told->0.usage,
        flow.error == Some(InstallError::NotConfigured) ==> told->0.code@
            == "onboarding_not_configured"@ && !told->0.usage,
        flow.error == Some(InstallError::BundleConflict) ==> told->0.code@
            == "bootstrap_install_conflict"@ && !told->0.usage,
        flow.error == Some(InstallError::InvalidConfiguration) ==> told->0.code@
            == "invalid_configuration"@ && !told->0.usage,
        flow.error == Some(InstallError::Journal(JournalError::Conflict)) ==> told->0.code@
            == "journal_conflict"@,
        (flow.error matches Some(InstallError::Route { code, message })) && !flow.journaled
            ==> told->0.code@ == flow.error->0->Route_code@ && told->0.message@
            == flow.error->0->Route_message@,
        flow.error == Some(InstallError::NotConfigured) && flow.journaled ==> told->0.message@
            == "this profile has no onboarding binding for the selected provider"@
            + "; preserve this invitation's journal and resume with: "@ + command@,
{
}

/// What is told of an onboarding is what its journal records, at the address that was reached;
/// what is not configured yet is told how to go on with.
pub proof fn reports_tell_what_is_recorded(
    state: JournalState,
    profile_url: &str,
    outcome: ProbeOutcome,
    told: Result<InstallReport, InstallError>,
    command: String,
)
    requires
        call_ensures(status_report, (&state, profile_url, outcome), told),
        call_ensures(resume_action, (&state,), command),
    ensures
        told is Err <==> outcome is Failed,
        told matches Ok(told) ==> told.profile@ == state.profile_name@ && told.provider
            == state.provider && told.server_id == state.server_id && told.workspace@
            == state.workspace@ && told.stage == state.stage && (told.activation@
            == if state.stage is Configured {
            "restart_required"@
        } else {
            "not_checked"@
        }) && (!(state.stage is Configured) ==> told.next_action@ == command@),
        told matches Ok(told) && outcome is Reachable ==> told->Ok_0.route@
            == outcome->Reachable_0@ && given(told->Ok_0.transport) == Some("reachable"@),
        told matches Ok(told) && outcome is NoReachableRoute ==> told->Ok_0.route@ == profile_url@
            && given(told->Ok_0.transport) == Some("unreachable"@),
{
}

/// The status of an onboarding is told in order: the journal, its profile, and, once it is
/// configured, the distribution and what was installed; last its routes are tried.
pub proof fn statuses_are_told_in_order(
    state: JournalState,
    profile_name: &str,
    a: Result<StatusPhase, InstallError>,
    b: Result<StatusPhase, InstallError>,
    c: Result<StatusPhase, InstallError>,
    d: Result<StatusPhase, InstallError>,
    e: Result<StatusPhase, InstallError>,
)
    requires
        call_ensures(next_status, (StatusPhase::Load, &state, profile_name), a),
        call_ensures(next_status, (StatusPhase::BindProfile, &state, profile_name), b),
        call_ensures(next_status, (StatusPhase::VerifyBundle, &state, profile_name), c),
        call_ensures(next_status, (StatusPhase::VerifyRecorded, &state, profile_name), d),
        call_ensures(next_status, (StatusPhase::Probe, &state, profile_name), e),
    ensures
        a == Ok::<_, InstallError>(StatusPhase::BindProfile),
        state.profile_name@ != profile_name@ ==> b == Err::<StatusPhase, _>(
            InstallError::InvalidConfiguration,
        ),
        state.profile_name@ == profile_name@ && state.stage is Configured ==> b == Ok::<
            _,
            InstallError,
        >(StatusPhase::VerifyBundle),
        state.profile_name@ == profile_name@ && !(state.stage is Configured) ==> b == Ok::<
            _,
            InstallError,
        >(StatusPhase::Probe),
        c == Ok::<_, InstallError>(StatusPhase::VerifyRecorded),
        d == Ok::<_, InstallError>(StatusPhase::Probe),
        e == Ok::<_, InstallError>(StatusPhase::Told),
{
}

/// A file is published in order: looked at, planned, looked at again, placed where there is
/// none, seen to be the very one, written out and only then counted.
pub proof fn files_are_published_in_order(
    one: &mut FilePublication,
    actions: Vec<ActionRecord>,
    event: PublishEvent,
)
    requires
        call_ensures(FilePublication::step, (one, &actions, event), ()),
    ensures
        final(one).record == old(one).record,
        old(one).phase is Plan && event is Planned ==> final(one).phase is Look && final(one).index
            == event->Planned_0,
        old(one).phase is Look && event == PublishEvent::Hash(FileHash::Absent) ==> final(
            one).phase is Place,
        old(one).phase is Look && (event matches PublishEvent::Hash(FileHash::Hash(_))) ==> final(
            one).phase is Confirm,
        old(one).phase is Place && event is Done ==> final(one).phase is Confirm,
        old(one).phase is Confirm && (event matches PublishEvent::Hash(FileHash::Hash(digest))
            && digest@ == old(one).record.sha256@) ==> final(one).phase is Sync,
        old(one).phase is Confirm && (event matches PublishEvent::Hash(FileHash::Hash(digest))
            && digest@ != old(one).record.sha256@) ==> final(one).phase == PublishPhase::Failed(
            ProviderInstallError::Conflict,
        ),
        old(one).phase is Confirm && event == PublishEvent::Hash(FileHash::Absent) ==> final(
            one).phase == PublishPhase::Failed(ProviderInstallError::Conflict),
        old(one).phase is Sync && event is Done ==> final(one).phase is Apply,
        old(one).phase is Apply && event is Done ==> final(one).phase is Published,
        final(one).phase is Place && !(old(one).phase is Place) ==> old(one).phase is Look && event
            == PublishEvent::Hash(FileHash::Absent),
        final(one).phase is Published && !(old(one).phase is Published) ==> old(one).phase is Apply
            && event is Done,
        (event matches PublishEvent::Failed(error)) && !(old(one).phase is Published) && !(old(
            one).phase is Failed) ==> final(one).phase == PublishPhase::Failed(event->Failed_0),
{
}

/// Which files may be installed over: one that is there must be the very one and planned before;
/// one that is not there must not have been applied, nor planned with other bytes.
pub proof fn files_are_installed_over_their_own(
    actions: Vec<ActionRecord>,
    record: RecordedFile,
    hash: FileHash,
    checked: Result<(), ProviderInstallError>,
)
    requires
        call_ensures(check_file, (&actions, &record, &hash), checked),
    ensures
        (hash matches FileHash::Hash(digest) && digest@ != record.sha256@) ==> checked == Err::<
            (),
            _,
        >(ProviderInstallError::Conflict),
        hash matches FileHash::Failed(error) ==> checked == Err::<(), _>(error),
        hash is Absent && actions@.len() == 0 ==> checked is Ok,
        hash is Hash && actions@.len() == 0 ==> checked == Err::<(), _>(
            ProviderInstallError::Conflict,
        ),
        actions@.len() == 1 && (actions@[0].intent matches InstallAction::File { path, sha256 }
            && path@ == record.path@ && sha256@ == record.sha256@) ==> {
            &&& (hash matches FileHash::Hash(digest) && digest@ == record.sha256@) ==> checked is Ok
            &&& hash is Absent ==> (checked is Ok <==> actions@[0].status is Planned)
        },
{
    reveal_with_fuel(status_of, 2);
    reveal_with_fuel(crate::onboarding::setup::record_of_file, 2);
}

/// A step that is not registered yet, where nothing goes wrong: the files are tried, the
/// registry is looked at, the action is planned, the place is looked at right before the
/// command, the command is run, and the registry shows it. Then it counts.
pub proof fn steps_are_taken_in_order(
    s: Seq<StepSetup>,
    e: Seq<StepEvent>,
    installer: ProviderInstaller,
    state: JournalState,
    step: Step,
    index: usize,
)
    requires
        call_ensures(StepSetup::begin, (step,), s[0]),
        !(step is OmpLink),
        s.len() == e.len() + 1,
        forall|i: int| 0 <= i < e.len() ==> set_up(s[i], installer, state, #[trigger] e[i], s[i + 1]),
        crate::onboarding::setup::step_status(installer, state.actions@, step) != Some(
            ActionStatus::Applied,
        ),
        e == seq![
            StepEvent::Done,
            StepEvent::Registered(Registered::Absent),
            StepEvent::Linked(false),
            StepEvent::Planned(index),
            StepEvent::Linked(false),
            StepEvent::Ran(None),
            StepEvent::Registered(Registered::Exact),
            StepEvent::Done,
        ],
    ensures
        s[0].phase is Destinations,
        s[1].phase is Inspect,
        s[2].phase is CheckLink,
        s[3].phase is Plan,
        s[4].phase is Recheck,
        s[5].phase is Run,
        s[6].phase is Observe,
        s[7].phase is Apply,
        s[8].phase is Taken,
        s[8].index == index,
        s[8].step == step,
{
    assert(set_up(s[0], installer, state, e[0], s[1]));
    assert(set_up(s[1], installer, state, e[1], s[2]));
    assert(set_up(s[2], installer, state, e[2], s[3]));
    assert(set_up(s[3], installer, state, e[3], s[4]));
    assert(set_up(s[4], installer, state, e[4], s[5]));
    assert(set_up(s[5], installer, state, e[5], s[6]));
    assert(set_up(s[6], installer, state, e[6], s[7]));
    assert(set_up(s[7], installer, state, e[7], s[8]));
}

/// A step goes from one state to the next.
pub open spec fn set_up(
    a: StepSetup,
    installer: ProviderInstaller,
    state: JournalState,
    event: StepEvent,
    b: StepSetup,
) -> bool {
    &&& b.phase == crate::onboarding::setup::step_next(a, installer, state, event)
    &&& b.step == a.step
    &&& a.phase is Inspect && event is Registered ==> b.before == event->Registered_0
    &&& !(a.phase is Inspect && event is Registered) ==> b.before == a.before
    &&& a.phase is Plan && event is Planned ==> b.index == event->Planned_0
    &&& !(a.phase is Plan && event is Planned) ==> b.index == a.index
    &&& a.phase is Observe && event is Registered ==> b.after == event->Registered_0
    &&& a.phase is Run && event is Ran ==> b.effect == event->Ran_0
}

/// Every call of a step does so.
pub proof fn steps_are_set_up(
    s: &mut StepSetup,
    installer: ProviderInstaller,
    state: JournalState,
    event: StepEvent,
)
    requires
        call_ensures(StepSetup::step, (s, &installer, &state, event), ()),
    ensures
        set_up(*old(s), installer, state, event, *final(s)),
{
}

/// How a step fails: where the command leaves nothing registered, as the command failed; where
/// something is registered but not as it should be, as a conflict; a disabled plugin of the
/// provider stays disabled.
pub proof fn steps_fail_for_their_reason(
    s: &mut StepSetup,
    installer: ProviderInstaller,
    state: JournalState,
    event: StepEvent,
)
    requires
        call_ensures(StepSetup::step, (s, &installer, &state, event), ()),
    ensures
        old(s).phase is Observe && event == StepEvent::Registered(Registered::Absent) ==> final(
            s).phase == StepPhase::Failed(
            if old(s).effect is Some {
                old(s).effect->0
            } else {
                ProviderInstallError::CommandFailed
            },
        ),
        old(s).phase is Observe && event == StepEvent::Registered(Registered::Disabled) && old(
            s).step is ClaudePlugin ==> final(s).phase == StepPhase::Failed(
            ProviderInstallError::ClaudeDisabled,
        ),
        old(s).phase is Observe && event == StepEvent::Registered(Registered::Disabled) && (old(
            s).step is CodexMcp || old(s).step is ClaudeMcp || old(s).step is ClaudeMarketplace)
            ==> final(s).phase == StepPhase::Failed(ProviderInstallError::Conflict),
        old(s).phase is ConfirmLink && event == StepEvent::Linked(false) ==> final(s).phase
            == StepPhase::Failed(ProviderInstallError::Conflict),
        old(s).phase is ObserveEnabled && (event matches StepEvent::Registered(after) && !(
        after is Exact)) && old(s).effect is None ==> final(s).phase == StepPhase::Failed(
            ProviderInstallError::OmpDisabled,
        ),
        old(s).phase is ObserveEnabled && event == StepEvent::Registered(Registered::Exact)
            ==> final(s).phase is ApplyEnable,
        old(s).phase is PlanEnable && event is Planned ==> final(s).phase is Enable,
        old(s).phase is Enable && event is Ran ==> final(s).phase is ObserveEnabled,
        old(s).phase is Reconcile && event is Done ==> final(s).phase is Apply,
        final(s).phase is Run && !(old(s).phase is Run) ==> old(s).phase is Recheck && event
            is Linked,
        final(s).phase is Taken && !(old(s).phase is Taken) ==> old(s).phase is Apply && event
            is Done,
        (event matches StepEvent::Failed(error)) && !(old(s).phase is Taken) && !(old(s).phase
            is Failed) ==> final(s).phase == StepPhase::Failed(event->Failed_0),
{
}

/// Which registrations can be gone on from: what is there must be recorded as this program's
/// own, and what was applied must be there.
pub proof fn registrations_are_gone_on_from(
    installer: ProviderInstaller,
    step: Step,
    registered: Registered,
    state: JournalState,
    checked: Result<(), ProviderInstallError>,
)
    requires
        call_ensures(
            ProviderInstaller::accept_registration,
            (&installer, step, registered, &state),
            checked,
        ),
    ensures
        state.actions@.len() == 0 ==> (checked is Ok <==> registered is Absent),
        state.actions@.len() == 0 && registered is Exact ==> checked == Err::<(), _>(
            ProviderInstallError::Conflict,
        ),
        registered is Disabled && step is ClaudePlugin ==> checked == Err::<(), _>(
            ProviderInstallError::ClaudeDisabled,
        ),
        registered is Disabled && (step is CodexMcp || step is ClaudeMcp
            || step is ClaudeMarketplace) ==> checked == Err::<(), _>(
            ProviderInstallError::Conflict,
        ),
        registered is Disabled && step is OmpLink && state.stage is Configured ==> checked == Err::<
            (),
            _,
        >(ProviderInstallError::OmpDisabled),
        state.actions@.len() == 1 && crate::onboarding::providers::step_intent(
            installer,
            step,
            state.actions@[0].intent,
        ) ==> {
            &&& registered is Exact ==> checked is Ok
            &&& registered is Absent ==> (checked is Ok <==> state.actions@[0].status is Planned)
        },
{
    reveal_with_fuel(crate::onboarding::setup::step_status, 2);
}

/// A provider is configured in order: the paths and the registrations are checked, every file
/// is published, every step is taken, the record of ownership is published and everything is
/// verified; the first fault ends it.
pub proof fn providers_are_configured_in_order(
    installer: ProviderInstaller,
    state: JournalState,
    first: ConfigurePhase,
    phase: ConfigurePhase,
    fault: Option<ProviderInstallError>,
    next: ConfigurePhase,
)
    requires
        call_ensures(ProviderInstaller::begin_configure, (&installer, &state), first),
        call_ensures(ProviderInstaller::next_configure, (&installer, phase, fault), next),
    ensures
        first is CheckPaths <==> !(state.stage is Prepared) && state.provider == installer.provider
            && same_path(state.executable@, installer.executable@) && state.profile_name@
            == installer.profile@ && state.invite_id == installer.invite_id && state.enrollment_id
            == installer.enrollment_id,
        !(first is CheckPaths) ==> first == ConfigurePhase::Failed(ProviderInstallError::Conflict),
        fault is Some && !(phase is Configured) && !(phase is Failed) ==> next
            == ConfigurePhase::Failed(fault->0),
        fault is None && phase is CheckPaths ==> next is CheckRegistrations,
        fault is None && phase is CheckRegistrations && installer.files@.len() > 0 ==> next
            == ConfigurePhase::PublishFile(0),
        fault is None && phase is CheckRegistrations && installer.files@.len() == 0
            && installer.steps@.len() > 0 ==> next == ConfigurePhase::TakeStep(0),
        fault is None && (phase matches ConfigurePhase::PublishFile(i) && i + 1
            < installer.files@.len()) ==> next == ConfigurePhase::PublishFile(
            (phase->PublishFile_0 + 1) as usize,
        ),
        fault is None && (phase matches ConfigurePhase::PublishFile(i) && i + 1
            == installer.files@.len()) && installer.steps@.len() > 0 ==> next
            == ConfigurePhase::TakeStep(0),
        fault is None && (phase matches ConfigurePhase::TakeStep(i) && i + 1
            < installer.steps@.len()) ==> next == ConfigurePhase::TakeStep(
            (phase->TakeStep_0 + 1) as usize,
        ),
        fault is None && (phase matches ConfigurePhase::TakeStep(i) && i + 1
            == installer.steps@.len()) ==> next is PublishOwnership,
        fault is None && phase is PublishOwnership ==> next is Verify,
        fault is None && phase is Verify ==> next is Configured,
{
}

/// What is checked before anything is installed, in order; the planner of links is asked for the
/// plugin host alone, and only what is pending may need enabling.
pub proof fn preflights_run_in_order(
    installer: ProviderInstaller,
    phase: PreflightPhase,
    state: JournalState,
    event: PreflightEvent,
    next: PreflightPhase,
    pending: bool,
)
    requires
        call_ensures(ProviderInstaller::preflight, (&installer, phase, &state, event), next),
        call_ensures(ProviderInstaller::pending_link, (&installer, &state), pending),
    ensures
        phase is Layout && event is Done ==> next is Paths,
        phase is Paths && event is Done ==> next is Features,
        phase is Features && event is Done ==> next is Registrations,
        phase is Registrations && event is Done ==> next == if installer.provider is Omp {
            PreflightPhase::LinkPlan
        } else {
            PreflightPhase::LinkPlace
        },
        phase is LinkPlan && event == PreflightEvent::Planned(LinkPlan::Ready) ==> next
            is LinkPlace,
        phase is LinkPlan && event == PreflightEvent::Planned(LinkPlan::EnableRequired) ==> next
            == if pending {
            PreflightPhase::LinkPlace
        } else {
            PreflightPhase::Failed(ProviderInstallError::OmpDisabled)
        },
        phase is LinkPlan && event == PreflightEvent::Planned(LinkPlan::SetupConflict) ==> next
            == PreflightPhase::Failed(ProviderInstallError::Conflict),
        phase is LinkPlan && event == PreflightEvent::Planned(LinkPlan::Failed) ==> next
            == PreflightPhase::Failed(ProviderInstallError::Requirement(installer.provider)),
        phase is LinkPlace && event is Done ==> next is Ready,
        (event matches PreflightEvent::Failed(error)) && !(phase is Ready) && !(phase is Failed)
            ==> next == PreflightPhase::Failed(event->Failed_0),
        next is Ready && !(phase is Ready) ==> phase is LinkPlace && event is Done,
{
}

/// A file is put where there is none in order: made, written, renamed where nothing is, and its
/// directory written out; whatever happens, nothing is left under the other name.
pub proof fn files_are_placed_in_order(phase: PlacePhase, event: PlaceEvent, next: PlacePhase)
    requires
        call_ensures(PlacePhase::next, (phase, event), next),
    ensures
        phase is Create && event is Done ==> next is Write,
        phase is Create && !(event is Done) ==> next == PlacePhase::Failed(
            ProviderInstallError::Permission,
        ),
        phase is Write && event is Done ==> next is Rename,
        phase is Write && !(event is Done) ==> next == PlacePhase::Unlink(
            Some(ProviderInstallError::Io),
        ),
        phase is Rename && event is Done ==> next is Sync,
        phase is Rename && event is Exists ==> next == PlacePhase::Unlink(
            Some(ProviderInstallError::Conflict),
        ),
        phase is Rename && event is Failed ==> next == PlacePhase::Unlink(
            Some(ProviderInstallError::Io),
        ),
        phase is Sync && event is Done ==> next == PlacePhase::Unlink(None),
        phase is Sync && !(event is Done) ==> next == PlacePhase::Unlink(
            Some(ProviderInstallError::Io),
        ),
        phase == PlacePhase::Unlink(None) ==> next is Placed,
        (phase matches PlacePhase::Unlink(Some(error))) ==> next == PlacePhase::Failed(
            phase->Unlink_0->0,
        ),
{
}

/// Which program is run: the first of the places that has one that may be run.
pub proof fn programs_are_the_first_that_run(
    places: Vec<ProgramFacts>,
    provider: OnboardingProvider,
    place: Result<usize, ProviderInstallError>,
    i: int,
)
    requires
        call_ensures(choose_program, (&places, provider), place),
        0 <= i < places@.len(),
        places@[i].there && places@[i].is_file && places@[i].mode & 0o111 != 0,
        forall|j: int|
            0 <= j < i ==> !((#[trigger] places@[j]).there && places@[j].is_file && places@[j].mode
                & 0o111 != 0),
    ensures
        place is Ok ==> place->Ok_0 == i,
{
    assert(crate::onboarding::host::runnable(places@[i]));
    if place is Ok {
        let found = place->Ok_0;
        assert(crate::onboarding::host::runnable(places@[found as int]));
        assert(found >= i);
    }
}

/// Whose files are the user's own: plain ones of the user's, under one name, that no one else may
/// change, and where they are private, not even read.
pub proof fn own_files_are_the_users(
    facts: FileFacts,
    uid: u32,
    private: bool,
    checked: Result<(), ProviderInstallError>,
)
    requires
        call_ensures(valid_file, (&facts, uid, private), checked),
    ensures
        checked is Ok <==> facts.is_file && facts.uid == uid && facts.links == 1 && facts.mode
            & 0o022 == 0 && (private ==> facts.mode & 0o777 == 0o600),
        checked is Err ==> checked == Err::<(), _>(ProviderInstallError::Permission),
{
}

/// Which path the environment names: an absolute one as it is, another one below the current
/// directory, one from a tilde below the home directory; where nothing is named, the default.
pub proof fn environments_name_paths(
    value: EnvValue,
    home: EnvValue,
    default: Option<&str>,
    current: Option<&str>,
    path: Result<String, ProviderInstallError>,
)
    requires
        call_ensures(environment_path, (value, home, default, current), path),
    ensures
        value is Opaque ==> path == Err::<String, _>(ProviderInstallError::Permission),
        (value matches EnvValue::Text(text) && absolute(text@) && crate::text::no_control(text@)
            && !goes_up(text@) && text@.len() > 0 && !crate::onboarding::host::from_home(text@))
            ==> (path matches Ok(whole) && whole@ == value->Text_0@),
        (value matches EnvValue::Text(text) && !absolute(text@) && crate::text::no_control(text@)
            && !goes_up(text@) && text@.len() > 0 && !crate::onboarding::host::from_home(text@))
            && current is Some ==> (path matches Ok(whole) && whole@ == joined(
            current->0@,
            value->Text_0@,
        )),
        (value matches EnvValue::Text(text) && goes_up(text@)
            && !crate::onboarding::host::from_home(text@)) ==> path == Err::<String, _>(
            ProviderInstallError::Permission,
        ),
        value is Unset && default is None ==> path == Err::<String, _>(
            ProviderInstallError::Permission,
        ),
        value is Unset && default is Some && absolute(default->0@) && crate::text::no_control(
            default->0@,
        ) && !goes_up(default->0@) && default->0@.len() > 0 ==> (path matches Ok(whole) && whole@
            == default->0@),
{
}

/// A walk to a directory opens its names one behind the other, makes a missing one only where it
/// may and only in the user's own directory, and finds only what the user owns.
pub proof fn walks_open_one_name_at_a_time(walk: &mut DirectoryWalk, event: WalkEvent)
    requires
        old(walk).wf(),
        call_ensures(DirectoryWalk::step, (walk, event), ()),
    ensures
        final(walk).names == old(walk).names && final(walk).uid == old(walk).uid,
        (old(walk).phase matches WalkPhase::Open(i)) && event is Missing && final(walk).phase
            is TryAccess ==> old(walk).current.uid == old(walk).uid && old(walk).current.mode
            & 0o300 == 0o300,
        (old(walk).phase matches WalkPhase::Open(i)) && event is Missing && !(old(walk).current.uid
            == old(walk).uid) ==> final(walk).phase == WalkPhase::Failed(
            ProviderInstallError::Permission,
        ),
        (old(walk).phase matches WalkPhase::TryAccess(i)) && event is Done ==> final(walk).phase
            == if old(walk).create {
            WalkPhase::Make(old(walk).phase->TryAccess_0)
        } else {
            WalkPhase::Absent
        },
        (old(walk).phase matches WalkPhase::Make(i)) && event is Done ==> final(walk).phase
            == WalkPhase::SyncMade(old(walk).phase->Make_0),
        (old(walk).phase matches WalkPhase::Make(i)) && event is Exists ==> final(walk).phase
            == WalkPhase::Failed(ProviderInstallError::Conflict),
        (old(walk).phase matches WalkPhase::SyncMade(i)) && event is Done ==> final(walk).phase
            == WalkPhase::Reopen(old(walk).phase->SyncMade_0),
        (old(walk).phase matches WalkPhase::Open(i) && i + 1 < old(walk).names@.len()) && (
        event matches WalkEvent::Opened(facts) && facts.uid == old(walk).uid && facts.mode & 0o777
            == 0o700 && facts.mode & 0o022 == 0) ==> final(walk).phase == WalkPhase::Open(
            (old(walk).phase->Open_0 + 1) as usize,
        ),
        (old(walk).phase is Open) && (event matches WalkEvent::Opened(facts) && facts.uid != old(
            walk).uid && facts.uid != 0) ==> final(walk).phase == WalkPhase::Failed(
            ProviderInstallError::Permission,
        ),
        old(walk).phase is TryLast && event is Done ==> final(walk).phase is Found,
        final(walk).phase is Found && !(old(walk).phase is Found) && !(old(walk).phase is TryLast)
            ==> (event matches WalkEvent::Opened(facts) && facts.uid == old(walk).uid),
        event is Untold && !(old(walk).phase is Found) && !(old(walk).phase is Absent) && !(old(
            walk).phase is Failed) ==> final(walk).phase == WalkPhase::Failed(
            ProviderInstallError::Io,
        ),
{
}

/// A profile is bound to a journal exactly where it is of the same server and its binding of the
/// provider is of the same workspace and credential, and it has a route; the record of
/// ownership lies below the configuration, by the provider's name.
pub proof fn profiles_are_bound_to_their_journal(
    profile: OnboardingProfile,
    state: JournalState,
    checked: Result<(), InstallError>,
    none: Result<(), InstallError>,
    root: &str,
    path: String,
)
    requires
        call_ensures(check_profile, (Some(&profile), &state), checked),
        call_ensures(check_profile, (None, &state), none),
        call_ensures(ownership_path, (root, state.provider), path),
    ensures
        none == Err::<(), _>(InstallError::NotConfigured),
        checked is Ok ==> profile.server_id == Some(state.server_id) && profile.routes@.len() > 0
            && exists|i: int|
            0 <= i < profile.bindings@.len() && is_binding(#[trigger] profile.bindings@[i], state),
        profile.server_id == Some(state.server_id) && profile.routes@.len() > 0
            && profile.bindings@.len() == 1 && is_binding(profile.bindings@[0], state) ==> checked
            is Ok,
        checked is Err ==> checked == Err::<(), _>(InstallError::InvalidConfiguration),
        path@ == joined(
            joined(root@, "onboarding/installations"@),
            crate::onboarding::provider_text(state.provider) + ".json"@,
        ),
{
    reveal_with_fuel(crate::onboarding::install::binding_from, 2);
    if checked is Ok {
        let place = crate::onboarding::install::binding_from(
            profile.bindings@,
            state.provider,
            0,
        );
        bindings_are_found_by_provider(profile.bindings@, state.provider, 0);
        assert(is_binding(profile.bindings@[place], state));
    }
}

/// What a journal binds a profile to.
pub open spec fn is_binding(binding: ProfileBinding, state: JournalState) -> bool {
    &&& binding.provider == state.provider
    &&& binding.workspace@ == state.workspace@
    &&& same_path(binding.credential_file@, state.credential_file@)
}

proof fn bindings_are_found_by_provider(
    bindings: Seq<ProfileBinding>,
    provider: OnboardingProvider,
    from: int,
)
    requires
        0 <= from <= bindings.len(),
    ensures
        ({
            let place = crate::onboarding::install::binding_from(bindings, provider, from);
            &&& from <= place <= bindings.len()
            &&& place < bindings.len() ==> bindings[place].provider == provider
        }),
    decreases bindings.len() - from,
{
    if from < bindings.len() {
        bindings_are_found_by_provider(bindings, provider, from + 1);
    }
}

} // verus!
