//! What holds of a journal as a whole: how an onboarding is prepared, enrolled and recorded, and
//! how each record comes to last.

use vstd::prelude::*;

use crate::credentials::CredentialFile;
use crate::digest::sha256_text;
use crate::ids::{hyphenated_text, simple_text, Uuid};
use crate::onboarding::changes::{
    Journal, PersistEvent, PersistPhase, Persistence, PlanStep, StateFile,
};
use crate::onboarding::enroll::{
    check_head, check_response, check_resumed, enroll_next, enrollment_request, located,
    prepare_step, EnrollEvent, EnrollPhase, Enrollment, PrepareEvent, PreparePhase, Preparation,
    ReplyHead,
};
use crate::onboarding::journal::{
    check_credential_file, check_lock, check_state_file, claims_ok, config_error, credential_error,
    executable_fault, open_error, validate_action, validate_claims, validate_directory,
    validate_executable, validate_private_file, validate_state, ConfigError, CredentialError,
    ExecutableFacts, InstallAction, JournalError, JournalState, LockOutcome, OpenFacts,
    StateVerdicts,
};
use crate::onboarding::{
    EnrollmentRequest, EnrollmentResponse, OnboardingInfo, OnboardingProvider, OnboardingRoute,
    OnboardingTicket,
};
use crate::paths::{absolute, joined, parent_of, same_path, steady};
use crate::protocol::WorkspaceName;
use crate::text::{has_part, opt_text};

verus! {

/// A preparation goes from one state to the next.
pub proof fn preparations_take_steps(p: &mut Preparation, event: PrepareEvent)
    requires
        call_ensures(Preparation::step, (p, event), ()),
    ensures
        prepare_step(*old(p), event, *final(p)),
{
}

/// A new onboarding, where nothing goes wrong: the program is looked at, the directories are
/// made, nothing is recorded yet, the configuration agrees, a credential is made and written,
/// and the journal is made to last. It is of the ticket, the provider and the program that were
/// asked for, and of the enrollment that was drawn.
pub proof fn onboardings_are_prepared_in_order(
    p: Seq<Preparation>,
    e: Seq<PrepareEvent>,
    facts: ExecutableFacts,
    current: Option<String>,
    credential: CredentialFile,
)
    requires
        p.len() == e.len() + 1,
        forall|i: int| 0 <= i < e.len() ==> prepare_step(p[i], #[trigger] e[i], p[i + 1]),
        p[0].phase is Executable,
        executable_fault(p[0].executable@, facts) is None,
        located(p[0], opt_text(current)) is Ok,
        claims_ok(credential, p[0].ticket.invite_id, p[0].provider, p[0].ticket.workspace@),
        e == seq![
            PrepareEvent::Opened(facts),
            PrepareEvent::Current(current),
            PrepareEvent::Done,
            PrepareEvent::Failed(JournalError::NotFound),
            PrepareEvent::Done,
            PrepareEvent::Failed(JournalError::NotFound),
            PrepareEvent::Credential(credential),
            PrepareEvent::Done,
            PrepareEvent::Done,
        ],
    ensures
        p[1].phase is Locate,
        p[2].phase is Directories,
        p[3].phase is ReadState,
        p[4].phase is CheckBinding,
        p[5].phase is ReadCredential,
        p[6].phase is Generate,
        p[7].phase is Publish,
        p[8].phase is Persist,
        p[9].phase is Ready,
        p[9].credential == Some(credential),
        p[9].journal matches Some(journal) && journal.state.stage is Prepared
            && journal.state.version == 1 && journal.state.invite_id == p[0].ticket.invite_id
            && journal.state.provider == p[0].provider && journal.state.server_id
            == p[0].ticket.server_id && journal.state.profile_name@ == p[0].ticket.profile_name@
            && journal.state.workspace@ == p[0].ticket.workspace@ && journal.state.enrollment_id
            == p[0].enrollment_id && journal.state.executable@ == p[0].executable@
            && journal.state.manifest_sha256@ == p[0].ticket.manifest_sha256@
            && journal.state.credential_file@ == joined(p[9].path@, "credential.json"@)
            && journal.state.actions@.len() == 0 && (journal.state.ticket matches Some(ticket)
            && ticket.same(p[0].ticket)),
{
    assert(prepare_step(p[0], e[0], p[1]));
    assert(prepare_step(p[1], e[1], p[2]));
    assert(prepare_step(p[2], e[2], p[3]));
    assert(prepare_step(p[3], e[3], p[4]));
    assert(prepare_step(p[4], e[4], p[5]));
    assert(prepare_step(p[5], e[5], p[6]));
    assert(prepare_step(p[6], e[6], p[7]));
    assert(prepare_step(p[7], e[7], p[8]));
    assert(prepare_step(p[8], e[8], p[9]));
}

/// Where a journal lies: below the directory of the configuration, by its invitation and its
/// provider.
pub proof fn journals_lie_beside_the_configuration(
    p: Preparation,
    current: Option<Seq<char>>,
)
    requires
        located(p, current) is Ok,
    ensures
        ({
            let (whole, path) = located(p, current)->Ok_0;
            &&& absolute(p.config_path@) ==> whole == p.config_path@
            &&& !absolute(p.config_path@) ==> current is Some && whole == joined(
                current->0,
                p.config_path@,
            )
            &&& parent_of(whole) matches Some(parent)
            &&& path == joined(
                joined(
                    joined(parent, "onboarding"@),
                    hyphenated_text(p.ticket.invite_id.value),
                ),
                crate::onboarding::provider_text(p.provider),
            )
        }),
{
}

/// A journal that is there already is gone on with exactly where it is of the same server,
/// profile, workspace, assets and program, and of the same ticket where it has one still.
pub proof fn journals_are_resumed_by_their_own(
    state: JournalState,
    ticket: OnboardingTicket,
    executable: &str,
    checked: Result<(), JournalError>,
)
    requires
        call_ensures(check_resumed, (&state, &ticket, executable), checked),
    ensures
        checked is Ok <==> state.server_id == ticket.server_id && state.profile_name@
            == ticket.profile_name@ && state.workspace@ == ticket.workspace@
            && state.manifest_sha256@ == ticket.manifest_sha256@ && same_path(
            state.executable@,
            executable@,
        ) && (state.ticket is Some ==> state.ticket->0.same(ticket)),
        checked is Err ==> checked == Err::<(), _>(JournalError::Conflict),
{
}

/// What is wrong on the way to a prepared onboarding is reported for what it is; a credential
/// that is left counts only where it is the one of the invitation, and is not made again.
pub proof fn preparations_fail_for_their_reason(
    a: Preparation,
    event: PrepareEvent,
    b: Preparation,
)
    requires
        prepare_step(a, event, b),
    ensures
        a.phase is ReadCredential && (event matches PrepareEvent::Credential(credential)
            && claims_ok(
            credential,
            a.ticket.invite_id,
            a.provider,
            a.ticket.workspace@,
        )) ==> b.phase is Persist && b.credential == a.credential,
        a.phase is ReadCredential && (event matches PrepareEvent::Credential(credential)
            && !claims_ok(
            credential,
            a.ticket.invite_id,
            a.provider,
            a.ticket.workspace@,
        )) ==> b.phase == PreparePhase::Failed(JournalError::ClaimsMismatch),
        a.phase is Generate && event is Failed ==> b.phase == PreparePhase::Failed(
            JournalError::Io,
        ),
        a.phase is ReadState && (event matches PrepareEvent::Failed(error) && !(
        error is NotFound)) ==> b.phase == PreparePhase::Failed(event->Failed_0),
        (a.phase is Directories || a.phase is Load || a.phase is CheckBinding || a.phase is Publish
            || a.phase is Persist) && event is Failed ==> b.phase == PreparePhase::Failed(
            event->Failed_0,
        ),
        a.phase is ReadState && event is Done ==> b.phase is Load,
        a.phase is Load && event is Loaded && b.phase is Ready ==> b.journal == Some(
            event->Loaded_0,
        ),
        b.phase is Generate && !(a.phase is Generate) ==> a.phase is ReadCredential && event
            == PrepareEvent::Failed(JournalError::NotFound),
        a.phase is Failed || a.phase is Ready ==> b.phase == a.phase,
{
}

/// The request that an enrollment makes: for the journal's own server, invitation, provider and
/// enrollment, with the secret of its ticket and the credential's identifier and secret.
pub proof fn enrollments_ask_for_their_credential(
    state: JournalState,
    credential: CredentialFile,
    request: Option<EnrollmentRequest>,
)
    requires
        call_ensures(enrollment_request, (&state, &credential), request),
    ensures
        request is Some <==> state.ticket is Some,
        request matches Some(request) ==> request.version == 1 && request.server_id
            == state.server_id && request.invite_id == state.invite_id && request.invite_token@
            == state.ticket->0.invite_token@ && request.enrollment_id == state.enrollment_id
            && request.provider == state.provider && request.credential_id == credential.id
            && request.credential_token@ == credential.token@,
{
}

/// An enrollment, where nothing goes wrong: the journal is as it was left, the credential is
/// read, the configuration agrees, the certificates are stored, the request is sent, the answer
/// is read and confirms the credential, the journal lasts as enrolled and the configuration
/// tells of it.
pub proof fn enrollments_run_in_order(
    journal: Journal,
    credential: CredentialFile,
    file: StateFile,
    length: usize,
    head: ReplyHead,
    response: EnrollmentResponse,
    held: nat,
    checked: Result<(), JournalError>,
    unchanged: Result<(), JournalError>,
    confirmed: Result<(), JournalError>,
)
    requires
        call_ensures(Journal::assert_unchanged, (&journal, &file), unchanged),
        unchanged is Ok,
        length <= 4_096,
        call_ensures(check_head, (&head,), checked),
        checked is Ok,
        call_ensures(check_response, (&response, &journal.state, &credential), confirmed),
        confirmed is Ok,
        journal.state.ticket is Some,
    ensures
        enroll_next(EnrollPhase::Unchanged, None, held, journal, EnrollEvent::State(file))
            is Credential,
        enroll_next(
            EnrollPhase::Credential,
            None,
            held,
            journal,
            EnrollEvent::Credential(credential),
        ) is CheckBinding,
        enroll_next(
            EnrollPhase::CheckBinding,
            Some(credential),
            held,
            journal,
            EnrollEvent::Done,
        ) is StoreRoutes,
        enroll_next(EnrollPhase::StoreRoutes, Some(credential), held, journal, EnrollEvent::Done)
            is Encode,
        enroll_next(
            EnrollPhase::Encode,
            Some(credential),
            held,
            journal,
            EnrollEvent::Encoded(Some(length)),
        ) is Exchange,
        enroll_next(
            EnrollPhase::Exchange,
            Some(credential),
            held,
            journal,
            EnrollEvent::Head(head),
        ) is ReadBody,
        enroll_next(EnrollPhase::ReadBody, Some(credential), held, journal, EnrollEvent::End)
            is Decode,
        enroll_next(
            EnrollPhase::Decode,
            Some(credential),
            held,
            journal,
            EnrollEvent::Response(Some(response)),
        ) is Persist,
        enroll_next(EnrollPhase::Persist, Some(credential), held, journal, EnrollEvent::Done)
            is Publish,
        enroll_next(EnrollPhase::Publish, Some(credential), held, journal, EnrollEvent::Done)
            is Enrolled,
{
}

/// What is wrong on the way to an enrolled journal is reported for what it is, and an answer is
/// read piece by piece up to its bound.
pub proof fn enrollments_fail_for_their_reason(
    e: &mut Enrollment,
    journal: Journal,
    event: EnrollEvent,
)
    requires
        old(e).wf(),
        call_ensures(Enrollment::step, (e, &journal, event), ()),
    ensures
        old(e).phase is Encode && event is Encoded && !(event->Encoded_0 is Some
            && event->Encoded_0->0 <= 4_096) ==> final(e).phase == EnrollPhase::Failed(
            JournalError::Invalid,
        ),
        (old(e).phase is Exchange || old(e).phase is ReadBody) && event is Unreachable ==> final(
            e).phase == EnrollPhase::Failed(JournalError::Unavailable),
        old(e).phase is ReadBody && (event matches EnrollEvent::Chunk(chunk) && old(
            e).body.held().len() + chunk@.len() <= 4_096) ==> final(e).phase is ReadBody && final(
            e).body.held() == old(e).body.held() + event->Chunk_0@,
        old(e).phase is ReadBody && (event matches EnrollEvent::Chunk(chunk) && old(
            e).body.held().len() + chunk@.len() > 4_096) ==> final(e).phase == EnrollPhase::Failed(
            JournalError::InvalidResponse,
        ),
        old(e).phase is Decode && event == EnrollEvent::Response(None) ==> final(e).phase
            == EnrollPhase::Failed(JournalError::InvalidResponse),
        (old(e).phase is Credential || old(e).phase is CheckBinding || old(e).phase is StoreRoutes
            || old(e).phase is Persist || old(e).phase is Publish) && event is Failed ==> final(
            e).phase == EnrollPhase::Failed(event->Failed_0),
        final(e).phase is Enrolled && !(old(e).phase is Enrolled) ==> old(e).phase is Publish
            && event is Done,
        old(e).phase is Credential && event is Credential ==> final(e).credential == Some(
            event->Credential_0,
        ),
        final(e).claims != old(e).claims ==> old(e).phase is Decode && final(e).phase is Persist && (
        event matches EnrollEvent::Response(Some(response)) && final(e).claims == Some(
            response.claims,
        )),
{
}

/// An enrollment begins only over a route of the ticket that has an address, at the server of
/// the journal, in this version of the protocol.
pub proof fn enrollments_begin_at_their_server(
    state: JournalState,
    info: OnboardingInfo,
    route: OnboardingRoute,
    addressed: bool,
    enrollment: Enrollment,
)
    requires
        call_ensures(Enrollment::begin, (&state, &info, &route, addressed), enrollment),
    ensures
        enrollment.phase is Unchanged <==> (state.ticket matches Some(ticket) && info.version == 1
            && info.protocol_version == 2 && info.server_id == state.server_id && addressed && (
        exists|i: int|
            0 <= i < ticket.routes@.len() && (#[trigger] ticket.routes@[i]).same(route))),
        state.ticket is None ==> enrollment.phase == EnrollPhase::Failed(JournalError::Conflict),
        state.ticket is Some && info.server_id != state.server_id ==> enrollment.phase
            == EnrollPhase::Failed(JournalError::IdentityMismatch),
{
}

/// What the status of an answer means, before any of it is read.
pub proof fn answers_are_judged_by_their_head(head: ReplyHead, checked: Result<(), JournalError>)
    requires
        call_ensures(check_head, (&head,), checked),
    ensures
        head.status == 401 ==> checked == Err::<(), _>(JournalError::InviteUnavailable),
        head.status == 429 ==> checked == Err::<(), _>(JournalError::RateLimited),
        head.status == 503 ==> checked == Err::<(), _>(JournalError::Unavailable),
        head.status != 200 ==> checked is Err,
        checked is Err && head.status != 401 && head.status != 429 && head.status != 503 ==> checked
            == Err::<(), _>(JournalError::InvalidResponse),
        checked is Ok ==> head.status == 200 && head.content_type is Some && (head.length is Some
            ==> head.length->0 <= 4_096),
{
}

/// An answer confirms an enrollment exactly where it is of the same server and invitation and
/// its claims are those of the credential.
pub proof fn answers_confirm_their_own_credential(
    response: EnrollmentResponse,
    state: JournalState,
    credential: CredentialFile,
    checked: Result<(), JournalError>,
)
    requires
        call_ensures(check_response, (&response, &state, &credential), checked),
    ensures
        checked is Ok ==> response.version == 1 && response.server_id == state.server_id
            && response.invite_id == state.invite_id && response.claims.id == credential.id
            && response.claims.role == credential.role && response.claims.subject@
            == credential.subject@ && response.claims.agent_side == credential.agent_side
            && response.claims.agent_client == credential.agent_client
            && response.claims.workspaces@.len() == credential.workspaces@.len(),
        response.version == 1 && response.server_id == state.server_id && response.invite_id
            == state.invite_id && response.claims.id == credential.id && response.claims.role
            == credential.role && response.claims.subject@ == credential.subject@
            && response.claims.agent_side == credential.agent_side && response.claims.agent_client
            == credential.agent_client && response.claims.workspaces@.len() == 1
            && credential.workspaces@.len() == 1 && response.claims.workspaces@[0]@
            == credential.workspaces@[0]@ ==> checked is Ok,
        checked is Err ==> checked == Err::<(), _>(JournalError::ClaimsMismatch),
{
    let theirs = crate::protocol::names(response.claims.workspaces@);
    let ours = crate::protocol::names(credential.workspaces@);
    if theirs == ours {
        assert(theirs.len() == ours.len());
    }
    if response.claims.workspaces@.len() == 1 && credential.workspaces@.len() == 1
        && response.claims.workspaces@[0]@ == credential.workspaces@[0]@ {
        assert(theirs =~= ours);
    }
}

/// A credential is the one of an invitation exactly where it is an agent's, under the subject of
/// the invitation, of the provider's side and client, and good for its workspace alone.
pub proof fn credentials_are_of_their_invitation(
    credential: CredentialFile,
    invite_id: Uuid,
    provider: OnboardingProvider,
    workspace: WorkspaceName,
    checked: Result<(), JournalError>,
)
    requires
        call_ensures(validate_claims, (&credential, invite_id, provider, &workspace), checked),
    ensures
        checked is Ok <==> credential.id.value != 0 && credential.role is Agent
            && credential.subject@ == "asr-"@ + simple_text(invite_id.value)
            && credential.workspaces@.len() == 1 && credential.workspaces@[0]@ == workspace@ && (
        match provider {
            OnboardingProvider::ClaudeCode => credential.agent_side == Some(
                crate::protocol::AgentSide::Claude,
            ) && credential.agent_client == Some(crate::protocol::AgentClient::ClaudeCode),
            OnboardingProvider::CodexCli => credential.agent_side == Some(
                crate::protocol::AgentSide::Codex,
            ) && credential.agent_client == Some(crate::protocol::AgentClient::CodexCli),
            OnboardingProvider::Omp => credential.agent_side == Some(
                crate::protocol::AgentSide::Generic,
            ) && credential.agent_client == Some(crate::protocol::AgentClient::Omp),
        }),
        checked is Err ==> checked == Err::<(), _>(JournalError::ClaimsMismatch),
{
}

/// An action goes through a journal in order: it is planned behind the others, it is planned
/// only once, and once it is applied it is that action that is applied, and no other.
pub proof fn actions_are_planned_and_applied(
    journal: Journal,
    file: StateFile,
    action: InstallAction,
    token: &str,
    step: Result<PlanStep, JournalError>,
    planned: Journal,
    again: Result<PlanStep, JournalError>,
    applied: Result<JournalState, JournalError>,
    later: StateFile,
)
    requires
        call_ensures(Journal::plan, (&journal, &file, action, Ok(token)), step),
        step matches Ok(PlanStep::Record(candidate, _)) && planned.state == candidate,
        call_ensures(Journal::plan, (&planned, &later, action, Ok(token)), again),
        !planned.needs_reload,
        later matches StateFile::Bytes(bytes) && bytes@ == planned.persisted@,
        call_ensures(
            Journal::mark_applied,
            (&planned, (journal.state.actions@.len()) as usize),
            applied,
        ),
        journal.state.actions@.len() < usize::MAX,
    ensures
        !(journal.state.stage is Configured),
        planned.state.stage == journal.state.stage,
        planned.state.actions@.len() == journal.state.actions@.len() + 1,
        planned.state.actions@.last().intent.same(action),
        planned.state.actions@.last().status is Planned,
        forall|i: int|
            0 <= i < journal.state.actions@.len() ==> (
            #[trigger] planned.state.actions@[i]).intent.same(journal.state.actions@[i].intent)
                && planned.state.actions@[i].status == journal.state.actions@[i].status,
        again is Ok ==> again->Ok_0 is Known,
        planned.state.invite_id == journal.state.invite_id && planned.state.provider
            == journal.state.provider && planned.state.server_id == journal.state.server_id
            && planned.state.enrollment_id == journal.state.enrollment_id
            && planned.state.workspace@ == journal.state.workspace@ && planned.state.profile_name@
            == journal.state.profile_name@ && planned.state.manifest_sha256@
            == journal.state.manifest_sha256@,
        planned.state.credential_file@ == journal.state.credential_file@
            && planned.state.executable@ == journal.state.executable@ && planned.state.version
            == journal.state.version && (planned.state.ticket is Some
            <==> journal.state.ticket is Some),
        applied matches Ok(done) ==> done.invite_id == journal.state.invite_id && done.provider
            == journal.state.provider && done.server_id == journal.state.server_id
            && done.enrollment_id == journal.state.enrollment_id && done.workspace@
            == journal.state.workspace@ && done.profile_name@ == journal.state.profile_name@
            && done.manifest_sha256@ == journal.state.manifest_sha256@ && done.credential_file@
            == journal.state.credential_file@ && done.executable@ == journal.state.executable@
            && done.version == journal.state.version && (done.ticket is Some
            <==> journal.state.ticket is Some),
        applied matches Ok(done) && done.actions@.len() == planned.state.actions@.len() && (
        forall|i: int|
            0 <= i < done.actions@.len() ==> (#[trigger] done.actions@[i]).intent.same(
                planned.state.actions@[i].intent,
            ) && (done.actions@[i].status is Applied <==> i == journal.state.actions@.len()
                || planned.state.actions@[i].status is Applied)) && done.stage
            == journal.state.stage,
{
    let n = journal.state.actions@.len() as int;
    let list = planned.state.actions@;
    assert forall|i: int| 0 <= i < n implies (#[trigger] list[i]).intent.same(
        journal.state.actions@[i].intent,
    ) && list[i].status == journal.state.actions@[i].status by {
        assert(list.drop_last()[i] == list[i]);
        assert(crate::onboarding::changes::same_record(
            list.drop_last()[i],
            journal.state.actions@[i],
        ));
    }
    assert(list.last() == list[n]);
    if again is Ok && !(again->Ok_0 is Known) {
        assert(crate::onboarding::changes::unrecorded(list, action));
        assert(!list[n].intent.alike(action));
    }
}

/// A journal is configured exactly where it was enrolled and every action was applied; its
/// ticket is gone then, and nothing else has changed.
pub proof fn journals_are_configured_when_all_is_applied(
    journal: Journal,
    candidate: Result<JournalState, JournalError>,
)
    requires
        call_ensures(Journal::mark_configured, (&journal,), candidate),
    ensures
        candidate is Ok <==> (journal.state.stage is Enrolled || journal.state.stage is Configured)
            && (forall|i: int|
            0 <= i < journal.state.actions@.len() ==> (
            #[trigger] journal.state.actions@[i]).status is Applied),
        candidate matches Ok(done) ==> done.stage is Configured && done.ticket is None
            && done.invite_id == journal.state.invite_id && done.provider == journal.state.provider
            && done.server_id == journal.state.server_id && done.enrollment_id
            == journal.state.enrollment_id && done.actions@.len() == journal.state.actions@.len(),
        candidate is Err ==> candidate->Err_0 is Conflict,
{
}

/// A change comes to last in order: a new file is made, written, renamed over the old one or
/// where there was none, its first name is removed, and the directory is written out. Only then
/// the journal is the changed one.
pub proof fn changes_last_in_order(
    journal: &mut Journal,
    change: Persistence,
    next: Persistence,
    event: PersistEvent,
    fresh: bool,
)
    requires
        call_ensures(Persistence::step, (change, journal, event), next),
        fresh == (old(journal).persisted@.len() == 0),
    ensures
        change.phase is Create && event is Done ==> next.phase is Write,
        change.phase is Create && event is Failed ==> next.phase == PersistPhase::Failed(
            JournalError::Io,
        ),
        change.phase is Write && event is Done ==> next.phase == (PersistPhase::Rename {
            replaces: !fresh,
        }),
        change.phase is Write && event is Failed ==> next.phase == PersistPhase::Unlink(
            Some(JournalError::Io),
        ),
        change.phase is Rename && event is Done ==> next.phase == PersistPhase::Unlink(None),
        change.phase == (PersistPhase::Rename { replaces: false }) && event is Exists ==> next.phase
            == PersistPhase::Unlink(Some(JournalError::Conflict)),
        change.phase is Rename && event is Failed ==> next.phase == PersistPhase::Unlink(
            Some(JournalError::Io),
        ),
        change.phase == PersistPhase::Unlink(None) && event is Done ==> next.phase is Sync && final(
            journal).needs_reload,
        (change.phase matches PersistPhase::Unlink(Some(error))) && event is Done ==> next.phase
            == PersistPhase::Failed(change.phase->Unlink_0->0),
        change.phase is Sync && event is Done ==> next.phase is Done && final(journal).state
            == change.candidate && final(journal).persisted == change.bytes && !final(
            journal).needs_reload,
        change.phase is Sync && event is Failed ==> next.phase == PersistPhase::Failed(
            JournalError::Io,
        ) && final(journal).state == old(journal).state,
        !(next.phase is Done) ==> final(journal).state == old(journal).state && final(
            journal).persisted == old(journal).persisted,
        final(journal).config_path == old(journal).config_path && final(journal).path == old(
            journal).path,
{
}

/// The file of a journal is as it was left exactly where its bytes are those that were written
/// last, or where there is none and none was written; an unsure journal is never.
pub proof fn journals_are_unchanged_by_their_bytes(
    journal: Journal,
    file: StateFile,
    checked: Result<(), JournalError>,
)
    requires
        call_ensures(Journal::assert_unchanged, (&journal, &file), checked),
    ensures
        checked is Ok <==> !journal.needs_reload && (match file {
            StateFile::Bytes(bytes) => bytes@ == journal.persisted@,
            StateFile::Failed(error) => error is NotFound && journal.persisted@.len() == 0,
        }),
        journal.needs_reload ==> checked == Err::<(), _>(JournalError::Conflict),
        !journal.needs_reload && (file matches StateFile::Failed(error) && !(error is NotFound))
            ==> checked == Err::<(), _>(file->Failed_0),
        !journal.needs_reload && file is Bytes && checked is Err ==> checked == Err::<(), _>(
            JournalError::Conflict,
        ),
{
}

/// What a journal that is loaded must be: of this version, of the invitation and the provider,
/// of a server and an enrollment, with its credential beside it, for a profile of its own, with
/// its ticket exactly until it is configured, and with its records in order.
pub proof fn journals_are_loaded_when_in_order(
    state: JournalState,
    invite_id: Uuid,
    provider: OnboardingProvider,
    path: &str,
    verdicts: StateVerdicts,
    checked: Result<(), JournalError>,
)
    requires
        call_ensures(validate_state, (&state, invite_id, provider, path, &verdicts), checked),
    ensures
        checked is Ok ==> state.version == 1 && state.invite_id == invite_id && state.provider
            == provider && state.server_id.value != 0 && state.enrollment_id.value != 0
            && same_path(state.credential_file@, joined(path@, "credential.json"@))
            && state.profile_name@ != "local"@ && verdicts.profile_name && sha256_text(
            state.manifest_sha256@,
        ) && (state.ticket is None <==> state.stage is Configured),
        checked is Ok && state.stage is Configured ==> forall|i: int|
            0 <= i < state.actions@.len() ==> (#[trigger] state.actions@[i]).status is Applied,
        checked is Ok && state.ticket is Some ==> state.ticket->0.invite_id == state.invite_id
            && state.ticket->0.server_id == state.server_id && state.ticket->0.workspace@
            == state.workspace@ && state.ticket->0.manifest_sha256@ == state.manifest_sha256@
            && state.ticket->0.profile_name@ == state.profile_name@ && (state.ticket->0.provider is Some ==> state.ticket->0.provider
            == Some(provider)),
        state.version == 1 && state.invite_id == invite_id && state.provider == provider
            && state.server_id.value != 0 && state.enrollment_id.value != 0 && same_path(
            state.credential_file@,
            joined(path@, "credential.json"@),
        ) && state.profile_name@ != "local"@ && verdicts.profile_name && sha256_text(
            state.manifest_sha256@,
        ) && executable_fault(state.executable@, verdicts.executable) is None && state.ticket is None
            && state.stage is Configured && state.actions@.len() == 0 ==> checked is Ok,
{
}

/// An action may be recorded where it tells no secret: a file by an absolute path and a digest,
/// a command by words without zeros that hold neither the invitation's nor the credential's
/// secret.
pub proof fn recorded_actions_tell_no_secret(
    action: InstallAction,
    ticket: Option<OnboardingTicket>,
    credential: Option<&str>,
    checked: Result<(), JournalError>,
    i: int,
)
    requires
        call_ensures(validate_action, (&action, &ticket, credential), checked),
        checked is Ok,
    ensures
        action matches InstallAction::File { path, sha256 } ==> absolute(path@) && steady(path@)
            && sha256_text(sha256@),
        action matches InstallAction::Command { argv } ==> argv@.len() > 0 && argv@[0]@.len() > 0 && (
        0 <= i < argv@.len() ==> !argv@[i]@.contains('\0') && (ticket is Some ==> !has_part(
            argv@[i]@,
            ticket->0.invite_token@,
        )) && (credential is Some ==> !has_part(argv@[i]@, credential->0@))),
{
    let token = match credential {
        Some(token) => Some(token@),
        None => None,
    };
    let secrets = crate::onboarding::journal::secrets_of(ticket, token);
    match action {
        InstallAction::Command { argv } => {
            if 0 <= i < argv@.len() {
                assert(crate::onboarding::journal::plain_argument(argv@[i]@, secrets));
                if ticket is Some {
                    assert(secrets[0] == ticket->0.invite_token@);
                    if credential is Some {
                        assert(secrets[1] == credential->0@);
                    }
                } else if credential is Some {
                    assert(secrets[0] == credential->0@);
                }
            }
        },
        _ => {},
    }
}

/// Whose files are trusted: private ones, of this user, under one name, and not too long; the
/// directories are reached into by their owner alone.
pub proof fn private_files_are_trusted(
    facts: OpenFacts,
    uid: u32,
    read: usize,
    most: usize,
    file: Result<(), JournalError>,
    state: Result<(), JournalError>,
    credential: Result<(), JournalError>,
    owner: u32,
    mode: u32,
    directory: Result<(), JournalError>,
)
    requires
        call_ensures(validate_private_file, (&facts, uid), file),
        call_ensures(check_state_file, (&facts, uid, read), state),
        call_ensures(check_credential_file, (&facts, uid, read, most), credential),
        call_ensures(validate_directory, (owner, mode, uid), directory),
    ensures
        file is Ok <==> facts.is_file && facts.uid == uid && facts.mode & 0o777 == 0o600
            && facts.links == 1,
        state is Ok <==> file is Ok && facts.bytes <= 1_048_576 && read <= 1_048_576,
        file is Err ==> state == Err::<(), _>(JournalError::Permissions),
        file is Ok && state is Err ==> state == Err::<(), _>(JournalError::Invalid),
        credential is Ok <==> facts.is_file && facts.uid == uid && facts.mode & 0o777 == 0o600 && (
        facts.links == 1 || facts.links == 2) && read <= most,
        directory is Ok <==> owner == uid && mode & 0o777 == 0o700,
{
}

/// Under which fault of a journal the faults of the configuration, of credentials, of locks and
/// of opening are reported, and which programs may be installed.
pub proof fn faults_are_passed_on(
    config: ConfigError,
    of_config: JournalError,
    credential: CredentialError,
    of_credential: JournalError,
    outcome: LockOutcome,
    taken: Result<(), JournalError>,
    missing: bool,
    of_open: JournalError,
    path: &str,
    facts: ExecutableFacts,
    program: Result<(), JournalError>,
)
    requires
        call_ensures(config_error, (config,), of_config),
        call_ensures(credential_error, (credential,), of_credential),
        call_ensures(check_lock, (outcome,), taken),
        call_ensures(open_error, (missing,), of_open),
        call_ensures(validate_executable, (path, &facts), program),
    ensures
        of_config is ProfileConflict <==> config is ProfileConflict,
        of_config is BindingConflict <==> config is BindingConflict,
        of_config is Io <==> config is Io,
        of_config is Configuration <==> config is Other,
        of_credential is Permissions <==> credential is Permissions,
        of_credential is Conflict <==> credential is Exists,
        of_credential is NotFound <==> credential is NotFound,
        of_credential is Invalid <==> credential is Invalid,
        taken is Ok <==> outcome is Taken,
        outcome is Busy ==> taken == Err::<(), _>(JournalError::ConfigurationBusy),
        outcome is Failed ==> taken == Err::<(), _>(JournalError::Io),
        of_open == if missing {
            JournalError::NotFound
        } else {
            JournalError::Permissions
        },
        program is Ok <==> absolute(path@) && steady(path@) && (facts.opened matches Ok((is_file, mode))
            && is_file && mode & 0o111 != 0),
        absolute(path@) && steady(path@) && facts.opened is Err ==> program == Err::<(), _>(
            facts.opened->Err_0,
        ),
{
}

} // verus!
