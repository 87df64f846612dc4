//! How an onboarding is prepared and enrolled. Each is a sequence of steps, some of which
//! are taken outside: what is done next follows from how the last one went.

use vstd::prelude::*;

use crate::bounded::BoundedBody;
use crate::credentials::{CredentialFile, PublicCredentialClaims};
use crate::ids::Uuid;
use crate::onboarding::changes::{
    enrolled_from, same_opt_ticket, unchanged_fault, Journal, StateFile,
};
use crate::onboarding::journal::{
    absolute_path, actions_ok, claims_ok, executable_fault, journal_path, state_fault, ticket_of,
    validate_claims, validate_executable, whole_path, ExecutableFacts, JournalError, JournalState,
    Stage, StateVerdicts, CREDENTIAL_FILE,
};
use crate::onboarding::{
    same_tickets_same_fault, ticket_fault, EnrollmentRequest, EnrollmentResponse, OnboardingInfo,
    OnboardingProvider, OnboardingRoute, OnboardingTicket, TicketVerdicts, MAX_ENROLLMENT_BYTES,
    VERSION,
};
use crate::paths::{is_same_path, join, joined, parent, parent_of, same_path};
use crate::protocol::{equal_names, names, PROTOCOL_VERSION};
use crate::text::{
    chars_of, eq_ignoring_case, find_char, opt_text, place_of, same_ignoring_case, same_text, text_between,
    trim, trimmed,
};

verus! {

/// Whether a journal is a new one, of a ticket, a provider and a program.
pub open spec fn fresh_state(
    state: JournalState,
    ticket: OnboardingTicket,
    provider: OnboardingProvider,
    executable: Seq<char>,
    path: Seq<char>,
    enrollment_id: Uuid,
) -> bool {
    &&& state.version == VERSION
    &&& state.invite_id == ticket.invite_id
    &&& state.provider == provider
    &&& state.server_id == ticket.server_id
    &&& state.profile_name@ == ticket.profile_name@
    &&& state.workspace@ == ticket.workspace@
    &&& state.enrollment_id == enrollment_id
    &&& state.credential_file@ == joined(path, CREDENTIAL_FILE@)
    &&& state.executable@ == executable
    &&& state.manifest_sha256@ == ticket.manifest_sha256@
    &&& state.stage is Prepared
    &&& state.ticket is Some && state.ticket->0.same(ticket)
    &&& state.actions@.len() == 0
}

/// Whether a journal that is there already is the one that a ticket and a program ask for.
pub open spec fn resumable(state: JournalState, ticket: OnboardingTicket, executable: Seq<char>) -> bool {
    &&& state.server_id == ticket.server_id
    &&& state.profile_name@ == ticket.profile_name@
    &&& state.workspace@ == ticket.workspace@
    &&& state.manifest_sha256@ == ticket.manifest_sha256@
    &&& same_path(state.executable@, executable)
    &&& state.ticket matches Some(saved) ==> saved.same(ticket)
}

/// Refuses a journal that is of another ticket or program.
pub fn check_resumed(state: &JournalState, ticket: &OnboardingTicket, executable: &str) -> (checked: Result<
    (),
    JournalError,
>)
    ensures
        checked == if resumable(*state, *ticket, executable@) {
            Ok::<(), JournalError>(())
        } else {
            Err(JournalError::Conflict)
        },
{
    let saved = match &state.ticket {
        Some(saved) => saved.equals(ticket),
        None => true,
    };
    if state.server_id != ticket.server_id || !same_text(
        state.profile_name.as_str(),
        ticket.profile_name.as_str(),
    ) || !state.workspace.same(&ticket.workspace) || !same_text(
        state.manifest_sha256.as_str(),
        ticket.manifest_sha256.as_str(),
    ) || !is_same_path(state.executable.as_str(), executable) || !saved {
        return Err(JournalError::Conflict);
    }
    Ok(())
}

/// What is to be done to prepare an onboarding.
#[derive(Clone, Copy, Debug, PartialEq, Eq, Structural)]
pub enum PreparePhase {
    /// The program is to be opened.
    Executable,
    /// The current directory is to be looked up.
    Locate,
    /// The directories are to be opened, and made where they are not there.
    Directories,
    /// The journal's file is to be read.
    ReadState,
    /// The journal that is there is to be loaded.
    Load,
    /// The configuration is to be asked whether the onboarding fits it.
    CheckBinding,
    /// The credential that was left, if any, is to be read.
    ReadCredential,
    /// A credential is to be made.
    Generate,
    /// It is to be written.
    Publish,
    /// The new journal is to be made to last.
    Persist,
    Ready,
    Failed(JournalError),
}

/// How that went.
pub enum PrepareEvent {
    Opened(ExecutableFacts),
    /// The current directory, if it is known.
    Current(Option<String>),
    Done,
    Failed(JournalError),
    Loaded(Journal),
    Credential(CredentialFile),
}

/// The preparation of an onboarding.
pub struct Preparation {
    pub phase: PreparePhase,
    pub ticket: OnboardingTicket,
    pub provider: OnboardingProvider,
    pub executable: String,
    pub config_path: String,
    /// The directory of the journal, once it is known.
    pub path: String,
    pub enrollment_id: Uuid,
    /// The credential that was made.
    pub credential: Option<CredentialFile>,
    pub journal: Option<Journal>,
}

/// Why an onboarding cannot even begin to be prepared.
pub open spec fn prepare_fault(
    ticket: OnboardingTicket,
    verdicts: TicketVerdicts,
    provider: OnboardingProvider,
) -> Option<JournalError> {
    if ticket_fault(ticket, verdicts) is Some {
        Some(JournalError::Invalid)
    } else if ticket.provider matches Some(bound) && bound != provider {
        Some(JournalError::Conflict)
    } else {
        None
    }
}

/// The whole path of a configuration, and the directory of a journal below the directory
/// that it lies in.
pub open spec fn located(p: Preparation, current: Option<Seq<char>>) -> Result<
    (Seq<char>, Seq<char>),
    JournalError,
> {
    match whole_path(p.config_path@, current) {
        Err(error) => Err(error),
        Ok(whole) => match parent_of(whole) {
            None => Err(JournalError::Invalid),
            Some(parent) => Ok((whole, journal_path(parent, p.ticket.invite_id, p.provider))),
        },
    }
}

/// What is done once a credential is there.
pub open spec fn with_credential(
    ticket: OnboardingTicket,
    provider: OnboardingProvider,
    credential: CredentialFile,
) -> PreparePhase {
    if claims_ok(credential, ticket.invite_id, provider, ticket.workspace@) {
        PreparePhase::Persist
    } else {
        PreparePhase::Failed(JournalError::ClaimsMismatch)
    }
}

/// What is to be done once something has been.
pub open spec fn prepare_next(p: Preparation, event: PrepareEvent) -> PreparePhase {
    match (p.phase, event) {
        (PreparePhase::Executable, PrepareEvent::Opened(facts)) => match executable_fault(
            p.executable@,
            facts,
        ) {
            Some(fault) => PreparePhase::Failed(fault),
            None => PreparePhase::Locate,
        },
        (PreparePhase::Locate, PrepareEvent::Current(current)) => match located(
            p,
            opt_text(current),
        ) {
            Err(error) => PreparePhase::Failed(error),
            Ok(_) => PreparePhase::Directories,
        },
        (PreparePhase::Directories, PrepareEvent::Done) => PreparePhase::ReadState,
        (PreparePhase::ReadState, PrepareEvent::Done) => PreparePhase::Load,
        (PreparePhase::ReadState, PrepareEvent::Failed(JournalError::NotFound)) =>
            PreparePhase::CheckBinding,
        (PreparePhase::Load, PrepareEvent::Loaded(journal)) => if resumable(
            journal.state,
            p.ticket,
            p.executable@,
        ) {
            PreparePhase::Ready
        } else {
            PreparePhase::Failed(JournalError::Conflict)
        },
        (PreparePhase::CheckBinding, PrepareEvent::Done) => PreparePhase::ReadCredential,
        (PreparePhase::ReadCredential, PrepareEvent::Credential(credential)) => with_credential(
            p.ticket,
            p.provider,
            credential,
        ),
        (PreparePhase::ReadCredential, PrepareEvent::Failed(JournalError::NotFound)) =>
            PreparePhase::Generate,
        (PreparePhase::Generate, PrepareEvent::Credential(_)) => PreparePhase::Publish,
        (PreparePhase::Generate, PrepareEvent::Failed(_)) => PreparePhase::Failed(JournalError::Io),
        (PreparePhase::Publish, PrepareEvent::Done) => match p.credential {
            Some(credential) => with_credential(p.ticket, p.provider, credential),
            None => PreparePhase::Failed(JournalError::ClaimsMismatch),
        },
        (PreparePhase::Persist, PrepareEvent::Done) => PreparePhase::Ready,
        (PreparePhase::Ready, _) => p.phase,
        (PreparePhase::Failed(_), _) => p.phase,
        (_, PrepareEvent::Failed(error)) => PreparePhase::Failed(error),
        _ => p.phase,
    }
}

/// What a preparation begins as.
pub open spec fn begun(
    p: Preparation,
    ticket: OnboardingTicket,
    verdicts: TicketVerdicts,
    provider: OnboardingProvider,
    executable: Seq<char>,
    config_path: Seq<char>,
    enrollment_id: Uuid,
) -> bool {
    &&& p.phase == (match prepare_fault(ticket, verdicts, provider) {
        Some(fault) => PreparePhase::Failed(fault),
        None => PreparePhase::Executable,
    })
    &&& p.ticket == ticket
    &&& p.provider == provider
    &&& p.executable@ == executable
    &&& p.config_path@ == config_path
    &&& p.enrollment_id == enrollment_id
    &&& p.credential is None
    &&& p.journal is None
}

/// What a preparation is once something has been done.
pub open spec fn prepare_step(p: Preparation, event: PrepareEvent, next: Preparation) -> bool {
    &&& next.phase == prepare_next(p, event)
    &&& next.ticket == p.ticket
    &&& next.provider == p.provider
    &&& next.executable == p.executable
    &&& match (p.phase, event) {
        (PreparePhase::Locate, PrepareEvent::Current(current)) => match located(
            p,
            opt_text(current),
        ) {
            Ok((whole, path)) => next.config_path@ == whole && next.path@ == path,
            Err(_) => next.config_path == p.config_path && next.path == p.path,
        },
        _ => next.config_path == p.config_path && next.path == p.path,
    }
    &&& next.enrollment_id == p.enrollment_id
    &&& next.credential == (match (p.phase, event) {
        (PreparePhase::Generate, PrepareEvent::Credential(credential)) => Some(credential),
        _ => p.credential,
    })
    &&& if next.phase is Persist && !(p.phase is Persist) {
        &&& next.journal is Some
        &&& fresh_state(
            next.journal->0.state,
            p.ticket,
            p.provider,
            p.executable@,
            p.path@,
            p.enrollment_id,
        )
        &&& next.journal->0.config_path@ == p.config_path@
        &&& next.journal->0.path@ == p.path@
        &&& next.journal->0.persisted@.len() == 0
        &&& !next.journal->0.needs_reload
    } else {
        match (p.phase, event) {
            (PreparePhase::Load, PrepareEvent::Loaded(journal)) => next.journal == if resumable(
                journal.state,
                p.ticket,
                p.executable@,
            ) {
                Some(journal)
            } else {
                p.journal
            },
            _ => next.journal == p.journal,
        }
    }
}

impl Preparation {
    /// The preparation begins. `enrollment_id` is a fresh one.
    pub fn begin(
        ticket: OnboardingTicket,
        verdicts: TicketVerdicts,
        provider: OnboardingProvider,
        executable: String,
        config_path: String,
        enrollment_id: Uuid,
    ) -> (p: Preparation)
        ensures
            p.ticket == ticket,
            p.executable == executable,
            p.config_path == config_path,
            begun(p, ticket, verdicts, provider, executable@, config_path@, enrollment_id),
    {
        let bound = match ticket.provider {
            Some(bound) => bound == provider,
            None => true,
        };
        let phase = match ticket.validate(verdicts) {
            Err(_) => PreparePhase::Failed(JournalError::Invalid),
            Ok(()) => if bound {
                PreparePhase::Executable
            } else {
                PreparePhase::Failed(JournalError::Conflict)
            },
        };
        Preparation {
            phase,
            ticket,
            provider,
            executable,
            config_path,
            path: String::new(),
            enrollment_id,
            credential: None,
            journal: None,
        }
    }

    /// The journal that a new onboarding begins with.
    fn fresh(&self) -> (journal: Journal)
        ensures
            fresh_state(
                journal.state,
                self.ticket,
                self.provider,
                self.executable@,
                self.path@,
                self.enrollment_id,
            ),
            journal.config_path@ == self.config_path@,
            journal.path@ == self.path@,
            journal.persisted@.len() == 0,
            !journal.needs_reload,
    {
        let state = JournalState {
            version: VERSION,
            invite_id: self.ticket.invite_id,
            provider: self.provider,
            server_id: self.ticket.server_id,
            profile_name: self.ticket.profile_name.as_str().to_owned(),
            workspace: self.ticket.workspace.copy(),
            enrollment_id: self.enrollment_id,
            credential_file: join(self.path.as_str(), CREDENTIAL_FILE),
            executable: self.executable.as_str().to_owned(),
            manifest_sha256: self.ticket.manifest_sha256.as_str().to_owned(),
            stage: Stage::Prepared,
            ticket: Some(self.ticket.copy()),
            actions: Vec::new(),
        };
        Journal::unwritten(
            self.config_path.as_str().to_owned(),
            self.path.as_str().to_owned(),
            state,
        )
    }

    fn locate(&mut self, current: Option<String>)
        requires
            old(self).phase is Locate,
        ensures
            final(self).phase == prepare_next(*old(self), PrepareEvent::Current(current)),
            match located(*old(self), opt_text(current)) {
                Ok((whole, path)) => final(self).config_path@ == whole && final(self).path@
                    == path,
                Err(_) => final(self).config_path == old(self).config_path && final(self).path
                    == old(self).path,
            },
            *final(self) == (Preparation {
                phase: final(self).phase,
                config_path: final(self).config_path,
                path: final(self).path,
                ..*old(self)
            }),
    {
        let directory = match &current {
            Some(current) => Some(current.as_str()),
            None => None,
        };
        let whole = match absolute_path(self.config_path.as_str(), directory) {
            Ok(whole) => whole,
            Err(error) => {
                self.phase = PreparePhase::Failed(error);
                return ;
            },
        };
        match parent(whole.as_str()) {
            None => {
                self.phase = PreparePhase::Failed(JournalError::Invalid);
            },
            Some(parent) => {
                let onboarding = join(parent.as_str(), "onboarding");
                let invite = join(onboarding.as_str(), self.ticket.invite_id.to_text().as_str());
                self.path = join(invite.as_str(), self.provider.as_str().as_str());
                self.config_path = whole;
                self.phase = PreparePhase::Directories;
            },
        }
    }

    /// A credential is there: the new journal follows, where it is the right one.
    fn adopt(&self, credential: &CredentialFile) -> (phase: PreparePhase)
        ensures
            phase == with_credential(self.ticket, self.provider, *credential),
    {
        match validate_claims(
            credential,
            self.ticket.invite_id,
            self.provider,
            &self.ticket.workspace,
        ) {
            Ok(()) => PreparePhase::Persist,
            Err(fault) => PreparePhase::Failed(fault),
        }
    }

    /// Something was done. A journal that was loaded is the result as it is; a new one is
    /// made as soon as its credential is there.
    pub fn step(&mut self, event: PrepareEvent)
        ensures
            prepare_step(*old(self), event, *final(self)),
    {
        match (self.phase, event) {
            (PreparePhase::Executable, PrepareEvent::Opened(facts)) => {
                self.phase =
                match validate_executable(self.executable.as_str(), &facts) {
                    Ok(()) => PreparePhase::Locate,
                    Err(fault) => PreparePhase::Failed(fault),
                };
            },
            (PreparePhase::Locate, PrepareEvent::Current(current)) => {
                self.locate(current);
            },
            (PreparePhase::Directories, PrepareEvent::Done) => {
                self.phase = PreparePhase::ReadState;
            },
            (PreparePhase::ReadState, PrepareEvent::Done) => {
                self.phase = PreparePhase::Load;
            },
            (PreparePhase::ReadState, PrepareEvent::Failed(JournalError::NotFound)) => {
                self.phase = PreparePhase::CheckBinding;
            },
            (PreparePhase::Load, PrepareEvent::Loaded(journal)) => {
                match check_resumed(&journal.state, &self.ticket, self.executable.as_str()) {
                    Ok(()) => {
                        self.journal = Some(journal);
                        self.phase = PreparePhase::Ready;
                    },
                    Err(fault) => {
                        self.phase = PreparePhase::Failed(fault);
                    },
                }
            },
            (PreparePhase::CheckBinding, PrepareEvent::Done) => {
                self.phase = PreparePhase::ReadCredential;
            },
            (PreparePhase::ReadCredential, PrepareEvent::Credential(credential)) => {
                let phase = self.adopt(&credential);
                if phase == PreparePhase::Persist {
                    self.journal = Some(self.fresh());
                }
                self.phase = phase;
            },
            (PreparePhase::ReadCredential, PrepareEvent::Failed(JournalError::NotFound)) => {
                self.phase = PreparePhase::Generate;
            },
            (PreparePhase::Generate, PrepareEvent::Credential(credential)) => {
                self.credential = Some(credential);
                self.phase = PreparePhase::Publish;
            },
            (PreparePhase::Generate, PrepareEvent::Failed(_)) => {
                self.phase = PreparePhase::Failed(JournalError::Io);
            },
            (PreparePhase::Publish, PrepareEvent::Done) => {
                let phase = match &self.credential {
                    Some(credential) => self.adopt(credential),
                    None => PreparePhase::Failed(JournalError::ClaimsMismatch),
                };
                if phase == PreparePhase::Persist {
                    self.journal = Some(self.fresh());
                }
                self.phase = phase;
            },
            (PreparePhase::Persist, PrepareEvent::Done) => {
                self.phase = PreparePhase::Ready;
            },
            (PreparePhase::Ready, _) => {},
            (PreparePhase::Failed(_), _) => {},
            (_, PrepareEvent::Failed(error)) => {
                self.phase = PreparePhase::Failed(error);
            },
            _ => {},
        }
    }
}

/// A new journal is in order: it can be loaded again.
pub proof fn fresh_journals_are_in_order(
    state: JournalState,
    ticket: OnboardingTicket,
    provider: OnboardingProvider,
    executable: Seq<char>,
    path: Seq<char>,
    enrollment_id: Uuid,
    verdicts: StateVerdicts,
)
    requires
        prepare_fault(ticket, verdicts.ticket, provider) is None,
        executable_fault(executable, verdicts.executable) is None,
        verdicts.profile_name == verdicts.ticket.profile_name,
        enrollment_id.value != 0,
        fresh_state(state, ticket, provider, executable, path, enrollment_id),
    ensures
        state_fault(state, ticket.invite_id, provider, path, verdicts) is None,
{
    same_tickets_same_fault(state.ticket->0, ticket, verdicts.ticket);
    assert(ticket_of(state, state.ticket->0));
    assert(actions_ok(state.actions@, state.ticket, state.stage));
}

/// What the directory of a journal holds: the journal, and its credential.
pub struct Stored {
    pub journal: Option<JournalState>,
    pub credential: Option<CredentialFile>,
}

/// What does not change from one preparation to another: what is said of the ticket and of
/// the program, and the current directory.
pub struct Surroundings {
    pub verdicts: StateVerdicts,
    pub current: Option<Seq<char>>,
}

/// Whether a journal can be loaded from what is stored, with the credential beside it.
pub open spec fn loadable(stored: Stored, p: Preparation, verdicts: StateVerdicts) -> bool {
    &&& stored.journal matches Some(state) && state_fault(
        state,
        p.ticket.invite_id,
        p.provider,
        p.path@,
        verdicts,
    ) is None
    &&& stored.credential matches Some(credential) && claims_ok(
        credential,
        p.ticket.invite_id,
        p.provider,
        p.ticket.workspace@,
    )
}

/// Whether what is reported to a preparation is so: what is read is what is stored, and what
/// is not found is not there.
pub open spec fn reported(
    p: Preparation,
    event: PrepareEvent,
    stored: Stored,
    around: Surroundings,
) -> bool {
    match p.phase {
        PreparePhase::Executable => event == PrepareEvent::Opened(around.verdicts.executable),
        PreparePhase::Locate => event matches PrepareEvent::Current(current) && opt_text(current)
            == around.current,
        PreparePhase::ReadState => {
            &&& event is Done ==> stored.journal is Some
            &&& event == PrepareEvent::Failed(JournalError::NotFound) ==> stored.journal is None
        },
        PreparePhase::Load => event matches PrepareEvent::Loaded(journal) ==> loadable(
            stored,
            p,
            around.verdicts,
        ) && journal.state.same(stored.journal->0),
        PreparePhase::ReadCredential => {
            &&& event matches PrepareEvent::Credential(credential) ==> stored.credential == Some(
                credential,
            )
            &&& event == PrepareEvent::Failed(JournalError::NotFound) ==> stored.credential is None
        },
        _ => true,
    }
}

/// Whether the directories and what is stored in them can be read.
pub open spec fn readable(
    p: Preparation,
    event: PrepareEvent,
    stored: Stored,
    verdicts: StateVerdicts,
) -> bool {
    match p.phase {
        PreparePhase::Directories => event is Done,
        PreparePhase::ReadState => if stored.journal is Some {
            event is Done
        } else {
            event == PrepareEvent::Failed(JournalError::NotFound)
        },
        PreparePhase::Load => loadable(stored, p, verdicts) ==> event is Loaded,
        _ => true,
    }
}

/// What is stored once something has been done.
pub open spec fn stored_next(p: Preparation, event: PrepareEvent, stored: Stored) -> Stored {
    match (p.phase, event) {
        (PreparePhase::Publish, PrepareEvent::Done) => Stored {
            credential: p.credential,
            ..stored
        },
        (PreparePhase::Persist, PrepareEvent::Done) => Stored {
            journal: match p.journal {
                Some(journal) => Some(journal.state),
                None => stored.journal,
            },
            ..stored
        },
        _ => stored,
    }
}

/// What is stored after the first `n` events of a run.
pub open spec fn stored_after(
    states: Seq<Preparation>,
    events: Seq<PrepareEvent>,
    stored: Stored,
    n: int,
) -> Stored
    decreases n,
{
    if n <= 0 {
        stored
    } else {
        stored_next(states[n - 1], events[n - 1], stored_after(states, events, stored, n - 1))
    }
}

/// A run of a preparation: each event leads from one state to the next, and reports what is
/// so.
pub open spec fn prepare_run(
    states: Seq<Preparation>,
    events: Seq<PrepareEvent>,
    stored: Stored,
    around: Surroundings,
) -> bool {
    &&& states.len() == events.len() + 1
    &&& forall|i: int|
        0 <= i < events.len() ==> prepare_step(states[i], #[trigger] events[i], states[i + 1])
            && reported(states[i], events[i], stored_after(states, events, stored, i), around)
}

/// What holds in every state of a run.
spec fn run_inv(
    first: Preparation,
    p: Preparation,
    stored: Stored,
    around: Surroundings,
) -> bool {
    let place = located(first, around.current);
    &&& p.ticket == first.ticket
    &&& p.provider == first.provider
    &&& p.executable == first.executable
    &&& p.enrollment_id == first.enrollment_id
    &&& p.phase is Executable || p.phase is Locate ==> p.config_path == first.config_path
    &&& !(p.phase is Failed) ==> prepare_fault(
        first.ticket,
        around.verdicts.ticket,
        first.provider,
    ) is None
    &&& !(p.phase is Failed || p.phase is Executable) ==> executable_fault(
        first.executable@,
        around.verdicts.executable,
    ) is None
    &&& !(p.phase is Failed || p.phase is Executable || p.phase is Locate) ==> place is Ok && p.path@
        == place->Ok_0.1
    &&& p.phase is Persist ==> {
        &&& p.journal is Some
        &&& fresh_state(
            p.journal->0.state,
            p.ticket,
            p.provider,
            p.executable@,
            p.path@,
            p.enrollment_id,
        )
        &&& stored.credential matches Some(credential) && claims_ok(
            credential,
            p.ticket.invite_id,
            p.provider,
            p.ticket.workspace@,
        )
    }
    &&& p.phase is Ready ==> {
        &&& p.journal is Some
        &&& loadable(stored, p, around.verdicts)
        &&& p.journal->0.state.same(stored.journal->0)
        &&& resumable(stored.journal->0, p.ticket, p.executable@)
    }
}

proof fn same_ticket_as_both(a: OnboardingTicket, b: OnboardingTicket, c: OnboardingTicket)
    requires
        a.same(b),
        a.same(c),
    ensures
        b.same(c),
{
    assert forall|i: int| 0 <= i < b.routes@.len() implies (#[trigger] b.routes@[i]).same(
        c.routes@[i],
    ) by {
        assert(a.routes@[i].same(b.routes@[i]));
        assert(a.routes@[i].same(c.routes@[i]));
    }
    assert forall|i: int| 0 <= i < b.artifacts@.len() implies (#[trigger] b.artifacts@[i]).same(
        c.artifacts@[i],
    ) by {
        assert(a.artifacts@[i].same(b.artifacts@[i]));
        assert(a.artifacts@[i].same(c.artifacts@[i]));
    }
}

proof fn same_ticket_as_same(a: OnboardingTicket, b: OnboardingTicket)
    requires
        a.same(b),
    ensures
        b.same(a),
{
    assert forall|i: int| 0 <= i < a.routes@.len() implies (#[trigger] a.routes@[i]).same(
        a.routes@[i],
    ) by {}
    same_ticket_as_both(a, b, a);
}

proof fn copies_are_resumed(
    a: JournalState,
    b: JournalState,
    ticket: OnboardingTicket,
    executable: Seq<char>,
)
    requires
        a.same(b),
    ensures
        resumable(a, ticket, executable) == resumable(b, ticket, executable),
{
    if a.ticket is Some {
        if a.ticket->0.same(ticket) {
            same_ticket_as_both(a.ticket->0, b.ticket->0, ticket);
        }
        if b.ticket->0.same(ticket) {
            same_ticket_as_same(a.ticket->0, b.ticket->0);
            same_ticket_as_both(b.ticket->0, a.ticket->0, ticket);
        }
    }
}

proof fn state_is_same(a: JournalState)
    ensures
        a.same(a),
{
}

proof fn run_keeps_inv(
    first: Preparation,
    p: Preparation,
    event: PrepareEvent,
    next: Preparation,
    stored: Stored,
    around: Surroundings,
)
    requires
        run_inv(first, p, stored, around),
        prepare_step(p, event, next),
        reported(p, event, stored, around),
        around.verdicts.profile_name == around.verdicts.ticket.profile_name,
        first.enrollment_id.value != 0,
    ensures
        run_inv(first, next, stored_next(p, event, stored), around),
{
    match (p.phase, event) {
        (PreparePhase::Load, PrepareEvent::Loaded(journal)) => {
            copies_are_resumed(journal.state, stored.journal->0, p.ticket, p.executable@);
        },
        (PreparePhase::Persist, PrepareEvent::Done) => {
            let state = p.journal->0.state;
            fresh_journals_are_in_order(
                state,
                p.ticket,
                p.provider,
                p.executable@,
                p.path@,
                p.enrollment_id,
                around.verdicts,
            );
            state_is_same(state);
        },
        _ => {},
    }
}

proof fn runs_keep_inv(
    states: Seq<Preparation>,
    events: Seq<PrepareEvent>,
    stored: Stored,
    around: Surroundings,
    n: int,
)
    requires
        prepare_run(states, events, stored, around),
        run_inv(states[0], states[0], stored, around),
        around.verdicts.profile_name == around.verdicts.ticket.profile_name,
        states[0].enrollment_id.value != 0,
        0 <= n <= events.len(),
    ensures
        run_inv(states[0], states[n], stored_after(states, events, stored, n), around),
    decreases n,
{
    if n > 0 {
        runs_keep_inv(states, events, stored, around, n - 1);
        let before = stored_after(states, events, stored, n - 1);
        assert(prepare_step(states[n - 1], events[n - 1], states[n - 1 + 1]));
        run_keeps_inv(states[0], states[n - 1], events[n - 1], states[n], before, around);
    }
}

proof fn ready_stays(
    states: Seq<Preparation>,
    events: Seq<PrepareEvent>,
    stored: Stored,
    around: Surroundings,
    from: int,
    n: int,
)
    requires
        prepare_run(states, events, stored, around),
        0 <= from <= n <= events.len(),
        states[from].phase is Ready || states[from].phase is Failed,
    ensures
        states[n].phase == states[from].phase,
        states[n].journal == states[from].journal,
        states[n].credential == states[from].credential,
        stored_after(states, events, stored, n) == stored_after(states, events, stored, from),
    decreases n - from,
{
    if n > from {
        ready_stays(states, events, stored, around, from, n - 1);
        assert(prepare_step(states[n - 1], events[n - 1], states[n - 1 + 1]));
    }
}

/// Preparing an onboarding a second time, with nothing changed in between, goes on with the
/// journal of the first: it is ready with the same enrollment, no credential is made, and what
/// is stored stays as it is, the credential with it.
pub proof fn preparing_again_resumes(
    first: Seq<Preparation>,
    first_events: Seq<PrepareEvent>,
    second: Seq<Preparation>,
    second_events: Seq<PrepareEvent>,
    stored: Stored,
    around: Surroundings,
    ticket: OnboardingTicket,
    again: OnboardingTicket,
    provider: OnboardingProvider,
    executable: Seq<char>,
    config_path: Seq<char>,
    enrollment_id: Uuid,
    other_id: Uuid,
)
    requires
        around.verdicts.profile_name == around.verdicts.ticket.profile_name,
        enrollment_id.value != 0,
        prepare_run(first, first_events, stored, around),
        begun(
            first[0],
            ticket,
            around.verdicts.ticket,
            provider,
            executable,
            config_path,
            enrollment_id,
        ),
        first.last().phase is Ready,
        again.same(ticket),
        prepare_run(
            second,
            second_events,
            stored_after(first, first_events, stored, first_events.len() as int),
            around,
        ),
        begun(
            second[0],
            again,
            around.verdicts.ticket,
            provider,
            executable,
            config_path,
            other_id,
        ),
        second_events.len() >= 5,
        forall|i: int|
            0 <= i < second_events.len() ==> readable(
                second[i],
                #[trigger] second_events[i],
                stored_after(first, first_events, stored, first_events.len() as int),
                around.verdicts,
            ),
    ensures
        ({
            let kept = stored_after(first, first_events, stored, first_events.len() as int);
            &&& second.last().phase is Ready
            &&& first.last().journal is Some && second.last().journal is Some
            &&& kept.journal is Some && kept.credential is Some
            &&& first.last().journal->0.state.same(kept.journal->0)
            &&& second.last().journal->0.state.same(kept.journal->0)
            &&& second.last().journal->0.state.enrollment_id
                == first.last().journal->0.state.enrollment_id
            &&& second.last().journal->0.state.credential_file@
                == first.last().journal->0.state.credential_file@
            &&& second.last().credential is None
            &&& stored_after(second, second_events, kept, second_events.len() as int) == kept
        }),
{
    let kept = stored_after(first, first_events, stored, first_events.len() as int);
    runs_keep_inv(first, first_events, stored, around, first_events.len() as int);
    same_tickets_same_fault(again, ticket, around.verdicts.ticket);
    same_ticket_as_same(again, ticket);
    let state = kept.journal->0;
    assert(resumable(state, again, executable)) by {
        if state.ticket is Some {
            same_ticket_as_same(state.ticket->0, ticket);
            same_ticket_as_both(ticket, state.ticket->0, again);
        }
    }
    reveal_with_fuel(stored_after, 6);
    assert(prepare_step(second[0], second_events[0], second[0int + 1]));
    assert(second[1].phase is Locate);
    assert(prepare_step(second[1], second_events[1], second[1int + 1]));
    assert(located(second[1], around.current) == located(first[0], around.current));
    assert(second[2].phase is Directories);
    assert(prepare_step(second[2], second_events[2], second[2int + 1]));
    assert(second[3].phase is ReadState);
    assert(prepare_step(second[3], second_events[3], second[3int + 1]));
    assert(second[4].phase is Load);
    assert(loadable(kept, second[4], around.verdicts));
    assert(prepare_step(second[4], second_events[4], second[4int + 1]));
    let loaded = second_events[4]->Loaded_0;
    copies_are_resumed(loaded.state, state, again, executable);
    assert(second[5].phase is Ready);
    ready_stays(second, second_events, kept, around, 5, second_events.len() as int);
}

/// A ticket for one provider prepares nothing for another: the preparation is refused, and
/// what is stored stays as it is.
pub proof fn tickets_are_for_their_provider(
    states: Seq<Preparation>,
    events: Seq<PrepareEvent>,
    stored: Stored,
    around: Surroundings,
    ticket: OnboardingTicket,
    provider: OnboardingProvider,
    executable: Seq<char>,
    config_path: Seq<char>,
    enrollment_id: Uuid,
)
    requires
        ticket_fault(ticket, around.verdicts.ticket) is None,
        ticket.provider is Some && ticket.provider->0 != provider,
        prepare_run(states, events, stored, around),
        begun(
            states[0],
            ticket,
            around.verdicts.ticket,
            provider,
            executable,
            config_path,
            enrollment_id,
        ),
    ensures
        states.last().phase == PreparePhase::Failed(JournalError::Conflict),
        states.last().journal is None,
        stored_after(states, events, stored, events.len() as int) == stored,
{
    ready_stays(states, events, stored, around, 0, events.len() as int);
}

/// A credential is adopted only where it is exactly the one of the invitation, whether it
/// was left behind or just made.
pub proof fn only_the_right_credential_is_adopted(p: Preparation, event: PrepareEvent)
    requires
        prepare_next(p, event) is Persist,
        !(p.phase is Persist),
    ensures
        match (p.phase, event) {
            (PreparePhase::ReadCredential, PrepareEvent::Credential(credential)) => claims_ok(
                credential,
                p.ticket.invite_id,
                p.provider,
                p.ticket.workspace@,
            ),
            _ => p.credential is Some && claims_ok(
                p.credential->0,
                p.ticket.invite_id,
                p.provider,
                p.ticket.workspace@,
            ),
        },
{
}

/// Whether the claims of a reply are those of a credential.
pub open spec fn claims_of(credential: CredentialFile, claims: PublicCredentialClaims) -> bool {
    &&& claims.id == credential.id
    &&& claims.role == credential.role
    &&& claims.subject@ == credential.subject@
    &&& claims.agent_side == credential.agent_side
    &&& claims.agent_client == credential.agent_client
    &&& names(claims.workspaces@) == names(credential.workspaces@)
}

/// Whether a route is one of a list.
pub open spec fn offered(routes: Seq<OnboardingRoute>, route: OnboardingRoute) -> bool {
    exists|i: int| 0 <= i < routes.len() && (#[trigger] routes[i]).same(route)
}

/// Why a journal cannot be enrolled over a route at all. `addressed` is whether the route
/// has an address for enrollments.
pub open spec fn enroll_fault(
    state: JournalState,
    info: OnboardingInfo,
    route: OnboardingRoute,
    addressed: bool,
) -> Option<JournalError> {
    match state.ticket {
        None => Some(JournalError::Conflict),
        Some(ticket) => if info.version != VERSION || info.protocol_version != PROTOCOL_VERSION
            || info.server_id != state.server_id {
            Some(JournalError::IdentityMismatch)
        } else if !offered(ticket.routes@, route) || !addressed {
            Some(JournalError::InvalidRoute)
        } else {
            None
        },
    }
}

/// Whether a media type is that of JSON: what stands before the first parameter counts.
pub open spec fn json_content(value: Seq<char>) -> bool {
    same_ignoring_case(trimmed(value.subrange(0, place_of(value, ';', 0))), "application/json"@)
}

fn is_json(value: &str) -> (yes: bool)
    ensures
        yes == json_content(value@),
{
    let chars = chars_of(value);
    let end = find_char(&chars, ';', 0);
    let mime = text_between(&chars, 0, end);
    let bare = trim(mime.as_str());
    eq_ignoring_case(bare.as_str(), "application/json")
}

/// The status, the length and the media type of a reply, as far as they are given.
pub struct ReplyHead {
    pub status: u16,
    pub length: Option<u64>,
    pub content_type: Option<String>,
}

/// Why a reply to an enrollment is refused before it is read.
pub open spec fn head_fault(head: ReplyHead) -> Option<JournalError> {
    if head.status == 401 {
        Some(JournalError::InviteUnavailable)
    } else if head.status == 429 {
        Some(JournalError::RateLimited)
    } else if head.status == 503 {
        Some(JournalError::Unavailable)
    } else if head.status != 200 {
        Some(JournalError::InvalidResponse)
    } else if (head.length matches Some(length) && length > MAX_ENROLLMENT_BYTES)
        || !(head.content_type matches Some(content) && json_content(content@)) {
        Some(JournalError::InvalidResponse)
    } else {
        None
    }
}

pub fn check_head(head: &ReplyHead) -> (checked: Result<(), JournalError>)
    ensures
        checked == (match head_fault(*head) {
            Some(fault) => Err::<(), JournalError>(fault),
            None => Ok(()),
        }),
{
    match head.status {
        200 => {},
        401 => {
            return Err(JournalError::InviteUnavailable);
        },
        429 => {
            return Err(JournalError::RateLimited);
        },
        503 => {
            return Err(JournalError::Unavailable);
        },
        _ => {
            return Err(JournalError::InvalidResponse);
        },
    }
    let long = match head.length {
        Some(length) => length > MAX_ENROLLMENT_BYTES as u64,
        None => false,
    };
    let json = match &head.content_type {
        Some(content) => is_json(content.as_str()),
        None => false,
    };
    if long || !json {
        return Err(JournalError::InvalidResponse);
    }
    Ok(())
}

/// Whether a reply confirms the enrollment of a credential.
pub open spec fn confirms(
    response: EnrollmentResponse,
    state: JournalState,
    credential: CredentialFile,
) -> bool {
    &&& response.version == VERSION
    &&& response.server_id == state.server_id
    &&& response.invite_id == state.invite_id
    &&& claims_of(credential, response.claims)
}

/// Refuses a reply that confirms something else.
pub fn check_response(
    response: &EnrollmentResponse,
    state: &JournalState,
    credential: &CredentialFile,
) -> (checked: Result<(), JournalError>)
    ensures
        checked == if confirms(*response, *state, *credential) {
            Ok::<(), JournalError>(())
        } else {
            Err(JournalError::ClaimsMismatch)
        },
{
    let claims = &response.claims;
    if response.version != VERSION || response.server_id != state.server_id || response.invite_id
        != state.invite_id || claims.id != credential.id || claims.role != credential.role
        || !same_text(claims.subject.as_str(), credential.subject.as_str()) || claims.agent_side
        != credential.agent_side || claims.agent_client != credential.agent_client || !equal_names(
        &claims.workspaces,
        &credential.workspaces,
    ) {
        return Err(JournalError::ClaimsMismatch);
    }
    Ok(())
}

/// What is to be done to enroll.
#[derive(Clone, Copy, Debug, PartialEq, Eq, Structural)]
pub enum EnrollPhase {
    /// The journal's file is to be read.
    Unchanged,
    /// The credential is to be read.
    Credential,
    /// The configuration is to be asked whether the onboarding fits it.
    CheckBinding,
    /// The certificates of the routes are to be stored.
    StoreRoutes,
    /// The request is to be encoded.
    Encode,
    /// It is to be sent, and the head of the answer read.
    Exchange,
    /// The answer is to be read, a piece at a time.
    ReadBody,
    /// The answer is to be decoded.
    Decode,
    /// The journal is to be made to last as enrolled.
    Persist,
    /// The onboarding is to be written into the configuration.
    Publish,
    Enrolled,
    Failed(JournalError),
}

/// How that went.
pub enum EnrollEvent {
    State(StateFile),
    Credential(CredentialFile),
    Done,
    /// The request takes that many bytes, if it has an encoding.
    Encoded(Option<usize>),
    /// The answer begins so.
    Head(ReplyHead),
    /// A piece of the answer.
    Chunk(Vec<u8>),
    /// The answer is complete.
    End,
    /// There was no answer in time.
    Unreachable,
    /// What the answer is decoded to, nothing where it is no reply to an enrollment.
    Response(Option<EnrollmentResponse>),
    /// What is done with the credential, the journal or the configuration failed.
    Failed(JournalError),
}

/// An enrollment.
pub struct Enrollment {
    pub phase: EnrollPhase,
    pub credential: Option<CredentialFile>,
    /// The answer, as far as it has been read.
    pub body: BoundedBody,
    /// What was confirmed.
    pub claims: Option<PublicCredentialClaims>,
}

impl Enrollment {
    /// No more of an answer is held than an answer may have.
    pub open spec fn wf(self) -> bool {
        self.body.wf() && self.body.limit() == MAX_ENROLLMENT_BYTES
    }
}

/// What is to be done once something has been. `held` is how much of the answer has been
/// read.
pub open spec fn enroll_next(
    phase: EnrollPhase,
    credential: Option<CredentialFile>,
    held: nat,
    journal: Journal,
    event: EnrollEvent,
) -> EnrollPhase {
    match (phase, event) {
        (EnrollPhase::Unchanged, EnrollEvent::State(file)) => match unchanged_fault(journal, file) {
            Some(fault) => EnrollPhase::Failed(fault),
            None => EnrollPhase::Credential,
        },
        (EnrollPhase::Credential, EnrollEvent::Credential(_)) => EnrollPhase::CheckBinding,
        (EnrollPhase::CheckBinding, EnrollEvent::Done) => EnrollPhase::StoreRoutes,
        (EnrollPhase::StoreRoutes, EnrollEvent::Done) => EnrollPhase::Encode,
        (EnrollPhase::Encode, EnrollEvent::Encoded(Some(length))) => if length
            <= MAX_ENROLLMENT_BYTES {
            EnrollPhase::Exchange
        } else {
            EnrollPhase::Failed(JournalError::Invalid)
        },
        (EnrollPhase::Encode, EnrollEvent::Encoded(None)) => EnrollPhase::Failed(
            JournalError::Invalid,
        ),
        (EnrollPhase::Exchange, EnrollEvent::Head(head)) => match head_fault(head) {
            Some(fault) => EnrollPhase::Failed(fault),
            None => EnrollPhase::ReadBody,
        },
        (EnrollPhase::Exchange | EnrollPhase::ReadBody, EnrollEvent::Unreachable) => {
            EnrollPhase::Failed(JournalError::Unavailable)
        },
        (EnrollPhase::ReadBody, EnrollEvent::Chunk(chunk)) => if held + chunk@.len()
            <= MAX_ENROLLMENT_BYTES {
            EnrollPhase::ReadBody
        } else {
            EnrollPhase::Failed(JournalError::InvalidResponse)
        },
        (EnrollPhase::ReadBody, EnrollEvent::End) => EnrollPhase::Decode,
        (EnrollPhase::Decode, EnrollEvent::Response(None)) => EnrollPhase::Failed(
            JournalError::InvalidResponse,
        ),
        (EnrollPhase::Decode, EnrollEvent::Response(Some(response))) => match credential {
            Some(credential) => if confirms(response, journal.state, credential) {
                EnrollPhase::Persist
            } else {
                EnrollPhase::Failed(JournalError::ClaimsMismatch)
            },
            None => EnrollPhase::Failed(JournalError::ClaimsMismatch),
        },
        (EnrollPhase::Persist, EnrollEvent::Done) => if journal.state.ticket is Some {
            EnrollPhase::Publish
        } else {
            EnrollPhase::Failed(JournalError::Invalid)
        },
        (EnrollPhase::Publish, EnrollEvent::Done) => EnrollPhase::Enrolled,
        (
            EnrollPhase::Credential | EnrollPhase::CheckBinding | EnrollPhase::StoreRoutes
            | EnrollPhase::Persist | EnrollPhase::Publish,
            EnrollEvent::Failed(error),
        ) => EnrollPhase::Failed(error),
        _ => phase,
    }
}

/// Whether a request asks for the enrollment of a credential.
pub open spec fn request_of(
    request: EnrollmentRequest,
    state: JournalState,
    token: Seq<char>,
    credential: CredentialFile,
) -> bool {
    &&& request.version == VERSION
    &&& request.server_id == state.server_id
    &&& request.invite_id == state.invite_id
    &&& request.invite_token@ == token
    &&& request.enrollment_id == state.enrollment_id
    &&& request.provider == state.provider
    &&& request.credential_id == credential.id
    &&& request.credential_token@ == credential.token@
}

/// The request that a credential is enrolled with, where the journal has its ticket still.
pub fn enrollment_request(state: &JournalState, credential: &CredentialFile) -> (request: Option<
    EnrollmentRequest,
>)
    ensures
        match state.ticket {
            Some(ticket) => request matches Some(request) && request_of(
                request,
                *state,
                ticket.invite_token@,
                *credential,
            ),
            None => request is None,
        },
{
    match &state.ticket {
        Some(ticket) => Some(
            EnrollmentRequest {
                version: VERSION,
                server_id: state.server_id,
                invite_id: state.invite_id,
                invite_token: ticket.invite_token.as_str().to_owned(),
                enrollment_id: state.enrollment_id,
                provider: state.provider,
                credential_id: credential.id,
                credential_token: credential.token.as_str().to_owned(),
            },
        ),
        None => None,
    }
}

impl Enrollment {
    /// An enrollment over a route begins.
    pub fn begin(
        state: &JournalState,
        info: &OnboardingInfo,
        route: &OnboardingRoute,
        addressed: bool,
    ) -> (enrollment: Enrollment)
        ensures
            enrollment.wf(),
            enrollment.phase == (match enroll_fault(*state, *info, *route, addressed) {
                Some(fault) => EnrollPhase::Failed(fault),
                None => EnrollPhase::Unchanged,
            }),
            enrollment.credential is None,
            enrollment.body.held().len() == 0,
            enrollment.claims is None,
    {
        let phase = match &state.ticket {
            None => EnrollPhase::Failed(JournalError::Conflict),
            Some(ticket) => if info.version != VERSION || info.protocol_version != PROTOCOL_VERSION
                || info.server_id != state.server_id {
                EnrollPhase::Failed(JournalError::IdentityMismatch)
            } else if !has_route(&ticket.routes, route) || !addressed {
                EnrollPhase::Failed(JournalError::InvalidRoute)
            } else {
                EnrollPhase::Unchanged
            },
        };
        Enrollment {
            phase,
            credential: None,
            body: BoundedBody::new(MAX_ENROLLMENT_BYTES),
            claims: None,
        }
    }

    /// Something was done. The journal is the one that is enrolled, as it is now.
    pub fn step(&mut self, journal: &Journal, event: EnrollEvent)
        requires
            old(self).wf(),
        ensures
            final(self).wf(),
            final(self).body.held() == (match (old(self).phase, event) {
                (EnrollPhase::ReadBody, EnrollEvent::Chunk(chunk)) => if final(self).phase
                    is ReadBody {
                    old(self).body.held() + chunk@
                } else {
                    old(self).body.held()
                },
                _ => old(self).body.held(),
            }),
            final(self).phase == enroll_next(
                old(self).phase,
                old(self).credential,
                old(self).body.held().len(),
                *journal,
                event,
            ),
            final(self).credential == (match (old(self).phase, event) {
                (EnrollPhase::Credential, EnrollEvent::Credential(credential)) => Some(credential),
                _ => old(self).credential,
            }),
            final(self).claims == (match (old(self).phase, event) {
                (EnrollPhase::Decode, EnrollEvent::Response(Some(response))) => if final(self).phase
                    is Persist {
                    Some(response.claims)
                } else {
                    old(self).claims
                },
                _ => old(self).claims,
            }),
    {
        match (self.phase, event) {
            (EnrollPhase::Unchanged, EnrollEvent::State(file)) => {
                self.phase =
                match journal.assert_unchanged(&file) {
                    Ok(()) => EnrollPhase::Credential,
                    Err(fault) => EnrollPhase::Failed(fault),
                };
            },
            (EnrollPhase::Credential, EnrollEvent::Credential(credential)) => {
                self.credential = Some(credential);
                self.phase = EnrollPhase::CheckBinding;
            },
            (EnrollPhase::CheckBinding, EnrollEvent::Done) => {
                self.phase = EnrollPhase::StoreRoutes;
            },
            (EnrollPhase::StoreRoutes, EnrollEvent::Done) => {
                self.phase = EnrollPhase::Encode;
            },
            (EnrollPhase::Encode, EnrollEvent::Encoded(Some(length))) => {
                self.phase =
                if length <= MAX_ENROLLMENT_BYTES {
                    EnrollPhase::Exchange
                } else {
                    EnrollPhase::Failed(JournalError::Invalid)
                };
            },
            (EnrollPhase::Encode, EnrollEvent::Encoded(None)) => {
                self.phase = EnrollPhase::Failed(JournalError::Invalid);
            },
            (EnrollPhase::Exchange, EnrollEvent::Head(head)) => {
                self.phase =
                match check_head(&head) {
                    Ok(()) => EnrollPhase::ReadBody,
                    Err(fault) => EnrollPhase::Failed(fault),
                };
            },
            (EnrollPhase::Exchange | EnrollPhase::ReadBody, EnrollEvent::Unreachable) => {
                self.phase = EnrollPhase::Failed(JournalError::Unavailable);
            },
            (EnrollPhase::ReadBody, EnrollEvent::Chunk(chunk)) => {
                if !self.body.push(chunk.as_slice()) {
                    self.phase = EnrollPhase::Failed(JournalError::InvalidResponse);
                }
            },
            (EnrollPhase::ReadBody, EnrollEvent::End) => {
                self.phase = EnrollPhase::Decode;
            },
            (EnrollPhase::Decode, EnrollEvent::Response(None)) => {
                self.phase = EnrollPhase::Failed(JournalError::InvalidResponse);
            },
            (EnrollPhase::Decode, EnrollEvent::Response(Some(response))) => {
                let checked = match &self.credential {
                    Some(credential) => check_response(&response, &journal.state, credential),
                    None => Err(JournalError::ClaimsMismatch),
                };
                match checked {
                    Ok(()) => {
                        self.claims = Some(response.claims);
                        self.phase = EnrollPhase::Persist;
                    },
                    Err(fault) => {
                        self.phase = EnrollPhase::Failed(fault);
                    },
                }
            },
            (EnrollPhase::Persist, EnrollEvent::Done) => {
                self.phase =
                match &journal.state.ticket {
                    Some(_) => EnrollPhase::Publish,
                    None => EnrollPhase::Failed(JournalError::Invalid),
                };
            },
            (EnrollPhase::Publish, EnrollEvent::Done) => {
                self.phase = EnrollPhase::Enrolled;
            },
            (
                EnrollPhase::Credential | EnrollPhase::CheckBinding | EnrollPhase::StoreRoutes
                | EnrollPhase::Persist | EnrollPhase::Publish,
                EnrollEvent::Failed(error),
            ) => {
                self.phase = EnrollPhase::Failed(error);
            },
            _ => {},
        }
    }
}

fn has_route(routes: &Vec<OnboardingRoute>, route: &OnboardingRoute) -> (found: bool)
    ensures
        found == offered(routes@, *route),
{
    let mut i: usize = 0;
    while i < routes.len()
        invariant
            i <= routes@.len(),
            forall|j: int| 0 <= j < i ==> !(#[trigger] routes@[j]).same(*route),
        decreases routes.len() - i,
    {
        if routes[i].equals(route) {
            assert(routes@[i as int].same(*route));
            return true;
        }
        i += 1;
    }
    false
}

/// How far an enrollment has come.
pub open spec fn enroll_rank(phase: EnrollPhase) -> int {
    match phase {
        EnrollPhase::Unchanged => 0,
        EnrollPhase::Credential => 1,
        EnrollPhase::CheckBinding => 2,
        EnrollPhase::StoreRoutes => 3,
        EnrollPhase::Encode => 4,
        EnrollPhase::Exchange => 5,
        EnrollPhase::ReadBody => 6,
        EnrollPhase::Decode => 7,
        EnrollPhase::Persist => 8,
        EnrollPhase::Publish => 9,
        EnrollPhase::Enrolled => 10,
        EnrollPhase::Failed(_) => -1,
    }
}

/// An enrollment skips nothing, whatever an earlier one has done: certificates are stored
/// before the exchange, the exchange has been made before the journal is enrolled, and the
/// journal is enrolled before the configuration tells of it.
pub proof fn enrollment_skips_nothing(
    phase: EnrollPhase,
    credential: Option<CredentialFile>,
    held: nat,
    journal: Journal,
    event: EnrollEvent,
)
    ensures
        ({
            let next = enroll_next(phase, credential, held, journal, event);
            next is Failed || enroll_rank(next) == enroll_rank(phase) || enroll_rank(next)
                == enroll_rank(phase) + 1
        }),
{
}

/// A journal is enrolled only where the router has confirmed exactly its own credential.
pub proof fn only_confirmed_credentials_are_enrolled(
    phase: EnrollPhase,
    credential: Option<CredentialFile>,
    held: nat,
    journal: Journal,
    event: EnrollEvent,
)
    requires
        enroll_next(phase, credential, held, journal, event) is Persist,
        !(phase is Persist),
    ensures
        phase is Decode,
        event matches EnrollEvent::Response(Some(response)) && credential is Some && confirms(
            response,
            journal.state,
            credential->0,
        ),
{
}

/// A reply is read only after its head was accepted, and never beyond what a reply may have.
pub proof fn replies_are_checked_before_they_are_read(
    phase: EnrollPhase,
    credential: Option<CredentialFile>,
    held: nat,
    journal: Journal,
    event: EnrollEvent,
)
    requires
        enroll_next(phase, credential, held, journal, event) is ReadBody,
    ensures
        phase is ReadBody || (phase is Exchange && (event matches EnrollEvent::Head(head)
            && head_fault(head) is None)),
        phase is ReadBody ==> (event matches EnrollEvent::Chunk(chunk) ==> held + chunk@.len()
            <= MAX_ENROLLMENT_BYTES),
{
}

/// Enrolling again asks the same: the requests of a journal and of the same one once it is
/// enrolled are alike, so the router sees the same enrollment.
pub proof fn enrolling_again_asks_the_same(
    new: JournalState,
    old: JournalState,
    credential: CredentialFile,
    first: EnrollmentRequest,
    second: EnrollmentRequest,
)
    requires
        enrolled_from(new, old),
        old.ticket is Some,
        request_of(first, old, old.ticket->0.invite_token@, credential),
        request_of(second, new, new.ticket->0.invite_token@, credential),
    ensures
        same_opt_ticket(new.ticket, old.ticket),
        second.version == first.version,
        second.server_id == first.server_id,
        second.invite_id == first.invite_id,
        second.invite_token@ == first.invite_token@,
        second.enrollment_id == first.enrollment_id,
        second.provider == first.provider,
        second.credential_id == first.credential_id,
        second.credential_token@ == first.credential_token@,
{
}

} // verus!
