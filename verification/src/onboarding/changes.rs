//! The changes of a journal, and how one is made to last.

use vstd::prelude::*;

use crate::ids::{hyphenated_text, Uuid};
use crate::onboarding::journal::{
    action_ok, actions_ok, clash, plain_argument, secrets_of, state_fault, tells_secret,
    validate_action, ActionRecord, ActionStatus, InstallAction, JournalError, JournalState, Stage,
    StateVerdicts, MAX_STATE_BYTES, stage_rank,
};
use crate::onboarding::{same_tickets_same_fault, OnboardingProvider, OnboardingTicket};
use crate::text::{concat3, has_part, same_bytes, texts};

verus! {

/// Whether two records are the same.
pub open spec fn same_record(a: ActionRecord, b: ActionRecord) -> bool {
    a.intent.same(b.intent) && a.status == b.status
}

/// Whether two lists of records are the same.
pub open spec fn same_records(a: Seq<ActionRecord>, b: Seq<ActionRecord>) -> bool {
    a.len() == b.len() && forall|i: int| 0 <= i < a.len() ==> same_record(#[trigger] a[i], b[i])
}

/// Whether two optional tickets are the same.
pub open spec fn same_opt_ticket(a: Option<OnboardingTicket>, b: Option<OnboardingTicket>) -> bool {
    match (a, b) {
        (Some(a), Some(b)) => a.same(b),
        (None, None) => true,
        _ => false,
    }
}

/// Whether two journals are of the same onboarding: all but how far it has come, its ticket
/// and its records is the same.
pub open spec fn same_base(a: JournalState, b: JournalState) -> bool {
    &&& a.version == b.version
    &&& a.invite_id == b.invite_id
    &&& a.provider == b.provider
    &&& a.server_id == b.server_id
    &&& a.profile_name@ == b.profile_name@
    &&& a.workspace@ == b.workspace@
    &&& a.enrollment_id == b.enrollment_id
    &&& a.credential_file@ == b.credential_file@
    &&& a.executable@ == b.executable@
    &&& a.manifest_sha256@ == b.manifest_sha256@
}

impl JournalState {
    /// Whether two journals are the same.
    pub open spec fn same(self, other: JournalState) -> bool {
        &&& same_base(self, other)
        &&& self.stage == other.stage
        &&& same_opt_ticket(self.ticket, other.ticket)
        &&& same_records(self.actions@, other.actions@)
    }

    /// Another copy of this journal.
    pub fn copy(&self) -> (copy: JournalState)
        ensures
            copy.same(*self),
    {
        let ticket = match &self.ticket {
            Some(ticket) => Some(ticket.copy()),
            None => None,
        };
        JournalState {
            version: self.version,
            invite_id: self.invite_id,
            provider: self.provider,
            server_id: self.server_id,
            profile_name: self.profile_name.as_str().to_owned(),
            workspace: self.workspace.copy(),
            enrollment_id: self.enrollment_id,
            credential_file: self.credential_file.as_str().to_owned(),
            executable: self.executable.as_str().to_owned(),
            manifest_sha256: self.manifest_sha256.as_str().to_owned(),
            stage: self.stage,
            ticket,
            actions: copy_records(&self.actions),
        }
    }
}

fn copy_records(list: &Vec<ActionRecord>) -> (copy: Vec<ActionRecord>)
    ensures
        same_records(copy@, list@),
{
    let mut copy: Vec<ActionRecord> = Vec::new();
    let mut i: usize = 0;
    while i < list.len()
        invariant
            i <= list@.len(),
            copy@.len() == i,
            forall|j: int| 0 <= j < i ==> same_record(#[trigger] copy@[j], list@[j]),
        decreases list.len() - i,
    {
        copy.push(ActionRecord { intent: list[i].intent.copy(), status: list[i].status });
        i += 1;
    }
    copy
}

/// A journal as its directory has it.
pub struct Journal {
    pub config_path: String,
    /// The directory of the journal.
    pub path: String,
    pub state: JournalState,
    /// The bytes of the journal's file, none where there is no file yet.
    pub persisted: Vec<u8>,
    /// Whether it is unsure what lasts: then nothing changes until the journal is loaded
    /// again.
    pub needs_reload: bool,
}

/// What planning an action leads to.
pub enum PlanStep {
    /// It is planned already, at a place.
    Known(usize),
    /// It is to be recorded at a place.
    Record(JournalState, usize),
}

/// Whether a journal is another one that has been enrolled.
pub open spec fn enrolled_from(new: JournalState, old: JournalState) -> bool {
    &&& same_base(new, old)
    &&& new.stage is Enrolled
    &&& same_opt_ticket(new.ticket, old.ticket)
    &&& same_records(new.actions@, old.actions@)
}

/// Whether a journal is another one that has been configured: its ticket is gone.
pub open spec fn configured_from(new: JournalState, old: JournalState) -> bool {
    &&& same_base(new, old)
    &&& new.stage is Configured
    &&& new.ticket is None
    &&& same_records(new.actions@, old.actions@)
}

/// Whether a journal is another one with an action planned.
pub open spec fn planned_from(new: JournalState, old: JournalState, action: InstallAction) -> bool {
    &&& same_base(new, old)
    &&& new.stage == old.stage
    &&& same_opt_ticket(new.ticket, old.ticket)
    &&& new.actions@.len() == old.actions@.len() + 1
    &&& same_records(new.actions@.drop_last(), old.actions@)
    &&& new.actions@.last().intent.same(action)
    &&& new.actions@.last().status is Planned
}

/// Whether a journal is another one with the action at a place applied.
pub open spec fn applied_from(new: JournalState, old: JournalState, index: int) -> bool {
    &&& same_base(new, old)
    &&& new.stage == old.stage
    &&& same_opt_ticket(new.ticket, old.ticket)
    &&& new.actions@.len() == old.actions@.len()
    &&& forall|i: int|
        0 <= i < new.actions@.len() ==> (#[trigger] new.actions@[i]).intent.same(
            old.actions@[i].intent,
        ) && new.actions@[i].status == if i == index {
            ActionStatus::Applied
        } else {
            old.actions@[i].status
        }
}

/// The place at which an action is recorded, if it is.
pub open spec fn recorded_at(actions: Seq<ActionRecord>, action: InstallAction, place: int) -> bool {
    &&& 0 <= place < actions.len()
    &&& actions[place].intent.alike(action)
    &&& forall|i: int| 0 <= i < place ==> !(#[trigger] actions[i]).intent.alike(action)
}

/// Whether an action is recorded nowhere.
pub open spec fn unrecorded(actions: Seq<ActionRecord>, action: InstallAction) -> bool {
    forall|i: int| 0 <= i < actions.len() ==> !(#[trigger] actions[i]).intent.alike(action)
}

/// Whether the file that an action writes is written by another.
pub open spec fn file_taken(actions: Seq<ActionRecord>, action: InstallAction) -> bool {
    exists|i: int| 0 <= i < actions.len() && (#[trigger] actions[i]).intent.same_file(action)
}

/// What planning an action leads to, where the journal is as it was left and the
/// credential's token is at hand.
pub open spec fn plan_leads(
    state: JournalState,
    action: InstallAction,
    token: Seq<char>,
    step: Result<PlanStep, JournalError>,
) -> bool {
    if !action_ok(action, secrets_of(state.ticket, Some(token))) {
        step matches Err(error) && error == JournalError::Invalid
    } else if !unrecorded(state.actions@, action) {
        step matches Ok(PlanStep::Known(place)) && recorded_at(state.actions@, action, place as int)
    } else if state.stage is Configured || file_taken(state.actions@, action) {
        step matches Err(error) && error == JournalError::Conflict
    } else {
        step matches Ok(PlanStep::Record(candidate, place)) && planned_from(candidate, state, action)
            && place == state.actions@.len()
    }
}

/// What the file of a journal holds, or why it cannot be read.
pub enum StateFile {
    Bytes(Vec<u8>),
    Failed(JournalError),
}

/// Why a journal cannot be changed: it is unsure what lasts, or the file is not as it was
/// left.
pub open spec fn unchanged_fault(journal: Journal, file: StateFile) -> Option<JournalError> {
    if journal.needs_reload {
        Some(JournalError::Conflict)
    } else {
        match file {
            StateFile::Bytes(bytes) => if bytes@ == journal.persisted@ {
                None
            } else {
                Some(JournalError::Conflict)
            },
            StateFile::Failed(JournalError::NotFound) => if journal.persisted@.len() == 0 {
                None
            } else {
                Some(JournalError::Conflict)
            },
            StateFile::Failed(error) => Some(error),
        }
    }
}

impl Journal {
    /// A journal that was read from its directory.
    pub fn loaded(config_path: String, path: String, state: JournalState, persisted: Vec<u8>) -> (journal:
        Journal)
        ensures
            journal == (Journal { config_path, path, state, persisted, needs_reload: false }),
    {
        Journal { config_path, path, state, persisted, needs_reload: false }
    }

    /// A journal that is not on the disk yet.
    pub fn unwritten(config_path: String, path: String, state: JournalState) -> (journal: Journal)
        ensures
            journal.config_path == config_path,
            journal.path == path,
            journal.state == state,
            journal.persisted@.len() == 0,
            !journal.needs_reload,
    {
        Journal { config_path, path, state, persisted: Vec::new(), needs_reload: false }
    }

    pub fn state(&self) -> (state: &JournalState)
        ensures
            *state == self.state,
    {
        &self.state
    }

    /// Refuses to go on where the journal's file is not as it was left.
    pub fn assert_unchanged(&self, file: &StateFile) -> (checked: Result<(), JournalError>)
        ensures
            checked == (match unchanged_fault(*self, *file) {
                Some(fault) => Err::<(), JournalError>(fault),
                None => Ok(()),
            }),
    {
        if self.needs_reload {
            return Err(JournalError::Conflict);
        }
        match file {
            StateFile::Bytes(bytes) => if same_bytes(bytes.as_slice(), self.persisted.as_slice()) {
                Ok(())
            } else {
                Err(JournalError::Conflict)
            },
            StateFile::Failed(error) => match error {
                JournalError::NotFound => if self.persisted.len() == 0 {
                    Ok(())
                } else {
                    Err(JournalError::Conflict)
                },
                _ => Err(*error),
            },
        }
    }

    /// The journal once it is enrolled.
    pub fn enrolled(&self) -> (candidate: JournalState)
        ensures
            enrolled_from(candidate, self.state),
    {
        let mut candidate = self.state.copy();
        candidate.stage = Stage::Enrolled;
        candidate
    }

    /// The journal once it is configured: it must have been enrolled, and every action
    /// applied.
    pub fn mark_configured(&self) -> (candidate: Result<JournalState, JournalError>)
        ensures
            if !(self.state.stage is Prepared) && (forall|i: int|
                0 <= i < self.state.actions@.len() ==> (#[trigger] self.state.actions@[i]).status
                    is Applied) {
                candidate matches Ok(candidate) && configured_from(candidate, self.state)
            } else {
                candidate matches Err(error) && error == JournalError::Conflict
            },
    {
        if self.state.stage == Stage::Prepared {
            return Err(JournalError::Conflict);
        }
        let mut i: usize = 0;
        while i < self.state.actions.len()
            invariant
                i <= self.state.actions@.len(),
                forall|j: int|
                    0 <= j < i ==> (#[trigger] self.state.actions@[j]).status is Applied,
            decreases self.state.actions.len() - i,
        {
            if self.state.actions[i].status != ActionStatus::Applied {
                assert(!(self.state.actions@[i as int].status is Applied));
                return Err(JournalError::Conflict);
            }
            i += 1;
        }
        let mut candidate = self.state.copy();
        candidate.stage = Stage::Configured;
        candidate.ticket = None;
        Ok(candidate)
    }

    /// The journal once an action is planned. The file of the journal must be as it was
    /// left, and the action may tell neither the ticket's token nor the credential's. An
    /// action that is planned already is not planned again; after the configuration none
    /// is, and no file is written by two.
    pub fn plan(
        &self,
        file: &StateFile,
        action: InstallAction,
        credential_token: Result<&str, JournalError>,
    ) -> (step: Result<PlanStep, JournalError>)
        ensures
            match unchanged_fault(*self, *file) {
                Some(fault) => step matches Err(error) && error == fault,
                None => match credential_token {
                    Err(fault) => step matches Err(error) && error == fault,
                    Ok(token) => plan_leads(self.state, action, token@, step),
                },
            },
    {
        if let Err(fault) = self.assert_unchanged(file) {
            return Err(fault);
        }
        let token = match credential_token {
            Ok(token) => token,
            Err(fault) => {
                return Err(fault);
            },
        };
        if let Err(fault) = validate_action(&action, &self.state.ticket, Some(token)) {
            return Err(fault);
        }
        let mut i: usize = 0;
        let mut taken = false;
        while i < self.state.actions.len()
            invariant
                i <= self.state.actions@.len(),
                forall|j: int|
                    0 <= j < i ==> !(#[trigger] self.state.actions@[j]).intent.alike(action),
                taken == exists|j: int|
                    0 <= j < i && (#[trigger] self.state.actions@[j]).intent.same_file(action),
                unchanged_fault(*self, *file) is None,
                credential_token == Ok::<&str, JournalError>(token),
                action_ok(action, secrets_of(self.state.ticket, Some(token@))),
            decreases self.state.actions.len() - i,
        {
            if self.state.actions[i].intent.equals(&action) {
                assert(recorded_at(self.state.actions@, action, i as int));
                return Ok(PlanStep::Known(i));
            }
            if self.state.actions[i].intent.writes_same(&action) {
                assert(self.state.actions@[i as int].intent.same_file(action));
                taken = true;
            }
            i += 1;
        }
        if self.state.stage == Stage::Configured || taken {
            return Err(JournalError::Conflict);
        }
        let place = self.state.actions.len();
        let mut candidate = self.state.copy();
        let ghost before = candidate.actions@;
        candidate.actions.push(ActionRecord { intent: action, status: ActionStatus::Planned });
        proof {
            assert(candidate.actions@.drop_last() =~= before);
            same_is_reflexive(action);
        }
        Ok(PlanStep::Record(candidate, place))
    }

    /// The journal once the action at a place is applied.
    pub fn mark_applied(&self, index: usize) -> (candidate: Result<JournalState, JournalError>)
        ensures
            if index < self.state.actions@.len() {
                candidate matches Ok(candidate) && applied_from(
                    candidate,
                    self.state,
                    index as int,
                )
            } else {
                candidate matches Err(error) && error == JournalError::Conflict
            },
    {
        if index >= self.state.actions.len() {
            return Err(JournalError::Conflict);
        }
        let mut candidate = self.state.copy();
        let ghost copied = candidate.actions@;
        let intent = candidate.actions[index].intent.copy();
        proof {
            same_is_transitive(
                intent,
                copied[index as int].intent,
                self.state.actions@[index as int].intent,
            );
        }
        candidate.actions.set(index, ActionRecord { intent, status: ActionStatus::Applied });
        proof {
            assert forall|i: int| 0 <= i < candidate.actions@.len() implies (
            #[trigger] candidate.actions@[i]).intent.same(self.state.actions@[i].intent)
                && candidate.actions@[i].status == (if i == index {
                ActionStatus::Applied
            } else {
                self.state.actions@[i].status
            }) by {
                assert(same_record(copied[i], self.state.actions@[i]));
            }
        }
        Ok(candidate)
    }
}

proof fn same_is_reflexive(a: InstallAction)
    ensures
        a.same(a),
{
}

proof fn same_is_transitive(a: InstallAction, b: InstallAction, c: InstallAction)
    requires
        a.same(b),
        b.same(c),
    ensures
        a.same(c),
{
}

/// What is to be done to make a change last.
#[derive(Clone, Copy, Debug, PartialEq, Eq, Structural)]
pub enum PersistPhase {
    /// A new file is to be made, for its owner alone.
    Create,
    /// The bytes are to be written into it, and onto the disk.
    Write,
    /// It is to be given the name of the journal's file, in place of one or of none.
    Rename { replaces: bool },
    /// The name it was made under is to be removed.
    Unlink(Option<JournalError>),
    /// The directory is to be written onto the disk.
    Sync,
    Failed(JournalError),
    Done,
}

/// How that went.
#[derive(Clone, Copy, Debug, PartialEq, Eq, Structural)]
pub enum PersistEvent {
    Done,
    Failed,
    /// There is a file of the journal's name already.
    Exists,
}

/// What makes a change last.
pub struct Persistence {
    pub phase: PersistPhase,
    pub candidate: JournalState,
    pub bytes: Vec<u8>,
}

/// What is to be done once something has been.
pub open spec fn persist_next(phase: PersistPhase, fresh: bool, event: PersistEvent) -> PersistPhase {
    match (phase, event) {
        (PersistPhase::Create, PersistEvent::Done) => PersistPhase::Write,
        (PersistPhase::Create, PersistEvent::Failed) => PersistPhase::Failed(JournalError::Io),
        (PersistPhase::Write, PersistEvent::Done) => PersistPhase::Rename { replaces: !fresh },
        (PersistPhase::Write, PersistEvent::Failed) => PersistPhase::Unlink(Some(JournalError::Io)),
        (PersistPhase::Rename { .. }, PersistEvent::Done) => PersistPhase::Unlink(None),
        (PersistPhase::Rename { replaces }, PersistEvent::Exists) => PersistPhase::Unlink(
            Some(
                if replaces {
                    JournalError::Io
                } else {
                    JournalError::Conflict
                },
            ),
        ),
        (PersistPhase::Rename { .. }, PersistEvent::Failed) => PersistPhase::Unlink(
            Some(JournalError::Io),
        ),
        (PersistPhase::Unlink(Some(error)), PersistEvent::Exists) => phase,
        (PersistPhase::Unlink(None), PersistEvent::Exists) => phase,
        (PersistPhase::Unlink(Some(error)), _) => PersistPhase::Failed(error),
        (PersistPhase::Unlink(None), _) => PersistPhase::Sync,
        (PersistPhase::Sync, PersistEvent::Done) => PersistPhase::Done,
        (PersistPhase::Sync, PersistEvent::Failed) => PersistPhase::Failed(JournalError::Io),
        _ => phase,
    }
}

impl Persistence {
    /// A change is to be made to last. The journal's file must be as it was left, and the
    /// change has its bytes, few enough of them; none where it has no encoding.
    pub fn begin(
        journal: &Journal,
        file: &StateFile,
        candidate: JournalState,
        bytes: Option<Vec<u8>>,
    ) -> (begun: Result<Persistence, JournalError>)
        ensures
            match unchanged_fault(*journal, *file) {
                Some(fault) => begun matches Err(error) && error == fault,
                None => match bytes {
                    Some(bytes) => if bytes@.len() <= MAX_STATE_BYTES {
                        begun matches Ok(begun) && begun == (Persistence {
                            phase: PersistPhase::Create,
                            candidate,
                            bytes,
                        })
                    } else {
                        begun matches Err(error) && error == JournalError::Invalid
                    },
                    None => begun matches Err(error) && error == JournalError::Invalid,
                },
            },
    {
        if let Err(fault) = journal.assert_unchanged(file) {
            return Err(fault);
        }
        match bytes {
            Some(bytes) => {
                if bytes.len() > MAX_STATE_BYTES {
                    return Err(JournalError::Invalid);
                }
                Ok(Persistence { phase: PersistPhase::Create, candidate, bytes })
            },
            None => Err(JournalError::Invalid),
        }
    }

    /// The name of the new file.
    pub fn temporary_name(id: Uuid) -> (name: String)
        ensures
            name@ == ".state-"@ + hyphenated_text(id.value) + ".tmp"@,
    {
        concat3(".state-", id.to_text().as_str(), ".tmp")
    }

    /// Something was done. Once the file has its name, it is unsure what lasts until the
    /// directory is on the disk too; only then the journal is changed.
    pub fn step(self, journal: &mut Journal, event: PersistEvent) -> (next: Persistence)
        ensures
            next.phase == persist_next(self.phase, old(journal).persisted@.len() == 0, event),
            if next.phase is Done && !(self.phase is Done) {
                *final(journal) == (Journal {
                    state: self.candidate,
                    persisted: self.bytes,
                    needs_reload: false,
                    ..*old(journal)
                })
            } else {
                &&& next.candidate == self.candidate
                &&& next.bytes == self.bytes
                &&& *final(journal) == (Journal {
                    needs_reload: old(journal).needs_reload || (next.phase is Sync && !(self.phase
                        is Sync)),
                    ..*old(journal)
                })
            },
    {
        let fresh = journal.persisted.len() == 0;
        let Persistence { phase, candidate, bytes } = self;
        let next = match event {
            PersistEvent::Done => match phase {
                PersistPhase::Create => PersistPhase::Write,
                PersistPhase::Write => PersistPhase::Rename { replaces: !fresh },
                PersistPhase::Rename { .. } => PersistPhase::Unlink(None),
                PersistPhase::Unlink(Some(error)) => PersistPhase::Failed(error),
                PersistPhase::Unlink(None) => PersistPhase::Sync,
                PersistPhase::Sync => PersistPhase::Done,
                _ => phase,
            },
            PersistEvent::Failed => match phase {
                PersistPhase::Create => PersistPhase::Failed(JournalError::Io),
                PersistPhase::Write => PersistPhase::Unlink(Some(JournalError::Io)),
                PersistPhase::Rename { .. } => PersistPhase::Unlink(Some(JournalError::Io)),
                PersistPhase::Unlink(Some(error)) => PersistPhase::Failed(error),
                PersistPhase::Unlink(None) => PersistPhase::Sync,
                PersistPhase::Sync => PersistPhase::Failed(JournalError::Io),
                _ => phase,
            },
            PersistEvent::Exists => match phase {
                PersistPhase::Rename { replaces } => PersistPhase::Unlink(
                    Some(
                        if replaces {
                            JournalError::Io
                        } else {
                            JournalError::Conflict
                        },
                    ),
                ),
                _ => phase,
            },
        };
        if next == PersistPhase::Done && phase != PersistPhase::Done {
            let kept = candidate.copy();
            let again = copy_bytes(&bytes);
            journal.state = candidate;
            journal.persisted = bytes;
            journal.needs_reload = false;
            return Persistence { phase: next, candidate: kept, bytes: again };
        }
        if next == PersistPhase::Sync && phase != PersistPhase::Sync {
            journal.needs_reload = true;
        }
        Persistence { phase: next, candidate, bytes }
    }
}

fn copy_bytes(bytes: &Vec<u8>) -> (copy: Vec<u8>)
    ensures
        copy@ == bytes@,
{
    let mut copy: Vec<u8> = Vec::new();
    let mut i: usize = 0;
    while i < bytes.len()
        invariant
            i <= bytes@.len(),
            copy@ == bytes@.take(i as int),
        decreases bytes.len() - i,
    {
        copy.push(bytes[i]);
        assert(bytes@.take(i + 1) =~= bytes@.take(i as int).push(bytes@[i as int]));
        i += 1;
    }
    assert(bytes@.take(i as int) =~= bytes@);
    copy
}

/// A journal changes only when the change is on the disk, and while it is unsure whether it
/// is, the journal refuses every other.
pub proof fn changes_last_before_they_count(
    phase: PersistPhase,
    fresh: bool,
    event: PersistEvent,
    journal: Journal,
    file: StateFile,
)
    ensures
        !(phase is Done) && persist_next(phase, fresh, event) is Done ==> phase is Sync,
        !(phase is Sync) && persist_next(phase, fresh, event) is Sync ==> phase == PersistPhase::Unlink(
            None,
        ),
        persist_next(phase, fresh, event) == PersistPhase::Unlink(None) && phase
            != PersistPhase::Unlink(None) ==> phase is Rename,
        journal.needs_reload ==> unchanged_fault(journal, file) is Some,
{
}

proof fn same_action_same_rule(a: InstallAction, b: InstallAction, s: Seq<Seq<char>>, t: Seq<Seq<char>>)
    requires
        a.same(b),
        forall|k: int| 0 <= k < s.len() ==> t.contains(#[trigger] s[k]),
        action_ok(b, t),
    ensures
        action_ok(a, s),
{
    match (a, b) {
        (InstallAction::Command { argv }, InstallAction::Command { argv: other }) => {
            assert(texts(argv@).len() == texts(other@).len());
            assert forall|i: int| 0 <= i < argv@.len() implies plain_argument(
                #[trigger] argv@[i]@,
                s,
            ) by {
                assert(texts(argv@)[i] == texts(other@)[i]);
                assert(plain_argument(other@[i]@, t));
                if tells_secret(argv@[i]@, s) {
                    let k = choose|k: int|
                        0 <= k < s.len() && has_part(argv@[i]@, #[trigger] s[k]);
                    assert(t.contains(s[k]));
                    let m = choose|m: int| 0 <= m < t.len() && t[m] == s[k];
                    assert(has_part(other@[i]@, t[m]));
                }
            }
            assert(texts(argv@)[0] == texts(other@)[0]);
        },
        _ => {},
    }
}

proof fn same_records_same_rule(
    a: Seq<ActionRecord>,
    b: Seq<ActionRecord>,
    ticket: Option<OnboardingTicket>,
    other: Option<OnboardingTicket>,
    stage: Stage,
)
    requires
        a.len() == b.len(),
        forall|i: int| 0 <= i < a.len() ==> (#[trigger] a[i]).intent.same(b[i].intent),
        ticket is Some ==> other is Some && ticket->0.invite_token@ == other->0.invite_token@,
        actions_ok(b, other, stage),
    ensures
        forall|i: int|
            0 <= i < a.len() ==> action_ok((#[trigger] a[i]).intent, secrets_of(ticket, None)),
        forall|i: int, j: int|
            0 <= i < j < a.len() ==> !clash(#[trigger] a[i], #[trigger] a[j]),
{
    let s = secrets_of(ticket, None);
    let t = secrets_of(other, None);
    assert forall|k: int| 0 <= k < s.len() implies t.contains(#[trigger] s[k]) by {
        assert(t[k] == s[k]);
    }
    assert forall|i: int| 0 <= i < a.len() implies action_ok((#[trigger] a[i]).intent, s) by {
        assert(a[i].intent.same(b[i].intent));
        assert(action_ok(b[i].intent, t));
        same_action_same_rule(a[i].intent, b[i].intent, s, t);
    }
    assert forall|i: int, j: int| 0 <= i < j < a.len() implies !clash(
        #[trigger] a[i],
        #[trigger] a[j],
    ) by {
        assert(!clash(b[i], b[j]));
        assert(a[i].intent.same(b[i].intent) && a[j].intent.same(b[j].intent));
    }
}

/// What is recorded can be loaded again: every change of a journal that is in order leads
/// to one that is.
pub proof fn enrolled_journals_are_in_order(
    new: JournalState,
    old: JournalState,
    invite_id: Uuid,
    provider: OnboardingProvider,
    path: Seq<char>,
    verdicts: StateVerdicts,
)
    requires
        state_fault(old, invite_id, provider, path, verdicts) is None,
        old.ticket is Some,
        enrolled_from(new, old),
    ensures
        state_fault(new, invite_id, provider, path, verdicts) is None,
{
    same_tickets_same_fault(new.ticket->0, old.ticket->0, verdicts.ticket);
    same_records_same_rule(new.actions@, old.actions@, new.ticket, old.ticket, old.stage);
}

/// What is recorded can be loaded again: a journal that is configured.
pub proof fn configured_journals_are_in_order(
    new: JournalState,
    old: JournalState,
    invite_id: Uuid,
    provider: OnboardingProvider,
    path: Seq<char>,
    verdicts: StateVerdicts,
)
    requires
        state_fault(old, invite_id, provider, path, verdicts) is None,
        forall|i: int|
            0 <= i < old.actions@.len() ==> (#[trigger] old.actions@[i]).status is Applied,
        configured_from(new, old),
    ensures
        state_fault(new, invite_id, provider, path, verdicts) is None,
{
    same_records_same_rule(new.actions@, old.actions@, new.ticket, old.ticket, old.stage);
    assert forall|i: int| 0 <= i < new.actions@.len() implies (
    #[trigger] new.actions@[i]).status is Applied by {
        assert(same_record(new.actions@[i], old.actions@[i]));
        assert(old.actions@[i].status is Applied);
    }
}

/// What is recorded can be loaded again: a journal with an action planned, or applied.
pub proof fn planned_journals_are_in_order(
    new: JournalState,
    old: JournalState,
    action: InstallAction,
    token: Seq<char>,
    invite_id: Uuid,
    provider: OnboardingProvider,
    path: Seq<char>,
    verdicts: StateVerdicts,
)
    requires
        state_fault(old, invite_id, provider, path, verdicts) is None,
        !(old.stage is Configured),
        action_ok(action, secrets_of(old.ticket, Some(token))),
        unrecorded(old.actions@, action),
        !file_taken(old.actions@, action),
        planned_from(new, old, action),
    ensures
        state_fault(new, invite_id, provider, path, verdicts) is None,
{
    same_tickets_same_fault(new.ticket->0, old.ticket->0, verdicts.ticket);
    let kept = new.actions@.drop_last();
    let last = new.actions@.last();
    same_records_same_rule(kept, old.actions@, new.ticket, old.ticket, old.stage);
    let s = secrets_of(new.ticket, None);
    let t = secrets_of(old.ticket, Some(token));
    assert forall|k: int| 0 <= k < s.len() implies t.contains(#[trigger] s[k]) by {
        assert(t[k] == s[k]);
    }
    same_action_same_rule(last.intent, action, s, t);
    assert forall|i: int| 0 <= i < new.actions@.len() implies action_ok(
        (#[trigger] new.actions@[i]).intent,
        s,
    ) by {
        if i < kept.len() {
            assert(new.actions@[i] == kept[i]);
        }
    }
    assert forall|i: int, j: int| 0 <= i < j < new.actions@.len() implies !clash(
        #[trigger] new.actions@[i],
        #[trigger] new.actions@[j],
    ) by {
        assert(new.actions@[i] == kept[i]);
        if j < kept.len() {
            assert(new.actions@[j] == kept[j]);
        } else {
            assert(new.actions@[j] == last);
            assert(same_record(kept[i], old.actions@[i]));
            assert(!old.actions@[i].intent.alike(action));
            assert(!old.actions@[i].intent.same_file(action));
        }
    }
}

/// What is recorded can be loaded again: a journal with an action applied.
pub proof fn applied_journals_are_in_order(
    new: JournalState,
    old: JournalState,
    index: int,
    invite_id: Uuid,
    provider: OnboardingProvider,
    path: Seq<char>,
    verdicts: StateVerdicts,
)
    requires
        state_fault(old, invite_id, provider, path, verdicts) is None,
        applied_from(new, old, index),
    ensures
        state_fault(new, invite_id, provider, path, verdicts) is None,
{
    if old.ticket is Some {
        same_tickets_same_fault(new.ticket->0, old.ticket->0, verdicts.ticket);
    }
    same_records_same_rule(new.actions@, old.actions@, new.ticket, old.ticket, old.stage);
    if new.stage is Configured {
        assert forall|i: int| 0 <= i < new.actions@.len() implies (
        #[trigger] new.actions@[i]).status is Applied by {
            assert(old.actions@[i].status is Applied);
        }
    }
}

/// How the path of a file is spelled makes no difference to what is recorded of it and to
/// whether it is written by another.
pub proof fn spellings_are_one_file(
    actions: Seq<ActionRecord>,
    a: InstallAction,
    b: InstallAction,
    place: int,
)
    requires
        a.alike(b),
    ensures
        recorded_at(actions, a, place) == recorded_at(actions, b, place),
        unrecorded(actions, a) == unrecorded(actions, b),
        file_taken(actions, a) == file_taken(actions, b),
{
    assert forall|i: int| 0 <= i < actions.len() implies (#[trigger] actions[i]).intent.alike(a)
        == actions[i].intent.alike(b) && actions[i].intent.same_file(a)
        == actions[i].intent.same_file(b) by {}
}

/// What is planned once is not planned again: a second plan of the same action finds the
/// first.
pub proof fn actions_are_planned_once(new: JournalState, old: JournalState, action: InstallAction)
    requires
        planned_from(new, old, action),
    ensures
        !unrecorded(new.actions@, action),
{
    assert(new.actions@[new.actions@.len() - 1].intent.alike(action));
}

/// No command that is recorded tells the token of the invitation.
pub proof fn records_tell_no_token(
    state: JournalState,
    invite_id: Uuid,
    provider: OnboardingProvider,
    path: Seq<char>,
    verdicts: StateVerdicts,
    i: int,
    j: int,
)
    requires
        state_fault(state, invite_id, provider, path, verdicts) is None,
        state.ticket is Some,
        0 <= i < state.actions@.len(),
        state.actions@[i].intent is Command,
        0 <= j < state.actions@[i].intent->argv@.len(),
    ensures
        !has_part(state.actions@[i].intent->argv@[j]@, state.ticket->0.invite_token@),
{
    let secrets = secrets_of(state.ticket, None);
    let argument = state.actions@[i].intent->argv@[j]@;
    assert(action_ok(state.actions@[i].intent, secrets));
    assert(plain_argument(argument, secrets));
    assert(secrets[0] == state.ticket->0.invite_token@);
}

/// An onboarding never goes back: each change leaves the stage, or moves it on.
pub proof fn onboarding_only_moves_on(new: JournalState, old: JournalState, action: InstallAction, index: int)
    requires
        old.stage is Configured ==> !enrolled_from(new, old),
        enrolled_from(new, old) || configured_from(new, old) || planned_from(new, old, action)
            || applied_from(new, old, index),
    ensures
        stage_rank(new.stage) >= stage_rank(old.stage),
{
}

} // verus!
