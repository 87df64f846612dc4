//! Setting up a provider. Every change of the host is first planned in the journal, and
//! counts only once it has been looked at; what is another's is never touched.

use vstd::prelude::*;

use crate::digest::{digest, digest_text};
use crate::onboarding::journal::{
    ActionRecord, ActionStatus, InstallAction, JournalError, JournalState, Stage,
};
use crate::onboarding::providers::{
    journal_error, journal_fault, step_argv, step_intent, steps_of, FileRead, Ownership,
    ProviderInstallError, ProviderInstaller, RecordedFile, Registered, Step,
};
use crate::onboarding::{provider_text, OnboardingProvider};
use crate::paths::{is_same_path, join, joined, same_path};
use crate::text::{concat, holds_text, opt_text, same_text, texts};

verus! {

/// How far an action is, if it is recorded: the first record counts.
pub open spec fn status_of(actions: Seq<ActionRecord>, action: InstallAction) -> Option<ActionStatus>
    decreases actions.len(),
{
    if actions.len() == 0 {
        None
    } else if actions[0].intent.alike(action) {
        Some(actions[0].status)
    } else {
        status_of(actions.drop_first(), action)
    }
}

/// The digest and the status of the action that writes a file, if one is recorded.
pub open spec fn record_of_file(actions: Seq<ActionRecord>, path: Seq<char>) -> Option<
    (Seq<char>, ActionStatus),
>
    decreases actions.len(),
{
    if actions.len() == 0 {
        None
    } else {
        match actions[0].intent {
            InstallAction::File { path: recorded, sha256 } => if same_path(recorded@, path) {
                Some((sha256@, actions[0].status))
            } else {
                record_of_file(actions.drop_first(), path)
            },
            _ => record_of_file(actions.drop_first(), path),
        }
    }
}

/// How far an action is, if it is recorded.
pub fn action_status(actions: &Vec<ActionRecord>, action: &InstallAction) -> (status: Option<
    ActionStatus,
>)
    ensures
        status == status_of(actions@, *action),
{
    let mut i: usize = 0;
    assert(actions@.skip(0) =~= actions@);
    while i < actions.len()
        invariant
            i <= actions@.len(),
            status_of(actions@, *action) == status_of(actions@.skip(i as int), *action),
        decreases actions.len() - i,
    {
        assert(actions@.skip(i as int)[0] == actions@[i as int]);
        assert(actions@.skip(i as int).drop_first() =~= actions@.skip(i + 1));
        if actions[i].intent.equals(action) {
            return Some(actions[i].status);
        }
        i += 1;
    }
    None
}

/// The digest and the status of the action that writes a file, if one is recorded.
pub fn action_for_file<'a>(actions: &'a Vec<ActionRecord>, path: &str) -> (found: Option<
    (&'a str, ActionStatus),
>)
    ensures
        match record_of_file(actions@, path@) {
            Some((sha256, status)) => found matches Some(found) && found.0@ == sha256 && found.1
                == status,
            None => found is None,
        },
{
    let mut i: usize = 0;
    assert(actions@.skip(0) =~= actions@);
    while i < actions.len()
        invariant
            i <= actions@.len(),
            record_of_file(actions@, path@) == record_of_file(actions@.skip(i as int), path@),
        decreases actions.len() - i,
    {
        assert(actions@.skip(i as int)[0] == actions@[i as int]);
        assert(actions@.skip(i as int).drop_first() =~= actions@.skip(i + 1));
        match &actions[i].intent {
            InstallAction::File { path: recorded, sha256 } => {
                if is_same_path(recorded.as_str(), path) {
                    return Some((sha256.as_str(), actions[i].status));
                }
            },
            InstallAction::Command { .. } => {},
        }
        i += 1;
    }
    None
}

/// The digest of a file, none where there is no file, or why it could not be told.
pub enum FileHash {
    Hash(String),
    Absent,
    Failed(ProviderInstallError),
}

/// Whether a file has a digest.
pub open spec fn hashes_to(hash: FileHash, sha256: Seq<char>) -> bool {
    hash matches FileHash::Hash(given) && given@ == sha256
}

impl FileHash {
    fn is(&self, sha256: &str) -> (same: bool)
        ensures
            same == hashes_to(*self, sha256@),
    {
        match self {
            FileHash::Hash(given) => same_text(given.as_str(), sha256),
            _ => false,
        }
    }

    /// The digest of a file that has to be there.
    pub fn required(self) -> (digest: Result<String, ProviderInstallError>)
        ensures
            match self {
                FileHash::Hash(given) => digest == Ok::<String, ProviderInstallError>(given),
                FileHash::Absent => digest == Err::<String, _>(ProviderInstallError::Io),
                FileHash::Failed(error) => digest == Err::<String, _>(error),
            },
    {
        match self {
            FileHash::Hash(given) => Ok(given),
            FileHash::Absent => Err(ProviderInstallError::Io),
            FileHash::Failed(error) => Err(error),
        }
    }
}

/// The action that writes a file.
pub open spec fn planned_status(actions: Seq<ActionRecord>, record: RecordedFile) -> Option<
    ActionStatus,
> {
    status_of(actions, InstallAction::File { path: record.path, sha256: record.sha256 })
}

proof fn same_intent_same_status(actions: Seq<ActionRecord>, a: InstallAction, b: InstallAction)
    requires
        a.same(b),
    ensures
        status_of(actions, a) == status_of(actions, b),
    decreases actions.len(),
{
    if actions.len() > 0 {
        assert(actions[0].intent.same(a) == actions[0].intent.same(b));
        same_intent_same_status(actions.drop_first(), a, b);
    }
}

/// Why a file may not be installed: one that is there must be the very one, and recorded as
/// this program's own; one that is not must not have been there.
pub open spec fn file_fault(actions: Seq<ActionRecord>, record: RecordedFile, hash: FileHash) -> Option<
    ProviderInstallError,
> {
    match hash {
        FileHash::Failed(error) => Some(error),
        FileHash::Hash(given) => if given@ == record.sha256@ && planned_status(actions, record)
            is Some {
            None
        } else {
            Some(ProviderInstallError::Conflict)
        },
        FileHash::Absent => match record_of_file(actions, record.path@) {
            Some((sha256, status)) => if sha256 != record.sha256@ || status is Applied {
                Some(ProviderInstallError::Conflict)
            } else {
                None
            },
            None => None,
        },
    }
}

pub fn check_file(actions: &Vec<ActionRecord>, record: &RecordedFile, hash: &FileHash) -> (checked: Result<
    (),
    ProviderInstallError,
>)
    ensures
        checked == (match file_fault(actions@, *record, *hash) {
            Some(fault) => Err::<(), ProviderInstallError>(fault),
            None => Ok(()),
        }),
{
    match hash {
        FileHash::Failed(error) => Err(*error),
        FileHash::Hash(given) => {
            let intent = record.intent();
            proof {
                same_intent_same_status(
                    actions@,
                    intent,
                    InstallAction::File { path: record.path, sha256: record.sha256 },
                );
            }
            if same_text(given.as_str(), record.sha256.as_str()) && action_status(
                actions,
                &intent,
            ).is_some() {
                Ok(())
            } else {
                Err(ProviderInstallError::Conflict)
            }
        },
        FileHash::Absent => match action_for_file(actions, record.path.as_str()) {
            Some((sha256, status)) => if !same_text(sha256, record.sha256.as_str()) || status
                == ActionStatus::Applied {
                Err(ProviderInstallError::Conflict)
            } else {
                Ok(())
            },
            None => Ok(()),
        },
    }
}

/// The command of a step, as an action.
pub open spec fn step_status(
    installer: ProviderInstaller,
    actions: Seq<ActionRecord>,
    step: Step,
) -> Option<ActionStatus>
    decreases actions.len(),
{
    if actions.len() == 0 {
        None
    } else if step_intent(installer, step, actions[0].intent) {
        Some(actions[0].status)
    } else {
        step_status(installer, actions.drop_first(), step)
    }
}

proof fn step_status_is_status(
    installer: ProviderInstaller,
    actions: Seq<ActionRecord>,
    step: Step,
    action: InstallAction,
)
    requires
        step_intent(installer, step, action),
    ensures
        step_status(installer, actions, step) == status_of(actions, action),
    decreases actions.len(),
{
    if actions.len() > 0 {
        assert(actions[0].intent.same(action) == step_intent(installer, step, actions[0].intent));
        step_status_is_status(installer, actions.drop_first(), step, action);
    }
}

/// Whether a link to the package has been planned and not been confirmed: the one case in
/// which it may be enabled.
pub open spec fn link_pending(installer: ProviderInstaller, state: JournalState) -> bool {
    step_status(installer, state.actions@, Step::OmpLink) == Some(ActionStatus::Planned) && !(
    state.stage is Configured)
}

/// Why a registration that is there cannot be gone on from.
pub open spec fn registration_fault(
    installer: ProviderInstaller,
    state: JournalState,
    step: Step,
    registered: Registered,
) -> Option<ProviderInstallError> {
    let status = step_status(installer, state.actions@, step);
    match registered {
        Registered::Absent => if status == Some(ActionStatus::Applied) {
            Some(ProviderInstallError::Conflict)
        } else {
            None
        },
        Registered::Exact => if status is Some {
            None
        } else {
            Some(ProviderInstallError::Conflict)
        },
        Registered::Disabled => if step is OmpLink {
            if link_pending(installer, state) {
                None
            } else {
                Some(ProviderInstallError::OmpDisabled)
            }
        } else if step is ClaudePlugin {
            Some(ProviderInstallError::ClaudeDisabled)
        } else {
            Some(ProviderInstallError::Conflict)
        },
    }
}

/// What is known of the place where the plugin host links a package.
pub enum LinkPlace {
    /// There is nothing, or nothing it could be in.
    Absent,
    /// What is there: whether it is a link, of whom, under how many names, where it leads
    /// to, and whether it was still there afterwards.
    Present { link: bool, uid: u32, links: u64, target: Option<String>, unchanged: bool },
    Failed(ProviderInstallError),
}

/// Whether the place of the link can be given to the plugin host, which removes what is
/// there: only a link of this program's own may be there.
pub open spec fn link_place(
    installer: ProviderInstaller,
    actions: Seq<ActionRecord>,
    place: LinkPlace,
    uid: u32,
) -> Result<bool, ProviderInstallError> {
    if installer.omp_link_destination is None {
        Ok(false)
    } else {
        match place {
            LinkPlace::Failed(error) => Err(error),
            LinkPlace::Absent => Ok(false),
            LinkPlace::Present { link, uid: owner, links, target, unchanged } => if step_status(
                installer,
                actions,
                Step::OmpLink,
            ) is Some && link && owner == uid && links == 1 && opt_text(target) == Some(
                joined(installer.integrations_dir@, "omp"@),
            ) && unchanged {
                Ok(true)
            } else {
                Err(ProviderInstallError::Conflict)
            },
        }
    }
}

impl ProviderInstaller {
    fn status(&self, actions: &Vec<ActionRecord>, step: Step) -> (status: Option<ActionStatus>)
        ensures
            status == step_status(*self, actions@, step),
    {
        let intent = self.command_intent(step);
        proof {
            step_status_is_status(*self, actions@, step, intent);
        }
        action_status(actions, &intent)
    }

    /// Whether a link to the package has been planned and not been confirmed.
    pub fn pending_link(&self, state: &JournalState) -> (pending: bool)
        ensures
            pending == link_pending(*self, *state),
    {
        let planned = match self.status(&state.actions, Step::OmpLink) {
            Some(ActionStatus::Planned) => true,
            _ => false,
        };
        planned && state.stage != Stage::Configured
    }

    /// Refuses a registration that cannot be gone on from.
    pub fn accept_registration(&self, step: Step, registered: Registered, state: &JournalState) -> (checked: Result<
        (),
        ProviderInstallError,
    >)
        ensures
            checked == (match registration_fault(*self, *state, step, registered) {
                Some(fault) => Err::<(), ProviderInstallError>(fault),
                None => Ok(()),
            }),
    {
        let status = self.status(&state.actions, step);
        match registered {
            Registered::Absent => match status {
                Some(ActionStatus::Applied) => Err(ProviderInstallError::Conflict),
                _ => Ok(()),
            },
            Registered::Exact => if status.is_some() {
                Ok(())
            } else {
                Err(ProviderInstallError::Conflict)
            },
            Registered::Disabled => match step {
                Step::OmpLink => if self.pending_link(state) {
                    Ok(())
                } else {
                    Err(ProviderInstallError::OmpDisabled)
                },
                Step::ClaudePlugin => Err(ProviderInstallError::ClaudeDisabled),
                _ => Err(ProviderInstallError::Conflict),
            },
        }
    }

    /// Whether there is the link of this program's own: nothing else may be there.
    pub fn check_omp_link_destination(
        &self,
        actions: &Vec<ActionRecord>,
        place: &LinkPlace,
        uid: u32,
    ) -> (linked: Result<bool, ProviderInstallError>)
        ensures
            linked == link_place(*self, actions@, *place, uid),
    {
        if self.omp_link_destination.is_none() {
            return Ok(false);
        }
        match place {
            LinkPlace::Failed(error) => Err(*error),
            LinkPlace::Absent => Ok(false),
            LinkPlace::Present { link, uid: owner, links, target, unchanged } => {
                let package = join(self.integrations_dir.as_str(), "omp");
                if self.status(actions, Step::OmpLink).is_none() || !*link || *owner != uid
                    || *links != 1 || !holds_text(target, package.as_str()) || !*unchanged {
                    return Err(ProviderInstallError::Conflict);
                }
                Ok(true)
            },
        }
    }
}

/// What another put there is never taken for this program's own: without a record of its
/// own, neither a file nor a registration nor a link that is there is gone on from.
pub proof fn foreign_things_are_left_alone(
    installer: ProviderInstaller,
    state: JournalState,
    step: Step,
    record: RecordedFile,
    hash: FileHash,
    place: LinkPlace,
    uid: u32,
)
    ensures
        hash is Hash && planned_status(state.actions@, record) is None ==> file_fault(
            state.actions@,
            record,
            hash,
        ) == Some(ProviderInstallError::Conflict),
        step_status(installer, state.actions@, step) is None ==> registration_fault(
            installer,
            state,
            step,
            Registered::Exact,
        ) == Some(ProviderInstallError::Conflict),
        step_status(installer, state.actions@, step) is None ==> registration_fault(
            installer,
            state,
            step,
            Registered::Disabled,
        ) is Some,
        step_status(installer, state.actions@, Step::OmpLink) is None && place is Present
            && installer.omp_link_destination is Some ==> link_place(
            installer,
            state.actions@,
            place,
            uid,
        ) is Err,
{
}

/// What is to be done to install a file.
#[derive(Clone, Copy, Debug, PartialEq, Eq, Structural)]
pub enum PublishPhase {
    /// The file is to be looked at.
    Check,
    /// The action is to be planned in the journal.
    Plan,
    /// The file is to be looked at again.
    Look,
    /// The file is to be put in its place.
    Place,
    /// It is to be looked at once more.
    Confirm,
    /// Its directory is to be written onto the disk.
    Sync,
    /// The action is to be marked applied in the journal.
    Apply,
    Published,
    Failed(ProviderInstallError),
}

/// How that went.
pub enum PublishEvent {
    Hash(FileHash),
    Planned(usize),
    Done,
    Failed(ProviderInstallError),
    JournalFailed(JournalError),
}

/// What is to be done once something has been.
pub open spec fn publish_next(
    phase: PublishPhase,
    actions: Seq<ActionRecord>,
    record: RecordedFile,
    event: PublishEvent,
) -> PublishPhase {
    match (phase, event) {
        (PublishPhase::Published, _) => phase,
        (PublishPhase::Failed(_), _) => phase,
        (PublishPhase::Check, PublishEvent::Hash(hash)) => match file_fault(actions, record, hash) {
            Some(fault) => PublishPhase::Failed(fault),
            None => PublishPhase::Plan,
        },
        (PublishPhase::Plan, PublishEvent::Planned(_)) => PublishPhase::Look,
        (PublishPhase::Look, PublishEvent::Hash(FileHash::Failed(error))) => PublishPhase::Failed(
            error,
        ),
        (PublishPhase::Look, PublishEvent::Hash(FileHash::Absent)) => PublishPhase::Place,
        (PublishPhase::Look, PublishEvent::Hash(FileHash::Hash(_))) => PublishPhase::Confirm,
        (PublishPhase::Place, PublishEvent::Done) => PublishPhase::Confirm,
        (PublishPhase::Confirm, PublishEvent::Hash(FileHash::Failed(error))) => PublishPhase::Failed(
            error,
        ),
        (PublishPhase::Confirm, PublishEvent::Hash(hash)) => if hashes_to(hash, record.sha256@) {
            PublishPhase::Sync
        } else {
            PublishPhase::Failed(ProviderInstallError::Conflict)
        },
        (PublishPhase::Sync, PublishEvent::Done) => PublishPhase::Apply,
        (PublishPhase::Apply, PublishEvent::Done) => PublishPhase::Published,
        (_, PublishEvent::Failed(error)) => PublishPhase::Failed(error),
        (_, PublishEvent::JournalFailed(error)) => PublishPhase::Failed(journal_fault(error)),
        _ => phase,
    }
}

/// The installation of a file.
pub struct FilePublication {
    pub phase: PublishPhase,
    pub record: RecordedFile,
    /// The place of the action in the journal.
    pub index: usize,
}

impl FilePublication {
    pub fn begin(record: RecordedFile) -> (publication: FilePublication)
        ensures
            publication == (FilePublication { phase: PublishPhase::Check, record, index: 0 }),
    {
        FilePublication { phase: PublishPhase::Check, record, index: 0 }
    }

    /// Something was done. `actions` is what the journal records now.
    pub fn step(&mut self, actions: &Vec<ActionRecord>, event: PublishEvent)
        ensures
            *final(self) == (FilePublication {
                phase: publish_next(old(self).phase, actions@, old(self).record, event),
                index: match (old(self).phase, event) {
                    (PublishPhase::Plan, PublishEvent::Planned(index)) => index,
                    _ => old(self).index,
                },
                ..*old(self)
            }),
    {
        match (self.phase, event) {
            (PublishPhase::Published, _) => {},
            (PublishPhase::Failed(_), _) => {},
            (PublishPhase::Check, PublishEvent::Hash(hash)) => {
                self.phase =
                match check_file(actions, &self.record, &hash) {
                    Ok(()) => PublishPhase::Plan,
                    Err(fault) => PublishPhase::Failed(fault),
                };
            },
            (PublishPhase::Plan, PublishEvent::Planned(index)) => {
                self.index = index;
                self.phase = PublishPhase::Look;
            },
            (PublishPhase::Look, PublishEvent::Hash(hash)) => {
                self.phase =
                match hash {
                    FileHash::Failed(error) => PublishPhase::Failed(error),
                    FileHash::Absent => PublishPhase::Place,
                    FileHash::Hash(_) => PublishPhase::Confirm,
                };
            },
            (PublishPhase::Place, PublishEvent::Done) => {
                self.phase = PublishPhase::Confirm;
            },
            (PublishPhase::Confirm, PublishEvent::Hash(hash)) => {
                self.phase =
                match &hash {
                    FileHash::Failed(error) => PublishPhase::Failed(*error),
                    _ => if hash.is(self.record.sha256.as_str()) {
                        PublishPhase::Sync
                    } else {
                        PublishPhase::Failed(ProviderInstallError::Conflict)
                    },
                };
            },
            (PublishPhase::Sync, PublishEvent::Done) => {
                self.phase = PublishPhase::Apply;
            },
            (PublishPhase::Apply, PublishEvent::Done) => {
                self.phase = PublishPhase::Published;
            },
            (_, PublishEvent::Failed(error)) => {
                self.phase = PublishPhase::Failed(error);
            },
            (_, PublishEvent::JournalFailed(error)) => {
                self.phase = PublishPhase::Failed(journal_error(error));
            },
            _ => {},
        }
    }
}

/// A file is planned only where what is there is no one else's, and applied only once the
/// file has been seen to be the very one.
pub proof fn files_are_applied_when_seen(
    phase: PublishPhase,
    actions: Seq<ActionRecord>,
    record: RecordedFile,
    event: PublishEvent,
)
    ensures
        ({
            let next = publish_next(phase, actions, record, event);
            &&& next is Plan && !(phase is Plan) ==> phase is Check && event is Hash && file_fault(
                actions,
                record,
                event->Hash_0,
            ) is None
            &&& next is Sync && !(phase is Sync) ==> phase is Confirm && event is Hash && hashes_to(
                event->Hash_0,
                record.sha256@,
            )
            &&& next is Apply && !(phase is Apply) ==> phase is Sync
            &&& next is Published && !(phase is Published) ==> phase is Apply
        }),
{
}

/// What is to be done to take a step.
#[derive(Clone, Copy, Debug, PartialEq, Eq, Structural)]
pub enum StepPhase {
    /// The files that the provider will change are to be tried.
    Destinations,
    /// The provider's registry is to be looked at.
    Inspect,
    /// The place of the link is to be looked at.
    CheckLink,
    /// The action is to be planned in the journal.
    Plan,
    /// The place of the link is to be looked at again, right before the command.
    Recheck,
    /// The command is to be run.
    Run,
    /// The registry is to be looked at again.
    Observe,
    /// The place of the link is to be looked at once the link is made.
    ConfirmLink,
    /// Enabling is to be planned in the journal.
    PlanEnable,
    /// The command that enables is to be run.
    Enable,
    /// The registry is to be looked at, whether it is enabled.
    ObserveEnabled,
    /// Enabling is to be marked applied in the journal.
    ApplyEnable,
    /// An enabling that was recorded is to be marked applied too.
    Reconcile(usize),
    /// The action is to be marked applied in the journal.
    Apply,
    Taken,
    Failed(ProviderInstallError),
}

/// How that went.
#[derive(Clone, Copy, Debug, PartialEq, Eq, Structural)]
pub enum StepEvent {
    Done,
    Registered(Registered),
    /// Whether there is the link of this program's own.
    Linked(bool),
    Planned(usize),
    /// The command ended, or could not be run.
    Ran(Option<ProviderInstallError>),
    Failed(ProviderInstallError),
    JournalFailed(JournalError),
}

/// A step that is taken.
pub struct StepSetup {
    pub phase: StepPhase,
    pub step: Step,
    pub before: Registered,
    pub after: Registered,
    /// The place of the action in the journal, and that of enabling.
    pub index: usize,
    pub enable: usize,
    /// Why the command could not be run.
    pub effect: Option<ProviderInstallError>,
}

/// The place of the action that enables, if it is recorded.
pub open spec fn enable_from(installer: ProviderInstaller, actions: Seq<ActionRecord>, from: int) -> int
    decreases actions.len() - from,
{
    if from >= actions.len() {
        actions.len() as int
    } else if step_intent(installer, Step::OmpEnable, actions[from].intent) {
        from
    } else {
        enable_from(installer, actions, from + 1)
    }
}

/// What is to be done last: an enabling that was recorded is not left open.
pub open spec fn step_finish(installer: ProviderInstaller, state: JournalState, step: Step) -> StepPhase {
    let place = enable_from(installer, state.actions@, 0);
    if step is OmpLink && place < state.actions@.len() {
        StepPhase::Reconcile(place as usize)
    } else {
        StepPhase::Apply
    }
}

/// What is to be done once it is known how far the step is registered.
pub open spec fn step_decide(
    installer: ProviderInstaller,
    state: JournalState,
    step: Step,
    after: Registered,
) -> StepPhase {
    if after is Disabled && step is OmpLink && link_pending(installer, state) {
        StepPhase::PlanEnable
    } else if after is Exact {
        step_finish(installer, state, step)
    } else if step is ClaudePlugin {
        StepPhase::Failed(ProviderInstallError::ClaudeDisabled)
    } else {
        StepPhase::Failed(ProviderInstallError::Conflict)
    }
}

/// What is to be done once the registration is there.
pub open spec fn step_registered(
    installer: ProviderInstaller,
    state: JournalState,
    step: Step,
    after: Registered,
) -> StepPhase {
    if step is OmpLink {
        StepPhase::ConfirmLink
    } else {
        step_decide(installer, state, step, after)
    }
}

/// What is to be done once something has been.
pub open spec fn step_next(
    setup: StepSetup,
    installer: ProviderInstaller,
    state: JournalState,
    event: StepEvent,
) -> StepPhase {
    match (setup.phase, event) {
        (StepPhase::Taken, _) => setup.phase,
        (StepPhase::Failed(_), _) => setup.phase,
        (StepPhase::Destinations, StepEvent::Done) => StepPhase::Inspect,
        (StepPhase::Inspect, StepEvent::Registered(before)) => match registration_fault(
            installer,
            state,
            setup.step,
            before,
        ) {
            Some(fault) => StepPhase::Failed(fault),
            None => StepPhase::CheckLink,
        },
        (StepPhase::CheckLink, StepEvent::Linked(_)) => StepPhase::Plan,
        (StepPhase::Plan, StepEvent::Planned(_)) => if setup.before is Absent {
            StepPhase::Recheck
        } else {
            step_registered(installer, state, setup.step, setup.before)
        },
        (StepPhase::Recheck, StepEvent::Linked(_)) => StepPhase::Run,
        (StepPhase::Run, StepEvent::Ran(_)) => StepPhase::Observe,
        (StepPhase::Observe, StepEvent::Registered(after)) => if after is Absent {
            StepPhase::Failed(
                match setup.effect {
                    Some(error) => error,
                    None => ProviderInstallError::CommandFailed,
                },
            )
        } else {
            step_registered(installer, state, setup.step, after)
        },
        (StepPhase::ConfirmLink, StepEvent::Linked(linked)) => if linked {
            step_decide(installer, state, setup.step, setup.after)
        } else {
            StepPhase::Failed(ProviderInstallError::Conflict)
        },
        (StepPhase::PlanEnable, StepEvent::Planned(_)) => StepPhase::Enable,
        (StepPhase::Enable, StepEvent::Ran(_)) => StepPhase::ObserveEnabled,
        (StepPhase::ObserveEnabled, StepEvent::Registered(after)) => if after is Exact {
            StepPhase::ApplyEnable
        } else {
            StepPhase::Failed(
                match setup.effect {
                    Some(error) => error,
                    None => ProviderInstallError::OmpDisabled,
                },
            )
        },
        (StepPhase::ApplyEnable, StepEvent::Done) => step_finish(installer, state, setup.step),
        (StepPhase::Reconcile(_), StepEvent::Done) => StepPhase::Apply,
        (StepPhase::Apply, StepEvent::Done) => StepPhase::Taken,
        (_, StepEvent::Failed(error)) => StepPhase::Failed(error),
        (_, StepEvent::JournalFailed(error)) => StepPhase::Failed(journal_fault(error)),
        _ => setup.phase,
    }
}

impl ProviderInstaller {
    fn enable_place(&self, actions: &Vec<ActionRecord>) -> (place: usize)
        ensures
            place == enable_from(*self, actions@, 0),
            place <= actions@.len(),
    {
        let intent = self.command_intent(Step::OmpEnable);
        let mut i: usize = 0;
        while i < actions.len()
            invariant
                i <= actions@.len(),
                step_intent(*self, Step::OmpEnable, intent),
                enable_from(*self, actions@, 0) == enable_from(*self, actions@, i as int),
            decreases actions.len() - i,
        {
            assert(actions@[i as int].intent.same(intent) == step_intent(
                *self,
                Step::OmpEnable,
                actions@[i as int].intent,
            ));
            if actions[i].intent.equals(&intent) {
                return i;
            }
            i += 1;
        }
        i
    }

    fn finish(&self, state: &JournalState, step: Step) -> (phase: StepPhase)
        ensures
            phase == step_finish(*self, *state, step),
    {
        let place = self.enable_place(&state.actions);
        if step == Step::OmpLink && place < state.actions.len() {
            StepPhase::Reconcile(place)
        } else {
            StepPhase::Apply
        }
    }

    fn decide(&self, state: &JournalState, step: Step, after: Registered) -> (phase: StepPhase)
        ensures
            phase == step_decide(*self, *state, step, after),
    {
        if after == Registered::Disabled && step == Step::OmpLink && self.pending_link(state) {
            StepPhase::PlanEnable
        } else if after == Registered::Exact {
            self.finish(state, step)
        } else if step == Step::ClaudePlugin {
            StepPhase::Failed(ProviderInstallError::ClaudeDisabled)
        } else {
            StepPhase::Failed(ProviderInstallError::Conflict)
        }
    }

    fn registered(&self, state: &JournalState, step: Step, after: Registered) -> (phase: StepPhase)
        ensures
            phase == step_registered(*self, *state, step, after),
    {
        if step == Step::OmpLink {
            StepPhase::ConfirmLink
        } else {
            self.decide(state, step, after)
        }
    }
}

impl StepSetup {
    pub fn begin(step: Step) -> (setup: StepSetup)
        ensures
            setup == (StepSetup {
                phase: StepPhase::Destinations,
                step,
                before: Registered::Absent,
                after: Registered::Absent,
                index: 0,
                enable: 0,
                effect: None,
            }),
    {
        StepSetup {
            phase: StepPhase::Destinations,
            step,
            before: Registered::Absent,
            after: Registered::Absent,
            index: 0,
            enable: 0,
            effect: None,
        }
    }

    /// Something was done. `state` is what the journal records now.
    pub fn step(&mut self, installer: &ProviderInstaller, state: &JournalState, event: StepEvent)
        ensures
            *final(self) == (StepSetup {
                phase: step_next(*old(self), *installer, *state, event),
                before: match (old(self).phase, event) {
                    (StepPhase::Inspect, StepEvent::Registered(before)) => before,
                    _ => old(self).before,
                },
                after: match (old(self).phase, event) {
                    (StepPhase::Plan, StepEvent::Planned(_)) => old(self).before,
                    (StepPhase::Observe, StepEvent::Registered(after)) => after,
                    _ => old(self).after,
                },
                index: match (old(self).phase, event) {
                    (StepPhase::Plan, StepEvent::Planned(index)) => index,
                    _ => old(self).index,
                },
                enable: match (old(self).phase, event) {
                    (StepPhase::PlanEnable, StepEvent::Planned(index)) => index,
                    _ => old(self).enable,
                },
                effect: match (old(self).phase, event) {
                    (StepPhase::Run, StepEvent::Ran(effect)) => effect,
                    (StepPhase::Enable, StepEvent::Ran(effect)) => effect,
                    _ => old(self).effect,
                },
                ..*old(self)
            }),
    {
        match (self.phase, event) {
            (StepPhase::Taken, _) => {},
            (StepPhase::Failed(_), _) => {},
            (StepPhase::Destinations, StepEvent::Done) => {
                self.phase = StepPhase::Inspect;
            },
            (StepPhase::Inspect, StepEvent::Registered(before)) => {
                self.phase =
                match installer.accept_registration(self.step, before, state) {
                    Ok(()) => StepPhase::CheckLink,
                    Err(fault) => StepPhase::Failed(fault),
                };
                self.before = before;
            },
            (StepPhase::CheckLink, StepEvent::Linked(_)) => {
                self.phase = StepPhase::Plan;
            },
            (StepPhase::Plan, StepEvent::Planned(index)) => {
                self.phase =
                if self.before == Registered::Absent {
                    StepPhase::Recheck
                } else {
                    installer.registered(state, self.step, self.before)
                };
                self.index = index;
                self.after = self.before;
            },
            (StepPhase::Recheck, StepEvent::Linked(_)) => {
                self.phase = StepPhase::Run;
            },
            (StepPhase::Run, StepEvent::Ran(effect)) => {
                self.effect = effect;
                self.phase = StepPhase::Observe;
            },
            (StepPhase::Observe, StepEvent::Registered(after)) => {
                self.phase =
                if after == Registered::Absent {
                    StepPhase::Failed(
                        match self.effect {
                            Some(error) => error,
                            None => ProviderInstallError::CommandFailed,
                        },
                    )
                } else {
                    installer.registered(state, self.step, after)
                };
                self.after = after;
            },
            (StepPhase::ConfirmLink, StepEvent::Linked(linked)) => {
                self.phase =
                if linked {
                    installer.decide(state, self.step, self.after)
                } else {
                    StepPhase::Failed(ProviderInstallError::Conflict)
                };
            },
            (StepPhase::PlanEnable, StepEvent::Planned(index)) => {
                self.enable = index;
                self.phase = StepPhase::Enable;
            },
            (StepPhase::Enable, StepEvent::Ran(effect)) => {
                self.effect = effect;
                self.phase = StepPhase::ObserveEnabled;
            },
            (StepPhase::ObserveEnabled, StepEvent::Registered(after)) => {
                self.phase =
                if after == Registered::Exact {
                    StepPhase::ApplyEnable
                } else {
                    StepPhase::Failed(
                        match self.effect {
                            Some(error) => error,
                            None => ProviderInstallError::OmpDisabled,
                        },
                    )
                };
            },
            (StepPhase::ApplyEnable, StepEvent::Done) => {
                self.phase = installer.finish(state, self.step);
            },
            (StepPhase::Reconcile(_), StepEvent::Done) => {
                self.phase = StepPhase::Apply;
            },
            (StepPhase::Apply, StepEvent::Done) => {
                self.phase = StepPhase::Taken;
            },
            (_, StepEvent::Failed(error)) => {
                self.phase = StepPhase::Failed(error);
            },
            (_, StepEvent::JournalFailed(error)) => {
                self.phase = StepPhase::Failed(journal_error(error));
            },
            _ => {},
        }
    }
}

/// Every effect on a provider comes after a lasting plan of it: a command is run only once
/// it is planned and the place of the link was looked at right before, and nothing is
/// enabled that was not planned to be.
pub proof fn commands_are_planned_first(
    setup: StepSetup,
    installer: ProviderInstaller,
    state: JournalState,
    event: StepEvent,
)
    ensures
        ({
            let next = step_next(setup, installer, state, event);
            &&& next is Run && !(setup.phase is Run) ==> setup.phase is Recheck && event is Linked
            &&& next is Recheck && !(setup.phase is Recheck) ==> setup.phase is Plan && event
                is Planned && setup.before is Absent
            &&& next is Enable && !(setup.phase is Enable) ==> setup.phase is PlanEnable && event
                is Planned
            &&& next is PlanEnable && !(setup.phase is PlanEnable) ==> setup.step is OmpLink
                && link_pending(installer, state)
        }),
{
}

/// A step is marked applied only where the registry shows it exactly.
pub proof fn steps_are_applied_when_seen(
    setup: StepSetup,
    installer: ProviderInstaller,
    state: JournalState,
    event: StepEvent,
)
    requires
        !(setup.phase is Apply) && !(setup.phase is Reconcile),
        step_next(setup, installer, state, event) is Apply || step_next(
            setup,
            installer,
            state,
            event,
        ) is Reconcile,
    ensures
        match setup.phase {
            StepPhase::ApplyEnable => event is Done,
            StepPhase::Plan => setup.before is Exact,
            StepPhase::Observe => event == StepEvent::Registered(Registered::Exact),
            StepPhase::ConfirmLink => setup.after is Exact && event == StepEvent::Linked(true),
            _ => false,
        },
{
}

/// Whether a set-up is the one that a journal was prepared for.
pub open spec fn configurable(installer: ProviderInstaller, state: JournalState) -> bool {
    &&& !(state.stage is Prepared)
    &&& state.provider == installer.provider
    &&& same_path(state.executable@, installer.executable@)
    &&& state.profile_name@ == installer.profile@
    &&& state.invite_id == installer.invite_id
    &&& state.enrollment_id == installer.enrollment_id
}

/// What is to be done to configure a provider.
#[derive(Clone, Copy, Debug, PartialEq, Eq, Structural)]
pub enum ConfigurePhase {
    /// Paths are to be checked again.
    CheckPaths,
    /// Registrations are to be checked again.
    CheckRegistrations,
    /// The file at that place is to be installed.
    PublishFile(usize),
    /// The step at that place is to be taken.
    TakeStep(usize),
    /// The record of what was installed is to be installed.
    PublishOwnership,
    /// What was recorded is to be verified.
    Verify,
    Configured,
    Failed(ProviderInstallError),
}

/// The phase once the files before a place are installed.
pub open spec fn files_from(installer: ProviderInstaller, place: int) -> ConfigurePhase {
    if place < installer.files@.len() {
        ConfigurePhase::PublishFile(place as usize)
    } else {
        steps_from(installer, 0)
    }
}

/// The phase once the steps before a place are taken.
pub open spec fn steps_from(installer: ProviderInstaller, place: int) -> ConfigurePhase {
    if place < installer.steps@.len() {
        ConfigurePhase::TakeStep(place as usize)
    } else {
        ConfigurePhase::PublishOwnership
    }
}

/// What is to be done once something has been, without a fault or with one.
pub open spec fn configure_next(
    phase: ConfigurePhase,
    installer: ProviderInstaller,
    fault: Option<ProviderInstallError>,
) -> ConfigurePhase {
    match (phase, fault) {
        (ConfigurePhase::Configured, _) => phase,
        (ConfigurePhase::Failed(_), _) => phase,
        (_, Some(error)) => ConfigurePhase::Failed(error),
        (ConfigurePhase::CheckPaths, None) => ConfigurePhase::CheckRegistrations,
        (ConfigurePhase::CheckRegistrations, None) => files_from(installer, 0),
        (ConfigurePhase::PublishFile(place), None) => files_from(installer, place + 1),
        (ConfigurePhase::TakeStep(place), None) => steps_from(installer, place + 1),
        (ConfigurePhase::PublishOwnership, None) => ConfigurePhase::Verify,
        (ConfigurePhase::Verify, None) => ConfigurePhase::Configured,
    }
}

/// Whether the places of a phase are places of the set-up.
pub open spec fn configure_wf(phase: ConfigurePhase, installer: ProviderInstaller) -> bool {
    match phase {
        ConfigurePhase::PublishFile(place) => place < installer.files@.len(),
        ConfigurePhase::TakeStep(place) => place < installer.steps@.len(),
        _ => true,
    }
}

impl ProviderInstaller {
    /// The configuration begins: it must be the one that the journal was prepared for.
    pub fn begin_configure(&self, state: &JournalState) -> (phase: ConfigurePhase)
        ensures
            configure_wf(phase, *self),
            phase == if configurable(*self, *state) {
                ConfigurePhase::CheckPaths
            } else {
                ConfigurePhase::Failed(ProviderInstallError::Conflict)
            },
    {
        if state.stage == Stage::Prepared || state.provider != self.provider || !is_same_path(
            state.executable.as_str(),
            self.executable.as_str(),
        ) || !same_text(state.profile_name.as_str(), self.profile.as_str()) || state.invite_id
            != self.invite_id || state.enrollment_id != self.enrollment_id {
            return ConfigurePhase::Failed(ProviderInstallError::Conflict);
        }
        ConfigurePhase::CheckPaths
    }

    fn from_step(&self, place: usize) -> (phase: ConfigurePhase)
        ensures
            configure_wf(phase, *self),
            phase == steps_from(*self, place as int),
    {
        if place < self.steps.len() {
            ConfigurePhase::TakeStep(place)
        } else {
            ConfigurePhase::PublishOwnership
        }
    }

    fn from_file(&self, place: usize) -> (phase: ConfigurePhase)
        ensures
            configure_wf(phase, *self),
            phase == files_from(*self, place as int),
    {
        if place < self.files.len() {
            ConfigurePhase::PublishFile(place)
        } else {
            self.from_step(0)
        }
    }

    /// What is to be done once something has been, without a fault or with one.
    pub fn next_configure(&self, phase: ConfigurePhase, fault: Option<ProviderInstallError>) -> (next: ConfigurePhase)
        requires
            configure_wf(phase, *self),
        ensures
            configure_wf(next, *self),
            next == configure_next(phase, *self, fault),
    {
        match phase {
            ConfigurePhase::Configured => {
                return phase;
            },
            ConfigurePhase::Failed(_) => {
                return phase;
            },
            _ => {},
        }
        if let Some(error) = fault {
            return ConfigurePhase::Failed(error);
        }
        let files: usize = self.files.len();
        let steps: usize = self.steps.len();
        match phase {
            ConfigurePhase::CheckPaths => ConfigurePhase::CheckRegistrations,
            ConfigurePhase::CheckRegistrations => self.from_file(0),
            ConfigurePhase::PublishFile(place) => if place < files {
                self.from_file(place + 1)
            } else {
                phase
            },
            ConfigurePhase::TakeStep(place) => if place < steps {
                self.from_step(place + 1)
            } else {
                phase
            },
            ConfigurePhase::PublishOwnership => ConfigurePhase::Verify,
            ConfigurePhase::Verify => ConfigurePhase::Configured,
            ConfigurePhase::Configured | ConfigurePhase::Failed(_) => phase,
        }
    }
}

/// The commands that a record of ownership lists, for the steps of a set-up.
pub open spec fn owned_commands(installer: ProviderInstaller, actions: Seq<ActionRecord>) -> Seq<
    Seq<Seq<char>>,
> {
    let steps = Seq::new(
        installer.steps@.len(),
        |i: int| step_argv(installer, installer.steps@[i]),
    );
    if installer.provider is Omp && step_status(installer, actions, Step::OmpEnable) is Some {
        steps.push(step_argv(installer, Step::OmpEnable))
    } else {
        steps
    }
}

/// The texts of a list of commands.
pub open spec fn command_texts(commands: Seq<Vec<String>>) -> Seq<Seq<Seq<char>>> {
    Seq::new(commands.len(), |i: int| texts(commands[i]@))
}

/// Whether a record of ownership tells what a set-up installed for a journal.
pub open spec fn ownership_of(
    ownership: Ownership,
    installer: ProviderInstaller,
    state: JournalState,
) -> bool {
    &&& ownership.version == 1
    &&& ownership.invite_id == state.invite_id
    &&& ownership.enrollment_id == state.enrollment_id
    &&& ownership.provider == installer.provider
    &&& ownership.server_id == state.server_id
    &&& ownership.profile@ == installer.profile@
    &&& ownership.workspace@ == state.workspace@
    &&& ownership.manifest_sha256@ == state.manifest_sha256@
    &&& ownership.asr_version@ == installer.version@
    &&& ownership.executable@ == installer.executable@
    &&& ownership.executable_sha256@ == installer.executable_sha256@
    &&& ownership.integrations_dir@ == installer.integrations_dir@
    &&& ownership.files@.len() == installer.files@.len()
    &&& forall|i: int|
        0 <= i < ownership.files@.len() ==> (#[trigger] ownership.files@[i]).path@
            == installer.files@[i].record.path@ && ownership.files@[i].sha256@
            == installer.files@[i].record.sha256@ && ownership.files@[i].private
            == installer.files@[i].record.private
    &&& command_texts(ownership.commands@) == owned_commands(installer, state.actions@)
}

/// The file that records what was installed for a provider.
pub open spec fn ownership_file(root: Seq<char>, provider: OnboardingProvider) -> Seq<char> {
    joined(joined(root, "onboarding/installations"@), provider_text(provider) + ".json"@)
}

pub fn ownership_path(root: &str, provider: OnboardingProvider) -> (path: String)
    ensures
        path@ == ownership_file(root@, provider),
{
    let name = concat(provider.as_str().as_str(), ".json");
    join(join(root, "onboarding/installations").as_str(), name.as_str())
}

impl ProviderInstaller {
    fn commands(&self, actions: &Vec<ActionRecord>) -> (commands: Vec<Vec<String>>)
        ensures
            command_texts(commands@) == owned_commands(*self, actions@),
    {
        let mut commands: Vec<Vec<String>> = Vec::new();
        let mut i: usize = 0;
        while i < self.steps.len()
            invariant
                i <= self.steps@.len(),
                commands@.len() == i,
                forall|j: int|
                    0 <= j < i ==> texts((#[trigger] commands@[j])@) == step_argv(
                        *self,
                        self.steps@[j],
                    ),
            decreases self.steps.len() - i,
        {
            commands.push(self.argv(self.steps[i]));
            i += 1;
        }
        let ghost steps = Seq::new(self.steps@.len(), |i: int| step_argv(*self, self.steps@[i]));
        assert(command_texts(commands@) =~= steps);
        if self.provider == OnboardingProvider::Omp && self.status(
            actions,
            Step::OmpEnable,
        ).is_some() {
            let ghost before = commands@;
            let argv = self.argv(Step::OmpEnable);
            commands.push(argv);
            assert(command_texts(commands@) =~= steps.push(step_argv(*self, Step::OmpEnable)));
        }
        commands
    }

    /// The record of what was installed.
    pub fn ownership(&self, state: &JournalState) -> (ownership: Ownership)
        ensures
            ownership_of(ownership, *self, *state),
    {
        let mut files: Vec<RecordedFile> = Vec::new();
        let mut i: usize = 0;
        while i < self.files.len()
            invariant
                i <= self.files@.len(),
                files@.len() == i,
                forall|j: int|
                    0 <= j < i ==> (#[trigger] files@[j]).path@ == self.files@[j].record.path@
                        && files@[j].sha256@ == self.files@[j].record.sha256@ && files@[j].private
                        == self.files@[j].record.private,
            decreases self.files.len() - i,
        {
            files.push(self.files[i].record.copy());
            i += 1;
        }
        Ownership {
            version: 1,
            invite_id: state.invite_id,
            enrollment_id: state.enrollment_id,
            provider: self.provider,
            server_id: state.server_id,
            profile: self.profile.as_str().to_owned(),
            workspace: state.workspace.copy(),
            manifest_sha256: state.manifest_sha256.as_str().to_owned(),
            asr_version: self.version.as_str().to_owned(),
            executable: self.executable.as_str().to_owned(),
            executable_sha256: self.executable_sha256.as_str().to_owned(),
            integrations_dir: self.integrations_dir.as_str().to_owned(),
            files,
            commands: self.commands(&state.actions),
        }
    }
}

/// How many files are installed for a provider.
pub open spec fn expected_files(provider: OnboardingProvider) -> nat {
    if provider is ClaudeCode {
        0
    } else {
        1
    }
}

/// How many commands at least set up a provider.
pub open spec fn expected_commands(provider: OnboardingProvider) -> nat {
    if provider is ClaudeCode {
        3
    } else {
        1
    }
}

/// What is read to verify what was installed: the record and its bytes, and the digests of
/// the program and of the files.
pub struct RecordedReads {
    /// The bytes of the record, none where there is no file, or why it cannot be read.
    pub bytes: FileRead,
    /// What they decode to, none where it is nothing.
    pub ownership: Option<Ownership>,
    pub executable: FileHash,
    /// The digest of each of the files, in order.
    pub files: Vec<FileHash>,
}

/// Whether a record of ownership is of a journal.
pub open spec fn owned_by(ownership: Ownership, state: JournalState) -> bool {
    &&& ownership.version == 1
    &&& ownership.invite_id == state.invite_id
    &&& ownership.enrollment_id == state.enrollment_id
    &&& ownership.provider == state.provider
    &&& ownership.server_id == state.server_id
    &&& ownership.profile@ == state.profile_name@
    &&& ownership.workspace@ == state.workspace@
    &&& ownership.manifest_sha256@ == state.manifest_sha256@
    &&& same_path(ownership.executable@, state.executable@)
    &&& ownership.asr_version@.len() > 0
}

/// Whether there are as many files and commands as a provider has.
pub open spec fn counts_ok(ownership: Ownership, provider: OnboardingProvider) -> bool {
    &&& ownership.files@.len() == expected_files(provider)
    &&& expected_commands(provider) <= ownership.commands@.len() <= expected_commands(provider)
        + if provider is Omp {
        1int
    } else {
        0
    }
}

/// Why a file that was installed is not as it was left, if it is not.
pub open spec fn owned_file_fault(actions: Seq<ActionRecord>, record: RecordedFile, hash: FileHash) -> Option<
    ProviderInstallError,
> {
    if planned_status(actions, record) != Some(ActionStatus::Applied) {
        Some(ProviderInstallError::Conflict)
    } else {
        match hash {
            FileHash::Failed(error) => Some(error),
            _ => if hashes_to(hash, record.sha256@) {
                None
            } else {
                Some(ProviderInstallError::Conflict)
            },
        }
    }
}

/// The digest of the file at a place of a record.
pub open spec fn hash_at(hashes: Seq<FileHash>, place: int) -> FileHash {
    if place < hashes.len() {
        hashes[place]
    } else {
        FileHash::Absent
    }
}

/// Why the files from a place on are not as they were left, if they are not.
pub open spec fn owned_files_fault(
    actions: Seq<ActionRecord>,
    files: Seq<RecordedFile>,
    hashes: Seq<FileHash>,
    from: int,
) -> Option<ProviderInstallError>
    decreases files.len() - from,
{
    if from >= files.len() {
        None
    } else {
        match owned_file_fault(actions, files[from], hash_at(hashes, from)) {
            Some(fault) => Some(fault),
            None => owned_files_fault(actions, files, hashes, from + 1),
        }
    }
}

/// Whether a command has been applied.
pub open spec fn command_applied(actions: Seq<ActionRecord>, argv: Vec<String>) -> bool {
    status_of(actions, InstallAction::Command { argv }) == Some(ActionStatus::Applied)
}

/// Why what was installed is not as it was recorded, if it is not.
pub open spec fn recorded_fault(root: Seq<char>, state: JournalState, reads: RecordedReads) -> Option<
    ProviderInstallError,
> {
    match reads.bytes {
        FileRead::Failed(error) => Some(error),
        FileRead::Absent => Some(ProviderInstallError::Conflict),
        FileRead::Found(bytes) => match reads.ownership {
            None => Some(ProviderInstallError::Conflict),
            Some(ownership) => if !file_recorded(
                state,
                ownership_file(root, state.provider),
                digest_text(bytes@),
            ) || !owned_by(ownership, state) {
                Some(ProviderInstallError::Conflict)
            } else {
                match reads.executable {
                    FileHash::Failed(error) => Some(error),
                    _ => if !hashes_to(reads.executable, ownership.executable_sha256@)
                        || !counts_ok(ownership, state.provider) {
                        Some(ProviderInstallError::Conflict)
                    } else {
                        match owned_files_fault(
                            state.actions@,
                            ownership.files@,
                            reads.files@,
                            0,
                        ) {
                            Some(fault) => Some(fault),
                            None => if forall|i: int|
                                0 <= i < ownership.commands@.len() ==> command_applied(
                                    state.actions@,
                                    #[trigger] ownership.commands@[i],
                                ) {
                                None
                            } else {
                                Some(ProviderInstallError::Conflict)
                            },
                        }
                    },
                }
            },
        },
    }
}

/// How far the action that writes a file of a digest is, if it is recorded.
pub open spec fn file_status(actions: Seq<ActionRecord>, path: Seq<char>, sha256: Seq<char>) -> Option<
    ActionStatus,
>
    decreases actions.len(),
{
    if actions.len() == 0 {
        None
    } else if actions[0].intent matches InstallAction::File { path: p, sha256: s } && same_path(
        p@,
        path,
    ) && s@ == sha256 {
        Some(actions[0].status)
    } else {
        file_status(actions.drop_first(), path, sha256)
    }
}

/// Whether a file is recorded: planned at least, and applied once the onboarding is
/// configured.
pub open spec fn file_recorded(state: JournalState, path: Seq<char>, sha256: Seq<char>) -> bool {
    let status = file_status(state.actions@, path, sha256);
    status is Some && (state.stage is Configured ==> status == Some(ActionStatus::Applied))
}

proof fn file_status_is_status(actions: Seq<ActionRecord>, action: InstallAction)
    requires
        action is File,
    ensures
        status_of(actions, action) == file_status(actions, action->path@, action->sha256@),
    decreases actions.len(),
{
    if actions.len() > 0 {
        file_status_is_status(actions.drop_first(), action);
    }
}

fn check_owned_file(actions: &Vec<ActionRecord>, record: &RecordedFile, hash: &FileHash) -> (checked: Result<
    (),
    ProviderInstallError,
>)
    ensures
        checked == (match owned_file_fault(actions@, *record, *hash) {
            Some(fault) => Err::<(), ProviderInstallError>(fault),
            None => Ok(()),
        }),
{
    let intent = record.intent();
    proof {
        same_intent_same_status(
            actions@,
            intent,
            InstallAction::File { path: record.path, sha256: record.sha256 },
        );
    }
    match action_status(actions, &intent) {
        Some(ActionStatus::Applied) => {},
        _ => {
            return Err(ProviderInstallError::Conflict);
        },
    }
    match hash {
        FileHash::Failed(error) => Err(*error),
        _ => if hash.is(record.sha256.as_str()) {
            Ok(())
        } else {
            Err(ProviderInstallError::Conflict)
        },
    }
}

fn same_ownership(ownership: &Ownership, state: &JournalState) -> (same: bool)
    ensures
        same == owned_by(*ownership, *state),
{
    ownership.version == 1 && ownership.invite_id == state.invite_id && ownership.enrollment_id
        == state.enrollment_id && ownership.provider == state.provider && ownership.server_id
        == state.server_id && same_text(ownership.profile.as_str(), state.profile_name.as_str())
        && ownership.workspace.same(&state.workspace) && same_text(
        ownership.manifest_sha256.as_str(),
        state.manifest_sha256.as_str(),
    ) && is_same_path(ownership.executable.as_str(), state.executable.as_str())
        && ownership.asr_version.as_str().unicode_len() > 0
}

fn check_files(actions: &Vec<ActionRecord>, files: &Vec<RecordedFile>, hashes: &Vec<FileHash>) -> (checked: Result<
    (),
    ProviderInstallError,
>)
    ensures
        checked == (match owned_files_fault(actions@, files@, hashes@, 0) {
            Some(fault) => Err::<(), ProviderInstallError>(fault),
            None => Ok(()),
        }),
{
    let mut i: usize = 0;
    while i < files.len()
        invariant
            i <= files@.len(),
            owned_files_fault(actions@, files@, hashes@, 0) == owned_files_fault(
                actions@,
                files@,
                hashes@,
                i as int,
            ),
        decreases files.len() - i,
    {
        let checked = if i < hashes.len() {
            check_owned_file(actions, &files[i], &hashes[i])
        } else {
            check_owned_file(actions, &files[i], &FileHash::Absent)
        };
        if let Err(fault) = checked {
            return Err(fault);
        }
        i += 1;
    }
    Ok(())
}

fn check_commands(actions: &Vec<ActionRecord>, commands: &Vec<Vec<String>>) -> (yes: bool)
    ensures
        yes == forall|i: int|
            0 <= i < commands@.len() ==> command_applied(actions@, #[trigger] commands@[i]),
{
    let mut i: usize = 0;
    while i < commands.len()
        invariant
            i <= commands@.len(),
            forall|j: int|
                0 <= j < i ==> command_applied(actions@, #[trigger] commands@[j]),
        decreases commands.len() - i,
    {
        let action = InstallAction::Command { argv: copy_list(&commands[i]) };
        proof {
            same_intent_same_status(
                actions@,
                action,
                InstallAction::Command { argv: commands@[i as int] },
            );
        }
        match action_status(actions, &action) {
            Some(ActionStatus::Applied) => {},
            _ => {
                assert(!command_applied(actions@, commands@[i as int]));
                return false;
            },
        }
        i += 1;
    }
    true
}

fn copy_list(list: &Vec<String>) -> (copy: Vec<String>)
    ensures
        texts(copy@) == texts(list@),
{
    let mut copy: Vec<String> = Vec::new();
    let mut i: usize = 0;
    while i < list.len()
        invariant
            i <= list@.len(),
            copy@.len() == i,
            forall|j: int| 0 <= j < i ==> (#[trigger] copy@[j])@ == list@[j]@,
        decreases list.len() - i,
    {
        copy.push(list[i].as_str().to_owned());
        i += 1;
    }
    assert(texts(copy@) =~= texts(list@));
    copy
}

/// Refuses what was installed where it is not as it was recorded. `root` is the directory
/// of the configuration. No program of a provider is run for it.
pub fn verify_recorded(root: &str, state: &JournalState, reads: &RecordedReads) -> (checked: Result<
    (),
    ProviderInstallError,
>)
    ensures
        checked == (match recorded_fault(root@, *state, *reads) {
            Some(fault) => Err::<(), ProviderInstallError>(fault),
            None => Ok(()),
        }),
{
    let bytes = match &reads.bytes {
        FileRead::Found(bytes) => bytes,
        FileRead::Absent => {
            return Err(ProviderInstallError::Conflict);
        },
        FileRead::Failed(error) => {
            return Err(*error);
        },
    };
    let ownership = match &reads.ownership {
        Some(ownership) => ownership,
        None => {
            return Err(ProviderInstallError::Conflict);
        },
    };
    let intent = InstallAction::File {
        path: ownership_path(root, state.provider),
        sha256: digest(bytes.as_slice()),
    };
    proof {
        file_status_is_status(state.actions@, intent);
    }
    let recorded = match action_status(&state.actions, &intent) {
        Some(ActionStatus::Applied) => true,
        Some(ActionStatus::Planned) => state.stage != Stage::Configured,
        None => false,
    };
    if !recorded || !same_ownership(ownership, state) {
        return Err(ProviderInstallError::Conflict);
    }
    match &reads.executable {
        FileHash::Failed(error) => {
            return Err(*error);
        },
        _ => {
            if !reads.executable.is(ownership.executable_sha256.as_str()) {
                return Err(ProviderInstallError::Conflict);
            }
        },
    }
    let commands: usize = ownership.commands.len();
    let counted = match state.provider {
        OnboardingProvider::ClaudeCode => ownership.files.len() == 0 && commands == 3,
        OnboardingProvider::CodexCli => ownership.files.len() == 1 && commands == 1,
        OnboardingProvider::Omp => ownership.files.len() == 1 && (commands == 1 || commands == 2),
    };
    if !counted {
        return Err(ProviderInstallError::Conflict);
    }
    if let Err(fault) = check_files(&state.actions, &ownership.files, &reads.files) {
        return Err(fault);
    }
    if !check_commands(&state.actions, &ownership.commands) {
        return Err(ProviderInstallError::Conflict);
    }
    Ok(())
}

/// What is looked at to check the paths of a set-up. Each is the outcome of a look at the
/// host, none of which changes it.
pub struct PathReads {
    /// Whether the home directory and that of the configuration are there.
    pub home: Result<bool, ProviderInstallError>,
    pub root: Result<bool, ProviderInstallError>,
    pub executable: FileHash,
    /// Whether the provider could change its own files, in order.
    pub destinations: Vec<Result<(), ProviderInstallError>>,
    /// Whether there is the link of this program's own.
    pub link: Result<bool, ProviderInstallError>,
    /// Whether there is a copy of the plugin.
    pub cache: Result<bool, ProviderInstallError>,
    /// Whether the files to be installed could be changed, and what they are, in order.
    pub places: Vec<Result<(), ProviderInstallError>>,
    pub files: Vec<FileHash>,
    /// Whether the record of ownership could be changed, whether it is there, and whether
    /// it is in order.
    pub manifest_place: Result<(), ProviderInstallError>,
    pub manifest: Result<bool, ProviderInstallError>,
    pub recorded: Result<(), ProviderInstallError>,
}

/// Why a look at something that must be there does not let one go on.
pub open spec fn must_be_there(look: Result<bool, ProviderInstallError>) -> Option<
    ProviderInstallError,
> {
    match look {
        Ok(true) => None,
        Ok(false) => Some(ProviderInstallError::Permission),
        Err(error) => Some(error),
    }
}

/// The first fault of a list from a place on.
pub open spec fn first_fault(list: Seq<Result<(), ProviderInstallError>>, from: int) -> Option<
    ProviderInstallError,
>
    decreases list.len() - from,
{
    if from >= list.len() {
        None
    } else {
        match list[from] {
            Err(error) => Some(error),
            Ok(()) => first_fault(list, from + 1),
        }
    }
}

/// Whether a place could be changed.
pub open spec fn place_at(list: Seq<Result<(), ProviderInstallError>>, place: int) -> Option<
    ProviderInstallError,
> {
    if place < list.len() {
        match list[place] {
            Err(error) => Some(error),
            Ok(()) => None,
        }
    } else {
        None
    }
}

/// Why the files from a place on may not be installed.
pub open spec fn files_fault(
    installer: ProviderInstaller,
    actions: Seq<ActionRecord>,
    reads: PathReads,
    from: int,
) -> Option<ProviderInstallError>
    decreases installer.files@.len() - from,
{
    if from >= installer.files@.len() {
        None
    } else {
        match place_at(reads.places@, from) {
            Some(fault) => Some(fault),
            None => match file_fault(
                actions,
                installer.files@[from].record,
                hash_at(reads.files@, from),
            ) {
                Some(fault) => Some(fault),
                None => files_fault(installer, actions, reads, from + 1),
            },
        }
    }
}

/// Why the record of ownership does not let one go on.
pub open spec fn manifest_fault(
    installer: ProviderInstaller,
    actions: Seq<ActionRecord>,
    reads: PathReads,
) -> Option<ProviderInstallError> {
    match reads.manifest_place {
        Err(error) => Some(error),
        Ok(()) => match reads.manifest {
            Err(error) => Some(error),
            Ok(true) => match reads.recorded {
                Err(error) => Some(error),
                Ok(()) => None,
            },
            Ok(false) => match record_of_file(
                actions,
                ownership_file(installer.private_root@, installer.provider),
            ) {
                Some((_, status)) => if status is Applied {
                    Some(ProviderInstallError::Conflict)
                } else {
                    None
                },
                None => None,
            },
        },
    }
}

/// Why a copy of the plugin does not let one go on: it must be this program's own.
pub open spec fn cache_fault(
    installer: ProviderInstaller,
    actions: Seq<ActionRecord>,
    reads: PathReads,
) -> Option<ProviderInstallError> {
    if !(installer.provider is ClaudeCode) {
        None
    } else {
        match reads.cache {
            Err(error) => Some(error),
            Ok(there) => if there && step_status(installer, actions, Step::ClaudePlugin) is None {
                Some(ProviderInstallError::Conflict)
            } else {
                None
            },
        }
    }
}

/// Why the paths of a set-up do not let one go on: the first fault counts.
pub open spec fn paths_fault(
    installer: ProviderInstaller,
    actions: Seq<ActionRecord>,
    reads: PathReads,
) -> Option<ProviderInstallError> {
    match must_be_there(reads.home) {
        Some(fault) => Some(fault),
        None => match must_be_there(reads.root) {
            Some(fault) => Some(fault),
            None => match reads.executable {
                FileHash::Failed(error) => Some(error),
                _ => if !hashes_to(reads.executable, installer.executable_sha256@) {
                    Some(ProviderInstallError::Conflict)
                } else {
                    match first_fault(reads.destinations@, 0) {
                        Some(fault) => Some(fault),
                        None => match reads.link {
                            Err(error) => Some(error),
                            Ok(_) => match cache_fault(installer, actions, reads) {
                                Some(fault) => Some(fault),
                                None => match files_fault(installer, actions, reads, 0) {
                                    Some(fault) => Some(fault),
                                    None => manifest_fault(installer, actions, reads),
                                },
                            },
                        },
                    }
                },
            },
        },
    }
}

fn check_there(look: &Result<bool, ProviderInstallError>) -> (checked: Result<
    (),
    ProviderInstallError,
>)
    ensures
        checked == (match must_be_there(*look) {
            Some(fault) => Err::<(), ProviderInstallError>(fault),
            None => Ok(()),
        }),
{
    match look {
        Ok(there) => if *there {
            Ok(())
        } else {
            Err(ProviderInstallError::Permission)
        },
        Err(error) => Err(*error),
    }
}

fn check_all(list: &Vec<Result<(), ProviderInstallError>>) -> (checked: Result<
    (),
    ProviderInstallError,
>)
    ensures
        checked == (match first_fault(list@, 0) {
            Some(fault) => Err::<(), ProviderInstallError>(fault),
            None => Ok(()),
        }),
{
    let mut i: usize = 0;
    while i < list.len()
        invariant
            i <= list@.len(),
            first_fault(list@, 0) == first_fault(list@, i as int),
        decreases list.len() - i,
    {
        match &list[i] {
            Err(error) => {
                return Err(*error);
            },
            Ok(()) => {},
        }
        i += 1;
    }
    Ok(())
}

impl ProviderInstaller {
    fn check_own_files(&self, actions: &Vec<ActionRecord>, reads: &PathReads) -> (checked: Result<
        (),
        ProviderInstallError,
    >)
        ensures
            checked == (match files_fault(*self, actions@, *reads, 0) {
                Some(fault) => Err::<(), ProviderInstallError>(fault),
                None => Ok(()),
            }),
    {
        let mut i: usize = 0;
        while i < self.files.len()
            invariant
                i <= self.files@.len(),
                files_fault(*self, actions@, *reads, 0) == files_fault(
                    *self,
                    actions@,
                    *reads,
                    i as int,
                ),
            decreases self.files.len() - i,
        {
            if i < reads.places.len() {
                match &reads.places[i] {
                    Err(error) => {
                        return Err(*error);
                    },
                    Ok(()) => {},
                }
            }
            let checked = if i < reads.files.len() {
                check_file(actions, &self.files[i].record, &reads.files[i])
            } else {
                check_file(actions, &self.files[i].record, &FileHash::Absent)
            };
            if let Err(fault) = checked {
                return Err(fault);
            }
            i += 1;
        }
        Ok(())
    }

    fn check_manifest(&self, actions: &Vec<ActionRecord>, reads: &PathReads) -> (checked: Result<
        (),
        ProviderInstallError,
    >)
        ensures
            checked == (match manifest_fault(*self, actions@, *reads) {
                Some(fault) => Err::<(), ProviderInstallError>(fault),
                None => Ok(()),
            }),
    {
        match &reads.manifest_place {
            Err(error) => {
                return Err(*error);
            },
            Ok(()) => {},
        }
        match &reads.manifest {
            Err(error) => Err(*error),
            Ok(there) => if *there {
                match &reads.recorded {
                    Err(error) => Err(*error),
                    Ok(()) => Ok(()),
                }
            } else {
                let path = ownership_path(self.private_root.as_str(), self.provider);
                match action_for_file(actions, path.as_str()) {
                    Some((_, status)) => if status == ActionStatus::Applied {
                        Err(ProviderInstallError::Conflict)
                    } else {
                        Ok(())
                    },
                    None => Ok(()),
                }
            },
        }
    }

    /// Refuses to go on where a path of this set-up is not as it must be.
    pub fn check_paths(&self, actions: &Vec<ActionRecord>, reads: &PathReads) -> (checked: Result<
        (),
        ProviderInstallError,
    >)
        ensures
            checked == (match paths_fault(*self, actions@, *reads) {
                Some(fault) => Err::<(), ProviderInstallError>(fault),
                None => Ok(()),
            }),
    {
        if let Err(fault) = check_there(&reads.home) {
            return Err(fault);
        }
        if let Err(fault) = check_there(&reads.root) {
            return Err(fault);
        }
        match &reads.executable {
            FileHash::Failed(error) => {
                return Err(*error);
            },
            _ => {
                if !reads.executable.is(self.executable_sha256.as_str()) {
                    return Err(ProviderInstallError::Conflict);
                }
            },
        }
        if let Err(fault) = check_all(&reads.destinations) {
            return Err(fault);
        }
        match &reads.link {
            Err(error) => {
                return Err(*error);
            },
            Ok(_) => {},
        }
        if self.provider == OnboardingProvider::ClaudeCode {
            match &reads.cache {
                Err(error) => {
                    return Err(*error);
                },
                Ok(there) => {
                    if *there && self.status(actions, Step::ClaudePlugin).is_none() {
                        return Err(ProviderInstallError::Conflict);
                    }
                },
            }
        }
        if let Err(fault) = self.check_own_files(actions, reads) {
            return Err(fault);
        }
        self.check_manifest(actions, reads)
    }
}

/// What the planner of the plugin host's links said.
#[derive(Clone, Copy, Debug, PartialEq, Eq, Structural)]
pub enum LinkPlan {
    Ready,
    EnableRequired,
    SetupConflict,
    Failed,
}

/// What is to be checked before anything is installed.
#[derive(Clone, Copy, Debug, PartialEq, Eq, Structural)]
pub enum PreflightPhase {
    /// What is installed is to be decided.
    Layout,
    Paths,
    Features,
    Registrations,
    /// The planner of the plugin host's links is to be asked.
    LinkPlan,
    /// The place of the link is to be looked at.
    LinkPlace,
    Ready,
    Failed(ProviderInstallError),
}

/// How that went.
#[derive(Clone, Copy, Debug, PartialEq, Eq, Structural)]
pub enum PreflightEvent {
    Done,
    Planned(LinkPlan),
    Failed(ProviderInstallError),
}

/// What is to be checked next. `pending` is whether a link of this program's own is pending.
pub open spec fn preflight_next(
    phase: PreflightPhase,
    provider: OnboardingProvider,
    pending: bool,
    event: PreflightEvent,
) -> PreflightPhase {
    match (phase, event) {
        (PreflightPhase::Ready, _) => phase,
        (PreflightPhase::Failed(_), _) => phase,
        (_, PreflightEvent::Failed(error)) => PreflightPhase::Failed(error),
        (PreflightPhase::Layout, PreflightEvent::Done) => PreflightPhase::Paths,
        (PreflightPhase::Paths, PreflightEvent::Done) => PreflightPhase::Features,
        (PreflightPhase::Features, PreflightEvent::Done) => PreflightPhase::Registrations,
        (PreflightPhase::Registrations, PreflightEvent::Done) => if provider is Omp {
            PreflightPhase::LinkPlan
        } else {
            PreflightPhase::LinkPlace
        },
        (PreflightPhase::LinkPlan, PreflightEvent::Planned(plan)) => match plan {
            LinkPlan::Ready => PreflightPhase::LinkPlace,
            LinkPlan::EnableRequired => if pending {
                PreflightPhase::LinkPlace
            } else {
                PreflightPhase::Failed(ProviderInstallError::OmpDisabled)
            },
            LinkPlan::SetupConflict => PreflightPhase::Failed(ProviderInstallError::Conflict),
            LinkPlan::Failed => PreflightPhase::Failed(ProviderInstallError::Requirement(provider)),
        },
        (PreflightPhase::LinkPlace, PreflightEvent::Done) => PreflightPhase::Ready,
        _ => phase,
    }
}

impl ProviderInstaller {
    /// What is to be checked next before anything is installed.
    pub fn preflight(&self, phase: PreflightPhase, state: &JournalState, event: PreflightEvent) -> (next: PreflightPhase)
        ensures
            next == preflight_next(phase, self.provider, link_pending(*self, *state), event),
    {
        match (phase, event) {
            (PreflightPhase::Ready, _) => phase,
            (PreflightPhase::Failed(_), _) => phase,
            (_, PreflightEvent::Failed(error)) => PreflightPhase::Failed(error),
            (PreflightPhase::Layout, PreflightEvent::Done) => PreflightPhase::Paths,
            (PreflightPhase::Paths, PreflightEvent::Done) => PreflightPhase::Features,
            (PreflightPhase::Features, PreflightEvent::Done) => PreflightPhase::Registrations,
            (PreflightPhase::Registrations, PreflightEvent::Done) => if self.provider
                == OnboardingProvider::Omp {
                PreflightPhase::LinkPlan
            } else {
                PreflightPhase::LinkPlace
            },
            (PreflightPhase::LinkPlan, PreflightEvent::Planned(plan)) => match plan {
                LinkPlan::Ready => PreflightPhase::LinkPlace,
                LinkPlan::EnableRequired => if self.pending_link(state) {
                    PreflightPhase::LinkPlace
                } else {
                    PreflightPhase::Failed(ProviderInstallError::OmpDisabled)
                },
                LinkPlan::SetupConflict => PreflightPhase::Failed(ProviderInstallError::Conflict),
                LinkPlan::Failed => PreflightPhase::Failed(
                    ProviderInstallError::Requirement(self.provider),
                ),
            },
            (PreflightPhase::LinkPlace, PreflightEvent::Done) => PreflightPhase::Ready,
            _ => phase,
        }
    }
}

/// What was installed and applied verifies, as long as nothing has changed since: the
/// record that is made of it is found to be in order.
pub proof fn applied_set_ups_verify(
    root: Seq<char>,
    installer: ProviderInstaller,
    state: JournalState,
    reads: RecordedReads,
)
    requires
        configurable(installer, state),
        installer.version@.len() > 0,
        installer.steps@ == steps_of(installer.provider),
        installer.files@.len() == expected_files(installer.provider),
        reads.bytes is Found,
        file_status(
            state.actions@,
            ownership_file(root, state.provider),
            digest_text(reads.bytes->Found_0@),
        ) == Some(ActionStatus::Applied),
        reads.ownership is Some,
        ownership_of(reads.ownership->0, installer, state),
        hashes_to(reads.executable, installer.executable_sha256@),
        reads.files@.len() == installer.files@.len(),
        forall|i: int|
            0 <= i < installer.files@.len() ==> hashes_to(
                #[trigger] reads.files@[i],
                installer.files@[i].record.sha256@,
            ),
        forall|i: int|
            0 <= i < installer.files@.len() ==> planned_status(
                state.actions@,
                (#[trigger] installer.files@[i]).record,
            ) == Some(ActionStatus::Applied),
        forall|i: int|
            0 <= i < installer.steps@.len() ==> step_status(
                installer,
                state.actions@,
                #[trigger] installer.steps@[i],
            ) == Some(ActionStatus::Applied),
        step_status(installer, state.actions@, Step::OmpEnable) != Some(ActionStatus::Planned),
    ensures
        recorded_fault(root, state, reads) is None,
{
    let ownership = reads.ownership->0;
    let commands = command_texts(ownership.commands@);
    assert(commands.len() == ownership.commands@.len());
    assert forall|i: int| 0 <= i < ownership.commands@.len() implies command_applied(
        state.actions@,
        #[trigger] ownership.commands@[i],
    ) by {
        let argv = ownership.commands@[i];
        let action = InstallAction::Command { argv };
        assert(commands[i] == texts(argv@));
        let step = if i < installer.steps@.len() {
            installer.steps@[i]
        } else {
            Step::OmpEnable
        };
        assert(commands[i] == owned_commands(installer, state.actions@)[i]);
        assert(step_intent(installer, step, action));
        step_status_is_status(installer, state.actions@, step, action);
        if i < installer.steps@.len() {
            assert(step_status(installer, state.actions@, installer.steps@[i]) == Some(
                ActionStatus::Applied,
            ));
        } else {
            let status = step_status(installer, state.actions@, Step::OmpEnable);
            assert(status is Some);
            assert(status->0 is Applied || status->0 is Planned);
            assert(status == Some(ActionStatus::Applied));
        }
    }
    if installer.files@.len() > 0 {
        assert(installer.files@.len() == 1);
        let a = ownership.files@[0];
        let b = installer.files@[0].record;
        assert(a.path@ == b.path@ && a.sha256@ == b.sha256@);
        same_intent_same_status(
            state.actions@,
            InstallAction::File { path: a.path, sha256: a.sha256 },
            InstallAction::File { path: b.path, sha256: b.sha256 },
        );
        assert(hashes_to(reads.files@[0], b.sha256@));
        assert(owned_file_fault(state.actions@, a, reads.files@[0]) is None);
        assert(owned_files_fault(state.actions@, ownership.files@, reads.files@, 1) is None);
    }
    assert(owned_files_fault(state.actions@, ownership.files@, reads.files@, 0) is None);
}

} // verus!
