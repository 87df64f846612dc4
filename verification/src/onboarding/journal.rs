//! The journal of an onboarding: what it records, which records are in order, and how it
//! changes. A change counts only once it is on the disk.

use vstd::prelude::*;

use crate::credentials::{CredentialFile, CredentialRole};
use crate::digest::sha256_text;
use crate::ids::{hyphenated_text, hyphenated_text_is_plain, uuid_version, Uuid};
use crate::onboarding::{
    invite_subject, provider_identity, provider_text, subject_of, ticket_fault, valid_sha256,
    OnboardingProvider, OnboardingTicket, TicketVerdicts, VERSION,
};
use crate::paths::{
    absolute, components, is_absolute, is_same_path, is_steady, join, joined, path_names, same_path,
    steady,
};
use crate::protocol::WorkspaceName;
use crate::text::{
    chars_of, concat3, contains_part, has_char, has_part, same_text, same_texts, text_between,
    texts,
};

verus! {

pub const STATE_FILE: &'static str = "state.json";

pub const CREDENTIAL_FILE: &'static str = "credential.json";

pub const LOCK_FILE: &'static str = "onboarding.lock";

/// The most bytes that a journal may hold.
pub const MAX_STATE_BYTES: usize = 1_048_576;

/// How long an enrollment may take.
pub const ENROLL_TIMEOUT_MS: u64 = 10_000;

/// How far an onboarding has come.
#[derive(Clone, Copy, Debug, PartialEq, Eq, Structural)]
pub enum Stage {
    Prepared,
    Enrolled,
    Configured,
}

/// How far a stage is.
pub open spec fn stage_rank(stage: Stage) -> int {
    match stage {
        Stage::Prepared => 0,
        Stage::Enrolled => 1,
        Stage::Configured => 2,
    }
}

/// Something that is done to the host.
pub enum InstallAction {
    File { path: String, sha256: String },
    Command { argv: Vec<String> },
}

#[derive(Clone, Copy, Debug, PartialEq, Eq, Structural)]
pub enum ActionStatus {
    Planned,
    Applied,
}

pub struct ActionRecord {
    pub intent: InstallAction,
    pub status: ActionStatus,
}

impl PartialEq for InstallAction {
    fn eq(&self, other: &Self) -> (same: bool) {
        self.equals(other)
    }
}

impl vstd::std_specs::cmp::PartialEqSpecImpl for InstallAction {
    open spec fn obeys_eq_spec() -> bool {
        true
    }

    open spec fn eq_spec(&self, other: &Self) -> bool {
        self.alike(*other)
    }
}

impl PartialEq for ActionRecord {
    fn eq(&self, other: &Self) -> (same: bool) {
        self.intent.equals(&other.intent) && self.status == other.status
    }
}

impl vstd::std_specs::cmp::PartialEqSpecImpl for ActionRecord {
    open spec fn obeys_eq_spec() -> bool {
        true
    }

    open spec fn eq_spec(&self, other: &Self) -> bool {
        self.intent.alike(other.intent) && self.status == other.status
    }
}

/// What a journal records.
pub struct JournalState {
    pub version: u8,
    pub invite_id: Uuid,
    pub provider: OnboardingProvider,
    pub server_id: Uuid,
    pub profile_name: String,
    pub workspace: WorkspaceName,
    pub enrollment_id: Uuid,
    pub credential_file: String,
    pub executable: String,
    pub manifest_sha256: String,
    pub stage: Stage,
    pub ticket: Option<OnboardingTicket>,
    pub actions: Vec<ActionRecord>,
}

#[derive(Clone, Copy, Debug, PartialEq, Eq, Structural)]
pub enum JournalError {
    ConfigurationBusy,
    Permissions,
    Io,
    Invalid,
    NotFound,
    Conflict,
    ProfileConflict,
    BindingConflict,
    Configuration,
    IdentityMismatch,
    InvalidRoute,
    ClaimsMismatch,
    InvalidResponse,
    InviteUnavailable,
    Unavailable,
    RateLimited,
}

/// The code that a fault is reported under.
pub open spec fn journal_code(error: JournalError) -> Seq<char> {
    match error {
        JournalError::ConfigurationBusy => "configuration_busy"@,
        JournalError::Permissions => "journal_permissions"@,
        JournalError::Io => "journal_io"@,
        JournalError::Invalid => "journal_invalid"@,
        JournalError::NotFound => "journal_not_found"@,
        JournalError::Conflict => "journal_conflict"@,
        JournalError::ProfileConflict => "profile_conflict"@,
        JournalError::BindingConflict => "binding_conflict"@,
        JournalError::Configuration => "invalid_configuration"@,
        JournalError::IdentityMismatch => "server_identity_mismatch"@,
        JournalError::InvalidRoute => "route_invalid"@,
        JournalError::ClaimsMismatch => "enrollment_claims_mismatch"@,
        JournalError::InvalidResponse => "enrollment_response_invalid"@,
        JournalError::InviteUnavailable => "invite_unavailable"@,
        JournalError::Unavailable => "enrollment_unavailable"@,
        JournalError::RateLimited => "enrollment_rate_limited"@,
    }
}

impl JournalError {
    pub fn code(&self) -> (code: &'static str)
        ensures
            code@ == journal_code(*self),
    {
        match self {
            JournalError::ConfigurationBusy => "configuration_busy",
            JournalError::Permissions => "journal_permissions",
            JournalError::Io => "journal_io",
            JournalError::Invalid => "journal_invalid",
            JournalError::NotFound => "journal_not_found",
            JournalError::Conflict => "journal_conflict",
            JournalError::ProfileConflict => "profile_conflict",
            JournalError::BindingConflict => "binding_conflict",
            JournalError::Configuration => "invalid_configuration",
            JournalError::IdentityMismatch => "server_identity_mismatch",
            JournalError::InvalidRoute => "route_invalid",
            JournalError::ClaimsMismatch => "enrollment_claims_mismatch",
            JournalError::InvalidResponse => "enrollment_response_invalid",
            JournalError::InviteUnavailable => "invite_unavailable",
            JournalError::Unavailable => "enrollment_unavailable",
            JournalError::RateLimited => "enrollment_rate_limited",
        }
    }
}

/// Why the configuration could not be read or written.
#[derive(Clone, Copy, Debug, PartialEq, Eq, Structural)]
pub enum ConfigError {
    ProfileConflict,
    BindingConflict,
    Io,
    Other,
}

pub fn config_error(error: ConfigError) -> (fault: JournalError)
    ensures
        fault == (match error {
            ConfigError::ProfileConflict => JournalError::ProfileConflict,
            ConfigError::BindingConflict => JournalError::BindingConflict,
            ConfigError::Io => JournalError::Io,
            ConfigError::Other => JournalError::Configuration,
        }),
{
    match error {
        ConfigError::ProfileConflict => JournalError::ProfileConflict,
        ConfigError::BindingConflict => JournalError::BindingConflict,
        ConfigError::Io => JournalError::Io,
        ConfigError::Other => JournalError::Configuration,
    }
}

/// Why a credential could not be read or written.
#[derive(Clone, Copy, Debug, PartialEq, Eq, Structural)]
pub enum CredentialError {
    Permissions,
    Invalid,
    Exists,
    NotFound,
    Io,
    Random,
}

pub fn credential_error(error: CredentialError) -> (fault: JournalError)
    ensures
        fault == (match error {
            CredentialError::Permissions => JournalError::Permissions,
            CredentialError::Invalid => JournalError::Invalid,
            CredentialError::Exists => JournalError::Conflict,
            CredentialError::NotFound => JournalError::NotFound,
            _ => JournalError::Io,
        }),
{
    match error {
        CredentialError::Permissions => JournalError::Permissions,
        CredentialError::Invalid => JournalError::Invalid,
        CredentialError::Exists => JournalError::Conflict,
        CredentialError::NotFound => JournalError::NotFound,
        CredentialError::Io | CredentialError::Random => JournalError::Io,
    }
}

/// Why something could not be opened, from whether it is there at all.
pub fn open_error(missing: bool) -> (fault: JournalError)
    ensures
        fault == if missing {
            JournalError::NotFound
        } else {
            JournalError::Permissions
        },
{
    if missing {
        JournalError::NotFound
    } else {
        JournalError::Permissions
    }
}

/// How asking for the lock of the configuration went.
#[derive(Clone, Copy, Debug, PartialEq, Eq, Structural)]
pub enum LockOutcome {
    Taken,
    /// Another process holds it.
    Busy,
    Failed,
}

pub fn check_lock(outcome: LockOutcome) -> (taken: Result<(), JournalError>)
    ensures
        taken == (match outcome {
            LockOutcome::Taken => Ok::<(), JournalError>(()),
            LockOutcome::Busy => Err(JournalError::ConfigurationBusy),
            LockOutcome::Failed => Err(JournalError::Io),
        }),
{
    match outcome {
        LockOutcome::Taken => Ok(()),
        LockOutcome::Busy => Err(JournalError::ConfigurationBusy),
        LockOutcome::Failed => Err(JournalError::Io),
    }
}

/// What is known of an open file.
#[derive(Clone, Copy, Debug, PartialEq, Eq, Structural)]
pub struct OpenFacts {
    pub is_file: bool,
    pub uid: u32,
    pub mode: u32,
    pub links: u64,
    pub bytes: u64,
}

/// A file that its owner alone reads and writes.
pub open spec fn private_metadata(facts: OpenFacts, uid: u32) -> bool {
    facts.is_file && facts.uid == uid && facts.mode & 0o777 == 0o600
}

pub fn validate_private_metadata(facts: &OpenFacts, uid: u32) -> (checked: Result<(), JournalError>)
    ensures
        checked == if private_metadata(*facts, uid) {
            Ok::<(), JournalError>(())
        } else {
            Err(JournalError::Permissions)
        },
{
    if !facts.is_file || facts.uid != uid || facts.mode & 0o777 != 0o600 {
        return Err(JournalError::Permissions);
    }
    Ok(())
}

pub fn validate_private_file(facts: &OpenFacts, uid: u32) -> (checked: Result<(), JournalError>)
    ensures
        checked == if private_metadata(*facts, uid) && facts.links == 1 {
            Ok::<(), JournalError>(())
        } else {
            Err(JournalError::Permissions)
        },
{
    if let Err(error) = validate_private_metadata(facts, uid) {
        return Err(error);
    }
    if facts.links != 1 {
        return Err(JournalError::Permissions);
    }
    Ok(())
}

/// A directory that its owner alone reaches into.
pub fn validate_directory(uid_of: u32, mode: u32, uid: u32) -> (checked: Result<(), JournalError>)
    ensures
        checked == if uid_of == uid && mode & 0o777 == 0o700 {
            Ok::<(), JournalError>(())
        } else {
            Err(JournalError::Permissions)
        },
{
    if uid_of != uid || mode & 0o777 != 0o700 {
        return Err(JournalError::Permissions);
    }
    Ok(())
}

/// The names that are opened one below the other to reach a directory. A path that goes up
/// is refused.
pub fn directory_names(path: &str) -> (names: Result<Vec<String>, JournalError>)
    ensures
        if crate::paths::goes_up(path@) {
            names == Err::<Vec<String>, JournalError>(JournalError::Permissions)
        } else {
            names matches Ok(names) && texts(names@) == path_names(path@)
        },
{
    if crate::paths::has_parent(path) {
        return Err(JournalError::Permissions);
    }
    Ok(components(path))
}

/// The path that a path stands for, below the current directory where it does not begin at
/// the root. One that is empty or goes up stands for none.
pub open spec fn whole_path(path: Seq<char>, current: Option<Seq<char>>) -> Result<
    Seq<char>,
    JournalError,
> {
    if !steady(path) {
        Err(JournalError::Invalid)
    } else if absolute(path) {
        Ok(path)
    } else {
        match current {
            Some(current) => Ok(joined(current, path)),
            None => Err(JournalError::Io),
        }
    }
}

/// The path that a path stands for. The current directory is nothing where it is unknown.
pub fn absolute_path(path: &str, current: Option<&str>) -> (whole: Result<String, JournalError>)
    ensures
        (match whole {
            Ok(whole) => Ok(whole@),
            Err(error) => Err(error),
        }) == whole_path(
            path@,
            match current {
                Some(current) => Some(current@),
                None => None,
            },
        ),
{
    if !is_steady(path) {
        return Err(JournalError::Invalid);
    }
    if is_absolute(path) {
        return Ok(path.to_owned());
    }
    match current {
        Some(current) => Ok(join(current, path)),
        None => Err(JournalError::Io),
    }
}

/// The directory of a journal below that of the configuration.
pub open spec fn journal_path(parent: Seq<char>, invite_id: Uuid, provider: OnboardingProvider) -> Seq<
    char,
> {
    joined(
        joined(joined(parent, "onboarding"@), hyphenated_text(invite_id.value)),
        provider_text(provider),
    )
}

/// The directories of a journal, each below the one before, from that of the configuration.
pub fn journal_directories(parent: &str, invite_id: Uuid, provider: OnboardingProvider) -> (paths: Result<
    Vec<String>,
    JournalError,
>)
    ensures
        if invite_id.value == 0 {
            paths == Err::<Vec<String>, JournalError>(JournalError::Invalid)
        } else {
            paths matches Ok(paths) && texts(paths@) == seq![
                parent@,
                joined(parent@, "onboarding"@),
                joined(joined(parent@, "onboarding"@), hyphenated_text(invite_id.value)),
                journal_path(parent@, invite_id, provider),
            ]
        },
{
    if invite_id.is_nil() {
        return Err(JournalError::Invalid);
    }
    let onboarding = join(parent, "onboarding");
    let invite = join(onboarding.as_str(), invite_id.to_text().as_str());
    let path = join(invite.as_str(), provider.as_str().as_str());
    let paths = vec![parent.to_owned(), onboarding, invite, path];
    assert(texts(paths@) =~= seq![
        parent@,
        joined(parent@, "onboarding"@),
        joined(joined(parent@, "onboarding"@), hyphenated_text(invite_id.value)),
        journal_path(parent@, invite_id, provider),
    ]);
    Ok(paths)
}

/// What is known of a program: whether it is a file, and its mode; or why it could not be
/// opened.
#[derive(Clone, Copy, Debug, PartialEq, Eq)]
pub struct ExecutableFacts {
    pub opened: Result<(bool, u32), JournalError>,
}

/// Why a program cannot be installed.
pub open spec fn executable_fault(path: Seq<char>, facts: ExecutableFacts) -> Option<JournalError> {
    if !absolute(path) || !steady(path) {
        Some(JournalError::Invalid)
    } else {
        match facts.opened {
            Err(error) => Some(error),
            Ok((is_file, mode)) => if !is_file || mode & 0o111 == 0 {
                Some(JournalError::Invalid)
            } else {
                None
            },
        }
    }
}

pub fn validate_executable(path: &str, facts: &ExecutableFacts) -> (checked: Result<(), JournalError>)
    ensures
        checked == (match executable_fault(path@, *facts) {
            Some(fault) => Err::<(), JournalError>(fault),
            None => Ok(()),
        }),
{
    if !is_absolute(path) || !is_steady(path) {
        return Err(JournalError::Invalid);
    }
    match &facts.opened {
        Err(error) => Err(*error),
        Ok((is_file, mode)) => if !*is_file || *mode & 0o111 == 0 {
            Err(JournalError::Invalid)
        } else {
            Ok(())
        },
    }
}

impl InstallAction {
    /// Whether two actions are written down alike.
    pub open spec fn same(self, other: InstallAction) -> bool {
        match (self, other) {
            (
                InstallAction::File { path, sha256 },
                InstallAction::File { path: other_path, sha256: other_sha256 },
            ) => path@ == other_path@ && sha256@ == other_sha256@,
            (InstallAction::Command { argv }, InstallAction::Command { argv: other_argv }) => texts(
                argv@,
            ) == texts(other_argv@),
            _ => false,
        }
    }

    /// Whether two actions do the same: a path may be spelled in two ways.
    pub open spec fn alike(self, other: InstallAction) -> bool {
        match (self, other) {
            (
                InstallAction::File { path, sha256 },
                InstallAction::File { path: other_path, sha256: other_sha256 },
            ) => same_path(path@, other_path@) && sha256@ == other_sha256@,
            (InstallAction::Command { argv }, InstallAction::Command { argv: other_argv }) => texts(
                argv@,
            ) == texts(other_argv@),
            _ => false,
        }
    }

    /// The file that an action writes, if it writes one.
    pub open spec fn file(self) -> Option<Seq<char>> {
        match self {
            InstallAction::File { path, .. } => Some(path@),
            InstallAction::Command { .. } => None,
        }
    }

    /// Whether two actions write the same file.
    pub open spec fn same_file(self, other: InstallAction) -> bool {
        self.file() matches Some(path) && other.file() matches Some(other_path) && same_path(
            path,
            other_path,
        )
    }

    /// Whether two actions do the same.
    pub fn equals(&self, other: &InstallAction) -> (same: bool)
        ensures
            same == self.alike(*other),
    {
        match (self, other) {
            (
                InstallAction::File { path, sha256 },
                InstallAction::File { path: other_path, sha256: other_sha256 },
            ) => is_same_path(path.as_str(), other_path.as_str()) && same_text(
                sha256.as_str(),
                other_sha256.as_str(),
            ),
            (InstallAction::Command { argv }, InstallAction::Command { argv: other_argv }) => {
                same_texts(argv, other_argv)
            },
            _ => false,
        }
    }

    /// Whether two actions write the same file.
    pub fn writes_same(&self, other: &InstallAction) -> (same: bool)
        ensures
            same == self.same_file(*other),
    {
        match (self, other) {
            (InstallAction::File { path, .. }, InstallAction::File { path: other, .. }) => is_same_path(
                path.as_str(),
                other.as_str(),
            ),
            _ => false,
        }
    }

    /// Another copy of this action.
    pub fn copy(&self) -> (copy: InstallAction)
        ensures
            copy.same(*self),
            copy.file() == self.file(),
    {
        match self {
            InstallAction::File { path, sha256 } => InstallAction::File {
                path: path.as_str().to_owned(),
                sha256: sha256.as_str().to_owned(),
            },
            InstallAction::Command { argv } => InstallAction::Command { argv: copy_texts(argv) },
        }
    }
}

fn copy_texts(list: &Vec<String>) -> (copy: Vec<String>)
    ensures
        texts(copy@) == texts(list@),
{
    let mut copy: Vec<String> = Vec::new();
    let mut i: usize = 0;
    while i < list.len()
        invariant
            i <= list@.len(),
            copy@.len() == i,
            forall|j: int| 0 <= j < i ==> #[trigger] copy@[j]@ == list@[j]@,
        decreases list.len() - i,
    {
        copy.push(list[i].as_str().to_owned());
        i += 1;
    }
    assert(texts(copy@) =~= texts(list@));
    copy
}

/// Whether a text holds one of some secrets.
pub open spec fn tells_secret(text: Seq<char>, secrets: Seq<Seq<char>>) -> bool {
    exists|k: int| 0 <= k < secrets.len() && has_part(text, #[trigger] secrets[k])
}

/// An argument that may be recorded: no zero and no secret is in it.
pub open spec fn plain_argument(argument: Seq<char>, secrets: Seq<Seq<char>>) -> bool {
    !argument.contains('\0') && !tells_secret(argument, secrets)
}

/// An action that may be recorded: a file has an absolute path and a digest; a command has
/// a program, and no secret among its arguments.
pub open spec fn action_ok(action: InstallAction, secrets: Seq<Seq<char>>) -> bool {
    match action {
        InstallAction::File { path, sha256 } => absolute(path@) && steady(path@) && sha256_text(
            sha256@,
        ),
        InstallAction::Command { argv } => {
            &&& argv@.len() > 0
            &&& argv@[0]@.len() > 0
            &&& forall|i: int|
                0 <= i < argv@.len() ==> plain_argument(#[trigger] argv@[i]@, secrets)
        },
    }
}

/// The secrets of an optional ticket and an optional credential.
pub open spec fn secrets_of(ticket: Option<OnboardingTicket>, credential: Option<Seq<char>>) -> Seq<
    Seq<char>,
> {
    (match ticket {
        Some(ticket) => seq![ticket.invite_token@],
        None => Seq::empty(),
    }) + (match credential {
        Some(token) => seq![token],
        None => Seq::empty(),
    })
}

/// An optional token as a text.
pub open spec fn token_text(token: Option<&str>) -> Option<Seq<char>> {
    match token {
        Some(token) => Some(token@),
        None => None,
    }
}

fn holds_secret(argument: &str, ticket: &Option<OnboardingTicket>, credential: Option<&str>) -> (holds:
    bool)
    ensures
        holds == tells_secret(argument@, secrets_of(*ticket, token_text(credential))),
{
    let ghost secrets = secrets_of(*ticket, token_text(credential));
    let in_ticket = match ticket {
        Some(ticket) => contains_part(argument, ticket.invite_token.as_str()),
        None => false,
    };
    let in_credential = match credential {
        Some(token) => contains_part(argument, token),
        None => false,
    };
    proof {
        if ticket is Some {
            assert(secrets[0] == ticket->0.invite_token@);
        }
        if credential is Some {
            assert(secrets[secrets.len() - 1] == credential->0@);
        }
    }
    in_ticket || in_credential
}

/// Refuses an action that may not be recorded.
pub fn validate_action(
    action: &InstallAction,
    ticket: &Option<OnboardingTicket>,
    credential: Option<&str>,
) -> (checked: Result<(), JournalError>)
    ensures
        checked == if action_ok(
            *action,
            secrets_of(*ticket, token_text(credential)),
        ) {
            Ok::<(), JournalError>(())
        } else {
            Err(JournalError::Invalid)
        },
{
    let ghost secrets = secrets_of(*ticket, token_text(credential));
    match action {
        InstallAction::File { path, sha256 } => {
            if !is_absolute(path.as_str()) || !is_steady(path.as_str()) || !valid_sha256(
                sha256.as_str(),
            ) {
                return Err(JournalError::Invalid);
            }
            Ok(())
        },
        InstallAction::Command { argv } => {
            if argv.len() == 0 || argv[0].as_str().unicode_len() == 0 {
                return Err(JournalError::Invalid);
            }
            let mut i: usize = 0;
            while i < argv.len()
                invariant
                    i <= argv@.len(),
                    secrets == secrets_of(*ticket, token_text(credential)),
                    forall|j: int| 0 <= j < i ==> plain_argument(#[trigger] argv@[j]@, secrets),
                    *action == (InstallAction::Command { argv: *argv }),
                decreases argv.len() - i,
            {
                let argument = argv[i].as_str();
                if has_char(argument, '\0') || holds_secret(argument, ticket, credential) {
                    assert(!plain_argument(argv@[i as int]@, secrets));
                    return Err(JournalError::Invalid);
                }
                assert(plain_argument(argv@[i as int]@, secrets));
                i += 1;
            }
            Ok(())
        },
    }
}

/// Whether two records cannot stand beside each other: an action is recorded once, and a
/// file is written by one.
pub open spec fn clash(a: ActionRecord, b: ActionRecord) -> bool {
    a.intent.alike(b.intent) || a.intent.same_file(b.intent)
}

/// Records that are in order.
pub open spec fn actions_ok(
    actions: Seq<ActionRecord>,
    ticket: Option<OnboardingTicket>,
    stage: Stage,
) -> bool {
    &&& forall|i: int|
        0 <= i < actions.len() ==> action_ok(
            (#[trigger] actions[i]).intent,
            secrets_of(ticket, None),
        )
    &&& stage is Configured ==> forall|i: int|
        0 <= i < actions.len() ==> (#[trigger] actions[i]).status is Applied
    &&& forall|i: int, j: int|
        0 <= i < j < actions.len() ==> !clash(#[trigger] actions[i], #[trigger] actions[j])
}

fn check_actions(
    actions: &Vec<ActionRecord>,
    ticket: &Option<OnboardingTicket>,
    stage: Stage,
) -> (ok: bool)
    ensures
        ok == actions_ok(actions@, *ticket, stage),
{
    let mut i: usize = 0;
    while i < actions.len()
        invariant
            i <= actions@.len(),
            forall|k: int|
                0 <= k < i ==> action_ok(
                    (#[trigger] actions@[k]).intent,
                    secrets_of(*ticket, None),
                ),
            stage is Configured ==> forall|k: int|
                0 <= k < i ==> (#[trigger] actions@[k]).status is Applied,
            forall|k: int, j: int|
                0 <= k < j < i ==> !clash(#[trigger] actions@[k], #[trigger] actions@[j]),
        decreases actions.len() - i,
    {
        if let Err(_) = validate_action(&actions[i].intent, ticket, None) {
            assert(!action_ok(actions@[i as int].intent, secrets_of(*ticket, None)));
            return false;
        }
        if stage == Stage::Configured && actions[i].status != ActionStatus::Applied {
            assert(!(actions@[i as int].status is Applied));
            return false;
        }
        let mut k: usize = 0;
        while k < i
            invariant
                k <= i < actions@.len(),
                forall|m: int|
                    0 <= m < k ==> !clash(#[trigger] actions@[m], actions@[i as int]),
            decreases i - k,
        {
            if actions[k].intent.equals(&actions[i].intent) || actions[k].intent.writes_same(
                &actions[i].intent,
            ) {
                assert(clash(actions@[k as int], actions@[i as int]));
                return false;
            }
            k += 1;
        }
        i += 1;
    }
    true
}

/// The verdicts that a journal is checked with: those of the rules for profile names and
/// secret tokens, and what is known of the program.
#[derive(Clone, Copy, Debug)]
pub struct StateVerdicts {
    pub profile_name: bool,
    pub ticket: TicketVerdicts,
    pub executable: ExecutableFacts,
}

/// Whether a ticket is the one that a journal is of.
pub open spec fn ticket_of(state: JournalState, ticket: OnboardingTicket) -> bool {
    &&& ticket.invite_id == state.invite_id
    &&& ticket.server_id == state.server_id
    &&& ticket.profile_name@ == state.profile_name@
    &&& ticket.workspace@ == state.workspace@
    &&& ticket.manifest_sha256@ == state.manifest_sha256@
    &&& ticket.provider matches Some(bound) ==> bound == state.provider
}

/// Why a journal cannot be used, if it cannot. It keeps its ticket until it is configured,
/// and not after.
pub open spec fn state_fault(
    state: JournalState,
    invite_id: Uuid,
    provider: OnboardingProvider,
    path: Seq<char>,
    verdicts: StateVerdicts,
) -> Option<JournalError> {
    if state.version != VERSION || state.invite_id != invite_id || state.provider != provider
        || state.server_id.value == 0 || state.enrollment_id.value == 0 || !same_path(
        state.credential_file@,
        joined(path, CREDENTIAL_FILE@),
    ) || state.profile_name@ == "local"@
        || !verdicts.profile_name || !sha256_text(state.manifest_sha256@) {
        Some(JournalError::Invalid)
    } else {
        match executable_fault(state.executable@, verdicts.executable) {
            Some(fault) => Some(fault),
            None => {
                let ticket_ok = match (state.ticket, state.stage) {
                    (Some(ticket), Stage::Configured) => false,
                    (Some(ticket), _) => ticket_fault(ticket, verdicts.ticket) is None && ticket_of(
                        state,
                        ticket,
                    ),
                    (None, Stage::Configured) => true,
                    (None, _) => false,
                };
                if ticket_ok && actions_ok(state.actions@, state.ticket, state.stage) {
                    None
                } else {
                    Some(JournalError::Invalid)
                }
            },
        }
    }
}

/// Refuses a journal that cannot be used.
pub fn validate_state(
    state: &JournalState,
    invite_id: Uuid,
    provider: OnboardingProvider,
    path: &str,
    verdicts: &StateVerdicts,
) -> (checked: Result<(), JournalError>)
    ensures
        checked == (match state_fault(*state, invite_id, provider, path@, *verdicts) {
            Some(fault) => Err::<(), JournalError>(fault),
            None => Ok(()),
        }),
{
    let credential = join(path, CREDENTIAL_FILE);
    if state.version != VERSION || state.invite_id != invite_id || state.provider != provider
        || state.server_id.is_nil() || state.enrollment_id.is_nil() || !is_same_path(
        state.credential_file.as_str(),
        credential.as_str(),
    ) || same_text(state.profile_name.as_str(), "local") || !verdicts.profile_name || !valid_sha256(
        state.manifest_sha256.as_str(),
    ) {
        return Err(JournalError::Invalid);
    }
    if let Err(fault) = validate_executable(state.executable.as_str(), &verdicts.executable) {
        return Err(fault);
    }
    match (&state.ticket, state.stage) {
        (Some(_), Stage::Configured) => {
            return Err(JournalError::Invalid);
        },
        (Some(ticket), _) => {
            if let Err(_) = ticket.validate(verdicts.ticket) {
                return Err(JournalError::Invalid);
            }
            let bound = match ticket.provider {
                Some(bound) => bound == state.provider,
                None => true,
            };
            if ticket.invite_id != state.invite_id || ticket.server_id != state.server_id
                || !same_text(ticket.profile_name.as_str(), state.profile_name.as_str())
                || !ticket.workspace.same(&state.workspace) || !same_text(
                ticket.manifest_sha256.as_str(),
                state.manifest_sha256.as_str(),
            ) || !bound {
                return Err(JournalError::Invalid);
            }
        },
        (None, Stage::Configured) => {},
        (None, _) => {
            return Err(JournalError::Invalid);
        },
    }
    if !check_actions(&state.actions, &state.ticket, state.stage) {
        return Err(JournalError::Invalid);
    }
    Ok(())
}

/// Whether a credential is the one of an invitation: of its subject, for its provider, and
/// good for its workspace alone.
pub open spec fn claims_ok(
    credential: CredentialFile,
    invite_id: Uuid,
    provider: OnboardingProvider,
    workspace: Seq<char>,
) -> bool {
    &&& credential.id.value != 0
    &&& credential.role is Agent
    &&& credential.subject@ == subject_of(invite_id)
    &&& credential.agent_side == Some(provider_identity(provider).0)
    &&& credential.agent_client == Some(provider_identity(provider).1)
    &&& credential.workspaces@.len() == 1 && credential.workspaces@[0]@ == workspace
}

pub fn validate_claims(
    credential: &CredentialFile,
    invite_id: Uuid,
    provider: OnboardingProvider,
    workspace: &WorkspaceName,
) -> (checked: Result<(), JournalError>)
    ensures
        checked == if claims_ok(*credential, invite_id, provider, workspace@) {
            Ok::<(), JournalError>(())
        } else {
            Err(JournalError::ClaimsMismatch)
        },
{
    let (side, client) = provider.identity();
    let subject = invite_subject(invite_id);
    let of_side = match credential.agent_side {
        Some(given) => given == side,
        None => false,
    };
    let of_client = match credential.agent_client {
        Some(given) => given == client,
        None => false,
    };
    if credential.id.is_nil() || credential.role != CredentialRole::Agent || !same_text(
        credential.subject.as_str(),
        subject.as_str(),
    ) || !of_side || !of_client || credential.workspaces.len() != 1
        || !credential.workspaces[0].same(workspace) {
        return Err(JournalError::ClaimsMismatch);
    }
    Ok(())
}

/// Why the file of a pending credential is refused before it is read into: it is private,
/// has one name or, since it was just written, two, and few enough bytes.
pub fn check_credential_file(facts: &OpenFacts, uid: u32, read: usize, most: usize) -> (checked: Result<
    (),
    JournalError,
>)
    ensures
        checked == if !private_metadata(*facts, uid) || !(1 <= facts.links <= 2) {
            Err::<(), JournalError>(JournalError::Permissions)
        } else if read > most {
            Err(JournalError::Invalid)
        } else {
            Ok(())
        },
{
    if let Err(error) = validate_private_metadata(facts, uid) {
        return Err(error);
    }
    if !(facts.links == 1 || facts.links == 2) {
        return Err(JournalError::Permissions);
    }
    if read > most {
        return Err(JournalError::Invalid);
    }
    Ok(())
}

/// Why the file of a journal is refused: it is private, has one name, and few enough bytes.
pub fn check_state_file(facts: &OpenFacts, uid: u32, read: usize) -> (checked: Result<
    (),
    JournalError,
>)
    ensures
        checked == if !private_metadata(*facts, uid) || facts.links != 1 {
            Err::<(), JournalError>(JournalError::Permissions)
        } else if facts.bytes > MAX_STATE_BYTES || read > MAX_STATE_BYTES {
            Err(JournalError::Invalid)
        } else {
            Ok(())
        },
{
    if let Err(error) = validate_private_file(facts, uid) {
        return Err(error);
    }
    if facts.bytes > MAX_STATE_BYTES as u64 || read > MAX_STATE_BYTES {
        return Err(JournalError::Invalid);
    }
    Ok(())
}

/// The name that a credential is written under before it has its own.
pub open spec fn temporary_name(id: u128) -> Seq<char> {
    ".credential-"@ + hyphenated_text(id) + ".tmp"@
}

/// Whether a name is one that a credential was written under before it had its own.
pub open spec fn is_temporary(name: Seq<char>) -> bool {
    exists|id: u128| name == #[trigger] temporary_name(id) && crate::ids::version_of(id) == 4
}

/// Whether a name is one that a credential was written under before it had its own.
pub fn is_temporary_name(name: &str) -> (yes: bool)
    ensures
        yes == is_temporary(name@),
{
    let chars = chars_of(name);
    proof {
        reveal_strlit(".credential-");
        reveal_strlit(".tmp");
        assert forall|id: u128| name@ == #[trigger] temporary_name(id) implies chars@.subrange(
            12,
            chars@.len() - 4,
        ) == hyphenated_text(id) && chars@.len() == 52 by {
            hyphenated_text_is_plain(id);
            assert(chars@.subrange(12, chars@.len() - 4) =~= hyphenated_text(id));
        }
    }
    if chars.len() < 16 {
        return false;
    }
    let middle = text_between(&chars, 12, chars.len() - 4);
    let id = match Uuid::parse(middle.as_str()) {
        Some(id) => id,
        None => {
            return false;
        },
    };
    let whole = concat3(".credential-", id.to_text().as_str(), ".tmp");
    let canonical = same_text(name, whole.as_str());
    let random = uuid_version(id) == 4;
    proof {
        if canonical && random {
            assert(name@ == temporary_name(id.value));
        }
    }
    canonical && random
}

/// What is known of a name beside a credential's.
#[derive(Clone, Copy, Debug, PartialEq, Eq, Structural)]
pub struct LinkFacts {
    /// Whether it names the same file.
    pub same_file: bool,
    pub facts: OpenFacts,
}

/// The search for the name that a credential was written under.
#[derive(Debug)]
pub struct TemporaryScan {
    pub found: Option<String>,
}

impl TemporaryScan {
    pub fn new() -> (scan: TemporaryScan)
        ensures
            scan.found is None,
    {
        TemporaryScan { found: None }
    }

    /// A name was looked at. Of those that a credential is written under there must be one
    /// that names the credential's file, and no other.
    pub fn see(&mut self, name: &str, link: &LinkFacts, uid: u32) -> (seen: Result<(), JournalError>)
        ensures
            if !is_temporary(name@) || !link.same_file {
                &&& seen == Ok::<(), JournalError>(())
                &&& *final(self) == *old(self)
            } else if private_metadata(link.facts, uid) && link.facts.links == 2 && old(self).found
                is None {
                &&& seen == Ok::<(), JournalError>(())
                &&& final(self).found matches Some(found) && found@ == name@
            } else {
                &&& seen == Err::<(), JournalError>(JournalError::Permissions)
                &&& *final(self) == *old(self)
            },
    {
        if !is_temporary_name(name) || !link.same_file {
            return Ok(());
        }
        if let Err(error) = validate_private_metadata(&link.facts, uid) {
            return Err(error);
        }
        if link.facts.links != 2 || self.found.is_some() {
            return Err(JournalError::Permissions);
        }
        self.found = Some(name.to_owned());
        Ok(())
    }

    /// The name that is to be removed.
    pub fn finish(self) -> (name: Result<String, JournalError>)
        ensures
            name == (match self.found {
                Some(name) => Ok::<String, JournalError>(name),
                None => Err(JournalError::Permissions),
            }),
    {
        match self.found {
            Some(name) => Ok(name),
            None => Err(JournalError::Permissions),
        }
    }
}

/// A number that tells a code from the others.
spec fn journal_print(text: Seq<char>) -> int {
    1000000 * text.len() + 1000 * (text[0] as int) + text[text.len() - 1] as int
}

spec fn journal_print_of(error: JournalError) -> int {
    match error {
        JournalError::ConfigurationBusy => 18099121,
        JournalError::Permissions => 19106115,
        JournalError::Io => 10106111,
        JournalError::Invalid => 15106100,
        JournalError::NotFound => 17106100,
        JournalError::Conflict => 16106116,
        JournalError::ProfileConflict => 16112116,
        JournalError::BindingConflict => 16098116,
        JournalError::Configuration => 21105110,
        JournalError::IdentityMismatch => 24115104,
        JournalError::InvalidRoute => 13114100,
        JournalError::ClaimsMismatch => 26101104,
        JournalError::InvalidResponse => 27101100,
        JournalError::InviteUnavailable => 18105101,
        JournalError::Unavailable => 22101101,
        JournalError::RateLimited => 23101100,
    }
}

proof fn journal_code_printed(error: JournalError)
    ensures
        journal_print(journal_code(error)) == journal_print_of(error),
{
    match error {
        JournalError::ConfigurationBusy => reveal_strlit("configuration_busy"),
        JournalError::Permissions => reveal_strlit("journal_permissions"),
        JournalError::Io => reveal_strlit("journal_io"),
        JournalError::Invalid => reveal_strlit("journal_invalid"),
        JournalError::NotFound => reveal_strlit("journal_not_found"),
        JournalError::Conflict => reveal_strlit("journal_conflict"),
        JournalError::ProfileConflict => reveal_strlit("profile_conflict"),
        JournalError::BindingConflict => reveal_strlit("binding_conflict"),
        JournalError::Configuration => reveal_strlit("invalid_configuration"),
        JournalError::IdentityMismatch => reveal_strlit("server_identity_mismatch"),
        JournalError::InvalidRoute => reveal_strlit("route_invalid"),
        JournalError::ClaimsMismatch => reveal_strlit("enrollment_claims_mismatch"),
        JournalError::InvalidResponse => reveal_strlit("enrollment_response_invalid"),
        JournalError::InviteUnavailable => reveal_strlit("invite_unavailable"),
        JournalError::Unavailable => reveal_strlit("enrollment_unavailable"),
        JournalError::RateLimited => reveal_strlit("enrollment_rate_limited"),
    }
}

/// Every fault of a journal is reported under a code of its own.
pub proof fn journal_codes_are_distinct(a: JournalError, b: JournalError)
    requires
        journal_code(a) == journal_code(b),
    ensures
        a == b,
{
    journal_code_printed(a);
    journal_code_printed(b);
}

} // verus!
