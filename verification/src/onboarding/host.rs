//! The rules by which files and directories of the host are used: where they lie, who owns
//! them, and how one is put there without taking the place of another.

use vstd::prelude::*;

use crate::digest::{digest, digest_text, sha256_text};
use crate::ids::{hyphenated_text, Uuid};
use crate::onboarding::providers::ProviderInstallError;
use crate::onboarding::OnboardingProvider;
use crate::paths::{
    absolute, below_first, components, goes_up, has_parent, is_absolute, join, joined, path_names,
    rest_below,
};
use crate::text::{
    all_printable, chars_of, concat3, find_char, first_word, given, no_control, place_of, same_text,
    texts, word,
};

verus! {

/// The most bytes that are read of a file, or of what a program prints.
pub const MAX_BYTES: usize = 1_048_576;

/// What the environment gives for a name.
#[derive(Clone, Copy, Debug, PartialEq, Eq)]
pub enum EnvValue<'a> {
    Unset,
    /// Something that is not a text.
    Opaque,
    Text(&'a str),
}

/// The path that a text names from the current directory, where it may be used: it is
/// not empty, is printable, and never goes up. `current` is that directory, none where it is unknown.
pub open spec fn whole_path(path: Option<Seq<char>>, current: Option<Seq<char>>) -> Result<
    Seq<char>,
    ProviderInstallError,
> {
    match path {
        None => Err(ProviderInstallError::Permission),
        Some(path) => if path.len() == 0 || !no_control(path) || goes_up(path) {
            Err(ProviderInstallError::Permission)
        } else if absolute(path) {
            Ok(path)
        } else {
            match current {
                None => Err(ProviderInstallError::Io),
                Some(current) => Ok(joined(current, path)),
            }
        },
    }
}

/// The outcome of asking for a text, by its characters.
pub open spec fn outcome(value: Result<String, ProviderInstallError>) -> Result<
    Seq<char>,
    ProviderInstallError,
> {
    match value {
        Ok(value) => Ok(value@),
        Err(error) => Err(error),
    }
}

/// The path that a text names, where it may be used. There is none where the path is not a
/// text.
pub fn absolute_path(path: Option<&str>, current: Option<&str>) -> (whole: Result<
    String,
    ProviderInstallError,
>)
    ensures
        outcome(whole) == whole_path(given(path), given(current)),
{
    match path {
        None => Err(ProviderInstallError::Permission),
        Some(path) => {
            if path.unicode_len() == 0 || !all_printable(path) || has_parent(path) {
                return Err(ProviderInstallError::Permission);
            }
            if is_absolute(path) {
                return Ok(path.to_owned());
            }
            match current {
                None => Err(ProviderInstallError::Io),
                Some(current) => Ok(join(current, path)),
            }
        },
    }
}

/// Whether a path begins at the home directory: its first part is a tilde.
pub open spec fn from_home(path: Seq<char>) -> bool {
    path.subrange(0, place_of(path, '/', 0)) == seq!['~']
}

/// The path that the environment gives for a name, or the one that is used where it gives
/// none.
pub open spec fn env_path(
    value: EnvValue,
    home: EnvValue,
    default: Option<Seq<char>>,
    current: Option<Seq<char>>,
) -> Result<Seq<char>, ProviderInstallError> {
    match value {
        EnvValue::Unset => match default {
            None => Err(ProviderInstallError::Permission),
            Some(path) => whole_path(Some(path), current),
        },
        EnvValue::Opaque => Err(ProviderInstallError::Permission),
        EnvValue::Text(path) => if from_home(path@) {
            match home {
                EnvValue::Text(home) => whole_path(
                    Some(joined(home@, below_first(path@))),
                    current,
                ),
                _ => Err(ProviderInstallError::Permission),
            }
        } else {
            whole_path(Some(path@), current)
        },
    }
}

fn begins_at_home(path: &str) -> (yes: bool)
    ensures
        yes == from_home(path@),
{
    let chars = chars_of(path);
    let end = find_char(&chars, '/', 0);
    let ghost first = chars@.subrange(0, end as int);
    let yes = end == 1 && chars[0] == '~';
    proof {
        if yes {
            assert(first =~= seq!['~']);
        }
        assert(first == seq!['~'] ==> first.len() == 1 && first[0] == '~');
    }
    yes
}

pub fn environment_path(
    value: EnvValue,
    home: EnvValue,
    default: Option<&str>,
    current: Option<&str>,
) -> (path: Result<String, ProviderInstallError>)
    ensures
        outcome(path) == env_path(value, home, given(default), given(current)),
{
    match value {
        EnvValue::Unset => match default {
            None => Err(ProviderInstallError::Permission),
            Some(path) => absolute_path(Some(path), current),
        },
        EnvValue::Opaque => Err(ProviderInstallError::Permission),
        EnvValue::Text(path) => {
            if begins_at_home(path) {
                match home {
                    EnvValue::Text(home) => {
                        let whole = join(home, rest_below(path).as_str());
                        absolute_path(Some(whole.as_str()), current)
                    },
                    _ => Err(ProviderInstallError::Permission),
                }
            } else {
                absolute_path(Some(path), current)
            }
        },
    }
}

/// Whether a text may name a profile of the plugin host.
pub open spec fn profile_ok(profile: Seq<char>) -> bool {
    &&& forall|i: int| 0 <= i < profile.len() ==> profile_char(#[trigger] profile[i])
    &&& profile != "."@
    &&& profile != ".."@
}

pub open spec fn profile_char(c: char) -> bool {
    'a' <= c <= 'z' || '0' <= c <= '9' || c == '.' || c == '_' || c == '-'
}

fn is_profile(profile: &str) -> (yes: bool)
    ensures
        yes == profile_ok(profile@),
{
    let chars = chars_of(profile);
    let mut i: usize = 0;
    while i < chars.len()
        invariant
            i <= chars@.len(),
            chars@ == profile@,
            forall|j: int| 0 <= j < i ==> profile_char(#[trigger] profile@[j]),
        decreases chars.len() - i,
    {
        let c = chars[i];
        if !(('a' <= c && c <= 'z') || ('0' <= c && c <= '9') || c == '.' || c == '_' || c == '-') {
            assert(!profile_char(profile@[i as int]));
            return false;
        }
        i += 1;
    }
    !same_text(profile, ".") && !same_text(profile, "..")
}

/// What the environment says of where the plugin host keeps its configuration.
#[derive(Clone, Copy, Debug)]
pub struct OmpEnvironment<'a> {
    pub config_dir: EnvValue<'a>,
    pub omp_profile: EnvValue<'a>,
    pub pi_profile: EnvValue<'a>,
    /// Whether a directory of agents is named.
    pub agent_dir: bool,
    pub data_home: EnvValue<'a>,
    pub home: EnvValue<'a>,
}

/// The profile that the environment names, if it names one that is not the default.
pub open spec fn named_profile(env: OmpEnvironment) -> Option<Seq<char>> {
    let named = match (env.omp_profile, env.pi_profile) {
        (EnvValue::Text(profile), _) => Some(profile@),
        (_, EnvValue::Text(profile)) => Some(profile@),
        _ => None,
    };
    match named {
        Some(profile) => if profile.len() == 0 || profile == "default"@ {
            None
        } else {
            Some(profile)
        },
        None => None,
    }
}

/// The directory of a profile below another.
pub open spec fn of_profile(root: Seq<char>, profile: Option<Seq<char>>) -> Seq<char> {
    match profile {
        Some(profile) => joined(joined(root, "profiles"@), profile),
        None => root,
    }
}

/// The directory below the home that the configuration of the plugin host is in.
pub open spec fn omp_own_root(
    home: Seq<char>,
    env: OmpEnvironment,
    current: Option<Seq<char>>,
) -> Result<Seq<char>, ProviderInstallError> {
    let name = match env.config_dir {
        EnvValue::Unset => Some(".omp"@),
        EnvValue::Opaque => None,
        EnvValue::Text(name) => Some(name@),
    };
    match name {
        None => Err(ProviderInstallError::Permission),
        Some(name) => if absolute(name) {
            Err(ProviderInstallError::Permission)
        } else {
            match whole_path(Some(joined(home, name)), current) {
                Err(error) => Err(error),
                Ok(root) => match named_profile(env) {
                    Some(profile) => if profile_ok(profile) {
                        Ok(of_profile(root, Some(profile)))
                    } else {
                        Err(ProviderInstallError::Permission)
                    },
                    None => Ok(root),
                },
            }
        },
    }
}

/// The directory of data that takes its place where it is there.
pub open spec fn omp_data_root(env: OmpEnvironment, current: Option<Seq<char>>) -> Result<
    Option<Seq<char>>,
    ProviderInstallError,
> {
    if (!env.agent_dir || named_profile(env) is Some) && !(env.data_home is Unset) {
        match env_path(env.data_home, env.home, None, current) {
            Err(error) => Err(error),
            Ok(data) => Ok(Some(of_profile(joined(data, "omp"@), named_profile(env)))),
        }
    } else {
        Ok(None)
    }
}

/// Where the plugin host may keep its configuration.
pub struct OmpRoots {
    pub root: String,
    /// The directory that is used instead where it is there.
    pub data: Option<String>,
}

fn profile_of<'a>(env: &OmpEnvironment<'a>) -> (profile: Option<&'a str>)
    ensures
        given(profile) == named_profile(*env),
{
    let named = match env.omp_profile {
        EnvValue::Text(profile) => Some(profile),
        _ => match env.pi_profile {
            EnvValue::Text(profile) => Some(profile),
            _ => None,
        },
    };
    match named {
        Some(profile) => if profile.unicode_len() == 0 || same_text(profile, "default") {
            None
        } else {
            Some(profile)
        },
        None => None,
    }
}

fn under_profile(root: &str, profile: Option<&str>) -> (path: String)
    ensures
        path@ == of_profile(root@, given(profile)),
{
    match profile {
        Some(profile) => join(join(root, "profiles").as_str(), profile),
        None => root.to_owned(),
    }
}

/// Where the plugin host may keep its configuration, as the environment says.
pub fn omp_config_roots(home: &str, env: &OmpEnvironment, current: Option<&str>) -> (roots: Result<
    OmpRoots,
    ProviderInstallError,
>)
    ensures
        match omp_own_root(home@, *env, given(current)) {
            Err(error) => roots matches Err(given) && given == error,
            Ok(root) => match omp_data_root(*env, given(current)) {
                Err(error) => roots matches Err(given) && given == error,
                Ok(data) => roots matches Ok(roots) && roots.root@ == root
                    && crate::text::opt_text(roots.data) == data,
            },
        },
{
    let name = match env.config_dir {
        EnvValue::Unset => ".omp",
        EnvValue::Opaque => {
            return Err(ProviderInstallError::Permission);
        },
        EnvValue::Text(name) => name,
    };
    if is_absolute(name) {
        return Err(ProviderInstallError::Permission);
    }
    let below = join(home, name);
    let whole = match absolute_path(Some(below.as_str()), current) {
        Ok(whole) => whole,
        Err(error) => {
            return Err(error);
        },
    };
    let profile = profile_of(env);
    if let Some(profile) = profile {
        if !is_profile(profile) {
            return Err(ProviderInstallError::Permission);
        }
    }
    let root = under_profile(whole.as_str(), profile);
    let unset = match env.data_home {
        EnvValue::Unset => true,
        _ => false,
    };
    if (!env.agent_dir || profile.is_some()) && !unset {
        match environment_path(env.data_home, env.home, None, current) {
            Err(error) => Err(error),
            Ok(data) => {
                let below = join(data.as_str(), "omp");
                Ok(OmpRoots { root, data: Some(under_profile(below.as_str(), profile)) })
            },
        }
    } else {
        Ok(OmpRoots { root, data: None })
    }
}

impl OmpRoots {
    /// The directory that is used: that of data, where there is one and it is there.
    pub fn settle(self, there: bool) -> (root: String)
        ensures
            root == (match self.data {
                Some(data) => if there {
                    data
                } else {
                    self.root
                },
                None => self.root,
            }),
    {
        match self.data {
            Some(data) => if there {
                data
            } else {
                self.root
            },
            None => self.root,
        }
    }
}

/// The name of a provider's program.
pub open spec fn program_name(provider: OnboardingProvider) -> Seq<char> {
    match provider {
        OnboardingProvider::ClaudeCode => first_word("claude_code"@),
        OnboardingProvider::CodexCli => "codex"@,
        OnboardingProvider::Omp => "omp"@,
    }
}

fn program(provider: OnboardingProvider) -> (name: String)
    ensures
        name@ == program_name(provider),
{
    match provider {
        OnboardingProvider::ClaudeCode => word("claude_code"),
        OnboardingProvider::CodexCli => "codex".to_owned(),
        OnboardingProvider::Omp => "omp".to_owned(),
    }
}

/// Where a program would lie in a directory of the search path.
pub fn program_path(directory: &str, provider: OnboardingProvider) -> (path: String)
    ensures
        path@ == joined(directory@, program_name(provider)),
{
    let name = program(provider);
    join(directory, name.as_str())
}

/// What is known of a place where a program might be: nothing where there is nothing.
#[derive(Clone, Copy, Debug, PartialEq, Eq, Structural)]
pub struct ProgramFacts {
    pub there: bool,
    pub is_file: bool,
    pub mode: u32,
}

/// Whether there is a program.
pub open spec fn runnable(facts: ProgramFacts) -> bool {
    facts.there && facts.is_file && facts.mode & 0o111 != 0
}

/// The program that is run: the first of the places that has one.
pub fn choose_program(places: &Vec<ProgramFacts>, provider: OnboardingProvider) -> (place: Result<
    usize,
    ProviderInstallError,
>)
    ensures
        match place {
            Ok(place) => place < places@.len() && runnable(places@[place as int]) && forall|i: int|
                0 <= i < place ==> !runnable(#[trigger] places@[i]),
            Err(error) => error == ProviderInstallError::Requirement(provider) && forall|i: int|
                0 <= i < places@.len() ==> !runnable(#[trigger] places@[i]),
        },
{
    let mut i: usize = 0;
    while i < places.len()
        invariant
            i <= places@.len(),
            forall|j: int| 0 <= j < i ==> !runnable(#[trigger] places@[j]),
        decreases places.len() - i,
    {
        if places[i].there && places[i].is_file && places[i].mode & 0o111 != 0 {
            return Ok(i);
        }
        i += 1;
    }
    Err(ProviderInstallError::Requirement(provider))
}

/// The owner and the mode of a directory.
#[derive(Clone, Copy, Debug, PartialEq, Eq, Structural)]
pub struct DirFacts {
    pub uid: u32,
    pub mode: u32,
}

/// Whether a user may change a directory, as far as its owner and mode tell.
pub open spec fn own_writable(facts: DirFacts, uid: u32) -> bool {
    facts.uid == uid && facts.mode & 0o300 == 0o300
}

/// Whether a directory on the way may be gone through. `private` is whether it must be the
/// user's alone, `last` whether it is the one that is sought.
pub open spec fn passable(facts: DirFacts, uid: u32, private: bool, last: bool) -> bool {
    &&& facts.uid == uid || facts.uid == 0
    &&& facts.mode & 0o022 == 0 || (facts.uid == 0 && facts.mode & 0o1000 != 0 && !last)
    &&& private ==> facts.uid == uid && facts.mode & 0o777 == 0o700
}

fn is_passable(facts: &DirFacts, uid: u32, private: bool, last: bool) -> (yes: bool)
    ensures
        yes == passable(*facts, uid, private, last),
{
    let owned = facts.uid == uid;
    let temporary = facts.uid == 0 && facts.mode & 0o1000 != 0 && !last;
    !((!owned && facts.uid != 0) || (facts.mode & 0o022 != 0 && !temporary) || (private && (!owned
        || facts.mode & 0o777 != 0o700)))
}

/// What is to be done to open a directory, starting at the root.
#[derive(Clone, Copy, Debug, PartialEq, Eq, Structural)]
pub enum WalkPhase {
    /// The name at that place is to be opened.
    Open(usize),
    /// That name is missing: the directory it would be in is to be tried for writing.
    TryAccess(usize),
    /// It is to be made, for its owner alone.
    Make(usize),
    /// The directory it was made in is to be written onto the disk.
    SyncMade(usize),
    /// It is to be opened once it has been made.
    Reopen(usize),
    /// The directory that was sought is to be tried for writing.
    TryLast,
    Found,
    Absent,
    Failed(ProviderInstallError),
}

/// How that went.
#[derive(Clone, Copy, Debug, PartialEq, Eq, Structural)]
pub enum WalkEvent {
    Opened(DirFacts),
    Missing,
    Done,
    /// There is something of that name already.
    Exists,
    Failed,
    /// The facts of a directory could not be told.
    Untold,
}

/// A walk to a directory.
pub struct DirectoryWalk {
    pub phase: WalkPhase,
    pub names: Vec<String>,
    /// The names from which on directories must be the user's alone, if any must.
    pub private: Option<Vec<String>>,
    pub create: bool,
    pub writable: bool,
    pub uid: u32,
    /// The directory that is open.
    pub current: DirFacts,
}

/// Whether the directory that the name at a place leads to must be the user's alone: it is
/// the private root, or below it.
pub open spec fn must_be_private(walk: DirectoryWalk, place: int) -> bool {
    match walk.private {
        Some(root) => texts(root@).is_prefix_of(texts(walk.names@).take(place + 1)),
        None => false,
    }
}

/// What is to be done once the names before a place are open, the last of them so.
pub open spec fn walk_on(walk: DirectoryWalk, current: DirFacts, place: int) -> WalkPhase {
    if place < walk.names@.len() {
        WalkPhase::Open(place as usize)
    } else if current.uid != walk.uid {
        WalkPhase::Failed(ProviderInstallError::Permission)
    } else if !walk.writable {
        WalkPhase::Found
    } else if own_writable(current, walk.uid) {
        WalkPhase::TryLast
    } else {
        WalkPhase::Failed(ProviderInstallError::Permission)
    }
}

/// What is to be done once a name has been opened.
pub open spec fn walk_entered(walk: DirectoryWalk, facts: DirFacts, place: int) -> WalkPhase {
    if passable(facts, walk.uid, must_be_private(walk, place), place + 1 == walk.names@.len()) {
        walk_on(walk, facts, place + 1)
    } else {
        WalkPhase::Failed(ProviderInstallError::Permission)
    }
}

/// What is to be done once something has been.
pub open spec fn walk_next(walk: DirectoryWalk, event: WalkEvent) -> WalkPhase {
    match (walk.phase, event) {
        (WalkPhase::Found, _) => walk.phase,
        (WalkPhase::Absent, _) => walk.phase,
        (WalkPhase::Failed(_), _) => walk.phase,
        (_, WalkEvent::Untold) => WalkPhase::Failed(ProviderInstallError::Io),
        (WalkPhase::Open(place), WalkEvent::Opened(facts)) => walk_entered(walk, facts, place as int),
        (WalkPhase::Open(place), WalkEvent::Missing) => if own_writable(walk.current, walk.uid) {
            WalkPhase::TryAccess(place)
        } else {
            WalkPhase::Failed(ProviderInstallError::Permission)
        },
        (WalkPhase::TryAccess(place), WalkEvent::Done) => if walk.create {
            WalkPhase::Make(place)
        } else {
            WalkPhase::Absent
        },
        (WalkPhase::Make(place), WalkEvent::Done) => WalkPhase::SyncMade(place),
        (WalkPhase::Make(_), WalkEvent::Exists) => WalkPhase::Failed(ProviderInstallError::Conflict),
        (WalkPhase::SyncMade(place), WalkEvent::Done) => WalkPhase::Reopen(place),
        (WalkPhase::SyncMade(_), WalkEvent::Failed) => WalkPhase::Failed(ProviderInstallError::Io),
        (WalkPhase::Reopen(place), WalkEvent::Opened(facts)) => walk_entered(
            walk,
            facts,
            place as int,
        ),
        (WalkPhase::TryLast, WalkEvent::Done) => WalkPhase::Found,
        (_, WalkEvent::Failed) => WalkPhase::Failed(ProviderInstallError::Permission),
        (WalkPhase::Reopen(_), WalkEvent::Missing) => WalkPhase::Failed(
            ProviderInstallError::Permission,
        ),
        _ => walk.phase,
    }
}

impl DirectoryWalk {
    /// The places of the names stay within the names.
    pub open spec fn wf(self) -> bool {
        match self.phase {
            WalkPhase::Open(place) => place < self.names@.len(),
            WalkPhase::TryAccess(place) => place < self.names@.len(),
            WalkPhase::Make(place) => place < self.names@.len(),
            WalkPhase::SyncMade(place) => place < self.names@.len(),
            WalkPhase::Reopen(place) => place < self.names@.len(),
            _ => true,
        }
    }

    /// A walk to a directory begins. `root` is what is known of the root of the host, and
    /// `private_root` the directory from which on others may have no access.
    pub fn begin(
        path: &str,
        private_root: Option<&str>,
        create: bool,
        writable: bool,
        uid: u32,
        root: DirFacts,
    ) -> (walk: DirectoryWalk)
        ensures
            walk.wf(),
            texts(walk.names@) == path_names(path@),
            match private_root {
                Some(private) => if absolute(private@) {
                    walk.private is Some && texts(walk.private->0@) == path_names(private@)
                } else {
                    walk.private is None
                },
                None => walk.private is None,
            },
            walk.create == create,
            walk.writable == writable,
            walk.uid == uid,
            walk.current == root,
            walk.phase == walk_on(walk, root, 0),
    {
        let names = components(path);
        let private = match private_root {
            Some(private) => if is_absolute(private) {
                Some(components(private))
            } else {
                None
            },
            None => None,
        };
        let mut walk = DirectoryWalk {
            phase: WalkPhase::Absent,
            names,
            private,
            create,
            writable,
            uid,
            current: root,
        };
        walk.phase = walk.on(&root, 0);
        walk
    }

    fn on(&self, current: &DirFacts, place: usize) -> (phase: WalkPhase)
        ensures
            phase == walk_on(*self, *current, place as int),
    {
        if place < self.names.len() {
            WalkPhase::Open(place)
        } else if current.uid != self.uid {
            WalkPhase::Failed(ProviderInstallError::Permission)
        } else if !self.writable {
            WalkPhase::Found
        } else if current.uid == self.uid && current.mode & 0o300 == 0o300 {
            WalkPhase::TryLast
        } else {
            WalkPhase::Failed(ProviderInstallError::Permission)
        }
    }

    fn is_private(&self, place: usize) -> (yes: bool)
        requires
            place < self.names@.len(),
        ensures
            yes == must_be_private(*self, place as int),
    {
        match &self.private {
            None => false,
            Some(root) => {
                let ghost reached = texts(self.names@).take(place + 1);
                let count: usize = self.names.len();
                if root.len() > count || root.len() > place + 1 {
                    assert(texts(root@).len() > reached.len());
                    return false;
                }
                let mut i: usize = 0;
                while i < root.len()
                    invariant
                        i <= root@.len() <= place + 1 <= self.names@.len(),
                        self.private == Some(*root),
                        reached == texts(self.names@).take(place + 1),
                        forall|j: int| 0 <= j < i ==> #[trigger] texts(root@)[j] == reached[j],
                    decreases root.len() - i,
                {
                    if !same_text(root[i].as_str(), self.names[i].as_str()) {
                        assert(texts(root@)[i as int] != reached[i as int]);
                        assert(!texts(root@).is_prefix_of(reached));
                        return false;
                    }
                    assert(texts(root@)[i as int] == reached[i as int]);
                    i += 1;
                }
                assert(texts(root@) =~= reached.subrange(0, texts(root@).len() as int));
                true
            },
        }
    }

    fn entered(&self, facts: &DirFacts, place: usize) -> (phase: WalkPhase)
        requires
            place < self.names@.len(),
        ensures
            phase == walk_entered(*self, *facts, place as int),
    {
        let count: usize = self.names.len();
        if is_passable(facts, self.uid, self.is_private(place), place + 1 == count) {
            self.on(facts, place + 1)
        } else {
            WalkPhase::Failed(ProviderInstallError::Permission)
        }
    }

    /// Something was done.
    pub fn step(&mut self, event: WalkEvent)
        requires
            old(self).wf(),
        ensures
            final(self).wf(),
            *final(self) == (DirectoryWalk {
                phase: walk_next(*old(self), event),
                current: match (old(self).phase, event) {
                    (WalkPhase::Open(_), WalkEvent::Opened(facts)) => facts,
                    (WalkPhase::Reopen(_), WalkEvent::Opened(facts)) => facts,
                    _ => old(self).current,
                },
                ..*old(self)
            }),
    {
        match (self.phase, event) {
            (WalkPhase::Found, _) => {},
            (WalkPhase::Absent, _) => {},
            (WalkPhase::Failed(_), _) => {},
            (_, WalkEvent::Untold) => {
                self.phase = WalkPhase::Failed(ProviderInstallError::Io);
            },
            (WalkPhase::Open(place), WalkEvent::Opened(facts)) => {
                self.phase = self.entered(&facts, place);
                self.current = facts;
            },
            (WalkPhase::Open(place), WalkEvent::Missing) => {
                self.phase =
                if self.current.uid == self.uid && self.current.mode & 0o300 == 0o300 {
                    WalkPhase::TryAccess(place)
                } else {
                    WalkPhase::Failed(ProviderInstallError::Permission)
                };
            },
            (WalkPhase::TryAccess(place), WalkEvent::Done) => {
                self.phase =
                if self.create {
                    WalkPhase::Make(place)
                } else {
                    WalkPhase::Absent
                };
            },
            (WalkPhase::Make(place), WalkEvent::Done) => {
                self.phase = WalkPhase::SyncMade(place);
            },
            (WalkPhase::Make(_), WalkEvent::Exists) => {
                self.phase = WalkPhase::Failed(ProviderInstallError::Conflict);
            },
            (WalkPhase::SyncMade(place), WalkEvent::Done) => {
                self.phase = WalkPhase::Reopen(place);
            },
            (WalkPhase::SyncMade(_), WalkEvent::Failed) => {
                self.phase = WalkPhase::Failed(ProviderInstallError::Io);
            },
            (WalkPhase::Reopen(place), WalkEvent::Opened(facts)) => {
                self.phase = self.entered(&facts, place);
                self.current = facts;
            },
            (WalkPhase::TryLast, WalkEvent::Done) => {
                self.phase = WalkPhase::Found;
            },
            (_, WalkEvent::Failed) => {
                self.phase = WalkPhase::Failed(ProviderInstallError::Permission);
            },
            (WalkPhase::Reopen(_), WalkEvent::Missing) => {
                self.phase = WalkPhase::Failed(ProviderInstallError::Permission);
            },
            _ => {},
        }
    }
}

/// A directory that is found belongs to the user, and where it lies in the private root,
/// no one else may use it.
pub proof fn found_directories_are_own(walk: DirectoryWalk, facts: DirFacts, place: int)
    requires
        0 <= place < walk.names@.len(),
        walk_entered(walk, facts, place) is Found || walk_entered(walk, facts, place) is TryLast,
    ensures
        facts.uid == walk.uid,
        facts.mode & 0o022 == 0,
        must_be_private(walk, place) ==> facts.mode & 0o777 == 0o700,
{
}

/// A walk that must not make directories makes none.
pub proof fn walks_make_nothing_unasked(walk: DirectoryWalk, event: WalkEvent)
    requires
        !walk.create,
        !(walk.phase is Make) && !(walk.phase is SyncMade) && !(walk.phase is Reopen),
    ensures
        !(walk_next(walk, event) is Make) && !(walk_next(walk, event) is SyncMade) && !(walk_next(
            walk,
            event,
        ) is Reopen),
{
}

/// What is known of an open file.
#[derive(Clone, Copy, Debug, PartialEq, Eq, Structural)]
pub struct FileFacts {
    pub is_file: bool,
    pub uid: u32,
    pub links: u64,
    pub mode: u32,
}

/// Whether a file is the user's own: a plain one under one name that no one else may
/// change, and where it is private, not even read.
pub open spec fn own_file(facts: FileFacts, uid: u32, private: bool) -> bool {
    &&& facts.is_file
    &&& facts.uid == uid
    &&& facts.links == 1
    &&& facts.mode & 0o022 == 0
    &&& private ==> facts.mode & 0o777 == 0o600
}

pub fn valid_file(facts: &FileFacts, uid: u32, private: bool) -> (checked: Result<
    (),
    ProviderInstallError,
>)
    ensures
        checked == if own_file(*facts, uid, private) {
            Ok::<(), ProviderInstallError>(())
        } else {
            Err(ProviderInstallError::Permission)
        },
{
    if !facts.is_file || facts.uid != uid || facts.links != 1 || facts.mode & 0o022 != 0 || (private
        && facts.mode & 0o777 != 0o600) {
        return Err(ProviderInstallError::Permission);
    }
    Ok(())
}

/// Refuses a file that would have to be changed and cannot be. `accessible` is whether the
/// host lets the user write to it.
pub fn check_destination(facts: Option<&FileFacts>, accessible: bool) -> (checked: Result<
    (),
    ProviderInstallError,
>)
    ensures
        checked == (match facts {
            Some(facts) => if facts.mode & 0o200 == 0 || !accessible {
                Err::<(), ProviderInstallError>(ProviderInstallError::Permission)
            } else {
                Ok(())
            },
            None => Ok(()),
        }),
{
    match facts {
        Some(facts) => if facts.mode & 0o200 == 0 || !accessible {
            Err(ProviderInstallError::Permission)
        } else {
            Ok(())
        },
        None => Ok(()),
    }
}

/// Refuses a file of which too many bytes were read.
pub fn check_read(bytes: Vec<u8>) -> (read: Result<Vec<u8>, ProviderInstallError>)
    ensures
        read == if bytes@.len() > MAX_BYTES {
            Err::<Vec<u8>, ProviderInstallError>(ProviderInstallError::Conflict)
        } else {
            Ok(bytes)
        },
{
    if bytes.len() > MAX_BYTES {
        Err(ProviderInstallError::Conflict)
    } else {
        Ok(bytes)
    }
}

/// The length of a file, and when it and its record were last changed.
#[derive(Clone, Copy, Debug, PartialEq, Eq, Structural)]
pub struct FileStamp {
    pub len: u64,
    pub mtime: i64,
    pub mtime_nanos: i64,
    pub ctime: i64,
    pub ctime_nanos: i64,
}

/// The digest of a file of which these bytes were read, unless it changed while it was read.
pub fn steady_digest(before: &FileStamp, after: &FileStamp, bytes: &[u8]) -> (digest_of: Result<
    String,
    ProviderInstallError,
>)
    ensures
        match digest_of {
            Ok(text) => *before == *after && text@ == digest_text(bytes@) && sha256_text(text@),
            Err(error) => *before != *after && error == ProviderInstallError::Conflict,
        },
{
    if before.len != after.len || before.mtime != after.mtime || before.mtime_nanos
        != after.mtime_nanos || before.ctime != after.ctime || before.ctime_nanos
        != after.ctime_nanos {
        return Err(ProviderInstallError::Conflict);
    }
    Ok(digest(bytes))
}

/// What is to be done to put a file where there is none.
#[derive(Clone, Copy, Debug, PartialEq, Eq, Structural)]
pub enum PlacePhase {
    /// A new file is to be made, for its owner alone.
    Create,
    /// The bytes are to be written into it, and onto the disk.
    Write,
    /// It is to be given its name, unless there is something of that name.
    Rename,
    /// The directory is to be written onto the disk.
    Sync,
    /// The name it was made under is to be removed.
    Unlink(Option<ProviderInstallError>),
    Placed,
    Failed(ProviderInstallError),
}

/// How that went.
#[derive(Clone, Copy, Debug, PartialEq, Eq, Structural)]
pub enum PlaceEvent {
    Done,
    Exists,
    Failed,
}

/// What is to be done once something has been.
pub open spec fn place_next(phase: PlacePhase, event: PlaceEvent) -> PlacePhase {
    match (phase, event) {
        (PlacePhase::Create, PlaceEvent::Done) => PlacePhase::Write,
        (PlacePhase::Create, _) => PlacePhase::Failed(ProviderInstallError::Permission),
        (PlacePhase::Write, PlaceEvent::Done) => PlacePhase::Rename,
        (PlacePhase::Write, _) => PlacePhase::Unlink(Some(ProviderInstallError::Io)),
        (PlacePhase::Rename, PlaceEvent::Done) => PlacePhase::Sync,
        (PlacePhase::Rename, PlaceEvent::Exists) => PlacePhase::Unlink(
            Some(ProviderInstallError::Conflict),
        ),
        (PlacePhase::Rename, PlaceEvent::Failed) => PlacePhase::Unlink(
            Some(ProviderInstallError::Io),
        ),
        (PlacePhase::Sync, PlaceEvent::Done) => PlacePhase::Unlink(None),
        (PlacePhase::Sync, _) => PlacePhase::Unlink(Some(ProviderInstallError::Io)),
        (PlacePhase::Unlink(Some(error)), _) => PlacePhase::Failed(error),
        (PlacePhase::Unlink(None), _) => PlacePhase::Placed,
        _ => phase,
    }
}

impl PlacePhase {
    /// What is to be done once something has been.
    pub fn next(self, event: PlaceEvent) -> (next: PlacePhase)
        ensures
            next == place_next(self, event),
    {
        let done = match event {
            PlaceEvent::Done => true,
            _ => false,
        };
        match self {
            PlacePhase::Create => if done {
                PlacePhase::Write
            } else {
                PlacePhase::Failed(ProviderInstallError::Permission)
            },
            PlacePhase::Write => if done {
                PlacePhase::Rename
            } else {
                PlacePhase::Unlink(Some(ProviderInstallError::Io))
            },
            PlacePhase::Rename => match event {
                PlaceEvent::Done => PlacePhase::Sync,
                PlaceEvent::Exists => PlacePhase::Unlink(Some(ProviderInstallError::Conflict)),
                PlaceEvent::Failed => PlacePhase::Unlink(Some(ProviderInstallError::Io)),
            },
            PlacePhase::Sync => if done {
                PlacePhase::Unlink(None)
            } else {
                PlacePhase::Unlink(Some(ProviderInstallError::Io))
            },
            PlacePhase::Unlink(Some(error)) => PlacePhase::Failed(error),
            PlacePhase::Unlink(None) => PlacePhase::Placed,
            PlacePhase::Placed => self,
            PlacePhase::Failed(_) => self,
        }
    }
}

/// A file is placed only once it and its directory are on the disk, and nothing is left
/// behind under the other name: it is removed whatever happened since it was made.
pub proof fn placed_files_last(phase: PlacePhase, event: PlaceEvent)
    ensures
        place_next(phase, event) is Placed && !(phase is Placed) ==> phase == PlacePhase::Unlink(
            None,
        ),
        place_next(phase, event) == PlacePhase::Unlink(None) && phase != PlacePhase::Unlink(None)
            ==> phase is Sync && event is Done,
        place_next(phase, event) is Failed && !(phase is Failed) ==> phase is Create || phase
            is Unlink,
{
}

/// The name that a new file is made under.
pub fn temporary_file(id: Uuid) -> (name: String)
    ensures
        name@ == ".onboarding-"@ + hyphenated_text(id.value) + ".tmp"@,
{
    concat3(".onboarding-", id.to_text().as_str(), ".tmp")
}

} // verus!
