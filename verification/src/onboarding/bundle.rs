//! The distribution that an onboarding installs, and the receipt by which it is known
//! again: the digests of its program and of everything beside it.

use vstd::bytes::{spec_u32_to_le_bytes, spec_u64_to_le_bytes, u32_to_le_bytes, u64_to_le_bytes};
use vstd::prelude::*;

use crate::digest::{digest, digest_text, sha256_text};
use crate::onboarding::journal::{ActionRecord, ActionStatus, InstallAction, JournalState};
use crate::onboarding::{BootstrapArtifact, OnboardingTicket, VERSION};
use crate::paths::{
    absolute, components, goes_up, has_parent, is_absolute, is_same_path, join, joined, parent,
    parent_of, path_names, same_path,
};
use crate::text::{given, same_text, texts};

verus! {

pub const BUNDLE_RECORD: &'static str = "bundle.json";

/// The most bytes and entries that a distribution may have, and how deep it may go.
pub const MAX_BUNDLE_BYTES: u64 = 2_147_483_648;

pub const MAX_BUNDLE_ENTRIES: usize = 100_000;

pub const MAX_BUNDLE_DEPTH: usize = 128;

/// The most bytes that a receipt may have.
pub const MAX_RECEIPT_BYTES: usize = 4_096;

/// A distribution, or its receipt, is missing, unsafe or changed.
#[derive(Clone, Copy, Debug, PartialEq, Eq, Structural)]
pub struct BundleConflict;

/// What is known of something in a distribution.
#[derive(Clone, Copy, Debug, PartialEq, Eq, Structural)]
pub struct EntryFacts {
    pub uid: u32,
    pub mode: u32,
    pub is_file: bool,
    pub is_dir: bool,
    pub links: u64,
}

/// Whether something is the user's, and no one else may change it.
pub open spec fn own_entry(facts: EntryFacts, uid: u32) -> bool {
    facts.uid == uid && facts.mode & 0o6022 == 0
}

/// Whether something is a file of the user's own, under one name.
pub open spec fn own_file(facts: EntryFacts, uid: u32) -> bool {
    own_entry(facts, uid) && facts.is_file && facts.links == 1
}

pub fn check_owner(facts: &EntryFacts, uid: u32) -> (checked: Result<(), BundleConflict>)
    ensures
        checked == if own_entry(*facts, uid) {
            Ok::<(), BundleConflict>(())
        } else {
            Err(BundleConflict)
        },
{
    if facts.uid != uid || facts.mode & 0o6022 != 0 {
        return Err(BundleConflict);
    }
    Ok(())
}

/// Refuses a file that is not its owner's alone, or that has another name.
pub fn check_file(facts: &EntryFacts, uid: u32) -> (checked: Result<(), BundleConflict>)
    ensures
        checked == if own_file(*facts, uid) {
            Ok::<(), BundleConflict>(())
        } else {
            Err(BundleConflict)
        },
{
    if let Err(conflict) = check_owner(facts, uid) {
        return Err(conflict);
    }
    if !facts.is_file || facts.links != 1 {
        return Err(BundleConflict);
    }
    Ok(())
}

/// Refuses a program that is no such file, or that nobody may run.
pub fn check_program(facts: &EntryFacts, uid: u32) -> (checked: Result<(), BundleConflict>)
    ensures
        checked == if own_file(*facts, uid) && facts.mode & 0o111 != 0 {
            Ok::<(), BundleConflict>(())
        } else {
            Err(BundleConflict)
        },
{
    if let Err(conflict) = check_file(facts, uid) {
        return Err(conflict);
    }
    if facts.mode & 0o111 == 0 {
        return Err(BundleConflict);
    }
    Ok(())
}

/// Refuses a directory on the way to a distribution that others could change. One that
/// only its owner may take things out of is enough where it is the host's.
pub fn check_traversed(facts: &EntryFacts, uid: u32) -> (checked: Result<(), BundleConflict>)
    ensures
        checked == if (facts.uid == 0 || facts.uid == uid) && (facts.mode & 0o022 == 0 || (facts.uid
            == 0 && facts.mode & 0o1000 != 0)) {
            Ok::<(), BundleConflict>(())
        } else {
            Err(BundleConflict)
        },
{
    let owner = facts.uid;
    if (owner != 0 && owner != uid) || (facts.mode & 0o022 != 0 && !(owner == 0 && facts.mode
        & 0o1000 != 0)) {
        return Err(BundleConflict);
    }
    Ok(())
}

/// The names on the way to a directory, from the root.
pub fn directory_names(path: &str) -> (names: Result<Vec<String>, BundleConflict>)
    ensures
        if absolute(path@) && !goes_up(path@) {
            names matches Ok(names) && texts(names@) == path_names(path@)
        } else {
            names is Err
        },
{
    if !is_absolute(path) || has_parent(path) {
        return Err(BundleConflict);
    }
    Ok(components(path))
}

/// Refuses a private file that others could read, or that is too long. `read` is how many
/// bytes of it were read.
pub fn check_private(
    file: &EntryFacts,
    directory: &EntryFacts,
    uid: u32,
    length: u64,
    read: usize,
    cap: usize,
) -> (checked: Result<(), BundleConflict>)
    ensures
        checked == if own_file(*file, uid) && file.mode & 0o077 == 0 && directory.mode & 0o077 == 0
            && length <= cap && read <= cap {
            Ok::<(), BundleConflict>(())
        } else {
            Err(BundleConflict)
        },
{
    if let Err(conflict) = check_file(file, uid) {
        return Err(conflict);
    }
    if file.mode & 0o077 != 0 || directory.mode & 0o077 != 0 || length > cap as u64 {
        return Err(BundleConflict);
    }
    if read > cap {
        return Err(BundleConflict);
    }
    Ok(())
}

/// Where a distribution lies: its program, and what is integrated with providers.
pub struct InstalledBundle {
    pub executable: String,
    pub integrations_dir: String,
}

/// Whether a program lies where the distribution of a manifest has it.
pub open spec fn bundle_layout(executable: Seq<char>, manifest: Seq<char>) -> bool {
    let names = path_names(executable);
    let n = names.len();
    &&& n >= 4
    &&& names[n - 1] == "asr"@
    &&& names[n - 2] == "bin"@
    &&& names[n - 3] == manifest
    &&& names[n - 4] == "versions"@
}

/// Where the distribution of a journal lies. `integrations_dir` is the directory that
/// belongs to its program, if there is one.
pub fn bundle_paths(state: &JournalState, integrations_dir: Option<String>) -> (bundle: Result<
    InstalledBundle,
    BundleConflict,
>)
    ensures
        if bundle_layout(state.executable@, state.manifest_sha256@) && integrations_dir is Some {
            bundle matches Ok(bundle) && bundle.executable@ == state.executable@
                && Some(bundle.integrations_dir) == integrations_dir
        } else {
            bundle is Err
        },
{
    let names = components(state.executable.as_str());
    let n: usize = names.len();
    assert(texts(names@).len() == n);
    if n < 4 {
        return Err(BundleConflict);
    }
    assert(forall|i: int| 0 <= i < n ==> #[trigger] texts(names@)[i] == names@[i]@);
    if !same_text(names[n - 1].as_str(), "asr") || !same_text(names[n - 2].as_str(), "bin")
        || !same_text(names[n - 3].as_str(), state.manifest_sha256.as_str()) || !same_text(
        names[n - 4].as_str(),
        "versions",
    ) {
        return Err(BundleConflict);
    }
    match integrations_dir {
        Some(integrations_dir) => Ok(
            InstalledBundle {
                executable: state.executable.as_str().to_owned(),
                integrations_dir,
            },
        ),
        None => Err(BundleConflict),
    }
}

/// What a receipt says.
pub struct BundleRecord {
    pub version: u8,
    pub binary_sha256: String,
    pub integrations_sha256: String,
}

impl BundleRecord {
    /// Whether two receipts say the same.
    pub open spec fn same(self, other: BundleRecord) -> bool {
        &&& self.version == other.version
        &&& self.binary_sha256@ == other.binary_sha256@
        &&& self.integrations_sha256@ == other.integrations_sha256@
    }

    pub fn equals(&self, other: &BundleRecord) -> (same: bool)
        ensures
            same == self.same(*other),
    {
        self.version == other.version && same_text(
            self.binary_sha256.as_str(),
            other.binary_sha256.as_str(),
        ) && same_text(self.integrations_sha256.as_str(), other.integrations_sha256.as_str())
    }
}

/// Whether a string of bytes comes before another.
pub open spec fn before(a: Seq<u8>, b: Seq<u8>) -> bool
    decreases a.len(),
{
    if b.len() == 0 {
        false
    } else if a.len() == 0 {
        true
    } else if a[0] == b[0] {
        before(a.drop_first(), b.drop_first())
    } else {
        a[0] < b[0]
    }
}

fn is_before(a: &Vec<u8>, b: &Vec<u8>) -> (yes: bool)
    ensures
        yes == before(a@, b@),
{
    let mut i: usize = 0;
    assert(a@.skip(0) =~= a@);
    assert(b@.skip(0) =~= b@);
    loop
        invariant
            i <= a@.len(),
            i <= b@.len(),
            before(a@, b@) == before(a@.skip(i as int), b@.skip(i as int)),
        decreases a@.len() - i,
    {
        if i >= b.len() {
            return false;
        }
        if i >= a.len() {
            return true;
        }
        assert(a@.skip(i as int).drop_first() =~= a@.skip(i + 1));
        assert(b@.skip(i as int).drop_first() =~= b@.skip(i + 1));
        if a[i] != b[i] {
            return a[i] < b[i];
        }
        i += 1;
    }
}

/// The strings of a list.
pub open spec fn byte_names(list: Seq<Vec<u8>>) -> Seq<Seq<u8>> {
    Seq::new(list.len(), |i: int| list[i]@)
}

/// Whether a list is in order.
pub open spec fn in_order(list: Seq<Seq<u8>>) -> bool {
    forall|i: int, j: int| 0 <= i < j < list.len() ==> !before(#[trigger] list[j], #[trigger] list[i])
}

proof fn before_is_strict(a: Seq<u8>, b: Seq<u8>)
    requires
        before(a, b),
    ensures
        !before(b, a),
    decreases a.len(),
{
    if a.len() > 0 && b.len() > 0 && a[0] == b[0] {
        before_is_strict(a.drop_first(), b.drop_first());
    }
}

proof fn before_is_transitive(a: Seq<u8>, b: Seq<u8>, c: Seq<u8>)
    requires
        !before(b, a),
        !before(c, b),
    ensures
        !before(c, a),
    decreases a.len() + b.len() + c.len(),
{
    if a.len() > 0 && c.len() > 0 && b.len() > 0 {
        if a[0] == c[0] {
            if b[0] == a[0] {
                before_is_transitive(a.drop_first(), b.drop_first(), c.drop_first());
            }
        }
    }
}

/// Puts a name into its place among names in order.
fn insert_name(list: &mut Vec<Vec<u8>>, name: Vec<u8>)
    requires
        in_order(byte_names(old(list)@)),
    ensures
        in_order(byte_names(final(list)@)),
        byte_names(final(list)@).to_multiset() == byte_names(old(list)@).to_multiset().insert(
            name@,
        ),
        final(list)@.len() == old(list)@.len() + 1,
{
    let ghost all = byte_names(list@);
    let mut place: usize = list.len();
    while place > 0 && is_before(&name, &list[place - 1])
        invariant
            place <= list@.len(),
            list@ == old(list)@,
            all == byte_names(list@),
            forall|j: int| place <= j < list@.len() ==> before(name@, #[trigger] all[j]),
        decreases place,
    {
        assert(all[place - 1] == list@[place - 1]@);
        place -= 1;
    }
    let ghost given = name@;
    proof {
        if place > 0 {
            assert(all[place - 1] == list@[place - 1]@);
        }
    }
    list.insert(place, name);
    proof {
        let new = byte_names(list@);
        assert(new =~= all.insert(place as int, given));
        assert forall|i: int, j: int| 0 <= i < j < new.len() implies !before(
            #[trigger] new[j],
            #[trigger] new[i],
        ) by {
            let a = if i < place {
                all[i]
            } else if i == place {
                given
            } else {
                all[i - 1]
            };
            let b = if j < place {
                all[j]
            } else if j == place {
                given
            } else {
                all[j - 1]
            };
            assert(new[i] == a && new[j] == b);
            if i == place {
                before_is_strict(given, b);
            } else if j == place {
                if i < place - 1 {
                    assert(!before(all[place - 1], all[i]));
                    before_is_transitive(all[i], all[place - 1], given);
                }
            } else if i < place && j > place {
                assert(!before(all[j - 1], all[i]));
            } else if i > place {
                assert(!before(all[j - 1], all[i - 1]));
            }
        }
        insert_multiset(all, place as int, given);
    }
}

proof fn insert_multiset(s: Seq<Seq<u8>>, place: int, x: Seq<u8>)
    requires
        0 <= place <= s.len(),
    ensures
        s.insert(place, x).to_multiset() == s.to_multiset().insert(x),
{
    broadcast use vstd::seq_lib::group_to_multiset_ensures;

    let head = s.take(place);
    let tail = s.skip(place);
    assert(s =~= head + tail);
    assert(s.insert(place, x) =~= head.push(x) + tail);
    vstd::seq_lib::lemma_multiset_commutative(head, tail);
    vstd::seq_lib::lemma_multiset_commutative(head.push(x), tail);
    assert(head.push(x).to_multiset() =~= head.to_multiset().insert(x));
    assert((head.push(x) + tail).to_multiset() =~= s.to_multiset().insert(x));
}

/// The names of a list in order.
pub fn sort_names(names: Vec<Vec<u8>>) -> (sorted: Vec<Vec<u8>>)
    ensures
        in_order(byte_names(sorted@)),
        byte_names(sorted@).to_multiset() == byte_names(names@).to_multiset(),
        sorted@.len() == names@.len(),
{
    let ghost all = names@;
    let mut sorted: Vec<Vec<u8>> = Vec::new();
    proof {
        assert(byte_names(all.take(0)) =~= byte_names(sorted@));
    }
    for name in iter: names.into_iter()
        invariant
            iter.seq() == all,
            in_order(byte_names(sorted@)),
            sorted@.len() == iter.index(),
            byte_names(sorted@).to_multiset() == byte_names(
                all.take(iter.index() as int),
            ).to_multiset(),
    {
        let ghost i = iter.index() as int;
        proof {
            broadcast use vstd::seq_lib::group_to_multiset_ensures;

            assert(byte_names(all.take(i + 1)) =~= byte_names(all.take(i)).push(all[i]@));
        }
        insert_name(&mut sorted, name);
    }
    assert(all.take(all.len() as int) =~= all);
    sorted
}

/// What is left of the bounds of a distribution.
pub struct BundleBudget {
    pub bytes: u64,
    pub entries: usize,
}

impl BundleBudget {
    pub open spec fn wf(self) -> bool {
        self.bytes <= MAX_BUNDLE_BYTES && self.entries <= MAX_BUNDLE_ENTRIES
    }

    pub fn new() -> (budget: BundleBudget)
        ensures
            budget.wf(),
            budget.bytes == MAX_BUNDLE_BYTES,
            budget.entries == 0,
    {
        BundleBudget { bytes: MAX_BUNDLE_BYTES, entries: 0 }
    }

    /// The names of a directory at a depth, in order, where they are within the bounds.
    pub fn list(&mut self, depth: usize, names: Vec<Vec<u8>>) -> (sorted: Result<
        Vec<Vec<u8>>,
        BundleConflict,
    >)
        requires
            old(self).wf(),
        ensures
            final(self).wf(),
            final(self).bytes == old(self).bytes,
            if depth <= MAX_BUNDLE_DEPTH && old(self).entries + names@.len() <= MAX_BUNDLE_ENTRIES {
                &&& sorted matches Ok(sorted)
                &&& in_order(byte_names(sorted@))
                &&& byte_names(sorted@).to_multiset() == byte_names(names@).to_multiset()
                &&& final(self).entries == old(self).entries + names@.len()
            } else {
                sorted is Err && final(self).entries == old(self).entries
            },
    {
        if depth > MAX_BUNDLE_DEPTH || names.len() > MAX_BUNDLE_ENTRIES - self.entries {
            return Err(BundleConflict);
        }
        self.entries += names.len();
        Ok(sort_names(names))
    }

    /// A file of a length is to be read.
    pub fn take_file(&mut self, length: u64) -> (taken: Result<(), BundleConflict>)
        requires
            old(self).wf(),
        ensures
            final(self).wf(),
            final(self).entries == old(self).entries,
            final(self).bytes == if length <= old(self).bytes {
                (old(self).bytes - length) as u64
            } else {
                old(self).bytes
            },
            taken is Ok == (length <= old(self).bytes),
    {
        if length > self.bytes {
            return Err(BundleConflict);
        }
        self.bytes -= length;
        Ok(())
    }
}

/// The digest of a file that was to have a length, of which these bytes were read: no fewer,
/// and no more where one more was asked for.
pub fn file_digest(length: u64, bytes: &[u8]) -> (digest_of: Result<String, BundleConflict>)
    ensures
        match digest_of {
            Ok(text) => bytes@.len() == length && text@ == digest_text(bytes@) && sha256_text(
                text@,
            ),
            Err(_) => bytes@.len() != length,
        },
{
    if bytes.len() as u64 != length {
        return Err(BundleConflict);
    }
    Ok(digest(bytes))
}

/// Something in a directory of a distribution.
pub struct TreeEntry {
    pub name: Vec<u8>,
    pub mode: u32,
    pub content: TreeContent,
}

pub enum TreeContent {
    /// A file, by its digest.
    File(String),
    Directory(Vec<TreeEntry>),
}

/// Something in a directory of a distribution, as a value.
pub enum Tree {
    File { name: Seq<u8>, mode: u32, digest: Seq<u8> },
    Directory { name: Seq<u8>, mode: u32, entries: Seq<Tree> },
}

impl TreeEntry {
    /// This entry as a value. Of its mode only the permissions count.
    pub open spec fn tree(self) -> Tree
        decreases self,
    {
        match self.content {
            TreeContent::File(digest) => Tree::File {
                name: self.name@,
                mode: self.mode & 0o777,
                digest: vstd::utf8::encode_utf8(digest@),
            },
            TreeContent::Directory(entries) => Tree::Directory {
                name: self.name@,
                mode: self.mode & 0o777,
                entries: Seq::new(
                    entries@.len(),
                    |i: int|
                        if 0 <= i < entries@.len() {
                            entries@[i].tree()
                        } else {
                            arbitrary()
                        },
                ),
            },
        }
    }
}

/// The entries of a directory as values.
pub open spec fn trees(entries: Seq<TreeEntry>) -> Seq<Tree> {
    Seq::new(entries.len(), |i: int| entries[i].tree())
}

/// The message that stands for something in a directory: its name, behind its length, its
/// permissions, and what it is.
pub open spec fn entry_message(entry: Tree) -> Seq<u8>
    decreases entry, 0int, 0int,
{
    match entry {
        Tree::File { name, mode, digest } => spec_u64_to_le_bytes(name.len() as u64) + name
            + spec_u32_to_le_bytes(mode) + seq![102u8, 105, 108, 101] + digest,
        Tree::Directory { name, mode, entries } => spec_u64_to_le_bytes(name.len() as u64) + name
            + spec_u32_to_le_bytes(mode) + seq![100u8, 105, 114, 101, 99, 116, 111, 114, 121]
            + directory_message(entries),
    }
}

/// The messages of the entries of a directory from a place on.
pub open spec fn entries_message(entries: Seq<Tree>, from: int) -> Seq<u8>
    decreases entries, 1int, entries.len() - from,
{
    if from >= entries.len() || from < 0 {
        Seq::empty()
    } else {
        entry_message(entries[from]) + entries_message(entries, from + 1)
    }
}

/// The message that stands for a directory: those of its entries, behind their number.
pub open spec fn directory_message(entries: Seq<Tree>) -> Seq<u8>
    decreases entries, 2int, 0int,
{
    spec_u64_to_le_bytes(entries.len() as u64) + entries_message(entries, 0)
}

fn push_bytes(message: &mut Vec<u8>, bytes: &[u8])
    ensures
        final(message)@ == old(message)@ + bytes@,
{
    let mut i: usize = 0;
    assert(old(message)@ + bytes@.take(0) =~= message@);
    while i < bytes.len()
        invariant
            i <= bytes@.len(),
            message@ == old(message)@ + bytes@.take(i as int),
        decreases bytes.len() - i,
    {
        message.push(bytes[i]);
        assert(message@ =~= old(message)@ + bytes@.take(i + 1));
        i += 1;
    }
    assert(bytes@.take(i as int) =~= bytes@);
}

/// Writes the message of an entry behind another.
fn write_entry(message: &mut Vec<u8>, entry: &TreeEntry)
    ensures
        final(message)@ == old(message)@ + entry_message(entry.tree()),
    decreases entry, 0int, 0int,
{
    let ghost start = message@;
    push_bytes(message, u64_to_le_bytes(entry.name.len() as u64).as_slice());
    push_bytes(message, entry.name.as_slice());
    push_bytes(message, u32_to_le_bytes(entry.mode & 0o777).as_slice());
    match &entry.content {
        TreeContent::File(digest) => {
            push_bytes(message, &[102u8, 105, 108, 101]);
            push_bytes(message, digest.as_str().as_bytes());
            assert(message@ =~= start + entry_message(entry.tree()));
        },
        TreeContent::Directory(entries) => {
            push_bytes(message, &[100u8, 105, 114, 101, 99, 116, 111, 114, 121]);
            write_directory(message, entries);
            proof {
                assert(entry.tree()->entries =~= trees(entries@));
            }
            assert(message@ =~= start + entry_message(entry.tree()));
        },
    }
}

/// Writes the message of a directory behind another.
fn write_directory(message: &mut Vec<u8>, entries: &Vec<TreeEntry>)
    ensures
        final(message)@ == old(message)@ + directory_message(trees(entries@)),
    decreases entries, 1int, 0int,
{
    let ghost all = trees(entries@);
    let ghost start = message@;
    push_bytes(message, u64_to_le_bytes(entries.len() as u64).as_slice());
    let ghost head = message@;
    let mut i: usize = 0;
    let ghost whole = head + entries_message(all, 0);
    while i < entries.len()
        invariant
            i <= entries@.len(),
            all == trees(entries@),
            message@ + entries_message(all, i as int) == whole,
        decreases entries.len() - i,
    {
        let ghost before = message@;
        assert(decreases_to!(entries => entries@[i as int]));
        write_entry(message, &entries[i]);
        assert(all[i as int] == entries@[i as int].tree());
        assert(message@ + entries_message(all, i + 1) =~= before + entries_message(all, i as int));
        i += 1;
    }
    assert(message@ + entries_message(all, i as int) =~= message@);
    assert(message@ =~= start + directory_message(all));
}

/// The receipt of a distribution, from the digest of its program and what is integrated
/// with providers.
pub fn bundle_record(binary_sha256: String, integrations: &Vec<TreeEntry>) -> (record: BundleRecord)
    ensures
        record.version == VERSION,
        record.binary_sha256 == binary_sha256,
        record.integrations_sha256@ == digest_text(directory_message(trees(integrations@))),
{
    let mut message: Vec<u8> = Vec::new();
    write_directory(&mut message, integrations);
    assert(message@ =~= directory_message(trees(integrations@)));
    BundleRecord {
        version: VERSION,
        binary_sha256,
        integrations_sha256: digest(message.as_slice()),
    }
}

/// Whether an entry is one that a host can have: its digest has the length of one, and no
/// name and no directory is too long to be counted.
pub open spec fn proper(entry: Tree) -> bool
    decreases entry,
{
    match entry {
        Tree::File { name, digest, .. } => name.len() <= u64::MAX && digest.len() == 64,
        Tree::Directory { name, entries, .. } => name.len() <= u64::MAX && entries.len() <= u64::MAX
            && forall|i: int| 0 <= i < entries.len() ==> proper(#[trigger] entries[i]),
    }
}

proof fn split_alike(a: Seq<u8>, b: Seq<u8>, s: Seq<u8>, t: Seq<u8>)
    requires
        a.len() == b.len(),
        a + s == b + t,
    ensures
        a == b,
        s == t,
{
    assert((a + s).take(a.len() as int) =~= a);
    assert((b + t).take(b.len() as int) =~= b);
    assert((a + s).skip(a.len() as int) =~= s);
    assert((b + t).skip(b.len() as int) =~= t);
}

proof fn counts_alike(a: u64, b: u64, s: Seq<u8>, t: Seq<u8>)
    requires
        spec_u64_to_le_bytes(a) + s == spec_u64_to_le_bytes(b) + t,
    ensures
        a == b,
        s == t,
{
    vstd::bytes::lemma_auto_spec_u64_to_from_le_bytes();
    split_alike(spec_u64_to_le_bytes(a), spec_u64_to_le_bytes(b), s, t);
}

proof fn modes_alike(a: u32, b: u32, s: Seq<u8>, t: Seq<u8>)
    requires
        spec_u32_to_le_bytes(a) + s == spec_u32_to_le_bytes(b) + t,
    ensures
        a == b,
        s == t,
{
    vstd::bytes::lemma_auto_spec_u32_to_from_le_bytes();
    split_alike(spec_u32_to_le_bytes(a), spec_u32_to_le_bytes(b), s, t);
}

/// The name, the mode and what follows of an entry.
spec fn entry_name(entry: Tree) -> Seq<u8> {
    match entry {
        Tree::File { name, .. } => name,
        Tree::Directory { name, .. } => name,
    }
}

spec fn entry_mode(entry: Tree) -> u32 {
    match entry {
        Tree::File { mode, .. } => mode,
        Tree::Directory { mode, .. } => mode,
    }
}

spec fn entry_rest(entry: Tree) -> Seq<u8> {
    match entry {
        Tree::File { digest, .. } => seq![102u8, 105, 108, 101] + digest,
        Tree::Directory { entries, .. } => seq![100u8, 105, 114, 101, 99, 116, 111, 114, 121]
            + directory_message(entries),
    }
}

proof fn entry_parts(entry: Tree, s: Seq<u8>)
    ensures
        entry_message(entry) + s == spec_u64_to_le_bytes(entry_name(entry).len() as u64) + (
        entry_name(entry) + (spec_u32_to_le_bytes(entry_mode(entry)) + (entry_rest(entry) + s))),
{
    assert(entry_message(entry) + s =~= spec_u64_to_le_bytes(entry_name(entry).len() as u64) + (
    entry_name(entry) + (spec_u32_to_le_bytes(entry_mode(entry)) + (entry_rest(entry) + s))));
}

proof fn entries_alike(a: Tree, b: Tree, s: Seq<u8>, t: Seq<u8>)
    requires
        proper(a),
        proper(b),
        entry_message(a) + s == entry_message(b) + t,
    ensures
        a == b,
        s == t,
    decreases a, 0int, 0int,
{
    entry_parts(a, s);
    entry_parts(b, t);
    let (na, nb) = (entry_name(a), entry_name(b));
    let after_a = na + (spec_u32_to_le_bytes(entry_mode(a)) + (entry_rest(a) + s));
    let after_b = nb + (spec_u32_to_le_bytes(entry_mode(b)) + (entry_rest(b) + t));
    counts_alike(na.len() as u64, nb.len() as u64, after_a, after_b);
    split_alike(
        na,
        nb,
        spec_u32_to_le_bytes(entry_mode(a)) + (entry_rest(a) + s),
        spec_u32_to_le_bytes(entry_mode(b)) + (entry_rest(b) + t),
    );
    modes_alike(entry_mode(a), entry_mode(b), entry_rest(a) + s, entry_rest(b) + t);
    assert((entry_rest(a) + s)[0] == (entry_rest(b) + t)[0]);
    match (a, b) {
        (Tree::File { digest: da, .. }, Tree::File { digest: db, .. }) => {
            split_alike(entry_rest(a), entry_rest(b), s, t);
            assert(entry_rest(a).skip(4) =~= da);
            assert(entry_rest(b).skip(4) =~= db);
        },
        (Tree::Directory { entries: ea, .. }, Tree::Directory { entries: eb, .. }) => {
            let mark = seq![100u8, 105, 114, 101, 99, 116, 111, 114, 121];
            assert(entry_rest(a) + s =~= mark + (directory_message(ea) + s));
            assert(entry_rest(b) + t =~= mark + (directory_message(eb) + t));
            split_alike(mark, mark, directory_message(ea) + s, directory_message(eb) + t);
            directories_alike(ea, eb, s, t);
        },
        _ => {
            assert(false);
        },
    }
}

proof fn rows_alike(a: Seq<Tree>, b: Seq<Tree>, from: int, s: Seq<u8>, t: Seq<u8>)
    requires
        a.len() == b.len(),
        0 <= from <= a.len(),
        forall|i: int| 0 <= i < a.len() ==> proper(#[trigger] a[i]),
        forall|i: int| 0 <= i < b.len() ==> proper(#[trigger] b[i]),
        entries_message(a, from) + s == entries_message(b, from) + t,
    ensures
        forall|i: int| from <= i < a.len() ==> #[trigger] a[i] == b[i],
        s == t,
    decreases a, 1int, a.len() - from,
{
    if from < a.len() {
        assert(entries_message(a, from) + s =~= entry_message(a[from]) + (entries_message(
            a,
            from + 1,
        ) + s));
        assert(entries_message(b, from) + t =~= entry_message(b[from]) + (entries_message(
            b,
            from + 1,
        ) + t));
        entries_alike(
            a[from],
            b[from],
            entries_message(a, from + 1) + s,
            entries_message(b, from + 1) + t,
        );
        rows_alike(a, b, from + 1, s, t);
    } else {
        assert(entries_message(a, from) + s =~= s);
        assert(entries_message(b, from) + t =~= t);
    }
}

proof fn directories_alike(a: Seq<Tree>, b: Seq<Tree>, s: Seq<u8>, t: Seq<u8>)
    requires
        a.len() <= u64::MAX,
        b.len() <= u64::MAX,
        forall|i: int| 0 <= i < a.len() ==> proper(#[trigger] a[i]),
        forall|i: int| 0 <= i < b.len() ==> proper(#[trigger] b[i]),
        directory_message(a) + s == directory_message(b) + t,
    ensures
        a == b,
        s == t,
    decreases a, 2int, 0int,
{
    assert(directory_message(a) + s =~= spec_u64_to_le_bytes(a.len() as u64) + (entries_message(a, 0)
        + s));
    assert(directory_message(b) + t =~= spec_u64_to_le_bytes(b.len() as u64) + (entries_message(b, 0)
        + t));
    counts_alike(
        a.len() as u64,
        b.len() as u64,
        entries_message(a, 0) + s,
        entries_message(b, 0) + t,
    );
    rows_alike(a, b, 0, s, t);
    assert(a =~= b);
}

/// The message of a distribution tells it from every other: what is integrated with
/// providers under the same message is the same, name by name and file by file.
pub proof fn messages_tell_distributions_apart(a: Seq<Tree>, b: Seq<Tree>)
    requires
        a.len() <= u64::MAX,
        b.len() <= u64::MAX,
        forall|i: int| 0 <= i < a.len() ==> proper(#[trigger] a[i]),
        forall|i: int| 0 <= i < b.len() ==> proper(#[trigger] b[i]),
        directory_message(a) == directory_message(b),
    ensures
        a == b,
{
    let none = Seq::<u8>::empty();
    assert(directory_message(a) + none =~= directory_message(a));
    assert(directory_message(b) + none =~= directory_message(b));
    directories_alike(a, b, none, none);
}

/// Where the receipt of a journal lies: beside its credential.
pub open spec fn receipt_of(state: JournalState) -> Option<Seq<char>> {
    match parent_of(state.credential_file@) {
        Some(directory) => Some(joined(directory, BUNDLE_RECORD@)),
        None => None,
    }
}

pub fn receipt_path(state: &JournalState) -> (path: Option<String>)
    ensures
        crate::text::opt_text(path) == receipt_of(*state),
{
    match parent(state.credential_file.as_str()) {
        Some(directory) => Some(join(directory.as_str(), BUNDLE_RECORD)),
        None => None,
    }
}

/// Whether a record is of the action that writes a file, applied where it must be.
pub open spec fn writes(record: ActionRecord, path: Seq<char>, applied: bool) -> bool {
    &&& record.intent matches InstallAction::File { path: target, .. }
    &&& same_path(target@, path)
    &&& applied ==> record.status is Applied
}

/// The place of the first such record from a place on, the length where there is none.
pub open spec fn receipt_from(
    actions: Seq<ActionRecord>,
    path: Seq<char>,
    applied: bool,
    from: int,
) -> int
    decreases actions.len() - from,
{
    if from >= actions.len() {
        actions.len() as int
    } else if writes(actions[from], path, applied) {
        from
    } else {
        receipt_from(actions, path, applied, from + 1)
    }
}

/// The place of the first record of the action that writes a file, applied where it must
/// be, if there is one.
pub fn receipt_place(actions: &Vec<ActionRecord>, path: &str, applied: bool) -> (place: Option<
    usize,
>)
    ensures
        match place {
            Some(place) => place == receipt_from(actions@, path@, applied, 0) && place
                < actions@.len() && writes(actions@[place as int], path@, applied),
            None => receipt_from(actions@, path@, applied, 0) == actions@.len(),
        },
{
    let mut i: usize = 0;
    while i < actions.len()
        invariant
            i <= actions@.len(),
            receipt_from(actions@, path@, applied, 0) == receipt_from(
                actions@,
                path@,
                applied,
                i as int,
            ),
        decreases actions.len() - i,
    {
        let found = match &actions[i].intent {
            InstallAction::File { path: target, .. } => is_same_path(target.as_str(), path) && (
            !applied || actions[i].status == ActionStatus::Applied),
            InstallAction::Command { .. } => false,
        };
        if found {
            return Some(i);
        }
        i += 1;
    }
    None
}

/// Why a distribution that was just installed is not recorded.
#[derive(Clone, Copy, Debug, PartialEq, Eq, Structural)]
pub enum NewBundleFault {
    Conflict,
    /// There is no ticket any more.
    InvalidTicket,
    /// The target of the host is not known.
    UnknownTarget,
    UnsupportedTarget,
}

/// The place of the artifact for a target from a place on, the length where there is none.
pub open spec fn artifact_from(artifacts: Seq<BootstrapArtifact>, target: Seq<char>, from: int) -> int
    decreases artifacts.len() - from,
{
    if from >= artifacts.len() {
        artifacts.len() as int
    } else if artifacts[from].target@ == target {
        from
    } else {
        artifact_from(artifacts, target, from + 1)
    }
}

/// Why a distribution that was just installed is not recorded: it must lie where the
/// journal has it and be whole, and its program be the one that the ticket offers for the
/// target. The first that fails is told.
pub open spec fn new_bundle_fault(
    expected: InstalledBundle,
    bundle: InstalledBundle,
    record: Option<BundleRecord>,
    ticket: Option<OnboardingTicket>,
    target: Option<Seq<char>>,
) -> Option<NewBundleFault> {
    if !same_path(expected.executable@, bundle.executable@) || !same_path(
        expected.integrations_dir@,
        bundle.integrations_dir@,
    ) {
        Some(NewBundleFault::Conflict)
    } else {
        match (record, ticket, target) {
            (None, _, _) => Some(NewBundleFault::Conflict),
            (Some(_), None, _) => Some(NewBundleFault::InvalidTicket),
            (Some(_), Some(_), None) => Some(NewBundleFault::UnknownTarget),
            (Some(record), Some(ticket), Some(target)) => {
                let place = artifact_from(ticket.artifacts@, target, 0);
                if place >= ticket.artifacts@.len() {
                    Some(NewBundleFault::UnsupportedTarget)
                } else if record.binary_sha256@ != ticket.artifacts@[place].binary_sha256@ {
                    Some(NewBundleFault::Conflict)
                } else {
                    None
                }
            },
        }
    }
}

/// Refuses a distribution that was just installed and is not the one that is meant. `record`
/// is what was found of it, `target` the target of the host.
pub fn check_new_bundle(
    expected: &InstalledBundle,
    bundle: &InstalledBundle,
    record: &Option<BundleRecord>,
    ticket: &Option<OnboardingTicket>,
    target: Option<&str>,
) -> (checked: Result<(), NewBundleFault>)
    ensures
        checked == (match new_bundle_fault(
            *expected,
            *bundle,
            *record,
            *ticket,
            given(target),
        ) {
            Some(fault) => Err::<(), NewBundleFault>(fault),
            None => Ok(()),
        }),
{
    if !is_same_path(expected.executable.as_str(), bundle.executable.as_str()) || !is_same_path(
        expected.integrations_dir.as_str(),
        bundle.integrations_dir.as_str(),
    ) {
        return Err(NewBundleFault::Conflict);
    }
    let record = match record {
        Some(record) => record,
        None => return Err(NewBundleFault::Conflict),
    };
    let artifacts = match ticket {
        Some(ticket) => &ticket.artifacts,
        None => return Err(NewBundleFault::InvalidTicket),
    };
    let target = match target {
        Some(target) => target,
        None => return Err(NewBundleFault::UnknownTarget),
    };
    match find_artifact(artifacts, target) {
        None => Err(NewBundleFault::UnsupportedTarget),
        Some(place) => if same_text(
            record.binary_sha256.as_str(),
            artifacts[place].binary_sha256.as_str(),
        ) {
            Ok(())
        } else {
            Err(NewBundleFault::Conflict)
        },
    }
}

fn find_artifact(artifacts: &Vec<BootstrapArtifact>, target: &str) -> (found: Option<usize>)
    ensures
        match found {
            Some(place) => place < artifacts@.len() && place == artifact_from(
                artifacts@,
                target@,
                0,
            ),
            None => artifact_from(artifacts@, target@, 0) == artifacts@.len(),
        },
{
    let mut i: usize = 0;
    while i < artifacts.len()
        invariant
            i <= artifacts@.len(),
            artifact_from(artifacts@, target@, 0) == artifact_from(artifacts@, target@, i as int),
        decreases artifacts.len() - i,
    {
        if same_text(artifacts[i].target.as_str(), target) {
            return Some(i);
        }
        i += 1;
    }
    None
}

/// The action that writes the receipt of a distribution.
pub fn receipt_action(path: &str, bytes: &[u8]) -> (action: InstallAction)
    ensures
        action matches InstallAction::File { path: target, sha256 } && target@ == path@ && sha256@
            == digest_text(bytes@),
{
    InstallAction::File { path: path.to_owned(), sha256: digest(bytes) }
}

/// What a journal says of a distribution that is there already.
#[derive(Clone, Copy, Debug, PartialEq, Eq, Structural)]
pub enum Reuse {
    /// No receipt was ever planned: the distribution must be installed.
    Nothing,
    /// The receipt was planned, at a place of the journal. `open` is whether it still has to
    /// be marked applied.
    Receipt { index: usize, open: bool },
}

/// Whether a distribution that is there can be used again. `bytes` is the receipt of what is
/// there now.
pub fn reuse_bundle(actions: &Vec<ActionRecord>, path: &str, bytes: &[u8]) -> (reuse: Result<
    Reuse,
    BundleConflict,
>)
    ensures
        ({
            let place = receipt_from(actions@, path@, false, 0);
            if place >= actions@.len() {
                reuse == Ok::<Reuse, BundleConflict>(Reuse::Nothing)
            } else if actions@[place].intent->sha256@ != digest_text(bytes@) {
                reuse is Err
            } else {
                reuse == Ok::<Reuse, BundleConflict>(
                    Reuse::Receipt {
                        index: place as usize,
                        open: !(actions@[place].status is Applied),
                    },
                )
            }
        }),
{
    match receipt_place(actions, path, false) {
        None => Ok(Reuse::Nothing),
        Some(index) => {
            let found = digest(bytes);
            let same = match &actions[index].intent {
                InstallAction::File { sha256, .. } => same_text(found.as_str(), sha256.as_str()),
                InstallAction::Command { .. } => false,
            };
            if !same {
                return Err(BundleConflict);
            }
            Ok(Reuse::Receipt { index, open: actions[index].status != ActionStatus::Applied })
        },
    }
}

/// Whether the receipt of a configured journal is the one that was applied, and says what is
/// there. `saved` is what its bytes decode to.
pub open spec fn bundle_verified(
    actions: Seq<ActionRecord>,
    path: Seq<char>,
    bytes: Seq<u8>,
    saved: Option<BundleRecord>,
    found: BundleRecord,
) -> bool {
    let place = receipt_from(actions, path, true, 0);
    &&& place < actions.len()
    &&& actions[place].intent->sha256@ == digest_text(bytes)
    &&& saved matches Some(saved) && saved.same(found)
}

pub fn verify_bundle(
    actions: &Vec<ActionRecord>,
    path: &str,
    bytes: &[u8],
    saved: &Option<BundleRecord>,
    found: &BundleRecord,
) -> (checked: Result<(), BundleConflict>)
    ensures
        checked is Ok == bundle_verified(actions@, path@, bytes@, *saved, *found),
{
    let index = match receipt_place(actions, path, true) {
        Some(index) => index,
        None => {
            return Err(BundleConflict);
        },
    };
    let read = digest(bytes);
    let same = match &actions[index].intent {
        InstallAction::File { sha256, .. } => same_text(read.as_str(), sha256.as_str()),
        InstallAction::Command { .. } => false,
    };
    if !same {
        return Err(BundleConflict);
    }
    match saved {
        Some(saved) => if saved.equals(found) {
            Ok(())
        } else {
            Err(BundleConflict)
        },
        None => Err(BundleConflict),
    }
}

/// What is to be done to put a receipt in its place.
#[derive(Clone, Copy, Debug, PartialEq, Eq, Structural)]
pub enum ReceiptPhase {
    /// It is to be looked for.
    Look,
    /// One is there: it is to be read.
    ReadThere,
    /// The directory is to be written onto the disk.
    SyncThere,
    /// A new file is to be made, for its owner alone.
    Create,
    /// The bytes are to be written into it, and onto the disk.
    Write,
    /// It is to be given its name, unless there is something of that name.
    Rename,
    /// The directory is to be written onto the disk.
    Sync,
    /// It is to be read back.
    ReadBack,
    /// The name it was made under is to be removed. The flag tells whether all went well.
    Unlink(bool),
    Published,
    Conflict,
}

/// How that went.
#[derive(Clone, Copy, Debug, PartialEq, Eq, Structural)]
pub enum ReceiptEvent {
    Done,
    Missing,
    /// What was read, whether it is the receipt.
    Read(bool),
    Failed,
}

/// What is to be done once something has been.
pub open spec fn receipt_next(phase: ReceiptPhase, event: ReceiptEvent) -> ReceiptPhase {
    match (phase, event) {
        (ReceiptPhase::Look, ReceiptEvent::Done) => ReceiptPhase::ReadThere,
        (ReceiptPhase::Look, ReceiptEvent::Missing) => ReceiptPhase::Create,
        (ReceiptPhase::ReadThere, ReceiptEvent::Read(true)) => ReceiptPhase::SyncThere,
        (ReceiptPhase::SyncThere, ReceiptEvent::Done) => ReceiptPhase::Published,
        (ReceiptPhase::Create, ReceiptEvent::Done) => ReceiptPhase::Write,
        (ReceiptPhase::Write, ReceiptEvent::Done) => ReceiptPhase::Rename,
        (ReceiptPhase::Write, _) => ReceiptPhase::Unlink(false),
        (ReceiptPhase::Rename, ReceiptEvent::Done) => ReceiptPhase::Sync,
        (ReceiptPhase::Rename, _) => ReceiptPhase::Unlink(false),
        (ReceiptPhase::Sync, ReceiptEvent::Done) => ReceiptPhase::ReadBack,
        (ReceiptPhase::Sync, _) => ReceiptPhase::Unlink(false),
        (ReceiptPhase::ReadBack, ReceiptEvent::Read(same)) => ReceiptPhase::Unlink(same),
        (ReceiptPhase::ReadBack, _) => ReceiptPhase::Unlink(false),
        (ReceiptPhase::Unlink(well), _) => if well {
            ReceiptPhase::Published
        } else {
            ReceiptPhase::Conflict
        },
        (ReceiptPhase::Published, _) => phase,
        _ => ReceiptPhase::Conflict,
    }
}

impl ReceiptPhase {
    /// What is to be done once something has been.
    pub fn next(self, event: ReceiptEvent) -> (next: ReceiptPhase)
        ensures
            next == receipt_next(self, event),
    {
        let done = match event {
            ReceiptEvent::Done => true,
            _ => false,
        };
        match self {
            ReceiptPhase::Look => match event {
                ReceiptEvent::Done => ReceiptPhase::ReadThere,
                ReceiptEvent::Missing => ReceiptPhase::Create,
                _ => ReceiptPhase::Conflict,
            },
            ReceiptPhase::ReadThere => match event {
                ReceiptEvent::Read(same) => if same {
                    ReceiptPhase::SyncThere
                } else {
                    ReceiptPhase::Conflict
                },
                _ => ReceiptPhase::Conflict,
            },
            ReceiptPhase::SyncThere => if done {
                ReceiptPhase::Published
            } else {
                ReceiptPhase::Conflict
            },
            ReceiptPhase::Create => if done {
                ReceiptPhase::Write
            } else {
                ReceiptPhase::Conflict
            },
            ReceiptPhase::Write => if done {
                ReceiptPhase::Rename
            } else {
                ReceiptPhase::Unlink(false)
            },
            ReceiptPhase::Rename => if done {
                ReceiptPhase::Sync
            } else {
                ReceiptPhase::Unlink(false)
            },
            ReceiptPhase::Sync => if done {
                ReceiptPhase::ReadBack
            } else {
                ReceiptPhase::Unlink(false)
            },
            ReceiptPhase::ReadBack => match event {
                ReceiptEvent::Read(same) => ReceiptPhase::Unlink(same),
                _ => ReceiptPhase::Unlink(false),
            },
            ReceiptPhase::Unlink(well) => if well {
                ReceiptPhase::Published
            } else {
                ReceiptPhase::Conflict
            },
            ReceiptPhase::Published => ReceiptPhase::Published,
            ReceiptPhase::Conflict => ReceiptPhase::Conflict,
        }
    }
}

/// A receipt counts only once it was read and is the one that was written, whether it was
/// there or was just put there.
pub proof fn receipts_are_read_back(phase: ReceiptPhase, event: ReceiptEvent)
    ensures
        receipt_next(phase, event) is Published && !(phase is Published) ==> phase is SyncThere
            || phase == ReceiptPhase::Unlink(true),
        receipt_next(phase, event) is SyncThere ==> event == ReceiptEvent::Read(true),
        receipt_next(phase, event) == ReceiptPhase::Unlink(true) ==> event == ReceiptEvent::Read(
            true,
        ),
{
}

} // verus!
