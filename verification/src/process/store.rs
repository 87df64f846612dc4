//! Where the record of a running router is kept, and when it may be read, written or
//! removed.

use vstd::prelude::*;

use crate::ids::{hyphenated_text, uuid_text, Uuid};
use crate::paths::{absolute, join, joined};
use crate::process::{
    private_directory, record_ok, validate_private_directory, FileFacts, RouterLaunchError,
    RuntimeRecord, LOCK_FILE_NAME, MAX_RUNTIME_RECORD_BYTES, RUNTIME_FILE_NAME,
};
use crate::text::concat3;

verus! {

/// The directory that holds the record of a running router.
#[derive(Debug)]
pub struct RuntimeStore {
    data_dir: String,
}

impl RuntimeStore {
    /// The directory of this store.
    pub closed spec fn directory(self) -> Seq<char> {
        self.data_dir@
    }

    /// The store in a private directory. `facts` is what is known of the directory,
    /// nothing where it cannot be looked at.
    pub fn new(data_dir: String, facts: Option<FileFacts>, uid: u32) -> (store: Result<
        RuntimeStore,
        RouterLaunchError,
    >)
        ensures
            match store {
                Ok(store) => store.directory() == data_dir@ && absolute(data_dir@) && (
                facts matches Some(known) && private_directory(known, uid)),
                Err(error) => error == RouterLaunchError::Permissions && !(absolute(data_dir@) && (
                facts matches Some(known) && private_directory(known, uid))),
            },
    {
        match validate_private_directory(data_dir.as_str(), facts, uid) {
            Ok(()) => Ok(RuntimeStore { data_dir }),
            Err(error) => Err(error),
        }
    }

    /// The file that holds the record.
    pub fn runtime_path(&self) -> (path: String)
        ensures
            path@ == joined(self.directory(), RUNTIME_FILE_NAME@),
    {
        join(self.data_dir.as_str(), RUNTIME_FILE_NAME)
    }

    /// The file that is locked while a router is started or stopped.
    pub fn lock_path(&self) -> (path: String)
        ensures
            path@ == joined(self.directory(), LOCK_FILE_NAME@),
    {
        join(self.data_dir.as_str(), LOCK_FILE_NAME)
    }

    /// The file that a record is written to before it takes its place.
    pub fn temporary_path(&self, id: Uuid) -> (path: String)
        ensures
            path@ == joined(
                self.directory(),
                ".asr-runtime-"@ + hyphenated_text(id.value) + ".tmp"@,
            ),
    {
        let name = concat3(".asr-runtime-", uuid_text(id).as_str(), ".tmp");
        join(self.data_dir.as_str(), name.as_str())
    }
}

/// The record of a file. `decoded` is what decoding the bytes gave, nothing where they do
/// not make a record.
pub fn accept_record(bytes: &[u8], decoded: Option<RuntimeRecord>) -> (record: Result<
    RuntimeRecord,
    RouterLaunchError,
>)
    ensures
        record == (if bytes@.len() > MAX_RUNTIME_RECORD_BYTES {
            Err::<RuntimeRecord, RouterLaunchError>(RouterLaunchError::RuntimeRecordTooLarge)
        } else {
            match decoded {
                Some(record) => if record_ok(record) {
                    Ok(record)
                } else {
                    Err(RouterLaunchError::InvalidRuntimeRecord)
                },
                None => Err(RouterLaunchError::InvalidRuntimeRecord),
            }
        }),
{
    if bytes.len() > MAX_RUNTIME_RECORD_BYTES {
        return Err(RouterLaunchError::RuntimeRecordTooLarge);
    }
    match decoded {
        Some(record) => match record.validate() {
            Ok(()) => Ok(record),
            Err(error) => Err(error),
        },
        None => Err(RouterLaunchError::InvalidRuntimeRecord),
    }
}

/// Refuses to write a record that may not be acted upon, or whose text is too large.
pub fn check_record_payload(record: &RuntimeRecord, payload: &[u8]) -> (verdict: Result<
    (),
    RouterLaunchError,
>)
    ensures
        verdict == (if !record_ok(*record) {
            Err::<(), RouterLaunchError>(RouterLaunchError::InvalidRuntimeRecord)
        } else if payload@.len() > MAX_RUNTIME_RECORD_BYTES {
            Err(RouterLaunchError::RuntimeRecordTooLarge)
        } else {
            Ok(())
        }),
{
    if let Err(error) = record.validate() {
        return Err(error);
    }
    if payload.len() > MAX_RUNTIME_RECORD_BYTES {
        return Err(RouterLaunchError::RuntimeRecordTooLarge);
    }
    Ok(())
}

/// Whether the recorded router is of the given instance, so that its record may be
/// removed.
pub fn may_remove(record: Option<&RuntimeRecord>, instance_id: Uuid) -> (yes: bool)
    ensures
        yes == (record matches Some(found) && found.instance_id == instance_id),
{
    match record {
        Some(found) => found.instance_id == instance_id,
        None => false,
    }
}

/// What came of the attempt to take the launcher's lock.
#[derive(Clone, Copy, Debug, PartialEq, Eq, Structural)]
pub enum LockAttempt {
    Taken,
    /// Another launcher holds it.
    Held,
    Failed,
}

/// Refuses to go on without the launcher's lock.
pub fn check_lock(attempt: LockAttempt) -> (verdict: Result<(), RouterLaunchError>)
    ensures
        verdict == (match attempt {
            LockAttempt::Taken => Ok::<(), RouterLaunchError>(()),
            LockAttempt::Held => Err(RouterLaunchError::RouterBusy),
            LockAttempt::Failed => Err(RouterLaunchError::Io),
        }),
{
    match attempt {
        LockAttempt::Taken => Ok(()),
        LockAttempt::Held => Err(RouterLaunchError::RouterBusy),
        LockAttempt::Failed => Err(RouterLaunchError::Io),
    }
}

/// Whether a lock that could not be taken is tried again: only where another launcher
/// holds it, and only before the deadline.
pub fn retry_lock(error: RouterLaunchError, now_ms: u64, expires_ms: u64) -> (again: bool)
    ensures
        again == (error == RouterLaunchError::RouterBusy && now_ms < expires_ms),
{
    matches!(error, RouterLaunchError::RouterBusy) && now_ms < expires_ms
}

} // verus!
