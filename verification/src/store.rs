//! The protocol around a stored document: where it lives, what a load or a
//! save that the host attempted amounts to, and whether a corrected document
//! has to be written back.

use vstd::prelude::*;
use crate::error::{DirAction, IoAction, StoreError, Subject};

verus! {

/// The file that holds the list of recently used files.
pub const RECENT_FILES_FILENAME: &'static str = "recent_files.json";

/// The file that holds the session.
pub const SESSION_FILENAME: &'static str = "session.json";

/// What the host found when it prepared the data directory.
#[derive(Debug)]
pub enum DirProbe {
    /// The host could not name the directory; the cause.
    Unknown(String),
    /// The directory exists.
    Present,
    /// The directory was missing and has been created, ancestors included.
    Created,
    /// The directory was missing and could not be created; the cause.
    CreateFailed(String),
}

/// Judges the preparation of the data directory: a document's path can be
/// formed exactly when the directory is there.
pub fn resolve_dir(probe: DirProbe) -> (ready: Result<(), StoreError>)
    ensures
        match probe {
            DirProbe::Unknown(cause) => ready == Err::<(), StoreError>(
                StoreError::Directory { step: DirAction::Locate, cause },
            ),
            DirProbe::CreateFailed(cause) => ready == Err::<(), StoreError>(
                StoreError::Directory { step: DirAction::Create, cause },
            ),
            DirProbe::Present | DirProbe::Created => ready == Ok::<(), StoreError>(()),
        },
{
    match probe {
        DirProbe::Unknown(cause) => Err(StoreError::Directory { step: DirAction::Locate, cause }),
        DirProbe::CreateFailed(cause) => Err(
            StoreError::Directory { step: DirAction::Create, cause },
        ),
        DirProbe::Present => Ok(()),
        DirProbe::Created => Ok(()),
    }
}

/// What the host found where a document is kept.
#[derive(Debug)]
pub enum Stored<T> {
    /// There is no file.
    Absent,
    /// The file could not be read; the cause.
    Unreadable(String),
    /// The file was read but is not a document; the cause.
    Malformed(String),
    /// The document in the file.
    Parsed(T),
}

/// What became of an attempt to write a document.
#[derive(Debug)]
pub enum Written {
    /// The file now holds the document.
    Done,
    /// The document could not be encoded; the cause.
    Unserializable(String),
    /// The file could not be written; the cause.
    Unwritable(String),
}

/// Judges a load: a missing file stands for `fallback`, a document that was
/// parsed is itself, and the two failures become errors about `subject`.
pub fn load_outcome<T>(subject: Subject, found: Stored<T>, fallback: T) -> (loaded: Result<
    T,
    StoreError,
>)
    ensures
        match found {
            Stored::Absent => loaded == Ok::<T, StoreError>(fallback),
            Stored::Parsed(document) => loaded == Ok::<T, StoreError>(document),
            Stored::Unreadable(cause) => loaded == Err::<T, StoreError>(
                StoreError::Io { action: IoAction::Read, subject, cause },
            ),
            Stored::Malformed(cause) => loaded == Err::<T, StoreError>(
                StoreError::Parse { subject, cause },
            ),
        },
{
    match found {
        Stored::Absent => Ok(fallback),
        Stored::Parsed(document) => Ok(document),
        Stored::Unreadable(cause) => Err(StoreError::Io { action: IoAction::Read, subject, cause }),
        Stored::Malformed(cause) => Err(StoreError::Parse { subject, cause }),
    }
}

/// Judges a save: done, or the error about `subject` that names the step
/// that failed.
pub fn save_outcome(subject: Subject, written: Written) -> (saved: Result<(), StoreError>)
    ensures
        match written {
            Written::Done => saved == Ok::<(), StoreError>(()),
            Written::Unserializable(cause) => saved == Err::<(), StoreError>(
                StoreError::Serialize { subject, cause },
            ),
            Written::Unwritable(cause) => saved == Err::<(), StoreError>(
                StoreError::Io { action: IoAction::Write, subject, cause },
            ),
        },
{
    match written {
        Written::Done => Ok(()),
        Written::Unserializable(cause) => Err(StoreError::Serialize { subject, cause }),
        Written::Unwritable(cause) => Err(
            StoreError::Io { action: IoAction::Write, subject, cause },
        ),
    }
}

/// Whether a document that was corrected while it was read must be written
/// back, and what a failure to do so means.
#[derive(Debug, Clone, Copy, PartialEq, Eq, Structural)]
pub enum Persist {
    /// Nothing changed: do not write.
    Skip,
    /// Write; a failure fails the whole read.
    Required,
    /// Write; a failure is ignored.
    BestEffort,
}

impl Persist {
    /// Whether the host should attempt the write at all.
    pub fn wanted(&self) -> (write: bool)
        ensures
            write == !(*self is Skip),
    {
        match self {
            Persist::Skip => false,
            Persist::Required => true,
            Persist::BestEffort => true,
        }
    }

    /// What the read reports once the write-back has been attempted with the
    /// given outcome: the outcome itself where the write was required, success
    /// in every other case.
    pub fn settle(self, outcome: Result<(), StoreError>) -> (report: Result<(), StoreError>)
        ensures
            self is Required ==> report == outcome,
            !(self is Required) ==> report == Ok::<(), StoreError>(()),
    {
        match self {
            Persist::Required => outcome,
            Persist::Skip => Ok(()),
            Persist::BestEffort => Ok(()),
        }
    }
}

} // verus!
