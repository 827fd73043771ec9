//! The failures that the backend reports, and the text of each.

use vstd::prelude::*;
use vstd::string::StringExecFns;

verus! {

/// What a failed operation was working on.
#[derive(Debug, Clone, Copy, PartialEq, Eq, Structural)]
pub enum Subject {
    /// A file that the user edits.
    File,
    /// The stored list of recently used files.
    RecentFiles,
    /// The stored session.
    Session,
}

/// The direction of a failed transfer.
#[derive(Debug, Clone, Copy, PartialEq, Eq, Structural)]
pub enum IoAction {
    Read,
    Write,
}

/// The step that failed while the data directory was prepared.
#[derive(Debug, Clone, Copy, PartialEq, Eq, Structural)]
pub enum DirAction {
    /// The host could not say where the directory is.
    Locate,
    /// The directory could not be created.
    Create,
}

/// Every failure the backend can report. `cause` is the underlying text.
#[derive(Debug, Clone, PartialEq, Eq)]
pub enum StoreError {
    Io { action: IoAction, subject: Subject, cause: String },
    Parse { subject: Subject, cause: String },
    Serialize { subject: Subject, cause: String },
    Directory { step: DirAction, cause: String },
    Path,
    NotFound,
}

/// The words for a subject.
pub open spec fn subject_text(subject: Subject) -> Seq<char> {
    match subject {
        Subject::File => "file"@,
        Subject::RecentFiles => "recent files"@,
        Subject::Session => "session"@,
    }
}

/// The verb for a transfer.
pub open spec fn io_action_text(action: IoAction) -> Seq<char> {
    match action {
        IoAction::Read => "read"@,
        IoAction::Write => "write"@,
    }
}

/// The verb for a directory step.
pub open spec fn dir_action_text(action: DirAction) -> Seq<char> {
    match action {
        DirAction::Locate => "get"@,
        DirAction::Create => "create"@,
    }
}

/// The message of an error: what failed, then the cause where there is one.
pub open spec fn message_text(error: StoreError) -> Seq<char> {
    match error {
        StoreError::Io { action, subject, cause } => "Failed to "@ + io_action_text(action) + " "@
            + subject_text(subject) + ": "@ + cause@,
        StoreError::Parse { subject, cause } => "Failed to parse "@ + subject_text(subject) + ": "@
            + cause@,
        StoreError::Serialize { subject, cause } => "Failed to serialize "@ + subject_text(subject)
            + ": "@ + cause@,
        StoreError::Directory { step, cause } => "Failed to "@ + dir_action_text(step)
            + " app data directory: "@ + cause@,
        StoreError::Path => "Failed to get directory"@,
        StoreError::NotFound => "File does not exist"@,
    }
}

fn subject_words(subject: Subject) -> (words: &'static str)
    ensures
        words@ == subject_text(subject),
{
    match subject {
        Subject::File => "file",
        Subject::RecentFiles => "recent files",
        Subject::Session => "session",
    }
}

fn io_action_words(action: IoAction) -> (words: &'static str)
    ensures
        words@ == io_action_text(action),
{
    match action {
        IoAction::Read => "read",
        IoAction::Write => "write",
    }
}

fn dir_action_words(action: DirAction) -> (words: &'static str)
    ensures
        words@ == dir_action_text(action),
{
    match action {
        DirAction::Locate => "get",
        DirAction::Create => "create",
    }
}

impl StoreError {
    /// The message to show for this error.
    pub fn message(&self) -> (text: String)
        ensures
            text@ == message_text(*self),
    {
        match self {
            StoreError::Io { action, subject, cause } => String::from_str("Failed to ").concat(
                io_action_words(*action),
            ).concat(" ").concat(subject_words(*subject)).concat(": ").concat(cause.as_str()),
            StoreError::Parse { subject, cause } => String::from_str("Failed to parse ").concat(
                subject_words(*subject),
            ).concat(": ").concat(cause.as_str()),
            StoreError::Serialize { subject, cause } => String::from_str(
                "Failed to serialize ",
            ).concat(subject_words(*subject)).concat(": ").concat(cause.as_str()),
            StoreError::Directory { step, cause } => String::from_str("Failed to ").concat(
                dir_action_words(*step),
            ).concat(" app data directory: ").concat(cause.as_str()),
            StoreError::Path => String::from_str("Failed to get directory"),
            StoreError::NotFound => String::from_str("File does not exist"),
        }
    }
}

} // verus!
