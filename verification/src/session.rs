//! The restorable session: the files that were open and the one in focus.

use vstd::prelude::*;
use crate::error::{IoAction, StoreError, Subject};
use crate::presence::{is_listed, path_set};
use crate::store::{load_outcome, save_outcome, Persist, Stored, Written};

verus! {

/// The persisted document. `active_file` is meant to be one of `open_files`;
/// nothing enforces it.
#[derive(Debug, PartialEq, Eq)]
pub struct SessionData {
    pub open_files: Vec<String>,
    pub active_file: Option<String>,
}

/// What a [`SessionData`] stands for in contracts.
pub struct SessionView {
    pub open_files: Seq<Seq<char>>,
    pub active_file: Option<Seq<char>>,
}

/// The characters of each string of a list.
pub open spec fn texts(paths: Seq<String>) -> Seq<Seq<char>> {
    paths.map_values(|p: String| p@)
}

impl View for SessionData {
    type V = SessionView;

    open spec fn view(&self) -> SessionView {
        SessionView {
            open_files: texts(self.open_files@),
            active_file: match self.active_file {
                Some(a) => Some(a@),
                None => None,
            },
        }
    }
}

/// Holds of the paths that are among `existing`.
pub open spec fn among(existing: Set<Seq<char>>) -> spec_fn(Seq<char>) -> bool {
    |p: Seq<char>| existing.contains(p)
}

/// The paths that are among `existing`, in their old order.
pub open spec fn present_paths(paths: Seq<Seq<char>>, existing: Set<Seq<char>>) -> Seq<
    Seq<char>,
> {
    paths.filter(among(existing))
}

/// The active file where it is among `existing`, none otherwise.
pub open spec fn present_active(active: Option<Seq<char>>, existing: Set<Seq<char>>) -> Option<
    Seq<char>,
> {
    match active {
        Some(a) => if existing.contains(a) {
            Some(a)
        } else {
            None
        },
        None => None,
    }
}

/// The session with everything that is not among `existing` taken out.
pub open spec fn restored(session: SessionView, existing: Set<Seq<char>>) -> SessionView {
    SessionView {
        open_files: present_paths(session.open_files, existing),
        active_file: present_active(session.active_file, existing),
    }
}

impl Default for SessionData {
    fn default() -> (data: Self)
        ensures
            data@.open_files == Seq::<Seq<char>>::empty(),
            data@.active_file is None,
    {
        let data = SessionData { open_files: Vec::new(), active_file: None };
        assert(data@.open_files =~= Seq::<Seq<char>>::empty());
        data
    }
}

impl Clone for SessionData {
    fn clone(&self) -> (copy: Self)
        ensures
            copy@ == self@,
    {
        let mut open_files: Vec<String> = Vec::new();
        let mut i: usize = 0;
        while i < self.open_files.len()
            invariant
                i <= self.open_files.len(),
                open_files.len() == i,
                forall|k: int| 0 <= k < i ==> (#[trigger] open_files@[k])@ == self.open_files@[k]@,
            decreases self.open_files.len() - i,
        {
            open_files.push(self.open_files[i].clone());
            i += 1;
        }
        let active_file = match &self.active_file {
            Some(a) => Some(a.clone()),
            None => None,
        };
        let copy = SessionData { open_files, active_file };
        assert(copy@.open_files =~= self@.open_files);
        copy
    }
}

impl SessionData {
    /// Drops every open file that is not among `existing` and says whether any
    /// was dropped.
    pub fn retain_existing(&mut self, existing: &Vec<String>) -> (removed: bool)
        ensures
            final(self)@.open_files == present_paths(old(self)@.open_files, path_set(existing@)),
            final(self).active_file == old(self).active_file,
            removed == (final(self)@.open_files.len() != old(self)@.open_files.len()),
    {
        let ghost before = self@.open_files;
        let ghost found = path_set(existing@);
        let ghost mut seen: int = 0;
        let len_before = self.open_files.len();
        let mut i: usize = 0;
        proof {
            reveal(Seq::filter);
            assert(before.take(0) =~= Seq::<Seq<char>>::empty());
            assert(self@.open_files =~= present_paths(before.take(0), found) + before.skip(0));
        }
        while i < self.open_files.len()
            invariant
                found == path_set(existing@),
                0 <= seen <= before.len(),
                i == present_paths(before.take(seen), found).len(),
                self@.open_files == present_paths(before.take(seen), found) + before.skip(seen),
                self.open_files.len() == self@.open_files.len(),
                self.active_file == old(self).active_file,
                len_before == before.len(),
            decreases before.len() - seen,
        {
            proof {
                reveal(Seq::filter);
                assert(self@.open_files[i as int] == before[seen]);
                assert(self@.open_files[i as int] == self.open_files@[i as int]@);
                assert(before.take(seen + 1).drop_last() =~= before.take(seen));
                assert(before.take(seen + 1).last() == before[seen]);
            }
            let keep = is_listed(existing, &self.open_files[i]);
            if keep {
                proof {
                    assert(self@.open_files =~= present_paths(before.take(seen + 1), found)
                        + before.skip(seen + 1));
                    seen = seen + 1;
                }
                i += 1;
            } else {
                let ghost prior = self@.open_files;
                self.open_files.remove(i);
                proof {
                    assert(self@.open_files =~= prior.remove(i as int));
                    assert(self@.open_files =~= present_paths(before.take(seen + 1), found)
                        + before.skip(seen + 1));
                    seen = seen + 1;
                }
            }
        }
        proof {
            assert(before.take(seen) =~= before);
            assert(self@.open_files =~= present_paths(before, found));
        }
        self.open_files.len() != len_before
    }

    /// Forgets the active file where it is not among `existing`.
    pub fn clear_missing_active(&mut self, existing: &Vec<String>)
        ensures
            final(self)@.active_file == present_active(
                old(self)@.active_file,
                path_set(existing@),
            ),
            final(self).open_files == old(self).open_files,
    {
        let missing = match &self.active_file {
            Some(active) => !is_listed(existing, active),
            None => false,
        };
        if missing {
            self.active_file = None;
        }
    }
}

/// Corrects the session on a read: open files that are not among `existing`
/// leave, and so does the active file. Where an open file left, the corrected
/// session should be written back; a failure to write is ignored. A change
/// of the active file alone asks for no write.
pub fn get_session(data: &mut SessionData, existing: &Vec<String>) -> (persist: Persist)
    ensures
        final(data)@ == restored(old(data)@, path_set(existing@)),
        persist == if final(data)@.open_files.len() != old(data)@.open_files.len() {
            Persist::BestEffort
        } else {
            Persist::Skip
        },
{
    let removed = data.retain_existing(existing);
    data.clear_missing_active(existing);
    if removed {
        Persist::BestEffort
    } else {
        Persist::Skip
    }
}

/// The session document that replaces the stored one.
pub fn save_session(open_files: Vec<String>, active_file: Option<String>) -> (data: SessionData)
    ensures
        data.open_files == open_files,
        data.active_file == active_file,
{
    SessionData { open_files, active_file }
}

/// Judges a load of the session: an empty session where there is no file yet.
pub fn load_session_data(found: Stored<SessionData>) -> (loaded: Result<SessionData, StoreError>)
    ensures
        match found {
            Stored::Absent => loaded is Ok && loaded->Ok_0@.open_files == Seq::<
                Seq<char>,
            >::empty() && loaded->Ok_0@.active_file is None,
            Stored::Parsed(document) => loaded == Ok::<SessionData, StoreError>(document),
            Stored::Unreadable(cause) => loaded == Err::<SessionData, StoreError>(
                StoreError::Io { action: IoAction::Read, subject: Subject::Session, cause },
            ),
            Stored::Malformed(cause) => loaded == Err::<SessionData, StoreError>(
                StoreError::Parse { subject: Subject::Session, cause },
            ),
        },
{
    load_outcome(Subject::Session, found, SessionData::default())
}

/// Judges a save of the session.
pub fn save_session_data(written: Written) -> (saved: Result<(), StoreError>)
    ensures
        match written {
            Written::Done => saved == Ok::<(), StoreError>(()),
            Written::Unserializable(cause) => saved == Err::<(), StoreError>(
                StoreError::Serialize { subject: Subject::Session, cause },
            ),
            Written::Unwritable(cause) => saved == Err::<(), StoreError>(
                StoreError::Io { action: IoAction::Write, subject: Subject::Session, cause },
            ),
        },
{
    save_outcome(Subject::Session, written)
}

} // verus!
