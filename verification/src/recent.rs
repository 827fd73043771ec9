//! The most-recently-used file list: newest first, one entry per path, at most
//! [`MAX_RECENT_FILES`] entries.

use vstd::prelude::*;
use crate::error::{IoAction, StoreError, Subject};
use crate::laws::{law_prune_keeps_well_formed, law_use_keeps_well_formed};
use crate::path::{display_name, name_of};
use crate::presence::{is_listed, path_set};
use crate::store::{load_outcome, save_outcome, Persist, Stored, Written};

verus! {

/// How many entries the list keeps.
pub const MAX_RECENT_FILES: usize = 10;

/// One recently used file.
#[derive(Debug, PartialEq, Eq)]
pub struct RecentFile {
    pub path: String,
    pub name: String,
    pub accessed_at: u64,
}

/// What a [`RecentFile`] stands for in contracts.
pub struct RecentEntry {
    pub path: Seq<char>,
    pub name: Seq<char>,
    pub accessed_at: u64,
}

impl View for RecentFile {
    type V = RecentEntry;

    open spec fn view(&self) -> RecentEntry {
        RecentEntry { path: self.path@, name: self.name@, accessed_at: self.accessed_at }
    }
}

impl Clone for RecentFile {
    fn clone(&self) -> (copy: Self)
        ensures
            copy@ == self@,
    {
        RecentFile {
            path: self.path.clone(),
            name: self.name.clone(),
            accessed_at: self.accessed_at,
        }
    }
}

/// The persisted document: the list itself.
#[derive(Debug, PartialEq, Eq)]
pub struct RecentFilesData {
    pub files: Vec<RecentFile>,
}

/// The entries of a vector of files, in order.
pub open spec fn entries(files: Seq<RecentFile>) -> Seq<RecentEntry> {
    files.map_values(|f: RecentFile| f@)
}

impl View for RecentFilesData {
    type V = Seq<RecentEntry>;

    open spec fn view(&self) -> Seq<RecentEntry> {
        entries(self.files@)
    }
}

/// Holds of the entries whose path is among `existing`.
pub open spec fn is_among(existing: Set<Seq<char>>) -> spec_fn(RecentEntry) -> bool {
    |e: RecentEntry| existing.contains(e.path)
}

/// Holds of the entries whose path is not among `existing`.
pub open spec fn is_missing(existing: Set<Seq<char>>) -> spec_fn(RecentEntry) -> bool {
    |e: RecentEntry| !existing.contains(e.path)
}

/// Holds of the entries whose path is not `path`.
pub open spec fn not_at(path: Seq<char>) -> spec_fn(RecentEntry) -> bool {
    |e: RecentEntry| e.path != path
}

/// The entries whose path is among `existing`, in their old order.
pub open spec fn present_only(list: Seq<RecentEntry>, existing: Set<Seq<char>>) -> Seq<
    RecentEntry,
> {
    list.filter(is_among(existing))
}

/// The entries whose path is not `path`, in their old order.
pub open spec fn without_path(list: Seq<RecentEntry>, path: Seq<char>) -> Seq<RecentEntry> {
    list.filter(not_at(path))
}

/// The list after `entry` was used: `entry` in front, any older entry for its
/// path gone, and no more than [`MAX_RECENT_FILES`] entries in all.
pub open spec fn with_front(list: Seq<RecentEntry>, entry: RecentEntry) -> Seq<RecentEntry> {
    let all = seq![entry] + without_path(list, entry.path);
    if all.len() > MAX_RECENT_FILES {
        all.take(MAX_RECENT_FILES as int)
    } else {
        all
    }
}

/// No two entries share a path.
pub open spec fn distinct_paths(list: Seq<RecentEntry>) -> bool {
    forall|i: int, j: int|
        0 <= i < j < list.len() ==> (#[trigger] list[i]).path != (#[trigger] list[j]).path
}

/// What the list promises between calls: bounded and one entry per path.
pub open spec fn well_formed(list: Seq<RecentEntry>) -> bool {
    list.len() <= MAX_RECENT_FILES && distinct_paths(list)
}

impl Default for RecentFilesData {
    fn default() -> (data: Self)
        ensures
            data@ == Seq::<RecentEntry>::empty(),
            well_formed(data@),
    {
        let data = RecentFilesData { files: Vec::new() };
        assert(data@ =~= Seq::<RecentEntry>::empty());
        data
    }
}

impl RecentFilesData {
    /// Drops every entry whose path is not among `existing` and says whether
    /// any was dropped.
    pub fn retain_existing(&mut self, existing: &Vec<String>) -> (removed: bool)
        ensures
            final(self)@ == present_only(old(self)@, path_set(existing@)),
            removed == (final(self)@.len() != old(self)@.len()),
            well_formed(old(self)@) ==> well_formed(final(self)@),
    {
        let ghost before = self@;
        let ghost found = path_set(existing@);
        let ghost mut seen: int = 0;
        let len_before = self.files.len();
        let mut i: usize = 0;
        proof {
            reveal(Seq::filter);
            assert(before.take(0) =~= Seq::<RecentEntry>::empty());
            assert(self@ =~= present_only(before.take(0), found) + before.skip(0));
        }
        while i < self.files.len()
            invariant
                found == path_set(existing@),
                0 <= seen <= before.len(),
                i == present_only(before.take(seen), found).len(),
                self@ == present_only(before.take(seen), found) + before.skip(seen),
                self.files.len() == self@.len(),
                len_before == before.len(),
            decreases before.len() - seen,
        {
            proof {
                reveal(Seq::filter);
                assert(self@[i as int] == before[seen]);
                assert(self@[i as int] == self.files@[i as int]@);
                assert(before.take(seen + 1).drop_last() =~= before.take(seen));
                assert(before.take(seen + 1).last() == before[seen]);
            }
            let keep = is_listed(existing, &self.files[i].path);
            if keep {
                proof {
                    assert(self@ =~= present_only(before.take(seen + 1), found) + before.skip(
                        seen + 1,
                    ));
                    seen = seen + 1;
                }
                i += 1;
            } else {
                let ghost prior = self@;
                self.files.remove(i);
                proof {
                    assert(self@ =~= prior.remove(i as int));
                    assert(self@ =~= present_only(before.take(seen + 1), found) + before.skip(
                        seen + 1,
                    ));
                    seen = seen + 1;
                }
            }
        }
        proof {
            assert(before.take(seen) =~= before);
            assert(self@ =~= present_only(before, found));
            if well_formed(before) {
                law_prune_keeps_well_formed(before, found);
            }
        }
        self.files.len() != len_before
    }

    /// Drops every entry for `path`.
    pub fn remove_path(&mut self, path: &String)
        ensures
            final(self)@ == without_path(old(self)@, path@),
    {
        let ghost before = self@;
        let ghost mut seen: int = 0;
        let mut i: usize = 0;
        proof {
            reveal(Seq::filter);
            assert(before.take(0) =~= Seq::<RecentEntry>::empty());
            assert(self@ =~= without_path(before.take(0), path@) + before.skip(0));
        }
        while i < self.files.len()
            invariant
                0 <= seen <= before.len(),
                i == without_path(before.take(seen), path@).len(),
                self@ == without_path(before.take(seen), path@) + before.skip(seen),
                self.files.len() == self@.len(),
            decreases before.len() - seen,
        {
            proof {
                reveal(Seq::filter);
                assert(self@[i as int] == before[seen]);
                assert(self@[i as int] == self.files@[i as int]@);
                assert(before.take(seen + 1).drop_last() =~= before.take(seen));
                assert(before.take(seen + 1).last() == before[seen]);
            }
            let keep = !(self.files[i].path == *path);
            if keep {
                proof {
                    assert(self@ =~= without_path(before.take(seen + 1), path@) + before.skip(
                        seen + 1,
                    ));
                    seen = seen + 1;
                }
                i += 1;
            } else {
                let ghost prior = self@;
                self.files.remove(i);
                proof {
                    assert(self@ =~= prior.remove(i as int));
                    assert(self@ =~= without_path(before.take(seen + 1), path@) + before.skip(
                        seen + 1,
                    ));
                    seen = seen + 1;
                }
            }
        }
        proof {
            assert(before.take(seen) =~= before);
            assert(self@ =~= without_path(before, path@));
        }
    }

    /// Records a use of `entry`: it moves to the front, any older entry for
    /// its path leaves, and the list is cut to [`MAX_RECENT_FILES`].
    pub fn touch(&mut self, entry: RecentFile)
        ensures
            final(self)@ == with_front(old(self)@, entry@),
            distinct_paths(old(self)@) ==> well_formed(final(self)@),
    {
        let ghost before = self@;
        proof {
            if distinct_paths(before) {
                law_use_keeps_well_formed(before, entry@);
            }
        }
        self.remove_path(&entry.path);
        let ghost rest = self@;
        self.files.insert(0, entry);
        proof {
            assert(self@ =~= seq![entry@] + rest);
        }
        let ghost all = self@;
        self.files.truncate(MAX_RECENT_FILES);
        proof {
            if all.len() > MAX_RECENT_FILES {
                assert(self@ =~= all.take(MAX_RECENT_FILES as int));
            } else {
                assert(self@ =~= all);
            }
        }
    }
}

/// The entry that a use of `path` at `accessed_at` puts in the list.
pub open spec fn entry_for(path: Seq<char>, accessed_at: u64) -> RecentEntry {
    RecentEntry { path, name: name_of(path), accessed_at }
}

/// The time to stamp an entry with: what the clock said, or 0 where it could
/// not be read.
pub fn timestamp_or_zero(clock: Option<u64>) -> (seconds: u64)
    ensures
        seconds == match clock {
            Some(s) => s,
            None => 0,
        },
{
    match clock {
        Some(s) => s,
        None => 0,
    }
}

/// Refuses a path that is not on disk.
pub fn require_existing(exists: bool) -> (found: Result<(), StoreError>)
    ensures
        exists ==> found == Ok::<(), StoreError>(()),
        !exists ==> found == Err::<(), StoreError>(StoreError::NotFound),
{
    if exists {
        Ok(())
    } else {
        Err(StoreError::NotFound)
    }
}

/// Records that the file at `path` was used at `accessed_at`. `exists` says
/// whether the host found the file. A missing file is refused with
/// [`StoreError::NotFound`] and the list stays as it was; otherwise the file's
/// entry, named after the path's final segment, becomes the first one.
pub fn add_recent_file(
    data: &mut RecentFilesData,
    path: String,
    exists: bool,
    accessed_at: u64,
) -> (added: Result<(), StoreError>)
    ensures
        !exists ==> added == Err::<(), StoreError>(StoreError::NotFound) && *final(data) == *old(
            data,
        ),
        exists ==> added == Ok::<(), StoreError>(()) && final(data)@ == with_front(
            old(data)@,
            entry_for(path@, accessed_at),
        ),
        distinct_paths(old(data)@) && exists ==> well_formed(final(data)@),
{
    match require_existing(exists) {
        Err(error) => Err(error),
        Ok(()) => {
            let name = display_name(&path);
            data.touch(RecentFile { path, name, accessed_at });
            Ok(())
        },
    }
}

/// Corrects the list on a read: entries whose path is not among `existing`
/// leave. Where any left, the corrected list must be written back, and a
/// failure to write fails the read.
pub fn get_recent_files(data: &mut RecentFilesData, existing: &Vec<String>) -> (persist: Persist)
    ensures
        final(data)@ == present_only(old(data)@, path_set(existing@)),
        persist == if final(data)@.len() != old(data)@.len() {
            Persist::Required
        } else {
            Persist::Skip
        },
        well_formed(old(data)@) ==> well_formed(final(data)@),
{
    if data.retain_existing(existing) {
        Persist::Required
    } else {
        Persist::Skip
    }
}

/// Judges a load of the list: an empty list where there is no file yet.
pub fn load_recent_files_data(found: Stored<RecentFilesData>) -> (loaded: Result<
    RecentFilesData,
    StoreError,
>)
    ensures
        match found {
            Stored::Absent => loaded is Ok && loaded->Ok_0@ == Seq::<RecentEntry>::empty(),
            Stored::Parsed(document) => loaded == Ok::<RecentFilesData, StoreError>(document),
            Stored::Unreadable(cause) => loaded == Err::<RecentFilesData, StoreError>(
                StoreError::Io { action: IoAction::Read, subject: Subject::RecentFiles, cause },
            ),
            Stored::Malformed(cause) => loaded == Err::<RecentFilesData, StoreError>(
                StoreError::Parse { subject: Subject::RecentFiles, cause },
            ),
        },
{
    load_outcome(Subject::RecentFiles, found, RecentFilesData::default())
}

/// Judges a save of the list.
pub fn save_recent_files_data(written: Written) -> (saved: Result<(), StoreError>)
    ensures
        match written {
            Written::Done => saved == Ok::<(), StoreError>(()),
            Written::Unserializable(cause) => saved == Err::<(), StoreError>(
                StoreError::Serialize { subject: Subject::RecentFiles, cause },
            ),
            Written::Unwritable(cause) => saved == Err::<(), StoreError>(
                StoreError::Io { action: IoAction::Write, subject: Subject::RecentFiles, cause },
            ),
        },
{
    save_outcome(Subject::RecentFiles, written)
}

} // verus!
