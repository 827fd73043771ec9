//! What holds of the two stores whatever they contain, proved from the
//! definitions that the contracts of the operations use.

use vstd::prelude::*;
use crate::recent::{
    distinct_paths, is_among, is_missing, not_at, present_only, well_formed, with_front,
    without_path, RecentEntry, MAX_RECENT_FILES,
};
use crate::seq_facts::{
    lemma_filter_drops_single, lemma_filter_is_ordered_part, lemma_filter_keeps_all,
    lemma_filter_keeps_prefix, lemma_filter_splits,
};
use crate::session::{among, restored, SessionView};

verus! {

/// The entries for missing paths, in their old order.
pub open spec fn missing_only(list: Seq<RecentEntry>, existing: Set<Seq<char>>) -> Seq<
    RecentEntry,
> {
    list.filter(is_missing(existing))
}

/// The list after each of `uses` was put in front in turn, the first one
/// first.
pub open spec fn with_all(list: Seq<RecentEntry>, uses: Seq<RecentEntry>) -> Seq<RecentEntry>
    decreases uses.len(),
{
    if uses.len() == 0 {
        list
    } else {
        with_front(with_all(list, uses.drop_last()), uses.last())
    }
}

/// After a use the used entry is first, no other entry has its path, every
/// other entry was in the list before, and the list has at most
/// [`MAX_RECENT_FILES`] entries.
pub proof fn law_used_entry_is_first_and_alone(list: Seq<RecentEntry>, entry: RecentEntry)
    ensures
        with_front(list, entry).len() >= 1,
        with_front(list, entry).len() <= MAX_RECENT_FILES,
        with_front(list, entry).len() <= list.len() + 1,
        with_front(list, entry)[0] == entry,
        forall|i: int|
            1 <= i < with_front(list, entry).len() ==> (#[trigger] with_front(list, entry)[i]).path
                != entry.path && list.contains(with_front(list, entry)[i]),
{
    let rest = without_path(list, entry.path);
    let from = lemma_filter_is_ordered_part(list, not_at(entry.path));
    let after = with_front(list, entry);
    assert forall|i: int| 1 <= i < after.len() implies (#[trigger] after[i]).path != entry.path
        && list.contains(after[i]) by {
        assert(after[i] == rest[i - 1]);
        assert(rest[i - 1] == list[from[i - 1]]);
    }
}

/// A list without repeated paths stays so when it is filtered.
pub proof fn law_filter_keeps_paths_distinct(
    list: Seq<RecentEntry>,
    pred: spec_fn(RecentEntry) -> bool,
)
    requires
        distinct_paths(list),
    ensures
        distinct_paths(list.filter(pred)),
{
    let from = lemma_filter_is_ordered_part(list, pred);
    let part = list.filter(pred);
    assert forall|i: int, j: int| 0 <= i < j < part.len() implies (#[trigger] part[i]).path
        != (#[trigger] part[j]).path by {
        assert(from[i] < from[j]);
        assert(part[i] == list[from[i]]);
        assert(part[j] == list[from[j]]);
    }
}

/// A use never leaves a repeated path or too many entries behind, provided
/// the list had no repeated path before.
pub proof fn law_use_keeps_well_formed(list: Seq<RecentEntry>, entry: RecentEntry)
    requires
        distinct_paths(list),
    ensures
        well_formed(with_front(list, entry)),
{
    let rest = without_path(list, entry.path);
    law_filter_keeps_paths_distinct(list, not_at(entry.path));
    law_used_entry_is_first_and_alone(list, entry);
    let after = with_front(list, entry);
    assert forall|i: int, j: int| 0 <= i < j < after.len() implies (#[trigger] after[i]).path
        != (#[trigger] after[j]).path by {
        if i > 0 {
            assert(after[i] == rest[i - 1]);
            assert(after[j] == rest[j - 1]);
        }
    }
}

/// Pruning keeps a well-formed list well-formed.
pub proof fn law_prune_keeps_well_formed(list: Seq<RecentEntry>, existing: Set<Seq<char>>)
    requires
        well_formed(list),
    ensures
        well_formed(present_only(list, existing)),
{
    broadcast use Seq::lemma_filter_len;

    law_filter_keeps_paths_distinct(list, is_among(existing));
}

/// Using a path twice in a row is the same as using it once, the second time:
/// one entry for the path, in front, with the later time.
pub proof fn law_second_use_replaces_first(
    list: Seq<RecentEntry>,
    first: RecentEntry,
    second: RecentEntry,
)
    requires
        first.path == second.path,
    ensures
        with_front(with_front(list, first), second) == with_front(list, second),
        with_front(with_front(list, first), second)[0].accessed_at == second.accessed_at,
        forall|i: int|
            1 <= i < with_front(with_front(list, first), second).len() ==> (#[trigger] with_front(
                with_front(list, first),
                second,
            )[i]).path != second.path,
{
    let path = first.path;
    let rest = without_path(list, path);
    let m: int = if rest.len() > MAX_RECENT_FILES - 1 {
        MAX_RECENT_FILES - 1
    } else {
        rest.len() as int
    };
    let once = with_front(list, first);
    assert(once =~= seq![first] + rest.take(m));
    let from = lemma_filter_is_ordered_part(list, not_at(path));
    assert forall|i: int| 0 <= i < rest.take(m).len() implies not_at(path)(
        #[trigger] rest.take(m)[i],
    ) by {
        assert(rest.take(m)[i] == list[from[i]]);
    }
    lemma_filter_keeps_all(rest.take(m), not_at(path));
    lemma_filter_drops_single(first, not_at(path));
    Seq::filter_distributes_over_add(seq![first], rest.take(m), not_at(path));
    assert(without_path(once, path) =~= rest.take(m));
    assert(with_front(once, second) =~= seq![second] + rest.take(m));
    assert(with_front(list, second) =~= seq![second] + rest.take(m));
    law_used_entry_is_first_and_alone(list, second);
}

/// After any number of uses of different paths, the list starts with the
/// latest uses, newest first, as many as fit: with [`MAX_RECENT_FILES`] uses
/// or more, it holds exactly the latest [`MAX_RECENT_FILES`] of them.
pub proof fn law_latest_uses_stay(list: Seq<RecentEntry>, uses: Seq<RecentEntry>)
    requires
        distinct_paths(uses),
    ensures
        uses.len() >= 1 ==> with_all(list, uses).len() <= MAX_RECENT_FILES,
        uses.len() >= MAX_RECENT_FILES ==> with_all(list, uses).len() == MAX_RECENT_FILES,
        forall|i: int|
            0 <= i < uses.len() && i < MAX_RECENT_FILES ==> i < with_all(list, uses).len()
                && #[trigger] with_all(list, uses)[i] == uses[uses.len() - 1 - i],
    decreases uses.len(),
{
    if uses.len() > 0 {
        let n = uses.len() as int;
        let earlier = uses.drop_last();
        let entry = uses.last();
        law_latest_uses_stay(list, earlier);
        let before = with_all(list, earlier);
        let k: int = if n - 1 < MAX_RECENT_FILES {
            n - 1
        } else {
            MAX_RECENT_FILES as int
        };
        if k > 0 {
            assert(before[k - 1] == earlier[n - 2 - (k - 1)]);
        }
        assert forall|i: int| 0 <= i < k implies not_at(entry.path)(#[trigger] before[i]) by {
            assert(before[i] == earlier[n - 2 - i]);
            assert(earlier[n - 2 - i] == uses[n - 2 - i]);
            assert(uses[n - 2 - i].path != uses[n - 1].path);
        }
        lemma_filter_keeps_prefix(before, not_at(entry.path), k);
        let rest = without_path(before, entry.path);
        let after = with_front(before, entry);
        assert(after == with_all(list, uses));
        assert forall|i: int| 0 <= i < n && i < MAX_RECENT_FILES implies i < after.len()
            && #[trigger] after[i] == uses[n - 1 - i] by {
            if i > 0 {
                assert(after[i] == rest[i - 1]);
                assert(rest[i - 1] == rest.take(k)[i - 1]);
                assert(before.take(k)[i - 1] == before[i - 1]);
                assert(before[i - 1] == earlier[n - 2 - (i - 1)]);
            }
        }
    }
}

/// Pruning returns the entries that are there and no others: every entry
/// left is for an existing path, and the list is shorter by exactly the
/// number of entries for missing paths.
pub proof fn law_prune_drops_exactly_the_missing(list: Seq<RecentEntry>, existing: Set<Seq<char>>)
    ensures
        forall|i: int|
            0 <= i < present_only(list, existing).len() ==> existing.contains(
                (#[trigger] present_only(list, existing)[i]).path,
            ),
        present_only(list, existing).len() == list.len() - missing_only(list, existing).len(),
        missing_only(list, existing).len() == 0 ==> present_only(list, existing) == list,
{
    let from = lemma_filter_is_ordered_part(list, is_among(existing));
    lemma_filter_splits(list, is_among(existing), is_missing(existing));
    if missing_only(list, existing).len() == 0 {
        let gone = lemma_filter_is_ordered_part(list, is_missing(existing));
        assert forall|i: int| 0 <= i < list.len() implies is_among(existing)(#[trigger] list[i]) by {
            if !existing.contains(list[i].path) {
                broadcast use Seq::lemma_filter_contains;

                assert(is_missing(existing)(list[i]));
                assert(missing_only(list, existing).contains(list[i]));
            }
        }
        lemma_filter_keeps_all(list, is_among(existing));
    }
}

/// A restored session names no missing file: every open file exists, and so
/// does the active file where there is one. What exists is kept, in order.
pub proof fn law_restored_session_names_existing_files(
    session: SessionView,
    existing: Set<Seq<char>>,
)
    ensures
        forall|i: int|
            0 <= i < restored(session, existing).open_files.len() ==> existing.contains(
                #[trigger] restored(session, existing).open_files[i],
            ),
        restored(session, existing).active_file is Some ==> existing.contains(
            restored(session, existing).active_file->Some_0,
        ) && restored(session, existing).active_file == session.active_file,
        (forall|i: int|
            0 <= i < session.open_files.len() ==> existing.contains(
                #[trigger] session.open_files[i],
            )) ==> restored(session, existing).open_files == session.open_files,
{
    let from = lemma_filter_is_ordered_part(session.open_files, among(existing));
    if forall|i: int|
        0 <= i < session.open_files.len() ==> existing.contains(#[trigger] session.open_files[i]) {
        lemma_filter_keeps_all(session.open_files, among(existing));
    }
}

/// The empty session is restored as itself, whatever exists.
pub proof fn law_empty_session_restores_empty(existing: Set<Seq<char>>)
    ensures
        restored(
            SessionView { open_files: Seq::<Seq<char>>::empty(), active_file: None },
            existing,
        ) == (SessionView { open_files: Seq::<Seq<char>>::empty(), active_file: None }),
{
    lemma_filter_keeps_all(Seq::<Seq<char>>::empty(), among(existing));
}

} // verus!
