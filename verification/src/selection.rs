//! The catalog of all known songs and the selection queue built from it.

use vstd::prelude::*;
use crate::song::{SongEntry, SongEntrySpec};

verus! {

/// The session-fixed, ordered list of all known songs. Order is display
/// order and carries no other weight; the list is never mutated after
/// construction.
pub struct Catalog {
    entries: Vec<SongEntry>,
}

impl View for Catalog {
    type V = Seq<SongEntrySpec>;

    closed spec fn view(&self) -> Seq<SongEntrySpec> {
        self.entries@.map_values(|e: SongEntry| e@)
    }
}

impl Catalog {
    /// Builds the catalog from its entries, in display order.
    pub fn new(entries: Vec<SongEntry>) -> (catalog: Catalog)
        ensures
            catalog@ == entries@.map_values(|e: SongEntry| e@),
    {
        Catalog { entries }
    }

    /// How many songs the catalog holds.
    pub fn len(&self) -> (n: usize)
        ensures
            n == self@.len(),
    {
        self.entries.len()
    }

    /// The song at position `i` of the display order. Callers index only
    /// positions they just enumerated from this same view.
    pub fn get(&self, i: usize) -> (entry: &SongEntry)
        requires
            i < self@.len(),
        ensures
            entry@ == self@[i as int],
    {
        &self.entries[i]
    }

    /// The catalog's songs as a list of copies, in display order, for
    /// rendering selectable rows.
    pub fn to_vec(&self) -> (songs: Vec<SongEntry>)
        ensures
            songs@.map_values(|e: SongEntry| e@) == self@,
    {
        clone_entries(&self.entries)
    }
}

impl Clone for Catalog {
    /// A copy of the catalog: the same songs in the same order.
    fn clone(&self) -> (res: Self)
        ensures
            res@ == self@,
    {
        Catalog { entries: clone_entries(&self.entries) }
    }
}

/// Why a selection operation was refused.
#[derive(Clone, Copy, PartialEq, Eq, Structural, Debug)]
pub enum SelectionError {
    /// The supplied index is not a current catalog position. The index is
    /// always derived from a fresh enumeration of the catalog immediately
    /// before the call, so this is a contract violation, not an expected
    /// runtime condition.
    InvalidCatalogIndex,
    /// The supplied index is not a current selection position. Rendered
    /// delete controls can go stale between a render and a later event, so
    /// this is reported and the selection is left untouched.
    InvalidSelectionIndex,
}

/// The user-curated, ordered list of songs queued for the current activity.
/// Order is insertion order, except that a removal shifts every later entry
/// down by one: no gaps, no reordering of the remainder. Duplicates are
/// permitted; identity inside the selection is by position, not by name.
pub struct Selection {
    entries: Vec<SongEntry>,
}

impl View for Selection {
    type V = Seq<SongEntrySpec>;

    closed spec fn view(&self) -> Seq<SongEntrySpec> {
        self.entries@.map_values(|e: SongEntry| e@)
    }
}

impl Selection {
    /// The empty selection every session starts from.
    pub fn new() -> (selection: Selection)
        ensures
            selection@ == Seq::<SongEntrySpec>::empty(),
    {
        let selection = Selection { entries: Vec::new() };
        assert(selection@ =~= Seq::<SongEntrySpec>::empty());
        selection
    }

    /// How many songs are queued.
    pub fn len(&self) -> (n: usize)
        ensures
            n == self@.len(),
    {
        self.entries.len()
    }

    /// The queued song at position `i`.
    pub fn get(&self, i: usize) -> (entry: &SongEntry)
        requires
            i < self@.len(),
        ensures
            entry@ == self@[i as int],
    {
        &self.entries[i]
    }

    /// Appends a copy of the catalog entry at `catalog_index` to the end of
    /// the selection. The length grows by exactly one; every prior entry
    /// keeps its position. The index must be a current catalog position:
    /// violating that is a contract error, so it is ruled out here rather
    /// than handled.
    pub fn append(&mut self, catalog: &Catalog, catalog_index: usize)
        requires
            catalog_index < catalog@.len(),
        ensures
            final(self)@ == old(self)@.push(catalog@[catalog_index as int]),
            final(self)@.len() == old(self)@.len() + 1,
            final(self)@[old(self)@.len() as int] == catalog@[catalog_index as int],
            forall|p: int| 0 <= p < old(self)@.len() ==> final(self)@[p] == old(self)@[p],
    {
        let entry = catalog.get(catalog_index).clone();
        self.entries.push(entry);
        assert(self@ =~= old(self)@.push(catalog@[catalog_index as int]));
    }

    /// Removes the entry at `selection_index`. On a current position the
    /// length shrinks by exactly one, entries before the position are
    /// unchanged, and every entry after it moves down by one. A stale
    /// index — one at or past the current length — is rejected: the
    /// selection is left exactly as it was and the error says why.
    pub fn remove_at(&mut self, selection_index: usize) -> (result: Result<(), SelectionError>)
        ensures
            selection_index < old(self)@.len() ==> {
                &&& result == Ok::<(), SelectionError>(())
                &&& final(self)@ == old(self)@.remove(selection_index as int)
                &&& final(self)@.len() == old(self)@.len() - 1
                &&& forall|p: int| 0 <= p < selection_index ==> final(self)@[p] == old(self)@[p]
                &&& forall|p: int|
                    selection_index < p < old(self)@.len() ==> final(self)@[p - 1] == old(self)@[p]
            },
            selection_index >= old(self)@.len() ==> {
                &&& result == Err::<(), SelectionError>(SelectionError::InvalidSelectionIndex)
                &&& final(self)@ == old(self)@
            },
    {
        if selection_index < self.entries.len() {
            let _ = self.entries.remove(selection_index);
            assert(self@ =~= old(self)@.remove(selection_index as int));
            Ok(())
        } else {
            Err(SelectionError::InvalidSelectionIndex)
        }
    }

    /// Like `append`, for hosts that cannot guarantee the index themselves:
    /// a stale catalog index is rejected and the selection is left exactly
    /// as it was.
    pub fn try_append(&mut self, catalog: &Catalog, catalog_index: usize) -> (result: Result<
        (),
        SelectionError,
    >)
        ensures
            catalog_index < catalog@.len() ==> {
                &&& result == Ok::<(), SelectionError>(())
                &&& final(self)@ == old(self)@.push(catalog@[catalog_index as int])
            },
            catalog_index >= catalog@.len() ==> {
                &&& result == Err::<(), SelectionError>(SelectionError::InvalidCatalogIndex)
                &&& final(self)@ == old(self)@
            },
    {
        if catalog_index < catalog.len() {
            self.append(catalog, catalog_index);
            Ok(())
        } else {
            Err(SelectionError::InvalidCatalogIndex)
        }
    }

    /// Which of the two read-model states the selection is in.
    pub fn display_state(&self) -> (state: SelectionDisplay)
        ensures
            state == spec_display(self@),
            (state == SelectionDisplay::PromptSelectFirst) <==> self@.len() == 0,
            (state == SelectionDisplay::ShowList) <==> self@.len() > 0,
    {
        if self.entries.len() == 0 {
            SelectionDisplay::PromptSelectFirst
        } else {
            SelectionDisplay::ShowList
        }
    }

    /// The queued songs as a list of copies, in queue order, for rendering.
    pub fn to_vec(&self) -> (songs: Vec<SongEntry>)
        ensures
            songs@.map_values(|e: SongEntry| e@) == self@,
    {
        clone_entries(&self.entries)
    }
}

impl Clone for Selection {
    /// A copy of the selection: the same queue in the same order.
    fn clone(&self) -> (res: Self)
        ensures
            res@ == self@,
    {
        Selection { entries: clone_entries(&self.entries) }
    }
}

/// What the selection pane shows: either a prompt to pick a song first, or
/// the list of queued songs.
#[derive(Clone, Copy, PartialEq, Eq, Structural, Debug)]
pub enum SelectionDisplay {
    /// Nothing is queued yet: prompt the user to select a song first.
    PromptSelectFirst,
    /// At least one song is queued: show the queue.
    ShowList,
}

/// The read-model state that a selection with contents `s` presents.
pub open spec fn spec_display(s: Seq<SongEntrySpec>) -> SelectionDisplay {
    if s.len() == 0 {
        SelectionDisplay::PromptSelectFirst
    } else {
        SelectionDisplay::ShowList
    }
}

/// The prompt state and the list state are mutually exclusive and
/// collectively exhaustive: every selection, whatever its length, is in
/// exactly one of them — the prompt exactly when nothing is queued, the
/// list exactly when something is.
pub proof fn lemma_display_partition(s: Seq<SongEntrySpec>)
    ensures
        spec_display(s) == SelectionDisplay::PromptSelectFirst || spec_display(s)
            == SelectionDisplay::ShowList,
        !(spec_display(s) == SelectionDisplay::PromptSelectFirst && spec_display(s)
            == SelectionDisplay::ShowList),
        (spec_display(s) == SelectionDisplay::PromptSelectFirst) <==> s.len() == 0,
        (spec_display(s) == SelectionDisplay::ShowList) <==> s.len() > 0,
{
}

/// The contents of a selection `s` after `k` further appends of the same
/// entry `e`.
pub open spec fn append_copies(s: Seq<SongEntrySpec>, e: SongEntrySpec, k: nat) -> Seq<
    SongEntrySpec,
>
    decreases k,
{
    if k == 0 {
        s
    } else {
        append_copies(s, e, (k - 1) as nat).push(e)
    }
}

/// Appending the same catalog entry `k` times over leaves every earlier
/// entry in place and puts `k` copies of the entry at the `k` appended
/// positions: the selection is a list, not a set, and duplicates are kept.
pub proof fn lemma_repeated_append(s: Seq<SongEntrySpec>, e: SongEntrySpec, k: nat)
    ensures
        append_copies(s, e, k).len() == s.len() + k,
        forall|p: int| 0 <= p < s.len() ==> append_copies(s, e, k)[p] == s[p],
        forall|p: int| s.len() <= p < s.len() + k ==> append_copies(s, e, k)[p] == e,
    decreases k,
{
    if k > 0 {
        lemma_repeated_append(s, e, (k - 1) as nat);
    }
}

/// Each of the `k` copies is removable independently of the others:
/// removing any one of them gives exactly the selection that holds the
/// remaining `k - 1` copies.
pub proof fn lemma_copy_removal_independent(s: Seq<SongEntrySpec>, e: SongEntrySpec, k: nat, j: int)
    requires
        k > 0,
        s.len() <= j < s.len() + k,
    ensures
        append_copies(s, e, k).remove(j) == append_copies(s, e, (k - 1) as nat),
{
    lemma_repeated_append(s, e, k);
    lemma_repeated_append(s, e, (k - 1) as nat);
    assert(append_copies(s, e, k).remove(j) =~= append_copies(s, e, (k - 1) as nat));
}

/// Copies a list of songs, keeping order and the value of every entry.
fn clone_entries(entries: &Vec<SongEntry>) -> (res: Vec<SongEntry>)
    ensures
        res@.map_values(|e: SongEntry| e@) == entries@.map_values(|e: SongEntry| e@),
{
    let mut res: Vec<SongEntry> = Vec::new();
    let mut i: usize = 0;
    while i < entries.len()
        invariant
            i <= entries@.len(),
            res@.len() == i,
            forall|p: int| 0 <= p < i ==> (#[trigger] res@[p])@ == entries@[p]@,
        decreases entries@.len() - i,
    {
        res.push(entries[i].clone());
        i = i + 1;
    }
    assert(res@.map_values(|e: SongEntry| e@) =~= entries@.map_values(|e: SongEntry| e@));
    res
}

} // verus!
