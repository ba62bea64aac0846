//! The list on screen: the order of the documents, the listing of the
//! current directory, and the moves of the selection.

use vstd::prelude::*;
use crate::app::{App, AppView, Effect, EffectView, SortMode};
use crate::cache::with_content;
use crate::data::{
    entry_views, item_views, load_all_items, note_views, opt_text, order_notes, scanned_items,
    FileSystemItem, ItemView, Note, NoteView, ScanEntry, ScanEntryView,
};
use crate::order::{key_views, ranked};
use crate::paths::{
    join_path, joined_path, names_begin_with, names_under, segments, split, title_text, under,
};
use crate::text::chars_of;

verus! {

/// The entry that follows the selected one, wrapping around at the end; the
/// first where nothing is selected.
pub open spec fn index_after(selected: Option<usize>, len: nat) -> usize {
    match selected {
        Some(i) => if i >= len - 1 {
            0
        } else {
            (i + 1) as usize
        },
        None => 0,
    }
}

/// The entry before the selected one, wrapping around at the start; the
/// last where the selection lies beyond the list, the first where nothing
/// is selected.
pub open spec fn index_before(selected: Option<usize>, len: nat) -> usize {
    match selected {
        Some(i) => if i == 0 || i >= len {
            (len - 1) as usize
        } else {
            (i - 1) as usize
        },
        None => 0,
    }
}

impl AppView {
    /// The documents in the order of the sort policy; documents that the
    /// policy does not tell apart keep their order.
    pub open spec fn in_policy_order(self, notes: Seq<NoteView>) -> Seq<NoteView> {
        ranked(notes, notes.map_values(|n: NoteView| Some(self.sort_mode.key(n))))
    }

    /// The session after ordering the active list by the sort policy. A
    /// search result is never reordered.
    pub open spec fn sorted(self) -> AppView {
        if self.searching() {
            self
        } else {
            self.showing(self.in_policy_order(self.notes))
        }
    }

    /// The directory whose entries the list shows.
    pub open spec fn listing_dir(self) -> Seq<char> {
        joined_path(self.base_path, self.current_dir)
    }

    /// Whether an entry lies exactly one level below the current directory.
    pub open spec fn shows(self, item: ItemView) -> bool {
        let names = names_under(item.path(), self.base_path);
        let here = segments(self.current_dir);
        here.is_prefix_of(names) && names.len() == here.len() + 1
    }

    /// The entries of a walk that the list shows: those that lie one level
    /// below the current directory, folders first. Titles are relative to
    /// the root, wherever the walk began.
    pub open spec fn listing(self, entries: Seq<ScanEntryView>) -> Seq<ItemView> {
        scanned_items(entries, self.base_path).filter(|i: ItemView| self.shows(i))
    }

    /// Whether the selection fits the list on screen: a list that is not
    /// empty has an entry selected, an empty list has none.
    pub open spec fn selection_valid(self) -> bool {
        match self.list_state.selected {
            Some(i) => i < self.shown_len(),
            None => self.shown_len() == 0,
        }
    }

    /// The session with its selection made to fit the list on screen: in
    /// an empty list nothing is selected, a selection beyond the end moves
    /// to the last entry, and where nothing was selected the first entry
    /// is. A selection that fits stays.
    pub open spec fn settled(self) -> AppView {
        match self.list_state.selected {
            Some(i) => if self.shown_len() == 0 {
                AppView { list_state: self.list_state.with_selected(None), ..self }
            } else if i >= self.shown_len() {
                AppView {
                    list_state: self.list_state.with_selected(
                        Some((self.shown_len() - 1) as usize),
                    ),
                    ..self
                }
            } else {
                self
            },
            None => if self.shown_len() == 0 {
                self
            } else {
                AppView { list_state: self.list_state.with_selected(Some(0)), ..self }
            },
        }
    }

    /// The session after a walk of the listing directory: the list holds the
    /// entries one level below the current directory and no others,
    /// folders first, and the selection is made to fit it.
    pub open spec fn refreshed(self, entries: Seq<ScanEntryView>) -> AppView {
        (AppView { fs_items: self.listing(entries), ..self }).settled()
    }

    /// Whether `fs_items[index]` is a document without a body.
    pub open spec fn item_lacks_body(self, index: usize) -> bool {
        index < self.fs_items.len() && match self.fs_items[index as int] {
            ItemView::Note(n) => n.content is None,
            ItemView::Folder(_) => false,
        }
    }

    /// The file to read before [`App::load_fs_item_content`] is called for
    /// `fs_items[index]`: the entry's, where it is a document without a
    /// body.
    pub open spec fn item_to_read(self, index: usize) -> Option<Seq<char>> {
        if self.item_lacks_body(index) {
            Some(self.fs_items[index as int].path())
        } else {
            None
        }
    }

    /// The session after the body of `fs_items[index]` was asked for: a
    /// document without a body gets the one that was read, if any.
    pub open spec fn with_item_loaded(self, index: usize, fetched: Option<Seq<char>>) -> AppView {
        if self.item_lacks_body(index) && fetched is Some {
            AppView {
                fs_items: self.fs_items.update(
                    index as int,
                    ItemView::Note(with_content(self.fs_items[index as int]->Note_0, fetched)),
                ),
                ..self
            }
        } else {
            self
        }
    }

    /// The session after the selection moved to `index`.
    pub open spec fn moved_to(self, index: usize) -> (AppView, EffectView) {
        let selected = AppView { list_state: self.list_state.with_selected(Some(index)), ..self };
        let (next, effect) = if self.searching() {
            selected.touched(index)
        } else {
            (
                selected,
                if selected.item_lacks_body(index) {
                    EffectView::LoadItem(index)
                } else {
                    EffectView::Nothing
                },
            )
        };
        (AppView { preview_scroll: 0, ..next }, effect)
    }

    /// The session after a step down the list. In an empty list nothing is
    /// selected.
    pub open spec fn after_next(self) -> (AppView, EffectView) {
        if self.shown_len() == 0 {
            (self.settled(), EffectView::Nothing)
        } else {
            self.moved_to(index_after(self.list_state.selected, self.shown_len()))
        }
    }

    /// The session after a step up the list. In an empty list nothing is
    /// selected.
    pub open spec fn after_previous(self) -> (AppView, EffectView) {
        if self.shown_len() == 0 {
            (self.settled(), EffectView::Nothing)
        } else {
            self.moved_to(index_before(self.list_state.selected, self.shown_len()))
        }
    }
}

impl App {
    /// Orders `notes` by the sort policy.
    fn policy_order(&self, notes: &Vec<Note>) -> (r: Vec<Note>)
        ensures
            note_views(r@) == self@.in_policy_order(note_views(notes@)),
    {
        let ghost key = |n: NoteView| Some(self.sort_mode.key(n));
        let mut keys: Vec<Option<Vec<i128>>> = Vec::new();
        let mut i: usize = 0;
        while i < notes.len()
            invariant
                i <= notes.len(),
                key == |n: NoteView| Some(self.sort_mode.key(n)),
                key_views(keys@) == note_views(notes@).map_values(key).take(i as int),
                keys.len() == i,
            decreases notes.len() - i,
        {
            let k = self.sort_mode.key_of(&notes[i]);
            keys.push(Some(k));
            i = i + 1;
        }
        assert(note_views(notes@).map_values(key).take(notes.len() as int) == note_views(
            notes@,
        ).map_values(key));
        order_notes(notes, &keys)
    }

    /// Orders the active list by the sort policy: by date the newest first,
    /// by name ascending without regard to case, by size the largest first.
    /// While a search is active the list is left as the search ordered it.
    pub fn sort_notes(&mut self)
        ensures
            final(self)@ == old(self)@.sorted(),
    {
        if self.searching() {
            return ;
        }
        let sorted = self.policy_order(&self.notes);
        self.show(sorted);
    }

    /// The directory whose entries the list shows: the current directory
    /// under the root.
    pub fn listing_dir(&self) -> (r: String)
        ensures
            r@ == self@.listing_dir(),
    {
        join_path(self.base_path.as_str(), self.current_dir.as_str())
    }

    /// Tests whether an entry lies exactly one level below the current
    /// directory.
    fn shows(&self, item: &FileSystemItem) -> (r: bool)
        ensures
            r == self@.shows(item@),
    {
        let path = match item {
            FileSystemItem::Note(n) => n.path.as_str(),
            FileSystemItem::Folder(p) => p.as_str(),
        };
        let names = under(path, self.base_path.as_str());
        let here = split(&chars_of(self.current_dir.as_str()));
        names_begin_with(&names, &here) && names.len() - here.len() == 1
    }

    /// Takes a fresh walk of the listing directory and shows the entries one
    /// level below the current directory, folders before documents.
    pub fn refresh_fs_view(&mut self, entries: &Vec<ScanEntry>)
        ensures
            final(self)@ == old(self)@.refreshed(entry_views(entries@)),
            final(self)@.selection_valid(),
            forall|k: int|
                0 <= k < final(self)@.fs_items.len() ==> old(self)@.shows(
                    #[trigger] final(self)@.fs_items[k],
                ),
            forall|k: int|
                0 <= k < final(self)@.fs_items.len() ==> (
                #[trigger] final(self)@.fs_items[k] matches ItemView::Note(n) ==> n.title
                    == title_text(n.path, old(self)@.base_path)),
    {
        proof {
            let s = self@;
            let e = entry_views(entries@);
            assert forall|k: int| 0 <= k < s.listing(e).len() implies s.shows(
                #[trigger] s.listing(e)[k],
            ) && (s.listing(e)[k] matches ItemView::Note(n) ==> n.title == title_text(
                n.path,
                s.base_path,
            )) by {
                listed_titles_are_relative_to_the_root(s, e, k);
            }
        }
        let items = load_all_items(self.base_path.as_str(), entries);
        let ghost all = item_views(items@);
        let ghost me = self@;
        let ghost keep = |i: ItemView| me.shows(i);
        let mut kept: Vec<FileSystemItem> = Vec::new();
        let mut k: usize = 0;
        while k < items.len()
            invariant
                k <= items.len(),
                all == item_views(items@),
                me == self@,
                keep == |i: ItemView| me.shows(i),
                item_views(kept@) == all.take(k as int).filter(keep),
            decreases items.len() - k,
        {
            let item = &items[k];
            proof {
                assert(all.take(k + 1) =~= all.take(k as int).push(item@));
                all.take(k as int).lemma_filter_push(item@, keep);
            }
            if self.shows(item) {
                let copy = item.duplicate();
                kept.push(copy);
            }
            k = k + 1;
        }
        assert(all.take(items.len() as int) == all);
        self.fs_items = kept;
        self.settle_selection();
    }

    /// Makes the selection fit the list on screen.
    pub fn settle_selection(&mut self)
        ensures
            final(self)@ == old(self)@.settled(),
            final(self)@.selection_valid(),
    {
        let len = self.shown_len();
        match self.list_state.selected() {
            Some(i) => {
                if len == 0 {
                    self.list_state.select(None);
                } else if i >= len {
                    self.list_state.select(Some(len - 1));
                }
            },
            None => {
                if len > 0 {
                    self.list_state.select(Some(0));
                }
            },
        }
    }

    /// Tests whether `fs_items[index]` is a document without a body.
    pub fn item_lacks_body(&self, index: usize) -> (r: bool)
        ensures
            r == self@.item_lacks_body(index),
    {
        if index >= self.fs_items.len() {
            return false;
        }
        match &self.fs_items[index] {
            FileSystemItem::Note(n) => n.content.is_none(),
            FileSystemItem::Folder(_) => false,
        }
    }

    /// The file to read before the outcome is reported with
    /// [`App::load_fs_item_content`], if any.
    pub fn item_to_read(&self, index: usize) -> (r: Option<String>)
        ensures
            opt_text(r) == self@.item_to_read(index),
    {
        if self.item_lacks_body(index) {
            match &self.fs_items[index] {
                FileSystemItem::Note(n) => Some(n.path.clone()),
                FileSystemItem::Folder(p) => Some(p.clone()),
            }
        } else {
            None
        }
    }

    /// Takes the outcome of reading the body of `fs_items[index]`: a
    /// document without a body gets the text that was read. Folders, and
    /// documents that hold a body, are left alone.
    pub fn load_fs_item_content(&mut self, index: usize, fetched: Option<String>)
        ensures
            final(self)@ == old(self)@.with_item_loaded(index, opt_text(fetched)),
    {
        if !self.item_lacks_body(index) {
            return ;
        }
        match fetched {
            Some(body) => {
                let mut note = match &self.fs_items[index] {
                    FileSystemItem::Note(n) => n.duplicate(),
                    FileSystemItem::Folder(_) => {
                        return ;
                    },
                };
                note.content = Some(body);
                self.fs_items.set(index, FileSystemItem::Note(note));
            },
            None => {},
        }
    }

    /// Moves the selection to `index` and uses the entry there.
    fn move_to(&mut self, index: usize) -> (e: Effect)
        ensures
            (final(self)@, e@) == old(self)@.moved_to(index),
            index < old(self)@.shown_len() ==> final(self)@.selection_valid(),
    {
        self.list_state.select(Some(index));
        let e = if self.searching() {
            self.touch(index)
        } else if self.item_lacks_body(index) {
            Effect::LoadItem(index)
        } else {
            Effect::Nothing
        };
        self.preview_scroll = 0;
        e
    }

    /// Moves the selection one entry down, from the last entry to the
    /// first, and uses the entry it arrives at. In an empty list nothing
    /// is selected.
    pub fn next(&mut self) -> (e: Effect)
        ensures
            (final(self)@, e@) == old(self)@.after_next(),
            final(self)@.selection_valid(),
    {
        let len = self.shown_len();
        if len == 0 {
            self.settle_selection();
            return Effect::Nothing;
        }
        let i = match self.list_state.selected() {
            Some(i) => if i >= len - 1 {
                0
            } else {
                i + 1
            },
            None => 0,
        };
        self.move_to(i)
    }

    /// Moves the selection one entry up, from the first entry to the last,
    /// and uses the entry it arrives at. In an empty list nothing is
    /// selected.
    pub fn previous(&mut self) -> (e: Effect)
        ensures
            (final(self)@, e@) == old(self)@.after_previous(),
            final(self)@.selection_valid(),
    {
        let len = self.shown_len();
        if len == 0 {
            self.settle_selection();
            return Effect::Nothing;
        }
        let i = match self.list_state.selected() {
            Some(i) => if i == 0 || i >= len {
                len - 1
            } else {
                i - 1
            },
            None => 0,
        };
        self.move_to(i)
    }
}

/// The keys by which the sort policy orders a list.
pub open spec fn policy_keys(mode: SortMode, notes: Seq<NoteView>) -> Seq<Option<Seq<i128>>> {
    notes.map_values(|n: NoteView| Some(mode.key(n)))
}

/// Ordering by the sort policy rearranges the list: every document of the
/// list stands in the ordered list exactly once.
pub proof fn policy_order_rearranges(s: AppView, notes: Seq<NoteView>)
    ensures
        crate::order::ranking(policy_keys(s.sort_mode, notes)).no_duplicates(),
        forall|i: int|
            0 <= i < notes.len() ==> crate::order::ranking(
                policy_keys(s.sort_mode, notes),
            ).contains(i),
        s.in_policy_order(notes) == crate::order::ranking(
            policy_keys(s.sort_mode, notes),
        ).map_values(|i: int| notes[i]),
{
    let keys = policy_keys(s.sort_mode, notes);
    crate::order::ranking_lists_the_keyed(keys);
    assert forall|i: int| 0 <= i < notes.len() implies crate::order::ranking(keys).contains(i) by {
        assert(keys[i] is Some);
    }
}

/// Under the size policy the active list runs from the largest document to
/// the smallest: of two documents the earlier one is at least as large.
pub proof fn size_order_descends(s: AppView, a: int, b: int)
    requires
        s.sort_mode == SortMode::Size,
        !s.searching(),
        0 <= a < b < s.sorted().notes.len(),
    ensures
        s.sorted().notes[a].size >= s.sorted().notes[b].size,
{
    let keys = policy_keys(SortMode::Size, s.notes);
    let order = crate::order::ranking(keys);
    crate::order::ranking_lists_the_keyed(keys);
    crate::order::ranking_ascends(keys, a, b);
    let x = s.notes[order[a]];
    let y = s.notes[order[b]];
    assert(keys =~= s.notes.map_values(|n: NoteView| Some(s.sort_mode.key(n))));
    assert(s.sorted().notes[a] == x);
    assert(s.sorted().notes[b] == y);
    assert(keys[order[a]]->0 == seq![crate::data::reversed(x.size as int)]);
    assert(keys[order[b]]->0 == seq![crate::data::reversed(y.size as int)]);
    crate::order::single_keys_compare_as_numbers(
        crate::data::reversed(y.size as int),
        crate::data::reversed(x.size as int),
    );
}

/// Under the date policy the active list runs from the newest document to
/// the oldest.
pub proof fn date_order_descends(s: AppView, a: int, b: int)
    requires
        s.sort_mode == SortMode::Date,
        !s.searching(),
        0 <= a < b < s.sorted().notes.len(),
    ensures
        s.sorted().notes[a].last_modified >= s.sorted().notes[b].last_modified,
{
    let keys = policy_keys(SortMode::Date, s.notes);
    let order = crate::order::ranking(keys);
    crate::order::ranking_lists_the_keyed(keys);
    crate::order::ranking_ascends(keys, a, b);
    let x = s.notes[order[a]];
    let y = s.notes[order[b]];
    assert(keys =~= s.notes.map_values(|n: NoteView| Some(s.sort_mode.key(n))));
    assert(s.sorted().notes[a] == x);
    assert(s.sorted().notes[b] == y);
    assert(keys[order[a]]->0 == seq![crate::data::reversed(x.last_modified as int)]);
    assert(keys[order[b]]->0 == seq![crate::data::reversed(y.last_modified as int)]);
    crate::order::single_keys_compare_as_numbers(
        crate::data::reversed(y.last_modified as int),
        crate::data::reversed(x.last_modified as int),
    );
}

/// What the list shows after a walk lies exactly one level below the
/// current directory, and every document in it has the title that its path
/// gives it under the root.
pub proof fn listed_titles_are_relative_to_the_root(
    s: AppView,
    entries: Seq<ScanEntryView>,
    k: int,
)
    requires
        0 <= k < s.listing(entries).len(),
    ensures
        s.shows(s.listing(entries)[k]),
        names_under(s.listing(entries)[k].path(), s.base_path).len()
            == crate::paths::depth(s.current_dir) + 1,
        s.listing(entries)[k] matches ItemView::Note(n) ==> n.title == title_text(
            n.path,
            s.base_path,
        ),
{
    let all = scanned_items(entries, s.base_path);
    let keep = |i: ItemView| s.shows(i);
    let item = s.listing(entries)[k];
    all.lemma_filter_pred(keep, k);
    assert(all.filter(keep).contains(item));
    all.lemma_filter_contains_rev(keep, item);
    let at = choose|at: int| 0 <= at < all.len() && all[at] == item;
    crate::data::listed_items_come_from_the_walk(entries, s.base_path, at);
}

/// The list shows every entry of the walk that lies one level below the
/// current directory and stands for a folder or a document: none is left
/// out.
pub proof fn listing_holds_every_entry_below(s: AppView, entries: Seq<ScanEntryView>, i: int)
    requires
        0 <= i < entries.len(),
        crate::data::listed_item(entries[i], s.base_path) is Some,
        s.shows(crate::data::listed_item(entries[i], s.base_path)->0),
    ensures
        s.listing(entries).contains(crate::data::listed_item(entries[i], s.base_path)->0),
{
    let all = scanned_items(entries, s.base_path);
    let keep = |i: ItemView| s.shows(i);
    let item = crate::data::listed_item(entries[i], s.base_path)->0;
    crate::data::scanned_items_hold_every_entry(entries, s.base_path, i);
    let at = choose|at: int| 0 <= at < all.len() && all[at] == item;
    all.lemma_filter_contains(keep, at);
}

/// In the list the folders stand before the documents, whatever the sort
/// policy, and after a walk that reported every path once no entry stands
/// in it twice.
pub proof fn listing_is_in_order(s: AppView, entries: Seq<ScanEntryView>)
    ensures
        crate::data::folders_first(s.listing(entries)),
        crate::data::walked_once(entries) ==> crate::data::distinct_item_paths(s.listing(entries)),
{
    let all = scanned_items(entries, s.base_path);
    let keep = |i: ItemView| s.shows(i);
    crate::data::scanned_items_put_folders_first(entries, s.base_path);
    crate::data::filter_keeps_pairs(all, keep, |x: ItemView, y: ItemView| !(x is Note && y is Folder));
    if crate::data::walked_once(entries) {
        crate::data::scanned_items_have_distinct_paths(entries, s.base_path);
        crate::data::filter_keeps_pairs(all, keep, |x: ItemView, y: ItemView| x.path() != y.path());
    }
}

} // verus!
