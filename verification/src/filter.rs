//! Applying a search to the session: the active list becomes the result of
//! the search, and its first entry is selected.

use vstd::prelude::*;
use crate::app::{App, AppView, Effect, EffectView};
use crate::data::{copy_notes, entry_views, NoteView, ScanEntry, ScanEntryView};

verus! {

impl AppView {
    /// The files to read before a search by body: for every document of
    /// `all_notes` its own, where it holds no body.
    pub open spec fn bodies_to_read(self) -> Seq<Option<Seq<char>>> {
        self.all_notes.map_values(
            |n: NoteView|
                if n.content is None {
                    Some(n.path)
                } else {
                    None
                },
        )
    }

    /// The session after the active list was replaced: the first entry of
    /// the list on screen is selected, or nothing where that list is
    /// empty, and the first document of the active list is used.
    pub open spec fn reselected(self) -> (AppView, EffectView) {
        let first: Option<usize> = if self.shown_len() > 0 {
            Some(0)
        } else {
            None
        };
        let placed = AppView { list_state: self.list_state.with_selected(first), ..self };
        if self.notes.len() > 0 {
            placed.touched(0)
        } else {
            (placed, EffectView::Nothing)
        }
    }

    /// The session with every document in the active list, in policy order.
    pub open spec fn unfiltered(self) -> AppView {
        self.showing(self.all_notes).sorted()
    }

    /// The session after a search by title: with an empty query the active
    /// list holds every document in policy order, otherwise the documents
    /// whose title matches, best match first.
    pub open spec fn title_filtered(self) -> (AppView, EffectView) {
        (if self.searching() {
            self.showing(crate::search::title_hits(self.all_notes, self.search_query))
        } else {
            self.unfiltered()
        }).reselected()
    }

    /// The session after a search by tag.
    pub open spec fn tag_filtered(self) -> (AppView, EffectView) {
        (if self.searching() {
            self.showing(crate::search::tag_hits(self.all_notes, self.search_query))
        } else {
            self.unfiltered()
        }).reselected()
    }

    /// The session after a search by body, where `fetched[i]` is the body
    /// read for the document `all_notes[i]`.
    pub open spec fn content_filtered(self, fetched: Seq<Option<Seq<char>>>) -> (
        AppView,
        EffectView,
    ) {
        (if self.searching() {
            self.showing(
                crate::search::content_hits(self.all_notes, fetched, self.search_query),
            )
        } else {
            self.unfiltered()
        }).reselected()
    }

    /// The session after the documents under the root were read anew.
    pub open spec fn with_notes(self, entries: Seq<ScanEntryView>) -> (AppView, EffectView) {
        (AppView {
            all_notes: crate::data::scanned_notes(entries, self.base_path),
            ..self
        }).title_filtered()
    }
}

impl App {
    /// The files to read before the outcome is reported with
    /// [`App::update_content_search`]: one entry for every document of
    /// `all_notes`.
    pub fn bodies_to_read(&self) -> (r: Vec<Option<String>>)
        ensures
            crate::search::opt_texts(r@) == self@.bodies_to_read(),
    {
        let ghost wanted = self@.bodies_to_read();
        let mut out: Vec<Option<String>> = Vec::new();
        let mut i: usize = 0;
        while i < self.all_notes.len()
            invariant
                i <= self.all_notes.len(),
                wanted == self@.bodies_to_read(),
                crate::search::opt_texts(out@) == wanted.take(i as int),
            decreases self.all_notes.len() - i,
        {
            let n = &self.all_notes[i];
            let want = if n.content.is_none() {
                Some(n.path.clone())
            } else {
                None
            };
            assert(crate::search::opt_texts(out@.push(want)) =~= wanted.take(i as int).push(
                wanted[i as int],
            ));
            out.push(want);
            i = i + 1;
        }
        out
    }

    /// Selects and uses the first entry of the active list, or clears the
    /// selection where the list is empty.
    fn reselect(&mut self) -> (e: Effect)
        ensures
            (final(self)@, e@) == old(self)@.reselected(),
            final(self)@.selection_valid(),
    {
        if self.shown_len() > 0 {
            self.list_state.select(Some(0));
        } else {
            self.list_state.select(None);
        }
        if self.notes.len() > 0 {
            self.touch(0)
        } else {
            Effect::Nothing
        }
    }

    /// Puts every document in the active list, in policy order.
    fn show_all(&mut self)
        requires
            !old(self)@.searching(),
        ensures
            final(self)@ == old(self)@.unfiltered(),
    {
        let all = copy_notes(&self.all_notes);
        self.show(all);
        self.sort_notes();
    }

    /// Searches the titles for the current query and shows the result with
    /// its first entry selected. With an empty query every document is
    /// shown, in policy order.
    pub fn update_search(&mut self) -> (e: Effect)
        ensures
            (final(self)@, e@) == old(self)@.title_filtered(),
            final(self)@.selection_valid(),
    {
        if self.searching() {
            let hits = crate::search::search_titles(&self.all_notes, self.search_query.as_str());
            self.show(hits);
        } else {
            self.show_all();
        }
        self.reselect()
    }

    /// Searches the tags for the current query and shows the result with
    /// its first entry selected. With an empty query every document is
    /// shown, in policy order.
    pub fn update_tag_search(&mut self) -> (e: Effect)
        ensures
            (final(self)@, e@) == old(self)@.tag_filtered(),
            final(self)@.selection_valid(),
    {
        if self.searching() {
            let hits = crate::search::search_tags(&self.all_notes, self.search_query.as_str());
            self.show(hits);
        } else {
            self.show_all();
        }
        self.reselect()
    }

    /// Searches the bodies for the current query and shows the result with
    /// its first entry selected. `fetched[i]` is the body read for
    /// `all_notes[i]` where that document holds none. With an empty query
    /// every document is shown, in policy order.
    pub fn update_content_search(&mut self, fetched: &Vec<Option<String>>) -> (e: Effect)
        ensures
            (final(self)@, e@) == old(self)@.content_filtered(
                crate::search::opt_texts(fetched@),
            ),
            final(self)@.selection_valid(),
    {
        if self.searching() {
            let hits = crate::search::search_content(
                &self.all_notes,
                fetched,
                self.search_query.as_str(),
            );
            self.show(hits);
        } else {
            self.show_all();
        }
        self.reselect()
    }

    /// Takes a fresh walk of the root directory after something changed
    /// there: the documents are indexed anew and the titles searched again.
    pub fn notes_changed(&mut self, entries: &Vec<ScanEntry>) -> (e: Effect)
        ensures
            (final(self)@, e@) == old(self)@.with_notes(entry_views(entries@)),
            final(self)@.selection_valid(),
    {
        self.all_notes = crate::data::load_notes(self.base_path.as_str(), entries);
        self.update_search()
    }
}

} // verus!
