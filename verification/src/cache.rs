//! The body cache.
//!
//! The bodies of the documents in the active list are loaded when they are
//! used and dropped when too many others were used since. The recency queue
//! holds the positions of the documents used last; when the list changes,
//! the queue follows the documents, which are known by their paths.

use std::collections::VecDeque;
use vstd::prelude::*;
use crate::app::{App, AppView, Effect, EffectView};
use crate::data::{distinct_paths, note_views, opt_text, Note, NoteView};
use crate::text::same_str;

verus! {

/// The first place in `notes` of the document at `path`, if it is there.
pub open spec fn position_of(notes: Seq<NoteView>, path: Seq<char>) -> Option<usize>
    decreases notes.len(),
{
    if notes.len() == 0 {
        None
    } else {
        match position_of(notes.drop_last(), path) {
            Some(i) => Some(i),
            None => if notes.last().path == path {
                Some((notes.len() - 1) as usize)
            } else {
                None
            },
        }
    }
}

/// The recency queue carried over from one list to another: every position
/// gives way to the position of the same document in the new list, and a
/// document that the new list lacks leaves the queue. A document is known
/// by its path.
pub open spec fn requeued(queue: Seq<usize>, before: Seq<NoteView>, after: Seq<NoteView>) -> Seq<
    usize,
> {
    queue.filter_map(
        |i: usize|
            if i < before.len() {
                position_of(after, before[i as int].path)
            } else {
                None
            },
    )
}

/// What [`position_of`] finds is the first document with the path, and it
/// finds one whenever there is one.
pub proof fn position_is_first_with_path(notes: Seq<NoteView>, path: Seq<char>)
    requires
        notes.len() <= usize::MAX,
    ensures
        match position_of(notes, path) {
            Some(i) => i < notes.len() && notes[i as int].path == path && forall|j: int|
                0 <= j < i ==> (#[trigger] notes[j]).path != path,
            None => forall|j: int| 0 <= j < notes.len() ==> (#[trigger] notes[j]).path != path,
        },
    decreases notes.len(),
{
    if notes.len() > 0 {
        let rest = notes.drop_last();
        position_is_first_with_path(rest, path);
        match position_of(rest, path) {
            Some(i) => {
                assert(rest[i as int] == notes[i as int]);
                assert forall|j: int| 0 <= j < i implies (#[trigger] notes[j]).path != path by {
                    assert(rest[j] == notes[j]);
                }
            },
            None => {
                assert forall|j: int| 0 <= j < notes.len() - 1 implies (#[trigger] notes[j]).path
                    != path by {
                    assert(rest[j] == notes[j]);
                }
            },
        }
    }
}

/// A queue carried over to another list points only at documents that it
/// pointed at before: every position in it holds a document whose path a
/// position of the old queue held in the old list.
pub proof fn requeued_follows_the_documents(
    queue: Seq<usize>,
    before: Seq<NoteView>,
    after: Seq<NoteView>,
    x: usize,
)
    requires
        after.len() <= usize::MAX,
        requeued(queue, before, after).contains(x),
    ensures
        x < after.len(),
        exists|i: usize|
            queue.contains(i) && i < before.len() && #[trigger] before[i as int].path
                == after[x as int].path,
{
    let place = |i: usize|
        if i < before.len() {
            position_of(after, before[i as int].path)
        } else {
            None
        };
    queue.lemma_filter_map_contains(place, x);
    let i = choose|i: usize| #[trigger] queue.contains(i) && place(i) == Some(x);
    position_is_first_with_path(after, before[i as int].path);
    assert(before[i as int].path == after[x as int].path);
}

/// Finds the first document with the given path.
pub fn find_note(notes: &Vec<Note>, path: &str) -> (r: Option<usize>)
    ensures
        r == position_of(note_views(notes@), path@),
{
    let ghost all = note_views(notes@);
    let mut i: usize = 0;
    while i < notes.len()
        invariant
            i <= notes.len(),
            all == note_views(notes@),
            forall|j: int| 0 <= j < i ==> (#[trigger] all[j]).path != path@,
        decreases notes.len() - i,
    {
        if same_str(notes[i].path.as_str(), path) {
            proof {
                position_is_first_with_path(all, path@);
                assert(all[i as int].path == path@);
            }
            return Some(i);
        }
        i = i + 1;
    }
    proof {
        position_is_first_with_path(all, path@);
    }
    None
}

/// Carries the recency queue over from one list to another.
fn requeue(queue: &VecDeque<usize>, before: &Vec<Note>, after: &Vec<Note>) -> (r: VecDeque<usize>)
    ensures
        r@ == requeued(queue@, note_views(before@), note_views(after@)),
{
    let ghost old_notes = note_views(before@);
    let ghost new_notes = note_views(after@);
    let ghost place = |i: usize|
        if i < old_notes.len() {
            position_of(new_notes, old_notes[i as int].path)
        } else {
            None
        };
    let mut out: VecDeque<usize> = VecDeque::new();
    let mut k: usize = 0;
    while k < queue.len()
        invariant
            k <= queue.len(),
            old_notes == note_views(before@),
            new_notes == note_views(after@),
            place == |i: usize|
                if i < old_notes.len() {
                    position_of(new_notes, old_notes[i as int].path)
                } else {
                    None
                },
            out@ == queue@.take(k as int).filter_map(place),
        decreases queue.len() - k,
    {
        let i = queue[k];
        proof {
            queue@.lemma_filter_map_take_succ(place, k as int);
        }
        if i < before.len() {
            match find_note(after, before[i].path.as_str()) {
                Some(j) => {
                    out.push_back(j);
                },
                None => {},
            }
        }
        k = k + 1;
    }
    assert(queue@.take(queue.len() as int) == queue@);
    out
}

/// A document with another body.
pub open spec fn with_content(n: NoteView, content: Option<Seq<char>>) -> NoteView {
    NoteView { content, ..n }
}

/// Whether two positions differ.
pub open spec fn differs(i: usize, index: usize) -> bool {
    i != index
}

/// The recency queue without `index`.
pub open spec fn without(queue: Seq<usize>, index: usize) -> Seq<usize> {
    queue.filter(|i: usize| differs(i, index))
}

impl AppView {
    /// The session with another active list: the recency queue follows the
    /// documents to their new positions.
    pub open spec fn showing(self, notes: Seq<NoteView>) -> AppView {
        AppView {
            notes,
            recent_indices: requeued(self.recent_indices, self.notes, notes),
            ..self
        }
    }

    /// The session after the body of `notes[index]` was asked for, where
    /// `fetched` is what reading the file gave.
    ///
    /// Nothing changes where `index` is out of range, or where the document
    /// holds no body and none could be read. Otherwise the document holds
    /// its body and becomes the most recently used. Where the queue then
    /// exceeds the capacity, its oldest entry leaves it and loses its body,
    /// unless it is the selected document. Which document is selected is a
    /// matter of its path, not of its place in a list.
    pub open spec fn with_loaded(self, index: usize, fetched: Option<Seq<char>>) -> AppView {
        if index >= self.notes.len() {
            self
        } else if self.notes[index as int].content is None && fetched is None {
            self
        } else {
            let body = match self.notes[index as int].content {
                Some(c) => Some(c),
                None => fetched,
            };
            let notes = self.notes.update(index as int, with_content(self.notes[index as int], body));
            let queue = without(self.recent_indices, index).push(index);
            if queue.len() > self.cache_capacity {
                let oldest = queue[0];
                let rest = queue.drop_first();
                let evict = oldest < notes.len() && !rest.contains(oldest) && Some(
                    notes[oldest as int].path,
                ) != self.selected_document();
                AppView {
                    notes: if evict {
                        notes.update(oldest as int, with_content(notes[oldest as int], None))
                    } else {
                        notes
                    },
                    recent_indices: rest,
                    ..self
                }
            } else {
                AppView { notes, recent_indices: queue, ..self }
            }
        }
    }

    /// The session after `notes[index]` was used: where its body is missing
    /// the caller is asked to read it, otherwise the document becomes the
    /// most recently used at once.
    pub open spec fn touched(self, index: usize) -> (AppView, EffectView) {
        if index < self.notes.len() && self.notes[index as int].content is None {
            (self, EffectView::LoadNote(index))
        } else {
            (self.with_loaded(index, None), EffectView::Nothing)
        }
    }

    /// The file to read before [`App::load_note_content`] is called for
    /// `notes[index]`: the document's, where it holds no body.
    pub open spec fn note_to_read(self, index: usize) -> Option<Seq<char>> {
        if index < self.notes.len() && self.notes[index as int].content is None {
            Some(self.notes[index as int].path)
        } else {
            None
        }
    }

    /// The session after the bodies of the documents at `indices` were
    /// loaded one after the other, `bodies[k]` being the text read for
    /// `indices[k]`.
    pub open spec fn after_loads(self, indices: Seq<usize>, bodies: Seq<Seq<char>>) -> AppView
        decreases indices.len(),
    {
        if indices.len() == 0 {
            self
        } else {
            self.after_loads(indices.drop_last(), bodies.drop_last()).with_loaded(
                indices.last(),
                Some(bodies.last()),
            )
        }
    }
}

/// Gives `notes[index]` another body.
fn set_body(notes: &mut Vec<Note>, index: usize, body: Option<String>)
    requires
        index < old(notes).len(),
    ensures
        note_views(final(notes)@) == note_views(old(notes)@).update(
            index as int,
            with_content(old(notes)@[index as int]@, opt_text(body)),
        ),
        final(notes).len() == old(notes).len(),
{
    notes[index].content = body;
}

/// The queue without `index`.
fn queue_without(queue: &VecDeque<usize>, index: usize) -> (r: VecDeque<usize>)
    ensures
        r@ == without(queue@, index),
{
    let ghost keep = |i: usize| differs(i, index);
    let mut out: VecDeque<usize> = VecDeque::new();
    let mut k: usize = 0;
    while k < queue.len()
        invariant
            k <= queue.len(),
            keep == |i: usize| differs(i, index),
            out@ == queue@.take(k as int).filter(keep),
        decreases queue.len() - k,
    {
        let i = queue[k];
        proof {
            assert(queue@.take(k + 1) =~= queue@.take(k as int).push(i));
            queue@.take(k as int).lemma_filter_push(i, keep);
        }
        if i != index {
            out.push_back(i);
        }
        k = k + 1;
    }
    assert(queue@.take(queue.len() as int) == queue@);
    out
}

/// Tests whether the queue holds `index`.
fn queue_contains(queue: &VecDeque<usize>, index: usize) -> (r: bool)
    ensures
        r == queue@.contains(index),
{
    let mut k: usize = 0;
    while k < queue.len()
        invariant
            k <= queue.len(),
            forall|j: int| 0 <= j < k ==> queue@[j] != index,
        decreases queue.len() - k,
    {
        if queue[k] == index {
            return true;
        }
        k = k + 1;
    }
    false
}

impl App {
    /// Replaces the active list and carries the recency queue over to it.
    pub(crate) fn show(&mut self, notes: Vec<Note>)
        ensures
            final(self)@ == old(self)@.showing(note_views(notes@)),
    {
        self.recent_indices = requeue(&self.recent_indices, &self.notes, &notes);
        self.notes = notes;
    }

    /// Takes the outcome of reading the body of `notes[index]`: `fetched` is
    /// the text that was read, or none where the document already holds its
    /// body or the file could not be read.
    ///
    /// A document that holds its body, or gets one now, becomes the most
    /// recently used. Where more documents than the cache's capacity were
    /// used, the least recently used one loses its body, unless it is
    /// selected. Where the document holds no body and none was read,
    /// nothing changes.
    pub fn load_note_content(&mut self, index: usize, fetched: Option<String>)
        ensures
            final(self)@ == old(self)@.with_loaded(index, opt_text(fetched)),
    {
        if index >= self.notes.len() {
            return ;
        }
        let selected = self.selected_document();
        if self.notes[index].content.is_none() {
            match fetched {
                Some(body) => {
                    set_body(&mut self.notes, index, Some(body));
                },
                None => {
                    return ;
                },
            }
        }
        let mut queue = queue_without(&self.recent_indices, index);
        queue.push_back(index);
        if queue.len() > self.cache_capacity {
            let oldest = queue.pop_front().unwrap();
            if oldest < self.notes.len() && !queue_contains(&queue, oldest) {
                let pinned = match &selected {
                    Some(p) => same_str(p.as_str(), self.notes[oldest].path.as_str()),
                    None => false,
                };
                if !pinned {
                    set_body(&mut self.notes, oldest, None);
                }
            }
        }
        self.recent_indices = queue;
    }

    /// Uses `notes[index]`: asks for its body where it is missing, and makes
    /// the document the most recently used otherwise.
    pub fn touch(&mut self, index: usize) -> (e: Effect)
        ensures
            (final(self)@, e@) == old(self)@.touched(index),
    {
        if index < self.notes.len() && self.notes[index].content.is_none() {
            Effect::LoadNote(index)
        } else {
            self.load_note_content(index, None);
            Effect::Nothing
        }
    }

    /// The file to read before the outcome is reported with
    /// [`App::load_note_content`], if any.
    pub fn note_to_read(&self, index: usize) -> (r: Option<String>)
        ensures
            opt_text(r) == self@.note_to_read(index),
    {
        if index < self.notes.len() && self.notes[index].content.is_none() {
            Some(self.notes[index].path.clone())
        } else {
            None
        }
    }
}

/// Taking an absent position out of the queue changes nothing.
proof fn without_absent(queue: Seq<usize>, index: usize)
    requires
        !queue.contains(index),
    ensures
        without(queue, index) == queue,
    decreases queue.len(),
{
    let keep = |i: usize| differs(i, index);
    if queue.len() == 0 {
        assert(queue.filter(keep).len() <= queue.len()) by {
            queue.lemma_filter_len(keep);
        }
        assert(queue.filter(keep) =~= queue);
    } else {
        let rest = queue.drop_last();
        assert(queue =~= rest.push(queue.last()));
        assert forall|x: usize| rest.contains(x) implies queue.contains(x) by {
            let k = choose|k: int| 0 <= k < rest.len() && rest[k] == x;
            assert(queue[k] == x);
        }
        assert(queue.contains(queue.last()));
        without_absent(rest, index);
        rest.lemma_filter_push(queue.last(), keep);
    }
}

/// The state of the cache while distinct documents are loaded into an
/// empty cache, after the first `m` of them.
proof fn loads_fill_then_evict(s: AppView, indices: Seq<usize>, bodies: Seq<Seq<char>>, m: int)
    requires
        s.recent_indices.len() == 0,
        1 <= s.cache_capacity,
        indices.len() == bodies.len(),
        indices.no_duplicates(),
        forall|k: int| 0 <= k < indices.len() ==> #[trigger] indices[k] < s.notes.len(),
        0 <= m <= indices.len(),
        forall|k: int|
            0 <= k < indices.len() - s.cache_capacity ==> Some(
                s.notes[#[trigger] indices[k] as int].path,
            ) != s.selected_document(),
    ensures
        ({
            let t = s.after_loads(indices.take(m), bodies.take(m));
            let lo = if m > s.cache_capacity {
                m - s.cache_capacity
            } else {
                0
            };
            &&& t.recent_indices == indices.subrange(lo, m)
            &&& t.notes.len() == s.notes.len()
            &&& t.list_state == s.list_state
            &&& t.fs_items == s.fs_items
            &&& t.search_query == s.search_query
            &&& t.cache_capacity == s.cache_capacity
            &&& forall|j: int| 0 <= j < s.notes.len() ==> (#[trigger] t.notes[j]).path == s.notes[j].path
            &&& forall|k: int| 0 <= k < lo ==> t.notes[#[trigger] indices[k] as int].content is None
            &&& forall|k: int| lo <= k < m ==> t.notes[#[trigger] indices[k] as int].content is Some
            &&& forall|j: usize|
                j < s.notes.len() && !indices.take(m).contains(j) ==> #[trigger] t.notes[j as int]
                    == s.notes[j as int]
        }),
    decreases m,
{
    let c = s.cache_capacity as int;
    if m == 0 {
        assert(indices.take(0) =~= Seq::<usize>::empty());
        assert(s.recent_indices =~= indices.subrange(0, 0));
    } else {
        loads_fill_then_evict(s, indices, bodies, m - 1);
        let before = indices.take(m - 1);
        let t = s.after_loads(before, bodies.take(m - 1));
        let d = indices[m - 1];
        assert(indices.take(m).drop_last() =~= before);
        assert(bodies.take(m).drop_last() =~= bodies.take(m - 1));
        assert(indices.take(m).last() == d);
        let u = t.with_loaded(d, Some(bodies.take(m).last()));
        assert(u == s.after_loads(indices.take(m), bodies.take(m)));
        let lo = if m - 1 > c {
            m - 1 - c
        } else {
            0
        };
        let queue0 = indices.subrange(lo, m - 1);
        assert(!queue0.contains(d)) by {
            if queue0.contains(d) {
                let k = choose|k: int| 0 <= k < queue0.len() && queue0[k] == d;
                assert(indices[lo + k] == indices[m - 1]);
            }
        }
        without_absent(queue0, d);
        let queue = queue0.push(d);
        assert(queue =~= indices.subrange(lo, m));
        let body = match t.notes[d as int].content {
            Some(x) => Some(x),
            None => Some(bodies.take(m).last()),
        };
        let notes1 = t.notes.update(d as int, with_content(t.notes[d as int], body));
        let hi = if m > c {
            m - c
        } else {
            0
        };
        if queue.len() > c {
            assert(lo == m - 1 - c);
            let oldest = queue[0];
            assert(oldest == indices[lo]);
            let rest = queue.drop_first();
            assert(rest =~= indices.subrange(lo + 1, m));
            assert(!rest.contains(oldest)) by {
                if rest.contains(oldest) {
                    let k = choose|k: int| 0 <= k < rest.len() && rest[k] == oldest;
                    assert(indices[lo + 1 + k] == indices[lo]);
                }
            }
            assert(oldest != d);
            assert(t.selected_document() == s.selected_document());
            assert(notes1[oldest as int].path == s.notes[indices[lo] as int].path);
            let notes2 = notes1.update(oldest as int, with_content(notes1[oldest as int], None));
            assert(u.notes == notes2);
            assert(u.recent_indices == rest);
            assert forall|k: int| 0 <= k < hi implies u.notes[#[trigger] indices[k] as int].content
                is None by {
                if k < lo {
                    assert(indices[k] != d);
                    assert(indices[k] != oldest);
                }
            }
            assert forall|k: int| hi <= k < m implies u.notes[#[trigger] indices[k] as int].content
                is Some by {
                if k < m - 1 {
                    assert(indices[k] != d);
                    assert(indices[k] != oldest);
                }
            }
            assert forall|j: usize|
                j < s.notes.len() && !indices.take(m).contains(j) implies #[trigger] u.notes[j as int]
                == s.notes[j as int] by {
                assert(indices.take(m)[m - 1] == d);
                assert(indices.take(m)[lo] == oldest);
                if before.contains(j) {
                    let k = choose|k: int| 0 <= k < before.len() && before[k] == j;
                    assert(indices.take(m)[k] == j);
                }
            }
        } else {
            assert(lo == 0);
            assert(u.notes == notes1);
            assert(u.recent_indices == queue);
            assert forall|k: int| hi <= k < m implies u.notes[#[trigger] indices[k] as int].content
                is Some by {
                if k < m - 1 {
                    assert(indices[k] != d);
                }
            }
            assert forall|j: usize|
                j < s.notes.len() && !indices.take(m).contains(j) implies #[trigger] u.notes[j as int]
                == s.notes[j as int] by {
                assert(indices.take(m)[m - 1] == d);
                if before.contains(j) {
                    let k = choose|k: int| 0 <= k < before.len() && before[k] == j;
                    assert(indices.take(m)[k] == j);
                }
            }
        }
    }
}

/// Loading more distinct documents than the cache holds, into an empty
/// cache and with the last of them selected, leaves exactly the most
/// recently loaded ones with a body: as many as the capacity says, the
/// selected one among them. Every document loaded before them has lost its
/// body, and no other document is touched. The list is a valid one: its
/// documents have distinct paths.
pub proof fn least_recently_used_are_evicted(
    s: AppView,
    indices: Seq<usize>,
    bodies: Seq<Seq<char>>,
)
    requires
        s.recent_indices.len() == 0,
        1 <= s.cache_capacity < indices.len(),
        indices.len() == bodies.len(),
        indices.no_duplicates(),
        forall|k: int| 0 <= k < indices.len() ==> #[trigger] indices[k] < s.notes.len(),
        distinct_paths(s.notes),
        s.selected_document() == Some(s.notes[indices.last() as int].path),
    ensures
        ({
            let t = s.after_loads(indices, bodies);
            let kept = indices.len() - s.cache_capacity;
            &&& t.recent_indices == indices.skip(kept)
            &&& t.recent_indices.len() == s.cache_capacity
            &&& t.notes.len() == s.notes.len()
            &&& forall|k: int| 0 <= k < kept ==> t.notes[#[trigger] indices[k] as int].content is None
            &&& forall|k: int|
                kept <= k < indices.len() ==> t.notes[#[trigger] indices[k] as int].content is Some
            &&& forall|j: usize|
                j < s.notes.len() && !indices.contains(j) ==> #[trigger] t.notes[j as int]
                    == s.notes[j as int]
        }),
{
    let n = indices.len() as int;
    assert(indices.take(n) =~= indices);
    assert(bodies.take(n) =~= bodies);
    assert forall|k: int| 0 <= k < n - s.cache_capacity implies Some(
        s.notes[#[trigger] indices[k] as int].path,
    ) != s.selected_document() by {
        let a = indices[k] as int;
        let b = indices[n - 1] as int;
        assert(a != b);
        if a < b {
            assert(s.notes[a].path != s.notes[b].path);
        } else {
            assert(s.notes[b].path != s.notes[a].path);
        }
    }
    loads_fill_then_evict(s, indices, bodies, n);
    assert(indices.subrange(n - s.cache_capacity, n) =~= indices.skip(n - s.cache_capacity));
}

/// While a search is active the selection points into the active list,
/// and the selected document is the one at the selected place.
pub proof fn selection_names_its_document(s: AppView, index: usize)
    requires
        s.searching(),
        s.list_state.selected == Some(index),
        index < s.notes.len(),
    ensures
        s.selected_document() == Some(s.notes[index as int].path),
{
}

} // verus!
