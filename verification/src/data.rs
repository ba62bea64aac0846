//! The document index: records for the text documents and folders found
//! under a root directory.
//!
//! Walking the directory and reading files is the caller's part. It hands
//! over one [`ScanEntry`] for each entry it met, and the functions here
//! decide which of them are documents, build their records and put them in
//! order.

use vstd::prelude::*;
use vstd::string::StringExecFns;
use crate::order::{key_views, ranked, stable_order, positions, is_ranking, ranking};
use crate::paths::{
    hidden_below, is_hidden_below, is_note_path, is_same_path, names_document, same_path,
    segments, title_of, title_text,
};
use crate::text::{chars_of, trim, trimmed};

verus! {

/// What the file system reports about a file.
#[derive(Debug, Clone, Copy, PartialEq, Eq)]
pub struct FileMeta {
    /// Size in bytes.
    pub size: u64,
    /// Time of the last modification, in nanoseconds since the Unix epoch.
    pub modified: i128,
}

/// A text document.
#[derive(Debug, Clone, PartialEq)]
pub struct Note {
    /// Where the document lies; this identifies it.
    pub path: String,
    /// Path relative to the root, without the extension.
    pub title: String,
    /// The body, once it has been loaded.
    pub content: Option<String>,
    /// Time of the last modification, in nanoseconds since the Unix epoch.
    pub last_modified: i128,
    /// Size in bytes.
    pub size: u64,
    /// Tags from the metadata header.
    pub tags: Vec<String>,
}

/// The mathematical content of a [`Note`].
#[verifier::ext_equal]
pub struct NoteView {
    pub path: Seq<char>,
    pub title: Seq<char>,
    pub content: Option<Seq<char>>,
    pub last_modified: i128,
    pub size: u64,
    pub tags: Seq<Seq<char>>,
}

/// The texts of a list of strings.
pub open spec fn texts(v: Seq<String>) -> Seq<Seq<char>> {
    v.map_values(|s: String| s@)
}

/// The text of an optional string.
pub open spec fn opt_text(s: Option<String>) -> Option<Seq<char>> {
    match s {
        Some(t) => Some(t@),
        None => None,
    }
}

impl View for Note {
    type V = NoteView;

    open spec fn view(&self) -> NoteView {
        NoteView {
            path: self.path@,
            title: self.title@,
            content: opt_text(self.content),
            last_modified: self.last_modified,
            size: self.size,
            tags: texts(self.tags@),
        }
    }
}

/// The contents of a list of documents.
pub open spec fn note_views(v: Seq<Note>) -> Seq<NoteView> {
    v.map_values(|n: Note| n@)
}

/// Whether every document of the list has a path of its own. A document is
/// known by its path, so a list of documents never holds two with the same.
pub open spec fn distinct_paths(notes: Seq<NoteView>) -> bool {
    forall|i: int, j: int|
        0 <= i < j < notes.len() ==> (#[trigger] notes[i]).path != (#[trigger] notes[j]).path
}

/// An entry of a directory listing.
#[derive(Debug, Clone, PartialEq)]
pub enum FileSystemItem {
    Note(Note),
    Folder(String),
}

/// The mathematical content of a [`FileSystemItem`].
#[verifier::ext_equal]
pub enum ItemView {
    Note(NoteView),
    Folder(Seq<char>),
}

impl View for FileSystemItem {
    type V = ItemView;

    open spec fn view(&self) -> ItemView {
        match self {
            FileSystemItem::Note(n) => ItemView::Note(n@),
            FileSystemItem::Folder(p) => ItemView::Folder(p@),
        }
    }
}

impl ItemView {
    /// The path of the entry.
    pub open spec fn path(self) -> Seq<char> {
        match self {
            ItemView::Note(n) => n.path,
            ItemView::Folder(p) => p,
        }
    }
}

/// The contents of a list of directory entries.
pub open spec fn item_views(v: Seq<FileSystemItem>) -> Seq<ItemView> {
    v.map_values(|i: FileSystemItem| i@)
}

/// A copy of a list of strings.
pub fn copy_texts(v: &Vec<String>) -> (r: Vec<String>)
    ensures
        texts(r@) == texts(v@),
{
    let mut out: Vec<String> = Vec::new();
    let mut i: usize = 0;
    while i < v.len()
        invariant
            i <= v.len(),
            texts(out@) == texts(v@).take(i as int),
        decreases v.len() - i,
    {
        let s = v[i].clone();
        assert(texts(out@.push(s)) =~= texts(out@).push(s@));
        out.push(s);
        i = i + 1;
    }
    out
}

/// A copy of an optional string.
pub fn copy_opt_text(s: &Option<String>) -> (r: Option<String>)
    ensures
        opt_text(r) == opt_text(*s),
{
    match s {
        Some(t) => Some(t.clone()),
        None => None,
    }
}

impl Note {
    /// What [`Note::from_path`] builds.
    pub open spec fn at_path(
        path: Seq<char>,
        root: Seq<char>,
        meta: FileMeta,
        tags: Seq<Seq<char>>,
    ) -> NoteView {
        NoteView {
            path,
            title: title_text(path, root),
            content: None,
            last_modified: meta.modified,
            size: meta.size,
            tags,
        }
    }

    /// The record of the document at `path` under `root`, with the given
    /// file facts and tags. The title is the path relative to the root with
    /// the extension removed; the body is not loaded.
    pub fn from_path(path: String, root: &str, meta: FileMeta, tags: Vec<String>) -> (r: Note)
        ensures
            r@ == Note::at_path(path@, root@, meta, texts(tags@)),
    {
        let title = title_of(path.as_str(), root);
        Note { path, title, content: None, last_modified: meta.modified, size: meta.size, tags }
    }

    /// A copy of the record.
    pub fn duplicate(&self) -> (r: Note)
        ensures
            r@ == self@,
    {
        Note {
            path: self.path.clone(),
            title: self.title.clone(),
            content: copy_opt_text(&self.content),
            last_modified: self.last_modified,
            size: self.size,
            tags: copy_texts(&self.tags),
        }
    }
}

impl FileSystemItem {
    /// A copy of the entry.
    pub fn duplicate(&self) -> (r: FileSystemItem)
        ensures
            r@ == self@,
    {
        match self {
            FileSystemItem::Note(n) => FileSystemItem::Note(n.duplicate()),
            FileSystemItem::Folder(p) => FileSystemItem::Folder(p.clone()),
        }
    }
}

/// A copy of a list of documents.
pub fn copy_notes(v: &Vec<Note>) -> (r: Vec<Note>)
    ensures
        note_views(r@) == note_views(v@),
{
    let mut out: Vec<Note> = Vec::new();
    let mut i: usize = 0;
    while i < v.len()
        invariant
            i <= v.len(),
            note_views(out@) == note_views(v@).take(i as int),
        decreases v.len() - i,
    {
        let n = v[i].duplicate();
        assert(note_views(out@.push(n)) =~= note_views(out@).push(n@));
        out.push(n);
        i = i + 1;
    }
    out
}

/// The key that places larger numbers first: `-1 - x`, which reverses the
/// order of the integers without leaving their range.
pub open spec fn reversed(x: int) -> i128 {
    (-1 - x) as i128
}

/// Computes [`reversed`].
pub fn reverse_key(x: i128) -> (r: i128)
    ensures
        r == reversed(x as int),
{
    -1 - x
}

/// The code points of a text, the key that orders texts as strings are
/// ordered.
pub open spec fn codes(s: Seq<char>) -> Seq<i128> {
    s.map_values(|c: char| (c as int) as i128)
}

/// Computes [`codes`].
pub fn codes_of(v: &Vec<char>) -> (r: Vec<i128>)
    ensures
        r@ == codes(v@),
{
    let mut out: Vec<i128> = Vec::new();
    let mut i: usize = 0;
    while i < v.len()
        invariant
            i <= v.len(),
            out@ == codes(v@.take(i as int)),
        decreases v.len() - i,
    {
        let c = crate::text::code_point(v[i]);
        out.push(c);
        i = i + 1;
    }
    out
}

/// The key that orders paths name by name: each character counts as its code
/// point plus one and each separator as zero, so that a name always comes
/// before any longer name it begins.
pub open spec fn path_codes(p: Seq<char>) -> Seq<i128> {
    crate::paths::joined(segments(p)).map_values(
        |c: char|
            if c == '/' {
                0i128
            } else {
                (c as int + 1) as i128
            },
    )
}

/// Computes [`path_codes`].
pub fn path_codes_of(p: &str) -> (r: Vec<i128>)
    ensures
        r@ == path_codes(p@),
{
    let names = crate::paths::split(&chars_of(p));
    let v = crate::paths::join_names(false, &names);
    let mut out: Vec<i128> = Vec::new();
    let mut i: usize = 0;
    while i < v.len()
        invariant
            i <= v.len(),
            v@ == crate::paths::joined(segments(p@)),
            out@ == v@.take(i as int).map_values(
                |c: char|
                    if c == '/' {
                        0i128
                    } else {
                        (c as int + 1) as i128
                    },
            ),
        decreases v.len() - i,
    {
        let c = v[i];
        let k: i128 = if c == '/' {
            0
        } else {
            crate::text::code_point(c) + 1
        };
        out.push(k);
        i = i + 1;
    }
    out
}

/// Key of the order by modification time, newest first.
pub open spec fn newest_first(n: NoteView) -> Seq<i128> {
    seq![reversed(n.last_modified as int)]
}

/// Key of the order by size, largest first.
pub open spec fn largest_first(n: NoteView) -> Seq<i128> {
    seq![reversed(n.size as int)]
}

/// Key of the order by title, ignoring case.
pub open spec fn by_name(n: NoteView) -> Seq<i128> {
    codes(crate::text::lowercased(n.title))
}

/// The documents `source[order[0]], source[order[1]], ...`.
pub(crate) fn pick_notes(source: &Vec<Note>, order: &Vec<usize>) -> (r: Vec<Note>)
    requires
        forall|k: int| 0 <= k < order.len() ==> #[trigger] order@[k] < source.len(),
    ensures
        note_views(r@) == positions(order@).map_values(|i: int| note_views(source@)[i]),
{
    let mut out: Vec<Note> = Vec::new();
    let mut k: usize = 0;
    while k < order.len()
        invariant
            k <= order.len(),
            forall|k: int| 0 <= k < order.len() ==> #[trigger] order@[k] < source.len(),
            note_views(out@) == positions(order@).take(k as int).map_values(
                |i: int| note_views(source@)[i],
            ),
        decreases order.len() - k,
    {
        let n = source[order[k]].duplicate();
        assert(note_views(out@.push(n)) =~= note_views(out@).push(n@));
        out.push(n);
        k = k + 1;
    }
    out
}

/// The entries `source[order[0]], source[order[1]], ...`.
pub(crate) fn pick_items(source: &Vec<FileSystemItem>, order: &Vec<usize>) -> (r: Vec<FileSystemItem>)
    requires
        forall|k: int| 0 <= k < order.len() ==> #[trigger] order@[k] < source.len(),
    ensures
        item_views(r@) == positions(order@).map_values(|i: int| item_views(source@)[i]),
{
    let mut out: Vec<FileSystemItem> = Vec::new();
    let mut k: usize = 0;
    while k < order.len()
        invariant
            k <= order.len(),
            forall|k: int| 0 <= k < order.len() ==> #[trigger] order@[k] < source.len(),
            item_views(out@) == positions(order@).take(k as int).map_values(
                |i: int| item_views(source@)[i],
            ),
        decreases order.len() - k,
    {
        let n = source[order[k]].duplicate();
        assert(item_views(out@.push(n)) =~= item_views(out@).push(n@));
        out.push(n);
        k = k + 1;
    }
    out
}

/// The documents of `source` that have a key, smallest key first and equal
/// keys in the order in which they stood.
pub(crate) fn order_notes(source: &Vec<Note>, keys: &Vec<Option<Vec<i128>>>) -> (r: Vec<Note>)
    requires
        keys.len() == source.len(),
    ensures
        note_views(r@) == ranked(note_views(source@), key_views(keys@)),
        is_ranking(ranking(key_views(keys@)), key_views(keys@)),
        r.len() == ranking(key_views(keys@)).len(),
{
    let order = stable_order(keys);
    assert forall|k: int| 0 <= k < order.len() implies #[trigger] order@[k] < source.len() by {
        assert(positions(order@)[k] == order@[k]);
    }
    let r = pick_notes(source, &order);
    assert(note_views(r@).len() == positions(order@).len());
    r
}

/// The entries of `source` that have a key, smallest key first and equal
/// keys in the order in which they stood.
pub(crate) fn order_items(source: &Vec<FileSystemItem>, keys: &Vec<Option<Vec<i128>>>) -> (r: Vec<
    FileSystemItem,
>)
    requires
        keys.len() == source.len(),
    ensures
        item_views(r@) == ranked(item_views(source@), key_views(keys@)),
        is_ranking(ranking(key_views(keys@)), key_views(keys@)),
        r.len() == ranking(key_views(keys@)).len(),
{
    let order = stable_order(keys);
    assert forall|k: int| 0 <= k < order.len() implies #[trigger] order@[k] < source.len() by {
        assert(positions(order@)[k] == order@[k]);
    }
    let r = pick_items(source, &order);
    assert(item_views(r@).len() == positions(order@).len());
    r
}

/// What kind of entry a walk of the directory met.
#[derive(Debug, Clone, Copy, PartialEq, Eq)]
pub enum EntryKind {
    File,
    Dir,
    Other,
}

/// One entry met while walking the root directory.
#[derive(Debug, Clone, PartialEq)]
pub struct ScanEntry {
    /// The path of the entry.
    pub path: String,
    /// Its kind.
    pub kind: EntryKind,
    /// The file facts, where they could be read.
    pub meta: Option<FileMeta>,
    /// The tags found in the metadata header, if any.
    pub tags: Vec<String>,
}

/// The mathematical content of a [`ScanEntry`].
#[verifier::ext_equal]
pub struct ScanEntryView {
    pub path: Seq<char>,
    pub kind: EntryKind,
    pub meta: Option<FileMeta>,
    pub tags: Seq<Seq<char>>,
}

impl View for ScanEntry {
    type V = ScanEntryView;

    open spec fn view(&self) -> ScanEntryView {
        ScanEntryView { path: self.path@, kind: self.kind, meta: self.meta, tags: texts(self.tags@) }
    }
}

/// The contents of a list of scanned entries.
pub open spec fn entry_views(v: Seq<ScanEntry>) -> Seq<ScanEntryView> {
    v.map_values(|e: ScanEntry| e@)
}

/// The document that an entry stands for: a file with the document
/// extension whose facts could be read, unless it is hidden below the
/// root.
pub open spec fn indexed_note(e: ScanEntryView, root: Seq<char>) -> Option<NoteView> {
    if e.kind == EntryKind::File && names_document(e.path) && e.meta is Some && !hidden_below(
        e.path,
        root,
    ) {
        Some(Note::at_path(e.path, root, e.meta->0, e.tags))
    } else {
        None
    }
}

/// The documents among the entries, in the order of the walk.
pub open spec fn indexed_notes(entries: Seq<ScanEntryView>, root: Seq<char>) -> Seq<NoteView> {
    entries.filter_map(|e: ScanEntryView| indexed_note(e, root))
}

/// The documents among the entries, newest first; documents modified at the
/// same instant stay in the order of the walk.
pub open spec fn scanned_notes(entries: Seq<ScanEntryView>, root: Seq<char>) -> Seq<NoteView> {
    let found = indexed_notes(entries, root);
    ranked(found, found.map_values(|n: NoteView| Some(newest_first(n))))
}

/// Every document of the index stands for a file that the walk found, with
/// the document extension and with readable facts, and shows what the walk
/// reported of it. No document of the index is hidden: none of its names
/// below the root begins with a dot.
pub proof fn indexed_notes_come_from_the_walk(entries: Seq<ScanEntryView>, root: Seq<char>, k: int)
    requires
        0 <= k < scanned_notes(entries, root).len(),
    ensures
        exists|e: ScanEntryView| #[trigger]
            entries.contains(e) && indexed_note(e, root) == Some(scanned_notes(entries, root)[k]),
        names_document(scanned_notes(entries, root)[k].path),
        !hidden_below(scanned_notes(entries, root)[k].path, root),
        scanned_notes(entries, root)[k].title == title_text(
            scanned_notes(entries, root)[k].path,
            root,
        ),
        scanned_notes(entries, root)[k].content is None,
{
    let pick = |e: ScanEntryView| indexed_note(e, root);
    let found = entries.filter_map(pick);
    let keys = found.map_values(|n: NoteView| Some(newest_first(n)));
    let note = scanned_notes(entries, root)[k];
    crate::order::ranking_lists_the_keyed(keys);
    let at = ranking(keys)[k];
    assert(note == found[at]);
    assert(found.contains(note));
    entries.lemma_filter_map_contains(pick, note);
    let e = choose|e: ScanEntryView| #[trigger] entries.contains(e) && pick(e) == Some(note);
    assert(entries.contains(e) && indexed_note(e, root) == Some(note));
}

/// Whether a walk reported every path once.
pub open spec fn walked_once(entries: Seq<ScanEntryView>) -> bool {
    forall|i: int, j: int|
        0 <= i < j < entries.len() ==> (#[trigger] entries[i]).path != (#[trigger] entries[j]).path
}

/// Putting documents in order keeps their paths distinct.
pub proof fn ranked_notes_keep_distinct_paths(
    source: Seq<NoteView>,
    keys: Seq<Option<Seq<i128>>>,
)
    requires
        distinct_paths(source),
        keys.len() == source.len(),
    ensures
        distinct_paths(ranked(source, keys)),
{
    crate::order::ranking_lists_the_keyed(keys);
    let order = ranking(keys);
    let out = ranked(source, keys);
    assert forall|i: int, j: int| 0 <= i < j < out.len() implies (#[trigger] out[i]).path != (
    #[trigger] out[j]).path by {
        assert(order[i] != order[j]);
        assert(0 <= order[i] < source.len() && 0 <= order[j] < source.len());
        if order[i] < order[j] {
            assert(source[order[i]].path != source[order[j]].path);
        } else {
            assert(source[order[j]].path != source[order[i]].path);
        }
    }
}

/// The documents found by a walk that reported every path once have
/// distinct paths.
proof fn found_notes_have_distinct_paths(entries: Seq<ScanEntryView>, root: Seq<char>)
    requires
        walked_once(entries),
    ensures
        distinct_paths(indexed_notes(entries, root)),
    decreases entries.len(),
{
    let pick = |e: ScanEntryView| indexed_note(e, root);
    if entries.len() > 0 {
        let rest = entries.drop_last();
        let last = entries.last();
        assert forall|i: int, j: int| 0 <= i < j < rest.len() implies (#[trigger] rest[i]).path != (
        #[trigger] rest[j]).path by {
            assert(entries[i].path != entries[j].path);
        }
        found_notes_have_distinct_paths(rest, root);
        let before = rest.filter_map(pick);
        let found = entries.filter_map(pick);
        if pick(last) is Some {
            assert(found =~= before + seq![pick(last)->0]);
            assert forall|i: int, j: int| 0 <= i < j < found.len() implies (#[trigger] found[i]).path
                != (#[trigger] found[j]).path by {
                if j == found.len() - 1 {
                    assert(before.contains(before[i]));
                    rest.lemma_filter_map_contains(pick, before[i]);
                    let e = choose|e: ScanEntryView| #[trigger]
                        rest.contains(e) && pick(e) == Some(before[i]);
                    let at = choose|at: int| 0 <= at < rest.len() && rest[at] == e;
                    assert(entries[at].path != entries[entries.len() - 1].path);
                } else {
                    assert(before[i].path != before[j].path);
                }
            }
        } else {
            assert(found =~= before);
        }
    }
}

/// The index built from a walk that reported every path once holds no
/// document twice: its paths are distinct.
pub proof fn scanned_notes_have_distinct_paths(entries: Seq<ScanEntryView>, root: Seq<char>)
    requires
        walked_once(entries),
    ensures
        distinct_paths(scanned_notes(entries, root)),
{
    found_notes_have_distinct_paths(entries, root);
    let found = indexed_notes(entries, root);
    ranked_notes_keep_distinct_paths(found, found.map_values(|n: NoteView| Some(newest_first(n))));
}

/// Builds the document list from a walk of `directory`: every file with the
/// document extension whose facts could be read becomes a document; the list
/// is ordered newest first.
pub fn load_notes(directory: &str, entries: &Vec<ScanEntry>) -> (r: Vec<Note>)
    ensures
        note_views(r@) == scanned_notes(entry_views(entries@), directory@),
{
    let ghost all = entry_views(entries@);
    let ghost pick = |e: ScanEntryView| indexed_note(e, directory@);
    let ghost key = |n: NoteView| Some(newest_first(n));
    let mut found: Vec<Note> = Vec::new();
    let mut keys: Vec<Option<Vec<i128>>> = Vec::new();
    let mut i: usize = 0;
    while i < entries.len()
        invariant
            i <= entries.len(),
            all == entry_views(entries@),
            pick == |e: ScanEntryView| indexed_note(e, directory@),
            key == |n: NoteView| Some(newest_first(n)),
            note_views(found@) == all.take(i as int).filter_map(pick),
            keys.len() == found.len(),
            key_views(keys@) == note_views(found@).map_values(key),
        decreases entries.len() - i,
    {
        let e = &entries[i];
        proof {
            all.lemma_filter_map_take_succ(pick, i as int);
        }
        let is_file = match e.kind {
            EntryKind::File => true,
            _ => false,
        };
        if is_file && is_note_path(e.path.as_str()) && !is_hidden_below(
            e.path.as_str(),
            directory,
        ) {
            match e.meta {
                Some(meta) => {
                    let n = Note::from_path(e.path.clone(), directory, meta, copy_texts(&e.tags));
                    let mut k: Vec<i128> = Vec::new();
                    k.push(reverse_key(n.last_modified));
                    assert(key_views(keys@.push(Some(k))) =~= key_views(keys@).push(Some(k@)));
                    found.push(n);
                    keys.push(Some(k));
                },
                None => {},
            }
        }
        i = i + 1;
    }
    assert(all.take(entries.len() as int) == all);
    order_notes(&found, &keys)
}

/// The document list is decided by what the walk found and by nothing
/// else: two walks that met the same entries give the same list, document
/// for document, by path, title, size, time and tags.
pub proof fn same_entries_same_notes(
    first: Seq<ScanEntryView>,
    second: Seq<ScanEntryView>,
    root: Seq<char>,
)
    requires
        first == second,
    ensures
        scanned_notes(first, root) == scanned_notes(second, root),
        scanned_items(first, root) == scanned_items(second, root),
{
}

/// The directory entry that a scanned entry stands for: none for the root
/// itself and for entries hidden below the root; a folder for a directory; a document for a
/// file with the document extension whose facts could be read.
pub open spec fn listed_item(e: ScanEntryView, root: Seq<char>) -> Option<ItemView> {
    if same_path(e.path, root) {
        None
    } else if hidden_below(e.path, root) {
        None
    } else if e.kind == EntryKind::Dir {
        Some(ItemView::Folder(e.path))
    } else if e.kind == EntryKind::File && names_document(e.path) && e.meta is Some {
        Some(ItemView::Note(Note::at_path(e.path, root, e.meta->0, e.tags)))
    } else {
        None
    }
}

/// Key of the listing order: folders before documents, folders by path name
/// by name, documents by title.
pub open spec fn listing_key(item: ItemView) -> Seq<i128> {
    match item {
        ItemView::Folder(p) => seq![0i128] + path_codes(p),
        ItemView::Note(n) => seq![1i128] + codes(n.title),
    }
}

/// The entries of a walk as a listing: folders first, ordered by path, then
/// documents, ordered by title.
pub open spec fn scanned_items(entries: Seq<ScanEntryView>, root: Seq<char>) -> Seq<ItemView> {
    let found = entries.filter_map(|e: ScanEntryView| listed_item(e, root));
    ranked(found, found.map_values(|i: ItemView| Some(listing_key(i))))
}

/// Every entry of a listing stands for an entry that the walk found:
/// never for the root itself, never for a hidden entry, and a document only
/// for a file with the document extension.
pub proof fn listed_items_come_from_the_walk(entries: Seq<ScanEntryView>, root: Seq<char>, k: int)
    requires
        0 <= k < scanned_items(entries, root).len(),
    ensures
        exists|e: ScanEntryView| #[trigger]
            entries.contains(e) && listed_item(e, root) == Some(scanned_items(entries, root)[k]),
        !same_path(scanned_items(entries, root)[k].path(), root),
        !hidden_below(scanned_items(entries, root)[k].path(), root),
        scanned_items(entries, root)[k] is Note ==> names_document(
            scanned_items(entries, root)[k].path(),
        ),
        scanned_items(entries, root)[k] matches ItemView::Note(n) ==> n.title == title_text(
            n.path,
            root,
        ),
{
    let pick = |e: ScanEntryView| listed_item(e, root);
    let found = entries.filter_map(pick);
    let keys = found.map_values(|i: ItemView| Some(listing_key(i)));
    let item = scanned_items(entries, root)[k];
    crate::order::ranking_lists_the_keyed(keys);
    let at = ranking(keys)[k];
    assert(item == found[at]);
    assert(found.contains(item));
    entries.lemma_filter_map_contains(pick, item);
    let e = choose|e: ScanEntryView| #[trigger] entries.contains(e) && pick(e) == Some(item);
    assert(entries.contains(e) && listed_item(e, root) == Some(item));
}

/// Whether every entry of the list has a path of its own.
pub open spec fn distinct_item_paths(items: Seq<ItemView>) -> bool {
    forall|i: int, j: int|
        0 <= i < j < items.len() ==> (#[trigger] items[i]).path() != (#[trigger] items[j]).path()
}

/// Whether the folders of the list stand before its documents.
pub open spec fn folders_first(items: Seq<ItemView>) -> bool {
    forall|i: int, j: int|
        0 <= i < j < items.len() ==> !((#[trigger] items[i]) is Note && (#[trigger] items[j]) is Folder)
}

/// What the walk found at place `i` is among the entries it yields.
proof fn found_items_hold(entries: Seq<ScanEntryView>, root: Seq<char>, i: int)
    requires
        0 <= i < entries.len(),
        listed_item(entries[i], root) is Some,
    ensures
        entries.filter_map(|e: ScanEntryView| listed_item(e, root)).contains(
            listed_item(entries[i], root)->0,
        ),
    decreases entries.len(),
{
    let pick = |e: ScanEntryView| listed_item(e, root);
    let rest = entries.drop_last();
    let before = rest.filter_map(pick);
    let found = entries.filter_map(pick);
    let item = listed_item(entries[i], root)->0;
    if i == entries.len() - 1 {
        assert(found =~= before + seq![item]);
        assert(found[found.len() - 1] == item);
    } else {
        assert(rest[i] == entries[i]);
        found_items_hold(rest, root, i);
        let at = choose|at: int| 0 <= at < before.len() && before[at] == item;
        if pick(entries.last()) is Some {
            assert(found =~= before + seq![pick(entries.last())->0]);
        } else {
            assert(found =~= before);
        }
        assert(found[at] == item);
    }
}

/// The entries found by a walk that reported every path once have distinct
/// paths.
proof fn found_items_have_distinct_paths(entries: Seq<ScanEntryView>, root: Seq<char>)
    requires
        walked_once(entries),
    ensures
        distinct_item_paths(entries.filter_map(|e: ScanEntryView| listed_item(e, root))),
    decreases entries.len(),
{
    let pick = |e: ScanEntryView| listed_item(e, root);
    if entries.len() > 0 {
        let rest = entries.drop_last();
        let last = entries.last();
        assert forall|i: int, j: int| 0 <= i < j < rest.len() implies (#[trigger] rest[i]).path != (
        #[trigger] rest[j]).path by {
            assert(entries[i].path != entries[j].path);
        }
        found_items_have_distinct_paths(rest, root);
        let before = rest.filter_map(pick);
        let found = entries.filter_map(pick);
        if pick(last) is Some {
            assert(found =~= before + seq![pick(last)->0]);
            assert forall|i: int, j: int| 0 <= i < j < found.len() implies (
            #[trigger] found[i]).path() != (#[trigger] found[j]).path() by {
                if j == found.len() - 1 {
                    assert(before.contains(before[i]));
                    rest.lemma_filter_map_contains(pick, before[i]);
                    let e = choose|e: ScanEntryView| #[trigger]
                        rest.contains(e) && pick(e) == Some(before[i]);
                    let at = choose|at: int| 0 <= at < rest.len() && rest[at] == e;
                    assert(entries[at].path != entries[entries.len() - 1].path);
                } else {
                    assert(before[i].path() != before[j].path());
                }
            }
        } else {
            assert(found =~= before);
        }
    }
}

/// A listing holds every entry of the walk that stands for one: nothing
/// that is neither the root nor hidden, and is a folder or a readable
/// document, is left out.
pub proof fn scanned_items_hold_every_entry(entries: Seq<ScanEntryView>, root: Seq<char>, i: int)
    requires
        0 <= i < entries.len(),
        listed_item(entries[i], root) is Some,
    ensures
        scanned_items(entries, root).contains(listed_item(entries[i], root)->0),
{
    let found = entries.filter_map(|e: ScanEntryView| listed_item(e, root));
    let keys = found.map_values(|i: ItemView| Some(listing_key(i)));
    let item = listed_item(entries[i], root)->0;
    found_items_hold(entries, root, i);
    let at = choose|at: int| 0 <= at < found.len() && found[at] == item;
    crate::order::ranking_lists_the_keyed(keys);
    assert(keys[at] is Some);
    let k = choose|k: int| 0 <= k < ranking(keys).len() && ranking(keys)[k] == at;
    assert(scanned_items(entries, root)[k] == item);
}

/// In a listing the folders stand before the documents.
pub proof fn scanned_items_put_folders_first(entries: Seq<ScanEntryView>, root: Seq<char>)
    ensures
        folders_first(scanned_items(entries, root)),
{
    let found = entries.filter_map(|e: ScanEntryView| listed_item(e, root));
    let keys = found.map_values(|i: ItemView| Some(listing_key(i)));
    let items = scanned_items(entries, root);
    crate::order::ranking_lists_the_keyed(keys);
    assert forall|a: int, b: int| 0 <= a < b < items.len() implies !((#[trigger] items[a]) is Note
        && (#[trigger] items[b]) is Folder) by {
        if items[a] is Note && items[b] is Folder {
            crate::order::ranking_ascends(keys, a, b);
            let ka = keys[ranking(keys)[a]]->0;
            let kb = keys[ranking(keys)[b]]->0;
            assert(ka == listing_key(items[a]));
            assert(kb == listing_key(items[b]));
            assert(kb[0] == 0 && ka[0] == 1);
            assert(kb.take(0) =~= ka.take(0));
            assert(crate::order::below_at(kb, ka, 0));
        }
    }
}

/// The listing of a walk that reported every path once holds no entry
/// twice.
pub proof fn scanned_items_have_distinct_paths(entries: Seq<ScanEntryView>, root: Seq<char>)
    requires
        walked_once(entries),
    ensures
        distinct_item_paths(scanned_items(entries, root)),
{
    let found = entries.filter_map(|e: ScanEntryView| listed_item(e, root));
    let keys = found.map_values(|i: ItemView| Some(listing_key(i)));
    let items = scanned_items(entries, root);
    found_items_have_distinct_paths(entries, root);
    crate::order::ranking_lists_the_keyed(keys);
    let order = ranking(keys);
    assert forall|i: int, j: int| 0 <= i < j < items.len() implies (#[trigger] items[i]).path() != (
    #[trigger] items[j]).path() by {
        assert(order[i] != order[j]);
        assert(0 <= order[i] < found.len() && 0 <= order[j] < found.len());
        if order[i] < order[j] {
            assert(found[order[i]].path() != found[order[j]].path());
        } else {
            assert(found[order[j]].path() != found[order[i]].path());
        }
    }
}

/// Leaving entries out of a list keeps what holds of every two entries in
/// their order.
pub proof fn filter_keeps_pairs(
    items: Seq<ItemView>,
    keep: spec_fn(ItemView) -> bool,
    holds: spec_fn(ItemView, ItemView) -> bool,
)
    requires
        forall|a: int, b: int|
            0 <= a < b < items.len() ==> holds(#[trigger] items[a], #[trigger] items[b]),
    ensures
        forall|a: int, b: int|
            0 <= a < b < items.filter(keep).len() ==> holds(
                #[trigger] items.filter(keep)[a],
                #[trigger] items.filter(keep)[b],
            ),
    decreases items.len(),
{
    if items.len() > 0 {
        let rest = items.drop_last();
        let last = items.last();
        assert(items =~= rest.push(last));
        assert forall|a: int, b: int| 0 <= a < b < rest.len() implies holds(
            #[trigger] rest[a],
            #[trigger] rest[b],
        ) by {
            assert(holds(items[a], items[b]));
        }
        filter_keeps_pairs(rest, keep, holds);
        rest.lemma_filter_push(last, keep);
        let kept = items.filter(keep);
        let before = rest.filter(keep);
        assert forall|a: int, b: int| 0 <= a < b < kept.len() implies holds(
            #[trigger] kept[a],
            #[trigger] kept[b],
        ) by {
            if keep(last) && b == kept.len() - 1 {
                assert(before.contains(before[a]));
                rest.lemma_filter_contains_rev(keep, before[a]);
                let at = choose|at: int| 0 <= at < rest.len() && rest[at] == before[a];
                assert(holds(items[at], items[items.len() - 1]));
            } else {
                assert(holds(before[a], before[b]));
            }
        }
    } else {
        items.lemma_filter_len(keep);
    }
}

/// Computes [`listing_key`].
pub fn listing_key_of(item: &FileSystemItem) -> (r: Vec<i128>)
    ensures
        r@ == listing_key(item@),
{
    let mut out: Vec<i128> = Vec::new();
    let mut rest = match item {
        FileSystemItem::Folder(p) => {
            out.push(0);
            path_codes_of(p.as_str())
        },
        FileSystemItem::Note(n) => {
            out.push(1);
            codes_of(&chars_of(n.title.as_str()))
        },
    };
    out.append(&mut rest);
    out
}

/// Builds the listing from a walk of `directory`: the root itself and hidden
/// entries are left out, directories become folders, files with the document
/// extension become documents; folders come first.
pub fn load_all_items(directory: &str, entries: &Vec<ScanEntry>) -> (r: Vec<FileSystemItem>)
    ensures
        item_views(r@) == scanned_items(entry_views(entries@), directory@),
{
    let ghost all = entry_views(entries@);
    let ghost pick = |e: ScanEntryView| listed_item(e, directory@);
    let ghost key = |i: ItemView| Some(listing_key(i));
    let mut found: Vec<FileSystemItem> = Vec::new();
    let mut keys: Vec<Option<Vec<i128>>> = Vec::new();
    let mut i: usize = 0;
    while i < entries.len()
        invariant
            i <= entries.len(),
            all == entry_views(entries@),
            pick == |e: ScanEntryView| listed_item(e, directory@),
            key == |i: ItemView| Some(listing_key(i)),
            item_views(found@) == all.take(i as int).filter_map(pick),
            keys.len() == found.len(),
            key_views(keys@) == item_views(found@).map_values(key),
        decreases entries.len() - i,
    {
        let e = &entries[i];
        proof {
            all.lemma_filter_map_take_succ(pick, i as int);
        }
        let item: Option<FileSystemItem> = if is_same_path(e.path.as_str(), directory) {
            None
        } else if is_hidden_below(e.path.as_str(), directory) {
            None
        } else {
            match e.kind {
                EntryKind::Dir => Some(FileSystemItem::Folder(e.path.clone())),
                EntryKind::File => {
                    if is_note_path(e.path.as_str()) {
                        match e.meta {
                            Some(meta) => Some(
                                FileSystemItem::Note(
                                    Note::from_path(
                                        e.path.clone(),
                                        directory,
                                        meta,
                                        copy_texts(&e.tags),
                                    ),
                                ),
                            ),
                            None => None,
                        }
                    } else {
                        None
                    }
                },
                EntryKind::Other => None,
            }
        };
        match item {
            Some(it) => {
                let k = listing_key_of(&it);
                assert(key_views(keys@.push(Some(k))) =~= key_views(keys@).push(Some(k@)));
                found.push(it);
                keys.push(Some(k));
            },
            None => {},
        }
        i = i + 1;
    }
    assert(all.take(entries.len() as int) == all);
    order_items(&found, &keys)
}

/// Where the search for a document's metadata header stands.
#[derive(Debug, Clone, Copy, PartialEq, Eq, Structural)]
pub enum ScanState {
    /// No line has been seen yet.
    Opening,
    /// The opening delimiter has been seen; the lines of the block follow.
    Inside,
    /// The block is complete.
    Closed,
    /// The document has no header.
    Absent,
}

/// Finds the metadata header at the top of a document, line by line, so
/// that no more of the file is read than the header takes.
#[derive(Debug, Clone, PartialEq)]
pub struct HeaderScan {
    pub state: ScanState,
    /// The lines of the block collected so far.
    pub block: String,
}

/// The mathematical content of a [`HeaderScan`].
#[verifier::ext_equal]
pub struct HeaderScanView {
    pub state: ScanState,
    pub block: Seq<char>,
}

impl View for HeaderScan {
    type V = HeaderScanView;

    open spec fn view(&self) -> HeaderScanView {
        HeaderScanView { state: self.state, block: self.block@ }
    }
}

/// Whether a line is a header delimiter: three dashes, white space around
/// them aside.
pub open spec fn is_delimiter(line: Seq<char>) -> bool {
    trimmed(line) == seq!['-', '-', '-']
}

/// Tests whether a line is a header delimiter.
pub fn delimiter_line(line: &str) -> (r: bool)
    ensures
        r == is_delimiter(line@),
{
    let t = trim(&chars_of(line));
    let r = t.len() == 3 && t[0] == '-' && t[1] == '-' && t[2] == '-';
    if r {
        assert(t@ =~= seq!['-', '-', '-']);
    }
    r
}

impl HeaderScanView {
    /// The scan after one more line, or after the end of the file where
    /// `line` is none. A header opens with a delimiter on the first line and
    /// runs to the next delimiter or to the end of the file.
    pub open spec fn after(self, line: Option<Seq<char>>) -> HeaderScanView {
        match self.state {
            ScanState::Opening => match line {
                Some(l) if is_delimiter(l) => HeaderScanView { state: ScanState::Inside, block: self.block },
                _ => HeaderScanView { state: ScanState::Absent, block: self.block },
            },
            ScanState::Inside => match line {
                Some(l) if !is_delimiter(l) => HeaderScanView {
                    state: ScanState::Inside,
                    block: self.block + l,
                },
                _ => HeaderScanView { state: ScanState::Closed, block: self.block },
            },
            _ => self,
        }
    }

    /// Whether the scan asks for another line.
    pub open spec fn wants_more(self) -> bool {
        self.state == ScanState::Opening || self.state == ScanState::Inside
    }

    /// The header block that the scan found, if the document has one.
    pub open spec fn found(self) -> Option<Seq<char>> {
        if self.state == ScanState::Closed {
            Some(self.block)
        } else {
            None
        }
    }
}

impl HeaderScan {
    /// A scan that has seen nothing.
    pub fn new() -> (r: HeaderScan)
        ensures
            r@ == (HeaderScanView { state: ScanState::Opening, block: Seq::empty() }),
    {
        HeaderScan { state: ScanState::Opening, block: String::new() }
    }

    /// Takes the next line of the document, with its line end, or the end of
    /// the file; says whether another line is wanted.
    pub fn feed(&mut self, line: Option<&str>) -> (more: bool)
        ensures
            final(self)@ == old(self)@.after(
                match line {
                    Some(l) => Some(l@),
                    None => None,
                },
            ),
            more == final(self)@.wants_more(),
    {
        match self.state {
            ScanState::Opening => {
                let opens = match line {
                    Some(l) => delimiter_line(l),
                    None => false,
                };
                if opens {
                    self.state = ScanState::Inside;
                    true
                } else {
                    self.state = ScanState::Absent;
                    false
                }
            },
            ScanState::Inside => {
                match line {
                    Some(l) => {
                        if delimiter_line(l) {
                            self.state = ScanState::Closed;
                            false
                        } else {
                            self.block.append(l);
                            true
                        }
                    },
                    None => {
                        self.state = ScanState::Closed;
                        false
                    },
                }
            },
            ScanState::Closed => false,
            ScanState::Absent => false,
        }
    }

    /// The header block, once the scan has found one.
    pub fn block(&self) -> (r: Option<&str>)
        ensures
            match r {
                Some(b) => self@.found() == Some(b@),
                None => self@.found() is None,
            },
    {
        match self.state {
            ScanState::Closed => Some(self.block.as_str()),
            _ => None,
        }
    }
}

} // verus!
