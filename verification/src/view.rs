//! What the screen shows, as far as it follows from the session alone.
//!
//! Drawing is the caller's business. The functions here decide the texts
//! and the classes that the drawing code then styles.

use vstd::prelude::*;
use vstd::string::StringExecFns;
use crate::app::{App, AppView, InputMode};
use crate::data::{texts, FileSystemItem, ItemView, Note, NoteView};
use crate::text::{chars_of, find_last, last_of, slice_of, starts_with, string_of, has_prefix};

verus! {

/// The frame of the progress spinner at a given count of ticks.
pub open spec fn spinner_frame(index: usize) -> Seq<char> {
    if index % 4 == 0 {
        "|"@
    } else if index % 4 == 1 {
        "/"@
    } else if index % 4 == 2 {
        "-"@
    } else {
        "\\"@
    }
}

impl AppView {
    /// The spinner as it stands before the status text: a frame between
    /// spaces while a synchronisation is under way, nothing otherwise.
    pub open spec fn spinner(self) -> Seq<char> {
        if self.syncing {
            " "@ + spinner_frame(self.spinner_index) + " "@
        } else {
            Seq::empty()
        }
    }

    /// The text of the status bar: the spinner, then what the mode has to
    /// say.
    pub open spec fn status_text(self) -> Seq<char> {
        self.spinner() + match self.input_mode {
            InputMode::Normal => if self.searching() {
                " Filtered: '"@ + self.search_query + "' (Esc to clear)"@
            } else {
                self.status_msg
            },
            InputMode::Editing => " CREATING NOTE: "@ + self.status_msg,
            InputMode::CreatingFolder => " CREATING FOLDER: "@ + self.status_msg,
            InputMode::Renaming => " RENAMING NOTE: "@ + self.status_msg,
            InputMode::ConfirmDelete => " DELETING NOTE: "@ + self.status_msg,
            InputMode::Search => " SEARCH: "@ + self.search_query,
            InputMode::TagSearch => " TAG SEARCH: "@ + self.search_query,
            InputMode::ContentSearch => " CONTENT SEARCH: "@ + self.search_query,
            InputMode::Help => " HELP: Press Esc to close"@,
        }
    }

    /// The document shown in the preview: the selected document of the
    /// search result while a search is active, the selected entry of the
    /// listing where it is a document otherwise.
    pub open spec fn previewed(self) -> Option<NoteView> {
        match self.list_state.selected {
            Some(i) => if self.searching() {
                if i < self.notes.len() {
                    Some(self.notes[i as int])
                } else {
                    None
                }
            } else if i < self.fs_items.len() {
                match self.fs_items[i as int] {
                    ItemView::Note(n) => Some(n),
                    ItemView::Folder(_) => None,
                }
            } else {
                None
            },
            None => None,
        }
    }
}

impl App {
    fn spinner(&self) -> (r: String)
        ensures
            r@ == self@.spinner(),
    {
        if self.syncing {
            let frame = if self.spinner_index % 4 == 0 {
                "|"
            } else if self.spinner_index % 4 == 1 {
                "/"
            } else if self.spinner_index % 4 == 2 {
                "-"
            } else {
                "\\"
            };
            String::from_str(" ").concat(frame).concat(" ")
        } else {
            String::new()
        }
    }

    /// The text of the status bar.
    pub fn status_text(&self) -> (r: String)
        ensures
            r@ == self@.status_text(),
    {
        let start = self.spinner();
        let r = match self.input_mode {
            InputMode::Normal => {
                if self.searching() {
                    let tail = String::from_str(" Filtered: '").concat(
                        self.search_query.as_str(),
                    ).concat("' (Esc to clear)");
                    start.concat(tail.as_str())
                } else {
                    start.concat(self.status_msg.as_str())
                }
            },
            InputMode::Editing => start.concat(
                String::from_str(" CREATING NOTE: ").concat(self.status_msg.as_str()).as_str(),
            ),
            InputMode::CreatingFolder => start.concat(
                String::from_str(" CREATING FOLDER: ").concat(self.status_msg.as_str()).as_str(),
            ),
            InputMode::Renaming => start.concat(
                String::from_str(" RENAMING NOTE: ").concat(self.status_msg.as_str()).as_str(),
            ),
            InputMode::ConfirmDelete => start.concat(
                String::from_str(" DELETING NOTE: ").concat(self.status_msg.as_str()).as_str(),
            ),
            InputMode::Search => start.concat(
                String::from_str(" SEARCH: ").concat(self.search_query.as_str()).as_str(),
            ),
            InputMode::TagSearch => start.concat(
                String::from_str(" TAG SEARCH: ").concat(self.search_query.as_str()).as_str(),
            ),
            InputMode::ContentSearch => start.concat(
                String::from_str(" CONTENT SEARCH: ").concat(self.search_query.as_str()).as_str(),
            ),
            InputMode::Help => start.concat(" HELP: Press Esc to close"),
        };
        r
    }

    /// The document shown in the preview, if any.
    pub fn previewed(&self) -> (r: Option<Note>)
        ensures
            match r {
                Some(n) => self@.previewed() == Some(n@),
                None => self@.previewed() is None,
            },
    {
        match self.list_state.selected() {
            Some(i) => {
                if self.searching() {
                    if i < self.notes.len() {
                        Some(self.notes[i].duplicate())
                    } else {
                        None
                    }
                } else if i < self.fs_items.len() {
                    match &self.fs_items[i] {
                        FileSystemItem::Note(n) => Some(n.duplicate()),
                        FileSystemItem::Folder(_) => None,
                    }
                } else {
                    None
                }
            },
            None => None,
        }
    }
}

/// How a line of a document is styled in the preview.
#[derive(Debug, Clone, Copy, PartialEq, Eq, Structural)]
pub enum LineKind {
    /// A heading of the first level.
    Title,
    /// A heading of the second level.
    Section,
    /// A heading of the third level.
    Subsection,
    /// The start of a code block.
    Fence,
    /// A quotation.
    Quote,
    /// Anything else.
    Plain,
}

/// The mark that starts a code block.
pub open spec fn fence_mark() -> Seq<char> {
    seq!['`', '\n', '`', '`', '`']
}

/// The kind of a line, by the mark it begins with.
pub open spec fn kind_of_line(line: Seq<char>) -> LineKind {
    if has_prefix(line, seq!['#', ' ']) {
        LineKind::Title
    } else if has_prefix(line, seq!['#', '#', ' ']) {
        LineKind::Section
    } else if has_prefix(line, seq!['#', '#', '#', ' ']) {
        LineKind::Subsection
    } else if has_prefix(line, fence_mark()) {
        LineKind::Fence
    } else if has_prefix(line, seq!['>', ' ']) {
        LineKind::Quote
    } else {
        LineKind::Plain
    }
}

fn begins(line: &Vec<char>, mark: &str) -> (r: bool)
    ensures
        r == has_prefix(line@, mark@),
{
    starts_with(line, &chars_of(mark))
}

/// Classifies a line of a document.
pub fn line_kind(line: &str) -> (r: LineKind)
    ensures
        r == kind_of_line(line@),
{
    let v = chars_of(line);
    proof {
        reveal_strlit("# ");
        reveal_strlit("## ");
        reveal_strlit("### ");
        reveal_strlit("`\n```");
        reveal_strlit("> ");
        assert("# "@ =~= seq!['#', ' ']);
        assert("## "@ =~= seq!['#', '#', ' ']);
        assert("### "@ =~= seq!['#', '#', '#', ' ']);
        assert("`\n```"@ =~= fence_mark());
        assert("> "@ =~= seq!['>', ' ']);
    }
    if begins(&v, "# ") {
        LineKind::Title
    } else if begins(&v, "## ") {
        LineKind::Section
    } else if begins(&v, "### ") {
        LineKind::Subsection
    } else if begins(&v, "`\n```") {
        LineKind::Fence
    } else if begins(&v, "> ") {
        LineKind::Quote
    } else {
        LineKind::Plain
    }
}

/// Where the folder part of a title ends: after its last slash, or else
/// after its last backslash, or at the start.
pub open spec fn folder_part_len(title: Seq<char>) -> int {
    if last_of(title, '/') >= 0 {
        last_of(title, '/') + 1
    } else if last_of(title, '\\') >= 0 {
        last_of(title, '\\') + 1
    } else {
        0
    }
}

/// Splits a title into the folders it lies in, with their final separator,
/// and its own name.
pub fn title_parts(title: &str) -> (r: (String, String))
    ensures
        r.0@ == title@.take(folder_part_len(title@)),
        r.1@ == title@.skip(folder_part_len(title@)),
{
    let v = chars_of(title);
    let cut: usize = match find_last(&v, '/') {
        Some(i) => i + 1,
        None => match find_last(&v, '\\') {
            Some(i) => i + 1,
            None => 0,
        },
    };
    let head = slice_of(&v, 0, cut);
    let tail = slice_of(&v, cut, v.len());
    (string_of(&head), string_of(&tail))
}

/// The tags as they follow a title: each with a hash before it, a space
/// between them.
pub open spec fn tag_words(tags: Seq<Seq<char>>) -> Seq<char>
    decreases tags.len(),
{
    if tags.len() == 0 {
        Seq::empty()
    } else if tags.len() == 1 {
        "#"@ + tags[0]
    } else {
        tag_words(tags.drop_last()) + " #"@ + tags.last()
    }
}

/// The tags as shown after a title: in brackets after a space, or nothing
/// where there are none.
pub open spec fn tags_text(tags: Seq<Seq<char>>) -> Seq<char> {
    if tags.len() == 0 {
        Seq::empty()
    } else {
        " ["@ + tag_words(tags) + "]"@
    }
}

/// Writes the tags as shown after a title.
pub fn tags_display(tags: &Vec<String>) -> (r: String)
    ensures
        r@ == tags_text(texts(tags@)),
{
    if tags.len() == 0 {
        return String::new();
    }
    let mut words = String::new();
    let mut i: usize = 0;
    while i < tags.len()
        invariant
            i <= tags.len(),
            words@ == tag_words(texts(tags@).take(i as int)),
        decreases tags.len() - i,
    {
        let ghost all = texts(tags@);
        assert(all.take(i + 1).drop_last() == all.take(i as int));
        if i == 0 {
            words = String::from_str("#").concat(tags[i].as_str());
        } else {
            words = words.concat(" #").concat(tags[i].as_str());
        }
        i = i + 1;
    }
    assert(texts(tags@).take(tags.len() as int) == texts(tags@));
    String::from_str(" [").concat(words.as_str()).concat("]")
}

/// The share of the screen, in percent, left free on either side of a
/// centred box that takes `percent` of it.
pub fn popup_margin(percent: u16) -> (r: u16)
    ensures
        r == if percent >= 100 {
            0
        } else {
            (100 - percent) / 2
        },
{
    if percent >= 100 {
        0
    } else {
        (100 - percent) / 2
    }
}

} // verus!
