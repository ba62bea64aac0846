//! Session state.
//!
//! [`App`] is the single owner of everything a session remembers. Its
//! methods never touch the outside world: where a step needs a file read, a
//! directory walked or a program run, the method returns an [`Effect`] that
//! says so, and the caller reports the outcome through the method the effect
//! names.

use std::collections::VecDeque;
use vstd::prelude::*;
use vstd::string::StringExecFns;
use crate::config::{Config, ConfigView, Theme};
use crate::data::{
    by_name, codes_of, copy_notes, entry_views, item_views, largest_first, newest_first,
    note_views, opt_text, reverse_key, FileSystemItem, ItemView, Note, NoteView, ScanEntry,
    ScanEntryView,
};
use crate::text::{chars_of, lowercase, same_text};

verus! {

/// A colour by its red, green and blue parts.
#[derive(PartialEq, Eq, Structural, Clone, Copy, Debug)]
pub struct Rgb {
    pub r: u8,
    pub g: u8,
    pub b: u8,
}

/// The colours of the interface.
#[derive(PartialEq, Eq, Structural, Clone, Copy, Debug)]
pub struct ThemeColors {
    pub accent: Rgb,
    pub selection: Rgb,
    pub header: Rgb,
    pub dim: Rgb,
    pub bold: Rgb,
}

impl ThemeColors {
    /// The colours a session starts with.
    pub open spec fn initial() -> ThemeColors {
        ThemeColors {
            accent: Rgb { r: 137, g: 220, b: 235 },
            selection: Rgb { r: 187, g: 154, b: 247 },
            header: Rgb { r: 137, g: 180, b: 250 },
            dim: Rgb { r: 108, g: 112, b: 134 },
            bold: Rgb { r: 243, g: 139, b: 168 },
        }
    }

    /// The warm alternative.
    pub open spec fn warm() -> ThemeColors {
        ThemeColors {
            accent: Rgb { r: 250, g: 189, b: 47 },
            selection: Rgb { r: 215, g: 153, b: 33 },
            header: Rgb { r: 251, g: 73, b: 52 },
            dim: Rgb { r: 168, g: 153, b: 132 },
            bold: Rgb { r: 254, g: 128, b: 25 },
        }
    }

    /// The cool alternative.
    pub open spec fn cool() -> ThemeColors {
        ThemeColors {
            accent: Rgb { r: 122, g: 162, b: 247 },
            selection: Rgb { r: 187, g: 154, b: 247 },
            header: Rgb { r: 125, g: 207, b: 255 },
            dim: Rgb { r: 86, g: 95, b: 137 },
            bold: Rgb { r: 247, g: 118, b: 142 },
        }
    }

    /// The theme that follows `self` in the cycle. A theme is recognised by
    /// its accent colour; any theme that is not one of the first two is
    /// followed by the initial one.
    pub open spec fn following(self) -> ThemeColors {
        if self.accent == Self::initial().accent {
            Self::warm()
        } else if self.accent == Self::warm().accent {
            Self::cool()
        } else {
            Self::initial()
        }
    }
}

impl Default for ThemeColors {
    fn default() -> (r: ThemeColors)
        ensures
            r == ThemeColors::initial(),
    {
        ThemeColors {
            accent: Rgb { r: 137, g: 220, b: 235 },
            selection: Rgb { r: 187, g: 154, b: 247 },
            header: Rgb { r: 137, g: 180, b: 250 },
            dim: Rgb { r: 108, g: 112, b: 134 },
            bold: Rgb { r: 243, g: 139, b: 168 },
        }
    }
}

/// What a key press asks the session to do.
#[derive(PartialEq, Eq, Structural, Clone, Copy, Debug)]
pub enum Action {
    /// The key asks for nothing further.
    NoOp,
    Quit,
    Sync,
    NewNote,
    NewFolder,
    EditNote,
    DeleteNote,
    RenameNote,
    CopyContent,
    CopyPath,
    ToggleLogs,
    EnterChar(char),
    Backspace,
    SubmitInput,
    CancelInput,
    ScrollUp,
    ScrollDown,
    CycleSort,
    CycleTheme,
}

/// How the active document list is ordered.
#[derive(PartialEq, Eq, Structural, Clone, Copy, Debug)]
pub enum SortMode {
    Date,
    Name,
    Size,
}

impl SortMode {
    /// The policy that follows `self` in the cycle Date, Name, Size, Date.
    pub open spec fn successor(self) -> SortMode {
        match self {
            SortMode::Date => SortMode::Name,
            SortMode::Name => SortMode::Size,
            SortMode::Size => SortMode::Date,
        }
    }

    /// The policy's display name.
    pub open spec fn label(self) -> Seq<char> {
        match self {
            SortMode::Date => "Date"@,
            SortMode::Name => "Name"@,
            SortMode::Size => "Size"@,
        }
    }

    /// The policy that a configured name selects: `Name` and `Size` select
    /// themselves, anything else, and no name at all, selects `Date`.
    pub open spec fn named(name: Option<Seq<char>>) -> SortMode {
        match name {
            Some(s) => if s == "Name"@ {
                SortMode::Name
            } else if s == "Size"@ {
                SortMode::Size
            } else {
                SortMode::Date
            },
            None => SortMode::Date,
        }
    }

    /// The key by which the policy orders a document: by date the newest
    /// first, by name ascending without regard to case, by size the largest
    /// first.
    pub open spec fn key(self, n: NoteView) -> Seq<i128> {
        match self {
            SortMode::Date => newest_first(n),
            SortMode::Name => by_name(n),
            SortMode::Size => largest_first(n),
        }
    }

    /// The policy that follows `self` in the cycle.
    pub fn next(&self) -> (r: SortMode)
        ensures
            r == self.successor(),
    {
        match self {
            SortMode::Date => SortMode::Name,
            SortMode::Name => SortMode::Size,
            SortMode::Size => SortMode::Date,
        }
    }

    /// The policy's display name, which is also the name that selects it
    /// in the settings.
    pub fn as_str(&self) -> (r: &str)
        ensures
            r@ == self.label(),
    {
        match self {
            SortMode::Date => "Date",
            SortMode::Name => "Name",
            SortMode::Size => "Size",
        }
    }

    /// The policy that a configured name selects.
    pub fn from_name(name: &Option<String>) -> (r: SortMode)
        ensures
            r == SortMode::named(opt_text(*name)),
    {
        match name {
            Some(s) => {
                if same_text(&chars_of(s.as_str()), &chars_of("Name")) {
                    SortMode::Name
                } else if same_text(&chars_of(s.as_str()), &chars_of("Size")) {
                    SortMode::Size
                } else {
                    SortMode::Date
                }
            },
            None => SortMode::Date,
        }
    }

    /// Computes the ordering key of a document.
    pub fn key_of(&self, n: &Note) -> (r: Vec<i128>)
        ensures
            r@ == self.key(n@),
    {
        match self {
            SortMode::Date => {
                let mut k: Vec<i128> = Vec::new();
                k.push(reverse_key(n.last_modified));
                k
            },
            SortMode::Name => codes_of(&chars_of(lowercase(n.title.as_str()).as_str())),
            SortMode::Size => {
                let mut k: Vec<i128> = Vec::new();
                k.push(reverse_key(n.size as i128));
                k
            },
        }
    }
}

/// What the keys mean at the moment.
#[derive(PartialEq, Eq, Structural, Clone, Copy, Debug)]
pub enum InputMode {
    /// Browsing.
    Normal,
    /// Typing the name of a new document.
    Editing,
    /// Typing the name of a new folder.
    CreatingFolder,
    /// Typing the new name of an entry.
    Renaming,
    /// Asked whether to delete.
    ConfirmDelete,
    /// Typing a query for the titles.
    Search,
    /// Typing a query for the bodies.
    ContentSearch,
    /// Typing a query for the tags.
    TagSearch,
    /// Reading the help.
    Help,
}

/// Which entry of the list is selected, and where the visible part of the
/// list begins.
#[derive(PartialEq, Eq, Structural, Clone, Copy, Debug)]
pub struct ListState {
    pub offset: usize,
    pub selected: Option<usize>,
}

impl ListState {
    /// The state of a list in which nothing is selected.
    pub fn new() -> (r: ListState)
        ensures
            r == (ListState { offset: 0, selected: None }),
    {
        ListState { offset: 0, selected: None }
    }

    /// The state after selecting `index`: clearing the selection also moves
    /// the visible part back to the top.
    pub open spec fn with_selected(self, index: Option<usize>) -> ListState {
        ListState {
            offset: if index is None {
                0
            } else {
                self.offset
            },
            selected: index,
        }
    }

    /// Selects `index`, or clears the selection.
    pub fn select(&mut self, index: Option<usize>)
        ensures
            *final(self) == old(self).with_selected(index),
    {
        self.selected = index;
        if index.is_none() {
            self.offset = 0;
        }
    }

    /// The selected index.
    pub fn selected(&self) -> (r: Option<usize>)
        ensures
            r == self.selected,
    {
        self.selected
    }
}

impl Default for ListState {
    fn default() -> (r: ListState)
        ensures
            r == (ListState { offset: 0, selected: None }),
    {
        ListState { offset: 0, selected: None }
    }
}

/// Work that a step of the session leaves to its caller.
#[derive(Debug, Clone, PartialEq)]
pub enum Effect {
    /// Nothing to do.
    Nothing,
    /// Read the body of `notes[i]` and report it with
    /// [`App::load_note_content`].
    LoadNote(usize),
    /// Read the body of `fs_items[i]` and report it with
    /// [`App::load_fs_item_content`].
    LoadItem(usize),
    /// Walk the directory [`App::listing_dir`] and report the entries with
    /// [`App::refresh_fs_view`].
    Refresh,
    /// Walk the root directory and report the entries with
    /// [`App::notes_changed`].
    Rescan,
    /// Read the bodies that the documents of `all_notes` lack and report
    /// them with [`App::update_content_search`].
    SearchContent,
    /// Synchronise and report the outcome with [`App::sync_finished`].
    Sync,
    /// Synchronise, then end the session.
    SyncAndQuit,
    /// Create an empty document at this path, with the folders above it,
    /// unless something exists there; report with [`App::note_created`].
    CreateNote(String),
    /// Create a folder at this path, with the folders above it, unless
    /// something exists there; report with [`App::folder_created`].
    CreateFolder(String),
    /// Move the entry at the first path to the second, unless something
    /// exists there; report with [`App::item_renamed`].
    Rename(String, String),
    /// Remove the file, or the folder and everything in it, at this path;
    /// report with [`App::item_deleted`].
    Delete(String),
    /// Run the editor on this document; report with
    /// [`App::editor_closed`].
    Edit(String),
    /// Run the editor on this freshly created document, whatever comes of
    /// it, then do as for [`Effect::Refresh`].
    EditNew(String),
    /// Put this text, a document's body, on the clipboard; report with
    /// [`App::copied`].
    CopyContent(String),
    /// Put this text, a path, on the clipboard; report with
    /// [`App::copied`].
    CopyPath(String),
    /// Store the settings that [`App::save_config`] returns.
    SaveConfig,
}

/// The mathematical content of an [`Effect`].
#[verifier::ext_equal]
pub enum EffectView {
    Nothing,
    LoadNote(usize),
    LoadItem(usize),
    Refresh,
    Rescan,
    SearchContent,
    Sync,
    SyncAndQuit,
    CreateNote(Seq<char>),
    CreateFolder(Seq<char>),
    Rename(Seq<char>, Seq<char>),
    Delete(Seq<char>),
    Edit(Seq<char>),
    EditNew(Seq<char>),
    CopyContent(Seq<char>),
    CopyPath(Seq<char>),
    SaveConfig,
}

impl View for Effect {
    type V = EffectView;

    open spec fn view(&self) -> EffectView {
        match self {
            Effect::Nothing => EffectView::Nothing,
            Effect::LoadNote(i) => EffectView::LoadNote(*i),
            Effect::LoadItem(i) => EffectView::LoadItem(*i),
            Effect::Refresh => EffectView::Refresh,
            Effect::Rescan => EffectView::Rescan,
            Effect::SearchContent => EffectView::SearchContent,
            Effect::Sync => EffectView::Sync,
            Effect::SyncAndQuit => EffectView::SyncAndQuit,
            Effect::CreateNote(p) => EffectView::CreateNote(p@),
            Effect::CreateFolder(p) => EffectView::CreateFolder(p@),
            Effect::Rename(a, b) => EffectView::Rename(a@, b@),
            Effect::Delete(p) => EffectView::Delete(p@),
            Effect::Edit(p) => EffectView::Edit(p@),
            Effect::EditNew(p) => EffectView::EditNew(p@),
            Effect::CopyContent(t) => EffectView::CopyContent(t@),
            Effect::CopyPath(t) => EffectView::CopyPath(t@),
            Effect::SaveConfig => EffectView::SaveConfig,
        }
    }
}

/// The value of a hexadecimal digit.
pub open spec fn hex_digit(c: char) -> Option<int> {
    let p = c as int;
    if '0' as int <= p <= '9' as int {
        Some(p - '0' as int)
    } else if 'a' as int <= p <= 'f' as int {
        Some(p - 'a' as int + 10)
    } else if 'A' as int <= p <= 'F' as int {
        Some(p - 'A' as int + 10)
    } else {
        None
    }
}

/// The number that two characters denote in base sixteen: two digits, or a
/// plus sign and one digit.
pub open spec fn hex_pair(hi: char, lo: char) -> Option<u8> {
    match (hex_digit(hi), hex_digit(lo)) {
        (Some(a), Some(b)) => Some((16 * a + b) as u8),
        (None, Some(b)) => if hi == '+' {
            Some(b as u8)
        } else {
            None
        },
        _ => None,
    }
}

/// The colour that a text of the form `#rrggbb` denotes.
pub open spec fn parsed_color(s: Seq<char>) -> Option<Rgb> {
    if s.len() == 7 && s[0] == '#' {
        match (hex_pair(s[1], s[2]), hex_pair(s[3], s[4]), hex_pair(s[5], s[6])) {
            (Some(r), Some(g), Some(b)) => Some(Rgb { r, g, b }),
            _ => None,
        }
    } else {
        None
    }
}

/// The configured colour, or `fallback` where none is configured or the
/// text denotes no colour.
pub open spec fn color_or(s: Option<Seq<char>>, fallback: Rgb) -> Rgb {
    match s {
        Some(t) => match parsed_color(t) {
            Some(c) => c,
            None => fallback,
        },
        None => fallback,
    }
}

fn hex_digit_of(c: char) -> (r: Option<u8>)
    ensures
        match r {
            Some(d) => hex_digit(c) == Some(d as int) && d < 16,
            None => hex_digit(c) is None,
        },
{
    let p = crate::text::code_point(c);
    if 48 <= p && p <= 57 {
        Some((p - 48) as u8)
    } else if 97 <= p && p <= 102 {
        Some((p - 97 + 10) as u8)
    } else if 65 <= p && p <= 70 {
        Some((p - 65 + 10) as u8)
    } else {
        None
    }
}

fn hex_pair_of(hi: char, lo: char) -> (r: Option<u8>)
    ensures
        r == hex_pair(hi, lo),
{
    match (hex_digit_of(hi), hex_digit_of(lo)) {
        (Some(a), Some(b)) => Some(16 * a + b),
        (None, Some(b)) => if hi == '+' {
            Some(b)
        } else {
            None
        },
        _ => None,
    }
}

/// Reads a colour written as `#rrggbb`.
pub fn parse_color(s: &Option<String>, fallback: Rgb) -> (r: Rgb)
    ensures
        r == color_or(opt_text(*s), fallback),
{
    match s {
        Some(t) => {
            let v = chars_of(t.as_str());
            if v.len() == 7 && v[0] == '#' {
                match (hex_pair_of(v[1], v[2]), hex_pair_of(v[3], v[4]), hex_pair_of(v[5], v[6])) {
                    (Some(r), Some(g), Some(b)) => Rgb { r, g, b },
                    _ => fallback,
                }
            } else {
                fallback
            }
        },
        None => fallback,
    }
}

impl ThemeColors {
    /// The initial colours with the configured overrides applied.
    pub open spec fn configured(theme: Option<crate::config::ThemeView>) -> ThemeColors {
        let base = Self::initial();
        match theme {
            Some(t) => ThemeColors {
                accent: color_or(t.accent, base.accent),
                selection: color_or(t.selection, base.selection),
                header: color_or(t.header, base.header),
                dim: color_or(t.dim, base.dim),
                bold: color_or(t.bold, base.bold),
            },
            None => base,
        }
    }

    /// Applies the configured overrides to the initial colours.
    pub fn from_config(theme: &Option<Theme>) -> (r: ThemeColors)
        ensures
            r == ThemeColors::configured(crate::config::opt_theme(*theme)),
    {
        let base = ThemeColors::default();
        match theme {
            Some(t) => ThemeColors {
                accent: parse_color(&t.accent, base.accent),
                selection: parse_color(&t.selection, base.selection),
                header: parse_color(&t.header, base.header),
                dim: parse_color(&t.dim, base.dim),
                bold: parse_color(&t.bold, base.bold),
            },
            None => base,
        }
    }

    /// The theme that follows `self` in the cycle.
    pub fn next(&self) -> (r: ThemeColors)
        ensures
            r == self.following(),
    {
        let a = self.accent;
        if a.r == 137 && a.g == 220 && a.b == 235 {
            ThemeColors {
                accent: Rgb { r: 250, g: 189, b: 47 },
                selection: Rgb { r: 215, g: 153, b: 33 },
                header: Rgb { r: 251, g: 73, b: 52 },
                dim: Rgb { r: 168, g: 153, b: 132 },
                bold: Rgb { r: 254, g: 128, b: 25 },
            }
        } else if a.r == 250 && a.g == 189 && a.b == 47 {
            ThemeColors {
                accent: Rgb { r: 122, g: 162, b: 247 },
                selection: Rgb { r: 187, g: 154, b: 247 },
                header: Rgb { r: 125, g: 207, b: 255 },
                dim: Rgb { r: 86, g: 95, b: 137 },
                bold: Rgb { r: 247, g: 118, b: 142 },
            }
        } else {
            ThemeColors::default()
        }
    }
}

/// How many bodies the cache keeps unless told otherwise.
pub const DEFAULT_CACHE_CAPACITY: usize = 10;

/// Everything a session remembers.
pub struct App {
    /// The active document list: every document, ordered by the sort
    /// policy, or the result of the current search.
    pub notes: Vec<Note>,
    /// Every document under the root.
    pub all_notes: Vec<Note>,
    /// The entries of the current directory.
    pub fs_items: Vec<FileSystemItem>,
    /// The directory being browsed, relative to the root; empty at the root.
    pub current_dir: String,
    /// The selection in the list on screen.
    pub list_state: ListState,
    /// The line shown in the status bar.
    pub status_msg: String,
    /// The root directory.
    pub base_path: String,
    /// The user's settings.
    pub config: Config,
    /// Whether the session is over.
    pub should_quit: bool,
    /// Whether the log pane is shown.
    pub show_logs: bool,
    /// The documents whose bodies were used last, by position in `notes`,
    /// oldest first.
    pub recent_indices: VecDeque<usize>,
    /// How many entries `recent_indices` may hold.
    pub cache_capacity: usize,
    /// The text being typed for a new name.
    pub input: String,
    /// The current query; empty while no search is active.
    pub search_query: String,
    /// What the keys mean at the moment.
    pub input_mode: InputMode,
    /// Whether a synchronisation is under way.
    pub syncing: bool,
    /// The frame of the progress spinner.
    pub spinner_index: usize,
    /// How far the preview is scrolled.
    pub preview_scroll: u16,
    /// The colours in use.
    pub theme: ThemeColors,
    /// The sort policy in use.
    pub sort_mode: SortMode,
}

/// The mathematical content of an [`App`].
#[verifier::ext_equal]
pub struct AppView {
    pub notes: Seq<NoteView>,
    pub all_notes: Seq<NoteView>,
    pub fs_items: Seq<ItemView>,
    pub current_dir: Seq<char>,
    pub list_state: ListState,
    pub status_msg: Seq<char>,
    pub base_path: Seq<char>,
    pub config: ConfigView,
    pub should_quit: bool,
    pub show_logs: bool,
    pub recent_indices: Seq<usize>,
    pub cache_capacity: usize,
    pub input: Seq<char>,
    pub search_query: Seq<char>,
    pub input_mode: InputMode,
    pub syncing: bool,
    pub spinner_index: usize,
    pub preview_scroll: u16,
    pub theme: ThemeColors,
    pub sort_mode: SortMode,
}

impl View for App {
    type V = AppView;

    open spec fn view(&self) -> AppView {
        AppView {
            notes: note_views(self.notes@),
            all_notes: note_views(self.all_notes@),
            fs_items: item_views(self.fs_items@),
            current_dir: self.current_dir@,
            list_state: self.list_state,
            status_msg: self.status_msg@,
            base_path: self.base_path@,
            config: self.config@,
            should_quit: self.should_quit,
            show_logs: self.show_logs,
            recent_indices: self.recent_indices@,
            cache_capacity: self.cache_capacity,
            input: self.input@,
            search_query: self.search_query@,
            input_mode: self.input_mode,
            syncing: self.syncing,
            spinner_index: self.spinner_index,
            preview_scroll: self.preview_scroll,
            theme: self.theme,
            sort_mode: self.sort_mode,
        }
    }
}

impl AppView {
    /// Whether a search is active.
    pub open spec fn searching(self) -> bool {
        self.search_query.len() > 0
    }

    /// The length of the list on screen: the search result while a search
    /// is active, the directory listing otherwise.
    pub open spec fn shown_len(self) -> nat {
        if self.searching() {
            self.notes.len()
        } else {
            self.fs_items.len()
        }
    }

    /// The session after a tick: the spinner advances while a
    /// synchronisation is under way.
    pub open spec fn after_tick(self) -> AppView {
        if self.syncing {
            AppView { spinner_index: ((self.spinner_index + 1) % 4) as usize, ..self }
        } else {
            self
        }
    }

    /// The settings to store: the user's, with the sort policy in use.
    pub open spec fn config_to_save(self) -> ConfigView {
        ConfigView { sort_mode: Some(self.sort_mode.label()), ..self.config }
    }

    /// A new session over the given documents and the entries of the root
    /// directory.
    ///
    /// The sort policy and the colours come from the settings; the
    /// documents are put in policy order; the list shows the entries of the
    /// root, and its first entry, if there is one, is selected. The first
    /// document counts as used if its body is already there.
    pub open spec fn start(
        notes: Seq<NoteView>,
        entries: Seq<ScanEntryView>,
        base_path: Seq<char>,
        config: ConfigView,
    ) -> AppView {
        let blank = AppView {
            notes,
            all_notes: notes,
            fs_items: Seq::empty(),
            current_dir: Seq::empty(),
            list_state: ListState { offset: 0, selected: None },
            status_msg: " Press 'h' for help "@,
            base_path,
            config,
            should_quit: false,
            show_logs: false,
            recent_indices: Seq::empty(),
            cache_capacity: DEFAULT_CACHE_CAPACITY,
            input: Seq::empty(),
            search_query: Seq::empty(),
            input_mode: InputMode::Normal,
            syncing: false,
            spinner_index: 0,
            preview_scroll: 0,
            theme: ThemeColors::configured(config.theme),
            sort_mode: SortMode::named(config.sort_mode),
        };
        blank.sorted().refreshed(entries).with_loaded(0, None)
    }
}

impl App {
    /// Whether a search is active.
    pub fn searching(&self) -> (r: bool)
        ensures
            r == self@.searching(),
    {
        self.search_query.as_str().unicode_len() > 0
    }

    /// The length of the list on screen.
    pub(crate) fn shown_len(&self) -> (r: usize)
        ensures
            r == self@.shown_len(),
    {
        if self.searching() {
            self.notes.len()
        } else {
            self.fs_items.len()
        }
    }

    /// Advances the spinner while a synchronisation is under way.
    pub fn tick(&mut self)
        ensures
            final(self)@ == old(self)@.after_tick(),
    {
        if self.syncing {
            self.spinner_index = (self.spinner_index % 4 + 1) % 4;
        }
    }

    /// Ends the session.
    pub fn quit(&mut self)
        ensures
            final(self)@ == (AppView { should_quit: true, ..old(self)@ }),
    {
        self.should_quit = true;
    }

    /// The settings to store: the user's, with the sort policy in use.
    pub fn save_config(&self) -> (r: Config)
        ensures
            r@ == self@.config_to_save(),
    {
        let mut config = self.config.duplicate();
        config.sort_mode = Some(String::from_str(self.sort_mode.as_str()));
        config
    }

    /// Switches to the next colour theme.
    pub fn cycle_theme(&mut self)
        ensures
            final(self)@ == (AppView { theme: old(self)@.theme.following(), ..old(self)@ }),
    {
        self.theme = self.theme.next();
    }

    /// Starts a session over the given documents and the entries found by a
    /// walk of the root directory.
    pub fn new(notes: Vec<Note>, entries: &Vec<ScanEntry>, base_path: String, config: Config) -> (r:
        App)
        ensures
            r@ == AppView::start(note_views(notes@), entry_views(entries@), base_path@, config@),
            r@.selection_valid(),
    {
        let all_notes = copy_notes(&notes);
        let theme = ThemeColors::from_config(&config.theme);
        let sort_mode = SortMode::from_name(&config.sort_mode);
        let mut app = App {
            notes,
            all_notes,
            fs_items: Vec::new(),
            current_dir: String::new(),
            list_state: ListState::new(),
            status_msg: String::from_str(" Press 'h' for help "),
            base_path,
            config,
            should_quit: false,
            show_logs: false,
            recent_indices: VecDeque::new(),
            cache_capacity: DEFAULT_CACHE_CAPACITY,
            input: String::new(),
            search_query: String::new(),
            input_mode: InputMode::Normal,
            syncing: false,
            spinner_index: 0,
            preview_scroll: 0,
            theme,
            sort_mode,
        };
        proof {
            let blank = app@;
            assert(blank.fs_items =~= Seq::<ItemView>::empty());
        }
        app.sort_notes();
        app.refresh_fs_view(entries);
        app.load_note_content(0, None);
        app
    }
}

} // verus!
