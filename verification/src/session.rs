//! The session controller: what an action does to the session, what the
//! outcome of outside work does to it, and how events are routed.

use vstd::prelude::*;
use vstd::string::StringExecFns;
use crate::app::{Action, App, AppView, Effect, EffectView, InputMode};
use crate::data::{copy_opt_text, opt_text, FileSystemItem, ItemView};
use crate::errors::{ErrorView, KirokuError};
use crate::events::AppEvent;
use crate::ops::{
    blank, folder_target, folder_target_of, is_blank, no_parent_error, note_target,
    note_target_of, rename_target, rename_target_of,
};
use crate::paths::{file_name, final_name};
use crate::text::{pop_char, without_last};

verus! {

/// What was to be put on the clipboard.
#[derive(Debug, Clone, Copy, PartialEq, Eq, Structural)]
pub enum CopyKind {
    Content,
    Path,
}

/// What came of putting a text on the clipboard.
#[derive(Debug, Clone, PartialEq)]
pub enum CopyOutcome {
    /// The text is on the clipboard.
    Done,
    /// The clipboard refused; the text says why.
    Failed(String),
    /// There is no clipboard.
    Unavailable,
}

/// The mathematical content of a [`CopyOutcome`].
#[verifier::ext_equal]
pub enum CopyOutcomeView {
    Done,
    Failed(Seq<char>),
    Unavailable,
}

impl View for CopyOutcome {
    type V = CopyOutcomeView;

    open spec fn view(&self) -> CopyOutcomeView {
        match self {
            CopyOutcome::Done => CopyOutcomeView::Done,
            CopyOutcome::Failed(m) => CopyOutcomeView::Failed(m@),
            CopyOutcome::Unavailable => CopyOutcomeView::Unavailable,
        }
    }
}

/// The content of the outcome of an operation that yields a path or a
/// message.
pub open spec fn text_outcome(r: Result<String, KirokuError>) -> Result<Seq<char>, ErrorView> {
    match r {
        Ok(t) => Ok(t@),
        Err(e) => Err(e@),
    }
}

/// The content of the outcome of an operation that yields nothing.
pub open spec fn unit_outcome(r: Result<(), KirokuError>) -> Result<(), ErrorView> {
    match r {
        Ok(_) => Ok(()),
        Err(e) => Err(e@),
    }
}

impl AppView {
    /// The name shown for a folder: the final name of its path.
    pub open spec fn folder_name(path: Seq<char>) -> Seq<char> {
        match final_name(path) {
            Some(n) => n,
            None => Seq::empty(),
        }
    }

    /// The title of the selected entry: of the selected document while a
    /// search is active, of the selected document or folder of the listing
    /// otherwise. None where nothing in the list is selected.
    pub open spec fn selected_title(self) -> Option<Seq<char>> {
        match self.list_state.selected {
            Some(i) => if self.searching() {
                if i < self.notes.len() {
                    Some(self.notes[i as int].title)
                } else {
                    None
                }
            } else if i < self.fs_items.len() {
                match self.fs_items[i as int] {
                    ItemView::Note(n) => Some(n.title),
                    ItemView::Folder(p) => Some(Self::folder_name(p)),
                }
            } else {
                None
            },
            None => None,
        }
    }

    /// The path of the selected entry.
    pub open spec fn selected_path(self) -> Option<Seq<char>> {
        match self.list_state.selected {
            Some(i) => if self.searching() {
                if i < self.notes.len() {
                    Some(self.notes[i as int].path)
                } else {
                    None
                }
            } else if i < self.fs_items.len() {
                Some(self.fs_items[i as int].path())
            } else {
                None
            },
            None => None,
        }
    }

    /// The path of the selected entry where it is a document.
    pub open spec fn selected_document(self) -> Option<Seq<char>> {
        match self.list_state.selected {
            Some(i) => if self.searching() {
                if i < self.notes.len() {
                    Some(self.notes[i as int].path)
                } else {
                    None
                }
            } else if i < self.fs_items.len() {
                match self.fs_items[i as int] {
                    ItemView::Note(n) => Some(n.path),
                    ItemView::Folder(_) => None,
                }
            } else {
                None
            },
            None => None,
        }
    }

    /// The body of the selected entry where it is a document that holds
    /// one.
    pub open spec fn selected_content(self) -> Option<Seq<char>> {
        match self.list_state.selected {
            Some(i) => if self.searching() {
                if i < self.notes.len() {
                    self.notes[i as int].content
                } else {
                    None
                }
            } else if i < self.fs_items.len() {
                match self.fs_items[i as int] {
                    ItemView::Note(n) => n.content,
                    ItemView::Folder(_) => None,
                }
            } else {
                None
            },
            None => None,
        }
    }

    /// The session with another status line.
    pub open spec fn saying(self, status: Seq<char>) -> AppView {
        AppView { status_msg: status, ..self }
    }

    /// The session asking for a name, in the given mode.
    pub open spec fn asking(self, mode: InputMode, text: Seq<char>, prompt: Seq<char>) -> AppView {
        AppView { input_mode: mode, input: text, status_msg: prompt, ..self }
    }

    /// The session after the typed text was submitted.
    ///
    /// A name for a new document or folder asks for its creation below the
    /// current directory; a new name for the selected entry asks for the
    /// move; a confirmed deletion asks for the removal and ends the
    /// confirmation. A blank name asks for nothing.
    pub open spec fn submitted(self) -> (AppView, EffectView) {
        match self.input_mode {
            InputMode::Editing => if is_blank(self.input) {
                (self, EffectView::Nothing)
            } else {
                (self, EffectView::CreateNote(note_target(self.listing_dir(), self.input)))
            },
            InputMode::CreatingFolder => if is_blank(self.input) {
                (self, EffectView::Nothing)
            } else {
                (self, EffectView::CreateFolder(folder_target(self.listing_dir(), self.input)))
            },
            InputMode::Renaming => if is_blank(self.input) {
                (self, EffectView::Nothing)
            } else {
                match self.selected_path() {
                    Some(from) => match rename_target(from, self.input) {
                        Some(to) => (self, EffectView::Rename(from, to)),
                        None => (
                            self.saying("Rename error: "@ + no_parent_error().message()),
                            EffectView::Nothing,
                        ),
                    },
                    None => (self, EffectView::Nothing),
                }
            },
            InputMode::ConfirmDelete => (
                AppView { input_mode: InputMode::Normal, ..self },
                match self.selected_path() {
                    Some(p) => EffectView::Delete(p),
                    None => EffectView::Nothing,
                },
            ),
            _ => (self, EffectView::Nothing),
        }
    }

    /// The session after an action, and the work the action leaves to the
    /// caller.
    pub open spec fn after_action(self, action: Action) -> (AppView, EffectView) {
        match action {
            Action::NoOp => (self, EffectView::Nothing),
            Action::Quit => if self.config.auto_sync == Some(true) {
                (AppView { syncing: true, should_quit: true, ..self }, EffectView::SyncAndQuit)
            } else {
                (AppView { should_quit: true, ..self }, EffectView::Nothing)
            },
            Action::ToggleLogs => (
                AppView { show_logs: !self.show_logs, ..self },
                EffectView::Nothing,
            ),
            Action::Sync => if self.syncing {
                (self, EffectView::Nothing)
            } else {
                (AppView { syncing: true, ..self }, EffectView::Sync)
            },
            Action::NewNote => (
                self.asking(InputMode::Editing, Seq::empty(), "Enter filename: "@),
                EffectView::Nothing,
            ),
            Action::NewFolder => (
                self.asking(InputMode::CreatingFolder, Seq::empty(), "Enter folder name: "@),
                EffectView::Nothing,
            ),
            Action::RenameNote => (
                match self.selected_title() {
                    Some(t) => self.asking(InputMode::Renaming, t, "Rename item: "@),
                    None => self,
                },
                EffectView::Nothing,
            ),
            Action::DeleteNote => (
                match self.selected_title() {
                    Some(t) => AppView {
                        input_mode: InputMode::ConfirmDelete,
                        status_msg: "Delete '"@ + t + "'? (y/n)"@,
                        ..self
                    },
                    None => self,
                },
                EffectView::Nothing,
            ),
            Action::EnterChar(c) => (
                AppView { input: self.input.push(c), ..self },
                EffectView::Nothing,
            ),
            Action::Backspace => (
                AppView { input: without_last(self.input), ..self },
                EffectView::Nothing,
            ),
            Action::SubmitInput => self.submitted(),
            Action::CancelInput => (
                self.asking(InputMode::Normal, Seq::empty(), "Cancelled."@),
                EffectView::Nothing,
            ),
            Action::EditNote => (
                self,
                match self.selected_document() {
                    Some(p) => EffectView::Edit(p),
                    None => EffectView::Nothing,
                },
            ),
            Action::CopyContent => if self.list_state.selected is None {
                (self, EffectView::Nothing)
            } else {
                match self.selected_content() {
                    Some(c) => (self, EffectView::CopyContent(c)),
                    None => (
                        self.saying("Note content not loaded or item is folder."@),
                        EffectView::Nothing,
                    ),
                }
            },
            Action::CopyPath => (
                self,
                match self.selected_path() {
                    Some(p) => EffectView::CopyPath(p),
                    None => EffectView::Nothing,
                },
            ),
            Action::ScrollUp => (
                AppView {
                    preview_scroll: if self.preview_scroll == 0 {
                        0
                    } else {
                        (self.preview_scroll - 1) as u16
                    },
                    ..self
                },
                EffectView::Nothing,
            ),
            Action::ScrollDown => (
                AppView {
                    preview_scroll: if self.preview_scroll == u16::MAX {
                        u16::MAX
                    } else {
                        (self.preview_scroll + 1) as u16
                    },
                    ..self
                },
                EffectView::Nothing,
            ),
            Action::CycleSort => (
                (AppView { sort_mode: self.sort_mode.successor(), ..self }).sorted(),
                EffectView::SaveConfig,
            ),
            Action::CycleTheme => (
                AppView { theme: self.theme.following(), ..self },
                EffectView::Nothing,
            ),
        }
    }

    /// The session after a synchronisation ended: the status line shows its
    /// message, or why it failed.
    pub open spec fn after_sync(self, outcome: Result<Seq<char>, ErrorView>) -> AppView {
        AppView {
            syncing: false,
            status_msg: match outcome {
                Ok(m) => m,
                Err(e) => "Sync error: "@ + e.message(),
            },
            ..self
        }
    }

    /// The session after the creation of a document was tried: on success
    /// the session browses again and the editor is to be run on the new
    /// document; on failure the session keeps asking and says why.
    pub open spec fn after_note_created(self, outcome: Result<Seq<char>, ErrorView>) -> (
        AppView,
        EffectView,
    ) {
        match outcome {
            Ok(path) => (self.browsing("Note created."@), EffectView::EditNew(path)),
            Err(e) => (self.saying("Error: "@ + e.message()), EffectView::Nothing),
        }
    }

    /// The session after the creation of a folder was tried.
    pub open spec fn after_folder_created(self, outcome: Result<Seq<char>, ErrorView>) -> (
        AppView,
        EffectView,
    ) {
        match outcome {
            Ok(_) => (self.browsing("Folder created."@), EffectView::Refresh),
            Err(e) => (self.saying("Error: "@ + e.message()), EffectView::Nothing),
        }
    }

    /// The session after a move was tried.
    pub open spec fn after_renamed(self, outcome: Result<Seq<char>, ErrorView>) -> (
        AppView,
        EffectView,
    ) {
        match outcome {
            Ok(_) => (self.browsing("Item renamed."@), EffectView::Refresh),
            Err(e) => (self.saying("Rename error: "@ + e.message()), EffectView::Nothing),
        }
    }

    /// The session after a removal was tried.
    pub open spec fn after_deleted(self, outcome: Result<(), ErrorView>) -> (AppView, EffectView) {
        match outcome {
            Ok(_) => (self.saying("Item deleted."@), EffectView::Refresh),
            Err(e) => (self.saying("Delete error: "@ + e.message()), EffectView::Nothing),
        }
    }

    /// The session after the editor ended: a failure is shown, a success
    /// leaves no trace.
    pub open spec fn after_editor(self, outcome: Result<(), ErrorView>) -> AppView {
        match outcome {
            Ok(_) => self,
            Err(e) => self.saying("Editor error: "@ + e.message()),
        }
    }

    /// The session after a text was to be put on the clipboard.
    pub open spec fn after_copy(self, kind: CopyKind, outcome: CopyOutcomeView) -> AppView {
        self.saying(
            match outcome {
                CopyOutcomeView::Done => match kind {
                    CopyKind::Content => "Content copied to clipboard."@,
                    CopyKind::Path => "Path copied to clipboard."@,
                },
                CopyOutcomeView::Failed(m) => "Copy error: "@ + m,
                CopyOutcomeView::Unavailable => "Clipboard unavailable."@,
            },
        )
    }

    /// The session after an event. A key is interpreted in the current mode
    /// and the action it names is carried out; a tick moves the spinner; a
    /// change under the root asks for a fresh walk of it. Whatever the
    /// event, the selection fits the list on screen afterwards.
    pub open spec fn after_event(self, event: AppEvent) -> (AppView, EffectView) {
        let (next, effect) = self.event_taken(event);
        (next.settled(), effect)
    }

    /// What an event does to the session.
    pub open spec fn event_taken(self, event: AppEvent) -> (AppView, EffectView) {
        match event {
            AppEvent::Input(key) => {
                let (next, action, effect) = self.after_key(key);
                if action == Action::NoOp {
                    (next, effect)
                } else {
                    next.after_action(action)
                }
            },
            AppEvent::Tick => (self.after_tick(), EffectView::Nothing),
            AppEvent::FileChanged => (self, EffectView::Rescan),
        }
    }
}

impl App {
    /// The title of the selected entry.
    pub fn selected_title(&self) -> (r: Option<String>)
        ensures
            opt_text(r) == self@.selected_title(),
    {
        match self.list_state.selected() {
            Some(i) => {
                if self.searching() {
                    if i < self.notes.len() {
                        Some(self.notes[i].title.clone())
                    } else {
                        None
                    }
                } else if i < self.fs_items.len() {
                    match &self.fs_items[i] {
                        FileSystemItem::Note(n) => Some(n.title.clone()),
                        FileSystemItem::Folder(p) => match file_name(p.as_str()) {
                            Some(n) => Some(n),
                            None => Some(String::new()),
                        },
                    }
                } else {
                    None
                }
            },
            None => None,
        }
    }

    /// The path of the selected entry.
    pub fn selected_path(&self) -> (r: Option<String>)
        ensures
            opt_text(r) == self@.selected_path(),
    {
        match self.list_state.selected() {
            Some(i) => {
                if self.searching() {
                    if i < self.notes.len() {
                        Some(self.notes[i].path.clone())
                    } else {
                        None
                    }
                } else if i < self.fs_items.len() {
                    match &self.fs_items[i] {
                        FileSystemItem::Note(n) => Some(n.path.clone()),
                        FileSystemItem::Folder(p) => Some(p.clone()),
                    }
                } else {
                    None
                }
            },
            None => None,
        }
    }

    /// The path of the selected entry where it is a document.
    pub fn selected_document(&self) -> (r: Option<String>)
        ensures
            opt_text(r) == self@.selected_document(),
    {
        match self.list_state.selected() {
            Some(i) => {
                if self.searching() {
                    if i < self.notes.len() {
                        Some(self.notes[i].path.clone())
                    } else {
                        None
                    }
                } else if i < self.fs_items.len() {
                    match &self.fs_items[i] {
                        FileSystemItem::Note(n) => Some(n.path.clone()),
                        FileSystemItem::Folder(_) => None,
                    }
                } else {
                    None
                }
            },
            None => None,
        }
    }

    /// The body of the selected entry where it is a document that holds
    /// one.
    pub fn selected_content(&self) -> (r: Option<String>)
        ensures
            opt_text(r) == self@.selected_content(),
    {
        match self.list_state.selected() {
            Some(i) => {
                if self.searching() {
                    if i < self.notes.len() {
                        copy_opt_text(&self.notes[i].content)
                    } else {
                        None
                    }
                } else if i < self.fs_items.len() {
                    match &self.fs_items[i] {
                        FileSystemItem::Note(n) => copy_opt_text(&n.content),
                        FileSystemItem::Folder(_) => None,
                    }
                } else {
                    None
                }
            },
            None => None,
        }
    }

    fn say(&mut self, status: &str)
        ensures
            final(self)@ == old(self)@.saying(status@),
    {
        self.status_msg = String::from_str(status);
    }

    fn say_failure(&mut self, prefix: &str, e: &KirokuError)
        ensures
            final(self)@ == old(self)@.saying(prefix@ + e@.message()),
    {
        self.status_msg = String::from_str(prefix).concat(e.message().as_str());
    }

    fn ask(&mut self, mode: InputMode, text: String, prompt: &str)
        ensures
            final(self)@ == old(self)@.asking(mode, text@, prompt@),
    {
        self.input_mode = mode;
        self.input = text;
        self.status_msg = String::from_str(prompt);
    }

    fn back_to_browsing(&mut self, status: &str)
        ensures
            final(self)@ == old(self)@.browsing(status@),
    {
        self.input_mode = InputMode::Normal;
        self.status_msg = String::from_str(status);
    }

    /// Carries out the submission of the typed text.
    fn submit(&mut self) -> (e: Effect)
        ensures
            (final(self)@, e@) == old(self)@.submitted(),
    {
        match self.input_mode {
            InputMode::Editing => {
                if blank(self.input.as_str()) {
                    Effect::Nothing
                } else {
                    Effect::CreateNote(
                        note_target_of(self.listing_dir().as_str(), self.input.as_str()),
                    )
                }
            },
            InputMode::CreatingFolder => {
                if blank(self.input.as_str()) {
                    Effect::Nothing
                } else {
                    Effect::CreateFolder(
                        folder_target_of(self.listing_dir().as_str(), self.input.as_str()),
                    )
                }
            },
            InputMode::Renaming => {
                if blank(self.input.as_str()) {
                    Effect::Nothing
                } else {
                    match self.selected_path() {
                        Some(from) => match rename_target_of(from.as_str(), self.input.as_str()) {
                            Some(to) => Effect::Rename(from, to),
                            None => {
                                let e = KirokuError::Env(
                                    String::from_str("Could not determine parent directory"),
                                );
                                self.say_failure("Rename error: ", &e);
                                Effect::Nothing
                            },
                        },
                        None => Effect::Nothing,
                    }
                }
            },
            InputMode::ConfirmDelete => {
                let target = self.selected_path();
                self.input_mode = InputMode::Normal;
                match target {
                    Some(p) => Effect::Delete(p),
                    None => Effect::Nothing,
                }
            },
            _ => Effect::Nothing,
        }
    }

    /// Carries out an action and says what work it leaves to the caller.
    pub fn dispatch(&mut self, action: Action) -> (e: Effect)
        ensures
            (final(self)@, e@) == old(self)@.after_action(action),
    {
        match action {
            Action::NoOp => Effect::Nothing,
            Action::Quit => {
                let sync = match self.config.auto_sync {
                    Some(b) => b,
                    None => false,
                };
                self.should_quit = true;
                if sync {
                    self.syncing = true;
                    Effect::SyncAndQuit
                } else {
                    Effect::Nothing
                }
            },
            Action::ToggleLogs => {
                self.show_logs = !self.show_logs;
                Effect::Nothing
            },
            Action::Sync => {
                if self.syncing {
                    Effect::Nothing
                } else {
                    self.syncing = true;
                    Effect::Sync
                }
            },
            Action::NewNote => {
                self.ask(InputMode::Editing, String::new(), "Enter filename: ");
                Effect::Nothing
            },
            Action::NewFolder => {
                self.ask(InputMode::CreatingFolder, String::new(), "Enter folder name: ");
                Effect::Nothing
            },
            Action::RenameNote => {
                match self.selected_title() {
                    Some(t) => {
                        self.ask(InputMode::Renaming, t, "Rename item: ");
                    },
                    None => {},
                }
                Effect::Nothing
            },
            Action::DeleteNote => {
                match self.selected_title() {
                    Some(t) => {
                        self.input_mode = InputMode::ConfirmDelete;
                        self.status_msg = String::from_str("Delete '").concat(t.as_str()).concat(
                            "'? (y/n)",
                        );
                    },
                    None => {},
                }
                Effect::Nothing
            },
            Action::EnterChar(c) => {
                self.input.push(c);
                Effect::Nothing
            },
            Action::Backspace => {
                pop_char(&mut self.input);
                Effect::Nothing
            },
            Action::SubmitInput => self.submit(),
            Action::CancelInput => {
                self.ask(InputMode::Normal, String::new(), "Cancelled.");
                Effect::Nothing
            },
            Action::EditNote => match self.selected_document() {
                Some(p) => Effect::Edit(p),
                None => Effect::Nothing,
            },
            Action::CopyContent => {
                if self.list_state.selected().is_none() {
                    Effect::Nothing
                } else {
                    match self.selected_content() {
                        Some(c) => Effect::CopyContent(c),
                        None => {
                            self.say("Note content not loaded or item is folder.");
                            Effect::Nothing
                        },
                    }
                }
            },
            Action::CopyPath => match self.selected_path() {
                Some(p) => Effect::CopyPath(p),
                None => Effect::Nothing,
            },
            Action::ScrollUp => {
                if self.preview_scroll > 0 {
                    self.preview_scroll = self.preview_scroll - 1;
                }
                Effect::Nothing
            },
            Action::ScrollDown => {
                if self.preview_scroll < u16::MAX {
                    self.preview_scroll = self.preview_scroll + 1;
                }
                Effect::Nothing
            },
            Action::CycleSort => {
                self.sort_mode = self.sort_mode.next();
                self.sort_notes();
                Effect::SaveConfig
            },
            Action::CycleTheme => {
                self.cycle_theme();
                Effect::Nothing
            },
        }
    }

    /// Takes the outcome of a synchronisation.
    pub fn sync_finished(&mut self, outcome: Result<String, KirokuError>)
        ensures
            final(self)@ == old(self)@.after_sync(text_outcome(outcome)),
    {
        self.syncing = false;
        match outcome {
            Ok(m) => {
                self.status_msg = m;
            },
            Err(e) => {
                self.say_failure("Sync error: ", &e);
            },
        }
    }

    /// Takes the outcome of creating a document.
    pub fn note_created(&mut self, outcome: Result<String, KirokuError>) -> (e: Effect)
        ensures
            (final(self)@, e@) == old(self)@.after_note_created(text_outcome(outcome)),
    {
        match outcome {
            Ok(path) => {
                self.back_to_browsing("Note created.");
                Effect::EditNew(path)
            },
            Err(e) => {
                self.say_failure("Error: ", &e);
                Effect::Nothing
            },
        }
    }

    /// Takes the outcome of creating a folder.
    pub fn folder_created(&mut self, outcome: Result<String, KirokuError>) -> (e: Effect)
        ensures
            (final(self)@, e@) == old(self)@.after_folder_created(text_outcome(outcome)),
    {
        match outcome {
            Ok(_) => {
                self.back_to_browsing("Folder created.");
                Effect::Refresh
            },
            Err(e) => {
                self.say_failure("Error: ", &e);
                Effect::Nothing
            },
        }
    }

    /// Takes the outcome of moving an entry.
    pub fn item_renamed(&mut self, outcome: Result<String, KirokuError>) -> (e: Effect)
        ensures
            (final(self)@, e@) == old(self)@.after_renamed(text_outcome(outcome)),
    {
        match outcome {
            Ok(_) => {
                self.back_to_browsing("Item renamed.");
                Effect::Refresh
            },
            Err(e) => {
                self.say_failure("Rename error: ", &e);
                Effect::Nothing
            },
        }
    }

    /// Takes the outcome of removing an entry.
    pub fn item_deleted(&mut self, outcome: Result<(), KirokuError>) -> (e: Effect)
        ensures
            (final(self)@, e@) == old(self)@.after_deleted(unit_outcome(outcome)),
    {
        match outcome {
            Ok(_) => {
                self.say("Item deleted.");
                Effect::Refresh
            },
            Err(e) => {
                self.say_failure("Delete error: ", &e);
                Effect::Nothing
            },
        }
    }

    /// Takes the outcome of an editor run.
    pub fn editor_closed(&mut self, outcome: Result<(), KirokuError>)
        ensures
            final(self)@ == old(self)@.after_editor(unit_outcome(outcome)),
    {
        match outcome {
            Ok(_) => {},
            Err(e) => {
                self.say_failure("Editor error: ", &e);
            },
        }
    }

    /// Takes the outcome of putting a text on the clipboard.
    pub fn copied(&mut self, kind: CopyKind, outcome: CopyOutcome)
        ensures
            final(self)@ == old(self)@.after_copy(kind, outcome@),
    {
        match outcome {
            CopyOutcome::Done => match kind {
                CopyKind::Content => self.say("Content copied to clipboard."),
                CopyKind::Path => self.say("Path copied to clipboard."),
            },
            CopyOutcome::Failed(m) => {
                self.status_msg = String::from_str("Copy error: ").concat(m.as_str());
            },
            CopyOutcome::Unavailable => self.say("Clipboard unavailable."),
        }
    }

    /// Takes one event from the channel and says what work it leaves to the
    /// caller.
    pub fn handle_event(&mut self, event: AppEvent) -> (e: Effect)
        ensures
            (final(self)@, e@) == old(self)@.after_event(event),
            final(self)@.selection_valid(),
    {
        let e = match event {
            AppEvent::Input(key) => {
                let step = self.handle_input(key);
                match step.action {
                    Action::NoOp => step.effect,
                    _ => self.dispatch(step.action),
                }
            },
            AppEvent::Tick => {
                self.tick();
                Effect::Nothing
            },
            AppEvent::FileChanged => Effect::Rescan,
        };
        self.settle_selection();
        e
    }
}

/// Neither an action nor the outcome of outside work takes the selection
/// out of the list on screen: these change neither the query nor the
/// listing nor the selection, and the active list only while no search
/// shows it.
pub proof fn actions_keep_the_selection_valid(s: AppView, action: Action)
    requires
        s.selection_valid(),
    ensures
        s.after_action(action).0.selection_valid(),
        s.after_tick().selection_valid(),
{
    let t = s.after_action(action).0;
    assert(t.list_state == s.list_state && t.fs_items == s.fs_items && t.search_query
        == s.search_query && (s.searching() ==> t.notes == s.notes)) by {
        match action {
            Action::SubmitInput => {
                assert(s.submitted().0.notes == s.notes);
            },
            Action::CycleSort => {
                let u = AppView { sort_mode: s.sort_mode.successor(), ..s };
                assert(u.searching() == s.searching());
            },
            _ => {},
        }
    }
}

} // verus!
