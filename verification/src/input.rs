//! What the keys mean.
//!
//! The meaning of a key depends on the interaction mode and on nothing
//! else that the session does not hold: the next state, the action and the
//! effect are a function of the state and the key.

use vstd::prelude::*;
use vstd::string::StringExecFns;
use crate::app::{Action, App, AppView, Effect, EffectView, InputMode};
use crate::data::{FileSystemItem, ItemView};
use crate::events::{KeyCode, KeyEvent};
use crate::paths::{parent_of, parent_path, relative_path, relative_to};
use crate::text::{pop_char, without_last};

verus! {

impl AppView {
    /// The session on entering a search mode: the query starts empty.
    pub open spec fn entering(self, mode: InputMode, prompt: Seq<char>) -> AppView {
        AppView { input_mode: mode, search_query: Seq::empty(), status_msg: prompt, ..self }
    }

    /// The session back in browsing mode with the given status line.
    pub open spec fn browsing(self, status: Seq<char>) -> AppView {
        AppView { input_mode: InputMode::Normal, status_msg: status, ..self }
    }

    /// The session after moving into the directory `dir`, which is relative
    /// to the root: the selection moves to the top and the listing is to be
    /// walked anew; the walk's outcome then makes the selection fit what the
    /// directory holds.
    pub open spec fn entered(self, dir: Seq<char>) -> (AppView, Action, EffectView) {
        (
            AppView {
                current_dir: dir,
                list_state: self.list_state.with_selected(Some(0)),
                status_msg: "Dir: "@ + dir,
                ..self
            },
            Action::NoOp,
            EffectView::Refresh,
        )
    }

    /// The session after the key that leaves the current directory: below
    /// the root, and while no search is active, the session moves one level
    /// up.
    pub open spec fn gone_up(self) -> (AppView, Action, EffectView) {
        if !self.searching() && parent_of(self.current_dir) is Some {
            self.entered(parent_of(self.current_dir)->0)
        } else {
            (self, Action::NoOp, EffectView::Nothing)
        }
    }

    /// The session after the key that opens the selected entry: a folder is
    /// entered, a document is to be edited. While a search is active the
    /// entry is always a document.
    pub open spec fn opened(self) -> (AppView, Action, EffectView) {
        if self.searching() {
            (self, Action::EditNote, EffectView::Nothing)
        } else {
            match self.list_state.selected {
                Some(i) => if i < self.fs_items.len() {
                    match self.fs_items[i as int] {
                        ItemView::Folder(p) => self.entered(relative_to(p, self.base_path)),
                        ItemView::Note(_) => (self, Action::EditNote, EffectView::Nothing),
                    }
                } else {
                    (self, Action::NoOp, EffectView::Nothing)
                },
                None => (self, Action::NoOp, EffectView::Nothing),
            }
        }
    }

    /// A key while browsing.
    pub open spec fn key_while_browsing(self, key: KeyEvent) -> (AppView, Action, EffectView) {
        let plain = |a: Action| (self, a, EffectView::Nothing);
        match key.code {
            KeyCode::Char(c) => if c == 'q' {
                plain(Action::Quit)
            } else if c == 'j' {
                if key.control {
                    plain(Action::ScrollDown)
                } else {
                    (self.after_next().0, Action::NoOp, self.after_next().1)
                }
            } else if c == 'k' {
                if key.control {
                    plain(Action::ScrollUp)
                } else {
                    (self.after_previous().0, Action::NoOp, self.after_previous().1)
                }
            } else if c == 'g' {
                plain(Action::Sync)
            } else if c == 'n' {
                plain(Action::NewNote)
            } else if c == 'f' {
                plain(Action::NewFolder)
            } else if c == 'd' {
                plain(Action::DeleteNote)
            } else if c == 'r' {
                plain(Action::RenameNote)
            } else if c == 's' {
                plain(Action::CycleSort)
            } else if c == 't' {
                plain(Action::CycleTheme)
            } else if c == 'y' {
                plain(Action::CopyContent)
            } else if c == 'Y' {
                plain(Action::CopyPath)
            } else if c == '/' {
                (self.entering(InputMode::Search, "Search: "@), Action::NoOp, EffectView::Nothing)
            } else if c == '#' {
                (
                    self.entering(InputMode::TagSearch, "Tag Search: "@),
                    Action::NoOp,
                    EffectView::Nothing,
                )
            } else if c == '?' {
                (
                    self.entering(InputMode::ContentSearch, "Content Search: "@),
                    Action::NoOp,
                    EffectView::Nothing,
                )
            } else if c == 'h' {
                self.gone_up()
            } else if c == 'l' {
                self.opened()
            } else {
                plain(Action::NoOp)
            },
            KeyCode::F(n) => if n == 1 {
                (
                    AppView { input_mode: InputMode::Help, status_msg: " Help "@, ..self },
                    Action::NoOp,
                    EffectView::Nothing,
                )
            } else if n == 12 {
                plain(Action::ToggleLogs)
            } else {
                plain(Action::NoOp)
            },
            KeyCode::Backspace => self.gone_up(),
            KeyCode::Enter => self.opened(),
            _ => plain(Action::NoOp),
        }
    }

    /// A key while a name is being typed: the text itself is kept by the
    /// controller, the key only says what to do with it.
    pub open spec fn key_while_typing(self, key: KeyEvent) -> (AppView, Action, EffectView) {
        (
            self,
            match key.code {
                KeyCode::Enter => Action::SubmitInput,
                KeyCode::Esc => Action::CancelInput,
                KeyCode::Backspace => Action::Backspace,
                KeyCode::Char(c) => Action::EnterChar(c),
                _ => Action::NoOp,
            },
            EffectView::Nothing,
        )
    }

    /// A key while a deletion waits for its confirmation: only yes and no
    /// are heard.
    pub open spec fn key_while_confirming(self, key: KeyEvent) -> (AppView, Action, EffectView) {
        (
            self,
            match key.code {
                KeyCode::Char(c) => if c == 'y' {
                    Action::SubmitInput
                } else if c == 'n' {
                    Action::CancelInput
                } else {
                    Action::NoOp
                },
                KeyCode::Esc => Action::CancelInput,
                _ => Action::NoOp,
            },
            EffectView::Nothing,
        )
    }

    /// The session after the query changed in the given search mode: the
    /// search runs again at once, except that a search of the bodies with a
    /// query in it is left to the caller, who has the bodies read first.
    pub open spec fn requeried(self, mode: InputMode) -> (AppView, EffectView) {
        match mode {
            InputMode::TagSearch => self.tag_filtered(),
            InputMode::ContentSearch => if self.searching() {
                (self, EffectView::SearchContent)
            } else {
                self.content_filtered(Seq::empty())
            },
            _ => self.title_filtered(),
        }
    }

    /// The words before the query in the status line of a search mode.
    pub open spec fn search_prompt(mode: InputMode) -> Seq<char> {
        match mode {
            InputMode::TagSearch => "Tag Search: "@,
            InputMode::ContentSearch => "Content Search: "@,
            _ => "Search: "@,
        }
    }

    /// The status line after a query was confirmed in a search mode.
    pub open spec fn filter_notice(mode: InputMode) -> Seq<char> {
        match mode {
            InputMode::TagSearch => "Tag filter active. Esc to clear."@,
            InputMode::ContentSearch => "Content filter active. Esc to clear."@,
            _ => "Filter active. Esc to clear."@,
        }
    }

    /// The session after the query became `query` in the search mode the
    /// session is in: the search runs again and the status line shows the
    /// query.
    pub open spec fn with_query(self, query: Seq<char>) -> (AppView, Action, EffectView) {
        let (next, effect) = (AppView { search_query: query, ..self }).requeried(self.input_mode);
        (
            AppView { status_msg: Self::search_prompt(self.input_mode) + query, ..next },
            Action::NoOp,
            effect,
        )
    }

    /// The session after a search was abandoned: the query is cleared, every
    /// document is shown again and the session is back in browsing mode. In
    /// tag mode the search by tag is run on the empty query, in the other
    /// modes the search by title; both show every document.
    pub open spec fn search_abandoned(self) -> (AppView, Action, EffectView) {
        let cleared = AppView {
            input_mode: InputMode::Normal,
            search_query: Seq::empty(),
            ..self
        };
        let (next, effect) = if self.input_mode == InputMode::TagSearch {
            cleared.tag_filtered()
        } else {
            cleared.title_filtered()
        };
        (AppView { status_msg: " Press 'h' for help "@, ..next }, Action::NoOp, effect)
    }

    /// A key while a query is being typed: characters and backspace change
    /// the query and the search runs again; enter leaves the mode with the
    /// filter in place; escape leaves it and clears the filter.
    pub open spec fn key_while_searching(self, key: KeyEvent) -> (AppView, Action, EffectView) {
        match key.code {
            KeyCode::Enter => (
                self.browsing(Self::filter_notice(self.input_mode)),
                Action::NoOp,
                EffectView::Nothing,
            ),
            KeyCode::Esc => self.search_abandoned(),
            KeyCode::Backspace => self.with_query(without_last(self.search_query)),
            KeyCode::Char(c) => self.with_query(self.search_query.push(c)),
            _ => (self, Action::NoOp, EffectView::Nothing),
        }
    }

    /// A key while the help is shown: only the keys that close it are
    /// heard.
    pub open spec fn key_while_helping(self, key: KeyEvent) -> (AppView, Action, EffectView) {
        let closes = match key.code {
            KeyCode::Esc => true,
            KeyCode::Char(c) => c == 'q' || c == 'h',
            _ => false,
        };
        (
            if closes {
                self.browsing(" Press 'h' for help "@)
            } else {
                self
            },
            Action::NoOp,
            EffectView::Nothing,
        )
    }

    /// The session after a key press, the action it asks for and the work
    /// it leaves to the caller. Whatever the key did, the selection fits the
    /// list on screen afterwards.
    pub open spec fn after_key(self, key: KeyEvent) -> (AppView, Action, EffectView) {
        let (next, action, effect) = self.key_in_mode(key);
        (next.settled(), action, effect)
    }

    /// What a key does in the current mode.
    pub open spec fn key_in_mode(self, key: KeyEvent) -> (AppView, Action, EffectView) {
        match self.input_mode {
            InputMode::Normal => self.key_while_browsing(key),
            InputMode::Editing | InputMode::CreatingFolder | InputMode::Renaming => self.key_while_typing(
                key,
            ),
            InputMode::ConfirmDelete => self.key_while_confirming(key),
            InputMode::Search | InputMode::TagSearch | InputMode::ContentSearch => self.key_while_searching(
                key,
            ),
            InputMode::Help => self.key_while_helping(key),
        }
    }
}

/// A step of the session: the action a key asks for and the work left to
/// the caller.
#[derive(Debug, Clone, PartialEq)]
pub struct Step {
    pub action: Action,
    pub effect: Effect,
}

impl App {
    fn enter_dir(&mut self, dir: String) -> (r: Step)
        ensures
            (final(self)@, r.action, r.effect@) == old(self)@.entered(dir@),
    {
        self.status_msg = String::from_str("Dir: ").concat(dir.as_str());
        self.current_dir = dir;
        self.list_state.select(Some(0));
        Step { action: Action::NoOp, effect: Effect::Refresh }
    }

    fn go_up(&mut self) -> (r: Step)
        ensures
            (final(self)@, r.action, r.effect@) == old(self)@.gone_up(),
    {
        if !self.searching() {
            match parent_path(self.current_dir.as_str()) {
                Some(parent) => {
                    return self.enter_dir(parent);
                },
                None => {},
            }
        }
        Step { action: Action::NoOp, effect: Effect::Nothing }
    }

    fn open_selected(&mut self) -> (r: Step)
        ensures
            (final(self)@, r.action, r.effect@) == old(self)@.opened(),
    {
        if self.searching() {
            return Step { action: Action::EditNote, effect: Effect::Nothing };
        }
        match self.list_state.selected() {
            Some(i) => {
                if i < self.fs_items.len() {
                    let dir = match &self.fs_items[i] {
                        FileSystemItem::Folder(p) => Some(
                            relative_path(p.as_str(), self.base_path.as_str()),
                        ),
                        FileSystemItem::Note(_) => None,
                    };
                    match dir {
                        Some(d) => self.enter_dir(d),
                        None => Step { action: Action::EditNote, effect: Effect::Nothing },
                    }
                } else {
                    Step { action: Action::NoOp, effect: Effect::Nothing }
                }
            },
            None => Step { action: Action::NoOp, effect: Effect::Nothing },
        }
    }

    fn enter_search(&mut self, mode: InputMode, prompt: &str)
        ensures
            final(self)@ == old(self)@.entering(mode, prompt@),
    {
        self.input_mode = mode;
        self.search_query = String::new();
        self.status_msg = String::from_str(prompt);
    }

    fn browse(&mut self, status: &str)
        ensures
            final(self)@ == old(self)@.browsing(status@),
    {
        self.input_mode = InputMode::Normal;
        self.status_msg = String::from_str(status);
    }

    fn key_while_browsing(&mut self, key: KeyEvent) -> (r: Step)
        ensures
            (final(self)@, r.action, r.effect@) == old(self)@.key_while_browsing(key),
    {
        let mut action = Action::NoOp;
        match key.code {
            KeyCode::Char(c) => {
                if c == 'q' {
                    action = Action::Quit;
                } else if c == 'j' {
                    if key.control {
                        action = Action::ScrollDown;
                    } else {
                        let effect = self.next();
                        return Step { action: Action::NoOp, effect };
                    }
                } else if c == 'k' {
                    if key.control {
                        action = Action::ScrollUp;
                    } else {
                        let effect = self.previous();
                        return Step { action: Action::NoOp, effect };
                    }
                } else if c == 'g' {
                    action = Action::Sync;
                } else if c == 'n' {
                    action = Action::NewNote;
                } else if c == 'f' {
                    action = Action::NewFolder;
                } else if c == 'd' {
                    action = Action::DeleteNote;
                } else if c == 'r' {
                    action = Action::RenameNote;
                } else if c == 's' {
                    action = Action::CycleSort;
                } else if c == 't' {
                    action = Action::CycleTheme;
                } else if c == 'y' {
                    action = Action::CopyContent;
                } else if c == 'Y' {
                    action = Action::CopyPath;
                } else if c == '/' {
                    self.enter_search(InputMode::Search, "Search: ");
                } else if c == '#' {
                    self.enter_search(InputMode::TagSearch, "Tag Search: ");
                } else if c == '?' {
                    self.enter_search(InputMode::ContentSearch, "Content Search: ");
                } else if c == 'h' {
                    return self.go_up();
                } else if c == 'l' {
                    return self.open_selected();
                }
            },
            KeyCode::F(n) => {
                if n == 1 {
                    self.input_mode = InputMode::Help;
                    self.status_msg = String::from_str(" Help ");
                } else if n == 12 {
                    action = Action::ToggleLogs;
                }
            },
            KeyCode::Backspace => {
                return self.go_up();
            },
            KeyCode::Enter => {
                return self.open_selected();
            },
            _ => {},
        }
        Step { action, effect: Effect::Nothing }
    }

    fn requery(&mut self, mode: InputMode) -> (e: Effect)
        ensures
            (final(self)@, e@) == old(self)@.requeried(mode),
    {
        match mode {
            InputMode::TagSearch => self.update_tag_search(),
            InputMode::ContentSearch => {
                if self.searching() {
                    Effect::SearchContent
                } else {
                    let none: Vec<Option<String>> = Vec::new();
                    self.update_content_search(&none)
                }
            },
            _ => self.update_search(),
        }
    }

    fn search_prompt(mode: InputMode) -> (r: String)
        ensures
            r@ == AppView::search_prompt(mode),
    {
        match mode {
            InputMode::TagSearch => String::from_str("Tag Search: "),
            InputMode::ContentSearch => String::from_str("Content Search: "),
            _ => String::from_str("Search: "),
        }
    }

    fn query_changed(&mut self, before: Ghost<AppView>) -> (r: Step)
        requires
            old(self)@ == (AppView { search_query: old(self)@.search_query, ..before@ }),
        ensures
            (final(self)@, r.action, r.effect@) == before@.with_query(old(self)@.search_query),
    {
        let mode = self.input_mode;
        let effect = self.requery(mode);
        self.status_msg = Self::search_prompt(mode).concat(self.search_query.as_str());
        Step { action: Action::NoOp, effect }
    }

    fn abandon_search(&mut self) -> (r: Step)
        ensures
            (final(self)@, r.action, r.effect@) == old(self)@.search_abandoned(),
    {
        let tags = match self.input_mode {
            InputMode::TagSearch => true,
            _ => false,
        };
        self.input_mode = InputMode::Normal;
        self.search_query = String::new();
        let effect = if tags {
            self.update_tag_search()
        } else {
            self.update_search()
        };
        self.status_msg = String::from_str(" Press 'h' for help ");
        Step { action: Action::NoOp, effect }
    }

    fn key_while_searching(&mut self, key: KeyEvent) -> (r: Step)
        ensures
            (final(self)@, r.action, r.effect@) == old(self)@.key_while_searching(key),
    {
        let ghost before = self@;
        match key.code {
            KeyCode::Enter => {
                let notice = match self.input_mode {
                    InputMode::TagSearch => "Tag filter active. Esc to clear.",
                    InputMode::ContentSearch => "Content filter active. Esc to clear.",
                    _ => "Filter active. Esc to clear.",
                };
                self.browse(notice);
                Step { action: Action::NoOp, effect: Effect::Nothing }
            },
            KeyCode::Esc => self.abandon_search(),
            KeyCode::Backspace => {
                pop_char(&mut self.search_query);
                self.query_changed(Ghost(before))
            },
            KeyCode::Char(c) => {
                self.search_query.push(c);
                self.query_changed(Ghost(before))
            },
            _ => Step { action: Action::NoOp, effect: Effect::Nothing },
        }
    }

    /// Interprets a key press in the current mode.
    ///
    /// While browsing, the movement keys change the selection at once and
    /// the action keys only name what is wanted. While a name is typed the
    /// keys are handed on as actions. While a query is typed every change
    /// runs the search again. A deletion hears only yes and no, the help
    /// only the keys that close it.
    pub fn handle_input(&mut self, key: KeyEvent) -> (r: Step)
        ensures
            (final(self)@, r.action, r.effect@) == old(self)@.after_key(key),
            final(self)@.selection_valid(),
    {
        let step = self.key_in_mode(key);
        self.settle_selection();
        step
    }

    fn key_in_mode(&mut self, key: KeyEvent) -> (r: Step)
        ensures
            (final(self)@, r.action, r.effect@) == old(self)@.key_in_mode(key),
    {
        match self.input_mode {
            InputMode::Normal => self.key_while_browsing(key),
            InputMode::Editing | InputMode::CreatingFolder | InputMode::Renaming => {
                let action = match key.code {
                    KeyCode::Enter => Action::SubmitInput,
                    KeyCode::Esc => Action::CancelInput,
                    KeyCode::Backspace => Action::Backspace,
                    KeyCode::Char(c) => Action::EnterChar(c),
                    _ => Action::NoOp,
                };
                Step { action, effect: Effect::Nothing }
            },
            InputMode::ConfirmDelete => {
                let action = match key.code {
                    KeyCode::Char(c) => if c == 'y' {
                        Action::SubmitInput
                    } else if c == 'n' {
                        Action::CancelInput
                    } else {
                        Action::NoOp
                    },
                    KeyCode::Esc => Action::CancelInput,
                    _ => Action::NoOp,
                };
                Step { action, effect: Effect::Nothing }
            },
            InputMode::Search | InputMode::TagSearch | InputMode::ContentSearch => self.key_while_searching(
                key,
            ),
            InputMode::Help => {
                let closes = match key.code {
                    KeyCode::Esc => true,
                    KeyCode::Char(c) => c == 'q' || c == 'h',
                    _ => false,
                };
                if closes {
                    self.browse(" Press 'h' for help ");
                }
                Step { action: Action::NoOp, effect: Effect::Nothing }
            },
        }
    }
}

/// What a key does is decided by the session's state and the key alone:
/// in two sessions of the same state the same key leads to the same state,
/// names the same action and leaves the same work, whatever happened in
/// either before.
pub proof fn same_state_and_key_same_step(a: AppView, b: AppView, key: KeyEvent)
    requires
        a == b,
    ensures
        a.after_key(key) == b.after_key(key),
{
}

/// The mode after a key depends on the mode before and the key alone,
/// except while browsing, where it depends on the key alone.
pub proof fn mode_after_key(s: AppView, key: KeyEvent)
    ensures
        s.after_key(key).0.input_mode == match s.input_mode {
            InputMode::Normal => match key.code {
                KeyCode::Char(c) => if c == '/' {
                    InputMode::Search
                } else if c == '#' {
                    InputMode::TagSearch
                } else if c == '?' {
                    InputMode::ContentSearch
                } else {
                    InputMode::Normal
                },
                KeyCode::F(n) => if n == 1 {
                    InputMode::Help
                } else {
                    InputMode::Normal
                },
                _ => InputMode::Normal,
            },
            InputMode::Search | InputMode::TagSearch | InputMode::ContentSearch => match key.code {
                KeyCode::Enter | KeyCode::Esc => InputMode::Normal,
                _ => s.input_mode,
            },
            InputMode::Help => match key.code {
                KeyCode::Esc => InputMode::Normal,
                KeyCode::Char(c) => if c == 'q' || c == 'h' {
                    InputMode::Normal
                } else {
                    InputMode::Help
                },
                _ => InputMode::Help,
            },
            _ => s.input_mode,
        },
{
}

} // verus!
