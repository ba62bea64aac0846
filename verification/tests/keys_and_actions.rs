use kiroku_tui::app::{Action, App, Effect, InputMode};
use kiroku_tui::config::Config;
use kiroku_tui::data::{EntryKind, FileMeta, Note, ScanEntry};
use kiroku_tui::errors::{IoKind, KirokuError};
use kiroku_tui::events::{AppEvent, KeyCode, KeyEvent};
use kiroku_tui::input::Step;
use kiroku_tui::session::{CopyKind, CopyOutcome};

fn key(c: char) -> KeyEvent {
    KeyEvent { code: KeyCode::Char(c), control: false }
}

fn ctrl(c: char) -> KeyEvent {
    KeyEvent { code: KeyCode::Char(c), control: true }
}

fn code(code: KeyCode) -> KeyEvent {
    KeyEvent { code, control: false }
}

fn plain(action: Action) -> Step {
    Step { action, effect: Effect::Nothing }
}

fn note(title: &str, body: Option<&str>) -> Note {
    Note {
        path: format!("/n/{}.md", title),
        title: title.to_string(),
        content: body.map(|b| b.to_string()),
        last_modified: 0,
        size: 0,
        tags: if title == "beta" { vec!["greek".to_string()] } else { Vec::new() },
    }
}

fn dir(path: &str) -> ScanEntry {
    ScanEntry { path: path.to_string(), kind: EntryKind::Dir, meta: None, tags: Vec::new() }
}

fn file(path: &str) -> ScanEntry {
    ScanEntry {
        path: path.to_string(),
        kind: EntryKind::File,
        meta: Some(FileMeta { size: 1, modified: 1 }),
        tags: Vec::new(),
    }
}

fn session() -> App {
    let notes = vec![note("alpha", Some("first body")), note("beta", None), note("gamma", None)];
    let entries = vec![dir("/n"), dir("/n/sub"), file("/n/alpha.md"), file("/n/sub/inner.md")];
    App::new(notes, &entries, "/n".to_string(), Config::default())
}

fn titles(app: &App) -> Vec<&str> {
    app.notes.iter().map(|n| n.title.as_str()).collect()
}

#[test]
fn browsing_keys_name_their_actions() {
    let table = [
        (key('q'), Action::Quit),
        (ctrl('q'), Action::Quit),
        (ctrl('j'), Action::ScrollDown),
        (ctrl('k'), Action::ScrollUp),
        (key('g'), Action::Sync),
        (key('n'), Action::NewNote),
        (key('f'), Action::NewFolder),
        (key('d'), Action::DeleteNote),
        (key('r'), Action::RenameNote),
        (key('s'), Action::CycleSort),
        (key('t'), Action::CycleTheme),
        (key('y'), Action::CopyContent),
        (key('Y'), Action::CopyPath),
        (code(KeyCode::F(12)), Action::ToggleLogs),
        (key('x'), Action::NoOp),
        (code(KeyCode::Esc), Action::NoOp),
        (code(KeyCode::F(2)), Action::NoOp),
        (code(KeyCode::Other), Action::NoOp),
    ];
    for (k, a) in table {
        let mut app = session();
        assert_eq!(app.handle_input(k), plain(a));
        assert_eq!(app.input_mode, InputMode::Normal);
        assert_eq!(app.status_msg, " Press 'h' for help ");
        assert_eq!(app.list_state.selected(), Some(0));
    }
}

#[test]
fn browsing_keys_move_the_selection_at_once() {
    let mut app = session();
    assert_eq!(app.handle_input(key('j')), Step { action: Action::NoOp, effect: Effect::LoadItem(1) });
    assert_eq!(app.list_state.selected(), Some(1));
    assert_eq!(app.handle_input(key('j')), plain(Action::NoOp));
    assert_eq!(app.list_state.selected(), Some(0));
    assert_eq!(app.handle_input(key('k')), Step { action: Action::NoOp, effect: Effect::LoadItem(1) });
    assert_eq!(app.list_state.selected(), Some(1));
}

#[test]
fn search_keys_enter_the_search_modes() {
    for (c, mode, prompt) in [
        ('/', InputMode::Search, "Search: "),
        ('#', InputMode::TagSearch, "Tag Search: "),
        ('?', InputMode::ContentSearch, "Content Search: "),
    ] {
        let mut app = session();
        app.search_query = "left over".to_string();
        assert_eq!(app.handle_input(key(c)), plain(Action::NoOp));
        assert_eq!(app.input_mode, mode);
        assert_eq!(app.search_query, "");
        assert_eq!(app.status_msg, prompt);
    }
}

#[test]
fn help_opens_and_closes() {
    let mut app = session();
    assert_eq!(app.handle_input(code(KeyCode::F(1))), plain(Action::NoOp));
    assert_eq!(app.input_mode, InputMode::Help);
    assert_eq!(app.status_msg, " Help ");
    for k in [key('j'), key('x'), code(KeyCode::Enter), code(KeyCode::Backspace), code(KeyCode::F(1))] {
        assert_eq!(app.handle_input(k), plain(Action::NoOp));
        assert_eq!(app.input_mode, InputMode::Help);
    }
    for k in [code(KeyCode::Esc), key('q'), key('h')] {
        app.input_mode = InputMode::Help;
        app.status_msg = " Help ".to_string();
        assert_eq!(app.handle_input(k), plain(Action::NoOp));
        assert_eq!(app.input_mode, InputMode::Normal);
        assert_eq!(app.status_msg, " Press 'h' for help ");
    }
}

#[test]
fn opening_a_folder_enters_it() {
    let mut app = session();
    let step = app.handle_input(key('l'));
    assert_eq!(step, Step { action: Action::NoOp, effect: Effect::Refresh });
    assert_eq!(app.current_dir, "sub");
    assert_eq!(app.status_msg, "Dir: sub");
    assert_eq!(app.list_state.selected(), Some(0));
    assert_eq!(app.listing_dir(), "/n/sub");

    let step = app.handle_input(code(KeyCode::Backspace));
    assert_eq!(step, Step { action: Action::NoOp, effect: Effect::Refresh });
    assert_eq!(app.current_dir, "");
    assert_eq!(app.status_msg, "Dir: ");

    assert_eq!(app.handle_input(key('h')), plain(Action::NoOp));
    assert_eq!(app.current_dir, "");
}

#[test]
fn leaving_a_nested_folder_goes_one_level_up() {
    let mut app = session();
    app.current_dir = "a/b/c".to_string();
    assert_eq!(app.handle_input(key('h')).effect, Effect::Refresh);
    assert_eq!(app.current_dir, "a/b");
    assert_eq!(app.status_msg, "Dir: a/b");
    app.search_query = "x".to_string();
    assert_eq!(app.handle_input(key('h')), plain(Action::NoOp));
    assert_eq!(app.current_dir, "a/b");
}

#[test]
fn opening_a_document_asks_for_the_editor() {
    let mut app = session();
    app.list_state.select(Some(1));
    assert_eq!(app.handle_input(code(KeyCode::Enter)), plain(Action::EditNote));
    assert_eq!(app.current_dir, "");
    app.list_state.select(Some(9));
    assert_eq!(app.handle_input(key('l')), plain(Action::NoOp));
    app.list_state.select(None);
    assert_eq!(app.handle_input(key('l')), plain(Action::NoOp));
    app.search_query = "al".to_string();
    assert_eq!(app.handle_input(key('l')), plain(Action::EditNote));
}

#[test]
fn typing_modes_hand_the_keys_on() {
    for mode in [InputMode::Editing, InputMode::CreatingFolder, InputMode::Renaming] {
        let mut app = session();
        app.input_mode = mode;
        assert_eq!(app.handle_input(code(KeyCode::Enter)), plain(Action::SubmitInput));
        assert_eq!(app.handle_input(code(KeyCode::Esc)), plain(Action::CancelInput));
        assert_eq!(app.handle_input(code(KeyCode::Backspace)), plain(Action::Backspace));
        assert_eq!(app.handle_input(key('q')), plain(Action::EnterChar('q')));
        assert_eq!(app.handle_input(ctrl('j')), plain(Action::EnterChar('j')));
        assert_eq!(app.handle_input(code(KeyCode::F(1))), plain(Action::NoOp));
        assert_eq!(app.input_mode, mode);
        assert_eq!(app.input, "");
    }
}

#[test]
fn a_deletion_hears_only_yes_and_no() {
    let mut app = session();
    app.input_mode = InputMode::ConfirmDelete;
    assert_eq!(app.handle_input(key('y')), plain(Action::SubmitInput));
    assert_eq!(app.handle_input(key('n')), plain(Action::CancelInput));
    assert_eq!(app.handle_input(code(KeyCode::Esc)), plain(Action::CancelInput));
    assert_eq!(app.handle_input(key('Y')), plain(Action::NoOp));
    assert_eq!(app.handle_input(code(KeyCode::Enter)), plain(Action::NoOp));
    assert_eq!(app.input_mode, InputMode::ConfirmDelete);
}

#[test]
fn every_keystroke_of_a_title_query_searches_again() {
    let mut app = session();
    app.handle_input(key('/'));
    let step = app.handle_input(key('g'));
    assert_eq!(step, Step { action: Action::NoOp, effect: Effect::LoadNote(0) });
    assert_eq!(app.search_query, "g");
    assert_eq!(app.status_msg, "Search: g");
    assert_eq!(titles(&app), vec!["gamma"]);
    app.handle_input(key('z'));
    assert_eq!(app.status_msg, "Search: gz");
    assert!(app.notes.is_empty());
    assert_eq!(app.list_state.selected(), None);
    app.handle_input(code(KeyCode::Backspace));
    assert_eq!(app.status_msg, "Search: g");
    assert_eq!(titles(&app), vec!["gamma"]);
    app.handle_input(code(KeyCode::Backspace));
    assert_eq!(app.search_query, "");
    assert_eq!(titles(&app), vec!["alpha", "beta", "gamma"]);
    app.handle_input(code(KeyCode::Backspace));
    assert_eq!(app.search_query, "");
    assert_eq!(app.input_mode, InputMode::Search);
    assert_eq!(app.handle_input(code(KeyCode::F(3))), plain(Action::NoOp));
}

#[test]
fn enter_keeps_the_filter_and_escape_clears_it() {
    for (open, notice) in [
        ('/', "Filter active. Esc to clear."),
        ('#', "Tag filter active. Esc to clear."),
        ('?', "Content filter active. Esc to clear."),
    ] {
        let mut app = session();
        app.handle_input(key(open));
        app.handle_input(key('g'));
        if open == '?' {
            app.update_content_search(&Vec::new());
        }
        let before = app.notes.len();
        assert_eq!(app.handle_input(code(KeyCode::Enter)), plain(Action::NoOp));
        assert_eq!(app.input_mode, InputMode::Normal);
        assert_eq!(app.status_msg, notice);
        assert_eq!(app.search_query, "g");
        assert_eq!(app.notes.len(), before);

        let mut app = session();
        app.handle_input(key(open));
        app.handle_input(key('g'));
        let step = app.handle_input(code(KeyCode::Esc));
        assert_eq!(step, plain(Action::NoOp));
        assert_eq!(app.input_mode, InputMode::Normal);
        assert_eq!(app.search_query, "");
        assert_eq!(app.status_msg, " Press 'h' for help ");
        assert_eq!(titles(&app), vec!["alpha", "beta", "gamma"]);
        assert_eq!(app.list_state.selected(), Some(0));
    }
}

#[test]
fn a_tag_query_searches_the_tags() {
    let mut app = session();
    app.handle_input(key('#'));
    app.handle_input(key('g'));
    assert_eq!(app.status_msg, "Tag Search: g");
    assert_eq!(titles(&app), vec!["beta"]);
}

#[test]
fn a_body_query_is_left_to_the_caller_to_run() {
    let mut app = session();
    app.handle_input(key('?'));
    let step = app.handle_input(key('F'));
    assert_eq!(step, Step { action: Action::NoOp, effect: Effect::SearchContent });
    assert_eq!(app.status_msg, "Content Search: F");
    assert_eq!(titles(&app), vec!["alpha", "beta", "gamma"]);
    let e = app.update_content_search(&vec![None, Some("a fine day".to_string()), None]);
    assert_eq!(titles(&app), vec!["alpha", "beta"]);
    assert_eq!(e, Effect::Nothing);
    let step = app.handle_input(code(KeyCode::Backspace));
    assert_eq!(step, plain(Action::NoOp));
    assert_eq!(titles(&app), vec!["alpha", "beta", "gamma"]);
    assert_eq!(app.status_msg, "Content Search: ");
}

#[test]
fn the_same_state_and_key_give_the_same_step() {
    let keys = [key('j'), key('/'), key('l'), code(KeyCode::Enter), key('q'), code(KeyCode::Esc)];
    for k in keys {
        let mut worn = session();
        for earlier in [key('j'), key('k'), key('/'), key('a'), code(KeyCode::Esc)] {
            worn.handle_input(earlier);
        }
        worn.handle_input(key('k'));
        worn.list_state.select(Some(0));
        worn.recent_indices.clear();
        worn.recent_indices.push_back(0);
        let mut fresh = session();
        assert_eq!(fresh.handle_input(k), worn.handle_input(k));
        assert_eq!(fresh.input_mode, worn.input_mode);
        assert_eq!(fresh.status_msg, worn.status_msg);
        assert_eq!(fresh.list_state, worn.list_state);
        assert_eq!(fresh.search_query, worn.search_query);
        assert_eq!(fresh.current_dir, worn.current_dir);
        assert_eq!(fresh.notes, worn.notes);
    }
}

#[test]
fn quitting_syncs_first_where_configured() {
    let mut app = session();
    assert_eq!(app.dispatch(Action::Quit), Effect::Nothing);
    assert!(app.should_quit && !app.syncing);
    for (setting, effect) in [(Some(true), Effect::SyncAndQuit), (Some(false), Effect::Nothing), (None, Effect::Nothing)] {
        let mut app = session();
        app.config.auto_sync = setting;
        assert_eq!(app.dispatch(Action::Quit), effect);
        assert!(app.should_quit);
        assert_eq!(app.syncing, setting == Some(true));
    }
}

#[test]
fn simple_actions() {
    let mut app = session();
    assert_eq!(app.dispatch(Action::NoOp), Effect::Nothing);
    assert_eq!(app.dispatch(Action::ToggleLogs), Effect::Nothing);
    assert!(app.show_logs);
    app.dispatch(Action::ToggleLogs);
    assert!(!app.show_logs);

    assert_eq!(app.dispatch(Action::ScrollUp), Effect::Nothing);
    assert_eq!(app.preview_scroll, 0);
    app.dispatch(Action::ScrollDown);
    app.dispatch(Action::ScrollDown);
    assert_eq!(app.preview_scroll, 2);
    app.dispatch(Action::ScrollUp);
    assert_eq!(app.preview_scroll, 1);
    app.preview_scroll = u16::MAX;
    app.dispatch(Action::ScrollDown);
    assert_eq!(app.preview_scroll, u16::MAX);

    let accent = app.theme.accent;
    assert_eq!(app.dispatch(Action::CycleTheme), Effect::Nothing);
    assert_ne!(app.theme.accent, accent);
}

#[test]
fn cycling_the_sort_policy_reorders_and_saves() {
    let mut app = session();
    app.notes = vec![note("b", None), note("a", None)];
    assert_eq!(app.dispatch(Action::CycleSort), Effect::SaveConfig);
    assert_eq!(app.save_config().sort_mode, Some("Name".to_string()));
    assert_eq!(titles(&app), vec!["a", "b"]);
    app.dispatch(Action::CycleSort);
    assert_eq!(app.save_config().sort_mode, Some("Size".to_string()));
    app.dispatch(Action::CycleSort);
    assert_eq!(app.save_config().sort_mode, Some("Date".to_string()));
}

#[test]
fn sync_runs_once_at_a_time() {
    let mut app = session();
    assert_eq!(app.dispatch(Action::Sync), Effect::Sync);
    assert!(app.syncing);
    assert_eq!(app.dispatch(Action::Sync), Effect::Nothing);
    app.sync_finished(Ok("synced!".to_string()));
    assert!(!app.syncing);
    assert_eq!(app.status_msg, "synced!");
    app.dispatch(Action::Sync);
    app.sync_finished(Err(KirokuError::Git("push failed".to_string())));
    assert!(!app.syncing);
    assert_eq!(app.status_msg, "Sync error: Git error: push failed");
}

#[test]
fn names_are_typed_into_the_input() {
    let mut app = session();
    app.input = "stale".to_string();
    assert_eq!(app.dispatch(Action::NewNote), Effect::Nothing);
    assert_eq!((app.input_mode, app.input.as_str(), app.status_msg.as_str()), (InputMode::Editing, "", "Enter filename: "));
    app.dispatch(Action::EnterChar('a'));
    app.dispatch(Action::EnterChar(' '));
    app.dispatch(Action::EnterChar('b'));
    app.dispatch(Action::EnterChar('x'));
    app.dispatch(Action::Backspace);
    assert_eq!(app.input, "a b");
    assert_eq!(app.dispatch(Action::CancelInput), Effect::Nothing);
    assert_eq!((app.input_mode, app.input.as_str(), app.status_msg.as_str()), (InputMode::Normal, "", "Cancelled."));
    app.dispatch(Action::Backspace);
    assert_eq!(app.input, "");

    app.dispatch(Action::NewFolder);
    assert_eq!((app.input_mode, app.status_msg.as_str()), (InputMode::CreatingFolder, "Enter folder name: "));
}

#[test]
fn creating_a_document() {
    let mut app = session();
    app.current_dir = "sub".to_string();
    app.dispatch(Action::NewNote);
    assert_eq!(app.dispatch(Action::SubmitInput), Effect::Nothing);
    app.input = "   ".to_string();
    assert_eq!(app.dispatch(Action::SubmitInput), Effect::Nothing);
    app.input = " My Note ".to_string();
    assert_eq!(app.dispatch(Action::SubmitInput), Effect::CreateNote("/n/sub/My_Note.md".to_string()));
    assert_eq!(app.input_mode, InputMode::Editing);

    let e = app.note_created(Err(KirokuError::Io(IoKind::AlreadyExists, "File already exists".to_string())));
    assert_eq!(e, Effect::Nothing);
    assert_eq!(app.status_msg, "Error: IO error: File already exists");
    assert_eq!(app.input_mode, InputMode::Editing);

    let e = app.note_created(Ok("/n/sub/My_Note.md".to_string()));
    assert_eq!(e, Effect::EditNew("/n/sub/My_Note.md".to_string()));
    assert_eq!(app.status_msg, "Note created.");
    assert_eq!(app.input_mode, InputMode::Normal);
}

#[test]
fn creating_a_folder() {
    let mut app = session();
    app.dispatch(Action::NewFolder);
    app.input = "new folder".to_string();
    assert_eq!(app.dispatch(Action::SubmitInput), Effect::CreateFolder("/n/new_folder".to_string()));
    assert_eq!(app.folder_created(Err(KirokuError::Io(IoKind::AlreadyExists, "Folder already exists".to_string()))), Effect::Nothing);
    assert_eq!(app.status_msg, "Error: IO error: Folder already exists");
    assert_eq!(app.input_mode, InputMode::CreatingFolder);
    assert_eq!(app.folder_created(Ok("/n/new_folder".to_string())), Effect::Refresh);
    assert_eq!(app.status_msg, "Folder created.");
    assert_eq!(app.input_mode, InputMode::Normal);
}

#[test]
fn renaming_the_selected_entry() {
    let mut app = session();
    app.list_state.select(Some(1));
    assert_eq!(app.dispatch(Action::RenameNote), Effect::Nothing);
    assert_eq!((app.input_mode, app.input.as_str(), app.status_msg.as_str()), (InputMode::Renaming, "alpha", "Rename item: "));
    app.input = "better name".to_string();
    assert_eq!(
        app.dispatch(Action::SubmitInput),
        Effect::Rename("/n/alpha.md".to_string(), "/n/better_name.md".to_string())
    );
    assert_eq!(app.item_renamed(Err(KirokuError::Io(IoKind::AlreadyExists, "File already exists".to_string()))), Effect::Nothing);
    assert_eq!(app.status_msg, "Rename error: IO error: File already exists");
    assert_eq!(app.input_mode, InputMode::Renaming);
    assert_eq!(app.item_renamed(Ok("/n/better_name.md".to_string())), Effect::Refresh);
    assert_eq!(app.status_msg, "Item renamed.");
    assert_eq!(app.input_mode, InputMode::Normal);

    app.list_state.select(Some(0));
    app.dispatch(Action::RenameNote);
    assert_eq!(app.input, "sub");

    let mut app = session();
    app.list_state.select(None);
    app.dispatch(Action::RenameNote);
    assert_eq!(app.input_mode, InputMode::Normal);
    app.list_state.select(Some(7));
    app.dispatch(Action::RenameNote);
    assert_eq!(app.input_mode, InputMode::Normal);
    app.input_mode = InputMode::Renaming;
    app.input = "x".to_string();
    assert_eq!(app.dispatch(Action::SubmitInput), Effect::Nothing);
    app.list_state.select(Some(0));
    app.input = " ".to_string();
    assert_eq!(app.dispatch(Action::SubmitInput), Effect::Nothing);
}

#[test]
fn renaming_an_entry_without_a_folder_above_it_fails() {
    let mut app = session();
    app.search_query = "x".to_string();
    app.notes = vec![Note {
        path: "/".to_string(),
        title: "".to_string(),
        content: None,
        last_modified: 0,
        size: 0,
        tags: Vec::new(),
    }];
    app.list_state.select(Some(0));
    app.input_mode = InputMode::Renaming;
    app.input = "x".to_string();
    assert_eq!(app.dispatch(Action::SubmitInput), Effect::Nothing);
    assert_eq!(
        app.status_msg,
        "Rename error: Environment error: Could not determine parent directory"
    );
}

#[test]
fn deleting_the_selected_entry() {
    let mut app = session();
    app.list_state.select(Some(1));
    assert_eq!(app.dispatch(Action::DeleteNote), Effect::Nothing);
    assert_eq!(app.input_mode, InputMode::ConfirmDelete);
    assert_eq!(app.status_msg, "Delete 'alpha'? (y/n)");
    assert_eq!(app.dispatch(Action::SubmitInput), Effect::Delete("/n/alpha.md".to_string()));
    assert_eq!(app.input_mode, InputMode::Normal);
    assert_eq!(app.item_deleted(Err(KirokuError::Io(IoKind::PermissionDenied, "denied".to_string()))), Effect::Nothing);
    assert_eq!(app.status_msg, "Delete error: IO error: denied");
    assert_eq!(app.item_deleted(Ok(())), Effect::Refresh);
    assert_eq!(app.status_msg, "Item deleted.");

    app.list_state.select(Some(0));
    app.dispatch(Action::DeleteNote);
    assert_eq!(app.status_msg, "Delete 'sub'? (y/n)");
    assert_eq!(app.dispatch(Action::SubmitInput), Effect::Delete("/n/sub".to_string()));

    app.list_state.select(None);
    app.input_mode = InputMode::ConfirmDelete;
    assert_eq!(app.dispatch(Action::SubmitInput), Effect::Nothing);
    assert_eq!(app.input_mode, InputMode::Normal);
    app.dispatch(Action::DeleteNote);
    assert_eq!(app.input_mode, InputMode::Normal);
}

#[test]
fn submitting_outside_a_typing_mode_does_nothing() {
    for mode in [InputMode::Normal, InputMode::Search, InputMode::Help] {
        let mut app = session();
        app.input_mode = mode;
        app.input = "x".to_string();
        assert_eq!(app.dispatch(Action::SubmitInput), Effect::Nothing);
        assert_eq!(app.input_mode, mode);
    }
}

#[test]
fn editing_the_selected_document() {
    let mut app = session();
    assert_eq!(app.dispatch(Action::EditNote), Effect::Nothing);
    app.list_state.select(Some(1));
    assert_eq!(app.dispatch(Action::EditNote), Effect::Edit("/n/alpha.md".to_string()));
    app.editor_closed(Ok(()));
    assert_eq!(app.status_msg, " Press 'h' for help ");
    app.editor_closed(Err(KirokuError::Env("Editor exited with non-zero status".to_string())));
    assert_eq!(app.status_msg, "Editor error: Environment error: Editor exited with non-zero status");
    app.search_query = "g".to_string();
    app.update_search();
    assert_eq!(app.dispatch(Action::EditNote), Effect::Edit("/n/gamma.md".to_string()));
}

#[test]
fn copying_to_the_clipboard() {
    let mut app = session();
    assert_eq!(app.dispatch(Action::CopyPath), Effect::CopyPath("/n/sub".to_string()));
    assert_eq!(app.dispatch(Action::CopyContent), Effect::Nothing);
    assert_eq!(app.status_msg, "Note content not loaded or item is folder.");
    app.list_state.select(Some(1));
    app.load_fs_item_content(1, Some("the text".to_string()));
    assert_eq!(app.dispatch(Action::CopyContent), Effect::CopyContent("the text".to_string()));
    assert_eq!(app.dispatch(Action::CopyPath), Effect::CopyPath("/n/alpha.md".to_string()));

    app.copied(CopyKind::Content, CopyOutcome::Done);
    assert_eq!(app.status_msg, "Content copied to clipboard.");
    app.copied(CopyKind::Path, CopyOutcome::Done);
    assert_eq!(app.status_msg, "Path copied to clipboard.");
    app.copied(CopyKind::Path, CopyOutcome::Failed("no display".to_string()));
    assert_eq!(app.status_msg, "Copy error: no display");
    app.copied(CopyKind::Content, CopyOutcome::Unavailable);
    assert_eq!(app.status_msg, "Clipboard unavailable.");

    let mut app = session();
    app.list_state.select(None);
    app.status_msg = "untouched".to_string();
    assert_eq!(app.dispatch(Action::CopyContent), Effect::Nothing);
    assert_eq!(app.dispatch(Action::CopyPath), Effect::Nothing);
    assert_eq!(app.status_msg, "untouched");
    app.list_state.select(Some(50));
    assert_eq!(app.dispatch(Action::CopyPath), Effect::Nothing);
    assert_eq!(app.dispatch(Action::CopyContent), Effect::Nothing);
    assert_eq!(app.status_msg, "Note content not loaded or item is folder.");
    app.search_query = "al".to_string();
    app.update_search();
    assert_eq!(app.dispatch(Action::CopyContent), Effect::CopyContent("first body".to_string()));
}

#[test]
fn events_are_routed() {
    let mut app = session();
    assert_eq!(app.handle_event(AppEvent::FileChanged), Effect::Rescan);
    app.syncing = true;
    assert_eq!(app.handle_event(AppEvent::Tick), Effect::Nothing);
    assert_eq!(app.spinner_index, 1);
    app.syncing = false;
    assert_eq!(app.handle_event(AppEvent::Input(key('j'))), Effect::LoadItem(1));
    assert_eq!(app.handle_event(AppEvent::Input(key('n'))), Effect::Nothing);
    assert_eq!(app.input_mode, InputMode::Editing);
    for c in "to do".chars() {
        assert_eq!(app.handle_event(AppEvent::Input(key(c))), Effect::Nothing);
    }
    assert_eq!(
        app.handle_event(AppEvent::Input(code(KeyCode::Enter))),
        Effect::CreateNote("/n/to_do.md".to_string())
    );
    assert_eq!(app.handle_event(AppEvent::Input(code(KeyCode::Esc))), Effect::Nothing);
    assert_eq!(app.status_msg, "Cancelled.");
    assert_eq!(app.handle_event(AppEvent::Input(key('q'))), Effect::Nothing);
    assert!(app.should_quit);
}

#[test]
fn entering_an_empty_folder_leaves_nothing_selected() {
    let mut app = session();
    assert_eq!(app.handle_event(AppEvent::Input(key('l'))), Effect::Refresh);
    assert_eq!(app.current_dir, "sub");
    app.refresh_fs_view(&vec![dir("/n/sub")]);
    assert!(app.fs_items.is_empty());
    assert_eq!(app.list_state.selected(), None);
    assert_eq!(app.handle_event(AppEvent::Input(key('j'))), Effect::Nothing);
    assert_eq!(app.list_state.selected(), None);

    assert_eq!(app.handle_event(AppEvent::Input(key('h'))), Effect::Refresh);
    app.refresh_fs_view(&vec![dir("/n"), dir("/n/sub"), file("/n/alpha.md")]);
    assert_eq!(app.list_state.selected(), Some(0));

    app.handle_event(AppEvent::Input(key('l')));
    app.refresh_fs_view(&vec![dir("/n/sub"), file("/n/sub/inner.md")]);
    assert_eq!(app.list_state.selected(), Some(0));
    assert_eq!(app.fs_items.len(), 1);
}

#[test]
fn every_key_leaves_the_selection_within_the_list() {
    let keys = [
        key('j'), key('k'), key('/'), key('a'), key('z'), code(KeyCode::Backspace),
        code(KeyCode::Enter), key('?'), key('x'), code(KeyCode::Esc), key('#'), key('g'),
        code(KeyCode::Esc), key('l'), key('h'), key('k'),
    ];
    let mut app = session();
    app.list_state.select(Some(40));
    for k in keys {
        app.handle_input(k);
        let len = if app.searching() { app.notes.len() } else { app.fs_items.len() };
        match app.list_state.selected() {
            Some(i) => assert!(i < len),
            None => assert_eq!(len, 0),
        }
    }
}
