use kiroku_tui::app::{parse_color, App, Effect, InputMode, ListState, Rgb, SortMode, ThemeColors};
use kiroku_tui::cache::find_note;
use kiroku_tui::config::{Config, Theme};
use kiroku_tui::data::{EntryKind, FileMeta, FileSystemItem, Note, ScanEntry};

fn note(title: &str, modified: i128, size: u64) -> Note {
    Note {
        path: format!("/n/{}.md", title),
        title: title.to_string(),
        content: None,
        last_modified: modified,
        size,
        tags: Vec::new(),
    }
}

fn loaded(title: &str) -> Note {
    let mut n = note(title, 0, 0);
    n.content = Some(format!("body of {}", title));
    n
}

fn dir(path: &str) -> ScanEntry {
    ScanEntry { path: path.to_string(), kind: EntryKind::Dir, meta: None, tags: Vec::new() }
}

fn file(path: &str) -> ScanEntry {
    ScanEntry {
        path: path.to_string(),
        kind: EntryKind::File,
        meta: Some(FileMeta { size: 1, modified: 1 }),
        tags: Vec::new(),
    }
}

fn tree() -> Vec<ScanEntry> {
    vec![dir("/n"), dir("/n/a"), dir("/n/a/b"), file("/n/a/b/c.md")]
}

fn shown(app: &App) -> Vec<String> {
    app.fs_items
        .iter()
        .map(|i| match i {
            FileSystemItem::Folder(p) => format!("folder {}", p),
            FileSystemItem::Note(n) => format!("document {}", n.path),
        })
        .collect()
}

fn titles(app: &App) -> Vec<&str> {
    app.notes.iter().map(|n| n.title.as_str()).collect()
}

#[test]
fn listing_shows_one_level_below_the_cursor_only() {
    let mut app = App::new(Vec::new(), &tree(), "/n".to_string(), Config::default());
    assert_eq!(shown(&app), vec!["folder /n/a"]);
    assert_eq!(app.listing_dir(), "/n");

    app.current_dir = "a".to_string();
    assert_eq!(app.listing_dir(), "/n/a");
    let below_a = vec![dir("/n/a"), dir("/n/a/b"), file("/n/a/b/c.md")];
    app.refresh_fs_view(&below_a);
    assert_eq!(shown(&app), vec!["folder /n/a/b"]);

    app.current_dir = "a/b".to_string();
    let below_b = vec![dir("/n/a/b"), file("/n/a/b/c.md")];
    app.refresh_fs_view(&below_b);
    assert_eq!(shown(&app), vec!["document /n/a/b/c.md"]);

    app.refresh_fs_view(&tree());
    assert_eq!(shown(&app), vec!["document /n/a/b/c.md"]);
}

#[test]
fn listing_puts_folders_before_documents_and_skips_hidden_entries() {
    let entries = vec![
        dir("/n"),
        file("/n/b.md"),
        dir("/n/z"),
        file("/n/a.md"),
        dir("/n/.git"),
        file("/n/.x.md"),
        file("/n/z/deep.md"),
        file("/n/readme.txt"),
    ];
    let app = App::new(Vec::new(), &entries, "/n".to_string(), Config::default());
    assert_eq!(shown(&app), vec!["folder /n/z", "document /n/a.md", "document /n/b.md"]);
    assert_eq!(app.list_state.selected(), Some(0));
}

#[test]
fn a_new_session_starts_browsing_the_root() {
    let app = App::new(Vec::new(), &Vec::new(), "/n".to_string(), Config::default());
    assert_eq!(app.input_mode, InputMode::Normal);
    assert_eq!(app.status_msg, " Press 'h' for help ");
    assert_eq!(app.current_dir, "");
    assert_eq!(app.list_state, ListState { offset: 0, selected: None });
    assert_eq!(app.sort_mode, SortMode::Date);
    assert_eq!(app.theme, ThemeColors::default());
    assert_eq!(app.cache_capacity, 10);
    assert!(!app.should_quit && !app.show_logs && !app.syncing);
    assert!(app.recent_indices.is_empty());
    assert!(app.fs_items.is_empty() && app.notes.is_empty() && app.all_notes.is_empty());
}

#[test]
fn a_new_session_orders_the_documents_by_the_configured_policy() {
    let notes = vec![note("b", 1, 30), note("C", 3, 10), note("a", 2, 20)];
    let by = |mode: Option<&str>| {
        let mut config = Config::default();
        config.sort_mode = mode.map(|m| m.to_string());
        let app = App::new(notes.clone(), &Vec::new(), "/n".to_string(), config);
        (app.sort_mode, app.notes.iter().map(|n| n.title.clone()).collect::<Vec<_>>())
    };
    assert_eq!(by(Some("Date")), (SortMode::Date, vec!["C".to_string(), "a".into(), "b".into()]));
    assert_eq!(by(Some("Name")), (SortMode::Name, vec!["a".to_string(), "b".into(), "C".into()]));
    assert_eq!(by(Some("Size")), (SortMode::Size, vec!["b".to_string(), "a".into(), "C".into()]));
    assert_eq!(by(Some("size")).0, SortMode::Date);
    assert_eq!(by(None).0, SortMode::Date);
}

#[test]
fn sorting_by_size_is_descending_and_stable() {
    let notes = vec![
        note("s5a", 0, 5),
        note("s9", 0, 9),
        note("s5b", 0, 5),
        note("s0", 0, 0),
        note("max", 0, u64::MAX),
        note("s5c", 0, 5),
    ];
    let mut app = App::new(notes, &Vec::new(), "/n".to_string(), Config::default());
    app.sort_mode = SortMode::Size;
    app.sort_notes();
    assert_eq!(titles(&app), vec!["max", "s9", "s5a", "s5b", "s5c", "s0"]);
    for w in app.notes.windows(2) {
        assert!(w[0].size >= w[1].size);
    }
}

#[test]
fn sorting_leaves_a_search_result_alone() {
    let notes = vec![note("small", 0, 1), note("big", 0, 9)];
    let mut app = App::new(notes, &Vec::new(), "/n".to_string(), Config::default());
    app.search_query = "x".to_string();
    app.sort_mode = SortMode::Size;
    app.sort_notes();
    assert_eq!(titles(&app), vec!["small", "big"]);
}

#[test]
fn sorting_by_name_ignores_case() {
    let notes = vec![note("banana", 0, 0), note("Apple", 0, 0), note("cherry", 0, 0), note("apple", 0, 0)];
    let mut app = App::new(notes, &Vec::new(), "/n".to_string(), Config::default());
    app.sort_mode = SortMode::Name;
    app.sort_notes();
    assert_eq!(titles(&app), vec!["Apple", "apple", "banana", "cherry"]);
}

#[test]
fn colours_are_read_from_hex_text() {
    let white = Rgb { r: 255, g: 255, b: 255 };
    let p = |s: &str| parse_color(&Some(s.to_string()), white);
    assert_eq!(p("#89dceb"), Rgb { r: 137, g: 220, b: 235 });
    assert_eq!(p("#FABD2F"), Rgb { r: 250, g: 189, b: 47 });
    assert_eq!(p("#000000"), Rgb { r: 0, g: 0, b: 0 });
    assert_eq!(p("#+1+a+F"), Rgb { r: 1, g: 10, b: 15 });
    assert_eq!(p("89dceb"), white);
    assert_eq!(p("#89dce"), white);
    assert_eq!(p("#89dcebb"), white);
    assert_eq!(p("#89dcex"), white);
    assert_eq!(p("#-1-1-1"), white);
    assert_eq!(p("#1+1+1+"), white);
    assert_eq!(p("#ééé"), white);
    assert_eq!(p(""), white);
    assert_eq!(parse_color(&None, white), white);
}

#[test]
fn configured_colours_override_the_initial_theme() {
    let mut config = Config::default();
    config.theme = Some(Theme {
        accent: Some("#010203".to_string()),
        selection: None,
        header: Some("nonsense".to_string()),
        dim: Some("#0a0b0c".to_string()),
        bold: None,
    });
    let app = App::new(Vec::new(), &Vec::new(), "/n".to_string(), config);
    let d = ThemeColors::default();
    assert_eq!(app.theme.accent, Rgb { r: 1, g: 2, b: 3 });
    assert_eq!(app.theme.selection, d.selection);
    assert_eq!(app.theme.header, d.header);
    assert_eq!(app.theme.dim, Rgb { r: 10, g: 11, b: 12 });
    assert_eq!(app.theme.bold, d.bold);
}

#[test]
fn themes_cycle() {
    let mut app = App::new(Vec::new(), &Vec::new(), "/n".to_string(), Config::default());
    let first = app.theme;
    assert_eq!(first.accent, Rgb { r: 137, g: 220, b: 235 });
    app.cycle_theme();
    assert_eq!(app.theme.accent, Rgb { r: 250, g: 189, b: 47 });
    assert_eq!(app.theme.bold, Rgb { r: 254, g: 128, b: 25 });
    app.cycle_theme();
    assert_eq!(app.theme.accent, Rgb { r: 122, g: 162, b: 247 });
    assert_eq!(app.theme.dim, Rgb { r: 86, g: 95, b: 137 });
    app.cycle_theme();
    assert_eq!(app.theme, first);
    app.theme.accent = Rgb { r: 1, g: 1, b: 1 };
    app.cycle_theme();
    assert_eq!(app.theme, first);
}

#[test]
fn the_spinner_turns_only_while_syncing() {
    let mut app = App::new(Vec::new(), &Vec::new(), "/n".to_string(), Config::default());
    app.tick();
    assert_eq!(app.spinner_index, 0);
    app.syncing = true;
    let mut seen = Vec::new();
    for _ in 0..5 {
        app.tick();
        seen.push(app.spinner_index);
    }
    assert_eq!(seen, vec![1, 2, 3, 0, 1]);
    app.spinner_index = usize::MAX;
    app.tick();
    assert_eq!(app.spinner_index, 0);
}

#[test]
fn quitting_and_saving() {
    let mut app = App::new(Vec::new(), &Vec::new(), "/n".to_string(), Config::default());
    app.quit();
    assert!(app.should_quit);
    app.sort_mode = SortMode::Size;
    app.config.editor_cmd = Some("nano".to_string());
    let saved = app.save_config();
    assert_eq!(saved.sort_mode, Some("Size".to_string()));
    assert_eq!(saved.editor_cmd, Some("nano".to_string()));
    assert_eq!(saved.auto_sync, Some(false));
    assert_eq!(app.config.sort_mode, Some("Date".to_string()));
}

#[test]
fn selection_steps_wrap_around_in_a_search_result() {
    let notes = vec![loaded("xa"), loaded("xb"), note("xc", 0, 0)];
    let mut app = App::new(notes, &Vec::new(), "/n".to_string(), Config::default());
    app.search_query = "x".to_string();
    app.update_search();
    assert_eq!(app.list_state.selected(), Some(0));
    app.preview_scroll = 7;

    assert_eq!(app.next(), Effect::Nothing);
    assert_eq!(app.list_state.selected(), Some(1));
    assert_eq!(app.preview_scroll, 0);
    assert_eq!(app.next(), Effect::LoadNote(2));
    assert_eq!(app.list_state.selected(), Some(2));
    assert_eq!(app.next(), Effect::Nothing);
    assert_eq!(app.list_state.selected(), Some(0));
    assert_eq!(app.previous(), Effect::LoadNote(2));
    assert_eq!(app.list_state.selected(), Some(2));
    assert_eq!(app.previous(), Effect::Nothing);
    assert_eq!(app.list_state.selected(), Some(1));

    app.list_state.select(None);
    assert_eq!(app.previous(), Effect::Nothing);
    assert_eq!(app.list_state.selected(), Some(0));
    app.list_state.select(Some(99));
    app.next();
    assert_eq!(app.list_state.selected(), Some(0));
}

#[test]
fn selection_steps_through_the_listing_while_browsing() {
    let entries = vec![dir("/n"), dir("/n/d"), file("/n/a.md"), file("/n/b.md")];
    let mut app = App::new(Vec::new(), &entries, "/n".to_string(), Config::default());
    assert_eq!(app.list_state.selected(), Some(0));
    assert_eq!(app.next(), Effect::LoadItem(1));
    app.load_fs_item_content(1, Some("text a".to_string()));
    assert_eq!(app.next(), Effect::LoadItem(2));
    assert_eq!(app.next(), Effect::Nothing);
    assert_eq!(app.list_state.selected(), Some(0));
    assert_eq!(app.next(), Effect::Nothing);
    assert_eq!(app.list_state.selected(), Some(1));
    assert_eq!(app.previous(), Effect::Nothing);
    assert_eq!(app.previous(), Effect::LoadItem(2));
    assert!(app.recent_indices.is_empty());
}

#[test]
fn steps_in_an_empty_list_change_nothing() {
    let mut app = App::new(Vec::new(), &Vec::new(), "/n".to_string(), Config::default());
    app.preview_scroll = 3;
    assert_eq!(app.next(), Effect::Nothing);
    assert_eq!(app.previous(), Effect::Nothing);
    assert_eq!(app.list_state.selected(), None);
    assert_eq!(app.preview_scroll, 3);
    app.search_query = "q".to_string();
    assert_eq!(app.next(), Effect::Nothing);
    assert_eq!(app.list_state.selected(), None);
}

#[test]
fn listing_items_get_their_body_once() {
    let entries = vec![dir("/n"), dir("/n/d"), file("/n/a.md")];
    let mut app = App::new(Vec::new(), &entries, "/n".to_string(), Config::default());
    assert!(!app.item_lacks_body(0));
    assert!(app.item_lacks_body(1));
    assert!(!app.item_lacks_body(2));
    app.load_fs_item_content(0, Some("folder".to_string()));
    app.load_fs_item_content(5, Some("nowhere".to_string()));
    app.load_fs_item_content(1, None);
    assert!(app.item_lacks_body(1));
    app.load_fs_item_content(1, Some("first".to_string()));
    app.load_fs_item_content(1, Some("second".to_string()));
    match &app.fs_items[1] {
        FileSystemItem::Note(n) => assert_eq!(n.content, Some("first".to_string())),
        FileSystemItem::Folder(_) => panic!("a document was listed here"),
    }
    assert_eq!(app.fs_items[0], FileSystemItem::Folder("/n/d".to_string()));
}

fn many(n: usize) -> Vec<Note> {
    (0..n).map(|i| note(&format!("n{}", i), 0, 0)).collect()
}

fn resident(app: &App) -> Vec<usize> {
    (0..app.notes.len()).filter(|i| app.notes[*i].content.is_some()).collect()
}

#[test]
fn loading_more_than_the_capacity_evicts_the_least_recently_used() {
    let mut app = App::new(many(8), &Vec::new(), "/n".to_string(), Config::default());
    app.cache_capacity = 3;
    app.list_state.select(Some(6));
    for i in [4usize, 0, 5, 2, 7, 6] {
        app.load_note_content(i, Some(format!("b{}", i)));
    }
    assert_eq!(app.recent_indices, vec![2, 7, 6]);
    assert_eq!(resident(&app), vec![2, 6, 7]);
    assert_eq!(app.notes[6].content, Some("b6".to_string()));
    assert_eq!(app.notes[1].content, None);
}

#[test]
fn the_selected_document_is_never_evicted() {
    let mut app = App::new(many(6), &Vec::new(), "/n".to_string(), Config::default());
    app.cache_capacity = 2;
    app.search_query = "n".to_string();
    app.list_state.select(Some(0));
    for i in [0usize, 1, 2, 3] {
        app.load_note_content(i, Some("b".to_string()));
    }
    assert_eq!(app.recent_indices, vec![2, 3]);
    assert_eq!(resident(&app), vec![0, 2, 3]);
}

#[test]
fn the_selected_entry_of_the_listing_pins_its_document() {
    let entries = vec![dir("/n"), file("/n/n1.md"), file("/n/n4.md")];
    let mut app = App::new(many(6), &entries, "/n".to_string(), Config::default());
    app.cache_capacity = 1;
    app.list_state.select(Some(0));
    app.load_note_content(1, Some("b".to_string()));
    app.load_note_content(2, Some("b".to_string()));
    assert_eq!(resident(&app), vec![1, 2]);
    app.load_note_content(3, Some("b".to_string()));
    assert_eq!(resident(&app), vec![1, 3]);
    app.list_state.select(Some(1));
    app.load_note_content(5, Some("b".to_string()));
    assert_eq!(resident(&app), vec![1, 5]);
    assert_eq!(app.recent_indices, vec![5]);
}

#[test]
fn reordering_the_list_takes_the_cache_along() {
    let notes = vec![note("c", 3, 1), note("a", 2, 3), note("b", 1, 2)];
    let mut app = App::new(notes, &Vec::new(), "/n".to_string(), Config::default());
    app.cache_capacity = 2;
    app.load_note_content(0, Some("body c".to_string()));
    app.load_note_content(2, Some("body b".to_string()));
    assert_eq!(app.recent_indices, vec![0, 2]);

    app.sort_mode = SortMode::Name;
    app.sort_notes();
    assert_eq!(titles(&app), vec!["a", "b", "c"]);
    assert_eq!(app.recent_indices, vec![2, 1]);
    assert_eq!(app.notes[2].content, Some("body c".to_string()));
    assert_eq!(app.notes[1].content, Some("body b".to_string()));

    app.load_note_content(0, Some("body a".to_string()));
    assert_eq!(app.recent_indices, vec![1, 0]);
    assert_eq!(app.notes[2].content, None);
    assert_eq!(resident(&app), vec![0, 1]);
}

#[test]
fn a_search_keeps_only_the_cached_documents_it_lists() {
    let notes = vec![note("apple", 0, 0), note("banana", 0, 0), note("grape", 0, 0)];
    let mut app = App::new(notes, &Vec::new(), "/n".to_string(), Config::default());
    app.load_note_content(1, Some("b".to_string()));
    app.load_note_content(2, Some("g".to_string()));
    app.load_note_content(0, Some("a".to_string()));
    assert_eq!(app.recent_indices, vec![1, 2, 0]);
    app.search_query = "grape".to_string();
    app.update_search();
    assert_eq!(titles(&app), vec!["grape"]);
    assert_eq!(app.recent_indices, vec![0]);
    app.search_query = String::new();
    app.update_search();
    assert_eq!(app.recent_indices, vec![2]);
}

#[test]
fn using_a_document_again_makes_it_the_most_recent() {
    let mut app = App::new(many(5), &Vec::new(), "/n".to_string(), Config::default());
    app.cache_capacity = 3;
    for i in [0usize, 1, 2] {
        app.load_note_content(i, Some(format!("b{}", i)));
    }
    app.load_note_content(0, Some("other".to_string()));
    assert_eq!(app.recent_indices, vec![1, 2, 0]);
    assert_eq!(app.notes[0].content, Some("b0".to_string()));
    app.load_note_content(3, Some("b3".to_string()));
    assert_eq!(app.recent_indices, vec![2, 0, 3]);
    assert_eq!(resident(&app), vec![0, 2, 3]);
    assert_eq!(app.touch(2), Effect::Nothing);
    assert_eq!(app.recent_indices, vec![0, 3, 2]);
    assert_eq!(app.touch(1), Effect::LoadNote(1));
    assert_eq!(app.recent_indices, vec![0, 3, 2]);
}

#[test]
fn a_failed_load_changes_nothing() {
    let mut app = App::new(many(3), &Vec::new(), "/n".to_string(), Config::default());
    app.load_note_content(1, None);
    app.load_note_content(7, Some("nowhere".to_string()));
    assert!(app.recent_indices.is_empty());
    assert!(resident(&app).is_empty());
}

#[test]
fn stale_positions_in_the_queue_are_dropped_quietly() {
    let mut app = App::new(many(3), &Vec::new(), "/n".to_string(), Config::default());
    app.cache_capacity = 1;
    app.recent_indices.push_back(40);
    app.load_note_content(1, Some("b".to_string()));
    assert_eq!(app.recent_indices, vec![1]);
    assert_eq!(resident(&app), vec![1]);
}

#[test]
fn a_changed_directory_is_indexed_anew() {
    let mut app = App::new(many(2), &Vec::new(), "/n".to_string(), Config::default());
    let mut newer = file("/n/fresh.md");
    newer.meta = Some(FileMeta { size: 3, modified: 9 });
    let e = app.notes_changed(&vec![dir("/n"), file("/n/kept.md"), newer]);
    assert_eq!(e, Effect::LoadNote(0));
    assert_eq!(titles(&app), vec!["fresh", "kept"]);
    assert_eq!(app.all_notes.len(), 2);
    assert_eq!(app.list_state.selected(), None);

    let entries = vec![dir("/n"), file("/n/kept.md")];
    let mut app = App::new(many(2), &entries, "/n".to_string(), Config::default());
    app.list_state.select(None);
    app.notes_changed(&entries);
    assert_eq!(app.list_state.selected(), Some(0));
}

#[test]
fn listed_documents_are_titled_relative_to_the_root() {
    let mut app = App::new(Vec::new(), &tree(), "/n".to_string(), Config::default());
    app.current_dir = "a/b".to_string();
    app.refresh_fs_view(&vec![dir("/n/a/b"), file("/n/a/b/c.md")]);
    assert_eq!(app.fs_items.len(), 1);
    match &app.fs_items[0] {
        FileSystemItem::Note(n) => {
            assert_eq!(n.path, "/n/a/b/c.md");
            assert_eq!(n.title, "a/b/c");
        }
        FileSystemItem::Folder(_) => panic!("a document was listed here"),
    }
    let indexed = kiroku_tui::data::load_notes("/n", &tree());
    assert_eq!(indexed[0].title, "a/b/c");
}

#[test]
fn a_refresh_makes_the_selection_fit_the_new_listing() {
    let entries = vec![dir("/n"), file("/n/a.md"), file("/n/b.md"), file("/n/c.md")];
    let mut app = App::new(Vec::new(), &entries, "/n".to_string(), Config::default());
    assert_eq!(app.list_state.selected(), Some(0));
    app.list_state.select(Some(2));
    app.refresh_fs_view(&vec![dir("/n"), file("/n/a.md"), file("/n/b.md")]);
    assert_eq!(app.list_state.selected(), Some(1));
    app.refresh_fs_view(&vec![dir("/n")]);
    assert!(app.fs_items.is_empty());
    assert_eq!(app.list_state.selected(), None);
    app.refresh_fs_view(&entries);
    assert_eq!(app.list_state.selected(), Some(0));
    app.list_state.select(Some(1));
    app.refresh_fs_view(&entries);
    assert_eq!(app.list_state.selected(), Some(1));
}

#[test]
fn hidden_entries_are_never_listed() {
    let entries = vec![
        dir("/n"),
        dir("/n/.git"),
        file("/n/.git/y.md"),
        file("/n/.hidden.md"),
        file("/n/x.md"),
    ];
    let mut app = App::new(Vec::new(), &entries, "/n".to_string(), Config::default());
    assert_eq!(shown(&app), vec!["document /n/x.md"]);
    app.current_dir = ".git".to_string();
    app.refresh_fs_view(&vec![dir("/n/.git"), file("/n/.git/y.md")]);
    assert!(app.fs_items.is_empty());
    assert_eq!(app.list_state.selected(), None);
}

#[test]
fn the_session_says_which_files_to_read() {
    let entries = vec![dir("/n"), dir("/n/d"), file("/n/a.md")];
    let notes = vec![loaded("held"), note("bare", 0, 0)];
    let mut app = App::new(notes, &entries, "/n".to_string(), Config::default());
    assert_eq!(app.note_to_read(0), None);
    assert_eq!(app.note_to_read(1), Some("/n/bare.md".to_string()));
    assert_eq!(app.note_to_read(2), None);
    assert_eq!(app.item_to_read(0), None);
    assert_eq!(app.item_to_read(1), Some("/n/a.md".to_string()));
    assert_eq!(app.item_to_read(2), None);
    assert_eq!(app.bodies_to_read(), vec![None, Some("/n/bare.md".to_string())]);
    app.load_fs_item_content(1, Some("text".to_string()));
    assert_eq!(app.item_to_read(1), None);
    app.all_notes.clear();
    assert!(app.bodies_to_read().is_empty());
}

#[test]
fn documents_are_found_by_their_path() {
    let notes = vec![note("a", 0, 0), note("b", 0, 0), note("a", 1, 1)];
    assert_eq!(find_note(&notes, "/n/a.md"), Some(0));
    assert_eq!(find_note(&notes, "/n/b.md"), Some(1));
    assert_eq!(find_note(&notes, "/n/c.md"), None);
    assert_eq!(find_note(&Vec::new(), "/n/a.md"), None);
}
