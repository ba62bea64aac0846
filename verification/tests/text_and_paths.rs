use kiroku_tui::paths::{
    is_same_path,
    file_name, is_hidden_below, is_note_path, join_path, parent_path, path_depth, relative_path,
    title_of,
};
use kiroku_tui::text::{
    chars_of, code_point, contains, ends_with, is_white_space, pop_char, replace_spaces,
    starts_with, string_of, trim,
};

fn v(s: &str) -> Vec<char> {
    s.chars().collect()
}

#[test]
fn strings_and_character_vectors_convert_both_ways() {
    assert_eq!(chars_of("héllo"), vec!['h', 'é', 'l', 'l', 'o']);
    assert_eq!(string_of(&vec!['a', 'ß', 'c']), "aßc");
    assert_eq!(string_of(&chars_of("")), "");
}

#[test]
fn code_points_are_the_character_numbers() {
    assert_eq!(code_point('A'), 65);
    assert_eq!(code_point('\u{10FFFF}'), 0x10FFFF);
}

#[test]
fn trim_removes_white_space_at_both_ends_only() {
    assert_eq!(trim(&v("  My Note \t\n")), v("My Note"));
    assert_eq!(trim(&v("\u{3000}x\u{a0}")), v("x"));
    assert_eq!(trim(&v("   ")), v(""));
    assert_eq!(trim(&v("")), v(""));
    assert_eq!(trim(&v("a")), v("a"));
}

#[test]
fn spaces_become_underscores() {
    assert_eq!(replace_spaces(&v("a b  c")), v("a_b__c"));
    assert_eq!(replace_spaces(&v("a\tb")), v("a\tb"));
}

#[test]
fn suffixes_prefixes_and_substrings() {
    assert!(ends_with(&v("note.md"), &v(".md")));
    assert!(!ends_with(&v("md"), &v(".md")));
    assert!(ends_with(&v("x"), &v("")));
    assert!(starts_with(&v("## title"), &v("## ")));
    assert!(!starts_with(&v("#"), &v("## ")));
    assert!(contains(&v("hello world"), &v("lo w")));
    assert!(contains(&v("hello"), &v("hello")));
    assert!(contains(&v("hello"), &v("")));
    assert!(contains(&v(""), &v("")));
    assert!(!contains(&v("hello"), &v("hellos")));
    assert!(!contains(&v("aab"), &v("abb")));
    assert!(contains(&v("aaab"), &v("aab")));
}

#[test]
fn popping_the_last_character() {
    let mut s = "abc".to_string();
    pop_char(&mut s);
    assert_eq!(s, "ab");
    let mut e = String::new();
    pop_char(&mut e);
    assert_eq!(e, "");
}

#[test]
fn depth_counts_names() {
    assert_eq!(path_depth(""), 0);
    assert_eq!(path_depth("/"), 0);
    assert_eq!(path_depth("a"), 1);
    assert_eq!(path_depth("a/b"), 2);
    assert_eq!(path_depth("/a//b/"), 2);
}

#[test]
fn final_names() {
    assert_eq!(file_name("/a/b/c.md"), Some("c.md".to_string()));
    assert_eq!(file_name("/a/b/"), Some("b".to_string()));
    assert_eq!(file_name("/"), None);
    assert_eq!(file_name(""), None);
    assert_eq!(file_name("a/.."), None);
}

#[test]
fn documents_are_known_by_their_extension() {
    assert!(is_note_path("/n/a.md"));
    assert!(is_note_path("a.b.md"));
    assert!(is_note_path(".hidden.md"));
    assert!(!is_note_path("/n/a.txt"));
    assert!(!is_note_path("/n/.md"));
    assert!(!is_note_path("/n/md"));
    assert!(!is_note_path("/n/a.MD"));
    assert!(!is_note_path("/n/a.md/x"));
    assert!(!is_note_path(""));
}

#[test]
fn relative_paths() {
    assert_eq!(relative_path("/n/a/b.md", "/n"), "a/b.md");
    assert_eq!(relative_path("/n/a/b.md", "/n/"), "a/b.md");
    assert_eq!(relative_path("/n", "/n"), "");
    assert_eq!(relative_path("/other/a", "/n"), "other/a");
    assert_eq!(relative_path("/notes/a", "/n"), "notes/a");
}

#[test]
fn joining_paths() {
    assert_eq!(join_path("/n", "a/b"), "/n/a/b");
    assert_eq!(join_path("/n/", "a"), "/n/a");
    assert_eq!(join_path("/n", ""), "/n");
    assert_eq!(join_path("n", "a"), "n/a");
    assert_eq!(join_path("", "a"), "a");
    assert_eq!(join_path("/n", "/etc/x"), "/etc/x");
    assert_eq!(join_path("/n/a", "../b"), "/n/a/../b");
}

#[test]
fn parents() {
    assert_eq!(parent_path("a/b"), Some("a".to_string()));
    assert_eq!(parent_path("a"), Some("".to_string()));
    assert_eq!(parent_path(""), None);
    assert_eq!(parent_path("/a/b.md"), Some("/a".to_string()));
    assert_eq!(parent_path("/a"), Some("/".to_string()));
    assert_eq!(parent_path("/"), None);
}

#[test]
fn titles_are_relative_paths_without_extension() {
    assert_eq!(title_of("/n/work/project_a.md", "/n"), "work/project_a");
    assert_eq!(title_of("/n/a.b.md", "/n"), "a.b");
    assert_eq!(title_of("/n/.hidden", "/n"), ".hidden");
    assert_eq!(title_of("/n/plain", "/n"), "plain");
    assert_eq!(title_of("/n", "/n"), "");
    assert_eq!(title_of("/x/a.md", "/n"), "x/a");
}

#[test]
fn white_space_is_what_the_standard_library_calls_white_space() {
    let mut count = 0;
    for n in 0..=0x10FFFFu32 {
        if let Some(c) = char::from_u32(n) {
            assert_eq!(is_white_space(c), c.is_whitespace(), "U+{:04X}", n);
            if is_white_space(c) {
                count += 1;
            }
        }
    }
    assert_eq!(count, 25);
}

#[test]
fn trim_agrees_with_the_standard_library() {
    for s in ["  My Note \t\n", "\u{2003}x y\u{85}", "\u{200B}z\u{200B}", "\u{180E}a", "", " "] {
        assert_eq!(string_of(&trim(&chars_of(s))), s.trim());
    }
}

#[test]
fn a_path_is_hidden_where_a_name_below_the_root_begins_with_a_dot() {
    assert!(is_hidden_below("/n/.git/config", "/n"));
    assert!(is_hidden_below("/n/a/.x/b.md", "/n"));
    assert!(is_hidden_below("/n/.a.md", "/n"));
    assert!(!is_hidden_below("/n/a/b.md", "/n"));
    assert!(!is_hidden_below("/n", "/n"));
    assert!(!is_hidden_below("/.h/n/a.md", "/.h/n"));
    assert!(is_hidden_below("/.h/n/a.md", "/other"));
    assert!(!is_hidden_below("/n/a.b/c.d.md", "/n"));
}

#[test]
fn a_path_from_the_root_lies_under_no_relative_path() {
    assert_eq!(relative_path("/n/a", "n"), "n/a");
    assert_eq!(relative_path("n/a", "/n"), "n/a");
    assert_eq!(relative_path("n/a", "n"), "a");
    assert_eq!(title_of("/n/a.md", "n"), "n/a");
    assert!(is_same_path("/n/a", "/n//a/"));
    assert!(is_same_path("n/a", "n/a/"));
    assert!(!is_same_path("/n/a", "n/a"));
    assert!(!is_same_path("/n/a", "/n"));
    assert!(is_same_path("", ""));
    assert!(!is_same_path("/", ""));
}
