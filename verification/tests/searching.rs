use fuzzy_matcher::skim::SkimMatcherV2;
use fuzzy_matcher::FuzzyMatcher;
use kiroku_tui::app::{App, Effect};
use kiroku_tui::config::Config;
use kiroku_tui::data::Note;
use kiroku_tui::search::{
    best_score_of, content_score_of, rank_by_score, search_content, search_tags, search_titles,
    CONTENT_BASE_SCORE,
};

fn note(title: &str) -> Note {
    Note {
        path: format!("/n/{}.md", title),
        title: title.to_string(),
        content: None,
        last_modified: 0,
        size: 0,
        tags: Vec::new(),
    }
}

fn titles(notes: &[Note]) -> Vec<&str> {
    notes.iter().map(|n| n.title.as_str()).collect()
}

fn four() -> Vec<Note> {
    vec![note("alpha"), note("beta"), note("gamma"), note("apple")]
}

#[test]
fn title_search_returns_exactly_the_matching_titles() {
    let ap = search_titles(&four(), "ap");
    let mut found = titles(&ap);
    found.sort();
    assert_eq!(found, vec!["alpha", "apple"]);

    let bet = search_titles(&four(), "bet");
    assert_eq!(titles(&bet), vec!["beta"]);

    let none = search_titles(&four(), "zzz");
    assert!(none.is_empty());
}

#[test]
fn empty_query_shows_every_document_in_order() {
    let mut app = App::new(four(), &Vec::new(), "/n".to_string(), Config::default());
    app.search_query = "".to_string();
    app.update_search();
    assert_eq!(titles(&app.notes), vec!["alpha", "beta", "gamma", "apple"]);
    app.update_tag_search();
    assert_eq!(titles(&app.notes), vec!["alpha", "beta", "gamma", "apple"]);
    app.update_content_search(&Vec::new());
    assert_eq!(titles(&app.notes), vec!["alpha", "beta", "gamma", "apple"]);
}

#[test]
fn title_search_orders_by_descending_score_and_keeps_ties() {
    let notes = vec![
        note("a long detour to the apple"),
        note("apple"),
        note("pineapple"),
        note("apple"),
        note("grape"),
        note("ap"),
    ];
    let hits = search_titles(&notes, "apple");
    let m = SkimMatcherV2::default();
    let scores: Vec<i64> = hits.iter().map(|n| m.fuzzy_match(&n.title, "apple").unwrap()).collect();
    for w in scores.windows(2) {
        assert!(w[0] >= w[1]);
    }
    assert_eq!(hits.len(), 4);
    let twins: Vec<usize> =
        hits.iter().enumerate().filter(|(_, n)| n.title == "apple").map(|(i, _)| i).collect();
    assert_eq!(twins.len(), 2);
    assert_eq!(twins[1], twins[0] + 1);
    let expected: Vec<i64> = {
        let mut all: Vec<i64> =
            notes.iter().filter_map(|n| m.fuzzy_match(&n.title, "apple")).collect();
        all.sort_by(|a, b| b.cmp(a));
        all
    };
    assert_eq!(scores, expected);
}

#[test]
fn ranking_by_given_scores() {
    let notes = vec![note("a"), note("b"), note("c"), note("d"), note("e")];
    let scores = vec![Some(5), None, Some(9), Some(5), Some(-3)];
    assert_eq!(titles(&rank_by_score(&notes, &scores)), vec!["c", "a", "d", "e"]);
    assert_eq!(titles(&rank_by_score(&notes, &vec![Some(1)])), vec!["a"]);
    assert!(rank_by_score(&notes, &Vec::new()).is_empty());
    assert_eq!(
        titles(&rank_by_score(&notes, &vec![Some(i64::MIN), Some(i64::MAX), Some(0)])),
        vec!["b", "c", "a"]
    );
}

#[test]
fn best_score_is_the_maximum() {
    assert_eq!(best_score_of(&vec![None, Some(3), None, Some(8), Some(-1)]), Some(8));
    assert_eq!(best_score_of(&vec![None, None]), None);
    assert_eq!(best_score_of(&Vec::new()), None);
    assert_eq!(best_score_of(&vec![Some(-7)]), Some(-7));
}

#[test]
fn content_score_adds_the_title_score_to_the_base() {
    assert_eq!(CONTENT_BASE_SCORE, 100);
    assert_eq!(content_score_of(true, Some(7)), Some(107));
    assert_eq!(content_score_of(true, Some(-20)), Some(80));
    assert_eq!(content_score_of(true, Some(i64::MAX)), Some(i64::MAX as i128 + 100));
    assert_eq!(content_score_of(true, Some(i64::MIN)), Some(i64::MIN as i128 + 100));
    assert_eq!(content_score_of(true, None), Some(100));
    assert_eq!(content_score_of(false, Some(7)), None);
    assert_eq!(content_score_of(false, None), None);
}

#[test]
fn tag_search_scores_the_best_tag() {
    let mut a = note("first");
    a.tags = vec!["work".to_string(), "urgent".to_string()];
    let mut b = note("second");
    b.tags = vec!["home".to_string()];
    let c = note("work");
    let mut d = note("fourth");
    d.tags = vec!["x".to_string(), "homework".to_string()];
    let notes = vec![a, b, c, d];

    let hits = search_tags(&notes, "work");
    assert_eq!(titles(&hits), vec!["first", "fourth"]);
    let home = search_tags(&notes, "home");
    let mut found = titles(&home);
    found.sort();
    assert_eq!(found, vec!["fourth", "second"]);
    assert!(search_tags(&notes, "nothing").is_empty());
}

#[test]
fn content_search_reads_bodies_without_regard_to_case() {
    let mut a = note("shopping");
    a.content = Some("Buy MILK and eggs".to_string());
    let b = note("milk run");
    let mut c = note("c");
    c.content = Some("nothing here".to_string());
    let d = note("d");
    let notes = vec![a, b, c, d];
    let fetched = vec![
        Some("ignored, the document holds its body".to_string()),
        Some("the milk is gone".to_string()),
        None,
    ];

    let hits = search_content(&notes, &fetched, "Milk");
    assert_eq!(titles(&hits), vec!["milk run", "shopping"]);
    assert!(hits[0].content.is_none());

    let m = SkimMatcherV2::default();
    let bonus = m.fuzzy_match("milk run", "milk").unwrap();
    assert!(bonus > 0);
    assert_eq!(m.fuzzy_match("shopping", "milk"), None);

    assert!(search_content(&notes, &Vec::new(), "the milk").is_empty());
    assert_eq!(titles(&search_content(&notes, &Vec::new(), "EGGS")), vec!["shopping"]);
}

#[test]
fn search_selects_the_first_hit() {
    let mut notes = four();
    notes[3].content = Some("body".to_string());
    let mut app = App::new(notes, &Vec::new(), "/n".to_string(), Config::default());
    app.search_query = "gam".to_string();
    let e = app.update_search();
    assert_eq!(titles(&app.notes), vec!["gamma"]);
    assert_eq!(app.list_state.selected(), Some(0));
    assert_eq!(e, Effect::LoadNote(0));

    app.search_query = "appl".to_string();
    let e = app.update_search();
    assert_eq!(titles(&app.notes), vec!["apple"]);
    assert_eq!(e, Effect::Nothing);
    assert!(app.recent_indices.contains(&0));

    app.search_query = "qqq".to_string();
    let e = app.update_search();
    assert!(app.notes.is_empty());
    assert_eq!(app.list_state.selected(), None);
    assert_eq!(e, Effect::Nothing);
}
