//! Searching the document list.
//!
//! A query is scored against every document in one of three ways: against
//! the title, against the tags, or against the body. Documents without a
//! score are left out; the others are listed by descending score, and
//! documents with equal scores keep the order in which they stood.

use vstd::prelude::*;
use fuzzy_matcher::FuzzyMatcher;
use fuzzy_matcher::skim::SkimMatcherV2;
use crate::data::{Note, NoteView, note_views, order_notes, reverse_key, reversed, texts, opt_text};
use crate::order::{key_views, ranked, ranking};
use crate::text::{chars_of, contains, has_substring, lowercase, lowercased};

verus! {

/// The score that the skim matcher, in its default configuration, gives to
/// `choice` for `pattern`; none where `pattern` does not match `choice`.
pub uninterp spec fn skim_score(choice: Seq<char>, pattern: Seq<char>) -> Option<i64>;

/// Trusted: calls `SkimMatcherV2::default().fuzzy_match`. The result is the
/// score named by [`skim_score`], a function of the two texts alone.
#[verifier::external_body]
pub(crate) fn fuzzy_score(choice: &str, pattern: &str) -> (r: Option<i64>)
    ensures
        r == skim_score(choice@, pattern@),
{
    SkimMatcherV2::default().fuzzy_match(choice, pattern)
}

/// The ordering key of a score: higher scores come first, and a document
/// without a score has no key.
pub open spec fn score_key(score: Option<i64>) -> Option<Seq<i128>> {
    match score {
        Some(s) => Some(seq![reversed(s as int)]),
        None => None,
    }
}

/// The documents that have a score, highest score first, equal scores in
/// the order in which they stood. A document beyond the end of `scores` has none.
pub open spec fn ranked_by_score(notes: Seq<NoteView>, scores: Seq<Option<i64>>) -> Seq<NoteView> {
    ranked(
        notes,
        Seq::new(
            notes.len(),
            |i: int|
                if i < scores.len() {
                    score_key(scores[i])
                } else {
                    None
                },
        ),
    )
}

/// Lists the documents that have a score, highest score first; documents
/// with equal scores keep their order.
pub fn rank_by_score(notes: &Vec<Note>, scores: &Vec<Option<i64>>) -> (r: Vec<Note>)
    ensures
        note_views(r@) == ranked_by_score(note_views(notes@), scores@),
{
    let ghost wanted = Seq::new(
        notes.len() as nat,
        |i: int|
            if i < scores.len() {
                score_key(scores@[i])
            } else {
                None
            },
    );
    let mut keys: Vec<Option<Vec<i128>>> = Vec::new();
    let mut i: usize = 0;
    while i < notes.len()
        invariant
            i <= notes.len(),
            keys.len() == i,
            wanted.len() == notes.len(),
            forall|k: int|
                0 <= k < notes.len() ==> #[trigger] wanted[k] == if k < scores.len() {
                    score_key(scores@[k])
                } else {
                    None
                },
            key_views(keys@) == wanted.take(i as int),
        decreases notes.len() - i,
    {
        let key: Option<Vec<i128>> = if i < scores.len() {
            match scores[i] {
                Some(s) => {
                    let mut k: Vec<i128> = Vec::new();
                    k.push(reverse_key(s as i128));
                    Some(k)
                },
                None => None,
            }
        } else {
            None
        };
        keys.push(key);
        i = i + 1;
    }
    assert(wanted.take(notes.len() as int) == wanted);
    order_notes(notes, &keys)
}

/// The score of every title for `query`.
pub open spec fn title_scores(notes: Seq<NoteView>, query: Seq<char>) -> Seq<Option<i64>> {
    notes.map_values(|n: NoteView| skim_score(n.title, query))
}

/// The result of a search by title: the documents whose title matches the
/// query, best match first.
pub open spec fn title_hits(notes: Seq<NoteView>, query: Seq<char>) -> Seq<NoteView> {
    ranked_by_score(notes, title_scores(notes, query))
}

/// Searches the titles for `query`.
pub fn search_titles(notes: &Vec<Note>, query: &str) -> (r: Vec<Note>)
    ensures
        note_views(r@) == title_hits(note_views(notes@), query@),
{
    let mut scores: Vec<Option<i64>> = Vec::new();
    let mut i: usize = 0;
    while i < notes.len()
        invariant
            i <= notes.len(),
            scores@ == title_scores(note_views(notes@), query@).take(i as int),
        decreases notes.len() - i,
    {
        let s = fuzzy_score(notes[i].title.as_str(), query);
        scores.push(s);
        i = i + 1;
    }
    assert(title_scores(note_views(notes@), query@).take(notes.len() as int) == title_scores(
        note_views(notes@),
        query@,
    ));
    rank_by_score(notes, &scores)
}

/// The best of a list of scores: the highest, or none where every entry is
/// none.
pub open spec fn best_score(scores: Seq<Option<i64>>) -> Option<i64>
    decreases scores.len(),
{
    if scores.len() == 0 {
        None
    } else {
        match (best_score(scores.drop_last()), scores.last()) {
            (Some(a), Some(b)) => Some(if a >= b { a } else { b }),
            (Some(a), None) => Some(a),
            (None, last) => last,
        }
    }
}

/// Finds the best of a list of scores.
pub fn best_score_of(scores: &Vec<Option<i64>>) -> (r: Option<i64>)
    ensures
        r == best_score(scores@),
{
    let mut best: Option<i64> = None;
    let mut i: usize = 0;
    while i < scores.len()
        invariant
            i <= scores.len(),
            best == best_score(scores@.take(i as int)),
        decreases scores.len() - i,
    {
        assert(scores@.take(i + 1).drop_last() == scores@.take(i as int));
        best = match (best, scores[i]) {
            (Some(a), Some(b)) => Some(if a >= b { a } else { b }),
            (Some(a), None) => Some(a),
            (None, last) => last,
        };
        i = i + 1;
    }
    assert(scores@.take(scores.len() as int) == scores@);
    best
}

/// The score of a document's tags for `query`: the best score among them.
pub open spec fn tag_score(tags: Seq<Seq<char>>, query: Seq<char>) -> Option<i64> {
    best_score(tags.map_values(|t: Seq<char>| skim_score(t, query)))
}

/// The result of a search by tag: the documents with a tag that matches the
/// query, best match first.
pub open spec fn tag_hits(notes: Seq<NoteView>, query: Seq<char>) -> Seq<NoteView> {
    ranked_by_score(notes, notes.map_values(|n: NoteView| tag_score(n.tags, query)))
}

/// Scores the tags of one document.
fn score_tags(tags: &Vec<String>, query: &str) -> (r: Option<i64>)
    ensures
        r == tag_score(texts(tags@), query@),
{
    let ghost all = texts(tags@).map_values(|t: Seq<char>| skim_score(t, query@));
    let mut scores: Vec<Option<i64>> = Vec::new();
    let mut i: usize = 0;
    while i < tags.len()
        invariant
            i <= tags.len(),
            all == texts(tags@).map_values(|t: Seq<char>| skim_score(t, query@)),
            scores@ == all.take(i as int),
        decreases tags.len() - i,
    {
        let s = fuzzy_score(tags[i].as_str(), query);
        scores.push(s);
        i = i + 1;
    }
    assert(all.take(tags.len() as int) == all);
    best_score_of(&scores)
}

/// Searches the tags for `query`.
pub fn search_tags(notes: &Vec<Note>, query: &str) -> (r: Vec<Note>)
    ensures
        note_views(r@) == tag_hits(note_views(notes@), query@),
{
    let ghost all = note_views(notes@).map_values(|n: NoteView| tag_score(n.tags, query@));
    let mut scores: Vec<Option<i64>> = Vec::new();
    let mut i: usize = 0;
    while i < notes.len()
        invariant
            i <= notes.len(),
            all == note_views(notes@).map_values(|n: NoteView| tag_score(n.tags, query@)),
            scores@ == all.take(i as int),
        decreases notes.len() - i,
    {
        let s = score_tags(&notes[i].tags, query);
        scores.push(s);
        i = i + 1;
    }
    assert(all.take(notes.len() as int) == all);
    rank_by_score(notes, &scores)
}

/// What every document that matches by its body scores before its title is
/// counted.
pub const CONTENT_BASE_SCORE: i64 = 100;

/// The score of a document in a search by body, from whether its body holds
/// the query and what its title scores: the base score plus the title's
/// score, or the base score alone where the title does not match; none
/// where the body does not hold the query.
pub open spec fn content_score(body_matches: bool, title_score: Option<i64>) -> Option<int> {
    if body_matches {
        Some(
            CONTENT_BASE_SCORE + match title_score {
                Some(s) => s as int,
                None => 0,
            },
        )
    } else {
        None
    }
}

/// Computes [`content_score`]. The sum is taken in a wider type than the
/// scores have, so that it is exact whatever the title scores.
pub fn content_score_of(body_matches: bool, title_score: Option<i64>) -> (r: Option<i128>)
    ensures
        match r {
            Some(s) => content_score(body_matches, title_score) == Some(s as int),
            None => content_score(body_matches, title_score) is None,
        },
{
    if body_matches {
        match title_score {
            Some(s) => Some(CONTENT_BASE_SCORE as i128 + s as i128),
            None => Some(CONTENT_BASE_SCORE as i128),
        }
    } else {
        None
    }
}

/// The ordering key of a document in a search by body: higher scores come
/// first, and a document whose body does not hold the query has no key.
pub open spec fn content_key(body_matches: bool, title_score: Option<i64>) -> Option<Seq<i128>> {
    match content_score(body_matches, title_score) {
        Some(s) => Some(seq![reversed(s)]),
        None => None,
    }
}

/// The body that a search reads for a document: the one it holds, else the
/// one fetched for it, if any.
pub open spec fn body_for(n: NoteView, fetched: Seq<Option<Seq<char>>>, i: int) -> Option<Seq<char>> {
    match n.content {
        Some(c) => Some(c),
        None => if 0 <= i < fetched.len() {
            fetched[i]
        } else {
            None
        },
    }
}

/// Whether a body holds the query, letter case aside.
pub open spec fn body_holds(body: Option<Seq<char>>, query: Seq<char>) -> bool {
    match body {
        Some(b) => has_substring(lowercased(b), lowercased(query)),
        None => false,
    }
}

/// The ordering key of every document in a search by body. The title is
/// scored against the query in lower case.
pub open spec fn content_keys(
    notes: Seq<NoteView>,
    fetched: Seq<Option<Seq<char>>>,
    query: Seq<char>,
) -> Seq<Option<Seq<i128>>> {
    Seq::new(
        notes.len(),
        |i: int|
            content_key(
                body_holds(body_for(notes[i], fetched, i), query),
                skim_score(notes[i].title, lowercased(query)),
            ),
    )
}

/// The result of a search by body: the documents whose body holds the
/// query, letter case aside, by descending base score plus title score;
/// documents with equal scores keep the order in which they stood.
pub open spec fn content_hits(
    notes: Seq<NoteView>,
    fetched: Seq<Option<Seq<char>>>,
    query: Seq<char>,
) -> Seq<NoteView> {
    ranked(notes, content_keys(notes, fetched, query))
}

/// The texts of a list of optional strings.
pub open spec fn opt_texts(v: Seq<Option<String>>) -> Seq<Option<Seq<char>>> {
    v.map_values(|s: Option<String>| opt_text(s))
}

/// Searches the bodies for `query`. `fetched[i]` is the body read for
/// document `i` where the document holds none; it is not kept.
pub fn search_content(notes: &Vec<Note>, fetched: &Vec<Option<String>>, query: &str) -> (r: Vec<
    Note,
>)
    ensures
        note_views(r@) == content_hits(note_views(notes@), opt_texts(fetched@), query@),
{
    let ghost all = content_keys(note_views(notes@), opt_texts(fetched@), query@);
    let low = lowercase(query);
    let low_chars = chars_of(low.as_str());
    let mut keys: Vec<Option<Vec<i128>>> = Vec::new();
    let mut i: usize = 0;
    while i < notes.len()
        invariant
            i <= notes.len(),
            low@ == lowercased(query@),
            low_chars@ == low@,
            all == content_keys(note_views(notes@), opt_texts(fetched@), query@),
            keys.len() == i,
            key_views(keys@) == all.take(i as int),
        decreases notes.len() - i,
    {
        let n = &notes[i];
        let holds = match &n.content {
            Some(c) => contains(&chars_of(lowercase(c.as_str()).as_str()), &low_chars),
            None => if i < fetched.len() {
                match &fetched[i] {
                    Some(c) => contains(&chars_of(lowercase(c.as_str()).as_str()), &low_chars),
                    None => false,
                }
            } else {
                false
            },
        };
        let score = if holds {
            content_score_of(true, fuzzy_score(n.title.as_str(), low.as_str()))
        } else {
            None
        };
        let key: Option<Vec<i128>> = match score {
            Some(s) => {
                let mut k: Vec<i128> = Vec::new();
                k.push(reverse_key(s));
                Some(k)
            },
            None => None,
        };
        keys.push(key);
        i = i + 1;
    }
    assert(all.take(notes.len() as int) == all);
    order_notes(notes, &keys)
}

/// The keys by which a search by title orders the documents.
pub open spec fn title_keys(notes: Seq<NoteView>, query: Seq<char>) -> Seq<Option<Seq<i128>>> {
    Seq::new(
        notes.len(),
        |i: int|
            if i < title_scores(notes, query).len() {
                score_key(title_scores(notes, query)[i])
            } else {
                None
            },
    )
}

/// The positions, in the searched list, of the documents that a search by
/// title returns.
pub open spec fn title_order(notes: Seq<NoteView>, query: Seq<char>) -> Seq<int> {
    ranking(title_keys(notes, query))
}

/// A search by title returns the documents whose title matches the query,
/// and no others; each once; by descending score; documents with the same
/// score in the order in which they stood.
pub proof fn title_search_lists_matches_by_score(notes: Seq<NoteView>, query: Seq<char>)
    ensures
        title_hits(notes, query).len() == title_order(notes, query).len(),
        title_order(notes, query).no_duplicates(),
        forall|k: int|
            0 <= k < title_hits(notes, query).len() ==> {
                let i = #[trigger] title_order(notes, query)[k];
                &&& 0 <= i < notes.len()
                &&& title_hits(notes, query)[k] == notes[i]
                &&& skim_score(notes[i].title, query) is Some
            },
        forall|i: int|
            0 <= i < notes.len() && skim_score(#[trigger] notes[i].title, query) is Some
                ==> title_order(notes, query).contains(i),
        forall|a: int, b: int|
            0 <= a < b < title_hits(notes, query).len() ==> {
                let x = skim_score(#[trigger] title_hits(notes, query)[a].title, query)->0;
                let y = skim_score(#[trigger] title_hits(notes, query)[b].title, query)->0;
                x > y || (x == y && title_order(notes, query)[a] < title_order(notes, query)[b])
            },
{
    let keys = title_keys(notes, query);
    let order = title_order(notes, query);
    let hits = title_hits(notes, query);
    crate::order::ranking_lists_the_keyed(keys);
    assert(hits =~= order.map_values(|i: int| notes[i]));
    assert forall|i: int|
        0 <= i < notes.len() && skim_score(#[trigger] notes[i].title, query) is Some implies order.contains(
        i,
    ) by {
        assert(keys[i] is Some);
    }
    assert forall|a: int, b: int| 0 <= a < b < hits.len() implies {
        let x = skim_score(#[trigger] hits[a].title, query)->0;
        let y = skim_score(#[trigger] hits[b].title, query)->0;
        x > y || (x == y && order[a] < order[b])
    } by {
        let x = skim_score(hits[a].title, query)->0;
        let y = skim_score(hits[b].title, query)->0;
        crate::order::ranking_ascends(keys, a, b);
        assert(keys[order[a]] is Some);
        assert(keys[order[b]] is Some);
        assert(keys[order[a]]->0 == seq![reversed(x as int)]);
        assert(keys[order[b]]->0 == seq![reversed(y as int)]);
        crate::order::single_keys_compare_as_numbers(reversed(y as int), reversed(x as int));
    }
}

} // verus!
