//! Content extraction: an ordered chain of structural selectors is tried
//! against the parsed document, most specific first and the whole-document
//! body last; the first candidate whose normalized text clears a minimum
//! length is kept and truncated to a fixed character budget.  When no
//! candidate — the body included — clears the threshold, a fixed sentinel
//! text stands in: a deliberate soft failure, so that extraction never
//! fails the batch.

use vstd::prelude::*;
use crate::text::{
    chars_of, join_spaced, join_strings_spaced, normalize_chars, normalize_ws, string_from_chars,
    take_at_most, take_chars,
};

verus! {

/// Minimum normalized length (in characters) a candidate must exceed to
/// count as main content.
pub const MIN_CONTENT_LEN: usize = 100;

/// Character budget for content extracted from a statically parsed page.
pub const CONTENT_BUDGET: usize = 3000;

/// Character budget for content read out of a live, already rendered page.
pub const RENDERED_CONTENT_BUDGET: usize = 2000;

/// The text nodes of the first element of the parsed document that matches
/// a CSS selector, in traversal order; `None` when nothing matches or the
/// selector is invalid.
pub uninterp spec fn selector_text_parts(html: Seq<char>, selector: Seq<char>) -> Option<
    Seq<Seq<char>>,
>;

/// Relies on the `scraper` crate (`Html::parse_document`, `Selector::parse`,
/// `Html::select`, `ElementRef::text`): the text nodes of the first match of
/// a CSS selector, in traversal order; a function of the document and the
/// selector alone.
#[verifier::external_body]
pub(crate) fn first_selector_parts(html: &str, selector: &str) -> (r: Option<Vec<String>>)
    ensures
        r.deep_view() == selector_text_parts(html@, selector@),
{
    let document = scraper::Html::parse_document(html);
    if let Ok(parsed) = scraper::Selector::parse(selector) {
        if let Some(element) = document.select(&parsed).next() {
            let mut parts: Vec<String> = Vec::new();
            for piece in element.text() {
                parts.push(piece.to_string());
            }
            return Some(parts);
        }
    }
    None
}

/// The text of the first match of a selector, its text nodes joined by
/// single spaces.
pub open spec fn selector_text(html: Seq<char>, selector: Seq<char>) -> Option<Seq<char>> {
    match selector_text_parts(html, selector) {
        Some(parts) => Some(join_spaced(parts)),
        None => None,
    }
}

/// The joined text of the first match of a selector, as `selector_text`
/// states it.
pub(crate) fn first_selector_text(html: &str, selector: &str) -> (r: Option<String>)
    ensures
        r.deep_view() == selector_text(html@, selector@),
{
    match first_selector_parts(html, selector) {
        Some(parts) => Some(join_strings_spaced(&parts)),
        None => None,
    }
}

/// The sentinel stored when no candidate clears the threshold.
pub open spec fn fallback_text() -> Seq<char> {
    "Could not extract content"@
}

/// The extraction decision: the first candidate whose normalized text is
/// longer than `min_len` wins and is truncated to `max_chars`; when none
/// clears the threshold, the fallback sentinel.
pub open spec fn pick_content(
    candidates: Seq<Option<Seq<char>>>,
    min_len: nat,
    max_chars: nat,
) -> Seq<char>
    decreases candidates.len(),
{
    if candidates.len() > 0 {
        match candidates[0] {
            Some(t) => if normalize_ws(t).len() > min_len {
                take_at_most(normalize_ws(t), max_chars)
            } else {
                pick_content(candidates.drop_first(), min_len, max_chars)
            },
            None => pick_content(candidates.drop_first(), min_len, max_chars),
        }
    } else {
        fallback_text()
    }
}

/// The extraction decision on already collected candidate texts, exactly as
/// `pick_content` states it.
pub fn select_content(candidates: &Vec<Option<String>>, min_len: usize, max_chars: usize) -> (r:
    String)
    ensures
        r@ == pick_content(candidates.deep_view(), min_len as nat, max_chars as nat),
        r@.len() <= max_chars || r@ == fallback_text(),
{
    let ghost cdv = candidates.deep_view();
    proof {
        assert(cdv.skip(0) =~= cdv);
    }
    let mut i: usize = 0;
    while i < candidates.len()
        invariant
            i <= candidates@.len(),
            cdv == candidates.deep_view(),
            cdv.len() == candidates@.len(),
            pick_content(cdv.skip(i as int), min_len as nat, max_chars as nat) == pick_content(
                cdv,
                min_len as nat,
                max_chars as nat,
            ),
        decreases candidates@.len() - i,
    {
        proof {
            assert(cdv.skip(i as int)[0] == cdv[i as int]);
            assert(cdv.skip(i as int).drop_first() =~= cdv.skip(i as int + 1));
        }
        match &candidates[i] {
            Some(t) => {
                let cs = chars_of(t.as_str());
                let norm = normalize_chars(&cs);
                if norm.len() > min_len {
                    let cut = take_chars(&norm, max_chars);
                    return string_from_chars(cut);
                }
            },
            None => {},
        }
        i = i + 1;
    }
    proof {
        assert(cdv.skip(i as int) =~= Seq::<Option<Seq<char>>>::empty());
    }
    "Could not extract content".to_owned()
}

/// The ordered candidate chain tried against a fetched document: the
/// encyclopedia-specific containers first, then the generic article
/// containers, the whole-document body last.
pub open spec fn content_selectors() -> Seq<Seq<char>> {
    seq![
        "#mw-content-text"@,
        ".mw-parser-output"@,
        "article"@,
        "main"@,
        ".content"@,
        "#content"@,
        ".post-content"@,
        ".entry-content"@,
        "body"@,
    ]
}

pub open spec fn selector_chain(html: Seq<char>) -> Seq<Option<Seq<char>>> {
    content_selectors().map_values(|sel: Seq<char>| selector_text(html, sel))
}

/// What extraction yields on a whole document, at the static-parse budget.
pub open spec fn extracted_content(html: Seq<char>) -> Seq<char> {
    pick_content(selector_chain(html), MIN_CONTENT_LEN as nat, CONTENT_BUDGET as nat)
}

/// Extract the main content of a fetched document: try the selector chain
/// down to the whole-document body, return the sentinel when nothing clears
/// the threshold, and never exceed the character budget.
pub fn extract_main_content(html: &str) -> (r: String)
    ensures
        r@ == extracted_content(html@),
        r@.len() <= CONTENT_BUDGET,
{
    let mut candidates: Vec<Option<String>> = Vec::new();
    candidates.push(first_selector_text(html, "#mw-content-text"));
    candidates.push(first_selector_text(html, ".mw-parser-output"));
    candidates.push(first_selector_text(html, "article"));
    candidates.push(first_selector_text(html, "main"));
    candidates.push(first_selector_text(html, ".content"));
    candidates.push(first_selector_text(html, "#content"));
    candidates.push(first_selector_text(html, ".post-content"));
    candidates.push(first_selector_text(html, ".entry-content"));
    candidates.push(first_selector_text(html, "body"));
    proof {
        assert(candidates.deep_view() =~= selector_chain(html@));
    }
    let r = select_content(&candidates, MIN_CONTENT_LEN, CONTENT_BUDGET);
    proof {
        reveal_strlit("Could not extract content");
    }
    r
}

} // verus!
