//! Discovery of candidate resources for a query: the search URL of the
//! encyclopedia's opensearch endpoint, the page URL each returned title
//! resolves to, one directly derived page URL probed by the caller, and the
//! assembly of the final candidate list — capped, in relevance order and
//! free of duplicates.

use vstd::prelude::*;
use vstd::string::StringExecFns;
use crate::text::{dec_digits, usize_to_string};

verus! {

/// How many candidate URLs one discovery call may hand back.
pub const DISCOVERY_FAN_OUT: usize = 3;

/// The most results the opensearch endpoint is asked for in one call.
pub const SEARCH_LIMIT_CAP: usize = 5;

/// The percent-encoding of a string, as the `urlencoding` crate computes it.
pub uninterp spec fn url_encoded(s: Seq<char>) -> Seq<char>;

/// Relies on `urlencoding::encode`: percent-encodes every byte except the
/// ASCII alphanumerics and `-`, `_`, `.`, `~`; a function of the string
/// alone.
#[verifier::external_body]
fn encode_component(s: &str) -> (r: String)
    ensures
        r@ == url_encoded(s@),
{
    urlencoding::encode(s).into_owned()
}

/// The entries of the array at index 1 of an opensearch response body:
/// `Some` for each string entry, `None` for an entry of any other kind;
/// empty when the body is not such a response.
pub uninterp spec fn opensearch_entries(body: Seq<char>) -> Seq<Option<Seq<char>>>;

/// Relies on `serde_json`: the parsed response's array at index 1, each
/// entry marked as the string it is or as not a string; a function of the
/// response text alone.
#[verifier::external_body]
fn parse_opensearch_entries(body: &str) -> (r: Vec<Option<String>>)
    ensures
        r.deep_view() == opensearch_entries(body@),
{
    let mut entries: Vec<Option<String>> = Vec::new();
    if let Ok(value) = serde_json::from_str::<serde_json::Value>(body) {
        if let Some(list) = value.get(1).and_then(serde_json::Value::as_array) {
            for entry in list {
                entries.push(entry.as_str().map(str::to_string));
            }
        }
    }
    entries
}

/// The `Some` entries, in order: the titles the response actually lists.
pub open spec fn kept_strings(entries: Seq<Option<Seq<char>>>) -> Seq<Seq<char>>
    decreases entries.len(),
{
    if entries.len() == 0 {
        Seq::empty()
    } else {
        let rest = kept_strings(entries.drop_last());
        match entries.last() {
            Some(t) => rest.push(t),
            None => rest,
        }
    }
}

/// What an opensearch response's title list amounts to.
pub open spec fn opensearch_titles(body: Seq<char>) -> Seq<Seq<char>> {
    kept_strings(opensearch_entries(body))
}

fn string_entries(entries: &Vec<Option<String>>) -> (r: Vec<String>)
    ensures
        r.deep_view() == kept_strings(entries.deep_view()),
{
    let ghost edv = entries.deep_view();
    let mut out: Vec<String> = Vec::new();
    proof {
        assert(edv.take(0) =~= Seq::<Option<Seq<char>>>::empty());
    }
    let mut i: usize = 0;
    while i < entries.len()
        invariant
            i <= entries@.len(),
            edv == entries.deep_view(),
            edv.len() == entries@.len(),
            out.deep_view() == kept_strings(edv.take(i as int)),
        decreases entries@.len() - i,
    {
        proof {
            assert(edv.take(i + 1 as int).drop_last() =~= edv.take(i as int));
            assert(edv.take(i + 1 as int).last() == edv[i as int]);
        }
        match &entries[i] {
            Some(title) => {
                out.push(title.clone());
            },
            None => {},
        }
        i = i + 1;
    }
    proof {
        assert(edv.take(edv.len() as int) =~= edv);
    }
    out
}

/// The opensearch URL asked for a query: the requested result count is
/// capped at `SEARCH_LIMIT_CAP`.
pub open spec fn search_url_spec(query: Seq<char>, max_results: nat) -> Seq<char> {
    let limit = if max_results < SEARCH_LIMIT_CAP as nat {
        max_results
    } else {
        SEARCH_LIMIT_CAP as nat
    };
    "https://ja.wikipedia.org/w/api.php?action=opensearch&search="@ + url_encoded(query)
        + "&limit="@ + dec_digits(limit) + "&namespace=0&format=json"@
}

/// The page URL a title (or a raw query) resolves to.
pub open spec fn page_url_spec(title: Seq<char>) -> Seq<char> {
    "https://ja.wikipedia.org/wiki/"@ + url_encoded(title)
}

pub fn build_search_url(query: &str, max_results: usize) -> (r: String)
    ensures
        r@ == search_url_spec(query@, max_results as nat),
{
    let mut url = "https://ja.wikipedia.org/w/api.php?action=opensearch&search=".to_owned();
    let encoded = encode_component(query);
    url.append(encoded.as_str());
    url.append("&limit=");
    let limit: usize = if max_results < SEARCH_LIMIT_CAP {
        max_results
    } else {
        SEARCH_LIMIT_CAP
    };
    let rendered = usize_to_string(limit);
    url.append(rendered.as_str());
    url.append("&namespace=0&format=json");
    proof {
        assert(url@ =~= search_url_spec(query@, max_results as nat));
    }
    url
}

pub fn build_page_url(title: &str) -> (r: String)
    ensures
        r@ == page_url_spec(title@),
{
    let mut url = "https://ja.wikipedia.org/wiki/".to_owned();
    let encoded = encode_component(title);
    url.append(encoded.as_str());
    proof {
        assert(url@ =~= page_url_spec(title@));
    }
    url
}

/// No two entries of the list are the same string.
pub open spec fn no_dup_seqs(s: Seq<Seq<char>>) -> bool {
    forall|i: int, j: int| 0 <= i < j < s.len() ==> s[i] != s[j]
}

pub open spec fn dedup_push(acc: Seq<Seq<char>>, u: Seq<char>) -> Seq<Seq<char>> {
    if acc.contains(u) {
        acc
    } else {
        acc.push(u)
    }
}

/// The deduplicated page URLs of a title list, first occurrence kept, in
/// order.
pub open spec fn links_from_titles(titles: Seq<Seq<char>>) -> Seq<Seq<char>>
    decreases titles.len(),
{
    if titles.len() == 0 {
        Seq::empty()
    } else {
        dedup_push(links_from_titles(titles.drop_last()), page_url_spec(titles.last()))
    }
}

/// The candidate list of one discovery call: the page URLs of the first
/// `max_results` titles, deduplicated, then the directly derived page URL of
/// the query itself when its probe succeeded and there is room left.
pub open spec fn assembled_links(
    titles: Seq<Seq<char>>,
    query: Seq<char>,
    direct_exists: bool,
    max_results: nat,
) -> Seq<Seq<char>> {
    let capped = if titles.len() <= max_results {
        titles
    } else {
        titles.take(max_results as int)
    };
    let base = links_from_titles(capped);
    let direct = page_url_spec(query);
    if direct_exists && base.len() < max_results && !base.contains(direct) {
        base.push(direct)
    } else {
        base
    }
}

proof fn lemma_links_from_titles_props(titles: Seq<Seq<char>>)
    ensures
        links_from_titles(titles).len() <= titles.len(),
        no_dup_seqs(links_from_titles(titles)),
    decreases titles.len(),
{
    if titles.len() > 0 {
        lemma_links_from_titles_props(titles.drop_last());
    }
}

pub fn contains_string(v: &Vec<String>, s: &String) -> (r: bool)
    ensures
        r == v.deep_view().contains(s@),
{
    let ghost dv = v.deep_view();
    let mut i: usize = 0;
    while i < v.len()
        invariant
            i <= v@.len(),
            dv == v.deep_view(),
            dv.len() == v@.len(),
            forall|j: int| 0 <= j < i ==> dv[j] != s@,
        decreases v@.len() - i,
    {
        let x = &v[i];
        if x.eq(s) {
            proof {
                assert(dv[i as int] == s@);
            }
            return true;
        }
        i = i + 1;
    }
    proof {
        if dv.contains(s@) {
            let k = choose|k: int| 0 <= k < dv.len() && dv[k] == s@;
            assert(dv[k] != s@);
        }
    }
    false
}

/// Assemble the candidate list from the already parsed titles: at most
/// `max_results` URLs, no duplicates, relevance order kept.
pub fn assemble_links(titles: &Vec<String>, query: &str, direct_exists: bool, max_results: usize) -> (r: Vec<String>)
    ensures
        r.deep_view() == assembled_links(titles.deep_view(), query@, direct_exists, max_results as nat),
        r@.len() <= max_results,
        no_dup_seqs(r.deep_view()),
{
    let ghost tdv = titles.deep_view();
    let mut links: Vec<String> = Vec::new();
    let bound: usize = if titles.len() < max_results {
        titles.len()
    } else {
        max_results
    };
    proof {
        assert(tdv.take(0) =~= Seq::<Seq<char>>::empty());
    }
    let mut i: usize = 0;
    while i < bound
        invariant
            i <= bound,
            bound <= titles@.len(),
            bound <= max_results,
            tdv == titles.deep_view(),
            tdv.len() == titles@.len(),
            links.deep_view() == links_from_titles(tdv.take(i as int)),
            links@.len() <= i,
        decreases bound - i,
    {
        let title = &titles[i];
        let url = build_page_url(title.as_str());
        proof {
            assert(tdv.take(i + 1 as int).drop_last() =~= tdv.take(i as int));
            assert(tdv.take(i + 1 as int).last() == tdv[i as int]);
            assert(title@ == tdv[i as int]);
        }
        if !contains_string(&links, &url) {
            links.push(url);
        }
        i = i + 1;
    }
    proof {
        let capped = if tdv.len() <= max_results as nat {
            tdv
        } else {
            tdv.take(max_results as int)
        };
        assert(tdv.take(bound as int) =~= capped);
        lemma_links_from_titles_props(capped);
    }
    if direct_exists {
        let direct = build_page_url(query);
        if links.len() < max_results {
            if !contains_string(&links, &direct) {
                let ghost base = links.deep_view();
                links.push(direct);
                proof {
                    let grown = links.deep_view();
                    assert(grown =~= base.push(direct@));
                    assert forall|i: int, j: int| 0 <= i < j < grown.len() implies grown[i]
                        != grown[j] by {
                        if j < base.len() {
                            assert(base[i] != base[j]);
                        } else {
                            assert(grown[j] == direct@);
                            if grown[i] == direct@ {
                                assert(base[i] == direct@);
                                assert(base.contains(direct@));
                            }
                        }
                    }
                }
            }
        }
    }
    links
}

/// Turn a raw opensearch response into the candidate list: parse the titles,
/// resolve each to its page URL, deduplicate and cap.
pub fn collect_candidate_links(body: &str, query: &str, direct_exists: bool, max_results: usize) -> (r: Vec<String>)
    ensures
        r.deep_view() == assembled_links(opensearch_titles(body@), query@, direct_exists, max_results as nat),
        r@.len() <= max_results,
        no_dup_seqs(r.deep_view()),
{
    let entries = parse_opensearch_entries(body);
    let titles = string_entries(&entries);
    assemble_links(&titles, query, direct_exists, max_results)
}

} // verus!
