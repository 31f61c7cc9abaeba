//! Query synthesis: a search query is derived deterministically from the
//! topic name, the subtopic name and an optional category hint.  A known hint
//! appends a fixed keyword group; an unknown or absent hint appends nothing.

use vstd::prelude::*;
use vstd::string::StringExecFns;
use crate::text::str_eq;

verus! {

pub open spec fn history_suffix() -> Seq<char> {
    " 歴史 沿革"@
}

pub open spec fn trivia_suffix() -> Seq<char> {
    " 豆知識 トリビア"@
}

pub open spec fn background_suffix() -> Seq<char> {
    " 背景 由来"@
}

pub open spec fn technical_suffix() -> Seq<char> {
    " 仕組み 技術"@
}

pub open spec fn cultural_suffix() -> Seq<char> {
    " 文化 意味"@
}

/// The keyword group a category hint appends: one of a closed enumeration,
/// and empty for an unknown or absent hint.
pub open spec fn category_suffix_for(hint: Option<Seq<char>>) -> Seq<char> {
    match hint {
        None => Seq::empty(),
        Some(h) => if h == "history"@ {
            history_suffix()
        } else if h == "trivia"@ {
            trivia_suffix()
        } else if h == "background"@ {
            background_suffix()
        } else if h == "technical"@ {
            technical_suffix()
        } else if h == "cultural"@ {
            cultural_suffix()
        } else {
            Seq::empty()
        },
    }
}

/// The query composed for a subtopic: `topic ++ " " ++ subtopic`, then the
/// category suffix of the hint.
pub open spec fn composed_query(topic: Seq<char>, subtopic: Seq<char>, hint: Option<Seq<char>>) -> Seq<char> {
    topic + " "@ + subtopic + category_suffix_for(hint)
}

pub open spec fn opt_view(o: Option<&str>) -> Option<Seq<char>> {
    match o {
        None => None,
        Some(s) => Some(s@),
    }
}

pub fn generate_search_query(topic_name: &str, subtopic_name: &str, template_type: Option<&str>) -> (r: String)
    ensures
        r@ == composed_query(topic_name@, subtopic_name@, opt_view(template_type)),
{
    let mut query = topic_name.to_owned();
    query.append(" ");
    query.append(subtopic_name);
    let ghost base: Seq<char> = topic_name@ + " "@ + subtopic_name@;
    assert(query@ =~= base);
    match template_type {
        None => {
            assert(query@ =~= composed_query(topic_name@, subtopic_name@, opt_view(template_type)));
        },
        Some(t) => {
            if str_eq(t, "history") {
                query.append(" 歴史 沿革");
            } else if str_eq(t, "trivia") {
                query.append(" 豆知識 トリビア");
            } else if str_eq(t, "background") {
                query.append(" 背景 由来");
            } else if str_eq(t, "technical") {
                query.append(" 仕組み 技術");
            } else if str_eq(t, "cultural") {
                query.append(" 文化 意味");
            }
            assert(query@ =~= composed_query(topic_name@, subtopic_name@, opt_view(template_type)));
        },
    }
    query
}

/// `needle` occurs contiguously somewhere in `hay`.
pub open spec fn contains_seq(hay: Seq<char>, needle: Seq<char>) -> bool {
    exists|i: int| 0 <= i && i + needle.len() <= hay.len() && #[trigger] hay.subrange(i, i + needle.len()) == needle
}

pub open spec fn ends_with(hay: Seq<char>, suffix: Seq<char>) -> bool {
    suffix.len() <= hay.len() && hay.subrange(hay.len() - suffix.len(), hay.len() as int) == suffix
}

/// The composed query always carries the topic and the subtopic verbatim and
/// ends with the category suffix of the hint; with no hint it is exactly
/// `topic ++ " " ++ subtopic`.
pub proof fn lemma_composed_query_shape(topic: Seq<char>, subtopic: Seq<char>, hint: Option<Seq<char>>)
    ensures
        contains_seq(composed_query(topic, subtopic, hint), topic),
        contains_seq(composed_query(topic, subtopic, hint), subtopic),
        ends_with(composed_query(topic, subtopic, hint), category_suffix_for(hint)),
        hint is None ==> composed_query(topic, subtopic, hint) == topic + " "@ + subtopic,
{
    reveal_strlit(" ");
    let q = composed_query(topic, subtopic, hint);
    let sfx = category_suffix_for(hint);
    assert(q.len() == topic.len() + 1 + subtopic.len() + sfx.len());
    assert(q.subrange(0, 0 + topic.len() as int) =~= topic);
    assert(contains_seq(q, topic));
    let m: int = topic.len() as int + 1;
    assert(q.subrange(m, m + subtopic.len()) =~= subtopic);
    assert(contains_seq(q, subtopic));
    assert(q.subrange(q.len() - sfx.len(), q.len() as int) =~= sfx);
    if hint is None {
        assert(q =~= topic + " "@ + subtopic);
    }
}

} // verus!
