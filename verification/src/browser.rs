//! The browser-driven discovery variant's decision core.  That backend has
//! a remote browser session load a general search engine, submit the query
//! and collect the result anchors from the rendered page; the library then
//! decides which anchors count: the first ones that do not point back at
//! the search engine's own site, deduplicated and capped like every
//! discovery call.  Driving the session is the caller's work.

use vstd::prelude::*;
use crate::discovery::no_dup_seqs;
use crate::text::chars_of;

verus! {

/// `prefix` is a prefix of `s`.
pub open spec fn starts_with(s: Seq<char>, prefix: Seq<char>) -> bool {
    prefix.len() <= s.len() && s.take(prefix.len() as int) == prefix
}

pub fn str_starts_with(s: &str, prefix: &str) -> (r: bool)
    ensures
        r == starts_with(s@, prefix@),
{
    let sc = chars_of(s);
    let pc = chars_of(prefix);
    if pc.len() > sc.len() {
        return false;
    }
    let mut i: usize = 0;
    while i < pc.len()
        invariant
            i <= pc@.len(),
            pc@.len() <= sc@.len(),
            sc@ == s@,
            pc@ == prefix@,
            forall|j: int| 0 <= j < i ==> s@[j] == prefix@[j],
        decreases pc@.len() - i,
    {
        if sc[i] != pc[i] {
            proof {
                assert(s@.take(prefix@.len() as int)[i as int] != prefix@[i as int]);
            }
            return false;
        }
        i = i + 1;
    }
    proof {
        assert(s@.take(prefix@.len() as int) =~= prefix@);
    }
    true
}

/// The anchors one browser discovery call keeps: walking the collected
/// anchors in page order, an anchor is kept when there is room left, it
/// does not point back at the search engine's own site, and it was not
/// kept already.
pub open spec fn browser_pick(anchors: Seq<Seq<char>>, engine_prefix: Seq<char>, max: nat) -> Seq<Seq<char>>
    decreases anchors.len(),
{
    if anchors.len() == 0 {
        Seq::empty()
    } else {
        let rest = browser_pick(anchors.drop_last(), engine_prefix, max);
        let a = anchors.last();
        if rest.len() < max && !starts_with(a, engine_prefix) && !rest.contains(a) {
            rest.push(a)
        } else {
            rest
        }
    }
}

/// What every discovery call owes, holds of the browser pick too: the
/// result is capped, has no duplicates, and nothing in it points back at
/// the search engine.
pub proof fn lemma_browser_pick_props(anchors: Seq<Seq<char>>, engine_prefix: Seq<char>, max: nat)
    ensures
        browser_pick(anchors, engine_prefix, max).len() <= max,
        no_dup_seqs(browser_pick(anchors, engine_prefix, max)),
        forall|i: int| 0 <= i < browser_pick(anchors, engine_prefix, max).len()
            ==> !starts_with(#[trigger] browser_pick(anchors, engine_prefix, max)[i], engine_prefix),
    decreases anchors.len(),
{
    if anchors.len() > 0 {
        lemma_browser_pick_props(anchors.drop_last(), engine_prefix, max);
    }
}

/// Keep the first `max_results` collected anchors that do not lead back to
/// the search engine's own site, without duplicates, in page order.
pub fn filter_search_anchors(anchors: &Vec<String>, engine_prefix: &str, max_results: usize) -> (r: Vec<String>)
    ensures
        r.deep_view() == browser_pick(anchors.deep_view(), engine_prefix@, max_results as nat),
        r@.len() <= max_results,
        no_dup_seqs(r.deep_view()),
{
    let ghost adv = anchors.deep_view();
    let mut links: Vec<String> = Vec::new();
    proof {
        assert(adv.take(0) =~= Seq::<Seq<char>>::empty());
    }
    let mut i: usize = 0;
    while i < anchors.len()
        invariant
            i <= anchors@.len(),
            adv == anchors.deep_view(),
            adv.len() == anchors@.len(),
            links.deep_view() == browser_pick(adv.take(i as int), engine_prefix@, max_results as nat),
            links@.len() <= max_results,
        decreases anchors@.len() - i,
    {
        let anchor = &anchors[i];
        proof {
            assert(adv.take(i + 1 as int).drop_last() =~= adv.take(i as int));
            assert(adv.take(i + 1 as int).last() == adv[i as int]);
            assert(anchor@ == adv[i as int]);
        }
        if links.len() < max_results {
            if !str_starts_with(anchor.as_str(), engine_prefix) {
                if !crate::discovery::contains_string(&links, anchor) {
                    links.push(anchor.clone());
                }
            }
        }
        i = i + 1;
    }
    proof {
        assert(adv.take(adv.len() as int) =~= adv);
        lemma_browser_pick_props(adv, engine_prefix@, max_results as nat);
    }
    links
}

} // verus!
