//! Internal link suggestions between targets whose labels and routes share
//! words.
use vstd::prelude::*;

use crate::dto::{SeoBulkSummaryRecord, SeoCrossLinkSuggestionRecord, SeoTargetSlug};
use crate::order::{index_seq, key_sort, keys_view, sort_order};
use crate::text::{
    byte_len, byte_len_at_most, chars_of, hex_fixed, insert_sorted_unique, lower, lower_str,
    owned, sorted_unique, strictly_sorted, trim, trim_str, u128_hex_key, views,
    lemma_views_push, lemma_views_take_next,
};

verus! {

/// Suggestions per target when the request names no limit.
pub const DEFAULT_SUGGESTIONS_PER_TARGET: usize = 3;

/// The most suggestions per target.
pub const MAX_SUGGESTIONS_PER_TARGET: usize = 10;

/// The source tag of the suggestions.
pub const CROSS_LINK_SUGGESTION_SOURCE: &'static str = "bulk_overlap_v1";

/// What `char::is_alphanumeric` says of a character (the Unicode
/// `Alphabetic` property or a numeric category).
pub uninterp spec fn alphanumeric(c: char) -> bool;

/// `char::is_alphanumeric`: the contract names the result, and states what
/// its documentation gives for ASCII: exactly the letters and digits.
pub assume_specification[ char::is_alphanumeric ](c: char) -> (r: bool)
    ensures
        r == alphanumeric(c),
        (c as u32) < 128 ==> (r <==> (('a' <= c && c <= 'z') || ('A' <= c && c <= 'Z') || ('0' <= c
            && c <= '9'))),
;

/// The suggestion limit of a request: 3 by default, clamped to 1..=10.
pub fn normalize_per_target_limit(value: Option<usize>) -> (r: usize)
    ensures
        r == ({
            let v = match value {
                Some(v) => v,
                None => DEFAULT_SUGGESTIONS_PER_TARGET,
            };
            if v < 1 {
                1
            } else if v > MAX_SUGGESTIONS_PER_TARGET {
                MAX_SUGGESTIONS_PER_TARGET
            } else {
                v
            }
        }),
{
    let v = match value {
        Some(v) => v,
        None => DEFAULT_SUGGESTIONS_PER_TARGET,
    };
    if v < 1 {
        1
    } else if v > MAX_SUGGESTIONS_PER_TARGET {
        MAX_SUGGESTIONS_PER_TARGET
    } else {
        v
    }
}

/// The word pieces of a text, split at every character that is not
/// alphanumeric; with `n` characters read, the finished pieces and the
/// piece in progress.
pub open spec fn word_state(s: Seq<char>, n: nat) -> (Seq<Seq<char>>, Seq<char>)
    decreases n,
{
    if n == 0 {
        (Seq::empty(), Seq::empty())
    } else {
        let prev = word_state(s, (n - 1) as nat);
        let c = s[n - 1];
        if !alphanumeric(c) {
            (prev.0.push(prev.1), Seq::empty())
        } else {
            (prev.0, prev.1.push(c))
        }
    }
}

/// The word pieces of a text.
pub open spec fn word_pieces(s: Seq<char>) -> Seq<Seq<char>> {
    let st = word_state(s, s.len());
    st.0.push(st.1)
}

/// The tokens of pieces: each trimmed, kept when at least three bytes
/// long, lower-cased.
pub open spec fn tokens_of_pieces(p: Seq<Seq<char>>) -> Seq<Seq<char>>
    decreases p.len(),
{
    if p.len() == 0 {
        Seq::empty()
    } else {
        let prev = tokens_of_pieces(p.drop_last());
        let t = trim(p.last());
        if byte_len(t) >= 3 {
            prev.push(lower(t))
        } else {
            prev
        }
    }
}

/// The tokens of a text.
pub open spec fn tokens_of(s: Seq<char>) -> Seq<Seq<char>> {
    tokens_of_pieces(word_pieces(s))
}

fn word_pieces_of(value: &str) -> (r: Vec<String>)
    ensures
        views(r@) == word_pieces(value@),
{
    let chars = chars_of(value);
    let mut done: Vec<String> = Vec::new();
    let mut cur = String::new();
    let mut i: usize = 0;
    while i < chars.len()
        invariant
            i <= chars.len(),
            chars@ == value@,
            (views(done@), cur@) == word_state(value@, i as nat),
        decreases chars.len() - i,
    {
        let c = chars[i];
        if !c.is_alphanumeric() {
            let piece = cur;
            proof {
                lemma_views_push(done@, piece);
            }
            done.push(piece);
            cur = String::new();
        } else {
            cur.push(c);
        }
        i = i + 1;
    }
    proof {
        lemma_views_push(done@, cur);
    }
    done.push(cur);
    done
}

/// The tokens of a text: its alphanumeric words of at least three bytes,
/// lower-cased, in order.
pub fn tokenize_value(value: &str) -> (r: Vec<String>)
    ensures
        views(r@) == tokens_of(value@),
{
    let pieces = word_pieces_of(value);
    let ghost pv = views(pieces@);
    let mut out: Vec<String> = Vec::new();
    let mut i: usize = 0;
    while i < pieces.len()
        invariant
            i <= pieces.len(),
            pv == views(pieces@),
            views(out@) == tokens_of_pieces(pv.take(i as int)),
        decreases pieces.len() - i,
    {
        proof {
            assert(pv.take(i as int + 1).drop_last() =~= pv.take(i as int));
            assert(pv.take(i as int + 1).last() == pieces@[i as int]@);
        }
        let t = trim_str(pieces[i].as_str());
        if !byte_len_at_most(t.as_str(), 2) {
            let l = lower_str(t.as_str());
            proof {
                lemma_views_push(out@, l);
            }
            out.push(l);
        }
        i = i + 1;
    }
    assert(pv.take(pieces.len() as int) =~= pv);
    out
}

/// The token set of a summary: the tokens of its label and route, sorted
/// and without repeats.
pub open spec fn summary_tokens(label: Seq<char>, route: Seq<char>) -> Seq<Seq<char>> {
    sorted_unique(tokens_of(label) + tokens_of(route))
}

/// The token set of a summary (see `summary_tokens`).
pub fn tokenize_summary(summary: &SeoBulkSummaryRecord) -> (r: Vec<String>)
    ensures
        views(r@) == summary_tokens(summary.label@, summary.route@),
        strictly_sorted(views(r@)),
{
    let mut all = tokenize_value(summary.label.as_str());
    let route_tokens = tokenize_value(summary.route.as_str());
    let mut k: usize = 0;
    let ghost head = views(all@);
    while k < route_tokens.len()
        invariant
            k <= route_tokens.len(),
            views(all@) == head + views(route_tokens@).take(k as int),
        decreases route_tokens.len() - k,
    {
        let t = route_tokens[k].clone();
        proof {
            lemma_views_push(all@, t);
        }
        all.push(t);
        k = k + 1;
        assert(views(all@) =~= head + views(route_tokens@).take(k as int));
    }
    assert(views(route_tokens@).take(route_tokens.len() as int) =~= views(route_tokens@));
    let ghost av = views(all@);
    let mut set: Vec<String> = Vec::new();
    let mut i: usize = 0;
    while i < all.len()
        invariant
            i <= all.len(),
            av == views(all@),
            views(set@) == sorted_unique(av.take(i as int)),
            strictly_sorted(views(set@)),
        decreases all.len() - i,
    {
        proof {
            assert(av.take(i as int + 1).drop_last() =~= av.take(i as int));
            assert(av.take(i as int + 1).last() == all@[i as int]@);
        }
        insert_sorted_unique(&mut set, all[i].clone());
        i = i + 1;
    }
    assert(av.take(all.len() as int) =~= av);
    set
}

/// The anchor text of a link to a summary: its trimmed label, or its route
/// when the label is blank.
pub open spec fn anchor_hint(label: Seq<char>, route: Seq<char>) -> Seq<char> {
    if trim(label).len() > 0 {
        trim(label)
    } else {
        route
    }
}

/// The anchor text of a link to a summary (see `anchor_hint`).
pub fn normalized_anchor_hint(summary: &SeoBulkSummaryRecord) -> (r: String)
    ensures
        r@ == anchor_hint(summary.label@, summary.route@),
{
    let label = trim_str(summary.label.as_str());
    if label.as_str().unicode_len() > 0 {
        label
    } else {
        summary.route.clone()
    }
}

/// How many texts of `a` also occur in `b`.
pub open spec fn common_count(a: Seq<Seq<char>>, b: Seq<Seq<char>>) -> nat
    decreases a.len(),
{
    if a.len() == 0 {
        0
    } else {
        common_count(a.drop_last(), b) + if b.contains(a.last()) {
            1nat
        } else {
            0nat
        }
    }
}

proof fn lemma_common_count_bound(a: Seq<Seq<char>>, b: Seq<Seq<char>>)
    ensures
        common_count(a, b) <= a.len(),
    decreases a.len(),
{
    if a.len() > 0 {
        lemma_common_count_bound(a.drop_last(), b);
    }
}

fn count_common(a: &Vec<String>, b: &Vec<String>) -> (r: usize)
    ensures
        r == common_count(views(a@), views(b@)),
{
    let ghost av = views(a@);
    let mut n: usize = 0;
    let mut i: usize = 0;
    while i < a.len()
        invariant
            i <= a.len(),
            av == views(a@),
            n == common_count(av.take(i as int), views(b@)),
            n <= i,
        decreases a.len() - i,
    {
        proof {
            assert(av.take(i as int + 1).drop_last() =~= av.take(i as int));
            assert(av.take(i as int + 1).last() == a@[i as int]@);
        }
        if crate::text::strings_contain(b, a[i].as_str()) {
            n = n + 1;
        }
        i = i + 1;
    }
    assert(av.take(a.len() as int) =~= av);
    n
}

/// The mathematical form of a summary: kind, id, label, route.
pub open spec fn summary_view(s: SeoBulkSummaryRecord) -> (Seq<char>, u128, Seq<char>, Seq<char>) {
    (s.target_kind@, s.target_id, s.label@, s.route@)
}

/// The views of summaries.
pub open spec fn summaries_view(v: Seq<SeoBulkSummaryRecord>) -> Seq<(Seq<char>, u128, Seq<char>, Seq<char>)> {
    v.map_values(|s: SeoBulkSummaryRecord| summary_view(s))
}

/// The confidence of a link between summaries sharing `overlap` tokens:
/// 35, plus 15 per shared token, plus 10 for the same kind, at most 95.
pub open spec fn confidence(overlap: nat, same_kind: bool) -> int {
    let c = 35 + 15 * overlap + if same_kind {
        10int
    } else {
        0int
    };
    if c > 95 {
        95
    } else {
        c
    }
}

/// The candidate destinations of a source among the first `n` summaries:
/// other routes sharing at least one token, with their confidence.
pub open spec fn candidates_upto(
    ss: Seq<(Seq<char>, u128, Seq<char>, Seq<char>)>,
    src: int,
    n: int,
) -> Seq<(int, int)>
    decreases n,
{
    if n <= 0 {
        Seq::empty()
    } else {
        let prev = candidates_upto(ss, src, n - 1);
        let d = n - 1;
        let overlap = common_count(summary_tokens(ss[src].2, ss[src].3), summary_tokens(ss[d].2, ss[d].3));
        if d == src || ss[src].3 == ss[d].3 || overlap == 0 {
            prev
        } else {
            prev.push((d, confidence(overlap, ss[src].0 == ss[d].0)))
        }
    }
}

/// The key of a confidence that sorts larger confidences first.
pub open spec fn confidence_key(c: int) -> Seq<char> {
    seq![((200 - c) as u8) as char]
}

/// The sort key of a candidate: confidence (larger first), then route,
/// label, kind and id of the destination.
pub open spec fn candidate_key(ss: Seq<(Seq<char>, u128, Seq<char>, Seq<char>)>, c: (int, int)) -> Seq<Seq<char>> {
    seq![confidence_key(c.1), ss[c.0].3, ss[c.0].2, ss[c.0].0, hex_fixed(ss[c.0].1, 32)]
}

/// The candidates at the given positions, in order.
pub open spec fn pick_candidates(cs: Seq<(int, int)>, order: Seq<int>) -> Seq<(int, int)> {
    order.map_values(|i: int| cs[i])
}

/// The keys of candidates.
pub open spec fn candidate_keys(ss: Seq<(Seq<char>, u128, Seq<char>, Seq<char>)>, cs: Seq<(int, int)>) -> Seq<Seq<Seq<char>>> {
    cs.map_values(|c: (int, int)| candidate_key(ss, c))
}

/// The candidates of a source in key order.
pub open spec fn ranked_candidates(ss: Seq<(Seq<char>, u128, Seq<char>, Seq<char>)>, src: int) -> Seq<(int, int)> {
    let cs = candidates_upto(ss, src, ss.len() as int);
    pick_candidates(cs, key_sort(candidate_keys(ss, cs), cs.len() as int))
}

/// A suggestion from a source to a destination: source kind, id and
/// route, the destination's anchor hint and route, the confidence, the
/// suggestion source tag.
pub open spec fn suggestion(
    ss: Seq<(Seq<char>, u128, Seq<char>, Seq<char>)>,
    src: int,
    c: (int, int),
) -> (Seq<char>, u128, Seq<char>, Seq<char>, Seq<char>, int, Seq<char>) {
    (ss[src].0, ss[src].1, ss[src].3, anchor_hint(ss[c.0].2, ss[c.0].3), ss[c.0].3, c.1, "bulk_overlap_v1"@)
}

/// The suggestions of a source to the given candidates, in order.
pub open spec fn suggestions_of(
    ss: Seq<(Seq<char>, u128, Seq<char>, Seq<char>)>,
    src: int,
    top: Seq<(int, int)>,
) -> Seq<(Seq<char>, u128, Seq<char>, Seq<char>, Seq<char>, int, Seq<char>)> {
    top.map_values(|c: (int, int)| suggestion(ss, src, c))
}

/// The candidates a source keeps under a per-target limit: its first
/// `limit` ranked candidates.
pub open spec fn kept_candidates(ss: Seq<(Seq<char>, u128, Seq<char>, Seq<char>)>, src: int, limit: nat) -> Seq<(int, int)> {
    let rc = ranked_candidates(ss, src);
    if rc.len() <= limit {
        rc
    } else {
        rc.take(limit as int)
    }
}

/// The suggestions of the first `n` sources, each source's best
/// `limit` candidates in key order.
pub open spec fn suggestions_upto(
    ss: Seq<(Seq<char>, u128, Seq<char>, Seq<char>)>,
    limit: nat,
    n: int,
) -> Seq<(Seq<char>, u128, Seq<char>, Seq<char>, Seq<char>, int, Seq<char>)>
    decreases n,
{
    if n <= 0 {
        Seq::empty()
    } else {
        suggestions_upto(ss, limit, n - 1) + suggestions_of(ss, n - 1, kept_candidates(ss, n - 1, limit))
    }
}

/// The view of a suggestion record.
pub open spec fn suggestion_view(r: SeoCrossLinkSuggestionRecord) -> (Seq<char>, u128, Seq<char>, Seq<char>, Seq<char>, int, Seq<char>) {
    (r.target_kind@, r.target_id, r.target_route@, r.anchor_hint@, r.destination_route@, r.confidence as int, r.source@)
}

/// The views of suggestion records.
pub open spec fn suggestions_view(v: Seq<SeoCrossLinkSuggestionRecord>) -> Seq<(Seq<char>, u128, Seq<char>, Seq<char>, Seq<char>, int, Seq<char>)> {
    v.map_values(|r: SeoCrossLinkSuggestionRecord| suggestion_view(r))
}

/// The sort key of a suggestion: source kind, source route, destination
/// route, confidence (larger first), source id.
pub open spec fn suggestion_key(s: (Seq<char>, u128, Seq<char>, Seq<char>, Seq<char>, int, Seq<char>)) -> Seq<Seq<char>> {
    seq![s.0, s.2, s.4, confidence_key(s.5), hex_fixed(s.1, 32)]
}

/// The keys of suggestions.
pub open spec fn suggestion_keys(all: Seq<(Seq<char>, u128, Seq<char>, Seq<char>, Seq<char>, int, Seq<char>)>) -> Seq<Seq<Seq<char>>> {
    all.map_values(|s: (Seq<char>, u128, Seq<char>, Seq<char>, Seq<char>, int, Seq<char>)| suggestion_key(s))
}

/// The suggestions at the given positions, in order.
pub open spec fn pick_suggestions(
    all: Seq<(Seq<char>, u128, Seq<char>, Seq<char>, Seq<char>, int, Seq<char>)>,
    order: Seq<int>,
) -> Seq<(Seq<char>, u128, Seq<char>, Seq<char>, Seq<char>, int, Seq<char>)> {
    order.map_values(|i: int| all[i])
}

/// The suggestions of all sources in key order.
pub open spec fn cross_link_suggestions(ss: Seq<(Seq<char>, u128, Seq<char>, Seq<char>)>, limit: nat) -> Seq<(Seq<char>, u128, Seq<char>, Seq<char>, Seq<char>, int, Seq<char>)> {
    let all = suggestions_upto(ss, limit, ss.len() as int);
    pick_suggestions(all, key_sort(suggestion_keys(all), all.len() as int))
}


/// A suggestion links two different routes, with a confidence between 50
/// and 95.
pub open spec fn sound_suggestion(s: (Seq<char>, u128, Seq<char>, Seq<char>, Seq<char>, int, Seq<char>)) -> bool {
    s.2 != s.4 && 50 <= s.5 <= 95
}

proof fn lemma_candidates_sound(ss: Seq<(Seq<char>, u128, Seq<char>, Seq<char>)>, src: int, n: int)
    ensures
        forall|j: int|
            0 <= j < candidates_upto(ss, src, n).len() ==> {
                let c = #[trigger] candidates_upto(ss, src, n)[j];
                &&& 0 <= c.0 < n
                &&& ss[src].3 != ss[c.0].3
                &&& 50 <= c.1 <= 95
            },
    decreases n,
{
    if n > 0 {
        lemma_candidates_sound(ss, src, n - 1);
        let prev = candidates_upto(ss, src, n - 1);
        let cs = candidates_upto(ss, src, n);
        assert forall|j: int| 0 <= j < cs.len() implies {
            let c = #[trigger] cs[j];
            &&& 0 <= c.0 < n
            &&& ss[src].3 != ss[c.0].3
            &&& 50 <= c.1 <= 95
        } by {
            if j < prev.len() {
                assert(cs[j] == prev[j]);
            }
        }
    }
}

proof fn lemma_ranked_sound(ss: Seq<(Seq<char>, u128, Seq<char>, Seq<char>)>, src: int)
    ensures
        forall|j: int|
            0 <= j < ranked_candidates(ss, src).len() ==> {
                let c = #[trigger] ranked_candidates(ss, src)[j];
                &&& ss[src].3 != ss[c.0].3
                &&& 50 <= c.1 <= 95
            },
{
    let cs = candidates_upto(ss, src, ss.len() as int);
    let order = key_sort(candidate_keys(ss, cs), cs.len() as int);
    lemma_candidates_sound(ss, src, ss.len() as int);
    crate::order::lemma_key_sort_stable(candidate_keys(ss, cs), cs.len() as int);
    let rc = ranked_candidates(ss, src);
    assert forall|j: int| 0 <= j < rc.len() implies {
        let c = #[trigger] rc[j];
        &&& ss[src].3 != ss[c.0].3
        &&& 50 <= c.1 <= 95
    } by {
        assert(order.contains(order[j]));
        assert(rc[j] == cs[order[j]]);
    }
}

proof fn lemma_suggestions_upto_sound(ss: Seq<(Seq<char>, u128, Seq<char>, Seq<char>)>, limit: nat, n: int)
    ensures
        forall|k: int|
            0 <= k < suggestions_upto(ss, limit, n).len() ==> sound_suggestion(
                #[trigger] suggestions_upto(ss, limit, n)[k],
            ),
    decreases n,
{
    if n > 0 {
        lemma_suggestions_upto_sound(ss, limit, n - 1);
        lemma_ranked_sound(ss, n - 1);
        let rc = ranked_candidates(ss, n - 1);
        let top = if rc.len() <= limit {
            rc
        } else {
            rc.take(limit as int)
        };
        let prev = suggestions_upto(ss, limit, n - 1);
        let mine = suggestions_of(ss, n - 1, top);
        let all = suggestions_upto(ss, limit, n);
        assert(all == prev + mine);
        assert forall|k: int| 0 <= k < all.len() implies sound_suggestion(#[trigger] all[k]) by {
            if k < prev.len() {
                assert(all[k] == prev[k]);
            } else {
                let j = k - prev.len();
                assert(all[k] == mine[j]);
                assert(top[j] == rc[j]);
                assert(mine[j] == suggestion(ss, n - 1, top[j]));
            }
        }
    }
}

/// Cross-link suggestions never link a route to itself, and their
/// confidence lies between 50 and 95.
pub proof fn lemma_cross_link_suggestions_sound(ss: Seq<(Seq<char>, u128, Seq<char>, Seq<char>)>, limit: nat)
    ensures
        forall|k: int|
            0 <= k < cross_link_suggestions(ss, limit).len() ==> sound_suggestion(
                #[trigger] cross_link_suggestions(ss, limit)[k],
            ),
{
    let all = suggestions_upto(ss, limit, ss.len() as int);
    let order = key_sort(suggestion_keys(all), all.len() as int);
    lemma_suggestions_upto_sound(ss, limit, ss.len() as int);
    crate::order::lemma_key_sort_stable(suggestion_keys(all), all.len() as int);
    let r = cross_link_suggestions(ss, limit);
    assert forall|k: int| 0 <= k < r.len() implies sound_suggestion(#[trigger] r[k]) by {
        assert(order.contains(order[k]));
        assert(r[k] == all[order[k]]);
    }
}

proof fn lemma_confidence_key_order(a: int, b: int)
    requires
        0 <= a <= 95,
        0 <= b <= 95,
    ensures
        confidence_key(a) == confidence_key(b) ==> a == b,
        crate::text::text_lt(confidence_key(a), confidence_key(b)) ==> a > b,
{
    let x = ((200 - a) as u8) as char;
    let y = ((200 - b) as u8) as char;
    assert(x as int == 200 - a);
    assert(y as int == 200 - b);
    if confidence_key(a) == confidence_key(b) {
        assert(confidence_key(a)[0] == confidence_key(b)[0]);
    }
    if crate::text::text_lt(confidence_key(a), confidence_key(b)) {
        reveal_with_fuel(crate::text::text_lt, 2);
        assert(confidence_key(a).len() == 1);
        assert(confidence_key(b).len() == 1);
        assert(confidence_key(a)[0] == x);
        assert(confidence_key(b)[0] == y);
        if x == y {
            assert(confidence_key(a).drop_first() =~= Seq::<char>::empty());
            assert(confidence_key(b).drop_first() =~= Seq::<char>::empty());
        }
        assert(x < y);
    }
}

/// The candidates of a source are ranked by confidence, best first: a
/// candidate ranked before another never has the lower confidence.  So
/// the suggestions a source keeps under any per-target limit (its first
/// ranked candidates) are its most confident ones: each candidate the
/// limit drops has a confidence at most that of each one it keeps.
pub proof fn lemma_ranked_candidates_best_first(
    ss: Seq<(Seq<char>, u128, Seq<char>, Seq<char>)>,
    src: int,
    limit: nat,
)
    ensures
        forall|i: int, j: int|
            0 <= i < j < ranked_candidates(ss, src).len() ==> #[trigger] ranked_candidates(ss, src)[i].1
                >= #[trigger] ranked_candidates(ss, src)[j].1,
        forall|i: int, j: int|
            0 <= i < limit <= j < ranked_candidates(ss, src).len() ==> #[trigger] ranked_candidates(ss, src)[j].1
                <= #[trigger] ranked_candidates(ss, src)[i].1,
{
    let cs = candidates_upto(ss, src, ss.len() as int);
    let keys = candidate_keys(ss, cs);
    let order = key_sort(keys, cs.len() as int);
    let rc = ranked_candidates(ss, src);
    lemma_candidates_sound(ss, src, ss.len() as int);
    crate::order::lemma_key_sort_stable(keys, cs.len() as int);
    assert forall|i: int, j: int| 0 <= i < j < rc.len() implies #[trigger] rc[i].1 >= #[trigger] rc[j].1 by {
        assert(order.contains(order[i]));
        assert(order.contains(order[j]));
        let a = cs[order[i]];
        let b = cs[order[j]];
        assert(rc[i] == a);
        assert(rc[j] == b);
        let ka = keys[order[i]];
        let kb = keys[order[j]];
        assert(ka == candidate_key(ss, a));
        assert(kb == candidate_key(ss, b));
        lemma_confidence_key_order(a.1, b.1);
        if ka == kb {
            assert(ka[0] == kb[0]);
        } else {
            assert(crate::order::keys_lt(ka, kb));
            if ka[0] != kb[0] {
                assert(crate::text::text_lt(ka[0], kb[0]));
            }
        }
    }
}

/// A source keeps its most confident candidates: as many as the limit
/// allows (all of them under a larger limit), each of them a candidate,
/// and every candidate it does not keep has a confidence at most that of
/// each one it keeps.
pub proof fn lemma_kept_candidates_most_confident(
    ss: Seq<(Seq<char>, u128, Seq<char>, Seq<char>)>,
    src: int,
    limit: nat,
)
    ensures
        ({
            let cs = candidates_upto(ss, src, ss.len() as int);
            let kept = kept_candidates(ss, src, limit);
            &&& kept.len() == if cs.len() <= limit {
                cs.len() as int
            } else {
                limit as int
            }
            &&& forall|i: int| 0 <= i < kept.len() ==> cs.contains(#[trigger] kept[i])
            &&& forall|y: int, i: int|
                0 <= y < cs.len() && !kept.contains(cs[y]) && 0 <= i < kept.len() ==> #[trigger] cs[y].1
                    <= #[trigger] kept[i].1
        }),
{
    let cs = candidates_upto(ss, src, ss.len() as int);
    let keys = candidate_keys(ss, cs);
    let order = key_sort(keys, cs.len() as int);
    let rc = ranked_candidates(ss, src);
    let kept = kept_candidates(ss, src, limit);
    crate::order::lemma_key_sort_stable(keys, cs.len() as int);
    lemma_ranked_candidates_best_first(ss, src, limit);
    assert forall|i: int| 0 <= i < kept.len() implies cs.contains(#[trigger] kept[i]) by {
        assert(order.contains(order[i]));
        assert(kept[i] == rc[i]);
        assert(rc[i] == cs[order[i]]);
    }
    assert forall|y: int, i: int|
        0 <= y < cs.len() && !kept.contains(cs[y]) && 0 <= i < kept.len() implies #[trigger] cs[y].1
            <= #[trigger] kept[i].1 by {
        assert(order.contains(y));
        let j = choose|j: int| 0 <= j < order.len() && order[j] == y;
        assert(rc[j] == cs[y]);
        assert(kept[i] == rc[i]);
        if j < kept.len() {
            assert(kept[j] == rc[j]);
            assert(kept.contains(cs[y]));
        }
        assert(i < limit <= j || i < j);
    }
}

/// The views of candidates.
pub open spec fn candidates_view(v: Seq<(usize, i32)>) -> Seq<(int, int)> {
    v.map_values(|c: (usize, i32)| (c.0 as int, c.1 as int))
}

fn token_sets(summaries: &Vec<SeoBulkSummaryRecord>) -> (r: Vec<Vec<String>>)
    ensures
        r.len() == summaries.len(),
        forall|k: int| 0 <= k < r.len() ==> views(#[trigger] r@[k]@) == summary_tokens(summaries@[k].label@, summaries@[k].route@),
{
    let mut out: Vec<Vec<String>> = Vec::new();
    let mut i: usize = 0;
    while i < summaries.len()
        invariant
            i <= summaries.len(),
            out.len() == i,
            forall|k: int| 0 <= k < i ==> views(#[trigger] out@[k]@) == summary_tokens(summaries@[k].label@, summaries@[k].route@),
        decreases summaries.len() - i,
    {
        out.push(tokenize_summary(&summaries[i]));
        i = i + 1;
    }
    out
}

fn confidence_of(overlap: usize, same_kind: bool) -> (r: i32)
    ensures
        r as int == confidence(overlap as nat, same_kind),
        35 <= r <= 95,
{
    if overlap >= 4 {
        95
    } else {
        let bonus: i32 = if same_kind {
            10
        } else {
            0
        };
        let c: i32 = 35 + 15 * (overlap as i32) + bonus;
        if c > 95 {
            95
        } else {
            c
        }
    }
}

fn candidates_of(summaries: &Vec<SeoBulkSummaryRecord>, tokens: &Vec<Vec<String>>, src: usize) -> (r: Vec<(usize, i32)>)
    requires
        src < summaries.len(),
        tokens.len() == summaries.len(),
        forall|k: int| 0 <= k < tokens.len() ==> views(#[trigger] tokens@[k]@) == summary_tokens(summaries@[k].label@, summaries@[k].route@),
    ensures
        candidates_view(r@) == candidates_upto(summaries_view(summaries@), src as int, summaries.len() as int),
        forall|k: int| 0 <= k < r.len() ==> #[trigger] r@[k].0 < summaries.len(),
        forall|k: int| 0 <= k < r.len() ==> 0 <= #[trigger] r@[k].1 <= 95,
{
    let ghost ss = summaries_view(summaries@);
    let mut out: Vec<(usize, i32)> = Vec::new();
    let mut d: usize = 0;
    while d < summaries.len()
        invariant
            d <= summaries.len(),
            src < summaries.len(),
            ss == summaries_view(summaries@),
            tokens.len() == summaries.len(),
            forall|k: int| 0 <= k < tokens.len() ==> views(#[trigger] tokens@[k]@) == summary_tokens(summaries@[k].label@, summaries@[k].route@),
            candidates_view(out@) == candidates_upto(ss, src as int, d as int),
            forall|k: int| 0 <= k < out.len() ==> #[trigger] out@[k].0 < summaries.len(),
            forall|k: int| 0 <= k < out.len() ==> 0 <= #[trigger] out@[k].1 <= 95,
        decreases summaries.len() - d,
    {
        proof {
            assert(ss[src as int] == summary_view(summaries@[src as int]));
            assert(ss[d as int] == summary_view(summaries@[d as int]));
            assert(views(tokens@[src as int]@) == summary_tokens(summaries@[src as int].label@, summaries@[src as int].route@));
            assert(views(tokens@[d as int]@) == summary_tokens(summaries@[d as int].label@, summaries@[d as int].route@));
        }
        if d != src && !crate::text::str_eq(summaries[src].route.as_str(), summaries[d].route.as_str()) {
            let overlap = count_common(&tokens[src], &tokens[d]);
            if overlap > 0 {
                let same = summaries[src].target_kind.same_as(&summaries[d].target_kind);
                let c = confidence_of(overlap, same);
                let ghost prev = out@;
                out.push((d, c));
                assert(candidates_view(out@) =~= candidates_view(prev).push((d as int, c as int)));
            }
        }
        d = d + 1;
    }
    out
}

fn confidence_key_string(c: i32) -> (r: String)
    requires
        0 <= c <= 200,
    ensures
        r@ == confidence_key(c as int),
{
    let mut s = String::new();
    s.push(((200 - c) as u8) as char);
    assert(s@ =~= confidence_key(c as int));
    s
}

fn rank(summaries: &Vec<SeoBulkSummaryRecord>, cands: &Vec<(usize, i32)>, src: usize) -> (r: Vec<(usize, i32)>)
    requires
        src < summaries.len(),
        forall|k: int| 0 <= k < cands.len() ==> #[trigger] cands@[k].0 < summaries.len(),
        forall|k: int| 0 <= k < cands.len() ==> 0 <= #[trigger] cands@[k].1 <= 95,
        candidates_view(cands@) == candidates_upto(summaries_view(summaries@), src as int, summaries.len() as int),
    ensures
        candidates_view(r@) == ranked_candidates(summaries_view(summaries@), src as int),
        forall|k: int| 0 <= k < r.len() ==> #[trigger] r@[k].0 < summaries.len(),
        forall|k: int| 0 <= k < r.len() ==> 0 <= #[trigger] r@[k].1 <= 95,
{
    let ghost ss = summaries_view(summaries@);
    let ghost cs = candidates_view(cands@);
    let ghost ks = candidate_keys(ss, cs);
    let mut keys: Vec<Vec<String>> = Vec::new();
    let mut i: usize = 0;
    while i < cands.len()
        invariant
            i <= cands.len(),
            ss == summaries_view(summaries@),
            cs == candidates_view(cands@),
            ks == candidate_keys(ss, cs),
            forall|k: int| 0 <= k < cands.len() ==> #[trigger] cands@[k].0 < summaries.len(),
            forall|k: int| 0 <= k < cands.len() ==> 0 <= #[trigger] cands@[k].1 <= 95,
            keys_view(keys@) == ks.take(i as int),
        decreases cands.len() - i,
    {
        let (d, c) = cands[i];
        let dest = &summaries[d];
        let mut k: Vec<String> = Vec::new();
        k.push(confidence_key_string(c));
        k.push(dest.route.clone());
        k.push(dest.label.clone());
        k.push(owned(dest.target_kind.as_str()));
        k.push(u128_hex_key(dest.target_id));
        proof {
            assert(ss[d as int] == summary_view(summaries@[d as int]));
            assert(views(k@) =~= ks[i as int]);
        }
        let ghost prev = keys@;
        let ghost kv = views(k@);
        keys.push(k);
        assert(keys_view(keys@) =~= keys_view(prev).push(kv));
        assert(ks.take(i as int + 1) =~= ks.take(i as int).push(ks[i as int]));
        i = i + 1;
    }
    assert(ks.take(cands.len() as int) =~= ks);
    let order = sort_order(&keys);
    let ghost o = index_seq(order@);
    let mut out: Vec<(usize, i32)> = Vec::new();
    let mut j: usize = 0;
    while j < order.len()
        invariant
            j <= order.len(),
            order.len() == cands.len(),
            o == index_seq(order@),
            cs == candidates_view(cands@),
            forall|m: int| 0 <= m < order.len() ==> #[trigger] order@[m] < cands.len(),
            forall|k: int| 0 <= k < cands.len() ==> #[trigger] cands@[k].0 < summaries.len(),
            forall|k: int| 0 <= k < cands.len() ==> 0 <= #[trigger] cands@[k].1 <= 95,
            candidates_view(out@) == pick_candidates(cs, o.take(j as int)),
            forall|k: int| 0 <= k < out.len() ==> #[trigger] out@[k].0 < summaries.len(),
            forall|k: int| 0 <= k < out.len() ==> 0 <= #[trigger] out@[k].1 <= 95,
        decreases order.len() - j,
    {
        let c = cands[order[j]];
        let ghost prev = out@;
        out.push(c);
        assert(candidates_view(out@) =~= candidates_view(prev).push((c.0 as int, c.1 as int)));
        assert(pick_candidates(cs, o.take(j as int + 1)) =~= pick_candidates(cs, o.take(j as int)).push(cs[o[j as int]]));
        j = j + 1;
    }
    assert(o.take(order.len() as int) =~= o);
    out
}


fn suggestion_record(summaries: &Vec<SeoBulkSummaryRecord>, src: usize, c: (usize, i32)) -> (r: SeoCrossLinkSuggestionRecord)
    requires
        src < summaries.len(),
        c.0 < summaries.len(),
    ensures
        suggestion_view(r) == suggestion(summaries_view(summaries@), src as int, (c.0 as int, c.1 as int)),
{
    let source = &summaries[src];
    let dest = &summaries[c.0];
    proof {
        reveal_strlit("bulk_overlap_v1");
    }
    SeoCrossLinkSuggestionRecord {
        target_kind: source.target_kind.copy(),
        target_id: source.target_id,
        target_route: source.route.clone(),
        anchor_hint: normalized_anchor_hint(dest),
        destination_route: dest.route.clone(),
        confidence: c.1,
        source: owned(CROSS_LINK_SUGGESTION_SOURCE),
    }
}

/// Internal link suggestions between summaries (see
/// `cross_link_suggestions`): for each source, the other routes sharing
/// tokens with it, best first, at most `per_target_limit` of them; all
/// suggestions then ordered by source kind, source route, destination
/// route, confidence and source id.
pub fn build_cross_link_suggestions(summaries: &Vec<SeoBulkSummaryRecord>, per_target_limit: usize) -> (r: Vec<SeoCrossLinkSuggestionRecord>)
    ensures
        suggestions_view(r@) == cross_link_suggestions(summaries_view(summaries@), per_target_limit as nat),
{
    let ghost ss = summaries_view(summaries@);
    let tokens = token_sets(summaries);
    let mut all: Vec<SeoCrossLinkSuggestionRecord> = Vec::new();
    let mut src: usize = 0;
    assert(suggestions_view(all@) =~= suggestions_upto(ss, per_target_limit as nat, 0));
    while src < summaries.len()
        invariant
            src <= summaries.len(),
            ss == summaries_view(summaries@),
            tokens.len() == summaries.len(),
            forall|k: int| 0 <= k < tokens.len() ==> views(#[trigger] tokens@[k]@) == summary_tokens(summaries@[k].label@, summaries@[k].route@),
            suggestions_view(all@) == suggestions_upto(ss, per_target_limit as nat, src as int),
            forall|k: int| 0 <= k < all.len() ==> 0 <= #[trigger] all@[k].confidence <= 95,
        decreases summaries.len() - src,
    {
        let cands = candidates_of(summaries, &tokens, src);
        let ranked = rank(summaries, &cands, src);
        let ghost rc = candidates_view(ranked@);
        let ghost top = if rc.len() <= per_target_limit {
            rc
        } else {
            rc.take(per_target_limit as int)
        };
        let ghost before = suggestions_view(all@);
        let mut j: usize = 0;
        while j < ranked.len() && j < per_target_limit
            invariant
                j <= ranked.len(),
                j <= per_target_limit,
                src < summaries.len(),
                ss == summaries_view(summaries@),
                rc == candidates_view(ranked@),
                top == if rc.len() <= per_target_limit {
                    rc
                } else {
                    rc.take(per_target_limit as int)
                },
                forall|k: int| 0 <= k < ranked.len() ==> #[trigger] ranked@[k].0 < summaries.len(),
                forall|k: int| 0 <= k < ranked.len() ==> 0 <= #[trigger] ranked@[k].1 <= 95,
                suggestions_view(all@) == before + suggestions_of(ss, src as int, top.take(j as int)),
                forall|k: int| 0 <= k < all.len() ==> 0 <= #[trigger] all@[k].confidence <= 95,
            decreases ranked.len() - j,
        {
            let rec = suggestion_record(summaries, src, ranked[j]);
            let ghost prev = all@;
            all.push(rec);
            proof {
                assert(top[j as int] == rc[j as int]);
                assert(suggestions_view(all@) =~= suggestions_view(prev).push(suggestion_view(rec)));
                assert(suggestions_of(ss, src as int, top.take(j as int + 1)) =~= suggestions_of(ss, src as int, top.take(j as int)).push(suggestion(ss, src as int, top[j as int])));
            }
            j = j + 1;
        }
        proof {
            assert(top.take(j as int) =~= top);
        }
        src = src + 1;
    }
    let ghost av = suggestions_view(all@);
    let ghost ks = suggestion_keys(av);
    let mut keys: Vec<Vec<String>> = Vec::new();
    let mut i: usize = 0;
    while i < all.len()
        invariant
            i <= all.len(),
            av == suggestions_view(all@),
            ks == suggestion_keys(av),
            forall|k: int| 0 <= k < all.len() ==> 0 <= #[trigger] all@[k].confidence <= 95,
            keys_view(keys@) == ks.take(i as int),
        decreases all.len() - i,
    {
        let s = &all[i];
        let mut k: Vec<String> = Vec::new();
        k.push(owned(s.target_kind.as_str()));
        k.push(s.target_route.clone());
        k.push(s.destination_route.clone());
        k.push(confidence_key_string(s.confidence));
        k.push(u128_hex_key(s.target_id));
        proof {
            assert(views(k@) =~= ks[i as int]);
        }
        let ghost prev = keys@;
        let ghost kv = views(k@);
        keys.push(k);
        assert(keys_view(keys@) =~= keys_view(prev).push(kv));
        assert(ks.take(i as int + 1) =~= ks.take(i as int).push(ks[i as int]));
        i = i + 1;
    }
    assert(ks.take(all.len() as int) =~= ks);
    let order = sort_order(&keys);
    let ghost o = index_seq(order@);
    let mut out: Vec<SeoCrossLinkSuggestionRecord> = Vec::new();
    let mut j: usize = 0;
    while j < order.len()
        invariant
            j <= order.len(),
            order.len() == all.len(),
            o == index_seq(order@),
            av == suggestions_view(all@),
            forall|m: int| 0 <= m < order.len() ==> #[trigger] order@[m] < all.len(),
            suggestions_view(out@) == pick_suggestions(av, o.take(j as int)),
        decreases order.len() - j,
    {
        let s = &all[order[j]];
        let rec = SeoCrossLinkSuggestionRecord {
            target_kind: s.target_kind.copy(),
            target_id: s.target_id,
            target_route: s.target_route.clone(),
            anchor_hint: s.anchor_hint.clone(),
            destination_route: s.destination_route.clone(),
            confidence: s.confidence,
            source: s.source.clone(),
        };
        let ghost prev = out@;
        out.push(rec);
        proof {
            assert(suggestion_view(rec) == av[o[j as int]]);
            assert(suggestions_view(out@) =~= suggestions_view(prev).push(suggestion_view(rec)));
            assert(pick_suggestions(av, o.take(j as int + 1)) =~= pick_suggestions(av, o.take(j as int)).push(av[o[j as int]]));
        }
        j = j + 1;
    }
    assert(o.take(order.len() as int) =~= o);
    out
}


// ---------------------------------------------------------------------------
// Listings and suggestion counts
// ---------------------------------------------------------------------------

/// The order key of a listed target: kind, route, label, then id (its
/// 32-digit hexadecimal form, so that text order is numeric order).
pub open spec fn listing_key(s: SeoBulkSummaryRecord) -> Seq<Seq<char>> {
    seq![s.target_kind@, s.route@, s.label@, hex_fixed(s.target_id, 32)]
}

/// The order keys of listed targets.
pub open spec fn listing_keys(v: Seq<SeoBulkSummaryRecord>) -> Seq<Seq<Seq<char>>> {
    v.map_values(|s: SeoBulkSummaryRecord| listing_key(s))
}

/// Whether two listings name the same target the same way.
pub open spec fn same_listing(a: SeoBulkSummaryRecord, b: SeoBulkSummaryRecord) -> bool {
    a.target_kind@ == b.target_kind@ && a.target_id == b.target_id && a.route@ == b.route@
        && a.label@ == b.label@
}

/// Listings without a listing equal to the one kept before it.
pub open spec fn dedup_listings(s: Seq<SeoBulkSummaryRecord>) -> Seq<SeoBulkSummaryRecord>
    decreases s.len(),
{
    if s.len() == 0 {
        s
    } else {
        let p = dedup_listings(s.drop_last());
        if p.len() > 0 && same_listing(p.last(), s.last()) {
            p
        } else {
            p.push(s.last())
        }
    }
}

/// The listings of all providers, sorted by `listing_key` (stable) and
/// without repeats.
pub open spec fn sorted_listings(v: Seq<SeoBulkSummaryRecord>) -> Seq<SeoBulkSummaryRecord> {
    dedup_listings(
        key_sort(listing_keys(v), v.len() as int).map_values(|i: int| v[i]),
    )
}

fn copy_summary(s: &SeoBulkSummaryRecord) -> (r: SeoBulkSummaryRecord)
    ensures
        r == *s,
{
    SeoBulkSummaryRecord {
        target_kind: s.target_kind.copy(),
        target_id: s.target_id,
        effective_locale: s.effective_locale.clone(),
        label: s.label.clone(),
        route: s.route.clone(),
    }
}

/// Sorts the listings of all providers and drops repeats (see
/// `sorted_listings`).
pub fn sort_and_dedup_summaries(summaries: &Vec<SeoBulkSummaryRecord>) -> (r: Vec<SeoBulkSummaryRecord>)
    ensures
        r@ == sorted_listings(summaries@),
{
    let mut keys: Vec<Vec<String>> = Vec::new();
    let mut i: usize = 0;
    while i < summaries.len()
        invariant
            i <= summaries.len(),
            keys_view(keys@) == listing_keys(summaries@).take(i as int),
        decreases summaries.len() - i,
    {
        let s = &summaries[i];
        let mut k: Vec<String> = Vec::new();
        k.push(owned(s.target_kind.as_str()));
        k.push(s.route.clone());
        k.push(s.label.clone());
        k.push(u128_hex_key(s.target_id));
        assert(views(k@) =~= listing_key(*s));
        let ghost prev = keys@;
        keys.push(k);
        proof {
            assert(keys_view(keys@) =~= keys_view(prev).push(listing_key(*s)));
            assert(listing_keys(summaries@).take(i as int + 1) =~= listing_keys(summaries@).take(i as int).push(
                listing_key(*s),
            ));
        }
        i = i + 1;
    }
    assert(listing_keys(summaries@).take(summaries.len() as int) =~= listing_keys(summaries@));
    let order = sort_order(&keys);
    let ghost ord = key_sort(listing_keys(summaries@), summaries.len() as int);
    let ghost sorted = ord.map_values(|k: int| summaries@[k]);
    let mut out: Vec<SeoBulkSummaryRecord> = Vec::new();
    let mut j: usize = 0;
    while j < order.len()
        invariant
            j <= order.len(),
            order.len() == summaries.len(),
            index_seq(order@) == ord,
            sorted == ord.map_values(|k: int| summaries@[k]),
            forall|k: int| 0 <= k < order.len() ==> #[trigger] order@[k] < summaries.len(),
            out@ == dedup_listings(sorted.take(j as int)),
        decreases order.len() - j,
    {
        let s = &summaries[order[j]];
        proof {
            assert(ord[j as int] == order@[j as int] as int);
            assert(sorted[j as int] == *s);
            assert(sorted.take(j as int + 1).drop_last() =~= sorted.take(j as int));
            assert(sorted.take(j as int + 1).last() == *s);
        }
        let repeat = if out.len() > 0 {
            let last = &out[out.len() - 1];
            crate::text::str_eq(last.target_kind.as_str(), s.target_kind.as_str()) && last.target_id
                == s.target_id && crate::text::str_eq(last.route.as_str(), s.route.as_str())
                && crate::text::str_eq(last.label.as_str(), s.label.as_str())
        } else {
            false
        };
        if !repeat {
            out.push(copy_summary(s));
        }
        j = j + 1;
    }
    assert(sorted.take(order.len() as int) =~= sorted);
    out
}

/// The number of suggestions made for a target.
pub open spec fn suggestion_count(s: Seq<SeoCrossLinkSuggestionRecord>, kind: Seq<char>, id: u128) -> nat
    decreases s.len(),
{
    if s.len() == 0 {
        0
    } else {
        suggestion_count(s.drop_last(), kind, id) + if s.last().target_kind@ == kind && s.last().target_id
            == id {
            1nat
        } else {
            0nat
        }
    }
}

/// The number of suggestions made for a target (see `suggestion_count`).
pub fn count_suggestions_for_target(suggestions: &Vec<SeoCrossLinkSuggestionRecord>, target_kind: &SeoTargetSlug, target_id: u128) -> (r: usize)
    ensures
        r == suggestion_count(suggestions@, target_kind@, target_id),
{
    let mut n: usize = 0;
    let mut i: usize = 0;
    while i < suggestions.len()
        invariant
            i <= suggestions.len(),
            n == suggestion_count(suggestions@.take(i as int), target_kind@, target_id),
            n <= i,
        decreases suggestions.len() - i,
    {
        assert(suggestions@.take(i as int + 1).drop_last() =~= suggestions@.take(i as int));
        if suggestions[i].target_kind.same_as(target_kind) && suggestions[i].target_id == target_id {
            n = n + 1;
        }
        i = i + 1;
    }
    assert(suggestions@.take(suggestions.len() as int) =~= suggestions@);
    n
}

} // verus!
