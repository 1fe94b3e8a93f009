//! Diagnostics of SEO targets: redirect tracing of canonical URLs, image
//! descriptor checks and the counting of issues by key.
use vstd::prelude::*;

use crate::dto::{
    SeoDiagnosticCountRecord, SeoDiagnosticSeverity, SeoImageAsset, SeoPageContext,
    BUILTIN_SLUG_BLOG_POST, BUILTIN_SLUG_FORUM_TOPIC, BUILTIN_SLUG_PAGE, BUILTIN_SLUG_PRODUCT,
};
use crate::text::{
    append, dec_nat, is_blank, opt_view, owned, push_dec_u64, str_eq, str_lt, text_lt, trim,
    trim_str, usize_to_string, views, lemma_views_push, insert_sorted_unique, strictly_sorted,
    lemma_text_lt_total, lemma_text_lt_transitive, lemma_text_lt_irreflexive,
    lemma_text_lt_asymmetric,
};

verus! {

/// Remediation shown when a target has no cross-link suggestions.
pub const CROSS_LINK_GAP_REMEDIATION_MESSAGE: &'static str = "No cross-link suggestions were generated for this target. Use seoCrossLinkSuggestions or GET /api/seo/cross-link-suggestions to review remediation candidates.";

/// Remediation shown when image descriptors lack alt text.
pub const MISSING_IMAGE_ALT_REMEDIATION_MESSAGE: &'static str = "Open Graph/Twitter image descriptors are missing alt text in SEO-critical targets.";

/// Remediation shown when image descriptors lack dimensions.
pub const MISSING_IMAGE_SIZE_REMEDIATION_MESSAGE: &'static str = "Open Graph/Twitter image descriptors are missing width/height in SEO-critical targets.";

/// The number of issues a diagnostics summary lists.
pub const MAX_EXPOSED_ISSUES: usize = 50;

// ---------------------------------------------------------------------------
// Redirect tracing
// ---------------------------------------------------------------------------

/// The views of redirect graph entries (source route, target route).
pub open spec fn graph_view(g: Seq<(String, String)>) -> Seq<(Seq<char>, Seq<char>)> {
    g.map_values(|e: (String, String)| (e.0@, e.1@))
}

/// Where a route redirects to: the target of the last entry for the route
/// (later entries override earlier ones).
pub open spec fn redirect_target(g: Seq<(Seq<char>, Seq<char>)>, k: Seq<char>) -> Option<Seq<char>>
    decreases g.len(),
{
    if g.len() == 0 {
        None
    } else if g.last().0 == k {
        Some(g.last().1)
    } else {
        redirect_target(g.drop_last(), k)
    }
}

/// The route reached after `n` redirects from `r` (staying put once no
/// redirect applies).
pub open spec fn walk(g: Seq<(Seq<char>, Seq<char>)>, r: Seq<char>, n: nat) -> Seq<char>
    decreases n,
{
    if n == 0 {
        r
    } else {
        let prev = walk(g, r, (n - 1) as nat);
        match redirect_target(g, prev) {
            Some(t) => t,
            None => prev,
        }
    }
}

/// The routes visited before step `n`.
pub open spec fn walk_prefix(g: Seq<(Seq<char>, Seq<char>)>, r: Seq<char>, n: nat) -> Seq<Seq<char>> {
    Seq::new(n, |i: int| walk(g, r, i as nat))
}

/// The trace stops at step `n` when the route there was already visited or
/// has no redirect.
pub open spec fn stops_at(g: Seq<(Seq<char>, Seq<char>)>, r: Seq<char>, n: nat) -> bool {
    walk_prefix(g, r, n).contains(walk(g, r, n)) || redirect_target(g, walk(g, r, n)) is None
}

/// The classification of a redirect trace.
pub enum TraceOutcome {
    Single(Seq<char>),
    Chain(Seq<char>, nat),
    Loop(Seq<char>),
}

/// The classification of a trace stopping at step `n`: a loop at a
/// revisited route, else a single redirect or a chain of `n` hops.
pub open spec fn outcome_at(g: Seq<(Seq<char>, Seq<char>)>, r: Seq<char>, n: nat) -> TraceOutcome {
    if walk_prefix(g, r, n).contains(walk(g, r, n)) {
        TraceOutcome::Loop(walk(g, r, n))
    } else if n == 1 {
        TraceOutcome::Single(walk(g, r, n))
    } else {
        TraceOutcome::Chain(walk(g, r, n), n)
    }
}

/// Where the redirects of a canonical route lead.
#[derive(Clone, Debug)]
pub enum RedirectTrace {
    Single { target: String },
    Chain { final_target: String, hops: usize },
    Loop { at: String },
}

impl View for RedirectTrace {
    type V = TraceOutcome;

    open spec fn view(&self) -> TraceOutcome {
        match self {
            RedirectTrace::Single { target } => TraceOutcome::Single(target@),
            RedirectTrace::Chain { final_target, hops } => TraceOutcome::Chain(
                final_target@,
                *hops as nat,
            ),
            RedirectTrace::Loop { at } => TraceOutcome::Loop(at@),
        }
    }
}

impl RedirectTrace {
    /// The diagnostic code of the trace.
    pub fn code(&self) -> (r: &'static str)
        ensures
            r@ == match self@ {
                TraceOutcome::Single(_) => "canonical_redirect_target"@,
                TraceOutcome::Chain(_, _) => "canonical_redirect_chain"@,
                TraceOutcome::Loop(_) => "canonical_redirect_loop"@,
            },
    {
        match self {
            RedirectTrace::Single { .. } => "canonical_redirect_target",
            RedirectTrace::Chain { .. } => "canonical_redirect_chain",
            RedirectTrace::Loop { .. } => "canonical_redirect_loop",
        }
    }

    /// A loop is an error; a single redirect or a chain is a warning.
    pub fn severity(&self) -> (r: SeoDiagnosticSeverity)
        ensures
            r == if self@ is Loop {
                SeoDiagnosticSeverity::Error
            } else {
                SeoDiagnosticSeverity::Warning
            },
    {
        match self {
            RedirectTrace::Loop { .. } => SeoDiagnosticSeverity::Error,
            RedirectTrace::Single { .. } | RedirectTrace::Chain { .. } => {
                SeoDiagnosticSeverity::Warning
            },
        }
    }

    /// The diagnostic message of the trace.
    pub fn message(&self) -> (r: String)
        ensures
            r@ == match self@ {
                TraceOutcome::Single(t) => "Effective canonical URL redirects to `"@ + t + "`."@,
                TraceOutcome::Chain(t, hops) => "Effective canonical URL redirects through "@
                    + dec_nat(hops) + " hops to `"@ + t + "`."@,
                TraceOutcome::Loop(at) => "Effective canonical URL participates in a redirect loop at `"@
                    + at + "`."@,
            },
    {
        match self {
            RedirectTrace::Single { target } => {
                let mut m = owned("Effective canonical URL redirects to `");
                append(&mut m, target.as_str());
                append(&mut m, "`.");
                m
            },
            RedirectTrace::Chain { final_target, hops } => {
                let mut m = owned("Effective canonical URL redirects through ");
                push_dec_u64(&mut m, *hops as u64);
                append(&mut m, " hops to `");
                append(&mut m, final_target.as_str());
                append(&mut m, "`.");
                m
            },
            RedirectTrace::Loop { at } => {
                let mut m = owned("Effective canonical URL participates in a redirect loop at `");
                append(&mut m, at.as_str());
                append(&mut m, "`.");
                m
            },
        }
    }
}

/// The redirect target of a route in the graph (see `redirect_target`).
pub fn lookup_redirect(graph: &Vec<(String, String)>, route: &str) -> (r: Option<String>)
    ensures
        opt_view(r) == redirect_target(graph_view(graph@), route@),
{
    let ghost gv = graph_view(graph@);
    let mut i: usize = graph.len();
    assert(gv.take(i as int) =~= gv);
    while i > 0
        invariant
            i <= graph.len(),
            gv == graph_view(graph@),
            redirect_target(gv, route@) == redirect_target(gv.take(i as int), route@),
        decreases i,
    {
        proof {
            assert(gv.take(i as int).drop_last() =~= gv.take(i as int - 1));
            assert(gv.take(i as int).last() == (graph@[i - 1].0@, graph@[i - 1].1@));
        }
        if str_eq(graph[i - 1].0.as_str(), route) {
            return Some(graph[i - 1].1.clone());
        }
        i = i - 1;
    }
    assert(gv.take(0) =~= Seq::<(Seq<char>, Seq<char>)>::empty());
    None
}

/// The targets of the graph and the starting route: every route a walk
/// can reach.
pub open spec fn reachable_routes(g: Seq<(Seq<char>, Seq<char>)>, r: Seq<char>) -> Seq<Seq<char>> {
    seq![r] + g.map_values(|e: (Seq<char>, Seq<char>)| e.1)
}

proof fn lemma_redirect_target_in(g: Seq<(Seq<char>, Seq<char>)>, r: Seq<char>, k: Seq<char>)
    ensures
        redirect_target(g, k) matches Some(t) ==> reachable_routes(g, r).contains(t),
    decreases g.len(),
{
    if g.len() > 0 {
        let u = reachable_routes(g, r);
        if g.last().0 == k {
            assert(u[g.len() as int] == g.last().1);
        } else {
            lemma_redirect_target_in(g.drop_last(), r, k);
            if let Some(t) = redirect_target(g, k) {
                let u2 = reachable_routes(g.drop_last(), r);
                let j = choose|j: int| 0 <= j < u2.len() && u2[j] == t;
                assert(u[j] == u2[j]);
            }
        }
    }
}

/// Follows the redirects of a route: `None` when the route has no
/// redirect; otherwise the classification at the first step that reaches
/// a visited route (a loop) or a route without redirect (a single redirect
/// or a chain of that many hops).
pub fn trace_redirects(route: &str, graph: &Vec<(String, String)>) -> (r: Option<RedirectTrace>)
    ensures
        r is None <==> redirect_target(graph_view(graph@), route@) is None,
        r matches Some(t) ==> exists|n: nat|
            1 <= n && stops_at(graph_view(graph@), route@, n) && (forall|m: nat|
                1 <= m < n ==> !#[trigger] stops_at(graph_view(graph@), route@, m)) && t@
                == outcome_at(graph_view(graph@), route@, n),
{
    let ghost g = graph_view(graph@);
    let ghost r0 = route@;
    let ghost u = reachable_routes(g, r0);
    let first = match lookup_redirect(graph, route) {
        Some(t) => t,
        None => return None,
    };
    let mut visited: Vec<String> = Vec::new();
    visited.push(owned(route));
    let mut current = first;
    proof {
        lemma_redirect_target_in(g, r0, r0);
        assert(views(visited@) =~= walk_prefix(g, r0, 1));
        assert(walk(g, r0, 0) == r0);
        assert(walk(g, r0, 1) == current@);
        assert(u[0] == r0);
    }
    loop
        invariant
            g == graph_view(graph@),
            r0 == route@,
            u == reachable_routes(g, r0),
            1 <= visited.len(),
            redirect_target(g, r0) is Some,
            current@ == walk(g, r0, visited.len() as nat),
            views(visited@) == walk_prefix(g, r0, visited.len() as nat),
            views(visited@).no_duplicates(),
            forall|i: int| 0 <= i < visited.len() ==> u.contains(#[trigger] views(visited@)[i]),
            u.contains(current@),
            forall|m: nat| 1 <= m < visited.len() ==> !#[trigger] stops_at(g, r0, m),
        decreases graph.len() + 1 - visited.len(),
    {
        let n: usize = visited.len();
        let ghost vv = views(visited@);
        let mut seen = false;
        let mut i: usize = 0;
        while i < visited.len()
            invariant
                i <= visited.len(),
                vv == views(visited@),
                seen <==> exists|k: int| 0 <= k < i && vv[k] == current@,
            decreases visited.len() - i,
        {
            assert(vv[i as int] == visited@[i as int]@);
            if str_eq(visited[i].as_str(), current.as_str()) {
                seen = true;
            }
            i = i + 1;
        }
        if seen {
            proof {
                assert(vv.contains(current@));
                assert(stops_at(g, r0, n as nat));
            }
            return Some(RedirectTrace::Loop { at: current });
        }
        let next = lookup_redirect(graph, current.as_str());
        proof {
            assert(!vv.contains(current@));
            // the visited routes are distinct and all reachable, so there are
            // no more of them than reachable routes
            let vs = vv.push(current@);
            assert(vs.no_duplicates());
            vs.unique_seq_to_set();
            u.lemma_cardinality_of_set();
            assert(vs.to_set().subset_of(u.to_set())) by {
                assert forall|x: Seq<char>| vs.to_set().contains(x) implies u.to_set().contains(x) by {
                    let k = choose|k: int| 0 <= k < vs.len() && vs[k] == x;
                    if k < vv.len() {
                        assert(u.contains(vv[k]));
                    }
                }
            }
            vstd::set_lib::lemma_len_subset(vs.to_set(), u.to_set());
            assert(u.len() == graph.len() + 1);
        }
        match next {
            None => {
                proof {
                    assert(stops_at(g, r0, n as nat));
                }
                if n == 1 {
                    return Some(RedirectTrace::Single { target: current });
                } else {
                    return Some(RedirectTrace::Chain { final_target: current, hops: n });
                }
            },
            Some(next) => {
                proof {
                    lemma_redirect_target_in(g, r0, current@);
                    assert(!stops_at(g, r0, n as nat));
                }
                let ghost cur = current@;
                visited.push(current);
                current = next;
                proof {
                    assert(views(visited@) =~= vv.push(cur));
                    assert(views(visited@) =~= walk_prefix(g, r0, visited.len() as nat));
                    assert forall|i: int| 0 <= i < visited.len() implies u.contains(#[trigger] views(visited@)[i]) by {
                        if i < vv.len() {
                            assert(views(visited@)[i] == vv[i]);
                        }
                    }
                }
            },
        }
    }
}


// ---------------------------------------------------------------------------
// Counting issues by key
// ---------------------------------------------------------------------------

/// How often a key occurs in a sequence.
pub open spec fn occurrences(s: Seq<Seq<char>>, k: Seq<char>) -> nat
    decreases s.len(),
{
    if s.len() == 0 {
        0
    } else {
        occurrences(s.drop_last(), k) + if s.last() == k {
            1nat
        } else {
            0nat
        }
    }
}

/// The distinct keys in ascending order, each with its number of
/// occurrences.
pub open spec fn key_counts(s: Seq<Seq<char>>) -> Seq<(Seq<char>, nat)> {
    crate::text::sorted_unique(s).map_values(|k: Seq<char>| (k, occurrences(s, k)))
}

/// The views of count records.
pub open spec fn counts_view(v: Seq<SeoDiagnosticCountRecord>) -> Seq<(Seq<char>, nat)> {
    v.map_values(|c: SeoDiagnosticCountRecord| (c.key@, c.count as nat))
}

proof fn lemma_occurrences_bound(s: Seq<Seq<char>>, k: Seq<char>)
    ensures
        occurrences(s, k) <= s.len(),
    decreases s.len(),
{
    if s.len() > 0 {
        lemma_occurrences_bound(s.drop_last(), k);
    }
}

/// How often a key occurs among keys (see `occurrences`).
pub fn count_occurrences(keys: &Vec<String>, key: &str) -> (r: usize)
    ensures
        r == occurrences(views(keys@), key@),
{
    let mut n: usize = 0;
    let mut i: usize = 0;
    while i < keys.len()
        invariant
            i <= keys.len(),
            n == occurrences(views(keys@.take(i as int)), key@),
            n <= i,
        decreases keys.len() - i,
    {
        proof {
            crate::text::lemma_views_take_next(keys@, i as int);
        }
        if str_eq(keys[i].as_str(), key) {
            n = n + 1;
        }
        i = i + 1;
    }
    assert(keys@.take(keys.len() as int) =~= keys@);
    n
}

/// The distinct keys in ascending order with their counts
/// (see `key_counts`).
pub fn count_by_key(keys: &Vec<String>) -> (r: Vec<SeoDiagnosticCountRecord>)
    requires
        keys.len() <= i32::MAX,
    ensures
        counts_view(r@) == key_counts(views(keys@)),
        forall|k: int| 0 <= k < r.len() ==> #[trigger] r@[k].count >= 0,
{
    let mut uniq: Vec<String> = Vec::new();
    let mut i: usize = 0;
    while i < keys.len()
        invariant
            i <= keys.len(),
            views(uniq@) == crate::text::sorted_unique(views(keys@.take(i as int))),
            strictly_sorted(views(uniq@)),
        decreases keys.len() - i,
    {
        proof {
            crate::text::lemma_views_take_next(keys@, i as int);
        }
        insert_sorted_unique(&mut uniq, keys[i].clone());
        i = i + 1;
    }
    assert(keys@.take(keys.len() as int) =~= keys@);
    let ghost kv = views(keys@);
    let mut out: Vec<SeoDiagnosticCountRecord> = Vec::new();
    let mut j: usize = 0;
    while j < uniq.len()
        invariant
            j <= uniq.len(),
            kv == views(keys@),
            keys.len() <= i32::MAX,
            views(uniq@) == crate::text::sorted_unique(kv),
            counts_view(out@) == key_counts(kv).take(j as int),
            forall|k: int| 0 <= k < out.len() ==> #[trigger] out@[k].count >= 0,
        decreases uniq.len() - j,
    {
        let n = count_occurrences(keys, uniq[j].as_str());
        proof {
            lemma_occurrences_bound(kv, uniq@[j as int]@);
        }
        let rec = SeoDiagnosticCountRecord { key: uniq[j].clone(), count: n as i32 };
        let ghost prev = out@;
        out.push(rec);
        proof {
            assert(views(uniq@)[j as int] == uniq@[j as int]@);
            assert(n as i32 as nat == n);
            assert(counts_view(out@) =~= counts_view(prev).push((uniq@[j as int]@, n as nat)));
            assert(key_counts(kv).take(j as int + 1) =~= key_counts(kv).take(j as int).push(key_counts(kv)[j as int]));
        }
        j = j + 1;
    }
    assert(key_counts(kv).take(uniq.len() as int) =~= key_counts(kv));
    out
}

/// Count records ordered by count, larger first, then by key.
pub open spec fn count_before(a: (Seq<char>, nat), b: (Seq<char>, nat)) -> bool {
    a.1 > b.1 || (a.1 == b.1 && text_lt(a.0, b.0))
}

/// Stable insertion of a count record: after the last record it does not
/// come before.
pub open spec fn count_insert(s: Seq<(Seq<char>, nat)>, x: (Seq<char>, nat)) -> Seq<(Seq<char>, nat)>
    decreases s.len(),
{
    if s.len() == 0 {
        seq![x]
    } else if !count_before(x, s.last()) {
        s.push(x)
    } else {
        count_insert(s.drop_last(), x).push(s.last())
    }
}

/// Count records sorted by count, larger first, then by key.
pub open spec fn count_sort(s: Seq<(Seq<char>, nat)>) -> Seq<(Seq<char>, nat)>
    decreases s.len(),
{
    if s.len() == 0 {
        s
    } else {
        count_insert(count_sort(s.drop_last()), s.last())
    }
}

proof fn lemma_count_insert_at(s: Seq<(Seq<char>, nat)>, x: (Seq<char>, nat), j: int)
    requires
        0 <= j <= s.len(),
        forall|m: int| j <= m < s.len() ==> count_before(x, #[trigger] s[m]),
        j == 0 || !count_before(x, s[j - 1]),
    ensures
        count_insert(s, x) == s.take(j).push(x) + s.skip(j),
    decreases s.len(),
{
    if s.len() == 0 {
        assert(s.take(j).push(x) + s.skip(j) =~= seq![x]);
    } else if !count_before(x, s.last()) {
        assert(j == s.len());
        assert(s.take(j).push(x) + s.skip(j) =~= s.push(x));
    } else {
        let t = s.drop_last();
        lemma_count_insert_at(t, x, j);
        assert((t.take(j).push(x) + t.skip(j)).push(s.last()) =~= s.take(j).push(x) + s.skip(j));
    }
}

/// The distinct keys with their counts, larger counts first, equal counts
/// by key.
pub fn count_issue_keys(keys: &Vec<String>) -> (r: Vec<SeoDiagnosticCountRecord>)
    requires
        keys.len() <= i32::MAX,
    ensures
        counts_view(r@) == count_sort(key_counts(views(keys@))),
{
    let counts = count_by_key(keys);
    let ghost cv = counts_view(counts@);
    let mut out: Vec<SeoDiagnosticCountRecord> = Vec::new();
    let mut i: usize = 0;
    while i < counts.len()
        invariant
            i <= counts.len(),
            cv == counts_view(counts@),
            counts_view(out@) == count_sort(cv.take(i as int)),
            forall|k: int| 0 <= k < counts.len() ==> #[trigger] counts@[k].count >= 0,
            forall|k: int| 0 <= k < out.len() ==> #[trigger] out@[k].count >= 0,
        decreases counts.len() - i,
    {
        let ghost before = counts_view(out@);
        let c = &counts[i];
        let ghost x = (c.key@, c.count as nat);
        let mut j: usize = out.len();
        while j > 0 && (c.count > out[j - 1].count || (c.count == out[j - 1].count && str_lt(
            c.key.as_str(),
            out[j - 1].key.as_str(),
        )))
            invariant
                j <= out.len(),
                before == counts_view(out@),
                x == (c.key@, c.count as nat),
                c.count >= 0,
                forall|k: int| 0 <= k < out.len() ==> #[trigger] out@[k].count >= 0,
                forall|m: int| j <= m < before.len() ==> count_before(x, #[trigger] before[m]),
            decreases j,
        {
            proof {
                assert(before[j - 1] == (out@[j - 1].key@, out@[j - 1].count as nat));
                assert(out@[j - 1].count >= 0);
            }
            j = j - 1;
        }
        proof {
            if j > 0 {
                assert(before[j - 1] == (out@[j - 1].key@, out@[j - 1].count as nat));
                assert(out@[j - 1].count >= 0);
            }
            lemma_count_insert_at(before, x, j as int);
            assert(cv.take(i as int + 1).drop_last() =~= cv.take(i as int));
            assert(cv.take(i as int + 1).last() == x);
        }
        let rec = SeoDiagnosticCountRecord { key: c.key.clone(), count: c.count };
        let ghost prev_out = out@;
        out.insert(j, rec);
        proof {
            assert(counts_view(out@) =~= before.take(j as int).push(x) + before.skip(j as int));
            assert forall|k: int| 0 <= k < out.len() implies #[trigger] out@[k].count >= 0 by {
                if k < j {
                    assert(out@[k] == prev_out[k]);
                } else if k > j {
                    assert(out@[k] == prev_out[k - 1]);
                }
            }
        }
        i = i + 1;
    }
    assert(cv.take(counts.len() as int) =~= cv);
    out
}

// ---------------------------------------------------------------------------
// Image descriptors
// ---------------------------------------------------------------------------

/// The target kinds whose images matter for SEO: pages, products, blog
/// posts and forum topics.
pub open spec fn image_critical_kind(kind: Seq<char>) -> bool {
    kind == BUILTIN_SLUG_PAGE@ || kind == BUILTIN_SLUG_PRODUCT@ || kind == BUILTIN_SLUG_BLOG_POST@
        || kind == BUILTIN_SLUG_FORUM_TOPIC@
}

/// Whether a target kind is one whose images matter for SEO.
pub fn is_image_seo_critical_target(target_kind: &str) -> (r: bool)
    ensures
        r == image_critical_kind(target_kind@),
{
    str_eq(target_kind, BUILTIN_SLUG_PAGE) || str_eq(target_kind, BUILTIN_SLUG_PRODUCT) || str_eq(
        target_kind,
        BUILTIN_SLUG_BLOG_POST,
    ) || str_eq(target_kind, BUILTIN_SLUG_FORUM_TOPIC)
}

/// Registers the trimmed URL of an image among the URLs seen so far; true
/// when the URL is not blank and was not seen before.
pub fn register_unique_image(image: &SeoImageAsset, unique_urls: &mut Vec<String>) -> (r: bool)
    ensures
        r == (trim(image.url@).len() > 0 && !views(old(unique_urls)@).contains(trim(image.url@))),
        views(final(unique_urls)@) == if r {
            views(old(unique_urls)@).push(trim(image.url@))
        } else {
            views(old(unique_urls)@)
        },
{
    let url = trim_str(image.url.as_str());
    if is_blank(url.as_str()) {
        proof {
            crate::text::lemma_trim_idempotent(image.url@);
        }
        return false;
    }
    proof {
        crate::text::lemma_trim_idempotent(image.url@);
    }
    let ghost vv = views(unique_urls@);
    let mut i: usize = 0;
    while i < unique_urls.len()
        invariant
            i <= unique_urls.len(),
            vv == views(unique_urls@),
            unique_urls@ == old(unique_urls)@,
            url@ == trim(image.url@),
            forall|k: int| 0 <= k < i ==> #[trigger] vv[k] != url@,
        decreases unique_urls.len() - i,
    {
        assert(vv[i as int] == unique_urls@[i as int]@);
        if str_eq(unique_urls[i].as_str(), url.as_str()) {
            assert(vv.contains(url@));
            return false;
        }
        i = i + 1;
    }
    proof {
        lemma_views_push(unique_urls@, url);
    }
    unique_urls.push(url);
    true
}

/// The images a page describes: Open Graph images, then twitter images.
pub open spec fn page_images(ctx: SeoPageContext) -> Seq<SeoImageAsset> {
    (match ctx.document.open_graph {
        Some(og) => og.images@,
        None => Seq::empty(),
    }) + match ctx.document.twitter {
        Some(t) => t.images@,
        None => Seq::empty(),
    }
}

/// The distinct non-blank trimmed URLs among images, first occurrences in
/// order.
pub open spec fn distinct_image_urls(imgs: Seq<SeoImageAsset>) -> Seq<Seq<char>>
    decreases imgs.len(),
{
    if imgs.len() == 0 {
        Seq::empty()
    } else {
        let prev = distinct_image_urls(imgs.drop_last());
        let u = trim(imgs.last().url@);
        if u.len() > 0 && !prev.contains(u) {
            prev.push(u)
        } else {
            prev
        }
    }
}

/// Whether an image counts: it is the first image with its non-blank URL.
pub open spec fn first_with_url(imgs: Seq<SeoImageAsset>, i: int) -> bool {
    let u = trim(imgs[i].url@);
    u.len() > 0 && !distinct_image_urls(imgs.take(i)).contains(u)
}

/// The numbers of counted images without alt text and without both
/// dimensions.
pub open spec fn missing_descriptor_counts(imgs: Seq<SeoImageAsset>) -> (nat, nat)
    decreases imgs.len(),
{
    if imgs.len() == 0 {
        (0, 0)
    } else {
        let prev = missing_descriptor_counts(imgs.drop_last());
        let last = imgs.last();
        if first_with_url(imgs, imgs.len() - 1) {
            (
                prev.0 + if last.alt is None || trim(opt_view(last.alt)->Some_0).len() == 0 {
                    1nat
                } else {
                    0nat
                },
                prev.1 + if last.width is None || last.height is None {
                    1nat
                } else {
                    0nat
                },
            )
        } else {
            prev
        }
    }
}

/// Counts, over the page's images with distinct non-blank URLs, those
/// without alt text and those without width or height.
pub fn collect_missing_image_descriptor_counts(page_context: &SeoPageContext) -> (r: (usize, usize))
    ensures
        (r.0 as nat, r.1 as nat) == missing_descriptor_counts(page_images(*page_context)),
{
    let ghost imgs = page_images(*page_context);
    let mut unique_urls: Vec<String> = Vec::new();
    let mut missing_alt: usize = 0;
    let mut missing_size: usize = 0;
    let empty: Vec<SeoImageAsset> = Vec::new();
    let og_images = match &page_context.document.open_graph {
        Some(og) => &og.images,
        None => &empty,
    };
    let tw_images = match &page_context.document.twitter {
        Some(t) => &t.images,
        None => &empty,
    };
    assert(imgs =~= og_images@ + tw_images@);
    let mut i: usize = 0;
    while i < og_images.len()
        invariant
            i <= og_images.len(),
            imgs == og_images@ + tw_images@,
            views(unique_urls@) == distinct_image_urls(imgs.take(i as int)),
            (missing_alt as nat, missing_size as nat) == missing_descriptor_counts(imgs.take(i as int)),
            missing_alt <= unique_urls.len(),
            missing_size <= unique_urls.len(),
        decreases og_images.len() - i,
    {
        let image = &og_images[i];
        proof {
            assert(*image == imgs[i as int]);
            assert(imgs.take(i as int + 1).drop_last() =~= imgs.take(i as int));
            assert(imgs.take(i as int + 1).last() == imgs[i as int]);
            assert(imgs.take(i as int + 1).take(i as int) =~= imgs.take(i as int));
        }
        let ghost n0 = unique_urls.len();
        if register_unique_image(image, &mut unique_urls) {
            assert(views(unique_urls@).len() == unique_urls.len());
            assert(unique_urls.len() == n0 + 1);
            let no_alt = match &image.alt {
                Some(a) => is_blank(a.as_str()),
                None => true,
            };
            if no_alt {
                missing_alt = missing_alt + 1;
            }
            if image.width.is_none() || image.height.is_none() {
                missing_size = missing_size + 1;
            }
        }
        i = i + 1;
    }
    let ghost base = og_images.len() as int;
    let mut j: usize = 0;
    while j < tw_images.len()
        invariant
            j <= tw_images.len(),
            base == og_images.len(),
            imgs == og_images@ + tw_images@,
            views(unique_urls@) == distinct_image_urls(imgs.take(base + j)),
            (missing_alt as nat, missing_size as nat) == missing_descriptor_counts(imgs.take(base + j)),
            missing_alt <= unique_urls.len(),
            missing_size <= unique_urls.len(),
        decreases tw_images.len() - j,
    {
        let image = &tw_images[j];
        proof {
            let k = base + j;
            assert(*image == imgs[k]);
            assert(imgs.take(k + 1).drop_last() =~= imgs.take(k));
            assert(imgs.take(k + 1).last() == imgs[k]);
            assert(imgs.take(k + 1).take(k) =~= imgs.take(k));
        }
        let ghost n0 = unique_urls.len();
        if register_unique_image(image, &mut unique_urls) {
            assert(views(unique_urls@).len() == unique_urls.len());
            assert(unique_urls.len() == n0 + 1);
            let no_alt = match &image.alt {
                Some(a) => is_blank(a.as_str()),
                None => true,
            };
            if no_alt {
                missing_alt = missing_alt + 1;
            }
            if image.width.is_none() || image.height.is_none() {
                missing_size = missing_size + 1;
            }
        }
        j = j + 1;
    }
    assert(imgs.take(base + j) =~= imgs);
    (missing_alt, missing_size)
}

} // verus!
