//! The diagnostics report of a locale: the issues of each bulk-editable
//! target, duplicate canonical URLs across targets, and the aggregated
//! counts and readiness score.
use vstd::prelude::*;

use crate::diagnostics::{
    count_by_key, counts_view, graph_view, image_critical_kind, is_image_seo_critical_target,
    key_counts, missing_descriptor_counts, occurrences, outcome_at, page_images, redirect_target,
    stops_at, trace_redirects, collect_missing_image_descriptor_counts, RedirectTrace,
    TraceOutcome, CROSS_LINK_GAP_REMEDIATION_MESSAGE, MAX_EXPOSED_ISSUES,
    MISSING_IMAGE_ALT_REMEDIATION_MESSAGE, MISSING_IMAGE_SIZE_REMEDIATION_MESSAGE,
};
use crate::dto::{
    blocks_view, BlockData, SeoBulkSummaryRecord, SeoRedirectMatchType, SeoRedirectRecord, SeoDiagnosticIssueRecord,
    SeoDiagnosticSeverity, SeoDiagnosticsSummaryRecord, SeoFieldSource, SeoMetaRecord,
    SeoPageContext, SeoSchemaBlockKind, SeoStructuredDataBlock,
};
use crate::queries::{
    collect_issue_codes, collect_issue_kinds, copy_issue, count_severity, issue_codes,
    issue_kinds, severity_count,
};
use crate::schema::{
    collect_blocks, issues_view, lemma_schema_issue_codes, schema_blocks_from_value,
    schema_issue_code, schema_issues, top_context, validate_schema_block, IssueData,
};
use crate::text::{
    append, copy_opt, dec_nat, insert_sorted_unique, is_blank, join, join_strings, opt_view,
    owned, push_dec_u64, sorted_unique, str_eq, strictly_sorted, trim, views,
};
use crate::urls::{lookup_route, redirect_lookup_route};

verus! {

/// What the report reads of one bulk-editable target: its listing, its
/// SEO metadata in the locale (none when the target has no metadata
/// record), its resolved page context, how many cross-link suggestions it
/// got, whether its provider lists sitemap candidates, and whether it is
/// among them.
#[derive(Debug)]
pub struct SeoTargetDiagnosticsInput {
    pub summary: SeoBulkSummaryRecord,
    pub meta: Option<SeoMetaRecord>,
    pub page_context: Option<SeoPageContext>,
    pub cross_link_suggestions: usize,
    pub sitemap_capable: bool,
    pub in_sitemap: bool,
}

/// How many suggestions in `s` start at the target of kind `kind` and id
/// `id`.
pub open spec fn suggestions_for(
    s: Seq<(Seq<char>, u128, Seq<char>, Seq<char>, Seq<char>, int, Seq<char>)>,
    kind: Seq<char>,
    id: u128,
) -> nat
    decreases s.len(),
{
    if s.len() == 0 {
        0
    } else {
        suggestions_for(s.drop_last(), kind, id) + if s.last().0 == kind && s.last().1 == id {
            1nat
        } else {
            0nat
        }
    }
}

proof fn lemma_suggestion_count_view(
    recs: Seq<crate::dto::SeoCrossLinkSuggestionRecord>,
    kind: Seq<char>,
    id: u128,
)
    ensures
        crate::cross_links::suggestion_count(recs, kind, id) == suggestions_for(
            crate::cross_links::suggestions_view(recs),
            kind,
            id,
        ),
    decreases recs.len(),
{
    if recs.len() > 0 {
        lemma_suggestion_count_view(recs.drop_last(), kind, id);
        assert(crate::cross_links::suggestions_view(recs).drop_last() =~= crate::cross_links::suggestions_view(
            recs.drop_last(),
        ));
    }
}

/// The cross-link suggestions of a locale with the default limit per
/// target, counted for the target of kind `kind` and id `id`.
pub open spec fn locale_suggestion_count(
    locale_summaries: Seq<SeoBulkSummaryRecord>,
    kind: Seq<char>,
    id: u128,
) -> nat {
    suggestions_for(
        crate::cross_links::cross_link_suggestions(
            crate::cross_links::summaries_view(locale_summaries),
            crate::cross_links::DEFAULT_SUGGESTIONS_PER_TARGET as nat,
        ),
        kind,
        id,
    )
}

/// Fills in how many cross-link suggestions each target got: the
/// suggestions are those of all the locale's listings with the default
/// limit per target, and each target's count is the number of them that
/// start at it.  Everything else of the inputs stays.
pub fn fill_cross_link_counts(
    inputs: Vec<SeoTargetDiagnosticsInput>,
    locale_summaries: &Vec<SeoBulkSummaryRecord>,
) -> (r: Vec<SeoTargetDiagnosticsInput>)
    ensures
        r.len() == inputs.len(),
        forall|i: int|
            0 <= i < r.len() ==> #[trigger] r@[i] == (SeoTargetDiagnosticsInput {
                cross_link_suggestions: locale_suggestion_count(
                    locale_summaries@,
                    inputs@[i].summary.target_kind@,
                    inputs@[i].summary.target_id,
                ) as usize,
                ..inputs@[i]
            }),
        forall|i: int|
            0 <= i < r.len() ==> r@[i].cross_link_suggestions == locale_suggestion_count(
                locale_summaries@,
                inputs@[i].summary.target_kind@,
                inputs@[i].summary.target_id,
            ),
{
    let limit = crate::cross_links::normalize_per_target_limit(None);
    let suggestions = crate::cross_links::build_cross_link_suggestions(locale_summaries, limit);
    let ghost all = inputs@;
    let mut rest = inputs;
    let mut out: Vec<SeoTargetDiagnosticsInput> = Vec::new();
    let mut i: usize = 0;
    let n = rest.len();
    while i < n
        invariant
            n == all.len(),
            i <= n,
            rest@.len() == n - i,
            forall|j: int| 0 <= j < rest@.len() ==> #[trigger] rest@[j] == all[j + i],
            out@.len() == i,
            crate::cross_links::suggestions_view(suggestions@) == crate::cross_links::cross_link_suggestions(
                crate::cross_links::summaries_view(locale_summaries@),
                crate::cross_links::DEFAULT_SUGGESTIONS_PER_TARGET as nat,
            ),
            forall|j: int|
                0 <= j < i ==> #[trigger] out@[j] == (SeoTargetDiagnosticsInput {
                    cross_link_suggestions: locale_suggestion_count(
                        locale_summaries@,
                        all[j].summary.target_kind@,
                        all[j].summary.target_id,
                    ) as usize,
                    ..all[j]
                }),
            forall|j: int|
                0 <= j < i ==> out@[j].cross_link_suggestions == locale_suggestion_count(
                    locale_summaries@,
                    all[j].summary.target_kind@,
                    all[j].summary.target_id,
                ),
        decreases n - i,
    {
        let mut x = rest.remove(0);
        assert(x == all[i as int]);
        let count = crate::cross_links::count_suggestions_for_target(
            &suggestions,
            &x.summary.target_kind,
            x.summary.target_id,
        );
        proof {
            lemma_suggestion_count_view(suggestions@, x.summary.target_kind@, x.summary.target_id);
        }
        x.cross_link_suggestions = count;
        out.push(x);
        i = i + 1;
    }
    out
}

/// The mathematical form of a diagnostic issue.
pub struct DiagnosticIssue {
    pub code: Seq<char>,
    pub severity: SeoDiagnosticSeverity,
    pub target_kind: Seq<char>,
    pub target_id: u128,
    pub target_label: Seq<char>,
    pub route: Seq<char>,
    pub locale: Seq<char>,
    pub message: Seq<char>,
    pub canonical_url: Option<Seq<char>>,
    pub source: Seq<char>,
}

/// The mathematical form of an issue record.
pub open spec fn issue_view(i: SeoDiagnosticIssueRecord) -> DiagnosticIssue {
    DiagnosticIssue {
        code: i.code@,
        severity: i.severity,
        target_kind: i.target_kind@,
        target_id: i.target_id,
        target_label: i.target_label@,
        route: i.route@,
        locale: i.locale@,
        message: i.message@,
        canonical_url: opt_view(i.canonical_url),
        source: i.source@,
    }
}

/// The mathematical forms of issue records.
pub open spec fn issue_views(s: Seq<SeoDiagnosticIssueRecord>) -> Seq<DiagnosticIssue> {
    s.map_values(|i: SeoDiagnosticIssueRecord| issue_view(i))
}

/// An issue about a listed target.
pub open spec fn target_issue(
    code: Seq<char>,
    severity: SeoDiagnosticSeverity,
    s: SeoBulkSummaryRecord,
    message: Seq<char>,
    canonical: Option<Seq<char>>,
    source: Seq<char>,
    locale: Seq<char>,
) -> DiagnosticIssue {
    DiagnosticIssue {
        code,
        severity,
        target_kind: s.target_kind@,
        target_id: s.target_id,
        target_label: s.label@,
        route: s.route@,
        locale,
        message,
        canonical_url: canonical,
        source,
    }
}

// ---------------------------------------------------------------------------
// Redirect traces
// ---------------------------------------------------------------------------

/// The step at which the trace of a route stops (the first one).
pub open spec fn trace_stop(g: Seq<(Seq<char>, Seq<char>)>, r: Seq<char>) -> nat {
    choose|n: nat|
        1 <= n && stops_at(g, r, n) && (forall|m: nat| 1 <= m < n ==> !#[trigger] stops_at(g, r, m))
}

/// The classification of the redirects of a route: none without a
/// redirect, else the outcome at the first stopping step.
pub open spec fn trace_outcome(g: Seq<(Seq<char>, Seq<char>)>, r: Seq<char>) -> Option<TraceOutcome> {
    if redirect_target(g, r) is None {
        None
    } else {
        Some(outcome_at(g, r, trace_stop(g, r)))
    }
}

/// The diagnostic code of a trace.
pub open spec fn trace_code(o: TraceOutcome) -> Seq<char> {
    match o {
        TraceOutcome::Single(_) => "canonical_redirect_target"@,
        TraceOutcome::Chain(_, _) => "canonical_redirect_chain"@,
        TraceOutcome::Loop(_) => "canonical_redirect_loop"@,
    }
}

/// The severity of a trace: loops are errors, the rest warnings.
pub open spec fn trace_severity(o: TraceOutcome) -> SeoDiagnosticSeverity {
    if o is Loop {
        SeoDiagnosticSeverity::Error
    } else {
        SeoDiagnosticSeverity::Warning
    }
}

/// The diagnostic message of a trace.
pub open spec fn trace_message(o: TraceOutcome) -> Seq<char> {
    match o {
        TraceOutcome::Single(t) => "Effective canonical URL redirects to `"@ + t + "`."@,
        TraceOutcome::Chain(t, hops) => "Effective canonical URL redirects through "@ + dec_nat(hops)
            + " hops to `"@ + t + "`."@,
        TraceOutcome::Loop(at) => "Effective canonical URL participates in a redirect loop at `"@ + at
            + "`."@,
    }
}

fn trace_of(route: &str, graph: &Vec<(String, String)>) -> (r: Option<RedirectTrace>)
    ensures
        match r {
            Some(t) => trace_outcome(graph_view(graph@), route@) == Some(t@),
            None => trace_outcome(graph_view(graph@), route@) is None,
        },
{
    let r = trace_redirects(route, graph);
    proof {
        let g = graph_view(graph@);
        if r is Some {
            let t = r->Some_0;
            let n = choose|n: nat|
                1 <= n && stops_at(g, route@, n) && (forall|m: nat|
                    1 <= m < n ==> !#[trigger] stops_at(g, route@, m)) && t@ == outcome_at(
                    g,
                    route@,
                    n,
                );
            let k = trace_stop(g, route@);
            assert(1 <= k && stops_at(g, route@, k) && (forall|m: nat|
                1 <= m < k ==> !#[trigger] stops_at(g, route@, m)));
            if n < k {
                assert(!stops_at(g, route@, n));
            }
            if k < n {
                assert(!stops_at(g, route@, k));
            }
            assert(n == k);
        }
    }
    r
}

// ---------------------------------------------------------------------------
// The issues of one target
// ---------------------------------------------------------------------------

/// The canonical URL a target is checked under: the page context's, else
/// the metadata's.
pub open spec fn effective_canonical(t: SeoTargetDiagnosticsInput, m: SeoMetaRecord) -> Option<Seq<char>> {
    match t.page_context {
        Some(c) => Some(c.route.canonical_url@),
        None => opt_view(m.canonical_url),
    }
}

/// An issue about the target of an input.
pub open spec fn issue_of(
    t: SeoTargetDiagnosticsInput,
    m: SeoMetaRecord,
    code: Seq<char>,
    severity: SeoDiagnosticSeverity,
    message: Seq<char>,
    locale: Seq<char>,
) -> DiagnosticIssue {
    target_issue(code, severity, t.summary, message, effective_canonical(t, m), m.source@, locale)
}

/// The redirect issue of a target: its canonical URL's lookup route is
/// traced through the redirects.
pub open spec fn redirect_issues(
    t: SeoTargetDiagnosticsInput,
    m: SeoMetaRecord,
    locale: Seq<char>,
    g: Seq<(Seq<char>, Seq<char>)>,
) -> Seq<DiagnosticIssue> {
    match effective_canonical(t, m) {
        Some(c) => match lookup_route(c) {
            Some(route) => match trace_outcome(g, route) {
                Some(o) => seq![
                    issue_of(t, m, trace_code(o), trace_severity(o), trace_message(o), locale),
                ],
                None => Seq::empty(),
            },
            None => Seq::empty(),
        },
        None => Seq::empty(),
    }
}

/// The locales of the alternates of a page.
pub open spec fn alternate_locales(c: SeoPageContext) -> Seq<Seq<char>> {
    c.route.alternates@.map_values(|a: crate::dto::SeoAlternateLink| a.locale@)
}

/// The texts that are not blank, in order.
pub open spec fn nonblank(s: Seq<Seq<char>>) -> Seq<Seq<char>>
    decreases s.len(),
{
    if s.len() == 0 {
        s
    } else if trim(s.last()).len() > 0 {
        nonblank(s.drop_last()).push(s.last())
    } else {
        nonblank(s.drop_last())
    }
}

/// The texts of `s` missing from `present`, in order.
pub open spec fn missing_from(s: Seq<Seq<char>>, present: Seq<Seq<char>>) -> Seq<Seq<char>>
    decreases s.len(),
{
    if s.len() == 0 {
        s
    } else if present.contains(s.last()) {
        missing_from(s.drop_last(), present)
    } else {
        missing_from(s.drop_last(), present).push(s.last())
    }
}

/// The hreflang issues of a target with a page context: when its metadata
/// lists more than one distinct non-blank locale, the locales without an
/// alternate (ascending) and a missing `x-default` alternate.
pub open spec fn hreflang_issues(t: SeoTargetDiagnosticsInput, m: SeoMetaRecord, locale: Seq<char>) -> Seq<DiagnosticIssue> {
    match t.page_context {
        Some(c) => {
            let present = alternate_locales(c);
            let expected = sorted_unique(nonblank(views(m.available_locales@)));
            if expected.len() > 1 {
                let missing = missing_from(expected, present);
                (if missing.len() > 0 {
                    seq![
                        issue_of(
                            t,
                            m,
                            "missing_hreflang_pair"@,
                            SeoDiagnosticSeverity::Warning,
                            "Missing hreflang alternates for "@ + join(missing, ", "@) + "."@,
                            locale,
                        ),
                    ]
                } else {
                    Seq::empty()
                }) + (if !present.contains("x-default"@) {
                    seq![
                        issue_of(
                            t,
                            m,
                            "missing_hreflang_x_default"@,
                            SeoDiagnosticSeverity::Info,
                            "Localized target alternates do not expose x-default."@,
                            locale,
                        ),
                    ]
                } else {
                    Seq::empty()
                })
            } else {
                Seq::empty()
            }
        },
        None => Seq::empty(),
    }
}

/// Whether an optional text is absent or blank.
pub open spec fn blank_opt(o: Option<Seq<char>>) -> bool {
    match o {
        Some(s) => trim(s).len() == 0,
        None => true,
    }
}

/// One issue when a condition holds.
pub open spec fn when(cond: bool, i: DiagnosticIssue) -> Seq<DiagnosticIssue> {
    if cond {
        seq![i]
    } else {
        Seq::empty()
    }
}

/// The issues about the metadata fields of a target: a missing title, a
/// missing description, a title that only comes from entity fallback, and
/// no cross-link suggestions.
pub open spec fn field_issues(t: SeoTargetDiagnosticsInput, m: SeoMetaRecord, locale: Seq<char>) -> Seq<DiagnosticIssue> {
    when(
        blank_opt(opt_view(m.translation.title)),
        issue_of(t, m, "missing_title"@, SeoDiagnosticSeverity::Error, "Effective SEO title is missing."@, locale),
    ) + when(
        blank_opt(opt_view(m.translation.description)),
        issue_of(
            t,
            m,
            "missing_description"@,
            SeoDiagnosticSeverity::Warning,
            "Effective SEO description is missing."@,
            locale,
        ),
    ) + when(
        m.effective_state.title.source == SeoFieldSource::Fallback,
        issue_of(
            t,
            m,
            "fallback_only"@,
            SeoDiagnosticSeverity::Info,
            "Target still resolves through entity fallback instead of explicit or template SEO."@,
            locale,
        ),
    ) + when(
        t.cross_link_suggestions == 0,
        issue_of(
            t,
            m,
            "cross_link_gap"@,
            SeoDiagnosticSeverity::Info,
            CROSS_LINK_GAP_REMEDIATION_MESSAGE@,
            locale,
        ),
    )
}

/// The image descriptor issues of an SEO-critical target with a page
/// context: images without alt text, and images without both dimensions.
pub open spec fn image_issues(t: SeoTargetDiagnosticsInput, m: SeoMetaRecord, locale: Seq<char>) -> Seq<DiagnosticIssue> {
    match t.page_context {
        Some(c) => if image_critical_kind(t.summary.target_kind@) {
            let counts = missing_descriptor_counts(page_images(c));
            when(
                counts.0 > 0,
                issue_of(
                    t,
                    m,
                    "missing_image_alt"@,
                    SeoDiagnosticSeverity::Warning,
                    MISSING_IMAGE_ALT_REMEDIATION_MESSAGE@ + " Missing alt text for "@ + dec_nat(counts.0)
                        + " image descriptor(s)."@,
                    locale,
                ),
            ) + when(
                counts.1 > 0,
                issue_of(
                    t,
                    m,
                    "missing_image_size"@,
                    SeoDiagnosticSeverity::Warning,
                    MISSING_IMAGE_SIZE_REMEDIATION_MESSAGE@ + " Missing width/height for "@ + dec_nat(
                        counts.1,
                    ) + " image descriptor(s)."@,
                    locale,
                ),
            )
        } else {
            Seq::empty()
        },
        None => Seq::empty(),
    }
}

/// The typed schema blocks of a target's structured data.
pub open spec fn meta_blocks(m: SeoMetaRecord) -> Seq<BlockData> {
    match m.structured_data {
        Some(v) => collect_blocks(v@, top_context(v@), m.effective_state.structured_data.source),
        None => Seq::empty(),
    }
}

/// The issues of schema validation of the blocks, block by block.
pub open spec fn validation_issues(
    t: SeoTargetDiagnosticsInput,
    m: SeoMetaRecord,
    blocks: Seq<BlockData>,
    locale: Seq<char>,
) -> Seq<DiagnosticIssue>
    decreases blocks.len(),
{
    if blocks.len() == 0 {
        Seq::empty()
    } else {
        validation_issues(t, m, blocks.drop_last(), locale) + schema_issues(blocks.last()).map_values(
            |i: IssueData| issue_of(t, m, i.code, i.severity, i.message, locale),
        )
    }
}

/// Whether a block has no recognized schema.org type.
pub open spec fn any_unknown(blocks: Seq<BlockData>) -> bool {
    exists|k: int| 0 <= k < blocks.len() && (#[trigger] blocks[k]).schema_kind == SeoSchemaBlockKind::Unknown
}

/// The schema issues of a target: no typed blocks at all; else a block
/// without a recognized type, then the validation issues of each block.
pub open spec fn schema_block_issues(t: SeoTargetDiagnosticsInput, m: SeoMetaRecord, locale: Seq<char>) -> Seq<DiagnosticIssue> {
    let blocks = meta_blocks(m);
    if blocks.len() == 0 {
        seq![
            issue_of(
                t,
                m,
                "missing_schema"@,
                SeoDiagnosticSeverity::Warning,
                "Typed structured data blocks are missing for the effective SEO document."@,
                locale,
            ),
        ]
    } else {
        when(
            any_unknown(blocks),
            issue_of(
                t,
                m,
                "unknown_schema_type"@,
                SeoDiagnosticSeverity::Info,
                "Structured data is present but at least one block has no recognized schema.org type."@,
                locale,
            ),
        ) + validation_issues(t, m, blocks, locale)
    }
}

/// The indexing issues of a target: an explicit canonical URL together
/// with noindex, and a target missing from the sitemap candidates of a
/// provider that lists them.
pub open spec fn indexing_issues(t: SeoTargetDiagnosticsInput, m: SeoMetaRecord, locale: Seq<char>) -> Seq<DiagnosticIssue> {
    when(
        m.noindex && m.canonical_url is Some,
        issue_of(
            t,
            m,
            "noindex_canonical_conflict"@,
            SeoDiagnosticSeverity::Warning,
            "Target combines an explicit canonical URL with noindex."@,
            locale,
        ),
    ) + when(
        t.sitemap_capable && !t.in_sitemap,
        issue_of(
            t,
            m,
            "missing_sitemap_entry"@,
            SeoDiagnosticSeverity::Warning,
            "Target is missing from the sitemap candidate set."@,
            locale,
        ),
    )
}

/// The issues of one target, in the order they are checked; none for a
/// target without metadata.
pub open spec fn target_issues(t: SeoTargetDiagnosticsInput, locale: Seq<char>, g: Seq<(Seq<char>, Seq<char>)>) -> Seq<DiagnosticIssue> {
    match t.meta {
        Some(m) => redirect_issues(t, m, locale, g) + hreflang_issues(t, m, locale) + field_issues(
            t,
            m,
            locale,
        ) + image_issues(t, m, locale) + schema_block_issues(t, m, locale) + indexing_issues(
            t,
            m,
            locale,
        ),
        None => Seq::empty(),
    }
}

/// The issues of the targets, target by target.
pub open spec fn all_target_issues(ts: Seq<SeoTargetDiagnosticsInput>, locale: Seq<char>, g: Seq<(Seq<char>, Seq<char>)>) -> Seq<DiagnosticIssue>
    decreases ts.len(),
{
    if ts.len() == 0 {
        Seq::empty()
    } else {
        all_target_issues(ts.drop_last(), locale, g) + target_issues(ts.last(), locale, g)
    }
}

// ---------------------------------------------------------------------------
// Duplicate canonical URLs
// ---------------------------------------------------------------------------

/// The canonical URL a target is counted under: only targets with
/// metadata and a canonical URL count.
pub open spec fn counted_canonical(t: SeoTargetDiagnosticsInput) -> Option<Seq<char>> {
    match t.meta {
        Some(m) => effective_canonical(t, m),
        None => None,
    }
}

/// The canonical URLs of the targets that have one, in order.
pub open spec fn canonicals(ts: Seq<SeoTargetDiagnosticsInput>) -> Seq<Seq<char>>
    decreases ts.len(),
{
    if ts.len() == 0 {
        Seq::empty()
    } else {
        match counted_canonical(ts.last()) {
            Some(c) => canonicals(ts.drop_last()).push(c),
            None => canonicals(ts.drop_last()),
        }
    }
}

/// The duplicate-canonical issues of the targets that use `c`, in order.
pub open spec fn duplicates_of(ts: Seq<SeoTargetDiagnosticsInput>, c: Seq<char>, locale: Seq<char>) -> Seq<DiagnosticIssue>
    decreases ts.len(),
{
    if ts.len() == 0 {
        Seq::empty()
    } else {
        let prev = duplicates_of(ts.drop_last(), c, locale);
        let t = ts.last();
        if counted_canonical(t) == Some(c) {
            prev.push(
                target_issue(
                    "duplicate_canonical"@,
                    SeoDiagnosticSeverity::Error,
                    t.summary,
                    "Canonical URL `"@ + c + "` is used by multiple targets."@,
                    Some(c),
                    t.meta->Some_0.source@,
                    locale,
                ),
            )
        } else {
            prev
        }
    }
}

/// The duplicate-canonical issues over the distinct canonical URLs `cs`:
/// every target of a URL used by at least two targets.
pub open spec fn duplicate_issues_over(
    ts: Seq<SeoTargetDiagnosticsInput>,
    cs: Seq<Seq<char>>,
    locale: Seq<char>,
) -> Seq<DiagnosticIssue>
    decreases cs.len(),
{
    if cs.len() == 0 {
        Seq::empty()
    } else {
        duplicate_issues_over(ts, cs.drop_last(), locale) + if occurrences(
            canonicals(ts),
            cs.last(),
        ) >= 2 {
            duplicates_of(ts, cs.last(), locale)
        } else {
            Seq::empty()
        }
    }
}

/// The duplicate-canonical issues, canonical URL by canonical URL in
/// ascending order, targets of a URL in their order.
pub open spec fn duplicate_issues(ts: Seq<SeoTargetDiagnosticsInput>, locale: Seq<char>) -> Seq<DiagnosticIssue> {
    duplicate_issues_over(ts, sorted_unique(canonicals(ts)), locale)
}

/// Every issue of the report: the target issues, then the duplicate
/// canonical issues.
pub open spec fn report_issues(ts: Seq<SeoTargetDiagnosticsInput>, locale: Seq<char>, g: Seq<(Seq<char>, Seq<char>)>) -> Seq<DiagnosticIssue> {
    all_target_issues(ts, locale, g) + duplicate_issues(ts, locale)
}

// ---------------------------------------------------------------------------
// Cross-link gaps
// ---------------------------------------------------------------------------

/// Whether an issue list holds a cross-link gap issue.
pub open spec fn has_cross_link_gap(s: Seq<DiagnosticIssue>) -> bool {
    exists|k: int| 0 <= k < s.len() && (#[trigger] s[k]).code == "cross_link_gap"@
}

proof fn lemma_gap_concat(a: Seq<DiagnosticIssue>, b: Seq<DiagnosticIssue>)
    ensures
        has_cross_link_gap(a + b) <==> has_cross_link_gap(a) || has_cross_link_gap(b),
{
    if has_cross_link_gap(a + b) {
        let k = choose|k: int| 0 <= k < (a + b).len() && (#[trigger] (a + b)[k]).code == "cross_link_gap"@;
        if k < a.len() {
            assert(a[k] == (a + b)[k]);
        } else {
            assert(b[k - a.len()] == (a + b)[k]);
        }
    }
    if has_cross_link_gap(a) {
        let k = choose|k: int| 0 <= k < a.len() && (#[trigger] a[k]).code == "cross_link_gap"@;
        assert((a + b)[k] == a[k]);
    }
    if has_cross_link_gap(b) {
        let k = choose|k: int| 0 <= k < b.len() && (#[trigger] b[k]).code == "cross_link_gap"@;
        assert((a + b)[k + a.len()] == b[k]);
    }
}

proof fn lemma_gap_code_distinct()
    ensures
        "cross_link_gap"@ != "canonical_redirect_target"@,
        "cross_link_gap"@ != "canonical_redirect_chain"@,
        "cross_link_gap"@ != "canonical_redirect_loop"@,
        "cross_link_gap"@ != "missing_hreflang_pair"@,
        "cross_link_gap"@ != "missing_hreflang_x_default"@,
        "cross_link_gap"@ != "missing_title"@,
        "cross_link_gap"@ != "missing_description"@,
        "cross_link_gap"@ != "fallback_only"@,
        "cross_link_gap"@ != "missing_image_alt"@,
        "cross_link_gap"@ != "missing_image_size"@,
        "cross_link_gap"@ != "missing_schema"@,
        "cross_link_gap"@ != "unknown_schema_type"@,
        "cross_link_gap"@ != "noindex_canonical_conflict"@,
        "cross_link_gap"@ != "missing_sitemap_entry"@,
        !schema_issue_code("cross_link_gap"@),
{
    reveal_strlit("cross_link_gap");
    reveal_strlit("canonical_redirect_target");
    reveal_strlit("canonical_redirect_chain");
    reveal_strlit("canonical_redirect_loop");
    reveal_strlit("missing_hreflang_pair");
    reveal_strlit("missing_hreflang_x_default");
    reveal_strlit("missing_title");
    reveal_strlit("missing_description");
    reveal_strlit("fallback_only");
    reveal_strlit("missing_image_alt");
    reveal_strlit("missing_image_size");
    reveal_strlit("missing_schema");
    reveal_strlit("unknown_schema_type");
    reveal_strlit("noindex_canonical_conflict");
    reveal_strlit("missing_sitemap_entry");
    reveal_strlit("missing_required_schema_field");
    reveal_strlit("invalid_schema_shape");
    reveal_strlit("unsupported_schema_source_payload");
    assert("cross_link_gap"@[1] != "canonical_redirect_target"@[1]);
    assert("cross_link_gap"@[1] != "canonical_redirect_chain"@[1]);
    assert("cross_link_gap"@[1] != "canonical_redirect_loop"@[1]);
}

proof fn lemma_validation_issues_no_gap(
    t: SeoTargetDiagnosticsInput,
    m: SeoMetaRecord,
    blocks: Seq<BlockData>,
    locale: Seq<char>,
)
    ensures
        !has_cross_link_gap(validation_issues(t, m, blocks, locale)),
    decreases blocks.len(),
{
    if blocks.len() > 0 {
        lemma_validation_issues_no_gap(t, m, blocks.drop_last(), locale);
        let b = blocks.last();
        let s = schema_issues(b).map_values(
            |i: IssueData| issue_of(t, m, i.code, i.severity, i.message, locale),
        );
        lemma_schema_issue_codes(b);
        lemma_gap_code_distinct();
        assert forall|k: int| 0 <= k < s.len() implies (#[trigger] s[k]).code != "cross_link_gap"@ by {
            assert(s[k].code == schema_issues(b)[k].code);
            assert(schema_issue_code(schema_issues(b)[k].code));
        }
        lemma_gap_concat(validation_issues(t, m, blocks.drop_last(), locale), s);
    }
}

/// The cross-link gap issue of a target follows its locale: for a target
/// with metadata whose suggestion count is the one its locale's
/// suggestions give (with the default limit per target), the target's
/// issues hold a cross-link gap exactly when none of those suggestions
/// starts at the target.
pub proof fn lemma_cross_link_gap_follows_locale_suggestions(
    t: SeoTargetDiagnosticsInput,
    locale: Seq<char>,
    g: Seq<(Seq<char>, Seq<char>)>,
    locale_summaries: Seq<SeoBulkSummaryRecord>,
)
    requires
        t.meta is Some,
        t.cross_link_suggestions == locale_suggestion_count(
            locale_summaries,
            t.summary.target_kind@,
            t.summary.target_id,
        ),
    ensures
        has_cross_link_gap(target_issues(t, locale, g)) <==> locale_suggestion_count(
            locale_summaries,
            t.summary.target_kind@,
            t.summary.target_id,
        ) == 0,
{
    let m = t.meta.unwrap();
    lemma_gap_code_distinct();
    let r = redirect_issues(t, m, locale, g);
    let h = hreflang_issues(t, m, locale);
    let f = field_issues(t, m, locale);
    let i = image_issues(t, m, locale);
    let sc = schema_block_issues(t, m, locale);
    let x = indexing_issues(t, m, locale);
    assert(!has_cross_link_gap(r));
    assert(!has_cross_link_gap(h));
    assert(!has_cross_link_gap(i));
    assert(!has_cross_link_gap(x));
    let blocks = meta_blocks(m);
    if blocks.len() > 0 {
        lemma_validation_issues_no_gap(t, m, blocks, locale);
        let u = when(
            any_unknown(blocks),
            issue_of(
                t,
                m,
                "unknown_schema_type"@,
                SeoDiagnosticSeverity::Info,
                "Structured data is present but at least one block has no recognized schema.org type."@,
                locale,
            ),
        );
        assert(!has_cross_link_gap(u));
        lemma_gap_concat(u, validation_issues(t, m, blocks, locale));
    }
    assert(!has_cross_link_gap(sc));
    let gap = issue_of(t, m, "cross_link_gap"@, SeoDiagnosticSeverity::Info, CROSS_LINK_GAP_REMEDIATION_MESSAGE@, locale);
    let f3 = f.take(f.len() - when(t.cross_link_suggestions == 0, gap).len());
    assert(f == f3 + when(t.cross_link_suggestions == 0, gap));
    assert(!has_cross_link_gap(f3));
    lemma_gap_concat(f3, when(t.cross_link_suggestions == 0, gap));
    if t.cross_link_suggestions == 0 {
        assert(when(t.cross_link_suggestions == 0, gap)[0].code == "cross_link_gap"@);
    }
    lemma_gap_concat(r, h);
    lemma_gap_concat(r + h, f);
    lemma_gap_concat(r + h + f, i);
    lemma_gap_concat(r + h + f + i, sc);
    lemma_gap_concat(r + h + f + i + sc, x);
}

// ---------------------------------------------------------------------------
// Aggregates
// ---------------------------------------------------------------------------

/// The number of targets with metadata whose title comes from a source.
pub open spec fn title_source_count(ts: Seq<SeoTargetDiagnosticsInput>, src: SeoFieldSource) -> nat
    decreases ts.len(),
{
    if ts.len() == 0 {
        0
    } else {
        title_source_count(ts.drop_last(), src) + match ts.last().meta {
            Some(m) => if m.effective_state.title.source == src {
                1nat
            } else {
                0nat
            },
            None => 0nat,
        }
    }
}

/// The number of issues of a severity.
pub open spec fn severity_total(s: Seq<DiagnosticIssue>, sev: SeoDiagnosticSeverity) -> nat
    decreases s.len(),
{
    if s.len() == 0 {
        0
    } else {
        severity_total(s.drop_last(), sev) + if s.last().severity == sev {
            1nat
        } else {
            0nat
        }
    }
}

/// The readiness score: 100 without targets; else 100 minus the weighted
/// issues (errors 3, warnings 2, others 1) as a percentage of six per
/// target, at most 100.
pub open spec fn readiness(total: int, errors: int, warnings: int, issues: int) -> int {
    if total == 0 {
        100
    } else {
        let info = issues - errors - warnings;
        let weighted = errors * 3 + warnings * 2 + info;
        let max_weight = if total * 6 > 1 {
            total * 6
        } else {
            1
        };
        let ratio = weighted * 100 / max_weight;
        100 - if ratio < 100 {
            ratio
        } else {
            100
        }
    }
}

/// The readiness score is a percentage: between 0 and 100, and 100 when no
/// issue was found.
pub proof fn lemma_readiness_bounds(total: int, errors: int, warnings: int, issues: int)
    requires
        0 <= total,
        0 <= errors,
        0 <= warnings,
        errors + warnings <= issues,
    ensures
        0 <= readiness(total, errors, warnings, issues) <= 100,
        issues == 0 ==> readiness(total, errors, warnings, issues) == 100,
{
    if total != 0 {
        let info = issues - errors - warnings;
        let weighted = errors * 3 + warnings * 2 + info;
        let max_weight = if total * 6 > 1 {
            total * 6
        } else {
            1
        };
        assert(weighted >= 0);
        assert(max_weight >= 1);
        assert(weighted * 100 / max_weight >= 0) by (nonlinear_arith)
            requires
                weighted >= 0,
                max_weight >= 1,
        ;
        if issues == 0 {
            assert(weighted == 0);
            assert(weighted * 100 / max_weight == 0) by (nonlinear_arith)
                requires
                    weighted == 0,
                    max_weight >= 1,
            ;
        }
    }
}

/// The readiness score over at least one target weighs each error 3, each
/// warning 2 and each other issue 1, out of 6 per target: it is 100 less
/// the weighted percentage (rounded down), and never below 0.
pub proof fn lemma_readiness_weights(total: int, errors: int, warnings: int, issues: int)
    requires
        0 < total,
        0 <= errors,
        0 <= warnings,
        errors + warnings <= issues,
    ensures
        ({
            let pct = (3 * errors + 2 * warnings + (issues - errors - warnings)) * 100 / (6 * total);
            readiness(total, errors, warnings, issues) == if pct < 100 {
                100 - pct
            } else {
                0
            }
        }),
{
}

proof fn lemma_div_monotone(a: int, b: int, d: int)
    requires
        0 <= a <= b,
        0 < d,
    ensures
        a / d <= b / d,
{
    vstd::arithmetic::div_mod::lemma_div_is_ordered(a, b, d);
}

/// A graver issue never raises the readiness score: turning another issue
/// into a warning, a warning into an error, or finding one more issue
/// lowers the score or keeps it.
pub proof fn lemma_readiness_graver_issue_never_raises(total: int, errors: int, warnings: int, issues: int)
    requires
        0 < total,
        0 <= errors,
        0 <= warnings,
        errors + warnings < issues,
    ensures
        readiness(total, errors, warnings + 1, issues) <= readiness(total, errors, warnings, issues),
        readiness(total, errors + 1, warnings, issues) <= readiness(total, errors, warnings + 1, issues),
        readiness(total, errors, warnings, issues + 1) <= readiness(total, errors, warnings, issues),
{
    let w0 = 3 * errors + 2 * warnings + (issues - errors - warnings);
    let d = 6 * total;
    lemma_readiness_weights(total, errors, warnings, issues);
    lemma_readiness_weights(total, errors, warnings + 1, issues);
    lemma_readiness_weights(total, errors + 1, warnings, issues);
    lemma_readiness_weights(total, errors, warnings, issues + 1);
    lemma_div_monotone(w0 * 100, (w0 + 1) * 100, d);
    lemma_div_monotone((w0 + 1) * 100, (w0 + 2) * 100, d);
}

/// Errors and warnings are among the issues: together they are never more
/// than all issues.
pub proof fn lemma_severity_totals_within(s: Seq<DiagnosticIssue>)
    ensures
        severity_total(s, SeoDiagnosticSeverity::Error) + severity_total(s, SeoDiagnosticSeverity::Warning)
            <= s.len(),
    decreases s.len(),
{
    if s.len() > 0 {
        lemma_severity_totals_within(s.drop_last());
    }
}

/// A count as an `i32`, saturated at `i32::MAX`.
pub open spec fn clamp_count(n: nat) -> int {
    if n > i32::MAX {
        i32::MAX as int
    } else {
        n as int
    }
}

// ---------------------------------------------------------------------------
// Building the issues
// ---------------------------------------------------------------------------

fn new_issue(
    code: &str,
    severity: SeoDiagnosticSeverity,
    s: &SeoBulkSummaryRecord,
    message: String,
    canonical: &Option<String>,
    source: &str,
    locale: &str,
) -> (r: SeoDiagnosticIssueRecord)
    ensures
        issue_view(r) == target_issue(
            code@,
            severity,
            *s,
            message@,
            opt_view(*canonical),
            source@,
            locale@,
        ),
{
    SeoDiagnosticIssueRecord {
        code: owned(code),
        severity,
        target_kind: s.target_kind.copy(),
        target_id: s.target_id,
        target_label: s.label.clone(),
        route: s.route.clone(),
        locale: owned(locale),
        message,
        canonical_url: copy_opt(canonical),
        source: owned(source),
    }
}

fn push_issue(out: &mut Vec<SeoDiagnosticIssueRecord>, i: SeoDiagnosticIssueRecord)
    ensures
        issue_views(final(out)@) == issue_views(old(out)@).push(issue_view(i)),
{
    out.push(i);
    assert(issue_views(out@) =~= issue_views(old(out)@).push(issue_view(i)));
}

fn push_redirect_issue(
    out: &mut Vec<SeoDiagnosticIssueRecord>,
    t: &SeoTargetDiagnosticsInput,
    m: &SeoMetaRecord,
    canonical: &Option<String>,
    locale: &str,
    graph: &Vec<(String, String)>,
)
    requires
        t.meta == Some(*m),
        opt_view(*canonical) == effective_canonical(*t, *m),
    ensures
        issue_views(final(out)@) == issue_views(old(out)@) + redirect_issues(
            *t,
            *m,
            locale@,
            graph_view(graph@),
        ),
{
    assert(issue_views(old(out)@) + Seq::<DiagnosticIssue>::empty() =~= issue_views(old(out)@));
    if let Some(c) = canonical {
        if let Some(route) = redirect_lookup_route(c.as_str()) {
            if let Some(trace) = trace_of(route.as_str(), graph) {
                let i = new_issue(
                    trace.code(),
                    trace.severity(),
                    &t.summary,
                    trace.message(),
                    canonical,
                    m.source.as_str(),
                    locale,
                );
                push_issue(out, i);
            }
        }
    }
}

fn alternate_locale_list(c: &SeoPageContext) -> (r: Vec<String>)
    ensures
        views(r@) == alternate_locales(*c),
{
    let mut r: Vec<String> = Vec::new();
    let mut i: usize = 0;
    while i < c.route.alternates.len()
        invariant
            i <= c.route.alternates.len(),
            views(r@) == alternate_locales(*c).take(i as int),
        decreases c.route.alternates.len() - i,
    {
        let x = c.route.alternates[i].locale.clone();
        proof {
            crate::text::lemma_views_push(r@, x);
        }
        r.push(x);
        i = i + 1;
        assert(views(r@) =~= alternate_locales(*c).take(i as int));
    }
    assert(alternate_locales(*c).take(c.route.alternates.len() as int) =~= alternate_locales(*c));
    r
}

fn expected_locale_list(locales: &Vec<String>) -> (r: Vec<String>)
    ensures
        views(r@) == sorted_unique(nonblank(views(locales@))),
        strictly_sorted(views(r@)),
{
    let mut r: Vec<String> = Vec::new();
    let mut i: usize = 0;
    while i < locales.len()
        invariant
            i <= locales.len(),
            views(r@) == sorted_unique(nonblank(views(locales@.take(i as int)))),
            strictly_sorted(views(r@)),
        decreases locales.len() - i,
    {
        proof {
            crate::text::lemma_views_take_next(locales@, i as int);
            let prev = views(locales@.take(i as int));
            let cur = views(locales@.take(i as int + 1));
            if trim(locales@[i as int]@).len() > 0 {
                assert(nonblank(cur) == nonblank(prev).push(locales@[i as int]@));
                assert(nonblank(prev).push(locales@[i as int]@).drop_last() =~= nonblank(prev));
            } else {
                assert(nonblank(cur) == nonblank(prev));
            }
        }
        if !is_blank(locales[i].as_str()) {
            insert_sorted_unique(&mut r, locales[i].clone());
        }
        i = i + 1;
    }
    assert(locales@.take(locales.len() as int) =~= locales@);
    r
}

fn missing_locale_list(expected: &Vec<String>, present: &Vec<String>) -> (r: Vec<String>)
    ensures
        views(r@) == missing_from(views(expected@), views(present@)),
{
    let mut r: Vec<String> = Vec::new();
    let mut i: usize = 0;
    while i < expected.len()
        invariant
            i <= expected.len(),
            views(r@) == missing_from(views(expected@.take(i as int)), views(present@)),
        decreases expected.len() - i,
    {
        proof {
            crate::text::lemma_views_take_next(expected@, i as int);
        }
        if !crate::text::strings_contain(present, expected[i].as_str()) {
            let x = expected[i].clone();
            proof {
                crate::text::lemma_views_push(r@, x);
            }
            r.push(x);
        }
        i = i + 1;
    }
    assert(expected@.take(expected.len() as int) =~= expected@);
    r
}

fn push_hreflang_issues(
    out: &mut Vec<SeoDiagnosticIssueRecord>,
    t: &SeoTargetDiagnosticsInput,
    m: &SeoMetaRecord,
    canonical: &Option<String>,
    locale: &str,
)
    requires
        t.meta == Some(*m),
        opt_view(*canonical) == effective_canonical(*t, *m),
    ensures
        issue_views(final(out)@) == issue_views(old(out)@) + hreflang_issues(*t, *m, locale@),
{
    let ghost before = issue_views(out@);
    assert(before + Seq::<DiagnosticIssue>::empty() =~= before);
    if let Some(c) = &t.page_context {
        let present = alternate_locale_list(c);
        let expected = expected_locale_list(&m.available_locales);
        if expected.len() > 1 {
            let missing = missing_locale_list(&expected, &present);
            let ghost mid = issue_views(out@);
            if missing.len() > 0 {
                let mut msg = owned("Missing hreflang alternates for ");
                let joined = join_strings(&missing, ", ");
                append(&mut msg, joined.as_str());
                append(&mut msg, ".");
                let i = new_issue(
                    "missing_hreflang_pair",
                    SeoDiagnosticSeverity::Warning,
                    &t.summary,
                    msg,
                    canonical,
                    m.source.as_str(),
                    locale,
                );
                push_issue(out, i);
            }
            let ghost mid2 = issue_views(out@);
            proof {
                reveal_strlit("x-default");
            }
            if !crate::text::strings_contain(&present, "x-default") {
                let i = new_issue(
                    "missing_hreflang_x_default",
                    SeoDiagnosticSeverity::Info,
                    &t.summary,
                    owned("Localized target alternates do not expose x-default."),
                    canonical,
                    m.source.as_str(),
                    locale,
                );
                push_issue(out, i);
            }
            proof {
                let missing_v = missing_from(sorted_unique(nonblank(views(m.available_locales@))), alternate_locales(*c));
                let a = if missing_v.len() > 0 {
                    seq![issue_of(*t, *m, "missing_hreflang_pair"@, SeoDiagnosticSeverity::Warning, "Missing hreflang alternates for "@ + join(missing_v, ", "@) + "."@, locale@)]
                } else {
                    Seq::<DiagnosticIssue>::empty()
                };
                let b = if !alternate_locales(*c).contains("x-default"@) {
                    seq![issue_of(*t, *m, "missing_hreflang_x_default"@, SeoDiagnosticSeverity::Info, "Localized target alternates do not expose x-default."@, locale@)]
                } else {
                    Seq::<DiagnosticIssue>::empty()
                };
                assert(mid2 =~= before + a);
                assert(issue_views(out@) =~= before + a + b);
                assert(issue_views(out@) =~= before + (a + b));
            }
        }
    }
}

fn push_when(
    out: &mut Vec<SeoDiagnosticIssueRecord>,
    cond: bool,
    code: &str,
    severity: SeoDiagnosticSeverity,
    s: &SeoBulkSummaryRecord,
    message: &str,
    canonical: &Option<String>,
    source: &str,
    locale: &str,
)
    ensures
        issue_views(final(out)@) == issue_views(old(out)@) + when(
            cond,
            target_issue(code@, severity, *s, message@, opt_view(*canonical), source@, locale@),
        ),
{
    if cond {
        let i = new_issue(code, severity, s, owned(message), canonical, source, locale);
        push_issue(out, i);
        assert(issue_views(final(out)@) =~= issue_views(old(out)@) + when(
            cond,
            target_issue(code@, severity, *s, message@, opt_view(*canonical), source@, locale@),
        ));
    } else {
        assert(issue_views(out@) + Seq::<DiagnosticIssue>::empty() =~= issue_views(out@));
    }
}

fn push_field_issues(
    out: &mut Vec<SeoDiagnosticIssueRecord>,
    t: &SeoTargetDiagnosticsInput,
    m: &SeoMetaRecord,
    canonical: &Option<String>,
    locale: &str,
)
    requires
        t.meta == Some(*m),
        opt_view(*canonical) == effective_canonical(*t, *m),
    ensures
        issue_views(final(out)@) == issue_views(old(out)@) + field_issues(*t, *m, locale@),
{
    let ghost before = issue_views(out@);
    let no_title = match &m.translation.title {
        Some(v) => is_blank(v.as_str()),
        None => true,
    };
    let src = m.source.as_str();
    proof {
        reveal_strlit("Effective SEO title is missing.");
        reveal_strlit("Effective SEO description is missing.");
        reveal_strlit("Target still resolves through entity fallback instead of explicit or template SEO.");
    }
    push_when(out, no_title, "missing_title", SeoDiagnosticSeverity::Error, &t.summary, "Effective SEO title is missing.", canonical, src, locale);
    let ghost a = issue_views(out@);
    let no_description = match &m.translation.description {
        Some(v) => is_blank(v.as_str()),
        None => true,
    };
    push_when(out, no_description, "missing_description", SeoDiagnosticSeverity::Warning, &t.summary, "Effective SEO description is missing.", canonical, src, locale);
    let ghost b = issue_views(out@);
    let fallback = match m.effective_state.title.source {
        SeoFieldSource::Fallback => true,
        _ => false,
    };
    push_when(out, fallback, "fallback_only", SeoDiagnosticSeverity::Info, &t.summary, "Target still resolves through entity fallback instead of explicit or template SEO.", canonical, src, locale);
    push_when(out, t.cross_link_suggestions == 0, "cross_link_gap", SeoDiagnosticSeverity::Info, &t.summary, CROSS_LINK_GAP_REMEDIATION_MESSAGE, canonical, src, locale);
    assert(issue_views(out@) =~= before + field_issues(*t, *m, locale@));
}

fn count_message(head: &str, mid: &str, n: usize) -> (r: String)
    ensures
        r@ == head@ + mid@ + dec_nat(n as nat) + " image descriptor(s)."@,
{
    let mut s = owned(head);
    append(&mut s, mid);
    push_dec_u64(&mut s, n as u64);
    append(&mut s, " image descriptor(s).");
    s
}

fn push_image_issues(
    out: &mut Vec<SeoDiagnosticIssueRecord>,
    t: &SeoTargetDiagnosticsInput,
    m: &SeoMetaRecord,
    canonical: &Option<String>,
    locale: &str,
)
    requires
        t.meta == Some(*m),
        opt_view(*canonical) == effective_canonical(*t, *m),
    ensures
        issue_views(final(out)@) == issue_views(old(out)@) + image_issues(*t, *m, locale@),
{
    let ghost before = issue_views(out@);
    assert(before + Seq::<DiagnosticIssue>::empty() =~= before);
    if !is_image_seo_critical_target(t.summary.target_kind.as_str()) {
        return;
    }
    if let Some(c) = &t.page_context {
        let counts = collect_missing_image_descriptor_counts(c);
        let src = m.source.as_str();
        if counts.0 > 0 {
            let msg = count_message(MISSING_IMAGE_ALT_REMEDIATION_MESSAGE, " Missing alt text for ", counts.0);
            let i = new_issue("missing_image_alt", SeoDiagnosticSeverity::Warning, &t.summary, msg, canonical, src, locale);
            push_issue(out, i);
        }
        let ghost mid = issue_views(out@);
        if counts.1 > 0 {
            let msg = count_message(MISSING_IMAGE_SIZE_REMEDIATION_MESSAGE, " Missing width/height for ", counts.1);
            let i = new_issue("missing_image_size", SeoDiagnosticSeverity::Warning, &t.summary, msg, canonical, src, locale);
            push_issue(out, i);
        }
        proof {
            reveal_strlit(" Missing alt text for ");
            reveal_strlit(" Missing width/height for ");
        }
        assert(issue_views(out@) =~= before + image_issues(*t, *m, locale@));
    }
}

fn push_schema_issues(
    out: &mut Vec<SeoDiagnosticIssueRecord>,
    t: &SeoTargetDiagnosticsInput,
    m: &SeoMetaRecord,
    canonical: &Option<String>,
    locale: &str,
)
    requires
        t.meta == Some(*m),
        opt_view(*canonical) == effective_canonical(*t, *m),
    ensures
        issue_views(final(out)@) == issue_views(old(out)@) + schema_block_issues(*t, *m, locale@),
{
    let ghost before = issue_views(out@);
    let blocks: Vec<SeoStructuredDataBlock> = match &m.structured_data {
        Some(v) => schema_blocks_from_value(v, m.effective_state.structured_data.source),
        None => Vec::new(),
    };
    let ghost bv = blocks_view(blocks@);
    assert(bv == meta_blocks(*m));
    let src = m.source.as_str();
    if blocks.len() == 0 {
        let i = new_issue(
            "missing_schema",
            SeoDiagnosticSeverity::Warning,
            &t.summary,
            owned("Typed structured data blocks are missing for the effective SEO document."),
            canonical,
            src,
            locale,
        );
        push_issue(out, i);
        assert(issue_views(out@) =~= before + schema_block_issues(*t, *m, locale@));
        return;
    }
    let mut unknown = false;
    let mut k: usize = 0;
    while k < blocks.len()
        invariant
            k <= blocks.len(),
            bv == blocks_view(blocks@),
            unknown == exists|j: int| 0 <= j < k && (#[trigger] bv[j]).schema_kind == SeoSchemaBlockKind::Unknown,
        decreases blocks.len() - k,
    {
        assert(bv[k as int] == blocks@[k as int]@);
        if blocks[k].schema_kind == SeoSchemaBlockKind::Unknown {
            unknown = true;
        }
        k = k + 1;
    }
    proof {
        reveal_strlit("Structured data is present but at least one block has no recognized schema.org type.");
    }
    push_when(
        out,
        unknown,
        "unknown_schema_type",
        SeoDiagnosticSeverity::Info,
        &t.summary,
        "Structured data is present but at least one block has no recognized schema.org type.",
        canonical,
        src,
        locale,
    );
    let ghost mid = issue_views(out@);
    let mut b: usize = 0;
    while b < blocks.len()
        invariant
            b <= blocks.len(),
            bv == blocks_view(blocks@),
            t.meta == Some(*m),
            opt_view(*canonical) == effective_canonical(*t, *m),
            src@ == m.source@,
            issue_views(out@) == mid + validation_issues(*t, *m, bv.take(b as int), locale@),
        decreases blocks.len() - b,
    {
        let found = validate_schema_block(&blocks[b]);
        let ghost base = issue_views(out@);
        let ghost iv = issues_view(found@);
        assert(iv == schema_issues(bv[b as int]));
        let mut j: usize = 0;
        while j < found.len()
            invariant
                j <= found.len(),
                iv == issues_view(found@),
                t.meta == Some(*m),
                opt_view(*canonical) == effective_canonical(*t, *m),
                src@ == m.source@,
                issue_views(out@) == base + iv.take(j as int).map_values(
                    |x: IssueData| issue_of(*t, *m, x.code, x.severity, x.message, locale@),
                ),
            decreases found.len() - j,
        {
            let i = new_issue(
                found[j].code,
                found[j].severity,
                &t.summary,
                found[j].message.clone(),
                canonical,
                src,
                locale,
            );
            push_issue(out, i);
            proof {
                assert(iv[j as int] == found@[j as int]@);
            }
            j = j + 1;
            assert(issue_views(out@) =~= base + iv.take(j as int).map_values(
                |x: IssueData| issue_of(*t, *m, x.code, x.severity, x.message, locale@),
            ));
        }
        proof {
            assert(iv.take(found.len() as int) =~= iv);
            assert(bv.take(b as int + 1).drop_last() =~= bv.take(b as int));
            assert(bv.take(b as int + 1).last() == bv[b as int]);
        }
        b = b + 1;
    }
    assert(bv.take(blocks.len() as int) =~= bv);
    assert(issue_views(out@) =~= before + schema_block_issues(*t, *m, locale@));
}

fn push_indexing_issues(
    out: &mut Vec<SeoDiagnosticIssueRecord>,
    t: &SeoTargetDiagnosticsInput,
    m: &SeoMetaRecord,
    canonical: &Option<String>,
    locale: &str,
)
    requires
        t.meta == Some(*m),
        opt_view(*canonical) == effective_canonical(*t, *m),
    ensures
        issue_views(final(out)@) == issue_views(old(out)@) + indexing_issues(*t, *m, locale@),
{
    let ghost before = issue_views(out@);
    let src = m.source.as_str();
    proof {
        reveal_strlit("Target combines an explicit canonical URL with noindex.");
        reveal_strlit("Target is missing from the sitemap candidate set.");
    }
    push_when(
        out,
        m.noindex && m.canonical_url.is_some(),
        "noindex_canonical_conflict",
        SeoDiagnosticSeverity::Warning,
        &t.summary,
        "Target combines an explicit canonical URL with noindex.",
        canonical,
        src,
        locale,
    );
    push_when(
        out,
        t.sitemap_capable && !t.in_sitemap,
        "missing_sitemap_entry",
        SeoDiagnosticSeverity::Warning,
        &t.summary,
        "Target is missing from the sitemap candidate set.",
        canonical,
        src,
        locale,
    );
    assert(issue_views(out@) =~= before + indexing_issues(*t, *m, locale@));
}

fn canonical_of(t: &SeoTargetDiagnosticsInput, m: &SeoMetaRecord) -> (r: Option<String>)
    ensures
        opt_view(r) == effective_canonical(*t, *m),
{
    match &t.page_context {
        Some(c) => Some(c.route.canonical_url.clone()),
        None => copy_opt(&m.canonical_url),
    }
}

/// Appends the issues of one target (see `target_issues`).
fn push_target_issues(
    out: &mut Vec<SeoDiagnosticIssueRecord>,
    t: &SeoTargetDiagnosticsInput,
    locale: &str,
    graph: &Vec<(String, String)>,
)
    ensures
        issue_views(final(out)@) == issue_views(old(out)@) + target_issues(
            *t,
            locale@,
            graph_view(graph@),
        ),
{
    let ghost before = issue_views(out@);
    match &t.meta {
        None => {
            assert(before + Seq::<DiagnosticIssue>::empty() =~= before);
        },
        Some(m) => {
            let canonical = canonical_of(t, m);
            let ghost g = graph_view(graph@);
            let ghost l = locale@;
            push_redirect_issue(out, t, m, &canonical, locale, graph);
            push_hreflang_issues(out, t, m, &canonical, locale);
            proof {
                lemma_add_assoc(before, redirect_issues(*t, *m, l, g), hreflang_issues(*t, *m, l));
            }
            push_field_issues(out, t, m, &canonical, locale);
            proof {
                lemma_add_assoc(
                    before,
                    redirect_issues(*t, *m, l, g) + hreflang_issues(*t, *m, l),
                    field_issues(*t, *m, l),
                );
            }
            push_image_issues(out, t, m, &canonical, locale);
            proof {
                lemma_add_assoc(
                    before,
                    redirect_issues(*t, *m, l, g) + hreflang_issues(*t, *m, l) + field_issues(*t, *m, l),
                    image_issues(*t, *m, l),
                );
            }
            push_schema_issues(out, t, m, &canonical, locale);
            proof {
                lemma_add_assoc(
                    before,
                    redirect_issues(*t, *m, l, g) + hreflang_issues(*t, *m, l) + field_issues(*t, *m, l)
                        + image_issues(*t, *m, l),
                    schema_block_issues(*t, *m, l),
                );
            }
            push_indexing_issues(out, t, m, &canonical, locale);
            proof {
                lemma_add_assoc(
                    before,
                    redirect_issues(*t, *m, l, g) + hreflang_issues(*t, *m, l) + field_issues(*t, *m, l)
                        + image_issues(*t, *m, l) + schema_block_issues(*t, *m, l),
                    indexing_issues(*t, *m, l),
                );
            }
        },
    }
}


// ---------------------------------------------------------------------------
// The redirect graph
// ---------------------------------------------------------------------------

/// The redirect graph of the stored redirects: each active exact-match
/// redirect whose source and target both have lookup routes, as a pair of
/// routes, in order (a later pair for the same source wins).
pub open spec fn graph_entries(rs: Seq<SeoRedirectRecord>) -> Seq<(Seq<char>, Seq<char>)>
    decreases rs.len(),
{
    if rs.len() == 0 {
        Seq::empty()
    } else {
        let prev = graph_entries(rs.drop_last());
        let r = rs.last();
        if r.is_active && r.match_type == SeoRedirectMatchType::Exact {
            match (lookup_route(r.source_pattern@), lookup_route(r.target_url@)) {
                (Some(s), Some(t)) => prev.push((s, t)),
                _ => prev,
            }
        } else {
            prev
        }
    }
}

/// The redirect graph of the stored redirects (see `graph_entries`).
pub fn redirect_graph(redirects: &Vec<SeoRedirectRecord>) -> (r: Vec<(String, String)>)
    ensures
        graph_view(r@) == graph_entries(redirects@),
{
    let mut r: Vec<(String, String)> = Vec::new();
    let mut i: usize = 0;
    while i < redirects.len()
        invariant
            i <= redirects.len(),
            graph_view(r@) == graph_entries(redirects@.take(i as int)),
        decreases redirects.len() - i,
    {
        let rec = &redirects[i];
        assert(redirects@.take(i as int + 1).drop_last() =~= redirects@.take(i as int));
        assert(redirects@.take(i as int + 1).last() == *rec);
        if rec.is_active && rec.match_type == SeoRedirectMatchType::Exact {
            let source = redirect_lookup_route(rec.source_pattern.as_str());
            let target = redirect_lookup_route(rec.target_url.as_str());
            match (source, target) {
                (Some(s), Some(t)) => {
                    let ghost prev = r@;
                    r.push((s, t));
                    assert(graph_view(r@) =~= graph_view(prev).push((r@.last().0@, r@.last().1@)));
                },
                _ => {},
            }
        }
        i = i + 1;
    }
    assert(redirects@.take(redirects.len() as int) =~= redirects@);
    r
}

// ---------------------------------------------------------------------------
// The report
// ---------------------------------------------------------------------------

/// The codes of issues.
pub open spec fn report_codes(s: Seq<DiagnosticIssue>) -> Seq<Seq<char>> {
    s.map_values(|i: DiagnosticIssue| i.code)
}

/// The target kinds of issues.
pub open spec fn report_kinds(s: Seq<DiagnosticIssue>) -> Seq<Seq<char>> {
    s.map_values(|i: DiagnosticIssue| i.target_kind)
}

proof fn lemma_severity_counts(s: Seq<SeoDiagnosticIssueRecord>, sev: SeoDiagnosticSeverity)
    ensures
        severity_count(s, sev) == severity_total(issue_views(s), sev),
    decreases s.len(),
{
    if s.len() > 0 {
        lemma_severity_counts(s.drop_last(), sev);
        assert(issue_views(s).drop_last() =~= issue_views(s.drop_last()));
    }
}

proof fn lemma_severity_total_bound(s: Seq<DiagnosticIssue>, sev: SeoDiagnosticSeverity)
    ensures
        severity_total(s, sev) <= s.len(),
    decreases s.len(),
{
    if s.len() > 0 {
        lemma_severity_total_bound(s.drop_last(), sev);
    }
}

proof fn lemma_severity_total_disjoint(s: Seq<DiagnosticIssue>)
    ensures
        severity_total(s, SeoDiagnosticSeverity::Error) + severity_total(s, SeoDiagnosticSeverity::Warning)
            <= s.len(),
    decreases s.len(),
{
    if s.len() > 0 {
        lemma_severity_total_disjoint(s.drop_last());
    }
}

fn source_of(m: &SeoMetaRecord) -> (r: SeoFieldSource)
    ensures
        r == m.effective_state.title.source,
{
    m.effective_state.title.source
}

fn push_duplicates_of(
    out: &mut Vec<SeoDiagnosticIssueRecord>,
    targets: &Vec<SeoTargetDiagnosticsInput>,
    c: &str,
    locale: &str,
)
    ensures
        issue_views(final(out)@) == issue_views(old(out)@) + duplicates_of(targets@, c@, locale@),
{
    let ghost before = issue_views(out@);
    let mut k: usize = 0;
    assert(before + Seq::<DiagnosticIssue>::empty() =~= before);
    while k < targets.len()
        invariant
            k <= targets.len(),
            issue_views(out@) == before + duplicates_of(targets@.take(k as int), c@, locale@),
        decreases targets.len() - k,
    {
        let t = &targets[k];
        assert(targets@.take(k as int + 1).drop_last() =~= targets@.take(k as int));
        assert(targets@.take(k as int + 1).last() == *t);
        if let Some(m) = &t.meta {
            let canonical = canonical_of(t, m);
            if let Some(u) = &canonical {
                if str_eq(u.as_str(), c) {
                    let mut msg = owned("Canonical URL `");
                    append(&mut msg, c);
                    append(&mut msg, "` is used by multiple targets.");
                    let i = new_issue(
                        "duplicate_canonical",
                        SeoDiagnosticSeverity::Error,
                        &t.summary,
                        msg,
                        &canonical,
                        m.source.as_str(),
                        locale,
                    );
                    push_issue(out, i);
                }
            }
        }
        k = k + 1;
    }
    assert(targets@.take(targets.len() as int) =~= targets@);
}

fn clamp_i32(n: usize) -> (r: i32)
    ensures
        r == clamp_count(n as nat),
{
    if n > i32::MAX as usize {
        i32::MAX
    } else {
        n as i32
    }
}

fn readiness_score(total: usize, errors: usize, warnings: usize, issues: usize) -> (r: i32)
    requires
        errors + warnings <= issues,
        total <= i32::MAX,
    ensures
        r == readiness(total as int, errors as int, warnings as int, issues as int),
{
    if total == 0 {
        return 100;
    }
    let e = errors as u128;
    let w = warnings as u128;
    let n = issues as u128;
    let info = n - e - w;
    let weighted: u128 = e * 3 + w * 2 + info;
    let max_weight: u128 = (total as u128) * 6;
    assert(weighted * 100 < 0x1_0000_0000_0000_0000_0000_0000_0000) by (nonlinear_arith)
        requires
            weighted == e * 3 + w * 2 + info,
            e <= 0xffff_ffff_ffff_ffff,
            w <= 0xffff_ffff_ffff_ffff,
            info <= 0xffff_ffff_ffff_ffff,
    ;
    let ratio = (weighted * 100) / max_weight;
    let penalty: u128 = if ratio < 100 {
        ratio
    } else {
        100
    };
    (100 - penalty) as i32
}

/// The diagnostics report of a locale over the listed targets and the
/// redirect graph: every issue (see `report_issues`), of which the first
/// fifty are listed; the issue, error and warning counts (saturated at
/// `i32::MAX`); the per-code and per-kind counts in ascending key order;
/// the title source counts; and the readiness score.
pub fn diagnostics_summary(
    locale: &str,
    targets: &Vec<SeoTargetDiagnosticsInput>,
    redirect_graph: &Vec<(String, String)>,
) -> (r: SeoDiagnosticsSummaryRecord)
    requires
        targets.len() <= i32::MAX,
    ensures
        ({
            let all = report_issues(targets@, locale@, graph_view(redirect_graph@));
            let shown = if all.len() > MAX_EXPOSED_ISSUES {
                all.take(MAX_EXPOSED_ISSUES as int)
            } else {
                all
            };
            &&& r.locale@ == locale@
            &&& r.total_targets == targets.len()
            &&& r.explicit_count == title_source_count(targets@, SeoFieldSource::Explicit)
            &&& r.generated_count == title_source_count(targets@, SeoFieldSource::Generated)
            &&& r.fallback_count == title_source_count(targets@, SeoFieldSource::Fallback)
            &&& issue_views(r.issues@) == shown
            &&& r.issue_count == clamp_count(all.len())
            &&& r.error_count == clamp_count(severity_total(all, SeoDiagnosticSeverity::Error))
            &&& r.warning_count == clamp_count(severity_total(all, SeoDiagnosticSeverity::Warning))
            &&& all.len() <= i32::MAX ==> counts_view(r.issue_counts_by_code@) == key_counts(report_codes(all))
            &&& all.len() <= i32::MAX ==> counts_view(r.issue_counts_by_target_kind@) == key_counts(report_kinds(all))
            &&& all.len() > i32::MAX ==> r.issue_counts_by_code@.len() == 0 && r.issue_counts_by_target_kind@.len() == 0
            &&& r.readiness_score == readiness(
                targets.len() as int,
                severity_total(all, SeoDiagnosticSeverity::Error) as int,
                severity_total(all, SeoDiagnosticSeverity::Warning) as int,
                all.len() as int,
            )
        }),
{
    let ghost g = graph_view(redirect_graph@);
    let ghost l = locale@;
    let mut issues: Vec<SeoDiagnosticIssueRecord> = Vec::new();
    let mut explicit: usize = 0;
    let mut generated: usize = 0;
    let mut fallback: usize = 0;
    let mut canonical_list: Vec<String> = Vec::new();
    let mut i: usize = 0;
    assert(issue_views(issues@) =~= all_target_issues(targets@.take(0), l, g));
    assert(views(canonical_list@) =~= canonicals(targets@.take(0)));
    while i < targets.len()
        invariant
            i <= targets.len(),
            targets.len() <= i32::MAX,
            g == graph_view(redirect_graph@),
            l == locale@,
            issue_views(issues@) == all_target_issues(targets@.take(i as int), l, g),
            views(canonical_list@) == canonicals(targets@.take(i as int)),
            explicit == title_source_count(targets@.take(i as int), SeoFieldSource::Explicit),
            generated == title_source_count(targets@.take(i as int), SeoFieldSource::Generated),
            fallback == title_source_count(targets@.take(i as int), SeoFieldSource::Fallback),
            explicit <= i,
            generated <= i,
            fallback <= i,
        decreases targets.len() - i,
    {
        let t = &targets[i];
        assert(targets@.take(i as int + 1).drop_last() =~= targets@.take(i as int));
        assert(targets@.take(i as int + 1).last() == *t);
        push_target_issues(&mut issues, t, locale, redirect_graph);
        if let Some(m) = &t.meta {
            match source_of(m) {
                SeoFieldSource::Explicit => explicit = explicit + 1,
                SeoFieldSource::Generated => generated = generated + 1,
                SeoFieldSource::Fallback => fallback = fallback + 1,
            }
            if let Some(c) = canonical_of(t, m) {
                proof {
                    crate::text::lemma_views_push(canonical_list@, c);
                }
                canonical_list.push(c);
            }
        }
        i = i + 1;
    }
    assert(targets@.take(targets.len() as int) =~= targets@);
    let ghost ts = targets@;
    let mut uniq: Vec<String> = Vec::new();
    let mut j: usize = 0;
    while j < canonical_list.len()
        invariant
            j <= canonical_list.len(),
            views(uniq@) == sorted_unique(views(canonical_list@.take(j as int))),
            strictly_sorted(views(uniq@)),
        decreases canonical_list.len() - j,
    {
        proof {
            crate::text::lemma_views_take_next(canonical_list@, j as int);
        }
        insert_sorted_unique(&mut uniq, canonical_list[j].clone());
        j = j + 1;
    }
    assert(canonical_list@.take(canonical_list.len() as int) =~= canonical_list@);
    let ghost cs = views(uniq@);
    assert(cs == sorted_unique(canonicals(ts)));
    let ghost targets_part = issue_views(issues@);
    let mut u: usize = 0;
    assert(targets_part + Seq::<DiagnosticIssue>::empty() =~= targets_part);
    while u < uniq.len()
        invariant
            u <= uniq.len(),
            ts == targets@,
            cs == views(uniq@),
            views(canonical_list@) == canonicals(ts),
            l == locale@,
            issue_views(issues@) == targets_part + duplicate_issues_over(ts, cs.take(u as int), l),
        decreases uniq.len() - u,
    {
        let n = crate::diagnostics::count_occurrences(&canonical_list, uniq[u].as_str());
        let ghost mid = issue_views(issues@);
        proof {
            assert(cs.take(u as int + 1).drop_last() =~= cs.take(u as int));
            assert(cs.take(u as int + 1).last() == uniq@[u as int]@);
        }
        if n >= 2 {
            push_duplicates_of(&mut issues, targets, uniq[u].as_str(), locale);
            proof {
                lemma_add_assoc(
                    targets_part,
                    duplicate_issues_over(ts, cs.take(u as int), l),
                    duplicates_of(ts, cs[u as int], l),
                );
            }
        } else {
            assert(mid + Seq::<DiagnosticIssue>::empty() =~= mid);
        }
        u = u + 1;
    }
    assert(cs.take(uniq.len() as int) =~= cs);
    let ghost all = report_issues(ts, l, g);
    assert(issue_views(issues@) == all);
    assert(issues@.len() == all.len());
    let error_count = count_severity(&issues, SeoDiagnosticSeverity::Error);
    let warning_count = count_severity(&issues, SeoDiagnosticSeverity::Warning);
    proof {
        lemma_severity_counts(issues@, SeoDiagnosticSeverity::Error);
        lemma_severity_counts(issues@, SeoDiagnosticSeverity::Warning);
        lemma_severity_total_disjoint(all);
    }
    let total = issues.len();
    let (by_code, by_kind) = if total <= i32::MAX as usize {
        let codes = collect_issue_codes(&issues);
        let kinds = collect_issue_kinds(&issues);
        proof {
            assert(issue_codes(issues@) =~= report_codes(all));
            assert(issue_kinds(issues@) =~= report_kinds(all));
        }
        (count_by_key(&codes), count_by_key(&kinds))
    } else {
        (Vec::new(), Vec::new())
    };
    let score = readiness_score(targets.len(), error_count, warning_count, total);
    let ghost before_cut = issues@;
    issues.truncate(MAX_EXPOSED_ISSUES);
    proof {
        if before_cut.len() > MAX_EXPOSED_ISSUES {
            assert(issue_views(issues@) =~= all.take(MAX_EXPOSED_ISSUES as int));
        } else {
            assert(issues@ == before_cut);
        }
    }
    SeoDiagnosticsSummaryRecord {
        locale: owned(locale),
        total_targets: targets.len() as i32,
        readiness_score: score,
        issue_count: clamp_i32(total),
        error_count: clamp_i32(error_count),
        warning_count: clamp_i32(warning_count),
        generated_count: generated as i32,
        explicit_count: explicit as i32,
        fallback_count: fallback as i32,
        issue_counts_by_code: by_code,
        issue_counts_by_target_kind: by_kind,
        issues,
    }
}

proof fn lemma_add_assoc(a: Seq<DiagnosticIssue>, b: Seq<DiagnosticIssue>, c: Seq<DiagnosticIssue>)
    ensures
        a + (b + c) == (a + b) + c,
{
    assert(a + (b + c) =~= (a + b) + c);
}

} // verus!
