//! Query parameters of the SEO HTTP endpoints and the filtering of a
//! diagnostics summary by such a query.
use vstd::prelude::*;

use crate::diagnostics::{count_issue_keys, count_sort, counts_view, key_counts};
use crate::dto::{
    SeoBulkJobStatus, SeoDiagnosticIssueRecord, SeoDiagnosticSeverity,
    SeoDiagnosticsSummaryRecord, SeoTargetSlug,
};
use crate::text::{copy_opt, lower, lower_str, str_eq, trim, trim_lower, views};

verus! {

/// The route whose page context is asked for.
#[derive(Clone, Debug)]
pub struct SeoPageContextQuery {
    pub route: String,
}

/// The locale and per-target limit of a cross-link suggestion request.
#[derive(Clone, Debug)]
pub struct SeoCrossLinkSuggestionsQuery {
    pub locale: Option<String>,
    pub per_target_limit: Option<i32>,
}

/// Filters of a diagnostics request.
#[derive(Clone, Debug)]
pub struct SeoDiagnosticsQuery {
    pub locale: Option<String>,
    pub severity: Option<SeoDiagnosticSeverity>,
    pub code: Option<String>,
    pub target_kind: Option<SeoTargetSlug>,
    pub limit: Option<i32>,
}

/// The number of sitemap jobs asked for.
#[derive(Clone, Debug)]
pub struct SeoSitemapJobsQuery {
    pub limit: Option<i32>,
}

/// The number and status of bulk jobs asked for.
#[derive(Clone, Debug)]
pub struct SeoBulkJobsQuery {
    pub limit: Option<i32>,
    pub status: Option<SeoBulkJobStatus>,
}

/// The code filter of a query: the trimmed, lower-cased code, when not
/// blank.
pub open spec fn code_filter(code: Option<String>) -> Option<Seq<char>> {
    match code {
        Some(c) => if lower(trim(c@)).len() > 0 {
            Some(lower(trim(c@)))
        } else {
            None
        },
        None => None,
    }
}

/// Whether an issue passes the severity, code and target kind filters of
/// a query; codes compare case-insensitively.
pub open spec fn issue_selected(i: SeoDiagnosticIssueRecord, q: SeoDiagnosticsQuery) -> bool {
    &&& (match q.severity {
        Some(s) => i.severity == s,
        None => true,
    })
    &&& (match code_filter(q.code) {
        Some(c) => lower(i.code@) == c,
        None => true,
    })
    &&& (match q.target_kind {
        Some(k) => i.target_kind@ == k@,
        None => true,
    })
}

/// The issues that pass the filters of a query, in their order.
pub open spec fn selected_issues(s: Seq<SeoDiagnosticIssueRecord>, q: SeoDiagnosticsQuery) -> Seq<SeoDiagnosticIssueRecord>
    decreases s.len(),
{
    if s.len() == 0 {
        s
    } else if issue_selected(s.last(), q) {
        selected_issues(s.drop_last(), q).push(s.last())
    } else {
        selected_issues(s.drop_last(), q)
    }
}

/// The number of issues a query keeps: its limit, clamped to 1..=500.
pub open spec fn issue_limit(limit: Option<i32>) -> Option<int> {
    match limit {
        Some(l) => Some(if l < 1 { 1int } else if l > 500 { 500int } else { l as int }),
        None => None,
    }
}

/// The issues a query keeps: the selected ones, at most the limit.
pub open spec fn filtered_issues(s: Seq<SeoDiagnosticIssueRecord>, q: SeoDiagnosticsQuery) -> Seq<SeoDiagnosticIssueRecord> {
    let sel = selected_issues(s, q);
    match issue_limit(q.limit) {
        Some(n) => if n < sel.len() {
            sel.take(n)
        } else {
            sel
        },
        None => sel,
    }
}

/// The number of issues of a severity.
pub open spec fn severity_count(s: Seq<SeoDiagnosticIssueRecord>, sev: SeoDiagnosticSeverity) -> nat
    decreases s.len(),
{
    if s.len() == 0 {
        0
    } else {
        severity_count(s.drop_last(), sev) + if s.last().severity == sev {
            1nat
        } else {
            0nat
        }
    }
}

/// The codes of issues.
pub open spec fn issue_codes(s: Seq<SeoDiagnosticIssueRecord>) -> Seq<Seq<char>> {
    s.map_values(|i: SeoDiagnosticIssueRecord| i.code@)
}

/// The target kinds of issues.
pub open spec fn issue_kinds(s: Seq<SeoDiagnosticIssueRecord>) -> Seq<Seq<char>> {
    s.map_values(|i: SeoDiagnosticIssueRecord| i.target_kind@)
}

/// A copy of an issue.
pub fn copy_issue(i: &SeoDiagnosticIssueRecord) -> (r: SeoDiagnosticIssueRecord)
    ensures
        r == *i,
{
    SeoDiagnosticIssueRecord {
        code: i.code.clone(),
        severity: i.severity,
        target_kind: i.target_kind.copy(),
        target_id: i.target_id,
        target_label: i.target_label.clone(),
        route: i.route.clone(),
        locale: i.locale.clone(),
        message: i.message.clone(),
        canonical_url: copy_opt(&i.canonical_url),
        source: i.source.clone(),
    }
}

/// The number of issues of a severity (see `severity_count`).
pub fn count_severity(issues: &Vec<SeoDiagnosticIssueRecord>, sev: SeoDiagnosticSeverity) -> (r: usize)
    ensures
        r == severity_count(issues@, sev),
        r <= issues.len(),
{
    let mut n: usize = 0;
    let mut i: usize = 0;
    while i < issues.len()
        invariant
            i <= issues.len(),
            n == severity_count(issues@.take(i as int), sev),
            n <= i,
        decreases issues.len() - i,
    {
        assert(issues@.take(i as int + 1).drop_last() =~= issues@.take(i as int));
        if issues[i].severity == sev {
            n = n + 1;
        }
        i = i + 1;
    }
    assert(issues@.take(issues.len() as int) =~= issues@);
    n
}

/// The codes of the issues, in order.
pub fn collect_issue_codes(issues: &Vec<SeoDiagnosticIssueRecord>) -> (r: Vec<String>)
    ensures
        views(r@) == issue_codes(issues@),
        r.len() == issues.len(),
{
    let mut r: Vec<String> = Vec::new();
    let mut i: usize = 0;
    while i < issues.len()
        invariant
            i <= issues.len(),
            views(r@) == issue_codes(issues@.take(i as int)),
            r.len() == i,
        decreases issues.len() - i,
    {
        let x = issues[i].code.clone();
        proof {
            crate::text::lemma_views_push(r@, x);
            assert(issue_codes(issues@.take(i as int + 1)) =~= issue_codes(issues@.take(i as int)).push(x@));
        }
        r.push(x);
        i = i + 1;
    }
    assert(issues@.take(issues.len() as int) =~= issues@);
    r
}

/// The target kinds of the issues, in order.
pub fn collect_issue_kinds(issues: &Vec<SeoDiagnosticIssueRecord>) -> (r: Vec<String>)
    ensures
        views(r@) == issue_kinds(issues@),
        r.len() == issues.len(),
{
    let mut r: Vec<String> = Vec::new();
    let mut i: usize = 0;
    while i < issues.len()
        invariant
            i <= issues.len(),
            views(r@) == issue_kinds(issues@.take(i as int)),
            r.len() == i,
        decreases issues.len() - i,
    {
        let x = crate::text::owned(issues[i].target_kind.as_str());
        proof {
            crate::text::lemma_views_push(r@, x);
            assert(issue_kinds(issues@.take(i as int + 1)) =~= issue_kinds(issues@.take(i as int)).push(x@));
        }
        r.push(x);
        i = i + 1;
    }
    assert(issues@.take(issues.len() as int) =~= issues@);
    r
}

/// Whether an issue passes the filters (see `issue_selected`).
fn passes(i: &SeoDiagnosticIssueRecord, severity: Option<SeoDiagnosticSeverity>, code: &Option<String>, kind: &Option<SeoTargetSlug>, q: Ghost<SeoDiagnosticsQuery>) -> (r: bool)
    requires
        severity == q@.severity,
        opt_view_eq(*code, code_filter(q@.code)),
        *kind == q@.target_kind,
    ensures
        r == issue_selected(*i, q@),
{
    if let Some(s) = severity {
        if i.severity != s {
            return false;
        }
    }
    if let Some(c) = code {
        let lc = lower_str(i.code.as_str());
        if !str_eq(lc.as_str(), c.as_str()) {
            return false;
        }
    }
    if let Some(k) = kind {
        if !i.target_kind.same_as(k) {
            return false;
        }
    }
    true
}

/// An optional text with the given view.
pub open spec fn opt_view_eq(o: Option<String>, v: Option<Seq<char>>) -> bool {
    match (o, v) {
        (Some(a), Some(b)) => a@ == b,
        (None, None) => true,
        _ => false,
    }
}

/// The summary seen through a query: the issues it keeps (see
/// `filtered_issues`), with the issue, error and warning counts and the
/// per-code and per-kind counts (larger first) recomputed over them; the
/// locale, target totals, readiness score and source counts stay.
pub fn apply_diagnostics_filters(summary: SeoDiagnosticsSummaryRecord, query: &SeoDiagnosticsQuery) -> (r: SeoDiagnosticsSummaryRecord)
    requires
        summary.issues.len() <= i32::MAX,
    ensures
        r.issues@ == filtered_issues(summary.issues@, *query),
        r.issue_count == r.issues.len(),
        r.error_count == severity_count(r.issues@, SeoDiagnosticSeverity::Error),
        r.warning_count == severity_count(r.issues@, SeoDiagnosticSeverity::Warning),
        counts_view(r.issue_counts_by_code@) == count_sort(key_counts(issue_codes(r.issues@))),
        counts_view(r.issue_counts_by_target_kind@) == count_sort(
            key_counts(issue_kinds(r.issues@)),
        ),
        r.locale == summary.locale,
        r.total_targets == summary.total_targets,
        r.readiness_score == summary.readiness_score,
        r.generated_count == summary.generated_count,
        r.explicit_count == summary.explicit_count,
        r.fallback_count == summary.fallback_count,
{
    let code: Option<String> = match &query.code {
        Some(c) => {
            let v = trim_lower(c.as_str());
            if v.as_str().unicode_len() == 0 {
                None
            } else {
                Some(v)
            }
        },
        None => None,
    };
    let kind: Option<SeoTargetSlug> = match &query.target_kind {
        Some(k) => Some(k.copy()),
        None => None,
    };
    let ghost q = *query;
    let mut issues: Vec<SeoDiagnosticIssueRecord> = Vec::new();
    let mut i: usize = 0;
    while i < summary.issues.len()
        invariant
            i <= summary.issues.len(),
            q == *query,
            query.severity == q.severity,
            opt_view_eq(code, code_filter(q.code)),
            kind == q.target_kind,
            issues@ == selected_issues(summary.issues@.take(i as int), q),
        decreases summary.issues.len() - i,
    {
        assert(summary.issues@.take(i as int + 1).drop_last() =~= summary.issues@.take(i as int));
        let keep = passes(&summary.issues[i], query.severity, &code, &kind, Ghost(q));
        if keep {
            issues.push(copy_issue(&summary.issues[i]));
        }
        i = i + 1;
    }
    assert(summary.issues@.take(summary.issues.len() as int) =~= summary.issues@);
    proof {
        lemma_selected_len(summary.issues@, q);
    }
    if let Some(l) = query.limit {
        let n: usize = if l < 1 {
            1
        } else if l > 500 {
            500
        } else {
            l as usize
        };
        issues.truncate(n);
    }
    let error_count = count_severity(&issues, SeoDiagnosticSeverity::Error);
    let warning_count = count_severity(&issues, SeoDiagnosticSeverity::Warning);
    let codes = collect_issue_codes(&issues);
    let kinds = collect_issue_kinds(&issues);
    let by_code = count_issue_keys(&codes);
    let by_kind = count_issue_keys(&kinds);
    SeoDiagnosticsSummaryRecord {
        locale: summary.locale,
        total_targets: summary.total_targets,
        readiness_score: summary.readiness_score,
        issue_count: issues.len() as i32,
        error_count: error_count as i32,
        warning_count: warning_count as i32,
        generated_count: summary.generated_count,
        explicit_count: summary.explicit_count,
        fallback_count: summary.fallback_count,
        issue_counts_by_code: by_code,
        issue_counts_by_target_kind: by_kind,
        issues,
    }
}

proof fn lemma_selected_len(s: Seq<SeoDiagnosticIssueRecord>, q: SeoDiagnosticsQuery)
    ensures
        selected_issues(s, q).len() <= s.len(),
    decreases s.len(),
{
    if s.len() > 0 {
        lemma_selected_len(s.drop_last(), q);
    }
}

} // verus!
