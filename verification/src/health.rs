//! What the SEO health card shows of a diagnostics summary: the headline
//! figures, the schema issues that a bulk fix can remediate, and the top
//! issues.
use vstd::prelude::*;

use crate::dto::{SeoDiagnosticCountRecord, SeoDiagnosticIssueRecord, SeoDiagnosticsSummaryRecord, SeoTargetSlug};
use crate::text::{append, dec_int, i32_to_string, owned, str_eq, views};
use crate::urls::{replace_all, replace_text};

verus! {

/// The issue codes a structured-data fix remediates.
pub open spec fn schema_issue_code(code: Seq<char>) -> bool {
    code == "missing_schema"@ || code == "unknown_schema_type"@ || code
        == "missing_required_schema_field"@ || code == "invalid_schema_shape"@ || code
        == "unsupported_schema_source_payload"@
}

/// Whether an issue code is one a structured-data fix remediates.
pub fn is_schema_issue_code(code: &str) -> (r: bool)
    ensures
        r == schema_issue_code(code@),
{
    str_eq(code, "missing_schema") || str_eq(code, "unknown_schema_type") || str_eq(
        code,
        "missing_required_schema_field",
    ) || str_eq(code, "invalid_schema_shape") || str_eq(code, "unsupported_schema_source_payload")
}

/// A schema issue code with how many targets it affects and the kind of
/// the first target listed with it (where a fix is queued).
#[derive(Clone, Debug)]
pub struct SchemaRemediationRow {
    pub code: String,
    pub count: i32,
    pub first_kind: Option<SeoTargetSlug>,
}

/// The index of the first issue with a code, looking from `from` on.
pub open spec fn first_issue_from(issues: Seq<SeoDiagnosticIssueRecord>, code: Seq<char>, from: int) -> Option<int>
    decreases issues.len() - from,
{
    if from < 0 || from >= issues.len() {
        None
    } else if issues[from].code@ == code {
        Some(from)
    } else {
        first_issue_from(issues, code, from + 1)
    }
}

/// The index of the first issue with a code.
pub open spec fn first_issue_with(issues: Seq<SeoDiagnosticIssueRecord>, code: Seq<char>) -> Option<int> {
    first_issue_from(issues, code, 0)
}

/// The schema issue counts of a summary, in its order.
pub open spec fn schema_counts(c: Seq<SeoDiagnosticCountRecord>) -> Seq<SeoDiagnosticCountRecord>
    decreases c.len(),
{
    if c.len() == 0 {
        c
    } else if schema_issue_code(c.last().key@) {
        schema_counts(c.drop_last()).push(c.last())
    } else {
        schema_counts(c.drop_last())
    }
}

/// The remediation row of a count: its code and count, and the kind of
/// the first issue listed with that code.
pub open spec fn is_row_of(r: SchemaRemediationRow, c: SeoDiagnosticCountRecord, issues: Seq<SeoDiagnosticIssueRecord>) -> bool {
    &&& r.code@ == c.key@
    &&& r.count == c.count
    &&& match first_issue_with(issues, c.key@) {
        Some(k) => r.first_kind matches Some(kind) && kind@ == issues[k].target_kind@,
        None => r.first_kind is None,
    }
}

fn first_kind_for(issues: &Vec<SeoDiagnosticIssueRecord>, code: &str) -> (r: Option<SeoTargetSlug>)
    ensures
        match first_issue_with(issues@, code@) {
            Some(k) => r matches Some(kind) && kind@ == issues@[k].target_kind@,
            None => r is None,
        },
{
    let mut i: usize = 0;
    while i < issues.len()
        invariant
            i <= issues.len(),
            first_issue_with(issues@, code@) == first_issue_from(issues@, code@, i as int),
        decreases issues.len() - i,
    {
        if str_eq(issues[i].code.as_str(), code) {
            return Some(issues[i].target_kind.copy());
        }
        i = i + 1;
    }
    None
}

/// The schema remediation rows of a summary: one per schema issue code in
/// its per-code counts, in their order (see `is_row_of`).
pub fn schema_remediation_rows(summary: &SeoDiagnosticsSummaryRecord) -> (r: Vec<SchemaRemediationRow>)
    ensures
        r.len() == schema_counts(summary.issue_counts_by_code@).len(),
        forall|k: int|
            0 <= k < r.len() ==> is_row_of(
                #[trigger] r@[k],
                schema_counts(summary.issue_counts_by_code@)[k],
                summary.issues@,
            ),
{
    let counts = &summary.issue_counts_by_code;
    let mut r: Vec<SchemaRemediationRow> = Vec::new();
    let mut i: usize = 0;
    while i < counts.len()
        invariant
            i <= counts.len(),
            counts == &summary.issue_counts_by_code,
            r.len() == schema_counts(counts@.take(i as int)).len(),
            forall|k: int|
                0 <= k < r.len() ==> is_row_of(
                    #[trigger] r@[k],
                    schema_counts(counts@.take(i as int))[k],
                    summary.issues@,
                ),
        decreases counts.len() - i,
    {
        let c = &counts[i];
        assert(counts@.take(i as int + 1).drop_last() =~= counts@.take(i as int));
        assert(counts@.take(i as int + 1).last() == *c);
        if is_schema_issue_code(c.key.as_str()) {
            let row = SchemaRemediationRow {
                code: c.key.clone(),
                count: c.count,
                first_kind: first_kind_for(&summary.issues, c.key.as_str()),
            };
            r.push(row);
        }
        i = i + 1;
    }
    assert(counts@.take(counts.len() as int) =~= counts@);
    r
}

/// The affected-targets label of a row: the template with each `{}`
/// replaced by the count.
pub fn affected_targets_label(template: &str, count: i32) -> (r: String)
    ensures
        r@ == replace_all(template@, "{}"@, dec_int(count as int)),
{
    let n = i32_to_string(count);
    proof {
        reveal_strlit("{}");
    }
    replace_text(template, "{}", n.as_str())
}

/// The headline figures of the card: readiness, tracked targets, issue
/// counts and effective sources.
pub open spec fn health_lines(s: SeoDiagnosticsSummaryRecord) -> Seq<Seq<char>> {
    seq![
        "Readiness score: "@ + dec_int(s.readiness_score as int),
        "Tracked targets: "@ + dec_int(s.total_targets as int),
        "Issues: "@ + dec_int(s.issue_count as int) + " ("@ + dec_int(s.error_count as int) + " errors, "@
            + dec_int(s.warning_count as int) + " warnings)"@,
        "Effective sources: "@ + dec_int(s.explicit_count as int) + " explicit, "@ + dec_int(
            s.generated_count as int,
        ) + " generated, "@ + dec_int(s.fallback_count as int) + " fallback"@,
    ]
}

/// The headline figures of the card (see `health_lines`).
pub fn health_summary_lines(s: &SeoDiagnosticsSummaryRecord) -> (r: Vec<String>)
    ensures
        views(r@) == health_lines(*s),
{
    let mut r: Vec<String> = Vec::new();
    let mut a = owned("Readiness score: ");
    let n = i32_to_string(s.readiness_score);
    append(&mut a, n.as_str());
    r.push(a);
    let mut b = owned("Tracked targets: ");
    let n = i32_to_string(s.total_targets);
    append(&mut b, n.as_str());
    r.push(b);
    let mut c = owned("Issues: ");
    let n = i32_to_string(s.issue_count);
    append(&mut c, n.as_str());
    append(&mut c, " (");
    let n = i32_to_string(s.error_count);
    append(&mut c, n.as_str());
    append(&mut c, " errors, ");
    let n = i32_to_string(s.warning_count);
    append(&mut c, n.as_str());
    append(&mut c, " warnings)");
    r.push(c);
    let mut d = owned("Effective sources: ");
    let n = i32_to_string(s.explicit_count);
    append(&mut d, n.as_str());
    append(&mut d, " explicit, ");
    let n = i32_to_string(s.generated_count);
    append(&mut d, n.as_str());
    append(&mut d, " generated, ");
    let n = i32_to_string(s.fallback_count);
    append(&mut d, n.as_str());
    append(&mut d, " fallback");
    r.push(d);
    assert(views(r@) =~= health_lines(*s));
    r
}

/// The number of issues the card lists.
pub const TOP_ISSUE_COUNT: usize = 8;

/// The two lines of a listed issue: `[code] message`, then kind, label,
/// route and source separated by ` / `.
pub open spec fn issue_lines(i: SeoDiagnosticIssueRecord) -> (Seq<char>, Seq<char>) {
    (
        "["@ + i.code@ + "] "@ + i.message@,
        i.target_kind@ + " / "@ + i.target_label@ + " / "@ + i.route@ + " / "@ + i.source@,
    )
}

/// The lines of the first eight issues of a summary (see `issue_lines`).
pub fn top_issue_lines(s: &SeoDiagnosticsSummaryRecord) -> (r: Vec<(String, String)>)
    ensures
        r.len() == if s.issues.len() > TOP_ISSUE_COUNT {
            TOP_ISSUE_COUNT as int
        } else {
            s.issues.len() as int
        },
        forall|k: int|
            0 <= k < r.len() ==> ((#[trigger] r@[k]).0@, r@[k].1@) == issue_lines(s.issues@[k]),
{
    let n: usize = if s.issues.len() > TOP_ISSUE_COUNT {
        TOP_ISSUE_COUNT
    } else {
        s.issues.len()
    };
    let mut r: Vec<(String, String)> = Vec::new();
    let mut i: usize = 0;
    while i < n
        invariant
            i <= n,
            n <= s.issues.len(),
            r.len() == i,
            forall|k: int| 0 <= k < i ==> ((#[trigger] r@[k]).0@, r@[k].1@) == issue_lines(s.issues@[k]),
        decreases n - i,
    {
        let issue = &s.issues[i];
        let mut head = owned("[");
        append(&mut head, issue.code.as_str());
        append(&mut head, "] ");
        append(&mut head, issue.message.as_str());
        let mut detail = owned(issue.target_kind.as_str());
        append(&mut detail, " / ");
        append(&mut detail, issue.target_label.as_str());
        append(&mut detail, " / ");
        append(&mut detail, issue.route.as_str());
        append(&mut detail, " / ");
        append(&mut detail, issue.source.as_str());
        r.push((head, detail));
        i = i + 1;
    }
    r
}

} // verus!
