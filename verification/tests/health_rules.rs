use rustok_seo::dto::{
    SeoDiagnosticCountRecord, SeoDiagnosticIssueRecord, SeoDiagnosticSeverity,
    SeoDiagnosticsSummaryRecord, SeoTargetSlug,
};
use rustok_seo::health::{
    affected_targets_label, health_summary_lines, is_schema_issue_code,
    schema_remediation_rows, top_issue_lines,
};

fn issue(code: &str, kind: &str, id: u128) -> SeoDiagnosticIssueRecord {
    SeoDiagnosticIssueRecord {
        code: code.to_string(),
        severity: SeoDiagnosticSeverity::Warning,
        target_kind: SeoTargetSlug::new(kind).expect("slug"),
        target_id: id,
        target_label: format!("Target {id}"),
        route: format!("/t/{id}"),
        locale: "en".to_string(),
        message: format!("{code} found"),
        canonical_url: None,
        source: "generated".to_string(),
    }
}

fn count(key: &str, count: i32) -> SeoDiagnosticCountRecord {
    SeoDiagnosticCountRecord { key: key.to_string(), count }
}

#[test]
fn health_card_rows_cover_schema_issue_codes_only() {
    let summary = SeoDiagnosticsSummaryRecord {
        locale: "en".to_string(),
        total_targets: 4,
        readiness_score: 72,
        issue_count: 3,
        error_count: 0,
        warning_count: 3,
        generated_count: 2,
        explicit_count: 1,
        fallback_count: 1,
        issue_counts_by_code: vec![count("missing_schema", 2), count("missing_title", 1)],
        issue_counts_by_target_kind: vec![count("product", 3)],
        issues: vec![
            issue("missing_title", "page", 1),
            issue("missing_schema", "product", 2),
            issue("missing_schema", "page", 3),
        ],
    };
    let rows = schema_remediation_rows(&summary);
    assert_eq!(rows.len(), 1);
    assert_eq!(rows[0].code, "missing_schema");
    assert_eq!(rows[0].count, 2);
    assert_eq!(rows[0].first_kind.as_ref().map(|k| k.as_str()), Some("product"));
    assert_eq!(affected_targets_label("{} affected targets", rows[0].count), "2 affected targets");

    assert_eq!(
        health_summary_lines(&summary),
        vec![
            "Readiness score: 72",
            "Tracked targets: 4",
            "Issues: 3 (0 errors, 3 warnings)",
            "Effective sources: 1 explicit, 2 generated, 1 fallback",
        ]
    );
    let lines = top_issue_lines(&summary);
    assert_eq!(lines.len(), 3);
    assert_eq!(lines[0].0, "[missing_title] missing_title found");
    assert_eq!(lines[0].1, "page / Target 1 / /t/1 / generated");
    assert!(is_schema_issue_code("invalid_schema_shape"));
    assert!(!is_schema_issue_code("missing_title"));
}
