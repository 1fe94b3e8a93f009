use rustok_seo::diagnostics::CROSS_LINK_GAP_REMEDIATION_MESSAGE;

#[test]
fn cross_link_gap_message_mentions_control_plane_entrypoints() {
    assert!(CROSS_LINK_GAP_REMEDIATION_MESSAGE.contains("seoCrossLinkSuggestions"));
    assert!(CROSS_LINK_GAP_REMEDIATION_MESSAGE.contains("/api/seo/cross-link-suggestions"));
}

use rustok_seo::dto::{
    SeoDiagnosticIssueRecord, SeoDiagnosticSeverity, SeoDiagnosticsSummaryRecord, SeoTargetSlug,
};
use rustok_seo::queries::{apply_diagnostics_filters, SeoDiagnosticsQuery};

fn sample_issue(
    code: &str,
    severity: SeoDiagnosticSeverity,
    kind: &str,
    id: u128,
    label: &str,
    route: &str,
    message: &str,
    source: &str,
) -> SeoDiagnosticIssueRecord {
    SeoDiagnosticIssueRecord {
        code: code.to_string(),
        severity,
        target_kind: SeoTargetSlug::new(kind).expect("slug"),
        target_id: id,
        target_label: label.to_string(),
        route: route.to_string(),
        locale: "en-US".to_string(),
        message: message.to_string(),
        canonical_url: Some(route.to_string()),
        source: source.to_string(),
    }
}

fn sample_summary() -> SeoDiagnosticsSummaryRecord {
    SeoDiagnosticsSummaryRecord {
        locale: "en-US".to_string(),
        total_targets: 10,
        readiness_score: 85,
        issue_count: 2,
        error_count: 1,
        warning_count: 1,
        generated_count: 4,
        explicit_count: 3,
        fallback_count: 3,
        issue_counts_by_code: vec![],
        issue_counts_by_target_kind: vec![],
        issues: vec![
            sample_issue(
                "missing_title",
                SeoDiagnosticSeverity::Error,
                "page",
                1,
                "Page A",
                "/a",
                "title missing",
                "fallback",
            ),
            sample_issue(
                "missing_description",
                SeoDiagnosticSeverity::Warning,
                "product",
                2,
                "Product B",
                "/b",
                "description missing",
                "generated",
            ),
        ],
    }
}

#[test]
fn apply_diagnostics_filters_recomputes_issue_aggregates() {
    let summary = sample_summary();

    let filtered = apply_diagnostics_filters(
        summary,
        &SeoDiagnosticsQuery {
            locale: None,
            severity: Some(SeoDiagnosticSeverity::Error),
            code: None,
            target_kind: None,
            limit: None,
        },
    );

    assert_eq!(filtered.issue_count, 1);
    assert_eq!(filtered.error_count, 1);
    assert_eq!(filtered.warning_count, 0);
    assert_eq!(filtered.issue_counts_by_code.len(), 1);
    assert_eq!(filtered.issue_counts_by_code[0].key, "missing_title");
    assert_eq!(filtered.issue_counts_by_target_kind.len(), 1);
    assert_eq!(filtered.issue_counts_by_target_kind[0].key, "page");
}

#[test]
fn diagnostics_filters_match_codes_case_insensitively_and_clamp_the_limit() {
    let filtered = apply_diagnostics_filters(
        sample_summary(),
        &SeoDiagnosticsQuery {
            locale: None,
            severity: None,
            code: Some("  MISSING_Description ".to_string()),
            target_kind: None,
            limit: Some(0),
        },
    );
    assert_eq!(filtered.issue_count, 1);
    assert_eq!(filtered.issues[0].code, "missing_description");
    assert_eq!(filtered.warning_count, 1);
    assert_eq!(filtered.readiness_score, 85);
    assert_eq!(filtered.total_targets, 10);

    let by_kind = apply_diagnostics_filters(
        sample_summary(),
        &SeoDiagnosticsQuery {
            locale: None,
            severity: None,
            code: Some("   ".to_string()),
            target_kind: Some(SeoTargetSlug::new("product").expect("slug")),
            limit: None,
        },
    );
    assert_eq!(by_kind.issue_count, 1);
    assert_eq!(by_kind.issues[0].target_id, 2);
}

use rustok_seo::diagnostics::{
    collect_missing_image_descriptor_counts, is_image_seo_critical_target, trace_redirects,
    RedirectTrace,
};
use rustok_seo::dto::{SeoDocument, SeoImageAsset, SeoOpenGraph, SeoPageContext, SeoTwitterCard};

fn trace_text(trace: Option<RedirectTrace>) -> Option<String> {
    trace.map(|t| format!("{}|{}", t.code(), t.message()))
}

#[test]
fn trace_redirects_classifies_single_chain_and_loop() {
    let single = vec![("/a".to_string(), "/b".to_string())];
    assert!(matches!(
        trace_redirects("/a", &single),
        Some(RedirectTrace::Single { target }) if target == "/b"
    ));

    let chain = vec![
        ("/a".to_string(), "/b".to_string()),
        ("/b".to_string(), "/c".to_string()),
    ];
    assert!(matches!(
        trace_redirects("/a", &chain),
        Some(RedirectTrace::Chain { final_target, hops: 2 }) if final_target == "/c"
    ));

    let looped = vec![
        ("/a".to_string(), "/b".to_string()),
        ("/b".to_string(), "/a".to_string()),
    ];
    assert!(matches!(
        trace_redirects("/a", &looped),
        Some(RedirectTrace::Loop { at }) if at == "/a"
    ));
    assert_eq!(trace_redirects("/z", &looped).is_none(), true);
    assert_eq!(
        trace_text(trace_redirects("/a", &looped)).as_deref(),
        Some("canonical_redirect_loop|Effective canonical URL participates in a redirect loop at `/a`.")
    );
}

#[test]
fn collect_missing_image_descriptor_counts_deduplicates_images_by_url() {
    let context = SeoPageContext {
        route: Default::default(),
        document: SeoDocument {
            open_graph: Some(SeoOpenGraph {
                images: vec![
                    SeoImageAsset {
                        url: "https://cdn.example.com/a.jpg".to_string(),
                        alt: None,
                        width: Some(1200),
                        height: None,
                        mime_type: Some("image/jpeg".to_string()),
                    },
                    SeoImageAsset {
                        url: "https://cdn.example.com/b.jpg".to_string(),
                        alt: Some("Cover".to_string()),
                        width: Some(800),
                        height: Some(800),
                        mime_type: Some("image/jpeg".to_string()),
                    },
                ],
                ..SeoOpenGraph::default()
            }),
            twitter: Some(SeoTwitterCard {
                images: vec![SeoImageAsset {
                    url: "https://cdn.example.com/a.jpg".to_string(),
                    alt: Some("Already counted".to_string()),
                    width: Some(1200),
                    height: Some(630),
                    mime_type: Some("image/jpeg".to_string()),
                }],
                ..SeoTwitterCard::default()
            }),
            ..SeoDocument::default()
        },
    };

    let counts = collect_missing_image_descriptor_counts(&context);

    assert_eq!(counts, (1, 1));
}

#[test]
fn image_seo_critical_target_filter_matches_builtins() {
    assert!(is_image_seo_critical_target("page"));
    assert!(is_image_seo_critical_target("product"));
    assert!(is_image_seo_critical_target("blog_post"));
    assert!(is_image_seo_critical_target("forum_topic"));
    assert!(!is_image_seo_critical_target("forum_category"));
}
