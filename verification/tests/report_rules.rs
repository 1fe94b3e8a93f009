use rustok_seo::dto::{
    SeoBulkSummaryRecord, SeoDiagnosticSeverity, SeoDocumentEffectiveState, SeoFieldSource,
    SeoFieldState, SeoMetaRecord, SeoMetaTranslationRecord, SeoRedirectMatchType,
    SeoRedirectRecord, SeoTargetSlug,
};
use rustok_seo::report::{
    diagnostics_summary, fill_cross_link_counts, redirect_graph, SeoTargetDiagnosticsInput,
};

fn listing(id: u128, label: &str, route: &str) -> SeoBulkSummaryRecord {
    SeoBulkSummaryRecord {
        target_kind: SeoTargetSlug::new("page").expect("slug"),
        target_id: id,
        effective_locale: "en".to_string(),
        label: label.to_string(),
        route: route.to_string(),
    }
}

fn meta(id: u128, title: Option<&str>, description: Option<&str>, source: SeoFieldSource) -> SeoMetaRecord {
    let mut state = SeoDocumentEffectiveState::default();
    state.title = SeoFieldState { source, present: title.is_some() };
    SeoMetaRecord {
        target_kind: SeoTargetSlug::new("page").expect("slug"),
        target_id: id,
        requested_locale: Some("en".to_string()),
        effective_locale: "en".to_string(),
        available_locales: vec!["en".to_string()],
        noindex: false,
        nofollow: false,
        canonical_url: Some("/dup".to_string()),
        translation: SeoMetaTranslationRecord {
            locale: "en".to_string(),
            title: title.map(String::from),
            description: description.map(String::from),
            keywords: None,
            og_title: None,
            og_description: None,
            og_image: None,
        },
        source: "explicit".to_string(),
        open_graph: None,
        structured_data: None,
        effective_state: state,
    }
}

fn input(summary: SeoBulkSummaryRecord, meta: Option<SeoMetaRecord>) -> SeoTargetDiagnosticsInput {
    SeoTargetDiagnosticsInput {
        summary,
        meta,
        page_context: None,
        cross_link_suggestions: 0,
        sitemap_capable: false,
        in_sitemap: false,
    }
}

fn redirect(source: &str, target: &str, active: bool, match_type: SeoRedirectMatchType) -> SeoRedirectRecord {
    SeoRedirectRecord {
        id: 1,
        match_type,
        source_pattern: source.to_string(),
        target_url: target.to_string(),
        status_code: 308,
        expires_at: None,
        is_active: active,
        created_at: 0,
        updated_at: 0,
    }
}

#[test]
fn redirect_graph_keeps_active_exact_redirects_as_routes() {
    let graph = redirect_graph(&vec![
        redirect("https://shop.test/dup?x=1", "/final", true, SeoRedirectMatchType::Exact),
        redirect("/inactive", "/nowhere", false, SeoRedirectMatchType::Exact),
        redirect("/old/*", "/new", true, SeoRedirectMatchType::Wildcard),
        redirect("   ", "/blank", true, SeoRedirectMatchType::Exact),
    ]);
    assert_eq!(graph, vec![("/dup?x=1".to_string(), "/final".to_string())]);
}

#[test]
fn diagnostics_summary_reports_issues_duplicates_and_readiness() {
    let targets = vec![
        input(listing(1, "A", "/a"), Some(meta(1, Some("A"), Some("d"), SeoFieldSource::Explicit))),
        input(listing(2, "B", "/b"), Some(meta(2, None, Some("  "), SeoFieldSource::Fallback))),
        input(listing(3, "C", "/c"), None),
    ];
    let graph = vec![("/dup".to_string(), "/final".to_string())];
    let summary = diagnostics_summary("en", &targets, &graph);

    assert_eq!(summary.locale, "en");
    assert_eq!(summary.total_targets, 3);
    assert_eq!(summary.explicit_count, 1);
    assert_eq!(summary.generated_count, 0);
    assert_eq!(summary.fallback_count, 1);
    assert_eq!(summary.issue_count, 11);
    assert_eq!(summary.error_count, 3);
    assert_eq!(summary.warning_count, 5);
    assert_eq!(summary.readiness_score, 0);

    let codes: Vec<&str> = summary.issues.iter().map(|issue| issue.code.as_str()).collect();
    assert_eq!(
        codes,
        vec![
            "canonical_redirect_target",
            "cross_link_gap",
            "missing_schema",
            "canonical_redirect_target",
            "missing_title",
            "missing_description",
            "fallback_only",
            "cross_link_gap",
            "missing_schema",
            "duplicate_canonical",
            "duplicate_canonical",
        ]
    );
    assert_eq!(summary.issues[0].message, "Effective canonical URL redirects to `/final`.");
    assert_eq!(summary.issues[9].message, "Canonical URL `/dup` is used by multiple targets.");
    assert_eq!(summary.issues[9].target_id, 1);
    assert_eq!(summary.issues[10].target_id, 2);
    assert_eq!(summary.issues[4].severity, SeoDiagnosticSeverity::Error);

    let by_code: Vec<(&str, i32)> = summary
        .issue_counts_by_code
        .iter()
        .map(|count| (count.key.as_str(), count.count))
        .collect();
    assert_eq!(
        by_code,
        vec![
            ("canonical_redirect_target", 2),
            ("cross_link_gap", 2),
            ("duplicate_canonical", 2),
            ("fallback_only", 1),
            ("missing_description", 1),
            ("missing_schema", 2),
            ("missing_title", 1),
        ]
    );
    assert_eq!(summary.issue_counts_by_target_kind.len(), 1);
    assert_eq!(summary.issue_counts_by_target_kind[0].count, 11);
}

#[test]
fn diagnostics_summary_without_targets_is_fully_ready() {
    let summary = diagnostics_summary("en", &Vec::new(), &Vec::new());
    assert_eq!(summary.readiness_score, 100);
    assert_eq!(summary.issue_count, 0);
    assert!(summary.issues.is_empty());
}

#[test]
fn diagnostics_summary_scores_partial_readiness() {
    // One complete target whose only gaps are cross links and schema:
    // one info (1) and one warning (2) over a weight of 6 gives 50.
    let targets = vec![input(
        listing(1, "A", "/a"),
        Some(meta(1, Some("A"), Some("d"), SeoFieldSource::Explicit)),
    )];
    let summary = diagnostics_summary("en", &targets, &Vec::new());
    assert_eq!(summary.issue_count, 2);
    assert_eq!(summary.readiness_score, 50);
}

#[test]
fn cross_link_counts_come_from_the_locale_suggestions() {
    let summaries = vec![
        listing(1, "Rust SEO Guide", "/guides/rust-seo"),
        listing(2, "Rust SEO Checklist", "/blog/rust-seo-checklist"),
        listing(3, "Coffee Beans", "/products/coffee"),
    ];
    let inputs = vec![
        input(listing(1, "Rust SEO Guide", "/guides/rust-seo"), Some(meta(1, Some("A"), Some("d"), SeoFieldSource::Explicit))),
        input(listing(3, "Coffee Beans", "/products/coffee"), Some(meta(3, Some("C"), Some("d"), SeoFieldSource::Explicit))),
    ];
    let filled = fill_cross_link_counts(inputs, &summaries);
    assert_eq!(filled.len(), 2);
    assert_eq!(filled[0].cross_link_suggestions, 1);
    assert_eq!(filled[0].summary.target_id, 1);
    assert_eq!(filled[1].cross_link_suggestions, 0);

    let summary = diagnostics_summary("en", &filled, &Vec::new());
    let gaps: Vec<u128> = summary
        .issues
        .iter()
        .filter(|issue| issue.code == "cross_link_gap")
        .map(|issue| issue.target_id)
        .collect();
    assert_eq!(gaps, vec![3]);
    let gap = summary.issues.iter().find(|issue| issue.code == "cross_link_gap").expect("gap");
    assert_eq!(gap.severity, SeoDiagnosticSeverity::Info);
    assert!(gap.message.contains("seoCrossLinkSuggestions"));
    assert!(gap.message.contains("/api/seo/cross-link-suggestions"));
}
