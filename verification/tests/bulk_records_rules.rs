use rustok_seo::bulk_records::{
    bulk_item, bulk_page, bulk_page_range, map_bulk_job_model, normalize_bulk_list_input,
    SeoBulkArtifactRecord, SeoBulkJobRow,
};
use rustok_seo::dto::{
    SeoBulkJobOperationKind, SeoBulkJobStatus, SeoBulkListInput, SeoBulkSource,
    SeoBulkSummaryRecord, SeoDocumentEffectiveState, SeoMetaRecord, SeoMetaTranslationRecord,
    SeoTargetSlug, BUILTIN_SLUG_PAGE,
};
use rustok_seo::error::SeoError;
use rustok_seo::module::SeoModule;

fn page_slug() -> SeoTargetSlug {
    SeoTargetSlug::new(BUILTIN_SLUG_PAGE).expect("builtin SEO target slug must stay valid")
}

fn job_row(operation_kind: &str, status: &str, target_kind: &str) -> SeoBulkJobRow {
    SeoBulkJobRow {
        id: 11,
        operation_kind: operation_kind.to_string(),
        status: status.to_string(),
        target_kind: target_kind.to_string(),
        locale: "en".to_string(),
        publish_after_write: true,
        matched_count: 5,
        processed_count: 4,
        succeeded_count: 3,
        failed_count: 1,
        artifact_count: 2,
        last_error: Some("one failed".to_string()),
        created_at: 100,
        started_at: Some(110),
        completed_at: None,
    }
}

fn artifact(id: u128, job_id: u128, kind: &str) -> SeoBulkArtifactRecord {
    SeoBulkArtifactRecord {
        id,
        job_id,
        kind: kind.to_string(),
        file_name: format!("{kind}-{id}.csv"),
        mime_type: "text/csv; charset=utf-8".to_string(),
        created_at: id as i64,
    }
}

#[test]
fn bulk_job_record_keeps_the_job_values_and_its_own_artifacts() {
    let artifacts = vec![artifact(1, 11, "preview"), artifact(2, 12, "export"), artifact(3, 11, "failures")];
    let record = map_bulk_job_model(job_row("apply", "partial", "page"), &artifacts).expect("valid job");
    assert_eq!(record.id, 11);
    assert_eq!(record.operation_kind, SeoBulkJobOperationKind::Apply);
    assert_eq!(record.status, SeoBulkJobStatus::Partial);
    assert_eq!(record.target_kind.as_str(), "page");
    assert_eq!(record.matched_count, 5);
    assert_eq!(record.failed_count, 1);
    assert_eq!(record.last_error.as_deref(), Some("one failed"));
    assert_eq!(record.started_at, Some(110));
    assert_eq!(record.completed_at, None);
    let ids: Vec<u128> = record.artifacts.iter().map(|a| a.id).collect();
    assert_eq!(ids, vec![1, 3]);
}

#[test]
fn bulk_job_record_rejects_unknown_stored_values_in_order() {
    let none: Vec<SeoBulkArtifactRecord> = Vec::new();
    let message = |r: Result<_, SeoError>| match r {
        Err(SeoError::Validation(m)) => m,
        _ => panic!("validation error expected"),
    };
    assert_eq!(message(map_bulk_job_model(job_row("rename", "nope", "Bad Kind"), &none)), "invalid bulk operation kind");
    assert_eq!(message(map_bulk_job_model(job_row("export_csv", "nope", "Bad Kind"), &none)), "invalid bulk job status");
    assert_eq!(message(map_bulk_job_model(job_row("import_csv", "queued", "Bad Kind"), &none)), "invalid bulk target kind");
}

#[test]
fn bulk_list_filter_is_bounded_and_trimmed() {
    let input = SeoBulkListInput {
        target_kind: page_slug(),
        locale: "en-us".to_string(),
        query: Some("  Sale  ".to_string()),
        source: None,
        page: 0,
        per_page: 999,
    };
    let filter = normalize_bulk_list_input(input, Ok("en-US".to_string())).expect("normalize filter");
    assert_eq!(filter.locale, "en-US");
    assert_eq!(filter.query.as_deref(), Some("sale"));
    assert_eq!(filter.source, SeoBulkSource::Any);
    assert_eq!(filter.page, 1);
    assert_eq!(filter.per_page, 100);

    let blank = SeoBulkListInput {
        target_kind: page_slug(),
        locale: "en".to_string(),
        query: Some("   ".to_string()),
        source: Some(SeoBulkSource::Explicit),
        page: 3,
        per_page: 0,
    };
    let filter = normalize_bulk_list_input(blank, Ok("en".to_string())).expect("normalize filter");
    assert_eq!(filter.query, None);
    assert_eq!(filter.source, SeoBulkSource::Explicit);
    assert_eq!(filter.page, 3);
    assert_eq!(filter.per_page, 1);
}

#[test]
fn bulk_list_filter_passes_the_locale_error_through() {
    let input = SeoBulkListInput {
        target_kind: page_slug(),
        locale: "xx".to_string(),
        query: None,
        source: None,
        page: 1,
        per_page: 20,
    };
    let result = normalize_bulk_list_input(input, Err(SeoError::Validation("unknown locale".to_string())));
    assert!(matches!(result, Err(SeoError::Validation(m)) if m == "unknown locale"));
}

#[test]
fn bulk_page_range_skips_earlier_pages_and_stops_at_the_end() {
    assert_eq!(bulk_page_range(45, 1, 20), (0, 20));
    assert_eq!(bulk_page_range(45, 3, 20), (40, 45));
    assert_eq!(bulk_page_range(45, 4, 20), (45, 45));
    assert_eq!(bulk_page_range(0, 1, 100), (0, 0));
}

#[test]
fn bulk_item_prefers_the_record_source_and_falls_back_to_the_listing() {
    let summary = SeoBulkSummaryRecord {
        target_kind: page_slug(),
        target_id: 9,
        effective_locale: "en".to_string(),
        label: "About".to_string(),
        route: "/about".to_string(),
    };
    let mut record = SeoMetaRecord {
        target_kind: page_slug(),
        target_id: 9,
        requested_locale: Some("en".to_string()),
        effective_locale: "en".to_string(),
        available_locales: vec!["en".to_string()],
        noindex: true,
        nofollow: false,
        canonical_url: Some("https://example.com/about".to_string()),
        translation: SeoMetaTranslationRecord {
            locale: "en".to_string(),
            title: Some("About us".to_string()),
            description: None,
            ..SeoMetaTranslationRecord::default()
        },
        source: "generated".to_string(),
        open_graph: None,
        structured_data: None,
        effective_state: SeoDocumentEffectiveState::default(),
    };
    let item = bulk_item(&page_slug(), "en", &summary, SeoBulkSource::Explicit, &record);
    assert_eq!(item.source, SeoBulkSource::Generated);
    assert_eq!(item.target_id, 9);
    assert_eq!(item.label, "About");
    assert_eq!(item.route, "/about");
    assert_eq!(item.title.as_deref(), Some("About us"));
    assert_eq!(item.description, None);
    assert!(item.noindex);
    assert!(!item.nofollow);

    record.source = "stored-elsewhere".to_string();
    let item = bulk_item(&page_slug(), "en", &summary, SeoBulkSource::Explicit, &record);
    assert_eq!(item.source, SeoBulkSource::Explicit);

    let input = SeoBulkListInput {
        target_kind: page_slug(),
        locale: "en".to_string(),
        query: None,
        source: None,
        page: 2,
        per_page: 10,
    };
    let filter = normalize_bulk_list_input(input, Ok("en".to_string())).expect("normalize filter");
    let page = bulk_page(vec![item], 11, &filter);
    assert_eq!(page.items.len(), 1);
    assert_eq!(page.total, 11);
    assert_eq!(page.page, 2);
    assert_eq!(page.per_page, 10);
}

#[test]
fn seo_module_describes_itself() {
    let module = SeoModule;
    assert_eq!(module.slug(), "seo");
    assert_eq!(module.name(), "SEO");
    assert_eq!(
        module.description(),
        "SEO metadata, routing resolution, redirects, sitemaps, and robots runtime"
    );
    assert_eq!(module.dependencies(), &["content"]);
}

#[test]
fn normalize_bulk_list_input_canonicalizes_locale_and_bounds_page() {
    // "en-us" read as a locale tag is "en-US"; the fallback is "ru-RU".
    let locale = rustok_seo::routing::effective_locale(Some("en-US".to_string()), None, Some("ru-RU".to_string()));
    let filter = normalize_bulk_list_input(
        SeoBulkListInput {
            target_kind: page_slug(),
            locale: "en-us".to_string(),
            query: Some("  Sale  ".to_string()),
            source: None,
            page: 0,
            per_page: 999,
        },
        locale,
    )
    .expect("normalize filter");

    assert_eq!(filter.locale, "en-US");
    assert_eq!(filter.query.as_deref(), Some("sale"));
    assert_eq!(filter.page, 1);
    assert_eq!(filter.per_page, rustok_seo::bulk_records::MAX_BULK_PAGE_SIZE);
    assert_eq!(filter.source, SeoBulkSource::Any);
}
