use rustok_seo::bulk::{validate_bulk_apply, validate_bulk_patch};
use rustok_seo::bulk_jobs::{
    apply_job_artifacts, bulk_patch_meta_input, bulk_revision_note, export_job_artifacts,
    import_job_artifacts, BulkJobTally,
};
use rustok_seo::bulk_csv::BulkImportRow;
use rustok_seo::dto::{
    SeoBulkApplyInput, SeoBulkApplyMode, SeoBulkFieldPatchMode, SeoBulkJobStatus,
    SeoBulkJsonFieldPatch, SeoBulkListInput, SeoBulkMetaPatchInput, SeoBulkSelectionInput,
    SeoBulkSelectionMode, SeoBulkStringFieldPatch, SeoDocumentEffectiveState, SeoFieldSource,
    SeoFieldState, SeoMetaRecord, SeoMetaTranslationRecord, SeoTargetSlug, BUILTIN_SLUG_PAGE,
};
use rustok_seo::json::JsonValue;

fn page_slug() -> SeoTargetSlug {
    SeoTargetSlug::new(BUILTIN_SLUG_PAGE).expect("builtin SEO target slug must stay valid")
}

fn object(members: Vec<(&str, JsonValue)>) -> JsonValue {
    JsonValue::Object(members.into_iter().map(|(k, v)| (k.to_string(), v)).collect())
}

fn noop_patch() -> SeoBulkMetaPatchInput {
    SeoBulkMetaPatchInput {
        title: None,
        description: None,
        keywords: None,
        canonical_url: None,
        og_title: None,
        og_description: None,
        og_image: None,
        structured_data: None,
        noindex: None,
        nofollow: None,
    }
}

fn apply_input(apply_mode: SeoBulkApplyMode) -> SeoBulkApplyInput {
    SeoBulkApplyInput {
        selection: SeoBulkSelectionInput {
            mode: SeoBulkSelectionMode::CurrentFilterScope,
            selected_ids: Vec::new(),
            filter: Some(SeoBulkListInput {
                target_kind: page_slug(),
                locale: "en-US".to_string(),
                query: None,
                source: None,
                page: 1,
                per_page: 20,
            }),
        },
        patch: noop_patch(),
        apply_mode,
        publish_after_write: true,
    }
}

fn product_json() -> JsonValue {
    object(vec![("@type", JsonValue::Str("Product".to_string()))])
}

#[test]
fn validate_bulk_patch_rejects_empty_set_value() {
    let mut patch = noop_patch();
    patch.title = Some(SeoBulkStringFieldPatch {
        mode: SeoBulkFieldPatchMode::SetValue,
        value: Some("   ".to_string()),
    });
    let result = validate_bulk_patch(&patch);

    assert!(
        result.expect_err("empty set should be rejected").message().contains("title"),
        "validation error should mention title"
    );
}

#[test]
fn validate_bulk_patch_rejects_untyped_structured_data() {
    let mut patch = noop_patch();
    patch.structured_data = Some(SeoBulkJsonFieldPatch {
        mode: SeoBulkFieldPatchMode::SetValue,
        value: Some(object(vec![("name", JsonValue::Str("Missing type".to_string()))])),
    });
    let result = validate_bulk_patch(&patch);

    assert!(
        result
            .expect_err("untyped structured data should be rejected")
            .message()
            .contains("structured_data"),
        "validation error should mention structured_data"
    );
}

#[test]
fn validate_bulk_apply_allows_safe_noop_materialization_modes() {
    validate_bulk_apply(&apply_input(SeoBulkApplyMode::PreviewOnly))
        .expect("preview can run without patch changes");
    validate_bulk_apply(&apply_input(SeoBulkApplyMode::ApplyMissingOnly))
        .expect("missing-only materialization can run without patch changes");
    validate_bulk_apply(&apply_input(SeoBulkApplyMode::OverwriteGeneratedOnly))
        .expect("generated materialization can run without patch changes");

    let err = validate_bulk_apply(&apply_input(SeoBulkApplyMode::ForceOverwriteExplicit))
        .expect_err("force overwrite must require an explicit patch delta");
    assert!(err.message().contains("at least one field"));
}

#[test]
fn validate_bulk_apply_allows_apply_missing_schema_only_with_structured_data_only() {
    let mut input = apply_input(SeoBulkApplyMode::ApplyMissingSchemaOnly);
    input.patch.structured_data = Some(SeoBulkJsonFieldPatch {
        mode: SeoBulkFieldPatchMode::SetValue,
        value: Some(product_json()),
    });
    validate_bulk_apply(&input).expect("schema-only patch should be valid");
}

#[test]
fn validate_bulk_apply_rejects_apply_missing_schema_only_with_other_changes() {
    let mut input = apply_input(SeoBulkApplyMode::ApplyMissingSchemaOnly);
    input.patch.structured_data = Some(SeoBulkJsonFieldPatch {
        mode: SeoBulkFieldPatchMode::SetValue,
        value: Some(product_json()),
    });
    input.patch.title = Some(SeoBulkStringFieldPatch {
        mode: SeoBulkFieldPatchMode::SetValue,
        value: Some("Title".to_string()),
    });
    let err = validate_bulk_apply(&input).expect_err("mixed patch should fail");
    assert!(err.message().contains("apply_missing_schema_only"));
}

#[test]
fn validate_bulk_apply_rejects_apply_missing_schema_only_without_structured_data_change() {
    let input = apply_input(SeoBulkApplyMode::ApplyMissingSchemaOnly);
    let err = validate_bulk_apply(&input).expect_err("no schema change should fail");
    assert!(err.message().contains("structured_data"));
}

fn current_meta(source: &str, schema_source: SeoFieldSource) -> SeoMetaRecord {
    let mut state = SeoDocumentEffectiveState::default();
    state.structured_data = SeoFieldState { source: schema_source, present: true };
    SeoMetaRecord {
        target_kind: page_slug(),
        target_id: 7,
        requested_locale: None,
        effective_locale: "en".to_string(),
        available_locales: vec!["en".to_string()],
        noindex: false,
        nofollow: true,
        canonical_url: Some("/old".to_string()),
        translation: SeoMetaTranslationRecord {
            locale: "en".to_string(),
            title: Some("Old title".to_string()),
            description: Some("Old description".to_string()),
            ..SeoMetaTranslationRecord::default()
        },
        source: source.to_string(),
        open_graph: None,
        structured_data: None,
        effective_state: state,
    }
}

#[test]
fn bulk_patch_respects_apply_modes_and_patches_fields() {
    let mut patch = noop_patch();
    patch.title = Some(SeoBulkStringFieldPatch {
        mode: SeoBulkFieldPatchMode::SetValue,
        value: Some("  New title ".to_string()),
    });
    patch.canonical_url = Some(SeoBulkStringFieldPatch { mode: SeoBulkFieldPatchMode::Clear, value: None });

    let explicit = current_meta("explicit", SeoFieldSource::Fallback);
    let err = bulk_patch_meta_input(&page_slug(), 7, "en", &explicit, &patch, SeoBulkApplyMode::ApplyMissingOnly)
        .expect_err("explicit metadata is kept");
    assert_eq!(err.message(), "bulk apply mode `apply_missing_only` does not overwrite explicit SEO");

    let err = bulk_patch_meta_input(&page_slug(), 7, "en", &explicit, &patch, SeoBulkApplyMode::OverwriteGeneratedOnly)
        .expect_err("generated metadata is required");
    assert_eq!(
        err.message(),
        "bulk apply mode `overwrite_generated_only` requires generated SEO, got `explicit`"
    );

    let err = bulk_patch_meta_input(&page_slug(), 7, "en", &explicit, &patch, SeoBulkApplyMode::PreviewOnly)
        .expect_err("preview never writes");
    assert_eq!(err.message(), "bulk apply mode `preview_only` does not write SEO records");

    let schema_explicit = current_meta("generated", SeoFieldSource::Explicit);
    let err = bulk_patch_meta_input(&page_slug(), 7, "en", &schema_explicit, &patch, SeoBulkApplyMode::ApplyMissingSchemaOnly)
        .expect_err("explicit structured data is kept");
    assert!(err.message().contains("explicit structured_data"));

    let generated = current_meta("generated", SeoFieldSource::Fallback);
    let input = bulk_patch_meta_input(&page_slug(), 7, "en", &generated, &patch, SeoBulkApplyMode::OverwriteGeneratedOnly)
        .expect("generated metadata is overwritten");
    assert_eq!(input.target_id, 7);
    assert_eq!(input.canonical_url, None);
    assert!(input.nofollow);
    assert_eq!(input.translations.len(), 1);
    assert_eq!(input.translations[0].locale, "en");
    assert_eq!(input.translations[0].title.as_deref(), Some("New title"));
    assert_eq!(input.translations[0].description.as_deref(), Some("Old description"));

    let unknown = current_meta("mystery", SeoFieldSource::Fallback);
    assert!(bulk_patch_meta_input(&page_slug(), 7, "en", &unknown, &patch, SeoBulkApplyMode::ApplyMissingOnly).is_ok());
}

#[test]
fn bulk_job_tally_counts_outcomes_and_builds_reports() {
    let slug = page_slug();
    let meta = current_meta("explicit", SeoFieldSource::Fallback);
    let mut tally = BulkJobTally::new();
    let ok = tally.record_preview(&slug, 1, "en", Ok(Some(&meta)));
    assert!(ok.error_message.is_none());
    assert_eq!(ok.status(), "completed");
    let missing = tally.record_preview(&slug, 2, "en", Ok(None));
    assert_eq!(missing.error_message.as_deref(), Some("SEO target not found"));
    assert_eq!(missing.status(), "failed");
    let failed = tally.record_preview(&slug, 3, "en", Err("database down".to_string()));
    assert_eq!(failed.error_message.as_deref(), Some("database down"));
    assert_eq!(tally.succeeded, 1);
    assert_eq!(tally.failed, 2);
    assert_eq!(tally.final_status(), SeoBulkJobStatus::Partial);

    let job_id: u128 = 0xaaaaaaaa_bbbb_cccc_dddd_eeeeeeeeeeee;
    let artifacts = apply_job_artifacts(&tally, job_id).expect("reports");
    assert_eq!(artifacts.len(), 2);
    assert_eq!(artifacts[0].kind, "preview_report");
    assert_eq!(artifacts[0].file_name, "seo-bulk-preview-aaaaaaaa-bbbb-cccc-dddd-eeeeeeeeeeee.csv");
    assert_eq!(artifacts[0].mime_type, "text/csv; charset=utf-8");
    assert!(artifacts[0].content.contains("Old title"));
    assert_eq!(artifacts[1].kind, "failure_report");
    assert_eq!(artifacts[1].file_name, "seo-bulk-apply-failures-aaaaaaaa-bbbb-cccc-dddd-eeeeeeeeeeee.csv");
    assert!(artifacts[1].content.contains("database down"));

    let mut writes = BulkJobTally::new();
    let item = writes.record_apply(&slug, 4, "en", Ok(Some(3)));
    assert_eq!(item.published_revision, Some(3));
    assert_eq!(writes.final_status(), SeoBulkJobStatus::Completed);
    assert!(apply_job_artifacts(&writes, job_id).expect("no reports").is_empty());
    writes.record_apply(&slug, 5, "en", Err("boom".to_string()));
    let mut all_failed = BulkJobTally::new();
    all_failed.record_apply(&slug, 5, "en", Err("boom".to_string()));
    assert_eq!(all_failed.final_status(), SeoBulkJobStatus::Failed);
}

#[test]
fn bulk_export_and_import_reports_name_their_files() {
    let slug = page_slug();
    let meta = current_meta("explicit", SeoFieldSource::Fallback);
    let job_id: u128 = 1;
    let mut export = BulkJobTally::new();
    export.record_export(&slug, 9, "en", Ok(Some(&meta)));
    export.record_export(&slug, 10, "en", Ok(None));
    let artifacts = export_job_artifacts(&export, job_id, &slug, "en").expect("export");
    assert_eq!(artifacts.len(), 2);
    assert_eq!(artifacts[0].kind, "export_csv");
    assert_eq!(artifacts[0].file_name, "seo-bulk-export-page-en-00000000-0000-0000-0000-000000000001.csv");
    assert!(artifacts[0].content.starts_with("target_kind,target_id,locale"));
    assert!(artifacts[0].content.contains("00000000-0000-0000-0000-000000000009"));
    assert_eq!(artifacts[1].file_name, "seo-bulk-export-failures-00000000-0000-0000-0000-000000000001.csv");

    let row = BulkImportRow {
        row_number: 4,
        target_id: 11,
        title: Some("T".to_string()),
        description: None,
        keywords: None,
        canonical_url: None,
        og_title: None,
        og_description: None,
        og_image: None,
        structured_data: None,
        noindex: true,
        nofollow: false,
    };
    let mut import = BulkJobTally::new();
    import.record_import(&slug, "en", &row, Err("conflict".to_string()));
    let reports = import_job_artifacts(&import, job_id).expect("import reports");
    assert_eq!(reports.len(), 1);
    assert_eq!(reports[0].file_name, "seo-bulk-import-failures-00000000-0000-0000-0000-000000000001.csv");
    assert!(reports[0].content.contains("row 4: conflict"));
    assert_eq!(
        bulk_revision_note(job_id, "apply"),
        "bulk job 00000000-0000-0000-0000-000000000001 apply"
    );
}

