use rustok_seo::admin::{SeoAdminTab, SeoBulkActionForm};
use rustok_seo::dto::{SeoBulkApplyMode, SeoBulkFieldPatchMode};

#[test]
fn seo_admin_tab_roundtrip_covers_control_plane_tabs() {
    assert_eq!(
        SeoAdminTab::from_str(SeoAdminTab::Bulk.as_str()),
        Some(SeoAdminTab::Bulk)
    );
    assert_eq!(
        SeoAdminTab::from_str(SeoAdminTab::Redirects.as_str()),
        Some(SeoAdminTab::Redirects)
    );
    assert_eq!(
        SeoAdminTab::from_str(SeoAdminTab::Sitemaps.as_str()),
        Some(SeoAdminTab::Sitemaps)
    );
    assert_eq!(
        SeoAdminTab::from_str(SeoAdminTab::Robots.as_str()),
        Some(SeoAdminTab::Robots)
    );
    assert_eq!(
        SeoAdminTab::from_str(SeoAdminTab::Defaults.as_str()),
        Some(SeoAdminTab::Defaults)
    );
    assert_eq!(
        SeoAdminTab::from_str(SeoAdminTab::Diagnostics.as_str()),
        Some(SeoAdminTab::Diagnostics)
    );
}

#[test]
fn bulk_action_form_validates_json_patch() {
    let mut form = SeoBulkActionForm::default();
    form.structured_data.mode = SeoBulkFieldPatchMode::SetValue;
    form.structured_data.value = "{".to_string();

    assert!(form
        .structured_data
        .build_patch()
        .expect_err("invalid json must fail")
        .contains("Invalid structured data JSON"));
}

#[test]
fn bulk_action_form_defaults_to_missing_only_remediation() {
    let form = SeoBulkActionForm::default();

    assert_eq!(form.apply_mode, SeoBulkApplyMode::ApplyMissingOnly);
}

use rustok_seo::admin::{SeoBulkFilterForm, SeoSettingsForm};
use rustok_seo::dto::{SeoModuleSettings, SeoTargetSlug, BUILTIN_SLUG_BLOG_POST};

#[test]
fn settings_form_builds_trimmed_settings_payload() {
    let mut form = SeoSettingsForm::from_settings(&SeoModuleSettings::default());
    form.default_robots = vec![
        "Index".to_string(),
        " follow ".to_string(),
        "INDEX".to_string(),
        String::new(),
    ];
    form.allowed_redirect_hosts_text = " Example.com \nexample.com\ncdn.example.com\n".to_string();
    form.allowed_canonical_hosts_text = " Blog.Example.com \n".to_string();
    form.x_default_locale = " en-US ".to_string();

    let settings = form.build_settings();
    assert_eq!(settings.default_robots, vec!["index", "follow"]);
    assert_eq!(settings.allowed_redirect_hosts, vec!["example.com", "cdn.example.com"]);
    assert_eq!(settings.allowed_canonical_hosts, vec!["blog.example.com"]);
    assert_eq!(settings.x_default_locale.as_deref(), Some("en-US"));
}

#[test]
fn bulk_filter_form_builds_single_scope_input() {
    let mut form = SeoBulkFilterForm::new(Some("ru-RU"));
    form.target_kind = SeoTargetSlug::new(BUILTIN_SLUG_BLOG_POST).expect("builtin SEO target slug");
    form.locale = " en-us ".to_string();
    form.query = " Sale ".to_string();
    form.per_page = 500;

    let input = form.build_input().expect("build bulk filter");
    assert_eq!(input.target_kind.as_str(), BUILTIN_SLUG_BLOG_POST);
    assert_eq!(input.locale, "en-us");
    assert_eq!(input.query.as_deref(), Some("Sale"));
    assert_eq!(input.per_page, 100);
}

#[test]
fn preview_bulk_action_never_requests_publish() {
    let form = SeoBulkActionForm {
        apply_mode: SeoBulkApplyMode::PreviewOnly,
        publish_after_write: true,
        ..SeoBulkActionForm::default()
    };
    let filter = SeoBulkFilterForm::new(Some("en")).build_input().expect("filter input");

    let input = form.build_apply_input(filter, &Vec::new()).expect("apply input");

    assert!(!input.publish_after_write);
}

#[test]
fn bulk_filter_form_requires_a_locale() {
    let mut form = SeoBulkFilterForm::new(None);
    form.locale = "   ".to_string();
    assert_eq!(form.build_input().expect_err("blank locale"), "Bulk locale is required");
}

use rustok_seo::admin::{active_admin_tab, bulk_apply_gate, queued_job_message};
use rustok_seo::dto::BUILTIN_SLUG_PRODUCT;

#[test]
fn control_plane_defaults_to_the_redirects_tab() {
    assert_eq!(active_admin_tab(Some("bulk")), SeoAdminTab::Bulk);
    assert_eq!(active_admin_tab(Some("nope")), SeoAdminTab::Redirects);
    assert_eq!(active_admin_tab(None), SeoAdminTab::Redirects);
}

#[test]
fn bulk_filter_switches_to_an_offered_target_kind() {
    let mut form = SeoBulkFilterForm::new(Some("en"));
    form.page = 4;
    let offered = vec![
        SeoTargetSlug::new(BUILTIN_SLUG_PRODUCT).expect("slug"),
        SeoTargetSlug::new(BUILTIN_SLUG_BLOG_POST).expect("slug"),
    ];
    assert!(form.reconcile_target_kind(&offered));
    assert_eq!(form.target_kind.as_str(), BUILTIN_SLUG_PRODUCT);
    assert_eq!(form.page, 1);
    form.page = 3;
    assert!(!form.reconcile_target_kind(&offered));
    assert_eq!(form.page, 3);
    assert!(!form.reconcile_target_kind(&Vec::new()));
}

#[test]
fn schema_fix_prefills_structured_data_only() {
    let mut form = SeoBulkActionForm::default();
    form.title.mode = SeoBulkFieldPatchMode::SetValue;
    form.prefill_schema_fix(SeoBulkApplyMode::ApplyMissingSchemaOnly, "{\"@type\":\"Product\"}".to_string());
    assert_eq!(form.apply_mode, SeoBulkApplyMode::ApplyMissingSchemaOnly);
    assert_eq!(form.structured_data.mode, SeoBulkFieldPatchMode::SetValue);
    assert_eq!(form.structured_data.value, "{\"@type\":\"Product\"}");
    assert_eq!(form.title.mode, SeoBulkFieldPatchMode::Keep);
    assert!(form.structured_data.build_patch().is_ok());
}

#[test]
fn bulk_apply_needs_a_non_empty_selection() {
    assert!(bulk_apply_gate(3).is_ok());
    assert_eq!(bulk_apply_gate(0).expect_err("empty"), "Bulk selection is empty");
    assert_eq!(queued_job_message("export", 255), "Queued bulk export job 00000000-0000-0000-0000-0000000000ff");
}

#[test]
fn bulk_action_form_defaults_keep_every_field_with_empty_values() {
    let form = SeoBulkActionForm::default();
    assert!(form.publish_after_write);
    assert!(form.import_csv.is_empty());
    for text in [
        &form.title,
        &form.description,
        &form.keywords,
        &form.canonical_url,
        &form.og_title,
        &form.og_description,
        &form.og_image,
    ] {
        assert_eq!(text.mode, rustok_seo::dto::SeoBulkFieldPatchMode::Keep);
        assert!(text.value.is_empty());
    }
    assert!(form.structured_data.value.is_empty());
    assert!(!form.noindex.value);
    assert!(!form.nofollow.value);
}
