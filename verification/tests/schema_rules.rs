use rustok_seo::dto::{SeoFieldSource, SeoSchemaBlockKind, SeoStructuredDataBlock};
use rustok_seo::json::JsonValue;
use rustok_seo::schema::{
    is_valid_structured_data_payload, schema_blocks_from_value, validate_schema_block,
};

fn text(value: &str) -> JsonValue {
    JsonValue::Str(value.to_string())
}

fn object(members: Vec<(&str, JsonValue)>) -> JsonValue {
    JsonValue::Object(members.into_iter().map(|(k, v)| (k.to_string(), v)).collect())
}

fn member<'a>(value: &'a JsonValue, key: &str) -> Option<&'a JsonValue> {
    match value {
        JsonValue::Object(members) => members.iter().find(|(k, _)| k == key).map(|(_, v)| v),
        _ => None,
    }
}

#[test]
fn schema_blocks_flatten_graph_and_keep_typed_kinds() {
    let blocks = schema_blocks_from_value(
        &object(vec![
            ("@context", text("https://schema.org")),
            (
                "@graph",
                JsonValue::Array(vec![
                    object(vec![
                        ("@id", text("#product")),
                        ("@type", text("Product")),
                        ("name", text("Demo")),
                    ]),
                    object(vec![
                        ("@type", text("BreadcrumbList")),
                        ("itemListElement", JsonValue::Array(vec![])),
                    ]),
                ]),
            ),
        ]),
        SeoFieldSource::Fallback,
    );

    assert_eq!(blocks.len(), 2);
    assert_eq!(blocks[0].id.as_deref(), Some("#product"));
    assert_eq!(blocks[0].schema_kind, SeoSchemaBlockKind::Product);
    assert_eq!(blocks[0].schema_type.as_deref(), Some("Product"));
    assert_eq!(blocks[0].kind.as_deref(), Some("Product"));
    assert_eq!(blocks[0].source, SeoFieldSource::Fallback);
    assert_eq!(blocks[1].schema_kind, SeoSchemaBlockKind::BreadcrumbList);
    assert!(matches!(
        member(&blocks[1].payload, "@context"),
        Some(JsonValue::Str(context)) if context == "https://schema.org"
    ));
}

#[test]
fn schema_blocks_ignore_non_object_json_ld_payloads() {
    let blocks = schema_blocks_from_value(&text("not-json-ld"), SeoFieldSource::Explicit);

    assert!(blocks.is_empty());
}

#[test]
fn structured_data_validation_requires_typed_blocks() {
    assert!(is_valid_structured_data_payload(&object(vec![
        ("@type", text("Product")),
        ("name", text("Demo")),
    ])));
    assert!(is_valid_structured_data_payload(&object(vec![
        ("@type", text("MerchantReturnPolicy")),
        ("name", text("Future schema type")),
    ])));
    assert!(!is_valid_structured_data_payload(&object(vec![(
        "name",
        text("Missing schema type")
    )])));
    assert!(!is_valid_structured_data_payload(&text("not-json-ld")));
}

fn block(kind: SeoSchemaBlockKind, payload: JsonValue) -> SeoStructuredDataBlock {
    let schema_type = match kind {
        SeoSchemaBlockKind::Unknown => None,
        _ => Some(kind.as_str().to_string()),
    };
    SeoStructuredDataBlock {
        id: None,
        schema_kind: kind,
        schema_type: schema_type.clone(),
        kind: schema_type,
        source: SeoFieldSource::Explicit,
        payload,
    }
}

#[test]
fn product_missing_name_emits_required_field_issue() {
    let issues = validate_schema_block(&block(
        SeoSchemaBlockKind::Product,
        object(vec![("@type", text("Product")), ("description", text("Demo"))]),
    ));
    assert!(issues.iter().any(|i| i.code == "missing_required_schema_field"));
    assert_eq!(issues.len(), 1);
}

#[test]
fn breadcrumb_list_with_non_array_item_list_element_emits_shape_error() {
    let issues = validate_schema_block(&block(
        SeoSchemaBlockKind::BreadcrumbList,
        object(vec![("@type", text("BreadcrumbList")), ("itemListElement", text("not-array"))]),
    ));
    assert!(issues.iter().any(|i| i.code == "invalid_schema_shape"));
    assert_eq!(issues.len(), 1);
}

#[test]
fn unknown_kind_emits_unsupported_payload() {
    let issues = validate_schema_block(&SeoStructuredDataBlock {
        id: None,
        schema_kind: SeoSchemaBlockKind::Unknown,
        schema_type: None,
        kind: None,
        source: SeoFieldSource::Explicit,
        payload: object(vec![("name", text("No type"))]),
    });
    assert!(issues.iter().any(|i| i.code == "unsupported_schema_source_payload"));
    assert_eq!(issues.len(), 1);
}

#[test]
fn valid_product_has_no_issues() {
    let issues = validate_schema_block(&block(
        SeoSchemaBlockKind::Product,
        object(vec![("@type", text("Product")), ("name", text("Demo"))]),
    ));
    assert!(issues.is_empty());
}

#[test]
fn faq_page_missing_main_entity_emits_required_field() {
    let issues = validate_schema_block(&block(
        SeoSchemaBlockKind::FAQPage,
        object(vec![("@type", text("FAQPage"))]),
    ));
    assert!(issues.iter().any(|i| i.code == "missing_required_schema_field"));
}

#[test]
fn faq_page_non_array_main_entity_emits_shape_error() {
    let issues = validate_schema_block(&block(
        SeoSchemaBlockKind::FAQPage,
        object(vec![("@type", text("FAQPage")), ("mainEntity", text("not-array"))]),
    ));
    assert!(issues.iter().any(|i| i.code == "invalid_schema_shape"));
}

#[test]
fn schema_kind_names_are_distinct_snake_case() {
    let kinds = [
        SeoSchemaBlockKind::Product,
        SeoSchemaBlockKind::Offer,
        SeoSchemaBlockKind::AggregateOffer,
        SeoSchemaBlockKind::AggregateRating,
        SeoSchemaBlockKind::Review,
        SeoSchemaBlockKind::BreadcrumbList,
        SeoSchemaBlockKind::ItemList,
        SeoSchemaBlockKind::Organization,
        SeoSchemaBlockKind::LocalBusiness,
        SeoSchemaBlockKind::WebSite,
        SeoSchemaBlockKind::SearchAction,
        SeoSchemaBlockKind::Article,
        SeoSchemaBlockKind::BlogPosting,
        SeoSchemaBlockKind::NewsArticle,
        SeoSchemaBlockKind::FAQPage,
        SeoSchemaBlockKind::HowTo,
        SeoSchemaBlockKind::VideoObject,
        SeoSchemaBlockKind::ImageObject,
        SeoSchemaBlockKind::DiscussionForumPosting,
        SeoSchemaBlockKind::Question,
        SeoSchemaBlockKind::Answer,
        SeoSchemaBlockKind::WebPage,
        SeoSchemaBlockKind::CollectionPage,
        SeoSchemaBlockKind::Other,
        SeoSchemaBlockKind::Unknown,
    ];
    let mut names: Vec<&str> = kinds.iter().map(|k| k.as_str()).collect();
    assert_eq!(SeoSchemaBlockKind::AggregateOffer.as_str(), "aggregate_offer");
    assert_eq!(SeoSchemaBlockKind::WebSite.as_str(), "web_site");
    assert_eq!(SeoSchemaBlockKind::FAQPage.as_str(), "faq_page");
    names.sort();
    names.dedup();
    assert_eq!(names.len(), kinds.len());
}
