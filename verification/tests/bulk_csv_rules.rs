use rustok_seo::bulk_csv::{
    build_failure_csv, build_preview_csv, empty_csv_row, export_csv_row, parse_bulk_csv_record,
    parse_bulk_rows, read_bulk_csv, validate_csv_headers,
};
use rustok_seo::dto::{
    SeoDocumentEffectiveState, SeoMetaRecord, SeoMetaTranslationRecord, SeoTargetSlug,
    BUILTIN_SLUG_PAGE,
};
use rustok_seo::error::SeoError;
use rustok_seo::json::JsonValue;

const TARGET: u128 = 0x11111111_1111_1111_1111_111111111111;
const HEADER: &str = "target_kind,target_id,locale,title,description,keywords,canonical_url,og_title,og_description,og_image,structured_data,noindex,nofollow";

fn page_slug() -> SeoTargetSlug {
    SeoTargetSlug::new(BUILTIN_SLUG_PAGE).expect("builtin SEO target slug must stay valid")
}

#[test]
fn bulk_csv_record_accepts_valid_scope_bound_rows() {
    let csv = format!("{HEADER}\npage,11111111-1111-1111-1111-111111111111,en-US,Title,Desc,kw,/canonical,OG Title,OG Desc,https://img.test/x.jpg,\"{{\"\"@type\"\":\"\"Thing\"\"}}\",true,false\n");
    let table = read_bulk_csv(csv.as_str()).expect("read csv");
    assert_eq!(table.records.len(), 1);
    assert!(table.failure.is_none());

    let row = parse_bulk_csv_record(
        &table.records[0],
        &page_slug(),
        "en-US",
        2,
        Ok("en-US".to_string()),
    )
    .expect("parse row");
    assert_eq!(row.target_id, TARGET);
    assert_eq!(row.row_number, 2);
    assert_eq!(row.title.as_deref(), Some("Title"));
    match row.structured_data.as_ref().expect("structured data") {
        JsonValue::Object(members) => {
            assert_eq!(members.len(), 1);
            assert_eq!(members[0].0, "@type");
            assert!(matches!(&members[0].1, JsonValue::Str(s) if s == "Thing"));
        }
        other => panic!("expected an object, got {other:?}"),
    }
    assert!(row.noindex);
    assert!(!row.nofollow);
}

#[test]
fn bulk_csv_record_rejects_mismatched_scope() {
    let csv = format!("{HEADER}\nproduct,11111111-1111-1111-1111-111111111111,en-US,Title,Desc,kw,/canonical,OG Title,OG Desc,https://img.test/x.jpg,,false,false\n");
    let table = read_bulk_csv(csv.as_str()).expect("read csv");
    let err = parse_bulk_csv_record(
        &table.records[0],
        &page_slug(),
        "en-US",
        2,
        Ok("en-US".to_string()),
    )
    .expect_err("scope mismatch must fail");
    assert!(err.message().contains("target_kind"));
    assert_eq!(
        err.message(),
        "row 2 has target_kind `product` but current import scope is `page`"
    );
}

#[test]
fn bulk_csv_record_reports_locale_id_json_and_flag_errors() {
    let record = |id: &str, json: &str, flag: &str| -> Vec<String> {
        vec![
            "page", id, "en-US", "", "", "", "", "", "", "", json, flag, "",
        ]
        .into_iter()
        .map(String::from)
        .collect()
    };
    let err = parse_bulk_csv_record(&record("nope", "", ""), &page_slug(), "en-US", 3, Ok("en-US".to_string()))
        .expect_err("bad id");
    assert!(err.message().starts_with("row 3 contains invalid target_id: "));

    let good_id = "11111111-1111-1111-1111-111111111111";
    let err = parse_bulk_csv_record(&record(good_id, "", ""), &page_slug(), "en-US", 4, Ok("de-DE".to_string()))
        .expect_err("locale mismatch");
    assert_eq!(err.message(), "row 4 has locale `de-DE` but current import scope is `en-US`");

    let err = parse_bulk_csv_record(
        &record(good_id, "", ""),
        &page_slug(),
        "en-US",
        4,
        Err(SeoError::validation("invalid locale".to_string())),
    )
    .expect_err("locale error");
    assert_eq!(err.message(), "invalid locale");

    let err = parse_bulk_csv_record(&record(good_id, "{", ""), &page_slug(), "en-US", 5, Ok("en-US".to_string()))
        .expect_err("bad json");
    assert!(err.message().starts_with("row 5 contains invalid structured_data JSON: "));

    let err = parse_bulk_csv_record(&record(good_id, " ", "maybe"), &page_slug(), "en-US", 6, Ok("en-US".to_string()))
        .expect_err("bad flag");
    assert_eq!(err.message(), "row 6 contains invalid boolean `noindex` value `maybe`");

    let row = parse_bulk_csv_record(&record(good_id, " ", " YES "), &page_slug(), "en-US", 7, Ok("en-US".to_string()))
        .expect("row");
    assert!(row.noindex);
    assert!(row.structured_data.is_none());
    assert!(row.title.is_none());
}

#[test]
fn csv_headers_must_match_the_public_layout() {
    let mut headers: Vec<String> = HEADER.split(',').map(String::from).collect();
    assert!(validate_csv_headers(&headers).is_ok());
    headers[3] = "name".to_string();
    assert_eq!(
        validate_csv_headers(&headers).expect_err("bad header").message(),
        "invalid CSV header at column 4: expected `title`, got `name`"
    );
    headers.pop();
    assert_eq!(
        validate_csv_headers(&headers).expect_err("short header").message(),
        "invalid CSV header length: expected 13, got 12"
    );
    let err = read_bulk_csv("target_kind,target_id\npage,x\n").expect_err("bad file");
    assert_eq!(err.message(), "invalid CSV header length: expected 13, got 2");
}

#[test]
fn build_failure_csv_appends_error_column() {
    let csv = build_failure_csv(&vec![(empty_csv_row("page", TARGET, "en-US"), "boom".to_string())])
        .expect("build failure csv");

    assert!(csv.lines().next().unwrap_or_default().ends_with("error_message"));
    assert!(csv.contains("boom"));
}

#[test]
fn build_preview_csv_uses_public_bulk_headers() {
    let csv = build_preview_csv(&vec![empty_csv_row("page", TARGET, "en-US")])
        .expect("build preview csv");

    assert!(csv
        .lines()
        .next()
        .unwrap_or_default()
        .starts_with("target_kind,target_id,locale"));
    assert!(csv.contains("11111111-1111-1111-1111-111111111111"));
}

#[test]
fn export_csv_row_serializes_structured_data_json() {
    let row = export_csv_row(
        &page_slug(),
        TARGET,
        "en-US",
        &SeoMetaRecord {
            target_kind: page_slug(),
            target_id: TARGET,
            requested_locale: Some("en-US".to_string()),
            effective_locale: "en-US".to_string(),
            available_locales: vec!["en-US".to_string()],
            noindex: false,
            nofollow: true,
            canonical_url: Some("/canonical".to_string()),
            translation: SeoMetaTranslationRecord {
                locale: "en-US".to_string(),
                title: Some("Title".to_string()),
                description: Some("Desc".to_string()),
                keywords: Some("kw".to_string()),
                og_title: Some("OG".to_string()),
                og_description: Some("OG Desc".to_string()),
                og_image: Some("https://img.test/x.jpg".to_string()),
            },
            source: "explicit".to_string(),
            open_graph: None,
            structured_data: Some(JsonValue::Object(vec![(
                "@type".to_string(),
                JsonValue::Str("Thing".to_string()),
            )])),
            effective_state: SeoDocumentEffectiveState::default(),
        },
    );

    assert_eq!(row[1], "11111111-1111-1111-1111-111111111111");
    assert_eq!(row[10], "{\"@type\":\"Thing\"}");
    assert_eq!(row[11], "false");
    assert_eq!(row[12], "true");
}

#[test]
fn export_csv_row_writes_structured_data_through_serde_json() {
    let row = export_csv_row(
        &page_slug(),
        TARGET,
        "en-US",
        &SeoMetaRecord {
            target_kind: page_slug(),
            target_id: TARGET,
            requested_locale: Some("en-US".to_string()),
            effective_locale: "en-US".to_string(),
            available_locales: vec!["en-US".to_string()],
            noindex: false,
            nofollow: true,
            canonical_url: Some("/canonical".to_string()),
            translation: SeoMetaTranslationRecord {
                locale: "en-US".to_string(),
                title: Some("Title".to_string()),
                description: Some("Desc".to_string()),
                keywords: Some("kw".to_string()),
                og_title: Some("OG".to_string()),
                og_description: Some("OG Desc".to_string()),
                og_image: Some("https://img.test/x.jpg".to_string()),
            },
            source: "explicit".to_string(),
            open_graph: None,
            structured_data: Some(JsonValue::Object(vec![
                ("name".to_string(), JsonValue::Str("Say \"hi\"".to_string())),
                ("@type".to_string(), JsonValue::Str("Thing".to_string())),
                ("tags".to_string(), JsonValue::Array(vec![
                    JsonValue::Number("1".to_string()),
                    JsonValue::Bool(true),
                    JsonValue::Null,
                ])),
                ("price".to_string(), JsonValue::Number("19.5".to_string())),
            ])),
            effective_state: SeoDocumentEffectiveState::default(),
        },
    );

    assert_eq!(
        row[10],
        "{\"@type\":\"Thing\",\"name\":\"Say \\\"hi\\\"\",\"price\":19.5,\"tags\":[1,true,null]}"
    );
}

fn locales_for(count: usize, locale: &str) -> Vec<Result<String, SeoError>> {
    (0..count).map(|_| Ok(locale.to_string())).collect()
}

#[test]
fn bulk_rows_read_every_scope_bound_record() {
    let csv = format!("{HEADER}\npage,11111111-1111-1111-1111-111111111111,en-US,Title,Desc,kw,/canonical,OG Title,OG Desc,https://img.test/x.jpg,\"{{\"\"@type\"\":\"\"Thing\"\"}}\",true,false\npage,11111111-1111-1111-1111-111111111111,en-US,Second,,,,,,,,no,yes\n");
    let table = read_bulk_csv(&csv).expect("read csv");
    let locales = locales_for(table.records.len(), "en-US");
    let rows = parse_bulk_rows(&table, &page_slug(), "en-US", locales).expect("parse rows");
    assert_eq!(rows.len(), 2);
    assert_eq!(rows[0].row_number, 2);
    assert_eq!(rows[0].target_id, TARGET);
    assert_eq!(rows[0].title.as_deref(), Some("Title"));
    assert!(rows[0].noindex);
    assert!(!rows[0].nofollow);
    assert_eq!(rows[1].row_number, 3);
    assert_eq!(rows[1].title.as_deref(), Some("Second"));
    assert_eq!(rows[1].description, None);
    assert!(!rows[1].noindex);
    assert!(rows[1].nofollow);
}

#[test]
fn bulk_rows_stop_at_the_first_rejected_record() {
    let csv = format!("{HEADER}\npage,11111111-1111-1111-1111-111111111111,en-US,Title,,,,,,,,false,false\nproduct,11111111-1111-1111-1111-111111111111,en-US,Title,,,,,,,,false,false\npage,not-a-uuid,en-US,Title,,,,,,,,false,false\n");
    let table = read_bulk_csv(&csv).expect("read csv");
    let locales = locales_for(table.records.len(), "en-US");
    let err = parse_bulk_rows(&table, &page_slug(), "en-US", locales).expect_err("scope mismatch must fail");
    match err {
        SeoError::Validation(m) => {
            assert_eq!(m, "row 3 has target_kind `product` but current import scope is `page`")
        }
        other => panic!("unexpected error {other:?}"),
    }
}

#[test]
fn bulk_rows_pass_a_locale_error_through() {
    let csv = format!("{HEADER}\npage,11111111-1111-1111-1111-111111111111,xx,Title,,,,,,,,false,false\n");
    let table = read_bulk_csv(&csv).expect("read csv");
    let locales = vec![Err(SeoError::Validation("unsupported locale `xx`".to_string()))];
    let err = parse_bulk_rows(&table, &page_slug(), "en-US", locales).expect_err("locale must fail");
    assert!(matches!(err, SeoError::Validation(m) if m == "unsupported locale `xx`"));
}

#[test]
fn bulk_rows_report_a_record_that_could_not_be_read() {
    let csv = format!("{HEADER}\npage,11111111-1111-1111-1111-111111111111,en-US,Title,,,,,,,,false,false\npage,short\n");
    let table = read_bulk_csv(&csv).expect("read csv");
    assert_eq!(table.records.len(), 1);
    let locales = locales_for(table.records.len(), "en-US");
    let err = parse_bulk_rows(&table, &page_slug(), "en-US", locales).expect_err("read error must fail");
    match err {
        SeoError::Validation(m) => assert!(m.starts_with("failed to read CSV row 3: "), "{m}"),
        other => panic!("unexpected error {other:?}"),
    }
}
