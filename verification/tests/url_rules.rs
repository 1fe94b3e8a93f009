use rustok_seo::urls::{
    build_sitemap_submission_url, normalize_sitemap_submission_endpoints,
    parse_media_id_from_url, redirect_lookup_route,
};
use uuid::Uuid;

#[test]
fn redirect_lookup_route_keeps_relative_path_and_query() {
    assert_eq!(
        redirect_lookup_route("https://example.test/en/page?x=1").as_deref(),
        Some("/en/page?x=1")
    );
    assert_eq!(redirect_lookup_route("/en/page").as_deref(), Some("/en/page"));
}

#[test]
fn redirect_lookup_route_rejects_blank_and_unparsable_values() {
    assert_eq!(redirect_lookup_route("   "), None);
    assert_eq!(redirect_lookup_route("not a url"), None);
    assert_eq!(
        redirect_lookup_route("  https://example.test  ").as_deref(),
        Some("/")
    );
}

#[test]
fn normalize_sitemap_submission_endpoints_filters_invalid_and_deduplicates() {
    let normalized = normalize_sitemap_submission_endpoints(&vec![
        " https://example.com/ping?sitemap=https://store/sitemap.xml ".to_string(),
        "ftp://example.com/not-supported".to_string(),
        "not a url".to_string(),
        "https://example.com/ping?sitemap=https://store/sitemap.xml#fragment".to_string(),
    ]);

    assert_eq!(
        normalized,
        vec!["https://example.com/ping?sitemap=https://store/sitemap.xml".to_string()]
    );
}

#[test]
fn normalize_sitemap_submission_endpoints_sorts_distinct_endpoints() {
    let normalized = normalize_sitemap_submission_endpoints(&vec![
        "https://z.example.com/ping".to_string(),
        "http://a.example.com/ping".to_string(),
        "   ".to_string(),
    ]);
    assert_eq!(
        normalized,
        vec![
            "http://a.example.com/ping".to_string(),
            "https://z.example.com/ping".to_string()
        ]
    );
}

#[test]
fn build_sitemap_submission_url_supports_placeholder_and_query_append() {
    let placeholder = build_sitemap_submission_url(
        "https://example.com/ping?source=rustok&sitemap={sitemap_url}",
        "https://store.example.com/sitemap.xml",
    )
    .expect("placeholder url");
    assert_eq!(
        placeholder,
        "https://example.com/ping?source=rustok&sitemap=https%3A%2F%2Fstore.example.com%2Fsitemap.xml"
    );

    let appended = build_sitemap_submission_url(
        "https://example.com/ping?source=rustok",
        "https://store.example.com/sitemap.xml",
    )
    .expect("query append url");
    assert_eq!(
        appended,
        "https://example.com/ping?source=rustok&sitemap=https%3A%2F%2Fstore.example.com%2Fsitemap.xml"
    );
}

#[test]
fn build_sitemap_submission_url_rejects_non_http_and_keeps_existing_sitemap() {
    let keeps_existing = build_sitemap_submission_url(
        "https://example.com/ping?sitemap=https://preset.example.com/sitemap.xml",
        "https://store.example.com/sitemap.xml",
    )
    .expect("existing sitemap");
    assert_eq!(
        keeps_existing,
        "https://example.com/ping?sitemap=https://preset.example.com/sitemap.xml"
    );

    let invalid_scheme = build_sitemap_submission_url(
        "ftp://example.com/ping",
        "https://store.example.com/sitemap.xml",
    );
    assert!(invalid_scheme.is_none());
}

#[test]
fn build_sitemap_submission_url_matches_sitemap_key_case_insensitively() {
    let kept = build_sitemap_submission_url(
        "https://example.com/ping?SiteMap=https://preset.example.com/sitemap.xml",
        "https://store.example.com/sitemap.xml",
    )
    .expect("existing sitemap");
    assert_eq!(
        kept,
        "https://example.com/ping?SiteMap=https://preset.example.com/sitemap.xml"
    );
    assert_eq!(build_sitemap_submission_url("   ", "https://store/sitemap.xml"), None);
}

#[test]
fn parse_media_id_from_url_supports_relative_absolute_and_query() {
    let media_id = Uuid::from_u128(0x5f0e_3c1a_9b7d_4e21_8a6c_0d2f_4b1e_7c93);

    assert_eq!(
        parse_media_id_from_url(format!("/api/media/{media_id}").as_str()),
        Some(media_id.as_u128())
    );
    assert_eq!(
        parse_media_id_from_url(format!("https://demo.test/api/media/{media_id}?download=1").as_str()),
        Some(media_id.as_u128())
    );
    assert_eq!(
        parse_media_id_from_url(
            format!("https://demo.test/assets/image.png?media_id={media_id}").as_str()
        ),
        Some(media_id.as_u128())
    );
    assert_eq!(parse_media_id_from_url("https://demo.test/assets/image.png"), None);
}

#[test]
fn effective_locale_prefers_the_tag_then_the_code_then_the_fallback() {
    assert_eq!(rustok_seo::routing::effective_locale(Some("en-US".into()), Some("en".into()), Some("ru-RU".into())).unwrap(), "en-US");
    assert_eq!(rustok_seo::routing::effective_locale(None, Some("en".into()), Some("ru-RU".into())).unwrap(), "en");
    assert_eq!(rustok_seo::routing::effective_locale(None, None, Some("ru-RU".into())).unwrap(), "ru-RU");
    match rustok_seo::routing::effective_locale(None, None, None) {
        Err(rustok_seo::error::SeoError::Validation(m)) => assert_eq!(m, "invalid locale"),
        other => panic!("unexpected {other:?}"),
    }
}

#[test]
fn sitemap_placeholder_is_form_urlencoded_byte_by_byte() {
    let url = build_sitemap_submission_url(
        "https://example.com/ping?sitemap={sitemap_url}",
        "https://store.example.com/a b*é~_-.xml",
    )
    .expect("placeholder url");
    assert_eq!(
        url,
        "https://example.com/ping?sitemap=https%3A%2F%2Fstore.example.com%2Fa+b*%C3%A9%7E_-.xml"
    );
}
