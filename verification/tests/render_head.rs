use rustok_seo::dto::SeoRobots;
use rustok_seo::render::robots_directives;

#[test]
fn renders_typed_robots_directives() {
    let directives = robots_directives(&SeoRobots {
        index: false,
        follow: false,
        noarchive: true,
        nosnippet: true,
        noimageindex: true,
        notranslate: true,
        max_snippet: Some(80),
        max_image_preview: Some("large".to_string()),
        max_video_preview: Some(120),
        custom: vec!["unavailable_after:25 Jun 2026 15:00:00 PST".to_string()],
    });

    assert_eq!(
        directives,
        vec![
            "noindex",
            "nofollow",
            "noarchive",
            "nosnippet",
            "noimageindex",
            "notranslate",
            "max-snippet:80",
            "max-image-preview:large",
            "max-video-preview:120",
            "unavailable_after:25 Jun 2026 15:00:00 PST",
        ]
    );
}

use rustok_seo::dto::{
    SeoAlternateLink, SeoDocument, SeoFieldSource, SeoImageAsset, SeoLinkTag, SeoMetaTag,
    SeoOpenGraph, SeoPageContext, SeoPagination, SeoRouteContext, SeoSchemaBlockKind,
    SeoStructuredDataBlock, SeoTwitterCard, SeoVerification, SeoVerificationTag,
};
use rustok_seo::json::JsonValue;
use rustok_seo::render::render_head_html;

fn text(value: &str) -> JsonValue {
    JsonValue::Str(value.to_string())
}

fn object(members: Vec<(&str, JsonValue)>) -> JsonValue {
    JsonValue::Object(members.into_iter().map(|(k, v)| (k.to_string(), v)).collect())
}

#[test]
fn renders_rich_head_html_from_context() {
    let context = SeoPageContext {
        route: SeoRouteContext {
            canonical_url: "https://example.com/products/demo".to_string(),
            alternates: vec![SeoAlternateLink {
                locale: "en-US".to_string(),
                href: "https://example.com/en-US/products/demo".to_string(),
                x_default: false,
            }],
            ..SeoRouteContext::default()
        },
        document: SeoDocument {
            title: "Demo".to_string(),
            description: Some("SEO description".to_string()),
            open_graph: Some(SeoOpenGraph {
                title: Some("OG Demo".to_string()),
                images: vec![SeoImageAsset {
                    url: "https://cdn.example.com/demo.png".to_string(),
                    alt: Some("Demo image".to_string()),
                    width: Some(1200),
                    height: Some(630),
                    mime_type: Some("image/png".to_string()),
                }],
                ..SeoOpenGraph::default()
            }),
            twitter: Some(SeoTwitterCard {
                card: Some("summary_large_image".to_string()),
                images: vec![SeoImageAsset {
                    url: "https://cdn.example.com/demo.png".to_string(),
                    ..SeoImageAsset::default()
                }],
                ..SeoTwitterCard::default()
            }),
            verification: Some(SeoVerification {
                google: vec!["google-token".to_string()],
                other: vec![SeoVerificationTag {
                    name: "p:domain_verify".to_string(),
                    value: "pinterest-token".to_string(),
                }],
                ..SeoVerification::default()
            }),
            meta_tags: vec![SeoMetaTag {
                name: Some("author".to_string()),
                property: None,
                http_equiv: None,
                content: "RusToK".to_string(),
            }],
            link_tags: vec![SeoLinkTag {
                rel: "preload".to_string(),
                href: "https://cdn.example.com/font.woff2".to_string(),
                mime_type: Some("font/woff2".to_string()),
                ..SeoLinkTag::default()
            }],
            structured_data_blocks: vec![SeoStructuredDataBlock {
                id: Some("product".to_string()),
                schema_kind: SeoSchemaBlockKind::Product,
                schema_type: Some("Product".to_string()),
                kind: Some("Product".to_string()),
                source: SeoFieldSource::Fallback,
                payload: object(vec![
                    ("@context", text("https://schema.org")),
                    ("@type", text("Product")),
                    ("name", text("Demo")),
                ]),
            }],
            ..SeoDocument::default()
        },
    };

    let head = render_head_html(&context);

    assert!(head.contains(r#"<link rel="canonical" href="https://example.com/products/demo" />"#));
    assert!(head.contains(r#"<meta name="robots" content="index, follow" />"#));
    assert!(head.contains(r#"<link rel="alternate" hreflang="en-US" href="https://example.com/en-US/products/demo" />"#));
    assert!(head.contains(r#"<meta property="og:title" content="OG Demo" />"#));
    assert!(head.contains(r#"<meta name="twitter:card" content="summary_large_image" />"#));
    assert!(head.contains(r#"<meta name="google-site-verification" content="google-token" />"#));
    assert!(head.contains(r#"<meta name="author" content="RusToK" />"#));
    assert!(head.contains(
        r#"<link rel="preload" href="https://cdn.example.com/font.woff2" type="font/woff2" />"#
    ));
    assert!(head.contains(r#"<script type="application/ld+json">{"@context":"https://schema.org","@type":"Product","name":"Demo"}</script>"#));
}

#[test]
fn renders_complex_head_combinations_with_deterministic_ordering() {
    let context = SeoPageContext {
        route: SeoRouteContext {
            canonical_url: "https://example.com/catalog".to_string(),
            alternates: vec![
                SeoAlternateLink {
                    locale: "fr-FR".to_string(),
                    href: "https://example.com/fr/catalog".to_string(),
                    x_default: false,
                },
                SeoAlternateLink {
                    locale: "en-US".to_string(),
                    href: "https://example.com/en/catalog".to_string(),
                    x_default: true,
                },
            ],
            ..SeoRouteContext::default()
        },
        document: SeoDocument {
            description: Some("Catalog metadata".to_string()),
            robots: SeoRobots {
                index: false,
                follow: true,
                ..SeoRobots::default()
            },
            verification: Some(SeoVerification {
                google: vec!["z-token".to_string(), "a-token".to_string()],
                other: vec![
                    SeoVerificationTag { name: "zeta".to_string(), value: "2".to_string() },
                    SeoVerificationTag { name: "alpha".to_string(), value: "1".to_string() },
                ],
                ..SeoVerification::default()
            }),
            pagination: Some(SeoPagination {
                prev_url: Some("https://example.com/catalog?page=1".to_string()),
                next_url: Some("https://example.com/catalog?page=3".to_string()),
            }),
            meta_tags: vec![
                SeoMetaTag {
                    name: Some("viewport".to_string()),
                    property: None,
                    http_equiv: None,
                    content: "width=device-width".to_string(),
                },
                SeoMetaTag {
                    name: Some("author".to_string()),
                    property: None,
                    http_equiv: None,
                    content: "RusToK".to_string(),
                },
            ],
            link_tags: vec![
                SeoLinkTag {
                    rel: "preload".to_string(),
                    href: "https://cdn.example.com/z.js".to_string(),
                    ..SeoLinkTag::default()
                },
                SeoLinkTag {
                    rel: "dns-prefetch".to_string(),
                    href: "https://cdn.example.com".to_string(),
                    ..SeoLinkTag::default()
                },
            ],
            structured_data_blocks: vec![
                SeoStructuredDataBlock {
                    id: Some("z-article".to_string()),
                    schema_kind: SeoSchemaBlockKind::Article,
                    schema_type: Some("Article".to_string()),
                    kind: Some("Article".to_string()),
                    source: SeoFieldSource::Explicit,
                    payload: object(vec![("@type", text("Article")), ("headline", text("Z"))]),
                },
                SeoStructuredDataBlock {
                    id: Some("a-product".to_string()),
                    schema_kind: SeoSchemaBlockKind::Product,
                    schema_type: Some("Product".to_string()),
                    kind: Some("Product".to_string()),
                    source: SeoFieldSource::Generated,
                    payload: object(vec![("@type", text("Product")), ("name", text("A"))]),
                },
            ],
            ..SeoDocument::default()
        },
    };

    let head = render_head_html(&context);

    let canonical_position = head
        .find(r#"<link rel="canonical" href="https://example.com/catalog" />"#)
        .expect("canonical tag should exist");
    let alternate_en_position = head
        .find(r#"<link rel="alternate" hreflang="en-US" href="https://example.com/en/catalog" />"#)
        .expect("en alternate should exist");
    let alternate_fr_position = head
        .find(r#"<link rel="alternate" hreflang="fr-FR" href="https://example.com/fr/catalog" />"#)
        .expect("fr alternate should exist");
    assert!(canonical_position < alternate_en_position);
    assert!(alternate_en_position < alternate_fr_position);

    let google_a_position = head
        .find(r#"<meta name="google-site-verification" content="a-token" />"#)
        .expect("a-token should exist");
    let google_z_position = head
        .find(r#"<meta name="google-site-verification" content="z-token" />"#)
        .expect("z-token should exist");
    assert!(google_a_position < google_z_position);

    let meta_author_position = head
        .find(r#"<meta name="author" content="RusToK" />"#)
        .expect("author meta should exist");
    let meta_viewport_position = head
        .find(r#"<meta name="viewport" content="width=device-width" />"#)
        .expect("viewport meta should exist");
    assert!(meta_author_position < meta_viewport_position);

    let link_dns_prefetch_position = head
        .find(r#"<link rel="dns-prefetch" href="https://cdn.example.com" />"#)
        .expect("dns-prefetch tag should exist");
    let link_preload_position = head
        .find(r#"<link rel="preload" href="https://cdn.example.com/z.js" />"#)
        .expect("preload tag should exist");
    assert!(link_dns_prefetch_position < link_preload_position);

    let script_product_position = head
        .find(r#"<script type="application/ld+json">{"@type":"Product","name":"A"}</script>"#)
        .expect("product json-ld should exist");
    let script_article_position = head
        .find(r#"<script type="application/ld+json">{"@type":"Article","headline":"Z"}</script>"#)
        .expect("article json-ld should exist");
    assert!(script_product_position < script_article_position);

    assert!(head.contains(r#"<meta name="robots" content="noindex, follow" />"#));
}

fn normalize_snapshot_tokens(mut html: String, tokens: &[&str]) -> String {
    for token in tokens {
        html = html.replace(token, "<dynamic>");
    }
    html
}

#[test]
fn renderer_snapshot_matches_expected_primary_fixture() {
    let context = SeoPageContext {
        route: SeoRouteContext {
            canonical_url: "https://example.com/page".to_string(),
            alternates: vec![SeoAlternateLink {
                locale: "en-US".to_string(),
                href: "https://example.com/en/page".to_string(),
                x_default: false,
            }],
            ..SeoRouteContext::default()
        },
        document: SeoDocument {
            description: Some("Primary description".to_string()),
            robots: SeoRobots { index: true, follow: true, ..SeoRobots::default() },
            ..SeoDocument::default()
        },
    };

    let snapshot = render_head_html(&context);
    assert_eq!(
        snapshot,
        [
            r#"<meta name="description" content="Primary description" />"#,
            r#"<link rel="canonical" href="https://example.com/page" />"#,
            r#"<meta name="robots" content="index, follow" />"#,
            r#"<link rel="alternate" hreflang="en-US" href="https://example.com/en/page" />"#,
        ]
        .join("")
    );
}

#[test]
fn parity_snapshot_comparison_can_ignore_non_deterministic_payload_values() {
    let mut base = SeoPageContext::default();
    base.route.canonical_url = "https://example.com/page".to_string();
    base.document.structured_data_blocks = vec![SeoStructuredDataBlock {
        id: Some("dynamic".to_string()),
        schema_kind: SeoSchemaBlockKind::Article,
        schema_type: Some("Article".to_string()),
        kind: Some("Article".to_string()),
        source: SeoFieldSource::Generated,
        payload: object(vec![
            ("@type", text("Article")),
            ("generatedAt", text("2026-06-07T10:00:00Z")),
            ("runId", text("run-a")),
        ]),
    }];

    let mut next = base.clone();
    next.document.structured_data_blocks[0].payload = object(vec![
        ("@type", text("Article")),
        ("generatedAt", text("2026-06-07T10:05:00Z")),
        ("runId", text("run-b")),
    ]);

    let left = normalize_snapshot_tokens(render_head_html(&base), &["run-a", "2026-06-07T10:00:00Z"]);
    let right = normalize_snapshot_tokens(render_head_html(&next), &["run-b", "2026-06-07T10:05:00Z"]);

    assert_eq!(left, right);
}

#[test]
fn head_markup_does_not_depend_on_list_order() {
    let meta = |name: &str, content: &str| SeoMetaTag {
        name: Some(name.to_string()),
        property: None,
        http_equiv: None,
        content: content.to_string(),
    };
    let link = |rel: &str, href: &str| SeoLinkTag { rel: rel.to_string(), href: href.to_string(), ..SeoLinkTag::default() };
    let alt = |locale: &str, href: &str| SeoAlternateLink { locale: locale.to_string(), href: href.to_string(), x_default: false };
    let block = |id: &str, name: &str| SeoStructuredDataBlock {
        id: Some(id.to_string()),
        schema_kind: SeoSchemaBlockKind::Article,
        schema_type: Some("Article".to_string()),
        kind: Some("Article".to_string()),
        source: SeoFieldSource::Explicit,
        payload: object(vec![("@type", text("Article")), ("headline", text(name))]),
    };
    let build = |alternates: Vec<SeoAlternateLink>,
                 meta_tags: Vec<SeoMetaTag>,
                 link_tags: Vec<SeoLinkTag>,
                 blocks: Vec<SeoStructuredDataBlock>| SeoPageContext {
        route: SeoRouteContext {
            canonical_url: "https://example.com/page".to_string(),
            alternates,
            ..SeoRouteContext::default()
        },
        document: SeoDocument {
            meta_tags,
            link_tags,
            structured_data_blocks: blocks,
            ..SeoDocument::default()
        },
    };
    let one = build(
        vec![alt("fr", "https://example.com/fr"), alt("en", "https://example.com/en"), alt("en", "https://example.com/en")],
        vec![meta("viewport", "width=device-width"), meta("author", "RusToK")],
        vec![link("preload", "https://cdn/z.js"), link("dns-prefetch", "https://cdn")],
        vec![block("z", "Z"), block("a", "A")],
    );
    let two = build(
        vec![alt("en", "https://example.com/en"), alt("en", "https://example.com/en"), alt("fr", "https://example.com/fr")],
        vec![meta("author", "RusToK"), meta("viewport", "width=device-width")],
        vec![link("dns-prefetch", "https://cdn"), link("preload", "https://cdn/z.js")],
        vec![block("a", "A"), block("z", "Z")],
    );
    assert_eq!(render_head_html(&one), render_head_html(&two));
}
