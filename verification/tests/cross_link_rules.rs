use rustok_seo::cross_links::build_cross_link_suggestions;
use rustok_seo::dto::{SeoBulkSummaryRecord, SeoTargetSlug};

fn summary(kind: &str, route: &str, label: &str, id_suffix: u128) -> SeoBulkSummaryRecord {
    SeoBulkSummaryRecord {
        target_kind: SeoTargetSlug::new(kind).expect("valid target slug"),
        target_id: id_suffix,
        effective_locale: "en".to_string(),
        label: label.to_string(),
        route: route.to_string(),
    }
}

#[test]
fn cross_link_suggestions_are_deterministic_and_scored() {
    let suggestions = build_cross_link_suggestions(
        &vec![
            summary("page", "/guides/rust-seo", "Rust SEO Guide", 1),
            summary("blog_post", "/blog/rust-seo-checklist", "Rust SEO Checklist", 2),
            summary("product", "/products/coffee", "Coffee Beans", 3),
        ],
        2,
    );

    assert_eq!(suggestions.len(), 2);
    assert_eq!(suggestions[0].target_route, "/blog/rust-seo-checklist");
    assert_eq!(suggestions[0].destination_route, "/guides/rust-seo");
    assert_eq!(suggestions[0].anchor_hint, "Rust SEO Guide");
    assert!(suggestions[0].confidence >= 65);

    assert_eq!(suggestions[1].target_route, "/guides/rust-seo");
    assert_eq!(suggestions[1].destination_route, "/blog/rust-seo-checklist");
    assert_eq!(suggestions[1].anchor_hint, "Rust SEO Checklist");
    assert!(suggestions[1].confidence >= 65);
}

#[test]
fn cross_link_suggestions_skip_unrelated_targets() {
    let suggestions = build_cross_link_suggestions(
        &vec![
            summary("page", "/guides/rust-seo", "Rust SEO Guide", 1),
            summary("product", "/products/coffee", "Coffee Beans", 2),
        ],
        3,
    );

    assert!(suggestions.is_empty());
}

#[test]
fn cross_link_suggestions_fall_back_to_route_as_anchor() {
    let suggestions = build_cross_link_suggestions(
        &vec![
            summary("page", "/guides/rust-seo", "   ", 1),
            summary("blog_post", "/blog/rust-seo-checklist", "Rust SEO Checklist", 2),
        ],
        1,
    );
    assert!(suggestions.iter().any(|s| s.anchor_hint == "/guides/rust-seo"));
}

use rustok_seo::cross_links::{count_suggestions_for_target, sort_and_dedup_summaries};

#[test]
fn provider_listings_are_sorted_and_deduplicated() {
    let listings = sort_and_dedup_summaries(&vec![
        summary("product", "/p/b", "B", 2),
        summary("page", "/z", "Z", 9),
        summary("product", "/p/a", "A", 1),
        summary("page", "/z", "Z", 9),
        summary("page", "/z", "Z", 3),
    ]);
    let keys: Vec<(String, u128)> = listings
        .iter()
        .map(|s| (s.route.clone(), s.target_id))
        .collect();
    assert_eq!(
        keys,
        vec![
            ("/z".to_string(), 3),
            ("/z".to_string(), 9),
            ("/p/a".to_string(), 1),
            ("/p/b".to_string(), 2),
        ]
    );
}

#[test]
fn suggestion_counts_are_per_target() {
    let suggestions = build_cross_link_suggestions(
        &vec![
            summary("page", "/guides/rust-seo", "Rust SEO Guide", 1),
            summary("blog_post", "/blog/rust-seo-checklist", "Rust SEO Checklist", 2),
            summary("product", "/products/coffee", "Coffee Beans", 3),
        ],
        2,
    );
    let page = SeoTargetSlug::new("page").expect("slug");
    let product = SeoTargetSlug::new("product").expect("slug");
    assert_eq!(count_suggestions_for_target(&suggestions, &page, 1), 1);
    assert_eq!(count_suggestions_for_target(&suggestions, &product, 3), 0);
}

#[test]
fn cross_link_suggestions_never_link_a_route_to_itself() {
    let suggestions = build_cross_link_suggestions(
        &vec![
            summary("page", "/guides/rust-seo", "Rust SEO Guide", 1),
            summary("page", "/guides/rust-seo", "Rust SEO Guide copy", 4),
            summary("page", "/guides/rust", "Rust Rust Rust SEO Guide Guide", 5),
            summary("blog_post", "/blog/rust-seo-checklist", "Rust SEO Checklist", 2),
        ],
        5,
    );
    assert!(!suggestions.is_empty());
    for s in suggestions.iter() {
        assert_ne!(s.target_route, s.destination_route);
        assert!((50..=95).contains(&s.confidence), "confidence {}", s.confidence);
    }
}
