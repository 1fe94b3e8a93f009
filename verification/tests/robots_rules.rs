use rustok_seo::robots::{apply_robots, normalize_robots, robots_from_directives, robots_to_directives};

fn strings(items: &[&str]) -> Vec<String> {
    items.iter().map(|s| s.to_string()).collect()
}

#[test]
fn robots_directives_read_typed_values_and_sorted_custom_tokens() {
    let robots = robots_from_directives(&strings(&[
        " NoIndex ",
        "follow",
        "zeta",
        "max-snippet:120",
        "alpha",
        "zeta",
        "",
        "max-image-preview:large",
        "max-video-preview:-1",
    ]));
    assert!(!robots.index);
    assert!(robots.follow);
    assert_eq!(robots.max_snippet, Some(120));
    assert_eq!(robots.max_image_preview.as_deref(), Some("large"));
    assert_eq!(robots.max_video_preview, Some(-1));
    assert_eq!(robots.custom, strings(&["alpha", "zeta"]));
    assert_eq!(
        robots_to_directives(&robots),
        strings(&[
            "noindex",
            "follow",
            "max-snippet:120",
            "max-image-preview:large",
            "max-video-preview:-1",
            "alpha",
            "zeta",
        ])
    );
}

#[test]
fn normalizing_robots_twice_changes_nothing() {
    let inputs = [
        strings(&["NOINDEX", " nofollow", "noarchive", "Custom-B", "custom-a", "max-snippet:+007"]),
        strings(&["max-image-preview: large ", "max-snippet:oops", "nosnippet", "notranslate"]),
        strings(&[]),
    ];
    for input in inputs.iter() {
        let once = normalize_robots(input);
        let twice = normalize_robots(&once);
        assert_eq!(once, twice);
    }
    assert_eq!(
        normalize_robots(&inputs[0]),
        strings(&["noindex", "nofollow", "noarchive", "max-snippet:7", "custom-a", "custom-b"])
    );
}

#[test]
fn applied_robots_force_noindex_and_nofollow() {
    let defaults = strings(&["index", "follow", "noarchive"]);
    let robots = apply_robots(true, false, &defaults);
    assert!(!robots.index);
    assert!(robots.follow);
    assert!(robots.noarchive);
}
