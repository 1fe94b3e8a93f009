use rustok_seo::dto::SeoImageAsset;
use rustok_seo::media::{fill_image_from_media, image_template_fields, media_alt_text};

#[test]
fn media_record_fills_only_missing_descriptors() {
    let mut image = SeoImageAsset {
        url: "https://cdn.test/a.png".to_string(),
        alt: Some("  ".to_string()),
        width: Some(10),
        height: None,
        mime_type: Some(" ".to_string()),
    };
    let needs_alt = fill_image_from_media(&mut image, Some(800), Some(600), "image/png".to_string());
    assert!(needs_alt);
    assert_eq!(image.width, Some(10));
    assert_eq!(image.height, Some(600));
    assert_eq!(image.mime_type.as_deref(), Some("image/png"));

    let mut described = SeoImageAsset {
        url: "https://cdn.test/b.png".to_string(),
        alt: Some("Cover".to_string()),
        width: None,
        height: None,
        mime_type: Some("image/jpeg".to_string()),
    };
    assert!(!fill_image_from_media(&mut described, None, Some(5), "image/png".to_string()));
    assert_eq!(described.mime_type.as_deref(), Some("image/jpeg"));
    assert_eq!(described.height, Some(5));
}

#[test]
fn media_alt_text_prefers_the_resolved_translation() {
    let alts = vec![None, Some("  ".to_string()), Some("Later".to_string())];
    assert_eq!(media_alt_text(Some(" Local alt "), &alts).as_deref(), Some("Local alt"));
    // The first alt present is blank, so no alt comes from the others.
    assert_eq!(media_alt_text(Some(" "), &alts), None);
    let alts = vec![None, Some(" Fallback ".to_string())];
    assert_eq!(media_alt_text(None, &alts).as_deref(), Some("Fallback"));
    assert_eq!(media_alt_text(None, &Vec::new()), None);
}

#[test]
fn image_template_fields_list_known_descriptors() {
    let image = SeoImageAsset {
        url: "https://cdn.test/a.png".to_string(),
        alt: Some(" Demo ".to_string()),
        width: Some(1200),
        height: None,
        mime_type: Some("image/png".to_string()),
    };
    let fields = image_template_fields(&image);
    assert_eq!(
        fields,
        vec![
            ("image_url".to_string(), "https://cdn.test/a.png".to_string()),
            ("image_alt".to_string(), "Demo".to_string()),
            ("image_width".to_string(), "1200".to_string()),
            ("image_mime_type".to_string(), "image/png".to_string()),
        ]
    );
}
