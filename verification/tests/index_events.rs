use rustok_seo::events::{seo_event_key, seo_event_key_payload};
use rustok_seo::events::{
    advance_replay_mode, normalize_index_target_type, INDEX_CURSOR_REPLAY_MODE_NOT_STARTED,
    INDEX_CURSOR_REPLAY_MODE_REPAIR_ONLY, INDEX_CURSOR_REPLAY_MODE_REPLAY_COMPLETED,
    INDEX_CURSOR_REPLAY_MODE_REPLAY_REQUESTED,
};

#[test]
fn events_normalize_index_target_type_accepts_supported_values() {
    assert_eq!(
        normalize_index_target_type(Some(" content ")).expect("content target type"),
        Some("content".to_string())
    );
    assert_eq!(
        normalize_index_target_type(Some("PRODUCT")).expect("product target type"),
        Some("product".to_string())
    );
    assert_eq!(
        normalize_index_target_type(Some("   ")).expect("empty target type"),
        None
    );
}

#[test]
fn events_normalize_index_target_type_rejects_unknown_values() {
    let err = normalize_index_target_type(Some("forum"))
        .expect_err("unsupported target type should fail");
    assert!(err
        .message()
        .contains("unsupported index target_type `forum`; expected `content` or `product`"));
}

#[test]
fn replay_mode_is_forward_only() {
    assert_eq!(
        advance_replay_mode(
            INDEX_CURSOR_REPLAY_MODE_REPLAY_COMPLETED,
            INDEX_CURSOR_REPLAY_MODE_REPAIR_ONLY,
        ),
        INDEX_CURSOR_REPLAY_MODE_REPLAY_COMPLETED,
    );
    assert_eq!(
        advance_replay_mode(
            INDEX_CURSOR_REPLAY_MODE_NOT_STARTED,
            INDEX_CURSOR_REPLAY_MODE_REPLAY_REQUESTED,
        ),
        INDEX_CURSOR_REPLAY_MODE_REPLAY_REQUESTED,
    );
}

use rustok_seo::events::{seo_bulk_terminal_event, SeoDomainEvent};

#[test]
fn seo_bulk_terminal_event_uses_status_specific_variants() {
    let job_id: u128 = 42;

    let completed = seo_bulk_terminal_event(job_id, "product", "en-US", "completed", 3, 3, 0, "completed-key".to_string());
    assert!(matches!(completed, SeoDomainEvent::SeoBulkCompleted { .. }));
    assert_eq!(completed.event_type(), "seo.bulk.completed");

    let partial = seo_bulk_terminal_event(job_id, "product", "en-US", "partial", 3, 2, 1, "partial-key".to_string());
    assert!(matches!(partial, SeoDomainEvent::SeoBulkPartial { .. }));
    assert_eq!(partial.event_type(), "seo.bulk.partial");

    let failed = seo_bulk_terminal_event(job_id, "product", "en-US", "failed", 3, 0, 3, "failed-key".to_string());
    assert!(matches!(failed, SeoDomainEvent::SeoBulkFailed { .. }));
    assert_eq!(failed.event_type(), "seo.bulk.failed");
}

#[test]
fn seo_event_key_payload_joins_scope_tenant_and_parts() {
    let tenant = 0x11111111_2222_3333_4444_555555555555u128;
    let payload = seo_event_key_payload(
        "seo.meta.upserted",
        tenant,
        &vec!["page".to_string(), "en".to_string()],
    );
    assert_eq!(payload, "seo.meta.upserted|11111111-2222-3333-4444-555555555555|page|en");
    assert_eq!(seo_event_key("seo.meta.upserted", 0xabc), "seo.meta.upserted:0000000000000abc");
    assert_eq!(seo_event_key("seo.bulk", u64::MAX), "seo.bulk:ffffffffffffffff");
}

#[test]
fn seo_event_key_parts_follow_the_event_fields() {
    let meta = SeoDomainEvent::SeoMetaUpserted {
        target_kind: "page".to_string(),
        target_id: 1,
        locale: "en".to_string(),
        source: "explicit".to_string(),
        idempotency_key: String::new(),
    };
    let (scope, parts) = rustok_seo::events::seo_event_key_parts(&meta, None).expect("parts");
    assert_eq!(scope, "seo.meta.upserted");
    assert_eq!(
        parts,
        vec![
            "page".to_string(),
            "00000000-0000-0000-0000-000000000001".to_string(),
            "en".to_string(),
            "direct".to_string(),
        ]
    );
    let (_, with_ref) = rustok_seo::events::seo_event_key_parts(&meta, Some("rev-7")).expect("parts");
    assert_eq!(with_ref[3], "rev-7");

    let redirect = SeoDomainEvent::SeoRedirectUpserted {
        redirect_id: 2,
        source_pattern: "/old".to_string(),
        target_url: "/new".to_string(),
        status_code: 301,
        is_active: true,
        idempotency_key: String::new(),
    };
    let (scope, parts) = rustok_seo::events::seo_event_key_parts(&redirect, None).expect("parts");
    assert_eq!(scope, "seo.redirect.upserted");
    assert_eq!(parts[1..], ["/old".to_string(), "/new".to_string(), "301".to_string(), "true".to_string()]);

    let other = SeoDomainEvent::Other { event_type: "content.created".to_string() };
    assert!(rustok_seo::events::seo_event_key_parts(&other, None).is_none());
}
