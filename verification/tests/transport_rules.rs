use rustok_seo::dto::SeoIndexRepairReplayInput;
use rustok_seo::transport::{normalize_index_repair_replay_input, normalize_index_target_type};

#[test]
fn transport_normalize_index_target_type_accepts_supported_values() {
    assert_eq!(
        normalize_index_target_type(Some(" content ".to_string())).expect("content target"),
        Some("content".to_string())
    );
    assert_eq!(
        normalize_index_target_type(Some("PRODUCT".to_string())).expect("product target"),
        Some("product".to_string())
    );
    assert_eq!(
        normalize_index_target_type(Some("   ".to_string())).expect("empty target"),
        None
    );
}

#[test]
fn transport_normalize_index_target_type_rejects_unknown_values() {
    let err = normalize_index_target_type(Some("forum".to_string()))
        .expect_err("unsupported target type must fail");
    assert_eq!(err, "Index target type must be `content` or `product`");
}

#[test]
fn normalize_index_repair_input_clamps_limit_and_normalizes_target_type() {
    let input = normalize_index_repair_replay_input(SeoIndexRepairReplayInput {
        target_type: Some(" PRODUCT ".to_string()),
        limit: 700,
        replay_historical: true,
    })
    .expect("input should normalize");

    assert_eq!(input.target_type.as_deref(), Some("product"));
    assert_eq!(input.limit, 500);
    assert!(input.replay_historical);
}
