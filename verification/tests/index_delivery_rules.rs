use rustok_seo::dto::SeoIndexReplayMode;
use rustok_seo::events::{
    publish_first_step, publish_step_after_insert, DeliveryLookup, PendingInsert,
    SeoEventPublishStep, SeoIndexReindexTrigger,
};
use rustok_seo::index_delivery::{
    first_index_attempt, historical_replay_work, index_attempt_outcome, is_finished_delivery_status,
    INDEX_REPLAY_KEY_SCOPE,
    index_delivery_status_record, index_repair_replay_result, repair_replay_limit,
    is_repairable_status, replay_key_parts, reset_for_repair, touched_target_types,
    IndexDeliveryUpdate, SeoEventDeliveryRow, new_index_cursor, observe_index_cursor,
    cursor_repair_progress, cursor_replay_requested, cursor_replay_completed,
    SeoHistoricalReplayStats, SeoIndexCursorRow, SeoIndexDeliveryRow,
};

#[test]
fn index_delivery_moves_to_dead_letter_after_bounded_retries() {
    let mut attempt = first_index_attempt("pending", 0).expect("first attempt");
    assert_eq!(attempt, 1);
    let mut backoffs = Vec::new();
    loop {
        let (update, next) = index_attempt_outcome(attempt, Err("transport down".to_string()));
        match update {
            IndexDeliveryUpdate::Failed { attempts, retry_after_ms, .. } => {
                assert_eq!(attempts, attempt);
                backoffs.push(retry_after_ms);
            }
            IndexDeliveryUpdate::DeadLetter { attempts, error } => {
                assert_eq!(attempts, 3);
                assert_eq!(error, "transport down");
                assert!(next.is_none());
                break;
            }
            IndexDeliveryUpdate::Sent { .. } => panic!("nothing was published"),
        }
        attempt = next.expect("retry follows a failure");
    }
    assert_eq!(backoffs, vec![100, 200]);
}

#[test]
fn index_delivery_retry_skips_finished_or_exhausted_deliveries() {
    assert_eq!(first_index_attempt("sent", 0), None);
    assert_eq!(first_index_attempt("dead_letter", 1), None);
    assert_eq!(first_index_attempt("failed", 3), None);
    assert_eq!(first_index_attempt("failed", 2), Some(3));
    assert_eq!(first_index_attempt("failed", -4), Some(1));
    let (update, next) = index_attempt_outcome(2, Ok(99));
    assert!(matches!(update, IndexDeliveryUpdate::Sent { attempts: 2, outbox_event_id: 99 }));
    assert!(next.is_none());
}

fn delivery(status: &str, attempts: i32, updated_at: i64) -> SeoIndexDeliveryRow {
    SeoIndexDeliveryRow {
        target_type: "content".to_string(),
        target_id: Some(updated_at as u128),
        target_scope: "entity".to_string(),
        target_scope_key: format!("{updated_at}"),
        status: status.to_string(),
        attempt_count: attempts,
        last_error: Some(format!("error at {updated_at}")),
        updated_at,
    }
}

fn cursor(target_type: &str, mode: &str) -> SeoIndexCursorRow {
    SeoIndexCursorRow {
        target_type: target_type.to_string(),
        initial_cursor_at: 1,
        high_water_mark_at: 2,
        last_repair_cursor_at: None,
        replay_mode: mode.to_string(),
        replay_requested_at: None,
        replay_completed_at: None,
    }
}

#[test]
fn index_delivery_status_counts_and_samples_failures_newest_first() {
    let deliveries = vec![
        delivery("pending", 0, 1),
        delivery("sent", 1, 2),
        delivery("failed", 1, 3),
        delivery("failed", 0, 4),
        delivery("dead_letter", 3, 10),
        delivery("failed", 2, 10),
        delivery("weird", 0, 5),
    ];
    let cursors = vec![cursor("product", "replaying"), cursor("content", "bogus")];
    let status = index_delivery_status_record(Some("content".to_string()), &deliveries, &cursors);
    assert_eq!(status.pending_count, 1);
    assert_eq!(status.sent_count, 1);
    assert_eq!(status.retry_count, 2);
    assert_eq!(status.failed_count, 1);
    assert_eq!(status.dead_letter_count, 1);
    let times: Vec<i64> = status.failure_samples.iter().map(|s| s.updated_at).collect();
    assert_eq!(times, vec![10, 10, 4, 3]);
    assert_eq!(status.failure_samples[0].status, "dead_letter");
    assert_eq!(status.failure_samples[1].status, "failed");
    assert_eq!(status.cursors[0].target_type, "content");
    assert_eq!(status.cursors[0].replay_mode, SeoIndexReplayMode::NotStarted);
    assert_eq!(status.cursors[1].replay_mode, SeoIndexReplayMode::Replaying);
}

#[test]
fn repair_replay_limit_is_bounded() {
    assert_eq!(repair_replay_limit(0), 1);
    assert_eq!(repair_replay_limit(25), 25);
    assert_eq!(repair_replay_limit(10_000), 500);
}

#[test]
fn repair_replay_report_names_the_mode_of_the_run() {
    let repair_only = index_repair_replay_result(Some("product".to_string()), 50, 4, None);
    assert_eq!(repair_only.target_type.as_deref(), Some("product"));
    assert_eq!(repair_only.limit, 50);
    assert_eq!(repair_only.replay_mode, SeoIndexReplayMode::RepairOnly);
    assert_eq!(repair_only.repaired_count, 4);
    assert_eq!(repair_only.replayed_count, 0);
    assert_eq!(repair_only.historical_events_scanned, 0);
    assert_eq!(repair_only.replay_run_id, None);

    let stats = SeoHistoricalReplayStats { events_scanned: 12, replayed_count: 3, replay_run_id: Some(77) };
    let replayed = index_repair_replay_result(None, 500, 0, Some(stats));
    assert_eq!(replayed.target_type, None);
    assert_eq!(replayed.replay_mode, SeoIndexReplayMode::ReplayCompleted);
    assert_eq!(replayed.replayed_count, 3);
    assert_eq!(replayed.historical_events_scanned, 12);
    assert_eq!(replayed.replay_run_id, Some(77));
}

#[test]
fn event_publish_steps_skip_duplicates_and_never_drop_events() {
    assert_eq!(publish_first_step(false, DeliveryLookup::Found), SeoEventPublishStep::PublishUntracked);
    assert_eq!(publish_first_step(true, DeliveryLookup::Found), SeoEventPublishStep::SkipDuplicate);
    assert_eq!(publish_first_step(true, DeliveryLookup::Missing), SeoEventPublishStep::InsertPending);
    assert_eq!(publish_first_step(true, DeliveryLookup::Failed), SeoEventPublishStep::PublishUntracked);
    assert_eq!(publish_step_after_insert(PendingInsert::Inserted), SeoEventPublishStep::PublishTracked);
    assert_eq!(publish_step_after_insert(PendingInsert::Duplicate), SeoEventPublishStep::SkipDuplicate);
    assert_eq!(publish_step_after_insert(PendingInsert::Failed), SeoEventPublishStep::PublishUntracked);
}

#[test]
fn reindex_trigger_from_delivery_keeps_its_scope() {
    let row = delivery("failed", 1, 42);
    let trigger = SeoIndexReindexTrigger::from_delivery(&row);
    assert_eq!(trigger.target_type, "content");
    assert_eq!(trigger.target_id, Some(42));
    assert_eq!(trigger.target_scope, "entity");
    assert_eq!(trigger.target_scope_key, "42");
}

fn sent_event(event_type: &str, key: &str, kind: Option<&str>, id: Option<u128>) -> SeoEventDeliveryRow {
    SeoEventDeliveryRow {
        event_type: event_type.to_string(),
        idempotency_key: key.to_string(),
        source_kind: kind.map(|k| k.to_string()),
        source_id: id,
        created_at: 1,
    }
}

#[test]
fn historical_replay_work_lists_triggers_per_sent_event() {
    let events = vec![
        sent_event("seo.meta.upserted", "k1", Some("product"), Some(5)),
        sent_event("seo.sitemap.generated", "k2", None, None),
        sent_event("seo.redirect.upserted", "k3", Some("redirect"), Some(6)),
    ];
    let work = historical_replay_work(&events, None);
    let summary: Vec<(usize, String, String)> = work
        .iter()
        .map(|(i, t)| (*i, t.target_type.clone(), t.target_scope.clone()))
        .collect();
    assert_eq!(
        summary,
        vec![
            (0, "product".to_string(), "entity".to_string()),
            (2, "content".to_string(), "kind".to_string()),
            (2, "product".to_string(), "kind".to_string()),
        ]
    );
    assert_eq!(touched_target_types(&work), vec!["content".to_string(), "product".to_string()]);
    let parts = replay_key_parts(&events[0], &work[0].1);
    assert_eq!(parts[0], "k1");
    assert_eq!(parts[1], "product");
    assert_eq!(parts.len(), 3);

    let only_content = historical_replay_work(&events, Some("content"));
    assert_eq!(only_content.len(), 1);
    assert_eq!(only_content[0].0, 2);
}

#[test]
fn repair_resets_failed_and_dead_letter_deliveries() {
    assert!(is_repairable_status("failed"));
    assert!(is_repairable_status("dead_letter"));
    assert!(!is_repairable_status("sent"));
    assert!(!is_repairable_status("pending"));
    let dead = delivery("dead_letter", 3, 10);
    assert_eq!(first_index_attempt(dead.status.as_str(), dead.attempt_count), None);
    let reset = reset_for_repair(&dead, 99);
    assert_eq!(reset.status, "pending");
    assert_eq!(reset.attempt_count, 0);
    assert_eq!(reset.last_error, None);
    assert_eq!(reset.updated_at, 99);
    assert_eq!(reset.target_scope_key, dead.target_scope_key);
    assert_eq!(first_index_attempt(reset.status.as_str(), reset.attempt_count), Some(1));
}

#[test]
fn index_cursor_marks_only_move_forward() {
    let cursor = new_index_cursor("content", 100);
    assert_eq!(cursor.initial_cursor_at, 100);
    assert_eq!(cursor.high_water_mark_at, 100);
    assert_eq!(cursor.replay_mode, "not_started");
    assert_eq!(observe_index_cursor(&cursor, 90).high_water_mark_at, 100);
    let later = observe_index_cursor(&cursor, 150);
    assert_eq!(later.high_water_mark_at, 150);
    assert_eq!(later.initial_cursor_at, 100);

    let requested = cursor_replay_requested(&later, 160);
    assert_eq!(requested.replay_mode, "replay_requested");
    assert_eq!(requested.replay_requested_at, Some(160));
    let progressing = cursor_repair_progress(&requested, 120, "replaying");
    assert_eq!(progressing.replay_mode, "replaying");
    assert_eq!(progressing.last_repair_cursor_at, Some(120));
    let done = cursor_replay_completed(&progressing, 170);
    assert_eq!(done.replay_mode, "replay_completed");
    let after_repair = cursor_repair_progress(&done, 130, "repair_only");
    assert_eq!(after_repair.replay_mode, "replay_completed");
    assert_eq!(after_repair.last_repair_cursor_at, Some(130));
}

#[test]
fn repeat_replay_gives_the_same_keys_and_passes_over_finished_deliveries() {
    let events = vec![SeoEventDeliveryRow {
        event_type: "seo.meta.upserted".to_string(),
        idempotency_key: "seo.meta.upserted:00000000000000aa".to_string(),
        source_kind: Some("product".to_string()),
        source_id: Some(7),
        created_at: 10,
    }];
    let keys_of = |work: &Vec<(usize, SeoIndexReindexTrigger)>| -> Vec<String> {
        work.iter()
            .map(|(i, t)| {
                let parts = replay_key_parts(&events[*i], t);
                rustok_seo::events::seo_event_key_payload(INDEX_REPLAY_KEY_SCOPE, 1, &parts)
            })
            .collect()
    };
    let first = historical_replay_work(&events, Some("product"));
    let second = historical_replay_work(&events, Some("product"));
    assert!(!first.is_empty());
    assert_eq!(keys_of(&first), keys_of(&second));
    assert!(keys_of(&first)[0].starts_with("seo.index.replay.historical|"));

    assert!(is_finished_delivery_status("sent"));
    assert!(is_finished_delivery_status("dead_letter"));
    assert!(!is_finished_delivery_status("failed"));
    assert!(!is_finished_delivery_status("pending"));
    assert_eq!(first_index_attempt("sent", 1), None);
    assert_eq!(first_index_attempt("failed", 1), Some(2));
}
