//! Search-index deliveries: the bounded retry protocol of one delivery and
//! the status report over stored deliveries.
use vstd::prelude::*;

use crate::dto::SeoIndexReplayMode;
use crate::events::{
    delivery_triggers, index_reindex_triggers_for_delivery_event, index_retry_backoff,
    limit_delivery_error_message, parse_replay_mode, retry_backoff_ms, trigger_view,
    triggers_view, SeoIndexReindexTrigger, INDEX_RETRY_MAX_ATTEMPTS, MAX_DELIVERY_ERROR_LEN,
};
use crate::order::{index_seq, key_sort, keys_view, sort_order};
use crate::text::{
    byte_len, copy_opt, insert_sorted_unique, opt_view, sorted_unique, str_eq, strictly_sorted, views,
};

verus! {

/// A delivery waiting for its first attempt.
pub const INDEX_DELIVERY_STATUS_PENDING: &'static str = "pending";

/// A delivery whose event was published.
pub const INDEX_DELIVERY_STATUS_SENT: &'static str = "sent";

/// A delivery whose last attempt failed and that may be retried.
pub const INDEX_DELIVERY_STATUS_FAILED: &'static str = "failed";

/// A delivery that ran out of attempts.
pub const INDEX_DELIVERY_STATUS_DEAD_LETTER: &'static str = "dead_letter";

/// The number of failure samples a status report lists.
pub const MAX_FAILURE_SAMPLES: usize = 8;

// ---------------------------------------------------------------------------
// The retry protocol
// ---------------------------------------------------------------------------

/// The attempt with which a dispatch starts: none for a delivery already
/// sent or dead-lettered, or whose attempts (negative counts as none) are
/// used up; else the attempt after the recorded ones.
pub open spec fn first_attempt(status: Seq<char>, attempt_count: i32) -> Option<int> {
    let used: int = if attempt_count < 0 {
        0
    } else {
        attempt_count as int
    };
    if status == INDEX_DELIVERY_STATUS_SENT@ || status == INDEX_DELIVERY_STATUS_DEAD_LETTER@ {
        None
    } else if used < INDEX_RETRY_MAX_ATTEMPTS {
        Some(used + 1)
    } else {
        None
    }
}

/// The attempt with which the dispatch of a delivery starts (see
/// `first_attempt`).
pub fn first_index_attempt(status: &str, attempt_count: i32) -> (r: Option<i32>)
    ensures
        match r {
            Some(a) => first_attempt(status@, attempt_count) == Some(a as int),
            None => first_attempt(status@, attempt_count) is None,
        },
        r matches Some(a) ==> 1 <= a <= INDEX_RETRY_MAX_ATTEMPTS,
{
    if str_eq(status, INDEX_DELIVERY_STATUS_SENT) || str_eq(status, INDEX_DELIVERY_STATUS_DEAD_LETTER) {
        return None;
    }
    let used: i32 = if attempt_count < 0 {
        0
    } else {
        attempt_count
    };
    if used < INDEX_RETRY_MAX_ATTEMPTS {
        Some(used + 1)
    } else {
        None
    }
}

/// What to store about a delivery after an attempt.
#[derive(Clone, Debug)]
pub enum IndexDeliveryUpdate {
    /// The event was published; the delivery is sent.
    Sent { attempts: i32, outbox_event_id: u128 },
    /// The attempt failed; the delivery is retried after the backoff.
    Failed { attempts: i32, error: String, retry_after_ms: u64 },
    /// The last attempt failed; the delivery is dead-lettered.
    DeadLetter { attempts: i32, error: String },
}

/// The mathematical form of a delivery update.
pub enum DeliveryUpdate {
    Sent(int, u128),
    Failed(int, Seq<char>, nat),
    DeadLetter(int, Seq<char>),
}

impl View for IndexDeliveryUpdate {
    type V = DeliveryUpdate;

    open spec fn view(&self) -> DeliveryUpdate {
        match self {
            IndexDeliveryUpdate::Sent { attempts, outbox_event_id } => DeliveryUpdate::Sent(
                *attempts as int,
                *outbox_event_id,
            ),
            IndexDeliveryUpdate::Failed { attempts, error, retry_after_ms } => DeliveryUpdate::Failed(
                *attempts as int,
                error@,
                *retry_after_ms as nat,
            ),
            IndexDeliveryUpdate::DeadLetter { attempts, error } => DeliveryUpdate::DeadLetter(
                *attempts as int,
                error@,
            ),
        }
    }
}

/// A delivery error as stored: longer than 2048 bytes, cut to its first
/// 2048 characters.
pub open spec fn stored_error(e: Seq<char>) -> Seq<char> {
    if byte_len(e) <= MAX_DELIVERY_ERROR_LEN || e.len() <= MAX_DELIVERY_ERROR_LEN {
        e
    } else {
        e.take(MAX_DELIVERY_ERROR_LEN as int)
    }
}

/// The outcome of attempt `attempt`: a published event makes the delivery
/// sent; a failure before the last attempt is stored with the backoff and
/// followed by the next attempt; a failure of the last attempt
/// dead-letters the delivery.
pub open spec fn attempt_outcome(attempt: int, result: Result<u128, Seq<char>>) -> (DeliveryUpdate, Option<int>) {
    match result {
        Ok(id) => (DeliveryUpdate::Sent(attempt, id), None),
        Err(e) => if attempt >= INDEX_RETRY_MAX_ATTEMPTS {
            (DeliveryUpdate::DeadLetter(attempt, stored_error(e)), None)
        } else {
            (
                DeliveryUpdate::Failed(attempt, stored_error(e), retry_backoff_ms(attempt as i32)),
                Some(attempt + 1),
            )
        },
    }
}

/// The update to store after attempt `attempt` and the attempt that
/// follows, if any (see `attempt_outcome`).  `result` is the outbox event
/// id of the published event, or the text of the publishing error.
pub fn index_attempt_outcome(attempt: i32, result: Result<u128, String>) -> (r: (IndexDeliveryUpdate, Option<i32>))
    requires
        1 <= attempt <= INDEX_RETRY_MAX_ATTEMPTS,
    ensures
        (r.0@, match r.1 {
            Some(n) => Some(n as int),
            None => None,
        }) == attempt_outcome(
            attempt as int,
            match result {
                Ok(id) => Ok(id),
                Err(e) => Err(e@),
            },
        ),
        r.1 matches Some(n) ==> 1 <= n <= INDEX_RETRY_MAX_ATTEMPTS,
{
    match result {
        Ok(id) => (IndexDeliveryUpdate::Sent { attempts: attempt, outbox_event_id: id }, None),
        Err(e) => {
            let error = limit_delivery_error_message(e);
            if attempt >= INDEX_RETRY_MAX_ATTEMPTS {
                (IndexDeliveryUpdate::DeadLetter { attempts: attempt, error }, None)
            } else {
                let backoff = index_retry_backoff(attempt);
                (
                    IndexDeliveryUpdate::Failed { attempts: attempt, error, retry_after_ms: backoff },
                    Some(attempt + 1),
                )
            }
        },
    }
}

/// The attempts a dispatch makes when every attempt fails, from the given
/// attempt on.
pub open spec fn failing_attempts(from: int) -> Seq<int>
    decreases INDEX_RETRY_MAX_ATTEMPTS + 1 - from,
{
    if from < 1 || from > INDEX_RETRY_MAX_ATTEMPTS {
        Seq::empty()
    } else {
        seq![from] + failing_attempts(from + 1)
    }
}

/// Retries are bounded: when every attempt fails, a dispatch that starts
/// at attempt `a` makes the attempts `a, a + 1, ..., 3`, stores each
/// failure but the last for a retry, and dead-letters the delivery at the
/// third attempt.
pub proof fn lemma_failures_end_in_dead_letter(from: int, e: Seq<char>)
    requires
        1 <= from <= INDEX_RETRY_MAX_ATTEMPTS,
    ensures
        failing_attempts(from).len() == INDEX_RETRY_MAX_ATTEMPTS - from + 1,
        failing_attempts(from).last() == INDEX_RETRY_MAX_ATTEMPTS,
        forall|k: int|
            0 <= k < failing_attempts(from).len() - 1 ==> #[trigger] attempt_outcome(
                failing_attempts(from)[k],
                Err(e),
            ).1 == Some(failing_attempts(from)[k + 1]),
        attempt_outcome(INDEX_RETRY_MAX_ATTEMPTS as int, Err(e))
            == (DeliveryUpdate::DeadLetter(INDEX_RETRY_MAX_ATTEMPTS as int, stored_error(e)), None::<int>),
    decreases INDEX_RETRY_MAX_ATTEMPTS - from,
{
    if from < INDEX_RETRY_MAX_ATTEMPTS {
        lemma_failures_end_in_dead_letter(from + 1, e);
        let s = failing_attempts(from);
        let t = failing_attempts(from + 1);
        assert(s == seq![from] + t);
        assert forall|k: int| 0 <= k < s.len() - 1 implies #[trigger] attempt_outcome(s[k], Err(e)).1
            == Some(s[k + 1]) by {
            if k == 0 {
                assert(s[0] == from);
                assert(s[1] == t[0]);
                assert(t[0] == from + 1);
            } else {
                assert(s[k] == t[k - 1]);
                assert(s[k + 1] == t[k]);
            }
        }
    } else {
        assert(failing_attempts(from + 1) =~= Seq::<int>::empty());
        assert(failing_attempts(from) =~= seq![from]);
    }
}

/// A delivery already sent or dead-lettered is never published again.
pub proof fn lemma_finished_deliveries_are_not_retried(status: Seq<char>, attempt_count: i32)
    requires
        status == INDEX_DELIVERY_STATUS_SENT@ || status == INDEX_DELIVERY_STATUS_DEAD_LETTER@,
    ensures
        first_attempt(status, attempt_count) is None,
{
}

// ---------------------------------------------------------------------------
// The status report
// ---------------------------------------------------------------------------

/// A stored delivery, as the status report and the repair read it.  The
/// target is the 128-bit value of its UUID; the update time is a Unix
/// timestamp.
#[derive(Clone, Debug)]
pub struct SeoIndexDeliveryRow {
    pub target_type: String,
    pub target_id: Option<u128>,
    pub target_scope: String,
    pub target_scope_key: String,
    pub status: String,
    pub attempt_count: i32,
    pub last_error: Option<String>,
    pub updated_at: i64,
}

/// A failed or dead-lettered delivery shown in a status report.
#[derive(Clone, Debug)]
pub struct SeoIndexFailureSampleRecord {
    pub target_type: String,
    pub target_id: Option<u128>,
    pub status: String,
    pub attempt_count: i32,
    pub last_error: Option<String>,
    pub updated_at: i64,
}

/// The delivery counts of a status report, by status; failed deliveries
/// with attempts are retries.
#[derive(Clone, Debug)]
pub struct SeoIndexDeliveryCounts {
    pub pending_count: i32,
    pub sent_count: i32,
    pub retry_count: i32,
    pub failed_count: i32,
    pub dead_letter_count: i32,
}

/// The bucket a delivery is counted in: 0 pending, 1 sent, 2 retry,
/// 3 failed, 4 dead letter, 5 none.
pub open spec fn bucket(d: SeoIndexDeliveryRow) -> int {
    if d.status@ == INDEX_DELIVERY_STATUS_PENDING@ {
        0
    } else if d.status@ == INDEX_DELIVERY_STATUS_SENT@ {
        1
    } else if d.status@ == INDEX_DELIVERY_STATUS_FAILED@ && d.attempt_count > 0 {
        2
    } else if d.status@ == INDEX_DELIVERY_STATUS_FAILED@ {
        3
    } else if d.status@ == INDEX_DELIVERY_STATUS_DEAD_LETTER@ {
        4
    } else {
        5
    }
}

/// The number of deliveries in a bucket.
pub open spec fn bucket_count(s: Seq<SeoIndexDeliveryRow>, b: int) -> nat
    decreases s.len(),
{
    if s.len() == 0 {
        0
    } else {
        bucket_count(s.drop_last(), b) + if bucket(s.last()) == b {
            1nat
        } else {
            0nat
        }
    }
}

proof fn lemma_bucket_count_bound(s: Seq<SeoIndexDeliveryRow>, b: int)
    ensures
        bucket_count(s, b) <= s.len(),
    decreases s.len(),
{
    if s.len() > 0 {
        lemma_bucket_count_bound(s.drop_last(), b);
    }
}

/// Counts the deliveries by status (see `bucket`).
pub fn count_index_deliveries(deliveries: &Vec<SeoIndexDeliveryRow>) -> (r: SeoIndexDeliveryCounts)
    requires
        deliveries.len() <= i32::MAX,
    ensures
        r.pending_count == bucket_count(deliveries@, 0),
        r.sent_count == bucket_count(deliveries@, 1),
        r.retry_count == bucket_count(deliveries@, 2),
        r.failed_count == bucket_count(deliveries@, 3),
        r.dead_letter_count == bucket_count(deliveries@, 4),
{
    let mut c = SeoIndexDeliveryCounts {
        pending_count: 0,
        sent_count: 0,
        retry_count: 0,
        failed_count: 0,
        dead_letter_count: 0,
    };
    let mut i: usize = 0;
    while i < deliveries.len()
        invariant
            i <= deliveries.len(),
            deliveries.len() <= i32::MAX,
            c.pending_count == bucket_count(deliveries@.take(i as int), 0),
            c.sent_count == bucket_count(deliveries@.take(i as int), 1),
            c.retry_count == bucket_count(deliveries@.take(i as int), 2),
            c.failed_count == bucket_count(deliveries@.take(i as int), 3),
            c.dead_letter_count == bucket_count(deliveries@.take(i as int), 4),
        decreases deliveries.len() - i,
    {
        let d = &deliveries[i];
        proof {
            assert(deliveries@.take(i as int + 1).drop_last() =~= deliveries@.take(i as int));
            assert(deliveries@.take(i as int + 1).last() == *d);
            lemma_bucket_count_bound(deliveries@.take(i as int), 0);
            lemma_bucket_count_bound(deliveries@.take(i as int), 1);
            lemma_bucket_count_bound(deliveries@.take(i as int), 2);
            lemma_bucket_count_bound(deliveries@.take(i as int), 3);
            lemma_bucket_count_bound(deliveries@.take(i as int), 4);
        }
        let s = d.status.as_str();
        if str_eq(s, INDEX_DELIVERY_STATUS_PENDING) {
            c.pending_count = c.pending_count + 1;
        } else if str_eq(s, INDEX_DELIVERY_STATUS_SENT) {
            c.sent_count = c.sent_count + 1;
        } else if str_eq(s, INDEX_DELIVERY_STATUS_FAILED) && d.attempt_count > 0 {
            c.retry_count = c.retry_count + 1;
        } else if str_eq(s, INDEX_DELIVERY_STATUS_FAILED) {
            c.failed_count = c.failed_count + 1;
        } else if str_eq(s, INDEX_DELIVERY_STATUS_DEAD_LETTER) {
            c.dead_letter_count = c.dead_letter_count + 1;
        }
        i = i + 1;
    }
    assert(deliveries@.take(deliveries.len() as int) =~= deliveries@);
    c
}

/// Whether a delivery is failed or dead-lettered.
pub open spec fn is_failure(d: SeoIndexDeliveryRow) -> bool {
    d.status@ == INDEX_DELIVERY_STATUS_FAILED@ || d.status@ == INDEX_DELIVERY_STATUS_DEAD_LETTER@
}

/// Stable insertion by update time, newest first: after the last delivery
/// that is not older.
pub open spec fn newest_insert(s: Seq<SeoIndexDeliveryRow>, x: SeoIndexDeliveryRow) -> Seq<SeoIndexDeliveryRow>
    decreases s.len(),
{
    if s.len() == 0 {
        seq![x]
    } else if s.last().updated_at >= x.updated_at {
        s.push(x)
    } else {
        newest_insert(s.drop_last(), x).push(s.last())
    }
}

/// The failed and dead-lettered deliveries, newest first; deliveries
/// updated at the same time keep their order.
pub open spec fn failures_newest_first(s: Seq<SeoIndexDeliveryRow>) -> Seq<SeoIndexDeliveryRow>
    decreases s.len(),
{
    if s.len() == 0 {
        s
    } else if is_failure(s.last()) {
        newest_insert(failures_newest_first(s.drop_last()), s.last())
    } else {
        failures_newest_first(s.drop_last())
    }
}

/// The failure samples of a report: the first eight of
/// `failures_newest_first`.
pub open spec fn failure_samples(s: Seq<SeoIndexDeliveryRow>) -> Seq<SeoIndexDeliveryRow> {
    let f = failures_newest_first(s);
    if f.len() > MAX_FAILURE_SAMPLES {
        f.take(MAX_FAILURE_SAMPLES as int)
    } else {
        f
    }
}

/// The sample record of a delivery, field for field.
pub open spec fn is_sample_of(r: SeoIndexFailureSampleRecord, d: SeoIndexDeliveryRow) -> bool {
    &&& r.target_type@ == d.target_type@
    &&& r.target_id == d.target_id
    &&& r.status@ == d.status@
    &&& r.attempt_count == d.attempt_count
    &&& opt_view(r.last_error) == opt_view(d.last_error)
    &&& r.updated_at == d.updated_at
}

proof fn lemma_newest_insert_at(s: Seq<SeoIndexDeliveryRow>, x: SeoIndexDeliveryRow, j: int)
    requires
        0 <= j <= s.len(),
        forall|m: int| j <= m < s.len() ==> (#[trigger] s[m]).updated_at < x.updated_at,
        j == 0 || s[j - 1].updated_at >= x.updated_at,
    ensures
        newest_insert(s, x) == s.take(j).push(x) + s.skip(j),
    decreases s.len(),
{
    if s.len() == 0 {
        assert(s.take(j).push(x) + s.skip(j) =~= seq![x]);
    } else if s.last().updated_at >= x.updated_at {
        assert(j == s.len());
        assert(s.take(j).push(x) + s.skip(j) =~= s.push(x));
    } else {
        let t = s.drop_last();
        lemma_newest_insert_at(t, x, j);
        assert((t.take(j).push(x) + t.skip(j)).push(s.last()) =~= s.take(j).push(x) + s.skip(j));
    }
}

fn copy_row(d: &SeoIndexDeliveryRow) -> (r: SeoIndexDeliveryRow)
    ensures
        r == *d,
{
    SeoIndexDeliveryRow {
        target_type: d.target_type.clone(),
        target_id: d.target_id,
        target_scope: d.target_scope.clone(),
        target_scope_key: d.target_scope_key.clone(),
        status: d.status.clone(),
        attempt_count: d.attempt_count,
        last_error: copy_opt(&d.last_error),
        updated_at: d.updated_at,
    }
}

/// The failure samples of a status report (see `failure_samples`).
pub fn index_failure_samples(deliveries: &Vec<SeoIndexDeliveryRow>) -> (r: Vec<SeoIndexFailureSampleRecord>)
    ensures
        r.len() == failure_samples(deliveries@).len(),
        forall|k: int| 0 <= k < r.len() ==> is_sample_of(#[trigger] r@[k], failure_samples(deliveries@)[k]),
{
    let mut sorted: Vec<SeoIndexDeliveryRow> = Vec::new();
    let mut i: usize = 0;
    while i < deliveries.len()
        invariant
            i <= deliveries.len(),
            sorted@ == failures_newest_first(deliveries@.take(i as int)),
        decreases deliveries.len() - i,
    {
        let d = &deliveries[i];
        proof {
            assert(deliveries@.take(i as int + 1).drop_last() =~= deliveries@.take(i as int));
            assert(deliveries@.take(i as int + 1).last() == *d);
        }
        if str_eq(d.status.as_str(), INDEX_DELIVERY_STATUS_FAILED) || str_eq(
            d.status.as_str(),
            INDEX_DELIVERY_STATUS_DEAD_LETTER,
        ) {
            let ghost before = sorted@;
            let mut j: usize = sorted.len();
            while j > 0 && sorted[j - 1].updated_at < d.updated_at
                invariant
                    j <= sorted.len(),
                    sorted@ == before,
                    forall|m: int| j <= m < before.len() ==> (#[trigger] before[m]).updated_at < d.updated_at,
                decreases j,
            {
                j = j - 1;
            }
            proof {
                lemma_newest_insert_at(before, *d, j as int);
            }
            sorted.insert(j, copy_row(d));
            assert(sorted@ =~= before.take(j as int).push(*d) + before.skip(j as int));
        }
        i = i + 1;
    }
    assert(deliveries@.take(deliveries.len() as int) =~= deliveries@);
    let ghost samples = failure_samples(deliveries@);
    let n: usize = if sorted.len() > MAX_FAILURE_SAMPLES {
        MAX_FAILURE_SAMPLES
    } else {
        sorted.len()
    };
    let mut r: Vec<SeoIndexFailureSampleRecord> = Vec::new();
    let mut k: usize = 0;
    while k < n
        invariant
            k <= n,
            n <= sorted.len(),
            n == samples.len(),
            samples == failure_samples(deliveries@),
            sorted@ == failures_newest_first(deliveries@),
            r.len() == k,
            forall|m: int| 0 <= m < k ==> is_sample_of(#[trigger] r@[m], samples[m]),
        decreases n - k,
    {
        let d = &sorted[k];
        assert(samples[k as int] == sorted@[k as int]);
        r.push(
            SeoIndexFailureSampleRecord {
                target_type: d.target_type.clone(),
                target_id: d.target_id,
                status: d.status.clone(),
                attempt_count: d.attempt_count,
                last_error: copy_opt(&d.last_error),
                updated_at: d.updated_at,
            },
        );
        k = k + 1;
    }
    r
}


/// A stored replay cursor of a target type, as the status report reads
/// it; times are Unix timestamps.
#[derive(Clone, Debug)]
pub struct SeoIndexCursorRow {
    pub target_type: String,
    pub initial_cursor_at: i64,
    pub high_water_mark_at: i64,
    pub last_repair_cursor_at: Option<i64>,
    pub replay_mode: String,
    pub replay_requested_at: Option<i64>,
    pub replay_completed_at: Option<i64>,
}

/// The replay cursor of a target type in a status report.
#[derive(Clone, Debug)]
pub struct SeoIndexCursorRecord {
    pub target_type: String,
    pub initial_cursor_at: i64,
    pub high_water_mark_at: i64,
    pub last_repair_cursor_at: Option<i64>,
    pub replay_mode: SeoIndexReplayMode,
    pub replay_requested_at: Option<i64>,
    pub replay_completed_at: Option<i64>,
}

/// The delivery status of a tenant, optionally for one target type.
#[derive(Clone, Debug)]
pub struct SeoIndexDeliveryStatusRecord {
    pub target_type: Option<String>,
    pub pending_count: i32,
    pub sent_count: i32,
    pub retry_count: i32,
    pub failed_count: i32,
    pub dead_letter_count: i32,
    pub cursors: Vec<SeoIndexCursorRecord>,
    pub failure_samples: Vec<SeoIndexFailureSampleRecord>,
}

/// The replay mode a stored name denotes; unknown names are `NotStarted`.
pub open spec fn replay_mode_of(s: Seq<char>) -> SeoIndexReplayMode {
    match SeoIndexReplayMode::from_wire(s) {
        Some(m) => m,
        None => SeoIndexReplayMode::NotStarted,
    }
}

/// The report record of a cursor, field for field, its mode parsed.
pub open spec fn is_cursor_of(r: SeoIndexCursorRecord, c: SeoIndexCursorRow) -> bool {
    &&& r.target_type@ == c.target_type@
    &&& r.initial_cursor_at == c.initial_cursor_at
    &&& r.high_water_mark_at == c.high_water_mark_at
    &&& r.last_repair_cursor_at == c.last_repair_cursor_at
    &&& r.replay_mode == replay_mode_of(c.replay_mode@)
    &&& r.replay_requested_at == c.replay_requested_at
    &&& r.replay_completed_at == c.replay_completed_at
}

/// The sort keys of cursors: their target types.
pub open spec fn cursor_keys(c: Seq<SeoIndexCursorRow>) -> Seq<Seq<Seq<char>>> {
    c.map_values(|x: SeoIndexCursorRow| seq![x.target_type@])
}

/// The delivery status report over stored deliveries and cursors: the
/// counts by status (see `bucket`), the cursors in ascending target type
/// order (equal types keep their order), and the failure samples (see
/// `failure_samples`).
pub fn index_delivery_status_record(
    target_type: Option<String>,
    deliveries: &Vec<SeoIndexDeliveryRow>,
    cursors: &Vec<SeoIndexCursorRow>,
) -> (r: SeoIndexDeliveryStatusRecord)
    requires
        deliveries.len() <= i32::MAX,
    ensures
        r.target_type == target_type,
        r.pending_count == bucket_count(deliveries@, 0),
        r.sent_count == bucket_count(deliveries@, 1),
        r.retry_count == bucket_count(deliveries@, 2),
        r.failed_count == bucket_count(deliveries@, 3),
        r.dead_letter_count == bucket_count(deliveries@, 4),
        r.cursors.len() == cursors.len(),
        forall|k: int|
            0 <= k < r.cursors.len() ==> is_cursor_of(
                #[trigger] r.cursors@[k],
                cursors@[key_sort(cursor_keys(cursors@), cursors.len() as int)[k]],
            ),
        r.failure_samples.len() == failure_samples(deliveries@).len(),
        forall|k: int|
            0 <= k < r.failure_samples.len() ==> is_sample_of(
                #[trigger] r.failure_samples@[k],
                failure_samples(deliveries@)[k],
            ),
{
    let counts = count_index_deliveries(deliveries);
    let samples = index_failure_samples(deliveries);
    let mut keys: Vec<Vec<String>> = Vec::new();
    let mut i: usize = 0;
    while i < cursors.len()
        invariant
            i <= cursors.len(),
            keys_view(keys@) == cursor_keys(cursors@).take(i as int),
        decreases cursors.len() - i,
    {
        let mut k: Vec<String> = Vec::new();
        k.push(cursors[i].target_type.clone());
        let ghost prev = keys@;
        assert(views(k@) =~= seq![cursors@[i as int].target_type@]);
        keys.push(k);
        proof {
            assert(keys_view(keys@) =~= keys_view(prev).push(seq![cursors@[i as int].target_type@]));
            assert(cursor_keys(cursors@).take(i as int + 1) =~= cursor_keys(cursors@).take(i as int).push(
                seq![cursors@[i as int].target_type@],
            ));
        }
        i = i + 1;
    }
    assert(cursor_keys(cursors@).take(cursors.len() as int) =~= cursor_keys(cursors@));
    let order = sort_order(&keys);
    let ghost ord = key_sort(cursor_keys(cursors@), cursors.len() as int);
    let mut out: Vec<SeoIndexCursorRecord> = Vec::new();
    let mut j: usize = 0;
    while j < order.len()
        invariant
            j <= order.len(),
            order.len() == cursors.len(),
            index_seq(order@) == ord,
            forall|k: int| 0 <= k < order.len() ==> #[trigger] order@[k] < cursors.len(),
            out.len() == j,
            forall|k: int| 0 <= k < j ==> is_cursor_of(#[trigger] out@[k], cursors@[ord[k]]),
        decreases order.len() - j,
    {
        let c = &cursors[order[j]];
        assert(ord[j as int] == order@[j as int] as int);
        out.push(
            SeoIndexCursorRecord {
                target_type: c.target_type.clone(),
                initial_cursor_at: c.initial_cursor_at,
                high_water_mark_at: c.high_water_mark_at,
                last_repair_cursor_at: c.last_repair_cursor_at,
                replay_mode: parse_replay_mode(c.replay_mode.as_str()),
                replay_requested_at: c.replay_requested_at,
                replay_completed_at: c.replay_completed_at,
            },
        );
        j = j + 1;
    }
    SeoIndexDeliveryStatusRecord {
        target_type,
        pending_count: counts.pending_count,
        sent_count: counts.sent_count,
        retry_count: counts.retry_count,
        failed_count: counts.failed_count,
        dead_letter_count: counts.dead_letter_count,
        cursors: out,
        failure_samples: samples,
    }
}


// ---------------------------------------------------------------------------
// Operator repair and replay runs
// ---------------------------------------------------------------------------

/// The most deliveries or events an operator run handles.
pub const INDEX_REPAIR_MAX_LIMIT: usize = 500;

/// The batch size of an operator run: the requested one, between 1 and 500.
pub fn repair_replay_limit(limit: usize) -> (r: usize)
    ensures
        r == if limit < 1 {
            1
        } else if limit > INDEX_REPAIR_MAX_LIMIT {
            INDEX_REPAIR_MAX_LIMIT
        } else {
            limit
        },
{
    if limit < 1 {
        1
    } else if limit > INDEX_REPAIR_MAX_LIMIT {
        INDEX_REPAIR_MAX_LIMIT
    } else {
        limit
    }
}

/// What a historical replay did: the events it looked at, the transitions
/// it replayed, and the run it was recorded under.
#[derive(Clone, Debug)]
pub struct SeoHistoricalReplayStats {
    pub events_scanned: usize,
    pub replayed_count: usize,
    /// The run, as the 128-bit value of its UUID.
    pub replay_run_id: Option<u128>,
}

/// The report of an operator repair and replay run.
#[derive(Clone, Debug)]
pub struct SeoIndexRepairReplayResultRecord {
    pub target_type: Option<String>,
    pub limit: i32,
    pub replay_mode: SeoIndexReplayMode,
    pub repaired_count: i32,
    pub replayed_count: i32,
    pub historical_events_scanned: i32,
    pub replay_run_id: Option<u128>,
}

/// The report of a run over `target_type` with batch size `limit`: the
/// deliveries repaired, and, when a historical replay was asked for, what it
/// did; the mode is `replay_completed` after a replay, else `repair_only`.
pub fn index_repair_replay_result(
    target_type: Option<String>,
    limit: usize,
    repaired_count: usize,
    replay: Option<SeoHistoricalReplayStats>,
) -> (r: SeoIndexRepairReplayResultRecord)
    requires
        limit <= INDEX_REPAIR_MAX_LIMIT,
        repaired_count <= i32::MAX,
        replay matches Some(s) ==> s.replayed_count <= i32::MAX && s.events_scanned <= i32::MAX,
    ensures
        opt_view(r.target_type) == opt_view(target_type),
        r.limit == limit,
        r.repaired_count == repaired_count,
        match replay {
            Some(s) => {
                &&& r.replay_mode == SeoIndexReplayMode::ReplayCompleted
                &&& r.replayed_count == s.replayed_count
                &&& r.historical_events_scanned == s.events_scanned
                &&& r.replay_run_id == s.replay_run_id
            },
            None => {
                &&& r.replay_mode == SeoIndexReplayMode::RepairOnly
                &&& r.replayed_count == 0
                &&& r.historical_events_scanned == 0
                &&& r.replay_run_id is None
            },
        },
{
    let (mode, replayed, scanned, run) = match replay {
        Some(s) => (SeoIndexReplayMode::ReplayCompleted, s.replayed_count as i32, s.events_scanned as i32, s.replay_run_id),
        None => (SeoIndexReplayMode::RepairOnly, 0i32, 0i32, None),
    };
    SeoIndexRepairReplayResultRecord {
        target_type,
        limit: limit as i32,
        replay_mode: mode,
        repaired_count: repaired_count as i32,
        replayed_count: replayed,
        historical_events_scanned: scanned,
        replay_run_id: run,
    }
}


// ---------------------------------------------------------------------------
// Historical replay
// ---------------------------------------------------------------------------

/// A sent event delivery, as the historical replay reads it.  The source
/// is the 128-bit value of its UUID; the creation time a Unix timestamp.
#[derive(Clone, Debug)]
pub struct SeoEventDeliveryRow {
    pub event_type: String,
    pub idempotency_key: String,
    pub source_kind: Option<String>,
    pub source_id: Option<u128>,
    pub created_at: i64,
}

/// The re-index triggers of a sent delivery.
pub open spec fn row_triggers(e: SeoEventDeliveryRow, filter: Option<Seq<char>>) -> Seq<(Seq<char>, Option<u128>, Seq<char>, Seq<char>)> {
    delivery_triggers(e.event_type@, opt_view(e.source_kind), e.source_id, filter)
}

/// The work of a historical replay: the triggers of each delivery in
/// order, each paired with the position of its delivery.
pub open spec fn replay_work(events: Seq<SeoEventDeliveryRow>, filter: Option<Seq<char>>) -> Seq<(int, (Seq<char>, Option<u128>, Seq<char>, Seq<char>))>
    decreases events.len(),
{
    if events.len() == 0 {
        Seq::empty()
    } else {
        let i = events.len() - 1;
        replay_work(events.drop_last(), filter) + row_triggers(events.last(), filter).map_values(
            |t: (Seq<char>, Option<u128>, Seq<char>, Seq<char>)| (i, t),
        )
    }
}

/// The mathematical form of replay work items.
pub open spec fn work_view(v: Seq<(usize, SeoIndexReindexTrigger)>) -> Seq<(int, (Seq<char>, Option<u128>, Seq<char>, Seq<char>))> {
    v.map_values(|p: (usize, SeoIndexReindexTrigger)| (p.0 as int, trigger_view(p.1)))
}

/// The work of a historical replay over sent deliveries (see
/// `replay_work`), for one target type or for all.
pub fn historical_replay_work(events: &Vec<SeoEventDeliveryRow>, target_type: Option<&str>) -> (r: Vec<(usize, SeoIndexReindexTrigger)>)
    ensures
        work_view(r@) == replay_work(
            events@,
            match target_type {
                Some(t) => Some(t@),
                None => None,
            },
        ),
{
    let ghost filter = match target_type {
        Some(t) => Some(t@),
        None => None,
    };
    let mut work: Vec<(usize, SeoIndexReindexTrigger)> = Vec::new();
    let mut i: usize = 0;
    while i < events.len()
        invariant
            i <= events.len(),
            filter == match target_type {
                Some(t) => Some(t@),
                None => None::<Seq<char>>,
            },
            work_view(work@) == replay_work(events@.take(i as int), filter),
        decreases events.len() - i,
    {
        let e = &events[i];
        let kind: Option<&str> = match &e.source_kind {
            Some(k) => Some(k.as_str()),
            None => None,
        };
        let triggers = index_reindex_triggers_for_delivery_event(e.event_type.as_str(), kind, e.source_id, target_type);
        let ghost base = work_view(work@);
        let ghost ts = row_triggers(*e, filter);
        proof {
            assert(match kind {
                Some(k) => Some(k@),
                None => None::<Seq<char>>,
            } == opt_view(e.source_kind));
            assert(triggers_view(triggers@) == ts);
        }
        let mut j: usize = 0;
        while j < triggers.len()
            invariant
                j <= triggers.len(),
                i < events.len(),
                triggers_view(triggers@) == ts,
                work_view(work@) == base + ts.take(j as int).map_values(
                    |t: (Seq<char>, Option<u128>, Seq<char>, Seq<char>)| (i as int, t),
                ),
            decreases triggers.len() - j,
        {
            let t = triggers[j].clone_trigger();
            let ghost before = work@;
            work.push((i, t));
            proof {
                assert(ts[j as int] == trigger_view(triggers@[j as int]));
                assert(work_view(work@) =~= work_view(before).push((i as int, ts[j as int])));
                assert(ts.take(j as int + 1).map_values(
                    |t: (Seq<char>, Option<u128>, Seq<char>, Seq<char>)| (i as int, t),
                ) =~= ts.take(j as int).map_values(
                    |t: (Seq<char>, Option<u128>, Seq<char>, Seq<char>)| (i as int, t),
                ).push((i as int, ts[j as int])));
            }
            j = j + 1;
        }
        proof {
            assert(ts.take(ts.len() as int) =~= ts);
            assert(events@.take(i as int + 1).drop_last() =~= events@.take(i as int));
            assert(events@.take(i as int + 1).last() == *e);
        }
        i = i + 1;
    }
    assert(events@.take(events.len() as int) =~= events@);
    work
}

/// The target types a replay touches: those of its work, sorted, each once.
pub fn touched_target_types(work: &Vec<(usize, SeoIndexReindexTrigger)>) -> (r: Vec<String>)
    ensures
        views(r@) == sorted_unique(work_view(work@).map_values(
            |p: (int, (Seq<char>, Option<u128>, Seq<char>, Seq<char>))| p.1.0,
        )),
        strictly_sorted(views(r@)),
{
    let ghost types = work_view(work@).map_values(
        |p: (int, (Seq<char>, Option<u128>, Seq<char>, Seq<char>))| p.1.0,
    );
    let mut out: Vec<String> = Vec::new();
    let mut i: usize = 0;
    while i < work.len()
        invariant
            i <= work.len(),
            types == work_view(work@).map_values(
                |p: (int, (Seq<char>, Option<u128>, Seq<char>, Seq<char>))| p.1.0,
            ),
            views(out@) == sorted_unique(types.take(i as int)),
            strictly_sorted(views(out@)),
        decreases work.len() - i,
    {
        proof {
            assert(types.take(i as int + 1).drop_last() =~= types.take(i as int));
            assert(types[i as int] == work@[i as int].1.target_type@);
        }
        insert_sorted_unique(&mut out, work[i].1.target_type.clone());
        i = i + 1;
    }
    assert(types.take(work.len() as int) =~= types);
    out
}

/// The parts of the key of a replayed delivery: the original event's key,
/// the target type and the target scope key.
pub fn replay_key_parts(event: &SeoEventDeliveryRow, trigger: &SeoIndexReindexTrigger) -> (r: Vec<String>)
    ensures
        views(r@) == seq![event.idempotency_key@, trigger.target_type@, trigger.target_scope_key@],
{
    let mut v: Vec<String> = Vec::new();
    v.push(event.idempotency_key.clone());
    v.push(trigger.target_type.clone());
    v.push(trigger.target_scope_key.clone());
    assert(views(v@) =~= seq![event.idempotency_key@, trigger.target_type@, trigger.target_scope_key@]);
    v
}


/// The scope of the keys of the deliveries a historical replay makes.
pub const INDEX_REPLAY_KEY_SCOPE: &'static str = "seo.index.replay.historical";

/// Whether a delivery in `status` is finished: sent or dead-lettered.
pub open spec fn finished_status(status: Seq<char>) -> bool {
    status == INDEX_DELIVERY_STATUS_SENT@ || status == INDEX_DELIVERY_STATUS_DEAD_LETTER@
}

/// Whether a delivery in `status` is finished; a replay passes over such
/// a delivery and counts it as not replayed.
pub fn is_finished_delivery_status(status: &str) -> (r: bool)
    ensures
        r == finished_status(status@),
{
    str_eq(status, INDEX_DELIVERY_STATUS_SENT) || str_eq(status, INDEX_DELIVERY_STATUS_DEAD_LETTER)
}

/// The key of the delivery a historical replay makes for a work item: the
/// replay scope and the hash of the key payload of the item's key parts
/// (the original event's key, the target type and the target scope key,
/// as `replay_key_parts` gives them).
pub open spec fn replay_item_key(
    tenant_id: u128,
    hash: spec_fn(Seq<char>) -> u64,
    events: Seq<SeoEventDeliveryRow>,
    w: (int, (Seq<char>, Option<u128>, Seq<char>, Seq<char>)),
) -> Seq<char> {
    crate::events::event_key(
        INDEX_REPLAY_KEY_SCOPE@,
        hash(
            crate::events::event_key_payload(
                INDEX_REPLAY_KEY_SCOPE@,
                tenant_id,
                seq![events[w.0].idempotency_key@, w.1.0, w.1.3],
            ),
        ),
    )
}

/// Whether a replay dispatches the delivery under `key`, given the status
/// of each stored delivery by key: unless that delivery is finished.
pub open spec fn replay_dispatches(store: Map<Seq<char>, Seq<char>>, key: Seq<char>) -> bool {
    !(store.contains_key(key) && finished_status(store[key]))
}

/// A repeated historical replay dispatches nothing.  The same sent events
/// give the same work and the same delivery keys, whatever the hash of
/// the key payload.  If the first run left every delivery it dispatched
/// finished (sent or dead-lettered) and changed no delivery that was
/// already finished, then a second run over the same events dispatches
/// none of its work items, and none of their deliveries has an attempt
/// left to start.
pub proof fn lemma_repeat_replay_dispatches_nothing(
    tenant_id: u128,
    hash: spec_fn(Seq<char>) -> u64,
    events: Seq<SeoEventDeliveryRow>,
    filter: Option<Seq<char>>,
    before: Map<Seq<char>, Seq<char>>,
    after: Map<Seq<char>, Seq<char>>,
)
    requires
        forall|k: int|
            0 <= k < replay_work(events, filter).len() && replay_dispatches(
                before,
                #[trigger] replay_item_key(tenant_id, hash, events, replay_work(events, filter)[k]),
            ) ==> after.contains_key(replay_item_key(tenant_id, hash, events, replay_work(events, filter)[k]))
                && finished_status(after[replay_item_key(tenant_id, hash, events, replay_work(events, filter)[k])]),
        forall|key: Seq<char>|
            #[trigger] before.contains_key(key) && finished_status(before[key]) ==> after.contains_key(key)
                && after[key] == before[key],
    ensures
        forall|k: int|
            0 <= k < replay_work(events, filter).len() ==> !replay_dispatches(
                after,
                #[trigger] replay_item_key(tenant_id, hash, events, replay_work(events, filter)[k]),
            ),
        forall|k: int, attempts: i32|
            0 <= k < replay_work(events, filter).len() ==> #[trigger] first_attempt(
                after[replay_item_key(tenant_id, hash, events, replay_work(events, filter)[k])],
                attempts,
            ) is None,
{
    let work = replay_work(events, filter);
    assert forall|k: int|
        0 <= k < work.len() implies !replay_dispatches(
        after,
        #[trigger] replay_item_key(tenant_id, hash, events, work[k]),
    ) by {
        let key = replay_item_key(tenant_id, hash, events, work[k]);
        if !replay_dispatches(before, key) {
            assert(before.contains_key(key) && finished_status(before[key]));
        }
    }
}


// ---------------------------------------------------------------------------
// Backlog repair
// ---------------------------------------------------------------------------

/// A delivery the backlog repair picks up: a failed or dead-lettered one.
pub open spec fn repairable(status: Seq<char>) -> bool {
    status == INDEX_DELIVERY_STATUS_FAILED@ || status == INDEX_DELIVERY_STATUS_DEAD_LETTER@
}

/// Whether the backlog repair picks up a delivery in `status`.
pub fn is_repairable_status(status: &str) -> (r: bool)
    ensures
        r == repairable(status@),
{
    str_eq(status, INDEX_DELIVERY_STATUS_FAILED) || str_eq(status, INDEX_DELIVERY_STATUS_DEAD_LETTER)
}

/// A delivery reset for repair at time `now`: pending again, with no
/// attempt and no error recorded; its target stays.
pub fn reset_for_repair(row: &SeoIndexDeliveryRow, now: i64) -> (r: SeoIndexDeliveryRow)
    ensures
        r.target_type@ == row.target_type@,
        r.target_id == row.target_id,
        r.target_scope@ == row.target_scope@,
        r.target_scope_key@ == row.target_scope_key@,
        r.status@ == INDEX_DELIVERY_STATUS_PENDING@,
        r.attempt_count == 0,
        r.last_error is None,
        r.updated_at == now,
{
    SeoIndexDeliveryRow {
        target_type: row.target_type.clone(),
        target_id: row.target_id,
        target_scope: row.target_scope.clone(),
        target_scope_key: row.target_scope_key.clone(),
        status: crate::text::owned(INDEX_DELIVERY_STATUS_PENDING),
        attempt_count: 0,
        last_error: None,
        updated_at: now,
    }
}

/// A repaired delivery gets its whole retry budget again: whatever it was
/// before (a dead letter too), once reset (see `reset_for_repair`) its
/// dispatch starts over at the first attempt.
pub proof fn lemma_repair_reopens_delivery(reset: SeoIndexDeliveryRow)
    requires
        reset.status@ == INDEX_DELIVERY_STATUS_PENDING@,
        reset.attempt_count == 0,
    ensures
        first_attempt(reset.status@, reset.attempt_count) == Some(1int),
{
    reveal_strlit("pending");
    reveal_strlit("sent");
    reveal_strlit("dead_letter");
    assert(INDEX_DELIVERY_STATUS_PENDING@ != INDEX_DELIVERY_STATUS_SENT@) by {
        assert(INDEX_DELIVERY_STATUS_PENDING@.len() != INDEX_DELIVERY_STATUS_SENT@.len());
    }
    assert(INDEX_DELIVERY_STATUS_PENDING@ != INDEX_DELIVERY_STATUS_DEAD_LETTER@) by {
        assert(INDEX_DELIVERY_STATUS_PENDING@.len() != INDEX_DELIVERY_STATUS_DEAD_LETTER@.len());
    }
}


// ---------------------------------------------------------------------------
// Cursor transitions
// ---------------------------------------------------------------------------

/// The cursor of a target type first seen at `observed_at`: both marks at
/// that time, replay not started.
pub fn new_index_cursor(target_type: &str, observed_at: i64) -> (r: SeoIndexCursorRow)
    ensures
        r.target_type@ == target_type@,
        r.initial_cursor_at == observed_at,
        r.high_water_mark_at == observed_at,
        r.last_repair_cursor_at is None,
        r.replay_mode@ == crate::events::INDEX_CURSOR_REPLAY_MODE_NOT_STARTED@,
        r.replay_requested_at is None,
        r.replay_completed_at is None,
{
    SeoIndexCursorRow {
        target_type: crate::text::owned(target_type),
        initial_cursor_at: observed_at,
        high_water_mark_at: observed_at,
        last_repair_cursor_at: None,
        replay_mode: crate::text::owned(crate::events::INDEX_CURSOR_REPLAY_MODE_NOT_STARTED),
        replay_requested_at: None,
        replay_completed_at: None,
    }
}

fn copy_cursor(c: &SeoIndexCursorRow) -> (r: SeoIndexCursorRow)
    ensures
        r == *c,
{
    SeoIndexCursorRow {
        target_type: c.target_type.clone(),
        initial_cursor_at: c.initial_cursor_at,
        high_water_mark_at: c.high_water_mark_at,
        last_repair_cursor_at: c.last_repair_cursor_at,
        replay_mode: c.replay_mode.clone(),
        replay_requested_at: c.replay_requested_at,
        replay_completed_at: c.replay_completed_at,
    }
}

/// A cursor after a change observed at `observed_at`: the high-water mark
/// moves forward to it; an older observation leaves the cursor as it is.
pub fn observe_index_cursor(cursor: &SeoIndexCursorRow, observed_at: i64) -> (r: SeoIndexCursorRow)
    ensures
        r.high_water_mark_at == if cursor.high_water_mark_at >= observed_at {
            cursor.high_water_mark_at
        } else {
            observed_at
        },
        r.high_water_mark_at >= cursor.high_water_mark_at,
        r == (SeoIndexCursorRow { high_water_mark_at: r.high_water_mark_at, ..*cursor }),
{
    let mut r = copy_cursor(cursor);
    if cursor.high_water_mark_at < observed_at {
        r.high_water_mark_at = observed_at;
    }
    r
}

/// A cursor after repair progress up to `cursor_at` in replay mode `mode`:
/// the repair cursor is set, and the replay mode only moves forward.
pub fn cursor_repair_progress(cursor: &SeoIndexCursorRow, cursor_at: i64, mode: &str) -> (r: SeoIndexCursorRow)
    ensures
        r.last_repair_cursor_at == Some(cursor_at),
        r.replay_mode@ == crate::events::advanced_mode(cursor.replay_mode@, mode@),
        r.target_type == cursor.target_type,
        r.initial_cursor_at == cursor.initial_cursor_at,
        r.high_water_mark_at == cursor.high_water_mark_at,
        r.replay_requested_at == cursor.replay_requested_at,
        r.replay_completed_at == cursor.replay_completed_at,
{
    let mut r = copy_cursor(cursor);
    r.last_repair_cursor_at = Some(cursor_at);
    r.replay_mode = crate::events::advance_replay_mode(cursor.replay_mode.as_str(), mode);
    r
}

/// A cursor once a historical replay is asked for at `requested_at`.
pub fn cursor_replay_requested(cursor: &SeoIndexCursorRow, requested_at: i64) -> (r: SeoIndexCursorRow)
    ensures
        r.replay_requested_at == Some(requested_at),
        r.replay_mode@ == crate::events::advanced_mode(
            cursor.replay_mode@,
            crate::events::INDEX_CURSOR_REPLAY_MODE_REPLAY_REQUESTED@,
        ),
        r.target_type == cursor.target_type,
        r.initial_cursor_at == cursor.initial_cursor_at,
        r.high_water_mark_at == cursor.high_water_mark_at,
        r.last_repair_cursor_at == cursor.last_repair_cursor_at,
        r.replay_completed_at == cursor.replay_completed_at,
{
    let mut r = copy_cursor(cursor);
    r.replay_requested_at = Some(requested_at);
    r.replay_mode = crate::events::advance_replay_mode(
        cursor.replay_mode.as_str(),
        crate::events::INDEX_CURSOR_REPLAY_MODE_REPLAY_REQUESTED,
    );
    r
}

/// A cursor once a historical replay finished at `completed_at`.
pub fn cursor_replay_completed(cursor: &SeoIndexCursorRow, completed_at: i64) -> (r: SeoIndexCursorRow)
    ensures
        r.replay_completed_at == Some(completed_at),
        r.replay_mode@ == crate::events::advanced_mode(
            cursor.replay_mode@,
            crate::events::INDEX_CURSOR_REPLAY_MODE_REPLAY_COMPLETED@,
        ),
        r.target_type == cursor.target_type,
        r.initial_cursor_at == cursor.initial_cursor_at,
        r.high_water_mark_at == cursor.high_water_mark_at,
        r.last_repair_cursor_at == cursor.last_repair_cursor_at,
        r.replay_requested_at == cursor.replay_requested_at,
{
    let mut r = copy_cursor(cursor);
    r.replay_completed_at = Some(completed_at);
    r.replay_mode = crate::events::advance_replay_mode(
        cursor.replay_mode.as_str(),
        crate::events::INDEX_CURSOR_REPLAY_MODE_REPLAY_COMPLETED,
    );
    r
}

} // verus!
