//! SEO domain events and the search-index delivery rules: delivery
//! metadata, re-index triggers, retry backoff and the replay progress of a
//! target type.
use vstd::prelude::*;

use crate::dto::SeoIndexReplayMode;
use crate::error::SeoError;
use crate::text::{
    append, byte_len, byte_len_at_most, lower, opt_view, owned, str_eq, take_chars, trim,
    trim_lower, trim_str, uuid_text, uuid_to_string, views, dec_int,
};

verus! {

/// Replay progress: nothing replayed yet.
pub const INDEX_CURSOR_REPLAY_MODE_NOT_STARTED: &'static str = "not_started";

/// Replay progress: backlog repaired, no replay asked.
pub const INDEX_CURSOR_REPLAY_MODE_REPAIR_ONLY: &'static str = "repair_only";

/// Replay progress: a historical replay was asked for.
pub const INDEX_CURSOR_REPLAY_MODE_REPLAY_REQUESTED: &'static str = "replay_requested";

/// Replay progress: the historical replay runs.
pub const INDEX_CURSOR_REPLAY_MODE_REPLAYING: &'static str = "replaying";

/// Replay progress: the historical replay finished.
pub const INDEX_CURSOR_REPLAY_MODE_REPLAY_COMPLETED: &'static str = "replay_completed";

/// Delivery attempts before an index delivery goes to the dead letters.
pub const INDEX_RETRY_MAX_ATTEMPTS: i32 = 3;

/// The backoff of the first retry, in milliseconds.
pub const INDEX_RETRY_BASE_BACKOFF_MS: u64 = 100;

/// The longest delivery error kept, in bytes.
pub const MAX_DELIVERY_ERROR_LEN: usize = 2048;

/// The scope of a trigger for one entity.
pub const INDEX_TARGET_SCOPE_ENTITY: &'static str = "entity";

/// The scope of a trigger for every entity of a type.
pub const INDEX_TARGET_SCOPE_KIND: &'static str = "kind";

/// The scope key of a trigger for every entity of a type.
pub const INDEX_SCOPE_KEY_ALL: &'static str = "*";

/// A domain event of the SEO module.  Identifiers are the 128-bit values of
/// UUIDs.
#[derive(Clone, Debug)]
pub enum SeoDomainEvent {
    SeoMetaUpserted {
        target_kind: String,
        target_id: u128,
        locale: String,
        source: String,
        idempotency_key: String,
    },
    SeoRevisionPublished { target_kind: String, target_id: u128, revision: i32, idempotency_key: String },
    SeoRevisionRolledBack { target_kind: String, target_id: u128, revision: i32, idempotency_key: String },
    SeoRedirectUpserted {
        redirect_id: u128,
        source_pattern: String,
        target_url: String,
        status_code: i32,
        is_active: bool,
        idempotency_key: String,
    },
    SeoRedirectDisabled { redirect_id: u128, source_pattern: String, idempotency_key: String },
    SeoSitemapGenerated { job_id: u128, file_count: i32, idempotency_key: String },
    SeoSitemapSubmitted {
        job_id: u128,
        endpoint_count: i32,
        success: bool,
        error: Option<String>,
        idempotency_key: String,
    },
    SeoBulkCompleted {
        job_id: u128,
        target_kind: String,
        locale: String,
        status: String,
        processed_count: i32,
        succeeded_count: i32,
        failed_count: i32,
        idempotency_key: String,
    },
    SeoBulkPartial {
        job_id: u128,
        target_kind: String,
        locale: String,
        status: String,
        processed_count: i32,
        succeeded_count: i32,
        failed_count: i32,
        idempotency_key: String,
    },
    SeoBulkFailed {
        job_id: u128,
        target_kind: String,
        locale: String,
        status: String,
        processed_count: i32,
        succeeded_count: i32,
        failed_count: i32,
        idempotency_key: String,
    },
    /// An event of another module.
    Other { event_type: String },
}

impl SeoDomainEvent {
    /// The dotted type name of the event.
    pub open spec fn event_kind_name(self) -> Seq<char> {
        match self {
            SeoDomainEvent::SeoMetaUpserted { .. } => "seo.meta.upserted"@,
            SeoDomainEvent::SeoRevisionPublished { .. } => "seo.revision.published"@,
            SeoDomainEvent::SeoRevisionRolledBack { .. } => "seo.revision.rolled_back"@,
            SeoDomainEvent::SeoRedirectUpserted { .. } => "seo.redirect.upserted"@,
            SeoDomainEvent::SeoRedirectDisabled { .. } => "seo.redirect.disabled"@,
            SeoDomainEvent::SeoSitemapGenerated { .. } => "seo.sitemap.generated"@,
            SeoDomainEvent::SeoSitemapSubmitted { .. } => "seo.sitemap.submitted"@,
            SeoDomainEvent::SeoBulkCompleted { .. } => "seo.bulk.completed"@,
            SeoDomainEvent::SeoBulkPartial { .. } => "seo.bulk.partial"@,
            SeoDomainEvent::SeoBulkFailed { .. } => "seo.bulk.failed"@,
            SeoDomainEvent::Other { event_type } => event_type@,
        }
    }

    /// The dotted type name of the event (see `event_kind_name`).
    pub fn event_type(&self) -> (r: String)
        ensures
            r@ == self.event_kind_name(),
    {
        match self {
            SeoDomainEvent::SeoMetaUpserted { .. } => owned("seo.meta.upserted"),
            SeoDomainEvent::SeoRevisionPublished { .. } => owned("seo.revision.published"),
            SeoDomainEvent::SeoRevisionRolledBack { .. } => owned("seo.revision.rolled_back"),
            SeoDomainEvent::SeoRedirectUpserted { .. } => owned("seo.redirect.upserted"),
            SeoDomainEvent::SeoRedirectDisabled { .. } => owned("seo.redirect.disabled"),
            SeoDomainEvent::SeoSitemapGenerated { .. } => owned("seo.sitemap.generated"),
            SeoDomainEvent::SeoSitemapSubmitted { .. } => owned("seo.sitemap.submitted"),
            SeoDomainEvent::SeoBulkCompleted { .. } => owned("seo.bulk.completed"),
            SeoDomainEvent::SeoBulkPartial { .. } => owned("seo.bulk.partial"),
            SeoDomainEvent::SeoBulkFailed { .. } => owned("seo.bulk.failed"),
            SeoDomainEvent::Other { event_type } => event_type.clone(),
        }
    }
}

/// The terminal event of a bulk job: `partial` and `failed` statuses give
/// their own variants, every other status a completion.
pub fn seo_bulk_terminal_event(
    job_id: u128,
    target_kind: &str,
    locale: &str,
    status: &str,
    processed_count: i32,
    succeeded_count: i32,
    failed_count: i32,
    idempotency_key: String,
) -> (r: SeoDomainEvent)
    ensures
        status@ == "partial"@ ==> r is SeoBulkPartial,
        status@ == "failed"@ ==> r is SeoBulkFailed,
        status@ != "partial"@ && status@ != "failed"@ ==> r is SeoBulkCompleted,
        match r {
            SeoDomainEvent::SeoBulkPartial {
                job_id: j,
                target_kind: k,
                locale: l,
                status: s,
                processed_count: p,
                succeeded_count: ok,
                failed_count: f,
                idempotency_key: key,
            }
            | SeoDomainEvent::SeoBulkFailed {
                job_id: j,
                target_kind: k,
                locale: l,
                status: s,
                processed_count: p,
                succeeded_count: ok,
                failed_count: f,
                idempotency_key: key,
            }
            | SeoDomainEvent::SeoBulkCompleted {
                job_id: j,
                target_kind: k,
                locale: l,
                status: s,
                processed_count: p,
                succeeded_count: ok,
                failed_count: f,
                idempotency_key: key,
            } => j == job_id && k@ == target_kind@ && l@ == locale@ && s@ == status@ && p
                == processed_count && ok == succeeded_count && f == failed_count && key@
                == idempotency_key@,
            _ => false,
        },
{
    proof {
        reveal_strlit("partial");
        reveal_strlit("failed");
        assert("partial"@.len() != "failed"@.len());
    }
    if str_eq(status, "partial") {
        SeoDomainEvent::SeoBulkPartial {
            job_id,
            target_kind: owned(target_kind),
            locale: owned(locale),
            status: owned(status),
            processed_count,
            succeeded_count,
            failed_count,
            idempotency_key,
        }
    } else if str_eq(status, "failed") {
        SeoDomainEvent::SeoBulkFailed {
            job_id,
            target_kind: owned(target_kind),
            locale: owned(locale),
            status: owned(status),
            processed_count,
            succeeded_count,
            failed_count,
            idempotency_key,
        }
    } else {
        SeoDomainEvent::SeoBulkCompleted {
            job_id,
            target_kind: owned(target_kind),
            locale: owned(locale),
            status: owned(status),
            processed_count,
            succeeded_count,
            failed_count,
            idempotency_key,
        }
    }
}

/// What a delivery record keeps of an event.
#[derive(Clone, Debug)]
pub struct SeoEventDeliveryMetadata {
    pub idempotency_key: String,
    pub source_kind: Option<String>,
    pub source_id: Option<u128>,
}

/// The delivery metadata of an event: its idempotency key and its source
/// (the target for metadata and revision events, the redirect, the sitemap
/// job or the bulk job); none for events of other modules.
pub open spec fn delivery_metadata(e: SeoDomainEvent) -> Option<(Seq<char>, Seq<char>, u128)> {
    match e {
        SeoDomainEvent::SeoMetaUpserted { target_kind, target_id, idempotency_key, .. } => Some(
            (idempotency_key@, target_kind@, target_id),
        ),
        SeoDomainEvent::SeoRevisionPublished { target_kind, target_id, idempotency_key, .. } => Some(
            (idempotency_key@, target_kind@, target_id),
        ),
        SeoDomainEvent::SeoRevisionRolledBack { target_kind, target_id, idempotency_key, .. } => Some(
            (idempotency_key@, target_kind@, target_id),
        ),
        SeoDomainEvent::SeoRedirectUpserted { redirect_id, idempotency_key, .. } => Some(
            (idempotency_key@, "redirect"@, redirect_id),
        ),
        SeoDomainEvent::SeoRedirectDisabled { redirect_id, idempotency_key, .. } => Some(
            (idempotency_key@, "redirect"@, redirect_id),
        ),
        SeoDomainEvent::SeoSitemapGenerated { job_id, idempotency_key, .. } => Some(
            (idempotency_key@, "sitemap_job"@, job_id),
        ),
        SeoDomainEvent::SeoSitemapSubmitted { job_id, idempotency_key, .. } => Some(
            (idempotency_key@, "sitemap_job"@, job_id),
        ),
        SeoDomainEvent::SeoBulkCompleted { job_id, idempotency_key, .. } => Some(
            (idempotency_key@, "bulk_job"@, job_id),
        ),
        SeoDomainEvent::SeoBulkPartial { job_id, idempotency_key, .. } => Some(
            (idempotency_key@, "bulk_job"@, job_id),
        ),
        SeoDomainEvent::SeoBulkFailed { job_id, idempotency_key, .. } => Some(
            (idempotency_key@, "bulk_job"@, job_id),
        ),
        SeoDomainEvent::Other { .. } => None,
    }
}

fn metadata(key: &String, kind: String, id: u128) -> (r: SeoEventDeliveryMetadata)
    ensures
        r.idempotency_key@ == key@,
        opt_view(r.source_kind) == Some(kind@),
        r.source_id == Some(id),
{
    SeoEventDeliveryMetadata { idempotency_key: key.clone(), source_kind: Some(kind), source_id: Some(id) }
}

// ---------------------------------------------------------------------------
// Event keys
// ---------------------------------------------------------------------------

/// The text an event key is hashed from: the scope, the tenant and each
/// part, separated by `|`.
pub open spec fn event_key_payload(scope: Seq<char>, tenant_id: u128, parts: Seq<Seq<char>>) -> Seq<char>
    decreases parts.len(),
{
    if parts.len() == 0 {
        scope + "|"@ + uuid_text(tenant_id)
    } else {
        event_key_payload(scope, tenant_id, parts.drop_last()) + "|"@ + parts.last()
    }
}

/// The text an event key is hashed from (see `event_key_payload`).
pub fn seo_event_key_payload(scope: &str, tenant_id: u128, parts: &Vec<String>) -> (r: String)
    ensures
        r@ == event_key_payload(scope@, tenant_id, views(parts@)),
{
    let mut out = owned(scope);
    append(&mut out, "|");
    let tenant = uuid_to_string(tenant_id);
    append(&mut out, tenant.as_str());
    let mut i: usize = 0;
    while i < parts.len()
        invariant
            i <= parts.len(),
            out@ == event_key_payload(scope@, tenant_id, views(parts@.take(i as int))),
        decreases parts.len() - i,
    {
        proof {
            crate::text::lemma_views_take_next(parts@, i as int);
            assert(views(parts@.take(i as int + 1)).drop_last() =~= views(parts@.take(i as int)));
        }
        append(&mut out, "|");
        append(&mut out, parts[i].as_str());
        i = i + 1;
    }
    assert(parts@.take(parts.len() as int) =~= parts@);
    out
}

/// An event key: the scope, `:`, and the hash of the key's payload as 16
/// lower-case hexadecimal digits.
pub open spec fn event_key(scope: Seq<char>, payload_hash: u64) -> Seq<char> {
    scope + ":"@ + crate::text::hex_fixed(payload_hash as u128, 16)
}

/// An event key from the hash of its payload (see `event_key`).
pub fn seo_event_key(scope: &str, payload_hash: u64) -> (r: String)
    ensures
        r@ == event_key(scope@, payload_hash),
{
    let mut out = owned(scope);
    append(&mut out, ":");
    crate::text::push_hex_fixed(&mut out, payload_hash as u128, 16);
    out
}

/// The text of a flag (`bool::to_string`).
pub open spec fn flag_text(b: bool) -> Seq<char> {
    if b {
        "true"@
    } else {
        "false"@
    }
}

/// The scope and parts an event's key is made of: the event's type name,
/// then its identifying fields as text (ids as UUIDs, numbers in decimal,
/// flags as `true`/`false`); a metadata event adds the transition it
/// belongs to, `direct` when none.  Events of other modules have none.
pub open spec fn event_key_parts(e: SeoDomainEvent, transition_ref: Option<Seq<char>>) -> Option<(Seq<char>, Seq<Seq<char>>)> {
    match e {
        SeoDomainEvent::SeoMetaUpserted { target_kind, target_id, locale, .. } => Some(
            (
                e.event_kind_name(),
                seq![
                    target_kind@,
                    uuid_text(target_id),
                    locale@,
                    match transition_ref {
                        Some(t) => t,
                        None => "direct"@,
                    },
                ],
            ),
        ),
        SeoDomainEvent::SeoRevisionPublished { target_kind, target_id, revision, .. }
        | SeoDomainEvent::SeoRevisionRolledBack { target_kind, target_id, revision, .. } => Some(
            (e.event_kind_name(), seq![target_kind@, uuid_text(target_id), dec_int(revision as int)]),
        ),
        SeoDomainEvent::SeoRedirectUpserted {
            redirect_id,
            source_pattern,
            target_url,
            status_code,
            is_active,
            ..
        } => Some(
            (
                e.event_kind_name(),
                seq![
                    uuid_text(redirect_id),
                    source_pattern@,
                    target_url@,
                    dec_int(status_code as int),
                    flag_text(is_active),
                ],
            ),
        ),
        SeoDomainEvent::SeoRedirectDisabled { redirect_id, source_pattern, .. } => Some(
            (e.event_kind_name(), seq![uuid_text(redirect_id), source_pattern@]),
        ),
        SeoDomainEvent::SeoSitemapGenerated { job_id, file_count, .. } => Some(
            (e.event_kind_name(), seq![uuid_text(job_id), dec_int(file_count as int)]),
        ),
        SeoDomainEvent::SeoSitemapSubmitted { job_id, endpoint_count, success, .. } => Some(
            (
                e.event_kind_name(),
                seq![uuid_text(job_id), dec_int(endpoint_count as int), flag_text(success)],
            ),
        ),
        SeoDomainEvent::SeoBulkCompleted {
            job_id,
            target_kind,
            locale,
            status,
            processed_count,
            succeeded_count,
            failed_count,
            ..
        }
        | SeoDomainEvent::SeoBulkPartial {
            job_id,
            target_kind,
            locale,
            status,
            processed_count,
            succeeded_count,
            failed_count,
            ..
        }
        | SeoDomainEvent::SeoBulkFailed {
            job_id,
            target_kind,
            locale,
            status,
            processed_count,
            succeeded_count,
            failed_count,
            ..
        } => Some(
            (
                e.event_kind_name(),
                seq![
                    target_kind@,
                    locale@,
                    uuid_text(job_id),
                    status@,
                    dec_int(processed_count as int),
                    dec_int(succeeded_count as int),
                    dec_int(failed_count as int),
                ],
            ),
        ),
        SeoDomainEvent::Other { .. } => None,
    }
}

fn int_text(v: i32) -> (r: String)
    ensures
        r@ == dec_int(v as int),
{
    let mut s = String::new();
    crate::text::push_dec_i64(&mut s, v as i64);
    s
}

fn flag_string(b: bool) -> (r: String)
    ensures
        r@ == flag_text(b),
{
    if b {
        owned("true")
    } else {
        owned("false")
    }
}

/// The scope and parts of an event's key (see `event_key_parts`).
pub fn seo_event_key_parts(event: &SeoDomainEvent, transition_ref: Option<&str>) -> (r: Option<(String, Vec<String>)>)
    ensures
        match (r, event_key_parts(*event, match transition_ref {
            Some(t) => Some(t@),
            None => None,
        })) {
            (Some((scope, parts)), Some((s, p))) => scope@ == s && views(parts@) == p,
            (None, None) => true,
            _ => false,
        },
{
    let scope = event.event_type();
    let mut parts: Vec<String> = Vec::new();
    match event {
        SeoDomainEvent::SeoMetaUpserted { target_kind, target_id, locale, .. } => {
            parts.push(target_kind.clone());
            parts.push(uuid_to_string(*target_id));
            parts.push(locale.clone());
            match transition_ref {
                Some(t) => parts.push(owned(t)),
                None => parts.push(owned("direct")),
            }
        },
        SeoDomainEvent::SeoRevisionPublished { target_kind, target_id, revision, .. }
        | SeoDomainEvent::SeoRevisionRolledBack { target_kind, target_id, revision, .. } => {
            parts.push(target_kind.clone());
            parts.push(uuid_to_string(*target_id));
            parts.push(int_text(*revision));
        },
        SeoDomainEvent::SeoRedirectUpserted {
            redirect_id,
            source_pattern,
            target_url,
            status_code,
            is_active,
            ..
        } => {
            parts.push(uuid_to_string(*redirect_id));
            parts.push(source_pattern.clone());
            parts.push(target_url.clone());
            parts.push(int_text(*status_code));
            parts.push(flag_string(*is_active));
        },
        SeoDomainEvent::SeoRedirectDisabled { redirect_id, source_pattern, .. } => {
            parts.push(uuid_to_string(*redirect_id));
            parts.push(source_pattern.clone());
        },
        SeoDomainEvent::SeoSitemapGenerated { job_id, file_count, .. } => {
            parts.push(uuid_to_string(*job_id));
            parts.push(int_text(*file_count));
        },
        SeoDomainEvent::SeoSitemapSubmitted { job_id, endpoint_count, success, .. } => {
            parts.push(uuid_to_string(*job_id));
            parts.push(int_text(*endpoint_count));
            parts.push(flag_string(*success));
        },
        SeoDomainEvent::SeoBulkCompleted {
            job_id,
            target_kind,
            locale,
            status,
            processed_count,
            succeeded_count,
            failed_count,
            ..
        }
        | SeoDomainEvent::SeoBulkPartial {
            job_id,
            target_kind,
            locale,
            status,
            processed_count,
            succeeded_count,
            failed_count,
            ..
        }
        | SeoDomainEvent::SeoBulkFailed {
            job_id,
            target_kind,
            locale,
            status,
            processed_count,
            succeeded_count,
            failed_count,
            ..
        } => {
            parts.push(target_kind.clone());
            parts.push(locale.clone());
            parts.push(uuid_to_string(*job_id));
            parts.push(status.clone());
            parts.push(int_text(*processed_count));
            parts.push(int_text(*succeeded_count));
            parts.push(int_text(*failed_count));
        },
        SeoDomainEvent::Other { .. } => {
            return None;
        },
    }
    proof {
        let expected = event_key_parts(*event, match transition_ref {
            Some(t) => Some(t@),
            None => None,
        });
        if let Some((_, p)) = expected {
            assert(views(parts@) =~= p);
        }
    }
    Some((scope, parts))
}

// ---------------------------------------------------------------------------
// Publishing with delivery tracking
// ---------------------------------------------------------------------------

/// What the delivery tracker knows of an event's idempotency key.
#[derive(Clone, Copy, Debug, PartialEq, Eq, Structural)]
pub enum DeliveryLookup {
    /// A delivery with the key is recorded.
    Found,
    /// No delivery with the key is recorded.
    Missing,
    /// The tracker could not be asked.
    Failed,
}

/// How recording a pending delivery for an event went.
#[derive(Clone, Copy, Debug, PartialEq, Eq, Structural)]
pub enum PendingInsert {
    /// The pending delivery is recorded.
    Inserted,
    /// Another delivery with the key was recorded first.
    Duplicate,
    /// The tracker could not record it.
    Failed,
}

/// The next step of publishing a domain event.
#[derive(Clone, Copy, Debug, PartialEq, Eq, Structural)]
pub enum SeoEventPublishStep {
    /// Publish the event without a delivery record.
    PublishUntracked,
    /// The event was published already: do nothing.
    SkipDuplicate,
    /// Record a pending delivery for the event's key.
    InsertPending,
    /// Publish the event and mark its delivery sent or failed.
    PublishTracked,
}

/// The first step for an event: without an idempotency key it is published
/// untracked; with one, the tracker is asked first.
pub fn publish_first_step(has_idempotency_key: bool, lookup: DeliveryLookup) -> (r: SeoEventPublishStep)
    ensures
        !has_idempotency_key ==> r == SeoEventPublishStep::PublishUntracked,
        has_idempotency_key ==> r == match lookup {
            DeliveryLookup::Found => SeoEventPublishStep::SkipDuplicate,
            DeliveryLookup::Missing => SeoEventPublishStep::InsertPending,
            DeliveryLookup::Failed => SeoEventPublishStep::PublishUntracked,
        },
{
    if !has_idempotency_key {
        return SeoEventPublishStep::PublishUntracked;
    }
    match lookup {
        DeliveryLookup::Found => SeoEventPublishStep::SkipDuplicate,
        DeliveryLookup::Missing => SeoEventPublishStep::InsertPending,
        DeliveryLookup::Failed => SeoEventPublishStep::PublishUntracked,
    }
}

/// The step after recording the pending delivery: publish it tracked; a
/// conflicting record means the event was published already; a tracker
/// failure publishes it untracked rather than dropping it.
pub fn publish_step_after_insert(insert: PendingInsert) -> (r: SeoEventPublishStep)
    ensures
        r == match insert {
            PendingInsert::Inserted => SeoEventPublishStep::PublishTracked,
            PendingInsert::Duplicate => SeoEventPublishStep::SkipDuplicate,
            PendingInsert::Failed => SeoEventPublishStep::PublishUntracked,
        },
{
    match insert {
        PendingInsert::Inserted => SeoEventPublishStep::PublishTracked,
        PendingInsert::Duplicate => SeoEventPublishStep::SkipDuplicate,
        PendingInsert::Failed => SeoEventPublishStep::PublishUntracked,
    }
}

/// The delivery metadata of an event (see `delivery_metadata`).
pub fn event_delivery_metadata(event: &SeoDomainEvent) -> (r: Option<SeoEventDeliveryMetadata>)
    ensures
        match (r, delivery_metadata(*event)) {
            (Some(m), Some((key, kind, id))) => m.idempotency_key@ == key && opt_view(m.source_kind)
                == Some(kind) && m.source_id == Some(id),
            (None, None) => true,
            _ => false,
        },
{
    match event {
        SeoDomainEvent::SeoMetaUpserted { target_kind, target_id, idempotency_key, .. } => Some(
            metadata(idempotency_key, target_kind.clone(), *target_id),
        ),
        SeoDomainEvent::SeoRevisionPublished { target_kind, target_id, idempotency_key, .. } => Some(
            metadata(idempotency_key, target_kind.clone(), *target_id),
        ),
        SeoDomainEvent::SeoRevisionRolledBack { target_kind, target_id, idempotency_key, .. } => Some(
            metadata(idempotency_key, target_kind.clone(), *target_id),
        ),
        SeoDomainEvent::SeoRedirectUpserted { redirect_id, idempotency_key, .. } => Some(
            metadata(idempotency_key, owned("redirect"), *redirect_id),
        ),
        SeoDomainEvent::SeoRedirectDisabled { redirect_id, idempotency_key, .. } => Some(
            metadata(idempotency_key, owned("redirect"), *redirect_id),
        ),
        SeoDomainEvent::SeoSitemapGenerated { job_id, idempotency_key, .. } => Some(
            metadata(idempotency_key, owned("sitemap_job"), *job_id),
        ),
        SeoDomainEvent::SeoSitemapSubmitted { job_id, idempotency_key, .. } => Some(
            metadata(idempotency_key, owned("sitemap_job"), *job_id),
        ),
        SeoDomainEvent::SeoBulkCompleted { job_id, idempotency_key, .. } => Some(
            metadata(idempotency_key, owned("bulk_job"), *job_id),
        ),
        SeoDomainEvent::SeoBulkPartial { job_id, idempotency_key, .. } => Some(
            metadata(idempotency_key, owned("bulk_job"), *job_id),
        ),
        SeoDomainEvent::SeoBulkFailed { job_id, idempotency_key, .. } => Some(
            metadata(idempotency_key, owned("bulk_job"), *job_id),
        ),
        SeoDomainEvent::Other { .. } => None,
    }
}

/// A delivery error longer than 2048 bytes cut to its first 2048
/// characters.
pub fn limit_delivery_error_message(message: String) -> (r: String)
    ensures
        r@ == if byte_len(message@) <= MAX_DELIVERY_ERROR_LEN || message@.len()
            <= MAX_DELIVERY_ERROR_LEN {
            message@
        } else {
            message@.take(MAX_DELIVERY_ERROR_LEN as int)
        },
{
    if byte_len_at_most(message.as_str(), MAX_DELIVERY_ERROR_LEN) {
        return message;
    }
    take_chars(message.as_str(), MAX_DELIVERY_ERROR_LEN)
}

/// The backoff before retry `attempt`, in milliseconds: 100 ms doubled per
/// earlier attempt, at most 1600 ms; attempts below 1 count as 1.
pub open spec fn retry_backoff_ms(attempt: i32) -> nat {
    let a: int = if attempt < 1 {
        1
    } else {
        attempt as int
    };
    let e: int = if a - 1 > 4 {
        4
    } else {
        a - 1
    };
    if e == 0 {
        100
    } else if e == 1 {
        200
    } else if e == 2 {
        400
    } else if e == 3 {
        800
    } else {
        1600
    }
}

/// The backoff before a retry, in milliseconds (see `retry_backoff_ms`).
pub fn index_retry_backoff(attempt: i32) -> (r: u64)
    ensures
        r == retry_backoff_ms(attempt),
{
    let a: i32 = if attempt < 1 {
        1
    } else {
        attempt
    };
    let e: i32 = if a - 1 > 4 {
        4
    } else {
        a - 1
    };
    let multiplier: u64 = if e == 0 {
        1
    } else if e == 1 {
        2
    } else if e == 2 {
        4
    } else if e == 3 {
        8
    } else {
        16
    };
    INDEX_RETRY_BASE_BACKOFF_MS * multiplier
}

/// The index target type of an SEO target kind: products are indexed as
/// products, pages, blog posts and forum items as content.
pub open spec fn target_type_of(kind: Seq<char>) -> Option<Seq<char>> {
    if kind == "product"@ {
        Some("product"@)
    } else if kind == "page"@ || kind == "blog_post"@ || kind == "forum_category"@ || kind
        == "forum_topic"@ {
        Some("content"@)
    } else {
        None
    }
}

/// The index target type of an SEO target kind (see `target_type_of`).
pub fn map_target_type_for_seo_kind(target_kind: &str) -> (r: Option<&'static str>)
    ensures
        match r {
            Some(t) => target_type_of(target_kind@) == Some(t@),
            None => target_type_of(target_kind@) is None,
        },
{
    if str_eq(target_kind, "product") {
        Some("product")
    } else if str_eq(target_kind, "page") || str_eq(target_kind, "blog_post") || str_eq(
        target_kind,
        "forum_category",
    ) || str_eq(target_kind, "forum_topic") {
        Some("content")
    } else {
        None
    }
}

/// A request to re-index one entity or every entity of a type.
#[derive(Clone, Debug)]
pub struct SeoIndexReindexTrigger {
    pub target_type: String,
    pub target_id: Option<u128>,
    pub target_scope: String,
    pub target_scope_key: String,
}

/// The mathematical form of a trigger: type, entity, scope, scope key.
pub open spec fn trigger_view(t: SeoIndexReindexTrigger) -> (Seq<char>, Option<u128>, Seq<char>, Seq<char>) {
    (t.target_type@, t.target_id, t.target_scope@, t.target_scope_key@)
}

/// The views of triggers.
pub open spec fn triggers_view(v: Seq<SeoIndexReindexTrigger>) -> Seq<(Seq<char>, Option<u128>, Seq<char>, Seq<char>)> {
    v.map_values(|t: SeoIndexReindexTrigger| trigger_view(t))
}

/// The trigger for one entity: scope `entity`, keyed by the entity's UUID.
pub open spec fn entity_trigger(target_type: Seq<char>, id: u128) -> (Seq<char>, Option<u128>, Seq<char>, Seq<char>) {
    (target_type, Some(id), "entity"@, uuid_text(id))
}

/// The trigger for every entity of a type: scope `kind`, key `*`.
pub open spec fn kind_trigger(target_type: Seq<char>) -> (Seq<char>, Option<u128>, Seq<char>, Seq<char>) {
    (target_type, None, "kind"@, "*"@)
}

impl SeoIndexReindexTrigger {
    /// The trigger for one entity.
    pub fn entity(target_type: &str, target_id: u128) -> (r: SeoIndexReindexTrigger)
        ensures
            trigger_view(r) == entity_trigger(target_type@, target_id),
    {
        SeoIndexReindexTrigger {
            target_type: owned(target_type),
            target_id: Some(target_id),
            target_scope: owned(INDEX_TARGET_SCOPE_ENTITY),
            target_scope_key: uuid_to_string(target_id),
        }
    }

    /// The trigger a stored delivery was made for, to send it again.
    pub fn from_delivery(model: &crate::index_delivery::SeoIndexDeliveryRow) -> (r: SeoIndexReindexTrigger)
        ensures
            trigger_view(r) == (
                model.target_type@,
                model.target_id,
                model.target_scope@,
                model.target_scope_key@,
            ),
    {
        SeoIndexReindexTrigger {
            target_type: model.target_type.clone(),
            target_id: model.target_id,
            target_scope: model.target_scope.clone(),
            target_scope_key: model.target_scope_key.clone(),
        }
    }

    /// The trigger for every entity of a type.
    pub fn kind(target_type: &str) -> (r: SeoIndexReindexTrigger)
        ensures
            trigger_view(r) == kind_trigger(target_type@),
    {
        SeoIndexReindexTrigger {
            target_type: owned(target_type),
            target_id: None,
            target_scope: owned(INDEX_TARGET_SCOPE_KIND),
            target_scope_key: owned(INDEX_SCOPE_KEY_ALL),
        }
    }
}

/// Both index target types.
pub open spec fn all_kind_triggers() -> Seq<(Seq<char>, Option<u128>, Seq<char>, Seq<char>)> {
    seq![kind_trigger("content"@), kind_trigger("product"@)]
}

/// The re-index triggers of an event: the target of a metadata or
/// revision event, every entity of the type of a bulk job's kind, every
/// content and product entity after a redirect change, nothing otherwise.
pub open spec fn event_triggers(e: SeoDomainEvent) -> Seq<(Seq<char>, Option<u128>, Seq<char>, Seq<char>)> {
    match e {
        SeoDomainEvent::SeoMetaUpserted { target_kind, target_id, .. }
        | SeoDomainEvent::SeoRevisionPublished { target_kind, target_id, .. }
        | SeoDomainEvent::SeoRevisionRolledBack { target_kind, target_id, .. } => match target_type_of(
            target_kind@,
        ) {
            Some(t) => seq![entity_trigger(t, target_id)],
            None => Seq::empty(),
        },
        SeoDomainEvent::SeoBulkCompleted { target_kind, .. }
        | SeoDomainEvent::SeoBulkPartial { target_kind, .. }
        | SeoDomainEvent::SeoBulkFailed { target_kind, .. } => match target_type_of(target_kind@) {
            Some(t) => seq![kind_trigger(t)],
            None => Seq::empty(),
        },
        SeoDomainEvent::SeoRedirectUpserted { .. } | SeoDomainEvent::SeoRedirectDisabled { .. } => all_kind_triggers(),
        _ => Seq::empty(),
    }
}

/// A metadata event on a target the search index knows asks to re-index
/// exactly that entity: a page, blog post, forum category or forum topic
/// as `content`, a product as `product`, in each case one trigger of
/// scope `entity` keyed by the target's UUID.
pub proof fn lemma_meta_event_reindexes_its_entity(e: SeoDomainEvent)
    ensures
        e matches SeoDomainEvent::SeoMetaUpserted { target_kind, target_id, .. } ==> {
            &&& (target_kind@ == "page"@ || target_kind@ == "blog_post"@ || target_kind@ == "forum_category"@
                || target_kind@ == "forum_topic"@) ==> event_triggers(e) == seq![
                ("content"@, Some(target_id), "entity"@, uuid_text(target_id)),
            ]
            &&& target_kind@ == "product"@ ==> event_triggers(e) == seq![
                ("product"@, Some(target_id), "entity"@, uuid_text(target_id)),
            ]
        },
{
    reveal_strlit("product");
    reveal_strlit("page");
    reveal_strlit("blog_post");
    reveal_strlit("forum_category");
    reveal_strlit("forum_topic");
    assert("page"@[1] != "product"@[1]);
    assert("blog_post"@[0] != "product"@[0]);
    assert("forum_category"@[0] != "product"@[0]);
    assert("forum_topic"@[0] != "product"@[0]);
    if let SeoDomainEvent::SeoMetaUpserted { target_kind, target_id, .. } = e {
        let k = target_kind@;
        if k == "page"@ || k == "blog_post"@ || k == "forum_category"@ || k == "forum_topic"@ {
            assert(k != "product"@);
            assert(target_type_of(k) == Some("content"@));
        }
    }
}

fn entity_triggers_for(kind: &String, id: u128) -> (r: Vec<SeoIndexReindexTrigger>)
    ensures
        triggers_view(r@) == match target_type_of(kind@) {
            Some(t) => seq![entity_trigger(t, id)],
            None => Seq::empty(),
        },
{
    let mut r: Vec<SeoIndexReindexTrigger> = Vec::new();
    match map_target_type_for_seo_kind(kind.as_str()) {
        Some(t) => r.push(SeoIndexReindexTrigger::entity(t, id)),
        None => {},
    }
    assert(triggers_view(r@) =~= match target_type_of(kind@) {
        Some(t) => seq![entity_trigger(t, id)],
        None => Seq::empty(),
    });
    r
}

fn kind_triggers_for(kind: &String) -> (r: Vec<SeoIndexReindexTrigger>)
    ensures
        triggers_view(r@) == match target_type_of(kind@) {
            Some(t) => seq![kind_trigger(t)],
            None => Seq::empty(),
        },
{
    let mut r: Vec<SeoIndexReindexTrigger> = Vec::new();
    match map_target_type_for_seo_kind(kind.as_str()) {
        Some(t) => r.push(SeoIndexReindexTrigger::kind(t)),
        None => {},
    }
    assert(triggers_view(r@) =~= match target_type_of(kind@) {
        Some(t) => seq![kind_trigger(t)],
        None => Seq::empty(),
    });
    r
}

fn both_kind_triggers() -> (r: Vec<SeoIndexReindexTrigger>)
    ensures
        triggers_view(r@) == all_kind_triggers(),
{
    let mut r: Vec<SeoIndexReindexTrigger> = Vec::new();
    r.push(SeoIndexReindexTrigger::kind("content"));
    r.push(SeoIndexReindexTrigger::kind("product"));
    assert(triggers_view(r@) =~= all_kind_triggers());
    r
}

/// The re-index triggers of an event (see `event_triggers`).
pub fn index_reindex_triggers_for_event(event: &SeoDomainEvent) -> (r: Vec<SeoIndexReindexTrigger>)
    ensures
        triggers_view(r@) == event_triggers(*event),
{
    match event {
        SeoDomainEvent::SeoMetaUpserted { target_kind, target_id, .. } => entity_triggers_for(target_kind, *target_id),
        SeoDomainEvent::SeoRevisionPublished { target_kind, target_id, .. } => entity_triggers_for(target_kind, *target_id),
        SeoDomainEvent::SeoRevisionRolledBack { target_kind, target_id, .. } => entity_triggers_for(target_kind, *target_id),
        SeoDomainEvent::SeoBulkCompleted { target_kind, .. } => kind_triggers_for(target_kind),
        SeoDomainEvent::SeoBulkPartial { target_kind, .. } => kind_triggers_for(target_kind),
        SeoDomainEvent::SeoBulkFailed { target_kind, .. } => kind_triggers_for(target_kind),
        SeoDomainEvent::SeoRedirectUpserted { .. } => both_kind_triggers(),
        SeoDomainEvent::SeoRedirectDisabled { .. } => both_kind_triggers(),
        _ => {
            let r: Vec<SeoIndexReindexTrigger> = Vec::new();
            assert(triggers_view(r@) =~= event_triggers(*event));
            r
        },
    }
}

/// The triggers of a stored delivery, before the type filter: by event
/// type name, from the stored source of metadata and revision events.
pub open spec fn delivery_triggers_unfiltered(
    event_type: Seq<char>,
    source_kind: Option<Seq<char>>,
    source_id: Option<u128>,
    filter: Option<Seq<char>>,
) -> Seq<(Seq<char>, Option<u128>, Seq<char>, Seq<char>)> {
    if event_type == "seo.meta.upserted"@ || event_type == "seo.revision.published"@ || event_type
        == "seo.revision.rolled_back"@ {
        match (source_kind, source_id) {
            (Some(k), Some(id)) => match target_type_of(k) {
                Some(t) => seq![entity_trigger(t, id)],
                None => Seq::empty(),
            },
            _ => Seq::empty(),
        }
    } else if event_type == "seo.redirect.upserted"@ || event_type == "seo.redirect.disabled"@ {
        all_kind_triggers()
    } else if event_type == "seo.bulk.completed"@ || event_type == "seo.bulk.partial"@ || event_type
        == "seo.bulk.failed"@ {
        match filter {
            Some(t) => seq![kind_trigger(t)],
            None => all_kind_triggers(),
        }
    } else {
        Seq::empty()
    }
}

/// The triggers of the given target type.
pub open spec fn of_type(
    s: Seq<(Seq<char>, Option<u128>, Seq<char>, Seq<char>)>,
    t: Seq<char>,
) -> Seq<(Seq<char>, Option<u128>, Seq<char>, Seq<char>)> {
    s.filter(|x: (Seq<char>, Option<u128>, Seq<char>, Seq<char>)| x.0 == t)
}

/// The triggers of a stored delivery, keeping only those of the filtered
/// target type when there is a filter.
pub open spec fn delivery_triggers(
    event_type: Seq<char>,
    source_kind: Option<Seq<char>>,
    source_id: Option<u128>,
    filter: Option<Seq<char>>,
) -> Seq<(Seq<char>, Option<u128>, Seq<char>, Seq<char>)> {
    let all = delivery_triggers_unfiltered(event_type, source_kind, source_id, filter);
    match filter {
        Some(t) => of_type(all, t),
        None => all,
    }
}

/// The re-index triggers of a stored delivery (see `delivery_triggers`).
pub fn index_reindex_triggers_for_delivery_event(
    event_type: &str,
    source_kind: Option<&str>,
    source_id: Option<u128>,
    target_type_filter: Option<&str>,
) -> (r: Vec<SeoIndexReindexTrigger>)
    ensures
        triggers_view(r@) == delivery_triggers(
            event_type@,
            match source_kind {
                Some(k) => Some(k@),
                None => None,
            },
            source_id,
            match target_type_filter {
                Some(t) => Some(t@),
                None => None,
            },
        ),
{
    let ghost sk = match source_kind {
        Some(k) => Some(k@),
        None => None,
    };
    let ghost tf = match target_type_filter {
        Some(t) => Some(t@),
        None => None,
    };
    let mut triggers: Vec<SeoIndexReindexTrigger> = Vec::new();
    if str_eq(event_type, "seo.meta.upserted") || str_eq(event_type, "seo.revision.published")
        || str_eq(event_type, "seo.revision.rolled_back") {
        match (source_kind, source_id) {
            (Some(k), Some(id)) => match map_target_type_for_seo_kind(k) {
                Some(t) => triggers.push(SeoIndexReindexTrigger::entity(t, id)),
                None => {},
            },
            _ => {},
        }
    } else if str_eq(event_type, "seo.redirect.upserted") || str_eq(event_type, "seo.redirect.disabled") {
        triggers = both_kind_triggers();
    } else if str_eq(event_type, "seo.bulk.completed") || str_eq(event_type, "seo.bulk.partial")
        || str_eq(event_type, "seo.bulk.failed") {
        match target_type_filter {
            Some(t) => triggers.push(SeoIndexReindexTrigger::kind(t)),
            None => {
                triggers = both_kind_triggers();
            },
        }
    }
    let ghost all = delivery_triggers_unfiltered(event_type@, sk, source_id, tf);
    assert(triggers_view(triggers@) =~= all);
    match target_type_filter {
        Some(t) => {
            let mut out: Vec<SeoIndexReindexTrigger> = Vec::new();
            let mut i: usize = 0;
            while i < triggers.len()
                invariant
                    i <= triggers.len(),
                    triggers_view(triggers@) == all,
                    triggers_view(out@) == of_type(all.take(i as int), t@),
                decreases triggers.len() - i,
            {
                proof {
                    assert(all.take(i as int + 1).drop_last() =~= all.take(i as int));
                    reveal_with_fuel(vstd::seq::Seq::filter, 1);
                }
                if str_eq(triggers[i].target_type.as_str(), t) {
                    let x = triggers[i].clone_trigger();
                    let ghost prev = out@;
                    out.push(x);
                    assert(triggers_view(out@) =~= triggers_view(prev).push(trigger_view(x)));
                }
                i = i + 1;
            }
            assert(all.take(triggers.len() as int) =~= all);
            out
        },
        None => triggers,
    }
}

impl SeoIndexReindexTrigger {
    /// A copy of the trigger.
    pub fn clone_trigger(&self) -> (r: SeoIndexReindexTrigger)
        ensures
            trigger_view(r) == trigger_view(*self),
    {
        SeoIndexReindexTrigger {
            target_type: self.target_type.clone(),
            target_id: self.target_id,
            target_scope: self.target_scope.clone(),
            target_scope_key: self.target_scope_key.clone(),
        }
    }
}

/// The index target type filter of a request: absent or blank means no
/// filter; otherwise the trimmed, lower-cased value, which must be
/// `content` or `product`.
pub open spec fn index_target_type_result(value: Option<Seq<char>>) -> Result<Option<Seq<char>>, Seq<char>> {
    match value {
        None => Ok(None),
        Some(v) => {
            let n = lower(trim(v));
            if n.len() == 0 {
                Ok(None)
            } else if n == "content"@ || n == "product"@ {
                Ok(Some(n))
            } else {
                Err(
                    "unsupported index target_type `"@ + trim(v)
                        + "`; expected `content` or `product`"@,
                )
            }
        },
    }
}

/// Normalizes the index target type filter of a request (see
/// `index_target_type_result`); an unsupported type is a validation error.
pub fn normalize_index_target_type(target_type: Option<&str>) -> (r: Result<Option<String>, SeoError>)
    ensures
        match (r, index_target_type_result(
            match target_type {
                Some(v) => Some(v@),
                None => None,
            },
        )) {
            (Ok(Some(s)), Ok(Some(t))) => s@ == t,
            (Ok(None), Ok(None)) => true,
            (Err(SeoError::Validation(m)), Err(t)) => m@ == t,
            _ => false,
        },
{
    let value = match target_type {
        Some(v) => v,
        None => return Ok(None),
    };
    let normalized = trim_lower(value);
    if normalized.as_str().unicode_len() == 0 {
        return Ok(None);
    }
    if str_eq(normalized.as_str(), "content") || str_eq(normalized.as_str(), "product") {
        return Ok(Some(normalized));
    }
    let mut message = owned("unsupported index target_type `");
    append(&mut message, trim_str(value).as_str());
    append(&mut message, "`; expected `content` or `product`");
    Err(SeoError::validation(message))
}

/// The rank of a replay mode name; unknown names rank with `not_started`.
pub open spec fn replay_rank(mode: Seq<char>) -> nat {
    if mode == "not_started"@ {
        0
    } else if mode == "repair_only"@ {
        1
    } else if mode == "replay_requested"@ {
        2
    } else if mode == "replaying"@ {
        3
    } else if mode == "replay_completed"@ {
        4
    } else {
        0
    }
}

/// The rank of a replay mode name (see `replay_rank`).
pub fn replay_mode_rank(mode: &str) -> (r: u8)
    ensures
        r == replay_rank(mode@),
{
    if str_eq(mode, INDEX_CURSOR_REPLAY_MODE_NOT_STARTED) {
        0
    } else if str_eq(mode, INDEX_CURSOR_REPLAY_MODE_REPAIR_ONLY) {
        1
    } else if str_eq(mode, INDEX_CURSOR_REPLAY_MODE_REPLAY_REQUESTED) {
        2
    } else if str_eq(mode, INDEX_CURSOR_REPLAY_MODE_REPLAYING) {
        3
    } else if str_eq(mode, INDEX_CURSOR_REPLAY_MODE_REPLAY_COMPLETED) {
        4
    } else {
        0
    }
}

/// The replay mode after a transition: the next mode when it ranks at
/// least as high, else the current one.
pub open spec fn advanced_mode(current: Seq<char>, next: Seq<char>) -> Seq<char> {
    if replay_rank(next) >= replay_rank(current) {
        next
    } else {
        current
    }
}

/// The replay mode after a transition (see `advanced_mode`).
pub fn advance_replay_mode(current: &str, next: &str) -> (r: String)
    ensures
        r@ == advanced_mode(current@, next@),
{
    if replay_mode_rank(next) >= replay_mode_rank(current) {
        owned(next)
    } else {
        owned(current)
    }
}

/// The replay mode named by a stored value; unknown values are
/// `NotStarted`.
pub fn parse_replay_mode(value: &str) -> (r: SeoIndexReplayMode)
    ensures
        r == match SeoIndexReplayMode::from_wire(value@) {
            Some(m) => m,
            None => SeoIndexReplayMode::NotStarted,
        },
{
    match SeoIndexReplayMode::parse(value) {
        Some(m) => m,
        None => SeoIndexReplayMode::NotStarted,
    }
}

/// Replay progress only moves forward: a transition never lowers the
/// rank, and lands on the higher-ranked of the two modes.
pub proof fn lemma_replay_mode_forward_only(current: Seq<char>, next: Seq<char>)
    ensures
        replay_rank(advanced_mode(current, next)) >= replay_rank(current),
        replay_rank(advanced_mode(current, next)) >= replay_rank(next),
        advanced_mode(current, next) == current || advanced_mode(current, next) == next,
{
}

/// Applying transitions one after another never lowers the rank.
pub proof fn lemma_replay_mode_monotone(a: Seq<char>, b: Seq<char>, c: Seq<char>)
    ensures
        replay_rank(advanced_mode(advanced_mode(a, b), c)) >= replay_rank(a),
{
}

} // verus!
