//! Bulk job records as the API reports them, the listing filter, and the
//! pages of the bulk editor.
use vstd::prelude::*;

use crate::bulk::map_bulk_source;
use crate::dto::{
    is_valid_slug, SeoBulkJobOperationKind, SeoBulkJobStatus, SeoBulkListInput, SeoBulkSource,
    SeoBulkSummaryRecord, SeoMetaRecord, SeoTargetSlug,
};
use crate::error::SeoError;
use crate::text::{copy_opt, lower, opt_view, owned, trim, trim_lower};

verus! {

// ---------------------------------------------------------------------------
// Job records
// ---------------------------------------------------------------------------

/// A file a bulk job produced.  Identifiers are the 128-bit values of UUIDs;
/// the creation time is a Unix timestamp.
#[derive(Debug)]
pub struct SeoBulkArtifactRecord {
    pub id: u128,
    pub job_id: u128,
    pub kind: String,
    pub file_name: String,
    pub mime_type: String,
    pub created_at: i64,
}

/// A stored bulk job, as plain values.
#[derive(Debug)]
pub struct SeoBulkJobRow {
    pub id: u128,
    pub operation_kind: String,
    pub status: String,
    pub target_kind: String,
    pub locale: String,
    pub publish_after_write: bool,
    pub matched_count: i32,
    pub processed_count: i32,
    pub succeeded_count: i32,
    pub failed_count: i32,
    pub artifact_count: i32,
    pub last_error: Option<String>,
    pub created_at: i64,
    pub started_at: Option<i64>,
    pub completed_at: Option<i64>,
}

/// A bulk job as the API reports it, with its artifacts.
#[derive(Debug)]
pub struct SeoBulkJobRecord {
    pub id: u128,
    pub operation_kind: SeoBulkJobOperationKind,
    pub status: SeoBulkJobStatus,
    pub target_kind: SeoTargetSlug,
    pub locale: String,
    pub publish_after_write: bool,
    pub matched_count: i32,
    pub processed_count: i32,
    pub succeeded_count: i32,
    pub failed_count: i32,
    pub artifact_count: i32,
    pub last_error: Option<String>,
    pub created_at: i64,
    pub started_at: Option<i64>,
    pub completed_at: Option<i64>,
    pub artifacts: Vec<SeoBulkArtifactRecord>,
}

/// The artifacts of one job, in the order they were loaded.
pub open spec fn job_artifacts(artifacts: Seq<SeoBulkArtifactRecord>, job_id: u128) -> Seq<SeoBulkArtifactRecord>
    decreases artifacts.len(),
{
    if artifacts.len() == 0 {
        Seq::empty()
    } else {
        let rest = job_artifacts(artifacts.drop_last(), job_id);
        if artifacts.last().job_id == job_id {
            rest.push(artifacts.last())
        } else {
            rest
        }
    }
}

/// A copy of an artifact.
pub fn copy_artifact(a: &SeoBulkArtifactRecord) -> (r: SeoBulkArtifactRecord)
    ensures
        r == *a,
{
    SeoBulkArtifactRecord {
        id: a.id,
        job_id: a.job_id,
        kind: a.kind.clone(),
        file_name: a.file_name.clone(),
        mime_type: a.mime_type.clone(),
        created_at: a.created_at,
    }
}

/// The artifacts of job `job_id` among the loaded ones, in order.
pub fn artifacts_of_job(artifacts: &Vec<SeoBulkArtifactRecord>, job_id: u128) -> (r: Vec<SeoBulkArtifactRecord>)
    ensures
        r@ == job_artifacts(artifacts@, job_id),
{
    let mut out: Vec<SeoBulkArtifactRecord> = Vec::new();
    let mut i: usize = 0;
    while i < artifacts.len()
        invariant
            i <= artifacts.len(),
            out@ == job_artifacts(artifacts@.take(i as int), job_id),
        decreases artifacts.len() - i,
    {
        proof {
            assert(artifacts@.take(i as int + 1).drop_last() =~= artifacts@.take(i as int));
        }
        if artifacts[i].job_id == job_id {
            out.push(copy_artifact(&artifacts[i]));
        }
        i = i + 1;
    }
    assert(artifacts@.take(artifacts.len() as int) =~= artifacts@);
    out
}

/// The job record of a stored job, with the job's artifacts among the
/// loaded ones.  A stored operation kind, status or target kind that is not
/// recognised is a validation error, checked in that order.
pub fn map_bulk_job_model(model: SeoBulkJobRow, artifacts: &Vec<SeoBulkArtifactRecord>) -> (r: Result<SeoBulkJobRecord, SeoError>)
    ensures
        SeoBulkJobOperationKind::from_wire(model.operation_kind@) is None ==> (r matches Err(
            SeoError::Validation(m),
        ) && m@ == "invalid bulk operation kind"@),
        SeoBulkJobOperationKind::from_wire(model.operation_kind@) is Some
            && SeoBulkJobStatus::from_wire(model.status@) is None ==> (r matches Err(
            SeoError::Validation(m),
        ) && m@ == "invalid bulk job status"@),
        SeoBulkJobOperationKind::from_wire(model.operation_kind@) is Some
            && SeoBulkJobStatus::from_wire(model.status@) is Some
            && !is_valid_slug(model.target_kind@) ==> (r matches Err(SeoError::Validation(m))
            && m@ == "invalid bulk target kind"@),
        r is Ok <==> (SeoBulkJobOperationKind::from_wire(model.operation_kind@) is Some
            && SeoBulkJobStatus::from_wire(model.status@) is Some && is_valid_slug(
            model.target_kind@,
        )),
        r matches Ok(rec) ==> {
            &&& rec.id == model.id
            &&& Some(rec.operation_kind) == SeoBulkJobOperationKind::from_wire(model.operation_kind@)
            &&& Some(rec.status) == SeoBulkJobStatus::from_wire(model.status@)
            &&& rec.target_kind@ == model.target_kind@
            &&& rec.locale@ == model.locale@
            &&& rec.publish_after_write == model.publish_after_write
            &&& rec.matched_count == model.matched_count
            &&& rec.processed_count == model.processed_count
            &&& rec.succeeded_count == model.succeeded_count
            &&& rec.failed_count == model.failed_count
            &&& rec.artifact_count == model.artifact_count
            &&& rec.last_error == model.last_error
            &&& rec.created_at == model.created_at
            &&& rec.started_at == model.started_at
            &&& rec.completed_at == model.completed_at
            &&& rec.artifacts@ == job_artifacts(artifacts@, model.id)
        },
{
    let operation_kind = match SeoBulkJobOperationKind::parse(model.operation_kind.as_str()) {
        Some(k) => k,
        None => return Err(SeoError::validation(owned("invalid bulk operation kind"))),
    };
    let status = match SeoBulkJobStatus::parse(model.status.as_str()) {
        Some(s) => s,
        None => return Err(SeoError::validation(owned("invalid bulk job status"))),
    };
    let target_kind = match SeoTargetSlug::new(model.target_kind.as_str()) {
        Some(k) => k,
        None => return Err(SeoError::validation(owned("invalid bulk target kind"))),
    };
    let job_artifacts = artifacts_of_job(artifacts, model.id);
    Ok(SeoBulkJobRecord {
        id: model.id,
        operation_kind,
        status,
        target_kind,
        locale: model.locale,
        publish_after_write: model.publish_after_write,
        matched_count: model.matched_count,
        processed_count: model.processed_count,
        succeeded_count: model.succeeded_count,
        failed_count: model.failed_count,
        artifact_count: model.artifact_count,
        last_error: model.last_error,
        created_at: model.created_at,
        started_at: model.started_at,
        completed_at: model.completed_at,
        artifacts: job_artifacts,
    })
}

// ---------------------------------------------------------------------------
// The listing filter
// ---------------------------------------------------------------------------

/// The largest page of the bulk editor.
pub const MAX_BULK_PAGE_SIZE: i32 = 100;

/// A bulk listing filter after normalization.
#[derive(Debug)]
pub struct NormalizedBulkListFilter {
    pub target_kind: SeoTargetSlug,
    pub locale: String,
    pub query: Option<String>,
    pub source: SeoBulkSource,
    pub page: i32,
    pub per_page: i32,
}

/// The search text of a filter: trimmed and lower-cased, none when blank.
pub open spec fn normalized_query(query: Option<Seq<char>>) -> Option<Seq<char>> {
    match query {
        Some(q) => if lower(trim(q)).len() == 0 {
            None
        } else {
            Some(lower(trim(q)))
        },
        None => None,
    }
}

/// The page of a filter: at least 1.
pub open spec fn normalized_page(page: i32) -> i32 {
    if page < 1 {
        1
    } else {
        page
    }
}

/// The page size of a filter: between 1 and 100.
pub open spec fn normalized_per_page(per_page: i32) -> i32 {
    if per_page < 1 {
        1
    } else if per_page > MAX_BULK_PAGE_SIZE {
        MAX_BULK_PAGE_SIZE
    } else {
        per_page
    }
}

/// Normalizes a listing filter: the locale is the tenant locale that the
/// requested one resolved to (its error, if it has none, is the result);
/// the search text is trimmed and lower-cased and dropped when blank; the
/// source defaults to any; the page is at least 1 and the page size between
/// 1 and 100.
pub fn normalize_bulk_list_input(input: SeoBulkListInput, locale: Result<String, SeoError>) -> (r: Result<NormalizedBulkListFilter, SeoError>)
    ensures
        locale is Err ==> r is Err && r->Err_0 == locale->Err_0,
        locale matches Ok(l) ==> (r matches Ok(f) && {
            &&& f.target_kind@ == input.target_kind@
            &&& f.locale@ == l@
            &&& opt_view(f.query) == normalized_query(opt_view(input.query))
            &&& f.source == match input.source {
                Some(s) => s,
                None => SeoBulkSource::Any,
            }
            &&& f.page == normalized_page(input.page)
            &&& f.per_page == normalized_per_page(input.per_page)
        }),
{
    let locale = match locale {
        Ok(l) => l,
        Err(e) => return Err(e),
    };
    let query = match &input.query {
        Some(q) => {
            let t = trim_lower(q.as_str());
            if t.as_str().unicode_len() == 0 {
                None
            } else {
                Some(t)
            }
        },
        None => None,
    };
    let source = match input.source {
        Some(s) => s,
        None => SeoBulkSource::Any,
    };
    let page = if input.page < 1 {
        1
    } else {
        input.page
    };
    let per_page = if input.per_page < 1 {
        1
    } else if input.per_page > MAX_BULK_PAGE_SIZE {
        MAX_BULK_PAGE_SIZE
    } else {
        input.per_page
    };
    Ok(NormalizedBulkListFilter { target_kind: input.target_kind, locale, query, source, page, per_page })
}

// ---------------------------------------------------------------------------
// Pages
// ---------------------------------------------------------------------------

/// A row of the bulk editor.
#[derive(Debug)]
pub struct SeoBulkItem {
    pub target_kind: SeoTargetSlug,
    /// The target, as the 128-bit value of its UUID.
    pub target_id: u128,
    pub locale: String,
    pub effective_locale: String,
    pub label: String,
    pub route: String,
    pub source: SeoBulkSource,
    pub title: Option<String>,
    pub description: Option<String>,
    pub canonical_url: Option<String>,
    pub noindex: bool,
    pub nofollow: bool,
}

/// A page of the bulk editor.
#[derive(Debug)]
pub struct SeoBulkPage {
    pub items: Vec<SeoBulkItem>,
    pub total: i32,
    pub page: i32,
    pub per_page: i32,
}

/// The first and the end index of a page among `total` matches: the page
/// starts after `(page - 1) * per_page` matches and holds at most
/// `per_page`.
pub open spec fn page_bounds(total: nat, page: int, per_page: int) -> (nat, nat) {
    let start = (page - 1) * per_page;
    if start >= total {
        (total, total)
    } else if start + per_page >= total {
        (start as nat, total)
    } else {
        (start as nat, (start + per_page) as nat)
    }
}

/// The index range of a page among `total` matches (see `page_bounds`).
pub fn bulk_page_range(total: usize, page: i32, per_page: i32) -> (r: (usize, usize))
    requires
        1 <= page,
        1 <= per_page <= MAX_BULK_PAGE_SIZE,
    ensures
        (r.0 as nat, r.1 as nat) == page_bounds(total as nat, page as int, per_page as int),
{
    let p: u64 = (page - 1) as u64;
    let size: u64 = per_page as u64;
    assert(p * size <= 0x7fff_ffff * 100) by (nonlinear_arith)
        requires
            p <= 0x7fff_ffff,
            size <= 100,
    ;
    let start: u64 = p * size;
    if start >= total as u64 {
        (total, total)
    } else if start + size >= total as u64 {
        (start as usize, total)
    } else {
        ((start as usize), (start + size) as usize)
    }
}

/// A row of the bulk editor for a matched target: the target from the
/// listing, the values from its metadata record, and the record's source,
/// or the listing's when the record's is not a known one.
pub fn bulk_item(
    target_kind: &SeoTargetSlug,
    locale: &str,
    summary: &SeoBulkSummaryRecord,
    scope_source: SeoBulkSource,
    record: &SeoMetaRecord,
) -> (r: SeoBulkItem)
    ensures
        r.target_kind@ == target_kind@,
        r.target_id == summary.target_id,
        r.locale@ == locale@,
        r.effective_locale@ == record.effective_locale@,
        r.label@ == summary.label@,
        r.route@ == summary.route@,
        r.source == match SeoBulkSource::from_wire(record.source@) {
            Some(s) => s,
            None => scope_source,
        },
        opt_view(r.title) == opt_view(record.translation.title),
        opt_view(r.description) == opt_view(record.translation.description),
        opt_view(r.canonical_url) == opt_view(record.canonical_url),
        r.noindex == record.noindex,
        r.nofollow == record.nofollow,
{
    let source = match map_bulk_source(record.source.as_str()) {
        Some(s) => s,
        None => scope_source,
    };
    SeoBulkItem {
        target_kind: target_kind.clone(),
        target_id: summary.target_id,
        locale: owned(locale),
        effective_locale: record.effective_locale.clone(),
        label: summary.label.clone(),
        route: summary.route.clone(),
        source,
        title: copy_opt(&record.translation.title),
        description: copy_opt(&record.translation.description),
        canonical_url: copy_opt(&record.canonical_url),
        noindex: record.noindex,
        nofollow: record.nofollow,
    }
}

/// The page of the bulk editor for a filter: the rows shown, the number of
/// all matches, and the filter's page and page size.
pub fn bulk_page(items: Vec<SeoBulkItem>, total: usize, filter: &NormalizedBulkListFilter) -> (r: SeoBulkPage)
    requires
        total <= i32::MAX,
    ensures
        r.items@ == items@,
        r.total == total,
        r.page == filter.page,
        r.per_page == filter.per_page,
{
    SeoBulkPage { items, total: total as i32, page: filter.page, per_page: filter.per_page }
}

} // verus!
