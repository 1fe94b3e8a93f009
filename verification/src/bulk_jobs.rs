//! Running bulk jobs: how a patch and an apply mode turn a target's
//! current metadata into the metadata to store, and the bookkeeping of a
//! job's targets, reports and final status.
use vstd::prelude::*;

use crate::bulk::{
    apply_bool_patch, apply_json_patch, apply_string_patch, map_bulk_source, patched_bool,
    patched_json, patched_string,
};
use crate::bulk_csv::{
    blank_row, build_failure_csv, build_preview_csv, csv_header_names, csv_headers, empty_csv_row,
    export_csv_row, export_csv_row_values, export_row, failure_rows, import_export_row,
    preview_rows, report_text, rows_view, write_csv_records, BulkImportRow, CsvWriteFailure,
    CsvWriteFailureData, csv_output, CSV_MIME_TYPE,
};
use crate::dto::{
    SeoBulkApplyMode, SeoBulkJobStatus, SeoBulkMetaPatchInput, SeoBulkSource, SeoFieldSource,
    SeoMetaInput, SeoMetaRecord, SeoMetaTranslationInput, SeoTargetSlug,
};
use crate::error::SeoError;
use crate::json::{JsonData, JsonValue};
use crate::text::{append, dec_nat, opt_view, owned, push_dec_u64, uuid_text, uuid_to_string, views};

verus! {

// ---------------------------------------------------------------------------
// Patching one target
// ---------------------------------------------------------------------------

/// The source of a target's current metadata; unknown sources count as
/// fallback.
pub open spec fn current_source(m: SeoMetaRecord) -> SeoBulkSource {
    match SeoBulkSource::from_wire(m.source@) {
        Some(s) => s,
        None => SeoBulkSource::Fallback,
    }
}

/// Why an apply mode refuses to write a target: preview never writes;
/// missing-only keeps explicit metadata; missing-schema-only keeps
/// explicit structured data; generated-only needs generated metadata.
pub open spec fn mode_refusal(mode: SeoBulkApplyMode, m: SeoMetaRecord) -> Option<Seq<char>> {
    match mode {
        SeoBulkApplyMode::PreviewOnly => Some("bulk apply mode `preview_only` does not write SEO records"@),
        SeoBulkApplyMode::ApplyMissingOnly => if current_source(m) == SeoBulkSource::Explicit {
            Some("bulk apply mode `apply_missing_only` does not overwrite explicit SEO"@)
        } else {
            None
        },
        SeoBulkApplyMode::ApplyMissingSchemaOnly => if m.effective_state.structured_data.source
            == SeoFieldSource::Explicit {
            Some("bulk apply mode `apply_missing_schema_only` does not overwrite explicit structured_data"@)
        } else {
            None
        },
        SeoBulkApplyMode::OverwriteGeneratedOnly => if current_source(m) != SeoBulkSource::Generated {
            Some(
                "bulk apply mode `overwrite_generated_only` requires generated SEO, got `"@
                    + current_source(m).wire() + "`"@,
            )
        } else {
            None
        },
        SeoBulkApplyMode::ForceOverwriteExplicit => None,
    }
}

/// The mathematical form of the metadata to store.
pub struct MetaInputData {
    pub target_kind: Seq<char>,
    pub target_id: u128,
    pub noindex: bool,
    pub nofollow: bool,
    pub canonical_url: Option<Seq<char>>,
    pub structured_data: Option<JsonData>,
    pub locale: Seq<char>,
    pub title: Option<Seq<char>>,
    pub description: Option<Seq<char>>,
    pub keywords: Option<Seq<char>>,
    pub og_title: Option<Seq<char>>,
    pub og_description: Option<Seq<char>>,
    pub og_image: Option<Seq<char>>,
}

/// The metadata input in its mathematical form; it carries one
/// translation.
pub open spec fn meta_input_view(i: SeoMetaInput) -> MetaInputData {
    let t = i.translations@[0];
    MetaInputData {
        target_kind: i.target_kind@,
        target_id: i.target_id,
        noindex: i.noindex,
        nofollow: i.nofollow,
        canonical_url: opt_view(i.canonical_url),
        structured_data: match i.structured_data {
            Some(v) => Some(v@),
            None => None,
        },
        locale: t.locale@,
        title: opt_view(t.title),
        description: opt_view(t.description),
        keywords: opt_view(t.keywords),
        og_title: opt_view(t.og_title),
        og_description: opt_view(t.og_description),
        og_image: opt_view(t.og_image),
    }
}

/// The metadata a bulk apply stores for a target: the mode's refusal, or
/// each field patched in turn (flags, canonical URL, structured data,
/// then the translated texts); the first refused patch is the error.
pub open spec fn patched_meta(
    kind: Seq<char>,
    id: u128,
    locale: Seq<char>,
    m: SeoMetaRecord,
    p: SeoBulkMetaPatchInput,
    mode: SeoBulkApplyMode,
) -> Result<MetaInputData, Seq<char>> {
    match mode_refusal(mode, m) {
        Some(e) => Err(e),
        None => match (
            patched_bool(m.noindex, p.noindex),
            patched_bool(m.nofollow, p.nofollow),
            patched_string(opt_view(m.canonical_url), p.canonical_url),
            patched_json(m.structured_data, p.structured_data),
            patched_string(opt_view(m.translation.title), p.title),
            patched_string(opt_view(m.translation.description), p.description),
            patched_string(opt_view(m.translation.keywords), p.keywords),
            patched_string(opt_view(m.translation.og_title), p.og_title),
            patched_string(opt_view(m.translation.og_description), p.og_description),
            patched_string(opt_view(m.translation.og_image), p.og_image),
        ) {
            (Err(e), _, _, _, _, _, _, _, _, _) => Err(e),
            (Ok(_), Err(e), _, _, _, _, _, _, _, _) => Err(e),
            (Ok(_), Ok(_), Err(e), _, _, _, _, _, _, _) => Err(e),
            (Ok(_), Ok(_), Ok(_), Err(e), _, _, _, _, _, _) => Err(e),
            (Ok(_), Ok(_), Ok(_), Ok(_), Err(e), _, _, _, _, _) => Err(e),
            (Ok(_), Ok(_), Ok(_), Ok(_), Ok(_), Err(e), _, _, _, _) => Err(e),
            (Ok(_), Ok(_), Ok(_), Ok(_), Ok(_), Ok(_), Err(e), _, _, _) => Err(e),
            (Ok(_), Ok(_), Ok(_), Ok(_), Ok(_), Ok(_), Ok(_), Err(e), _, _) => Err(e),
            (Ok(_), Ok(_), Ok(_), Ok(_), Ok(_), Ok(_), Ok(_), Ok(_), Err(e), _) => Err(e),
            (Ok(_), Ok(_), Ok(_), Ok(_), Ok(_), Ok(_), Ok(_), Ok(_), Ok(_), Err(e)) => Err(e),
            (
                Ok(noindex),
                Ok(nofollow),
                Ok(canonical_url),
                Ok(structured_data),
                Ok(title),
                Ok(description),
                Ok(keywords),
                Ok(og_title),
                Ok(og_description),
                Ok(og_image),
            ) => Ok(
                MetaInputData {
                    target_kind: kind,
                    target_id: id,
                    noindex,
                    nofollow,
                    canonical_url,
                    structured_data,
                    locale,
                    title,
                    description,
                    keywords,
                    og_title,
                    og_description,
                    og_image,
                },
            ),
        },
    }
}

/// A bulk patch that clears a flag stores it off: whenever the patched
/// metadata is stored, a cleared `noindex` or `nofollow` is `false`,
/// whatever the target had.
pub proof fn lemma_cleared_flags_are_stored_off(
    kind: Seq<char>,
    id: u128,
    locale: Seq<char>,
    m: SeoMetaRecord,
    p: SeoBulkMetaPatchInput,
    mode: SeoBulkApplyMode,
)
    ensures
        (p.noindex matches Some(x) && x.mode == crate::dto::SeoBulkFieldPatchMode::Clear) ==> match patched_meta(
            kind,
            id,
            locale,
            m,
            p,
            mode,
        ) {
            Ok(d) => !d.noindex,
            Err(_) => true,
        },
        (p.nofollow matches Some(x) && x.mode == crate::dto::SeoBulkFieldPatchMode::Clear) ==> match patched_meta(
            kind,
            id,
            locale,
            m,
            p,
            mode,
        ) {
            Ok(d) => !d.nofollow,
            Err(_) => true,
        },
{
    if let Some(x) = p.noindex {
        crate::bulk::lemma_flag_patch_modes(m.noindex, x);
    }
    if let Some(x) = p.nofollow {
        crate::bulk::lemma_flag_patch_modes(m.nofollow, x);
    }
}

fn refusal(mode: SeoBulkApplyMode, m: &SeoMetaRecord) -> (r: Option<String>)
    ensures
        opt_view(r) == mode_refusal(mode, *m),
{
    let source = match map_bulk_source(m.source.as_str()) {
        Some(s) => s,
        None => SeoBulkSource::Fallback,
    };
    match mode {
        SeoBulkApplyMode::PreviewOnly => Some(owned("bulk apply mode `preview_only` does not write SEO records")),
        SeoBulkApplyMode::ApplyMissingOnly => if source == SeoBulkSource::Explicit {
            Some(owned("bulk apply mode `apply_missing_only` does not overwrite explicit SEO"))
        } else {
            None
        },
        SeoBulkApplyMode::ApplyMissingSchemaOnly => match m.effective_state.structured_data.source {
            SeoFieldSource::Explicit => Some(
                owned("bulk apply mode `apply_missing_schema_only` does not overwrite explicit structured_data"),
            ),
            _ => None,
        },
        SeoBulkApplyMode::OverwriteGeneratedOnly => if source != SeoBulkSource::Generated {
            let mut e = owned("bulk apply mode `overwrite_generated_only` requires generated SEO, got `");
            append(&mut e, source.as_str());
            append(&mut e, "`");
            Some(e)
        } else {
            None
        },
        SeoBulkApplyMode::ForceOverwriteExplicit => None,
    }
}

/// The metadata a bulk apply stores for a target whose current metadata
/// is `current` (see `patched_meta`); the input carries one translation,
/// in the job's locale.
pub fn bulk_patch_meta_input(
    target_kind: &SeoTargetSlug,
    target_id: u128,
    locale: &str,
    current: &SeoMetaRecord,
    patch: &SeoBulkMetaPatchInput,
    apply_mode: SeoBulkApplyMode,
) -> (r: Result<SeoMetaInput, SeoError>)
    ensures
        match (r, patched_meta(target_kind@, target_id, locale@, *current, *patch, apply_mode)) {
            (Ok(i), Ok(d)) => i.translations@.len() == 1 && meta_input_view(i) == d,
            (Err(SeoError::Validation(m)), Err(e)) => m@ == e,
            _ => false,
        },
{
    if let Some(e) = refusal(apply_mode, current) {
        return Err(SeoError::validation(e));
    }
    let noindex = apply_bool_patch(current.noindex, patch.noindex.as_ref());
    let noindex = match noindex {
        Ok(v) => v,
        Err(e) => return Err(e),
    };
    let nofollow = match apply_bool_patch(current.nofollow, patch.nofollow.as_ref()) {
        Ok(v) => v,
        Err(e) => return Err(e),
    };
    let canonical_url = match apply_string_patch(
        crate::text::copy_opt(&current.canonical_url),
        patch.canonical_url.as_ref(),
    ) {
        Ok(v) => v,
        Err(e) => return Err(e),
    };
    let current_json: Option<JsonValue> = match &current.structured_data {
        Some(v) => Some(v.deep_copy()),
        None => None,
    };
    let structured_data = match apply_json_patch(current_json, patch.structured_data.as_ref()) {
        Ok(v) => v,
        Err(e) => return Err(e),
    };
    let tr = &current.translation;
    let title = match apply_string_patch(crate::text::copy_opt(&tr.title), patch.title.as_ref()) {
        Ok(v) => v,
        Err(e) => return Err(e),
    };
    let description = match apply_string_patch(
        crate::text::copy_opt(&tr.description),
        patch.description.as_ref(),
    ) {
        Ok(v) => v,
        Err(e) => return Err(e),
    };
    let keywords = match apply_string_patch(crate::text::copy_opt(&tr.keywords), patch.keywords.as_ref()) {
        Ok(v) => v,
        Err(e) => return Err(e),
    };
    let og_title = match apply_string_patch(crate::text::copy_opt(&tr.og_title), patch.og_title.as_ref()) {
        Ok(v) => v,
        Err(e) => return Err(e),
    };
    let og_description = match apply_string_patch(
        crate::text::copy_opt(&tr.og_description),
        patch.og_description.as_ref(),
    ) {
        Ok(v) => v,
        Err(e) => return Err(e),
    };
    let og_image = match apply_string_patch(crate::text::copy_opt(&tr.og_image), patch.og_image.as_ref()) {
        Ok(v) => v,
        Err(e) => return Err(e),
    };
    let mut translations: Vec<SeoMetaTranslationInput> = Vec::new();
    translations.push(
        SeoMetaTranslationInput {
            locale: owned(locale),
            title,
            description,
            keywords,
            og_title,
            og_description,
            og_image,
        },
    );
    Ok(
        SeoMetaInput {
            target_kind: target_kind.copy(),
            target_id,
            noindex,
            nofollow,
            canonical_url,
            structured_data,
            translations,
        },
    )
}

/// The metadata a bulk import stores for a row: the row's values as they
/// are, with one translation in the job's locale.
pub open spec fn imported_meta(kind: Seq<char>, locale: Seq<char>, d: crate::bulk_csv::ImportRowData) -> MetaInputData {
    MetaInputData {
        target_kind: kind,
        target_id: d.target_id,
        noindex: d.noindex,
        nofollow: d.nofollow,
        canonical_url: d.canonical_url,
        structured_data: d.structured_data,
        locale,
        title: d.title,
        description: d.description,
        keywords: d.keywords,
        og_title: d.og_title,
        og_description: d.og_description,
        og_image: d.og_image,
    }
}

/// The metadata a bulk import stores for a row (see `imported_meta`).
pub fn import_meta_input(target_kind: &SeoTargetSlug, locale: &str, row: &BulkImportRow) -> (r: SeoMetaInput)
    ensures
        r.translations@.len() == 1,
        meta_input_view(r) == imported_meta(target_kind@, locale@, row@),
{
    let mut translations: Vec<SeoMetaTranslationInput> = Vec::new();
    translations.push(
        SeoMetaTranslationInput {
            locale: owned(locale),
            title: crate::text::copy_opt(&row.title),
            description: crate::text::copy_opt(&row.description),
            keywords: crate::text::copy_opt(&row.keywords),
            og_title: crate::text::copy_opt(&row.og_title),
            og_description: crate::text::copy_opt(&row.og_description),
            og_image: crate::text::copy_opt(&row.og_image),
        },
    );
    SeoMetaInput {
        target_kind: target_kind.copy(),
        target_id: row.target_id,
        noindex: row.noindex,
        nofollow: row.nofollow,
        canonical_url: crate::text::copy_opt(&row.canonical_url),
        structured_data: match &row.structured_data {
            Some(v) => Some(v.deep_copy()),
            None => None,
        },
        translations,
    }
}

/// The note of the revision a bulk job publishes after writing.
pub open spec fn revision_note(job_id: u128, operation: Seq<char>) -> Seq<char> {
    "bulk job "@ + uuid_text(job_id) + " "@ + operation
}

/// The note of the revision a bulk job publishes (see `revision_note`);
/// the operation is `apply` or `import_csv`.
pub fn bulk_revision_note(job_id: u128, operation: &str) -> (r: String)
    ensures
        r@ == revision_note(job_id, operation@),
{
    let mut s = owned("bulk job ");
    let id = uuid_to_string(job_id);
    append(&mut s, id.as_str());
    append(&mut s, " ");
    append(&mut s, operation);
    s
}

// ---------------------------------------------------------------------------
// Job bookkeeping
// ---------------------------------------------------------------------------

/// The message of a target whose metadata could not be found.
pub const TARGET_NOT_FOUND_MESSAGE: &'static str = "SEO target not found";

/// What a bulk job records for one target: failed with a message, or
/// completed with the revision it published, if any.
#[derive(Clone, Debug)]
pub struct SeoBulkJobItemOutcome {
    pub target_id: u128,
    pub error_message: Option<String>,
    pub published_revision: Option<i32>,
}

impl SeoBulkJobItemOutcome {
    /// The stored status of the item: `failed` with an error, else
    /// `completed`.
    pub fn status(&self) -> (r: &'static str)
        ensures
            r@ == if self.error_message is Some {
                "failed"@
            } else {
                "completed"@
            },
    {
        if self.error_message.is_some() {
            "failed"
        } else {
            "completed"
        }
    }
}

/// A report a bulk job stores.
#[derive(Clone, Debug)]
pub struct SeoBulkJobArtifactOutput {
    pub kind: String,
    pub file_name: String,
    pub mime_type: String,
    pub content: String,
}

/// The running counts and report rows of a bulk job.
#[derive(Debug)]
pub struct BulkJobTally {
    pub succeeded: i32,
    pub failed: i32,
    /// Rows of the preview report (preview applies).
    pub preview_rows: Vec<Vec<String>>,
    /// Rows of the export file (exports), with the target of each.
    pub export_rows: Vec<(u128, Vec<String>)>,
    /// Rows of the failure report, each with its message.
    pub failure_rows: Vec<(Vec<String>, String)>,
}

/// The views of rows paired with their targets.
pub open spec fn tagged_rows_view(v: Seq<(u128, Vec<String>)>) -> Seq<(u128, Seq<Seq<char>>)> {
    v.map_values(|e: (u128, Vec<String>)| (e.0, views(e.1@)))
}

/// The views of rows paired with their messages.
pub open spec fn failure_rows_view(v: Seq<(Vec<String>, String)>) -> Seq<(Seq<Seq<char>>, Seq<char>)> {
    v.map_values(|e: (Vec<String>, String)| (views(e.0@), e.1@))
}

impl BulkJobTally {
    /// A tally with nothing recorded.
    pub fn new() -> (r: BulkJobTally)
        ensures
            r.succeeded == 0,
            r.failed == 0,
            r.preview_rows@.len() == 0,
            r.export_rows@.len() == 0,
            r.failure_rows@.len() == 0,
    {
        BulkJobTally {
            succeeded: 0,
            failed: 0,
            preview_rows: Vec::new(),
            export_rows: Vec::new(),
            failure_rows: Vec::new(),
        }
    }

    /// The number of targets recorded.
    pub open spec fn processed(self) -> int {
        self.succeeded + self.failed
    }

    fn fail(&mut self, row: Vec<String>, message: String)
        requires
            old(self).failed < i32::MAX,
        ensures
            final(self).failed == old(self).failed + 1,
            final(self).succeeded == old(self).succeeded,
            final(self).preview_rows@ == old(self).preview_rows@,
            final(self).export_rows@ == old(self).export_rows@,
            failure_rows_view(final(self).failure_rows@) == failure_rows_view(old(self).failure_rows@).push(
                (views(row@), message@),
            ),
    {
        self.failed = self.failed + 1;
        let ghost prev = self.failure_rows@;
        let ghost entry = (views(row@), message@);
        self.failure_rows.push((row, message));
        assert(failure_rows_view(self.failure_rows@) =~= failure_rows_view(prev).push(entry));
    }

    /// Records a target of a preview apply: its current metadata becomes
    /// a preview row; a missing target or a load error (its text) becomes
    /// a failure row with the target columns only.
    pub fn record_preview(
        &mut self,
        target_kind: &SeoTargetSlug,
        target_id: u128,
        locale: &str,
        loaded: Result<Option<&SeoMetaRecord>, String>,
    ) -> (r: SeoBulkJobItemOutcome)
        requires
            old(self).succeeded < i32::MAX,
            old(self).failed < i32::MAX,
        ensures
            r.target_id == target_id,
            r.published_revision is None,
            final(self).export_rows@ == old(self).export_rows@,
            match loaded {
                Ok(Some(m)) => {
                    &&& r.error_message is None
                    &&& final(self).succeeded == old(self).succeeded + 1
                    &&& final(self).failed == old(self).failed
                    &&& rows_view(final(self).preview_rows@) == rows_view(old(self).preview_rows@).push(
                        export_row(target_kind@, target_id, locale@, *m),
                    )
                    &&& final(self).failure_rows@ == old(self).failure_rows@
                },
                _ => {
                    let message = match loaded {
                        Err(e) => e@,
                        _ => TARGET_NOT_FOUND_MESSAGE@,
                    };
                    &&& opt_view(r.error_message) == Some(message)
                    &&& final(self).succeeded == old(self).succeeded
                    &&& final(self).failed == old(self).failed + 1
                    &&& final(self).preview_rows@ == old(self).preview_rows@
                    &&& failure_rows_view(final(self).failure_rows@) == failure_rows_view(
                        old(self).failure_rows@,
                    ).push((blank_row(target_kind@, target_id, locale@), message))
                },
            },
    {
        match loaded {
            Ok(Some(m)) => {
                let row = export_csv_row(target_kind, target_id, locale, m);
                let ghost prev = self.preview_rows@;
                let ghost rv = views(row@);
                self.preview_rows.push(row);
                assert(rows_view(self.preview_rows@) =~= rows_view(prev).push(rv));
                self.succeeded = self.succeeded + 1;
                SeoBulkJobItemOutcome { target_id, error_message: None, published_revision: None }
            },
            Ok(None) => {
                let message = owned(TARGET_NOT_FOUND_MESSAGE);
                self.fail(empty_csv_row(target_kind.as_str(), target_id, locale), message.clone());
                SeoBulkJobItemOutcome { target_id, error_message: Some(message), published_revision: None }
            },
            Err(e) => {
                self.fail(empty_csv_row(target_kind.as_str(), target_id, locale), e.clone());
                SeoBulkJobItemOutcome { target_id, error_message: Some(e), published_revision: None }
            },
        }
    }

    /// Records a target of a writing apply: a write that succeeded (with
    /// the revision it published, if any), or one that failed with the
    /// error's text, which becomes a failure row with the target columns
    /// only.
    pub fn record_apply(
        &mut self,
        target_kind: &SeoTargetSlug,
        target_id: u128,
        locale: &str,
        written: Result<Option<i32>, String>,
    ) -> (r: SeoBulkJobItemOutcome)
        requires
            old(self).succeeded < i32::MAX,
            old(self).failed < i32::MAX,
        ensures
            r.target_id == target_id,
            final(self).preview_rows@ == old(self).preview_rows@,
            final(self).export_rows@ == old(self).export_rows@,
            match written {
                Ok(rev) => {
                    &&& r.error_message is None
                    &&& r.published_revision == rev
                    &&& final(self).succeeded == old(self).succeeded + 1
                    &&& final(self).failed == old(self).failed
                    &&& final(self).failure_rows@ == old(self).failure_rows@
                },
                Err(e) => {
                    &&& opt_view(r.error_message) == Some(e@)
                    &&& r.published_revision is None
                    &&& final(self).succeeded == old(self).succeeded
                    &&& final(self).failed == old(self).failed + 1
                    &&& failure_rows_view(final(self).failure_rows@) == failure_rows_view(
                        old(self).failure_rows@,
                    ).push((blank_row(target_kind@, target_id, locale@), e@))
                },
            },
    {
        match written {
            Ok(rev) => {
                self.succeeded = self.succeeded + 1;
                SeoBulkJobItemOutcome { target_id, error_message: None, published_revision: rev }
            },
            Err(e) => {
                self.fail(empty_csv_row(target_kind.as_str(), target_id, locale), e.clone());
                SeoBulkJobItemOutcome { target_id, error_message: Some(e), published_revision: None }
            },
        }
    }

    /// Records a target of an export: its current metadata becomes an
    /// export row; a missing target or a load error (its text) becomes a
    /// failure row with the target columns only.
    pub fn record_export(
        &mut self,
        target_kind: &SeoTargetSlug,
        target_id: u128,
        locale: &str,
        loaded: Result<Option<&SeoMetaRecord>, String>,
    ) -> (r: SeoBulkJobItemOutcome)
        requires
            old(self).succeeded < i32::MAX,
            old(self).failed < i32::MAX,
        ensures
            r.target_id == target_id,
            r.published_revision is None,
            final(self).preview_rows@ == old(self).preview_rows@,
            match loaded {
                Ok(Some(m)) => {
                    &&& r.error_message is None
                    &&& final(self).succeeded == old(self).succeeded + 1
                    &&& final(self).failed == old(self).failed
                    &&& tagged_rows_view(final(self).export_rows@) == tagged_rows_view(
                        old(self).export_rows@,
                    ).push((target_id, export_row(target_kind@, target_id, locale@, *m)))
                    &&& final(self).failure_rows@ == old(self).failure_rows@
                },
                _ => {
                    let message = match loaded {
                        Err(e) => e@,
                        _ => TARGET_NOT_FOUND_MESSAGE@,
                    };
                    &&& opt_view(r.error_message) == Some(message)
                    &&& final(self).succeeded == old(self).succeeded
                    &&& final(self).failed == old(self).failed + 1
                    &&& final(self).export_rows@ == old(self).export_rows@
                    &&& failure_rows_view(final(self).failure_rows@) == failure_rows_view(
                        old(self).failure_rows@,
                    ).push((blank_row(target_kind@, target_id, locale@), message))
                },
            },
    {
        match loaded {
            Ok(Some(m)) => {
                let row = export_csv_row(target_kind, target_id, locale, m);
                let ghost prev = self.export_rows@;
                let ghost rv = views(row@);
                self.export_rows.push((target_id, row));
                assert(tagged_rows_view(self.export_rows@) =~= tagged_rows_view(prev).push((target_id, rv)));
                self.succeeded = self.succeeded + 1;
                SeoBulkJobItemOutcome { target_id, error_message: None, published_revision: None }
            },
            Ok(None) => {
                let message = owned(TARGET_NOT_FOUND_MESSAGE);
                self.fail(empty_csv_row(target_kind.as_str(), target_id, locale), message.clone());
                SeoBulkJobItemOutcome { target_id, error_message: Some(message), published_revision: None }
            },
            Err(e) => {
                self.fail(empty_csv_row(target_kind.as_str(), target_id, locale), e.clone());
                SeoBulkJobItemOutcome { target_id, error_message: Some(e), published_revision: None }
            },
        }
    }

    /// Records a row of an import: a write that succeeded (with the
    /// revision it published, if any), or one that failed with the error's
    /// text; a failed row is reported with its values and
    /// `row <n>: <error>`.
    pub fn record_import(
        &mut self,
        target_kind: &SeoTargetSlug,
        locale: &str,
        row: &BulkImportRow,
        written: Result<Option<i32>, String>,
    ) -> (r: SeoBulkJobItemOutcome)
        requires
            old(self).succeeded < i32::MAX,
            old(self).failed < i32::MAX,
        ensures
            r.target_id == row.target_id,
            final(self).preview_rows@ == old(self).preview_rows@,
            final(self).export_rows@ == old(self).export_rows@,
            match written {
                Ok(rev) => {
                    &&& r.error_message is None
                    &&& r.published_revision == rev
                    &&& final(self).succeeded == old(self).succeeded + 1
                    &&& final(self).failed == old(self).failed
                    &&& final(self).failure_rows@ == old(self).failure_rows@
                },
                Err(e) => {
                    &&& opt_view(r.error_message) == Some(e@)
                    &&& r.published_revision is None
                    &&& final(self).succeeded == old(self).succeeded
                    &&& final(self).failed == old(self).failed + 1
                    &&& failure_rows_view(final(self).failure_rows@) == failure_rows_view(
                        old(self).failure_rows@,
                    ).push(
                        (
                            import_export_row(target_kind@, locale@, row@),
                            "row "@ + dec_nat(row.row_number as nat) + ": "@ + e@,
                        ),
                    )
                },
            },
    {
        match written {
            Ok(rev) => {
                self.succeeded = self.succeeded + 1;
                SeoBulkJobItemOutcome { target_id: row.target_id, error_message: None, published_revision: rev }
            },
            Err(e) => {
                let mut message = owned("row ");
                push_dec_u64(&mut message, row.row_number as u64);
                append(&mut message, ": ");
                append(&mut message, e.as_str());
                self.fail(export_csv_row_values(target_kind, locale, row), message);
                SeoBulkJobItemOutcome { target_id: row.target_id, error_message: Some(e), published_revision: None }
            },
        }
    }

    /// The status a job ends with: completed without failures, failed
    /// without successes, partial otherwise.
    pub fn final_status(&self) -> (r: SeoBulkJobStatus)
        ensures
            r == job_status(self.succeeded as int, self.failed as int),
    {
        if self.failed == 0 {
            SeoBulkJobStatus::Completed
        } else if self.succeeded == 0 {
            SeoBulkJobStatus::Failed
        } else {
            SeoBulkJobStatus::Partial
        }
    }
}

/// The status a job ends with: completed without failures, failed without
/// successes, partial otherwise.
pub open spec fn job_status(succeeded: int, failed: int) -> SeoBulkJobStatus {
    if failed == 0 {
        SeoBulkJobStatus::Completed
    } else if succeeded == 0 {
        SeoBulkJobStatus::Failed
    } else {
        SeoBulkJobStatus::Partial
    }
}

/// A job ends completed exactly when nothing failed, failed exactly when
/// something failed and nothing succeeded, and partial otherwise.
pub proof fn lemma_job_status_cases(succeeded: int, failed: int)
    ensures
        (job_status(succeeded, failed) == SeoBulkJobStatus::Completed) <==> failed == 0,
        (job_status(succeeded, failed) == SeoBulkJobStatus::Failed) <==> (failed != 0 && succeeded == 0),
        (job_status(succeeded, failed) == SeoBulkJobStatus::Partial) <==> (failed != 0 && succeeded != 0),
{
}

// ---------------------------------------------------------------------------
// Reports
// ---------------------------------------------------------------------------

/// The file name of a job report: `seo-bulk-<label>-<job id>.csv`.
pub open spec fn report_file_name(label: Seq<char>, job_id: u128) -> Seq<char> {
    "seo-bulk-"@ + label + "-"@ + uuid_text(job_id) + ".csv"@
}

fn report_file(label: &str, job_id: u128) -> (r: String)
    ensures
        r@ == report_file_name(label@, job_id),
{
    let mut s = owned("seo-bulk-");
    append(&mut s, label);
    append(&mut s, "-");
    let id = uuid_to_string(job_id);
    append(&mut s, id.as_str());
    append(&mut s, ".csv");
    s
}

/// The mathematical form of a stored report: kind, file name, media type
/// and content.
pub open spec fn artifact_view(a: SeoBulkJobArtifactOutput) -> (Seq<char>, Seq<char>, Seq<char>, Seq<char>) {
    (a.kind@, a.file_name@, a.mime_type@, a.content@)
}

/// The mathematical forms of stored reports.
pub open spec fn artifacts_view(v: Seq<SeoBulkJobArtifactOutput>) -> Seq<(Seq<char>, Seq<char>, Seq<char>, Seq<char>)> {
    v.map_values(|a: SeoBulkJobArtifactOutput| artifact_view(a))
}

/// The failure rows of a tally as the failure report takes them.
pub open spec fn tally_failure_rows(t: BulkJobTally) -> Seq<Seq<Seq<char>>> {
    failure_rows(t.failure_rows@)
}

fn failure_artifact(t: &BulkJobTally, label: &str, job_id: u128) -> (r: Result<SeoBulkJobArtifactOutput, SeoError>)
    ensures
        match (r, report_text(failure_rows(t.failure_rows@), "failure"@)) {
            (Ok(a), Ok(c)) => artifact_view(a) == ("failure_report"@, report_file_name(label@, job_id), CSV_MIME_TYPE@, c),
            (Err(SeoError::Validation(m)), Err(e)) => m@ == e,
            _ => false,
        },
{
    match build_failure_csv(&t.failure_rows) {
        Ok(content) => Ok(
            SeoBulkJobArtifactOutput {
                kind: owned("failure_report"),
                file_name: report_file(label, job_id),
                mime_type: owned(CSV_MIME_TYPE),
                content,
            },
        ),
        Err(e) => Err(e),
    }
}

/// The reports of an apply job: a preview report when previews were
/// recorded, then a failure report when failures were.
pub open spec fn apply_reports(t: BulkJobTally, job_id: u128) -> Result<Seq<(Seq<char>, Seq<char>, Seq<char>, Seq<char>)>, Seq<char>> {
    let preview = if t.preview_rows@.len() > 0 {
        match report_text(preview_rows(t.preview_rows@), "preview"@) {
            Ok(c) => Ok(seq![("preview_report"@, report_file_name("preview"@, job_id), CSV_MIME_TYPE@, c)]),
            Err(e) => Err(e),
        }
    } else {
        Ok(Seq::empty())
    };
    match preview {
        Err(e) => Err(e),
        Ok(p) => if t.failure_rows@.len() > 0 {
            match report_text(failure_rows(t.failure_rows@), "failure"@) {
                Ok(c) => Ok(p.push(("failure_report"@, report_file_name("apply-failures"@, job_id), CSV_MIME_TYPE@, c))),
                Err(e) => Err(e),
            }
        } else {
            Ok(p)
        },
    }
}

/// The reports of an apply job (see `apply_reports`).
pub fn apply_job_artifacts(t: &BulkJobTally, job_id: u128) -> (r: Result<Vec<SeoBulkJobArtifactOutput>, SeoError>)
    ensures
        match (r, apply_reports(*t, job_id)) {
            (Ok(v), Ok(a)) => artifacts_view(v@) == a,
            (Err(SeoError::Validation(m)), Err(e)) => m@ == e,
            _ => false,
        },
{
    let mut out: Vec<SeoBulkJobArtifactOutput> = Vec::new();
    if t.preview_rows.len() > 0 {
        match build_preview_csv(&t.preview_rows) {
            Ok(content) => {
                out.push(
                    SeoBulkJobArtifactOutput {
                        kind: owned("preview_report"),
                        file_name: report_file("preview", job_id),
                        mime_type: owned(CSV_MIME_TYPE),
                        content,
                    },
                );
            },
            Err(e) => return Err(e),
        }
    }
    let ghost first = artifacts_view(out@);
    if t.failure_rows.len() > 0 {
        match failure_artifact(t, "apply-failures", job_id) {
            Ok(a) => {
                out.push(a);
                assert(artifacts_view(out@) =~= first.push(artifact_view(out@.last())));
            },
            Err(e) => return Err(e),
        }
    }
    proof {
        reveal_strlit("preview");
        reveal_strlit("apply-failures");
    }
    Ok(out)
}

/// The reports of an import job: a failure report when failures were
/// recorded.
pub open spec fn import_reports(t: BulkJobTally, job_id: u128) -> Result<Seq<(Seq<char>, Seq<char>, Seq<char>, Seq<char>)>, Seq<char>> {
    if t.failure_rows@.len() > 0 {
        match report_text(failure_rows(t.failure_rows@), "failure"@) {
            Ok(c) => Ok(seq![("failure_report"@, report_file_name("import-failures"@, job_id), CSV_MIME_TYPE@, c)]),
            Err(e) => Err(e),
        }
    } else {
        Ok(Seq::empty())
    }
}

/// The reports of an import job (see `import_reports`).
pub fn import_job_artifacts(t: &BulkJobTally, job_id: u128) -> (r: Result<Vec<SeoBulkJobArtifactOutput>, SeoError>)
    ensures
        match (r, import_reports(*t, job_id)) {
            (Ok(v), Ok(a)) => artifacts_view(v@) == a,
            (Err(SeoError::Validation(m)), Err(e)) => m@ == e,
            _ => false,
        },
{
    let mut out: Vec<SeoBulkJobArtifactOutput> = Vec::new();
    if t.failure_rows.len() > 0 {
        match failure_artifact(t, "import-failures", job_id) {
            Ok(a) => {
                out.push(a);
                assert(artifacts_view(out@) =~= seq![artifact_view(out@[0])]);
            },
            Err(e) => return Err(e),
        }
    }
    proof {
        reveal_strlit("import-failures");
    }
    Ok(out)
}

/// The records of an export file: the public header row, then the export
/// rows.
pub open spec fn export_file_rows(rows: Seq<(u128, Vec<String>)>) -> Seq<Seq<Seq<char>>> {
    seq![csv_header_names()] + tagged_rows_view(rows).map_values(|e: (u128, Seq<Seq<char>>)| e.1)
}

/// The export file of an export job, or its error: a refused header
/// record, a refused row (naming its target), or the writer's final
/// failures.
pub open spec fn export_file_text(rows: Seq<(u128, Vec<String>)>) -> Result<Seq<char>, Seq<char>> {
    match csv_output(export_file_rows(rows)) {
        Ok(t) => Ok(t),
        Err(CsvWriteFailureData::Record(i, e)) => if i == 0 {
            Err("failed to write export CSV header: "@ + e)
        } else {
            Err(
                "failed to serialize export row for "@ + (if i - 1 < rows.len() {
                    uuid_text(rows[i - 1].0)
                } else {
                    Seq::empty()
                }) + ": "@ + e,
            )
        },
        Err(CsvWriteFailureData::Finish(e)) => Err("failed to finalize export CSV writer: "@ + e),
        Err(CsvWriteFailureData::Encoding(e)) => Err("export CSV is not valid UTF-8: "@ + e),
    }
}

/// The export file name: `seo-bulk-export-<kind>-<locale>-<job id>.csv`.
pub open spec fn export_file_name(kind: Seq<char>, locale: Seq<char>, job_id: u128) -> Seq<char> {
    "seo-bulk-export-"@ + kind + "-"@ + locale + "-"@ + uuid_text(job_id) + ".csv"@
}

/// The reports of an export job: the export file, then a failure report
/// when failures were recorded.
pub open spec fn export_reports(t: BulkJobTally, job_id: u128, kind: Seq<char>, locale: Seq<char>) -> Result<Seq<(Seq<char>, Seq<char>, Seq<char>, Seq<char>)>, Seq<char>> {
    match export_file_text(t.export_rows@) {
        Err(e) => Err(e),
        Ok(c) => {
            let first = seq![("export_csv"@, export_file_name(kind, locale, job_id), CSV_MIME_TYPE@, c)];
            if t.failure_rows@.len() > 0 {
                match report_text(failure_rows(t.failure_rows@), "failure"@) {
                    Ok(f) => Ok(first.push(("failure_report"@, report_file_name("export-failures"@, job_id), CSV_MIME_TYPE@, f))),
                    Err(e) => Err(e),
                }
            } else {
                Ok(first)
            }
        },
    }
}

/// The reports of an export job (see `export_reports`).
pub fn export_job_artifacts(t: &BulkJobTally, job_id: u128, target_kind: &SeoTargetSlug, locale: &str) -> (r: Result<Vec<SeoBulkJobArtifactOutput>, SeoError>)
    ensures
        match (r, export_reports(*t, job_id, target_kind@, locale@)) {
            (Ok(v), Ok(a)) => artifacts_view(v@) == a,
            (Err(SeoError::Validation(m)), Err(e)) => m@ == e,
            _ => false,
        },
{
    let mut records: Vec<Vec<String>> = Vec::new();
    records.push(csv_headers());
    let ghost spec_rows = export_file_rows(t.export_rows@);
    assert(rows_view(records@) =~= spec_rows.take(1));
    let mut i: usize = 0;
    while i < t.export_rows.len()
        invariant
            i <= t.export_rows.len(),
            spec_rows == export_file_rows(t.export_rows@),
            rows_view(records@) == spec_rows.take(i as int + 1),
        decreases t.export_rows.len() - i,
    {
        let data = crate::text::copy_strings(&t.export_rows[i].1);
        let ghost prev = records@;
        let ghost dv = views(data@);
        records.push(data);
        proof {
            assert(rows_view(records@) =~= rows_view(prev).push(dv));
            assert(spec_rows[i + 1] == views(t.export_rows@[i as int].1@));
            assert(spec_rows.take(i as int + 2) =~= spec_rows.take(i as int + 1).push(spec_rows[i + 1]));
        }
        i = i + 1;
    }
    assert(spec_rows.take(t.export_rows.len() as int + 1) =~= spec_rows);
    let content = match write_csv_records(&records) {
        Ok(c) => c,
        Err(CsvWriteFailure::Record(k, e)) => {
            if k == 0 {
                let mut m = owned("failed to write export CSV header: ");
                append(&mut m, e.as_str());
                return Err(SeoError::validation(m));
            } else {
                let mut m = owned("failed to serialize export row for ");
                if k - 1 < t.export_rows.len() {
                    let id = uuid_to_string(t.export_rows[k - 1].0);
                    append(&mut m, id.as_str());
                }
                append(&mut m, ": ");
                append(&mut m, e.as_str());
                return Err(SeoError::validation(m));
            }
        },
        Err(CsvWriteFailure::Finish(e)) => {
            let mut m = owned("failed to finalize export CSV writer: ");
            append(&mut m, e.as_str());
            return Err(SeoError::validation(m));
        },
        Err(CsvWriteFailure::Encoding(e)) => {
            let mut m = owned("export CSV is not valid UTF-8: ");
            append(&mut m, e.as_str());
            return Err(SeoError::validation(m));
        },
    };
    let mut name = owned("seo-bulk-export-");
    append(&mut name, target_kind.as_str());
    append(&mut name, "-");
    append(&mut name, locale);
    append(&mut name, "-");
    let id = uuid_to_string(job_id);
    append(&mut name, id.as_str());
    append(&mut name, ".csv");
    let mut out: Vec<SeoBulkJobArtifactOutput> = Vec::new();
    out.push(
        SeoBulkJobArtifactOutput {
            kind: owned("export_csv"),
            file_name: name,
            mime_type: owned(CSV_MIME_TYPE),
            content,
        },
    );
    let ghost first = artifacts_view(out@);
    if t.failure_rows.len() > 0 {
        match failure_artifact(t, "export-failures", job_id) {
            Ok(a) => {
                out.push(a);
                assert(artifacts_view(out@) =~= first.push(artifact_view(out@.last())));
            },
            Err(e) => return Err(e),
        }
    }
    proof {
        reveal_strlit("export-failures");
    }
    Ok(out)
}

} // verus!
