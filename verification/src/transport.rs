//! Request normalization of the control-plane transport.
use vstd::prelude::*;

use crate::dto::{SeoBulkApplyInput, SeoBulkApplyMode, SeoIndexRepairReplayInput};
use crate::text::{append, lower, opt_view, owned, str_eq, trim, trim_lower};

verus! {

/// A preview never publishes: the preview mode clears the publish flag.
pub fn normalize_preview_bulk_apply_input(input: SeoBulkApplyInput) -> (r: SeoBulkApplyInput)
    ensures
        r.publish_after_write == (input.publish_after_write && input.apply_mode
            != SeoBulkApplyMode::PreviewOnly),
        r.apply_mode == input.apply_mode,
        r.selection == input.selection,
        r.patch == input.patch,
{
    let mut input = input;
    if input.apply_mode == SeoBulkApplyMode::PreviewOnly {
        input.publish_after_write = false;
    }
    input
}

/// The index target type filter of a control-plane request: absent or
/// blank means no filter; otherwise the trimmed, lower-cased value, which
/// must be `content` or `product`.
pub open spec fn target_type_filter(value: Option<Seq<char>>) -> Result<Option<Seq<char>>, Seq<char>> {
    match value {
        None => Ok(None),
        Some(v) => {
            let n = lower(trim(v));
            if n.len() == 0 {
                Ok(None)
            } else if n == "content"@ || n == "product"@ {
                Ok(Some(n))
            } else {
                Err("Index target type must be `content` or `product`"@)
            }
        },
    }
}

/// Normalizes the index target type filter (see `target_type_filter`).
pub fn normalize_index_target_type(target_type: Option<String>) -> (r: Result<Option<String>, String>)
    ensures
        match (r, target_type_filter(opt_view(target_type))) {
            (Ok(v), Ok(w)) => opt_view(v) == w,
            (Err(m), Err(e)) => m@ == e,
            _ => false,
        },
{
    let value = match target_type {
        Some(v) => v,
        None => return Ok(None),
    };
    let normalized = trim_lower(value.as_str());
    if normalized.as_str().unicode_len() == 0 {
        return Ok(None);
    }
    if str_eq(normalized.as_str(), "content") || str_eq(normalized.as_str(), "product") {
        Ok(Some(normalized))
    } else {
        Err(owned("Index target type must be `content` or `product`"))
    }
}

/// Normalizes a repair request: the target type filter as above, the batch
/// limit clamped to 1..=500.
pub fn normalize_index_repair_replay_input(input: SeoIndexRepairReplayInput) -> (r: Result<SeoIndexRepairReplayInput, String>)
    ensures
        match (r, target_type_filter(opt_view(input.target_type))) {
            (Ok(out), Ok(w)) => {
                &&& opt_view(out.target_type) == w
                &&& out.limit == if input.limit < 1 {
                    1
                } else if input.limit > 500 {
                    500
                } else {
                    input.limit
                }
                &&& out.replay_historical == input.replay_historical
            },
            (Err(m), Err(e)) => m@ == e,
            _ => false,
        },
{
    let target_type = match normalize_index_target_type(input.target_type) {
        Ok(t) => t,
        Err(e) => return Err(e),
    };
    let limit = if input.limit < 1 {
        1
    } else if input.limit > 500 {
        500
    } else {
        input.limit
    };
    Ok(SeoIndexRepairReplayInput { target_type, limit, replay_historical: input.replay_historical })
}

/// The download path of a bulk job artifact.
pub fn bulk_artifact_download_path(job_id: &str, artifact_id: &str) -> (r: String)
    ensures
        r@ == "/api/seo/bulk/jobs/"@ + job_id@ + "/artifacts/"@ + artifact_id@,
{
    let mut p = owned("/api/seo/bulk/jobs/");
    append(&mut p, job_id);
    append(&mut p, "/artifacts/");
    append(&mut p, artifact_id);
    p
}

} // verus!
