//! Bulk metadata editing: validation of field patches and apply modes,
//! applying patches to current values, and the CSV row rules.
use vstd::prelude::*;

use crate::dto::{
    SeoBulkApplyInput, SeoBulkApplyMode, SeoBulkBoolFieldPatch, SeoBulkFieldPatchMode,
    SeoBulkJsonFieldPatch, SeoBulkMetaPatchInput, SeoBulkSource, SeoBulkStringFieldPatch,
};
use crate::error::SeoError;
use crate::json::JsonValue;
use crate::schema::{is_valid_structured_data_payload, valid_structured_data};
use crate::text::{
    append, dec_nat, is_blank, lower, opt_view, owned, push_dec_u64, str_eq, trim, trim_lower,
    trim_str,
};

verus! {

/// The outcome of a validation: `None` when the input is accepted, else
/// the validation message.
pub open spec fn outcome(r: Result<(), SeoError>) -> Option<Seq<char>> {
    match r {
        Ok(()) => None,
        Err(SeoError::Validation(m)) => Some(m@),
        Err(SeoError::NotFound(m)) => Some("not found: "@ + m@),
    }
}

fn invalid(message: String) -> (r: Result<(), SeoError>)
    ensures
        outcome(r) == Some(message@),
{
    Err(SeoError::validation(message))
}

fn field_message(prefix: &str, field: &str, suffix: &str) -> (r: String)
    ensures
        r@ == prefix@ + field@ + suffix@,
{
    let mut m = owned(prefix);
    append(&mut m, field);
    append(&mut m, suffix);
    m
}

/// The error of a text field patch: a `set` needs a value that is not
/// blank.
pub open spec fn string_patch_error(p: Option<SeoBulkStringFieldPatch>, field: Seq<char>) -> Option<Seq<char>> {
    match p {
        Some(patch) => if patch.mode == SeoBulkFieldPatchMode::SetValue && (patch.value is None
            || trim(opt_view(patch.value)->Some_0).len() == 0) {
            Some("bulk patch field `"@ + field + "` requires a non-empty `value`"@)
        } else {
            None
        },
        None => None,
    }
}

/// Checks a text field patch (see `string_patch_error`).
pub fn validate_string_field_patch(patch: Option<&SeoBulkStringFieldPatch>, field: &str) -> (r: Result<(), SeoError>)
    ensures
        outcome(r) == string_patch_error(
            match patch {
                Some(p) => Some(*p),
                None => None,
            },
            field@,
        ),
{
    if let Some(p) = patch {
        if p.mode == SeoBulkFieldPatchMode::SetValue {
            let blank = match &p.value {
                Some(v) => is_blank(v.as_str()),
                None => true,
            };
            if blank {
                return invalid(field_message("bulk patch field `", field, "` requires a non-empty `value`"));
            }
        }
    }
    Ok(())
}

/// The error of a flag patch: a `set` needs a value.
pub open spec fn bool_patch_error(p: Option<SeoBulkBoolFieldPatch>, field: Seq<char>) -> Option<Seq<char>> {
    match p {
        Some(patch) => if patch.mode == SeoBulkFieldPatchMode::SetValue && patch.value is None {
            Some("bulk patch field `"@ + field + "` requires a boolean `value`"@)
        } else {
            None
        },
        None => None,
    }
}

/// Checks a flag patch (see `bool_patch_error`).
pub fn validate_bool_field_patch(patch: Option<&SeoBulkBoolFieldPatch>, field: &str) -> (r: Result<(), SeoError>)
    ensures
        outcome(r) == bool_patch_error(
            match patch {
                Some(p) => Some(*p),
                None => None,
            },
            field@,
        ),
{
    if let Some(p) = patch {
        if p.mode == SeoBulkFieldPatchMode::SetValue && p.value.is_none() {
            return invalid(field_message("bulk patch field `", field, "` requires a boolean `value`"));
        }
    }
    Ok(())
}

/// The error of a structured-data patch: a `set` needs a value, and the
/// value must be valid structured data.
pub open spec fn json_patch_error(p: Option<SeoBulkJsonFieldPatch>, field: Seq<char>) -> Option<Seq<char>> {
    match p {
        Some(patch) => if patch.mode == SeoBulkFieldPatchMode::SetValue {
            match patch.value {
                None => Some("bulk patch field `"@ + field + "` requires a JSON `value`"@),
                Some(v) => if valid_structured_data(v@) {
                    None
                } else {
                    Some(
                        "bulk patch field `"@ + field
                            + "` must be a JSON-LD object, array, or @graph with at least one non-empty @type"@,
                    )
                },
            }
        } else {
            None
        },
        None => None,
    }
}

/// Checks a structured-data patch (see `json_patch_error`).
pub fn validate_json_field_patch(patch: Option<&SeoBulkJsonFieldPatch>, field: &str) -> (r: Result<(), SeoError>)
    ensures
        outcome(r) == json_patch_error(
            match patch {
                Some(p) => Some(*p),
                None => None,
            },
            field@,
        ),
{
    if let Some(p) = patch {
        if p.mode == SeoBulkFieldPatchMode::SetValue {
            match &p.value {
                None => {
                    return invalid(field_message("bulk patch field `", field, "` requires a JSON `value`"));
                },
                Some(v) => {
                    if !is_valid_structured_data_payload(v) {
                        return invalid(
                            field_message(
                                "bulk patch field `",
                                field,
                                "` must be a JSON-LD object, array, or @graph with at least one non-empty @type",
                            ),
                        );
                    }
                },
            }
        }
    }
    Ok(())
}

/// The first of several possible errors.
pub open spec fn first_error(errors: Seq<Option<Seq<char>>>) -> Option<Seq<char>>
    decreases errors.len(),
{
    if errors.len() == 0 {
        None
    } else if errors[0] is Some {
        errors[0]
    } else {
        first_error(errors.drop_first())
    }
}

/// The errors of the field patches, in field order.
pub open spec fn shape_errors(p: SeoBulkMetaPatchInput) -> Seq<Option<Seq<char>>> {
    seq![
        string_patch_error(p.title, "title"@),
        string_patch_error(p.description, "description"@),
        string_patch_error(p.keywords, "keywords"@),
        string_patch_error(p.canonical_url, "canonical_url"@),
        string_patch_error(p.og_title, "og_title"@),
        string_patch_error(p.og_description, "og_description"@),
        string_patch_error(p.og_image, "og_image"@),
        bool_patch_error(p.noindex, "noindex"@),
        bool_patch_error(p.nofollow, "nofollow"@),
        json_patch_error(p.structured_data, "structured_data"@),
    ]
}

/// Checks every field patch in field order and reports the first error.
pub fn validate_bulk_patch_shape(patch: &SeoBulkMetaPatchInput) -> (r: Result<(), SeoError>)
    ensures
        outcome(r) == first_error(shape_errors(*patch)),
{
    let ghost e = shape_errors(*patch);
    proof {
        assert(e.drop_first().drop_first().drop_first().drop_first().drop_first().drop_first().drop_first().drop_first().drop_first().drop_first().len() == 0);
        reveal_with_fuel(first_error, 11);
    }
    let r = validate_string_field_patch(patch.title.as_ref(), "title");
    if r.is_err() {
        return r;
    }
    let r = validate_string_field_patch(patch.description.as_ref(), "description");
    if r.is_err() {
        return r;
    }
    let r = validate_string_field_patch(patch.keywords.as_ref(), "keywords");
    if r.is_err() {
        return r;
    }
    let r = validate_string_field_patch(patch.canonical_url.as_ref(), "canonical_url");
    if r.is_err() {
        return r;
    }
    let r = validate_string_field_patch(patch.og_title.as_ref(), "og_title");
    if r.is_err() {
        return r;
    }
    let r = validate_string_field_patch(patch.og_description.as_ref(), "og_description");
    if r.is_err() {
        return r;
    }
    let r = validate_string_field_patch(patch.og_image.as_ref(), "og_image");
    if r.is_err() {
        return r;
    }
    let r = validate_bool_field_patch(patch.noindex.as_ref(), "noindex");
    if r.is_err() {
        return r;
    }
    let r = validate_bool_field_patch(patch.nofollow.as_ref(), "nofollow");
    if r.is_err() {
        return r;
    }
    validate_json_field_patch(patch.structured_data.as_ref(), "structured_data")
}

/// A text field patch that is present and does not keep the field.
pub open spec fn string_changes_field(p: Option<SeoBulkStringFieldPatch>) -> bool {
    match p {
        Some(x) => x.mode != SeoBulkFieldPatchMode::Keep,
        None => false,
    }
}

/// A flag patch that is present and does not keep the flag.
pub open spec fn bool_changes_field(p: Option<SeoBulkBoolFieldPatch>) -> bool {
    match p {
        Some(x) => x.mode != SeoBulkFieldPatchMode::Keep,
        None => false,
    }
}

/// A structured-data patch that is present and does not keep the data.
pub open spec fn json_changes_field(p: Option<SeoBulkJsonFieldPatch>) -> bool {
    match p {
        Some(x) => x.mode != SeoBulkFieldPatchMode::Keep,
        None => false,
    }
}

/// A patch changes one of the fields other than the structured data.
pub open spec fn changes_other_than_schema(p: SeoBulkMetaPatchInput) -> bool {
    string_changes_field(p.title) || string_changes_field(p.description) || string_changes_field(p.keywords) || string_changes_field(p.canonical_url) || string_changes_field(p.og_title) || string_changes_field(p.og_description) || string_changes_field(p.og_image) || bool_changes_field(p.noindex) || bool_changes_field(p.nofollow)
}

/// A patch changes the structured data.
pub open spec fn changes_schema(p: SeoBulkMetaPatchInput) -> bool {
    json_changes_field(p.structured_data)
}

fn string_changes(p: &Option<SeoBulkStringFieldPatch>) -> (r: bool)
    ensures
        r == string_changes_field(*p),
{
    match p {
        Some(x) => x.mode != SeoBulkFieldPatchMode::Keep,
        None => false,
    }
}

fn bool_changes(p: &Option<SeoBulkBoolFieldPatch>) -> (r: bool)
    ensures
        r == bool_changes_field(*p),
{
    match p {
        Some(x) => x.mode != SeoBulkFieldPatchMode::Keep,
        None => false,
    }
}

fn json_changes(p: &Option<SeoBulkJsonFieldPatch>) -> (r: bool)
    ensures
        r == json_changes_field(*p),
{
    match p {
        Some(x) => x.mode != SeoBulkFieldPatchMode::Keep,
        None => false,
    }
}

fn other_changes(patch: &SeoBulkMetaPatchInput) -> (r: bool)
    ensures
        r == changes_other_than_schema(*patch),
{
    string_changes(&patch.title) || string_changes(&patch.description) || string_changes(
        &patch.keywords,
    ) || string_changes(&patch.canonical_url) || string_changes(&patch.og_title) || string_changes(
        &patch.og_description,
    ) || string_changes(&patch.og_image) || bool_changes(&patch.noindex) || bool_changes(
        &patch.nofollow,
    )
}

/// A patch must change at least one field.
pub fn validate_bulk_patch_has_change(patch: &SeoBulkMetaPatchInput) -> (r: Result<(), SeoError>)
    ensures
        outcome(r) == if changes_other_than_schema(*patch) || changes_schema(*patch) {
            None
        } else {
            Some("bulk patch must change at least one field"@)
        },
{
    if other_changes(patch) || json_changes(&patch.structured_data) {
        Ok(())
    } else {
        invalid(owned("bulk patch must change at least one field"))
    }
}

/// A patch is valid and changes at least one field.
pub fn validate_bulk_patch(patch: &SeoBulkMetaPatchInput) -> (r: Result<(), SeoError>)
    ensures
        outcome(r) == match first_error(shape_errors(*patch)) {
            Some(e) => Some(e),
            None => if changes_other_than_schema(*patch) || changes_schema(*patch) {
                None
            } else {
                Some("bulk patch must change at least one field"@)
            },
        },
{
    let r = validate_bulk_patch_shape(patch);
    if r.is_err() {
        return r;
    }
    validate_bulk_patch_has_change(patch)
}

/// The schema-only apply mode changes the structured data and nothing
/// else.
pub open spec fn schema_only_error(p: SeoBulkMetaPatchInput) -> Option<Seq<char>> {
    if changes_other_than_schema(p) {
        Some("bulk apply mode `apply_missing_schema_only` may only modify structured_data"@)
    } else if !changes_schema(p) {
        Some("bulk apply mode `apply_missing_schema_only` requires a structured_data patch"@)
    } else {
        None
    }
}

/// Checks a patch for the schema-only apply mode (see `schema_only_error`).
pub fn validate_schema_only_patch(patch: &SeoBulkMetaPatchInput) -> (r: Result<(), SeoError>)
    ensures
        outcome(r) == schema_only_error(*patch),
{
    if other_changes(patch) {
        return invalid(owned("bulk apply mode `apply_missing_schema_only` may only modify structured_data"));
    }
    if !json_changes(&patch.structured_data) {
        return invalid(owned("bulk apply mode `apply_missing_schema_only` requires a structured_data patch"));
    }
    Ok(())
}

/// The error of a bulk apply: the patch's shape error, then what its mode
/// asks of the patch.
pub open spec fn apply_error(input: SeoBulkApplyInput) -> Option<Seq<char>> {
    match first_error(shape_errors(input.patch)) {
        Some(e) => Some(e),
        None => match input.apply_mode {
            SeoBulkApplyMode::ApplyMissingSchemaOnly => schema_only_error(input.patch),
            SeoBulkApplyMode::ForceOverwriteExplicit => if changes_other_than_schema(input.patch)
                || changes_schema(input.patch) {
                None
            } else {
                Some("bulk patch must change at least one field"@)
            },
            _ => None,
        },
    }
}

/// Checks a bulk apply request (see `apply_error`).
pub fn validate_bulk_apply(input: &SeoBulkApplyInput) -> (r: Result<(), SeoError>)
    ensures
        outcome(r) == apply_error(*input),
{
    let r = validate_bulk_patch_shape(&input.patch);
    if r.is_err() {
        return r;
    }
    match input.apply_mode {
        SeoBulkApplyMode::PreviewOnly | SeoBulkApplyMode::ApplyMissingOnly
        | SeoBulkApplyMode::OverwriteGeneratedOnly => Ok(()),
        SeoBulkApplyMode::ApplyMissingSchemaOnly => validate_schema_only_patch(&input.patch),
        SeoBulkApplyMode::ForceOverwriteExplicit => validate_bulk_patch_has_change(&input.patch),
    }
}

/// A text field after a patch: kept, cleared, or set to the trimmed
/// value, which must not be blank.
pub open spec fn patched_string(current: Option<Seq<char>>, p: Option<SeoBulkStringFieldPatch>) -> Result<Option<Seq<char>>, Seq<char>> {
    match p {
        None => Ok(current),
        Some(patch) => match patch.mode {
            SeoBulkFieldPatchMode::Keep => Ok(current),
            SeoBulkFieldPatchMode::Clear => Ok(None),
            SeoBulkFieldPatchMode::SetValue => match patch.value {
                Some(v) => if trim(v@).len() > 0 {
                    Ok(Some(trim(v@)))
                } else {
                    Err("bulk patch string value is required"@)
                },
                None => Err("bulk patch string value is required"@),
            },
        },
    }
}

/// Applies a text field patch (see `patched_string`).
pub fn apply_string_patch(current: Option<String>, patch: Option<&SeoBulkStringFieldPatch>) -> (r: Result<Option<String>, SeoError>)
    ensures
        match (r, patched_string(opt_view(current), match patch {
            Some(p) => Some(*p),
            None => None,
        })) {
            (Ok(v), Ok(w)) => opt_view(v) == w,
            (Err(SeoError::Validation(m)), Err(e)) => m@ == e,
            _ => false,
        },
{
    match patch {
        None => Ok(current),
        Some(p) => match p.mode {
            SeoBulkFieldPatchMode::Keep => Ok(current),
            SeoBulkFieldPatchMode::Clear => Ok(None),
            SeoBulkFieldPatchMode::SetValue => match &p.value {
                Some(v) => {
                    if is_blank(v.as_str()) {
                        Err(SeoError::validation(owned("bulk patch string value is required")))
                    } else {
                        Ok(Some(trim_str(v.as_str())))
                    }
                },
                None => Err(SeoError::validation(owned("bulk patch string value is required"))),
            },
        },
    }
}

/// A flag after a patch: kept, cleared to false, or set to the value,
/// which must be present.
pub open spec fn patched_bool(current: bool, p: Option<SeoBulkBoolFieldPatch>) -> Result<bool, Seq<char>> {
    match p {
        None => Ok(current),
        Some(patch) => match patch.mode {
            SeoBulkFieldPatchMode::Keep => Ok(current),
            SeoBulkFieldPatchMode::Clear => Ok(false),
            SeoBulkFieldPatchMode::SetValue => match patch.value {
                Some(v) => Ok(v),
                None => Err("bulk patch boolean value is required"@),
            },
        },
    }
}

/// What a flag patch does, whatever the flag was: clearing turns it off,
/// setting a value gives that value, keeping (or no patch) leaves it as it
/// was; only a set without a value is refused.
pub proof fn lemma_flag_patch_modes(current: bool, p: SeoBulkBoolFieldPatch)
    ensures
        p.mode == SeoBulkFieldPatchMode::Clear ==> patched_bool(current, Some(p)) == Ok::<bool, Seq<char>>(false),
        p.mode == SeoBulkFieldPatchMode::Keep ==> patched_bool(current, Some(p)) == Ok::<bool, Seq<char>>(current),
        p.mode == SeoBulkFieldPatchMode::SetValue ==> match p.value {
            Some(v) => patched_bool(current, Some(p)) == Ok::<bool, Seq<char>>(v),
            None => patched_bool(current, Some(p)) is Err,
        },
        patched_bool(current, None) == Ok::<bool, Seq<char>>(current),
        p.mode != SeoBulkFieldPatchMode::Keep ==> patched_bool(true, Some(p)) == patched_bool(false, Some(p)),
{
}

/// Applies a flag patch (see `patched_bool`).
pub fn apply_bool_patch(current: bool, patch: Option<&SeoBulkBoolFieldPatch>) -> (r: Result<bool, SeoError>)
    ensures
        match (r, patched_bool(current, match patch {
            Some(p) => Some(*p),
            None => None,
        })) {
            (Ok(v), Ok(w)) => v == w,
            (Err(SeoError::Validation(m)), Err(e)) => m@ == e,
            _ => false,
        },
{
    match patch {
        None => Ok(current),
        Some(p) => match p.mode {
            SeoBulkFieldPatchMode::Keep => Ok(current),
            SeoBulkFieldPatchMode::Clear => Ok(false),
            SeoBulkFieldPatchMode::SetValue => match p.value {
                Some(v) => Ok(v),
                None => Err(SeoError::validation(owned("bulk patch boolean value is required"))),
            },
        },
    }
}

/// Structured data after a patch: kept, cleared, or set to the value,
/// which must be present and valid.
pub open spec fn patched_json(current: Option<JsonValue>, p: Option<SeoBulkJsonFieldPatch>) -> Result<Option<crate::json::JsonData>, Seq<char>> {
    match p {
        None => Ok(match current {
            Some(c) => Some(c@),
            None => None,
        }),
        Some(patch) => match patch.mode {
            SeoBulkFieldPatchMode::Keep => Ok(match current {
                Some(c) => Some(c@),
                None => None,
            }),
            SeoBulkFieldPatchMode::Clear => Ok(None),
            SeoBulkFieldPatchMode::SetValue => match patch.value {
                Some(v) => if valid_structured_data(v@) {
                    Ok(Some(v@))
                } else {
                    Err(
                        "bulk patch JSON value must be a JSON-LD object, array, or @graph with at least one non-empty @type"@,
                    )
                },
                None => Err("bulk patch JSON value is required"@),
            },
        },
    }
}

/// Applies a structured-data patch (see `patched_json`).
pub fn apply_json_patch(current: Option<JsonValue>, patch: Option<&SeoBulkJsonFieldPatch>) -> (r: Result<Option<JsonValue>, SeoError>)
    ensures
        match (r, patched_json(current, match patch {
            Some(p) => Some(*p),
            None => None,
        })) {
            (Ok(v), Ok(w)) => match v {
                Some(x) => w == Some(x@),
                None => w is None,
            },
            (Err(SeoError::Validation(m)), Err(e)) => m@ == e,
            _ => false,
        },
{
    match patch {
        None => Ok(current),
        Some(p) => match p.mode {
            SeoBulkFieldPatchMode::Keep => Ok(current),
            SeoBulkFieldPatchMode::Clear => Ok(None),
            SeoBulkFieldPatchMode::SetValue => match &p.value {
                Some(v) => {
                    if is_valid_structured_data_payload(v) {
                        Ok(Some(v.deep_copy()))
                    } else {
                        Err(
                            SeoError::validation(
                                owned(
                                    "bulk patch JSON value must be a JSON-LD object, array, or @graph with at least one non-empty @type",
                                ),
                            ),
                        )
                    }
                },
                None => Err(SeoError::validation(owned("bulk patch JSON value is required"))),
            },
        },
    }
}

/// The metadata source filter named by a stored value.
pub fn map_bulk_source(value: &str) -> (r: Option<SeoBulkSource>)
    ensures
        r == SeoBulkSource::from_wire(value@),
{
    SeoBulkSource::parse(value)
}

/// A CSV flag: blank, `false`, `0` and `no` are false; `true`, `1` and
/// `yes` are true, after trimming and lower-casing; anything else is an
/// error naming the row and field.
pub open spec fn csv_bool(value: Option<Seq<char>>, row_number: nat, field: Seq<char>) -> Result<bool, Seq<char>> {
    let v = lower(trim(match value {
        Some(s) => s,
        None => Seq::empty(),
    }));
    if v.len() == 0 || v == "false"@ || v == "0"@ || v == "no"@ {
        Ok(false)
    } else if v == "true"@ || v == "1"@ || v == "yes"@ {
        Ok(true)
    } else {
        Err(
            "row "@ + dec_nat(row_number) + " contains invalid boolean `"@ + field + "` value `"@ + v
                + "`"@,
        )
    }
}

/// Reads a CSV flag (see `csv_bool`).
pub fn parse_csv_bool(value: Option<&str>, row_number: usize, field: &str) -> (r: Result<bool, SeoError>)
    ensures
        match (r, csv_bool(match value {
            Some(s) => Some(s@),
            None => None,
        }, row_number as nat, field@)) {
            (Ok(v), Ok(w)) => v == w,
            (Err(SeoError::Validation(m)), Err(e)) => m@ == e,
            _ => false,
        },
{
    let v = match value {
        Some(s) => trim_lower(s),
        None => {
            proof {
                reveal_strlit("");
            }
            trim_lower("")
        },
    };
    let t = v.as_str();
    if t.unicode_len() == 0 || str_eq(t, "false") || str_eq(t, "0") || str_eq(t, "no") {
        Ok(false)
    } else if str_eq(t, "true") || str_eq(t, "1") || str_eq(t, "yes") {
        Ok(true)
    } else {
        let mut m = owned("row ");
        push_dec_u64(&mut m, row_number as u64);
        append(&mut m, " contains invalid boolean `");
        append(&mut m, field);
        append(&mut m, "` value `");
        append(&mut m, t);
        append(&mut m, "`");
        Err(SeoError::validation(m))
    }
}

/// The trimmed text of an optional CSV cell; blank cells give none.
pub fn trimmed_string(value: Option<&str>) -> (r: Option<String>)
    ensures
        opt_view(r) == match value {
            Some(s) => if trim(s@).len() > 0 {
                Some(trim(s@))
            } else {
                None
            },
            None => None,
        },
{
    match value {
        Some(s) => {
            if is_blank(s) {
                None
            } else {
                Some(trim_str(s))
            }
        },
        None => None,
    }
}

} // verus!
