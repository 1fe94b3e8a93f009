//! The forms of the SEO control plane and how they turn into requests and
//! settings.
use vstd::prelude::*;

use crate::dto::{
    is_valid_slug, SeoBulkApplyInput, SeoBulkApplyMode, SeoBulkBoolFieldPatch,
    SeoBulkExportInput, SeoBulkFieldPatchMode, SeoBulkImportInput, SeoBulkJsonFieldPatch,
    SeoBulkListInput, SeoBulkMetaPatchInput, SeoBulkSelectionInput, SeoBulkSelectionMode,
    SeoBulkSource, SeoBulkStringFieldPatch, SeoModuleSettings, SeoRedirectInput,
    SeoRedirectMatchType, SeoTargetSlug, SeoTemplateRuleSet, BUILTIN_SLUG_PAGE,
};
use crate::json::{parse_json_text, parsed_json, JsonData, JsonValue};
use crate::text::{
    append, eq_ignore_case, is_blank, lower, opt_view, owned, parse_i32, parse_i32_str,
    split_char, split_on, str_eq, str_eq_ascii_case, trim, trim_lower, trim_str, trim_to_option,
    trimmed_nonblank, views, lemma_views_push, lemma_views_take_next,
};

verus! {

/// The tabs of the SEO control plane.
#[derive(Clone, Copy, Debug, PartialEq, Eq, Structural)]
pub enum SeoAdminTab {
    Bulk,
    Redirects,
    Sitemaps,
    Robots,
    Defaults,
    Diagnostics,
}

impl SeoAdminTab {
    /// The name of each tab.
    pub open spec fn name(self) -> Seq<char> {
        match self {
            SeoAdminTab::Bulk => "bulk"@,
            SeoAdminTab::Redirects => "redirects"@,
            SeoAdminTab::Sitemaps => "sitemaps"@,
            SeoAdminTab::Robots => "robots"@,
            SeoAdminTab::Defaults => "defaults"@,
            SeoAdminTab::Diagnostics => "diagnostics"@,
        }
    }

    /// The tab with a name.
    pub open spec fn named(s: Seq<char>) -> Option<SeoAdminTab> {
        if s == "bulk"@ {
            Some(SeoAdminTab::Bulk)
        } else if s == "redirects"@ {
            Some(SeoAdminTab::Redirects)
        } else if s == "sitemaps"@ {
            Some(SeoAdminTab::Sitemaps)
        } else if s == "robots"@ {
            Some(SeoAdminTab::Robots)
        } else if s == "defaults"@ {
            Some(SeoAdminTab::Defaults)
        } else if s == "diagnostics"@ {
            Some(SeoAdminTab::Diagnostics)
        } else {
            None
        }
    }

    /// The name of the tab.
    pub fn as_str(self) -> (r: &'static str)
        ensures
            r@ == self.name(),
    {
        match self {
            SeoAdminTab::Bulk => "bulk",
            SeoAdminTab::Redirects => "redirects",
            SeoAdminTab::Sitemaps => "sitemaps",
            SeoAdminTab::Robots => "robots",
            SeoAdminTab::Defaults => "defaults",
            SeoAdminTab::Diagnostics => "diagnostics",
        }
    }

    /// The tab named `value`; `None` for any other text.
    pub fn from_str(value: &str) -> (r: Option<SeoAdminTab>)
        ensures
            r == SeoAdminTab::named(value@),
    {
        if str_eq(value, "bulk") {
            Some(SeoAdminTab::Bulk)
        } else if str_eq(value, "redirects") {
            Some(SeoAdminTab::Redirects)
        } else if str_eq(value, "sitemaps") {
            Some(SeoAdminTab::Sitemaps)
        } else if str_eq(value, "robots") {
            Some(SeoAdminTab::Robots)
        } else if str_eq(value, "defaults") {
            Some(SeoAdminTab::Defaults)
        } else if str_eq(value, "diagnostics") {
            Some(SeoAdminTab::Diagnostics)
        } else {
            None
        }
    }
}

/// Reading the name of a tab gives the tab back.
pub proof fn lemma_admin_tab_roundtrip(tab: SeoAdminTab)
    ensures
        SeoAdminTab::named(tab.name()) == Some(tab),
{
    reveal_strlit("bulk");
    reveal_strlit("redirects");
    reveal_strlit("sitemaps");
    reveal_strlit("robots");
    reveal_strlit("defaults");
    reveal_strlit("diagnostics");
    assert("redirects"@.len() != "bulk"@.len());
    assert("sitemaps"@.len() != "bulk"@.len());
    assert("sitemaps"@[0] != "redirects"@[0]);
    assert("robots"@.len() != "bulk"@.len());
    assert("robots"@.len() != "redirects"@.len());
    assert("robots"@.len() != "sitemaps"@.len());
    assert("defaults"@.len() != "bulk"@.len());
    assert("defaults"@.len() != "redirects"@.len());
    assert("defaults"@[0] != "sitemaps"@[0]);
    assert("defaults"@.len() != "robots"@.len());
    assert("diagnostics"@.len() != "bulk"@.len());
    assert("diagnostics"@.len() != "redirects"@.len());
    assert("diagnostics"@.len() != "sitemaps"@.len());
    assert("diagnostics"@.len() != "robots"@.len());
    assert("diagnostics"@.len() != "defaults"@.len());
}

/// The robots directives the settings form offers.
pub fn robot_directive_presets() -> (r: Vec<&'static str>)
    ensures
        r@.len() == 9,
        r@[0]@ == "index"@,
        r@[1]@ == "follow"@,
        r@[2]@ == "noindex"@,
        r@[3]@ == "nofollow"@,
        r@[4]@ == "noarchive"@,
        r@[5]@ == "nosnippet"@,
        r@[6]@ == "noimageindex"@,
        r@[7]@ == "notranslate"@,
        r@[8]@ == "max-image-preview:large"@,
{
    let mut r: Vec<&'static str> = Vec::new();
    r.push("index");
    r.push("follow");
    r.push("noindex");
    r.push("nofollow");
    r.push("noarchive");
    r.push("nosnippet");
    r.push("noimageindex");
    r.push("notranslate");
    r.push("max-image-preview:large");
    r
}

/// The page target kind slug.
fn page_slug() -> (r: SeoTargetSlug)
    ensures
        r@ == BUILTIN_SLUG_PAGE@,
{
    proof {
        reveal_strlit("page");
        assert(is_valid_slug("page"@));
    }
    SeoTargetSlug::new(BUILTIN_SLUG_PAGE).unwrap()
}

/// The filter of the bulk editor.
#[derive(Clone, Debug)]
pub struct SeoBulkFilterForm {
    pub target_kind: SeoTargetSlug,
    pub locale: String,
    pub query: String,
    pub source: SeoBulkSource,
    pub page: i32,
    pub per_page: i32,
}

impl SeoBulkFilterForm {
    /// The initial filter: pages, the given locale (`en` when none), no
    /// query, any source, first page of 20.
    pub fn new(default_locale: Option<&str>) -> (r: SeoBulkFilterForm)
        ensures
            r.target_kind@ == BUILTIN_SLUG_PAGE@,
            r.locale@ == match default_locale {
                Some(l) => l@,
                None => "en"@,
            },
            r.query@.len() == 0,
            r.source == SeoBulkSource::Any,
            r.page == 1,
            r.per_page == 20,
    {
        SeoBulkFilterForm {
            target_kind: page_slug(),
            locale: match default_locale {
                Some(l) => owned(l),
                None => owned("en"),
            },
            query: String::new(),
            source: SeoBulkSource::Any,
            page: 1,
            per_page: 20,
        }
    }

    /// The listing request of the filter: the trimmed locale, which is
    /// required; the trimmed query when not blank; the page at least 1; the
    /// page size between 1 and 100.
    pub fn build_input(&self) -> (r: Result<SeoBulkListInput, String>)
        ensures
            trim(self.locale@).len() == 0 <==> r is Err,
            r matches Err(m) ==> m@ == "Bulk locale is required"@,
            r matches Ok(input) ==> {
                &&& input.target_kind@ == self.target_kind@
                &&& input.locale@ == trim(self.locale@)
                &&& opt_view(input.query) == trimmed_nonblank(self.query@)
                &&& input.source == Some(self.source)
                &&& input.page == if self.page < 1 {
                    1
                } else {
                    self.page
                }
                &&& input.per_page == if self.per_page < 1 {
                    1
                } else if self.per_page > 100 {
                    100
                } else {
                    self.per_page
                }
            },
    {
        let locale = trim_str(self.locale.as_str());
        if locale.as_str().unicode_len() == 0 {
            return Err(owned("Bulk locale is required"));
        }
        Ok(SeoBulkListInput {
            target_kind: self.target_kind.copy(),
            locale,
            query: trim_to_option(self.query.as_str()),
            source: Some(self.source),
            page: if self.page < 1 {
                1
            } else {
                self.page
            },
            per_page: if self.per_page < 1 {
                1
            } else if self.per_page > 100 {
                100
            } else {
                self.per_page
            },
        })
    }
}

/// The form of a text field patch.
#[derive(Clone, Debug)]
pub struct SeoBulkStringPatchForm {
    pub mode: SeoBulkFieldPatchMode,
    pub value: String,
}

impl Default for SeoBulkStringPatchForm {
    fn default() -> (r: Self)
        ensures
            r.mode == SeoBulkFieldPatchMode::Keep,
            r.value@.len() == 0,
    {
        SeoBulkStringPatchForm { mode: SeoBulkFieldPatchMode::Keep, value: String::new() }
    }
}

impl SeoBulkStringPatchForm {
    /// The patch of the form: a `set` needs a value that is not blank; the
    /// value is kept trimmed, and only when not blank.
    pub fn build_patch(&self) -> (r: Result<SeoBulkStringFieldPatch, String>)
        ensures
            r is Err <==> (self.mode == SeoBulkFieldPatchMode::SetValue && trim(self.value@).len() == 0),
            r matches Err(m) ==> m@ == "String patch value is required for `set` mode"@,
            r matches Ok(p) ==> p.mode == self.mode && opt_view(p.value) == trimmed_nonblank(self.value@),
    {
        if self.mode == SeoBulkFieldPatchMode::SetValue && is_blank(self.value.as_str()) {
            return Err(owned("String patch value is required for `set` mode"));
        }
        Ok(SeoBulkStringFieldPatch { mode: self.mode, value: trim_to_option(self.value.as_str()) })
    }
}

/// The form of a flag patch.
#[derive(Clone, Copy, Debug)]
pub struct SeoBulkBoolPatchForm {
    pub mode: SeoBulkFieldPatchMode,
    pub value: bool,
}

impl Default for SeoBulkBoolPatchForm {
    fn default() -> (r: Self)
        ensures
            r.mode == SeoBulkFieldPatchMode::Keep,
            !r.value,
    {
        SeoBulkBoolPatchForm { mode: SeoBulkFieldPatchMode::Keep, value: false }
    }
}

impl SeoBulkBoolPatchForm {
    /// The patch of the form, always with its value.
    pub fn build_patch(&self) -> (r: SeoBulkBoolFieldPatch)
        ensures
            r.mode == self.mode,
            r.value == Some(self.value),
    {
        SeoBulkBoolFieldPatch { mode: self.mode, value: Some(self.value) }
    }
}

/// The form of a structured-data patch, the JSON as typed.
#[derive(Clone, Debug)]
pub struct SeoBulkJsonPatchForm {
    pub mode: SeoBulkFieldPatchMode,
    pub value: String,
}

impl Default for SeoBulkJsonPatchForm {
    fn default() -> (r: Self)
        ensures
            r.mode == SeoBulkFieldPatchMode::Keep,
            r.value@.len() == 0,
    {
        SeoBulkJsonPatchForm { mode: SeoBulkFieldPatchMode::Keep, value: String::new() }
    }
}

/// The structured-data patch of a form: only a `set` carries a value,
/// parsed from the trimmed text, which must not be blank.
pub open spec fn json_patch_outcome(mode: SeoBulkFieldPatchMode, text: Seq<char>) -> Result<Option<JsonData>, Seq<char>> {
    if mode == SeoBulkFieldPatchMode::SetValue {
        let raw = trim(text);
        if raw.len() == 0 {
            Err("Structured data JSON is required for `set` mode"@)
        } else {
            match parsed_json(raw) {
                Ok(v) => Ok(Some(v)),
                Err(e) => Err("Invalid structured data JSON: "@ + e),
            }
        }
    } else {
        Ok(None)
    }
}

impl SeoBulkJsonPatchForm {
    /// The patch of the form (see `json_patch_outcome`).
    pub fn build_patch(&self) -> (r: Result<SeoBulkJsonFieldPatch, String>)
        ensures
            match (r, json_patch_outcome(self.mode, self.value@)) {
                (Ok(p), Ok(v)) => p.mode == self.mode && match p.value {
                    Some(x) => v == Some(x@),
                    None => v is None,
                },
                (Err(m), Err(e)) => m@ == e,
                _ => false,
            },
    {
        if self.mode == SeoBulkFieldPatchMode::SetValue {
            let raw = trim_str(self.value.as_str());
            if raw.as_str().unicode_len() == 0 {
                return Err(owned("Structured data JSON is required for `set` mode"));
            }
            match parse_json_text(raw.as_str()) {
                Ok(v) => Ok(SeoBulkJsonFieldPatch { mode: self.mode, value: Some(v) }),
                Err(e) => {
                    let mut m = owned("Invalid structured data JSON: ");
                    append(&mut m, e.as_str());
                    Err(m)
                },
            }
        } else {
            Ok(SeoBulkJsonFieldPatch { mode: self.mode, value: None })
        }
    }
}

/// The action panel of the bulk editor.
#[derive(Clone, Debug)]
pub struct SeoBulkActionForm {
    pub selection_mode: SeoBulkSelectionMode,
    pub apply_mode: SeoBulkApplyMode,
    pub publish_after_write: bool,
    pub import_csv: String,
    pub title: SeoBulkStringPatchForm,
    pub description: SeoBulkStringPatchForm,
    pub keywords: SeoBulkStringPatchForm,
    pub canonical_url: SeoBulkStringPatchForm,
    pub og_title: SeoBulkStringPatchForm,
    pub og_description: SeoBulkStringPatchForm,
    pub og_image: SeoBulkStringPatchForm,
    pub structured_data: SeoBulkJsonPatchForm,
    pub noindex: SeoBulkBoolPatchForm,
    pub nofollow: SeoBulkBoolPatchForm,
}

impl Default for SeoBulkActionForm {
    fn default() -> (r: Self)
        ensures
            r.selection_mode == SeoBulkSelectionMode::CurrentFilterScope,
            r.apply_mode == SeoBulkApplyMode::ApplyMissingOnly,
            r.publish_after_write,
            r.import_csv@.len() == 0,
            r.title.mode == SeoBulkFieldPatchMode::Keep,
            r.description.mode == SeoBulkFieldPatchMode::Keep,
            r.keywords.mode == SeoBulkFieldPatchMode::Keep,
            r.canonical_url.mode == SeoBulkFieldPatchMode::Keep,
            r.og_title.mode == SeoBulkFieldPatchMode::Keep,
            r.og_description.mode == SeoBulkFieldPatchMode::Keep,
            r.og_image.mode == SeoBulkFieldPatchMode::Keep,
            r.structured_data.mode == SeoBulkFieldPatchMode::Keep,
            r.noindex.mode == SeoBulkFieldPatchMode::Keep,
            r.nofollow.mode == SeoBulkFieldPatchMode::Keep,
            r.title.value@.len() == 0,
            r.description.value@.len() == 0,
            r.keywords.value@.len() == 0,
            r.canonical_url.value@.len() == 0,
            r.og_title.value@.len() == 0,
            r.og_description.value@.len() == 0,
            r.og_image.value@.len() == 0,
            r.structured_data.value@.len() == 0,
            !r.noindex.value,
            !r.nofollow.value,
    {
        SeoBulkActionForm {
            selection_mode: SeoBulkSelectionMode::CurrentFilterScope,
            apply_mode: SeoBulkApplyMode::ApplyMissingOnly,
            publish_after_write: true,
            import_csv: String::new(),
            title: SeoBulkStringPatchForm::default(),
            description: SeoBulkStringPatchForm::default(),
            keywords: SeoBulkStringPatchForm::default(),
            canonical_url: SeoBulkStringPatchForm::default(),
            og_title: SeoBulkStringPatchForm::default(),
            og_description: SeoBulkStringPatchForm::default(),
            og_image: SeoBulkStringPatchForm::default(),
            structured_data: SeoBulkJsonPatchForm::default(),
            noindex: SeoBulkBoolPatchForm::default(),
            nofollow: SeoBulkBoolPatchForm::default(),
        }
    }
}

fn copy_ids(ids: &Vec<u128>) -> (r: Vec<u128>)
    ensures
        r@ == ids@,
{
    let mut r: Vec<u128> = Vec::new();
    let mut i: usize = 0;
    while i < ids.len()
        invariant
            i <= ids.len(),
            r@ == ids@.take(i as int),
        decreases ids.len() - i,
    {
        r.push(ids[i]);
        i = i + 1;
        assert(r@ =~= ids@.take(i as int));
    }
    assert(r@ =~= ids@);
    r
}

/// A `set` text patch needs a value that is not blank.
pub open spec fn string_form_error(f: SeoBulkStringPatchForm) -> bool {
    f.mode == SeoBulkFieldPatchMode::SetValue && trim(f.value@).len() == 0
}

/// `p` is the patch of the text form `f`: its mode, and its value trimmed
/// when not blank.
pub open spec fn string_patch_of(p: Option<SeoBulkStringFieldPatch>, f: SeoBulkStringPatchForm) -> bool {
    p matches Some(x) && x.mode == f.mode && opt_view(x.value) == trimmed_nonblank(f.value@)
}

/// `p` is the patch of the structured-data form `f` (see
/// `json_patch_outcome`).
pub open spec fn json_patch_of(p: Option<SeoBulkJsonFieldPatch>, f: SeoBulkJsonPatchForm) -> bool {
    p matches Some(x) && x.mode == f.mode && json_patch_outcome(f.mode, f.value@) == Ok::<
        Option<JsonData>,
        Seq<char>,
    >(
        match x.value {
            Some(v) => Some(v@),
            None => None,
        },
    )
}

impl SeoBulkActionForm {
    /// The first error of the form's patches in field order: title,
    /// description, keywords, canonical URL, the Open Graph title,
    /// description and image, then the structured data.
    pub open spec fn apply_form_error(self) -> Option<Seq<char>> {
        let text_error = "String patch value is required for `set` mode"@;
        if string_form_error(self.title) || string_form_error(self.description) || string_form_error(
            self.keywords,
        ) || string_form_error(self.canonical_url) || string_form_error(self.og_title)
            || string_form_error(self.og_description) || string_form_error(self.og_image) {
            Some(text_error)
        } else {
            match json_patch_outcome(self.structured_data.mode, self.structured_data.value@) {
                Err(e) => Some(e),
                Ok(_) => None,
            }
        }
    }
}

impl SeoBulkActionForm {
    /// The selection of the form over the given filter and selected ids.
    pub fn build_selection(&self, filter: SeoBulkListInput, selected_ids: &Vec<u128>) -> (r: SeoBulkSelectionInput)
        ensures
            r.mode == self.selection_mode,
            r.selected_ids@ == selected_ids@,
            r.filter == Some(filter),
    {
        SeoBulkSelectionInput { mode: self.selection_mode, selected_ids: copy_ids(selected_ids), filter: Some(filter) }
    }

    /// The apply request of the form: every field patch, the first error of
    /// the text and structured-data patches in field order; publishing only
    /// when asked and not a preview.
    pub fn build_apply_input(&self, filter: SeoBulkListInput, selected_ids: &Vec<u128>) -> (r: Result<SeoBulkApplyInput, String>)
        ensures
            r is Err <==> self.apply_form_error() is Some,
            r matches Err(m) ==> self.apply_form_error() == Some(m@),
            r matches Ok(input) ==> {
                &&& input.selection.mode == self.selection_mode
                &&& input.selection.selected_ids@ == selected_ids@
                &&& input.selection.filter == Some(filter)
                &&& input.apply_mode == self.apply_mode
                &&& input.publish_after_write == (self.publish_after_write && self.apply_mode
                    != SeoBulkApplyMode::PreviewOnly)
                &&& string_patch_of(input.patch.title, self.title)
                &&& string_patch_of(input.patch.description, self.description)
                &&& string_patch_of(input.patch.keywords, self.keywords)
                &&& string_patch_of(input.patch.canonical_url, self.canonical_url)
                &&& string_patch_of(input.patch.og_title, self.og_title)
                &&& string_patch_of(input.patch.og_description, self.og_description)
                &&& string_patch_of(input.patch.og_image, self.og_image)
                &&& json_patch_of(input.patch.structured_data, self.structured_data)
                &&& input.patch.noindex == Some(self.noindex.build_patch_spec())
                &&& input.patch.nofollow == Some(self.nofollow.build_patch_spec())
            },
    {
        let title = match self.title.build_patch() {
            Ok(p) => p,
            Err(e) => return Err(e),
        };
        let description = match self.description.build_patch() {
            Ok(p) => p,
            Err(e) => return Err(e),
        };
        let keywords = match self.keywords.build_patch() {
            Ok(p) => p,
            Err(e) => return Err(e),
        };
        let canonical_url = match self.canonical_url.build_patch() {
            Ok(p) => p,
            Err(e) => return Err(e),
        };
        let og_title = match self.og_title.build_patch() {
            Ok(p) => p,
            Err(e) => return Err(e),
        };
        let og_description = match self.og_description.build_patch() {
            Ok(p) => p,
            Err(e) => return Err(e),
        };
        let og_image = match self.og_image.build_patch() {
            Ok(p) => p,
            Err(e) => return Err(e),
        };
        let structured_data = match self.structured_data.build_patch() {
            Ok(p) => p,
            Err(e) => return Err(e),
        };
        Ok(SeoBulkApplyInput {
            selection: self.build_selection(filter, selected_ids),
            patch: SeoBulkMetaPatchInput {
                title: Some(title),
                description: Some(description),
                keywords: Some(keywords),
                canonical_url: Some(canonical_url),
                og_title: Some(og_title),
                og_description: Some(og_description),
                og_image: Some(og_image),
                structured_data: Some(structured_data),
                noindex: Some(self.noindex.build_patch()),
                nofollow: Some(self.nofollow.build_patch()),
            },
            apply_mode: self.apply_mode,
            publish_after_write: self.publish_after_write && self.apply_mode
                != SeoBulkApplyMode::PreviewOnly,
        })
    }

    /// The export request over the filter.
    pub fn build_export_input(&self, filter: SeoBulkListInput) -> (r: SeoBulkExportInput)
        ensures
            r.filter == filter,
    {
        SeoBulkExportInput { filter }
    }

    /// The import request of the form: the trimmed CSV, which is required,
    /// in the filter's scope.
    pub fn build_import_input(&self, filter: &SeoBulkListInput) -> (r: Result<SeoBulkImportInput, String>)
        ensures
            r is Err <==> trim(self.import_csv@).len() == 0,
            r matches Err(m) ==> m@ == "CSV import payload is required"@,
            r matches Ok(input) ==> {
                &&& input.target_kind@ == filter.target_kind@
                &&& input.locale@ == filter.locale@
                &&& input.csv_utf8@ == trim(self.import_csv@)
                &&& input.publish_after_write == self.publish_after_write
            },
    {
        let csv = trim_str(self.import_csv.as_str());
        if csv.as_str().unicode_len() == 0 {
            return Err(owned("CSV import payload is required"));
        }
        Ok(SeoBulkImportInput {
            target_kind: filter.target_kind.copy(),
            locale: filter.locale.clone(),
            csv_utf8: csv,
            publish_after_write: self.publish_after_write,
        })
    }
}

impl SeoBulkBoolPatchForm {
    /// The patch of the form (see `build_patch`).
    pub open spec fn build_patch_spec(self) -> SeoBulkBoolFieldPatch {
        SeoBulkBoolFieldPatch { mode: self.mode, value: Some(self.value) }
    }
}

/// The form of a redirect rule.
#[derive(Clone, Debug)]
pub struct SeoRedirectForm {
    pub match_type: SeoRedirectMatchType,
    pub source_pattern: String,
    pub target_url: String,
    pub status_code: String,
}

impl Default for SeoRedirectForm {
    fn default() -> (r: Self)
        ensures
            r.match_type == SeoRedirectMatchType::Exact,
            r.source_pattern@.len() == 0,
            r.target_url@.len() == 0,
            r.status_code@ == "308"@,
    {
        SeoRedirectForm {
            match_type: SeoRedirectMatchType::Exact,
            source_pattern: String::new(),
            target_url: String::new(),
            status_code: owned("308"),
        }
    }
}

impl SeoRedirectForm {
    /// The name of the selected match type.
    pub fn match_type_value(&self) -> (r: &'static str)
        ensures
            r@ == self.match_type.wire(),
    {
        self.match_type.as_str()
    }

    /// Selects the match type named `value`; unknown names select exact
    /// matching.
    pub fn set_match_type_from_str(&mut self, value: &str)
        ensures
            final(self).match_type == match SeoRedirectMatchType::from_wire(value@) {
                Some(m) => m,
                None => SeoRedirectMatchType::Exact,
            },
            final(self).source_pattern == old(self).source_pattern,
            final(self).target_url == old(self).target_url,
            final(self).status_code == old(self).status_code,
    {
        self.match_type = match SeoRedirectMatchType::parse(value) {
            Some(m) => m,
            None => SeoRedirectMatchType::Exact,
        };
    }

    /// The redirect request of the form: the status code must be an
    /// integer (surrounding whitespace ignored); a new, active rule without
    /// expiry.
    pub fn build_input(&self) -> (r: Result<SeoRedirectInput, String>)
        ensures
            r is Err <==> parse_i32(trim(self.status_code@)) is None,
            r matches Err(m) ==> m@ == "Invalid redirect status code"@,
            r matches Ok(input) ==> {
                &&& input.id is None
                &&& input.match_type == self.match_type
                &&& input.source_pattern@ == self.source_pattern@
                &&& input.target_url@ == self.target_url@
                &&& Some(input.status_code) == parse_i32(trim(self.status_code@))
                &&& input.expires_at is None
                &&& input.is_active
            },
    {
        let code = trim_str(self.status_code.as_str());
        match parse_i32_str(code.as_str()) {
            Some(status_code) => Ok(SeoRedirectInput {
                id: None,
                match_type: self.match_type,
                source_pattern: self.source_pattern.clone(),
                target_url: self.target_url.clone(),
                status_code,
                expires_at: None,
                is_active: true,
            }),
            None => Err(owned("Invalid redirect status code")),
        }
    }
}


// ---------------------------------------------------------------------------
// Settings form
// ---------------------------------------------------------------------------

/// The names of the template rules, in declaration order.
pub open spec fn rule_names() -> Seq<Seq<char>> {
    seq![
        "title"@,
        "meta_description"@,
        "canonical_url"@,
        "keywords"@,
        "robots"@,
        "open_graph_title"@,
        "open_graph_description"@,
        "twitter_title"@,
        "twitter_description"@,
    ]
}

/// The rules of a rule set, in declaration order.
pub open spec fn rules_view(r: SeoTemplateRuleSet) -> Seq<Option<Seq<char>>> {
    seq![
        opt_view(r.title),
        opt_view(r.meta_description),
        opt_view(r.canonical_url),
        opt_view(r.keywords),
        opt_view(r.robots),
        opt_view(r.open_graph_title),
        opt_view(r.open_graph_description),
        opt_view(r.twitter_title),
        opt_view(r.twitter_description),
    ]
}

/// The views of keyed rule sets.
pub open spec fn overrides_view(v: Seq<(String, SeoTemplateRuleSet)>) -> Seq<(Seq<char>, Seq<Option<Seq<char>>>)> {
    v.map_values(|e: (String, SeoTemplateRuleSet)| (e.0@, rules_view(e.1)))
}

/// One rule read from a JSON object: absent or null is no rule, a string
/// is the rule, anything else is an error.
pub open spec fn rule_of(ms: Seq<(Seq<char>, JsonData)>, name: Seq<char>) -> Option<Option<Seq<char>>> {
    match crate::schema::member_get(ms, name) {
        None => Some(None),
        Some(JsonData::Null) => Some(None),
        Some(JsonData::Str(s)) => Some(Some(s)),
        _ => None,
    }
}

/// The rule set a JSON value describes: an object whose rules are absent,
/// null or strings; other members are ignored.
pub open spec fn rule_set_of(d: JsonData) -> Option<Seq<Option<Seq<char>>>> {
    match d {
        JsonData::Object(ms) => {
            let rs = rule_names().map_values(|n: Seq<char>| rule_of(ms, n));
            if forall|i: int| 0 <= i < rs.len() ==> #[trigger] rs[i] is Some {
                Some(rs.map_values(|x: Option<Option<Seq<char>>>| x->Some_0))
            } else {
                None
            }
        },
        _ => None,
    }
}

/// The keyed rule sets of object members whose values are rule sets.
pub open spec fn overrides_map(ms: Seq<(Seq<char>, JsonData)>) -> Seq<(Seq<char>, Seq<Option<Seq<char>>>)> {
    ms.map_values(|m: (Seq<char>, JsonData)| (m.0, rule_set_of(m.1)->Some_0))
}

/// The rule sets of a JSON object keyed by target kind; `None` when the
/// value is not such an object.
pub open spec fn overrides_of_json(d: JsonData) -> Option<Seq<(Seq<char>, Seq<Option<Seq<char>>>)>> {
    match d {
        JsonData::Object(ms) => if forall|i: int| 0 <= i < ms.len() ==> #[trigger] rule_set_of(ms[i].1) is Some {
            Some(overrides_map(ms))
        } else {
            None
        },
        _ => None,
    }
}

/// The template overrides typed into the settings form: the rule sets of
/// the trimmed JSON text, or none when it does not parse as such.
pub open spec fn template_overrides_of(text: Seq<char>) -> Seq<(Seq<char>, Seq<Option<Seq<char>>>)> {
    match parsed_json(trim(text)) {
        Ok(d) => match overrides_of_json(d) {
            Some(o) => o,
            None => Seq::empty(),
        },
        Err(_) => Seq::empty(),
    }
}

fn rule_from(members: &Vec<(String, JsonValue)>, name: &str) -> (r: Option<Option<String>>)
    ensures
        match r {
            Some(x) => rule_of(crate::json::members_view(members@), name@) == Some(opt_view(x)),
            None => rule_of(crate::json::members_view(members@), name@) is None,
        },
{
    proof {
        crate::json::lemma_members_view_index(members@);
    }
    match crate::schema::find_key(members, name) {
        None => Some(None),
        Some(i) => match &members[i].1 {
            JsonValue::Null => Some(None),
            JsonValue::Str(s) => Some(Some(s.clone())),
            _ => None,
        },
    }
}

fn rule_set_from(value: &JsonValue) -> (r: Option<SeoTemplateRuleSet>)
    ensures
        match r {
            Some(x) => rule_set_of(value@) == Some(rules_view(x)),
            None => rule_set_of(value@) is None,
        },
{
    match value {
        JsonValue::Object(members) => {
            let ghost ms = crate::json::members_view(members@);
            let ghost rs = rule_names().map_values(|n: Seq<char>| rule_of(ms, n));
            let title = rule_from(members, "title");
            let meta_description = rule_from(members, "meta_description");
            let canonical_url = rule_from(members, "canonical_url");
            let keywords = rule_from(members, "keywords");
            let robots = rule_from(members, "robots");
            let open_graph_title = rule_from(members, "open_graph_title");
            let open_graph_description = rule_from(members, "open_graph_description");
            let twitter_title = rule_from(members, "twitter_title");
            let twitter_description = rule_from(members, "twitter_description");
            proof {
                assert(rs[0] == rule_of(ms, "title"@));
                assert(rs[1] == rule_of(ms, "meta_description"@));
                assert(rs[2] == rule_of(ms, "canonical_url"@));
                assert(rs[3] == rule_of(ms, "keywords"@));
                assert(rs[4] == rule_of(ms, "robots"@));
                assert(rs[5] == rule_of(ms, "open_graph_title"@));
                assert(rs[6] == rule_of(ms, "open_graph_description"@));
                assert(rs[7] == rule_of(ms, "twitter_title"@));
                assert(rs[8] == rule_of(ms, "twitter_description"@));
            }
            match (title, meta_description, canonical_url, keywords, robots) {
                (Some(a), Some(b), Some(c), Some(d), Some(e)) => match (
                    open_graph_title,
                    open_graph_description,
                    twitter_title,
                    twitter_description,
                ) {
                    (Some(f), Some(g), Some(h), Some(k)) => {
                        let r = SeoTemplateRuleSet {
                            title: a,
                            meta_description: b,
                            canonical_url: c,
                            keywords: d,
                            robots: e,
                            open_graph_title: f,
                            open_graph_description: g,
                            twitter_title: h,
                            twitter_description: k,
                        };
                        proof {
                            assert forall|i: int| 0 <= i < rs.len() implies #[trigger] rs[i] is Some by {}
                            assert(rs.map_values(|x: Option<Option<Seq<char>>>| x->Some_0) =~= rules_view(r));
                        }
                        Some(r)
                    },
                    _ => {
                        proof {
                            if open_graph_title is None { assert(rs[5] is None); }
                            else if open_graph_description is None { assert(rs[6] is None); }
                            else if twitter_title is None { assert(rs[7] is None); }
                            else { assert(rs[8] is None); }
                        }
                        None
                    },
                },
                _ => {
                    proof {
                        if title is None { assert(rs[0] is None); }
                        else if meta_description is None { assert(rs[1] is None); }
                        else if canonical_url is None { assert(rs[2] is None); }
                        else if keywords is None { assert(rs[3] is None); }
                        else { assert(rs[4] is None); }
                    }
                    None
                },
            }
        },
        _ => None,
    }
}

/// Reads the template overrides typed into the settings form (see
/// `template_overrides_of`).
pub fn parse_template_overrides(value: &str) -> (r: Vec<(String, SeoTemplateRuleSet)>)
    ensures
        overrides_view(r@) == template_overrides_of(value@),
{
    let text = trim_str(value);
    let parsed = parse_json_text(text.as_str());
    let members = match &parsed {
        Ok(JsonValue::Object(members)) => members,
        _ => {
            let r: Vec<(String, SeoTemplateRuleSet)> = Vec::new();
            assert(overrides_view(r@) =~= template_overrides_of(value@));
            return r;
        },
    };
    let ghost ms = crate::json::members_view(members@);
    proof {
        crate::json::lemma_members_view_index(members@);
        assert(parsed_json(trim(value@)) == Ok::<JsonData, Seq<char>>(JsonData::Object(ms)));
    }
    let mut out: Vec<(String, SeoTemplateRuleSet)> = Vec::new();
    let mut i: usize = 0;
    while i < members.len()
        invariant
            i <= members.len(),
            ms == crate::json::members_view(members@),
            ms.len() == members.len(),
            forall|k: int| 0 <= k < members.len() ==> #[trigger] ms[k] == (members@[k].0@, crate::json::json_view(members@[k].1)),
            forall|k: int| 0 <= k < i ==> #[trigger] rule_set_of(ms[k].1) is Some,
            overrides_view(out@) == overrides_map(ms.take(i as int)),
            parsed_json(trim(value@)) == Ok::<JsonData, Seq<char>>(JsonData::Object(ms)),
        decreases members.len() - i,
    {
        assert(ms[i as int] == (members@[i as int].0@, crate::json::json_view(members@[i as int].1)));
        match rule_set_from(&members[i].1) {
            Some(rules) => {
                let key = members[i].0.clone();
                let ghost prev = out@;
                let ghost entry = (key@, rules_view(rules));
                out.push((key, rules));
                assert(overrides_view(out@) =~= overrides_view(prev).push(entry));
                assert(overrides_map(ms.take(i as int + 1)) =~= overrides_map(ms.take(i as int)).push(entry));
            },
            None => {
                let r: Vec<(String, SeoTemplateRuleSet)> = Vec::new();
                assert(rule_set_of(ms[i as int].1) is None);
                assert(!(forall|k: int| 0 <= k < ms.len() ==> #[trigger] rule_set_of(ms[k].1) is Some));
                assert(overrides_view(r@) =~= template_overrides_of(value@));
                return r;
            },
        }
        i = i + 1;
    }
    assert(ms.take(members.len() as int) =~= ms);
    out
}

/// The robots directives of the form normalized: trimmed, lower-cased,
/// blank ones and repeats (up to ASCII case) dropped, first occurrences in
/// order.
pub open spec fn normalized_directives(values: Seq<Seq<char>>) -> Seq<Seq<char>>
    decreases values.len(),
{
    if values.len() == 0 {
        Seq::empty()
    } else {
        let prev = normalized_directives(values.drop_last());
        let d = lower(trim(values.last()));
        if d.len() == 0 || exists|i: int| 0 <= i < prev.len() && eq_ignore_case(#[trigger] prev[i], d) {
            prev
        } else {
            prev.push(d)
        }
    }
}

fn contains_ignore_case(items: &Vec<String>, value: &str) -> (r: bool)
    ensures
        r == exists|i: int| 0 <= i < items.len() && eq_ignore_case(#[trigger] views(items@)[i], value@),
{
    let mut i: usize = 0;
    while i < items.len()
        invariant
            i <= items.len(),
            forall|k: int| 0 <= k < i ==> !eq_ignore_case(#[trigger] views(items@)[k], value@),
        decreases items.len() - i,
    {
        if str_eq_ascii_case(items[i].as_str(), value) {
            assert(eq_ignore_case(views(items@)[i as int], value@));
            return true;
        }
        i = i + 1;
    }
    false
}

/// Normalizes robots directives (see `normalized_directives`).
pub fn normalize_robot_directives(values: &Vec<String>) -> (r: Vec<String>)
    ensures
        views(r@) == normalized_directives(views(values@)),
{
    let mut out: Vec<String> = Vec::new();
    let mut i: usize = 0;
    while i < values.len()
        invariant
            i <= values.len(),
            views(out@) == normalized_directives(views(values@.take(i as int))),
        decreases values.len() - i,
    {
        proof {
            lemma_views_take_next(values@, i as int);
        }
        let d = trim_lower(values[i].as_str());
        if d.as_str().unicode_len() > 0 && !contains_ignore_case(&out, d.as_str()) {
            proof {
                lemma_views_push(out@, d);
            }
            out.push(d);
        }
        i = i + 1;
    }
    assert(values@.take(values.len() as int) =~= values@);
    out
}

/// The values of a multi-line text: each line trimmed, lower-cased when
/// asked, blank lines and repeats dropped, first occurrences in order.
/// (A `\r` before a line break is trimmed with the other whitespace.)
pub open spec fn multiline_values(lines: Seq<Seq<char>>, lowercase: bool) -> Seq<Seq<char>>
    decreases lines.len(),
{
    if lines.len() == 0 {
        Seq::empty()
    } else {
        let prev = multiline_values(lines.drop_last(), lowercase);
        let t = trim(lines.last());
        let item = if lowercase {
            lower(t)
        } else {
            t
        };
        if t.len() == 0 || prev.contains(item) {
            prev
        } else {
            prev.push(item)
        }
    }
}

/// Normalizes a multi-line text into values (see `multiline_values`).
pub fn normalize_multiline_values(value: &str, lowercase: bool) -> (r: Vec<String>)
    ensures
        views(r@) == multiline_values(split_on(value@, '\n'), lowercase),
{
    let lines = split_char(value, '\n');
    let ghost lv = views(lines@);
    let mut out: Vec<String> = Vec::new();
    let mut i: usize = 0;
    while i < lines.len()
        invariant
            i <= lines.len(),
            lv == views(lines@),
            views(out@) == multiline_values(lv.take(i as int), lowercase),
        decreases lines.len() - i,
    {
        proof {
            assert(lv.take(i as int + 1).drop_last() =~= lv.take(i as int));
            assert(lv.take(i as int + 1).last() == lines@[i as int]@);
        }
        let t = trim_str(lines[i].as_str());
        if t.as_str().unicode_len() > 0 {
            let item = if lowercase {
                crate::text::lower_str(t.as_str())
            } else {
                t
            };
            let seen = crate::text::strings_contain(&out, item.as_str());
            if !seen {
                proof {
                    lemma_views_push(out@, item);
                }
                out.push(item);
            }
        }
        i = i + 1;
    }
    assert(lv.take(lines.len() as int) =~= lv);
    out
}


/// The pretty JSON text of one rule: its quoted name, then the quoted rule
/// or `null`.
pub open spec fn rule_line(name: Seq<char>, rule: Option<Seq<char>>) -> Seq<char> {
    "    "@ + crate::json::json_quoted(name) + ": "@ + match rule {
        Some(v) => crate::json::json_quoted(v),
        None => "null"@,
    }
}

/// The pretty JSON text of a rule set, nested one level.
pub open spec fn rule_set_pretty(rules: Seq<Option<Seq<char>>>) -> Seq<char> {
    "{\n"@ + crate::text::join(
        Seq::new(9, |i: int| rule_line(rule_names()[i], rules[i])),
        ",\n"@,
    ) + "\n  }"@
}

/// The pretty JSON text of keyed rule sets (as `serde_json::to_string_pretty`
/// writes a map of rule sets).
pub open spec fn overrides_pretty(o: Seq<(Seq<char>, Seq<Option<Seq<char>>>)>) -> Seq<char> {
    if o.len() == 0 {
        "{}"@
    } else {
        "{\n"@ + crate::text::join(
            o.map_values(
                |e: (Seq<char>, Seq<Option<Seq<char>>>)| "  "@ + crate::json::json_quoted(e.0) + ": "@
                    + rule_set_pretty(e.1),
            ),
            ",\n"@,
        ) + "\n}"@
    }
}

fn push_quoted(out: &mut String, text: &str)
    ensures
        final(out)@ == old(out)@ + crate::json::json_quoted(text@),
{
    out.push('"');
    crate::json::push_json_escaped(out, text);
    out.push('"');
    assert(out@ =~= old(out)@ + crate::json::json_quoted(text@));
}

fn rule_line_text(name: &str, rule: &Option<String>) -> (r: String)
    ensures
        r@ == rule_line(name@, opt_view(*rule)),
{
    let mut s = owned("    ");
    push_quoted(&mut s, name);
    append(&mut s, ": ");
    match rule {
        Some(v) => push_quoted(&mut s, v.as_str()),
        None => append(&mut s, "null"),
    }
    s
}

fn rule_set_pretty_text(r: &SeoTemplateRuleSet) -> (t: String)
    ensures
        t@ == rule_set_pretty(rules_view(*r)),
{
    let mut lines: Vec<String> = Vec::new();
    lines.push(rule_line_text("title", &r.title));
    lines.push(rule_line_text("meta_description", &r.meta_description));
    lines.push(rule_line_text("canonical_url", &r.canonical_url));
    lines.push(rule_line_text("keywords", &r.keywords));
    lines.push(rule_line_text("robots", &r.robots));
    lines.push(rule_line_text("open_graph_title", &r.open_graph_title));
    lines.push(rule_line_text("open_graph_description", &r.open_graph_description));
    lines.push(rule_line_text("twitter_title", &r.twitter_title));
    lines.push(rule_line_text("twitter_description", &r.twitter_description));
    assert(views(lines@) =~= Seq::new(9, |i: int| rule_line(rule_names()[i], rules_view(*r)[i])));
    let mut t = owned("{\n");
    append(&mut t, crate::text::join_strings(&lines, ",\n").as_str());
    append(&mut t, "\n  }");
    t
}

/// The pretty JSON text of keyed rule sets (see `overrides_pretty`).
pub fn template_overrides_json(o: &Vec<(String, SeoTemplateRuleSet)>) -> (r: String)
    ensures
        r@ == overrides_pretty(overrides_view(o@)),
{
    if o.len() == 0 {
        return owned("{}");
    }
    let ghost ov = overrides_view(o@);
    let ghost entries = ov.map_values(
        |e: (Seq<char>, Seq<Option<Seq<char>>>)| "  "@ + crate::json::json_quoted(e.0) + ": "@
            + rule_set_pretty(e.1),
    );
    let mut parts: Vec<String> = Vec::new();
    let mut i: usize = 0;
    while i < o.len()
        invariant
            i <= o.len(),
            ov == overrides_view(o@),
            entries == ov.map_values(
                |e: (Seq<char>, Seq<Option<Seq<char>>>)| "  "@ + crate::json::json_quoted(e.0) + ": "@
                    + rule_set_pretty(e.1),
            ),
            views(parts@) == entries.take(i as int),
        decreases o.len() - i,
    {
        let mut e = owned("  ");
        push_quoted(&mut e, o[i].0.as_str());
        append(&mut e, ": ");
        append(&mut e, rule_set_pretty_text(&o[i].1).as_str());
        proof {
            lemma_views_push(parts@, e);
            assert(entries[i as int] == e@);
        }
        parts.push(e);
        i = i + 1;
        assert(views(parts@) =~= entries.take(i as int));
    }
    assert(entries.take(o.len() as int) =~= entries);
    let mut r = owned("{\n");
    append(&mut r, crate::text::join_strings(&parts, ",\n").as_str());
    append(&mut r, "\n}");
    r
}

/// The settings form of the SEO module.
#[derive(Clone, Debug, Default)]
pub struct SeoSettingsForm {
    pub default_robots: Vec<String>,
    pub robot_directive_input: String,
    pub sitemap_enabled: bool,
    pub allowed_redirect_hosts_text: String,
    pub allowed_canonical_hosts_text: String,
    pub x_default_locale: String,
    pub template_title: String,
    pub template_meta_description: String,
    pub template_canonical_url: String,
    pub template_keywords: String,
    pub template_robots: String,
    pub template_open_graph_title: String,
    pub template_open_graph_description: String,
    pub template_twitter_title: String,
    pub template_twitter_description: String,
    pub template_overrides_json: String,
}

/// The text of an optional rule, empty when absent.
pub open spec fn or_empty(o: Option<String>) -> Seq<char> {
    match o {
        Some(s) => s@,
        None => Seq::empty(),
    }
}

fn text_or_empty(o: &Option<String>) -> (r: String)
    ensures
        r@ == or_empty(*o),
{
    match o {
        Some(s) => s.clone(),
        None => String::new(),
    }
}

/// Two forms agree on everything but the robots directives and their
/// input field.
pub open spec fn same_but_robots(a: SeoSettingsForm, b: SeoSettingsForm) -> bool {
    &&& a.sitemap_enabled == b.sitemap_enabled
    &&& a.allowed_redirect_hosts_text == b.allowed_redirect_hosts_text
    &&& a.allowed_canonical_hosts_text == b.allowed_canonical_hosts_text
    &&& a.x_default_locale == b.x_default_locale
    &&& a.template_title == b.template_title
    &&& a.template_meta_description == b.template_meta_description
    &&& a.template_canonical_url == b.template_canonical_url
    &&& a.template_keywords == b.template_keywords
    &&& a.template_robots == b.template_robots
    &&& a.template_open_graph_title == b.template_open_graph_title
    &&& a.template_open_graph_description == b.template_open_graph_description
    &&& a.template_twitter_title == b.template_twitter_title
    &&& a.template_twitter_description == b.template_twitter_description
    &&& a.template_overrides_json == b.template_overrides_json
}

/// The directives without those equal to `d` up to ASCII case.
pub open spec fn without_directive(items: Seq<Seq<char>>, d: Seq<char>) -> Seq<Seq<char>>
    decreases items.len(),
{
    if items.len() == 0 {
        items
    } else {
        let prev = without_directive(items.drop_last(), d);
        if eq_ignore_case(items.last(), d) {
            prev
        } else {
            prev.push(items.last())
        }
    }
}

impl SeoSettingsForm {
    /// The form showing the settings: hosts one per line, absent rules as
    /// empty fields, the overrides as pretty JSON, an empty directive input.
    pub fn from_settings(settings: &SeoModuleSettings) -> (r: SeoSettingsForm)
        ensures
            views(r.default_robots@) == views(settings.default_robots@),
            r.robot_directive_input@.len() == 0,
            r.sitemap_enabled == settings.sitemap_enabled,
            r.allowed_redirect_hosts_text@ == crate::text::join(views(settings.allowed_redirect_hosts@), "\n"@),
            r.allowed_canonical_hosts_text@ == crate::text::join(views(settings.allowed_canonical_hosts@), "\n"@),
            r.x_default_locale@ == or_empty(settings.x_default_locale),
            r.template_title@ == or_empty(settings.template_defaults.title),
            r.template_meta_description@ == or_empty(settings.template_defaults.meta_description),
            r.template_canonical_url@ == or_empty(settings.template_defaults.canonical_url),
            r.template_keywords@ == or_empty(settings.template_defaults.keywords),
            r.template_robots@ == or_empty(settings.template_defaults.robots),
            r.template_open_graph_title@ == or_empty(settings.template_defaults.open_graph_title),
            r.template_open_graph_description@ == or_empty(settings.template_defaults.open_graph_description),
            r.template_twitter_title@ == or_empty(settings.template_defaults.twitter_title),
            r.template_twitter_description@ == or_empty(settings.template_defaults.twitter_description),
            r.template_overrides_json@ == overrides_pretty(overrides_view(settings.template_overrides@)),
    {
        let t = &settings.template_defaults;
        SeoSettingsForm {
            default_robots: crate::text::copy_strings(&settings.default_robots),
            robot_directive_input: String::new(),
            sitemap_enabled: settings.sitemap_enabled,
            allowed_redirect_hosts_text: crate::text::join_strings(&settings.allowed_redirect_hosts, "\n"),
            allowed_canonical_hosts_text: crate::text::join_strings(&settings.allowed_canonical_hosts, "\n"),
            x_default_locale: text_or_empty(&settings.x_default_locale),
            template_title: text_or_empty(&t.title),
            template_meta_description: text_or_empty(&t.meta_description),
            template_canonical_url: text_or_empty(&t.canonical_url),
            template_keywords: text_or_empty(&t.keywords),
            template_robots: text_or_empty(&t.robots),
            template_open_graph_title: text_or_empty(&t.open_graph_title),
            template_open_graph_description: text_or_empty(&t.open_graph_description),
            template_twitter_title: text_or_empty(&t.twitter_title),
            template_twitter_description: text_or_empty(&t.twitter_description),
            template_overrides_json: template_overrides_json(&settings.template_overrides),
        }
    }

    /// Adds a directive, trimmed and lower-cased, unless it is blank or
    /// already listed up to ASCII case; the input field is cleared.
    pub fn add_robot_directive(&mut self, value: String)
        ensures
            final(self).robot_directive_input@.len() == 0,
            same_but_robots(*final(self), *old(self)),
            views(final(self).default_robots@) == ({
                let d = lower(trim(value@));
                let old_items = views(old(self).default_robots@);
                if d.len() == 0 || exists|i: int| 0 <= i < old_items.len() && eq_ignore_case(#[trigger] old_items[i], d) {
                    old_items
                } else {
                    old_items.push(d)
                }
            }),
    {
        let directive = trim_lower(value.as_str());
        if directive.as_str().unicode_len() == 0 {
            self.robot_directive_input = String::new();
            return;
        }
        if !contains_ignore_case(&self.default_robots, directive.as_str()) {
            proof {
                lemma_views_push(self.default_robots@, directive);
            }
            self.default_robots.push(directive);
        }
        self.robot_directive_input = String::new();
    }

    /// Removes every directive equal to `directive` up to ASCII case.
    pub fn remove_robot_directive(&mut self, directive: &str)
        ensures
            views(final(self).default_robots@) == without_directive(views(old(self).default_robots@), directive@),
            final(self).robot_directive_input == old(self).robot_directive_input,
            same_but_robots(*final(self), *old(self)),
    {
        let ghost items = views(self.default_robots@);
        let mut kept: Vec<String> = Vec::new();
        let mut i: usize = 0;
        while i < self.default_robots.len()
            invariant
                i <= self.default_robots.len(),
                items == views(self.default_robots@),
                views(kept@) == without_directive(items.take(i as int), directive@),
            decreases self.default_robots.len() - i,
        {
            proof {
                assert(items.take(i as int + 1).drop_last() =~= items.take(i as int));
                assert(items.take(i as int + 1).last() == self.default_robots@[i as int]@);
            }
            if !str_eq_ascii_case(self.default_robots[i].as_str(), directive) {
                let c = self.default_robots[i].clone();
                proof {
                    lemma_views_push(kept@, c);
                }
                kept.push(c);
            }
            i = i + 1;
        }
        assert(items.take(self.default_robots.len() as int) =~= items);
        self.default_robots = kept;
    }

    /// The settings the form stands for: directives normalized, hosts one
    /// per line lower-cased without repeats, trimmed optional texts, the
    /// overrides read from their JSON, no submission endpoints.
    pub fn build_settings(&self) -> (r: SeoModuleSettings)
        ensures
            views(r.default_robots@) == normalized_directives(views(self.default_robots@)),
            r.sitemap_enabled == self.sitemap_enabled,
            views(r.allowed_redirect_hosts@) == multiline_values(split_on(self.allowed_redirect_hosts_text@, '\n'), true),
            views(r.allowed_canonical_hosts@) == multiline_values(split_on(self.allowed_canonical_hosts_text@, '\n'), true),
            opt_view(r.x_default_locale) == trimmed_nonblank(self.x_default_locale@),
            opt_view(r.template_defaults.title) == trimmed_nonblank(self.template_title@),
            opt_view(r.template_defaults.meta_description) == trimmed_nonblank(self.template_meta_description@),
            opt_view(r.template_defaults.canonical_url) == trimmed_nonblank(self.template_canonical_url@),
            opt_view(r.template_defaults.keywords) == trimmed_nonblank(self.template_keywords@),
            opt_view(r.template_defaults.robots) == trimmed_nonblank(self.template_robots@),
            opt_view(r.template_defaults.open_graph_title) == trimmed_nonblank(self.template_open_graph_title@),
            opt_view(r.template_defaults.open_graph_description) == trimmed_nonblank(self.template_open_graph_description@),
            opt_view(r.template_defaults.twitter_title) == trimmed_nonblank(self.template_twitter_title@),
            opt_view(r.template_defaults.twitter_description) == trimmed_nonblank(self.template_twitter_description@),
            overrides_view(r.template_overrides@) == template_overrides_of(self.template_overrides_json@),
            r.sitemap_submission_endpoints@.len() == 0,
    {
        SeoModuleSettings {
            default_robots: normalize_robot_directives(&self.default_robots),
            sitemap_enabled: self.sitemap_enabled,
            allowed_redirect_hosts: normalize_multiline_values(self.allowed_redirect_hosts_text.as_str(), true),
            allowed_canonical_hosts: normalize_multiline_values(self.allowed_canonical_hosts_text.as_str(), true),
            x_default_locale: trim_to_option(self.x_default_locale.as_str()),
            template_defaults: SeoTemplateRuleSet {
                title: trim_to_option(self.template_title.as_str()),
                meta_description: trim_to_option(self.template_meta_description.as_str()),
                canonical_url: trim_to_option(self.template_canonical_url.as_str()),
                keywords: trim_to_option(self.template_keywords.as_str()),
                robots: trim_to_option(self.template_robots.as_str()),
                open_graph_title: trim_to_option(self.template_open_graph_title.as_str()),
                open_graph_description: trim_to_option(self.template_open_graph_description.as_str()),
                twitter_title: trim_to_option(self.template_twitter_title.as_str()),
                twitter_description: trim_to_option(self.template_twitter_description.as_str()),
            },
            template_overrides: parse_template_overrides(self.template_overrides_json.as_str()),
            sitemap_submission_endpoints: Vec::new(),
        }
    }
}


// ---------------------------------------------------------------------------
// Control plane state
// ---------------------------------------------------------------------------

/// The tab a control plane shows for its `tab` query value: the named
/// tab, else the redirects tab.
pub open spec fn active_tab_of(query: Option<Seq<char>>) -> SeoAdminTab {
    match query {
        Some(q) => match SeoAdminTab::named(q) {
            Some(t) => t,
            None => SeoAdminTab::Redirects,
        },
        None => SeoAdminTab::Redirects,
    }
}

/// The tab a control plane shows (see `active_tab_of`).
pub fn active_admin_tab(query: Option<&str>) -> (r: SeoAdminTab)
    ensures
        r == active_tab_of(
            match query {
                Some(q) => Some(q@),
                None => None,
            },
        ),
{
    match query {
        Some(q) => match SeoAdminTab::from_str(q) {
            Some(t) => t,
            None => SeoAdminTab::Redirects,
        },
        None => SeoAdminTab::Redirects,
    }
}

impl SeoBulkFilterForm {
    /// Keeps the filter on a target kind that is offered: when kinds are
    /// offered and the current one is not among them, switches to the
    /// first offered kind on page 1.  True when it switched, so that the
    /// caller drops the selection.
    pub fn reconcile_target_kind(&mut self, offered: &Vec<SeoTargetSlug>) -> (switched: bool)
        ensures
            switched == (offered@.len() > 0 && !(exists|k: int|
                0 <= k < offered@.len() && (#[trigger] offered@[k])@ == old(self).target_kind@)),
            switched ==> final(self).target_kind@ == offered@[0]@ && final(self).page == 1,
            !switched ==> final(self).target_kind == old(self).target_kind && final(self).page
                == old(self).page,
            final(self).locale == old(self).locale,
            final(self).query == old(self).query,
            final(self).source == old(self).source,
            final(self).per_page == old(self).per_page,
    {
        if offered.len() == 0 {
            return false;
        }
        let mut i: usize = 0;
        while i < offered.len()
            invariant
                i <= offered.len(),
                forall|k: int| 0 <= k < i ==> (#[trigger] offered@[k])@ != self.target_kind@,
            decreases offered.len() - i,
        {
            if offered[i].same_as(&self.target_kind) {
                return false;
            }
            i = i + 1;
        }
        self.target_kind = offered[0].copy();
        self.page = 1;
        true
    }
}

/// The status line shown after pre-filling a schema fix.
pub const SCHEMA_FIX_STATUS_MESSAGE: &'static str = "Pre-filled bulk action for schema fix. Review and click Queue apply.";

impl SeoBulkActionForm {
    /// Pre-fills the form for a schema fix: the given apply mode, the
    /// structured data set to the payload, and every other field kept.
    pub fn prefill_schema_fix(&mut self, apply_mode: SeoBulkApplyMode, payload: String)
        ensures
            final(self).apply_mode == apply_mode,
            final(self).structured_data.mode == SeoBulkFieldPatchMode::SetValue,
            final(self).structured_data.value@ == payload@,
            final(self).title.mode == SeoBulkFieldPatchMode::Keep,
            final(self).description.mode == SeoBulkFieldPatchMode::Keep,
            final(self).keywords.mode == SeoBulkFieldPatchMode::Keep,
            final(self).canonical_url.mode == SeoBulkFieldPatchMode::Keep,
            final(self).og_title.mode == SeoBulkFieldPatchMode::Keep,
            final(self).og_description.mode == SeoBulkFieldPatchMode::Keep,
            final(self).og_image.mode == SeoBulkFieldPatchMode::Keep,
            final(self).noindex.mode == SeoBulkFieldPatchMode::Keep,
            final(self).nofollow.mode == SeoBulkFieldPatchMode::Keep,
            final(self).title.value == old(self).title.value,
            final(self).selection_mode == old(self).selection_mode,
            final(self).publish_after_write == old(self).publish_after_write,
            final(self).import_csv == old(self).import_csv,
    {
        self.apply_mode = apply_mode;
        self.structured_data.mode = SeoBulkFieldPatchMode::SetValue;
        self.structured_data.value = payload;
        self.title.mode = SeoBulkFieldPatchMode::Keep;
        self.description.mode = SeoBulkFieldPatchMode::Keep;
        self.keywords.mode = SeoBulkFieldPatchMode::Keep;
        self.canonical_url.mode = SeoBulkFieldPatchMode::Keep;
        self.og_title.mode = SeoBulkFieldPatchMode::Keep;
        self.og_description.mode = SeoBulkFieldPatchMode::Keep;
        self.og_image.mode = SeoBulkFieldPatchMode::Keep;
        self.noindex.mode = SeoBulkFieldPatchMode::Keep;
        self.nofollow.mode = SeoBulkFieldPatchMode::Keep;
    }
}

/// The status line after queueing a bulk job: `Queued bulk <operation>
/// job <id>`.
pub open spec fn queued_job_line(operation: Seq<char>, job_id: u128) -> Seq<char> {
    "Queued bulk "@ + operation + " job "@ + crate::text::uuid_text(job_id)
}

/// The status line after queueing a bulk job (see `queued_job_line`); the
/// operation is `apply`, `export` or `import`.
pub fn queued_job_message(operation: &str, job_id: u128) -> (r: String)
    ensures
        r@ == queued_job_line(operation@, job_id),
{
    let mut s = owned("Queued bulk ");
    append(&mut s, operation);
    append(&mut s, " job ");
    let id = crate::text::uuid_to_string(job_id);
    append(&mut s, id.as_str());
    s
}

/// What queueing a bulk apply does once the selection was counted: queue
/// the job when the selection matches targets, else report that it is
/// empty.
pub open spec fn apply_gate(selected: int) -> Result<(), Seq<char>> {
    if selected > 0 {
        Ok(())
    } else {
        Err("Bulk selection is empty"@)
    }
}

/// Whether a counted selection may be applied (see `apply_gate`).
pub fn bulk_apply_gate(selected: i32) -> (r: Result<(), String>)
    ensures
        match (r, apply_gate(selected as int)) {
            (Ok(()), Ok(())) => true,
            (Err(m), Err(e)) => m@ == e,
            _ => false,
        },
{
    if selected > 0 {
        Ok(())
    } else {
        Err(owned("Bulk selection is empty"))
    }
}

} // verus!
