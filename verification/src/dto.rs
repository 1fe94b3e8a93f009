//! Data types of the SEO module: the enumerations with their wire names,
//! the metadata documents, settings and bulk-editing inputs.
use vstd::prelude::*;

use crate::json::{JsonData, JsonValue};
use crate::text::{str_eq, trim, trim_str};

verus! {

/// The slug of the built-in page target kind.
pub const BUILTIN_SLUG_PAGE: &'static str = "page";

/// The slug of the built-in product target kind.
pub const BUILTIN_SLUG_PRODUCT: &'static str = "product";

/// The slug of the built-in blog post target kind.
pub const BUILTIN_SLUG_BLOG_POST: &'static str = "blog_post";

/// The slug of the built-in forum topic target kind.
pub const BUILTIN_SLUG_FORUM_TOPIC: &'static str = "forum_topic";

/// The slug of the built-in forum category target kind.
pub const BUILTIN_SLUG_FORUM_CATEGORY: &'static str = "forum_category";

/// A character allowed in a target kind slug.
pub open spec fn is_slug_char(c: char) -> bool {
    ('a' <= c && c <= 'z') || ('0' <= c && c <= '9') || c == '_' || c == '-'
}

/// A well-formed target kind slug: non-empty, lower-case ASCII letters,
/// digits, `_` and `-`.
pub open spec fn is_valid_slug(s: Seq<char>) -> bool {
    s.len() > 0 && forall|i: int| 0 <= i < s.len() ==> is_slug_char(#[trigger] s[i])
}

/// The slug that names a kind of SEO target (page, product, ...).
#[derive(Debug)]
pub struct SeoTargetSlug {
    value: String,
}

impl View for SeoTargetSlug {
    type V = Seq<char>;

    closed spec fn view(&self) -> Seq<char> {
        self.value@
    }
}

impl Clone for SeoTargetSlug {
    fn clone(&self) -> (r: Self)
        ensures
            r@ == self@,
    {
        self.copy()
    }
}

impl SeoTargetSlug {
    #[verifier::type_invariant]
    spec fn well_formed(self) -> bool {
        is_valid_slug(self.value@)
    }

    /// A slug with the given text; `None` when the text is not a well-formed
    /// slug.
    pub fn new(value: &str) -> (r: Option<SeoTargetSlug>)
        ensures
            r is Some <==> is_valid_slug(value@),
            r matches Some(slug) ==> slug@ == value@,
    {
        let chars = crate::text::chars_of(value);
        if chars.len() == 0 {
            return None;
        }
        let mut i: usize = 0;
        while i < chars.len()
            invariant
                i <= chars.len(),
                chars@ == value@,
                forall|k: int| 0 <= k < i ==> is_slug_char(#[trigger] chars@[k]),
            decreases chars.len() - i,
        {
            let c = chars[i];
            if !(('a' <= c && c <= 'z') || ('0' <= c && c <= '9') || c == '_' || c == '-') {
                assert(!is_slug_char(value@[i as int]));
                return None;
            }
            i = i + 1;
        }
        Some(SeoTargetSlug { value: crate::text::owned(value) })
    }

    /// The slug text.
    pub fn as_str(&self) -> (r: &str)
        ensures
            r@ == self@,
            is_valid_slug(self@),
    {
        proof {
            use_type_invariant(self);
        }
        self.value.as_str()
    }

    /// A copy of the slug.
    pub fn copy(&self) -> (r: SeoTargetSlug)
        ensures
            r == *self,
    {
        proof {
            use_type_invariant(self);
        }
        SeoTargetSlug { value: self.value.clone() }
    }

    /// Equality of slugs by text.
    pub fn same_as(&self, other: &SeoTargetSlug) -> (r: bool)
        ensures
            r == (self@ == other@),
    {
        str_eq(self.value.as_str(), other.value.as_str())
    }
}

/// How a redirect rule matches request paths.
#[derive(Clone, Copy, Debug, PartialEq, Eq, Hash, Structural)]
pub enum SeoRedirectMatchType {
    Exact,
    Wildcard,
}

impl SeoRedirectMatchType {
    /// The snake-case name of each variant.
    pub open spec fn wire(self) -> Seq<char> {
        match self {
            SeoRedirectMatchType::Exact => "exact"@,
            SeoRedirectMatchType::Wildcard => "wildcard"@,
        }
    }

    /// The variant whose snake-case name is `s`, if any.
    pub open spec fn from_wire(s: Seq<char>) -> Option<SeoRedirectMatchType> {
        if s == "exact"@ {
            Some(SeoRedirectMatchType::Exact)
        } else if s == "wildcard"@ {
            Some(SeoRedirectMatchType::Wildcard)
        } else {
            None
        }
    }

    /// The snake-case name of the variant.
    pub fn as_str(self) -> (r: &'static str)
        ensures
            r@ == self.wire(),
    {
        match self {
            SeoRedirectMatchType::Exact => "exact",
            SeoRedirectMatchType::Wildcard => "wildcard",
        }
    }

    /// The variant named `value`; `None` for any other text.
    pub fn parse(value: &str) -> (r: Option<SeoRedirectMatchType>)
        ensures
            r == SeoRedirectMatchType::from_wire(value@),
    {
        if str_eq(value, "exact") {
            Some(SeoRedirectMatchType::Exact)
        } else if str_eq(value, "wildcard") {
            Some(SeoRedirectMatchType::Wildcard)
        } else {
            None
        }
    }
}

/// Parsing the name of a variant gives the variant back.
pub proof fn lemma_seo_redirect_match_type_roundtrip(value: SeoRedirectMatchType)
    ensures
        SeoRedirectMatchType::from_wire(value.wire()) == Some(value),
{
    reveal_strlit("exact");
    reveal_strlit("wildcard");
    match value {
        SeoRedirectMatchType::Exact => {
            assert(SeoRedirectMatchType::from_wire("exact"@) == Some(value));
        },
        SeoRedirectMatchType::Wildcard => {
            assert("wildcard"@.len() != "exact"@.len());
            assert("wildcard"@ != "exact"@);
            assert(SeoRedirectMatchType::from_wire("wildcard"@) == Some(value));
        },
    }
}

/// The schema.org type family of a structured-data block.
#[derive(Clone, Copy, Debug, PartialEq, Eq, Hash, Structural)]
pub enum SeoSchemaBlockKind {
    Product,
    Offer,
    AggregateOffer,
    AggregateRating,
    Review,
    BreadcrumbList,
    ItemList,
    Organization,
    LocalBusiness,
    WebSite,
    SearchAction,
    Article,
    BlogPosting,
    NewsArticle,
    FAQPage,
    HowTo,
    VideoObject,
    ImageObject,
    DiscussionForumPosting,
    Question,
    Answer,
    WebPage,
    CollectionPage,
    Other,
    Unknown,
}

impl Default for SeoSchemaBlockKind {
    fn default() -> (r: Self)
        ensures
            r == SeoSchemaBlockKind::Unknown,
    {
        SeoSchemaBlockKind::Unknown
    }
}

impl SeoSchemaBlockKind {
    /// The snake-case name of each variant.
    pub open spec fn wire(self) -> Seq<char> {
        match self {
            SeoSchemaBlockKind::Product => "product"@,
            SeoSchemaBlockKind::Offer => "offer"@,
            SeoSchemaBlockKind::AggregateOffer => "aggregate_offer"@,
            SeoSchemaBlockKind::AggregateRating => "aggregate_rating"@,
            SeoSchemaBlockKind::Review => "review"@,
            SeoSchemaBlockKind::BreadcrumbList => "breadcrumb_list"@,
            SeoSchemaBlockKind::ItemList => "item_list"@,
            SeoSchemaBlockKind::Organization => "organization"@,
            SeoSchemaBlockKind::LocalBusiness => "local_business"@,
            SeoSchemaBlockKind::WebSite => "web_site"@,
            SeoSchemaBlockKind::SearchAction => "search_action"@,
            SeoSchemaBlockKind::Article => "article"@,
            SeoSchemaBlockKind::BlogPosting => "blog_posting"@,
            SeoSchemaBlockKind::NewsArticle => "news_article"@,
            SeoSchemaBlockKind::FAQPage => "faq_page"@,
            SeoSchemaBlockKind::HowTo => "how_to"@,
            SeoSchemaBlockKind::VideoObject => "video_object"@,
            SeoSchemaBlockKind::ImageObject => "image_object"@,
            SeoSchemaBlockKind::DiscussionForumPosting => "discussion_forum_posting"@,
            SeoSchemaBlockKind::Question => "question"@,
            SeoSchemaBlockKind::Answer => "answer"@,
            SeoSchemaBlockKind::WebPage => "web_page"@,
            SeoSchemaBlockKind::CollectionPage => "collection_page"@,
            SeoSchemaBlockKind::Other => "other"@,
            SeoSchemaBlockKind::Unknown => "unknown"@,
        }
    }

    /// The snake-case name of the variant.
    pub fn as_str(self) -> (r: &'static str)
        ensures
            r@ == self.wire(),
    {
        match self {
            SeoSchemaBlockKind::Product => "product",
            SeoSchemaBlockKind::Offer => "offer",
            SeoSchemaBlockKind::AggregateOffer => "aggregate_offer",
            SeoSchemaBlockKind::AggregateRating => "aggregate_rating",
            SeoSchemaBlockKind::Review => "review",
            SeoSchemaBlockKind::BreadcrumbList => "breadcrumb_list",
            SeoSchemaBlockKind::ItemList => "item_list",
            SeoSchemaBlockKind::Organization => "organization",
            SeoSchemaBlockKind::LocalBusiness => "local_business",
            SeoSchemaBlockKind::WebSite => "web_site",
            SeoSchemaBlockKind::SearchAction => "search_action",
            SeoSchemaBlockKind::Article => "article",
            SeoSchemaBlockKind::BlogPosting => "blog_posting",
            SeoSchemaBlockKind::NewsArticle => "news_article",
            SeoSchemaBlockKind::FAQPage => "faq_page",
            SeoSchemaBlockKind::HowTo => "how_to",
            SeoSchemaBlockKind::VideoObject => "video_object",
            SeoSchemaBlockKind::ImageObject => "image_object",
            SeoSchemaBlockKind::DiscussionForumPosting => "discussion_forum_posting",
            SeoSchemaBlockKind::Question => "question",
            SeoSchemaBlockKind::Answer => "answer",
            SeoSchemaBlockKind::WebPage => "web_page",
            SeoSchemaBlockKind::CollectionPage => "collection_page",
            SeoSchemaBlockKind::Other => "other",
            SeoSchemaBlockKind::Unknown => "unknown",
        }
    }
}

/// Where an effective SEO field value comes from.
#[derive(Clone, Copy, Debug, PartialEq, Eq, Hash, Structural)]
pub enum SeoFieldSource {
    Explicit,
    Generated,
    Fallback,
}

impl Default for SeoFieldSource {
    fn default() -> (r: Self)
        ensures
            r == SeoFieldSource::Fallback,
    {
        SeoFieldSource::Fallback
    }
}

impl SeoFieldSource {
    /// The snake-case name of each variant.
    pub open spec fn wire(self) -> Seq<char> {
        match self {
            SeoFieldSource::Explicit => "explicit"@,
            SeoFieldSource::Generated => "generated"@,
            SeoFieldSource::Fallback => "fallback"@,
        }
    }

    /// The snake-case name of the variant.
    pub fn as_str(self) -> (r: &'static str)
        ensures
            r@ == self.wire(),
    {
        match self {
            SeoFieldSource::Explicit => "explicit",
            SeoFieldSource::Generated => "generated",
            SeoFieldSource::Fallback => "fallback",
        }
    }
}

/// Progress of the search-index repair and replay of a target type.
#[derive(Clone, Copy, Debug, PartialEq, Eq, Hash, Structural)]
pub enum SeoIndexReplayMode {
    NotStarted,
    RepairOnly,
    ReplayRequested,
    Replaying,
    ReplayCompleted,
}

impl Default for SeoIndexReplayMode {
    fn default() -> (r: Self)
        ensures
            r == SeoIndexReplayMode::NotStarted,
    {
        SeoIndexReplayMode::NotStarted
    }
}

impl SeoIndexReplayMode {
    /// The snake-case name of each variant.
    pub open spec fn wire(self) -> Seq<char> {
        match self {
            SeoIndexReplayMode::NotStarted => "not_started"@,
            SeoIndexReplayMode::RepairOnly => "repair_only"@,
            SeoIndexReplayMode::ReplayRequested => "replay_requested"@,
            SeoIndexReplayMode::Replaying => "replaying"@,
            SeoIndexReplayMode::ReplayCompleted => "replay_completed"@,
        }
    }

    /// The variant whose snake-case name is `s`, if any.
    pub open spec fn from_wire(s: Seq<char>) -> Option<SeoIndexReplayMode> {
        if s == "not_started"@ {
            Some(SeoIndexReplayMode::NotStarted)
        } else if s == "repair_only"@ {
            Some(SeoIndexReplayMode::RepairOnly)
        } else if s == "replay_requested"@ {
            Some(SeoIndexReplayMode::ReplayRequested)
        } else if s == "replaying"@ {
            Some(SeoIndexReplayMode::Replaying)
        } else if s == "replay_completed"@ {
            Some(SeoIndexReplayMode::ReplayCompleted)
        } else {
            None
        }
    }

    /// The snake-case name of the variant.
    pub fn as_str(self) -> (r: &'static str)
        ensures
            r@ == self.wire(),
    {
        match self {
            SeoIndexReplayMode::NotStarted => "not_started",
            SeoIndexReplayMode::RepairOnly => "repair_only",
            SeoIndexReplayMode::ReplayRequested => "replay_requested",
            SeoIndexReplayMode::Replaying => "replaying",
            SeoIndexReplayMode::ReplayCompleted => "replay_completed",
        }
    }

    /// The variant named `value`; `None` for any other text.
    pub fn parse(value: &str) -> (r: Option<SeoIndexReplayMode>)
        ensures
            r == SeoIndexReplayMode::from_wire(value@),
    {
        if str_eq(value, "not_started") {
            Some(SeoIndexReplayMode::NotStarted)
        } else if str_eq(value, "repair_only") {
            Some(SeoIndexReplayMode::RepairOnly)
        } else if str_eq(value, "replay_requested") {
            Some(SeoIndexReplayMode::ReplayRequested)
        } else if str_eq(value, "replaying") {
            Some(SeoIndexReplayMode::Replaying)
        } else if str_eq(value, "replay_completed") {
            Some(SeoIndexReplayMode::ReplayCompleted)
        } else {
            None
        }
    }
}

/// Parsing the name of a variant gives the variant back.
pub proof fn lemma_seo_index_replay_mode_roundtrip(value: SeoIndexReplayMode)
    ensures
        SeoIndexReplayMode::from_wire(value.wire()) == Some(value),
{
    reveal_strlit("not_started");
    reveal_strlit("repair_only");
    reveal_strlit("replay_requested");
    reveal_strlit("replaying");
    reveal_strlit("replay_completed");
    match value {
        SeoIndexReplayMode::NotStarted => {
            assert(SeoIndexReplayMode::from_wire("not_started"@) == Some(value));
        },
        SeoIndexReplayMode::RepairOnly => {
            assert("repair_only"@[0] != "not_started"@[0]);
            assert("repair_only"@ != "not_started"@);
            assert(SeoIndexReplayMode::from_wire("repair_only"@) == Some(value));
        },
        SeoIndexReplayMode::ReplayRequested => {
            assert("replay_requested"@.len() != "not_started"@.len());
            assert("replay_requested"@ != "not_started"@);
            assert("replay_requested"@.len() != "repair_only"@.len());
            assert("replay_requested"@ != "repair_only"@);
            assert(SeoIndexReplayMode::from_wire("replay_requested"@) == Some(value));
        },
        SeoIndexReplayMode::Replaying => {
            assert("replaying"@.len() != "not_started"@.len());
            assert("replaying"@ != "not_started"@);
            assert("replaying"@.len() != "repair_only"@.len());
            assert("replaying"@ != "repair_only"@);
            assert("replaying"@.len() != "replay_requested"@.len());
            assert("replaying"@ != "replay_requested"@);
            assert(SeoIndexReplayMode::from_wire("replaying"@) == Some(value));
        },
        SeoIndexReplayMode::ReplayCompleted => {
            assert("replay_completed"@.len() != "not_started"@.len());
            assert("replay_completed"@ != "not_started"@);
            assert("replay_completed"@.len() != "repair_only"@.len());
            assert("replay_completed"@ != "repair_only"@);
            assert("replay_completed"@[7] != "replay_requested"@[7]);
            assert("replay_completed"@ != "replay_requested"@);
            assert("replay_completed"@.len() != "replaying"@.len());
            assert("replay_completed"@ != "replaying"@);
            assert(SeoIndexReplayMode::from_wire("replay_completed"@) == Some(value));
        },
    }
}

/// Which metadata source a bulk listing filters on.
#[derive(Clone, Copy, Debug, PartialEq, Eq, Hash, Structural)]
pub enum SeoBulkSource {
    Any,
    Explicit,
    Generated,
    Fallback,
}

impl SeoBulkSource {
    /// The snake-case name of each variant.
    pub open spec fn wire(self) -> Seq<char> {
        match self {
            SeoBulkSource::Any => "any"@,
            SeoBulkSource::Explicit => "explicit"@,
            SeoBulkSource::Generated => "generated"@,
            SeoBulkSource::Fallback => "fallback"@,
        }
    }

    /// The variant whose snake-case name is `s`, if any.
    pub open spec fn from_wire(s: Seq<char>) -> Option<SeoBulkSource> {
        if s == "any"@ {
            Some(SeoBulkSource::Any)
        } else if s == "explicit"@ {
            Some(SeoBulkSource::Explicit)
        } else if s == "generated"@ {
            Some(SeoBulkSource::Generated)
        } else if s == "fallback"@ {
            Some(SeoBulkSource::Fallback)
        } else {
            None
        }
    }

    /// The snake-case name of the variant.
    pub fn as_str(self) -> (r: &'static str)
        ensures
            r@ == self.wire(),
    {
        match self {
            SeoBulkSource::Any => "any",
            SeoBulkSource::Explicit => "explicit",
            SeoBulkSource::Generated => "generated",
            SeoBulkSource::Fallback => "fallback",
        }
    }

    /// The variant named `value`; `None` for any other text.
    pub fn parse(value: &str) -> (r: Option<SeoBulkSource>)
        ensures
            r == SeoBulkSource::from_wire(value@),
    {
        if str_eq(value, "any") {
            Some(SeoBulkSource::Any)
        } else if str_eq(value, "explicit") {
            Some(SeoBulkSource::Explicit)
        } else if str_eq(value, "generated") {
            Some(SeoBulkSource::Generated)
        } else if str_eq(value, "fallback") {
            Some(SeoBulkSource::Fallback)
        } else {
            None
        }
    }
}

/// Parsing the name of a variant gives the variant back.
pub proof fn lemma_seo_bulk_source_roundtrip(value: SeoBulkSource)
    ensures
        SeoBulkSource::from_wire(value.wire()) == Some(value),
{
    reveal_strlit("any");
    reveal_strlit("explicit");
    reveal_strlit("generated");
    reveal_strlit("fallback");
    match value {
        SeoBulkSource::Any => {
            assert(SeoBulkSource::from_wire("any"@) == Some(value));
        },
        SeoBulkSource::Explicit => {
            assert("explicit"@.len() != "any"@.len());
            assert("explicit"@ != "any"@);
            assert(SeoBulkSource::from_wire("explicit"@) == Some(value));
        },
        SeoBulkSource::Generated => {
            assert("generated"@.len() != "any"@.len());
            assert("generated"@ != "any"@);
            assert("generated"@.len() != "explicit"@.len());
            assert("generated"@ != "explicit"@);
            assert(SeoBulkSource::from_wire("generated"@) == Some(value));
        },
        SeoBulkSource::Fallback => {
            assert("fallback"@.len() != "any"@.len());
            assert("fallback"@ != "any"@);
            assert("fallback"@[0] != "explicit"@[0]);
            assert("fallback"@ != "explicit"@);
            assert("fallback"@.len() != "generated"@.len());
            assert("fallback"@ != "generated"@);
            assert(SeoBulkSource::from_wire("fallback"@) == Some(value));
        },
    }
}

/// How a bulk operation selects its targets.
#[derive(Clone, Copy, Debug, PartialEq, Eq, Hash, Structural)]
pub enum SeoBulkSelectionMode {
    SelectedIds,
    CurrentFilterScope,
}

impl SeoBulkSelectionMode {
    /// The snake-case name of each variant.
    pub open spec fn wire(self) -> Seq<char> {
        match self {
            SeoBulkSelectionMode::SelectedIds => "selected_ids"@,
            SeoBulkSelectionMode::CurrentFilterScope => "current_filter_scope"@,
        }
    }

    /// The variant whose snake-case name is `s`, if any.
    pub open spec fn from_wire(s: Seq<char>) -> Option<SeoBulkSelectionMode> {
        if s == "selected_ids"@ {
            Some(SeoBulkSelectionMode::SelectedIds)
        } else if s == "current_filter_scope"@ {
            Some(SeoBulkSelectionMode::CurrentFilterScope)
        } else {
            None
        }
    }

    /// The snake-case name of the variant.
    pub fn as_str(self) -> (r: &'static str)
        ensures
            r@ == self.wire(),
    {
        match self {
            SeoBulkSelectionMode::SelectedIds => "selected_ids",
            SeoBulkSelectionMode::CurrentFilterScope => "current_filter_scope",
        }
    }

    /// The variant named `value`; `None` for any other text.
    pub fn parse(value: &str) -> (r: Option<SeoBulkSelectionMode>)
        ensures
            r == SeoBulkSelectionMode::from_wire(value@),
    {
        if str_eq(value, "selected_ids") {
            Some(SeoBulkSelectionMode::SelectedIds)
        } else if str_eq(value, "current_filter_scope") {
            Some(SeoBulkSelectionMode::CurrentFilterScope)
        } else {
            None
        }
    }
}

/// Parsing the name of a variant gives the variant back.
pub proof fn lemma_seo_bulk_selection_mode_roundtrip(value: SeoBulkSelectionMode)
    ensures
        SeoBulkSelectionMode::from_wire(value.wire()) == Some(value),
{
    reveal_strlit("selected_ids");
    reveal_strlit("current_filter_scope");
    match value {
        SeoBulkSelectionMode::SelectedIds => {
            assert(SeoBulkSelectionMode::from_wire("selected_ids"@) == Some(value));
        },
        SeoBulkSelectionMode::CurrentFilterScope => {
            assert("current_filter_scope"@.len() != "selected_ids"@.len());
            assert("current_filter_scope"@ != "selected_ids"@);
            assert(SeoBulkSelectionMode::from_wire("current_filter_scope"@) == Some(value));
        },
    }
}

/// What a bulk patch does to one field.
#[derive(Clone, Copy, Debug, PartialEq, Eq, Hash, Structural)]
pub enum SeoBulkFieldPatchMode {
    Keep,
    SetValue,
    Clear,
}

impl SeoBulkFieldPatchMode {
    /// The snake-case name of each variant.
    pub open spec fn wire(self) -> Seq<char> {
        match self {
            SeoBulkFieldPatchMode::Keep => "keep"@,
            SeoBulkFieldPatchMode::SetValue => "set"@,
            SeoBulkFieldPatchMode::Clear => "clear"@,
        }
    }

    /// The variant whose snake-case name is `s`, if any.
    pub open spec fn from_wire(s: Seq<char>) -> Option<SeoBulkFieldPatchMode> {
        if s == "keep"@ {
            Some(SeoBulkFieldPatchMode::Keep)
        } else if s == "set"@ {
            Some(SeoBulkFieldPatchMode::SetValue)
        } else if s == "clear"@ {
            Some(SeoBulkFieldPatchMode::Clear)
        } else {
            None
        }
    }

    /// The snake-case name of the variant.
    pub fn as_str(self) -> (r: &'static str)
        ensures
            r@ == self.wire(),
    {
        match self {
            SeoBulkFieldPatchMode::Keep => "keep",
            SeoBulkFieldPatchMode::SetValue => "set",
            SeoBulkFieldPatchMode::Clear => "clear",
        }
    }

    /// The variant named `value`; `None` for any other text.
    pub fn parse(value: &str) -> (r: Option<SeoBulkFieldPatchMode>)
        ensures
            r == SeoBulkFieldPatchMode::from_wire(value@),
    {
        if str_eq(value, "keep") {
            Some(SeoBulkFieldPatchMode::Keep)
        } else if str_eq(value, "set") {
            Some(SeoBulkFieldPatchMode::SetValue)
        } else if str_eq(value, "clear") {
            Some(SeoBulkFieldPatchMode::Clear)
        } else {
            None
        }
    }
}

/// Parsing the name of a variant gives the variant back.
pub proof fn lemma_seo_bulk_field_patch_mode_roundtrip(value: SeoBulkFieldPatchMode)
    ensures
        SeoBulkFieldPatchMode::from_wire(value.wire()) == Some(value),
{
    reveal_strlit("keep");
    reveal_strlit("set");
    reveal_strlit("clear");
    match value {
        SeoBulkFieldPatchMode::Keep => {
            assert(SeoBulkFieldPatchMode::from_wire("keep"@) == Some(value));
        },
        SeoBulkFieldPatchMode::SetValue => {
            assert("set"@.len() != "keep"@.len());
            assert("set"@ != "keep"@);
            assert(SeoBulkFieldPatchMode::from_wire("set"@) == Some(value));
        },
        SeoBulkFieldPatchMode::Clear => {
            assert("clear"@.len() != "keep"@.len());
            assert("clear"@ != "keep"@);
            assert("clear"@.len() != "set"@.len());
            assert("clear"@ != "set"@);
            assert(SeoBulkFieldPatchMode::from_wire("clear"@) == Some(value));
        },
    }
}

/// The kind of work a bulk job performs.
#[derive(Clone, Copy, Debug, PartialEq, Eq, Hash, Structural)]
pub enum SeoBulkJobOperationKind {
    Apply,
    ExportCsv,
    ImportCsv,
}

impl SeoBulkJobOperationKind {
    /// The snake-case name of each variant.
    pub open spec fn wire(self) -> Seq<char> {
        match self {
            SeoBulkJobOperationKind::Apply => "apply"@,
            SeoBulkJobOperationKind::ExportCsv => "export_csv"@,
            SeoBulkJobOperationKind::ImportCsv => "import_csv"@,
        }
    }

    /// The variant whose snake-case name is `s`, if any.
    pub open spec fn from_wire(s: Seq<char>) -> Option<SeoBulkJobOperationKind> {
        if s == "apply"@ {
            Some(SeoBulkJobOperationKind::Apply)
        } else if s == "export_csv"@ {
            Some(SeoBulkJobOperationKind::ExportCsv)
        } else if s == "import_csv"@ {
            Some(SeoBulkJobOperationKind::ImportCsv)
        } else {
            None
        }
    }

    /// The snake-case name of the variant.
    pub fn as_str(self) -> (r: &'static str)
        ensures
            r@ == self.wire(),
    {
        match self {
            SeoBulkJobOperationKind::Apply => "apply",
            SeoBulkJobOperationKind::ExportCsv => "export_csv",
            SeoBulkJobOperationKind::ImportCsv => "import_csv",
        }
    }

    /// The variant named `value`; `None` for any other text.
    pub fn parse(value: &str) -> (r: Option<SeoBulkJobOperationKind>)
        ensures
            r == SeoBulkJobOperationKind::from_wire(value@),
    {
        if str_eq(value, "apply") {
            Some(SeoBulkJobOperationKind::Apply)
        } else if str_eq(value, "export_csv") {
            Some(SeoBulkJobOperationKind::ExportCsv)
        } else if str_eq(value, "import_csv") {
            Some(SeoBulkJobOperationKind::ImportCsv)
        } else {
            None
        }
    }
}

/// Parsing the name of a variant gives the variant back.
pub proof fn lemma_seo_bulk_job_operation_kind_roundtrip(value: SeoBulkJobOperationKind)
    ensures
        SeoBulkJobOperationKind::from_wire(value.wire()) == Some(value),
{
    reveal_strlit("apply");
    reveal_strlit("export_csv");
    reveal_strlit("import_csv");
    match value {
        SeoBulkJobOperationKind::Apply => {
            assert(SeoBulkJobOperationKind::from_wire("apply"@) == Some(value));
        },
        SeoBulkJobOperationKind::ExportCsv => {
            assert("export_csv"@.len() != "apply"@.len());
            assert("export_csv"@ != "apply"@);
            assert(SeoBulkJobOperationKind::from_wire("export_csv"@) == Some(value));
        },
        SeoBulkJobOperationKind::ImportCsv => {
            assert("import_csv"@.len() != "apply"@.len());
            assert("import_csv"@ != "apply"@);
            assert("import_csv"@[0] != "export_csv"@[0]);
            assert("import_csv"@ != "export_csv"@);
            assert(SeoBulkJobOperationKind::from_wire("import_csv"@) == Some(value));
        },
    }
}

/// Lifecycle state of a bulk job.
#[derive(Clone, Copy, Debug, PartialEq, Eq, Hash, Structural)]
pub enum SeoBulkJobStatus {
    Queued,
    Running,
    Completed,
    Partial,
    Failed,
}

impl SeoBulkJobStatus {
    /// The snake-case name of each variant.
    pub open spec fn wire(self) -> Seq<char> {
        match self {
            SeoBulkJobStatus::Queued => "queued"@,
            SeoBulkJobStatus::Running => "running"@,
            SeoBulkJobStatus::Completed => "completed"@,
            SeoBulkJobStatus::Partial => "partial"@,
            SeoBulkJobStatus::Failed => "failed"@,
        }
    }

    /// The variant whose snake-case name is `s`, if any.
    pub open spec fn from_wire(s: Seq<char>) -> Option<SeoBulkJobStatus> {
        if s == "queued"@ {
            Some(SeoBulkJobStatus::Queued)
        } else if s == "running"@ {
            Some(SeoBulkJobStatus::Running)
        } else if s == "completed"@ {
            Some(SeoBulkJobStatus::Completed)
        } else if s == "partial"@ {
            Some(SeoBulkJobStatus::Partial)
        } else if s == "failed"@ {
            Some(SeoBulkJobStatus::Failed)
        } else {
            None
        }
    }

    /// The snake-case name of the variant.
    pub fn as_str(self) -> (r: &'static str)
        ensures
            r@ == self.wire(),
    {
        match self {
            SeoBulkJobStatus::Queued => "queued",
            SeoBulkJobStatus::Running => "running",
            SeoBulkJobStatus::Completed => "completed",
            SeoBulkJobStatus::Partial => "partial",
            SeoBulkJobStatus::Failed => "failed",
        }
    }

    /// The variant named `value`; `None` for any other text.
    pub fn parse(value: &str) -> (r: Option<SeoBulkJobStatus>)
        ensures
            r == SeoBulkJobStatus::from_wire(value@),
    {
        if str_eq(value, "queued") {
            Some(SeoBulkJobStatus::Queued)
        } else if str_eq(value, "running") {
            Some(SeoBulkJobStatus::Running)
        } else if str_eq(value, "completed") {
            Some(SeoBulkJobStatus::Completed)
        } else if str_eq(value, "partial") {
            Some(SeoBulkJobStatus::Partial)
        } else if str_eq(value, "failed") {
            Some(SeoBulkJobStatus::Failed)
        } else {
            None
        }
    }
}

/// Parsing the name of a variant gives the variant back.
pub proof fn lemma_seo_bulk_job_status_roundtrip(value: SeoBulkJobStatus)
    ensures
        SeoBulkJobStatus::from_wire(value.wire()) == Some(value),
{
    reveal_strlit("queued");
    reveal_strlit("running");
    reveal_strlit("completed");
    reveal_strlit("partial");
    reveal_strlit("failed");
    match value {
        SeoBulkJobStatus::Queued => {
            assert(SeoBulkJobStatus::from_wire("queued"@) == Some(value));
        },
        SeoBulkJobStatus::Running => {
            assert("running"@.len() != "queued"@.len());
            assert("running"@ != "queued"@);
            assert(SeoBulkJobStatus::from_wire("running"@) == Some(value));
        },
        SeoBulkJobStatus::Completed => {
            assert("completed"@.len() != "queued"@.len());
            assert("completed"@ != "queued"@);
            assert("completed"@.len() != "running"@.len());
            assert("completed"@ != "running"@);
            assert(SeoBulkJobStatus::from_wire("completed"@) == Some(value));
        },
        SeoBulkJobStatus::Partial => {
            assert("partial"@.len() != "queued"@.len());
            assert("partial"@ != "queued"@);
            assert("partial"@[0] != "running"@[0]);
            assert("partial"@ != "running"@);
            assert("partial"@.len() != "completed"@.len());
            assert("partial"@ != "completed"@);
            assert(SeoBulkJobStatus::from_wire("partial"@) == Some(value));
        },
        SeoBulkJobStatus::Failed => {
            assert("failed"@[0] != "queued"@[0]);
            assert("failed"@ != "queued"@);
            assert("failed"@.len() != "running"@.len());
            assert("failed"@ != "running"@);
            assert("failed"@.len() != "completed"@.len());
            assert("failed"@ != "completed"@);
            assert("failed"@.len() != "partial"@.len());
            assert("failed"@ != "partial"@);
            assert(SeoBulkJobStatus::from_wire("failed"@) == Some(value));
        },
    }
}

/// How a bulk apply treats existing metadata.
#[derive(Clone, Copy, Debug, PartialEq, Eq, Hash, Structural)]
pub enum SeoBulkApplyMode {
    PreviewOnly,
    ApplyMissingOnly,
    ApplyMissingSchemaOnly,
    OverwriteGeneratedOnly,
    ForceOverwriteExplicit,
}

impl Default for SeoBulkApplyMode {
    fn default() -> (r: Self)
        ensures
            r == SeoBulkApplyMode::ApplyMissingOnly,
    {
        SeoBulkApplyMode::ApplyMissingOnly
    }
}

impl SeoBulkApplyMode {
    /// The snake-case name of each variant.
    pub open spec fn wire(self) -> Seq<char> {
        match self {
            SeoBulkApplyMode::PreviewOnly => "preview_only"@,
            SeoBulkApplyMode::ApplyMissingOnly => "apply_missing_only"@,
            SeoBulkApplyMode::ApplyMissingSchemaOnly => "apply_missing_schema_only"@,
            SeoBulkApplyMode::OverwriteGeneratedOnly => "overwrite_generated_only"@,
            SeoBulkApplyMode::ForceOverwriteExplicit => "force_overwrite_explicit"@,
        }
    }

    /// The variant whose snake-case name is `s`, if any.
    pub open spec fn from_wire(s: Seq<char>) -> Option<SeoBulkApplyMode> {
        if s == "preview_only"@ {
            Some(SeoBulkApplyMode::PreviewOnly)
        } else if s == "apply_missing_only"@ {
            Some(SeoBulkApplyMode::ApplyMissingOnly)
        } else if s == "apply_missing_schema_only"@ {
            Some(SeoBulkApplyMode::ApplyMissingSchemaOnly)
        } else if s == "overwrite_generated_only"@ {
            Some(SeoBulkApplyMode::OverwriteGeneratedOnly)
        } else if s == "force_overwrite_explicit"@ {
            Some(SeoBulkApplyMode::ForceOverwriteExplicit)
        } else {
            None
        }
    }

    /// The snake-case name of the variant.
    pub fn as_str(self) -> (r: &'static str)
        ensures
            r@ == self.wire(),
    {
        match self {
            SeoBulkApplyMode::PreviewOnly => "preview_only",
            SeoBulkApplyMode::ApplyMissingOnly => "apply_missing_only",
            SeoBulkApplyMode::ApplyMissingSchemaOnly => "apply_missing_schema_only",
            SeoBulkApplyMode::OverwriteGeneratedOnly => "overwrite_generated_only",
            SeoBulkApplyMode::ForceOverwriteExplicit => "force_overwrite_explicit",
        }
    }

    /// The variant named `value`; `None` for any other text.
    pub fn parse(value: &str) -> (r: Option<SeoBulkApplyMode>)
        ensures
            r == SeoBulkApplyMode::from_wire(value@),
    {
        if str_eq(value, "preview_only") {
            Some(SeoBulkApplyMode::PreviewOnly)
        } else if str_eq(value, "apply_missing_only") {
            Some(SeoBulkApplyMode::ApplyMissingOnly)
        } else if str_eq(value, "apply_missing_schema_only") {
            Some(SeoBulkApplyMode::ApplyMissingSchemaOnly)
        } else if str_eq(value, "overwrite_generated_only") {
            Some(SeoBulkApplyMode::OverwriteGeneratedOnly)
        } else if str_eq(value, "force_overwrite_explicit") {
            Some(SeoBulkApplyMode::ForceOverwriteExplicit)
        } else {
            None
        }
    }
}

/// Parsing the name of a variant gives the variant back.
pub proof fn lemma_seo_bulk_apply_mode_roundtrip(value: SeoBulkApplyMode)
    ensures
        SeoBulkApplyMode::from_wire(value.wire()) == Some(value),
{
    reveal_strlit("preview_only");
    reveal_strlit("apply_missing_only");
    reveal_strlit("apply_missing_schema_only");
    reveal_strlit("overwrite_generated_only");
    reveal_strlit("force_overwrite_explicit");
    match value {
        SeoBulkApplyMode::PreviewOnly => {
            assert(SeoBulkApplyMode::from_wire("preview_only"@) == Some(value));
        },
        SeoBulkApplyMode::ApplyMissingOnly => {
            assert("apply_missing_only"@.len() != "preview_only"@.len());
            assert("apply_missing_only"@ != "preview_only"@);
            assert(SeoBulkApplyMode::from_wire("apply_missing_only"@) == Some(value));
        },
        SeoBulkApplyMode::ApplyMissingSchemaOnly => {
            assert("apply_missing_schema_only"@.len() != "preview_only"@.len());
            assert("apply_missing_schema_only"@ != "preview_only"@);
            assert("apply_missing_schema_only"@.len() != "apply_missing_only"@.len());
            assert("apply_missing_schema_only"@ != "apply_missing_only"@);
            assert(SeoBulkApplyMode::from_wire("apply_missing_schema_only"@) == Some(value));
        },
        SeoBulkApplyMode::OverwriteGeneratedOnly => {
            assert("overwrite_generated_only"@.len() != "preview_only"@.len());
            assert("overwrite_generated_only"@ != "preview_only"@);
            assert("overwrite_generated_only"@.len() != "apply_missing_only"@.len());
            assert("overwrite_generated_only"@ != "apply_missing_only"@);
            assert("overwrite_generated_only"@.len() != "apply_missing_schema_only"@.len());
            assert("overwrite_generated_only"@ != "apply_missing_schema_only"@);
            assert(SeoBulkApplyMode::from_wire("overwrite_generated_only"@) == Some(value));
        },
        SeoBulkApplyMode::ForceOverwriteExplicit => {
            assert("force_overwrite_explicit"@.len() != "preview_only"@.len());
            assert("force_overwrite_explicit"@ != "preview_only"@);
            assert("force_overwrite_explicit"@.len() != "apply_missing_only"@.len());
            assert("force_overwrite_explicit"@ != "apply_missing_only"@);
            assert("force_overwrite_explicit"@.len() != "apply_missing_schema_only"@.len());
            assert("force_overwrite_explicit"@ != "apply_missing_schema_only"@);
            assert("force_overwrite_explicit"@[0] != "overwrite_generated_only"@[0]);
            assert("force_overwrite_explicit"@ != "overwrite_generated_only"@);
            assert(SeoBulkApplyMode::from_wire("force_overwrite_explicit"@) == Some(value));
        },
    }
}

/// Severity of a diagnostic issue.
#[derive(Clone, Copy, Debug, PartialEq, Eq, Hash, Structural)]
pub enum SeoDiagnosticSeverity {
    Info,
    Warning,
    Error,
}

impl Default for SeoDiagnosticSeverity {
    fn default() -> (r: Self)
        ensures
            r == SeoDiagnosticSeverity::Info,
    {
        SeoDiagnosticSeverity::Info
    }
}

impl SeoDiagnosticSeverity {
    /// The snake-case name of each variant.
    pub open spec fn wire(self) -> Seq<char> {
        match self {
            SeoDiagnosticSeverity::Info => "info"@,
            SeoDiagnosticSeverity::Warning => "warning"@,
            SeoDiagnosticSeverity::Error => "error"@,
        }
    }

    /// The variant whose snake-case name is `s`, if any.
    pub open spec fn from_wire(s: Seq<char>) -> Option<SeoDiagnosticSeverity> {
        if s == "info"@ {
            Some(SeoDiagnosticSeverity::Info)
        } else if s == "warning"@ {
            Some(SeoDiagnosticSeverity::Warning)
        } else if s == "error"@ {
            Some(SeoDiagnosticSeverity::Error)
        } else {
            None
        }
    }

    /// The snake-case name of the variant.
    pub fn as_str(self) -> (r: &'static str)
        ensures
            r@ == self.wire(),
    {
        match self {
            SeoDiagnosticSeverity::Info => "info",
            SeoDiagnosticSeverity::Warning => "warning",
            SeoDiagnosticSeverity::Error => "error",
        }
    }

    /// The variant named `value`; `None` for any other text.
    pub fn parse(value: &str) -> (r: Option<SeoDiagnosticSeverity>)
        ensures
            r == SeoDiagnosticSeverity::from_wire(value@),
    {
        if str_eq(value, "info") {
            Some(SeoDiagnosticSeverity::Info)
        } else if str_eq(value, "warning") {
            Some(SeoDiagnosticSeverity::Warning)
        } else if str_eq(value, "error") {
            Some(SeoDiagnosticSeverity::Error)
        } else {
            None
        }
    }
}

/// Parsing the name of a variant gives the variant back.
pub proof fn lemma_seo_diagnostic_severity_roundtrip(value: SeoDiagnosticSeverity)
    ensures
        SeoDiagnosticSeverity::from_wire(value.wire()) == Some(value),
{
    reveal_strlit("info");
    reveal_strlit("warning");
    reveal_strlit("error");
    match value {
        SeoDiagnosticSeverity::Info => {
            assert(SeoDiagnosticSeverity::from_wire("info"@) == Some(value));
        },
        SeoDiagnosticSeverity::Warning => {
            assert("warning"@.len() != "info"@.len());
            assert("warning"@ != "info"@);
            assert(SeoDiagnosticSeverity::from_wire("warning"@) == Some(value));
        },
        SeoDiagnosticSeverity::Error => {
            assert("error"@.len() != "info"@.len());
            assert("error"@ != "info"@);
            assert("error"@.len() != "warning"@.len());
            assert("error"@ != "warning"@);
            assert(SeoDiagnosticSeverity::from_wire("error"@) == Some(value));
        },
    }
}

impl SeoSchemaBlockKind {
    /// The kind whose snake-case name is `s`, if any.
    pub open spec fn from_wire(s: Seq<char>) -> Option<SeoSchemaBlockKind> {
        if s == "product"@ {
            Some(SeoSchemaBlockKind::Product)
        } else if s == "offer"@ {
            Some(SeoSchemaBlockKind::Offer)
        } else if s == "aggregate_offer"@ {
            Some(SeoSchemaBlockKind::AggregateOffer)
        } else if s == "aggregate_rating"@ {
            Some(SeoSchemaBlockKind::AggregateRating)
        } else if s == "review"@ {
            Some(SeoSchemaBlockKind::Review)
        } else if s == "breadcrumb_list"@ {
            Some(SeoSchemaBlockKind::BreadcrumbList)
        } else if s == "item_list"@ {
            Some(SeoSchemaBlockKind::ItemList)
        } else if s == "organization"@ {
            Some(SeoSchemaBlockKind::Organization)
        } else if s == "local_business"@ {
            Some(SeoSchemaBlockKind::LocalBusiness)
        } else if s == "web_site"@ {
            Some(SeoSchemaBlockKind::WebSite)
        } else if s == "search_action"@ {
            Some(SeoSchemaBlockKind::SearchAction)
        } else if s == "article"@ {
            Some(SeoSchemaBlockKind::Article)
        } else if s == "blog_posting"@ {
            Some(SeoSchemaBlockKind::BlogPosting)
        } else if s == "news_article"@ {
            Some(SeoSchemaBlockKind::NewsArticle)
        } else if s == "faq_page"@ {
            Some(SeoSchemaBlockKind::FAQPage)
        } else if s == "how_to"@ {
            Some(SeoSchemaBlockKind::HowTo)
        } else if s == "video_object"@ {
            Some(SeoSchemaBlockKind::VideoObject)
        } else if s == "image_object"@ {
            Some(SeoSchemaBlockKind::ImageObject)
        } else if s == "discussion_forum_posting"@ {
            Some(SeoSchemaBlockKind::DiscussionForumPosting)
        } else if s == "question"@ {
            Some(SeoSchemaBlockKind::Question)
        } else if s == "answer"@ {
            Some(SeoSchemaBlockKind::Answer)
        } else if s == "web_page"@ {
            Some(SeoSchemaBlockKind::WebPage)
        } else if s == "collection_page"@ {
            Some(SeoSchemaBlockKind::CollectionPage)
        } else if s == "other"@ {
            Some(SeoSchemaBlockKind::Other)
        } else if s == "unknown"@ {
            Some(SeoSchemaBlockKind::Unknown)
        } else {
            None
        }
    }
}

/// Reading the name of a schema kind gives the kind back.
proof fn lemma_schema_block_kind_from_wire(k: SeoSchemaBlockKind)
    ensures
        SeoSchemaBlockKind::from_wire(k.wire()) == Some(k),
{
    match k {
        SeoSchemaBlockKind::Product => {
            reveal_strlit("product");
        },
        SeoSchemaBlockKind::Offer => {
            reveal_strlit("offer");
            reveal_strlit("product");
            assert("offer"@.len() != "product"@.len());
        },
        SeoSchemaBlockKind::AggregateOffer => {
            reveal_strlit("aggregate_offer");
            reveal_strlit("product");
            reveal_strlit("offer");
            assert("aggregate_offer"@.len() != "product"@.len());
            assert("aggregate_offer"@.len() != "offer"@.len());
        },
        SeoSchemaBlockKind::AggregateRating => {
            reveal_strlit("aggregate_rating");
            reveal_strlit("product");
            reveal_strlit("offer");
            reveal_strlit("aggregate_offer");
            assert("aggregate_rating"@.len() != "product"@.len());
            assert("aggregate_rating"@.len() != "offer"@.len());
            assert("aggregate_rating"@.len() != "aggregate_offer"@.len());
        },
        SeoSchemaBlockKind::Review => {
            reveal_strlit("review");
            reveal_strlit("product");
            reveal_strlit("offer");
            reveal_strlit("aggregate_offer");
            reveal_strlit("aggregate_rating");
            assert("review"@.len() != "product"@.len());
            assert("review"@.len() != "offer"@.len());
            assert("review"@.len() != "aggregate_offer"@.len());
            assert("review"@.len() != "aggregate_rating"@.len());
        },
        SeoSchemaBlockKind::BreadcrumbList => {
            reveal_strlit("breadcrumb_list");
            reveal_strlit("product");
            reveal_strlit("offer");
            reveal_strlit("aggregate_offer");
            reveal_strlit("aggregate_rating");
            reveal_strlit("review");
            assert("breadcrumb_list"@.len() != "product"@.len());
            assert("breadcrumb_list"@.len() != "offer"@.len());
            assert("breadcrumb_list"@[0] != "aggregate_offer"@[0]);
            assert("breadcrumb_list"@.len() != "aggregate_rating"@.len());
            assert("breadcrumb_list"@.len() != "review"@.len());
        },
        SeoSchemaBlockKind::ItemList => {
            reveal_strlit("item_list");
            reveal_strlit("product");
            reveal_strlit("offer");
            reveal_strlit("aggregate_offer");
            reveal_strlit("aggregate_rating");
            reveal_strlit("review");
            reveal_strlit("breadcrumb_list");
            assert("item_list"@.len() != "product"@.len());
            assert("item_list"@.len() != "offer"@.len());
            assert("item_list"@.len() != "aggregate_offer"@.len());
            assert("item_list"@.len() != "aggregate_rating"@.len());
            assert("item_list"@.len() != "review"@.len());
            assert("item_list"@.len() != "breadcrumb_list"@.len());
        },
        SeoSchemaBlockKind::Organization => {
            reveal_strlit("organization");
            reveal_strlit("product");
            reveal_strlit("offer");
            reveal_strlit("aggregate_offer");
            reveal_strlit("aggregate_rating");
            reveal_strlit("review");
            reveal_strlit("breadcrumb_list");
            reveal_strlit("item_list");
            assert("organization"@.len() != "product"@.len());
            assert("organization"@.len() != "offer"@.len());
            assert("organization"@.len() != "aggregate_offer"@.len());
            assert("organization"@.len() != "aggregate_rating"@.len());
            assert("organization"@.len() != "review"@.len());
            assert("organization"@.len() != "breadcrumb_list"@.len());
            assert("organization"@.len() != "item_list"@.len());
        },
        SeoSchemaBlockKind::LocalBusiness => {
            reveal_strlit("local_business");
            reveal_strlit("product");
            reveal_strlit("offer");
            reveal_strlit("aggregate_offer");
            reveal_strlit("aggregate_rating");
            reveal_strlit("review");
            reveal_strlit("breadcrumb_list");
            reveal_strlit("item_list");
            reveal_strlit("organization");
            assert("local_business"@.len() != "product"@.len());
            assert("local_business"@.len() != "offer"@.len());
            assert("local_business"@.len() != "aggregate_offer"@.len());
            assert("local_business"@.len() != "aggregate_rating"@.len());
            assert("local_business"@.len() != "review"@.len());
            assert("local_business"@.len() != "breadcrumb_list"@.len());
            assert("local_business"@.len() != "item_list"@.len());
            assert("local_business"@.len() != "organization"@.len());
        },
        SeoSchemaBlockKind::WebSite => {
            reveal_strlit("web_site");
            reveal_strlit("product");
            reveal_strlit("offer");
            reveal_strlit("aggregate_offer");
            reveal_strlit("aggregate_rating");
            reveal_strlit("review");
            reveal_strlit("breadcrumb_list");
            reveal_strlit("item_list");
            reveal_strlit("organization");
            reveal_strlit("local_business");
            assert("web_site"@.len() != "product"@.len());
            assert("web_site"@.len() != "offer"@.len());
            assert("web_site"@.len() != "aggregate_offer"@.len());
            assert("web_site"@.len() != "aggregate_rating"@.len());
            assert("web_site"@.len() != "review"@.len());
            assert("web_site"@.len() != "breadcrumb_list"@.len());
            assert("web_site"@.len() != "item_list"@.len());
            assert("web_site"@.len() != "organization"@.len());
            assert("web_site"@.len() != "local_business"@.len());
        },
        SeoSchemaBlockKind::SearchAction => {
            reveal_strlit("search_action");
            reveal_strlit("product");
            reveal_strlit("offer");
            reveal_strlit("aggregate_offer");
            reveal_strlit("aggregate_rating");
            reveal_strlit("review");
            reveal_strlit("breadcrumb_list");
            reveal_strlit("item_list");
            reveal_strlit("organization");
            reveal_strlit("local_business");
            reveal_strlit("web_site");
            assert("search_action"@.len() != "product"@.len());
            assert("search_action"@.len() != "offer"@.len());
            assert("search_action"@.len() != "aggregate_offer"@.len());
            assert("search_action"@.len() != "aggregate_rating"@.len());
            assert("search_action"@.len() != "review"@.len());
            assert("search_action"@.len() != "breadcrumb_list"@.len());
            assert("search_action"@.len() != "item_list"@.len());
            assert("search_action"@.len() != "organization"@.len());
            assert("search_action"@.len() != "local_business"@.len());
            assert("search_action"@.len() != "web_site"@.len());
        },
        SeoSchemaBlockKind::Article => {
            reveal_strlit("article");
            reveal_strlit("product");
            reveal_strlit("offer");
            reveal_strlit("aggregate_offer");
            reveal_strlit("aggregate_rating");
            reveal_strlit("review");
            reveal_strlit("breadcrumb_list");
            reveal_strlit("item_list");
            reveal_strlit("organization");
            reveal_strlit("local_business");
            reveal_strlit("web_site");
            reveal_strlit("search_action");
            assert("article"@[0] != "product"@[0]);
            assert("article"@.len() != "offer"@.len());
            assert("article"@.len() != "aggregate_offer"@.len());
            assert("article"@.len() != "aggregate_rating"@.len());
            assert("article"@.len() != "review"@.len());
            assert("article"@.len() != "breadcrumb_list"@.len());
            assert("article"@.len() != "item_list"@.len());
            assert("article"@.len() != "organization"@.len());
            assert("article"@.len() != "local_business"@.len());
            assert("article"@.len() != "web_site"@.len());
            assert("article"@.len() != "search_action"@.len());
        },
        SeoSchemaBlockKind::BlogPosting => {
            reveal_strlit("blog_posting");
            reveal_strlit("product");
            reveal_strlit("offer");
            reveal_strlit("aggregate_offer");
            reveal_strlit("aggregate_rating");
            reveal_strlit("review");
            reveal_strlit("breadcrumb_list");
            reveal_strlit("item_list");
            reveal_strlit("organization");
            reveal_strlit("local_business");
            reveal_strlit("web_site");
            reveal_strlit("search_action");
            reveal_strlit("article");
            assert("blog_posting"@.len() != "product"@.len());
            assert("blog_posting"@.len() != "offer"@.len());
            assert("blog_posting"@.len() != "aggregate_offer"@.len());
            assert("blog_posting"@.len() != "aggregate_rating"@.len());
            assert("blog_posting"@.len() != "review"@.len());
            assert("blog_posting"@.len() != "breadcrumb_list"@.len());
            assert("blog_posting"@.len() != "item_list"@.len());
            assert("blog_posting"@[0] != "organization"@[0]);
            assert("blog_posting"@.len() != "local_business"@.len());
            assert("blog_posting"@.len() != "web_site"@.len());
            assert("blog_posting"@.len() != "search_action"@.len());
            assert("blog_posting"@.len() != "article"@.len());
        },
        SeoSchemaBlockKind::NewsArticle => {
            reveal_strlit("news_article");
            reveal_strlit("product");
            reveal_strlit("offer");
            reveal_strlit("aggregate_offer");
            reveal_strlit("aggregate_rating");
            reveal_strlit("review");
            reveal_strlit("breadcrumb_list");
            reveal_strlit("item_list");
            reveal_strlit("organization");
            reveal_strlit("local_business");
            reveal_strlit("web_site");
            reveal_strlit("search_action");
            reveal_strlit("article");
            reveal_strlit("blog_posting");
            assert("news_article"@.len() != "product"@.len());
            assert("news_article"@.len() != "offer"@.len());
            assert("news_article"@.len() != "aggregate_offer"@.len());
            assert("news_article"@.len() != "aggregate_rating"@.len());
            assert("news_article"@.len() != "review"@.len());
            assert("news_article"@.len() != "breadcrumb_list"@.len());
            assert("news_article"@.len() != "item_list"@.len());
            assert("news_article"@[0] != "organization"@[0]);
            assert("news_article"@.len() != "local_business"@.len());
            assert("news_article"@.len() != "web_site"@.len());
            assert("news_article"@.len() != "search_action"@.len());
            assert("news_article"@.len() != "article"@.len());
            assert("news_article"@[0] != "blog_posting"@[0]);
        },
        SeoSchemaBlockKind::FAQPage => {
            reveal_strlit("faq_page");
            reveal_strlit("product");
            reveal_strlit("offer");
            reveal_strlit("aggregate_offer");
            reveal_strlit("aggregate_rating");
            reveal_strlit("review");
            reveal_strlit("breadcrumb_list");
            reveal_strlit("item_list");
            reveal_strlit("organization");
            reveal_strlit("local_business");
            reveal_strlit("web_site");
            reveal_strlit("search_action");
            reveal_strlit("article");
            reveal_strlit("blog_posting");
            reveal_strlit("news_article");
            assert("faq_page"@.len() != "product"@.len());
            assert("faq_page"@.len() != "offer"@.len());
            assert("faq_page"@.len() != "aggregate_offer"@.len());
            assert("faq_page"@.len() != "aggregate_rating"@.len());
            assert("faq_page"@.len() != "review"@.len());
            assert("faq_page"@.len() != "breadcrumb_list"@.len());
            assert("faq_page"@.len() != "item_list"@.len());
            assert("faq_page"@.len() != "organization"@.len());
            assert("faq_page"@.len() != "local_business"@.len());
            assert("faq_page"@[0] != "web_site"@[0]);
            assert("faq_page"@.len() != "search_action"@.len());
            assert("faq_page"@.len() != "article"@.len());
            assert("faq_page"@.len() != "blog_posting"@.len());
            assert("faq_page"@.len() != "news_article"@.len());
        },
        SeoSchemaBlockKind::HowTo => {
            reveal_strlit("how_to");
            reveal_strlit("product");
            reveal_strlit("offer");
            reveal_strlit("aggregate_offer");
            reveal_strlit("aggregate_rating");
            reveal_strlit("review");
            reveal_strlit("breadcrumb_list");
            reveal_strlit("item_list");
            reveal_strlit("organization");
            reveal_strlit("local_business");
            reveal_strlit("web_site");
            reveal_strlit("search_action");
            reveal_strlit("article");
            reveal_strlit("blog_posting");
            reveal_strlit("news_article");
            reveal_strlit("faq_page");
            assert("how_to"@.len() != "product"@.len());
            assert("how_to"@.len() != "offer"@.len());
            assert("how_to"@.len() != "aggregate_offer"@.len());
            assert("how_to"@.len() != "aggregate_rating"@.len());
            assert("how_to"@[0] != "review"@[0]);
            assert("how_to"@.len() != "breadcrumb_list"@.len());
            assert("how_to"@.len() != "item_list"@.len());
            assert("how_to"@.len() != "organization"@.len());
            assert("how_to"@.len() != "local_business"@.len());
            assert("how_to"@.len() != "web_site"@.len());
            assert("how_to"@.len() != "search_action"@.len());
            assert("how_to"@.len() != "article"@.len());
            assert("how_to"@.len() != "blog_posting"@.len());
            assert("how_to"@.len() != "news_article"@.len());
            assert("how_to"@.len() != "faq_page"@.len());
        },
        SeoSchemaBlockKind::VideoObject => {
            reveal_strlit("video_object");
            reveal_strlit("product");
            reveal_strlit("offer");
            reveal_strlit("aggregate_offer");
            reveal_strlit("aggregate_rating");
            reveal_strlit("review");
            reveal_strlit("breadcrumb_list");
            reveal_strlit("item_list");
            reveal_strlit("organization");
            reveal_strlit("local_business");
            reveal_strlit("web_site");
            reveal_strlit("search_action");
            reveal_strlit("article");
            reveal_strlit("blog_posting");
            reveal_strlit("news_article");
            reveal_strlit("faq_page");
            reveal_strlit("how_to");
            assert("video_object"@.len() != "product"@.len());
            assert("video_object"@.len() != "offer"@.len());
            assert("video_object"@.len() != "aggregate_offer"@.len());
            assert("video_object"@.len() != "aggregate_rating"@.len());
            assert("video_object"@.len() != "review"@.len());
            assert("video_object"@.len() != "breadcrumb_list"@.len());
            assert("video_object"@.len() != "item_list"@.len());
            assert("video_object"@[0] != "organization"@[0]);
            assert("video_object"@.len() != "local_business"@.len());
            assert("video_object"@.len() != "web_site"@.len());
            assert("video_object"@.len() != "search_action"@.len());
            assert("video_object"@.len() != "article"@.len());
            assert("video_object"@[0] != "blog_posting"@[0]);
            assert("video_object"@[0] != "news_article"@[0]);
            assert("video_object"@.len() != "faq_page"@.len());
            assert("video_object"@.len() != "how_to"@.len());
        },
        SeoSchemaBlockKind::ImageObject => {
            reveal_strlit("image_object");
            reveal_strlit("product");
            reveal_strlit("offer");
            reveal_strlit("aggregate_offer");
            reveal_strlit("aggregate_rating");
            reveal_strlit("review");
            reveal_strlit("breadcrumb_list");
            reveal_strlit("item_list");
            reveal_strlit("organization");
            reveal_strlit("local_business");
            reveal_strlit("web_site");
            reveal_strlit("search_action");
            reveal_strlit("article");
            reveal_strlit("blog_posting");
            reveal_strlit("news_article");
            reveal_strlit("faq_page");
            reveal_strlit("how_to");
            reveal_strlit("video_object");
            assert("image_object"@.len() != "product"@.len());
            assert("image_object"@.len() != "offer"@.len());
            assert("image_object"@.len() != "aggregate_offer"@.len());
            assert("image_object"@.len() != "aggregate_rating"@.len());
            assert("image_object"@.len() != "review"@.len());
            assert("image_object"@.len() != "breadcrumb_list"@.len());
            assert("image_object"@.len() != "item_list"@.len());
            assert("image_object"@[0] != "organization"@[0]);
            assert("image_object"@.len() != "local_business"@.len());
            assert("image_object"@.len() != "web_site"@.len());
            assert("image_object"@.len() != "search_action"@.len());
            assert("image_object"@.len() != "article"@.len());
            assert("image_object"@[0] != "blog_posting"@[0]);
            assert("image_object"@[0] != "news_article"@[0]);
            assert("image_object"@.len() != "faq_page"@.len());
            assert("image_object"@.len() != "how_to"@.len());
            assert("image_object"@[0] != "video_object"@[0]);
        },
        SeoSchemaBlockKind::DiscussionForumPosting => {
            reveal_strlit("discussion_forum_posting");
            reveal_strlit("product");
            reveal_strlit("offer");
            reveal_strlit("aggregate_offer");
            reveal_strlit("aggregate_rating");
            reveal_strlit("review");
            reveal_strlit("breadcrumb_list");
            reveal_strlit("item_list");
            reveal_strlit("organization");
            reveal_strlit("local_business");
            reveal_strlit("web_site");
            reveal_strlit("search_action");
            reveal_strlit("article");
            reveal_strlit("blog_posting");
            reveal_strlit("news_article");
            reveal_strlit("faq_page");
            reveal_strlit("how_to");
            reveal_strlit("video_object");
            reveal_strlit("image_object");
            assert("discussion_forum_posting"@.len() != "product"@.len());
            assert("discussion_forum_posting"@.len() != "offer"@.len());
            assert("discussion_forum_posting"@.len() != "aggregate_offer"@.len());
            assert("discussion_forum_posting"@.len() != "aggregate_rating"@.len());
            assert("discussion_forum_posting"@.len() != "review"@.len());
            assert("discussion_forum_posting"@.len() != "breadcrumb_list"@.len());
            assert("discussion_forum_posting"@.len() != "item_list"@.len());
            assert("discussion_forum_posting"@.len() != "organization"@.len());
            assert("discussion_forum_posting"@.len() != "local_business"@.len());
            assert("discussion_forum_posting"@.len() != "web_site"@.len());
            assert("discussion_forum_posting"@.len() != "search_action"@.len());
            assert("discussion_forum_posting"@.len() != "article"@.len());
            assert("discussion_forum_posting"@.len() != "blog_posting"@.len());
            assert("discussion_forum_posting"@.len() != "news_article"@.len());
            assert("discussion_forum_posting"@.len() != "faq_page"@.len());
            assert("discussion_forum_posting"@.len() != "how_to"@.len());
            assert("discussion_forum_posting"@.len() != "video_object"@.len());
            assert("discussion_forum_posting"@.len() != "image_object"@.len());
        },
        SeoSchemaBlockKind::Question => {
            reveal_strlit("question");
            reveal_strlit("product");
            reveal_strlit("offer");
            reveal_strlit("aggregate_offer");
            reveal_strlit("aggregate_rating");
            reveal_strlit("review");
            reveal_strlit("breadcrumb_list");
            reveal_strlit("item_list");
            reveal_strlit("organization");
            reveal_strlit("local_business");
            reveal_strlit("web_site");
            reveal_strlit("search_action");
            reveal_strlit("article");
            reveal_strlit("blog_posting");
            reveal_strlit("news_article");
            reveal_strlit("faq_page");
            reveal_strlit("how_to");
            reveal_strlit("video_object");
            reveal_strlit("image_object");
            reveal_strlit("discussion_forum_posting");
            assert("question"@.len() != "product"@.len());
            assert("question"@.len() != "offer"@.len());
            assert("question"@.len() != "aggregate_offer"@.len());
            assert("question"@.len() != "aggregate_rating"@.len());
            assert("question"@.len() != "review"@.len());
            assert("question"@.len() != "breadcrumb_list"@.len());
            assert("question"@.len() != "item_list"@.len());
            assert("question"@.len() != "organization"@.len());
            assert("question"@.len() != "local_business"@.len());
            assert("question"@[0] != "web_site"@[0]);
            assert("question"@.len() != "search_action"@.len());
            assert("question"@.len() != "article"@.len());
            assert("question"@.len() != "blog_posting"@.len());
            assert("question"@.len() != "news_article"@.len());
            assert("question"@[0] != "faq_page"@[0]);
            assert("question"@.len() != "how_to"@.len());
            assert("question"@.len() != "video_object"@.len());
            assert("question"@.len() != "image_object"@.len());
            assert("question"@.len() != "discussion_forum_posting"@.len());
        },
        SeoSchemaBlockKind::Answer => {
            reveal_strlit("answer");
            reveal_strlit("product");
            reveal_strlit("offer");
            reveal_strlit("aggregate_offer");
            reveal_strlit("aggregate_rating");
            reveal_strlit("review");
            reveal_strlit("breadcrumb_list");
            reveal_strlit("item_list");
            reveal_strlit("organization");
            reveal_strlit("local_business");
            reveal_strlit("web_site");
            reveal_strlit("search_action");
            reveal_strlit("article");
            reveal_strlit("blog_posting");
            reveal_strlit("news_article");
            reveal_strlit("faq_page");
            reveal_strlit("how_to");
            reveal_strlit("video_object");
            reveal_strlit("image_object");
            reveal_strlit("discussion_forum_posting");
            reveal_strlit("question");
            assert("answer"@.len() != "product"@.len());
            assert("answer"@.len() != "offer"@.len());
            assert("answer"@.len() != "aggregate_offer"@.len());
            assert("answer"@.len() != "aggregate_rating"@.len());
            assert("answer"@[0] != "review"@[0]);
            assert("answer"@.len() != "breadcrumb_list"@.len());
            assert("answer"@.len() != "item_list"@.len());
            assert("answer"@.len() != "organization"@.len());
            assert("answer"@.len() != "local_business"@.len());
            assert("answer"@.len() != "web_site"@.len());
            assert("answer"@.len() != "search_action"@.len());
            assert("answer"@.len() != "article"@.len());
            assert("answer"@.len() != "blog_posting"@.len());
            assert("answer"@.len() != "news_article"@.len());
            assert("answer"@.len() != "faq_page"@.len());
            assert("answer"@[0] != "how_to"@[0]);
            assert("answer"@.len() != "video_object"@.len());
            assert("answer"@.len() != "image_object"@.len());
            assert("answer"@.len() != "discussion_forum_posting"@.len());
            assert("answer"@.len() != "question"@.len());
        },
        SeoSchemaBlockKind::WebPage => {
            reveal_strlit("web_page");
            reveal_strlit("product");
            reveal_strlit("offer");
            reveal_strlit("aggregate_offer");
            reveal_strlit("aggregate_rating");
            reveal_strlit("review");
            reveal_strlit("breadcrumb_list");
            reveal_strlit("item_list");
            reveal_strlit("organization");
            reveal_strlit("local_business");
            reveal_strlit("web_site");
            reveal_strlit("search_action");
            reveal_strlit("article");
            reveal_strlit("blog_posting");
            reveal_strlit("news_article");
            reveal_strlit("faq_page");
            reveal_strlit("how_to");
            reveal_strlit("video_object");
            reveal_strlit("image_object");
            reveal_strlit("discussion_forum_posting");
            reveal_strlit("question");
            reveal_strlit("answer");
            assert("web_page"@.len() != "product"@.len());
            assert("web_page"@.len() != "offer"@.len());
            assert("web_page"@.len() != "aggregate_offer"@.len());
            assert("web_page"@.len() != "aggregate_rating"@.len());
            assert("web_page"@.len() != "review"@.len());
            assert("web_page"@.len() != "breadcrumb_list"@.len());
            assert("web_page"@.len() != "item_list"@.len());
            assert("web_page"@.len() != "organization"@.len());
            assert("web_page"@.len() != "local_business"@.len());
            assert("web_page"@[4] != "web_site"@[4]);
            assert("web_page"@.len() != "search_action"@.len());
            assert("web_page"@.len() != "article"@.len());
            assert("web_page"@.len() != "blog_posting"@.len());
            assert("web_page"@.len() != "news_article"@.len());
            assert("web_page"@[0] != "faq_page"@[0]);
            assert("web_page"@.len() != "how_to"@.len());
            assert("web_page"@.len() != "video_object"@.len());
            assert("web_page"@.len() != "image_object"@.len());
            assert("web_page"@.len() != "discussion_forum_posting"@.len());
            assert("web_page"@[0] != "question"@[0]);
            assert("web_page"@.len() != "answer"@.len());
        },
        SeoSchemaBlockKind::CollectionPage => {
            reveal_strlit("collection_page");
            reveal_strlit("product");
            reveal_strlit("offer");
            reveal_strlit("aggregate_offer");
            reveal_strlit("aggregate_rating");
            reveal_strlit("review");
            reveal_strlit("breadcrumb_list");
            reveal_strlit("item_list");
            reveal_strlit("organization");
            reveal_strlit("local_business");
            reveal_strlit("web_site");
            reveal_strlit("search_action");
            reveal_strlit("article");
            reveal_strlit("blog_posting");
            reveal_strlit("news_article");
            reveal_strlit("faq_page");
            reveal_strlit("how_to");
            reveal_strlit("video_object");
            reveal_strlit("image_object");
            reveal_strlit("discussion_forum_posting");
            reveal_strlit("question");
            reveal_strlit("answer");
            reveal_strlit("web_page");
            assert("collection_page"@.len() != "product"@.len());
            assert("collection_page"@.len() != "offer"@.len());
            assert("collection_page"@[0] != "aggregate_offer"@[0]);
            assert("collection_page"@.len() != "aggregate_rating"@.len());
            assert("collection_page"@.len() != "review"@.len());
            assert("collection_page"@[0] != "breadcrumb_list"@[0]);
            assert("collection_page"@.len() != "item_list"@.len());
            assert("collection_page"@.len() != "organization"@.len());
            assert("collection_page"@.len() != "local_business"@.len());
            assert("collection_page"@.len() != "web_site"@.len());
            assert("collection_page"@.len() != "search_action"@.len());
            assert("collection_page"@.len() != "article"@.len());
            assert("collection_page"@.len() != "blog_posting"@.len());
            assert("collection_page"@.len() != "news_article"@.len());
            assert("collection_page"@.len() != "faq_page"@.len());
            assert("collection_page"@.len() != "how_to"@.len());
            assert("collection_page"@.len() != "video_object"@.len());
            assert("collection_page"@.len() != "image_object"@.len());
            assert("collection_page"@.len() != "discussion_forum_posting"@.len());
            assert("collection_page"@.len() != "question"@.len());
            assert("collection_page"@.len() != "answer"@.len());
            assert("collection_page"@.len() != "web_page"@.len());
        },
        SeoSchemaBlockKind::Other => {
            reveal_strlit("other");
            reveal_strlit("product");
            reveal_strlit("offer");
            reveal_strlit("aggregate_offer");
            reveal_strlit("aggregate_rating");
            reveal_strlit("review");
            reveal_strlit("breadcrumb_list");
            reveal_strlit("item_list");
            reveal_strlit("organization");
            reveal_strlit("local_business");
            reveal_strlit("web_site");
            reveal_strlit("search_action");
            reveal_strlit("article");
            reveal_strlit("blog_posting");
            reveal_strlit("news_article");
            reveal_strlit("faq_page");
            reveal_strlit("how_to");
            reveal_strlit("video_object");
            reveal_strlit("image_object");
            reveal_strlit("discussion_forum_posting");
            reveal_strlit("question");
            reveal_strlit("answer");
            reveal_strlit("web_page");
            reveal_strlit("collection_page");
            assert("other"@.len() != "product"@.len());
            assert("other"@[1] != "offer"@[1]);
            assert("other"@.len() != "aggregate_offer"@.len());
            assert("other"@.len() != "aggregate_rating"@.len());
            assert("other"@.len() != "review"@.len());
            assert("other"@.len() != "breadcrumb_list"@.len());
            assert("other"@.len() != "item_list"@.len());
            assert("other"@.len() != "organization"@.len());
            assert("other"@.len() != "local_business"@.len());
            assert("other"@.len() != "web_site"@.len());
            assert("other"@.len() != "search_action"@.len());
            assert("other"@.len() != "article"@.len());
            assert("other"@.len() != "blog_posting"@.len());
            assert("other"@.len() != "news_article"@.len());
            assert("other"@.len() != "faq_page"@.len());
            assert("other"@.len() != "how_to"@.len());
            assert("other"@.len() != "video_object"@.len());
            assert("other"@.len() != "image_object"@.len());
            assert("other"@.len() != "discussion_forum_posting"@.len());
            assert("other"@.len() != "question"@.len());
            assert("other"@.len() != "answer"@.len());
            assert("other"@.len() != "web_page"@.len());
            assert("other"@.len() != "collection_page"@.len());
        },
        SeoSchemaBlockKind::Unknown => {
            reveal_strlit("unknown");
            reveal_strlit("product");
            reveal_strlit("offer");
            reveal_strlit("aggregate_offer");
            reveal_strlit("aggregate_rating");
            reveal_strlit("review");
            reveal_strlit("breadcrumb_list");
            reveal_strlit("item_list");
            reveal_strlit("organization");
            reveal_strlit("local_business");
            reveal_strlit("web_site");
            reveal_strlit("search_action");
            reveal_strlit("article");
            reveal_strlit("blog_posting");
            reveal_strlit("news_article");
            reveal_strlit("faq_page");
            reveal_strlit("how_to");
            reveal_strlit("video_object");
            reveal_strlit("image_object");
            reveal_strlit("discussion_forum_posting");
            reveal_strlit("question");
            reveal_strlit("answer");
            reveal_strlit("web_page");
            reveal_strlit("collection_page");
            reveal_strlit("other");
            assert("unknown"@[0] != "product"@[0]);
            assert("unknown"@.len() != "offer"@.len());
            assert("unknown"@.len() != "aggregate_offer"@.len());
            assert("unknown"@.len() != "aggregate_rating"@.len());
            assert("unknown"@.len() != "review"@.len());
            assert("unknown"@.len() != "breadcrumb_list"@.len());
            assert("unknown"@.len() != "item_list"@.len());
            assert("unknown"@.len() != "organization"@.len());
            assert("unknown"@.len() != "local_business"@.len());
            assert("unknown"@.len() != "web_site"@.len());
            assert("unknown"@.len() != "search_action"@.len());
            assert("unknown"@[0] != "article"@[0]);
            assert("unknown"@.len() != "blog_posting"@.len());
            assert("unknown"@.len() != "news_article"@.len());
            assert("unknown"@.len() != "faq_page"@.len());
            assert("unknown"@.len() != "how_to"@.len());
            assert("unknown"@.len() != "video_object"@.len());
            assert("unknown"@.len() != "image_object"@.len());
            assert("unknown"@.len() != "discussion_forum_posting"@.len());
            assert("unknown"@.len() != "question"@.len());
            assert("unknown"@.len() != "answer"@.len());
            assert("unknown"@.len() != "web_page"@.len());
            assert("unknown"@.len() != "collection_page"@.len());
            assert("unknown"@.len() != "other"@.len());
        },
    }
}

/// No two schema kinds have the same name: `as_str` (whose result is
/// `wire`) is injective.
pub proof fn lemma_schema_block_kind_names_distinct(a: SeoSchemaBlockKind, b: SeoSchemaBlockKind)
    requires
        a.wire() == b.wire(),
    ensures
        a == b,
{
    lemma_schema_block_kind_from_wire(a);
    lemma_schema_block_kind_from_wire(b);
}

impl SeoSchemaBlockKind {
    /// The kind that a schema.org `@type` name (already trimmed) denotes.
    pub open spec fn from_type_name(t: Seq<char>) -> SeoSchemaBlockKind {
        if t == "Product"@ {
            SeoSchemaBlockKind::Product
        } else if t == "Offer"@ {
            SeoSchemaBlockKind::Offer
        } else if t == "AggregateOffer"@ {
            SeoSchemaBlockKind::AggregateOffer
        } else if t == "AggregateRating"@ {
            SeoSchemaBlockKind::AggregateRating
        } else if t == "Review"@ {
            SeoSchemaBlockKind::Review
        } else if t == "BreadcrumbList"@ {
            SeoSchemaBlockKind::BreadcrumbList
        } else if t == "ItemList"@ {
            SeoSchemaBlockKind::ItemList
        } else if t == "Organization"@ {
            SeoSchemaBlockKind::Organization
        } else if t == "LocalBusiness"@ {
            SeoSchemaBlockKind::LocalBusiness
        } else if t == "WebSite"@ {
            SeoSchemaBlockKind::WebSite
        } else if t == "SearchAction"@ {
            SeoSchemaBlockKind::SearchAction
        } else if t == "Article"@ {
            SeoSchemaBlockKind::Article
        } else if t == "BlogPosting"@ {
            SeoSchemaBlockKind::BlogPosting
        } else if t == "NewsArticle"@ {
            SeoSchemaBlockKind::NewsArticle
        } else if t == "FAQPage"@ {
            SeoSchemaBlockKind::FAQPage
        } else if t == "HowTo"@ {
            SeoSchemaBlockKind::HowTo
        } else if t == "VideoObject"@ {
            SeoSchemaBlockKind::VideoObject
        } else if t == "ImageObject"@ {
            SeoSchemaBlockKind::ImageObject
        } else if t == "DiscussionForumPosting"@ {
            SeoSchemaBlockKind::DiscussionForumPosting
        } else if t == "Question"@ {
            SeoSchemaBlockKind::Question
        } else if t == "Answer"@ {
            SeoSchemaBlockKind::Answer
        } else if t == "WebPage"@ {
            SeoSchemaBlockKind::WebPage
        } else if t == "CollectionPage"@ {
            SeoSchemaBlockKind::CollectionPage
        } else if t.len() == 0 {
            SeoSchemaBlockKind::Unknown
        } else {
            SeoSchemaBlockKind::Other
        }
    }

    /// The kind that a schema.org `@type` name denotes; surrounding
    /// whitespace is ignored, an empty name is `Unknown` and a name
    /// outside the known list is `Other`.
    pub fn from_schema_type(value: &str) -> (r: SeoSchemaBlockKind)
        ensures
            r == SeoSchemaBlockKind::from_type_name(trim(value@)),
    {
        let t = trim_str(value);
        let t = t.as_str();
        if str_eq(t, "Product") {
            SeoSchemaBlockKind::Product
        } else if str_eq(t, "Offer") {
            SeoSchemaBlockKind::Offer
        } else if str_eq(t, "AggregateOffer") {
            SeoSchemaBlockKind::AggregateOffer
        } else if str_eq(t, "AggregateRating") {
            SeoSchemaBlockKind::AggregateRating
        } else if str_eq(t, "Review") {
            SeoSchemaBlockKind::Review
        } else if str_eq(t, "BreadcrumbList") {
            SeoSchemaBlockKind::BreadcrumbList
        } else if str_eq(t, "ItemList") {
            SeoSchemaBlockKind::ItemList
        } else if str_eq(t, "Organization") {
            SeoSchemaBlockKind::Organization
        } else if str_eq(t, "LocalBusiness") {
            SeoSchemaBlockKind::LocalBusiness
        } else if str_eq(t, "WebSite") {
            SeoSchemaBlockKind::WebSite
        } else if str_eq(t, "SearchAction") {
            SeoSchemaBlockKind::SearchAction
        } else if str_eq(t, "Article") {
            SeoSchemaBlockKind::Article
        } else if str_eq(t, "BlogPosting") {
            SeoSchemaBlockKind::BlogPosting
        } else if str_eq(t, "NewsArticle") {
            SeoSchemaBlockKind::NewsArticle
        } else if str_eq(t, "FAQPage") {
            SeoSchemaBlockKind::FAQPage
        } else if str_eq(t, "HowTo") {
            SeoSchemaBlockKind::HowTo
        } else if str_eq(t, "VideoObject") {
            SeoSchemaBlockKind::VideoObject
        } else if str_eq(t, "ImageObject") {
            SeoSchemaBlockKind::ImageObject
        } else if str_eq(t, "DiscussionForumPosting") {
            SeoSchemaBlockKind::DiscussionForumPosting
        } else if str_eq(t, "Question") {
            SeoSchemaBlockKind::Question
        } else if str_eq(t, "Answer") {
            SeoSchemaBlockKind::Answer
        } else if str_eq(t, "WebPage") {
            SeoSchemaBlockKind::WebPage
        } else if str_eq(t, "CollectionPage") {
            SeoSchemaBlockKind::CollectionPage
        } else if t.unicode_len() == 0 {
            SeoSchemaBlockKind::Unknown
        } else {
            SeoSchemaBlockKind::Other
        }
    }
}

/// A localized alternate of a page.
#[derive(Clone, Debug, Default)]
pub struct SeoAlternateLink {
    pub locale: String,
    pub href: String,
    pub x_default: bool,
}

/// Where a request is redirected, and with which HTTP status.
#[derive(Clone, Debug, Default)]
pub struct SeoRedirectDecision {
    pub target_url: String,
    pub status_code: i32,
}

/// The routing part of a page context.
#[derive(Clone, Debug, Default)]
pub struct SeoRouteContext {
    pub target_kind: Option<SeoTargetSlug>,
    /// The target's identifier, as the 128-bit value of its UUID.
    pub target_id: Option<u128>,
    pub requested_locale: Option<String>,
    pub effective_locale: String,
    pub canonical_url: String,
    pub redirect: Option<SeoRedirectDecision>,
    pub alternates: Vec<SeoAlternateLink>,
}

/// An image used by Open Graph or Twitter metadata.
#[derive(Clone, Debug, Default)]
pub struct SeoImageAsset {
    pub url: String,
    pub alt: Option<String>,
    pub width: Option<i32>,
    pub height: Option<i32>,
    pub mime_type: Option<String>,
}

/// Open Graph metadata of a page.
#[derive(Clone, Debug, Default)]
pub struct SeoOpenGraph {
    pub title: Option<String>,
    pub description: Option<String>,
    pub kind: Option<String>,
    pub site_name: Option<String>,
    pub url: Option<String>,
    pub locale: Option<String>,
    pub images: Vec<SeoImageAsset>,
}

impl SeoImageAsset {
    /// A copy of the image.
    pub fn copy(&self) -> (r: SeoImageAsset)
        ensures
            r == *self,
    {
        SeoImageAsset {
            url: self.url.clone(),
            alt: crate::text::copy_opt(&self.alt),
            width: self.width,
            height: self.height,
            mime_type: crate::text::copy_opt(&self.mime_type),
        }
    }
}

/// A copy of a list of images.
pub fn copy_images(v: &Vec<SeoImageAsset>) -> (r: Vec<SeoImageAsset>)
    ensures
        r@ == v@,
{
    let mut r: Vec<SeoImageAsset> = Vec::new();
    let mut i: usize = 0;
    while i < v.len()
        invariant
            i <= v.len(),
            r@ == v@.take(i as int),
        decreases v.len() - i,
    {
        r.push(v[i].copy());
        i = i + 1;
        assert(r@ =~= v@.take(i as int));
    }
    assert(r@ =~= v@);
    r
}

impl SeoOpenGraph {
    /// A copy of the Open Graph metadata.
    pub fn copy(&self) -> (r: SeoOpenGraph)
        ensures
            r.title == self.title,
            r.description == self.description,
            r.kind == self.kind,
            r.site_name == self.site_name,
            r.url == self.url,
            r.locale == self.locale,
            r.images@ == self.images@,
    {
        SeoOpenGraph {
            title: crate::text::copy_opt(&self.title),
            description: crate::text::copy_opt(&self.description),
            kind: crate::text::copy_opt(&self.kind),
            site_name: crate::text::copy_opt(&self.site_name),
            url: crate::text::copy_opt(&self.url),
            locale: crate::text::copy_opt(&self.locale),
            images: copy_images(&self.images),
        }
    }
}

/// Twitter card metadata of a page.
#[derive(Clone, Debug, Default)]
pub struct SeoTwitterCard {
    pub card: Option<String>,
    pub title: Option<String>,
    pub description: Option<String>,
    pub site: Option<String>,
    pub creator: Option<String>,
    pub images: Vec<SeoImageAsset>,
}

/// A site verification token of a named provider.
#[derive(Clone, Debug, Default)]
pub struct SeoVerificationTag {
    pub name: String,
    pub value: String,
}

/// Site verification tokens.
#[derive(Clone, Debug, Default)]
pub struct SeoVerification {
    pub google: Vec<String>,
    pub yandex: Vec<String>,
    pub yahoo: Vec<String>,
    pub other: Vec<SeoVerificationTag>,
}

/// Links to the neighbouring pages of a paginated listing.
#[derive(Clone, Debug, Default)]
pub struct SeoPagination {
    pub prev_url: Option<String>,
    pub next_url: Option<String>,
}

/// A JSON-LD structured-data block of a page.
#[derive(Clone, Debug, Default)]
pub struct SeoStructuredDataBlock {
    pub id: Option<String>,
    pub schema_kind: SeoSchemaBlockKind,
    pub schema_type: Option<String>,
    pub kind: Option<String>,
    pub source: SeoFieldSource,
    pub payload: JsonValue,
}

/// The mathematical form of a structured-data block.
pub struct BlockData {
    pub id: Option<Seq<char>>,
    pub schema_kind: SeoSchemaBlockKind,
    pub schema_type: Option<Seq<char>>,
    pub kind: Option<Seq<char>>,
    pub source: SeoFieldSource,
    pub payload: JsonData,
}

impl View for SeoStructuredDataBlock {
    type V = BlockData;

    open spec fn view(&self) -> BlockData {
        BlockData {
            id: crate::text::opt_view(self.id),
            schema_kind: self.schema_kind,
            schema_type: crate::text::opt_view(self.schema_type),
            kind: crate::text::opt_view(self.kind),
            source: self.source,
            payload: self.payload@,
        }
    }
}

/// The views of a sequence of structured-data blocks.
pub open spec fn blocks_view(s: Seq<SeoStructuredDataBlock>) -> Seq<BlockData> {
    s.map_values(|b: SeoStructuredDataBlock| b@)
}

/// A `<meta>` tag.
#[derive(Clone, Debug, Default)]
pub struct SeoMetaTag {
    pub name: Option<String>,
    pub property: Option<String>,
    pub http_equiv: Option<String>,
    pub content: String,
}

/// A `<link>` tag.
#[derive(Clone, Debug, Default)]
pub struct SeoLinkTag {
    pub rel: String,
    pub href: String,
    pub hreflang: Option<String>,
    pub media: Option<String>,
    pub mime_type: Option<String>,
    pub title: Option<String>,
}

/// Source and presence of one effective field.
#[derive(Clone, Copy, Debug, Default)]
pub struct SeoFieldState {
    pub source: SeoFieldSource,
    pub present: bool,
}

/// Source and presence of every effective field of a document.
#[derive(Clone, Copy, Debug, Default)]
pub struct SeoDocumentEffectiveState {
    pub title: SeoFieldState,
    pub description: SeoFieldState,
    pub canonical_url: SeoFieldState,
    pub keywords: SeoFieldState,
    pub robots: SeoFieldState,
    pub open_graph: SeoFieldState,
    pub twitter: SeoFieldState,
    pub structured_data: SeoFieldState,
}

/// Typed robots directives of a page.
#[derive(Clone, Debug)]
pub struct SeoRobots {
    pub index: bool,
    pub follow: bool,
    pub noarchive: bool,
    pub nosnippet: bool,
    pub noimageindex: bool,
    pub notranslate: bool,
    pub max_snippet: Option<i32>,
    pub max_image_preview: Option<String>,
    pub max_video_preview: Option<i32>,
    pub custom: Vec<String>,
}

impl SeoRobots {
    /// The default directives: `index, follow` and nothing else.
    pub open spec fn is_default(self) -> bool {
        &&& self.index
        &&& self.follow
        &&& !self.noarchive
        &&& !self.nosnippet
        &&& !self.noimageindex
        &&& !self.notranslate
        &&& self.max_snippet is None
        &&& self.max_image_preview is None
        &&& self.max_video_preview is None
        &&& self.custom@.len() == 0
    }
}

/// The mathematical form of the robots directives of a page.
pub struct RobotsData {
    pub index: bool,
    pub follow: bool,
    pub noarchive: bool,
    pub nosnippet: bool,
    pub noimageindex: bool,
    pub notranslate: bool,
    pub max_snippet: Option<i32>,
    pub max_image_preview: Option<Seq<char>>,
    pub max_video_preview: Option<i32>,
    pub custom: Seq<Seq<char>>,
}

/// The default directives: `index, follow` and nothing else.
pub open spec fn default_robots_data() -> RobotsData {
    RobotsData {
        index: true,
        follow: true,
        noarchive: false,
        nosnippet: false,
        noimageindex: false,
        notranslate: false,
        max_snippet: None,
        max_image_preview: None,
        max_video_preview: None,
        custom: Seq::empty(),
    }
}

impl View for SeoRobots {
    type V = RobotsData;

    open spec fn view(&self) -> RobotsData {
        RobotsData {
            index: self.index,
            follow: self.follow,
            noarchive: self.noarchive,
            nosnippet: self.nosnippet,
            noimageindex: self.noimageindex,
            notranslate: self.notranslate,
            max_snippet: self.max_snippet,
            max_image_preview: crate::text::opt_view(self.max_image_preview),
            max_video_preview: self.max_video_preview,
            custom: crate::text::views(self.custom@),
        }
    }
}

impl Default for SeoRobots {
    fn default() -> (r: Self)
        ensures
            r.is_default(),
            r@ == default_robots_data(),
    {
        proof {
            assert(crate::text::views(Seq::<String>::empty()) =~= Seq::<Seq<char>>::empty());
        }
        SeoRobots {
            index: true,
            follow: true,
            noarchive: false,
            nosnippet: false,
            noimageindex: false,
            notranslate: false,
            max_snippet: None,
            max_image_preview: None,
            max_video_preview: None,
            custom: Vec::new(),
        }
    }
}

/// The resolved SEO document of a page.
#[derive(Clone, Debug, Default)]
pub struct SeoDocument {
    pub title: String,
    pub description: Option<String>,
    pub robots: SeoRobots,
    pub open_graph: Option<SeoOpenGraph>,
    pub twitter: Option<SeoTwitterCard>,
    pub verification: Option<SeoVerification>,
    pub pagination: Option<SeoPagination>,
    pub structured_data_blocks: Vec<SeoStructuredDataBlock>,
    pub meta_tags: Vec<SeoMetaTag>,
    pub link_tags: Vec<SeoLinkTag>,
    pub effective_state: SeoDocumentEffectiveState,
}

/// Routing and document of a page.
#[derive(Clone, Debug, Default)]
pub struct SeoPageContext {
    pub route: SeoRouteContext,
    pub document: SeoDocument,
}

/// The SEO metadata to store for a target.  The target is the 128-bit
/// value of its UUID.
#[derive(Debug)]
pub struct SeoMetaInput {
    pub target_kind: SeoTargetSlug,
    pub target_id: u128,
    pub noindex: bool,
    pub nofollow: bool,
    pub canonical_url: Option<String>,
    pub structured_data: Option<JsonValue>,
    pub translations: Vec<SeoMetaTranslationInput>,
}

/// Localized metadata submitted for a target.
#[derive(Clone, Debug)]
pub struct SeoMetaTranslationInput {
    pub locale: String,
    pub title: Option<String>,
    pub description: Option<String>,
    pub keywords: Option<String>,
    pub og_title: Option<String>,
    pub og_description: Option<String>,
    pub og_image: Option<String>,
}

/// Localized metadata stored for a target.
#[derive(Clone, Debug, Default)]
pub struct SeoMetaTranslationRecord {
    pub locale: String,
    pub title: Option<String>,
    pub description: Option<String>,
    pub keywords: Option<String>,
    pub og_title: Option<String>,
    pub og_description: Option<String>,
    pub og_image: Option<String>,
}

/// The SEO metadata of a target in a locale, with its effective state.
#[derive(Debug)]
pub struct SeoMetaRecord {
    pub target_kind: SeoTargetSlug,
    /// The target, as the 128-bit value of its UUID.
    pub target_id: u128,
    pub requested_locale: Option<String>,
    pub effective_locale: String,
    pub available_locales: Vec<String>,
    pub noindex: bool,
    pub nofollow: bool,
    pub canonical_url: Option<String>,
    pub translation: SeoMetaTranslationRecord,
    pub source: String,
    pub open_graph: Option<SeoOpenGraph>,
    pub structured_data: Option<JsonValue>,
    pub effective_state: SeoDocumentEffectiveState,
}

/// A redirect rule to create or update.  Identifiers are the 128-bit
/// values of UUIDs; the expiry is a Unix timestamp in seconds.
#[derive(Clone, Debug)]
pub struct SeoRedirectInput {
    pub id: Option<u128>,
    pub match_type: SeoRedirectMatchType,
    pub source_pattern: String,
    pub target_url: String,
    pub status_code: i32,
    pub expires_at: Option<i64>,
    pub is_active: bool,
}

/// A stored redirect rule.  Identifiers are the 128-bit values of UUIDs;
/// times are Unix timestamps in seconds.
#[derive(Clone, Debug)]
pub struct SeoRedirectRecord {
    pub id: u128,
    pub match_type: SeoRedirectMatchType,
    pub source_pattern: String,
    pub target_url: String,
    pub status_code: i32,
    pub expires_at: Option<i64>,
    pub is_active: bool,
    pub created_at: i64,
    pub updated_at: i64,
}

/// A request to repair, and optionally replay, search-index deliveries.
#[derive(Clone, Debug)]
pub struct SeoIndexRepairReplayInput {
    pub target_type: Option<String>,
    pub limit: i32,
    pub replay_historical: bool,
}

/// The robots.txt a tenant would serve.
#[derive(Clone, Debug)]
pub struct SeoRobotsPreviewRecord {
    pub body: String,
    pub public_url: String,
    pub sitemap_index_url: Option<String>,
}

/// The number of targets a bulk selection matches.
#[derive(Clone, Copy, Debug)]
pub struct SeoBulkSelectionPreviewRecord {
    pub count: i32,
}

/// A bulk patch of a text field.
#[derive(Clone, Debug)]
pub struct SeoBulkStringFieldPatch {
    pub mode: SeoBulkFieldPatchMode,
    pub value: Option<String>,
}

/// A bulk patch of a flag.
#[derive(Clone, Copy, Debug)]
pub struct SeoBulkBoolFieldPatch {
    pub mode: SeoBulkFieldPatchMode,
    pub value: Option<bool>,
}

/// A bulk patch of the structured data.
#[derive(Clone, Debug)]
pub struct SeoBulkJsonFieldPatch {
    pub mode: SeoBulkFieldPatchMode,
    pub value: Option<JsonValue>,
}

/// The field patches of a bulk apply; an absent patch keeps the field.
#[derive(Clone, Debug)]
pub struct SeoBulkMetaPatchInput {
    pub title: Option<SeoBulkStringFieldPatch>,
    pub description: Option<SeoBulkStringFieldPatch>,
    pub keywords: Option<SeoBulkStringFieldPatch>,
    pub canonical_url: Option<SeoBulkStringFieldPatch>,
    pub og_title: Option<SeoBulkStringFieldPatch>,
    pub og_description: Option<SeoBulkStringFieldPatch>,
    pub og_image: Option<SeoBulkStringFieldPatch>,
    pub structured_data: Option<SeoBulkJsonFieldPatch>,
    pub noindex: Option<SeoBulkBoolFieldPatch>,
    pub nofollow: Option<SeoBulkBoolFieldPatch>,
}

/// A filtered listing of bulk-editable targets.
#[derive(Clone, Debug)]
pub struct SeoBulkListInput {
    pub target_kind: SeoTargetSlug,
    pub locale: String,
    pub query: Option<String>,
    pub source: Option<SeoBulkSource>,
    pub page: i32,
    pub per_page: i32,
}

/// The targets a bulk operation acts on.
#[derive(Clone, Debug)]
pub struct SeoBulkSelectionInput {
    pub mode: SeoBulkSelectionMode,
    /// The selected targets, as 128-bit UUID values.
    pub selected_ids: Vec<u128>,
    pub filter: Option<SeoBulkListInput>,
}

/// A bulk apply request.
#[derive(Clone, Debug)]
pub struct SeoBulkApplyInput {
    pub selection: SeoBulkSelectionInput,
    pub patch: SeoBulkMetaPatchInput,
    pub apply_mode: SeoBulkApplyMode,
    pub publish_after_write: bool,
}

/// A bulk CSV import request.
#[derive(Clone, Debug)]
pub struct SeoBulkImportInput {
    pub target_kind: SeoTargetSlug,
    pub locale: String,
    pub csv_utf8: String,
    pub publish_after_write: bool,
}

/// A bulk CSV export request.
#[derive(Clone, Debug)]
pub struct SeoBulkExportInput {
    pub filter: SeoBulkListInput,
}

/// Title, description and other template rules of a target kind.
#[derive(Clone, Debug, Default)]
pub struct SeoTemplateRuleSet {
    pub title: Option<String>,
    pub meta_description: Option<String>,
    pub canonical_url: Option<String>,
    pub keywords: Option<String>,
    pub robots: Option<String>,
    pub open_graph_title: Option<String>,
    pub open_graph_description: Option<String>,
    pub twitter_title: Option<String>,
    pub twitter_description: Option<String>,
}

/// Tenant settings of the SEO module.  Template overrides are keyed by
/// target kind slug and kept in ascending key order without repeated keys.
#[derive(Clone, Debug)]
pub struct SeoModuleSettings {
    pub default_robots: Vec<String>,
    pub sitemap_enabled: bool,
    pub allowed_redirect_hosts: Vec<String>,
    pub allowed_canonical_hosts: Vec<String>,
    pub x_default_locale: Option<String>,
    pub template_defaults: SeoTemplateRuleSet,
    pub template_overrides: Vec<(String, SeoTemplateRuleSet)>,
    pub sitemap_submission_endpoints: Vec<String>,
}

/// Default robots directives of the settings.
pub open spec fn default_robots_spec() -> Seq<Seq<char>> {
    seq!["index"@, "follow"@]
}

/// The default robots directives: `index` and `follow`.
pub fn default_robots() -> (r: Vec<String>)
    ensures
        crate::text::views(r@) == default_robots_spec(),
{
    let mut r: Vec<String> = Vec::new();
    r.push(crate::text::owned("index"));
    r.push(crate::text::owned("follow"));
    assert(crate::text::views(r@) =~= default_robots_spec());
    r
}

/// Sitemaps are enabled unless the settings say otherwise.
pub fn default_sitemap_enabled() -> (r: bool)
    ensures
        r,
{
    true
}

/// The repair batch size used when a request gives none.
pub fn default_index_repair_limit() -> (r: i32)
    ensures
        r == 100,
{
    100
}

impl SeoModuleSettings {
    /// The default settings: robots `index, follow`, sitemaps on, no hosts,
    /// no locale, empty templates and no submission endpoints.
    pub open spec fn is_default(self) -> bool {
        &&& crate::text::views(self.default_robots@) == default_robots_spec()
        &&& self.sitemap_enabled
        &&& self.allowed_redirect_hosts@.len() == 0
        &&& self.allowed_canonical_hosts@.len() == 0
        &&& self.x_default_locale is None
        &&& self.template_overrides@.len() == 0
        &&& self.sitemap_submission_endpoints@.len() == 0
    }
}

impl Default for SeoModuleSettings {
    fn default() -> (r: Self)
        ensures
            r.is_default(),
    {
        SeoModuleSettings {
            default_robots: default_robots(),
            sitemap_enabled: default_sitemap_enabled(),
            allowed_redirect_hosts: Vec::new(),
            allowed_canonical_hosts: Vec::new(),
            x_default_locale: None,
            template_defaults: SeoTemplateRuleSet {
                title: None,
                meta_description: None,
                canonical_url: None,
                keywords: None,
                robots: None,
                open_graph_title: None,
                open_graph_description: None,
                twitter_title: None,
                twitter_description: None,
            },
            template_overrides: Vec::new(),
            sitemap_submission_endpoints: Vec::new(),
        }
    }
}

/// A diagnostic issue about one target.
#[derive(Clone, Debug)]
pub struct SeoDiagnosticIssueRecord {
    pub code: String,
    pub severity: SeoDiagnosticSeverity,
    pub target_kind: SeoTargetSlug,
    /// The target, as the 128-bit value of its UUID.
    pub target_id: u128,
    pub target_label: String,
    pub route: String,
    pub locale: String,
    pub message: String,
    pub canonical_url: Option<String>,
    pub source: String,
}

/// How often a key occurs among diagnostic issues.
#[derive(Clone, Debug, Default)]
pub struct SeoDiagnosticCountRecord {
    pub key: String,
    pub count: i32,
}

/// Aggregated diagnostics of a locale.
#[derive(Clone, Debug, Default)]
pub struct SeoDiagnosticsSummaryRecord {
    pub locale: String,
    pub total_targets: i32,
    pub readiness_score: i32,
    pub issue_count: i32,
    pub error_count: i32,
    pub warning_count: i32,
    pub generated_count: i32,
    pub explicit_count: i32,
    pub fallback_count: i32,
    pub issue_counts_by_code: Vec<SeoDiagnosticCountRecord>,
    pub issue_counts_by_target_kind: Vec<SeoDiagnosticCountRecord>,
    pub issues: Vec<SeoDiagnosticIssueRecord>,
}

/// A bulk-editable target as a target provider lists it.
#[derive(Clone, Debug)]
pub struct SeoBulkSummaryRecord {
    pub target_kind: SeoTargetSlug,
    /// The target, as the 128-bit value of its UUID.
    pub target_id: u128,
    pub effective_locale: String,
    pub label: String,
    pub route: String,
}

/// A suggested internal link from one target to another.
#[derive(Clone, Debug)]
pub struct SeoCrossLinkSuggestionRecord {
    pub target_kind: SeoTargetSlug,
    /// The source target, as the 128-bit value of its UUID.
    pub target_id: u128,
    pub target_route: String,
    pub anchor_hint: String,
    pub destination_route: String,
    pub confidence: i32,
    pub source: String,
}

} // verus!
