//! Robots directives: reading directive lists into typed robots settings,
//! writing them back, and the open-graph and twitter defaults of a page.
use vstd::prelude::*;

use crate::dto::{
    default_robots_data, RobotsData, SeoDocument, SeoDocumentEffectiveState, SeoImageAsset, SeoMetaTag,
    SeoOpenGraph, SeoRobots, SeoTwitterCard,
};
use crate::json::JsonValue;
use crate::text::{
    append, lemma_views_push, lemma_views_take_next, chars_of, copy_strings, dec_int, insert_sorted_unique, lower, owned, parse_i32,
    parse_i32_str, push_dec_i64, skip_str, sorted_unique, starts_with, str_eq, str_starts_with,
    strictly_sorted, trim, trim_lower, views, is_ws, lower_char, trim_start, trim_end,
    lemma_trim_bounds, lemma_lower_idempotent, lemma_sorted_unique_contains,
    lemma_sorted_unique_sorted, lemma_sorted_unique_of_sorted, lemma_parse_dec_int,
};

verus! {

/// The token a directive stands for: trimmed and lower-cased.
pub open spec fn directive_token(d: Seq<char>) -> Seq<char> {
    lower(trim(d))
}

/// The value after the `name:` prefix of a directive.
pub open spec fn directive_value(tok: Seq<char>, prefix: Seq<char>) -> Seq<char> {
    tok.skip(prefix.len() as int)
}

/// The effect of one directive token on the robots settings.
pub open spec fn directive_step(r: RobotsData, tok: Seq<char>) -> RobotsData {
    if tok.len() == 0 {
        r
    } else if tok == "index"@ {
        RobotsData { index: true, ..r }
    } else if tok == "noindex"@ {
        RobotsData { index: false, ..r }
    } else if tok == "follow"@ {
        RobotsData { follow: true, ..r }
    } else if tok == "nofollow"@ {
        RobotsData { follow: false, ..r }
    } else if tok == "noarchive"@ {
        RobotsData { noarchive: true, ..r }
    } else if tok == "nosnippet"@ {
        RobotsData { nosnippet: true, ..r }
    } else if tok == "noimageindex"@ {
        RobotsData { noimageindex: true, ..r }
    } else if tok == "notranslate"@ {
        RobotsData { notranslate: true, ..r }
    } else if starts_with(tok, "max-snippet:"@) {
        RobotsData { max_snippet: parse_i32(directive_value(tok, "max-snippet:"@)), ..r }
    } else if starts_with(tok, "max-image-preview:"@) {
        let v = directive_value(tok, "max-image-preview:"@);
        RobotsData {
            max_image_preview: if v.len() == 0 {
                None
            } else {
                Some(v)
            },
            ..r
        }
    } else if starts_with(tok, "max-video-preview:"@) {
        RobotsData {
            max_video_preview: parse_i32(directive_value(tok, "max-video-preview:"@)),
            ..r
        }
    } else {
        RobotsData { custom: r.custom.push(tok), ..r }
    }
}

/// The directives applied in order to the default settings; custom
/// tokens are collected in order of appearance.
pub open spec fn fold_directives(ds: Seq<Seq<char>>) -> RobotsData
    decreases ds.len(),
{
    if ds.len() == 0 {
        default_robots_data()
    } else {
        directive_step(fold_directives(ds.drop_last()), directive_token(ds.last()))
    }
}

/// The typed robots settings of a directive list: the directives applied
/// in order, custom tokens sorted and without repeats.
pub open spec fn robots_of(ds: Seq<Seq<char>>) -> RobotsData {
    let f = fold_directives(ds);
    RobotsData { custom: sorted_unique(f.custom), ..f }
}

/// The directives that the typed flags and previews stand for, in the
/// fixed order `index`, `follow`, the flags, the previews.
pub open spec fn directive_head(r: RobotsData) -> Seq<Seq<char>> {
    let base = seq![
        if r.index {
            "index"@
        } else {
            "noindex"@
        },
        if r.follow {
            "follow"@
        } else {
            "nofollow"@
        },
    ];
    let a = if r.noarchive {
        base.push("noarchive"@)
    } else {
        base
    };
    let b = if r.nosnippet {
        a.push("nosnippet"@)
    } else {
        a
    };
    let c = if r.noimageindex {
        b.push("noimageindex"@)
    } else {
        b
    };
    let d = if r.notranslate {
        c.push("notranslate"@)
    } else {
        c
    };
    let e = match r.max_snippet {
        Some(v) => d.push("max-snippet:"@ + dec_int(v as int)),
        None => d,
    };
    let f = match r.max_image_preview {
        Some(v) => e.push("max-image-preview:"@ + v),
        None => e,
    };
    match r.max_video_preview {
        Some(v) => f.push("max-video-preview:"@ + dec_int(v as int)),
        None => f,
    }
}

/// The directive list of typed robots settings: the typed directives, then
/// the custom ones.
pub open spec fn directive_list(r: RobotsData) -> Seq<Seq<char>> {
    directive_head(r) + r.custom
}

/// Reads a directive list into typed robots settings.  Tokens are trimmed
/// and lower-cased, blank ones skipped; later directives override earlier
/// ones; unknown tokens are kept as custom directives, sorted, without
/// repeats.
pub fn robots_from_directives(directives: &Vec<String>) -> (r: SeoRobots)
    ensures
        r@ == robots_of(views(directives@)),
        strictly_sorted(r@.custom),
{
    let mut robots = SeoRobots::default();
    let mut i: usize = 0;
    while i < directives.len()
        invariant
            i <= directives.len(),
            ({
                let f = fold_directives(views(directives@.take(i as int)));
                robots@ == RobotsData { custom: sorted_unique(f.custom), ..f }
            }),
            strictly_sorted(robots@.custom),
        decreases directives.len() - i,
    {
        let ghost f0 = fold_directives(views(directives@.take(i as int)));
        proof {
            lemma_views_take_next(directives@, i as int);
        }
        let token = trim_lower(directives[i].as_str());
        let ghost tok = token@;
        assert(fold_directives(views(directives@.take(i as int + 1))) == directive_step(f0, tok));
        assert(f0.custom.push(tok).drop_last() =~= f0.custom);
        let t = token.as_str();
        if t.unicode_len() == 0 {
        } else if str_eq(t, "index") {
            robots.index = true;
        } else if str_eq(t, "noindex") {
            robots.index = false;
        } else if str_eq(t, "follow") {
            robots.follow = true;
        } else if str_eq(t, "nofollow") {
            robots.follow = false;
        } else if str_eq(t, "noarchive") {
            robots.noarchive = true;
        } else if str_eq(t, "nosnippet") {
            robots.nosnippet = true;
        } else if str_eq(t, "noimageindex") {
            robots.noimageindex = true;
        } else if str_eq(t, "notranslate") {
            robots.notranslate = true;
        } else if str_starts_with(t, "max-snippet:") {
            let n = chars_of("max-snippet:").len();
            let v = skip_str(t, n);
            robots.max_snippet = parse_i32_str(v.as_str());
        } else if str_starts_with(t, "max-image-preview:") {
            let n = chars_of("max-image-preview:").len();
            let v = skip_str(t, n);
            if v.as_str().unicode_len() == 0 {
                robots.max_image_preview = None;
            } else {
                robots.max_image_preview = Some(v);
            }
        } else if str_starts_with(t, "max-video-preview:") {
            let n = chars_of("max-video-preview:").len();
            let v = skip_str(t, n);
            robots.max_video_preview = parse_i32_str(v.as_str());
        } else {
            insert_sorted_unique(&mut robots.custom, token);
        }
        i = i + 1;
    }
    assert(directives@.take(directives.len() as int) =~= directives@);
    robots
}

fn push_flag(out: &mut Vec<String>, on: bool, name: &str)
    ensures
        views(final(out)@) == if on {
            views(old(out)@).push(name@)
        } else {
            views(old(out)@)
        },
{
    if on {
        let s = owned(name);
        proof {
            lemma_views_push(out@, s);
        }
        out.push(s);
    }
}

fn push_number(out: &mut Vec<String>, value: Option<i32>, prefix: &str)
    ensures
        views(final(out)@) == match value {
            Some(v) => views(old(out)@).push(prefix@ + dec_int(v as int)),
            None => views(old(out)@),
        },
{
    if let Some(v) = value {
        let mut s = owned(prefix);
        push_dec_i64(&mut s, v as i64);
        proof {
            lemma_views_push(out@, s);
        }
        out.push(s);
    }
}

fn directive_head_of(robots: &SeoRobots) -> (r: Vec<String>)
    ensures
        views(r@) == directive_head(robots@),
{
    let mut out: Vec<String> = Vec::new();
    let first = if robots.index {
        owned("index")
    } else {
        owned("noindex")
    };
    let second = if robots.follow {
        owned("follow")
    } else {
        owned("nofollow")
    };
    out.push(first);
    out.push(second);
    assert(views(out@) =~= seq![first@, second@]);
    push_flag(&mut out, robots.noarchive, "noarchive");
    push_flag(&mut out, robots.nosnippet, "nosnippet");
    push_flag(&mut out, robots.noimageindex, "noimageindex");
    push_flag(&mut out, robots.notranslate, "notranslate");
    push_number(&mut out, robots.max_snippet, "max-snippet:");
    if let Some(value) = &robots.max_image_preview {
        let mut s = owned("max-image-preview:");
        append(&mut s, value.as_str());
        proof {
            lemma_views_push(out@, s);
        }
        out.push(s);
    }
    push_number(&mut out, robots.max_video_preview, "max-video-preview:");
    out
}

/// Writes typed robots settings as a directive list: `index`/`noindex`,
/// `follow`/`nofollow`, the set flags, the previews, then the custom
/// directives.
pub fn robots_to_directives(robots: &SeoRobots) -> (r: Vec<String>)
    ensures
        views(r@) == directive_list(robots@),
{
    let mut out = directive_head_of(robots);
    let ghost head = views(out@);
    let custom = copy_strings(&robots.custom);
    let mut i: usize = 0;
    while i < custom.len()
        invariant
            i <= custom.len(),
            custom@ == robots.custom@,
            views(out@) == head + views(custom@.take(i as int)),
        decreases custom.len() - i,
    {
        let s = custom[i].clone();
        proof {
            lemma_views_push(out@, s);
            lemma_views_take_next(custom@, i as int);
        }
        out.push(s);
        i = i + 1;
        assert(views(out@) =~= head + views(custom@.take(i as int)));
    }
    assert(custom@.take(custom.len() as int) =~= custom@);
    out
}

/// The normal form of a directive list: read, then written back.
pub fn normalize_robots(defaults: &Vec<String>) -> (r: Vec<String>)
    ensures
        views(r@) == directive_list(robots_of(views(defaults@))),
{
    robots_to_directives(&robots_from_directives(defaults))
}

/// The default directives with `noindex` and `nofollow` forced where asked.
pub fn apply_robots(noindex: bool, nofollow: bool, defaults: &Vec<String>) -> (r: SeoRobots)
    ensures
        r@ == ({
            let base = robots_of(views(defaults@));
            RobotsData {
                index: base.index && !noindex,
                follow: base.follow && !nofollow,
                ..base
            }
        }),
{
    let mut robots = robots_from_directives(defaults);
    if noindex {
        robots.index = false;
    }
    if nofollow {
        robots.follow = false;
    }
    robots
}


// ---------------------------------------------------------------------------
// Open Graph, twitter and the document of a page
// ---------------------------------------------------------------------------

/// The image list of an optional image URL: one bare image for a URL that
/// is not blank, none otherwise.
pub open spec fn images_of_url(url: Option<String>) -> Seq<SeoImageAsset> {
    match url {
        Some(u) => if trim(u@).len() > 0 {
            seq![SeoImageAsset { url: u, alt: None, width: None, height: None, mime_type: None }]
        } else {
            Seq::empty()
        },
        None => Seq::empty(),
    }
}

/// The image list of an optional image URL (see `images_of_url`).
pub fn image_assets_from_optional_url(url: Option<String>) -> (r: Vec<SeoImageAsset>)
    ensures
        r@ == images_of_url(url),
{
    let mut r: Vec<SeoImageAsset> = Vec::new();
    match url {
        Some(u) => {
            if !crate::text::is_blank(u.as_str()) {
                r.push(SeoImageAsset { url: u, alt: None, width: None, height: None, mime_type: None });
            }
        },
        None => {},
    }
    assert(r@ =~= images_of_url(url));
    r
}

/// The URL of the first Open Graph image whose URL is not blank.
pub fn first_open_graph_image_url(open_graph: &SeoOpenGraph) -> (r: Option<String>)
    ensures
        r is None <==> forall|i: int| 0 <= i < open_graph.images@.len() ==> trim(#[trigger] open_graph.images@[i].url@).len() == 0,
        r matches Some(u) ==> exists|i: int| 0 <= i < open_graph.images@.len() && u == open_graph.images@[i].url && trim(u@).len() > 0 && forall|j: int| 0 <= j < i ==> trim(#[trigger] open_graph.images@[j].url@).len() == 0,
{
    let mut i: usize = 0;
    while i < open_graph.images.len()
        invariant
            i <= open_graph.images.len(),
            forall|j: int| 0 <= j < i ==> trim(#[trigger] open_graph.images@[j].url@).len() == 0,
        decreases open_graph.images.len() - i,
    {
        if !crate::text::is_blank(open_graph.images[i].url.as_str()) {
            return Some(open_graph.images[i].url.clone());
        }
        i = i + 1;
    }
    None
}

/// Open Graph metadata over a fallback: the given title and description
/// win over the fallback's, a given image URL replaces the images, and the
/// URL and locale are the canonical URL and the effective locale.
pub fn merge_open_graph(
    fallback: &SeoOpenGraph,
    title: Option<String>,
    description: Option<String>,
    image_url: Option<String>,
    canonical_url: &str,
    effective_locale: &str,
) -> (r: SeoOpenGraph)
    ensures
        r.title == if title is Some {
            title
        } else {
            fallback.title
        },
        r.description == if description is Some {
            description
        } else {
            fallback.description
        },
        r.kind == fallback.kind,
        r.site_name == fallback.site_name,
        r.images@ == if image_url is Some {
            images_of_url(image_url)
        } else {
            fallback.images@
        },
        crate::text::opt_view(r.url) == Some(canonical_url@),
        crate::text::opt_view(r.locale) == Some(effective_locale@),
{
    let mut og = fallback.copy();
    if title.is_some() {
        og.title = title;
    }
    if description.is_some() {
        og.description = description;
    }
    if image_url.is_some() {
        og.images = image_assets_from_optional_url(image_url);
    }
    og.url = Some(owned(canonical_url));
    og.locale = Some(owned(effective_locale));
    og
}

/// The twitter card of Open Graph metadata: a large-image summary when
/// there are images, the same title, description and images, no site or
/// creator.
pub fn twitter_from_open_graph(open_graph: &SeoOpenGraph) -> (r: SeoTwitterCard)
    ensures
        crate::text::opt_view(r.card) == Some(
            if open_graph.images@.len() == 0 {
                "summary"@
            } else {
                "summary_large_image"@
            },
        ),
        r.title == open_graph.title,
        r.description == open_graph.description,
        r.site is None,
        r.creator is None,
        r.images@ == open_graph.images@,
{
    SeoTwitterCard {
        card: Some(
            if open_graph.images.len() == 0 {
                owned("summary")
            } else {
                owned("summary_large_image")
            },
        ),
        title: crate::text::copy_opt(&open_graph.title),
        description: crate::text::copy_opt(&open_graph.description),
        site: None,
        creator: None,
        images: crate::dto::copy_images(&open_graph.images),
    }
}


/// Open Graph metadata completed with the canonical URL and the effective
/// locale where it has none.
pub open spec fn completed_open_graph(og: SeoOpenGraph, canonical_url: Seq<char>, locale: Seq<char>) -> (Option<Seq<char>>, Option<Seq<char>>) {
    (
        if og.url is Some {
            crate::text::opt_view(og.url)
        } else {
            Some(canonical_url)
        },
        if og.locale is Some {
            crate::text::opt_view(og.locale)
        } else {
            Some(locale)
        },
    )
}

/// The SEO document of a page from its resolved parts: Open Graph
/// completed with the canonical URL and locale, a twitter card derived
/// from it with the given twitter texts winning, a keywords meta tag when
/// the keywords are not blank, and the typed blocks of the structured data.
pub fn build_document(
    title: String,
    description: Option<String>,
    robots: SeoRobots,
    open_graph: Option<SeoOpenGraph>,
    structured_data: &JsonValue,
    keywords: Option<String>,
    canonical_url: &str,
    effective_locale: &str,
    effective_state: SeoDocumentEffectiveState,
    twitter_title: Option<String>,
    twitter_description: Option<String>,
) -> (r: SeoDocument)
    ensures
        r.title == title,
        r.description == description,
        r.robots == robots,
        match (r.open_graph, open_graph) {
            (Some(o), Some(g)) => {
                &&& (crate::text::opt_view(o.url), crate::text::opt_view(o.locale)) == completed_open_graph(g, canonical_url@, effective_locale@)
                &&& o.title == g.title
                &&& o.description == g.description
                &&& o.kind == g.kind
                &&& o.site_name == g.site_name
                &&& o.images@ == g.images@
            },
            (None, None) => true,
            _ => false,
        },
        match (r.twitter, open_graph) {
            (Some(t), Some(g)) => {
                &&& crate::text::opt_view(t.card) == Some(
                    if g.images@.len() == 0 {
                        "summary"@
                    } else {
                        "summary_large_image"@
                    },
                )
                &&& t.title == if twitter_title is Some {
                    twitter_title
                } else {
                    g.title
                }
                &&& t.description == if twitter_description is Some {
                    twitter_description
                } else {
                    g.description
                }
                &&& t.site is None
                &&& t.creator is None
                &&& t.images@ == g.images@
            },
            (None, None) => true,
            _ => false,
        },
        r.verification is None,
        r.pagination is None,
        r.link_tags@.len() == 0,
        r.meta_tags@.len() == match keywords {
            Some(k) => if trim(k@).len() > 0 {
                1int
            } else {
                0int
            },
            None => 0int,
        },
        r.meta_tags@.len() == 1 ==> {
            &&& crate::text::opt_view(r.meta_tags@[0].name) == Some("keywords"@)
            &&& r.meta_tags@[0].property is None
            &&& r.meta_tags@[0].http_equiv is None
            &&& keywords == Some(r.meta_tags@[0].content)
        },
        crate::dto::blocks_view(r.structured_data_blocks@) == crate::schema::collect_blocks(
            structured_data@,
            crate::schema::top_context(structured_data@),
            effective_state.structured_data.source,
        ),
        r.effective_state == effective_state,
{
    let open_graph = match open_graph {
        Some(mut og) => {
            if og.url.is_none() {
                og.url = Some(owned(canonical_url));
            }
            if og.locale.is_none() {
                og.locale = Some(owned(effective_locale));
            }
            Some(og)
        },
        None => None,
    };
    let twitter = match &open_graph {
        Some(og) => {
            let mut t = twitter_from_open_graph(og);
            if twitter_title.is_some() {
                t.title = twitter_title;
            }
            if twitter_description.is_some() {
                t.description = twitter_description;
            }
            Some(t)
        },
        None => None,
    };
    let mut meta_tags: Vec<SeoMetaTag> = Vec::new();
    match keywords {
        Some(k) => {
            if !crate::text::is_blank(k.as_str()) {
                meta_tags.push(
                    SeoMetaTag { name: Some(owned("keywords")), property: None, http_equiv: None, content: k },
                );
            }
        },
        None => {},
    }
    SeoDocument {
        title,
        description,
        robots,
        open_graph,
        twitter,
        verification: None,
        pagination: None,
        structured_data_blocks: crate::schema::schema_blocks_from_value(
            structured_data,
            effective_state.structured_data.source,
        ),
        meta_tags,
        link_tags: Vec::new(),
        effective_state,
    }
}


// ---------------------------------------------------------------------------
// Normal forms
// ---------------------------------------------------------------------------

/// A character that trimming and lower-casing leave alone in a directive
/// name: a lower-case ASCII letter, a digit, `-` or `:`.
pub open spec fn plain_char(c: char) -> bool {
    ('a' <= c && c <= 'z') || ('0' <= c && c <= '9') || c == '-' || c == ':'
}

/// Every character of the text is plain.
pub open spec fn all_plain(t: Seq<char>) -> bool {
    forall|i: int| 0 <= i < t.len() ==> plain_char(#[trigger] t[i])
}

proof fn lemma_trim_fixed(t: Seq<char>)
    requires
        t.len() == 0 || (!is_ws(t[0]) && !is_ws(t.last())),
    ensures
        trim(t) == t,
{
    assert(trim_start(t) == t);
    assert(trim_end(t) == t);
}

proof fn lemma_plain_token(t: Seq<char>)
    requires
        t.len() > 0,
        all_plain(t),
    ensures
        directive_token(t) == t,
{
    assert(plain_char(t[0]));
    assert(plain_char(t[t.len() - 1]));
    lemma_trim_fixed(t);
    assert(lower(t) =~= t) by {
        assert forall|i: int| 0 <= i < t.len() implies lower_char(t[i]) == t[i] by {
            assert(plain_char(t[i]));
        }
    }
}



/// A directive token is its own token: trimming and lower-casing it again
/// changes nothing.
proof fn lemma_token_idempotent(d: Seq<char>)
    ensures
        directive_token(directive_token(d)) == directive_token(d),
{
    let t = trim(d);
    lemma_trim_bounds(d);
    let l = lower(t);
    if t.len() > 0 {
        assert(l[0] == lower_char(t[0]));
        assert(l[l.len() - 1] == lower_char(t[t.len() - 1]));
    }
    lemma_trim_fixed(l);
    lemma_lower_idempotent(t);
}

/// A token that no typed directive claims: kept as a custom directive.
pub open spec fn is_custom_token(t: Seq<char>) -> bool {
    &&& t.len() > 0
    &&& t != "index"@
    &&& t != "noindex"@
    &&& t != "follow"@
    &&& t != "nofollow"@
    &&& t != "noarchive"@
    &&& t != "nosnippet"@
    &&& t != "noimageindex"@
    &&& t != "notranslate"@
    &&& !starts_with(t, "max-snippet:"@)
    &&& !starts_with(t, "max-image-preview:"@)
    &&& !starts_with(t, "max-video-preview:"@)
}

/// What every read of directives keeps: custom directives are custom
/// tokens in normal form, and an image preview is a non-empty value whose
/// directive is in normal form.
pub open spec fn directives_read(r: RobotsData) -> bool {
    &&& forall|i: int|
        0 <= i < r.custom.len() ==> is_custom_token(#[trigger] r.custom[i]) && directive_token(
            r.custom[i],
        ) == r.custom[i]
    &&& r.max_image_preview matches Some(v) ==> v.len() > 0 && directive_token(
        "max-image-preview:"@ + v,
    ) == "max-image-preview:"@ + v
}

proof fn lemma_fold_read(ds: Seq<Seq<char>>)
    ensures
        directives_read(fold_directives(ds)),
    decreases ds.len(),
{
    if ds.len() > 0 {
        lemma_fold_read(ds.drop_last());
        let f0 = fold_directives(ds.drop_last());
        let tok = directive_token(ds.last());
        lemma_token_idempotent(ds.last());
        let f = fold_directives(ds);
        assert(f == directive_step(f0, tok));
        reveal_strlit("max-image-preview:");
        if starts_with(tok, "max-image-preview:"@) {
            assert("max-image-preview:"@ + directive_value(tok, "max-image-preview:"@) =~= tok);
        }
        assert forall|i: int| 0 <= i < f.custom.len() implies is_custom_token(#[trigger] f.custom[i])
            && directive_token(f.custom[i]) == f.custom[i] by {
            if i < f0.custom.len() {
                assert(f.custom[i] == f0.custom[i]);
            }
        }
    }
}

/// The read of a directive list satisfies `directives_read`, and its custom
/// directives are strictly ascending.
proof fn lemma_robots_of_read(ds: Seq<Seq<char>>)
    ensures
        directives_read(robots_of(ds)),
        strictly_sorted(robots_of(ds).custom),
{
    let f = fold_directives(ds);
    lemma_fold_read(ds);
    lemma_sorted_unique_contains(f.custom);
    lemma_sorted_unique_sorted(f.custom);
    let c = sorted_unique(f.custom);
    assert forall|i: int| 0 <= i < c.len() implies is_custom_token(#[trigger] c[i]) && directive_token(c[i])
        == c[i] by {
        assert(c.contains(c[i]));
        assert(f.custom.contains(c[i]));
        let k = choose|k: int| 0 <= k < f.custom.len() && f.custom[k] == c[i];
    }
}

proof fn lemma_fold_push(ds: Seq<Seq<char>>, d: Seq<char>)
    ensures
        fold_directives(ds.push(d)) == directive_step(fold_directives(ds), directive_token(d)),
{
    assert(ds.push(d).drop_last() =~= ds);
}

proof fn lemma_fold_custom_tail(h: Seq<Seq<char>>, c: Seq<Seq<char>>)
    requires
        forall|i: int| 0 <= i < c.len() ==> is_custom_token(#[trigger] c[i]) && directive_token(c[i]) == c[i],
    ensures
        fold_directives(h + c) == (RobotsData { custom: fold_directives(h).custom + c, ..fold_directives(h) }),
    decreases c.len(),
{
    if c.len() == 0 {
        assert(h + c =~= h);
        assert(fold_directives(h).custom + c =~= fold_directives(h).custom);
    } else {
        let c2 = c.drop_last();
        assert forall|i: int| 0 <= i < c2.len() implies is_custom_token(#[trigger] c2[i]) && directive_token(c2[i])
            == c2[i] by {
            assert(c2[i] == c[i]);
        }
        lemma_fold_custom_tail(h, c2);
        assert(h + c =~= (h + c2).push(c.last()));
        lemma_fold_push(h + c2, c.last());
        assert(is_custom_token(c[c.len() - 1]));
        assert(fold_directives(h).custom + c2 + seq![c.last()] =~= fold_directives(h).custom + c);
        assert((fold_directives(h).custom + c2).push(c.last()) =~= fold_directives(h).custom + c);
    }
}

proof fn lemma_literal_token(t: Seq<char>)
    requires
        t.len() > 0,
        all_plain(t),
    ensures
        directive_token(t) == t,
{
    lemma_plain_token(t);
}

proof fn lemma_number_token(prefix: Seq<char>, v: i32)
    requires
        prefix.len() > 0,
        all_plain(prefix),
    ensures
        directive_token(prefix + dec_int(v as int)) == prefix + dec_int(v as int),
        directive_value(prefix + dec_int(v as int), prefix) == dec_int(v as int),
        starts_with(prefix + dec_int(v as int), prefix),
        parse_i32(dec_int(v as int)) == Some(v),
{
    let t = prefix + dec_int(v as int);
    lemma_parse_dec_int(v);
    assert forall|i: int| 0 <= i < t.len() implies plain_char(#[trigger] t[i]) by {
        if i >= prefix.len() {
            assert(t[i] == dec_int(v as int)[i - prefix.len()]);
        } else {
            assert(t[i] == prefix[i]);
        }
    }
    lemma_plain_token(t);
    assert(t.skip(prefix.len() as int) =~= dec_int(v as int));
    assert(t.subrange(0, prefix.len() as int) =~= prefix);
}

proof fn lemma_keyword_tokens()
    ensures
        directive_token("index"@) == "index"@,
        directive_token("noindex"@) == "noindex"@,
        directive_token("follow"@) == "follow"@,
        directive_token("nofollow"@) == "nofollow"@,
        directive_token("noarchive"@) == "noarchive"@,
        directive_token("nosnippet"@) == "nosnippet"@,
        directive_token("noimageindex"@) == "noimageindex"@,
        directive_token("notranslate"@) == "notranslate"@,
{
    reveal_strlit("index");
    reveal_strlit("noindex");
    reveal_strlit("follow");
    reveal_strlit("nofollow");
    reveal_strlit("noarchive");
    reveal_strlit("nosnippet");
    reveal_strlit("noimageindex");
    reveal_strlit("notranslate");
    lemma_literal_token("index"@);
    lemma_literal_token("noindex"@);
    lemma_literal_token("follow"@);
    lemma_literal_token("nofollow"@);
    lemma_literal_token("noarchive"@);
    lemma_literal_token("nosnippet"@);
    lemma_literal_token("noimageindex"@);
    lemma_literal_token("notranslate"@);
}

proof fn lemma_keyword_steps(r: RobotsData)
    ensures
        directive_step(r, "index"@) == (RobotsData { index: true, ..r }),
        directive_step(r, "noindex"@) == (RobotsData { index: false, ..r }),
        directive_step(r, "follow"@) == (RobotsData { follow: true, ..r }),
        directive_step(r, "nofollow"@) == (RobotsData { follow: false, ..r }),
        directive_step(r, "noarchive"@) == (RobotsData { noarchive: true, ..r }),
        directive_step(r, "nosnippet"@) == (RobotsData { nosnippet: true, ..r }),
        directive_step(r, "noimageindex"@) == (RobotsData { noimageindex: true, ..r }),
        directive_step(r, "notranslate"@) == (RobotsData { notranslate: true, ..r }),
{
    reveal_strlit("index");
    reveal_strlit("noindex");
    reveal_strlit("follow");
    reveal_strlit("nofollow");
    reveal_strlit("noarchive");
    reveal_strlit("nosnippet");
    reveal_strlit("noimageindex");
    reveal_strlit("notranslate");
    assert("noindex"@ != "index"@);
    assert("follow"@[0] != "index"@[0] && "follow"@[0] != "noindex"@[0]);
    assert("nofollow"@.len() != "index"@.len() && "nofollow"@.len() != "noindex"@.len() && "nofollow"@[0] != "follow"@[0]);
    assert("noarchive"@.len() != "index"@.len() && "noarchive"@.len() != "noindex"@.len() && "noarchive"@[0] != "follow"@[0] && "noarchive"@.len() != "nofollow"@.len());
    assert("nosnippet"@.len() != "index"@.len() && "nosnippet"@.len() != "noindex"@.len() && "nosnippet"@[0] != "follow"@[0] && "nosnippet"@.len() != "nofollow"@.len() && "nosnippet"@[2] != "noarchive"@[2]);
    assert("noimageindex"@.len() != "index"@.len() && "noimageindex"@.len() != "noindex"@.len() && "noimageindex"@[0] != "follow"@[0] && "noimageindex"@.len() != "nofollow"@.len() && "noimageindex"@.len() != "noarchive"@.len() && "noimageindex"@.len() != "nosnippet"@.len());
    assert("notranslate"@.len() != "index"@.len() && "notranslate"@.len() != "noindex"@.len() && "notranslate"@[0] != "follow"@[0] && "notranslate"@.len() != "nofollow"@.len() && "notranslate"@.len() != "noarchive"@.len() && "notranslate"@.len() != "nosnippet"@.len() && "notranslate"@.len() != "noimageindex"@.len());
}

/// A token that starts with `m` is none of the keywords.
proof fn lemma_m_token_not_keyword(t: Seq<char>)
    requires
        t.len() > 0,
        t[0] == 'm',
    ensures
        t != "index"@,
        t != "noindex"@,
        t != "follow"@,
        t != "nofollow"@,
        t != "noarchive"@,
        t != "nosnippet"@,
        t != "noimageindex"@,
        t != "notranslate"@,
{
    reveal_strlit("index");
    reveal_strlit("noindex");
    reveal_strlit("follow");
    reveal_strlit("nofollow");
    reveal_strlit("noarchive");
    reveal_strlit("nosnippet");
    reveal_strlit("noimageindex");
    reveal_strlit("notranslate");
}

proof fn lemma_snippet_step(r: RobotsData, v: i32)
    ensures
        directive_token("max-snippet:"@ + dec_int(v as int)) == "max-snippet:"@ + dec_int(v as int),
        directive_step(r, "max-snippet:"@ + dec_int(v as int)) == (RobotsData { max_snippet: Some(v), ..r }),
{
    reveal_strlit("max-snippet:");
    lemma_number_token("max-snippet:"@, v);
    let t = "max-snippet:"@ + dec_int(v as int);
    assert(t[0] == 'm');
    lemma_m_token_not_keyword(t);
}

proof fn lemma_image_step(r: RobotsData, v: Seq<char>)
    requires
        v.len() > 0,
    ensures
        directive_step(r, "max-image-preview:"@ + v) == (RobotsData { max_image_preview: Some(v), ..r }),
{
    reveal_strlit("max-snippet:");
    reveal_strlit("max-image-preview:");
    let t = "max-image-preview:"@ + v;
    assert(t[0] == 'm');
    assert(t[4] == 'i');
    lemma_m_token_not_keyword(t);
    assert(t.subrange(0, 18) =~= "max-image-preview:"@);
    assert(t.skip(18) =~= v);
    if starts_with(t, "max-snippet:"@) {
        assert(t.subrange(0, 12)[4] == t[4]);
    }
}

proof fn lemma_video_step(r: RobotsData, v: i32)
    ensures
        directive_token("max-video-preview:"@ + dec_int(v as int)) == "max-video-preview:"@ + dec_int(v as int),
        directive_step(r, "max-video-preview:"@ + dec_int(v as int)) == (RobotsData { max_video_preview: Some(v), ..r }),
{
    reveal_strlit("max-snippet:");
    reveal_strlit("max-image-preview:");
    reveal_strlit("max-video-preview:");
    lemma_number_token("max-video-preview:"@, v);
    let t = "max-video-preview:"@ + dec_int(v as int);
    assert(t[0] == 'm');
    assert(t[4] == 'v');
    lemma_m_token_not_keyword(t);
    if starts_with(t, "max-snippet:"@) {
        assert(t.subrange(0, 12)[4] == t[4]);
    }
    if starts_with(t, "max-image-preview:"@) {
        assert(t.subrange(0, 18)[4] == t[4]);
    }
}

/// Reading the typed part of a directive list back gives the typed
/// settings, with no custom directive.
proof fn lemma_fold_head(r: RobotsData)
    requires
        directives_read(r),
    ensures
        fold_directives(directive_head(r)) == (RobotsData { custom: Seq::empty(), ..r }),
{
    lemma_keyword_tokens();
    let d0 = default_robots_data();
    let i_tok = if r.index {
        "index"@
    } else {
        "noindex"@
    };
    let f_tok = if r.follow {
        "follow"@
    } else {
        "nofollow"@
    };
    let base = seq![i_tok, f_tok];
    assert(seq![i_tok] =~= Seq::<Seq<char>>::empty().push(i_tok));
    lemma_fold_push(Seq::empty(), i_tok);
    lemma_keyword_steps(d0);
    let f1 = fold_directives(seq![i_tok]);
    assert(f1 == RobotsData { index: r.index, ..d0 });
    assert(base =~= seq![i_tok].push(f_tok));
    lemma_fold_push(seq![i_tok], f_tok);
    lemma_keyword_steps(f1);
    let fb = fold_directives(base);
    assert(fb == RobotsData { index: r.index, follow: r.follow, ..d0 });
    let a = if r.noarchive {
        base.push("noarchive"@)
    } else {
        base
    };
    lemma_fold_push(base, "noarchive"@);
    lemma_keyword_steps(fb);
    let fa = fold_directives(a);
    assert(fa == RobotsData { noarchive: r.noarchive, ..fb });
    let b = if r.nosnippet {
        a.push("nosnippet"@)
    } else {
        a
    };
    lemma_fold_push(a, "nosnippet"@);
    lemma_keyword_steps(fa);
    let fbb = fold_directives(b);
    assert(fbb == RobotsData { nosnippet: r.nosnippet, ..fa });
    let c = if r.noimageindex {
        b.push("noimageindex"@)
    } else {
        b
    };
    lemma_fold_push(b, "noimageindex"@);
    lemma_keyword_steps(fbb);
    let fc = fold_directives(c);
    assert(fc == RobotsData { noimageindex: r.noimageindex, ..fbb });
    let d = if r.notranslate {
        c.push("notranslate"@)
    } else {
        c
    };
    lemma_fold_push(c, "notranslate"@);
    lemma_keyword_steps(fc);
    let fd = fold_directives(d);
    assert(fd == RobotsData { notranslate: r.notranslate, ..fc });
    let e = match r.max_snippet {
        Some(v) => d.push("max-snippet:"@ + dec_int(v as int)),
        None => d,
    };
    if let Some(v) = r.max_snippet {
        lemma_snippet_step(fd, v);
        lemma_fold_push(d, "max-snippet:"@ + dec_int(v as int));
    }
    let fe = fold_directives(e);
    assert(fe == RobotsData { max_snippet: r.max_snippet, ..fd });
    let f = match r.max_image_preview {
        Some(v) => e.push("max-image-preview:"@ + v),
        None => e,
    };
    if let Some(v) = r.max_image_preview {
        lemma_image_step(fe, v);
        lemma_fold_push(e, "max-image-preview:"@ + v);
    }
    let ff = fold_directives(f);
    assert(ff == RobotsData { max_image_preview: r.max_image_preview, ..fe });
    let g = match r.max_video_preview {
        Some(v) => f.push("max-video-preview:"@ + dec_int(v as int)),
        None => f,
    };
    if let Some(v) = r.max_video_preview {
        lemma_video_step(ff, v);
        lemma_fold_push(f, "max-video-preview:"@ + dec_int(v as int));
    }
    assert(g == directive_head(r));
    assert(fold_directives(g) == RobotsData { custom: Seq::empty(), ..r });
}

/// Normalizing a directive list twice gives what normalizing it once
/// gives: the normal form reads back to the same typed settings.
pub proof fn lemma_normalize_robots_idempotent(ds: Seq<Seq<char>>)
    ensures
        robots_of(directive_list(robots_of(ds))) == robots_of(ds),
        directive_list(robots_of(directive_list(robots_of(ds)))) == directive_list(robots_of(ds)),
{
    let r = robots_of(ds);
    lemma_robots_of_read(ds);
    lemma_fold_head(r);
    lemma_fold_custom_tail(directive_head(r), r.custom);
    assert(Seq::<Seq<char>>::empty() + r.custom =~= r.custom);
    lemma_sorted_unique_of_sorted(r.custom);
}

} // verus!
