//! Server-side rendering of the `<head>` tags of a page from its SEO
//! context, with a deterministic order of every repeated tag.
use vstd::prelude::*;

use crate::dto::{
    SeoAlternateLink, SeoDocument, SeoImageAsset, SeoLinkTag, SeoMetaTag, SeoOpenGraph,
    SeoPageContext, SeoPagination, SeoRobots, SeoRouteContext, SeoStructuredDataBlock,
    SeoTwitterCard, SeoVerification, SeoVerificationTag,
};
use crate::json::{json_view, serialized_json, to_json_text};
use crate::order::{flag_key, index_seq, key_sort, keys_view, opt_key, pick_keys, sort_order};
use crate::robots::{directive_list, robots_to_directives};
use crate::text::{
    append, concat, dec_int, is_blank, join, join_strings, lemma_concat_push, opt_view, owned,
    push_dec_i64, trim, views,
};

verus! {

// ---------------------------------------------------------------------------
// Escaping and tag pieces
// ---------------------------------------------------------------------------

/// The HTML escape of one character: `&`, `<`, `>`, `"` and `'` become
/// entities.
pub open spec fn escape_char(c: char) -> Seq<char> {
    if c == '&' {
        "&amp;"@
    } else if c == '<' {
        "&lt;"@
    } else if c == '>' {
        "&gt;"@
    } else if c == '"' {
        "&quot;"@
    } else if c == '\'' {
        "&#39;"@
    } else {
        seq![c]
    }
}

/// The HTML escape of a text, for element content and attribute values.
pub open spec fn escaped(s: Seq<char>) -> Seq<char>
    decreases s.len(),
{
    if s.len() == 0 {
        Seq::empty()
    } else {
        escaped(s.drop_last()) + escape_char(s.last())
    }
}

/// `prefix`, the escaped value, `suffix`.
pub open spec fn wrap(prefix: Seq<char>, value: Seq<char>, suffix: Seq<char>) -> Seq<char> {
    prefix + escaped(value) + suffix
}

/// `prefix`, escaped `a`, `mid`, escaped `b`, `suffix`.
pub open spec fn wrap2(
    prefix: Seq<char>,
    a: Seq<char>,
    mid: Seq<char>,
    b: Seq<char>,
    suffix: Seq<char>,
) -> Seq<char> {
    prefix + escaped(a) + mid + escaped(b) + suffix
}

/// `wrap` of a value when there is one.
pub open spec fn opt_wrap(prefix: Seq<char>, value: Option<Seq<char>>, suffix: Seq<char>) -> Seq<
    char,
> {
    match value {
        Some(v) => wrap(prefix, v, suffix),
        None => Seq::empty(),
    }
}

/// Appends the HTML escape of a text.
pub fn push_escaped(out: &mut String, text: &str)
    ensures
        final(out)@ == old(out)@ + escaped(text@),
{
    let chars = crate::text::chars_of(text);
    let mut i: usize = 0;
    while i < chars.len()
        invariant
            i <= chars.len(),
            chars@ == text@,
            out@ == old(out)@ + escaped(text@.take(i as int)),
        decreases chars.len() - i,
    {
        let c = chars[i];
        let ghost before = out@;
        if c == '&' {
            append(out, "&amp;");
        } else if c == '<' {
            append(out, "&lt;");
        } else if c == '>' {
            append(out, "&gt;");
        } else if c == '"' {
            append(out, "&quot;");
        } else if c == '\'' {
            append(out, "&#39;");
        } else {
            out.push(c);
        }
        proof {
            assert(out@ =~= before + escape_char(c));
            assert(text@.take(i as int + 1).drop_last() =~= text@.take(i as int));
        }
        i = i + 1;
    }
    assert(text@.take(chars.len() as int) =~= text@);
}

/// The HTML escape of a text.
pub fn html_escape(text: &str) -> (r: String)
    ensures
        r@ == escaped(text@),
{
    let mut out = String::new();
    push_escaped(&mut out, text);
    assert(out@ =~= escaped(text@));
    out
}

fn push_wrap(out: &mut String, prefix: &str, value: &str, suffix: &str)
    ensures
        final(out)@ == old(out)@ + wrap(prefix@, value@, suffix@),
{
    append(out, prefix);
    push_escaped(out, value);
    append(out, suffix);
    assert(out@ =~= old(out)@ + wrap(prefix@, value@, suffix@));
}

fn push_wrap2(out: &mut String, prefix: &str, a: &str, mid: &str, b: &str, suffix: &str)
    ensures
        final(out)@ == old(out)@ + wrap2(prefix@, a@, mid@, b@, suffix@),
{
    append(out, prefix);
    push_escaped(out, a);
    append(out, mid);
    push_escaped(out, b);
    append(out, suffix);
    assert(out@ =~= old(out)@ + wrap2(prefix@, a@, mid@, b@, suffix@));
}

fn push_opt_wrap(out: &mut String, prefix: &str, value: &Option<String>, suffix: &str)
    ensures
        final(out)@ == old(out)@ + opt_wrap(prefix@, opt_view(*value), suffix@),
{
    match value {
        Some(v) => push_wrap(out, prefix, v.as_str(), suffix),
        None => {
            assert(out@ =~= old(out)@ + opt_wrap(prefix@, opt_view(*value), suffix@));
        },
    }
}

// ---------------------------------------------------------------------------
// The parts of the head
// ---------------------------------------------------------------------------

/// The description meta tag, when the description is not blank.
pub open spec fn description_html(d: SeoDocument) -> Seq<char> {
    match d.description {
        Some(text) => if trim(text@).len() > 0 {
            wrap("<meta name=\"description\" content=\""@, text@, "\" />"@)
        } else {
            Seq::empty()
        },
        None => Seq::empty(),
    }
}

/// The canonical link, when the canonical URL is not blank.
pub open spec fn canonical_html(r: SeoRouteContext) -> Seq<char> {
    if trim(r.canonical_url@).len() > 0 {
        wrap("<link rel=\"canonical\" href=\""@, r.canonical_url@, "\" />"@)
    } else {
        Seq::empty()
    }
}

/// The robots meta tag with the directives joined by `, `.
pub open spec fn robots_html(robots: SeoRobots) -> Seq<char> {
    let ds = directive_list(robots@);
    if ds.len() > 0 {
        wrap("<meta name=\"robots\" content=\""@, join(ds, ", "@), "\" />"@)
    } else {
        Seq::empty()
    }
}

/// The sort key of an alternate: locale, href, then the x-default flag.
pub open spec fn alternate_key(a: SeoAlternateLink) -> Seq<Seq<char>> {
    seq![a.locale@, a.href@, flag_key(a.x_default)]
}

/// The tag of an alternate.
pub open spec fn alternate_tag(a: SeoAlternateLink) -> Seq<char> {
    wrap2("<link rel=\"alternate\" hreflang=\""@, a.locale@, "\" href=\""@, a.href@, "\" />"@)
}

/// The keys of alternates.
pub open spec fn alternate_keys(alts: Seq<SeoAlternateLink>) -> Seq<Seq<Seq<char>>> {
    alts.map_values(|a: SeoAlternateLink| alternate_key(a))
}

/// The tags of alternates taken in the given order.
pub open spec fn alternate_tags(alts: Seq<SeoAlternateLink>, order: Seq<int>) -> Seq<Seq<char>> {
    order.map_values(|i: int| alternate_tag(alts[i]))
}

/// The alternate links in key order.
pub open spec fn alternates_html(alts: Seq<SeoAlternateLink>) -> Seq<char> {
    concat(alternate_tags(alts, key_sort(alternate_keys(alts), alts.len() as int)))
}

/// A numeric image dimension tag, when the dimension is set.
pub open spec fn dim_tag(prefix: Seq<char>, value: Option<i32>) -> Seq<char> {
    match value {
        Some(v) => prefix + dec_int(v as int) + "\" />"@,
        None => Seq::empty(),
    }
}

/// The URL and alt tags of an Open Graph image.
pub open spec fn og_image_main(img: SeoImageAsset) -> Seq<char> {
    wrap("<meta property=\"og:image\" content=\""@, img.url@, "\" />"@) + opt_wrap(
        "<meta property=\"og:image:alt\" content=\""@,
        opt_view(img.alt),
        "\" />"@,
    )
}

/// The width and height tags of an Open Graph image.
pub open spec fn og_image_dims(img: SeoImageAsset) -> Seq<char> {
    dim_tag("<meta property=\"og:image:width\" content=\""@, img.width) + dim_tag(
        "<meta property=\"og:image:height\" content=\""@,
        img.height,
    )
}

/// The tags of one Open Graph image.
pub open spec fn og_image_html(img: SeoImageAsset) -> Seq<char> {
    og_image_main(img) + og_image_dims(img) + opt_wrap(
        "<meta property=\"og:image:type\" content=\""@,
        opt_view(img.mime_type),
        "\" />"@,
    )
}

/// The title, description and type tags of Open Graph metadata.
pub open spec fn og_props_a(og: SeoOpenGraph) -> Seq<char> {
    opt_wrap("<meta property=\"og:title\" content=\""@, opt_view(og.title), "\" />"@) + opt_wrap(
        "<meta property=\"og:description\" content=\""@,
        opt_view(og.description),
        "\" />"@,
    ) + opt_wrap("<meta property=\"og:type\" content=\""@, opt_view(og.kind), "\" />"@)
}

/// The site name, URL and locale tags of Open Graph metadata.
pub open spec fn og_props_b(og: SeoOpenGraph) -> Seq<char> {
    opt_wrap("<meta property=\"og:site_name\" content=\""@, opt_view(og.site_name), "\" />"@)
        + opt_wrap("<meta property=\"og:url\" content=\""@, opt_view(og.url), "\" />"@) + opt_wrap(
        "<meta property=\"og:locale\" content=\""@,
        opt_view(og.locale),
        "\" />"@,
    )
}

/// The Open Graph tags: the set properties in fixed order, then the images
/// in order.
pub open spec fn open_graph_html(og: SeoOpenGraph) -> Seq<char> {
    og_props_a(og) + og_props_b(og) + concat(og_image_parts(og.images@))
}

/// The tags of Open Graph images, in order.
pub open spec fn og_image_parts(imgs: Seq<SeoImageAsset>) -> Seq<Seq<char>> {
    imgs.map_values(|img: SeoImageAsset| og_image_html(img))
}

/// The twitter image tag of one image.
pub open spec fn twitter_image_html(img: SeoImageAsset) -> Seq<char> {
    wrap("<meta name=\"twitter:image\" content=\""@, img.url@, "\" />"@)
}

/// The card, title and description tags of a twitter card.
pub open spec fn twitter_props_a(t: SeoTwitterCard) -> Seq<char> {
    opt_wrap("<meta name=\"twitter:card\" content=\""@, opt_view(t.card), "\" />"@) + opt_wrap(
        "<meta name=\"twitter:title\" content=\""@,
        opt_view(t.title),
        "\" />"@,
    ) + opt_wrap(
        "<meta name=\"twitter:description\" content=\""@,
        opt_view(t.description),
        "\" />"@,
    )
}

/// The site and creator tags of a twitter card.
pub open spec fn twitter_props_b(t: SeoTwitterCard) -> Seq<char> {
    opt_wrap("<meta name=\"twitter:site\" content=\""@, opt_view(t.site), "\" />"@) + opt_wrap(
        "<meta name=\"twitter:creator\" content=\""@,
        opt_view(t.creator),
        "\" />"@,
    )
}

/// The twitter tags: the set fields in fixed order, then the images.
pub open spec fn twitter_html(t: SeoTwitterCard) -> Seq<char> {
    twitter_props_a(t) + twitter_props_b(t) + concat(twitter_image_parts(t.images@))
}

/// The twitter image tags, in order.
pub open spec fn twitter_image_parts(imgs: Seq<SeoImageAsset>) -> Seq<Seq<char>> {
    imgs.map_values(|img: SeoImageAsset| twitter_image_html(img))
}

/// The keys of verification tokens: the token text.
pub open spec fn token_keys(tokens: Seq<String>) -> Seq<Seq<Seq<char>>> {
    tokens.map_values(|t: String| seq![t@])
}

/// The tags of verification tokens taken in the given order.
pub open spec fn token_tags(tokens: Seq<String>, name: Seq<char>, order: Seq<int>) -> Seq<Seq<char>> {
    order.map_values(|i: int| wrap("<meta name=\""@ + name + "\" content=\""@, tokens[i]@, "\" />"@))
}

/// The tags of verification tokens of one provider, tokens in text order.
pub open spec fn tokens_html(tokens: Seq<String>, name: Seq<char>) -> Seq<char> {
    concat(token_tags(tokens, name, key_sort(token_keys(tokens), tokens.len() as int)))
}

/// The sort key of a custom verification tag: name, then value.
pub open spec fn verification_tag_key(t: SeoVerificationTag) -> Seq<Seq<char>> {
    seq![t.name@, t.value@]
}

/// The keys of custom verification tags.
pub open spec fn verification_tag_keys(tags: Seq<SeoVerificationTag>) -> Seq<Seq<Seq<char>>> {
    tags.map_values(|t: SeoVerificationTag| verification_tag_key(t))
}

/// The tag of a custom verification token.
pub open spec fn verification_tag_html(t: SeoVerificationTag) -> Seq<char> {
    wrap2("<meta name=\""@, t.name@, "\" content=\""@, t.value@, "\" />"@)
}

/// The custom verification tags taken in the given order.
pub open spec fn verification_tags(tags: Seq<SeoVerificationTag>, order: Seq<int>) -> Seq<Seq<char>> {
    order.map_values(|i: int| verification_tag_html(tags[i]))
}

/// The custom verification tags in key order.
pub open spec fn other_tokens_html(tags: Seq<SeoVerificationTag>) -> Seq<char> {
    concat(verification_tags(tags, key_sort(verification_tag_keys(tags), tags.len() as int)))
}

/// The verification tags: Google, Yandex, Yahoo, then the custom ones.
pub open spec fn verification_html(v: SeoVerification) -> Seq<char> {
    tokens_html(v.google@, "google-site-verification"@) + tokens_html(
        v.yandex@,
        "yandex-verification"@,
    ) + tokens_html(v.yahoo@, "y_key"@) + other_tokens_html(v.other@)
}

/// The previous and next page links.
pub open spec fn pagination_html(p: SeoPagination) -> Seq<char> {
    opt_wrap("<link rel=\"prev\" href=\""@, opt_view(p.prev_url), "\" />"@) + opt_wrap(
        "<link rel=\"next\" href=\""@,
        opt_view(p.next_url),
        "\" />"@,
    )
}

/// The sort key of a meta tag: name, property, http-equiv, content.
pub open spec fn meta_tag_key(t: SeoMetaTag) -> Seq<Seq<char>> {
    seq![
        opt_key(opt_view(t.name)),
        opt_key(opt_view(t.property)),
        opt_key(opt_view(t.http_equiv)),
        t.content@,
    ]
}

/// A meta tag by name, else by property, else by http-equiv; nothing when
/// it has none of them.
pub open spec fn meta_tag_html(t: SeoMetaTag) -> Seq<char> {
    match t.name {
        Some(n) => wrap2("<meta name=\""@, n@, "\" content=\""@, t.content@, "\" />"@),
        None => match t.property {
            Some(p) => wrap2("<meta property=\""@, p@, "\" content=\""@, t.content@, "\" />"@),
            None => match t.http_equiv {
                Some(h) => wrap2(
                    "<meta http-equiv=\""@,
                    h@,
                    "\" content=\""@,
                    t.content@,
                    "\" />"@,
                ),
                None => Seq::empty(),
            },
        },
    }
}

/// The keys of meta tags.
pub open spec fn meta_tag_keys(tags: Seq<SeoMetaTag>) -> Seq<Seq<Seq<char>>> {
    tags.map_values(|t: SeoMetaTag| meta_tag_key(t))
}

/// The meta tags taken in the given order.
pub open spec fn meta_tag_parts(tags: Seq<SeoMetaTag>, order: Seq<int>) -> Seq<Seq<char>> {
    order.map_values(|i: int| meta_tag_html(tags[i]))
}

/// The meta tags in key order.
pub open spec fn meta_tags_html(tags: Seq<SeoMetaTag>) -> Seq<char> {
    concat(meta_tag_parts(tags, key_sort(meta_tag_keys(tags), tags.len() as int)))
}

/// The sort key of a link tag: rel, href, hreflang, media, type, title.
pub open spec fn link_tag_key(t: SeoLinkTag) -> Seq<Seq<char>> {
    seq![
        t.rel@,
        t.href@,
        opt_key(opt_view(t.hreflang)),
        opt_key(opt_view(t.media)),
        opt_key(opt_view(t.mime_type)),
        opt_key(opt_view(t.title)),
    ]
}

/// A link tag with its attributes `rel`, `href`, then the set ones of
/// `hreflang`, `media`, `type` and `title`.
pub open spec fn link_tag_html(t: SeoLinkTag) -> Seq<char> {
    "<link rel=\""@ + escaped(t.rel@) + "\" href=\""@ + escaped(t.href@) + "\""@ + opt_wrap(
        " hreflang=\""@,
        opt_view(t.hreflang),
        "\""@,
    ) + opt_wrap(" media=\""@, opt_view(t.media), "\""@) + opt_wrap(
        " type=\""@,
        opt_view(t.mime_type),
        "\""@,
    ) + opt_wrap(" title=\""@, opt_view(t.title), "\""@) + " />"@
}

/// The keys of link tags.
pub open spec fn link_tag_keys(tags: Seq<SeoLinkTag>) -> Seq<Seq<Seq<char>>> {
    tags.map_values(|t: SeoLinkTag| link_tag_key(t))
}

/// The link tags taken in the given order.
pub open spec fn link_tag_parts(tags: Seq<SeoLinkTag>, order: Seq<int>) -> Seq<Seq<char>> {
    order.map_values(|i: int| link_tag_html(tags[i]))
}

/// The link tags in key order.
pub open spec fn link_tags_html(tags: Seq<SeoLinkTag>) -> Seq<char> {
    concat(link_tag_parts(tags, key_sort(link_tag_keys(tags), tags.len() as int)))
}

/// The sort key of a structured-data block: id, kind name, schema type,
/// then the JSON text of the payload.
pub open spec fn block_key(b: SeoStructuredDataBlock) -> Seq<Seq<char>> {
    seq![
        opt_key(opt_view(b.id)),
        b.schema_kind.wire(),
        opt_key(opt_view(b.schema_type)),
        serialized_json(b.payload@),
    ]
}

/// The JSON-LD script of a block.
pub open spec fn block_html(b: SeoStructuredDataBlock) -> Seq<char> {
    "<script type=\"application/ld+json\">"@ + serialized_json(b.payload@) + "</script>"@
}

/// The keys of structured-data blocks.
pub open spec fn block_keys(blocks: Seq<SeoStructuredDataBlock>) -> Seq<Seq<Seq<char>>> {
    blocks.map_values(|b: SeoStructuredDataBlock| block_key(b))
}

/// The JSON-LD scripts taken in the given order.
pub open spec fn block_parts(blocks: Seq<SeoStructuredDataBlock>, order: Seq<int>) -> Seq<Seq<char>> {
    order.map_values(|i: int| block_html(blocks[i]))
}

/// The JSON-LD scripts in key order.
pub open spec fn blocks_html(blocks: Seq<SeoStructuredDataBlock>) -> Seq<char> {
    concat(block_parts(blocks, key_sort(block_keys(blocks), blocks.len() as int)))
}

/// The `<head>` markup of a page: description, canonical link, robots,
/// alternates, Open Graph, twitter, verification, pagination, meta tags,
/// link tags and JSON-LD scripts, in that order.
pub open spec fn head_html(ctx: SeoPageContext) -> Seq<char> {
    let d = ctx.document;
    description_html(d) + canonical_html(ctx.route) + robots_html(d.robots) + alternates_html(
        ctx.route.alternates@,
    ) + match d.open_graph {
        Some(og) => open_graph_html(og),
        None => Seq::empty(),
    } + match d.twitter {
        Some(t) => twitter_html(t),
        None => Seq::empty(),
    } + match d.verification {
        Some(v) => verification_html(v),
        None => Seq::empty(),
    } + match d.pagination {
        Some(p) => pagination_html(p),
        None => Seq::empty(),
    } + meta_tags_html(d.meta_tags@) + link_tags_html(d.link_tags@) + blocks_html(
        d.structured_data_blocks@,
    )
}


// ---------------------------------------------------------------------------
// The order of the input lists does not matter
// ---------------------------------------------------------------------------

/// Tags taken in key order are the tags of the keys in key order, when a
/// tag is a function of its key.
proof fn lemma_sorted_tags<T>(
    items: Seq<T>,
    key: spec_fn(T) -> Seq<Seq<char>>,
    tag: spec_fn(T) -> Seq<char>,
    tag_of_key: spec_fn(Seq<Seq<char>>) -> Seq<char>,
)
    requires
        forall|t: T| #[trigger] tag(t) == tag_of_key(key(t)),
    ensures
        ({
            let keys = items.map_values(key);
            let o = key_sort(keys, items.len() as int);
            o.map_values(|i: int| tag(items[i])) == pick_keys(keys, o).map_values(tag_of_key)
        }),
{
    let keys = items.map_values(key);
    let o = key_sort(keys, items.len() as int);
    crate::order::lemma_key_sort_stable(keys, items.len() as int);
    assert forall|k: int| 0 <= k < o.len() implies o.map_values(|i: int| tag(items[i]))[k] == pick_keys(
        keys,
        o,
    ).map_values(tag_of_key)[k] by {
        assert(o.contains(o[k]));
        assert(keys[o[k]] == key(items[o[k]]));
    }
    assert(o.map_values(|i: int| tag(items[i])) =~= pick_keys(keys, o).map_values(tag_of_key));
}

/// Tags sorted by key come out the same for two lists with the same keys,
/// whatever their order, when a tag is a function of its key.
proof fn lemma_sorted_tags_order_free<T>(
    a: Seq<T>,
    b: Seq<T>,
    key: spec_fn(T) -> Seq<Seq<char>>,
    tag: spec_fn(T) -> Seq<char>,
    tag_of_key: spec_fn(Seq<Seq<char>>) -> Seq<char>,
)
    requires
        forall|t: T| #[trigger] tag(t) == tag_of_key(key(t)),
        a.map_values(key).to_multiset() == b.map_values(key).to_multiset(),
    ensures
        key_sort(a.map_values(key), a.len() as int).map_values(|i: int| tag(a[i])) == key_sort(
            b.map_values(key),
            b.len() as int,
        ).map_values(|i: int| tag(b[i])),
{
    lemma_sorted_tags(a, key, tag, tag_of_key);
    lemma_sorted_tags(b, key, tag, tag_of_key);
    crate::order::lemma_sorted_keys_order_free(a.map_values(key), b.map_values(key));
}

/// The optional text a key part stands for (see `opt_key`).
pub open spec fn opt_of_key(k: Seq<char>) -> Option<Seq<char>> {
    if k.len() == 0 {
        None
    } else {
        Some(k.drop_first())
    }
}

proof fn lemma_opt_of_key(o: Option<Seq<char>>)
    ensures
        opt_of_key(opt_key(o)) == o,
{
    if let Some(s) = o {
        assert((seq!['+'] + s).drop_first() =~= s);
    }
}

/// The alternate links render the same in whatever order they are given.
pub proof fn lemma_alternates_order_free(a: Seq<SeoAlternateLink>, b: Seq<SeoAlternateLink>)
    requires
        alternate_keys(a).to_multiset() == alternate_keys(b).to_multiset(),
    ensures
        alternates_html(a) == alternates_html(b),
{
    let key = |x: SeoAlternateLink| alternate_key(x);
    let tag = |x: SeoAlternateLink| alternate_tag(x);
    let tag_of_key = |k: Seq<Seq<char>>| wrap2("<link rel=\"alternate\" hreflang=\""@, k[0], "\" href=\""@, k[1], "\" />"@);
    assert(alternate_keys(a) =~= a.map_values(key));
    assert(alternate_keys(b) =~= b.map_values(key));
    lemma_sorted_tags_order_free(a, b, key, tag, tag_of_key);
    let oa = key_sort(alternate_keys(a), a.len() as int);
    let ob = key_sort(alternate_keys(b), b.len() as int);
    assert(alternate_tags(a, oa) =~= oa.map_values(|i: int| tag(a[i])));
    assert(alternate_tags(b, ob) =~= ob.map_values(|i: int| tag(b[i])));
}

/// The verification tokens of a provider render the same in whatever order
/// they are given.
pub proof fn lemma_tokens_order_free(a: Seq<String>, b: Seq<String>, name: Seq<char>)
    requires
        token_keys(a).to_multiset() == token_keys(b).to_multiset(),
    ensures
        tokens_html(a, name) == tokens_html(b, name),
{
    let key = |t: String| seq![t@];
    let tag = |t: String| wrap("<meta name=\""@ + name + "\" content=\""@, t@, "\" />"@);
    let tag_of_key = |k: Seq<Seq<char>>| wrap("<meta name=\""@ + name + "\" content=\""@, k[0], "\" />"@);
    assert(token_keys(a) =~= a.map_values(key));
    assert(token_keys(b) =~= b.map_values(key));
    lemma_sorted_tags_order_free(a, b, key, tag, tag_of_key);
    let oa = key_sort(token_keys(a), a.len() as int);
    let ob = key_sort(token_keys(b), b.len() as int);
    assert(token_tags(a, name, oa) =~= oa.map_values(|i: int| tag(a[i])));
    assert(token_tags(b, name, ob) =~= ob.map_values(|i: int| tag(b[i])));
}

/// The custom verification tags render the same in whatever order they are
/// given.
pub proof fn lemma_verification_tags_order_free(a: Seq<SeoVerificationTag>, b: Seq<SeoVerificationTag>)
    requires
        verification_tag_keys(a).to_multiset() == verification_tag_keys(b).to_multiset(),
    ensures
        other_tokens_html(a) == other_tokens_html(b),
{
    let key = |t: SeoVerificationTag| verification_tag_key(t);
    let tag = |t: SeoVerificationTag| verification_tag_html(t);
    let tag_of_key = |k: Seq<Seq<char>>| wrap2("<meta name=\""@, k[0], "\" content=\""@, k[1], "\" />"@);
    assert(verification_tag_keys(a) =~= a.map_values(key));
    assert(verification_tag_keys(b) =~= b.map_values(key));
    lemma_sorted_tags_order_free(a, b, key, tag, tag_of_key);
    let oa = key_sort(verification_tag_keys(a), a.len() as int);
    let ob = key_sort(verification_tag_keys(b), b.len() as int);
    assert(verification_tags(a, oa) =~= oa.map_values(|i: int| tag(a[i])));
    assert(verification_tags(b, ob) =~= ob.map_values(|i: int| tag(b[i])));
}

/// The meta tag of a key (see `meta_tag_key`).
pub open spec fn meta_tag_html_of_key(k: Seq<Seq<char>>) -> Seq<char> {
    match opt_of_key(k[0]) {
        Some(n) => wrap2("<meta name=\""@, n, "\" content=\""@, k[3], "\" />"@),
        None => match opt_of_key(k[1]) {
            Some(p) => wrap2("<meta property=\""@, p, "\" content=\""@, k[3], "\" />"@),
            None => match opt_of_key(k[2]) {
                Some(h) => wrap2("<meta http-equiv=\""@, h, "\" content=\""@, k[3], "\" />"@),
                None => Seq::empty(),
            },
        },
    }
}

/// The meta tags render the same in whatever order they are given.
pub proof fn lemma_meta_tags_order_free(a: Seq<SeoMetaTag>, b: Seq<SeoMetaTag>)
    requires
        meta_tag_keys(a).to_multiset() == meta_tag_keys(b).to_multiset(),
    ensures
        meta_tags_html(a) == meta_tags_html(b),
{
    let key = |t: SeoMetaTag| meta_tag_key(t);
    let tag = |t: SeoMetaTag| meta_tag_html(t);
    let tag_of_key = |k: Seq<Seq<char>>| meta_tag_html_of_key(k);
    assert forall|t: SeoMetaTag| #[trigger] tag(t) == tag_of_key(key(t)) by {
        lemma_opt_of_key(opt_view(t.name));
        lemma_opt_of_key(opt_view(t.property));
        lemma_opt_of_key(opt_view(t.http_equiv));
    }
    assert(meta_tag_keys(a) =~= a.map_values(key));
    assert(meta_tag_keys(b) =~= b.map_values(key));
    lemma_sorted_tags_order_free(a, b, key, tag, tag_of_key);
    let oa = key_sort(meta_tag_keys(a), a.len() as int);
    let ob = key_sort(meta_tag_keys(b), b.len() as int);
    assert(meta_tag_parts(a, oa) =~= oa.map_values(|i: int| tag(a[i])));
    assert(meta_tag_parts(b, ob) =~= ob.map_values(|i: int| tag(b[i])));
}

/// The link tag of a key (see `link_tag_key`).
pub open spec fn link_tag_html_of_key(k: Seq<Seq<char>>) -> Seq<char> {
    "<link rel=\""@ + escaped(k[0]) + "\" href=\""@ + escaped(k[1]) + "\""@ + opt_wrap(
        " hreflang=\""@,
        opt_of_key(k[2]),
        "\""@,
    ) + opt_wrap(" media=\""@, opt_of_key(k[3]), "\""@) + opt_wrap(
        " type=\""@,
        opt_of_key(k[4]),
        "\""@,
    ) + opt_wrap(" title=\""@, opt_of_key(k[5]), "\""@) + " />"@
}

/// The link tags render the same in whatever order they are given.
pub proof fn lemma_link_tags_order_free(a: Seq<SeoLinkTag>, b: Seq<SeoLinkTag>)
    requires
        link_tag_keys(a).to_multiset() == link_tag_keys(b).to_multiset(),
    ensures
        link_tags_html(a) == link_tags_html(b),
{
    let key = |t: SeoLinkTag| link_tag_key(t);
    let tag = |t: SeoLinkTag| link_tag_html(t);
    let tag_of_key = |k: Seq<Seq<char>>| link_tag_html_of_key(k);
    assert forall|t: SeoLinkTag| #[trigger] tag(t) == tag_of_key(key(t)) by {
        lemma_opt_of_key(opt_view(t.hreflang));
        lemma_opt_of_key(opt_view(t.media));
        lemma_opt_of_key(opt_view(t.mime_type));
        lemma_opt_of_key(opt_view(t.title));
    }
    assert(link_tag_keys(a) =~= a.map_values(key));
    assert(link_tag_keys(b) =~= b.map_values(key));
    lemma_sorted_tags_order_free(a, b, key, tag, tag_of_key);
    let oa = key_sort(link_tag_keys(a), a.len() as int);
    let ob = key_sort(link_tag_keys(b), b.len() as int);
    assert(link_tag_parts(a, oa) =~= oa.map_values(|i: int| tag(a[i])));
    assert(link_tag_parts(b, ob) =~= ob.map_values(|i: int| tag(b[i])));
}

/// The JSON-LD scripts render the same in whatever order the blocks are
/// given.
pub proof fn lemma_blocks_order_free(a: Seq<SeoStructuredDataBlock>, b: Seq<SeoStructuredDataBlock>)
    requires
        block_keys(a).to_multiset() == block_keys(b).to_multiset(),
    ensures
        blocks_html(a) == blocks_html(b),
{
    let key = |t: SeoStructuredDataBlock| block_key(t);
    let tag = |t: SeoStructuredDataBlock| block_html(t);
    let tag_of_key = |k: Seq<Seq<char>>| "<script type=\"application/ld+json\">"@ + k[3] + "</script>"@;
    assert(block_keys(a) =~= a.map_values(key));
    assert(block_keys(b) =~= b.map_values(key));
    lemma_sorted_tags_order_free(a, b, key, tag, tag_of_key);
    let oa = key_sort(block_keys(a), a.len() as int);
    let ob = key_sort(block_keys(b), b.len() as int);
    assert(block_parts(a, oa) =~= oa.map_values(|i: int| tag(a[i])));
    assert(block_parts(b, ob) =~= ob.map_values(|i: int| tag(b[i])));
}

/// The head markup does not depend on the order in which alternates, meta
/// tags, link tags and structured-data blocks are given.
pub proof fn lemma_head_order_free(
    c: SeoPageContext,
    alternates: Vec<SeoAlternateLink>,
    meta_tags: Vec<SeoMetaTag>,
    link_tags: Vec<SeoLinkTag>,
    blocks: Vec<SeoStructuredDataBlock>,
)
    requires
        alternate_keys(alternates@).to_multiset() == alternate_keys(c.route.alternates@).to_multiset(),
        meta_tag_keys(meta_tags@).to_multiset() == meta_tag_keys(c.document.meta_tags@).to_multiset(),
        link_tag_keys(link_tags@).to_multiset() == link_tag_keys(c.document.link_tags@).to_multiset(),
        block_keys(blocks@).to_multiset() == block_keys(c.document.structured_data_blocks@).to_multiset(),
    ensures
        head_html(
            SeoPageContext {
                route: SeoRouteContext { alternates, ..c.route },
                document: SeoDocument {
                    meta_tags,
                    link_tags,
                    structured_data_blocks: blocks,
                    ..c.document
                },
            },
        ) == head_html(c),
{
    lemma_alternates_order_free(alternates@, c.route.alternates@);
    lemma_meta_tags_order_free(meta_tags@, c.document.meta_tags@);
    lemma_link_tags_order_free(link_tags@, c.document.link_tags@);
    lemma_blocks_order_free(blocks@, c.document.structured_data_blocks@);
}

// ---------------------------------------------------------------------------
// Writers
// ---------------------------------------------------------------------------

fn push_description(out: &mut String, d: &SeoDocument)
    ensures
        final(out)@ == old(out)@ + description_html(*d),
{
    match &d.description {
        Some(text) => {
            if !is_blank(text.as_str()) {
                push_wrap(out, "<meta name=\"description\" content=\"", text.as_str(), "\" />");
            } else {
                assert(out@ =~= old(out)@ + description_html(*d));
            }
        },
        None => {
            assert(out@ =~= old(out)@ + description_html(*d));
        },
    }
}

fn push_canonical(out: &mut String, r: &SeoRouteContext)
    ensures
        final(out)@ == old(out)@ + canonical_html(*r),
{
    if !is_blank(r.canonical_url.as_str()) {
        push_wrap(out, "<link rel=\"canonical\" href=\"", r.canonical_url.as_str(), "\" />");
    } else {
        assert(out@ =~= old(out)@ + canonical_html(*r));
    }
}

fn push_robots(out: &mut String, robots: &SeoRobots)
    ensures
        final(out)@ == old(out)@ + robots_html(*robots),
{
    let directives = robots_to_directives(robots);
    if directives.len() > 0 {
        let joined = join_strings(&directives, ", ");
        push_wrap(out, "<meta name=\"robots\" content=\"", joined.as_str(), "\" />");
    } else {
        assert(views(directives@).len() == 0);
        assert(out@ =~= old(out)@ + robots_html(*robots));
    }
}

fn push_alternates(out: &mut String, alts: &Vec<SeoAlternateLink>)
    ensures
        final(out)@ == old(out)@ + alternates_html(alts@),
{
    let mut keys: Vec<Vec<String>> = Vec::new();
    let mut i: usize = 0;
    while i < alts.len()
        invariant
            i <= alts.len(),
            keys_view(keys@) == alternate_keys(alts@.take(i as int)),
        decreases alts.len() - i,
    {
        let a = &alts[i];
        let mut k: Vec<String> = Vec::new();
        k.push(a.locale.clone());
        k.push(a.href.clone());
        k.push(crate::order::flag_key_string(a.x_default));
        assert(views(k@) =~= alternate_key(*a));
        let ghost prev = keys@;
        let ghost kv = views(k@);
        keys.push(k);
        assert(keys_view(keys@) =~= keys_view(prev).push(kv));
        assert(alternate_keys(alts@.take(i as int + 1)) =~= alternate_keys(alts@.take(i as int)).push(alternate_key(*a)));
        i = i + 1;
        assert(keys_view(keys@) =~= alternate_keys(alts@.take(i as int)));
    }
    assert(alts@.take(alts.len() as int) =~= alts@);
    let order = sort_order(&keys);
    let ghost o = index_seq(order@);
    let ghost start = out@;
    let mut k: usize = 0;
    while k < order.len()
        invariant
            k <= order.len(),
            order.len() == alts.len(),
            o == index_seq(order@),
            forall|m: int| 0 <= m < order.len() ==> #[trigger] order@[m] < alts.len(),
            out@ == start + concat(alternate_tags(alts@, o.take(k as int))),
        decreases order.len() - k,
    {
        let a = &alts[order[k]];
        proof {
            assert(alternate_tags(alts@, o.take(k as int + 1)) =~= alternate_tags(alts@, o.take(k as int)).push(alternate_tag(*a)));
            lemma_concat_push(alternate_tags(alts@, o.take(k as int)), alternate_tag(*a));
        }
        push_wrap2(out, "<link rel=\"alternate\" hreflang=\"", a.locale.as_str(), "\" href=\"", a.href.as_str(), "\" />");
        k = k + 1;
    }
    assert(o.take(order.len() as int) =~= o);
}

fn push_dim(out: &mut String, prefix: &str, value: Option<i32>)
    ensures
        final(out)@ == old(out)@ + dim_tag(prefix@, value),
{
    match value {
        Some(v) => {
            append(out, prefix);
            push_dec_i64(out, v as i64);
            append(out, "\" />");
        },
        None => {},
    }
    assert(out@ =~= old(out)@ + dim_tag(prefix@, value));
}

fn push_og_image(out: &mut String, img: &SeoImageAsset)
    ensures
        final(out)@ == old(out)@ + og_image_html(*img),
{
    let ghost o0 = out@;
    push_wrap(out, "<meta property=\"og:image\" content=\"", img.url.as_str(), "\" />");
    push_opt_wrap(out, "<meta property=\"og:image:alt\" content=\"", &img.alt, "\" />");
    assert(out@ =~= o0 + og_image_main(*img));
    let ghost o1 = out@;
    push_dim(out, "<meta property=\"og:image:width\" content=\"", img.width);
    push_dim(out, "<meta property=\"og:image:height\" content=\"", img.height);
    assert(out@ =~= o1 + og_image_dims(*img));
    let ghost o2 = out@;
    push_opt_wrap(out, "<meta property=\"og:image:type\" content=\"", &img.mime_type, "\" />");
    assert(out@ =~= o0 + og_image_html(*img));
}

fn push_open_graph(out: &mut String, og: &SeoOpenGraph)
    ensures
        final(out)@ == old(out)@ + open_graph_html(*og),
{
    let ghost o0 = out@;
    push_opt_wrap(out, "<meta property=\"og:title\" content=\"", &og.title, "\" />");
    push_opt_wrap(out, "<meta property=\"og:description\" content=\"", &og.description, "\" />");
    push_opt_wrap(out, "<meta property=\"og:type\" content=\"", &og.kind, "\" />");
    assert(out@ =~= o0 + og_props_a(*og));
    let ghost o1 = out@;
    push_opt_wrap(out, "<meta property=\"og:site_name\" content=\"", &og.site_name, "\" />");
    push_opt_wrap(out, "<meta property=\"og:url\" content=\"", &og.url, "\" />");
    push_opt_wrap(out, "<meta property=\"og:locale\" content=\"", &og.locale, "\" />");
    assert(out@ =~= o1 + og_props_b(*og));
    let ghost start = out@;
    let mut i: usize = 0;
    while i < og.images.len()
        invariant
            i <= og.images.len(),
            out@ == start + concat(og_image_parts(og.images@.take(i as int))),
        decreases og.images.len() - i,
    {
        proof {
            assert(og_image_parts(og.images@.take(i as int + 1)) =~= og_image_parts(og.images@.take(i as int)).push(og_image_html(og.images@[i as int])));
            lemma_concat_push(og_image_parts(og.images@.take(i as int)), og_image_html(og.images@[i as int]));
        }
        push_og_image(out, &og.images[i]);
        i = i + 1;
    }
    assert(og.images@.take(og.images.len() as int) =~= og.images@);
    assert(out@ =~= o0 + open_graph_html(*og));
}

fn push_twitter(out: &mut String, t: &SeoTwitterCard)
    ensures
        final(out)@ == old(out)@ + twitter_html(*t),
{
    let ghost o0 = out@;
    push_opt_wrap(out, "<meta name=\"twitter:card\" content=\"", &t.card, "\" />");
    push_opt_wrap(out, "<meta name=\"twitter:title\" content=\"", &t.title, "\" />");
    push_opt_wrap(out, "<meta name=\"twitter:description\" content=\"", &t.description, "\" />");
    assert(out@ =~= o0 + twitter_props_a(*t));
    let ghost o1 = out@;
    push_opt_wrap(out, "<meta name=\"twitter:site\" content=\"", &t.site, "\" />");
    push_opt_wrap(out, "<meta name=\"twitter:creator\" content=\"", &t.creator, "\" />");
    assert(out@ =~= o1 + twitter_props_b(*t));
    let ghost start = out@;
    let mut i: usize = 0;
    while i < t.images.len()
        invariant
            i <= t.images.len(),
            out@ == start + concat(twitter_image_parts(t.images@.take(i as int))),
        decreases t.images.len() - i,
    {
        proof {
            assert(twitter_image_parts(t.images@.take(i as int + 1)) =~= twitter_image_parts(t.images@.take(i as int)).push(twitter_image_html(t.images@[i as int])));
            lemma_concat_push(twitter_image_parts(t.images@.take(i as int)), twitter_image_html(t.images@[i as int]));
        }
        push_wrap(out, "<meta name=\"twitter:image\" content=\"", t.images[i].url.as_str(), "\" />");
        i = i + 1;
    }
    assert(t.images@.take(t.images.len() as int) =~= t.images@);
    assert(out@ =~= o0 + twitter_html(*t));
}

fn push_tokens(out: &mut String, tokens: &Vec<String>, name: &str)
    ensures
        final(out)@ == old(out)@ + tokens_html(tokens@, name@),
{
    let mut keys: Vec<Vec<String>> = Vec::new();
    let mut i: usize = 0;
    while i < tokens.len()
        invariant
            i <= tokens.len(),
            keys_view(keys@) == token_keys(tokens@.take(i as int)),
        decreases tokens.len() - i,
    {
        let mut k: Vec<String> = Vec::new();
        k.push(tokens[i].clone());
        assert(views(k@) =~= seq![tokens@[i as int]@]);
        let ghost prev = keys@;
        let ghost kv = views(k@);
        keys.push(k);
        assert(keys_view(keys@) =~= keys_view(prev).push(kv));
        assert(token_keys(tokens@.take(i as int + 1)) =~= token_keys(tokens@.take(i as int)).push(seq![tokens@[i as int]@]));
        i = i + 1;
    }
    assert(tokens@.take(tokens.len() as int) =~= tokens@);
    let order = sort_order(&keys);
    let ghost o = index_seq(order@);
    let ghost start = out@;
    let mut prefix = owned("<meta name=\"");
    append(&mut prefix, name);
    append(&mut prefix, "\" content=\"");
    let mut k: usize = 0;
    while k < order.len()
        invariant
            k <= order.len(),
            order.len() == tokens.len(),
            o == index_seq(order@),
            prefix@ == "<meta name=\""@ + name@ + "\" content=\""@,
            forall|m: int| 0 <= m < order.len() ==> #[trigger] order@[m] < tokens.len(),
            out@ == start + concat(token_tags(tokens@, name@, o.take(k as int))),
        decreases order.len() - k,
    {
        let t = &tokens[order[k]];
        proof {
            let tag = wrap("<meta name=\""@ + name@ + "\" content=\""@, t@, "\" />"@);
            assert(token_tags(tokens@, name@, o.take(k as int + 1)) =~= token_tags(tokens@, name@, o.take(k as int)).push(tag));
            lemma_concat_push(token_tags(tokens@, name@, o.take(k as int)), tag);
        }
        push_wrap(out, prefix.as_str(), t.as_str(), "\" />");
        k = k + 1;
    }
    assert(o.take(order.len() as int) =~= o);
}

fn push_other_tokens(out: &mut String, tags: &Vec<SeoVerificationTag>)
    ensures
        final(out)@ == old(out)@ + other_tokens_html(tags@),
{
    let mut keys: Vec<Vec<String>> = Vec::new();
    let mut i: usize = 0;
    while i < tags.len()
        invariant
            i <= tags.len(),
            keys_view(keys@) == verification_tag_keys(tags@.take(i as int)),
        decreases tags.len() - i,
    {
        let mut k: Vec<String> = Vec::new();
        k.push(tags[i].name.clone());
        k.push(tags[i].value.clone());
        assert(views(k@) =~= verification_tag_key(tags@[i as int]));
        let ghost prev = keys@;
        let ghost kv = views(k@);
        keys.push(k);
        assert(keys_view(keys@) =~= keys_view(prev).push(kv));
        assert(verification_tag_keys(tags@.take(i as int + 1)) =~= verification_tag_keys(tags@.take(i as int)).push(verification_tag_key(tags@[i as int])));
        i = i + 1;
    }
    assert(tags@.take(tags.len() as int) =~= tags@);
    let order = sort_order(&keys);
    let ghost o = index_seq(order@);
    let ghost start = out@;
    let mut k: usize = 0;
    while k < order.len()
        invariant
            k <= order.len(),
            order.len() == tags.len(),
            o == index_seq(order@),
            forall|m: int| 0 <= m < order.len() ==> #[trigger] order@[m] < tags.len(),
            out@ == start + concat(verification_tags(tags@, o.take(k as int))),
        decreases order.len() - k,
    {
        let t = &tags[order[k]];
        proof {
            assert(verification_tags(tags@, o.take(k as int + 1)) =~= verification_tags(tags@, o.take(k as int)).push(verification_tag_html(*t)));
            lemma_concat_push(verification_tags(tags@, o.take(k as int)), verification_tag_html(*t));
        }
        push_wrap2(out, "<meta name=\"", t.name.as_str(), "\" content=\"", t.value.as_str(), "\" />");
        k = k + 1;
    }
    assert(o.take(order.len() as int) =~= o);
}

fn push_verification(out: &mut String, v: &SeoVerification)
    ensures
        final(out)@ == old(out)@ + verification_html(*v),
{
    push_tokens(out, &v.google, "google-site-verification");
    push_tokens(out, &v.yandex, "yandex-verification");
    push_tokens(out, &v.yahoo, "y_key");
    push_other_tokens(out, &v.other);
    assert(out@ =~= old(out)@ + verification_html(*v));
}

fn push_pagination(out: &mut String, p: &SeoPagination)
    ensures
        final(out)@ == old(out)@ + pagination_html(*p),
{
    push_opt_wrap(out, "<link rel=\"prev\" href=\"", &p.prev_url, "\" />");
    push_opt_wrap(out, "<link rel=\"next\" href=\"", &p.next_url, "\" />");
    assert(out@ =~= old(out)@ + pagination_html(*p));
}

fn push_meta_tag(out: &mut String, t: &SeoMetaTag)
    ensures
        final(out)@ == old(out)@ + meta_tag_html(*t),
{
    match &t.name {
        Some(n) => push_wrap2(out, "<meta name=\"", n.as_str(), "\" content=\"", t.content.as_str(), "\" />"),
        None => match &t.property {
            Some(p) => push_wrap2(out, "<meta property=\"", p.as_str(), "\" content=\"", t.content.as_str(), "\" />"),
            None => match &t.http_equiv {
                Some(h) => push_wrap2(out, "<meta http-equiv=\"", h.as_str(), "\" content=\"", t.content.as_str(), "\" />"),
                None => {
                    assert(out@ =~= old(out)@ + meta_tag_html(*t));
                },
            },
        },
    }
}

fn push_meta_tags(out: &mut String, tags: &Vec<SeoMetaTag>)
    ensures
        final(out)@ == old(out)@ + meta_tags_html(tags@),
{
    let mut keys: Vec<Vec<String>> = Vec::new();
    let mut i: usize = 0;
    while i < tags.len()
        invariant
            i <= tags.len(),
            keys_view(keys@) == meta_tag_keys(tags@.take(i as int)),
        decreases tags.len() - i,
    {
        let t = &tags[i];
        let mut k: Vec<String> = Vec::new();
        k.push(crate::order::opt_key_string(&t.name));
        k.push(crate::order::opt_key_string(&t.property));
        k.push(crate::order::opt_key_string(&t.http_equiv));
        k.push(t.content.clone());
        assert(views(k@) =~= meta_tag_key(*t));
        let ghost prev = keys@;
        let ghost kv = views(k@);
        keys.push(k);
        assert(keys_view(keys@) =~= keys_view(prev).push(kv));
        assert(meta_tag_keys(tags@.take(i as int + 1)) =~= meta_tag_keys(tags@.take(i as int)).push(meta_tag_key(*t)));
        i = i + 1;
    }
    assert(tags@.take(tags.len() as int) =~= tags@);
    let order = sort_order(&keys);
    let ghost o = index_seq(order@);
    let ghost start = out@;
    let mut k: usize = 0;
    while k < order.len()
        invariant
            k <= order.len(),
            order.len() == tags.len(),
            o == index_seq(order@),
            forall|m: int| 0 <= m < order.len() ==> #[trigger] order@[m] < tags.len(),
            out@ == start + concat(meta_tag_parts(tags@, o.take(k as int))),
        decreases order.len() - k,
    {
        let t = &tags[order[k]];
        proof {
            assert(meta_tag_parts(tags@, o.take(k as int + 1)) =~= meta_tag_parts(tags@, o.take(k as int)).push(meta_tag_html(*t)));
            lemma_concat_push(meta_tag_parts(tags@, o.take(k as int)), meta_tag_html(*t));
        }
        push_meta_tag(out, t);
        k = k + 1;
    }
    assert(o.take(order.len() as int) =~= o);
}

fn push_link_tag(out: &mut String, t: &SeoLinkTag)
    ensures
        final(out)@ == old(out)@ + link_tag_html(*t),
{
    append(out, "<link rel=\"");
    push_escaped(out, t.rel.as_str());
    append(out, "\" href=\"");
    push_escaped(out, t.href.as_str());
    append(out, "\"");
    push_opt_wrap(out, " hreflang=\"", &t.hreflang, "\"");
    push_opt_wrap(out, " media=\"", &t.media, "\"");
    push_opt_wrap(out, " type=\"", &t.mime_type, "\"");
    push_opt_wrap(out, " title=\"", &t.title, "\"");
    append(out, " />");
    assert(out@ =~= old(out)@ + link_tag_html(*t));
}

fn push_link_tags(out: &mut String, tags: &Vec<SeoLinkTag>)
    ensures
        final(out)@ == old(out)@ + link_tags_html(tags@),
{
    let mut keys: Vec<Vec<String>> = Vec::new();
    let mut i: usize = 0;
    while i < tags.len()
        invariant
            i <= tags.len(),
            keys_view(keys@) == link_tag_keys(tags@.take(i as int)),
        decreases tags.len() - i,
    {
        let t = &tags[i];
        let mut k: Vec<String> = Vec::new();
        k.push(t.rel.clone());
        k.push(t.href.clone());
        k.push(crate::order::opt_key_string(&t.hreflang));
        k.push(crate::order::opt_key_string(&t.media));
        k.push(crate::order::opt_key_string(&t.mime_type));
        k.push(crate::order::opt_key_string(&t.title));
        assert(views(k@) =~= link_tag_key(*t));
        let ghost prev = keys@;
        let ghost kv = views(k@);
        keys.push(k);
        assert(keys_view(keys@) =~= keys_view(prev).push(kv));
        assert(link_tag_keys(tags@.take(i as int + 1)) =~= link_tag_keys(tags@.take(i as int)).push(link_tag_key(*t)));
        i = i + 1;
    }
    assert(tags@.take(tags.len() as int) =~= tags@);
    let order = sort_order(&keys);
    let ghost o = index_seq(order@);
    let ghost start = out@;
    let mut k: usize = 0;
    while k < order.len()
        invariant
            k <= order.len(),
            order.len() == tags.len(),
            o == index_seq(order@),
            forall|m: int| 0 <= m < order.len() ==> #[trigger] order@[m] < tags.len(),
            out@ == start + concat(link_tag_parts(tags@, o.take(k as int))),
        decreases order.len() - k,
    {
        let t = &tags[order[k]];
        proof {
            assert(link_tag_parts(tags@, o.take(k as int + 1)) =~= link_tag_parts(tags@, o.take(k as int)).push(link_tag_html(*t)));
            lemma_concat_push(link_tag_parts(tags@, o.take(k as int)), link_tag_html(*t));
        }
        push_link_tag(out, t);
        k = k + 1;
    }
    assert(o.take(order.len() as int) =~= o);
}

fn push_blocks(out: &mut String, blocks: &Vec<SeoStructuredDataBlock>)
    ensures
        final(out)@ == old(out)@ + blocks_html(blocks@),
{
    let mut keys: Vec<Vec<String>> = Vec::new();
    let mut i: usize = 0;
    while i < blocks.len()
        invariant
            i <= blocks.len(),
            keys_view(keys@) == block_keys(blocks@.take(i as int)),
        decreases blocks.len() - i,
    {
        let b = &blocks[i];
        let mut k: Vec<String> = Vec::new();
        k.push(crate::order::opt_key_string(&b.id));
        k.push(owned(b.schema_kind.as_str()));
        k.push(crate::order::opt_key_string(&b.schema_type));
        k.push(to_json_text(&b.payload));
        assert(views(k@) =~= block_key(*b));
        let ghost prev = keys@;
        let ghost kv = views(k@);
        keys.push(k);
        assert(keys_view(keys@) =~= keys_view(prev).push(kv));
        assert(block_keys(blocks@.take(i as int + 1)) =~= block_keys(blocks@.take(i as int)).push(block_key(*b)));
        i = i + 1;
    }
    assert(blocks@.take(blocks.len() as int) =~= blocks@);
    let order = sort_order(&keys);
    let ghost o = index_seq(order@);
    let ghost start = out@;
    let mut k: usize = 0;
    while k < order.len()
        invariant
            k <= order.len(),
            order.len() == blocks.len(),
            o == index_seq(order@),
            forall|m: int| 0 <= m < order.len() ==> #[trigger] order@[m] < blocks.len(),
            out@ == start + concat(block_parts(blocks@, o.take(k as int))),
        decreases order.len() - k,
    {
        let b = &blocks[order[k]];
        proof {
            assert(block_parts(blocks@, o.take(k as int + 1)) =~= block_parts(blocks@, o.take(k as int)).push(block_html(*b)));
            lemma_concat_push(block_parts(blocks@, o.take(k as int)), block_html(*b));
        }
        let ghost before = out@;
        append(out, "<script type=\"application/ld+json\">");
        append(out, to_json_text(&b.payload).as_str());
        append(out, "</script>");
        assert(out@ =~= before + block_html(*b));
        k = k + 1;
    }
    assert(o.take(order.len() as int) =~= o);
}

/// The `<head>` markup of a page (see `head_html`).
pub fn render_head_html(context: &SeoPageContext) -> (r: String)
    ensures
        r@ == head_html(*context),
{
    let mut head = String::new();
    let route = &context.route;
    let document = &context.document;
    push_description(&mut head, document);
    push_canonical(&mut head, route);
    push_robots(&mut head, &document.robots);
    push_alternates(&mut head, &route.alternates);
    let ghost after_alternates = head@;
    match &document.open_graph {
        Some(og) => push_open_graph(&mut head, og),
        None => {},
    }
    let ghost after_og = head@;
    match &document.twitter {
        Some(t) => push_twitter(&mut head, t),
        None => {},
    }
    let ghost after_twitter = head@;
    match &document.verification {
        Some(v) => push_verification(&mut head, v),
        None => {},
    }
    let ghost after_verification = head@;
    match &document.pagination {
        Some(p) => push_pagination(&mut head, p),
        None => {},
    }
    push_meta_tags(&mut head, &document.meta_tags);
    push_link_tags(&mut head, &document.link_tags);
    push_blocks(&mut head, &document.structured_data_blocks);
    assert(head@ =~= head_html(*context));
    head
}

/// The robots directives of a page, in the order they are rendered.
pub fn robots_directives(robots: &SeoRobots) -> (r: Vec<String>)
    ensures
        views(r@) == directive_list(robots@),
{
    robots_to_directives(robots)
}

} // verus!
