//! URL and UUID parsing through the `url` and `uuid` crates, and the SEO
//! rules built on them: redirect lookup routes, sitemap submission URLs
//! and endpoints, and media identifiers inside URLs.
use vstd::prelude::*;

use crate::text::{
    append, eq_ignore_case, insert_sorted_unique, opt_view, owned, sorted_insert, sorted_unique, starts_with,
    str_eq, str_eq_ascii_case, str_starts_with, strictly_sorted, trim, trim_str, views,
};

verus! {

/// The parts of a parsed URL that the SEO rules read.
#[derive(Clone, Debug)]
pub struct UrlParts {
    /// The scheme, as `Url::scheme` gives it.
    pub scheme: String,
    /// The path, as `Url::path` gives it.
    pub path: String,
    /// The query, as `Url::query` gives it.
    pub query: Option<String>,
    /// The serialization, as `Url::as_str` gives it.
    pub serialized: String,
    /// The decoded query pairs, in order, as `Url::query_pairs` gives them.
    pub query_pairs: Vec<(String, String)>,
    /// The path segments, as `Url::path_segments` gives them (`None` for a
    /// URL that cannot be a base).
    pub path_segments: Option<Vec<String>>,
}

/// The mathematical form of the parts of a parsed URL.
pub struct UrlData {
    pub scheme: Seq<char>,
    pub path: Seq<char>,
    pub query: Option<Seq<char>>,
    pub serialized: Seq<char>,
    pub query_pairs: Seq<(Seq<char>, Seq<char>)>,
    pub path_segments: Option<Seq<Seq<char>>>,
}

/// The views of text pairs.
pub open spec fn pairs_view(v: Seq<(String, String)>) -> Seq<(Seq<char>, Seq<char>)> {
    v.map_values(|p: (String, String)| (p.0@, p.1@))
}

impl View for UrlParts {
    type V = UrlData;

    open spec fn view(&self) -> UrlData {
        UrlData {
            scheme: self.scheme@,
            path: self.path@,
            query: opt_view(self.query),
            serialized: self.serialized@,
            query_pairs: pairs_view(self.query_pairs@),
            path_segments: match self.path_segments {
                Some(v) => Some(views(v@)),
                None => None,
            },
        }
    }
}

/// What `url::Url::parse` makes of a text: the parts of the URL, or `None`
/// when the text is not a URL.
pub uninterp spec fn parsed_url(text: Seq<char>) -> Option<UrlData>;

/// The serialization of the URL a text parses to once its fragment is
/// removed (`Url::set_fragment(None)`).
pub uninterp spec fn url_text_without_fragment(text: Seq<char>) -> Option<Seq<char>>;

/// The serialization of the URL a text parses to once a `name=value` pair
/// is appended to its query (`Url::query_pairs_mut().append_pair`).
pub uninterp spec fn url_text_with_pair(text: Seq<char>, name: Seq<char>, value: Seq<char>) -> Option<Seq<char>>;

/// Whether the form-urlencoded serializer leaves a byte as it is: `*`,
/// `-`, `.`, `_`, an ASCII digit or an ASCII letter.
pub open spec fn form_byte_unchanged(b: u8) -> bool {
    ||| b == 0x2A
    ||| b == 0x2D
    ||| b == 0x2E
    ||| b == 0x5F
    ||| 0x30 <= b <= 0x39
    ||| 0x41 <= b <= 0x5A
    ||| 0x61 <= b <= 0x7A
}

/// The upper-case hexadecimal digit of a value below 16.
pub open spec fn upper_hex_digit(n: u8) -> char {
    if n < 10 {
        (0x30 + n) as char
    } else {
        (0x41 + n - 10) as char
    }
}

/// What the form-urlencoded serializer writes for one byte: a space
/// becomes `+`, a byte it leaves alone stays, any other byte becomes `%`
/// and two upper-case hexadecimal digits.
pub open spec fn form_encoded_byte(b: u8) -> Seq<char> {
    if b == 0x20 {
        seq!['+']
    } else if form_byte_unchanged(b) {
        seq![b as char]
    } else {
        seq!['%', upper_hex_digit(b / 16), upper_hex_digit(b % 16)]
    }
}

/// The form-urlencoded serialization of a byte string, byte by byte.
pub open spec fn form_encoded_bytes(bytes: Seq<u8>) -> Seq<char>
    decreases bytes.len(),
{
    if bytes.len() == 0 {
        Seq::empty()
    } else {
        form_encoded_byte(bytes[0]) + form_encoded_bytes(bytes.drop_first())
    }
}

/// The `application/x-www-form-urlencoded` form of the UTF-8 bytes of a
/// text.
pub open spec fn form_urlencoded_text(text: Seq<char>) -> Seq<char> {
    form_encoded_bytes(vstd::utf8::encode_utf8(text))
}

/// The 128-bit value of the UUID a text denotes (`uuid::Uuid::parse_str`,
/// then `Uuid::as_u128`), or the text of the parse error.
pub uninterp spec fn parsed_uuid(text: Seq<char>) -> Result<u128, Seq<char>>;

/// The UUID a text denotes, when it denotes one.
pub open spec fn uuid_value(text: Seq<char>) -> Option<u128> {
    match parsed_uuid(text) {
        Ok(v) => Some(v),
        Err(_) => None,
    }
}

/// Parses a URL with `url::Url::parse` and reads its scheme, path, query,
/// serialization, decoded query pairs and path segments.  The contract
/// names the outcome (`parsed_url`); which texts parse, and how they are
/// normalized, is the `url` crate's.
#[verifier::external_body]
pub(crate) fn parse_url(text: &str) -> (r: Option<UrlParts>)
    ensures
        match r {
            Some(p) => parsed_url(text@) == Some(p@),
            None => parsed_url(text@) is None,
        },
{
    match url::Url::parse(text) {
        Ok(u) => Some(UrlParts {
            scheme: u.scheme().to_string(),
            path: u.path().to_string(),
            query: u.query().map(|q| q.to_string()),
            serialized: u.as_str().to_string(),
            query_pairs: u.query_pairs().map(|(k, v)| (k.into_owned(), v.into_owned())).collect(),
            path_segments: u.path_segments().map(|s| s.map(|x| x.to_string()).collect()),
        }),
        Err(_) => None,
    }
}

/// Parses a URL with `url::Url::parse`, removes its fragment with
/// `Url::set_fragment(None)` and serializes it.  It succeeds exactly when
/// the parse does; the text that comes out is named
/// (`url_text_without_fragment`).
#[verifier::external_body]
pub(crate) fn url_without_fragment(text: &str) -> (r: Option<String>)
    ensures
        opt_view(r) == url_text_without_fragment(text@),
        r is Some <==> parsed_url(text@) is Some,
{
    match url::Url::parse(text) {
        Ok(mut u) => {
            u.set_fragment(None);
            Some(u.to_string())
        },
        Err(_) => None,
    }
}

/// Parses a URL with `url::Url::parse`, appends `name=value` to its query
/// with `Url::query_pairs_mut().append_pair` and serializes it.  It
/// succeeds exactly when the parse does; the text that comes out is named
/// (`url_text_with_pair`).
#[verifier::external_body]
pub(crate) fn url_with_query_pair(text: &str, name: &str, value: &str) -> (r: Option<String>)
    ensures
        opt_view(r) == url_text_with_pair(text@, name@, value@),
        r is Some <==> parsed_url(text@) is Some,
{
    match url::Url::parse(text) {
        Ok(mut u) => {
            u.query_pairs_mut().append_pair(name, value);
            Some(u.to_string())
        },
        Err(_) => None,
    }
}

/// Form-urlencodes the UTF-8 bytes of a text with
/// `form_urlencoded::byte_serialize`, which the contract states byte by
/// byte (`form_urlencoded_text`): `*`, `-`, `.`, `_`, ASCII digits and
/// letters stay, a space becomes `+`, every other byte becomes `%XX` with
/// upper-case hexadecimal digits.
#[verifier::external_body]
pub(crate) fn form_urlencode(text: &str) -> (r: String)
    ensures
        r@ == form_urlencoded_text(text@),
{
    url::form_urlencoded::byte_serialize(text.as_bytes()).collect()
}

/// Parses a UUID with `uuid::Uuid::parse_str` and gives its 128-bit value
/// (`Uuid::as_u128`) or the text of the error; the outcome is named
/// (`parsed_uuid`).
#[verifier::external_body]
pub(crate) fn parse_uuid(text: &str) -> (r: Result<u128, String>)
    ensures
        match r {
            Ok(v) => parsed_uuid(text@) == Ok::<u128, Seq<char>>(v),
            Err(e) => parsed_uuid(text@) == Err::<u128, Seq<char>>(e@),
        },
{
    match uuid::Uuid::parse_str(text) {
        Ok(u) => Ok(u.as_u128()),
        Err(e) => Err(e.to_string()),
    }
}

fn uuid_of(text: &str) -> (r: Option<u128>)
    ensures
        r == uuid_value(text@),
{
    match parse_uuid(text) {
        Ok(v) => Some(v),
        Err(_) => None,
    }
}

// ---------------------------------------------------------------------------
// Redirect lookup routes
// ---------------------------------------------------------------------------

/// The route of a parsed URL: its path, then `?` and the query when it has
/// one.
pub open spec fn route_of(u: UrlData) -> Seq<char> {
    match u.query {
        Some(q) => u.path + "?"@ + q,
        None => u.path,
    }
}

/// The route under which a URL is looked up among redirects: nothing for a
/// blank text; a trimmed text starting with `/` as it is; otherwise the
/// path and query of the URL it parses to.
pub open spec fn lookup_route(value: Seq<char>) -> Option<Seq<char>> {
    let v = trim(value);
    if v.len() == 0 {
        None
    } else if starts_with(v, "/"@) {
        Some(v)
    } else {
        match parsed_url(v) {
            Some(u) => Some(route_of(u)),
            None => None,
        }
    }
}

/// The route under which a URL is looked up among redirects (see
/// `lookup_route`).
pub fn redirect_lookup_route(value: &str) -> (r: Option<String>)
    ensures
        opt_view(r) == lookup_route(value@),
{
    let v = trim_str(value);
    if v.as_str().unicode_len() == 0 {
        return None;
    }
    proof {
        reveal_strlit("/");
    }
    if str_starts_with(v.as_str(), "/") {
        return Some(v);
    }
    match parse_url(v.as_str()) {
        Some(u) => {
            let mut route = u.path.clone();
            if let Some(q) = &u.query {
                append(&mut route, "?");
                append(&mut route, q.as_str());
            }
            Some(route)
        },
        None => None,
    }
}

// ---------------------------------------------------------------------------
// Sitemap submission
// ---------------------------------------------------------------------------

/// Whether a URL's scheme is `http` or `https`.
pub open spec fn is_http(u: UrlData) -> bool {
    u.scheme == "http"@ || u.scheme == "https"@
}

fn scheme_is_http(u: &UrlParts) -> (r: bool)
    ensures
        r == is_http(u@),
{
    str_eq(u.scheme.as_str(), "http") || str_eq(u.scheme.as_str(), "https")
}

/// The text with every non-overlapping occurrence of `pat`, left to right,
/// replaced by `rep` (`str::replace`).
pub open spec fn replace_all(s: Seq<char>, pat: Seq<char>, rep: Seq<char>) -> Seq<char>
    decreases s.len(),
{
    if pat.len() == 0 || s.len() < pat.len() {
        s
    } else if s.take(pat.len() as int) == pat {
        rep + replace_all(s.skip(pat.len() as int), pat, rep)
    } else {
        seq![s[0]] + replace_all(s.skip(1), pat, rep)
    }
}

/// Replaces every occurrence of a non-empty pattern (see `replace_all`).
pub fn replace_text(s: &str, pat: &str, rep: &str) -> (r: String)
    requires
        pat@.len() > 0,
    ensures
        r@ == replace_all(s@, pat@, rep@),
{
    let cs = crate::text::chars_of(s);
    let ps = crate::text::chars_of(pat);
    let mut out = String::new();
    let mut i: usize = 0;
    assert(s@.skip(0) =~= s@);
    assert(out@ =~= Seq::<char>::empty());
    while i < cs.len()
        invariant
            i <= cs.len(),
            cs@ == s@,
            ps@ == pat@,
            ps@.len() > 0,
            out@ + replace_all(s@.skip(i as int), pat@, rep@) == replace_all(s@, pat@, rep@),
        decreases cs.len() - i,
    {
        let ghost rest = s@.skip(i as int);
        if cs.len() - i >= ps.len() && crate::text::chars_occur_at(&cs, &ps, i) {
            proof {
                assert(rest.take(pat@.len() as int) =~= pat@);
                assert(rest.skip(pat@.len() as int) =~= s@.skip(i + pat@.len()));
            }
            append(&mut out, rep);
            i = i + ps.len();
        } else {
            proof {
                if rest.len() >= pat@.len() {
                    assert(rest.take(pat@.len() as int) =~= cs@.subrange(i as int, i + pat@.len()));
                }
                assert(rest.skip(1) =~= s@.skip(i + 1));
                assert(seq![rest[0]] + replace_all(rest.skip(1), pat@, rep@) == replace_all(rest, pat@, rep@));
            }
            out.push(cs[i]);
            proof {
                assert(out@ =~= (out@.drop_last()).push(cs@[i as int]));
            }
            i = i + 1;
        }
    }
    assert(s@.skip(cs.len() as int) =~= Seq::<char>::empty());
    out
}

/// Whether a query pair is named `sitemap`, ignoring ASCII case.
pub open spec fn names_sitemap(p: (Seq<char>, Seq<char>)) -> bool {
    eq_ignore_case(p.0, "sitemap"@)
}

/// The URL a search engine is pinged at for a sitemap index: nothing for
/// a blank endpoint; with a `{sitemap_url}` placeholder, the endpoint with
/// the form-urlencoded sitemap URL put in, serialized as parsed; otherwise
/// the parsed endpoint, with `sitemap=<index url>` appended unless a
/// `sitemap` query pair is already there.  Only `http` and `https` URLs
/// qualify.
pub open spec fn submission_url(endpoint: Seq<char>, index_url: Seq<char>) -> Option<Seq<char>> {
    let e = trim(endpoint);
    if e.len() == 0 {
        None
    } else if crate::text::contains(e, "{sitemap_url}"@) {
        let replaced = replace_all(e, "{sitemap_url}"@, form_urlencoded_text(index_url));
        match parsed_url(replaced) {
            Some(u) => if is_http(u) {
                Some(u.serialized)
            } else {
                None
            },
            None => None,
        }
    } else {
        match parsed_url(e) {
            Some(u) => if !is_http(u) {
                None
            } else if exists|k: int| 0 <= k < u.query_pairs.len() && names_sitemap(#[trigger] u.query_pairs[k]) {
                Some(u.serialized)
            } else {
                url_text_with_pair(e, "sitemap"@, index_url)
            },
            None => None,
        }
    }
}

fn has_sitemap_pair(pairs: &Vec<(String, String)>) -> (r: bool)
    ensures
        r == exists|k: int| 0 <= k < pairs.len() && names_sitemap(#[trigger] pairs_view(pairs@)[k]),
{
    let mut i: usize = 0;
    while i < pairs.len()
        invariant
            i <= pairs.len(),
            forall|k: int| 0 <= k < i ==> !names_sitemap(#[trigger] pairs_view(pairs@)[k]),
        decreases pairs.len() - i,
    {
        if str_eq_ascii_case(pairs[i].0.as_str(), "sitemap") {
            assert(names_sitemap(pairs_view(pairs@)[i as int]));
            return true;
        }
        i = i + 1;
    }
    false
}

/// The URL a search engine is pinged at (see `submission_url`).
pub fn build_sitemap_submission_url(endpoint: &str, sitemap_index_url: &str) -> (r: Option<String>)
    ensures
        opt_view(r) == submission_url(endpoint@, sitemap_index_url@),
{
    let normalized = trim_str(endpoint);
    if normalized.as_str().unicode_len() == 0 {
        return None;
    }
    let ghost e = normalized@;
    if crate::text::str_contains(normalized.as_str(), "{sitemap_url}") {
        let encoded = form_urlencode(sitemap_index_url);
        proof {
            reveal_strlit("{sitemap_url}");
        }
        let replaced = replace_text(normalized.as_str(), "{sitemap_url}", encoded.as_str());
        let r = match parse_url(replaced.as_str()) {
            Some(u) => if scheme_is_http(&u) {
                Some(u.serialized)
            } else {
                None
            },
            None => None,
        };
        return r;
    }
    assert(!crate::text::contains(e, "{sitemap_url}"@));
    match parse_url(normalized.as_str()) {
        Some(u) => {
            if !scheme_is_http(&u) {
                return None;
            }
            let ghost ud = u@;
            if has_sitemap_pair(&u.query_pairs) {
                assert(ud.query_pairs == pairs_view(u.query_pairs@));
                proof {
                    let k = choose|k: int| 0 <= k < u.query_pairs.len() && names_sitemap(#[trigger] pairs_view(u.query_pairs@)[k]);
                    assert(names_sitemap(ud.query_pairs[k]));
                }
                Some(u.serialized)
            } else {
                assert(ud.query_pairs == pairs_view(u.query_pairs@));
                assert(!(exists|k: int| 0 <= k < ud.query_pairs.len() && names_sitemap(#[trigger] ud.query_pairs[k])));
                url_with_query_pair(normalized.as_str(), "sitemap", sitemap_index_url)
            }
        },
        None => None,
    }
}

/// The normalized form of one configured endpoint: the trimmed text, when
/// not blank, parsed as an `http` or `https` URL and serialized without
/// its fragment.
pub open spec fn normalized_endpoint(value: Seq<char>) -> Option<Seq<char>> {
    let t = trim(value);
    if t.len() == 0 {
        None
    } else {
        match parsed_url(t) {
            Some(u) => if is_http(u) {
                url_text_without_fragment(t)
            } else {
                None
            },
            None => None,
        }
    }
}

/// The normalized endpoints of a list, in order, invalid ones dropped.
pub open spec fn normalized_endpoints(values: Seq<Seq<char>>) -> Seq<Seq<char>>
    decreases values.len(),
{
    if values.len() == 0 {
        Seq::empty()
    } else {
        match normalized_endpoint(values.last()) {
            Some(n) => normalized_endpoints(values.drop_last()).push(n),
            None => normalized_endpoints(values.drop_last()),
        }
    }
}

/// The sitemap submission endpoints of the settings: each normalized (see
/// `normalized_endpoint`), invalid ones dropped, the rest without repeats
/// in ascending order.
pub fn normalize_sitemap_submission_endpoints(values: &Vec<String>) -> (r: Vec<String>)
    ensures
        views(r@) == sorted_unique(normalized_endpoints(views(values@))),
        strictly_sorted(views(r@)),
{
    let mut unique: Vec<String> = Vec::new();
    let mut i: usize = 0;
    while i < values.len()
        invariant
            i <= values.len(),
            views(unique@) == sorted_unique(normalized_endpoints(views(values@.take(i as int)))),
            strictly_sorted(views(unique@)),
        decreases values.len() - i,
    {
        proof {
            crate::text::lemma_views_take_next(values@, i as int);
        }
        let ghost prev = views(values@.take(i as int));
        let ghost cur = views(values@.take(i as int + 1));
        proof {
            assert(cur.drop_last() == prev);
            assert(cur.last() == values@[i as int]@);
            let su = sorted_unique(normalized_endpoints(prev));
            match normalized_endpoint(values@[i as int]@) {
                Some(n) => {
                    assert(normalized_endpoints(cur) == normalized_endpoints(prev).push(n));
                    assert(normalized_endpoints(prev).push(n).drop_last() =~= normalized_endpoints(prev));
                    assert(sorted_unique(normalized_endpoints(cur)) == sorted_insert(su, n));
                },
                None => {
                    assert(normalized_endpoints(cur) == normalized_endpoints(prev));
                },
            }
        }
        let trimmed = trim_str(values[i].as_str());
        if trimmed.as_str().unicode_len() > 0 {
            match parse_url(trimmed.as_str()) {
                Some(u) => {
                    if scheme_is_http(&u) {
                        match url_without_fragment(trimmed.as_str()) {
                            Some(n) => {
                                insert_sorted_unique(&mut unique, n);
                            },
                            None => {},
                        }
                    }
                },
                None => {},
            }
        }
        i = i + 1;
    }
    assert(values@.take(values.len() as int) =~= values@);
    unique
}

// ---------------------------------------------------------------------------
// Media identifiers
// ---------------------------------------------------------------------------

/// The URL a media reference parses to: as given, or else relative to
/// `https://rustok.local`.
pub open spec fn media_url(value: Seq<char>) -> Option<UrlData> {
    match parsed_url(value) {
        Some(u) => Some(u),
        None => parsed_url("https://rustok.local"@ + value),
    }
}

/// Whether a query pair names a media identifier (`media_id` or `id`,
/// ignoring ASCII case).
pub open spec fn names_media_id(p: (Seq<char>, Seq<char>)) -> bool {
    eq_ignore_case(p.0, "media_id"@) || eq_ignore_case(p.0, "id"@)
}

/// The index of the first pair that names a media identifier at or after
/// `from`.
pub open spec fn first_media_pair(pairs: Seq<(Seq<char>, Seq<char>)>, from: int) -> Option<int>
    decreases pairs.len() - from,
{
    if from < 0 || from >= pairs.len() {
        None
    } else if names_media_id(pairs[from]) {
        Some(from)
    } else {
        first_media_pair(pairs, from + 1)
    }
}

/// The non-empty path segments, in order.
pub open spec fn nonempty_segments(s: Seq<Seq<char>>) -> Seq<Seq<char>>
    decreases s.len(),
{
    if s.len() == 0 {
        s
    } else if s.last().len() > 0 {
        nonempty_segments(s.drop_last()).push(s.last())
    } else {
        nonempty_segments(s.drop_last())
    }
}

/// The first identifier that follows a `media` segment (ignoring ASCII
/// case) and parses as a UUID, looking at segment pairs from `from` on.
pub open spec fn media_segment_id(s: Seq<Seq<char>>, from: int) -> Option<u128>
    decreases s.len() - from,
{
    if from < 0 || from + 1 >= s.len() {
        None
    } else if eq_ignore_case(s[from], "media"@) && uuid_value(s[from + 1]) is Some {
        uuid_value(s[from + 1])
    } else {
        media_segment_id(s, from + 1)
    }
}

/// The media identifier inside a URL: the UUID of the first query pair
/// named `media_id` or `id` when it parses; else the UUID after the first
/// `media` path segment that is followed by one.
pub open spec fn media_id_of(value: Seq<char>) -> Option<u128> {
    match media_url(value) {
        Some(u) => {
            let from_query = match first_media_pair(u.query_pairs, 0) {
                Some(k) => uuid_value(u.query_pairs[k].1),
                None => None,
            };
            if from_query is Some {
                from_query
            } else {
                match u.path_segments {
                    Some(segs) => media_segment_id(nonempty_segments(segs), 0),
                    None => None,
                }
            }
        },
        None => None,
    }
}

fn find_media_pair(pairs: &Vec<(String, String)>) -> (r: Option<usize>)
    ensures
        match r {
            Some(k) => first_media_pair(pairs_view(pairs@), 0) == Some(k as int) && k < pairs.len(),
            None => first_media_pair(pairs_view(pairs@), 0) is None,
        },
{
    let ghost pv = pairs_view(pairs@);
    let mut i: usize = 0;
    while i < pairs.len()
        invariant
            i <= pairs.len(),
            pv == pairs_view(pairs@),
            first_media_pair(pv, 0) == first_media_pair(pv, i as int),
        decreases pairs.len() - i,
    {
        let key = pairs[i].0.as_str();
        assert(pv[i as int] == (pairs@[i as int].0@, pairs@[i as int].1@));
        if str_eq_ascii_case(key, "media_id") || str_eq_ascii_case(key, "id") {
            assert(names_media_id(pv[i as int]));
            return Some(i);
        }
        assert(!names_media_id(pv[i as int]));
        i = i + 1;
    }
    None
}

fn nonempty_segment_list(segs: &Vec<String>) -> (r: Vec<String>)
    ensures
        views(r@) == nonempty_segments(views(segs@)),
{
    let mut r: Vec<String> = Vec::new();
    let mut i: usize = 0;
    while i < segs.len()
        invariant
            i <= segs.len(),
            views(r@) == nonempty_segments(views(segs@.take(i as int))),
        decreases segs.len() - i,
    {
        proof {
            crate::text::lemma_views_take_next(segs@, i as int);
        }
        if segs[i].as_str().unicode_len() > 0 {
            proof {
                crate::text::lemma_views_push(r@, segs@[i as int]);
            }
            r.push(segs[i].clone());
        }
        i = i + 1;
    }
    assert(segs@.take(segs.len() as int) =~= segs@);
    r
}

/// The media identifier inside a URL (see `media_id_of`), as the 128-bit
/// value of its UUID.
pub fn parse_media_id_from_url(value: &str) -> (r: Option<u128>)
    ensures
        r == media_id_of(value@),
{
    let parsed = match parse_url(value) {
        Some(u) => u,
        None => {
            let mut rel = owned("https://rustok.local");
            append(&mut rel, value);
            match parse_url(rel.as_str()) {
                Some(u) => u,
                None => return None,
            }
        },
    };
    proof {
        reveal_strlit("https://rustok.local");
    }
    let ghost u = parsed@;
    assert(media_url(value@) == Some(u));
    if let Some(k) = find_media_pair(&parsed.query_pairs) {
        assert(u.query_pairs[k as int] == (parsed.query_pairs@[k as int].0@, parsed.query_pairs@[k as int].1@));
        let id = uuid_of(parsed.query_pairs[k].1.as_str());
        if id.is_some() {
            return id;
        }
    }
    match &parsed.path_segments {
        Some(segs) => {
            let items = nonempty_segment_list(segs);
            let ghost sv = views(items@);
            assert(media_id_of(value@) == media_segment_id(sv, 0));
            let mut i: usize = 0;
            while items.len() > 1 && i < items.len() - 1
                invariant
                    i <= items.len(),
                    sv == views(items@),
                    media_id_of(value@) == media_segment_id(sv, 0),
                    media_segment_id(sv, 0) == media_segment_id(sv, i as int),
                decreases items.len() - i,
            {
                assert(sv[i as int] == items@[i as int]@);
                assert(sv[i + 1] == items@[i + 1]@);
                if str_eq_ascii_case(items[i].as_str(), "media") {
                    let id = uuid_of(items[i + 1].as_str());
                    if id.is_some() {
                        return id;
                    }
                }
                i = i + 1;
            }
            None
        },
        None => None,
    }
}

} // verus!
