//! robots.txt and sitemap XML rendering, and the summary of a sitemap
//! submission run.
use vstd::prelude::*;

use crate::text::{
    append, byte_len, byte_len_at_most, concat, dec_nat, join, join_strings, lemma_concat_push,
    lemma_byte_len_concat, lemma_prefix_within, owned, prefix_within, prefix_within_bytes, push_dec_u64, views,
    insert_sorted_unique, sorted_unique, strictly_sorted,
};

verus! {

/// The longest submission error kept, in bytes, before the ellipsis.
pub const SITEMAP_SUBMIT_MAX_ERROR_LEN: usize = 4000;

/// The robots.txt body: allow everything, and point at the sitemap index
/// when sitemaps are enabled.
pub open spec fn robots_body(base_url: Seq<char>, sitemap_enabled: bool) -> Seq<char> {
    if sitemap_enabled {
        "User-agent: *\nAllow: /\nSitemap: "@ + base_url + "/sitemap.xml\n"@
    } else {
        "User-agent: *\nAllow: /\n"@
    }
}

/// The robots.txt body (see `robots_body`).
pub fn render_robots_body(base_url: &str, sitemap_enabled: bool) -> (r: String)
    ensures
        r@ == robots_body(base_url@, sitemap_enabled),
{
    if sitemap_enabled {
        let mut body = owned("User-agent: *\nAllow: /\nSitemap: ");
        append(&mut body, base_url);
        append(&mut body, "/sitemap.xml\n");
        body
    } else {
        owned("User-agent: *\nAllow: /\n")
    }
}

/// The robots.txt preview of a site at `base_url`: the body served, the
/// URL it is served at, and the sitemap index URL when sitemaps are enabled.
pub fn robots_preview_record(base_url: &str, sitemap_enabled: bool) -> (r: crate::dto::SeoRobotsPreviewRecord)
    ensures
        r.body@ == robots_body(base_url@, sitemap_enabled),
        r.public_url@ == base_url@ + "/robots.txt"@,
        sitemap_enabled ==> (r.sitemap_index_url matches Some(u) && u@ == base_url@ + "/sitemap.xml"@),
        !sitemap_enabled ==> r.sitemap_index_url is None,
{
    let body = render_robots_body(base_url, sitemap_enabled);
    let mut public_url = owned(base_url);
    append(&mut public_url, "/robots.txt");
    let sitemap_index_url = if sitemap_enabled {
        let mut u = owned(base_url);
        append(&mut u, "/sitemap.xml");
        Some(u)
    } else {
        None
    };
    crate::dto::SeoRobotsPreviewRecord { body, public_url, sitemap_index_url }
}

/// The XML escape of one character.
pub open spec fn xml_escape_char(c: char) -> Seq<char> {
    if c == '&' {
        "&amp;"@
    } else if c == '<' {
        "&lt;"@
    } else if c == '>' {
        "&gt;"@
    } else if c == '"' {
        "&quot;"@
    } else if c == '\'' {
        "&apos;"@
    } else {
        seq![c]
    }
}

/// The XML escape of a text.
pub open spec fn xml_escaped(s: Seq<char>) -> Seq<char>
    decreases s.len(),
{
    if s.len() == 0 {
        Seq::empty()
    } else {
        xml_escaped(s.drop_last()) + xml_escape_char(s.last())
    }
}

fn push_xml_escaped(out: &mut String, text: &str)
    ensures
        final(out)@ == old(out)@ + xml_escaped(text@),
{
    let chars = crate::text::chars_of(text);
    let mut i: usize = 0;
    while i < chars.len()
        invariant
            i <= chars.len(),
            chars@ == text@,
            out@ == old(out)@ + xml_escaped(text@.take(i as int)),
        decreases chars.len() - i,
    {
        let c = chars[i];
        let ghost before = out@;
        if c == '&' {
            append(out, "&amp;");
        } else if c == '<' {
            append(out, "&lt;");
        } else if c == '>' {
            append(out, "&gt;");
        } else if c == '"' {
            append(out, "&quot;");
        } else if c == '\'' {
            append(out, "&apos;");
        } else {
            out.push(c);
        }
        proof {
            assert(out@ =~= before + xml_escape_char(c));
            assert(text@.take(i as int + 1).drop_last() =~= text@.take(i as int));
        }
        i = i + 1;
    }
    assert(text@.take(chars.len() as int) =~= text@);
}

/// The XML escape of a text: `&`, `<`, `>`, `"` and `'` become entities.
pub fn xml_escape(value: &str) -> (r: String)
    ensures
        r@ == xml_escaped(value@),
{
    let mut out = String::new();
    push_xml_escaped(&mut out, value);
    assert(out@ =~= xml_escaped(value@));
    out
}

/// The entries of a sitemap document, each URL escaped inside
/// `open` and `close`.
pub open spec fn loc_entries(urls: Seq<Seq<char>>, open: Seq<char>, close: Seq<char>) -> Seq<Seq<char>> {
    urls.map_values(|u: Seq<char>| open + xml_escaped(u) + close)
}

/// A sitemap file listing the URLs.
pub open spec fn sitemap_file(urls: Seq<Seq<char>>) -> Seq<char> {
    "<?xml version=\"1.0\" encoding=\"UTF-8\"?>\n<urlset xmlns=\"http://www.sitemaps.org/schemas/sitemap/0.9\">"@
        + concat(loc_entries(urls, "<url><loc>"@, "</loc></url>"@)) + "</urlset>"@
}

/// A sitemap index listing the sitemap file URLs.
pub open spec fn sitemap_index(urls: Seq<Seq<char>>) -> Seq<char> {
    "<?xml version=\"1.0\" encoding=\"UTF-8\"?>\n<sitemapindex xmlns=\"http://www.sitemaps.org/schemas/sitemap/0.9\">"@
        + concat(loc_entries(urls, "<sitemap><loc>"@, "</loc></sitemap>"@)) + "</sitemapindex>"@
}

fn push_locs(out: &mut String, urls: &Vec<String>, open: &str, close: &str)
    ensures
        final(out)@ == old(out)@ + concat(loc_entries(views(urls@), open@, close@)),
{
    let mut i: usize = 0;
    while i < urls.len()
        invariant
            i <= urls.len(),
            out@ == old(out)@ + concat(loc_entries(views(urls@.take(i as int)), open@, close@)),
        decreases urls.len() - i,
    {
        let ghost entry = open@ + xml_escaped(urls@[i as int]@) + close@;
        proof {
            crate::text::lemma_views_take_next(urls@, i as int);
            assert(loc_entries(views(urls@.take(i as int + 1)), open@, close@) =~= loc_entries(
                views(urls@.take(i as int)),
                open@,
                close@,
            ).push(entry));
            lemma_concat_push(loc_entries(views(urls@.take(i as int)), open@, close@), entry);
        }
        let ghost before = out@;
        append(out, open);
        push_xml_escaped(out, urls[i].as_str());
        append(out, close);
        assert(out@ =~= before + entry);
        i = i + 1;
    }
    assert(urls@.take(urls.len() as int) =~= urls@);
}

/// A sitemap file (see `sitemap_file`).
pub fn render_sitemap_file(urls: &Vec<String>) -> (r: String)
    ensures
        r@ == sitemap_file(views(urls@)),
{
    let mut out = owned(
        "<?xml version=\"1.0\" encoding=\"UTF-8\"?>\n<urlset xmlns=\"http://www.sitemaps.org/schemas/sitemap/0.9\">",
    );
    push_locs(&mut out, urls, "<url><loc>", "</loc></url>");
    append(&mut out, "</urlset>");
    out
}

/// A sitemap index (see `sitemap_index`).
pub fn render_sitemap_index(urls: &Vec<String>) -> (r: String)
    ensures
        r@ == sitemap_index(views(urls@)),
{
    let mut out = owned(
        "<?xml version=\"1.0\" encoding=\"UTF-8\"?>\n<sitemapindex xmlns=\"http://www.sitemaps.org/schemas/sitemap/0.9\">",
    );
    push_locs(&mut out, urls, "<sitemap><loc>", "</loc></sitemap>");
    append(&mut out, "</sitemapindex>");
    out
}

/// The outcome counts of a sitemap submission run and the failure details
/// in the order they happened.
#[derive(Clone, Debug)]
pub struct SitemapSubmissionSummary {
    pub success_count: usize,
    pub failure_count: usize,
    pub failures: Vec<String>,
}

/// The headline of a submission error.
pub open spec fn submission_headline(success: nat, failure: nat) -> Seq<char> {
    "sitemap submission finished with "@ + dec_nat(success) + " success(es) and "@ + dec_nat(
        failure,
    ) + " failure(s)"@
}

/// The full submission text: the headline, then the failure details,
/// separated by `; `.
pub open spec fn message_of(success: nat, failure: nat, failures: Seq<Seq<char>>) -> Seq<char> {
    join(seq![submission_headline(success, failure)] + failures, "; "@)
}

/// The submission error for the given counts and details: none without
/// failures; otherwise the full text, cut to 4000 bytes and marked with
/// `...` when longer.
pub open spec fn error_of(success: nat, failure: nat, failures: Seq<Seq<char>>) -> Option<Seq<char>> {
    if failure == 0 {
        None
    } else {
        let m = message_of(success, failure, failures);
        if byte_len(m) > SITEMAP_SUBMIT_MAX_ERROR_LEN {
            Some(prefix_within(m, SITEMAP_SUBMIT_MAX_ERROR_LEN as nat) + "..."@)
        } else {
            Some(m)
        }
    }
}

/// The full submission text of a summary.
pub open spec fn submission_message(s: SitemapSubmissionSummary) -> Seq<char> {
    message_of(s.success_count as nat, s.failure_count as nat, views(s.failures@))
}

/// A text can be cut at `n` bytes: it is no longer, or a character ends
/// exactly there.
pub open spec fn cuttable_at(m: Seq<char>, n: nat) -> bool {
    byte_len(m) <= n || byte_len(prefix_within(m, n)) == n
}

/// The submission error of a summary.
pub open spec fn submission_error(s: SitemapSubmissionSummary) -> Option<Seq<char>> {
    error_of(s.success_count as nat, s.failure_count as nat, views(s.failures@))
}

/// A submission error is never longer than 4000 bytes and the ellipsis.
pub proof fn lemma_submission_error_bounded(success: nat, failure: nat, failures: Seq<Seq<char>>)
    ensures
        match error_of(success, failure, failures) {
            Some(m) => byte_len(m) <= SITEMAP_SUBMIT_MAX_ERROR_LEN + 3,
            None => failure == 0,
        },
{
    let m = message_of(success, failure, failures);
    lemma_prefix_within(m, SITEMAP_SUBMIT_MAX_ERROR_LEN as nat);
    let p = prefix_within(m, SITEMAP_SUBMIT_MAX_ERROR_LEN as nat);
    lemma_byte_len_concat(p, "..."@);
    assert(byte_len("..."@) == 3) by {
        reveal_strlit("...");
        reveal_with_fuel(byte_len, 4);
    }
}

impl SitemapSubmissionSummary {
    /// The full submission message (see `submission_message`), before any
    /// cut.  A caller can check with it where the cut in `into_error` falls.
    pub fn full_message(&self) -> (r: String)
        ensures
            r@ == submission_message(*self),
    {
        let mut head = owned("sitemap submission finished with ");
        push_dec_u64(&mut head, self.success_count as u64);
        append(&mut head, " success(es) and ");
        push_dec_u64(&mut head, self.failure_count as u64);
        append(&mut head, " failure(s)");
        let mut parts: Vec<String> = Vec::new();
        parts.push(head);
        let mut i: usize = 0;
        while i < self.failures.len()
            invariant
                i <= self.failures.len(),
                views(parts@) == seq![
                    submission_headline(self.success_count as nat, self.failure_count as nat),
                ] + views(self.failures@.take(i as int)),
            decreases self.failures.len() - i,
        {
            let f = self.failures[i].clone();
            proof {
                crate::text::lemma_views_push(parts@, f);
                crate::text::lemma_views_take_next(self.failures@, i as int);
            }
            parts.push(f);
            i = i + 1;
        }
        assert(self.failures@.take(self.failures.len() as int) =~= self.failures@);
        join_strings(&parts, "; ")
    }

    /// The submission error of the run (see `submission_error`).  The
    /// message is cut at a byte offset, which must fall between characters.
    pub fn into_error(self) -> (r: Option<String>)
        requires
            cuttable_at(submission_message(self), SITEMAP_SUBMIT_MAX_ERROR_LEN as nat),
        ensures
            match (r, submission_error(self)) {
                (Some(m), Some(e)) => m@ == e,
                (None, None) => true,
                _ => false,
            },
    {
        if self.failure_count == 0 {
            return None;
        }
        let message = self.full_message();
        if byte_len_at_most(message.as_str(), SITEMAP_SUBMIT_MAX_ERROR_LEN) {
            Some(message)
        } else {
            let mut cut = prefix_within_bytes(message.as_str(), SITEMAP_SUBMIT_MAX_ERROR_LEN);
            append(&mut cut, "...");
            Some(cut)
        }
    }
}


// ---------------------------------------------------------------------------
// Sitemap files
// ---------------------------------------------------------------------------

/// The number of URLs a sitemap file lists at most.
pub const SITEMAP_CHUNK_SIZE: usize = 500;

/// The URLs split into consecutive chunks of at most 500.
pub open spec fn url_chunks(s: Seq<Seq<char>>) -> Seq<Seq<Seq<char>>>
    decreases s.len(),
{
    if s.len() == 0 {
        Seq::empty()
    } else if s.len() <= SITEMAP_CHUNK_SIZE {
        seq![s]
    } else {
        seq![s.take(SITEMAP_CHUNK_SIZE as int)] + url_chunks(s.skip(SITEMAP_CHUNK_SIZE as int))
    }
}

/// The path of the `k`-th sitemap file (from 0): `sitemap-<k + 1>.xml`.
pub open spec fn chunk_path(k: nat) -> Seq<char> {
    "sitemap-"@ + dec_nat(k + 1) + ".xml"@
}

/// The public URL of a sitemap file.
pub open spec fn sitemap_file_url(base_url: Seq<char>, path: Seq<char>) -> Seq<char> {
    base_url + "/sitemaps/"@ + path
}

/// A sitemap document to store: its path, how many URLs it counts, and
/// its XML.
#[derive(Clone, Debug)]
pub struct SitemapFileOutput {
    pub path: String,
    pub url_count: i32,
    pub content: String,
}

/// The sitemap documents of a generation run: the index `sitemap.xml`
/// first (counting every URL and listing the public URL of each file),
/// then one `sitemap-<n>.xml` per chunk of at most 500 URLs, in order.
pub open spec fn is_sitemap_plan(r: Seq<SitemapFileOutput>, base_url: Seq<char>, urls: Seq<Seq<char>>) -> bool {
    let chunks = url_chunks(urls);
    &&& r.len() == chunks.len() + 1
    &&& r[0].path@ == "sitemap.xml"@
    &&& r[0].url_count == urls.len()
    &&& r[0].content@ == sitemap_index(
        Seq::new(chunks.len(), |k: int| sitemap_file_url(base_url, chunk_path(k as nat))),
    )
    &&& forall|k: int|
        0 <= k < chunks.len() ==> {
            &&& (#[trigger] r[k + 1]).path@ == chunk_path(k as nat)
            &&& r[k + 1].url_count == chunks[k].len()
            &&& r[k + 1].content@ == sitemap_file(chunks[k])
        }
}

proof fn lemma_chunks_skip(s: Seq<Seq<char>>, i: int)
    requires
        0 <= i,
        i + SITEMAP_CHUNK_SIZE < s.len(),
    ensures
        url_chunks(s.skip(i)) == seq![s.skip(i).take(SITEMAP_CHUNK_SIZE as int)] + url_chunks(
            s.skip(i + SITEMAP_CHUNK_SIZE),
        ),
{
    assert(s.skip(i).skip(SITEMAP_CHUNK_SIZE as int) =~= s.skip(i + SITEMAP_CHUNK_SIZE));
}

proof fn lemma_chunk_lengths(s: Seq<Seq<char>>)
    ensures
        forall|k: int| 0 <= k < url_chunks(s).len() ==> (#[trigger] url_chunks(s)[k]).len() <= s.len(),
        url_chunks(s).len() <= s.len(),
    decreases s.len(),
{
    if s.len() > SITEMAP_CHUNK_SIZE {
        let t = s.skip(SITEMAP_CHUNK_SIZE as int);
        lemma_chunk_lengths(t);
        let c = url_chunks(s);
        assert forall|k: int| 0 <= k < c.len() implies (#[trigger] c[k]).len() <= s.len() by {
            if k > 0 {
                assert(c[k] == url_chunks(t)[k - 1]);
            }
        }
    }
}

/// The public URLs of routes: the base URL before each route path.
pub open spec fn route_urls(base_url: Seq<char>, paths: Seq<Seq<char>>) -> Seq<Seq<char>> {
    paths.map_values(|p: Seq<char>| base_url + p)
}

/// The URLs a sitemap lists: the public URL of each (locale-prefixed) route
/// path, sorted, each once.
pub fn sitemap_urls(base_url: &str, paths: &Vec<String>) -> (r: Vec<String>)
    ensures
        views(r@) == sorted_unique(route_urls(base_url@, views(paths@))),
        strictly_sorted(views(r@)),
{
    let mut urls: Vec<String> = Vec::new();
    let mut i: usize = 0;
    while i < paths.len()
        invariant
            i <= paths.len(),
            views(urls@) == sorted_unique(route_urls(base_url@, views(paths@.take(i as int)))),
            strictly_sorted(views(urls@)),
        decreases paths.len() - i,
    {
        proof {
            crate::text::lemma_views_take_next(paths@, i as int);
            let cur = route_urls(base_url@, views(paths@.take(i as int + 1)));
            let prev = route_urls(base_url@, views(paths@.take(i as int)));
            assert(cur.drop_last() =~= prev);
        }
        let mut url = owned(base_url);
        append(&mut url, paths[i].as_str());
        insert_sorted_unique(&mut urls, url);
        i = i + 1;
    }
    assert(paths@.take(paths.len() as int) =~= paths@);
    urls
}

/// The sitemap files split the URLs without loss: in order, the chunks
/// give back every URL once, and each chunk holds between 1 and 500 URLs.
pub proof fn lemma_url_chunks_partition(s: Seq<Seq<char>>)
    ensures
        url_chunks(s).flatten() == s,
        forall|k: int|
            0 <= k < url_chunks(s).len() ==> 0 < (#[trigger] url_chunks(s)[k]).len()
                <= SITEMAP_CHUNK_SIZE,
    decreases s.len(),
{
    let c = url_chunks(s);
    if s.len() == 0 {
    } else if s.len() <= SITEMAP_CHUNK_SIZE {
        assert(c.drop_first() =~= Seq::<Seq<Seq<char>>>::empty());
        assert(c.first() + c.drop_first().flatten() =~= s);
    } else {
        let t = s.skip(SITEMAP_CHUNK_SIZE as int);
        lemma_url_chunks_partition(t);
        assert(c.drop_first() =~= url_chunks(t));
        assert(s.take(SITEMAP_CHUNK_SIZE as int) + t =~= s);
        assert forall|k: int| 0 <= k < c.len() implies 0 < (#[trigger] c[k]).len() <= SITEMAP_CHUNK_SIZE by {
            if k > 0 {
                assert(c[k] == url_chunks(t)[k - 1]);
            }
        }
    }
}

/// The sitemap documents of a generation run over the (already sorted and
/// deduplicated) URLs (see `is_sitemap_plan`).
pub fn plan_sitemap_files(base_url: &str, urls: &Vec<String>) -> (r: Vec<SitemapFileOutput>)
    requires
        urls.len() <= i32::MAX,
    ensures
        is_sitemap_plan(r@, base_url@, views(urls@)),
{
    let ghost all = views(urls@);
    proof {
        lemma_chunk_lengths(all);
    }
    let mut files: Vec<SitemapFileOutput> = Vec::new();
    let mut index_urls: Vec<String> = Vec::new();
    let mut start: usize = 0;
    let mut k: usize = 0;
    assert(all.skip(0) =~= all);
    while start < urls.len()
        invariant
            start <= urls.len(),
            urls.len() <= i32::MAX,
            all == views(urls@),
            k <= start,
            k <= url_chunks(all).len(),
            url_chunks(all) == url_chunks(all).take(k as int) + url_chunks(all.skip(start as int)),
            files.len() == k,
            views(index_urls@) == Seq::new(k as nat, |j: int| sitemap_file_url(base_url@, chunk_path(j as nat))),
            forall|j: int|
                0 <= j < k ==> {
                    &&& (#[trigger] files@[j]).path@ == chunk_path(j as nat)
                    &&& files@[j].url_count == url_chunks(all)[j].len()
                    &&& files@[j].content@ == sitemap_file(url_chunks(all)[j])
                },
            forall|j: int| 0 <= j < url_chunks(all).len() ==> (#[trigger] url_chunks(all)[j]).len() <= all.len(),
        decreases urls.len() - start,
    {
        let end: usize = if urls.len() - start > SITEMAP_CHUNK_SIZE {
            start + SITEMAP_CHUNK_SIZE
        } else {
            urls.len()
        };
        let ghost rest = all.skip(start as int);
        let ghost chunk = all.subrange(start as int, end as int);
        proof {
            if urls.len() - start > SITEMAP_CHUNK_SIZE {
                lemma_chunks_skip(all, start as int);
                assert(rest.take(SITEMAP_CHUNK_SIZE as int) =~= chunk);
                assert(url_chunks(rest) == seq![chunk] + url_chunks(all.skip(end as int)));
            } else {
                assert(rest =~= chunk);
                assert(url_chunks(rest) == seq![chunk]);
                assert(all.skip(end as int) =~= Seq::<Seq<char>>::empty());
                assert(url_chunks(all.skip(end as int)) =~= Seq::<Seq<Seq<char>>>::empty());
                assert(seq![chunk] + url_chunks(all.skip(end as int)) =~= seq![chunk]);
            }
            let cs = url_chunks(all);
            let tail = url_chunks(all.skip(end as int));
            assert(cs == cs.take(k as int) + (seq![chunk] + tail));
            assert(cs.take(k as int).len() == k);
            assert(cs.len() == k + 1 + tail.len());
            assert(cs[k as int] == (cs.take(k as int) + (seq![chunk] + tail))[k as int]);
            assert(cs[k as int] == chunk);
            assert(cs.take(k as int + 1) =~= cs.take(k as int).push(chunk));
            assert(cs =~= cs.take(k as int + 1) + tail);
        }
        let mut part: Vec<String> = Vec::new();
        let mut i: usize = start;
        while i < end
            invariant
                start <= i <= end,
                end <= urls.len(),
                all == views(urls@),
                views(part@) == all.subrange(start as int, i as int),
            decreases end - i,
        {
            let x = urls[i].clone();
            proof {
                crate::text::lemma_views_push(part@, x);
                assert(all.subrange(start as int, i as int + 1) =~= all.subrange(start as int, i as int).push(x@));
            }
            part.push(x);
            i = i + 1;
        }
        let mut path = owned("sitemap-");
        push_dec_u64(&mut path, (k + 1) as u64);
        append(&mut path, ".xml");
        let mut index_url = owned(base_url);
        append(&mut index_url, "/sitemaps/");
        append(&mut index_url, path.as_str());
        proof {
            crate::text::lemma_views_push(index_urls@, index_url);
            assert(Seq::new((k + 1) as nat, |j: int| sitemap_file_url(base_url@, chunk_path(j as nat)))
                =~= Seq::new(k as nat, |j: int| sitemap_file_url(base_url@, chunk_path(j as nat))).push(index_url@));
        }
        index_urls.push(index_url);
        let content = render_sitemap_file(&part);
        files.push(SitemapFileOutput { path, url_count: (end - start) as i32, content });
        k = k + 1;
        start = end;
    }
    assert(all.skip(urls.len() as int) =~= Seq::<Seq<char>>::empty());
    assert(url_chunks(all.skip(urls.len() as int)) =~= Seq::<Seq<Seq<char>>>::empty());
    assert(url_chunks(all).take(k as int) + Seq::<Seq<Seq<char>>>::empty() =~= url_chunks(all).take(k as int));
    assert(url_chunks(all) == url_chunks(all).take(k as int));
    assert(url_chunks(all).len() == k);
    let index = SitemapFileOutput {
        path: owned("sitemap.xml"),
        url_count: urls.len() as i32,
        content: render_sitemap_index(&index_urls),
    };
    let ghost before = files@;
    files.insert(0, index);
    proof {
        assert forall|j: int| 0 <= j < url_chunks(all).len() implies {
            &&& (#[trigger] files@[j + 1]).path@ == chunk_path(j as nat)
            &&& files@[j + 1].url_count == url_chunks(all)[j].len()
            &&& files@[j + 1].content@ == sitemap_file(url_chunks(all)[j])
        } by {
            assert(files@[j + 1] == before[j]);
        }
    }
    files
}

/// The public base URL of a tenant: its domain when it has one (kept with
/// an `http://` or `https://` scheme, else given `https://`), else the
/// configured fallback; trailing slashes are dropped.
pub open spec fn base_url_of(domain: Option<Seq<char>>, fallback: Seq<char>) -> Seq<char> {
    match domain {
        Some(d) => if crate::text::trim(d).len() > 0 {
            let t = crate::text::trim(d);
            if crate::text::starts_with(t, "http://"@) || crate::text::starts_with(t, "https://"@) {
                trim_end_slashes(t)
            } else {
                "https://"@ + trim_end_slashes(t)
            }
        } else {
            trim_end_slashes(fallback)
        },
        None => trim_end_slashes(fallback),
    }
}

/// A text without its trailing `/` characters.
pub open spec fn trim_end_slashes(s: Seq<char>) -> Seq<char>
    decreases s.len(),
{
    if s.len() > 0 && s.last() == '/' {
        trim_end_slashes(s.drop_last())
    } else {
        s
    }
}

fn without_trailing_slashes(s: &str) -> (r: String)
    ensures
        r@ == trim_end_slashes(s@),
{
    let chars = crate::text::chars_of(s);
    let mut n: usize = chars.len();
    assert(s@.take(n as int) =~= s@);
    while n > 0 && chars[n - 1] == '/'
        invariant
            n <= chars.len(),
            chars@ == s@,
            trim_end_slashes(s@) == trim_end_slashes(s@.take(n as int)),
        decreases n,
    {
        assert(s@.take(n as int).drop_last() =~= s@.take(n as int - 1));
        n = n - 1;
    }
    crate::text::string_from_range(&chars, 0, n)
}

/// The public base URL of a tenant (see `base_url_of`); the fallback is
/// the deployment's configured public URL.
pub fn public_base_url(domain: Option<&str>, fallback: &str) -> (r: String)
    ensures
        r@ == base_url_of(
            match domain {
                Some(d) => Some(d@),
                None => None,
            },
            fallback@,
        ),
{
    if let Some(d) = domain {
        let t = crate::text::trim_str(d);
        if t.as_str().unicode_len() > 0 {
            proof {
                reveal_strlit("http://");
                reveal_strlit("https://");
            }
            if crate::text::str_starts_with(t.as_str(), "http://") || crate::text::str_starts_with(
                t.as_str(),
                "https://",
            ) {
                return without_trailing_slashes(t.as_str());
            }
            let mut out = owned("https://");
            let rest = without_trailing_slashes(t.as_str());
            append(&mut out, rest.as_str());
            return out;
        }
    }
    without_trailing_slashes(fallback)
}

// ---------------------------------------------------------------------------
// Submission bookkeeping
// ---------------------------------------------------------------------------

/// An endpoint to ping and the request URL built for it.
#[derive(Clone, Debug)]
pub struct SitemapSubmitEndpoint {
    pub endpoint: String,
    pub request_url: String,
}

impl SitemapSubmissionSummary {
    /// A summary with nothing recorded.
    pub fn new() -> (r: SitemapSubmissionSummary)
        ensures
            r.success_count == 0,
            r.failure_count == 0,
            r.failures@.len() == 0,
    {
        SitemapSubmissionSummary { success_count: 0, failure_count: 0, failures: Vec::new() }
    }

    /// Records an endpoint no request URL could be built for.
    pub fn record_invalid_endpoint(&mut self, endpoint: &str)
        requires
            old(self).failure_count < usize::MAX,
        ensures
            final(self).success_count == old(self).success_count,
            final(self).failure_count == old(self).failure_count + 1,
            views(final(self).failures@) == views(old(self).failures@).push("invalid endpoint: "@ + endpoint@),
    {
        let mut m = owned("invalid endpoint: ");
        append(&mut m, endpoint);
        proof {
            crate::text::lemma_views_push(self.failures@, m);
        }
        self.failures.push(m);
        self.failure_count = self.failure_count + 1;
    }

    /// Records the outcome of a submission: a success, or a failure with
    /// its message.
    pub fn record_result(&mut self, result: Result<(), String>)
        requires
            old(self).success_count < usize::MAX,
            old(self).failure_count < usize::MAX,
        ensures
            match result {
                Ok(()) => {
                    &&& final(self).success_count == old(self).success_count + 1
                    &&& final(self).failure_count == old(self).failure_count
                    &&& final(self).failures@ == old(self).failures@
                },
                Err(m) => {
                    &&& final(self).success_count == old(self).success_count
                    &&& final(self).failure_count == old(self).failure_count + 1
                    &&& views(final(self).failures@) == views(old(self).failures@).push(m@)
                },
            },
    {
        match result {
            Ok(()) => {
                self.success_count = self.success_count + 1;
            },
            Err(m) => {
                proof {
                    crate::text::lemma_views_push(self.failures@, m);
                }
                self.failures.push(m);
                self.failure_count = self.failure_count + 1;
            },
        }
    }
}

/// The request to send for an endpoint, or none when no request URL can
/// be built for it (see `crate::urls::submission_url`).
pub fn submission_request(endpoint: &str, sitemap_index_url: &str) -> (r: Option<SitemapSubmitEndpoint>)
    ensures
        match r {
            Some(e) => e.endpoint@ == endpoint@ && crate::urls::submission_url(endpoint@, sitemap_index_url@)
                == Some(e.request_url@),
            None => crate::urls::submission_url(endpoint@, sitemap_index_url@) is None,
        },
{
    match crate::urls::build_sitemap_submission_url(endpoint, sitemap_index_url) {
        Some(u) => Some(SitemapSubmitEndpoint { endpoint: owned(endpoint), request_url: u }),
        None => None,
    }
}


// ---------------------------------------------------------------------------
// A submission run
// ---------------------------------------------------------------------------

/// An endpoint that a request URL can be built for.
pub open spec fn endpoint_valid(endpoint: Seq<char>, index_url: Seq<char>) -> bool {
    crate::urls::submission_url(endpoint, index_url) is Some
}

/// The endpoints that get a request, in their order.
pub open spec fn valid_endpoints(eps: Seq<Seq<char>>, index_url: Seq<char>) -> Seq<Seq<char>>
    decreases eps.len(),
{
    if eps.len() == 0 {
        Seq::empty()
    } else {
        let rest = valid_endpoints(eps.drop_last(), index_url);
        if endpoint_valid(eps.last(), index_url) {
            rest.push(eps.last())
        } else {
            rest
        }
    }
}

/// What an adapter answered, as plain values.
pub open spec fn outcome_view(r: Result<(), String>) -> Result<(), Seq<char>> {
    match r {
        Ok(()) => Ok(()),
        Err(m) => Err(m@),
    }
}

/// The success count, the failure count and the failure details after the
/// endpoints `eps`, where `outcomes` are the answers to the requests of
/// the valid endpoints, in order.  An invalid endpoint is a failure of its
/// own, noted as `invalid endpoint: <endpoint>`.
pub open spec fn summary_after(
    eps: Seq<Seq<char>>,
    index_url: Seq<char>,
    outcomes: Seq<Result<(), Seq<char>>>,
) -> (nat, nat, Seq<Seq<char>>)
    decreases eps.len(),
{
    if eps.len() == 0 {
        (0, 0, Seq::empty())
    } else {
        let last = eps.last();
        if endpoint_valid(last, index_url) {
            let prev = summary_after(eps.drop_last(), index_url, outcomes.drop_last());
            match outcomes.last() {
                Ok(_) => (prev.0 + 1, prev.1, prev.2),
                Err(m) => (prev.0, prev.1 + 1, prev.2.push(m)),
            }
        } else {
            let prev = summary_after(eps.drop_last(), index_url, outcomes);
            (prev.0, prev.1 + 1, prev.2.push("invalid endpoint: "@ + last))
        }
    }
}

/// The result of a whole run: the submission error of its summary.
pub open spec fn run_error(
    eps: Seq<Seq<char>>,
    index_url: Seq<char>,
    outcomes: Seq<Result<(), Seq<char>>>,
) -> Option<Seq<char>> {
    let t = summary_after(eps, index_url, outcomes);
    error_of(t.0, t.1, t.2)
}

/// The full submission text of a whole run, before any cut.
pub open spec fn run_message(
    eps: Seq<Seq<char>>,
    index_url: Seq<char>,
    outcomes: Seq<Result<(), Seq<char>>>,
) -> Seq<char> {
    let t = summary_after(eps, index_url, outcomes);
    message_of(t.0, t.1, t.2)
}

/// Every endpoint is counted once, as a success or as a failure, and every
/// failure has its detail.
pub proof fn lemma_summary_counts(
    eps: Seq<Seq<char>>,
    index_url: Seq<char>,
    outcomes: Seq<Result<(), Seq<char>>>,
)
    ensures
        summary_after(eps, index_url, outcomes).0 + summary_after(eps, index_url, outcomes).1
            == eps.len(),
        summary_after(eps, index_url, outcomes).2.len() == summary_after(eps, index_url, outcomes).1,
    decreases eps.len(),
{
    if eps.len() > 0 {
        if endpoint_valid(eps.last(), index_url) {
            lemma_summary_counts(eps.drop_last(), index_url, outcomes.drop_last());
        } else {
            lemma_summary_counts(eps.drop_last(), index_url, outcomes);
        }
    }
}

/// No invalid endpoint is ever sent a request.
pub proof fn lemma_only_valid_endpoints_submitted(eps: Seq<Seq<char>>, index_url: Seq<char>)
    ensures
        forall|i: int|
            0 <= i < valid_endpoints(eps, index_url).len() ==> endpoint_valid(
                #[trigger] valid_endpoints(eps, index_url)[i],
                index_url,
            ),
        valid_endpoints(eps, index_url).len() <= eps.len(),
    decreases eps.len(),
{
    if eps.len() > 0 {
        lemma_only_valid_endpoints_submitted(eps.drop_last(), index_url);
    }
}

/// A run whose endpoints are all valid and all answered with success ends
/// without an error; so does a run without endpoints.
pub proof fn lemma_all_success_is_ok(
    eps: Seq<Seq<char>>,
    index_url: Seq<char>,
    outcomes: Seq<Result<(), Seq<char>>>,
)
    requires
        forall|i: int| 0 <= i < eps.len() ==> endpoint_valid(#[trigger] eps[i], index_url),
        forall|i: int| 0 <= i < outcomes.len() ==> (#[trigger] outcomes[i]) is Ok,
        outcomes.len() == eps.len(),
    ensures
        summary_after(eps, index_url, outcomes).1 == 0,
        run_error(eps, index_url, outcomes) is None,
    decreases eps.len(),
{
    if eps.len() > 0 {
        let e2 = eps.drop_last();
        let o2 = outcomes.drop_last();
        assert forall|i: int| 0 <= i < e2.len() implies endpoint_valid(#[trigger] e2[i], index_url) by {
            assert(e2[i] == eps[i]);
        }
        assert forall|i: int| 0 <= i < o2.len() implies (#[trigger] o2[i]) is Ok by {
            assert(o2[i] == outcomes[i]);
        }
        assert(endpoint_valid(eps[eps.len() - 1], index_url));
        assert(outcomes[outcomes.len() - 1] is Ok);
        lemma_all_success_is_ok(e2, index_url, o2);
    }
}

/// A run's error is never longer than 4000 bytes and the ellipsis, and
/// there is one exactly when some endpoint failed.
pub proof fn lemma_run_error_bounded(
    eps: Seq<Seq<char>>,
    index_url: Seq<char>,
    outcomes: Seq<Result<(), Seq<char>>>,
)
    ensures
        match run_error(eps, index_url, outcomes) {
            Some(m) => byte_len(m) <= SITEMAP_SUBMIT_MAX_ERROR_LEN + 3,
            None => summary_after(eps, index_url, outcomes).1 == 0,
        },
{
    let t = summary_after(eps, index_url, outcomes);
    lemma_submission_error_bounded(t.0, t.1, t.2);
}

/// A sitemap submission run over a list of endpoints.  The caller asks for
/// the next request, sends it, and hands the answer back; invalid endpoints
/// are recorded as failures on the way and never sent.
pub struct SitemapSubmissionRun {
    endpoints: Vec<String>,
    sitemap_index_url: String,
    position: usize,
    awaiting: bool,
    summary: SitemapSubmissionSummary,
    submitted: Ghost<Seq<Seq<char>>>,
    outcomes: Ghost<Seq<Result<(), Seq<char>>>>,
}

impl SitemapSubmissionRun {
    /// The endpoints of the run.
    pub closed spec fn endpoints(self) -> Seq<Seq<char>> {
        views(self.endpoints@)
    }

    /// The sitemap index URL that is submitted.
    pub closed spec fn index_url(self) -> Seq<char> {
        self.sitemap_index_url@
    }

    /// How many endpoints have been looked at.
    pub closed spec fn position(self) -> nat {
        self.position as nat
    }

    /// A request has been handed out and its answer is still due.
    pub closed spec fn awaiting(self) -> bool {
        self.awaiting
    }

    /// The endpoints whose requests have been handed out, in order.
    pub closed spec fn submitted(self) -> Seq<Seq<char>> {
        self.submitted@
    }

    /// The answers handed back, in order.
    pub closed spec fn outcomes(self) -> Seq<Result<(), Seq<char>>> {
        self.outcomes@
    }

    /// How many endpoints are fully settled.
    pub closed spec fn settled(self) -> nat {
        if self.awaiting {
            (self.position - 1) as nat
        } else {
            self.position as nat
        }
    }

    /// The run's state is consistent: the summary is the one of the settled
    /// endpoints and their answers.
    pub closed spec fn wf(self) -> bool {
        let eps = self.endpoints();
        let url = self.index_url();
        &&& self.position <= self.endpoints.len()
        &&& self.awaiting ==> self.position > 0 && endpoint_valid(eps[self.position - 1], url)
        &&& self.submitted@ == valid_endpoints(eps.take(self.position as int), url)
        &&& self.outcomes@.len() == valid_endpoints(eps.take(self.settled() as int), url).len()
        &&& summary_after(eps.take(self.settled() as int), url, self.outcomes@) == (
            self.summary.success_count as nat,
            self.summary.failure_count as nat,
            views(self.summary.failures@),
        )
    }

    /// A run that has looked at nothing yet.
    pub fn new(endpoints: Vec<String>, sitemap_index_url: String) -> (r: SitemapSubmissionRun)
        ensures
            r.wf(),
            r.endpoints() == views(endpoints@),
            r.index_url() == sitemap_index_url@,
            r.position() == 0,
            !r.awaiting(),
            r.submitted() == Seq::<Seq<char>>::empty(),
            r.outcomes() == Seq::<Result<(), Seq<char>>>::empty(),
    {
        let r = SitemapSubmissionRun {
            endpoints,
            sitemap_index_url,
            position: 0,
            awaiting: false,
            summary: SitemapSubmissionSummary::new(),
            submitted: Ghost(Seq::empty()),
            outcomes: Ghost(Seq::empty()),
        };
        proof {
            assert(r.endpoints().take(0) =~= Seq::<Seq<char>>::empty());
            assert(views(r.summary.failures@) =~= Seq::<Seq<char>>::empty());
        }
        r
    }

    /// Whether a request has been handed out and its answer is still due.
    pub fn is_awaiting(&self) -> (r: bool)
        ensures
            r == self.awaiting(),
    {
        self.awaiting
    }

    /// Whether every endpoint has been looked at and answered.
    pub fn is_finished(&self) -> (r: bool)
        ensures
            r == (!self.awaiting() && self.position() == self.endpoints().len()),
    {
        proof {
            assert(self.endpoints().len() == self.endpoints@.len());
        }
        !self.awaiting && self.position == self.endpoints.len()
    }

    proof fn lemma_step(eps: Seq<Seq<char>>, url: Seq<char>, i: int)
        requires
            0 <= i < eps.len(),
        ensures
            eps.take(i + 1).drop_last() == eps.take(i),
            eps.take(i + 1).last() == eps[i],
            valid_endpoints(eps.take(i + 1), url) == if endpoint_valid(eps[i], url) {
                valid_endpoints(eps.take(i), url).push(eps[i])
            } else {
                valid_endpoints(eps.take(i), url)
            },
    {
        assert(eps.take(i + 1).drop_last() =~= eps.take(i));
    }

    /// Looks at the next endpoints: each invalid one is recorded as a
    /// failure; the first valid one is handed out as a request.  Without
    /// one, the run has looked at every endpoint.
    pub fn next_request(&mut self) -> (r: Option<SitemapSubmitEndpoint>)
        requires
            old(self).wf(),
            !old(self).awaiting(),
        ensures
            final(self).wf(),
            final(self).endpoints() == old(self).endpoints(),
            final(self).index_url() == old(self).index_url(),
            final(self).outcomes() == old(self).outcomes(),
            final(self).position() >= old(self).position(),
            forall|i: int|
                old(self).position() <= i < final(self).settled() ==> !endpoint_valid(
                    #[trigger] old(self).endpoints()[i],
                    old(self).index_url(),
                ),
            match r {
                Some(req) => {
                    &&& final(self).awaiting()
                    &&& req.endpoint@ == final(self).endpoints()[final(self).position() - 1]
                    &&& crate::urls::submission_url(req.endpoint@, final(self).index_url()) == Some(
                        req.request_url@,
                    )
                    &&& final(self).submitted() == old(self).submitted().push(req.endpoint@)
                },
                None => {
                    &&& !final(self).awaiting()
                    &&& final(self).position() == final(self).endpoints().len()
                    &&& final(self).submitted() == old(self).submitted()
                },
            },
    {
        let ghost start = *self;
        let ghost url = self.index_url();
        while self.position < self.endpoints.len()
            invariant
                self.wf(),
                !self.awaiting,
                start == *old(self),
                self.endpoints() == start.endpoints(),
                self.index_url() == url,
                url == start.index_url(),
                self.outcomes() == start.outcomes(),
                self.submitted() == start.submitted(),
                start.position() <= self.position(),
                forall|i: int|
                    start.position() <= i < self.position() ==> !endpoint_valid(
                        #[trigger] start.endpoints()[i],
                        url,
                    ),
            decreases self.endpoints.len() - self.position,
        {
            let ghost eps = self.endpoints();
            let ghost i = self.position as int;
            proof {
                Self::lemma_step(eps, url, i);
                lemma_summary_counts(eps.take(i), url, self.outcomes@);
                assert(eps[i] == self.endpoints@[i]@);
            }
            let endpoint = self.endpoints[self.position].clone();
            match crate::urls::build_sitemap_submission_url(endpoint.as_str(), self.sitemap_index_url.as_str()) {
                Some(u) => {
                    self.position = self.position + 1;
                    self.awaiting = true;
                    proof {
                        self.submitted@ = self.submitted@.push(endpoint@);
                    }
                    return Some(SitemapSubmitEndpoint { endpoint, request_url: u });
                },
                None => {
                    self.summary.record_invalid_endpoint(endpoint.as_str());
                    self.position = self.position + 1;
                },
            }
        }
        None
    }

    /// Hands back the answer to the request that was handed out.
    pub fn record_result(&mut self, result: Result<(), String>)
        requires
            old(self).wf(),
            old(self).awaiting(),
        ensures
            final(self).wf(),
            !final(self).awaiting(),
            final(self).endpoints() == old(self).endpoints(),
            final(self).index_url() == old(self).index_url(),
            final(self).position() == old(self).position(),
            final(self).submitted() == old(self).submitted(),
            final(self).outcomes() == old(self).outcomes().push(outcome_view(result)),
    {
        let ghost eps = self.endpoints();
        let ghost url = self.index_url();
        let ghost i = (self.position - 1) as int;
        let ghost o = outcome_view(result);
        proof {
            Self::lemma_step(eps, url, i);
            lemma_summary_counts(eps.take(i), url, self.outcomes@);
            assert(self.outcomes@.push(o).drop_last() =~= self.outcomes@);
        }
        self.summary.record_result(result);
        self.awaiting = false;
        proof {
            self.outcomes@ = self.outcomes@.push(o);
        }
    }

    /// The full text of the run's summary so far, before any cut.
    pub fn full_message(&self) -> (r: String)
        requires
            self.wf(),
        ensures
            r@ == run_message(
                self.endpoints().take(self.settled() as int),
                self.index_url(),
                self.outcomes(),
            ),
    {
        self.summary.full_message()
    }

    /// The result of a finished run: `Ok` when no endpoint failed, else the
    /// submission error.  The full text is cut at a byte offset, which must
    /// fall between characters.
    pub fn finish(self) -> (r: Result<(), String>)
        requires
            self.wf(),
            !self.awaiting(),
            self.position() == self.endpoints().len(),
            cuttable_at(
                run_message(self.endpoints(), self.index_url(), self.outcomes()),
                SITEMAP_SUBMIT_MAX_ERROR_LEN as nat,
            ),
        ensures
            self.submitted() == valid_endpoints(self.endpoints(), self.index_url()),
            self.outcomes().len() == self.submitted().len(),
            match (r, run_error(self.endpoints(), self.index_url(), self.outcomes())) {
                (Ok(()), None) => true,
                (Err(m), Some(e)) => m@ == e,
                _ => false,
            },
    {
        proof {
            assert(self.endpoints().take(self.position as int) =~= self.endpoints());
        }
        match self.summary.into_error() {
            Some(m) => Err(m),
            None => Ok(()),
        }
    }
}


// ---------------------------------------------------------------------------
// Sitemap status
// ---------------------------------------------------------------------------

/// A stored sitemap file.  The id is the 128-bit value of its UUID; the
/// creation time is a Unix timestamp.
#[derive(Clone, Debug)]
pub struct SeoSitemapFileRecord {
    pub id: u128,
    pub path: String,
    pub url_count: i32,
    pub created_at: i64,
}

/// A sitemap generation job and its files.
#[derive(Clone, Debug)]
pub struct SeoSitemapJobRecord {
    pub id: u128,
    pub status: String,
    pub file_count: i32,
    pub started_at: Option<i64>,
    pub completed_at: Option<i64>,
    pub last_error: Option<String>,
    pub files: Vec<SeoSitemapFileRecord>,
}

/// The sitemap state of a tenant: whether sitemaps are enabled, and the
/// latest generation job with its files.
#[derive(Clone, Debug)]
pub struct SeoSitemapStatusRecord {
    pub enabled: bool,
    pub latest_job_id: Option<u128>,
    pub status: Option<String>,
    pub file_count: i32,
    pub generated_at: Option<i64>,
    pub files: Vec<SeoSitemapFileRecord>,
}

/// The status of a tenant whose sitemaps are disabled.
pub fn disabled_sitemap_status() -> (r: SeoSitemapStatusRecord)
    ensures
        !r.enabled,
        r.latest_job_id is None,
        r.status is None,
        r.file_count == 0,
        r.generated_at is None,
        r.files@.len() == 0,
{
    SeoSitemapStatusRecord {
        enabled: false,
        latest_job_id: None,
        status: None,
        file_count: 0,
        generated_at: None,
        files: Vec::new(),
    }
}

/// The sitemap status from the settings and the latest job: disabled when
/// sitemaps are off; enabled and empty without a job; otherwise the job's
/// id, status, file count, completion time and files.
pub fn sitemap_status_record(sitemap_enabled: bool, latest_job: Option<SeoSitemapJobRecord>) -> (r: SeoSitemapStatusRecord)
    ensures
        r.enabled == sitemap_enabled,
        !sitemap_enabled || latest_job is None ==> {
            &&& r.latest_job_id is None
            &&& r.status is None
            &&& r.file_count == 0
            &&& r.generated_at is None
            &&& r.files@.len() == 0
        },
        sitemap_enabled && latest_job is Some ==> {
            let job = latest_job->0;
            &&& r.latest_job_id == Some(job.id)
            &&& r.status is Some && r.status->0@ == job.status@
            &&& r.file_count == job.file_count
            &&& r.generated_at == job.completed_at
            &&& r.files@ == job.files@
        },
{
    if !sitemap_enabled {
        return disabled_sitemap_status();
    }
    match latest_job {
        None => SeoSitemapStatusRecord {
            enabled: true,
            latest_job_id: None,
            status: None,
            file_count: 0,
            generated_at: None,
            files: Vec::new(),
        },
        Some(job) => SeoSitemapStatusRecord {
            enabled: true,
            latest_job_id: Some(job.id),
            status: Some(job.status),
            file_count: job.file_count,
            generated_at: job.completed_at,
            files: job.files,
        },
    }
}

} // verus!
