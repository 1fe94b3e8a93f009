//! Aggregation of sitemap submission outcomes per endpoint into bounded
//! telemetry and a bounded error report.
use vstd::prelude::*;

use crate::order::{index_seq, key_sort, keys_view, opt_key, opt_key_string, sort_order};
use crate::text::{
    append, byte_len, byte_len_at_most, contains, dec_nat, join, join_strings, lower, lower_str,
    opt_view, owned, prefix_within, prefix_within_bytes, push_dec_u64, str_contains, trim,
    trim_str, views, lemma_views_push, lemma_views_take_next,
};

verus! {

/// The longest submission error kept, in bytes, before the ellipsis.
pub const SITEMAP_SUBMIT_MAX_ERROR_LEN: usize = 4000;

/// The most failure details a submission error lists.
pub const SITEMAP_SUBMIT_MAX_ERRORS: usize = 8;

/// The most timeout details a submission error lists.
pub const SITEMAP_SUBMIT_MAX_TIMEOUT_DETAILS: usize = 4;

/// The longest failure detail kept, in bytes, before the ellipsis.
pub const SITEMAP_SUBMIT_MAX_ERROR_DETAIL_LEN: usize = 512;

/// The most endpoint statuses the telemetry keeps.
pub const SITEMAP_SUBMIT_MAX_ENDPOINT_STATUS_COUNT: usize = 24;

/// The longest endpoint kept, in bytes, before the ellipsis.
pub const SITEMAP_SUBMIT_MAX_ENDPOINT_VALUE_LEN: usize = 160;

/// The most endpoint statuses a submission error lists.
pub const SITEMAP_SUBMIT_MAX_ENDPOINT_STATUS_SAMPLE: usize = 4;

/// The outcome of one endpoint, in the order used for sorting.
#[derive(Clone, Copy, Debug, PartialEq, Eq, Structural)]
pub enum SitemapSubmissionEndpointState {
    Success,
    Failure,
    Timeout,
    InvalidEndpoint,
}

impl SitemapSubmissionEndpointState {
    /// The name of each state.
    pub open spec fn name(self) -> Seq<char> {
        match self {
            SitemapSubmissionEndpointState::Success => "success"@,
            SitemapSubmissionEndpointState::Failure => "failure"@,
            SitemapSubmissionEndpointState::Timeout => "timeout"@,
            SitemapSubmissionEndpointState::InvalidEndpoint => "invalid_endpoint"@,
        }
    }

    /// The sort key of each state: its position in the declaration.
    pub open spec fn rank_key(self) -> Seq<char> {
        match self {
            SitemapSubmissionEndpointState::Success => seq!['0'],
            SitemapSubmissionEndpointState::Failure => seq!['1'],
            SitemapSubmissionEndpointState::Timeout => seq!['2'],
            SitemapSubmissionEndpointState::InvalidEndpoint => seq!['3'],
        }
    }

    /// The name of the state.
    pub fn as_str(self) -> (r: &'static str)
        ensures
            r@ == self.name(),
    {
        match self {
            SitemapSubmissionEndpointState::Success => "success",
            SitemapSubmissionEndpointState::Failure => "failure",
            SitemapSubmissionEndpointState::Timeout => "timeout",
            SitemapSubmissionEndpointState::InvalidEndpoint => "invalid_endpoint",
        }
    }

    fn rank_key_string(self) -> (r: String)
        ensures
            r@ == self.rank_key(),
    {
        let mut r = String::new();
        match self {
            SitemapSubmissionEndpointState::Success => r.push('0'),
            SitemapSubmissionEndpointState::Failure => r.push('1'),
            SitemapSubmissionEndpointState::Timeout => r.push('2'),
            SitemapSubmissionEndpointState::InvalidEndpoint => r.push('3'),
        }
        assert(r@ =~= self.rank_key());
        r
    }
}

/// The outcome of one endpoint with its failure detail.
#[derive(Clone, Debug)]
pub struct SitemapSubmissionEndpointStatus {
    pub endpoint: String,
    pub state: SitemapSubmissionEndpointState,
    pub detail: Option<String>,
}

/// The mathematical form of an endpoint status.
pub open spec fn status_view(s: SitemapSubmissionEndpointStatus) -> (Seq<char>, SitemapSubmissionEndpointState, Option<Seq<char>>) {
    (s.endpoint@, s.state, opt_view(s.detail))
}

/// The views of endpoint statuses.
pub open spec fn statuses_view(v: Seq<SitemapSubmissionEndpointStatus>) -> Seq<(Seq<char>, SitemapSubmissionEndpointState, Option<Seq<char>>)> {
    v.map_values(|s: SitemapSubmissionEndpointStatus| status_view(s))
}

impl SitemapSubmissionEndpointStatus {
    /// A copy of the status.
    pub fn copy(&self) -> (r: SitemapSubmissionEndpointStatus)
        ensures
            status_view(r) == status_view(*self),
    {
        SitemapSubmissionEndpointStatus {
            endpoint: self.endpoint.clone(),
            state: self.state,
            detail: crate::text::copy_opt(&self.detail),
        }
    }
}

/// The endpoint statuses the telemetry keeps and how many it drops.
#[derive(Clone, Debug)]
pub struct SitemapSubmissionTelemetrySnapshot {
    pub endpoint_statuses: Vec<SitemapSubmissionEndpointStatus>,
    pub omitted_endpoint_status_count: usize,
}

/// The outcomes of a sitemap submission run, endpoint by endpoint.
#[derive(Clone, Debug)]
pub struct SitemapSubmissionSummary {
    pub success_count: usize,
    pub failure_count: usize,
    pub endpoint_results: Vec<SitemapSubmissionEndpointStatus>,
}

/// A text longer than `max` bytes cut to its longest prefix within `max`
/// bytes and marked with `...`.
pub open spec fn truncated(value: Seq<char>, max: nat) -> Seq<char> {
    if byte_len(value) <= max {
        value
    } else {
        prefix_within(value, max) + "..."@
    }
}

/// Cuts a text to `max_bytes` (see `truncated`).
pub fn truncate_with_ellipsis(value: String, max_bytes: usize) -> (r: String)
    ensures
        r@ == truncated(value@, max_bytes as nat),
{
    if byte_len_at_most(value.as_str(), max_bytes) {
        return value;
    }
    let mut cut = prefix_within_bytes(value.as_str(), max_bytes);
    append(&mut cut, "...");
    cut
}

/// An endpoint as kept in a status: trimmed, at most 160 bytes.
pub fn truncate_endpoint(value: &str) -> (r: String)
    ensures
        r@ == truncated(trim(value@), SITEMAP_SUBMIT_MAX_ENDPOINT_VALUE_LEN as nat),
{
    truncate_with_ellipsis(trim_str(value), SITEMAP_SUBMIT_MAX_ENDPOINT_VALUE_LEN)
}

/// A failure detail as kept in a status: at most 512 bytes.
pub fn truncate_error_detail(value: String) -> (r: String)
    ensures
        r@ == truncated(value@, SITEMAP_SUBMIT_MAX_ERROR_DETAIL_LEN as nat),
{
    truncate_with_ellipsis(value, SITEMAP_SUBMIT_MAX_ERROR_DETAIL_LEN)
}

/// A failure message that reports a timeout.
pub open spec fn timeout_message(m: Seq<char>) -> bool {
    let n = lower(m);
    contains(n, "timeout"@) || contains(n, "timed out"@) || contains(n, "deadline exceeded"@)
}

/// Whether a failure message reports a timeout (see `timeout_message`).
pub fn is_timeout_error(message: &str) -> (r: bool)
    ensures
        r == timeout_message(message@),
{
    let normalized = lower_str(message);
    str_contains(normalized.as_str(), "timeout") || str_contains(normalized.as_str(), "timed out")
        || str_contains(normalized.as_str(), "deadline exceeded")
}

impl SitemapSubmissionSummary {
    /// An empty summary.
    pub fn new() -> (r: SitemapSubmissionSummary)
        ensures
            r.success_count == 0,
            r.failure_count == 0,
            r.results().len() == 0,
    {
        SitemapSubmissionSummary { success_count: 0, failure_count: 0, endpoint_results: Vec::new() }
    }

    /// The recorded endpoint statuses, in recording order.
    pub open spec fn results(self) -> Seq<(Seq<char>, SitemapSubmissionEndpointState, Option<Seq<char>>)> {
        statuses_view(self.endpoint_results@)
    }
}

/// Records a successful endpoint.
pub fn record_submission_success(summary: &mut SitemapSubmissionSummary, endpoint: &str)
    requires
        old(summary).success_count < usize::MAX,
    ensures
        final(summary).success_count == old(summary).success_count + 1,
        final(summary).failure_count == old(summary).failure_count,
        final(summary).results() == old(summary).results().push(
            (
                truncated(trim(endpoint@), SITEMAP_SUBMIT_MAX_ENDPOINT_VALUE_LEN as nat),
                SitemapSubmissionEndpointState::Success,
                None,
            ),
        ),
{
    summary.success_count = summary.success_count + 1;
    let status = SitemapSubmissionEndpointStatus {
        endpoint: truncate_endpoint(endpoint),
        state: SitemapSubmissionEndpointState::Success,
        detail: None,
    };
    let ghost prev = summary.endpoint_results@;
    summary.endpoint_results.push(status);
    assert(statuses_view(summary.endpoint_results@) =~= statuses_view(prev).push(status_view(status)));
}

/// Records an endpoint that is not a valid URL.
pub fn record_invalid_endpoint(summary: &mut SitemapSubmissionSummary, endpoint: &str)
    requires
        old(summary).failure_count < usize::MAX,
    ensures
        final(summary).success_count == old(summary).success_count,
        final(summary).failure_count == old(summary).failure_count + 1,
        final(summary).results() == old(summary).results().push(
            (
                truncated(trim(endpoint@), SITEMAP_SUBMIT_MAX_ENDPOINT_VALUE_LEN as nat),
                SitemapSubmissionEndpointState::InvalidEndpoint,
                Some(
                    truncated(
                        "invalid endpoint: "@ + trim(endpoint@),
                        SITEMAP_SUBMIT_MAX_ERROR_DETAIL_LEN as nat,
                    ),
                ),
            ),
        ),
{
    summary.failure_count = summary.failure_count + 1;
    let mut detail = owned("invalid endpoint: ");
    append(&mut detail, trim_str(endpoint).as_str());
    let status = SitemapSubmissionEndpointStatus {
        endpoint: truncate_endpoint(endpoint),
        state: SitemapSubmissionEndpointState::InvalidEndpoint,
        detail: Some(truncate_error_detail(detail)),
    };
    let ghost prev = summary.endpoint_results@;
    summary.endpoint_results.push(status);
    assert(statuses_view(summary.endpoint_results@) =~= statuses_view(prev).push(status_view(status)));
}

/// Records an endpoint whose submission failed; a timeout message makes
/// it a timeout.
pub fn record_submission_failure(summary: &mut SitemapSubmissionSummary, endpoint: &str, detail: String)
    requires
        old(summary).failure_count < usize::MAX,
    ensures
        final(summary).success_count == old(summary).success_count,
        final(summary).failure_count == old(summary).failure_count + 1,
        final(summary).results() == old(summary).results().push(
            (
                truncated(trim(endpoint@), SITEMAP_SUBMIT_MAX_ENDPOINT_VALUE_LEN as nat),
                if timeout_message(detail@) {
                    SitemapSubmissionEndpointState::Timeout
                } else {
                    SitemapSubmissionEndpointState::Failure
                },
                Some(truncated(detail@, SITEMAP_SUBMIT_MAX_ERROR_DETAIL_LEN as nat)),
            ),
        ),
{
    summary.failure_count = summary.failure_count + 1;
    let state = if is_timeout_error(detail.as_str()) {
        SitemapSubmissionEndpointState::Timeout
    } else {
        SitemapSubmissionEndpointState::Failure
    };
    let status = SitemapSubmissionEndpointStatus {
        endpoint: truncate_endpoint(endpoint),
        state,
        detail: Some(truncate_error_detail(detail)),
    };
    let ghost prev = summary.endpoint_results@;
    summary.endpoint_results.push(status);
    assert(statuses_view(summary.endpoint_results@) =~= statuses_view(prev).push(status_view(status)));
}

/// The sort key of a status: endpoint, state, detail.
pub open spec fn status_key(s: (Seq<char>, SitemapSubmissionEndpointState, Option<Seq<char>>)) -> Seq<Seq<char>> {
    seq![s.0, s.1.rank_key(), opt_key(s.2)]
}

/// The keys of statuses.
pub open spec fn status_keys(s: Seq<(Seq<char>, SitemapSubmissionEndpointState, Option<Seq<char>>)>) -> Seq<Seq<Seq<char>>> {
    s.map_values(|x: (Seq<char>, SitemapSubmissionEndpointState, Option<Seq<char>>)| status_key(x))
}

/// The statuses at the given positions, in order.
pub open spec fn pick(
    s: Seq<(Seq<char>, SitemapSubmissionEndpointState, Option<Seq<char>>)>,
    order: Seq<int>,
) -> Seq<(Seq<char>, SitemapSubmissionEndpointState, Option<Seq<char>>)> {
    order.map_values(|i: int| s[i])
}

/// Statuses sorted by endpoint, then state, then detail.
pub open spec fn sorted_statuses(s: Seq<(Seq<char>, SitemapSubmissionEndpointState, Option<Seq<char>>)>) -> Seq<(Seq<char>, SitemapSubmissionEndpointState, Option<Seq<char>>)> {
    pick(s, key_sort(status_keys(s), s.len() as int))
}

/// Endpoint statuses sorted by endpoint, then state, then detail (see
/// `sorted_statuses`).
pub fn sorted_endpoint_results(values: &Vec<SitemapSubmissionEndpointStatus>) -> (r: Vec<SitemapSubmissionEndpointStatus>)
    ensures
        statuses_view(r@) == sorted_statuses(statuses_view(values@)),
{
    let ghost sv = statuses_view(values@);
    let mut keys: Vec<Vec<String>> = Vec::new();
    let mut i: usize = 0;
    while i < values.len()
        invariant
            i <= values.len(),
            sv == statuses_view(values@),
            keys_view(keys@) == status_keys(sv.take(i as int)),
        decreases values.len() - i,
    {
        let v = &values[i];
        let mut k: Vec<String> = Vec::new();
        k.push(v.endpoint.clone());
        k.push(v.state.rank_key_string());
        k.push(opt_key_string(&v.detail));
        assert(views(k@) =~= status_key(status_view(*v)));
        let ghost prev = keys@;
        let ghost kv = views(k@);
        keys.push(k);
        assert(keys_view(keys@) =~= keys_view(prev).push(kv));
        assert(status_keys(sv.take(i as int + 1)) =~= status_keys(sv.take(i as int)).push(status_key(sv[i as int])));
        i = i + 1;
    }
    assert(sv.take(values.len() as int) =~= sv);
    let order = sort_order(&keys);
    let ghost o = index_seq(order@);
    let mut out: Vec<SitemapSubmissionEndpointStatus> = Vec::new();
    let mut k: usize = 0;
    while k < order.len()
        invariant
            k <= order.len(),
            order.len() == values.len(),
            o == index_seq(order@),
            sv == statuses_view(values@),
            forall|m: int| 0 <= m < order.len() ==> #[trigger] order@[m] < values.len(),
            statuses_view(out@) == pick(sv, o.take(k as int)),
        decreases order.len() - k,
    {
        let s = values[order[k]].copy();
        let ghost prev = out@;
        out.push(s);
        assert(sv[o[k as int]] == status_view(s));
        assert(statuses_view(out@) =~= statuses_view(prev).push(status_view(s)));
        assert(pick(sv, o.take(k as int + 1)) =~= pick(sv, o.take(k as int)).push(sv[o[k as int]]));
        k = k + 1;
    }
    assert(o.take(order.len() as int) =~= o);
    out
}


/// The first `n` items, or all of them when there are fewer.
pub open spec fn capped<T>(s: Seq<T>, n: nat) -> Seq<T> {
    if s.len() <= n {
        s
    } else {
        s.take(n as int)
    }
}

/// How many items exceed the first `n`.
pub open spec fn over<T>(s: Seq<T>, n: nat) -> nat {
    if s.len() > n {
        (s.len() - n) as nat
    } else {
        0
    }
}

/// The telemetry of a summary: the first 24 statuses in sorted order, and
/// how many are left out.
pub open spec fn telemetry(sm: SitemapSubmissionSummary) -> (Seq<(Seq<char>, SitemapSubmissionEndpointState, Option<Seq<char>>)>, nat) {
    let sorted = sorted_statuses(sm.results());
    (capped(sorted, SITEMAP_SUBMIT_MAX_ENDPOINT_STATUS_COUNT as nat), over(sorted, SITEMAP_SUBMIT_MAX_ENDPOINT_STATUS_COUNT as nat))
}

impl SitemapSubmissionSummary {
    /// The telemetry of the run (see `telemetry`).
    pub fn telemetry_snapshot(&self) -> (r: SitemapSubmissionTelemetrySnapshot)
        ensures
            (statuses_view(r.endpoint_statuses@), r.omitted_endpoint_status_count as nat) == telemetry(*self),
    {
        let mut statuses = sorted_endpoint_results(&self.endpoint_results);
        let ghost sv = statuses_view(statuses@);
        let omitted: usize = if statuses.len() > SITEMAP_SUBMIT_MAX_ENDPOINT_STATUS_COUNT {
            statuses.len() - SITEMAP_SUBMIT_MAX_ENDPOINT_STATUS_COUNT
        } else {
            0
        };
        statuses.truncate(SITEMAP_SUBMIT_MAX_ENDPOINT_STATUS_COUNT);
        assert(statuses_view(statuses@) =~= capped(sv, SITEMAP_SUBMIT_MAX_ENDPOINT_STATUS_COUNT as nat));
        SitemapSubmissionTelemetrySnapshot { endpoint_statuses: statuses, omitted_endpoint_status_count: omitted }
    }
}

/// The details of failed (or, with `timeouts`, timed-out) statuses, in
/// order.
pub open spec fn error_details(s: Seq<(Seq<char>, SitemapSubmissionEndpointState, Option<Seq<char>>)>, timeouts: bool) -> Seq<Seq<char>>
    decreases s.len(),
{
    if s.len() == 0 {
        Seq::empty()
    } else {
        let prev = error_details(s.drop_last(), timeouts);
        let x = s.last();
        let wanted = if timeouts {
            x.1 == SitemapSubmissionEndpointState::Timeout
        } else {
            x.1 == SitemapSubmissionEndpointState::Failure || x.1 == SitemapSubmissionEndpointState::InvalidEndpoint
        };
        match x.2 {
            Some(d) => if wanted {
                prev.push(d)
            } else {
                prev
            },
            None => prev,
        }
    }
}

/// The `endpoint:state` entries of the first four statuses.
pub open spec fn status_sample(s: Seq<(Seq<char>, SitemapSubmissionEndpointState, Option<Seq<char>>)>) -> Seq<Seq<char>> {
    capped(s, SITEMAP_SUBMIT_MAX_ENDPOINT_STATUS_SAMPLE as nat).map_values(
        |x: (Seq<char>, SitemapSubmissionEndpointState, Option<Seq<char>>)| x.0 + ":"@ + x.1.name(),
    )
}

/// The parts of a submission report: the headline, up to eight failure
/// details and the number left out, up to four timeout details and the
/// number left out, up to four endpoint statuses and the number of
/// statuses the telemetry leaves out.
pub open spec fn report_parts(sm: SitemapSubmissionSummary) -> Seq<Seq<char>> {
    let sorted = sorted_statuses(sm.results());
    let errs = error_details(sorted, false);
    let tos = error_details(sorted, true);
    let tele = telemetry(sm);
    let p0 = seq![crate::sitemaps::submission_headline(sm.success_count as nat, sm.failure_count as nat)];
    let p1 = if capped(errs, 8).len() > 0 {
        p0.push("errors: ["@ + join(capped(errs, 8), " | "@) + "]"@)
    } else {
        p0
    };
    let p2 = if over(errs, 8) > 0 {
        p1.push("errors omitted: "@ + dec_nat(over(errs, 8)))
    } else {
        p1
    };
    let p3 = if capped(tos, 4).len() > 0 {
        p2.push("timeouts: ["@ + join(capped(tos, 4), " | "@) + "]"@)
    } else {
        p2
    };
    let p4 = if over(tos, 4) > 0 {
        p3.push("timeout details omitted: "@ + dec_nat(over(tos, 4)))
    } else {
        p3
    };
    let p5 = if tele.0.len() > 0 {
        p4.push("endpoint statuses: ["@ + join(status_sample(tele.0), ", "@) + "]"@)
    } else {
        p4
    };
    if tele.1 > 0 {
        p5.push("endpoint statuses omitted: "@ + dec_nat(tele.1))
    } else {
        p5
    }
}

/// The submission report: none without failures; otherwise the parts
/// joined by `; `, cut to 4000 bytes.
pub open spec fn submission_report(sm: SitemapSubmissionSummary) -> Option<Seq<char>> {
    if sm.failure_count == 0 {
        None
    } else {
        Some(truncated(join(report_parts(sm), "; "@), SITEMAP_SUBMIT_MAX_ERROR_LEN as nat))
    }
}

fn details_of(sorted: &Vec<SitemapSubmissionEndpointStatus>, timeouts: bool) -> (r: Vec<String>)
    ensures
        views(r@) == error_details(statuses_view(sorted@), timeouts),
{
    let ghost sv = statuses_view(sorted@);
    let mut out: Vec<String> = Vec::new();
    let mut i: usize = 0;
    while i < sorted.len()
        invariant
            i <= sorted.len(),
            sv == statuses_view(sorted@),
            views(out@) == error_details(sv.take(i as int), timeouts),
        decreases sorted.len() - i,
    {
        proof {
            assert(sv.take(i as int + 1).drop_last() =~= sv.take(i as int));
            assert(sv.take(i as int + 1).last() == status_view(sorted@[i as int]));
        }
        let st = &sorted[i];
        let wanted = if timeouts {
            st.state == SitemapSubmissionEndpointState::Timeout
        } else {
            st.state == SitemapSubmissionEndpointState::Failure || st.state
                == SitemapSubmissionEndpointState::InvalidEndpoint
        };
        match &st.detail {
            Some(d) => {
                if wanted {
                    let c = d.clone();
                    proof {
                        lemma_views_push(out@, c);
                    }
                    out.push(c);
                }
            },
            None => {},
        }
        i = i + 1;
    }
    assert(sv.take(sorted.len() as int) =~= sv);
    out
}

fn capped_strings(v: &Vec<String>, n: usize) -> (r: Vec<String>)
    ensures
        views(r@) == capped(views(v@), n as nat),
{
    let mut out: Vec<String> = Vec::new();
    let mut i: usize = 0;
    while i < v.len() && i < n
        invariant
            i <= v.len(),
            i <= n,
            views(out@) == views(v@).take(i as int),
        decreases v.len() - i,
    {
        let c = v[i].clone();
        proof {
            lemma_views_push(out@, c);
        }
        out.push(c);
        i = i + 1;
        assert(views(out@) =~= views(v@).take(i as int));
    }
    assert(views(v@).take(v.len() as int) =~= views(v@));
    out
}

fn push_part(parts: &mut Vec<String>, part: String)
    ensures
        views(final(parts)@) == views(old(parts)@).push(part@),
{
    proof {
        lemma_views_push(parts@, part);
    }
    parts.push(part);
}

fn bracketed(label: &str, items: &Vec<String>, sep: &str) -> (r: String)
    ensures
        r@ == label@ + join(views(items@), sep@) + "]"@,
{
    let mut s = owned(label);
    append(&mut s, join_strings(items, sep).as_str());
    append(&mut s, "]");
    s
}

fn counted(label: &str, n: usize) -> (r: String)
    ensures
        r@ == label@ + dec_nat(n as nat),
{
    let mut s = owned(label);
    push_dec_u64(&mut s, n as u64);
    s
}

impl SitemapSubmissionSummary {
    /// The bounded submission report of the run (see `submission_report`).
    pub fn into_error(self) -> (r: Option<String>)
        ensures
            match (r, submission_report(self)) {
                (Some(m), Some(e)) => m@ == e,
                (None, None) => true,
                _ => false,
            },
    {
        if self.failure_count == 0 {
            return None;
        }
        let sorted = sorted_endpoint_results(&self.endpoint_results);
        let errs = details_of(&sorted, false);
        let tos = details_of(&sorted, true);
        let errors = capped_strings(&errs, SITEMAP_SUBMIT_MAX_ERRORS);
        let omitted_errors: usize = if errs.len() > SITEMAP_SUBMIT_MAX_ERRORS {
            errs.len() - SITEMAP_SUBMIT_MAX_ERRORS
        } else {
            0
        };
        let timeouts = capped_strings(&tos, SITEMAP_SUBMIT_MAX_TIMEOUT_DETAILS);
        let omitted_timeouts: usize = if tos.len() > SITEMAP_SUBMIT_MAX_TIMEOUT_DETAILS {
            tos.len() - SITEMAP_SUBMIT_MAX_TIMEOUT_DETAILS
        } else {
            0
        };
        let telemetry = self.telemetry_snapshot();
        let mut head = owned("sitemap submission finished with ");
        push_dec_u64(&mut head, self.success_count as u64);
        append(&mut head, " success(es) and ");
        push_dec_u64(&mut head, self.failure_count as u64);
        append(&mut head, " failure(s)");
        let mut parts: Vec<String> = Vec::new();
        push_part(&mut parts, head);
        if errors.len() > 0 {
            push_part(&mut parts, bracketed("errors: [", &errors, " | "));
        }
        if omitted_errors > 0 {
            push_part(&mut parts, counted("errors omitted: ", omitted_errors));
        }
        if timeouts.len() > 0 {
            push_part(&mut parts, bracketed("timeouts: [", &timeouts, " | "));
        }
        if omitted_timeouts > 0 {
            push_part(&mut parts, counted("timeout details omitted: ", omitted_timeouts));
        }
        let ghost tv = statuses_view(telemetry.endpoint_statuses@);
        if telemetry.endpoint_statuses.len() > 0 {
            let mut sample: Vec<String> = Vec::new();
            let mut i: usize = 0;
            while i < telemetry.endpoint_statuses.len() && i < SITEMAP_SUBMIT_MAX_ENDPOINT_STATUS_SAMPLE
                invariant
                    i <= telemetry.endpoint_statuses.len(),
                    i <= SITEMAP_SUBMIT_MAX_ENDPOINT_STATUS_SAMPLE,
                    tv == statuses_view(telemetry.endpoint_statuses@),
                    views(sample@) == status_sample(tv).take(i as int),
                decreases telemetry.endpoint_statuses.len() - i,
            {
                let st = &telemetry.endpoint_statuses[i];
                let mut e = st.endpoint.clone();
                append(&mut e, ":");
                append(&mut e, st.state.as_str());
                proof {
                    lemma_views_push(sample@, e);
                    assert(status_sample(tv)[i as int] == e@);
                }
                sample.push(e);
                i = i + 1;
                assert(views(sample@) =~= status_sample(tv).take(i as int));
            }
            assert(status_sample(tv).take(i as int) =~= status_sample(tv));
            push_part(&mut parts, bracketed("endpoint statuses: [", &sample, ", "));
        }
        if telemetry.omitted_endpoint_status_count > 0 {
            push_part(&mut parts, counted("endpoint statuses omitted: ", telemetry.omitted_endpoint_status_count));
        }
        assert(views(parts@) =~= report_parts(self));
        let message = join_strings(&parts, "; ");
        Some(truncate_with_ellipsis(message, SITEMAP_SUBMIT_MAX_ERROR_LEN))
    }
}

} // verus!
