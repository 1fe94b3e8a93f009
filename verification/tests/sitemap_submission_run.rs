use std::collections::HashMap;

use rustok_seo::sitemaps::SitemapSubmissionRun;

const INDEX_URL: &str = "https://store.example.com/sitemap.xml";

struct Outcome {
    result: Result<(), String>,
    submitted_endpoints: Vec<String>,
    submitted_request_urls: Vec<String>,
}

/// Drives a run the way the service does, answering each request from
/// `answers` (success for an endpoint that is not listed).
fn submit(endpoints: &[&str], answers: HashMap<String, Result<(), String>>) -> Outcome {
    let mut run = SitemapSubmissionRun::new(
        endpoints.iter().map(|e| e.to_string()).collect(),
        INDEX_URL.to_string(),
    );
    let mut submitted_endpoints = Vec::new();
    let mut submitted_request_urls = Vec::new();
    while let Some(request) = run.next_request() {
        submitted_endpoints.push(request.endpoint.clone());
        submitted_request_urls.push(request.request_url.clone());
        let answer = answers.get(request.endpoint.as_str()).cloned().unwrap_or(Ok(()));
        run.record_result(answer);
    }
    assert!(run.is_finished());
    let full = run.full_message();
    assert!(full.len() <= 4000 || full.is_char_boundary(4000));
    Outcome { result: run.finish(), submitted_endpoints, submitted_request_urls }
}

#[test]
fn submit_sitemap_endpoints_empty_input_short_circuits_without_submissions() {
    let outcome = submit(&[], HashMap::new());
    assert!(outcome.result.is_ok());
    assert!(outcome.submitted_endpoints.is_empty());
    assert!(outcome.submitted_request_urls.is_empty());
}

#[test]
fn submit_sitemap_endpoints_all_success_returns_ok() {
    let outcome = submit(
        &["https://ok-1.example.com/ping", "https://ok-2.example.com/ping"],
        HashMap::from([
            ("https://ok-1.example.com/ping".to_string(), Ok(())),
            ("https://ok-2.example.com/ping".to_string(), Ok(())),
        ]),
    );
    assert!(outcome.result.is_ok());
}

#[test]
fn submit_sitemap_endpoints_reports_success_failure_and_invalid() {
    let outcome = submit(
        &["https://ok.example.com/ping", "https://fail.example.com/ping", "invalid endpoint"],
        HashMap::from([
            ("https://ok.example.com/ping".to_string(), Ok(())),
            (
                "https://fail.example.com/ping".to_string(),
                Err("endpoint `https://fail.example.com/ping` responded with status 500 Internal Server Error"
                    .to_string()),
            ),
        ]),
    );
    let message = outcome.result.expect_err("must return aggregate error");
    assert!(message.contains("1 success(es) and 2 failure(s)"));
    assert!(message.contains("endpoint `https://fail.example.com/ping` responded with status 500"));
    assert!(message.contains("invalid endpoint: invalid endpoint"));
    assert_eq!(
        outcome.submitted_endpoints,
        vec!["https://ok.example.com/ping".to_string(), "https://fail.example.com/ping".to_string()]
    );
}

#[test]
fn submit_sitemap_endpoints_passes_normalized_request_urls_to_adapter() {
    let outcome = submit(
        &["https://example.com/ping?source=rustok", "https://example.com/ping?sitemap={sitemap_url}"],
        HashMap::new(),
    );
    assert!(outcome.result.is_ok());
    assert_eq!(
        outcome.submitted_request_urls,
        vec![
            "https://example.com/ping?source=rustok&sitemap=https%3A%2F%2Fstore.example.com%2Fsitemap.xml"
                .to_string(),
            "https://example.com/ping?sitemap=https%3A%2F%2Fstore.example.com%2Fsitemap.xml".to_string(),
        ]
    );
}

#[test]
fn submit_sitemap_endpoints_preserves_valid_endpoint_order() {
    let outcome = submit(
        &[
            "https://first.example.com/ping",
            "invalid endpoint",
            "https://second.example.com/ping",
            "https://third.example.com/ping",
        ],
        HashMap::new(),
    );
    assert!(outcome.result.is_err());
    assert_eq!(
        outcome.submitted_endpoints,
        vec![
            "https://first.example.com/ping".to_string(),
            "https://second.example.com/ping".to_string(),
            "https://third.example.com/ping".to_string(),
        ]
    );
}

#[test]
fn submit_sitemap_endpoints_whitespace_only_endpoint_is_counted_as_invalid() {
    let outcome = submit(&["   \t  "], HashMap::new());
    let message = outcome.result.expect_err("whitespace endpoint must be invalid");
    assert!(message.contains("0 success(es) and 1 failure(s)"));
    assert!(message.contains("invalid endpoint:"));
    assert!(outcome.submitted_endpoints.is_empty());
    assert!(outcome.submitted_request_urls.is_empty());
}

#[test]
fn submit_sitemap_endpoints_invalid_endpoint_is_not_submitted() {
    let outcome = submit(&["not a valid url"], HashMap::new());
    let message = outcome.result.expect_err("invalid endpoint should fail");
    assert!(message.contains("0 success(es) and 1 failure(s)"));
    assert!(message.contains("invalid endpoint: not a valid url"));
    assert!(outcome.submitted_endpoints.is_empty());
}

#[test]
fn submit_sitemap_endpoints_keeps_existing_sitemap_query_in_adapter_payload() {
    let endpoint = "https://example.com/ping?sitemap=https://preset.example.com/sitemap.xml";
    let outcome = submit(&[endpoint], HashMap::new());
    assert!(outcome.result.is_ok());
    assert_eq!(
        outcome.submitted_request_urls,
        vec!["https://example.com/ping?sitemap=https://preset.example.com/sitemap.xml".to_string()]
    );
}

#[test]
fn submit_sitemap_endpoints_preserves_case_insensitive_sitemap_query_key() {
    let endpoint = "https://example.com/ping?SITEMAP=https://preset.example.com/sitemap.xml";
    let outcome = submit(&[endpoint], HashMap::new());
    assert!(outcome.result.is_ok());
    assert_eq!(
        outcome.submitted_request_urls,
        vec!["https://example.com/ping?SITEMAP=https://preset.example.com/sitemap.xml".to_string()]
    );
}

#[test]
fn submit_sitemap_endpoints_timeout_and_failure_messages_are_bounded() {
    let outcome = submit(
        &["https://timeout.example.com/ping", "https://failure.example.com/ping"],
        HashMap::from([
            (
                "https://timeout.example.com/ping".to_string(),
                Err(format!(
                    "request failed for endpoint `https://timeout.example.com/ping` with error: {}",
                    "operation timed out ".repeat(400)
                )),
            ),
            (
                "https://failure.example.com/ping".to_string(),
                Err(format!(
                    "endpoint `https://failure.example.com/ping` responded with status 503 and body: {}",
                    "service unavailable ".repeat(400)
                )),
            ),
        ]),
    );
    let message = outcome.result.expect_err("aggregated bounded error expected");
    assert!(message.contains("0 success(es) and 2 failure(s)"));
    assert!(message.len() <= 4000 + 3);
    assert!(message.ends_with("..."));
}

#[test]
fn submission_run_reports_failures_in_endpoint_order() {
    let outcome = submit(
        &["bad one", "https://fail.example.com/ping", "bad two"],
        HashMap::from([("https://fail.example.com/ping".to_string(), Err("boom".to_string()))]),
    );
    assert_eq!(
        outcome.result,
        Err("sitemap submission finished with 0 success(es) and 3 failure(s); invalid endpoint: bad one; boom; invalid endpoint: bad two"
            .to_string())
    );
}
