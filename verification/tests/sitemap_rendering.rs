use rustok_seo::sitemaps::{
    disabled_sitemap_status, render_robots_body, robots_preview_record, sitemap_status_record,
    SeoSitemapFileRecord,
    SeoSitemapJobRecord, SitemapSubmissionSummary, SITEMAP_SUBMIT_MAX_ERROR_LEN,
};

#[test]
fn render_robots_body_omits_sitemap_when_disabled() {
    assert_eq!(
        render_robots_body("https://example.com", false),
        "User-agent: *\nAllow: /\n"
    );
}

#[test]
fn render_robots_body_includes_sitemap_when_enabled() {
    assert_eq!(
        render_robots_body("https://example.com", true),
        "User-agent: *\nAllow: /\nSitemap: https://example.com/sitemap.xml\n"
    );
}

#[test]
fn submission_summary_without_failures_returns_none() {
    let summary = SitemapSubmissionSummary {
        success_count: 3,
        failure_count: 0,
        failures: Vec::new(),
    };
    assert_eq!(summary.into_error(), None);
}

#[test]
fn submission_summary_with_failure_count_but_empty_details_still_returns_error() {
    let summary = SitemapSubmissionSummary {
        success_count: 2,
        failure_count: 1,
        failures: Vec::new(),
    };

    let message = summary.into_error().expect("error summary expected");
    assert_eq!(
        message,
        "sitemap submission finished with 2 success(es) and 1 failure(s)"
    );
}

#[test]
fn submission_summary_truncates_bounded_error_message() {
    let summary = SitemapSubmissionSummary {
        success_count: 0,
        failure_count: 1,
        failures: vec!["x".repeat(SITEMAP_SUBMIT_MAX_ERROR_LEN + 200)],
    };
    let message = summary.into_error().expect("error expected");
    assert!(message.len() <= SITEMAP_SUBMIT_MAX_ERROR_LEN + 3);
    assert!(message.ends_with("..."));
}

use rustok_seo::sitemaps::{plan_sitemap_files, public_base_url, sitemap_urls, submission_request};

/// Drives the submission bookkeeping the way the service loop does, with
/// the outcome of each request supplied by `respond`.
fn run_submissions(
    endpoints: &[&str],
    index_url: &str,
    respond: impl Fn(&str) -> Result<(), String>,
) -> (SitemapSubmissionSummary, Vec<String>) {
    let mut summary = SitemapSubmissionSummary::new();
    let mut sent = Vec::new();
    for endpoint in endpoints {
        match submission_request(endpoint, index_url) {
            Some(request) => {
                sent.push(request.request_url.clone());
                summary.record_result(respond(request.endpoint.as_str()));
            }
            None => summary.record_invalid_endpoint(endpoint),
        }
    }
    (summary, sent)
}

#[test]
fn sitemap_submission_reports_success_failure_and_invalid() {
    let (summary, sent) = run_submissions(
        &["https://ok.example.com/ping", "https://fail.example.com/ping", "invalid endpoint"],
        "https://store.example.com/sitemap.xml",
        |endpoint| {
            if endpoint.contains("fail") {
                Err(format!("endpoint `{endpoint}` responded with status 500 Internal Server Error"))
            } else {
                Ok(())
            }
        },
    );
    assert_eq!(
        sent,
        vec![
            "https://ok.example.com/ping?sitemap=https%3A%2F%2Fstore.example.com%2Fsitemap.xml".to_string(),
            "https://fail.example.com/ping?sitemap=https%3A%2F%2Fstore.example.com%2Fsitemap.xml".to_string(),
        ]
    );
    let message = summary.into_error().expect("must return aggregate error");
    assert!(message.contains("1 success(es) and 2 failure(s)"));
    assert!(message.contains("endpoint `https://fail.example.com/ping` responded with status 500"));
    assert!(message.contains("invalid endpoint: invalid endpoint"));
}

#[test]
fn sitemap_submission_with_only_successes_has_no_error() {
    let (summary, sent) = run_submissions(
        &["https://a.example.com/ping", "https://b.example.com/ping?sitemap={sitemap_url}"],
        "https://store.example.com/sitemap.xml",
        |_| Ok(()),
    );
    assert_eq!(sent.len(), 2);
    assert_eq!(summary.success_count, 2);
    assert_eq!(summary.into_error(), None);
}

#[test]
fn sitemap_submission_messages_are_bounded() {
    let (summary, _) = run_submissions(
        &["https://timeout.example.com/ping", "https://failure.example.com/ping"],
        "https://store.example.com/sitemap.xml",
        |endpoint| Err(format!("request failed for endpoint `{endpoint}` with error: {}", "operation timed out ".repeat(400))),
    );
    let message = summary.into_error().expect("aggregated bounded error expected");
    assert!(message.contains("0 success(es) and 2 failure(s)"));
    assert!(message.len() <= SITEMAP_SUBMIT_MAX_ERROR_LEN + 3);
    assert!(message.ends_with("..."));
}

#[test]
fn sitemap_plan_chunks_urls_and_lists_files_in_the_index() {
    let urls: Vec<String> = (0..1001).map(|i| format!("https://shop.test/p/{i:04}")).collect();
    let files = plan_sitemap_files("https://shop.test", &urls);
    assert_eq!(files.len(), 4);
    assert_eq!(files[0].path, "sitemap.xml");
    assert_eq!(files[0].url_count, 1001);
    assert!(files[0].content.contains("<sitemap><loc>https://shop.test/sitemaps/sitemap-3.xml</loc></sitemap>"));
    assert_eq!(files[1].path, "sitemap-1.xml");
    assert_eq!(files[1].url_count, 500);
    assert_eq!(files[2].url_count, 500);
    assert_eq!(files[3].path, "sitemap-3.xml");
    assert_eq!(files[3].url_count, 1);
    assert!(files[3].content.contains("<url><loc>https://shop.test/p/1000</loc></url>"));

    let empty = plan_sitemap_files("https://shop.test", &Vec::new());
    assert_eq!(empty.len(), 1);
    assert_eq!(empty[0].url_count, 0);
}

#[test]
fn public_base_url_prefers_the_tenant_domain() {
    assert_eq!(public_base_url(Some(" store.example.com/ "), "http://localhost:5150"), "https://store.example.com");
    assert_eq!(public_base_url(Some("http://store.example.com//"), "http://localhost:5150"), "http://store.example.com");
    assert_eq!(public_base_url(Some("   "), "http://localhost:5150/"), "http://localhost:5150");
    assert_eq!(public_base_url(None, "https://api.example.com"), "https://api.example.com");
}

#[test]
fn sitemap_status_is_disabled_without_settings_flag() {
    let job = SeoSitemapJobRecord {
        id: 5,
        status: "completed".to_string(),
        file_count: 1,
        started_at: Some(10),
        completed_at: Some(20),
        last_error: None,
        files: vec![SeoSitemapFileRecord { id: 6, path: "sitemap.xml".to_string(), url_count: 3, created_at: 20 }],
    };
    let status = sitemap_status_record(false, Some(job));
    assert!(!status.enabled);
    assert_eq!(status.latest_job_id, None);
    assert_eq!(status.status, None);
    assert_eq!(status.file_count, 0);
    assert!(status.files.is_empty());

    let disabled = disabled_sitemap_status();
    assert!(!disabled.enabled);
    assert_eq!(disabled.generated_at, None);
}

#[test]
fn sitemap_status_reports_the_latest_job_and_its_files() {
    let empty = sitemap_status_record(true, None);
    assert!(empty.enabled);
    assert_eq!(empty.latest_job_id, None);
    assert_eq!(empty.file_count, 0);

    let job = SeoSitemapJobRecord {
        id: 5,
        status: "completed".to_string(),
        file_count: 2,
        started_at: Some(10),
        completed_at: Some(20),
        last_error: None,
        files: vec![
            SeoSitemapFileRecord { id: 6, path: "sitemap-1.xml".to_string(), url_count: 500, created_at: 20 },
            SeoSitemapFileRecord { id: 7, path: "sitemap-2.xml".to_string(), url_count: 3, created_at: 20 },
        ],
    };
    let status = sitemap_status_record(true, Some(job));
    assert!(status.enabled);
    assert_eq!(status.latest_job_id, Some(5));
    assert_eq!(status.status.as_deref(), Some("completed"));
    assert_eq!(status.file_count, 2);
    assert_eq!(status.generated_at, Some(20));
    let paths: Vec<&str> = status.files.iter().map(|f| f.path.as_str()).collect();
    assert_eq!(paths, vec!["sitemap-1.xml", "sitemap-2.xml"]);
}

#[test]
fn sitemap_urls_are_sorted_and_listed_once() {
    let urls = sitemap_urls(
        "https://store.example.com",
        &vec!["/ru/blog".to_string(), "/en/about".to_string(), "/ru/blog".to_string(), "/en".to_string()],
    );
    assert_eq!(
        urls,
        vec![
            "https://store.example.com/en".to_string(),
            "https://store.example.com/en/about".to_string(),
            "https://store.example.com/ru/blog".to_string(),
        ]
    );
}

#[test]
fn robots_preview_points_at_robots_and_sitemap() {
    let enabled = robots_preview_record("https://store.example.com", true);
    assert_eq!(enabled.public_url, "https://store.example.com/robots.txt");
    assert_eq!(enabled.sitemap_index_url.as_deref(), Some("https://store.example.com/sitemap.xml"));
    assert_eq!(enabled.body, "User-agent: *\nAllow: /\nSitemap: https://store.example.com/sitemap.xml\n");

    let disabled = robots_preview_record("https://store.example.com", false);
    assert_eq!(disabled.public_url, "https://store.example.com/robots.txt");
    assert_eq!(disabled.sitemap_index_url, None);
    assert_eq!(disabled.body, "User-agent: *\nAllow: /\n");
}
