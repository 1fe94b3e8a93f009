//! SEO metadata rules of the RusToK platform: robots directives, sitemap and
//! robots.txt rendering, redirect tracing, diagnostics aggregation, bulk
//! metadata patches, search-index replay state and local media storage.
use vstd::prelude::*;

pub mod admin;
pub mod bulk;
pub mod bulk_csv;
pub mod bulk_jobs;
pub mod bulk_records;
pub mod cross_links;
pub mod diagnostics;
pub mod dto;
pub mod error;
pub mod events;
pub mod health;
pub mod index_delivery;
pub mod json;
pub mod media;
pub mod module;
pub mod order;
pub mod queries;
pub mod render;
pub mod report;
pub mod robots;
pub mod routing;
pub mod schema;
pub mod sitemaps;
pub mod storage;
pub mod submission;
pub mod text;
pub mod transport;
pub mod urls;

verus! {


} // verus!
