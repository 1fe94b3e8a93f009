//! The SEO module's descriptor in the platform's module registry.
use vstd::prelude::*;

verus! {

/// The SEO module of the platform.
pub struct SeoModule;

impl SeoModule {
    /// The module's registry slug.
    pub fn slug(&self) -> (r: &'static str)
        ensures
            r@ == "seo"@,
    {
        "seo"
    }

    /// The module's display name.
    pub fn name(&self) -> (r: &'static str)
        ensures
            r@ == "SEO"@,
    {
        "SEO"
    }

    /// The module's one-line description.
    pub fn description(&self) -> (r: &'static str)
        ensures
            r@ == "SEO metadata, routing resolution, redirects, sitemaps, and robots runtime"@,
    {
        "SEO metadata, routing resolution, redirects, sitemaps, and robots runtime"
    }

    /// The slugs of the modules this one builds on.
    pub fn dependencies(&self) -> (r: &'static [&'static str])
        ensures
            r@.len() == 1,
            r@[0]@ == "content"@,
    {
        &["content"]
    }
}

} // verus!
