# rustok_seo

SEO logic for a commerce platform, written in Verus: the functions in
`src/` carry `requires`/`ensures` contracts, and the verifier proves every
one of them except those of the trusted wrappers around outside crates.

It covers SEO metadata and head rendering, robots and sitemap generation,
sitemap submission to search engines, structured-data (schema.org) blocks,
cross-link suggestions, diagnostics and health reports, bulk edit / import /
export jobs, and the delivery and replay of index events.

Layout:

- `src/` — the verified library, one module per area (`render`, `robots`,
  `sitemaps`, `schema`, `cross_links`, `report`, `bulk_*`, `index_delivery`,
  …). Calls into `url`, `uuid`, `csv`, `form_urlencoded` and `serde_json`
  go through small trusted wrappers whose doc comments say what their contracts claim.
- `tests/` — tests that run the library with those crates linked.
- `app/` — the unverified shell around the library: the file system, the
  clock and random ids, reading a bulk import file, the sitemap ping loop,
  the outbox publish and search-index dispatch loops, and the serde forms of
  the HTTP query strings. The bulk apply, import and export jobs and the
  historical index replay run against the platform's database; the library
  holds their step functions (`bulk_jobs`, `index_delivery`), and no loop
  for them is included here.
