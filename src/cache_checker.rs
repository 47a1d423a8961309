//! The single-URL scan: from a response's headers to a cache record.

use vstd::prelude::*;
use crate::cdn::{cdn_of_headers, detect_cdn};
use crate::headers::{HeaderSet, first_value};
use crate::text::{contains, has_substring, opt_text, same_text};
use crate::verdict::{cache_verdict, determine_cache_verdict};

verus! {

/// What one scan found out about one URL.
pub struct CacheResult {
    pub url: String,
    pub cache_control: String,
    pub etag: String,
    pub last_modified: String,
    pub expires: String,
    pub cdn_provider: String,
    /// `cf-cache-status` (Cloudflare).
    pub cf_cache_status: Option<String>,
    /// `cf-ray`, Cloudflare's request id.
    pub cf_ray: Option<String>,
    /// `x-cache` (Fastly, Akamai and others).
    pub x_cache: Option<String>,
    /// `x-served-by` (Fastly).
    pub x_served_by: Option<String>,
    pub age: Option<String>,
    pub x_cache_hits: Option<String>,
    pub is_cached: bool,
    pub cache_verdict: String,
}

/// A generic cache header: its first value, or the sentinel `"None"` where
/// the header is absent or empty, so that the field is never empty.
pub open spec fn generic_header(h: Seq<(Seq<char>, Seq<char>)>, name: Seq<char>) -> Seq<char> {
    match first_value(h, name) {
        Some(v) => if v.len() == 0 {
            "None"@
        } else {
            v
        },
        None => "None"@,
    }
}

fn generic_value(headers: &HeaderSet, name: &str) -> (r: String)
    ensures
        r@ == generic_header(headers@, name@),
        r@.len() > 0,
{
    proof {
        reveal_strlit("None");
    }
    match headers.get(name) {
        Some(v) => if v.is_empty() {
            "None".to_owned()
        } else {
            v.to_owned()
        },
        None => "None".to_owned(),
    }
}

/// The record that a scan of `url` makes of the headers `h`.
pub open spec fn scanned_as(r: CacheResult, url: Seq<char>, h: Seq<(Seq<char>, Seq<char>)>) -> bool {
    &&& r.url@ == url
    &&& r.cache_control@ == generic_header(h, "cache-control"@)
    &&& r.etag@ == generic_header(h, "etag"@)
    &&& r.last_modified@ == generic_header(h, "last-modified"@)
    &&& r.expires@ == generic_header(h, "expires"@)
    &&& r.cdn_provider@ == cdn_of_headers(h)
    &&& opt_text(r.cf_cache_status) == first_value(h, "cf-cache-status"@)
    &&& opt_text(r.cf_ray) == first_value(h, "cf-ray"@)
    &&& opt_text(r.x_cache) == first_value(h, "x-cache"@)
    &&& opt_text(r.x_served_by) == first_value(h, "x-served-by"@)
    &&& opt_text(r.age) == first_value(h, "age"@)
    &&& opt_text(r.x_cache_hits) == first_value(h, "x-cache-hits"@)
    &&& (r.is_cached, r.cache_verdict@) == cache_verdict(
        first_value(h, "cf-cache-status"@),
        first_value(h, "x-cache"@),
        generic_header(h, "cache-control"@),
        generic_header(h, "etag"@),
        cdn_of_headers(h),
    )
}

fn optional_header(headers: &HeaderSet, name: &str) -> (r: Option<String>)
    ensures
        opt_text(r) == first_value(headers@, name@),
{
    match headers.get(name) {
        Some(v) => Some(v.to_owned()),
        None => None,
    }
}

/// Builds the scan record of `url` from the headers of its response: the CDN,
/// the generic and CDN-specific headers, and the verdict over them.
pub fn build_cache_result(url: &str, headers: &HeaderSet) -> (r: CacheResult)
    ensures
        scanned_as(r, url@, headers@),
        r.cache_control@.len() > 0,
        r.etag@.len() > 0,
        r.last_modified@.len() > 0,
        r.expires@.len() > 0,
{
    let cdn_provider = detect_cdn(headers);
    let cache_control = generic_value(headers, "cache-control");
    let etag = generic_value(headers, "etag");
    let last_modified = generic_value(headers, "last-modified");
    let expires = generic_value(headers, "expires");

    let cf_cache_status = optional_header(headers, "cf-cache-status");
    let cf_ray = optional_header(headers, "cf-ray");
    let x_cache = optional_header(headers, "x-cache");
    let x_served_by = optional_header(headers, "x-served-by");
    let age = optional_header(headers, "age");
    let x_cache_hits = optional_header(headers, "x-cache-hits");

    let (is_cached, cache_verdict) = determine_cache_verdict(
        &cf_cache_status,
        &x_cache,
        cache_control.as_str(),
        etag.as_str(),
        cdn_provider.as_str(),
    );
    CacheResult {
        url: url.to_owned(),
        cache_control,
        etag,
        last_modified,
        expires,
        cdn_provider,
        cf_cache_status,
        cf_ray,
        x_cache,
        x_served_by,
        age,
        x_cache_hits,
        is_cached,
        cache_verdict,
    }
}

/// The banner over a scan's header table reads "being cached": some generic
/// header is present, and `Cache-Control` forbids neither caching nor reuse
/// and does not set `max-age=0`.
pub open spec fn banner_says_cached(
    cache_control: Seq<char>,
    etag: Seq<char>,
    last_modified: Seq<char>,
    expires: Seq<char>,
) -> bool {
    &&& !(cache_control == "None"@ && etag == "None"@ && last_modified == "None"@ && expires
        == "None"@)
    &&& !has_substring(cache_control, "no-cache"@)
    &&& !has_substring(cache_control, "no-store"@)
    &&& !has_substring(cache_control, "max-age=0"@)
}

/// Whether the summary banner of a scan says the page is being cached, from
/// its four generic headers (each possibly the sentinel `"None"`).
pub fn page_is_cached(cache_control: &str, etag: &str, last_modified: &str, expires: &str) -> (r:
    bool)
    ensures
        r == banner_says_cached(cache_control@, etag@, last_modified@, expires@),
{
    if same_text(cache_control, "None") && same_text(etag, "None") && same_text(
        last_modified,
        "None",
    ) && same_text(expires, "None") {
        false
    } else {
        !(contains(cache_control, "no-cache") || contains(cache_control, "no-store") || contains(
            cache_control,
            "max-age=0",
        ))
    }
}

} // verus!
