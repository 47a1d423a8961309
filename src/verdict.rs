//! Whether a response is cached, and why, decided by the Cloudflare status
//! first, then `X-Cache`, then the standard cache headers.

use vstd::prelude::*;
use crate::text::{contains, has_substring, lower_of, opt_text, same_text, to_lower};

verus! {

/// The fixed Cloudflare table, keyed by the lowercased `cf-cache-status`.
pub open spec fn cloudflare_table(status_lower: Seq<char>) -> Option<(bool, Seq<char>)> {
    if status_lower == "hit"@ {
        Some((true, "HIT - Served from Cloudflare cache"@))
    } else if status_lower == "miss"@ {
        Some((false, "MISS - Origin fetch, not cached yet"@))
    } else if status_lower == "expired"@ {
        Some((false, "EXPIRED - Cache entry stale, revalidating"@))
    } else if status_lower == "stale"@ {
        Some((true, "STALE - Serving stale content while revalidating"@))
    } else if status_lower == "bypass"@ {
        Some((false, "BYPASS - Cache rules bypassed"@))
    } else if status_lower == "revalidated"@ {
        Some((true, "REVALIDATED - Cache validated with origin"@))
    } else if status_lower == "updating"@ {
        Some((true, "UPDATING - Serving cached while updating"@))
    } else if status_lower == "dynamic"@ {
        Some((false, "DYNAMIC - Content marked as uncacheable"@))
    } else {
        None
    }
}

/// The Cloudflare branch: the table entry, or an "unknown status" verdict
/// that quotes the status as it was received.
pub open spec fn cloudflare_outcome(status: Seq<char>, status_lower: Seq<char>) -> (bool, Seq<char>) {
    match cloudflare_table(status_lower) {
        Some(v) => v,
        None => (false, "Unknown Cloudflare status: "@ + status),
    }
}

/// The `X-Cache` branch over the lowercased header; `None` where it says
/// neither hit nor miss, so that the cascade falls through.
pub open spec fn x_cache_outcome(x_cache_lower: Seq<char>, cdn: Seq<char>) -> Option<(bool, Seq<char>)> {
    if has_substring(x_cache_lower, "hit"@) {
        Some((true, "HIT - Served from "@ + cdn + " cache"@))
    } else if has_substring(x_cache_lower, "miss"@) {
        Some((false, "MISS - Not in "@ + cdn + " cache"@))
    } else {
        None
    }
}

/// The standard headers say the response may be cached.
pub open spec fn headers_say_cacheable(cache_control: Seq<char>, etag: Seq<char>) -> bool {
    &&& cache_control != "None"@
    &&& !has_substring(cache_control, "no-cache"@)
    &&& !has_substring(cache_control, "no-store"@)
    &&& (etag != "None"@ || has_substring(cache_control, "max-age"@))
}

/// The fallback over the standard headers.
pub open spec fn header_outcome(cache_control: Seq<char>, etag: Seq<char>) -> (bool, Seq<char>) {
    if headers_say_cacheable(cache_control, etag) {
        (true, "Cacheable - Has cache headers"@)
    } else {
        (false, "Not cached - No cache indicators"@)
    }
}

/// The whole cascade: a Cloudflare status decides alone; else an `X-Cache`
/// that says hit or miss; else the standard headers.
pub open spec fn cache_verdict(
    cf_cache_status: Option<Seq<char>>,
    x_cache: Option<Seq<char>>,
    cache_control: Seq<char>,
    etag: Seq<char>,
    cdn: Seq<char>,
) -> (bool, Seq<char>) {
    match cf_cache_status {
        Some(s) => cloudflare_outcome(s, lower_of(s)),
        None => match x_cache {
            Some(x) => match x_cache_outcome(lower_of(x), cdn) {
                Some(v) => v,
                None => header_outcome(cache_control, etag),
            },
            None => header_outcome(cache_control, etag),
        },
    }
}

/// A Cloudflare status from the table decides the verdict alone, in any
/// letter case: whatever `X-Cache`, `Cache-Control`, `ETag` and the CDN say,
/// the verdict is the table's entry for the lowercased status.
pub proof fn lemma_known_cloudflare_status_decides(
    status: Seq<char>,
    x_cache: Option<Seq<char>>,
    cache_control: Seq<char>,
    etag: Seq<char>,
    cdn: Seq<char>,
)
    requires
        cloudflare_table(lower_of(status)) is Some,
    ensures
        cache_verdict(Some(status), x_cache, cache_control, etag, cdn) == cloudflare_table(
            lower_of(status),
        ).unwrap(),
{
}

/// Any other Cloudflare status still decides alone: the response counts as
/// not cached, and the reason quotes the status as received.
pub proof fn lemma_unknown_cloudflare_status_decides(
    status: Seq<char>,
    x_cache: Option<Seq<char>>,
    cache_control: Seq<char>,
    etag: Seq<char>,
    cdn: Seq<char>,
)
    requires
        cloudflare_table(lower_of(status)) is None,
    ensures
        cache_verdict(Some(status), x_cache, cache_control, etag, cdn) == (
            false,
            "Unknown Cloudflare status: "@ + status,
        ),
{
}

fn verdict_text(cached: bool, text: &str) -> (r: (bool, String))
    ensures
        r.0 == cached,
        r.1@ == text@,
{
    (cached, text.to_owned())
}

/// The Cloudflare branch, given the status as received and its lowercase form.
pub fn cloudflare_verdict(status: &str, status_lower: &str) -> (r: (bool, String))
    ensures
        (r.0, r.1@) == cloudflare_outcome(status@, status_lower@),
{
    if same_text(status_lower, "hit") {
        verdict_text(true, "HIT - Served from Cloudflare cache")
    } else if same_text(status_lower, "miss") {
        verdict_text(false, "MISS - Origin fetch, not cached yet")
    } else if same_text(status_lower, "expired") {
        verdict_text(false, "EXPIRED - Cache entry stale, revalidating")
    } else if same_text(status_lower, "stale") {
        verdict_text(true, "STALE - Serving stale content while revalidating")
    } else if same_text(status_lower, "bypass") {
        verdict_text(false, "BYPASS - Cache rules bypassed")
    } else if same_text(status_lower, "revalidated") {
        verdict_text(true, "REVALIDATED - Cache validated with origin")
    } else if same_text(status_lower, "updating") {
        verdict_text(true, "UPDATING - Serving cached while updating")
    } else if same_text(status_lower, "dynamic") {
        verdict_text(false, "DYNAMIC - Content marked as uncacheable")
    } else {
        (false, String::from_str("Unknown Cloudflare status: ").concat(status))
    }
}

/// The `X-Cache` branch, given the lowercased header and the CDN name.
pub fn x_cache_verdict(x_cache_lower: &str, cdn_provider: &str) -> (r: Option<(bool, String)>)
    ensures
        match r {
            Some(v) => x_cache_outcome(x_cache_lower@, cdn_provider@) == Some((v.0, v.1@)),
            None => x_cache_outcome(x_cache_lower@, cdn_provider@) is None,
        },
{
    if contains(x_cache_lower, "hit") {
        Some((true, String::from_str("HIT - Served from ").concat(cdn_provider).concat(" cache")))
    } else if contains(x_cache_lower, "miss") {
        Some((false, String::from_str("MISS - Not in ").concat(cdn_provider).concat(" cache")))
    } else {
        None
    }
}

/// The fallback over `Cache-Control` and `ETag` (each possibly the sentinel
/// `"None"`).
pub fn header_verdict(cache_control: &str, etag: &str) -> (r: (bool, String))
    ensures
        (r.0, r.1@) == header_outcome(cache_control@, etag@),
{
    if !same_text(cache_control, "None") && !contains(cache_control, "no-cache") && !contains(
        cache_control,
        "no-store",
    ) {
        if !same_text(etag, "None") || contains(cache_control, "max-age") {
            return verdict_text(true, "Cacheable - Has cache headers");
        }
    }
    verdict_text(false, "Not cached - No cache indicators")
}

/// Classifies a response as cached or not, with the reason, from the first
/// signal in the cascade that decides.
pub fn determine_cache_verdict(
    cf_cache_status: &Option<String>,
    x_cache: &Option<String>,
    cache_control: &str,
    etag: &str,
    cdn_provider: &str,
) -> (r: (bool, String))
    ensures
        (r.0, r.1@) == cache_verdict(
            opt_text(*cf_cache_status),
            opt_text(*x_cache),
            cache_control@,
            etag@,
            cdn_provider@,
        ),
{
    if let Some(cf_status) = cf_cache_status {
        let status_lower = to_lower(cf_status.as_str());
        return cloudflare_verdict(cf_status.as_str(), status_lower.as_str());
    }
    if let Some(x_cache_val) = x_cache {
        let cache_lower = to_lower(x_cache_val.as_str());
        if let Some(v) = x_cache_verdict(cache_lower.as_str(), cdn_provider) {
            return v;
        }
    }
    header_verdict(cache_control, etag)
}

} // verus!
