use cache_sniper::cache_checker::{build_cache_result, page_is_cached};
use cache_sniper::headers::HeaderSet;

#[test]
fn scan_record_from_cloudflare_headers() {
    let mut h = HeaderSet::new();
    h.insert("server", "cloudflare");
    h.insert("cache-control", "max-age=3600");
    h.insert("etag", "\"abc123\"");
    h.insert("cf-cache-status", "HIT");
    h.insert("cf-ray", "12345");
    h.insert("age", "120");
    let r = build_cache_result("https://example.com", &h);
    assert_eq!(r.url, "https://example.com");
    assert_eq!(r.cache_control, "max-age=3600");
    assert_eq!(r.etag, "\"abc123\"");
    assert_eq!(r.last_modified, "None");
    assert_eq!(r.expires, "None");
    assert_eq!(r.cdn_provider, "cloudflare");
    assert_eq!(r.cf_cache_status, Some("HIT".to_string()));
    assert_eq!(r.cf_ray, Some("12345".to_string()));
    assert_eq!(r.x_cache, None);
    assert_eq!(r.x_served_by, None);
    assert_eq!(r.age, Some("120".to_string()));
    assert_eq!(r.x_cache_hits, None);
    assert!(r.is_cached);
    assert_eq!(r.cache_verdict, "HIT - Served from Cloudflare cache");
}

#[test]
fn scan_record_without_headers_uses_sentinel() {
    let r = build_cache_result("https://example.com", &HeaderSet::new());
    assert_eq!(r.cache_control, "None");
    assert_eq!(r.etag, "None");
    assert_eq!(r.last_modified, "None");
    assert_eq!(r.expires, "None");
    assert_eq!(r.cdn_provider, "Unknown");
    assert_eq!(r.cf_cache_status, None);
    assert!(!r.is_cached);
    assert_eq!(r.cache_verdict, "Not cached - No cache indicators");
}

#[test]
fn scan_record_from_fastly_headers() {
    let mut h = HeaderSet::new();
    h.insert("via", "1.1 varnish");
    h.insert("x-served-by", "cache-lax123");
    h.insert("server", "Fastly");
    h.insert("x-cache", "HIT");
    h.insert("x-cache-hits", "3");
    h.insert("cache-control", "max-age=3600");
    let r = build_cache_result("https://example.com", &h);
    assert_eq!(r.cdn_provider, "fastly");
    assert_eq!(r.x_cache, Some("HIT".to_string()));
    assert_eq!(r.x_served_by, Some("cache-lax123".to_string()));
    assert_eq!(r.x_cache_hits, Some("3".to_string()));
    assert!(r.is_cached);
    assert_eq!(r.cache_verdict, "HIT - Served from fastly cache");
}

#[test]
fn repeated_header_keeps_first_value() {
    let mut h = HeaderSet::new();
    h.insert("cache-control", "no-store");
    h.insert("cache-control", "max-age=3600");
    assert_eq!(h.len(), 2);
    assert_eq!(h.get("cache-control"), Some("no-store"));
    assert_eq!(h.get("etag"), None);
    assert_eq!(h.get_or("etag", "None"), "None");
    let r = build_cache_result("u", &h);
    assert_eq!(r.cache_control, "no-store");
    assert!(!r.is_cached);
}

#[test]
fn banner_decision() {
    assert!(!page_is_cached("None", "None", "None", "None"));
    assert!(page_is_cached("None", "None", "None", "Thu, 01 Jan 2099 00:00:00 GMT"));
    assert!(page_is_cached("public", "None", "None", "None"));
    assert!(page_is_cached("max-age=3600", "\"e\"", "None", "None"));
    assert!(!page_is_cached("max-age=0", "\"e\"", "None", "None"));
    assert!(!page_is_cached("private, no-cache", "None", "None", "None"));
    assert!(!page_is_cached("no-store", "\"e\"", "None", "None"));
}

#[test]
fn header_names_are_lowercased() {
    let mut h = HeaderSet::new();
    h.insert("Cache-Control", "max-age=60");
    h.insert("SERVER", "AkamaiGHost");
    assert_eq!(h.get("cache-control"), Some("max-age=60"));
    assert_eq!(h.get("Cache-Control"), None);
    let r = build_cache_result("u", &h);
    assert_eq!(r.cdn_provider, "akamai");
    assert!(r.is_cached);
}

#[test]
fn empty_generic_header_becomes_sentinel() {
    let mut h = HeaderSet::new();
    h.insert("cache-control", "");
    h.insert("etag", "");
    h.insert("last-modified", "");
    h.insert("expires", "");
    let r = build_cache_result("u", &h);
    assert_eq!(r.cache_control, "None");
    assert_eq!(r.etag, "None");
    assert_eq!(r.last_modified, "None");
    assert_eq!(r.expires, "None");
    assert!(!r.is_cached);
    assert_eq!(r.cache_verdict, "Not cached - No cache indicators");
}
