//! CDN detection from the `Server`, `Via` and `X-CDN-Provider` headers.

use vstd::prelude::*;
use crate::headers::{HeaderSet, value_or};
use crate::text::{contains, has_substring, lower_of, to_lower};

verus! {

/// Known CDN keywords; an earlier entry wins over a later one.
pub open spec fn cdn_catalog() -> Seq<Seq<char>> {
    seq![
        "cloudflare"@,
        "fastly"@,
        "akamai"@,
        "cloudfront"@,
        "gcore"@,
        "bunnycdn"@,
        "cdn77"@,
        "stackpath"@,
        "edgecast"@,
        "limelight"@,
        "quic.cloud"@,
        "github"@,
        "imperva"@,
        "sucuri"@,
        "cachefly"@,
        "jsdelivr"@,
        "bootstrapcdn"@,
        "keycdn"@,
        "maxcdn"@,
        "belugacdn"@,
        "arvancloud"@,
        "google"@,
        "stackpathdns"@,
    ]
}

/// One of the three (lowercased) header values contains `keyword`.
pub open spec fn mentions(
    server: Seq<char>,
    via: Seq<char>,
    provider: Seq<char>,
    keyword: Seq<char>,
) -> bool {
    has_substring(server, keyword) || has_substring(via, keyword) || has_substring(
        provider,
        keyword,
    )
}

/// The first catalog entry at or after position `i` that the headers mention.
pub open spec fn cdn_from(server: Seq<char>, via: Seq<char>, provider: Seq<char>, i: int) -> Seq<
    char,
>
    decreases cdn_catalog().len() - i,
{
    if i < 0 || i >= cdn_catalog().len() {
        "Unknown"@
    } else if mentions(server, via, provider, cdn_catalog()[i]) {
        cdn_catalog()[i]
    } else {
        cdn_from(server, via, provider, i + 1)
    }
}

/// The CDN named by the lowercased headers: the first catalog entry they
/// mention, or `"Unknown"`.
pub open spec fn detected_cdn(server: Seq<char>, via: Seq<char>, provider: Seq<char>) -> Seq<char> {
    cdn_from(server, via, provider, 0)
}

/// The CDN named by a header set, each of the three headers lowercased and
/// taken as empty where absent.
pub open spec fn cdn_of_headers(h: Seq<(Seq<char>, Seq<char>)>) -> Seq<char> {
    detected_cdn(
        lower_of(value_or(h, "server"@, ""@)),
        lower_of(value_or(h, "via"@, ""@)),
        lower_of(value_or(h, "x-cdn-provider"@, ""@)),
    )
}

proof fn lemma_none_mentioned_from(server: Seq<char>, via: Seq<char>, provider: Seq<char>, i: int)
    requires
        0 <= i,
        forall|j: int|
            i <= j < cdn_catalog().len() ==> !mentions(server, via, provider, #[trigger] cdn_catalog()[j]),
    ensures
        cdn_from(server, via, provider, i) == "Unknown"@,
    decreases cdn_catalog().len() - i,
{
    if i < cdn_catalog().len() {
        lemma_none_mentioned_from(server, via, provider, i + 1);
    }
}

proof fn lemma_skip_unmentioned(server: Seq<char>, via: Seq<char>, provider: Seq<char>, i: int, k: int)
    requires
        0 <= k <= i,
        forall|j: int| k <= j < i ==> !mentions(server, via, provider, #[trigger] cdn_catalog()[j]),
    ensures
        cdn_from(server, via, provider, k) == cdn_from(server, via, provider, i),
    decreases i - k,
{
    if k < i {
        lemma_skip_unmentioned(server, via, provider, i, k + 1);
    }
}

/// Where no catalog keyword occurs in any of the three headers, the CDN is
/// `"Unknown"`.
pub proof fn lemma_no_keyword_gives_unknown(server: Seq<char>, via: Seq<char>, provider: Seq<char>)
    requires
        forall|j: int|
            0 <= j < cdn_catalog().len() ==> !mentions(server, via, provider, #[trigger] cdn_catalog()[j]),
    ensures
        detected_cdn(server, via, provider) == "Unknown"@,
{
    lemma_none_mentioned_from(server, via, provider, 0);
}

/// Catalog order decides, not header order: where several keywords occur, the
/// one earliest in the catalog is the CDN.
pub proof fn lemma_earliest_catalog_entry_wins(
    server: Seq<char>,
    via: Seq<char>,
    provider: Seq<char>,
    i: int,
)
    requires
        0 <= i < cdn_catalog().len(),
        mentions(server, via, provider, cdn_catalog()[i]),
        forall|j: int| 0 <= j < i ==> !mentions(server, via, provider, #[trigger] cdn_catalog()[j]),
    ensures
        detected_cdn(server, via, provider) == cdn_catalog()[i],
{
    lemma_skip_unmentioned(server, via, provider, i, 0);
}

/// `needle` matches `hay` character by character from position `i`, from its
/// `k`-th character on.
spec fn matches_at(hay: Seq<char>, needle: Seq<char>, i: int, k: int) -> bool
    decreases needle.len() - k,
{
    if k < 0 || k >= needle.len() {
        true
    } else {
        hay[i + k] == needle[k] && matches_at(hay, needle, i, k + 1)
    }
}

/// `needle` occurs in `hay` at position `i` or later, searched position by
/// position.
spec fn occurs_from(hay: Seq<char>, needle: Seq<char>, i: int) -> bool
    decreases hay.len() - i,
{
    if i < 0 || i + needle.len() > hay.len() {
        false
    } else {
        matches_at(hay, needle, i, 0) || occurs_from(hay, needle, i + 1)
    }
}

/// None of the first `j` catalog entries occurs in `k`.
spec fn none_before(k: Seq<char>, j: int) -> bool
    decreases j,
{
    j <= 0 || (!occurs_from(k, cdn_catalog()[j - 1], 0) && none_before(k, j - 1))
}

proof fn lemma_matches_from(hay: Seq<char>, needle: Seq<char>, w: int, k: int)
    requires
        0 <= w,
        w + needle.len() <= hay.len(),
        hay.subrange(w, w + needle.len()) == needle,
        0 <= k <= needle.len(),
    ensures
        matches_at(hay, needle, w, k),
    decreases needle.len() - k,
{
    if k < needle.len() {
        lemma_matches_from(hay, needle, w, k + 1);
        assert(hay[w + k] == hay.subrange(w, w + needle.len())[k]);
    }
}

proof fn lemma_occurs_before(hay: Seq<char>, needle: Seq<char>, w: int, i: int)
    requires
        0 <= i <= w,
        w + needle.len() <= hay.len(),
        matches_at(hay, needle, w, 0),
    ensures
        occurs_from(hay, needle, i),
    decreases w - i,
{
    if i < w {
        lemma_occurs_before(hay, needle, w, i + 1);
    }
}

/// The position-by-position search finds every occurrence.
proof fn lemma_search_complete(hay: Seq<char>, needle: Seq<char>)
    requires
        has_substring(hay, needle),
    ensures
        occurs_from(hay, needle, 0),
{
    let w = choose|w: int|
        0 <= w && w + needle.len() <= hay.len() && #[trigger] hay.subrange(w, w + needle.len())
            == needle;
    lemma_matches_from(hay, needle, w, 0);
    lemma_occurs_before(hay, needle, w, 0);
}

proof fn lemma_none_before_each(k: Seq<char>, i: int)
    requires
        0 <= i,
        none_before(k, i),
    ensures
        forall|j: int| 0 <= j < i ==> !occurs_from(k, #[trigger] cdn_catalog()[j], 0),
    decreases i,
{
    if i > 0 {
        lemma_none_before_each(k, i - 1);
    }
}

/// No catalog entry but the last contains an earlier entry.
#[verifier::rlimit(100)]
proof fn lemma_no_earlier_entry_inside(i: int)
    requires
        0 <= i < cdn_catalog().len() - 1,
    ensures
        none_before(cdn_catalog()[i], i),
{
        reveal_strlit("cloudflare");
        reveal_strlit("fastly");
        reveal_strlit("akamai");
        reveal_strlit("cloudfront");
        reveal_strlit("gcore");
        reveal_strlit("bunnycdn");
        reveal_strlit("cdn77");
        reveal_strlit("stackpath");
        reveal_strlit("edgecast");
        reveal_strlit("limelight");
        reveal_strlit("quic.cloud");
        reveal_strlit("github");
        reveal_strlit("imperva");
        reveal_strlit("sucuri");
        reveal_strlit("cachefly");
        reveal_strlit("jsdelivr");
        reveal_strlit("bootstrapcdn");
        reveal_strlit("keycdn");
        reveal_strlit("maxcdn");
        reveal_strlit("belugacdn");
        reveal_strlit("arvancloud");
        reveal_strlit("google");
    reveal_with_fuel(none_before, 22);
    reveal_with_fuel(occurs_from, 9);
    reveal_with_fuel(matches_at, 8);
    if i == 0 {
        assert(none_before(cdn_catalog()[0], 0));
    } else if i == 1 {
        assert(none_before(cdn_catalog()[1], 1));
    } else if i == 2 {
        assert(none_before(cdn_catalog()[2], 2));
    } else if i == 3 {
        assert(none_before(cdn_catalog()[3], 3));
    } else if i == 4 {
        assert(none_before(cdn_catalog()[4], 4));
    } else if i == 5 {
        assert(none_before(cdn_catalog()[5], 5));
    } else if i == 6 {
        assert(none_before(cdn_catalog()[6], 6));
    } else if i == 7 {
        assert(none_before(cdn_catalog()[7], 7));
    } else if i == 8 {
        assert(none_before(cdn_catalog()[8], 8));
    } else if i == 9 {
        assert(none_before(cdn_catalog()[9], 9));
    } else if i == 10 {
        assert(none_before(cdn_catalog()[10], 10));
    } else if i == 11 {
        assert(none_before(cdn_catalog()[11], 11));
    } else if i == 12 {
        assert(none_before(cdn_catalog()[12], 12));
    } else if i == 13 {
        assert(none_before(cdn_catalog()[13], 13));
    } else if i == 14 {
        assert(none_before(cdn_catalog()[14], 14));
    } else if i == 15 {
        assert(none_before(cdn_catalog()[15], 15));
    } else if i == 16 {
        assert(none_before(cdn_catalog()[16], 16));
    } else if i == 17 {
        assert(none_before(cdn_catalog()[17], 17));
    } else if i == 18 {
        assert(none_before(cdn_catalog()[18], 18));
    } else if i == 19 {
        assert(none_before(cdn_catalog()[19], 19));
    } else if i == 20 {
        assert(none_before(cdn_catalog()[20], 20));
    } else if i == 21 {
        assert(none_before(cdn_catalog()[21], 21));
    }
}

/// No catalog entry occurs in `"Unknown"`.
#[verifier::rlimit(100)]
proof fn lemma_no_entry_in_unknown()
    ensures
        none_before("Unknown"@, cdn_catalog().len() as int),
{
    reveal_strlit("Unknown");
    reveal_strlit("cloudflare");
    reveal_strlit("fastly");
    reveal_strlit("akamai");
    reveal_strlit("cloudfront");
    reveal_strlit("gcore");
    reveal_strlit("bunnycdn");
    reveal_strlit("cdn77");
    reveal_strlit("stackpath");
    reveal_strlit("edgecast");
    reveal_strlit("limelight");
    reveal_strlit("quic.cloud");
    reveal_strlit("github");
    reveal_strlit("imperva");
    reveal_strlit("sucuri");
    reveal_strlit("cachefly");
    reveal_strlit("jsdelivr");
    reveal_strlit("bootstrapcdn");
    reveal_strlit("keycdn");
    reveal_strlit("maxcdn");
    reveal_strlit("belugacdn");
    reveal_strlit("arvancloud");
    reveal_strlit("google");
    reveal_strlit("stackpathdns");
    reveal_with_fuel(none_before, 24);
    reveal_with_fuel(occurs_from, 4);
    reveal_with_fuel(matches_at, 4);
    assert(none_before("Unknown"@, 23));
}

/// Text that mentions the last entry, `stackpathdns`, mentions `stackpath`.
proof fn lemma_last_entry_mentions_stackpath(x: Seq<char>)
    requires
        has_substring(x, cdn_catalog()[22]),
    ensures
        has_substring(x, cdn_catalog()[7]),
{
    reveal_strlit("stackpathdns");
    reveal_strlit("stackpath");
    let n = cdn_catalog()[22];
    let w = choose|w: int| 0 <= w && w + n.len() <= x.len() && #[trigger] x.subrange(w, w + n.len()) == n;
    assert(x.subrange(w, w + 9) =~= cdn_catalog()[7]) by {
        assert forall|t: int| 0 <= t < 9 implies x.subrange(w, w + 9)[t] == cdn_catalog()[7][t] by {
            assert(x.subrange(w, w + n.len())[t] == n[t]);
        }
    }
}

/// What `cdn_from` finds from position `i`: `"Unknown"` with no entry
/// mentioned, or the first mentioned entry.
proof fn lemma_found_from(server: Seq<char>, via: Seq<char>, provider: Seq<char>, i: int)
    requires
        0 <= i <= cdn_catalog().len(),
    ensures
        (cdn_from(server, via, provider, i) == "Unknown"@ && forall|j: int|
            i <= j < cdn_catalog().len() ==> !mentions(server, via, provider, #[trigger] cdn_catalog()[j]))
            || exists|m: int|
            i <= m < cdn_catalog().len() && cdn_from(server, via, provider, i) == cdn_catalog()[m]
                && mentions(server, via, provider, #[trigger] cdn_catalog()[m]) && forall|j: int|
                i <= j < m ==> !mentions(server, via, provider, #[trigger] cdn_catalog()[j]),
    decreases cdn_catalog().len() - i,
{
    if i < cdn_catalog().len() {
        lemma_found_from(server, via, provider, i + 1);
        if mentions(server, via, provider, cdn_catalog()[i]) {
            assert(cdn_from(server, via, provider, i) == cdn_catalog()[i]);
        }
    }
}

/// `k`, given as the `Server` value with the other two headers empty,
/// mentions none of the catalog entries that no search finds in it.
proof fn lemma_alone_mentions_none(k: Seq<char>, i: int)
    requires
        0 <= i <= cdn_catalog().len(),
        forall|j: int| 0 <= j < i ==> !occurs_from(k, #[trigger] cdn_catalog()[j], 0),
    ensures
        forall|j: int| 0 <= j < i ==> !mentions(k, ""@, ""@, #[trigger] cdn_catalog()[j]),
{
    assert forall|j: int| 0 <= j < i implies !mentions(k, ""@, ""@, #[trigger] cdn_catalog()[j]) by {
        let c = cdn_catalog()[j];
        if has_substring(k, c) {
            lemma_search_complete(k, c);
        }
        if has_substring(""@, c) {
            reveal_strlit("");
            let w = choose|w: int|
                0 <= w && w + c.len() <= ""@.len() && #[trigger] ""@.subrange(w, w + c.len()) == c;
            assert(k.subrange(0int, 0int + c.len()) =~= c);
            lemma_search_complete(k, c);
        }
    }
}

/// Detection is stable: the identifier it returns, fed back as the `Server`
/// value with the other two headers empty, is detected again.
pub proof fn lemma_redetection_is_stable(server: Seq<char>, via: Seq<char>, provider: Seq<char>)
    ensures
        detected_cdn(detected_cdn(server, via, provider), ""@, ""@) == detected_cdn(
            server,
            via,
            provider,
        ),
{
    let k = detected_cdn(server, via, provider);
    lemma_found_from(server, via, provider, 0);
    if exists|m: int|
        0 <= m < cdn_catalog().len() && k == cdn_catalog()[m] && mentions(
            server,
            via,
            provider,
            #[trigger] cdn_catalog()[m],
        ) && forall|j: int| 0 <= j < m ==> !mentions(server, via, provider, #[trigger] cdn_catalog()[j]) {
        let m = choose|m: int|
            0 <= m < cdn_catalog().len() && k == cdn_catalog()[m] && mentions(
                server,
                via,
                provider,
                #[trigger] cdn_catalog()[m],
            ) && forall|j: int| 0 <= j < m ==> !mentions(server, via, provider, #[trigger] cdn_catalog()[j]);
        if m == 22 {
            if has_substring(server, cdn_catalog()[22]) {
                lemma_last_entry_mentions_stackpath(server);
            }
            if has_substring(via, cdn_catalog()[22]) {
                lemma_last_entry_mentions_stackpath(via);
            }
            if has_substring(provider, cdn_catalog()[22]) {
                lemma_last_entry_mentions_stackpath(provider);
            }
            assert(!mentions(server, via, provider, cdn_catalog()[7]));
        } else {
            lemma_no_earlier_entry_inside(m);
            lemma_none_before_each(k, m);
            lemma_alone_mentions_none(k, m);
            assert(k.subrange(0int, 0int + cdn_catalog()[m].len()) =~= cdn_catalog()[m]);
            lemma_earliest_catalog_entry_wins(k, ""@, ""@, m);
        }
    } else {
        lemma_no_entry_in_unknown();
        lemma_none_before_each("Unknown"@, 23);
        lemma_alone_mentions_none("Unknown"@, 23);
        lemma_no_keyword_gives_unknown("Unknown"@, ""@, ""@);
    }
}

/// Detects the CDN from the three header values, already lowercased.
pub fn detect_cdn_lowered(server_lower: &str, via_lower: &str, provider_lower: &str) -> (r: String)
    ensures
        r@ == detected_cdn(server_lower@, via_lower@, provider_lower@),
{
    let known_cdns: Vec<&str> = vec![
        "cloudflare",
        "fastly",
        "akamai",
        "cloudfront",
        "gcore",
        "bunnycdn",
        "cdn77",
        "stackpath",
        "edgecast",
        "limelight",
        "quic.cloud",
        "github",
        "imperva",
        "sucuri",
        "cachefly",
        "jsdelivr",
        "bootstrapcdn",
        "keycdn",
        "maxcdn",
        "belugacdn",
        "arvancloud",
        "google",
        "stackpathdns",
    ];
    assert forall|j: int| 0 <= j < cdn_catalog().len() implies #[trigger] cdn_catalog()[j]
        == known_cdns@[j]@ by {}
    let n = known_cdns.len();
    let mut i: usize = 0;
    while i < n
        invariant
            n == known_cdns@.len(),
            n == cdn_catalog().len(),
            0 <= i <= n,
            forall|j: int| 0 <= j < n ==> #[trigger] cdn_catalog()[j] == known_cdns@[j]@,
            detected_cdn(server_lower@, via_lower@, provider_lower@) == cdn_from(
                server_lower@,
                via_lower@,
                provider_lower@,
                i as int,
            ),
        decreases n - i,
    {
        let cdn = known_cdns[i];
        if contains(server_lower, cdn) || contains(via_lower, cdn) || contains(provider_lower, cdn) {
            return cdn.to_owned();
        }
        i = i + 1;
    }
    "Unknown".to_owned()
}

/// Detects the CDN in front of a response from its headers.
pub fn detect_cdn(headers: &HeaderSet) -> (r: String)
    ensures
        r@ == cdn_of_headers(headers@),
{
    let server_header = to_lower(headers.get_or("server", ""));
    let via_header = to_lower(headers.get_or("via", ""));
    let cdn_provider_header = to_lower(headers.get_or("x-cdn-provider", ""));
    detect_cdn_lowered(
        server_header.as_str(),
        via_header.as_str(),
        cdn_provider_header.as_str(),
    )
}

} // verus!
