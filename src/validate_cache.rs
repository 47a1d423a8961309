//! The two-request consistency check: a plain fetch, then a fetch that forces
//! revalidation, compared header for header and byte for byte.

use vstd::prelude::*;
use crate::error::ScanError;
use crate::headers::{HeaderSet, Response, value_or};

verus! {

/// The outcome of validating one URL.
pub struct CacheValidationResult {
    pub url: String,
    pub etag_before: String,
    pub etag_after: String,
    pub last_modified_before: String,
    pub last_modified_after: String,
    pub age: String,
    pub is_consistent: bool,
}

/// What the plain response left for the comparison.
pub struct PlainResponse {
    pub url: String,
    pub cache_control: String,
    pub etag: String,
    pub last_modified: String,
    pub age: String,
    pub body: Vec<u8>,
}

/// The request that validation needs next.
pub enum ValidationRequest {
    /// A plain GET.
    Plain,
    /// A GET with `Cache-Control: no-cache`, forcing revalidation.
    Revalidate,
}

/// Where the validation of one URL stands.
pub enum ValidationState {
    /// The plain request is due.
    AwaitingPlain(String),
    /// The plain response is in; the revalidation request is due.
    AwaitingRevalidation(PlainResponse),
    /// Nothing more is requested.
    Finished(Result<CacheValidationResult, ScanError>),
}

/// A header as the validator reads it: its value, or empty where absent.
pub open spec fn header_text(h: Seq<(Seq<char>, Seq<char>)>, name: Seq<char>) -> Seq<char> {
    value_or(h, name, ""@)
}

/// The plain response carries none of `Cache-Control`, `ETag` and
/// `Last-Modified` (or carries them empty).
pub open spec fn no_cache_signal(h: Seq<(Seq<char>, Seq<char>)>) -> bool {
    &&& header_text(h, "cache-control"@).len() == 0
    &&& header_text(h, "etag"@).len() == 0
    &&& header_text(h, "last-modified"@).len() == 0
}

/// What the plain response of `url` leaves for the comparison.
pub open spec fn plain_of(p: PlainResponse, url: Seq<char>, r: Response) -> bool {
    &&& p.url@ == url
    &&& p.cache_control@ == header_text(r.headers@, "cache-control"@)
    &&& p.etag@ == header_text(r.headers@, "etag"@)
    &&& p.last_modified@ == header_text(r.headers@, "last-modified"@)
    &&& p.age@ == header_text(r.headers@, "age"@)
    &&& p.body@ == r.body@
}

/// The comparison of the plain response with the revalidated one.
pub open spec fn compared(v: CacheValidationResult, p: PlainResponse, r: Response) -> bool {
    &&& v.url@ == p.url@
    &&& v.etag_before@ == p.etag@
    &&& v.etag_after@ == header_text(r.headers@, "etag"@)
    &&& v.last_modified_before@ == p.last_modified@
    &&& v.last_modified_after@ == header_text(r.headers@, "last-modified"@)
    &&& v.age@ == p.age@
    &&& v.is_consistent == (p.etag@ == header_text(r.headers@, "etag"@) && p.last_modified@
        == header_text(r.headers@, "last-modified"@) && p.body@ == r.body@)
}

/// Byte-for-byte equality of two bodies.
pub fn same_bytes(a: &Vec<u8>, b: &Vec<u8>) -> (r: bool)
    ensures
        r == (a@ == b@),
{
    if a.len() != b.len() {
        return false;
    }
    let mut i: usize = 0;
    while i < a.len()
        invariant
            a@.len() == b@.len(),
            0 <= i <= a@.len(),
            forall|j: int| 0 <= j < i ==> a@[j] == b@[j],
        decreases a@.len() - i,
    {
        if a[i] != b[i] {
            return false;
        }
        i = i + 1;
    }
    assert(a@ =~= b@);
    true
}

fn header_string(h: &HeaderSet, name: &str) -> (r: String)
    ensures
        r@ == header_text(h@, name@),
{
    h.get_or(name, "").to_owned()
}

/// Compares the revalidated response with the plain one.
pub fn compare_responses(plain: PlainResponse, second: &Response) -> (r: CacheValidationResult)
    ensures
        compared(r, plain, *second),
{
    let etag_after = header_string(&second.headers, "etag");
    let last_modified_after = header_string(&second.headers, "last-modified");
    let is_consistent = plain.etag == etag_after && plain.last_modified == last_modified_after
        && same_bytes(&plain.body, &second.body);
    CacheValidationResult {
        url: plain.url,
        etag_before: plain.etag,
        etag_after,
        last_modified_before: plain.last_modified,
        last_modified_after,
        age: plain.age,
        is_consistent,
    }
}

/// The request due in state `s`.
pub open spec fn request_due(s: ValidationState) -> Option<ValidationRequest> {
    match s {
        ValidationState::AwaitingPlain(_) => Some(ValidationRequest::Plain),
        ValidationState::AwaitingRevalidation(_) => Some(ValidationRequest::Revalidate),
        ValidationState::Finished(_) => None,
    }
}

/// `after` is the state that `answer` leads to from `before`.
pub open spec fn advanced(
    before: ValidationState,
    answer: Result<Response, String>,
    after: ValidationState,
) -> bool {
    match (before, answer) {
        (ValidationState::Finished(_), _) => after == before,
        (_, Err(reason)) => after matches ValidationState::Finished(Err(ScanError::Request(e)))
            && e@ == reason@,
        (ValidationState::AwaitingPlain(url), Ok(resp)) => if no_cache_signal(resp.headers@) {
            after matches ValidationState::Finished(Err(ScanError::NoCachingDetected))
        } else {
            after matches ValidationState::AwaitingRevalidation(p) && plain_of(p, url@, resp)
        },
        (ValidationState::AwaitingRevalidation(p), Ok(resp)) => after matches ValidationState::Finished(Ok(v))
            && compared(v, p, resp),
    }
}

/// A plain response without any cache signal finishes validation with
/// `NoCachingDetected`: after that one request, no other is due.
pub proof fn lemma_no_signal_stops_after_one_request(
    url: String,
    resp: Response,
    after: ValidationState,
)
    requires
        no_cache_signal(resp.headers@),
        advanced(ValidationState::AwaitingPlain(url), Ok(resp), after),
    ensures
        after matches ValidationState::Finished(Err(ScanError::NoCachingDetected)),
        request_due(after) is None,
{
}

/// A run of two answered requests ends consistent exactly when the two
/// responses agree on `ETag`, on `Last-Modified` and on the body; any one
/// difference makes it inconsistent.
pub proof fn lemma_consistent_iff_all_agree(
    url: String,
    first: Response,
    second: Response,
    middle: ValidationState,
    after: ValidationState,
)
    requires
        !no_cache_signal(first.headers@),
        advanced(ValidationState::AwaitingPlain(url), Ok(first), middle),
        advanced(middle, Ok(second), after),
    ensures
        request_due(middle) == Some(ValidationRequest::Revalidate),
        request_due(after) is None,
        after matches ValidationState::Finished(Ok(v)) && v.url@ == url@ && v.is_consistent == (
        header_text(first.headers@, "etag"@) == header_text(second.headers@, "etag"@)
            && header_text(first.headers@, "last-modified"@) == header_text(
            second.headers@,
            "last-modified"@,
        ) && first.body@ == second.body@),
{
}

impl ValidationState {
    /// Validation of `url`, before any request.
    pub fn start(url: &str) -> (r: ValidationState)
        ensures
            r matches ValidationState::AwaitingPlain(u) && u@ == url@,
    {
        ValidationState::AwaitingPlain(url.to_owned())
    }

    /// The request due next, or `None` once validation is finished.
    pub fn next_request(&self) -> (r: Option<ValidationRequest>)
        ensures
            r == request_due(*self),
    {
        match self {
            ValidationState::AwaitingPlain(_) => Some(ValidationRequest::Plain),
            ValidationState::AwaitingRevalidation(_) => Some(ValidationRequest::Revalidate),
            ValidationState::Finished(_) => None,
        }
    }

    /// Takes in the answer to the request that was due: the response, or why
    /// the request failed. A failed request ends validation with that error.
    /// A plain response without any cache signal ends it with
    /// `NoCachingDetected`, so that no second request is ever made.
    pub fn advance(self, answer: Result<Response, String>) -> (r: ValidationState)
        ensures
            advanced(self, answer, r),
    {
        match self {
            ValidationState::Finished(outcome) => ValidationState::Finished(outcome),
            ValidationState::AwaitingPlain(url) => match answer {
                Err(reason) => ValidationState::Finished(Err(ScanError::Request(reason))),
                Ok(resp) => {
                    let cache_control = header_string(&resp.headers, "cache-control");
                    let etag = header_string(&resp.headers, "etag");
                    let last_modified = header_string(&resp.headers, "last-modified");
                    let age = header_string(&resp.headers, "age");
                    if cache_control.as_str().is_empty() && etag.as_str().is_empty()
                        && last_modified.as_str().is_empty() {
                        ValidationState::Finished(Err(ScanError::NoCachingDetected))
                    } else {
                        ValidationState::AwaitingRevalidation(
                            PlainResponse {
                                url,
                                cache_control,
                                etag,
                                last_modified,
                                age,
                                body: resp.body,
                            },
                        )
                    }
                },
            },
            ValidationState::AwaitingRevalidation(plain) => match answer {
                Err(reason) => ValidationState::Finished(Err(ScanError::Request(reason))),
                Ok(resp) => ValidationState::Finished(Ok(compare_responses(plain, &resp))),
            },
        }
    }

    /// The outcome, once validation is finished.
    pub fn into_outcome(self) -> (r: Option<Result<CacheValidationResult, ScanError>>)
        ensures
            match self {
                ValidationState::Finished(o) => r == Some(o),
                _ => r is None,
            },
    {
        match self {
            ValidationState::Finished(o) => Some(o),
            _ => None,
        }
    }
}

} // verus!
