//! Why one URL produced no result.

use vstd::prelude::*;

verus! {

/// The failure of one URL's unit of work.
pub enum ScanError {
    /// The request could not be made or answered (DNS, connect, TLS, timeout,
    /// status or body read); the text says why.
    Request(String),
    /// The plain response carried no cache signal, so validation stopped
    /// before its second request.
    NoCachingDetected,
}

impl ScanError {
    /// A one-line description of the failure.
    pub fn message(&self) -> (r: String)
        ensures
            match self {
                ScanError::Request(reason) => r@ == reason@,
                ScanError::NoCachingDetected => r@ == "No caching detected"@,
            },
    {
        match self {
            ScanError::Request(reason) => reason.clone(),
            ScanError::NoCachingDetected => "No caching detected".to_owned(),
        }
    }
}

} // verus!
