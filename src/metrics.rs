//! Request and error tallies kept in an outside counter store. The library
//! decides what to count and how to read the tallies back; the store itself
//! is reached by the caller, and its failures never fail a scan.

use vstd::prelude::*;

verus! {

/// The tallies the store keeps.
pub enum Counter {
    Requests,
    Errors,
}

/// One increment to apply to the store, fire-and-forget.
pub struct CounterIncrement {
    pub counter: Counter,
    pub amount: u64,
}

/// The store key of a counter.
pub open spec fn key_of(c: Counter) -> Seq<char> {
    match c {
        Counter::Requests => "cache_sniper_requests"@,
        Counter::Errors => "cache_sniper_errors"@,
    }
}

impl Counter {
    /// The store key under which this tally lives.
    pub fn key(&self) -> (r: &'static str)
        ensures
            r@ == key_of(*self),
    {
        match self {
            Counter::Requests => "cache_sniper_requests",
            Counter::Errors => "cache_sniper_errors",
        }
    }
}

/// Counts one more request.
pub fn increment_requests() -> (r: CounterIncrement)
    ensures
        r.counter == Counter::Requests,
        r.amount == 1,
{
    CounterIncrement { counter: Counter::Requests, amount: 1 }
}

/// Counts one more error.
pub fn increment_errors() -> (r: CounterIncrement)
    ensures
        r.counter == Counter::Errors,
        r.amount == 1,
{
    CounterIncrement { counter: Counter::Errors, amount: 1 }
}

/// The tallies as served, given what could be read of each (`None` where the
/// store or the key could not be read): an unreadable tally counts as zero.
pub fn get_metrics(requests: Option<usize>, errors: Option<usize>) -> (r: (usize, usize))
    ensures
        r.0 == match requests {
            Some(n) => n,
            None => 0,
        },
        r.1 == match errors {
            Some(n) => n,
            None => 0,
        },
{
    let requests = match requests {
        Some(n) => n,
        None => 0,
    };
    let errors = match errors {
        Some(n) => n,
        None => 0,
    };
    (requests, errors)
}

} // verus!
