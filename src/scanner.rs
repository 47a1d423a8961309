//! Aggregation of per-URL outcomes: every success kept in arrival order, every
//! failure counted, and a flag for any URL found uncached or inconsistent.

use vstd::prelude::*;
use crate::cache_checker::CacheResult;
use crate::error::ScanError;
use crate::validate_cache::CacheValidationResult;

verus! {

/// The success value of one URL's unit of work, tagged by mode.
pub enum UrlResult {
    Scan(CacheResult),
    Validation(CacheValidationResult),
}

/// All outcomes collected so far.
pub struct AggregateOutcome {
    /// Successes, in the order they arrived.
    pub results: Vec<UrlResult>,
    /// Number of URLs that failed.
    pub failures: usize,
    /// Some result was not cached, or not consistent.
    pub has_uncached: bool,
}

/// A result that shows a caching problem.
pub open spec fn shows_problem(r: UrlResult) -> bool {
    match r {
        UrlResult::Scan(c) => !c.is_cached,
        UrlResult::Validation(v) => !v.is_consistent,
    }
}

pub open spec fn success_of(o: Result<UrlResult, ScanError>) -> Option<UrlResult> {
    match o {
        Ok(r) => Some(r),
        Err(_) => None,
    }
}

pub open spec fn failure_of(o: Result<UrlResult, ScanError>) -> Option<ScanError> {
    match o {
        Ok(_) => None,
        Err(e) => Some(e),
    }
}

/// The successes among `outs`, in order.
pub open spec fn successes(outs: Seq<Result<UrlResult, ScanError>>) -> Seq<UrlResult> {
    outs.filter_map(|o: Result<UrlResult, ScanError>| success_of(o))
}

/// The number of failures among `outs`.
pub open spec fn failure_count(outs: Seq<Result<UrlResult, ScanError>>) -> nat {
    outs.filter_map(|o: Result<UrlResult, ScanError>| failure_of(o)).len()
}

/// The outcome at position `i` is a success that shows a caching problem.
pub open spec fn problem_at(outs: Seq<Result<UrlResult, ScanError>>, i: int) -> bool {
    match outs[i] {
        Ok(r) => shows_problem(r),
        Err(_) => false,
    }
}

/// Results, failure count and problem flag.
pub open spec fn empty_aggregate() -> (Seq<UrlResult>, nat, bool) {
    (Seq::empty(), 0, false)
}

/// The aggregate after one more outcome arrives.
pub open spec fn after_recording(
    a: (Seq<UrlResult>, nat, bool),
    o: Result<UrlResult, ScanError>,
) -> (Seq<UrlResult>, nat, bool) {
    match o {
        Ok(r) => (a.0.push(r), a.1, a.2 || shows_problem(r)),
        Err(_) => (a.0, a.1 + 1, a.2),
    }
}

/// The aggregate after the outcomes `outs` arrived, in that order.
pub open spec fn aggregate_of(outs: Seq<Result<UrlResult, ScanError>>) -> (Seq<UrlResult>, nat, bool)
    decreases outs.len(),
{
    if outs.len() == 0 {
        empty_aggregate()
    } else {
        after_recording(aggregate_of(outs.drop_last()), outs.last())
    }
}

/// Whatever the order of arrival, the aggregate keeps exactly the successes,
/// each once and in arrival order, counts exactly the failures, and raises its
/// flag exactly when some success shows a caching problem.
pub proof fn lemma_aggregate_keeps_every_outcome(outs: Seq<Result<UrlResult, ScanError>>)
    ensures
        aggregate_of(outs).0 == successes(outs),
        aggregate_of(outs).1 == failure_count(outs),
        successes(outs).len() + failure_count(outs) == outs.len(),
        aggregate_of(outs).2 == exists|i: int| 0 <= i < outs.len() && #[trigger] problem_at(outs, i),
    decreases outs.len(),
{
    if outs.len() > 0 {
        let rest = outs.drop_last();
        lemma_aggregate_keeps_every_outcome(rest);
        assert(successes(outs) == successes(rest) + match success_of(outs.last()) {
            Some(r) => seq![r],
            None => Seq::empty(),
        });
        if outs.last() is Ok {
            assert(aggregate_of(outs).0 =~= successes(outs));
        }
        assert forall|i: int| 0 <= i < rest.len() implies #[trigger] rest[i] == outs[i] by {}
        if aggregate_of(outs).2 {
            if aggregate_of(rest).2 {
                let i = choose|i: int| 0 <= i < rest.len() && #[trigger] problem_at(rest, i);
                assert(outs[i] == rest[i]);
                assert(problem_at(outs, i));
            } else {
                assert(problem_at(outs, outs.len() - 1));
            }
        } else {
            assert forall|i: int| 0 <= i < outs.len() implies !#[trigger] problem_at(outs, i) by {
                if i < rest.len() {
                    assert(outs[i] == rest[i]);
                    assert(!problem_at(rest, i));
                }
            }
        }
    }
}

impl View for AggregateOutcome {
    type V = (Seq<UrlResult>, nat, bool);

    open spec fn view(&self) -> (Seq<UrlResult>, nat, bool) {
        (self.results@, self.failures as nat, self.has_uncached)
    }
}

/// The result shows a caching problem: not cached, or not consistent.
pub fn is_problem(r: &UrlResult) -> (b: bool)
    ensures
        b == shows_problem(*r),
{
    match r {
        UrlResult::Scan(c) => !c.is_cached,
        UrlResult::Validation(v) => !v.is_consistent,
    }
}

impl AggregateOutcome {
    /// An aggregate with no outcome yet.
    pub fn new() -> (r: AggregateOutcome)
        ensures
            r@ == aggregate_of(Seq::empty()),
    {
        AggregateOutcome { results: Vec::new(), failures: 0, has_uncached: false }
    }

    /// Takes in the outcome of one URL: a success is kept, a failure counted.
    pub fn record(&mut self, outcome: Result<UrlResult, ScanError>)
        requires
            old(self).failures < usize::MAX,
        ensures
            final(self)@ == after_recording(old(self)@, outcome),
    {
        match outcome {
            Ok(r) => {
                let problem = is_problem(&r);
                self.results.push(r);
                self.has_uncached = self.has_uncached || problem;
            },
            Err(_) => {
                self.failures = self.failures + 1;
            },
        }
    }

    /// Some URL failed.
    pub fn has_errors(&self) -> (r: bool)
        ensures
            r == (self.failures > 0),
    {
        self.failures > 0
    }

    /// The run should end with a failing exit status: the caller asked for
    /// that, and some URL failed or showed a caching problem.
    pub fn should_fail(&self, exit_code_requested: bool) -> (r: bool)
        ensures
            r == (exit_code_requested && (self.failures > 0 || self.has_uncached)),
    {
        exit_code_requested && (self.failures > 0 || self.has_uncached)
    }
}

/// Collects the outcomes of a fixed number of dispatched units: collection is
/// done once every unit has reported, success or failure.
pub struct Collector {
    expected: usize,
    outcome: AggregateOutcome,
}

impl View for Collector {
    type V = (nat, (Seq<UrlResult>, nat, bool));

    /// The number of units dispatched, and the aggregate so far.
    closed spec fn view(&self) -> (nat, (Seq<UrlResult>, nat, bool)) {
        (self.expected as nat, self.outcome@)
    }
}

impl Collector {
    /// The number of outcomes taken in so far.
    pub open spec fn received(&self) -> nat {
        self@.1.0.len() + self@.1.1
    }

    /// No more outcomes taken in than units dispatched.
    pub open spec fn wf(&self) -> bool {
        self.received() <= self@.0
    }

    /// Collection for `expected` dispatched units, none reported yet.
    pub fn new(expected: usize) -> (r: Collector)
        ensures
            r.wf(),
            r@ == (expected as nat, aggregate_of(Seq::empty())),
    {
        Collector { expected, outcome: AggregateOutcome::new() }
    }

    /// Every dispatched unit has reported.
    pub fn is_done(&self) -> (r: bool)
        requires
            self.wf(),
        ensures
            r == (self.received() == self@.0),
    {
        self.outcome.results.len() == self.expected - self.outcome.failures
    }

    /// Takes in the outcome of one more unit.
    pub fn record(&mut self, outcome: Result<UrlResult, ScanError>)
        requires
            old(self).wf(),
            old(self).received() < old(self)@.0,
        ensures
            final(self).wf(),
            final(self)@.0 == old(self)@.0,
            final(self)@.1 == after_recording(old(self)@.1, outcome),
    {
        self.outcome.record(outcome);
    }

    /// The aggregate collected.
    pub fn into_outcome(self) -> (r: AggregateOutcome)
        ensures
            r@ == self@.1,
    {
        self.outcome
    }
}

} // verus!
