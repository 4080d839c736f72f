//! Running collections: on Postman's cloud runner, or locally, request by
//! request, keeping the tally of what passed and what failed.

use vstd::prelude::*;
use crate::models::collection::RunDetail;
use crate::text::{push_str, decimal, decimal_text, owned};
use crate::utils::errors::{ToolError, invalid_params};
use crate::utils::executor::SingleRunResult;

verus! {

/// `run_collection`.
#[derive(Debug, PartialEq)]
pub struct RunCollectionTool;

#[derive(Debug, PartialEq)]
pub struct RunCollectionInput {
    pub collection_id: String,
    pub environment_id: Option<String>,
}

#[derive(Debug, PartialEq)]
pub struct RunCollectionOutput {
    pub run_id: String,
    pub status: String,
    pub stats: String,
    pub failures: String,
}

impl RunCollectionTool {
    pub fn name() -> (r: &'static str)
        ensures
            r@ == "run_collection"@,
    {
        "run_collection"
    }

    pub fn description() -> (r: &'static str)
        ensures
            r@ == "Run a Postman collection using the Postman Cloud Runner. Optionally specify an environment UID. Returns run status, stats, and any failures. NOTE: requires Enterprise plan. For free accounts use run_collection_local instead."@,
    {
        "Run a Postman collection using the Postman Cloud Runner. Optionally specify an environment UID. Returns run status, stats, and any failures. NOTE: requires Enterprise plan. For free accounts use run_collection_local instead."
    }
}

/// How the failures of a cloud run are reported, given their pretty JSON.
pub open spec fn failures_text(run: RunDetail, failures_pretty: Seq<char>) -> Seq<char> {
    match run.failures {
        Some(f) => if f@.len() > 0 {
            decimal(f@.len()) + " failure(s):\n"@ + failures_pretty
        } else {
            "No failures"@
        },
        None => "No failures"@,
    }
}

/// The leading character of a number's decimal text is a digit.
proof fn lemma_decimal_starts_with_digit(n: nat)
    ensures
        decimal(n).len() > 0,
        '0' <= decimal(n)[0] <= '9',
    decreases n,
{
    if n >= 10 {
        lemma_decimal_starts_with_digit(n / 10);
        assert(decimal(n)[0] == decimal(n / 10)[0]);
    }
}

/// A cloud run that lists failures reports how many there are, then their
/// pretty JSON; a run that lists none (no list, or an empty one) reports
/// `No failures`; and a run with failures is never reported as having none.
pub proof fn law_failures_reported(run: RunDetail, failures_pretty: Seq<char>)
    ensures
        match run.failures {
            Some(f) => f@.len() > 0 ==> failures_text(run, failures_pretty)
                == decimal(f@.len()) + " failure(s):\n"@ + failures_pretty,
            None => true,
        },
        (failures_text(run, failures_pretty) == "No failures"@)
            <==> !(run.failures matches Some(f) && f@.len() > 0),
{
    reveal_strlit("No failures");
    match run.failures {
        Some(f) => if f@.len() > 0 {
            lemma_decimal_starts_with_digit(f@.len());
            let t = failures_text(run, failures_pretty);
            assert(t[0] == decimal(f@.len())[0]);
            assert("No failures"@[0] == 'N');
        },
        None => {},
    }
}

impl RunCollectionOutput {
    /// The summary of a cloud run: its id (`N/A` when absent), status
    /// (`unknown`), stats (their pretty JSON, `No stats available` when
    /// absent) and failures (their count and pretty JSON, `No failures` when
    /// there are none).
    pub fn from_run(run: &RunDetail, stats_pretty: &str, failures_pretty: &str) -> (out: RunCollectionOutput)
        ensures
            out.run_id@ == match run.id {
                Some(i) => i@,
                None => "N/A"@,
            },
            out.status@ == match run.status {
                Some(s) => s@,
                None => "unknown"@,
            },
            out.stats@ == match run.stats {
                Some(_) => stats_pretty@,
                None => "No stats available"@,
            },
            out.failures@ == failures_text(*run, failures_pretty@),
    {
        let failures = match &run.failures {
            Some(f) => if f.len() > 0 {
                let mut t = decimal_text(f.len() as u64);
                push_str(&mut t, " failure(s):\n");
                push_str(&mut t, failures_pretty);
                t
            } else {
                owned("No failures")
            },
            None => owned("No failures"),
        };
        let stats = match &run.stats {
            Some(_) => owned(stats_pretty),
            None => owned("No stats available"),
        };
        let run_id = match &run.id {
            Some(i) => i.clone(),
            None => owned("N/A"),
        };
        let status = match &run.status {
            Some(s) => s.clone(),
            None => owned("unknown"),
        };
        RunCollectionOutput { run_id, status, stats, failures }
    }
}

/// `run_collection_local`.
#[derive(Debug, PartialEq)]
pub struct RunCollectionLocalTool;

#[derive(Debug, PartialEq)]
pub struct RunCollectionLocalInput {
    /// The collection to download and run.
    pub collection_id: Option<String>,
    /// A collection exported as JSON, to run instead.
    pub collection_file: Option<String>,
    pub environment_id: Option<String>,
    /// Stop at the first request that does not pass; `false` when absent.
    pub stop_on_failure: Option<bool>,
    /// The body limit per request in characters; 2000 when absent, 0 for none.
    pub body_limit: Option<usize>,
}

/// The result of one request of a local run.
#[derive(Debug, PartialEq)]
pub struct RequestRunResult {
    pub name: String,
    pub method: String,
    pub url: String,
    pub status: u16,
    pub status_text: String,
    pub elapsed_ms: u128,
    pub passed: bool,
    pub response_body: String,
    pub body_truncated: bool,
    pub error: Option<String>,
}

/// The summary of a local run.
#[derive(Debug, PartialEq)]
pub struct RunCollectionLocalOutput {
    pub collection_name: String,
    /// How many requests ran.
    pub total: usize,
    /// How many answered 2xx without error.
    pub passed: usize,
    /// How many did not.
    pub failed: usize,
    pub total_elapsed_ms: u128,
    pub results: Vec<RequestRunResult>,
}

/// Where a local run takes its collection from.
#[derive(Debug, PartialEq)]
pub enum CollectionSource {
    /// Downloaded from the API by id.
    Api(String),
    /// Read from an exported JSON file.
    File(String),
}

impl RunCollectionLocalTool {
    pub fn name() -> (r: &'static str)
        ensures
            r@ == "run_collection_local"@,
    {
        "run_collection_local"
    }

    pub fn description() -> (r: &'static str)
        ensures
            r@ == "Execute all requests in a Postman collection LOCALLY (no Enterprise plan needed). Resolves {{variables}}, applies auth, and runs each request in sequence. Source: use 'collection_id' to download from Postman API, or 'collection_file' for a local exported .json file. Returns per-request status, body and timing."@,
    {
        "Execute all requests in a Postman collection LOCALLY (no Enterprise plan needed). Resolves {{variables}}, applies auth, and runs each request in sequence. Source: use 'collection_id' to download from Postman API, or 'collection_file' for a local exported .json file. Returns per-request status, body and timing."
    }

    /// The error for a collection file that cannot be read.
    pub fn unreadable_file(path: &str, cause: &str) -> (e: ToolError)
        ensures
            e matches ToolError::InvalidParams(m) && m@ == "Cannot read file '"@ + path@ + "': "@ + cause@,
    {
        let mut m = String::new();
        push_str(&mut m, "Cannot read file '");
        push_str(&mut m, path);
        push_str(&mut m, "': ");
        push_str(&mut m, cause);
        ToolError::InvalidParams(m)
    }

    /// The error for a collection file that is not a Postman collection.
    pub fn invalid_collection_file(path: &str, cause: &str) -> (e: ToolError)
        ensures
            e matches ToolError::InvalidParams(m) && m@ == "Invalid Postman collection JSON in '"@ + path@ + "': "@ + cause@,
    {
        let mut m = String::new();
        push_str(&mut m, "Invalid Postman collection JSON in '");
        push_str(&mut m, path);
        push_str(&mut m, "': ");
        push_str(&mut m, cause);
        ToolError::InvalidParams(m)
    }
}

impl RunCollectionLocalInput {
    /// The collection's source: the API id when given, else the file; one of
    /// the two is required.
    pub fn source(&self) -> (r: Result<CollectionSource, ToolError>)
        ensures
            match self.collection_id {
                Some(id) => r matches Ok(CollectionSource::Api(i)) && i == id,
                None => match self.collection_file {
                    Some(f) => r matches Ok(CollectionSource::File(p)) && p == f,
                    None => r matches Err(ToolError::InvalidParams(m))
                        && m@ == "Provide either 'collection_id' (Postman API) or 'collection_file' (local .json path)."@,
                },
            },
    {
        match &self.collection_id {
            Some(id) => Ok(CollectionSource::Api(id.clone())),
            None => match &self.collection_file {
                Some(f) => Ok(CollectionSource::File(f.clone())),
                None => Err(invalid_params("Provide either 'collection_id' (Postman API) or 'collection_file' (local .json path).")),
            },
        }
    }

    /// The body limit: 2000 characters unless given.
    pub fn max_body(&self) -> (n: usize)
        ensures
            n == match self.body_limit {
                Some(l) => l,
                None => 2000,
            },
    {
        match self.body_limit {
            Some(l) => l,
            None => 2000,
        }
    }

    /// Whether to stop at the first request that does not pass (`false` unless given).
    pub fn stops_on_failure(&self) -> (b: bool)
        ensures
            b == (self.stop_on_failure == Some(true)),
    {
        match self.stop_on_failure {
            Some(b) => b,
            None => false,
        }
    }
}

/// A request counts as passed when it answered 2xx without error.
pub open spec fn counts_as_passed(r: SingleRunResult) -> bool {
    r.passed && r.error is None
}

/// The tally of a local run in progress.
pub struct RunState {
    results: Vec<RequestRunResult>,
    passed: usize,
    failed: usize,
    total_elapsed: u128,
    stopped: bool,
}

impl RunState {
    #[verifier::type_invariant]
    closed spec fn tally_adds_up(&self) -> bool {
        self.passed + self.failed == self.results@.len()
    }

    /// The results so far, in order.
    pub closed spec fn results(&self) -> Seq<RequestRunResult> {
        self.results@
    }

    pub closed spec fn passed(&self) -> nat {
        self.passed as nat
    }

    pub closed spec fn failed(&self) -> nat {
        self.failed as nat
    }

    pub closed spec fn total_elapsed(&self) -> nat {
        self.total_elapsed as nat
    }

    /// Whether the run has stopped on a failure.
    pub closed spec fn stopped(&self) -> bool {
        self.stopped
    }

    /// A run that has not started.
    pub fn new() -> (s: RunState)
        ensures
            s.results() == Seq::<RequestRunResult>::empty(),
            s.passed() == 0,
            s.failed() == 0,
            s.total_elapsed() == 0,
            !s.stopped(),
    {
        RunState { results: Vec::new(), passed: 0, failed: 0, total_elapsed: 0, stopped: false }
    }

    /// The time spent so far, in milliseconds.
    pub fn total_elapsed_ms(&self) -> (t: u128)
        ensures
            t == self.total_elapsed(),
    {
        self.total_elapsed
    }

    /// Whether the run has stopped on a failure.
    pub fn is_stopped(&self) -> (b: bool)
        ensures
            b == self.stopped(),
    {
        self.stopped
    }

    /// Passed and failed always add up to the number of results.
    pub fn tally(&self) -> (t: (usize, usize, usize))
        ensures
            t.0 == self.results().len(),
            t.1 == self.passed(),
            t.2 == self.failed(),
            t.1 + t.2 == t.0,
    {
        proof {
            use_type_invariant(self);
        }
        (self.results.len(), self.passed, self.failed)
    }

    /// The index of the request to run next among `total` collected ones:
    /// the one after those already recorded, in order; none once all have
    /// run or the run has stopped.
    pub fn next_index(&self, total: usize) -> (r: Option<usize>)
        ensures
            r == if !self.stopped() && self.results().len() < total {
                Some(self.results().len() as usize)
            } else {
                None::<usize>
            },
    {
        let done = self.results.len();
        if !self.stopped && done < total {
            Some(done)
        } else {
            None
        }
    }

    /// Records the result of the next request: it joins the results, counts
    /// as passed or failed, adds its time; with `stop_on_failure`, a request
    /// that did not pass stops the run.
    pub fn record(&mut self, r: SingleRunResult, stop_on_failure: bool)
        requires
            !old(self).stopped(),
            old(self).total_elapsed() + r.elapsed_ms <= u128::MAX,
        ensures
            final(self).results().len() == old(self).results().len() + 1,
            final(self).results().drop_last() == old(self).results(),
            run_result_of(final(self).results().last(), r),
            final(self).passed() == old(self).passed() + if counts_as_passed(r) { 1nat } else { 0nat },
            final(self).failed() == old(self).failed() + if counts_as_passed(r) { 0nat } else { 1nat },
            final(self).total_elapsed() == old(self).total_elapsed() + r.elapsed_ms,
            final(self).stopped() == (stop_on_failure && !r.passed),
    {
        proof {
            use_type_invariant(&*self);
        }
        let counted = r.passed && r.error.is_none();
        let stop = stop_on_failure && !r.passed;
        let item = RequestRunResult {
            name: r.name,
            method: r.method,
            url: r.url,
            status: r.status,
            status_text: r.status_text,
            elapsed_ms: r.elapsed_ms,
            passed: r.passed,
            response_body: r.response_body,
            body_truncated: r.body_truncated,
            error: r.error,
        };
        let mut current = RunState::new();
        std::mem::swap(&mut current, self);
        proof {
            use_type_invariant(&current);
        }
        let RunState { results, passed, failed, total_elapsed, stopped: _ } = current;
        let mut results = results;
        let ghost before = results@;
        results.push(item);
        assert(results@.drop_last() =~= before);
        let count = results.len();
        assert(passed + failed + 1 == count);
        let total_elapsed = total_elapsed + r.elapsed_ms;
        if counted {
            *self = RunState { results, passed: passed + 1, failed, total_elapsed, stopped: stop };
        } else {
            *self = RunState { results, passed, failed: failed + 1, total_elapsed, stopped: stop };
        }
    }

    /// The summary of the run.
    pub fn into_output(self, collection_name: String) -> (out: RunCollectionLocalOutput)
        ensures
            out.collection_name == collection_name,
            out.total == self.results().len(),
            out.passed == self.passed(),
            out.failed == self.failed(),
            out.passed + out.failed == out.total,
            out.total_elapsed_ms == self.total_elapsed(),
            out.results@ == self.results(),
    {
        proof {
            use_type_invariant(&self);
        }
        let total = self.results.len();
        RunCollectionLocalOutput {
            collection_name,
            total,
            passed: self.passed,
            failed: self.failed,
            total_elapsed_ms: self.total_elapsed,
            results: self.results,
        }
    }
}

/// `item` reports `r`.
pub open spec fn run_result_of(item: RequestRunResult, r: SingleRunResult) -> bool {
    &&& item.name == r.name
    &&& item.method == r.method
    &&& item.url == r.url
    &&& item.status == r.status
    &&& item.status_text == r.status_text
    &&& item.elapsed_ms == r.elapsed_ms
    &&& item.passed == r.passed
    &&& item.response_body == r.response_body
    &&& item.body_truncated == r.body_truncated
    &&& item.error == r.error
}

} // verus!
