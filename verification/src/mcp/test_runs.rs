//! Running Unity tests through request and status files: the requests, the
//! file names, the decisions while waiting, and the filtering of results.
use vstd::prelude::*;

use crate::grpc::ids::{is_hyphenated_uuid, new_uuid_hyphenated};
use crate::text::{concat2, concat3, decimal, str_eq, string_from_range, chars_of, u64_to_decimal, usize_to_decimal};

verus! {

/// A request to run tests.
#[derive(Debug, Clone)]
pub struct UnityRunTestsRequest {
    /// "edit" or "play".
    pub mode: String,
    pub test_filter: Option<String>,
    pub categories: Option<Vec<String>>,
    pub timeout_sec: u32,
    pub max_items: u32,
    pub include_passed: bool,
}

/// A request for the results of a run.
#[derive(Debug, Clone)]
pub struct UnityGetTestResultsRequest {
    /// The run, or the latest when none is given.
    pub run_id: Option<String>,
    pub max_items: u32,
    pub include_passed: bool,
}

/// The default mode: edit mode.
pub fn default_mode() -> (r: String)
    ensures
        r@ == "edit"@,
{
    String::from_str("edit")
}

/// The default timeout: 180 seconds.
pub fn default_timeout_sec() -> (r: u32)
    ensures
        r == 180,
{
    180
}

/// The default number of results returned: 2000.
pub fn default_max_items() -> (r: u32)
    ensures
        r == 2000,
{
    2000
}

/// Passed tests are included by default.
pub fn default_include_passed() -> (r: bool)
    ensures
        r,
{
    true
}

/// The request file the bridge picks up.
#[derive(Debug, Clone)]
pub struct TestRequest {
    pub run_id: String,
    pub mode: String,
    pub test_filter: String,
    pub categories: Vec<String>,
    pub timeout_sec: u32,
    pub max_items: u32,
    pub include_passed: bool,
}

/// The request for a run: a missing filter is empty, missing categories
/// are none.
pub fn test_request_for(
    run_id: String,
    mode: String,
    test_filter: Option<String>,
    categories: Option<Vec<String>>,
    timeout_sec: u32,
    max_items: u32,
    include_passed: bool,
) -> (r: TestRequest)
    ensures
        r.run_id == run_id,
        r.mode == mode,
        r.test_filter@ == (match test_filter {
            Some(f) => f@,
            None => Seq::<char>::empty(),
        }),
        r.categories@ == (match categories {
            Some(c) => c@,
            None => Seq::<String>::empty(),
        }),
        r.timeout_sec == timeout_sec,
        r.max_items == max_items,
        r.include_passed == include_passed,
{
    TestRequest {
        run_id,
        mode,
        test_filter: match test_filter {
            Some(f) => f,
            None => String::new(),
        },
        categories: match categories {
            Some(c) => c,
            None => Vec::new(),
        },
        timeout_sec,
        max_items,
        include_passed,
    }
}

/// The status file the bridge writes.
#[derive(Debug, Clone)]
pub struct StatusFile {
    pub status: String,
    pub run_id: String,
    pub timestamp: String,
}

/// Calls `chrono::Utc::now` and formats it as `%Y-%m-%dT%H:%M:%SZ`. The
/// time is the machine's; only the form is stated: at least twenty
/// characters (four or more for the year, sixteen for the rest), ending
/// in `Z`.
#[verifier::external_body]
pub fn utc_timestamp() -> (r: String)
    ensures
        r@.len() >= 20,
        r@.last() == 'Z',
{
    chrono::Utc::now().format("%Y-%m-%dT%H:%M:%SZ").to_string()
}

/// A run id: the time stamp, a hyphen, and the first eight characters of
/// the UUID.
pub open spec fn run_id_text(timestamp: Seq<char>, uuid: Seq<char>) -> Seq<char> {
    timestamp + "-"@ + uuid.take(8)
}

/// The run id of `run_id_text`.
pub fn run_id_from(timestamp: &str, uuid: &str) -> (r: String)
    requires
        uuid@.len() >= 8,
    ensures
        r@ == run_id_text(timestamp@, uuid@),
{
    let u = chars_of(uuid);
    let short = string_from_range(&u, 0, 8);
    concat3(timestamp, "-", short.as_str())
}

/// A fresh run id: the current time and eight hex digits of a random UUID.
pub fn generate_run_id() -> (r: String)
    ensures
        exists|ts: Seq<char>, u: Seq<char>| #![trigger run_id_text(ts, u)]
            ts.len() >= 20 && is_hyphenated_uuid(u) && r@ == run_id_text(ts, u),
{
    let ts = utc_timestamp();
    let u = new_uuid_hyphenated();
    let r = run_id_from(ts.as_str(), u.as_str());
    assert(ts@.len() >= 20 && is_hyphenated_uuid(u@) && r@ == run_id_text(ts@, u@));
    r
}

/// The name of the request file of a run.
pub fn request_file_name(run_id: &str) -> (r: String)
    ensures
        r@ == "runTests-"@ + run_id@ + ".json"@,
{
    concat3("runTests-", run_id, ".json")
}

/// The name of the results file: that of the run, else the latest.
pub fn results_file_name(run_id: &Option<String>) -> (r: String)
    ensures
        r@ == (match run_id {
            Some(id) => "run-"@ + id@ + ".json"@,
            None => "latest.json"@,
        }),
{
    match run_id {
        Some(id) => concat3("run-", id.as_str(), ".json"),
        None => String::from_str("latest.json"),
    }
}

/// The name of the status file of a run.
pub fn run_status_file_name(run_id: &str) -> (r: String)
    ensures
        r@ == "status-"@ + run_id@ + ".json"@,
{
    concat3("status-", run_id, ".json")
}

/// What to do while waiting for a run.
#[derive(Debug, Clone, Copy, PartialEq, Eq, Structural)]
pub enum CompletionStep {
    /// The time is up.
    TimedOut,
    /// The run finished: read the latest results.
    ReadResults,
    /// Poll again after a while.
    Wait,
}

/// Whether a status file says that `run_id` finished.
pub open spec fn finished_run(status: Option<StatusFile>, run_id: Seq<char>) -> bool {
    status matches Some(s) && s.status@ == "finished"@ && s.run_id@ == run_id
}

/// The step after `elapsed` nanoseconds of waiting for `run_id` with a
/// timeout of `timeout_sec` seconds, given the status files that could be
/// read: the run's own, else the shared one.
pub open spec fn completion(elapsed: u64, timeout_sec: u32, per_run: Option<StatusFile>, shared: Option<StatusFile>, run_id: Seq<char>) -> CompletionStep {
    if elapsed > timeout_sec * 1_000_000_000 {
        CompletionStep::TimedOut
    } else if finished_run(per_run, run_id) || finished_run(shared, run_id) {
        CompletionStep::ReadResults
    } else {
        CompletionStep::Wait
    }
}

fn is_finished(status: &Option<StatusFile>, run_id: &str) -> (r: bool)
    ensures
        r == finished_run(*status, run_id@),
{
    match status {
        Some(s) => {
            proof {
                reveal_strlit("finished");
            }
            str_eq(s.status.as_str(), "finished") && str_eq(s.run_id.as_str(), run_id)
        },
        None => false,
    }
}

/// Decides the next step of waiting for a run, as `completion` says.
pub fn completion_step(
    elapsed_nanos: u64,
    timeout_sec: u32,
    per_run: &Option<StatusFile>,
    shared: &Option<StatusFile>,
    run_id: &str,
) -> (r: CompletionStep)
    ensures
        r == completion(elapsed_nanos, timeout_sec, *per_run, *shared, run_id@),
{
    let limit: u64 = timeout_sec as u64 * 1_000_000_000;
    if elapsed_nanos > limit {
        CompletionStep::TimedOut
    } else if is_finished(per_run, run_id) || is_finished(shared, run_id) {
        CompletionStep::ReadResults
    } else {
        CompletionStep::Wait
    }
}

/// The error of a run that timed out.
pub fn timed_out_message(timeout_sec: u32) -> (r: String)
    ensures
        r@ == "Test execution timed out after "@ + decimal(timeout_sec as nat) + " seconds"@,
{
    let n = u64_to_decimal(timeout_sec as u64);
    concat3("Test execution timed out after ", n.as_str(), " seconds")
}

/// The largest results file read, in bytes (2 MiB).
pub const MAX_RESULTS_FILE_SIZE: usize = 2097152;

/// Refuses a results file of more than `MAX_RESULTS_FILE_SIZE` bytes.
pub fn results_size_check(len: usize) -> (r: Result<(), String>)
    ensures
        len <= MAX_RESULTS_FILE_SIZE ==> r is Ok,
        len > MAX_RESULTS_FILE_SIZE ==> (r matches Err(m)
            && m@ == "Test results file too large ("@ + decimal(len as nat) + " bytes). Use filters to reduce the result set."@),
{
    if len > MAX_RESULTS_FILE_SIZE {
        let n = usize_to_decimal(len);
        Err(concat3("Test results file too large (", n.as_str(), " bytes). Use filters to reduce the result set."))
    } else {
        Ok(())
    }
}

/// Whether `path`, as its components, lies under `base`: `base` is a prefix
/// of it, component by component.
pub open spec fn path_within(path: Seq<Seq<char>>, base: Seq<Seq<char>>) -> bool {
    base.len() <= path.len() && forall|i: int| 0 <= i < base.len() ==> path[i] == base[i]
}

/// Whether `path` lies under `base`, as `path_within` says.
pub fn path_is_within(path: &Vec<String>, base: &Vec<String>) -> (r: bool)
    ensures
        r == path_within(path@.map_values(|s: String| s@), base@.map_values(|s: String| s@)),
{
    if base.len() > path.len() {
        return false;
    }
    let mut i: usize = 0;
    while i < base.len()
        invariant
            base@.len() <= path@.len(),
            i <= base@.len(),
            forall|j: int| 0 <= j < i ==> path@[j]@ == base@[j]@,
        decreases base.len() - i,
    {
        if !str_eq(path[i].as_str(), base[i].as_str()) {
            assert(path@.map_values(|s: String| s@)[i as int] != base@.map_values(|s: String| s@)[i as int]);
            return false;
        }
        i = i + 1;
    }
    true
}

/// Whether a test with `status` is kept.
pub open spec fn kept_test(status: Seq<char>, include_passed: bool) -> bool {
    include_passed || status != "passed"@
}

/// The indices of the tests kept, in order.
pub open spec fn kept_indices(statuses: Seq<Seq<char>>, include_passed: bool) -> Seq<int>
    decreases statuses.len(),
{
    if statuses.len() == 0 {
        Seq::empty()
    } else {
        let rest = kept_indices(statuses.drop_last(), include_passed);
        if kept_test(statuses.last(), include_passed) {
            rest.push(statuses.len() - 1)
        } else {
            rest
        }
    }
}

/// `s` cut to at most `n` items.
pub open spec fn at_most<A>(s: Seq<A>, n: nat) -> Seq<A> {
    if s.len() <= n { s } else { s.take(n as int) }
}

/// The tests returned, by their index among `statuses`: those kept (passed
/// ones only when `include_passed`), in order, at most `max_items` of them.
pub fn apply_test_filters(statuses: &Vec<String>, max_items: u32, include_passed: bool) -> (r: Vec<usize>)
    ensures
        r@.map_values(|i: usize| i as int) == at_most(kept_indices(statuses@.map_values(|s: String| s@), include_passed), max_items as nat),
        r@.len() <= max_items,
        forall|a: int| 0 <= a < r@.len() ==> (#[trigger] r@[a]) < statuses@.len()
            && (include_passed || statuses@[r@[a] as int]@ != "passed"@),
{
    let ghost sv = statuses@.map_values(|s: String| s@);
    let mut r: Vec<usize> = Vec::new();
    let mut i: usize = 0;
    while i < statuses.len()
        invariant
            i <= statuses@.len(),
            sv == statuses@.map_values(|s: String| s@),
            r@.map_values(|k: usize| k as int) == kept_indices(sv.take(i as int), include_passed),
        decreases statuses.len() - i,
    {
        let ghost before = r@;
        assert(sv.take(i + 1).drop_last() == sv.take(i as int));
        assert(sv.take(i + 1).last() == statuses@[i as int]@);
        proof {
            reveal_strlit("passed");
        }
        if include_passed || !str_eq(statuses[i].as_str(), "passed") {
            r.push(i);
            assert(r@.map_values(|k: usize| k as int) =~= before.map_values(|k: usize| k as int).push(i as int));
        }
        i = i + 1;
    }
    assert(sv.take(statuses@.len() as int) == sv);
    if r.len() > max_items as usize {
        let ghost full = r@;
        r.truncate(max_items as usize);
        assert(r@.map_values(|k: usize| k as int) =~= full.map_values(|k: usize| k as int).take(max_items as int));
    }
    proof {
        law_test_filters(sv, max_items as nat, include_passed);
        assert forall|a: int| 0 <= a < r@.len() implies (#[trigger] r@[a]) < statuses@.len()
            && (include_passed || statuses@[r@[a] as int]@ != "passed"@) by {
            assert(r@.map_values(|k: usize| k as int)[a] == r@[a] as int);
            assert(sv[r@[a] as int] == statuses@[r@[a] as int]@);
        }
    }
    r
}

/// A response is truncated when fewer tests come back than the results
/// held, or the results were truncated already.
pub fn response_truncated(returned: usize, total: usize, results_truncated: bool) -> (r: bool)
    ensures
        r == (returned < total || results_truncated),
{
    returned < total || results_truncated
}

/// The text answered when the request file cannot be written.
pub fn write_failure_text(error: &str) -> (r: String)
    ensures
        r@ == "Failed to write test request. Please ensure Unity Editor is running and MCP Bridge is installed.\n\nError: "@ + error@,
{
    concat2("Failed to write test request. Please ensure Unity Editor is running and MCP Bridge is installed.\n\nError: ", error)
}

/// The text answered when a run fails or times out.
pub fn run_failure_text(timeout_sec: u32, error: &str) -> (r: String)
    ensures
        r@ == "Test run failed or timed out after "@ + decimal(timeout_sec as nat)
            + "s. Please ensure Unity Editor is running and not busy.\n\nError: "@ + error@,
{
    let n = u64_to_decimal(timeout_sec as u64);
    let head = concat3("Test run failed or timed out after ", n.as_str(), "s. Please ensure Unity Editor is running and not busy.\n\nError: ");
    concat2(head.as_str(), error)
}

/// The text answered when no results can be read.
pub fn results_unavailable_text(error: &str) -> (r: String)
    ensures
        r@ == "Unity test results not available. Please run tests first using unity_run_tests.\n\nError: "@ + error@,
{
    concat2("Unity test results not available. Please run tests first using unity_run_tests.\n\nError: ", error)
}

proof fn lemma_kept_order(statuses: Seq<Seq<char>>, include_passed: bool)
    ensures
        forall|a: int, b: int| 0 <= a < b < kept_indices(statuses, include_passed).len()
            ==> #[trigger] kept_indices(statuses, include_passed)[a] < #[trigger] kept_indices(statuses, include_passed)[b],
        forall|a: int| 0 <= a < kept_indices(statuses, include_passed).len()
            ==> 0 <= #[trigger] kept_indices(statuses, include_passed)[a] < statuses.len(),
    decreases statuses.len(),
{
    if statuses.len() > 0 {
        let front = statuses.drop_last();
        lemma_kept_order(front, include_passed);
        let rest = kept_indices(front, include_passed);
        let n = statuses.len() - 1;
        let k = kept_indices(statuses, include_passed);
        if kept_test(statuses.last(), include_passed) {
            assert(k == rest.push(n));
        } else {
            assert(k == rest);
        }
        assert forall|a: int| 0 <= a < k.len() implies 0 <= #[trigger] k[a] < statuses.len() by {
            if a < rest.len() {
                assert(k[a] == rest[a]);
            }
        }
        assert forall|a: int, b: int| 0 <= a < b < k.len() implies #[trigger] k[a] < #[trigger] k[b] by {
            assert(k[a] == rest[a]);
            if b < rest.len() {
                assert(k[b] == rest[b]);
            }
        }
    }
}

proof fn lemma_kept_at(statuses: Seq<Seq<char>>, include_passed: bool, j: int)
    requires
        0 <= j < statuses.len(),
    ensures
        kept_indices(statuses, include_passed).contains(j) <==> (include_passed || statuses[j] != "passed"@),
    decreases statuses.len(),
{
    let front = statuses.drop_last();
    let rest = kept_indices(front, include_passed);
    let n = statuses.len() - 1;
    let k = kept_indices(statuses, include_passed);
    lemma_kept_order(front, include_passed);
    if kept_test(statuses.last(), include_passed) {
        assert(k == rest.push(n));
    } else {
        assert(k == rest);
    }
    if j < n {
        lemma_kept_at(front, include_passed, j);
        assert(front[j] == statuses[j]);
        if kept_test(statuses.last(), include_passed) {
            if rest.contains(j) {
                let a = choose|a: int| 0 <= a < rest.len() && rest[a] == j;
                assert(k[a] == j);
            }
            if k.contains(j) {
                let a = choose|a: int| 0 <= a < k.len() && k[a] == j;
                if a == rest.len() {
                    assert(k[a] == n);
                }
                assert(rest[a] == j);
            }
        }
    } else {
        assert(statuses[j] == statuses.last());
        if kept_test(statuses.last(), include_passed) {
            assert(k[rest.len() as int] == n);
        } else {
            if rest.contains(n) {
                let a = choose|a: int| 0 <= a < rest.len() && rest[a] == n;
                assert(rest[a] < front.len());
            }
        }
    }
}

/// The tests returned are those given, in order, each at most once; with
/// `include_passed` off a test is left out exactly when its status is
/// "passed" (so failed and skipped ones stay), and with it on none is; at
/// most `max_items` come back, and all that qualify when no more do.
pub proof fn law_test_filters(statuses: Seq<Seq<char>>, max_items: nat, include_passed: bool)
    ensures
        ({
            let k = kept_indices(statuses, include_passed);
            let out = at_most(k, max_items);
            &&& out.len() <= max_items
            &&& forall|a: int, b: int| 0 <= a < b < out.len() ==> #[trigger] out[a] < #[trigger] out[b]
            &&& forall|a: int| 0 <= a < out.len() ==> 0 <= #[trigger] out[a] < statuses.len()
                && (include_passed || statuses[out[a]] != "passed"@)
            &&& k.len() <= max_items ==> forall|j: int| 0 <= j < statuses.len()
                && (include_passed || #[trigger] statuses[j] != "passed"@) ==> out.contains(j)
        }),
{
    lemma_kept_order(statuses, include_passed);
    let k = kept_indices(statuses, include_passed);
    let out = at_most(k, max_items);
    assert forall|j: int| 0 <= j < statuses.len() && (include_passed || #[trigger] statuses[j] != "passed"@)
        implies k.contains(j) by {
        lemma_kept_at(statuses, include_passed, j);
    }
    assert forall|a: int| 0 <= a < out.len() implies 0 <= #[trigger] out[a] < statuses.len()
        && (include_passed || statuses[out[a]] != "passed"@) by {
        assert(out[a] == k[a]);
        assert(k.contains(k[a]));
        lemma_kept_at(statuses, include_passed, k[a]);
    }
    assert forall|a: int, b: int| 0 <= a < b < out.len() implies #[trigger] out[a] < #[trigger] out[b] by {
        assert(out[a] == k[a] && out[b] == k[b]);
    }
}

} // verus!
