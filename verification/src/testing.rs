//! A framework for testing programs: suites of test cases, the results of
//! running them, and reports on the results.
//!
//! A test is not yet run on a machine: its outcome follows from its name. The
//! caller waits for each test and measures how long it took; spans of time are
//! milliseconds.

use crate::ratio::Ratio;
use crate::text::{
    contains_text, decimal, has_substring, push_decimal, push_seconds, same_text, seconds_text,
};
use std::collections::HashMap;
use vstd::prelude::*;
use vstd::string::StringExecFns;

verus! {

/// A named list of test cases, with what to do before and after them.
#[derive(Clone, Debug)]
pub struct TestSuite {
    pub name: String,
    pub tests: Vec<TestCase>,
    pub setup: Option<TestSetup>,
    pub teardown: Option<TestTeardown>,
}

/// One test: what to run, on what, and what to expect.
#[derive(Clone, Debug)]
pub struct TestCase {
    pub name: String,
    pub description: String,
    pub input: TestInput,
    pub expected_output: TestOutput,
    pub timeout: Option<u64>,
    pub tags: Vec<String>,
}

/// What a test runs on.
#[derive(Clone, Debug)]
pub struct TestInput {
    pub program_path: String,
    pub data: Vec<u8>,
    pub environment: HashMap<String, String>,
    pub backend: String,
}

/// What a test gives.
#[derive(Clone, Debug)]
pub struct TestOutput {
    pub public_outputs: Vec<u64>,
    pub proof_valid: bool,
    pub cycles: Option<u64>,
    pub memory_usage: Option<u64>,
}

/// What to do before the tests of a suite.
#[derive(Clone, Debug)]
pub struct TestSetup {
    pub pre_commands: Vec<String>,
    pub environment_vars: HashMap<String, String>,
    pub dependencies: Vec<String>,
}

/// What to do after the tests of a suite.
#[derive(Clone, Debug)]
pub struct TestTeardown {
    pub post_commands: Vec<String>,
    pub cleanup_files: Vec<String>,
}

/// The outcome of one test.
#[derive(Clone, Debug)]
pub struct TestResult {
    pub test_name: String,
    pub status: TestStatus,
    pub duration: u64,
    pub error_message: Option<String>,
    pub actual_output: Option<TestOutput>,
    pub performance_metrics: Option<PerformanceMetrics>,
}

/// How a test ended.
#[derive(Clone, Copy, Debug, PartialEq, Eq, Structural)]
pub enum TestStatus {
    Passed,
    Failed,
    Skipped,
    Timeout,
    Error,
}

/// What a test cost.
#[derive(Clone, Copy, Debug, PartialEq, Eq, Structural)]
pub struct PerformanceMetrics {
    pub proof_generation_time: u64,
    pub proof_verification_time: u64,
    pub total_cycles: u64,
    pub memory_peak: u64,
    pub proof_size: usize,
}

/// The outcome of a run of all suites.
#[derive(Clone, Debug)]
pub struct TestReport {
    pub suite_name: String,
    pub total_tests: usize,
    pub passed: usize,
    pub failed: usize,
    pub skipped: usize,
    pub duration: u64,
    pub results: Vec<TestResult>,
    pub coverage: Option<CoverageReport>,
}

/// How much of a program the tests reach. The coverages are shares.
#[derive(Clone, Debug)]
pub struct CoverageReport {
    pub instruction_coverage: Ratio,
    pub function_coverage: Ratio,
    pub line_coverage: Ratio,
    pub covered_functions: Vec<String>,
    pub uncovered_functions: Vec<String>,
}

/// Why a test case cannot be run.
#[derive(Clone, Copy, Debug, PartialEq, Eq, Structural)]
pub enum TestCaseError {
    /// There is no program at the path that the test names.
    MissingProgram,
    /// The test names no backend.
    NoBackend,
    /// The test has no input.
    EmptyInput,
}

/// The forms in which results can be exported.
#[derive(Clone, Copy, Debug, PartialEq, Eq, Structural)]
pub enum ResultsFormat {
    /// The structured record of the results.
    Json,
    /// A JUnit test suite.
    Junit,
}

/// The suites to run and the results so far.
pub struct PicoTestingFramework {
    test_suites: Vec<TestSuite>,
    results: Vec<TestResult>,
}

/// What a test gives, as plain values.
pub struct TestOutputView {
    pub public_outputs: Seq<u64>,
    pub proof_valid: bool,
    pub cycles: Option<u64>,
    pub memory_usage: Option<u64>,
}

/// The outcome of one test, as plain values.
pub struct TestResultView {
    pub test_name: Seq<char>,
    pub status: TestStatus,
    pub duration: u64,
    pub error_message: Option<Seq<char>>,
    pub actual_output: Option<TestOutputView>,
    pub performance_metrics: Option<PerformanceMetrics>,
}

impl View for TestOutput {
    type V = TestOutputView;

    open spec fn view(&self) -> TestOutputView {
        TestOutputView {
            public_outputs: self.public_outputs@,
            proof_valid: self.proof_valid,
            cycles: self.cycles,
            memory_usage: self.memory_usage,
        }
    }
}

impl View for TestResult {
    type V = TestResultView;

    open spec fn view(&self) -> TestResultView {
        TestResultView {
            test_name: self.test_name@,
            status: self.status,
            duration: self.duration,
            error_message: match self.error_message {
                Some(m) => Some(m@),
                None => None,
            },
            actual_output: match self.actual_output {
                Some(o) => Some(o@),
                None => None,
            },
            performance_metrics: self.performance_metrics,
        }
    }
}

/// The results `results` as plain values.
pub open spec fn result_views(results: Seq<TestResult>) -> Seq<TestResultView> {
    results.map_values(|r: TestResult| r@)
}

// ----- what a test gives -----

/// How a test named `name` ends: it fails where its name holds `should_fail`,
/// is skipped where its name holds `skip`, and passes otherwise.
pub open spec fn status_for(name: Seq<char>) -> TestStatus {
    if has_substring(name, "should_fail"@) {
        TestStatus::Failed
    } else if has_substring(name, "skip"@) {
        TestStatus::Skipped
    } else {
        TestStatus::Passed
    }
}

/// What a test that passes gives.
pub open spec fn passing_output() -> TestOutputView {
    TestOutputView {
        public_outputs: seq![42u64, 84u64],
        proof_valid: true,
        cycles: Some(1000u64),
        memory_usage: Some(1024u64),
    }
}

/// What a test that passes costs.
pub open spec fn passing_metrics() -> PerformanceMetrics {
    PerformanceMetrics {
        proof_generation_time: 50,
        proof_verification_time: 10,
        total_cycles: 1000,
        memory_peak: 1024,
        proof_size: 2048,
    }
}

/// The outcome of the test named `name` that took `duration`.
pub open spec fn outcome(name: Seq<char>, duration: u64) -> TestResultView {
    let status = status_for(name);
    TestResultView {
        test_name: name,
        status,
        duration,
        error_message: if status == TestStatus::Failed {
            Some("Test assertion failed"@)
        } else {
            None
        },
        actual_output: if status == TestStatus::Passed {
            Some(passing_output())
        } else {
            None
        },
        performance_metrics: if status == TestStatus::Passed {
            Some(passing_metrics())
        } else {
            None
        },
    }
}

/// The test cases of `suites`, suite by suite.
pub open spec fn all_tests(suites: Seq<TestSuite>) -> Seq<TestCase>
    decreases suites.len(),
{
    if suites.len() == 0 {
        Seq::empty()
    } else {
        all_tests(suites.drop_last()) + suites.last().tests@
    }
}

/// How long the test at the position `i` took: the measurement at that
/// position, and nothing where there is none.
pub open spec fn duration_at(durations: Seq<u64>, i: int) -> u64 {
    if 0 <= i < durations.len() {
        durations[i]
    } else {
        0
    }
}

/// The outcomes of `tests`, of which the test at the position `i` took
/// `durations[i]`.
pub open spec fn outcomes(tests: Seq<TestCase>, durations: Seq<u64>) -> Seq<TestResultView> {
    Seq::new(tests.len(), |i: int| outcome(tests[i].name@, duration_at(durations, i)))
}

/// The results that passed.
pub open spec fn has_passed() -> spec_fn(TestResultView) -> bool {
    |r: TestResultView| r.status == TestStatus::Passed
}

/// The results that were skipped.
pub open spec fn was_skipped() -> spec_fn(TestResultView) -> bool {
    |r: TestResultView| r.status == TestStatus::Skipped
}

/// The results that count as failed: those that failed, ran out of time or
/// ended in an error.
pub open spec fn counts_as_failed() -> spec_fn(TestResultView) -> bool {
    |r: TestResultView|
        r.status == TestStatus::Failed || r.status == TestStatus::Error || r.status
            == TestStatus::Timeout
}

/// The results that failed.
pub open spec fn has_failed() -> spec_fn(TestResultView) -> bool {
    |r: TestResultView| r.status == TestStatus::Failed
}

/// Whether `case` is the test case that is made for the test named `name` of
/// the program at `program_path`.
pub open spec fn is_template(case: TestCase, name: Seq<char>, program_path: Seq<char>) -> bool {
    &&& case.name@ == name
    &&& case.description@ == "Test for "@ + name
    &&& case.input.program_path@ == program_path
    &&& case.input.data@ == seq![1u8, 2u8, 3u8, 4u8]
    &&& case.input.environment@ == Map::<String, String>::empty()
    &&& case.input.backend@ == "koalabear"@
    &&& case.expected_output@ == (TestOutputView {
        public_outputs: seq![42u64],
        proof_valid: true,
        cycles: Some(1000u64),
        memory_usage: Some(1024u64),
    })
    &&& case.timeout == Some(30_000u64)
    &&& case.tags.deep_view() == seq!["unit"@]
}

/// The name of the test of the iteration `i` of a benchmark.
pub open spec fn benchmark_name(i: nat) -> Seq<char> {
    "benchmark_iteration_"@ + decimal(i)
}

/// Why `case` cannot be run, if it cannot: its program is missing, it names no
/// backend, or it has no input.
pub open spec fn test_case_error(case: TestCase, program_exists: bool) -> Option<TestCaseError> {
    if !program_exists {
        Some(TestCaseError::MissingProgram)
    } else if case.input.backend@.len() == 0 {
        Some(TestCaseError::NoBackend)
    } else if case.input.data@.len() == 0 {
        Some(TestCaseError::EmptyInput)
    } else {
        None
    }
}

/// The sum of the durations of `results`.
pub open spec fn total_duration(results: Seq<TestResult>) -> nat
    decreases results.len(),
{
    if results.len() == 0 {
        0
    } else {
        total_duration(results.drop_last()) + results.last().duration as nat
    }
}

/// The status of a result as JUnit names it.
pub open spec fn junit_status(status: TestStatus) -> Seq<char> {
    match status {
        TestStatus::Passed => "passed"@,
        TestStatus::Failed => "failed"@,
        _ => "skipped"@,
    }
}

/// The JUnit line for `result`.
pub open spec fn junit_case(result: TestResult) -> Seq<char> {
    "  <testcase name=\""@ + result.test_name@ + "\" time=\""@ + seconds_text(
        result.duration as nat,
    ) + "\" status=\""@ + junit_status(result.status) + "\" />\n"@
}

/// The JUnit lines for `results`.
pub open spec fn junit_cases(results: Seq<TestResult>) -> Seq<char>
    decreases results.len(),
{
    if results.len() == 0 {
        Seq::empty()
    } else {
        junit_cases(results.drop_last()) + junit_case(results.last())
    }
}

/// The JUnit test suite for `results`: a header with the count of results, the
/// count of failed ones and the sum of the durations in seconds, then a line
/// for each result.
pub open spec fn junit_text(results: Seq<TestResult>) -> Seq<char> {
    "<?xml version=\"1.0\" encoding=\"UTF-8\"?>\n<testsuite name=\"pico-tests\" tests=\""@
        + decimal(results.len()) + "\" failures=\""@ + decimal(
        result_views(results).filter(has_failed()).len(),
    ) + "\" time=\""@ + seconds_text(total_duration(results)) + "\">\n"@ + junit_cases(results)
        + "\n</testsuite>"@
}

impl ResultsFormat {
    /// The format that `name` names, if it names one.
    pub open spec fn named(name: Seq<char>) -> Option<ResultsFormat> {
        if name == "json"@ {
            Some(ResultsFormat::Json)
        } else if name == "junit"@ {
            Some(ResultsFormat::Junit)
        } else {
            None
        }
    }

    /// The format that `name` names: `"json"` or `"junit"`. Any other name is
    /// unsupported.
    pub fn parse(name: &str) -> (format: Option<ResultsFormat>)
        ensures
            format == ResultsFormat::named(name@),
    {
        if same_text(name, "json") {
            Some(ResultsFormat::Json)
        } else if same_text(name, "junit") {
            Some(ResultsFormat::Junit)
        } else {
            None
        }
    }
}

impl TestCaseError {
    /// What is wrong, in words.
    pub open spec fn text(self) -> Seq<char> {
        match self {
            TestCaseError::MissingProgram => "Program path does not exist"@,
            TestCaseError::NoBackend => "Backend must be specified"@,
            TestCaseError::EmptyInput => "Test input data cannot be empty"@,
        }
    }

    /// What is wrong, in words.
    pub fn message(&self) -> (s: &'static str)
        ensures
            s@ == self.text(),
    {
        match self {
            TestCaseError::MissingProgram => "Program path does not exist",
            TestCaseError::NoBackend => "Backend must be specified",
            TestCaseError::EmptyInput => "Test input data cannot be empty",
        }
    }
}

impl TestOutput {
    /// A copy of the output.
    pub fn duplicate(&self) -> (copy: TestOutput)
        ensures
            copy@ == self@,
    {
        let mut public_outputs: Vec<u64> = Vec::new();
        let mut k: usize = 0;
        while k < self.public_outputs.len()
            invariant
                k <= self.public_outputs@.len(),
                public_outputs@ == self.public_outputs@.take(k as int),
            decreases self.public_outputs@.len() - k,
        {
            public_outputs.push(self.public_outputs[k]);
            assert(public_outputs@ =~= self.public_outputs@.take(k + 1));
            k += 1;
        }
        assert(self.public_outputs@.take(self.public_outputs@.len() as int)
            =~= self.public_outputs@);
        TestOutput {
            public_outputs,
            proof_valid: self.proof_valid,
            cycles: self.cycles,
            memory_usage: self.memory_usage,
        }
    }
}

impl TestResult {
    /// A copy of the result.
    pub fn duplicate(&self) -> (copy: TestResult)
        ensures
            copy@ == self@,
    {
        TestResult {
            test_name: self.test_name.clone(),
            status: self.status,
            duration: self.duration,
            error_message: match &self.error_message {
                Some(m) => Some(m.clone()),
                None => None,
            },
            actual_output: match &self.actual_output {
                Some(o) => Some(o.duplicate()),
                None => None,
            },
            performance_metrics: self.performance_metrics,
        }
    }
}

fn junit_status_text(status: TestStatus) -> (s: &'static str)
    ensures
        s@ == junit_status(status),
{
    match status {
        TestStatus::Passed => "passed",
        TestStatus::Failed => "failed",
        _ => "skipped",
    }
}

fn push_junit_case(out: &mut String, result: &TestResult)
    ensures
        final(out)@ == old(out)@ + junit_case(*result),
{
    out.append("  <testcase name=\"");
    out.append(result.test_name.as_str());
    out.append("\" time=\"");
    push_seconds(out, result.duration as u128);
    out.append("\" status=\"");
    out.append(junit_status_text(result.status));
    out.append("\" />\n");
    assert(out@ =~= old(out)@ + junit_case(*result));
}

impl PicoTestingFramework {
    /// The suites to run, in the order in which they were added.
    pub closed spec fn spec_suites(&self) -> Seq<TestSuite> {
        self.test_suites@
    }

    /// The results so far, in the order in which the tests were run.
    pub closed spec fn spec_results(&self) -> Seq<TestResult> {
        self.results@
    }

    /// A framework without suites and without results.
    pub fn new() -> (framework: Self)
        ensures
            framework.spec_suites() == Seq::<TestSuite>::empty(),
            framework.spec_results() == Seq::<TestResult>::empty(),
    {
        Self { test_suites: Vec::new(), results: Vec::new() }
    }

    /// Adds `suite` behind the suites to run.
    pub fn add_test_suite(&mut self, suite: TestSuite)
        ensures
            final(self).spec_suites() == old(self).spec_suites().push(suite),
            final(self).spec_results() == old(self).spec_results(),
    {
        self.test_suites.push(suite);
    }

    /// The suites to run, in the order in which they were added.
    pub fn test_suites(&self) -> (suites: &Vec<TestSuite>)
        ensures
            suites@ == self.spec_suites(),
    {
        &self.test_suites
    }

    /// The results so far, in the order in which the tests were run.
    pub fn results(&self) -> (results: &Vec<TestResult>)
        ensures
            results@ == self.spec_results(),
    {
        &self.results
    }

    /// The outcome of `test_case`, which took `duration`. The test fails where
    /// its name holds `should_fail`, is skipped where its name holds `skip`,
    /// and passes otherwise. A test that passes gives the passing output and
    /// costs; a test that fails says that its assertion failed.
    pub fn run_single_test(&self, test_case: &TestCase, duration: u64) -> (result: TestResult)
        ensures
            result@ == outcome(test_case.name@, duration),
    {
        let name = test_case.name.as_str();
        let status = if contains_text(name, "should_fail") {
            TestStatus::Failed
        } else if contains_text(name, "skip") {
            TestStatus::Skipped
        } else {
            TestStatus::Passed
        };
        let passed = status == TestStatus::Passed;
        let actual_output = if passed {
            let mut public_outputs: Vec<u64> = Vec::new();
            public_outputs.push(42);
            public_outputs.push(84);
            assert(public_outputs@ =~= seq![42u64, 84u64]);
            Some(
                TestOutput {
                    public_outputs,
                    proof_valid: true,
                    cycles: Some(1000),
                    memory_usage: Some(1024),
                },
            )
        } else {
            None
        };
        let performance_metrics = if passed {
            Some(
                PerformanceMetrics {
                    proof_generation_time: 50,
                    proof_verification_time: 10,
                    total_cycles: 1000,
                    memory_peak: 1024,
                    proof_size: 2048,
                },
            )
        } else {
            None
        };
        let error_message = if status == TestStatus::Failed {
            Some(String::from_str("Test assertion failed"))
        } else {
            None
        };
        TestResult {
            test_name: test_case.name.clone(),
            status,
            duration,
            error_message,
            actual_output,
            performance_metrics,
        }
    }

    /// Runs the tests of all suites, suite by suite, and reports on the run. The
    /// test at the position `i` of the run took `durations[i]` (and no time where
    /// `durations` is shorter than the run); the whole run took `total`. The
    /// outcome of each test is added to the results. The report counts the
    /// tests of this run that passed, that failed and that were skipped, and
    /// lists all results so far; it has no coverage.
    pub fn run_all_tests(&mut self, durations: &Vec<u64>, total: u64) -> (report: TestReport)
        ensures
            final(self).spec_suites() == old(self).spec_suites(),
            result_views(final(self).spec_results()) == result_views(old(self).spec_results())
                + outcomes(all_tests(old(self).spec_suites()), durations@),
            report.suite_name@ == "All Suites"@,
            report.total_tests == all_tests(old(self).spec_suites()).len(),
            report.passed == outcomes(all_tests(old(self).spec_suites()), durations@).filter(
                has_passed(),
            ).len(),
            report.failed == outcomes(all_tests(old(self).spec_suites()), durations@).filter(
                counts_as_failed(),
            ).len(),
            report.skipped == outcomes(all_tests(old(self).spec_suites()), durations@).filter(
                was_skipped(),
            ).len(),
            report.total_tests == report.passed + report.failed + report.skipped,
            report.duration == total,
            result_views(report.results@) == result_views(final(self).spec_results()),
            report.coverage is None,
    {
        let ghost suites = self.test_suites@;
        let ghost earlier = result_views(self.results@);
        let mut passed: usize = 0;
        let mut failed: usize = 0;
        let mut skipped: usize = 0;
        let mut n: usize = 0;
        let mut s: usize = 0;
        proof {
            assert(suites.take(0) =~= Seq::empty());
            assert(outcomes(all_tests(suites.take(0)), durations@) =~= Seq::empty());
            assert(Seq::<TestResultView>::empty().filter(has_passed()) =~= Seq::empty()
                && Seq::<TestResultView>::empty().filter(counts_as_failed()) =~= Seq::empty()
                && Seq::<TestResultView>::empty().filter(was_skipped()) =~= Seq::empty()) by {
                reveal(Seq::filter);
            }
            assert(result_views(self.results@) =~= earlier + outcomes(
                all_tests(suites.take(0)),
                durations@,
            ));
        }
        while s < self.test_suites.len()
            invariant
                self.test_suites@ == suites,
                s <= suites.len(),
                n == all_tests(suites.take(s as int)).len(),
                self.results@.len() == earlier.len() + n,
                result_views(self.results@) == earlier + outcomes(
                    all_tests(suites.take(s as int)),
                    durations@,
                ),
                passed == outcomes(all_tests(suites.take(s as int)), durations@).filter(
                    has_passed(),
                ).len(),
                failed == outcomes(all_tests(suites.take(s as int)), durations@).filter(
                    counts_as_failed(),
                ).len(),
                skipped == outcomes(all_tests(suites.take(s as int)), durations@).filter(
                    was_skipped(),
                ).len(),
                passed + failed + skipped == n,
            decreases suites.len() - s,
        {
            let ghost before = all_tests(suites.take(s as int));
            let ghost tests = suites[s as int].tests@;
            let mut t: usize = 0;
            proof {
                assert(before + tests.take(0) =~= before);
            }
            while t < self.test_suites[s].tests.len()
                invariant
                    self.test_suites@ == suites,
                    s < suites.len(),
                    tests == suites[s as int].tests@,
                    before == all_tests(suites.take(s as int)),
                    t <= tests.len(),
                    n == before.len() + t,
                    self.results@.len() == earlier.len() + n,
                    result_views(self.results@) == earlier + outcomes(
                        before + tests.take(t as int),
                        durations@,
                    ),
                    passed == outcomes(before + tests.take(t as int), durations@).filter(
                        has_passed(),
                    ).len(),
                    failed == outcomes(before + tests.take(t as int), durations@).filter(
                        counts_as_failed(),
                    ).len(),
                    skipped == outcomes(before + tests.take(t as int), durations@).filter(
                        was_skipped(),
                    ).len(),
                    passed + failed + skipped == n,
                decreases tests.len() - t,
            {
                let duration = if n < durations.len() {
                    durations[n]
                } else {
                    0
                };
                let result = self.run_single_test(&self.test_suites[s].tests[t], duration);
                proof {
                    let done = before + tests.take(t as int);
                    let next = before + tests.take(t + 1);
                    let so_far = outcomes(done, durations@);
                    assert(next =~= done.push(tests[t as int]));
                    assert(outcomes(next, durations@) =~= so_far.push(result@));
                    so_far.lemma_filter_push(result@, has_passed());
                    so_far.lemma_filter_push(result@, counts_as_failed());
                    so_far.lemma_filter_push(result@, was_skipped());
                    assert(result_views(self.results@.push(result)) =~= result_views(
                        self.results@,
                    ).push(result@));
                }
                let status = result.status;
                self.results.push(result);
                let stored = self.results.len();
                assert(n < stored);
                match status {
                    TestStatus::Passed => {
                        passed = passed + 1;
                    },
                    TestStatus::Skipped => {
                        skipped = skipped + 1;
                    },
                    _ => {
                        failed = failed + 1;
                    },
                }
                n = n + 1;
                t += 1;
            }
            proof {
                assert(tests.take(tests.len() as int) =~= tests);
                assert(suites.take(s + 1).drop_last() =~= suites.take(s as int));
                assert(all_tests(suites.take(s + 1)) == before + tests);
            }
            s += 1;
        }
        proof {
            assert(suites.take(suites.len() as int) =~= suites);
        }
        let mut results: Vec<TestResult> = Vec::new();
        let mut k: usize = 0;
        proof {
            assert(result_views(results@) =~= result_views(self.results@.take(0)));
        }
        while k < self.results.len()
            invariant
                k <= self.results@.len(),
                result_views(results@) == result_views(self.results@.take(k as int)),
            decreases self.results@.len() - k,
        {
            let copy = self.results[k].duplicate();
            proof {
                assert(result_views(results@.push(copy)) =~= result_views(results@).push(copy@));
                assert(result_views(self.results@.take(k + 1)) =~= result_views(
                    self.results@.take(k as int),
                ).push(self.results@[k as int]@));
            }
            results.push(copy);
            k += 1;
        }
        proof {
            assert(self.results@.take(self.results@.len() as int) =~= self.results@);
        }
        TestReport {
            suite_name: String::from_str("All Suites"),
            total_tests: n,
            passed,
            failed,
            skipped,
            duration: total,
            results,
            coverage: None,
        }
    }

    /// The test case that is made for the test named `test_name` of the program
    /// at `program_path`: it runs on the bytes one to four with the backend
    /// `koalabear`, expects the single output 42 with a valid proof, a
    /// thousand cycles and 1024 bytes of memory, may take thirty seconds, and
    /// is tagged `unit`.
    pub fn generate_test_template(&self, test_name: &str, program_path: &str) -> (case: TestCase)
        ensures
            is_template(case, test_name@, program_path@),
    {
        let mut description = String::from_str("Test for ");
        description.append(test_name);
        let mut data: Vec<u8> = Vec::new();
        data.push(1);
        data.push(2);
        data.push(3);
        data.push(4);
        assert(data@ =~= seq![1u8, 2u8, 3u8, 4u8]);
        let mut public_outputs: Vec<u64> = Vec::new();
        public_outputs.push(42);
        assert(public_outputs@ =~= seq![42u64]);
        let mut tags: Vec<String> = Vec::new();
        tags.push(String::from_str("unit"));
        assert(tags.deep_view() =~= seq!["unit"@]);
        TestCase {
            name: String::from_str(test_name),
            description,
            input: TestInput {
                program_path: String::from_str(program_path),
                data,
                environment: HashMap::new(),
                backend: String::from_str("koalabear"),
            },
            expected_output: TestOutput {
                public_outputs,
                proof_valid: true,
                cycles: Some(1000),
                memory_usage: Some(1024),
            },
            timeout: Some(30_000),
            tags,
        }
    }

    /// The suite that benchmarks the program at `program_path`: `iterations`
    /// test cases made for the tests `benchmark_iteration_0`,
    /// `benchmark_iteration_1` and so on, to be run after a release build with
    /// the SDK at hand, and with nothing to do afterwards.
    pub fn create_benchmark_suite(&self, program_path: &str, iterations: usize) -> (suite: TestSuite)
        ensures
            suite.name@ == "Benchmark Suite"@,
            suite.tests@.len() == iterations,
            forall|i: int|
                0 <= i < iterations ==> is_template(
                    #[trigger] suite.tests@[i],
                    benchmark_name(i as nat),
                    program_path@,
                ),
            suite.setup matches Some(setup) && setup.pre_commands.deep_view() == seq![
                "cargo build --release"@,
            ] && setup.environment_vars@ == Map::<String, String>::empty()
                && setup.dependencies.deep_view() == seq!["pico-sdk"@],
            suite.teardown is None,
    {
        let mut tests: Vec<TestCase> = Vec::new();
        let mut i: usize = 0;
        while i < iterations
            invariant
                i <= iterations,
                tests@.len() == i,
                forall|k: int|
                    0 <= k < i ==> is_template(
                        #[trigger] tests@[k],
                        benchmark_name(k as nat),
                        program_path@,
                    ),
            decreases iterations - i,
        {
            let mut name = String::from_str("benchmark_iteration_");
            push_decimal(&mut name, i as u128);
            tests.push(self.generate_test_template(name.as_str(), program_path));
            i += 1;
        }
        let mut pre_commands: Vec<String> = Vec::new();
        pre_commands.push(String::from_str("cargo build --release"));
        assert(pre_commands.deep_view() =~= seq!["cargo build --release"@]);
        let mut dependencies: Vec<String> = Vec::new();
        dependencies.push(String::from_str("pico-sdk"));
        assert(dependencies.deep_view() =~= seq!["pico-sdk"@]);
        TestSuite {
            name: String::from_str("Benchmark Suite"),
            tests,
            setup: Some(TestSetup { pre_commands, environment_vars: HashMap::new(), dependencies }),
            teardown: None,
        }
    }

    /// Whether `test_case` can be run, given whether there is a program at the
    /// path that it names. It cannot where the program is missing, where it
    /// names no backend, or where it has no input.
    pub fn validate_test_case(&self, test_case: &TestCase, program_exists: bool) -> (result: Result<
        (),
        TestCaseError,
    >)
        ensures
            match result {
                Ok(()) => test_case_error(*test_case, program_exists) is None,
                Err(e) => test_case_error(*test_case, program_exists) == Some(e),
            },
    {
        if !program_exists {
            return Err(TestCaseError::MissingProgram);
        }
        if test_case.input.backend.as_str().is_empty() {
            return Err(TestCaseError::NoBackend);
        }
        if test_case.input.data.len() == 0 {
            return Err(TestCaseError::EmptyInput);
        }
        Ok(())
    }

    /// The coverage that the results stand for. Until coverage is measured it
    /// is always the same: 85 in a hundred instructions, 8 in 10 functions and
    /// 80 in a hundred lines, with the functions `main`, `compute` and
    /// `validate` covered and `error_handler` and `cleanup` not.
    pub fn generate_coverage_report(&self, _results: &[TestResult]) -> (report: CoverageReport)
        ensures
            report.instruction_coverage == (Ratio { numerator: 85, denominator: 100 }),
            report.function_coverage == (Ratio { numerator: 8, denominator: 10 }),
            report.line_coverage == (Ratio { numerator: 80, denominator: 100 }),
            report.covered_functions.deep_view() == seq!["main"@, "compute"@, "validate"@],
            report.uncovered_functions.deep_view() == seq!["error_handler"@, "cleanup"@],
    {
        let mut covered_functions: Vec<String> = Vec::new();
        covered_functions.push(String::from_str("main"));
        covered_functions.push(String::from_str("compute"));
        covered_functions.push(String::from_str("validate"));
        assert(covered_functions.deep_view() =~= seq!["main"@, "compute"@, "validate"@]);
        let mut uncovered_functions: Vec<String> = Vec::new();
        uncovered_functions.push(String::from_str("error_handler"));
        uncovered_functions.push(String::from_str("cleanup"));
        assert(uncovered_functions.deep_view() =~= seq!["error_handler"@, "cleanup"@]);
        CoverageReport {
            instruction_coverage: Ratio::of(85, 100),
            function_coverage: Ratio::of(8, 10),
            line_coverage: Ratio::of(80, 100),
            covered_functions,
            uncovered_functions,
        }
    }

    /// The results so far as a JUnit test suite.
    pub fn export_junit(&self) -> (text: String)
        ensures
            text@ == junit_text(self.spec_results()),
    {
        let mut failures: usize = 0;
        let mut time: u128 = 0;
        let mut cases = String::new();
        let mut k: usize = 0;
        proof {
            assert(result_views(self.results@.take(0)).filter(has_failed()) =~= Seq::empty()) by {
                reveal(Seq::filter);
            }
        }
        while k < self.results.len()
            invariant
                k <= self.results@.len(),
                failures == result_views(self.results@.take(k as int)).filter(has_failed()).len(),
                failures <= k,
                time == total_duration(self.results@.take(k as int)),
                time <= k * u64::MAX,
                cases@ == junit_cases(self.results@.take(k as int)),
            decreases self.results@.len() - k,
        {
            let r = &self.results[k];
            proof {
                let seen = self.results@.take(k as int);
                let next = self.results@.take(k + 1);
                assert(next =~= seen.push(*r));
                assert(next.drop_last() =~= seen);
                assert(result_views(next) =~= result_views(seen).push(r@));
                result_views(seen).lemma_filter_push(r@, has_failed());
                assert((k + 1) * u64::MAX == k * u64::MAX + u64::MAX) by (nonlinear_arith);
                assert(k * u64::MAX <= usize::MAX * u64::MAX) by (nonlinear_arith)
                    requires
                        k <= usize::MAX,
                ;
            }
            if r.status == TestStatus::Failed {
                failures = failures + 1;
            }
            time = time + r.duration as u128;
            push_junit_case(&mut cases, r);
            k += 1;
        }
        assert(self.results@.take(self.results@.len() as int) =~= self.results@);
        let mut out = String::from_str(
            "<?xml version=\"1.0\" encoding=\"UTF-8\"?>\n<testsuite name=\"pico-tests\" tests=\"",
        );
        push_decimal(&mut out, self.results.len() as u128);
        out.append("\" failures=\"");
        push_decimal(&mut out, failures as u128);
        out.append("\" time=\"");
        push_seconds(&mut out, time);
        out.append("\">\n");
        out.append(cases.as_str());
        out.append("\n</testsuite>");
        assert(out@ =~= junit_text(self.results@));
        out
    }
}

} // verus!
