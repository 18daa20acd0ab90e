use pico_proof_marketplace::testing::{
    PerformanceMetrics, PicoTestingFramework, ResultsFormat, TestCase, TestCaseError, TestStatus,
    TestSuite,
};
use pico_proof_marketplace::text::contains_text;
use pico_proof_marketplace::Ratio;

fn suite(name: &str, tests: &[&str]) -> TestSuite {
    let f = PicoTestingFramework::new();
    TestSuite {
        name: name.to_string(),
        tests: tests.iter().map(|t| f.generate_test_template(t, "prog.elf")).collect(),
        setup: None,
        teardown: None,
    }
}

#[test]
fn substring_search() {
    assert!(contains_text("it_should_fail_here", "should_fail"));
    assert!(contains_text("should_fail", "should_fail"));
    assert!(contains_text("xshould_fail", "should_fail"));
    assert!(!contains_text("should_fai", "should_fail"));
    assert!(!contains_text("should-fail", "should_fail"));
    assert!(contains_text("anything", ""));
    assert!(contains_text("", ""));
    assert!(!contains_text("", "a"));
    assert!(contains_text("aab", "ab"));
    assert!(contains_text("ababac", "abac"));
    assert!(contains_text("prüfung_skip_ß", "skip"));
    assert!(contains_text("prüfung", "üf"));
    assert!(!contains_text("prufung", "üf"));
}

#[test]
fn template_for_a_test() {
    let f = PicoTestingFramework::new();
    let case: TestCase = f.generate_test_template("adds", "target/prog.elf");
    assert_eq!(case.name, "adds");
    assert_eq!(case.description, "Test for adds");
    assert_eq!(case.input.program_path, "target/prog.elf");
    assert_eq!(case.input.data, vec![1, 2, 3, 4]);
    assert!(case.input.environment.is_empty());
    assert_eq!(case.input.backend, "koalabear");
    assert_eq!(case.expected_output.public_outputs, vec![42]);
    assert!(case.expected_output.proof_valid);
    assert_eq!(case.expected_output.cycles, Some(1000));
    assert_eq!(case.expected_output.memory_usage, Some(1024));
    assert_eq!(case.timeout, Some(30_000));
    assert_eq!(case.tags, vec!["unit".to_string()]);
}

#[test]
fn benchmark_suite_numbers_its_iterations() {
    let f = PicoTestingFramework::new();
    let s = f.create_benchmark_suite("prog.elf", 12);
    assert_eq!(s.name, "Benchmark Suite");
    assert_eq!(s.tests.len(), 12);
    assert_eq!(s.tests[0].name, "benchmark_iteration_0");
    assert_eq!(s.tests[0].description, "Test for benchmark_iteration_0");
    assert_eq!(s.tests[11].name, "benchmark_iteration_11");
    assert!(s.tests.iter().all(|t| t.input.program_path == "prog.elf" && t.input.data == vec![1, 2, 3, 4]));
    let setup = s.setup.unwrap();
    assert_eq!(setup.pre_commands, vec!["cargo build --release".to_string()]);
    assert!(setup.environment_vars.is_empty());
    assert_eq!(setup.dependencies, vec!["pico-sdk".to_string()]);
    assert!(s.teardown.is_none());
    assert!(f.create_benchmark_suite("prog.elf", 0).tests.is_empty());
}

#[test]
fn test_cases_are_validated() {
    let f = PicoTestingFramework::new();
    let good = f.generate_test_template("adds", "prog.elf");
    assert_eq!(f.validate_test_case(&good, true), Ok(()));
    assert_eq!(f.validate_test_case(&good, false), Err(TestCaseError::MissingProgram));
    let mut no_backend = f.generate_test_template("adds", "prog.elf");
    no_backend.input.backend = String::new();
    no_backend.input.data = vec![];
    assert_eq!(f.validate_test_case(&no_backend, true), Err(TestCaseError::NoBackend));
    assert_eq!(f.validate_test_case(&no_backend, false), Err(TestCaseError::MissingProgram));
    let mut no_data = f.generate_test_template("adds", "prog.elf");
    no_data.input.data = vec![];
    assert_eq!(f.validate_test_case(&no_data, true), Err(TestCaseError::EmptyInput));
    assert_eq!(TestCaseError::MissingProgram.message(), "Program path does not exist");
    assert_eq!(TestCaseError::NoBackend.message(), "Backend must be specified");
    assert_eq!(TestCaseError::EmptyInput.message(), "Test input data cannot be empty");
}

#[test]
fn outcome_follows_the_name() {
    let f = PicoTestingFramework::new();
    let passing = f.run_single_test(&f.generate_test_template("adds", "p"), 120);
    assert_eq!(passing.test_name, "adds");
    assert_eq!(passing.status, TestStatus::Passed);
    assert_eq!(passing.duration, 120);
    assert_eq!(passing.error_message, None);
    let output = passing.actual_output.unwrap();
    assert_eq!(output.public_outputs, vec![42, 84]);
    assert!(output.proof_valid);
    assert_eq!((output.cycles, output.memory_usage), (Some(1000), Some(1024)));
    assert_eq!(
        passing.performance_metrics,
        Some(PerformanceMetrics {
            proof_generation_time: 50,
            proof_verification_time: 10,
            total_cycles: 1000,
            memory_peak: 1024,
            proof_size: 2048,
        })
    );
    let failing = f.run_single_test(&f.generate_test_template("overflow_should_fail", "p"), 7);
    assert_eq!(failing.status, TestStatus::Failed);
    assert_eq!(failing.error_message, Some("Test assertion failed".to_string()));
    assert!(failing.actual_output.is_none());
    assert!(failing.performance_metrics.is_none());
    assert_eq!(failing.duration, 7);
    let skipped = f.run_single_test(&f.generate_test_template("skip_me", "p"), 0);
    assert_eq!(skipped.status, TestStatus::Skipped);
    assert_eq!(skipped.error_message, None);
    assert!(skipped.actual_output.is_none());
    assert!(skipped.performance_metrics.is_none());
    // failing wins over skipping
    let both = f.run_single_test(&f.generate_test_template("skip_should_fail", "p"), 0);
    assert_eq!(both.status, TestStatus::Failed);
}

#[test]
fn run_counts_and_collects_results() {
    let mut f = PicoTestingFramework::new();
    f.add_test_suite(suite("first", &["a", "b_should_fail", "skip_c"]));
    f.add_test_suite(suite("empty", &[]));
    f.add_test_suite(suite("second", &["d", "e"]));
    assert_eq!(f.test_suites().len(), 3);
    let report = f.run_all_tests(&vec![10, 20, 30, 40], 1_234);
    assert_eq!(report.suite_name, "All Suites");
    assert_eq!(report.total_tests, 5);
    assert_eq!((report.passed, report.failed, report.skipped), (3, 1, 1));
    assert_eq!(report.duration, 1_234);
    assert!(report.coverage.is_none());
    let seen: Vec<(&str, TestStatus, u64)> =
        report.results.iter().map(|r| (r.test_name.as_str(), r.status, r.duration)).collect();
    assert_eq!(
        seen,
        vec![
            ("a", TestStatus::Passed, 10),
            ("b_should_fail", TestStatus::Failed, 20),
            ("skip_c", TestStatus::Skipped, 30),
            ("d", TestStatus::Passed, 40),
            ("e", TestStatus::Passed, 0),
        ]
    );
    assert_eq!(report.results[0].actual_output.as_ref().unwrap().public_outputs, vec![42, 84]);
    assert_eq!(report.results[1].error_message, Some("Test assertion failed".to_string()));
    assert_eq!(f.results().len(), 5);
    // a second run counts its own tests and lists all results so far
    let again = f.run_all_tests(&vec![1, 1, 1, 1, 1, 1], 9);
    assert_eq!(again.total_tests, 5);
    assert_eq!((again.passed, again.failed, again.skipped), (3, 1, 1));
    assert_eq!(again.results.len(), 10);
    assert_eq!(again.results[4].duration, 0);
    assert_eq!(again.results[9].duration, 1);
    assert_eq!(f.results().len(), 10);
    assert_eq!(f.test_suites().len(), 3);
}

#[test]
fn run_without_tests() {
    let mut f = PicoTestingFramework::new();
    let report = f.run_all_tests(&vec![], 0);
    assert_eq!(report.total_tests, 0);
    assert_eq!((report.passed, report.failed, report.skipped), (0, 0, 0));
    assert!(report.results.is_empty());
}

#[test]
fn coverage_report_is_fixed() {
    let f = PicoTestingFramework::new();
    let c = f.generate_coverage_report(&[]);
    assert_eq!(c.instruction_coverage, Ratio { numerator: 85, denominator: 100 });
    assert_eq!(c.function_coverage, Ratio { numerator: 8, denominator: 10 });
    assert_eq!(c.function_coverage.to_percent_hundredths(), 8000);
    assert_eq!(c.line_coverage, Ratio { numerator: 80, denominator: 100 });
    assert_eq!(c.covered_functions, vec!["main", "compute", "validate"]);
    assert_eq!(c.uncovered_functions, vec!["error_handler", "cleanup"]);
}

#[test]
fn junit_export() {
    let mut f = PicoTestingFramework::new();
    assert_eq!(
        f.export_junit(),
        "<?xml version=\"1.0\" encoding=\"UTF-8\"?>\n<testsuite name=\"pico-tests\" tests=\"0\" failures=\"0\" time=\"0.000\">\n\n</testsuite>"
    );
    f.add_test_suite(suite("first", &["a", "b_should_fail", "skip_c", "d_should_fail"]));
    f.run_all_tests(&vec![1_500, 20, 7, 100_000], 0);
    assert_eq!(
        f.export_junit(),
        "<?xml version=\"1.0\" encoding=\"UTF-8\"?>\n\
<testsuite name=\"pico-tests\" tests=\"4\" failures=\"2\" time=\"101.527\">\n  \
<testcase name=\"a\" time=\"1.500\" status=\"passed\" />\n  \
<testcase name=\"b_should_fail\" time=\"0.020\" status=\"failed\" />\n  \
<testcase name=\"skip_c\" time=\"0.007\" status=\"skipped\" />\n  \
<testcase name=\"d_should_fail\" time=\"100.000\" status=\"failed\" />\n\
\n</testsuite>"
    );
}

#[test]
fn results_formats_are_named() {
    assert_eq!(ResultsFormat::parse("json"), Some(ResultsFormat::Json));
    assert_eq!(ResultsFormat::parse("junit"), Some(ResultsFormat::Junit));
    assert_eq!(ResultsFormat::parse("xml"), None);
}
