use cargo_image_runner::config::ShowOutput;
use cargo_image_runner::harness::{ResultFormatter, TestCaseResult, TestCaseStatus, TestOutput};
use cargo_image_runner::{CapturedOutput, RunResult};

#[test]
fn test_formatter_creation() {
    let fmt = ResultFormatter::new(ShowOutput::OnFailure);
    assert_eq!(fmt.show_output(), ShowOutput::OnFailure);
}

#[test]
fn test_report_does_not_panic() {
    let fmt = ResultFormatter::new(ShowOutput::Always);
    let output = TestOutput {
        cases: vec![
            TestCaseResult { name: "test_a".to_string(), status: TestCaseStatus::Passed },
            TestCaseResult { name: "test_b".to_string(), status: TestCaseStatus::Failed },
        ],
        passed: 1,
        failed: 1,
        timed_out: false,
        overall_success: false,
    };
    let captured = CapturedOutput {
        stdout: "some output\n".to_string(),
        stderr: "some error\n".to_string(),
    };
    let text = fmt.report(&output, Some(&captured));
    assert_eq!(
        text,
        "[PASS] test_a\n[FAIL] test_b\n\n--- captured stdout ---\nsome output\n--- end stdout ---\n\n--- captured stderr ---\nsome error\n--- end stderr ---\n\ntest result: FAILED. 1 passed, 1 failed\n"
    );
}

#[test]
fn test_report_no_captured_output() {
    let fmt = ResultFormatter::new(ShowOutput::Always);
    let output = TestOutput {
        cases: vec![],
        passed: 0,
        failed: 0,
        timed_out: false,
        overall_success: true,
    };
    let text = fmt.report(&output, None);
    assert_eq!(text, "\ntest result: ok. 0 passed, 0 failed\n");
}

#[test]
fn test_report_on_failure_hides_output_on_success() {
    let fmt = ResultFormatter::new(ShowOutput::OnFailure);
    let output = TestOutput {
        cases: vec![TestCaseResult { name: "test_ok".to_string(), status: TestCaseStatus::Passed }],
        passed: 1,
        failed: 0,
        timed_out: false,
        overall_success: true,
    };
    let captured = CapturedOutput {
        stdout: "should not be printed\n".to_string(),
        stderr: String::new(),
    };
    let text = fmt.report(&output, Some(&captured));
    assert!(!text.contains("should not be printed"));
}

#[test]
fn report_frames_unterminated_output_and_time_out() {
    let fmt = ResultFormatter::new(ShowOutput::OnFailure);
    let result = RunResult::new(-1, false).with_timeout();
    let output = TestOutput::summarize(
        vec![TestCaseResult { name: "t".to_string(), status: TestCaseStatus::Passed }],
        &result,
    );
    assert_eq!(output.passed, 1);
    assert_eq!(output.failed, 0);
    assert!(output.timed_out);
    assert!(!output.overall_success);
    let captured = CapturedOutput { stdout: "x".to_string(), stderr: String::new() };
    assert_eq!(
        fmt.report(&output, Some(&captured)),
        "[PASS] t\n\n--- captured stdout ---\nx\n--- end stdout ---\n\ntest result: FAILED. 1 passed, 0 failed (timed out)\n"
    );
}

#[test]
fn summarize_counts_cases() {
    let cases = vec![
        TestCaseResult { name: "a".to_string(), status: TestCaseStatus::Passed },
        TestCaseResult { name: "b".to_string(), status: TestCaseStatus::Passed },
        TestCaseResult { name: "c".to_string(), status: TestCaseStatus::Failed },
    ];
    let output = TestOutput::summarize(cases, &RunResult::new(33, true));
    assert_eq!(output.passed, 2);
    assert_eq!(output.failed, 1);
    assert!(!output.overall_success);
    let output = TestOutput::summarize(Vec::new(), &RunResult::new(0, true));
    assert!(output.overall_success);
}
