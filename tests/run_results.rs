use cargo_image_runner::runner::{check_outcome, classify_exit};
use cargo_image_runner::{Error, RunResult};

#[test]
fn test_run_result_success() {
    let result = RunResult::success();
    assert_eq!(result.exit_code, 0);
    assert!(result.success);
}

#[test]
fn test_run_result_failed() {
    let result = RunResult::failed(1);
    assert_eq!(result.exit_code, 1);
    assert!(!result.success);
}

#[test]
fn test_run_result_custom() {
    let result = RunResult::new(33, true);
    assert_eq!(result.exit_code, 33);
    assert!(result.success);
}

#[test]
fn run_result_with_output_and_timeout() {
    let result = RunResult::new(-1, false)
        .with_output("out".to_string(), "err".to_string())
        .with_timeout();
    assert_eq!(result.exit_code, -1);
    assert!(!result.success);
    assert!(result.timed_out);
    let captured = result.captured_output.unwrap();
    assert_eq!(captured.stdout, "out");
    assert_eq!(captured.stderr, "err");
}

#[test]
fn test_mode_success_code_matches() {
    let r = classify_exit(true, Some(33), Some(33), false, false);
    assert!(r.success);
    assert_eq!(r.exit_code, 33);
    assert!(!r.timed_out);
}

#[test]
fn test_mode_other_code_fails_even_on_normal_exit() {
    let r = classify_exit(true, Some(33), Some(0), true, false);
    assert!(!r.success);
    assert_eq!(r.exit_code, 0);
    let r = classify_exit(true, Some(33), Some(1), false, false);
    assert!(!r.success);
}

#[test]
fn test_mode_without_expected_code_fails() {
    let r = classify_exit(true, None, Some(0), true, false);
    assert!(!r.success);
}

#[test]
fn run_mode_follows_normal_exit() {
    let r = classify_exit(false, None, Some(0), true, false);
    assert!(r.success);
    let r = classify_exit(false, None, Some(3), false, false);
    assert!(!r.success);
    assert_eq!(r.exit_code, 3);
    // no code matching in run mode
    let r = classify_exit(false, Some(33), Some(33), false, false);
    assert!(!r.success);
}

#[test]
fn killed_run_records_minus_one_and_time_out() {
    let r = classify_exit(true, Some(33), None, false, true);
    assert_eq!(r.exit_code, -1);
    assert!(r.timed_out);
    assert!(!r.success);
    match check_outcome(&r, true, Some(33)) {
        Err(Error::TimedOut) => {}
        other => panic!("expected a time-out, got {:?}", other),
    }
}

#[test]
fn time_out_takes_precedence_over_success() {
    let r = RunResult::new(33, true).with_timeout();
    match check_outcome(&r, true, Some(33)) {
        Err(e) => assert_eq!(e.message(), "test timed out"),
        Ok(()) => panic!("a timed-out run is no success"),
    }
}

#[test]
fn outcome_messages() {
    assert!(check_outcome(&RunResult::new(33, true), true, Some(33)).is_ok());
    let e = check_outcome(&RunResult::new(1, false), true, Some(33)).unwrap_err();
    assert_eq!(e.message(), "test failed: expected 33, got 1");
    let e = check_outcome(&RunResult::new(-7, false), true, None).unwrap_err();
    assert_eq!(e.message(), "test failed: no success exit code configured, got -7");
    let e = check_outcome(&RunResult::failed(2), false, None).unwrap_err();
    assert_eq!(e.message(), "Runner error: Execution failed with exit code: 2");
}
