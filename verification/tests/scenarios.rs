use assert_cli::{Assert, AssertionError, OutputKind, ProcessOutput};

fn ran(stdout: &str, stderr: &str, code: i32) -> Result<ProcessOutput, String> {
    Ok(ProcessOutput {
        stdout: stdout.as_bytes().to_vec(),
        stderr: stderr.as_bytes().to_vec(),
        success: code == 0,
        code: Some(code),
    })
}

fn killed(stdout: &str, stderr: &str) -> Result<ProcessOutput, String> {
    Ok(ProcessOutput {
        stdout: stdout.as_bytes().to_vec(),
        stderr: stderr.as_bytes().to_vec(),
        success: false,
        code: None,
    })
}

fn words(items: &[&str]) -> Vec<String> {
    items.iter().map(|s| s.to_string()).collect()
}

const CAT_COMPLAINT: &str = "cat: missing-file: No such file or directory\n";

#[test]
fn default_plan_passes_on_exit_zero() {
    assert!(Assert::command(&["true"]).execute(ran("", "", 0)).is_ok());
    assert!(Assert::main_binary().execute(ran("anything", "at all", 0)).is_ok());
    assert!(Assert::cargo_binary("tool").execute(ran("", "", 0)).is_ok());
    assert!(Assert::default().execute(ran("", "", 0)).is_ok());
}

#[test]
fn default_plan_reports_status_mismatch_on_nonzero_exit() {
    for code in [1, 2, 127, -1] {
        match Assert::command(&["prog"]).execute(ran("out", "err", code)) {
            Err(AssertionError::StatusMismatch { cmd, expected_success, stdout, stderr }) => {
                assert_eq!(cmd, words(&["prog"]));
                assert!(expected_success);
                assert_eq!(stdout, "out");
                assert_eq!(stderr, "err");
            }
            other => panic!("expected a status mismatch, got {:?}", other),
        }
    }
}

#[test]
fn echo_output_contains_the_argument() {
    let result =
        Assert::command(&["echo", "42"]).stdout().contains("42").execute(ran("42\n", "", 0));
    assert!(result.is_ok());
}

#[test]
fn echo_output_is_not_exactly_the_argument() {
    let result = Assert::command(&["echo", "42"]).stdout().is("42").execute(ran("42\n", "", 0));
    match result {
        Err(AssertionError::OutputMismatch {
            cmd,
            kind,
            expect,
            fuzzy,
            expected_result,
            stdout,
            stderr,
        }) => {
            assert_eq!(cmd, words(&["echo", "42"]));
            assert_eq!(kind, OutputKind::StdOut);
            assert_eq!(expect, "42");
            assert!(!fuzzy);
            assert!(expected_result);
            assert_eq!(stdout, "42\n");
            assert_eq!(stderr, "");
        }
        other => panic!("expected an output mismatch, got {:?}", other),
    }
}

#[test]
fn exact_match_takes_the_trailing_newline_literally() {
    let plan = Assert::command(&["echo", "42"]).stdout().is("42\n");
    assert!(plan.execute(ran("42\n", "", 0)).is_ok());
    let plan = Assert::command(&["printf", "42"]).stdout().is("42");
    assert!(plan.execute(ran("42", "", 0)).is_ok());
    let plan = Assert::command(&["printf", "42"]).stdout().is(" 42");
    assert!(plan.execute(ran("42", "", 0)).is_err());
}

#[test]
fn cat_on_a_missing_file_fails_with_one() {
    let result =
        Assert::command(&["cat", "missing-file"]).fails_with(1).execute(ran("", CAT_COMPLAINT, 1));
    assert!(result.is_ok());
}

#[test]
fn cat_on_a_missing_file_names_it_on_stderr() {
    let result = Assert::command(&["cat", "missing-file"])
        .fails()
        .and()
        .stderr()
        .contains("missing-file")
        .execute(ran("", CAT_COMPLAINT, 1));
    assert!(result.is_ok());
    let result = Assert::command(&["cat", "missing-file"])
        .fails_with(1)
        .and()
        .stderr()
        .is(CAT_COMPLAINT)
        .execute(ran("", CAT_COMPLAINT, 1));
    assert!(result.is_ok());
}

#[test]
fn false_is_a_status_mismatch_by_default() {
    let result = Assert::command(&["false"]).execute(ran("", "", 1));
    match result {
        Err(AssertionError::StatusMismatch { cmd, expected_success, stdout, stderr }) => {
            assert_eq!(cmd, words(&["false"]));
            assert!(expected_success);
            assert_eq!(stdout, "");
            assert_eq!(stderr, "");
        }
        other => panic!("expected a status mismatch, got {:?}", other),
    }
}

#[test]
fn a_program_that_cannot_be_started_is_not_a_mismatch() {
    let cause = "No such file or directory (os error 2)";
    let result = Assert::command(&["nonexistent-binary-xyz", "--flag"])
        .stdout()
        .contains("never looked at")
        .execute(Err(cause.to_string()));
    match result {
        Err(AssertionError::CommandNotRunnable { cmd, cause: reported }) => {
            assert_eq!(cmd, words(&["nonexistent-binary-xyz", "--flag"]));
            assert_eq!(reported, cause);
        }
        other => panic!("expected a spawn failure, got {:?}", other),
    }
}

#[test]
fn a_program_that_cannot_be_started_does_not_satisfy_fails() {
    let result = Assert::command(&["nonexistent-binary-xyz"]).fails().execute(Err("gone".into()));
    assert!(matches!(result, Err(AssertionError::CommandNotRunnable { .. })));
}

#[test]
fn unexpected_success_is_a_status_mismatch() {
    match Assert::command(&["echo", "42"]).fails().execute(ran("42\n", "", 0)) {
        Err(AssertionError::StatusMismatch { cmd, expected_success, stdout, stderr }) => {
            assert_eq!(cmd, words(&["echo", "42"]));
            assert!(!expected_success);
            assert_eq!(stdout, "42\n");
            assert_eq!(stderr, "");
        }
        other => panic!("expected a status mismatch, got {:?}", other),
    }
}

#[test]
fn wrong_exit_code_is_an_exit_code_mismatch() {
    match Assert::command(&["cat", "x"]).fails_with(2).execute(ran("o", "e", 1)) {
        Err(AssertionError::ExitCodeMismatch { cmd, expected, got, stdout, stderr }) => {
            assert_eq!(cmd, words(&["cat", "x"]));
            assert_eq!(expected, Some(2));
            assert_eq!(got, Some(1));
            assert_eq!(stdout, "o");
            assert_eq!(stderr, "e");
        }
        other => panic!("expected an exit code mismatch, got {:?}", other),
    }
}

#[test]
fn a_run_without_exit_code_meets_no_expected_code() {
    match Assert::command(&["sleep", "100"]).fails_with(9).execute(killed("", "")) {
        Err(AssertionError::ExitCodeMismatch { expected, got, .. }) => {
            assert_eq!(expected, Some(9));
            assert_eq!(got, None);
        }
        other => panic!("expected an exit code mismatch, got {:?}", other),
    }
    assert!(Assert::command(&["sleep", "100"]).fails().execute(killed("", "")).is_ok());
}

#[test]
fn status_is_checked_before_the_exit_code() {
    let result = Assert::command(&["echo"]).fails_with(3).execute(ran("", "", 0));
    assert!(matches!(result, Err(AssertionError::StatusMismatch { expected_success: false, .. })));
}

#[test]
fn exit_code_is_checked_before_the_output() {
    let result = Assert::command(&["prog"])
        .fails_with(3)
        .stdout()
        .contains("absent")
        .execute(ran("", "", 4));
    assert!(matches!(
        result,
        Err(AssertionError::ExitCodeMismatch { expected: Some(3), got: Some(4), .. })
    ));
}

#[test]
fn the_first_unmet_expectation_is_the_one_reported() {
    let result = Assert::command(&["echo", "42"])
        .stdout()
        .contains("first-missing")
        .stdout()
        .contains("second-missing")
        .execute(ran("42\n", "", 0));
    match result {
        Err(AssertionError::OutputMismatch { expect, fuzzy, expected_result, kind, .. }) => {
            assert_eq!(expect, "first-missing");
            assert!(fuzzy);
            assert!(expected_result);
            assert_eq!(kind, OutputKind::StdOut);
        }
        other => panic!("expected an output mismatch, got {:?}", other),
    }
}

#[test]
fn the_text_of_a_later_expectation_stays_out_of_the_diagnostic() {
    let result = Assert::command(&["echo", "42"])
        .stdout()
        .contains("first-missing")
        .stdout()
        .contains("second-missing")
        .execute(ran("42\n", "", 0));
    let error = result.unwrap_err();
    let shown = format!("{:?}", error);
    assert!(shown.contains("first-missing"));
    assert!(!shown.contains("second-missing"));
    let message = error.message();
    assert!(message.contains("first-missing"));
    assert!(!message.contains("second-missing"));
}

#[test]
fn expectations_are_checked_in_the_order_they_were_added() {
    let result = Assert::command(&["prog"])
        .stdout()
        .contains("a")
        .stderr()
        .is("nope")
        .stdout()
        .contains("zzz")
        .execute(ran("abc", "err", 0));
    match result {
        Err(AssertionError::OutputMismatch { expect, kind, fuzzy, .. }) => {
            assert_eq!(expect, "nope");
            assert_eq!(kind, OutputKind::StdErr);
            assert!(!fuzzy);
        }
        other => panic!("expected an output mismatch, got {:?}", other),
    }
}

#[test]
fn all_expectations_met_is_success() {
    let result = Assert::command(&["prog"])
        .stdout()
        .contains("b")
        .stdout()
        .is("abc")
        .stderr()
        .doesnt_contain("panic")
        .stderr()
        .isnt("")
        .execute(ran("abc", "warning", 0));
    assert!(result.is_ok());
}

#[test]
fn evaluate_takes_the_texts_as_they_are() {
    let plan = Assert::command(&["prog"]).stdout().is("né").stderr().contains("✓");
    assert!(plan.evaluate(true, Some(0), "né".to_string(), "ok ✓".to_string()).is_ok());
    let plan = Assert::command(&["prog"]).fails();
    match plan.evaluate(true, Some(0), "o".to_string(), "e".to_string()) {
        Err(AssertionError::StatusMismatch { expected_success, stdout, stderr, .. }) => {
            assert!(!expected_success);
            assert_eq!(stdout, "o");
            assert_eq!(stderr, "e");
        }
        other => panic!("expected a status mismatch, got {:?}", other),
    }
}

#[test]
fn a_later_text_shows_only_where_the_diagnostic_carries_it_anyway() {
    let result = Assert::command(&["prog"])
        .stdout()
        .contains("abc")
        .stdout()
        .contains("b")
        .execute(ran("x", "", 0));
    match result {
        Err(AssertionError::OutputMismatch { expect, stdout, .. }) => {
            assert_eq!(expect, "abc");
            assert_eq!(stdout, "x");
        }
        other => panic!("expected an output mismatch, got {:?}", other),
    }
    let result = Assert::command(&["prog"])
        .stdout()
        .contains("a")
        .stdout()
        .doesnt_contain("b")
        .execute(ran("b\n", "", 0));
    match result {
        Err(AssertionError::OutputMismatch { expect, expected_result, stdout, .. }) => {
            assert_eq!(expect, "a");
            assert!(expected_result);
            assert_eq!(stdout, "b\n");
        }
        other => panic!("expected an output mismatch, got {:?}", other),
    }
}
