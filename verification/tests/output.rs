use assert_cli::text::contains_text;
use assert_cli::{Assert, AssertionError, OutputAssertion, OutputKind, ProcessOutput};

fn check(kind: OutputKind, fuzzy: bool, expected_result: bool, expect: &str) -> OutputAssertion {
    OutputAssertion { expect: expect.to_string(), fuzzy, expected_result, kind }
}

#[test]
fn contains_text_finds_a_needle_anywhere() {
    assert!(contains_text("hello world", "hello"));
    assert!(contains_text("hello world", "o w"));
    assert!(contains_text("hello world", "world"));
    assert!(contains_text("hello world", "d"));
    assert!(contains_text("hello world", "hello world"));
    assert!(contains_text("aab", "ab"));
    assert!(contains_text("abababc", "ababc"));
}

#[test]
fn contains_text_rejects_what_is_not_there() {
    assert!(!contains_text("hello world", "worlds"));
    assert!(!contains_text("hello world", "hello world!"));
    assert!(!contains_text("hello world", "ow"));
    assert!(!contains_text("hello", "hellp"));
    assert!(!contains_text("", "a"));
    assert!(!contains_text("abab", "abb"));
    assert!(!contains_text("Hello", "hello"));
}

#[test]
fn the_empty_text_is_contained_in_every_text() {
    assert!(contains_text("hello", ""));
    assert!(contains_text("", ""));
    assert!(contains_text("\n", ""));
}

#[test]
fn contains_text_works_on_characters_not_bytes() {
    assert!(contains_text("naïve café", "ïve c"));
    assert!(contains_text("日本語のテキスト", "語の"));
    assert!(contains_text("a✓b", "✓"));
    assert!(!contains_text("日本語", "本日"));
    assert!(!contains_text("é", "e"));
}

#[test]
fn contains_text_agrees_with_the_standard_library() {
    let texts = ["", "a", "ab", "ba", "aba", "42\n", "line one\nline two\n", "ünïcödé", "\u{FFFD}x"];
    for hay in texts {
        for needle in texts {
            assert_eq!(contains_text(hay, needle), hay.contains(needle), "{:?} in {:?}", needle, hay);
        }
    }
}

#[test]
fn an_expectation_looks_at_its_own_stream() {
    let out = "from stdout".to_string();
    let err = "from stderr".to_string();
    assert!(check(OutputKind::StdOut, true, true, "stdout").is_met_by(&out, &err));
    assert!(!check(OutputKind::StdOut, true, true, "stderr").is_met_by(&out, &err));
    assert!(check(OutputKind::StdErr, true, true, "stderr").is_met_by(&out, &err));
    assert!(!check(OutputKind::StdErr, true, true, "stdout").is_met_by(&out, &err));
    assert!(check(OutputKind::StdErr, false, true, "from stderr").is_met_by(&out, &err));
    assert!(!check(OutputKind::StdErr, false, true, "from stdout").is_met_by(&out, &err));
}

#[test]
fn an_expectation_is_met_when_the_comparison_comes_out_as_required() {
    let out = "42\n".to_string();
    let err = String::new();
    assert!(check(OutputKind::StdOut, true, true, "42").is_met_by(&out, &err));
    assert!(!check(OutputKind::StdOut, true, false, "42").is_met_by(&out, &err));
    assert!(!check(OutputKind::StdOut, true, true, "73").is_met_by(&out, &err));
    assert!(check(OutputKind::StdOut, true, false, "73").is_met_by(&out, &err));
    assert!(!check(OutputKind::StdOut, false, true, "42").is_met_by(&out, &err));
    assert!(check(OutputKind::StdOut, false, false, "42").is_met_by(&out, &err));
    assert!(check(OutputKind::StdOut, false, true, "42\n").is_met_by(&out, &err));
    assert!(!check(OutputKind::StdOut, false, false, "42\n").is_met_by(&out, &err));
    assert!(check(OutputKind::StdErr, false, true, "").is_met_by(&out, &err));
}

#[test]
fn a_met_expectation_executes_to_ok() {
    let cmd = vec!["echo".to_string(), "42".to_string()];
    let out = "42\n".to_string();
    let err = String::new();
    assert!(check(OutputKind::StdOut, true, true, "42").execute(&cmd, &out, &err).is_ok());
    assert!(check(OutputKind::StdErr, true, false, "42").execute(&cmd, &out, &err).is_ok());
}

#[test]
fn an_unmet_expectation_executes_to_its_own_mismatch() {
    let cmd = vec!["echo".to_string(), "42".to_string()];
    let out = "42\n".to_string();
    let err = "warn".to_string();
    match check(OutputKind::StdErr, false, false, "warn").execute(&cmd, &out, &err) {
        Err(AssertionError::OutputMismatch {
            cmd: reported,
            kind,
            expect,
            fuzzy,
            expected_result,
            stdout,
            stderr,
        }) => {
            assert_eq!(reported, cmd);
            assert_eq!(kind, OutputKind::StdErr);
            assert_eq!(expect, "warn");
            assert!(!fuzzy);
            assert!(!expected_result);
            assert_eq!(stdout, "42\n");
            assert_eq!(stderr, "warn");
        }
        other => panic!("expected an output mismatch, got {:?}", other),
    }
}

#[test]
fn invalid_utf8_is_replaced_not_rejected() {
    let output = ProcessOutput {
        stdout: vec![b'a', 0xff, b'b'],
        stderr: vec![0xc3, 0x28],
        success: true,
        code: Some(0),
    };
    let plan = Assert::command(&["prog"]).stdout().is("a\u{FFFD}b").stderr().is("\u{FFFD}(");
    assert!(plan.execute(Ok(output)).is_ok());
}

#[test]
fn invalid_utf8_shows_up_replaced_in_the_diagnostic() {
    let output = ProcessOutput {
        stdout: vec![0xf0, 0x9f, 0x92],
        stderr: vec![b'o', b'k', 0x80],
        success: false,
        code: Some(1),
    };
    match Assert::command(&["prog"]).execute(Ok(output)) {
        Err(AssertionError::StatusMismatch { stdout, stderr, .. }) => {
            assert_eq!(stdout, "\u{FFFD}");
            assert_eq!(stderr, "ok\u{FFFD}");
        }
        other => panic!("expected a status mismatch, got {:?}", other),
    }
}

#[test]
fn valid_utf8_is_decoded_as_it_stands() {
    let output = ProcessOutput {
        stdout: "grüße, 世界 ✓\n".as_bytes().to_vec(),
        stderr: Vec::new(),
        success: true,
        code: Some(0),
    };
    let plan = Assert::command(&["prog"])
        .stdout()
        .is("grüße, 世界 ✓\n")
        .stdout()
        .contains("世界")
        .stdout()
        .doesnt_contain("\u{FFFD}")
        .stderr()
        .is("");
    assert!(plan.execute(Ok(output)).is_ok());
}
