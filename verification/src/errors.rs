//! The diagnostics an assertion run can end in.

use vstd::prelude::*;
use crate::output::OutputKind;
use crate::text::is_substring;

verus! {

/// Why a run did not meet its expectations. Every mismatch carries the full
/// command line and both captured streams, so that the failure can be
/// understood without running the command again.
#[derive(Debug)]
pub enum AssertionError {
    /// The program could not be started at all.
    CommandNotRunnable { cmd: Vec<String>, cause: String },
    /// The program ran, but succeeded where failure was expected or the
    /// other way round.
    StatusMismatch { cmd: Vec<String>, expected_success: bool, stdout: String, stderr: String },
    /// The program ran, but its exit code is not the expected one. `got` is
    /// `None` where the program ended without an exit code.
    ExitCodeMismatch {
        cmd: Vec<String>,
        expected: Option<i32>,
        got: Option<i32>,
        stdout: String,
        stderr: String,
    },
    /// One captured stream did not relate to the expected text as required.
    OutputMismatch {
        cmd: Vec<String>,
        kind: OutputKind,
        expect: String,
        fuzzy: bool,
        expected_result: bool,
        stdout: String,
        stderr: String,
    },
}

/// The mathematical content of an `AssertionError`.
pub enum AssertionErrorView {
    CommandNotRunnable { cmd: Seq<Seq<char>>, cause: Seq<char> },
    StatusMismatch {
        cmd: Seq<Seq<char>>,
        expected_success: bool,
        stdout: Seq<char>,
        stderr: Seq<char>,
    },
    ExitCodeMismatch {
        cmd: Seq<Seq<char>>,
        expected: Option<i32>,
        got: Option<i32>,
        stdout: Seq<char>,
        stderr: Seq<char>,
    },
    OutputMismatch {
        cmd: Seq<Seq<char>>,
        kind: OutputKind,
        expect: Seq<char>,
        fuzzy: bool,
        expected_result: bool,
        stdout: Seq<char>,
        stderr: Seq<char>,
    },
}

impl AssertionErrorView {
    /// The command line the diagnostic is about.
    pub open spec fn cmd(self) -> Seq<Seq<char>> {
        match self {
            AssertionErrorView::CommandNotRunnable { cmd, .. } => cmd,
            AssertionErrorView::StatusMismatch { cmd, .. } => cmd,
            AssertionErrorView::ExitCodeMismatch { cmd, .. } => cmd,
            AssertionErrorView::OutputMismatch { cmd, .. } => cmd,
        }
    }

    /// `text` occurs in something the diagnostic carries: in a word of the
    /// command line, in the expected text or the cause, or in a captured
    /// stream.
    pub open spec fn mentions(self, text: Seq<char>) -> bool {
        ||| exists|w: int| 0 <= w < self.cmd().len() && is_substring(text, #[trigger] self.cmd()[w])
        ||| self matches AssertionErrorView::CommandNotRunnable { cause, .. } && is_substring(
            text,
            cause,
        )
        ||| self matches AssertionErrorView::OutputMismatch { expect, .. } && is_substring(
            text,
            expect,
        )
        ||| self.captured() matches Some((stdout, stderr)) && (is_substring(text, stdout)
            || is_substring(text, stderr))
    }

    /// The two captured texts, standard output first; `None` where the
    /// program never ran.
    pub open spec fn captured(self) -> Option<(Seq<char>, Seq<char>)> {
        match self {
            AssertionErrorView::CommandNotRunnable { .. } => None,
            AssertionErrorView::StatusMismatch { stdout, stderr, .. } => Some((stdout, stderr)),
            AssertionErrorView::ExitCodeMismatch { stdout, stderr, .. } => Some((stdout, stderr)),
            AssertionErrorView::OutputMismatch { stdout, stderr, .. } => Some((stdout, stderr)),
        }
    }
}

impl View for AssertionError {
    type V = AssertionErrorView;

    open spec fn view(&self) -> AssertionErrorView {
        match *self {
            AssertionError::CommandNotRunnable { cmd, cause } => {
                AssertionErrorView::CommandNotRunnable { cmd: cmd.deep_view(), cause: cause@ }
            },
            AssertionError::StatusMismatch { cmd, expected_success, stdout, stderr } => {
                AssertionErrorView::StatusMismatch {
                    cmd: cmd.deep_view(),
                    expected_success,
                    stdout: stdout@,
                    stderr: stderr@,
                }
            },
            AssertionError::ExitCodeMismatch { cmd, expected, got, stdout, stderr } => {
                AssertionErrorView::ExitCodeMismatch {
                    cmd: cmd.deep_view(),
                    expected,
                    got,
                    stdout: stdout@,
                    stderr: stderr@,
                }
            },
            AssertionError::OutputMismatch {
                cmd,
                kind,
                expect,
                fuzzy,
                expected_result,
                stdout,
                stderr,
            } => {
                AssertionErrorView::OutputMismatch {
                    cmd: cmd.deep_view(),
                    kind,
                    expect: expect@,
                    fuzzy,
                    expected_result,
                    stdout: stdout@,
                    stderr: stderr@,
                }
            },
        }
    }
}

/// What a result of a run amounts to: nothing for success, else the content
/// of the diagnostic.
pub open spec fn failure_of(result: Result<(), AssertionError>) -> Option<AssertionErrorView> {
    match result {
        Ok(_) => None,
        Err(e) => Some(e@),
    }
}

} // verus!
