//! A single expectation on one captured output stream.

use vstd::prelude::*;
use crate::errors::{failure_of, AssertionError, AssertionErrorView};
use crate::text::{contains_text, is_substring};

verus! {

/// Which captured stream an expectation looks at.
#[derive(Debug, Clone, Copy, PartialEq, Eq, Structural)]
pub enum OutputKind {
    StdOut,
    StdErr,
}

impl OutputKind {
    /// Of the two captured texts, the one of this stream.
    pub open spec fn select(self, stdout: Seq<char>, stderr: Seq<char>) -> Seq<char> {
        match self {
            OutputKind::StdOut => stdout,
            OutputKind::StdErr => stderr,
        }
    }
}

/// One check of a captured stream against an expected text.
#[derive(Debug)]
pub struct OutputAssertion {
    /// The text to look for.
    pub expect: String,
    /// `true`: the stream must contain `expect`; `false`: it must equal it.
    pub fuzzy: bool,
    /// The truth value the comparison has to come out with; `false` negates
    /// the check.
    pub expected_result: bool,
    /// The stream to examine.
    pub kind: OutputKind,
}

/// The mathematical content of an `OutputAssertion`.
pub struct OutputAssertionView {
    pub expect: Seq<char>,
    pub fuzzy: bool,
    pub expected_result: bool,
    pub kind: OutputKind,
}

impl View for OutputAssertion {
    type V = OutputAssertionView;

    open spec fn view(&self) -> OutputAssertionView {
        OutputAssertionView {
            expect: self.expect@,
            fuzzy: self.fuzzy,
            expected_result: self.expected_result,
            kind: self.kind,
        }
    }
}

impl DeepView for OutputAssertion {
    type V = OutputAssertionView;

    open spec fn deep_view(&self) -> OutputAssertionView {
        self@
    }
}

impl OutputAssertionView {
    /// The comparison itself, before negation: containment when fuzzy,
    /// equality otherwise. Nothing is trimmed.
    pub open spec fn raw_outcome(self, text: Seq<char>) -> bool {
        if self.fuzzy {
            is_substring(self.expect, text)
        } else {
            text == self.expect
        }
    }

    /// The expectation is met by the two captured texts.
    pub open spec fn holds(self, stdout: Seq<char>, stderr: Seq<char>) -> bool {
        self.raw_outcome(self.kind.select(stdout, stderr)) == self.expected_result
    }

    /// The same check with the required truth value inverted.
    pub open spec fn negated(self) -> OutputAssertionView {
        OutputAssertionView { expected_result: !self.expected_result, ..self }
    }

    /// The diagnostic for this expectation when it is not met.
    pub open spec fn mismatch(
        self,
        cmd: Seq<Seq<char>>,
        stdout: Seq<char>,
        stderr: Seq<char>,
    ) -> AssertionErrorView {
        AssertionErrorView::OutputMismatch {
            cmd,
            kind: self.kind,
            expect: self.expect,
            fuzzy: self.fuzzy,
            expected_result: self.expected_result,
            stdout,
            stderr,
        }
    }
}

impl OutputAssertion {
    /// Whether the captured texts meet this expectation.
    pub fn is_met_by(&self, stdout: &String, stderr: &String) -> (ok: bool)
        ensures
            ok == self@.holds(stdout@, stderr@),
    {
        let text: &String = match self.kind {
            OutputKind::StdOut => stdout,
            OutputKind::StdErr => stderr,
        };
        let raw: bool = if self.fuzzy {
            contains_text(text.as_str(), self.expect.as_str())
        } else {
            *text == self.expect
        };
        raw == self.expected_result
    }

    /// Checks the captured texts against this expectation. Fails with an
    /// `OutputMismatch` that names this expectation and carries the command
    /// line and both texts, exactly when the expectation is not met.
    pub fn execute(&self, cmd: &Vec<String>, stdout: &String, stderr: &String) -> (result:
        Result<(), AssertionError>)
        ensures
            failure_of(result) == (if self@.holds(stdout@, stderr@) {
                None
            } else {
                Some(self@.mismatch(cmd.deep_view(), stdout@, stderr@))
            }),
    {
        if self.is_met_by(stdout, stderr) {
            Ok(())
        } else {
            let cmd_copy = cmd.clone();
            proof {
                assert(cmd_copy.deep_view() =~= cmd.deep_view());
            }
            Err(
                AssertionError::OutputMismatch {
                    cmd: cmd_copy,
                    kind: self.kind,
                    expect: self.expect.clone(),
                    fuzzy: self.fuzzy,
                    expected_result: self.expected_result,
                    stdout: stdout.clone(),
                    stderr: stderr.clone(),
                },
            )
        }
    }
}

} // verus!
