//! The builder that collects a command line and the expectations on its
//! run, and the evaluation of those expectations.

use vstd::prelude::*;
use vstd::slice::slice_subrange;
use std::path::PathBuf;
use crate::capture::ProcessOutput;
use crate::errors::{failure_of, AssertionError};
use crate::output::{OutputAssertion, OutputAssertionView, OutputKind};
use crate::text::{decode_lossy, lossy_text_keeps_valid_utf8};
use crate::verdict::{is_first_unmet, lemma_first_unmet_at, lemma_first_unmet_none};

verus! {

/// `std::path::PathBuf`, carried through as an opaque value: the library
/// stores a working directory and hands it back, and never looks inside.
#[verifier::external_type_specification]
#[verifier::external_body]
pub struct ExPathBuf(PathBuf);

/// Assertions for a specific command.
#[derive(Debug)]
pub struct Assert {
    cmd: Vec<String>,
    current_dir: Option<PathBuf>,
    expect_success: Option<bool>,
    expect_exit_code: Option<i32>,
    expect_output: Vec<OutputAssertion>,
}

/// The mathematical content of an `Assert`.
pub struct AssertView {
    /// The command line; its first entry is the program.
    pub cmd: Seq<Seq<char>>,
    /// The directory to run in; `None` inherits the caller's.
    pub current_dir: Option<PathBuf>,
    /// The required success flag, if any.
    pub expect_success: Option<bool>,
    /// The required exit code, if any.
    pub expect_exit_code: Option<i32>,
    /// The expectations on the output, in the order they were added.
    pub expect_output: Seq<OutputAssertionView>,
}

impl AssertView {
    /// A plan for `cmd` with nothing said yet: it expects success and
    /// nothing else.
    pub open spec fn fresh(cmd: Seq<Seq<char>>) -> AssertView {
        AssertView {
            cmd,
            current_dir: None,
            expect_success: Some(true),
            expect_exit_code: None,
            expect_output: Seq::empty(),
        }
    }

    /// The plan with `args` after the arguments it already has.
    pub open spec fn with_args(self, args: Seq<Seq<char>>) -> AssertView {
        AssertView { cmd: self.cmd + args, ..self }
    }

    /// The plan run in `dir`, whatever directory was set before.
    pub open spec fn in_dir(self, dir: PathBuf) -> AssertView {
        AssertView { current_dir: Some(dir), ..self }
    }

    /// The plan expecting success and no particular exit code.
    pub open spec fn succeeds(self) -> AssertView {
        AssertView { expect_success: Some(true), expect_exit_code: None, ..self }
    }

    /// The plan expecting failure; what is expected of the exit code stays.
    pub open spec fn fails(self) -> AssertView {
        AssertView { expect_success: Some(false), ..self }
    }

    /// The plan expecting failure with exactly the exit code `code`.
    pub open spec fn fails_with(self, code: i32) -> AssertView {
        AssertView { expect_exit_code: Some(code), ..self.fails() }
    }

    /// The plan with one more expectation on the output, after all others.
    pub open spec fn expecting(self, expectation: OutputAssertionView) -> AssertView {
        AssertView { expect_output: self.expect_output.push(expectation), ..self }
    }
}

impl View for Assert {
    type V = AssertView;

    closed spec fn view(&self) -> AssertView {
        AssertView {
            cmd: self.cmd.deep_view(),
            current_dir: self.current_dir,
            expect_success: self.expect_success,
            expect_exit_code: self.expect_exit_code,
            expect_output: self.expect_output.deep_view(),
        }
    }
}

/// `String`s for the texts of `items`, in order.
fn owned_texts(items: &[&str]) -> (texts: Vec<String>)
    ensures
        texts@.len() == items@.len(),
        texts.deep_view() == items.deep_view(),
{
    let mut texts: Vec<String> = Vec::new();
    let mut i: usize = 0;
    while i < items.len()
        invariant
            i <= items@.len(),
            texts@.len() == i,
            forall|j: int| 0 <= j < i ==> texts@[j]@ == items@[j]@,
        decreases items@.len() - i,
    {
        texts.push(items[i].to_owned());
        i += 1;
    }
    proof {
        assert(texts.deep_view() =~= items.deep_view());
    }
    texts
}

/// No expectations on the output yet.
fn no_expectations() -> (none: Vec<OutputAssertion>)
    ensures
        none.deep_view() == Seq::<OutputAssertionView>::empty(),
{
    let none: Vec<OutputAssertion> = Vec::new();
    proof {
        assert(none.deep_view() =~= Seq::<OutputAssertionView>::empty());
    }
    none
}

impl Default for Assert {
    /// Construct an assert using `cargo run --` as command.
    ///
    /// Defaults to asserting _successful_ execution.
    fn default() -> (fresh: Assert)
        ensures
            fresh@ == AssertView::fresh(seq!["cargo"@, "run"@, "--"@]),
    {
        let cmd = owned_texts(&["cargo", "run", "--"]);
        proof {
            assert(cmd.deep_view() =~= seq!["cargo"@, "run"@, "--"@]);
        }
        Assert {
            cmd,
            current_dir: None,
            expect_success: Some(true),
            expect_exit_code: None,
            expect_output: no_expectations(),
        }
    }
}

impl Assert {
    #[verifier::type_invariant]
    spec fn names_a_program(&self) -> bool {
        self.cmd@.len() > 0
    }

    /// Run the crate's main binary.
    ///
    /// Defaults to asserting _successful_ execution.
    pub fn main_binary() -> (fresh: Assert)
        ensures
            fresh@ == AssertView::fresh(seq!["cargo"@, "run"@, "--"@]),
    {
        Assert::default()
    }

    /// Run a specific binary of the current crate.
    ///
    /// Defaults to asserting _successful_ execution.
    pub fn cargo_binary(name: &str) -> (fresh: Assert)
        ensures
            fresh@ == AssertView::fresh(seq!["cargo"@, "run"@, "--bin"@, name@, "--"@]),
    {
        let cmd = owned_texts(&["cargo", "run", "--bin", name, "--"]);
        proof {
            assert(cmd.deep_view() =~= seq!["cargo"@, "run"@, "--bin"@, name@, "--"@]);
        }
        Assert {
            cmd,
            current_dir: None,
            expect_success: Some(true),
            expect_exit_code: None,
            expect_output: no_expectations(),
        }
    }

    /// Run a custom command: `cmd[0]` is the program, the rest are its
    /// arguments.
    ///
    /// Defaults to asserting _successful_ execution.
    pub fn command(cmd: &[&str]) -> (fresh: Assert)
        requires
            cmd@.len() > 0,
        ensures
            fresh@ == AssertView::fresh(cmd.deep_view()),
    {
        Assert {
            cmd: owned_texts(cmd),
            current_dir: None,
            expect_success: Some(true),
            expect_exit_code: None,
            expect_output: no_expectations(),
        }
    }

    /// Add arguments to the command.
    pub fn with_args(self, args: &[&str]) -> (next: Assert)
        ensures
            next@ == self@.with_args(args.deep_view()),
    {
        proof {
            use_type_invariant(&self);
        }
        let Assert { cmd, current_dir, expect_success, expect_exit_code, expect_output } = self;
        let mut cmd = cmd;
        let ghost before = cmd.deep_view();
        let mut i: usize = 0;
        while i < args.len()
            invariant
                i <= args@.len(),
                cmd@.len() > 0,
                cmd.deep_view() == before + args.deep_view().take(i as int),
            decreases args@.len() - i,
        {
            let ghost so_far = cmd.deep_view();
            cmd.push(args[i].to_owned());
            proof {
                assert(cmd.deep_view() =~= so_far.push(args@[i as int]@));
                assert(args.deep_view().take(i + 1) =~= args.deep_view().take(i as int).push(
                    args@[i as int]@,
                ));
            }
            i += 1;
        }
        proof {
            assert(args.deep_view().take(i as int) =~= args.deep_view());
        }
        Assert { cmd, current_dir, expect_success, expect_exit_code, expect_output }
    }

    /// Sets the working directory for the command.
    pub fn current_dir(self, dir: PathBuf) -> (next: Assert)
        ensures
            next@ == self@.in_dir(dir),
    {
        proof {
            use_type_invariant(&self);
        }
        let Assert { cmd, current_dir: _, expect_success, expect_exit_code, expect_output } = self;
        Assert { cmd, current_dir: Some(dir), expect_success, expect_exit_code, expect_output }
    }

    /// Small helper to make chains more readable.
    pub fn and(self) -> (same: Assert)
        ensures
            same@ == self@,
    {
        self
    }

    /// Expect the command to be executed successfully. Drops any
    /// expectation on the exit code.
    pub fn succeeds(self) -> (next: Assert)
        ensures
            next@ == self@.succeeds(),
    {
        proof {
            use_type_invariant(&self);
        }
        let Assert { cmd, current_dir, expect_success: _, expect_exit_code: _, expect_output } =
            self;
        Assert {
            cmd,
            current_dir,
            expect_success: Some(true),
            expect_exit_code: None,
            expect_output,
        }
    }

    /// Expect the command to fail.
    ///
    /// The command must _run_ and fail for this assertion to pass: a
    /// program that cannot be started does not count.
    pub fn fails(self) -> (next: Assert)
        ensures
            next@ == self@.fails(),
    {
        proof {
            use_type_invariant(&self);
        }
        let Assert { cmd, current_dir, expect_success: _, expect_exit_code, expect_output } = self;
        Assert { cmd, current_dir, expect_success: Some(false), expect_exit_code, expect_output }
    }

    /// Expect the command to fail and return a specific error code.
    /// Whatever was expected of status and exit code before is replaced.
    pub fn fails_with(self, expect_exit_code: i32) -> (next: Assert)
        ensures
            next@ == self@.fails_with(expect_exit_code),
    {
        proof {
            use_type_invariant(&self);
        }
        let Assert { cmd, current_dir, expect_success: _, expect_exit_code: _, expect_output } =
            self;
        Assert {
            cmd,
            current_dir,
            expect_success: Some(false),
            expect_exit_code: Some(expect_exit_code),
            expect_output,
        }
    }

    /// Create an assertion for stdout's contents.
    pub fn stdout(self) -> (builder: OutputAssertionBuilder)
        ensures
            builder@ == OutputAssertionBuilderView::start(self@, OutputKind::StdOut),
    {
        OutputAssertionBuilder { assertion: self, kind: OutputKind::StdOut, expected_result: true }
    }

    /// Create an assertion for stderr's contents.
    pub fn stderr(self) -> (builder: OutputAssertionBuilder)
        ensures
            builder@ == OutputAssertionBuilderView::start(self@, OutputKind::StdErr),
    {
        OutputAssertionBuilder { assertion: self, kind: OutputKind::StdErr, expected_result: true }
    }

    /// The program to start: the first entry of the command line.
    pub fn program(&self) -> (program: &String)
        ensures
            self@.cmd.len() > 0,
            program@ == self@.cmd[0],
    {
        proof {
            use_type_invariant(self);
        }
        &self.cmd[0]
    }

    /// The arguments to start the program with: the command line after its
    /// first entry.
    pub fn arguments(&self) -> (arguments: &[String])
        ensures
            self@.cmd.len() > 0,
            arguments.deep_view() == self@.cmd.skip(1),
    {
        proof {
            use_type_invariant(self);
        }
        let arguments = slice_subrange(self.cmd.as_slice(), 1, self.cmd.len());
        proof {
            assert(arguments.deep_view() =~= self.cmd.deep_view().skip(1));
        }
        arguments
    }

    /// The directory to start the program in; `None` to inherit the
    /// caller's.
    pub fn working_dir(&self) -> (dir: Option<&PathBuf>)
        ensures
            dir is Some <==> self@.current_dir is Some,
            dir is Some ==> *dir->0 == self@.current_dir->0,
    {
        self.current_dir.as_ref()
    }

    /// Checks a finished run, given how it exited and the text of its two
    /// streams. Status comes first, then the exit code, then the output
    /// expectations in the order they were added; the first that is not met
    /// decides the diagnostic and nothing after it is looked at.
    pub fn evaluate(
        self,
        success: bool,
        code: Option<i32>,
        stdout: String,
        stderr: String,
    ) -> (result: Result<(), AssertionError>)
        ensures
            failure_of(result) == self@.verdict(success, code, stdout@, stderr@),
    {
        let Assert { cmd, current_dir: _, expect_success, expect_exit_code, expect_output } = self;
        match expect_success {
            Some(wanted) => {
                if wanted != success {
                    return Err(
                        AssertionError::StatusMismatch {
                            cmd,
                            expected_success: wanted,
                            stdout,
                            stderr,
                        },
                    );
                }
            },
            None => {},
        }
        match expect_exit_code {
            Some(wanted) => {
                let same: bool = match code {
                    Some(got) => got == wanted,
                    None => false,
                };
                if !same {
                    return Err(
                        AssertionError::ExitCodeMismatch {
                            cmd,
                            expected: expect_exit_code,
                            got: code,
                            stdout,
                            stderr,
                        },
                    );
                }
            },
            None => {},
        }
        let ghost expectations = expect_output.deep_view();
        let mut i: usize = 0;
        while i < expect_output.len()
            invariant
                i <= expect_output@.len(),
                expectations == expect_output.deep_view(),
                self@.cmd == cmd.deep_view(),
                self@.expect_output == expectations,
                self@.status_met(success),
                self@.exit_code_met(code),
                forall|j: int| 0 <= j < i ==> (#[trigger] expectations[j]).holds(stdout@, stderr@),
            decreases expect_output@.len() - i,
        {
            let checked = expect_output[i].execute(&cmd, &stdout, &stderr);
            proof {
                assert(expectations[i as int] == expect_output@[i as int]@);
            }
            if checked.is_err() {
                proof {
                    assert(is_first_unmet(expectations, stdout@, stderr@, i as int));
                    lemma_first_unmet_at(expectations, stdout@, stderr@, i as int);
                }
                return checked;
            }
            i += 1;
        }
        proof {
            lemma_first_unmet_none(expectations, stdout@, stderr@);
        }
        Ok(())
    }

    /// Checks the assertions against what came of running the command:
    /// either the reason the program could not be started, or the captured
    /// result of its run. Both streams are decoded as UTF-8, with invalid
    /// byte sequences replaced rather than rejected; a stream that is valid
    /// UTF-8 is taken as the text it encodes.
    pub fn execute(self, spawned: Result<ProcessOutput, String>) -> (result: Result<
        (),
        AssertionError,
    >)
        ensures
            failure_of(result) == self@.outcome(spawned),
            spawned matches Ok(output) ==> lossy_text_keeps_valid_utf8(output.stdout@)
                && lossy_text_keeps_valid_utf8(output.stderr@),
    {
        match spawned {
            Err(cause) => {
                let Assert {
                    cmd,
                    current_dir: _,
                    expect_success: _,
                    expect_exit_code: _,
                    expect_output: _,
                } = self;
                Err(AssertionError::CommandNotRunnable { cmd, cause })
            },
            Ok(output) => {
                let stdout = decode_lossy(output.stdout.as_slice());
                let stderr = decode_lossy(output.stderr.as_slice());
                self.evaluate(output.success, output.code, stdout, stderr)
            },
        }
    }
}

/// Assertions for command output.
#[derive(Debug)]
pub struct OutputAssertionBuilder {
    assertion: Assert,
    kind: OutputKind,
    expected_result: bool,
}

/// The mathematical content of an `OutputAssertionBuilder`.
pub struct OutputAssertionBuilderView {
    /// The plan the finished expectation goes to.
    pub assertion: AssertView,
    /// The stream the expectation will examine.
    pub kind: OutputKind,
    /// The truth value the comparison will have to come out with.
    pub expected_result: bool,
}

impl OutputAssertionBuilderView {
    /// A builder on `kind` that has not been negated.
    pub open spec fn start(assertion: AssertView, kind: OutputKind) -> OutputAssertionBuilderView {
        OutputAssertionBuilderView { assertion, kind, expected_result: true }
    }

    /// The builder with the required truth value inverted.
    pub open spec fn negated(self) -> OutputAssertionBuilderView {
        OutputAssertionBuilderView { expected_result: !self.expected_result, ..self }
    }

    /// The expectation this builder makes of `expect`.
    pub open spec fn expectation(self, expect: Seq<char>, fuzzy: bool) -> OutputAssertionView {
        OutputAssertionView {
            expect,
            fuzzy,
            expected_result: self.expected_result,
            kind: self.kind,
        }
    }

    /// The plan with the expectation on containing `expect` added.
    pub open spec fn containing(self, expect: Seq<char>) -> AssertView {
        self.assertion.expecting(self.expectation(expect, true))
    }

    /// The plan with the expectation on being exactly `expect` added.
    pub open spec fn exactly(self, expect: Seq<char>) -> AssertView {
        self.assertion.expecting(self.expectation(expect, false))
    }
}

impl View for OutputAssertionBuilder {
    type V = OutputAssertionBuilderView;

    closed spec fn view(&self) -> OutputAssertionBuilderView {
        OutputAssertionBuilderView {
            assertion: self.assertion@,
            kind: self.kind,
            expected_result: self.expected_result,
        }
    }
}

impl OutputAssertionBuilder {
    /// Hands the finished expectation to the plan.
    fn finish(self, output: &str, fuzzy: bool) -> (next: Assert)
        ensures
            next@ == self@.assertion.expecting(self@.expectation(output@, fuzzy)),
    {
        let OutputAssertionBuilder { assertion, kind, expected_result } = self;
        proof {
            use_type_invariant(&assertion);
        }
        let Assert { cmd, current_dir, expect_success, expect_exit_code, expect_output } =
            assertion;
        let mut expect_output = expect_output;
        let ghost before = expect_output.deep_view();
        let added = OutputAssertion { expect: output.to_owned(), fuzzy, expected_result, kind };
        expect_output.push(added);
        proof {
            assert(expect_output.deep_view() =~= before.push(added@));
        }
        Assert { cmd, current_dir, expect_success, expect_exit_code, expect_output }
    }

    /// Negate the assertion predicate.
    pub fn not(self) -> (negated: OutputAssertionBuilder)
        ensures
            negated@ == self@.negated(),
    {
        let OutputAssertionBuilder { assertion, kind, expected_result } = self;
        OutputAssertionBuilder { assertion, kind, expected_result: !expected_result }
    }

    /// Expect the command's output to **contain** `output`.
    pub fn contains(self, output: &str) -> (next: Assert)
        ensures
            next@ == self@.containing(output@),
    {
        self.finish(output, true)
    }

    /// Expect the command to output **exactly** this `output`.
    pub fn is(self, output: &str) -> (next: Assert)
        ensures
            next@ == self@.exactly(output@),
    {
        self.finish(output, false)
    }

    /// Expect the command's output to not **contain** `output`.
    pub fn doesnt_contain(self, output: &str) -> (next: Assert)
        ensures
            next@ == self@.negated().containing(output@),
    {
        self.not().contains(output)
    }

    /// Expect the command to output to not be **exactly** this `output`.
    pub fn isnt(self, output: &str) -> (next: Assert)
        ensures
            next@ == self@.negated().exactly(output@),
    {
        self.not().is(output)
    }
}

} // verus!
