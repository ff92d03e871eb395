//! What a run amounts to, as mathematics: which expectation, if any, is the
//! first that a finished run does not meet.

use vstd::prelude::*;
use crate::assertion::AssertView;
use crate::capture::ProcessOutput;
use crate::errors::AssertionErrorView;
use crate::output::OutputAssertionView;
use crate::text::lossy_text;

verus! {

/// The expectation at index `i` is not met, and every one before it is.
pub open spec fn is_first_unmet(
    expectations: Seq<OutputAssertionView>,
    stdout: Seq<char>,
    stderr: Seq<char>,
    i: int,
) -> bool {
    &&& 0 <= i < expectations.len()
    &&& !expectations[i].holds(stdout, stderr)
    &&& forall|j: int| 0 <= j < i ==> (#[trigger] expectations[j]).holds(stdout, stderr)
}

/// The index of the first expectation that is not met, if there is one.
pub open spec fn first_unmet(
    expectations: Seq<OutputAssertionView>,
    stdout: Seq<char>,
    stderr: Seq<char>,
) -> Option<int> {
    if exists|i: int| is_first_unmet(expectations, stdout, stderr, i) {
        Some(choose|i: int| is_first_unmet(expectations, stdout, stderr, i))
    } else {
        None
    }
}

impl AssertView {
    /// The exit status is as expected, or nothing is expected of it.
    pub open spec fn status_met(self, success: bool) -> bool {
        self.expect_success matches Some(wanted) ==> wanted == success
    }

    /// The exit code is as expected, or nothing is expected of it. A run
    /// that ended without a code meets no expected code.
    pub open spec fn exit_code_met(self, code: Option<i32>) -> bool {
        self.expect_exit_code is Some ==> self.expect_exit_code == code
    }

    /// The verdict on a finished run, given how it exited and the two
    /// decoded texts: `None` where every expectation is met, else the
    /// diagnostic of the first that is not, in the order status, exit code,
    /// output expectations as they were added.
    pub open spec fn verdict(
        self,
        success: bool,
        code: Option<i32>,
        stdout: Seq<char>,
        stderr: Seq<char>,
    ) -> Option<AssertionErrorView> {
        if !self.status_met(success) {
            Some(
                AssertionErrorView::StatusMismatch {
                    cmd: self.cmd,
                    expected_success: self.expect_success->0,
                    stdout,
                    stderr,
                },
            )
        } else if !self.exit_code_met(code) {
            Some(
                AssertionErrorView::ExitCodeMismatch {
                    cmd: self.cmd,
                    expected: self.expect_exit_code,
                    got: code,
                    stdout,
                    stderr,
                },
            )
        } else {
            match first_unmet(self.expect_output, stdout, stderr) {
                Some(i) => Some(self.expect_output[i].mismatch(self.cmd, stdout, stderr)),
                None => None,
            }
        }
    }

    /// The verdict on an attempt to run the command: the spawn failure where
    /// the program could not be started, else the verdict on the finished
    /// run with both streams decoded lossily.
    pub open spec fn outcome(self, spawned: Result<ProcessOutput, String>) -> Option<
        AssertionErrorView,
    > {
        match spawned {
            Err(cause) => Some(
                AssertionErrorView::CommandNotRunnable { cmd: self.cmd, cause: cause@ },
            ),
            Ok(output) => self.verdict(
                output.success,
                output.code,
                lossy_text(output.stdout@),
                lossy_text(output.stderr@),
            ),
        }
    }
}

/// At most one index is the first unmet expectation.
pub proof fn lemma_first_unmet_is_unique(
    expectations: Seq<OutputAssertionView>,
    stdout: Seq<char>,
    stderr: Seq<char>,
    i: int,
    k: int,
)
    requires
        is_first_unmet(expectations, stdout, stderr, i),
        is_first_unmet(expectations, stdout, stderr, k),
    ensures
        i == k,
{
    if i < k {
        assert(expectations[i].holds(stdout, stderr));
    } else if k < i {
        assert(expectations[k].holds(stdout, stderr));
    }
}

/// An unmet expectation whose predecessors are all met is the one that
/// `first_unmet` names.
pub proof fn lemma_first_unmet_at(
    expectations: Seq<OutputAssertionView>,
    stdout: Seq<char>,
    stderr: Seq<char>,
    i: int,
)
    requires
        is_first_unmet(expectations, stdout, stderr, i),
    ensures
        first_unmet(expectations, stdout, stderr) == Some(i),
{
    let k = choose|k: int| is_first_unmet(expectations, stdout, stderr, k);
    lemma_first_unmet_is_unique(expectations, stdout, stderr, i, k);
}

/// Where every expectation is met, `first_unmet` names none, and the other
/// way round.
pub proof fn lemma_first_unmet_none(
    expectations: Seq<OutputAssertionView>,
    stdout: Seq<char>,
    stderr: Seq<char>,
)
    ensures
        first_unmet(expectations, stdout, stderr) is None <==> forall|j: int|
            0 <= j < expectations.len() ==> (#[trigger] expectations[j]).holds(stdout, stderr),
{
    if forall|j: int|
        0 <= j < expectations.len() ==> (#[trigger] expectations[j]).holds(stdout, stderr) {
        assert forall|i: int| !is_first_unmet(expectations, stdout, stderr, i) by {
            if 0 <= i < expectations.len() {
                assert(expectations[i].holds(stdout, stderr));
            }
        }
    } else {
        lemma_some_unmet_has_first(expectations, stdout, stderr, expectations.len() as int);
    }
}

/// Among the first `n` expectations, either all are met or one of them is
/// the first unmet.
proof fn lemma_some_unmet_has_first(
    expectations: Seq<OutputAssertionView>,
    stdout: Seq<char>,
    stderr: Seq<char>,
    n: int,
)
    requires
        0 <= n <= expectations.len(),
    ensures
        (forall|j: int| 0 <= j < n ==> (#[trigger] expectations[j]).holds(stdout, stderr)) || (
        exists|i: int| i < n && is_first_unmet(expectations, stdout, stderr, i)),
    decreases n,
{
    if n > 0 {
        lemma_some_unmet_has_first(expectations, stdout, stderr, n - 1);
        if forall|j: int| 0 <= j < n - 1 ==> (#[trigger] expectations[j]).holds(stdout, stderr) {
            if !expectations[n - 1].holds(stdout, stderr) {
                assert(is_first_unmet(expectations, stdout, stderr, n - 1));
            }
        } else {
            let i = choose|i: int| i < n - 1 && is_first_unmet(expectations, stdout, stderr, i);
            assert(i < n && is_first_unmet(expectations, stdout, stderr, i));
        }
    }
}

} // verus!
