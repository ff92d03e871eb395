//! What holds of every plan and every run, proved from the definitions of
//! the builder and of the verdict.

use vstd::prelude::*;
use crate::assertion::{AssertView, OutputAssertionBuilderView};
use crate::capture::ProcessOutput;
use crate::errors::AssertionErrorView;
use crate::output::{OutputAssertionView, OutputKind};
use crate::text::{is_substring, lossy_text};
use crate::verdict::{first_unmet, is_first_unmet, lemma_first_unmet_at, lemma_first_unmet_none};

verus! {

/// A plan that has only just been made expects success and nothing else: a
/// successful run passes whatever it printed and whatever its exit code,
/// and an unsuccessful run is a status mismatch.
pub proof fn law_fresh_plan_expects_success(
    cmd: Seq<Seq<char>>,
    success: bool,
    code: Option<i32>,
    stdout: Seq<char>,
    stderr: Seq<char>,
)
    ensures
        success ==> AssertView::fresh(cmd).verdict(success, code, stdout, stderr) is None,
        !success ==> AssertView::fresh(cmd).verdict(success, code, stdout, stderr) == Some(
            AssertionErrorView::StatusMismatch { cmd, expected_success: true, stdout, stderr },
        ),
{
    lemma_first_unmet_none(AssertView::fresh(cmd).expect_output, stdout, stderr);
}

/// Where success means exit code zero, a plan that has only just been made
/// passes exactly the runs that exit with code zero; every other run is a
/// status mismatch that carries both decoded streams.
pub proof fn law_fresh_plan_passes_on_exit_zero(cmd: Seq<Seq<char>>, output: ProcessOutput)
    requires
        output.is_conventional(),
    ensures
        AssertView::fresh(cmd).outcome(Ok(output)) is None <==> output.code == Some(0i32),
        output.code != Some(0i32) ==> AssertView::fresh(cmd).outcome(Ok(output)) == Some(
            AssertionErrorView::StatusMismatch {
                cmd,
                expected_success: true,
                stdout: lossy_text(output.stdout@),
                stderr: lossy_text(output.stderr@),
            },
        ),
{
    law_fresh_plan_expects_success(
        cmd,
        output.success,
        output.code,
        lossy_text(output.stdout@),
        lossy_text(output.stderr@),
    );
}

/// An expectation added to a plan is looked at last: the verdict of the
/// longer plan is that of the shorter one where that is a failure, and else
/// depends on the added expectation alone.
pub proof fn law_added_expectation_is_checked_last(
    plan: AssertView,
    added: OutputAssertionView,
    success: bool,
    code: Option<i32>,
    stdout: Seq<char>,
    stderr: Seq<char>,
)
    ensures
        plan.verdict(success, code, stdout, stderr) is Some ==> plan.expecting(added).verdict(
            success,
            code,
            stdout,
            stderr,
        ) == plan.verdict(success, code, stdout, stderr),
        plan.verdict(success, code, stdout, stderr) is None ==> plan.expecting(added).verdict(
            success,
            code,
            stdout,
            stderr,
        ) == (if added.holds(stdout, stderr) {
            None
        } else {
            Some(added.mismatch(plan.cmd, stdout, stderr))
        }),
{
    let before = plan.expect_output;
    let after = plan.expecting(added).expect_output;
    let n = before.len() as int;
    if plan.status_met(success) && plan.exit_code_met(code) {
        assert forall|j: int| 0 <= j < n implies after[j] == before[j] by {}
        assert(after[n] == added);
        lemma_first_unmet_none(before, stdout, stderr);
        match first_unmet(before, stdout, stderr) {
            Some(i) => {
                assert(is_first_unmet(before, stdout, stderr, i));
                assert(is_first_unmet(after, stdout, stderr, i));
                lemma_first_unmet_at(after, stdout, stderr, i);
            },
            None => {
                if added.holds(stdout, stderr) {
                    lemma_first_unmet_none(after, stdout, stderr);
                } else {
                    assert(is_first_unmet(after, stdout, stderr, n));
                    lemma_first_unmet_at(after, stdout, stderr, n);
                }
            },
        }
    }
}

/// On a run that meets everything a plan says so far, `contains` passes
/// exactly when the text occurs in the chosen stream, and `is` exactly when
/// the stream equals the text, character for character: nothing is trimmed.
pub proof fn law_contains_and_is(
    plan: AssertView,
    kind: OutputKind,
    expect: Seq<char>,
    success: bool,
    code: Option<i32>,
    stdout: Seq<char>,
    stderr: Seq<char>,
)
    requires
        plan.verdict(success, code, stdout, stderr) is None,
    ensures
        OutputAssertionBuilderView::start(plan, kind).containing(expect).verdict(
            success,
            code,
            stdout,
            stderr,
        ) is None <==> is_substring(expect, kind.select(stdout, stderr)),
        OutputAssertionBuilderView::start(plan, kind).exactly(expect).verdict(
            success,
            code,
            stdout,
            stderr,
        ) is None <==> kind.select(stdout, stderr) == expect,
{
    let builder = OutputAssertionBuilderView::start(plan, kind);
    let fuzzy = builder.expectation(expect, true);
    let exact = builder.expectation(expect, false);
    law_added_expectation_is_checked_last(plan, fuzzy, success, code, stdout, stderr);
    law_added_expectation_is_checked_last(plan, exact, success, code, stdout, stderr);
}

/// `not` turns the expectation that the next finalizer makes into its
/// opposite: the negated expectation is met exactly when the plain one is
/// not. Negating twice changes nothing, and a builder that a stream
/// selector has just made is not negated, so a negation never outlives the
/// finalizer that follows it.
pub proof fn law_not_inverts_the_next_expectation(
    builder: OutputAssertionBuilderView,
    expect: Seq<char>,
    fuzzy: bool,
    stdout: Seq<char>,
    stderr: Seq<char>,
)
    ensures
        builder.negated().expectation(expect, fuzzy) == builder.expectation(
            expect,
            fuzzy,
        ).negated(),
        builder.negated().expectation(expect, fuzzy).holds(stdout, stderr)
            == !builder.expectation(expect, fuzzy).holds(stdout, stderr),
        builder.negated().negated() == builder,
        OutputAssertionBuilderView::start(
            builder.negated().containing(expect),
            builder.kind,
        ).expected_result,
        OutputAssertionBuilderView::start(
            builder.negated().exactly(expect),
            builder.kind,
        ).expected_result,
{
}

/// On a run that meets everything a plan says so far, a negated `contains`
/// passes exactly when the text is absent from the chosen stream, and a
/// negated `is` exactly when the stream differs from the text.
pub proof fn law_negated_contains_and_is(
    plan: AssertView,
    kind: OutputKind,
    expect: Seq<char>,
    success: bool,
    code: Option<i32>,
    stdout: Seq<char>,
    stderr: Seq<char>,
)
    requires
        plan.verdict(success, code, stdout, stderr) is None,
    ensures
        OutputAssertionBuilderView::start(plan, kind).negated().containing(expect).verdict(
            success,
            code,
            stdout,
            stderr,
        ) is None <==> !is_substring(expect, kind.select(stdout, stderr)),
        OutputAssertionBuilderView::start(plan, kind).negated().exactly(expect).verdict(
            success,
            code,
            stdout,
            stderr,
        ) is None <==> kind.select(stdout, stderr) != expect,
{
    let builder = OutputAssertionBuilderView::start(plan, kind).negated();
    let fuzzy = builder.expectation(expect, true);
    let exact = builder.expectation(expect, false);
    law_added_expectation_is_checked_last(plan, fuzzy, success, code, stdout, stderr);
    law_added_expectation_is_checked_last(plan, exact, success, code, stdout, stderr);
}

/// `fails_with` is `fails` with the exit code forced, and it replaces all
/// that `succeeds`, `fails` or an earlier `fails_with` said. `succeeds` in
/// turn drops an expected exit code, and `fails` leaves it alone.
pub proof fn law_fails_with_overrides(plan: AssertView, earlier: i32, code: i32)
    ensures
        plan.fails_with(code) == (AssertView { expect_exit_code: Some(code), ..plan.fails() }),
        plan.fails_with(code).expect_success == Some(false),
        plan.fails_with(code).expect_exit_code == Some(code),
        plan.succeeds().fails_with(code) == plan.fails_with(code),
        plan.fails().fails_with(code) == plan.fails_with(code),
        plan.fails_with(earlier).fails_with(code) == plan.fails_with(code),
        plan.fails_with(earlier).succeeds() == plan.succeeds(),
        plan.succeeds().expect_success == Some(true),
        plan.succeeds().expect_exit_code is None,
        plan.fails().expect_exit_code == plan.expect_exit_code,
{
}

/// Expectations on the output, once added, stay as they are and where they
/// are: no other builder call touches them, and a new one goes to the end.
pub proof fn law_expectations_are_kept_in_order(
    plan: AssertView,
    args: Seq<Seq<char>>,
    code: i32,
    added: OutputAssertionView,
)
    ensures
        plan.with_args(args).expect_output == plan.expect_output,
        plan.succeeds().expect_output == plan.expect_output,
        plan.fails().expect_output == plan.expect_output,
        plan.fails_with(code).expect_output == plan.expect_output,
        plan.expecting(added).expect_output.len() == plan.expect_output.len() + 1,
        plan.expecting(added).expect_output.last() == added,
        plan.expecting(added).expect_output.drop_last() == plan.expect_output,
{
    assert(plan.expect_output.push(added).drop_last() =~= plan.expect_output);
}

/// Fail fast: where status and exit code are as expected, the first
/// expectation on the output that is not met decides the diagnostic.
pub proof fn law_first_unmet_expectation_decides(
    plan: AssertView,
    success: bool,
    code: Option<i32>,
    stdout: Seq<char>,
    stderr: Seq<char>,
    i: int,
)
    requires
        plan.status_met(success),
        plan.exit_code_met(code),
        is_first_unmet(plan.expect_output, stdout, stderr, i),
    ensures
        plan.verdict(success, code, stdout, stderr) == Some(
            plan.expect_output[i].mismatch(plan.cmd, stdout, stderr),
        ),
{
    lemma_first_unmet_at(plan.expect_output, stdout, stderr, i);
}

/// Fail fast, seen from the other side: once a plan fails on a run, no
/// expectations added after it change the diagnostic, whether they would be
/// met or not. Nothing of them reaches it.
pub proof fn law_later_expectations_are_not_looked_at(
    plan: AssertView,
    later: Seq<OutputAssertionView>,
    success: bool,
    code: Option<i32>,
    stdout: Seq<char>,
    stderr: Seq<char>,
)
    requires
        plan.verdict(success, code, stdout, stderr) is Some,
    ensures
        (AssertView { expect_output: plan.expect_output + later, ..plan }).verdict(
            success,
            code,
            stdout,
            stderr,
        ) == plan.verdict(success, code, stdout, stderr),
    decreases later.len(),
{
    let longer = AssertView { expect_output: plan.expect_output + later, ..plan };
    if later.len() == 0 {
        assert(plan.expect_output + later =~= plan.expect_output);
    } else {
        let shorter = AssertView { expect_output: plan.expect_output + later.drop_last(), ..plan };
        law_later_expectations_are_not_looked_at(
            plan,
            later.drop_last(),
            success,
            code,
            stdout,
            stderr,
        );
        assert(longer.expect_output =~= shorter.expect_output.push(later.last()));
        assert(longer == shorter.expecting(later.last()));
        law_added_expectation_is_checked_last(
            shorter,
            later.last(),
            success,
            code,
            stdout,
            stderr,
        );
    }
}

/// Fail fast, as the reader of a diagnostic sees it: the text of an
/// expectation that comes after the first unmet one occurs nowhere in the
/// diagnostic, unless it happens to occur in the command line, in the text
/// of the first unmet expectation or in a captured stream.
pub proof fn law_text_of_later_expectation_stays_out(
    plan: AssertView,
    success: bool,
    code: Option<i32>,
    stdout: Seq<char>,
    stderr: Seq<char>,
    i: int,
    k: int,
)
    requires
        plan.status_met(success),
        plan.exit_code_met(code),
        is_first_unmet(plan.expect_output, stdout, stderr, i),
        i < k < plan.expect_output.len(),
        forall|w: int|
            0 <= w < plan.cmd.len() ==> !is_substring(
                plan.expect_output[k].expect,
                #[trigger] plan.cmd[w],
            ),
        !is_substring(plan.expect_output[k].expect, plan.expect_output[i].expect),
        !is_substring(plan.expect_output[k].expect, stdout),
        !is_substring(plan.expect_output[k].expect, stderr),
    ensures
        plan.verdict(success, code, stdout, stderr) matches Some(diagnostic)
            && !diagnostic.mentions(plan.expect_output[k].expect),
{
    law_first_unmet_expectation_decides(plan, success, code, stdout, stderr, i);
}

/// A program that could not be started is reported as such, with the
/// command line and the cause, whatever the plan expects: it is no
/// mismatch, and it does not count as the failure that `fails` asks for.
pub proof fn law_spawn_failure_is_no_mismatch(plan: AssertView, cause: String, code: i32)
    ensures
        plan.outcome(Err(cause)) == Some(
            AssertionErrorView::CommandNotRunnable { cmd: plan.cmd, cause: cause@ },
        ),
        plan.fails().outcome(Err(cause)) is Some,
        plan.fails_with(code).outcome(Err(cause)) is Some,
{
}

/// Every diagnostic of a finished run names the whole command line and
/// carries both captured texts in full, also where the failed check is on
/// the exit status or the exit code alone.
pub proof fn law_diagnostic_carries_command_and_both_streams(
    plan: AssertView,
    success: bool,
    code: Option<i32>,
    stdout: Seq<char>,
    stderr: Seq<char>,
)
    ensures
        plan.verdict(success, code, stdout, stderr) matches Some(diagnostic) ==> {
            &&& diagnostic.cmd() == plan.cmd
            &&& diagnostic.captured() == Some((stdout, stderr))
        },
{
}

/// The checks come in a fixed order: a status mismatch is reported before
/// anything else, and an exit code mismatch before any output mismatch. A
/// run passes exactly when status, exit code and every expectation on the
/// output are as the plan says.
pub proof fn law_status_then_exit_code_then_output(
    plan: AssertView,
    success: bool,
    code: Option<i32>,
    stdout: Seq<char>,
    stderr: Seq<char>,
)
    ensures
        !plan.status_met(success) <==> plan.verdict(success, code, stdout, stderr) matches Some(
            AssertionErrorView::StatusMismatch { .. },
        ),
        plan.status_met(success) && !plan.exit_code_met(code) <==> plan.verdict(
            success,
            code,
            stdout,
            stderr,
        ) matches Some(AssertionErrorView::ExitCodeMismatch { .. }),
        plan.verdict(success, code, stdout, stderr) is None <==> {
            &&& plan.status_met(success)
            &&& plan.exit_code_met(code)
            &&& forall|j: int|
                0 <= j < plan.expect_output.len() ==> (#[trigger] plan.expect_output[j]).holds(
                    stdout,
                    stderr,
                )
        },
{
    lemma_first_unmet_none(plan.expect_output, stdout, stderr);
}

} // verus!
