//! The human-readable text of a diagnostic.

use vstd::prelude::*;
use crate::errors::{AssertionError, AssertionErrorView};
use crate::output::OutputKind;
use crate::text::{is_substring, lemma_middle_is_substring};

verus! {

/// The words with a single space between neighbours.
pub open spec fn joined(words: Seq<Seq<char>>) -> Seq<char>
    decreases words.len(),
{
    if words.len() == 0 {
        Seq::empty()
    } else if words.len() == 1 {
        words[0]
    } else {
        joined(words.drop_last()) + " "@ + words.last()
    }
}

/// The decimal digit for `d`, which is below ten.
pub open spec fn digit(d: nat) -> Seq<char> {
    if d == 0 {
        "0"@
    } else if d == 1 {
        "1"@
    } else if d == 2 {
        "2"@
    } else if d == 3 {
        "3"@
    } else if d == 4 {
        "4"@
    } else if d == 5 {
        "5"@
    } else if d == 6 {
        "6"@
    } else if d == 7 {
        "7"@
    } else if d == 8 {
        "8"@
    } else {
        "9"@
    }
}

/// `n` in decimal, without leading zeros.
pub open spec fn decimal(n: nat) -> Seq<char>
    decreases n,
{
    if n < 10 {
        digit(n)
    } else {
        decimal(n / 10) + digit(n % 10)
    }
}

/// An exit code as it is shown: in decimal, with a minus sign where it is
/// negative, or `none` where the program ended without a code.
pub open spec fn exit_code_text(code: Option<i32>) -> Seq<char> {
    match code {
        None => "none"@,
        Some(c) => if c < 0 {
            "-"@ + decimal((-c) as nat)
        } else {
            decimal(c as nat)
        },
    }
}

/// Both captured texts, each in full between fences.
pub open spec fn streams_text(stdout: Seq<char>, stderr: Seq<char>) -> Seq<char> {
    "\nstdout=```"@ + stdout + "```\nstderr=```"@ + stderr + "```"@
}

/// The name of a stream.
pub open spec fn kind_text(kind: OutputKind) -> Seq<char> {
    match kind {
        OutputKind::StdOut => "stdout"@,
        OutputKind::StdErr => "stderr"@,
    }
}

/// How a stream was expected to relate to a text.
pub open spec fn relation_text(fuzzy: bool, expected_result: bool) -> Seq<char> {
    if fuzzy {
        if expected_result {
            "contain"@
        } else {
            "not contain"@
        }
    } else {
        if expected_result {
            "be"@
        } else {
            "not be"@
        }
    }
}

impl AssertionErrorView {
    /// The text that describes this diagnostic to a reader.
    pub open spec fn message(self) -> Seq<char> {
        match self {
            AssertionErrorView::CommandNotRunnable { cmd, cause } => {
                "CLI assertion failed: (command `"@ + joined(cmd) + "` could not be run)\ncause="@
                    + cause
            },
            AssertionErrorView::StatusMismatch { cmd, expected_success, stdout, stderr } => {
                "CLI assertion failed: (command `"@ + joined(cmd) + "` expected to "@ + (
                if expected_success {
                    "succeed)\nstatus=failed"@
                } else {
                    "fail)\nstatus=succeeded"@
                }) + streams_text(stdout, stderr)
            },
            AssertionErrorView::ExitCodeMismatch { cmd, expected, got, stdout, stderr } => {
                "CLI assertion failed: (exit code of `"@ + joined(cmd) + "` expected to be `"@
                    + exit_code_text(expected) + "`)\nexit code=`"@ + exit_code_text(got) + "`"@
                    + streams_text(stdout, stderr)
            },
            AssertionErrorView::OutputMismatch {
                cmd,
                kind,
                expect,
                fuzzy,
                expected_result,
                stdout,
                stderr,
            } => {
                "CLI assertion failed: ("@ + kind_text(kind) + " of `"@ + joined(cmd)
                    + "` expected to "@ + relation_text(fuzzy, expected_result) + " `"@ + expect
                    + "`)"@ + streams_text(stdout, stderr)
            },
        }
    }
}

/// Appends the words with a single space between neighbours.
fn append_joined(text: &mut String, words: &Vec<String>)
    ensures
        final(text)@ == old(text)@ + joined(words.deep_view()),
{
    let ghost start = text@;
    let ghost all = words.deep_view();
    let mut i: usize = 0;
    proof {
        assert(all.take(0) =~= Seq::<Seq<char>>::empty());
        assert(start + joined(all.take(0)) =~= start);
    }
    while i < words.len()
        invariant
            i <= words@.len(),
            all == words.deep_view(),
            text@ == start + joined(all.take(i as int)),
        decreases words@.len() - i,
    {
        proof {
            let longer = all.take(i + 1);
            assert(longer.drop_last() =~= all.take(i as int));
            assert(longer.last() == words@[i as int]@);
        }
        if i > 0 {
            text.append(" ");
        }
        text.append(words[i].as_str());
        proof {
            assert(text@ =~= start + joined(all.take(i + 1)));
        }
        i += 1;
    }
    proof {
        assert(all.take(i as int) =~= all);
    }
}

/// The text of one decimal digit.
fn digit_text(d: u8) -> (text: &'static str)
    requires
        d < 10,
    ensures
        text@ == digit(d as nat),
{
    if d == 0 {
        "0"
    } else if d == 1 {
        "1"
    } else if d == 2 {
        "2"
    } else if d == 3 {
        "3"
    } else if d == 4 {
        "4"
    } else if d == 5 {
        "5"
    } else if d == 6 {
        "6"
    } else if d == 7 {
        "7"
    } else if d == 8 {
        "8"
    } else {
        "9"
    }
}

/// Appends `n` in decimal.
fn append_decimal(text: &mut String, n: u32)
    ensures
        final(text)@ == old(text)@ + decimal(n as nat),
    decreases n,
{
    let ghost start = text@;
    if n >= 10 {
        append_decimal(text, n / 10);
    }
    text.append(digit_text((n % 10) as u8));
    proof {
        assert(text@ =~= start + decimal(n as nat));
    }
}

/// Appends an exit code as it is shown.
fn append_exit_code(text: &mut String, code: Option<i32>)
    ensures
        final(text)@ == old(text)@ + exit_code_text(code),
{
    let ghost start = text@;
    match code {
        None => {
            text.append("none");
        },
        Some(c) => {
            let wide: i64 = c as i64;
            if wide < 0 {
                text.append("-");
                append_decimal(text, (0 - wide) as u32);
            } else {
                append_decimal(text, wide as u32);
            }
        },
    }
    proof {
        assert(text@ =~= start + exit_code_text(code));
    }
}

/// Appends both captured texts, each in full between fences.
fn append_streams(text: &mut String, stdout: &String, stderr: &String)
    ensures
        final(text)@ == old(text)@ + streams_text(stdout@, stderr@),
{
    let ghost start = text@;
    text.append("\nstdout=```");
    text.append(stdout.as_str());
    text.append("```\nstderr=```");
    text.append(stderr.as_str());
    text.append("```");
    proof {
        assert(text@ =~= start + streams_text(stdout@, stderr@));
    }
}

impl AssertionError {
    /// The text that describes this diagnostic to a reader: what was
    /// expected of which command, and, where the program ran, everything it
    /// wrote to either stream.
    pub fn message(&self) -> (text: String)
        ensures
            text@ == self@.message(),
    {
        match self {
            AssertionError::CommandNotRunnable { cmd, cause } => {
                let mut text = "CLI assertion failed: (command `".to_owned();
                append_joined(&mut text, cmd);
                text.append("` could not be run)\ncause=");
                text.append(cause.as_str());
                text
            },
            AssertionError::StatusMismatch { cmd, expected_success, stdout, stderr } => {
                let mut text = "CLI assertion failed: (command `".to_owned();
                append_joined(&mut text, cmd);
                text.append("` expected to ");
                if *expected_success {
                    text.append("succeed)\nstatus=failed");
                } else {
                    text.append("fail)\nstatus=succeeded");
                }
                append_streams(&mut text, stdout, stderr);
                text
            },
            AssertionError::ExitCodeMismatch { cmd, expected, got, stdout, stderr } => {
                let mut text = "CLI assertion failed: (exit code of `".to_owned();
                append_joined(&mut text, cmd);
                text.append("` expected to be `");
                append_exit_code(&mut text, *expected);
                text.append("`)\nexit code=`");
                append_exit_code(&mut text, *got);
                text.append("`");
                append_streams(&mut text, stdout, stderr);
                text
            },
            AssertionError::OutputMismatch {
                cmd,
                kind,
                expect,
                fuzzy,
                expected_result,
                stdout,
                stderr,
            } => {
                let mut text = "CLI assertion failed: (".to_owned();
                match kind {
                    OutputKind::StdOut => text.append("stdout"),
                    OutputKind::StdErr => text.append("stderr"),
                }
                text.append(" of `");
                append_joined(&mut text, cmd);
                text.append("` expected to ");
                if *fuzzy {
                    if *expected_result {
                        text.append("contain");
                    } else {
                        text.append("not contain");
                    }
                } else {
                    if *expected_result {
                        text.append("be");
                    } else {
                        text.append("not be");
                    }
                }
                text.append(" `");
                text.append(expect.as_str());
                text.append("`)");
                append_streams(&mut text, stdout, stderr);
                text
            },
        }
    }
}

/// Both captured texts occur in full in what `streams_text` makes of them.
proof fn lemma_streams_text_embeds_both(stdout: Seq<char>, stderr: Seq<char>, before: Seq<char>)
    ensures
        is_substring(stdout, before + streams_text(stdout, stderr)),
        is_substring(stderr, before + streams_text(stdout, stderr)),
{
    let whole = before + streams_text(stdout, stderr);
    let a = before + "\nstdout=```"@;
    let b = "```\nstderr=```"@ + stderr + "```"@;
    lemma_middle_is_substring(a, stdout, b);
    assert(a + stdout + b =~= whole);
    let c = before + "\nstdout=```"@ + stdout + "```\nstderr=```"@;
    lemma_middle_is_substring(c, stderr, "```"@);
    assert(c + stderr + "```"@ =~= whole);
}

/// The message of a diagnostic shows the whole command line and, where the
/// program ran, the whole of both captured texts, so that the failure can be
/// understood without running the command again.
pub proof fn law_message_shows_command_and_streams(diagnostic: AssertionErrorView)
    ensures
        is_substring(joined(diagnostic.cmd()), diagnostic.message()),
        diagnostic.captured() matches Some((stdout, stderr)) ==> is_substring(
            stdout,
            diagnostic.message(),
        ) && is_substring(stderr, diagnostic.message()),
{
    let whole = diagnostic.message();
    match diagnostic {
        AssertionErrorView::CommandNotRunnable { cmd, cause } => {
            let before = "CLI assertion failed: (command `"@;
            let after = "` could not be run)\ncause="@ + cause;
            lemma_middle_is_substring(before, joined(cmd), after);
            assert(before + joined(cmd) + after =~= whole);
        },
        AssertionErrorView::StatusMismatch { cmd, expected_success, stdout, stderr } => {
            let before = "CLI assertion failed: (command `"@;
            let head = before + joined(cmd) + "` expected to "@ + (if expected_success {
                "succeed)\nstatus=failed"@
            } else {
                "fail)\nstatus=succeeded"@
            });
            let after = "` expected to "@ + (if expected_success {
                "succeed)\nstatus=failed"@
            } else {
                "fail)\nstatus=succeeded"@
            }) + streams_text(stdout, stderr);
            lemma_middle_is_substring(before, joined(cmd), after);
            assert(before + joined(cmd) + after =~= whole);
            lemma_streams_text_embeds_both(stdout, stderr, head);
        },
        AssertionErrorView::ExitCodeMismatch { cmd, expected, got, stdout, stderr } => {
            let before = "CLI assertion failed: (exit code of `"@;
            let middle = "` expected to be `"@ + exit_code_text(expected) + "`)\nexit code=`"@
                + exit_code_text(got) + "`"@;
            let after = middle + streams_text(stdout, stderr);
            lemma_middle_is_substring(before, joined(cmd), after);
            assert(before + joined(cmd) + after =~= whole);
            lemma_streams_text_embeds_both(stdout, stderr, before + joined(cmd) + middle);
            assert(before + joined(cmd) + middle + streams_text(stdout, stderr) =~= whole);
        },
        AssertionErrorView::OutputMismatch {
            cmd,
            kind,
            expect,
            fuzzy,
            expected_result,
            stdout,
            stderr,
        } => {
            let before = "CLI assertion failed: ("@ + kind_text(kind) + " of `"@;
            let middle = "` expected to "@ + relation_text(fuzzy, expected_result) + " `"@ + expect
                + "`)"@;
            let after = middle + streams_text(stdout, stderr);
            lemma_middle_is_substring(before, joined(cmd), after);
            assert(before + joined(cmd) + after =~= whole);
            lemma_streams_text_embeds_both(stdout, stderr, before + joined(cmd) + middle);
            assert(before + joined(cmd) + middle + streams_text(stdout, stderr) =~= whole);
        },
    }
}

} // verus!
