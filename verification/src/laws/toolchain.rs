//! Laws of reading the toolchain's output.

use vstd::prelude::*;
use crate::number::{numeral, parse_undoes_decimal, parsed_u32};
use crate::outside::{captures_view, regex_captures, utf8_lossy};
use crate::task::{category_of, ErrorCategory};
use crate::text::{holds, lines_of, occurrences};
use crate::toolchain::{
    check_view, clippy_view, level_count, lint_texts, mentions, mentions_error, miri_outcome,
    miri_view, opt_test_view, reported_error, reported_errors, summary_captures, test_view,
    CargoCompilerMessage, CargoMessage, CheckResult, ClippyResult, MiriResult, MiriRun,
    ProcessOutput, TestResult, SUMMARY_PATTERN,
};

verus! {

/// A filter picks the same where its two conditions agree on every element.
pub proof fn same_filter<A>(s: Seq<A>, p: spec_fn(A) -> bool, q: spec_fn(A) -> bool)
    requires
        forall|i: int| 0 <= i < s.len() ==> p(#[trigger] s[i]) == q(s[i]),
    ensures
        s.filter(p) == s.filter(q),
    decreases s.len(),
{
    reveal(Seq::filter);
    if s.len() > 0 {
        let front = s.drop_last();
        assert forall|i: int| 0 <= i < front.len() implies p(#[trigger] front[i]) == q(
            front[i],
        ) by {
            assert(front[i] == s[i]);
        }
        same_filter(front, p, q);
        assert(p(s[s.len() - 1]) == q(s[s.len() - 1]));
    }
}

/// The line holds a message of the compiler.
pub open spec fn from_compiler(msg: Option<CargoMessage>) -> bool {
    msg matches Some(m) && m.reason matches Some(r) && r@ == "compiler-message"@ && m.message is Some
}

/// The message of the compiler on a line that holds one.
pub open spec fn inner(msg: Option<CargoMessage>) -> CargoCompilerMessage {
    msg->0.message->0
}

/// The line holds a message of the compiler of the given level.
pub open spec fn of_level(level: Seq<char>) -> spec_fn(Option<CargoMessage>) -> bool {
    |msg: Option<CargoMessage>|
        from_compiler(msg) && inner(msg).level is Some && inner(msg).level->0@ == level
}

/// The line holds a warning or an error of the compiler that says something.
pub open spec fn says_lint() -> spec_fn(Option<CargoMessage>) -> bool {
    |msg: Option<CargoMessage>|
        (of_level("warning"@)(msg) || of_level("error"@)(msg)) && inner(msg).message is Some
}

/// The errors reported are those of the lines of level error, in their order.
proof fn lemma_reported(msgs: Seq<Option<CargoMessage>>)
    ensures
        reported_errors(msgs).len() == msgs.filter(of_level("error"@)).len(),
        forall|i: int|
            0 <= i < reported_errors(msgs).len() ==> reported_error(
                msgs.filter(of_level("error"@))[i],
            ) == Some(#[trigger] reported_errors(msgs)[i]),
    decreases msgs.len(),
{
    reveal(Seq::filter);
    if msgs.len() > 0 {
        lemma_reported(msgs.drop_last());
        let picked = msgs.filter(of_level("error"@));
        let before = msgs.drop_last().filter(of_level("error"@));
        assert forall|i: int| 0 <= i < reported_errors(msgs).len() implies reported_error(
            picked[i],
        ) == Some(#[trigger] reported_errors(msgs)[i]) by {
            if i < before.len() {
                assert(picked[i] == before[i]);
                assert(reported_errors(msgs)[i] == reported_errors(msgs.drop_last())[i]);
            }
        }
    }
}

/// Whatever the exit status, every line that holds an error of the compiler gives one
/// diagnostic and one line of text, in the order of the lines, with the error's code, its
/// text and the category of both.
pub proof fn every_error_is_listed(
    success: bool,
    msgs: Seq<Option<CargoMessage>>,
    stderr: Seq<char>,
)
    ensures
        ({
            let found = msgs.filter(of_level("error"@));
            let r = check_view(success, msgs, stderr);
            &&& r.success == success
            &&& found.len() > 0 ==> r.diagnostics.len() == found.len()
            &&& found.len() > 0 ==> r.errors.len() == found.len()
            &&& found.len() > 0 ==> forall|i: int|
                0 <= i < found.len() ==> {
                    let d = #[trigger] r.diagnostics[i];
                    let m = inner(found[i]);
                    &&& d.level == "error"@
                    &&& d.message == if m.message is Some {
                        m.message->0@
                    } else {
                        "unknown error"@
                    }
                    &&& d.code is Some <==> m.code is Some && m.code->0.code is Some
                    &&& d.code is Some ==> d.code->0 == m.code->0.code->0@
                    &&& d.category == category_of(d.code, d.message)
                }
            &&& found.len() > 0 ==> forall|i: int|
                0 <= i < found.len() ==> {
                    let line = #[trigger] r.errors[i];
                    let m = inner(found[i]);
                    &&& m.rendered is None ==> line == r.diagnostics[i].message
                    &&& m.rendered is Some && lines_of(m.rendered->0@).len() > 0 ==> line
                        == lines_of(m.rendered->0@)[0]
                    &&& m.rendered is Some && lines_of(m.rendered->0@).len() == 0 ==> line.len()
                        == 0
                }
        }),
{
    lemma_reported(msgs);
    let found = msgs.filter(of_level("error"@));
    let r = check_view(success, msgs, stderr);
    if found.len() > 0 {
        assert forall|i: int| 0 <= i < found.len() implies r.diagnostics[i] == (
        #[trigger] reported_errors(msgs)[i]).0 && r.errors[i] == reported_errors(msgs)[i].1 by {}
        assert forall|i: int| 0 <= i < found.len() implies of_level("error"@)(
            #[trigger] found[i],
        ) by {
            broadcast use vstd::seq_lib::group_filter_ensures;

            assert(found.contains(found[i]));
        }
        assert forall|i: int| 0 <= i < found.len() implies {
            let d = #[trigger] r.diagnostics[i];
            let m = inner(found[i]);
            &&& d.level == "error"@
            &&& d.message == if m.message is Some {
                m.message->0@
            } else {
                "unknown error"@
            }
            &&& d.code is Some <==> m.code is Some && m.code->0.code is Some
            &&& d.code is Some ==> d.code->0 == m.code->0.code->0@
            &&& d.category == category_of(d.code, d.message)
        } by {
            assert(reported_error(found[i]) == Some(reported_errors(msgs)[i]));
            assert(of_level("error"@)(found[i]));
        }
        assert forall|i: int| 0 <= i < found.len() implies {
            let line = #[trigger] r.errors[i];
            let m = inner(found[i]);
            &&& m.rendered is None ==> line == r.diagnostics[i].message
            &&& m.rendered is Some && lines_of(m.rendered->0@).len() > 0 ==> line == lines_of(
                m.rendered->0@,
            )[0]
            &&& m.rendered is Some && lines_of(m.rendered->0@).len() == 0 ==> line.len() == 0
        } by {
            assert(reported_error(found[i]) == Some(reported_errors(msgs)[i]));
            assert(of_level("error"@)(found[i]));
        }
    }
}

/// A check that ended well and reported no error lists none.
pub proof fn clean_check_lists_nothing(msgs: Seq<Option<CargoMessage>>, stderr: Seq<char>)
    requires
        msgs.filter(of_level("error"@)).len() == 0,
    ensures
        check_view(true, msgs, stderr).diagnostics.len() == 0,
        check_view(true, msgs, stderr).errors.len() == 0,
{
    lemma_reported(msgs);
}

/// A check that failed without reporting an error lists exactly the lines of standard error
/// that mention one, each as it is and as an error of which no more is known.
pub proof fn failed_check_lists_plain_errors(msgs: Seq<Option<CargoMessage>>, stderr: Seq<char>)
    requires
        msgs.filter(of_level("error"@)).len() == 0,
    ensures
        ({
            let r = check_view(false, msgs, stderr);
            &&& r.errors == lines_of(stderr).filter(|line: Seq<char>| holds(line, "error"@))
            &&& r.diagnostics.len() == r.errors.len()
            &&& forall|i: int|
                0 <= i < r.errors.len() ==> {
                    let d = #[trigger] r.diagnostics[i];
                    &&& d.code is None
                    &&& d.message == r.errors[i]
                    &&& d.level == "error"@
                    &&& d.category == ErrorCategory::Other
                }
        }),
{
    lemma_reported(msgs);
    let lines = lines_of(stderr);
    same_filter(lines, mentions_error(), |line: Seq<char>| holds(line, "error"@));
    let r = check_view(false, msgs, stderr);
    assert(r.errors =~= lines.filter(mentions_error()));
}

/// What is seen of a check's result is its fields, entry by entry.
pub proof fn check_result_is_seen(r: CheckResult)
    ensures
        r@.success == r.success,
        r@.errors.len() == r.errors@.len(),
        forall|i: int| 0 <= i < r.errors@.len() ==> #[trigger] r@.errors[i] == r.errors@[i]@,
        r@.diagnostics.len() == r.diagnostics@.len(),
        forall|i: int|
            0 <= i < r.diagnostics@.len() ==> {
                let d = r.diagnostics@[i];
                let v = #[trigger] r@.diagnostics[i];
                &&& v.message == d.message@
                &&& v.level == d.level@
                &&& v.category == d.category
                &&& v.code is Some <==> d.code is Some
                &&& d.code is Some ==> v.code->0 == d.code->0@
            },
{
}

/// The count of a level is the number of lines of that level.
proof fn lemma_level_count(msgs: Seq<Option<CargoMessage>>, level: Seq<char>)
    ensures
        level_count(msgs, level) == msgs.filter(of_level(level)).len(),
    decreases msgs.len(),
{
    reveal(Seq::filter);
    if msgs.len() > 0 {
        lemma_level_count(msgs.drop_last(), level);
    }
}

/// The texts of the lints are those of the lines that say one.
proof fn lemma_lint_texts(msgs: Seq<Option<CargoMessage>>)
    ensures
        lint_texts(msgs).len() == msgs.filter(says_lint()).len(),
        forall|i: int|
            0 <= i < lint_texts(msgs).len() ==> #[trigger] lint_texts(msgs)[i] == inner(
                msgs.filter(says_lint())[i],
            ).message->0@,
    decreases msgs.len(),
{
    reveal(Seq::filter);
    if msgs.len() > 0 {
        lemma_lint_texts(msgs.drop_last());
        let picked = msgs.filter(says_lint());
        let before = msgs.drop_last().filter(says_lint());
        assert forall|i: int| 0 <= i < lint_texts(msgs).len() implies #[trigger] lint_texts(msgs)[i]
            == inner(picked[i]).message->0@ by {
            if i < before.len() {
                assert(picked[i] == before[i]);
                assert(lint_texts(msgs)[i] == lint_texts(msgs.drop_last())[i]);
            }
        }
    }
}

/// Clippy's warnings are the lines that hold a warning of the compiler and its errors those
/// that hold an error; the details are what the first ten of them say, in their order.
pub proof fn every_lint_is_counted(msgs: Seq<Option<CargoMessage>>, stderr: Seq<char>)
    requires
        msgs.len() <= u32::MAX,
        msgs.filter(of_level("warning"@)).len() + msgs.filter(of_level("error"@)).len() > 0,
    ensures
        ({
            let r = clippy_view(msgs, stderr);
            let said = msgs.filter(says_lint());
            &&& r.warnings == msgs.filter(of_level("warning"@)).len()
            &&& r.errors == msgs.filter(of_level("error"@)).len()
            &&& r.details.len() == if said.len() < 10 {
                said.len()
            } else {
                10
            }
            &&& forall|i: int|
                0 <= i < r.details.len() ==> #[trigger] r.details[i] == inner(said[i]).message->0@
            &&& r.output == stderr
        }),
{
    lemma_level_count(msgs, "warning"@);
    lemma_level_count(msgs, "error"@);
    lemma_lint_texts(msgs);
    broadcast use vstd::seq_lib::group_filter_ensures;

    let r = clippy_view(msgs, stderr);
    assert forall|i: int| 0 <= i < r.details.len() implies #[trigger] r.details[i] == inner(
        msgs.filter(says_lint())[i],
    ).message->0@ by {
        assert(r.details[i] == lint_texts(msgs)[i]);
    }
}

/// Where no line holds a warning or an error, Clippy's warnings and errors are counted in
/// plain standard error, and the details are the first ten lines that mention one.
pub proof fn plain_lints_are_counted(msgs: Seq<Option<CargoMessage>>, stderr: Seq<char>)
    requires
        msgs.filter(of_level("warning"@)).len() == 0,
        msgs.filter(of_level("error"@)).len() == 0,
        occurrences(stderr, "warning:"@) <= u32::MAX,
        occurrences(stderr, "error:"@) <= u32::MAX,
    ensures
        ({
            let r = clippy_view(msgs, stderr);
            let said = lines_of(stderr).filter(
                |line: Seq<char>| holds(line, "warning:"@) || holds(line, "error:"@),
            );
            &&& r.warnings == occurrences(stderr, "warning:"@)
            &&& r.errors == occurrences(stderr, "error:"@)
            &&& r.details.len() == if said.len() < 10 {
                said.len()
            } else {
                10
            }
            &&& forall|i: int| 0 <= i < r.details.len() ==> #[trigger] r.details[i] == said[i]
            &&& r.output == stderr
        }),
{
    lemma_level_count(msgs, "warning"@);
    lemma_level_count(msgs, "error"@);
    lemma_lint_texts(msgs);
    lemma_no_lints(msgs);
    same_filter(
        lines_of(stderr),
        mentions("warning:"@, "error:"@),
        |line: Seq<char>| holds(line, "warning:"@) || holds(line, "error:"@),
    );
}

/// Where no line holds a warning or an error, none says one.
proof fn lemma_no_lints(msgs: Seq<Option<CargoMessage>>)
    requires
        msgs.filter(of_level("warning"@)).len() == 0,
        msgs.filter(of_level("error"@)).len() == 0,
    ensures
        msgs.filter(says_lint()).len() == 0,
    decreases msgs.len(),
{
    reveal(Seq::filter);
    if msgs.len() > 0 {
        lemma_no_lints(msgs.drop_last());
    }
}

/// What is seen of a Clippy result is its fields, entry by entry.
pub proof fn clippy_result_is_seen(r: ClippyResult)
    ensures
        r@.warnings == r.warnings,
        r@.errors == r.errors,
        r@.output == r.output@,
        r@.details.len() == r.details@.len(),
        forall|i: int| 0 <= i < r.details@.len() ==> #[trigger] r@.details[i] == r.details@[i]@,
{
}

/// Where a summary counts `p` passed and `f` failed tests, `p` of `p + f` tests passed,
/// whatever the exit status and the rest of the output are.
pub proof fn summary_counts(
    groups: Seq<Option<Seq<char>>>,
    p: u32,
    f: u32,
    success: bool,
    stdout: Seq<char>,
)
    requires
        groups.len() >= 3,
        groups[1] == Some(numeral(p as nat)),
        groups[2] == Some(numeral(f as nat)),
        p + f <= u32::MAX,
    ensures
        test_view(Some(groups), success, stdout) matches Some(t) && t.passed == p && t.total == p
            + f && !t.timed_out && t.output == stdout,
{
    parse_undoes_decimal(p);
    parse_undoes_decimal(f);
}

/// A number of a summary that is missing or cannot be read counts as 0, and there is no
/// result exactly where the sum of the numbers is too large.
pub proof fn unreadable_counts(
    groups: Seq<Option<Seq<char>>>,
    success: bool,
    stdout: Seq<char>,
)
    ensures
        ({
            let p = if groups.len() > 1 && groups[1] is Some && parsed_u32(groups[1]->0) is Some {
                parsed_u32(groups[1]->0)->0 as int
            } else {
                0
            };
            let f = if groups.len() > 2 && groups[2] is Some && parsed_u32(groups[2]->0) is Some {
                parsed_u32(groups[2]->0)->0 as int
            } else {
                0
            };
            let r = test_view(Some(groups), success, stdout);
            &&& r is None <==> p + f > u32::MAX
            &&& r is Some ==> r->0.passed == p && r->0.total == p + f && !r->0.timed_out
                && r->0.output == stdout
        }),
{
}

/// Without a summary a run that says it has no tests has none; any other counts as one test
/// that passed or failed as the run did.
pub proof fn run_without_summary(success: bool, stdout: Seq<char>)
    ensures
        ({
            let r = test_view(None, success, stdout);
            let none = holds(stdout, "running 0 tests"@);
            &&& r is Some
            &&& r->0.total == if none {
                0int
            } else {
                1int
            }
            &&& r->0.passed == if success && !none {
                1int
            } else {
                0int
            }
            &&& !r->0.timed_out
            &&& r->0.output == stdout
        }),
{
}

/// A test run is read by what the summary pattern captures first in its output.
pub proof fn summary_is_captured(stdout: Seq<char>, groups: Option<Seq<Option<Seq<char>>>>)
    requires
        regex_captures(SUMMARY_PATTERN@, stdout) == Some(groups),
    ensures
        summary_captures(stdout) == groups,
{
}

/// What is seen of a test result is its fields.
pub proof fn test_result_is_seen(r: Option<TestResult>)
    ensures
        opt_test_view(r) is Some <==> r is Some,
        r is Some ==> opt_test_view(r)->0.passed == r->0.passed && opt_test_view(r)->0.total
            == r->0.total && opt_test_view(r)->0.timed_out == r->0.timed_out && opt_test_view(
            r,
        )->0.output == r->0.output@,
{
}

/// What is seen of capture groups is the text of each, at its place.
pub proof fn groups_are_seen(captures: Option<Vec<Option<String>>>)
    ensures
        captures_view(captures) is Some <==> captures is Some,
        captures is Some ==> {
            let groups = captures->0@;
            let seen = captures_view(captures)->0;
            &&& seen.len() == groups.len()
            &&& forall|i: int|
                0 <= i < groups.len() ==> ((#[trigger] seen[i]) is Some <==> groups[i] is Some)
            &&& forall|i: int|
                0 <= i < groups.len() && groups[i] is Some ==> (#[trigger] seen[i])->0
                    == groups[i]->0@
        },
{
}

/// Where Miri is not installed there is no verdict. Else the errors are the lines that
/// report undefined behaviour or an error, and the verdict is good exactly where the run
/// ended well and there is no such line.
pub proof fn verdict_of_miri(success: bool, stderr: Seq<char>)
    ensures
        ({
            let r = miri_view(success, stderr);
            let missing = holds(stderr, "can't find crate"@) || holds(
                stderr,
                "no such subcommand"@,
            );
            let bad = lines_of(stderr).filter(
                |line: Seq<char>| holds(line, "Undefined Behavior"@) || holds(line, "error:"@),
            );
            &&& r.output == stderr
            &&& missing ==> r.clean is None && r.errors == seq!["Miri not installed"@]
            &&& !missing ==> r.clean is Some && r.errors == bad
            &&& !missing ==> (r.clean == Some(true) <==> success && bad.len() == 0)
        }),
{
    same_filter(
        lines_of(stderr),
        mentions("Undefined Behavior"@, "error:"@),
        |line: Seq<char>| holds(line, "Undefined Behavior"@) || holds(line, "error:"@),
    );
}

/// A Miri run that could not be started has no verdict, one that ran out of time a bad one,
/// and one that ended the one that its exit status and its standard error give.
pub proof fn verdict_of_a_run(output: ProcessOutput)
    ensures
        miri_outcome(MiriRun::Finished(output)) == miri_view(
            output.success,
            utf8_lossy(output.stderr@),
        ),
        miri_outcome(MiriRun::NotAvailable).clean is None,
        miri_outcome(MiriRun::TimedOut).clean == Some(false),
{
}

/// What is seen of a Miri result is its fields, entry by entry.
pub proof fn miri_result_is_seen(r: MiriResult)
    ensures
        r@.clean == r.clean,
        r@.output == r.output@,
        r@.errors.len() == r.errors@.len(),
        forall|i: int| 0 <= i < r.errors@.len() ==> #[trigger] r@.errors[i] == r.errors@[i]@,
{
}

} // verus!
