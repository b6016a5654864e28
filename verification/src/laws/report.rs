//! Laws of what is shown.

use vstd::prelude::*;
use crate::laws::toolchain::same_filter;
use crate::number::{numeral, signed_numeral};
use crate::ratio::Ratio;
use crate::report::{
    all_passed, boxed_heading, closing_lines, comparison_lines, compiled, failed_errors,
    final_lines, line_view, lines_view, miri_clean, model_lines, of_tier, outcome_lines,
    result_lines, score_lines, tallies, tier_lines, timed_out, with_unsafe, ComparisonRow, Content,
    ContentView, Metric, Pad, Paint, Span, SpanView, Tally, RULE, TABLE_RULE,
};
use crate::task::{ErrorCategory, TaskResult, Tier};

verus! {

/// Text as it is.
pub open spec fn words(text: Seq<char>) -> SpanView {
    SpanView { content: ContentView::Text(text), paint: Paint::Plain, pad: Pad::No }
}

/// Text in a colour.
pub open spec fn colored(text: Seq<char>, paint: Paint) -> SpanView {
    SpanView { content: ContentView::Text(text), paint, pad: Pad::No }
}

/// A number as it is.
pub open spec fn figure(content: ContentView) -> SpanView {
    SpanView { content, paint: Paint::Plain, pad: Pad::No }
}

/// What is seen of a span is its fields.
pub proof fn span_is_seen(s: Span)
    ensures
        s@.paint == s.paint,
        s@.pad == s.pad,
        match s.content {
            Content::Text(t) => s@.content == ContentView::Text(t@),
            Content::Fraction(r, places) => s@.content == ContentView::Fraction(r, places),
            Content::Percent(r) => s@.content == ContentView::Percent(r),
            Content::Average(m, tier) => s@.content == ContentView::Average(m, tier),
        },
{
}

/// What is seen of lines is each span of each line, at its place.
pub proof fn lines_are_seen(lines: Seq<Vec<Span>>)
    ensures
        lines_view(lines).len() == lines.len(),
        forall|i: int|
            0 <= i < lines.len() ==> (#[trigger] lines_view(lines)[i]) == line_view(lines[i]@),
        forall|i: int, k: int|
            0 <= i < lines.len() && 0 <= k < lines[i]@.len() ==> #[trigger] lines_view(lines)[i][k]
                == lines[i]@[k]@,
        forall|i: int|
            0 <= i < lines.len() ==> (#[trigger] lines_view(lines)[i]).len() == lines[i]@.len(),
{
}

/// How many of the results compile.
pub open spec fn n_compiled(results: Seq<TaskResult>) -> nat {
    results.filter(|r: TaskResult| r.compiles).len()
}

/// How many of the results have tests, all of which passed in time.
pub open spec fn n_passed(results: Seq<TaskResult>) -> nat {
    results.filter(
        |r: TaskResult| r.tests_total > 0 && r.tests_passed == r.tests_total && !r.tests_timed_out,
    ).len()
}

/// How many of the results ran out of time.
pub open spec fn n_slow(results: Seq<TaskResult>) -> nat {
    results.filter(|r: TaskResult| r.tests_timed_out).len()
}

/// How many of the results Miri calls clean.
pub open spec fn n_clean(results: Seq<TaskResult>) -> nat {
    results.filter(|r: TaskResult| r.miri_clean is Some && r.miri_clean->0).len()
}

/// How many of the results are of unsafe code.
pub open spec fn n_unsafe(results: Seq<TaskResult>) -> nat {
    results.filter(|r: TaskResult| r.contains_unsafe).len()
}

/// How many of the results are of a tier.
pub open spec fn n_tier(results: Seq<TaskResult>, tier: Tier) -> nat {
    results.filter(|r: TaskResult| r.tier == tier).len()
}

/// The numbers of the outcomes are those of the results that have them.
proof fn lemma_outcomes(results: Seq<TaskResult>)
    ensures
        results.filter(compiled()).len() == n_compiled(results),
        results.filter(all_passed()).len() == n_passed(results),
        results.filter(timed_out()).len() == n_slow(results),
        results.filter(miri_clean()).len() == n_clean(results),
        results.filter(with_unsafe()).len() == n_unsafe(results),
        forall|tier: Tier| #[trigger]
            results.filter(of_tier(tier)).len() == n_tier(results, tier),
        n_compiled(results) <= results.len(),
        n_passed(results) <= results.len(),
        n_slow(results) <= results.len(),
{
    same_filter(results, compiled(), |r: TaskResult| r.compiles);
    same_filter(
        results,
        all_passed(),
        |r: TaskResult|
            r.tests_total > 0 && r.tests_passed == r.tests_total && !r.tests_timed_out,
    );
    same_filter(results, timed_out(), |r: TaskResult| r.tests_timed_out);
    same_filter(results, miri_clean(), |r: TaskResult| r.miri_clean is Some && r.miri_clean->0);
    same_filter(results, with_unsafe(), |r: TaskResult| r.contains_unsafe);
    assert forall|tier: Tier| #[trigger]
        results.filter(of_tier(tier)).len() == n_tier(results, tier) by {
        same_filter(results, of_tier(tier), |r: TaskResult| r.tier == tier);
    }
    broadcast use vstd::seq_lib::group_filter_ensures;

}

/// A tally counts a result for each outcome that its fields show: that it compiles; that it
/// has tests and all of them passed in time; that its tests ran out of time; that Miri calls
/// it clean; that it is unsafe.
pub proof fn tally_counts_outcomes(t: Tally, results: Seq<TaskResult>)
    requires
        tallies(t, results),
    ensures
        t.total == results.len(),
        t.compiled == n_compiled(results),
        t.all_passed == n_passed(results),
        t.timed_out == n_slow(results),
        t.miri_clean == n_clean(results),
        t.with_unsafe == n_unsafe(results),
        t.failed_errors == failed_errors(results),
{
    lemma_outcomes(results);
}

/// One more result adds one to the count of each outcome that it has and nothing to the
/// others; its errors count where it does not compile.
pub proof fn tally_grows_by_a_result(
    t: Tally,
    results: Seq<TaskResult>,
    u: Tally,
    r: TaskResult,
)
    requires
        tallies(t, results),
        tallies(u, results.push(r)),
    ensures
        u.total == t.total + 1,
        u.compiled == t.compiled + if r.compiles {
            1int
        } else {
            0int
        },
        u.all_passed == t.all_passed + if 0 < r.tests_total == r.tests_passed && !r.tests_timed_out {
            1int
        } else {
            0int
        },
        u.timed_out == t.timed_out + if r.tests_timed_out {
            1int
        } else {
            0int
        },
        u.miri_clean == t.miri_clean + if r.miri_clean == Some(true) {
            1int
        } else {
            0int
        },
        u.with_unsafe == t.with_unsafe + if r.contains_unsafe {
            1int
        } else {
            0int
        },
        u.failed_errors == t.failed_errors + if r.compiles {
            0int
        } else {
            r.error_count as int
        },
{
    reveal(Seq::filter);
    assert(results.push(r).drop_last() =~= results);
}

/// The results of a tier are those whose task is of it.
pub proof fn results_of_a_tier(results: Seq<TaskResult>, tier: Tier)
    ensures
        results.filter(of_tier(tier)).len() == n_tier(results, tier),
{
    lemma_outcomes(results);
    assert(results.filter(of_tier(tier)).len() == n_tier(results, tier));
}

/// Where every result has a test that did not pass, none passed all its tests.
pub proof fn failed_tests_are_not_passed(t: Tally, results: Seq<TaskResult>)
    requires
        tallies(t, results),
        forall|i: int|
            0 <= i < results.len() ==> (#[trigger] results[i]).tests_passed
                < results[i].tests_total,
    ensures
        t.all_passed == 0,
{
    lemma_outcomes(results);
    let none = |r: TaskResult| false;
    same_filter(
        results,
        |r: TaskResult|
            r.tests_total > 0 && r.tests_passed == r.tests_total && !r.tests_timed_out,
        none,
    );
    lemma_none_kept(results, none);
}

/// A filter that nothing passes keeps nothing.
proof fn lemma_none_kept<A>(s: Seq<A>, keep: spec_fn(A) -> bool)
    requires
        forall|a: A| !#[trigger] keep(a),
    ensures
        s.filter(keep).len() == 0,
    decreases s.len(),
{
    reveal(Seq::filter);
    if s.len() > 0 {
        lemma_none_kept(s.drop_last(), keep);
    }
}

/// A number behind a label, with a remark behind it.
pub open spec fn numbered(label: Seq<char>, n: nat, remark: Seq<char>) -> Seq<SpanView> {
    seq![words(label), words(numeral(n)), words(remark)]
}

/// A number behind a label, and in percent of a total that is taken as at least 1.
pub open spec fn in_percent(label: Seq<char>, n: nat, total: nat) -> Seq<SpanView> {
    let den: u128 = if total == 0 {
        1
    } else {
        total as u128
    };
    seq![
        words(label),
        words(numeral(n)),
        words(" ("@),
        figure(ContentView::Percent(Ratio { num: n as u128, den })),
        words("%)"@),
    ]
}

/// The summary of a run shows how many results there are and, each behind its own label, how
/// many compile, passed all their tests and are clean; how many ran out of time and are
/// unsafe only where there are any.
pub proof fn summary_shows_the_outcomes(results: Seq<TaskResult>, secs: u64)
    ensures
        ({
            let f = final_lines(results, secs);
            let total = results.len();
            let slow = n_slow(results);
            let bad = n_unsafe(results);
            let a: int = if slow > 0 {
                1
            } else {
                0
            };
            &&& f.len() >= 7 + a
            &&& f[3] == numbered("  Total Tasks:       "@, total, ""@)
            &&& f[4] == in_percent("  Compiled:          "@, n_compiled(results), total)
            &&& f[5] == in_percent("  All Tests Passed:  "@, n_passed(results), total)
            &&& slow > 0 ==> f[6] == numbered("  Timed Out:         "@, slow, " (deadlock?)"@)
            &&& f[6 + a] == numbered("  Miri Clean:        "@, n_clean(results), ""@)
            &&& bad > 0 ==> f[7 + a] == numbered("  Contains Unsafe:   "@, bad, ""@)
            &&& bad == 0 ==> f[7 + a].len() == 0
        }),
{
    lemma_outcomes(results);
    let f = final_lines(results, secs);
    let o = outcome_lines(results);
    let s = score_lines(results);
    let c = closing_lines(results, secs);
    assert(f == o + s + c);
    let slow = n_slow(results);
    let bad = n_unsafe(results);
    let a: int = if slow > 0 {
        1
    } else {
        0
    };
    let b: int = if bad > 0 {
        1
    } else {
        0
    };
    assert(o.len() == 7 + a + b);
    assert(s.len() >= 5);
    assert(f[3] == o[3] && f[4] == o[4] && f[5] == o[5] && f[6] == o[6]);
    assert(f[6 + a] == o[6 + a]);
    if bad > 0 {
        assert(f[7 + a] == o[7 + a]);
    } else {
        assert(f[7 + a] == s[0]);
    }
    assert(o[3] =~= numbered("  Total Tasks:       "@, results.len(), ""@));
    assert(o[4] =~= in_percent("  Compiled:          "@, n_compiled(results), results.len()));
    assert(o[5] =~= in_percent("  All Tests Passed:  "@, n_passed(results), results.len()));
    if slow > 0 {
        assert(o[6] =~= numbered("  Timed Out:         "@, slow, " (deadlock?)"@));
    }
    assert(o[6 + a] =~= numbered("  Miri Clean:        "@, n_clean(results), ""@));
    if bad > 0 {
        assert(o[7 + a] =~= numbered("  Contains Unsafe:   "@, bad, ""@));
    }
}

/// An average behind its label.
pub open spec fn mean(label: Seq<char>, metric: Metric) -> Seq<SpanView> {
    seq![words(label), figure(ContentView::Average(metric, None)), words("/1.00"@)]
}

/// After the outcomes the summary shows the average of each score behind its own label and,
/// where some result does not compile, how many errors those that do not have on average;
/// then how long the run took.
pub proof fn summary_shows_the_scores(results: Seq<TaskResult>, secs: u64)
    requires
        results.len() <= usize::MAX,
    ensures
        ({
            let f = final_lines(results, secs);
            let a: int = if n_slow(results) > 0 {
                1
            } else {
                0
            };
            let b: int = if n_unsafe(results) > 0 {
                1
            } else {
                0
            };
            let failed = results.len() - n_compiled(results);
            let d: int = if failed > 0 {
                1
            } else {
                0
            };
            let k = 7 + a + b;
            let m = k + 5 + d;
            &&& f.len() >= m + 5
            &&& f[k + 1] == mean("  Avg RPI Score:     "@, Metric::Rpi)
            &&& f[k + 2] == mean("  Avg Func. Correct: "@, Metric::FunctionalCorrectness)
            &&& f[k + 3] == mean("  Avg Memory Safety: "@, Metric::MemorySafety)
            &&& f[k + 4] == mean("  Avg Idiom Quality: "@, Metric::IdiomaticQuality)
            &&& failed > 0 ==> f[k + 5] == seq![
                words("  Avg Errors (fail): "@),
                figure(
                    ContentView::Fraction(
                        Ratio { num: failed_errors(results) as u128, den: failed as u128 },
                        1,
                    ),
                ),
                words(" (distance to compilation)"@),
            ]
            &&& f[m + 1] == numbered("  Duration:          "@, secs as nat, "s"@)
        }),
{
    lemma_outcomes(results);
    let f = final_lines(results, secs);
    let o = outcome_lines(results);
    let s = score_lines(results);
    let c = closing_lines(results, secs);
    assert(f == o + s + c);
    let a: int = if n_slow(results) > 0 {
        1
    } else {
        0
    };
    let b: int = if n_unsafe(results) > 0 {
        1
    } else {
        0
    };
    let failed = results.len() - n_compiled(results);
    let d: int = if failed > 0 {
        1
    } else {
        0
    };
    let k = 7 + a + b;
    let m = k + 5 + d;
    assert(o.len() == k);
    assert(s.len() == 5 + d);
    assert(c.len() >= 5);
    assert(f[k + 1] == s[1] && f[k + 2] == s[2] && f[k + 3] == s[3] && f[k + 4] == s[4]);
    assert(f[m + 1] == c[1]);
    assert(s[1] =~= mean("  Avg RPI Score:     "@, Metric::Rpi));
    assert(s[2] =~= mean("  Avg Func. Correct: "@, Metric::FunctionalCorrectness));
    assert(s[3] =~= mean("  Avg Memory Safety: "@, Metric::MemorySafety));
    assert(s[4] =~= mean("  Avg Idiom Quality: "@, Metric::IdiomaticQuality));
    if failed > 0 {
        assert(f[k + 5] == s[5]);
    }
    assert(c[1] =~= numbered("  Duration:          "@, secs as nat, "s"@));
}

/// The errors of results that do not compile add up; those of others do not count.
pub proof fn failed_errors_add_up(results: Seq<TaskResult>, r: TaskResult)
    ensures
        failed_errors(Seq::empty()) == 0,
        r.compiles ==> failed_errors(results.push(r)) == failed_errors(results),
        !r.compiles ==> failed_errors(results.push(r)) == failed_errors(results) + r.error_count,
{
    assert(results.push(r).drop_last() =~= results);
}

/// A tier is shown exactly where there are results of it, with their number.
pub proof fn tier_is_shown(results: Seq<TaskResult>, tier: Tier)
    ensures
        ({
            let n = n_tier(results, tier);
            let label = match tier {
                Tier::AlgorithmicCore => "Tier1: Algorithmic"@,
                Tier::IdiomaticSystems => "Tier2: Idiomatic"@,
                Tier::SafetyCritical => "Tier3: Safety"@,
                Tier::RepositoryArchitecture => "Tier4: Architecture"@,
            };
            &&& n == 0 ==> tier_lines(results, tier).len() == 0
            &&& n > 0 ==> tier_lines(results, tier) == seq![
                seq![
                    words("  "@),
                    SpanView {
                        content: ContentView::Text(label),
                        paint: Paint::Plain,
                        pad: Pad::After(25),
                    },
                    words(" "@),
                    SpanView {
                        content: ContentView::Text(numeral(n)),
                        paint: Paint::Plain,
                        pad: Pad::Before(3),
                    },
                    words(" tasks, avg RPI: "@),
                    figure(ContentView::Average(Metric::Rpi, Some(tier))),
                ],
            ]
        }),
{
    lemma_outcomes(results);
    assert(results.filter(of_tier(tier)).len() == n_tier(results, tier));
}

/// The summary ends with the tiers, in their order.
pub proof fn summary_ends_with_the_tiers(results: Seq<TaskResult>, secs: u64)
    ensures
        ({
            let tiers = tier_lines(results, Tier::AlgorithmicCore) + tier_lines(
                results,
                Tier::IdiomaticSystems,
            ) + tier_lines(results, Tier::SafetyCritical) + tier_lines(
                results,
                Tier::RepositoryArchitecture,
            );
            let f = final_lines(results, secs);
            &&& f.len() >= tiers.len()
            &&& f.skip(f.len() - tiers.len()) == tiers
        }),
{
    let tiers = tier_lines(results, Tier::AlgorithmicCore) + tier_lines(
        results,
        Tier::IdiomaticSystems,
    ) + tier_lines(results, Tier::SafetyCritical) + tier_lines(
        results,
        Tier::RepositoryArchitecture,
    );
    let f = final_lines(results, secs);
    assert(f.skip(f.len() - tiers.len()) =~= tiers);
}

/// The line of a result shows, each behind its own label, whether it compiles, how its tests
/// went, what Clippy and Miri found, and its index.
pub proof fn status_shows_the_result(r: TaskResult)
    ensures
        ({
            let s = result_lines(r)[0];
            &&& s.len() == 11
            &&& s[0] == words("  Compile: "@)
            &&& s[1] == if r.compiles {
                colored("✓"@, Paint::Green)
            } else {
                colored("✗"@, Paint::Red)
            }
            &&& s[2] == words(" | Tests: "@)
            &&& r.tests_timed_out ==> s[3] == colored("TIMEOUT"@, Paint::Red)
            &&& !r.tests_timed_out && r.tests_total > 0 ==> s[3] == words(
                numeral(r.tests_passed as nat) + "/"@ + numeral(r.tests_total as nat),
            )
            &&& !r.tests_timed_out && r.tests_total == 0 ==> s[3] == words("-"@)
            &&& s[4] == words(" | Clippy: "@)
            &&& r.clippy_errors > 0 ==> s[5] == colored(
                numeral(r.clippy_errors as nat) + "E "@ + numeral(r.clippy_warnings as nat) + "W"@,
                Paint::Red,
            )
            &&& r.clippy_errors == 0 && r.clippy_warnings > 0 ==> s[5] == colored(
                numeral(r.clippy_warnings as nat) + "W"@,
                Paint::Yellow,
            )
            &&& r.clippy_errors == 0 && r.clippy_warnings == 0 ==> s[5] == colored(
                "clean"@,
                Paint::Green,
            )
            &&& s[6] == words(" | Miri: "@)
            &&& r.miri_clean == Some(true) ==> s[7] == colored("✓"@, Paint::Green)
            &&& r.miri_clean == Some(false) ==> s[7] == colored("✗"@, Paint::Red)
            &&& r.miri_clean is None ==> s[7] == words("-"@)
            &&& s[8] == words(" | RPI: "@)
            &&& s[9] == figure(ContentView::Fraction(r.scores.rpi, 2))
            &&& s[10] == if r.contains_unsafe {
                colored(" [unsafe]"@, Paint::Yellow)
            } else {
                words(""@)
            }
        }),
{
}

/// Below its line a result that compiles shows nothing. One that does not shows how many
/// errors it has, where it has any, and its first error, where one is known.
pub proof fn failure_shows_its_errors(r: TaskResult)
    ensures
        ({
            let l = result_lines(r);
            let a: int = if r.error_count > 0 {
                1
            } else {
                0
            };
            let known = r.compiler_diagnostics@.len() > 0 || r.compile_errors@.len() > 0;
            let first = if r.compile_errors@.len() > 0 {
                r.compile_errors@[0]@
            } else {
                Seq::empty()
            };
            let d = r.compiler_diagnostics@[0];
            &&& r.compiles ==> l.len() == 1
            &&& !r.compiles ==> l.len() == 1 + a + if known {
                1int
            } else {
                0int
            }
            &&& !r.compiles && r.error_count > 0 ==> l[1] == seq![
                words("  "@),
                colored("Errors:"@, Paint::Red),
                words(
                    " "@ + numeral(r.error_count as nat) + " errors (distance to compilation: "@
                        + numeral(r.error_count as nat) + ")"@,
                ),
            ]
            &&& !r.compiles && r.compiler_diagnostics@.len() > 0 ==> l[1 + a] == seq![
                words("  "@),
                colored("First:"@, Paint::Red),
                words(
                    " ["@ + (if d.code is Some {
                        d.code->0@
                    } else {
                        "--"@
                    }) + "] "@ + category_name(d.category) + ": "@ + first,
                ),
            ]
            &&& !r.compiles && r.compiler_diagnostics@.len() == 0 && r.compile_errors@.len() > 0
                ==> l[1 + a] == seq![
                words("  "@),
                colored("Error:"@, Paint::Red),
                words(" "@ + first),
            ]
        }),
{
}

/// The name of a category.
pub open spec fn category_name(category: ErrorCategory) -> Seq<char> {
    match category {
        ErrorCategory::Syntax => "Syntax"@,
        ErrorCategory::BorrowChecker => "BorrowChecker"@,
        ErrorCategory::TypeMismatch => "TypeMismatch"@,
        ErrorCategory::Lifetime => "Lifetime"@,
        ErrorCategory::UnresolvedImport => "UnresolvedImport"@,
        ErrorCategory::Other => "Other"@,
    }
}

/// Every model is listed, in the order given, and their number behind them.
pub proof fn every_model_is_listed(models: Seq<Seq<char>>)
    ensures
        ({
            let l = model_lines(models);
            &&& models.len() == 0 ==> l.len() == 4 && l[3] == seq![
                words("No models found in database."@),
            ]
            &&& models.len() > 0 ==> l.len() == models.len() + 5
            &&& forall|i: int|
                0 <= i < models.len() ==> #[trigger] l[3 + i] == seq![words("  • "@ + models[i])]
            &&& models.len() > 0 ==> l[models.len() as int + 3].len() == 0
            &&& models.len() > 0 ==> l[models.len() as int + 4] == numbered(
                "Total: "@,
                models.len(),
                " models"@,
            )
        }),
{
    let l = model_lines(models);
    if models.len() > 0 {
        assert(l[models.len() as int + 4] =~= numbered("Total: "@, models.len(), " models"@));
    }
}

/// A column of a table.
pub open spec fn column(text: Seq<char>, paint: Paint, pad: Pad) -> SpanView {
    SpanView { content: ContentView::Text(text), paint, pad }
}

/// A heading stands in bold between two lines.
pub proof fn heading_is_boxed(title: Seq<char>)
    ensures
        boxed_heading(title).len() == 3,
        boxed_heading(title)[0] == seq![colored(RULE@, Paint::Cyan)],
        boxed_heading(title)[1] == seq![
            colored("║"@, Paint::Cyan),
            words(" "@),
            column(title, Paint::Bold, Pad::Around(51)),
            words(" "@),
            colored("║"@, Paint::Cyan),
        ],
        boxed_heading(title)[2] == seq![colored(RULE@, Paint::Cyan)],
{
}

/// Every result of a comparison is shown, in the order given: its model, its index in its
/// colour, whether it compiles, and its tests.
pub proof fn every_model_is_compared(task_id: Seq<char>, rows: Seq<ComparisonRow>)
    ensures
        ({
            let l = comparison_lines(task_id, rows);
            &&& l.len() >= 4
            &&& l.take(3) == boxed_heading("COMPARISON: "@ + task_id)
            &&& rows.len() == 0 ==> l.len() == 4 && l[3] == seq![
                words("No results found for task: "@ + task_id),
            ]
            &&& rows.len() > 0 ==> l.len() == rows.len() + 6
            &&& rows.len() > 0 ==> l[5] == seq![words("  "@), words(TABLE_RULE@)]
            &&& forall|i: int|
                0 <= i < rows.len() ==> #[trigger] l[6 + i] == seq![
                    words("  "@),
                    column(rows[i].model@, Paint::Plain, Pad::After(25)),
                    words(" "@),
                    column(rows[i].rpi@, rows[i].rpi_paint, Pad::Before(8)),
                    words(" "@),
                    if rows[i].compiles {
                        column("✓"@, Paint::Green, Pad::Before(8))
                    } else {
                        column("✗"@, Paint::Red, Pad::Before(8))
                    },
                    words(" "@),
                    column(
                        signed_numeral(rows[i].tests_passed as int) + "/"@ + signed_numeral(
                            rows[i].tests_total as int,
                        ),
                        Paint::Plain,
                        Pad::Before(8),
                    ),
                ]
        }),
{
    let l = comparison_lines(task_id, rows);
    let top = boxed_heading("COMPARISON: "@ + task_id);
    assert(top.len() == 3);
    assert(l.take(3) =~= top);
    if rows.len() > 0 {
        assert forall|i: int| 0 <= i < rows.len() implies #[trigger] l[6 + i]
            == crate::report::comparison_line(rows[i]) by {}
    }
}

} // verus!
