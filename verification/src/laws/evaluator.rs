//! Laws of the evaluation of a task.

use vstd::prelude::*;
use crate::evaluator::{
    after_check, after_clippy, after_miri, after_tests, clamped_quality, correctness_of,
    error_level_count, evaluated, has_unsafe, index_fits, line_count, lint_weight, opens_unsafe,
    quality_of, safety_of, unsafe_at, Evaluation,
};
use crate::laws::task::{computed_index, number};
use crate::laws::toolchain::of_level;
use crate::ratio::Ratio;
use crate::task::{CompilerDiagnostic, Scores, TaskResult};
use crate::text::{lines_of, trim_start_of, white_space};
use crate::text_laws::trimmed_start;
use crate::toolchain::{
    check_view, CargoMessage, CheckResult, ClippyResult, MiriResult, TestResult, Tool,
};

verus! {

/// Each warning weighs 5 and each error 20, however many there are.
pub proof fn lints_add_up(errors: u32, warnings: u32)
    ensures
        lint_weight(0, 0) == 0,
        warnings < u32::MAX ==> lint_weight(errors, (warnings + 1) as u32) == lint_weight(
            errors,
            warnings,
        ) + 5,
        errors < u32::MAX ==> lint_weight((errors + 1) as u32, warnings) == lint_weight(
            errors,
            warnings,
        ) + 20,
{
}

/// Idiomatic quality is what 20 for each error and 5 for each warning leave of 10 for each
/// line, as a share of the 10 for each line; nothing, where they leave nothing.
pub proof fn quality_by_numbers(errors: u32, warnings: u32, lines: nat)
    requires
        0 < lines,
        10 * lines <= u128::MAX,
    ensures
        ({
            let q = quality_of(errors, warnings, lines);
            &&& q.den > 0
            &&& 20 * errors + 5 * warnings <= 10 * lines ==> q.num * (10 * lines) == (10 * lines
                - 20 * errors - 5 * warnings) * q.den
            &&& 20 * errors + 5 * warnings > 10 * lines ==> q.num == 0
            &&& 20 * errors + 5 * warnings <= 10 * lines ==> clamped_quality(
                errors,
                warnings,
                lines,
            ) * (10 * lines) as real == (10 * lines - 20 * errors - 5 * warnings) as real
            &&& 20 * errors + 5 * warnings > 10 * lines ==> clamped_quality(
                errors,
                warnings,
                lines,
            ) == 0real
        }),
{
    let q = quality_of(errors, warnings, lines);
    let scale = (10 * lines) as int;
    let weight = 20 * errors + 5 * warnings;
    assert(q.den == scale);
    let w = weight as real;
    let d = scale as real;
    assert(w / d >= 0real && (w > d ==> w / d > 1real) && (w <= d ==> w / d <= 1real) && (1real - w
        / d) * d == d - w) by (nonlinear_arith)
        requires
            w >= 0real,
            d > 0real,
    ;
    if weight <= scale {
        assert(q.num == scale - weight);
    }
    assert((weight <= scale) == (w <= d));
}

/// The number of lines is that of the text, but at least 1.
pub proof fn lines_are_counted(code: Seq<char>)
    ensures
        lines_of(code).len() > 0 ==> line_count(code) == lines_of(code).len(),
        lines_of(code).len() == 0 ==> line_count(code) == 1,
{
}

/// Functional correctness is the share of the tests that passed; nothing, where there are
/// none or where they ran out of time.
pub proof fn correctness_is_a_share(tests: TestResult)
    ensures
        correctness_of(tests).den > 0,
        tests.total > 0 && !tests.timed_out ==> correctness_of(tests).num * tests.total
            == tests.passed * correctness_of(tests).den,
        tests.total == 0 || tests.timed_out ==> correctness_of(tests).num == 0,
{
    assert(tests.total > 0 && !tests.timed_out ==> correctness_of(tests).num == tests.passed
        && correctness_of(tests).den == tests.total);
}

/// Memory safety is all for a good verdict of Miri, half for a bad one where a test passed,
/// and nothing else.
pub proof fn safety_goes_by_the_verdict(clean: Option<bool>, passed: u32)
    ensures
        safety_of(clean, passed).den > 0,
        clean == Some(true) ==> safety_of(clean, passed).num == safety_of(clean, passed).den,
        clean == Some(false) && passed > 0 ==> 2 * safety_of(clean, passed).num == safety_of(
            clean,
            passed,
        ).den,
        clean == Some(false) && passed == 0 ==> safety_of(clean, passed).num == 0,
        clean is None ==> safety_of(clean, passed).num == 0,
{
}

/// The errors among diagnostics are those of that level.
proof fn lemma_error_levels(diagnostics: Seq<CompilerDiagnostic>)
    ensures
        error_level_count(diagnostics) == diagnostics.filter(
            |d: CompilerDiagnostic| d.level@ == "error"@,
        ).len(),
    decreases diagnostics.len(),
{
    reveal(Seq::filter);
    if diagnostics.len() > 0 {
        lemma_error_levels(diagnostics.drop_last());
    }
}

/// What the check found is recorded, with the number of its errors, and nothing else
/// changes but the scores; the evaluation goes on with Clippy exactly where the check ended
/// well.
pub proof fn check_is_recorded(e: Evaluation, check: CheckResult, elapsed_ms: u64)
    requires
        check.diagnostics@.len() <= u32::MAX,
    ensures
        ({
            let a = after_check(e, check, elapsed_ms);
            let r = a.result;
            &&& a.run_miri == e.run_miri && a.miri_compatible == e.miri_compatible
            &&& a.next == if check.success {
                Some(Tool::Clippy)
            } else {
                None
            }
            &&& r == TaskResult {
                compiles: check.success,
                compile_errors: check.errors,
                compiler_diagnostics: check.diagnostics,
                compilation_time_ms: elapsed_ms,
                error_count: r.error_count,
                scores: r.scores,
                ..e.result
            }
            &&& r.error_count == check.diagnostics@.filter(
                |d: CompilerDiagnostic| d.level@ == "error"@,
            ).len()
            &&& r.scores.compilation.den > 0
            &&& r.scores.compilation.num == if check.success {
                r.scores.compilation.den
            } else {
                0
            }
            &&& r.scores.functional_correctness == e.result.scores.functional_correctness
            &&& r.scores.memory_safety == e.result.scores.memory_safety
            &&& r.scores.idiomatic_quality == e.result.scores.idiomatic_quality
            &&& !check.success ==> r.scores.rpi.num == 0 && r.scores.rpi.den > 0
        }),
{
    lemma_error_levels(check.diagnostics@);
    broadcast use vstd::seq_lib::group_filter_ensures;

    (Ratio { num: 0, den: 1 }).in_unit_value();
}

/// The distance to compilation is the number of errors that the compiler reported.
pub proof fn distance_to_compilation(
    e: Evaluation,
    check: CheckResult,
    elapsed_ms: u64,
    success: bool,
    msgs: Seq<Option<CargoMessage>>,
    stderr: Seq<char>,
)
    requires
        check@ == check_view(success, msgs, stderr),
        msgs.len() <= u32::MAX,
        msgs.filter(of_level("error"@)).len() > 0,
    ensures
        after_check(e, check, elapsed_ms).result.error_count == msgs.filter(
            of_level("error"@),
        ).len(),
{
    crate::laws::toolchain::every_error_is_listed(success, msgs, stderr);
    crate::laws::toolchain::check_result_is_seen(check);
    let ds = check.diagnostics@;
    let is_error = |d: CompilerDiagnostic| d.level@ == "error"@;
    assert forall|i: int| 0 <= i < ds.len() implies is_error(#[trigger] ds[i]) by {
        assert(check@.diagnostics[i].level == "error"@);
    }
    lemma_all_kept(ds, is_error);
    lemma_error_levels(ds);
    broadcast use vstd::seq_lib::group_filter_ensures;

}

/// A filter that every element passes keeps as many.
proof fn lemma_all_kept<A>(s: Seq<A>, keep: spec_fn(A) -> bool)
    requires
        forall|i: int| 0 <= i < s.len() ==> keep(#[trigger] s[i]),
    ensures
        s.filter(keep).len() == s.len(),
    decreases s.len(),
{
    reveal(Seq::filter);
    if s.len() > 0 {
        assert forall|i: int| 0 <= i < s.drop_last().len() implies keep(
            #[trigger] s.drop_last()[i],
        ) by {
            assert(s.drop_last()[i] == s[i]);
        }
        lemma_all_kept(s.drop_last(), keep);
        assert(keep(s[s.len() - 1]));
    }
}

/// What Clippy found is recorded, idiomatic quality goes by the numbers of its errors and
/// warnings and of the lines of the code, and nothing else changes; the tests follow.
pub proof fn clippy_is_recorded(e: Evaluation, clippy: ClippyResult)
    requires
        lines_of(e.result.generated_code@).len() <= u64::MAX,
    ensures
        ({
            let a = after_clippy(e, clippy);
            let r = a.result;
            let n = if lines_of(e.result.generated_code@).len() > 0 {
                lines_of(e.result.generated_code@).len() as int
            } else {
                1
            };
            let left = 10 * n - 20 * clippy.errors - 5 * clippy.warnings;
            let q = r.scores.idiomatic_quality;
            &&& a.run_miri == e.run_miri && a.miri_compatible == e.miri_compatible
            &&& a.next == Some(Tool::Test)
            &&& r == TaskResult {
                clippy_warnings: clippy.warnings,
                clippy_errors: clippy.errors,
                clippy_details: clippy.details,
                clippy_output: clippy.output,
                scores: r.scores,
                ..e.result
            }
            &&& r.scores == Scores { idiomatic_quality: q, ..e.result.scores }
            &&& q.den > 0
            &&& left >= 0 ==> q.num * (10 * n) == left * q.den
            &&& left < 0 ==> q.num == 0
        }),
{
    quality_by_numbers(clippy.errors, clippy.warnings, line_count(e.result.generated_code@));
}

/// What the tests found is recorded, functional correctness is the share that passed, and
/// Miri follows exactly where it was asked for and can run the task. Where it does not, the
/// evaluation is done: memory safety is nothing, and the index weighs the scores.
pub proof fn tests_are_recorded(e: Evaluation, tests: TestResult)
    requires
        e.wf(),
        e.next == Some(Tool::Test),
        tests.passed <= tests.total,
    ensures
        ({
            let a = after_tests(e, tests);
            let r = a.result;
            let s = r.scores;
            let before = e.result.scores;
            let miri = e.run_miri && e.miri_compatible;
            &&& a.run_miri == e.run_miri && a.miri_compatible == e.miri_compatible
            &&& a.next == if miri {
                Some(Tool::Miri)
            } else {
                None
            }
            &&& r == TaskResult {
                tests_passed: tests.passed,
                tests_total: tests.total,
                tests_failed: (tests.total - tests.passed) as u32,
                tests_timed_out: tests.timed_out,
                test_output: tests.output,
                scores: s,
                ..e.result
            }
            &&& s.functional_correctness.den > 0
            &&& tests.total > 0 && !tests.timed_out ==> s.functional_correctness.num * tests.total
                == tests.passed * s.functional_correctness.den
            &&& tests.total == 0 || tests.timed_out ==> s.functional_correctness.num == 0
            &&& s.idiomatic_quality == before.idiomatic_quality && s.compilation
                == before.compilation
            &&& miri ==> s.memory_safety == before.memory_safety && s.rpi == before.rpi
            &&& !miri ==> s.memory_safety.num == 0 && s.memory_safety.den > 0 && s.rpi.den > 0
            &&& !miri ==> 20real * number(s.rpi) == 8real * number(s.functional_correctness)
                + 5real * number(s.idiomatic_quality)
        }),
{
    correctness_is_a_share(tests);
    if !(e.run_miri && e.miri_compatible) {
        let s = Scores {
            functional_correctness: correctness_of(tests),
            memory_safety: safety_of(None, tests.passed),
            ..e.result.scores
        };
        s.compilation.in_unit_value();
        s.memory_safety.in_unit_value();
        index_fits(s);
        computed_index(s);
    }
}

/// What Miri found is recorded, memory safety goes by its verdict, and the evaluation is
/// done: the index weighs the scores.
pub proof fn miri_is_recorded(e: Evaluation, miri: MiriResult)
    requires
        e.wf(),
        e.next == Some(Tool::Miri),
    ensures
        ({
            let a = after_miri(e, miri);
            let r = a.result;
            let s = r.scores;
            let before = e.result.scores;
            &&& a.run_miri == e.run_miri && a.miri_compatible == e.miri_compatible
            &&& a.next is None
            &&& r == TaskResult {
                miri_clean: miri.clean,
                miri_errors: miri.errors,
                miri_output: miri.output,
                scores: s,
                ..e.result
            }
            &&& s.functional_correctness == before.functional_correctness
            &&& s.idiomatic_quality == before.idiomatic_quality
            &&& s.compilation == before.compilation
            &&& s.memory_safety.den > 0 && s.rpi.den > 0
            &&& miri.clean == Some(true) ==> s.memory_safety.num == s.memory_safety.den
            &&& miri.clean == Some(false) && e.result.tests_passed > 0 ==> 2 * s.memory_safety.num
                == s.memory_safety.den
            &&& miri.clean == Some(false) && e.result.tests_passed == 0 ==> s.memory_safety.num == 0
            &&& miri.clean is None ==> s.memory_safety.num == 0
            &&& 20real * number(s.rpi) == 8real * number(s.functional_correctness) + 7real * number(
                s.memory_safety,
            ) + 5real * number(s.idiomatic_quality)
        }),
{
    safety_goes_by_the_verdict(miri.clean, e.result.tests_passed);
    let s = Scores {
        memory_safety: safety_of(miri.clean, e.result.tests_passed),
        ..e.result.scores
    };
    s.compilation.in_unit_value();
    index_fits(s);
    computed_index(s);
}

/// An evaluation runs the check; where it ended well, Clippy and the tests; and then Miri
/// where it was asked for and can run the task.
pub proof fn tools_in_their_order(
    e: Evaluation,
    check: CheckResult,
    elapsed_ms: u64,
    clippy: ClippyResult,
    tests: TestResult,
    miri: MiriResult,
)
    ensures
        ({
            let checked = after_check(e, check, elapsed_ms);
            let tested = after_tests(after_clippy(checked, clippy), tests);
            evaluated(e, check, elapsed_ms, clippy, tests, miri) == if !check.success {
                checked
            } else if e.run_miri && e.miri_compatible {
                after_miri(tested, miri)
            } else {
                tested
            }
        }),
{
}

/// Code is unsafe exactly where the word `unsafe`, which no letter, digit or underscore
/// precedes, is followed by a space, or by white space, if any, and a brace.
pub proof fn unsafe_code_by_characters(code: Seq<char>)
    ensures
        has_unsafe(code) <==> exists|i: int, k: int| #[trigger] marked_unsafe(code, i, k),
{
    reveal_strlit("unsafe");
    if has_unsafe(code) {
        let i = choose|i: int| #[trigger] unsafe_at(code, i) && opens_unsafe(code.skip(i + 6));
        let rest = code.skip(i + 6);
        let word = code.subrange(i, i + 6);
        assert(word == "unsafe"@);
        assert(word[0] == code[i] && word[1] == code[i + 1] && word[2] == code[i + 2] && word[3]
            == code[i + 3] && word[4] == code[i + 4] && word[5] == code[i + 5]);
        if rest.len() > 0 && rest.first() == ' ' {
            assert(marked_unsafe(code, i, i + 6));
        } else {
            trimmed_start(rest);
            let k = rest.len() - trim_start_of(rest).len();
            lemma_cut_is_white(rest);
            assert(rest[k] == '{') by {
                assert(trim_start_of(rest)[0] == rest.skip(k)[0]);
            }
            assert forall|j: int| i + 6 <= j < i + 6 + k implies white_space(#[trigger] code[j]) by {
                assert(rest[j - i - 6] == code[j]);
            }
            assert(marked_unsafe(code, i, i + 6 + k));
        }
    }
    if exists|i: int, k: int| #[trigger] marked_unsafe(code, i, k) {
        let (i, k) = choose|i: int, k: int| #[trigger] marked_unsafe(code, i, k);
        assert(code.subrange(i, i + 6) =~= "unsafe"@);
        let rest = code.skip(i + 6);
        assert(unsafe_at(code, i));
        if code[k] == '{' {
            lemma_cut_to(rest, k - i - 6);
        } else {
            assert(rest.first() == ' ');
        }
        assert(opens_unsafe(rest));
    }
}

/// The word `unsafe` stands in the code at `i`, no letter, digit or underscore precedes it,
/// and at `k` a space follows it, or a brace behind white space.
pub open spec fn marked_unsafe(code: Seq<char>, i: int, k: int) -> bool {
    &&& 0 <= i
    &&& i + 6 <= k < code.len()
    &&& code[i] == 'u' && code[i + 1] == 'n' && code[i + 2] == 's' && code[i + 3] == 'a' && code[i
        + 4] == 'f' && code[i + 5] == 'e'
    &&& i > 0 ==> {
        let c = code[i - 1];
        !('a' <= c <= 'z') && !('A' <= c <= 'Z') && !('0' <= c <= '9') && c != '_'
    }
    &&& code[k] == ' ' && k == i + 6 || code[k] == '{' && forall|j: int|
        i + 6 <= j < k ==> white_space(#[trigger] code[j])
}

/// What is trimmed off the front is white space.
proof fn lemma_cut_is_white(s: Seq<char>)
    ensures
        trim_start_of(s).len() <= s.len(),
        forall|j: int| 0 <= j < s.len() - trim_start_of(s).len() ==> white_space(#[trigger] s[j]),
    decreases s.len(),
{
    if s.len() > 0 && white_space(s.first()) {
        let t = s.drop_first();
        lemma_cut_is_white(t);
        assert forall|j: int| 0 <= j < s.len() - trim_start_of(s).len() implies white_space(
            #[trigger] s[j],
        ) by {
            if j > 0 {
                assert(t[j - 1] == s[j]);
            }
        }
    }
}

/// White space at the front is trimmed off up to a brace.
proof fn lemma_cut_to(s: Seq<char>, k: int)
    requires
        0 <= k < s.len(),
        s[k] == '{',
        forall|j: int| 0 <= j < k ==> white_space(#[trigger] s[j]),
    ensures
        trim_start_of(s).len() > 0,
        trim_start_of(s).first() == '{',
    decreases k,
{
    if k > 0 {
        let t = s.drop_first();
        assert(white_space(s[0]));
        assert(t[k - 1] == s[k]);
        assert forall|j: int| 0 <= j < k - 1 implies white_space(#[trigger] t[j]) by {
            assert(t[j] == s[j + 1]);
        }
        lemma_cut_to(t, k - 1);
    }
}

} // verus!
