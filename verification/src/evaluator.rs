//! The evaluation pipeline: which tool runs next, and what its result does to the scores.

use vstd::prelude::*;
use crate::ratio::Ratio;
use crate::task::{
    no_scores, rpi_in_unit, rpi_of, with_rpi, with_rpi_value, CompilerDiagnostic, Scores, Task,
    TaskResult,
};
use crate::text::{
    chars_of, found_at, is_white_space, lines_of, occurs_at, same_text, split_lines, texts,
    trim_start_of,
};
use crate::toolchain::{CheckResult, ClippyResult, MiriResult, TestResult, Tool};

verus! {

/// The settings of the pipeline
#[derive(Debug, Clone, Copy)]
pub struct Evaluator {
    /// Run Miri for safety-critical tasks
    pub run_miri: bool,
    /// Timeout for compilation/tests (seconds)
    pub timeout_secs: u64,
}

/// The evaluation of one task, in progress or done.
#[derive(Debug)]
pub struct Evaluation {
    /// Whether Miri was asked for
    pub run_miri: bool,
    /// Whether Miri can run the task
    pub miri_compatible: bool,
    /// The tool to run next; none when the evaluation is done
    pub next: Option<Tool>,
    /// What is known so far
    pub result: TaskResult,
}

/// How many diagnostics are errors.
pub open spec fn error_level_count(diagnostics: Seq<CompilerDiagnostic>) -> nat
    decreases diagnostics.len(),
{
    if diagnostics.len() == 0 {
        0
    } else {
        error_level_count(diagnostics.drop_last()) + if diagnostics.last().level@ == "error"@ {
            1nat
        } else {
            0nat
        }
    }
}

/// The number of lines of code; empty code counts as one line.
pub open spec fn line_count(code: Seq<char>) -> nat {
    if lines_of(code).len() == 0 {
        1
    } else {
        lines_of(code).len()
    }
}

/// What lints weigh: 20 for an error and 5 for a warning.
pub open spec fn lint_weight(errors: u32, warnings: u32) -> int {
    20 * errors + 5 * warnings
}

/// Idiomatic quality: what the weight of the lints, over 10 for each line, leaves of 1.
pub open spec fn quality_of(errors: u32, warnings: u32, lines: nat) -> Ratio {
    let scale = 10 * lines;
    let weight = lint_weight(errors, warnings);
    Ratio {
        num: if weight >= scale {
            0
        } else {
            (scale - weight) as u128
        },
        den: scale as u128,
    }
}

/// Functional correctness: the share of the tests that passed, nothing where there were
/// none or where they passed the time limit.
pub open spec fn correctness_of(tests: TestResult) -> Ratio {
    if !tests.timed_out && tests.total > 0 {
        Ratio { num: tests.passed as u128, den: tests.total as u128 }
    } else {
        Ratio { num: 0, den: 1 }
    }
}

/// Memory safety: 1 if Miri calls the code clean, one half if tests passed but Miri does
/// not, and 0 otherwise, so also where there is no verdict of Miri.
pub open spec fn safety_of(clean: Option<bool>, passed: u32) -> Ratio {
    match clean {
        Some(true) => Ratio { num: 1, den: 1 },
        Some(false) => if passed > 0 {
            Ratio { num: 1, den: 2 }
        } else {
            Ratio { num: 0, den: 1 }
        },
        None => Ratio { num: 0, den: 1 },
    }
}

/// A character that a word goes on with.
pub open spec fn word_char(c: char) -> bool {
    'a' <= c <= 'z' || 'A' <= c <= 'Z' || '0' <= c <= '9' || c == '_'
}

/// The word `unsafe` stands in the code at position `i`, and not as the end of a longer word.
pub open spec fn unsafe_at(code: Seq<char>, i: int) -> bool {
    occurs_at(code, "unsafe"@, i) && (i > 0 ==> !word_char(code[i - 1]))
}

/// The text begins with a space, or with the brace that opens a block after white space, if
/// any.
pub open spec fn opens_unsafe(rest: Seq<char>) -> bool {
    ||| rest.len() > 0 && rest.first() == ' '
    ||| trim_start_of(rest).len() > 0 && trim_start_of(rest).first() == '{'
}

/// The code contains an `unsafe` block, function or impl: the word, followed by a space or
/// by the brace that opens a block.
pub open spec fn has_unsafe(code: Seq<char>) -> bool {
    exists|i: int| #[trigger] unsafe_at(code, i) && opens_unsafe(code.skip(i + 6))
}

impl Evaluation {
    /// The scores lie between 0 and 1 and are kept in fractions that the index can be
    /// computed from; a tool after the first runs only on code that compiles, and Miri only
    /// where it was asked for and can run; when the evaluation is done, the index is the one
    /// that the other scores give.
    pub open spec fn wf(self) -> bool {
        let s = self.result.scores;
        &&& s.functional_correctness.in_unit()
        &&& s.functional_correctness.den <= u32::MAX
        &&& s.memory_safety.in_unit()
        &&& s.memory_safety.den <= u32::MAX
        &&& s.idiomatic_quality.in_unit()
        &&& s.idiomatic_quality.den <= 10 * u64::MAX
        &&& self.next != Some(Tool::Check) ==> s.compilation == Ratio {
            num: if self.result.compiles {
                1
            } else {
                0
            },
            den: 1,
        }
        &&& self.next is Some && self.next != Some(Tool::Check) ==> self.result.compiles
        &&& self.next == Some(Tool::Miri) ==> self.run_miri && self.miri_compatible
        &&& self.next is None ==> {
            &&& s.rpi.wf()
            &&& s.rpi.value() == rpi_of(
                s.compilation.value(),
                s.functional_correctness.value(),
                s.memory_safety.value(),
                s.idiomatic_quality.value(),
            )
        }
    }
}

/// The evaluation after the check.
pub open spec fn after_check(e: Evaluation, check: CheckResult, elapsed_ms: u64) -> Evaluation {
    let scores = Scores {
        compilation: Ratio {
            num: if check.success {
                1
            } else {
                0
            },
            den: 1,
        },
        ..e.result.scores
    };
    Evaluation {
        next: if check.success {
            Some(Tool::Clippy)
        } else {
            None
        },
        result: TaskResult {
            compilation_time_ms: elapsed_ms,
            compiles: check.success,
            compile_errors: check.errors,
            compiler_diagnostics: check.diagnostics,
            error_count: error_level_count(check.diagnostics@) as u32,
            scores: if check.success {
                scores
            } else {
                with_rpi(scores)
            },
            ..e.result
        },
        ..e
    }
}

/// The evaluation after Clippy.
pub open spec fn after_clippy(e: Evaluation, clippy: ClippyResult) -> Evaluation {
    Evaluation {
        next: Some(Tool::Test),
        result: TaskResult {
            clippy_warnings: clippy.warnings,
            clippy_errors: clippy.errors,
            clippy_details: clippy.details,
            clippy_output: clippy.output,
            scores: Scores {
                idiomatic_quality: quality_of(
                    clippy.errors,
                    clippy.warnings,
                    line_count(e.result.generated_code@),
                ),
                ..e.result.scores
            },
            ..e.result
        },
        ..e
    }
}

/// The evaluation after the tests.
pub open spec fn after_tests(e: Evaluation, tests: TestResult) -> Evaluation {
    let correctness = correctness_of(tests);
    let miri_follows = e.run_miri && e.miri_compatible;
    let scores = Scores { functional_correctness: correctness, ..e.result.scores };
    Evaluation {
        next: if miri_follows {
            Some(Tool::Miri)
        } else {
            None
        },
        result: TaskResult {
            tests_passed: tests.passed,
            tests_total: tests.total,
            tests_failed: (tests.total - tests.passed) as u32,
            tests_timed_out: tests.timed_out,
            test_output: tests.output,
            scores: if miri_follows {
                scores
            } else {
                with_rpi(Scores { memory_safety: safety_of(None, tests.passed), ..scores })
            },
            ..e.result
        },
        ..e
    }
}

/// The evaluation after Miri.
pub open spec fn after_miri(e: Evaluation, miri: MiriResult) -> Evaluation {
    Evaluation {
        next: None,
        result: TaskResult {
            miri_clean: miri.clean,
            miri_errors: miri.errors,
            miri_output: miri.output,
            scores: with_rpi(
                Scores {
                    memory_safety: safety_of(miri.clean, e.result.tests_passed),
                    ..e.result.scores
                },
            ),
            ..e.result
        },
        ..e
    }
}

/// Scores as they are at the end of an evaluation can be turned into an index.
pub proof fn index_fits(s: Scores)
    requires
        s.functional_correctness.in_unit(),
        s.functional_correctness.den <= u32::MAX,
        s.memory_safety.in_unit(),
        s.memory_safety.den <= 2,
        s.idiomatic_quality.in_unit(),
        s.idiomatic_quality.den <= 10 * u64::MAX,
        s.compilation.wf(),
    ensures
        s.wf(),
{
    let fcn = s.functional_correctness.num as int;
    let fcd = s.functional_correctness.den as int;
    let msn = s.memory_safety.num as int;
    let msd = s.memory_safety.den as int;
    let iqn = s.idiomatic_quality.num as int;
    let iqd = s.idiomatic_quality.den as int;
    let pd = s.pair_den();
    let pn = s.pair_num();
    assert(0 <= pn <= 15 * pd && 0 < pd <= 2 * u32::MAX) by {
        if fcd != msd {
            assert(0 < fcd * msd <= u32::MAX * 2 && 0 <= fcn * msd <= fcd * msd && 0 <= msn * fcd
                <= fcd * msd) by (nonlinear_arith)
                requires
                    0 < fcd <= u32::MAX,
                    0 < msd <= 2,
                    0 <= fcn <= fcd,
                    0 <= msn <= msd,
            ;
        }
    }
    assert(0 < pd * iqd <= (2 * u32::MAX) * (10 * u64::MAX) && pn * iqd <= 15 * (pd * iqd) && iqn
        * pd <= pd * iqd) by (nonlinear_arith)
        requires
            0 < pd <= 2 * u32::MAX,
            0 < iqd <= 10 * u64::MAX,
            0 <= pn <= 15 * pd,
            0 <= iqn <= iqd,
    ;
}

impl Evaluator {
    pub fn new(run_miri: bool, timeout_secs: u64) -> (e: Evaluator)
        ensures
            e.run_miri == run_miri,
            e.timeout_secs == timeout_secs,
    {
        Evaluator { run_miri, timeout_secs }
    }

    /// The time limit of a Miri run in seconds. Miri is slow: three times the limit of the
    /// tests.
    pub fn miri_timeout_secs(&self) -> (secs: u64)
        requires
            self.timeout_secs * 3 <= u64::MAX,
        ensures
            secs == self.timeout_secs * 3,
    {
        self.timeout_secs * 3
    }

    /// Begins the evaluation of the code generated for a task.
    pub fn evaluate(&self, task: &Task, generated_code: &str) -> (e: Evaluation)
        ensures
            e.wf(),
            e.run_miri == self.run_miri,
            e.miri_compatible == task.miri_compatible,
            e.next == Some(Tool::Check),
            e.result.task_id == task.task_id,
            e.result.tier == task.tier,
            e.result.generated_code@ == generated_code@,
            e.result.contains_unsafe == has_unsafe(generated_code@),
            !e.result.compiles,
            e.result.compile_errors@ == Seq::<String>::empty(),
            e.result.compiler_diagnostics@ == Seq::<CompilerDiagnostic>::empty(),
            e.result.error_count == 0,
            e.result.tests_passed == 0,
            e.result.tests_total == 0,
            e.result.tests_failed == 0,
            !e.result.tests_timed_out,
            e.result.test_output@ == Seq::<char>::empty(),
            e.result.clippy_warnings == 0,
            e.result.clippy_errors == 0,
            e.result.clippy_details@ == Seq::<String>::empty(),
            e.result.clippy_output@ == Seq::<char>::empty(),
            e.result.miri_clean == None::<bool>,
            e.result.miri_errors@ == Seq::<String>::empty(),
            e.result.miri_output@ == Seq::<char>::empty(),
            e.result.generation_time_ms == 0,
            e.result.compilation_time_ms == 0,
            e.result.scores == no_scores(),
    {
        let mut result = TaskResult::new(task.task_id.clone(), task.tier);
        result.generated_code = generated_code.to_owned();
        result.contains_unsafe = contains_unsafe(generated_code);
        Evaluation {
            run_miri: self.run_miri,
            miri_compatible: task.miri_compatible,
            next: Some(Tool::Check),
            result,
        }
    }
}

/// Whether a word goes on with a character.
fn is_word_char(c: char) -> (r: bool)
    ensures
        r == word_char(c),
{
    ('a' <= c && c <= 'z') || ('A' <= c && c <= 'Z') || ('0' <= c && c <= '9') || c == '_'
}

/// Whether the characters from a position on begin with a space, or with a brace after white
/// space, if any.
fn opens_at(chars: &Vec<char>, at: usize) -> (r: bool)
    requires
        at <= chars@.len(),
    ensures
        r == opens_unsafe(chars@.skip(at as int)),
{
    if at < chars.len() && chars[at] == ' ' {
        return true;
    }
    let mut k: usize = at;
    while k < chars.len() && is_white_space(chars[k])
        invariant
            at <= k <= chars@.len(),
            trim_start_of(chars@.skip(k as int)) == trim_start_of(chars@.skip(at as int)),
        decreases chars@.len() - k,
    {
        assert(chars@.skip(k as int).drop_first() =~= chars@.skip(k + 1));
        k += 1;
    }
    k < chars.len() && chars[k] == '{'
}

/// Whether code contains an `unsafe` block, function or impl.
pub fn contains_unsafe(code: &str) -> (r: bool)
    ensures
        r == has_unsafe(code@),
{
    let chars = chars_of(code);
    let word = chars_of("unsafe");
    proof {
        reveal_strlit("unsafe");
    }
    let mut i: usize = 0;
    while i < chars.len()
        invariant
            i <= chars@.len(),
            chars@ == code@,
            word@ == "unsafe"@,
            word@.len() == 6,
            forall|j: int|
                0 <= j < i && #[trigger] unsafe_at(code@, j) ==> !opens_unsafe(code@.skip(j + 6)),
        decreases chars@.len() - i,
    {
        if found_at(&chars, &word, i) && (i == 0 || !is_word_char(chars[i - 1])) {
            assert(unsafe_at(code@, i as int));
            if opens_at(&chars, i + 6) {
                return true;
            }
        }
        i += 1;
    }
    false
}

/// How many diagnostics are errors.
fn count_errors(diagnostics: &Vec<CompilerDiagnostic>) -> (n: usize)
    ensures
        n == error_level_count(diagnostics@),
{
    let mut n: usize = 0;
    let mut i: usize = 0;
    while i < diagnostics.len()
        invariant
            n <= i <= diagnostics@.len(),
            n == error_level_count(diagnostics@.take(i as int)),
        decreases diagnostics@.len() - i,
    {
        assert(diagnostics@.take(i + 1).drop_last() =~= diagnostics@.take(i as int));
        if same_text(diagnostics[i].level.as_str(), "error") {
            n += 1;
        }
        i += 1;
    }
    assert(diagnostics@.take(i as int) =~= diagnostics@);
    n
}

/// The number of lines of code; empty code counts as one line.
fn count_lines(code: &str) -> (n: usize)
    ensures
        n == line_count(code@),
{
    let lines = split_lines(code);
    assert(texts(lines@).len() == lines@.len());
    if lines.len() == 0 {
        1
    } else {
        lines.len()
    }
}

/// Idiomatic quality of code of the given number of lines: 1, less the weight of its lints
/// over 10 for each line, but never below 0.
pub fn idiomatic_quality(errors: u32, warnings: u32, lines: usize) -> (q: Ratio)
    requires
        lines > 0,
    ensures
        q == quality_of(errors, warnings, lines as nat),
        q.in_unit(),
        q.value() == clamped_quality(errors, warnings, lines as nat),
{
    let scale: u128 = 10 * lines as u128;
    let weight: u128 = 20 * errors as u128 + 5 * warnings as u128;
    let q = Ratio { num: if weight >= scale { 0 } else { scale - weight }, den: scale };
    proof {
        quality_is_clamped(errors, warnings, lines as nat);
    }
    q
}

/// Memory safety of code of which the given number of tests passed, from Miri's verdict.
pub fn memory_safety(clean: Option<bool>, passed: u32) -> (m: Ratio)
    ensures
        m == safety_of(clean, passed),
        m.in_unit(),
{
    match clean {
        Some(true) => Ratio::one(),
        Some(false) => if passed > 0 {
            Ratio { num: 1, den: 2 }
        } else {
            Ratio::zero()
        },
        None => Ratio::zero(),
    }
}

/// Idiomatic quality as a number.
pub open spec fn clamped_quality(errors: u32, warnings: u32, lines: nat) -> real {
    let q = 1real - lint_weight(errors, warnings) as real / (10 * lines) as real;
    if q < 0real {
        0real
    } else if q > 1real {
        1real
    } else {
        q
    }
}

/// Idiomatic quality is 1 less the weight of the lints over 10 for each line, kept between
/// 0 and 1.
pub proof fn quality_is_clamped(errors: u32, warnings: u32, lines: nat)
    requires
        0 < lines,
        10 * lines <= u128::MAX,
    ensures
        quality_of(errors, warnings, lines).in_unit(),
        quality_of(errors, warnings, lines).value() == clamped_quality(errors, warnings, lines),
{
    let q = quality_of(errors, warnings, lines);
    q.in_unit_value();
    let w = lint_weight(errors, warnings) as real;
    let d = (10 * lines) as real;
    assert(w / d >= 0real && (w >= d ==> w / d >= 1real) && (w < d ==> w / d < 1real) && (d - w) / d
        == 1real - w / d) by (nonlinear_arith)
        requires
            w >= 0real,
            d > 0real,
    ;
}

impl Evaluation {
    /// Takes the result of the check and the milliseconds that it took. Code that does not
    /// compile is not evaluated further.
    pub fn check_done(&mut self, check: CheckResult, elapsed_ms: u64)
        requires
            old(self).wf(),
            old(self).next == Some(Tool::Check),
        ensures
            *final(self) == after_check(*old(self), check, elapsed_ms),
            final(self).wf(),
    {
        let success = check.success;
        let errors: usize = count_errors(&check.diagnostics);
        self.result.compilation_time_ms = elapsed_ms;
        self.result.compiles = success;
        self.result.error_count = #[verifier::truncate] (errors as u32);
        self.result.compile_errors = check.errors;
        self.result.compiler_diagnostics = check.diagnostics;
        if success {
            self.result.scores.compilation = Ratio::one();
            self.next = Some(Tool::Clippy);
        } else {
            self.result.scores.compilation = Ratio::zero();
            self.result.scores.calculate_rpi();
            self.next = None;
        }
    }

    /// Takes the result of Clippy.
    pub fn clippy_done(&mut self, clippy: ClippyResult)
        requires
            old(self).wf(),
            old(self).next == Some(Tool::Clippy),
        ensures
            *final(self) == after_clippy(*old(self), clippy),
            final(self).wf(),
    {
        let lines: usize = count_lines(self.result.generated_code.as_str());
        self.result.scores.idiomatic_quality = idiomatic_quality(
            clippy.errors,
            clippy.warnings,
            lines,
        );
        self.result.clippy_warnings = clippy.warnings;
        self.result.clippy_errors = clippy.errors;
        self.result.clippy_details = clippy.details;
        self.result.clippy_output = clippy.output;
        self.next = Some(Tool::Test);
    }

    /// Takes the result of the tests. Unless Miri follows, the evaluation is done.
    pub fn tests_done(&mut self, tests: TestResult)
        requires
            old(self).wf(),
            old(self).next == Some(Tool::Test),
            tests.passed <= tests.total,
        ensures
            *final(self) == after_tests(*old(self), tests),
            final(self).wf(),
    {
        let correctness = if !tests.timed_out && tests.total > 0 {
            Ratio { num: tests.passed as u128, den: tests.total as u128 }
        } else {
            Ratio::zero()
        };
        let passed: u32 = tests.passed;
        self.result.tests_passed = passed;
        self.result.tests_total = tests.total;
        self.result.tests_failed = tests.total - passed;
        self.result.tests_timed_out = tests.timed_out;
        self.result.test_output = tests.output;
        self.result.scores.functional_correctness = correctness;
        if self.run_miri && self.miri_compatible {
            self.next = Some(Tool::Miri);
        } else {
            self.result.scores.memory_safety = memory_safety(None, passed);
            proof {
                index_fits(self.result.scores);
            }
            self.result.scores.calculate_rpi();
            self.next = None;
        }
    }

    /// Takes the result of Miri. The evaluation is done.
    pub fn miri_done(&mut self, miri: MiriResult)
        requires
            old(self).wf(),
            old(self).next == Some(Tool::Miri),
        ensures
            *final(self) == after_miri(*old(self), miri),
            final(self).wf(),
    {
        self.result.scores.memory_safety = memory_safety(miri.clean, self.result.tests_passed);
        self.result.miri_clean = miri.clean;
        self.result.miri_errors = miri.errors;
        self.result.miri_output = miri.output;
        proof {
            index_fits(self.result.scores);
        }
        self.result.scores.calculate_rpi();
        self.next = None;
    }
}

/// Every tool's result keeps the invariant of an evaluation.
pub proof fn every_step_keeps_invariant(
    e: Evaluation,
    check: CheckResult,
    elapsed_ms: u64,
    clippy: ClippyResult,
    tests: TestResult,
    miri: MiriResult,
)
    requires
        e.wf(),
        line_count(e.result.generated_code@) <= u64::MAX,
        tests.passed <= tests.total,
    ensures
        e.next == Some(Tool::Check) ==> after_check(e, check, elapsed_ms).wf(),
        e.next == Some(Tool::Clippy) ==> after_clippy(e, clippy).wf(),
        e.next == Some(Tool::Test) ==> after_tests(e, tests).wf(),
        e.next == Some(Tool::Miri) ==> after_miri(e, miri).wf(),
{
    (Ratio { num: 0, den: 1 }).in_unit_value();
    (Ratio { num: 1, den: 1 }).in_unit_value();
    if e.next == Some(Tool::Check) {
        let s = Scores { compilation: Ratio { num: 0, den: 1 }, ..e.result.scores };
        with_rpi_value(s);
    } else if e.next == Some(Tool::Clippy) {
        quality_is_clamped(clippy.errors, clippy.warnings, line_count(e.result.generated_code@));
    } else if e.next == Some(Tool::Test) {
        let s = Scores {
            functional_correctness: correctness_of(tests),
            memory_safety: safety_of(None, tests.passed),
            ..e.result.scores
        };
        index_fits(s);
        with_rpi_value(s);
    } else if e.next == Some(Tool::Miri) {
        let s = Scores {
            memory_safety: safety_of(miri.clean, e.result.tests_passed),
            ..e.result.scores
        };
        index_fits(s);
        with_rpi_value(s);
    }
}

/// The evaluation after every tool whose turn it is has run: the results of tools that do
/// not run are not looked at.
pub open spec fn evaluated(
    e: Evaluation,
    check: CheckResult,
    elapsed_ms: u64,
    clippy: ClippyResult,
    tests: TestResult,
    miri: MiriResult,
) -> Evaluation {
    let checked = after_check(e, check, elapsed_ms);
    if checked.next is None {
        checked
    } else {
        let tested = after_tests(after_clippy(checked, clippy), tests);
        if tested.next is None {
            tested
        } else {
            after_miri(tested, miri)
        }
    }
}

/// An evaluation is done after four tools at most. Then every score, and the index with
/// them, lies between 0 and 1, and the index is the weighted sum of the others.
pub proof fn evaluation_ends_with_scores(
    e: Evaluation,
    check: CheckResult,
    elapsed_ms: u64,
    clippy: ClippyResult,
    tests: TestResult,
    miri: MiriResult,
)
    requires
        e.wf(),
        e.next == Some(Tool::Check),
        line_count(e.result.generated_code@) <= u64::MAX,
        tests.passed <= tests.total,
    ensures
        ({
            let done = evaluated(e, check, elapsed_ms, clippy, tests, miri);
            let s = done.result.scores;
            &&& done.next is None
            &&& done.wf()
            &&& 0real <= s.functional_correctness.value() <= 1real
            &&& 0real <= s.memory_safety.value() <= 1real
            &&& 0real <= s.idiomatic_quality.value() <= 1real
            &&& 0real <= s.rpi.value() <= 1real
            &&& s.rpi.value() == rpi_of(
                s.compilation.value(),
                s.functional_correctness.value(),
                s.memory_safety.value(),
                s.idiomatic_quality.value(),
            )
        }),
{
    let checked = after_check(e, check, elapsed_ms);
    every_step_keeps_invariant(e, check, elapsed_ms, clippy, tests, miri);
    if check.success {
        every_step_keeps_invariant(checked, check, elapsed_ms, clippy, tests, miri);
        let linted = after_clippy(checked, clippy);
        every_step_keeps_invariant(linted, check, elapsed_ms, clippy, tests, miri);
        let tested = after_tests(linted, tests);
        every_step_keeps_invariant(tested, check, elapsed_ms, clippy, tests, miri);
    }
    let s = evaluated(e, check, elapsed_ms, clippy, tests, miri).result.scores;
    s.functional_correctness.in_unit_value();
    s.memory_safety.in_unit_value();
    s.idiomatic_quality.in_unit_value();
    rpi_in_unit(
        s.compilation.value(),
        s.functional_correctness.value(),
        s.memory_safety.value(),
        s.idiomatic_quality.value(),
    );
}

/// Code that does not compile has the index 0. Its errors are kept, and nothing that a
/// later tool would have found is.
pub proof fn failed_check_scores_nothing(
    e: Evaluation,
    check: CheckResult,
    elapsed_ms: u64,
    clippy: ClippyResult,
    tests: TestResult,
    miri: MiriResult,
)
    requires
        e.wf(),
        e.next == Some(Tool::Check),
        !check.success,
    ensures
        ({
            let done = evaluated(e, check, elapsed_ms, clippy, tests, miri);
            let r = done.result;
            &&& done.next is None
            &&& r.scores.rpi.value() == 0real
            &&& !r.compiles
            &&& r.compile_errors == check.errors
            &&& r.compiler_diagnostics == check.diagnostics
            &&& r == TaskResult {
                compilation_time_ms: r.compilation_time_ms,
                compiles: r.compiles,
                compile_errors: r.compile_errors,
                compiler_diagnostics: r.compiler_diagnostics,
                error_count: r.error_count,
                scores: r.scores,
                ..e.result
            }
        }),
{
    (Ratio { num: 0, den: 1 }).in_unit_value();
}

/// An evaluation never changes which task, which tier and which code it is about.
pub proof fn evaluation_keeps_its_subject(
    e: Evaluation,
    check: CheckResult,
    elapsed_ms: u64,
    clippy: ClippyResult,
    tests: TestResult,
    miri: MiriResult,
)
    ensures
        ({
            let r = evaluated(e, check, elapsed_ms, clippy, tests, miri).result;
            &&& r.task_id == e.result.task_id
            &&& r.tier == e.result.tier
            &&& r.generated_code == e.result.generated_code
            &&& r.contains_unsafe == e.result.contains_unsafe
            &&& r.generation_time_ms == e.result.generation_time_ms
        }),
{
}

/// Code that compiles, passes at least one test and all of them in time, has no lints and is
/// called clean by Miri has the index 1.
pub proof fn perfect_code_scores_one(
    e: Evaluation,
    check: CheckResult,
    elapsed_ms: u64,
    clippy: ClippyResult,
    tests: TestResult,
    miri: MiriResult,
)
    requires
        e.wf(),
        e.next == Some(Tool::Check),
        line_count(e.result.generated_code@) <= u64::MAX,
        check.success,
        clippy.errors == 0,
        clippy.warnings == 0,
        !tests.timed_out,
        0 < tests.passed == tests.total,
        e.run_miri && e.miri_compatible,
        miri.clean == Some(true),
    ensures
        evaluated(e, check, elapsed_ms, clippy, tests, miri).result.scores.rpi.value() == 1real,
{
    evaluation_ends_with_scores(e, check, elapsed_ms, clippy, tests, miri);
    let s = evaluated(e, check, elapsed_ms, clippy, tests, miri).result.scores;
    s.functional_correctness.in_unit_value();
    s.memory_safety.in_unit_value();
    s.idiomatic_quality.in_unit_value();
    s.compilation.in_unit_value();
}

/// Without a verdict of Miri memory safety is 0, so the index stays at 65% or below.
pub proof fn no_verdict_no_memory_safety(
    e: Evaluation,
    check: CheckResult,
    elapsed_ms: u64,
    clippy: ClippyResult,
    tests: TestResult,
    miri: MiriResult,
)
    requires
        e.wf(),
        e.next == Some(Tool::Check),
        line_count(e.result.generated_code@) <= u64::MAX,
        check.success,
        tests.passed <= tests.total,
        e.run_miri && e.miri_compatible ==> miri.clean is None,
    ensures
        ({
            let s = evaluated(e, check, elapsed_ms, clippy, tests, miri).result.scores;
            &&& s.memory_safety.value() == 0real
            &&& s.rpi.value() <= 65real / 100real
        }),
{
    evaluation_ends_with_scores(e, check, elapsed_ms, clippy, tests, miri);
    let s = evaluated(e, check, elapsed_ms, clippy, tests, miri).result.scores;
    s.memory_safety.in_unit_value();
    s.compilation.in_unit_value();
}

/// Memory safety is 1 exactly where Miri calls the code clean.
pub proof fn safe_code_is_clean(clean: Option<bool>, passed: u32)
    ensures
        safety_of(clean, passed).value() == 1real <==> clean == Some(true),
{
    safety_of(clean, passed).in_unit_value();
}

/// Tests that pass the time limit count for nothing, so the index stays at 60% or below.
pub proof fn timed_out_tests_score_nothing(
    e: Evaluation,
    check: CheckResult,
    elapsed_ms: u64,
    clippy: ClippyResult,
    tests: TestResult,
    miri: MiriResult,
)
    requires
        e.wf(),
        e.next == Some(Tool::Check),
        line_count(e.result.generated_code@) <= u64::MAX,
        check.success,
        tests.passed <= tests.total,
        tests.timed_out,
    ensures
        ({
            let s = evaluated(e, check, elapsed_ms, clippy, tests, miri).result.scores;
            &&& s.functional_correctness.value() == 0real
            &&& s.rpi.value() <= 60real / 100real
        }),
{
    evaluation_ends_with_scores(e, check, elapsed_ms, clippy, tests, miri);
    let s = evaluated(e, check, elapsed_ms, clippy, tests, miri).result.scores;
    s.functional_correctness.in_unit_value();
    s.compilation.in_unit_value();
}

/// Miri runs exactly on code that compiles, where it was asked for and can run the task;
/// where it does not run, what is known of it does not change.
pub proof fn miri_runs_where_wanted(
    e: Evaluation,
    check: CheckResult,
    elapsed_ms: u64,
    clippy: ClippyResult,
    tests: TestResult,
    miri: MiriResult,
)
    ensures
        ({
            let tested = after_tests(after_clippy(after_check(e, check, elapsed_ms), clippy), tests);
            let r = evaluated(e, check, elapsed_ms, clippy, tests, miri).result;
            let runs = check.success && e.run_miri && e.miri_compatible;
            &&& tested.next == Some(Tool::Miri) <==> e.run_miri && e.miri_compatible
            &&& r.miri_clean == if runs {
                miri.clean
            } else {
                e.result.miri_clean
            }
            &&& r.miri_errors == if runs {
                miri.errors
            } else {
                e.result.miri_errors
            }
        }),
{
}

/// The tests that an evaluated task passed and failed make up all of them.
pub proof fn tests_add_up(e: Evaluation, tests: TestResult)
    requires
        tests.passed <= tests.total,
    ensures
        ({
            let r = after_tests(e, tests).result;
            r.tests_passed + r.tests_failed == r.tests_total
        }),
{
}

/// Idiomatic quality is 1 exactly where there are no lints.
pub proof fn quality_of_clean_code(errors: u32, warnings: u32, lines: nat)
    requires
        0 < lines,
        10 * lines <= u128::MAX,
    ensures
        quality_of(errors, warnings, lines).value() == 1real <==> errors == 0 && warnings == 0,
{
    quality_is_clamped(errors, warnings, lines);
    quality_of(errors, warnings, lines).in_unit_value();
}

/// More lints never raise idiomatic quality, and more lines with the same lints never lower
/// it.
pub proof fn quality_is_monotone(
    errors: u32,
    warnings: u32,
    lines: nat,
    more_errors: u32,
    more_warnings: u32,
    more_lines: nat,
)
    requires
        0 < lines <= more_lines,
        errors <= more_errors,
        warnings <= more_warnings,
    ensures
        clamped_quality(more_errors, more_warnings, lines) <= clamped_quality(
            errors,
            warnings,
            more_lines,
        ),
{
    let w = lint_weight(errors, warnings) as real;
    let v = lint_weight(more_errors, more_warnings) as real;
    let d = (10 * lines) as real;
    let c = (10 * more_lines) as real;
    assert(w / c <= v / d) by (nonlinear_arith)
        requires
            0real <= w <= v,
            0real < d <= c,
    ;
}

/// An error weighs as much as four warnings.
pub proof fn error_weighs_four_warnings(errors: u32, warnings: u32)
    requires
        errors < u32::MAX,
        warnings <= u32::MAX - 4,
    ensures
        lint_weight((errors + 1) as u32, warnings) == lint_weight(
            errors,
            (warnings + 4) as u32,
        ),
{
}

} // verus!
