use rustbench::evaluator::{
    contains_unsafe, idiomatic_quality, memory_safety, Evaluation, Evaluator,
};
use rustbench::ratio::Ratio;
use rustbench::task::{CompilerDiagnostic, ErrorCategory, Task, Tier};
use rustbench::toolchain::{CheckResult, ClippyResult, MiriResult, TestResult, Tool};

fn task(miri_compatible: bool) -> Task {
    Task {
        task_id: "t1".to_string(),
        tier: Tier::SafetyCritical,
        min_rust_version: "1.75.0".to_string(),
        prompt: "p".to_string(),
        signature: "fn f()".to_string(),
        context_code: String::new(),
        dependencies: vec![],
        tests: String::new(),
        miri_compatible,
        canonical_solution: None,
        tags: vec![],
    }
}

fn diagnostic(level: &str) -> CompilerDiagnostic {
    CompilerDiagnostic {
        code: None,
        message: "m".to_string(),
        level: level.to_string(),
        category: ErrorCategory::Other,
    }
}

fn checked(success: bool, levels: Vec<&str>) -> CheckResult {
    CheckResult {
        success,
        errors: levels.iter().map(|l| l.to_string()).collect(),
        diagnostics: levels.into_iter().map(diagnostic).collect(),
    }
}

fn linted(errors: u32, warnings: u32) -> ClippyResult {
    ClippyResult {
        warnings,
        errors,
        details: vec!["d".to_string()],
        output: "clippy says".to_string(),
    }
}

fn tested(passed: u32, total: u32, timed_out: bool) -> TestResult {
    TestResult { passed, total, timed_out, output: "tests say".to_string() }
}

fn verdict(clean: Option<bool>) -> MiriResult {
    MiriResult { clean, errors: vec!["e".to_string()], output: "miri says".to_string() }
}

fn begin(run_miri: bool, compatible: bool, code: &str) -> Evaluation {
    Evaluator::new(run_miri, 30).evaluate(&task(compatible), code)
}

fn value(r: Ratio) -> f64 {
    r.num as f64 / r.den as f64
}

/// An evaluation up to the tests.
fn up_to_tests(run_miri: bool, compatible: bool, code: &str, tests: TestResult) -> Evaluation {
    let mut e = begin(run_miri, compatible, code);
    e.check_done(checked(true, vec![]), 5);
    e.clippy_done(linted(0, 0));
    e.tests_done(tests);
    e
}

#[test]
fn evaluation_begins_with_the_check() {
    let e = begin(true, true, "unsafe { x }");
    assert_eq!(e.next, Some(Tool::Check));
    assert_eq!(e.result.task_id, "t1");
    assert_eq!(e.result.tier, Tier::SafetyCritical);
    assert_eq!(e.result.generated_code, "unsafe { x }");
    assert!(e.result.contains_unsafe);
}

#[test]
fn unsafe_code_is_recognized() {
    let marked = [
        "pub fn f(p: *const i32) -> i32 { unsafe{ *p } }",
        "unsafe { x }",
        "unsafe\n{ x }",
        "unsafe\t{ x }",
        "unsafe fn f() {}",
        "unsafely(); unsafe impl Send for A {}",
        "(unsafe{ x })",
        "// unsafe code",
        "unsafe\r\n\u{3000}{ x }",
    ];
    for code in marked {
        assert!(contains_unsafe(code), "{}", code);
        assert!(begin(true, true, code).result.contains_unsafe, "{}", code);
    }
    let unmarked = [
        "",
        "fn f() {}",
        "unsafe",
        "unsafe\n",
        "unsafely();",
        "\"unsafe\"",
        "Unsafe {}",
        "// unsafe\nfn f() {}",
        "struct not_unsafe{ x: i32 }",
        "let x2unsafe = 1;",
    ];
    for code in unmarked {
        assert!(!contains_unsafe(code), "{}", code);
        assert!(!begin(true, true, code).result.contains_unsafe, "{}", code);
    }
}

#[test]
fn failed_check_ends_the_evaluation() {
    let mut e = begin(true, true, "x");
    e.check_done(checked(false, vec!["error", "warning", "error"]), 17);
    assert_eq!(e.next, None);
    assert!(!e.result.compiles);
    assert_eq!(e.result.error_count, 2);
    assert_eq!(e.result.compile_errors.len(), 3);
    assert_eq!(e.result.compiler_diagnostics.len(), 3);
    assert_eq!(e.result.compilation_time_ms, 17);
    assert_eq!(e.result.scores.compilation, Ratio::zero());
    assert_eq!(e.result.scores.rpi, Ratio::zero());
    assert_eq!(e.result.clippy_output, "");
    assert_eq!(e.result.miri_clean, None);
}

#[test]
fn tools_run_in_their_order() {
    let mut e = begin(true, true, "fn f() {}");
    e.check_done(checked(true, vec![]), 1);
    assert_eq!(e.next, Some(Tool::Clippy));
    assert!(e.result.compiles);
    assert_eq!(e.result.scores.compilation, Ratio::one());
    e.clippy_done(linted(1, 2));
    assert_eq!(e.next, Some(Tool::Test));
    assert_eq!((e.result.clippy_errors, e.result.clippy_warnings), (1, 2));
    assert_eq!(e.result.clippy_details, vec!["d"]);
    assert_eq!(e.result.clippy_output, "clippy says");
    e.tests_done(tested(2, 3, false));
    assert_eq!(e.next, Some(Tool::Miri));
    assert_eq!((e.result.tests_passed, e.result.tests_failed, e.result.tests_total), (2, 1, 3));
    assert_eq!(e.result.test_output, "tests say");
    e.miri_done(verdict(Some(true)));
    assert_eq!(e.next, None);
    assert_eq!(e.result.miri_clean, Some(true));
    assert_eq!(e.result.miri_errors, vec!["e"]);
    assert_eq!(e.result.miri_output, "miri says");
    assert_eq!(e.result.task_id, "t1");
    assert_eq!(e.result.generated_code, "fn f() {}");
}

#[test]
fn perfect_code() {
    let mut e = up_to_tests(true, true, "unsafe fn f() {}", tested(4, 4, false));
    e.miri_done(verdict(Some(true)));
    assert_eq!(value(e.result.scores.rpi), 1.0);
    let mut e = up_to_tests(true, true, "fn f() {}", tested(4, 4, false));
    e.miri_done(verdict(Some(true)));
    assert_eq!(value(e.result.scores.rpi), 1.0);
}

#[test]
fn without_a_verdict_of_miri() {
    let e = up_to_tests(false, false, "fn f() {}", tested(3, 3, false));
    assert_eq!(e.next, None);
    assert_eq!(e.result.scores.memory_safety, Ratio::zero());
    assert_eq!(value(e.result.scores.rpi), 0.65);
    let mut e = up_to_tests(true, true, "fn f() {}", tested(4, 4, false));
    e.miri_done(verdict(None));
    assert_eq!(e.result.scores.memory_safety, Ratio::zero());
    assert_eq!(value(e.result.scores.rpi), 0.65);
}

#[test]
fn tests_that_time_out_count_for_nothing() {
    let e = up_to_tests(false, true, "fn f() {}", tested(0, 1, true));
    assert!(e.result.tests_timed_out);
    assert_eq!(e.result.tests_failed, 1);
    assert_eq!(e.result.scores.functional_correctness, Ratio::zero());
    assert_eq!(e.result.scores.memory_safety, Ratio::zero());
    assert_eq!(value(e.result.scores.rpi), 0.25);
}

#[test]
fn no_tests_count_for_nothing() {
    let e = up_to_tests(false, true, "fn f() {}", tested(0, 0, false));
    assert_eq!(e.result.scores.functional_correctness, Ratio::zero());
    assert_eq!(e.result.tests_failed, 0);
}

#[test]
fn miri_runs_only_where_it_can() {
    assert_eq!(up_to_tests(true, true, "", tested(1, 1, false)).next, Some(Tool::Miri));
    assert_eq!(up_to_tests(true, false, "", tested(1, 1, false)).next, None);
    assert_eq!(up_to_tests(false, true, "", tested(1, 1, false)).next, None);
}

fn safety_after_miri(clean: Option<bool>, passed: u32) -> f64 {
    let mut e = up_to_tests(true, true, "fn f() {}", tested(passed, 4, false));
    e.miri_done(verdict(clean));
    value(e.result.scores.memory_safety)
}

#[test]
fn memory_safety_with_miri() {
    assert_eq!(safety_after_miri(Some(true), 0), 1.0);
    assert_eq!(safety_after_miri(Some(false), 1), 0.5);
    assert_eq!(safety_after_miri(Some(false), 0), 0.0);
    assert_eq!(safety_after_miri(None, 3), 0.0);
    assert_eq!(memory_safety(Some(true), 0), Ratio::one());
    assert_eq!(memory_safety(Some(false), 2), Ratio::new(1, 2));
    assert_eq!(memory_safety(None, 2), Ratio::zero());
}

fn safety_without_miri(compatible: bool, code: &str, passed: u32) -> f64 {
    value(up_to_tests(false, compatible, code, tested(passed, 4, false)).result.scores.memory_safety)
}

#[test]
fn memory_safety_without_miri() {
    assert_eq!(safety_without_miri(false, "unsafe {}", 4), 0.0);
    assert_eq!(safety_without_miri(false, "unsafe {}", 0), 0.0);
    assert_eq!(safety_without_miri(true, "unsafe {}", 2), 0.0);
    assert_eq!(safety_without_miri(false, "fn f() {}", 4), 0.0);
}

#[test]
fn quality_of_lints() {
    assert_eq!(idiomatic_quality(0, 0, 7), Ratio::new(70, 70));
    assert_eq!(idiomatic_quality(0, 1, 10), Ratio::new(95, 100));
    assert_eq!(idiomatic_quality(1, 0, 10), Ratio::new(80, 100));
    assert_eq!(idiomatic_quality(1, 0, 10), idiomatic_quality(0, 4, 10));
    assert_eq!(idiomatic_quality(1, 0, 2), Ratio::new(0, 20));
    assert_eq!(idiomatic_quality(3, 0, 1), Ratio::new(0, 10));
    assert_eq!(idiomatic_quality(u32::MAX, u32::MAX, 1).num, 0);
}

#[test]
fn quality_goes_by_the_lines_of_the_code() {
    let mut e = begin(false, false, "a\nb\nc\n");
    e.check_done(checked(true, vec![]), 1);
    e.clippy_done(linted(0, 3));
    assert_eq!(e.result.scores.idiomatic_quality, Ratio::new(15, 30));
    let mut e = begin(false, false, "");
    e.check_done(checked(true, vec![]), 1);
    e.clippy_done(linted(0, 1));
    assert_eq!(e.result.scores.idiomatic_quality, Ratio::new(5, 10));
}

#[test]
fn index_of_an_ordinary_evaluation() {
    let mut e = begin(true, true, "a\nb\nc\nd\n");
    e.check_done(checked(true, vec![]), 1);
    e.clippy_done(linted(0, 2));
    e.tests_done(tested(2, 3, false));
    e.miri_done(verdict(Some(false)));
    let expected = 0.4 * (2.0 / 3.0) + 0.35 * 0.5 + 0.25 * 0.75;
    assert!((value(e.result.scores.rpi) - expected).abs() < 1e-12);
}

#[test]
fn miri_has_three_times_the_time() {
    assert_eq!(Evaluator::new(true, 30).miri_timeout_secs(), 90);
    assert_eq!(Evaluator::new(true, 0).miri_timeout_secs(), 0);
    assert_eq!(Evaluator::new(false, u64::MAX / 3).miri_timeout_secs(), u64::MAX);
}
