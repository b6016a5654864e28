use rustbench::ratio::Ratio;
use rustbench::task::{
    default_rust_version, CompilerDiagnostic, ErrorCategory, Scores, TaskResult, Tier,
};

#[test]
fn tier_names() {
    assert_eq!(Tier::AlgorithmicCore.as_str(), "algorithmic_core");
    assert_eq!(Tier::IdiomaticSystems.as_str(), "idiomatic_systems");
    assert_eq!(Tier::SafetyCritical.as_str(), "safety_critical");
    assert_eq!(Tier::RepositoryArchitecture.as_str(), "repository_architecture");
}

#[test]
fn rust_version_of_a_task_that_names_none() {
    assert_eq!(default_rust_version(), "1.75.0");
}

#[test]
fn categories_of_codes() {
    let table = [
        (ErrorCategory::BorrowChecker, vec!["E0382", "E0505", "E0502", "E0499", "E0503", "E0597"]),
        (ErrorCategory::Lifetime, vec!["E0106", "E0621", "E0495", "E0700"]),
        (ErrorCategory::TypeMismatch, vec!["E0308", "E0277", "E0271", "E0369", "E0599"]),
        (ErrorCategory::UnresolvedImport, vec!["E0432", "E0433", "E0412", "E0425"]),
        (ErrorCategory::Syntax, vec!["E0063", "E0061", "E0054"]),
        (ErrorCategory::Other, vec!["E0004", "", "e0308", "E03080"]),
    ];
    for (category, codes) in table {
        for code in codes {
            assert_eq!(CompilerDiagnostic::categorize(Some(code), ""), category, "{}", code);
            assert_eq!(
                CompilerDiagnostic::categorize(Some(code), "expected a, found b"),
                category,
                "{}",
                code
            );
        }
    }
}

#[test]
fn categories_of_messages() {
    assert_eq!(
        CompilerDiagnostic::categorize(None, "expected `;`, found `}`"),
        ErrorCategory::Syntax
    );
    assert_eq!(
        CompilerDiagnostic::categorize(None, "found `}` where `;` was expected"),
        ErrorCategory::Syntax
    );
    assert_eq!(CompilerDiagnostic::categorize(None, "expected item"), ErrorCategory::Other);
    assert_eq!(CompilerDiagnostic::categorize(None, "not found"), ErrorCategory::Other);
}

#[test]
fn new_result_is_empty() {
    let r = TaskResult::new("t".to_string(), Tier::SafetyCritical);
    assert_eq!(r.task_id, "t");
    assert_eq!(r.tier, Tier::SafetyCritical);
    assert!(!r.compiles);
    assert!(r.compile_errors.is_empty());
    assert!(r.compiler_diagnostics.is_empty());
    assert_eq!(r.error_count, 0);
    assert_eq!((r.tests_passed, r.tests_total, r.tests_failed), (0, 0, 0));
    assert!(!r.tests_timed_out);
    assert_eq!(r.test_output, "");
    assert_eq!((r.clippy_warnings, r.clippy_errors), (0, 0));
    assert!(r.clippy_details.is_empty());
    assert_eq!(r.clippy_output, "");
    assert_eq!(r.miri_clean, None);
    assert!(r.miri_errors.is_empty());
    assert_eq!(r.miri_output, "");
    assert!(!r.contains_unsafe);
    assert_eq!(r.generated_code, "");
    assert_eq!((r.generation_time_ms, r.compilation_time_ms), (0, 0));
    assert_eq!(r.scores, Scores::default());
    assert_eq!(r.scores.rpi, Ratio::zero());
}

fn value(r: Ratio) -> f64 {
    r.num as f64 / r.den as f64
}

fn scores(fc: Ratio, ms: Ratio, iq: Ratio, compilation: Ratio) -> Scores {
    let mut s = Scores {
        functional_correctness: fc,
        memory_safety: ms,
        idiomatic_quality: iq,
        compilation,
        rpi: Ratio::one(),
    };
    s.calculate_rpi();
    s
}

#[test]
fn index_is_the_weighted_sum() {
    let one = Ratio::one();
    let zero = Ratio::zero();
    assert_eq!(value(scores(one, one, one, one).rpi), 1.0);
    assert_eq!(value(scores(one, zero, zero, one).rpi), 0.4);
    assert_eq!(value(scores(zero, one, zero, one).rpi), 0.35);
    assert_eq!(value(scores(zero, zero, one, one).rpi), 0.25);
    let mixed = scores(Ratio::new(3, 4), Ratio::new(1, 2), Ratio::new(17, 20), one);
    assert!((value(mixed.rpi) - (0.4 * 0.75 + 0.35 * 0.5 + 0.25 * 0.85)).abs() < 1e-12);
    assert_eq!(mixed.functional_correctness, Ratio::new(3, 4));
    assert_eq!(mixed.memory_safety, Ratio::new(1, 2));
    assert_eq!(mixed.idiomatic_quality, Ratio::new(17, 20));
}

#[test]
fn index_without_compilation() {
    let one = Ratio::one();
    assert_eq!(scores(one, one, one, Ratio::zero()).rpi, Ratio::zero());
    assert_eq!(scores(one, one, one, Ratio::new(49, 100)).rpi, Ratio::zero());
    assert_eq!(value(scores(one, one, one, Ratio::new(1, 2)).rpi), 1.0);
}

#[test]
fn index_grows_with_the_scores() {
    let one = Ratio::one();
    let low = scores(Ratio::new(1, 3), Ratio::new(1, 3), Ratio::new(9, 10), one);
    let high = scores(Ratio::new(2, 3), Ratio::new(1, 2), Ratio::new(9, 10), one);
    assert!(value(low.rpi) < value(high.rpi));
    assert!(value(high.rpi) <= 1.0);
    let failed = scores(Ratio::new(1, 3), Ratio::new(1, 3), Ratio::new(9, 10), Ratio::zero());
    assert!(value(failed.rpi) < value(low.rpi));
}

#[test]
fn half_is_not_below_half() {
    assert!(Ratio::zero().below_half());
    assert!(Ratio::new(1, 3).below_half());
    assert!(!Ratio::new(1, 2).below_half());
    assert!(!Ratio::one().below_half());
    assert!(!Ratio::new(u128::MAX, 1).below_half());
    assert!(Ratio::new(u128::MAX / 2, u128::MAX).below_half());
}
