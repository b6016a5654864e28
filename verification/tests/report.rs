use rustbench::ratio::Ratio;
use rustbench::report::{
    comparison, count_tier, final_summary, heading, model_list, result_summary, tally,
    tier_to_string, ComparisonRow, Content, Pad, Paint, Span, RULE, TABLE_RULE,
};
use rustbench::task::{CompilerDiagnostic, ErrorCategory, TaskResult, Tier};

/// A span in letters: its content, then its paint and its width.
fn show(span: &Span) -> String {
    let content = match &span.content {
        Content::Text(t) => t.clone(),
        Content::Fraction(r, places) => format!("<{}/{}:{}>", r.num, r.den, places),
        Content::Percent(r) => format!("<{}/{}%>", r.num, r.den),
        Content::Average(metric, tier) => format!("<{:?} {:?}>", metric, tier),
    };
    let padded = match span.pad {
        Pad::No => content,
        pad => format!("{}<{:?}>", content, pad),
    };
    match span.paint {
        Paint::Plain => padded,
        paint => format!("{:?}({})", paint, padded),
    }
}

fn lines(all: Vec<Vec<Span>>) -> Vec<String> {
    all.iter().map(|line| line.iter().map(show).collect::<Vec<String>>().join("")).collect()
}

fn result(tier: Tier) -> TaskResult {
    TaskResult::new("t".to_string(), tier)
}

#[test]
fn tiers_as_shown() {
    assert_eq!(tier_to_string(&Tier::AlgorithmicCore), "Tier1: Algorithmic");
    assert_eq!(tier_to_string(&Tier::IdiomaticSystems), "Tier2: Idiomatic");
    assert_eq!(tier_to_string(&Tier::SafetyCritical), "Tier3: Safety");
    assert_eq!(tier_to_string(&Tier::RepositoryArchitecture), "Tier4: Architecture");
}

#[test]
fn summary_of_good_code() {
    let mut r = result(Tier::AlgorithmicCore);
    r.compiles = true;
    r.tests_passed = 3;
    r.tests_total = 4;
    r.miri_clean = Some(true);
    r.scores.rpi = Ratio::new(9, 10);
    assert_eq!(
        lines(result_summary(&r)),
        vec![
            "  Compile: Green(\u{2713}) | Tests: 3/4 | Clippy: Green(clean) | \
             Miri: Green(\u{2713}) | RPI: <9/10:2>"
        ]
    );
}

#[test]
fn summary_of_doubtful_code() {
    let mut r = result(Tier::AlgorithmicCore);
    r.compiles = true;
    r.tests_timed_out = true;
    r.clippy_warnings = 2;
    r.miri_clean = Some(false);
    r.contains_unsafe = true;
    assert_eq!(
        lines(result_summary(&r)),
        vec![
            "  Compile: Green(\u{2713}) | Tests: Red(TIMEOUT) | Clippy: Yellow(2W) | \
             Miri: Red(\u{2717}) | RPI: <0/1:2>Yellow( [unsafe])"
        ]
    );
    r.clippy_errors = 1;
    assert!(lines(result_summary(&r))[0].contains("Clippy: Red(1E 2W)"));
}

#[test]
fn summary_of_code_that_does_not_compile() {
    let mut r = result(Tier::AlgorithmicCore);
    let status = "  Compile: Red(\u{2717}) | Tests: - | Clippy: Green(clean) | Miri: - | \
                  RPI: <0/1:2>";
    assert_eq!(lines(result_summary(&r)), vec![status]);
    r.compile_errors = vec!["first".to_string(), "second".to_string()];
    assert_eq!(lines(result_summary(&r)), vec![status, "  Red(Error:) first"]);
    r.error_count = 2;
    r.compiler_diagnostics = vec![CompilerDiagnostic {
        code: Some("E0382".to_string()),
        message: "m".to_string(),
        level: "error".to_string(),
        category: ErrorCategory::BorrowChecker,
    }];
    let distance = "  Red(Errors:) 2 errors (distance to compilation: 2)";
    assert_eq!(
        lines(result_summary(&r)),
        vec![status, distance, "  Red(First:) [E0382] BorrowChecker: first"]
    );
    r.compiler_diagnostics[0].code = None;
    r.compile_errors = vec![];
    assert_eq!(
        lines(result_summary(&r)),
        vec![status, distance, "  Red(First:) [--] BorrowChecker: "]
    );
}

fn some_results() -> Vec<TaskResult> {
    let mut a = result(Tier::SafetyCritical);
    a.compiles = true;
    a.tests_passed = 2;
    a.tests_total = 2;
    a.miri_clean = Some(true);
    a.contains_unsafe = true;
    let mut b = result(Tier::AlgorithmicCore);
    b.compiles = true;
    b.tests_total = 1;
    b.tests_timed_out = true;
    let mut c = result(Tier::SafetyCritical);
    c.error_count = 3;
    let mut d = result(Tier::SafetyCritical);
    d.error_count = 4;
    d.miri_clean = Some(false);
    vec![a, b, c, d]
}

#[test]
fn outcomes_are_counted() {
    let results = some_results();
    let t = tally(&results);
    assert_eq!((t.total, t.compiled, t.all_passed, t.timed_out), (4, 2, 1, 1));
    assert_eq!((t.miri_clean, t.with_unsafe, t.failed_errors), (1, 1, 7));
    assert_eq!(results.iter().filter(|r| !r.compiles).count(), t.total - t.compiled);
    assert!(t.all_passed + t.timed_out <= t.total);
    let counts: Vec<usize> = [
        Tier::AlgorithmicCore,
        Tier::IdiomaticSystems,
        Tier::SafetyCritical,
        Tier::RepositoryArchitecture,
    ]
    .iter()
    .map(|tier| count_tier(&results, *tier))
    .collect();
    assert_eq!(counts, vec![1, 0, 3, 0]);
    assert_eq!(counts.iter().sum::<usize>(), results.len());
}

#[test]
fn summary_of_a_run() {
    let rule = format!("Cyan({})", RULE);
    let expected = vec![
        rule.clone(),
        "Cyan(                    EVALUATION SUMMARY                      )".to_string(),
        rule.clone(),
        "  Total Tasks:       4".to_string(),
        "  Compiled:          2 (<2/4%>%)".to_string(),
        "  All Tests Passed:  1 (<1/4%>%)".to_string(),
        "  Timed Out:         1 (deadlock?)".to_string(),
        "  Miri Clean:        1".to_string(),
        "  Contains Unsafe:   1".to_string(),
        "".to_string(),
        "  Avg RPI Score:     <Rpi None>/1.00".to_string(),
        "  Avg Func. Correct: <FunctionalCorrectness None>/1.00".to_string(),
        "  Avg Memory Safety: <MemorySafety None>/1.00".to_string(),
        "  Avg Idiom Quality: <IdiomaticQuality None>/1.00".to_string(),
        "  Avg Errors (fail): <7/2:1> (distance to compilation)".to_string(),
        "".to_string(),
        "  Duration:          61s".to_string(),
        rule,
        "".to_string(),
        "Bold(Score by Tier:)".to_string(),
        "  Tier1: Algorithmic<After(25)> 1<Before(3)> tasks, avg RPI: <Rpi Some(AlgorithmicCore)>"
            .to_string(),
        "  Tier3: Safety<After(25)> 3<Before(3)> tasks, avg RPI: <Rpi Some(SafetyCritical)>"
            .to_string(),
    ];
    assert_eq!(lines(final_summary(&some_results(), 61)), expected);
}

#[test]
fn summary_of_an_empty_run() {
    let shown = lines(final_summary(&vec![], 0));
    assert_eq!(shown[3], "  Total Tasks:       0");
    assert_eq!(shown[4], "  Compiled:          0 (<0/1%>%)");
    assert_eq!(shown[6], "  Miri Clean:        0");
    assert_eq!(shown.len(), 17);
    assert_eq!(shown[16], "Bold(Score by Tier:)");
}

#[test]
fn models_are_listed() {
    let shown = lines(model_list(&vec!["a".to_string(), "b".to_string()]));
    assert_eq!(
        shown[1],
        "Cyan(                    MODELS IN DATABASE                      )"
    );
    assert_eq!(shown[3..], ["  \u{2022} a", "  \u{2022} b", "", "Total: 2 models"]);
    let none = lines(model_list(&vec![]));
    assert_eq!(none[3..], ["No models found in database."]);
}

#[test]
fn headings_are_boxed() {
    let shown = lines(heading("SUMMARY: m"));
    assert_eq!(shown.len(), 3);
    assert_eq!(shown[1], "Cyan(\u{2551}) Bold(SUMMARY: m<Around(51)>) Cyan(\u{2551})");
    assert_eq!(RULE.chars().count(), 59);
    assert!(RULE.chars().all(|c| c == '\u{2550}'));
    assert_eq!(TABLE_RULE, "\u{2500}".repeat(60));
}

#[test]
fn models_are_compared() {
    let rows = vec![
        ComparisonRow {
            model: "m".to_string(),
            rpi: "0.9".to_string(),
            rpi_paint: Paint::Green,
            compiles: true,
            tests_passed: 3,
            tests_total: 4,
        },
        ComparisonRow {
            model: "n".to_string(),
            rpi: "0".to_string(),
            rpi_paint: Paint::Red,
            compiles: false,
            tests_passed: 0,
            tests_total: -1,
        },
    ];
    let shown = lines(comparison("t", &rows));
    assert_eq!(shown[1], "Cyan(\u{2551}) Bold(COMPARISON: t<Around(51)>) Cyan(\u{2551})");
    assert_eq!(
        shown[3..],
        [
            "".to_string(),
            "  Model<After(25)> RPI<Before(8)> Compiles<Before(8)> Tests<Before(8)>".to_string(),
            format!("  {}", TABLE_RULE),
            "  m<After(25)> Green(0.9<Before(8)>) Green(\u{2713}<Before(8)>) 3/4<Before(8)>"
                .to_string(),
            "  n<After(25)> Red(0<Before(8)>) Red(\u{2717}<Before(8)>) 0/-1<Before(8)>".to_string(),
        ]
    );
    let none = lines(comparison("t", &vec![]));
    assert_eq!(none[3..], ["No results found for task: t"]);
}
