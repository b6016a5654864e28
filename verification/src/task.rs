//! Tasks, the results of evaluating them, and their scores.

use vstd::prelude::*;
use crate::ratio::{product_as_real, Ratio};
use crate::text::{contains, holds, opt_text, same_text, texts};

verus! {

/// Complexity tier of a task
#[derive(Debug, Clone, Copy, PartialEq, Eq, Structural)]
pub enum Tier {
    /// Basic Rust syntax and logic
    AlgorithmicCore,
    /// Idiomatic Rust, Clippy-level quality
    IdiomaticSystems,
    /// Unsafe code, Miri verification
    SafetyCritical,
    /// Concurrency, async, repository context
    RepositoryArchitecture,
}

/// The name under which a tier is stored.
pub open spec fn tier_name(tier: Tier) -> Seq<char> {
    match tier {
        Tier::AlgorithmicCore => "algorithmic_core"@,
        Tier::IdiomaticSystems => "idiomatic_systems"@,
        Tier::SafetyCritical => "safety_critical"@,
        Tier::RepositoryArchitecture => "repository_architecture"@,
    }
}

impl Tier {
    /// The name under which the tier is stored.
    pub fn as_str(&self) -> (s: &'static str)
        ensures
            s@ == tier_name(*self),
    {
        match self {
            Tier::AlgorithmicCore => "algorithmic_core",
            Tier::IdiomaticSystems => "idiomatic_systems",
            Tier::SafetyCritical => "safety_critical",
            Tier::RepositoryArchitecture => "repository_architecture",
        }
    }
}

/// A stored name tells which tier it belongs to: two tiers never share one.
pub proof fn tier_names_differ(a: Tier, b: Tier)
    ensures
        tier_name(a) == tier_name(b) <==> a == b,
{
    reveal_strlit("algorithmic_core");
    reveal_strlit("idiomatic_systems");
    reveal_strlit("safety_critical");
    reveal_strlit("repository_architecture");
    assert(tier_name(a).len() == tier_name(b).len() ==> a == b);
}

/// Category of a compiler error, for "distance to compilation" analysis
#[derive(Debug, Clone, Copy, PartialEq, Eq, Structural)]
pub enum ErrorCategory {
    Syntax,
    BorrowChecker,
    TypeMismatch,
    Lifetime,
    UnresolvedImport,
    Other,
}

/// Structured compiler diagnostic
#[derive(Debug, Clone)]
pub struct CompilerDiagnostic {
    pub code: Option<String>,
    pub message: String,
    pub level: String,
    pub category: ErrorCategory,
}

/// The contents of a compiler diagnostic.
pub struct DiagnosticView {
    pub code: Option<Seq<char>>,
    pub message: Seq<char>,
    pub level: Seq<char>,
    pub category: ErrorCategory,
}

impl View for CompilerDiagnostic {
    type V = DiagnosticView;

    open spec fn view(&self) -> DiagnosticView {
        DiagnosticView {
            code: opt_text(self.code),
            message: self.message@,
            level: self.level@,
            category: self.category,
        }
    }
}

pub open spec fn is_borrow_code(c: Seq<char>) -> bool {
    c == "E0382"@ || c == "E0505"@ || c == "E0502"@ || c == "E0499"@ || c == "E0503"@ || c
        == "E0597"@
}

pub open spec fn is_lifetime_code(c: Seq<char>) -> bool {
    c == "E0106"@ || c == "E0621"@ || c == "E0495"@ || c == "E0700"@
}

pub open spec fn is_type_code(c: Seq<char>) -> bool {
    c == "E0308"@ || c == "E0277"@ || c == "E0271"@ || c == "E0369"@ || c == "E0599"@
}

pub open spec fn is_import_code(c: Seq<char>) -> bool {
    c == "E0432"@ || c == "E0433"@ || c == "E0412"@ || c == "E0425"@
}

pub open spec fn is_syntax_code(c: Seq<char>) -> bool {
    c == "E0063"@ || c == "E0061"@ || c == "E0054"@
}

/// The category of an error: its code decides where it has one, else its message.
pub open spec fn category_of(code: Option<Seq<char>>, message: Seq<char>) -> ErrorCategory {
    match code {
        Some(c) => if is_borrow_code(c) {
            ErrorCategory::BorrowChecker
        } else if is_lifetime_code(c) {
            ErrorCategory::Lifetime
        } else if is_type_code(c) {
            ErrorCategory::TypeMismatch
        } else if is_import_code(c) {
            ErrorCategory::UnresolvedImport
        } else if is_syntax_code(c) {
            ErrorCategory::Syntax
        } else {
            ErrorCategory::Other
        },
        None => if holds(message, "expected"@) && holds(message, "found"@) {
            ErrorCategory::Syntax
        } else {
            ErrorCategory::Other
        },
    }
}

impl CompilerDiagnostic {
    /// The category of an error, from its code or, where it has none, its message.
    pub fn categorize(code: Option<&str>, message: &str) -> (category: ErrorCategory)
        ensures
            category == category_of(
                match code {
                    Some(c) => Some(c@),
                    None => None,
                },
                message@,
            ),
    {
        match code {
            Some(c) => {
                if same_text(c, "E0382") || same_text(c, "E0505") || same_text(c, "E0502")
                    || same_text(c, "E0499") || same_text(c, "E0503") || same_text(c, "E0597") {
                    ErrorCategory::BorrowChecker
                } else if same_text(c, "E0106") || same_text(c, "E0621") || same_text(c, "E0495")
                    || same_text(c, "E0700") {
                    ErrorCategory::Lifetime
                } else if same_text(c, "E0308") || same_text(c, "E0277") || same_text(c, "E0271")
                    || same_text(c, "E0369") || same_text(c, "E0599") {
                    ErrorCategory::TypeMismatch
                } else if same_text(c, "E0432") || same_text(c, "E0433") || same_text(c, "E0412")
                    || same_text(c, "E0425") {
                    ErrorCategory::UnresolvedImport
                } else if same_text(c, "E0063") || same_text(c, "E0061") || same_text(c, "E0054") {
                    ErrorCategory::Syntax
                } else {
                    ErrorCategory::Other
                }
            },
            None => {
                if contains(message, "expected") && contains(message, "found") {
                    ErrorCategory::Syntax
                } else {
                    ErrorCategory::Other
                }
            },
        }
    }
}

/// Where an error has a code, its message does not matter.
pub proof fn code_decides_category(code: Seq<char>, a: Seq<char>, b: Seq<char>)
    ensures
        category_of(Some(code), a) == category_of(Some(code), b),
{
}

/// A single evaluation task
#[derive(Debug, Clone)]
pub struct Task {
    /// Unique identifier
    pub task_id: String,
    /// Complexity tier
    pub tier: Tier,
    /// Minimum Rust version required
    pub min_rust_version: String,
    /// The prompt/description for the language model
    pub prompt: String,
    /// Function signature to implement
    pub signature: String,
    /// Any context code (structs, imports) that goes before the generated code
    pub context_code: String,
    /// Names and versions of the dependencies to add to Cargo.toml, each name once
    pub dependencies: Vec<(String, String)>,
    /// Unit tests to run
    pub tests: String,
    /// Should we run Miri?
    pub miri_compatible: bool,
    /// A solution to compare with
    pub canonical_solution: Option<String>,
    /// What the task is about
    pub tags: Vec<String>,
}

impl Task {
    /// No dependency is named twice.
    pub open spec fn wf(self) -> bool {
        forall|i: int, j: int|
            0 <= i < j < self.dependencies@.len() ==> #[trigger] self.dependencies@[i].0@
                != #[trigger] self.dependencies@[j].0@
    }
}

/// The contents of a task.
pub struct TaskView {
    pub task_id: Seq<char>,
    pub tier: Tier,
    pub min_rust_version: Seq<char>,
    pub prompt: Seq<char>,
    pub signature: Seq<char>,
    pub context_code: Seq<char>,
    pub dependencies: Seq<(Seq<char>, Seq<char>)>,
    pub tests: Seq<char>,
    pub miri_compatible: bool,
    pub canonical_solution: Option<Seq<char>>,
    pub tags: Seq<Seq<char>>,
}

impl View for Task {
    type V = TaskView;

    open spec fn view(&self) -> TaskView {
        TaskView {
            task_id: self.task_id@,
            tier: self.tier,
            min_rust_version: self.min_rust_version@,
            prompt: self.prompt@,
            signature: self.signature@,
            context_code: self.context_code@,
            dependencies: self.dependencies@.map_values(|d: (String, String)| (d.0@, d.1@)),
            tests: self.tests@,
            miri_compatible: self.miri_compatible,
            canonical_solution: opt_text(self.canonical_solution),
            tags: texts(self.tags@),
        }
    }
}

/// The Rust version that a task needs if it names none.
pub fn default_rust_version() -> (s: String)
    ensures
        s@ == "1.75.0"@,
{
    "1.75.0".to_owned()
}

/// Result of evaluating a single task
#[derive(Debug, Clone)]
pub struct TaskResult {
    pub task_id: String,
    pub tier: Tier,
    /// Did cargo check pass?
    pub compiles: bool,
    pub compile_errors: Vec<String>,
    /// Structured compiler diagnostics with error codes and categories
    pub compiler_diagnostics: Vec<CompilerDiagnostic>,
    /// Total number of compiler errors (distance to compilation)
    pub error_count: u32,
    /// Test results
    pub tests_passed: u32,
    pub tests_total: u32,
    pub tests_failed: u32,
    pub tests_timed_out: bool,
    pub test_output: String,
    /// Clippy results
    pub clippy_warnings: u32,
    pub clippy_errors: u32,
    pub clippy_details: Vec<String>,
    pub clippy_output: String,
    /// Miri results (if applicable)
    pub miri_clean: Option<bool>,
    pub miri_errors: Vec<String>,
    pub miri_output: String,
    /// Whether the generated code contains `unsafe` blocks
    pub contains_unsafe: bool,
    /// The generated code
    pub generated_code: String,
    /// Timing info
    pub generation_time_ms: u64,
    pub compilation_time_ms: u64,
    /// Composite scores
    pub scores: Scores,
}

/// Multi-dimensional scores
#[derive(Debug, Clone, Copy, PartialEq, Eq, Structural)]
pub struct Scores {
    /// Functional Correctness: the share of the tests that passed
    pub functional_correctness: Ratio,
    /// Memory Safety Score: 1 if Miri calls the code clean, one half if tests pass but Miri
    /// fails, 0 otherwise
    pub memory_safety: Ratio,
    /// Idiomatic Quality: what the weighted lints leave of 1
    pub idiomatic_quality: Ratio,
    /// Compilation Efficiency: 1 if the code compiles, 0 otherwise
    pub compilation: Ratio,
    /// Composite RPI score
    pub rpi: Ratio,
}

/// The Rust Proficiency Index: nothing for code that does not compile, else functional
/// correctness for 40%, memory safety for 35% and idiomatic quality for 25%.
pub open spec fn rpi_of(compilation: real, correctness: real, safety: real, quality: real) -> real {
    if compilation < 1real / 2real {
        0real
    } else {
        (40real * correctness + 35real * safety + 25real * quality) / 100real
    }
}

impl Scores {
    /// The denominator that functional correctness and memory safety are brought to.
    pub open spec fn pair_den(self) -> int {
        if self.functional_correctness.den == self.memory_safety.den {
            self.functional_correctness.den as int
        } else {
            self.functional_correctness.den * self.memory_safety.den
        }
    }

    /// 8 times functional correctness and 7 times memory safety, over `pair_den`.
    pub open spec fn pair_num(self) -> int {
        if self.functional_correctness.den == self.memory_safety.den {
            8 * self.functional_correctness.num + 7 * self.memory_safety.num
        } else {
            8 * (self.functional_correctness.num * self.memory_safety.den) + 7 * (
            self.memory_safety.num * self.functional_correctness.den)
        }
    }

    /// The index of code that compiles, as a fraction: its numerator ...
    pub open spec fn rpi_num(self) -> int {
        self.pair_num() * self.idiomatic_quality.den + 5 * (self.idiomatic_quality.num
            * self.pair_den())
    }

    /// ... and its denominator.
    pub open spec fn rpi_den(self) -> int {
        20 * (self.pair_den() * self.idiomatic_quality.den)
    }

    /// Every score has a value, and the index fits the fractions that it is kept in.
    pub open spec fn wf(self) -> bool {
        &&& self.functional_correctness.wf()
        &&& self.memory_safety.wf()
        &&& self.idiomatic_quality.wf()
        &&& self.compilation.wf()
        &&& self.rpi_num() <= u128::MAX
        &&& self.rpi_den() <= u128::MAX
    }

    /// The index is the weighted sum of the three scores.
    pub proof fn rpi_fraction(self)
        requires
            self.wf(),
        ensures
            self.rpi_den() > 0,
            self.rpi_num() >= 0,
            self.rpi_num() as real / self.rpi_den() as real == (40real
                * self.functional_correctness.value() + 35real * self.memory_safety.value() + 25real
                * self.idiomatic_quality.value()) / 100real,
    {
        let a = self.functional_correctness.num as real;
        let b = self.functional_correctness.den as real;
        let c = self.memory_safety.num as real;
        let d = self.memory_safety.den as real;
        let e = self.idiomatic_quality.num as real;
        let f = self.idiomatic_quality.den as real;
        let pd = self.pair_den();
        let pn = self.pair_num();
        product_as_real(
            self.functional_correctness.den as int,
            self.memory_safety.den as int,
        );
        product_as_real(
            self.functional_correctness.num as int,
            self.memory_safety.den as int,
        );
        product_as_real(
            self.memory_safety.num as int,
            self.functional_correctness.den as int,
        );
        assert(pd > 0) by {
            let x = self.functional_correctness.den as int;
            let y = self.memory_safety.den as int;
            assert(x * y > 0) by (nonlinear_arith)
                requires
                    x > 0,
                    y > 0,
            ;
        }
        let x = pn as real;
        let y = pd as real;
        assert(x / y == 8real * (a / b) + 7real * (c / d)) by {
            if self.functional_correctness.den == self.memory_safety.den {
                assert((8real * a + 7real * c) / b == 8real * (a / b) + 7real * (c / b))
                    by (nonlinear_arith)
                    requires
                        b > 0real,
                ;
            } else {
                assert((8real * (a * d) + 7real * (c * b)) / (b * d) == 8real * (a / b) + 7real * (c
                    / d)) by (nonlinear_arith)
                    requires
                        b > 0real,
                        d > 0real,
                ;
            }
        }
        product_as_real(pn, self.idiomatic_quality.den as int);
        product_as_real(self.idiomatic_quality.num as int, pd);
        product_as_real(pd, self.idiomatic_quality.den as int);
        let q = self.idiomatic_quality.den as int;
        assert(pd * q > 0) by (nonlinear_arith)
            requires
                pd > 0,
                q > 0,
        ;
        assert((x * f + 5real * (e * y)) / (20real * (y * f)) == (x / y + 5real * (e / f)) / 20real)
            by (nonlinear_arith)
            requires
                y > 0real,
                f > 0real,
        ;
        assert(pn >= 0) by {
            let m = self.functional_correctness.num as int;
            let n = self.memory_safety.den as int;
            let o = self.memory_safety.num as int;
            let p = self.functional_correctness.den as int;
            assert(m * n >= 0 && o * p >= 0) by (nonlinear_arith)
                requires
                    m >= 0,
                    n >= 0,
                    o >= 0,
                    p >= 0,
            ;
        }
        let r = self.idiomatic_quality.num as int;
        assert(pn * q >= 0 && r * pd >= 0) by (nonlinear_arith)
            requires
                pn >= 0,
                q >= 0,
                r >= 0,
                pd >= 0,
        ;
    }
}

impl Default for Scores {
    /// Every score is 0.
    fn default() -> (scores: Scores)
        ensures
            scores == no_scores(),
    {
        Scores {
            functional_correctness: Ratio::zero(),
            memory_safety: Ratio::zero(),
            idiomatic_quality: Ratio::zero(),
            compilation: Ratio::zero(),
            rpi: Ratio::zero(),
        }
    }
}

/// The scores of which every one is 0.
pub open spec fn no_scores() -> Scores {
    let zero = Ratio { num: 0, den: 1 };
    Scores {
        functional_correctness: zero,
        memory_safety: zero,
        idiomatic_quality: zero,
        compilation: zero,
        rpi: zero,
    }
}

/// The scores with the index computed from the others.
pub open spec fn with_rpi(scores: Scores) -> Scores {
    if scores.compilation.value() < 1real / 2real {
        Scores { rpi: Ratio { num: 0, den: 1 }, ..scores }
    } else {
        Scores {
            rpi: Ratio { num: scores.rpi_num() as u128, den: scores.rpi_den() as u128 },
            ..scores
        }
    }
}

impl Scores {
    /// Calculates the Rust Proficiency Index from the other scores.
    pub fn calculate_rpi(&mut self)
        requires
            old(self).compilation.wf(),
            old(self).compilation.value() >= 1real / 2real ==> old(self).wf(),
        ensures
            *final(self) == with_rpi(*old(self)),
            final(self).rpi.wf(),
            final(self).rpi.value() == rpi_of(
                old(self).compilation.value(),
                old(self).functional_correctness.value(),
                old(self).memory_safety.value(),
                old(self).idiomatic_quality.value(),
            ),
    {
        if self.compilation.below_half() {
            self.rpi = Ratio::zero();
        } else {
            proof {
                self.rpi_fraction();
            }
            let fc = self.functional_correctness;
            let ms = self.memory_safety;
            let iq = self.idiomatic_quality;
            let ghost scores = *self;
            proof {
                lemma_terms_fit(scores);
            }
            let pair_den: u128 = if fc.den == ms.den { fc.den } else { fc.den * ms.den };
            let pair_num: u128 = if fc.den == ms.den {
                8 * fc.num + 7 * ms.num
            } else {
                8 * (fc.num * ms.den) + 7 * (ms.num * fc.den)
            };
            let num: u128 = pair_num * iq.den + 5 * (iq.num * pair_den);
            let den: u128 = 20 * (pair_den * iq.den);
            self.rpi = Ratio::new(num, den);
        }
    }
}

/// The index that is computed is the one that the other scores give.
pub proof fn with_rpi_value(scores: Scores)
    requires
        scores.compilation.wf(),
        scores.compilation.value() >= 1real / 2real ==> scores.wf(),
    ensures
        with_rpi(scores).rpi.wf(),
        with_rpi(scores).rpi.value() == rpi_of(
            scores.compilation.value(),
            scores.functional_correctness.value(),
            scores.memory_safety.value(),
            scores.idiomatic_quality.value(),
        ),
{
    if scores.compilation.value() >= 1real / 2real {
        scores.rpi_fraction();
    } else {
        (Ratio { num: 0, den: 1 }).in_unit_value();
    }
}

/// The terms from which the index is computed are no larger than what they are part of.
proof fn lemma_terms_fit(scores: Scores)
    requires
        scores.wf(),
    ensures
        0 < scores.pair_den() <= scores.pair_den() * scores.idiomatic_quality.den,
        0 <= scores.pair_num() <= scores.pair_num() * scores.idiomatic_quality.den
            <= scores.rpi_num(),
        0 <= scores.idiomatic_quality.num * scores.pair_den() <= scores.rpi_num(),
        0 <= scores.pair_den() * scores.idiomatic_quality.den <= scores.rpi_den(),
        0 <= scores.functional_correctness.num * scores.memory_safety.den,
        0 <= scores.memory_safety.num * scores.functional_correctness.den,
{
    let fcn = scores.functional_correctness.num as int;
    let fcd = scores.functional_correctness.den as int;
    let msn = scores.memory_safety.num as int;
    let msd = scores.memory_safety.den as int;
    let iqn = scores.idiomatic_quality.num as int;
    let iqd = scores.idiomatic_quality.den as int;
    assert(fcd * msd > 0 && fcn * msd >= 0 && msn * fcd >= 0) by (nonlinear_arith)
        requires
            fcd > 0,
            msd > 0,
            fcn >= 0,
            msn >= 0,
    ;
    let pd = scores.pair_den();
    let pn = scores.pair_num();
    assert(pd <= pd * iqd && pn <= pn * iqd && 0 <= iqn * pd) by (nonlinear_arith)
        requires
            pd > 0,
            pn >= 0,
            iqd >= 1,
            iqn >= 0,
    ;
}

impl TaskResult {
    /// The result of a task of which nothing is known yet.
    pub fn new(task_id: String, tier: Tier) -> (result: TaskResult)
        ensures
            result.task_id == task_id,
            result.tier == tier,
            !result.compiles,
            result.compile_errors@ == Seq::<String>::empty(),
            result.compiler_diagnostics@ == Seq::<CompilerDiagnostic>::empty(),
            result.error_count == 0,
            result.tests_passed == 0,
            result.tests_total == 0,
            result.tests_failed == 0,
            !result.tests_timed_out,
            result.test_output@ == Seq::<char>::empty(),
            result.clippy_warnings == 0,
            result.clippy_errors == 0,
            result.clippy_details@ == Seq::<String>::empty(),
            result.clippy_output@ == Seq::<char>::empty(),
            result.miri_clean == None::<bool>,
            result.miri_errors@ == Seq::<String>::empty(),
            result.miri_output@ == Seq::<char>::empty(),
            !result.contains_unsafe,
            result.generated_code@ == Seq::<char>::empty(),
            result.generation_time_ms == 0,
            result.compilation_time_ms == 0,
            result.scores == no_scores(),
    {
        TaskResult {
            task_id,
            tier,
            compiles: false,
            compile_errors: Vec::new(),
            compiler_diagnostics: Vec::new(),
            error_count: 0,
            tests_passed: 0,
            tests_total: 0,
            tests_failed: 0,
            tests_timed_out: false,
            test_output: String::new(),
            clippy_warnings: 0,
            clippy_errors: 0,
            clippy_details: Vec::new(),
            clippy_output: String::new(),
            miri_clean: None,
            miri_errors: Vec::new(),
            miri_output: String::new(),
            contains_unsafe: false,
            generated_code: String::new(),
            generation_time_ms: 0,
            compilation_time_ms: 0,
            scores: Scores::default(),
        }
    }
}

/// Where each of the three scores lies between 0 and 1, so does the index.
pub proof fn rpi_in_unit(compilation: real, correctness: real, safety: real, quality: real)
    requires
        0real <= correctness <= 1real,
        0real <= safety <= 1real,
        0real <= quality <= 1real,
    ensures
        0real <= rpi_of(compilation, correctness, safety, quality) <= 1real,
{
}

/// Code that does not compile has the index 0, whatever its other scores are.
pub proof fn rpi_without_compilation(correctness: real, safety: real, quality: real)
    ensures
        rpi_of(0real, correctness, safety, quality) == 0real,
{
}

/// Where each of the three scores lies between 0 and 1, the index of code that compiles
/// is 1 if and only if all three are.
pub proof fn rpi_of_perfect_code(correctness: real, safety: real, quality: real)
    requires
        0real <= correctness <= 1real,
        0real <= safety <= 1real,
        0real <= quality <= 1real,
    ensures
        rpi_of(1real, correctness, safety, quality) == 1real <==> correctness == 1real && safety
            == 1real && quality == 1real,
{
}

/// A better score never lowers the index.
pub proof fn rpi_is_monotone(
    compilation: real,
    correctness: real,
    safety: real,
    quality: real,
    better_correctness: real,
    better_safety: real,
    better_quality: real,
)
    requires
        correctness <= better_correctness,
        safety <= better_safety,
        quality <= better_quality,
    ensures
        rpi_of(compilation, correctness, safety, quality) <= rpi_of(
            compilation,
            better_correctness,
            better_safety,
            better_quality,
        ),
{
}

/// Where no score is negative, a better compilation score does not lower the index either.
pub proof fn rpi_is_monotone_in_all(
    compilation: real,
    correctness: real,
    safety: real,
    quality: real,
    better_compilation: real,
    better_correctness: real,
    better_safety: real,
    better_quality: real,
)
    requires
        compilation <= better_compilation,
        0real <= correctness <= better_correctness,
        0real <= safety <= better_safety,
        0real <= quality <= better_quality,
    ensures
        rpi_of(compilation, correctness, safety, quality) <= rpi_of(
            better_compilation,
            better_correctness,
            better_safety,
            better_quality,
        ),
{
}

} // verus!
