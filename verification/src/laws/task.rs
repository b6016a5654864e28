//! Laws of tiers, categories and scores.

use vstd::prelude::*;
use crate::ratio::Ratio;
use crate::task::{
    category_of, is_borrow_code, is_import_code, is_lifetime_code, is_syntax_code, is_type_code,
    no_scores, rpi_of, with_rpi, with_rpi_value, CompilerDiagnostic, ErrorCategory, Scores, Task,
};
use crate::text::holds;

verus! {

/// The fraction as a number.
pub open spec fn number(r: Ratio) -> real {
    r.num as real / r.den as real
}

/// The value of a fraction times its denominator is its numerator.
pub proof fn fraction_times_denominator(r: Ratio)
    requires
        r.den > 0,
    ensures
        r.value() * (r.den as real) == r.num as real,
        r.wf(),
        r.in_unit() <==> r.num <= r.den,
{
    let n = r.num as real;
    let d = r.den as real;
    assert((n / d) * d == n) by (nonlinear_arith)
        requires
            d > 0real,
    ;
}

/// A code belongs to the borrow checker, to lifetimes, to types, to imports or to syntax
/// exactly where it is one of theirs; every other code is of no category.
pub proof fn categories_of_codes(code: Seq<char>, message: Seq<char>)
    ensures
        ({
            let borrow = seq!["E0382"@, "E0505"@, "E0502"@, "E0499"@, "E0503"@, "E0597"@];
            let lifetime = seq!["E0106"@, "E0621"@, "E0495"@, "E0700"@];
            let types = seq!["E0308"@, "E0277"@, "E0271"@, "E0369"@, "E0599"@];
            let imports = seq!["E0432"@, "E0433"@, "E0412"@, "E0425"@];
            let syntax = seq!["E0063"@, "E0061"@, "E0054"@];
            let c = category_of(Some(code), message);
            &&& c == ErrorCategory::BorrowChecker <==> borrow.contains(code)
            &&& c == ErrorCategory::Lifetime <==> lifetime.contains(code)
            &&& c == ErrorCategory::TypeMismatch <==> types.contains(code)
            &&& c == ErrorCategory::UnresolvedImport <==> imports.contains(code)
            &&& c == ErrorCategory::Syntax <==> syntax.contains(code)
            &&& c == ErrorCategory::Other <==> !(borrow + lifetime + types + imports
                + syntax).contains(code)
        }),
{
    lemma_codes_differ();
    let borrow = seq!["E0382"@, "E0505"@, "E0502"@, "E0499"@, "E0503"@, "E0597"@];
    let lifetime = seq!["E0106"@, "E0621"@, "E0495"@, "E0700"@];
    let types = seq!["E0308"@, "E0277"@, "E0271"@, "E0369"@, "E0599"@];
    let imports = seq!["E0432"@, "E0433"@, "E0412"@, "E0425"@];
    let syntax = seq!["E0063"@, "E0061"@, "E0054"@];
    let all = borrow + lifetime + types + imports + syntax;
    assert(borrow[0] == "E0382"@ && borrow[1] == "E0505"@ && borrow[2] == "E0502"@ && borrow[3]
        == "E0499"@ && borrow[4] == "E0503"@ && borrow[5] == "E0597"@);
    assert(lifetime[0] == "E0106"@ && lifetime[1] == "E0621"@ && lifetime[2] == "E0495"@
        && lifetime[3] == "E0700"@);
    assert(types[0] == "E0308"@ && types[1] == "E0277"@ && types[2] == "E0271"@ && types[3]
        == "E0369"@ && types[4] == "E0599"@);
    assert(imports[0] == "E0432"@ && imports[1] == "E0433"@ && imports[2] == "E0412"@ && imports[3]
        == "E0425"@);
    assert(syntax[0] == "E0063"@ && syntax[1] == "E0061"@ && syntax[2] == "E0054"@);
    assert(all[0] == borrow[0] && all[1] == borrow[1] && all[2] == borrow[2] && all[3] == borrow[3]
        && all[4] == borrow[4] && all[5] == borrow[5]);
    assert(all[6] == lifetime[0] && all[7] == lifetime[1] && all[8] == lifetime[2] && all[9]
        == lifetime[3]);
    assert(all[10] == types[0] && all[11] == types[1] && all[12] == types[2] && all[13] == types[3]
        && all[14] == types[4]);
    assert(all[15] == imports[0] && all[16] == imports[1] && all[17] == imports[2] && all[18]
        == imports[3]);
    assert(all[19] == syntax[0] && all[20] == syntax[1] && all[21] == syntax[2]);
}

/// The number in a code of five characters.
spec fn code_number(code: Seq<char>) -> int {
    100 * (code[2] as int - '0' as int) + 10 * (code[3] as int - '0' as int) + (code[4] as int
        - '0' as int)
}

/// No code is listed twice.
proof fn lemma_codes_differ()
    ensures
        forall|a: Seq<char>| #[trigger]
            is_borrow_code(a) ==> !is_lifetime_code(a) && !is_type_code(a) && !is_import_code(a)
                && !is_syntax_code(a),
        forall|a: Seq<char>| #[trigger]
            is_lifetime_code(a) ==> !is_type_code(a) && !is_import_code(a) && !is_syntax_code(a),
        forall|a: Seq<char>| #[trigger]
            is_type_code(a) ==> !is_import_code(a) && !is_syntax_code(a),
        forall|a: Seq<char>| #[trigger] is_import_code(a) ==> !is_syntax_code(a),
{
    reveal_strlit("E0382");
    reveal_strlit("E0505");
    reveal_strlit("E0502");
    reveal_strlit("E0499");
    reveal_strlit("E0503");
    reveal_strlit("E0597");
    reveal_strlit("E0106");
    reveal_strlit("E0621");
    reveal_strlit("E0495");
    reveal_strlit("E0700");
    reveal_strlit("E0308");
    reveal_strlit("E0277");
    reveal_strlit("E0271");
    reveal_strlit("E0369");
    reveal_strlit("E0599");
    reveal_strlit("E0432");
    reveal_strlit("E0433");
    reveal_strlit("E0412");
    reveal_strlit("E0425");
    reveal_strlit("E0063");
    reveal_strlit("E0061");
    reveal_strlit("E0054");
    assert(code_number("E0382"@) == 382);
    assert(code_number("E0505"@) == 505);
    assert(code_number("E0502"@) == 502);
    assert(code_number("E0499"@) == 499);
    assert(code_number("E0503"@) == 503);
    assert(code_number("E0597"@) == 597);
    assert(code_number("E0106"@) == 106);
    assert(code_number("E0621"@) == 621);
    assert(code_number("E0495"@) == 495);
    assert(code_number("E0700"@) == 700);
    assert(code_number("E0308"@) == 308);
    assert(code_number("E0277"@) == 277);
    assert(code_number("E0271"@) == 271);
    assert(code_number("E0369"@) == 369);
    assert(code_number("E0599"@) == 599);
    assert(code_number("E0432"@) == 432);
    assert(code_number("E0433"@) == 433);
    assert(code_number("E0412"@) == 412);
    assert(code_number("E0425"@) == 425);
    assert(code_number("E0063"@) == 63);
    assert(code_number("E0061"@) == 61);
    assert(code_number("E0054"@) == 54);
}

/// An error without a code is one of syntax exactly where its message says what was expected
/// and what was found.
pub proof fn categories_of_messages(message: Seq<char>)
    ensures
        category_of(None, message) == ErrorCategory::Syntax <==> holds(message, "expected"@)
            && holds(message, "found"@),
        category_of(None, message) != ErrorCategory::Syntax ==> category_of(None, message)
            == ErrorCategory::Other,
{
}

/// What is seen of a diagnostic is its fields.
pub proof fn diagnostic_is_seen(d: CompilerDiagnostic)
    ensures
        d@.message == d.message@,
        d@.level == d.level@,
        d@.category == d.category,
        d@.code is Some <==> d.code is Some,
        d.code is Some ==> d@.code->0 == d.code->0@,
{
}

/// What is seen of a task is its fields, entry by entry.
pub proof fn task_is_seen(t: Task)
    ensures
        t@.task_id == t.task_id@,
        t@.tier == t.tier,
        t@.min_rust_version == t.min_rust_version@,
        t@.prompt == t.prompt@,
        t@.signature == t.signature@,
        t@.context_code == t.context_code@,
        t@.tests == t.tests@,
        t@.miri_compatible == t.miri_compatible,
        t@.canonical_solution is Some <==> t.canonical_solution is Some,
        t.canonical_solution is Some ==> t@.canonical_solution->0 == t.canonical_solution->0@,
        t@.dependencies.len() == t.dependencies@.len(),
        forall|i: int|
            0 <= i < t.dependencies@.len() ==> #[trigger] t@.dependencies[i] == (
                t.dependencies@[i].0@,
                t.dependencies@[i].1@,
            ),
        t@.tags.len() == t.tags@.len(),
        forall|i: int| 0 <= i < t.tags@.len() ==> #[trigger] t@.tags[i] == t.tags@[i]@,
{
}

/// Of code that compiles, 20 times the index is 8 times functional correctness, 7 times
/// memory safety and 5 times idiomatic quality; of code that does not, the index is 0.
pub proof fn index_weighs_the_scores(
    compilation: real,
    correctness: real,
    safety: real,
    quality: real,
)
    ensures
        compilation >= 1real / 2real ==> 20real * rpi_of(compilation, correctness, safety, quality)
            == 8real * correctness + 7real * safety + 5real * quality,
        compilation < 1real / 2real ==> rpi_of(compilation, correctness, safety, quality) == 0real,
{
}

/// Computing the index changes no other score.
pub proof fn index_changes_nothing_else(s: Scores)
    ensures
        with_rpi(s).functional_correctness == s.functional_correctness,
        with_rpi(s).memory_safety == s.memory_safety,
        with_rpi(s).idiomatic_quality == s.idiomatic_quality,
        with_rpi(s).compilation == s.compilation,
{
}

/// The index that is computed of code that compiles weighs the scores as numbers.
pub proof fn computed_index(s: Scores)
    requires
        s.wf(),
    ensures
        with_rpi(s).rpi.den > 0,
        number(s.compilation) >= 1real / 2real ==> 20real * number(with_rpi(s).rpi) == 8real
            * number(s.functional_correctness) + 7real * number(s.memory_safety) + 5real * number(
            s.idiomatic_quality,
        ),
        number(s.compilation) < 1real / 2real ==> with_rpi(s).rpi.num == 0,
{
    with_rpi_value(s);
    assert(with_rpi(s).rpi.value() == number(with_rpi(s).rpi));
}

/// At the start every score is 0.
pub proof fn scores_begin_with_nothing()
    ensures
        no_scores().functional_correctness.num == 0 && no_scores().functional_correctness.den > 0,
        no_scores().memory_safety.num == 0 && no_scores().memory_safety.den > 0,
        no_scores().idiomatic_quality.num == 0 && no_scores().idiomatic_quality.den > 0,
        no_scores().compilation.num == 0 && no_scores().compilation.den > 0,
        no_scores().rpi.num == 0 && no_scores().rpi.den > 0,
{
}

/// A task is well-formed exactly where it names no dependency twice.
pub proof fn dependencies_are_named_once(t: Task, i: int, j: int)
    requires
        t.wf(),
        0 <= i < t.dependencies@.len(),
        0 <= j < t.dependencies@.len(),
        t.dependencies@[i].0@ == t.dependencies@[j].0@,
    ensures
        i == j,
{
}

} // verus!
