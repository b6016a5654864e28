//! What is shown to the user: lines made of spans of text and numbers.

use vstd::prelude::*;
use crate::decode::filter_step;
use crate::number::{decimal, numeral, signed_decimal, signed_numeral};
use crate::ratio::Ratio;
use crate::task::{ErrorCategory, TaskResult, Tier};
use crate::text::texts;

verus! {

/// How a span is painted.
#[derive(Debug, Clone, Copy, PartialEq, Eq, Structural)]
pub enum Paint {
    Plain,
    Red,
    Green,
    Yellow,
    Cyan,
    Bold,
}

/// To which width a span is filled up with spaces, and on which side.
#[derive(Debug, Clone, Copy, PartialEq, Eq, Structural)]
pub enum Pad {
    No,
    /// Spaces follow the text.
    After(usize),
    /// Spaces go before the text.
    Before(usize),
    /// Spaces go on both sides.
    Around(usize),
}

/// A score of which an average is shown.
#[derive(Debug, Clone, Copy, PartialEq, Eq, Structural)]
pub enum Metric {
    Rpi,
    FunctionalCorrectness,
    MemorySafety,
    IdiomaticQuality,
}

/// What a span shows.
#[derive(Debug)]
pub enum Content {
    Text(String),
    /// A fraction, with the given number of decimal places.
    Fraction(Ratio, usize),
    /// A fraction in percent, with one decimal place.
    Percent(Ratio),
    /// The average of a score with two decimal places, over the results of a tier or over
    /// all results.
    Average(Metric, Option<Tier>),
}

/// A part of a line.
#[derive(Debug)]
pub struct Span {
    pub content: Content,
    pub paint: Paint,
    pub pad: Pad,
}

/// What a span shows, in terms of characters.
pub enum ContentView {
    Text(Seq<char>),
    Fraction(Ratio, usize),
    Percent(Ratio),
    Average(Metric, Option<Tier>),
}

/// The contents of a span.
pub struct SpanView {
    pub content: ContentView,
    pub paint: Paint,
    pub pad: Pad,
}

impl View for Span {
    type V = SpanView;

    open spec fn view(&self) -> SpanView {
        SpanView {
            content: match self.content {
                Content::Text(t) => ContentView::Text(t@),
                Content::Fraction(r, places) => ContentView::Fraction(r, places),
                Content::Percent(r) => ContentView::Percent(r),
                Content::Average(m, tier) => ContentView::Average(m, tier),
            },
            paint: self.paint,
            pad: self.pad,
        }
    }
}

/// The contents of a line.
pub open spec fn line_view(line: Seq<Span>) -> Seq<SpanView> {
    line.map_values(|s: Span| s@)
}

/// The contents of several lines.
pub open spec fn lines_view(lines: Seq<Vec<Span>>) -> Seq<Seq<SpanView>> {
    lines.map_values(|line: Vec<Span>| line_view(line@))
}

/// Painted text.
pub open spec fn painted(text: Seq<char>, paint: Paint) -> SpanView {
    SpanView { content: ContentView::Text(text), paint, pad: Pad::No }
}

/// Text as it is.
pub open spec fn plain(text: Seq<char>) -> SpanView {
    painted(text, Paint::Plain)
}

/// Painted text that is filled up with spaces.
pub open spec fn padded(text: Seq<char>, paint: Paint, pad: Pad) -> SpanView {
    SpanView { content: ContentView::Text(text), paint, pad }
}

/// A number that is not painted.
pub open spec fn shown(content: ContentView) -> SpanView {
    SpanView { content, paint: Paint::Plain, pad: Pad::No }
}

fn paint(s: &str, color: Paint) -> (span: Span)
    ensures
        span@ == painted(s@, color),
{
    Span { content: Content::Text(s.to_owned()), paint: color, pad: Pad::No }
}

fn text(s: &str) -> (span: Span)
    ensures
        span@ == plain(s@),
{
    paint(s, Paint::Plain)
}

fn fill(s: &str, color: Paint, pad: Pad) -> (span: Span)
    ensures
        span@ == padded(s@, color, pad),
{
    Span { content: Content::Text(s.to_owned()), paint: color, pad }
}

fn fraction(r: Ratio, places: usize) -> (span: Span)
    ensures
        span@ == shown(ContentView::Fraction(r, places)),
{
    Span { content: Content::Fraction(r, places), paint: Paint::Plain, pad: Pad::No }
}

fn percent(r: Ratio) -> (span: Span)
    ensures
        span@ == shown(ContentView::Percent(r)),
{
    Span { content: Content::Percent(r), paint: Paint::Plain, pad: Pad::No }
}

fn average(metric: Metric, tier: Option<Tier>) -> (span: Span)
    ensures
        span@ == shown(ContentView::Average(metric, tier)),
{
    Span { content: Content::Average(metric, tier), paint: Paint::Plain, pad: Pad::No }
}

/// How a tier is shown.
pub open spec fn tier_label(tier: Tier) -> Seq<char> {
    match tier {
        Tier::AlgorithmicCore => "Tier1: Algorithmic"@,
        Tier::IdiomaticSystems => "Tier2: Idiomatic"@,
        Tier::SafetyCritical => "Tier3: Safety"@,
        Tier::RepositoryArchitecture => "Tier4: Architecture"@,
    }
}

/// How a tier is shown.
pub fn tier_to_string(tier: &Tier) -> (s: String)
    ensures
        s@ == tier_label(*tier),
{
    match tier {
        Tier::AlgorithmicCore => "Tier1: Algorithmic".to_owned(),
        Tier::IdiomaticSystems => "Tier2: Idiomatic".to_owned(),
        Tier::SafetyCritical => "Tier3: Safety".to_owned(),
        Tier::RepositoryArchitecture => "Tier4: Architecture".to_owned(),
    }
}

/// How a category is shown.
pub open spec fn category_label(category: ErrorCategory) -> Seq<char> {
    match category {
        ErrorCategory::Syntax => "Syntax"@,
        ErrorCategory::BorrowChecker => "BorrowChecker"@,
        ErrorCategory::TypeMismatch => "TypeMismatch"@,
        ErrorCategory::Lifetime => "Lifetime"@,
        ErrorCategory::UnresolvedImport => "UnresolvedImport"@,
        ErrorCategory::Other => "Other"@,
    }
}

fn category_text(category: &ErrorCategory) -> (s: &'static str)
    ensures
        s@ == category_label(*category),
{
    match category {
        ErrorCategory::Syntax => "Syntax",
        ErrorCategory::BorrowChecker => "BorrowChecker",
        ErrorCategory::TypeMismatch => "TypeMismatch",
        ErrorCategory::Lifetime => "Lifetime",
        ErrorCategory::UnresolvedImport => "UnresolvedImport",
        ErrorCategory::Other => "Other",
    }
}

/// A check mark or a cross.
pub open spec fn mark(good: bool) -> SpanView {
    if good {
        painted("✓"@, Paint::Green)
    } else {
        painted("✗"@, Paint::Red)
    }
}

fn mark_of(good: bool) -> (s: Span)
    ensures
        s@ == mark(good),
{
    if good {
        paint("✓", Paint::Green)
    } else {
        paint("✗", Paint::Red)
    }
}

/// How the tests of a result went.
pub open spec fn tests_span(r: TaskResult) -> SpanView {
    if r.tests_timed_out {
        painted("TIMEOUT"@, Paint::Red)
    } else if r.tests_total > 0 {
        plain(numeral(r.tests_passed as nat) + "/"@ + numeral(r.tests_total as nat))
    } else {
        plain("-"@)
    }
}

/// What Clippy found.
pub open spec fn clippy_span(r: TaskResult) -> SpanView {
    if r.clippy_errors > 0 {
        painted(
            numeral(r.clippy_errors as nat) + "E "@ + numeral(r.clippy_warnings as nat) + "W"@,
            Paint::Red,
        )
    } else if r.clippy_warnings > 0 {
        painted(numeral(r.clippy_warnings as nat) + "W"@, Paint::Yellow)
    } else {
        painted("clean"@, Paint::Green)
    }
}

/// What Miri found.
pub open spec fn miri_span(r: TaskResult) -> SpanView {
    match r.miri_clean {
        Some(clean) => mark(clean),
        None => plain("-"@),
    }
}

/// Whether the code is unsafe.
pub open spec fn unsafe_span(r: TaskResult) -> SpanView {
    if r.contains_unsafe {
        painted(" [unsafe]"@, Paint::Yellow)
    } else {
        plain(""@)
    }
}

/// The line of a result.
pub open spec fn status_line(r: TaskResult) -> Seq<SpanView> {
    seq![
        plain("  Compile: "@),
        mark(r.compiles),
        plain(" | Tests: "@),
        tests_span(r),
        plain(" | Clippy: "@),
        clippy_span(r),
        plain(" | Miri: "@),
        miri_span(r),
        plain(" | RPI: "@),
        shown(ContentView::Fraction(r.scores.rpi, 2)),
        unsafe_span(r),
    ]
}

/// How many errors keep the code from compiling.
pub open spec fn distance_line(r: TaskResult) -> Seq<SpanView> {
    seq![
        plain("  "@),
        painted("Errors:"@, Paint::Red),
        plain(
            " "@ + numeral(r.error_count as nat) + " errors (distance to compilation: "@ + numeral(
                r.error_count as nat,
            ) + ")"@,
        ),
    ]
}

/// The first line of the list of errors.
pub open spec fn first_error(r: TaskResult) -> Seq<char> {
    if r.compile_errors@.len() > 0 {
        r.compile_errors@[0]@
    } else {
        Seq::empty()
    }
}

/// The first error, with its code and its category.
pub open spec fn diagnostic_line(r: TaskResult) -> Seq<SpanView> {
    let d = r.compiler_diagnostics@[0];
    let code = match d.code {
        Some(c) => c@,
        None => "--"@,
    };
    seq![
        plain("  "@),
        painted("First:"@, Paint::Red),
        plain(" ["@ + code + "] "@ + category_label(d.category) + ": "@ + first_error(r)),
    ]
}

/// The first error, of which no more is known.
pub open spec fn error_line(r: TaskResult) -> Seq<SpanView> {
    seq![plain("  "@), painted("Error:"@, Paint::Red), plain(" "@ + first_error(r))]
}

/// The lines that are shown of a result.
pub open spec fn result_lines(r: TaskResult) -> Seq<Seq<SpanView>> {
    let status = seq![status_line(r)];
    if r.compiles {
        status
    } else {
        let distance = if r.error_count > 0 {
            status.push(distance_line(r))
        } else {
            status
        };
        if r.compiler_diagnostics@.len() > 0 {
            distance.push(diagnostic_line(r))
        } else if r.compile_errors@.len() > 0 {
            distance.push(error_line(r))
        } else {
            distance
        }
    }
}

fn tests_of(r: &TaskResult) -> (s: Span)
    ensures
        s@ == tests_span(*r),
{
    if r.tests_timed_out {
        paint("TIMEOUT", Paint::Red)
    } else if r.tests_total > 0 {
        let mut t = decimal(r.tests_passed as u128);
        t.append("/");
        t.append(decimal(r.tests_total as u128).as_str());
        text(t.as_str())
    } else {
        text("-")
    }
}

fn clippy_of(r: &TaskResult) -> (s: Span)
    ensures
        s@ == clippy_span(*r),
{
    if r.clippy_errors > 0 {
        let mut t = decimal(r.clippy_errors as u128);
        t.append("E ");
        t.append(decimal(r.clippy_warnings as u128).as_str());
        t.append("W");
        paint(t.as_str(), Paint::Red)
    } else if r.clippy_warnings > 0 {
        let mut t = decimal(r.clippy_warnings as u128);
        t.append("W");
        paint(t.as_str(), Paint::Yellow)
    } else {
        paint("clean", Paint::Green)
    }
}

/// The line of a result.
fn status_of(r: &TaskResult) -> (line: Vec<Span>)
    ensures
        line_view(line@) == status_line(*r),
{
    let mut line: Vec<Span> = Vec::new();
    line.push(text("  Compile: "));
    line.push(mark_of(r.compiles));
    line.push(text(" | Tests: "));
    line.push(tests_of(r));
    line.push(text(" | Clippy: "));
    line.push(clippy_of(r));
    line.push(text(" | Miri: "));
    line.push(
        match r.miri_clean {
            Some(clean) => mark_of(clean),
            None => text("-"),
        },
    );
    line.push(text(" | RPI: "));
    line.push(fraction(r.scores.rpi, 2));
    line.push(
        if r.contains_unsafe {
            paint(" [unsafe]", Paint::Yellow)
        } else {
            text("")
        },
    );
    assert(line_view(line@) =~= status_line(*r));
    line
}

/// A line of two spaces, a red word and the rest.
fn red_line(word: &str, rest: &str) -> (line: Vec<Span>)
    ensures
        line_view(line@) == seq![plain("  "@), painted(word@, Paint::Red), plain(rest@)],
{
    let mut line: Vec<Span> = Vec::new();
    line.push(text("  "));
    line.push(paint(word, Paint::Red));
    line.push(text(rest));
    assert(line_view(line@) =~= seq![plain("  "@), painted(word@, Paint::Red), plain(rest@)]);
    line
}

fn first_error_of(r: &TaskResult) -> (s: String)
    ensures
        s@ == first_error(*r),
{
    if r.compile_errors.len() > 0 {
        r.compile_errors[0].clone()
    } else {
        String::new()
    }
}

/// The lines that are shown of a result.
pub fn result_summary(r: &TaskResult) -> (lines: Vec<Vec<Span>>)
    ensures
        lines_view(lines@) == result_lines(*r),
{
    let mut lines: Vec<Vec<Span>> = Vec::new();
    lines.push(status_of(r));
    if !r.compiles {
        if r.error_count > 0 {
            let mut t = " ".to_owned();
            t.append(decimal(r.error_count as u128).as_str());
            t.append(" errors (distance to compilation: ");
            t.append(decimal(r.error_count as u128).as_str());
            t.append(")");
            lines.push(red_line("Errors:", t.as_str()));
        }
        if r.compiler_diagnostics.len() > 0 {
            let d = &r.compiler_diagnostics[0];
            let mut t = " [".to_owned();
            match &d.code {
                Some(c) => t.append(c.as_str()),
                None => t.append("--"),
            }
            t.append("] ");
            t.append(category_text(&d.category));
            t.append(": ");
            t.append(first_error_of(r).as_str());
            lines.push(red_line("First:", t.as_str()));
        } else if r.compile_errors.len() > 0 {
            let mut t = " ".to_owned();
            t.append(first_error_of(r).as_str());
            lines.push(red_line("Error:", t.as_str()));
        }
    }
    assert(lines_view(lines@) =~= result_lines(*r));
    lines
}

/// The code compiles.
pub open spec fn compiled() -> spec_fn(TaskResult) -> bool {
    |r: TaskResult| r.compiles
}

/// There are tests, and all of them passed in time.
pub open spec fn all_passed() -> spec_fn(TaskResult) -> bool {
    |r: TaskResult| r.tests_passed == r.tests_total && r.tests_total > 0 && !r.tests_timed_out
}

/// The tests passed their time limit.
pub open spec fn timed_out() -> spec_fn(TaskResult) -> bool {
    |r: TaskResult| r.tests_timed_out
}

/// Miri calls the code clean.
pub open spec fn miri_clean() -> spec_fn(TaskResult) -> bool {
    |r: TaskResult| r.miri_clean == Some(true)
}

/// The code is unsafe.
pub open spec fn with_unsafe() -> spec_fn(TaskResult) -> bool {
    |r: TaskResult| r.contains_unsafe
}

/// The task is of the given tier.
pub open spec fn of_tier(tier: Tier) -> spec_fn(TaskResult) -> bool {
    |r: TaskResult| r.tier == tier
}

/// The errors of all code that does not compile.
pub open spec fn failed_errors(results: Seq<TaskResult>) -> nat
    decreases results.len(),
{
    if results.len() == 0 {
        0
    } else {
        failed_errors(results.drop_last()) + if results.last().compiles {
            0nat
        } else {
            results.last().error_count as nat
        }
    }
}

/// How often each outcome occurred.
#[derive(Debug)]
pub struct Tally {
    pub total: usize,
    pub compiled: usize,
    pub all_passed: usize,
    pub timed_out: usize,
    pub miri_clean: usize,
    pub with_unsafe: usize,
    /// The errors of all code that does not compile
    pub failed_errors: u128,
}

/// The tally counts the outcomes of the results.
pub open spec fn tallies(t: Tally, results: Seq<TaskResult>) -> bool {
    &&& t.total == results.len()
    &&& t.compiled == results.filter(compiled()).len()
    &&& t.all_passed == results.filter(all_passed()).len()
    &&& t.timed_out == results.filter(timed_out()).len()
    &&& t.miri_clean == results.filter(miri_clean()).len()
    &&& t.with_unsafe == results.filter(with_unsafe()).len()
    &&& t.failed_errors == failed_errors(results)
}

/// Counts the outcomes of the results.
pub fn tally(results: &Vec<TaskResult>) -> (t: Tally)
    ensures
        tallies(t, results@),
{
    let mut t = Tally {
        total: 0,
        compiled: 0,
        all_passed: 0,
        timed_out: 0,
        miri_clean: 0,
        with_unsafe: 0,
        failed_errors: 0,
    };
    let mut i: usize = 0;
    proof {
        reveal(Seq::filter);
    }
    while i < results.len()
        invariant
            i <= results@.len(),
            tallies(t, results@.take(i as int)),
            t.compiled <= i,
            t.all_passed <= i,
            t.timed_out <= i,
            t.miri_clean <= i,
            t.with_unsafe <= i,
            t.failed_errors <= i * u32::MAX,
        decreases results@.len() - i,
    {
        let r = &results[i];
        proof {
            let k = i as int;
            filter_step(results@, compiled(), k);
            filter_step(results@, all_passed(), k);
            filter_step(results@, timed_out(), k);
            filter_step(results@, miri_clean(), k);
            filter_step(results@, with_unsafe(), k);
            assert(results@.take(k + 1).drop_last() =~= results@.take(k));
        }
        t.total += 1;
        if r.compiles {
            t.compiled += 1;
        } else {
            t.failed_errors += r.error_count as u128;
        }
        if r.tests_passed == r.tests_total && r.tests_total > 0 && !r.tests_timed_out {
            t.all_passed += 1;
        }
        if r.tests_timed_out {
            t.timed_out += 1;
        }
        if let Some(true) = r.miri_clean {
            t.miri_clean += 1;
        }
        if r.contains_unsafe {
            t.with_unsafe += 1;
        }
        i += 1;
    }
    assert(results@.take(i as int) =~= results@);
    t
}

/// How many of the results are of a tier.
pub fn count_tier(results: &Vec<TaskResult>, tier: Tier) -> (n: usize)
    ensures
        n == results@.filter(of_tier(tier)).len(),
{
    let mut n: usize = 0;
    let mut i: usize = 0;
    proof {
        reveal(Seq::filter);
    }
    while i < results.len()
        invariant
            n <= i <= results@.len(),
            n == results@.take(i as int).filter(of_tier(tier)).len(),
        decreases results@.len() - i,
    {
        proof {
            filter_step(results@, of_tier(tier), i as int);
        }
        if results[i].tier == tier {
            n += 1;
        }
        i += 1;
    }
    assert(results@.take(i as int) =~= results@);
    n
}

/// The line that separates sections.
pub const RULE: &'static str = "═══════════════════════════════════════════════════════════";

/// A separating line.
pub open spec fn rule_line() -> Seq<SpanView> {
    seq![painted(RULE@, Paint::Cyan)]
}

/// A fraction of the results; of no results it is 0.
pub open spec fn share(n: nat, total: nat) -> Ratio {
    Ratio {
        num: n as u128,
        den: if total == 0 {
            1
        } else {
            total as u128
        },
    }
}

/// A number with a label before it and a remark behind it.
pub open spec fn count_line(label: Seq<char>, n: nat, remark: Seq<char>) -> Seq<SpanView> {
    seq![plain(label), plain(numeral(n)), plain(remark)]
}

/// A number with a label, and which share of the total it is.
pub open spec fn share_line(label: Seq<char>, n: nat, total: nat) -> Seq<SpanView> {
    seq![
        plain(label),
        plain(numeral(n)),
        plain(" ("@),
        shown(ContentView::Percent(share(n, total))),
        plain("%)"@),
    ]
}

/// The average of a score.
pub open spec fn average_line(label: Seq<char>, metric: Metric) -> Seq<SpanView> {
    seq![plain(label), shown(ContentView::Average(metric, None)), plain("/1.00"@)]
}

/// The lines if the condition holds, else none.
pub open spec fn lines_if(condition: bool, line: Seq<SpanView>) -> Seq<Seq<SpanView>> {
    if condition {
        seq![line]
    } else {
        Seq::empty()
    }
}

/// How many results there are and which outcomes they had.
pub open spec fn outcome_lines(results: Seq<TaskResult>) -> Seq<Seq<SpanView>> {
    let total = results.len();
    let slow = results.filter(timed_out()).len();
    let with_unsafe = results.filter(with_unsafe()).len();
    seq![
        rule_line(),
        seq![
            painted("                    EVALUATION SUMMARY                      "@, Paint::Cyan),
        ],
        rule_line(),
        count_line("  Total Tasks:       "@, total, ""@),
        share_line("  Compiled:          "@, results.filter(compiled()).len(), total),
        share_line("  All Tests Passed:  "@, results.filter(all_passed()).len(), total),
    ] + lines_if(slow > 0, count_line("  Timed Out:         "@, slow, " (deadlock?)"@)) + seq![
        count_line("  Miri Clean:        "@, results.filter(miri_clean()).len(), ""@),
    ] + lines_if(with_unsafe > 0, count_line("  Contains Unsafe:   "@, with_unsafe, ""@))
}

/// The average scores, and the average number of errors where code did not compile.
pub open spec fn score_lines(results: Seq<TaskResult>) -> Seq<Seq<SpanView>> {
    let failed = (results.len() - results.filter(compiled()).len()) as nat;
    seq![
        Seq::empty(),
        average_line("  Avg RPI Score:     "@, Metric::Rpi),
        average_line("  Avg Func. Correct: "@, Metric::FunctionalCorrectness),
        average_line("  Avg Memory Safety: "@, Metric::MemorySafety),
        average_line("  Avg Idiom Quality: "@, Metric::IdiomaticQuality),
    ] + lines_if(
        failed > 0,
        seq![
            plain("  Avg Errors (fail): "@),
            shown(ContentView::Fraction(share(failed_errors(results), failed), 1)),
            plain(" (distance to compilation)"@),
        ],
    )
}

/// How a tier did.
pub open spec fn tier_line(tier: Tier, n: nat) -> Seq<SpanView> {
    seq![
        plain("  "@),
        padded(tier_label(tier), Paint::Plain, Pad::After(25)),
        plain(" "@),
        padded(numeral(n), Paint::Plain, Pad::Before(3)),
        plain(" tasks, avg RPI: "@),
        shown(ContentView::Average(Metric::Rpi, Some(tier))),
    ]
}

/// How a tier did, if there are results of it.
pub open spec fn tier_lines(results: Seq<TaskResult>, tier: Tier) -> Seq<Seq<SpanView>> {
    let n = results.filter(of_tier(tier)).len();
    lines_if(n > 0, tier_line(tier, n))
}

/// How long it took, and how each tier did.
pub open spec fn closing_lines(results: Seq<TaskResult>, secs: u64) -> Seq<Seq<SpanView>> {
    seq![
        Seq::empty(),
        count_line("  Duration:          "@, secs as nat, "s"@),
        rule_line(),
        Seq::empty(),
        seq![painted("Score by Tier:"@, Paint::Bold)],
    ] + tier_lines(results, Tier::AlgorithmicCore) + tier_lines(results, Tier::IdiomaticSystems)
        + tier_lines(results, Tier::SafetyCritical) + tier_lines(
        results,
        Tier::RepositoryArchitecture,
    )
}

/// The lines that are shown at the end of a run.
pub open spec fn final_lines(results: Seq<TaskResult>, secs: u64) -> Seq<Seq<SpanView>> {
    outcome_lines(results) + score_lines(results) + closing_lines(results, secs)
}

fn one_span(span: Span) -> (line: Vec<Span>)
    ensures
        line_view(line@) == seq![span@],
{
    let mut line: Vec<Span> = Vec::new();
    line.push(span);
    assert(line_view(line@) =~= seq![span@]);
    line
}

fn rule() -> (line: Vec<Span>)
    ensures
        line_view(line@) == rule_line(),
{
    one_span(paint(RULE, Paint::Cyan))
}

fn blank() -> (line: Vec<Span>)
    ensures
        line_view(line@) == Seq::<SpanView>::empty(),
{
    let line: Vec<Span> = Vec::new();
    assert(line_view(line@) =~= Seq::<SpanView>::empty());
    line
}

fn counted(label: &str, n: u128, remark: &str) -> (line: Vec<Span>)
    ensures
        line_view(line@) == count_line(label@, n as nat, remark@),
{
    let mut line: Vec<Span> = Vec::new();
    line.push(text(label));
    line.push(text(decimal(n).as_str()));
    line.push(text(remark));
    assert(line_view(line@) =~= count_line(label@, n as nat, remark@));
    line
}

fn share_of(n: u128, total: u128) -> (r: Ratio)
    ensures
        r == share(n as nat, total as nat),
        r.wf(),
{
    Ratio { num: n, den: if total == 0 { 1 } else { total } }
}

fn shared(label: &str, n: usize, total: usize) -> (line: Vec<Span>)
    ensures
        line_view(line@) == share_line(label@, n as nat, total as nat),
{
    let mut line: Vec<Span> = Vec::new();
    line.push(text(label));
    line.push(text(decimal(n as u128).as_str()));
    line.push(text(" ("));
    line.push(percent(share_of(n as u128, total as u128)));
    line.push(text("%)"));
    assert(line_view(line@) =~= share_line(label@, n as nat, total as nat));
    line
}

fn averaged(label: &str, metric: Metric) -> (line: Vec<Span>)
    ensures
        line_view(line@) == average_line(label@, metric),
{
    let mut line: Vec<Span> = Vec::new();
    line.push(text(label));
    line.push(average(metric, None));
    line.push(text("/1.00"));
    assert(line_view(line@) =~= average_line(label@, metric));
    line
}

/// Adds the line of a tier, if there are results of it.
fn add_tier(lines: &mut Vec<Vec<Span>>, results: &Vec<TaskResult>, tier: Tier)
    ensures
        lines_view(final(lines)@) == lines_view(old(lines)@) + tier_lines(results@, tier),
{
    let n: usize = count_tier(results, tier);
    let ghost before = lines_view(lines@);
    if n > 0 {
        let mut line: Vec<Span> = Vec::new();
        line.push(text("  "));
        line.push(fill(tier_to_string(&tier).as_str(), Paint::Plain, Pad::After(25)));
        line.push(text(" "));
        line.push(fill(decimal(n as u128).as_str(), Paint::Plain, Pad::Before(3)));
        line.push(text(" tasks, avg RPI: "));
        line.push(average(Metric::Rpi, Some(tier)));
        assert(line_view(line@) =~= tier_line(tier, n as nat));
        lines.push(line);
    }
    assert(lines_view(lines@) =~= before + tier_lines(results@, tier));
}

/// How many results there are and which outcomes they had.
fn outcomes(results: &Vec<TaskResult>, t: &Tally) -> (lines: Vec<Vec<Span>>)
    requires
        tallies(*t, results@),
    ensures
        lines_view(lines@) == outcome_lines(results@),
{
    let mut lines: Vec<Vec<Span>> = Vec::new();
    lines.push(rule());
    lines.push(
        one_span(
            paint("                    EVALUATION SUMMARY                      ", Paint::Cyan),
        ),
    );
    lines.push(rule());
    lines.push(counted("  Total Tasks:       ", t.total as u128, ""));
    lines.push(shared("  Compiled:          ", t.compiled, t.total));
    lines.push(shared("  All Tests Passed:  ", t.all_passed, t.total));
    if t.timed_out > 0 {
        lines.push(counted("  Timed Out:         ", t.timed_out as u128, " (deadlock?)"));
    }
    lines.push(counted("  Miri Clean:        ", t.miri_clean as u128, ""));
    if t.with_unsafe > 0 {
        lines.push(counted("  Contains Unsafe:   ", t.with_unsafe as u128, ""));
    }
    assert(lines_view(lines@) =~= outcome_lines(results@));
    lines
}

/// The average scores, and the average number of errors where code did not compile.
fn scores(results: &Vec<TaskResult>, t: &Tally) -> (lines: Vec<Vec<Span>>)
    requires
        tallies(*t, results@),
    ensures
        lines_view(lines@) == score_lines(results@),
{
    let mut lines: Vec<Vec<Span>> = Vec::new();
    lines.push(blank());
    lines.push(averaged("  Avg RPI Score:     ", Metric::Rpi));
    lines.push(averaged("  Avg Func. Correct: ", Metric::FunctionalCorrectness));
    lines.push(averaged("  Avg Memory Safety: ", Metric::MemorySafety));
    lines.push(averaged("  Avg Idiom Quality: ", Metric::IdiomaticQuality));
    proof {
        broadcast use vstd::seq_lib::group_filter_ensures;

        assert(results@.filter(compiled()).len() <= results@.len());
    }
    if t.compiled < t.total {
        let mut line: Vec<Span> = Vec::new();
        line.push(text("  Avg Errors (fail): "));
        line.push(fraction(share_of(t.failed_errors, (t.total - t.compiled) as u128), 1));
        line.push(text(" (distance to compilation)"));
        assert(line_view(line@) =~= seq![
            plain("  Avg Errors (fail): "@),
            shown(
                ContentView::Fraction(
                    share(failed_errors(results@), (t.total - t.compiled) as nat),
                    1,
                ),
            ),
            plain(" (distance to compilation)"@),
        ]);
        lines.push(line);
    }
    assert(lines_view(lines@) =~= score_lines(results@));
    lines
}

/// The lines that are shown at the end of a run that took the given number of seconds.
pub fn final_summary(results: &Vec<TaskResult>, secs: u64) -> (lines: Vec<Vec<Span>>)
    ensures
        lines_view(lines@) == final_lines(results@, secs),
{
    let t = tally(results);
    let mut lines = outcomes(results, &t);
    let mut more = scores(results, &t);
    let ghost first = lines_view(lines@);
    let ghost second = lines_view(more@);
    lines.append(&mut more);
    assert(lines_view(lines@) =~= first + second);
    lines.push(blank());
    lines.push(counted("  Duration:          ", secs as u128, "s"));
    lines.push(rule());
    lines.push(blank());
    lines.push(one_span(paint("Score by Tier:", Paint::Bold)));
    let ghost opening: Seq<Seq<SpanView>> = seq![
        Seq::empty(),
        count_line("  Duration:          "@, secs as nat, "s"@),
        rule_line(),
        Seq::empty(),
        seq![painted("Score by Tier:"@, Paint::Bold)],
    ];
    assert(lines_view(lines@) =~= first + second + opening);
    add_tier(&mut lines, results, Tier::AlgorithmicCore);
    add_tier(&mut lines, results, Tier::IdiomaticSystems);
    add_tier(&mut lines, results, Tier::SafetyCritical);
    add_tier(&mut lines, results, Tier::RepositoryArchitecture);
    assert(lines_view(lines@) =~= final_lines(results@, secs));
    lines
}

/// Every result belongs to exactly one tier: the numbers that are shown of the tiers add up
/// to the number of results.
pub proof fn tiers_partition_results(results: Seq<TaskResult>)
    ensures
        results.filter(of_tier(Tier::AlgorithmicCore)).len() + results.filter(
            of_tier(Tier::IdiomaticSystems),
        ).len() + results.filter(of_tier(Tier::SafetyCritical)).len() + results.filter(
            of_tier(Tier::RepositoryArchitecture),
        ).len() == results.len(),
    decreases results.len(),
{
    reveal(Seq::filter);
    if results.len() > 0 {
        tiers_partition_results(results.drop_last());
        let last = results.last();
        assert(last.tier == Tier::AlgorithmicCore || last.tier == Tier::IdiomaticSystems
            || last.tier == Tier::SafetyCritical || last.tier == Tier::RepositoryArchitecture);
    }
}

/// What does not compile is what is left of the results.
pub proof fn failures_are_the_rest(results: Seq<TaskResult>)
    ensures
        results.filter(|r: TaskResult| !r.compiles).len() == results.len() - results.filter(
            compiled(),
        ).len(),
    decreases results.len(),
{
    reveal(Seq::filter);
    if results.len() > 0 {
        failures_are_the_rest(results.drop_last());
    }
}

/// No outcome is counted more often than there are results, and what passed all its tests
/// did not also run out of time.
pub proof fn counts_within_total(results: Seq<TaskResult>)
    ensures
        results.filter(compiled()).len() <= results.len(),
        results.filter(miri_clean()).len() <= results.len(),
        results.filter(with_unsafe()).len() <= results.len(),
        results.filter(all_passed()).len() + results.filter(timed_out()).len() <= results.len(),
    decreases results.len(),
{
    reveal(Seq::filter);
    if results.len() > 0 {
        counts_within_total(results.drop_last());
    }
}

/// The line of a model in a list.
pub open spec fn model_line(model: Seq<char>) -> Seq<SpanView> {
    seq![plain("  • "@ + model)]
}

/// The heading of the list of models.
pub open spec fn models_heading() -> Seq<Seq<SpanView>> {
    seq![
        rule_line(),
        seq![
            painted("                    MODELS IN DATABASE                      "@, Paint::Cyan),
        ],
        rule_line(),
    ]
}

/// The lines that list the models in the database.
pub open spec fn model_lines(models: Seq<Seq<char>>) -> Seq<Seq<SpanView>> {
    if models.len() == 0 {
        models_heading() + seq![seq![plain("No models found in database."@)]]
    } else {
        models_heading() + models.map_values(|m: Seq<char>| model_line(m)) + seq![
            Seq::empty(),
            count_line("Total: "@, models.len(), " models"@),
        ]
    }
}

/// Lists the models in the database.
pub fn model_list(models: &Vec<String>) -> (lines: Vec<Vec<Span>>)
    ensures
        lines_view(lines@) == model_lines(texts(models@)),
{
    let mut lines: Vec<Vec<Span>> = Vec::new();
    lines.push(rule());
    lines.push(
        one_span(
            paint("                    MODELS IN DATABASE                      ", Paint::Cyan),
        ),
    );
    lines.push(rule());
    let ghost all = texts(models@);
    assert(lines_view(lines@) =~= models_heading());
    if models.len() == 0 {
        lines.push(one_span(text("No models found in database.")));
        assert(lines_view(lines@) =~= model_lines(all));
        return lines;
    }
    let mut i: usize = 0;
    assert(lines_view(lines@) =~= models_heading() + all.take(0).map_values(
        |m: Seq<char>| model_line(m),
    ));
    while i < models.len()
        invariant
            i <= models@.len(),
            all == texts(models@),
            lines_view(lines@) == models_heading() + all.take(i as int).map_values(
                |m: Seq<char>| model_line(m),
            ),
        decreases models@.len() - i,
    {
        let ghost before = lines_view(lines@);
        let mut t = "  • ".to_owned();
        t.append(models[i].as_str());
        lines.push(one_span(text(t.as_str())));
        assert(lines_view(lines@) =~= before.push(model_line(all[i as int])));
        i += 1;
        assert(lines_view(lines@) =~= models_heading() + all.take(i as int).map_values(
            |m: Seq<char>| model_line(m),
        ));
    }
    assert(all.take(i as int) =~= all);
    lines.push(blank());
    lines.push(counted("Total: ", models.len() as u128, " models"));
    assert(lines_view(lines@) =~= model_lines(all));
    lines
}

/// The heading of a report on one model or one task.
pub open spec fn boxed_heading(title: Seq<char>) -> Seq<Seq<SpanView>> {
    seq![
        rule_line(),
        seq![
            painted("║"@, Paint::Cyan),
            plain(" "@),
            padded(title, Paint::Bold, Pad::Around(51)),
            plain(" "@),
            painted("║"@, Paint::Cyan),
        ],
        rule_line(),
    ]
}

/// The heading of a report on one model or one task.
pub fn heading(title: &str) -> (lines: Vec<Vec<Span>>)
    ensures
        lines_view(lines@) == boxed_heading(title@),
{
    let mut line: Vec<Span> = Vec::new();
    line.push(paint("║", Paint::Cyan));
    line.push(text(" "));
    line.push(fill(title, Paint::Bold, Pad::Around(51)));
    line.push(text(" "));
    line.push(paint("║", Paint::Cyan));
    assert(line_view(line@) =~= boxed_heading(title@)[1]);
    let mut lines: Vec<Vec<Span>> = Vec::new();
    lines.push(rule());
    lines.push(line);
    lines.push(rule());
    assert(lines_view(lines@) =~= boxed_heading(title@));
    lines
}

/// How a model did on a task: the index as it is shown, and the rest of what is compared.
#[derive(Debug)]
pub struct ComparisonRow {
    pub model: String,
    pub rpi: String,
    pub rpi_paint: Paint,
    pub compiles: bool,
    pub tests_passed: i64,
    pub tests_total: i64,
}

/// The line under the heading of a table.
pub const TABLE_RULE: &'static str =
    "────────────────────────────────────────────────────────────";

/// A line of a table of four columns.
pub open spec fn table_line(
    model: Seq<char>,
    rpi: Seq<char>,
    rpi_paint: Paint,
    compiles: Seq<char>,
    compiles_paint: Paint,
    tests: Seq<char>,
) -> Seq<SpanView> {
    seq![
        plain("  "@),
        padded(model, Paint::Plain, Pad::After(25)),
        plain(" "@),
        padded(rpi, rpi_paint, Pad::Before(8)),
        plain(" "@),
        padded(compiles, compiles_paint, Pad::Before(8)),
        plain(" "@),
        padded(tests, Paint::Plain, Pad::Before(8)),
    ]
}

/// The line of a model.
pub open spec fn comparison_line(row: ComparisonRow) -> Seq<SpanView> {
    table_line(
        row.model@,
        row.rpi@,
        row.rpi_paint,
        if row.compiles {
            "✓"@
        } else {
            "✗"@
        },
        if row.compiles {
            Paint::Green
        } else {
            Paint::Red
        },
        signed_numeral(row.tests_passed as int) + "/"@ + signed_numeral(row.tests_total as int),
    )
}

/// The lines that compare how models did on a task.
pub open spec fn comparison_lines(task_id: Seq<char>, rows: Seq<ComparisonRow>) -> Seq<
    Seq<SpanView>,
> {
    let top = boxed_heading("COMPARISON: "@ + task_id);
    if rows.len() == 0 {
        top + seq![seq![plain("No results found for task: "@ + task_id)]]
    } else {
        top + seq![
            Seq::empty(),
            table_line(
                "Model"@,
                "RPI"@,
                Paint::Plain,
                "Compiles"@,
                Paint::Plain,
                "Tests"@,
            ),
            seq![plain("  "@), plain(TABLE_RULE@)],
        ] + rows.map_values(|r: ComparisonRow| comparison_line(r))
    }
}

fn table_row(
    model: &str,
    rpi: &str,
    rpi_paint: Paint,
    compiles: &str,
    compiles_paint: Paint,
    tests: &str,
) -> (line: Vec<Span>)
    ensures
        line_view(line@) == table_line(
            model@,
            rpi@,
            rpi_paint,
            compiles@,
            compiles_paint,
            tests@,
        ),
{
    let mut line: Vec<Span> = Vec::new();
    line.push(text("  "));
    line.push(fill(model, Paint::Plain, Pad::After(25)));
    line.push(text(" "));
    line.push(fill(rpi, rpi_paint, Pad::Before(8)));
    line.push(text(" "));
    line.push(fill(compiles, compiles_paint, Pad::Before(8)));
    line.push(text(" "));
    line.push(fill(tests, Paint::Plain, Pad::Before(8)));
    assert(line_view(line@) =~= table_line(
        model@,
        rpi@,
        rpi_paint,
        compiles@,
        compiles_paint,
        tests@,
    ));
    line
}

fn comparison_row(row: &ComparisonRow) -> (line: Vec<Span>)
    ensures
        line_view(line@) == comparison_line(*row),
{
    let mut tests = signed_decimal(row.tests_passed);
    tests.append("/");
    tests.append(signed_decimal(row.tests_total).as_str());
    if row.compiles {
        table_row(
            row.model.as_str(),
            row.rpi.as_str(),
            row.rpi_paint,
            "✓",
            Paint::Green,
            tests.as_str(),
        )
    } else {
        table_row(
            row.model.as_str(),
            row.rpi.as_str(),
            row.rpi_paint,
            "✗",
            Paint::Red,
            tests.as_str(),
        )
    }
}

/// Compares how models did on a task.
pub fn comparison(task_id: &str, rows: &Vec<ComparisonRow>) -> (lines: Vec<Vec<Span>>)
    ensures
        lines_view(lines@) == comparison_lines(task_id@, rows@),
{
    let mut title = "COMPARISON: ".to_owned();
    title.append(task_id);
    let mut lines = heading(title.as_str());
    let ghost top = lines_view(lines@);
    if rows.len() == 0 {
        let mut t = "No results found for task: ".to_owned();
        t.append(task_id);
        lines.push(one_span(text(t.as_str())));
        assert(lines_view(lines@) =~= comparison_lines(task_id@, rows@));
        return lines;
    }
    lines.push(blank());
    lines.push(table_row("Model", "RPI", Paint::Plain, "Compiles", Paint::Plain, "Tests"));
    let mut under: Vec<Span> = Vec::new();
    under.push(text("  "));
    under.push(text(TABLE_RULE));
    assert(line_view(under@) =~= seq![plain("  "@), plain(TABLE_RULE@)]);
    lines.push(under);
    let ghost head = lines_view(lines@);
    assert(head =~= top + seq![
        Seq::empty(),
        table_line("Model"@, "RPI"@, Paint::Plain, "Compiles"@, Paint::Plain, "Tests"@),
        seq![plain("  "@), plain(TABLE_RULE@)],
    ]);
    let mut i: usize = 0;
    assert(head =~= head + rows@.take(0).map_values(|r: ComparisonRow| comparison_line(r)));
    while i < rows.len()
        invariant
            i <= rows@.len(),
            lines_view(lines@) == head + rows@.take(i as int).map_values(
                |r: ComparisonRow| comparison_line(r),
            ),
        decreases rows@.len() - i,
    {
        let ghost before = lines_view(lines@);
        lines.push(comparison_row(&rows[i]));
        assert(lines_view(lines@) =~= before.push(comparison_line(rows@[i as int])));
        i += 1;
        assert(lines_view(lines@) =~= head + rows@.take(i as int).map_values(
            |r: ComparisonRow| comparison_line(r),
        ));
    }
    assert(rows@.take(i as int) =~= rows@);
    lines
}

} // verus!
