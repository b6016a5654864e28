//! What the Rust toolchain is asked, and what its answers mean.

use vstd::prelude::*;
use vstd::utf8::{decode_utf8, valid_utf8};
use crate::decode::{all_answers, decode_lines, filter_step, total};
use crate::number::{parse_u32, parsed_u32};
use crate::outside::{
    captures_view, first_captures, groups_view, lossy_text, regex_captures, utf8_lossy,
};
use crate::task::{category_of, CompilerDiagnostic, DiagnosticView, ErrorCategory};
use crate::text::{
    contains, count_matches, holds, lines_of, occurrences, opt_text, same_text, split_lines, texts,
};

verus! {

/// What a finished process left behind.
#[derive(Debug)]
pub struct ProcessOutput {
    pub success: bool,
    pub stdout: Vec<u8>,
    pub stderr: Vec<u8>,
}

/// Structured message from `cargo --message-format=json`
#[derive(Debug)]
pub struct CargoMessage {
    pub reason: Option<String>,
    pub message: Option<CargoCompilerMessage>,
}

#[derive(Debug)]
pub struct CargoCompilerMessage {
    pub code: Option<CargoErrorCode>,
    pub level: Option<String>,
    pub message: Option<String>,
    pub rendered: Option<String>,
}

#[derive(Debug)]
pub struct CargoErrorCode {
    pub code: Option<String>,
}

/// What `cargo check` found.
#[derive(Debug)]
pub struct CheckResult {
    pub success: bool,
    pub errors: Vec<String>,
    pub diagnostics: Vec<CompilerDiagnostic>,
}

/// The contents of a check result.
pub struct CheckView {
    pub success: bool,
    pub errors: Seq<Seq<char>>,
    pub diagnostics: Seq<DiagnosticView>,
}

impl View for CheckResult {
    type V = CheckView;

    open spec fn view(&self) -> CheckView {
        CheckView {
            success: self.success,
            errors: texts(self.errors@),
            diagnostics: self.diagnostics@.map_values(|d: CompilerDiagnostic| d@),
        }
    }
}

/// The compiler's message in a line of cargo's output, where there is one.
pub open spec fn compiler_message(msg: Option<CargoMessage>) -> Option<CargoCompilerMessage> {
    match msg {
        Some(m) => if opt_text(m.reason) == Some("compiler-message"@) {
            m.message
        } else {
            None
        },
        None => None,
    }
}

/// The error code of a compiler message.
pub open spec fn error_code(msg: CargoCompilerMessage) -> Option<Seq<char>> {
    match msg.code {
        Some(c) => opt_text(c.code),
        None => None,
    }
}

/// The text of a compiler message.
pub open spec fn error_text(msg: CargoCompilerMessage) -> Seq<char> {
    match msg.message {
        Some(m) => m@,
        None => "unknown error"@,
    }
}

/// The line that stands for a compiler message in the list of errors: the first line of
/// how the compiler would show it, or its text.
pub open spec fn error_line(msg: CargoCompilerMessage) -> Seq<char> {
    match msg.rendered {
        Some(r) => if lines_of(r@).len() > 0 {
            lines_of(r@)[0]
        } else {
            Seq::empty()
        },
        None => error_text(msg),
    }
}

/// The compiler error in a line of cargo's output: a diagnostic and a line of text.
pub open spec fn reported_error(msg: Option<CargoMessage>) -> Option<(DiagnosticView, Seq<char>)> {
    match compiler_message(msg) {
        Some(m) => if opt_text(m.level) == Some("error"@) {
            Some(
                (
                    DiagnosticView {
                        code: error_code(m),
                        message: error_text(m),
                        level: "error"@,
                        category: category_of(error_code(m), error_text(m)),
                    },
                    error_line(m),
                ),
            )
        } else {
            None
        },
        None => None,
    }
}

/// The compiler errors in the lines of cargo's output.
pub open spec fn reported_errors(msgs: Seq<Option<CargoMessage>>) -> Seq<
    (DiagnosticView, Seq<char>),
>
    decreases msgs.len(),
{
    if msgs.len() == 0 {
        Seq::empty()
    } else {
        match reported_error(msgs.last()) {
            Some(e) => reported_errors(msgs.drop_last()).push(e),
            None => reported_errors(msgs.drop_last()),
        }
    }
}

/// A line in which `error` is mentioned.
pub open spec fn mentions_error() -> spec_fn(Seq<char>) -> bool {
    |line: Seq<char>| holds(line, "error"@)
}

/// The errors that are read off plain lines of text.
pub open spec fn plain_errors(lines: Seq<Seq<char>>) -> Seq<(DiagnosticView, Seq<char>)> {
    lines.filter(mentions_error()).map_values(
        |line: Seq<char>|
            (
                DiagnosticView {
                    code: None,
                    message: line,
                    level: "error"@,
                    category: ErrorCategory::Other,
                },
                line,
            ),
    )
}

/// The errors of a check. Plain standard error is read only where the check failed without
/// reporting a single error.
pub open spec fn check_errors(
    success: bool,
    msgs: Seq<Option<CargoMessage>>,
    stderr: Seq<char>,
) -> Seq<(DiagnosticView, Seq<char>)> {
    if !success && reported_errors(msgs).len() == 0 {
        plain_errors(lines_of(stderr))
    } else {
        reported_errors(msgs)
    }
}

/// The result of a check.
pub open spec fn check_view(
    success: bool,
    msgs: Seq<Option<CargoMessage>>,
    stderr: Seq<char>,
) -> CheckView {
    let found = check_errors(success, msgs, stderr);
    CheckView {
        success,
        errors: found.map_values(|e: (DiagnosticView, Seq<char>)| e.1),
        diagnostics: found.map_values(|e: (DiagnosticView, Seq<char>)| e.0),
    }
}

/// Whether an optional string is there and has the given characters.
fn is_text(s: &Option<String>, t: &str) -> (r: bool)
    ensures
        r == (opt_text(*s) == Some(t@)),
{
    match s {
        Some(x) => same_text(x.as_str(), t),
        None => false,
    }
}

/// The compiler's message in a line of cargo's output, where there is one.
fn message_in(msg: &Option<CargoMessage>) -> (r: Option<&CargoCompilerMessage>)
    ensures
        compiler_message(*msg) == match r {
            Some(m) => Some(*m),
            None => None,
        },
{
    match msg {
        Some(m) => {
            if is_text(&m.reason, "compiler-message") {
                m.message.as_ref()
            } else {
                None
            }
        },
        None => None,
    }
}

/// The compiler error in a line of cargo's output: a diagnostic and a line of text.
fn error_in(msg: &Option<CargoMessage>) -> (r: Option<(CompilerDiagnostic, String)>)
    ensures
        reported_error(*msg) == match r {
            Some(e) => Some((e.0@, e.1@)),
            None => None,
        },
{
    let m = match message_in(msg) {
        Some(m) => m,
        None => {
            return None;
        },
    };
    if !is_text(&m.level, "error") {
        return None;
    }
    let text: String = match &m.message {
        Some(t) => t.clone(),
        None => "unknown error".to_owned(),
    };
    let code: Option<String> = match &m.code {
        Some(c) => c.code.clone(),
        None => None,
    };
    let category = match &code {
        Some(c) => CompilerDiagnostic::categorize(Some(c.as_str()), text.as_str()),
        None => CompilerDiagnostic::categorize(None, text.as_str()),
    };
    let line: String = match &m.rendered {
        Some(r) => {
            let lines = split_lines(r.as_str());
            assert(texts(lines@).len() == lines@.len());
            if lines.len() > 0 {
                assert(texts(lines@)[0] == lines@[0]@);
                lines[0].clone()
            } else {
                String::new()
            }
        },
        None => text.clone(),
    };
    Some((CompilerDiagnostic { code, message: text, level: "error".to_owned(), category }, line))
}

/// The result of `cargo check`, from its exit status, the messages that the lines of its
/// standard output hold, and its standard error.
pub fn check_result(success: bool, msgs: &Vec<Option<CargoMessage>>, stderr: &str) -> (r:
    CheckResult)
    ensures
        r@ == check_view(success, msgs@, stderr@),
{
    let mut errors: Vec<String> = Vec::new();
    let mut diagnostics: Vec<CompilerDiagnostic> = Vec::new();
    let ghost mut found: Seq<(DiagnosticView, Seq<char>)> = Seq::empty();
    let mut i: usize = 0;
    proof {
        lemma_listed_none(errors@, diagnostics@);
    }
    while i < msgs.len()
        invariant
            i <= msgs@.len(),
            found == reported_errors(msgs@.take(i as int)),
            listed(found, errors@, diagnostics@),
        decreases msgs@.len() - i,
    {
        assert(msgs@.take(i + 1).drop_last() =~= msgs@.take(i as int));
        match error_in(&msgs[i]) {
            Some((diagnostic, line)) => {
                proof {
                    lemma_listed_push(found, errors@, diagnostics@, line, diagnostic);
                    found = found.push((diagnostic@, line@));
                }
                diagnostics.push(diagnostic);
                errors.push(line);
            },
            None => {},
        }
        i += 1;
    }
    assert(msgs@.take(i as int) =~= msgs@);
    proof {
        lemma_listed_len(found, errors@, diagnostics@);
    }
    if !success && diagnostics.len() == 0 {
        let lines = split_lines(stderr);
        let ghost source = lines_of(stderr@);
        let mut k: usize = 0;
        assert(source.take(0).filter(mentions_error()) =~= Seq::empty()) by {
            reveal(Seq::filter);
        }
        assert(found =~= plain_errors(source.take(0)));
        while k < lines.len()
            invariant
                k <= lines@.len(),
                texts(lines@) == source,
                found == plain_errors(source.take(k as int)),
                listed(found, errors@, diagnostics@),
            decreases lines@.len() - k,
        {
            let line = &lines[k];
            proof {
                filter_step(source, mentions_error(), k as int);
                assert(source[k as int] == line@);
            }
            if contains(line.as_str(), "error") {
                let diagnostic = CompilerDiagnostic {
                    code: None,
                    message: line.clone(),
                    level: "error".to_owned(),
                    category: ErrorCategory::Other,
                };
                let copy = line.clone();
                proof {
                    lemma_listed_push(found, errors@, diagnostics@, copy, diagnostic);
                    found = found.push((diagnostic@, line@));
                    assert(found =~= plain_errors(source.take(k + 1)));
                }
                errors.push(copy);
                diagnostics.push(diagnostic);
            }
            k += 1;
        }
        assert(source.take(k as int) =~= source);
    }
    CheckResult { success, errors, diagnostics }
}

/// `errors` and `diagnostics` list the errors found, one entry each.
spec fn listed(
    found: Seq<(DiagnosticView, Seq<char>)>,
    errors: Seq<String>,
    diagnostics: Seq<CompilerDiagnostic>,
) -> bool {
    &&& texts(errors) == found.map_values(|e: (DiagnosticView, Seq<char>)| e.1)
    &&& diagnostics.map_values(|d: CompilerDiagnostic| d@) == found.map_values(
        |e: (DiagnosticView, Seq<char>)| e.0,
    )
}

/// No error listed.
proof fn lemma_listed_none(errors: Seq<String>, diagnostics: Seq<CompilerDiagnostic>)
    requires
        errors.len() == 0,
        diagnostics.len() == 0,
    ensures
        listed(Seq::empty(), errors, diagnostics),
{
    let none: Seq<(DiagnosticView, Seq<char>)> = Seq::empty();
    assert(texts(errors) =~= none.map_values(|e: (DiagnosticView, Seq<char>)| e.1));
    assert(diagnostics.map_values(|d: CompilerDiagnostic| d@) =~= none.map_values(
        |e: (DiagnosticView, Seq<char>)| e.0,
    ));
}

/// There are as many entries as errors.
proof fn lemma_listed_len(
    found: Seq<(DiagnosticView, Seq<char>)>,
    errors: Seq<String>,
    diagnostics: Seq<CompilerDiagnostic>,
)
    requires
        listed(found, errors, diagnostics),
    ensures
        errors.len() == found.len(),
        diagnostics.len() == found.len(),
{
    assert(texts(errors).len() == errors.len());
    assert(found.map_values(|e: (DiagnosticView, Seq<char>)| e.1).len() == found.len());
    assert(diagnostics.map_values(|d: CompilerDiagnostic| d@).len() == diagnostics.len());
    assert(found.map_values(|e: (DiagnosticView, Seq<char>)| e.0).len() == found.len());
}

/// One more error listed.
proof fn lemma_listed_push(
    found: Seq<(DiagnosticView, Seq<char>)>,
    errors: Seq<String>,
    diagnostics: Seq<CompilerDiagnostic>,
    line: String,
    diagnostic: CompilerDiagnostic,
)
    requires
        listed(found, errors, diagnostics),
    ensures
        listed(found.push((diagnostic@, line@)), errors.push(line), diagnostics.push(diagnostic)),
{
    let more = found.push((diagnostic@, line@));
    assert(texts(errors.push(line)) =~= texts(errors).push(line@));
    assert(more.map_values(|e: (DiagnosticView, Seq<char>)| e.1) =~= found.map_values(
        |e: (DiagnosticView, Seq<char>)| e.1,
    ).push(line@));
    assert(diagnostics.push(diagnostic).map_values(|d: CompilerDiagnostic| d@)
        =~= diagnostics.map_values(|d: CompilerDiagnostic| d@).push(diagnostic@));
    assert(more.map_values(|e: (DiagnosticView, Seq<char>)| e.0) =~= found.map_values(
        |e: (DiagnosticView, Seq<char>)| e.0,
    ).push(diagnostic@));
}

/// The result of `cargo check`, from what the process left behind. `decode` reads the
/// message that a line of standard output holds. Output that is valid UTF-8 is read as it
/// is.
pub fn check_report<F: Fn(&str) -> Option<CargoMessage>>(
    output: &ProcessOutput,
    decode: &F,
) -> (r: CheckResult)
    requires
        total(*decode),
    ensures
        exists|msgs: Seq<Option<CargoMessage>>|
            {
                &&& #[trigger] all_answers(*decode, lines_of(utf8_lossy(output.stdout@)), msgs)
                &&& r@ == check_view(output.success, msgs, utf8_lossy(output.stderr@))
            },
        valid_utf8(output.stdout@) ==> utf8_lossy(output.stdout@) == decode_utf8(
            output.stdout@,
        ),
        valid_utf8(output.stderr@) ==> utf8_lossy(output.stderr@) == decode_utf8(
            output.stderr@,
        ),
{
    let stdout = lossy_text(&output.stdout);
    let stderr = lossy_text(&output.stderr);
    let msgs = decode_lines(stdout.as_str(), decode);
    check_result(output.success, &msgs, stderr.as_str())
}

/// What became of a run that compiles code.
#[derive(Debug)]
pub enum BuildRun {
    /// The time limit passed before the run ended.
    TimedOut,
    Finished(ProcessOutput),
}

/// The result of a check that passed its time limit: it failed, with that as its only error.
pub open spec fn timed_out_check() -> CheckView {
    let said = "TIMEOUT: compilation exceeded time limit"@;
    CheckView {
        success: false,
        errors: seq![said],
        diagnostics: seq![
            DiagnosticView {
                code: None,
                message: said,
                level: "error"@,
                category: ErrorCategory::Other,
            },
        ],
    }
}

/// The result of `cargo check`, from what became of its run. Output that is valid UTF-8 is
/// read as it is.
pub fn check_outcome<F: Fn(&str) -> Option<CargoMessage>>(run: &BuildRun, decode: &F) -> (r:
    CheckResult)
    requires
        total(*decode),
    ensures
        match run {
            BuildRun::TimedOut => r@ == timed_out_check(),
            BuildRun::Finished(output) => exists|msgs: Seq<Option<CargoMessage>>|
                {
                    &&& #[trigger] all_answers(
                        *decode,
                        lines_of(utf8_lossy(output.stdout@)),
                        msgs,
                    )
                    &&& r@ == check_view(output.success, msgs, utf8_lossy(output.stderr@))
                },
        },
        match run {
            BuildRun::TimedOut => true,
            BuildRun::Finished(output) => {
                &&& valid_utf8(output.stdout@) ==> utf8_lossy(output.stdout@) == decode_utf8(
                    output.stdout@,
                )
                &&& valid_utf8(output.stderr@) ==> utf8_lossy(output.stderr@) == decode_utf8(
                    output.stderr@,
                )
            },
        },
{
    match run {
        BuildRun::TimedOut => {
            let said = "TIMEOUT: compilation exceeded time limit";
            let mut diagnostics: Vec<CompilerDiagnostic> = Vec::new();
            diagnostics.push(
                CompilerDiagnostic {
                    code: None,
                    message: said.to_owned(),
                    level: "error".to_owned(),
                    category: ErrorCategory::Other,
                },
            );
            let r = CheckResult { success: false, errors: single(said), diagnostics };
            assert(r@.diagnostics =~= timed_out_check().diagnostics);
            r
        },
        BuildRun::Finished(output) => check_report(output, decode),
    }
}

/// What `cargo clippy` found.
#[derive(Debug)]
pub struct ClippyResult {
    pub warnings: u32,
    pub errors: u32,
    pub details: Vec<String>,
    pub output: String,
}

/// The contents of a Clippy result.
pub struct ClippyView {
    pub warnings: u32,
    pub errors: u32,
    pub details: Seq<Seq<char>>,
    pub output: Seq<char>,
}

impl View for ClippyResult {
    type V = ClippyView;

    open spec fn view(&self) -> ClippyView {
        ClippyView {
            warnings: self.warnings,
            errors: self.errors,
            details: texts(self.details@),
            output: self.output@,
        }
    }
}

/// A line of cargo's output holds a compiler message of the given level.
pub open spec fn has_level(msg: Option<CargoMessage>, level: Seq<char>) -> bool {
    compiler_message(msg) matches Some(m) && opt_text(m.level) == Some(level)
}

/// How many lines hold a compiler message of the given level.
pub open spec fn level_count(msgs: Seq<Option<CargoMessage>>, level: Seq<char>) -> nat
    decreases msgs.len(),
{
    if msgs.len() == 0 {
        0
    } else {
        level_count(msgs.drop_last(), level) + if has_level(msgs.last(), level) {
            1nat
        } else {
            0nat
        }
    }
}

/// The texts of the warnings and errors, in their order.
pub open spec fn lint_texts(msgs: Seq<Option<CargoMessage>>) -> Seq<Seq<char>>
    decreases msgs.len(),
{
    if msgs.len() == 0 {
        Seq::empty()
    } else {
        let before = lint_texts(msgs.drop_last());
        match compiler_message(msgs.last()) {
            Some(m) => if (opt_text(m.level) == Some("warning"@) || opt_text(m.level) == Some(
                "error"@,
            )) && m.message is Some {
                before.push(m.message->0@)
            } else {
                before
            },
            None => before,
        }
    }
}

/// At most the first ten of a list.
pub open spec fn first_ten(list: Seq<Seq<char>>) -> Seq<Seq<char>> {
    if list.len() <= 10 {
        list
    } else {
        list.take(10)
    }
}

/// A line in which `a` or `b` is mentioned.
pub open spec fn mentions(a: Seq<char>, b: Seq<char>) -> spec_fn(Seq<char>) -> bool {
    |line: Seq<char>| holds(line, a) || holds(line, b)
}

/// The result of a Clippy run. Counters hold 32 bits. Plain standard error is read only
/// where no warning and no error was reported.
pub open spec fn clippy_view(msgs: Seq<Option<CargoMessage>>, stderr: Seq<char>) -> ClippyView {
    let warnings = level_count(msgs, "warning"@) as u32;
    let errors = level_count(msgs, "error"@) as u32;
    let details = first_ten(lint_texts(msgs));
    if warnings == 0 && errors == 0 {
        ClippyView {
            warnings: occurrences(stderr, "warning:"@) as u32,
            errors: occurrences(stderr, "error:"@) as u32,
            details: if details.len() == 0 {
                first_ten(lines_of(stderr).filter(mentions("warning:"@, "error:"@)))
            } else {
                details
            },
            output: stderr,
        }
    } else {
        ClippyView { warnings, errors, details, output: stderr }
    }
}

/// The lines of a text in which `a` or `b` is mentioned.
fn lines_mentioning(text: &str, a: &str, b: &str) -> (found: Vec<String>)
    ensures
        texts(found@) == lines_of(text@).filter(mentions(a@, b@)),
{
    let lines = split_lines(text);
    let ghost source = lines_of(text@);
    let mut found: Vec<String> = Vec::new();
    let mut i: usize = 0;
    assert(source.take(0).filter(mentions(a@, b@)) =~= Seq::empty()) by {
        reveal(Seq::filter);
    }
    while i < lines.len()
        invariant
            i <= lines@.len(),
            texts(lines@) == source,
            texts(found@) == source.take(i as int).filter(mentions(a@, b@)),
        decreases lines@.len() - i,
    {
        let line = &lines[i];
        let ghost before = texts(found@);
        proof {
            filter_step(source, mentions(a@, b@), i as int);
            assert(source[i as int] == line@);
        }
        if contains(line.as_str(), a) || contains(line.as_str(), b) {
            found.push(line.clone());
            assert(texts(found@) =~= before.push(line@));
        }
        i += 1;
    }
    assert(source.take(i as int) =~= source);
    found
}

/// At most the first ten of a list.
fn keep_ten(list: Vec<String>) -> (r: Vec<String>)
    ensures
        texts(r@) == first_ten(texts(list@)),
{
    let mut r = list;
    if r.len() > 10 {
        r.truncate(10);
    }
    assert(texts(r@) =~= first_ten(texts(list@)));
    r
}

/// The result of `cargo clippy`, from the messages that the lines of its standard output
/// hold and from its standard error.
pub fn clippy_result(msgs: &Vec<Option<CargoMessage>>, stderr: String) -> (r: ClippyResult)
    ensures
        r@ == clippy_view(msgs@, stderr@),
{
    let mut warning_count: usize = 0;
    let mut error_count: usize = 0;
    let mut details: Vec<String> = Vec::new();
    let mut i: usize = 0;
    assert(texts(details@) =~= lint_texts(msgs@.take(0)));
    while i < msgs.len()
        invariant
            i <= msgs@.len(),
            warning_count <= i,
            error_count <= i,
            warning_count == level_count(msgs@.take(i as int), "warning"@),
            error_count == level_count(msgs@.take(i as int), "error"@),
            texts(details@) == first_ten(lint_texts(msgs@.take(i as int))),
        decreases msgs@.len() - i,
    {
        let ghost before = lint_texts(msgs@.take(i as int));
        let ghost kept = texts(details@);
        assert(msgs@.take(i + 1).drop_last() =~= msgs@.take(i as int));
        match message_in(&msgs[i]) {
            Some(m) => {
                let warning = is_text(&m.level, "warning");
                let error = is_text(&m.level, "error");
                if warning {
                    warning_count += 1;
                }
                if error {
                    error_count += 1;
                }
                if warning || error {
                    match &m.message {
                        Some(t) => {
                            assert(lint_texts(msgs@.take(i + 1)) == before.push(t@));
                            if details.len() < 10 {
                                details.push(t.clone());
                                assert(texts(details@) =~= kept.push(t@));
                            }
                            assert(texts(details@) =~= first_ten(before.push(t@)));
                        },
                        None => {},
                    }
                }
            },
            None => {},
        }
        i += 1;
    }
    assert(msgs@.take(i as int) =~= msgs@);
    let warnings: u32 = #[verifier::truncate] (warning_count as u32);
    let errors: u32 = #[verifier::truncate] (error_count as u32);
    if warnings == 0 && errors == 0 {
        proof {
            reveal_strlit("warning:");
            reveal_strlit("error:");
        }
        let plain_warnings: usize = count_matches(stderr.as_str(), "warning:");
        let plain_errors: usize = count_matches(stderr.as_str(), "error:");
        assert(texts(details@).len() == details@.len());
        if details.len() == 0 {
            details = keep_ten(lines_mentioning(stderr.as_str(), "warning:", "error:"));
        }
        ClippyResult {
            warnings: #[verifier::truncate] (plain_warnings as u32),
            errors: #[verifier::truncate] (plain_errors as u32),
            details,
            output: stderr,
        }
    } else {
        ClippyResult { warnings, errors, details, output: stderr }
    }
}

/// The result of `cargo clippy`, from what the process left behind. `decode` reads the
/// message that a line of standard output holds. Output that is valid UTF-8 is read as it
/// is, and standard error is kept so.
pub fn clippy_report<F: Fn(&str) -> Option<CargoMessage>>(
    output: &ProcessOutput,
    decode: &F,
) -> (r: ClippyResult)
    requires
        total(*decode),
    ensures
        exists|msgs: Seq<Option<CargoMessage>>|
            {
                &&& #[trigger] all_answers(*decode, lines_of(utf8_lossy(output.stdout@)), msgs)
                &&& r@ == clippy_view(msgs, utf8_lossy(output.stderr@))
            },
        valid_utf8(output.stdout@) ==> utf8_lossy(output.stdout@) == decode_utf8(
            output.stdout@,
        ),
        valid_utf8(output.stderr@) ==> utf8_lossy(output.stderr@) == decode_utf8(
            output.stderr@,
        ),
        valid_utf8(output.stderr@) ==> r.output@ == decode_utf8(output.stderr@),
{
    let stdout = lossy_text(&output.stdout);
    let stderr = lossy_text(&output.stderr);
    let msgs = decode_lines(stdout.as_str(), decode);
    clippy_result(&msgs, stderr)
}

/// The result of a Clippy run that passed its time limit. It is not clean: the time limit
/// counts as one error.
pub open spec fn timed_out_clippy() -> ClippyView {
    let said = "TIMEOUT: Clippy execution exceeded time limit"@;
    ClippyView { warnings: 0, errors: 1, details: seq![said], output: said }
}

/// The result of `cargo clippy`, from what became of its run. Output that is valid UTF-8 is
/// read as it is.
pub fn clippy_outcome<F: Fn(&str) -> Option<CargoMessage>>(run: &BuildRun, decode: &F) -> (r:
    ClippyResult)
    requires
        total(*decode),
    ensures
        match run {
            BuildRun::TimedOut => r@ == timed_out_clippy(),
            BuildRun::Finished(output) => exists|msgs: Seq<Option<CargoMessage>>|
                {
                    &&& #[trigger] all_answers(
                        *decode,
                        lines_of(utf8_lossy(output.stdout@)),
                        msgs,
                    )
                    &&& r@ == clippy_view(msgs, utf8_lossy(output.stderr@))
                },
        },
        match run {
            BuildRun::TimedOut => true,
            BuildRun::Finished(output) => {
                &&& valid_utf8(output.stdout@) ==> utf8_lossy(output.stdout@) == decode_utf8(
                    output.stdout@,
                )
                &&& valid_utf8(output.stderr@) ==> utf8_lossy(output.stderr@) == decode_utf8(
                    output.stderr@,
                )
            },
        },
{
    match run {
        BuildRun::TimedOut => {
            let said = "TIMEOUT: Clippy execution exceeded time limit";
            ClippyResult { warnings: 0, errors: 1, details: single(said), output: said.to_owned() }
        },
        BuildRun::Finished(output) => clippy_report(output, decode),
    }
}

/// What became of a test run.
#[derive(Debug)]
pub enum TestRun {
    /// The time limit passed before the run ended.
    TimedOut,
    Finished(ProcessOutput),
}

/// What `cargo test` found.
#[derive(Debug)]
pub struct TestResult {
    pub passed: u32,
    pub total: u32,
    pub timed_out: bool,
    pub output: String,
}

/// The contents of a test result.
pub struct TestView {
    pub passed: u32,
    pub total: u32,
    pub timed_out: bool,
    pub output: Seq<char>,
}

impl View for TestResult {
    type V = TestView;

    open spec fn view(&self) -> TestView {
        TestView {
            passed: self.passed,
            total: self.total,
            timed_out: self.timed_out,
            output: self.output@,
        }
    }
}

/// Where the summary line of a test run counts passed and failed tests.
pub const SUMMARY_PATTERN: &'static str = r"(\d+) passed.*?(\d+) failed";

/// The number in a capture group, or 0 where there is none.
pub open spec fn group_number(groups: Seq<Option<Seq<char>>>, k: int) -> u32 {
    if 0 <= k < groups.len() && groups[k] is Some && parsed_u32(groups[k]->0) is Some {
        parsed_u32(groups[k]->0)->0
    } else {
        0
    }
}

/// The result of a finished test run, from what the summary pattern captured in its output.
/// Without a summary the exit status stands for one test. There is no result where the
/// number of all tests does not fit 32 bits.
pub open spec fn test_view(
    captures: Option<Seq<Option<Seq<char>>>>,
    success: bool,
    stdout: Seq<char>,
) -> Option<TestView> {
    match captures {
        Some(groups) => {
            let passed = group_number(groups, 1);
            let failed = group_number(groups, 2);
            if passed + failed <= u32::MAX {
                Some(
                    TestView {
                        passed,
                        total: (passed + failed) as u32,
                        timed_out: false,
                        output: stdout,
                    },
                )
            } else {
                None
            }
        },
        None => if holds(stdout, "running 0 tests"@) {
            Some(TestView { passed: 0, total: 0, timed_out: false, output: stdout })
        } else {
            Some(
                TestView {
                    passed: if success {
                        1
                    } else {
                        0
                    },
                    total: 1,
                    timed_out: false,
                    output: stdout,
                },
            )
        },
    }
}

/// The contents of an optional test result.
pub open spec fn opt_test_view(r: Option<TestResult>) -> Option<TestView> {
    match r {
        Some(t) => Some(t@),
        None => None,
    }
}

/// What the summary pattern captures in a text; nothing, were the pattern not valid.
pub open spec fn summary_captures(stdout: Seq<char>) -> Option<Seq<Option<Seq<char>>>> {
    match regex_captures(SUMMARY_PATTERN@, stdout) {
        Some(captures) => captures,
        None => None,
    }
}

/// The result of a test run that passed its time limit.
pub open spec fn timed_out_tests() -> TestView {
    TestView {
        passed: 0,
        total: 1,
        timed_out: true,
        output: "TIMEOUT: test execution exceeded time limit"@,
    }
}

/// The number in a capture group, or 0 where there is none.
fn number_in(groups: &Vec<Option<String>>, k: usize) -> (n: u32)
    ensures
        n == group_number(groups_view(groups@), k as int),
{
    assert(groups_view(groups@).len() == groups@.len());
    if k < groups.len() {
        assert(groups_view(groups@)[k as int] == opt_text(groups@[k as int]));
        match &groups[k] {
            Some(g) => match parse_u32(g.as_str()) {
                Some(n) => n,
                None => 0,
            },
            None => 0,
        }
    } else {
        0
    }
}

/// The result of a finished test run, from what the summary pattern captured in its output.
/// There is none where the number of all tests does not fit 32 bits.
pub fn test_result(captures: &Option<Vec<Option<String>>>, success: bool, stdout: String) -> (r:
    Option<TestResult>)
    ensures
        opt_test_view(r) == test_view(captures_view(*captures), success, stdout@),
{
    match captures {
        Some(groups) => {
            let passed: u32 = number_in(groups, 1);
            let failed: u32 = number_in(groups, 2);
            match passed.checked_add(failed) {
                Some(total) => Some(TestResult { passed, total, timed_out: false, output: stdout }),
                None => None,
            }
        },
        None => {
            if contains(stdout.as_str(), "running 0 tests") {
                Some(TestResult { passed: 0, total: 0, timed_out: false, output: stdout })
            } else {
                let passed: u32 = if success { 1 } else { 0 };
                Some(TestResult { passed, total: 1, timed_out: false, output: stdout })
            }
        },
    }
}

/// The result of `cargo test`. There is none where the number of all tests does not fit
/// 32 bits. Standard output is kept as it is where it is valid UTF-8.
pub fn test_report(run: &TestRun) -> (r: Option<TestResult>)
    ensures
        opt_test_view(r) == match run {
            TestRun::TimedOut => Some(timed_out_tests()),
            TestRun::Finished(output) => test_view(
                summary_captures(utf8_lossy(output.stdout@)),
                output.success,
                utf8_lossy(output.stdout@),
            ),
        },
        match (run, r) {
            (TestRun::Finished(output), Some(t)) => valid_utf8(output.stdout@) ==> t.output@
                == decode_utf8(output.stdout@),
            _ => true,
        },
{
    match run {
        TestRun::TimedOut => Some(
            TestResult {
                passed: 0,
                total: 1,
                timed_out: true,
                output: "TIMEOUT: test execution exceeded time limit".to_owned(),
            },
        ),
        TestRun::Finished(output) => {
            let stdout = lossy_text(&output.stdout);
            let captures = match first_captures(SUMMARY_PATTERN, stdout.as_str()) {
                Some(captures) => captures,
                None => None,
            };
            test_result(&captures, output.success, stdout)
        },
    }
}

/// What became of a Miri run.
#[derive(Debug)]
pub enum MiriRun {
    /// The process could not be started.
    NotAvailable,
    /// The time limit passed before the run ended.
    TimedOut,
    Finished(ProcessOutput),
}

/// What `cargo miri test` found: `clean` says nothing where Miri did not run.
#[derive(Debug)]
pub struct MiriResult {
    pub clean: Option<bool>,
    pub errors: Vec<String>,
    pub output: String,
}

/// The contents of a Miri result.
pub struct MiriView {
    pub clean: Option<bool>,
    pub errors: Seq<Seq<char>>,
    pub output: Seq<char>,
}

impl View for MiriResult {
    type V = MiriView;

    open spec fn view(&self) -> MiriView {
        MiriView { clean: self.clean, errors: texts(self.errors@), output: self.output@ }
    }
}

/// The result of a finished Miri run, from its exit status and its standard error.
pub open spec fn miri_view(success: bool, stderr: Seq<char>) -> MiriView {
    if holds(stderr, "can't find crate"@) || holds(stderr, "no such subcommand"@) {
        MiriView { clean: None, errors: seq!["Miri not installed"@], output: stderr }
    } else {
        let errors = lines_of(stderr).filter(mentions("Undefined Behavior"@, "error:"@));
        MiriView { clean: Some(success && errors.len() == 0), errors, output: stderr }
    }
}

/// The result of a Miri run.
pub open spec fn miri_outcome(run: MiriRun) -> MiriView {
    match run {
        MiriRun::NotAvailable => MiriView {
            clean: None,
            errors: seq!["Miri not available"@],
            output: "Miri not available on this toolchain"@,
        },
        MiriRun::TimedOut => MiriView {
            clean: Some(false),
            errors: seq!["Miri timed out"@],
            output: "TIMEOUT: Miri execution exceeded time limit"@,
        },
        MiriRun::Finished(output) => miri_view(output.success, utf8_lossy(output.stderr@)),
    }
}

/// The list of one string.
fn single(s: &str) -> (list: Vec<String>)
    ensures
        texts(list@) == seq![s@],
{
    let mut list: Vec<String> = Vec::new();
    list.push(s.to_owned());
    assert(texts(list@) =~= seq![s@]);
    list
}

/// The result of a finished Miri run, from its exit status and its standard error.
pub fn miri_result(success: bool, stderr: String) -> (r: MiriResult)
    ensures
        r@ == miri_view(success, stderr@),
{
    if contains(stderr.as_str(), "can't find crate") || contains(
        stderr.as_str(),
        "no such subcommand",
    ) {
        return MiriResult { clean: None, errors: single("Miri not installed"), output: stderr };
    }
    let errors = lines_mentioning(stderr.as_str(), "Undefined Behavior", "error:");
    assert(texts(errors@).len() == errors@.len());
    MiriResult { clean: Some(success && errors.len() == 0), errors, output: stderr }
}

/// The result of `cargo miri test`. Standard error is kept as it is where it is valid UTF-8.
pub fn miri_report(run: &MiriRun) -> (r: MiriResult)
    ensures
        r@ == miri_outcome(*run),
        match run {
            MiriRun::Finished(output) => valid_utf8(output.stderr@) ==> r.output@ == decode_utf8(
                output.stderr@,
            ),
            _ => true,
        },
{
    match run {
        MiriRun::NotAvailable => MiriResult {
            clean: None,
            errors: single("Miri not available"),
            output: "Miri not available on this toolchain".to_owned(),
        },
        MiriRun::TimedOut => MiriResult {
            clean: Some(false),
            errors: single("Miri timed out"),
            output: "TIMEOUT: Miri execution exceeded time limit".to_owned(),
        },
        MiriRun::Finished(output) => miri_result(output.success, lossy_text(&output.stderr)),
    }
}

/// Every error that cargo reports is listed as an error, in the category that its code and
/// its message give it.
pub proof fn reported_errors_are_categorized(msgs: Seq<Option<CargoMessage>>)
    ensures
        forall|i: int|
            0 <= i < reported_errors(msgs).len() ==> {
                let d = (#[trigger] reported_errors(msgs)[i]).0;
                d.level == "error"@ && d.category == category_of(d.code, d.message)
            },
    decreases msgs.len(),
{
    if msgs.len() > 0 {
        reported_errors_are_categorized(msgs.drop_last());
    }
}

/// A check lists one line of text for each diagnostic, and every diagnostic is an error.
pub proof fn check_lists_agree(success: bool, msgs: Seq<Option<CargoMessage>>, stderr: Seq<char>)
    ensures
        ({
            let r = check_view(success, msgs, stderr);
            &&& r.errors.len() == r.diagnostics.len()
            &&& forall|i: int|
                0 <= i < r.diagnostics.len() ==> (#[trigger] r.diagnostics[i]).level == "error"@
        }),
{
    reported_errors_are_categorized(msgs);
}

/// Where cargo reports an error, standard error is not read.
pub proof fn reported_errors_prevail(
    success: bool,
    msgs: Seq<Option<CargoMessage>>,
    a: Seq<char>,
    b: Seq<char>,
)
    requires
        reported_errors(msgs).len() > 0,
    ensures
        check_view(success, msgs, a) == check_view(success, msgs, b),
{
}

/// A failed check for which nothing is listed did not mention an error on any line of
/// its standard error.
pub proof fn silent_failure(msgs: Seq<Option<CargoMessage>>, stderr: Seq<char>, i: int)
    requires
        check_view(false, msgs, stderr).diagnostics.len() == 0,
        0 <= i < lines_of(stderr).len(),
    ensures
        !holds(lines_of(stderr)[i], "error"@),
{
    let lines = lines_of(stderr);
    if holds(lines[i], "error"@) {
        assert(mentions_error()(lines[i]));
        assert(lines.contains(lines[i]));
        broadcast use vstd::seq_lib::group_filter_ensures;

        assert(lines.filter(mentions_error()).contains(lines[i]));
    }
}

/// Clippy's details are never more than ten.
pub proof fn clippy_details_are_few(msgs: Seq<Option<CargoMessage>>, stderr: Seq<char>)
    ensures
        clippy_view(msgs, stderr).details.len() <= 10,
{
}

/// A test run never passes more tests than there are.
pub proof fn passed_within_total(
    captures: Option<Seq<Option<Seq<char>>>>,
    success: bool,
    stdout: Seq<char>,
)
    ensures
        test_view(captures, success, stdout) matches Some(t) ==> t.passed <= t.total,
        timed_out_tests().passed <= timed_out_tests().total,
{
}

/// Miri calls code clean only if the run ended well and no line reports undefined
/// behaviour or an error.
pub proof fn clean_miri_run(success: bool, stderr: Seq<char>, i: int)
    requires
        miri_view(success, stderr).clean == Some(true),
        0 <= i < lines_of(stderr).len(),
    ensures
        success,
        !holds(lines_of(stderr)[i], "Undefined Behavior"@),
        !holds(lines_of(stderr)[i], "error:"@),
{
    let lines = lines_of(stderr);
    let keep = mentions("Undefined Behavior"@, "error:"@);
    if keep(lines[i]) {
        assert(lines.contains(lines[i]));
        broadcast use vstd::seq_lib::group_filter_ensures;

        assert(lines.filter(keep).contains(lines[i]));
    }
}

/// A command line, with the environment variables it sets.
#[derive(Debug)]
pub struct CommandLine {
    pub program: String,
    pub args: Vec<String>,
    pub env: Vec<(String, String)>,
}

/// The contents of a command line.
pub struct CommandView {
    pub program: Seq<char>,
    pub args: Seq<Seq<char>>,
    pub env: Seq<(Seq<char>, Seq<char>)>,
}

impl View for CommandLine {
    type V = CommandView;

    open spec fn view(&self) -> CommandView {
        CommandView {
            program: self.program@,
            args: texts(self.args@),
            env: self.env@.map_values(|e: (String, String)| (e.0@, e.1@)),
        }
    }
}

/// A tool of the pipeline.
#[derive(Debug, Clone, Copy, PartialEq, Eq, Structural)]
pub enum Tool {
    Check,
    Clippy,
    Test,
    Miri,
}

/// How a tool is called.
pub open spec fn command_view(tool: Tool) -> CommandView {
    match tool {
        Tool::Check => CommandView {
            program: "cargo"@,
            args: seq!["check"@, "--message-format=json"@],
            env: Seq::empty(),
        },
        Tool::Clippy => CommandView {
            program: "cargo"@,
            args: seq!["clippy"@, "--message-format=json"@, "--"@, "-W"@, "clippy::all"@],
            env: Seq::empty(),
        },
        Tool::Test => CommandView {
            program: "cargo"@,
            args: seq!["test"@, "--"@, "--test-threads=1"@],
            env: Seq::empty(),
        },
        Tool::Miri => CommandView {
            program: "cargo"@,
            args: seq!["+nightly"@, "miri"@, "test"@],
            env: seq![("MIRIFLAGS"@, "-Zmiri-disable-isolation"@)],
        },
    }
}

impl Tool {
    /// How the tool is called.
    pub fn command(&self) -> (c: CommandLine)
        ensures
            c@ == command_view(*self),
    {
        let mut args: Vec<String> = Vec::new();
        let mut env: Vec<(String, String)> = Vec::new();
        match self {
            Tool::Check => {
                args.push("check".to_owned());
                args.push("--message-format=json".to_owned());
            },
            Tool::Clippy => {
                args.push("clippy".to_owned());
                args.push("--message-format=json".to_owned());
                args.push("--".to_owned());
                args.push("-W".to_owned());
                args.push("clippy::all".to_owned());
            },
            Tool::Test => {
                args.push("test".to_owned());
                args.push("--".to_owned());
                args.push("--test-threads=1".to_owned());
            },
            Tool::Miri => {
                args.push("+nightly".to_owned());
                args.push("miri".to_owned());
                args.push("test".to_owned());
                env.push(("MIRIFLAGS".to_owned(), "-Zmiri-disable-isolation".to_owned()));
            },
        }
        let c = CommandLine { program: "cargo".to_owned(), args, env };
        assert(c@.args =~= command_view(*self).args);
        assert(c@.env =~= command_view(*self).env);
        c
    }
}

} // verus!
