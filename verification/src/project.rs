//! The Cargo project in which generated code is checked.

use vstd::prelude::*;
use crate::task::Task;
use crate::text::{
    after_line, begins, break_at, chars_of, found_at, holds, is_white_space, join, joined, lines_of,
    occurs_at, spaces, split_lines, starts_with, text_of, texts, trim, trim_end_of, trim_of,
    trim_start_of,
};
use crate::text_laws::{
    break_is_first, first_break, held_by_part, lines_have_no_feed, lines_undo_join, middle_is_held,
    no_break, one_line, trim_either_end_first, trim_end_in_a_row, trim_twice, trimmed_end,
    trimmed_start,
};

verus! {

/// The part of the manifest that is the same for every task.
pub const MANIFEST_HEADER: &'static str =
    "[package]\nname = \"eval_task\"\nversion = \"0.1.0\"\nedition = \"2021\"\n\n[dependencies]\n";

/// What goes before the task's context code.
pub const SOURCE_HEADER: &'static str = "#![allow(dead_code)]\n#![allow(unused_imports)]\n\n";

/// What goes between the generated code and the tests.
pub const TESTS_HEADER: &'static str =
    "\n\n#[cfg(test)]\nmod tests {\n    use super::*;\n\n";

/// Names and versions of dependencies.
pub open spec fn pairs(list: Seq<(String, String)>) -> Seq<(Seq<char>, Seq<char>)> {
    list.map_values(|d: (String, String)| (d.0@, d.1@))
}

/// The manifest line of a dependency.
pub open spec fn dependency_line(d: (Seq<char>, Seq<char>)) -> Seq<char> {
    d.0 + " = \""@ + d.1 + "\"\n"@
}

/// The manifest lines of dependencies.
pub open spec fn dependency_lines(deps: Seq<(Seq<char>, Seq<char>)>) -> Seq<char>
    decreases deps.len(),
{
    if deps.len() == 0 {
        Seq::empty()
    } else {
        dependency_lines(deps.drop_last()) + dependency_line(deps.last())
    }
}

/// The manifest of a project with the given dependencies.
pub open spec fn manifest_of(deps: Seq<(Seq<char>, Seq<char>)>) -> Seq<char> {
    MANIFEST_HEADER@ + dependency_lines(deps)
}

/// A text that begins like an item: with a visibility, with the word that opens an item, or
/// with an attribute.
pub open spec fn begins_item(code: Seq<char>) -> bool {
    ||| begins(code, "pub "@)
    ||| begins(code, "pub("@)
    ||| begins(code, "fn "@)
    ||| begins(code, "async fn "@)
    ||| begins(code, "async unsafe fn "@)
    ||| begins(code, "unsafe fn "@)
    ||| begins(code, "impl "@)
    ||| begins(code, "impl<"@)
    ||| begins(code, "unsafe impl"@)
    ||| begins(code, "struct "@)
    ||| begins(code, "enum "@)
    ||| begins(code, "type "@)
    ||| begins(code, "trait "@)
    ||| begins(code, "unsafe trait "@)
    ||| begins(code, "const "@)
    ||| begins(code, "static "@)
    ||| begins(code, "use "@)
    ||| begins(code, "mod "@)
    ||| begins(code, "#["@)
}

/// A text that begins with a line of a doc comment.
pub open spec fn begins_doc(text: Seq<char>) -> bool {
    begins(text, "///"@) && !begins(text, "////"@)
}

/// The text that follows the lines of a doc comment, and the white space behind them, where
/// a text begins with such lines.
pub open spec fn past_docs(text: Seq<char>) -> Seq<char>
    decreases text.len(),
{
    if begins_doc(text) {
        proof {
            reveal_strlit("///");
            break_is_first(text);
            trimmed_start(after_line(text));
        }
        past_docs(trim_start_of(after_line(text)))
    } else {
        text
    }
}

/// Code that looks like an item: behind the doc comment that it may begin with, it begins
/// like one.
pub open spec fn like_item(code: Seq<char>) -> bool {
    begins_item(past_docs(trim_of(code)))
}

/// The code as it is compiled: as it is where it looks like an item, else as the body of
/// the task's function.
pub open spec fn completed(signature: Seq<char>, code: Seq<char>) -> Seq<char> {
    if like_item(code) {
        code
    } else {
        signature + " {\n"@ + trim_of(code) + "\n}"@
    }
}

/// The lines with `n` spaces before each.
pub open spec fn indented_lines(lines: Seq<Seq<char>>, n: nat) -> Seq<Seq<char>> {
    lines.map_values(|line: Seq<char>| spaces(n) + line)
}

/// The text with `n` spaces before each line.
pub open spec fn indented(code: Seq<char>, n: nat) -> Seq<char> {
    joined(indented_lines(lines_of(code), n), "\n"@)
}

/// The source file of the project: the context code, the generated code and the tests.
pub open spec fn source_of(
    context: Seq<char>,
    signature: Seq<char>,
    code: Seq<char>,
    tests: Seq<char>,
) -> Seq<char> {
    SOURCE_HEADER@ + context + "\n\n"@ + completed(signature, code) + TESTS_HEADER@ + indented(
        tests,
        4,
    ) + "\n}\n"@
}

/// The manifest of a project with the given dependencies, in the order given.
pub fn manifest(deps: &Vec<(String, String)>) -> (s: String)
    ensures
        s@ == manifest_of(pairs(deps@)),
{
    let ghost all = pairs(deps@);
    let mut s = MANIFEST_HEADER.to_owned();
    let mut i: usize = 0;
    assert(s@ =~= manifest_of(all.take(0)));
    while i < deps.len()
        invariant
            i <= deps@.len(),
            all == pairs(deps@),
            s@ == manifest_of(all.take(i as int)),
        decreases deps@.len() - i,
    {
        let d = &deps[i];
        assert(all.take(i + 1).drop_last() =~= all.take(i as int));
        assert(all[i as int] == (d.0@, d.1@));
        s.append(d.0.as_str());
        s.append(" = \"");
        s.append(d.1.as_str());
        s.append("\"\n");
        assert(s@ =~= manifest_of(all.take(i + 1)));
        i += 1;
    }
    assert(all.take(i as int) =~= all);
    s
}

/// Whether a text begins like an item.
fn starts_item(code: &str) -> (r: bool)
    ensures
        r == begins_item(code@),
{
    starts_with(code, "pub ")
        || starts_with(code, "pub(")
        || starts_with(code, "fn ")
        || starts_with(code, "async fn ")
        || starts_with(code, "async unsafe fn ")
        || starts_with(code, "unsafe fn ")
        || starts_with(code, "impl ")
        || starts_with(code, "impl<")
        || starts_with(code, "unsafe impl")
        || starts_with(code, "struct ")
        || starts_with(code, "enum ")
        || starts_with(code, "type ")
        || starts_with(code, "trait ")
        || starts_with(code, "unsafe trait ")
        || starts_with(code, "const ")
        || starts_with(code, "static ")
        || starts_with(code, "use ")
        || starts_with(code, "mod ")
        || starts_with(code, "#[")
}

/// The position behind the first line from a position on, and behind the white space that
/// follows that line.
fn next_line(chars: &Vec<char>, from: usize) -> (to: usize)
    requires
        from < chars@.len(),
    ensures
        from < to <= chars@.len(),
        chars@.skip(to as int) == trim_start_of(after_line(chars@.skip(from as int))),
{
    let ghost rest = chars@.skip(from as int);
    let mut to: usize = from;
    assert(rest.skip(0) =~= rest);
    while to < chars.len() && chars[to] != '\n'
        invariant
            from <= to <= chars@.len(),
            rest == chars@.skip(from as int),
            break_at(rest) == to - from + break_at(rest.skip(to - from)),
        decreases chars@.len() - to,
    {
        assert(rest.skip(to - from).drop_first() =~= rest.skip(to + 1 - from));
        to += 1;
    }
    if to < chars.len() {
        to += 1;
        assert(chars@.skip(to as int) =~= after_line(rest));
    } else {
        assert(chars@.skip(to as int) =~= after_line(rest));
    }
    while to < chars.len() && is_white_space(chars[to])
        invariant
            from < to <= chars@.len(),
            trim_start_of(chars@.skip(to as int)) == trim_start_of(after_line(rest)),
        decreases chars@.len() - to,
    {
        assert(chars@.skip(to as int).drop_first() =~= chars@.skip(to + 1));
        to += 1;
    }
    to
}

/// Whether a text stands at a position.
proof fn lemma_begins_at(chars: Seq<char>, prefix: Seq<char>, at: int)
    requires
        0 <= at <= chars.len(),
    ensures
        occurs_at(chars, prefix, at) == begins(chars.skip(at), prefix),
{
    let rest = chars.skip(at);
    if at + prefix.len() <= chars.len() {
        assert(rest.subrange(0, prefix.len() as int) =~= chars.subrange(at, at + prefix.len()));
    }
}

/// Whether code looks like an item, and not just like the body of a function.
pub fn looks_like_rust_item(code: &str) -> (r: bool)
    ensures
        r == like_item(code@),
{
    let trimmed = trim(code);
    let chars = chars_of(trimmed.as_str());
    let doc = chars_of("///");
    let no_doc = chars_of("////");
    let mut i: usize = 0;
    proof {
        reveal_strlit("///");
        assert(chars@.skip(0) =~= trimmed@);
        lemma_begins_at(chars@, doc@, 0);
        lemma_begins_at(chars@, no_doc@, 0);
    }
    while found_at(&chars, &doc, i) && !found_at(&chars, &no_doc, i)
        invariant
            i <= chars@.len(),
            doc@ == "///"@,
            doc@.len() == 3,
            no_doc@ == "////"@,
            occurs_at(chars@, doc@, i as int) == begins(chars@.skip(i as int), "///"@),
            occurs_at(chars@, no_doc@, i as int) == begins(chars@.skip(i as int), "////"@),
            past_docs(chars@.skip(i as int)) == past_docs(trim_of(code@)),
        decreases chars@.len() - i,
    {
        i = next_line(&chars, i);
        proof {
            lemma_begins_at(chars@, doc@, i as int);
            lemma_begins_at(chars@, no_doc@, i as int);
        }
    }
    let rest = text_of(&chars, i, chars.len());
    assert(rest@ =~= chars@.skip(i as int));
    starts_item(rest.as_str())
}

/// Indents code by a number of spaces.
pub fn indent_code(code: &str, spaces: usize) -> (s: String)
    ensures
        s@ == indented(code@, spaces as nat),
{
    let mut indent = String::new();
    let mut n: usize = 0;
    while n < spaces
        invariant
            n <= spaces,
            indent@ == crate::text::spaces(n as nat),
        decreases spaces - n,
    {
        indent.push(' ');
        n += 1;
        assert(indent@ =~= crate::text::spaces(n as nat));
    }
    let lines = split_lines(code);
    let ghost source = lines_of(code@);
    let mut out: Vec<String> = Vec::new();
    let mut i: usize = 0;
    while i < lines.len()
        invariant
            i <= lines@.len(),
            texts(lines@) == source,
            indent@ == crate::text::spaces(spaces as nat),
            texts(out@) == indented_lines(source.take(i as int), spaces as nat),
        decreases lines@.len() - i,
    {
        let ghost before = texts(out@);
        let mut line = indent.clone();
        line.append(lines[i].as_str());
        out.push(line);
        assert(source[i as int] == lines@[i as int]@);
        assert(texts(out@) =~= before.push(line@));
        i += 1;
        assert(texts(out@) =~= indented_lines(source.take(i as int), spaces as nat));
    }
    assert(source.take(i as int) =~= source);
    join(&out, "\n")
}

/// The code as it is compiled: as it is where it looks like an item, else as the body of
/// the task's function.
pub fn complete_code(signature: &str, code: &str) -> (s: String)
    ensures
        s@ == completed(signature@, code@),
{
    let trimmed = trim(code);
    proof {
        trim_twice(code@);
    }
    if looks_like_rust_item(trimmed.as_str()) {
        code.to_owned()
    } else {
        let mut s = signature.to_owned();
        s.append(" {\n");
        s.append(trimmed.as_str());
        s.append("\n}");
        s
    }
}

/// The files of the project in which a task's code is checked.
#[derive(Debug)]
pub struct ProjectFiles {
    /// `Cargo.toml`
    pub manifest: String,
    /// `src/lib.rs`
    pub source: String,
}

/// The files of the project in which the code generated for a task is checked.
pub fn project_files(task: &Task, code: &str) -> (files: ProjectFiles)
    ensures
        files.manifest@ == manifest_of(pairs(task.dependencies@)),
        files.source@ == source_of(task.context_code@, task.signature@, code@, task.tests@),
{
    let mut source = SOURCE_HEADER.to_owned();
    source.append(task.context_code.as_str());
    source.append("\n\n");
    source.append(complete_code(task.signature.as_str(), code).as_str());
    source.append(TESTS_HEADER);
    source.append(indent_code(task.tests.as_str(), 4).as_str());
    source.append("\n}\n");
    ProjectFiles { manifest: manifest(&task.dependencies), source }
}

/// The line of every dependency is held by the manifest, whatever the order in which the
/// dependencies are given.
pub proof fn manifest_names_every_dependency(deps: Seq<(Seq<char>, Seq<char>)>, i: int)
    requires
        0 <= i < deps.len(),
    ensures
        holds(manifest_of(deps), dependency_line(deps[i])),
    decreases deps.len(),
{
    let line = dependency_line(deps[i]);
    if i == deps.len() - 1 {
        let before = MANIFEST_HEADER@ + dependency_lines(deps.drop_last());
        middle_is_held(before, line, Seq::empty());
        assert(before + line + Seq::empty() =~= manifest_of(deps));
    } else {
        manifest_names_every_dependency(deps.drop_last(), i);
        let part = manifest_of(deps.drop_last());
        held_by_part(Seq::empty(), part, dependency_line(deps.last()), line);
        assert(Seq::empty() + part + dependency_line(deps.last()) =~= manifest_of(deps));
    }
}

/// The source file holds the context code, the code as it is compiled, and the indented
/// tests.
pub proof fn source_holds_its_parts(
    context: Seq<char>,
    signature: Seq<char>,
    code: Seq<char>,
    tests: Seq<char>,
)
    ensures
        holds(source_of(context, signature, code, tests), context),
        holds(source_of(context, signature, code, tests), completed(signature, code)),
        holds(source_of(context, signature, code, tests), indented(tests, 4)),
{
    let s = source_of(context, signature, code, tests);
    let body = completed(signature, code);
    let inner = indented(tests, 4);
    let end = "\n}\n"@;
    let gap = "\n\n"@;
    let a = SOURCE_HEADER@;
    let b = TESTS_HEADER@;
    middle_is_held(a, context, gap + body + b + inner + end);
    assert(a + context + (gap + body + b + inner + end) =~= s);
    middle_is_held(a + context + gap, body, b + inner + end);
    assert((a + context + gap) + body + (b + inner + end) =~= s);
    middle_is_held(a + context + gap + body + b, inner, end);
    assert((a + context + gap + body + b) + inner + end =~= s);
}

/// Code that looks like an item is compiled as it is; other code becomes the body of the
/// function that the signature announces, which then stands first.
pub proof fn code_is_kept(signature: Seq<char>, code: Seq<char>)
    ensures
        like_item(code) ==> completed(signature, code) == code,
        !like_item(code) ==> begins(completed(signature, code), signature) && holds(
            completed(signature, code),
            trim_of(code),
        ),
{
    let whole = signature + " {\n"@ + trim_of(code) + "\n}"@;
    middle_is_held(signature + " {\n"@, trim_of(code), "\n}"@);
    assert(whole.subrange(0, signature.len() as int) =~= signature);
}

/// Code that does not begin with a doc comment looks like an item exactly where it begins
/// like one.
pub proof fn plain_items(code: Seq<char>)
    requires
        !begins_doc(trim_of(code)),
    ensures
        like_item(code) == begins_item(trim_of(code)),
{
}

/// A line of a doc comment decides nothing: code looks like an item with it exactly where it
/// does without it.
pub proof fn doc_lines_decide_nothing(line: Seq<char>, code: Seq<char>)
    requires
        begins_doc(line),
        one_line(line),
    ensures
        like_item(line + seq!['\n'] + code) == like_item(code),
{
    reveal_strlit("///");
    reveal_strlit("////");
    let feed = seq!['\n'];
    let whole = line + feed + code;
    let t = trim_of(whole);
    let slashes = line.take(3);
    let said = line.skip(3);
    assert(line.subrange(0, 3) == "///"@);
    assert(slashes =~= "///"@);
    assert(slashes + said =~= line);
    assert(whole[0] == slashes[0]);
    assert(trim_start_of(whole) == whole);
    trim_end_in_a_row(line + feed, code);
    trim_end_in_a_row(line, feed);
    reveal_with_fuel(trim_end_of, 2);
    assert(feed.drop_last() =~= Seq::<char>::empty());
    trim_end_in_a_row(slashes, said);
    trim_either_end_first(code);
    let line_left = trim_end_of(line);
    trimmed_end(line);
    if trim_end_of(code).len() > 0 {
        assert(t == line + feed + trim_end_of(code));
        lemma_doc_begins(line, feed + trim_end_of(code));
        assert(line + (feed + trim_end_of(code)) =~= t);
        first_break(line, trim_end_of(code));
        assert(after_line(t) =~= trim_end_of(code));
    } else {
        assert(t == line_left);
        assert(line_left.len() >= 3);
        assert(line_left.subrange(0, 3) =~= "///"@);
        if begins(line_left, "////"@) {
            assert(line_left.subrange(0, 4) =~= line.subrange(0, 4));
        }
        assert(begins_doc(t));
        assert(one_line(t));
        no_break(t);
        assert(trim_of(code) =~= Seq::<char>::empty());
    }
}

/// A line of a doc comment is one whatever follows it on the next lines.
proof fn lemma_doc_begins(line: Seq<char>, rest: Seq<char>)
    requires
        begins_doc(line),
        rest.len() > 0,
        rest[0] == '\n',
    ensures
        begins_doc(line + rest),
{
    reveal_strlit("///");
    reveal_strlit("////");
    let whole = line + rest;
    assert(whole.subrange(0, 3) =~= line.subrange(0, 3));
    if begins(whole, "////"@) {
        assert(whole.subrange(0, 4)[3] == whole[3]);
        if line.len() > 3 {
            assert(line.subrange(0, 4) =~= whole.subrange(0, 4));
        }
    }
}

/// Indenting keeps the lines: each of them follows the spaces. (A line other than the last
/// that ends with a carriage return would lose it.)
pub proof fn indenting_keeps_lines(code: Seq<char>, n: nat)
    requires
        n > 0,
        forall|i: int|
            0 <= i < lines_of(code).len() - 1 && (#[trigger] lines_of(code)[i]).len() > 0
                ==> lines_of(code)[i].last() != '\r',
    ensures
        lines_of(indented(code, n)) == indented_lines(lines_of(code), n),
{
    let lines = lines_of(code);
    let parts = indented_lines(lines, n);
    lines_have_no_feed(code);
    assert forall|i: int| 0 <= i < parts.len() implies one_line(#[trigger] parts[i]) by {
        assert(parts[i] == spaces(n) + lines[i]);
        assert(one_line(lines[i]));
    }
    assert forall|i: int| 0 <= i < parts.len() - 1 && (#[trigger] parts[i]).len() > 0 implies
        parts[i].last() != '\r' by {
        assert(parts[i] == spaces(n) + lines[i]);
        if lines[i].len() > 0 {
            assert(parts[i].last() == lines[i].last());
        } else {
            assert(parts[i].last() == ' ');
        }
    }
    reveal_strlit("\n");
    assert("\n"@ =~= seq!['\n']);
    lines_undo_join(parts);
}

/// Indenting twice is indenting by both numbers of spaces. (A line other than the last that
/// ends with a carriage return would lose it in between.)
pub proof fn indents_add_up(code: Seq<char>, n: nat, m: nat)
    requires
        n > 0,
        forall|i: int|
            0 <= i < lines_of(code).len() - 1 && (#[trigger] lines_of(code)[i]).len() > 0
                ==> lines_of(code)[i].last() != '\r',
    ensures
        indented(indented(code, n), m) == indented(code, n + m),
{
    indenting_keeps_lines(code, n);
    let lines = lines_of(code);
    let twice = indented_lines(indented_lines(lines, n), m);
    let once = indented_lines(lines, n + m);
    assert forall|i: int| 0 <= i < lines.len() implies #[trigger] twice[i] == once[i] by {
        assert(spaces(m) + (spaces(n) + lines[i]) =~= spaces(n + m) + lines[i]);
    }
    assert(twice =~= once);
}

} // verus!
