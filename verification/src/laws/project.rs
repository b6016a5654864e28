//! Laws of the Cargo project in which code is checked.

use vstd::prelude::*;
use crate::project::{
    begins_doc, begins_item, completed, doc_lines_decide_nothing, indented, indented_lines, like_item, manifest_of, pairs,
    source_of, MANIFEST_HEADER, SOURCE_HEADER, TESTS_HEADER,
};
use crate::laws::text::beginning_is_prefix;
use crate::text::{begins, joined, lines_of, trim_of};
use crate::text_laws::{trim_drops_last, trim_keeps, trim_twice};

verus! {

/// Each further dependency adds one line to the manifest: its name and, quoted, its version.
pub proof fn dependency_adds_a_line(
    deps: Seq<(Seq<char>, Seq<char>)>,
    name: Seq<char>,
    version: Seq<char>,
)
    ensures
        manifest_of(Seq::empty()) == MANIFEST_HEADER@,
        manifest_of(deps.push((name, version))) == manifest_of(deps) + name + " = \""@ + version
            + "\"\n"@,
{
    assert(deps.push((name, version)).drop_last() =~= deps);
    assert(manifest_of(Seq::empty()) =~= MANIFEST_HEADER@);
    assert(manifest_of(deps.push((name, version))) =~= manifest_of(deps) + name + " = \""@ + version
        + "\"\n"@);
}

/// What is seen of dependencies is the name and the version of each, at its place.
pub proof fn dependencies_are_seen(list: Seq<(String, String)>)
    ensures
        pairs(list).len() == list.len(),
        forall|i: int|
            0 <= i < list.len() ==> (#[trigger] pairs(list)[i]).0 == list[i].0@ && pairs(list)[i].1
                == list[i].1@,
{
}

/// The beginnings of items.
pub open spec fn beginnings() -> Seq<Seq<char>> {
    seq![
        "pub "@,
        "pub("@,
        "fn "@,
        "async fn "@,
        "async unsafe fn "@,
        "unsafe fn "@,
        "impl "@,
        "impl<"@,
        "unsafe impl"@,
        "struct "@,
        "enum "@,
        "type "@,
        "trait "@,
        "unsafe trait "@,
        "const "@,
        "static "@,
        "use "@,
        "mod "@,
        "#["@,
    ]
}

/// A text begins like an item exactly where one of the beginnings of items is a prefix of
/// it.
pub proof fn items_begin_like_items(code: Seq<char>)
    ensures
        begins_item(code) <==> exists|k: int|
            0 <= k < beginnings().len() && (#[trigger] beginnings()[k]).is_prefix_of(code),
{
    let b = beginnings();
    assert forall|k: int| 0 <= k < b.len() implies #[trigger] b[k].is_prefix_of(code) == begins(
        code,
        b[k],
    ) by {
        beginning_is_prefix(code, b[k]);
    }
    assert(b[0] == "pub "@ && b[1] == "pub("@ && b[2] == "fn "@ && b[3] == "async fn "@ && b[4]
        == "async unsafe fn "@ && b[5] == "unsafe fn "@ && b[6] == "impl "@ && b[7] == "impl<"@
        && b[8] == "unsafe impl"@ && b[9] == "struct "@ && b[10] == "enum "@ && b[11] == "type "@
        && b[12] == "trait "@ && b[13] == "unsafe trait "@ && b[14] == "const "@ && b[15]
        == "static "@ && b[16] == "use "@ && b[17] == "mod "@ && b[18] == "#["@);
    if begins_item(code) {
        let k: int = if begins(code, b[0]) {
            0
        } else if begins(code, b[1]) {
            1
        } else if begins(code, b[2]) {
            2
        } else if begins(code, b[3]) {
            3
        } else if begins(code, b[4]) {
            4
        } else if begins(code, b[5]) {
            5
        } else if begins(code, b[6]) {
            6
        } else if begins(code, b[7]) {
            7
        } else if begins(code, b[8]) {
            8
        } else if begins(code, b[9]) {
            9
        } else if begins(code, b[10]) {
            10
        } else if begins(code, b[11]) {
            11
        } else if begins(code, b[12]) {
            12
        } else if begins(code, b[13]) {
            13
        } else if begins(code, b[14]) {
            14
        } else if begins(code, b[15]) {
            15
        } else if begins(code, b[16]) {
            16
        } else if begins(code, b[17]) {
            17
        } else {
            18
        };
        assert(begins(code, b[k]));
        assert(b[k].is_prefix_of(code));
    }
}

/// A doc comment begins with three slashes and not with a fourth.
pub proof fn doc_comments_have_three_slashes(text: Seq<char>)
    ensures
        begins_doc(text) <==> text.len() >= 3 && text[0] == '/' && text[1] == '/' && text[2] == '/'
            && !(text.len() > 3 && text[3] == '/'),
{
    reveal_strlit("///");
    reveal_strlit("////");
    if text.len() >= 3 {
        let t = text.subrange(0, 3);
        assert(t[0] == text[0] && t[1] == text[1] && t[2] == text[2]);
        if text[0] == '/' && text[1] == '/' && text[2] == '/' {
            assert(t =~= "///"@);
        }
    }
    if text.len() > 3 {
        let t = text.subrange(0, 4);
        assert(t[0] == text[0] && t[1] == text[1] && t[2] == text[2] && t[3] == text[3]);
        if text[0] == '/' && text[1] == '/' && text[2] == '/' && text[3] == '/' {
            assert(t =~= "////"@);
        }
    }
}

/// Code that begins like an item is compiled as it is; code that begins neither like an item
/// nor with a doc comment becomes, without the white space around it, the body of the
/// function that the signature announces.
pub proof fn code_is_completed(signature: Seq<char>, code: Seq<char>)
    requires
        !begins_doc(trim_of(code)),
    ensures
        begins_item(trim_of(code)) ==> completed(signature, code) == code,
        !begins_item(trim_of(code)) ==> completed(signature, code) == signature + " {\n"@ + trim_of(
            code,
        ) + "\n}"@,
{
}

/// Whether it begins with a doc comment or not, code is compiled as it is or becomes a body.
pub proof fn code_is_item_or_body(signature: Seq<char>, code: Seq<char>)
    ensures
        completed(signature, code) == if like_item(code) {
            code
        } else {
            signature + " {\n"@ + trim_of(code) + "\n}"@
        },
{
}

/// The source file is made of the context code, the completed code and the tests, each line
/// of which four spaces indent, in that order.
pub proof fn source_in_order(
    context: Seq<char>,
    signature: Seq<char>,
    code: Seq<char>,
    tests: Seq<char>,
)
    ensures
        source_of(context, signature, code, tests) == SOURCE_HEADER@ + (context + ("\n\n"@ + (
        completed(signature, code) + (TESTS_HEADER@ + (indented(tests, 4) + "\n}\n"@))))),
{
    assert(source_of(context, signature, code, tests) =~= SOURCE_HEADER@ + (context + ("\n\n"@ + (
    completed(signature, code) + (TESTS_HEADER@ + (indented(tests, 4) + "\n}\n"@))))));
}

/// Indented code is the lines of the code, each behind the spaces, with a line feed between
/// each two.
pub proof fn every_line_is_indented(code: Seq<char>, n: nat)
    ensures
        indented(code, n) == joined(indented_lines(lines_of(code), n), seq!['\n']),
        indented_lines(lines_of(code), n).len() == lines_of(code).len(),
        forall|i: int|
            0 <= i < lines_of(code).len() ==> {
                let line = #[trigger] indented_lines(lines_of(code), n)[i];
                &&& line.len() == n + lines_of(code)[i].len()
                &&& forall|k: int| 0 <= k < n ==> #[trigger] line[k] == ' '
                &&& line.skip(n as int) == lines_of(code)[i]
            },
{
    reveal_strlit("\n");
    assert("\n"@ =~= seq!['\n']);
    assert forall|i: int| 0 <= i < lines_of(code).len() implies (#[trigger] indented_lines(
        lines_of(code),
        n,
    )[i]).skip(n as int) == lines_of(code)[i] by {
        assert(indented_lines(lines_of(code), n)[i].skip(n as int) =~= lines_of(code)[i]);
    }
}

/// White space around code does not decide whether it looks like an item.
pub proof fn white_space_decides_nothing(code: Seq<char>)
    ensures
        like_item(code) == like_item(trim_of(code)),
{
    trim_twice(code);
}

/// A line of a doc comment alone is no item.
pub proof fn doc_comment_is_no_item(line: Seq<char>)
    requires
        begins_doc(line),
        !line.contains('\n'),
    ensures
        !like_item(line),
        like_item(line) == like_item(line + seq!['\n']),
{
    let none: Seq<char> = Seq::empty();
    assert forall|i: int| 0 <= i < line.len() implies #[trigger] line[i] != '\n' by {
        assert(line.contains(line[i]));
    }
    doc_lines_decide_nothing(line, none);
    assert(line + seq!['\n'] + none =~= line.push('\n'));
    assert(line + seq!['\n'] =~= line.push('\n'));
    trim_drops_last(line, '\n');
    trim_keeps(none);
    doc_comments_have_three_slashes(none);
    items_begin_like_items(none);
    reveal_strlit("pub ");
    reveal_strlit("pub(");
    reveal_strlit("fn ");
    reveal_strlit("async fn ");
    reveal_strlit("async unsafe fn ");
    reveal_strlit("unsafe fn ");
    reveal_strlit("impl ");
    reveal_strlit("impl<");
    reveal_strlit("unsafe impl");
    reveal_strlit("struct ");
    reveal_strlit("enum ");
    reveal_strlit("type ");
    reveal_strlit("trait ");
    reveal_strlit("unsafe trait ");
    reveal_strlit("const ");
    reveal_strlit("static ");
    reveal_strlit("use ");
    reveal_strlit("mod ");
    reveal_strlit("#[");
}

} // verus!
