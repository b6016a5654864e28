//! Laws of finding the code in a model's reply.

use vstd::prelude::*;
use crate::lm_studio::{code_in, first_block, is_fence, until_fence};
use crate::text::{
    break_at, holds, joined, lines_of, trim_end_of, trim_of, trim_start_of, white_space,
    without_return,
};
use crate::text_laws::{
    break_is_first, first_line, joined_front, middle_is_held, only_line,
    trim_drops_first, trim_drops_last, trim_drops_return, trim_either_end_first, trim_end_in_a_row,
    trimmed_end, trimmed_start,
};

verus! {

/// A line that three backticks begin, behind white space, if any.
pub open spec fn backticks(line: Seq<char>) -> bool {
    let t = trim_of(line);
    t.len() >= 3 && t[0] == '`' && t[1] == '`' && t[2] == '`'
}

/// A line of a text: no line feed in it.
pub open spec fn single(line: Seq<char>) -> bool {
    forall|i: int| 0 <= i < line.len() ==> #[trigger] line[i] != '\n'
}

/// A line is a fence exactly where three backticks begin it.
pub proof fn fence_is_backticks(line: Seq<char>)
    ensures
        is_fence(line) <==> backticks(line),
{
    reveal_strlit("```");
    let t = trim_of(line);
    if is_fence(line) {
        assert(t.subrange(0, 3) == "```"@);
        assert(t.subrange(0, 3)[0] == t[0] && t.subrange(0, 3)[1] == t[1] && t.subrange(0, 3)[2]
            == t[2]);
    }
    if backticks(line) {
        assert(t.subrange(0, 3) =~= "```"@);
    }
}

/// Lines before a fence do not change what the first block is.
proof fn lemma_skip_before(before: Seq<Seq<char>>, rest: Seq<char>)
    requires
        forall|i: int| 0 <= i < before.len() ==> single(#[trigger] before[i]) && !backticks(
            before[i],
        ),
    ensures
        first_block(lines_of(joined(before, seq!['\n']) + seq!['\n'] + rest)) == first_block(
            lines_of(rest),
        ),
    decreases before.len(),
{
    let feed = seq!['\n'];
    if before.len() == 0 {
        let none: Seq<char> = Seq::empty();
        first_line(none, rest);
        trim_of_nothing();
        fence_is_backticks(without_return(none));
        assert(joined(before, feed) + feed + rest =~= none + feed + rest);
        assert((seq![without_return(none)] + lines_of(rest)).drop_first() =~= lines_of(rest));
    } else {
        let line = before[0];
        let more = before.drop_first();
        assert(single(before[0]) && !backticks(before[0]));
        assert forall|i: int| 0 <= i < more.len() implies single(#[trigger] more[i]) && !backticks(
            more[i],
        ) by {
            assert(more[i] == before[i + 1]);
        }
        trim_drops_return(line);
        fence_is_backticks(line);
        let tail = if before.len() == 1 {
            rest
        } else {
            joined(more, feed) + feed + rest
        };
        if before.len() > 1 {
            joined_front(before, feed);
            lemma_skip_before(more, rest);
        }
        assert(joined(before, feed) + feed + rest =~= line + feed + tail);
        first_line(line, tail);
        assert((seq![without_return(line)] + lines_of(tail)).drop_first() =~= lines_of(tail));
    }
}

/// Nothing is left of nothing.
proof fn trim_of_nothing()
    ensures
        trim_of(Seq::empty()).len() == 0,
{
}

/// The lines of a block before what follows it.
proof fn lemma_block_lines(lines: Seq<Seq<char>>, rest: Seq<char>)
    requires
        lines.len() > 0,
        forall|i: int| 0 <= i < lines.len() ==> single(#[trigger] lines[i]) && !backticks(lines[i]),
        forall|i: int|
            0 <= i < lines.len() && (#[trigger] lines[i]).len() > 0 ==> lines[i].last() != '\r',
    ensures
        lines_of(joined(lines, seq!['\n']) + seq!['\n'] + rest) == lines + lines_of(rest),
    decreases lines.len(),
{
    let feed = seq!['\n'];
    assert(single(lines[0]));
    if lines.len() == 1 {
        first_line(lines[0], rest);
        assert(seq![lines[0]] =~= lines);
        assert(without_return(lines[0]) == lines[0]);
    } else {
        let more = lines.drop_first();
        assert forall|i: int| 0 <= i < more.len() implies single(#[trigger] more[i]) && !backticks(
            more[i],
        ) by {
            assert(more[i] == lines[i + 1]);
        }
        assert forall|i: int| 0 <= i < more.len() && (#[trigger] more[i]).len() > 0 implies more[i].last()
            != '\r' by {
            assert(more[i] == lines[i + 1]);
        }
        joined_front(lines, feed);
        lemma_block_lines(more, rest);
        let tail = joined(more, feed) + feed + rest;
        assert(joined(lines, feed) + feed + rest =~= lines[0] + feed + tail);
        first_line(lines[0], tail);
        assert(without_return(lines[0]) == lines[0]);
        assert(seq![lines[0]] + (more + lines_of(rest)) =~= lines + lines_of(rest));
    }
}

/// A block ends at the next fence, or with the text.
proof fn lemma_until(lines: Seq<Seq<char>>, rest: Seq<Seq<char>>)
    requires
        forall|i: int| 0 <= i < lines.len() ==> !backticks(#[trigger] lines[i]),
        rest.len() > 0 ==> backticks(rest[0]),
    ensures
        until_fence(lines + rest) == lines,
    decreases lines.len(),
{
    let all = lines + rest;
    if lines.len() == 0 {
        if rest.len() > 0 {
            fence_is_backticks(rest[0]);
        }
        assert(all =~= rest);
    } else {
        let more = lines.drop_first();
        assert(!backticks(lines[0]));
        fence_is_backticks(lines[0]);
        assert forall|i: int| 0 <= i < more.len() implies !backticks(#[trigger] more[i]) by {
            assert(more[i] == lines[i + 1]);
        }
        lemma_until(more, rest);
        assert(all.drop_first() =~= more + rest);
        assert(seq![lines[0]] + more =~= lines);
    }
}

/// Cutting white space off the front of a reply does not change what its first block is.
proof fn lemma_front(w: char, text: Seq<char>)
    requires
        white_space(w),
    ensures
        first_block(lines_of(seq![w] + text)) == first_block(lines_of(text)),
{
    let whole = seq![w] + text;
    let none: Seq<char> = Seq::empty();
    trim_of_nothing();
    if w == '\n' {
        first_line(none, text);
        assert(none + seq!['\n'] + text =~= whole);
        fence_is_backticks(without_return(none));
        assert((seq![without_return(none)] + lines_of(text)).drop_first() =~= lines_of(text));
    } else {
        break_is_first(text);
        let k = break_at(text);
        let head = text.take(k);
        let longer = seq![w] + head;
        trim_drops_first(w, head);
        trim_drops_return(head);
        trim_drops_return(longer);
        fence_is_backticks(without_return(head));
        fence_is_backticks(without_return(longer));
        assert forall|i: int| 0 <= i < longer.len() implies #[trigger] longer[i] != '\n' by {
            if i > 0 {
                assert(longer[i] == head[i - 1]);
            }
        }
        if k < text.len() {
            let rest = text.skip(k + 1);
            first_line(head, rest);
            assert(head + seq!['\n'] + rest =~= text);
            first_line(longer, rest);
            assert(longer + seq!['\n'] + rest =~= whole);
            let a = seq![without_return(longer)] + lines_of(rest);
            let b = seq![without_return(head)] + lines_of(rest);
            assert(a.drop_first() =~= lines_of(rest));
            assert(b.drop_first() =~= lines_of(rest));
        } else {
            assert(head =~= text);
            only_line(whole);
            lemma_one_line_no_block(whole);
            if text.len() > 0 {
                only_line(text);
                lemma_one_line_no_block(text);
            }
        }
    }
}

/// One line has no block.
proof fn lemma_one_line_no_block(line: Seq<char>)
    ensures
        first_block(seq![line]) =~= Seq::<Seq<char>>::empty(),
{
    assert(seq![line].drop_first() =~= Seq::<Seq<char>>::empty());
    assert(first_block(Seq::<Seq<char>>::empty()) =~= Seq::<Seq<char>>::empty());
    assert(until_fence(Seq::<Seq<char>>::empty()) =~= Seq::<Seq<char>>::empty());
}

/// The same for all white space at the front.
proof fn lemma_trimmed_front(text: Seq<char>)
    ensures
        first_block(lines_of(trim_start_of(text))) == first_block(lines_of(text)),
    decreases text.len(),
{
    if text.len() > 0 && white_space(text.first()) {
        assert(seq![text.first()] + text.drop_first() =~= text);
        lemma_front(text.first(), text.drop_first());
        lemma_trimmed_front(text.drop_first());
    }
}

/// What trimming the end of a text that ends with a fence and more leaves of the two.
proof fn lemma_trimmed_tail(close: Seq<char>, after: Seq<char>) -> (r: (Seq<char>, Seq<char>))
    requires
        single(close),
        backticks(close),
        after.len() > 0 ==> after[0] == '\n',
    ensures
        single(r.0),
        backticks(r.0),
        r.1.len() > 0 ==> r.1[0] == '\n',
        trim_end_of(close + after) == r.0 + r.1,
        trim_end_of(close + after).len() > 0,
{
    trim_end_in_a_row(close, after);
    if trim_end_of(after).len() > 0 {
        trimmed_end(after);
        trimmed_start(close);
        trimmed_end(trim_start_of(close));
        (close, trim_end_of(after))
    } else {
        trimmed_end(close);
        trim_either_end_first(close);
        trim_twice_end(close);
        let left = trim_end_of(close);
        assert(trim_of(left) == trim_of(close)) by {
            trim_either_end_first(left);
        }
        assert forall|i: int| 0 <= i < left.len() implies #[trigger] left[i] != '\n' by {
            assert(left[i] == close[i]);
        }
        trimmed_start(left);
        assert(left + Seq::<char>::empty() =~= left);
        (left, Seq::empty())
    }
}

/// Trimming the end a second time changes nothing.
proof fn trim_twice_end(s: Seq<char>)
    ensures
        trim_end_of(trim_end_of(s)) == trim_end_of(s),
{
    trimmed_end(s);
}

/// The lines of a text that begins with a fence begin with a fence.
proof fn lemma_fence_first(close: Seq<char>, after: Seq<char>)
    requires
        single(close),
        backticks(close),
        after.len() > 0 ==> after[0] == '\n',
    ensures
        lines_of(close + after).len() > 0,
        backticks(lines_of(close + after)[0]),
{
    trimmed_start(close);
    trimmed_end(trim_start_of(close));
    if after.len() == 0 {
        only_line(close);
        assert(close + after =~= close);
    } else {
        let rest = after.drop_first();
        first_line(close, rest);
        trim_drops_return(close);
        assert(close + seq!['\n'] + rest =~= close + after);
    }
}

/// A reply whose first fence opens a block of at least one line that is no fence.
pub open spec fn reply(
    before: Seq<Seq<char>>,
    open_line: Seq<char>,
    lines: Seq<Seq<char>>,
    rest: Seq<char>,
) -> Seq<char> {
    joined(before, seq!['\n']) + seq!['\n'] + (open_line + seq!['\n'] + (joined(lines, seq!['\n'])
        + rest))
}

/// The parts of such a reply: lines without a line feed, of which only the opening one is a
/// fence. (A line of the block that ends with a carriage return would lose it.)
pub open spec fn reply_parts(
    before: Seq<Seq<char>>,
    open_line: Seq<char>,
    lines: Seq<Seq<char>>,
) -> bool {
    &&& forall|i: int|
        0 <= i < before.len() ==> single(#[trigger] before[i]) && !backticks(before[i])
    &&& single(open_line) && backticks(open_line)
    &&& lines.len() > 0
    &&& forall|i: int| 0 <= i < lines.len() ==> single(#[trigger] lines[i]) && !backticks(lines[i])
    &&& forall|i: int|
        0 <= i < lines.len() && (#[trigger] lines[i]).len() > 0 ==> lines[i].last() != '\r'
}

/// The first block of an untrimmed reply.
proof fn lemma_block_of_reply(
    before: Seq<Seq<char>>,
    open_line: Seq<char>,
    lines: Seq<Seq<char>>,
    rest: Seq<char>,
)
    requires
        reply_parts(before, open_line, lines),
        lines_of(joined(lines, seq!['\n']) + rest).len() >= lines.len(),
        lines_of(joined(lines, seq!['\n']) + rest).take(lines.len() as int) == lines,
        lines_of(joined(lines, seq!['\n']) + rest).len() > lines.len() ==> backticks(
            lines_of(joined(lines, seq!['\n']) + rest)[lines.len() as int],
        ),
    ensures
        first_block(lines_of(reply(before, open_line, lines, rest))) == lines,
{
    let feed = seq!['\n'];
    let body = joined(lines, feed) + rest;
    let all = lines_of(body);
    lemma_skip_before(before, open_line + feed + body);
    first_line(open_line, body);
    trim_drops_return(open_line);
    fence_is_backticks(without_return(open_line));
    let more = all.skip(lines.len() as int);
    assert(lines + more =~= all);
    lemma_until(lines, more);
    assert((seq![without_return(open_line)] + all).drop_first() =~= all);
}

/// A reply that holds a fence holds three backticks.
proof fn lemma_holds_backticks(before: Seq<char>, open_line: Seq<char>, after: Seq<char>)
    requires
        backticks(open_line),
    ensures
        holds(before + open_line + after, "```"@),
{
    reveal_strlit("```");
    trimmed_start(open_line);
    let t = trim_start_of(open_line);
    trimmed_end(t);
    assert(t.take(3) =~= "```"@) by {
        assert(trim_end_of(t)[0] == t[0] && trim_end_of(t)[1] == t[1] && trim_end_of(t)[2] == t[2]);
    }
    let k = open_line.len() - t.len();
    let a = before + open_line.take(k);
    let b = t.skip(3) + after;
    middle_is_held(a, "```"@, b);
    assert(a + "```"@ + b =~= before + open_line + after) by {
        assert(open_line.take(k) + t =~= open_line);
        assert(t.take(3) + t.skip(3) =~= t);
    }
}

/// Text that three backticks begin keeps them when it is trimmed with what is before it.
proof fn lemma_still_held(s: Seq<char>)
    requires
        holds(s, "```"@),
    ensures
        holds(trim_of(s), "```"@),
    decreases s.len(),
{
    reveal_strlit("```");
    let i = choose|i: int| crate::text::occurs_at(s, "```"@, i);
    assert(s.subrange(i, i + 3) == "```"@);
    assert(s.subrange(i, i + 3)[0] == s[i] && s.subrange(i, i + 3)[2] == s[i + 2]);
    if white_space(s.first()) {
        let t = s.drop_first();
        assert(i > 0);
        assert(t.subrange(i - 1, i + 2) =~= s.subrange(i, i + 3));
        assert(crate::text::occurs_at(t, "```"@, i - 1));
        lemma_still_held(t);
        trim_drops_first(s.first(), t);
        assert(seq![s.first()] + t =~= s);
    } else if white_space(s.last()) {
        let t = s.drop_last();
        assert(i + 3 < s.len());
        assert(t.subrange(i, i + 3) =~= s.subrange(i, i + 3));
        assert(crate::text::occurs_at(t, "```"@, i));
        lemma_still_held(t);
        trim_drops_last(t, s.last());
        assert(t.push(s.last()) =~= s);
    } else {
        crate::text_laws::trim_keeps(s);
    }
}

/// What stands before a code block and what follows it does not matter: of a reply in which a
/// block stands between two fences the code is the lines of the block, whatever lines are
/// before the first fence, as long as none of them is a fence, and whatever follows the line
/// of the closing fence.
pub proof fn only_the_block_matters(
    before: Seq<Seq<char>>,
    open_line: Seq<char>,
    lines: Seq<Seq<char>>,
    close: Seq<char>,
    after: Seq<char>,
)
    requires
        reply_parts(before, open_line, lines),
        single(close) && backticks(close),
        after.len() > 0 ==> after[0] == '\n',
    ensures
        code_in(reply(before, open_line, lines, seq!['\n'] + close + after)) == joined(
            lines,
            seq!['\n'],
        ),
{
    let feed = seq!['\n'];
    let rest = feed + close + after;
    let whole = reply(before, open_line, lines, rest);
    let (left, tail) = lemma_trimmed_tail(close, after);
    let short = feed + left + tail;
    let front = joined(before, feed) + feed + (open_line + feed + (joined(lines, feed) + feed));
    assert(front + (close + after) =~= whole);
    trim_end_in_a_row(front, close + after);
    assert(trim_end_of(whole) == front + (left + tail));
    assert(front + (left + tail) =~= reply(before, open_line, lines, short));
    trim_either_end_first(whole);
    lemma_trimmed_front(trim_end_of(whole));
    let body = joined(lines, feed) + short;
    lemma_block_lines(lines, left + tail);
    assert(joined(lines, feed) + feed + (left + tail) =~= body);
    lemma_fence_first(left, tail);
    assert((lines + lines_of(left + tail)).take(lines.len() as int) =~= lines);
    assert((lines + lines_of(left + tail))[lines.len() as int] == lines_of(left + tail)[0]);
    lemma_block_of_reply(before, open_line, lines, short);
    lemma_holds_backticks(
        joined(before, feed) + feed,
        open_line,
        feed + (joined(lines, feed) + rest),
    );
    assert((joined(before, feed) + feed) + open_line + (feed + (joined(lines, feed) + rest))
        =~= whole);
    lemma_still_held(whole);
    reveal_strlit("\n");
    assert("\n"@ =~= feed);
}

/// A block that no fence closes goes on to the end of the reply.
pub proof fn open_block_goes_on(
    before: Seq<Seq<char>>,
    open_line: Seq<char>,
    lines: Seq<Seq<char>>,
)
    requires
        reply_parts(before, open_line, lines),
        lines.last().len() > 0,
        !white_space(lines.last().last()),
    ensures
        code_in(reply(before, open_line, lines, Seq::empty())) == joined(lines, seq!['\n']),
{
    let feed = seq!['\n'];
    let whole = reply(before, open_line, lines, Seq::empty());
    assert(joined(lines, feed) + Seq::<char>::empty() =~= joined(lines, feed));
    crate::text_laws::lines_undo_join(lines);
    assert(joined(lines, feed).len() > 0 && joined(lines, feed).last() == lines.last().last()) by {
        if lines.len() == 1 {
            assert(joined(lines, feed) == lines[0]);
        }
    }
    assert(whole.last() == lines.last().last());
    assert(trim_end_of(whole) == whole);
    trim_either_end_first(whole);
    lemma_trimmed_front(whole);
    assert(lines.take(lines.len() as int) =~= lines);
    lemma_block_of_reply(before, open_line, lines, Seq::empty());
    lemma_holds_backticks(joined(before, feed) + feed, open_line, feed + joined(lines, feed));
    assert((joined(before, feed) + feed) + open_line + (feed + joined(lines, feed)) =~= whole);
    lemma_still_held(whole);
    reveal_strlit("\n");
    assert("\n"@ =~= feed);
}

/// A reply of which no line is a fence is taken as code without the white space around it,
/// also where backticks stand inside a line.
pub proof fn reply_without_fence(response: Seq<char>)
    requires
        forall|i: int|
            0 <= i < lines_of(trim_of(response)).len() ==> !backticks(
                #[trigger] lines_of(trim_of(response))[i],
            ),
    ensures
        code_in(response) == trim_of(response),
{
    lemma_no_block(lines_of(trim_of(response)));
}

/// Lines of which none is a fence have no block.
proof fn lemma_no_block(lines: Seq<Seq<char>>)
    requires
        forall|i: int| 0 <= i < lines.len() ==> !backticks(#[trigger] lines[i]),
    ensures
        first_block(lines).len() == 0,
    decreases lines.len(),
{
    if lines.len() > 0 {
        assert(!backticks(lines[0]));
        fence_is_backticks(lines[0]);
        let more = lines.drop_first();
        assert forall|i: int| 0 <= i < more.len() implies !backticks(#[trigger] more[i]) by {
            assert(more[i] == lines[i + 1]);
        }
        lemma_no_block(more);
    }
}

/// A reply whose first fence is followed by another at once is taken as a whole, without the
/// white space around it.
pub proof fn empty_block_is_no_code(
    before: Seq<Seq<char>>,
    open_line: Seq<char>,
    close: Seq<char>,
    after: Seq<char>,
)
    requires
        forall|i: int|
            0 <= i < before.len() ==> single(#[trigger] before[i]) && !backticks(before[i]),
        single(open_line) && backticks(open_line),
        single(close) && backticks(close),
        after.len() > 0 ==> after[0] == '\n',
    ensures
        ({
            let whole = joined(before, seq!['\n']) + seq!['\n'] + (open_line + seq!['\n'] + (close
                + after));
            code_in(whole) == trim_of(whole)
        }),
{
    let feed = seq!['\n'];
    let whole = joined(before, feed) + feed + (open_line + feed + (close + after));
    let (left, tail) = lemma_trimmed_tail(close, after);
    let front = joined(before, feed) + feed + (open_line + feed);
    assert(front + (close + after) =~= whole);
    trim_end_in_a_row(front, close + after);
    assert(front + (left + tail) =~= joined(before, feed) + feed + (open_line + feed + (left
        + tail)));
    trim_either_end_first(whole);
    lemma_trimmed_front(trim_end_of(whole));
    lemma_skip_before(before, open_line + feed + (left + tail));
    first_line(open_line, left + tail);
    trim_drops_return(open_line);
    fence_is_backticks(without_return(open_line));
    lemma_fence_first(left, tail);
    let rest = lines_of(left + tail);
    fence_is_backticks(rest[0]);
    assert((seq![without_return(open_line)] + rest).drop_first() =~= rest);
}

/// A line of a text is part of the text.
proof fn lemma_line_is_held(s: Seq<char>, i: int)
    requires
        0 <= i < lines_of(s).len(),
    ensures
        holds(s, lines_of(s)[i]),
    decreases s.len(),
{
    break_is_first(s);
    let k = break_at(s);
    let none: Seq<char> = Seq::empty();
    if k < s.len() {
        let rest = s.skip(k + 1);
        let line = without_return(s.take(k));
        if i == 0 {
            let b = s.skip(line.len() as int);
            middle_is_held(none, line, b);
            assert(none + line + b =~= s);
        } else {
            assert(lines_of(s)[i] == lines_of(rest)[i - 1]);
            lemma_line_is_held(rest, i - 1);
            crate::text_laws::held_by_part(s.take(k + 1), rest, none, lines_of(s)[i]);
            assert(s.take(k + 1) + rest + none =~= s);
        }
    } else {
        middle_is_held(none, s, none);
        assert(none + s + none =~= s);
    }
}

/// The block of lines from the first fence on.
proof fn lemma_between(lines: Seq<Seq<char>>, i: int, j: int)
    requires
        0 <= i < j <= lines.len(),
        forall|k: int| 0 <= k < j && k != i ==> !backticks(#[trigger] lines[k]),
        backticks(lines[i]),
        j < lines.len() ==> backticks(lines[j]),
    ensures
        first_block(lines) == lines.subrange(i + 1, j),
    decreases i,
{
    let more = lines.drop_first();
    fence_is_backticks(lines[0]);
    if i > 0 {
        assert forall|k: int| 0 <= k < j - 1 && k != i - 1 implies !backticks(
            #[trigger] more[k],
        ) by {
            assert(more[k] == lines[k + 1]);
        }
        assert(!backticks(lines[0]));
        lemma_between(more, i - 1, j - 1);
        assert(more.subrange(i, j - 1) =~= lines.subrange(i + 1, j));
    } else {
        let block = lines.subrange(1, j);
        let rest = lines.skip(j);
        assert forall|k: int| 0 <= k < block.len() implies !backticks(#[trigger] block[k]) by {
            assert(block[k] == lines[k + 1]);
        }
        lemma_until(block, rest);
        assert(block + rest =~= more);
    }
}

/// Where the first fence is the line `i` of a reply and the next one, or the end, is at `j`,
/// the code is the lines between the two, if there are any, and else the whole reply without
/// the white space around it.
pub proof fn code_is_between_fences(response: Seq<char>, i: int, j: int)
    requires
        ({
            let lines = lines_of(trim_of(response));
            &&& 0 <= i < j <= lines.len()
            &&& forall|k: int| 0 <= k < j && k != i ==> !backticks(#[trigger] lines[k])
            &&& backticks(lines[i])
            &&& j < lines.len() ==> backticks(lines[j])
        }),
    ensures
        ({
            let lines = lines_of(trim_of(response));
            code_in(response) == if i + 1 < j {
                joined(lines.subrange(i + 1, j), seq!['\n'])
            } else {
                trim_of(response)
            }
        }),
{
    let whole = trim_of(response);
    let lines = lines_of(whole);
    lemma_between(lines, i, j);
    lemma_line_is_held(whole, i);
    lemma_holds_backticks(Seq::empty(), lines[i], Seq::empty());
    let none: Seq<char> = Seq::empty();
    assert(none + lines[i] + none =~= lines[i]);
    let k = choose|k: int| crate::text::occurs_at(whole, lines[i], k);
    crate::text_laws::held_by_part(
        whole.take(k),
        lines[i],
        whole.skip(k + lines[i].len()),
        "```"@,
    );
    assert(whole.take(k) + whole.subrange(k, k + lines[i].len()) + whole.skip(k + lines[i].len())
        =~= whole);
    reveal_strlit("\n");
    assert("\n"@ =~= seq!['\n']);
}

} // verus!
