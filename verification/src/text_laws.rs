//! Facts about trimming, lines and joining.

use vstd::prelude::*;
use crate::text::{
    break_at, holds, joined, lines_of, occurs_at, trim_end_of, trim_of, trim_start_of,
    white_space, without_return,
};

verus! {

/// `s` holds no line feed.
pub open spec fn one_line(s: Seq<char>) -> bool {
    forall|i: int| 0 <= i < s.len() ==> #[trigger] s[i] != '\n'
}

/// What stands between two texts is held by the whole.
pub proof fn middle_is_held(a: Seq<char>, needle: Seq<char>, b: Seq<char>)
    ensures
        holds(a + needle + b, needle),
{
    let s = a + needle + b;
    assert(s.subrange(a.len() as int, (a.len() + needle.len()) as int) =~= needle);
    assert(occurs_at(s, needle, a.len() as int));
}

/// What a part of a text holds, the text holds.
pub proof fn held_by_part(a: Seq<char>, part: Seq<char>, b: Seq<char>, needle: Seq<char>)
    requires
        holds(part, needle),
    ensures
        holds(a + part + b, needle),
{
    let i = choose|i: int| occurs_at(part, needle, i);
    let s = a + part + b;
    assert(s.subrange(a.len() + i, a.len() + i + needle.len()) =~= part.subrange(
        i,
        i + needle.len(),
    ));
    assert(occurs_at(s, needle, a.len() + i));
}

/// Cutting white space off the front leaves a tail that does not begin with white space.
pub proof fn trimmed_start(s: Seq<char>)
    ensures
        trim_start_of(s).len() <= s.len(),
        trim_start_of(s) == s.skip(s.len() - trim_start_of(s).len()),
        trim_start_of(s).len() > 0 ==> !white_space(trim_start_of(s).first()),
    decreases s.len(),
{
    if s.len() > 0 && white_space(s.first()) {
        trimmed_start(s.drop_first());
        let t = trim_start_of(s);
        assert(s.skip(s.len() - t.len()) =~= s.drop_first().skip(s.len() - 1 - t.len()));
    } else {
        assert(s.skip(0) =~= s);
    }
}

/// Cutting white space off the end leaves a head that does not end with white space.
pub proof fn trimmed_end(s: Seq<char>)
    ensures
        trim_end_of(s).len() <= s.len(),
        trim_end_of(s) == s.take(trim_end_of(s).len() as int),
        trim_end_of(s).len() > 0 ==> !white_space(trim_end_of(s).last()),
    decreases s.len(),
{
    if s.len() > 0 && white_space(s.last()) {
        trimmed_end(s.drop_last());
        let t = trim_end_of(s);
        assert(s.take(t.len() as int) =~= s.drop_last().take(t.len() as int));
    } else {
        assert(s.take(s.len() as int) =~= s);
    }
}

/// A trimmed text neither begins nor ends with white space, and it is part of the text that
/// it was trimmed from.
pub proof fn trimmed_ends(s: Seq<char>)
    ensures
        trim_of(s).len() > 0 ==> !white_space(trim_of(s).first()) && !white_space(
            trim_of(s).last(),
        ),
        holds(s, trim_of(s)),
{
    trimmed_start(s);
    let t = trim_start_of(s);
    trimmed_end(t);
    let u = trim_end_of(t);
    let k = s.len() - t.len();
    assert(s.subrange(k, k + u.len()) =~= u);
    assert(occurs_at(s, u, k));
}

/// A text that neither begins nor ends with white space is not changed by trimming.
pub proof fn trim_keeps(s: Seq<char>)
    requires
        s.len() > 0 ==> !white_space(s.first()) && !white_space(s.last()),
    ensures
        trim_of(s) == s,
{
}

/// Trimming a second time changes nothing.
pub proof fn trim_twice(s: Seq<char>)
    ensures
        trim_of(trim_of(s)) == trim_of(s),
{
    trimmed_ends(s);
    trim_keeps(trim_of(s));
}

/// A line feed that follows a text without one is the first.
pub proof fn first_break(p: Seq<char>, rest: Seq<char>)
    requires
        one_line(p),
    ensures
        break_at(p + seq!['\n'] + rest) == p.len(),
    decreases p.len(),
{
    let s = p + seq!['\n'] + rest;
    if p.len() > 0 {
        first_break(p.drop_first(), rest);
        assert(s.drop_first() =~= p.drop_first() + seq!['\n'] + rest);
        assert(s.first() == p[0]);
    } else {
        assert(s.first() == '\n');
    }
}

/// In a text without line feeds none is found.
pub proof fn no_break(p: Seq<char>)
    requires
        one_line(p),
    ensures
        break_at(p) == p.len(),
    decreases p.len(),
{
    if p.len() > 0 {
        assert(p.first() == p[0]);
        assert forall|i: int| 0 <= i < p.drop_first().len() implies #[trigger] p.drop_first()[i]
            != '\n' by {
            assert(p.drop_first()[i] == p[i + 1]);
        }
        no_break(p.drop_first());
    }
}

/// The first line feed of a text, where it has one, and what stands before it.
pub proof fn break_is_first(s: Seq<char>)
    ensures
        0 <= break_at(s) <= s.len(),
        break_at(s) < s.len() ==> s[break_at(s)] == '\n',
        one_line(s.take(break_at(s))),
    decreases s.len(),
{
    if s.len() > 0 && s.first() != '\n' {
        break_is_first(s.drop_first());
        let k = break_at(s);
        assert forall|i: int| 0 <= i < k implies #[trigger] s.take(k)[i] != '\n' by {
            if i > 0 {
                assert(s.drop_first().take(k - 1)[i - 1] == s[i]);
            }
        }
    }
}

/// A line that a line feed ends is the first line of a text.
pub proof fn first_line(p: Seq<char>, rest: Seq<char>)
    requires
        one_line(p),
    ensures
        lines_of(p + seq!['\n'] + rest) == seq![without_return(p)] + lines_of(rest),
{
    let s = p + seq!['\n'] + rest;
    first_break(p, rest);
    assert(s.take(p.len() as int) =~= p);
    assert(s.skip(p.len() as int + 1) =~= rest);
}

/// A text without line feeds is its only line.
pub proof fn only_line(p: Seq<char>)
    requires
        one_line(p),
        p.len() > 0,
    ensures
        lines_of(p) == seq![p],
{
    no_break(p);
}

/// No line holds a line feed.
pub proof fn lines_have_no_feed(s: Seq<char>)
    ensures
        forall|i: int| 0 <= i < lines_of(s).len() ==> one_line(#[trigger] lines_of(s)[i]),
    decreases s.len(),
{
    if s.len() > 0 {
        break_is_first(s);
        let k = break_at(s);
        if k < s.len() {
            lines_have_no_feed(s.skip(k + 1));
            let first = without_return(s.take(k));
            assert forall|j: int| 0 <= j < first.len() implies #[trigger] first[j] != '\n' by {
                assert(s.take(k)[j] != '\n');
            }
            assert forall|i: int| 0 <= i < lines_of(s).len() implies one_line(
                #[trigger] lines_of(s)[i],
            ) by {
                if i > 0 {
                    assert(lines_of(s)[i] == lines_of(s.skip(k + 1))[i - 1]);
                }
            }
        } else {
            assert(s.take(k) =~= s);
        }
    }
}

/// A joined list begins with its first part.
pub proof fn joined_front(parts: Seq<Seq<char>>, sep: Seq<char>)
    requires
        parts.len() >= 2,
    ensures
        joined(parts, sep) == parts[0] + sep + joined(parts.drop_first(), sep),
    decreases parts.len(),
{
    if parts.len() == 2 {
        assert(joined(parts.drop_last(), sep) == parts[0]);
        assert(joined(parts.drop_first(), sep) == parts[1]);
    } else {
        joined_front(parts.drop_last(), sep);
        let inner = parts.drop_last().drop_first();
        assert(inner =~= parts.drop_first().drop_last());
        assert(parts.drop_first().last() == parts.last());
        assert(joined(parts.drop_first(), sep) == joined(inner, sep) + sep + parts.last());
        assert(joined(parts, sep) =~= parts[0] + sep + (joined(inner, sep) + sep + parts.last()));
    }
}

/// The list can be read back from its lines: no part holds a line feed, only the last may
/// end with a carriage return, and the last is not empty.
pub open spec fn line_list(parts: Seq<Seq<char>>) -> bool {
    &&& forall|i: int| 0 <= i < parts.len() ==> one_line(#[trigger] parts[i])
    &&& forall|i: int|
        0 <= i < parts.len() - 1 && (#[trigger] parts[i]).len() > 0 ==> parts[i].last() != '\r'
    &&& parts.len() > 0 ==> parts.last().len() > 0
}

/// Splitting undoes joining with line feeds.
pub proof fn lines_undo_join(parts: Seq<Seq<char>>)
    requires
        line_list(parts),
    ensures
        lines_of(joined(parts, seq!['\n'])) == parts,
    decreases parts.len(),
{
    let sep = seq!['\n'];
    if parts.len() == 0 {
    } else if parts.len() == 1 {
        only_line(parts[0]);
        assert(parts =~= seq![parts[0]]);
    } else {
        let rest = parts.drop_first();
        joined_front(parts, sep);
        assert forall|i: int| 0 <= i < rest.len() implies one_line(#[trigger] rest[i]) by {
            assert(rest[i] == parts[i + 1]);
        }
        assert forall|i: int| 0 <= i < rest.len() - 1 && (#[trigger] rest[i]).len() > 0 implies
            rest[i].last() != '\r' by {
            assert(rest[i] == parts[i + 1]);
        }
        lines_undo_join(rest);
        first_line(parts[0], joined(rest, sep));
        assert(without_return(parts[0]) == parts[0]);
        assert(parts =~= seq![parts[0]] + rest);
    }
}

/// White space at the end does not matter to trimming.
pub proof fn trim_drops_last(s: Seq<char>, w: char)
    requires
        white_space(w),
    ensures
        trim_of(s.push(w)) == trim_of(s),
    decreases s.len(),
{
    let longer = s.push(w);
    if s.len() == 0 {
        assert(longer.drop_first() =~= s);
    } else {
        assert(longer.first() == s.first());
        if white_space(s.first()) {
            trim_drops_last(s.drop_first(), w);
            assert(longer.drop_first() =~= s.drop_first().push(w));
        } else {
            assert(longer.drop_last() =~= s);
        }
    }
}

/// White space at the front does not matter to trimming.
pub proof fn trim_drops_first(w: char, s: Seq<char>)
    requires
        white_space(w),
    ensures
        trim_of(seq![w] + s) == trim_of(s),
{
    assert((seq![w] + s).drop_first() =~= s);
}

/// A carriage return at the end does not matter to trimming.
pub proof fn trim_drops_return(s: Seq<char>)
    ensures
        trim_of(without_return(s)) == trim_of(s),
{
    if s.len() > 0 && s.last() == '\r' {
        trim_drops_last(s.drop_last(), '\r');
        assert(s.drop_last().push('\r') =~= s);
    }
}

/// Trimming the end of two texts in a row trims the second, and the first only where nothing
/// is left of the second.
pub proof fn trim_end_in_a_row(a: Seq<char>, b: Seq<char>)
    ensures
        trim_end_of(a + b) == if trim_end_of(b).len() > 0 {
            a + trim_end_of(b)
        } else {
            trim_end_of(a)
        },
    decreases b.len(),
{
    if b.len() == 0 {
        assert(a + b =~= a);
    } else if white_space(b.last()) {
        trim_end_in_a_row(a, b.drop_last());
        assert((a + b).drop_last() =~= a + b.drop_last());
    }
}

/// It does not matter which end is trimmed first.
pub proof fn trim_either_end_first(s: Seq<char>)
    ensures
        trim_start_of(trim_end_of(s)) == trim_of(s),
    decreases s.len(),
{
    if s.len() > 0 {
        let first = seq![s.first()];
        let rest = s.drop_first();
        assert(first + rest =~= s);
        trim_end_in_a_row(first, rest);
        reveal_with_fuel(trim_end_of, 2);
        assert(first.drop_last() =~= Seq::<char>::empty());
        if white_space(s.first()) {
            trim_either_end_first(rest);
            assert((first + trim_end_of(rest)).drop_first() =~= trim_end_of(rest));
        }
    }
}

} // verus!
