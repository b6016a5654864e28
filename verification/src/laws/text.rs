//! Laws of searching, trimming, lines, joining and numerals.

use vstd::prelude::*;
use crate::decode::{all_answers, answers, total};
use crate::number::{all_digits, number_of, numeral, parsed_u32, signed_numeral, without_plus};
use crate::text::{
    begins, holds, joined, lines_of, occurrences, occurs_at, opt_text, spaces, texts,
    trim_of, white_space, without_return,
};
use crate::text_laws::{
    first_line, middle_is_held, one_line, only_line, trim_drops_first,
    trim_drops_last, trim_keeps, trimmed_ends,
};

verus! {

/// A list of strings has as many contents as strings, each at its place.
pub proof fn each_string_is_seen(list: Seq<String>)
    ensures
        texts(list).len() == list.len(),
        forall|i: int| 0 <= i < list.len() ==> #[trigger] texts(list)[i] == list[i]@,
{
}

/// An optional string has contents exactly where it is there.
pub proof fn optional_string_is_seen(s: Option<String>)
    ensures
        opt_text(s) is Some <==> s is Some,
        s is Some ==> opt_text(s)->0 == s->0@,
{
}

/// A text holds another exactly where it can be cut into something, the other and something.
pub proof fn held_is_between(s: Seq<char>, needle: Seq<char>)
    ensures
        holds(s, needle) <==> exists|a: Seq<char>, b: Seq<char>| #[trigger] (a + needle + b) == s,
{
    if holds(s, needle) {
        let i = choose|i: int| occurs_at(s, needle, i);
        let a = s.take(i);
        let b = s.skip(i + needle.len());
        assert(a + s.subrange(i, i + needle.len()) + b =~= s);
        assert(a + needle + b == s);
    }
    if exists|a: Seq<char>, b: Seq<char>| #[trigger] (a + needle + b) == s {
        let (a, b) = choose|a: Seq<char>, b: Seq<char>| #[trigger] (a + needle + b) == s;
        middle_is_held(a, needle, b);
    }
}

/// A text begins with each of its prefixes and with nothing else.
pub proof fn beginning_is_prefix(s: Seq<char>, prefix: Seq<char>)
    ensures
        begins(s, prefix) <==> prefix.is_prefix_of(s),
{
    if prefix.is_prefix_of(s) {
        assert(s.subrange(0, prefix.len() as int) =~= prefix);
    }
}

/// White space around a text that neither begins nor ends with any is trimmed, and no more.
pub proof fn trimming_cuts_white_space(a: Seq<char>, middle: Seq<char>, b: Seq<char>)
    requires
        forall|i: int| 0 <= i < a.len() ==> white_space(#[trigger] a[i]),
        forall|i: int| 0 <= i < b.len() ==> white_space(#[trigger] b[i]),
        middle.len() > 0 ==> !white_space(middle.first()) && !white_space(middle.last()),
    ensures
        trim_of(a + middle + b) == middle,
    decreases a.len() + b.len(),
{
    if a.len() > 0 {
        let rest = a.drop_first();
        assert forall|i: int| 0 <= i < rest.len() implies white_space(#[trigger] rest[i]) by {
            assert(rest[i] == a[i + 1]);
        }
        trimming_cuts_white_space(rest, middle, b);
        assert(white_space(a[0]));
        trim_drops_first(a[0], rest + middle + b);
        assert(seq![a[0]] + (rest + middle + b) =~= a + middle + b);
    } else if b.len() > 0 {
        let rest = b.drop_last();
        trimming_cuts_white_space(a, middle, rest);
        assert(white_space(b[b.len() - 1]));
        trim_drops_last(a + middle + rest, b.last());
        assert((a + middle + rest).push(b.last()) =~= a + middle + b);
    } else {
        assert(a + middle + b =~= middle);
        trim_keeps(middle);
    }
}

/// Of a text in which some character is not white space something is left, of any other
/// nothing.
pub proof fn trimming_leaves_what_is_there(s: Seq<char>)
    ensures
        trim_of(s).len() > 0 <==> exists|i: int| 0 <= i < s.len() && !white_space(#[trigger] s[i]),
{
    trimmed_ends(s);
    if trim_of(s).len() > 0 {
        let k = choose|k: int| occurs_at(s, trim_of(s), k);
        assert(s.subrange(k, k + trim_of(s).len())[0] == s[k]);
        assert(!white_space(s[k]));
    } else if exists|i: int| 0 <= i < s.len() && !white_space(#[trigger] s[i]) {
        let i = choose|i: int| 0 <= i < s.len() && !white_space(#[trigger] s[i]);
        lemma_kept(s, i);
    }
}

/// A text with a character that is not white space does not vanish.
proof fn lemma_kept(s: Seq<char>, i: int)
    requires
        0 <= i < s.len(),
        !white_space(s[i]),
    ensures
        trim_of(s).len() > 0,
    decreases s.len(),
{
    if white_space(s.first()) {
        assert(s.drop_first()[i - 1] == s[i]);
        lemma_kept(s.drop_first(), i - 1);
        trim_drops_first(s.first(), s.drop_first());
        assert(seq![s.first()] + s.drop_first() =~= s);
    } else if white_space(s.last()) {
        assert(s.drop_last()[i] == s[i]);
        lemma_kept(s.drop_last(), i);
        trim_drops_last(s.drop_last(), s.last());
        assert(s.drop_last().push(s.last()) =~= s);
    } else {
        trim_keeps(s);
    }
}

/// A line that a line feed ends, and not a carriage return before it, is a line as it is.
pub proof fn feed_ends_line(p: Seq<char>, rest: Seq<char>)
    requires
        !p.contains('\n'),
        p.len() > 0 ==> p.last() != '\r',
    ensures
        lines_of(p + seq!['\n'] + rest) == seq![p] + lines_of(rest),
{
    assert(one_line(p)) by {
        assert forall|i: int| 0 <= i < p.len() implies #[trigger] p[i] != '\n' by {
            assert(p.contains(p[i]));
        }
    }
    first_line(p, rest);
}

/// A line that a carriage return and a line feed end is a line without both.
pub proof fn return_and_feed_end_line(p: Seq<char>, rest: Seq<char>)
    requires
        !p.contains('\n'),
    ensures
        lines_of(p + seq!['\r', '\n'] + rest) == seq![p] + lines_of(rest),
{
    let q = p.push('\r');
    assert forall|i: int| 0 <= i < q.len() implies #[trigger] q[i] != '\n' by {
        if i < p.len() {
            assert(p.contains(p[i]));
        }
    }
    first_line(q, rest);
    assert(q + seq!['\n'] + rest =~= p + seq!['\r', '\n'] + rest);
    assert(without_return(q) =~= p);
}

/// The last line needs no ending, and nothing has no lines.
pub proof fn last_line(p: Seq<char>)
    requires
        !p.contains('\n'),
    ensures
        p.len() > 0 ==> lines_of(p) == seq![p],
        p.len() == 0 ==> lines_of(p).len() == 0,
{
    if p.len() > 0 {
        assert forall|i: int| 0 <= i < p.len() implies #[trigger] p[i] != '\n' by {
            assert(p.contains(p[i]));
        }
        only_line(p);
    }
}

/// Joining nothing gives nothing, joining one text gives that text, and each further text
/// follows the separator.
pub proof fn joining_puts_between(parts: Seq<Seq<char>>, last: Seq<char>, sep: Seq<char>)
    ensures
        joined(Seq::empty(), sep).len() == 0,
        parts.len() == 0 ==> joined(parts.push(last), sep) == last,
        parts.len() > 0 ==> joined(parts.push(last), sep) == joined(parts, sep) + sep + last,
{
    assert(parts.push(last).drop_last() =~= parts);
}

/// A text is found once more where it is put before another, and a character with which it
/// does not begin is passed over.
pub proof fn occurrences_are_counted(needle: Seq<char>, c: char, rest: Seq<char>)
    requires
        needle.len() > 0,
    ensures
        occurrences(needle + rest, needle) == 1 + occurrences(rest, needle),
        !needle.is_prefix_of(seq![c] + rest) ==> occurrences(seq![c] + rest, needle)
            == occurrences(rest, needle),
        occurrences(Seq::empty(), needle) == 0,
{
    let s = needle + rest;
    assert(s.subrange(0, needle.len() as int) =~= needle);
    assert(s.skip(needle.len() as int) =~= rest);
    let t = seq![c] + rest;
    assert(t.drop_first() =~= rest);
    beginning_is_prefix(t, needle);
    if t.len() < needle.len() {
        assert(occurrences(rest, needle) == 0);
    }
}

/// `n` spaces are `n` characters, each a space.
pub proof fn spaces_are_spaces(n: nat)
    ensures
        spaces(n).len() == n,
        forall|i: int| 0 <= i < n ==> #[trigger] spaces(n)[i] == ' ',
{
}

/// A numeral goes on with the digit of the ones, behind the numeral of the tens.
pub proof fn numeral_by_digits(n: nat, d: nat)
    requires
        d < 10,
    ensures
        numeral(d) == seq![('0' as int + d) as char],
        n > 0 ==> numeral(10 * n + d) == numeral(n).push(('0' as int + d) as char),
{
    if n > 0 {
        assert((10 * n + d) / 10 == n);
        assert((10 * n + d) % 10 == d);
    }
}

/// A negative number has the numeral of its opposite behind a minus sign.
pub proof fn minus_sign(n: int)
    ensures
        n < 0 ==> signed_numeral(n) == seq!['-'] + numeral((-n) as nat),
        n >= 0 ==> signed_numeral(n) == numeral(n as nat),
{
}

/// A digit behind a number that was read adds to ten times the number, as long as the sum
/// fits; another character spoils it.
pub proof fn reading_by_digits(s: Seq<char>, v: u32, c: char)
    requires
        parsed_u32(s) == Some(v),
    ensures
        '0' <= c <= '9' && v * 10 + (c as int - '0' as int) <= u32::MAX ==> parsed_u32(s.push(c))
            == Some((v * 10 + (c as int - '0' as int)) as u32),
        '0' <= c <= '9' && v * 10 + (c as int - '0' as int) > u32::MAX ==> parsed_u32(s.push(c))
            is None,
        !('0' <= c <= '9') ==> parsed_u32(s.push(c)) is None,
{
    let t = s.push(c);
    let a = without_plus(s);
    let b = without_plus(t);
    assert(b =~= a.push(c)) by {
        if s.first() == '+' {
            assert(t.drop_first() =~= s.drop_first().push(c));
        }
    }
    assert(b.drop_last() =~= a);
    if '0' <= c <= '9' {
        assert forall|i: int| 0 <= i < b.len() implies crate::number::is_digit(#[trigger] b[i]) by {
            if i < a.len() {
                assert(b[i] == a[i]);
            }
        }
    } else {
        assert(b[b.len() - 1] == c);
    }
}

/// One digit is read as its value; nothing, and a sign alone, cannot be read.
pub proof fn reading_begins(c: char)
    ensures
        '0' <= c <= '9' ==> parsed_u32(seq![c]) == Some((c as int - '0' as int) as u32),
        '0' <= c <= '9' ==> parsed_u32(seq!['+', c]) == Some((c as int - '0' as int) as u32),
        !('0' <= c <= '9') ==> parsed_u32(seq![c]) is None,
        !('0' <= c <= '9') ==> parsed_u32(seq!['+', c]) is None,
        parsed_u32(Seq::empty()) is None,
{
    let one = seq![c];
    let two = seq!['+', c];
    assert(two.drop_first() =~= one);
    assert(one.drop_last() =~= Seq::<char>::empty());
    assert(number_of(Seq::<char>::empty()) == 0);
    assert(seq!['+'].drop_first() =~= Seq::<char>::empty());
    if !('0' <= c <= '9') {
        assert(one[0] == c);
        assert(!all_digits(one));
    }
}

/// What cannot be read for another reason than its size cannot be read with more behind it.
pub proof fn reading_stays_spoiled(s: Seq<char>, c: char)
    requires
        s.len() > 1 || s.len() == 1 && s[0] != '+',
        parsed_u32(s) is None,
    ensures
        parsed_u32(s.push(c)) is None,
{
    let t = s.push(c);
    let a = without_plus(s);
    let b = without_plus(t);
    assert(b =~= a.push(c)) by {
        if s.first() == '+' {
            assert(t.drop_first() =~= s.drop_first().push(c));
        }
    }
    assert(b.drop_last() =~= a);
    if all_digits(b) {
        assert forall|i: int| 0 <= i < a.len() implies crate::number::is_digit(#[trigger] a[i]) by {
            assert(b[i] == a[i]);
        }
        assert(crate::number::is_digit(b[b.len() - 1]));
    }
}

/// A decoder's answers stand for the texts they were given for, one for each and at its
/// place.
pub proof fn every_text_is_answered<R, F: Fn(&str) -> R>(
    decode: F,
    list: Seq<Seq<char>>,
    rs: Seq<R>,
    i: int,
)
    requires
        all_answers(decode, list, rs),
        0 <= i < list.len(),
    ensures
        rs.len() == list.len(),
        exists|s: &str| #![trigger s@] s@ == list[i] && call_ensures(decode, (s,), rs[i]),
{
    assert(answers(decode, list[i], rs[i]));
}

/// An answer for a text is one that the decoder gives for a string with its characters.
pub proof fn answer_is_given<R, F: Fn(&str) -> R>(decode: F, text: Seq<char>, r: R)
    requires
        answers(decode, text, r),
    ensures
        exists|s: &str| #![trigger s@] s@ == text && call_ensures(decode, (s,), r),
{
}

/// A decoder that may be called with every string accepts every text.
pub proof fn unconditional_decoder<R, F: Fn(&str) -> R>(decode: F)
    requires
        forall|s: &str| call_requires(decode, (s,)),
    ensures
        total(decode),
{
}

} // verus!
