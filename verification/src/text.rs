//! Text as sequences of characters: trimming, splitting, searching and joining.

use vstd::prelude::*;

verus! {

/// The contents of each string of a list.
pub open spec fn texts(list: Seq<String>) -> Seq<Seq<char>> {
    list.map_values(|s: String| s@)
}

/// The contents of an optional string.
pub open spec fn opt_text(s: Option<String>) -> Option<Seq<char>> {
    match s {
        Some(t) => Some(t@),
        None => None,
    }
}

/// The characters with the Unicode property `White_Space`.
pub open spec fn white_space(c: char) -> bool {
    ||| '\u{9}' <= c <= '\u{d}'
    ||| c == ' '
    ||| c == '\u{85}'
    ||| c == '\u{a0}'
    ||| c == '\u{1680}'
    ||| '\u{2000}' <= c <= '\u{200a}'
    ||| c == '\u{2028}'
    ||| c == '\u{2029}'
    ||| c == '\u{202f}'
    ||| c == '\u{205f}'
    ||| c == '\u{3000}'
}

/// `s` without its leading white space.
pub open spec fn trim_start_of(s: Seq<char>) -> Seq<char>
    decreases s.len(),
{
    if s.len() > 0 && white_space(s.first()) {
        trim_start_of(s.drop_first())
    } else {
        s
    }
}

/// `s` without its trailing white space.
pub open spec fn trim_end_of(s: Seq<char>) -> Seq<char>
    decreases s.len(),
{
    if s.len() > 0 && white_space(s.last()) {
        trim_end_of(s.drop_last())
    } else {
        s
    }
}

/// `s` without leading and trailing white space.
pub open spec fn trim_of(s: Seq<char>) -> Seq<char> {
    trim_end_of(trim_start_of(s))
}

/// The position of the first line feed in `s`, or its length if there is none.
pub open spec fn break_at(s: Seq<char>) -> int
    decreases s.len(),
{
    if s.len() == 0 || s.first() == '\n' {
        0
    } else {
        1 + break_at(s.drop_first())
    }
}

/// What follows the first line of `s`.
pub open spec fn after_line(s: Seq<char>) -> Seq<char> {
    if 0 <= break_at(s) < s.len() {
        s.skip(break_at(s) + 1)
    } else {
        Seq::empty()
    }
}

/// `s` without the one carriage return that may end it.
pub open spec fn without_return(s: Seq<char>) -> Seq<char> {
    if s.len() > 0 && s.last() == '\r' {
        s.drop_last()
    } else {
        s
    }
}

/// The lines of `s`. A line ends with a line feed, or with a carriage return and a
/// line feed; the ending is not part of the line and the last line needs none.
pub open spec fn lines_of(s: Seq<char>) -> Seq<Seq<char>>
    decreases s.len(),
{
    if s.len() == 0 {
        Seq::empty()
    } else if 0 <= break_at(s) < s.len() {
        seq![without_return(s.take(break_at(s)))] + lines_of(s.skip(break_at(s) + 1))
    } else {
        seq![s]
    }
}

/// `needle` stands in `s` at position `i`.
pub open spec fn occurs_at(s: Seq<char>, needle: Seq<char>, i: int) -> bool {
    0 <= i && i + needle.len() <= s.len() && s.subrange(i, i + needle.len()) == needle
}

/// `needle` stands somewhere in `s`.
pub open spec fn holds(s: Seq<char>, needle: Seq<char>) -> bool {
    exists|i: int| occurs_at(s, needle, i)
}

/// `s` begins with `prefix`.
pub open spec fn begins(s: Seq<char>, prefix: Seq<char>) -> bool {
    occurs_at(s, prefix, 0)
}

/// How often `needle` is found in `s`, reading from the left and skipping what was found.
pub open spec fn occurrences(s: Seq<char>, needle: Seq<char>) -> nat
    decreases s.len(),
{
    if needle.len() == 0 || s.len() < needle.len() {
        0
    } else if begins(s, needle) {
        1 + occurrences(s.skip(needle.len() as int), needle)
    } else {
        occurrences(s.drop_first(), needle)
    }
}

/// The texts one after the other, with `sep` between each two.
pub open spec fn joined(parts: Seq<Seq<char>>, sep: Seq<char>) -> Seq<char>
    decreases parts.len(),
{
    if parts.len() == 0 {
        Seq::empty()
    } else if parts.len() == 1 {
        parts[0]
    } else {
        joined(parts.drop_last(), sep) + sep + parts.last()
    }
}

/// `n` spaces.
pub open spec fn spaces(n: nat) -> Seq<char> {
    Seq::new(n, |i: int| ' ')
}

/// The characters of a string.
pub fn chars_of(s: &str) -> (chars: Vec<char>)
    ensures
        chars@ == s@,
{
    let mut chars: Vec<char> = Vec::new();
    for c in it: s.chars()
        invariant
            chars@ == it.seq().take(it.index() as int),
            it.seq() == s@,
    {
        chars.push(c);
    }
    chars
}

/// The string made of the characters from `from` up to `to`.
pub fn text_of(chars: &Vec<char>, from: usize, to: usize) -> (s: String)
    requires
        from <= to <= chars@.len(),
    ensures
        s@ == chars@.subrange(from as int, to as int),
{
    let mut s = String::new();
    let mut i: usize = from;
    while i < to
        invariant
            from <= i <= to <= chars@.len(),
            s@ == chars@.subrange(from as int, i as int),
        decreases to - i,
    {
        s.push(chars[i]);
        i += 1;
    }
    s
}

/// Whether a character has the Unicode property `White_Space`.
pub fn is_white_space(c: char) -> (b: bool)
    ensures
        b == white_space(c),
{
    ('\u{9}' <= c && c <= '\u{d}') || c == ' ' || c == '\u{85}' || c == '\u{a0}' || c == '\u{1680}'
        || ('\u{2000}' <= c && c <= '\u{200a}') || c == '\u{2028}' || c == '\u{2029}'
        || c == '\u{202f}' || c == '\u{205f}' || c == '\u{3000}'
}

/// The string without leading and trailing white space.
pub fn trim(s: &str) -> (t: String)
    ensures
        t@ == trim_of(s@),
{
    let chars = chars_of(s);
    let mut from: usize = 0;
    assert(chars@.skip(0) =~= s@);
    while from < chars.len() && is_white_space(chars[from])
        invariant
            from <= chars@.len(),
            trim_start_of(chars@.skip(from as int)) == trim_start_of(s@),
        decreases chars@.len() - from,
    {
        assert(chars@.skip(from as int).drop_first() =~= chars@.skip(from + 1));
        from += 1;
    }
    let mut to: usize = chars.len();
    assert(chars@.subrange(from as int, to as int) =~= chars@.skip(from as int));
    assert(trim_start_of(s@) == chars@.subrange(from as int, to as int));
    while from < to && is_white_space(chars[to - 1])
        invariant
            from <= to <= chars@.len(),
            trim_end_of(chars@.subrange(from as int, to as int)) == trim_of(s@),
        decreases to,
    {
        assert(chars@.subrange(from as int, to as int).drop_last() =~= chars@.subrange(
            from as int,
            to - 1,
        ));
        to -= 1;
    }
    text_of(&chars, from, to)
}

/// Whether two strings have the same characters.
pub fn same_text(a: &str, b: &str) -> (r: bool)
    ensures
        r == (a@ == b@),
{
    let x = chars_of(a);
    let y = chars_of(b);
    if x.len() != y.len() {
        return false;
    }
    let mut i: usize = 0;
    while i < x.len()
        invariant
            i <= x@.len(),
            x@.len() == y@.len(),
            x@.take(i as int) == y@.take(i as int),
            x@ == a@,
            y@ == b@,
        decreases x@.len() - i,
    {
        if x[i] != y[i] {
            return false;
        }
        assert(x@.take(i + 1) =~= x@.take(i as int).push(x@[i as int]));
        assert(y@.take(i + 1) =~= y@.take(i as int).push(y@[i as int]));
        i += 1;
    }
    assert(x@.take(i as int) =~= x@);
    assert(y@.take(i as int) =~= y@);
    true
}

/// Whether `needle` stands in `chars` at position `at`.
pub fn found_at(chars: &Vec<char>, needle: &Vec<char>, at: usize) -> (r: bool)
    requires
        at <= chars@.len(),
    ensures
        r == occurs_at(chars@, needle@, at as int),
{
    if chars.len() - at < needle.len() {
        return false;
    }
    let mut k: usize = 0;
    while k < needle.len()
        invariant
            k <= needle@.len(),
            at + needle@.len() <= chars@.len() <= usize::MAX,
            forall|j: int| 0 <= j < k ==> #[trigger] needle@[j] == chars@[at + j],
        decreases needle@.len() - k,
    {
        if chars[at + k] != needle[k] {
            assert(chars@.subrange(at as int, at + needle@.len())[k as int] != needle@[k as int]);
            return false;
        }
        k += 1;
    }
    assert(chars@.subrange(at as int, at + needle@.len()) =~= needle@);
    true
}

/// Whether `s` begins with `prefix`.
pub fn starts_with(s: &str, prefix: &str) -> (r: bool)
    ensures
        r == begins(s@, prefix@),
{
    let chars = chars_of(s);
    let needle = chars_of(prefix);
    found_at(&chars, &needle, 0)
}

/// Whether `needle` stands somewhere in `s`.
pub fn contains(s: &str, needle: &str) -> (r: bool)
    ensures
        r == holds(s@, needle@),
{
    let chars = chars_of(s);
    let wanted = chars_of(needle);
    let mut i: usize = 0;
    loop
        invariant
            i <= chars@.len(),
            chars@ == s@,
            wanted@ == needle@,
            forall|j: int| 0 <= j < i ==> !#[trigger] occurs_at(s@, needle@, j),
        decreases chars@.len() - i,
    {
        if found_at(&chars, &wanted, i) {
            return true;
        }
        if i == chars.len() {
            return false;
        }
        i += 1;
    }
}

/// How often `needle` is found in `s`, reading from the left and skipping what was found.
pub fn count_matches(s: &str, needle: &str) -> (n: usize)
    requires
        needle@.len() > 0,
    ensures
        n == occurrences(s@, needle@),
{
    let chars = chars_of(s);
    let wanted = chars_of(needle);
    let mut i: usize = 0;
    let mut n: usize = 0;
    assert(chars@.skip(0) =~= s@);
    while i < chars.len()
        invariant
            i <= chars@.len(),
            n <= i,
            chars@ == s@,
            wanted@ == needle@,
            needle@.len() > 0,
            n + occurrences(chars@.skip(i as int), needle@) == occurrences(s@, needle@),
        decreases chars@.len() - i,
    {
        let ghost rest = chars@.skip(i as int);
        if found_at(&chars, &wanted, i) {
            assert(rest.subrange(0, needle@.len() as int) =~= chars@.subrange(
                i as int,
                i + needle@.len(),
            ));
            assert(begins(rest, needle@));
            assert(rest.skip(needle@.len() as int) =~= chars@.skip(i + needle@.len()));
            i += wanted.len();
            n += 1;
        } else {
            proof {
                if begins(rest, needle@) {
                    assert(rest.subrange(0, needle@.len() as int) =~= chars@.subrange(
                        i as int,
                        i + needle@.len(),
                    ));
                }
                assert(rest.drop_first() =~= chars@.skip(i + 1));
            }
            i += 1;
        }
    }
    n
}

/// The lines of a string.
pub fn split_lines(s: &str) -> (lines: Vec<String>)
    ensures
        texts(lines@) == lines_of(s@),
{
    let chars = chars_of(s);
    let mut lines: Vec<String> = Vec::new();
    let mut from: usize = 0;
    assert(chars@.skip(0) =~= s@);
    assert(texts(lines@) =~= Seq::<Seq<char>>::empty());
    while from < chars.len()
        invariant
            from <= chars@.len(),
            chars@ == s@,
            texts(lines@) + lines_of(chars@.skip(from as int)) == lines_of(s@),
        decreases chars@.len() - from,
    {
        let ghost rest = chars@.skip(from as int);
        let ghost done = texts(lines@);
        let mut to: usize = from;
        assert(rest.skip(0) =~= rest);
        while to < chars.len() && chars[to] != '\n'
            invariant
                from <= to <= chars@.len(),
                rest == chars@.skip(from as int),
                break_at(rest) == to - from + break_at(rest.skip(to - from)),
            decreases chars@.len() - to,
        {
            assert(rest.skip(to - from).drop_first() =~= rest.skip(to + 1 - from));
            to += 1;
        }
        if to < chars.len() {
            assert(break_at(rest) == to - from);
            assert(rest.take(to - from) =~= chars@.subrange(from as int, to as int));
            let end: usize = if to > from && chars[to - 1] == '\r' { to - 1 } else { to };
            assert(chars@.subrange(from as int, end as int) =~= without_return(
                rest.take(to - from),
            ));
            lines.push(text_of(&chars, from, end));
            assert(rest.skip(to - from + 1) =~= chars@.skip(to + 1));
            assert(texts(lines@) =~= done.push(without_return(rest.take(to - from))));
            assert(done.push(without_return(rest.take(to - from))) + lines_of(chars@.skip(to + 1))
                =~= done + lines_of(rest));
            from = to + 1;
        } else {
            assert(break_at(rest) == rest.len());
            assert(rest =~= chars@.subrange(from as int, to as int));
            lines.push(text_of(&chars, from, to));
            assert(texts(lines@) =~= done + seq![rest]);
            from = to;
            assert(texts(lines@) + lines_of(chars@.skip(from as int)) =~= done + lines_of(rest));
        }
    }
    assert(texts(lines@) + lines_of(chars@.skip(from as int)) =~= texts(lines@));
    lines
}

/// The strings one after the other, with `sep` between each two.
pub fn join(parts: &Vec<String>, sep: &str) -> (s: String)
    ensures
        s@ == joined(texts(parts@), sep@),
{
    let ghost all = texts(parts@);
    let mut s = String::new();
    let mut i: usize = 0;
    while i < parts.len()
        invariant
            i <= parts@.len(),
            all == texts(parts@),
            s@ == joined(all.take(i as int), sep@),
        decreases parts@.len() - i,
    {
        assert(all.take(i + 1).drop_last() =~= all.take(i as int));
        if i > 0 {
            s.append(sep);
        }
        s.append(parts[i].as_str());
        i += 1;
    }
    assert(all.take(i as int) =~= all);
    s
}

} // verus!
