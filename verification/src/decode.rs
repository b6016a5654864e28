//! Reading a text line by line with a decoder that the caller supplies.

use vstd::prelude::*;
use crate::text::{lines_of, split_lines, texts, trim, trim_of};

verus! {

/// `decode` may answer `r` when it is given `text`.
pub open spec fn answers<R, F: Fn(&str) -> R>(decode: F, text: Seq<char>, r: R) -> bool {
    exists|s: &str| #![trigger s@] s@ == text && call_ensures(decode, (s,), r)
}

/// `rs` holds an answer of `decode` for each of the texts, in their order.
pub open spec fn all_answers<R, F: Fn(&str) -> R>(
    decode: F,
    list: Seq<Seq<char>>,
    rs: Seq<R>,
) -> bool {
    &&& rs.len() == list.len()
    &&& forall|i: int| 0 <= i < rs.len() ==> answers(decode, list[i], #[trigger] rs[i])
}

/// `decode` accepts every text.
pub open spec fn total<R, F: Fn(&str) -> R>(decode: F) -> bool {
    forall|s: &str| call_requires(decode, (s,))
}

/// What the decoder answers for each line of a text.
pub fn decode_lines<R, F: Fn(&str) -> R>(text: &str, decode: &F) -> (rs: Vec<R>)
    requires
        total(*decode),
    ensures
        all_answers(*decode, lines_of(text@), rs@),
{
    let lines = split_lines(text);
    let mut rs: Vec<R> = Vec::new();
    let mut i: usize = 0;
    while i < lines.len()
        invariant
            i <= lines@.len(),
            texts(lines@) == lines_of(text@),
            total(*decode),
            rs@.len() == i,
            forall|j: int|
                0 <= j < i ==> answers(*decode, lines_of(text@)[j], #[trigger] rs@[j]),
        decreases lines@.len() - i,
    {
        let line = lines[i].as_str();
        let r = decode(line);
        assert(line@ == lines_of(text@)[i as int]);
        rs.push(r);
        i += 1;
    }
    rs
}

/// A line that holds more than white space.
pub open spec fn not_blank() -> spec_fn(Seq<char>) -> bool {
    |line: Seq<char>| trim_of(line).len() > 0
}

/// The lines of a text that hold more than white space, in their order.
pub fn full_lines(text: &str) -> (lines: Vec<String>)
    ensures
        texts(lines@) == lines_of(text@).filter(not_blank()),
{
    let all = split_lines(text);
    let mut lines: Vec<String> = Vec::new();
    let mut i: usize = 0;
    let ghost source = lines_of(text@);
    assert(source.take(0).filter(not_blank()) =~= Seq::empty()) by {
        reveal(Seq::filter);
    }
    while i < all.len()
        invariant
            i <= all@.len(),
            source == texts(all@),
            texts(lines@) == source.take(i as int).filter(not_blank()),
        decreases all@.len() - i,
    {
        let line = &all[i];
        let ghost before = texts(lines@);
        proof {
            crate::decode::filter_step(source, not_blank(), i as int);
        }
        if !trim(line.as_str()).as_str().is_empty() {
            lines.push(line.clone());
            assert(texts(lines@) =~= before.push(line@));
        }
        i += 1;
    }
    assert(source.take(i as int) =~= source);
    lines
}

/// What a filter keeps of one more element.
pub proof fn filter_step<A>(s: Seq<A>, keep: spec_fn(A) -> bool, i: int)
    requires
        0 <= i < s.len(),
    ensures
        s.take(i + 1).filter(keep) == if keep(s[i]) {
            s.take(i).filter(keep).push(s[i])
        } else {
            s.take(i).filter(keep)
        },
{
    reveal(Seq::filter);
    assert(s.take(i + 1).drop_last() =~= s.take(i));
}

} // verus!
