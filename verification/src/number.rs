//! Decimal numerals.

use vstd::prelude::*;
use crate::text::chars_of;

verus! {

/// The digit that stands for `d`, which is below ten.
pub open spec fn digit(d: int) -> char {
    ('0' as int + d) as char
}

/// The decimal numeral of `n`, without leading zeros.
pub open spec fn numeral(n: nat) -> Seq<char>
    decreases n,
{
    if n < 10 {
        seq![digit(n as int)]
    } else {
        numeral(n / 10).push(digit((n % 10) as int))
    }
}

/// The decimal numeral of `n`, with a minus sign where `n` is negative.
pub open spec fn signed_numeral(n: int) -> Seq<char> {
    if n < 0 {
        seq!['-'] + numeral((-n) as nat)
    } else {
        numeral(n as nat)
    }
}

pub open spec fn is_digit(c: char) -> bool {
    '0' <= c <= '9'
}

pub open spec fn all_digits(s: Seq<char>) -> bool {
    forall|i: int| 0 <= i < s.len() ==> is_digit(#[trigger] s[i])
}

/// The number that a sequence of digits stands for.
pub open spec fn number_of(s: Seq<char>) -> nat
    decreases s.len(),
{
    if s.len() == 0 {
        0
    } else {
        (number_of(s.drop_last()) * 10 + (s.last() as int - '0' as int)) as nat
    }
}

/// `s` without the one plus sign that may begin it.
pub open spec fn without_plus(s: Seq<char>) -> Seq<char> {
    if s.len() > 0 && s.first() == '+' {
        s.drop_first()
    } else {
        s
    }
}

/// The 32-bit number that `s` stands for: an optional plus sign and at least one digit.
pub open spec fn parsed_u32(s: Seq<char>) -> Option<u32> {
    let digits = without_plus(s);
    if digits.len() > 0 && all_digits(digits) && number_of(digits) <= u32::MAX {
        Some(number_of(digits) as u32)
    } else {
        None
    }
}

/// The digit that stands for `d`.
fn digit_char(d: u128) -> (c: char)
    requires
        d < 10,
    ensures
        c == digit(d as int),
{
    ('0' as u8 + d as u8) as char
}

/// The decimal numeral of `n`.
pub fn decimal(n: u128) -> (s: String)
    ensures
        s@ == numeral(n as nat),
    decreases n,
{
    let mut s = if n < 10 {
        String::new()
    } else {
        decimal(n / 10)
    };
    s.push(digit_char(n % 10));
    assert(n < 10 ==> s@ =~= seq![digit(n as int)]);
    s
}

/// The decimal numeral of `n`, with a minus sign where `n` is negative.
pub fn signed_decimal(n: i64) -> (s: String)
    ensures
        s@ == signed_numeral(n as int),
{
    if n < 0 {
        let mut s = String::new();
        s.push('-');
        let magnitude: u128 = (0 - n as i128) as u128;
        s.append(decimal(magnitude).as_str());
        assert(Seq::<char>::empty().push('-') =~= seq!['-']);
        s
    } else {
        decimal(n as u128)
    }
}

/// A longer row of digits stands for no smaller a number.
proof fn lemma_number_grows(s: Seq<char>, k: int)
    requires
        all_digits(s),
        0 <= k <= s.len(),
    ensures
        number_of(s.take(k)) <= number_of(s),
    decreases s.len() - k,
{
    if k < s.len() {
        lemma_number_grows(s, k + 1);
        assert(s.take(k + 1).drop_last() =~= s.take(k));
    } else {
        assert(s.take(k) =~= s);
    }
}

/// Reads a 32-bit number: an optional plus sign and at least one digit.
pub fn parse_u32(s: &str) -> (r: Option<u32>)
    ensures
        r == parsed_u32(s@),
{
    let chars = chars_of(s);
    let from: usize = if chars.len() > 0 && chars[0] == '+' { 1 } else { 0 };
    let ghost digits = without_plus(s@);
    assert(digits =~= chars@.skip(from as int));
    if from == chars.len() {
        return None;
    }
    let mut value: u32 = 0;
    let mut i: usize = from;
    while i < chars.len()
        invariant
            from <= i <= chars@.len(),
            digits == chars@.skip(from as int),
            digits == without_plus(s@),
            value == number_of(digits.take(i - from)),
            all_digits(digits.take(i - from)),
        decreases chars@.len() - i,
    {
        let c = chars[i];
        let ghost k = i - from;
        assert(digits.take(k + 1).drop_last() =~= digits.take(k));
        assert(digits[k] == c);
        if !('0' <= c && c <= '9') {
            assert(!is_digit(digits[k]));
            return None;
        }
        let d: u32 = c as u32 - '0' as u32;
        let next: u64 = value as u64 * 10 + d as u64;
        assert(next == number_of(digits.take(k + 1)));
        if next > u32::MAX as u64 {
            proof {
                if all_digits(digits) {
                    lemma_number_grows(digits, k + 1);
                }
            }
            return None;
        }
        value = next as u32;
        i += 1;
        assert forall|j: int| 0 <= j < k + 1 implies is_digit(#[trigger] digits.take(k + 1)[j]) by {
            if j < k {
                assert(digits.take(k + 1)[j] == digits.take(k)[j]);
            }
        }
    }
    assert(digits.take(i - from) =~= digits);
    Some(value)
}

/// A numeral is made of digits, and it stands for the number it was made from.
pub proof fn numeral_reads_back(n: nat)
    ensures
        numeral(n).len() > 0,
        all_digits(numeral(n)),
        number_of(numeral(n)) == n,
    decreases n,
{
    if n < 10 {
        let s = numeral(n);
        assert(s.drop_last() =~= Seq::<char>::empty());
        assert(number_of(s.drop_last()) == 0);
        assert(s.last() as int - '0' as int == n);
    } else {
        numeral_reads_back(n / 10);
        let s = numeral(n);
        assert(s.drop_last() =~= numeral(n / 10));
        assert(s.last() as int - '0' as int == n % 10);
    }
}

/// Reading the numeral of a 32-bit number gives the number back.
pub proof fn parse_undoes_decimal(n: u32)
    ensures
        parsed_u32(numeral(n as nat)) == Some(n),
{
    numeral_reads_back(n as nat);
    assert(is_digit(numeral(n as nat)[0]));
}

} // verus!
