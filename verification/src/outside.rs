//! Calls into other crates and into std, with what is relied on of each.

use vstd::prelude::*;

verus! {

/// `String::push`: the character is appended to the end of the string.
pub assume_specification[ String::push ](s: &mut String, c: char)
    ensures
        final(s)@ == old(s)@.push(c),
;

/// What `String::from_utf8_lossy` makes of bytes.
pub uninterp spec fn utf8_lossy(bytes: Seq<u8>) -> Seq<char>;

/// `String::from_utf8_lossy`: the text of bytes that are meant as UTF-8. It depends on the
/// bytes alone; valid UTF-8 is decoded. How many replacement characters invalid bytes
/// become is left unsaid.
#[verifier::external_body]
pub(crate) fn lossy_text(bytes: &Vec<u8>) -> (text: String)
    ensures
        text@ == utf8_lossy(bytes@),
        vstd::utf8::valid_utf8(bytes@) ==> text@ == vstd::utf8::decode_utf8(bytes@),
{
    String::from_utf8_lossy(bytes).into_owned()
}

/// What the capture groups of a regular expression hold after its first match in a text:
/// `None` where `regex::Regex::new` rejects the pattern, `Some(None)` where nothing matches.
pub uninterp spec fn regex_captures(pattern: Seq<char>, text: Seq<char>) -> Option<
    Option<Seq<Option<Seq<char>>>>,
>;

/// The contents of capture groups.
pub open spec fn groups_view(groups: Seq<Option<String>>) -> Seq<Option<Seq<char>>> {
    groups.map_values(|g: Option<String>| crate::text::opt_text(g))
}

/// The contents of the capture groups of a search.
pub open spec fn captures_view(captures: Option<Vec<Option<String>>>) -> Option<
    Seq<Option<Seq<char>>>,
> {
    match captures {
        Some(groups) => Some(groups_view(groups@)),
        None => None,
    }
}

/// `regex::Regex::new` and, on the expression it builds, `regex::Regex::captures`: the text
/// of each capture group of the leftmost match, the whole match first. The result depends
/// on the pattern and the text alone.
#[verifier::external_body]
pub(crate) fn first_captures(pattern: &str, text: &str) -> (r: Option<
    Option<Vec<Option<String>>>,
>)
    ensures
        regex_captures(pattern@, text@) == match r {
            Some(captures) => Some(captures_view(captures)),
            None => None,
        },
{
    let expression = regex::Regex::new(pattern).ok()?;
    Some(
        expression.captures(text).map(
            |c| c.iter().map(|g| g.map(|m| m.as_str().to_string())).collect(),
        ),
    )
}

/// The text that a `strftime` pattern makes of a moment, given in seconds since the Unix
/// epoch and shown in UTC: `None` where the moment is out of chrono's range or the pattern
/// is not valid.
pub uninterp spec fn utc_stamp(secs: i64, pattern: Seq<char>) -> Option<Seq<char>>;

/// `chrono::DateTime::from_timestamp` and `DateTime::format`: the moment written as the
/// pattern says. The result depends on the moment and the pattern alone.
#[verifier::external_body]
pub(crate) fn format_utc(secs: i64, pattern: &str) -> (r: Option<String>)
    ensures
        crate::text::opt_text(r) == utc_stamp(secs, pattern@),
{
    let moment = chrono::DateTime::from_timestamp(secs, 0)?;
    let mut text = String::new();
    moment.format(pattern).write_to(&mut text).ok()?;
    Some(text)
}

} // verus!
