use rustbench::number::{decimal, parse_u32, signed_decimal};
use rustbench::text::{
    chars_of, contains, count_matches, is_white_space, join, same_text, split_lines, starts_with,
    text_of, trim,
};

const SAMPLES: [&str; 18] = [
    "",
    "\n",
    "\r\n",
    "\n\n",
    "\r",
    "a",
    "a\n",
    "a\r\n",
    "a\r",
    "a\nb",
    "a\r\nb\r",
    "a\rb\n\nc",
    "  a b \t",
    "\u{a0}x\u{2003}",
    "\u{200b}x",
    "a\r\r\nb\n",
    "warning: a\nerror: warning: b",
    "\u{1f600}\n\u{e9}t\u{e9}",
];

#[test]
fn white_space_is_that_of_char() {
    let mut n: u32 = 0;
    while n <= 0x10ffff {
        if let Some(c) = char::from_u32(n) {
            assert_eq!(is_white_space(c), c.is_whitespace(), "U+{:X}", n);
        }
        n += 1;
    }
}

#[test]
fn lines_are_those_of_str() {
    for s in SAMPLES {
        let expected: Vec<String> = s.lines().map(|l| l.to_string()).collect();
        assert_eq!(split_lines(s), expected, "{:?}", s);
    }
}

#[test]
fn trimming_is_that_of_str() {
    for s in SAMPLES {
        assert_eq!(trim(s), s.trim(), "{:?}", s);
        assert_eq!(trim(&trim(s)), trim(s));
    }
}

#[test]
fn searching_is_that_of_str() {
    let needles = ["", "a", "\n", "a\n", "b", "warning:", "error:", "\u{e9}", "zzz"];
    for s in SAMPLES {
        for n in needles {
            assert_eq!(contains(s, n), s.contains(n), "{:?} in {:?}", n, s);
            assert_eq!(starts_with(s, n), s.starts_with(n), "{:?} in {:?}", n, s);
            assert_eq!(same_text(s, n), s == n);
            if !n.is_empty() {
                assert_eq!(count_matches(s, n), s.matches(n).count(), "{:?} in {:?}", n, s);
            }
        }
    }
}

#[test]
fn matches_do_not_overlap() {
    assert_eq!(count_matches("aaaaa", "aa"), 2);
    assert_eq!(count_matches("abababa", "aba"), 2);
    assert_eq!(count_matches("error:error: error :", "error:"), 2);
}

#[test]
fn joining_is_that_of_slices() {
    let parts = vec!["a".to_string(), "".to_string(), "\u{e9}".to_string()];
    assert_eq!(join(&parts, ", "), parts.join(", "));
    assert_eq!(join(&vec![], ", "), "");
    assert_eq!(join(&vec!["x".to_string()], ", "), "x");
}

#[test]
fn lines_undo_joining() {
    let parts = vec!["fn a() {".to_string(), "".to_string(), "}".to_string()];
    assert_eq!(split_lines(&join(&parts, "\n")), parts);
}

#[test]
fn characters_and_back() {
    let chars = chars_of("h\u{e9}\u{1f600}!");
    assert_eq!(chars, vec!['h', '\u{e9}', '\u{1f600}', '!']);
    assert_eq!(text_of(&chars, 1, 3), "\u{e9}\u{1f600}");
    assert_eq!(text_of(&chars, 2, 2), "");
}

#[test]
fn decimals_are_those_of_to_string() {
    let numbers: [u128; 9] = [
        0,
        1,
        9,
        10,
        19,
        100,
        4294967295,
        18446744073709551615,
        340282366920938463463374607431768211455,
    ];
    for n in numbers {
        assert_eq!(decimal(n), n.to_string());
    }
    let signed: [i64; 6] = [0, -1, 7, -10, i64::MIN, i64::MAX];
    for n in signed {
        assert_eq!(signed_decimal(n), n.to_string());
    }
}

#[test]
fn numbers_are_those_of_parse() {
    let samples = [
        "", "0", "7", "007", "42", "+5", "-1", "-0", "4294967295", "4294967296", "99999999999999",
        " 1", "1 ", "1a", "+", "\u{661}", "12345678901234567890123",
    ];
    for s in samples {
        assert_eq!(parse_u32(s), s.parse::<u32>().ok(), "{:?}", s);
    }
}

#[test]
fn decimals_read_back() {
    let numbers: [u32; 5] = [0, 3, 10, 65536, u32::MAX];
    for n in numbers {
        assert_eq!(parse_u32(&decimal(n as u128)), Some(n));
    }
}
