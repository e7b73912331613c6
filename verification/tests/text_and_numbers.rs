use hyprproxlock::number::{read_bool, read_digits, read_i16, read_u64};
use hyprproxlock::text::{
    after_last_start, char_is_whitespace, chars_of, contains_pattern, find, find_in, spells,
    strip_bounds, strip_bounds_in, strip_end_in, strip_end_len, strip_start_len,
};

fn chars(s: &str) -> Vec<char> {
    s.chars().collect()
}

fn text(s: &[char]) -> String {
    s.iter().collect()
}

const SAMPLES: [&str; 16] = [
    "",
    " ",
    "a",
    "  a b  ",
    "\t\r\n x \u{b}\u{c}",
    "\u{a0}x\u{3000}",
    "\u{85}\u{1680}\u{2000}\u{200a}\u{2028}\u{2029}\u{202f}\u{205f}y",
    "\u{200b}z\u{200b}",
    "\"\"q\"\"",
    "\"",
    "a\"b",
    "key = value",
    "a:b:c",
    "::",
    "{{",
    "x{ {",
];

#[test]
fn chars_of_gives_the_characters_in_order() {
    for s in SAMPLES {
        assert_eq!(chars_of(s), chars(s));
    }
    assert_eq!(chars_of("h\u{e9}\u{1F600}!"), vec!['h', '\u{e9}', '\u{1F600}', '!']);
}

#[test]
fn white_space_is_what_std_calls_white_space() {
    for n in 0..0x11_0000u32 {
        if let Some(c) = char::from_u32(n) {
            assert_eq!(char_is_whitespace(c), c.is_whitespace(), "{:x}", n);
        }
    }
}

#[test]
fn trimming_agrees_with_std() {
    for s in SAMPLES {
        let v = chars(s);
        let (lo, hi) = strip_bounds(&v, None);
        assert_eq!(text(&v[lo..hi]), s.trim(), "{:?}", s);
        let n = strip_start_len(&v, None);
        assert_eq!(text(&v[n..]), s.trim_start(), "{:?}", s);
        let m = strip_end_len(&v, None);
        assert_eq!(text(&v[..m]), s.trim_end(), "{:?}", s);
    }
}

#[test]
fn stripping_a_character_agrees_with_std() {
    for s in SAMPLES {
        let v = chars(s);
        for c in ['"', '{', ':', 'a'] {
            let (lo, hi) = strip_bounds(&v, Some(c));
            assert_eq!(text(&v[lo..hi]), s.trim_matches(c), "{:?}", s);
            let m = strip_end_len(&v, Some(c));
            assert_eq!(text(&v[..m]), s.trim_end_matches(c), "{:?}", s);
        }
    }
}

#[test]
fn stripping_inside_a_range() {
    let v = chars("ab  cd  ef");
    assert_eq!(strip_bounds_in(&v, 2, 8, None), (4, 6));
    assert_eq!(strip_bounds_in(&v, 2, 4, None), (4, 4));
    assert_eq!(strip_bounds_in(&v, 0, 10, None), (0, 10));
    assert_eq!(strip_end_in(&v, 2, 8, None), 6);
    assert_eq!(strip_end_in(&v, 0, 4, None), 2);
    assert_eq!(strip_end_in(&v, 0, 6, Some('d')), 5);
    assert_eq!(strip_bounds_in(&v, 4, 6, Some('c')), (5, 6));
}

#[test]
fn find_gives_the_first_index_or_the_length() {
    for s in SAMPLES {
        let v = chars(s);
        for c in ['=', ':', ' ', 'a', '\n'] {
            let expected = v.iter().position(|x| *x == c).unwrap_or(v.len());
            assert_eq!(find(&v, c), expected, "{:?}", s);
        }
    }
    let v = chars("a=b=c");
    assert_eq!(find_in(&v, 0, 5, '='), 1);
    assert_eq!(find_in(&v, 2, 5, '='), 3);
    assert_eq!(find_in(&v, 4, 5, '='), 5);
    assert_eq!(find_in(&v, 2, 3, '='), 3);
    assert_eq!(find_in(&v, 2, 2, '='), 2);
}

#[test]
fn after_last_agrees_with_std_split() {
    for s in SAMPLES {
        let v = chars(s);
        let from = after_last_start(&v, ':');
        assert_eq!(text(&v[from..]), s.split(':').next_back().unwrap(), "{:?}", s);
    }
}

#[test]
fn contains_agrees_with_std() {
    let patterns = ["", "a", "a b", "::", ":", "value", " = ", "x{ {", "key = value!"];
    for s in SAMPLES {
        for p in patterns {
            assert_eq!(contains_pattern(&chars(s), &chars(p)), s.contains(p), "{:?} {:?}", s, p);
        }
    }
}

#[test]
fn spells_compares_the_whole_word() {
    assert!(spells(&chars("device"), "device"));
    assert!(!spells(&chars("devices"), "device"));
    assert!(!spells(&chars("devic"), "device"));
    assert!(!spells(&chars("Device"), "device"));
    assert!(spells(&chars(""), ""));
    assert!(!spells(&chars(" "), ""));
    assert!(spells(&chars("\u{e9}t\u{e9}"), "\u{e9}t\u{e9}"));
}

const NUMBERS: [&str; 34] = [
    "", "0", "7", "-7", "+7", "007", "-007", "+007", "-0", "+0", "+", "-", "--1", "++1", "+-1",
    "-+1", " 1", "1 ", "1a", "a1", "1.0", "1e3", "0x1", "32767", "32768", "-32768", "-32769",
    "65535", "18446744073709551615", "18446744073709551616", "99999999999999999999999",
    "000000000000000000000000000000000000001", "\u{661}", "1_000",
];

#[test]
fn i16_agrees_with_std() {
    for s in NUMBERS {
        assert_eq!(read_i16(&chars(s)), s.parse::<i16>().ok(), "{:?}", s);
    }
    for n in [i16::MIN, -1000, -255, -1, 0, 1, 99, i16::MAX] {
        assert_eq!(read_i16(&chars(&format!("{}", n))), Some(n));
    }
}

#[test]
fn u64_agrees_with_std() {
    for s in NUMBERS {
        assert_eq!(read_u64(&chars(s)), s.parse::<u64>().ok(), "{:?}", s);
    }
    for n in [0u64, 1, 10, 4294967296, u64::MAX - 1, u64::MAX] {
        assert_eq!(read_u64(&chars(&format!("{}", n))), Some(n));
    }
}

#[test]
fn digits_up_to_a_limit() {
    assert_eq!(read_digits(&chars("100"), 100), Some(100));
    assert_eq!(read_digits(&chars("101"), 100), None);
    assert_eq!(read_digits(&chars("0000100"), 100), Some(100));
    assert_eq!(read_digits(&chars(""), 100), None);
    assert_eq!(read_digits(&chars("+1"), 100), None);
    assert_eq!(read_digits(&chars("0"), 0), Some(0));
    assert_eq!(read_digits(&chars("1"), 0), None);
    assert_eq!(read_digits(&chars("1000x"), 100), None);
}

#[test]
fn bool_agrees_with_std() {
    for s in ["true", "false", "", "True", "FALSE", "true ", " false", "1", "0", "yes", "truefalse"] {
        assert_eq!(read_bool(&chars(s)), s.parse::<bool>().ok(), "{:?}", s);
    }
}
