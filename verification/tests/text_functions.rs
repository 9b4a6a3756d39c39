use codexcli::text::{
    chars_of, equal, find_text, is_word, push_decimal, split_lines, split_whitespace,
    starts_with, string_of, to_ascii_lower, to_lowercase, to_u16, trimmed, whitespace,
};

fn chars(s: &str) -> Vec<char> {
    s.chars().collect()
}

fn texts(pieces: Vec<Vec<char>>) -> Vec<String> {
    pieces.iter().map(|p| p.iter().collect::<String>()).collect()
}

const SAMPLES: [&str; 22] = [
    "",
    " ",
    "a",
    "  a  ",
    "\t\n x y \r\n",
    "start-server 9090",
    "create-react-app",
    "  npm   start  ",
    "one\ntwo\nthree",
    "one\r\ntwo\r\n",
    "tail\r",
    "\n",
    "\n\n",
    "\r\n\r\n",
    "a\r\r\nb",
    "no newline at end\n",
    "\u{a0}padded\u{3000}",
    "\u{2003}em\u{2003}space\u{2003}",
    "\u{85}next\u{2028}line\u{2029}",
    "\u{200b}zero width is no space\u{200b}",
    "\u{1680}ogham\u{205f}math\u{202f}narrow",
    "naïve café ☕ 日本語",
];

#[test]
fn chars_and_strings_convert_both_ways() {
    for s in SAMPLES {
        assert_eq!(chars_of(s), chars(s));
        assert_eq!(string_of(&chars(s)), s);
    }
}

#[test]
fn whitespace_is_the_unicode_property_for_every_character() {
    for code in 0..=0x10FFFFu32 {
        if let Some(c) = char::from_u32(code) {
            assert_eq!(whitespace(c), c.is_whitespace(), "U+{:04X}", code);
        }
    }
}

#[test]
fn ascii_lowering_agrees_for_every_character() {
    for code in 0..=0x10FFFFu32 {
        if let Some(c) = char::from_u32(code) {
            assert_eq!(to_ascii_lower(c), c.to_ascii_lowercase(), "U+{:04X}", code);
        }
    }
    assert_eq!(to_lowercase(&chars("PyThOn Ünï")), chars("python Ünï"));
}

#[test]
fn trimming_removes_whitespace_at_both_ends_only() {
    for s in SAMPLES {
        let c = chars(s);
        assert_eq!(trimmed(&c).iter().collect::<String>(), s.trim(), "{:?}", s);
    }
    assert_eq!(trimmed(&chars("  a b  ")), &chars("a b")[..]);
    assert_eq!(trimmed(&chars(" \t\n")), &chars("")[..]);
}

#[test]
fn words_are_the_runs_between_whitespace() {
    for s in SAMPLES {
        let expected: Vec<String> = s.split_whitespace().map(|w| w.to_string()).collect();
        assert_eq!(texts(split_whitespace(&chars(s))), expected, "{:?}", s);
    }
    assert_eq!(texts(split_whitespace(&chars(" a  bc d "))), vec!["a", "bc", "d"]);
    assert!(split_whitespace(&chars("   ")).is_empty());
}

#[test]
fn lines_end_at_line_feeds() {
    for s in SAMPLES {
        let expected: Vec<String> = s.lines().map(|l| l.to_string()).collect();
        assert_eq!(texts(split_lines(&chars(s))), expected, "{:?}", s);
    }
    assert_eq!(texts(split_lines(&chars("a\r\nb\n\nc\r"))), vec!["a", "b", "", "c\r"]);
    assert!(split_lines(&chars("")).is_empty());
    assert_eq!(texts(split_lines(&chars("\n"))), vec![""]);
}

#[test]
fn equality_and_prefixes() {
    assert!(equal(&chars("abc"), &chars("abc")));
    assert!(!equal(&chars("abc"), &chars("abd")));
    assert!(!equal(&chars("abc"), &chars("ab")));
    assert!(equal(&chars(""), &chars("")));
    assert!(is_word(&chars("npm start"), "npm start"));
    assert!(!is_word(&chars("npm start "), "npm start"));
    assert!(starts_with(&chars("start-server 1"), &chars("start-server")));
    assert!(starts_with(&chars("abc"), &chars("")));
    assert!(!starts_with(&chars("star"), &chars("start")));
    assert!(!starts_with(&chars("xstart"), &chars("start")));
}

#[test]
fn finding_gives_the_first_position_in_characters() {
    assert_eq!(find_text(&chars("abcabc"), &chars("bc")), Some(1));
    assert_eq!(find_text(&chars("abcabc"), &chars("cab")), Some(2));
    assert_eq!(find_text(&chars("abcabc"), &chars("abcabc")), Some(0));
    assert_eq!(find_text(&chars("abcabc"), &chars("abcabcd")), None);
    assert_eq!(find_text(&chars("abcabc"), &chars("x")), None);
    assert_eq!(find_text(&chars("abc"), &chars("")), Some(0));
    assert_eq!(find_text(&chars(""), &chars("")), Some(0));
    assert_eq!(find_text(&chars(""), &chars("a")), None);
    assert_eq!(find_text(&chars("aaab"), &chars("aab")), Some(1));
    assert_eq!(find_text(&chars("日本語 'x'"), &chars("'")), Some(4));
}

#[test]
fn every_port_number_reads_back_from_its_digits() {
    for n in 0..=u16::MAX {
        let mut digits = Vec::new();
        push_decimal(&mut digits, n);
        assert_eq!(digits.iter().collect::<String>(), n.to_string());
        assert_eq!(to_u16(&digits), Some(n));
    }
}

#[test]
fn decimal_digits_are_appended() {
    let mut out = chars("port ");
    push_decimal(&mut out, 8000);
    assert_eq!(out.iter().collect::<String>(), "port 8000");
    let mut zero = Vec::new();
    push_decimal(&mut zero, 0);
    assert_eq!(zero, vec!['0']);
}

#[test]
fn numbers_are_read_as_the_standard_library_reads_them() {
    let samples = [
        "", "+", "-", "0", "00", "+0", "-0", "7", "+7", "-7", "8000", "9090", "65535", "65536",
        "065535", "0000000000000000000065535", "0000000000000000000065536", "99999",
        "4294967296", "18446744073709551616", "12a", "a12", "1 2", " 12", "12 ", "1_000", "0x10",
        "++1", "+-1", "１２", "٣", "1.0", "1e3",
    ];
    for s in samples {
        assert_eq!(to_u16(&chars(s)), s.parse::<u16>().ok(), "{:?}", s);
    }
    assert_eq!(to_u16(&chars("9090")), Some(9090));
    assert_eq!(to_u16(&chars("65535")), Some(65535));
    assert_eq!(to_u16(&chars("65536")), None);
    assert_eq!(to_u16(&chars("+80")), Some(80));
    assert_eq!(to_u16(&chars("")), None);
    assert_eq!(to_u16(&chars("+")), None);
}
