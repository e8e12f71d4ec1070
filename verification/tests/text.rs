use devtunnel::text::{same_text, str_is};
use devtunnel::text::{
    char_is_whitespace, chars_of, decimal_string, decimal_text, join_range, push_decimal, slice_contains,
    slice_find_char, slice_occurs_at, slice_parse_i64, slice_parse_u16, slice_starts_with,
    split_lines, split_whitespace, string_of, trim_slice, trimmed,
};

fn c(text: &str) -> Vec<char> {
    text.chars().collect()
}

fn texts(slices: Vec<&[char]>) -> Vec<String> {
    slices.into_iter().map(|s| s.iter().collect()).collect()
}

#[test]
fn chars_and_strings_round_trip() {
    assert_eq!(chars_of("héllo\n"), c("héllo\n"));
    assert_eq!(chars_of(""), c(""));
    assert_eq!(string_of(&c("héllo")), "héllo");
    assert_eq!(string_of(&c("")), "");
}

#[test]
fn whitespace_is_what_std_calls_whitespace() {
    for n in 0u32..0x3100 {
        if let Some(ch) = char::from_u32(n) {
            assert_eq!(char_is_whitespace(ch), ch.is_whitespace(), "U+{:04X}", n);
        }
    }
    assert!(!char_is_whitespace('\u{FEFF}'));
    assert!(!char_is_whitespace('\u{200B}'));
}

#[test]
fn trim_is_what_std_trims() {
    for text in ["", " ", "a", "  a b \t\r\n", "\u{3000}x\u{A0}", " \n ", "x  ", "  x"] {
        assert_eq!(trimmed(text), text.trim());
        let chars = c(text);
        let t: String = trim_slice(&chars).iter().collect();
        assert_eq!(t, text.trim());
    }
}

#[test]
fn lines_are_what_std_calls_lines() {
    for text in [
        "",
        "\n",
        "a",
        "a\n",
        "a\nb",
        "a\r\nb\r\n",
        "a\rb\n",
        "foo\nbar\n\r\nbaz\r",
        "\n\n",
        "\r\n",
        "\r",
        "x\r\r\ny",
    ] {
        let chars = c(text);
        let expected: Vec<String> = text.lines().map(|l| l.to_string()).collect();
        assert_eq!(texts(split_lines(&chars)), expected, "{:?}", text);
    }
}

#[test]
fn tokens_are_what_std_splits_at_whitespace() {
    for text in ["", "  ", "a", " a  b\tc\n", "one", "\u{2003}x\u{2003}y z"] {
        let chars = c(text);
        let expected: Vec<String> = text.split_whitespace().map(|l| l.to_string()).collect();
        assert_eq!(texts(split_whitespace(&chars)), expected, "{:?}", text);
    }
}

#[test]
fn searching() {
    let hay = c("hello world");
    assert!(slice_starts_with(&hay, &c("hello")));
    assert!(slice_starts_with(&hay, &c("")));
    assert!(!slice_starts_with(&hay, &c("world")));
    assert!(!slice_starts_with(&c("he"), &c("hello")));
    assert!(slice_contains(&hay, &c("o w")));
    assert!(slice_contains(&hay, &c("")));
    assert!(slice_contains(&hay, &c("world")));
    assert!(slice_contains(&c(""), &c("")));
    assert!(!slice_contains(&hay, &c("worlds")));
    assert!(!slice_contains(&c(""), &c("a")));
    assert!(slice_occurs_at(&hay, &c("world"), 6));
    assert!(!slice_occurs_at(&hay, &c("world"), 7));
    assert!(!slice_occurs_at(&hay, &c("x"), 99));
    assert!(slice_occurs_at(&hay, &c(""), 11));
    assert_eq!(slice_find_char(&hay, 'o'), 4);
    assert_eq!(slice_find_char(&hay, 'h'), 0);
    assert_eq!(slice_find_char(&hay, 'z'), 11);
    assert!(same_text(&c("ab"), &c("ab")));
    assert!(!same_text(&c("ab"), &c("abc")));
    assert!(!same_text(&c("ab"), &c("ac")));
    assert!(str_is("days", "days"));
    assert!(!str_is("day", "days"));
}

#[test]
fn u16_is_parsed_as_std_parses_it() {
    for text in [
        "0", "1", "000", "007", "+5", "-5", "-0", "+", "-", "", "65535", "65536", "99999",
        "0065535", "1_0", " 1", "1 ", "１", "12a", "+-1", "++1",
        "18446744073709551616", "340282366920938463463374607431768211456",
    ] {
        assert_eq!(slice_parse_u16(&c(text)), text.parse::<u16>().ok(), "{:?}", text);
    }
}

#[test]
fn i64_is_parsed_as_std_parses_it() {
    for text in [
        "0", "30", "-30", "+30", "-0", "+", "-", "", "9223372036854775807",
        "9223372036854775808", "-9223372036854775808", "-9223372036854775809",
        "99999999999999999999999999", "-99999999999999999999999999", "1.5", "a", "--1", "1-",
        "0009223372036854775807",
    ] {
        assert_eq!(slice_parse_i64(&c(text)), text.parse::<i64>().ok(), "{:?}", text);
    }
}

#[test]
fn decimal_is_what_to_string_writes() {
    for n in [0u64, 1, 9, 10, 11, 99, 100, 8080, 65535, 1_000_000, u64::MAX, u64::MAX - 1] {
        assert_eq!(decimal_string(n), n.to_string());
    }
    let mut s = "port ".to_string();
    push_decimal(&mut s, 3000);
    assert_eq!(s, "port 3000");
    for n in [0u128, 9, 10, u64::MAX as u128, u64::MAX as u128 + 1, u128::MAX] {
        assert_eq!(decimal_text(n), n.to_string());
    }
}

#[test]
fn joining_a_range() {
    let a = c("a");
    let b = c("bb");
    let d = c("");
    let parts: Vec<&[char]> = vec![&a, &b, &d, &a];
    assert_eq!(join_range(&parts, 0, 4, ' '), "a bb  a");
    assert_eq!(join_range(&parts, 1, 2, ' '), "bb");
    assert_eq!(join_range(&parts, 1, 3, '-'), "bb-");
    assert_eq!(join_range(&parts, 2, 2, ' '), "");
}

fn all_texts(alphabet: &[char], max_len: usize) -> Vec<String> {
    let mut all = vec![String::new()];
    let mut last = vec![String::new()];
    for _ in 0..max_len {
        let mut next = Vec::new();
        for text in &last {
            for ch in alphabet {
                let mut longer = text.clone();
                longer.push(*ch);
                next.push(longer);
            }
        }
        all.extend(next.iter().cloned());
        last = next;
    }
    all
}

#[test]
fn lines_tokens_and_trim_agree_with_std_on_all_short_texts() {
    for text in all_texts(&['a', ' ', '\n', '\r', '\t', 'b'], 6) {
        let chars = c(&text);
        let expected: Vec<String> = text.lines().map(|l| l.to_string()).collect();
        assert_eq!(texts(split_lines(&chars)), expected, "{:?}", text);
        let expected: Vec<String> = text.split_whitespace().map(|l| l.to_string()).collect();
        assert_eq!(texts(split_whitespace(&chars)), expected, "{:?}", text);
        assert_eq!(trimmed(&text), text.trim(), "{:?}", text);
    }
}

#[test]
fn numbers_agree_with_std_on_all_short_texts() {
    for text in all_texts(&['0', '6', '5', '9', '+', '-', ' '], 6) {
        let chars = c(&text);
        assert_eq!(slice_parse_u16(&chars), text.parse::<u16>().ok(), "{:?}", text);
        assert_eq!(slice_parse_i64(&chars), text.parse::<i64>().ok(), "{:?}", text);
    }
}

#[test]
fn searching_agrees_with_std_on_all_short_texts() {
    let needles = all_texts(&['a', 'b'], 3);
    for text in all_texts(&['a', 'b', ':'], 6) {
        let chars = c(&text);
        for needle in &needles {
            let n = c(needle);
            assert_eq!(slice_contains(&chars, &n), text.contains(needle.as_str()));
            assert_eq!(slice_starts_with(&chars, &n), text.starts_with(needle.as_str()));
        }
        assert_eq!(slice_find_char(&chars, ':'), text.find(':').unwrap_or(text.len()));
    }
}

#[test]
fn decimal_agrees_with_std_on_many_numbers() {
    for n in 0u64..70000 {
        assert_eq!(decimal_string(n), n.to_string());
    }
    let mut n: u64 = 1;
    for _ in 0..64 {
        assert_eq!(decimal_string(n), n.to_string());
        assert_eq!(decimal_string(n - 1), (n - 1).to_string());
        n = n.wrapping_mul(2);
        if n == 0 {
            break;
        }
    }
}
