use workspace_manager::text::{
    chars_contain, chars_end_with, chars_eq, chars_eq_ignore_ascii_case, chars_hold_at,
    chars_index_of, chars_last_piece, chars_lines, chars_parse_u64, chars_range, chars_replace,
    chars_split, chars_start_with, chars_to_string, join2, join3, join4, join5, str_chars, str_eq,
    trim_chars, trim_end_in, trim_in, trim_start_in, trim_start_matching, u64_to_chars, CharClass,
};

/// Every string over `alphabet` of at most `max_len` characters.
fn strings(alphabet: &[char], max_len: usize) -> Vec<String> {
    let mut all = vec![String::new()];
    let mut last = vec![String::new()];
    for _ in 0..max_len {
        let mut next = Vec::new();
        for s in &last {
            for c in alphabet {
                let mut t = s.clone();
                t.push(*c);
                next.push(t);
            }
        }
        all.extend(next.iter().cloned());
        last = next;
    }
    all
}

fn text(v: &Vec<char>) -> String {
    chars_to_string(v)
}

#[test]
fn characters_go_in_and_out_of_strings() {
    for s in ["", "abc", "中文 x", "\u{1F600}\n"] {
        let v = str_chars(s);
        assert_eq!(v, s.chars().collect::<Vec<char>>());
        assert_eq!(chars_to_string(&v), s);
    }
    assert!(str_eq("abc", "abc"));
    assert!(!str_eq("abc", "abd"));
    assert!(!str_eq("abc", "ab"));
    assert!(chars_eq(&str_chars(""), &str_chars("")));
    assert_eq!(text(&chars_range(&str_chars("hello"), 1, 4)), "ell");
    assert_eq!(text(&chars_range(&str_chars("hello"), 2, 2)), "");
    assert_eq!(join2("a", "b"), "ab");
    assert_eq!(join3("a", "", "c"), "ac");
    assert_eq!(join4("1", "2", "3", "4"), "1234");
    assert_eq!(join5("1", "2", "3", "4", "5"), "12345");
}

#[test]
fn trimming_agrees_with_the_standard_library() {
    for s in strings(&[' ', '\n', 'a', '\u{3000}', '\u{200b}'], 5) {
        let v = str_chars(&s);
        assert_eq!(text(&trim_chars(&v)), s.trim(), "{:?}", s);
        assert_eq!(text(&trim_start_in(&v, CharClass::Whitespace)), s.trim_start(), "{:?}", s);
        assert_eq!(text(&trim_end_in(&v, CharClass::Whitespace)), s.trim_end(), "{:?}", s);
        assert_eq!(text(&trim_in(&v, CharClass::One('a'))), s.trim_matches('a'), "{:?}", s);
        assert_eq!(
            text(&trim_start_in(&v, CharClass::Either(' ', 'a'))),
            s.trim_start_matches(|c| c == ' ' || c == 'a'),
            "{:?}",
            s
        );
    }
    for code in 0..0x3100u32 {
        if let Some(c) = char::from_u32(code) {
            assert_eq!(CharClass::Whitespace.contains(c), c.is_whitespace(), "{:x}", code);
        }
    }
}

#[test]
fn prefixes_are_stripped_as_often_as_they_stand() {
    for s in strings(&['a', 'b', 'c'], 6) {
        let v = str_chars(&s);
        for p in ["ab", "a", "aba", ""] {
            assert_eq!(
                text(&trim_start_matching(&v, &str_chars(p))),
                s.trim_start_matches(p),
                "{:?} {:?}",
                s,
                p
            );
        }
    }
}

#[test]
fn searching_agrees_with_the_standard_library() {
    for s in strings(&['a', 'b', '/'], 5) {
        let v = str_chars(&s);
        for p in ["", "a", "ab", "b/", "aba"] {
            let q = str_chars(p);
            assert_eq!(chars_contain(&v, &q), s.contains(p), "{:?} {:?}", s, p);
            assert_eq!(chars_start_with(&v, &q), s.starts_with(p), "{:?} {:?}", s, p);
            assert_eq!(chars_end_with(&v, &q), s.ends_with(p), "{:?} {:?}", s, p);
            for i in 0..=v.len() + 1 {
                let expected = i <= s.len() && s[i..].starts_with(p);
                assert_eq!(chars_hold_at(&v, &q, i), expected, "{:?} {:?} {}", s, p, i);
            }
        }
        assert_eq!(chars_index_of(&v, '/', 0), s.find('/').unwrap_or(s.len()));
        let pieces: Vec<String> = chars_split(&v, '/').iter().map(text).collect();
        assert_eq!(pieces, s.split('/').collect::<Vec<&str>>(), "{:?}", s);
        assert_eq!(text(&chars_last_piece(&v, CharClass::One('/'))), s.rsplit('/').next().unwrap());
        assert_eq!(text(&chars_replace(&v, '/', 'b')), s.replace('/', "b"));
    }
}

#[test]
fn lines_agree_with_the_standard_library() {
    for s in strings(&['a', '\n', '\r'], 6) {
        let lines: Vec<String> = chars_lines(&str_chars(&s)).iter().map(text).collect();
        assert_eq!(lines, s.lines().collect::<Vec<&str>>(), "{:?}", s);
    }
}

#[test]
fn numbers_are_read_as_the_standard_library_reads_them() {
    for s in strings(&['0', '1', '9', '+', '-', ' ', 'a'], 4) {
        assert_eq!(chars_parse_u64(&str_chars(&s)), s.parse::<u64>().ok(), "{:?}", s);
    }
    for s in [
        "18446744073709551615",
        "18446744073709551616",
        "18446744073709551620",
        "99999999999999999999",
        "+18446744073709551615",
        "000000000000000000000000018446744073709551615",
        "1844674407370955161",
        "٣",
        "1_000",
    ] {
        assert_eq!(chars_parse_u64(&str_chars(s)), s.parse::<u64>().ok(), "{:?}", s);
    }
}

#[test]
fn numbers_are_written_in_base_ten() {
    for n in [0u64, 1, 9, 10, 11, 99, 100, 101, 12345, u64::MAX / 10, u64::MAX - 1, u64::MAX] {
        assert_eq!(text(&u64_to_chars(n)), n.to_string());
    }
    for n in 0..2000u64 {
        assert_eq!(text(&u64_to_chars(n)), n.to_string());
    }
}

#[test]
fn case_of_ascii_letters_is_ignored_on_request() {
    for a in strings(&['h', 'H', 'é', 'É', 'i'], 3) {
        for b in strings(&['h', 'H', 'é', 'É', 'i'], 3) {
            assert_eq!(
                chars_eq_ignore_ascii_case(&str_chars(&a), &str_chars(&b)),
                a.eq_ignore_ascii_case(&b),
                "{:?} {:?}",
                a,
                b
            );
        }
    }
}
