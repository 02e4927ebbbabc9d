use fuzgit::text::{
    byte_length, comes_before, concat2, concat3, concat4, concat5, contains_text, decimal_text,
    insert_in_order, join_texts, lines, long_decimal_text, parse_number, same_path, same_text,
    split_chars, strip_prefix, trim, trim_end, white_space,
};

fn owned(parts: &[&str]) -> Vec<String> {
    parts.iter().map(|part| (*part).to_owned()).collect()
}

fn text(chars: Vec<char>) -> String {
    chars.into_iter().collect()
}

#[test]
fn parts_are_put_together_in_order() {
    assert_eq!(concat2("a", "b"), "ab");
    assert_eq!(concat3("a", "", "c"), "ac");
    assert_eq!(concat4("a", "b", "c", "d"), "abcd");
    assert_eq!(concat5("日", "本", "語", "", "!"), "日本語!");
}

#[test]
fn a_separator_stands_between_parts_only() {
    assert_eq!(join_texts(&owned(&[]), ", "), "");
    assert_eq!(join_texts(&owned(&["a"]), ", "), "a");
    assert_eq!(join_texts(&owned(&["a", "", "c"]), ", "), "a, , c");
}

#[test]
fn numbers_are_written_without_leading_zeros() {
    assert_eq!(decimal_text(0), "0");
    assert_eq!(decimal_text(1000), "1000");
    assert_eq!(decimal_text(usize::MAX), format!("{}", usize::MAX));
    assert_eq!(long_decimal_text(u64::MAX), "18446744073709551615");
}

#[test]
fn numbers_are_read_as_the_standard_library_reads_them() {
    let largest = format!("{}", usize::MAX);
    let beyond = format!("{largest}0");
    for text in [
        "0", "007", "+5", "+", "", "-1", " 1", "1 ", "1_000", "１", "42", &largest, &beyond,
    ] {
        assert_eq!(parse_number(text), text.parse::<usize>().ok(), "{text:?}");
    }
}

#[test]
fn lengths_are_counted_in_bytes() {
    assert_eq!(byte_length(""), 0);
    assert_eq!(byte_length("abc"), 3);
    assert_eq!(byte_length("日本"), 6);
}

#[test]
fn texts_are_compared_by_their_characters() {
    assert!(same_text("日本", "日本"));
    assert!(!same_text("日本", "日"));
    assert!(contains_text(&owned(&["a", "b"]), "b"));
    assert!(!contains_text(&owned(&["a", "b"]), "ab"));
}

#[test]
fn a_prefix_is_taken_off_once() {
    assert_eq!(strip_prefix("refs/heads/main", "refs/heads/"), Some("main".to_owned()));
    assert_eq!(strip_prefix("refs/tags/v1", "refs/heads/"), None);
    assert_eq!(strip_prefix("aab", "a"), Some("ab".to_owned()));
    assert_eq!(strip_prefix("a", ""), Some("a".to_owned()));
}

#[test]
fn white_space_is_taken_off_at_the_ends() {
    assert_eq!(text(trim(" \t a b \u{3000}\n")), "a b");
    assert_eq!(text(trim_end(" a \r\n")), " a");
    assert_eq!(text(trim("   ")), "");
    for code in 0..=0x3100u32 {
        if let Some(c) = char::from_u32(code) {
            assert_eq!(white_space(c), c.is_whitespace(), "{c:?}");
        }
    }
}

#[test]
fn texts_are_ordered_by_their_characters() {
    assert!(comes_before("origin", "upstream"));
    assert!(comes_before("a", "ab"));
    assert!(!comes_before("b", "ab"));
    assert!(!comes_before("a", "a"));

    let mut items = Vec::new();
    for item in ["upstream", "origin", "日本", "upstream", "fork"] {
        insert_in_order(&mut items, item);
    }
    assert_eq!(items, ["fork", "origin", "upstream", "日本"]);
}

#[test]
fn lines_are_those_of_the_standard_library() {
    for sample in ["", "\n", "a", "a\n", "a\r\nb", "\r", "a\n\nb\n", "a\r\r\n"] {
        let found: Vec<String> = lines(sample).into_iter().map(text).collect();
        assert_eq!(found, sample.lines().collect::<Vec<_>>(), "{sample:?}");
    }
}

#[test]
fn pieces_stand_between_the_separators() {
    let chars: Vec<char> = "a\t\tb".chars().collect();
    let pieces: Vec<String> = split_chars(&chars, '\t').into_iter().map(text).collect();

    assert_eq!(pieces, ["a", "", "b"]);
    assert_eq!(split_chars(&[], '\t'), [Vec::<char>::new()]);
}

#[test]
fn paths_are_compared_part_by_part() {
    for (a, b) in [
        ("/repos/alpha", "/repos/alpha/"),
        ("/repos//alpha", "/repos/alpha"),
        ("/repos/./alpha", "/repos/alpha"),
        ("./alpha", "alpha"),
        ("/repos/alpha", "repos/alpha"),
        ("/repos/alpha", "/repos/alp"),
        ("..", "."),
        ("a/..", "."),
        ("", "."),
        ("/", "//"),
        ("/.", "/"),
    ] {
        assert_eq!(
            same_path(a, b),
            std::path::Path::new(a) == std::path::Path::new(b),
            "{a:?} and {b:?}"
        );
    }
}
