use newsletter::text::{chars_of, decimal_of, join_lines, push_decimal, replace_all};

#[test]
fn replace_all_replaces_every_occurrence() {
    assert_eq!(replace_all("a{X}b{X}", "{X}", "12"), "a12b12");
}

#[test]
fn replace_all_without_occurrence_changes_nothing() {
    assert_eq!(replace_all("<p>nothing here</p>", "{PLACE:ELEMENT}", "x"), "<p>nothing here</p>");
}

#[test]
fn replace_all_goes_left_to_right_without_overlap() {
    assert_eq!(replace_all("aaa", "aa", "b"), "ba");
    assert_eq!(replace_all("aaaa", "aa", "b"), "bb");
    assert_eq!(replace_all("ababa", "aba", "-"), "-ba");
}

#[test]
fn replace_all_does_not_search_the_replacement() {
    assert_eq!(replace_all("x", "x", "xx"), "xx");
    assert_eq!(replace_all("ab", "a", "ab"), "abb");
}

#[test]
fn replace_all_with_empty_token_puts_the_value_at_every_boundary() {
    assert_eq!(replace_all("ab", "", "-"), "-a-b-");
    assert_eq!(replace_all("", "", "x"), "x");
}

#[test]
fn replace_all_on_empty_text() {
    assert_eq!(replace_all("", "{X}", "value"), "");
}

#[test]
fn replace_all_with_token_longer_than_text() {
    assert_eq!(replace_all("ab", "abc", "x"), "ab");
}

#[test]
fn replace_all_at_both_ends() {
    assert_eq!(replace_all("{X}mid{X}", "{X}", ""), "mid");
}

#[test]
fn replace_all_keeps_characters_outside_ascii() {
    assert_eq!(replace_all("grüße {N} — ok", "{N}", "wörld ✓"), "grüße wörld ✓ — ok");
    assert_eq!(replace_all("äöü", "ö", "o"), "äoü");
}

#[test]
fn replace_all_agrees_with_str_replace() {
    let texts = ["", "a", "abcabc", "{PLACE:URL}{PLACE:URL}", "xx{y}xx", "ééé", "a\nb\nc"];
    let tokens = ["", "a", "bc", "{PLACE:URL}", "x", "é", "\n", "zzz"];
    let values = ["", "Q", "{PLACE:URL}", "ab"];
    for text in texts {
        for token in tokens {
            for value in values {
                assert_eq!(replace_all(text, token, value), text.replace(token, value));
            }
        }
    }
}

#[test]
fn chars_of_lists_the_characters_in_order() {
    assert_eq!(chars_of("héllo"), vec!['h', 'é', 'l', 'l', 'o']);
    assert_eq!(chars_of(""), Vec::<char>::new());
}

#[test]
fn decimal_of_zero() {
    assert_eq!(decimal_of(0), "0");
}

#[test]
fn decimal_of_positive_numbers() {
    assert_eq!(decimal_of(7), "7");
    assert_eq!(decimal_of(10), "10");
    assert_eq!(decimal_of(1203), "1203");
    assert_eq!(decimal_of(i16::MAX), "32767");
}

#[test]
fn decimal_of_negative_numbers() {
    assert_eq!(decimal_of(-1), "-1");
    assert_eq!(decimal_of(-250), "-250");
    assert_eq!(decimal_of(i16::MIN), "-32768");
}

#[test]
fn decimal_of_agrees_with_to_string() {
    let mut n = i16::MIN;
    loop {
        assert_eq!(decimal_of(n), n.to_string());
        if n == i16::MAX {
            break;
        }
        n += 1;
    }
}

#[test]
fn push_decimal_appends_the_numeral() {
    let mut out = String::from("id=");
    push_decimal(&mut out, 8863);
    assert_eq!(out, "id=8863");
    push_decimal(&mut out, 0);
    assert_eq!(out, "id=88630");
}

#[test]
fn push_decimal_of_the_largest_number() {
    let mut out = String::new();
    push_decimal(&mut out, u32::MAX);
    assert_eq!(out, "4294967295");
}

#[test]
fn push_decimal_agrees_with_to_string() {
    for n in [0u32, 9, 10, 99, 100, 101, 1000, 65535, 65536, 999_999_999, 1_000_000_000] {
        let mut out = String::new();
        push_decimal(&mut out, n);
        assert_eq!(out, n.to_string());
    }
}

#[test]
fn join_lines_puts_a_line_feed_between_neighbours() {
    let lines = vec![String::from("a"), String::from("b"), String::from("c")];
    assert_eq!(join_lines(&lines), "a\nb\nc");
}

#[test]
fn join_lines_of_one_line_is_the_line() {
    assert_eq!(join_lines(&vec![String::from("only")]), "only");
}

#[test]
fn join_lines_of_no_line_is_empty() {
    assert_eq!(join_lines(&Vec::new()), "");
}

#[test]
fn join_lines_keeps_empty_lines() {
    let lines = vec![String::new(), String::from("x"), String::new()];
    assert_eq!(join_lines(&lines), "\nx\n");
    assert_eq!(join_lines(&lines), lines.join("\n"));
}
