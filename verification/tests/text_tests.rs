use third_party_notices::text::{
    chars_to_string, find, replace_all, str_to_chars, strip_token_ws, trim, u16_to_chars,
};

fn s(text: &str) -> Vec<char> {
    str_to_chars(text)
}

#[test]
fn replace_all_basics() {
    let r = replace_all(&s("a<year>b<year>c"), &s("<year>"), &s("2021"));
    assert_eq!(chars_to_string(&r), "a2021b2021c");
    let none = replace_all(&s("abc"), &s("x"), &s("y"));
    assert_eq!(chars_to_string(&none), "abc");
    let empty_pat = replace_all(&s("abc"), &s(""), &s("y"));
    assert_eq!(chars_to_string(&empty_pat), "abc");
}

#[test]
fn replace_all_scans_left_to_right_without_rescanning() {
    let r = replace_all(&s("aaa"), &s("aa"), &s("b"));
    assert_eq!(chars_to_string(&r), "ba");
}

#[test]
fn strip_token_removes_trailing_whitespace_run() {
    let r = strip_token_ws(&s("Copyright (c) <year> Acme"), &s("<year>"));
    assert_eq!(chars_to_string(&r), "Copyright (c) Acme");
    let r2 = strip_token_ws(&s("<year>\n\t end"), &s("<year>"));
    assert_eq!(chars_to_string(&r2), "end");
    let r3 = strip_token_ws(&s("a<year><year>b"), &s("<year>"));
    assert_eq!(chars_to_string(&r3), "ab");
}

#[test]
fn trim_removes_surrounding_whitespace() {
    assert_eq!(chars_to_string(&trim(&s("  hello \n"))), "hello");
    assert_eq!(chars_to_string(&trim(&s(""))), "");
    assert_eq!(chars_to_string(&trim(&s("   "))), "");
    assert_eq!(chars_to_string(&trim(&s("a b"))), "a b");
}

#[test]
fn find_first_occurrence() {
    assert_eq!(find(&s("abcabc"), &s("bc")), Some(1));
    assert_eq!(find(&s("abc"), &s("zz")), None);
    assert_eq!(find(&s("abc"), &s("")), Some(0));
}

#[test]
fn decimal_formatting() {
    for (n, expected) in
        [(0u16, "0"), (7, "7"), (42, "42"), (999, "999"), (2023, "2023"), (65535, "65535")]
    {
        assert_eq!(chars_to_string(&u16_to_chars(n)), expected);
    }
}
