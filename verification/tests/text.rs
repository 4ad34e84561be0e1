use mdeno::text::{
    chars_of, contains, ends_with, find_char, matches_at, push_all, push_str, replace,
    replace_all, rfind_char, same_str, same_text, slice_of, starts_with, string_of, trimmed_end,
    trimmed_start,
};

fn chars(s: &str) -> Vec<char> {
    s.chars().collect()
}

fn text(v: Vec<char>) -> String {
    v.into_iter().collect()
}

#[test]
fn strings_and_characters() {
    assert_eq!(chars_of("héllo"), chars("héllo"));
    assert_eq!(chars_of(""), Vec::<char>::new());
    assert_eq!(string_of(&chars("héllo")), "héllo");
    assert!(same_str("a", "a"));
    assert!(!same_str("a", "b"));
    assert!(!same_str("a", "ab"));
    assert!(same_text(&chars(""), &chars("")));
}

#[test]
fn prefixes_suffixes_and_occurrences() {
    let s = chars("hello world");
    assert!(starts_with(&s, &chars("hello")));
    assert!(starts_with(&s, &chars("")));
    assert!(!starts_with(&s, &chars("world")));
    assert!(!starts_with(&chars("he"), &chars("hello")));
    assert!(ends_with(&s, &chars("world")));
    assert!(ends_with(&s, &chars("")));
    assert!(!ends_with(&s, &chars("hello")));
    assert!(matches_at(&s, &chars("o w"), 4));
    assert!(!matches_at(&s, &chars("o w"), 5));
    assert!(!matches_at(&s, &chars("d!"), 10));
    assert!(matches_at(&s, &chars(""), 11));
    assert!(!matches_at(&s, &chars(""), 12));
    assert!(contains(&s, &chars("lo wo")));
    assert!(contains(&s, &chars("")));
    assert!(contains(&s, &chars("d")));
    assert!(!contains(&s, &chars("worlds")));
    assert!(contains(&chars(""), &chars("")));
    assert!(!contains(&chars(""), &chars("a")));
}

#[test]
fn finding_characters() {
    let s = chars("a/b/c");
    assert_eq!(find_char(&s, '/'), Some(1));
    assert_eq!(rfind_char(&s, '/'), Some(3));
    assert_eq!(find_char(&s, 'x'), None);
    assert_eq!(rfind_char(&s, 'x'), None);
    assert_eq!(find_char(&chars(""), '/'), None);
    assert_eq!(rfind_char(&s, 'a'), Some(0));
}

#[test]
fn slices_and_appends() {
    let s = chars("abcdef");
    assert_eq!(text(slice_of(&s, 1, 4)), "bcd");
    assert_eq!(text(slice_of(&s, 3, 3)), "");
    let mut out = chars("x");
    push_all(&mut out, &chars("yz"));
    push_str(&mut out, "!");
    assert_eq!(text(out), "xyz!");
}

#[test]
fn replacing() {
    assert_eq!(text(replace(&chars(r"a\b\c"), '\\', '/')), "a/b/c");
    assert_eq!(text(replace_all(&chars("aaa"), &chars("aa"), &chars("b"))), "ba");
    assert_eq!(text(replace_all(&chars("a.ts\" b.ts\""), &chars(".ts\""), &chars(".js\""))), "a.js\" b.js\"");
    assert_eq!(text(replace_all(&chars("abc"), &chars(""), &chars("x"))), "abc");
    assert_eq!(text(replace_all(&chars("abc"), &chars("abcd"), &chars("x"))), "abc");
    assert_eq!(text(replace_all(&chars("abc"), &chars("c"), &chars(""))), "ab");
    assert_eq!(text(replace_all(&chars("xabab"), &chars("ab"), &chars("abab"))), "xabababab");
}

#[test]
fn trimming() {
    assert_eq!(text(trimmed_start(&chars("././a"), &chars("./"))), "a");
    assert_eq!(text(trimmed_start(&chars("a./"), &chars("./"))), "a./");
    assert_eq!(text(trimmed_start(&chars("./"), &chars("./"))), "");
    assert_eq!(text(trimmed_start(&chars("abc"), &chars(""))), "abc");
    assert_eq!(text(trimmed_end(&chars("a.ts.ts"), &chars(".ts"))), "a");
    assert_eq!(text(trimmed_end(&chars(".tsa"), &chars(".ts"))), ".tsa");
    assert_eq!(text(trimmed_end(&chars("abc"), &chars(""))), "abc");
}
