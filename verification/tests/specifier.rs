use mdeno::specifier::{
    check_relative, check_remote, check_typescript, classify, extension_stripped, file_url,
    join_with, joined, normalized, package_target, parent_of, relative_target, split_at_each,
    SpecifierKind,
};

fn chars(s: &str) -> Vec<char> {
    s.chars().collect()
}

fn text(v: Vec<char>) -> String {
    v.into_iter().collect()
}

fn norm(s: &str) -> String {
    text(normalized(&chars(s)))
}

#[test]
fn classify_specifiers() {
    assert!(check_remote(&chars("jsr:@std/assert@1.0.0")));
    assert!(!check_remote(&chars("jsr")));
    assert!(!check_remote(&chars("./jsr:")));
    assert!(check_relative(&chars("./a.js")));
    assert!(check_relative(&chars("../a.js")));
    assert!(!check_relative(&chars(".a.js")));
    assert!(!check_relative(&chars("/a.js")));
    assert!(!check_relative(&chars("a.js")));
    assert!(check_typescript(&chars("mod.ts")));
    assert!(check_typescript(&chars(".ts")));
    assert!(!check_typescript(&chars("mod.tsx")));
    assert!(!check_typescript(&chars("ts")));
}

#[test]
fn split_and_join_are_inverse_on_examples() {
    let pieces = split_at_each(&chars("a//b/"), '/');
    let expected: Vec<Vec<char>> = vec![chars("a"), chars(""), chars("b"), chars("")];
    assert_eq!(pieces, expected);
    assert_eq!(text(join_with(&pieces, '/')), "a//b/");
    assert_eq!(split_at_each(&chars(""), '/'), vec![chars("")]);
    assert_eq!(text(join_with(&vec![], '/')), "");
    assert_eq!(text(join_with(&vec![chars("x")], '/')), "x");
}

#[test]
fn normalize_examples() {
    assert_eq!(norm("./a.js"), "a.js");
    assert_eq!(norm("a/b/../c"), "a/c");
    assert_eq!(norm("a/./b//c/"), "a/b/c");
    assert_eq!(norm("/a/../../b"), "/b");
    assert_eq!(norm("../../b"), "../../b");
    assert_eq!(norm("a/../../b"), "../b");
    assert_eq!(norm("/"), "/");
    assert_eq!(norm(""), "");
    assert_eq!(norm("."), "");
    assert_eq!(norm("/home/user/./src/../main.js"), "/home/user/main.js");
}

#[test]
fn normalize_is_idempotent_on_examples() {
    for path in ["a/b/../c", "/x/./y", "../..", "jsr:@std/assert@1.0.0/a/../b", "", "/"] {
        let once = norm(path);
        assert_eq!(norm(&once), once);
    }
}

#[test]
fn parent_directory() {
    assert_eq!(text(parent_of(&chars("/a/b/c.js"))), "/a/b");
    assert_eq!(text(parent_of(&chars("/c.js"))), "/");
    assert_eq!(text(parent_of(&chars("c.js"))), "");
    assert_eq!(text(parent_of(&chars("a/c.js"))), "a");
    assert_eq!(text(parent_of(&chars("file:///a/b.js"))), "file:///a");
}

#[test]
fn join_paths() {
    assert_eq!(text(joined(&chars(""), &chars("./a.js"))), "./a.js");
    assert_eq!(text(joined(&chars("/a"), &chars("./b.js"))), "/a/./b.js");
    assert_eq!(text(joined(&chars("/a/"), &chars("b.js"))), "/a/b.js");
}

#[test]
fn relative_targets() {
    assert_eq!(text(relative_target(&chars("b.js"), &chars("./a.js"), true)), "a.js");
    assert_eq!(text(relative_target(&chars("b.js"), &chars("./a.js"), false)), "b.js/a.js");
    assert_eq!(
        text(relative_target(&chars("/src/app/main.js"), &chars("../lib/x.js"), true)),
        "/src/lib/x.js"
    );
    assert_eq!(
        text(relative_target(&chars("/src/app"), &chars("./x.js"), false)),
        "/src/app/x.js"
    );
}

#[test]
fn package_targets() {
    assert_eq!(
        text(package_target(&chars("jsr:@std/assert@1.0.0/mod"), &chars("./equals.ts"))),
        "jsr:@std/assert@1.0.0/equals"
    );
    assert_eq!(
        text(package_target(&chars("jsr:@std/assert@1.0.0/a/b"), &chars("../c.js"))),
        "jsr:@std/assert@1.0.0/c"
    );
    assert_eq!(
        text(package_target(&chars("jsr:@std/assert@1.0.0/mod"), &chars("./plain"))),
        "jsr:@std/assert@1.0.0/plain"
    );
}

#[test]
fn extensions_are_stripped_once() {
    assert_eq!(text(extension_stripped(&chars("a.ts"))), "a");
    assert_eq!(text(extension_stripped(&chars("a.js"))), "a");
    assert_eq!(text(extension_stripped(&chars("a.js.ts"))), "a.js");
    assert_eq!(text(extension_stripped(&chars("a.tsx"))), "a.tsx");
    assert_eq!(text(extension_stripped(&chars("ts"))), "ts");
}

#[test]
fn file_urls() {
    assert_eq!(text(file_url(&chars("/home/user/file.js"), false)), "file:///home/user/file.js");
    assert_eq!(
        text(file_url(&chars(r"C:\Users\test\file.js"), true)),
        "file:///C:/Users/test/file.js"
    );
    assert_eq!(text(file_url(&chars("a.js"), false)), "file://a.js");
    assert_eq!(text(file_url(&chars(""), false)), "file://");
    assert_eq!(text(file_url(&chars(r"\\server\share\a.js"), true)), "file://///server/share/a.js");
}

#[test]
fn forms_of_specifiers() {
    assert_eq!(classify("jsr:@std/assert@1.0.0/mod"), SpecifierKind::Remote);
    assert_eq!(classify("file:///home/user/main.js"), SpecifierKind::FileUrl);
    assert_eq!(classify("./dep.js"), SpecifierKind::Relative);
    assert_eq!(classify("../dep.js"), SpecifierKind::Relative);
    assert_eq!(classify("/home/user/main.js"), SpecifierKind::AbsolutePath);
    assert_eq!(classify("node:fs"), SpecifierKind::Name);
    assert_eq!(classify("b.js"), SpecifierKind::Name);
    assert_eq!(classify(""), SpecifierKind::Name);
    assert_eq!(classify("file:/x"), SpecifierKind::Name);
}
