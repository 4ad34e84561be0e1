use mdeno::engine::SessionConfig;
use mdeno::flag::{is_bare_file, script_args_after, CliArgs, Command};
use mdeno::os::{build_info, get_args, navigator_language, navigator_platform, set_script_args};
use mdeno::test_files::{
    header_line, is_skipped_directory, is_test_file, needs_bundling, result_line, TestTotals,
};
use mdeno::text::push_decimal;

fn strings(items: &[&str]) -> Vec<String> {
    items.iter().map(|s| s.to_string()).collect()
}

#[test]
fn script_arguments_follow_the_script() {
    let all = strings(&["mdeno", "run", "main.js", "--port", "80", "main.js"]);
    assert_eq!(script_args_after(&all, "main.js"), strings(&["--port", "80", "main.js"]));
    assert_eq!(script_args_after(&all, "other.js"), Vec::<String>::new());
    assert_eq!(script_args_after(&all, "mdeno"), strings(&["run", "main.js", "--port", "80", "main.js"]));
    assert_eq!(script_args_after(&strings(&["a"]), "a"), Vec::<String>::new());
    assert_eq!(script_args_after(&Vec::new(), "a"), Vec::<String>::new());
}

#[test]
fn commands_compare_by_value() {
    let run = Command::Run { file_path: "main.js".to_string() };
    assert_eq!(run.clone(), Command::Run { file_path: "main.js".to_string() });
    assert_ne!(run, Command::Compile { file_path: "main.js".to_string() });
    assert_ne!(Command::Test { pattern: None }, Command::Help { command: None });
    let args = CliArgs { command: Command::Eval { code: "1".to_string() }, script_args: Vec::new(), unstable: true };
    assert!(args.clone().unstable);
    assert_eq!(args.command, Command::Eval { code: "1".to_string() });
}

#[test]
fn a_script_sees_its_arguments() {
    let mut config = SessionConfig { script_args: Vec::new(), standalone: false, test_mode: false };
    let process = strings(&["/bin/app", "a", "b"]);
    assert_eq!(get_args(&config, &process), Vec::<String>::new());
    set_script_args(&mut config, strings(&["x", "y"]));
    assert_eq!(config.script_args, strings(&["x", "y"]));
    assert_eq!(get_args(&config, &process), strings(&["x", "y"]));
    config.standalone = true;
    assert_eq!(get_args(&config, &process), strings(&["a", "b"]));
    assert_eq!(get_args(&config, &Vec::new()), Vec::<String>::new());
    assert_eq!(get_args(&config, &strings(&["/bin/app"])), Vec::<String>::new());
}

#[test]
fn build_information() {
    let linux = build_info("linux", "x86_64", false);
    assert_eq!(linux.os, "linux");
    assert_eq!(linux.arch, "x86_64");
    assert_eq!(linux.target, "x86_64-unknown-linux-gnu");
    assert_eq!(linux.vendor, "unknown");
    assert_eq!(build_info("linux", "arm", true).target, "arm-unknown-linux-musl");
    assert_eq!(build_info("linux", "riscv64", false).target, "unknown-unknown-linux-gnu");

    let mac = build_info("macos", "aarch64", false);
    assert_eq!(mac.os, "darwin");
    assert_eq!(mac.target, "aarch64-apple-darwin");
    assert_eq!(mac.vendor, "apple");
    assert_eq!(build_info("macos", "x86", false).arch, "unknown");

    let windows = build_info("windows", "x86", false);
    assert_eq!(windows.os, "windows");
    assert_eq!(windows.target, "x86-pc-windows-msvc");
    assert_eq!(windows.vendor, "pc");

    assert_eq!(build_info("freebsd", "x86_64", false).target, "x86_64-unknown-freebsd");
    assert_eq!(build_info("freebsd", "aarch64", false).target, "unknown-unknown-freebsd");

    let other = build_info("haiku", "x86_64", false);
    assert_eq!(other.os, "unknown");
    assert_eq!(other.arch, "unknown");
    assert_eq!(other.target, "unknown-unknown-unknown");
    assert_eq!(other.vendor, "unknown");
}

#[test]
fn navigator_values() {
    assert_eq!(navigator_platform("macos", "aarch64"), Some("MacIntel"));
    assert_eq!(navigator_platform("windows", "x86_64"), Some("Win32"));
    assert_eq!(navigator_platform("linux", "x86_64"), Some("Linux x86_64"));
    assert_eq!(navigator_platform("linux", "aarch64"), Some("Linux armv81"));
    assert_eq!(navigator_platform("linux", "arm"), None);
    assert_eq!(navigator_platform("freebsd", "x86_64"), None);
    assert_eq!(navigator_language(Some("ja_JP")), "ja-JP");
    assert_eq!(navigator_language(Some("zh_Hant_TW")), "zh-Hant-TW");
    assert_eq!(navigator_language(Some("de")), "de");
    assert_eq!(navigator_language(None), "en-US");
}

#[test]
fn test_file_names() {
    for name in ["a_test.js", "a.test.js", "test.js", "a_test.ts", "a.test.ts", "test.ts", "_test.js"] {
        assert!(is_test_file(name), "{name}");
    }
    for name in [".a_test.js", ".test.js", "atest.js", "test.jsx", "a_test.mjs", "test", "", "my-test.js", "a_test.js.bak"] {
        assert!(!is_test_file(name), "{name}");
    }
}

#[test]
fn directories_passed_over() {
    assert!(is_skipped_directory(".git"));
    assert!(is_skipped_directory("."));
    assert!(is_skipped_directory("node_modules"));
    assert!(!is_skipped_directory("node_modules2"));
    assert!(!is_skipped_directory("src"));
    assert!(!is_skipped_directory(""));
}

#[test]
fn bundling_is_needed_for_imports_and_typescript() {
    assert!(needs_bundling("import { a } from './a.js';", false));
    assert!(needs_bundling("const a = 1;\nexport const b = 2;", false));
    assert!(needs_bundling("const a = 1;", true));
    assert!(!needs_bundling("const a = 1;", false));
    assert!(!needs_bundling("important(); exported();", false));
    assert!(!needs_bundling("", false));
}

#[test]
fn totals_add_up() {
    let mut totals = TestTotals::new();
    assert_eq!(totals.exit_code(), 0);
    assert_eq!(totals.summary_line(12), "ok | 0 passed | 0 failed (12ms)");
    totals.add_file(Some((3, 0)));
    totals.add_file(Some((10, 2)));
    totals.add_file(None);
    assert_eq!(totals, TestTotals { passed: 13, failed: 3 });
    assert_eq!(totals.exit_code(), 1);
    assert_eq!(totals.summary_line(1204), "FAILED | 13 passed | 3 failed (1204ms)");
    totals.add_file(Some((u64::MAX, 0)));
    assert_eq!(totals.passed, u64::MAX);
}

#[test]
fn report_lines() {
    assert_eq!(result_line("adds", true, 0), "adds ... ok (0ms)");
    assert_eq!(result_line("subtracts", false, 1500), "subtracts ... FAILED (1500ms)");
    assert_eq!(header_line(3, "math_test.js"), "running 3 tests from math_test.js");
}

#[test]
fn decimal_notation() {
    for n in [0u64, 7, 10, 99, 100, 12345, u64::MAX] {
        let mut out = Vec::new();
        push_decimal(&mut out, n);
        let text: String = out.into_iter().collect();
        assert_eq!(text, n.to_string());
    }
}

#[test]
fn a_first_argument_is_a_file_unless_it_is_a_command_or_an_option() {
    for word in ["main.js", "./run", "runner", "Run", "", "a-b"] {
        assert!(is_bare_file(word), "{word}");
    }
    for word in ["run", "compile", "eval", "test", "help", "--unstable", "-h", "-"] {
        assert!(!is_bare_file(word), "{word}");
    }
}
