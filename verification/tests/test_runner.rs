use mdeno::test_runner::{
    any_only, count_failures, register_test, report_failures, select, TestArgument, TestDef,
    TestResult,
};

fn test(name: &str, ignore: bool, only: bool) -> TestDef {
    TestDef { name: name.to_string(), ignore, only }
}

fn passed(name: &str) -> TestResult {
    TestResult { name: name.to_string(), passed: true, error: None, error_stack: None }
}

fn failed(name: &str, error: Option<&str>, stack: Option<&str>) -> TestResult {
    TestResult {
        name: name.to_string(),
        passed: false,
        error: error.map(|e| e.to_string()),
        error_stack: stack.map(|s| s.to_string()),
    }
}

#[test]
fn selection_without_only() {
    let tests = vec![test("a", false, false), test("b", true, false), test("c", false, false)];
    assert!(!any_only(&tests));
    assert_eq!(select(&tests), vec![0, 2]);
    assert_eq!(select(&Vec::new()), Vec::<usize>::new());
}

#[test]
fn selection_with_only() {
    let tests = vec![
        test("a", false, false),
        test("b", true, true),
        test("c", false, false),
        test("d", false, true),
    ];
    assert!(any_only(&tests));
    assert_eq!(select(&tests), vec![1, 3]);
}

#[test]
fn failures_are_counted() {
    assert_eq!(count_failures(&Vec::new()), 0);
    let results = vec![passed("a"), failed("b", None, None), passed("c"), failed("d", None, None)];
    assert_eq!(count_failures(&results), 2);
}

#[test]
fn a_clean_run_reports_an_empty_line() {
    assert_eq!(report_failures(&vec![passed("a"), passed("b")], "x_test.js"), "\n");
    assert_eq!(report_failures(&Vec::new(), "x_test.js"), "\n");
}

#[test]
fn failures_are_grouped() {
    let results = vec![
        passed("fine"),
        failed("adds", Some("expected 2"), Some("    at adds (x_test.js:3)")),
        failed("bare", None, None),
    ];
    assert_eq!(
        report_failures(&results, "x_test.js"),
        "\n ERRORS \n\n\
adds => x_test.js\nerror: Error: expected 2\n    at adds (x_test.js:3)\n\n\
bare => x_test.js\n\n \
FAILURES \n\n\
adds => x_test.js\nbare => x_test.js\n\n"
    );
}

#[test]
fn registrations() {
    let simple = register_test(TestArgument::Name("adds".to_string()), Some(true)).ok().unwrap();
    assert_eq!(simple.name, "adds");
    assert!(!simple.ignore);
    assert!(!simple.only);

    assert_eq!(
        register_test(TestArgument::Name("adds".to_string()), None).err(),
        Some("Function required".to_string())
    );
    assert_eq!(
        register_test(TestArgument::Name("adds".to_string()), Some(false)).err(),
        Some("Second argument must be a function".to_string())
    );

    let options = TestArgument::Options {
        name: "skipped".to_string(),
        ignore: Some(true),
        only: None,
        has_function: true,
    };
    let marked = register_test(options, None).ok().unwrap();
    assert_eq!(marked.name, "skipped");
    assert!(marked.ignore);
    assert!(!marked.only);

    let no_function = TestArgument::Options {
        name: "x".to_string(),
        ignore: None,
        only: Some(true),
        has_function: false,
    };
    assert_eq!(register_test(no_function, Some(true)).err(), Some("Function required".to_string()));
    assert_eq!(
        register_test(TestArgument::Other, Some(true)).err(),
        Some("First argument must be a string or options object".to_string())
    );
}
