//! The tests that a test file registers, and which of them are run.
//!
//! A test file registers its tests while it is evaluated. When the first
//! drain is over the engine runs those that are selected, one after the other
//! and each whatever became of the one before; tests whose body returned a
//! promise are set aside and looked at again in a second phase.

use vstd::prelude::*;
use crate::text::{push_str, string_of};

verus! {

/// A registered test.
pub struct TestDef {
    /// The name under which the test is reported.
    pub name: String,
    /// The test is skipped, unless some test is marked `only`.
    pub ignore: bool,
    /// Where any test is marked so, only the marked tests are run.
    pub only: bool,
}

/// The first argument of a registration, as far as its shape matters.
pub enum TestArgument {
    /// A string: the name of the test.
    Name(String),
    /// An options object: its name, its marks as far as it has them, and
    /// whether it holds the test's function.
    Options { name: String, ignore: Option<bool>, only: Option<bool>, has_function: bool },
    /// Neither a string nor an object.
    Other,
}

/// What a registration comes to. A name needs a function as its second
/// argument. An options object needs its own function; marks that it does not
/// set are off. Anything else is no registration.
pub open spec fn registration(first: TestArgument, second_is_function: Option<bool>) -> Result<
    TestDef,
    Seq<char>,
> {
    match first {
        TestArgument::Name(name) => match second_is_function {
            None => Err("Function required"@),
            Some(false) => Err("Second argument must be a function"@),
            Some(true) => Ok(TestDef { name, ignore: false, only: false }),
        },
        TestArgument::Options { name, ignore, only, has_function } => if has_function {
            Ok(
                TestDef {
                    name,
                    ignore: match ignore {
                        Some(mark) => mark,
                        None => false,
                    },
                    only: match only {
                        Some(mark) => mark,
                        None => false,
                    },
                },
            )
        } else {
            Err("Function required"@)
        },
        TestArgument::Other => Err("First argument must be a string or options object"@),
    }
}

/// Turns the arguments of a registration into the test that is registered,
/// or into the message of the error that the script gets to see.
pub fn register_test(first: TestArgument, second_is_function: Option<bool>) -> (r: Result<
    TestDef,
    String,
>)
    ensures
        match r {
            Ok(test) => registration(first, second_is_function) == Ok::<TestDef, Seq<char>>(test),
            Err(message) => registration(first, second_is_function) == Err::<TestDef, Seq<char>>(
                message@,
            ),
        },
{
    match first {
        TestArgument::Name(name) => match second_is_function {
            None => Err("Function required".to_owned()),
            Some(false) => Err("Second argument must be a function".to_owned()),
            Some(true) => Ok(TestDef { name, ignore: false, only: false }),
        },
        TestArgument::Options { name, ignore, only, has_function } => {
            if has_function {
                let ignore = match ignore {
                    Some(mark) => mark,
                    None => false,
                };
                let only = match only {
                    Some(mark) => mark,
                    None => false,
                };
                Ok(TestDef { name, ignore, only })
            } else {
                Err("Function required".to_owned())
            }
        },
        TestArgument::Other => Err("First argument must be a string or options object".to_owned()),
    }
}

/// What became of one test body when it was called.
pub enum TestOutcome {
    /// The body returned without throwing, and returned no promise.
    Passed,
    /// The body threw: the message and the stack of what it threw.
    Failed(String, Option<String>),
    /// The body returned a promise that has yet to be looked at: the handle
    /// under which the host keeps it, and the time of the call in milliseconds.
    Pending(u64, u64),
}

/// The report on one test.
pub struct TestResult {
    /// The name of the test.
    pub name: String,
    /// Whether the test passed.
    pub passed: bool,
    /// The message of what the test threw.
    pub error: Option<String>,
    /// The stack of what the test threw.
    pub error_stack: Option<String>,
}

/// A test whose body returned a promise: it is settled in the second phase.
pub struct PendingTestPromise {
    /// The name of the test.
    pub name: String,
    /// The handle under which the host keeps the promise.
    pub handle: u64,
    /// When the body was called, in milliseconds.
    pub started_ms: u64,
}

/// Some test is marked `only`.
pub open spec fn has_only(tests: Seq<TestDef>) -> bool {
    exists|i: int| 0 <= i < tests.len() && (#[trigger] tests[i]).only
}

/// The test at position `i` is run: where some test is marked `only`, the
/// marked ones are; where none is, those that are not ignored.
pub open spec fn is_selected(tests: Seq<TestDef>, i: int) -> bool {
    if has_only(tests) {
        tests[i].only
    } else {
        !tests[i].ignore
    }
}

/// The positions below `n` of the tests that are run, in registration order.
pub open spec fn selection_below(tests: Seq<TestDef>, n: int) -> Seq<usize>
    decreases n,
{
    if n <= 0 {
        Seq::empty()
    } else if is_selected(tests, n - 1) {
        selection_below(tests, n - 1).push((n - 1) as usize)
    } else {
        selection_below(tests, n - 1)
    }
}

/// The positions of the tests that are run, in registration order.
pub open spec fn selection(tests: Seq<TestDef>) -> Seq<usize> {
    selection_below(tests, tests.len() as int)
}

/// Every selected position is the position of a test.
pub proof fn lemma_selection_in_range(tests: Seq<TestDef>, n: int)
    requires
        0 <= n <= tests.len(),
        tests.len() <= usize::MAX,
    ensures
        forall|k: int|
            0 <= k < selection_below(tests, n).len() ==> 0 <= (#[trigger] selection_below(
                tests,
                n,
            )[k]) < n,
        selection_below(tests, n).len() <= n,
    decreases n,
{
    if n > 0 {
        lemma_selection_in_range(tests, n - 1);
    }
}

/// How many of the results are failures.
pub open spec fn failures(results: Seq<TestResult>) -> nat
    decreases results.len(),
{
    if results.len() == 0 {
        0
    } else if results.last().passed {
        failures(results.drop_last())
    } else {
        failures(results.drop_last()) + 1
    }
}

/// Counts the failures among the results.
pub fn count_failures(results: &Vec<TestResult>) -> (n: usize)
    ensures
        n == failures(results@),
{
    let mut n: usize = 0;
    let mut i: usize = 0;
    assert(results@.take(0) == Seq::<TestResult>::empty());
    while i < results.len()
        invariant
            i <= results.len(),
            n == failures(results@.take(i as int)),
            n <= i,
        decreases results.len() - i,
    {
        assert(results@.take(i + 1).drop_last() == results@.take(i as int));
        assert(results@.take(i + 1).last() == results@[i as int]);
        if !results[i].passed {
            n += 1;
        }
        i += 1;
    }
    assert(results@.take(results.len() as int) == results@);
    n
}

/// Whether some test is marked `only`.
pub fn any_only(tests: &Vec<TestDef>) -> (b: bool)
    ensures
        b == has_only(tests@),
{
    let mut i: usize = 0;
    while i < tests.len()
        invariant
            i <= tests.len(),
            forall|j: int| 0 <= j < i ==> !(#[trigger] tests@[j]).only,
        decreases tests.len() - i,
    {
        if tests[i].only {
            return true;
        }
        i += 1;
    }
    false
}

/// The positions of the tests that are run, in registration order.
pub fn select(tests: &Vec<TestDef>) -> (chosen: Vec<usize>)
    ensures
        chosen@ == selection(tests@),
{
    let only = any_only(tests);
    let mut chosen: Vec<usize> = Vec::new();
    let mut i: usize = 0;
    while i < tests.len()
        invariant
            i <= tests.len(),
            only == has_only(tests@),
            chosen@ == selection_below(tests@, i as int),
        decreases tests.len() - i,
    {
        let run = if only {
            tests[i].only
        } else {
            !tests[i].ignore
        };
        if run {
            chosen.push(i);
        }
        i += 1;
    }
    chosen
}

/// The report on a test that was called, for an outcome that is final.
pub open spec fn result_of(name: String, outcome: TestOutcome) -> TestResult {
    match outcome {
        TestOutcome::Failed(message, stack) => TestResult {
            name,
            passed: false,
            error: Some(message),
            error_stack: stack,
        },
        _ => TestResult { name, passed: true, error: None, error_stack: None },
    }
}

/// What is reported of one failed test among the errors: the test and its
/// file, then the error and the stack as far as there are any, then an empty
/// line.
pub open spec fn error_entry(result: TestResult, file_name: Seq<char>) -> Seq<char> {
    let head = result.name@ + " => "@ + file_name + "\n"@;
    let error = match result.error {
        Some(e) => "error: Error: "@ + e@ + "\n"@,
        None => Seq::empty(),
    };
    let stack = match result.error_stack {
        Some(s) => s@ + "\n"@,
        None => Seq::empty(),
    };
    head + error + stack + "\n"@
}

/// The errors of the failed tests among the results, in their order.
pub open spec fn error_entries(results: Seq<TestResult>, file_name: Seq<char>) -> Seq<char>
    decreases results.len(),
{
    if results.len() == 0 {
        Seq::empty()
    } else if results.last().passed {
        error_entries(results.drop_last(), file_name)
    } else {
        error_entries(results.drop_last(), file_name) + error_entry(results.last(), file_name)
    }
}

/// The names of the failed tests among the results, each with its file on a
/// line of its own.
pub open spec fn failure_names(results: Seq<TestResult>, file_name: Seq<char>) -> Seq<char>
    decreases results.len(),
{
    if results.len() == 0 {
        Seq::empty()
    } else if results.last().passed {
        failure_names(results.drop_last(), file_name)
    } else {
        failure_names(results.drop_last(), file_name) + (results.last().name@ + " => "@ + file_name
            + "\n"@)
    }
}

/// The report that follows the tests of a file: an empty line; and where any
/// test failed, the errors of the failed tests under one heading and their
/// names under another.
pub open spec fn failure_report(results: Seq<TestResult>, file_name: Seq<char>) -> Seq<char> {
    if failures(results) == 0 {
        "\n"@
    } else {
        "\n"@ + " ERRORS \n\n"@ + error_entries(results, file_name) + " FAILURES \n\n"@
            + failure_names(results, file_name) + "\n"@
    }
}

fn push_entry_head(out: &mut Vec<char>, name: &str, file_name: &str)
    ensures
        final(out)@ == old(out)@ + (name@ + " => "@ + file_name@ + "\n"@),
{
    push_str(out, name);
    push_str(out, " => ");
    push_str(out, file_name);
    push_str(out, "\n");
    assert(out@ =~= old(out)@ + (name@ + " => "@ + file_name@ + "\n"@));
}

fn push_error_entry(out: &mut Vec<char>, result: &TestResult, file_name: &str)
    ensures
        final(out)@ == old(out)@ + error_entry(*result, file_name@),
{
    push_entry_head(out, result.name.as_str(), file_name);
    let ghost head = out@;
    if let Some(error) = &result.error {
        push_str(out, "error: Error: ");
        push_str(out, error.as_str());
        push_str(out, "\n");
        assert(out@ =~= head + ("error: Error: "@ + error@ + "\n"@));
    } else {
        assert(out@ =~= head + Seq::<char>::empty());
    }
    let ghost middle = out@;
    if let Some(stack) = &result.error_stack {
        push_str(out, stack.as_str());
        push_str(out, "\n");
        assert(out@ =~= middle + (stack@ + "\n"@));
    } else {
        assert(out@ =~= middle + Seq::<char>::empty());
    }
    push_str(out, "\n");
    assert(out@ =~= old(out)@ + error_entry(*result, file_name@));
}

fn push_error_entries(out: &mut Vec<char>, results: &Vec<TestResult>, file_name: &str)
    ensures
        final(out)@ == old(out)@ + error_entries(results@, file_name@),
{
    let mut i: usize = 0;
    assert(results@.take(0) == Seq::<TestResult>::empty());
    assert(out@ =~= old(out)@ + error_entries(results@.take(0), file_name@));
    while i < results.len()
        invariant
            i <= results.len(),
            out@ == old(out)@ + error_entries(results@.take(i as int), file_name@),
        decreases results.len() - i,
    {
        assert(results@.take(i + 1).drop_last() == results@.take(i as int));
        assert(results@.take(i + 1).last() == results@[i as int]);
        let ghost before = error_entries(results@.take(i as int), file_name@);
        if !results[i].passed {
            push_error_entry(out, &results[i], file_name);
            assert(out@ =~= old(out)@ + (before + error_entry(results@[i as int], file_name@)));
        }
        i += 1;
    }
    assert(results@.take(results.len() as int) == results@);
}

fn push_failure_names(out: &mut Vec<char>, results: &Vec<TestResult>, file_name: &str)
    ensures
        final(out)@ == old(out)@ + failure_names(results@, file_name@),
{
    let mut i: usize = 0;
    assert(results@.take(0) == Seq::<TestResult>::empty());
    assert(out@ =~= old(out)@ + failure_names(results@.take(0), file_name@));
    while i < results.len()
        invariant
            i <= results.len(),
            out@ == old(out)@ + failure_names(results@.take(i as int), file_name@),
        decreases results.len() - i,
    {
        assert(results@.take(i + 1).drop_last() == results@.take(i as int));
        assert(results@.take(i + 1).last() == results@[i as int]);
        let ghost before = failure_names(results@.take(i as int), file_name@);
        if !results[i].passed {
            push_entry_head(out, results[i].name.as_str(), file_name);
            assert(out@ =~= old(out)@ + (before + (results@[i as int].name@ + " => "@ + file_name@
                + "\n"@)));
        }
        i += 1;
    }
    assert(results@.take(results.len() as int) == results@);
}

/// The report that follows the tests of a file.
pub fn report_failures(results: &Vec<TestResult>, file_name: &str) -> (report: String)
    ensures
        report@ == failure_report(results@, file_name@),
{
    let mut out: Vec<char> = Vec::new();
    push_str(&mut out, "\n");
    if count_failures(results) == 0 {
        return string_of(out.as_slice());
    }
    push_str(&mut out, " ERRORS \n\n");
    push_error_entries(&mut out, results, file_name);
    push_str(&mut out, " FAILURES \n\n");
    push_failure_names(&mut out, results, file_name);
    push_str(&mut out, "\n");
    assert(out@ =~= failure_report(results@, file_name@));
    string_of(out.as_slice())
}

} // verus!
