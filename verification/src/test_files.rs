//! The test command: which files are test files, how each is run, and what
//! the results of all of them add up to.

use vstd::prelude::*;
use crate::text::{
    has_prefix, has_suffix, contains_text, decimal, chars_of, string_of, starts_with, ends_with,
    contains, same_text, push_str, push_decimal,
};

verus! {

/// The file name is that of a test file: not hidden, and `test.js`,
/// `test.ts`, or a name that ends in `_test` or `.test` before one of these
/// extensions.
pub open spec fn names_test_file(name: Seq<char>) -> bool {
    &&& !has_prefix(name, "."@)
    &&& {
        ||| has_suffix(name, "_test.js"@)
        ||| has_suffix(name, ".test.js"@)
        ||| name == "test.js"@
        ||| has_suffix(name, "_test.ts"@)
        ||| has_suffix(name, ".test.ts"@)
        ||| name == "test.ts"@
    }
}

/// The directory is passed over in the search for test files: hidden
/// directories and `node_modules`.
pub open spec fn skips_directory(name: Seq<char>) -> bool {
    has_prefix(name, "."@) || name == "node_modules"@
}

/// The file has to go through the bundler before it runs: a TypeScript file,
/// or one that imports or exports.
pub open spec fn wants_bundle(contents: Seq<char>, typescript: bool) -> bool {
    typescript || contains_text(contents, "import "@) || contains_text(contents, "export "@)
}

/// Whether a file of this name is a test file.
pub fn is_test_file(file_name: &str) -> (b: bool)
    ensures
        b == names_test_file(file_name@),
{
    let name = chars_of(file_name);
    let dot = chars_of(".");
    if starts_with(name.as_slice(), dot.as_slice()) {
        return false;
    }
    let a = chars_of("_test.js");
    let b = chars_of(".test.js");
    let c = chars_of("test.js");
    let d = chars_of("_test.ts");
    let e = chars_of(".test.ts");
    let f = chars_of("test.ts");
    ends_with(name.as_slice(), a.as_slice()) || ends_with(name.as_slice(), b.as_slice())
        || same_text(name.as_slice(), c.as_slice()) || ends_with(name.as_slice(), d.as_slice())
        || ends_with(name.as_slice(), e.as_slice()) || same_text(name.as_slice(), f.as_slice())
}

/// Whether the search for test files passes over a directory of this name.
pub fn is_skipped_directory(name: &str) -> (b: bool)
    ensures
        b == skips_directory(name@),
{
    let n = chars_of(name);
    let dot = chars_of(".");
    let modules = chars_of("node_modules");
    starts_with(n.as_slice(), dot.as_slice()) || same_text(n.as_slice(), modules.as_slice())
}

/// Whether a test file has to go through the bundler.
pub fn needs_bundling(contents: &str, typescript: bool) -> (b: bool)
    ensures
        b == wants_bundle(contents@, typescript),
{
    if typescript {
        return true;
    }
    let text = chars_of(contents);
    let import = chars_of("import ");
    let export = chars_of("export ");
    contains(text.as_slice(), import.as_slice()) || contains(text.as_slice(), export.as_slice())
}

/// The results of the test files of one run, added up.
#[derive(Clone, Copy, Debug, PartialEq, Eq, Structural)]
pub struct TestTotals {
    /// The tests that passed.
    pub passed: u64,
    /// The tests that failed, and the files that could not be run.
    pub failed: u64,
}

/// `a + b`, or the largest number where the sum is beyond it.
pub open spec fn capped_sum(a: u64, b: u64) -> u64 {
    if a + b > u64::MAX {
        u64::MAX
    } else {
        (a + b) as u64
    }
}

fn capped_add(a: u64, b: u64) -> (sum: u64)
    ensures
        sum == capped_sum(a, b),
{
    if a > u64::MAX - b {
        u64::MAX
    } else {
        a + b
    }
}

impl TestTotals {
    /// No test has run.
    pub fn new() -> (t: Self)
        ensures
            t == (TestTotals { passed: 0, failed: 0 }),
    {
        TestTotals { passed: 0, failed: 0 }
    }

    /// The totals with the results of one more file: its passed and failed
    /// tests, or one failure for a file that could not be run at all.
    pub open spec fn with_file(self, result: Option<(u64, u64)>) -> TestTotals {
        match result {
            Some(counts) => TestTotals {
                passed: capped_sum(self.passed, counts.0),
                failed: capped_sum(self.failed, counts.1),
            },
            None => TestTotals { passed: self.passed, failed: capped_sum(self.failed, 1) },
        }
    }

    /// Adds the results of one more file.
    pub fn add_file(&mut self, result: Option<(u64, u64)>)
        ensures
            *final(self) == old(self).with_file(result),
    {
        match result {
            Some(counts) => {
                self.passed = capped_add(self.passed, counts.0);
                self.failed = capped_add(self.failed, counts.1);
            },
            None => {
                self.failed = capped_add(self.failed, 1);
            },
        }
    }

    /// The exit code of the run: 1 where anything failed, 0 else.
    pub fn exit_code(&self) -> (code: i32)
        ensures
            code == if self.failed > 0 {
                1i32
            } else {
                0i32
            },
    {
        if self.failed > 0 {
            1
        } else {
            0
        }
    }

    /// The line that sums the run up.
    pub open spec fn summary(self, elapsed_ms: u64) -> Seq<char> {
        (if self.failed > 0 {
            "FAILED"@
        } else {
            "ok"@
        }) + " | "@ + decimal(self.passed as nat) + " passed | "@ + decimal(self.failed as nat)
            + " failed ("@ + decimal(elapsed_ms as nat) + "ms)"@
    }

    /// The line that sums the run up: the verdict, the two counts, and the
    /// time the run took.
    pub fn summary_line(&self, elapsed_ms: u64) -> (line: String)
        ensures
            line@ == self.summary(elapsed_ms),
    {
        let mut out: Vec<char> = Vec::new();
        if self.failed > 0 {
            push_str(&mut out, "FAILED");
        } else {
            push_str(&mut out, "ok");
        }
        push_str(&mut out, " | ");
        push_decimal(&mut out, self.passed);
        push_str(&mut out, " passed | ");
        push_decimal(&mut out, self.failed);
        push_str(&mut out, " failed (");
        push_decimal(&mut out, elapsed_ms);
        push_str(&mut out, "ms)");
        assert(out@ =~= self.summary(elapsed_ms));
        string_of(out.as_slice())
    }
}

/// The line that reports one test: its name, the verdict, and the time it
/// took.
pub open spec fn result_text(name: Seq<char>, passed: bool, elapsed_ms: u64) -> Seq<char> {
    name + " ... "@ + (if passed {
        "ok"@
    } else {
        "FAILED"@
    }) + " ("@ + decimal(elapsed_ms as nat) + "ms)"@
}

/// The line that reports one test.
pub fn result_line(name: &str, passed: bool, elapsed_ms: u64) -> (line: String)
    ensures
        line@ == result_text(name@, passed, elapsed_ms),
{
    let mut out: Vec<char> = Vec::new();
    push_str(&mut out, name);
    push_str(&mut out, " ... ");
    if passed {
        push_str(&mut out, "ok");
    } else {
        push_str(&mut out, "FAILED");
    }
    push_str(&mut out, " (");
    push_decimal(&mut out, elapsed_ms);
    push_str(&mut out, "ms)");
    assert(out@ =~= result_text(name@, passed, elapsed_ms));
    string_of(out.as_slice())
}

/// The line above the tests of a file.
pub open spec fn header_text(count: u64, file_name: Seq<char>) -> Seq<char> {
    "running "@ + decimal(count as nat) + " tests from "@ + file_name
}

/// The line above the tests of a file: how many are run, and from where.
pub fn header_line(count: u64, file_name: &str) -> (line: String)
    ensures
        line@ == header_text(count, file_name@),
{
    let mut out: Vec<char> = Vec::new();
    push_str(&mut out, "running ");
    push_decimal(&mut out, count);
    push_str(&mut out, " tests from ");
    push_str(&mut out, file_name);
    assert(out@ =~= header_text(count, file_name@));
    string_of(out.as_slice())
}

} // verus!
