//! The command line as values: what was asked for, and which arguments
//! belong to the script.

use vstd::prelude::*;
use crate::text::{has_prefix, texts, chars_of, same_str, starts_with};

verus! {

/// A parsed command line.
#[derive(Debug, Clone)]
pub struct CliArgs {
    /// What is to be done.
    pub command: Command,
    /// The arguments that are handed on to the script.
    pub script_args: Vec<String>,
    /// Unstable features are enabled.
    pub unstable: bool,
}

/// What a command line asks for.
#[derive(Debug, Clone, PartialEq)]
pub enum Command {
    /// Run a file.
    Run { file_path: String },
    /// Compile a file into a self-contained executable.
    Compile { file_path: String },
    /// Evaluate a piece of code.
    Eval { code: String },
    /// Run the tests under a path.
    Test { pattern: Option<String> },
    /// Show help, for one command or in general.
    Help { command: Option<String> },
}

/// The word names one of the commands.
pub open spec fn is_command(word: Seq<char>) -> bool {
    word == "run"@ || word == "compile"@ || word == "eval"@ || word == "test"@ || word == "help"@
}

/// The first argument of a command line is a file to run rather than a
/// command or an option.
pub open spec fn names_file(first: Seq<char>) -> bool {
    !is_command(first) && !has_prefix(first, "-"@)
}

/// Whether the first argument of a command line is a file to run: the form
/// `mdeno <file> [args...]`, without a command.
pub fn is_bare_file(first: &str) -> (b: bool)
    ensures
        b == names_file(first@),
{
    if same_str(first, "run") || same_str(first, "compile") || same_str(first, "eval") || same_str(
        first,
        "test",
    ) || same_str(first, "help") {
        return false;
    }
    let word = chars_of(first);
    let dash = chars_of("-");
    !starts_with(word.as_slice(), dash.as_slice())
}

/// The position of the first argument that is `file_path`.
pub open spec fn position_of(args: Seq<String>, file_path: Seq<char>) -> Option<int> {
    if exists|i: int| 0 <= i < args.len() && (#[trigger] args[i])@ == file_path {
        Some(
            choose|i: int|
                0 <= i < args.len() && (#[trigger] args[i])@ == file_path && forall|j: int|
                    0 <= j < i ==> (#[trigger] args[j])@ != file_path,
        )
    } else {
        None
    }
}

/// The arguments of the script: all that follow the first occurrence of the
/// script's path on the command line; none where the path does not occur.
pub open spec fn args_after(args: Seq<String>, file_path: Seq<char>) -> Seq<Seq<char>> {
    match position_of(args, file_path) {
        Some(i) => Seq::new((args.len() - i - 1) as nat, |k: int| args[i + 1 + k]@),
        None => Seq::empty(),
    }
}

/// The arguments that belong to the script.
pub fn script_args_after(all_args: &Vec<String>, file_path: &str) -> (script_args: Vec<String>)
    ensures
        texts(script_args@) == args_after(all_args@, file_path@),
{
    let needle = file_path.to_owned();
    let mut i: usize = 0;
    let mut found = false;
    while i < all_args.len() && !found
        invariant
            i <= all_args.len(),
            needle@ == file_path@,
            forall|j: int| 0 <= j < i ==> (#[trigger] all_args@[j])@ != file_path@,
            found ==> i < all_args.len() && all_args@[i as int]@ == file_path@,
        decreases
                (all_args.len() - i) * 2 + if found {
                    0int
                } else {
                    1
                },
    {
        if all_args[i] == needle {
            found = true;
        } else {
            i += 1;
        }
    }
    let mut out: Vec<String> = Vec::new();
    if !found {
        assert(texts(out@) =~= Seq::<Seq<char>>::empty());
        return out;
    }
    proof {
        let found = position_of(all_args@, file_path@)->Some_0;
        assert(all_args@[i as int]@ == file_path@);
        assert(found == i) by {
            if found < i {
                assert(all_args@[found]@ != file_path@);
            }
            if i < found {
                assert(all_args@[i as int]@ != file_path@);
            }
        }
    }
    let mut k: usize = i + 1;
    while k < all_args.len()
        invariant
            i < k <= all_args.len(),
            out@.len() == k - i - 1,
            forall|m: int| 0 <= m < out@.len() ==> (#[trigger] out@[m])@ == all_args@[i + 1 + m]@,
        decreases all_args.len() - k,
    {
        out.push(all_args[k].clone());
        k += 1;
    }
    assert(texts(out@) =~= args_after(all_args@, file_path@));
    out
}

} // verus!
