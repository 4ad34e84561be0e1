//! What a script can ask of the process it runs in: its arguments and the
//! platform it was built for.

use vstd::prelude::*;
use crate::engine::SessionConfig;
use crate::text::{texts, replace_char, chars_of, string_of, same_str, push_str, replace};

verus! {

/// Sets the script arguments of a session.
pub fn set_script_args(config: &mut SessionConfig, args: Vec<String>)
    ensures
        final(config).script_args == args,
        final(config).standalone == old(config).standalone,
        final(config).test_mode == old(config).test_mode,
{
    config.script_args = args;
}

/// The arguments as the script sees them: in a standalone executable all the
/// arguments of the process after its name, else the script arguments of the
/// session.
pub open spec fn visible_args(config: SessionConfig, process_args: Seq<String>) -> Seq<Seq<char>> {
    if config.standalone {
        if process_args.len() == 0 {
            Seq::empty()
        } else {
            texts(process_args.subrange(1, process_args.len() as int))
        }
    } else {
        texts(config.script_args@)
    }
}

fn copy_from(list: &Vec<String>, from: usize) -> (out: Vec<String>)
    requires
        from <= list.len(),
    ensures
        texts(out@) == texts(list@.subrange(from as int, list@.len() as int)),
{
    let mut out: Vec<String> = Vec::new();
    let mut i: usize = from;
    while i < list.len()
        invariant
            from <= i <= list.len(),
            out@.len() == i - from,
            forall|k: int| 0 <= k < out@.len() ==> (#[trigger] out@[k])@ == list@[from + k]@,
        decreases list.len() - i,
    {
        out.push(list[i].clone());
        i += 1;
    }
    assert(texts(out@) =~= texts(list@.subrange(from as int, list@.len() as int)));
    out
}

/// The arguments as the script sees them.
pub fn get_args(config: &SessionConfig, process_args: &Vec<String>) -> (args: Vec<String>)
    ensures
        texts(args@) == visible_args(*config, process_args@),
{
    if config.standalone {
        if process_args.len() == 0 {
            let out: Vec<String> = Vec::new();
            assert(texts(out@) =~= Seq::<Seq<char>>::empty());
            out
        } else {
            copy_from(process_args, 1)
        }
    } else {
        let out = copy_from(&config.script_args, 0);
        assert(config.script_args@.subrange(0, config.script_args@.len() as int)
            == config.script_args@);
        out
    }
}

/// The platform a host was built for, as `Deno.build` shows it.
pub struct BuildInfo {
    /// The operating system.
    pub os: String,
    /// The processor architecture.
    pub arch: String,
    /// The target triple.
    pub target: String,
    /// The vendor.
    pub vendor: String,
}

/// A `BuildInfo` as plain values: operating system, architecture, target,
/// vendor.
pub struct BuildParts {
    pub os: Seq<char>,
    pub arch: Seq<char>,
    pub target: Seq<char>,
    pub vendor: Seq<char>,
}

impl BuildInfo {
    /// The information as plain values.
    pub open spec fn view(&self) -> BuildParts {
        BuildParts {
            os: self.os@,
            arch: self.arch@,
            target: self.target@,
            vendor: self.vendor@,
        }
    }
}

/// The architecture as it is shown on the given operating system: the given
/// one where the system is known to run on it, `unknown` else.
pub open spec fn shown_arch(os: Seq<char>, arch: Seq<char>) -> Seq<char> {
    let known = if os == "windows"@ {
        arch == "x86_64"@ || arch == "aarch64"@ || arch == "x86"@
    } else if os == "macos"@ {
        arch == "x86_64"@ || arch == "aarch64"@
    } else if os == "linux"@ {
        arch == "x86_64"@ || arch == "aarch64"@ || arch == "arm"@ || arch == "x86"@
    } else if os == "freebsd"@ {
        arch == "x86_64"@
    } else {
        false
    };
    if known {
        arch
    } else {
        "unknown"@
    }
}

/// The build information for an operating system, an architecture and, on
/// Linux, the C library.
pub open spec fn build_parts(os: Seq<char>, arch: Seq<char>, musl: bool) -> BuildParts {
    let a = shown_arch(os, arch);
    if os == "windows"@ {
        BuildParts { os: "windows"@, arch: a, target: a + "-pc-windows-msvc"@, vendor: "pc"@ }
    } else if os == "macos"@ {
        BuildParts { os: "darwin"@, arch: a, target: a + "-apple-darwin"@, vendor: "apple"@ }
    } else if os == "linux"@ {
        BuildParts {
            os: "linux"@,
            arch: a,
            target: if musl {
                a + "-unknown-linux-musl"@
            } else {
                a + "-unknown-linux-gnu"@
            },
            vendor: "unknown"@,
        }
    } else if os == "freebsd"@ {
        BuildParts { os: "freebsd"@, arch: a, target: a + "-unknown-freebsd"@, vendor: "unknown"@ }
    } else {
        BuildParts {
            os: "unknown"@,
            arch: "unknown"@,
            target: "unknown-unknown-unknown"@,
            vendor: "unknown"@,
        }
    }
}

fn one_of(arch: &str, a: &str, b: &str, c: &str, d: &str) -> (r: bool)
    ensures
        r == (arch@ == a@ || arch@ == b@ || arch@ == c@ || arch@ == d@),
{
    same_str(arch, a) || same_str(arch, b) || same_str(arch, c) || same_str(arch, d)
}

fn join2(a: &str, b: &str) -> (out: String)
    ensures
        out@ == a@ + b@,
{
    let mut chars: Vec<char> = Vec::new();
    push_str(&mut chars, a);
    push_str(&mut chars, b);
    string_of(chars.as_slice())
}

/// The build information for a host built for the given operating system and
/// architecture, named as the compiler names them.
pub fn build_info(os: &str, arch: &str, musl: bool) -> (info: BuildInfo)
    ensures
        info@ == build_parts(os@, arch@, musl),
{
    if same_str(os, "windows") {
        let a = if one_of(arch, "x86_64", "aarch64", "x86", "x86") {
            arch
        } else {
            "unknown"
        };
        BuildInfo {
            os: "windows".to_owned(),
            arch: a.to_owned(),
            target: join2(a, "-pc-windows-msvc"),
            vendor: "pc".to_owned(),
        }
    } else if same_str(os, "macos") {
        let a = if one_of(arch, "x86_64", "aarch64", "aarch64", "aarch64") {
            arch
        } else {
            "unknown"
        };
        BuildInfo {
            os: "darwin".to_owned(),
            arch: a.to_owned(),
            target: join2(a, "-apple-darwin"),
            vendor: "apple".to_owned(),
        }
    } else if same_str(os, "linux") {
        let a = if one_of(arch, "x86_64", "aarch64", "arm", "x86") {
            arch
        } else {
            "unknown"
        };
        BuildInfo {
            os: "linux".to_owned(),
            arch: a.to_owned(),
            target: if musl {
                join2(a, "-unknown-linux-musl")
            } else {
                join2(a, "-unknown-linux-gnu")
            },
            vendor: "unknown".to_owned(),
        }
    } else if same_str(os, "freebsd") {
        let a = if same_str(arch, "x86_64") {
            arch
        } else {
            "unknown"
        };
        BuildInfo {
            os: "freebsd".to_owned(),
            arch: a.to_owned(),
            target: join2(a, "-unknown-freebsd"),
            vendor: "unknown".to_owned(),
        }
    } else {
        BuildInfo {
            os: "unknown".to_owned(),
            arch: "unknown".to_owned(),
            target: "unknown-unknown-unknown".to_owned(),
            vendor: "unknown".to_owned(),
        }
    }
}

/// What `navigator.platform` shows, where it shows anything.
pub open spec fn platform_name(os: Seq<char>, arch: Seq<char>) -> Option<Seq<char>> {
    if os == "macos"@ {
        Some("MacIntel"@)
    } else if os == "windows"@ {
        Some("Win32"@)
    } else if os == "linux"@ && arch == "x86_64"@ {
        Some("Linux x86_64"@)
    } else if os == "linux"@ && arch == "aarch64"@ {
        Some("Linux armv81"@)
    } else {
        None
    }
}

/// What `navigator.platform` shows on the given operating system and
/// architecture.
pub fn navigator_platform(os: &str, arch: &str) -> (r: Option<&'static str>)
    ensures
        match r {
            Some(name) => platform_name(os@, arch@) == Some(name@),
            None => platform_name(os@, arch@) is None,
        },
{
    if same_str(os, "macos") {
        Some("MacIntel")
    } else if same_str(os, "windows") {
        Some("Win32")
    } else if same_str(os, "linux") && same_str(arch, "x86_64") {
        Some("Linux x86_64")
    } else if same_str(os, "linux") && same_str(arch, "aarch64") {
        Some("Linux armv81")
    } else {
        None
    }
}

/// The language tag for a locale of the system: underscores become hyphens,
/// and a system without locale speaks `en-US`.
pub open spec fn language_of(locale: Option<Seq<char>>) -> Seq<char> {
    match locale {
        Some(l) => replace_char(l, '_', '-'),
        None => "en-US"@,
    }
}

/// What `navigator.language` shows for the locale that the system reports.
pub fn navigator_language(locale: Option<&str>) -> (tag: String)
    ensures
        tag@ == language_of(
            match locale {
                Some(l) => Some(l@),
                None => None,
            },
        ),
{
    match locale {
        Some(l) => {
            let chars = chars_of(l);
            let tagged = replace(chars.as_slice(), '_', '-');
            string_of(tagged.as_slice())
        },
        None => "en-US".to_owned(),
    }
}

} // verus!
