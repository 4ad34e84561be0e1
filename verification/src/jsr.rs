//! Remote-package specifiers of the form
//! `jsr:@scope/package[@version][/path]`.
//!
//! Nothing here goes to the network. A specifier is taken apart, a request is
//! turned into what has to be fetched, and what was fetched is turned into the
//! keys under which the package's modules enter a bundle.

use vstd::prelude::*;
use crate::map::{SpecifierMap, text_views};
use crate::text::{
    has_prefix, trim_start, trim_end, replace_text, opt_text, text_result, chars_of, string_of,
    find_char, rfind_char, slice_of, starts_with, push_all, push_str, trimmed_start, trimmed_end,
    replace_all, replace,
};

verus! {

/// The exports that the metadata of one package version declares: each
/// export name with the file that stands behind it.
pub struct JsrVersionMetadata {
    /// The file of each export.
    pub exports: SpecifierMap<String>,
}

/// A remote-package specifier taken apart.
#[derive(Debug)]
pub struct ParsedSpecifier {
    /// The scope, with its `@`.
    pub scope: String,
    /// The name of the package.
    pub package: String,
    /// The version, where the specifier gives one.
    pub version: Option<String>,
    /// The path inside the package, where the specifier gives one.
    pub file_path: Option<String>,
}

/// A `ParsedSpecifier` as plain values.
pub struct ParsedParts {
    /// The scope, with its `@`.
    pub scope: Seq<char>,
    /// The name of the package.
    pub package: Seq<char>,
    /// The version.
    pub version: Option<Seq<char>>,
    /// The path inside the package.
    pub file_path: Option<Seq<char>>,
}

/// What has to be known of a package before its modules can be fetched.
#[derive(Debug)]
pub struct ExportRequest {
    /// Scope and name of the package, joined by `/`.
    pub package: String,
    /// The version asked for.
    pub version: String,
    /// The export asked for: `.` for the package itself, `./path` for a path.
    pub export_key: String,
    /// Where the metadata of this version is to be had.
    pub meta_url: String,
    /// The specifier named a path inside the package.
    pub has_file_path: bool,
}

/// An `ExportRequest` as plain values.
pub struct ExportRequestParts {
    /// Scope and name of the package, joined by `/`.
    pub package: Seq<char>,
    /// The version asked for.
    pub version: Seq<char>,
    /// The export asked for.
    pub export_key: Seq<char>,
    /// Where the metadata of this version is to be had.
    pub meta_url: Seq<char>,
    /// The specifier named a path inside the package.
    pub has_file_path: bool,
}

/// The first part of `s` up to the first `c`, and what follows that `c`.
pub open spec fn split_once(s: Seq<char>, c: char) -> Option<(Seq<char>, Seq<char>)> {
    match s.index_of_first(c) {
        Some(i) => Some((s.subrange(0, i), s.subrange(i + 1, s.len() as int))),
        None => None,
    }
}

/// The parts of a remote-package specifier. The text after `jsr:` is cut at
/// its first `/` into the scope and the rest; the rest at its first `/` into
/// the package with its version and the path; the package at its first `@`
/// into name and version.
pub open spec fn parsed(specifier: Seq<char>) -> Result<ParsedParts, Seq<char>> {
    if !has_prefix(specifier, "jsr:"@) {
        Err("Not a JSR specifier"@)
    } else {
        match split_once(specifier.subrange("jsr:"@.len() as int, specifier.len() as int), '/') {
            None => Err("Invalid JSR specifier format"@),
            Some(scoped) => {
                let (named, file_path) = match split_once(scoped.1, '/') {
                    Some(pathed) => (pathed.0, Some(pathed.1)),
                    None => (scoped.1, None),
                };
                let (package, version) = match split_once(named, '@') {
                    Some(versioned) => (versioned.0, Some(versioned.1)),
                    None => (named, None),
                };
                Ok(ParsedParts { scope: scoped.0, package, version, file_path })
            },
        }
    }
}

/// The request that a specifier amounts to. A specifier without a version is
/// refused: this layer never picks one.
pub open spec fn requested(specifier: Seq<char>) -> Result<ExportRequestParts, Seq<char>> {
    match parsed(specifier) {
        Err(e) => Err(e),
        Ok(parts) => match parts.version {
            None => Err("Version must be specified in JSR import"@),
            Some(version) => {
                let package = parts.scope + "/"@ + parts.package;
                Ok(
                    ExportRequestParts {
                        package,
                        version,
                        export_key: match parts.file_path {
                            Some(path) => "./"@ + path,
                            None => "."@,
                        },
                        meta_url: "https://jsr.io/"@ + package + "/"@ + version + "_meta.json"@,
                        has_file_path: parts.file_path is Some,
                    },
                )
            },
        },
    }
}

/// The specifier under which a file of a package enters a bundle: the path
/// without leading `./` and without its `.ts` extension, after scope, name and
/// version. A package that is not written as `scope/name` has none.
pub open spec fn module_specifier_of(package: Seq<char>, version: Seq<char>, file_path: Seq<char>) -> Result<
    Seq<char>,
    Seq<char>,
> {
    match split_once(package, '/') {
        None => Err("Invalid package format"@),
        Some(named) => {
            let name = match split_once(named.1, '/') {
                Some(more) => more.0,
                None => named.1,
            };
            Ok(
                "jsr:"@ + named.0 + "/"@ + name + "@"@ + version + "/"@ + trim_end(
                    trim_start(file_path, "./"@),
                    ".ts"@,
                ),
            )
        },
    }
}

/// Where a file of a package version is to be had.
pub open spec fn package_file_url(package: Seq<char>, version: Seq<char>, file_path: Seq<char>) -> Seq<
    char,
> {
    "https://jsr.io/"@ + package + "/"@ + version + "/"@ + file_path
}

/// What an import leads to, as far as the bundler is concerned.
#[derive(Clone, Copy, Debug, PartialEq, Eq, Structural)]
pub enum ImportKind {
    /// A module beside the importing one.
    Relative,
    /// A module of a remote package.
    Remote,
    /// Anything else: left to the engine.
    Other,
}

/// What an import is taken for. An import from a remote package is refused
/// unless unstable features are enabled.
pub open spec fn import_kind(import_path: Seq<char>, unstable: bool) -> Result<ImportKind, Seq<char>> {
    if has_prefix(import_path, "./"@) || has_prefix(import_path, "../"@) {
        Ok(ImportKind::Relative)
    } else if has_prefix(import_path, "jsr:"@) {
        if unstable {
            Ok(ImportKind::Remote)
        } else {
            Err("JSR imports require --unstable flag: "@ + import_path)
        }
    } else {
        Ok(ImportKind::Other)
    }
}

/// The text ends with the given three-letter extension, in either case of
/// its two letters.
pub open spec fn has_extension(path: Seq<char>, first: char, second: char) -> bool {
    let n = path.len();
    n >= 3 && path[n - 3] == '.' && (path[n - 2] == first || path[n - 2] == upper(first)) && (path[n
        - 1] == second || path[n - 1] == upper(second))
}

/// The upper-case form of a lower-case ASCII letter.
pub open spec fn upper(c: char) -> char {
    ((c as u8) - 32) as char
}

/// The path with its last three characters replaced by the given extension.
pub open spec fn with_extension(path: Seq<char>, extension: Seq<char>) -> Seq<char> {
    path.subrange(0, path.len() - 3) + extension
}

/// The name under which a file of a package is cached: TypeScript files are
/// cached as the JavaScript they are stripped to.
pub open spec fn cache_name(file_path: Seq<char>) -> Seq<char> {
    if has_extension(file_path, 't', 's') {
        with_extension(file_path, ".js"@)
    } else {
        file_path
    }
}

/// The file of a package that a relative import inside the package means:
/// the TypeScript file behind an import of JavaScript, beside the importing
/// file, with `/` as the only separator and without leading `./`.
pub open spec fn dependency(file_path: Seq<char>, import_path: Seq<char>) -> Seq<char> {
    let source = if has_extension(import_path, 'j', 's') {
        with_extension(import_path, ".ts"@)
    } else {
        import_path
    };
    let beside = crate::specifier::join_paths(
        match file_path.index_of_last('/') {
            Some(i) => file_path.subrange(0, i),
            None => Seq::empty(),
        },
        source,
    );
    trim_start(crate::text::replace_char(beside, '\\', '/'), "./"@)
}

/// Source text with the imports of TypeScript files turned into imports of
/// the JavaScript files they are cached as: `.ts` before a closing quote, of
/// either kind, becomes `.js`.
pub open spec fn rewritten_imports(content: Seq<char>) -> Seq<char> {
    let a = replace_text(content, "from \"./\\"@, "FROM_PLACEHOLDER_"@);
    let b = replace_text(a, "from '../\\"@, "FROM_PARENT_PLACEHOLDER_"@);
    let c = replace_text(b, ".ts\""@, ".js\""@);
    let d = replace_text(c, ".ts'"@, ".js'"@);
    let e = replace_text(d, "FROM_PLACEHOLDER_"@, "from \"./"@);
    replace_text(e, "FROM_PARENT_PLACEHOLDER_"@, "from '../"@)
}

impl ParsedSpecifier {
    /// The parts as plain values.
    pub open spec fn view(&self) -> ParsedParts {
        ParsedParts {
            scope: self.scope@,
            package: self.package@,
            version: opt_text(self.version),
            file_path: opt_text(self.file_path),
        }
    }
}

impl ExportRequest {
    /// The request as plain values.
    pub open spec fn view(&self) -> ExportRequestParts {
        ExportRequestParts {
            package: self.package@,
            version: self.version@,
            export_key: self.export_key@,
            meta_url: self.meta_url@,
            has_file_path: self.has_file_path,
        }
    }
}

/// A result with both sides as plain values.
pub open spec fn parts_of(r: Result<ParsedSpecifier, String>) -> Result<ParsedParts, Seq<char>> {
    match r {
        Ok(p) => Ok(p@),
        Err(e) => Err(e@),
    }
}

/// A result with both sides as plain values.
pub open spec fn request_of(r: Result<ExportRequest, String>) -> Result<
    ExportRequestParts,
    Seq<char>,
> {
    match r {
        Ok(p) => Ok(p@),
        Err(e) => Err(e@),
    }
}

/// Cuts `s` at its first `c`.
pub fn cut_once(s: &[char], c: char) -> (r: Option<(Vec<char>, Vec<char>)>)
    ensures
        match r {
            Some(parts) => split_once(s@, c) == Some((parts.0@, parts.1@)),
            None => split_once(s@, c) is None,
        },
{
    match find_char(s, c) {
        Some(i) => Some((slice_of(s, 0, i), slice_of(s, i + 1, s.len()))),
        None => None,
    }
}

fn ends_in(path: &[char], first: char, second: char) -> (b: bool)
    requires
        'a' <= first <= 'z',
        'a' <= second <= 'z',
    ensures
        b == has_extension(path@, first, second),
{
    let n = path.len();
    if n < 3 {
        return false;
    }
    let upper_first = ((first as u8) - 32) as char;
    let upper_second = ((second as u8) - 32) as char;
    path[n - 3] == '.' && (path[n - 2] == first || path[n - 2] == upper_first) && (path[n - 1]
        == second || path[n - 1] == upper_second)
}

/// Resolves remote-package specifiers against a cache directory.
pub struct JsrResolver {
    cache_dir: String,
}

impl Default for JsrResolver {
    fn default() -> (r: Self)
        ensures
            r.cache() == "./.mdeno/jsr"@,
    {
        Self::new()
    }
}

impl JsrResolver {
    /// The directory under which fetched files are kept.
    pub closed spec fn cache(&self) -> Seq<char> {
        self.cache_dir@
    }

    /// A resolver whose cache lies under the current directory.
    pub fn new() -> (r: Self)
        ensures
            r.cache() == "./.mdeno/jsr"@,
    {
        JsrResolver { cache_dir: "./.mdeno/jsr".to_owned() }
    }

    /// A resolver whose cache lies under the given home directory.
    pub fn with_home(home: &str) -> (r: Self)
        ensures
            r.cache() == home@ + "/.mdeno/jsr"@,
    {
        let mut dir: Vec<char> = Vec::new();
        push_str(&mut dir, home);
        push_str(&mut dir, "/.mdeno/jsr");
        JsrResolver { cache_dir: string_of(dir.as_slice()) }
    }

    /// The directory under which fetched files are kept.
    pub fn cache_dir(&self) -> (dir: &str)
        ensures
            dir@ == self.cache(),
    {
        self.cache_dir.as_str()
    }

    /// Takes a remote-package specifier apart.
    pub fn parse_specifier(specifier: &str) -> (r: Result<ParsedSpecifier, String>)
        ensures
            parts_of(r) == parsed(specifier@),
    {
        let text = chars_of(specifier);
        let prefix = chars_of("jsr:");
        if !starts_with(text.as_slice(), prefix.as_slice()) {
            return Err("Not a JSR specifier".to_owned());
        }
        let body = slice_of(text.as_slice(), prefix.len(), text.len());
        let (scope, rest) = match cut_once(body.as_slice(), '/') {
            Some(parts) => parts,
            None => {
                return Err("Invalid JSR specifier format".to_owned());
            },
        };
        let (named, file_path) = match cut_once(rest.as_slice(), '/') {
            Some(parts) => (parts.0, Some(string_of(parts.1.as_slice()))),
            None => (rest, None),
        };
        let (package, version) = match cut_once(named.as_slice(), '@') {
            Some(parts) => (parts.0, Some(string_of(parts.1.as_slice()))),
            None => (named, None),
        };
        Ok(
            ParsedSpecifier {
                scope: string_of(scope.as_slice()),
                package: string_of(package.as_slice()),
                version,
                file_path,
            },
        )
    }

    /// Turns a specifier into what has to be fetched first: the metadata of
    /// the package version, and the export to look up in it.
    pub fn resolve(&self, specifier: &str) -> (r: Result<ExportRequest, String>)
        ensures
            request_of(r) == requested(specifier@),
    {
        let parsed = match Self::parse_specifier(specifier) {
            Ok(p) => p,
            Err(e) => {
                return Err(e);
            },
        };
        let version = match parsed.version {
            Some(v) => v,
            None => {
                return Err("Version must be specified in JSR import".to_owned());
            },
        };
        let mut package: Vec<char> = Vec::new();
        push_str(&mut package, parsed.scope.as_str());
        push_str(&mut package, "/");
        push_str(&mut package, parsed.package.as_str());
        let mut export_key: Vec<char> = Vec::new();
        let has_file_path = parsed.file_path.is_some();
        match &parsed.file_path {
            Some(path) => {
                push_str(&mut export_key, "./");
                push_str(&mut export_key, path.as_str());
            },
            None => {
                push_str(&mut export_key, ".");
            },
        }
        let mut meta_url: Vec<char> = Vec::new();
        push_str(&mut meta_url, "https://jsr.io/");
        push_all(&mut meta_url, package.as_slice());
        push_str(&mut meta_url, "/");
        push_str(&mut meta_url, version.as_str());
        push_str(&mut meta_url, "_meta.json");
        assert("."@ == Seq::<char>::empty() + "."@);
        Ok(
            ExportRequest {
                package: string_of(package.as_slice()),
                version,
                export_key: string_of(export_key.as_slice()),
                meta_url: string_of(meta_url.as_slice()),
                has_file_path,
            },
        )
    }

    /// What `select_export` returns: the file behind the requested export
    /// without leading `./`, or the report that the package does not export it.
    pub open spec fn export_file(key: Seq<char>, exports: Map<Seq<char>, Seq<char>>) -> Result<
        Seq<char>,
        Seq<char>,
    > {
        if exports.contains_key(key) {
            Ok(trim_start(exports[key], "./"@))
        } else {
            Err("Export '"@ + key + "' not found in package"@)
        }
    }

    /// Looks the requested export up in the metadata that was fetched.
    pub fn select_export(request: &ExportRequest, metadata: &JsrVersionMetadata) -> (r: Result<
        String,
        String,
    >)
        requires
            metadata.exports.wf(),
        ensures
            text_result(r) == Self::export_file(
                request.export_key@,
                text_views(metadata.exports@),
            ),
    {
        match metadata.exports.get(request.export_key.as_str()) {
            Some(file) => {
                let text = chars_of(file.as_str());
                let dot_slash = chars_of("./");
                let trimmed = trimmed_start(text.as_slice(), dot_slash.as_slice());
                Ok(string_of(trimmed.as_slice()))
            },
            None => {
                let mut message: Vec<char> = Vec::new();
                push_str(&mut message, "Export '");
                push_str(&mut message, request.export_key.as_str());
                push_str(&mut message, "' not found in package");
                Err(string_of(message.as_slice()))
            },
        }
    }

    /// The specifier under which a file of a package enters a bundle.
    pub fn module_specifier(package: &str, version: &str, file_path: &str) -> (r: Result<
        String,
        String,
    >)
        ensures
            text_result(r) == module_specifier_of(package@, version@, file_path@),
    {
        let text = chars_of(package);
        let (scope, rest) = match cut_once(text.as_slice(), '/') {
            Some(parts) => parts,
            None => {
                return Err("Invalid package format".to_owned());
            },
        };
        let name = match cut_once(rest.as_slice(), '/') {
            Some(parts) => parts.0,
            None => rest,
        };
        let path = chars_of(file_path);
        let dot_slash = chars_of("./");
        let ts = chars_of(".ts");
        let path = trimmed_start(path.as_slice(), dot_slash.as_slice());
        let path = trimmed_end(path.as_slice(), ts.as_slice());
        let mut out: Vec<char> = Vec::new();
        push_str(&mut out, "jsr:");
        push_all(&mut out, scope.as_slice());
        push_str(&mut out, "/");
        push_all(&mut out, name.as_slice());
        push_str(&mut out, "@");
        push_str(&mut out, version);
        push_str(&mut out, "/");
        push_all(&mut out, path.as_slice());
        Ok(string_of(out.as_slice()))
    }

    /// Where a file of a package version is to be had.
    pub fn file_url(package: &str, version: &str, file_path: &str) -> (url: String)
        ensures
            url@ == package_file_url(package@, version@, file_path@),
    {
        let mut out: Vec<char> = Vec::new();
        push_str(&mut out, "https://jsr.io/");
        push_str(&mut out, package);
        push_str(&mut out, "/");
        push_str(&mut out, version);
        push_str(&mut out, "/");
        push_str(&mut out, file_path);
        string_of(out.as_slice())
    }

    /// What an import is taken for.
    pub fn classify_import(import_path: &str, unstable: bool) -> (r: Result<ImportKind, String>)
        ensures
            match r {
                Ok(kind) => import_kind(import_path@, unstable) == Ok::<ImportKind, Seq<char>>(kind),
                Err(message) => import_kind(import_path@, unstable) == Err::<ImportKind, Seq<char>>(
                    message@,
                ),
            },
    {
        let path = chars_of(import_path);
        let here = chars_of("./");
        let up = chars_of("../");
        let remote = chars_of("jsr:");
        if starts_with(path.as_slice(), here.as_slice()) || starts_with(
            path.as_slice(),
            up.as_slice(),
        ) {
            Ok(ImportKind::Relative)
        } else if starts_with(path.as_slice(), remote.as_slice()) {
            if unstable {
                Ok(ImportKind::Remote)
            } else {
                let mut message: Vec<char> = Vec::new();
                push_str(&mut message, "JSR imports require --unstable flag: ");
                push_all(&mut message, path.as_slice());
                Err(string_of(message.as_slice()))
            }
        } else {
            Ok(ImportKind::Other)
        }
    }

    /// The name under which a file of a package is cached.
    pub fn cache_file_name(file_path: &str) -> (name: String)
        ensures
            name@ == cache_name(file_path@),
    {
        let path = chars_of(file_path);
        if ends_in(path.as_slice(), 't', 's') {
            let mut out = slice_of(path.as_slice(), 0, path.len() - 3);
            push_str(&mut out, ".js");
            string_of(out.as_slice())
        } else {
            file_path.to_owned()
        }
    }

    /// The file of a package that a relative import inside the package
    /// means.
    pub fn dependency_path(file_path: &str, import_path: &str) -> (path: String)
        ensures
            path@ == dependency(file_path@, import_path@),
    {
        let import = chars_of(import_path);
        let source = if ends_in(import.as_slice(), 'j', 's') {
            let mut out = slice_of(import.as_slice(), 0, import.len() - 3);
            push_str(&mut out, ".ts");
            out
        } else {
            import
        };
        let file = chars_of(file_path);
        let directory = match rfind_char(file.as_slice(), '/') {
            Some(i) => slice_of(file.as_slice(), 0, i),
            None => Vec::new(),
        };
        let beside = crate::specifier::joined(directory.as_slice(), source.as_slice());
        let slashed = replace(beside.as_slice(), '\\', '/');
        let dot_slash = chars_of("./");
        let trimmed = trimmed_start(slashed.as_slice(), dot_slash.as_slice());
        string_of(trimmed.as_slice())
    }

    /// Rewrites the imports of TypeScript files in a fetched source.
    pub fn rewrite_ts_imports(content: &str) -> (out: String)
        ensures
            out@ == rewritten_imports(content@),
    {
        let text = chars_of(content);
        let here = chars_of("from \"./\\");
        let here_mark = chars_of("FROM_PLACEHOLDER_");
        let up = chars_of("from '../\\");
        let up_mark = chars_of("FROM_PARENT_PLACEHOLDER_");
        let a = replace_all(text.as_slice(), here.as_slice(), here_mark.as_slice());
        let b = replace_all(a.as_slice(), up.as_slice(), up_mark.as_slice());
        let ts_double = chars_of(".ts\"");
        let js_double = chars_of(".js\"");
        let ts_single = chars_of(".ts'");
        let js_single = chars_of(".js'");
        let c = replace_all(b.as_slice(), ts_double.as_slice(), js_double.as_slice());
        let d = replace_all(c.as_slice(), ts_single.as_slice(), js_single.as_slice());
        let here_back = chars_of("from \"./");
        let up_back = chars_of("from '../");
        let e = replace_all(d.as_slice(), here_mark.as_slice(), here_back.as_slice());
        let f = replace_all(e.as_slice(), up_mark.as_slice(), up_back.as_slice());
        string_of(f.as_slice())
    }
}

} // verus!
