//! Paths of the host's file system as text: `file://` URLs and the plain
//! rendering of a path without Windows' verbatim prefixes.
//!
//! What a path consists of is asked of the standard library, which knows the
//! platform's rules. What is made of the parts is decided here.

use std::path::{Component, Path, PathBuf, Prefix};
use vstd::prelude::*;
use crate::specifier::{file_url_on, file_url};
use crate::text::{chars_of, string_of, push_all, push_str, replace_all, replace_text};

verus! {

/// `std::path::Path`, carried through as an opaque value.
#[verifier::external_type_specification]
#[verifier::external_body]
pub struct ExPath(Path);

/// `std::path::PathBuf`, carried through as an opaque value.
#[verifier::external_type_specification]
#[verifier::external_body]
pub struct ExPathBuf(PathBuf);

/// One component of a path, as text.
pub enum PathPart {
    /// A verbatim disk prefix, `\\?\C:`: the drive letter as the standard
    /// library reads it, and the prefix as written.
    VerbatimDisk(u8, String),
    /// A verbatim UNC prefix, `\\?\UNC\server\share`: server and share.
    VerbatimUnc(String, String),
    /// A verbatim prefix, `\\?\device`: the device, and the prefix as written.
    Verbatim(String, String),
    /// Any other prefix, as written.
    Prefix(String),
    /// The root directory.
    Root,
    /// A reference to the current directory, `.`.
    Current,
    /// A reference to the parent directory, `..`.
    Parent,
    /// A normal component: the name of a file or directory.
    Normal(String),
}

/// The components that `Path::components` of the standard library gives for
/// a path, in order, each with its text.
pub uninterp spec fn components_of(path: &Path) -> Seq<PathPart>;

/// The text that `Path::display` of the standard library shows for a path.
pub uninterp spec fn shown_text(path: &Path) -> Seq<char>;

/// The path that `PathBuf::as_path` of the standard library gives for an
/// owned path.
pub uninterp spec fn borrowed(path: &PathBuf) -> &Path;

/// Asks `Path::components` of the standard library for the components of the
/// path and converts each, variant by variant, into a `PathPart` that holds its
/// text. A prefix is told apart by `PrefixComponent::kind`. Text that is not
/// Unicode is converted lossily. The contract gives the result its name.
#[verifier::external_body]
fn path_parts(path: &Path) -> (parts: Vec<PathPart>)
    ensures
        parts@ == components_of(path),
{
    path.components().map(|c| match c {
        Component::Prefix(p) => match (p.kind(), p.as_os_str().to_string_lossy().into_owned()) {
            (Prefix::VerbatimDisk(d), raw) => PathPart::VerbatimDisk(d, raw),
            (Prefix::VerbatimUNC(a, b), _) => PathPart::VerbatimUnc(
                a.to_string_lossy().into_owned(), b.to_string_lossy().into_owned()),
            (Prefix::Verbatim(a), raw) => PathPart::Verbatim(a.to_string_lossy().into_owned(), raw),
            (_, raw) => PathPart::Prefix(raw),
        },
        Component::RootDir => PathPart::Root,
        Component::CurDir => PathPart::Current,
        Component::ParentDir => PathPart::Parent,
        Component::Normal(s) => PathPart::Normal(s.to_string_lossy().into_owned()),
    }).collect()
}

/// The text of a path as `Path::display` of the standard library shows it.
/// The contract gives the result its name.
#[verifier::external_body]
pub(crate) fn path_text(path: &Path) -> (text: String)
    ensures
        text@ == shown_text(path),
{
    path.display().to_string()
}

/// `std::path::MAIN_SEPARATOR`: the separator of path components on this
/// platform, which the standard library documents as `/` on Unix and `\` on
/// Windows.
#[verifier::external_body]
pub(crate) fn main_separator() -> (c: char)
    ensures
        c == '/' || c == '\\',
{
    std::path::MAIN_SEPARATOR
}

/// The path that `PathBuf::from` of the standard library makes of a text. It
/// holds the text as it is, so the path shows as that text.
#[verifier::external_body]
fn path_from_text(text: String) -> (path: PathBuf)
    ensures
        shown_text(borrowed(&path)) == text@,
{
    PathBuf::from(text)
}

/// The path behind a `PathBuf`, by `PathBuf::as_path` of the standard library.
/// The contract gives the result its name.
#[verifier::external_body]
fn as_path(path: &PathBuf) -> (p: &Path)
    ensures
        p == borrowed(path),
{
    path.as_path()
}

/// The text of a verbatim disk prefix without its verbatim part: the drive
/// letter and a colon.
pub open spec fn disk_text(disk: u8) -> Seq<char> {
    seq![disk as char, ':']
}

/// What one more component adds to the text of a path. A prefix is written
/// without its verbatim part where it has a plain form. The root is one
/// separator. A normal component follows a separator, which is added unless the
/// text is empty or ends with one. References to the current and the parent
/// directory are left out.
pub open spec fn with_part(text: Seq<char>, part: PathPart, sep: char) -> Seq<char> {
    match part {
        PathPart::VerbatimDisk(disk, _) => text + disk_text(disk),
        PathPart::VerbatimUnc(server, share) => text + seq!['\\', '\\'] + server@ + seq!['\\']
            + share@,
        PathPart::Verbatim(_, raw) => text + raw@,
        PathPart::Prefix(raw) => text + raw@,
        PathPart::Root => text.push(sep),
        PathPart::Normal(name) => if text.len() > 0 && text.last() != sep {
            text.push(sep) + name@
        } else {
            text + name@
        },
        PathPart::Current => text,
        PathPart::Parent => text,
    }
}

/// The text of a path made of the given components.
pub open spec fn rendered(parts: Seq<PathPart>, sep: char) -> Seq<char>
    decreases parts.len(),
{
    if parts.len() == 0 {
        Seq::empty()
    } else {
        with_part(rendered(parts.drop_last(), sep), parts.last(), sep)
    }
}

/// The mark of a verbatim prefix, `\\?\`.
pub open spec fn verbatim_mark() -> Seq<char> {
    seq!['\\', '\\', '?', '\\']
}

/// What one more component adds to the text of a path that is put together
/// again component by component. As `with_part`, but references to the current
/// and the parent directory are kept, written `.` and `..` as a name would be.
pub open spec fn with_step(text: Seq<char>, part: PathPart, sep: char) -> Seq<char> {
    match part {
        PathPart::Current => named(text, seq!['.'], sep),
        PathPart::Parent => named(text, seq!['.', '.'], sep),
        _ => with_part(text, part, sep),
    }
}

/// The text with one more name: after a separator, which is added unless the
/// text is empty or ends with one.
pub open spec fn named(text: Seq<char>, name: Seq<char>, sep: char) -> Seq<char> {
    if text.len() > 0 && text.last() != sep {
        text.push(sep) + name
    } else {
        text + name
    }
}

/// The text of a path without the verbatim prefix that it begins with, or
/// `None` where it begins with none. A verbatim device becomes the UNC form
/// `\\device\`, a verbatim UNC prefix the plain one, `\\server\share\`, each
/// followed by the components after it except the root; a verbatim disk becomes
/// the prefix as it was written less the verbatim mark, and keeps its root.
pub open spec fn stripped(parts: Seq<PathPart>, sep: char) -> Option<Seq<char>> {
    if parts.len() == 0 {
        None
    } else {
        let rest = parts.subrange(1, parts.len() as int);
        match parts[0] {
            PathPart::Verbatim(device, _) => Some(
                after(seq!['\\', '\\'] + device@ + seq!['\\'], rest, sep, false),
            ),
            PathPart::VerbatimDisk(_, raw) => Some(
                after(replace_text(raw@, verbatim_mark(), Seq::empty()), rest, sep, true),
            ),
            PathPart::VerbatimUnc(server, share) => Some(
                after(
                    seq!['\\', '\\'] + server@ + seq!['\\'] + share@ + seq!['\\'],
                    rest,
                    sep,
                    false,
                ),
            ),
            _ => None,
        }
    }
}

/// The text `head` followed by the given components, every one of them but,
/// where `keep_root` is not set, the root.
pub open spec fn after(head: Seq<char>, parts: Seq<PathPart>, sep: char, keep_root: bool) -> Seq<
    char,
>
    decreases parts.len(),
{
    if parts.len() == 0 {
        head
    } else {
        let before = after(head, parts.drop_last(), sep, keep_root);
        if !keep_root && parts.last() is Root {
            before
        } else {
            with_step(before, parts.last(), sep)
        }
    }
}

fn add_part(out: &mut Vec<char>, part: &PathPart, sep: char)
    ensures
        final(out)@ == with_part(old(out)@, *part, sep),
{
    match part {
        PathPart::VerbatimDisk(disk, _) => {
            out.push(*disk as char);
            out.push(':');
            assert(out@ == old(out)@ + disk_text(*disk));
        },
        PathPart::VerbatimUnc(server, share) => {
            out.push('\\');
            out.push('\\');
            push_str(out, server.as_str());
            out.push('\\');
            push_str(out, share.as_str());
            assert(out@ == old(out)@ + seq!['\\', '\\'] + server@ + seq!['\\'] + share@);
        },
        PathPart::Verbatim(_, raw) => {
            push_str(out, raw.as_str());
        },
        PathPart::Prefix(raw) => {
            push_str(out, raw.as_str());
        },
        PathPart::Root => {
            out.push(sep);
        },
        PathPart::Normal(name) => {
            if out.len() > 0 && out[out.len() - 1] != sep {
                out.push(sep);
            }
            push_str(out, name.as_str());
        },
        PathPart::Current => {},
        PathPart::Parent => {},
    }
}

fn add_name(out: &mut Vec<char>, name: &[char], sep: char)
    ensures
        final(out)@ == named(old(out)@, name@, sep),
{
    if out.len() > 0 && out[out.len() - 1] != sep {
        out.push(sep);
    }
    push_all(out, name);
}

fn add_step(out: &mut Vec<char>, part: &PathPart, sep: char)
    ensures
        final(out)@ == with_step(old(out)@, *part, sep),
{
    match part {
        PathPart::Current => {
            let dot: [char; 1] = ['.'];
            assert(dot@ == seq!['.']);
            add_name(out, dot.as_slice(), sep);
        },
        PathPart::Parent => {
            let dots: [char; 2] = ['.', '.'];
            assert(dots@ == seq!['.', '.']);
            add_name(out, dots.as_slice(), sep);
        },
        _ => {
            add_part(out, part, sep);
        },
    }
}

/// The text of a path made of the given components, with `sep` between them.
pub fn render_parts(parts: &Vec<PathPart>, sep: char) -> (text: String)
    ensures
        text@ == rendered(parts@, sep),
{
    let mut out: Vec<char> = Vec::new();
    let mut i: usize = 0;
    assert(parts@.take(0) == Seq::<PathPart>::empty());
    while i < parts.len()
        invariant
            i <= parts.len(),
            out@ == rendered(parts@.take(i as int), sep),
        decreases parts.len() - i,
    {
        assert(parts@.take(i + 1).drop_last() == parts@.take(i as int));
        assert(parts@.take(i + 1).last() == parts@[i as int]);
        add_part(&mut out, &parts[i], sep);
        i += 1;
    }
    assert(parts@.take(parts.len() as int) == parts@);
    string_of(out.as_slice())
}

fn add_rest(out: &mut Vec<char>, parts: &Vec<PathPart>, sep: char, keep_root: bool)
    requires
        parts.len() > 0,
    ensures
        final(out)@ == after(old(out)@, parts@.subrange(1, parts@.len() as int), sep, keep_root),
{
    let ghost rest = parts@.subrange(1, parts@.len() as int);
    let mut i: usize = 1;
    assert(rest.take(0) == Seq::<PathPart>::empty());
    while i < parts.len()
        invariant
            1 <= i <= parts.len(),
            rest == parts@.subrange(1, parts@.len() as int),
            out@ == after(old(out)@, rest.take(i - 1), sep, keep_root),
        decreases parts.len() - i,
    {
        assert(rest.take(i as int).drop_last() == rest.take(i - 1));
        assert(rest.take(i as int).last() == parts@[i as int]);
        let is_root = match parts[i] {
            PathPart::Root => true,
            _ => false,
        };
        if keep_root || !is_root {
            add_step(out, &parts[i], sep);
        }
        i += 1;
    }
    assert(rest.take(parts.len() - 1) == rest);
}

/// The text of a path without the verbatim prefix that it begins with.
pub fn strip_verbatim(parts: &Vec<PathPart>, sep: char) -> (r: Option<String>)
    ensures
        match r {
            Some(text) => stripped(parts@, sep) == Some(text@),
            None => stripped(parts@, sep) is None,
        },
{
    if parts.len() == 0 {
        return None;
    }
    let mut out: Vec<char> = Vec::new();
    match &parts[0] {
        PathPart::Verbatim(device, _) => {
            out.push('\\');
            out.push('\\');
            push_str(&mut out, device.as_str());
            out.push('\\');
            assert(out@ == seq!['\\', '\\'] + device@ + seq!['\\']);
            add_rest(&mut out, parts, sep, false);
        },
        PathPart::VerbatimDisk(_, raw) => {
            let written = chars_of(raw.as_str());
            let mark: [char; 4] = ['\\', '\\', '?', '\\'];
            let nothing: [char; 0] = [];
            assert(mark@ == verbatim_mark());
            assert(nothing@ == Seq::<char>::empty());
            out = replace_all(written.as_slice(), mark.as_slice(), nothing.as_slice());
            add_rest(&mut out, parts, sep, true);
        },
        PathPart::VerbatimUnc(server, share) => {
            out.push('\\');
            out.push('\\');
            push_str(&mut out, server.as_str());
            out.push('\\');
            push_str(&mut out, share.as_str());
            out.push('\\');
            assert(out@ == seq!['\\', '\\'] + server@ + seq!['\\'] + share@ + seq!['\\']);
            add_rest(&mut out, parts, sep, false);
        },
        _ => {
            return None;
        },
    }
    Some(string_of(out.as_slice()))
}

/// The `file://` URL of a path given as text, on Windows or on another
/// platform.
pub fn text_to_file_url(path: &str, windows: bool) -> (url: String)
    ensures
        url@ == file_url_on(path@, windows),
{
    let text = chars_of(path);
    let url = file_url(text.as_slice(), windows);
    string_of(url.as_slice())
}

/// The text of which `to_file_url` makes the URL: the path without the
/// verbatim prefix that it begins with, or as it is shown where it begins with
/// none.
pub open spec fn url_text(path: &Path) -> Seq<char> {
    match stripped(components_of(path), '\\') {
        Some(text) => text,
        None => shown_text(path),
    }
}

/// The `file://` URL of a path of this platform: the URL of the path without
/// the verbatim prefix that it begins with, in the form of this platform.
pub fn to_file_url(path: &Path) -> (url: String)
    ensures
        url@ == file_url_on(url_text(path), false) || url@ == file_url_on(url_text(path), true),
{
    let parts = path_parts(path);
    let windows = main_separator() == '\\';
    match strip_verbatim(&parts, '\\') {
        Some(text) => text_to_file_url(text.as_str(), windows),
        None => {
            let text = path_text(path);
            text_to_file_url(text.as_str(), windows)
        },
    }
}

/// The plain text of a path: its components as the standard library tells
/// them apart, rendered with the platform's separator and without verbatim
/// prefixes.
pub fn normalize_path(path: &Path) -> (text: String)
    ensures
        text@ == rendered(components_of(path), '/') || text@ == rendered(
            components_of(path),
            '\\',
        ),
{
    let parts = path_parts(path);
    let sep = main_separator();
    render_parts(&parts, sep)
}

/// The path without the verbatim prefix (`\\?\`) that it begins with: the path
/// that shows as the text of its components without that prefix. Verbatim
/// prefixes are Windows', so that text is written with Windows' separator. A
/// path that begins with no such prefix is handed back as it came.
pub fn strip_unc_prefix(path: PathBuf) -> (stripped_path: PathBuf)
    ensures
        match stripped(components_of(borrowed(&path)), '\\') {
            Some(text) => shown_text(borrowed(&stripped_path)) == text,
            None => stripped_path == path,
        },
{
    let parts = path_parts(as_path(&path));
    match strip_verbatim(&parts, '\\') {
        Some(text) => path_from_text(text),
        None => path,
    }
}

} // verus!
