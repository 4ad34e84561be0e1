//! Module specifiers and the lexical path algebra of relative resolution.
//!
//! A specifier is a piece of text that names a module within one resolution
//! session: a built-in name, an absolute file path, a `file://` URL, a bundle
//! key, or a remote-package specifier. Paths inside specifiers are separated by
//! `/`. Nothing here touches a file system: joining and normalizing are purely
//! textual.

use vstd::prelude::*;
use crate::text::{
    has_prefix, has_suffix, strip_suffix, replace_char, chars_of, starts_with, ends_with,
    push_all, rfind_char, slice_of, replace,
};

verus! {

/// The scheme prefix of a remote-package specifier.
pub open spec fn remote_prefix() -> Seq<char> {
    seq!['j', 's', 'r', ':']
}

/// The prefix of a `file://` URL.
pub open spec fn file_url_prefix() -> Seq<char> {
    seq!['f', 'i', 'l', 'e', ':', '/', '/']
}

/// The file extension of TypeScript sources.
pub open spec fn ts_extension() -> Seq<char> {
    seq!['.', 't', 's']
}

/// The file extension of JavaScript sources.
pub open spec fn js_extension() -> Seq<char> {
    seq!['.', 'j', 's']
}

/// The segment that stands for the directory itself.
pub open spec fn dot() -> Seq<char> {
    seq!['.']
}

/// The segment that stands for the parent directory.
pub open spec fn dot_dot() -> Seq<char> {
    seq!['.', '.']
}

/// The specifier is a remote-package specifier.
pub open spec fn is_remote(s: Seq<char>) -> bool {
    has_prefix(s, remote_prefix())
}

/// The specifier is written relative to the importing module.
pub open spec fn is_relative(s: Seq<char>) -> bool {
    has_prefix(s, seq!['.', '/']) || has_prefix(s, seq!['.', '.', '/'])
}

/// The specifier names a TypeScript source.
pub open spec fn is_typescript(s: Seq<char>) -> bool {
    has_suffix(s, ts_extension())
}

/// The forms that a specifier takes, told apart by how it is written.
#[derive(Clone, Copy, Debug, PartialEq, Eq, Structural)]
pub enum SpecifierKind {
    /// A remote-package specifier, `jsr:@scope/package@version/path`.
    Remote,
    /// A `file://` URL.
    FileUrl,
    /// A request relative to the importing module, `./x` or `../x`.
    Relative,
    /// An absolute file path.
    AbsolutePath,
    /// A bare name: that of a built-in module, or a key of a bundle.
    Name,
}

/// The form of a specifier.
pub open spec fn kind_of(s: Seq<char>) -> SpecifierKind {
    if is_remote(s) {
        SpecifierKind::Remote
    } else if has_prefix(s, file_url_prefix()) {
        SpecifierKind::FileUrl
    } else if is_relative(s) {
        SpecifierKind::Relative
    } else if is_absolute(s) {
        SpecifierKind::AbsolutePath
    } else {
        SpecifierKind::Name
    }
}

/// `s` cut at every `sep`: the pieces between the separators, in order. There
/// is always at least one piece, and an empty one wherever two separators
/// meet or `s` begins or ends with one.
pub open spec fn split(s: Seq<char>, sep: char) -> Seq<Seq<char>>
    decreases s.len(),
{
    if s.len() == 0 {
        seq![Seq::<char>::empty()]
    } else {
        let before = split(s.drop_last(), sep);
        if s.last() == sep {
            before.push(Seq::<char>::empty())
        } else {
            before.drop_last().push(before.last().push(s.last()))
        }
    }
}

/// The pieces put together again with `sep` between each two.
pub open spec fn join(pieces: Seq<Seq<char>>, sep: char) -> Seq<char>
    decreases pieces.len(),
{
    if pieces.len() == 0 {
        Seq::<char>::empty()
    } else if pieces.len() == 1 {
        pieces[0]
    } else {
        join(pieces.drop_last(), sep).push(sep) + pieces.last()
    }
}

/// One step of normalization: what the segments seen so far become when
/// `segment` follows them.
pub open spec fn follow(kept: Seq<Seq<char>>, segment: Seq<char>, absolute: bool) -> Seq<
    Seq<char>,
> {
    if segment.len() == 0 || segment == dot() {
        kept
    } else if segment == dot_dot() {
        if kept.len() > 0 && kept.last() != dot_dot() {
            kept.drop_last()
        } else if absolute {
            kept
        } else {
            kept.push(segment)
        }
    } else {
        kept.push(segment)
    }
}

/// The segments of a path with empty and `.` segments dropped and each `..`
/// resolved against the segment before it. A `..` with nothing before it is
/// dropped at the root of an absolute path and kept in a relative one.
pub open spec fn resolve_dots(segments: Seq<Seq<char>>, absolute: bool) -> Seq<Seq<char>>
    decreases segments.len(),
{
    if segments.len() == 0 {
        Seq::<Seq<char>>::empty()
    } else {
        follow(resolve_dots(segments.drop_last(), absolute), segments.last(), absolute)
    }
}

/// The path begins at the root.
pub open spec fn is_absolute(path: Seq<char>) -> bool {
    path.len() > 0 && path[0] == '/'
}

/// The normal form of a path: no empty, `.` or resolvable `..` segment, no
/// trailing separator, and a leading `/` exactly where the path had one.
pub open spec fn normalize(path: Seq<char>) -> Seq<char> {
    let body = join(resolve_dots(split(path, '/'), is_absolute(path)), '/');
    if is_absolute(path) {
        seq!['/'] + body
    } else {
        body
    }
}

/// The directory part of a path: what stands before its last `/`; the root
/// itself where that `/` is the first character; nothing where there is none.
pub open spec fn parent_dir(path: Seq<char>) -> Seq<char> {
    match path.index_of_last('/') {
        Some(i) => if i == 0 {
            seq!['/']
        } else {
            path.subrange(0, i)
        },
        None => Seq::<char>::empty(),
    }
}

/// `relative` appended to the directory `root`, with one separator between
/// them where `root` is not empty and does not end with one.
pub open spec fn join_paths(root: Seq<char>, relative: Seq<char>) -> Seq<char> {
    if root.len() == 0 {
        relative
    } else if root.last() == '/' {
        root + relative
    } else {
        root.push('/') + relative
    }
}

/// Where a relative request leads from `base`: joined to the directory of
/// `base` when `base` names a file, to `base` itself when it names a
/// directory, and normalized.
pub open spec fn resolve_relative(
    base: Seq<char>,
    requested: Seq<char>,
    base_is_file: bool,
) -> Seq<char> {
    let root = if base_is_file {
        parent_dir(base)
    } else {
        base
    };
    normalize(join_paths(root, requested))
}

/// A module path without its `.ts` or `.js` extension. Remote packages are
/// keyed without extension, so both spellings of an import meet in one key.
pub open spec fn without_module_extension(path: Seq<char>) -> Seq<char> {
    if has_suffix(path, ts_extension()) {
        strip_suffix(path, ts_extension())
    } else {
        strip_suffix(path, js_extension())
    }
}

/// Where a relative request leads from a module of a remote package: the
/// last segment of `base` gives way to `requested`, the result is normalized
/// and loses its extension. The result stays a specifier of the package's own
/// namespace and is never a file path.
pub open spec fn rebase_in_package(base: Seq<char>, requested: Seq<char>) -> Seq<char> {
    without_module_extension(normalize(join_paths(parent_dir(base), requested)))
}

/// The `file://` URL of a path on a platform. Backslashes become `/`. Where
/// the platform is not Windows the path follows the prefix directly; on
/// Windows, where a path begins with a drive letter, it follows one more `/`.
pub open spec fn file_url_on(path: Seq<char>, windows: bool) -> Seq<char> {
    let slashed = replace_char(path, '\\', '/');
    if windows {
        file_url_prefix().push('/') + slashed
    } else {
        file_url_prefix() + slashed
    }
}

/// The shape of a `file://` URL: it begins with the prefix, holds no
/// backslash, and is as long as the prefix and the path together, with one
/// more character on Windows. On another platform it ends with the path itself
/// where the path holds no backslash.
pub proof fn law_file_url_shape(path: Seq<char>, windows: bool)
    ensures
        has_prefix(file_url_on(path, windows), file_url_prefix()),
        !file_url_on(path, windows).contains('\\'),
        file_url_on(path, windows).len() == 7 + path.len() + if windows {
            1nat
        } else {
            0nat
        },
        !windows && !path.contains('\\') ==> file_url_on(path, windows) == file_url_prefix() + path,
{
    let url = file_url_on(path, windows);
    let slashed = replace_char(path, '\\', '/');
    assert(url.subrange(0, 7) =~= file_url_prefix());
    assert forall|i: int| 0 <= i < url.len() implies url[i] != '\\' by {
        if i >= 7 {
            if windows {
                if i >= 8 {
                    assert(url[i] == slashed[i - 8]);
                }
            } else {
                assert(url[i] == slashed[i - 7]);
            }
        }
    }
    if !path.contains('\\') {
        assert forall|i: int| 0 <= i < path.len() implies slashed[i] == path[i] by {
            if path[i] == '\\' {
                assert(path.contains('\\'));
            }
        }
        assert(slashed =~= path);
    }
}

/// The view of each piece.
pub open spec fn pieces_view(pieces: Seq<Vec<char>>) -> Seq<Seq<char>> {
    Seq::new(pieces.len(), |i: int| pieces[i]@)
}

/// Whether the specifier is a remote-package specifier.
pub fn check_remote(s: &[char]) -> (r: bool)
    ensures
        r == is_remote(s@),
{
    let prefix: [char; 4] = ['j', 's', 'r', ':'];
    assert(prefix@ == remote_prefix());
    starts_with(s, prefix.as_slice())
}

/// Whether the specifier is written relative to the importing module.
pub fn check_relative(s: &[char]) -> (r: bool)
    ensures
        r == is_relative(s@),
{
    let here: [char; 2] = ['.', '/'];
    let up: [char; 3] = ['.', '.', '/'];
    assert(here@ == seq!['.', '/']);
    assert(up@ == seq!['.', '.', '/']);
    starts_with(s, here.as_slice()) || starts_with(s, up.as_slice())
}

/// The form of a specifier.
pub fn classify(specifier: &str) -> (kind: SpecifierKind)
    ensures
        kind == kind_of(specifier@),
{
    let s = chars_of(specifier);
    let url: [char; 7] = ['f', 'i', 'l', 'e', ':', '/', '/'];
    assert(url@ == file_url_prefix());
    if check_remote(s.as_slice()) {
        SpecifierKind::Remote
    } else if starts_with(s.as_slice(), url.as_slice()) {
        SpecifierKind::FileUrl
    } else if check_relative(s.as_slice()) {
        SpecifierKind::Relative
    } else if s.len() > 0 && s[0] == '/' {
        SpecifierKind::AbsolutePath
    } else {
        SpecifierKind::Name
    }
}

/// Whether the specifier names a TypeScript source.
pub fn check_typescript(s: &[char]) -> (r: bool)
    ensures
        r == is_typescript(s@),
{
    let ext: [char; 3] = ['.', 't', 's'];
    assert(ext@ == ts_extension());
    ends_with(s, ext.as_slice())
}

/// The `file://` URL of a path on a platform: Windows or any other.
pub fn file_url(path: &[char], windows: bool) -> (out: Vec<char>)
    ensures
        out@ == file_url_on(path@, windows),
{
    let slashed = replace(path, '\\', '/');
    let prefix: [char; 7] = ['f', 'i', 'l', 'e', ':', '/', '/'];
    assert(prefix@ == file_url_prefix());
    let mut out: Vec<char> = Vec::new();
    push_all(&mut out, prefix.as_slice());
    if windows {
        out.push('/');
    }
    push_all(&mut out, slashed.as_slice());
    out
}

/// Cuts `s` at every `sep`.
pub fn split_at_each(s: &[char], sep: char) -> (pieces: Vec<Vec<char>>)
    ensures
        pieces_view(pieces@) == split(s@, sep),
{
    let mut done: Vec<Vec<char>> = Vec::new();
    let mut current: Vec<char> = Vec::new();
    let mut i: usize = 0;
    assert(s@.take(0) == Seq::<char>::empty());
    assert(pieces_view(done@).push(current@) == split(s@.take(0), sep));
    while i < s.len()
        invariant
            i <= s.len(),
            pieces_view(done@).push(current@) == split(s@.take(i as int), sep),
        decreases s.len() - i,
    {
        let ghost before = pieces_view(done@).push(current@);
        assert(s@.take(i + 1).drop_last() == s@.take(i as int));
        assert(s@.take(i + 1).last() == s@[i as int]);
        if s[i] == sep {
            done.push(current);
            current = Vec::new();
            assert(pieces_view(done@).push(current@) == before.push(Seq::<char>::empty()));
        } else {
            current.push(s[i]);
            assert(pieces_view(done@).push(current@) == before.drop_last().push(
                before.last().push(s@[i as int]),
            ));
        }
        i += 1;
    }
    assert(s@.take(s.len() as int) == s@);
    done.push(current);
    assert(pieces_view(done@) == split(s@, sep));
    done
}

/// Puts the pieces together with `sep` between each two.
pub fn join_with(pieces: &Vec<Vec<char>>, sep: char) -> (s: Vec<char>)
    ensures
        s@ == join(pieces_view(pieces@), sep),
{
    let mut out: Vec<char> = Vec::new();
    let mut i: usize = 0;
    assert(pieces_view(pieces@).take(0) == Seq::<Seq<char>>::empty());
    while i < pieces.len()
        invariant
            i <= pieces.len(),
            out@ == join(pieces_view(pieces@).take(i as int), sep),
        decreases pieces.len() - i,
    {
        let ghost upto = pieces_view(pieces@).take(i + 1);
        assert(upto.drop_last() == pieces_view(pieces@).take(i as int));
        assert(upto.last() == pieces@[i as int]@);
        if i > 0 {
            out.push(sep);
        }
        push_all(&mut out, pieces[i].as_slice());
        assert(out@ == join(upto, sep)) by {
            if i == 0 {
                assert(join(upto.drop_last(), sep) == Seq::<char>::empty());
                assert(upto[0] == upto.last());
            }
        }
        i += 1;
    }
    assert(pieces_view(pieces@).take(pieces.len() as int) == pieces_view(pieces@));
    out
}

/// The normal form of a path.
pub fn normalized(path: &[char]) -> (out: Vec<char>)
    ensures
        out@ == normalize(path@),
{
    let absolute = path.len() > 0 && path[0] == '/';
    let segments = split_at_each(path, '/');
    let mut kept: Vec<Vec<char>> = Vec::new();
    let mut i: usize = 0;
    let ghost all = pieces_view(segments@);
    assert(all.take(0) == Seq::<Seq<char>>::empty());
    assert(pieces_view(kept@) == Seq::<Seq<char>>::empty());
    while i < segments.len()
        invariant
            i <= segments.len(),
            all == pieces_view(segments@),
            pieces_view(kept@) == resolve_dots(all.take(i as int), absolute),
        decreases segments.len() - i,
    {
        let ghost before = pieces_view(kept@);
        assert(all.take(i + 1).drop_last() == all.take(i as int));
        assert(all.take(i + 1).last() == segments@[i as int]@);
        let segment = &segments[i];
        let is_dot = segment.len() == 1 && segment[0] == '.';
        let is_dot_dot = segment.len() == 2 && segment[0] == '.' && segment[1] == '.';
        assert(is_dot <==> segment@ =~= dot());
        assert(is_dot_dot <==> segment@ =~= dot_dot());
        if segment.len() == 0 || is_dot {
        } else if is_dot_dot {
            let n = kept.len();
            let last_is_up = n > 0 && kept[n - 1].len() == 2 && kept[n - 1][0] == '.' && kept[n
                - 1][1] == '.';
            assert(n > 0 ==> (last_is_up == (before.last() == dot_dot()))) by {
                if n > 0 {
                    assert(before.last() == kept@[n - 1]@);
                    assert(kept@[n - 1]@ =~= dot_dot() <==> (kept@[n - 1]@.len() == 2 && kept@[n
                        - 1]@[0] == '.' && kept@[n - 1]@[1] == '.'));
                }
            }
            if n > 0 && !last_is_up {
                kept.pop();
                assert(pieces_view(kept@) == before.drop_last());
            } else if absolute {
            } else {
                kept.push(slice_of(segment.as_slice(), 0, segment.len()));
                assert(segment@.subrange(0, segment@.len() as int) == segment@);
                assert(pieces_view(kept@) == before.push(segment@));
            }
        } else {
            kept.push(slice_of(segment.as_slice(), 0, segment.len()));
            assert(segment@.subrange(0, segment@.len() as int) == segment@);
            assert(pieces_view(kept@) == before.push(segment@));
        }
        i += 1;
    }
    assert(all.take(segments.len() as int) == all);
    let body = join_with(&kept, '/');
    if absolute {
        let mut out: Vec<char> = Vec::new();
        out.push('/');
        push_all(&mut out, body.as_slice());
        assert(out@ == seq!['/'] + body@);
        out
    } else {
        body
    }
}

/// The directory part of a path.
pub fn parent_of(path: &[char]) -> (out: Vec<char>)
    ensures
        out@ == parent_dir(path@),
{
    match rfind_char(path, '/') {
        Some(i) => {
            if i == 0 {
                let mut out: Vec<char> = Vec::new();
                out.push('/');
                assert(out@ == seq!['/']);
                out
            } else {
                slice_of(path, 0, i)
            }
        },
        None => Vec::new(),
    }
}

/// `relative` appended to the directory `root`.
pub fn joined(root: &[char], relative: &[char]) -> (out: Vec<char>)
    ensures
        out@ == join_paths(root@, relative@),
{
    let mut out: Vec<char> = Vec::new();
    push_all(&mut out, root);
    if root.len() > 0 && root[root.len() - 1] != '/' {
        out.push('/');
    }
    push_all(&mut out, relative);
    out
}

/// Where a relative request leads from `base`.
pub fn relative_target(base: &[char], requested: &[char], base_is_file: bool) -> (out: Vec<char>)
    ensures
        out@ == resolve_relative(base@, requested@, base_is_file),
{
    if base_is_file {
        let root = parent_of(base);
        let raw = joined(root.as_slice(), requested);
        normalized(raw.as_slice())
    } else {
        let raw = joined(base, requested);
        normalized(raw.as_slice())
    }
}

/// A module path without its `.ts` or `.js` extension.
pub fn extension_stripped(path: &[char]) -> (out: Vec<char>)
    ensures
        out@ == without_module_extension(path@),
{
    let ts: [char; 3] = ['.', 't', 's'];
    let js: [char; 3] = ['.', 'j', 's'];
    assert(ts@ == ts_extension());
    assert(js@ == js_extension());
    if ends_with(path, ts.as_slice()) || ends_with(path, js.as_slice()) {
        slice_of(path, 0, path.len() - 3)
    } else {
        slice_of(path, 0, path.len())
    }
}

/// Where a relative request leads from a module of a remote package.
pub fn package_target(base: &[char], requested: &[char]) -> (out: Vec<char>)
    ensures
        out@ == rebase_in_package(base@, requested@),
{
    let root = parent_of(base);
    let raw = joined(root.as_slice(), requested);
    let flat = normalized(raw.as_slice());
    extension_stripped(flat.as_slice())
}

} // verus!
