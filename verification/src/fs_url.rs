//! From the parts of a `file://` URL to a path of the file system.

use vstd::prelude::*;
use crate::text::{chars_of, string_of, replace_char, replace, push_all, slice_of};

verus! {

/// The character is a hexadecimal digit.
pub open spec fn is_hex(c: char) -> bool {
    ('0' <= c && c <= '9') || ('a' <= c && c <= 'f') || ('A' <= c && c <= 'F')
}

/// The value of a hexadecimal digit.
pub open spec fn hex_value(c: char) -> int {
    if '0' <= c && c <= '9' {
        c as int - '0' as int
    } else if 'a' <= c && c <= 'f' {
        c as int - 'a' as int + 10
    } else {
        c as int - 'A' as int + 10
    }
}

/// The byte that two characters after a `%` stand for: two hexadecimal
/// digits, or a `+` and one digit. Anything else stands for none.
pub open spec fn escaped_byte(first: char, second: char) -> Option<u8> {
    if is_hex(first) && is_hex(second) {
        Some((16 * hex_value(first) + hex_value(second)) as u8)
    } else if first == '+' && is_hex(second) {
        Some(hex_value(second) as u8)
    } else {
        None
    }
}

/// The text from position `i` on with every `%` that is no escape made into
/// one: a `%` that two hexadecimal digits follow stays, any other becomes `%25`.
pub open spec fn escape_from(s: Seq<char>, i: int) -> Seq<char>
    decreases s.len() - i,
{
    if i < 0 || i >= s.len() {
        Seq::empty()
    } else if s[i] == '%' && !(i + 2 < s.len() && is_hex(s[i + 1]) && is_hex(s[i + 2])) {
        seq!['%', '2', '5'] + escape_from(s, i + 1)
    } else {
        seq![s[i]] + escape_from(s, i + 1)
    }
}

/// The text from position `i` on with every escape replaced by the character
/// whose code the escape gives.
pub open spec fn decode_from(s: Seq<char>, i: int) -> Seq<char>
    decreases s.len() - i,
{
    if i < 0 || i >= s.len() {
        Seq::empty()
    } else if s[i] == '%' && i + 2 < s.len() && escaped_byte(s[i + 1], s[i + 2]) is Some {
        seq![escaped_byte(s[i + 1], s[i + 2])->Some_0 as char] + decode_from(s, i + 3)
    } else {
        seq![s[i]] + decode_from(s, i + 1)
    }
}

/// A path name with its escapes decoded, stray `%` signs left as they are.
pub open spec fn unescaped(pathname: Seq<char>) -> Seq<char> {
    decode_from(escape_from(pathname, 0), 0)
}

/// The path of a `file://` URL on a POSIX system. A URL with a host has no
/// path there.
pub open spec fn posix_path(pathname: Seq<char>, hostname: Seq<char>) -> Seq<char> {
    if hostname.len() > 0 {
        Seq::empty()
    } else {
        unescaped(pathname)
    }
}

/// The path name of a URL without the `/` before a drive letter.
pub open spec fn drive_path(pathname: Seq<char>) -> Seq<char> {
    if pathname.len() >= 3 && pathname[0] == '/' && pathname[2] == ':' {
        pathname.subrange(1, pathname.len() as int)
    } else {
        pathname
    }
}

/// The path of a `file://` URL on Windows: backslashes for slashes, and the
/// host, where there is one, in front as in a UNC path.
pub open spec fn win32_path(pathname: Seq<char>, hostname: Seq<char>) -> Seq<char> {
    let path = unescaped(replace_char(drive_path(pathname), '/', '\\'));
    if hostname.len() > 0 {
        seq!['\\', '\\'] + hostname + path
    } else {
        path
    }
}

/// Whether the character is a hexadecimal digit.
pub fn check_hex(c: char) -> (b: bool)
    ensures
        b == is_hex(c),
{
    ('0' <= c && c <= '9') || ('a' <= c && c <= 'f') || ('A' <= c && c <= 'F')
}

fn hex_of(c: char) -> (v: u8)
    requires
        is_hex(c),
    ensures
        v == hex_value(c),
        v < 16,
{
    let code = c as u32;
    if '0' <= c && c <= '9' {
        (code - 48) as u8
    } else if 'a' <= c && c <= 'f' {
        (code - 97 + 10) as u8
    } else {
        (code - 65 + 10) as u8
    }
}

fn byte_of(first: char, second: char) -> (r: Option<u8>)
    ensures
        r == escaped_byte(first, second),
{
    if check_hex(first) && check_hex(second) {
        Some(16 * hex_of(first) + hex_of(second))
    } else if first == '+' && check_hex(second) {
        Some(hex_of(second))
    } else {
        None
    }
}

fn escape(s: &[char]) -> (out: Vec<char>)
    ensures
        out@ == escape_from(s@, 0),
{
    let mut out: Vec<char> = Vec::new();
    let mut i: usize = 0;
    while i < s.len()
        invariant
            i <= s.len(),
            out@ + escape_from(s@, i as int) == escape_from(s@, 0),
        decreases s.len() - i,
    {
        let ghost before = out@;
        let ghost rest = escape_from(s@, i + 1);
        if s[i] == '%' && !(s.len() - i > 2 && check_hex(s[i + 1]) && check_hex(s[i + 2])) {
            out.push('%');
            out.push('2');
            out.push('5');
            assert(out@ + rest == before + (seq!['%', '2', '5'] + rest));
        } else {
            out.push(s[i]);
            assert(out@ + rest == before + (seq![s@[i as int]] + rest));
        }
        i += 1;
    }
    assert(out@ + Seq::<char>::empty() == out@);
    out
}

fn decode(s: &[char]) -> (out: Vec<char>)
    ensures
        out@ == decode_from(s@, 0),
{
    let mut out: Vec<char> = Vec::new();
    let mut i: usize = 0;
    while i < s.len()
        invariant
            i <= s.len(),
            out@ + decode_from(s@, i as int) == decode_from(s@, 0),
        decreases s.len() - i,
    {
        let ghost before = out@;
        if s[i] == '%' && s.len() - i > 2 {
            if let Some(byte) = byte_of(s[i + 1], s[i + 2]) {
                out.push(byte as char);
                assert(out@ + decode_from(s@, i + 3) == before + (seq![byte as char] + decode_from(
                    s@,
                    i + 3,
                )));
                i += 3;
                continue ;
            }
        }
        out.push(s[i]);
        assert(out@ + decode_from(s@, i + 1) == before + (seq![s@[i as int]] + decode_from(
            s@,
            i + 1,
        )));
        i += 1;
    }
    assert(out@ + Seq::<char>::empty() == out@);
    out
}

/// The path of a `file://` URL on a POSIX system, from the URL's path name
/// and host name.
pub fn path_from_url_posix(pathname: &str, hostname: &str) -> (path: String)
    ensures
        path@ == posix_path(pathname@, hostname@),
{
    let host = chars_of(hostname);
    if host.len() > 0 {
        return String::new();
    }
    let name = chars_of(pathname);
    let escaped = escape(name.as_slice());
    let decoded = decode(escaped.as_slice());
    string_of(decoded.as_slice())
}

/// The path of a `file://` URL on Windows, from the URL's path name and host
/// name.
pub fn path_from_url_win32(pathname: &str, hostname: &str) -> (path: String)
    ensures
        path@ == win32_path(pathname@, hostname@),
{
    let name = chars_of(pathname);
    let from_drive = if name.len() >= 3 && name[0] == '/' && name[2] == ':' {
        slice_of(name.as_slice(), 1, name.len())
    } else {
        slice_of(name.as_slice(), 0, name.len())
    };
    assert(name@.subrange(0, name@.len() as int) == name@);
    let backslashed = replace(from_drive.as_slice(), '/', '\\');
    let escaped = escape(backslashed.as_slice());
    let decoded = decode(escaped.as_slice());
    let host = chars_of(hostname);
    if host.len() > 0 {
        let mut out: Vec<char> = Vec::new();
        out.push('\\');
        out.push('\\');
        push_all(&mut out, host.as_slice());
        push_all(&mut out, decoded.as_slice());
        assert(out@ == seq!['\\', '\\'] + hostname@ + decoded@);
        string_of(out.as_slice())
    } else {
        string_of(decoded.as_slice())
    }
}

} // verus!
