//! Text encoding and decoding as scripts see it: UTF-8 only.

use vstd::prelude::*;
use vstd::utf8::{valid_utf8, decode_utf8, encode_utf8};
use crate::text::{
    without_chars, text_result, chars_of, string_of, same_text, push_str, slice_of,
};

verus! {

/// What `str::to_lowercase` of the standard library makes of a text: its
/// lower-case form by the rules of Unicode.
pub uninterp spec fn lowercased(text: Seq<char>) -> Seq<char>;

/// What `String::from_utf8_lossy` of the standard library makes of bytes: the
/// text they encode, with the replacement character in place of each sequence
/// that is not valid UTF-8.
pub uninterp spec fn lossy_text(bytes: Seq<u8>) -> Seq<char>;

/// What the error of `String::from_utf8` of the standard library shows for
/// bytes that are not valid UTF-8: where the first invalid sequence stands.
pub uninterp spec fn utf8_fault(bytes: Seq<u8>) -> Seq<char>;

/// Calls `str::to_lowercase`.
#[verifier::external_body]
pub(crate) fn lowercase(text: &str) -> (lower: String)
    ensures
        lower@ == lowercased(text@),
{
    text.to_lowercase()
}

/// Calls `String::from_utf8`, which accepts exactly the byte sequences that
/// are valid UTF-8 and then gives the text that they encode. For any other
/// bytes it gives an error, which is handed on as the text that it shows.
#[verifier::external_body]
fn decode_strict(bytes: Vec<u8>) -> (text: Result<String, String>)
    ensures
        match text {
            Ok(t) => valid_utf8(bytes@) && t@ == decode_utf8(bytes@),
            Err(fault) => !valid_utf8(bytes@) && fault@ == utf8_fault(bytes@),
        },
{
    String::from_utf8(bytes).map_err(|e| e.to_string())
}

/// Calls `String::from_utf8_lossy`. For valid UTF-8 the standard library
/// documents the result as the text itself, unchanged.
#[verifier::external_body]
fn decode_lossy(bytes: &[u8]) -> (text: String)
    ensures
        text@ == lossy_text(bytes@),
        valid_utf8(bytes@) ==> text@ == decode_utf8(bytes@),
{
    String::from_utf8_lossy(bytes).into_owned()
}

/// The byte order mark.
pub open spec fn bom() -> char {
    '\u{FEFF}'
}

/// An encoding label in the form in which labels are compared: in lower case
/// and without hyphens and underscores.
pub open spec fn normalized_label(label: Seq<char>) -> Seq<char> {
    without_chars(lowercased(label), '-', '_')
}

/// The normalized label names UTF-8.
pub open spec fn names_utf8(normalized: Seq<char>) -> bool {
    normalized == "utf8"@ || normalized == "unicode11utf8"@
}

/// The message for a label that names no supported encoding.
pub open spec fn invalid_label(label: Seq<char>) -> Seq<char> {
    "The encoding label provided ('"@ + label + "') is invalid."@
}

/// The message for bytes that a fatal decoder could not decode: that they are
/// not valid, and what the standard library found at fault.
pub open spec fn invalid_data(bytes: Seq<u8>) -> Seq<char> {
    "The encoded data was not valid UTF-8: "@ + utf8_fault(bytes)
}

/// The text without the byte order mark that it begins with, if it does.
pub open spec fn without_bom(text: Seq<char>) -> Seq<char> {
    if text.len() > 0 && text[0] == bom() {
        text.subrange(1, text.len() as int)
    } else {
        text
    }
}

/// `text` without the characters `a` and `b`.
pub fn strip_chars(text: &[char], a: char, b: char) -> (out: Vec<char>)
    ensures
        out@ == without_chars(text@, a, b),
{
    let mut out: Vec<char> = Vec::new();
    let mut i: usize = 0;
    assert(text@.take(0) == Seq::<char>::empty());
    assert(without_chars(Seq::<char>::empty(), a, b) == Seq::<char>::empty()) by {
        reveal(Seq::filter);
    }
    while i < text.len()
        invariant
            i <= text.len(),
            out@ == without_chars(text@.take(i as int), a, b),
        decreases text.len() - i,
    {
        proof {
            reveal(Seq::filter);
            assert(text@.take(i + 1).drop_last() == text@.take(i as int));
        }
        if text[i] != a && text[i] != b {
            out.push(text[i]);
        }
        i += 1;
    }
    assert(text@.take(text.len() as int) == text@);
    out
}

/// The label in the form in which labels are compared.
pub fn normalize_encoding_label(label: &str) -> (out: String)
    ensures
        out@ == normalized_label(label@),
{
    let lower = lowercase(label);
    let chars = chars_of(lower.as_str());
    let stripped = strip_chars(chars.as_slice(), '-', '_');
    string_of(stripped.as_slice())
}

/// Whether a normalized label names UTF-8.
pub fn is_utf8_label(normalized: &str) -> (b: bool)
    ensures
        b == names_utf8(normalized@),
{
    let n = chars_of(normalized);
    let short = chars_of("utf8");
    let long = chars_of("unicode11utf8");
    same_text(n.as_slice(), short.as_slice()) || same_text(n.as_slice(), long.as_slice())
}

/// A decoder of UTF-8.
pub struct TextDecoder {
    encoding: String,
    fatal: bool,
    ignore_bom: bool,
}

impl TextDecoder {
    /// The decoder as plain values: encoding, fatal, ignore-BOM.
    pub closed spec fn view(&self) -> (Seq<char>, bool, bool) {
        (self.encoding@, self.fatal, self.ignore_bom)
    }

    /// A decoder for the encoding that `label` names, UTF-8 where there is
    /// no label. Any label that does not name UTF-8 is refused, with the message
    /// of the range error that the script gets to see.
    pub fn new(label: Option<String>, fatal: bool, ignore_bom: bool) -> (r: Result<Self, String>)
        ensures
            match r {
                Ok(decoder) => decoder@ == ("utf-8"@, fatal, ignore_bom) && (label matches Some(l)
                    ==> names_utf8(normalized_label(l@))),
                Err(message) => label matches Some(l) && !names_utf8(normalized_label(l@))
                    && message@ == invalid_label(l@),
            },
    {
        if let Some(l) = label {
            let normalized = normalize_encoding_label(l.as_str());
            if !is_utf8_label(normalized.as_str()) {
                let mut message: Vec<char> = Vec::new();
                push_str(&mut message, "The encoding label provided ('");
                push_str(&mut message, l.as_str());
                push_str(&mut message, "') is invalid.");
                return Err(string_of(message.as_slice()));
            }
        }
        Ok(TextDecoder { encoding: "utf-8".to_owned(), fatal, ignore_bom })
    }

    /// The name of the encoding.
    pub fn encoding(&self) -> (name: String)
        ensures
            name@ == self@.0,
    {
        self.encoding.clone()
    }

    /// Whether bytes that are not valid UTF-8 are an error.
    pub fn fatal(&self) -> (b: bool)
        ensures
            b == self@.1,
    {
        self.fatal
    }

    /// Whether a byte order mark at the start is kept.
    pub fn ignore_bom(&self) -> (b: bool)
        ensures
            b == self@.2,
    {
        self.ignore_bom
    }

    /// What `decode` returns. A fatal decoder refuses bytes that are not
    /// valid UTF-8; any other replaces what is invalid. A byte order mark at the
    /// start is dropped unless the decoder is told to keep it.
    pub open spec fn decoded(&self, bytes: Seq<u8>) -> Result<Seq<char>, Seq<char>> {
        if self@.1 && !valid_utf8(bytes) {
            Err(invalid_data(bytes))
        } else {
            let text = if valid_utf8(bytes) {
                decode_utf8(bytes)
            } else {
                lossy_text(bytes)
            };
            if self@.2 {
                Ok(text)
            } else {
                Ok(without_bom(text))
            }
        }
    }

    /// Decodes bytes into text.
    pub fn decode(&self, bytes: Vec<u8>) -> (r: Result<String, String>)
        ensures
            text_result(r) == self.decoded(bytes@),
    {
        let text = if self.fatal {
            let ghost given = bytes@;
            match decode_strict(bytes) {
                Ok(t) => t,
                Err(fault) => {
                    let mut message = chars_of("The encoded data was not valid UTF-8: ");
                    push_str(&mut message, fault.as_str());
                    assert(message@ == invalid_data(given));
                    return Err(string_of(message.as_slice()));
                },
            }
        } else {
            decode_lossy(bytes.as_slice())
        };
        if self.ignore_bom {
            return Ok(text);
        }
        let chars = chars_of(text.as_str());
        if chars.len() > 0 && chars[0] == '\u{FEFF}' {
            let rest = slice_of(chars.as_slice(), 1, chars.len());
            Ok(string_of(rest.as_slice()))
        } else {
            Ok(text)
        }
    }
}

/// How many bytes the UTF-8 encoding of a character takes.
pub open spec fn utf8_width(c: char) -> nat {
    if (c as u32) < 0x80 {
        1
    } else if (c as u32) < 0x800 {
        2
    } else if (c as u32) < 0x10000 {
        3
    } else {
        4
    }
}

/// How many code units the UTF-16 encoding of a character takes.
pub open spec fn utf16_width(c: char) -> nat {
    if (c as u32) < 0x10000 {
        1
    } else {
        2
    }
}

/// The total UTF-8 width of a text.
pub open spec fn utf8_len(text: Seq<char>) -> nat
    decreases text.len(),
{
    if text.len() == 0 {
        0
    } else {
        utf8_len(text.drop_last()) + utf8_width(text.last())
    }
}

/// The total UTF-16 width of a text.
pub open spec fn utf16_len(text: Seq<char>) -> nat
    decreases text.len(),
{
    if text.len() == 0 {
        0
    } else {
        utf16_len(text.drop_last()) + utf16_width(text.last())
    }
}

/// How many leading characters of `text` fit whole in `room` bytes of UTF-8.
pub open spec fn chars_that_fit(text: Seq<char>, room: nat) -> nat
    decreases text.len(),
{
    if text.len() == 0 {
        0
    } else {
        let before = chars_that_fit(text.drop_last(), room);
        if before == text.len() - 1 && utf8_len(text) <= room {
            before + 1
        } else {
            before
        }
    }
}

/// What an encoder reports of an `encodeInto`: how much of the source was
/// read, in UTF-16 code units, and how many bytes were written.
#[derive(Clone, Copy, Debug, PartialEq, Eq, Structural)]
pub struct EncodeProgress {
    /// The UTF-16 code units of the characters that went in whole.
    pub read: usize,
    /// The bytes written.
    pub written: usize,
}

/// An encoder to UTF-8.
pub struct TextEncoder {}

impl Default for TextEncoder {
    fn default() -> Self {
        Self::new()
    }
}

impl TextEncoder {
    /// An encoder.
    pub fn new() -> Self {
        TextEncoder {  }
    }

    /// The name of the encoding.
    pub fn encoding(&self) -> (name: &'static str)
        ensures
            name@ == "utf-8"@,
    {
        "utf-8"
    }

    /// The UTF-8 encoding of a text.
    pub fn encode(&self, text: &str) -> (bytes: Vec<u8>)
        ensures
            bytes@ == encode_utf8(text@),
    {
        vstd::slice::slice_to_vec(text.as_bytes())
    }

    /// What writing a text into a buffer of `capacity` bytes comes to: as
    /// many bytes are written as text and buffer both allow, and the characters
    /// count as read that fit whole into what was written.
    pub fn encode_into(&self, text: &str, capacity: usize) -> (progress: EncodeProgress)
        ensures
            progress.written == if utf8_len(text@) <= capacity {
                utf8_len(text@)
            } else {
                capacity as nat
            },
            progress.read == utf16_len(
                text@.take(chars_that_fit(text@, progress.written as nat) as int),
            ),
    {
        let chars = chars_of(text);
        let mut needed: usize = 0;
        let mut read: usize = 0;
        let mut over = false;
        let mut i: usize = 0;
        let ghost mut fit: int = 0;
        assert(chars@.take(0) == Seq::<char>::empty());
        while i < chars.len()
            invariant
                i <= chars.len(),
                chars@ == text@,
                0 <= fit <= i,
                fit == chars_that_fit(chars@.take(i as int), capacity as nat),
                needed == utf8_len(chars@.take(fit)),
                read == utf16_len(chars@.take(fit)),
                read <= needed <= capacity,
                over <==> fit < i,
            decreases chars.len() - i,
        {
            let c = chars[i];
            let code = c as u32;
            let width: usize = if code < 0x80 {
                1
            } else if code < 0x800 {
                2
            } else if code < 0x10000 {
                3
            } else {
                4
            };
            let units: usize = if code < 0x10000 {
                1
            } else {
                2
            };
            proof {
                assert(chars@.take(i + 1).drop_last() == chars@.take(i as int));
                assert(chars@.take(i + 1).last() == c);
                lemma_fit_monotone(chars@, capacity as nat, i as int);
            }
            if !over && capacity - needed >= width {
                needed = needed + width;
                read = read + units;
                proof {
                    fit = fit + 1;
                }
            } else {
                over = true;
            }
            i += 1;
        }
        proof {
            assert(chars@.take(chars.len() as int) == chars@);
            lemma_fit_monotone(chars@, capacity as nat, chars@.len() as int);
            lemma_fit_monotone(chars@, utf8_len(chars@), chars@.len() as int);
        }
        let written = if over {
            capacity
        } else {
            needed
        };
        EncodeProgress { read, written }
    }
}

proof fn lemma_fit_monotone(text: Seq<char>, room: nat, n: int)
    requires
        0 <= n <= text.len(),
    ensures
        chars_that_fit(text.take(n), room) <= n,
        chars_that_fit(text.take(n), room) == n <==> utf8_len(text.take(n)) <= room,
    decreases n,
{
    if n > 0 {
        lemma_fit_monotone(text, room, n - 1);
        assert(text.take(n).drop_last() == text.take(n - 1));
    }
}

} // verus!
