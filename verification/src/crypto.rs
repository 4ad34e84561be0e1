//! Random version-4 UUIDs.
//!
//! The randomness comes from the operating system. What is decided here is
//! the form: which bits mark version and variant, and how sixteen bytes are
//! written as thirty-six characters.

use vstd::prelude::*;
use crate::text::string_of;

verus! {

/// The hexadecimal digit for a value below sixteen, in lower case.
pub open spec fn hex_digit(n: u8) -> char {
    if n < 10 {
        (('0' as u8) + n) as char
    } else {
        (('a' as u8) + (n - 10)) as char
    }
}

/// The byte at position `i` of a version-4 UUID made from the given random
/// bytes: byte 6 carries the version 4 in its high half, byte 8 the variant in
/// its two highest bits, every other byte is as it came.
pub open spec fn uuid_byte(bytes: Seq<u8>, i: int) -> u8 {
    if i == 6 {
        (bytes[i] & 0x0f) | 0x40
    } else if i == 8 {
        (bytes[i] & 0x3f) | 0x80
    } else {
        bytes[i]
    }
}

/// A hyphen stands before the byte at this position.
pub open spec fn hyphen_before(i: int) -> bool {
    i == 4 || i == 6 || i == 8 || i == 10
}

/// The text of the first `n` bytes of the UUID: two hexadecimal digits for
/// each byte, and the hyphens between the groups.
pub open spec fn uuid_upto(bytes: Seq<u8>, n: int) -> Seq<char>
    decreases n,
{
    if n <= 0 {
        Seq::empty()
    } else {
        let before = uuid_upto(bytes, n - 1);
        let grouped = if hyphen_before(n - 1) {
            before.push('-')
        } else {
            before
        };
        let byte = uuid_byte(bytes, n - 1);
        grouped.push(hex_digit(byte >> 4)).push(hex_digit(byte & 0x0f))
    }
}

/// The version-4 UUID made from sixteen random bytes, in the form
/// `xxxxxxxx-xxxx-4xxx-yxxx-xxxxxxxxxxxx`.
pub open spec fn uuid_text(bytes: Seq<u8>) -> Seq<char> {
    uuid_upto(bytes, 16)
}

/// The length of the text of the first `n` bytes.
pub proof fn lemma_uuid_len(bytes: Seq<u8>, n: int)
    requires
        0 <= n <= 16,
    ensures
        uuid_upto(bytes, n).len() == 2 * n + if n <= 4 {
            0int
        } else if n <= 6 {
            1
        } else if n <= 8 {
            2
        } else if n <= 10 {
            3
        } else {
            4
        },
    decreases n,
{
    if n > 0 {
        lemma_uuid_len(bytes, n - 1);
    }
}

/// What is written stays: a character of the text of the first `m` bytes is
/// the same in the text of the first `n`, for `m <= n`.
pub proof fn lemma_uuid_stable(bytes: Seq<u8>, m: int, n: int, k: int)
    requires
        0 <= m <= n <= 16,
        0 <= k < uuid_upto(bytes, m).len(),
    ensures
        k < uuid_upto(bytes, n).len(),
        uuid_upto(bytes, n)[k] == uuid_upto(bytes, m)[k],
    decreases n - m,
{
    if m < n {
        lemma_uuid_len(bytes, n - 1);
        lemma_uuid_len(bytes, n);
        lemma_uuid_len(bytes, m);
        lemma_uuid_stable(bytes, m, n - 1, k);
    }
}

/// Every UUID has the form of version 4: thirty-six characters, hyphens at
/// positions 8, 13, 18 and 23, the digit `4` at position 14, and one of `8`,
/// `9`, `a`, `b` at position 19.
pub proof fn law_uuid_format(bytes: Seq<u8>)
    requires
        bytes.len() == 16,
    ensures
        uuid_text(bytes).len() == 36,
        uuid_text(bytes)[8] == '-',
        uuid_text(bytes)[13] == '-',
        uuid_text(bytes)[18] == '-',
        uuid_text(bytes)[23] == '-',
        uuid_text(bytes)[14] == '4',
        uuid_text(bytes)[19] == '8' || uuid_text(bytes)[19] == '9' || uuid_text(bytes)[19] == 'a'
            || uuid_text(bytes)[19] == 'b',
{
    lemma_uuid_len(bytes, 16);
    lemma_uuid_len(bytes, 4);
    lemma_uuid_len(bytes, 5);
    lemma_uuid_len(bytes, 6);
    lemma_uuid_len(bytes, 7);
    lemma_uuid_len(bytes, 8);
    lemma_uuid_len(bytes, 9);
    lemma_uuid_len(bytes, 10);
    lemma_uuid_len(bytes, 11);
    lemma_uuid_stable(bytes, 5, 16, 8);
    lemma_uuid_stable(bytes, 7, 16, 13);
    lemma_uuid_stable(bytes, 7, 16, 14);
    lemma_uuid_stable(bytes, 9, 16, 18);
    lemma_uuid_stable(bytes, 9, 16, 19);
    lemma_uuid_stable(bytes, 11, 16, 23);
    let six = bytes[6];
    let eight = bytes[8];
    assert((((six & 0x0f) | 0x40) >> 4) == 4) by (bit_vector);
    assert({
        let v = ((eight & 0x3f) | 0x80) >> 4;
        v == 8 || v == 9 || v == 10 || v == 11
    }) by (bit_vector);
}

/// The hexadecimal digit for a value below sixteen.
pub fn hex_char(n: u8) -> (c: char)
    requires
        n < 16,
    ensures
        c == hex_digit(n),
{
    if n < 10 {
        (48u8 + n) as char
    } else {
        (97u8 + (n - 10)) as char
    }
}

/// Writes sixteen random bytes as a version-4 UUID.
pub fn fast_uuid_v4(rng_bytes: &[u8; 16]) -> (uuid: String)
    ensures
        uuid@ == uuid_text(rng_bytes@),
        uuid@.len() == 36,
{
    let mut out: Vec<char> = Vec::new();
    let mut i: usize = 0;
    while i < 16
        invariant
            i <= 16,
            out@ == uuid_upto(rng_bytes@, i as int),
        decreases 16 - i,
    {
        let raw: u8 = rng_bytes[i];
        let byte: u8 = if i == 6 {
            (raw & 0x0f) | 0x40
        } else if i == 8 {
            (raw & 0x3f) | 0x80
        } else {
            raw
        };
        if i == 4 || i == 6 || i == 8 || i == 10 {
            out.push('-');
        }
        let high: u8 = byte >> 4;
        let low: u8 = byte & 0x0f;
        assert(high < 16) by (bit_vector)
            requires
                high == byte >> 4,
        ;
        assert(low < 16) by (bit_vector)
            requires
                low == byte & 0x0f,
        ;
        out.push(hex_char(high));
        out.push(hex_char(low));
        i += 1;
    }
    proof {
        lemma_uuid_len(rng_bytes@, 16);
    }
    string_of(out.as_slice())
}

/// Asks `getrandom::fill` to fill sixteen bytes from the randomness of the
/// operating system; `None` where it reports that it could not. Nothing is
/// claimed of the bytes.
#[verifier::external_body]
fn random_bytes() -> (bytes: Option<[u8; 16]>) {
    let mut bytes = [0u8; 16];
    getrandom::fill(&mut bytes).ok().map(|_| bytes)
}

/// A fresh random version-4 UUID, or `None` where the operating system gave
/// no randomness.
pub fn random_uuid() -> (uuid: Option<String>)
    ensures
        uuid matches Some(text) ==> exists|bytes: Seq<u8>|
            bytes.len() == 16 && text@ == uuid_text(bytes),
{
    match random_bytes() {
        Some(bytes) => {
            let text = fast_uuid_v4(&bytes);
            Some(text)
        },
        None => None,
    }
}

/// The `crypto` object of a script.
pub struct Crypto {}

impl Default for Crypto {
    fn default() -> Self {
        Self::new()
    }
}

impl Crypto {
    /// The `crypto` object.
    pub fn new() -> Self {
        Crypto {  }
    }

    /// `crypto.randomUUID()`: a fresh random version-4 UUID, or `None` where
    /// the operating system gave no randomness.
    pub fn random_uuid(&self) -> (uuid: Option<String>)
        ensures
            uuid matches Some(text) ==> exists|bytes: Seq<u8>|
                bytes.len() == 16 && text@ == uuid_text(bytes),
    {
        random_uuid()
    }
}

} // verus!
