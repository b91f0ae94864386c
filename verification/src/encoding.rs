//! Text encodings of project files: strict UTF-8 first, GBK as the fallback.
use vstd::prelude::*;
use crate::ext_calls::{gbk_decode, gbk_decoded, utf8_text};

verus! {

/// A decoded file: native UTF-8, or GBK converted to UTF-8.
#[derive(Debug, Clone, PartialEq)]
pub enum Decoded {
    Utf8(String),
    Gbk(String),
}

/// Whether `x` is a UTF-8 continuation byte within `lo..=hi`.
pub open spec fn in_range(x: u8, lo: u8, hi: u8) -> bool {
    lo <= x <= hi
}

/// Length of the well-formed UTF-8 sequence starting at `i` (Unicode table 3-7),
/// 0 when none starts there.
pub open spec fn seq_len_at(b: Seq<u8>, i: int) -> int {
    let n = b.len() - i;
    let c = b[i];
    if n <= 0 {
        0
    } else if c <= 0x7F {
        1
    } else if 0xC2 <= c <= 0xDF {
        if n >= 2 && in_range(b[i + 1], 0x80, 0xBF) { 2 } else { 0 }
    } else if 0xE0 <= c <= 0xEF {
        let lo: u8 = if c == 0xE0 { 0xA0 } else { 0x80 };
        let hi: u8 = if c == 0xED { 0x9F } else { 0xBF };
        if n >= 3 && in_range(b[i + 1], lo, hi) && in_range(b[i + 2], 0x80, 0xBF) { 3 } else { 0 }
    } else if 0xF0 <= c <= 0xF4 {
        let lo: u8 = if c == 0xF0 { 0x90 } else { 0x80 };
        let hi: u8 = if c == 0xF4 { 0x8F } else { 0xBF };
        if n >= 4 && in_range(b[i + 1], lo, hi) && in_range(b[i + 2], 0x80, 0xBF) && in_range(
            b[i + 3],
            0x80,
            0xBF,
        ) { 4 } else { 0 }
    } else {
        0
    }
}

/// `b[i..]` is a sequence of well-formed UTF-8 characters.
pub open spec fn utf8_from(b: Seq<u8>, i: int) -> bool
    decreases b.len() - i,
{
    if i < 0 || i > b.len() {
        false
    } else if i == b.len() {
        true
    } else {
        let k = seq_len_at(b, i);
        k > 0 && utf8_from(b, i + k)
    }
}

/// The scalar value of the `k`-byte UTF-8 sequence at `i`.
pub open spec fn scalar_at(b: Seq<u8>, i: int, k: int) -> int {
    if k == 1 {
        b[i] as int
    } else if k == 2 {
        (b[i] - 0xC0) * 64 + (b[i + 1] - 0x80)
    } else if k == 3 {
        (b[i] - 0xE0) * 4096 + (b[i + 1] - 0x80) * 64 + (b[i + 2] - 0x80)
    } else {
        (b[i] - 0xF0) * 262144 + (b[i + 1] - 0x80) * 4096 + (b[i + 2] - 0x80) * 64 + (b[i + 3] - 0x80)
    }
}

/// The characters of the UTF-8 sequences of `b[i..]`, up to the first
/// malformed one.
pub open spec fn utf8_chars_from(b: Seq<u8>, i: int) -> Seq<char>
    decreases b.len() - i,
{
    if i < 0 || i >= b.len() {
        Seq::empty()
    } else {
        let k = seq_len_at(b, i);
        if k <= 0 {
            Seq::empty()
        } else {
            seq![scalar_at(b, i, k) as char] + utf8_chars_from(b, i + k)
        }
    }
}

/// The characters that well-formed UTF-8 bytes encode.
pub open spec fn utf8_chars(b: Seq<u8>) -> Seq<char> {
    utf8_chars_from(b, 0)
}

/// Well-formed UTF-8.
pub open spec fn valid_utf8(b: Seq<u8>) -> bool {
    utf8_from(b, 0)
}

/// Starts with a UTF-16 byte-order mark (`FF FE` or `FE FF`).
pub open spec fn utf16_bom(b: Seq<u8>) -> bool {
    b.len() >= 2 && ((b[0] == 0xFF && b[1] == 0xFE) || (b[0] == 0xFE && b[1] == 0xFF))
}

/// Well-formed UTF-8 without a UTF-16 byte-order mark.
pub open spec fn utf8_like(b: Seq<u8>) -> bool {
    !utf16_bom(b) && valid_utf8(b)
}

fn in_range_exec(x: u8, lo: u8, hi: u8) -> (r: bool)
    ensures
        r == in_range(x, lo, hi),
{
    lo <= x && x <= hi
}

fn seq_len_at_exec(b: &[u8], i: usize) -> (r: usize)
    requires
        i < b@.len(),
    ensures
        r == seq_len_at(b@, i as int),
{
    let n = b.len() - i;
    let c = b[i];
    if c <= 0x7F {
        1
    } else if 0xC2 <= c && c <= 0xDF {
        if n >= 2 && in_range_exec(b[i + 1], 0x80, 0xBF) { 2 } else { 0 }
    } else if 0xE0 <= c && c <= 0xEF {
        let lo: u8 = if c == 0xE0 { 0xA0 } else { 0x80 };
        let hi: u8 = if c == 0xED { 0x9F } else { 0xBF };
        if n >= 3 && in_range_exec(b[i + 1], lo, hi) && in_range_exec(b[i + 2], 0x80, 0xBF) { 3 } else { 0 }
    } else if 0xF0 <= c && c <= 0xF4 {
        let lo: u8 = if c == 0xF0 { 0x90 } else { 0x80 };
        let hi: u8 = if c == 0xF4 { 0x8F } else { 0xBF };
        if n >= 4 && in_range_exec(b[i + 1], lo, hi) && in_range_exec(b[i + 2], 0x80, 0xBF)
            && in_range_exec(b[i + 3], 0x80, 0xBF) { 4 } else { 0 }
    } else {
        0
    }
}

/// Whether the bytes are well-formed UTF-8 (UTF-16 byte-order marks excluded).
pub fn looks_like_utf8(bytes: &[u8]) -> (r: bool)
    ensures
        r == utf8_like(bytes@),
{
    if bytes.len() >= 2 && ((bytes[0] == 0xFF && bytes[1] == 0xFE) || (bytes[0] == 0xFE && bytes[1]
        == 0xFF)) {
        return false;
    }
    let mut i: usize = 0;
    while i < bytes.len()
        invariant
            i <= bytes@.len(),
            valid_utf8(bytes@) == utf8_from(bytes@, i as int),
        decreases bytes.len() - i,
    {
        let k = seq_len_at_exec(bytes, i);
        if k == 0 {
            return false;
        }
        i = i + k;
    }
    true
}

/// The text of the file bytes: UTF-8 when well-formed, else GBK when that decodes
/// without error, else `None` (UTF-16 byte-order marks are never decoded).
pub fn decode_bytes(bytes: &[u8]) -> (r: Option<Decoded>)
    ensures
        utf8_like(bytes@) ==> (r matches Some(Decoded::Utf8(s)) && s@ == utf8_chars(bytes@)),
        !utf8_like(bytes@) && utf16_bom(bytes@) ==> r is None,
        !utf8_like(bytes@) && !utf16_bom(bytes@) ==> ({
            let (text, had_errors) = gbk_decoded(bytes@);
            if had_errors {
                r is None
            } else {
                r matches Some(Decoded::Gbk(s)) && s@ == text
            }
        }),
{
    if looks_like_utf8(bytes) {
        return match utf8_text(bytes) {
            Some(s) => Some(Decoded::Utf8(s)),
            None => None,
        };
    }
    if bytes.len() >= 2 && ((bytes[0] == 0xFF && bytes[1] == 0xFE) || (bytes[0] == 0xFE && bytes[1]
        == 0xFF)) {
        return None;
    }
    let (text, had_errors) = gbk_decode(bytes);
    if had_errors {
        return None;
    }
    Some(Decoded::Gbk(text))
}

} // verus!
