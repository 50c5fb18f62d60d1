//! A lossy UTF-8 decoder: well-formed sequences become their characters,
//! malformed bytes become the replacement character.

use vstd::prelude::*;

verus! {

/// Whether `b` is a UTF-8 continuation byte.
pub open spec fn is_cont_spec(b: u8) -> bool {
    0x80 <= b && b <= 0xBF
}

/// The characters decoded from `bytes` at offset `i` on: each well-formed
/// UTF-8 sequence yields its character, anything else one replacement
/// character per offending lead byte.
pub open spec fn lossy_decode_from(bytes: Seq<u8>, i: int) -> Seq<char>
    decreases bytes.len() - i,
{
    if i < 0 || i >= bytes.len() {
        Seq::empty()
    } else {
        let b = bytes[i];
        if b < 0x80 {
            seq![b as char] + lossy_decode_from(bytes, i + 1)
        } else if 0xC2 <= b && b <= 0xDF && i + 1 < bytes.len() && is_cont_spec(bytes[i + 1]) {
            let cp = (b - 0xC2 + 2) as int * 64 + (bytes[i + 1] - 0x80);
            seq![cp as u32 as char] + lossy_decode_from(bytes, i + 2)
        } else if 0xE0 <= b && b <= 0xEF && i + 2 < bytes.len() && is_cont_spec(bytes[i + 1])
            && is_cont_spec(bytes[i + 2]) {
            let cp = (b - 0xE0) as int * 4096 + (bytes[i + 1] - 0x80) as int * 64 + (bytes[i + 2]
                - 0x80);
            let c = if cp >= 0x800 && !(0xD800 <= cp && cp <= 0xDFFF) {
                cp as u32 as char
            } else {
                '\u{FFFD}'
            };
            seq![c] + lossy_decode_from(bytes, i + 3)
        } else if 0xF0 <= b && b <= 0xF4 && i + 3 < bytes.len() && is_cont_spec(bytes[i + 1])
            && is_cont_spec(bytes[i + 2]) && is_cont_spec(bytes[i + 3]) {
            let cp = (b - 0xF0) as int * 262144 + (bytes[i + 1] - 0x80) as int * 4096 + (bytes[i
                + 2] - 0x80) as int * 64 + (bytes[i + 3] - 0x80);
            let c = if 0x10000 <= cp && cp <= 0x10FFFF {
                cp as u32 as char
            } else {
                '\u{FFFD}'
            };
            seq![c] + lossy_decode_from(bytes, i + 4)
        } else {
            seq!['\u{FFFD}'] + lossy_decode_from(bytes, i + 1)
        }
    }
}

/// The lossy decoding of a whole byte sequence.
pub open spec fn lossy_decode(bytes: Seq<u8>) -> Seq<char> {
    lossy_decode_from(bytes, 0)
}

fn is_cont(b: u8) -> (r: bool)
    ensures
        r == is_cont_spec(b),
{
    0x80 <= b && b <= 0xBF
}

/// Decodes a byte slice into characters, one replacement character per
/// malformed lead byte.
pub fn decode_chars(bytes: &[u8]) -> (out: Vec<char>)
    ensures
        out@ == lossy_decode(bytes@),
{
    let n = bytes.len();
    let mut out: Vec<char> = Vec::new();
    let mut i: usize = 0;
    while i < n
        invariant
            0 <= i <= n,
            n == bytes@.len(),
            lossy_decode(bytes@) == out@ + lossy_decode_from(bytes@, i as int),
        decreases n - i,
    {
        let ghost pre = out@;
        let b = bytes[i];
        if b < 0x80 {
            out.push(b as char);
            i = i + 1;
        } else if 0xC2 <= b && b <= 0xDF && i + 1 < n && is_cont(bytes[i + 1]) {
            let cp = (b - 0xC2 + 2) as u32 * 64 + (bytes[i + 1] - 0x80) as u32;
            out.push(crate::strutil::char_from_scalar(cp));
            i = i + 2;
        } else if 0xE0 <= b && b <= 0xEF && n - i > 2 && is_cont(bytes[i + 1]) && is_cont(
            bytes[i + 2],
        ) {
            let cp = (b - 0xE0) as u32 * 4096 + (bytes[i + 1] - 0x80) as u32 * 64 + (bytes[i + 2]
                - 0x80) as u32;
            if cp >= 0x800 && !(0xD800 <= cp && cp <= 0xDFFF) {
                out.push(crate::strutil::char_from_scalar(cp));
            } else {
                out.push('\u{FFFD}');
            }
            i = i + 3;
        } else if 0xF0 <= b && b <= 0xF4 && n - i > 3 && is_cont(bytes[i + 1]) && is_cont(
            bytes[i + 2],
        ) && is_cont(bytes[i + 3]) {
            let cp = (b - 0xF0) as u32 * 262144 + (bytes[i + 1] - 0x80) as u32 * 4096 + (bytes[i
                + 2] - 0x80) as u32 * 64 + (bytes[i + 3] - 0x80) as u32;
            if 0x10000 <= cp && cp <= 0x10FFFF {
                out.push(crate::strutil::char_from_scalar(cp));
            } else {
                out.push('\u{FFFD}');
            }
            i = i + 4;
        } else {
            out.push('\u{FFFD}');
            i = i + 1;
        }
        proof {
            assert(out@ =~= pre + (out@.subrange(pre.len() as int, out@.len() as int)));
        }
    }
    out
}

/// Builds a string from a character sequence.
pub fn chars_to_string(chars: &Vec<char>) -> (s: String)
    ensures
        s@ == chars@,
{
    let mut s = String::new();
    let mut i: usize = 0;
    let n = chars.len();
    while i < n
        invariant
            0 <= i <= n,
            n == chars@.len(),
            s@ == chars@.subrange(0, i as int),
        decreases n - i,
    {
        crate::strutil::push_char(&mut s, chars[i]);
        i = i + 1;
        proof {
            assert(s@ =~= chars@.subrange(0, i as int));
        }
    }
    proof {
        assert(chars@.subrange(0, n as int) =~= chars@);
    }
    s
}

/// Decodes a byte slice into a string, one replacement character per
/// malformed lead byte.
pub fn decode_lossy(bytes: &[u8]) -> (s: String)
    ensures
        s@ == lossy_decode(bytes@),
{
    let chars = decode_chars(bytes);
    chars_to_string(&chars)
}

} // verus!
