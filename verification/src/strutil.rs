//! Trusted wrappers around the `String` operations of std that vstd gives no
//! specification to.

use vstd::prelude::*;

verus! {

/// Relies on `String::push`: appends exactly the one character to the end of
/// the string.
#[verifier::external_body]
pub(crate) fn push_char(s: &mut String, c: char)
    ensures
        final(s)@ == old(s)@.push(c),
{
    s.push(c);
}

/// Relies on `char::from_u32`: for a valid Unicode scalar value it returns
/// the character with exactly that code point.
#[verifier::external_body]
pub(crate) fn char_from_scalar(v: u32) -> (c: char)
    requires
        v < 0xD800 || (0xE000 <= v && v <= 0x10FFFF),
    ensures
        c == v as char,
{
    char::from_u32(v).unwrap_or('\u{FFFD}')
}

/// What `char::is_alphanumeric` returns: whether the character is in one
/// of the Unicode letter or number categories.
pub uninterp spec fn char_is_alphanumeric(c: char) -> bool;

/// Relies on `char::is_alphanumeric`: the result depends on the character
/// alone.
#[verifier::external_body]
pub(crate) fn is_alphanumeric_char(c: char) -> (r: bool)
    ensures
        r == char_is_alphanumeric(c),
{
    c.is_alphanumeric()
}

/// Relies on `SystemTime::now` and `duration_since`: seconds of the Unix
/// epoch, or zero when the clock sits before it.  The value depends on the
/// wall clock, so nothing more is promised of it.
#[verifier::external_body]
pub(crate) fn now_unix_seconds() -> (r: u64)
{
    std::time::SystemTime::now().duration_since(std::time::UNIX_EPOCH).unwrap_or_default().as_secs()
}

/// Whether two strings hold the same characters.
pub fn str_eq(a: &str, b: &str) -> (r: bool)
    ensures
        r == (a@ == b@),
{
    let na = a.unicode_len();
    let nb = b.unicode_len();
    if na != nb {
        return false;
    }
    let mut i: usize = 0;
    while i < na
        invariant
            0 <= i <= na,
            na == a@.len(),
            na == b@.len(),
            forall|j: int| 0 <= j < i ==> a@[j] == b@[j],
        decreases na - i,
    {
        if a.get_char(i) != b.get_char(i) {
            return false;
        }
        i = i + 1;
    }
    proof {
        assert(a@ =~= b@);
    }
    true
}

} // verus!
