//! Small utility functions: input validation, path and string helpers, and
//! the display-width table for terminal characters.

use vstd::prelude::*;
use vstd::string::StringSliceAdditionalSpecFns;

verus! {

/// Display width of a character in terminal cells: 2 for the wide CJK and
/// fullwidth ranges, 1 for everything else.
pub open spec fn char_width_spec(c: char) -> usize {
    let u = c as u32;
    if (0x1100 <= u && u <= 0x115F) || (0x2E80 <= u && u <= 0x9FFF) || (0xAC00 <= u && u
        <= 0xD7A3) || (0xF900 <= u && u <= 0xFAFF) || (0xFE10 <= u && u <= 0xFE19) || (0xFE30 <= u
        && u <= 0xFE6F) || (0xFF00 <= u && u <= 0xFF60) || (0xFFE0 <= u && u <= 0xFFE6) || (0x20000
        <= u && u <= 0x2FFFD) || (0x30000 <= u && u <= 0x3FFFD) {
        2usize
    } else {
        1usize
    }
}

/// Display width of a character in terminal cells (1, or 2 for wide CJK and
/// fullwidth forms).
pub fn get_char_width(c: char) -> (w: usize)
    ensures
        w == char_width_spec(c),
        1 <= w <= 2,
{
    let u = c as u32;
    if (0x1100 <= u && u <= 0x115F) || (0x2E80 <= u && u <= 0x9FFF) || (0xAC00 <= u && u
        <= 0xD7A3) || (0xF900 <= u && u <= 0xFAFF) || (0xFE10 <= u && u <= 0xFE19) || (0xFE30 <= u
        && u <= 0xFE6F) || (0xFF00 <= u && u <= 0xFF60) || (0xFFE0 <= u && u <= 0xFFE6) || (0x20000
        <= u && u <= 0x2FFFD) || (0x30000 <= u && u <= 0x3FFFD) {
        2
    } else {
        1
    }
}

/// Whether every character of a host name is allowed: alphanumeric, dot,
/// dash or underscore.
pub open spec fn valid_host_spec(s: Seq<char>) -> bool {
    s.len() > 0 && forall|i: int|
        0 <= i < s.len() ==> crate::strutil::char_is_alphanumeric(#[trigger] s[i]) || s[i] == '.'
            || s[i] == '-' || s[i] == '_'
}

/// Validates a host address: non-empty, made of alphanumeric characters,
/// dots, dashes and underscores.
pub fn validate_host(host: &str) -> (r: bool)
    ensures
        r == valid_host_spec(host@),
{
    let n = host.unicode_len();
    if n == 0 {
        return false;
    }
    let mut i: usize = 0;
    while i < n
        invariant
            0 <= i <= n,
            n == host@.len(),
            forall|j: int|
                0 <= j < i ==> crate::strutil::char_is_alphanumeric(#[trigger] host@[j])
                    || host@[j] == '.' || host@[j] == '-' || host@[j] == '_',
        decreases n - i,
    {
        let c = host.get_char(i);
        let ok = crate::strutil::is_alphanumeric_char(c) || c == '.' || c == '-' || c == '_';
        if !ok {
            return false;
        }
        i = i + 1;
    }
    true
}

/// Validates a port number: anything but zero.
pub fn validate_port(port: u16) -> (r: bool)
    ensures
        r == (port > 0),
{
    port > 0
}

/// Validates a user name: non-empty and at most 100 bytes.
pub fn validate_username(username: &str) -> (r: bool)
    ensures
        r == (username@.len() > 0 && (username.spec_bytes().len() as usize) <= 100),
{
    !username.is_empty() && username.len() <= 100
}

/// Whether a path string names a directory by its shape: it ends in a
/// slash or backslash.
pub fn is_directory_path(path: &str) -> (r: bool)
    ensures
        r == (path@.len() > 0 && (path@.last() == '/' || path@.last() == '\\')),
{
    let n = path.unicode_len();
    if n == 0 {
        return false;
    }
    let c = path.get_char(n - 1);
    c == '/' || c == '\\'
}

/// `s` without characters beyond the first `k`.
pub open spec fn take_chars_spec(s: Seq<char>, k: int) -> Seq<char> {
    s.subrange(0, k)
}

/// Truncates a string to at most `max_length` characters, ending a
/// shortened result with an ellipsis of three dots.
pub fn truncate_string(s: &str, max_length: usize) -> (r: String)
    requires
        s@.len() <= max_length || max_length >= 3,
    ensures
        s@.len() <= max_length ==> r@ == s@,
        s@.len() > max_length ==> r@ == take_chars_spec(s@, max_length - 3) + seq![
            '.',
            '.',
            '.',
        ],
{
    let n = s.unicode_len();
    if n <= max_length {
        return s.to_owned();
    }
    let keep = max_length - 3;
    let mut out = String::new();
    let mut i: usize = 0;
    while i < keep
        invariant
            0 <= i <= keep,
            keep <= n,
            n == s@.len(),
            out@ == s@.subrange(0, i as int),
        decreases keep - i,
    {
        crate::strutil::push_char(&mut out, s.get_char(i));
        i = i + 1;
        proof {
            assert(out@ =~= s@.subrange(0, i as int));
        }
    }
    crate::strutil::push_char(&mut out, '.');
    crate::strutil::push_char(&mut out, '.');
    crate::strutil::push_char(&mut out, '.');
    proof {
        assert(out@ =~= take_chars_spec(s@, max_length - 3) + seq!['.', '.', '.']);
    }
    out
}

/// `s` without its trailing slashes.
pub open spec fn strip_trailing_slashes_spec(s: Seq<char>) -> Seq<char>
    decreases s.len(),
{
    if s.len() > 0 && s.last() == '/' {
        strip_trailing_slashes_spec(s.drop_last())
    } else {
        s
    }
}

/// `s` without its leading slashes.
pub open spec fn strip_leading_slashes_spec(s: Seq<char>) -> Seq<char>
    decreases s.len(),
{
    if s.len() > 0 && s[0] == '/' {
        strip_leading_slashes_spec(s.subrange(1, s.len() as int))
    } else {
        s
    }
}

/// Joins two path fragments with exactly one slash between them; an empty
/// fragment yields the other unchanged.
pub fn join_paths(base: &str, relative: &str) -> (r: String)
    ensures
        base@.len() == 0 ==> r@ == relative@,
        base@.len() > 0 && relative@.len() == 0 ==> r@ == base@,
        base@.len() > 0 && relative@.len() > 0 ==> r@ == strip_trailing_slashes_spec(base@)
            + seq!['/'] + strip_leading_slashes_spec(relative@),
{
    let nb = base.unicode_len();
    let nr = relative.unicode_len();
    if nb == 0 {
        return relative.to_owned();
    }
    if nr == 0 {
        return base.to_owned();
    }
    let mut end = nb;
    proof {
        assert(base@.subrange(0, nb as int) =~= base@);
    }
    while end > 0 && base.get_char(end - 1) == '/'
        invariant
            0 <= end <= nb,
            nb == base@.len(),
            forall|j: int| end <= j < nb ==> base@[j] == '/',
            strip_trailing_slashes_spec(base@) == strip_trailing_slashes_spec(
                base@.subrange(0, end as int),
            ),
        decreases end,
    {
        proof {
            assert(base@.subrange(0, end as int).drop_last() =~= base@.subrange(
                0,
                end as int - 1,
            ));
        }
        end = end - 1;
    }
    let mut start: usize = 0;
    proof {
        assert(relative@.subrange(0, nr as int) =~= relative@);
    }
    while start < nr && relative.get_char(start) == '/'
        invariant
            0 <= start <= nr,
            nr == relative@.len(),
            strip_leading_slashes_spec(relative@) == strip_leading_slashes_spec(
                relative@.subrange(start as int, nr as int),
            ),
        decreases nr - start,
    {
        proof {
            assert(relative@.subrange(start as int, nr as int).subrange(
                1,
                nr as int - start,
            ) =~= relative@.subrange(start as int + 1, nr as int));
        }
        start = start + 1;
    }
    let mut out = String::new();
    let mut i: usize = 0;
    while i < end
        invariant
            0 <= i <= end,
            end <= nb,
            nb == base@.len(),
            out@ == base@.subrange(0, i as int),
        decreases end - i,
    {
        crate::strutil::push_char(&mut out, base.get_char(i));
        i = i + 1;
        proof {
            assert(out@ =~= base@.subrange(0, i as int));
        }
    }
    crate::strutil::push_char(&mut out, '/');
    let mut k = start;
    while k < nr
        invariant
            start <= k <= nr,
            nr == relative@.len(),
            end <= nb,
            nb == base@.len(),
            out@ == base@.subrange(0, end as int) + seq!['/'] + relative@.subrange(
                start as int,
                k as int,
            ),
        decreases nr - k,
    {
        crate::strutil::push_char(&mut out, relative.get_char(k));
        k = k + 1;
        proof {
            assert(out@ =~= base@.subrange(0, end as int) + seq!['/'] + relative@.subrange(
                start as int,
                k as int,
            ));
        }
    }
    proof {
        assert(base@.subrange(0, end as int) == strip_trailing_slashes_spec(base@)) by {
            if end < nb {
                assert(base@.subrange(0, end as int).len() == 0 || base@.subrange(
                    0,
                    end as int,
                ).last() != '/');
            }
            assert(strip_trailing_slashes_spec(base@.subrange(0, end as int)) == base@.subrange(
                0,
                end as int,
            ));
        }
        assert(relative@.subrange(start as int, nr as int) == strip_leading_slashes_spec(
            relative@,
        )) by {
            assert(strip_leading_slashes_spec(relative@.subrange(start as int, nr as int))
                == relative@.subrange(start as int, nr as int));
        }
        assert(out@ =~= strip_trailing_slashes_spec(base@) + seq!['/']
            + strip_leading_slashes_spec(relative@));
    }
    out
}

/// Index just past the last slash of `s`, or 0 when it has none.
pub open spec fn after_last_slash_spec(s: Seq<char>) -> int
    decreases s.len(),
{
    if s.len() == 0 {
        0
    } else if s.last() == '/' {
        s.len() as int
    } else {
        after_last_slash_spec(s.drop_last())
    }
}

/// The extension of the file name at the end of a slash-separated path:
/// the part after the file name's last dot.  A name without a dot, or with
/// its only dot at the front (a hidden file), has none.
pub open spec fn extension_spec(s: Seq<char>) -> Option<Seq<char>> {
    let name = s.subrange(after_last_slash_spec(s), s.len() as int);
    extension_of_name_spec(name)
}

/// The extension of a bare file name.
pub open spec fn extension_of_name_spec(name: Seq<char>) -> Option<Seq<char>>
    decreases name.len(),
{
    if name.len() == 0 {
        None
    } else if name.last() == '.' {
        if name.len() == 1 {
            None
        } else {
            extension_shift_spec(name)
        }
    } else {
        extension_shift_spec(name)
    }
}

/// The part of `name` after its last dot, unless the only dot leads the
/// name.
pub open spec fn extension_shift_spec(name: Seq<char>) -> Option<Seq<char>>
    decreases name.len(),
{
    let d = last_dot_spec(name);
    if d <= 0 {
        None
    } else {
        Some(name.subrange(d + 1, name.len() as int))
    }
}

/// Index of the last dot of `name`, or -1 when it has none.
pub open spec fn last_dot_spec(name: Seq<char>) -> int
    decreases name.len(),
{
    if name.len() == 0 {
        -1
    } else if name.last() == '.' {
        name.len() - 1
    } else {
        last_dot_spec(name.drop_last())
    }
}

/// The extension of the file named by a slash-separated path: the part of
/// the final component after its last dot; a dotless or hidden name has
/// none.
pub fn get_file_extension(path: &str) -> (r: Option<String>)
    ensures
        match r {
            Some(e) => extension_shift_applies(path@) && Some(e@) == extension_shift_spec(
                path@.subrange(after_last_slash_spec(path@), path@.len() as int),
            ),
            None => !extension_shift_applies(path@) || extension_shift_spec(
                path@.subrange(after_last_slash_spec(path@), path@.len() as int),
            ) is None,
        },
{
    let n = path.unicode_len();
    // Find the start of the final component.
    let mut start = n;
    while start > 0 && path.get_char(start - 1) != '/'
        invariant
            0 <= start <= n,
            n == path@.len(),
            forall|j: int| start <= j < n ==> path@[j] != '/',
        decreases start,
    {
        start = start - 1;
    }
    proof {
        lemma_after_last_slash(path@, start as int);
    }
    // Find the last dot of the component.
    let mut dot = n;
    let mut found = false;
    let mut k = n;
    while k > start
        invariant
            start <= k <= n,
            n == path@.len(),
            found ==> start <= dot < n && path@[dot as int] == '.' && k <= dot,
            forall|j: int| (if found { dot as int } else { k as int }) < j < n ==> path@[j] != '.',
            !found ==> forall|j: int| k as int <= j < n ==> path@[j] != '.',
        decreases k,
    {
        if !found && path.get_char(k - 1) == '.' {
            dot = k - 1;
            found = true;
        }
        k = k - 1;
    }
    let ghost name = path@.subrange(start as int, n as int);
    proof {
        lemma_last_dot(path@, start as int, if found { dot as int } else { -1 });
    }
    if !found || dot == start {
        return None;
    }
    let mut out = String::new();
    let mut i = dot + 1;
    while i < n
        invariant
            dot + 1 <= i <= n,
            n == path@.len(),
            out@ == path@.subrange(dot as int + 1, i as int),
        decreases n - i,
    {
        crate::strutil::push_char(&mut out, path.get_char(i));
        i = i + 1;
        proof {
            assert(out@ =~= path@.subrange(dot as int + 1, i as int));
        }
    }
    proof {
        assert(out@ =~= name.subrange(
            last_dot_spec(name) + 1,
            name.len() as int,
        ));
    }
    Some(out)
}

/// Whether the path's final component is long enough to look for an
/// extension at all.
pub open spec fn extension_shift_applies(s: Seq<char>) -> bool {
    s.len() > after_last_slash_spec(s)
}

proof fn lemma_after_last_slash(s: Seq<char>, start: int)
    requires
        0 <= start <= s.len(),
        forall|j: int| start <= j < s.len() ==> s[j] != '/',
        start == 0 || s[start - 1] == '/',
    ensures
        after_last_slash_spec(s) == start,
    decreases s.len(), 1int,
{
    if s.len() == 0 {
    } else if s.last() == '/' {
        assert(start == s.len());
    } else {
        assert(start < s.len());
        lemma_after_last_slash(s.drop_last(), start);
    }
}

proof fn lemma_last_dot(s: Seq<char>, start: int, dot: int)
    requires
        0 <= start <= s.len(),
        dot >= 0 ==> start <= dot < s.len() && s[dot] == '.',
        forall|j: int| (if dot >= 0 { dot } else { start - 1 }) < j < s.len() ==> s[j] != '.',
    ensures
        last_dot_spec(s.subrange(start, s.len() as int)) == if dot >= 0 {
            dot - start
        } else {
            -1
        },
    decreases s.len() - start, 1int,
{
    let name = s.subrange(start, s.len() as int);
    if name.len() == 0 {
    } else if name.last() == '.' {
        assert(s[s.len() - 1] == '.');
        assert(dot == s.len() - 1);
    } else {
        assert(name.drop_last() =~= s.subrange(start, s.len() as int - 1));
        lemma_last_dot_shrink(s, start, dot);
    }
}

proof fn lemma_last_dot_shrink(s: Seq<char>, start: int, dot: int)
    requires
        0 <= start <= s.len() - 1,
        s[s.len() - 1] != '.',
        dot >= 0 ==> start <= dot < s.len() && s[dot] == '.',
        forall|j: int| (if dot >= 0 { dot } else { start - 1 }) < j < s.len() ==> s[j] != '.',
    ensures
        last_dot_spec(s.subrange(start, s.len() as int - 1)) == if dot >= 0 {
            dot - start
        } else {
            -1
        },
    decreases s.len() - start, 0int,
{
    let t = s.subrange(0, s.len() as int - 1);
    assert(t.subrange(start, t.len() as int) =~= s.subrange(start, s.len() as int - 1));
    if dot >= 0 {
        assert(dot < s.len() - 1);
    }
    lemma_last_dot(t, start, dot);
}


/// The decimal digits of a number, most significant first.
pub open spec fn decimal_spec(n: int) -> Seq<char>
    decreases n,
{
    if n < 0 {
        Seq::empty()
    } else if n < 10 {
        seq![digit_char_spec(n)]
    } else {
        decimal_spec(n / 10).push(digit_char_spec(n % 10))
    }
}

/// The character of one decimal digit.
pub open spec fn digit_char_spec(d: int) -> char {
    ('0' as u32 + d as u32) as char
}

/// Writes a number in decimal.
pub fn u64_to_decimal(n: u64) -> (s: String)
    ensures
        s@ == decimal_spec(n as int),
{
    let mut digits: Vec<char> = Vec::new();
    let mut v = n;
    loop
        invariant_except_break
            decimal_spec(n as int) == decimal_spec(v as int) + digits@,
        ensures
            digits@ == decimal_spec(n as int),
        decreases v,
    {
        let d = (v % 10) as u32;
        let c = crate::strutil::char_from_scalar('0' as u32 + d);
        digits.insert(0, c);
        let ghost vpre = v as int;
        v = v / 10;
        proof {
            if vpre >= 10 {
                assert(decimal_spec(vpre) == decimal_spec(vpre / 10).push(
                    digit_char_spec(vpre % 10),
                ));
                assert(decimal_spec(vpre) + digits@.subrange(1, digits@.len() as int)
                    =~= decimal_spec(vpre / 10) + digits@);
            } else {
                assert(decimal_spec(vpre) =~= seq![digit_char_spec(vpre)]);
            }
        }
        if v == 0 {
            proof {
                assert(decimal_spec(n as int) =~= digits@);
            }
            break ;
        }
    }
    crate::textenc::chars_to_string(&digits)
}

/// Seconds of the Unix epoch now, written in decimal.  The value depends
/// on the wall clock; only its shape is promised.
pub fn timestamp() -> (r: String)
    ensures
        exists|n: u64| r@ == decimal_spec(n as int),
{
    let now = crate::strutil::now_unix_seconds();
    let s = u64_to_decimal(now);
    proof {
        assert(s@ == decimal_spec(now as int));
    }
    s
}

/// The unit index a byte count is displayed under: the number of times it
/// divides by 1024, up to terabytes.
pub open spec fn size_unit_spec(size: int) -> int {
    if size < 1024 {
        0
    } else if size < 1024 * 1024 {
        1
    } else if size < 1024 * 1024 * 1024 {
        2
    } else if size < 1024 * 1024 * 1024 * 1024 {
        3
    } else {
        4
    }
}

/// The unit suffix for a unit index.
pub open spec fn size_suffix_spec(unit: int) -> Seq<char> {
    if unit == 0 {
        seq![' ', 'B']
    } else if unit == 1 {
        seq![' ', 'K', 'B']
    } else if unit == 2 {
        seq![' ', 'M', 'B']
    } else if unit == 3 {
        seq![' ', 'G', 'B']
    } else {
        seq![' ', 'T', 'B']
    }
}

/// Tenths of the scaled size, rounded half to even.
pub open spec fn size_tenths_spec(size: int, div: int) -> int {
    let num = size * 10;
    let q = num / div;
    let r = num % div;
    if 2 * r > div {
        q + 1
    } else if 2 * r == div && q % 2 == 1 {
        q + 1
    } else {
        q
    }
}

/// A human-readable byte count: a plain integer for bytes, one decimal
/// place under binary units from kilobytes up.
pub open spec fn format_size_spec(size: int) -> Seq<char> {
    let unit = size_unit_spec(size);
    if unit == 0 {
        decimal_spec(size) + size_suffix_spec(0)
    } else {
        let div: int = if unit == 1 {
            1024int
        } else if unit == 2 {
            1024int * 1024
        } else if unit == 3 {
            1024int * 1024 * 1024
        } else {
            1024int * 1024 * 1024 * 1024
        };
        let tenths = size_tenths_spec(size, div);
        decimal_spec(tenths / 10) + seq!['.'] + seq![digit_char_spec(tenths % 10)]
            + size_suffix_spec(unit)
    }
}

/// Formats a byte count for display: `B` up to `TB`, with one decimal
/// place past plain bytes, rounding half to even.
pub fn format_file_size(size: u64) -> (r: String)
    ensures
        r@ == format_size_spec(size as int),
{
    let unit: u64 = if size < 1024 {
        0
    } else if size < 1024 * 1024 {
        1
    } else if size < 1024 * 1024 * 1024 {
        2
    } else if size < 1024 * 1024 * 1024 * 1024 {
        3
    } else {
        4
    };
    if unit == 0 {
        let mut out = u64_to_decimal(size);
        crate::strutil::push_char(&mut out, ' ');
        crate::strutil::push_char(&mut out, 'B');
        proof {
            assert(out@ =~= format_size_spec(size as int));
        }
        return out;
    }
    let div: u64 = if unit == 1 {
        1024
    } else if unit == 2 {
        1024 * 1024
    } else if unit == 3 {
        1024 * 1024 * 1024
    } else {
        1024 * 1024 * 1024 * 1024
    };
    // size * 10 stays below 2^64 only for small sizes; split the division
    // to avoid overflow.
    let q0 = size / div;
    let r0 = size % div;
    let num = r0 * 10;
    let q1 = num / div;
    let r1 = num % div;
    proof {
        assert(q0 as int * 10 + 10 <= 0xFFFF_FFFF_FFFF_FFFFu64) by (nonlinear_arith)
            requires
                div >= 1024,
                q0 == size as int / (div as int),
                0 <= size <= 0xFFFF_FFFF_FFFF_FFFFu64,
        ;
        assert(q1 < 10) by (nonlinear_arith)
            requires
                div >= 1024,
                r0 < div,
                num as int == r0 as int * 10,
                q1 == num as int / (div as int),
        ;
    }
    let mut tenths = q0 * 10 + q1;
    proof {
        assert((size as int) * 10 == (q0 * 10 + q1) as int * div + r1) by (nonlinear_arith)
            requires
                div > 0,
                q0 == size / div,
                r0 == size % div,
                num == r0 * 10,
                q1 == num / div,
                r1 == num % div,
                size as int * 10 <= 0xFFFF_FFFF_FFFF_FFFF * 10,
        ;
        vstd::arithmetic::div_mod::lemma_fundamental_div_mod_converse(
            size as int * 10,
            div as int,
            (q0 * 10 + q1) as int,
            r1 as int,
        );
    }
    if 2 * r1 > div {
        tenths = tenths + 1;
    } else if 2 * r1 == div && tenths % 2 == 1 {
        tenths = tenths + 1;
    }
    let whole = tenths / 10;
    let tenth = tenths % 10;
    let mut out = u64_to_decimal(whole);
    crate::strutil::push_char(&mut out, '.');
    let c = crate::strutil::char_from_scalar('0' as u32 + (tenth as u32));
    crate::strutil::push_char(&mut out, c);
    if unit == 1 {
        crate::strutil::push_char(&mut out, ' ');
        crate::strutil::push_char(&mut out, 'K');
        crate::strutil::push_char(&mut out, 'B');
    } else if unit == 2 {
        crate::strutil::push_char(&mut out, ' ');
        crate::strutil::push_char(&mut out, 'M');
        crate::strutil::push_char(&mut out, 'B');
    } else if unit == 3 {
        crate::strutil::push_char(&mut out, ' ');
        crate::strutil::push_char(&mut out, 'G');
        crate::strutil::push_char(&mut out, 'B');
    } else {
        crate::strutil::push_char(&mut out, ' ');
        crate::strutil::push_char(&mut out, 'T');
        crate::strutil::push_char(&mut out, 'B');
    }
    proof {
        assert(out@ =~= format_size_spec(size as int));
    }
    out
}


} // verus!
