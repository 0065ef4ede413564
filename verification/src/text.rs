//! Comparisons on header names, paths and header values.

use vstd::prelude::*;
use vstd::string::*;
use vstd::utf8::*;

verus! {

/// The code of `c` with the ASCII capital letters mapped to their small
/// counterparts; every other character keeps its code.
pub open spec fn lower_code(c: char) -> int {
    if 'A' <= c && c <= 'Z' {
        c as int + 32
    } else {
        c as int
    }
}

/// Two texts are the same up to the case of their ASCII letters.
pub open spec fn same_ignoring_case(a: Seq<char>, b: Seq<char>) -> bool {
    &&& a.len() == b.len()
    &&& forall|i: int| 0 <= i < a.len() ==> lower_code(#[trigger] a[i]) == lower_code(b[i])
}

/// `whole` begins with `start`.
pub open spec fn has_prefix<T>(whole: Seq<T>, start: Seq<T>) -> bool {
    start.len() <= whole.len() && whole.subrange(0, start.len() as int) == start
}

proof fn char_floor(c: char)
    ensures
        '\0' <= c,
{
}

fn lower_byte(b: u8) -> (r: u8)
    ensures
        r == if 65 <= b && b <= 90 {
            b + 32
        } else {
            b as int
        },
{
    if 65 <= b && b <= 90 {
        b + 32
    } else {
        b
    }
}

/// Compares a text with an ASCII text, ignoring the case of ASCII letters.
pub(crate) fn matches_ignoring_case(text: &str, fixed: &str) -> (r: bool)
    requires
        is_ascii_chars(fixed@),
    ensures
        r == same_ignoring_case(text@, fixed@),
{
    broadcast use is_ascii_spec_bytes;

    if !text.is_ascii() {
        proof {
            if text@.len() == fixed@.len() {
                let i = choose|i: int|
                    0 <= i < text@.len() && !('\0' <= #[trigger] text@[i] <= '\u{7f}');
                char_floor(text@[i]);
                assert(lower_code(text@[i]) > 127);
                assert(lower_code(fixed@[i]) <= 127);
            }
        }
        return false;
    }
    let a = text.as_bytes();
    let b = fixed.as_bytes();
    assert(is_ascii(text) && is_ascii(fixed));
    if a.len() != b.len() {
        return false;
    }
    let mut i: usize = 0;
    while i < a.len()
        invariant
            i <= a@.len(),
            a@.len() == b@.len(),
            a@.len() == text@.len(),
            b@.len() == fixed@.len(),
            is_ascii_chars(text@),
            is_ascii_chars(fixed@),
            forall|k: int| 0 <= k < a@.len() ==> a@[k] == text@[k] as u8,
            forall|k: int| 0 <= k < b@.len() ==> b@[k] == fixed@[k] as u8,
            forall|k: int| 0 <= k < i ==> lower_code(#[trigger] text@[k]) == lower_code(fixed@[k]),
        decreases a@.len() - i,
    {
        if lower_byte(a[i]) != lower_byte(b[i]) {
            assert(lower_code(text@[i as int]) != lower_code(fixed@[i as int]));
            return false;
        }
        i += 1;
    }
    true
}

/// Whether `text` begins with `start`, character by character.
pub fn starts_with(text: &str, start: &str) -> (r: bool)
    ensures
        r == has_prefix(text@, start@),
{
    let n: usize = start.unicode_len();
    if text.unicode_len() < n {
        return false;
    }
    let mut i: usize = 0;
    while i < n
        invariant
            i <= n,
            n == start@.len(),
            n <= text@.len(),
            forall|k: int| 0 <= k < i ==> text@[k] == start@[k],
        decreases n - i,
    {
        if text.get_char(i) != start.get_char(i) {
            assert(text@.subrange(0, n as int)[i as int] != start@[i as int]);
            return false;
        }
        i += 1;
    }
    assert(text@.subrange(0, n as int) =~= start@);
    true
}

/// Whether two byte strings are equal.
pub fn bytes_equal(a: &[u8], b: &[u8]) -> (r: bool)
    ensures
        r == (a@ == b@),
{
    if a.len() != b.len() {
        return false;
    }
    let mut i: usize = 0;
    while i < a.len()
        invariant
            i <= a@.len(),
            a@.len() == b@.len(),
            forall|k: int| 0 <= k < i ==> a@[k] == b@[k],
        decreases a@.len() - i,
    {
        if a[i] != b[i] {
            return false;
        }
        i += 1;
    }
    assert(a@ =~= b@);
    true
}

/// Whether two texts are equal.
pub fn same_text(a: &str, b: &str) -> (r: bool)
    ensures
        r == (a@ == b@),
{
    broadcast use encode_utf8_decode_utf8;

    let r = bytes_equal(a.as_bytes(), b.as_bytes());
    proof {
        if r {
            assert(decode_utf8(encode_utf8(a@)) == a@);
            assert(decode_utf8(encode_utf8(b@)) == b@);
        }
    }
    r
}

} // verus!
