use vstd::prelude::*;
use vstd::string::StrSliceExecFns;

verus! {

/// ASCII-only case folding: two characters are the same token letter when
/// they are equal, or when one is the ASCII uppercase form of the other.
pub open spec fn chars_eq_ignore_ascii_case(a: char, b: char) -> bool {
    ||| a == b
    ||| (65 <= a as u32 <= 90 && a as u32 + 32 == b as u32)
    ||| (65 <= b as u32 <= 90 && b as u32 + 32 == a as u32)
}

/// A token matches a target when they have the same length and agree at
/// every position up to ASCII case.
pub open spec fn token_matches(s: Seq<char>, t: Seq<char>) -> bool {
    s.len() == t.len() && (forall|i: int|
        0 <= i < s.len() ==> chars_eq_ignore_ascii_case(s[i], t[i]))
}

/// Decides [`token_matches`] for two character sequences.
pub fn token_matches_exec(s: &str, t: &str) -> (r: bool)
    ensures
        r == token_matches(s@, t@),
{
    let n = s.unicode_len();
    if n != t.unicode_len() {
        return false;
    }
    let mut i: usize = 0;
    while i < n
        invariant
            0 <= i <= n,
            n == s@.len(),
            n == t@.len(),
            forall|j: int| 0 <= j < i ==> chars_eq_ignore_ascii_case(s@[j], t@[j]),
        decreases n - i,
    {
        let a = s.get_char(i);
        let b = t.get_char(i);
        let au = a as u32;
        let bu = b as u32;
        let same = a == b || (65 <= au && au <= 90 && au + 32 == bu) || (65 <= bu && bu <= 90
            && bu + 32 == au);
        if !same {
            assert(!chars_eq_ignore_ascii_case(s@[i as int], t@[i as int]));
            return false;
        }
        i += 1;
    }
    true
}

/// One position of the hyphenated UUID text: a hyphen at the four fixed
/// separator positions, a lowercase hexadecimal digit everywhere else.
pub open spec fn uuid_position_ok(s: Seq<char>, i: int) -> bool {
    if i == 8 || i == 13 || i == 18 || i == 23 {
        s[i] == '-'
    } else {
        (48 <= s[i] as u32 <= 57) || (97 <= s[i] as u32 <= 102)
    }
}

/// The hyphenated lowercase rendering of a version-4 UUID: 36 characters,
/// hyphens at positions 8, 13, 18 and 23, lowercase hexadecimal digits
/// elsewhere, the version nibble `4` at position 14 and an RFC 4122 variant
/// nibble at position 19.
pub open spec fn is_uuid_v4_text(s: Seq<char>) -> bool {
    &&& s.len() == 36
    &&& forall|i: int| 0 <= i < 36 ==> uuid_position_ok(s, i)
    &&& s[14] == '4'
    &&& (s[19] == '8' || s[19] == '9' || s[19] == 'a' || s[19] == 'b')
}

/// Decides [`is_uuid_v4_text`] for a string.
pub fn is_valid_uuid_v4(s: &str) -> (r: bool)
    ensures
        r == is_uuid_v4_text(s@),
{
    let n = s.unicode_len();
    if n != 36 {
        return false;
    }
    let mut i: usize = 0;
    while i < 36
        invariant
            0 <= i <= 36,
            s@.len() == 36,
            forall|j: int| 0 <= j < i ==> uuid_position_ok(s@, j),
        decreases 36 - i,
    {
        let c = s.get_char(i);
        let cu = c as u32;
        let ok = if i == 8 || i == 13 || i == 18 || i == 23 {
            c == '-'
        } else {
            (48 <= cu && cu <= 57) || (97 <= cu && cu <= 102)
        };
        if !ok {
            assert(!uuid_position_ok(s@, i as int));
            return false;
        }
        i += 1;
    }
    let version = s.get_char(14);
    if version != '4' {
        return false;
    }
    let variant = s.get_char(19);
    variant == '8' || variant == '9' || variant == 'a' || variant == 'b'
}

} // verus!
