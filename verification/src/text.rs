use vstd::prelude::*;
use vstd::string::StrSliceExecFns;

verus! {

/// The ASCII whitespace characters: space, tab, line feed, form feed,
/// carriage return.
pub open spec fn spec_is_ascii_space(c: char) -> bool {
    c == ' ' || c == '\t' || c == '\n' || c == '\u{c}' || c == '\r'
}

/// The ASCII whitespace characters: space, tab, line feed, form feed,
/// carriage return.
pub fn is_ascii_space(c: char) -> (r: bool)
    ensures
        r == spec_is_ascii_space(c),
{
    c == ' ' || c == '\t' || c == '\n' || c == '\u{c}' || c == '\r'
}

/// The ASCII control characters: code points below 0x20, and DEL (0x7f).
pub open spec fn spec_is_ascii_control(c: char) -> bool {
    (c as u32) < 0x20 || (c as u32) == 0x7f
}

/// The ASCII control characters: code points below 0x20, and DEL (0x7f).
pub fn is_ascii_control(c: char) -> (r: bool)
    ensures
        r == spec_is_ascii_control(c),
{
    let u: u32 = c as u32;
    u < 0x20 || u == 0x7f
}

/// Character-for-character string equality.
pub fn str_eq(a: &str, b: &str) -> (r: bool)
    ensures
        r == (a@ == b@),
{
    let alen: usize = a.unicode_len();
    let blen: usize = b.unicode_len();
    if alen != blen {
        return false;
    }
    let mut i: usize = 0;
    while i < alen
        invariant
            i <= alen,
            alen == a@.len(),
            alen == b@.len(),
            forall|j: int| 0 <= j < i ==> a@[j] == b@[j],
        decreases alen - i,
    {
        if a.get_char(i) != b.get_char(i) {
            proof {
                assert(a@[i as int] != b@[i as int]);
            }
            return false;
        }
        i = i + 1;
    }
    proof {
        assert(a@ =~= b@);
    }
    true
}

/// An upper-case ASCII letter mapped to its lower-case form; every other
/// character is left as it is.
pub open spec fn spec_lower_char(c: char) -> char {
    if 'A' <= c && c <= 'Z' {
        ((c as u32) + 32) as char
    } else {
        c
    }
}

/// Every character of `s` through `spec_lower_char`.
pub open spec fn spec_lower(s: Seq<char>) -> Seq<char> {
    s.map_values(|c: char| spec_lower_char(c))
}

/// Equality of two characters up to ASCII case.
pub fn chars_eq_nocase(a: char, b: char) -> (r: bool)
    ensures
        r == (spec_lower_char(a) == spec_lower_char(b)),
{
    let ua: u32 = a as u32;
    let ub: u32 = b as u32;
    let la: u32 = if 65 <= ua && ua <= 90 { ua + 32 } else { ua };
    let lb: u32 = if 65 <= ub && ub <= 90 { ub + 32 } else { ub };
    la == lb
}

/// Equality of two strings up to ASCII case.
pub fn str_eq_nocase(a: &str, b: &str) -> (r: bool)
    ensures
        r == (spec_lower(a@) == spec_lower(b@)),
{
    let alen: usize = a.unicode_len();
    let blen: usize = b.unicode_len();
    if alen != blen {
        proof {
            assert(spec_lower(a@).len() != spec_lower(b@).len());
        }
        return false;
    }
    let mut i: usize = 0;
    while i < alen
        invariant
            i <= alen,
            alen == a@.len(),
            alen == b@.len(),
            forall|j: int| 0 <= j < i ==> spec_lower_char(a@[j]) == spec_lower_char(b@[j]),
        decreases alen - i,
    {
        if !chars_eq_nocase(a.get_char(i), b.get_char(i)) {
            proof {
                assert(spec_lower(a@)[i as int] != spec_lower(b@)[i as int]);
            }
            return false;
        }
        i = i + 1;
    }
    proof {
        assert(spec_lower(a@) =~= spec_lower(b@));
    }
    true
}

/// True when `suf` is a suffix of `s`.
pub open spec fn spec_ends_with(s: Seq<char>, suf: Seq<char>) -> bool {
    suf.len() <= s.len() && s.subrange(s.len() - suf.len(), s.len() as int) == suf
}

/// True when `suf` is a suffix of `s`.
pub fn str_ends_with(s: &str, suf: &str) -> (r: bool)
    ensures
        r == spec_ends_with(s@, suf@),
{
    let slen: usize = s.unicode_len();
    let flen: usize = suf.unicode_len();
    if flen > slen {
        return false;
    }
    let mut i: usize = 0;
    while i < flen
        invariant
            i <= flen,
            flen <= slen,
            slen == s@.len(),
            flen == suf@.len(),
            forall|j: int| 0 <= j < i ==> s@[slen - flen + j] == suf@[j],
        decreases flen - i,
    {
        if s.get_char(slen - flen + i) != suf.get_char(i) {
            proof {
                assert(s@.subrange(s@.len() - suf@.len(), s@.len() as int)[i as int]
                    != suf@[i as int]);
            }
            return false;
        }
        i = i + 1;
    }
    proof {
        assert(s@.subrange(s@.len() - suf@.len(), s@.len() as int) =~= suf@);
    }
    true
}

/// `s` with every trailing copy of the (non-empty) suffix `suf` removed,
/// one copy after another.
pub open spec fn spec_strip_all(s: Seq<char>, suf: Seq<char>) -> Seq<char>
    decreases s.len(),
{
    if suf.len() > 0 && spec_ends_with(s, suf) {
        spec_strip_all(s.subrange(0, s.len() - suf.len()), suf)
    } else {
        s
    }
}

/// `s` with every trailing copy of `suf` removed, one copy after another;
/// an empty `suf` leaves `s` as it is.
pub fn strip_suffix_all<'a>(s: &'a str, suf: &str) -> (r: &'a str)
    ensures
        r@ == spec_strip_all(s@, suf@),
    decreases s@.len(),
{
    let flen: usize = suf.unicode_len();
    if flen == 0 {
        return s;
    }
    if str_ends_with(s, suf) {
        let slen: usize = s.unicode_len();
        let shorter: &str = s.substring_char(0, slen - flen);
        strip_suffix_all(shorter, suf)
    } else {
        s
    }
}

/// `s` without its leading ASCII whitespace.
pub open spec fn spec_trim_start(s: Seq<char>) -> Seq<char>
    decreases s.len(),
{
    if s.len() > 0 && spec_is_ascii_space(s[0]) {
        spec_trim_start(s.subrange(1, s.len() as int))
    } else {
        s
    }
}

/// `s` without its trailing ASCII whitespace.
pub open spec fn spec_trim_end(s: Seq<char>) -> Seq<char>
    decreases s.len(),
{
    if s.len() > 0 && spec_is_ascii_space(s[s.len() - 1]) {
        spec_trim_end(s.subrange(0, s.len() - 1))
    } else {
        s
    }
}

/// `s` without leading and trailing ASCII whitespace.
pub open spec fn spec_trim(s: Seq<char>) -> Seq<char> {
    spec_trim_end(spec_trim_start(s))
}

/// `s` without its leading ASCII whitespace.
pub fn trim_start(s: &str) -> (r: &str)
    ensures
        r@ == spec_trim_start(s@),
    decreases s@.len(),
{
    let len: usize = s.unicode_len();
    if len > 0 && is_ascii_space(s.get_char(0)) {
        trim_start(s.substring_char(1, len))
    } else {
        s
    }
}

/// `s` without its trailing ASCII whitespace.
pub fn trim_end(s: &str) -> (r: &str)
    ensures
        r@ == spec_trim_end(s@),
    decreases s@.len(),
{
    let len: usize = s.unicode_len();
    if len > 0 && is_ascii_space(s.get_char(len - 1)) {
        trim_end(s.substring_char(0, len - 1))
    } else {
        s
    }
}

/// `s` without leading and trailing ASCII whitespace.
pub fn trim(s: &str) -> (r: &str)
    ensures
        r@ == spec_trim(s@),
{
    trim_end(trim_start(s))
}

/// The index of the first occurrence of `sep` in `s`, or `s.len()` when
/// `sep` does not occur.
pub open spec fn spec_first_sep(s: Seq<char>, sep: char) -> nat
    decreases s.len(),
{
    if s.len() == 0 {
        0
    } else if s[0] == sep {
        0
    } else {
        1 + spec_first_sep(s.subrange(1, s.len() as int), sep)
    }
}

/// The first occurrence of `sep` lies within `s`, or just past its end.
pub proof fn lemma_first_sep_bounds(s: Seq<char>, sep: char)
    ensures
        spec_first_sep(s, sep) <= s.len(),
        spec_first_sep(s, sep) < s.len() ==> s[spec_first_sep(s, sep) as int] == sep,
        forall|j: int| 0 <= j < spec_first_sep(s, sep) ==> s[j] != sep,
    decreases s.len(),
{
    if s.len() == 0 {
    } else if s[0] == sep {
    } else {
        let sub = s.subrange(1, s.len() as int);
        lemma_first_sep_bounds(sub, sep);
        assert forall|j: int| 0 <= j < spec_first_sep(s, sep) implies s[j] != sep by {
            if j > 0 {
                assert(sub[j - 1] != sep);
            }
        }
    }
}

/// The index of the first occurrence of `sep` in `s`, or the length of
/// `s` when `sep` does not occur.
pub fn find_first_sep(s: &str, sep: char) -> (r: usize)
    ensures
        r == spec_first_sep(s@, sep),
    decreases s@.len(),
{
    let len: usize = s.unicode_len();
    if len == 0 {
        0
    } else if s.get_char(0) == sep {
        0
    } else {
        proof {
            lemma_first_sep_bounds(s@.subrange(1, s@.len() as int), sep);
        }
        1 + find_first_sep(s.substring_char(1, len), sep)
    }
}

} // verus!

