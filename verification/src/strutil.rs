//! Character-level string helpers: equality, case-insensitive substring
//! search, first/last occurrence of a character and decimal parsing.
//!
//! Exec code works on `Vec<char>` copies of the input so that every step is
//! visible to the verifier; the contracts speak about the `Seq<char>` views.

use vstd::prelude::*;

verus! {

use vstd::std_specs::iter::IteratorSpec;

/// True when `c` is an ASCII upper-case letter.
pub open spec fn is_ascii_upper(c: char) -> bool {
    65 <= c as u32 && c as u32 <= 90
}

/// One text character matches one pattern character when they are equal, or
/// when the text character is the ASCII upper-case form of the pattern one.
pub open spec fn matches_ci(text: char, pat: char) -> bool {
    text as u32 == pat as u32 || (is_ascii_upper(text) && text as u32 + 32 == pat as u32)
}

/// The needle matches the haystack at position `i`, case-insensitively.
pub open spec fn matches_ci_at(hay: Seq<char>, needle: Seq<char>, i: int) -> bool {
    &&& 0 <= i
    &&& i + needle.len() <= hay.len()
    &&& forall|j: int| 0 <= j < needle.len() ==> matches_ci(hay[i + j], needle[j])
}

/// The haystack contains the needle somewhere, case-insensitively.
pub open spec fn contains_ci(hay: Seq<char>, needle: Seq<char>) -> bool {
    exists|i: int| matches_ci_at(hay, needle, i)
}

/// Index of the first occurrence of `c` in `s`; `s.len()` when absent.
pub open spec fn first_occ(s: Seq<char>, c: char) -> int
    decreases s.len(),
{
    if s.len() == 0 {
        0
    } else if s[0] == c {
        0
    } else {
        1 + first_occ(s.drop_first(), c)
    }
}

/// Index of the last occurrence of `c` in `s`; `-1` when absent.
pub open spec fn last_occ(s: Seq<char>, c: char) -> int
    decreases s.len(),
{
    if s.len() == 0 {
        -1
    } else if s.last() == c {
        s.len() - 1
    } else {
        last_occ(s.drop_last(), c)
    }
}

/// True when `c` is a decimal digit.
pub open spec fn is_digit(c: char) -> bool {
    48 <= c as u32 && c as u32 <= 57
}

/// Numeric value of a digit character.
pub open spec fn digit_val(c: char) -> int {
    c as u32 - 48
}

/// Every character of `s` is a decimal digit.
pub open spec fn all_digits(s: Seq<char>) -> bool {
    forall|i: int| 0 <= i < s.len() ==> is_digit(s[i])
}

/// Value of a sequence of decimal digits, most significant first.
pub open spec fn digits_val(s: Seq<char>) -> int
    decreases s.len(),
{
    if s.len() == 0 {
        0
    } else {
        digits_val(s.drop_last()) * 10 + digit_val(s.last())
    }
}

proof fn lemma_first_occ_bounds(s: Seq<char>, c: char)
    ensures
        0 <= first_occ(s, c) <= s.len(),
        first_occ(s, c) < s.len() ==> s[first_occ(s, c)] == c,
        forall|j: int| 0 <= j < first_occ(s, c) ==> s[j] != c,
    decreases s.len(),
{
    if s.len() > 0 && s[0] != c {
        lemma_first_occ_bounds(s.drop_first(), c);
        assert forall|j: int| 0 <= j < first_occ(s, c) implies s[j] != c by {
            if j > 0 {
                assert(s.drop_first()[j - 1] == s[j]);
            }
        }
    }
}

proof fn lemma_last_occ_bounds(s: Seq<char>, c: char)
    ensures
        -1 <= last_occ(s, c) < s.len(),
        last_occ(s, c) >= 0 ==> s[last_occ(s, c)] == c,
        forall|j: int| last_occ(s, c) < j < s.len() ==> s[j] != c,
    decreases s.len(),
{
    if s.len() > 0 && s.last() != c {
        lemma_last_occ_bounds(s.drop_last(), c);
        assert forall|j: int| last_occ(s, c) < j < s.len() implies s[j] != c by {
            if j < s.len() - 1 {
                assert(s.drop_last()[j] == s[j]);
            }
        }
    }
}

proof fn lemma_digits_val_nonneg(s: Seq<char>)
    requires
        all_digits(s),
    ensures
        digits_val(s) >= 0,
    decreases s.len(),
{
    if s.len() > 0 {
        lemma_digits_val_nonneg(s.drop_last());
    }
}

/// Copies the characters of `s` into a vector.
pub fn to_chars(s: &str) -> (r: Vec<char>)
    ensures
        r@ == s@,
{
    broadcast use vstd::string::group_string_axioms;
    broadcast use vstd::string::next_postcondition;

    let mut it = s.chars();
    let mut out: Vec<char> = Vec::new();
    loop
        invariant
            out@ + it.remaining() == s@,
            it.decrease() is Some,
        decreases it.decrease()->0,
    {
        match it.next() {
            Some(c) => {
                out.push(c);
                proof {
                    assert(out@ + it.remaining() =~= s@);
                }
            },
            None => {
                proof {
                    assert(out@ =~= s@);
                }
                return out;
            },
        }
    }
}

/// Equality of two string slices, decided on owned copies.
pub fn str_eq(a: &str, b: &str) -> (r: bool)
    ensures
        r == (a@ == b@),
{
    let oa = a.to_owned();
    let ob = b.to_owned();
    oa == ob
}

/// Whether `hay` contains `needle` as a case-insensitive substring.
pub fn contains_chars_ci(hay: &Vec<char>, needle: &Vec<char>) -> (r: bool)
    ensures
        r == contains_ci(hay@, needle@),
{
    if needle.len() > hay.len() {
        return false;
    }
    let hay_len = hay.len();
    let needle_len = needle.len();
    let mut i: usize = 0;
    while i <= hay_len - needle_len
        invariant
            hay_len == hay@.len(),
            needle_len == needle@.len(),
            needle@.len() <= hay@.len(),
            i <= hay@.len() - needle@.len() + 1,
            forall|i0: int| 0 <= i0 < i ==> !matches_ci_at(hay@, needle@, i0),
        decreases hay@.len() - needle@.len() + 1 - i,
    {
        if match_ci_here(hay, needle, i) {
            return true;
        }
        i += 1;
    }
    false
}

/// Whether the needle matches the haystack at position `i`.
fn match_ci_here(hay: &Vec<char>, needle: &Vec<char>, i: usize) -> (r: bool)
    requires
        i + needle@.len() <= hay@.len(),
    ensures
        r == matches_ci_at(hay@, needle@, i as int),
{
    let hay_len = hay.len();
    let mut j: usize = 0;
    while j < needle.len()
        invariant
            hay_len == hay@.len(),
            i + needle@.len() <= hay@.len(),
            j <= needle@.len(),
            forall|j0: int| 0 <= j0 < j ==> matches_ci(hay@[i + j0], needle@[j0]),
        decreases needle@.len() - j,
    {
        let t = hay[i + j] as u32;
        let p = needle[j] as u32;
        if t == p || (65 <= t && t <= 90 && t + 32 == p) {
            assert(matches_ci(hay@[i + j], needle@[j as int]));
            j += 1;
        } else {
            assert(!matches_ci(hay@[i + j], needle@[j as int]));
            return false;
        }
    }
    true
}

/// Index of the first occurrence of `c` in `s`, if any.
pub fn find_char(s: &Vec<char>, c: char) -> (r: Option<usize>)
    ensures
        r matches Some(i) ==> i == first_occ(s@, c) && i < s@.len(),
        r is None ==> first_occ(s@, c) == s@.len(),
{
    proof {
        lemma_first_occ_bounds(s@, c);
    }
    let mut i: usize = 0;
    while i < s.len()
        invariant
            i <= s@.len(),
            0 <= first_occ(s@, c) <= s@.len(),
            first_occ(s@, c) < s@.len() ==> s@[first_occ(s@, c)] == c,
            forall|j: int| 0 <= j < first_occ(s@, c) ==> s@[j] != c,
            forall|j: int| 0 <= j < i ==> s@[j] != c,
        decreases s@.len() - i,
    {
        if s[i] == c {
            return Some(i);
        }
        i += 1;
    }
    None
}

/// Index of the last occurrence of `c` in `s`, if any.
pub fn rfind_char(s: &Vec<char>, c: char) -> (r: Option<usize>)
    ensures
        r matches Some(i) ==> i == last_occ(s@, c) && i < s@.len(),
        r is None ==> last_occ(s@, c) == -1,
{
    proof {
        lemma_last_occ_bounds(s@, c);
    }
    let mut i: usize = s.len();
    while i > 0
        invariant
            i <= s@.len(),
            -1 <= last_occ(s@, c) < s@.len(),
            last_occ(s@, c) >= 0 ==> s@[last_occ(s@, c)] == c,
            forall|j: int| last_occ(s@, c) < j < s@.len() ==> s@[j] != c,
            forall|j: int| i <= j < s@.len() ==> s@[j] != c,
        decreases i,
    {
        i -= 1;
        if s[i] == c {
            return Some(i);
        }
    }
    None
}

/// Parses `s` as a decimal `u16`: defined exactly when `s` is non-empty, all
/// digits, and its value fits.
pub fn parse_u16(s: &Vec<char>) -> (r: Option<u16>)
    ensures
        r is Some <==> s@.len() > 0 && all_digits(s@) && digits_val(s@) <= 65535,
        r matches Some(v) ==> v == digits_val(s@),
{
    if s.len() == 0 {
        return None;
    }
    let mut acc: u32 = 0;
    let mut i: usize = 0;
    while i < s.len()
        invariant
            s@.len() > 0,
            i <= s@.len(),
            acc <= 65535,
            all_digits(s@.take(i as int)),
            acc == digits_val(s@.take(i as int)),
        decreases s@.len() - i,
    {
        let c = s[i] as u32;
        if !(48 <= c && c <= 57) {
            assert(!is_digit(s@[i as int]));
            return None;
        }
        let d = c - 48;
        proof {
            assert(is_digit(s@[i as int]));
            assert(s@.take(i + 1).drop_last() =~= s@.take(i as int));
            assert(s@.take(i + 1).last() == s@[i as int]);
            assert(all_digits(s@.take(i + 1))) by {
                assert forall|j: int| 0 <= j < i + 1 implies is_digit(#[trigger] s@.take(i + 1)[j]) by {
                    if j < i {
                        assert(s@.take(i + 1)[j] == s@.take(i as int)[j]);
                    } else {
                        assert(s@.take(i + 1)[j] == s@[i as int]);
                    }
                }
            }
            assert(digits_val(s@.take(i + 1)) == digits_val(s@.take(i as int)) * 10 + digit_val(
                s@[i as int],
            ));
        }
        acc = acc * 10 + d;
        i += 1;
        if acc > 65535 {
            proof {
                if all_digits(s@) {
                    lemma_digits_val_prefix(s@, i as int);
                }
            }
            return None;
        }
    }
    proof {
        assert(s@.take(s@.len() as int) =~= s@);
    }
    Some(acc as u16)
}

/// A digit appended on the right never lowers the value: the value of any
/// prefix bounds the value of the whole sequence from below.
proof fn lemma_digits_val_prefix(s: Seq<char>, i: int)
    requires
        0 <= i <= s.len(),
        all_digits(s),
    ensures
        digits_val(s) >= digits_val(s.take(i)),
    decreases s.len() - i,
{
    if i < s.len() {
        assert(s.take(i + 1).drop_last() =~= s.take(i));
        assert(all_digits(s.take(i))) by {
            assert forall|j: int| 0 <= j < i implies is_digit(s.take(i)[j]) by {
                assert(s.take(i)[j] == s[j]);
            }
        }
        lemma_digits_val_nonneg(s.take(i));
        assert(is_digit(s.take(i + 1).last()));
        assert(digits_val(s.take(i + 1)) >= digits_val(s.take(i)));
        lemma_digits_val_prefix(s, i + 1);
    } else {
        assert(s.take(i) =~= s);
    }
}

} // verus!
