//! Character classification: every character falls into exactly one of the
//! four policy classes (digit, uppercase letter, lowercase letter, other).
//! Classification is deliberately ASCII-based and total: any character
//! outside the three ASCII ranges counts as `Other`.

use vstd::prelude::*;

verus! {

/// The four character classes the policies reason about.
#[derive(Clone, Copy, Debug, PartialEq, Eq, Structural)]
pub enum CharClass {
    Digit,
    Upper,
    Lower,
    Other,
}

pub open spec fn spec_is_digit(c: char) -> bool {
    '0' <= c <= '9'
}

pub open spec fn spec_is_upper(c: char) -> bool {
    'A' <= c <= 'Z'
}

pub open spec fn spec_is_lower(c: char) -> bool {
    'a' <= c <= 'z'
}

/// The class of a character.
pub open spec fn spec_classify(c: char) -> CharClass {
    if spec_is_digit(c) {
        CharClass::Digit
    } else if spec_is_upper(c) {
        CharClass::Upper
    } else if spec_is_lower(c) {
        CharClass::Lower
    } else {
        CharClass::Other
    }
}

/// Classifies one character.
pub fn classify(c: char) -> (r: CharClass)
    ensures
        r == spec_classify(c),
{
    if '0' <= c && c <= '9' {
        CharClass::Digit
    } else if 'A' <= c && c <= 'Z' {
        CharClass::Upper
    } else if 'a' <= c && c <= 'z' {
        CharClass::Lower
    } else {
        CharClass::Other
    }
}

/// The code point of a character with ASCII uppercase letters folded to
/// their lowercase counterparts; two characters are case-folded equal
/// exactly when their folded codes agree.
pub open spec fn spec_fold_code(c: char) -> int {
    if spec_is_upper(c) {
        (c as u32) + 32
    } else {
        (c as u32) as int
    }
}

/// The case-folded code of one character.
pub fn fold_code(c: char) -> (r: u32)
    ensures
        r as int == spec_fold_code(c),
{
    proof {
        vstd::utf8::char_is_scalar(c);
    }
    if 'A' <= c && c <= 'Z' {
        c as u32 + 32
    } else {
        c as u32
    }
}

/// How many characters of `s` belong to class `cl`.
pub open spec fn spec_class_count(s: Seq<char>, cl: CharClass) -> nat
    decreases s.len(),
{
    if s.len() == 0 {
        0
    } else {
        spec_class_count(s.drop_last(), cl) + (if spec_classify(s.last()) == cl {
            1nat
        } else {
            0nat
        })
    }
}

/// Counts the characters of `s` that belong to class `cl`.
pub fn count_class(s: &Vec<char>, cl: CharClass) -> (r: usize)
    ensures
        r as nat == spec_class_count(s@, cl),
        r <= s@.len(),
{
    let mut count: usize = 0;
    let mut i: usize = 0;
    while i < s.len()
        invariant
            i <= s@.len(),
            count <= i,
            count as nat == spec_class_count(s@.take(i as int), cl),
        decreases s@.len() - i,
    {
        proof {
            assert(s@.take(i + 1).drop_last() =~= s@.take(i as int));
            assert(s@.take(i + 1).last() == s@[i as int]);
        }
        if classify(s[i]) == cl {
            count = count + 1;
        }
        i = i + 1;
    }
    proof {
        assert(s@.take(s@.len() as int) =~= s@);
    }
    count
}

/// Whitespace for the purposes of splitting word lists: the ASCII blanks.
pub open spec fn spec_is_space(c: char) -> bool {
    c == ' ' || c == '\t' || c == '\n' || c == '\r'
}

/// Tests whether a character is list-separating whitespace.
pub fn is_space(c: char) -> (r: bool)
    ensures
        r == spec_is_space(c),
{
    c == ' ' || c == '\t' || c == '\n' || c == '\r'
}

} // verus!
