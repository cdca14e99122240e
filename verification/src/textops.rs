//! Verified text primitives the structural and lookup-backed checks are
//! built from: reversal, case-folded comparison, rotation, runs of equal,
//! same-class or monotonic characters, substring search, and whitespace
//! splitting.

use vstd::prelude::*;
use vstd::string::StrSliceExecFns;
use vstd::string::StringExecFns;

use crate::classify::{
    fold_code, is_space, spec_classify, spec_fold_code, spec_is_space, CharClass,
};

verus! {

/// Collects the characters of a string into a vector, preserving the view.
pub fn chars_vec(s: &str) -> (r: Vec<char>)
    ensures
        r@ == s@,
{
    let len: usize = s.unicode_len();
    let mut out: Vec<char> = Vec::new();
    let mut i: usize = 0;
    while i < len
        invariant
            i <= len,
            len == s@.len(),
            out@ == s@.take(i as int),
        decreases len - i,
    {
        out.push(s.get_char(i));
        i = i + 1;
        proof {
            assert(out@ =~= s@.take(i as int));
        }
    }
    proof {
        assert(s@.take(len as int) =~= s@);
    }
    out
}

/// Compares two character vectors for equality of their contents.
pub fn eq_chars(a: &Vec<char>, b: &Vec<char>) -> (r: bool)
    ensures
        r == (a@ == b@),
{
    if a.len() != b.len() {
        return false;
    }
    let mut i: usize = 0;
    while i < a.len()
        invariant
            i <= a.len(),
            a@.len() == b@.len(),
            forall|j: int| 0 <= j < i ==> a@[j] == b@[j],
        decreases a.len() - i,
    {
        if a[i] != b[i] {
            return false;
        }
        i = i + 1;
    }
    proof {
        assert(a@ =~= b@);
    }
    true
}

/// Tests whether `a` reads as `b` reversed.
pub fn is_reverse_of(a: &Vec<char>, b: &Vec<char>) -> (r: bool)
    ensures
        r == (a@ == b@.reverse()),
{
    if a.len() != b.len() {
        return false;
    }
    let len: usize = a.len();
    let mut i: usize = 0;
    while i < len
        invariant
            i <= len,
            len == a@.len(),
            len == b@.len(),
            forall|j: int| 0 <= j < i ==> a@[j] == b@[len - 1 - j],
        decreases len - i,
    {
        if a[i] != b[len - 1 - i] {
            proof {
                assert(b@.reverse()[i as int] == b@[len - 1 - i]);
            }
            return false;
        }
        i = i + 1;
    }
    proof {
        assert(a@ =~= b@.reverse());
    }
    true
}

/// Builds the reversal of a character vector.
pub fn reversed(v: &Vec<char>) -> (r: Vec<char>)
    ensures
        r@ == v@.reverse(),
{
    let len: usize = v.len();
    let mut out: Vec<char> = Vec::new();
    let mut i: usize = 0;
    while i < len
        invariant
            i <= len,
            len == v@.len(),
            out@.len() == i,
            forall|j: int| 0 <= j < i ==> out@[j] == v@[len - 1 - j],
        decreases len - i,
    {
        out.push(v[len - 1 - i]);
        i = i + 1;
    }
    proof {
        assert(out@ =~= v@.reverse());
    }
    out
}

/// Two texts are case-folded equal when they have the same length and agree
/// character by character up to ASCII letter case.
pub open spec fn spec_case_folded_eq(a: Seq<char>, b: Seq<char>) -> bool {
    a.len() == b.len() && forall|i: int|
        0 <= i < a.len() ==> spec_fold_code(a[i]) == spec_fold_code(b[i])
}

/// Tests whether `a` differs from `b` at most by ASCII letter case.
pub fn case_folded_eq(a: &Vec<char>, b: &Vec<char>) -> (r: bool)
    ensures
        r == spec_case_folded_eq(a@, b@),
{
    if a.len() != b.len() {
        return false;
    }
    let mut i: usize = 0;
    while i < a.len()
        invariant
            i <= a.len(),
            a@.len() == b@.len(),
            forall|j: int| 0 <= j < i ==> spec_fold_code(a@[j]) == spec_fold_code(b@[j]),
        decreases a.len() - i,
    {
        if fold_code(a[i]) != fold_code(b[i]) {
            return false;
        }
        i = i + 1;
    }
    true
}

/// `a` is `b` rotated left by `k` places.
pub open spec fn spec_rotation_at(a: Seq<char>, b: Seq<char>, k: int) -> bool {
    a == b.subrange(k, b.len() as int) + b.subrange(0, k)
}

/// `a` is some cyclic rotation of `b`.
pub open spec fn spec_is_rotation(a: Seq<char>, b: Seq<char>) -> bool {
    a.len() == b.len() && exists|k: int| 0 <= k <= b.len() && spec_rotation_at(a, b, k)
}

/// Tests whether `a` is `b` rotated left by `k` places, by characters.
fn rotation_at(a: &Vec<char>, b: &Vec<char>, k: usize) -> (r: bool)
    requires
        a@.len() == b@.len(),
        k <= b@.len(),
    ensures
        r == spec_rotation_at(a@, b@, k as int),
{
    let len: usize = a.len();
    let ghost rot: Seq<char> = b@.subrange(k as int, len as int) + b@.subrange(0, k as int);
    let mut i: usize = 0;
    while i < len
        invariant
            i <= len,
            len == a@.len(),
            len == b@.len(),
            k <= len,
            rot == b@.subrange(k as int, len as int) + b@.subrange(0, k as int),
            forall|j: int| 0 <= j < i ==> a@[j] == rot[j],
        decreases len - i,
    {
        let j: usize = if i < len - k {
            i + k
        } else {
            i - (len - k)
        };
        proof {
            assert(rot.len() == len);
            assert(rot[i as int] == b@[j as int]);
        }
        if a[i] != b[j] {
            return false;
        }
        i = i + 1;
    }
    proof {
        assert(rot.len() == len);
        assert(a@ =~= rot);
    }
    true
}

/// Tests whether `a` is a cyclic rotation of `b`.
pub fn is_rotation_of(a: &Vec<char>, b: &Vec<char>) -> (r: bool)
    ensures
        r == spec_is_rotation(a@, b@),
{
    if a.len() != b.len() {
        return false;
    }
    let len: usize = a.len();
    let mut k: usize = 0;
    while k < len
        invariant
            k <= len,
            len == a@.len(),
            len == b@.len(),
            forall|k2: int| 0 <= k2 < k ==> !spec_rotation_at(a@, b@, k2),
        decreases len - k,
    {
        if rotation_at(a, b, k) {
            return true;
        }
        k = k + 1;
    }
    // Rotating by the full length is the identity rotation, so only the
    // offsets below the length need to have been tried (with offset zero
    // standing in for both when the text is empty).
    if len == 0 {
        proof {
            assert(a@ =~= b@.subrange(0, b@.len() as int) + b@.subrange(0, 0));
            assert(spec_rotation_at(a@, b@, 0));
        }
        return true;
    }
    proof {
        assert(b@.subrange(len as int, b@.len() as int) + b@.subrange(0, len as int) =~= b@);
        assert(b@.subrange(0, b@.len() as int) + b@.subrange(0, 0) =~= b@);
        if spec_rotation_at(a@, b@, len as int) {
            assert(a@ == b@);
            assert(spec_rotation_at(a@, b@, 0));
        }
    }
    false
}

/// The `k` characters starting at `i` are all equal.
pub open spec fn spec_equal_window(s: Seq<char>, i: int, k: int) -> bool {
    forall|j: int| i <= j < i + k ==> s[j] == s[i]
}

/// Somewhere in `s`, `k` consecutive characters are all equal.
pub open spec fn spec_has_equal_run(s: Seq<char>, k: int) -> bool {
    exists|i: int| 0 <= i && i + k <= s.len() && spec_equal_window(s, i, k)
}

/// Tests whether `s` holds `k` consecutive equal characters.
pub fn has_equal_run(s: &Vec<char>, k: usize) -> (r: bool)
    requires
        k >= 1,
    ensures
        r == spec_has_equal_run(s@, k as int),
{
    let len: usize = s.len();
    if len < k {
        return false;
    }
    let mut i: usize = 0;
    while i <= len - k
        invariant
            i <= len - k + 1,
            k >= 1,
            k <= len,
            len == s@.len(),
            forall|i2: int| 0 <= i2 < i ==> !spec_equal_window(s@, i2, k as int),
        decreases len - i,
    {
        let mut j: usize = i;
        let mut all_eq: bool = true;
        while j < i + k
            invariant
                i <= j <= i + k,
                i + k <= len,
                len == s@.len(),
                all_eq == (forall|j2: int| i <= j2 < j ==> s@[j2] == s@[i as int]),
            decreases i + k - j,
        {
            if s[j] != s[i] {
                all_eq = false;
            }
            j = j + 1;
        }
        if all_eq {
            proof {
                assert(spec_equal_window(s@, i as int, k as int));
            }
            return true;
        }
        i = i + 1;
    }
    false
}

/// The `k` characters starting at `i` all share one class.
pub open spec fn spec_class_window(s: Seq<char>, i: int, k: int) -> bool {
    forall|j: int| i <= j < i + k ==> spec_classify(s[j]) == spec_classify(s[i])
}

/// Somewhere in `s`, `k` consecutive characters all share one class.
pub open spec fn spec_has_class_run(s: Seq<char>, k: int) -> bool {
    exists|i: int| 0 <= i && i + k <= s.len() && spec_class_window(s, i, k)
}

/// Tests whether `s` holds `k` consecutive characters of one class.
pub fn has_class_run(s: &Vec<char>, k: usize) -> (r: bool)
    requires
        k >= 1,
    ensures
        r == spec_has_class_run(s@, k as int),
{
    let len: usize = s.len();
    if len < k {
        return false;
    }
    let mut i: usize = 0;
    while i <= len - k
        invariant
            i <= len - k + 1,
            k >= 1,
            k <= len,
            len == s@.len(),
            forall|i2: int| 0 <= i2 < i ==> !spec_class_window(s@, i2, k as int),
        decreases len - i,
    {
        let cl0: CharClass = crate::classify::classify(s[i]);
        let mut j: usize = i;
        let mut all_same: bool = true;
        while j < i + k
            invariant
                i <= j <= i + k,
                i + k <= len,
                len == s@.len(),
                cl0 == spec_classify(s@[i as int]),
                all_same == (forall|j2: int|
                    i <= j2 < j ==> spec_classify(s@[j2]) == spec_classify(s@[i as int])),
            decreases i + k - j,
        {
            if crate::classify::classify(s[j]) != cl0 {
                all_same = false;
            }
            j = j + 1;
        }
        if all_same {
            proof {
                assert(spec_class_window(s@, i as int, k as int));
            }
            return true;
        }
        i = i + 1;
    }
    false
}

/// The `k` characters starting at `i` ascend by exactly one code point at
/// each step.
pub open spec fn spec_ascending_window(s: Seq<char>, i: int, k: int) -> bool {
    forall|j: int| i < j < i + k ==> #[trigger] (s[j] as u32) == s[j - 1] as u32 + 1
}

/// The `k` characters starting at `i` descend by exactly one code point at
/// each step.
pub open spec fn spec_descending_window(s: Seq<char>, i: int, k: int) -> bool {
    forall|j: int| i < j < i + k ==> #[trigger] (s[j] as u32) + 1 == s[j - 1] as u32
}

/// Somewhere in `s`, `k` consecutive characters form a monotonic sequence
/// of code points with step one, ascending or descending.
pub open spec fn spec_has_monotonic_run(s: Seq<char>, k: int) -> bool {
    exists|i: int|
        0 <= i && i + k <= s.len() && (spec_ascending_window(s, i, k) || spec_descending_window(
            s,
            i,
            k,
        ))
}

/// Tests whether `s` holds a monotonic run of `k` characters.
pub fn has_monotonic_run(s: &Vec<char>, k: usize) -> (r: bool)
    requires
        k >= 1,
    ensures
        r == spec_has_monotonic_run(s@, k as int),
{
    let len: usize = s.len();
    if len < k {
        return false;
    }
    let mut i: usize = 0;
    while i <= len - k
        invariant
            i <= len - k + 1,
            k >= 1,
            k <= len,
            len == s@.len(),
            forall|i2: int|
                0 <= i2 < i ==> !spec_ascending_window(s@, i2, k as int)
                    && !spec_descending_window(s@, i2, k as int),
        decreases len - i,
    {
        let mut j: usize = i;
        let mut asc: bool = true;
        let mut desc: bool = true;
        while j + 1 < i + k
            invariant
                i <= j,
                j + 1 <= i + k,
                i + k <= len,
                len == s@.len(),
                asc == (forall|j2: int|
                    i < j2 <= j ==> #[trigger] (s@[j2] as u32) == s@[j2 - 1] as u32 + 1),
                desc == (forall|j2: int|
                    i < j2 <= j ==> #[trigger] (s@[j2] as u32) + 1 == s@[j2 - 1] as u32),
            decreases i + k - j,
        {
            let cj: u32 = s[j] as u32;
            let cn: u32 = s[j + 1] as u32;
            if !(cj < u32::MAX && cn == cj + 1) {
                asc = false;
            }
            if !(cn < u32::MAX && cn + 1 == cj) {
                desc = false;
            }
            j = j + 1;
        }
        if asc || desc {
            proof {
                assert(spec_ascending_window(s@, i as int, k as int) || spec_descending_window(
                    s@,
                    i as int,
                    k as int,
                ));
            }
            return true;
        }
        i = i + 1;
    }
    false
}

/// `needle` occurs in `hay` as a contiguous substring.
pub open spec fn spec_contains(hay: Seq<char>, needle: Seq<char>) -> bool {
    exists|i: int|
        0 <= i && i + needle.len() <= hay.len() && #[trigger] hay.subrange(i, i + needle.len())
            == needle
}

/// Tests whether `needle` occurs at position `i` of `hay`.
fn matches_at(hay: &Vec<char>, needle: &Vec<char>, i: usize) -> (r: bool)
    requires
        i + needle@.len() <= hay@.len(),
    ensures
        r == (hay@.subrange(i as int, i + needle@.len()) == needle@),
{
    let hl: usize = hay.len();
    let nl: usize = needle.len();
    let ghost window: Seq<char> = hay@.subrange(i as int, i + needle@.len());
    let mut j: usize = 0;
    while j < nl
        invariant
            j <= nl,
            nl == needle@.len(),
            hl == hay@.len(),
            i + nl <= hay@.len(),
            window == hay@.subrange(i as int, i + nl),
            forall|j2: int| 0 <= j2 < j ==> hay@[i + j2] == needle@[j2],
        decreases nl - j,
    {
        proof {
            assert(window[j as int] == hay@[i + j]);
        }
        if hay[i + j] != needle[j] {
            return false;
        }
        j = j + 1;
    }
    proof {
        assert(window =~= needle@);
    }
    true
}

/// Tests whether `needle` occurs anywhere in `hay`.
pub fn contains_sub(hay: &Vec<char>, needle: &Vec<char>) -> (r: bool)
    ensures
        r == spec_contains(hay@, needle@),
{
    let hl: usize = hay.len();
    let nl: usize = needle.len();
    if nl > hl {
        return false;
    }
    if nl == 0 {
        proof {
            assert(hay@.subrange(0, 0 + needle@.len() as int) =~= needle@);
            assert(spec_contains(hay@, needle@));
        }
        return true;
    }
    let mut i: usize = 0;
    while i <= hl - nl
        invariant
            i <= hl - nl + 1,
            1 <= nl <= hl,
            hl == hay@.len(),
            nl == needle@.len(),
            forall|i2: int|
                0 <= i2 < i ==> #[trigger] hay@.subrange(i2, i2 + needle@.len()) != needle@,
        decreases hl - i,
    {
        if matches_at(hay, needle, i) {
            return true;
        }
        i = i + 1;
    }
    false
}

/// The whitespace-separated words of `s` from position `i` on, with `cur`
/// the partial word read so far.
pub open spec fn spec_split_from(s: Seq<char>, i: int, cur: Seq<char>) -> Seq<Seq<char>>
    decreases s.len() - i,
{
    if i < 0 || i >= s.len() {
        if cur.len() > 0 {
            seq![cur]
        } else {
            Seq::empty()
        }
    } else if spec_is_space(s[i]) {
        (if cur.len() > 0 {
            seq![cur]
        } else {
            Seq::empty()
        }) + spec_split_from(s, i + 1, Seq::empty())
    } else {
        spec_split_from(s, i + 1, cur.push(s[i]))
    }
}

/// The whitespace-separated words of `s`, in order, each nonempty.
pub open spec fn spec_split_ws(s: Seq<char>) -> Seq<Seq<char>> {
    spec_split_from(s, 0, Seq::empty())
}

/// Splits `s` into its whitespace-separated words.
pub fn split_ws(s: &Vec<char>) -> (r: Vec<Vec<char>>)
    ensures
        r.deep_view() == spec_split_ws(s@),
{
    let len: usize = s.len();
    let mut words: Vec<Vec<char>> = Vec::new();
    let mut cur: Vec<char> = Vec::new();
    let mut i: usize = 0;
    proof {
        assert(words.deep_view() + spec_split_from(s@, 0, cur@) =~~= spec_split_ws(s@));
    }
    while i < len
        invariant
            i <= len,
            len == s@.len(),
            words.deep_view() + spec_split_from(s@, i as int, cur@) == spec_split_ws(s@),
        decreases len - i,
    {
        let ghost prev_words: Seq<Seq<char>> = words.deep_view();
        let ghost prev_cur: Seq<char> = cur@;
        if is_space(s[i]) {
            if cur.len() > 0 {
                let done: Vec<char> = cur;
                cur = Vec::new();
                words.push(done);
                proof {
                    assert(words.deep_view() =~~= prev_words.push(done@));
                    assert(prev_words + spec_split_from(s@, i as int, prev_cur)
                        =~~= words.deep_view() + spec_split_from(s@, i + 1, cur@));
                }
            } else {
                proof {
                    assert(cur@ =~= Seq::<char>::empty());
                }
            }
        } else {
            cur.push(s[i]);
        }
        i = i + 1;
        proof {
            assert(words.deep_view() + spec_split_from(s@, i as int, cur@) =~~= spec_split_ws(
                s@,
            ));
        }
    }
    let ghost prev_words: Seq<Seq<char>> = words.deep_view();
    let ghost prev_cur: Seq<char> = cur@;
    if cur.len() > 0 {
        words.push(cur);
        proof {
            assert(words.deep_view() =~~= prev_words.push(prev_cur));
        }
    }
    proof {
        assert(words.deep_view() =~~= spec_split_ws(s@));
    }
    words
}


/// Splits a text into its whitespace-separated words, as owned strings.
pub fn split_words(s: &str) -> (r: Vec<String>)
    ensures
        r.deep_view() == spec_split_ws(s@),
{
    let len: usize = s.unicode_len();
    let mut words: Vec<String> = Vec::new();
    let mut has_word: bool = false;
    let mut start: usize = 0;
    let mut i: usize = 0;
    let ghost mut cur: Seq<char> = Seq::empty();
    proof {
        assert(words.deep_view() + spec_split_from(s@, 0, cur) =~~= spec_split_ws(s@));
    }
    while i < len
        invariant
            i <= len,
            len == s@.len(),
            has_word ==> start < i && cur == s@.subrange(start as int, i as int) && cur.len() > 0,
            !has_word ==> cur == Seq::<char>::empty(),
            words.deep_view() + spec_split_from(s@, i as int, cur) == spec_split_ws(s@),
        decreases len - i,
    {
        let ghost prev_words: Seq<Seq<char>> = words.deep_view();
        let ghost prev_cur: Seq<char> = cur;
        if is_space(s.get_char(i)) {
            if has_word {
                let w: String = s.substring_char(start, i).to_owned();
                words.push(w);
                has_word = false;
                proof {
                    cur = Seq::empty();
                    assert(words.deep_view() =~~= prev_words.push(w@));
                    assert(prev_words + spec_split_from(s@, i as int, prev_cur)
                        =~~= words.deep_view() + spec_split_from(s@, i + 1, cur));
                }
            }
        } else {
            if !has_word {
                has_word = true;
                start = i;
            }
            proof {
                cur = s@.subrange(start as int, i + 1);
                assert(cur =~= prev_cur.push(s@[i as int]));
            }
        }
        i = i + 1;
        proof {
            assert(words.deep_view() + spec_split_from(s@, i as int, cur) =~~= spec_split_ws(s@));
        }
    }
    let ghost prev_words: Seq<Seq<char>> = words.deep_view();
    if has_word {
        let w: String = s.substring_char(start, len).to_owned();
        words.push(w);
        proof {
            assert(words.deep_view() =~~= prev_words.push(w@));
        }
    }
    proof {
        assert(words.deep_view() =~~= spec_split_ws(s@));
    }
    words
}

/// The words joined with single spaces, in order.
pub open spec fn spec_join_ws(ws: Seq<Seq<char>>) -> Seq<char>
    decreases ws.len(),
{
    if ws.len() == 0 {
        Seq::empty()
    } else if ws.len() == 1 {
        ws[0]
    } else {
        spec_join_ws(ws.drop_last()) + seq![' '] + ws.last()
    }
}

/// Joins words with single spaces.
pub fn join_words(words: &Vec<String>) -> (r: String)
    ensures
        r@ == spec_join_ws(words.deep_view()),
{
    let mut out: String = String::new();
    let mut i: usize = 0;
    proof {
        assert(out@ =~= spec_join_ws(words.deep_view().take(0)));
    }
    while i < words.len()
        invariant
            i <= words@.len(),
            words.deep_view().len() == words@.len(),
            out@ == spec_join_ws(words.deep_view().take(i as int)),
        decreases words@.len() - i,
    {
        if i > 0 {
            out.append(" ");
        }
        out.append(words[i].as_str());
        proof {
            let dv = words.deep_view();
            assert(dv[i as int] == words@[i as int]@);
            assert(dv.take(i + 1).drop_last() =~= dv.take(i as int));
            assert(dv.take(i + 1).last() == dv[i as int]);
            if i == 0 {
                assert(out@ =~= spec_join_ws(dv.take(1)));
            } else {
                reveal_strlit(" ");
                assert(out@ =~= spec_join_ws(dv.take(i as int)) + seq![' '] + dv[i as int]);
            }
        }
        i = i + 1;
    }
    proof {
        assert(words.deep_view().take(words@.len() as int) =~= words.deep_view());
    }
    out
}

} // verus!
