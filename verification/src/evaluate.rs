//! The evaluator: runs every check in its fixed order, stops at the first
//! failure, and scores a password that passes them all.
//!
//! The order is: empty password; then, against the old password, equality,
//! reversal, case-changes-only and rotation; then the three structural run
//! limits; then the per-class minimums, the effective minimum length and
//! the class-diversity minimum; then the similarity check; then the
//! lookup-backed checks (description-field words, bad words, username,
//! dictionary).  The dictionary lookup itself is an external service: the
//! evaluation takes its answer as an input, `None` meaning the service
//! could not be consulted, which is fatal while the check is enabled.

use vstd::prelude::*;

use crate::classify::{count_class, spec_class_count, CharClass};
use crate::distance::{edit_distance, spec_edit_distance};
use crate::error::Error;
use crate::score::{score_of, spec_effective_min_length, spec_classes_present, spec_score, total_credit};
use crate::settings::PWQuality;
use crate::textops::{
    case_folded_eq, chars_vec, contains_sub, eq_chars, has_class_run, has_equal_run,
    has_monotonic_run, is_reverse_of, is_rotation_of, reversed, spec_case_folded_eq,
    spec_contains, spec_has_class_run, spec_has_equal_run, spec_has_monotonic_run,
    spec_is_rotation,
};

verus! {

/// Some word of the list, itself longer than three characters, occurs in
/// the password.
pub open spec fn spec_word_match(pw: Seq<char>, words: Seq<Seq<char>>) -> bool {
    exists|i: int|
        0 <= i < words.len() && (#[trigger] words[i]).len() > 3 && spec_contains(pw, words[i])
}

/// The username-substring rejection: the name or its reversal occurs in
/// the password.  An empty name never matches.
pub open spec fn spec_user_match(pw: Seq<char>, user: Seq<char>) -> bool {
    user.len() > 0 && (spec_contains(pw, user) || spec_contains(pw, user.reverse()))
}

/// The dictionary gate and the final score: with the dictionary check
/// enabled, no answer from the lookup service is fatal and a positive
/// answer rejects; everything else earns the score.
pub open spec fn spec_check_dictionary(
    s: PWQuality,
    pw: Seq<char>,
    dict: Option<bool>,
) -> Result<int, Error> {
    if s.dictionary_check {
        match dict {
            None => Err(Error::FatalFailure),
            Some(true) => Err(Error::CracklibCheck),
            Some(false) => Ok(spec_score(s, pw)),
        }
    } else {
        Ok(spec_score(s, pw))
    }
}

/// The lookup-backed checks, in order: description-field words, bad words,
/// username, dictionary.
pub open spec fn spec_check_external(
    s: PWQuality,
    pw: Seq<char>,
    user: Option<Seq<char>>,
    gecos: Seq<Seq<char>>,
    bad_words: Seq<Seq<char>>,
    dict: Option<bool>,
) -> Result<int, Error> {
    if s.gecos_check && spec_word_match(pw, gecos) {
        Err(Error::GecosCheck)
    } else if spec_word_match(pw, bad_words) {
        Err(Error::BadWords)
    } else {
        match user {
            Some(u) => if s.user_check && spec_user_match(pw, u) {
                Err(Error::UserCheck)
            } else {
                spec_check_dictionary(s, pw, dict)
            },
            None => spec_check_dictionary(s, pw, dict),
        }
    }
}

/// The content gates: run limits, per-class minimums, effective minimum
/// length, class diversity, similarity; then the lookup-backed checks.
pub open spec fn spec_check_content(
    s: PWQuality,
    pw: Seq<char>,
    old: Option<Seq<char>>,
    user: Option<Seq<char>>,
    gecos: Seq<Seq<char>>,
    dict: Option<bool>,
) -> Result<int, Error> {
    if s.max_repeat > 0 && spec_has_equal_run(pw, s.max_repeat + 1) {
        Err(Error::MaxConsecutive)
    } else if s.max_class_repeat > 0 && spec_has_class_run(pw, s.max_class_repeat + 1) {
        Err(Error::MaxClassRepeat)
    } else if s.max_sequence > 0 && spec_has_monotonic_run(pw, s.max_sequence + 1) {
        Err(Error::MaxSequence)
    } else if s.digit_credit < 0 && spec_class_count(pw, CharClass::Digit) < -(s.digit_credit as int) {
        Err(Error::MinDigits)
    } else if s.uppercase_credit < 0 && spec_class_count(pw, CharClass::Upper) < -(s.uppercase_credit as int) {
        Err(Error::MinUppers)
    } else if s.lowercase_credit < 0 && spec_class_count(pw, CharClass::Lower) < -(s.lowercase_credit as int) {
        Err(Error::MinLowers)
    } else if s.other_credit < 0 && spec_class_count(pw, CharClass::Other) < -(s.other_credit as int) {
        Err(Error::MinOthers)
    } else if pw.len() < spec_effective_min_length(s, pw) {
        Err(Error::MinLength)
    } else if spec_classes_present(pw) < s.min_classes {
        Err(Error::MinClasses)
    } else {
        match old {
            Some(o) => if s.min_diff > 0 && spec_edit_distance(pw, o) < s.min_diff {
                Err(Error::TooSimilar)
            } else {
                spec_check_external(s, pw, user, gecos, s.bad_words.deep_view(), dict)
            },
            None => spec_check_external(s, pw, user, gecos, s.bad_words.deep_view(), dict),
        }
    }
}

/// The whole evaluation: either the first rejection in the fixed order, or
/// the score of a password that passed every gate.
pub open spec fn spec_check(
    s: PWQuality,
    pw: Seq<char>,
    old: Option<Seq<char>>,
    user: Option<Seq<char>>,
    gecos: Seq<Seq<char>>,
    dict: Option<bool>,
) -> Result<int, Error> {
    if pw.len() == 0 {
        Err(Error::EmptyPassword)
    } else {
        match old {
            Some(o) => if pw == o {
                Err(Error::SamePassword)
            } else if pw == o.reverse() {
                Err(Error::Palindrome)
            } else if spec_case_folded_eq(pw, o) {
                Err(Error::CaseChangesOnly)
            } else if spec_is_rotation(pw, o) {
                Err(Error::Rotated)
            } else {
                spec_check_content(s, pw, old, user, gecos, dict)
            },
            None => spec_check_content(s, pw, old, user, gecos, dict),
        }
    }
}

/// The view of an optional borrowed text.
pub open spec fn spec_opt_ref_view(o: Option<&String>) -> Option<Seq<char>> {
    match o {
        Some(s) => Some(s@),
        None => None,
    }
}

/// The view of an optional owned text.
pub open spec fn spec_opt_view(o: Option<String>) -> Option<Seq<char>> {
    match o {
        Some(s) => Some(s@),
        None => None,
    }
}

/// An executable outcome agrees with a specified one: same rejection, or
/// the same score.
pub open spec fn spec_outcome_matches(r: Result<i32, Error>, sp: Result<int, Error>) -> bool {
    match (r, sp) {
        (Ok(v), Ok(w)) => v as int == w,
        (Err(e), Err(f)) => e == f,
        _ => false,
    }
}

/// Tests whether some word of the list, itself longer than three
/// characters, occurs in the password.
fn word_match(pw: &Vec<char>, words: &Vec<String>) -> (r: bool)
    ensures
        r == spec_word_match(pw@, words.deep_view()),
{
    let mut i: usize = 0;
    while i < words.len()
        invariant
            i <= words@.len(),
            words.deep_view().len() == words@.len(),
            forall|i2: int|
                0 <= i2 < i ==> !((#[trigger] words.deep_view()[i2]).len() > 3 && spec_contains(
                    pw@,
                    words.deep_view()[i2],
                )),
        decreases words@.len() - i,
    {
        let w: Vec<char> = chars_vec(words[i].as_str());
        proof {
            assert(words.deep_view()[i as int] == words@[i as int]@);
        }
        if w.len() > 3 && contains_sub(pw, &w) {
            return true;
        }
        i = i + 1;
    }
    false
}

impl PWQuality {
    /// Evaluates a candidate password against this store's policies, with
    /// every input the checks can consult supplied as a plain value: the
    /// old password, the username, the words of the user's description
    /// field, and the dictionary service's answer (`None` when the service
    /// could not be consulted).  Returns the quality score, or the first
    /// rejection in the fixed order.
    pub fn evaluate(
        &self,
        password: &String,
        old_password: Option<&String>,
        username: Option<&String>,
        gecos_words: &Vec<String>,
        dictionary_match: Option<bool>,
    ) -> (r: Result<i32, Error>)
        ensures
            spec_outcome_matches(
                r,
                spec_check(
                    *self,
                    password@,
                    spec_opt_ref_view(old_password),
                    spec_opt_ref_view(username),
                    gecos_words.deep_view(),
                    dictionary_match,
                ),
            ),
    {
        let pw: Vec<char> = chars_vec(password.as_str());
        if pw.len() == 0 {
            return Err(Error::EmptyPassword);
        }
        let old_chars: Option<Vec<char>> = match old_password {
            Some(o) => Some(chars_vec(o.as_str())),
            None => None,
        };
        match &old_chars {
            Some(o) => {
                if eq_chars(&pw, o) {
                    return Err(Error::SamePassword);
                }
                if is_reverse_of(&pw, o) {
                    return Err(Error::Palindrome);
                }
                if case_folded_eq(&pw, o) {
                    return Err(Error::CaseChangesOnly);
                }
                if is_rotation_of(&pw, o) {
                    return Err(Error::Rotated);
                }
            },
            None => {},
        }
        if self.max_repeat > 0 && has_equal_run(&pw, self.max_repeat as usize + 1) {
            return Err(Error::MaxConsecutive);
        }
        if self.max_class_repeat > 0 && has_class_run(&pw, self.max_class_repeat as usize + 1) {
            return Err(Error::MaxClassRepeat);
        }
        if self.max_sequence > 0 && has_monotonic_run(&pw, self.max_sequence as usize + 1) {
            return Err(Error::MaxSequence);
        }
        let nd: usize = count_class(&pw, CharClass::Digit);
        let nu: usize = count_class(&pw, CharClass::Upper);
        let nl: usize = count_class(&pw, CharClass::Lower);
        let no: usize = count_class(&pw, CharClass::Other);
        if self.digit_credit < 0 && (nd as u64) < (-(self.digit_credit as i64)) as u64 {
            return Err(Error::MinDigits);
        }
        if self.uppercase_credit < 0 && (nu as u64) < (-(self.uppercase_credit as i64)) as u64 {
            return Err(Error::MinUppers);
        }
        if self.lowercase_credit < 0 && (nl as u64) < (-(self.lowercase_credit as i64)) as u64 {
            return Err(Error::MinLowers);
        }
        if self.other_credit < 0 && (no as u64) < (-(self.other_credit as i64)) as u64 {
            return Err(Error::MinOthers);
        }
        let bonus: u64 = total_credit(self, nd, nu, nl, no);
        let em: i64 = {
            let raw: i64 = self.min_length as i64 - bonus as i64;
            if raw < 1 {
                1
            } else {
                raw
            }
        };
        proof {
            assert(em as int == spec_effective_min_length(*self, pw@));
        }
        if (pw.len() as u128) < (em as u128) {
            return Err(Error::MinLength);
        }
        let ncl: u64 = {
            let mut n: u64 = 0;
            if nd > 0 {
                n = n + 1;
            }
            if nu > 0 {
                n = n + 1;
            }
            if nl > 0 {
                n = n + 1;
            }
            if no > 0 {
                n = n + 1;
            }
            n
        };
        proof {
            assert(ncl as int == spec_classes_present(pw@));
        }
        if self.min_classes > 0 && ncl < self.min_classes as u64 {
            return Err(Error::MinClasses);
        }
        match &old_chars {
            Some(o) => {
                if self.min_diff > 0 {
                    let dist: u128 = edit_distance(&pw, o);
                    if dist < self.min_diff as u128 {
                        return Err(Error::TooSimilar);
                    }
                }
            },
            None => {},
        }
        if self.gecos_check && word_match(&pw, gecos_words) {
            return Err(Error::GecosCheck);
        }
        if word_match(&pw, &self.bad_words) {
            return Err(Error::BadWords);
        }
        match username {
            Some(u) => {
                if self.user_check {
                    let uc: Vec<char> = chars_vec(u.as_str());
                    if uc.len() > 0 {
                        let ur: Vec<char> = reversed(&uc);
                        if contains_sub(&pw, &uc) || contains_sub(&pw, &ur) {
                            return Err(Error::UserCheck);
                        }
                    }
                }
            },
            None => {},
        }
        if self.dictionary_check {
            match dictionary_match {
                None => {
                    return Err(Error::FatalFailure);
                },
                Some(true) => {
                    return Err(Error::CracklibCheck);
                },
                Some(false) => {},
            }
        }
        Ok(score_of(self, &pw))
    }

    /// Checks a password against this store's policies: the old password
    /// and username are optional, no description-field words are supplied,
    /// and the dictionary service is not consulted (so an enabled
    /// dictionary check reports a fatal failure).  Returns the quality
    /// score, or the first rejection in the fixed order.
    pub fn check(
        &self,
        password: String,
        old_password: Option<String>,
        username: Option<String>,
    ) -> (r: Result<i32, Error>)
        ensures
            spec_outcome_matches(
                r,
                spec_check(
                    *self,
                    password@,
                    spec_opt_view(old_password),
                    spec_opt_view(username),
                    Seq::<Seq<char>>::empty(),
                    None::<bool>,
                ),
            ),
    {
        let empty_gecos: Vec<String> = Vec::new();
        let old_ref: Option<&String> = match &old_password {
            Some(s) => Some(s),
            None => None,
        };
        let user_ref: Option<&String> = match &username {
            Some(s) => Some(s),
            None => None,
        };
        proof {
            assert(empty_gecos.deep_view() =~~= Seq::<Seq<char>>::empty());
        }
        self.evaluate(&password, old_ref, user_ref, &empty_gecos, None)
    }
}

/// An empty password is rejected as `EmptyPassword`, whatever the
/// settings and whatever else is supplied.
pub proof fn lemma_empty_password_rejected(
    s: PWQuality,
    pw: Seq<char>,
    old: Option<Seq<char>>,
    user: Option<Seq<char>>,
    gecos: Seq<Seq<char>>,
    dict: Option<bool>,
)
    requires
        pw.len() == 0,
    ensures
        spec_check(s, pw, old, user, gecos, dict) == Err::<int, Error>(Error::EmptyPassword),
{
}

/// A nonempty password equal to the old one is rejected as
/// `SamePassword`, whatever the settings.
pub proof fn lemma_same_password_rejected(
    s: PWQuality,
    pw: Seq<char>,
    user: Option<Seq<char>>,
    gecos: Seq<Seq<char>>,
    dict: Option<bool>,
)
    requires
        pw.len() > 0,
    ensures
        spec_check(s, pw, Some(pw), user, gecos, dict) == Err::<int, Error>(Error::SamePassword),
{
}

/// A password that differs from the old one only by letter case is
/// rejected as `CaseChangesOnly`, whatever the settings — provided it is
/// not the old password itself (rejected as `SamePassword` first) nor its
/// exact reversal (rejected as `Palindrome` first).
pub proof fn lemma_case_changes_only_rejected(
    s: PWQuality,
    pw: Seq<char>,
    old: Seq<char>,
    user: Option<Seq<char>>,
    gecos: Seq<Seq<char>>,
    dict: Option<bool>,
)
    requires
        pw.len() > 0,
        spec_case_folded_eq(pw, old),
        pw != old,
        pw != old.reverse(),
    ensures
        spec_check(s, pw, Some(old), user, gecos, dict) == Err::<int, Error>(
            Error::CaseChangesOnly,
        ),
{
}

} // verus!
