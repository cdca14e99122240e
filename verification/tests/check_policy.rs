use pwquality::{Error, PWQuality};

fn defaults() -> PWQuality {
    PWQuality::new()
}

#[test]
fn empty_password_always_rejected() {
    let s = defaults();
    assert_eq!(s.check("".to_string(), None, None), Err(Error::EmptyPassword));
    let mut strict = defaults();
    strict.set_min_length(20);
    strict.set_min_classes(4);
    strict.set_dictionary_check(true);
    assert_eq!(
        strict.check("".to_string(), Some("old".to_string()), Some("u".to_string())),
        Err(Error::EmptyPassword)
    );
}

#[test]
fn same_password_rejected() {
    let s = defaults();
    assert_eq!(
        s.check("Correct1Horse".to_string(), Some("Correct1Horse".to_string()), None),
        Err(Error::SamePassword)
    );
}

#[test]
fn palindrome_of_old_rejected() {
    let s = defaults();
    assert_eq!(
        s.check("stressed".to_string(), Some("desserts".to_string()), None),
        Err(Error::Palindrome)
    );
}

#[test]
fn case_changes_only_rejected() {
    let s = defaults();
    assert_eq!(
        s.check("abcDEFgh1".to_string(), Some("ABCdefGH1".to_string()), None),
        Err(Error::CaseChangesOnly)
    );
}

#[test]
fn rotation_of_old_rejected() {
    let s = defaults();
    assert_eq!(
        s.check("fgh1abcde".to_string(), Some("abcdefgh1".to_string()), None),
        Err(Error::Rotated)
    );
}

#[test]
fn scenario_min_classes() {
    let mut s = defaults();
    s.set_min_length(8);
    s.set_min_classes(3);
    assert_eq!(s.check("abcdefgh".to_string(), None, None), Err(Error::MinClasses));
    let score = s.check("Abcdefg1".to_string(), None, None).unwrap();
    assert!(score >= 0);
}

#[test]
fn scenario_max_repeat() {
    let mut s = defaults();
    s.set_max_repeat(3);
    assert_eq!(s.check("aaaab".to_string(), None, None), Err(Error::MaxConsecutive));
    // Three repeats are still allowed; the shorter run fails only the
    // length gate under the default minimum.
    assert_eq!(s.check("aaab".to_string(), None, None), Err(Error::MinLength));
}

#[test]
fn scenario_max_sequence() {
    let mut s = defaults();
    s.set_max_sequence(4);
    assert_eq!(s.check("12345xyz".to_string(), None, None), Err(Error::MaxSequence));
    // A descending run of five is caught too.
    assert_eq!(s.check("fedcbxyz".to_string(), None, None), Err(Error::MaxSequence));
    // A run of exactly four is fine.
    assert!(s.check("1234qrst".to_string(), None, None).is_ok());
}

#[test]
fn max_class_repeat_rejected() {
    let mut s = defaults();
    s.set_max_class_repeat(3);
    assert_eq!(s.check("abcd12xy".to_string(), None, None), Err(Error::MaxClassRepeat));
}

#[test]
fn min_length_uses_effective_minimum() {
    let s = defaults();
    assert_eq!(s.check("abc".to_string(), None, None), Err(Error::MinLength));
    // A digit credit lowers the effective minimum.
    let mut c = defaults();
    c.set_min_length(9);
    c.set_digit_credit(2);
    assert!(c.check("abcdef12".to_string(), None, None).is_ok());
}

#[test]
fn credits_are_capped_at_the_count() {
    let mut s = defaults();
    s.set_digit_credit(100);
    // Three digits contribute at most 3: minimum 11 becomes effective 8.
    s.set_min_length(11);
    assert!(s.check("ab1c2d3e".to_string(), None, None).is_ok());
    // With minimum 12 the same password is one short: the bonus stayed 3.
    s.set_min_length(12);
    assert_eq!(s.check("ab1c2d3e".to_string(), None, None), Err(Error::MinLength));
}

#[test]
fn negative_credit_is_a_minimum_count() {
    let mut s = defaults();
    s.set_digit_credit(-2);
    assert_eq!(s.check("abcdefgh".to_string(), None, None), Err(Error::MinDigits));
    assert!(s.check("abcdef12".to_string(), None, None).is_ok());
    let mut u = defaults();
    u.set_uppercase_credit(-1);
    assert_eq!(u.check("abcdefg1".to_string(), None, None), Err(Error::MinUppers));
    let mut l = defaults();
    l.set_lowercase_credit(-1);
    assert_eq!(l.check("ABCDEFG1".to_string(), None, None), Err(Error::MinLowers));
    let mut o = defaults();
    o.set_other_credit(-1);
    assert_eq!(o.check("abcdefg1".to_string(), None, None), Err(Error::MinOthers));
}

#[test]
fn too_similar_uses_edit_distance() {
    let mut s = defaults();
    s.set_min_diff(Some(5));
    assert_eq!(
        s.check("abcdefgx".to_string(), Some("abcdefgy".to_string()), None),
        Err(Error::TooSimilar)
    );
    // Five or more edits pass the similarity gate.
    assert!(s.check("abQRSTUx".to_string(), Some("abcdefgy".to_string()), None).is_ok());
    // Disabled check lets close passwords through.
    s.set_min_diff(None);
    assert!(s.check("abcdefgx".to_string(), Some("abcdefgy".to_string()), None).is_ok());
}

#[test]
fn username_and_its_reverse_are_rejected() {
    let s = defaults();
    assert_eq!(
        s.check("xxjohnyy".to_string(), None, Some("john".to_string())),
        Err(Error::UserCheck)
    );
    assert_eq!(
        s.check("xxnhojyy".to_string(), None, Some("john".to_string())),
        Err(Error::UserCheck)
    );
    let mut off = defaults();
    off.set_user_check(false);
    assert!(off.check("xxjohnyy".to_string(), None, Some("john".to_string())).is_ok());
}

#[test]
fn bad_words_rejected_when_long_enough() {
    let mut s = defaults();
    s.set_bad_words(vec!["secret".to_string(), "ab".to_string()]).unwrap();
    assert_eq!(s.check("xsecretz".to_string(), None, None), Err(Error::BadWords));
    // A configured word of three characters or fewer is ignored.
    assert!(s.check("zzabzzzz".to_string(), None, None).is_ok());
}

#[test]
fn gecos_words_rejected_through_evaluate() {
    let mut s = defaults();
    s.set_gecos_check(true);
    let gecos = vec!["Jonathan".to_string(), "Doe".to_string()];
    let pw = "xJonathanx".to_string();
    assert_eq!(s.evaluate(&pw, None, None, &gecos, None), Err(Error::GecosCheck));
    // Words of three characters or fewer are ignored; "Doe" does not match.
    let pw2 = "xxDoeyyzz".to_string();
    assert!(s.evaluate(&pw2, None, None, &gecos, None).is_ok());
    // With the check disabled nothing matches.
    s.set_gecos_check(false);
    assert!(s.evaluate(&pw, None, None, &gecos, None).is_ok());
}

#[test]
fn dictionary_check_needs_a_backend_answer() {
    let mut s = defaults();
    s.set_dictionary_check(true);
    let none: Vec<String> = Vec::new();
    let pw = "Abcdefg1".to_string();
    assert_eq!(s.check(pw.clone(), None, None), Err(Error::FatalFailure));
    assert_eq!(s.evaluate(&pw, None, None, &none, Some(true)), Err(Error::CracklibCheck));
    assert!(s.evaluate(&pw, None, None, &none, Some(false)).is_ok());
}

#[test]
fn score_is_bounded_and_grows_with_length() {
    let s = defaults();
    let short = s.check("Abcdefg1".to_string(), None, None).unwrap();
    let long = s.check("Abcdefg1Abcdefg1xyz".to_string(), None, None).unwrap();
    assert!((0..=100).contains(&short));
    assert!((0..=100).contains(&long));
    assert!(long >= short);
}

#[test]
fn enforcing_flag_is_exposed_to_callers() {
    let mut s = defaults();
    s.set_enforcing(false);
    // The rejection reason is still reported; the caller decides what a
    // non-enforcing store means for it.
    assert!(!s.get_enforcing());
    assert_eq!(s.check("abc".to_string(), None, None), Err(Error::MinLength));
}

#[test]
fn score_formula_exact_values() {
    let s = defaults();
    // Length at the effective minimum: ten points per class present.
    assert_eq!(s.check("Abcdefg1".to_string(), None, None), Ok(30));
    assert_eq!(s.check("abcdefgh".to_string(), None, None), Ok(10));
    // Two extra characters add four points.
    assert_eq!(s.check("abcdefghij".to_string(), None, None), Ok(14));
}

#[test]
fn palindrome_wins_over_case_changes_only() {
    // A password that is both the reversal of the old password and its
    // case-changed twin is rejected by the earlier gate in the order.
    let s = defaults();
    assert_eq!(s.check("Aa".to_string(), Some("aA".to_string()), None), Err(Error::Palindrome));
}
