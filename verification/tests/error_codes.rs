use pwquality::Error;

fn all_reasons() -> Vec<Error> {
    vec![
        Error::FatalFailure,
        Error::Integer,
        Error::CfgfileOpen,
        Error::CfgfileMalformed,
        Error::UnknownSetting,
        Error::NonIntSetting,
        Error::NonStrSetting,
        Error::MemAlloc,
        Error::TooSimilar,
        Error::MinDigits,
        Error::MinUppers,
        Error::MinLowers,
        Error::MinOthers,
        Error::MinLength,
        Error::Palindrome,
        Error::CaseChangesOnly,
        Error::Rotated,
        Error::MinClasses,
        Error::MaxConsecutive,
        Error::EmptyPassword,
        Error::SamePassword,
        Error::CracklibCheck,
        Error::Rng,
        Error::GenerationFailed,
        Error::UserCheck,
        Error::GecosCheck,
        Error::MaxClassRepeat,
        Error::BadWords,
        Error::MaxSequence,
    ]
}

#[test]
fn every_reason_round_trips_through_its_code() {
    for e in all_reasons() {
        let code = e.to_int();
        assert!(code <= -1 && code >= -29);
        assert_eq!(Error::from_int(code), e);
    }
}

#[test]
fn codes_are_pairwise_distinct() {
    let reasons = all_reasons();
    for (i, a) in reasons.iter().enumerate() {
        for (j, b) in reasons.iter().enumerate() {
            if i != j {
                assert_ne!(a.to_int(), b.to_int());
            }
        }
    }
}

#[test]
fn unknown_codes_are_preserved() {
    assert_eq!(Error::from_int(-99), Error::UnknownError(-99));
    assert_eq!(Error::from_int(7), Error::UnknownError(7));
    assert_eq!(Error::UnknownError(-99).to_int(), -99);
}

#[test]
fn specific_code_values() {
    assert_eq!(Error::FatalFailure.to_int(), -1);
    assert_eq!(Error::EmptyPassword.to_int(), -20);
    assert_eq!(Error::MaxSequence.to_int(), -29);
}
