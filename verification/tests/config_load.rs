use pwquality::{Error, PWQuality};

fn entries(pairs: &[(&str, &str)]) -> Vec<(String, String)> {
    pairs.iter().map(|(k, v)| (k.to_string(), v.to_string())).collect()
}

#[test]
fn from_config_overrides_defaults() {
    let s = PWQuality::from_config(&entries(&[
        ("minlen", "10"),
        ("maxrepeat", "2"),
        ("difok", "-3"),
        ("dcredit", "2"),
        ("dictcheck", "0"),
    ]))
    .unwrap();
    assert_eq!(s.get_min_length(), 10);
    assert_eq!(s.get_max_repeat(), 2);
    assert_eq!(s.get_min_diff(), Some(-3));
    assert_eq!(s.get_digit_credit(), 2);
    assert!(!s.get_dictionary_check());
    // Untouched options keep their defaults.
    assert_eq!(s.get_min_classes(), 0);
}

#[test]
fn from_config_clamps_min_length() {
    let s = PWQuality::from_config(&entries(&[("minlen", "3")])).unwrap();
    assert_eq!(s.get_min_length(), 6);
}

#[test]
fn from_config_rejects_bad_integer() {
    assert_eq!(
        PWQuality::from_config(&entries(&[("minlen", "ten")])).unwrap_err(),
        Error::CfgfileMalformed
    );
    assert_eq!(
        PWQuality::from_config(&entries(&[("minlen", "")])).unwrap_err(),
        Error::CfgfileMalformed
    );
    assert_eq!(
        PWQuality::from_config(&entries(&[("minlen", "99999999999")])).unwrap_err(),
        Error::CfgfileMalformed
    );
}

#[test]
fn from_config_rejects_unknown_key() {
    assert_eq!(
        PWQuality::from_config(&entries(&[("minimumlength", "8")])).unwrap_err(),
        Error::CfgfileMalformed
    );
}

#[test]
fn from_config_reads_string_options() {
    let s = PWQuality::from_config(&entries(&[
        ("dictpath", "/var/lib/words"),
        ("badwords", "alpha beta"),
    ]))
    .unwrap();
    assert_eq!(s.get_dictionary_path(), Ok(Some("/var/lib/words".to_string())));
    assert_eq!(s.get_bad_words(), Ok(vec!["alpha".to_string(), "beta".to_string()]));
}

#[test]
fn from_config_empty_is_the_defaults() {
    let s = PWQuality::from_config(&Vec::new()).unwrap();
    assert_eq!(s.get_min_length(), 8);
    assert_eq!(s.get_min_diff(), Some(1));
}

#[test]
fn later_entries_override_earlier_ones() {
    let s = PWQuality::from_config(&entries(&[("minlen", "10"), ("minlen", "14")])).unwrap();
    assert_eq!(s.get_min_length(), 14);
}

#[test]
fn loaded_settings_drive_the_checks() {
    let s = PWQuality::from_config(&entries(&[("minlen", "10"), ("minclass", "2")])).unwrap();
    assert_eq!(s.check("abcdefghij".to_string(), None, None), Err(Error::MinClasses));
    assert!(s.check("abcdefghi1".to_string(), None, None).is_ok());
}
