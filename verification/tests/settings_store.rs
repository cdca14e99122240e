use pwquality::settings::{
    PWQ_SETTING_BAD_WORDS, PWQ_SETTING_DICT_PATH, PWQ_SETTING_MAX_REPEAT, PWQ_SETTING_MIN_LENGTH,
};
use pwquality::{Error, PWQuality};

#[test]
fn min_length_read_back_is_at_least_six() {
    let mut s = PWQuality::new();
    for v in [-100, -1, 0, 1, 5, 6, 7, 42] {
        s.set_min_length(v);
        assert!(s.get_min_length() >= 6);
    }
    s.set_min_length(10);
    assert_eq!(s.get_min_length(), 10);
    s.set_min_length(0);
    assert_eq!(s.get_min_length(), 6);
}

#[test]
fn min_length_floor_holds_through_option_ids_too() {
    let mut s = PWQuality::new();
    assert!(s.set_int_value(PWQ_SETTING_MIN_LENGTH, -7).is_ok());
    assert_eq!(s.get_int_value(PWQ_SETTING_MIN_LENGTH), Ok(6));
    assert!(s.set_int_value(PWQ_SETTING_MIN_LENGTH, 12).is_ok());
    assert_eq!(s.get_int_value(PWQ_SETTING_MIN_LENGTH), Ok(12));
}

#[test]
fn min_diff_none_disables() {
    let mut s = PWQuality::new();
    s.set_min_diff(None);
    assert_eq!(s.get_min_diff(), None);
    s.set_min_diff(Some(4));
    assert_eq!(s.get_min_diff(), Some(4));
}

#[test]
fn typed_setters_read_back() {
    let mut s = PWQuality::new();
    s.set_digit_credit(-2);
    s.set_uppercase_credit(3);
    s.set_lowercase_credit(1);
    s.set_other_credit(0);
    s.set_min_classes(3);
    s.set_max_repeat(4);
    s.set_max_class_repeat(5);
    s.set_max_sequence(6);
    s.set_gecos_check(true);
    s.set_dictionary_check(true);
    s.set_user_check(false);
    s.set_enforcing(false);
    assert_eq!(s.get_digit_credit(), -2);
    assert_eq!(s.get_uppercase_credit(), 3);
    assert_eq!(s.get_lowercase_credit(), 1);
    assert_eq!(s.get_other_credit(), 0);
    assert_eq!(s.get_min_classes(), 3);
    assert_eq!(s.get_max_repeat(), 4);
    assert_eq!(s.get_max_class_repeat(), 5);
    assert_eq!(s.get_max_sequence(), 6);
    assert!(s.get_gecos_check());
    assert!(s.get_dictionary_check());
    assert!(!s.get_user_check());
    assert!(!s.get_enforcing());
}

#[test]
fn int_accessor_type_mismatch_and_unknown_id() {
    let mut s = PWQuality::new();
    assert_eq!(s.set_int_value(PWQ_SETTING_DICT_PATH, 1), Err(Error::NonIntSetting));
    assert_eq!(s.set_int_value(PWQ_SETTING_BAD_WORDS, 1), Err(Error::NonIntSetting));
    assert_eq!(s.set_int_value(99, 1), Err(Error::UnknownSetting));
    assert_eq!(s.get_int_value(99), Err(Error::UnknownSetting));
    assert_eq!(s.get_int_value(PWQ_SETTING_DICT_PATH), Err(Error::NonIntSetting));
    assert_eq!(s.set_str_value(PWQ_SETTING_MAX_REPEAT, "3".to_string()), Err(Error::NonStrSetting));
    assert_eq!(s.set_str_value(99, "x".to_string()), Err(Error::UnknownSetting));
    assert_eq!(s.get_str_value(PWQ_SETTING_MAX_REPEAT), Err(Error::NonStrSetting));
    assert_eq!(s.get_str_value(99), Err(Error::UnknownSetting));
}

#[test]
fn boolean_options_read_as_zero_or_one() {
    let mut s = PWQuality::new();
    assert!(s.set_int_value(pwquality::settings::PWQ_SETTING_DICT_CHECK, 5).is_ok());
    assert_eq!(s.get_int_value(pwquality::settings::PWQ_SETTING_DICT_CHECK), Ok(1));
    assert!(s.set_int_value(pwquality::settings::PWQ_SETTING_DICT_CHECK, 0).is_ok());
    assert_eq!(s.get_int_value(pwquality::settings::PWQ_SETTING_DICT_CHECK), Ok(0));
}

#[test]
fn dictionary_path_set_get_and_clear() {
    let mut s = PWQuality::new();
    assert_eq!(s.get_dictionary_path(), Ok(None));
    assert!(s.set_dictionary_path("/usr/share/dict/words".to_string()).is_ok());
    assert_eq!(s.get_dictionary_path(), Ok(Some("/usr/share/dict/words".to_string())));
    assert!(s.set_dictionary_path("".to_string()).is_ok());
    assert_eq!(s.get_dictionary_path(), Ok(None));
}

#[test]
fn bad_words_split_on_whitespace() {
    let mut s = PWQuality::new();
    assert!(s.set_bad_words(vec!["hunter two".to_string(), "letmein".to_string()]).is_ok());
    assert_eq!(
        s.get_bad_words(),
        Ok(vec!["hunter".to_string(), "two".to_string(), "letmein".to_string()])
    );
}

#[test]
fn bad_words_through_string_option_id() {
    let mut s = PWQuality::new();
    assert!(s.set_str_value(PWQ_SETTING_BAD_WORDS, "  alpha\tbeta  ".to_string()).is_ok());
    assert_eq!(s.get_bad_words(), Ok(vec!["alpha".to_string(), "beta".to_string()]));
    assert_eq!(s.get_str_value(PWQ_SETTING_BAD_WORDS), Ok(Some("alpha beta".to_string())));
}

#[test]
fn default_config_is_usable() {
    let s = PWQuality::from_default_config().unwrap();
    assert_eq!(s.get_min_length(), 8);
    assert_eq!(s.get_min_diff(), Some(1));
    assert!(!s.get_dictionary_check());
    assert!(s.get_user_check());
    assert!(s.get_enforcing());
}
