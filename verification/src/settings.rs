//! The settings store: a `PWQuality` value is an immutable-during-evaluation
//! snapshot of every policy option, with typed accessors and numeric
//! option-id accessors.  The one normalization rule applied on write is the
//! floor of 6 on the minimum length; every other value is stored as given
//! and interpreted by the evaluator.

use vstd::prelude::*;

use crate::error::Error;

verus! {

pub const PWQ_SETTING_DIFF_OK: i32 = 1;

pub const PWQ_SETTING_MIN_LENGTH: i32 = 3;

pub const PWQ_SETTING_DIG_CREDIT: i32 = 4;

pub const PWQ_SETTING_UP_CREDIT: i32 = 5;

pub const PWQ_SETTING_LOW_CREDIT: i32 = 6;

pub const PWQ_SETTING_OTH_CREDIT: i32 = 7;

pub const PWQ_SETTING_MIN_CLASS: i32 = 8;

pub const PWQ_SETTING_MAX_REPEAT: i32 = 9;

pub const PWQ_SETTING_DICT_PATH: i32 = 10;

pub const PWQ_SETTING_MAX_CLASS_REPEAT: i32 = 11;

pub const PWQ_SETTING_GECOS_CHECK: i32 = 12;

pub const PWQ_SETTING_BAD_WORDS: i32 = 13;

pub const PWQ_SETTING_MAX_SEQUENCE: i32 = 14;

pub const PWQ_SETTING_DICT_CHECK: i32 = 15;

pub const PWQ_SETTING_USER_CHECK: i32 = 16;

pub const PWQ_SETTING_ENFORCING: i32 = 17;

/// The floor every stored minimum length is clamped to.
pub const MIN_LENGTH_FLOOR: i32 = 6;

/// One instance of the policy engine: a full set of policy options.
///
/// Integer credits follow the sign convention of the evaluator: a
/// non-negative credit is a capped per-character length bonus, a negative
/// credit is a required minimum count of that class.  A zero maximum
/// (repeat, class repeat, sequence) or a zero minimum difference disables
/// the corresponding check.
#[derive(Debug)]
pub struct PWQuality {
    pub min_diff: i32,
    pub min_length: i32,
    pub digit_credit: i32,
    pub uppercase_credit: i32,
    pub lowercase_credit: i32,
    pub other_credit: i32,
    pub min_classes: i32,
    pub max_repeat: i32,
    pub max_class_repeat: i32,
    pub max_sequence: i32,
    pub gecos_check: bool,
    pub dictionary_check: bool,
    pub user_check: bool,
    pub enforcing: bool,
    pub dictionary_path: Option<String>,
    pub bad_words: Vec<String>,
}

/// A well-formed store never reads back a minimum length below the floor.
pub open spec fn spec_wf(s: PWQuality) -> bool {
    s.min_length >= MIN_LENGTH_FLOOR
}

/// The clamped minimum length stored for a requested value.
pub open spec fn spec_clamp_min_length(v: i32) -> i32 {
    if v < MIN_LENGTH_FLOOR {
        MIN_LENGTH_FLOOR
    } else {
        v
    }
}

impl PWQuality {
    /// Creates a store holding the built-in defaults.  The dictionary check
    /// is off by default here: the word-list backend is an external service,
    /// and an evaluation with the check enabled but no backend answer is a
    /// fatal failure.
    pub fn new() -> (r: Self)
        ensures
            r.min_diff == 1,
            r.min_length == 8,
            r.digit_credit == 0,
            r.uppercase_credit == 0,
            r.lowercase_credit == 0,
            r.other_credit == 0,
            r.min_classes == 0,
            r.max_repeat == 0,
            r.max_class_repeat == 0,
            r.max_sequence == 0,
            !r.gecos_check,
            !r.dictionary_check,
            r.user_check,
            r.enforcing,
            r.dictionary_path is None,
            r.bad_words@.len() == 0,
            spec_wf(r),
    {
        PWQuality {
            min_diff: 1,
            min_length: 8,
            digit_credit: 0,
            uppercase_credit: 0,
            lowercase_credit: 0,
            other_credit: 0,
            min_classes: 0,
            max_repeat: 0,
            max_class_repeat: 0,
            max_sequence: 0,
            gecos_check: false,
            dictionary_check: false,
            user_check: true,
            enforcing: true,
            dictionary_path: None,
            bad_words: Vec::new(),
        }
    }

    /// Whether a store holds exactly the built-in defaults.
    pub open spec fn spec_is_default(s: PWQuality) -> bool {
        s.min_diff == 1 && s.min_length == 8 && s.digit_credit == 0 && s.uppercase_credit == 0
            && s.lowercase_credit == 0 && s.other_credit == 0 && s.min_classes == 0
            && s.max_repeat == 0 && s.max_class_repeat == 0 && s.max_sequence == 0
            && !s.gecos_check && !s.dictionary_check && s.user_check && s.enforcing
            && s.dictionary_path is None && s.bad_words@.len() == 0
    }

    /// Creates a store with the built-in default configuration.
    pub fn from_default_config() -> (r: Result<Self, Error>)
        ensures
            r matches Ok(s) && Self::spec_is_default(s),
    {
        Ok(PWQuality::new())
    }

    /// Sets the minimum number of changes required between the old and the
    /// new password; `None` disables the similarity check.
    pub fn set_min_diff(&mut self, min: Option<i32>)
        ensures
            *final(self) == (PWQuality {
                min_diff: (if min is Some { min->0 } else { 0i32 }),
                ..*old(self)
            }),
    {
        let val: i32 = match min {
            Some(v) => v,
            None => 0,
        };
        self.min_diff = val;
    }

    /// Returns the minimum required difference, `None` when the similarity
    /// check is disabled.
    pub fn get_min_diff(&self) -> (r: Option<i32>)
        ensures
            r == (if self.min_diff == 0 {
                Option::<i32>::None
            } else {
                Option::Some(self.min_diff)
            }),
    {
        if self.min_diff == 0 {
            None
        } else {
            Some(self.min_diff)
        }
    }

    /// Sets the minimum accepted password length; any request below the
    /// floor of 6 stores the floor instead, so the stored value read back
    /// is always at least 6.
    pub fn set_min_length(&mut self, min: i32)
        ensures
            *final(self) == (PWQuality { min_length: spec_clamp_min_length(min), ..*old(self) }),
            final(self).min_length >= MIN_LENGTH_FLOOR,
    {
        self.min_length = if min < MIN_LENGTH_FLOOR {
            MIN_LENGTH_FLOOR
        } else {
            min
        };
    }

    /// Returns the minimum accepted password length.
    pub fn get_min_length(&self) -> (r: i32)
        ensures
            r == self.min_length,
    {
        self.min_length
    }

    /// Sets the digit credit (non-negative: capped bonus; negative: required
    /// minimum count).
    pub fn set_digit_credit(&mut self, credit: i32)
        ensures
            *final(self) == (PWQuality { digit_credit: credit, ..*old(self) }),
    {
        self.digit_credit = credit;
    }

    /// Returns the digit credit.
    pub fn get_digit_credit(&self) -> (r: i32)
        ensures
            r == self.digit_credit,
    {
        self.digit_credit
    }

    /// Sets the uppercase-letter credit.
    pub fn set_uppercase_credit(&mut self, credit: i32)
        ensures
            *final(self) == (PWQuality { uppercase_credit: credit, ..*old(self) }),
    {
        self.uppercase_credit = credit;
    }

    /// Returns the uppercase-letter credit.
    pub fn get_uppercase_credit(&self) -> (r: i32)
        ensures
            r == self.uppercase_credit,
    {
        self.uppercase_credit
    }

    /// Sets the lowercase-letter credit.
    pub fn set_lowercase_credit(&mut self, credit: i32)
        ensures
            *final(self) == (PWQuality { lowercase_credit: credit, ..*old(self) }),
    {
        self.lowercase_credit = credit;
    }

    /// Returns the lowercase-letter credit.
    pub fn get_lowercase_credit(&self) -> (r: i32)
        ensures
            r == self.lowercase_credit,
    {
        self.lowercase_credit
    }

    /// Sets the other-character credit.
    pub fn set_other_credit(&mut self, credit: i32)
        ensures
            *final(self) == (PWQuality { other_credit: credit, ..*old(self) }),
    {
        self.other_credit = credit;
    }

    /// Returns the other-character credit.
    pub fn get_other_credit(&self) -> (r: i32)
        ensures
            r == self.other_credit,
    {
        self.other_credit
    }

    /// Sets the minimum required number of character classes.
    pub fn set_min_classes(&mut self, min: i32)
        ensures
            *final(self) == (PWQuality { min_classes: min, ..*old(self) }),
    {
        self.min_classes = min;
    }

    /// Returns the minimum required number of character classes.
    pub fn get_min_classes(&self) -> (r: i32)
        ensures
            r == self.min_classes,
    {
        self.min_classes
    }

    /// Sets the longest allowed run of one repeated character; zero
    /// disables the check.
    pub fn set_max_repeat(&mut self, max: i32)
        ensures
            *final(self) == (PWQuality { max_repeat: max, ..*old(self) }),
    {
        self.max_repeat = max;
    }

    /// Returns the longest allowed run of one repeated character.
    pub fn get_max_repeat(&self) -> (r: i32)
        ensures
            r == self.max_repeat,
    {
        self.max_repeat
    }

    /// Sets the longest allowed run of characters of one class; zero
    /// disables the check.
    pub fn set_max_class_repeat(&mut self, max: i32)
        ensures
            *final(self) == (PWQuality { max_class_repeat: max, ..*old(self) }),
    {
        self.max_class_repeat = max;
    }

    /// Returns the longest allowed run of characters of one class.
    pub fn get_max_class_repeat(&self) -> (r: i32)
        ensures
            r == self.max_class_repeat,
    {
        self.max_class_repeat
    }

    /// Sets the longest allowed monotonic character sequence; zero disables
    /// the check.
    pub fn set_max_sequence(&mut self, max: i32)
        ensures
            *final(self) == (PWQuality { max_sequence: max, ..*old(self) }),
    {
        self.max_sequence = max;
    }

    /// Returns the longest allowed monotonic character sequence.
    pub fn get_max_sequence(&self) -> (r: i32)
        ensures
            r == self.max_sequence,
    {
        self.max_sequence
    }

    /// Enables or disables the check against words from the user's
    /// description field.
    pub fn set_gecos_check(&mut self, check: bool)
        ensures
            *final(self) == (PWQuality { gecos_check: check, ..*old(self) }),
    {
        self.gecos_check = check;
    }

    /// Returns whether the description-field word check is enabled.
    pub fn get_gecos_check(&self) -> (r: bool)
        ensures
            r == self.gecos_check,
    {
        self.gecos_check
    }

    /// Enables or disables the dictionary lookup check.
    pub fn set_dictionary_check(&mut self, check: bool)
        ensures
            *final(self) == (PWQuality { dictionary_check: check, ..*old(self) }),
    {
        self.dictionary_check = check;
    }

    /// Returns whether the dictionary lookup check is enabled.
    pub fn get_dictionary_check(&self) -> (r: bool)
        ensures
            r == self.dictionary_check,
    {
        self.dictionary_check
    }

    /// Enables or disables the username-substring check.
    pub fn set_user_check(&mut self, check: bool)
        ensures
            *final(self) == (PWQuality { user_check: check, ..*old(self) }),
    {
        self.user_check = check;
    }

    /// Returns whether the username-substring check is enabled.
    pub fn get_user_check(&self) -> (r: bool)
        ensures
            r == self.user_check,
    {
        self.user_check
    }

    /// Sets whether rejections are to be treated as fatal by the caller.
    pub fn set_enforcing(&mut self, check: bool)
        ensures
            *final(self) == (PWQuality { enforcing: check, ..*old(self) }),
    {
        self.enforcing = check;
    }

    /// Returns whether rejections are to be treated as fatal by the caller.
    pub fn get_enforcing(&self) -> (r: bool)
        ensures
            r == self.enforcing,
    {
        self.enforcing
    }

    /// Sets the dictionary path; an empty path clears it, so the default
    /// backend of whatever service the caller wires up is used again.
    pub fn set_dictionary_path(&mut self, path: String) -> (r: Result<(), Error>)
        ensures
            r is Ok,
            path@.len() == 0 ==> final(self).dictionary_path is None,
            path@.len() > 0 ==> (final(self).dictionary_path matches Some(p) && p@ == path@),
            *final(self) == (PWQuality {
                dictionary_path: final(self).dictionary_path,
                ..*old(self)
            }),
    {
        if path.as_str().unicode_len() == 0 {
            self.dictionary_path = None;
        } else {
            self.dictionary_path = Some(path);
        }
        Ok(())
    }

    /// Returns the dictionary path, if one is configured.
    pub fn get_dictionary_path(&self) -> (r: Result<Option<String>, Error>)
        ensures
            r matches Ok(o) && spec_opt_path_view(o) == spec_opt_path_view(self.dictionary_path),
    {
        match &self.dictionary_path {
            None => Ok(None),
            Some(p) => Ok(Some(p.clone())),
        }
    }

    /// Stores the forbidden-word list: the given words joined and split
    /// again on whitespace, so an entry holding blanks counts as several
    /// words.
    pub fn set_bad_words(&mut self, bad_words: Vec<String>) -> (r: Result<(), Error>)
        ensures
            r is Ok,
            final(self).bad_words.deep_view() == crate::textops::spec_split_ws(
                crate::textops::spec_join_ws(bad_words.deep_view()),
            ),
            *final(self) == (PWQuality { bad_words: final(self).bad_words, ..*old(self) }),
    {
        let joined: String = crate::textops::join_words(&bad_words);
        self.bad_words = crate::textops::split_words(joined.as_str());
        Ok(())
    }

    /// Returns the forbidden-word list.
    pub fn get_bad_words(&self) -> (r: Result<Vec<String>, Error>)
        ensures
            r matches Ok(v) && v.deep_view() == self.bad_words.deep_view(),
    {
        let mut out: Vec<String> = Vec::new();
        let mut i: usize = 0;
        proof {
            assert(out.deep_view() =~~= self.bad_words.deep_view().take(0));
        }
        while i < self.bad_words.len()
            invariant
                i <= self.bad_words@.len(),
                out.deep_view() == self.bad_words.deep_view().take(i as int),
            decreases self.bad_words@.len() - i,
        {
            let ghost prev: Seq<Seq<char>> = out.deep_view();
            out.push(self.bad_words[i].clone());
            proof {
                assert(out.deep_view() =~~= prev.push(self.bad_words@[i as int]@));
                assert(self.bad_words.deep_view()[i as int] == self.bad_words@[i as int]@);
                assert(out.deep_view() =~~= self.bad_words.deep_view().take(i + 1));
            }
            i = i + 1;
        }
        proof {
            assert(self.bad_words.deep_view().take(i as int) =~~= self.bad_words.deep_view());
        }
        Ok(out)
    }

    /// Sets an integer option by its numeric id.
    pub fn set_int_value(&mut self, setting: i32, value: i32) -> (r: Result<(), Error>)
        ensures
            (spec_set_int_value(*old(self), setting as int, value) matches Ok(s1) ==> r is Ok
                && *final(self) == s1),
            (spec_set_int_value(*old(self), setting as int, value) matches Err(e) ==> (
            r matches Err(e2) && e2 == e) && *final(self) == *old(self)),
    {
        if setting == PWQ_SETTING_DIFF_OK {
            self.min_diff = value;
        } else if setting == PWQ_SETTING_MIN_LENGTH {
            self.min_length = if value < MIN_LENGTH_FLOOR {
                MIN_LENGTH_FLOOR
            } else {
                value
            };
        } else if setting == PWQ_SETTING_DIG_CREDIT {
            self.digit_credit = value;
        } else if setting == PWQ_SETTING_UP_CREDIT {
            self.uppercase_credit = value;
        } else if setting == PWQ_SETTING_LOW_CREDIT {
            self.lowercase_credit = value;
        } else if setting == PWQ_SETTING_OTH_CREDIT {
            self.other_credit = value;
        } else if setting == PWQ_SETTING_MIN_CLASS {
            self.min_classes = value;
        } else if setting == PWQ_SETTING_MAX_REPEAT {
            self.max_repeat = value;
        } else if setting == PWQ_SETTING_MAX_CLASS_REPEAT {
            self.max_class_repeat = value;
        } else if setting == PWQ_SETTING_MAX_SEQUENCE {
            self.max_sequence = value;
        } else if setting == PWQ_SETTING_GECOS_CHECK {
            self.gecos_check = value != 0;
        } else if setting == PWQ_SETTING_DICT_CHECK {
            self.dictionary_check = value != 0;
        } else if setting == PWQ_SETTING_USER_CHECK {
            self.user_check = value != 0;
        } else if setting == PWQ_SETTING_ENFORCING {
            self.enforcing = value != 0;
        } else if setting == PWQ_SETTING_DICT_PATH || setting == PWQ_SETTING_BAD_WORDS {
            return Err(Error::NonIntSetting);
        } else {
            return Err(Error::UnknownSetting);
        }
        Ok(())
    }

    /// Reads an integer option by its numeric id; booleans read as 0 or 1.
    pub fn get_int_value(&self, setting: i32) -> (r: Result<i32, Error>)
        ensures
            r == spec_get_int_value(*self, setting as int),
    {
        if setting == PWQ_SETTING_DIFF_OK {
            Ok(self.min_diff)
        } else if setting == PWQ_SETTING_MIN_LENGTH {
            Ok(self.min_length)
        } else if setting == PWQ_SETTING_DIG_CREDIT {
            Ok(self.digit_credit)
        } else if setting == PWQ_SETTING_UP_CREDIT {
            Ok(self.uppercase_credit)
        } else if setting == PWQ_SETTING_LOW_CREDIT {
            Ok(self.lowercase_credit)
        } else if setting == PWQ_SETTING_OTH_CREDIT {
            Ok(self.other_credit)
        } else if setting == PWQ_SETTING_MIN_CLASS {
            Ok(self.min_classes)
        } else if setting == PWQ_SETTING_MAX_REPEAT {
            Ok(self.max_repeat)
        } else if setting == PWQ_SETTING_MAX_CLASS_REPEAT {
            Ok(self.max_class_repeat)
        } else if setting == PWQ_SETTING_MAX_SEQUENCE {
            Ok(self.max_sequence)
        } else if setting == PWQ_SETTING_GECOS_CHECK {
            Ok(if self.gecos_check { 1 } else { 0 })
        } else if setting == PWQ_SETTING_DICT_CHECK {
            Ok(if self.dictionary_check { 1 } else { 0 })
        } else if setting == PWQ_SETTING_USER_CHECK {
            Ok(if self.user_check { 1 } else { 0 })
        } else if setting == PWQ_SETTING_ENFORCING {
            Ok(if self.enforcing { 1 } else { 0 })
        } else if setting == PWQ_SETTING_DICT_PATH || setting == PWQ_SETTING_BAD_WORDS {
            Err(Error::NonIntSetting)
        } else {
            Err(Error::UnknownSetting)
        }
    }

    /// Sets a string option by its numeric id.
    pub fn set_str_value(&mut self, setting: i32, value: String) -> (r: Result<(), Error>)
        ensures
            setting == PWQ_SETTING_DICT_PATH ==> r is Ok && (value@.len() == 0 ==> final(
                self).dictionary_path is None) && (value@.len() > 0 ==> (final(
                self).dictionary_path matches Some(p) && p@ == value@)) && *final(self) == (PWQuality {
                dictionary_path: final(self).dictionary_path,
                ..*old(self)
            }),
            setting == PWQ_SETTING_BAD_WORDS ==> r is Ok && final(self).bad_words.deep_view()
                == crate::textops::spec_split_ws(value@) && *final(self) == (PWQuality {
                bad_words: final(self).bad_words,
                ..*old(self)
            }),
            spec_is_int_setting(setting as int) ==> r == Err::<(), Error>(Error::NonStrSetting)
                && *final(self) == *old(self),
            !(setting == PWQ_SETTING_DICT_PATH || setting == PWQ_SETTING_BAD_WORDS
                || spec_is_int_setting(setting as int)) ==> r == Err::<(), Error>(
                Error::UnknownSetting,
            ) && *final(self) == *old(self),
    {
        if setting == PWQ_SETTING_DICT_PATH {
            self.set_dictionary_path(value)
        } else if setting == PWQ_SETTING_BAD_WORDS {
            self.bad_words = crate::textops::split_words(value.as_str());
            Ok(())
        } else if setting == PWQ_SETTING_DIFF_OK || setting == PWQ_SETTING_MIN_LENGTH || setting
            == PWQ_SETTING_DIG_CREDIT || setting == PWQ_SETTING_UP_CREDIT || setting
            == PWQ_SETTING_LOW_CREDIT || setting == PWQ_SETTING_OTH_CREDIT || setting
            == PWQ_SETTING_MIN_CLASS || setting == PWQ_SETTING_MAX_REPEAT || setting
            == PWQ_SETTING_MAX_CLASS_REPEAT || setting == PWQ_SETTING_MAX_SEQUENCE || setting
            == PWQ_SETTING_GECOS_CHECK || setting == PWQ_SETTING_DICT_CHECK || setting
            == PWQ_SETTING_USER_CHECK || setting == PWQ_SETTING_ENFORCING {
            Err(Error::NonStrSetting)
        } else {
            Err(Error::UnknownSetting)
        }
    }

    /// Reads a string option by its numeric id; the word list reads back
    /// as one space-joined string.
    pub fn get_str_value(&self, setting: i32) -> (r: Result<Option<String>, Error>)
        ensures
            setting == PWQ_SETTING_DICT_PATH ==> (r matches Ok(o) && spec_opt_path_view(o)
                == spec_opt_path_view(self.dictionary_path)),
            setting == PWQ_SETTING_BAD_WORDS ==> (r matches Ok(o) && o matches Some(j) && j@
                == crate::textops::spec_join_ws(self.bad_words.deep_view())),
            spec_is_int_setting(setting as int) ==> r == Err::<Option<String>, Error>(
                Error::NonStrSetting,
            ),
            !(setting == PWQ_SETTING_DICT_PATH || setting == PWQ_SETTING_BAD_WORDS
                || spec_is_int_setting(setting as int)) ==> r == Err::<Option<String>, Error>(
                Error::UnknownSetting,
            ),
    {
        if setting == PWQ_SETTING_DICT_PATH {
            match &self.dictionary_path {
                None => Ok(None),
                Some(p) => Ok(Some(p.clone())),
            }
        } else if setting == PWQ_SETTING_BAD_WORDS {
            Ok(Some(crate::textops::join_words(&self.bad_words)))
        } else if setting == PWQ_SETTING_DIFF_OK || setting == PWQ_SETTING_MIN_LENGTH || setting
            == PWQ_SETTING_DIG_CREDIT || setting == PWQ_SETTING_UP_CREDIT || setting
            == PWQ_SETTING_LOW_CREDIT || setting == PWQ_SETTING_OTH_CREDIT || setting
            == PWQ_SETTING_MIN_CLASS || setting == PWQ_SETTING_MAX_REPEAT || setting
            == PWQ_SETTING_MAX_CLASS_REPEAT || setting == PWQ_SETTING_MAX_SEQUENCE || setting
            == PWQ_SETTING_GECOS_CHECK || setting == PWQ_SETTING_DICT_CHECK || setting
            == PWQ_SETTING_USER_CHECK || setting == PWQ_SETTING_ENFORCING {
            Err(Error::NonStrSetting)
        } else {
            Err(Error::UnknownSetting)
        }
    }
}

/// The view of an optional path.
pub open spec fn spec_opt_path_view(o: Option<String>) -> Option<Seq<char>> {
    match o {
        Some(p) => Some(p@),
        None => None,
    }
}

/// The numeric ids that name integer options.
pub open spec fn spec_is_int_setting(setting: int) -> bool {
    setting == PWQ_SETTING_DIFF_OK || setting == PWQ_SETTING_MIN_LENGTH || setting
        == PWQ_SETTING_DIG_CREDIT || setting == PWQ_SETTING_UP_CREDIT || setting
        == PWQ_SETTING_LOW_CREDIT || setting == PWQ_SETTING_OTH_CREDIT || setting
        == PWQ_SETTING_MIN_CLASS || setting == PWQ_SETTING_MAX_REPEAT || setting
        == PWQ_SETTING_MAX_CLASS_REPEAT || setting == PWQ_SETTING_MAX_SEQUENCE || setting
        == PWQ_SETTING_GECOS_CHECK || setting == PWQ_SETTING_DICT_CHECK || setting
        == PWQ_SETTING_USER_CHECK || setting == PWQ_SETTING_ENFORCING
}

/// What storing an integer option by id does: the new store, or the typed
/// failure, with the minimum length clamped to its floor on write.
pub open spec fn spec_set_int_value(s: PWQuality, setting: int, value: i32) -> Result<
    PWQuality,
    Error,
> {
    if setting == PWQ_SETTING_DIFF_OK {
        Ok(PWQuality { min_diff: value, ..s })
    } else if setting == PWQ_SETTING_MIN_LENGTH {
        Ok(PWQuality { min_length: spec_clamp_min_length(value), ..s })
    } else if setting == PWQ_SETTING_DIG_CREDIT {
        Ok(PWQuality { digit_credit: value, ..s })
    } else if setting == PWQ_SETTING_UP_CREDIT {
        Ok(PWQuality { uppercase_credit: value, ..s })
    } else if setting == PWQ_SETTING_LOW_CREDIT {
        Ok(PWQuality { lowercase_credit: value, ..s })
    } else if setting == PWQ_SETTING_OTH_CREDIT {
        Ok(PWQuality { other_credit: value, ..s })
    } else if setting == PWQ_SETTING_MIN_CLASS {
        Ok(PWQuality { min_classes: value, ..s })
    } else if setting == PWQ_SETTING_MAX_REPEAT {
        Ok(PWQuality { max_repeat: value, ..s })
    } else if setting == PWQ_SETTING_MAX_CLASS_REPEAT {
        Ok(PWQuality { max_class_repeat: value, ..s })
    } else if setting == PWQ_SETTING_MAX_SEQUENCE {
        Ok(PWQuality { max_sequence: value, ..s })
    } else if setting == PWQ_SETTING_GECOS_CHECK {
        Ok(PWQuality { gecos_check: value != 0, ..s })
    } else if setting == PWQ_SETTING_DICT_CHECK {
        Ok(PWQuality { dictionary_check: value != 0, ..s })
    } else if setting == PWQ_SETTING_USER_CHECK {
        Ok(PWQuality { user_check: value != 0, ..s })
    } else if setting == PWQ_SETTING_ENFORCING {
        Ok(PWQuality { enforcing: value != 0, ..s })
    } else if setting == PWQ_SETTING_DICT_PATH || setting == PWQ_SETTING_BAD_WORDS {
        Err(Error::NonIntSetting)
    } else {
        Err(Error::UnknownSetting)
    }
}

/// What reading an integer option by id returns: the stored value,
/// booleans as 0 or 1, or the typed failure.
pub open spec fn spec_get_int_value(s: PWQuality, setting: int) -> Result<i32, Error> {
    if setting == PWQ_SETTING_DIFF_OK {
        Ok(s.min_diff)
    } else if setting == PWQ_SETTING_MIN_LENGTH {
        Ok(s.min_length)
    } else if setting == PWQ_SETTING_DIG_CREDIT {
        Ok(s.digit_credit)
    } else if setting == PWQ_SETTING_UP_CREDIT {
        Ok(s.uppercase_credit)
    } else if setting == PWQ_SETTING_LOW_CREDIT {
        Ok(s.lowercase_credit)
    } else if setting == PWQ_SETTING_OTH_CREDIT {
        Ok(s.other_credit)
    } else if setting == PWQ_SETTING_MIN_CLASS {
        Ok(s.min_classes)
    } else if setting == PWQ_SETTING_MAX_REPEAT {
        Ok(s.max_repeat)
    } else if setting == PWQ_SETTING_MAX_CLASS_REPEAT {
        Ok(s.max_class_repeat)
    } else if setting == PWQ_SETTING_MAX_SEQUENCE {
        Ok(s.max_sequence)
    } else if setting == PWQ_SETTING_GECOS_CHECK {
        Ok(if s.gecos_check { 1i32 } else { 0i32 })
    } else if setting == PWQ_SETTING_DICT_CHECK {
        Ok(if s.dictionary_check { 1i32 } else { 0i32 })
    } else if setting == PWQ_SETTING_USER_CHECK {
        Ok(if s.user_check { 1i32 } else { 0i32 })
    } else if setting == PWQ_SETTING_ENFORCING {
        Ok(if s.enforcing { 1i32 } else { 0i32 })
    } else if setting == PWQ_SETTING_DICT_PATH || setting == PWQ_SETTING_BAD_WORDS {
        Err(Error::NonIntSetting)
    } else {
        Err(Error::UnknownSetting)
    }
}

/// Writing any value leaves the read-back minimum length at or above the
/// floor of 6, whether written through the typed setter or by option id.
pub proof fn lemma_min_length_floor(s: PWQuality, v: i32)
    ensures
        spec_clamp_min_length(v) >= MIN_LENGTH_FLOOR,
        spec_set_int_value(s, PWQ_SETTING_MIN_LENGTH as int, v) matches Ok(s1)
            && s1.min_length >= MIN_LENGTH_FLOOR,
{
}


} // verus!
