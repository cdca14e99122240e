//! Loading a store from configuration entries.  Reading and line-splitting
//! a configuration file is the external loader's work; the store consumes
//! the resulting key-to-value mapping.  Keys are the option names of the
//! usual configuration format; integer values are parsed here, and a
//! malformed value or an unknown key is a malformed-configuration failure.

use vstd::prelude::*;

use crate::classify::spec_is_digit;
use crate::error::Error;
use crate::settings::{spec_clamp_min_length, PWQuality, MIN_LENGTH_FLOOR};
use crate::textops::{chars_vec, eq_chars, spec_split_ws, split_words};

verus! {

/// Every character of `s` is a decimal digit, and there is at least one.
pub open spec fn spec_all_digits(s: Seq<char>) -> bool {
    s.len() > 0 && forall|i: int| 0 <= i < s.len() ==> spec_is_digit(#[trigger] s[i])
}

/// The value of a sequence of decimal digits.
pub open spec fn spec_dec_val(s: Seq<char>) -> int
    decreases s.len(),
{
    if s.len() == 0 {
        0
    } else {
        10 * spec_dec_val(s.drop_last()) + (s.last() as u32 - 48)
    }
}

/// The integer a text denotes: an optional minus sign, then decimal
/// digits, with the value in range; anything else denotes nothing.
pub open spec fn spec_parse_i32(s: Seq<char>) -> Option<i32> {
    let neg = s.len() > 0 && s[0] == '-';
    let ds = if neg {
        s.drop_first()
    } else {
        s
    };
    if !spec_all_digits(ds) {
        None
    } else {
        let v = spec_dec_val(ds);
        if neg {
            if v <= 0x8000_0000 {
                Some((-v) as i32)
            } else {
                None
            }
        } else {
            if v <= 0x7fff_ffff {
                Some(v as i32)
            } else {
                None
            }
        }
    }
}

/// Parses a decimal integer, rejecting anything malformed or out of range.
pub fn parse_i32(s: &Vec<char>) -> (r: Result<i32, Error>)
    ensures
        (spec_parse_i32(s@) matches Some(v) ==> r == Ok::<i32, Error>(v)),
        (spec_parse_i32(s@) is None ==> r == Err::<i32, Error>(Error::CfgfileMalformed)),
{
    let len: usize = s.len();
    let neg: bool = len > 0 && s[0] == '-';
    let off: usize = if neg {
        1
    } else {
        0
    };
    let ghost ds: Seq<char> = if neg {
        s@.drop_first()
    } else {
        s@
    };
    proof {
        assert(ds =~= s@.subrange(off as int, len as int));
    }
    if len == off {
        return Err(Error::CfgfileMalformed);
    }
    let mut mag: u64 = 0;
    let mut sat: bool = false;
    let mut i: usize = off;
    while i < len
        invariant
            off <= i <= len,
            len == s@.len(),
            neg == (s@.len() > 0 && s@[0] == '-'),
            off == (if neg {
                1int
            } else {
                0int
            }),
            ds == s@.subrange(off as int, len as int),
            neg ==> ds == s@.drop_first(),
            !neg ==> ds == s@,
            forall|j: int| off <= j < i ==> spec_is_digit(#[trigger] s@[j]),
            !sat ==> mag <= 0x8000_0000 && mag as int == spec_dec_val(
                s@.subrange(off as int, i as int),
            ),
            sat ==> spec_dec_val(s@.subrange(off as int, i as int)) > 0x8000_0000,
        decreases len - i,
    {
        let c: char = s[i];
        if !('0' <= c && c <= '9') {
            proof {
                assert(ds[i - off] == s@[i as int]);
                assert(!spec_all_digits(ds));
            }
            return Err(Error::CfgfileMalformed);
        }
        let d: u64 = (c as u32 - 48) as u64;
        proof {
            assert(s@.subrange(off as int, i + 1).drop_last() =~= s@.subrange(
                off as int,
                i as int,
            ));
            assert(s@.subrange(off as int, i + 1).last() == s@[i as int]);
        }
        if sat {
        } else {
            let next: u64 = mag * 10 + d;
            if next > 0x8000_0000 {
                sat = true;
            } else {
                mag = next;
            }
        }
        i = i + 1;
    }
    proof {
        assert(s@.subrange(off as int, len as int) =~= ds);
        assert(spec_all_digits(ds));
    }
    if sat {
        return Err(Error::CfgfileMalformed);
    }
    if neg {
        if mag == 0x8000_0000 {
            Ok(i32::MIN)
        } else {
            Ok(-(mag as i32))
        }
    } else {
        if mag > 0x7fff_ffff {
            Err(Error::CfgfileMalformed)
        } else {
            Ok(mag as i32)
        }
    }
}

/// What applying one configuration entry to a store yields: the store with
/// that option overridden, or a malformed-configuration failure for an
/// unknown key or an unparsable integer.
pub open spec fn spec_config_step(
    s0: PWQuality,
    key: Seq<char>,
    value: Seq<char>,
    r: Result<PWQuality, Error>,
) -> bool {
    if key == "difok"@ {
        match spec_parse_i32(value) {
            Some(v) => r == Ok::<PWQuality, Error>((PWQuality { min_diff: v, ..s0 })),
            None => r == Err::<PWQuality, Error>(Error::CfgfileMalformed),
        }
    } else if key == "minlen"@ {
        match spec_parse_i32(value) {
            Some(v) => r == Ok::<PWQuality, Error>(
                (PWQuality { min_length: spec_clamp_min_length(v), ..s0 }),
            ),
            None => r == Err::<PWQuality, Error>(Error::CfgfileMalformed),
        }
    } else if key == "dcredit"@ {
        match spec_parse_i32(value) {
            Some(v) => r == Ok::<PWQuality, Error>((PWQuality { digit_credit: v, ..s0 })),
            None => r == Err::<PWQuality, Error>(Error::CfgfileMalformed),
        }
    } else if key == "ucredit"@ {
        match spec_parse_i32(value) {
            Some(v) => r == Ok::<PWQuality, Error>((PWQuality { uppercase_credit: v, ..s0 })),
            None => r == Err::<PWQuality, Error>(Error::CfgfileMalformed),
        }
    } else if key == "lcredit"@ {
        match spec_parse_i32(value) {
            Some(v) => r == Ok::<PWQuality, Error>((PWQuality { lowercase_credit: v, ..s0 })),
            None => r == Err::<PWQuality, Error>(Error::CfgfileMalformed),
        }
    } else if key == "ocredit"@ {
        match spec_parse_i32(value) {
            Some(v) => r == Ok::<PWQuality, Error>((PWQuality { other_credit: v, ..s0 })),
            None => r == Err::<PWQuality, Error>(Error::CfgfileMalformed),
        }
    } else if key == "minclass"@ {
        match spec_parse_i32(value) {
            Some(v) => r == Ok::<PWQuality, Error>((PWQuality { min_classes: v, ..s0 })),
            None => r == Err::<PWQuality, Error>(Error::CfgfileMalformed),
        }
    } else if key == "maxrepeat"@ {
        match spec_parse_i32(value) {
            Some(v) => r == Ok::<PWQuality, Error>((PWQuality { max_repeat: v, ..s0 })),
            None => r == Err::<PWQuality, Error>(Error::CfgfileMalformed),
        }
    } else if key == "maxclassrepeat"@ {
        match spec_parse_i32(value) {
            Some(v) => r == Ok::<PWQuality, Error>((PWQuality { max_class_repeat: v, ..s0 })),
            None => r == Err::<PWQuality, Error>(Error::CfgfileMalformed),
        }
    } else if key == "maxsequence"@ {
        match spec_parse_i32(value) {
            Some(v) => r == Ok::<PWQuality, Error>((PWQuality { max_sequence: v, ..s0 })),
            None => r == Err::<PWQuality, Error>(Error::CfgfileMalformed),
        }
    } else if key == "gecoscheck"@ {
        match spec_parse_i32(value) {
            Some(v) => r == Ok::<PWQuality, Error>((PWQuality { gecos_check: v != 0, ..s0 })),
            None => r == Err::<PWQuality, Error>(Error::CfgfileMalformed),
        }
    } else if key == "dictcheck"@ {
        match spec_parse_i32(value) {
            Some(v) => r == Ok::<PWQuality, Error>(
                (PWQuality { dictionary_check: v != 0, ..s0 }),
            ),
            None => r == Err::<PWQuality, Error>(Error::CfgfileMalformed),
        }
    } else if key == "usercheck"@ {
        match spec_parse_i32(value) {
            Some(v) => r == Ok::<PWQuality, Error>((PWQuality { user_check: v != 0, ..s0 })),
            None => r == Err::<PWQuality, Error>(Error::CfgfileMalformed),
        }
    } else if key == "enforcing"@ {
        match spec_parse_i32(value) {
            Some(v) => r == Ok::<PWQuality, Error>((PWQuality { enforcing: v != 0, ..s0 })),
            None => r == Err::<PWQuality, Error>(Error::CfgfileMalformed),
        }
    } else if key == "dictpath"@ {
        if value.len() == 0 {
            r == Ok::<PWQuality, Error>((PWQuality { dictionary_path: None, ..s0 }))
        } else {
            r matches Ok(s1) && (s1.dictionary_path matches Some(p) && p@ == value) && s1
                == (PWQuality { dictionary_path: s1.dictionary_path, ..s0 })
        }
    } else if key == "badwords"@ {
        r matches Ok(s1) && s1.bad_words.deep_view() == spec_split_ws(value) && s1 == (PWQuality {
            bad_words: s1.bad_words,
            ..s0
        })
    } else {
        r == Err::<PWQuality, Error>(Error::CfgfileMalformed)
    }
}

/// What applying a whole entry list yields, entry by entry, stopping at
/// the first failure.
pub open spec fn spec_config_run(
    s0: PWQuality,
    entries: Seq<(String, String)>,
    r: Result<PWQuality, Error>,
) -> bool
    decreases entries.len(),
{
    if entries.len() == 0 {
        r == Ok::<PWQuality, Error>(s0)
    } else {
        exists|mid: Result<PWQuality, Error>|
            #[trigger] spec_config_step(s0, entries[0].0@, entries[0].1@, mid) && (match mid {
                Ok(s1) => spec_config_run(s1, entries.drop_first(), r),
                Err(e) => r == Err::<PWQuality, Error>(e),
            })
    }
}

/// Loading from configuration entries: the defaults, overridden entry by
/// entry, or the first failure.
pub open spec fn spec_from_config_outcome(
    entries: Seq<(String, String)>,
    r: Result<PWQuality, Error>,
) -> bool {
    exists|s0: PWQuality|
        #[trigger] PWQuality::spec_is_default(s0) && spec_config_run(s0, entries, r)
}

/// Applies one key/value entry to the store.
fn apply_entry(s: &mut PWQuality, key: &String, value: &String) -> (r: Result<(), Error>)
    ensures
        (r is Ok ==> spec_config_step(*old(s), key@, value@, Ok(*final(s)))),
        (r matches Err(e) ==> spec_config_step(*old(s), key@, value@, Err::<PWQuality, Error>(e))
            && *final(s) == *old(s)),
{
    let kc: Vec<char> = chars_vec(key.as_str());
    let vc: Vec<char> = chars_vec(value.as_str());
    if eq_chars(&kc, &chars_vec("difok")) {
        match parse_i32(&vc) {
            Ok(v) => {
                s.min_diff = v;
                Ok(())
            },
            Err(e) => Err(e),
        }
    } else if eq_chars(&kc, &chars_vec("minlen")) {
        match parse_i32(&vc) {
            Ok(v) => {
                s.min_length = if v < MIN_LENGTH_FLOOR {
                    MIN_LENGTH_FLOOR
                } else {
                    v
                };
                Ok(())
            },
            Err(e) => Err(e),
        }
    } else if eq_chars(&kc, &chars_vec("dcredit")) {
        match parse_i32(&vc) {
            Ok(v) => {
                s.digit_credit = v;
                Ok(())
            },
            Err(e) => Err(e),
        }
    } else if eq_chars(&kc, &chars_vec("ucredit")) {
        match parse_i32(&vc) {
            Ok(v) => {
                s.uppercase_credit = v;
                Ok(())
            },
            Err(e) => Err(e),
        }
    } else if eq_chars(&kc, &chars_vec("lcredit")) {
        match parse_i32(&vc) {
            Ok(v) => {
                s.lowercase_credit = v;
                Ok(())
            },
            Err(e) => Err(e),
        }
    } else if eq_chars(&kc, &chars_vec("ocredit")) {
        match parse_i32(&vc) {
            Ok(v) => {
                s.other_credit = v;
                Ok(())
            },
            Err(e) => Err(e),
        }
    } else if eq_chars(&kc, &chars_vec("minclass")) {
        match parse_i32(&vc) {
            Ok(v) => {
                s.min_classes = v;
                Ok(())
            },
            Err(e) => Err(e),
        }
    } else if eq_chars(&kc, &chars_vec("maxrepeat")) {
        match parse_i32(&vc) {
            Ok(v) => {
                s.max_repeat = v;
                Ok(())
            },
            Err(e) => Err(e),
        }
    } else if eq_chars(&kc, &chars_vec("maxclassrepeat")) {
        match parse_i32(&vc) {
            Ok(v) => {
                s.max_class_repeat = v;
                Ok(())
            },
            Err(e) => Err(e),
        }
    } else if eq_chars(&kc, &chars_vec("maxsequence")) {
        match parse_i32(&vc) {
            Ok(v) => {
                s.max_sequence = v;
                Ok(())
            },
            Err(e) => Err(e),
        }
    } else if eq_chars(&kc, &chars_vec("gecoscheck")) {
        match parse_i32(&vc) {
            Ok(v) => {
                s.gecos_check = v != 0;
                Ok(())
            },
            Err(e) => Err(e),
        }
    } else if eq_chars(&kc, &chars_vec("dictcheck")) {
        match parse_i32(&vc) {
            Ok(v) => {
                s.dictionary_check = v != 0;
                Ok(())
            },
            Err(e) => Err(e),
        }
    } else if eq_chars(&kc, &chars_vec("usercheck")) {
        match parse_i32(&vc) {
            Ok(v) => {
                s.user_check = v != 0;
                Ok(())
            },
            Err(e) => Err(e),
        }
    } else if eq_chars(&kc, &chars_vec("enforcing")) {
        match parse_i32(&vc) {
            Ok(v) => {
                s.enforcing = v != 0;
                Ok(())
            },
            Err(e) => Err(e),
        }
    } else if eq_chars(&kc, &chars_vec("dictpath")) {
        if vc.len() == 0 {
            s.dictionary_path = None;
        } else {
            s.dictionary_path = Some(value.clone());
        }
        Ok(())
    } else if eq_chars(&kc, &chars_vec("badwords")) {
        s.bad_words = split_words(value.as_str());
        Ok(())
    } else {
        Err(Error::CfgfileMalformed)
    }
}

impl PWQuality {
    /// Creates a store from configuration entries: the built-in defaults
    /// with each entry's option overridden in order, failing on the first
    /// unknown key or malformed value.  The external configuration loader
    /// supplies the key/value list; this store does not read files.
    pub fn from_config(entries: &Vec<(String, String)>) -> (r: Result<Self, Error>)
        ensures
            spec_from_config_outcome(entries@, r),
    {
        let mut s: PWQuality = PWQuality::new();
        let ghost s0: PWQuality = s;
        let mut i: usize = 0;
        proof {
            assert(entries@.skip(0) =~= entries@);
        }
        while i < entries.len()
            invariant
                i <= entries@.len(),
                PWQuality::spec_is_default(s0),
                forall|rf: Result<PWQuality, Error>|
                    #[trigger] spec_config_run(s, entries@.skip(i as int), rf)
                        ==> spec_config_run(s0, entries@, rf),
            decreases entries@.len() - i,
        {
            let ghost s_prev: PWQuality = s;
            let entry: &(String, String) = &entries[i];
            let step: Result<(), Error> = apply_entry(&mut s, &entry.0, &entry.1);
            proof {
                assert(entries@.skip(i as int)[0] == entries@[i as int]);
                assert(entries@.skip(i as int).drop_first() =~= entries@.skip(i + 1));
            }
            match step {
                Ok(()) => {},
                Err(e) => {
                    proof {
                        assert(spec_config_step(
                            s_prev,
                            entries@[i as int].0@,
                            entries@[i as int].1@,
                            Err::<PWQuality, Error>(e),
                        ));
                        assert(spec_config_run(
                            s_prev,
                            entries@.skip(i as int),
                            Err::<PWQuality, Error>(e),
                        ));
                    }
                    return Err(e);
                },
            }
            proof {
                assert forall|rf: Result<PWQuality, Error>|
                    #[trigger] spec_config_run(s, entries@.skip(i + 1), rf) implies spec_config_run(
                    s0,
                    entries@,
                    rf,
                ) by {
                    assert(spec_config_step(
                        s_prev,
                        entries@[i as int].0@,
                        entries@[i as int].1@,
                        Ok::<PWQuality, Error>(s),
                    ));
                    assert(spec_config_run(s_prev, entries@.skip(i as int), rf));
                }
            }
            i = i + 1;
        }
        proof {
            assert(entries@.skip(entries@.len() as int) =~= Seq::<(String, String)>::empty());
            assert(spec_config_run(s, entries@.skip(i as int), Ok::<PWQuality, Error>(s)));
        }
        Ok(s)
    }
}

} // verus!
