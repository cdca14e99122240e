//! The password generator: turns externally supplied random bytes into a
//! candidate of the length demanded by the entropy target, and only hands
//! out a candidate that the evaluator itself accepts under the current
//! settings.  Randomness is an external service; the caller supplies the
//! bytes (several candidates' worth to allow retries), and the outcome is
//! a function of the settings, the entropy target and those bytes alone:
//! the disjoint chunks are tried in order and the first passing candidate
//! is returned.

use vstd::prelude::*;
use vstd::string::StrSliceExecFns;
use vstd::string::StringExecFns;

use crate::error::Error;
use crate::evaluate::spec_check;
use crate::settings::PWQuality;

verus! {

/// The candidate length for an entropy target: one character carries six
/// bits (the alphabet has 64 symbols), rounded up; no target means no
/// length.
pub open spec fn spec_generated_length(entropy: int) -> int {
    if entropy <= 0 {
        0
    } else {
        (entropy + 5) / 6
    }
}

/// The 64-symbol alphabet candidates are drawn from.
pub open spec fn spec_alphabet() -> Seq<char> {
    "abcdefghijklmnopqrstuvwxyzABCDEFGHIJKLMNOPQRSTUVWXYZ0123456789./"@
}

/// The candidate built from the `length` random bytes starting at
/// `start`: each byte's low six bits pick one alphabet symbol.
pub open spec fn spec_candidate(random: Seq<u8>, start: int, length: int) -> Seq<char> {
    Seq::new(length as nat, |i: int| spec_alphabet()[(random[start + i] & 63) as int])
}

/// What trying the chunks from `start` on yields: the first candidate
/// whose evaluation passes; a fatal failure the moment one candidate's
/// evaluation is fatal (retrying cannot help); `GenerationFailed` when the
/// remaining bytes cannot cover another candidate.
pub open spec fn spec_generate_from(
    s: PWQuality,
    random: Seq<u8>,
    length: int,
    start: int,
) -> Result<Seq<char>, Error>
    decreases random.len() - start,
{
    if length <= 0 || start < 0 || start + length > random.len() {
        Err(Error::GenerationFailed)
    } else {
        let cand = spec_candidate(random, start, length);
        match spec_check(
            s,
            cand,
            None::<Seq<char>>,
            None::<Seq<char>>,
            Seq::<Seq<char>>::empty(),
            None::<bool>,
        ) {
            Ok(_) => Ok(cand),
            Err(e) => if e == Error::FatalFailure {
                Err(Error::FatalFailure)
            } else {
                spec_generate_from(s, random, length, start + length)
            },
        }
    }
}

/// The whole generation outcome for given settings, entropy target and
/// byte supply: no target means failure, too few bytes for one candidate
/// is a randomness failure, and otherwise the chunks are tried in order
/// from the start of the supply.
pub open spec fn spec_generate(s: PWQuality, entropy: int, random: Seq<u8>) -> Result<
    Seq<char>,
    Error,
> {
    let length = spec_generated_length(entropy);
    if length == 0 {
        Err(Error::GenerationFailed)
    } else if random.len() < length {
        Err(Error::Rng)
    } else {
        spec_generate_from(s, random, length, 0)
    }
}

/// An executable generation outcome agrees with a specified one: the same
/// password, or the same error.
pub open spec fn spec_generate_outcome_matches(
    r: Result<String, Error>,
    sp: Result<Seq<char>, Error>,
) -> bool {
    match (r, sp) {
        (Ok(p), Ok(c)) => p@ == c,
        (Err(e), Err(f)) => e == f,
        _ => false,
    }
}

/// With the dictionary check disabled, no evaluation outcome is the
/// fatal service failure.
proof fn lemma_check_not_fatal(
    s: PWQuality,
    pw: Seq<char>,
    old: Option<Seq<char>>,
    user: Option<Seq<char>>,
    gecos: Seq<Seq<char>>,
    dict: Option<bool>,
)
    requires
        !s.dictionary_check,
    ensures
        spec_check(s, pw, old, user, gecos, dict) != Err::<int, Error>(Error::FatalFailure),
{
}

/// Trying chunks with the dictionary check disabled yields a candidate
/// that itself passes the evaluation, or `GenerationFailed`.
proof fn lemma_generate_from_outcomes(s: PWQuality, random: Seq<u8>, length: int, start: int)
    requires
        !s.dictionary_check,
    ensures
        (match spec_generate_from(s, random, length, start) {
            Ok(p) => spec_check(
                s,
                p,
                None::<Seq<char>>,
                None::<Seq<char>>,
                Seq::<Seq<char>>::empty(),
                None::<bool>,
            ) is Ok,
            Err(e) => e == Error::GenerationFailed,
        }),
    decreases random.len() - start,
{
    if length <= 0 || start < 0 || start + length > random.len() {
    } else {
        let cand = spec_candidate(random, start, length);
        lemma_check_not_fatal(
            s,
            cand,
            None::<Seq<char>>,
            None::<Seq<char>>,
            Seq::<Seq<char>>::empty(),
            None::<bool>,
        );
        match spec_check(
            s,
            cand,
            None::<Seq<char>>,
            None::<Seq<char>>,
            Seq::<Seq<char>>::empty(),
            None::<bool>,
        ) {
            Ok(_) => {},
            Err(e) => {
                lemma_generate_from_outcomes(s, random, length, start + length);
            },
        }
    }
}

/// With the dictionary check disabled, generation always hands out a
/// password that itself passes the evaluation under the same settings, or
/// fails with `Rng` or `GenerationFailed`.  With the check enabled the
/// lookup service cannot be consulted from generation, so a fatal failure
/// takes the place of a candidate there.
pub proof fn lemma_generated_password_passes(s: PWQuality, entropy: int, random: Seq<u8>)
    requires
        !s.dictionary_check,
    ensures
        (match spec_generate(s, entropy, random) {
            Ok(p) => spec_check(
                s,
                p,
                None::<Seq<char>>,
                None::<Seq<char>>,
                Seq::<Seq<char>>::empty(),
                None::<bool>,
            ) is Ok,
            Err(e) => e == Error::Rng || e == Error::GenerationFailed,
        }),
{
    let length = spec_generated_length(entropy);
    if length == 0 {
    } else if random.len() < length {
    } else {
        lemma_generate_from_outcomes(s, random, length, 0);
    }
}

impl PWQuality {
    /// Generates a password with the given number of bits of entropy from
    /// the supplied random bytes, trying each disjoint chunk of bytes in
    /// order until a candidate passes this store's own evaluation.  Fails
    /// with `Rng` when the bytes cannot cover one candidate, with
    /// `GenerationFailed` when no supplied chunk yields a passing
    /// candidate, and with `FatalFailure` when the enabled dictionary
    /// check leaves no candidate evaluable.
    pub fn generate_password(&self, entropy: i32, random: &Vec<u8>) -> (r: Result<String, Error>)
        ensures
            spec_generate_outcome_matches(r, spec_generate(*self, entropy as int, random@)),
            (r matches Ok(p) ==> spec_check(
                *self,
                p@,
                None::<Seq<char>>,
                None::<Seq<char>>,
                Seq::<Seq<char>>::empty(),
                None::<bool>,
            ) is Ok),
            (r matches Ok(p) ==> p@.len() == spec_generated_length(entropy as int)),
            (r matches Err(e) ==> e == Error::Rng || e == Error::GenerationFailed || e
                == Error::FatalFailure),
            (r == Err::<String, Error>(Error::Rng) <==> entropy > 0 && random@.len()
                < spec_generated_length(entropy as int)),
            (r == Err::<String, Error>(Error::FatalFailure) ==> self.dictionary_check),
    {
        let alpha: &str = "abcdefghijklmnopqrstuvwxyzABCDEFGHIJKLMNOPQRSTUVWXYZ0123456789./";
        proof {
            reveal_strlit("abcdefghijklmnopqrstuvwxyzABCDEFGHIJKLMNOPQRSTUVWXYZ0123456789./");
            assert(alpha@.len() == 64);
            assert(alpha.is_ascii()) by {
                assert(forall|i: int| 0 <= i < alpha@.len() ==> '\0' <= #[trigger] alpha@[i]
                    <= '\u{7f}');
            }
            assert(alpha@ == spec_alphabet());
        }
        let length: usize = if entropy <= 0 {
            0
        } else {
            (entropy as usize + 5) / 6
        };
        proof {
            assert(length as int == spec_generated_length(entropy as int));
        }
        let rlen: usize = random.len();
        if length == 0 {
            // An empty candidate can never pass the empty-password gate,
            // whatever the settings: no amount of retrying helps.
            return Err(Error::GenerationFailed);
        }
        if rlen < length {
            return Err(Error::Rng);
        }
        let empty_gecos: Vec<String> = Vec::new();
        let mut start: usize = 0;
        while start <= rlen - length
            invariant
                length >= 1,
                length <= rlen,
                length as int == spec_generated_length(entropy as int),
                rlen == random@.len(),
                empty_gecos.deep_view() == Seq::<Seq<char>>::empty(),
                alpha@.len() == 64,
                vstd::string::is_ascii(alpha),
                alpha@ == spec_alphabet(),
                spec_generate_from(*self, random@, length as int, 0) == spec_generate_from(
                    *self,
                    random@,
                    length as int,
                    start as int,
                ),
            decreases rlen - start,
        {
            let ghost cand: Seq<char> = spec_candidate(random@, start as int, length as int);
            let mut candidate: String = String::new();
            let mut t: usize = 0;
            while t < length
                invariant
                    t <= length,
                    length <= rlen,
                    start <= rlen - length,
                    rlen == random@.len(),
                    alpha@.len() == 64,
                    vstd::string::is_ascii(alpha),
                    alpha@ == spec_alphabet(),
                    cand == spec_candidate(random@, start as int, length as int),
                    candidate@ == cand.take(t as int),
                decreases length - t,
            {
                let b: u8 = random[start + t];
                let idx: usize = (b & 63) as usize;
                proof {
                    assert((b & 63) < 64u8) by (bit_vector);
                }
                let piece: &str = alpha.substring_ascii(idx, idx + 1);
                candidate.append(piece);
                t = t + 1;
                proof {
                    assert(piece@[0] == alpha@[idx as int]);
                    assert(cand[t - 1] == spec_alphabet()[(random@[start + t - 1] & 63) as int]);
                    assert(candidate@ =~= cand.take(t as int));
                }
            }
            proof {
                assert(candidate@ =~= cand);
            }
            match self.evaluate(&candidate, None, None, &empty_gecos, None) {
                Ok(_) => {
                    proof {
                        assert(spec_generate_from(*self, random@, length as int, start as int)
                            == Ok::<Seq<char>, Error>(cand));
                    }
                    return Ok(candidate);
                },
                Err(e) => {
                    if matches!(e, Error::FatalFailure) {
                        proof {
                            assert(spec_generate_from(*self, random@, length as int, start as int)
                                == Err::<Seq<char>, Error>(Error::FatalFailure));
                        }
                        return Err(Error::FatalFailure);
                    }
                    proof {
                        assert(spec_generate_from(*self, random@, length as int, start as int)
                            == spec_generate_from(
                            *self,
                            random@,
                            length as int,
                            start + length,
                        ));
                    }
                },
            }
            start = start + length;
        }
        proof {
            assert(spec_generate_from(*self, random@, length as int, start as int) == Err::<
                Seq<char>,
                Error,
            >(Error::GenerationFailed));
        }
        Err(Error::GenerationFailed)
    }
}

} // verus!
