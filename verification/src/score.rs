//! The credit calculator and the quality score.
//!
//! A non-negative per-class credit contributes `min(credit, count)` to a
//! length bonus; a negative credit is a hard minimum handled by the
//! evaluator.  The effective minimum length is the configured minimum less
//! the total bonus, floored at 1.  The score of an accepted password is the
//! documented formula `min(100, 2*min(extra, 50) + 10*classes +
//! 2*min(bonus, 50))`, where `extra` is the length beyond the effective
//! minimum: monotone non-decreasing in extra length, class diversity and
//! earned credit, and always in `[0, 100]`.

use vstd::prelude::*;

use crate::classify::{count_class, spec_class_count, CharClass};
use crate::settings::PWQuality;

verus! {

pub open spec fn spec_min_i(a: int, b: int) -> int {
    if a <= b {
        a
    } else {
        b
    }
}

/// The length bonus one class earns: `min(credit, count)` for a
/// non-negative credit, nothing for a negative (requirement) credit.
pub open spec fn spec_credit_for(credit: i32, count: nat) -> int {
    if credit >= 0 {
        spec_min_i(credit as int, count as int)
    } else {
        0
    }
}

/// The total length bonus over the four classes, from their counts.
pub open spec fn spec_total_credit_counts(
    s: PWQuality,
    nd: nat,
    nu: nat,
    nl: nat,
    no: nat,
) -> int {
    spec_credit_for(s.digit_credit, nd) + spec_credit_for(s.uppercase_credit, nu)
        + spec_credit_for(s.lowercase_credit, nl) + spec_credit_for(s.other_credit, no)
}

/// The total length bonus a password earns.
pub open spec fn spec_total_credit(s: PWQuality, pw: Seq<char>) -> int {
    spec_total_credit_counts(
        s,
        spec_class_count(pw, CharClass::Digit),
        spec_class_count(pw, CharClass::Upper),
        spec_class_count(pw, CharClass::Lower),
        spec_class_count(pw, CharClass::Other),
    )
}

/// The effective minimum length: the configured minimum less the earned
/// bonus, never below 1.
pub open spec fn spec_effective_min_length(s: PWQuality, pw: Seq<char>) -> int {
    if s.min_length - spec_total_credit(s, pw) < 1 {
        1
    } else {
        s.min_length - spec_total_credit(s, pw)
    }
}

/// How many of the four classes have at least one character in `pw`.
pub open spec fn spec_classes_present(pw: Seq<char>) -> int {
    (if spec_class_count(pw, CharClass::Digit) > 0 {
        1int
    } else {
        0int
    }) + (if spec_class_count(pw, CharClass::Upper) > 0 {
        1int
    } else {
        0int
    }) + (if spec_class_count(pw, CharClass::Lower) > 0 {
        1int
    } else {
        0int
    }) + (if spec_class_count(pw, CharClass::Other) > 0 {
        1int
    } else {
        0int
    })
}

/// The scoring formula, over the three quantities it rewards: length
/// beyond the effective minimum, classes present, and earned bonus.
pub open spec fn spec_score_formula(extra: int, classes: int, bonus: int) -> int {
    spec_min_i(100, 2 * spec_min_i(extra, 50) + 10 * classes + 2 * spec_min_i(bonus, 50))
}

/// The quality score of a password that passed every gate.
pub open spec fn spec_score(s: PWQuality, pw: Seq<char>) -> int {
    spec_score_formula(
        pw.len() - spec_effective_min_length(s, pw),
        spec_classes_present(pw),
        spec_total_credit(s, pw),
    )
}

/// The score is monotone non-decreasing in each of the quantities it
/// rewards, and stays within 0 to 100 whenever they are non-negative.
pub proof fn lemma_score_monotone(e1: int, c1: int, b1: int, e2: int, c2: int, b2: int)
    requires
        e1 <= e2,
        c1 <= c2,
        b1 <= b2,
    ensures
        spec_score_formula(e1, c1, b1) <= spec_score_formula(e2, c2, b2),
        e1 >= 0 && c1 >= 0 && b1 >= 0 ==> 0 <= spec_score_formula(e1, c1, b1) <= 100,
{
}

/// Computes the length bonus for one class.
fn credit_for(credit: i32, count: usize) -> (r: u64)
    ensures
        r as int == spec_credit_for(credit, count as nat),
        r <= 0x7fff_ffff,
{
    if credit >= 0 {
        let cr: u64 = credit as u64;
        let ct: u64 = count as u64;
        if cr <= ct {
            cr
        } else {
            ct
        }
    } else {
        0
    }
}

/// Computes the total length bonus from the four class counts.
pub fn total_credit(s: &PWQuality, nd: usize, nu: usize, nl: usize, no: usize) -> (r: u64)
    ensures
        r as int == spec_total_credit_counts(
            *s,
            nd as nat,
            nu as nat,
            nl as nat,
            no as nat,
        ),
        r <= 4 * 0x7fff_ffff,
{
    credit_for(s.digit_credit, nd) + credit_for(s.uppercase_credit, nu) + credit_for(
        s.lowercase_credit,
        nl,
    ) + credit_for(s.other_credit, no)
}

/// Computes the score of a password that passed every gate.
pub fn score_of(s: &PWQuality, pw: &Vec<char>) -> (r: i32)
    requires
        pw@.len() >= spec_effective_min_length(*s, pw@),
    ensures
        r as int == spec_score(*s, pw@),
        0 <= r <= 100,
{
    let nd: usize = count_class(pw, CharClass::Digit);
    let nu: usize = count_class(pw, CharClass::Upper);
    let nl: usize = count_class(pw, CharClass::Lower);
    let no: usize = count_class(pw, CharClass::Other);
    let bonus: u64 = total_credit(s, nd, nu, nl, no);
    let em: i64 = {
        let raw: i64 = s.min_length as i64 - bonus as i64;
        if raw < 1 {
            1
        } else {
            raw
        }
    };
    proof {
        assert(em as int == spec_effective_min_length(*s, pw@));
    }
    let len128: u128 = pw.len() as u128;
    let extra: u128 = len128 - em as u128;
    let e50: u64 = if extra >= 50 {
        50
    } else {
        extra as u64
    };
    let c50: u64 = if bonus >= 50 {
        50
    } else {
        bonus
    };
    let ncl: u64 = {
        let mut n: u64 = 0;
        if nd > 0 {
            n = n + 1;
        }
        if nu > 0 {
            n = n + 1;
        }
        if nl > 0 {
            n = n + 1;
        }
        if no > 0 {
            n = n + 1;
        }
        n
    };
    proof {
        assert(ncl as int == spec_classes_present(pw@));
    }
    let raw: u64 = 2 * e50 + 10 * ncl + 2 * c50;
    let sc: u64 = if raw > 100 {
        100
    } else {
        raw
    };
    proof {
        assert(sc as int == spec_score(*s, pw@));
    }
    sc as i32
}

/// Credits are capped: a non-negative class credit contributes at most
/// the number of characters of that class actually present, and never
/// more than the credit itself.
pub proof fn lemma_credit_capped(credit: i32, count: nat)
    ensures
        spec_credit_for(credit, count) <= count,
        credit >= 0 ==> spec_credit_for(credit, count) <= credit,
{
}

} // verus!
