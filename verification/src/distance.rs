//! Edit distance between the candidate and the old password: the similarity
//! check counts the fewest single-character insertions, deletions and
//! substitutions that turn one into the other.

use vstd::prelude::*;

verus! {

/// The least of three naturals.
pub open spec fn spec_min3(x: nat, y: nat, z: nat) -> nat {
    if x <= y && x <= z {
        x
    } else if y <= z {
        y
    } else {
        z
    }
}

/// The edit distance between `a` and `b`: the fewest single-character
/// insertions, deletions and substitutions turning `a` into `b`.
pub open spec fn spec_edit_distance(a: Seq<char>, b: Seq<char>) -> nat
    decreases a.len() + b.len(),
{
    if a.len() == 0 {
        b.len()
    } else if b.len() == 0 {
        a.len()
    } else {
        spec_min3(
            spec_edit_distance(a.drop_last(), b.drop_last()) + (if a.last() == b.last() {
                0nat
            } else {
                1nat
            }),
            spec_edit_distance(a.drop_last(), b) + 1,
            spec_edit_distance(a, b.drop_last()) + 1,
        )
    }
}

/// The edit distance never exceeds the two lengths together.
pub proof fn lemma_edit_distance_le(a: Seq<char>, b: Seq<char>)
    ensures
        spec_edit_distance(a, b) <= a.len() + b.len(),
    decreases a.len() + b.len(),
{
    if a.len() == 0 {
    } else if b.len() == 0 {
    } else {
        lemma_edit_distance_le(a.drop_last(), b.drop_last());
        lemma_edit_distance_le(a.drop_last(), b);
        lemma_edit_distance_le(a, b.drop_last());
    }
}

/// The distance between prefixes obeys the usual dynamic-programming
/// recurrence.
proof fn lemma_edit_distance_step(a: Seq<char>, b: Seq<char>, i: int, j: int)
    requires
        1 <= i <= a.len(),
        1 <= j <= b.len(),
    ensures
        spec_edit_distance(a.take(i), b.take(j)) == spec_min3(
            spec_edit_distance(a.take(i - 1), b.take(j - 1)) + (if a[i - 1] == b[j - 1] {
                0nat
            } else {
                1nat
            }),
            spec_edit_distance(a.take(i - 1), b.take(j)) + 1,
            spec_edit_distance(a.take(i), b.take(j - 1)) + 1,
        ),
{
    let x = a.take(i);
    let y = b.take(j);
    assert(x.drop_last() =~= a.take(i - 1));
    assert(y.drop_last() =~= b.take(j - 1));
    assert(x.last() == a[i - 1]);
    assert(y.last() == b[j - 1]);
}

/// Computes the edit distance between `a` and `b`.
pub fn edit_distance(a: &Vec<char>, b: &Vec<char>) -> (r: u128)
    ensures
        r as nat == spec_edit_distance(a@, b@),
{
    let m: usize = a.len();
    let n: usize = b.len();
    let mut prev: Vec<u128> = Vec::new();
    prev.push(0);
    let mut j: usize = 0;
    while j < n
        invariant
            j <= n,
            n == b@.len(),
            prev@.len() == j + 1,
            forall|j2: int| 0 <= j2 <= j ==> prev@[j2] as nat == spec_edit_distance(
                a@.take(0),
                b@.take(j2),
            ),
        decreases n - j,
    {
        prev.push((j + 1) as u128);
        proof {
            assert(a@.take(0).len() == 0);
            assert(b@.take(j + 1).len() == j + 1);
        }
        j = j + 1;
    }
    let mut i: usize = 0;
    while i < m
        invariant
            i <= m,
            m == a@.len(),
            n == b@.len(),
            prev@.len() == n + 1,
            forall|j2: int| 0 <= j2 <= n ==> prev@[j2] as nat == spec_edit_distance(
                a@.take(i as int),
                b@.take(j2),
            ),
        decreases m - i,
    {
        let ip: usize = i + 1;
        let mut cur: Vec<u128> = Vec::new();
        cur.push(ip as u128);
        proof {
            assert(a@.take(ip as int).len() == ip);
            assert(b@.take(0).len() == 0);
            assert(spec_edit_distance(a@.take(ip as int), b@.take(0)) == ip);
        }
        let mut j: usize = 0;
        while j < n
            invariant
                j <= n,
                ip == i + 1,
                i < m,
                m == a@.len(),
                n == b@.len(),
                prev@.len() == n + 1,
                cur@.len() == j + 1,
                forall|j2: int| 0 <= j2 <= n ==> prev@[j2] as nat == spec_edit_distance(
                    a@.take(i as int),
                    b@.take(j2),
                ),
                forall|j2: int| 0 <= j2 <= j ==> cur@[j2] as nat == spec_edit_distance(
                    a@.take(ip as int),
                    b@.take(j2),
                ),
            decreases n - j,
        {
            let jp: usize = j + 1;
            proof {
                lemma_edit_distance_le(a@.take(i as int), b@.take(j as int));
                lemma_edit_distance_le(a@.take(i as int), b@.take(jp as int));
                lemma_edit_distance_le(a@.take(ip as int), b@.take(j as int));
                lemma_edit_distance_step(a@, b@, ip as int, jp as int);
            }
            let cost: u128 = if a[i] == b[j] {
                0
            } else {
                1
            };
            let d_sub: u128 = prev[j] + cost;
            let d_del: u128 = prev[jp] + 1;
            let d_ins: u128 = cur[j] + 1;
            let mut best: u128 = d_sub;
            if d_del < best {
                best = d_del;
            }
            if d_ins < best {
                best = d_ins;
            }
            cur.push(best);
            j = jp;
        }
        prev = cur;
        i = ip;
    }
    proof {
        assert(a@.take(m as int) =~= a@);
        assert(b@.take(n as int) =~= b@);
    }
    prev[n]
}

} // verus!
