//! Counting for the one-minute summaries: how often each HTTP status code
//! was answered within a period.
use vstd::prelude::*;

verus! {

/// How often `c` occurs in `s`.
pub open spec fn occurrences(s: Seq<u16>, c: u16) -> nat
    decreases s.len(),
{
    if s.len() == 0 {
        0
    } else {
        occurrences(s.drop_last(), c) + if s.last() == c {
            1nat
        } else {
            0nat
        }
    }
}

/// A distribution of the codes: each code that occurs is listed exactly
/// once, with the number of its occurrences, and nothing else is listed.
pub open spec fn is_distribution(codes: Seq<u16>, d: Seq<(u16, u32)>) -> bool {
    &&& forall|a: int, b: int| 0 <= a < b < d.len() ==> (#[trigger] d[a]).0 != (#[trigger] d[b]).0
    &&& forall|j: int| 0 <= j < d.len() ==> (#[trigger] d[j]).1 == occurrences(codes, d[j].0)
    &&& forall|j: int| 0 <= j < d.len() ==> occurrences(codes, (#[trigger] d[j]).0) > 0
    &&& forall|c: u16|
        #![trigger occurrences(codes, c)]
        occurrences(codes, c) > 0 ==> exists|j: int| 0 <= j < d.len() && (#[trigger] d[j]).0 == c
}

proof fn lemma_occurrences_bounded(s: Seq<u16>, c: u16)
    ensures
        occurrences(s, c) <= s.len(),
    decreases s.len(),
{
    if s.len() > 0 {
        lemma_occurrences_bounded(s.drop_last(), c);
    }
}

/// The number of answers with each status code, in the order the codes
/// first occur.
pub fn status_code_distribution(codes: &Vec<u16>) -> (d: Vec<(u16, u32)>)
    requires
        codes@.len() <= u32::MAX,
    ensures
        is_distribution(codes@, d@),
{
    let mut d: Vec<(u16, u32)> = Vec::new();
    let mut i: usize = 0;
    assert(codes@.take(0) =~= Seq::<u16>::empty());
    while i < codes.len()
        invariant
            0 <= i <= codes@.len() <= u32::MAX,
            is_distribution(codes@.take(i as int), d@),
        decreases codes@.len() - i,
    {
        let code = codes[i];
        let ghost before = codes@.take(i as int);
        let ghost after = codes@.take(i + 1);
        assert(after.drop_last() =~= before);
        assert(after.last() == code);
        assert(forall|c: u16| #[trigger] occurrences(after, c) == occurrences(before, c) + if c == code {
            1nat
        } else {
            0nat
        });
        let mut k: usize = 0;
        while k < d.len()
            invariant
                0 <= k <= d@.len(),
                forall|j: int| 0 <= j < k ==> (#[trigger] d@[j]).0 != code,
            ensures
                0 <= k <= d@.len(),
                forall|j: int| 0 <= j < k ==> (#[trigger] d@[j]).0 != code,
                k < d@.len() ==> d@[k as int].0 == code,
            decreases d@.len() - k,
        {
            if d[k].0 == code {
                break;
            }
            k = k + 1;
        }
        if k < d.len() {
            let n = d[k].1;
            proof {
                lemma_occurrences_bounded(before, code);
            }
            let ghost old_d = d@;
            d.set(k, (code, n + 1));
            assert forall|c: u16| #[trigger] occurrences(after, c) > 0 implies exists|j: int|
                0 <= j < d@.len() && (#[trigger] d@[j]).0 == c by {
                if c != code {
                    assert(occurrences(before, c) > 0);
                    let j = choose|j: int| 0 <= j < old_d.len() && old_d[j].0 == c;
                    assert(j != k as int);
                    assert(d@[j] == old_d[j]);
                } else {
                    assert(d@[k as int].0 == c);
                }
            }
        } else {
            let ghost old_d = d@;
            d.push((code, 1));
            assert forall|c: u16| #[trigger] occurrences(after, c) > 0 implies exists|j: int|
                0 <= j < d@.len() && (#[trigger] d@[j]).0 == c by {
                if c != code {
                    assert(occurrences(before, c) > 0);
                    let j = choose|j: int| 0 <= j < old_d.len() && old_d[j].0 == c;
                    assert(d@[j] == old_d[j]);
                } else {
                    assert(d@[old_d.len() as int].0 == c);
                }
            }
            assert forall|j: int| 0 <= j < old_d.len() implies (#[trigger] d@[j]).1 == occurrences(after, d@[j].0) by {
                assert(d@[j] == old_d[j]);
                assert(old_d[j].0 != code);
            }
        }
        i = i + 1;
    }
    assert(codes@.take(codes@.len() as int) =~= codes@);
    d
}

} // verus!
