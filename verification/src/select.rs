//! Fitness-proportionate ("roulette") selection: a parent is drawn by
//! sampling a number below the generation's fitness sum and scanning the
//! scored population in order, consuming each unit's fitness from the sample
//! until one covers what remains.

use vstd::prelude::*;

verus! {

/// Sum of a sequence of fitness scores.
pub open spec fn sum_fits(s: Seq<u64>) -> int
    decreases s.len(),
{
    if s.len() == 0 {
        0
    } else {
        s[0] + sum_fits(s.skip(1))
    }
}

/// Appending a score adds it to the sum.
pub proof fn lemma_sum_fits_push(s: Seq<u64>, v: u64)
    ensures
        sum_fits(s.push(v)) == sum_fits(s) + v,
    decreases s.len(),
{
    if s.len() == 0 {
        assert(s.push(v).skip(1) =~= Seq::<u64>::empty());
        assert(sum_fits(Seq::<u64>::empty()) == 0);
        assert(s.push(v)[0] == v);
    } else {
        assert(s.push(v).skip(1) =~= s.skip(1).push(v));
        lemma_sum_fits_push(s.skip(1), v);
    }
}

/// The index the roulette scan picks for sample `r`: the first index whose
/// score covers what remains of `r` after the scores before it are consumed.
pub open spec fn spec_select(s: Seq<u64>, r: int) -> int
    decreases s.len(),
{
    if s.len() == 0 {
        0
    } else if s[0] >= r {
        0
    } else {
        1 + spec_select(s.skip(1), r - s[0])
    }
}

/// Selection validity: for any scored population whose total fitness exceeds
/// the sample, the roulette scan picks an index inside the population; it
/// never fails to select.
pub proof fn lemma_selection_valid(s: Seq<u64>, r: int)
    requires
        0 <= r < sum_fits(s),
    ensures
        0 <= spec_select(s, r) < s.len(),
    decreases s.len(),
{
    if s.len() > 0 && s[0] < r {
        lemma_selection_valid(s.skip(1), r - s[0]);
    }
}

/// Draws one parent index by the roulette scan over the scores, consuming the
/// sample `r`.
pub fn select_index(fits: &Vec<u64>, r: u64) -> (idx: usize)
    requires
        (r as int) < sum_fits(fits@),
    ensures
        idx < fits@.len(),
        idx == spec_select(fits@, r as int),
{
    let ghost full = fits@;
    let ghost r0 = r as int;
    let mut rem = r;
    let mut i: usize = 0;
    proof {
        lemma_selection_valid(full, r0);
        assert(full.skip(0) =~= full);
    }
    while i < fits.len()
        invariant
            i <= fits@.len(),
            fits@ == full,
            r0 == r as int,
            0 <= rem <= r,
            (rem as int) < sum_fits(full.skip(i as int)),
            spec_select(full, r0) == i + spec_select(full.skip(i as int), rem as int),
            0 <= spec_select(full, r0) < full.len(),
        decreases fits@.len() - i,
    {
        let f = fits[i];
        proof {
            assert(full.skip(i as int)[0] == full[i as int]);
            assert(full.skip(i as int).skip(1) =~= full.skip(i as int + 1));
        }
        if f >= rem {
            assert(spec_select(full.skip(i as int), rem as int) == 0);
            return i;
        }
        rem = rem - f;
        i = i + 1;
    }
    proof {
        assert(full.skip(full.len() as int) =~= Seq::<u64>::empty());
        assert(false);
    }
    0
}

} // verus!
