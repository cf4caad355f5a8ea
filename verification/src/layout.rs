//! Partitioning of the display area among the active monitors.

use vstd::prelude::*;

use vstd::arithmetic::div_mod::lemma_div_nonincreasing;
use vstd::arithmetic::div_mod::lemma_div_pos_is_pos;
use vstd::arithmetic::div_mod::lemma_fundamental_div_mod;
use vstd::arithmetic::div_mod::lemma_mod_bound;

verus! {

/// The percentage every region but the last gets: `floor(100 / n)`.
pub open spec fn base_percent(n: nat) -> int {
    100int / (n as int)
}

/// The percentage of the last region: whatever the other `n - 1` leave
/// of 100, so the rounding remainder lands there.
pub open spec fn last_percent(n: nat) -> int {
    100 - (n - 1) * base_percent(n)
}

/// The sum of a sequence of region percentages.
pub open spec fn percent_sum(s: Seq<u16>) -> int
    decreases s.len(),
{
    if s.len() == 0 {
        0
    } else {
        percent_sum(s.drop_last()) + s.last()
    }
}

/// For `count` monitors, `count` region percentages: every region gets
/// `floor(100 / count)` percent except the last, which absorbs the
/// rounding remainder, so the percentages sum to exactly 100. No
/// monitors, no regions.
pub fn make_percentage_constraints(count: usize) -> (v: Vec<u16>)
    ensures
        v@.len() == count,
        count > 0 ==> forall|j: int|
            0 <= j < count - 1 ==> v@[j] as int == base_percent(count as nat),
        count > 0 ==> v@[count - 1] as int == last_percent(count as nat),
        count > 0 ==> percent_sum(v@) == 100,
{
    let mut v: Vec<u16> = Vec::new();
    if count == 0 {
        return v;
    }
    proof {
        lemma_div_pos_is_pos(100, count as int);
        lemma_div_nonincreasing(100, count as int);
        lemma_fundamental_div_mod(100, count as int);
        lemma_mod_bound(100, count as int);
        assert((count as int) * base_percent(count as nat) <= 100);
        assert((count - 1) as int * base_percent(count as nat) == (count as int) * base_percent(
            count as nat,
        ) - base_percent(count as nat)) by (nonlinear_arith);
    }
    let base: usize = 100 / count;
    let mut i: usize = 0;
    while i < count - 1
        invariant
            count >= 1,
            base as int == base_percent(count as nat),
            0 <= base <= 100,
            0 <= (count - 1) as int * (base as int) <= 100,
            i <= count - 1,
            v@.len() == i,
            forall|j: int| 0 <= j < i ==> v@[j] as int == base as int,
            percent_sum(v@) == i as int * (base as int),
        decreases count - 1 - i,
    {
        let ghost before = v@;
        v.push(base as u16);
        proof {
            assert(v@.drop_last() =~= before);
            assert((i + 1) as int * (base as int) == i as int * (base as int) + base as int)
                by (nonlinear_arith);
        }
        i = i + 1;
    }
    let last: usize = 100 - (count - 1) * base;
    let ghost before = v@;
    v.push(last as u16);
    proof {
        assert(v@.drop_last() =~= before);
        assert(percent_sum(before) == (count - 1) as int * (base as int));
    }
    v
}

} // verus!
