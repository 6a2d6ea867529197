//! Band plans: the calling frequency of a mode on each amateur band.
use vstd::prelude::*;

verus! {

/// A band plan with its band names as characters.
pub open spec fn plan_view(s: Seq<(&'static str, u64)>) -> Seq<(Seq<char>, u64)> {
    s.map_values(|e: (&'static str, u64)| (e.0@, e.1))
}

/// Each band's frequency lies above the previous band's.
pub open spec fn increasing(s: Seq<(Seq<char>, u64)>) -> bool
    decreases s.len(),
{
    s.len() < 2 || (s[0].1 < s[1].1 && increasing(s.drop_first()))
}

/// In an increasing plan every band lies above all bands listed before it.
pub proof fn lemma_increasing_ordered(s: Seq<(Seq<char>, u64)>)
    requires
        increasing(s),
    ensures
        forall|i: int, j: int| 0 <= i < j < s.len() ==> s[i].1 < s[j].1,
    decreases s.len(),
{
    if s.len() >= 2 {
        let t = s.drop_first();
        lemma_increasing_ordered(t);
        assert forall|i: int, j: int| 0 <= i < j < s.len() implies s[i].1 < s[j].1 by {
            if i == 0 {
                if j > 1 {
                    assert(t[0].1 < t[j - 1].1);
                }
            } else {
                assert(t[i - 1].1 < t[j - 1].1);
            }
        }
    }
}

} // verus!
