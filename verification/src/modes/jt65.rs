//! The JT65 workspace.
use crate::modes::band_plan::{increasing, lemma_increasing_ordered, plan_view};
use vstd::prelude::*;

verus! {

/// The JT65 calling frequency on each band, lowest band first.
pub open spec fn band_plan_bands() -> Seq<(Seq<char>, u64)> {
    seq![
        ("160m"@, 1838000u64),
        ("80m"@, 3573000u64),
        ("60m"@, 5357000u64),
        ("40m"@, 7076000u64),
        ("30m"@, 10136000u64),
        ("20m"@, 14076000u64),
        ("17m"@, 18100000u64),
        ("15m"@, 21076000u64),
        ("12m"@, 24924000u64),
        ("10m"@, 28076000u64),
        ("6m"@, 50323000u64),
    ]
}

/// The JT65 calling frequency on each band, lowest band first.
pub fn band_plan() -> (r: Vec<(&'static str, u64)>)
    ensures
        plan_view(r@) == band_plan_bands(),
{
    let mut r: Vec<(&'static str, u64)> = Vec::new();
    r.push(("160m", 1838000u64));
    r.push(("80m", 3573000u64));
    r.push(("60m", 5357000u64));
    r.push(("40m", 7076000u64));
    r.push(("30m", 10136000u64));
    r.push(("20m", 14076000u64));
    r.push(("17m", 18100000u64));
    r.push(("15m", 21076000u64));
    r.push(("12m", 24924000u64));
    r.push(("10m", 28076000u64));
    r.push(("6m", 50323000u64));
    assert(plan_view(r@) =~= band_plan_bands());
    r
}

/// The frequencies of this plan rise from band to band.
pub proof fn band_plan_is_increasing()
    ensures
        increasing(band_plan_bands()),
        forall|i: int, j: int|
            0 <= i < j < band_plan_bands().len() ==> band_plan_bands()[i].1 < band_plan_bands()[j].1,
{
    reveal_with_fuel(increasing, 12);
    lemma_increasing_ordered(band_plan_bands());
}

/// The operator note shown under the JT65 workspace.
pub fn workspace_description() -> (r: &'static str)
    ensures
        r@ == "JT65A is the mfsk-core submode currently available here. The workspace uses the backend's standard 60-second decoder and synthesizer with manual one-shot TX."@,
{
    "JT65A is the mfsk-core submode currently available here. The workspace uses the backend's standard 60-second decoder and synthesizer with manual one-shot TX."
}

} // verus!
