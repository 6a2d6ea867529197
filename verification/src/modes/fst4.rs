//! The FST4 workspace: band plan and submodes.
use crate::modes::band_plan::{increasing, lemma_increasing_ordered, plan_view};
use vstd::prelude::*;

verus! {

/// The FST4 calling frequency on each band, lowest band first.
pub open spec fn band_plan_bands() -> Seq<(Seq<char>, u64)> {
    seq![
        ("160m"@, 1840000u64),
        ("80m"@, 3573000u64),
        ("60m"@, 5357000u64),
        ("40m"@, 7074000u64),
        ("30m"@, 10136000u64),
        ("20m"@, 14074000u64),
        ("17m"@, 18100000u64),
        ("15m"@, 21074000u64),
        ("12m"@, 24924000u64),
        ("10m"@, 28074000u64),
        ("6m"@, 50313000u64),
    ]
}

/// The FST4 calling frequency on each band, lowest band first.
pub fn band_plan() -> (r: Vec<(&'static str, u64)>)
    ensures
        plan_view(r@) == band_plan_bands(),
{
    let mut r: Vec<(&'static str, u64)> = Vec::new();
    r.push(("160m", 1840000u64));
    r.push(("80m", 3573000u64));
    r.push(("60m", 5357000u64));
    r.push(("40m", 7074000u64));
    r.push(("30m", 10136000u64));
    r.push(("20m", 14074000u64));
    r.push(("17m", 18100000u64));
    r.push(("15m", 21074000u64));
    r.push(("12m", 24924000u64));
    r.push(("10m", 28074000u64));
    r.push(("6m", 50313000u64));
    assert(plan_view(r@) =~= band_plan_bands());
    r
}

/// The frequencies of this plan rise from band to band.
pub proof fn band_plan_is_increasing()
    ensures
        increasing(band_plan_bands()),
        forall|i: int, j: int|
            0 <= i < j < band_plan_bands().len() ==> band_plan_bands()[i].1 < band_plan_bands()[j].1,
{
    reveal_with_fuel(increasing, 12);
    lemma_increasing_ordered(band_plan_bands());
}

/// The FST4 transmit/receive period length.
#[derive(Debug, Clone, Copy, PartialEq, Eq, Structural)]
pub enum Submode {
    S15,
    S30,
    S60,
    S120,
    S300,
}

impl Default for Submode {
    fn default() -> (r: Self)
        ensures
            r == Submode::S60,
    {
        Submode::S60
    }
}

impl Submode {
    pub open spec fn label_text(self) -> Seq<char> {
        match self {
            Submode::S15 => "FST4-15"@,
            Submode::S30 => "FST4-30"@,
            Submode::S60 => "FST4-60"@,
            Submode::S120 => "FST4-120"@,
            Submode::S300 => "FST4-300"@,
        }
    }

    pub fn label(self) -> (r: &'static str)
        ensures
            r@ == self.label_text(),
    {
        match self {
            Submode::S15 => "FST4-15",
            Submode::S30 => "FST4-30",
            Submode::S60 => "FST4-60",
            Submode::S120 => "FST4-120",
            Submode::S300 => "FST4-300",
        }
    }
}

} // verus!
