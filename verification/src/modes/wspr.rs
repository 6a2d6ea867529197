//! The WSPR workspace: band plan and type 1 beacon parsing.
use crate::modes::band_plan::{increasing, lemma_increasing_ordered, plan_view};
use crate::text;
use crate::text::{chars_of, parse_i32_chars, split_words, string_of};
use vstd::prelude::*;

verus! {

/// The WSPR calling frequency on each band, lowest band first.
pub open spec fn band_plan_bands() -> Seq<(Seq<char>, u64)> {
    seq![
        ("160m"@, 1836600u64),
        ("80m"@, 3592600u64),
        ("60m"@, 5208600u64),
        ("40m"@, 7038600u64),
        ("30m"@, 10138700u64),
        ("20m"@, 14095600u64),
        ("17m"@, 18104600u64),
        ("15m"@, 21094600u64),
        ("12m"@, 24924600u64),
        ("10m"@, 28124600u64),
        ("6m"@, 50293000u64),
    ]
}

/// The WSPR calling frequency on each band, lowest band first.
pub fn band_plan() -> (r: Vec<(&'static str, u64)>)
    ensures
        plan_view(r@) == band_plan_bands(),
{
    let mut r: Vec<(&'static str, u64)> = Vec::new();
    r.push(("160m", 1836600u64));
    r.push(("80m", 3592600u64));
    r.push(("60m", 5208600u64));
    r.push(("40m", 7038600u64));
    r.push(("30m", 10138700u64));
    r.push(("20m", 14095600u64));
    r.push(("17m", 18104600u64));
    r.push(("15m", 21094600u64));
    r.push(("12m", 24924600u64));
    r.push(("10m", 28124600u64));
    r.push(("6m", 50293000u64));
    assert(plan_view(r@) =~= band_plan_bands());
    r
}

/// The frequencies of this plan rise from band to band.
pub proof fn band_plan_is_increasing()
    ensures
        increasing(band_plan_bands()),
        forall|i: int, j: int|
            0 <= i < j < band_plan_bands().len() ==> band_plan_bands()[i].1 < band_plan_bands()[j].1,
{
    reveal_with_fuel(increasing, 12);
    lemma_increasing_ordered(band_plan_bands());
}

/// How a Type-1 beacon text reads: exactly three words, `CALL GRID POWER_DBM`,
/// the power being an `i32`.
pub open spec fn beacon_of(message: Seq<char>) -> Option<(Seq<char>, Seq<char>, i32)> {
    let toks = text::words(message);
    if toks.len() < 3 {
        None
    } else {
        match text::parse_i32(toks[2]) {
            None => None,
            Some(power) => if toks.len() > 3 {
                None
            } else {
                Some((toks[0], toks[1], power))
            },
        }
    }
}

pub open spec fn beacon_view(b: Option<(String, String, i32)>) -> Option<(Seq<char>, Seq<char>, i32)> {
    match b {
        Some((c, g, p)) => Some((c@, g@, p)),
        None => None,
    }
}

/// Splits a beacon text into callsign, locator and power in dBm.
pub fn parse_beacon(message: &str) -> (r: Option<(String, String, i32)>)
    ensures
        beacon_view(r) == beacon_of(message@),
{
    let all = chars_of(message);
    let toks = split_words(&all);
    let ghost tv = text::views(toks@);
    if toks.len() < 3 {
        return None;
    }
    assert(tv[0] == toks@[0]@ && tv[1] == toks@[1]@ && tv[2] == toks@[2]@);
    let power = match parse_i32_chars(&toks[2]) {
        Some(p) => p,
        None => return None,
    };
    if toks.len() > 3 {
        return None;
    }
    Some((string_of(&toks[0]), string_of(&toks[1]), power))
}

} // verus!
