//! The FT8 workspace: band plan, phase label and the conversation target.
use crate::modes::band_plan::{increasing, lemma_increasing_ordered, plan_view};
use crate::modes::exchange::{message_of, opt_chars, parse_message, QsoSession};
use vstd::prelude::*;

verus! {

/// The FT8 calling frequency on each band, lowest band first.
pub open spec fn band_plan_bands() -> Seq<(Seq<char>, u64)> {
    seq![
        ("160m"@, 1840000u64),
        ("80m"@, 3573000u64),
        ("60m"@, 5357000u64),
        ("40m"@, 7074000u64),
        ("30m"@, 10136000u64),
        ("20m"@, 14074000u64),
        ("17m"@, 18100000u64),
        ("15m"@, 21074000u64),
        ("12m"@, 24924000u64),
        ("10m"@, 28074000u64),
        ("6m"@, 50313000u64),
        ("2m"@, 144174000u64),
        ("70cm"@, 432074000u64),
    ]
}

/// The FT8 calling frequency on each band, lowest band first.
pub fn band_plan() -> (r: Vec<(&'static str, u64)>)
    ensures
        plan_view(r@) == band_plan_bands(),
{
    let mut r: Vec<(&'static str, u64)> = Vec::new();
    r.push(("160m", 1840000u64));
    r.push(("80m", 3573000u64));
    r.push(("60m", 5357000u64));
    r.push(("40m", 7074000u64));
    r.push(("30m", 10136000u64));
    r.push(("20m", 14074000u64));
    r.push(("17m", 18100000u64));
    r.push(("15m", 21074000u64));
    r.push(("12m", 24924000u64));
    r.push(("10m", 28074000u64));
    r.push(("6m", 50313000u64));
    r.push(("2m", 144174000u64));
    r.push(("70cm", 432074000u64));
    assert(plan_view(r@) =~= band_plan_bands());
    r
}

/// The frequencies of this plan rise from band to band.
pub proof fn band_plan_is_increasing()
    ensures
        increasing(band_plan_bands()),
        forall|i: int, j: int|
            0 <= i < j < band_plan_bands().len() ==> band_plan_bands()[i].1 < band_plan_bands()[j].1,
{
    reveal_with_fuel(increasing, 14);
    lemma_increasing_ordered(band_plan_bands());
}

/// The transmit phase shown above the FT8 conversation: keying first, then a
/// queued transmission, then armed automatic sequencing, else receiving.
pub fn ft8_phase_label(
    ptt_on: bool,
    queued_period: Option<u64>,
    autoseq: bool,
    has_session: bool,
) -> (r: &'static str)
    ensures
        r@ == (if ptt_on {
            "TX NOW"@
        } else if queued_period is Some {
            "TX QUEUED"@
        } else if autoseq && has_session {
            "AUTO TX ARMED"@
        } else {
            "RX"@
        }),
{
    if ptt_on {
        "TX NOW"
    } else if queued_period.is_some() {
        "TX QUEUED"
    } else if autoseq && has_session {
        "AUTO TX ARMED"
    } else {
        "RX"
    }
}

/// The station the FT8 conversation view follows: the sequencer's target,
/// else the station of the open session, else the sender of the selected
/// decode.
pub fn ft8_conversation_target(
    seq_target: &Option<String>,
    session: &Option<QsoSession>,
    selected_message: Option<&str>,
) -> (r: Option<String>)
    ensures
        opt_chars(r) == (match seq_target {
            Some(t) => Some(t@),
            None => match session {
                Some(s) => Some(s.target@),
                None => match selected_message {
                    Some(m) => match message_of(m@) {
                        Some(p) => Some(p.from),
                        None => None,
                    },
                    None => None,
                },
            },
        }),
{
    match seq_target {
        Some(t) => Some(t.clone()),
        None => match session {
            Some(s) => Some(s.target.clone()),
            None => match selected_message {
                Some(m) => match parse_message(m) {
                    Some(p) => Some(p.from),
                    None => None,
                },
                None => None,
            },
        },
    }
}

} // verus!
