//! The native slot modes: MSK144 and Fldigi band plans, radio mode labels
//! and operator guidance.
use crate::modes::band_plan::{increasing, lemma_increasing_ordered, plan_view};
use crate::modes::workspace::{BaseMode, WorkspaceMode, WorkspaceRadioPreset};
use vstd::prelude::*;

verus! {

/// The MSK144 calling frequency on each band, lowest band first.
pub open spec fn msk144_band_plan_bands() -> Seq<(Seq<char>, u64)> {
    seq![
        ("160m"@, 1840000u64),
        ("80m"@, 3579000u64),
        ("60m"@, 5357000u64),
        ("40m"@, 7099000u64),
        ("30m"@, 10136000u64),
        ("20m"@, 14099000u64),
        ("17m"@, 18100000u64),
        ("15m"@, 21099000u64),
        ("12m"@, 24924000u64),
        ("10m"@, 28099000u64),
        ("6m"@, 50313000u64),
        ("2m"@, 144138000u64),
        ("70cm"@, 432075000u64),
    ]
}

/// The MSK144 calling frequency on each band, lowest band first.
pub fn msk144_band_plan() -> (r: Vec<(&'static str, u64)>)
    ensures
        plan_view(r@) == msk144_band_plan_bands(),
{
    let mut r: Vec<(&'static str, u64)> = Vec::new();
    r.push(("160m", 1840000u64));
    r.push(("80m", 3579000u64));
    r.push(("60m", 5357000u64));
    r.push(("40m", 7099000u64));
    r.push(("30m", 10136000u64));
    r.push(("20m", 14099000u64));
    r.push(("17m", 18100000u64));
    r.push(("15m", 21099000u64));
    r.push(("12m", 24924000u64));
    r.push(("10m", 28099000u64));
    r.push(("6m", 50313000u64));
    r.push(("2m", 144138000u64));
    r.push(("70cm", 432075000u64));
    assert(plan_view(r@) =~= msk144_band_plan_bands());
    r
}

/// The frequencies of this plan rise from band to band.
pub proof fn msk144_band_plan_is_increasing()
    ensures
        increasing(msk144_band_plan_bands()),
        forall|i: int, j: int|
            0 <= i < j < msk144_band_plan_bands().len() ==> msk144_band_plan_bands()[i].1 < msk144_band_plan_bands()[j].1,
{
    reveal_with_fuel(increasing, 14);
    lemma_increasing_ordered(msk144_band_plan_bands());
}

/// The FLDIGI calling frequency on each band, lowest band first.
pub open spec fn fldigi_band_plan_bands() -> Seq<(Seq<char>, u64)> {
    seq![
        ("160m"@, 1840000u64),
        ("80m"@, 3573000u64),
        ("60m"@, 5357000u64),
        ("40m"@, 7074000u64),
        ("30m"@, 10136000u64),
        ("20m"@, 14074000u64),
        ("17m"@, 18100000u64),
        ("15m"@, 21074000u64),
        ("12m"@, 24924000u64),
        ("10m"@, 28074000u64),
        ("6m"@, 50313000u64),
    ]
}

/// The FLDIGI calling frequency on each band, lowest band first.
pub fn fldigi_band_plan() -> (r: Vec<(&'static str, u64)>)
    ensures
        plan_view(r@) == fldigi_band_plan_bands(),
{
    let mut r: Vec<(&'static str, u64)> = Vec::new();
    r.push(("160m", 1840000u64));
    r.push(("80m", 3573000u64));
    r.push(("60m", 5357000u64));
    r.push(("40m", 7074000u64));
    r.push(("30m", 10136000u64));
    r.push(("20m", 14074000u64));
    r.push(("17m", 18100000u64));
    r.push(("15m", 21074000u64));
    r.push(("12m", 24924000u64));
    r.push(("10m", 28074000u64));
    r.push(("6m", 50313000u64));
    assert(plan_view(r@) =~= fldigi_band_plan_bands());
    r
}

/// The frequencies of this plan rise from band to band.
pub proof fn fldigi_band_plan_is_increasing()
    ensures
        increasing(fldigi_band_plan_bands()),
        forall|i: int, j: int|
            0 <= i < j < fldigi_band_plan_bands().len() ==> fldigi_band_plan_bands()[i].1 < fldigi_band_plan_bands()[j].1,
{
    reveal_with_fuel(increasing, 12);
    lemma_increasing_ordered(fldigi_band_plan_bands());
}

pub open spec fn radio_mode_label_text(preset: WorkspaceRadioPreset) -> Seq<char> {
    match (preset.base_mode, preset.data_mode) {
        (BaseMode::Usb, true) => "USB-D"@,
        (BaseMode::Usb, false) => "USB"@,
        (BaseMode::Lsb, true) => "LSB-D"@,
        (BaseMode::Lsb, false) => "LSB"@,
        (BaseMode::Cw, _) | (BaseMode::CwR, _) => "CW"@,
        (BaseMode::Rtty, true) | (BaseMode::RttyR, true) => "RTTY-D"@,
        (BaseMode::Rtty, false) | (BaseMode::RttyR, false) => "RTTY"@,
        _ => "DIGITAL"@,
    }
}

/// The radio mode a native workspace runs the radio in.
pub fn native_radio_mode_label(preset: WorkspaceRadioPreset) -> (r: &'static str)
    ensures
        r@ == radio_mode_label_text(preset),
{
    match (preset.base_mode, preset.data_mode) {
        (BaseMode::Usb, true) => "USB-D",
        (BaseMode::Usb, false) => "USB",
        (BaseMode::Lsb, true) => "LSB-D",
        (BaseMode::Lsb, false) => "LSB",
        (BaseMode::Cw, _) | (BaseMode::CwR, _) => "CW",
        (BaseMode::Rtty, true) | (BaseMode::RttyR, true) => "RTTY-D",
        (BaseMode::Rtty, false) | (BaseMode::RttyR, false) => "RTTY",
        _ => "DIGITAL",
    }
}

pub open spec fn mode_guidance_text(mode: WorkspaceMode) -> Seq<char> {
    match mode {
        WorkspaceMode::Wspr => "WSPR is a 120-second propagation beacon. TX format: CALL GRID POWER_DBM; use one-shot transmissions only."@,
        WorkspaceMode::Fst4 => "FST4-60 is currently selected by the decoder. TX is one timed frame; verify the slot countdown before sending."@,
        WorkspaceMode::Jt9 => "JT9 uses 60-second slots. The native panel provides manual one-shot TX; sequencing is not enabled yet."@,
        WorkspaceMode::Jt65 => "JT65 uses 60-second slots. The native panel provides manual one-shot TX; sequencing is not enabled yet."@,
        WorkspaceMode::Q65 => "Q65-A30 is currently selected by the decoder. The native panel provides manual one-shot TX."@,
        _ => "Native digital TX is one-shot and slot-timed; use STOP TX to disarm a queued frame."@,
    }
}

/// The operator guidance shown for a native slot mode.
pub fn native_mode_guidance(mode: WorkspaceMode) -> (r: &'static str)
    ensures
        r@ == mode_guidance_text(mode),
{
    match mode {
        WorkspaceMode::Wspr => "WSPR is a 120-second propagation beacon. TX format: CALL GRID POWER_DBM; use one-shot transmissions only.",
        WorkspaceMode::Fst4 => "FST4-60 is currently selected by the decoder. TX is one timed frame; verify the slot countdown before sending.",
        WorkspaceMode::Jt9 => "JT9 uses 60-second slots. The native panel provides manual one-shot TX; sequencing is not enabled yet.",
        WorkspaceMode::Jt65 => "JT65 uses 60-second slots. The native panel provides manual one-shot TX; sequencing is not enabled yet.",
        WorkspaceMode::Q65 => "Q65-A30 is currently selected by the decoder. The native panel provides manual one-shot TX.",
        _ => "Native digital TX is one-shot and slot-timed; use STOP TX to disarm a queued frame.",
    }
}

} // verus!
