use qsonaut_gui::modes::cw::{
    band_plan as cw_band_plan, cw_qso_entry, detected_callsigns, next_auto_target_state,
    CwQsoForm, CW_QSO_NEEDS_CALLSIGN,
    workspace_description as cw_workspace_description,
};
use qsonaut_gui::modes::fst4::{band_plan as fst4_band_plan, Submode};
use qsonaut_gui::modes::ft8::{band_plan as ft8_band_plan, ft8_phase_label};
use qsonaut_gui::modes::ft8_runtime::retuned_ft8_tones;
use qsonaut_gui::modes::ft8_types::Ft8SeqState;
use qsonaut_gui::modes::jt65::{
    band_plan as jt65_band_plan, workspace_description as jt65_workspace_description,
};
use qsonaut_gui::modes::jt9::{
    band_plan as jt9_band_plan, workspace_description as jt9_workspace_description,
};
use qsonaut_gui::modes::native::{
    fldigi_band_plan, msk144_band_plan, native_mode_guidance, native_radio_mode_label,
};
use qsonaut_gui::modes::q65::{
    band_plan as q65_band_plan, workspace_description as q65_workspace_description,
};
use qsonaut_gui::modes::rade::band_plan as rade_band_plan;
use qsonaut_gui::modes::sstv::{sstv_reinterpretation_prompt, sstv_vision_instruction};
use qsonaut_gui::modes::voice::{band_plan as voice_band_plan, VoiceContestField};
use qsonaut_gui::modes::workspace::{BaseMode, WorkspaceMode, WorkspaceRadioPreset};
use qsonaut_gui::modes::wspr::{band_plan as wspr_band_plan, parse_beacon};

fn preset(base_mode: BaseMode, data_mode: bool) -> WorkspaceRadioPreset {
    WorkspaceRadioPreset {
        base_mode,
        data_mode,
        filter: 1,
    }
}

#[test]
fn exposes_the_complete_cw_band_plan() {
    let band_plan = cw_band_plan();
    assert_eq!(band_plan.len(), 13);
    assert_eq!(band_plan.first(), Some(&("160m", 1_836_000)));
    assert_eq!(band_plan.last(), Some(&("70cm", 432_100_000)));
    assert!(band_plan.windows(2).all(|bands| bands[0].1 < bands[1].1));
}

#[test]
fn identifies_the_software_cw_workspace() {
    assert_eq!(cw_workspace_description(), "CW · Software Audio");
}

#[test]
fn auto_target_cycles_off_scan_retarget_off() {
    assert_eq!(next_auto_target_state(false, false), (true, false));
    assert_eq!(next_auto_target_state(true, false), (false, true));
    assert_eq!(next_auto_target_state(false, true), (false, false));
}

#[test]
fn detects_clickable_callsigns_without_echoing_the_operator() {
    assert_eq!(
        detected_callsigns("CQ K1ABC K1ABC N0CALL 599", "N0CALL"),
        vec!["K1ABC"]
    );
}

#[test]
fn detected_callsigns_trim_punctuation_fold_case_and_stop_at_eight() {
    assert_eq!(
        detected_callsigns("de k1abc, K1ABC? w1aw/7 n0call", "N0CALL"),
        vec!["K1ABC", "W1AW/7"]
    );
    let many = "K1AA K2AA K3AA K4AA K5AA K6AA K7AA K8AA K9AA";
    let calls = detected_callsigns(many, "N0CALL");
    assert_eq!(calls.len(), 8);
    assert_eq!(calls.last().map(String::as_str), Some("K8AA"));
    assert!(detected_callsigns("", "N0CALL").is_empty());
}

#[test]
fn prioritizes_ft8_transmit_state_in_the_phase_label() {
    assert_eq!(ft8_phase_label(true, Some(4), true, true), "TX NOW");
    assert_eq!(ft8_phase_label(false, Some(4), true, true), "TX QUEUED");
    assert_eq!(ft8_phase_label(false, None, true, true), "AUTO TX ARMED");
    assert_eq!(ft8_phase_label(false, None, true, false), "RX");
}

#[test]
fn exposes_the_ft8_band_plan_in_frequency_order() {
    let band_plan = ft8_band_plan();
    assert_eq!(band_plan.len(), 13);
    assert_eq!(band_plan.first(), Some(&("160m", 1_840_000)));
    assert_eq!(band_plan.last(), Some(&("70cm", 432_074_000)));
    assert!(band_plan.windows(2).all(|bands| bands[0].1 < bands[1].1));
}

#[test]
fn clamps_decode_picks_and_respects_tx_hold() {
    assert_eq!(retuned_ft8_tones(20, 1_500, true, false), (100, 100, true));
    assert_eq!(
        retuned_ft8_tones(4_000, 1_500, true, false),
        (3_500, 3_500, true)
    );
    assert_eq!(
        retuned_ft8_tones(2_000, 1_500, true, true),
        (2_000, 1_500, false)
    );
    assert_eq!(
        retuned_ft8_tones(2_000, 1_500, false, false),
        (2_000, 1_500, false)
    );
}

#[test]
fn labels_every_ft8_sequencer_state_and_fst4_submode() {
    assert_eq!(Ft8SeqState::Idle.label(), "IDLE");
    assert_eq!(Ft8SeqState::CqArmed.label(), "CQ ARMED");
    assert_eq!(Ft8SeqState::ReplyArmed.label(), "REPLY ARMED");
    assert_eq!(Ft8SeqState::TxQueued.label(), "TX QUEUED");
    assert_eq!(Submode::default(), Submode::S60);
    assert_eq!(Submode::S15.label(), "FST4-15");
    assert_eq!(Submode::S300.label(), "FST4-300");
}

#[test]
fn exposes_the_jt65_band_plan_and_workspace_contract() {
    let band_plan = jt65_band_plan();
    assert_eq!(band_plan.len(), 11);
    assert_eq!(band_plan.first(), Some(&("160m", 1_838_000)));
    assert_eq!(band_plan.last(), Some(&("6m", 50_323_000)));
    assert!(jt65_workspace_description().contains("60-second decoder"));
    assert!(jt65_workspace_description().contains("manual one-shot TX"));
}

#[test]
fn exposes_the_jt9_band_plan_and_manual_tx_contract() {
    let band_plan = jt9_band_plan();
    assert_eq!(band_plan.len(), 11);
    assert_eq!(band_plan.first(), Some(&("160m", 1_836_000)));
    assert_eq!(band_plan.last(), Some(&("6m", 50_313_000)));
    assert!(jt9_workspace_description().contains("60-second decoder"));
    assert!(jt9_workspace_description().contains("no JT9 sequencing"));
}

#[test]
fn exposes_the_q65_band_plan_and_timing_contract() {
    let band_plan = q65_band_plan();
    assert_eq!(band_plan.len(), 11);
    assert_eq!(band_plan.first(), Some(&("160m", 1_838_000)));
    assert_eq!(band_plan.last(), Some(&("6m", 50_323_000)));
    assert!(q65_workspace_description().contains("selected shared WSJT submode"));
}

#[test]
fn every_band_plan_rises_in_frequency() {
    for plan in [
        wspr_band_plan(),
        fst4_band_plan(),
        voice_band_plan(),
        msk144_band_plan(),
        fldigi_band_plan(),
    ] {
        assert_eq!(plan.first().map(|band| band.0), Some("160m"));
        assert!(plan.windows(2).all(|bands| bands[0].1 < bands[1].1));
    }
    assert_eq!(voice_band_plan().last(), Some(&("70cm", 446_000_000)));
    assert_eq!(wspr_band_plan()[5], ("20m", 14_095_600));
}

#[test]
fn labels_all_supported_native_radio_modes() {
    assert_eq!(native_radio_mode_label(preset(BaseMode::Usb, true)), "USB-D");
    assert_eq!(native_radio_mode_label(preset(BaseMode::Usb, false)), "USB");
    assert_eq!(native_radio_mode_label(preset(BaseMode::Lsb, true)), "LSB-D");
    assert_eq!(native_radio_mode_label(preset(BaseMode::Lsb, false)), "LSB");
    assert_eq!(native_radio_mode_label(preset(BaseMode::Cw, false)), "CW");
    assert_eq!(native_radio_mode_label(preset(BaseMode::CwR, true)), "CW");
    assert_eq!(native_radio_mode_label(preset(BaseMode::Rtty, true)), "RTTY-D");
    assert_eq!(native_radio_mode_label(preset(BaseMode::RttyR, false)), "RTTY");
    assert_eq!(native_radio_mode_label(preset(BaseMode::Am, false)), "DIGITAL");
}

#[test]
fn keeps_mode_specific_operator_guidance() {
    assert!(native_mode_guidance(WorkspaceMode::Wspr).contains("120-second"));
    assert!(native_mode_guidance(WorkspaceMode::Fst4).contains("FST4-60"));
    assert!(native_mode_guidance(WorkspaceMode::Jt65).contains("JT65"));
    assert!(native_mode_guidance(WorkspaceMode::Q65).contains("Q65-A30"));
    assert!(native_mode_guidance(WorkspaceMode::Fldigi).contains("one-shot"));
}

#[test]
fn parses_a_complete_type_one_beacon() {
    assert_eq!(
        parse_beacon("K1ABC FN42 37"),
        Some(("K1ABC".to_string(), "FN42".to_string(), 37))
    );
}

#[test]
fn rejects_incomplete_invalid_and_extra_beacon_fields() {
    assert_eq!(parse_beacon("K1ABC FN42"), None);
    assert_eq!(parse_beacon("K1ABC FN42 nope"), None);
    assert_eq!(parse_beacon("K1ABC FN42 37 extra"), None);
    assert_eq!(parse_beacon(""), None);
}

#[test]
fn beacon_power_reads_like_an_i32() {
    assert_eq!(
        parse_beacon(" W1AW  FN31 +60 "),
        Some(("W1AW".to_string(), "FN31".to_string(), 60))
    );
    assert_eq!(
        parse_beacon("W1AW FN31 -2147483648"),
        Some(("W1AW".to_string(), "FN31".to_string(), i32::MIN))
    );
    assert_eq!(parse_beacon("W1AW FN31 2147483648"), None);
    assert_eq!(parse_beacon("W1AW FN31 -"), None);
}

#[test]
fn new_voice_contest_field_starts_empty() {
    let field = VoiceContestField::new("Serial".to_string());
    assert_eq!(field.name, "Serial");
    assert!(field.sent.is_empty());
    assert!(field.received.is_empty());
}

#[test]
fn cw_qso_entry_normalizes_the_form_and_needs_a_callsign() {
    let form = CwQsoForm {
        callsign: " k1abc ".to_string(),
        rst_sent: " 599 ".to_string(),
        rst_received: " 579 ".to_string(),
        exchange_received: " 5nn 12 ".to_string(),
        notes: " good copy ".to_string(),
    };
    let entry = cw_qso_entry(&form, false, "General", 7).expect("valid CW record");
    assert_eq!(entry.callsign, "K1ABC");
    assert_eq!(entry.mode, "CW");
    assert_eq!(entry.operation_mode, "General");
    assert_eq!(entry.contest_serial_sent, None);
    assert_eq!(entry.report_sent, "599");
    assert_eq!(entry.report_received, "579");
    assert_eq!(entry.notes, "good copy");
    assert_eq!(entry.contest_exchange_received, None);
    let contest = cw_qso_entry(&form, true, "General", 7).expect("valid contest CW record");
    assert_eq!(contest.operation_mode, "Contest");
    assert_eq!(contest.contest_serial_sent, Some(7));
    assert_eq!(contest.contest_exchange_received.as_deref(), Some("5nn 12"));
    let first = cw_qso_entry(&form, true, "General", 0).expect("valid contest CW record");
    assert_eq!(first.contest_serial_sent, Some(1));

    let mut bad = form.clone();
    bad.callsign = "not-a-call".to_string();
    assert!(cw_qso_entry(&bad, false, "General", 1).is_none());
    assert_eq!(CW_QSO_NEEDS_CALLSIGN, "CW QSO needs a valid callsign");

    let cleared = CwQsoForm::cleared();
    assert!(cleared.callsign.is_empty() && cleared.notes.is_empty());
    assert_eq!((cleared.rst_sent.as_str(), cleared.rst_received.as_str()), ("599", "599"));
}

#[test]
fn sstv_prompts_carry_the_trimmed_station_details() {
    let prompt = sstv_reinterpretation_prompt(" N7UF ", " CN87 ", " roof dipole ", "");
    assert!(prompt.starts_with("Reinterpret this received amateur-radio SSTV image"));
    assert!(prompt.ends_with(
        "\n\nCallsign: N7UF\nGrid: CN87\nStation notes: roof dipole\nModel notes: "
    ));
    assert!(sstv_vision_instruction().ends_with("Do not invent callsigns or labels."));
}

#[test]
fn rade_offers_the_voice_band_plan() {
    assert_eq!(rade_band_plan(), voice_band_plan());
}
