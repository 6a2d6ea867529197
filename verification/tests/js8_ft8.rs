use qsonaut_gui::modes::exchange::{AutoReplyPolicy, QsoSession, QsoStage};
use qsonaut_gui::modes::ft8_runtime::{
    handle_ft8_decodes, Ft8AutoAction, Ft8DecodeEntry, Ft8SequencerSettings,
};
use qsonaut_gui::modes::js8::{
    band_plan as js8_band_plan, format_js8_message, js8_command_code, js8_entry_callsign,
    js8_heard_callsign, js8_status, js8_traffic_kind, js8_traffic_label, parse_js8_compose,
    Js8FrameType, Js8Message, Js8TrafficKind,
};

#[test]
fn exposes_the_initial_hf_js8_calling_plan() {
    let band_plan = js8_band_plan();
    assert_eq!(band_plan.first(), Some(&("160m", 1_842_000)));
    assert!(band_plan.iter().any(|(band, _)| *band == "20m"));
    assert!(band_plan.windows(2).all(|window| window[0].1 < window[1].1));
}

#[test]
fn builds_human_readable_semantic_conversation_messages() {
    let message = parse_js8_compose("CQ N7UF CN87").expect("CQ message");
    assert_eq!(format_js8_message(&message), "CQ N7UF CN87");

    let message = parse_js8_compose("W1AW FN31").expect("station message");
    assert_eq!(format_js8_message(&message), "W1AW FN31");

    let message = parse_js8_compose("HEARTBEAT N7UF CN87").expect("heartbeat");
    assert_eq!(format_js8_message(&message), "HEARTBEAT N7UF CN87");

    let message = parse_js8_compose("W1AW N7UF GRID?").expect("directed command");
    assert_eq!(format_js8_message(&message), "W1AW N7UF GRID?");

    let message = parse_js8_compose("N7UF W1AW SNR -10").expect("numbered command");
    assert_eq!(format_js8_message(&message), "N7UF W1AW SNR -10");
    assert_eq!(
        js8_traffic_kind("CQ QZ0NA CN87"),
        Js8TrafficKind::Announcement
    );
    assert_eq!(
        js8_traffic_kind("HEARTBEAT QZ0NA CN87"),
        Js8TrafficKind::Presence
    );
    assert_eq!(
        js8_traffic_kind("QZ0NA QZ1NB GRID?"),
        Js8TrafficKind::Maintenance
    );
    assert_eq!(
        js8_traffic_kind("QZ0NA QZ1NB QSL"),
        Js8TrafficKind::Conversation
    );
    assert_eq!(
        format_js8_message(&Js8Message::Data {
            encoded: "ABC".into(),
            compressed: false,
        }),
        "DATA ABC"
    );
    assert_eq!(
        format_js8_message(&Js8Message::Data {
            encoded: "ABC".into(),
            compressed: true,
        }),
        "DATA-COMPRESSED ABC"
    );
    assert_eq!(
        format_js8_message(&Js8Message::Raw {
            frame_type: Js8FrameType::Unknown(1),
            payload: "RAW".into(),
        }),
        "RAW"
    );
}

#[test]
fn parses_all_initial_compose_shapes_and_heard_callsigns() {
    assert!(parse_js8_compose("HEARTBEAT QZ0NA").is_some());
    assert!(parse_js8_compose("QZ0NA QZ1NB ACK").is_some());
    assert!(parse_js8_compose("QZ0NA QZ1NB SNR -12").is_some());
    assert!(parse_js8_compose("QZ0NA QZ1NB QSL").is_some());
    assert!(parse_js8_compose("QZ0NA CN87").is_some());
    assert!(parse_js8_compose("0123456789AB").is_some());
    assert!(parse_js8_compose("not a JS8 message").is_none());
    assert_eq!(js8_heard_callsign("CQ+QZ0NA+CN87"), Some("QZ0NA".into()));
    assert_eq!(
        js8_heard_callsign("QZ0NA+QZ1NB+GRID?"),
        Some("QZ0NA".into())
    );
    assert_eq!(
        js8_heard_callsign("@ALLCALL HEARTBEAT"),
        Some("@ALLCALL".into())
    );
    assert_eq!(js8_heard_callsign("noise"), None);
}

#[test]
fn js8_status_prefers_active_transmission_then_queue() {
    assert_eq!(js8_status(false, false, ""), "RX · TX DISARMED");
    assert_eq!(js8_status(false, false, "queued for next slot"), "TX ARMED");
    assert_eq!(js8_status(false, true, ""), "TX ARMED");
    assert_eq!(js8_status(true, false, "queued for next slot"), "TX IN PROGRESS");
}

#[test]
fn js8_commands_have_codes_and_traffic_labels() {
    assert_eq!(js8_command_code("GRID?"), Some(("GRID?", 4)));
    assert_eq!(js8_command_code("SNR"), Some(("SNR", 25)));
    assert!(js8_command_code("grid?").is_none());
    assert_eq!(js8_traffic_label(Js8TrafficKind::Presence), "presence");
    assert_eq!(js8_traffic_label(Js8TrafficKind::Maintenance), "maintenance");
}

#[test]
fn js8_entry_callsign_prefers_the_sender() {
    assert_eq!(js8_entry_callsign("QZ0NA QZ1NB -10"), Some("QZ1NB".to_string()));
    assert_eq!(js8_entry_callsign("noise"), None);
}

fn settings(my_call: &str) -> Ft8SequencerSettings {
    Ft8SequencerSettings {
        my_call: my_call.to_string(),
        my_grid: "CN84".to_string(),
        autoseq: true,
        tx_busy: false,
        auto_answer_cq: true,
        auto_reply_policy: AutoReplyPolicy::First,
        rx_tone_hz: 1_500,
        last_tx_period: None,
        last_tx_was_cq: false,
    }
}

fn decode(message: &str, snr_db: i8, freq_hz: u32, period: u64) -> Ft8DecodeEntry {
    Ft8DecodeEntry {
        message: message.to_string(),
        snr_db,
        freq_hz,
        period,
    }
}

#[test]
fn sequencer_waits_for_an_operator_callsign() {
    let mut session = None;
    let action = handle_ft8_decodes(
        &vec![decode("CQ K1ABC FN42", -7, 1_500, 100)],
        Some(100),
        &settings("n0call"),
        &None,
        &mut session,
    );
    assert!(matches!(action, Ft8AutoAction::PauseNoCallsign));
    assert!(session.is_none());
}

#[test]
fn sequencer_is_idle_without_decodes_or_period() {
    let mut session = None;
    let action = handle_ft8_decodes(&Vec::new(), None, &settings("N7UF"), &None, &mut session);
    assert!(matches!(action, Ft8AutoAction::Idle));
}

#[test]
fn sequencer_answers_a_caller_and_opens_a_session() {
    let mut session = None;
    let action = handle_ft8_decodes(
        &vec![
            decode("W9XYZ K2BBB -03", -3, 900, 100),
            decode("N7UF K1ABC FN42", -7, 1_400, 100),
        ],
        Some(100),
        &settings("N7UF"),
        &None,
        &mut session,
    );
    match action {
        Ft8AutoAction::StartSession { message, index } => {
            assert_eq!(message, "K1ABC N7UF -07");
            assert_eq!(index, 1);
        }
        other => panic!("unexpected action {other:?}"),
    }
    let session = session.expect("session opened");
    assert_eq!(session.target, "K1ABC");
    assert_eq!(session.stage, QsoStage::ReportSent);
}

#[test]
fn sequencer_cancels_when_the_target_works_another_station() {
    let mut session = Some(QsoSession::start("K1ABC".to_string(), 100));
    let action = handle_ft8_decodes(
        &vec![decode("W9XYZ K1ABC -10", -10, 1_500, 102)],
        Some(102),
        &settings("N7UF"),
        &Some("K1ABC".to_string()),
        &mut session,
    );
    match action {
        Ft8AutoAction::Cancel { target, other } => {
            assert_eq!(target, "K1ABC");
            assert_eq!(other, "W9XYZ");
        }
        other => panic!("unexpected action {other:?}"),
    }
}

#[test]
fn sequencer_retries_after_a_silent_receive_period() {
    let mut session = Some(QsoSession::start("K1ABC".to_string(), 100));
    let mut station = settings("N7UF");
    station.last_tx_period = Some(101);
    let action = handle_ft8_decodes(&Vec::new(), Some(102), &station, &None, &mut session);
    assert!(matches!(action, Ft8AutoAction::Retry { period: 102 }));
    assert!(session.is_some());
}

#[test]
fn sequencer_repeats_an_unanswered_cq() {
    let mut session = None;
    let mut station = settings("N7UF");
    station.last_tx_period = Some(100);
    station.last_tx_was_cq = true;
    let action = handle_ft8_decodes(&Vec::new(), Some(101), &station, &None, &mut session);
    assert!(matches!(action, Ft8AutoAction::RepeatCq));
}

#[test]
fn sequencer_stays_idle_while_transmitting() {
    let mut session = None;
    let mut station = settings("N7UF");
    station.tx_busy = true;
    let action = handle_ft8_decodes(
        &vec![decode("N7UF K1ABC FN42", -7, 1_400, 100)],
        Some(100),
        &station,
        &None,
        &mut session,
    );
    assert!(matches!(action, Ft8AutoAction::Idle));
    assert!(session.is_none());
}
