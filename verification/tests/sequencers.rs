use qsonaut_gui::modes::digital_tx::{
    digital_tx_gate, DigitalTxEvent, DigitalTxNote, DigitalTxRefusal, DigitalTxState,
};
use qsonaut_gui::modes::exchange::{AutoReplyPolicy, AutoTxStopPolicy, QsoSession, QsoStage};
use qsonaut_gui::modes::ft4_runtime::{
    handle_native_decodes, handle_native_sequence, prune_seen_decodes, take_fresh_decodes, ModeDecode, NativeSeqStep,
    NativeSequencerSettings, SeenDecode,
};
use qsonaut_gui::modes::ft8::ft8_conversation_target;
use qsonaut_gui::modes::ft8_runtime::Ft8DecodeEntry;
use qsonaut_gui::modes::ft8_tx::{
    ft8_tx_gate, record_ft8_tx_chat, Ft8TxChatEntry, Ft8TxEvent, Ft8TxRefusal, Ft8TxState,
    TX_CHAT_CAPACITY,
};
use qsonaut_gui::modes::ft8_types::Ft8SeqState;
use qsonaut_gui::modes::workspace::WorkspaceMode;
use qsonaut_gui::modes::voice::{
    voice_contest_exchange, voice_lookup_target, voice_qso_entry, VoiceContestField, VoiceQsoForm,
};

fn decode(message: &str, snr_db: i8, freq_hz: u32, period: u64) -> Ft8DecodeEntry {
    Ft8DecodeEntry {
        message: message.to_string(),
        snr_db,
        freq_hz,
        period,
    }
}

fn native_settings() -> NativeSequencerSettings {
    NativeSequencerSettings {
        my_call: "N7UF".to_string(),
        my_grid: "CN84".to_string(),
        auto_sequence: true,
        tx_active: false,
        last_tx_message: Some("CQ N7UF CN84".to_string()),
        auto_answer_cq: false,
        auto_reply_policy: AutoReplyPolicy::First,
        rx_tone_hz: 1_500,
        ft4_autoseq: true,
        ft4_last_tx_period: Some(10),
        last_tx_period: Some(10),
        attempts: None,
        max_attempts: 6,
        compose: String::new(),
        stop_policy: AutoTxStopPolicy::Continuous,
    }
}

fn session_at(stage: QsoStage, tx_attempts: u8) -> QsoSession {
    QsoSession {
        target: "K1ABC".to_string(),
        stage,
        tx_parity: 1,
        started_period: 9,
        last_rx_period: 9,
        remote_grid: Some("FN42".to_string()),
        report_sent: Some(-7),
        report_received: None,
        tx_attempts,
    }
}

#[test]
fn native_sequencer_answers_a_caller_of_our_cq() {
    let mut session = None;
    let outcome = handle_native_sequence(
        &vec![decode("N7UF K1ABC FN42", -7, 1_200, 11)],
        Some(11),
        &native_settings(),
        &mut session,
    );
    assert_eq!(outcome.selected.as_deref(), Some("K1ABC"));
    assert!(outcome.completed.is_none());
    match outcome.step {
        NativeSeqStep::Reply { message, freq_hz } => {
            assert_eq!(message, "K1ABC N7UF -07");
            assert_eq!(freq_hz, 1_200);
        }
        other => panic!("unexpected step {other:?}"),
    }
    let session = session.expect("session opened");
    assert_eq!(session.target, "K1ABC");
    assert_eq!(session.stage, QsoStage::ReportSent);
}

#[test]
fn native_sequencer_ignores_callers_when_no_cq_is_waiting() {
    let mut settings = native_settings();
    settings.last_tx_message = Some("K2BBB N7UF RR73".to_string());
    let mut session = None;
    let outcome = handle_native_sequence(
        &vec![decode("N7UF K1ABC FN42", -7, 1_200, 11)],
        Some(11),
        &settings,
        &mut session,
    );
    assert!(outcome.selected.is_none());
    assert!(matches!(outcome.step, NativeSeqStep::Idle));
    assert!(session.is_none());
}

#[test]
fn native_sequencer_answers_cq_calls_when_asked() {
    let mut settings = native_settings();
    settings.last_tx_message = None;
    settings.auto_answer_cq = true;
    let mut session = None;
    let outcome = handle_native_sequence(
        &vec![decode("CQ K1ABC FN42", -3, 900, 11)],
        Some(11),
        &settings,
        &mut session,
    );
    assert_eq!(outcome.selected.as_deref(), Some("K1ABC"));
    match outcome.step {
        NativeSeqStep::Reply { message, freq_hz } => {
            assert_eq!(message, "K1ABC N7UF CN84");
            assert_eq!(freq_hz, 900);
        }
        other => panic!("unexpected step {other:?}"),
    }
}

#[test]
fn native_sequencer_repeats_an_unanswered_cq() {
    let mut session = None;
    let outcome = handle_native_sequence(&Vec::new(), Some(11), &native_settings(), &mut session);
    assert!(matches!(outcome.step, NativeSeqStep::RepeatCq));
    let outcome = handle_native_sequence(&Vec::new(), Some(12), &native_settings(), &mut session);
    assert!(matches!(outcome.step, NativeSeqStep::Idle));
}

#[test]
fn native_sequencer_completes_and_may_stop() {
    let mut settings = native_settings();
    settings.stop_policy = AutoTxStopPolicy::AfterCurrentQso;
    let mut session = Some(session_at(QsoStage::RogerReportSent, 1));
    let outcome = handle_native_sequence(
        &vec![decode("N7UF K1ABC RR73", -9, 1_200, 13)],
        Some(13),
        &settings,
        &mut session,
    );
    let completed = outcome.completed.expect("QSO completed");
    assert_eq!(completed.stage, QsoStage::Complete);
    assert_eq!(completed.target, "K1ABC");
    assert!(outcome.stop_after_completion);
    assert!(session.is_none());
}

#[test]
fn native_sequencer_gives_up_after_too_many_attempts() {
    let mut settings = native_settings();
    settings.attempts = Some(6);
    let mut session = Some(session_at(QsoStage::ReportSent, 6));
    let outcome = handle_native_sequence(&Vec::new(), Some(11), &settings, &mut session);
    assert!(matches!(outcome.step, NativeSeqStep::GiveUp));
    assert!(session.is_none());
}

#[test]
fn native_sequencer_repeats_the_last_exchange_when_nothing_came_back() {
    let mut settings = native_settings();
    settings.compose = " K1ABC N7UF -07 ".to_string();
    let mut session = Some(session_at(QsoStage::ReportSent, 2));
    let outcome = handle_native_sequence(&Vec::new(), Some(11), &settings, &mut session);
    assert!(matches!(outcome.step, NativeSeqStep::RepeatLast));
    assert!(session.is_some());
    settings.compose = "   ".to_string();
    let outcome = handle_native_sequence(&Vec::new(), Some(11), &settings, &mut session);
    assert!(matches!(outcome.step, NativeSeqStep::Idle));
}

#[test]
fn native_sequencer_waits_while_transmitting() {
    let mut settings = native_settings();
    settings.tx_active = true;
    let mut session = Some(session_at(QsoStage::ReportSent, 2));
    let outcome = handle_native_sequence(
        &vec![decode("N7UF K1ABC R-09", -9, 1_200, 11)],
        Some(11),
        &settings,
        &mut session,
    );
    assert!(matches!(outcome.step, NativeSeqStep::Idle));
    assert_eq!(session.expect("session kept").stage, QsoStage::ReportSent);
}

#[test]
fn ft8_tx_gate_checks_in_order() {
    let gate = |compose: &str, radio: bool, active: bool, other: bool, attempts: Option<u8>| {
        ft8_tx_gate(compose, radio, active, false, other, false, attempts, 6)
    };
    assert_eq!(gate("  ", false, true, true, Some(9)), Err(Ft8TxRefusal::EmptyCompose));
    assert_eq!(gate("CQ N7UF CN84", false, true, true, Some(9)), Err(Ft8TxRefusal::RadioUnavailable));
    assert_eq!(gate("CQ N7UF CN84", true, true, true, Some(9)), Err(Ft8TxRefusal::AlreadyScheduled));
    assert_eq!(
        gate("CQ N7UF CN84", true, false, true, Some(9)),
        Err(Ft8TxRefusal::OtherModeTransmitting)
    );
    assert_eq!(gate("CQ N7UF CN84", true, false, false, Some(6)), Err(Ft8TxRefusal::MaxAttempts(6)));
    assert_eq!(gate("CQ N7UF CN84", true, false, false, Some(5)), Ok(false));
    assert_eq!(
        ft8_tx_gate("CQ N7UF CN84", true, false, false, false, true, None, 6),
        Ok(true)
    );
    assert_eq!(
        Ft8TxRefusal::MaxAttempts(6).message(),
        "Stopped after 6 unanswered attempts"
    );
    assert_eq!(
        Ft8TxRefusal::EmptyCompose.message(),
        "TX not queued: compose is empty"
    );
}

fn tx_state() -> Ft8TxState {
    Ft8TxState {
        suppress_canceled_events: false,
        autoseq: true,
        stop_policy: AutoTxStopPolicy::Continuous,
        last_tx_was_cq: false,
        queued_period: None,
        started_period: None,
        last_tx_period: None,
        queued_message: None,
        last_tx_message: None,
        seq_state: Ft8SeqState::Idle,
        seq_target: None,
        session: None,
        status: String::new(),
    }
}

#[test]
fn ft8_transmission_runs_from_queue_to_completion() {
    let mut state = tx_state();
    assert_eq!(state.record_queued("  CQ N7UF CN84 ", 40), None);
    assert_eq!(state.queued_message.as_deref(), Some("CQ N7UF CN84"));
    assert!(state.last_tx_was_cq);
    assert_eq!(state.seq_state, Ft8SeqState::TxQueued);

    let effects = state.apply_tx_event(Ft8TxEvent::PttConfirmed);
    assert!(effects.on_air.is_none());
    assert_eq!(state.status, "⚡ PTT confirmed · waveform launch is locked in");

    let effects = state.apply_tx_event(Ft8TxEvent::AudioStarted);
    assert_eq!(effects.on_air.as_deref(), Some("CQ N7UF CN84"));
    assert_eq!(state.started_period, Some(40));

    let effects = state.apply_tx_event(Ft8TxEvent::Complete);
    assert!(effects.drop_waveform && effects.clear_abort);
    assert!(effects.logged.is_none());
    assert_eq!(state.last_tx_period, Some(40));
    assert_eq!(state.last_tx_message.as_deref(), Some("CQ N7UF CN84"));
    assert_eq!(state.queued_period, None);
    assert_eq!(state.seq_state, Ft8SeqState::CqArmed);
    assert_eq!(state.status, "📣 CQ away · listening for callers");
}

#[test]
fn ft8_queueing_counts_session_attempts() {
    let mut state = tx_state();
    state.session = Some(session_at(QsoStage::ReportSent, 254));
    assert_eq!(state.record_queued("K1ABC N7UF -07", 41), Some(255));
    assert_eq!(state.record_queued("K1ABC N7UF -07", 43), Some(255));
    assert!(!state.last_tx_was_cq);
}

#[test]
fn ft8_final_transmission_logs_the_qso_once() {
    let mut state = tx_state();
    state.stop_policy = AutoTxStopPolicy::AfterCurrentQso;
    state.seq_target = Some("K1ABC".to_string());
    state.session = Some(session_at(QsoStage::FinalSent, 1));
    state.record_queued("K1ABC N7UF RR73", 44);
    state.apply_tx_event(Ft8TxEvent::AudioStarted);
    let effects = state.apply_tx_event(Ft8TxEvent::Complete);
    let logged = effects.logged.expect("QSO logged");
    assert_eq!(logged.target, "K1ABC");
    assert!(state.session.is_none());
    assert!(state.seq_target.is_none());
    assert!(!state.autoseq);
    assert_eq!(state.seq_state, Ft8SeqState::Idle);
    assert_eq!(
        state.status,
        "🏁 QSO with K1ABC complete and logged · beautiful! · automatic TX stopped"
    );
    let again = state.apply_tx_event(Ft8TxEvent::Complete);
    assert!(again.logged.is_none());
}

#[test]
fn ft8_stop_after_next_tx_pauses_automatic_operation() {
    let mut state = tx_state();
    state.stop_policy = AutoTxStopPolicy::AfterNextTx;
    state.record_queued("K1ABC N7UF -07", 45);
    let effects = state.apply_tx_event(Ft8TxEvent::Complete);
    assert!(effects.persist_paused);
    assert!(!state.autoseq);
    assert_eq!(state.stop_policy, AutoTxStopPolicy::Continuous);
    assert_eq!(state.status, "🔒 TX complete · automatic TX is paused");
}

#[test]
fn ft8_failed_transmission_disarms_the_sequence() {
    let mut state = tx_state();
    state.session = Some(session_at(QsoStage::ReportSent, 1));
    state.seq_target = Some("K1ABC".to_string());
    state.record_queued("K1ABC N7UF -07", 46);
    let effects = state.apply_tx_event(Ft8TxEvent::Failed("radio busy".to_string()));
    assert!(effects.drop_waveform && !effects.clear_abort);
    assert_eq!(state.status, "⚠ TX failed · radio busy");
    assert!(state.session.is_none() && state.seq_target.is_none());
    assert!(!state.autoseq);
    assert_eq!(state.queued_period, None);
}

#[test]
fn ft8_stopped_transmission_waits_for_its_worker() {
    let mut state = tx_state();
    state.record_queued("CQ N7UF CN84", 47);
    state.force_stop(false);
    assert!(state.suppress_canceled_events);
    assert_eq!(state.status, "TX force-stopped");
    assert_eq!(state.queued_period, None);
    let effects = state.apply_tx_event(Ft8TxEvent::AudioStarted);
    assert!(effects.on_air.is_none() && !effects.arm_pending_reply);
    assert_eq!(state.status, "TX force-stopped");
    let effects = state.apply_tx_event(Ft8TxEvent::Complete);
    assert!(effects.arm_pending_reply);
    assert!(!state.suppress_canceled_events);
}

#[test]
fn ft8_cancel_and_arm_report_their_status() {
    let mut state = tx_state();
    state.cancel_sequence(false, "Stopped after 6 unanswered attempts".to_string());
    assert!(!state.autoseq);
    assert!(!state.suppress_canceled_events);
    assert_eq!(state.status, "Stopped after 6 unanswered attempts");

    state.arm_reply(
        "K1ABC".to_string(),
        session_at(QsoStage::Calling, 0),
        1_200,
        1_200,
        true,
        false,
    );
    assert!(state.autoseq);
    assert_eq!(state.seq_state, Ft8SeqState::ReplyArmed);
    assert_eq!(state.status, "Reply armed for K1ABC; RX/TX set to 1200 Hz");
    state.arm_reply("K1ABC".to_string(), session_at(QsoStage::Calling, 0), 900, 1_500, false, true);
    assert_eq!(state.status, "Reply armed for K1ABC; RX moved to 900 Hz (TX held)");
    state.arm_reply("K1ABC".to_string(), session_at(QsoStage::Calling, 0), 900, 1_500, false, false);
    assert_eq!(
        state.status,
        "Reply armed for K1ABC; RX moved to 900 Hz (TX stays at 1500 Hz)"
    );
}

fn field(name: &str, sent: &str, received: &str) -> VoiceContestField {
    let mut field = VoiceContestField::new(name.to_string());
    field.sent = sent.to_string();
    field.received = received.to_string();
    field
}

#[test]
fn voice_contest_exchange_joins_filled_fields() {
    let fields = vec![field(" ST ", " WA ", ""), field("SER", "5", " 12 "), field("X", "", "")];
    assert_eq!(voice_contest_exchange(&fields, false), "ST=WA SER=5");
    assert_eq!(voice_contest_exchange(&fields, true), "SER=12");
    assert_eq!(voice_contest_exchange(&Vec::new(), true), "");
}

#[test]
fn voice_lookup_only_for_new_callsigns() {
    assert_eq!(voice_lookup_target(" k1abc ", ""), Some("K1ABC".to_string()));
    assert_eq!(voice_lookup_target(" k1abc ", "K1abc"), None);
    assert_eq!(voice_lookup_target("hello", ""), None);
}

#[test]
fn ft8_conversation_follows_target_then_session_then_selection() {
    let session = Some(session_at(QsoStage::ReportSent, 0));
    assert_eq!(
        ft8_conversation_target(&Some("W1AW".to_string()), &session, Some("N7UF K2BBB -10")),
        Some("W1AW".to_string())
    );
    assert_eq!(
        ft8_conversation_target(&None, &session, Some("N7UF K2BBB -10")),
        Some("K1ABC".to_string())
    );
    assert_eq!(
        ft8_conversation_target(&None, &None, Some("N7UF K2BBB -10")),
        Some("K2BBB".to_string())
    );
    assert_eq!(ft8_conversation_target(&None, &None, Some("garbage")), None);
    assert_eq!(ft8_conversation_target(&None, &None, None), None);
}

fn digital_state() -> DigitalTxState {
    DigitalTxState {
        suppress_canceled_events: false,
        started: None,
        queued_message: None,
        last_tx_message: None,
        ft4_autoseq: true,
        ft4_stop_policy: AutoTxStopPolicy::Continuous,
        native_autoseq_mode: None,
        native_stop_policy: AutoTxStopPolicy::Continuous,
        seq_target: Some("K1ABC".to_string()),
    }
}

#[test]
fn digital_tx_gate_checks_in_order() {
    assert_eq!(
        digital_tx_gate(true, true, true, false, WorkspaceMode::Ft4, false),
        Err(DigitalTxRefusal::CancellationSettling)
    );
    assert_eq!(
        digital_tx_gate(false, true, false, false, WorkspaceMode::Ft4, false),
        Err(DigitalTxRefusal::OtherTransmissionActive)
    );
    assert_eq!(
        digital_tx_gate(false, false, false, false, WorkspaceMode::Ft4, false),
        Err(DigitalTxRefusal::RadioUnavailable)
    );
    assert_eq!(
        digital_tx_gate(false, false, false, true, WorkspaceMode::Sstv, false),
        Err(DigitalTxRefusal::BackendUnavailable)
    );
    assert_eq!(digital_tx_gate(false, false, false, true, WorkspaceMode::Cw, false), Ok(()));
    assert_eq!(digital_tx_gate(false, false, false, true, WorkspaceMode::Ft4, true), Ok(()));
    assert_eq!(
        DigitalTxRefusal::OtherTransmissionActive.message(),
        "TX not queued: another transmission is active"
    );
}

#[test]
fn digital_tx_counts_attempts_and_logs_the_final_exchange() {
    let mut state = digital_state();
    state.record_queued(" K1ABC N7UF RR73 ");
    let mut slot = Some(session_at(QsoStage::FinalSent, 1));
    let started = DigitalTxEvent::AudioStarted(WorkspaceMode::Ft4, 12);
    assert_eq!(state.session_mode(&started), Some(WorkspaceMode::Ft4));
    let effects = state.apply_tx_event(started, &mut slot);
    assert_eq!(effects.attempts, Some((WorkspaceMode::Ft4, 2)));
    assert_eq!(
        effects.on_air,
        Some((WorkspaceMode::Ft4, 12, "K1ABC N7UF RR73".to_string()))
    );
    assert_eq!(state.session_mode(&DigitalTxEvent::Complete), Some(WorkspaceMode::Ft4));
    let effects = state.apply_tx_event(DigitalTxEvent::Complete, &mut slot);
    assert_eq!(effects.last_tx, Some((WorkspaceMode::Ft4, 12)));
    let (mode, logged) = effects.logged.expect("QSO logged");
    assert_eq!(mode, WorkspaceMode::Ft4);
    assert_eq!(logged.target, "K1ABC");
    assert!(slot.is_none());
    assert!(state.seq_target.is_none());
    assert_eq!(state.last_tx_message.as_deref(), Some("K1ABC N7UF RR73"));
    match effects.note {
        Some(DigitalTxNote::Logged { mode, target, automatic_stopped }) => {
            assert_eq!(mode, WorkspaceMode::Ft4);
            assert_eq!(target, "K1ABC");
            assert!(!automatic_stopped);
        }
        other => panic!("unexpected note {other:?}"),
    }
}

#[test]
fn digital_tx_pauses_ft4_after_the_next_transmission() {
    let mut state = digital_state();
    state.ft4_stop_policy = AutoTxStopPolicy::AfterNextTx;
    let mut slot = None;
    state.apply_tx_event(DigitalTxEvent::AudioStarted(WorkspaceMode::Ft4, 20), &mut slot);
    let effects = state.apply_tx_event(DigitalTxEvent::Complete, &mut slot);
    assert!(effects.persist_paused);
    assert!(matches!(effects.note, Some(DigitalTxNote::Ft4Paused)));
    assert!(!state.ft4_autoseq);
    assert_eq!(state.ft4_stop_policy, AutoTxStopPolicy::Continuous);
}

#[test]
fn digital_tx_failure_drops_every_session() {
    let mut state = digital_state();
    state.native_autoseq_mode = Some(WorkspaceMode::Q65);
    let mut slot = Some(session_at(QsoStage::ReportSent, 1));
    state.apply_tx_event(DigitalTxEvent::AudioStarted(WorkspaceMode::Q65, 3), &mut slot);
    let effects = state.apply_tx_event(DigitalTxEvent::Failed("no audio".to_string()), &mut slot);
    assert!(effects.drop_all_sessions);
    assert!(slot.is_none());
    assert!(!state.ft4_autoseq && state.native_autoseq_mode.is_none());
    assert!(state.started.is_none());
}

#[test]
fn digital_tx_stop_waits_for_the_cancelled_worker() {
    let mut state = digital_state();
    state.record_queued("CQ N7UF CN84");
    state.stop(false);
    assert!(state.suppress_canceled_events);
    assert!(state.queued_message.is_none());
    let mut slot = None;
    let started = DigitalTxEvent::AudioStarted(WorkspaceMode::Ft4, 30);
    assert_eq!(state.session_mode(&started), None);
    let effects = state.apply_tx_event(started, &mut slot);
    assert!(effects.note.is_none() && !effects.clear_abort);
    let effects = state.apply_tx_event(DigitalTxEvent::Complete, &mut slot);
    assert!(effects.clear_abort);
    assert!(!state.suppress_canceled_events);
}

fn voice_form() -> VoiceQsoForm {
    VoiceQsoForm {
        callsign: " k1abc ".to_string(),
        grid: " fn42 ".to_string(),
        state: " ma ".to_string(),
        rst_sent: " 59 ".to_string(),
        rst_received: " 57 ".to_string(),
        serial_sent: " +12 ".to_string(),
        serial_received: "-0".to_string(),
        notes: " nice signal ".to_string(),
        contest_fields: vec![field("ST", "WA", "MA")],
    }
}

#[test]
fn voice_qso_entry_normalizes_the_form() {
    let entry = voice_qso_entry(&voice_form(), "POTA");
    assert_eq!(entry.callsign, "K1ABC");
    assert_eq!(entry.mode, "SSB");
    assert_eq!(entry.operation_mode, "POTA");
    assert_eq!(entry.grid, "FN42");
    assert_eq!(entry.state, "MA");
    assert_eq!(entry.report_sent, "59");
    assert_eq!(entry.report_received, "57");
    assert_eq!(entry.contest_serial_sent, Some(12));
    assert_eq!(entry.contest_serial_received, None);
    assert_eq!(entry.contest_exchange_sent, "ST=WA");
    assert_eq!(entry.contest_exchange_received, "ST=MA");
    assert_eq!(entry.notes, "nice signal");
    let mut form = voice_form();
    form.serial_sent = "4294967295".to_string();
    form.serial_received = "4294967296".to_string();
    let entry = voice_qso_entry(&form, "General");
    assert_eq!(entry.contest_serial_sent, Some(u32::MAX));
    assert_eq!(entry.contest_serial_received, None);
}

#[test]
fn voice_form_keeps_reports_and_fields_after_logging() {
    let mut form = voice_form();
    form.clear_after_logging();
    assert!(form.callsign.is_empty() && form.grid.is_empty() && form.state.is_empty());
    assert!(form.serial_sent.is_empty() && form.serial_received.is_empty() && form.notes.is_empty());
    assert_eq!(form.rst_sent, " 59 ");
    assert_eq!(form.contest_fields.len(), 1);
}

fn mode_decode(mode: WorkspaceMode, message: &str, freq_hz: u32, period: u64) -> ModeDecode {
    ModeDecode {
        mode,
        entry: decode(message, -5, freq_hz, period),
    }
}

#[test]
fn native_decodes_are_handed_out_once() {
    let mut seen = Vec::new();
    let batch = vec![
        mode_decode(WorkspaceMode::Ft4, "CQ K1ABC FN42", 900, 11),
        mode_decode(WorkspaceMode::Q65, "CQ W1AW FN31", 900, 11),
        mode_decode(WorkspaceMode::Ft4, "CQ K1ABC FN42", 900, 11),
        mode_decode(WorkspaceMode::Ft4, "CQ K1ABC FN42", 950, 11),
    ];
    let fresh = take_fresh_decodes(&mut seen, WorkspaceMode::Ft4, &batch);
    assert_eq!(fresh.len(), 2);
    assert_eq!((fresh[0].freq_hz, fresh[1].freq_hz), (900, 950));
    assert_eq!(seen.len(), 2);
    let again = take_fresh_decodes(&mut seen, WorkspaceMode::Ft4, &batch);
    assert!(again.is_empty());
    let q65 = take_fresh_decodes(&mut seen, WorkspaceMode::Q65, &batch);
    assert_eq!(q65.len(), 1);
    assert_eq!(q65[0].message, "CQ W1AW FN31");
}

#[test]
fn seen_decodes_are_pruned_only_when_many() {
    let mut seen: Vec<SeenDecode> = (0..1_001u64)
        .map(|period| SeenDecode {
            mode: WorkspaceMode::Ft4,
            period,
            freq_hz: 1_000,
            message: "CQ K1ABC FN42".to_string(),
        })
        .collect();
    prune_seen_decodes(&mut seen, &vec![decode("CQ K1ABC FN42", 0, 1_000, 1_000)]);
    assert_eq!(seen.len(), 101);
    assert_eq!(seen[0].period, 900);
    let mut few = seen.clone();
    prune_seen_decodes(&mut few, &vec![decode("x", 0, 1, 5_000)]);
    assert_eq!(few.len(), 101);
}

#[test]
fn ft8_tx_chat_skips_repeats_and_keeps_a_hundred_lines() {
    let line = |period: u64, message: &str| Ft8TxChatEntry {
        period,
        utc: "12:00:00.000".to_string(),
        message: message.to_string(),
    };
    let mut chat = Vec::new();
    record_ft8_tx_chat(&mut chat, line(1, "CQ N7UF CN84"));
    record_ft8_tx_chat(&mut chat, line(1, "CQ N7UF CN84"));
    assert_eq!(chat.len(), 1);
    record_ft8_tx_chat(&mut chat, line(3, "CQ N7UF CN84"));
    assert_eq!(chat.len(), 2);
    for period in 10..120u64 {
        record_ft8_tx_chat(&mut chat, line(period, "K1ABC N7UF -07"));
    }
    assert_eq!(chat.len(), TX_CHAT_CAPACITY);
    assert_eq!(chat[0].period, 20);
    assert_eq!(chat.last().map(|entry| entry.period), Some(119));
}

#[test]
fn digital_notes_read_as_status_lines() {
    assert_eq!(
        DigitalTxNote::OnAir(WorkspaceMode::Ft4).status("FT4"),
        "🔥 FT4 waveform on the air"
    );
    assert_eq!(
        DigitalTxNote::Logged {
            mode: WorkspaceMode::Q65,
            target: "K1ABC".to_string(),
            automatic_stopped: true,
        }
        .status("Q65"),
        "🏁 Q65 QSO with K1ABC complete and logged · automatic TX stopped"
    );
    assert_eq!(
        DigitalTxNote::ReceiverBack.status(""),
        "📡 TX complete · receiver back on watch"
    );
    assert_eq!(
        DigitalTxNote::Failed("no audio".to_string()).status(""),
        "⚠ TX failed · no audio"
    );
}

#[test]
fn native_sequencer_answers_a_repeated_decode_once() {
    let mut seen = Vec::new();
    let mut session = None;
    let batch = vec![mode_decode(WorkspaceMode::Ft4, "N7UF K1ABC FN42", 1_200, 11)];
    let outcome = handle_native_decodes(
        WorkspaceMode::Ft4,
        &batch,
        &mut seen,
        None,
        &native_settings(),
        &mut session,
    );
    assert!(matches!(outcome.step, NativeSeqStep::Reply { .. }));
    let outcome = handle_native_decodes(
        WorkspaceMode::Ft4,
        &batch,
        &mut seen,
        None,
        &native_settings(),
        &mut session,
    );
    assert!(matches!(outcome.step, NativeSeqStep::Idle));
    assert_eq!(session.expect("session kept").stage, QsoStage::ReportSent);
}
