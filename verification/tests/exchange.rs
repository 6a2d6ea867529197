use qsonaut_gui::modes::exchange::{
    callsign_eq, is_probable_callsign, parse_message, select_candidate, should_finalize_after_tx,
    should_repeat_cq, should_retry_after_decode, AutoReplyPolicy, AutoTxStopPolicy, Exchange,
    QsoSession, QsoStage, ReplyCandidate, MAX_ATTEMPTS_PER_EXCHANGE,
};

fn candidate(index: usize, snr_db: i8, freq_hz: u32, text: &str) -> ReplyCandidate {
    ReplyCandidate {
        index,
        snr_db,
        freq_hz,
        parsed: parse_message(text).expect("parsed message"),
    }
}

#[test]
fn parses_standard_message_roles_and_cq_qualifiers() {
    let directed = parse_message("N7UF K1ABC -10").unwrap();
    assert_eq!(directed.to.as_deref(), Some("N7UF"));
    assert_eq!(directed.from, "K1ABC");
    assert!(directed.directed_to("N7UF"));
    assert!(!directed.directed_away_from("N7UF"));

    let other = parse_message("W9XYZ K1ABC -10").unwrap();
    assert!(other.directed_away_from("N7UF"));

    let cq = parse_message("CQ POTA K1ABC FN42").unwrap();
    assert!(cq.is_cq);
    assert_eq!(cq.from, "K1ABC");
    assert_eq!(cq.exchange, Exchange::Grid("FN42".into()));
}

#[test]
fn ranks_reply_candidates_deterministically() {
    let candidates = || {
        vec![
            candidate(3, -12, 800, "N7UF K1AAA CN84"),
            candidate(4, -3, 1600, "N7UF K2BBB CN85"),
            candidate(5, -20, 1510, "N7UF K3CCC CN86"),
        ]
    };
    assert_eq!(
        select_candidate(candidates(), AutoReplyPolicy::First, 1500)
            .unwrap()
            .parsed
            .from,
        "K1AAA"
    );
    assert_eq!(
        select_candidate(candidates(), AutoReplyPolicy::Strongest, 1500)
            .unwrap()
            .parsed
            .from,
        "K2BBB"
    );
    assert_eq!(
        select_candidate(candidates(), AutoReplyPolicy::Weakest, 1500)
            .unwrap()
            .parsed
            .from,
        "K3CCC"
    );
    assert_eq!(
        select_candidate(candidates(), AutoReplyPolicy::Closest, 1500)
            .unwrap()
            .parsed
            .from,
        "K3CCC"
    );
}

#[test]
fn retries_only_after_the_receive_slot_following_tx() {
    assert!(!should_retry_after_decode(Some(101), 101));
    assert!(should_retry_after_decode(Some(101), 102));
    assert!(!should_retry_after_decode(Some(101), 103));
    assert!(!should_retry_after_decode(None, 102));
}

#[test]
fn cq_repeats_only_after_its_opposite_receive_period() {
    assert!(should_repeat_cq(true, true, Some(100), Some(101)));
    assert!(!should_repeat_cq(false, true, Some(100), Some(101)));
    assert!(!should_repeat_cq(true, false, Some(100), Some(101)));
    assert!(!should_repeat_cq(true, true, Some(100), Some(102)));
    assert!(!should_repeat_cq(true, true, None, Some(101)));
}

#[test]
fn retry_guard_is_saturating_and_never_wraps_period_math() {
    assert!(should_retry_after_decode(Some(u64::MAX), u64::MAX));
    assert!(!should_retry_after_decode(Some(u64::MAX), u64::MAX - 1));
}

#[test]
fn advances_standard_qso_exchange() {
    let mut session = QsoSession::start("K1ABC".into(), 100);
    let grid = parse_message("N7UF K1ABC FN42").unwrap();
    assert_eq!(
        session
            .response_to(&grid, "N7UF", "CN84", -7, 100)
            .as_deref(),
        Some("K1ABC N7UF -07")
    );
    let report = parse_message("N7UF K1ABC -12").unwrap();
    assert_eq!(
        session
            .response_to(&report, "N7UF", "CN84", -9, 102)
            .as_deref(),
        Some("K1ABC N7UF R-09")
    );
    let roger = parse_message("N7UF K1ABC R-08").unwrap();
    assert_eq!(
        session
            .response_to(&roger, "N7UF", "CN84", -5, 104)
            .as_deref(),
        Some("K1ABC N7UF RR73")
    );
    let done = parse_message("N7UF K1ABC RR73").unwrap();
    assert_eq!(session.response_to(&done, "N7UF", "CN84", -5, 106), None);
    assert_eq!(session.stage, QsoStage::Complete);
    assert_eq!(session.started_period, 100);
    assert_eq!(session.last_rx_period, 106);
    assert_eq!(session.remote_grid.as_deref(), Some("FN42"));
    assert_eq!(session.report_sent, Some(-9));
    assert_eq!(session.report_received, Some(-8));
    assert_eq!(session.tx_attempts, 0);
}

#[test]
fn new_exchange_step_resets_attempt_counter_but_repeats_do_not() {
    let mut session = QsoSession::start("K1ABC".into(), 100);
    let grid = parse_message("N7UF K1ABC FN42").unwrap();
    session.response_to(&grid, "N7UF", "CN84", -7, 100);
    session.tx_attempts = 5;

    session.response_to(&grid, "N7UF", "CN84", -8, 102);
    assert_eq!(session.tx_attempts, 5);

    let report = parse_message("N7UF K1ABC -12").unwrap();
    session.response_to(&report, "N7UF", "CN84", -9, 104);
    assert_eq!(session.tx_attempts, 0);
}

#[test]
fn final_outbound_exchange_completes_the_local_qso() {
    assert!(should_finalize_after_tx(QsoStage::FinalSent));
    assert!(!should_finalize_after_tx(QsoStage::RogerReportSent));
    assert!(!should_finalize_after_tx(QsoStage::Complete));
}

#[test]
fn labels_every_stop_and_reply_policy() {
    let stops: Vec<&str> = AutoTxStopPolicy::ALL.iter().map(|p| p.label()).collect();
    assert_eq!(
        stops,
        ["Keep running", "Stop after next TX", "Stop after current QSO"]
    );
    let replies: Vec<&str> = AutoReplyPolicy::ALL.iter().map(|p| p.label()).collect();
    assert_eq!(
        replies,
        ["First decoded", "Strongest", "Weakest", "Closest to RX"]
    );
    assert_eq!(AutoTxStopPolicy::default(), AutoTxStopPolicy::Continuous);
    assert_eq!(AutoReplyPolicy::default(), AutoReplyPolicy::First);
    assert_eq!(MAX_ATTEMPTS_PER_EXCHANGE, 6);
}

#[test]
fn reads_every_exchange_form() {
    let exchange = |text: &str| parse_message(text).unwrap().exchange;
    assert_eq!(exchange("N7UF K1ABC RRR"), Exchange::Roger);
    assert_eq!(exchange("N7UF K1ABC RR73"), Exchange::Roger73);
    assert_eq!(exchange("N7UF K1ABC 73"), Exchange::SeventyThree);
    assert_eq!(exchange("N7UF K1ABC fn42ab"), Exchange::Grid("FN42AB".into()));
    assert_eq!(exchange("N7UF K1ABC R+05"), Exchange::RogerReport(5));
    assert_eq!(exchange("N7UF K1ABC +12"), Exchange::Report(12));
    assert_eq!(exchange("N7UF K1ABC R200"), Exchange::Other("R200".into()));
    assert_eq!(exchange("N7UF K1ABC -129"), Exchange::Other("-129".into()));
    assert_eq!(exchange("N7UF K1ABC -128"), Exchange::Report(-128));
    assert_eq!(exchange("N7UF K1ABC"), Exchange::Absent);
    assert_eq!(exchange("CQ K1ABC"), Exchange::Absent);
}

#[test]
fn rejects_messages_without_two_callsigns() {
    assert!(parse_message("").is_none());
    assert!(parse_message("   ").is_none());
    assert!(parse_message("CQ DX").is_none());
    assert!(parse_message("N7UF FN42").is_none());
    assert!(parse_message("hello world").is_none());
    let qrz = parse_message("  qrz w1aw  ").unwrap();
    assert!(qrz.is_cq);
    assert_eq!(qrz.raw, "QRZ W1AW");
    assert_eq!(qrz.from, "W1AW");
}

#[test]
fn callsign_shape_and_hash_brackets() {
    assert!(is_probable_callsign("<K1ABC>"));
    assert!(is_probable_callsign("VE3/K1ABC"));
    assert!(!is_probable_callsign("FN42"));
    assert!(!is_probable_callsign("POTA"));
    assert!(!is_probable_callsign("K1"));
    assert!(!is_probable_callsign("ABCDEF"));
    assert!(!is_probable_callsign("12345"));
    assert!(callsign_eq("<k1abc>", "K1ABC"));
    assert!(!callsign_eq(" K1ABC", "K1ABC"));
}

#[test]
fn answers_a_cq_with_the_station_grid_and_ignores_strangers() {
    let mut session = QsoSession::start("K1ABC".into(), 7);
    assert_eq!(session.tx_parity, 0);
    let cq = parse_message("CQ K1ABC FN42").unwrap();
    assert_eq!(
        session.response_to(&cq, "n7uf", " cn84 ", 3, 9).as_deref(),
        Some("K1ABC N7UF CN84")
    );
    assert_eq!(session.stage, QsoStage::GridSent);
    assert_eq!(session.tx_parity, 0);
    let stranger = parse_message("N7UF W9XYZ -10").unwrap();
    assert_eq!(session.response_to(&stranger, "N7UF", "CN84", 3, 11), None);
    assert_eq!(session.last_rx_period, 9);
    let elsewhere = parse_message("W9XYZ K1ABC -10").unwrap();
    assert_eq!(session.response_to(&elsewhere, "N7UF", "CN84", 3, 11), None);
    assert_eq!(session.stage, QsoStage::GridSent);
    let loud = parse_message("N7UF K1ABC -10").unwrap();
    assert_eq!(
        session.response_to(&loud, "N7UF", "CN84", 99, 12).as_deref(),
        Some("K1ABC N7UF R+49")
    );
    let roger = parse_message("N7UF K1ABC RRR").unwrap();
    assert_eq!(
        session.response_to(&roger, "N7UF", "CN84", -80, 14).as_deref(),
        Some("K1ABC N7UF 73")
    );
    assert_eq!(session.stage, QsoStage::FinalSent);
    assert_eq!(session.tx_parity, 1);
}

#[test]
fn completed_session_ignores_further_messages() {
    let mut session = QsoSession::start("K1ABC".into(), 100);
    let done = parse_message("N7UF K1ABC 73").unwrap();
    assert_eq!(session.response_to(&done, "N7UF", "CN84", 0, 101), None);
    assert_eq!(session.stage, QsoStage::Complete);
    let again = parse_message("N7UF K1ABC -10").unwrap();
    assert_eq!(session.response_to(&again, "N7UF", "CN84", 0, 103), None);
    assert_eq!(session.last_rx_period, 101);
}

#[test]
fn no_candidate_means_no_reply_and_ties_keep_decode_order() {
    assert!(select_candidate(Vec::new(), AutoReplyPolicy::Strongest, 1500).is_none());
    let tied = vec![
        candidate(9, -5, 1400, "N7UF K1AAA CN84"),
        candidate(2, -5, 1600, "N7UF K2BBB CN85"),
    ];
    assert_eq!(
        select_candidate(tied.clone(), AutoReplyPolicy::Strongest, 1500)
            .unwrap()
            .parsed
            .from,
        "K2BBB"
    );
    assert_eq!(
        select_candidate(tied, AutoReplyPolicy::Closest, 1500)
            .unwrap()
            .parsed
            .from,
        "K2BBB"
    );
}
