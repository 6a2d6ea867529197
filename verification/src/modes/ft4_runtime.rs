//! Decisions of the automatic sequencer shared by FT4 and the other native
//! digital modes.
use crate::modes::exchange::{
    message_of, opt_chars, parse_message, response, session_start, should_repeat_cq,
    AutoReplyPolicy, AutoTxStopPolicy, QsoSession, QsoSessionView, QsoStage,
};
use crate::modes::ft8_runtime::{
    any_eligible, chosen_is_unique, decode_views, is_chosen, opt_session, pick_caller, retry_due,
    Answering, Ft8DecodeEntry, Ft8DecodeView,
};
use crate::modes::workspace::WorkspaceMode;
use crate::text;
use crate::text::{chars_eq, chars_of, starts_with_lit, strip_chars, CharClass};
use vstd::prelude::*;

verus! {

/// The station settings and transmitter state the native-mode sequencer
/// reads.
#[derive(Debug, Clone)]
pub struct NativeSequencerSettings {
    pub my_call: String,
    pub my_grid: String,
    /// Automatic sequencing is on for this mode.
    pub auto_sequence: bool,
    /// A transmission is on the air.
    pub tx_active: bool,
    /// The last text sent, if any.
    pub last_tx_message: Option<String>,
    pub auto_answer_cq: bool,
    pub auto_reply_policy: AutoReplyPolicy,
    pub rx_tone_hz: u32,
    /// The FT4 automatic-sequencing switch, which also governs CQ repeats.
    pub ft4_autoseq: bool,
    /// The last FT4 transmit period, against which a CQ repeat is timed.
    pub ft4_last_tx_period: Option<u64>,
    /// The last transmit period of this mode, against which a retry is timed.
    pub last_tx_period: Option<u64>,
    /// Unanswered transmissions counted for this mode; `None` when the
    /// session keeps its own count.
    pub attempts: Option<u8>,
    /// Unanswered transmissions after which the sequence gives up.
    pub max_attempts: u8,
    /// The text in the compose box.
    pub compose: String,
    /// When automatic transmission stops by itself.
    pub stop_policy: AutoTxStopPolicy,
}

/// What the native sequencer sends next.
#[derive(Debug, Clone)]
pub enum NativeSeqStep {
    /// Nothing to transmit.
    Idle,
    /// Send `message` next, answering at `freq_hz`.
    Reply { message: String, freq_hz: u32 },
    /// Nobody answered the CQ: call again.
    RepeatCq,
    /// Too many unanswered transmissions: the session is dropped and
    /// automatic sequencing stops.
    GiveUp,
    /// Nothing came back: send the last exchange again.
    RepeatLast,
}

pub enum NativeSeqStepView {
    Idle,
    Reply { message: Seq<char>, freq_hz: u32 },
    RepeatCq,
    GiveUp,
    RepeatLast,
}

/// Everything the native sequencer decided about one batch of decodes.
#[derive(Debug, Clone)]
pub struct NativeSeqOutcome {
    /// The caller picked for a new session, if one was opened.
    pub selected: Option<String>,
    /// The session that was completed by this batch, to be logged.
    pub completed: Option<QsoSession>,
    /// The completed QSO also stops automatic transmission.
    pub stop_after_completion: bool,
    pub step: NativeSeqStep,
}

pub struct NativeSeqOutcomeView {
    pub selected: Option<Seq<char>>,
    pub completed: Option<QsoSessionView>,
    pub stop_after_completion: bool,
    pub step: NativeSeqStepView,
}

pub open spec fn step_view(s: NativeSeqStep) -> NativeSeqStepView {
    match s {
        NativeSeqStep::Idle => NativeSeqStepView::Idle,
        NativeSeqStep::Reply { message, freq_hz } => NativeSeqStepView::Reply {
            message: message@,
            freq_hz,
        },
        NativeSeqStep::RepeatCq => NativeSeqStepView::RepeatCq,
        NativeSeqStep::GiveUp => NativeSeqStepView::GiveUp,
        NativeSeqStep::RepeatLast => NativeSeqStepView::RepeatLast,
    }
}

pub open spec fn outcome_view(o: NativeSeqOutcome) -> NativeSeqOutcomeView {
    NativeSeqOutcomeView {
        selected: opt_chars(o.selected),
        completed: opt_session(o.completed),
        stop_after_completion: o.stop_after_completion,
        step: step_view(o.step),
    }
}

/// The last transmission was a CQ, so a caller may answer it.
pub open spec fn awaiting_cq_caller(last_tx_message: Option<Seq<char>>) -> bool {
    last_tx_message matches Some(m) && text::starts_with(m, "CQ "@)
}

/// Messages the native sequencer answers on its own: those addressed to us
/// while our CQ waits for a caller, and CQ calls when the operator asked for
/// it.
pub open spec fn native_answering(st: NativeSequencerSettings) -> Answering {
    Answering {
        directed: awaiting_cq_caller(opt_chars(st.last_tx_message)),
        cq: st.auto_answer_cq,
    }
}

/// How reading a batch of decodes into an open session ended.
pub enum ScanEnd {
    Nothing,
    Completed,
    Reply { message: Seq<char>, freq_hz: u32 },
}

/// The session after reading the decodes in order until one of them
/// completes the QSO or calls for a reply.
pub open spec fn native_scan(
    s: QsoSessionView,
    ds: Seq<Ft8DecodeView>,
    me: Seq<char>,
    grid: Seq<char>,
) -> (QsoSessionView, ScanEnd)
    decreases ds.len(),
{
    if ds.len() == 0 {
        (s, ScanEnd::Nothing)
    } else {
        let d = ds[0];
        match message_of(d.message) {
            None => native_scan(s, ds.drop_first(), me, grid),
            Some(p) => {
                let (s1, r) = response(s, p, me, grid, d.snr_db, d.period);
                if s1.stage == QsoStage::Complete {
                    (s1, ScanEnd::Completed)
                } else {
                    match r {
                        Some(m) => (s1, ScanEnd::Reply { message: m, freq_hz: d.freq_hz }),
                        None => native_scan(s1, ds.drop_first(), me, grid),
                    }
                }
            },
        }
    }
}

pub open spec fn cq_repeat_due(
    autoseq: bool,
    st: NativeSequencerSettings,
    completed_period: Option<u64>,
) -> bool {
    autoseq && awaiting_cq_caller(opt_chars(st.last_tx_message)) && (completed_period matches Some(
        cp,
    ) && retry_due(st.ft4_last_tx_period, cp))
}

pub open spec fn outcome(
    selected: Option<Seq<char>>,
    completed: Option<QsoSessionView>,
    stop: bool,
    step: NativeSeqStepView,
) -> NativeSeqOutcomeView {
    NativeSeqOutcomeView { selected, completed, stop_after_completion: stop, step }
}

/// What the native sequencer does with a batch of new decodes: the session
/// it keeps and its decisions. With sequencing on and the transmitter idle,
/// a caller is picked when no session is open; the session then reads the
/// decodes, and either replies, completes (and may stop automatic
/// transmission), or, once the receive period after our transmission ends
/// without an answer, repeats the last exchange or gives up after too many
/// attempts. Without a session an unanswered CQ is repeated.
pub open spec fn native_step(
    ds: Seq<Ft8DecodeView>,
    completed_period: Option<u64>,
    st: NativeSequencerSettings,
    session: Option<QsoSessionView>,
) -> (Option<QsoSessionView>, NativeSeqOutcomeView) {
    let me = st.my_call@;
    let answers = native_answering(st);
    if !st.auto_sequence || st.tx_active {
        (session, outcome(None, None, false, NativeSeqStepView::Idle))
    } else {
        let (opened, selected) = match session {
            Some(s) => (Some(s), None),
            None => if any_eligible(ds, me, answers) {
                let i = choose|i: int|
                    is_chosen(ds, i, me, answers, st.auto_reply_policy, st.rx_tone_hz);
                let p = message_of(ds[i].message).unwrap();
                (Some(session_start(p.from, ds[i].period)), Some(p.from))
            } else {
                (None, None)
            },
        };
        match opened {
            None => (
                None,
                outcome(
                    selected,
                    None,
                    false,
                    if cq_repeat_due(st.ft4_autoseq, st, completed_period) {
                        NativeSeqStepView::RepeatCq
                    } else {
                        NativeSeqStepView::Idle
                    },
                ),
            ),
            Some(s) => {
                let (s1, end) = native_scan(s, ds, me, st.my_grid@);
                match end {
                    ScanEnd::Reply { message, freq_hz } => (
                        Some(s1),
                        outcome(selected, None, false, NativeSeqStepView::Reply { message, freq_hz }),
                    ),
                    ScanEnd::Completed => {
                        let stop = st.stop_policy == AutoTxStopPolicy::AfterCurrentQso;
                        (
                            None,
                            outcome(
                                selected,
                                Some(s1),
                                stop,
                                if cq_repeat_due(st.ft4_autoseq && !stop, st, completed_period) {
                                    NativeSeqStepView::RepeatCq
                                } else {
                                    NativeSeqStepView::Idle
                                },
                            ),
                        )
                    },
                    ScanEnd::Nothing => {
                        let attempts = match st.attempts {
                            Some(a) => a,
                            None => s1.tx_attempts,
                        };
                        if completed_period matches Some(cp) && retry_due(st.last_tx_period, cp) {
                            if attempts >= st.max_attempts {
                                (None, outcome(selected, None, false, NativeSeqStepView::GiveUp))
                            } else if text::trim(st.compose@).len() > 0 {
                                (
                                    Some(s1),
                                    outcome(selected, None, false, NativeSeqStepView::RepeatLast),
                                )
                            } else {
                                (Some(s1), outcome(selected, None, false, NativeSeqStepView::Idle))
                            }
                        } else {
                            (Some(s1), outcome(selected, None, false, NativeSeqStepView::Idle))
                        }
                    },
                }
            },
        }
    }
}

/// How [`scan_native_session`] ended.
enum ScanStop {
    Nothing,
    Completed,
    Reply { message: String, freq_hz: u32 },
}

spec fn scan_stop_view(e: ScanStop) -> ScanEnd {
    match e {
        ScanStop::Nothing => ScanEnd::Nothing,
        ScanStop::Completed => ScanEnd::Completed,
        ScanStop::Reply { message, freq_hz } => ScanEnd::Reply { message: message@, freq_hz },
    }
}

fn scan_native_session(
    session: &mut QsoSession,
    decodes: &Vec<Ft8DecodeEntry>,
    me: &str,
    grid: &str,
) -> (r: ScanStop)
    ensures
        (final(session)@, scan_stop_view(r)) == native_scan(
            old(session)@,
            decode_views(decodes@),
            me@,
            grid@,
        ),
{
    let ghost dv = decode_views(decodes@);
    let ghost start = session@;
    let mut i: usize = 0;
    assert(dv.skip(0) =~= dv);
    while i < decodes.len()
        invariant
            i <= decodes.len(),
            dv == decode_views(decodes@),
            start == old(session)@,
            native_scan(start, dv, me@, grid@) == native_scan(
                session@,
                dv.skip(i as int),
                me@,
                grid@,
            ),
        decreases decodes.len() - i,
    {
        let ghost rest = dv.skip(i as int);
        assert(rest[0] == dv[i as int]);
        assert(rest.drop_first() =~= dv.skip(i + 1));
        assert(dv[i as int].message == decodes@[i as int].message@);
        assert(dv[i as int].snr_db == decodes@[i as int].snr_db);
        assert(dv[i as int].period == decodes@[i as int].period);
        assert(dv[i as int].freq_hz == decodes@[i as int].freq_hz);
        let entry = &decodes[i];
        match parse_message(entry.message.as_str()) {
            Some(p) => {
                let reply = session.response_to(&p, me, grid, entry.snr_db, entry.period);
                if session.stage == QsoStage::Complete {
                    return ScanStop::Completed;
                }
                match reply {
                    Some(message) => {
                        return ScanStop::Reply { message, freq_hz: entry.freq_hz };
                    },
                    None => {},
                }
            },
            None => {},
        }
        i = i + 1;
    }
    assert(dv.skip(i as int) =~= Seq::<Ft8DecodeView>::empty());
    ScanStop::Nothing
}

fn finish(
    selected: Option<String>,
    completed: Option<QsoSession>,
    stop: bool,
    step: NativeSeqStep,
) -> (r: NativeSeqOutcome)
    ensures
        outcome_view(r) == outcome(opt_chars(selected), opt_session(completed), stop, step_view(step)),
{
    NativeSeqOutcome { selected, completed, stop_after_completion: stop, step }
}

/// Decides what the native-mode sequencer does with a batch of new decodes
/// of its mode and the end of a receive period (see [`native_step`]).
pub fn handle_native_sequence(
    decodes: &Vec<Ft8DecodeEntry>,
    completed_period: Option<u64>,
    settings: &NativeSequencerSettings,
    session: &mut Option<QsoSession>,
) -> (r: NativeSeqOutcome)
    ensures
        (opt_session(*final(session)), outcome_view(r)) == native_step(
            decode_views(decodes@),
            completed_period,
            *settings,
            opt_session(*old(session)),
        ),
{
    let ghost dv = decode_views(decodes@);
    if !settings.auto_sequence || settings.tx_active {
        return finish(None, None, false, NativeSeqStep::Idle);
    }
    let awaiting = match &settings.last_tx_message {
        Some(m) => starts_with_lit(&chars_of(m.as_str()), "CQ "),
        None => false,
    };
    let answers = Answering { directed: awaiting, cq: settings.auto_answer_cq };
    assert(answers == native_answering(*settings));
    let me = settings.my_call.as_str();
    let mut selected: Option<String> = None;
    if session.is_none() {
        match pick_caller(decodes, me, answers, settings.auto_reply_policy, settings.rx_tone_hz) {
            Some(sel) => {
                proof {
                    let i = choose|i: int|
                        is_chosen(dv, i, me@, answers, settings.auto_reply_policy, settings.rx_tone_hz);
                    chosen_is_unique(
                        dv,
                        i,
                        sel.index as int,
                        me@,
                        answers,
                        settings.auto_reply_policy,
                        settings.rx_tone_hz,
                    );
                    assert(dv[sel.index as int].period == decodes@[sel.index as int].period);
                }
                *session = Some(QsoSession::start(sel.parsed.from.clone(), decodes[sel.index].period));
                selected = Some(sel.parsed.from);
            },
            None => {},
        }
    }
    if session.is_none() {
        let step = if should_repeat_cq(
            settings.ft4_autoseq,
            awaiting,
            settings.ft4_last_tx_period,
            completed_period,
        ) {
            NativeSeqStep::RepeatCq
        } else {
            NativeSeqStep::Idle
        };
        return finish(selected, None, false, step);
    }
    let mut s = session.take().unwrap();
    match scan_native_session(&mut s, decodes, me, settings.my_grid.as_str()) {
        ScanStop::Reply { message, freq_hz } => {
            *session = Some(s);
            finish(selected, None, false, NativeSeqStep::Reply { message, freq_hz })
        },
        ScanStop::Completed => {
            let stop = settings.stop_policy == AutoTxStopPolicy::AfterCurrentQso;
            let step = if should_repeat_cq(
                settings.ft4_autoseq && !stop,
                awaiting,
                settings.ft4_last_tx_period,
                completed_period,
            ) {
                NativeSeqStep::RepeatCq
            } else {
                NativeSeqStep::Idle
            };
            finish(selected, Some(s), stop, step)
        },
        ScanStop::Nothing => {
            let attempts = match settings.attempts {
                Some(a) => a,
                None => s.tx_attempts,
            };
            let due = match completed_period {
                Some(period) => match settings.last_tx_period {
                    Some(last) => period == last.saturating_add(1),
                    None => false,
                },
                None => false,
            };
            if due && attempts >= settings.max_attempts {
                finish(selected, None, false, NativeSeqStep::GiveUp)
            } else if due && strip_chars(&chars_of(settings.compose.as_str()), CharClass::Whitespace).len() > 0 {
                *session = Some(s);
                finish(selected, None, false, NativeSeqStep::RepeatLast)
            } else {
                *session = Some(s);
                finish(selected, None, false, NativeSeqStep::Idle)
            }
        },
    }
}

/// A decode of one of the native modes, as the decoders report them.
#[derive(Debug, Clone)]
pub struct ModeDecode {
    pub mode: WorkspaceMode,
    pub entry: Ft8DecodeEntry,
}

/// A decode already handed to the sequencer: its mode, period, tone and
/// text.
#[derive(Debug, Clone)]
pub struct SeenDecode {
    pub mode: WorkspaceMode,
    pub period: u64,
    pub freq_hz: u32,
    pub message: String,
}

pub open spec fn seen_views(s: Seq<SeenDecode>) -> Seq<(WorkspaceMode, u64, u32, Seq<char>)> {
    s.map_values(|k: SeenDecode| (k.mode, k.period, k.freq_hz, k.message@))
}

pub open spec fn mode_decode_views(ds: Seq<ModeDecode>) -> Seq<(WorkspaceMode, Ft8DecodeView)> {
    ds.map_values(
        |d: ModeDecode|
            (
                d.mode,
                Ft8DecodeView {
                    message: d.entry.message@,
                    snr_db: d.entry.snr_db,
                    freq_hz: d.entry.freq_hz,
                    period: d.entry.period,
                },
            ),
    )
}

/// What identifies a decode of `mode` when it comes again.
pub open spec fn decode_key(mode: WorkspaceMode, d: Ft8DecodeView) -> (
    WorkspaceMode,
    u64,
    u32,
    Seq<char>,
) {
    (mode, d.period, d.freq_hz, d.message)
}

pub open spec fn decode_keys(mode: WorkspaceMode, f: Seq<Ft8DecodeView>) -> Seq<
    (WorkspaceMode, u64, u32, Seq<char>),
> {
    f.map_values(|d: Ft8DecodeView| decode_key(mode, d))
}

/// The decodes of `mode` in `ds` not seen before, in order (a decode
/// repeated within `ds` counts once), and the seen decodes with them added.
pub open spec fn fresh_of(
    seen: Seq<(WorkspaceMode, u64, u32, Seq<char>)>,
    mode: WorkspaceMode,
    ds: Seq<(WorkspaceMode, Ft8DecodeView)>,
) -> (Seq<(WorkspaceMode, u64, u32, Seq<char>)>, Seq<Ft8DecodeView>)
    decreases ds.len(),
{
    if ds.len() == 0 {
        (seen, seq![])
    } else {
        let (s1, f1) = fresh_of(seen, mode, ds.drop_last());
        let d = ds.last();
        if d.0 == mode && !s1.contains(decode_key(mode, d.1)) {
            (s1.push(decode_key(mode, d.1)), f1.push(d.1))
        } else {
            (s1, f1)
        }
    }
}

fn seen_contains(seen: &Vec<SeenDecode>, mode: WorkspaceMode, d: &Ft8DecodeEntry) -> (r: bool)
    ensures
        r == seen_views(seen@).contains(
            (mode, d.period, d.freq_hz, d.message@),
        ),
{
    let ghost sv = seen_views(seen@);
    let msg = chars_of(d.message.as_str());
    let mut i: usize = 0;
    while i < seen.len()
        invariant
            i <= seen.len(),
            sv == seen_views(seen@),
            msg@ == d.message@,
            forall|j: int| 0 <= j < i ==> sv[j] != (mode, d.period, d.freq_hz, d.message@),
        decreases seen.len() - i,
    {
        let k = &seen[i];
        if k.mode == mode && k.period == d.period && k.freq_hz == d.freq_hz && chars_eq(
            &chars_of(k.message.as_str()),
            &msg,
        ) {
            assert(sv[i as int] == (mode, d.period, d.freq_hz, d.message@));
            return true;
        }
        i = i + 1;
    }
    false
}

fn copy_decode(d: &Ft8DecodeEntry) -> (r: Ft8DecodeEntry)
    ensures
        r.message@ == d.message@,
        r.snr_db == d.snr_db,
        r.freq_hz == d.freq_hz,
        r.period == d.period,
{
    Ft8DecodeEntry {
        message: d.message.clone(),
        snr_db: d.snr_db,
        freq_hz: d.freq_hz,
        period: d.period,
    }
}

/// Hands out the decodes of `mode` that were not handed out before (see
/// [`fresh_of`]) and records them as seen.
pub fn take_fresh_decodes(
    seen: &mut Vec<SeenDecode>,
    mode: WorkspaceMode,
    decodes: &Vec<ModeDecode>,
) -> (r: Vec<Ft8DecodeEntry>)
    ensures
        (seen_views(final(seen)@), decode_views(r@)) == fresh_of(
            seen_views(old(seen)@),
            mode,
            mode_decode_views(decodes@),
        ),
{
    let ghost start = seen_views(seen@);
    let ghost all = mode_decode_views(decodes@);
    let mut fresh: Vec<Ft8DecodeEntry> = Vec::new();
    let mut i: usize = 0;
    assert(all.subrange(0, 0) =~= Seq::<(WorkspaceMode, Ft8DecodeView)>::empty());
    assert(decode_views(fresh@) =~= Seq::<Ft8DecodeView>::empty());
    while i < decodes.len()
        invariant
            i <= decodes.len(),
            start == seen_views(old(seen)@),
            all == mode_decode_views(decodes@),
            (seen_views(seen@), decode_views(fresh@)) == fresh_of(
                start,
                mode,
                all.subrange(0, i as int),
            ),
        decreases decodes.len() - i,
    {
        let ghost next = all.subrange(0, i + 1);
        assert(next.drop_last() =~= all.subrange(0, i as int));
        assert(next.last() == all[i as int]);
        let d = &decodes[i];
        if d.mode == mode && !seen_contains(seen, mode, &d.entry) {
            let ghost sv = seen_views(seen@);
            let ghost fv = decode_views(fresh@);
            seen.push(
                SeenDecode {
                    mode,
                    period: d.entry.period,
                    freq_hz: d.entry.freq_hz,
                    message: d.entry.message.clone(),
                },
            );
            fresh.push(copy_decode(&d.entry));
            assert(seen_views(seen@) =~= sv.push(decode_key(mode, all[i as int].1)));
            assert(decode_views(fresh@) =~= fv.push(all[i as int].1));
        }
        i = i + 1;
    }
    assert(all.subrange(0, decodes.len() as int) =~= all);
    fresh
}

/// Most seen decodes kept before the old ones are forgotten.
pub const SEEN_DECODES_LIMIT: usize = 1_000;

/// The latest period among the decodes, 0 when there are none.
pub open spec fn latest_period(f: Seq<Ft8DecodeView>) -> u64
    decreases f.len(),
{
    if f.len() == 0 {
        0
    } else {
        let p = latest_period(f.drop_last());
        if f.last().period > p {
            f.last().period
        } else {
            p
        }
    }
}

/// The seen decodes of the last hundred periods before `latest`.
pub open spec fn keep_recent(
    s: Seq<(WorkspaceMode, u64, u32, Seq<char>)>,
    latest: u64,
) -> Seq<(WorkspaceMode, u64, u32, Seq<char>)>
    decreases s.len(),
{
    if s.len() == 0 {
        seq![]
    } else {
        let p = keep_recent(s.drop_last(), latest);
        if s.last().1 + 100 >= latest {
            p.push(s.last())
        } else {
            p
        }
    }
}

/// Keeps the set of seen decodes small: beyond [`SEEN_DECODES_LIMIT`]
/// entries, only those of the hundred periods before the latest fresh
/// decode stay.
pub fn prune_seen_decodes(seen: &mut Vec<SeenDecode>, fresh: &Vec<Ft8DecodeEntry>)
    ensures
        seen_views(final(seen)@) == (if old(seen)@.len() > SEEN_DECODES_LIMIT {
            keep_recent(seen_views(old(seen)@), latest_period(decode_views(fresh@)))
        } else {
            seen_views(old(seen)@)
        }),
{
    if seen.len() <= SEEN_DECODES_LIMIT {
        return;
    }
    let ghost fv = decode_views(fresh@);
    let mut latest: u64 = 0;
    let mut i: usize = 0;
    assert(fv.subrange(0, 0) =~= Seq::<Ft8DecodeView>::empty());
    while i < fresh.len()
        invariant
            i <= fresh.len(),
            fv == decode_views(fresh@),
            latest == latest_period(fv.subrange(0, i as int)),
        decreases fresh.len() - i,
    {
        assert(fv.subrange(0, i + 1).drop_last() =~= fv.subrange(0, i as int));
        if fresh[i].period > latest {
            latest = fresh[i].period;
        }
        i = i + 1;
    }
    assert(fv.subrange(0, fresh.len() as int) =~= fv);
    let ghost sv = seen_views(seen@);
    let mut old_seen: Vec<SeenDecode> = Vec::new();
    std::mem::swap(&mut old_seen, seen);
    let mut j: usize = 0;
    assert(sv.subrange(0, 0) =~= Seq::<(WorkspaceMode, u64, u32, Seq<char>)>::empty());
    assert(seen_views(seen@) =~= Seq::<(WorkspaceMode, u64, u32, Seq<char>)>::empty());
    while j < old_seen.len()
        invariant
            j <= old_seen.len(),
            sv == seen_views(old_seen@),
            seen_views(seen@) == keep_recent(sv.subrange(0, j as int), latest),
        decreases old_seen.len() - j,
    {
        assert(sv.subrange(0, j + 1).drop_last() =~= sv.subrange(0, j as int));
        let k = &old_seen[j];
        if latest <= 100 || k.period >= latest - 100 {
            let ghost before = seen_views(seen@);
            seen.push(
                SeenDecode {
                    mode: k.mode,
                    period: k.period,
                    freq_hz: k.freq_hz,
                    message: k.message.clone(),
                },
            );
            assert(seen_views(seen@) =~= before.push(sv[j as int]));
        }
        j = j + 1;
    }
    assert(sv.subrange(0, old_seen.len() as int) =~= sv);
}

/// The native sequencer over a raw batch of decodes of all modes: only the
/// decodes of `mode` not seen before are recorded as seen and handed to
/// [`handle_native_sequence`].
pub fn handle_native_decodes(
    mode: WorkspaceMode,
    decodes: &Vec<ModeDecode>,
    seen: &mut Vec<SeenDecode>,
    completed_period: Option<u64>,
    settings: &NativeSequencerSettings,
    session: &mut Option<QsoSession>,
) -> (r: NativeSeqOutcome)
    ensures
        ({
            let (seen1, fresh) = fresh_of(seen_views(old(seen)@), mode, mode_decode_views(decodes@));
            &&& seen_views(final(seen)@) == seen1
            &&& (opt_session(*final(session)), outcome_view(r)) == native_step(
                fresh,
                completed_period,
                *settings,
                opt_session(*old(session)),
            )
        }),
{
    let fresh = take_fresh_decodes(seen, mode, decodes);
    handle_native_sequence(&fresh, completed_period, settings, session)
}

} // verus!
