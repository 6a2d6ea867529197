//! Decisions of the FT8 runtime.
use crate::modes::exchange::{
    callsign_eq, is_first_choice, message_of, opt_chars, parse_message, rank_primary,
    ranks_before, response, same_callsign, select_candidate, session_start, should_repeat_cq,
    should_retry_after_decode, AutoReplyPolicy, ParsedView, QsoSession, QsoSessionView, QsoStage,
    ReplyCandidate,
};
use crate::text;
use crate::text::{chars_of, eq_lit, owned, string_of, upper_chars};
use vstd::prelude::*;

verus! {

/// Lowest audio tone a decode pick may select.
pub const MIN_PICK_TONE_HZ: u32 = 100;

/// Highest audio tone a decode pick may select.
pub const MAX_PICK_TONE_HZ: u32 = 3_500;

pub open spec fn clamp_tone(freq_hz: u32) -> u32 {
    if freq_hz < 100 {
        100
    } else if freq_hz > 3_500 {
        3_500
    } else {
        freq_hz
    }
}

/// The RX tone, TX tone and whether TX moved after picking a decode at
/// `freq_hz`: RX follows the pick (held to 100–3500 Hz); TX follows it only
/// when asked to and not held.
pub fn retuned_ft8_tones(
    freq_hz: u32,
    current_tx_hz: u32,
    move_tx_to_remote: bool,
    hold_tx_freq: bool,
) -> (r: (u32, u32, bool))
    ensures
        r.0 == clamp_tone(freq_hz),
        r.2 == (move_tx_to_remote && !hold_tx_freq),
        r.1 == (if r.2 {
            clamp_tone(freq_hz)
        } else {
            current_tx_hz
        }),
{
    let picked = if freq_hz < MIN_PICK_TONE_HZ {
        MIN_PICK_TONE_HZ
    } else if freq_hz > MAX_PICK_TONE_HZ {
        MAX_PICK_TONE_HZ
    } else {
        freq_hz
    };
    let tx_moved = move_tx_to_remote && !hold_tx_freq;
    let tx_hz = if tx_moved {
        picked
    } else {
        current_tx_hz
    };
    (picked, tx_hz, tx_moved)
}

/// One decoded message of a slot mode (FT8, FT4 and the other native modes),
/// with its SNR in whole dB.
#[derive(Debug, Clone)]
pub struct Ft8DecodeEntry {
    pub message: String,
    pub snr_db: i8,
    pub freq_hz: u32,
    pub period: u64,
}

pub struct Ft8DecodeView {
    pub message: Seq<char>,
    pub snr_db: i8,
    pub freq_hz: u32,
    pub period: u64,
}

pub open spec fn decode_views(ds: Seq<Ft8DecodeEntry>) -> Seq<Ft8DecodeView> {
    ds.map_values(
        |d: Ft8DecodeEntry|
            Ft8DecodeView {
                message: d.message@,
                snr_db: d.snr_db,
                freq_hz: d.freq_hz,
                period: d.period,
            },
    )
}

/// The station settings and transmitter state the automatic sequencer reads.
#[derive(Debug, Clone)]
pub struct Ft8SequencerSettings {
    pub my_call: String,
    pub my_grid: String,
    pub autoseq: bool,
    /// A transmission is on the air or queued.
    pub tx_busy: bool,
    pub auto_answer_cq: bool,
    pub auto_reply_policy: AutoReplyPolicy,
    pub rx_tone_hz: u32,
    pub last_tx_period: Option<u64>,
    pub last_tx_was_cq: bool,
}

/// What the FT8 sequencer does after a batch of decodes.
#[derive(Debug)]
pub enum Ft8AutoAction {
    /// Nothing to transmit.
    Idle,
    /// No operator callsign is set; automatic replies wait for one.
    PauseNoCallsign,
    /// The worked station answers someone else: stop the sequence.
    Cancel { target: String, other: String },
    /// The QSO is complete: log it; the session has been closed.
    CompleteSession(QsoSession),
    /// Send the next step of the exchange, answering `period` at `freq_hz`.
    Reply { message: String, period: u64, freq_hz: u32 },
    /// Nothing was heard from the worked station: send the last step again.
    Retry { period: u64 },
    /// Nobody answered the CQ: call again.
    RepeatCq,
    /// A caller was picked (the decode at `index`): a new session opened and
    /// answers with `message`.
    StartSession { message: String, index: usize },
}

pub enum Ft8AutoActionView {
    Idle,
    PauseNoCallsign,
    Cancel { target: Seq<char>, other: Seq<char> },
    CompleteSession(QsoSessionView),
    Reply { message: Seq<char>, period: u64, freq_hz: u32 },
    Retry { period: u64 },
    RepeatCq,
    StartSession { message: Seq<char>, index: int },
}

pub open spec fn action_view(a: Ft8AutoAction) -> Ft8AutoActionView {
    match a {
        Ft8AutoAction::Idle => Ft8AutoActionView::Idle,
        Ft8AutoAction::PauseNoCallsign => Ft8AutoActionView::PauseNoCallsign,
        Ft8AutoAction::Cancel { target, other } => Ft8AutoActionView::Cancel {
            target: target@,
            other: other@,
        },
        Ft8AutoAction::CompleteSession(s) => Ft8AutoActionView::CompleteSession(s@),
        Ft8AutoAction::Reply { message, period, freq_hz } => Ft8AutoActionView::Reply {
            message: message@,
            period,
            freq_hz,
        },
        Ft8AutoAction::Retry { period } => Ft8AutoActionView::Retry { period },
        Ft8AutoAction::RepeatCq => Ft8AutoActionView::RepeatCq,
        Ft8AutoAction::StartSession { message, index } => Ft8AutoActionView::StartSession {
            message: message@,
            index: index as int,
        },
    }
}

pub open spec fn opt_session(o: Option<QsoSession>) -> Option<QsoSessionView> {
    match o {
        Some(s) => Some(s@),
        None => None,
    }
}

/// The station the worked station `target` is answering instead of us, from
/// the first decode that shows it.
pub open spec fn working_other(
    ds: Seq<Ft8DecodeView>,
    target: Seq<char>,
    me: Seq<char>,
    i: int,
) -> Option<Seq<char>>
    decreases ds.len() - i,
{
    if i < 0 || i >= ds.len() {
        None
    } else {
        match message_of(ds[i].message) {
            Some(p) => if same_callsign(p.from, target) && p.is_directed_away_from(me) {
                Some(
                    match p.to {
                        Some(t) => t,
                        None => "another station"@,
                    },
                )
            } else {
                working_other(ds, target, me, i + 1)
            },
            None => working_other(ds, target, me, i + 1),
        }
    }
}

/// The session after reading the decodes in order until one of them calls
/// for a reply, and that reply with the period and tone it answers.
pub open spec fn session_scan(
    s: QsoSessionView,
    ds: Seq<Ft8DecodeView>,
    me: Seq<char>,
    grid: Seq<char>,
) -> (QsoSessionView, Option<(Seq<char>, u64, u32)>)
    decreases ds.len(),
{
    if ds.len() == 0 {
        (s, None)
    } else {
        let d = ds[0];
        match message_of(d.message) {
            None => session_scan(s, ds.drop_first(), me, grid),
            Some(p) => {
                let (s1, r) = response(s, p, me, grid, d.snr_db, d.period);
                match r {
                    Some(m) => (s1, Some((m, d.period, d.freq_hz))),
                    None => session_scan(s1, ds.drop_first(), me, grid),
                }
            },
        }
    }
}

/// Which messages a sequencer answers on its own: those addressed to us
/// (`directed`) and CQ calls (`cq`).
#[derive(Debug, Clone, Copy)]
pub struct Answering {
    pub directed: bool,
    pub cq: bool,
}

/// The FT8 sequencer always answers messages addressed to us, and CQ calls
/// when the operator asked for it.
pub open spec fn ft8_answering(auto_answer_cq: bool) -> Answering {
    Answering { directed: true, cq: auto_answer_cq }
}

/// A decode the sequencer may answer on its own: one it answers by
/// `answers`, not sent by ourselves.
pub open spec fn eligible(d: Ft8DecodeView, me: Seq<char>, answers: Answering) -> bool {
    match message_of(d.message) {
        Some(p) => ((answers.directed && p.is_directed_to(me)) || (answers.cq && p.is_cq))
            && !same_callsign(p.from, me),
        None => false,
    }
}

pub open spec fn decode_primary(d: Ft8DecodeView, policy: AutoReplyPolicy, rx_tone_hz: u32) -> int {
    match policy {
        AutoReplyPolicy::First => 0,
        AutoReplyPolicy::Strongest => -(d.snr_db as int),
        AutoReplyPolicy::Weakest => d.snr_db as int,
        AutoReplyPolicy::Closest => if d.freq_hz >= rx_tone_hz {
            d.freq_hz - rx_tone_hz
        } else {
            rx_tone_hz - d.freq_hz
        },
    }
}

/// Decode `a` is preferred to decode `b` under the policy.
pub open spec fn decode_before(
    ds: Seq<Ft8DecodeView>,
    a: int,
    b: int,
    policy: AutoReplyPolicy,
    rx_tone_hz: u32,
) -> bool {
    decode_primary(ds[a], policy, rx_tone_hz) < decode_primary(ds[b], policy, rx_tone_hz) || (
    decode_primary(ds[a], policy, rx_tone_hz) == decode_primary(ds[b], policy, rx_tone_hz) && a
        < b)
}

/// Decode `i` is the caller the sequencer answers.
pub open spec fn is_chosen(
    ds: Seq<Ft8DecodeView>,
    i: int,
    me: Seq<char>,
    answers: Answering,
    policy: AutoReplyPolicy,
    rx_tone_hz: u32,
) -> bool {
    &&& 0 <= i < ds.len()
    &&& eligible(ds[i], me, answers)
    &&& forall|j: int|
        0 <= j < ds.len() && eligible(#[trigger] ds[j], me, answers) ==> !decode_before(
            ds,
            j,
            i,
            policy,
            rx_tone_hz,
        )
}

pub open spec fn any_eligible(ds: Seq<Ft8DecodeView>, me: Seq<char>, answers: Answering) -> bool {
    exists|j: int| 0 <= j < ds.len() && eligible(#[trigger] ds[j], me, answers)
}

pub open spec fn retry_due(last_tx_period: Option<u64>, period: u64) -> bool {
    match last_tx_period {
        Some(last) => period == (if last == u64::MAX {
            last as int
        } else {
            last + 1
        }),
        None => false,
    }
}

/// What the sequencer does with a batch of decodes: the session it keeps and
/// the action it takes.
pub open spec fn auto_step(
    ds: Seq<Ft8DecodeView>,
    completed_period: Option<u64>,
    my_call: Seq<char>,
    my_grid: Seq<char>,
    autoseq: bool,
    tx_busy: bool,
    auto_answer_cq: bool,
    policy: AutoReplyPolicy,
    rx_tone_hz: u32,
    last_tx_period: Option<u64>,
    last_tx_was_cq: bool,
    seq_target: Option<Seq<char>>,
    session: Option<QsoSessionView>,
) -> (Option<QsoSessionView>, Ft8AutoActionView) {
    let me = text::upper(my_call);
    if ds.len() == 0 && completed_period is None {
        (session, Ft8AutoActionView::Idle)
    } else if me == "N0CALL"@ {
        (session, Ft8AutoActionView::PauseNoCallsign)
    } else if seq_target is Some && working_other(ds, seq_target.unwrap(), me, 0) is Some {
        (
            session,
            Ft8AutoActionView::Cancel {
                target: seq_target.unwrap(),
                other: working_other(ds, seq_target.unwrap(), me, 0).unwrap(),
            },
        )
    } else if !autoseq || tx_busy {
        (session, Ft8AutoActionView::Idle)
    } else {
        match session {
            Some(s) => {
                let (s1, found) = session_scan(s, ds, me, my_grid);
                if s1.stage == QsoStage::Complete {
                    (None, Ft8AutoActionView::CompleteSession(s1))
                } else {
                    match found {
                        Some((m, p, f)) => (
                            Some(s1),
                            Ft8AutoActionView::Reply { message: m, period: p, freq_hz: f },
                        ),
                        None => match completed_period {
                            Some(cp) => if retry_due(last_tx_period, cp) {
                                (Some(s1), Ft8AutoActionView::Retry { period: cp })
                            } else {
                                (Some(s1), Ft8AutoActionView::Idle)
                            },
                            None => (Some(s1), Ft8AutoActionView::Idle),
                        },
                    }
                }
            },
            None => if !any_eligible(ds, me, ft8_answering(auto_answer_cq)) {
                if autoseq && last_tx_was_cq && (completed_period matches Some(cp) && retry_due(
                    last_tx_period,
                    cp,
                )) {
                    (None, Ft8AutoActionView::RepeatCq)
                } else {
                    (None, Ft8AutoActionView::Idle)
                }
            } else {
                let i = choose|i: int|
                    is_chosen(ds, i, me, ft8_answering(auto_answer_cq), policy, rx_tone_hz);
                let p = message_of(ds[i].message).unwrap();
                let s0 = session_start(p.from, ds[i].period);
                let (s1, r) = response(s0, p, me, my_grid, ds[i].snr_db, ds[i].period);
                match r {
                    Some(m) => (Some(s1), Ft8AutoActionView::StartSession { message: m, index: i }),
                    None => (None, Ft8AutoActionView::Idle),
                }
            },
        }
    }
}

/// The chosen caller is unique.
pub proof fn chosen_is_unique(
    ds: Seq<Ft8DecodeView>,
    i: int,
    k: int,
    me: Seq<char>,
    answers: Answering,
    policy: AutoReplyPolicy,
    rx_tone_hz: u32,
)
    requires
        is_chosen(ds, i, me, answers, policy, rx_tone_hz),
        is_chosen(ds, k, me, answers, policy, rx_tone_hz),
    ensures
        i == k,
{
    assert(!decode_before(ds, i, k, policy, rx_tone_hz));
    assert(!decode_before(ds, k, i, policy, rx_tone_hz));
}

fn working_other_exec(decodes: &Vec<Ft8DecodeEntry>, target: &str, me: &str) -> (r: Option<String>)
    ensures
        opt_chars(r) == working_other(decode_views(decodes@), target@, me@, 0),
{
    let ghost dv = decode_views(decodes@);
    let mut i: usize = 0;
    while i < decodes.len()
        invariant
            i <= decodes.len(),
            dv == decode_views(decodes@),
            working_other(dv, target@, me@, 0) == working_other(dv, target@, me@, i as int),
        decreases decodes.len() - i,
    {
        assert(dv[i as int].message == decodes@[i as int].message@);
        match parse_message(decodes[i].message.as_str()) {
            Some(p) => {
                if callsign_eq(p.from.as_str(), target) && p.directed_away_from(me) {
                    return match p.to {
                        Some(t) => Some(t),
                        None => Some(owned("another station")),
                    };
                }
            },
            None => {},
        }
        i = i + 1;
    }
    None
}

pub open spec fn found_view(r: Option<(String, u64, u32)>) -> Option<(Seq<char>, u64, u32)> {
    match r {
        Some((m, p, f)) => Some((m@, p, f)),
        None => None,
    }
}

fn scan_session(
    session: &mut QsoSession,
    decodes: &Vec<Ft8DecodeEntry>,
    me: &str,
    grid: &str,
) -> (r: Option<(String, u64, u32)>)
    ensures
        (final(session)@, found_view(r)) == session_scan(
            old(session)@,
            decode_views(decodes@),
            me@,
            grid@,
        ),
{
    let ghost dv = decode_views(decodes@);
    let ghost start = session@;
    let mut i: usize = 0;
    assert(dv.skip(0) =~= dv);
    while i < decodes.len()
        invariant
            i <= decodes.len(),
            dv == decode_views(decodes@),
            start == old(session)@,
            session_scan(start, dv, me@, grid@) == session_scan(
                session@,
                dv.skip(i as int),
                me@,
                grid@,
            ),
        decreases decodes.len() - i,
    {
        let ghost rest = dv.skip(i as int);
        assert(rest[0] == dv[i as int]);
        assert(rest.drop_first() =~= dv.skip(i + 1));
        assert(dv[i as int].message == decodes@[i as int].message@);
        assert(dv[i as int].snr_db == decodes@[i as int].snr_db);
        assert(dv[i as int].period == decodes@[i as int].period);
        assert(dv[i as int].freq_hz == decodes@[i as int].freq_hz);
        let entry = &decodes[i];
        match parse_message(entry.message.as_str()) {
            Some(p) => {
                match session.response_to(&p, me, grid, entry.snr_db, entry.period) {
                    Some(m) => {
                        return Some((m, entry.period, entry.freq_hz));
                    },
                    None => {},
                }
            },
            None => {},
        }
        i = i + 1;
    }
    assert(dv.skip(i as int) =~= Seq::<Ft8DecodeView>::empty());
    None
}

/// The candidate `c` stands for decode `c.index`.
pub open spec fn stands_for(c: ReplyCandidate, dv: Seq<Ft8DecodeView>, me: Seq<char>, answers: Answering) -> bool {
    &&& 0 <= c.index < dv.len()
    &&& eligible(dv[c.index as int], me, answers)
    &&& c.snr_db == dv[c.index as int].snr_db
    &&& c.freq_hz == dv[c.index as int].freq_hz
    &&& message_of(dv[c.index as int].message) == Some(c.parsed@)
}

fn collect_candidates(decodes: &Vec<Ft8DecodeEntry>, me: &str, answers: Answering) -> (r: Vec<
    ReplyCandidate,
>)
    ensures
        forall|m: int|
            0 <= m < r@.len() ==> stands_for(
                #[trigger] r@[m],
                decode_views(decodes@),
                me@,
                answers,
            ),
        forall|j: int|
            0 <= j < decodes@.len() && eligible(
                #[trigger] decode_views(decodes@)[j],
                me@,
                answers,
            ) ==> exists|m: int| 0 <= m < r@.len() && (#[trigger] r@[m]).index == j,
{
    let ghost dv = decode_views(decodes@);
    let mut cands: Vec<ReplyCandidate> = Vec::new();
    let mut i: usize = 0;
    while i < decodes.len()
        invariant
            i <= decodes.len(),
            dv == decode_views(decodes@),
            forall|m: int|
                0 <= m < cands@.len() ==> stands_for(#[trigger] cands@[m], dv, me@, answers),
            forall|m: int| 0 <= m < cands@.len() ==> (#[trigger] cands@[m]).index < i,
            forall|j: int|
                0 <= j < i && eligible(#[trigger] dv[j], me@, answers) ==> exists|m: int|
                    0 <= m < cands@.len() && (#[trigger] cands@[m]).index == j,
        decreases decodes.len() - i,
    {
        assert(dv[i as int].message == decodes@[i as int].message@);
        assert(dv[i as int].snr_db == decodes@[i as int].snr_db);
        assert(dv[i as int].freq_hz == decodes@[i as int].freq_hz);
        let entry = &decodes[i];
        let ghost before = cands@;
        match parse_message(entry.message.as_str()) {
            Some(parsed) => {
                let ok = ((answers.directed && parsed.directed_to(me)) || (answers.cq
                    && parsed.is_cq))
                    && !callsign_eq(parsed.from.as_str(), me);
                if ok {
                    cands.push(
                        ReplyCandidate {
                            index: i,
                            snr_db: entry.snr_db,
                            freq_hz: entry.freq_hz,
                            parsed,
                        },
                    );
                    proof {
                        assert forall|m: int| 0 <= m < cands@.len() implies stands_for(
                            #[trigger] cands@[m],
                            dv,
                            me@,
                            answers,
                        ) by {
                            if m < before.len() {
                                assert(cands@[m] == before[m]);
                            }
                        }
                        assert forall|j: int|
                            0 <= j < i + 1 && eligible(
                                #[trigger] dv[j],
                                me@,
                                answers,
                            ) implies exists|m: int|
                            0 <= m < cands@.len() && (#[trigger] cands@[m]).index == j by {
                            if j < i {
                                let m = choose|m: int|
                                    0 <= m < before.len() && (#[trigger] before[m]).index == j;
                                assert(cands@[m] == before[m]);
                            } else {
                                assert(cands@[before.len() as int].index == j);
                            }
                        }
                    }
                }
            },
            None => {},
        }
        i = i + 1;
    }
    cands
}

/// The caller picked from the candidates is the chosen decode.
proof fn lemma_first_choice_is_chosen(
    cands: Seq<ReplyCandidate>,
    k: int,
    dv: Seq<Ft8DecodeView>,
    me: Seq<char>,
    answers: Answering,
    policy: AutoReplyPolicy,
    rx_tone_hz: u32,
)
    requires
        is_first_choice(cands, k, policy, rx_tone_hz),
        forall|m: int| 0 <= m < cands.len() ==> stands_for(#[trigger] cands[m], dv, me, answers),
        forall|j: int|
            0 <= j < dv.len() && eligible(#[trigger] dv[j], me, answers) ==> exists|m: int|
                0 <= m < cands.len() && (#[trigger] cands[m]).index == j,
    ensures
        is_chosen(dv, cands[k].index as int, me, answers, policy, rx_tone_hz),
{
    let c = cands[k];
    assert(stands_for(c, dv, me, answers));
    assert forall|j: int|
        0 <= j < dv.len() && eligible(#[trigger] dv[j], me, answers) implies !decode_before(
        dv,
        j,
        c.index as int,
        policy,
        rx_tone_hz,
    ) by {
        let m = choose|m: int| 0 <= m < cands.len() && (#[trigger] cands[m]).index == j;
        assert(stands_for(cands[m], dv, me, answers));
        assert(!ranks_before(cands[m], c, policy, rx_tone_hz));
        assert(rank_primary(cands[m], policy, rx_tone_hz) == decode_primary(dv[j], policy, rx_tone_hz));
        assert(rank_primary(c, policy, rx_tone_hz) == decode_primary(
            dv[c.index as int],
            policy,
            rx_tone_hz,
        ));
    }
}

/// Picks the caller to answer among the decodes: the one the reply policy
/// prefers among those that may be answered, if any.
pub(crate) fn pick_caller(
    decodes: &Vec<Ft8DecodeEntry>,
    me: &str,
    answers: Answering,
    policy: AutoReplyPolicy,
    rx_tone_hz: u32,
) -> (r: Option<ReplyCandidate>)
    ensures
        match r {
            Some(c) => is_chosen(decode_views(decodes@), c.index as int, me@, answers, policy, rx_tone_hz)
                && stands_for(c, decode_views(decodes@), me@, answers),
            None => !any_eligible(decode_views(decodes@), me@, answers),
        },
{
    let ghost dv = decode_views(decodes@);
    let cands = collect_candidates(decodes, me, answers);
    let ghost cv = cands@;
    match select_candidate(cands, policy, rx_tone_hz) {
        None => {
            proof {
                assert forall|j: int| 0 <= j < dv.len() implies !eligible(
                    #[trigger] dv[j],
                    me@,
                    answers,
                ) by {}
            }
            None
        },
        Some(sel) => {
            proof {
                let k = choose|k: int| is_first_choice(cv, k, policy, rx_tone_hz) && sel == cv[k];
                lemma_first_choice_is_chosen(cv, k, dv, me@, answers, policy, rx_tone_hz);
            }
            Some(sel)
        },
    }
}

/// Decides what the FT8 sequencer does with a batch of decodes and the end of
/// a receive period: pause without a callsign, cancel when the worked station
/// answers someone else, continue or finish the open QSO (or repeat the last
/// step when nothing came back), or else pick a caller by the reply policy
/// and open a new QSO, or repeat an unanswered CQ.
pub fn handle_ft8_decodes(
    decodes: &Vec<Ft8DecodeEntry>,
    completed_period: Option<u64>,
    settings: &Ft8SequencerSettings,
    seq_target: &Option<String>,
    session: &mut Option<QsoSession>,
) -> (r: Ft8AutoAction)
    ensures
        (opt_session(*final(session)), action_view(r)) == auto_step(
            decode_views(decodes@),
            completed_period,
            settings.my_call@,
            settings.my_grid@,
            settings.autoseq,
            settings.tx_busy,
            settings.auto_answer_cq,
            settings.auto_reply_policy,
            settings.rx_tone_hz,
            settings.last_tx_period,
            settings.last_tx_was_cq,
            opt_chars(*seq_target),
            opt_session(*old(session)),
        ),
{
    let ghost dv = decode_views(decodes@);
    if decodes.len() == 0 && completed_period.is_none() {
        return Ft8AutoAction::Idle;
    }
    let me_chars = upper_chars(&chars_of(settings.my_call.as_str()));
    let me = string_of(&me_chars);
    if eq_lit(&me_chars, "N0CALL") {
        return Ft8AutoAction::PauseNoCallsign;
    }
    match seq_target {
        Some(target) => {
            match working_other_exec(decodes, target.as_str(), me.as_str()) {
                Some(other) => {
                    return Ft8AutoAction::Cancel { target: target.clone(), other };
                },
                None => {},
            }
        },
        None => {},
    }
    if !settings.autoseq || settings.tx_busy {
        return Ft8AutoAction::Idle;
    }
    if session.is_some() {
        let mut s = session.take().unwrap();
        let found = scan_session(&mut s, decodes, me.as_str(), settings.my_grid.as_str());
        if s.stage == QsoStage::Complete {
            return Ft8AutoAction::CompleteSession(s);
        }
        *session = Some(s);
        return match found {
            Some((message, period, freq_hz)) => Ft8AutoAction::Reply { message, period, freq_hz },
            None => match completed_period {
                Some(period) => if should_retry_after_decode(settings.last_tx_period, period) {
                    Ft8AutoAction::Retry { period }
                } else {
                    Ft8AutoAction::Idle
                },
                None => Ft8AutoAction::Idle,
            },
        };
    }
    let answers = Answering { directed: true, cq: settings.auto_answer_cq };
    match pick_caller(decodes, me.as_str(), answers, settings.auto_reply_policy, settings.rx_tone_hz) {
        None => {
            if should_repeat_cq(
                settings.autoseq,
                settings.last_tx_was_cq,
                settings.last_tx_period,
                completed_period,
            ) {
                Ft8AutoAction::RepeatCq
            } else {
                Ft8AutoAction::Idle
            }
        },
        Some(sel) => {
            proof {
                let i = choose|i: int|
                    is_chosen(dv, i, me@, answers, settings.auto_reply_policy, settings.rx_tone_hz);
                chosen_is_unique(
                    dv,
                    i,
                    sel.index as int,
                    me@,
                    answers,
                    settings.auto_reply_policy,
                    settings.rx_tone_hz,
                );
                assert(dv[sel.index as int].period == decodes@[sel.index as int].period);
                assert(dv[sel.index as int].snr_db == decodes@[sel.index as int].snr_db);
            }
            let entry = &decodes[sel.index];
            let mut s = QsoSession::start(sel.parsed.from.clone(), entry.period);
            match s.response_to(
                &sel.parsed,
                me.as_str(),
                settings.my_grid.as_str(),
                entry.snr_db,
                entry.period,
            ) {
                Some(message) => {
                    *session = Some(s);
                    Ft8AutoAction::StartSession { message, index: sel.index }
                },
                None => Ft8AutoAction::Idle,
            }
        },
    }
}

} // verus!
