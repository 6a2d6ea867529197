//! Properties of the FT8 automatic sequencer.
use crate::modes::exchange::{
    message_of, response, same_callsign, AutoReplyPolicy, QsoSessionView, QsoStage,
};
use crate::modes::ft8_runtime::{
    any_eligible, auto_step, decode_before, eligible, ft8_answering, is_chosen, session_scan,
    Answering, Ft8AutoActionView, Ft8DecodeView,
};
use crate::modes::exchange_laws::tone_distance;
use crate::text;
use vstd::prelude::*;

verus! {

/// The action puts something on the air.
pub open spec fn transmits(a: Ft8AutoActionView) -> bool {
    ||| a is Reply
    ||| a is Retry
    ||| a is RepeatCq
    ||| a is StartSession
}

/// The best eligible decode among the first `n`.
pub open spec fn best_upto(
    ds: Seq<Ft8DecodeView>,
    n: int,
    me: Seq<char>,
    answers: Answering,
    policy: AutoReplyPolicy,
    rx_tone_hz: u32,
) -> Option<int>
    decreases n,
{
    if n <= 0 {
        None
    } else {
        let b = best_upto(ds, n - 1, me, answers, policy, rx_tone_hz);
        if eligible(ds[n - 1], me, answers) {
            match b {
                None => Some(n - 1),
                Some(x) => if decode_before(ds, n - 1, x, policy, rx_tone_hz) {
                    Some(n - 1)
                } else {
                    Some(x)
                },
            }
        } else {
            b
        }
    }
}

proof fn lemma_best_upto(
    ds: Seq<Ft8DecodeView>,
    n: int,
    me: Seq<char>,
    answers: Answering,
    policy: AutoReplyPolicy,
    rx_tone_hz: u32,
)
    requires
        0 <= n <= ds.len(),
    ensures
        match best_upto(ds, n, me, answers, policy, rx_tone_hz) {
            None => forall|j: int| 0 <= j < n ==> !eligible(#[trigger] ds[j], me, answers),
            Some(x) => 0 <= x < n && eligible(ds[x], me, answers) && forall|j: int|
                0 <= j < n && eligible(#[trigger] ds[j], me, answers) ==> !decode_before(
                    ds,
                    j,
                    x,
                    policy,
                    rx_tone_hz,
                ),
        },
    decreases n,
{
    if n > 0 {
        lemma_best_upto(ds, n - 1, me, answers, policy, rx_tone_hz);
    }
}

/// Whenever some decode may be answered, exactly one is the chosen caller.
pub proof fn chosen_exists(
    ds: Seq<Ft8DecodeView>,
    me: Seq<char>,
    answers: Answering,
    policy: AutoReplyPolicy,
    rx_tone_hz: u32,
)
    requires
        any_eligible(ds, me, answers),
    ensures
        exists|i: int| is_chosen(ds, i, me, answers, policy, rx_tone_hz),
{
    lemma_best_upto(ds, ds.len() as int, me, answers, policy, rx_tone_hz);
    let j = choose|j: int| 0 <= j < ds.len() && eligible(#[trigger] ds[j], me, answers);
    let x = best_upto(ds, ds.len() as int, me, answers, policy, rx_tone_hz).unwrap();
    assert(is_chosen(ds, x, me, answers, policy, rx_tone_hz));
}

/// The sequencer only transmits with automatic sequencing on, the
/// transmitter idle, and a real operator callsign set.
pub proof fn sequencer_transmits_only_when_armed(
    ds: Seq<Ft8DecodeView>,
    completed_period: Option<u64>,
    my_call: Seq<char>,
    my_grid: Seq<char>,
    autoseq: bool,
    tx_busy: bool,
    auto_answer_cq: bool,
    policy: AutoReplyPolicy,
    rx_tone_hz: u32,
    last_tx_period: Option<u64>,
    last_tx_was_cq: bool,
    seq_target: Option<Seq<char>>,
    session: Option<QsoSessionView>,
)
    ensures
        transmits(
            auto_step(
                ds,
                completed_period,
                my_call,
                my_grid,
                autoseq,
                tx_busy,
                auto_answer_cq,
                policy,
                rx_tone_hz,
                last_tx_period,
                last_tx_was_cq,
                seq_target,
                session,
            ).1,
        ) ==> autoseq && !tx_busy && text::upper(my_call) != "N0CALL"@,
{
}

/// A new QSO is only opened with a caller that may be answered: a station
/// other than us whose message is addressed to us, or a CQ when CQs are
/// answered; and it is the caller the reply policy prefers.
pub proof fn sequencer_opens_only_with_eligible_callers(
    ds: Seq<Ft8DecodeView>,
    completed_period: Option<u64>,
    my_call: Seq<char>,
    my_grid: Seq<char>,
    autoseq: bool,
    tx_busy: bool,
    auto_answer_cq: bool,
    policy: AutoReplyPolicy,
    rx_tone_hz: u32,
    last_tx_period: Option<u64>,
    last_tx_was_cq: bool,
    seq_target: Option<Seq<char>>,
    session: Option<QsoSessionView>,
)
    ensures
        ({
            let a = auto_step(
                ds,
                completed_period,
                my_call,
                my_grid,
                autoseq,
                tx_busy,
                auto_answer_cq,
                policy,
                rx_tone_hz,
                last_tx_period,
                last_tx_was_cq,
                seq_target,
                session,
            ).1;
            a matches Ft8AutoActionView::StartSession { index, .. } ==> session is None
                && is_chosen(
                ds,
                index,
                text::upper(my_call),
                ft8_answering(auto_answer_cq),
                policy,
                rx_tone_hz,
            ) && eligible(ds[index], text::upper(my_call), ft8_answering(auto_answer_cq))
        }),
{
    let me = text::upper(my_call);
    if any_eligible(ds, me, ft8_answering(auto_answer_cq)) {
        chosen_exists(ds, me, ft8_answering(auto_answer_cq), policy, rx_tone_hz);
    }
}

/// An open QSO is cancelled, and nothing sent, as soon as its station is
/// seen answering another station.
pub proof fn sequencer_cancels_when_target_works_another(
    ds: Seq<Ft8DecodeView>,
    completed_period: Option<u64>,
    my_call: Seq<char>,
    my_grid: Seq<char>,
    autoseq: bool,
    tx_busy: bool,
    auto_answer_cq: bool,
    policy: AutoReplyPolicy,
    rx_tone_hz: u32,
    last_tx_period: Option<u64>,
    last_tx_was_cq: bool,
    target: Seq<char>,
    session: Option<QsoSessionView>,
    i: int,
)
    requires
        0 <= i < ds.len(),
        text::upper(my_call) != "N0CALL"@,
        message_of(ds[i].message) matches Some(p) && same_callsign(p.from, target)
            && p.is_directed_away_from(text::upper(my_call)),
    ensures
        auto_step(
            ds,
            completed_period,
            my_call,
            my_grid,
            autoseq,
            tx_busy,
            auto_answer_cq,
            policy,
            rx_tone_hz,
            last_tx_period,
            last_tx_was_cq,
            Some(target),
            session,
        ).1 is Cancel,
{
    lemma_working_other_found(ds, target, text::upper(my_call), 0, i);
}

proof fn lemma_working_other_found(
    ds: Seq<Ft8DecodeView>,
    target: Seq<char>,
    me: Seq<char>,
    from: int,
    i: int,
)
    requires
        0 <= from <= i < ds.len(),
        message_of(ds[i].message) matches Some(p) && same_callsign(p.from, target)
            && p.is_directed_away_from(me),
    ensures
        crate::modes::ft8_runtime::working_other(ds, target, me, from) is Some,
    decreases i - from,
{
    if from < i {
        lemma_working_other_found(ds, target, me, from + 1, i);
    }
}

/// The caller the sequencer answers is the best eligible decode by the
/// policy: none stronger under `Strongest`, none weaker under `Weakest`,
/// none nearer the receive tone under `Closest`, none earlier under `First`.
pub proof fn chosen_caller_is_the_best(
    ds: Seq<Ft8DecodeView>,
    i: int,
    me: Seq<char>,
    answers: Answering,
    policy: AutoReplyPolicy,
    rx_tone_hz: u32,
)
    requires
        is_chosen(ds, i, me, answers, policy, rx_tone_hz),
    ensures
        forall|j: int|
            0 <= j < ds.len() && eligible(#[trigger] ds[j], me, answers) ==> match policy {
                AutoReplyPolicy::First => i <= j,
                AutoReplyPolicy::Strongest => ds[j].snr_db <= ds[i].snr_db,
                AutoReplyPolicy::Weakest => ds[j].snr_db >= ds[i].snr_db,
                AutoReplyPolicy::Closest => tone_distance(ds[i].freq_hz, rx_tone_hz)
                    <= tone_distance(ds[j].freq_hz, rx_tone_hz),
            },
{
    assert forall|j: int| 0 <= j < ds.len() && eligible(#[trigger] ds[j], me, answers) implies match
        policy {
        AutoReplyPolicy::First => i <= j,
        AutoReplyPolicy::Strongest => ds[j].snr_db <= ds[i].snr_db,
        AutoReplyPolicy::Weakest => ds[j].snr_db >= ds[i].snr_db,
        AutoReplyPolicy::Closest => tone_distance(ds[i].freq_hz, rx_tone_hz) <= tone_distance(
            ds[j].freq_hz,
            rx_tone_hz,
        ),
    } by {
        assert(!decode_before(ds, j, i, policy, rx_tone_hz));
    }
}

proof fn lemma_scan_keeps_target(
    s: QsoSessionView,
    ds: Seq<Ft8DecodeView>,
    me: Seq<char>,
    grid: Seq<char>,
)
    ensures
        session_scan(s, ds, me, grid).0.target == s.target,
        s.stage == QsoStage::Complete ==> session_scan(s, ds, me, grid).0 == s,
    decreases ds.len(),
{
    if ds.len() > 0 {
        match message_of(ds[0].message) {
            None => lemma_scan_keeps_target(s, ds.drop_first(), me, grid),
            Some(p) => {
                let (s1, r) = response(s, p, me, grid, ds[0].snr_db, ds[0].period);
                if r is None {
                    lemma_scan_keeps_target(s1, ds.drop_first(), me, grid);
                }
            },
        }
    }
}

/// A QSO that an open session finishes is handed back, and no finished
/// session is ever kept: an open session is dropped exactly when the action
/// is `CompleteSession`, which carries that session's station at stage
/// `Complete`; and a session kept or opened is never at `Complete`.
pub proof fn sequencer_hands_back_finished_qsos(
    ds: Seq<Ft8DecodeView>,
    completed_period: Option<u64>,
    my_call: Seq<char>,
    my_grid: Seq<char>,
    autoseq: bool,
    tx_busy: bool,
    auto_answer_cq: bool,
    policy: AutoReplyPolicy,
    rx_tone_hz: u32,
    last_tx_period: Option<u64>,
    last_tx_was_cq: bool,
    seq_target: Option<Seq<char>>,
    session: Option<QsoSessionView>,
)
    requires
        session matches Some(s) ==> s.stage != QsoStage::Complete,
    ensures
        ({
            let (next, a) = auto_step(
                ds,
                completed_period,
                my_call,
                my_grid,
                autoseq,
                tx_busy,
                auto_answer_cq,
                policy,
                rx_tone_hz,
                last_tx_period,
                last_tx_was_cq,
                seq_target,
                session,
            );
            &&& next matches Some(x) ==> x.stage != QsoStage::Complete
            &&& a matches Ft8AutoActionView::CompleteSession(x) ==> x.stage == QsoStage::Complete
                && next is None && (session matches Some(s) && x.target == s.target)
            &&& session is Some ==> (next is None <==> a is CompleteSession)
        }),
{
    match session {
        Some(s) => lemma_scan_keeps_target(s, ds, text::upper(my_call), my_grid),
        None => {},
    }
}

} // verus!
