//! Properties of the native-mode automatic sequencer.
use crate::modes::exchange::{message_of, QsoSessionView, QsoStage};
use crate::modes::ft4_runtime::{
    decode_key, decode_keys, fresh_of,
    native_answering, native_scan, native_step, NativeSeqStepView, NativeSequencerSettings, ScanEnd,
};
use crate::modes::digital_tx::{digital_step, DigitalTxEventView, DigitalTxStateView};
use crate::modes::ft8_laws::chosen_exists;
use crate::modes::ft8_runtime::{any_eligible, eligible, is_chosen, Ft8DecodeView};
use crate::modes::workspace::WorkspaceMode;
use vstd::prelude::*;

verus! {

/// The step puts something on the air.
pub open spec fn native_transmits(s: NativeSeqStepView) -> bool {
    ||| s is Reply
    ||| s is RepeatCq
    ||| s is RepeatLast
}

/// The native sequencer only transmits, and only opens or closes sessions,
/// with automatic sequencing on and the transmitter idle.
pub proof fn native_sequencer_acts_only_when_armed(
    ds: Seq<Ft8DecodeView>,
    completed_period: Option<u64>,
    st: NativeSequencerSettings,
    session: Option<QsoSessionView>,
)
    ensures
        ({
            let (next, out) = native_step(ds, completed_period, st, session);
            !st.auto_sequence || st.tx_active ==> next == session && !native_transmits(out.step)
                && out.selected is None && out.completed is None
        }),
{
}

/// A new session is only opened when none was open, with the caller the
/// reply policy prefers among those that may be answered.
pub proof fn native_sequencer_opens_only_with_eligible_callers(
    ds: Seq<Ft8DecodeView>,
    completed_period: Option<u64>,
    st: NativeSequencerSettings,
    session: Option<QsoSessionView>,
)
    ensures
        ({
            let out = native_step(ds, completed_period, st, session).1;
            out.selected matches Some(caller) ==> session is None && exists|i: int|
                #![trigger ds[i]]
                is_chosen(ds, i, st.my_call@, native_answering(st), st.auto_reply_policy, st.rx_tone_hz)
                    && eligible(ds[i], st.my_call@, native_answering(st))
                    && (message_of(ds[i].message) matches Some(p) && p.from == caller)
        }),
{
    if any_eligible(ds, st.my_call@, native_answering(st)) {
        chosen_exists(ds, st.my_call@, native_answering(st), st.auto_reply_policy, st.rx_tone_hz);
    }
}

proof fn lemma_scan_completes(s: QsoSessionView, ds: Seq<Ft8DecodeView>, me: Seq<char>, grid: Seq<char>)
    ensures
        native_scan(s, ds, me, grid).1 is Completed ==> native_scan(s, ds, me, grid).0.stage
            == QsoStage::Complete,
        native_scan(s, ds, me, grid).1 is Reply ==> native_scan(s, ds, me, grid).0.stage
            != QsoStage::Complete,
    decreases ds.len(),
{
    if ds.len() > 0 {
        match message_of(ds[0].message) {
            None => lemma_scan_completes(s, ds.drop_first(), me, grid),
            Some(p) => {
                let (s1, r) = crate::modes::exchange::response(
                    s,
                    p,
                    me,
                    grid,
                    ds[0].snr_db,
                    ds[0].period,
                );
                lemma_scan_completes(s1, ds.drop_first(), me, grid);
            },
        }
    }
}

/// A completed QSO is handed back to be logged and never kept open; a
/// session kept after a reply is still open; giving up drops the session.
pub proof fn native_sequencer_never_keeps_finished_sessions(
    ds: Seq<Ft8DecodeView>,
    completed_period: Option<u64>,
    st: NativeSequencerSettings,
    session: Option<QsoSessionView>,
)
    requires
        session matches Some(s) ==> s.stage != QsoStage::Complete,
    ensures
        ({
            let (next, out) = native_step(ds, completed_period, st, session);
            &&& out.completed matches Some(c) ==> c.stage == QsoStage::Complete && next is None
            &&& out.step is GiveUp ==> next is None
            &&& next matches Some(s) ==> s.stage != QsoStage::Complete
        }),
{
    let me = st.my_call@;
    let answers = native_answering(st);
    if st.auto_sequence && !st.tx_active {
        let opened = match session {
            Some(s) => Some(s),
            None => if any_eligible(ds, me, answers) {
                let i = choose|i: int|
                    is_chosen(ds, i, me, answers, st.auto_reply_policy, st.rx_tone_hz);
                let p = message_of(ds[i].message).unwrap();
                Some(crate::modes::exchange::session_start(p.from, ds[i].period))
            } else {
                None
            },
        };
        if let Some(s) = opened {
            lemma_scan_completes(s, ds, me, st.my_grid@);
            lemma_scan_keeps_open(s, ds, me, st.my_grid@);
        }
    }
}

proof fn lemma_scan_keeps_open(s: QsoSessionView, ds: Seq<Ft8DecodeView>, me: Seq<char>, grid: Seq<char>)
    requires
        s.stage != QsoStage::Complete,
    ensures
        native_scan(s, ds, me, grid).1 is Nothing ==> native_scan(s, ds, me, grid).0.stage
            != QsoStage::Complete,
    decreases ds.len(),
{
    if ds.len() > 0 {
        match message_of(ds[0].message) {
            None => lemma_scan_keeps_open(s, ds.drop_first(), me, grid),
            Some(p) => {
                let (s1, r) = crate::modes::exchange::response(
                    s,
                    p,
                    me,
                    grid,
                    ds[0].snr_db,
                    ds[0].period,
                );
                if s1.stage != QsoStage::Complete && r is None {
                    lemma_scan_keeps_open(s1, ds.drop_first(), me, grid);
                }
            },
        }
    }
}

/// While a cancelled native transmission settles, its worker's events
/// change nothing but the settling flag, which only its end clears.
pub proof fn native_settling_changes_nothing_else(
    s: DigitalTxStateView,
    e: DigitalTxEventView,
    slot: Option<QsoSessionView>,
)
    requires
        s.suppress_canceled_events,
    ensures
        ({
            let (next, slot1, fx) = digital_step(s, e, slot);
            let terminal = e is Complete || e is Failed;
            &&& next == DigitalTxStateView { suppress_canceled_events: !terminal, ..s }
            &&& slot1 == slot
            &&& fx.logged is None && fx.note is None && !fx.drop_all_sessions
        }),
{
}

/// A failed native transmission stops automatic transmission and drops
/// every session.
pub proof fn native_failure_drops_sessions(
    s: DigitalTxStateView,
    err: Seq<char>,
    slot: Option<QsoSessionView>,
)
    requires
        !s.suppress_canceled_events,
    ensures
        ({
            let (next, slot1, fx) = digital_step(s, DigitalTxEventView::Failed(err), slot);
            &&& slot1 is None && fx.drop_all_sessions && fx.logged is None
            &&& !next.ft4_autoseq && next.native_autoseq_mode is None
            &&& next.started is None && next.queued_message is None && next.seq_target is None
        }),
{
}

/// A native QSO is logged only when its final message went out, closes its
/// session, and is not logged again by the next event.
pub proof fn native_completion_logs_once(
    s: DigitalTxStateView,
    slot: Option<QsoSessionView>,
    e: DigitalTxEventView,
)
    requires
        !s.suppress_canceled_events,
    ensures
        ({
            let (next, slot1, fx) = digital_step(s, DigitalTxEventView::Complete, slot);
            &&& (fx.logged is Some <==> (s.started is Some && (slot matches Some(x) && x.stage
                == QsoStage::FinalSent)))
            &&& (fx.logged matches Some((m, x)) ==> slot == Some(x) && slot1 is None && (
            s.started matches Some((m2, _)) && m2 == m))
            &&& next.started is None && next.queued_message is None
            &&& next.last_tx_message == s.queued_message
            &&& digital_step(next, e, slot1).2.logged is None
        }),
{
}

proof fn lemma_fresh_of(
    seen: Seq<(WorkspaceMode, u64, u32, Seq<char>)>,
    mode: WorkspaceMode,
    ds: Seq<(WorkspaceMode, Ft8DecodeView)>,
)
    ensures
        ({
            let (s1, f1) = fresh_of(seen, mode, ds);
            &&& s1 == seen + decode_keys(mode, f1)
            &&& forall|i: int| 0 <= i < f1.len() ==> !seen.contains(decode_key(mode, #[trigger] f1[i]))
            &&& forall|i: int, j: int|
                0 <= i < j < f1.len() ==> decode_key(mode, #[trigger] f1[i]) != decode_key(
                    mode,
                    #[trigger] f1[j],
                )
        }),
    decreases ds.len(),
{
    if ds.len() == 0 {
        assert(seen + decode_keys(mode, seq![]) =~= seen);
    } else {
        lemma_fresh_of(seen, mode, ds.drop_last());
        let (s0, f0) = fresh_of(seen, mode, ds.drop_last());
        let d = ds.last();
        let k = decode_key(mode, d.1);
        if d.0 == mode && !s0.contains(k) {
            let f1 = f0.push(d.1);
            assert(decode_keys(mode, f1) =~= decode_keys(mode, f0).push(k));
            assert(s0.push(k) =~= seen + decode_keys(mode, f1));
            assert forall|i: int| 0 <= i < f1.len() implies !seen.contains(
                decode_key(mode, #[trigger] f1[i]),
            ) by {
                if i == f0.len() {
                    if seen.contains(k) {
                        let x = choose|x: int| 0 <= x < seen.len() && seen[x] == k;
                        assert(s0[x] == k);
                    }
                } else {
                    assert(f1[i] == f0[i]);
                }
            }
            assert forall|i: int, j: int| 0 <= i < j < f1.len() implies decode_key(
                mode,
                #[trigger] f1[i],
            ) != decode_key(mode, #[trigger] f1[j]) by {
                if j == f0.len() {
                    assert(f1[i] == f0[i]);
                    assert(s0[seen.len() + i] == decode_key(mode, f0[i]));
                } else {
                    assert(f1[i] == f0[i] && f1[j] == f0[j]);
                }
            }
        }
    }
}

/// Each decode of a mode (its period, tone and text) is handed to the
/// sequencer at most once: a batch hands out no decode seen before and none
/// twice, and a later batch never hands out one of an earlier batch again.
pub proof fn fresh_decodes_are_handed_out_once(
    seen: Seq<(WorkspaceMode, u64, u32, Seq<char>)>,
    mode: WorkspaceMode,
    ds: Seq<(WorkspaceMode, Ft8DecodeView)>,
    later: Seq<(WorkspaceMode, Ft8DecodeView)>,
)
    ensures
        ({
            let (s1, f1) = fresh_of(seen, mode, ds);
            let f2 = fresh_of(s1, mode, later).1;
            &&& forall|i: int| 0 <= i < f1.len() ==> !seen.contains(decode_key(mode, #[trigger] f1[i]))
            &&& forall|i: int, j: int|
                0 <= i < j < f1.len() ==> decode_key(mode, #[trigger] f1[i]) != decode_key(
                    mode,
                    #[trigger] f1[j],
                )
            &&& forall|i: int, j: int|
                0 <= i < f1.len() && 0 <= j < f2.len() ==> decode_key(mode, #[trigger] f1[i])
                    != decode_key(mode, #[trigger] f2[j])
        }),
{
    lemma_fresh_of(seen, mode, ds);
    let (s1, f1) = fresh_of(seen, mode, ds);
    lemma_fresh_of(s1, mode, later);
    let f2 = fresh_of(s1, mode, later).1;
    assert forall|i: int, j: int| 0 <= i < f1.len() && 0 <= j < f2.len() implies decode_key(
        mode,
        #[trigger] f1[i],
    ) != decode_key(mode, #[trigger] f2[j]) by {
        assert(s1[seen.len() + i] == decode_key(mode, f1[i]));
        assert(!s1.contains(decode_key(mode, f2[j])));
    }
}

/// Automatic transmission stops after a completed QSO only when asked to
/// stop after the current QSO: the outcome asks to stop exactly when a QSO
/// was completed under that policy, never under `Keep running`.
pub proof fn native_stops_after_a_qso_only_when_asked(
    ds: Seq<Ft8DecodeView>,
    completed_period: Option<u64>,
    st: NativeSequencerSettings,
    session: Option<QsoSessionView>,
)
    ensures
        ({
            let out = native_step(ds, completed_period, st, session).1;
            out.stop_after_completion == (out.completed is Some && st.stop_policy
                == crate::modes::exchange::AutoTxStopPolicy::AfterCurrentQso)
        }),
{
}

/// A native transmission's completion leaves automatic transmission on
/// unless FT4 was asked to stop after this transmission or the QSO it
/// finishes was to be the last one: under `Keep running` for both policies
/// nothing is switched off.
pub proof fn native_completion_keeps_running_unless_asked(
    s: DigitalTxStateView,
    slot: Option<QsoSessionView>,
)
    requires
        !s.suppress_canceled_events,
        s.ft4_stop_policy == crate::modes::exchange::AutoTxStopPolicy::Continuous,
        s.native_stop_policy == crate::modes::exchange::AutoTxStopPolicy::Continuous,
    ensures
        ({
            let (next, _, fx) = digital_step(s, DigitalTxEventView::Complete, slot);
            &&& next.ft4_autoseq == s.ft4_autoseq
            &&& next.native_autoseq_mode == s.native_autoseq_mode
            &&& next.ft4_stop_policy == s.ft4_stop_policy
            &&& next.native_stop_policy == s.native_stop_policy
            &&& !fx.persist_paused
        }),
{
}

} // verus!
