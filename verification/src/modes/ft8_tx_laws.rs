//! Properties of the FT8 transmit pipeline.
use crate::modes::exchange::{AutoTxStopPolicy, QsoStage};
use crate::modes::ft8_tx::{
    force_stopped, queued_state, tx_event_step, tx_gate, Ft8TxEventView, Ft8TxStateView,
};
use crate::modes::ft8_types::Ft8SeqState;
use crate::text;
use vstd::prelude::*;

verus! {

/// No transmission is queued without something to send, a radio, a free
/// transmitter, or past the limit of unanswered attempts.
pub proof fn tx_gate_never_exceeds_attempts(
    compose: Seq<char>,
    radio_available: bool,
    tx_active: bool,
    tx_queued: bool,
    other_mode_tx_active: bool,
    suppress_canceled_events: bool,
    session_attempts: Option<u8>,
    max_attempts: u8,
)
    ensures
        tx_gate(
            compose,
            radio_available,
            tx_active,
            tx_queued,
            other_mode_tx_active,
            suppress_canceled_events,
            session_attempts,
            max_attempts,
        ) is Ok ==> text::trim(compose).len() > 0 && radio_available && !tx_active && !tx_queued
            && !other_mode_tx_active && (session_attempts matches Some(a) ==> a < max_attempts),
{
}

/// While a cancelled transmission settles, its worker's events change
/// nothing but the settling flag, which only its end clears; only that end
/// lets a reply picked meanwhile be armed.
pub proof fn settling_cancellation_changes_nothing_else(s: Ft8TxStateView, e: Ft8TxEventView)
    requires
        s.suppress_canceled_events,
    ensures
        ({
            let (next, fx) = tx_event_step(s, e);
            let terminal = e is Complete || e is Failed;
            &&& next == Ft8TxStateView { suppress_canceled_events: !terminal, ..s }
            &&& fx.arm_pending_reply == terminal
            &&& fx.logged is None && fx.on_air is None
        }),
{
}

/// A failed transmission leaves nothing armed: no session, no target, no
/// queued transmission, automatic operation off.
pub proof fn failed_transmission_disarms(s: Ft8TxStateView, err: Seq<char>)
    requires
        !s.suppress_canceled_events,
    ensures
        ({
            let (next, fx) = tx_event_step(s, Ft8TxEventView::Failed(err));
            &&& next.session is None && next.seq_target is None
            &&& !next.autoseq && next.seq_state == Ft8SeqState::Idle
            &&& next.queued_period is None && next.started_period is None
            &&& next.queued_message is None
            &&& fx.logged is None
        }),
{
}

/// A completed transmission empties the queue and becomes the last
/// transmit period; the QSO is logged exactly when the final message was
/// sent, and its session is then closed.
pub proof fn completion_clears_queue_and_closes_finished_qso(s: Ft8TxStateView)
    requires
        !s.suppress_canceled_events,
    ensures
        ({
            let (next, fx) = tx_event_step(s, Ft8TxEventView::Complete);
            &&& next.queued_period is None && next.started_period is None
            &&& next.queued_message is None
            &&& next.last_tx_period == s.started_period
            &&& (fx.logged is Some <==> (s.session matches Some(x) && x.stage
                == QsoStage::FinalSent))
            &&& (fx.logged matches Some(x) ==> s.session == Some(x) && next.session is None
                && next.seq_target is None)
        }),
{
}

/// A QSO is logged at most once: after the transmission that logs it, no
/// further event logs anything until a new session is opened.
pub proof fn completed_qso_is_logged_once(s: Ft8TxStateView, e: Ft8TxEventView)
    requires
        !s.suppress_canceled_events,
        tx_event_step(s, Ft8TxEventView::Complete).1.logged is Some,
    ensures
        tx_event_step(tx_event_step(s, Ft8TxEventView::Complete).0, e).1.logged is None,
{
}

/// What goes on the air and is remembered as the last transmission is the
/// trimmed text that was queued, in the period it was queued for.
pub proof fn queued_text_is_what_goes_on_the_air(
    s: Ft8TxStateView,
    compose: Seq<char>,
    period: u64,
)
    requires
        !s.suppress_canceled_events,
    ensures
        ({
            let s1 = queued_state(s, compose, period);
            let (s2, fx) = tx_event_step(s1, Ft8TxEventView::AudioStarted);
            let (s3, _) = tx_event_step(s2, Ft8TxEventView::Complete);
            &&& fx.on_air == Some(text::trim(compose))
            &&& s3.last_tx_period == Some(period)
            &&& s3.last_tx_message == Some(text::trim(compose))
            &&& s3.queued_period is None
        }),
{
}

/// After a manual stop of a transmission on the air or queued, nothing is
/// queued, the worker's events of the stopped transmission change nothing,
/// and its end re-opens the pipeline with the state the stop left.
pub proof fn force_stop_waits_for_the_stopped_worker(
    s: Ft8TxStateView,
    tx_active: bool,
    e: Ft8TxEventView,
)
    requires
        tx_active || s.queued_period is Some,
    ensures
        ({
            let s1 = force_stopped(s, tx_active);
            let (s2, fx) = tx_event_step(s1, e);
            &&& s1.queued_period is None && s1.queued_message is None
            &&& s1.seq_state == Ft8SeqState::Idle
            &&& (e is PttConfirmed || e is AudioStarted) ==> s2 == s1 && !fx.arm_pending_reply
            &&& (e is Complete || e is Failed) ==> s2 == Ft8TxStateView {
                suppress_canceled_events: false,
                ..s1
            } && fx.arm_pending_reply && fx.logged is None
        }),
{
}

/// A completed transmission switches automatic operation off only when
/// asked: after this transmission (`AfterNextTx`), or when it finishes the
/// QSO and the policy is to stop after the current QSO. Under `Keep running`
/// automatic operation and the policy stay, and a finished QSO is reported
/// without a stop.
pub proof fn completion_stops_only_when_asked(s: Ft8TxStateView)
    requires
        !s.suppress_canceled_events,
    ensures
        ({
            let (next, fx) = tx_event_step(s, Ft8TxEventView::Complete);
            &&& next.autoseq == (s.autoseq && s.stop_policy != AutoTxStopPolicy::AfterNextTx && !(
            fx.logged is Some && s.stop_policy == AutoTxStopPolicy::AfterCurrentQso))
            &&& next.stop_policy == (if s.stop_policy == AutoTxStopPolicy::AfterNextTx || (
            fx.logged is Some && s.stop_policy == AutoTxStopPolicy::AfterCurrentQso) {
                AutoTxStopPolicy::Continuous
            } else {
                s.stop_policy
            })
            &&& fx.persist_paused == (s.stop_policy == AutoTxStopPolicy::AfterNextTx)
            &&& s.stop_policy == AutoTxStopPolicy::Continuous ==> (fx.logged matches Some(x)
                ==> next.status == "🏁 QSO with "@ + x.target + " complete and logged · beautiful!"@
                && next.seq_state == (if s.autoseq {
                if s.last_tx_was_cq {
                    Ft8SeqState::CqArmed
                } else {
                    Ft8SeqState::ReplyArmed
                }
            } else {
                Ft8SeqState::Idle
            }))
        }),
{
}

} // verus!
