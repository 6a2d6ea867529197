//! The transmit pipeline of the native digital modes (FT4 and the other
//! slot modes): whether a transmission may be queued, and how the sequencer
//! state follows the events of the transmit worker.
use crate::modes::exchange::{opt_chars, AutoTxStopPolicy, QsoSession, QsoSessionView, QsoStage};
use crate::modes::ft8_runtime::opt_session;
use crate::modes::workspace::WorkspaceMode;
use crate::text;
use crate::text::{chars_of, owned, string_of, strip_chars, CharClass};
use vstd::prelude::*;

verus! {

/// Why a native-mode transmission is not queued.
#[derive(Debug, Clone, Copy, PartialEq, Eq, Structural)]
pub enum DigitalTxRefusal {
    CancellationSettling,
    OtherTransmissionActive,
    RadioUnavailable,
    /// The mode has no transmit timing (and is not CW).
    BackendUnavailable,
}

impl DigitalTxRefusal {
    /// The transmit status shown for the refusal; the missing backend is
    /// reported after the mode's name and a space.
    pub open spec fn message_text(self) -> Seq<char> {
        match self {
            DigitalTxRefusal::CancellationSettling => "TX cancellation is still settling; try again"@,
            DigitalTxRefusal::OtherTransmissionActive => "TX not queued: another transmission is active"@,
            DigitalTxRefusal::RadioUnavailable => "TX unavailable: radio control is disabled"@,
            DigitalTxRefusal::BackendUnavailable => "TX backend is not available"@,
        }
    }

    pub fn message(self) -> (r: &'static str)
        ensures
            r@ == self.message_text(),
    {
        match self {
            DigitalTxRefusal::CancellationSettling => "TX cancellation is still settling; try again",
            DigitalTxRefusal::OtherTransmissionActive => "TX not queued: another transmission is active",
            DigitalTxRefusal::RadioUnavailable => "TX unavailable: radio control is disabled",
            DigitalTxRefusal::BackendUnavailable => "TX backend is not available",
        }
    }
}

/// Whether a native-mode transmission may be queued, checked in this order:
/// no cancelled transmission still settling, no FT8 or native transmission
/// on the air, a radio to key, and transmit timing for the mode (CW needs
/// none).
pub open spec fn digital_gate(
    suppress_canceled_events: bool,
    ft8_tx_active: bool,
    digital_tx_active: bool,
    radio_available: bool,
    mode: WorkspaceMode,
    has_slot_timing: bool,
) -> Result<(), DigitalTxRefusal> {
    if suppress_canceled_events {
        Err(DigitalTxRefusal::CancellationSettling)
    } else if ft8_tx_active || digital_tx_active {
        Err(DigitalTxRefusal::OtherTransmissionActive)
    } else if !radio_available {
        Err(DigitalTxRefusal::RadioUnavailable)
    } else if !has_slot_timing && mode != WorkspaceMode::Cw {
        Err(DigitalTxRefusal::BackendUnavailable)
    } else {
        Ok(())
    }
}

/// Checks whether a native-mode transmission may be queued (see
/// [`digital_gate`]).
pub fn digital_tx_gate(
    suppress_canceled_events: bool,
    ft8_tx_active: bool,
    digital_tx_active: bool,
    radio_available: bool,
    mode: WorkspaceMode,
    has_slot_timing: bool,
) -> (r: Result<(), DigitalTxRefusal>)
    ensures
        r == digital_gate(
            suppress_canceled_events,
            ft8_tx_active,
            digital_tx_active,
            radio_available,
            mode,
            has_slot_timing,
        ),
{
    if suppress_canceled_events {
        Err(DigitalTxRefusal::CancellationSettling)
    } else if ft8_tx_active || digital_tx_active {
        Err(DigitalTxRefusal::OtherTransmissionActive)
    } else if !radio_available {
        Err(DigitalTxRefusal::RadioUnavailable)
    } else if !has_slot_timing && mode != WorkspaceMode::Cw {
        Err(DigitalTxRefusal::BackendUnavailable)
    } else {
        Ok(())
    }
}

/// The part of the native-mode sequencer state that queueing and the
/// transmit worker's events change. Sessions are kept per mode by the
/// caller, which hands in the one an event concerns.
#[derive(Debug, Clone)]
pub struct DigitalTxState {
    /// A transmission was cancelled and its worker has not yet reported the
    /// end: its events are ignored until then.
    pub suppress_canceled_events: bool,
    /// The mode and period of the transmission on the air.
    pub started: Option<(WorkspaceMode, u64)>,
    pub queued_message: Option<String>,
    pub last_tx_message: Option<String>,
    pub ft4_autoseq: bool,
    pub ft4_stop_policy: AutoTxStopPolicy,
    /// The other native mode sequencing automatically, if any.
    pub native_autoseq_mode: Option<WorkspaceMode>,
    pub native_stop_policy: AutoTxStopPolicy,
    pub seq_target: Option<String>,
}

pub struct DigitalTxStateView {
    pub suppress_canceled_events: bool,
    pub started: Option<(WorkspaceMode, u64)>,
    pub queued_message: Option<Seq<char>>,
    pub last_tx_message: Option<Seq<char>>,
    pub ft4_autoseq: bool,
    pub ft4_stop_policy: AutoTxStopPolicy,
    pub native_autoseq_mode: Option<WorkspaceMode>,
    pub native_stop_policy: AutoTxStopPolicy,
    pub seq_target: Option<Seq<char>>,
}

impl View for DigitalTxState {
    type V = DigitalTxStateView;

    open spec fn view(&self) -> DigitalTxStateView {
        DigitalTxStateView {
            suppress_canceled_events: self.suppress_canceled_events,
            started: self.started,
            queued_message: opt_chars(self.queued_message),
            last_tx_message: opt_chars(self.last_tx_message),
            ft4_autoseq: self.ft4_autoseq,
            ft4_stop_policy: self.ft4_stop_policy,
            native_autoseq_mode: self.native_autoseq_mode,
            native_stop_policy: self.native_stop_policy,
            seq_target: opt_chars(self.seq_target),
        }
    }
}

/// An event of the native-mode transmit worker.
#[derive(Debug, Clone)]
pub enum DigitalTxEvent {
    AudioStarted(WorkspaceMode, u64),
    Complete,
    Failed(String),
}

pub enum DigitalTxEventView {
    AudioStarted(WorkspaceMode, u64),
    Complete,
    Failed(Seq<char>),
}

impl View for DigitalTxEvent {
    type V = DigitalTxEventView;

    open spec fn view(&self) -> DigitalTxEventView {
        match self {
            DigitalTxEvent::AudioStarted(m, p) => DigitalTxEventView::AudioStarted(*m, *p),
            DigitalTxEvent::Complete => DigitalTxEventView::Complete,
            DigitalTxEvent::Failed(e) => DigitalTxEventView::Failed(e@),
        }
    }
}

/// What the transmit status reports after an event.
#[derive(Debug, Clone)]
pub enum DigitalTxNote {
    /// The waveform of the mode is on the air.
    OnAir(WorkspaceMode),
    /// FT4 stopped after this transmission, as asked.
    Ft4Paused,
    /// The transmission ended; the receiver listens again.
    ReceiverBack,
    /// The QSO with `target` was completed and logged; automatic
    /// transmission of the mode is now off when `automatic_stopped`.
    Logged { mode: WorkspaceMode, target: String, automatic_stopped: bool },
    Failed(String),
}

pub enum DigitalTxNoteView {
    OnAir(WorkspaceMode),
    Ft4Paused,
    ReceiverBack,
    Logged { mode: WorkspaceMode, target: Seq<char>, automatic_stopped: bool },
    Failed(Seq<char>),
}

pub open spec fn note_view(n: DigitalTxNote) -> DigitalTxNoteView {
    match n {
        DigitalTxNote::OnAir(m) => DigitalTxNoteView::OnAir(m),
        DigitalTxNote::Ft4Paused => DigitalTxNoteView::Ft4Paused,
        DigitalTxNote::ReceiverBack => DigitalTxNoteView::ReceiverBack,
        DigitalTxNote::Logged { mode, target, automatic_stopped } => DigitalTxNoteView::Logged {
            mode,
            target: target@,
            automatic_stopped,
        },
        DigitalTxNote::Failed(e) => DigitalTxNoteView::Failed(e@),
    }
}

impl DigitalTxNote {
    /// The transmit status for the note; `mode_label` is how the desk names
    /// the note's mode.
    pub open spec fn status_text(self, mode_label: Seq<char>) -> Seq<char> {
        match self {
            DigitalTxNote::OnAir(_) => "🔥 "@ + mode_label + " waveform on the air"@,
            DigitalTxNote::Ft4Paused => "🔒 FT4 TX complete · automatic TX is paused"@,
            DigitalTxNote::ReceiverBack => "📡 TX complete · receiver back on watch"@,
            DigitalTxNote::Logged { target, automatic_stopped, .. } => if automatic_stopped {
                "🏁 "@ + mode_label + " QSO with "@ + target@ + " complete and logged"@
                    + " · automatic TX stopped"@
            } else {
                "🏁 "@ + mode_label + " QSO with "@ + target@ + " complete and logged"@
            },
            DigitalTxNote::Failed(e) => "⚠ TX failed · "@ + e@,
        }
    }

    /// The transmit status for the note (see [`DigitalTxNote::status_text`]).
    pub fn status(&self, mode_label: &str) -> (r: String)
        ensures
            r@ == self.status_text(mode_label@),
    {
        match self {
            DigitalTxNote::OnAir(_) => {
                let mut s = owned("🔥 ");
                s.append(mode_label);
                s.append(" waveform on the air");
                s
            },
            DigitalTxNote::Ft4Paused => owned("🔒 FT4 TX complete · automatic TX is paused"),
            DigitalTxNote::ReceiverBack => owned("📡 TX complete · receiver back on watch"),
            DigitalTxNote::Logged { target, automatic_stopped, .. } => {
                let mut s = owned("🏁 ");
                s.append(mode_label);
                s.append(" QSO with ");
                s.append(target.as_str());
                s.append(" complete and logged");
                if *automatic_stopped {
                    s.append(" · automatic TX stopped");
                }
                s
            },
            DigitalTxNote::Failed(e) => {
                let mut s = owned("⚠ TX failed · ");
                s.append(e.as_str());
                s
            },
        }
    }
}

/// What the caller does besides the state change.
#[derive(Debug, Clone)]
pub struct DigitalTxEffects {
    /// The end of a cancelled transmission arrived: clear the abort request.
    pub clear_abort: bool,
    /// The new transmit status; `None` leaves it as it is.
    pub note: Option<DigitalTxNote>,
    /// The unanswered-attempt count to record for the mode.
    pub attempts: Option<(WorkspaceMode, u8)>,
    /// The text that went on the air, with its mode and period, for the
    /// transmit chat.
    pub on_air: Option<(WorkspaceMode, u64, String)>,
    /// The mode and period of the transmission that ended.
    pub last_tx: Option<(WorkspaceMode, u64)>,
    /// FT4 paused itself: save the profile.
    pub persist_paused: bool,
    /// The QSO the transmission completed, with its mode, to be logged.
    pub logged: Option<(WorkspaceMode, QsoSession)>,
    /// The transmission failed: every mode's session is dropped.
    pub drop_all_sessions: bool,
}

pub struct DigitalTxEffectsView {
    pub clear_abort: bool,
    pub note: Option<DigitalTxNoteView>,
    pub attempts: Option<(WorkspaceMode, u8)>,
    pub on_air: Option<(WorkspaceMode, u64, Seq<char>)>,
    pub last_tx: Option<(WorkspaceMode, u64)>,
    pub persist_paused: bool,
    pub logged: Option<(WorkspaceMode, QsoSessionView)>,
    pub drop_all_sessions: bool,
}

pub open spec fn digital_effects_view(e: DigitalTxEffects) -> DigitalTxEffectsView {
    DigitalTxEffectsView {
        clear_abort: e.clear_abort,
        note: match e.note {
            Some(n) => Some(note_view(n)),
            None => None,
        },
        attempts: e.attempts,
        on_air: match e.on_air {
            Some((m, p, t)) => Some((m, p, t@)),
            None => None,
        },
        last_tx: e.last_tx,
        persist_paused: e.persist_paused,
        logged: match e.logged {
            Some((m, s)) => Some((m, s@)),
            None => None,
        },
        drop_all_sessions: e.drop_all_sessions,
    }
}

pub open spec fn quiet() -> DigitalTxEffectsView {
    DigitalTxEffectsView {
        clear_abort: false,
        note: None,
        attempts: None,
        on_air: None,
        last_tx: None,
        persist_paused: false,
        logged: None,
        drop_all_sessions: false,
    }
}

/// The mode whose session an event concerns: the mode that started for an
/// audio start, the mode on the air for a completion; none while a
/// cancelled transmission settles or for a failure.
pub open spec fn event_mode(s: DigitalTxStateView, e: DigitalTxEventView) -> Option<WorkspaceMode> {
    if s.suppress_canceled_events {
        None
    } else {
        match e {
            DigitalTxEventView::AudioStarted(m, _) => Some(m),
            DigitalTxEventView::Complete => match s.started {
                Some((m, _)) => Some(m),
                None => None,
            },
            DigitalTxEventView::Failed(_) => None,
        }
    }
}

pub open spec fn saturating_inc(a: u8) -> u8 {
    if a == u8::MAX {
        a
    } else {
        (a + 1) as u8
    }
}

/// The state, the session of the event's mode (`slot`) and the effects
/// after one event of the transmit worker. While a cancelled transmission
/// settles, events only wait for its end. An audio start records the
/// transmission and counts an attempt in the session. A completion makes
/// the queued text the last one sent, pauses FT4 when asked to stop after
/// the transmission, and after the final message logs and closes the
/// session (stopping automatic transmission when asked to stop after the
/// QSO). A failure stops automatic transmission and drops every session.
pub open spec fn digital_step(
    s: DigitalTxStateView,
    e: DigitalTxEventView,
    slot: Option<QsoSessionView>,
) -> (DigitalTxStateView, Option<QsoSessionView>, DigitalTxEffectsView) {
    if s.suppress_canceled_events {
        let terminal = e is Complete || e is Failed;
        (
            DigitalTxStateView { suppress_canceled_events: !terminal, ..s },
            slot,
            DigitalTxEffectsView { clear_abort: terminal, ..quiet() },
        )
    } else {
        match e {
            DigitalTxEventView::AudioStarted(m, p) => {
                let slot1 = match slot {
                    Some(x) => Some(QsoSessionView { tx_attempts: saturating_inc(x.tx_attempts), ..x }),
                    None => None,
                };
                (
                    DigitalTxStateView { started: Some((m, p)), ..s },
                    slot1,
                    DigitalTxEffectsView {
                        note: Some(DigitalTxNoteView::OnAir(m)),
                        attempts: match slot1 {
                            Some(x) => Some((m, x.tx_attempts)),
                            None => None,
                        },
                        on_air: match s.queued_message {
                            Some(t) => Some((m, p, t)),
                            None => None,
                        },
                        ..quiet()
                    },
                )
            },
            DigitalTxEventView::Complete => {
                let paused = (s.started matches Some((m, _)) && m == WorkspaceMode::Ft4)
                    && s.ft4_stop_policy == AutoTxStopPolicy::AfterNextTx;
                let base = DigitalTxStateView {
                    started: None,
                    last_tx_message: s.queued_message,
                    queued_message: None,
                    ft4_stop_policy: if paused {
                        AutoTxStopPolicy::Continuous
                    } else {
                        s.ft4_stop_policy
                    },
                    ft4_autoseq: s.ft4_autoseq && !paused,
                    ..s
                };
                let fx = DigitalTxEffectsView {
                    note: Some(
                        if paused {
                            DigitalTxNoteView::Ft4Paused
                        } else {
                            DigitalTxNoteView::ReceiverBack
                        },
                    ),
                    last_tx: s.started,
                    persist_paused: paused,
                    ..quiet()
                };
                match (s.started, slot) {
                    (Some((m, _)), Some(x)) => if x.stage == QsoStage::FinalSent {
                        let policy = if m == WorkspaceMode::Ft4 {
                            base.ft4_stop_policy
                        } else {
                            base.native_stop_policy
                        };
                        let stop = policy == AutoTxStopPolicy::AfterCurrentQso;
                        let after = DigitalTxStateView {
                            seq_target: None,
                            ft4_autoseq: base.ft4_autoseq && !stop,
                            ft4_stop_policy: if stop {
                                AutoTxStopPolicy::Continuous
                            } else {
                                base.ft4_stop_policy
                            },
                            native_autoseq_mode: if stop {
                                None
                            } else {
                                base.native_autoseq_mode
                            },
                            native_stop_policy: if stop {
                                AutoTxStopPolicy::Continuous
                            } else {
                                base.native_stop_policy
                            },
                            ..base
                        };
                        let stopped = if m == WorkspaceMode::Ft4 {
                            !after.ft4_autoseq
                        } else {
                            after.native_autoseq_mode is None
                        };
                        (
                            after,
                            None,
                            DigitalTxEffectsView {
                                note: Some(
                                    DigitalTxNoteView::Logged {
                                        mode: m,
                                        target: x.target,
                                        automatic_stopped: stopped,
                                    },
                                ),
                                logged: Some((m, x)),
                                ..fx
                            },
                        )
                    } else {
                        (base, slot, fx)
                    },
                    _ => (base, slot, fx),
                }
            },
            DigitalTxEventView::Failed(err) => (
                DigitalTxStateView {
                    started: None,
                    queued_message: None,
                    ft4_stop_policy: AutoTxStopPolicy::Continuous,
                    ft4_autoseq: false,
                    seq_target: None,
                    native_autoseq_mode: None,
                    ..s
                },
                None,
                DigitalTxEffectsView {
                    note: Some(DigitalTxNoteView::Failed(err)),
                    drop_all_sessions: true,
                    ..quiet()
                },
            ),
        }
    }
}

fn clone_text(o: &Option<String>) -> (r: Option<String>)
    ensures
        opt_chars(r) == opt_chars(*o),
{
    match o {
        Some(t) => Some(t.clone()),
        None => None,
    }
}

impl DigitalTxState {
    /// The mode whose session the caller hands in with `event` (see
    /// [`event_mode`]).
    pub fn session_mode(&self, event: &DigitalTxEvent) -> (r: Option<WorkspaceMode>)
        ensures
            r == event_mode(self@, event@),
    {
        if self.suppress_canceled_events {
            None
        } else {
            match event {
                DigitalTxEvent::AudioStarted(m, _) => Some(*m),
                DigitalTxEvent::Complete => match self.started {
                    Some((m, _)) => Some(m),
                    None => None,
                },
                DigitalTxEvent::Failed(_) => None,
            }
        }
    }

    /// Records that `compose` was queued: the trimmed text waits to go on
    /// the air.
    pub fn record_queued(&mut self, compose: &str)
        ensures
            final(self)@ == (DigitalTxStateView {
                queued_message: Some(text::trim(compose@)),
                ..old(self)@
            }),
    {
        self.queued_message = Some(string_of(&strip_chars(&chars_of(compose), CharClass::Whitespace)));
    }

    /// Stops the native transmission by hand; `tx_active` says whether one
    /// is on the air. A transmission on the air, started or queued is
    /// cancelled, and its worker's events are ignored until it ends.
    pub fn stop(&mut self, tx_active: bool)
        ensures
            final(self)@ == (DigitalTxStateView {
                suppress_canceled_events: if tx_active || old(self)@.started is Some
                    || old(self)@.queued_message is Some {
                    true
                } else {
                    old(self)@.suppress_canceled_events
                },
                queued_message: None,
                ..old(self)@
            }),
    {
        if tx_active || self.started.is_some() || self.queued_message.is_some() {
            self.suppress_canceled_events = true;
        }
        self.queued_message = None;
    }

    /// Applies one event of the transmit worker; `session` is the session of
    /// the mode [`DigitalTxState::session_mode`] names (see
    /// [`digital_step`]).
    pub fn apply_tx_event(&mut self, event: DigitalTxEvent, session: &mut Option<QsoSession>) -> (r:
        DigitalTxEffects)
        ensures
            ({
                let (s1, slot1, fx) = digital_step(old(self)@, event@, opt_session(*old(session)));
                &&& final(self)@ == s1
                &&& opt_session(*final(session)) == slot1
                &&& digital_effects_view(r) == fx
            }),
    {
        let mut fx = DigitalTxEffects {
            clear_abort: false,
            note: None,
            attempts: None,
            on_air: None,
            last_tx: None,
            persist_paused: false,
            logged: None,
            drop_all_sessions: false,
        };
        if self.suppress_canceled_events {
            let terminal = match event {
                DigitalTxEvent::Complete => true,
                DigitalTxEvent::Failed(_) => true,
                _ => false,
            };
            if terminal {
                self.suppress_canceled_events = false;
            }
            fx.clear_abort = terminal;
            return fx;
        }
        match event {
            DigitalTxEvent::AudioStarted(m, p) => {
                self.started = Some((m, p));
                match session.take() {
                    Some(mut x) => {
                        x.tx_attempts = x.tx_attempts.saturating_add(1);
                        fx.attempts = Some((m, x.tx_attempts));
                        *session = Some(x);
                    },
                    None => {},
                }
                fx.on_air = match clone_text(&self.queued_message) {
                    Some(t) => Some((m, p, t)),
                    None => None,
                };
                fx.note = Some(DigitalTxNote::OnAir(m));
                fx
            },
            DigitalTxEvent::Complete => {
                let started = self.started;
                self.started = None;
                self.last_tx_message = self.queued_message.take();
                let paused = match started {
                    Some((m, _)) => m == WorkspaceMode::Ft4 && self.ft4_stop_policy
                        == AutoTxStopPolicy::AfterNextTx,
                    None => false,
                };
                if paused {
                    self.ft4_stop_policy = AutoTxStopPolicy::Continuous;
                    self.ft4_autoseq = false;
                }
                fx.note = Some(
                    if paused {
                        DigitalTxNote::Ft4Paused
                    } else {
                        DigitalTxNote::ReceiverBack
                    },
                );
                fx.last_tx = started;
                fx.persist_paused = paused;
                match started {
                    Some((m, _)) => match session.take() {
                        Some(x) => if x.stage == QsoStage::FinalSent {
                            let policy = if m == WorkspaceMode::Ft4 {
                                self.ft4_stop_policy
                            } else {
                                self.native_stop_policy
                            };
                            self.seq_target = None;
                            if policy == AutoTxStopPolicy::AfterCurrentQso {
                                self.ft4_autoseq = false;
                                self.ft4_stop_policy = AutoTxStopPolicy::Continuous;
                                self.native_autoseq_mode = None;
                                self.native_stop_policy = AutoTxStopPolicy::Continuous;
                            }
                            let stopped = if m == WorkspaceMode::Ft4 {
                                !self.ft4_autoseq
                            } else {
                                self.native_autoseq_mode.is_none()
                            };
                            fx.note = Some(
                                DigitalTxNote::Logged {
                                    mode: m,
                                    target: x.target.clone(),
                                    automatic_stopped: stopped,
                                },
                            );
                            fx.logged = Some((m, x));
                        } else {
                            *session = Some(x);
                        },
                        None => {},
                    },
                    None => {},
                }
                fx
            },
            DigitalTxEvent::Failed(error) => {
                self.started = None;
                self.queued_message = None;
                self.ft4_stop_policy = AutoTxStopPolicy::Continuous;
                self.ft4_autoseq = false;
                self.seq_target = None;
                self.native_autoseq_mode = None;
                *session = None;
                fx.note = Some(DigitalTxNote::Failed(error));
                fx.drop_all_sessions = true;
                fx
            },
        }
    }
}

} // verus!
