//! The FT8 transmit pipeline: whether a transmission may be queued, what
//! queueing it records, and how the sequencer state follows the events of
//! the transmit worker.
use crate::modes::exchange::{
    opt_chars, parse_message, AutoTxStopPolicy, QsoSession, QsoSessionView, QsoStage,
};
use crate::modes::ft8_runtime::opt_session;
use crate::modes::ft8_types::Ft8SeqState;
use crate::text;
use crate::text::{chars_of, owned, push_u64_decimal, string_of, strip_chars, CharClass};
use vstd::prelude::*;

verus! {

/// Why a transmission from the compose box is not queued.
#[derive(Debug, Clone, Copy, PartialEq, Eq, Structural)]
pub enum Ft8TxRefusal {
    EmptyCompose,
    RadioUnavailable,
    AlreadyScheduled,
    OtherModeTransmitting,
    /// The session reached the limit of unanswered attempts; the sequence
    /// is cancelled.
    MaxAttempts(u8),
}

impl Ft8TxRefusal {
    pub open spec fn message_text(self) -> Seq<char> {
        match self {
            Ft8TxRefusal::EmptyCompose => "TX not queued: compose is empty"@,
            Ft8TxRefusal::RadioUnavailable => "TX unavailable: radio control is disabled"@,
            Ft8TxRefusal::AlreadyScheduled => "TX not queued: another transmission is already scheduled"@,
            Ft8TxRefusal::OtherModeTransmitting => "TX not queued: another digital mode is transmitting"@,
            Ft8TxRefusal::MaxAttempts(max) => "Stopped after "@ + text::nat_decimal(max as nat)
                + " unanswered attempts"@,
        }
    }

    /// The sequencer status shown for the refusal.
    pub fn message(self) -> (r: String)
        ensures
            r@ == self.message_text(),
    {
        match self {
            Ft8TxRefusal::EmptyCompose => owned("TX not queued: compose is empty"),
            Ft8TxRefusal::RadioUnavailable => owned("TX unavailable: radio control is disabled"),
            Ft8TxRefusal::AlreadyScheduled => owned(
                "TX not queued: another transmission is already scheduled",
            ),
            Ft8TxRefusal::OtherModeTransmitting => owned(
                "TX not queued: another digital mode is transmitting",
            ),
            Ft8TxRefusal::MaxAttempts(max) => {
                let mut m = owned("Stopped after ");
                push_u64_decimal(&mut m, max as u64);
                m.append(" unanswered attempts");
                m
            },
        }
    }
}

/// Whether a transmission may be queued, checked in this order: something
/// to send, a radio to key, no FT8 transmission on the air or queued, no
/// other digital mode on the air, and attempts left in the session. When it
/// may, the result says whether a cancellation still waiting for its worker
/// is to be forgotten.
pub open spec fn tx_gate(
    compose: Seq<char>,
    radio_available: bool,
    tx_active: bool,
    tx_queued: bool,
    other_mode_tx_active: bool,
    suppress_canceled_events: bool,
    session_attempts: Option<u8>,
    max_attempts: u8,
) -> Result<bool, Ft8TxRefusal> {
    if text::trim(compose).len() == 0 {
        Err(Ft8TxRefusal::EmptyCompose)
    } else if !radio_available {
        Err(Ft8TxRefusal::RadioUnavailable)
    } else if tx_active || tx_queued {
        Err(Ft8TxRefusal::AlreadyScheduled)
    } else if other_mode_tx_active {
        Err(Ft8TxRefusal::OtherModeTransmitting)
    } else if session_attempts matches Some(a) && a >= max_attempts {
        Err(Ft8TxRefusal::MaxAttempts(max_attempts))
    } else {
        Ok(suppress_canceled_events)
    }
}

/// Checks whether the compose text may be queued for transmission (see
/// [`tx_gate`]).
pub fn ft8_tx_gate(
    compose: &str,
    radio_available: bool,
    tx_active: bool,
    tx_queued: bool,
    other_mode_tx_active: bool,
    suppress_canceled_events: bool,
    session_attempts: Option<u8>,
    max_attempts: u8,
) -> (r: Result<bool, Ft8TxRefusal>)
    ensures
        r == tx_gate(
            compose@,
            radio_available,
            tx_active,
            tx_queued,
            other_mode_tx_active,
            suppress_canceled_events,
            session_attempts,
            max_attempts,
        ),
{
    if strip_chars(&chars_of(compose), CharClass::Whitespace).len() == 0 {
        Err(Ft8TxRefusal::EmptyCompose)
    } else if !radio_available {
        Err(Ft8TxRefusal::RadioUnavailable)
    } else if tx_active || tx_queued {
        Err(Ft8TxRefusal::AlreadyScheduled)
    } else if other_mode_tx_active {
        Err(Ft8TxRefusal::OtherModeTransmitting)
    } else {
        match session_attempts {
            Some(a) => if a >= max_attempts {
                Err(Ft8TxRefusal::MaxAttempts(max_attempts))
            } else {
                Ok(suppress_canceled_events)
            },
            None => Ok(suppress_canceled_events),
        }
    }
}

/// The part of the FT8 sequencer state that queueing and the transmit
/// worker's events change.
#[derive(Debug, Clone)]
pub struct Ft8TxState {
    /// A transmission was cancelled and its worker has not yet reported the
    /// end: its events are ignored until then.
    pub suppress_canceled_events: bool,
    pub autoseq: bool,
    pub stop_policy: AutoTxStopPolicy,
    pub last_tx_was_cq: bool,
    pub queued_period: Option<u64>,
    pub started_period: Option<u64>,
    pub last_tx_period: Option<u64>,
    pub queued_message: Option<String>,
    pub last_tx_message: Option<String>,
    pub seq_state: Ft8SeqState,
    pub seq_target: Option<String>,
    pub session: Option<QsoSession>,
    pub status: String,
}

pub struct Ft8TxStateView {
    pub suppress_canceled_events: bool,
    pub autoseq: bool,
    pub stop_policy: AutoTxStopPolicy,
    pub last_tx_was_cq: bool,
    pub queued_period: Option<u64>,
    pub started_period: Option<u64>,
    pub last_tx_period: Option<u64>,
    pub queued_message: Option<Seq<char>>,
    pub last_tx_message: Option<Seq<char>>,
    pub seq_state: Ft8SeqState,
    pub seq_target: Option<Seq<char>>,
    pub session: Option<QsoSessionView>,
    pub status: Seq<char>,
}

impl View for Ft8TxState {
    type V = Ft8TxStateView;

    open spec fn view(&self) -> Ft8TxStateView {
        Ft8TxStateView {
            suppress_canceled_events: self.suppress_canceled_events,
            autoseq: self.autoseq,
            stop_policy: self.stop_policy,
            last_tx_was_cq: self.last_tx_was_cq,
            queued_period: self.queued_period,
            started_period: self.started_period,
            last_tx_period: self.last_tx_period,
            queued_message: opt_chars(self.queued_message),
            last_tx_message: opt_chars(self.last_tx_message),
            seq_state: self.seq_state,
            seq_target: opt_chars(self.seq_target),
            session: opt_session(self.session),
            status: self.status@,
        }
    }
}

/// The state once `compose` was queued for `period`: the queued text (trimmed),
/// whether it is a CQ, and one more attempt counted in the session.
pub open spec fn queued_state(s: Ft8TxStateView, compose: Seq<char>, period: u64) -> Ft8TxStateView {
    Ft8TxStateView {
        queued_message: Some(text::trim(compose)),
        queued_period: Some(period),
        started_period: None,
        last_tx_was_cq: crate::modes::exchange::message_of(compose) matches Some(p) && p.is_cq,
        seq_state: Ft8SeqState::TxQueued,
        session: match s.session {
            Some(x) => Some(
                QsoSessionView {
                    tx_attempts: if x.tx_attempts == u8::MAX {
                        u8::MAX
                    } else {
                        (x.tx_attempts + 1) as u8
                    },
                    ..x
                },
            ),
            None => None,
        },
        ..s
    }
}

impl Ft8TxState {
    /// Records that `compose` was queued for `period`, and returns the
    /// session's attempt count, if a session is open.
    pub fn record_queued(&mut self, compose: &str, period: u64) -> (r: Option<u8>)
        ensures
            final(self)@ == queued_state(old(self)@, compose@, period),
            r == (match final(self)@.session {
                Some(x) => Some(x.tx_attempts),
                None => None,
            }),
    {
        self.queued_message = Some(string_of(&strip_chars(&chars_of(compose), CharClass::Whitespace)));
        self.queued_period = Some(period);
        self.started_period = None;
        self.last_tx_was_cq = match parse_message(compose) {
            Some(p) => p.is_cq,
            None => false,
        };
        self.seq_state = Ft8SeqState::TxQueued;
        match self.session.take() {
            Some(mut x) => {
                x.tx_attempts = x.tx_attempts.saturating_add(1);
                let attempts = x.tx_attempts;
                self.session = Some(x);
                Some(attempts)
            },
            None => None,
        }
    }
}

/// An event of the FT8 transmit worker.
#[derive(Debug, Clone)]
pub enum Ft8TxEvent {
    PttConfirmed,
    AudioStarted,
    Complete,
    Failed(String),
}

pub enum Ft8TxEventView {
    PttConfirmed,
    AudioStarted,
    Complete,
    Failed(Seq<char>),
}

impl View for Ft8TxEvent {
    type V = Ft8TxEventView;

    open spec fn view(&self) -> Ft8TxEventView {
        match self {
            Ft8TxEvent::PttConfirmed => Ft8TxEventView::PttConfirmed,
            Ft8TxEvent::AudioStarted => Ft8TxEventView::AudioStarted,
            Ft8TxEvent::Complete => Ft8TxEventView::Complete,
            Ft8TxEvent::Failed(e) => Ft8TxEventView::Failed(e@),
        }
    }
}

/// What the caller does besides the state change.
#[derive(Debug, Clone)]
pub struct Ft8TxEffects {
    /// The end of a cancelled transmission arrived: arm the reply the
    /// operator picked meanwhile, if any.
    pub arm_pending_reply: bool,
    /// The text that just went on the air, for the transmit chat.
    pub on_air: Option<String>,
    /// Drop the prepared waveform.
    pub drop_waveform: bool,
    /// Clear the abort request.
    pub clear_abort: bool,
    /// Automatic transmission paused itself: save the profile.
    pub persist_paused: bool,
    /// The QSO the transmission completed, to be logged.
    pub logged: Option<QsoSession>,
}

pub struct Ft8TxEffectsView {
    pub arm_pending_reply: bool,
    pub on_air: Option<Seq<char>>,
    pub drop_waveform: bool,
    pub clear_abort: bool,
    pub persist_paused: bool,
    pub logged: Option<QsoSessionView>,
}

pub open spec fn effects_view(e: Ft8TxEffects) -> Ft8TxEffectsView {
    Ft8TxEffectsView {
        arm_pending_reply: e.arm_pending_reply,
        on_air: opt_chars(e.on_air),
        drop_waveform: e.drop_waveform,
        clear_abort: e.clear_abort,
        persist_paused: e.persist_paused,
        logged: opt_session(e.logged),
    }
}

pub open spec fn no_effects() -> Ft8TxEffectsView {
    Ft8TxEffectsView {
        arm_pending_reply: false,
        on_air: None,
        drop_waveform: false,
        clear_abort: false,
        persist_paused: false,
        logged: None,
    }
}

/// The session a completed transmission finishes: the open one, when the
/// final `RR73` or `73` was the transmission.
pub open spec fn finished_session(s: Option<QsoSessionView>) -> Option<QsoSessionView> {
    match s {
        Some(x) => if x.stage == QsoStage::FinalSent {
            Some(x)
        } else {
            None
        },
        None => None,
    }
}

pub open spec fn logged_status(target: Seq<char>) -> Seq<char> {
    "🏁 QSO with "@ + target + " complete and logged · beautiful!"@
}

/// The state after a `Complete` event, and the QSO it finishes.
pub open spec fn completion(s: Ft8TxStateView) -> (Ft8TxStateView, Ft8TxEffectsView) {
    let stop_after_tx = s.stop_policy == AutoTxStopPolicy::AfterNextTx;
    let policy = if stop_after_tx {
        AutoTxStopPolicy::Continuous
    } else {
        s.stop_policy
    };
    let autoseq = s.autoseq && !stop_after_tx;
    let status = if stop_after_tx {
        "🔒 TX complete · automatic TX is paused"@
    } else if s.last_tx_was_cq {
        "📣 CQ away · listening for callers"@
    } else {
        "📡 TX complete · ears open for the reply"@
    };
    let seq_state = if autoseq {
        if s.last_tx_was_cq {
            Ft8SeqState::CqArmed
        } else {
            Ft8SeqState::ReplyArmed
        }
    } else {
        Ft8SeqState::Idle
    };
    let base = Ft8TxStateView {
        stop_policy: policy,
        autoseq,
        status,
        last_tx_period: s.started_period,
        seq_state,
        queued_period: None,
        started_period: None,
        queued_message: None,
        ..s
    };
    let effects = Ft8TxEffectsView {
        drop_waveform: true,
        clear_abort: true,
        persist_paused: stop_after_tx,
        logged: finished_session(s.session),
        ..no_effects()
    };
    match finished_session(s.session) {
        None => (base, effects),
        Some(x) => {
            let stop_qso = policy == AutoTxStopPolicy::AfterCurrentQso;
            (
                Ft8TxStateView {
                    status: if stop_qso {
                        logged_status(x.target) + " · automatic TX stopped"@
                    } else {
                        logged_status(x.target)
                    },
                    seq_target: None,
                    session: None,
                    autoseq: autoseq && !stop_qso,
                    stop_policy: if stop_qso {
                        AutoTxStopPolicy::Continuous
                    } else {
                        policy
                    },
                    seq_state: if stop_qso {
                        Ft8SeqState::Idle
                    } else {
                        seq_state
                    },
                    ..base
                },
                effects,
            )
        },
    }
}

/// How the sequencer follows one event of the transmit worker. While a
/// cancelled transmission settles, events only wait for its end; otherwise
/// PTT and audio start are reported, completion clears the queue, records
/// the transmit period and finishes the QSO after the final message, and a
/// failure stops automatic operation and drops the session.
pub open spec fn tx_event_step(s: Ft8TxStateView, e: Ft8TxEventView) -> (
    Ft8TxStateView,
    Ft8TxEffectsView,
) {
    if s.suppress_canceled_events {
        let terminal = e is Complete || e is Failed;
        (
            Ft8TxStateView { suppress_canceled_events: !terminal, ..s },
            Ft8TxEffectsView { arm_pending_reply: terminal, ..no_effects() },
        )
    } else {
        match e {
            Ft8TxEventView::PttConfirmed => (
                Ft8TxStateView { status: "⚡ PTT confirmed · waveform launch is locked in"@, ..s },
                no_effects(),
            ),
            Ft8TxEventView::AudioStarted => (
                Ft8TxStateView {
                    started_period: s.queued_period,
                    last_tx_message: s.queued_message,
                    status: "🔥 FT8 waveform on the air"@,
                    ..s
                },
                Ft8TxEffectsView { on_air: s.queued_message, ..no_effects() },
            ),
            Ft8TxEventView::Complete => completion(s),
            Ft8TxEventView::Failed(err) => (
                Ft8TxStateView {
                    status: "⚠ TX failed · "@ + err,
                    seq_state: Ft8SeqState::Idle,
                    queued_period: None,
                    started_period: None,
                    queued_message: None,
                    autoseq: false,
                    stop_policy: AutoTxStopPolicy::Continuous,
                    seq_target: None,
                    session: None,
                    ..s
                },
                Ft8TxEffectsView { drop_waveform: true, ..no_effects() },
            ),
        }
    }
}

fn clone_text(o: &Option<String>) -> (r: Option<String>)
    ensures
        opt_chars(r) == opt_chars(*o),
{
    match o {
        Some(t) => Some(t.clone()),
        None => None,
    }
}

fn effects(
    arm_pending_reply: bool,
    on_air: Option<String>,
    drop_waveform: bool,
    clear_abort: bool,
    persist_paused: bool,
    logged: Option<QsoSession>,
) -> (r: Ft8TxEffects)
    ensures
        effects_view(r) == (Ft8TxEffectsView {
            arm_pending_reply,
            on_air: opt_chars(on_air),
            drop_waveform,
            clear_abort,
            persist_paused,
            logged: opt_session(logged),
        }),
{
    Ft8TxEffects { arm_pending_reply, on_air, drop_waveform, clear_abort, persist_paused, logged }
}

impl Ft8TxState {
    fn complete(&mut self) -> (r: Ft8TxEffects)
        requires
            !old(self).suppress_canceled_events,
        ensures
            (final(self)@, effects_view(r)) == completion(old(self)@),
    {
        let finished = match self.session.take() {
            Some(x) => if x.stage == QsoStage::FinalSent {
                Some(x)
            } else {
                self.session = Some(x);
                None
            },
            None => None,
        };
        let stop_after_tx = self.stop_policy == AutoTxStopPolicy::AfterNextTx;
        if stop_after_tx {
            self.stop_policy = AutoTxStopPolicy::Continuous;
            self.autoseq = false;
            self.status = owned("🔒 TX complete · automatic TX is paused");
        } else if self.last_tx_was_cq {
            self.status = owned("📣 CQ away · listening for callers");
        } else {
            self.status = owned("📡 TX complete · ears open for the reply");
        }
        self.last_tx_period = self.started_period;
        self.seq_state = if self.autoseq {
            if self.last_tx_was_cq {
                Ft8SeqState::CqArmed
            } else {
                Ft8SeqState::ReplyArmed
            }
        } else {
            Ft8SeqState::Idle
        };
        self.queued_period = None;
        self.started_period = None;
        self.queued_message = None;
        match finished {
            Some(x) => {
                let mut status = owned("🏁 QSO with ");
                status.append(x.target.as_str());
                status.append(" complete and logged · beautiful!");
                self.seq_target = None;
                if self.stop_policy == AutoTxStopPolicy::AfterCurrentQso {
                    self.autoseq = false;
                    self.stop_policy = AutoTxStopPolicy::Continuous;
                    self.seq_state = Ft8SeqState::Idle;
                    status.append(" · automatic TX stopped");
                }
                self.status = status;
                effects(false, None, true, true, stop_after_tx, Some(x))
            },
            None => effects(false, None, true, true, stop_after_tx, None),
        }
    }

    /// Applies one event of the transmit worker (see [`tx_event_step`]).
    pub fn apply_tx_event(&mut self, event: Ft8TxEvent) -> (r: Ft8TxEffects)
        ensures
            (final(self)@, effects_view(r)) == tx_event_step(old(self)@, event@),
    {
        if self.suppress_canceled_events {
            let terminal = match event {
                Ft8TxEvent::Complete => true,
                Ft8TxEvent::Failed(_) => true,
                _ => false,
            };
            if terminal {
                self.suppress_canceled_events = false;
            }
            return effects(terminal, None, false, false, false, None);
        }
        match event {
            Ft8TxEvent::PttConfirmed => {
                self.status = owned("⚡ PTT confirmed · waveform launch is locked in");
                effects(false, None, false, false, false, None)
            },
            Ft8TxEvent::AudioStarted => {
                self.started_period = self.queued_period;
                self.last_tx_message = clone_text(&self.queued_message);
                self.status = owned("🔥 FT8 waveform on the air");
                effects(false, clone_text(&self.queued_message), false, false, false, None)
            },
            Ft8TxEvent::Complete => self.complete(),
            Ft8TxEvent::Failed(error) => {
                let mut status = owned("⚠ TX failed · ");
                status.append(error.as_str());
                self.status = status;
                self.seq_state = Ft8SeqState::Idle;
                self.queued_period = None;
                self.started_period = None;
                self.queued_message = None;
                self.autoseq = false;
                self.stop_policy = AutoTxStopPolicy::Continuous;
                self.seq_target = None;
                self.session = None;
                effects(false, None, true, false, false, None)
            },
        }
    }
}

/// The state after transmission was stopped by hand: a transmission on the
/// air or queued is cancelled (its worker's events are then ignored until
/// it ends), and nothing stays queued.
pub open spec fn force_stopped(s: Ft8TxStateView, tx_active: bool) -> Ft8TxStateView {
    Ft8TxStateView {
        suppress_canceled_events: if tx_active || s.queued_period is Some {
            true
        } else {
            s.suppress_canceled_events
        },
        queued_period: None,
        started_period: None,
        queued_message: None,
        seq_state: Ft8SeqState::Idle,
        status: "TX force-stopped"@,
        ..s
    }
}

/// The status shown once a reply picked from the decodes is armed.
pub open spec fn armed_reply_text(
    target: Seq<char>,
    rx_tone_hz: u32,
    tx_tone_hz: u32,
    tx_moved: bool,
    hold_tx_freq: bool,
) -> Seq<char> {
    let head = "Reply armed for "@ + target;
    if hold_tx_freq {
        head + "; RX moved to "@ + text::nat_decimal(rx_tone_hz as nat) + " Hz (TX held)"@
    } else if tx_moved {
        head + "; RX/TX set to "@ + text::nat_decimal(rx_tone_hz as nat) + " Hz"@
    } else {
        head + "; RX moved to "@ + text::nat_decimal(rx_tone_hz as nat) + " Hz (TX stays at "@
            + text::nat_decimal(tx_tone_hz as nat) + " Hz)"@
    }
}

impl Ft8TxState {
    /// Stops transmission by hand; `tx_active` says whether a transmission
    /// is on the air.
    pub fn force_stop(&mut self, tx_active: bool)
        ensures
            final(self)@ == force_stopped(old(self)@, tx_active),
    {
        if tx_active || self.queued_period.is_some() {
            self.suppress_canceled_events = true;
        }
        self.queued_period = None;
        self.started_period = None;
        self.queued_message = None;
        self.seq_state = Ft8SeqState::Idle;
        self.status = owned("TX force-stopped");
    }

    /// Stops transmission and automatic operation, showing `reason`.
    pub fn cancel_sequence(&mut self, tx_active: bool, reason: String)
        ensures
            final(self)@ == (Ft8TxStateView {
                autoseq: false,
                stop_policy: AutoTxStopPolicy::Continuous,
                status: reason@,
                ..force_stopped(old(self)@, tx_active)
            }),
    {
        self.force_stop(tx_active);
        self.autoseq = false;
        self.stop_policy = AutoTxStopPolicy::Continuous;
        self.status = reason;
    }

    /// Arms the reply to `target` picked from the decodes, with the session
    /// it opens, and reports the tones the pick set.
    pub fn arm_reply(
        &mut self,
        target: String,
        session: QsoSession,
        rx_tone_hz: u32,
        tx_tone_hz: u32,
        tx_moved: bool,
        hold_tx_freq: bool,
    )
        ensures
            final(self)@ == (Ft8TxStateView {
                autoseq: true,
                seq_state: Ft8SeqState::ReplyArmed,
                seq_target: Some(target@),
                session: Some(session@),
                status: armed_reply_text(target@, rx_tone_hz, tx_tone_hz, tx_moved, hold_tx_freq),
                ..old(self)@
            }),
    {
        let mut status = owned("Reply armed for ");
        status.append(target.as_str());
        if hold_tx_freq {
            status.append("; RX moved to ");
            push_u64_decimal(&mut status, rx_tone_hz as u64);
            status.append(" Hz (TX held)");
        } else if tx_moved {
            status.append("; RX/TX set to ");
            push_u64_decimal(&mut status, rx_tone_hz as u64);
            status.append(" Hz");
        } else {
            status.append("; RX moved to ");
            push_u64_decimal(&mut status, rx_tone_hz as u64);
            status.append(" Hz (TX stays at ");
            push_u64_decimal(&mut status, tx_tone_hz as u64);
            status.append(" Hz)");
        }
        self.autoseq = true;
        self.seq_state = Ft8SeqState::ReplyArmed;
        self.seq_target = Some(target);
        self.session = Some(session);
        self.status = status;
    }
}

/// How many entries the transmit chat keeps.
pub const TX_CHAT_CAPACITY: usize = 100;

/// The last `n` entries of `s` (all of them when there are fewer).
pub open spec fn keep_last<T>(s: Seq<T>, n: nat) -> Seq<T> {
    if s.len() > n {
        s.subrange(s.len() - n, s.len() as int)
    } else {
        s
    }
}

/// Appends `entry` to the chat, dropping the oldest entries beyond
/// [`TX_CHAT_CAPACITY`].
pub fn push_bounded<T>(chat: &mut Vec<T>, entry: T)
    ensures
        final(chat)@ == keep_last(old(chat)@.push(entry), TX_CHAT_CAPACITY as nat),
{
    let ghost all = old(chat)@.push(entry);
    chat.push(entry);
    let ghost mut k: int = 0;
    assert(all.subrange(0, all.len() as int) =~= all);
    while chat.len() > TX_CHAT_CAPACITY
        invariant
            0 <= k <= all.len(),
            chat@ == all.subrange(k, all.len() as int),
            k > 0 ==> all.len() - k >= TX_CHAT_CAPACITY,
        decreases chat.len(),
    {
        chat.remove(0);
        proof {
            k = k + 1;
        }
        assert(chat@ =~= all.subrange(k, all.len() as int));
    }
    assert(chat@ =~= keep_last(all, TX_CHAT_CAPACITY as nat));
}

/// A line of the FT8 transmit chat.
#[derive(Debug, Clone, PartialEq, Eq)]
pub struct Ft8TxChatEntry {
    pub period: u64,
    pub utc: String,
    pub message: String,
}

/// The entry repeats the chat's last line: same period, same text.
pub open spec fn repeats_last(chat: Seq<Ft8TxChatEntry>, entry: Ft8TxChatEntry) -> bool {
    chat.len() > 0 && chat.last().period == entry.period && chat.last().message@ == entry.message@
}

/// Records a transmission that went on the air in the chat, unless it
/// repeats the last line; the chat keeps the newest [`TX_CHAT_CAPACITY`]
/// lines.
pub fn record_ft8_tx_chat(chat: &mut Vec<Ft8TxChatEntry>, entry: Ft8TxChatEntry)
    ensures
        final(chat)@ == (if repeats_last(old(chat)@, entry) {
            old(chat)@
        } else {
            keep_last(old(chat)@.push(entry), TX_CHAT_CAPACITY as nat)
        }),
{
    let n = chat.len();
    if n > 0 {
        let last = &chat[n - 1];
        if last.period == entry.period && text::chars_eq(
            &chars_of(last.message.as_str()),
            &chars_of(entry.message.as_str()),
        ) {
            return;
        }
    }
    push_bounded(chat, entry);
}

} // verus!
