//! State of the FT8 sequencer.
use crate::modes::exchange::QsoSession;
use vstd::prelude::*;

verus! {

/// What the FT8 sequencer is waiting for.
#[derive(Debug, Clone, Copy, PartialEq, Eq, Structural)]
pub enum Ft8SeqState {
    Idle,
    CqArmed,
    ReplyArmed,
    TxQueued,
}

/// How a transmission is placed in time.
#[derive(Debug, Clone, Copy, PartialEq, Eq, Structural)]
pub enum Ft8TxQueuePolicy {
    Standard,
    ReplyAsap,
    NextSlotOnly,
}

/// A reply picked by hand while a canceled transmission is still settling.
#[derive(Debug)]
pub struct PendingManualFt8Reply {
    pub compose: String,
    pub target: String,
    pub session: QsoSession,
    pub freq_hz: u32,
    pub source_period: u64,
    pub move_tx_to_remote: bool,
}

impl Ft8SeqState {
    pub open spec fn label_text(self) -> Seq<char> {
        match self {
            Ft8SeqState::Idle => "IDLE"@,
            Ft8SeqState::CqArmed => "CQ ARMED"@,
            Ft8SeqState::ReplyArmed => "REPLY ARMED"@,
            Ft8SeqState::TxQueued => "TX QUEUED"@,
        }
    }

    pub fn label(self) -> (r: &'static str)
        ensures
            r@ == self.label_text(),
    {
        match self {
            Ft8SeqState::Idle => "IDLE",
            Ft8SeqState::CqArmed => "CQ ARMED",
            Ft8SeqState::ReplyArmed => "REPLY ARMED",
            Ft8SeqState::TxQueued => "TX QUEUED",
        }
    }
}

} // verus!
