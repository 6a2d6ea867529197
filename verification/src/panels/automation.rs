//! Labels of the automation cockpit.
use vstd::prelude::*;

verus! {

/// What an automation script may be allowed to do.
#[derive(Debug, Clone, Copy, PartialEq, Eq, Structural)]
pub enum Capability {
    UiNotification,
    ExternalSend,
    ServerRead,
    ServerPublish,
    SetCompose,
    RadioControl,
    Transmit,
}

/// What an automation script may observe.
#[derive(Debug, Clone, Copy, PartialEq, Eq, Structural)]
pub enum EventKind {
    Decode,
    CallsignHit,
    QsoLogged,
    RadioState,
    ContestState,
    OperatorProfile,
    Command,
    ComponentState,
    ExternalMessage,
    ServerMessage,
    Timer,
    ControlRead,
}

pub open spec fn capability_text(capability: Capability) -> Seq<char> {
    match capability {
        Capability::UiNotification => "UI notifications"@,
        Capability::ExternalSend => "External send"@,
        Capability::ServerRead => "Server read"@,
        Capability::ServerPublish => "Server publish"@,
        Capability::SetCompose => "Set compose text"@,
        Capability::RadioControl => "Radio controls"@,
        Capability::Transmit => "Transmit"@,
    }
}

/// The cockpit's name for a capability.
pub fn capability_label(capability: Capability) -> (r: &'static str)
    ensures
        r@ == capability_text(capability),
{
    match capability {
        Capability::UiNotification => "UI notifications",
        Capability::ExternalSend => "External send",
        Capability::ServerRead => "Server read",
        Capability::ServerPublish => "Server publish",
        Capability::SetCompose => "Set compose text",
        Capability::RadioControl => "Radio controls",
        Capability::Transmit => "Transmit",
    }
}

pub open spec fn event_text(event: EventKind) -> Seq<char> {
    match event {
        EventKind::Decode => "decode"@,
        EventKind::CallsignHit => "callsign_hit"@,
        EventKind::QsoLogged => "qso_logged"@,
        EventKind::RadioState => "radio_state"@,
        EventKind::ContestState => "contest_state"@,
        EventKind::OperatorProfile => "operator_profile"@,
        EventKind::Command => "command"@,
        EventKind::ComponentState => "component_state"@,
        EventKind::ExternalMessage => "external_message"@,
        EventKind::ServerMessage => "server_message"@,
        EventKind::Timer => "timer"@,
        EventKind::ControlRead => "control_read"@,
    }
}

/// The name under which scripts subscribe to an event.
pub fn event_label(event: EventKind) -> (r: &'static str)
    ensures
        r@ == event_text(event),
{
    match event {
        EventKind::Decode => "decode",
        EventKind::CallsignHit => "callsign_hit",
        EventKind::QsoLogged => "qso_logged",
        EventKind::RadioState => "radio_state",
        EventKind::ContestState => "contest_state",
        EventKind::OperatorProfile => "operator_profile",
        EventKind::Command => "command",
        EventKind::ComponentState => "component_state",
        EventKind::ExternalMessage => "external_message",
        EventKind::ServerMessage => "server_message",
        EventKind::Timer => "timer",
        EventKind::ControlRead => "control_read",
    }
}

} // verus!
