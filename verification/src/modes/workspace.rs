//! Operating workspaces and radio presets.
use vstd::prelude::*;

verus! {

/// The operating workspace (mode) of the station desk.
#[derive(Debug, Clone, Copy, PartialEq, Eq, Structural)]
pub enum WorkspaceMode {
    Ft8,
    Ft4,
    Fst4,
    Jt9,
    Jt65,
    Q65,
    Wspr,
    Msk144,
    Js8,
    Cw,
    Fldigi,
    Sstv,
}

/// The radio's base demodulation mode.
#[derive(Debug, Clone, Copy, PartialEq, Eq, Structural)]
pub enum BaseMode {
    Usb,
    Lsb,
    Cw,
    CwR,
    Rtty,
    RttyR,
    Am,
}

/// How the radio is set up for a workspace.
#[derive(Debug, Clone, Copy, PartialEq, Eq, Structural)]
pub struct WorkspaceRadioPreset {
    pub base_mode: BaseMode,
    pub data_mode: bool,
    pub filter: u8,
}

} // verus!
