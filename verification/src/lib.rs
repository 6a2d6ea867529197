//! Operating logic of a ham-radio station desk: WSJT message parsing, the
//! automatic QSO sequencers of FT8 and the native digital modes and their
//! transmit pipelines, JS8 compose parsing, per-mode band plans and labels,
//! log-severity classification, radio connection checks and operator-profile
//! naming and listing.
pub mod modes;
pub mod panels;
pub mod profile;
pub mod profile_manager;
pub mod text;
