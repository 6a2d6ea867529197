//! Logic behind the desk panels: application log, automation cockpit,
//! radio devices and contact log.
pub mod app_log;
pub mod automation;
pub mod devices;
pub mod log;
