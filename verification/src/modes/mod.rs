//! The operating modes of the desk: message parsing, sequencers, transmit
//! pipelines, band plans and mode labels.
pub mod band_plan;
pub mod cw;
pub mod digital_tx;
pub mod exchange;
pub mod exchange_laws;
pub mod fst4;
pub mod ft4_laws;
pub mod ft4_runtime;
pub mod ft8;
pub mod ft8_laws;
pub mod ft8_runtime;
pub mod ft8_tx;
pub mod ft8_tx_laws;
pub mod ft8_types;
pub mod js8;
pub mod jt65;
pub mod jt9;
pub mod native;
pub mod q65;
pub mod rade;
pub mod sstv;
pub mod voice;
pub mod workspace;
pub mod wspr;
