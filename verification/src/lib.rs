//! Dispatch of proof-of-work search batches to compute devices: device
//! selection, the per-device engine with its adaptive batch sizing, and the
//! planning of one engine per selected device.

pub mod text;
pub mod error;
pub mod common;
pub mod selector;
pub mod batch;
pub mod extensions;
pub mod miner;
pub mod orchestrator;
