//! Heart-rate monitor bridge: the decision logic that claims a wireless
//! heart-rate peripheral, decodes its notification frames, drives the
//! session's reconnect state machine, keeps the device registry and
//! coordinates shutdown.

pub mod adaptors;
pub mod config;
pub mod manager;
pub mod reading;
pub mod selection;
pub mod session;
pub mod shutdown;
pub mod snapshot;
