//! Field agent for an unattended gateway: a signed, staged update pipeline, the
//! applier that promotes a staged update, and the hardware watchdog supervisor.
pub mod applier;
pub mod poller;
pub mod signature;
pub mod storage;
pub mod watchdog;
