//! Verified coordination logic for driving a bwt daemon from a managed host runtime.
pub mod config;
pub mod fault;
pub mod relay;
pub mod sequencer;
pub mod shutdown;
