//! Media capture orchestration: device capabilities, processing topologies,
//! stream lifecycle and track publishing bookkeeping.
pub mod capability;
pub mod cli;
pub mod devices;
pub mod error;
pub mod publish;
pub mod recording;
pub mod register;
pub mod stream;
pub mod text;
pub mod topology;
pub mod utils;
