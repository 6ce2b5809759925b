//! Token mining executions: creating them, transferring them, recording the
//! result of running them, and assigning them to token mining configurations.
pub mod types;
pub mod configuration;
pub mod unique_id;
pub mod pallet;
pub mod laws;
