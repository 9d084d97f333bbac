//! The client-side surface: configuration for opening a device, and the
//! errors a handle reports when the scheduler task is gone.

pub mod queue;

use vstd::prelude::*;

verus! {

/// Error a handle reports when the scheduler cannot be reached or tore down
/// before answering.
#[derive(Debug, Clone, Copy, PartialEq, Eq, Structural)]
pub enum HandleError {
    /// The scheduler's inbox is closed, or the per-call completion was
    /// dropped before it was resolved.
    TaskFailure,
}

/// Configuration of a client: where the serial device lives.
#[derive(Debug, Clone)]
pub struct DeconzClientConfig {
    /// The path to the serial device, such as `/dev/ttyUSB0`.
    pub device_path: String,
}

/// A configured client, ready for the surrounding application to open the
/// device and start the scheduler task with.
#[derive(Debug, Clone)]
pub struct DeconzClient {
    pub config: DeconzClientConfig,
}

impl DeconzClient {
    /// Wraps a configuration.
    pub fn new(config: DeconzClientConfig) -> (r: DeconzClient)
        ensures
            r.config.device_path@ == config.device_path@,
    {
        DeconzClient { config }
    }
}

} // verus!
