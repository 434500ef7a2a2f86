//! Pipeline telemetry and session identifiers.

pub mod metrics;
pub mod recent;
pub mod session_logger;
pub mod system;
