//! Health and monitoring library: liveness and readiness checks built from probes,
//! the lifecycle of the service that serves them, and the codes it reports over FFI.

pub mod clock;
pub mod error;
pub mod hams;
pub mod health;
pub mod healthcheck;
pub mod healthkicked;
pub mod log_record;
pub mod probe;
pub mod probes;
pub mod text;
