//! The health module: probes acted on by the application through shared handles, and
//! the results they report.

pub mod health_check;
pub mod health_probe;
pub mod health_result;
pub mod kick;
pub mod manual;
