//! The vulnerability scanner's data model and the conversions to and from it.

pub mod scan_flow;
pub mod service_util;
pub mod trivy;
pub mod trivy_scanner;
