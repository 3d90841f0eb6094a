//! Entities, query rows and request/response shapes.

pub mod bom;
pub mod common;
pub mod deployment_environment;
pub mod package;
pub mod product_line;
pub mod request_response;
pub mod sbom;
pub mod vulnerable_package_history;
