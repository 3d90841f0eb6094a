//! Decisions of the HTTP handlers.

pub mod bom_service;
pub mod health_service;
pub mod post_bom;
