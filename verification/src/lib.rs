//! Verified core of an SBOM management backend: the data model, the grouping
//! and ordering of query rows, vulnerability accounting, the conversion of
//! CycloneDX documents to scanner requests and back, validation-error
//! flattening, and the decisions of the HTTP handlers.

pub mod runtime;
pub mod service;
pub mod text;
pub mod util;
pub mod auth;
pub mod client;
pub mod error;
pub mod facade;
pub mod model;
