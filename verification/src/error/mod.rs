//! Error responses.

pub mod error_msg;
