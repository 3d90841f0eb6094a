//! Validation-error flattening and message selection.

pub mod message_util;
pub mod validation_util;
