//! What the database layer computes before it binds its parameters.

pub mod facade_util;
