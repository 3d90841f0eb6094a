//! Decisions of the server's set-up: log file, middleware errors, telemetry protocol.

use vstd::prelude::*;
use crate::text::{copy_text, str_eq};

verus! {

/// The path of a log file in the log volume.
pub fn log_file_path(volume_log: &str, filename: &str) -> (res: String)
    ensures
        res@ == volume_log@ + filename@,
{
    let mut path = copy_text(volume_log);
    path.append(filename);
    path
}

/// A failure of the request middleware.
pub enum MiddlewareError {
    /// The request took longer than allowed.
    Timeout,
    /// Too many requests are in flight.
    Overloaded,
    /// Any other failure, with its display text.
    Other(String),
}

/// The response to a middleware failure: 408 for a timeout, 503 when overloaded, and
/// 500 naming the failure otherwise.
pub fn handle_error(error: MiddlewareError) -> (res: (u16, String))
    ensures
        match error {
            MiddlewareError::Timeout => res.0 == 408 && res.1@ == "request timed out"@,
            MiddlewareError::Overloaded => res.0 == 503 && res.1@ == "service is overloaded, try again later"@,
            MiddlewareError::Other(d) => res.0 == 500 && res.1@ == "Unhandled internal error: "@ + d@,
        },
{
    match error {
        MiddlewareError::Timeout => (408, copy_text("request timed out")),
        MiddlewareError::Overloaded => (503, copy_text("service is overloaded, try again later")),
        MiddlewareError::Other(d) => {
            let mut text = copy_text("Unhandled internal error: ");
            text.append(d.as_str());
            (500, text)
        },
    }
}

/// Protocols of the telemetry exporter.
pub enum OtlpProtocol {
    Grpc,
    HttpJson,
    HttpBinary,
}

/// The exporter protocol a configuration value names: `grpc`, `http/json` or
/// `http/protobuf`; nothing for any other value.
pub fn parse_otlp_protocol(val: &str) -> (res: Option<OtlpProtocol>)
    ensures
        res == (if val@ == "grpc"@ {
            Some(OtlpProtocol::Grpc)
        } else if val@ == "http/json"@ {
            Some(OtlpProtocol::HttpJson)
        } else if val@ == "http/protobuf"@ {
            Some(OtlpProtocol::HttpBinary)
        } else {
            None
        }),
{
    if str_eq(val, "grpc") {
        Some(OtlpProtocol::Grpc)
    } else if str_eq(val, "http/json") {
        Some(OtlpProtocol::HttpJson)
    } else if str_eq(val, "http/protobuf") {
        Some(OtlpProtocol::HttpBinary)
    } else {
        None
    }
}

} // verus!
