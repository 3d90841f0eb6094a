//! Small shared shapes: ids, query parameters, claims, keys and status bodies.

use vstd::prelude::*;

verus! {

/// An instant in UTC: seconds since the Unix epoch and the nanoseconds within that second.
pub struct UtcDateTime {
    pub secs: i64,
    pub nanos: u32,
}

/// A calendar date.
pub struct CalendarDate {
    pub year: i32,
    pub month: u32,
    pub day: u32,
}

/// A small id.
pub struct WsSmallId {
    pub id: i16,
}

/// An id.
pub struct WsId {
    pub id: i32,
}

/// A big id.
pub struct WsBigId {
    pub id: i64,
}

/// Query of a language, a date range and a sport.
pub struct QueryLangFromToDateSportId {
    pub lang: String,
    pub from_date: CalendarDate,
    pub to_date: CalendarDate,
    pub sport_id: i16,
}

/// Query of a language and an id.
pub struct QueryLangId {
    pub lang: String,
    pub id: i16,
}

/// Query of a language and a last name.
pub struct QueryLangLastname {
    pub lang: String,
    pub lastname: String,
}

/// The language a caller reads messages in.
pub struct WsUserLang {
    pub lang: String,
}

/// What the service keeps of a caller's token: who, and whether they hold the
/// `security` role.
pub struct UserClaims {
    pub sub: String,
    pub security: bool,
}

/// The claims of an identity provider's token: subject, expiry, and the roles, each
/// with its organisation/name pairs.
pub struct ClaimsZit {
    pub sub: String,
    pub exp: usize,
    pub roles: Option<Vec<(String, Vec<(String, String)>)>>,
}

/// The signing keys an identity provider publishes.
pub struct ZitOauthKeys {
    pub keys: Vec<ZitOauthKey>,
}

/// One published RSA signing key.
pub struct ZitOauthKey {
    pub usage: String,
    pub kty: String,
    pub kid: String,
    pub alg: String,
    pub n: String,
    pub e: String,
}

/// A body holding just a title.
pub struct EnTitle {
    pub title: String,
}

/// A body holding just a status.
pub struct EnStatus {
    pub status: String,
}

} // verus!
