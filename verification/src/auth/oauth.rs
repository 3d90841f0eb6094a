//! OAuth request and response bodies, and the cached signing keys.

use vstd::prelude::*;

verus! {

/// Body of a token request signed with a JWT assertion.
pub struct OauthSignedTokenBody {
    pub grant_type: String,
    pub scope: String,
    pub assertion: String,
}

/// Body of a client-credentials token request.
pub struct OauthTokenBody {
    pub grant_type: String,
    pub scope: String,
    pub client_id: String,
    pub client_secret: String,
}

/// A token response.
pub struct OauthTokenResponse {
    pub access_token: String,
    pub token_type: String,
    pub expires_in: i64,
    pub id_token: Option<String>,
}

/// The parts of a signing key the service keeps: its id and RSA modulus and exponent.
pub struct OauthKeySmall {
    pub n: String,
    pub kid: String,
    pub e: String,
}

/// Claims of a token the service signs for itself.
pub struct OauthClaim {
    pub iss: String,
    pub sub: String,
    pub aud: String,
    pub exp: u64,
    pub iat: u64,
}

} // verus!
