//! Decisions of the token check: key id, key lookup, retry, and the claims kept.

use vstd::prelude::*;
use crate::auth::oauth::OauthKeySmall;
use crate::error::error_msg::{
    ErrorMsg, is_plain_error, plain_error, unauthorized_error, STATUS_INTERNAL_SERVER_ERROR, STATUS_UNAUTHORIZED,
};
use crate::model::common::{ClaimsZit, UserClaims, ZitOauthKey};
use crate::text::{copy_text, opt_view, str_eq};

verus! {

/// What `jsonwebtoken::decode_header` reads from a token: its header's key id, which
/// may be absent, or nothing when the header cannot be decoded.
pub uninterp spec fn jwt_header_kid(token: Seq<char>) -> Option<Option<Seq<char>>>;

/// Decodes a token's header with `jsonwebtoken::decode_header` and hands out its key id.
/// Claimed: the outcome is the named outcome of the token.
#[verifier::external_body]
fn decode_header_kid(token: &str) -> (res: Option<Option<String>>)
    ensures
        match res {
            Some(k) => jwt_header_kid(token@) == Some(opt_view(k)),
            None => jwt_header_kid(token@) is None,
        },
{
    match jsonwebtoken::decode_header(token) {
        Ok(header) => Some(header.kid),
        Err(_) => None,
    }
}

/// The key id a token is checked with: its header's, or `NO KID` when the header names none.
pub fn kid_or_default(kid: Option<String>) -> (res: String)
    ensures
        res@ == match kid {
            Some(k) => k@,
            None => "NO KID"@,
        },
{
    match kid {
        Some(k) => k,
        None => copy_text("NO KID"),
    }
}

/// The key id of a bearer token: see `kid_or_default`; a header that does not decode
/// fails with the internal error.
pub fn token_kid(token: &str) -> (res: Result<String, ErrorMsg>)
    ensures
        match jwt_header_kid(token@) {
            Some(k) => res matches Ok(s) && s@ == match k {
                Some(k) => k,
                None => "NO KID"@,
            },
            None => res matches Err(e) && is_plain_error(e, "Error"@, STATUS_INTERNAL_SERVER_ERROR),
        },
{
    match decode_header_kid(token) {
        Some(kid) => Ok(kid_or_default(kid)),
        None => Err(ErrorMsg::from_internal_error()),
    }
}

/// The rejection of a request without a bearer token: `InvalidToken`, status 500.
pub fn invalid_token_error() -> (res: ErrorMsg)
    ensures
        is_plain_error(res, "InvalidToken"@, STATUS_INTERNAL_SERVER_ERROR),
{
    plain_error(copy_text("InvalidToken"), STATUS_INTERNAL_SERVER_ERROR)
}

/// The first cached key with the given id.
pub open spec fn first_key(keys: Seq<OauthKeySmall>, kid: Seq<char>) -> Option<OauthKeySmall>
    decreases keys.len(),
{
    if keys.len() == 0 {
        None
    } else if keys[0].kid@ == kid {
        Some(keys[0])
    } else {
        first_key(keys.drop_first(), kid)
    }
}

/// The RSA modulus and exponent to check a token with: those of the first cached key
/// with the token's key id, or two empty texts when no key has it.
pub fn find_key(keys: &Vec<OauthKeySmall>, kid: &str) -> (res: (String, String))
    ensures
        match first_key(keys@, kid@) {
            Some(k) => res.0@ == k.n@ && res.1@ == k.e@,
            None => res.0@ == Seq::<char>::empty() && res.1@ == Seq::<char>::empty(),
        },
{
    let mut i: usize = 0;
    assert(keys@.subrange(0, keys@.len() as int) =~= keys@);
    while i < keys.len()
        invariant
            i <= keys@.len(),
            first_key(keys@, kid@) == first_key(keys@.subrange(i as int, keys@.len() as int), kid@),
        decreases keys@.len() - i,
    {
        proof {
            let t = keys@.subrange(i as int, keys@.len() as int);
            assert(t.drop_first() =~= keys@.subrange(i + 1, keys@.len() as int));
            assert(t[0] == keys@[i as int]);
        }
        if str_eq(keys[i].kid.as_str(), kid) {
            return (copy_text(keys[i].n.as_str()), copy_text(keys[i].e.as_str()));
        }
        i = i + 1;
    }
    (String::new(), String::new())
}

/// The roles of the claims include `security`.
pub open spec fn has_security_role(claims: ClaimsZit) -> bool {
    match claims.roles {
        Some(roles) => exists|i: int| 0 <= i < roles@.len() && (#[trigger] roles@[i]).0@ == "security"@,
        None => false,
    }
}

/// The claims the service keeps of a checked token: the subject, and whether the
/// roles include `security`.
pub fn user_claims_from(claims: ClaimsZit) -> (res: UserClaims)
    ensures
        res.sub@ == claims.sub@,
        res.security == has_security_role(claims),
{
    let security = match &claims.roles {
        Some(roles) => {
            let mut found = false;
            let mut i: usize = 0;
            while i < roles.len()
                invariant
                    i <= roles@.len(),
                    found == exists|j: int| 0 <= j < i && (#[trigger] roles@[j]).0@ == "security"@,
                decreases roles@.len() - i,
            {
                if str_eq(roles[i].0.as_str(), "security") {
                    found = true;
                }
                i = i + 1;
            }
            found
        },
        None => false,
    };
    UserClaims { sub: claims.sub, security }
}

/// How far the token check has gone.
pub enum ClaimsStep {
    /// The token was checked with the cached keys.
    FirstAttempt,
    /// The token was checked again after the keys were fetched anew.
    Retried,
}

/// What to do after checking the token's signature and claims.
pub enum ClaimsAction {
    /// The token holds: keep its claims.
    Accept,
    /// Fetch the identity provider's keys anew and check again.
    RefreshKeysAndRetry,
    /// The token does not hold: fail.
    Reject,
}

/// A token that fails its first check is checked once more with freshly fetched keys,
/// since the cached keys may be stale or not loaded yet; a second failure rejects it.
pub fn next_claims_action(step: ClaimsStep, token_holds: bool) -> (res: ClaimsAction)
    ensures
        token_holds ==> res is Accept,
        !token_holds && step is FirstAttempt ==> res is RefreshKeysAndRetry,
        !token_holds && step is Retried ==> res is Reject,
{
    if token_holds {
        ClaimsAction::Accept
    } else {
        match step {
            ClaimsStep::FirstAttempt => ClaimsAction::RefreshKeysAndRetry,
            ClaimsStep::Retried => ClaimsAction::Reject,
        }
    }
}

/// What checking a token's signature and claims under an RSA key gave.
pub enum TokenCheck {
    /// No RSA key could be made of the modulus and exponent.
    KeyRefused,
    /// The RS256 signature, audience, issuer and expiry of the token hold.
    Holds,
    /// They do not.
    Refused,
}

/// Whether `jsonwebtoken::DecodingKey::from_rsa_components` makes an RSA key of the
/// modulus and the exponent (both must be valid URL-safe base64).
pub uninterp spec fn rsa_key_ok(n: Seq<char>, e: Seq<char>) -> bool;

/// What holds of a token that `jsonwebtoken::decode` accepts under the RS256 key of the
/// modulus `n` and the exponent `e`, for the audience `aud` and the issuer `iss`, apart
/// from the time: its RS256 signature verifies under that key, its `aud` claim holds
/// `aud` and its `iss` claim is `iss`.
pub uninterp spec fn rs256_valid(token: Seq<char>, n: Seq<char>, e: Seq<char>, aud: Seq<char>, iss: Seq<char>) -> bool;

/// Checks a token with `jsonwebtoken::decode` under the RS256 key that
/// `jsonwebtoken::DecodingKey::from_rsa_components` makes of the modulus `n` and the
/// exponent `e`, for the audience `aud` and the issuer `iss`. Claimed: the key is
/// refused exactly when no key can be made of `n` and `e`, and an accepted token is
/// RS256-valid under that key for `aud` and `iss`. Whether a valid token is accepted is
/// left open: it also depends on the current time, against which the expiry is checked.
#[verifier::external_body]
fn verify_rs256(token: &str, n: &str, e: &str, aud: &str, iss: &str) -> (res: TokenCheck)
    ensures
        res is KeyRefused <==> !rsa_key_ok(n@, e@),
        res is Holds ==> rs256_valid(token@, n@, e@, aud@, iss@),
{
    let key = match jsonwebtoken::DecodingKey::from_rsa_components(n, e) {
        Ok(key) => key,
        Err(_) => return TokenCheck::KeyRefused,
    };
    let mut validation = jsonwebtoken::Validation::new(jsonwebtoken::Algorithm::RS256);
    validation.set_audience(&[aud]);
    validation.set_issuer(&[iss]);
    match jsonwebtoken::decode::<serde_json::Value>(token, &key, &validation) {
        Ok(_) => TokenCheck::Holds,
        Err(_) => TokenCheck::Refused,
    }
}

/// What a token check leads to, at the given step, for the given outcome of the
/// signature and claims check: an invalid modulus or exponent fails; a token that
/// holds is accepted; one that does not is checked again with fresh keys on the first
/// attempt, and fails on the retry. Every failure is the internal error: status 500,
/// titled `Error`.
pub open spec fn token_outcome(step: ClaimsStep, check: TokenCheck, res: Result<ClaimsAction, ErrorMsg>) -> bool {
    match check {
        TokenCheck::KeyRefused => res matches Err(e) && is_plain_error(e, "Error"@, STATUS_INTERNAL_SERVER_ERROR),
        TokenCheck::Holds => res matches Ok(a) && a is Accept,
        TokenCheck::Refused => match step {
            ClaimsStep::FirstAttempt => res matches Ok(a) && a is RefreshKeysAndRetry,
            ClaimsStep::Retried => res matches Err(e) && is_plain_error(e, "Error"@, STATUS_INTERNAL_SERVER_ERROR),
        },
    }
}

/// What a token check leads to (see `token_outcome`).
pub fn claims_outcome(step: ClaimsStep, check: TokenCheck) -> (res: Result<ClaimsAction, ErrorMsg>)
    ensures
        token_outcome(step, check, res),
{
    match check {
        TokenCheck::KeyRefused => Err(ErrorMsg::from_internal_error()),
        TokenCheck::Holds => Ok(next_claims_action(step, true)),
        TokenCheck::Refused => match next_claims_action(step, false) {
            ClaimsAction::Reject => Err(ErrorMsg::from_internal_error()),
            action => Ok(action),
        },
    }
}

/// The key id a token is checked with: its header's, or `NO KID` when it names none.
pub open spec fn kid_text(k: Option<Seq<char>>) -> Seq<char> {
    match k {
        Some(k) => k,
        None => "NO KID"@,
    }
}

/// The modulus and exponent a token with the given key id is checked with: those of
/// the first cached key with that id, or two empty texts when none has it.
pub open spec fn key_of(keys: Seq<OauthKeySmall>, kid: Seq<char>) -> (Seq<char>, Seq<char>) {
    match first_key(keys, kid) {
        Some(k) => (k.n@, k.e@),
        None => (Seq::<char>::empty(), Seq::<char>::empty()),
    }
}

/// What checking a token under the modulus `n` and exponent `e` leads to: the internal
/// error when no key can be made of them; when the token is RS256-valid under them for
/// `aud` and `iss` and its payload reads as claims, acceptance or, should it have
/// expired, a refusal; otherwise a refusal (see `token_outcome`).
pub open spec fn checked_outcome(
    step: ClaimsStep,
    token: Seq<char>,
    n: Seq<char>,
    e: Seq<char>,
    aud: Seq<char>,
    iss: Seq<char>,
    claims_read: bool,
    res: Result<ClaimsAction, ErrorMsg>,
) -> bool {
    if !rsa_key_ok(n, e) {
        token_outcome(step, TokenCheck::KeyRefused, res)
    } else if rs256_valid(token, n, e, aud, iss) && claims_read {
        token_outcome(step, TokenCheck::Holds, res) || token_outcome(step, TokenCheck::Refused, res)
    } else {
        token_outcome(step, TokenCheck::Refused, res)
    }
}

/// Checks a bearer token at the given step: reads its key id (see `token_kid`; a header
/// that does not decode fails with the internal error), takes the modulus and
/// exponent of the first cached key with that id (see `find_key`), checks the token's
/// RS256 signature, audience `aud`, issuer `iss` and expiry under them, and decides
/// (see `checked_outcome`). `claims_read` says whether the token's payload reads as
/// the service's claims; a token whose payload does not is refused as one that does
/// not verify.
pub fn check_token(
    token: &str,
    keys: &Vec<OauthKeySmall>,
    aud: &str,
    iss: &str,
    claims_read: bool,
    step: ClaimsStep,
) -> (res: Result<ClaimsAction, ErrorMsg>)
    ensures
        match jwt_header_kid(token@) {
            None => res matches Err(e) && is_plain_error(e, "Error"@, STATUS_INTERNAL_SERVER_ERROR),
            Some(k) => checked_outcome(
                step,
                token@,
                key_of(keys@, kid_text(k)).0,
                key_of(keys@, kid_text(k)).1,
                aud@,
                iss@,
                claims_read,
                res,
            ),
        },
{
    let kid = match token_kid(token) {
        Ok(kid) => kid,
        Err(e) => {
            return Err(e);
        },
    };
    let (n, e) = find_key(keys, kid.as_str());
    let check = match verify_rs256(token, n.as_str(), e.as_str(), aud, iss) {
        TokenCheck::Holds => if claims_read {
            TokenCheck::Holds
        } else {
            TokenCheck::Refused
        },
        other => other,
    };
    claims_outcome(step, check)
}

/// Lets a caller with the `security` role through, and refuses any other caller with
/// status 401, titled with the given text (the translated `unauthorized` message).
pub fn require_security(claims: &UserClaims, title: String) -> (res: Result<(), ErrorMsg>)
    ensures
        claims.security <==> res is Ok,
        res matches Err(e) ==> is_plain_error(e, title@, STATUS_UNAUTHORIZED),
{
    if claims.security {
        Ok(())
    } else {
        Err(unauthorized_error(title))
    }
}

/// Whether keys are fetched with certificate verification: only in production, that is
/// when `PROD` is `true`.
pub fn use_secure_client(prod: &str) -> (res: bool)
    ensures
        res == (prod@ == "true"@),
{
    str_eq("true", prod)
}

/// The identity provider answered the key request with the given HTTP status: anything
/// but 200 fails with status 401, titled `Impossible to fetch token`.
pub fn check_oidc_status(status: u16) -> (res: Result<(), ErrorMsg>)
    ensures
        status == 200 <==> res is Ok,
        res matches Err(e) ==> is_plain_error(e, "Impossible to fetch token"@, STATUS_UNAUTHORIZED),
{
    if status == 200 {
        Ok(())
    } else {
        Err(plain_error(copy_text("Impossible to fetch token"), STATUS_UNAUTHORIZED))
    }
}

/// The cached key a published key becomes.
pub open spec fn key_kept(k: OauthKeySmall, z: ZitOauthKey) -> bool {
    k.kid@ == z.kid@ && k.e@ == z.e@ && k.n@ == z.n@
}

/// The key cache after a refresh: exactly the published keys, in order, each with its
/// id, modulus and exponent.
pub fn update_oidc_key(keys: &Vec<ZitOauthKey>) -> (res: Vec<OauthKeySmall>)
    ensures
        res@.len() == keys@.len(),
        forall|i: int| 0 <= i < keys@.len() ==> key_kept(#[trigger] res@[i], keys@[i]),
{
    let mut cache: Vec<OauthKeySmall> = Vec::new();
    let mut i: usize = 0;
    while i < keys.len()
        invariant
            i <= keys@.len(),
            cache@.len() == i,
            forall|j: int| 0 <= j < i ==> key_kept(#[trigger] cache@[j], keys@[j]),
        decreases keys@.len() - i,
    {
        let key = &keys[i];
        cache.push(OauthKeySmall {
            kid: copy_text(key.kid.as_str()),
            e: copy_text(key.e.as_str()),
            n: copy_text(key.n.as_str()),
        });
        i = i + 1;
    }
    cache
}

/// After a refresh, looking a key id up in the cache finds the first published key with
/// that id, and nothing when none is published.
pub proof fn lemma_refreshed_cache_lookup(published: Seq<ZitOauthKey>, cache: Seq<OauthKeySmall>, kid: Seq<char>)
    requires
        cache.len() == published.len(),
        forall|i: int| 0 <= i < published.len() ==> key_kept(#[trigger] cache[i], published[i]),
    ensures
        match first_key(cache, kid) {
            Some(k) => exists|i: int|
                0 <= i < published.len() && published[i].kid@ == kid && k.n@ == published[i].n@
                    && k.e@ == published[i].e@ && (forall|j: int| 0 <= j < i ==> (#[trigger] published[j]).kid@ != kid),
            None => forall|i: int| 0 <= i < published.len() ==> (#[trigger] published[i]).kid@ != kid,
        },
    decreases cache.len(),
{
    if cache.len() > 0 {
        assert(key_kept(cache[0], published[0]));
        if cache[0].kid@ != kid {
            let c = cache.drop_first();
            let p = published.drop_first();
            assert forall|i: int| 0 <= i < p.len() implies key_kept(#[trigger] c[i], p[i]) by {
                assert(key_kept(cache[i + 1], published[i + 1]));
            }
            lemma_refreshed_cache_lookup(p, c, kid);
            match first_key(c, kid) {
                Some(k) => {
                    let i = choose|i: int|
                        0 <= i < p.len() && p[i].kid@ == kid && k.n@ == p[i].n@ && k.e@ == p[i].e@
                            && (forall|j: int| 0 <= j < i ==> (#[trigger] p[j]).kid@ != kid);
                    assert(published[i + 1] == p[i]);
                    assert forall|j: int| 0 <= j < i + 1 implies (#[trigger] published[j]).kid@ != kid by {
                        if j > 0 {
                            assert(published[j] == p[j - 1]);
                        }
                    }
                },
                None => {
                    assert forall|i: int| 0 <= i < published.len() implies (#[trigger] published[i]).kid@ != kid by {
                        if i > 0 {
                            assert(published[i] == p[i - 1]);
                        }
                    }
                },
            }
        }
    }
}

} // verus!
