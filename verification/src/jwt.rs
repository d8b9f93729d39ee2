//! Credential codec: decodes and cryptographically verifies a signed,
//! self-contained identity token. Pure over its inputs plus the immutable
//! secret key; expiry is checked against an explicit verification time.

use vstd::prelude::*;

use crate::error::{BizKind, Kind, ServiceError};

verus! {

/// Identity claims carried by a verified credential: the subject it was
/// issued for and the second it expires at.
#[derive(Clone, Copy, Debug, PartialEq, Eq, Structural)]
pub struct Claims {
    /// Identifier of the authenticated subject.
    pub sub: i64,
    /// Expiry instant, seconds since the epoch.
    pub exp: i64,
}

/// The subject and expiry a well-formed, correctly signed token carries, or
/// `None` where the token is empty, malformed, unsigned or wrongly signed.
/// A function of the token and key alone.
pub uninterp spec fn verified_claims(token: Seq<char>, key: Seq<u8>) -> Option<(i64, i64)>;

/// Relies on jsonwebtoken::decode with HS256 and expiry validation turned
/// off: it rejects every byte string that is not a well-formed JWT whose
/// signature matches the key, and otherwise yields the token's claims. Its
/// outcome depends on the token and the key alone; a token without the three
/// dot-separated parts, the empty one included, is rejected.
#[verifier::external_body]
fn verify_signature(token: &str, key: &[u8]) -> (r: Option<(i64, i64)>)
    ensures
        r == verified_claims(token@, key@),
        token@.len() == 0 ==> r is None,
{
    let mut validation = jsonwebtoken::Validation::new(jsonwebtoken::Algorithm::HS256);
    validation.validate_exp = false;
    match jsonwebtoken::decode::<std::collections::HashMap<String, i64>>(
        token,
        &jsonwebtoken::DecodingKey::from_secret(key),
        &validation,
    ) {
        Ok(data) => match (data.claims.get("sub"), data.claims.get("exp")) {
            (Some(&sub), Some(&exp)) => Some((sub, exp)),
            _ => None,
        },
        Err(_) => None,
    }
}

/// A token is accepted at `now` when its signature verifies and its expiry
/// lies strictly in the future.
pub open spec fn accepts(token: Seq<char>, key: Seq<u8>, now: i64) -> bool {
    verified_claims(token, key) matches Some(p) && p.1 > now
}

/// The claims a verifying token carries.
pub open spec fn claims_of(token: Seq<char>, key: Seq<u8>) -> Claims
    recommends
        verified_claims(token, key) is Some,
{
    Claims { sub: (verified_claims(token, key)->0).0, exp: (verified_claims(token, key)->0).1 }
}

/// Expiry check and claims construction after signature verification: turns
/// the verification outcome into identity claims or a single classified
/// rejection. Every rejection is `TokenInvalid` — the exact reason is never
/// distinguished to the caller.
pub fn check_claims(verified: Option<(i64, i64)>, now: i64) -> (r: Result<Claims, ServiceError>)
    ensures
        r is Ok <==> (verified matches Some(p) && p.1 > now),
        r matches Ok(c) ==> (verified matches Some(p) && c.sub == p.0 && c.exp == p.1),
        r matches Err(e) ==> e@.kind == Kind::BizError(BizKind::TokenInvalid) && e@.cause is None,
{
    match verified {
        Some((sub, exp)) => {
            if exp > now {
                Ok(Claims { sub, exp })
            } else {
                Err(token_invalid())
            }
        },
        None => Err(token_invalid()),
    }
}

/// The uniform rejection for a bad credential.
fn token_invalid() -> (e: ServiceError)
    ensures
        e@.kind == Kind::BizError(BizKind::TokenInvalid),
        e@.cause is None,
{
    ServiceError::build().belong(Kind::BizError(BizKind::TokenInvalid)).done()
}

/// An expired credential is never accepted, whether or not its signature
/// verifies: acceptance demands an expiry strictly after the verification
/// time.
pub proof fn lemma_expired_token_rejected(token: Seq<char>, key: Seq<u8>, now: i64)
    ensures
        (verified_claims(token, key) matches Some(p) && p.1 <= now) ==> !accepts(
            token,
            key,
            now,
        ),
{
}

/// Decode and verify a credential: returns the identity claims exactly when
/// the token is well formed, correctly signed with `key`, and expires
/// strictly after `now`; otherwise fails with `TokenInvalid`, never
/// distinguishing the reason. Pure: no side effects, safe to run from many
/// requests at once.
pub fn decode(token: &str, key: &[u8], now: i64) -> (r: Result<Claims, ServiceError>)
    ensures
        r is Ok <==> accepts(token@, key@, now),
        r matches Ok(c) ==> c == claims_of(token@, key@),
        r matches Err(e) ==> e@.kind == Kind::BizError(BizKind::TokenInvalid) && e@.cause is None,
        token@.len() == 0 ==> r is Err,
{
    let verified = verify_signature(token, key);
    check_claims(verified, now)
}

} // verus!
