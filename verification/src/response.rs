//! Error-to-response translator: the only place where the error model and
//! transport concerns meet. Maps a classified error to a status code and a
//! serialized body that carries the message and never the cause chain.

use vstd::prelude::*;
use vstd::string::StringExecFns;

use crate::error::{BizKind, Kind, ServiceError};

verus! {

/// The transport status a classification maps to: a fixed table keyed by
/// kind and sub-kind, with a default per top-level kind where no sub-kind
/// rule exists.
pub open spec fn status_of(kind: Kind) -> u16 {
    match kind {
        Kind::BizError(BizKind::TokenInvalid) => 401,
        Kind::BizError(BizKind::ClaimsNotFound) => 401,
        Kind::BizError(BizKind::DataNotFound) => 404,
        Kind::BizError(BizKind::CredentialMalformed) => 400,
        Kind::InfraError => 503,
        Kind::ServerError => 500,
    }
}

/// The serialized body for a message: a single-field object holding the
/// message verbatim. The cause chain never appears in it.
pub open spec fn body_of(message: Seq<char>) -> Seq<char> {
    "{\"message\":\""@ + message + "\"}"@
}

/// A rejected credential always surfaces as the unauthorized status: every
/// error classified `TokenInvalid` — the only classification the credential
/// codec ever fails with — translates to status 401.
pub proof fn lemma_rejected_credential_translates_unauthorized(e: ServiceError)
    requires
        e@.kind == Kind::BizError(BizKind::TokenInvalid),
    ensures
        status_of(e@.kind) == 401,
{
}

/// Translate a classified error to its transport status and serialized
/// body. Deterministic in the error's kind and message; the wrapped cause
/// is ignored here and stays available for internal diagnostics only.
pub fn translate(e: &ServiceError) -> (r: (u16, String))
    ensures
        r.0 == status_of(e@.kind),
        r.1@ == body_of(e@.message),
{
    let status: u16 = match e.kind() {
        Kind::BizError(BizKind::TokenInvalid) => 401,
        Kind::BizError(BizKind::ClaimsNotFound) => 401,
        Kind::BizError(BizKind::DataNotFound) => 404,
        Kind::BizError(BizKind::CredentialMalformed) => 400,
        Kind::InfraError => 503,
        Kind::ServerError => 500,
    };
    let mut body = String::from_str("{\"message\":\"");
    body.append(e.message());
    body.append("\"}");
    (status, body)
}

} // verus!
