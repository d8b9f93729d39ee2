//! Authentication interceptor: the per-request pipeline step that extracts
//! the bearer credential, invokes the credential codec, and either attaches
//! the identity to the request-scoped context or rejects the request with a
//! classified error before any handler logic runs.

use vstd::prelude::*;

use crate::error::{BizKind, Kind, ServiceError};
use crate::jwt::{accepts, claims_of, decode, Claims};

verus! {

/// Name of the request attribute (a cookie) that carries the credential.
pub const JWT_AUTH_KEY: &'static str = "t";

/// Request-scoped context: storage owned by exactly one request, into which
/// the interceptor inserts the verified identity under its well-known key.
/// Other layers look the identity up; nothing overwrites it.
pub struct RequestContext {
    identity: Option<Claims>,
}

impl View for RequestContext {
    type V = Option<Claims>;

    closed spec fn view(&self) -> Option<Claims> {
        self.identity
    }
}

impl RequestContext {
    /// A fresh context, holding no identity yet.
    pub fn new() -> (c: Self)
        ensures
            c@ is None,
    {
        RequestContext { identity: None }
    }

    /// Handler-facing lookup of the identity the interceptor attached.
    pub fn current_identity(&self) -> (r: Option<Claims>)
        ensures
            r == self@,
    {
        self.identity
    }

    /// Look the identity up where the handler requires one: absence is a
    /// classified `ClaimsNotFound` failure with its origin wrapped as cause.
    pub fn require_identity(&self) -> (r: Result<Claims, ServiceError>)
        ensures
            r is Ok <==> self@ is Some,
            r matches Ok(c) ==> self@ == Some(c),
            r matches Err(e) ==> e@.kind == Kind::BizError(BizKind::ClaimsNotFound)
                && e@.cause is Some,
    {
        match self.identity {
            Some(c) => Ok(c),
            None => Err(
                ServiceError::build()
                    .belong(Kind::BizError(BizKind::ClaimsNotFound))
                    .because(
                        ServiceError::build()
                            .belong(Kind::ServerError)
                            .message("unknown")
                            .done(),
                    )
                    .done(),
            ),
        }
    }

    fn insert(&mut self, claims: Claims)
        requires
            old(self)@ is None,
        ensures
            final(self)@ == Some(claims),
    {
        self.identity = Some(claims);
    }
}

/// The token a request effectively presents: the attribute's value, or the
/// empty token synthesized where the attribute is absent.
pub open spec fn effective_token(token: Option<&str>) -> Seq<char> {
    match token {
        Some(t) => t@,
        None => Seq::<char>::empty(),
    }
}

/// Pipeline-stage factory: hands out the per-request interceptor service.
pub struct JwtMiddleware;

impl JwtMiddleware {
    /// Produce the interceptor service that will gate each request.
    pub fn new_transform(&self) -> (s: JwtMiddlewareService) {
        JwtMiddlewareService {}
    }
}

/// The interceptor itself: one terminal pass per request.
pub struct JwtMiddlewareService {}

impl JwtMiddlewareService {
    /// Gate one request. `key` is the process secret where the configuration
    /// is reachable, `None` where it is not; `token` is the request
    /// attribute's value, absent where no attribute was sent; `now` is the
    /// verification time; `ctx` is the request's own context, which must not
    /// have been gated before.
    ///
    /// An unavailable key is an infrastructure fault, never blamed on the
    /// credential. With the key at hand, the request is forwarded exactly
    /// when the effective token verifies and is unexpired; the context then
    /// holds that token's claims and nothing else. Every rejection leaves
    /// the context untouched, so handler logic never sees an identity from
    /// a rejected request; an empty or absent token is always rejected.
    pub fn call(
        &self,
        key: Option<&Vec<u8>>,
        token: Option<&str>,
        now: i64,
        ctx: &mut RequestContext,
    ) -> (r: Result<(), ServiceError>)
        requires
            old(ctx)@ is None,
        ensures
            key is None ==> final(ctx)@ is None,
            key is None ==> (r matches Err(e) && e@.kind == Kind::InfraError),
            key matches Some(k) ==> (r is Ok <==> accepts(effective_token(token), k@, now)),
            (key is Some && r is Ok) ==> final(ctx)@ == Some(
                claims_of(effective_token(token), (key->0)@),
            ),
            r is Err ==> final(ctx)@ is None,
            (key is Some && r is Err) ==> (r->Err_0)@.kind == Kind::BizError(
                BizKind::TokenInvalid,
            ),
            key is Some && effective_token(token).len() == 0 ==> r is Err,
    {
        let secret: &Vec<u8> = match key {
            Some(k) => k,
            None => {
                return Err(ServiceError::build().belong(Kind::InfraError).done());
            },
        };

        let presented: &str = match token {
            Some(t) => t,
            None => {
                proof {
                    reveal_strlit("");
                }
                ""
            },
        };
        assert(presented@ =~= effective_token(token));

        match decode(presented, secret.as_slice(), now) {
            Ok(claims) => {
                ctx.insert(claims);
                Ok(())
            },
            Err(e) => Err(e),
        }
    }
}

} // verus!
