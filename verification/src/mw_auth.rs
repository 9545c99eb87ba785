//! Per-request authentication: context resolution, the route guard, and the
//! typed context extractor.
//!
//! Resolution runs once per request before route dispatch and never rejects
//! by itself; it records its outcome — success or the precise failure — so
//! the guard and the extractor downstream can act on it. The HTTP layer
//! around this library reads the credential cookie, hands its value here,
//! and applies the returned cookie-removal decision.

use vstd::prelude::*;

use crate::ctx::Ctx;
use crate::error::Error;
use crate::token::{parse_token, token_parses, token_user_id};

verus! {

/// Name of the credential cookie.
pub const AUTH_TOKEN: &'static str = "auth-token";

/// The outcome of context resolution for one request: the resolved context
/// or the precise failure, plus whether the credential cookie must be
/// removed from the response (it is removed exactly when a cookie was
/// presented but malformed — a missing cookie is not tampering and is left
/// alone).
pub struct CtxResolution {
    pub result: Result<Ctx, Error>,
    pub remove_cookie: bool,
}

/// Resolve the request's authentication context from the credential cookie
/// value, if one was present.
///
/// A missing cookie yields the distinguished no-cookie failure and leaves
/// the cookie alone; a present but malformed value yields a format failure
/// and asks for the cookie's removal; a well-formed token yields a context
/// carrying the token's user id. This never rejects the request itself:
/// rejection is the guard's and the extractor's job.
pub fn mw_ctx_resolver(auth_token: Option<&str>) -> (r: CtxResolution)
    ensures
        auth_token is None ==> (r.result matches Err(e) && e == Error::AuthFailNoAuthTokenCookie),
        auth_token matches Some(t) ==> ((token_parses(t@) ==> (r.result matches Ok(c)
            && c.spec_user_id() as nat == token_user_id(t@))) && (!token_parses(t@) ==> (
        r.result matches Err(e) && e == Error::AuthFailTokenWrongFormat))),
        r.remove_cookie <==> (r.result is Err && r.result != Err::<Ctx, Error>(
            Error::AuthFailNoAuthTokenCookie,
        )),
{
    let result: Result<Ctx, Error> = match auth_token {
        None => Err(Error::AuthFailNoAuthTokenCookie),
        Some(t) => match parse_token(t) {
            Ok((user_id, _exp, _sign)) => Ok(Ctx::new(user_id)),
            Err(e) => Err(e),
        },
    };
    let remove_cookie = match &result {
        Ok(_) => false,
        Err(e) => match e {
            Error::AuthFailNoAuthTokenCookie => false,
            _ => true,
        },
    };
    CtxResolution { result, remove_cookie }
}

/// The guard applied to protected routes: a pure gate over the resolver's
/// outcome. Passes exactly when resolution succeeded; otherwise
/// short-circuits with the stored failure, unchanged, so the protected
/// handler is never reached. Nothing is re-derived or re-validated here.
pub fn mw_require_auth(ctx: &Result<Ctx, Error>) -> (r: Result<(), Error>)
    ensures
        r is Ok <==> ctx is Ok,
        r matches Err(e) ==> (ctx matches Err(e2) && e == e2),
{
    match ctx {
        Ok(_) => Ok(()),
        Err(e) => Err(*e),
    }
}

/// The typed accessor a handler uses to obtain the resolved context: reads
/// the resolution stored on the request. An absent entry means the resolver
/// never ran — a configuration error, reported as its own failure; an
/// entry present is returned as stored, success or failure alike.
pub fn ctx_from_request_ext(ext: Option<&Result<Ctx, Error>>) -> (r: Result<Ctx, Error>)
    ensures
        ext is None ==> (r matches Err(e) && e == Error::AuthFailCtxNotInRequestExt),
        ext matches Some(stored) ==> r == *stored,
{
    match ext {
        None => Err(Error::AuthFailCtxNotInRequestExt),
        Some(stored) => *stored,
    }
}

} // verus!
