//! Server-internal error taxonomy and its fixed mapping to the stable
//! client-facing error kinds. Only the client kind's name string and the
//! HTTP status code ever cross the service boundary; internal detail stays
//! server-side.

use vstd::prelude::*;

verus! {

/// Every failure the core can produce. All failures are request-terminal and
/// propagate unchanged to the response mapper; nothing below the mapper
/// formats anything for the client.
#[derive(Debug, Clone, Copy, PartialEq, Eq)]
pub enum Error {
    /// The mock login check rejected the supplied credentials.
    LoginFail,
    /// No credential cookie was present on the request. Distinguished from a
    /// malformed token: absence is not treated as tampering.
    AuthFailNoAuthTokenCookie,
    /// A credential cookie was present but its value fails the structural
    /// token parse.
    AuthFailTokenWrongFormat,
    /// The resolver never ran for this request: a configuration error, not a
    /// user error.
    AuthFailCtxNotInRequestExt,
    /// Delete was asked for a ticket id that is out of range or already
    /// deleted.
    TicketDeleteFailIdNotFound { id: u64 },
}

/// The client-facing error kind: the only error information, beside the HTTP
/// status code, that leaves the server.
#[derive(Debug, Clone, Copy, PartialEq, Eq)]
pub enum ClientError {
    AuthFailNoAuthTokenCookie,
    AuthFailTokenWrongFormat,
    AuthFailCtxNotInRequestExt,
    TicketDeleteFailIdNotFound,
    ServiceError,
}

/// The fixed mapping from an internal error to the client kind.
pub open spec fn client_error_of(e: Error) -> ClientError {
    match e {
        Error::AuthFailNoAuthTokenCookie => ClientError::AuthFailNoAuthTokenCookie,
        Error::AuthFailTokenWrongFormat => ClientError::AuthFailTokenWrongFormat,
        Error::AuthFailCtxNotInRequestExt => ClientError::AuthFailCtxNotInRequestExt,
        Error::TicketDeleteFailIdNotFound { .. } => ClientError::TicketDeleteFailIdNotFound,
        _ => ClientError::ServiceError,
    }
}

/// The fixed mapping from an internal error to the HTTP status code: 401 for
/// authentication failures detected on the request, 500 when the resolver
/// never ran (a server bug), 400 for a bad ticket id, 500 for anything else.
pub open spec fn status_of(e: Error) -> u16 {
    match e {
        Error::AuthFailNoAuthTokenCookie => 401,
        Error::AuthFailTokenWrongFormat => 401,
        Error::AuthFailCtxNotInRequestExt => 500,
        Error::TicketDeleteFailIdNotFound { .. } => 400,
        _ => 500,
    }
}

/// The name string under which a client kind appears in the error envelope.
pub open spec fn client_error_name(c: ClientError) -> Seq<char> {
    match c {
        ClientError::AuthFailNoAuthTokenCookie => "AUTH_FAIL_NO_AUTH_TOKEN_COOKIE"@,
        ClientError::AuthFailTokenWrongFormat => "AUTH_FAIL_TOKEN_WRONG_FORMAT"@,
        ClientError::AuthFailCtxNotInRequestExt => "AUTH_FAIL_CTX_NOT_IN_REQUEST_EXT"@,
        ClientError::TicketDeleteFailIdNotFound => "TICKET_DELETE_FAIL_ID_NOT_FOUND"@,
        ClientError::ServiceError => "SERVICE_ERROR"@,
    }
}

impl Error {
    /// The status code and client kind this error maps to.
    pub fn client_status_and_error(&self) -> (r: (u16, ClientError))
        ensures
            r.0 == status_of(*self),
            r.1 == client_error_of(*self),
    {
        match self {
            Error::AuthFailNoAuthTokenCookie => (401, ClientError::AuthFailNoAuthTokenCookie),
            Error::AuthFailTokenWrongFormat => (401, ClientError::AuthFailTokenWrongFormat),
            Error::AuthFailCtxNotInRequestExt => (500, ClientError::AuthFailCtxNotInRequestExt),
            Error::TicketDeleteFailIdNotFound { .. } => (
                400,
                ClientError::TicketDeleteFailIdNotFound,
            ),
            Error::LoginFail => (500, ClientError::ServiceError),
        }
    }
}

impl ClientError {
    /// The kind's name string, as it appears in the envelope's `type` field.
    pub fn as_str(&self) -> (r: &'static str)
        ensures
            r@ == client_error_name(*self),
    {
        match self {
            ClientError::AuthFailNoAuthTokenCookie => "AUTH_FAIL_NO_AUTH_TOKEN_COOKIE",
            ClientError::AuthFailTokenWrongFormat => "AUTH_FAIL_TOKEN_WRONG_FORMAT",
            ClientError::AuthFailCtxNotInRequestExt => "AUTH_FAIL_CTX_NOT_IN_REQUEST_EXT",
            ClientError::TicketDeleteFailIdNotFound => "TICKET_DELETE_FAIL_ID_NOT_FOUND",
            ClientError::ServiceError => "SERVICE_ERROR",
        }
    }
}

} // verus!
