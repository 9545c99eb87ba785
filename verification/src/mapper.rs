//! The response mapper: the one post-handler hook that turns a carried
//! internal error into the stable client-facing envelope
//! `{"error":{"type":<kind>,"req_uuid":<id>}}`, with a fresh correlation id
//! per request. Internal error detail never reaches the client; the HTTP
//! layer logs it server-side together with the same correlation id.

use vstd::prelude::*;

use crate::error::{client_error_name, client_error_of, status_of, ClientError, Error};

verus! {

/// The envelope body sent to the client for kind name `name` and
/// correlation id `uuid`.
pub open spec fn envelope_body(name: Seq<char>, uuid: Seq<char>) -> Seq<char> {
    "{\"error\":{\"type\":\""@ + name + "\",\"req_uuid\":\""@ + uuid + "\"}}"@
}

/// A mapped client error response: the HTTP status to send, the client
/// kind, the correlation id (also used in the server-side log), and the
/// rendered JSON body.
pub struct ErrorResponse {
    pub status: u16,
    pub client_error: ClientError,
    pub req_uuid: String,
    pub body: String,
}

/// Relies on `uuid::Uuid::new_v4` and its `Display` implementation: the
/// hyphenated textual form of a version-4 UUID is always 36 characters. The
/// value itself is random, so nothing more is promised of it.
#[verifier::external_body]
fn new_req_uuid() -> (r: String)
    ensures
        r@.len() == 36,
{
    uuid::Uuid::new_v4().to_string()
}

/// Render the envelope body for a client kind and a correlation id.
fn render_envelope(client_error: &ClientError, req_uuid: &str) -> (r: String)
    ensures
        r@ == envelope_body(client_error_name(*client_error), req_uuid@),
{
    let mut body = String::from_str("{\"error\":{\"type\":\"");
    body.append(client_error.as_str());
    body.append("\",\"req_uuid\":\"");
    body.append(req_uuid);
    body.append("\"}}");
    proof {
        assert(body@ =~= envelope_body(client_error_name(*client_error), req_uuid@));
    }
    body
}

/// Map the error a response carries, if any, to its replacement.
///
/// No error passes the original response through unchanged (`None` here).
/// An error yields the status and client kind of the fixed taxonomy, a
/// fresh 36-character correlation id, and the envelope body rendered from
/// exactly that kind and that id — never the internal detail.
pub fn main_response_mapper(service_error: Option<&Error>) -> (r: Option<ErrorResponse>)
    ensures
        r is Some <==> service_error is Some,
        service_error matches Some(e) ==> (r matches Some(er) && er.status == status_of(*e)
            && er.client_error == client_error_of(*e) && er.req_uuid@.len() == 36 && er.body@
            == envelope_body(client_error_name(client_error_of(*e)), er.req_uuid@)),
{
    match service_error {
        None => None,
        Some(e) => {
            let req_uuid = new_req_uuid();
            let (status, client_error) = e.client_status_and_error();
            let body = render_envelope(&client_error, req_uuid.as_str());
            Some(ErrorResponse { status, client_error, req_uuid, body })
        },
    }
}

/// One structured log record per request, server-side only: the same
/// correlation id as in the client envelope, the HTTP method and URI, the
/// resolved context's user id if resolution succeeded, the internal error in
/// full detail, and the mapped client kind if one was sent. Emitting it
/// (with a timestamp) is the HTTP layer's job and is best-effort: logging
/// must never fail a response.
pub struct RequestLogLine {
    pub req_uuid: String,
    pub http_method: String,
    pub uri: String,
    pub user_id: Option<u64>,
    pub error: Option<Error>,
    pub client_error: Option<ClientError>,
}

impl RequestLogLine {
    pub fn new(
        req_uuid: String,
        http_method: String,
        uri: String,
        user_id: Option<u64>,
        error: Option<Error>,
        client_error: Option<ClientError>,
    ) -> (r: RequestLogLine)
        ensures
            r.req_uuid@ == req_uuid@,
            r.http_method@ == http_method@,
            r.uri@ == uri@,
            r.user_id == user_id,
            r.error == error,
            r.client_error == client_error,
    {
        RequestLogLine { req_uuid, http_method, uri, user_id, error, client_error }
    }
}

} // verus!
