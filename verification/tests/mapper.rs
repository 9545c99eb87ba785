//! Tests of the error taxonomy and the response mapper.

use ticket_service::error::{ClientError, Error};
use ticket_service::mapper::{main_response_mapper, RequestLogLine};

#[test]
fn success_passes_through_unmapped() {
    assert!(main_response_mapper(None).is_none());
}

#[test]
fn taxonomy_maps_to_fixed_status_and_kind() {
    let cases = [
        (Error::AuthFailNoAuthTokenCookie, 401, "AUTH_FAIL_NO_AUTH_TOKEN_COOKIE"),
        (Error::AuthFailTokenWrongFormat, 401, "AUTH_FAIL_TOKEN_WRONG_FORMAT"),
        (Error::AuthFailCtxNotInRequestExt, 500, "AUTH_FAIL_CTX_NOT_IN_REQUEST_EXT"),
        (Error::TicketDeleteFailIdNotFound { id: 1 }, 400, "TICKET_DELETE_FAIL_ID_NOT_FOUND"),
        (Error::LoginFail, 500, "SERVICE_ERROR"),
    ];
    for (e, status, kind) in cases {
        let (s, c) = e.client_status_and_error();
        assert_eq!(s, status, "error: {e:?}");
        assert_eq!(c.as_str(), kind, "error: {e:?}");
    }
}

#[test]
fn envelope_never_leaks_internal_detail() {
    let er = main_response_mapper(Some(&Error::TicketDeleteFailIdNotFound { id: 31 })).unwrap();
    assert_eq!(er.status, 400);
    assert_eq!(er.client_error, ClientError::TicketDeleteFailIdNotFound);
    assert_eq!(er.req_uuid.len(), 36);
    let expected = format!(
        "{{\"error\":{{\"type\":\"TICKET_DELETE_FAIL_ID_NOT_FOUND\",\"req_uuid\":\"{}\"}}}}",
        er.req_uuid
    );
    assert_eq!(er.body, expected);
    // The internal id never appears in the client body.
    assert!(!er.body.contains("31"));
}

#[test]
fn missing_cookie_maps_to_401_envelope_with_fresh_uuid() {
    let first = main_response_mapper(Some(&Error::AuthFailNoAuthTokenCookie)).unwrap();
    let second = main_response_mapper(Some(&Error::AuthFailNoAuthTokenCookie)).unwrap();
    assert_eq!(first.status, 401);
    assert_eq!(second.status, 401);
    assert!(first.body.contains("AUTH_FAIL_NO_AUTH_TOKEN_COOKIE"));
    assert_eq!(first.req_uuid.len(), 36);
    assert_eq!(second.req_uuid.len(), 36);
    // The correlation id is fresh on each call.
    assert_ne!(first.req_uuid, second.req_uuid);
    assert!(first.body.contains(&first.req_uuid));
}

#[test]
fn log_line_carries_what_was_given() {
    let line = RequestLogLine::new(
        "someuuid".to_string(),
        "GET".to_string(),
        "/api/tickets".to_string(),
        Some(1),
        Some(Error::AuthFailTokenWrongFormat),
        Some(ClientError::AuthFailTokenWrongFormat),
    );
    assert_eq!(line.req_uuid, "someuuid");
    assert_eq!(line.http_method, "GET");
    assert_eq!(line.uri, "/api/tickets");
    assert_eq!(line.user_id, Some(1));
    assert_eq!(line.error, Some(Error::AuthFailTokenWrongFormat));
    assert_eq!(line.client_error, Some(ClientError::AuthFailTokenWrongFormat));
}
