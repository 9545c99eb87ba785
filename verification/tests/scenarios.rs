//! End-to-end scenarios over the library's pipeline: login, resolution,
//! guard, store operations, and error mapping, as a request cycle would run
//! them.

use ticket_service::ctx::Ctx;
use ticket_service::error::Error;
use ticket_service::login::check_login;
use ticket_service::mapper::main_response_mapper;
use ticket_service::model::{ModelController, TicketForCreate};
use ticket_service::mw_auth::{mw_ctx_resolver, mw_require_auth};

#[test]
fn login_create_list_delete_cycle() {
    // Login as the demo pair; the cookie would be set to this token.
    let token = check_login("demo1", "welcome").unwrap();

    // A later request presents the cookie; resolution succeeds.
    let resolution = mw_ctx_resolver(Some(&token));
    assert!(!resolution.remove_cookie);
    let ctx: Ctx = resolution.result.clone().unwrap();

    // The guard lets the request through to the handler.
    assert!(mw_require_auth(&resolution.result).is_ok());

    // POST /api/tickets {"title":"TicketAAA"} -> the created ticket.
    let mut mc = ModelController::new();
    let created = mc
        .create_ticket(&ctx, TicketForCreate { title: "TicketAAA".to_string() })
        .unwrap();
    assert_eq!(created.id, 0);
    assert_eq!(created.ctx_id, ctx.user_id());
    assert_eq!(created.title, "TicketAAA");

    // GET /api/tickets -> exactly that ticket.
    let listed = mc.list_tickets(&ctx).unwrap();
    assert_eq!(listed.len(), 1);
    assert_eq!(listed[0].id, 0);

    // DELETE /api/tickets/1 (nonexistent) -> the not-found failure, mapped
    // to a 400 envelope with the fixed kind string.
    let err = mc.delete_ticket(&ctx, 1).unwrap_err();
    assert_eq!(err, Error::TicketDeleteFailIdNotFound { id: 1 });
    let mapped = main_response_mapper(Some(&err)).unwrap();
    assert_eq!(mapped.status, 400);
    assert!(mapped.body.contains("TICKET_DELETE_FAIL_ID_NOT_FOUND"));
}

#[test]
fn protected_route_without_cookie_gets_401_envelope() {
    // No cookie: resolution records the distinguished failure and the guard
    // short-circuits, so the handler is never reached.
    let resolution = mw_ctx_resolver(None);
    assert!(!resolution.remove_cookie);
    let gate = mw_require_auth(&resolution.result);
    let err = gate.unwrap_err();
    assert_eq!(err, Error::AuthFailNoAuthTokenCookie);

    // The mapper builds the client envelope: 401, a req_uuid present and
    // fresh on each call.
    let first = main_response_mapper(Some(&err)).unwrap();
    let second = main_response_mapper(Some(&err)).unwrap();
    assert_eq!(first.status, 401);
    assert_eq!(first.req_uuid.len(), 36);
    assert!(first.body.contains(&first.req_uuid));
    assert_ne!(first.req_uuid, second.req_uuid);
}

#[test]
fn tampered_cookie_is_cleared_and_request_rejected() {
    let resolution = mw_ctx_resolver(Some("user-1.tampered"));
    assert!(resolution.remove_cookie);
    let err = mw_require_auth(&resolution.result).unwrap_err();
    assert_eq!(err, Error::AuthFailTokenWrongFormat);
    let mapped = main_response_mapper(Some(&err)).unwrap();
    assert_eq!(mapped.status, 401);
    assert!(mapped.body.contains("AUTH_FAIL_TOKEN_WRONG_FORMAT"));
}
