use ticket_service::ctx::Ctx;
use ticket_service::error::{ClientError, Error};
use ticket_service::log::log_request;
use ticket_service::model::{ModelController, TicketForCreate};
use ticket_service::web::mw_auth::{mw_ctx_resolver, mw_require_auth, TokenCheck};
use ticket_service::web::mw_res_map::{main_response_mapper, map_response, MappedResponse};

const UUID: &str = "67e55044-10b1-426f-9247-bb680e5fe0c8";

fn assert_random_uuid_text(s: &str) {
    assert_eq!(s.len(), 36);
    for (i, c) in s.chars().enumerate() {
        if i == 8 || i == 13 || i == 18 || i == 23 {
            assert_eq!(c, '-');
        } else {
            assert!(matches!(c, '0'..='9' | 'a'..='f'), "{c} at {i}");
        }
    }
    assert_eq!(s.as_bytes()[14], b'4');
    assert!(matches!(s.as_bytes()[19], b'8' | b'9' | b'a' | b'b'));
    let parsed = uuid::Uuid::parse_str(s).unwrap();
    assert_eq!(parsed.get_version_num(), 4);
    assert_eq!(parsed.to_string(), s);
}

#[test]
fn log_line_records_the_request() {
    let line = log_request(
        UUID,
        "DELETE",
        "/api/tickets/3",
        Some(Ctx::new(1)),
        Some(Error::TicketDeleteFailIdNotFound { id: 3 }),
        Some(ClientError::InvalidParams),
    );
    assert_eq!(line.uuid, UUID);
    assert_eq!(line.req_method, "DELETE");
    assert_eq!(line.req_path, "/api/tickets/3");
    assert_eq!(line.user_id, Some(1));
    assert_eq!(line.error, Some(Error::TicketDeleteFailIdNotFound { id: 3 }));
    assert_eq!(line.client_error_type, Some(ClientError::InvalidParams));
}

#[test]
fn log_line_of_an_anonymous_success() {
    let line = log_request(UUID, "GET", "/hello", None, None, None);
    assert_eq!(line.uuid, UUID);
    assert_eq!(line.req_method, "GET");
    assert_eq!(line.req_path, "/hello");
    assert_eq!(line.user_id, None);
    assert_eq!(line.error, None);
    assert_eq!(line.client_error_type, None);
}

#[test]
fn response_without_error_passes_unchanged() {
    let (mapped, line) =
        map_response(UUID, Some(Ctx::new(1)), "/api/tickets", "GET", None, "the body".to_string());
    match mapped {
        MappedResponse::Unchanged(res) => assert_eq!(res, "the body"),
        MappedResponse::Replaced(_) => panic!("a response without error was replaced"),
    }
    assert_eq!(line.uuid, UUID);
    assert_eq!(line.user_id, Some(1));
    assert_eq!(line.error, None);
    assert_eq!(line.client_error_type, None);
}

#[test]
fn response_with_error_is_replaced_by_the_envelope() {
    let err = Error::TicketDeleteFailIdNotFound { id: 3 };
    let (mapped, line) = map_response(
        UUID,
        Some(Ctx::new(1)),
        "/api/tickets/3",
        "DELETE",
        Some(err),
        "dropped".to_string(),
    );
    match mapped {
        MappedResponse::Replaced(r) => {
            assert_eq!(r.status, 400);
            assert_eq!(r.body.error.error_type, "INVALID_PARAMS");
            assert_eq!(r.body.error.req_uuid, UUID);
        }
        MappedResponse::Unchanged(_) => panic!("a failed response passed unchanged"),
    }
    assert_eq!(line.uuid, UUID);
    assert_eq!(line.req_method, "DELETE");
    assert_eq!(line.req_path, "/api/tickets/3");
    assert_eq!(line.error, Some(err));
    assert_eq!(line.client_error_type, Some(ClientError::InvalidParams));
}

#[test]
fn every_failure_gets_the_same_envelope() {
    let cases = [
        (Error::LoginFail, 401, "LOGIN_FAIL"),
        (Error::AuthFailNoAuthTokenCookie, 401, "NO_AUTH"),
        (Error::AuthFailTokenWrongFormat, 401, "NO_AUTH"),
        (Error::AuthFailCtxNotInRequestExt, 401, "NO_AUTH"),
        (Error::TicketDeleteFailIdNotFound { id: 0 }, 400, "INVALID_PARAMS"),
        (Error::InternalFault, 500, "SERVICE_ERROR"),
    ];
    for (err, status, tag) in cases {
        let (mapped, line) = main_response_mapper(None, "/api/tickets", "POST", Some(err), ());
        match mapped {
            MappedResponse::Replaced(r) => {
                assert_eq!(r.status, status);
                assert_eq!(r.body.error.error_type, tag);
                assert_random_uuid_text(&r.body.error.req_uuid);
                assert_eq!(r.body.error.req_uuid, line.uuid);
            }
            MappedResponse::Unchanged(_) => panic!("a failed response passed unchanged"),
        }
        assert_eq!(line.error, Some(err));
        assert_eq!(line.user_id, None);
    }
}

#[test]
fn mapper_logs_successful_requests_too() {
    let (mapped, line) = main_response_mapper(Some(Ctx::new(8)), "/api/tickets", "GET", None, 200u16);
    assert!(matches!(mapped, MappedResponse::Unchanged(200)));
    assert_random_uuid_text(&line.uuid);
    assert_eq!(line.req_method, "GET");
    assert_eq!(line.req_path, "/api/tickets");
    assert_eq!(line.user_id, Some(8));
    assert_eq!(line.error, None);
    assert_eq!(line.client_error_type, None);
}

#[test]
fn two_failing_requests_get_different_ids() {
    let err = Some(Error::AuthFailNoAuthTokenCookie);
    let (_, first) = main_response_mapper(None, "/api/tickets", "GET", err, ());
    let (_, second) = main_response_mapper(None, "/api/tickets", "GET", err, ());
    assert_random_uuid_text(&first.uuid);
    assert_random_uuid_text(&second.uuid);
    assert_ne!(first.uuid, second.uuid);
}

#[test]
fn protected_request_without_cookie_is_answered_with_401() {
    let required = mw_require_auth(Some(mw_ctx_resolver(None)));
    let err = required.unwrap_err();
    let (mapped, _) = main_response_mapper(None, "/api/tickets", "POST", Some(err), ());
    match mapped {
        MappedResponse::Replaced(r) => {
            assert_eq!(r.status, 401);
            assert_eq!(r.body.error.error_type, "NO_AUTH");
        }
        MappedResponse::Unchanged(_) => panic!("a request without identity passed"),
    }
}

#[test]
fn end_to_end_ticket_scenario() {
    let mut mc = ModelController::new().unwrap();
    // the login of demo1 has set a credential that names user 1
    let state = mw_ctx_resolver(Some(TokenCheck::WellFormed { user_id: 1 }));

    let ctx = mw_require_auth(Some(state)).unwrap();
    let created = mc.create_ticket(ctx, TicketForCreate { title: "Ticket AAA".to_string() }).unwrap();
    assert_eq!((created.id, created.cid, created.title.as_str()), (0, 1, "Ticket AAA"));
    let (mapped, _) = main_response_mapper(Some(ctx), "/api/tickets", "POST", None, created);
    assert!(matches!(mapped, MappedResponse::Unchanged(_)));

    let ctx = mw_require_auth(Some(state)).unwrap();
    let listed = mc.list_tickets(ctx).unwrap();
    assert_eq!(listed.len(), 1);
    assert_eq!((listed[0].id, listed[0].cid, listed[0].title.as_str()), (0, 1, "Ticket AAA"));

    let ctx = mw_require_auth(Some(state)).unwrap();
    let deleted = mc.delete_ticket(ctx, 0).unwrap();
    assert_eq!((deleted.id, deleted.cid, deleted.title.as_str()), (0, 1, "Ticket AAA"));

    let ctx = mw_require_auth(Some(state)).unwrap();
    assert!(mc.list_tickets(ctx).unwrap().is_empty());
}
